use sdf_voxels::grid::GridCell;
use sdf_voxels::lod::{LodLevels, LodStep};
use sdf_voxels::mesh::box_mesh;

type V3 = [f32; 3];

/// Distance to the axis-aligned box with half extents (1, 1, 1).
fn unit_box(p: V3) -> f32 {
    let q = [p[0].abs() - 1., p[1].abs() - 1., p[2].abs() - 1.];
    let o = [q[0].max(0.), q[1].max(0.), q[2].max(0.)];
    let outside = (o[0] * o[0] + o[1] * o[1] + o[2] * o[2]).sqrt();
    outside + q[1].max(q[2]).max(q[0]).min(0.)
}

/// Edge length of the cells of a grid of `resolution` cells over the bounds.
fn cell_edge(min: V3, max: V3, resolution: usize) -> f32 {
    let size = (max[0] - min[0]).max(max[1] - min[1]).max(max[2] - min[2]);
    size / resolution as f32
}

fn cell_center(min: V3, edge: f32, c: &GridCell) -> V3 {
    let half = edge / 2.;
    [
        min[0] + c.x as f32 * edge + half,
        min[1] + c.y as f32 * edge + half,
        min[2] + c.z as f32 * edge + half,
    ]
}

/// One flag per grid cell: the field's magnitude at its center is at most
/// the cell edge.
fn near_flags(lods: &LodLevels, min: V3, max: V3) -> (f32, Vec<bool>) {
    let edge = cell_edge(min, max, lods.resolution());
    let flags = lods
        .grid()
        .iter()
        .map(|c| {
            let v = unit_box(cell_center(min, edge, c));
            v <= edge && v >= -edge
        })
        .collect();
    (edge, flags)
}

/// Builds the levels for the unit box, returning the hierarchy and each
/// level's cell edge and cell centers (flat order).
fn unit_box_levels(resolution: usize, max_lods: usize, min_box_size: f32) -> (LodLevels, Vec<f32>, Vec<Vec<V3>>) {
    let mut lods = LodLevels::new(resolution, max_lods).unwrap();
    let mut edges: Vec<f32> = Vec::new();
    let mut centers: Vec<Vec<V3>> = Vec::new();
    loop {
        let below = edges.last().map_or(false, |e| *e < min_box_size);
        match lods.next_step(below) {
            LodStep::Stop => break,
            LodStep::Root => {
                let (min, max) = ([-1f32; 3], [1f32; 3]);
                let (edge, flags) = near_flags(&lods, min, max);
                lods.push_level(&vec![flags]);
                let kept = lods.level(0)[0].iter().map(|c| cell_center(min, edge, c)).collect();
                edges.push(edge);
                centers.push(kept);
            }
            LodStep::Refine => {
                let half = edges.last().unwrap() / 2.;
                let parents = centers.last().unwrap().clone();
                let mut new_edge = half / resolution as f32;
                let mut spans = Vec::new();
                let mut all_flags = Vec::new();
                for p in &parents {
                    let min = [p[0] - half, p[1] - half, p[2] - half];
                    let max = [p[0] + half, p[1] + half, p[2] + half];
                    let (edge, flags) = near_flags(&lods, min, max);
                    new_edge = edge;
                    spans.push((min, edge));
                    all_flags.push(flags);
                }
                lods.push_level(&all_flags);
                let k = lods.level_count() - 1;
                let mut kept = Vec::new();
                for (g, group) in lods.level(k).iter().enumerate() {
                    let (min, edge) = spans[g];
                    kept.extend(group.iter().map(|c| cell_center(min, edge, c)));
                }
                edges.push(new_edge);
                centers.push(kept);
            }
        }
    }
    (lods, edges, centers)
}

#[test]
fn unit_box_shell_at_resolution_three() {
    let (lods, edges, _) = unit_box_levels(3, 1, 0.1);
    assert_eq!(lods.level_count(), 1);
    assert!((edges[0] - 2. / 3.).abs() < 1e-6);
    assert_eq!(lods.level(0).len(), 1);
    assert_eq!(lods.level(0)[0].len(), 9 * 2 + 8);
    assert!(!lods.level(0)[0].contains(&GridCell { x: 1, y: 1, z: 1 }));
}

#[test]
fn unit_box_two_levels_of_detail() {
    let (lods, edges, centers) = unit_box_levels(3, 2, 0.1);
    assert_eq!(lods.level_count(), 2);
    assert!((edges[0] - 2. / 3.).abs() < 1e-6);
    assert_eq!(lods.level(0)[0].len(), 9 * 2 + 8);
    assert!((edges[1] - 2. / 9.).abs() < 1e-6);
    assert_eq!(lods.level(1).len(), 9 * 2 + 8);
    assert_eq!(lods.level(1)[0].len(), 19);
    assert_eq!(lods.finest_cells().len(), centers[1].len());
}

#[test]
fn unit_box_levels_are_reproducible() {
    let (a, ea, ca) = unit_box_levels(3, 2, 0.1);
    let (b, eb, cb) = unit_box_levels(3, 2, 0.1);
    assert_eq!(ea, eb);
    assert_eq!(ca, cb);
    assert_eq!(a.finest_cells(), b.finest_cells());
    for k in 0..a.level_count() {
        assert_eq!(a.level(k), b.level(k));
    }
}

#[test]
fn refinement_stops_below_the_smallest_edge() {
    let (lods, edges, _) = unit_box_levels(3, 5, 0.5);
    assert_eq!(lods.level_count(), 2);
    assert!(edges[1] < 0.5);
}

#[test]
fn steps_follow_levels_and_bound() {
    let mut lods = LodLevels::new(2, 2).unwrap();
    assert_eq!(lods.next_step(true), LodStep::Root);
    assert_eq!(lods.parent_count(), 1);
    lods.push_level(&vec![vec![true, false, false, false, false, false, false, true]]);
    assert_eq!(lods.next_step(true), LodStep::Stop);
    assert_eq!(lods.next_step(false), LodStep::Refine);
    assert_eq!(lods.parent_count(), 2);
    assert_eq!(
        lods.finest_cells(),
        &vec![GridCell { x: 0, y: 0, z: 0 }, GridCell { x: 1, y: 1, z: 1 }]
    );
    let mut second = vec![false; 8];
    second[3] = true;
    lods.push_level(&vec![vec![false; 8], second]);
    assert_eq!(lods.level(1).len(), 2);
    assert!(lods.level(1)[0].is_empty());
    assert_eq!(lods.level(1)[1], vec![GridCell { x: 0, y: 1, z: 1 }]);
    assert_eq!(lods.next_step(false), LodStep::Stop);
}

#[test]
fn zero_levels_allowed_stops_at_once() {
    let lods = LodLevels::new(3, 0).unwrap();
    assert_eq!(lods.next_step(false), LodStep::Stop);
    assert_eq!(lods.max_lods(), 0);
}

#[test]
fn zero_resolution_hierarchy_is_rejected() {
    assert!(LodLevels::new(0, 3).is_err());
}

#[test]
fn empty_field_keeps_no_cell_and_meshes_the_fallback() {
    // A field with no element reads as infinitely far everywhere: no cell is near.
    let mut lods = LodLevels::new(3, 3).unwrap();
    lods.push_level(&vec![vec![false; 27]]);
    assert!(lods.level(0)[0].is_empty());
    assert_eq!(lods.parent_count(), 0);
    assert_eq!(lods.next_step(false), LodStep::Refine);
    lods.push_level(&Vec::new());
    assert!(lods.level(1).is_empty());
    let mesh = box_mesh(lods.finest_cells().len()).unwrap();
    assert!(mesh.unit_fallback);
}
