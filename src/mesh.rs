//! The layout of a mesh made of one independent cube per kept cell: 24
//! vertices per cube (4 per face, so that each face is shaded flat) and 36
//! indices per cube (2 triangles per face). Cubes share no vertex.

use vstd::prelude::*;

verus! {

/// A face of an axis-aligned cube, named by its outward normal.
#[derive(Clone, Copy, Debug, PartialEq, Eq, Structural)]
pub enum Face {
    /// Normal +z.
    Top,
    /// Normal -z.
    Bottom,
    /// Normal +x.
    Right,
    /// Normal -x.
    Left,
    /// Normal +y.
    Front,
    /// Normal -y.
    Back,
}

/// The outward unit normal of a face, as (x, y, z).
pub open spec fn face_normal(face: Face) -> (int, int, int) {
    match face {
        Face::Top => (0, 0, 1),
        Face::Bottom => (0, 0, -1),
        Face::Right => (1, 0, 0),
        Face::Left => (-1, 0, 0),
        Face::Front => (0, 1, 0),
        Face::Back => (0, -1, 0),
    }
}

impl Face {
    /// The outward unit normal of the face, as (x, y, z).
    pub fn normal(self) -> (r: (i8, i8, i8))
        ensures
            (r.0 as int, r.1 as int, r.2 as int) == face_normal(self),
    {
        match self {
            Face::Top => (0, 0, 1),
            Face::Bottom => (0, 0, -1),
            Face::Right => (1, 0, 0),
            Face::Left => (-1, 0, 0),
            Face::Front => (0, 1, 0),
            Face::Back => (0, -1, 0),
        }
    }
}

/// One vertex of a cube: the face it belongs to, the corner it sits on (for
/// each axis, whether it takes the cube's largest or smallest coordinate), and
/// its texture coordinate within the face, each 0 or 1.
#[derive(Clone, Copy, Debug, PartialEq, Eq, Structural)]
pub struct CubeVertex {
    pub face: Face,
    pub max_x: bool,
    pub max_y: bool,
    pub max_z: bool,
    pub u: u8,
    pub v: u8,
}

/// Vertex `i` of a cube, for `i` in 0..24: four per face, faces in the order
/// top, bottom, right, left, front, back.
pub open spec fn cube_vertex(i: int) -> CubeVertex {
    if i == 0 {
        CubeVertex { face: Face::Top, max_x: false, max_y: false, max_z: true, u: 0, v: 0 }
    } else if i == 1 {
        CubeVertex { face: Face::Top, max_x: true, max_y: false, max_z: true, u: 1, v: 0 }
    } else if i == 2 {
        CubeVertex { face: Face::Top, max_x: true, max_y: true, max_z: true, u: 1, v: 1 }
    } else if i == 3 {
        CubeVertex { face: Face::Top, max_x: false, max_y: true, max_z: true, u: 0, v: 1 }
    } else if i == 4 {
        CubeVertex { face: Face::Bottom, max_x: false, max_y: true, max_z: false, u: 1, v: 0 }
    } else if i == 5 {
        CubeVertex { face: Face::Bottom, max_x: true, max_y: true, max_z: false, u: 0, v: 0 }
    } else if i == 6 {
        CubeVertex { face: Face::Bottom, max_x: true, max_y: false, max_z: false, u: 0, v: 1 }
    } else if i == 7 {
        CubeVertex { face: Face::Bottom, max_x: false, max_y: false, max_z: false, u: 1, v: 1 }
    } else if i == 8 {
        CubeVertex { face: Face::Right, max_x: true, max_y: false, max_z: false, u: 0, v: 0 }
    } else if i == 9 {
        CubeVertex { face: Face::Right, max_x: true, max_y: true, max_z: false, u: 1, v: 0 }
    } else if i == 10 {
        CubeVertex { face: Face::Right, max_x: true, max_y: true, max_z: true, u: 1, v: 1 }
    } else if i == 11 {
        CubeVertex { face: Face::Right, max_x: true, max_y: false, max_z: true, u: 0, v: 1 }
    } else if i == 12 {
        CubeVertex { face: Face::Left, max_x: false, max_y: false, max_z: true, u: 1, v: 0 }
    } else if i == 13 {
        CubeVertex { face: Face::Left, max_x: false, max_y: true, max_z: true, u: 0, v: 0 }
    } else if i == 14 {
        CubeVertex { face: Face::Left, max_x: false, max_y: true, max_z: false, u: 0, v: 1 }
    } else if i == 15 {
        CubeVertex { face: Face::Left, max_x: false, max_y: false, max_z: false, u: 1, v: 1 }
    } else if i == 16 {
        CubeVertex { face: Face::Front, max_x: true, max_y: true, max_z: false, u: 1, v: 0 }
    } else if i == 17 {
        CubeVertex { face: Face::Front, max_x: false, max_y: true, max_z: false, u: 0, v: 0 }
    } else if i == 18 {
        CubeVertex { face: Face::Front, max_x: false, max_y: true, max_z: true, u: 0, v: 1 }
    } else if i == 19 {
        CubeVertex { face: Face::Front, max_x: true, max_y: true, max_z: true, u: 1, v: 1 }
    } else if i == 20 {
        CubeVertex { face: Face::Back, max_x: true, max_y: false, max_z: true, u: 0, v: 0 }
    } else if i == 21 {
        CubeVertex { face: Face::Back, max_x: false, max_y: false, max_z: true, u: 1, v: 0 }
    } else if i == 22 {
        CubeVertex { face: Face::Back, max_x: false, max_y: false, max_z: false, u: 1, v: 1 }
    } else {
        CubeVertex { face: Face::Back, max_x: true, max_y: false, max_z: false, u: 0, v: 1 }
    }
}

/// Vertex `i` of a cube.
pub fn cube_vertex_at(i: usize) -> (r: CubeVertex)
    requires
        i < 24,
    ensures
        r == cube_vertex(i as int),
{
    match i {
        0 => CubeVertex { face: Face::Top, max_x: false, max_y: false, max_z: true, u: 0, v: 0 },
        1 => CubeVertex { face: Face::Top, max_x: true, max_y: false, max_z: true, u: 1, v: 0 },
        2 => CubeVertex { face: Face::Top, max_x: true, max_y: true, max_z: true, u: 1, v: 1 },
        3 => CubeVertex { face: Face::Top, max_x: false, max_y: true, max_z: true, u: 0, v: 1 },
        4 => CubeVertex { face: Face::Bottom, max_x: false, max_y: true, max_z: false, u: 1, v: 0 },
        5 => CubeVertex { face: Face::Bottom, max_x: true, max_y: true, max_z: false, u: 0, v: 0 },
        6 => CubeVertex { face: Face::Bottom, max_x: true, max_y: false, max_z: false, u: 0, v: 1 },
        7 => CubeVertex { face: Face::Bottom, max_x: false, max_y: false, max_z: false, u: 1, v: 1 },
        8 => CubeVertex { face: Face::Right, max_x: true, max_y: false, max_z: false, u: 0, v: 0 },
        9 => CubeVertex { face: Face::Right, max_x: true, max_y: true, max_z: false, u: 1, v: 0 },
        10 => CubeVertex { face: Face::Right, max_x: true, max_y: true, max_z: true, u: 1, v: 1 },
        11 => CubeVertex { face: Face::Right, max_x: true, max_y: false, max_z: true, u: 0, v: 1 },
        12 => CubeVertex { face: Face::Left, max_x: false, max_y: false, max_z: true, u: 1, v: 0 },
        13 => CubeVertex { face: Face::Left, max_x: false, max_y: true, max_z: true, u: 0, v: 0 },
        14 => CubeVertex { face: Face::Left, max_x: false, max_y: true, max_z: false, u: 0, v: 1 },
        15 => CubeVertex { face: Face::Left, max_x: false, max_y: false, max_z: false, u: 1, v: 1 },
        16 => CubeVertex { face: Face::Front, max_x: true, max_y: true, max_z: false, u: 1, v: 0 },
        17 => CubeVertex { face: Face::Front, max_x: false, max_y: true, max_z: false, u: 0, v: 0 },
        18 => CubeVertex { face: Face::Front, max_x: false, max_y: true, max_z: true, u: 0, v: 1 },
        19 => CubeVertex { face: Face::Front, max_x: true, max_y: true, max_z: true, u: 1, v: 1 },
        20 => CubeVertex { face: Face::Back, max_x: true, max_y: false, max_z: true, u: 0, v: 0 },
        21 => CubeVertex { face: Face::Back, max_x: false, max_y: false, max_z: true, u: 1, v: 0 },
        22 => CubeVertex { face: Face::Back, max_x: false, max_y: false, max_z: false, u: 1, v: 1 },
        _ => CubeVertex { face: Face::Back, max_x: true, max_y: false, max_z: false, u: 0, v: 1 },
    }
}

/// Which of a face's four vertices the `k`-th index of its two triangles
/// names: the triangles (0, 1, 2) and (2, 3, 0).
pub open spec fn face_corner(k: int) -> int {
    if k == 0 || k == 5 {
        0
    } else if k == 1 {
        1
    } else if k == 2 || k == 3 {
        2
    } else {
        3
    }
}

/// Index `i` of a cube, for `i` in 0..36, relative to the cube's first vertex.
pub open spec fn cube_index(i: int) -> int {
    4 * (i / 6) + face_corner(i % 6)
}

/// Index `i` of a cube, relative to the cube's first vertex.
pub fn cube_index_at(i: usize) -> (r: u32)
    requires
        i < 36,
    ensures
        r == cube_index(i as int),
{
    let k = i % 6;
    let corner: u32 = if k == 0 || k == 5 {
        0
    } else if k == 1 {
        1
    } else if k == 2 || k == 3 {
        2
    } else {
        3
    };
    4 * ((i / 6) as u32) + corner
}

/// A vertex of a combined mesh: vertex `corner` of the cube built on kept
/// cell number `cell`.
#[derive(Clone, Copy, Debug, PartialEq, Eq, Structural)]
pub struct MeshVertex {
    pub cell: usize,
    pub corner: CubeVertex,
}

/// The layout of a combined cube mesh. Vertex attributes (position, normal,
/// texture coordinate) follow from each vertex, and `indices` lists the
/// triangles, three indices each. When there is no kept cell the mesh is a
/// single unit cube at the origin, and `unit_fallback` is set.
pub struct BoxMesh {
    pub unit_fallback: bool,
    pub vertices: Vec<MeshVertex>,
    pub indices: Vec<u32>,
}

/// Number of cubes in the mesh of `box_count` kept cells: one per cell, or
/// the single fallback cube when there is none.
pub open spec fn mesh_cube_count(box_count: nat) -> nat {
    if box_count == 0 {
        1
    } else {
        box_count
    }
}

/// Every index of such a mesh, and the count of its vertices, fits in a `u32`.
pub open spec fn mesh_fits(box_count: nat) -> bool {
    24 * mesh_cube_count(box_count) <= u32::MAX
}

/// Vertex `j` of a combined mesh.
pub open spec fn mesh_vertex(j: int) -> MeshVertex {
    MeshVertex { cell: (j / 24) as usize, corner: cube_vertex(j % 24) }
}

/// Index `j` of a combined mesh: the indices of cube `j / 36`, shifted past the
/// vertices of the cubes before it.
pub open spec fn mesh_index(j: int) -> int {
    24 * (j / 36) + cube_index(j % 36)
}

/// `m` is the mesh of `box_count` kept cells.
pub open spec fn is_box_mesh(m: BoxMesh, box_count: nat) -> bool {
    &&& m.unit_fallback == (box_count == 0)
    &&& m.vertices@.len() == 24 * mesh_cube_count(box_count)
    &&& m.indices@.len() == 36 * mesh_cube_count(box_count)
    &&& forall|j: int| 0 <= j < m.vertices@.len() ==> #[trigger] m.vertices@[j] == mesh_vertex(j)
    &&& forall|j: int| 0 <= j < m.indices@.len() ==> #[trigger] m.indices@[j] as int == mesh_index(j)
}

/// Appends the 24 vertices and 36 indices of the cube on cell `cell`, whose
/// first vertex is number `start`.
fn push_cube(vertices: &mut Vec<MeshVertex>, indices: &mut Vec<u32>, cell: usize, start: u32)
    requires
        start + 24 <= u32::MAX,
    ensures
        final(vertices)@ == old(vertices)@ + Seq::new(
            24,
            |v: int| MeshVertex { cell, corner: cube_vertex(v) },
        ),
        final(indices)@ == old(indices)@ + Seq::new(36, |i: int| (start + cube_index(i)) as u32),
{
    let ghost vs = Seq::new(24, |v: int| MeshVertex { cell, corner: cube_vertex(v) });
    let ghost is = Seq::new(36, |i: int| (start + cube_index(i)) as u32);
    let mut v: usize = 0;
    while v < 24
        invariant
            v <= 24,
            vs == Seq::new(24, |v: int| MeshVertex { cell, corner: cube_vertex(v) }),
            vertices@ == old(vertices)@ + vs.take(v as int),
        decreases 24 - v,
    {
        proof {
            assert(vs.take(v + 1) =~= vs.take(v as int).push(vs[v as int]));
        }
        vertices.push(MeshVertex { cell, corner: cube_vertex_at(v) });
        v = v + 1;
    }
    let mut i: usize = 0;
    while i < 36
        invariant
            i <= 36,
            start + 24 <= u32::MAX,
            is == Seq::new(36, |i: int| (start + cube_index(i)) as u32),
            indices@ == old(indices)@ + is.take(i as int),
        decreases 36 - i,
    {
        proof {
            assert(is.take(i + 1) =~= is.take(i as int).push(is[i as int]));
        }
        let offset = cube_index_at(i);
        indices.push(start + offset);
        i = i + 1;
    }
    proof {
        assert(vs.take(24) =~= vs);
        assert(is.take(36) =~= is);
    }
}

/// The layout of the mesh of `box_count` kept cells, one cube each, or of the
/// single fallback cube when there is none; `None` when its indices would not
/// fit in a `u32`.
pub fn box_mesh(box_count: usize) -> (r: Option<BoxMesh>)
    ensures
        r is Some <==> mesh_fits(box_count as nat),
        r is Some ==> is_box_mesh(r->Some_0, box_count as nat),
{
    let cubes: usize = if box_count == 0 {
        1
    } else {
        box_count
    };
    let most: usize = (u32::MAX / 24) as usize;
    if cubes > most {
        return None;
    }
    let mut vertices: Vec<MeshVertex> = Vec::new();
    let mut indices: Vec<u32> = Vec::new();
    let mut b: usize = 0;
    while b < cubes
        invariant
            cubes == mesh_cube_count(box_count as nat),
            24 * cubes <= u32::MAX,
            b <= cubes,
            vertices@.len() == 24 * b,
            indices@.len() == 36 * b,
            forall|j: int| 0 <= j < 24 * b ==> #[trigger] vertices@[j] == mesh_vertex(j),
            forall|j: int| 0 <= j < 36 * b ==> #[trigger] indices@[j] as int == mesh_index(j),
        decreases cubes - b,
    {
        let ghost old_vertices = vertices@;
        let ghost old_indices = indices@;
        let start: u32 = (24 * b) as u32;
        push_cube(&mut vertices, &mut indices, b, start);
        proof {
            assert forall|j: int| 0 <= j < 24 * (b + 1) implies #[trigger] vertices@[j]
                == mesh_vertex(j) by {
                if j >= 24 * b {
                    vstd::arithmetic::div_mod::lemma_fundamental_div_mod_converse(
                        j,
                        24,
                        b as int,
                        j - 24 * b,
                    );
                } else {
                    assert(vertices@[j] == old_vertices[j]);
                }
            }
            assert forall|j: int| 0 <= j < 36 * (b + 1) implies #[trigger] indices@[j] as int
                == mesh_index(j) by {
                if j >= 36 * b {
                    vstd::arithmetic::div_mod::lemma_fundamental_div_mod_converse(
                        j,
                        36,
                        b as int,
                        j - 36 * b,
                    );
                } else {
                    assert(indices@[j] == old_indices[j]);
                }
            }
        }
        b = b + 1;
    }
    Some(BoxMesh { unit_fallback: box_count == 0, vertices, indices })
}

/// The face that holds vertices `4 * f` to `4 * f + 3` of a cube.
pub open spec fn face_at(f: int) -> Face {
    if f == 0 {
        Face::Top
    } else if f == 1 {
        Face::Bottom
    } else if f == 2 {
        Face::Right
    } else if f == 3 {
        Face::Left
    } else if f == 4 {
        Face::Front
    } else {
        Face::Back
    }
}

/// Each index of a combined mesh names one of its vertices, on the cube of the
/// triangle it belongs to and on that triangle's face: cubes share no vertex,
/// and every triangle lies flat on one face.
pub proof fn lemma_box_mesh_index(m: BoxMesh, box_count: nat, j: int)
    requires
        is_box_mesh(m, box_count),
        0 <= j < m.indices@.len(),
    ensures
        0 <= m.indices@[j] < m.vertices@.len(),
        m.vertices@[m.indices@[j] as int].cell == j / 36,
        m.vertices@[m.indices@[j] as int].corner.face == face_at((j % 36) / 6),
{
    let n = mesh_cube_count(box_count) as int;
    let b = j / 36;
    let i = j % 36;
    vstd::arithmetic::div_mod::lemma_fundamental_div_mod(j, 36);
    vstd::arithmetic::div_mod::lemma_mod_pos_bound(j, 36);
    vstd::arithmetic::div_mod::lemma_div_pos_is_pos(j, 36);
    vstd::arithmetic::div_mod::lemma_multiply_divide_lt(j, 36, n);
    let c = cube_index(i);
    assert(0 <= c < 24 && cube_vertex(c).face == face_at(i / 6)) by {
        assert(0 <= i / 6 < 6);
        assert(0 <= i % 6 < 6);
    }
    let idx = 24 * b + c;
    assert(m.indices@[j] as int == idx);
    assert(idx < 24 * n) by (nonlinear_arith)
        requires
            idx == 24 * b + c,
            0 <= c < 24,
            0 <= b < n,
    ;
    assert(idx >= 0) by (nonlinear_arith)
        requires
            idx == 24 * b + c,
            0 <= c,
            0 <= b,
    ;
    vstd::arithmetic::div_mod::lemma_fundamental_div_mod_converse(idx, 24, b, c);
}

/// The layout of the mesh of a given number of kept cells is unique: building
/// it twice gives the same vertices and indices.
pub proof fn lemma_box_mesh_unique(m1: BoxMesh, m2: BoxMesh, box_count: nat)
    requires
        is_box_mesh(m1, box_count),
        is_box_mesh(m2, box_count),
    ensures
        m1.unit_fallback == m2.unit_fallback,
        m1.vertices@ == m2.vertices@,
        m1.indices@ == m2.indices@,
{
    assert(m1.vertices@ =~= m2.vertices@);
    assert(m1.indices@ =~= m2.indices@);
}

} // verus!
