use sdf_voxels::mesh::{box_mesh, cube_index_at, cube_vertex_at, CubeVertex, Face};

#[test]
fn cube_faces_come_in_order_with_their_normals() {
    let faces = [Face::Top, Face::Bottom, Face::Right, Face::Left, Face::Front, Face::Back];
    let normals = [(0i8, 0i8, 1i8), (0, 0, -1), (1, 0, 0), (-1, 0, 0), (0, 1, 0), (0, -1, 0)];
    for f in 0..6 {
        for k in 0..4 {
            assert_eq!(cube_vertex_at(4 * f + k).face, faces[f]);
        }
        assert_eq!(faces[f].normal(), normals[f]);
    }
}

#[test]
fn cube_vertex_table_matches_layout() {
    assert_eq!(
        cube_vertex_at(0),
        CubeVertex { face: Face::Top, max_x: false, max_y: false, max_z: true, u: 0, v: 0 }
    );
    assert_eq!(
        cube_vertex_at(5),
        CubeVertex { face: Face::Bottom, max_x: true, max_y: true, max_z: false, u: 0, v: 0 }
    );
    assert_eq!(
        cube_vertex_at(14),
        CubeVertex { face: Face::Left, max_x: false, max_y: true, max_z: false, u: 0, v: 1 }
    );
    assert_eq!(
        cube_vertex_at(23),
        CubeVertex { face: Face::Back, max_x: true, max_y: false, max_z: false, u: 0, v: 1 }
    );
}

#[test]
fn cube_indices_form_two_triangles_per_face() {
    let expected: Vec<u32> = vec![
        0, 1, 2, 2, 3, 0, 4, 5, 6, 6, 7, 4, 8, 9, 10, 10, 11, 8, 12, 13, 14, 14, 15, 12, 16, 17,
        18, 18, 19, 16, 20, 21, 22, 22, 23, 20,
    ];
    let got: Vec<u32> = (0..36).map(cube_index_at).collect();
    assert_eq!(got, expected);
}

#[test]
fn no_boxes_gives_the_fallback_cube() {
    let mesh = box_mesh(0).unwrap();
    assert!(mesh.unit_fallback);
    assert_eq!(mesh.vertices.len(), 24);
    assert_eq!(mesh.indices.len(), 36);
    assert!(mesh.vertices.iter().all(|v| v.cell == 0));
}

#[test]
fn boxes_get_their_own_vertices_and_shifted_indices() {
    let mesh = box_mesh(3).unwrap();
    assert!(!mesh.unit_fallback);
    assert_eq!(mesh.vertices.len(), 72);
    assert_eq!(mesh.indices.len(), 108);
    assert_eq!(mesh.indices[36], 24);
    assert_eq!(mesh.indices[41], 24);
    assert_eq!(mesh.indices[107], 68);
    assert_eq!(mesh.vertices[24].cell, 1);
    assert_eq!(mesh.vertices[71].cell, 2);
    assert_eq!(mesh.vertices[71].corner, cube_vertex_at(23));
    for (j, i) in mesh.indices.iter().enumerate() {
        assert_eq!(mesh.vertices[*i as usize].cell, j / 36);
    }
}

#[test]
fn too_many_boxes_for_u32_indices_is_refused() {
    assert!(box_mesh(178_956_971).is_none());
    assert!(box_mesh(usize::MAX).is_none());
}
