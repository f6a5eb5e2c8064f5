use webxr_session::mesh::{
    cube_indices, COLOR_OFFSET, COLOR_SIZE, FLOAT32_BYTES_PER_ELEMENT, INDEX_COUNT,
    POSITION_OFFSET, STRIDE, VERTEX_COUNT, VERTEX_SIZE,
};

#[test]
fn cube_index_list_has_exactly_36_entries() {
    let indices = cube_indices();
    assert_eq!(indices.len(), 36);
    assert_eq!(indices.len() as u32, INDEX_COUNT);
}

#[test]
fn cube_indices_reference_the_8_vertices() {
    let indices = cube_indices();
    for &i in &indices {
        assert!(i < VERTEX_COUNT, "index {} out of range", i);
    }
}

#[test]
fn cube_mesh_is_12_whole_triangles() {
    let indices = cube_indices();
    assert_eq!(indices.len() % 3, 0);
    assert_eq!(indices.len() / 3, 12);
}

#[test]
fn cube_indices_are_stable_across_calls() {
    assert_eq!(cube_indices(), cube_indices());
}

#[test]
fn interleaved_layout_is_7_components_at_4_bytes() {
    assert_eq!(VERTEX_SIZE, 3);
    assert_eq!(COLOR_SIZE, 4);
    assert_eq!(FLOAT32_BYTES_PER_ELEMENT, 4);
    assert_eq!(STRIDE, 28);
    assert_eq!(POSITION_OFFSET, 0);
    assert_eq!(COLOR_OFFSET, 12);
}
