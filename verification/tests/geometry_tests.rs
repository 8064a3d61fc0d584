use render_core::geometry::{index_count, indices, AttributeFormat, VertexBufferLayout};

#[test]
fn index_table_is_the_pentagon_fan() {
    assert_eq!(indices(), vec![0u16, 1, 4, 1, 2, 4, 2, 3, 4]);
    assert_eq!(index_count(), 9);
    assert_eq!(indices().len(), index_count() as usize);
}

#[test]
fn every_index_addresses_one_of_the_five_vertices() {
    for i in indices() {
        assert!(i < 5);
    }
}

#[test]
fn vertex_layout_packs_position_then_tex_coords() {
    let layout = VertexBufferLayout::desc();
    // Five float components per vertex: 3 position + 2 texture coordinates.
    assert_eq!(layout.array_stride, 20);
    assert!(!layout.step_per_instance);
    assert_eq!(layout.attributes.len(), 2);

    let position = layout.attributes[0];
    assert_eq!(position.offset, 0);
    assert_eq!(position.shader_location, 0);
    assert_eq!(position.format, AttributeFormat::Float32x3);

    let tex = layout.attributes[1];
    assert_eq!(tex.offset, 12);
    assert_eq!(tex.shader_location, 1);
    assert_eq!(tex.format, AttributeFormat::Float32x2);
}
