use planet_render::pipeline::{
    pipeline_config, vertex_layout, Culling, DepthTest, FrontFace, Topology, VertexAttribute,
    FLOAT_BYTES, VECTOR_COMPONENTS,
};
use planet_render::uniform::UNIFORM_BLOCK_BYTES;

#[test]
fn vertex_is_position_then_normal_tightly_packed() {
    let layout = vertex_layout();
    assert_eq!(layout.position, VertexAttribute { offset: 0, shader_location: 0, components: 3 });
    assert_eq!(layout.normal, VertexAttribute { offset: 12, shader_location: 1, components: 3 });
    assert_eq!(layout.array_stride, 24);
    assert_eq!(layout.array_stride, std::mem::size_of::<[[f32; 3]; 2]>() as u64);
    assert_eq!(layout.normal.offset, std::mem::size_of::<[f32; 3]>() as u64);
    assert_eq!(FLOAT_BYTES, std::mem::size_of::<f32>() as u64);
    assert_eq!(VECTOR_COMPONENTS, 3);
}

#[test]
fn pipeline_culls_back_faces_and_tests_depth_with_less() {
    let config = pipeline_config();
    assert_eq!(config.topology, Topology::TriangleList);
    assert_eq!(config.front_face, FrontFace::CounterClockwise);
    assert_eq!(config.culling, Culling::BackFaces);
    assert_eq!(config.depth_test, DepthTest::Less);
    assert!(config.depth_write);
    assert_eq!(config.sample_count, 1);
    assert_eq!(config.vertex_layout, vertex_layout());
}

#[test]
fn uniform_block_is_bound_at_slot_zero_of_group_zero() {
    let config = pipeline_config();
    assert_eq!(config.uniform_group, 0);
    assert_eq!(config.uniform_binding, 0);
    assert_eq!(config.uniform_bytes, UNIFORM_BLOCK_BYTES as u64);
    assert_eq!(config.uniform_bytes, 144);
}
