use cosy::instance::{
    debug_messenger_config, instance_extensions, make_api_version, DEBUG_SEVERITY_ERROR,
    DEBUG_SEVERITY_INFO, DEBUG_SEVERITY_WARNING, DEBUG_TYPE_GENERAL, DEBUG_TYPE_PERFORMANCE,
    DEBUG_TYPE_VALIDATION,
};
use cosy::pipeline::{
    descriptor_bindings, fixed_pipeline_config, quad_indices, vertex_layout, CompareOp,
    DescriptorKind, FrontFace, Topology,
};

#[test]
fn extension_list_appends_debug_utils() {
    let required = vec!["VK_KHR_surface".to_string(), "VK_KHR_xlib_surface".to_string()];
    let exts = instance_extensions(required, "VK_EXT_debug_utils".to_string());
    assert_eq!(
        exts,
        vec![
            "VK_KHR_surface".to_string(),
            "VK_KHR_xlib_surface".to_string(),
            "VK_EXT_debug_utils".to_string(),
        ]
    );
}

#[test]
fn api_version_packs_fields() {
    // Version 1.0.0, variant 0: only the major field is set.
    assert_eq!(make_api_version(0, 1, 0, 0), 1 << 22);
    assert_eq!(make_api_version(0, 1, 3, 251), (1 << 22) | (3 << 12) | 251);
}

#[test]
fn messenger_is_configured_only_with_validation_on() {
    assert!(debug_messenger_config(false).is_none());
    let c = debug_messenger_config(true).unwrap();
    assert_eq!(c.severities, DEBUG_SEVERITY_ERROR | DEBUG_SEVERITY_WARNING | DEBUG_SEVERITY_INFO);
    assert_eq!(c.kinds, DEBUG_TYPE_GENERAL | DEBUG_TYPE_VALIDATION | DEBUG_TYPE_PERFORMANCE);
}

#[test]
fn pipeline_configuration_is_the_fixed_one() {
    let c = fixed_pipeline_config();
    assert_eq!(c.topology, Topology::TriangleList);
    assert_eq!(c.front_face, FrontFace::CounterClockwise);
    assert_eq!(c.sample_count, 1);
    assert!(c.depth_test);
    assert!(c.depth_write);
    assert_eq!(c.depth_compare, CompareOp::LessOrEqual);
    assert!(!c.blend_enabled);
    assert_eq!(c.color_write_mask, 0xf);
    assert!(c.dynamic_viewport);
    assert!(c.dynamic_scissor);
}

#[test]
fn descriptor_layout_binds_uniform_and_sampler() {
    let b = descriptor_bindings();
    assert_eq!(b.len(), 2);
    assert_eq!(b[0].binding, 0);
    assert_eq!(b[0].kind, DescriptorKind::UniformBuffer);
    assert_eq!(b[0].count, 1);
    assert!(b[0].fragment_stage);
    assert_eq!(b[1].binding, 1);
    assert_eq!(b[1].kind, DescriptorKind::CombinedImageSampler);
    assert_eq!(b[1].count, 1);
    assert!(b[1].fragment_stage);
}

#[test]
fn vertex_layout_places_uv_after_position() {
    let l = vertex_layout();
    assert_eq!(l.stride, 24);
    assert_eq!(l.position_offset, 0);
    assert_eq!(l.position_components, 4);
    assert_eq!(l.uv_offset, 16);
    assert_eq!(l.uv_components, 2);
}

#[test]
fn quad_uses_two_triangles_over_four_vertices() {
    assert_eq!(quad_indices(), vec![0, 1, 2, 2, 3, 0]);
}
