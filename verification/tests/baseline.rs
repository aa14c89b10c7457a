use clearframe::config::{
    adapter_request_options, baseline_clear_color, device_request, pipeline_config,
    pipeline_layout_config, render_pass_config, shader_entry_point, surface_format, Color,
    CullMode, IndexFormat, LoadOp, PowerPreference, PrimitiveTopology, StoreOp, TextureFormat,
};

#[test]
fn clear_color_is_opaque_green() {
    let c = baseline_clear_color();
    assert_eq!(c, Color { r: 0, g: 255, b: 0, a: 255 });
}

#[test]
fn adapter_options_follow_baseline_policy() {
    let o = adapter_request_options();
    assert_eq!(o.power_preference, PowerPreference::NoPreference);
    assert!(o.require_surface_compatible);
    assert!(!o.fallback_only);
}

#[test]
fn device_request_asks_for_nothing_optional() {
    let d = device_request();
    assert_eq!(d.required_feature_bits, 0);
    assert!(d.default_limits);
    assert!(d.shader_validation);
}

#[test]
fn layout_declares_no_bindings() {
    let c = pipeline_layout_config();
    assert_eq!(c.bind_group_slots.len(), 0);
    assert_eq!(c.push_constant_ranges.len(), 0);
}

#[test]
fn layout_builder_is_deterministic() {
    let a = pipeline_layout_config();
    let b = pipeline_layout_config();
    assert_eq!(a.bind_group_slots.len(), b.bind_group_slots.len());
    assert_eq!(a.push_constant_ranges.len(), b.push_constant_ranges.len());
    assert!(a.bind_group_slots.is_empty() && b.bind_group_slots.is_empty());
    assert!(a.push_constant_ranges.is_empty() && b.push_constant_ranges.is_empty());
}

#[test]
fn pipeline_state_is_the_fixed_baseline() {
    let c = pipeline_config(surface_format());
    assert_eq!(c.topology, PrimitiveTopology::TriangleList);
    assert_eq!(c.color_format, TextureFormat::Bgra8UnormSrgb);
    assert_eq!(c.color_target_count, 1);
    assert!(!c.has_depth_stencil);
    assert_eq!(c.index_format, IndexFormat::Uint16);
    assert_eq!(c.vertex_buffer_count, 0);
    assert_eq!(c.sample_count, 1);
    assert_eq!(c.sample_mask, u64::MAX);
    assert!(!c.alpha_to_coverage);
    assert_eq!(c.cull_mode, CullMode::NoCulling);
    assert_eq!(c.depth_bias, 0);
}

#[test]
fn pipeline_color_target_matches_surface_format() {
    let f = surface_format();
    let c = pipeline_config(f);
    assert_eq!(c.color_format, f);
    let c2 = pipeline_config(TextureFormat::Rgba8UnormSrgb);
    assert_eq!(c2.color_format, TextureFormat::Rgba8UnormSrgb);
}

#[test]
fn both_shader_stages_enter_at_main() {
    assert_eq!(shader_entry_point(), "main");
}

#[test]
fn frame_pass_clears_green_stores_binds_and_draws_nothing() {
    let c = render_pass_config();
    assert_eq!(c.load, LoadOp::Clear(Color { r: 0, g: 255, b: 0, a: 255 }));
    assert_eq!(c.store, StoreOp::Store);
    assert_eq!(c.color_attachment_count, 1);
    assert!(!c.has_depth_stencil);
    assert!(!c.has_resolve_target);
    assert!(c.binds_pipeline);
    assert_eq!(c.draw_count, 0);
}
