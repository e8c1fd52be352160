use render_host::device::{adapter_request, device_request, Limits, PowerPreference};
use render_host::frame::{pass_plan, ClearColor};
use render_host::pipeline::{
    pipeline_plan, Blend, ChannelMask, Face, FrontFace, PolygonMode, Topology,
};
use wgpu::TextureFormat;

#[test]
fn adapter_request_prefers_high_performance_hardware() {
    let request = adapter_request();
    assert_eq!(request.power, PowerPreference::HighPerformance);
    assert!(!request.allow_fallback);
    assert!(request.surface_compatible);
}

#[test]
fn device_request_asks_for_no_feature_and_default_limits() {
    let request = device_request(false);
    assert_eq!(request.features, 0);
    assert_eq!(request.limits, Limits::Default);
}

#[test]
fn device_request_in_a_browser_asks_for_reduced_limits() {
    let request = device_request(true);
    assert_eq!(request.features, 0);
    assert_eq!(request.limits, Limits::DownlevelWebGl2);
}

#[test]
fn pipeline_plan_describes_the_fixed_pipeline() {
    let plan = pipeline_plan(TextureFormat::Bgra8UnormSrgb);
    assert_eq!(plan.vertex_entry, "vs_main");
    assert_eq!(plan.fragment_entry, "fs_main");
    assert_eq!(plan.bind_groups, 0);
    assert_eq!(plan.vertex_buffers, 0);
    assert_eq!(plan.topology, Topology::TriangleList);
    assert_eq!(plan.front_face, FrontFace::CounterClockwise);
    assert_eq!(plan.cull, Some(Face::Back));
    assert_eq!(plan.polygon_mode, PolygonMode::Fill);
    assert!(!plan.depth_stencil);
    assert_eq!(plan.samples, 1);
    assert_eq!(plan.sample_mask, !0u64);
    assert!(!plan.alpha_to_coverage);
    assert_eq!(plan.blend, Blend::Replace);
    assert_eq!(plan.write_mask, ChannelMask { red: true, green: true, blue: true, alpha: true });
}

#[test]
fn pipeline_plan_targets_the_given_format() {
    assert_eq!(
        pipeline_plan(TextureFormat::Bgra8UnormSrgb).target_format,
        TextureFormat::Bgra8UnormSrgb
    );
    assert_eq!(pipeline_plan(TextureFormat::Rgba8Unorm).target_format, TextureFormat::Rgba8Unorm);
}

#[test]
fn pass_plan_clears_to_the_fixed_colour() {
    let plan = pass_plan();
    assert_eq!(plan.clear, ClearColor { red: 5, green: 4, blue: 9, alpha: 10 });
    assert_eq!(f64::from(plan.clear.red) / 10.0, 0.5);
    assert_eq!(f64::from(plan.clear.green) / 10.0, 0.4);
    assert_eq!(f64::from(plan.clear.blue) / 10.0, 0.9);
    assert_eq!(f64::from(plan.clear.alpha) / 10.0, 1.0);
    assert!(plan.store);
}

#[test]
fn pass_plan_draws_three_vertices_once() {
    let plan = pass_plan();
    assert_eq!(plan.vertices, 3);
    assert_eq!(plan.instances, 1);
}
