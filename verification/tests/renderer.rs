use sindri_client::config::{choose_format_index, initial_config, PresentMode, SurfaceConfig, DESIRED_FRAME_LATENCY};
use sindri_client::context::{FrameStep, GraphicsContext};
use sindri_client::geometry::{triangle, vertex_layout, VertexPos};
use sindri_client::negotiate::{adapter_request, device_request, setup_diagnostic, PowerPreference, SetupError};
use sindri_client::options::{parse_gpu_options, GpuOptions};
use sindri_client::pipeline::pipeline_desc;
use sindri_client::render::{classify_acquire, AcquireClass, AcquireOutcome};

fn new_context(width: u32, height: u32) -> GraphicsContext {
    GraphicsContext::new(width, height, &vec![true])
}

#[test]
fn parse_no_flags() {
    let opts = parse_gpu_options(&vec![]);
    assert_eq!(opts, GpuOptions { fallback: false, low_power: false });
}

#[test]
fn parse_fallback_flag() {
    let opts = parse_gpu_options(&vec!["--fallback-gpu".to_string()]);
    assert!(opts.fallback);
    assert!(!opts.low_power);
}

#[test]
fn parse_low_power_flag() {
    let opts = parse_gpu_options(&vec!["--low-power".to_string()]);
    assert!(!opts.fallback);
    assert!(opts.low_power);
}

#[test]
fn parse_both_flags_any_order() {
    let opts = parse_gpu_options(&vec!["--low-power".to_string(), "--fallback-gpu".to_string()]);
    assert!(opts.fallback);
    assert!(opts.low_power);
}

#[test]
fn parse_ignores_unrecognized() {
    let opts = parse_gpu_options(&vec![
        "--verbose".to_string(),
        "file.txt".to_string(),
        "--low-power=yes".to_string(),
    ]);
    assert_eq!(opts, GpuOptions { fallback: false, low_power: false });
}

#[test]
fn adapter_request_default_is_high_performance() {
    let req = adapter_request(GpuOptions { fallback: false, low_power: false });
    assert_eq!(req.power_preference, PowerPreference::HighPerformance);
    assert!(!req.force_fallback);
    assert!(req.compatible_with_surface);
}

#[test]
fn adapter_request_fallback_regardless_of_power() {
    let req = adapter_request(GpuOptions { fallback: true, low_power: false });
    assert!(req.force_fallback);
    assert_eq!(req.power_preference, PowerPreference::HighPerformance);
    let req2 = adapter_request(GpuOptions { fallback: true, low_power: true });
    assert!(req2.force_fallback);
    assert_eq!(req2.power_preference, PowerPreference::LowPower);
}

#[test]
fn device_request_is_default_features_and_limits() {
    let req = device_request();
    assert!(req.required_features_empty);
    assert!(req.default_limits);
}

#[test]
fn setup_diagnostics_name_the_failure() {
    assert_eq!(setup_diagnostic(SetupError::SurfaceCreation), "Failed to create wgpu surface");
    assert_eq!(
        setup_diagnostic(SetupError::NoAdapter),
        "No suitable GPU adapters found. Try --fallback-gpu or update Vulkan drivers."
    );
    assert_eq!(setup_diagnostic(SetupError::DeviceCreation), "Failed to create device");
}

#[test]
fn format_choice_prefers_first_srgb() {
    assert_eq!(choose_format_index(&vec![false, false, true, true]), 2);
    assert_eq!(choose_format_index(&vec![true, false]), 0);
}

#[test]
fn format_choice_falls_back_to_first() {
    assert_eq!(choose_format_index(&vec![false, false, false]), 0);
    assert_eq!(choose_format_index(&vec![false]), 0);
}

#[test]
fn initial_config_floors_zero_to_one() {
    let c = initial_config(0, 0, &vec![true]);
    assert_eq!(c.width, 1);
    assert_eq!(c.height, 1);
    let c2 = initial_config(800, 0, &vec![true]);
    assert_eq!(c2.width, 800);
    assert_eq!(c2.height, 1);
}

#[test]
fn initial_config_fixed_choices() {
    let c = initial_config(800, 600, &vec![false, true]);
    assert_eq!(c.present_mode, PresentMode::Fifo);
    assert_eq!(c.alpha_index, 0);
    assert_eq!(c.frame_latency, DESIRED_FRAME_LATENCY);
    assert_eq!(c.frame_latency, 2);
    assert!(c.usage_render_attachment);
    assert_eq!(c.format_index, 1);
    assert_eq!(c.width, 800);
    assert_eq!(c.height, 600);
}

#[test]
fn triangle_is_the_fixed_one() {
    let v = triangle();
    assert_eq!(v.len(), 3);
    assert_eq!(v[0], VertexPos { x_tenths: 0, y_tenths: 6 });
    assert_eq!(v[1], VertexPos { x_tenths: -6, y_tenths: -6 });
    assert_eq!(v[2], VertexPos { x_tenths: 6, y_tenths: -6 });
}

#[test]
fn vertex_layout_matches_vertex_record() {
    let l = vertex_layout();
    assert_eq!(l.array_stride, 8);
    assert!(!l.per_instance);
    assert_eq!(l.attr_shader_location, 0);
    assert_eq!(l.attr_components, 2);
    assert_eq!(l.attr_component_bits, 32);
}

#[test]
fn pipeline_targets_surface_format() {
    let c = initial_config(640, 480, &vec![false, false, true]);
    let p = pipeline_desc(&c);
    assert_eq!(p.target_format_index, c.format_index);
    assert!(p.blend_replace);
    assert!(p.write_mask_all);
    assert_eq!(p.bind_group_layouts, 0);
    assert_eq!(p.push_constant_ranges, 0);
    assert!(!p.has_depth_stencil);
    assert_eq!(p.sample_count, 1);
    assert!(p.triangle_list);
    assert!(p.single_view);
    assert_eq!(p.vertex_layout, vertex_layout());
}

#[test]
fn classification_is_total() {
    assert_eq!(classify_acquire(AcquireOutcome::Success), AcquireClass::Proceed);
    assert_eq!(classify_acquire(AcquireOutcome::Lost), AcquireClass::Recover);
    assert_eq!(classify_acquire(AcquireOutcome::Outdated), AcquireClass::Recover);
    assert_eq!(classify_acquire(AcquireOutcome::OutOfMemory), AcquireClass::Fatal);
    assert_eq!(classify_acquire(AcquireOutcome::Timeout), AcquireClass::SoftSkip);
}

#[test]
fn resize_applies_exact_size() {
    let mut g = new_context(800, 600);
    let reconfigured = g.resize(1024, 768);
    assert!(reconfigured);
    assert_eq!(g.config.width, 1024);
    assert_eq!(g.config.height, 768);
}

#[test]
fn resize_zero_is_a_no_op() {
    let mut g = new_context(800, 600);
    let before = g.config;
    let reconfigured = g.resize(0, 0);
    assert!(!reconfigured);
    assert_eq!(g.config, before);
}

#[test]
fn scenario_one_frame_at_800_by_600() {
    let g = new_context(800, 600);
    assert_eq!(g.config.width, 800);
    assert_eq!(g.config.height, 600);
    let step = g.on_acquire(AcquireOutcome::Success);
    match step {
        FrameStep::Draw(plan) => {
            assert_eq!(plan.clear.r_centi, 8);
            assert_eq!(plan.clear.g_centi, 8);
            assert_eq!(plan.clear.b_centi, 9);
            assert_eq!(plan.clear.a_centi, 100);
            assert!(plan.store_result);
            assert_eq!(plan.vertex_buffer_slot, 0);
            assert_eq!(plan.draw.first_vertex, 0);
            assert_eq!(plan.draw.vertex_count, 3);
            assert_eq!(plan.draw.first_instance, 0);
            assert_eq!(plan.draw.instance_count, 1);
            assert!(!plan.has_depth_stencil);
            assert!(!plan.occlusion_queries);
            assert!(!plan.timestamp_queries);
        }
        other => panic!("expected a draw, got {:?}", other),
    }
}

#[test]
fn scenario_resize_to_zero_width_skips_reconfiguration() {
    let mut g = new_context(800, 600);
    let reconfigured = g.resize(0, 480);
    assert!(!reconfigured);
    assert_eq!(g.config.width, 800);
    assert_eq!(g.config.height, 600);
    // The window is minimized: the render tick is skipped outright.
    assert!(g.minimized);
    assert_eq!(g.on_acquire(AcquireOutcome::Success), FrameStep::Skip);
}

#[test]
fn minimized_window_skips_every_tick_without_reconfiguration() {
    let mut g = new_context(800, 600);
    g.resize(0, 480);
    assert_eq!(g.on_acquire(AcquireOutcome::Success), FrameStep::Skip);
    assert_eq!(g.on_acquire(AcquireOutcome::Lost), FrameStep::Skip);
    assert_eq!(g.on_acquire(AcquireOutcome::Timeout), FrameStep::Skip);
}

#[test]
fn rendering_resumes_after_nonzero_resize() {
    let mut g = new_context(800, 600);
    g.resize(0, 0);
    assert!(g.minimized);
    g.resize(640, 480);
    assert!(!g.minimized);
    match g.on_acquire(AcquireOutcome::Success) {
        FrameStep::Draw(plan) => {
            assert_eq!(plan.draw.vertex_count, 3);
            assert_eq!(plan.draw.instance_count, 1);
        }
        other => panic!("expected a draw, got {:?}", other),
    }
}

#[test]
fn scenario_zero_then_real_resize_applies_exactly() {
    let mut g = new_context(800, 600);
    assert!(!g.resize(0, 0));
    assert!(g.resize(640, 480));
    assert_eq!(g.config.width, 640);
    assert_eq!(g.config.height, 480);
}

#[test]
fn scenario_lost_reconfigures_last_known_size_without_draw() {
    let g = new_context(1024, 768);
    let step = g.on_acquire(AcquireOutcome::Lost);
    assert_eq!(step, FrameStep::Reconfigure(1024, 768));
}

#[test]
fn scenario_outdated_also_recovers() {
    let g = new_context(320, 240);
    let step = g.on_acquire(AcquireOutcome::Outdated);
    assert_eq!(step, FrameStep::Reconfigure(320, 240));
}

#[test]
fn scenario_out_of_memory_exits() {
    let g = new_context(800, 600);
    let step = g.on_acquire(AcquireOutcome::OutOfMemory);
    assert_eq!(step, FrameStep::Exit);
}

#[test]
fn scenario_timeout_skips_frame() {
    let g = new_context(800, 600);
    let step = g.on_acquire(AcquireOutcome::Timeout);
    assert_eq!(step, FrameStep::Skip);
}

#[test]
fn context_keeps_geometry_through_resizes() {
    let mut g = new_context(800, 600);
    let triangle_before = g.vertices.clone();
    g.resize(1, 1);
    g.resize(0, 7);
    g.resize(4096, 2160);
    assert_eq!(g.vertices, triangle_before);
    assert_eq!(g.vertex_count, 3);
    assert_eq!(g.vertices, triangle());
}
