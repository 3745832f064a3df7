use sdf_renderer::application::{
    frame_due, Application, FramePlan, LoopEvent, TickOutcome, TARGET_FRAME_INTERVAL_NANOS,
};
use sdf_renderer::gpu_sync::{DeviceTimeline, GpuOp, ImageHandle};
use sdf_renderer::render_pass::{
    textured_quad, ClearColor, DrawPipeline, RenderPassPlaceOverFrame, SamplerAddressing,
    SamplerFilter,
};
use sdf_renderer::signed_distance_function_renderer::SimpleVulkanRendererComputePipeline;
use sdf_renderer::user_io::UserIO;

fn compute_grid_for(size: (u32, u32)) -> (u32, u32, u32) {
    let mut stage = SimpleVulkanRendererComputePipeline::new(0, size, 42);
    let mut timeline = DeviceTimeline::new();
    let before = timeline.now();
    let _after = stage.compute(&mut timeline, before, 0);
    assert_eq!(timeline.submission_count(), 1);
    match timeline.submission(0).op {
        GpuOp::Compute { commands } => commands.grid,
        _ => panic!("expected a compute submission"),
    }
}

#[test]
fn dispatch_grid_64_is_8_8_1() {
    assert_eq!(compute_grid_for((64, 64)), (8, 8, 1));
}

#[test]
fn dispatch_grid_60_truncates_to_7_7_1() {
    assert_eq!(compute_grid_for((60, 60)), (7, 7, 1));
}

#[test]
fn dispatch_grid_mixed_axes() {
    assert_eq!(compute_grid_for((1024, 768)), (128, 96, 1));
    assert_eq!(compute_grid_for((7, 9)), (0, 1, 1));
}

#[test]
fn quad_geometry_exact() {
    let (vertices, indices) = textured_quad(2, 2);
    assert_eq!(vertices.len(), 4);
    assert_eq!(vertices[0].position, (-1, -1));
    assert_eq!(vertices[0].tex_coords, (0, 1));
    assert_eq!(vertices[1].position, (-1, 1));
    assert_eq!(vertices[1].tex_coords, (0, 0));
    assert_eq!(vertices[2].position, (1, 1));
    assert_eq!(vertices[2].tex_coords, (1, 0));
    assert_eq!(vertices[3].position, (1, -1));
    assert_eq!(vertices[3].tex_coords, (1, 1));
    assert_eq!(indices, vec![0, 2, 1, 0, 3, 2]);
}

#[test]
fn quad_geometry_other_extents() {
    let (vertices, _) = textured_quad(4, 2);
    assert_eq!(vertices[0].position, (-2, -1));
    assert_eq!(vertices[2].position, (2, 1));
    // odd extents truncate toward zero when halved
    let (vertices, _) = textured_quad(3, 3);
    assert_eq!(vertices[0].position, (-1, -1));
    assert_eq!(vertices[2].position, (1, 1));
}

#[test]
fn quad_invariant_to_stage_lifetime() {
    let pipeline = DrawPipeline::new(7);
    let (vertices, indices) = textured_quad(2, 2);
    assert_eq!(pipeline.vertices, vertices);
    assert_eq!(pipeline.indices, indices);
    let image = ImageHandle { image_id: 1, size: (64, 64) };
    let _first = pipeline.draw((640, 480), image);
    let _second = pipeline.draw((16, 16), image);
    assert_eq!(pipeline.vertices, vertices);
    assert_eq!(pipeline.indices, indices);
}

#[test]
fn draw_records_viewport_sampler_and_counts() {
    let pipeline = DrawPipeline::new(0);
    let image = ImageHandle { image_id: 77, size: (64, 64) };
    let commands = pipeline.draw((111, 222), image);
    assert_eq!(commands.viewport, (111, 222));
    assert_eq!(commands.binding.binding, 0);
    assert_eq!(commands.binding.image_id, 77);
    assert!(matches!(commands.binding.sampler.mag_filter, SamplerFilter::Nearest));
    assert!(matches!(commands.binding.sampler.min_filter, SamplerFilter::Nearest));
    assert!(matches!(commands.binding.sampler.address_mode, SamplerAddressing::Repeat));
    assert_eq!(commands.index_count, 6);
    assert_eq!(commands.instance_count, 1);
}

#[test]
fn render_submits_composite_after_before_future() {
    let stage = RenderPassPlaceOverFrame::new(3, 99);
    let mut timeline = DeviceTimeline::new();
    let view = ImageHandle { image_id: 8, size: (64, 64) };
    let target = ImageHandle { image_id: 2, size: (800, 600) };
    let start = timeline.now();
    let _after = stage.render(&mut timeline, start, view, target);
    assert_eq!(timeline.submission_count(), 1);
    let submission = timeline.submission(0);
    assert_eq!(submission.queue, 3);
    assert_eq!(submission.after, 0);
    match submission.op {
        GpuOp::Composite { commands } => {
            assert_eq!(commands.target_image, 2);
            assert!(matches!(commands.clear, ClearColor::TransparentBlack));
            assert_eq!(commands.draw.viewport, (800, 600));
            assert_eq!(commands.draw.binding.image_id, 8);
        }
        _ => panic!("expected a composite submission"),
    }
}

#[test]
fn color_image_identity_stable_across_computes() {
    let mut stage = SimpleVulkanRendererComputePipeline::new(0, (64, 64), 9);
    let mut timeline = DeviceTimeline::new();
    let first = stage.color_image();
    let token = timeline.now();
    let token = stage.compute(&mut timeline, token, 10);
    let second = stage.color_image();
    let _token = stage.compute(&mut timeline, token, 20);
    let third = stage.color_image();
    assert_eq!(first, second);
    assert_eq!(second, third);
    assert_eq!(first.image_id, 9);
    assert_eq!(first.size, (64, 64));
}

#[test]
fn compute_pushes_elapsed_time() {
    let mut stage = SimpleVulkanRendererComputePipeline::new(0, (64, 64), 1);
    let mut timeline = DeviceTimeline::new();
    let token = timeline.now();
    let _token = stage.compute(&mut timeline, token, 123_456_789);
    match timeline.submission(0).op {
        GpuOp::Compute { commands } => {
            assert_eq!(commands.push_time_nanos, 123_456_789);
            assert_eq!(commands.image_id, 1);
        }
        _ => panic!("expected a compute submission"),
    }
}

#[test]
fn composite_always_after_compute_1000_frames() {
    let mut app = Application::default();
    let id = app.open_new_window(64, 64, 37);
    let mut timeline = DeviceTimeline::new();
    for frame in 0..1000u64 {
        let base = timeline.submission_count();
        let outcome = app.tick_window(&mut timeline, id, frame * TARGET_FRAME_INTERVAL_NANOS);
        assert!(matches!(outcome, TickOutcome::Presented));
        assert_eq!(timeline.submission_count(), base + 4);
        let acquire = timeline.submission(base);
        let compute = timeline.submission(base + 1);
        let composite = timeline.submission(base + 2);
        let present = timeline.submission(base + 3);
        // tickets are index + 1: each step waits for exactly the one before
        assert_eq!(acquire.after, 0);
        assert_eq!(compute.after, base + 1);
        assert_eq!(composite.after, base + 2);
        assert_eq!(present.after, base + 3);
        assert!(matches!(acquire.op, GpuOp::Acquire { window_id } if window_id == id));
        assert!(matches!(compute.op, GpuOp::Compute { .. }));
        assert!(matches!(composite.op, GpuOp::Composite { .. }));
        assert!(matches!(present.op, GpuOp::Present { window_id } if window_id == id));
    }
}

#[test]
fn open_then_close_secondary_leaves_primary_untouched() {
    let mut app = Application::default();
    let mut input = UserIO::new();
    let primary = app.open_new_window(1024, 1024, 5);
    assert_eq!(app.primary_window_id(), Some(primary));
    let secondary = app.open_new_window(300, 200, 5);
    assert_ne!(primary, secondary);
    assert_eq!(app.window_count(), 2);
    let keep = app.handle_event(&mut input, LoopEvent::CloseRequested { window_id: secondary });
    assert!(keep);
    assert_eq!(app.window_count(), 1);
    let entry = app.window(0);
    assert_eq!(entry.window_id, primary);
    assert_eq!(entry.size, (1024, 1024));
    assert_eq!(entry.surface_generation, 0);
    assert_eq!(entry.pipeline.compute.image.size, (1024, 1024));
    assert_eq!(app.primary_window_id(), Some(primary));
}

#[test]
fn close_primary_stops_loop_without_removing_it() {
    let mut app = Application::default();
    let mut input = UserIO::new();
    let primary = app.open_new_window(640, 480, 5);
    let keep = app.handle_event(&mut input, LoopEvent::CloseRequested { window_id: primary });
    assert!(!keep);
    assert_eq!(app.window_count(), 1);
}

#[test]
fn minimized_window_skips_tick_and_resumes_after_resize() {
    let mut app = Application::default();
    let mut input = UserIO::new();
    let id = app.open_new_window(640, 480, 5);
    let mut timeline = DeviceTimeline::new();
    let keep = app.handle_event(&mut input, LoopEvent::Resized { window_id: id, width: 0, height: 0 });
    assert!(keep);
    assert!(matches!(app.plan_window_frame(id), FramePlan::SkipMinimized));
    let outcome = app.tick_window(&mut timeline, id, 0);
    assert!(matches!(outcome, TickOutcome::SkippedMinimized));
    assert_eq!(timeline.submission_count(), 0);
    let keep = app.handle_event(&mut input, LoopEvent::Resized { window_id: id, width: 320, height: 240 });
    assert!(keep);
    assert!(matches!(app.plan_window_frame(id), FramePlan::Render));
    let outcome = app.tick_window(&mut timeline, id, TARGET_FRAME_INTERVAL_NANOS);
    assert!(matches!(outcome, TickOutcome::Presented));
    assert_eq!(timeline.submission_count(), 4);
}

#[test]
fn resize_updates_viewport_on_next_frame() {
    let mut app = Application::default();
    let mut input = UserIO::new();
    let id = app.open_new_window(640, 480, 5);
    let mut timeline = DeviceTimeline::new();
    let _outcome = app.tick_window(&mut timeline, id, 0);
    match timeline.submission(2).op {
        GpuOp::Composite { commands } => {
            assert_eq!(commands.draw.viewport, (640, 480));
            assert_eq!(commands.target_image, 0);
        }
        _ => panic!("expected a composite submission"),
    }
    let keep = app.handle_event(&mut input, LoopEvent::Resized { window_id: id, width: 800, height: 600 });
    assert!(keep);
    let _outcome = app.tick_window(&mut timeline, id, TARGET_FRAME_INTERVAL_NANOS);
    assert_eq!(timeline.submission_count(), 8);
    match timeline.submission(6).op {
        GpuOp::Composite { commands } => {
            // the viewport follows the renegotiated presentable images
            assert_eq!(commands.draw.viewport, (800, 600));
            assert_eq!(commands.target_image, 1);
            // the off-screen image was not reallocated by the resize
            assert_eq!(commands.draw.binding.image_id, app.window(0).pipeline.compute.image.image_id);
        }
        _ => panic!("expected a composite submission"),
    }
}

#[test]
fn scale_factor_change_renegotiates_like_resize() {
    let mut app = Application::default();
    let mut input = UserIO::new();
    let id = app.open_new_window(100, 100, 5);
    let keep = app.handle_event(
        &mut input,
        LoopEvent::ScaleFactorChanged { window_id: id, width: 200, height: 200 },
    );
    assert!(keep);
    let entry = app.window(0);
    assert_eq!(entry.size, (200, 200));
    assert_eq!(entry.surface_generation, 1);
}

#[test]
fn mouse_delta_is_last_write_wins() {
    let mut io = UserIO::new();
    assert_eq!(io.mouse_motion_delta(), (0, 0));
    io.set_mouse_delta((1.5f64).to_bits(), (-0.25f64).to_bits());
    io.set_mouse_delta((3.0f64).to_bits(), (4.0f64).to_bits());
    let (x_bits, y_bits) = io.mouse_motion_delta();
    assert_eq!(f64::from_bits(x_bits), 3.0);
    assert_eq!(f64::from_bits(y_bits), 4.0);
    assert!(io.keys_changed().is_empty());
}

#[test]
fn key_events_accumulate_in_arrival_order() {
    let mut io = UserIO::new();
    io.set_keyboard_input(30, true);
    io.set_keyboard_input(30, false);
    io.set_keyboard_input(57, true);
    assert_eq!(io.keys_changed(), &vec![(30, true), (30, false), (57, true)]);
    assert_eq!(io.mouse_motion_delta(), (0, 0));
}

#[test]
fn input_events_flow_through_event_handling() {
    let mut app = Application::default();
    let mut input = UserIO::new();
    let id = app.open_new_window(640, 480, 5);
    let keep = app.handle_event(
        &mut input,
        LoopEvent::MouseMotion { delta_x_bits: (2.0f64).to_bits(), delta_y_bits: 0 },
    );
    assert!(keep);
    let keep = app.handle_event(
        &mut input,
        LoopEvent::KeyboardInput { window_id: id, scancode: 17, pressed: true },
    );
    assert!(keep);
    let keep = app.handle_event(&mut input, LoopEvent::MouseInput { window_id: id });
    assert!(keep);
    let (x_bits, _) = input.mouse_motion_delta();
    assert_eq!(f64::from_bits(x_bits), 2.0);
    assert_eq!(input.keys_changed(), &vec![(17, true)]);
    assert_eq!(app.window_count(), 1);
}

#[test]
fn frame_cadence_boundary() {
    assert!(!frame_due(0));
    assert!(!frame_due(TARGET_FRAME_INTERVAL_NANOS - 1));
    assert!(frame_due(TARGET_FRAME_INTERVAL_NANOS));
    assert!(frame_due(TARGET_FRAME_INTERVAL_NANOS + 1));
}
