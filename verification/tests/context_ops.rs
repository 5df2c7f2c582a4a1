//! The render context: program swap, frame plans, events, shutdown.

use shader_viewer::context::{
    OwnedHandles, ShaderContext, WindowEvent, QUAD_VERTEX_COUNT,
};
use shader_viewer::shaders::{CompileError, ShaderStage};

fn viewer(program: u32) -> ShaderContext {
    ShaderContext::new(
        1,
        2,
        program,
        "shaders/vertex.glsl".to_string(),
        "shaders/fragment.glsl".to_string(),
        1_000,
        800,
        600,
    )
}

#[test]
fn new_context_is_live_and_keeps_its_arguments() {
    let ctx = viewer(7);
    assert!(ctx.alive);
    assert_eq!(ctx.shader_program, 7);
    assert_eq!(ctx.vao, 1);
    assert_eq!(ctx.vbo, 2);
    assert_eq!(ctx.vertex_shader_path, "shaders/vertex.glsl");
    assert_eq!(ctx.fragment_shader_path, "shaders/fragment.glsl");
    assert_eq!((ctx.framebuffer_width, ctx.framebuffer_height), (800, 600));
    assert_eq!(ctx.time_state.total_time, 0);
    assert_eq!(ctx.time_state.delta_time, 0);
}

#[test]
fn startup_with_failed_compile_still_constructs() {
    // Initial compilation failure leaves the zero program; construction
    // succeeds and rendering draws with an inactive program.
    let ctx = viewer(0);
    assert!(ctx.alive);
    assert_eq!(ctx.shader_program, 0);
    let plan = ctx.render(5_000);
    assert_eq!(plan.program, 0);
}

#[test]
fn reload_success_swaps_and_releases_old_handle_once() {
    let mut ctx = viewer(7);
    let released = ctx.reload_shaders(Ok(9));
    assert_eq!(ctx.shader_program, 9);
    assert_eq!(released, Some(7));
}

#[test]
fn reload_failure_keeps_program_and_releases_nothing() {
    let mut ctx = viewer(7);
    let released = ctx.reload_shaders(Err(CompileError::StageCompile {
        stage: ShaderStage::Fragment,
        log: "0:3: syntax error".to_string(),
    }));
    assert_eq!(ctx.shader_program, 7);
    assert_eq!(released, None);
}

#[test]
fn broken_fragment_edit_keeps_prior_program_for_next_frame() {
    // A reload after a bad fragment edit fails with the stage identified;
    // the next frame still draws with the prior, unmodified program.
    let mut ctx = viewer(7);
    let error = CompileError::StageCompile {
        stage: ShaderStage::Fragment,
        log: "0:12: unexpected token".to_string(),
    };
    let released = ctx.reload_shaders(Err(error));
    assert_eq!(released, None);
    let plan = ctx.render(5_000);
    assert_eq!(plan.program, 7);
}

#[test]
fn render_plan_carries_time_and_resolution() {
    let mut ctx = viewer(7);
    ctx.update(3_000);
    let plan = ctx.render(1_700_000_000);
    assert_eq!(plan.program, 7);
    assert_eq!(plan.vao, 1);
    assert_eq!(plan.u_time_nanos, 2_000);
    assert_eq!(plan.u_delta_time_nanos, 2_000);
    assert_eq!(plan.u_epoch_time_nanos, 1_700_000_000);
    assert_eq!((plan.resolution_width, plan.resolution_height), (800, 600));
    assert_eq!(plan.vertex_count, QUAD_VERTEX_COUNT);
    assert_eq!(plan.vertex_count, 6);
}

#[test]
fn resize_updates_viewport_and_next_frame_resolution() {
    // Resize from 800x600 to 1024x768: one viewport update, and the next
    // frame's resolution uniform matches the new size.
    let mut ctx = viewer(7);
    let events = vec![
        WindowEvent::FramebufferResize { width: 1024, height: 768 },
        WindowEvent::Other,
    ];
    let outcome = ctx.process_events(&events, false);
    assert!(outcome.keep_running);
    assert!(!outcome.close_requested);
    assert_eq!(outcome.viewport_updates, vec![(1024, 768)]);
    let plan = ctx.render(0);
    assert_eq!((plan.resolution_width, plan.resolution_height), (1024, 768));
}

#[test]
fn last_of_several_resizes_wins() {
    let mut ctx = viewer(7);
    let events = vec![
        WindowEvent::FramebufferResize { width: 640, height: 480 },
        WindowEvent::FramebufferResize { width: 1920, height: 1080 },
    ];
    let outcome = ctx.process_events(&events, false);
    assert_eq!(outcome.viewport_updates, vec![(640, 480), (1920, 1080)]);
    assert_eq!(
        (ctx.framebuffer_width, ctx.framebuffer_height),
        (1920, 1080)
    );
}

#[test]
fn escape_key_requests_close_and_stops_the_loop() {
    let mut ctx = viewer(7);
    let events = vec![WindowEvent::Other, WindowEvent::EscapePressed];
    let outcome = ctx.process_events(&events, false);
    assert!(outcome.close_requested);
    assert!(!outcome.keep_running);
}

#[test]
fn window_close_request_stops_the_loop_without_escape() {
    let mut ctx = viewer(7);
    let events = vec![WindowEvent::Other];
    let outcome = ctx.process_events(&events, true);
    assert!(!outcome.close_requested);
    assert!(!outcome.keep_running);
}

#[test]
fn empty_event_batch_changes_nothing() {
    let mut ctx = viewer(7);
    let outcome = ctx.process_events(&Vec::new(), false);
    assert!(outcome.keep_running);
    assert!(outcome.viewport_updates.is_empty());
    assert_eq!((ctx.framebuffer_width, ctx.framebuffer_height), (800, 600));
}

#[test]
fn shutdown_hands_back_every_owned_handle_once() {
    let mut ctx = viewer(7);
    let released = ctx.shutdown();
    assert_eq!(released, Some(OwnedHandles { program: 7, vao: 1, vbo: 2 }));
    assert!(!ctx.alive);
    assert_eq!((ctx.shader_program, ctx.vao, ctx.vbo), (0, 0, 0));
}

#[test]
fn second_shutdown_releases_nothing() {
    let mut ctx = viewer(7);
    let first = ctx.shutdown();
    assert!(first.is_some());
    let second = ctx.shutdown();
    assert_eq!(second, None);
    let third = ctx.shutdown();
    assert_eq!(third, None);
}
