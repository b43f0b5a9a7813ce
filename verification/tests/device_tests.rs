use d3d12_core::device::{initialize_d3d12, FrameEvents, GpuContext, InitEvents};
use d3d12_core::error::GraphicsError;
use d3d12_core::selector::AdapterInfo;
use d3d12_core::surface::{get_back_buffer_format, BufferState, BACK_BUFFER_FORMAT};

fn one_hardware_adapter() -> Vec<AdapterInfo> {
    vec![AdapterInfo {
        software: false,
        supports_12_0: true,
        supports_12_1: false,
        supports_12_2: false,
    }]
}

fn good_init_events() -> InitEvents {
    InitEvents {
        debug_layer_available: true,
        command_objects_ok: true,
        swapchain_ok: true,
        tearing_supported: false,
        heap_base: 4096,
        descriptor_size: 32,
        initial_index: 0,
        fence_ok: true,
    }
}

fn good_frame_events(observed_completed: u64) -> FrameEvents {
    FrameEvents {
        reset_ok: true,
        submit_ok: true,
        present_ok: true,
        observed_completed,
        wait_ok: true,
    }
}

fn fresh_context() -> GpuContext {
    initialize_d3d12(77, 1920, 1080, &one_hardware_adapter(), good_init_events()).unwrap()
}

#[test]
fn initialize_succeeds_on_hardware_at_1080p() {
    let r = initialize_d3d12(77, 1920, 1080, &one_hardware_adapter(), good_init_events());
    let ctx = r.unwrap();
    assert!(ctx.surface.current_index < 2);
    assert_eq!(ctx.surface.width, 1920);
    assert_eq!(ctx.surface.height, 1080);
    // creation ends with one full drain: value 1 was signaled and reached
    assert_eq!(ctx.fence.next_value, 2);
    assert_eq!(ctx.fence.completed_value, 1);
    assert_eq!(ctx.fence.signal_value(), 2);
    assert!(ctx.diagnostics_cached);
}

#[test]
fn initialize_with_software_only_reports_adapter_not_found() {
    let adapters = vec![AdapterInfo {
        software: true,
        supports_12_0: true,
        supports_12_1: true,
        supports_12_2: true,
    }];
    let r = initialize_d3d12(77, 1920, 1080, &adapters, good_init_events());
    assert_eq!(r, Err(GraphicsError::AdapterNotFound));
}

#[test]
fn initialize_reports_the_first_failing_stage() {
    let mut ev = good_init_events();
    ev.command_objects_ok = false;
    ev.swapchain_ok = false;
    ev.fence_ok = false;
    assert_eq!(
        initialize_d3d12(77, 640, 480, &one_hardware_adapter(), ev),
        Err(GraphicsError::CommandObjectCreationFailed)
    );
    ev.command_objects_ok = true;
    assert_eq!(
        initialize_d3d12(77, 640, 480, &one_hardware_adapter(), ev),
        Err(GraphicsError::SwapChainCreationFailed)
    );
    ev.swapchain_ok = true;
    assert_eq!(
        initialize_d3d12(77, 640, 480, &one_hardware_adapter(), ev),
        Err(GraphicsError::FenceCreationFailed)
    );
}

#[test]
fn three_frames_toggle_the_back_buffer_index() {
    let mut ctx = fresh_context();
    assert_eq!(ctx.surface.current_index, 0);
    assert_eq!(ctx.run_frame(1920, 1080, good_frame_events(1)), Ok(()));
    assert_eq!(ctx.surface.buffer_state_0, BufferState::Present);
    assert_eq!(ctx.surface.buffer_state_1, BufferState::Present);
    assert_eq!(ctx.surface.current_index, 1);
    assert_eq!(ctx.run_frame(1920, 1080, good_frame_events(2)), Ok(()));
    assert_eq!(ctx.surface.buffer_state_0, BufferState::Present);
    assert_eq!(ctx.surface.buffer_state_1, BufferState::Present);
    assert_eq!(ctx.surface.current_index, 0);
    assert_eq!(ctx.run_frame(1920, 1080, good_frame_events(3)), Ok(()));
    assert_eq!(ctx.surface.buffer_state_0, BufferState::Present);
    assert_eq!(ctx.surface.buffer_state_1, BufferState::Present);
    assert_eq!(ctx.surface.current_index, 1);
}

#[test]
fn frame_counts_the_fence_up_by_one() {
    let mut ctx = fresh_context();
    assert_eq!(ctx.fence.next_value, 2);
    ctx.run_frame(1920, 1080, good_frame_events(1)).unwrap();
    assert_eq!(ctx.fence.next_value, 3);
    assert_eq!(ctx.fence.completed_value, 2);
}

#[test]
fn failed_reset_skips_the_frame_and_changes_nothing() {
    let mut ctx = fresh_context();
    let before = ctx;
    let mut ev = good_frame_events(1);
    ev.reset_ok = false;
    assert_eq!(ctx.run_frame(1920, 1080, ev), Err(GraphicsError::ResetFailed));
    assert_eq!(ctx, before);
    // the next frame proceeds normally
    assert_eq!(ctx.run_frame(1920, 1080, good_frame_events(1)), Ok(()));
}

#[test]
fn failed_submit_leaves_no_work_in_flight() {
    let mut ctx = fresh_context();
    let mut ev = good_frame_events(1);
    ev.submit_ok = false;
    assert_eq!(ctx.run_frame(1920, 1080, ev), Err(GraphicsError::SubmitFailed));
    assert!(!ctx.submission.work_in_flight);
    assert!(!ctx.submission.list_open);
    assert_eq!(ctx.surface.current_index, 0);
    assert_eq!(ctx.run_frame(1920, 1080, good_frame_events(1)), Ok(()));
}

#[test]
fn failed_present_still_drains_for_the_next_frame() {
    let mut ctx = fresh_context();
    let mut ev = good_frame_events(1);
    ev.present_ok = false;
    assert_eq!(ctx.run_frame(1920, 1080, ev), Err(GraphicsError::PresentFailed));
    // nothing was presented, so the engine still holds buffer 0
    assert_eq!(ctx.surface.current_index, 0);
    // but the drain completed, so the next frame may reset
    assert!(!ctx.submission.work_in_flight);
    assert_eq!(ctx.fence.completed_value, 2);
    assert_eq!(ctx.run_frame(1920, 1080, good_frame_events(2)), Ok(()));
}

#[test]
fn failed_wait_reports_and_leaves_work_in_flight() {
    let mut ctx = fresh_context();
    let mut ev = good_frame_events(1);
    ev.wait_ok = false;
    assert_eq!(ctx.run_frame(1920, 1080, ev), Err(GraphicsError::WaitFailed));
    assert!(ctx.submission.work_in_flight);
    // a later successful drain restores the frame boundary
    assert_eq!(ctx.wait_for_gpu(2, true), Ok(()));
    assert!(!ctx.submission.work_in_flight);
}

#[test]
fn drain_twice_reaches_both_targets_and_keeps_the_index() {
    let mut ctx = fresh_context();
    let first_target = ctx.fence.next_value;
    assert_eq!(ctx.wait_for_gpu(ctx.fence.completed_value, true), Ok(()));
    assert!(ctx.fence.completed_value >= first_target);
    let index_after_first = ctx.surface.current_index;
    let second_target = ctx.fence.next_value;
    assert_eq!(ctx.wait_for_gpu(ctx.fence.completed_value, true), Ok(()));
    assert!(ctx.fence.completed_value >= second_target);
    assert_eq!(ctx.surface.current_index, index_after_first);
}

#[test]
fn drain_refreshes_the_tracked_index_from_the_engine() {
    let mut ctx = fresh_context();
    // present without draining: the engine moves on, the tracked index lags
    ctx.present(true).unwrap();
    assert_eq!(ctx.surface.engine_index, 1);
    assert_eq!(ctx.surface.current_index, 0);
    ctx.wait_for_gpu(2, true).unwrap();
    assert_eq!(ctx.surface.current_index, 1);
    assert_eq!(ctx.surface.current_index, ctx.surface.engine_index);
}

#[test]
fn rtv_addressing_is_base_plus_index_times_stride() {
    let ctx = fresh_context();
    assert_eq!(ctx.surface.rtv_handle(0), 4096);
    assert_eq!(ctx.surface.rtv_handle(1), 4096 + 32);
    // the current-buffer accessor always follows the tracked index
    assert_eq!(ctx.surface.get_back_buffer_rtv(), 4096);
    assert_eq!(ctx.surface.get_back_buffer_resource(), 0);
}

#[test]
fn back_buffer_format_is_the_fixed_rgba8_format() {
    assert_eq!(get_back_buffer_format(), BACK_BUFFER_FORMAT);
    assert_eq!(get_back_buffer_format(), 28);
}

#[test]
fn update_drains_messages_only_with_diagnostics_cached() {
    let ctx = fresh_context();
    assert_eq!(ctx.update(5), 5);
    let mut ev = good_init_events();
    ev.debug_layer_available = false;
    let quiet = initialize_d3d12(77, 1920, 1080, &one_hardware_adapter(), ev).unwrap();
    assert_eq!(quiet.update(5), 0);
}

#[test]
fn shutdown_twice_is_idempotent() {
    let mut ctx = fresh_context();
    ctx.shutdown();
    assert!(ctx.fence_event_released);
    let after_first = ctx;
    ctx.shutdown();
    assert_eq!(ctx, after_first);
}

#[test]
fn shutdown_drains_before_releasing_the_event() {
    let mut ctx = fresh_context();
    ctx.run_frame(1920, 1080, good_frame_events(1)).unwrap();
    let target = ctx.fence.next_value;
    ctx.shutdown();
    assert!(ctx.fence.completed_value >= target);
    assert!(!ctx.submission.work_in_flight);
}
