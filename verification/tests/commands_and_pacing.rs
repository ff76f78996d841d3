//! Touch-phase mapping, frame pacing, the bounded wait, and asset metadata
//! paths.

use surface_loop::assets::get_meta_path;
use surface_loop::channel::CommandChannel;
use surface_loop::command::{
    map_touch_phase, Command, TouchPhase, WindowHandle, TOUCH_ACTION_CANCEL, TOUCH_ACTION_DOWN,
    TOUCH_ACTION_MOVE, TOUCH_ACTION_POINTER_DOWN, TOUCH_ACTION_POINTER_UP, TOUCH_ACTION_UP,
};
use surface_loop::scheduler::Scheduler;

#[test]
fn touch_phase_mapping_table() {
    assert_eq!(map_touch_phase(TOUCH_ACTION_DOWN), Some(TouchPhase::Started));
    assert_eq!(map_touch_phase(TOUCH_ACTION_POINTER_DOWN), Some(TouchPhase::Started));
    assert_eq!(map_touch_phase(TOUCH_ACTION_UP), Some(TouchPhase::Ended));
    assert_eq!(map_touch_phase(TOUCH_ACTION_POINTER_UP), Some(TouchPhase::Ended));
    assert_eq!(map_touch_phase(TOUCH_ACTION_MOVE), Some(TouchPhase::Moved));
    assert_eq!(map_touch_phase(TOUCH_ACTION_CANCEL), Some(TouchPhase::Canceled));
}

#[test]
fn unrecognized_touch_codes_map_to_none() {
    assert_eq!(map_touch_phase(4), None);
    assert_eq!(map_touch_phase(7), None);
    assert_eq!(map_touch_phase(255), None);
    assert_eq!(map_touch_phase(u32::MAX), None);
}

#[test]
fn remaining_wait_counts_down_the_interval() {
    let mut sched = Scheduler::new();
    sched.record_tick(100);
    assert_eq!(sched.remaining_wait(100, 16), 16);
    assert_eq!(sched.remaining_wait(110, 16), 6);
    assert_eq!(sched.remaining_wait(116, 16), 0);
}

#[test]
fn elapsed_interval_leaves_zero_wait() {
    let mut sched = Scheduler::new();
    sched.record_tick(100);
    assert_eq!(sched.remaining_wait(200, 16), 0);
}

#[test]
fn clock_running_backwards_is_clamped() {
    let mut sched = Scheduler::new();
    sched.record_tick(100);
    assert_eq!(sched.remaining_wait(90, 16), 16);
}

#[test]
fn zero_wait_receive_returns_at_once_when_empty() {
    let mut chan = CommandChannel::new();
    chan.init();
    assert_eq!(chan.receive_with_timeout(0), None);
}

#[test]
fn receive_with_timeout_delivers_in_fifo_order() {
    let mut chan = CommandChannel::new();
    chan.init();
    chan.send(Command::Resumed);
    chan.send(Command::SurfaceChanged(32, 64));
    assert_eq!(chan.receive_with_timeout(16), Some(Command::Resumed));
    assert_eq!(chan.receive_with_timeout(16), Some(Command::SurfaceChanged(32, 64)));
    assert_eq!(chan.receive_with_timeout(16), None);
}

#[test]
fn window_handle_keeps_its_identifier() {
    let h = WindowHandle::new(42);
    assert_eq!(h.id(), 42);
}

#[test]
fn engine_readiness_advances_and_saturates() {
    let mut sched = Scheduler::new();
    assert!(!sched.should_tick_now());
    sched.note_engine_progress();
    assert!(!sched.should_tick_now());
    sched.note_engine_progress();
    sched.note_engine_progress();  // already ready: stays ready
    // Readiness alone does not enable ticking: dimensions are still missing.
    assert!(!sched.should_tick_now());
}

#[test]
fn meta_path_appends_meta_to_the_extension() {
    let path = b"textures/icon.png".to_vec();
    assert_eq!(get_meta_path(&path), b"textures/icon.png.meta".to_vec());
}

#[test]
fn meta_path_of_nested_asset() {
    let path = b"fonts/FiraMono-Medium.ttf".to_vec();
    assert_eq!(get_meta_path(&path), b"fonts/FiraMono-Medium.ttf.meta".to_vec());
}
