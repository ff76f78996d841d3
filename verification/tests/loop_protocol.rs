//! Scheduler-level scenarios: tick gating, exhaustive draining, the
//! destruction handshake, and loop termination.

use surface_loop::channel::CommandChannel;
use surface_loop::command::{Command, LifecycleEvent, TouchEvent, TouchPhase, WindowHandle};
use surface_loop::context::Context;
use surface_loop::handshake::ReleaseHandshake;
use surface_loop::lifecycle::EngineAction;
use surface_loop::scheduler::{end_run, ProtocolViolation, Scheduler};

const FRAME: u64 = 16;

fn ready_scheduler() -> Scheduler {
    let mut sched = Scheduler::new();
    sched.note_engine_progress();
    sched.note_engine_progress();
    sched
}

#[test]
fn first_iteration_binds_resizes_and_ticks() {
    let mut ctx = Context::new();
    ctx.init_command_queue();
    assert!(ctx.surface_created(WindowHandle::new(1)));
    assert!(ctx.surface_changed(800, 600));

    let Context { mut channel, mut handshake } = ctx;
    let mut sched = ready_scheduler();
    let out = sched.run_iteration(&mut channel, &mut handshake, 100, false, FRAME);

    assert!(out.ticked);
    assert_eq!(
        out.actions,
        vec![
            EngineAction::CreateTarget,
            EngineAction::BindSurface(1),
            EngineAction::NotifyCreated,
            EngineAction::Resize(800, 600),
            EngineAction::Tick,
        ]
    );
    assert_eq!(out.released, None);
    assert_eq!(sched.last_tick_time, 100);
    assert!(!sched.quit);
}

#[test]
fn draining_is_exhaustive() {
    let mut ctx = Context::new();
    ctx.init_command_queue();
    ctx.surface_created(WindowHandle::new(2));
    ctx.surface_changed(10, 20);
    ctx.resumed();
    ctx.paused();

    let Context { mut channel, mut handshake } = ctx;
    let mut sched = ready_scheduler();
    let mut actions: Vec<EngineAction> = Vec::new();
    sched.process_pending(&mut channel, &mut actions);

    assert_eq!(channel.try_receive(), None);
    let _ = handshake;
}

#[test]
fn no_tick_before_engine_ready() {
    let mut ctx = Context::new();
    ctx.init_command_queue();
    ctx.surface_created(WindowHandle::new(3));
    ctx.surface_changed(640, 480);

    let Context { mut channel, mut handshake } = ctx;
    let mut sched = Scheduler::new();
    sched.note_engine_progress();  // construction settles, final pass still owed
    let out = sched.run_iteration(&mut channel, &mut handshake, 50, false, FRAME);

    assert!(!out.ticked);
    assert!(!out.actions.contains(&EngineAction::Tick));
}

#[test]
fn no_tick_before_surface_changed() {
    let mut ctx = Context::new();
    ctx.init_command_queue();
    ctx.surface_created(WindowHandle::new(4));

    let Context { mut channel, mut handshake } = ctx;
    let mut sched = ready_scheduler();
    let out = sched.run_iteration(&mut channel, &mut handshake, 50, false, FRAME);

    assert!(!out.ticked);
    assert_eq!(
        out.actions,
        vec![
            EngineAction::CreateTarget,
            EngineAction::BindSurface(4),
            EngineAction::NotifyCreated,
        ]
    );
}

#[test]
fn destroy_handshake_round_trip() {
    let mut ctx = Context::new();
    ctx.init_command_queue();
    ctx.handshake.set_loop_active();
    assert!(ctx.handshake.is_acknowledged());

    ctx.surface_created(WindowHandle::new(5));
    ctx.surface_changed(320, 240);

    let mut sched = ready_scheduler();
    let first = sched.run_iteration(&mut ctx.channel, &mut ctx.handshake, 10, false, FRAME);
    assert!(first.ticked);
    assert!(ctx.handshake.is_acknowledged());

    // The producer announces the destruction and must now wait.
    let must_wait = ctx.surface_destroyed();
    assert!(must_wait);
    assert!(!ctx.handshake.is_acknowledged());

    // The next iteration ticks, tears down, and acknowledges.
    let second = sched.run_iteration(&mut ctx.channel, &mut ctx.handshake, 30, false, FRAME);
    assert!(second.ticked);
    assert!(ctx.handshake.is_acknowledged());
    assert_eq!(second.released, Some(WindowHandle::new(5)));
    assert_eq!(
        second.actions,
        vec![EngineAction::NotifyDestroyed, EngineAction::Tick, EngineAction::UnbindSurface]
    );

    // Afterwards the flag stays raised and nothing further is released.
    let third = sched.run_iteration(&mut ctx.channel, &mut ctx.handshake, 60, false, FRAME);
    assert!(ctx.handshake.is_acknowledged());
    assert_eq!(third.released, None);
    assert!(!third.ticked);  // teardown cleared should_tick
}

#[test]
fn destroy_without_active_loop_skips_the_wait() {
    let mut ctx = Context::new();
    ctx.init_command_queue();
    // No loop is running: the producer must not block, nothing is queued.
    let must_wait = ctx.surface_destroyed();
    assert!(!must_wait);
    assert!(ctx.handshake.is_acknowledged());
    assert_eq!(ctx.channel.try_receive(), None);
}

#[test]
fn stop_requests_termination_and_end_run_discards() {
    let mut ctx = Context::new();
    ctx.init_command_queue();
    ctx.handshake.set_loop_active();
    ctx.stop();

    let mut sched = ready_scheduler();
    let out = sched.run_iteration(&mut ctx.channel, &mut ctx.handshake, 5, false, FRAME);
    assert!(sched.quit);
    assert!(out.actions.is_empty());

    // Commands that arrive after the loop decided to stop are discarded on exit.
    ctx.resumed();
    ctx.paused();
    let discarded = end_run(&mut ctx.channel, &mut ctx.handshake);
    assert_eq!(discarded, vec![Command::Resumed, Command::Paused]);
    assert_eq!(ctx.channel.try_receive(), None);
    assert!(!ctx.handshake.is_loop_active());
}

#[test]
fn engine_exit_signal_requests_termination() {
    let mut ctx = Context::new();
    ctx.init_command_queue();
    let Context { mut channel, mut handshake } = ctx;
    let mut sched = ready_scheduler();
    let _ = sched.run_iteration(&mut channel, &mut handshake, 5, true, FRAME);
    assert!(sched.quit);
}

#[test]
fn paused_without_resumed_emits_only_suspended() {
    let mut ctx = Context::new();
    ctx.init_command_queue();
    ctx.paused();

    let Context { mut channel, mut handshake } = ctx;
    let mut sched = ready_scheduler();
    let out = sched.run_iteration(&mut channel, &mut handshake, 5, false, FRAME);
    assert_eq!(
        out.actions,
        vec![EngineAction::DispatchLifecycle(LifecycleEvent::Suspended)]
    );
}

#[test]
fn first_resume_starts_later_resumes_resume() {
    let mut ctx = Context::new();
    ctx.init_command_queue();
    ctx.resumed();
    ctx.resumed();

    let Context { mut channel, mut handshake } = ctx;
    let mut sched = ready_scheduler();
    let out = sched.run_iteration(&mut channel, &mut handshake, 5, false, FRAME);
    assert_eq!(
        out.actions,
        vec![
            EngineAction::DispatchLifecycle(LifecycleEvent::Started),
            EngineAction::DispatchLifecycle(LifecycleEvent::Resumed),
        ]
    );
}

#[test]
fn touch_commands_are_forwarded() {
    let mut ctx = Context::new();
    ctx.init_command_queue();
    let x = 12.5f32.to_bits();
    let y = 7.25f32.to_bits();
    assert!(ctx.touch(9, 0, x, y));
    // An unrecognized action code is dropped silently.
    assert!(!ctx.touch(9, 4, x, y));

    let Context { mut channel, mut handshake } = ctx;
    let mut sched = ready_scheduler();
    let out = sched.run_iteration(&mut channel, &mut handshake, 5, false, FRAME);
    assert_eq!(
        out.actions,
        vec![EngineAction::DispatchTouch(TouchEvent {
            phase: TouchPhase::Started,
            pointer_id: 9,
            x_bits: x,
            y_bits: y,
        })]
    );
}

#[test]
fn surface_can_be_recreated_after_teardown() {
    let mut ctx = Context::new();
    ctx.init_command_queue();
    ctx.handshake.set_loop_active();
    ctx.surface_created(WindowHandle::new(6));
    ctx.surface_changed(100, 100);

    let mut sched = ready_scheduler();
    let _ = sched.run_iteration(&mut ctx.channel, &mut ctx.handshake, 10, false, FRAME);
    assert!(ctx.surface_destroyed());
    let _ = sched.run_iteration(&mut ctx.channel, &mut ctx.handshake, 30, false, FRAME);

    // A new surface arrives: the target slot survives, so no second CreateTarget.
    ctx.surface_created(WindowHandle::new(7));
    ctx.surface_changed(200, 200);
    let out = sched.run_iteration(&mut ctx.channel, &mut ctx.handshake, 50, false, FRAME);
    assert_eq!(
        out.actions,
        vec![
            EngineAction::BindSurface(7),
            EngineAction::NotifyCreated,
            EngineAction::Resize(200, 200),
            EngineAction::Tick,
        ]
    );
}

#[test]
fn surface_changed_before_created_is_a_violation() {
    let mut ctx = Context::new();
    ctx.init_command_queue();
    ctx.surface_changed(800, 600);  // out-of-order host callback

    let Context { mut channel, mut handshake } = ctx;
    let mut sched = ready_scheduler();
    let r = sched.try_run_iteration(&mut channel, &mut handshake, 5, false, FRAME);
    assert_eq!(r.err(), Some(ProtocolViolation::NoSurfaceTarget));
}

#[test]
fn second_create_while_held_is_a_violation() {
    let mut ctx = Context::new();
    ctx.init_command_queue();
    ctx.surface_created(WindowHandle::new(1));
    ctx.surface_created(WindowHandle::new(2));

    let Context { mut channel, mut handshake } = ctx;
    let mut sched = ready_scheduler();
    let r = sched.try_run_iteration(&mut channel, &mut handshake, 5, false, FRAME);
    assert_eq!(r.err(), Some(ProtocolViolation::SurfaceReplacedWhileHeld));
}

#[test]
fn sends_before_initialization_are_discarded() {
    let mut ctx = Context::new();
    assert!(!ctx.resumed());
    assert!(!ctx.surface_changed(1, 1));
    ctx.init_command_queue();
    assert_eq!(ctx.channel.try_receive(), None);
}

#[test]
fn whole_run_from_first_surface_to_stop() {
    let mut ctx = Context::new();
    ctx.init_command_queue();
    ctx.handshake.set_loop_active();
    ctx.surface_created(WindowHandle::new(11));
    ctx.surface_changed(1080, 1920);
    ctx.resumed();

    let mut sched = Scheduler::new();
    let mut now: u64 = 0;
    let mut ticks: u64 = 0;
    let mut iterations: u64 = 0;
    let mut sent_destroy = false;
    let mut sent_stop = false;
    while !sched.quit {
        iterations += 1;
        assert!(iterations < 100, "the loop must stop cooperatively");
        // The engine's construction settles over the first iterations.
        sched.note_engine_progress();
        let out = sched.run_iteration(&mut ctx.channel, &mut ctx.handshake, now, false, FRAME);
        if out.ticked {
            ticks += 1;
        }
        now += out.wait.max(1);
        // Mid-run, the host reclaims the surface and then stops the game.
        if ticks == 2 && !sent_destroy {
            sent_destroy = true;
            assert!(ctx.surface_destroyed());
        }
        if ticks == 3 && !sent_stop {
            sent_stop = true;
            ctx.stop();
        }
    }
    assert!(ctx.handshake.is_acknowledged());
    assert_eq!(ctx.channel.try_receive(), None);
    let _ = end_run(&mut ctx.channel, &mut ctx.handshake);
    assert!(!ctx.handshake.is_loop_active());
}

#[test]
fn channel_survives_between_runs() {
    let mut chan = CommandChannel::new();
    chan.init();
    let mut hs = ReleaseHandshake::new();
    chan.send(Command::Resumed);
    let _ = end_run(&mut chan, &mut hs);
    assert!(chan.has_consumer());
    assert!(chan.send(Command::Paused));
    assert_eq!(chan.try_receive(), Some(Command::Paused));
}
