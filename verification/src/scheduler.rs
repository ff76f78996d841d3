//! The frame scheduler: the single consumer of the command channel.
//!
//! Each iteration drains all pending commands, conditionally ticks the frame
//! engine exactly once, completes a pending surface teardown (acknowledging the
//! destruction handshake), notes the engine's terminal-exit signal, and
//! computes the bounded wait that paces the loop against the target frame
//! interval. The engine's own multi-step construction is tracked as an explicit
//! readiness state machine: while the engine is not ready, commands are still
//! drained but no tick occurs.
//!
//! The scheduler decides; the embedding performs. Every outbound effect appears
//! as an [`EngineAction`] in the order it must be performed, and the embedding
//! supplies the clock readings and the engine's reports as plain values.

use vstd::prelude::*;

use crate::channel::CommandChannel;
use crate::command::{Command, WindowHandle};
use crate::handshake::ReleaseHandshake;
use crate::lifecycle::{
    admissible, lifecycle_actions, lifecycle_step, teardown_spec, EngineAction, LifecycleState,
};

verus! {

/// How far the frame engine's multi-step construction has come. Ticking must
/// wait until the engine is `Ready`.
#[derive(Clone, Copy, Debug, PartialEq, Eq, Structural)]
pub enum EngineStatus {
    /// Construction has not begun to settle; keep pumping the engine's setup.
    Uninitialized,
    /// Construction is complete but the final setup pass has not run yet.
    Finishing,
    /// The engine may be ticked.
    Ready,
}

/// The consumer's whole per-run state: lifecycle, engine readiness, the
/// cooperative termination flag, and the time of the last tick.
#[derive(Debug, PartialEq, Eq, Structural)]
pub struct Scheduler {
    pub lifecycle: LifecycleState,
    pub readiness: EngineStatus,
    /// Set by a `Stop` command or by the engine's terminal-exit signal; the
    /// loop stops at the top of the next iteration, so work in flight finishes.
    pub quit: bool,
    /// The clock reading at the most recent tick, in the embedding's time units.
    pub last_tick_time: u64,
}

/// The next readiness state: construction advances one step and `Ready` is final.
pub open spec fn advance_readiness(r: EngineStatus) -> EngineStatus {
    match r {
        EngineStatus::Uninitialized => EngineStatus::Finishing,
        EngineStatus::Finishing => EngineStatus::Ready,
        EngineStatus::Ready => EngineStatus::Ready,
    }
}

/// The scheduler state after one command: `Stop` requests termination, every
/// other command is a lifecycle transition.
pub open spec fn step_command(s: Scheduler, cmd: Command) -> Scheduler {
    match cmd {
        Command::Stop => Scheduler { quit: true, ..s },
        _ => Scheduler { lifecycle: lifecycle_step(s.lifecycle, cmd), ..s },
    }
}

/// The engine actions one command gives rise to at the scheduler level.
pub open spec fn command_actions(s: Scheduler, cmd: Command) -> Seq<EngineAction> {
    lifecycle_actions(s.lifecycle, cmd)
}

/// Whether the host may deliver the whole sequence `cmds`, each command
/// admissible in the state the preceding ones produce.
pub open spec fn drain_admissible(s: Scheduler, cmds: Seq<Command>) -> bool
    decreases cmds.len(),
{
    cmds.len() == 0 || (admissible(s.lifecycle, cmds[0]) && drain_admissible(
        step_command(s, cmds[0]),
        cmds.drop_first(),
    ))
}

/// The scheduler state after draining the whole sequence `cmds`, oldest first.
pub open spec fn drain(s: Scheduler, cmds: Seq<Command>) -> Scheduler
    decreases cmds.len(),
{
    if cmds.len() == 0 {
        s
    } else {
        drain(step_command(s, cmds[0]), cmds.drop_first())
    }
}

/// The engine actions a whole drained sequence gives rise to, in order.
pub open spec fn drain_actions(s: Scheduler, cmds: Seq<Command>) -> Seq<EngineAction>
    decreases cmds.len(),
{
    if cmds.len() == 0 {
        Seq::empty()
    } else {
        command_actions(s, cmds[0]) + drain_actions(step_command(s, cmds[0]), cmds.drop_first())
    }
}

/// A protocol violation by the host: a command arrived that the current state
/// does not admit. The host contract guarantees this cannot happen under
/// correct integration, so there is no recovery path; the embedding reports
/// which invariant failed and terminates.
#[derive(Clone, Copy, Debug, PartialEq, Eq, Structural)]
pub enum ProtocolViolation {
    /// A second `SurfaceCreated` arrived while a window handle was still held.
    SurfaceReplacedWhileHeld,
    /// A command that needs a surface target arrived before any `SurfaceCreated`.
    NoSurfaceTarget,
}

/// The violation an inadmissible command constitutes.
pub open spec fn violation_of(cmd: Command) -> ProtocolViolation {
    match cmd {
        Command::SurfaceCreated(_) => ProtocolViolation::SurfaceReplacedWhileHeld,
        _ => ProtocolViolation::NoSurfaceTarget,
    }
}

/// The first protocol violation a drain of `cmds` would run into, if any.
pub open spec fn first_violation(s: Scheduler, cmds: Seq<Command>) -> Option<ProtocolViolation>
    decreases cmds.len(),
{
    if cmds.len() == 0 {
        None
    } else if !admissible(s.lifecycle, cmds[0]) {
        Some(violation_of(cmds[0]))
    } else {
        first_violation(step_command(s, cmds[0]), cmds.drop_first())
    }
}

/// Whether a tick may happen now: the engine is ready and a `SurfaceChanged`
/// has established concrete dimensions since the surface appeared.
pub open spec fn tick_enabled(s: Scheduler) -> bool {
    s.readiness is Ready && s.lifecycle.should_tick
}

/// The bounded wait before the next iteration: the part of the target interval
/// not yet elapsed since the last tick, clamped to zero both when the interval
/// has fully elapsed and when the clock reads earlier than the last tick.
pub open spec fn wait_spec(last_tick: u64, now: u64, target_interval: u64) -> u64 {
    let elapsed = if now >= last_tick {
        (now - last_tick) as u64
    } else {
        0u64
    };
    if elapsed >= target_interval {
        0u64
    } else {
        (target_interval - elapsed) as u64
    }
}

/// Everything one scheduler iteration decides, as a function of the starting
/// state, the acknowledged flag, the drained commands, the clock reading, the
/// engine's terminal-exit signal and the target frame interval.
pub ghost struct IterationSpec {
    /// The scheduler state after the iteration.
    pub state: Scheduler,
    /// The outbound engine actions, in the order the embedding performs them.
    pub actions: Seq<EngineAction>,
    /// Whether the engine is ticked this iteration.
    pub ticked: bool,
    /// The window handle released by a completed teardown, if one completed.
    pub released: Option<WindowHandle>,
    /// The handshake flag after the iteration.
    pub acknowledged: bool,
    /// The bounded wait before the next iteration.
    pub wait: u64,
}

/// One full iteration: drain, conditional tick, deferred teardown, exit check,
/// wait computation. A teardown completes only in an iteration that ticked, so
/// in-flight frame work is done before the handle is released.
pub open spec fn iterate(
    s: Scheduler,
    acknowledged: bool,
    cmds: Seq<Command>,
    now: u64,
    engine_exit: bool,
    target_interval: u64,
) -> IterationSpec {
    let drained = drain(s, cmds);
    let ticked = tick_enabled(drained);
    let after_tick = if ticked {
        Scheduler { last_tick_time: now, ..drained }
    } else {
        drained
    };
    let suspending = ticked && after_tick.lifecycle.will_suspend;
    let torn = if suspending {
        Scheduler { lifecycle: teardown_spec(after_tick.lifecycle), ..after_tick }
    } else {
        after_tick
    };
    let fin = Scheduler { quit: torn.quit || engine_exit, ..torn };
    IterationSpec {
        state: fin,
        actions: drain_actions(s, cmds) + (if ticked {
            seq![EngineAction::Tick]
        } else {
            Seq::empty()
        }) + (if suspending {
            seq![EngineAction::UnbindSurface]
        } else {
            Seq::empty()
        }),
        ticked,
        released: if suspending {
            after_tick.lifecycle.window
        } else {
            None
        },
        acknowledged: if suspending {
            true
        } else {
            acknowledged
        },
        wait: wait_spec(fin.last_tick_time, now, target_interval),
    }
}

/// What one iteration hands back to the embedding: the engine actions to
/// perform in order, whether a tick is among them, a window handle to drop if a
/// teardown completed, and how long to wait on the channel before the next
/// iteration.
pub struct IterationOutcome {
    pub actions: Vec<EngineAction>,
    pub ticked: bool,
    pub released: Option<WindowHandle>,
    pub wait: u64,
}

impl Scheduler {
    /// The state a run starts from: fresh lifecycle, engine construction not
    /// yet settled, no termination requested, last tick at the clock's origin.
    pub open spec fn init_spec() -> Scheduler {
        Scheduler {
            lifecycle: LifecycleState::init_spec(),
            readiness: EngineStatus::Uninitialized,
            quit: false,
            last_tick_time: 0,
        }
    }

    /// Creates the per-run scheduler state.
    pub fn new() -> (s: Scheduler)
        ensures
            s == Scheduler::init_spec(),
    {
        Scheduler {
            lifecycle: LifecycleState::new(),
            readiness: EngineStatus::Uninitialized,
            quit: false,
            last_tick_time: 0,
        }
    }

    /// Records one step of the engine's construction, as reported by the
    /// embedding. `Ready` is final.
    pub fn note_engine_progress(&mut self)
        ensures
            *final(self) == (Scheduler { readiness: advance_readiness(old(self).readiness), ..*old(self) }),
    {
        self.readiness = match self.readiness {
            EngineStatus::Uninitialized => EngineStatus::Finishing,
            EngineStatus::Finishing => EngineStatus::Ready,
            EngineStatus::Ready => EngineStatus::Ready,
        };
    }

    /// Applies one command: `Stop` requests cooperative termination, every
    /// other command is handed to the lifecycle state machine.
    pub fn apply_command(&mut self, cmd: Command, actions: &mut Vec<EngineAction>)
        requires
            admissible(old(self).lifecycle, cmd),
        ensures
            *final(self) == step_command(*old(self), cmd),
            final(actions)@ == old(actions)@ + command_actions(*old(self), cmd),
    {
        match cmd {
            Command::Stop => {
                self.quit = true;
                proof {
                    assert(final(actions)@ =~= old(actions)@ + command_actions(*old(self), cmd));
                }
            },
            _ => {
                self.lifecycle.apply(cmd, actions);
            },
        }
    }

    /// Drains queued commands without blocking, applying each in arrival order,
    /// until the channel is empty or a command turns out to be inadmissible. On
    /// success, draining is exhaustive: a non-blocking receive right after this
    /// returns nothing. On the first inadmissible command the drain stops and
    /// reports which invariant the host violated; there is no recovery.
    pub fn try_process_pending(
        &mut self,
        chan: &mut CommandChannel,
        actions: &mut Vec<EngineAction>,
    ) -> (r: Result<(), ProtocolViolation>)
        ensures
            (r is Ok) == drain_admissible(*old(self), old(chan).pending()),
            r matches Err(v) ==> first_violation(*old(self), old(chan).pending()) == Some(v),
            r is Ok ==> *final(self) == drain(*old(self), old(chan).pending()),
            r is Ok ==> final(actions)@ == old(actions)@ + drain_actions(
                *old(self),
                old(chan).pending(),
            ),
            r is Ok ==> final(chan).pending().len() == 0,
            final(chan).is_initialized() == old(chan).is_initialized(),
    {
        let ghost init_sched = *old(self);
        let ghost init_pending = old(chan).pending();
        let ghost init_actions = old(actions)@;
        let ghost init_initialized = old(chan).is_initialized();
        loop
            invariant
                init_sched == *old(self),
                init_pending == old(chan).pending(),
                init_actions == old(actions)@,
                init_initialized == old(chan).is_initialized(),
                drain_admissible(*self, chan.pending()) == drain_admissible(
                    init_sched,
                    init_pending,
                ),
                first_violation(*self, chan.pending()) == first_violation(
                    init_sched,
                    init_pending,
                ),
                drain(*self, chan.pending()) == drain(init_sched, init_pending),
                actions@ + drain_actions(*self, chan.pending()) == init_actions + drain_actions(
                    init_sched,
                    init_pending,
                ),
                chan.is_initialized() == init_initialized,
            ensures
                chan.pending().len() == 0,
                drain_admissible(init_sched, init_pending),
            decreases chan.pending().len(),
        {
            let ghost pre_sched = *self;
            let ghost pre_pending = chan.pending();
            let ghost pre_actions = actions@;
            match chan.try_receive() {
                Some(cmd) => {
                    if !self.lifecycle.check_admissible(&cmd) {
                        let violation = match cmd {
                            Command::SurfaceCreated(_) => ProtocolViolation::SurfaceReplacedWhileHeld,
                            _ => ProtocolViolation::NoSurfaceTarget,
                        };
                        proof {
                            assert(cmd == pre_pending[0]);
                            assert(!admissible(pre_sched.lifecycle, cmd));
                            assert(!drain_admissible(pre_sched, pre_pending));
                            assert(first_violation(pre_sched, pre_pending) == Some(
                                violation_of(cmd),
                            ));
                            assert(violation == violation_of(cmd));
                        }
                        return Err(violation);
                    }
                    self.apply_command(cmd, actions);
                    proof {
                        assert(actions@ + drain_actions(*self, chan.pending()) =~= pre_actions
                            + drain_actions(pre_sched, pre_pending));
                    }
                },
                None => {
                    break ;
                },
            }
        }
        Ok(())
    }

    /// Drains every currently queued command without blocking, applying each in
    /// arrival order, until the channel is empty. Draining is exhaustive: a
    /// non-blocking receive right after this returns nothing.
    pub fn process_pending(&mut self, chan: &mut CommandChannel, actions: &mut Vec<EngineAction>)
        requires
            drain_admissible(*old(self), old(chan).pending()),
        ensures
            *final(self) == drain(*old(self), old(chan).pending()),
            final(actions)@ == old(actions)@ + drain_actions(*old(self), old(chan).pending()),
            final(chan).pending().len() == 0,
            final(chan).is_initialized() == old(chan).is_initialized(),
    {
        match self.try_process_pending(chan, actions) {
            Ok(()) => (),
            Err(_) => vstd::pervasive::unreached(),
        }
    }

    /// Whether a tick may happen now.
    pub fn should_tick_now(&self) -> (b: bool)
        ensures
            b == tick_enabled(*self),
    {
        match self.readiness {
            EngineStatus::Ready => self.lifecycle.should_tick,
            _ => false,
        }
    }

    /// Records the clock reading of the tick that was just decided on.
    pub fn record_tick(&mut self, now: u64)
        ensures
            *final(self) == (Scheduler { last_tick_time: now, ..*old(self) }),
    {
        self.last_tick_time = now;
    }

    /// Completes a pending teardown, if one is pending: detaches the surface
    /// binding, hands the owned window handle back for the embedding to drop,
    /// and acknowledges the destruction handshake so the waiting producer may
    /// return. With no suspend pending, nothing changes.
    pub fn finish_teardown(
        &mut self,
        hs: &mut ReleaseHandshake,
        actions: &mut Vec<EngineAction>,
    ) -> (released: Option<WindowHandle>)
        ensures
            old(self).lifecycle.will_suspend ==> {
                &&& *final(self) == (Scheduler {
                    lifecycle: teardown_spec(old(self).lifecycle),
                    ..*old(self)
                })
                &&& released == old(self).lifecycle.window
                &&& final(actions)@ == old(actions)@ + seq![EngineAction::UnbindSurface]
                &&& final(hs).is_acknowledged_spec()
            },
            !old(self).lifecycle.will_suspend ==> {
                &&& *final(self) == *old(self)
                &&& released is None
                &&& final(actions)@ == old(actions)@
                &&& final(hs).is_acknowledged_spec() == old(hs).is_acknowledged_spec()
            },
            final(hs).is_loop_active_spec() == old(hs).is_loop_active_spec(),
    {
        if self.lifecycle.will_suspend {
            let released = self.lifecycle.teardown(actions);
            hs.confirm_release();
            released
        } else {
            None
        }
    }

    /// Notes the engine's terminal-exit signal: once raised, the loop stops at
    /// the top of the next iteration.
    pub fn note_exit(&mut self, exit_requested: bool)
        ensures
            *final(self) == (Scheduler { quit: old(self).quit || exit_requested, ..*old(self) }),
    {
        if exit_requested {
            self.quit = true;
        }
    }

    /// The bounded wait before the next iteration, clamped to zero: never
    /// negative, and zero as soon as the target interval has fully elapsed.
    pub fn remaining_wait(&self, now: u64, target_interval: u64) -> (r: u64)
        ensures
            r == wait_spec(self.last_tick_time, now, target_interval),
    {
        let elapsed = if now >= self.last_tick_time {
            now - self.last_tick_time
        } else {
            0
        };
        if elapsed >= target_interval {
            0
        } else {
            target_interval - elapsed
        }
    }

    /// One full scheduler iteration, checked against the host protocol: drains
    /// every pending command, ticks at most once, completes a pending teardown
    /// only after the tick, notes the exit signal, and computes the bounded
    /// wait. `engine_exit` is the engine's terminal-exit signal as the
    /// embedding last read it; `now` is the embedding's clock reading for this
    /// iteration. An inadmissible command stops the iteration before any tick
    /// and reports which invariant the host violated.
    pub fn try_run_iteration(
        &mut self,
        chan: &mut CommandChannel,
        hs: &mut ReleaseHandshake,
        now: u64,
        engine_exit: bool,
        target_interval: u64,
    ) -> (r: Result<IterationOutcome, ProtocolViolation>)
        ensures
            (r is Ok) == drain_admissible(*old(self), old(chan).pending()),
            r matches Err(v) ==> first_violation(*old(self), old(chan).pending()) == Some(v)
                && *final(hs) == *old(hs),
            r matches Ok(out) ==> ({
                let it = iterate(
                    *old(self),
                    old(hs).is_acknowledged_spec(),
                    old(chan).pending(),
                    now,
                    engine_exit,
                    target_interval,
                );
                &&& *final(self) == it.state
                &&& out.actions@ == it.actions
                &&& out.ticked == it.ticked
                &&& out.released == it.released
                &&& out.wait == it.wait
                &&& final(hs).is_acknowledged_spec() == it.acknowledged
                &&& final(chan).pending().len() == 0
            }),
            final(hs).is_loop_active_spec() == old(hs).is_loop_active_spec(),
            final(chan).is_initialized() == old(chan).is_initialized(),
    {
        let mut actions: Vec<EngineAction> = Vec::new();
        match self.try_process_pending(chan, &mut actions) {
            Ok(()) => (),
            Err(v) => {
                return Err(v);
            },
        }
        let ticked = self.should_tick_now();
        let mut released: Option<WindowHandle> = None;
        if ticked {
            self.record_tick(now);
            actions.push(EngineAction::Tick);
            released = self.finish_teardown(hs, &mut actions);
        }
        self.note_exit(engine_exit);
        let wait = self.remaining_wait(now, target_interval);
        proof {
            let it = iterate(
                *old(self),
                old(hs).is_acknowledged_spec(),
                old(chan).pending(),
                now,
                engine_exit,
                target_interval,
            );
            assert(actions@ =~= it.actions);
        }
        Ok(IterationOutcome { actions, ticked, released, wait })
    }

    /// One full scheduler iteration, as [`iterate`] describes it, for callers
    /// who can vouch for the queued commands' admissibility.
    pub fn run_iteration(
        &mut self,
        chan: &mut CommandChannel,
        hs: &mut ReleaseHandshake,
        now: u64,
        engine_exit: bool,
        target_interval: u64,
    ) -> (out: IterationOutcome)
        requires
            drain_admissible(*old(self), old(chan).pending()),
        ensures
            ({
                let it = iterate(
                    *old(self),
                    old(hs).is_acknowledged_spec(),
                    old(chan).pending(),
                    now,
                    engine_exit,
                    target_interval,
                );
                &&& *final(self) == it.state
                &&& out.actions@ == it.actions
                &&& out.ticked == it.ticked
                &&& out.released == it.released
                &&& out.wait == it.wait
                &&& final(hs).is_acknowledged_spec() == it.acknowledged
                &&& final(hs).is_loop_active_spec() == old(hs).is_loop_active_spec()
                &&& final(chan).pending().len() == 0
                &&& final(chan).is_initialized() == old(chan).is_initialized()
            }),
    {
        match self.try_run_iteration(chan, hs, now, engine_exit, target_interval) {
            Ok(out) => out,
            Err(_) => vstd::pervasive::unreached(),
        }
    }
}

/// Ends a run of the loop: discards whatever is still queued (there will be no
/// consumer to apply it to until the next run starts), hands the discarded
/// commands back so the embedding can record them, and clears the loop-active
/// flag the destroy path consults. The channel itself survives for the next run.
pub fn end_run(chan: &mut CommandChannel, hs: &mut ReleaseHandshake) -> (discarded: Vec<Command>)
    ensures
        discarded@ == old(chan).pending(),
        final(chan).pending().len() == 0,
        final(chan).is_initialized() == old(chan).is_initialized(),
        !final(hs).is_loop_active_spec(),
        final(hs).is_acknowledged_spec() == old(hs).is_acknowledged_spec(),
{
    let ghost init_pending = old(chan).pending();
    let ghost init_initialized = old(chan).is_initialized();
    let mut discarded: Vec<Command> = Vec::new();
    loop
        invariant
            discarded@ + chan.pending() == init_pending,
            chan.is_initialized() == init_initialized,
        ensures
            chan.pending().len() == 0,
        decreases chan.pending().len(),
    {
        match chan.try_receive() {
            Some(cmd) => {
                discarded.push(cmd);
                proof {
                    assert(discarded@ + chan.pending() =~= init_pending);
                }
            },
            None => {
                break ;
            },
        }
    }
    hs.clear_loop_active();
    proof {
        assert(discarded@ =~= old(chan).pending());
    }
    discarded
}

} // verus!
