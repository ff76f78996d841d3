//! Protocol laws: properties of whole command sequences and scheduler
//! iterations, proved once and for all over the specification-level transition
//! functions of [`crate::scheduler`].

use vstd::prelude::*;

use crate::command::Command;
use crate::lifecycle::admissible;
use crate::scheduler::{
    drain, drain_admissible, iterate, step_command, wait_spec, Scheduler,
};

verus! {

/// Whether the sequence holds at least one `SurfaceDestroyed`.
pub open spec fn contains_destroy(cmds: Seq<Command>) -> bool {
    exists|i: int| 0 <= i < cmds.len() && cmds[i] is SurfaceDestroyed
}

/// Whether the sequence holds at least one `SurfaceChanged`.
pub open spec fn contains_changed(cmds: Seq<Command>) -> bool {
    exists|i: int| 0 <= i < cmds.len() && cmds[i] is SurfaceChanged
}

/// Whether the sequence holds at least one `SurfaceCreated`.
pub open spec fn contains_created(cmds: Seq<Command>) -> bool {
    exists|i: int| 0 <= i < cmds.len() && cmds[i] is SurfaceCreated
}

/// Draining never touches the engine-readiness state machine or the tick clock.
proof fn lemma_drain_keeps_readiness(s: Scheduler, cmds: Seq<Command>)
    ensures
        drain(s, cmds).readiness == s.readiness,
        drain(s, cmds).last_tick_time == s.last_tick_time,
    decreases cmds.len(),
{
    if cmds.len() > 0 {
        lemma_drain_keeps_readiness(step_command(s, cmds[0]), cmds.drop_first());
    }
}

/// No command clears `should_tick`: once dimensions are established, draining
/// keeps the tick enabled until a teardown clears it.
proof fn lemma_drain_keeps_should_tick(s: Scheduler, cmds: Seq<Command>)
    requires
        s.lifecycle.should_tick,
    ensures
        drain(s, cmds).lifecycle.should_tick,
    decreases cmds.len(),
{
    if cmds.len() > 0 {
        lemma_drain_keeps_should_tick(step_command(s, cmds[0]), cmds.drop_first());
    }
}

/// Without a `SurfaceChanged`, draining leaves `should_tick` as it was.
proof fn lemma_drain_no_changed_keeps_should_tick(s: Scheduler, cmds: Seq<Command>)
    requires
        !contains_changed(cmds),
    ensures
        drain(s, cmds).lifecycle.should_tick == s.lifecycle.should_tick,
    decreases cmds.len(),
{
    if cmds.len() > 0 {
        assert(!(cmds[0] is SurfaceChanged));
        assert forall|i: int|
            0 <= i < cmds.drop_first().len() implies !(cmds.drop_first()[i] is SurfaceChanged) by {
            assert(cmds.drop_first()[i] == cmds[i + 1]);
        }
        lemma_drain_no_changed_keeps_should_tick(step_command(s, cmds[0]), cmds.drop_first());
    }
}

/// A pending suspend survives any drain: only the scheduler's teardown clears it.
proof fn lemma_drain_keeps_will_suspend(s: Scheduler, cmds: Seq<Command>)
    requires
        s.lifecycle.will_suspend,
    ensures
        drain(s, cmds).lifecycle.will_suspend,
    decreases cmds.len(),
{
    if cmds.len() > 0 {
        lemma_drain_keeps_will_suspend(step_command(s, cmds[0]), cmds.drop_first());
    }
}

/// Draining a sequence that holds a `SurfaceDestroyed` leaves a suspend pending.
proof fn lemma_drain_destroy_sets_will_suspend(s: Scheduler, cmds: Seq<Command>)
    requires
        contains_destroy(cmds),
    ensures
        drain(s, cmds).lifecycle.will_suspend,
    decreases cmds.len(),
{
    let i = choose|i: int| 0 <= i < cmds.len() && cmds[i] is SurfaceDestroyed;
    if cmds[0] is SurfaceDestroyed {
        lemma_drain_keeps_will_suspend(step_command(s, cmds[0]), cmds.drop_first());
    } else {
        assert(0 <= i - 1 < cmds.drop_first().len() && cmds.drop_first()[i - 1]
            is SurfaceDestroyed);
        lemma_drain_destroy_sets_will_suspend(step_command(s, cmds[0]), cmds.drop_first());
    }
}

/// Without a `SurfaceDestroyed`, draining leaves `will_suspend` as it was.
proof fn lemma_drain_no_destroy_keeps_will_suspend(s: Scheduler, cmds: Seq<Command>)
    requires
        !contains_destroy(cmds),
    ensures
        drain(s, cmds).lifecycle.will_suspend == s.lifecycle.will_suspend,
    decreases cmds.len(),
{
    if cmds.len() > 0 {
        assert(!(cmds[0] is SurfaceDestroyed));
        assert forall|i: int|
            0 <= i < cmds.drop_first().len() implies !(cmds.drop_first()[i] is SurfaceDestroyed) by {
            assert(cmds.drop_first()[i] == cmds[i + 1]);
        }
        lemma_drain_no_destroy_keeps_will_suspend(step_command(s, cmds[0]), cmds.drop_first());
    }
}

/// Law: a tick is gated on both engine readiness and established dimensions.
/// Whenever an iteration ticks, the drained state was `Ready` and a
/// `SurfaceChanged` had set `should_tick`.
pub proof fn lemma_tick_requires_ready_and_dimensions(
    s: Scheduler,
    acknowledged: bool,
    cmds: Seq<Command>,
    now: u64,
    engine_exit: bool,
    target_interval: u64,
)
    ensures
        iterate(s, acknowledged, cmds, now, engine_exit, target_interval).ticked ==> (drain(
            s,
            cmds,
        ).readiness is Ready && drain(s, cmds).lifecycle.should_tick),
{
}

/// Law: no tick happens before the engine is ready. An iteration that starts
/// with the engine still under construction never ticks, no matter which
/// commands it drains: draining does not advance readiness.
pub proof fn lemma_no_tick_before_engine_ready(
    s: Scheduler,
    acknowledged: bool,
    cmds: Seq<Command>,
    now: u64,
    engine_exit: bool,
    target_interval: u64,
)
    requires
        !(s.readiness is Ready),
    ensures
        !iterate(s, acknowledged, cmds, now, engine_exit, target_interval).ticked,
{
    lemma_drain_keeps_readiness(s, cmds);
}

/// Law: no tick happens before a `SurfaceChanged` has established concrete
/// dimensions. An iteration that starts without established dimensions and
/// drains no `SurfaceChanged` never ticks.
pub proof fn lemma_no_tick_before_surface_changed(
    s: Scheduler,
    acknowledged: bool,
    cmds: Seq<Command>,
    now: u64,
    engine_exit: bool,
    target_interval: u64,
)
    requires
        !s.lifecycle.should_tick,
        !contains_changed(cmds),
    ensures
        !iterate(s, acknowledged, cmds, now, engine_exit, target_interval).ticked,
{
    lemma_drain_no_changed_keeps_should_tick(s, cmds);
}

/// In an admissible sequence delivered while no surface target is registered,
/// no `SurfaceChanged` can precede the first `SurfaceCreated`: dimensions
/// presuppose a surface.
proof fn lemma_no_changed_before_created(s: Scheduler, cmds: Seq<Command>)
    requires
        s.lifecycle.surface_entity is None,
        drain_admissible(s, cmds),
        !contains_created(cmds),
    ensures
        !contains_changed(cmds),
    decreases cmds.len(),
{
    if cmds.len() > 0 {
        assert(admissible(s.lifecycle, cmds[0]));
        assert(!(cmds[0] is SurfaceChanged));
        assert forall|i: int|
            0 <= i < cmds.drop_first().len() implies !(cmds.drop_first()[i] is SurfaceCreated) by {
            assert(cmds.drop_first()[i] == cmds[i + 1]);
        }
        lemma_no_changed_before_created(step_command(s, cmds[0]), cmds.drop_first());
        assert forall|i: int| 0 <= i < cmds.len() implies !(cmds[i] is SurfaceChanged) by {
            if i > 0 {
                assert(cmds[i] == cmds.drop_first()[i - 1]);
            }
        }
    }
}

/// Law: no tick happens before a surface exists. From the initial state, an
/// admissible iteration that drains no `SurfaceCreated` never ticks — a
/// `SurfaceChanged` cannot be delivered first, so dimensions cannot be
/// established either.
pub proof fn lemma_no_tick_before_surface_created(
    acknowledged: bool,
    cmds: Seq<Command>,
    now: u64,
    engine_exit: bool,
    target_interval: u64,
)
    requires
        drain_admissible(Scheduler::init_spec(), cmds),
        !contains_created(cmds),
    ensures
        !iterate(Scheduler::init_spec(), acknowledged, cmds, now, engine_exit, target_interval)
            .ticked,
{
    lemma_no_changed_before_created(Scheduler::init_spec(), cmds);
    lemma_no_tick_before_surface_changed(
        Scheduler::init_spec(),
        acknowledged,
        cmds,
        now,
        engine_exit,
        target_interval,
    );
}

/// Law: one surface-release episode completes within the very iteration that
/// drains the `SurfaceDestroyed`. With the engine ready and dimensions
/// established, that iteration ticks (so in-flight frame work completes), then
/// tears the surface down: the handshake flag — lowered by the producer when it
/// requested the release — is raised again, the suspend is no longer pending,
/// and the owned window handle has left the lifecycle state.
pub proof fn lemma_destroy_acknowledged_in_iteration(
    s: Scheduler,
    cmds: Seq<Command>,
    now: u64,
    engine_exit: bool,
    target_interval: u64,
)
    requires
        s.readiness is Ready,
        s.lifecycle.should_tick,
        contains_destroy(cmds),
    ensures
        ({
            let it = iterate(s, false, cmds, now, engine_exit, target_interval);
            &&& it.ticked
            &&& it.acknowledged
            &&& !it.state.lifecycle.will_suspend
            &&& it.state.lifecycle.window is None
            &&& !it.state.lifecycle.should_tick
        }),
{
    lemma_drain_keeps_readiness(s, cmds);
    lemma_drain_keeps_should_tick(s, cmds);
    lemma_drain_destroy_sets_will_suspend(s, cmds);
}

/// Law: outside a release episode the handshake flag is untouched. An
/// iteration that starts with no suspend pending and drains no
/// `SurfaceDestroyed` leaves the flag exactly as it found it — raised or
/// lowered — releases no handle, and leaves no suspend pending. Together with
/// [`lemma_destroy_acknowledged_in_iteration`] this pins the flag's history for
/// a run with a single destroy: lowered once by the producer's request, raised
/// once by the teardown, constant everywhere else.
pub proof fn lemma_acknowledged_stable_without_destroy(
    s: Scheduler,
    acknowledged: bool,
    cmds: Seq<Command>,
    now: u64,
    engine_exit: bool,
    target_interval: u64,
)
    requires
        !s.lifecycle.will_suspend,
        !contains_destroy(cmds),
    ensures
        ({
            let it = iterate(s, acknowledged, cmds, now, engine_exit, target_interval);
            &&& it.acknowledged == acknowledged
            &&& !it.state.lifecycle.will_suspend
            &&& it.released is None
        }),
{
    lemma_drain_no_destroy_keeps_will_suspend(s, cmds);
}

/// Law: a fully elapsed frame interval leaves no wait. The bounded wait is
/// requested with zero remaining time, so the next receive degenerates to a
/// non-blocking poll and the loop proceeds straight to its next tick attempt.
pub proof fn lemma_elapsed_interval_leaves_no_wait(last_tick: u64, now: u64, target_interval: u64)
    requires
        now >= last_tick,
        now - last_tick >= target_interval,
    ensures
        wait_spec(last_tick, now, target_interval) == 0,
{
}

/// What the embedding feeds one scheduler iteration: the commands that will be
/// drained, the clock reading, and the engine's terminal-exit signal.
pub ghost struct IterationInput {
    pub cmds: Seq<Command>,
    pub now: u64,
    pub engine_exit: bool,
}

/// The consumer-visible state a run threads from iteration to iteration: the
/// scheduler state and the handshake flag.
pub ghost struct RunView {
    pub sched: Scheduler,
    pub acknowledged: bool,
}

/// The state after one iteration on the given input.
pub open spec fn apply_iteration(rv: RunView, inp: IterationInput, target_interval: u64) -> RunView {
    let it = iterate(rv.sched, rv.acknowledged, inp.cmds, inp.now, inp.engine_exit, target_interval);
    RunView { sched: it.state, acknowledged: it.acknowledged }
}

/// The state after a whole run of iterations, first input first.
pub open spec fn run_state(rv: RunView, inputs: Seq<IterationInput>, target_interval: u64) -> RunView
    decreases inputs.len(),
{
    if inputs.len() == 0 {
        rv
    } else {
        run_state(apply_iteration(rv, inputs[0], target_interval), inputs.drop_first(), target_interval)
    }
}

/// The handshake flag after the first `i` iterations of a run.
pub open spec fn acknowledged_after(
    rv: RunView,
    inputs: Seq<IterationInput>,
    target_interval: u64,
    i: int,
) -> bool {
    run_state(rv, inputs.take(i), target_interval).acknowledged
}

/// Running a concatenation of inputs is running the parts in order.
proof fn lemma_run_compose(rv: RunView, a: Seq<IterationInput>, b: Seq<IterationInput>, target_interval: u64)
    ensures
        run_state(rv, a + b, target_interval) == run_state(run_state(rv, a, target_interval), b, target_interval),
    decreases a.len(),
{
    if a.len() == 0 {
        assert(a + b =~= b);
    } else {
        assert((a + b)[0] == a[0]);
        assert((a + b).drop_first() =~= a.drop_first() + b);
        lemma_run_compose(apply_iteration(rv, a[0], target_interval), a.drop_first(), b, target_interval);
    }
}

/// Iterations without a `SurfaceDestroyed` never move the handshake flag, never
/// leave a suspend pending, never lose engine readiness, and never lose
/// established dimensions.
proof fn lemma_run_no_destroy_preserves(rv: RunView, inputs: Seq<IterationInput>, target_interval: u64)
    requires
        !rv.sched.lifecycle.will_suspend,
        forall|i: int| 0 <= i < inputs.len() ==> !contains_destroy(#[trigger] inputs[i].cmds),
    ensures
        ({
            let end = run_state(rv, inputs, target_interval);
            &&& end.acknowledged == rv.acknowledged
            &&& !end.sched.lifecycle.will_suspend
            &&& end.sched.readiness == rv.sched.readiness
            &&& rv.sched.lifecycle.should_tick ==> end.sched.lifecycle.should_tick
        }),
    decreases inputs.len(),
{
    if inputs.len() > 0 {
        lemma_acknowledged_stable_without_destroy(
            rv.sched,
            rv.acknowledged,
            inputs[0].cmds,
            inputs[0].now,
            inputs[0].engine_exit,
            target_interval,
        );
        lemma_drain_keeps_readiness(rv.sched, inputs[0].cmds);
        lemma_drain_no_destroy_keeps_will_suspend(rv.sched, inputs[0].cmds);
        if rv.sched.lifecycle.should_tick {
            lemma_drain_keeps_should_tick(rv.sched, inputs[0].cmds);
        }
        let next = apply_iteration(rv, inputs[0], target_interval);
        assert forall|i: int|
            0 <= i < inputs.drop_first().len() implies !contains_destroy(
            #[trigger] inputs.drop_first()[i].cmds,
        ) by {
            assert(inputs.drop_first()[i] == inputs[i + 1]);
        }
        lemma_run_no_destroy_preserves(next, inputs.drop_first(), target_interval);
    }
}

/// Law: over a whole run, the handshake flag falls and rises exactly once for a
/// single destroy. Start a run right after the producer requested the release
/// (flag lowered), with the engine ready and dimensions established, and let
/// exactly one of the run's iterations — the `k`-th — carry the
/// `SurfaceDestroyed`. Then the flag stays lowered through every iteration
/// before the `k`-th and is raised from the `k`-th iteration on, for the rest
/// of the run: lowered once by the producer's request, raised once by the
/// teardown, constant everywhere else. That the producer's destroy call returns
/// only once the flag is raised is the embedding's blocking wait, which re-checks
/// the flag under its lock on every wake.
pub proof fn lemma_single_destroy_acknowledges_exactly_once(
    rv: RunView,
    inputs: Seq<IterationInput>,
    target_interval: u64,
    k: int,
)
    requires
        rv.sched.readiness is Ready,
        rv.sched.lifecycle.should_tick,
        !rv.sched.lifecycle.will_suspend,
        !rv.acknowledged,
        0 <= k < inputs.len(),
        contains_destroy(inputs[k].cmds),
        forall|i: int|
            0 <= i < inputs.len() && i != k ==> !contains_destroy(#[trigger] inputs[i].cmds),
    ensures
        forall|i: int| 0 <= i <= k ==> !acknowledged_after(rv, inputs, target_interval, i),
        forall|i: int|
            k < i <= inputs.len() ==> acknowledged_after(rv, inputs, target_interval, i),
{
    assert forall|i: int| 0 <= i <= k implies !acknowledged_after(rv, inputs, target_interval, i) by {
        let pre = inputs.take(i);
        assert forall|j: int| 0 <= j < pre.len() implies !contains_destroy(#[trigger] pre[j].cmds) by {
            assert(pre[j] == inputs[j]);
        }
        lemma_run_no_destroy_preserves(rv, pre, target_interval);
    }
    assert forall|i: int|
        k < i <= inputs.len() implies acknowledged_after(rv, inputs, target_interval, i) by {
        let pre = inputs.take(k);
        let mid = seq![inputs[k]];
        let post = inputs.subrange(k + 1, i);
        assert(inputs.take(i) =~= (pre + mid) + post);
        lemma_run_compose(rv, pre + mid, post, target_interval);
        lemma_run_compose(rv, pre, mid, target_interval);

        assert forall|j: int| 0 <= j < pre.len() implies !contains_destroy(#[trigger] pre[j].cmds) by {
            assert(pre[j] == inputs[j]);
        }
        lemma_run_no_destroy_preserves(rv, pre, target_interval);
        let rv1 = run_state(rv, pre, target_interval);
        lemma_destroy_acknowledged_in_iteration(
            rv1.sched,
            inputs[k].cmds,
            inputs[k].now,
            inputs[k].engine_exit,
            target_interval,
        );
        assert(mid.drop_first() =~= Seq::<IterationInput>::empty());
        let rv2 = run_state(rv1, mid, target_interval);
        let rv_mid = apply_iteration(rv1, mid[0], target_interval);
        assert(mid[0] == inputs[k]);
        assert(rv2 == run_state(rv_mid, mid.drop_first(), target_interval));
        assert(run_state(rv_mid, mid.drop_first(), target_interval) == rv_mid);
        assert(rv2 == apply_iteration(rv1, inputs[k], target_interval));
        assert(rv2.acknowledged && !rv2.sched.lifecycle.will_suspend);
        assert forall|j: int| 0 <= j < post.len() implies !contains_destroy(#[trigger] post[j].cmds) by {
            assert(post[j] == inputs[k + 1 + j]);
        }
        lemma_run_no_destroy_preserves(rv2, post, target_interval);
        assert(run_state(rv, inputs.take(i), target_interval) == run_state(rv2, post, target_interval));
    }
}

} // verus!
