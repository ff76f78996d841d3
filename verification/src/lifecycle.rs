//! The lifecycle state machine: whether a surface exists, whether the frame
//! engine should be ticked, and whether a suspend is pending.
//!
//! The state is mutated exclusively by the consumer loop. Each command maps to
//! a transition of the state plus a sequence of [`EngineAction`]s, the outbound
//! effects the embedding performs on the frame engine. Commands that require a
//! surface target while none exists, or that would hand over a second window
//! handle while one is still held, are protocol violations by the host; they
//! are excluded by precondition rather than recovered from silently, mirroring
//! the host's single-surface, single-activity guarantee.

use vstd::prelude::*;

use crate::command::{Command, LifecycleEvent, TouchEvent, WindowHandle};

verus! {

/// One outbound effect on the frame engine. The scheduler produces these in
/// order; the embedding performs them in order.
#[derive(Clone, Copy, Debug, PartialEq, Eq, Structural)]
pub enum EngineAction {
    /// Register the single managed window target with the engine (first-time path).
    CreateTarget,
    /// Attach the native window with this identifier to the managed target.
    BindSurface(u64),
    /// Announce to the engine that its window now exists.
    NotifyCreated,
    /// Update the target's pixel dimensions (width, height) and announce the resize.
    Resize(u32, u32),
    /// Announce to the engine that its window is going away.
    NotifyDestroyed,
    /// Forward one touch sample.
    DispatchTouch(TouchEvent),
    /// Forward one lifecycle notification.
    DispatchLifecycle(LifecycleEvent),
    /// Run one update + render pass of the engine.
    Tick,
    /// Detach the surface binding from the managed target; the owned handle is
    /// handed back separately and must be dropped after this.
    UnbindSurface,
}

/// The consumer-owned lifecycle state.
#[derive(Debug, PartialEq, Eq, Structural)]
pub struct LifecycleState {
    /// The engine-side slot of the single managed window target; absent until
    /// the first `SurfaceCreated`, then permanent.
    pub surface_entity: Option<u64>,
    /// The owned native window handle, present between a `SurfaceCreated` and
    /// the teardown that follows a `SurfaceDestroyed`.
    pub window: Option<WindowHandle>,
    /// Whether the engine may be ticked; becomes true only once a
    /// `SurfaceChanged` has established concrete dimensions.
    pub should_tick: bool,
    /// Whether a destroy is pending: teardown is deferred to the scheduler so
    /// in-flight frame work completes first.
    pub will_suspend: bool,
    /// Whether the application has resumed at least once, distinguishing the
    /// first-ever resume from subsequent resumes.
    pub started: bool,
}

/// The slot index the single managed window target occupies.
pub const SURFACE_TARGET_SLOT: u64 = 0;

impl LifecycleState {
    /// Internal consistency: a held window or a pending suspend presupposes a
    /// registered target. Established by `new` and preserved by every transition.
    pub open spec fn wf(self) -> bool {
        &&& self.window is Some ==> self.surface_entity is Some
        &&& self.will_suspend ==> self.surface_entity is Some
    }

    /// The initial state: no target, no window, nothing to tick, not started.
    pub fn new() -> (s: LifecycleState)
        ensures
            s == LifecycleState::init_spec(),
    {
        LifecycleState {
            surface_entity: None,
            window: None,
            should_tick: false,
            will_suspend: false,
            started: false,
        }
    }

    /// The initial state, for specifications.
    pub open spec fn init_spec() -> LifecycleState {
        LifecycleState {
            surface_entity: None,
            window: None,
            should_tick: false,
            will_suspend: false,
            started: false,
        }
    }
}

/// Whether the host may deliver `cmd` in state `s`. A command that requires a
/// surface target while none is registered, or a second `SurfaceCreated` while
/// a handle is still held, is a protocol violation and inadmissible.
pub open spec fn admissible(s: LifecycleState, cmd: Command) -> bool {
    match cmd {
        Command::SurfaceCreated(_) => s.window is None,
        Command::SurfaceChanged(_, _) => s.surface_entity is Some,
        Command::SurfaceDestroyed => s.surface_entity is Some,
        _ => true,
    }
}

/// The state after applying one admissible command.
pub open spec fn lifecycle_step(s: LifecycleState, cmd: Command) -> LifecycleState {
    match cmd {
        Command::SurfaceCreated(h) => LifecycleState {
            surface_entity: Some(SURFACE_TARGET_SLOT),
            window: Some(h),
            ..s
        },
        Command::SurfaceChanged(_, _) => LifecycleState { should_tick: true, ..s },
        Command::SurfaceDestroyed => LifecycleState { will_suspend: true, ..s },
        Command::Resumed => LifecycleState { started: true, ..s },
        _ => s,
    }
}

/// The engine actions one admissible command gives rise to, in order.
pub open spec fn lifecycle_actions(s: LifecycleState, cmd: Command) -> Seq<EngineAction> {
    match cmd {
        Command::SurfaceCreated(h) => if s.surface_entity is None {
            seq![
                EngineAction::CreateTarget,
                EngineAction::BindSurface(h.id_spec()),
                EngineAction::NotifyCreated,
            ]
        } else {
            seq![EngineAction::BindSurface(h.id_spec()), EngineAction::NotifyCreated]
        },
        Command::SurfaceChanged(w, h) => seq![EngineAction::Resize(w, h)],
        Command::SurfaceDestroyed => seq![EngineAction::NotifyDestroyed],
        Command::Stop => seq![],
        Command::Touch(t) => seq![EngineAction::DispatchTouch(t)],
        Command::Resumed => if s.started {
            seq![EngineAction::DispatchLifecycle(LifecycleEvent::Resumed)]
        } else {
            seq![EngineAction::DispatchLifecycle(LifecycleEvent::Started)]
        },
        Command::Paused => seq![EngineAction::DispatchLifecycle(LifecycleEvent::Suspended)],
    }
}

/// The state once a pending suspend's teardown completes: the handle is gone,
/// ticking stops, the suspend is no longer pending. The target slot survives,
/// ready for the next `SurfaceCreated`.
pub open spec fn teardown_spec(s: LifecycleState) -> LifecycleState {
    LifecycleState { window: None, should_tick: false, will_suspend: false, ..s }
}

impl LifecycleState {
    /// Decides at run time whether the host may deliver `cmd` now; the
    /// embedding consults this before applying commands it cannot vouch for.
    pub fn check_admissible(&self, cmd: &Command) -> (b: bool)
        ensures
            b == admissible(*self, *cmd),
    {
        match cmd {
            Command::SurfaceCreated(_) => self.window.is_none(),
            Command::SurfaceChanged(_, _) => self.surface_entity.is_some(),
            Command::SurfaceDestroyed => self.surface_entity.is_some(),
            _ => true,
        }
    }

    /// Applies one command: transitions the state and appends the outbound
    /// engine actions. `Stop` is not a lifecycle matter and changes nothing
    /// here; the scheduler interprets it.
    pub fn apply(&mut self, cmd: Command, actions: &mut Vec<EngineAction>)
        requires
            admissible(*old(self), cmd),
        ensures
            *final(self) == lifecycle_step(*old(self), cmd),
            final(actions)@ == old(actions)@ + lifecycle_actions(*old(self), cmd),
            old(self).wf() ==> final(self).wf(),
    {
        let ghost pre = *self;
        match cmd {
            Command::SurfaceCreated(h) => {
                if self.surface_entity.is_none() {
                    actions.push(EngineAction::CreateTarget);
                }
                actions.push(EngineAction::BindSurface(h.id()));
                self.surface_entity = Some(SURFACE_TARGET_SLOT);
                self.window = Some(h);
                actions.push(EngineAction::NotifyCreated);
            },
            Command::SurfaceChanged(w, h) => {
                actions.push(EngineAction::Resize(w, h));
                self.should_tick = true;
            },
            Command::SurfaceDestroyed => {
                actions.push(EngineAction::NotifyDestroyed);
                self.will_suspend = true;
            },
            Command::Stop => {},
            Command::Touch(t) => {
                actions.push(EngineAction::DispatchTouch(t));
            },
            Command::Resumed => {
                if self.started {
                    actions.push(EngineAction::DispatchLifecycle(LifecycleEvent::Resumed));
                } else {
                    actions.push(EngineAction::DispatchLifecycle(LifecycleEvent::Started));
                }
                self.started = true;
            },
            Command::Paused => {
                actions.push(EngineAction::DispatchLifecycle(LifecycleEvent::Suspended));
            },
        }
        proof {
            assert(final(actions)@ =~= old(actions)@ + lifecycle_actions(pre, cmd));
        }
    }

    /// Completes a pending suspend: detaches the binding (one `UnbindSurface`
    /// action) and hands the owned window handle back for the embedding to
    /// drop. Only called by the scheduler once in-flight frame work is done.
    pub fn teardown(&mut self, actions: &mut Vec<EngineAction>) -> (released: Option<WindowHandle>)
        requires
            old(self).will_suspend,
        ensures
            *final(self) == teardown_spec(*old(self)),
            released == old(self).window,
            final(actions)@ == old(actions)@ + seq![EngineAction::UnbindSurface],
    {
        actions.push(EngineAction::UnbindSurface);
        self.should_tick = false;
        self.will_suspend = false;
        self.window.take()
    }
}

} // verus!
