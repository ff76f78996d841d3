//! The destruction handshake: a two-state rendezvous that lets the thread which
//! announced a surface's destruction block until the consumer has released the
//! native handle.
//!
//! The producer sets the flag to not-acknowledged immediately before enqueueing
//! `SurfaceDestroyed`, then blocks (in the embedding, on a condition variable,
//! re-checking on every wake) until the consumer, having detached the surface
//! binding and dropped the owned handle, acknowledges. Between runs the flag
//! rests acknowledged. When no loop is active there is nothing to release and
//! the producer must skip the block entirely; the `loop_active` flag records
//! whether a consumer loop is currently running.

use vstd::prelude::*;

verus! {

/// The acknowledged / not-acknowledged rendezvous plus the loop-activity flag
/// the destroy path consults to avoid blocking with no consumer running.
pub struct ReleaseHandshake {
    acknowledged: bool,
    loop_active: bool,
}

impl ReleaseHandshake {
    /// Whether the consumer has acknowledged the most recent release request.
    pub closed spec fn is_acknowledged_spec(self) -> bool {
        self.acknowledged
    }

    /// Whether a consumer loop is currently running.
    pub closed spec fn is_loop_active_spec(self) -> bool {
        self.loop_active
    }

    /// Creates the handshake in its resting state: acknowledged, no loop active.
    pub fn new() -> (h: ReleaseHandshake)
        ensures
            h.is_acknowledged_spec(),
            !h.is_loop_active_spec(),
    {
        ReleaseHandshake { acknowledged: true, loop_active: false }
    }

    /// Producer side: records that a release is now owed. Called immediately
    /// before `SurfaceDestroyed` is enqueued.
    pub fn request_release(&mut self)
        ensures
            !final(self).is_acknowledged_spec(),
            final(self).is_loop_active_spec() == old(self).is_loop_active_spec(),
    {
        self.acknowledged = false;
    }

    /// Consumer side: records that the surface binding has been detached and
    /// the owned handle dropped, releasing any producer waiting on the flag.
    pub fn confirm_release(&mut self)
        ensures
            final(self).is_acknowledged_spec(),
            final(self).is_loop_active_spec() == old(self).is_loop_active_spec(),
    {
        self.acknowledged = true;
    }

    /// The predicate a waiting producer re-checks on every wake.
    pub fn is_acknowledged(&self) -> (b: bool)
        ensures
            b == self.is_acknowledged_spec(),
    {
        self.acknowledged
    }

    /// Whether a consumer loop is currently running.
    pub fn is_loop_active(&self) -> (b: bool)
        ensures
            b == self.is_loop_active_spec(),
    {
        self.loop_active
    }

    /// Consumer side: marks the loop as running. Set before the first iteration.
    pub fn set_loop_active(&mut self)
        ensures
            final(self).is_loop_active_spec(),
            final(self).is_acknowledged_spec() == old(self).is_acknowledged_spec(),
    {
        self.loop_active = true;
    }

    /// Consumer side: marks the loop as stopped, so a later destroy request
    /// skips its wait instead of blocking with nobody left to acknowledge.
    pub fn clear_loop_active(&mut self)
        ensures
            !final(self).is_loop_active_spec(),
            final(self).is_acknowledged_spec() == old(self).is_acknowledged_spec(),
    {
        self.loop_active = false;
    }
}

} // verus!
