//! The shared context: the command channel and the destruction handshake,
//! constructed once and handed to both the platform-callback adapter and the
//! consumer loop, plus the producer-side entry points — one per inbound
//! lifecycle or input notification.
//!
//! Every entry point translates its notification into one command send. The
//! destroy path additionally runs the producer side of the destruction
//! handshake; its blocking wait for the acknowledgement lives in the embedding,
//! which re-checks [`crate::handshake::ReleaseHandshake::is_acknowledged`] on
//! every wake.

use vstd::prelude::*;

use crate::channel::CommandChannel;
use crate::command::{phase_of_action, Command, TouchEvent, WindowHandle};
use crate::handshake::ReleaseHandshake;

verus! {

/// The process-lifetime state shared between producers and the consumer. It is
/// created once and reused across repeated runs of the loop.
pub struct Context {
    pub channel: CommandChannel,
    pub handshake: ReleaseHandshake,
}

impl Context {
    /// Creates the context: an empty channel with no consumer yet, and the
    /// handshake in its resting state.
    pub fn new() -> (ctx: Context)
        ensures
            ctx.channel.pending() == Seq::<Command>::empty(),
            !ctx.channel.is_initialized(),
            ctx.handshake.is_acknowledged_spec(),
            !ctx.handshake.is_loop_active_spec(),
    {
        Context { channel: CommandChannel::new(), handshake: ReleaseHandshake::new() }
    }

    /// Initializes the command queue for its consumer. Idempotent; commands
    /// sent before this are discarded, commands sent after it are queued.
    pub fn init_command_queue(&mut self)
        ensures
            final(self).channel.pending() == old(self).channel.pending(),
            final(self).channel.is_initialized(),
            final(self).handshake == old(self).handshake,
    {
        self.channel.init();
    }

    /// A native surface exists: queues `SurfaceCreated`, transferring ownership
    /// of the handle with the command.
    pub fn surface_created(&mut self, handle: WindowHandle) -> (accepted: bool)
        ensures
            accepted == old(self).channel.is_initialized(),
            old(self).channel.is_initialized() ==> final(self).channel.pending() == old(
                self,
            ).channel.pending().push(Command::SurfaceCreated(handle)),
            !old(self).channel.is_initialized() ==> final(self).channel.pending() == old(
                self,
            ).channel.pending(),
            final(self).channel.is_initialized() == old(self).channel.is_initialized(),
            final(self).handshake == old(self).handshake,
    {
        self.channel.send(Command::SurfaceCreated(handle))
    }

    /// The surface has concrete pixel dimensions: queues `SurfaceChanged`.
    pub fn surface_changed(&mut self, width: u32, height: u32) -> (accepted: bool)
        ensures
            accepted == old(self).channel.is_initialized(),
            old(self).channel.is_initialized() ==> final(self).channel.pending() == old(
                self,
            ).channel.pending().push(Command::SurfaceChanged(width, height)),
            !old(self).channel.is_initialized() ==> final(self).channel.pending() == old(
                self,
            ).channel.pending(),
            final(self).channel.is_initialized() == old(self).channel.is_initialized(),
            final(self).handshake == old(self).handshake,
    {
        self.channel.send(Command::SurfaceChanged(width, height))
    }

    /// The host is about to reclaim the surface: the producer side of the
    /// destruction handshake. With a loop running and a consumer initialized,
    /// this marks the release as owed and queues `SurfaceDestroyed`; the caller
    /// must then block until the handshake is acknowledged before returning to
    /// the host. With no active loop or no consumer there is nothing to
    /// release, nothing is queued, and the caller must not block.
    pub fn surface_destroyed(&mut self) -> (must_wait: bool)
        ensures
            must_wait == (old(self).handshake.is_loop_active_spec()
                && old(self).channel.is_initialized()),
            must_wait ==> {
                &&& !final(self).handshake.is_acknowledged_spec()
                &&& final(self).channel.pending() == old(self).channel.pending().push(
                    Command::SurfaceDestroyed,
                )
            },
            !must_wait ==> *final(self) == *old(self),
            final(self).channel.is_initialized() == old(self).channel.is_initialized(),
            final(self).handshake.is_loop_active_spec() == old(
                self,
            ).handshake.is_loop_active_spec(),
    {
        if self.handshake.is_loop_active() && self.channel.has_consumer() {
            self.handshake.request_release();
            self.channel.send(Command::SurfaceDestroyed);
            true
        } else {
            false
        }
    }

    /// Requests cooperative termination of the loop: queues `Stop`.
    pub fn stop(&mut self) -> (accepted: bool)
        ensures
            accepted == old(self).channel.is_initialized(),
            old(self).channel.is_initialized() ==> final(self).channel.pending() == old(
                self,
            ).channel.pending().push(Command::Stop),
            !old(self).channel.is_initialized() ==> final(self).channel.pending() == old(
                self,
            ).channel.pending(),
            final(self).channel.is_initialized() == old(self).channel.is_initialized(),
            final(self).handshake == old(self).handshake,
    {
        self.channel.send(Command::Stop)
    }

    /// A raw touch sample from the platform. The action code is mapped to a
    /// touch phase; a recognized phase is queued as a `Touch` command, an
    /// unrecognized code is dropped silently. The coordinates travel as the
    /// raw bit patterns of the platform's single-precision values.
    pub fn touch(&mut self, pointer_id: u64, action_code: u32, x_bits: u32, y_bits: u32) -> (queued:
        bool)
        ensures
            queued == (phase_of_action(action_code) is Some
                && old(self).channel.is_initialized()),
            queued ==> final(self).channel.pending() == old(self).channel.pending().push(
                Command::Touch(
                    TouchEvent {
                        phase: phase_of_action(action_code)->0,
                        pointer_id,
                        x_bits,
                        y_bits,
                    },
                ),
            ),
            !queued ==> final(self).channel.pending() == old(self).channel.pending(),
            final(self).channel.is_initialized() == old(self).channel.is_initialized(),
            final(self).handshake == old(self).handshake,
    {
        match crate::command::map_touch_phase(action_code) {
            Some(phase) => self.channel.send(
                Command::Touch(TouchEvent { phase, pointer_id, x_bits, y_bits }),
            ),
            None => false,
        }
    }

    /// The host resumed the application: queues `Resumed`.
    pub fn resumed(&mut self) -> (accepted: bool)
        ensures
            accepted == old(self).channel.is_initialized(),
            old(self).channel.is_initialized() ==> final(self).channel.pending() == old(
                self,
            ).channel.pending().push(Command::Resumed),
            !old(self).channel.is_initialized() ==> final(self).channel.pending() == old(
                self,
            ).channel.pending(),
            final(self).channel.is_initialized() == old(self).channel.is_initialized(),
            final(self).handshake == old(self).handshake,
    {
        self.channel.send(Command::Resumed)
    }

    /// The host paused the application: queues `Paused`.
    pub fn paused(&mut self) -> (accepted: bool)
        ensures
            accepted == old(self).channel.is_initialized(),
            old(self).channel.is_initialized() ==> final(self).channel.pending() == old(
                self,
            ).channel.pending().push(Command::Paused),
            !old(self).channel.is_initialized() ==> final(self).channel.pending() == old(
                self,
            ).channel.pending(),
            final(self).channel.is_initialized() == old(self).channel.is_initialized(),
            final(self).handshake == old(self).handshake,
    {
        self.channel.send(Command::Paused)
    }
}

} // verus!
