//! The command channel: an unbounded FIFO queue of commands with one consumer.
//!
//! Insertion order is delivery order. The channel lives for the whole process
//! and is drained, not torn down, between successive runs of the loop. Until a
//! consumer has been initialized there is nobody to apply a command to, so a
//! send in that window discards the command instead of queueing it forever.
//!
//! This type is the channel's functional core. Producers on other threads reach
//! it through the embedding's lock; the consumer's bounded blocking wait is the
//! embedding's as well and always re-enters through [`CommandChannel::try_receive`]
//! or [`CommandChannel::receive_with_timeout`].

use vstd::prelude::*;

use crate::command::Command;

verus! {

/// An unbounded multi-producer single-consumer FIFO queue of commands.
pub struct CommandChannel {
    queue: std::collections::VecDeque<Command>,
    initialized: bool,
}

impl CommandChannel {
    /// The queued commands, oldest first.
    pub closed spec fn pending(self) -> Seq<Command> {
        self.queue@
    }

    /// Whether a consumer has ever been initialized.
    pub closed spec fn is_initialized(self) -> bool {
        self.initialized
    }

    /// Creates the channel, empty and without a consumer.
    pub fn new() -> (c: CommandChannel)
        ensures
            c.pending() == Seq::<Command>::empty(),
            !c.is_initialized(),
    {
        CommandChannel { queue: std::collections::VecDeque::new(), initialized: false }
    }

    /// Marks the channel as having a consumer. Idempotent: queued commands are
    /// kept, so repeated initialization is harmless.
    pub fn init(&mut self)
        ensures
            final(self).pending() == old(self).pending(),
            final(self).is_initialized(),
    {
        self.initialized = true;
    }

    /// How many commands are queued; the embedding's bounded wait re-checks
    /// this under its lock on every wake.
    pub fn pending_count(&self) -> (n: usize)
        ensures
            n == self.pending().len(),
    {
        self.queue.len()
    }

    /// Whether a consumer has ever been initialized.
    pub fn has_consumer(&self) -> (b: bool)
        ensures
            b == self.is_initialized(),
    {
        self.initialized
    }

    /// Enqueues a command without blocking. If no consumer has ever been
    /// initialized the command is discarded (there is nothing to apply it to,
    /// and blocking would deadlock a platform callback thread); the result says
    /// whether the command was accepted.
    pub fn send(&mut self, cmd: Command) -> (accepted: bool)
        ensures
            accepted == old(self).is_initialized(),
            final(self).is_initialized() == old(self).is_initialized(),
            old(self).is_initialized() ==> final(self).pending() == old(self).pending().push(cmd),
            !old(self).is_initialized() ==> final(self).pending() == old(self).pending(),
    {
        if self.initialized {
            self.queue.push_back(cmd);
            true
        } else {
            false
        }
    }

    /// Removes and returns the oldest queued command, or `None` when the queue
    /// is empty, without blocking.
    pub fn try_receive(&mut self) -> (r: Option<Command>)
        ensures
            final(self).is_initialized() == old(self).is_initialized(),
            old(self).pending().len() == 0 ==> r is None && final(self).pending()
                == old(self).pending(),
            old(self).pending().len() > 0 ==> r == Some(old(self).pending()[0])
                && final(self).pending() == old(self).pending().drop_first(),
    {
        self.queue.pop_front()
    }

    /// Discards every queued command. The channel itself survives: between runs
    /// of the loop it is drained, never torn down.
    pub fn clear(&mut self)
        ensures
            final(self).pending().len() == 0,
            final(self).is_initialized() == old(self).is_initialized(),
    {
        self.queue.clear()
    }

    /// The consumer's bounded wait: blocks for at most `timeout` time units for
    /// a command to arrive, then behaves as [`Self::try_receive`]. While the
    /// consumer holds the channel nothing can be inserted, so here the wait
    /// itself is not observable and only the FIFO removal is specified; the
    /// embedding realizes the blocking at the process edge, waking early when a
    /// command arrives. A timeout is an expected scheduling signal, not an error.
    pub fn receive_with_timeout(&mut self, timeout: u64) -> (r: Option<Command>)
        ensures
            final(self).is_initialized() == old(self).is_initialized(),
            old(self).pending().len() == 0 ==> r is None && final(self).pending()
                == old(self).pending(),
            old(self).pending().len() > 0 ==> r == Some(old(self).pending()[0])
                && final(self).pending() == old(self).pending().drop_first(),
    {
        let _ = timeout;
        self.try_receive()
    }
}

} // verus!
