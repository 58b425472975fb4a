//! The shutdown signal that the loops of the program share.
//!
//! A [`Terminator`] is a latch: it takes at most one reason and keeps it.
//! Each loop holds an [`InterruptReader`] and learns the reason from the
//! latch exactly once, whether it subscribed before or after the signal.

use vstd::prelude::*;

verus! {

/// Why the program is shutting down.
#[derive(Debug, Clone, Copy, PartialEq, Eq, Structural)]
pub enum Interrupted {
    /// The operating system asked the process to stop.
    OsSigInt,
    /// The user asked to quit.
    UserInt,
}

/// The refusal of a second signal: the latch already holds a reason.
#[derive(Debug, Clone, Copy, PartialEq, Eq, Structural)]
pub struct AlreadySignaled {
    /// The reason that was signaled first and stands.
    pub standing: Interrupted,
}

/// What a signal does to a latch that holds `before`: the reason that it
/// holds afterwards, and whether the signal was the one that set it.
pub open spec fn signaled(before: Option<Interrupted>, reason: Interrupted) -> (
    Option<Interrupted>,
    bool,
) {
    match before {
        None => (Some(reason), true),
        Some(standing) => (Some(standing), false),
    }
}

/// What a reader learns from a latch that holds `reason`, given whether it
/// has learned of the shutdown before.
pub open spec fn observed(reason: Option<Interrupted>, notified: bool) -> Option<Interrupted> {
    if notified {
        None
    } else {
        reason
    }
}

/// The writing side of the shutdown signal.
#[derive(Debug)]
pub struct Terminator {
    reason: Option<Interrupted>,
}

impl Terminator {
    /// The reason that was signaled, if any was.
    pub closed spec fn reason(&self) -> Option<Interrupted> {
        self.reason
    }

    /// A latch that nobody has signaled.
    pub fn new() -> (terminator: Terminator)
        ensures
            terminator.reason() is None,
    {
        Terminator { reason: None }
    }

    /// Signals the shutdown. The first signal sets the reason; every later
    /// one is refused and changes nothing.
    pub fn terminate(&mut self, reason: Interrupted) -> (result: Result<(), AlreadySignaled>)
        ensures
            final(self).reason() == signaled(old(self).reason(), reason).0,
            result is Ok == signaled(old(self).reason(), reason).1,
            result matches Err(refusal) ==> old(self).reason() == Some(refusal.standing),
    {
        match self.reason {
            None => {
                self.reason = Some(reason);
                Ok(())
            },
            Some(standing) => Err(AlreadySignaled { standing }),
        }
    }

    /// The reason that was signaled, if any was.
    pub fn interrupted(&self) -> (reason: Option<Interrupted>)
        ensures
            reason == self.reason(),
    {
        self.reason
    }

    /// A reader of its own, which has not yet learned of any shutdown. It
    /// may be made before or after the signal.
    pub fn subscribe(&self) -> (reader: InterruptReader)
        ensures
            !reader.notified(),
    {
        InterruptReader { notified: false }
    }
}

/// The reading side of the shutdown signal, one for each loop.
#[derive(Debug)]
pub struct InterruptReader {
    notified: bool,
}

impl InterruptReader {
    /// Whether this reader has learned of the shutdown.
    pub closed spec fn notified(&self) -> bool {
        self.notified
    }

    /// Looks at the latch. The reader gets the reason the first time it
    /// looks after the signal, and nothing before or after that.
    pub fn recv(&mut self, terminator: &Terminator) -> (reason: Option<Interrupted>)
        ensures
            reason == observed(terminator.reason(), old(self).notified()),
            final(self).notified() == (old(self).notified() || terminator.reason() is Some),
    {
        if self.notified {
            None
        } else {
            match terminator.reason {
                None => None,
                Some(reason) => {
                    self.notified = true;
                    Some(reason)
                },
            }
        }
    }
}

/// A signal on a latch that was signaled before leaves the latch as it was
/// and is refused: signaling twice ends the program once, with the first
/// reason.
pub proof fn lemma_second_signal_changes_nothing(
    before: Option<Interrupted>,
    first: Interrupted,
    second: Interrupted,
)
    ensures
        signaled(signaled(before, first).0, second).0 == signaled(before, first).0,
        !signaled(signaled(before, first).0, second).1,
        before is None ==> signaled(signaled(before, first).0, second).0 == Some(first),
{
}

/// Every reader that has not been notified learns the same reason from a
/// latch, and it is the reason that the latch holds: a reader that
/// subscribed after the signal misses nothing.
pub proof fn lemma_readers_agree(reason: Option<Interrupted>)
    ensures
        observed(reason, false) == reason,
        observed(reason, true) is None,
{
}

} // verus!
