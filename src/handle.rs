use vstd::prelude::*;
use crate::error::UsageError;

verus! {

/// Where the outcome of one asynchronous operation waits for its consumer.
#[derive(Clone, Debug, PartialEq)]
pub enum Slot<T> {
    /// The operation has not finished.
    Pending,
    /// The operation finished with this outcome, not yet delivered.
    Ready(T),
    /// The outcome has been delivered.
    Taken,
}

/// What an await of the handle observes.
#[derive(Clone, Debug, PartialEq)]
pub enum Poll<T> {
    /// The operation is still running: the caller suspends.
    Waiting,
    /// The outcome, delivered exactly once.
    Done(T),
    /// The handle was misused.
    Misused(UsageError),
}

/// An awaitable handle over one operation that yields exactly one outcome.
/// An outcome that arrives after the handle was dropped is discarded.
#[derive(Clone, Debug, PartialEq)]
pub struct Handle<T> {
    pub slot: Slot<T>,
}

/// The slot after the operation delivers `outcome`: only a pending slot takes it.
pub open spec fn resolve_step<T>(s: Slot<T>, outcome: T) -> Slot<T> {
    match s {
        Slot::Pending => Slot::Ready(outcome),
        _ => s,
    }
}

/// The slot after one await, and what the await observes.
pub open spec fn poll_step<T>(s: Slot<T>) -> (Slot<T>, Poll<T>) {
    match s {
        Slot::Pending => (Slot::Pending, Poll::Waiting),
        Slot::Ready(x) => (Slot::Taken, Poll::Done(x)),
        Slot::Taken => (Slot::Taken, Poll::Misused(UsageError::AwaitedTwice)),
    }
}

impl<T> Handle<T> {
    /// A handle whose operation is still running.
    pub fn new() -> (r: Self)
        ensures
            r.slot is Pending,
    {
        Handle { slot: Slot::Pending }
    }

    /// Records the outcome of the operation.
    pub fn resolve(&mut self, outcome: T)
        ensures
            final(self).slot == resolve_step(old(self).slot, outcome),
    {
        if let Slot::Pending = self.slot {
            self.slot = Slot::Ready(outcome);
        }
    }

    /// One await: suspends while pending, delivers the outcome once, and
    /// reports every later await as a usage error.
    pub fn poll(&mut self) -> (r: Poll<T>)
        ensures
            (final(self).slot, r) == poll_step(old(self).slot),
    {
        let mut slot = Slot::Taken;
        std::mem::swap(&mut self.slot, &mut slot);
        match slot {
            Slot::Pending => {
                self.slot = Slot::Pending;
                Poll::Waiting
            },
            Slot::Ready(x) => Poll::Done(x),
            Slot::Taken => Poll::Misused(UsageError::AwaitedTwice),
        }
    }
}

/// An outcome is delivered at most once: after an await that delivered it,
/// every further await is reported as awaiting twice.
pub proof fn lemma_delivered_once<T>(s: Slot<T>)
    requires
        poll_step(s).1 is Done,
    ensures
        poll_step(poll_step(s).0).1 == Poll::<T>::Misused(UsageError::AwaitedTwice),
        poll_step(poll_step(poll_step(s).0).0) == poll_step(poll_step(s).0),
{
}

} // verus!
