use vstd::prelude::*;
use crate::error::{BridgeError, UsageError};

verus! {

/// One of the three outcomes of advancing a cursor.
#[derive(Clone, Debug, PartialEq)]
pub enum Advance<T> {
    Item(T),
    EndOfStream,
    Failed(BridgeError),
}

/// What an advance that holds the guard must do next.
#[derive(Clone, Copy, PartialEq, Eq, Debug)]
pub enum Step {
    /// Pull one item from the underlying stream.
    Pull,
    /// The stream has ended: answer end-of-stream without touching it.
    Finished,
}

/// The state of a streaming cursor beside its underlying stream: whether the
/// stream has ended, and whether an advance holds the exclusive guard.
#[derive(Clone, Debug, PartialEq)]
pub struct CursorState {
    pub exhausted: bool,
    pub held: bool,
}

/// The state after an attempt to take the guard, and the answer to it.
pub open spec fn acquire_step(s: CursorState) -> (CursorState, Result<Step, UsageError>) {
    if s.held {
        (s, Err(UsageError::ConcurrentAdvance))
    } else {
        (
            CursorState { exhausted: s.exhausted, held: true },
            Ok(if s.exhausted { Step::Finished } else { Step::Pull }),
        )
    }
}

/// The state after an advance ends; `ended` tells whether the pull found the
/// stream's end.
pub open spec fn release_step(s: CursorState, ended: bool) -> CursorState {
    CursorState { exhausted: s.exhausted || ended, held: false }
}

impl CursorState {
    /// A cursor over a stream that has not ended, with its guard free.
    pub fn new() -> (r: Self)
        ensures
            !r.exhausted,
            !r.held,
    {
        CursorState { exhausted: false, held: false }
    }

    /// Takes the guard for one advance and says whether to pull. Refused,
    /// with the state unchanged, while another advance holds the guard.
    pub fn acquire(&mut self) -> (r: Result<Step, UsageError>)
        ensures
            (*final(self), r) == acquire_step(*old(self)),
    {
        if self.held {
            Err(UsageError::ConcurrentAdvance)
        } else {
            self.held = true;
            if self.exhausted {
                Ok(Step::Finished)
            } else {
                Ok(Step::Pull)
            }
        }
    }

    /// Ends an advance on an ended stream: the answer is end-of-stream again.
    pub fn finish<T>(&mut self) -> (r: Advance<T>)
        requires
            old(self).held,
            old(self).exhausted,
        ensures
            r is EndOfStream,
            *final(self) == release_step(*old(self), false),
    {
        self.held = false;
        Advance::EndOfStream
    }

    /// Ends an advance with what one pull of the underlying stream gave: an
    /// item, its end, or its failure. Only the end makes the state terminal.
    pub fn complete<T>(&mut self, pulled: Option<Result<T, BridgeError>>) -> (r: Advance<T>)
        requires
            old(self).held,
            !old(self).exhausted,
        ensures
            *final(self) == release_step(*old(self), pulled is None),
            match pulled {
                None => r is EndOfStream,
                Some(Ok(x)) => r == Advance::<T>::Item(x),
                Some(Err(e)) => r == Advance::<T>::Failed(e),
            },
    {
        self.held = false;
        match pulled {
            None => {
                self.exhausted = true;
                Advance::EndOfStream
            },
            Some(Ok(x)) => Advance::Item(x),
            Some(Err(e)) => Advance::Failed(e),
        }
    }
}

/// The guard excludes overlap: while one advance holds it, no second advance
/// gets it, so the underlying stream is never entered by two at once.
pub proof fn lemma_guard_excludes(s: CursorState)
    requires
        acquire_step(s).1 is Ok,
    ensures
        acquire_step(acquire_step(s).0).1 == Err::<Step, UsageError>(UsageError::ConcurrentAdvance),
{
}

/// The end of the stream is terminal: once it has been seen, every later
/// advance takes the guard, answers end-of-stream without pulling, and leaves
/// the cursor ended and free again.
pub proof fn lemma_end_is_terminal(s: CursorState)
    requires
        s.exhausted,
        !s.held,
    ensures
        acquire_step(s).1 == Ok::<Step, UsageError>(Step::Finished),
        release_step(acquire_step(s).0, false) == s,
{
}

} // verus!
