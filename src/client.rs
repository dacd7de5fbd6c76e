use vstd::prelude::*;
use crate::error::{BridgeError, UsageError};

verus! {

/// The phases of a client: it answers queries only once it is ready.
#[derive(Clone, Copy, PartialEq, Eq, Debug)]
pub enum Phase {
    Uninitialized,
    Connecting,
    Ready,
}

/// The phase of one client façade.
#[derive(Clone, Debug, PartialEq)]
pub struct ClientState {
    pub phase: Phase,
}

impl ClientState {
    /// A client that has not begun to connect.
    pub fn new() -> (r: Self)
        ensures
            r.phase == Phase::Uninitialized,
    {
        ClientState { phase: Phase::Uninitialized }
    }

    /// Starts connecting; refused unless the client is uninitialized.
    pub fn begin_connect(&mut self) -> (r: Result<(), UsageError>)
        ensures
            old(self).phase == Phase::Uninitialized ==> r is Ok && final(self).phase == Phase::Connecting,
            old(self).phase != Phase::Uninitialized ==> r == Err::<(), UsageError>(UsageError::NotReady)
                && final(self).phase == old(self).phase,
    {
        match self.phase {
            Phase::Uninitialized => {
                self.phase = Phase::Connecting;
                Ok(())
            },
            _ => Err(UsageError::NotReady),
        }
    }

    /// Records how connecting ended: ready on success; on failure the client
    /// is back to uninitialized and the failure is a connection error.
    pub fn connected(&mut self, outcome: Result<(), String>) -> (r: Result<(), BridgeError>)
        requires
            old(self).phase == Phase::Connecting,
        ensures
            match outcome {
                Ok(()) => r is Ok && final(self).phase == Phase::Ready,
                Err(msg) => r == Err::<(), BridgeError>(BridgeError::Connection(msg))
                    && final(self).phase == Phase::Uninitialized,
            },
    {
        match outcome {
            Ok(()) => {
                self.phase = Phase::Ready;
                Ok(())
            },
            Err(msg) => {
                self.phase = Phase::Uninitialized;
                Err(BridgeError::Connection(msg))
            },
        }
    }

    /// Admits a query only in the ready phase.
    pub fn check_ready(&self) -> (r: Result<(), BridgeError>)
        ensures
            self.phase == Phase::Ready ==> r is Ok,
            self.phase != Phase::Ready ==> r == Err::<(), BridgeError>(BridgeError::Usage(UsageError::NotReady)),
    {
        match self.phase {
            Phase::Ready => Ok(()),
            _ => Err(BridgeError::Usage(UsageError::NotReady)),
        }
    }
}

} // verus!
