use vstd::prelude::*;

verus! {

/// Misuse of the bridge by its caller.
#[derive(Clone, Copy, PartialEq, Eq, Debug)]
pub enum UsageError {
    /// A query was issued before the client was ready.
    NotReady,
    /// A handle was awaited after it had already delivered its outcome.
    AwaitedTwice,
    /// A cursor was advanced while another advance still held it.
    ConcurrentAdvance,
}

/// Every failure that the bridge reports to its caller.
#[derive(Clone, Debug, PartialEq)]
pub enum BridgeError {
    /// Establishing the connection failed; the description comes from the transport.
    Connection(String),
    /// The storage entry asked for does not exist.
    QueryNotFound,
    /// The retrieved bytes did not match the expected schema.
    Decode(String),
    /// A decoded value holds a primitive kind that has no native form; the kind is named.
    UnsupportedPrimitive(String),
    /// The remote operation failed; the description comes from the transport.
    Remote(String),
    /// The caller broke the bridge's usage contract.
    Usage(UsageError),
}

} // verus!
