use subxtpy::client::{ClientState, Phase};
use subxtpy::error::{BridgeError, UsageError};
use subxtpy::handle::{Handle, Poll, Slot};

#[test]
fn handle_delivers_once() {
    let mut h: Handle<u32> = Handle::new();
    assert_eq!(h.poll(), Poll::Waiting);
    h.resolve(5);
    assert_eq!(h.poll(), Poll::Done(5));
    assert_eq!(h.poll(), Poll::Misused(UsageError::AwaitedTwice));
    assert_eq!(h.poll(), Poll::Misused(UsageError::AwaitedTwice));
}

#[test]
fn late_outcome_is_discarded() {
    let mut h: Handle<u32> = Handle::new();
    h.resolve(1);
    h.resolve(2);
    assert_eq!(h.slot, Slot::Ready(1));
    assert_eq!(h.poll(), Poll::Done(1));
    h.resolve(3);
    assert_eq!(h.slot, Slot::Taken);
}

#[test]
fn client_becomes_ready_after_connecting() {
    let mut c = ClientState::new();
    assert_eq!(c.check_ready(), Err(BridgeError::Usage(UsageError::NotReady)));
    assert_eq!(c.begin_connect(), Ok(()));
    assert_eq!(c.phase, Phase::Connecting);
    assert_eq!(c.check_ready(), Err(BridgeError::Usage(UsageError::NotReady)));
    assert_eq!(c.begin_connect(), Err(UsageError::NotReady));
    assert_eq!(c.connected(Ok(())), Ok(()));
    assert_eq!(c.check_ready(), Ok(()));
}

#[test]
fn failed_connection_returns_to_start() {
    let mut c = ClientState::new();
    assert_eq!(c.begin_connect(), Ok(()));
    assert_eq!(c.connected(Err("refused".to_string())), Err(BridgeError::Connection("refused".to_string())));
    assert_eq!(c.phase, Phase::Uninitialized);
    assert_eq!(c.begin_connect(), Ok(()));
}
