//! The completion bridges in isolation: single resolution, idempotent
//! polling, wake-handle handling, and disposal safety.

use indexed_db_futures::listeners::{IdbTransactionListeners, TerminalEvent, TransactionPoll};
use indexed_db_futures::outcome::IdbTransactionResult;
use indexed_db_futures::request::{RequestEvent, RequestListeners, RequestPayload};

#[test]
fn poll_pending_then_resolve_wakes_poller() {
    let mut set = IdbTransactionListeners::new();
    assert!(matches!(set.do_poll(1), TransactionPoll::Pending));
    let wake = set.on_event(TerminalEvent::Complete);
    assert_eq!(wake, Some(1));
    assert!(matches!(set.do_poll(2), TransactionPoll::Ready(IdbTransactionResult::Success)));
}

#[test]
fn poll_after_resolution_is_idempotent() {
    let mut set = IdbTransactionListeners::new();
    set.on_event(TerminalEvent::Error(String::from("boom")));
    for wake in 0..3u64 {
        match set.do_poll(wake) {
            TransactionPoll::Ready(IdbTransactionResult::Error(d)) => assert_eq!(d, "boom"),
            _ => panic!("expected the recorded error outcome"),
        }
    }
}

#[test]
fn first_terminal_event_wins() {
    let mut set = IdbTransactionListeners::new();
    set.on_event(TerminalEvent::Abort);
    let wake = set.on_event(TerminalEvent::Complete);
    assert_eq!(wake, None);
    assert!(matches!(set.do_poll(0), TransactionPoll::Ready(IdbTransactionResult::Abort)));
}

#[test]
fn only_latest_wake_handle_is_released() {
    let mut set = IdbTransactionListeners::new();
    assert!(matches!(set.do_poll(1), TransactionPoll::Pending));
    assert!(matches!(set.do_poll(2), TransactionPoll::Pending));
    let wake = set.on_event(TerminalEvent::Complete);
    assert_eq!(wake, Some(2));
}

#[test]
fn disposed_set_ignores_late_events() {
    let mut set = IdbTransactionListeners::new();
    assert!(matches!(set.do_poll(7), TransactionPoll::Pending));
    set.dispose();
    let wake = set.on_event(TerminalEvent::Complete);
    assert_eq!(wake, None);
    assert!(matches!(set.do_poll(8), TransactionPoll::Pending));
}

#[test]
fn dispose_keeps_a_recorded_outcome() {
    let mut set = IdbTransactionListeners::new();
    set.on_event(TerminalEvent::Abort);
    set.dispose();
    assert!(matches!(set.do_poll(0), TransactionPoll::Ready(IdbTransactionResult::Abort)));
}

#[test]
fn error_detail_present_only_on_error_outcome() {
    let mut set = IdbTransactionListeners::new();
    assert!(set.error_detail().is_none());
    set.on_event(TerminalEvent::Error(String::from("QuotaExceededError")));
    assert_eq!(set.error_detail().map(String::as_str), Some("QuotaExceededError"));

    let mut clean = IdbTransactionListeners::new();
    clean.on_event(TerminalEvent::Complete);
    assert!(clean.error_detail().is_none());
}

#[test]
fn request_records_only_the_first_event() {
    let mut listeners = RequestListeners::new();
    let wake = listeners.on_event(RequestEvent::Success(RequestPayload::Empty));
    assert_eq!(wake, None);
    let wake = listeners.on_event(RequestEvent::Error(String::from("late")));
    assert_eq!(wake, None);
    match listeners.do_poll(0) {
        Some(Ok(RequestPayload::Empty)) => {},
        _ => panic!("expected the recorded success"),
    }
}

#[test]
fn request_error_detail_passes_through_verbatim() {
    let mut listeners = RequestListeners::new();
    listeners.on_event(RequestEvent::Error(String::from("ConstraintError: key exists")));
    match listeners.do_poll(0) {
        Some(Err(d)) => assert_eq!(d, "ConstraintError: key exists"),
        _ => panic!("expected the recorded failure"),
    }
    match listeners.do_poll(1) {
        Some(Err(d)) => assert_eq!(d, "ConstraintError: key exists"),
        _ => panic!("expected the same failure again"),
    }
}

#[test]
fn into_result_maps_each_outcome() {
    assert!(IdbTransactionResult::Success.into_result().is_ok());
    assert_eq!(IdbTransactionResult::Abort.into_result(), Err(String::new()));
    assert_eq!(
        IdbTransactionResult::Error(String::from("detail")).into_result(),
        Err(String::from("detail"))
    );
}

#[test]
fn outcome_error_detail_accessor() {
    let err = IdbTransactionResult::Error(String::from("oops"));
    assert_eq!(err.error_detail().map(String::as_str), Some("oops"));
    assert!(IdbTransactionResult::Success.error_detail().is_none());
    assert!(IdbTransactionResult::Abort.error_detail().is_none());
    let copy = err.duplicate();
    assert_eq!(copy.error_detail().map(String::as_str), Some("oops"));
}
