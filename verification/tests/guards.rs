use request_completion::guard::{CancelGuard, WaitGuard};
use request_completion::handle::Handle;
use request_completion::native::NativeCall;
use request_completion::request::{Disposal, Request};
use request_completion::variant::{PlainRequest, ReadRequest, WriteRequest};

#[test]
fn wait_guard_asks_for_a_wait_without_status() {
    let guard = WaitGuard::from(PlainRequest::from_raw(Handle::Live(81)));
    assert_eq!(
        guard.teardown_calls(),
        vec![NativeCall::Wait { handle: Handle::Live(81), keep_status: false }]
    );
}

#[test]
fn wait_guard_teardown_leaves_a_null_handle() {
    let mut guard = WaitGuard::from(PlainRequest::from_raw(Handle::Live(82)));
    let spent = guard.teardown(Handle::Null).unwrap();
    assert!(spent.is_null());
    assert_eq!(spent.disposal(), Disposal::Safe);
}

#[test]
fn wait_guard_acts_once() {
    let mut guard = WaitGuard::from(PlainRequest::from_raw(Handle::Live(83)));
    assert!(guard.teardown(Handle::Null).is_some());
    assert!(guard.teardown_calls().is_empty());
    assert!(guard.teardown(Handle::Null).is_none());
    assert!(guard.teardown(Handle::Live(83)).is_none());
    assert!(guard.teardown_calls().is_empty());
}

#[test]
fn wait_guard_releases_the_buffer() {
    let mut buffer = [0u8; 3];
    let mut guard = WaitGuard::from(WriteRequest::from_raw(Handle::Live(84), &mut buffer));
    guard.teardown(Handle::Null);
    drop(guard);
    buffer[1] = 4;
    assert_eq!(buffer, [0, 4, 0]);
}

#[test]
fn cancel_guard_asks_for_cancel_then_free() {
    let buffer = [1u8; 3];
    let guard = CancelGuard::from(ReadRequest::from_raw(Handle::Live(91), &buffer));
    assert_eq!(
        guard.teardown_calls(),
        vec![
            NativeCall::Cancel { handle: Handle::Live(91) },
            NativeCall::Free { handle: Handle::Live(91) },
        ]
    );
}

#[test]
fn cancel_guard_teardown_leaves_a_null_handle() {
    let mut guard = CancelGuard::from(PlainRequest::from_raw(Handle::Live(92)));
    let spent = guard.teardown(Handle::Null).unwrap();
    assert!(spent.is_null());
    assert_eq!(spent.as_raw(), Handle::Null);
    assert_eq!(spent.disposal(), Disposal::Safe);
}

#[test]
fn cancel_guard_acts_once() {
    let mut guard = CancelGuard::from(PlainRequest::from_raw(Handle::Live(93)));
    assert!(guard.teardown(Handle::Null).is_some());
    assert!(guard.teardown_calls().is_empty());
    assert!(guard.teardown(Handle::Live(1)).is_none());
}

#[test]
fn guard_takes_a_request_that_a_test_gave_back() {
    let request = PlainRequest::from_raw(Handle::Live(94));
    let request = request.test(request_completion::native::Poll::Pending).unwrap_err();
    let mut guard = CancelGuard::from(request);
    assert_eq!(guard.teardown_calls().len(), 2);
    assert!(guard.teardown(Handle::Null).unwrap().is_null());
}

#[test]
fn capability_is_reachable_through_traits() {
    let request = PlainRequest::from_raw(Handle::Live(95));
    assert!(!request_completion::traits::Request::is_null(&request));
    request_completion::traits::Request::cancel(request, Handle::Null);
}
