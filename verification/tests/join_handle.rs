use coio::join::{JoinHandle, JoinStatus};
use std::any::Any;

#[test]
fn join_returns_the_delivered_value() {
    let mut handle: JoinHandle<i32, String> = JoinHandle::new(7);
    assert_eq!(handle.coroutine(), 7);
    assert_eq!(handle.status(), JoinStatus::Pending);
    assert!(handle.deliver(Ok(1)).0);
    assert_eq!(handle.status(), JoinStatus::Ready);
    assert_eq!(handle.join(), Ok(1));
    assert_eq!(handle.status(), JoinStatus::Closed);
}

#[test]
fn value_is_joined_exactly_once() {
    let mut handle: JoinHandle<u64, String> = JoinHandle::new(0);
    assert!(handle.deliver(Ok(42)).0);
    assert_eq!(handle.try_join(), Some(Ok(42)));
    assert_eq!(handle.try_join(), None);
    assert_eq!(handle.status(), JoinStatus::Closed);
}

#[test]
fn panic_payload_is_joined_exactly_once() {
    let mut handle: JoinHandle<i32, Box<dyn Any + Send>> = JoinHandle::new(1);
    assert!(handle.deliver(Err(Box::new("boom"))).0);
    assert_eq!(handle.status(), JoinStatus::Ready);
    match handle.join() {
        Ok(_) => panic!("a panic was delivered"),
        Err(payload) => assert_eq!(payload.downcast_ref::<&str>(), Some(&"boom")),
    }
    assert_eq!(handle.status(), JoinStatus::Closed);
    assert!(handle.try_join().is_none());
}

#[test]
fn panic_reaches_only_its_own_handle() {
    let mut panicked: JoinHandle<i32, String> = JoinHandle::new(1);
    let mut fine: JoinHandle<i32, String> = JoinHandle::new(2);
    assert!(panicked.deliver(Err(String::from("boom"))).0);
    assert_eq!(fine.status(), JoinStatus::Pending);
    assert!(fine.deliver(Ok(5)).0);
    assert_eq!(fine.join(), Ok(5));
    assert_eq!(panicked.join(), Err(String::from("boom")));
}

#[test]
fn second_delivery_is_discarded() {
    let mut handle: JoinHandle<i32, String> = JoinHandle::new(0);
    assert!(handle.deliver(Ok(1)).0);
    assert!(!handle.deliver(Ok(2)).0);
    assert_eq!(handle.join(), Ok(1));
    assert!(!handle.deliver(Ok(3)).0);
    assert_eq!(handle.status(), JoinStatus::Closed);
}

#[test]
fn dropped_coroutine_leaves_a_closed_handle() {
    let mut handle: JoinHandle<i32, String> = JoinHandle::new(0);
    handle.close();
    assert_eq!(handle.status(), JoinStatus::Closed);
    assert_eq!(handle.try_join(), None);
    assert!(!handle.deliver(Ok(1)).0);
    assert_eq!(handle.status(), JoinStatus::Closed);
}

#[test]
fn close_after_delivery_keeps_the_outcome() {
    let mut handle: JoinHandle<i32, String> = JoinHandle::new(0);
    assert!(handle.deliver(Ok(9)).0);
    handle.close();
    assert_eq!(handle.status(), JoinStatus::Ready);
    assert_eq!(handle.join(), Ok(9));
}

#[test]
fn pending_handle_gives_nothing() {
    let mut handle: JoinHandle<i32, String> = JoinHandle::new(0);
    assert_eq!(handle.try_join(), None);
    assert_eq!(handle.status(), JoinStatus::Pending);
}

#[test]
fn waiting_joiner_is_handed_back_by_the_delivery() {
    let mut handle: JoinHandle<i32, String> = JoinHandle::new(3);
    assert!(handle.wait(8));
    assert_eq!(handle.status(), JoinStatus::Pending);
    assert_eq!(handle.deliver(Ok(1)), (true, Some(8)));
    assert_eq!(handle.deliver(Ok(2)), (false, None));
    assert_eq!(handle.close(), None);
    assert_eq!(handle.join(), Ok(1));
}

#[test]
fn waiting_joiner_is_handed_back_by_the_drop() {
    let mut handle: JoinHandle<i32, String> = JoinHandle::new(3);
    assert!(handle.wait(8));
    assert_eq!(handle.close(), Some(8));
    assert_eq!(handle.close(), None);
    assert_eq!(handle.status(), JoinStatus::Closed);
}

#[test]
fn there_is_nothing_to_wait_for_once_the_outcome_is_in() {
    let mut handle: JoinHandle<i32, String> = JoinHandle::new(3);
    assert_eq!(handle.deliver(Ok(1)), (true, None));
    assert!(!handle.wait(8));
    assert_eq!(handle.join(), Ok(1));
    assert!(!handle.wait(8));
    assert_eq!(handle.close(), None);
}

#[test]
fn a_later_joiner_takes_the_place_of_an_earlier() {
    let mut handle: JoinHandle<i32, String> = JoinHandle::new(3);
    assert!(handle.wait(8));
    assert!(handle.wait(9));
    assert_eq!(handle.deliver(Ok(1)), (true, Some(9)));
}
