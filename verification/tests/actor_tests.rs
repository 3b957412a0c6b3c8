use fp_rust::actor::next_message;
use fp_rust::actor::Handle;
use fp_rust::actor::HandleAsync;
use fp_rust::common::UniqueId;
use fp_rust::sync::BlockingQueue;
use fp_rust::handler::Lifecycle;
use fp_rust::sync::Queue;
use fp_rust::sync::QueueError;
use std::sync::Mutex;
use std::time::Duration;

#[test]
fn handle_async_keeps_its_id() {
    let h: HandleAsync<i32> = HandleAsync::new(String::from("actor-1"), BlockingQueue::new());
    assert_eq!("actor-1", h.get_id());
    let copy = h.clone();
    assert_eq!("actor-1", copy.get_id());
}

#[test]
fn handle_async_send_reaches_the_mailbox_in_order() {
    let mut mailbox = BlockingQueue::new();
    let mut h = HandleAsync::new(String::from("a"), mailbox.clone());
    h.send(10);
    h.send(20);
    assert_eq!(Some(10), mailbox.poll());
    assert_eq!(Some(20), mailbox.poll());
    assert_eq!(None, mailbox.poll());
}

#[test]
fn handle_async_send_to_a_stopped_mailbox_is_dropped() {
    let mut mailbox = BlockingQueue::new();
    let mut h = HandleAsync::new(String::from("a"), mailbox.clone());
    mailbox.stop();
    h.send(1);
    assert_eq!(None, mailbox.poll());
}

#[test]
fn next_message_takes_in_order_and_stops_on_failure() {
    let state = Mutex::new(Lifecycle::new());
    state.lock().unwrap().start();
    let mut mailbox = BlockingQueue::new();
    mailbox.offer(1);
    mailbox.offer(2);
    assert_eq!(Ok(1), next_message(&mut mailbox, &state));
    assert_eq!(Ok(2), next_message(&mut mailbox, &state));
    assert_eq!(true, state.lock().unwrap().is_alive());
    mailbox.timeout = Some(Duration::from_millis(5));
    assert_eq!(Err(QueueError::Timeout), next_message(&mut mailbox, &state));
    assert_eq!(false, state.lock().unwrap().is_alive());
    assert_eq!(true, state.lock().unwrap().is_started());
}
