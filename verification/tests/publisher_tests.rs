use fp_rust::common::Observable;
use fp_rust::common::SubscriptionFunc;
use fp_rust::common::UniqueId;
use fp_rust::publisher::Publisher;
use fp_rust::sync::BlockingQueue;
use fp_rust::sync::Queue;
use std::sync::Arc;
use std::sync::atomic::AtomicI32;
use std::sync::atomic::Ordering;

#[test]
fn test_publisher_subscribe_fn_sync() {
    // Without a handler, publish notifies observers synchronously.
    let captured = Arc::new(AtomicI32::new(0));
    let captured_thread = captured.clone();
    let mut p = Publisher::new();
    p.subscribe_fn(move |x: Arc<i32>| {
        captured_thread.store(*x, Ordering::SeqCst);
    });
    p.publish(9);
    assert_eq!(9, captured.load(Ordering::SeqCst));
}

#[test]
fn test_publisher_multiple_subscribers_all_notified() {
    let total = Arc::new(AtomicI32::new(0));
    let mut p = Publisher::new();
    for _ in 0..3 {
        let total_thread = total.clone();
        p.subscribe_fn(move |x: Arc<i32>| {
            total_thread.fetch_add(*x, Ordering::SeqCst);
        });
    }
    p.publish(10);
    // Three subscribers each add 10.
    assert_eq!(30, total.load(Ordering::SeqCst));
}

#[test]
fn test_publisher_publish_multiple_values() {
    let sum = Arc::new(AtomicI32::new(0));
    let sum_thread = sum.clone();
    let mut p = Publisher::new();
    p.subscribe_fn(move |x: Arc<i32>| {
        sum_thread.fetch_add(*x, Ordering::SeqCst);
    });
    p.publish(1);
    p.publish(2);
    p.publish(3);
    assert_eq!(6, sum.load(Ordering::SeqCst));
}

#[test]
fn test_publisher_unsubscribe_stops_delivery() {

    let count = Arc::new(AtomicI32::new(0));
    let count_thread = count.clone();
    let mut p = Publisher::new();
    let s = Arc::new(SubscriptionFunc::new(move |_x: Arc<i32>| {
        count_thread.fetch_add(1, Ordering::SeqCst);
    }));
    p.subscribe(s.clone());

    p.publish(1); // delivered
    assert_eq!(1, count.load(Ordering::SeqCst));

    p.unsubscribe(s);
    p.publish(2); // not delivered
    assert_eq!(1, count.load(Ordering::SeqCst));
}

#[test]
fn test_publisher_unsubscribe_removes_correct_observer() {

    // Two subscriptions constructed back-to-back (same tick). Before
    // generate_id gained a monotonic counter their ids collided, so
    // delete_observer matched by id and removed the FIRST equal id (a),
    // not the one requested (b). Separate counters detect which survived.
    let count_a = Arc::new(AtomicI32::new(0));
    let count_b = Arc::new(AtomicI32::new(0));
    let ca = count_a.clone();
    let cb = count_b.clone();

    let mut p = Publisher::new();
    let a = Arc::new(SubscriptionFunc::new(move |_x: Arc<i32>| {
        ca.fetch_add(1, Ordering::SeqCst);
    }));
    let b = Arc::new(SubscriptionFunc::new(move |_x: Arc<i32>| {
        cb.fetch_add(1, Ordering::SeqCst);
    }));
    p.subscribe(a.clone());
    p.subscribe(b.clone());

    p.publish(1); // both fire
    assert_eq!(1, count_a.load(Ordering::SeqCst));
    assert_eq!(1, count_b.load(Ordering::SeqCst));

    p.unsubscribe(b); // must remove b, keep a
    p.publish(2);
    // a still subscribed -> fires again; b gone -> unchanged.
    assert_eq!(2, count_a.load(Ordering::SeqCst));
    assert_eq!(1, count_b.load(Ordering::SeqCst));
}

#[test]
fn test_publisher_subscribe_returns_same_handle() {

    let mut p = Publisher::new();
    let s = Arc::new(SubscriptionFunc::new(|_x: Arc<i32>| {}));
    let returned = p.subscribe(s.clone());
    // subscribe hands back the same subscription (same id).
    assert_eq!(s.get_id(), returned.get_id());
}

#[test]
fn test_publisher_map_runs_on_publish() {
    // map registers a transforming side-effect that runs on each publish.
    let seen = Arc::new(AtomicI32::new(0));
    let seen_thread = seen.clone();
    let mut p = Publisher::new();
    p.map(move |x: Arc<i32>| {
        let doubled = *x * 2;
        seen_thread.store(doubled, Ordering::SeqCst);
        doubled
    });
    p.publish(21);
    assert_eq!(42, seen.load(Ordering::SeqCst));
}

#[test]
fn test_publisher_as_blocking_queue() {
    let mut p = Publisher::new();
    let (_sub, mut queue) = p.as_blocking_queue();
    p.publish(5);
    p.publish(6);
    // Published values arrive (as Arc<X>) in FIFO order.
    assert_eq!(Some(Arc::new(5)), queue.poll());
    assert_eq!(Some(Arc::new(6)), queue.poll());
    assert_eq!(None, queue.poll());
}

#[test]
fn test_publisher_subscribe_blocking_queue() {
    let queue = BlockingQueue::<Arc<i32>>::new();
    let mut p = Publisher::new();
    p.subscribe_blocking_queue(&queue);
    p.publish(100);

    let mut drained = queue.clone();
    assert_eq!(Some(Arc::new(100)), drained.poll());
}

#[test]
fn test_publisher_delete_observer_directly() {

    // Observable::delete_observer is the lower-level form of unsubscribe.
    let count = Arc::new(AtomicI32::new(0));
    let count_thread = count.clone();
    let mut p = Publisher::new();
    let s = Arc::new(SubscriptionFunc::new(move |_x: Arc<i32>| {
        count_thread.fetch_add(1, Ordering::SeqCst);
    }));
    p.add_observer(s.clone());
    p.publish(1);
    p.delete_observer(s);
    p.publish(1);
    assert_eq!(1, count.load(Ordering::SeqCst));
}

#[test]
fn test_publisher_default_has_no_observers() {
    // A default Publisher with no subscribers simply drops published values.
    let mut p: Publisher<i32> = Default::default();
    p.publish(1); // no panic, no observers
                  // Adding one afterwards works as normal.
    let queue = BlockingQueue::<Arc<i32>>::new();
    p.subscribe_blocking_queue(&queue);
    p.publish(2);
    let mut drained = queue.clone();
    assert_eq!(Some(Arc::new(2)), drained.poll());
}

#[test]
fn publisher_unsubscribe_of_an_unknown_subscription_changes_nothing() {
    let mut p: Publisher<i32> = Publisher::new();
    let total = Arc::new(AtomicI32::new(0));
    let total_s = total.clone();
    p.subscribe_fn(move |x: Arc<i32>| {
        total_s.fetch_add(*x, Ordering::SeqCst);
    });
    let stranger = Arc::new(SubscriptionFunc::new(|_x: Arc<i32>| {}));
    p.unsubscribe(stranger);
    p.publish(6);
    assert_eq!(6, total.load(Ordering::SeqCst));
}

#[test]
fn publisher_map_runs_func_on_each_publish() {
    let seen = Arc::new(AtomicI32::new(0));
    let s2 = seen.clone();
    let mut p = Publisher::new();
    p.map(move |x: Arc<i32>| {
        let d = *x * 2;
        s2.store(d, Ordering::SeqCst);
        d
    });
    p.publish(21);
    assert_eq!(42, seen.load(Ordering::SeqCst));
}

#[test]
fn publisher_subscribe_as_stream_hands_back_the_subscription_list() {
    let mut p: Publisher<i32> = Publisher::new();
    let s = Arc::new(SubscriptionFunc::new(|_x: Arc<i32>| {}));
    let stream = p.subscribe_as_stream(s);
    p.publish(5);
    assert_eq!(Some(Arc::new(5)), stream.pop_front());
    assert_eq!(None, stream.pop_front());
}
