use fp_rust::common::RawFunc;
use fp_rust::cor::begin_answer;
use fp_rust::cor::yield_answer;
use fp_rust::handler::run_job;
use fp_rust::sync::accepts_offer;
use fp_rust::sync::receive_answer;
use fp_rust::sync::start_posts;
use fp_rust::sync::QueueError;
use std::sync::atomic::AtomicI32;
use std::sync::atomic::Ordering;
use std::sync::Arc;

#[test]
fn yield_answer_is_none_unless_alive_and_queued() {
    assert_eq!(None, yield_answer(false, true, Ok(Some(3))));
    assert_eq!(None, yield_answer(true, false, Ok(Some(3))));
    assert_eq!(Some(3), yield_answer(true, true, Ok(Some(3))));
    assert_eq!(None::<i32>, yield_answer(true, true, Err(QueueError::Disconnected)));
}

#[test]
fn begin_answer_follows_the_launch() {
    assert_eq!(Some(true), begin_answer(true, true));
    assert_eq!(Some(false), begin_answer(true, false));
    assert_eq!(None, begin_answer(false, true));
}

#[test]
fn receive_answer_is_disconnected_for_a_stopped_queue() {
    assert_eq!(Err(QueueError::Disconnected), receive_answer(false, Ok(1)));
    assert_eq!(Ok(1), receive_answer(true, Ok(1)));
    assert_eq!(Err::<i32, QueueError>(QueueError::Empty), receive_answer(true, Err(QueueError::Empty)));
    assert_eq!(true, accepts_offer(true));
    assert_eq!(false, accepts_offer(false));
}

#[test]
fn run_job_runs_only_while_alive() {
    let n = Arc::new(AtomicI32::new(0));
    let n_job = n.clone();
    let job = RawFunc::new(move || {
        n_job.fetch_add(1, Ordering::SeqCst);
    });
    assert_eq!(false, run_job(false, Ok(job.clone())));
    assert_eq!(0, n.load(Ordering::SeqCst));
    assert_eq!(true, run_job(true, Ok(job)));
    assert_eq!(1, n.load(Ordering::SeqCst));
    assert_eq!(false, run_job(true, Err(QueueError::Disconnected)));
}

#[test]
fn start_posts_only_the_launching_start_with_a_handler() {
    assert_eq!(true, start_posts(true, true));
    assert_eq!(false, start_posts(false, true));
    assert_eq!(false, start_posts(true, false));
}
