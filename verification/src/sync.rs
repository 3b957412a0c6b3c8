//! Synchronization primitives: `CountDownLatch`, the `Queue` interface and
//! `BlockingQueue`, and deferred work (`Will`, `WillAsync`).
//!
//! The shared state of these types is seen by every clone and thread; the
//! contracts therefore say what each call decides from what it reads, not what
//! another thread will find afterwards.

use std::sync::mpsc::{Receiver, Sender};
use std::sync::{Arc, Condvar, Mutex};
use std::time::Duration;
use vstd::prelude::*;
use vstd::rwlock::{RwLock, RwLockPredicate};

use crate::common::{Observable, RawFunc, SubscriptionFunc};
use crate::handler::{post_to, share_handler, start_handler, Handler, Lifecycle};
use crate::monadio::MonadIO;
use crate::publisher::Publisher;
use crate::primitives::{
    channel, condvar_new, lock, mutex_new, notify_all, recv, recv_timeout, send, share_arc, try_recv,
    wait_while_pending,
};

verus! {

/// Why a queue gave no value.
#[derive(Debug, Clone, Copy, PartialEq, Eq, Structural)]
pub enum QueueError {
    /// Nothing was queued.
    Empty,
    /// Nothing arrived before the timeout.
    Timeout,
    /// The queue is stopped or its channel is closed.
    Disconnected,
}

/// Whether a latch with this count still holds its waiters.
pub fn latch_pending(count: u64) -> (r: bool)
    ensures
        r == (count > 0),
{
    count > 0
}

/// A latch count after one countdown: one less, never below zero.
pub open spec fn countdown_spec(count: nat) -> nat {
    if count > 0 {
        (count - 1) as nat
    } else {
        0
    }
}

/// A latch count after `k` countdowns.
pub open spec fn after_countdowns(count: nat, k: nat) -> nat
    decreases k,
{
    if k == 0 {
        count
    } else {
        countdown_spec(after_countdowns(count, (k - 1) as nat))
    }
}

/// One countdown: the next count, and whether it releases the waiters.
fn countdown_step(count: u64) -> (r: (u64, bool))
    ensures
        r.0 == countdown_spec(count as nat),
        r.1 == (r.0 == 0),
{
    let next = if count > 0 {
        count - 1
    } else {
        0
    };
    (next, next == 0)
}

/// One countdown applied to the count in place: it becomes one less (never
/// below zero); answers whether it is now zero, when the waiters go.
pub fn count_down(count: &mut u64) -> (wake: bool)
    ensures
        *final(count) == countdown_spec(*old(count) as nat),
        wake == (*final(count) == 0),
{
    let (next, wake) = countdown_step(*count);
    *count = next;
    wake
}

/// A latch opened by `count` countdowns stays at zero: `k` countdowns from
/// `count` leave `count - k`, and zero once `k >= count`.
pub proof fn lemma_countdowns(count: nat, k: nat)
    ensures
        after_countdowns(count, k) == if k >= count {
            0
        } else {
            (count - k) as nat
        },
    decreases k,
{
    if k > 0 {
        lemma_countdowns(count, (k - 1) as nat);
    }
}

/// Count-down latch (like Java's `CountDownLatch`): `wait` blocks until the
/// count reaches zero.
#[derive(Debug, Clone)]
pub struct CountDownLatch {
    pair: Arc<(Mutex<u64>, Condvar)>,
}

impl CountDownLatch {
    /// A latch holding `count`.
    pub fn new(count: u64) -> (r: CountDownLatch) {
        CountDownLatch { pair: Arc::new((mutex_new(count), condvar_new())) }
    }

    /// Decrements the count (never below zero); at zero, wakes every waiter.
    pub fn countdown(&self) {
        let pair = &*self.pair;
        let should_wake = {
            let mut count = lock(&pair.0);
            count_down(&mut *count)
        };
        if should_wake {
            notify_all(&pair.1);
        }
    }

    /// Blocks until the count is zero.
    pub fn wait(&self) {
        let pair = &*self.pair;
        let count = lock(&pair.0);
        let _released = wait_while_pending(&pair.1, count);
    }
}

/// Whether a queue whose alive flag is `alive` takes an offered value.
pub open spec fn queue_accepts(alive: bool) -> bool {
    alive
}

/// What a receive answers from a queue whose alive flag is `alive`, when
/// its channel gave `got`.
pub open spec fn queue_answer<T>(alive: bool, got: Result<T, QueueError>) -> Result<T, QueueError> {
    if alive {
        got
    } else {
        Err(QueueError::Disconnected)
    }
}

/// Whether an offered value goes into the channel: only while the queue is
/// alive.
pub fn accepts_offer(alive: bool) -> (r: bool)
    ensures
        r == queue_accepts(alive),
{
    alive
}

/// What a receive from a queue answers once its alive flag (`alive`) and its
/// channel (`got`) have been read: `Disconnected` for a stopped queue, else
/// what the channel gave.
pub fn receive_answer<T>(alive: bool, got: Result<T, QueueError>) -> (r: Result<T, QueueError>)
    ensures
        r == queue_answer(alive, got),
{
    if alive {
        got
    } else {
        Err(QueueError::Disconnected)
    }
}

/// A stopped queue drops every offer and answers every receive with
/// `Disconnected`, whatever its channel holds; a live one answers what its
/// channel gives.
pub proof fn lemma_stopped_queue<T>(got: Result<T, QueueError>)
    ensures
        !queue_accepts(false),
        queue_answer(false, got) == Err::<T, QueueError>(QueueError::Disconnected),
        queue_accepts(true),
        queue_answer(true, got) == got,
{
}

/// Receives from `r`, waiting at most `wait` (forever without one).
fn receive_within<T>(r: &Receiver<T>, wait: Option<Duration>) -> (res: Result<T, QueueError>)
    ensures
        res matches Err(e) ==> e != QueueError::Empty,
        wait is None ==> !(res matches Err(QueueError::Timeout)),
{
    match wait {
        Some(duration) => recv_timeout(r, duration),
        None => recv(r),
    }
}

/// Minimal queue interface (like Java's `Queue`).
pub trait Queue<T> {
    /// Whether failures are answered with `None` rather than raised.
    spec fn quiet(&self) -> bool;

    /// Enqueues `v` if the queue accepts it.
    fn offer(&mut self, v: T);

    /// Dequeues without blocking.
    fn poll(&mut self) -> Option<T>
        requires
            old(self).quiet(),
    ;

    /// Enqueues `v` (the same as `offer` here).
    fn put(&mut self, v: T);

    /// Dequeues, blocking up to the queue's timeout.
    fn take(&mut self) -> Option<T>
        requires
            old(self).quiet(),
    ;
}

/// Thread-safe unbounded queue over an `mpsc` channel, shared by its
/// clones, with a blocking `take`.
///
/// * `timeout`: when set, `take` waits at most this long.
/// * `panic`: when `true`, failures are raised instead of answered with `None`.
#[derive(Debug, Clone)]
#[verifier::reject_recursive_types(T)]
pub struct BlockingQueue<T> {
    pub timeout: Option<Duration>,
    pub panic: bool,
    alive: Arc<Mutex<bool>>,
    blocking_sender: Arc<Mutex<Sender<T>>>,
    blocking_recever: Arc<Mutex<Receiver<T>>>,
}

impl<T> Default for BlockingQueue<T> {
    fn default() -> (r: Self)
        ensures
            r.settings() == (None::<Duration>, false),
    {
        let (blocking_sender, blocking_recever) = channel();
        BlockingQueue {
            alive: Arc::new(mutex_new(true)),
            timeout: None,
            panic: false,
            blocking_sender: Arc::new(mutex_new(blocking_sender)),
            blocking_recever: Arc::new(mutex_new(blocking_recever)),
        }
    }
}

impl<T> BlockingQueue<T> {
    /// The queue's `timeout` and `panic` fields.
    pub closed spec fn settings(&self) -> (Option<Duration>, bool) {
        (self.timeout, self.panic)
    }

    /// An open queue with no timeout that answers failures with `None`.
    pub fn new() -> (r: BlockingQueue<T>)
        ensures
            r.settings() == (None::<Duration>, false),
    {
        Self::default()
    }

    /// Whether the queue still accepts values.
    pub fn is_alive(&self) -> bool {
        let alive = lock(&*self.alive);
        *alive
    }

    /// Stops the queue: later offers are dropped and receives fail with
    /// `Disconnected`. A consumer already blocked in `take` is not woken.
    pub fn stop(&mut self)
        ensures
            final(self).settings() == old(self).settings(),
    {
        let mut alive = lock(&*self.alive);
        if !*alive {
            return;
        }
        *alive = false;
    }
}

impl<T> Queue<T> for BlockingQueue<T> where T: 'static + Send {
    closed spec fn quiet(&self) -> bool {
        !self.panic
    }

    fn offer(&mut self, v: T)
        ensures
            final(self).settings() == old(self).settings(),
            final(self).quiet() == old(self).quiet(),
    {
        let alive = lock(&*self.alive);
        if accepts_offer(*alive) {
            let sender = lock(&*self.blocking_sender);
            // The receiver lives in this queue's own shared state, so a send
            // cannot find it gone.
            let _sent = send(&*sender, v);
        }
    }

    fn poll(&mut self) -> (r: Option<T>) {
        match self.poll_result() {
            Ok(v) => Some(v),
            Err(_) => None,
        }
    }

    fn put(&mut self, v: T)
        ensures
            final(self).settings() == old(self).settings(),
            final(self).quiet() == old(self).quiet(),
    {
        self.offer(v);
    }

    fn take(&mut self) -> (r: Option<T>)
        ensures
            final(self).quiet() == old(self).quiet(),
    {
        match self.take_result() {
            Ok(v) => Some(v),
            Err(_) => None,
        }
    }
}

impl<T> BlockingQueue<T> where T: Send + 'static {
    /// Receives without blocking; `Disconnected` once stopped, `Empty` when
    /// nothing is queued.
    pub fn poll_result(&mut self) -> (r: Result<T, QueueError>)
        ensures
            final(self).settings() == old(self).settings(),
            r matches Err(e) ==> e != QueueError::Timeout,
    {
        let alive = self.is_alive();
        let got = if alive {
            let receiver = lock(&*self.blocking_recever);
            try_recv(&*receiver)
        } else {
            Err(QueueError::Disconnected)
        };
        receive_answer(alive, got)
    }

    /// Receives, blocking up to `timeout` (forever without one);
    /// `Disconnected` once stopped, `Timeout` when the wait ran out.
    pub fn take_result(&mut self) -> (r: Result<T, QueueError>)
        ensures
            final(self).settings() == old(self).settings(),
            r matches Err(e) ==> e != QueueError::Empty,
            old(self).settings().0 is None ==> !(r matches Err(QueueError::Timeout)),
    {
        let alive = self.is_alive();
        let got = if alive {
            let receiver = lock(&*self.blocking_recever);
            receive_within(&*receiver, self.timeout)
        } else {
            Err(QueueError::Disconnected)
        };
        receive_answer(alive, got)
    }
}

/// Deferred computation with completion callbacks (like Java's `Future`).
pub trait Will<T>: Send + Sync + 'static {
    /// Whether `start` was called (even if `stop` ran since).
    fn is_started(&mut self) -> bool;

    /// Whether it was started and has not stopped.
    fn is_alive(&mut self) -> bool;

    /// Schedules the computation.
    fn start(&mut self);

    /// Marks it as no longer alive; a computation already running finishes.
    fn stop(&mut self);

    /// Registers a callback run with the result.
    fn add_callback(&mut self, subscription: Arc<SubscriptionFunc<T>>);

    /// Removes a callback.
    fn remove_callback(&mut self, subscription: Arc<SubscriptionFunc<T>>);

    /// The last result, if any.
    fn result(&mut self) -> Option<T>;
}

/// What the result slot of a will may hold: nothing yet, or a value that
/// the will's computation may produce.
#[verifier::reject_recursive_types(T)]
struct WillResult<T> {
    effect: MonadIO<T>,
}

impl<T> RwLockPredicate<Option<T>> for WillResult<T> {
    closed spec fn inv(self, v: Option<T>) -> bool {
        v matches Some(y) ==> self.effect.yields(y)
    }
}

/// Runs a computation on a `Handler`, keeps its result, publishes it to the
/// callbacks and then stops. Clones share all of this state.
#[verifier::reject_recursive_types(T)]
pub struct WillAsync<T> {
    effect: MonadIO<T>,
    handler: Option<Arc<Mutex<dyn Handler>>>,
    publisher: Arc<Mutex<Publisher<T>>>,
    started_alive: Arc<Mutex<Lifecycle>>,
    result: Arc<RwLock<Option<T>, WillResult<T>>>,
}

impl<T> WillAsync<T> {
    /// The result slot only ever holds a value the computation may produce.
    #[verifier::type_invariant]
    spec fn inv(&self) -> bool {
        forall|y: T| self.result.pred().effect.yields(y) == self.effect.yields(y)
    }

    /// Whether `y` is a value the computation may produce.
    pub closed spec fn yields(&self, y: T) -> bool {
        self.effect.yields(y)
    }

    /// The handler the computation runs on, if any.
    pub closed spec fn handler(&self) -> Option<Arc<Mutex<dyn Handler>>> {
        self.handler
    }
}

impl<T> Clone for WillAsync<T> {
    /// A handle on the same will: it shares the computation, the handler,
    /// the callbacks, the state and the result.
    fn clone(&self) -> (r: Self)
        ensures
            forall|y: T| r.yields(y) == self.yields(y),
            r.handler() == self.handler(),
    {
        proof {
            use_type_invariant(self);
        }
        WillAsync {
            effect: self.effect.clone(),
            handler: share_handler(&self.handler),
            publisher: self.publisher.clone(),
            started_alive: self.started_alive.clone(),
            result: share_arc(&self.result),
        }
    }
}

impl<T: 'static + Send + Sync> WillAsync<T> {
    /// A will running `effect` on `handler` (with no handler, `start` only
    /// marks it started).
    pub fn new_with_handler(
        effect: impl Fn() -> T + Send + Sync + 'static,
        handler: Option<Arc<Mutex<dyn Handler + 'static>>>,
    ) -> (r: WillAsync<T>)
        requires
            call_requires(effect, ()),
        ensures
            forall|y: T| r.yields(y) == call_ensures(effect, (), y),
            r.handler() == handler,
    {
        let effect = MonadIO::new(effect);
        let slot = RwLock::new(None, Ghost(WillResult { effect }));
        WillAsync {
            handler,
            effect,
            started_alive: Arc::new(mutex_new(Lifecycle::new())),
            publisher: Arc::new(mutex_new(Publisher::new())),
            result: Arc::new(slot),
        }
    }
}

/// On the handler: runs the computation, keeps the result (the slot then
/// holds it), publishes a copy of it and stops the will. Answers the copy
/// published, a copy of a value the computation yields.
fn complete<T: Clone + Send + Sync + 'static>(will: &WillAsync<T>) -> (published: T)
    ensures
        exists|y: T| will.yields(y) && cloned(y, published),
{
    proof {
        use_type_invariant(will);
    }
    let value = will.effect.run();
    let published = value.clone();
    let answer = value.clone();
    assert(will.yields(value) && cloned(value, answer));
    {
        let (_previous, slot) = will.result.acquire_write();
        slot.release_write(Some(value));
    }
    {
        let mut publisher = lock(&*will.publisher);
        publisher.publish(published);
    }
    let mut lifecycle = lock(&*will.started_alive);
    let _was_alive = lifecycle.stop();
    answer
}

/// The job that completes `will` on its handler: once it has run, the
/// computation has produced a value, which the result slot now holds and
/// the callbacks were handed.
fn complete_job<T: Clone + Send + Sync + 'static>(will: &WillAsync<T>) -> (job: RawFunc)
    ensures
        job.completes() ==> exists|y: T| will.yields(y),
{
    let this = will.clone();
    let run = move ||
        ensures
            exists|y: T| (*&this).yields(y),
        {
            let _published = complete(&this);
        };
    RawFunc::new(run)
}

/// Whether a start posts the computation: only the start that launched
/// the will (`launch`, from its lifecycle), and only when it has a handler.
pub fn start_posts(launch: bool, has_handler: bool) -> (post: bool)
    ensures
        post == (launch && has_handler),
{
    launch && has_handler
}

impl<T> Will<T> for WillAsync<T> where T: Clone + Send + Sync + 'static {
    fn is_started(&mut self) -> bool {
        let lifecycle = lock(&*self.started_alive);
        lifecycle.is_started()
    }

    fn is_alive(&mut self) -> bool {
        let lifecycle = lock(&*self.started_alive);
        lifecycle.is_alive()
    }

    fn start(&mut self) {
        let launch = {
            let mut lifecycle = lock(&*self.started_alive);
            lifecycle.start()
        };
        if start_posts(launch, self.handler.is_some()) {
            if let Some(handler) = &self.handler {
                start_handler(handler);
                post_to(handler, complete_job(self));
            }
        }
    }

    fn stop(&mut self) {
        let mut lifecycle = lock(&*self.started_alive);
        let _was_alive = lifecycle.stop();
    }

    fn add_callback(&mut self, subscription: Arc<SubscriptionFunc<T>>) {
        let mut publisher = lock(&*self.publisher);
        let _added = publisher.subscribe(subscription);
    }

    fn remove_callback(&mut self, subscription: Arc<SubscriptionFunc<T>>) {
        let mut publisher = lock(&*self.publisher);
        publisher.delete_observer(subscription);
    }

    fn result(&mut self) -> (r: Option<T>)
        ensures
            r is Some ==> exists|y: T| old(self).yields(y) && cloned(y, r->0),
    {
        proof {
            use_type_invariant(&*self);
        }
        let slot = self.result.acquire_read();
        let r = match slot.borrow() {
            Some(v) => {
                let copy = v.clone();
                assert(self.result.pred().effect.yields(*v));
                assert(old(self).yields(*v) && cloned(*v, copy));
                Some(copy)
            },
            None => None,
        };
        slot.release_read();
        r
    }
}

} // verus!
