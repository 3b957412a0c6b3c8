//! Shared primitives: closure containers (`RawFunc`, `RawReceiver`), the
//! observer traits, `SubscriptionFunc`, the shared list `LinkedListAsync`,
//! ids, and `get_mut`.

use std::collections::VecDeque;
use std::sync::{Arc, Mutex};
use vstd::prelude::*;
use vstd::std_specs::cmp::PartialEqSpecImpl;

use crate::primitives::{
    fingerprint, format_id, lock, mutex_new, random_state, share_arc, since_epoch, system_now,
    zero_duration,
};

verus! {

broadcast use vstd::function::group_function_axioms;

/// A job with no argument, behind a shared pointer.
pub(crate) trait Task: Send + Sync {
    /// Whether the job may be run.
    spec fn ready(&self) -> bool;

    /// What holds once the job has run.
    spec fn completes(&self) -> bool;

    /// Runs the job.
    fn run(&self)
        requires
            self.ready(),
        ensures
            self.completes(),
    ;
}

/// A closure run as a `Task`.
pub(crate) struct TaskFn<F> {
    func: F,
}

impl<F: Fn() + Send + Sync> Task for TaskFn<F> {
    closed spec fn ready(&self) -> bool {
        call_requires(self.func, ())
    }

    closed spec fn completes(&self) -> bool {
        call_ensures(self.func, (), ())
    }

    fn run(&self) {
        (self.func)();
    }
}

/// A receiver of shared values, behind a shared pointer.
pub(crate) trait Sink<T>: Send + Sync {
    /// Whether the sink accepts every value.
    spec fn total(&self) -> bool;

    /// What holds once the sink has received `x`.
    spec fn accepted(&self, x: Arc<T>) -> bool;

    /// Hands `x` to the sink.
    fn accept(&self, x: Arc<T>)
        requires
            self.total(),
        ensures
            self.accepted(x),
    ;
}

/// A closure run as a `Sink`.
pub(crate) struct SinkFn<F> {
    func: F,
}

impl<T, F: Fn(Arc<T>) + Send + Sync> Sink<T> for SinkFn<F> {
    closed spec fn total(&self) -> bool {
        forall|x: Arc<T>| call_requires(self.func, (x,))
    }

    closed spec fn accepted(&self, x: Arc<T>) -> bool {
        call_ensures(self.func, (x,), ())
    }

    fn accept(&self, x: Arc<T>) {
        (self.func)(x);
    }
}

/// A `RawFunc` running `task`: the task is put behind a shared pointer to a
/// `dyn Task` (an unsizing coercion, which is made here, outside the proved
/// code). The pointer runs the same job.
#[verifier::external_body]
fn raw_func_of<J: Task + 'static>(task: J) -> (r: RawFunc)
    requires
        task.ready(),
    ensures
        r.func.ready() == task.ready(),
        r.func.completes() == task.completes(),
{
    RawFunc { func: Arc::new(task) }
}

/// A `RawReceiver` feeding `sink`: the sink is put behind a shared pointer
/// to a `dyn Sink` (an unsizing coercion, which is made here, outside the
/// proved code). The pointer feeds the same sink.
#[verifier::external_body]
fn raw_receiver_of<T, S: Sink<T> + 'static>(sink: S) -> (r: RawReceiver<T>)
    requires
        sink.total(),
    ensures
        r.func.total() == sink.total(),
        forall|x: Arc<T>| #[trigger] r.func.accepted(x) == sink.accepted(x),
{
    RawReceiver { func: Arc::new(sink) }
}

/// Wraps `Arc::clone` on a receiver's pointer: the copy feeds the same sink.
#[verifier::external_body]
fn share_receiver<T>(r: &RawReceiver<T>) -> (c: RawReceiver<T>)
    ensures
        c.func.total() == r.func.total(),
        forall|x: Arc<T>| #[trigger] c.func.accepted(x) == r.func.accepted(x),
{
    RawReceiver { func: Arc::clone(&r.func) }
}

/// Wraps `Arc::clone` on a job's pointer: the copy runs the same job.
#[verifier::external_body]
fn share_func(f: &RawFunc) -> (c: RawFunc)
    ensures
        c.func.ready() == f.func.ready(),
        c.func.completes() == f.func.completes(),
{
    RawFunc { func: Arc::clone(&f.func) }
}

/// Gets a mutable reference to element `index` of `v`, or `None` when
/// `index` is out of range.
pub fn get_mut<'a, T>(v: &'a mut Vec<T>, index: usize) -> (r: Option<&'a mut T>)
    ensures
        index < old(v).len() ==> r is Some && *r->0 == old(v)@[index as int] && final(v)@ == old(
            v,
        )@.update(index as int, *final(r->0)),
        index >= old(v).len() ==> r is None && final(v)@ == old(v)@,
{
    if index < v.len() {
        Some(&mut v[index])
    } else {
        None
    }
}

/// A list shared by all its clones: values pushed through one clone are
/// popped through any other, first in first out. Closing the stream makes
/// later pushes be dropped.
#[verifier::reject_recursive_types(T)]
pub struct LinkedListAsync<T> {
    inner: Arc<Mutex<VecDeque<T>>>,
    alive: Arc<Mutex<bool>>,
}

impl<T> Clone for LinkedListAsync<T> {
    /// Another handle on the same list.
    fn clone(&self) -> (r: Self)
        ensures
            r == *self,
    {
        LinkedListAsync { inner: share_arc(&self.inner), alive: share_arc(&self.alive) }
    }
}

impl<T> LinkedListAsync<T> {
    /// An empty, open list.
    pub fn new() -> (r: Self) {
        LinkedListAsync {
            inner: Arc::new(mutex_new(VecDeque::new())),
            alive: Arc::new(mutex_new(true)),
        }
    }

    /// Appends `input` while the stream is open; drops it once closed.
    pub fn push_back(&self, input: T) {
        let alive = lock(&*self.alive);
        if *alive {
            let mut inner = lock(&*self.inner);
            inner.push_back(input);
        }
    }

    /// Removes and returns the first value, if any.
    pub fn pop_front(&self) -> Option<T> {
        let mut inner = lock(&*self.inner);
        inner.pop_front()
    }

    /// Reopens the stream (the handle itself stays the same).
    fn open_stream(&mut self)
        ensures
            *final(self) == *old(self),
    {
        let mut alive = lock(&*self.alive);
        *alive = true;
    }

    /// Whether the stream is open, so that more values may come.
    pub fn is_open(&self) -> bool {
        let alive = lock(&*self.alive);
        *alive
    }

    /// Closes the stream: later pushes are dropped, queued values stay.
    pub fn close_stream(&mut self)
        ensures
            *final(self) == *old(self),
    {
        let mut alive = lock(&*self.alive);
        *alive = false;
    }
}

impl<T> Default for LinkedListAsync<Arc<T>> {
    fn default() -> (r: Self) {
        Self::new()
    }
}

/// `Observable` remembers subscriptions and notifies them (the GoF observer
/// pattern).
pub trait Observable<X, T: Subscription<X>> {
    /// Adds a subscription.
    fn add_observer(&mut self, observer: Arc<T>);

    /// Removes a subscription.
    fn delete_observer(&mut self, observer: Arc<T>);

    /// Notifies every subscription of `x`.
    fn notify_observers(&mut self, x: Arc<X>);
}

/// A subscriber of broadcast values.
pub trait Subscription<X>: Send + Sync + 'static + UniqueId<String> {
    /// What holds once the subscription has received `x`.
    spec fn received(&self, x: Arc<X>) -> bool;

    /// Receives one broadcast value.
    fn on_next(&self, x: Arc<X>)
        ensures
            self.received(x),
    ;
}

/// An object with an id.
pub trait UniqueId<T> {
    /// The object's id.
    fn get_id(&self) -> T;
}

/// A fresh id: a reading of the wall clock and a fingerprint of a freshly
/// seeded hasher. Hasher seeds advance on each call within a thread and are
/// drawn at random per thread, so ids differ but for a 64-bit collision.
pub fn generate_id() -> (r: String)
    ensures
        r@.len() > 0,
{
    let clock = match since_epoch(system_now()) {
        Some(d) => d,
        None => zero_duration(),
    };
    let seed = random_state();
    format_id(&clock, fingerprint(&seed))
}

/// `RawReceiver` holds a closure that receives shared values.
#[verifier::reject_recursive_types(T)]
pub struct RawReceiver<T> {
    func: Arc<dyn Sink<T>>,
}

impl<T> RawReceiver<T> {
    /// The receiver accepts every value.
    #[verifier::type_invariant]
    spec fn inv(&self) -> bool {
        self.func.total()
    }

    /// What holds once the closure has run on `x`.
    pub closed spec fn accepted(&self, x: Arc<T>) -> bool {
        self.func.accepted(x)
    }

    /// A receiver running `func`, which must accept every value.
    pub fn new(func: impl Fn(Arc<T>) + Send + Sync + 'static) -> (r: RawReceiver<T>)
        requires
            forall|x: Arc<T>| call_requires(func, (x,)),
        ensures
            forall|x: Arc<T>| #[trigger] r.accepted(x) == call_ensures(func, (x,), ()),
    {
        raw_receiver_of(SinkFn { func })
    }

    /// Runs the closure on `x`.
    pub fn invoke(&self, x: Arc<T>)
        ensures
            self.accepted(x),
    {
        proof {
            use_type_invariant(self);
        }
        self.func.accept(x);
    }
}

impl<T> Clone for RawReceiver<T> {
    fn clone(&self) -> (r: Self)
        ensures
            forall|x: Arc<T>| #[trigger] r.accepted(x) == self.accepted(x),
    {
        share_receiver(self)
    }
}

/// `RawFunc` holds a closure that can be sent across threads and run.
pub struct RawFunc {
    func: Arc<dyn Task>,
}

impl RawFunc {
    /// The job may always be run.
    #[verifier::type_invariant]
    spec fn inv(&self) -> bool {
        self.func.ready()
    }

    /// What holds once the job has run.
    pub closed spec fn completes(&self) -> bool {
        self.func.completes()
    }

    /// A job running `func`, which must need nothing to run.
    pub fn new<T>(func: T) -> (r: RawFunc)
        where
            T: Fn() + Send + Sync + 'static,
        requires
            call_requires(func, ()),
        ensures
            r.completes() == call_ensures(func, (), ()),
    {
        raw_func_of(TaskFn { func })
    }

    /// Runs the closure.
    pub fn invoke(&self)
        ensures
            self.completes(),
    {
        proof {
            use_type_invariant(self);
        }
        self.func.run();
    }
}

impl Clone for RawFunc {
    fn clone(&self) -> (r: Self)
        ensures
            r.completes() == self.completes(),
    {
        share_func(self)
    }
}

/// A `Subscription` built from a closure, with an id; once `as_stream` has
/// opened its shared list, it also keeps every value it receives there (the
/// list starts closed, so nothing piles up for a subscription nobody
/// streams).
#[verifier::reject_recursive_types(T)]
pub struct SubscriptionFunc<T> {
    id: String,
    pub receiver: RawReceiver<T>,
    cached: LinkedListAsync<Arc<T>>,
}

impl<T> SubscriptionFunc<T> {
    /// The subscription's id.
    pub closed spec fn id_view(&self) -> Seq<char> {
        self.id@
    }

    /// What holds once the subscription's closure has run on `x`.
    pub closed spec fn accepted(&self, x: Arc<T>) -> bool {
        self.receiver.accepted(x)
    }

    /// The shared list that keeps the values the subscription receives.
    pub closed spec fn stream(&self) -> LinkedListAsync<Arc<T>> {
        self.cached
    }

    /// A subscription running `func` on each value, with a fresh id.
    pub fn new(func: impl Fn(Arc<T>) + Send + Sync + 'static) -> (r: SubscriptionFunc<T>)
        requires
            forall|x: Arc<T>| call_requires(func, (x,)),
        ensures
            r.id_view().len() > 0,
            forall|x: Arc<T>| #[trigger] r.accepted(x) == call_ensures(func, (x,), ()),
    {
        let mut cached = LinkedListAsync::new();
        cached.close_stream();
        SubscriptionFunc { id: generate_id(), receiver: RawReceiver::new(func), cached }
    }

    /// Closes the list of received values.
    pub fn close_stream(&mut self)
        ensures
            final(self).id_view() == old(self).id_view(),
            final(self).stream() == old(self).stream(),
            forall|x: Arc<T>| #[trigger] final(self).accepted(x) == old(self).accepted(x),
    {
        self.cached.close_stream();
    }

    /// Reopens the list of received values and returns it: a handle on the
    /// subscription's own list, which receives every value from then on.
    pub fn as_stream(&mut self) -> (r: LinkedListAsync<Arc<T>>)
        ensures
            r == old(self).stream(),
            final(self).id_view() == old(self).id_view(),
            final(self).stream() == old(self).stream(),
            forall|x: Arc<T>| #[trigger] final(self).accepted(x) == old(self).accepted(x),
    {
        self.cached.open_stream();
        self.cached.clone()
    }
}

impl<T> Clone for SubscriptionFunc<T> {
    fn clone(&self) -> (r: Self)
        ensures
            r.id_view() == self.id_view(),
            r.stream() == self.stream(),
            forall|x: Arc<T>| #[trigger] r.accepted(x) == self.accepted(x),
    {
        SubscriptionFunc {
            id: self.id.clone(),
            receiver: self.receiver.clone(),
            cached: self.cached.clone(),
        }
    }
}

impl<T> UniqueId<String> for SubscriptionFunc<T> {
    fn get_id(&self) -> (r: String)
        ensures
            r@ == self.id_view(),
    {
        self.id.clone()
    }
}

impl<T> PartialEq for SubscriptionFunc<T> {
    fn eq(&self, other: &SubscriptionFunc<T>) -> (r: bool) {
        self.id == other.id
    }
}

impl<T> PartialEqSpecImpl for SubscriptionFunc<T> {
    open spec fn obeys_eq_spec() -> bool {
        true
    }

    open spec fn eq_spec(&self, other: &SubscriptionFunc<T>) -> bool {
        self.id_view() == other.id_view()
    }
}

impl<T: Send + Sync + 'static> Subscription<T> for SubscriptionFunc<T> {
    open spec fn received(&self, x: Arc<T>) -> bool {
        self.accepted(x)
    }

    fn on_next(&self, x: Arc<T>) {
        self.receiver.invoke(share_arc(&x));
        self.cached.push_back(x);
    }
}

} // verus!
