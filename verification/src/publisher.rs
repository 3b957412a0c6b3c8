//! `Publisher`: a multi-subscriber event bus. Values are delivered on the
//! publishing thread, or posted to a `Handler` when one is set.

use std::sync::{Arc, Mutex};
use vstd::prelude::*;

use crate::common::{
    LinkedListAsync, Observable, RawFunc, Subscription, SubscriptionFunc, UniqueId,
};
use crate::handler::{post_job, share_handler, Handler};
use crate::primitives::share_arc;
use crate::sync::{BlockingQueue, Queue};

verus! {

broadcast use vstd::function::group_function_axioms;

/// `s` without its first occurrence of `x` (unchanged when `x` is absent).
pub open spec fn without_first<A>(s: Seq<A>, x: A) -> Seq<A> {
    match s.index_of_first(x) {
        Some(i) => s.remove(i),
        None => s,
    }
}

/// Every subscription of `subs` has received `x`.
pub open spec fn all_accepted<X>(subs: Seq<Arc<SubscriptionFunc<X>>>, x: Arc<X>) -> bool {
    forall|i: int| 0 <= i < subs.len() ==> #[trigger] subs[i].accepted(x)
}

/// Multi-subscriber event bus, delivering `Arc<X>` values.
#[verifier::reject_recursive_types(X)]
pub struct Publisher<X> {
    observers: Vec<Arc<SubscriptionFunc<X>>>,
    sub_handler: Option<Arc<Mutex<dyn Handler>>>,
    posted: Ghost<Seq<RawFunc>>,
}

impl<X> Clone for Publisher<X> {
    fn clone(&self) -> (r: Self)
        ensures
            r.ids() == self.ids(),
            r.subscriptions() == self.subscriptions(),
            r.handler() == self.handler(),
    {
        let observers = snapshot(&self.observers);
        Publisher { observers, sub_handler: share_handler(&self.sub_handler), posted: Ghost(self.posted@) }
    }
}

/// Another list of the same subscriptions, in the same order.
fn snapshot<X>(v: &Vec<Arc<SubscriptionFunc<X>>>) -> (r: Vec<Arc<SubscriptionFunc<X>>>)
    ensures
        r@ == v@,
{
    let mut r: Vec<Arc<SubscriptionFunc<X>>> = Vec::new();
    let mut i: usize = 0;
    while i < v.len()
        invariant
            i <= v.len(),
            r@ == v@.take(i as int),
        decreases v.len() - i,
    {
        r.push(share_arc(&v[i]));
        proof {
            assert(r@ =~= v@.take(i + 1));
        }
        i = i + 1;
    }
    proof {
        assert(v@.take(v.len() as int) =~= v@);
    }
    r
}

/// The ids of `subs`, in order.
pub open spec fn ids_of<X>(subs: Seq<Arc<SubscriptionFunc<X>>>) -> Seq<Seq<char>> {
    subs.map_values(|o: Arc<SubscriptionFunc<X>>| o.id_view())
}

/// `subs` without its first subscription whose id is `id` (unchanged when
/// there is none).
pub open spec fn without_first_id<X>(subs: Seq<Arc<SubscriptionFunc<X>>>, id: Seq<char>) -> Seq<Arc<SubscriptionFunc<X>>> {
    match ids_of(subs).index_of_first(id) {
        Some(i) => subs.remove(i),
        None => subs,
    }
}

/// The job that delivers `val` to each of `observers`: once it has run,
/// every one of them has received `val`.
fn deliver_job<X: Send + Sync + 'static>(observers: Vec<Arc<SubscriptionFunc<X>>>, val: Arc<X>) -> (job: RawFunc)
    ensures
        job.completes() ==> all_accepted(observers@, val),
{
    let run = move ||
        ensures
            all_accepted((*&observers)@, *&val),
        {
            deliver(&observers, &val);
        };
    RawFunc::new(run)
}

/// Delivers `val` to each of `observers`, in order.
fn deliver<X: Send + Sync + 'static>(observers: &Vec<Arc<SubscriptionFunc<X>>>, val: &Arc<X>)
    ensures
        forall|i: int| 0 <= i < observers.len() ==> #[trigger] observers[i].accepted(*val),
{
    let mut i: usize = 0;
    while i < observers.len()
        invariant
            i <= observers.len(),
            forall|j: int| 0 <= j < i ==> #[trigger] observers[j].accepted(*val),
        decreases observers.len() - i,
    {
        observers[i].on_next(share_arc(val));
        i = i + 1;
    }
}

impl<X> Default for Publisher<X> {
    fn default() -> (r: Self)
        ensures
            r.ids() == Seq::<Seq<char>>::empty(),
            r.subscriptions() == Seq::<Arc<SubscriptionFunc<X>>>::empty(),
            r.handler() is None,
    {
        Publisher { observers: Vec::new(), sub_handler: None, posted: Ghost(Seq::empty()) }
    }
}

impl<X> Publisher<X> {
    /// The delivery jobs this publisher has posted to its handler, in order.
    pub closed spec fn posted_jobs(&self) -> Seq<RawFunc> {
        self.posted@
    }

    /// The ids of the subscriptions, in the order they were added.
    pub closed spec fn ids(&self) -> Seq<Seq<char>> {
        ids_of(self.observers@)
    }

    /// The subscriptions, in the order they were added.
    pub closed spec fn subscriptions(&self) -> Seq<Arc<SubscriptionFunc<X>>> {
        self.observers@
    }

    /// The handler that deliveries are posted to, if any.
    pub closed spec fn handler(&self) -> Option<Arc<Mutex<dyn Handler>>> {
        self.sub_handler
    }

    /// A publisher with no subscriptions, delivering on the caller's thread.
    pub fn new() -> (r: Publisher<X>)
        ensures
            r.ids() == Seq::<Seq<char>>::empty(),
            r.subscriptions() == Seq::<Arc<SubscriptionFunc<X>>>::empty(),
            r.handler() is None,
    {
        Publisher::default()
    }

    /// A publisher with no subscriptions, delivering on `h` when it is set.
    pub fn new_with_handlers(h: Option<Arc<Mutex<dyn Handler + 'static>>>) -> (r: Publisher<X>)
        ensures
            r.ids() == Seq::<Seq<char>>::empty(),
            r.subscriptions() == Seq::<Arc<SubscriptionFunc<X>>>::empty(),
            r.handler() == h,
    {
        let mut new_one = Publisher::new();
        new_one.subscribe_on(h);
        new_one
    }

    /// Sets the handler that deliveries are posted to (`None`: the caller's
    /// thread).
    pub fn subscribe_on(&mut self, h: Option<Arc<Mutex<dyn Handler + 'static>>>)
        ensures
            final(self).ids() == old(self).ids(),
            final(self).subscriptions() == old(self).subscriptions(),
            final(self).handler() == h,
    {
        self.sub_handler = h;
    }
}

impl<X> Publisher<X> where X: Send + Sync + 'static {
    /// Notifies every subscription of `val`: on the caller's thread when no
    /// handler is set (each one has then received it when this returns),
    /// else in a job posted to the handler.
    pub fn publish(&mut self, val: X)
        ensures
            final(self).ids() == old(self).ids(),
            final(self).handler() == old(self).handler(),
            final(self).subscriptions() == old(self).subscriptions(),
            old(self).handler() is None ==> exists|x: Arc<X>|
                *x == val && #[trigger] all_accepted(old(self).subscriptions(), x),
            old(self).handler() is None ==> final(self).posted_jobs() == old(self).posted_jobs(),
            old(self).handler() is Some ==> exists|job: RawFunc, x: Arc<X>|
                *x == val && final(self).posted_jobs() == old(self).posted_jobs().push(job) && (
                #[trigger] job.completes() ==> #[trigger] all_accepted(old(self).subscriptions(), x)),
    {
        let x = Arc::new(val);
        self.notify_observers(x);
        assert(old(self).handler() is None ==> all_accepted(old(self).subscriptions(), x));
        proof {
            if old(self).handler() is Some {
                let job = choose|job: RawFunc|
                    self.posted_jobs() == old(self).posted_jobs().push(job) && (job.completes()
                        ==> all_accepted(old(self).subscriptions(), x));
                assert(*x == val && self.posted_jobs() == old(self).posted_jobs().push(job) && (
                job.completes() ==> all_accepted(old(self).subscriptions(), x)));
            }
        }
    }

    /// Adds `s` and hands it back.
    pub fn subscribe(&mut self, s: Arc<SubscriptionFunc<X>>) -> (r: Arc<SubscriptionFunc<X>>)
        ensures
            r == s,
            final(self).ids() == old(self).ids().push(s.id_view()),
            final(self).subscriptions() == old(self).subscriptions().push(s),
            final(self).handler() == old(self).handler(),
    {
        self.add_observer(share_arc(&s));
        s
    }

    /// Adds a subscription running `func` on each value, and returns it.
    pub fn subscribe_fn(&mut self, func: impl Fn(Arc<X>) + Send + Sync + 'static) -> (r: Arc<SubscriptionFunc<X>>)
        requires
            forall|x: Arc<X>| call_requires(func, (x,)),
        ensures
            final(self).ids() == old(self).ids().push(r.id_view()),
            final(self).subscriptions() == old(self).subscriptions().push(r),
            forall|x: Arc<X>| #[trigger] r.accepted(x) == call_ensures(func, (x,), ()),
            final(self).handler() == old(self).handler(),
    {
        self.subscribe(Arc::new(SubscriptionFunc::new(func)))
    }

    /// Adds a subscription running `func` on each value (its result is
    /// dropped), and returns it.
    pub fn map<Z: Send + Sync + 'static>(
        &mut self,
        func: impl Fn(Arc<X>) -> Z + Send + Sync + 'static,
    ) -> (r: Arc<SubscriptionFunc<X>>)
        requires
            forall|x: Arc<X>| call_requires(func, (x,)),
        ensures
            final(self).ids() == old(self).ids().push(r.id_view()),
            final(self).subscriptions() == old(self).subscriptions().push(r),
            forall|x: Arc<X>| #[trigger] r.accepted(x) ==> exists|z: Z| call_ensures(func, (x,), z),
            final(self).handler() == old(self).handler(),
    {
        let discard = move |x: Arc<X>|
            requires
                call_requires(*&func, (x,)),
            ensures
                exists|z: Z| call_ensures(*&func, (x,), z),
            {
                let z = (&func)(x);
                assert(call_ensures(*&func, (x,), z));
            };
        self.subscribe_fn(discard)
    }

    /// Removes the first subscription with the id of `s`.
    pub fn unsubscribe(&mut self, s: Arc<SubscriptionFunc<X>>)
        ensures
            final(self).ids() == without_first(old(self).ids(), s.id_view()),
            final(self).subscriptions() == without_first_id(old(self).subscriptions(), s.id_view()),
            final(self).handler() == old(self).handler(),
    {
        self.delete_observer(s);
    }

    /// Adds a subscription that puts each value into `queue` (a shared
    /// clone of it), and returns it.
    pub fn subscribe_blocking_queue(&mut self, queue: &BlockingQueue<Arc<X>>) -> (r: Arc<SubscriptionFunc<X>>)
        ensures
            final(self).ids() == old(self).ids().push(r.id_view()),
            final(self).subscriptions() == old(self).subscriptions().push(r),
            final(self).handler() == old(self).handler(),
    {
        let queue_new = queue.clone();
        self.subscribe_fn(
            move |v: Arc<X>|
                {
                    let mut q = queue_new.clone();
                    q.put(v);
                },
        )
    }

    /// Adds a subscription feeding a new queue; returns both.
    pub fn as_blocking_queue(&mut self) -> (r: (Arc<SubscriptionFunc<X>>, BlockingQueue<Arc<X>>))
        ensures
            final(self).ids() == old(self).ids().push(r.0.id_view()),
            final(self).subscriptions() == old(self).subscriptions().push(r.0),
            final(self).handler() == old(self).handler(),
    {
        let queue = BlockingQueue::new();
        let subscription = self.subscribe_blocking_queue(&queue);
        (subscription, queue)
    }

    /// Adds `s` and returns the shared list of the values it receives.
    pub fn subscribe_as_stream(&mut self, s: Arc<SubscriptionFunc<X>>) -> (r: LinkedListAsync<Arc<X>>)
        ensures
            r == s.stream(),
            final(self).ids() == old(self).ids().push(s.id_view()),
            final(self).subscriptions() == old(self).subscriptions().push(s),
            final(self).handler() == old(self).handler(),
    {
        let added = self.subscribe(s);
        let mut sub = SubscriptionFunc::clone(&*added);
        sub.as_stream()
    }

    /// Adds a subscription running `func` and returns the shared list of
    /// the values it receives.
    pub fn subscribe_fn_as_stream(&mut self, func: impl Fn(Arc<X>) + Send + Sync + 'static) -> (r: LinkedListAsync<Arc<X>>)
        requires
            forall|x: Arc<X>| call_requires(func, (x,)),
        ensures
            final(self).ids().len() == old(self).ids().len() + 1,
            final(self).ids().drop_last() == old(self).ids(),
            exists|t: Arc<SubscriptionFunc<X>>|
                #![trigger old(self).subscriptions().push(t)]
                final(self).subscriptions() == old(self).subscriptions().push(t) && r == t.stream()
                    && forall|x: Arc<X>| #[trigger] t.accepted(x) == call_ensures(func, (x,), ()),
            final(self).handler() == old(self).handler(),
    {
        let added = self.subscribe_fn(func);
        let mut sub = SubscriptionFunc::clone(&*added);
        sub.as_stream()
    }

    /// Adds a subscription doing nothing but keeping the values, and returns
    /// the shared list of them.
    pub fn as_stream(&mut self) -> (r: LinkedListAsync<Arc<X>>)
        ensures
            final(self).ids().len() == old(self).ids().len() + 1,
            final(self).ids().drop_last() == old(self).ids(),
            exists|t: Arc<SubscriptionFunc<X>>|
                #![trigger old(self).subscriptions().push(t)]
                final(self).subscriptions() == old(self).subscriptions().push(t) && r == t.stream(),
            final(self).handler() == old(self).handler(),
    {
        self.subscribe_fn_as_stream(|_x: Arc<X>| {})
    }
}

impl<X: Send + Sync + 'static> Observable<X, SubscriptionFunc<X>> for Publisher<X> {
    fn add_observer(&mut self, observer: Arc<SubscriptionFunc<X>>)
        ensures
            final(self).ids() == old(self).ids().push(observer.id_view()),
            final(self).subscriptions() == old(self).subscriptions().push(observer),
            final(self).handler() == old(self).handler(),
    {
        self.observers.push(observer);
        proof {
            assert(self.ids() =~= old(self).ids().push(observer.id_view()));
        }
    }

    fn delete_observer(&mut self, observer: Arc<SubscriptionFunc<X>>)
        ensures
            final(self).ids() == without_first(old(self).ids(), observer.id_view()),
            final(self).subscriptions() == without_first_id(old(self).subscriptions(), observer.id_view()),
            final(self).handler() == old(self).handler(),
    {
        let id = observer.get_id();
        let mut closing = SubscriptionFunc::clone(&*observer);
        closing.close_stream();
        let ghost ids = self.ids();
        let mut index: usize = 0;
        while index < self.observers.len()
            invariant
                index <= self.observers.len(),
                self.ids() == ids,
                self.observers == old(self).observers,
                self.sub_handler == old(self).sub_handler,
                id@ == observer.id_view(),
                forall|j: int| 0 <= j < index ==> ids[j] != id@,
            decreases self.observers.len() - index,
        {
            let obs_id = self.observers[index].get_id();
            if obs_id == id {
                proof {
                    assert(ids[index as int] == id@);
                    ids.index_of_first_ensures(id@);
                    match ids.index_of_first(id@) {
                        Some(k) => {
                            if k < index {
                                assert(ids[k] != id@);
                            }
                            if k > index {
                                assert(ids[index as int] != id@);
                            }
                        },
                        None => {
                            assert(ids.contains(id@));
                        },
                    }
                }
                self.observers.remove(index);
                proof {
                    assert(self.ids() =~= ids.remove(index as int));
                }
                return;
            }
            index = index + 1;
        }
        proof {
            ids.index_of_first_ensures(id@);
            if ids.index_of_first(id@) is Some {
                let k = ids.index_of_first(id@)->0;
                assert(ids[k] == id@);
            }
        }
    }

    fn notify_observers(&mut self, val: Arc<X>)
        ensures
            final(self).ids() == old(self).ids(),
            final(self).handler() == old(self).handler(),
            final(self).subscriptions() == old(self).subscriptions(),
            old(self).handler() is None ==> forall|i: int|
                0 <= i < old(self).subscriptions().len()
                    ==> #[trigger] old(self).subscriptions()[i].accepted(val),
            old(self).handler() is None ==> final(self).posted_jobs() == old(self).posted_jobs(),
            old(self).handler() is Some ==> exists|job: RawFunc|
                final(self).posted_jobs() == old(self).posted_jobs().push(job) && (#[trigger] job.completes()
                    ==> all_accepted(old(self).subscriptions(), val)),
    {
        match &self.sub_handler {
            Some(sub_handler) => {
                let job = deliver_job(snapshot(&self.observers), val);
                let sent = post_job(sub_handler, job);
                self.posted = Ghost(self.posted@.push(sent@));
            },
            None => {
                deliver(&self.observers, &val);
            },
        }
    }
}

/// Unsubscribing right after subscribing gives back the ids there were,
/// when no earlier subscription had the same id.
pub proof fn lemma_unsubscribe_undoes_subscribe(ids: Seq<Seq<char>>, id: Seq<char>)
    requires
        !ids.contains(id),
    ensures
        without_first(ids.push(id), id) == ids,
{
    let s = ids.push(id);
    s.index_of_first_ensures(id);
    assert(s[ids.len() as int] == id);
    match s.index_of_first(id) {
        Some(i) => {
            if i < ids.len() {
                assert(ids[i] == id);
            }
            assert(s.remove(i) =~= ids);
        },
        None => {
            assert(s.contains(id));
        },
    }
}

/// Unsubscribing right after subscribing `s` gives back the subscriptions
/// there were, when none of them had the id of `s`.
pub proof fn lemma_unsubscribe_undoes_subscribe_subscriptions<X>(
    subs: Seq<Arc<SubscriptionFunc<X>>>,
    s: Arc<SubscriptionFunc<X>>,
)
    requires
        !ids_of(subs).contains(s.id_view()),
    ensures
        without_first_id(subs.push(s), s.id_view()) == subs,
{
    let ids = ids_of(subs);
    assert(ids_of(subs.push(s)) =~= ids.push(s.id_view()));
    lemma_unsubscribe_undoes_subscribe(ids, s.id_view());
    let all = ids.push(s.id_view());
    all.index_of_first_ensures(s.id_view());
    match all.index_of_first(s.id_view()) {
        Some(i) => {
            if i < ids.len() {
                assert(ids[i] == s.id_view());
            }
            assert(subs.push(s).remove(i) =~= subs);
        },
        None => {
            assert(all[ids.len() as int] == s.id_view());
        },
    }
}

/// Unsubscribing what is not subscribed changes nothing.
pub proof fn lemma_unsubscribe_absent(ids: Seq<Seq<char>>, id: Seq<char>)
    requires
        !ids.contains(id),
    ensures
        without_first(ids, id) == ids,
{
    ids.index_of_first_ensures(id);
}

} // verus!
