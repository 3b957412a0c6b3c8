//! `MonadIO`: a lazy effect with `map` / `fmap` and subscription, that can be
//! routed through `Handler` threads (`observe_on`, `subscribe_on`).
//!
//! A `MonadIO` is described by the values its effect may yield: `map` and
//! `fmap` build effects whose possible values follow from those of the parts.

use std::sync::{Arc, Mutex};
use vstd::prelude::*;
use vstd::rwlock::{RwLock, RwLockPredicate};

use crate::common::{RawFunc, Subscription, SubscriptionFunc};
use crate::handler::{post_to, share_handler, Handler};
use crate::primitives::share_arc;
use crate::sync::CountDownLatch;

verus! {

broadcast use vstd::function::group_function_axioms;

/// A computation producing a `Y`, behind a shared pointer.
pub(crate) trait Effect<Y>: Send + Sync {
    /// Whether the computation may be run.
    spec fn ready(&self) -> bool;

    /// Whether `y` is a value the computation may produce.
    spec fn yields(&self, y: Y) -> bool;

    /// Runs the computation.
    fn run(&self) -> (y: Y)
        requires
            self.ready(),
        ensures
            self.yields(y),
    ;
}

/// A closure run as an `Effect`.
pub(crate) struct EffectFn<F> {
    func: F,
}

impl<Y, F: Fn() -> Y + Send + Sync> Effect<Y> for EffectFn<F> {
    closed spec fn ready(&self) -> bool {
        call_requires(self.func, ())
    }

    closed spec fn yields(&self, y: Y) -> bool {
        call_ensures(self.func, (), y)
    }

    fn run(&self) -> (y: Y) {
        (self.func)()
    }
}

/// An effect followed by a function of its value.
#[verifier::reject_recursive_types(Y)]
pub(crate) struct MapEffect<Y, F> {
    inner: MonadIO<Y>,
    func: F,
}

impl<Y, Z, F: Fn(Y) -> Z + Send + Sync> Effect<Z> for MapEffect<Y, F> {
    closed spec fn ready(&self) -> bool {
        &&& self.inner.effect.ready()
        &&& forall|y: Y| self.inner.yields(y) ==> call_requires(self.func, (y,))
    }

    closed spec fn yields(&self, z: Z) -> bool {
        exists|y: Y| self.inner.yields(y) && call_ensures(self.func, (y,), z)
    }

    fn run(&self) -> (z: Z) {
        proof {
            use_type_invariant(&self.inner);
        }
        let y = self.inner.effect.run();
        assert(self.inner.yields(y));
        let z = (self.func)(y);
        assert(self.inner.yields(y) && call_ensures(self.func, (y,), z));
        z
    }
}

/// An effect followed by a function giving another `MonadIO`, whose effect
/// is then run.
#[verifier::reject_recursive_types(Y)]
pub(crate) struct BindEffect<Y, F> {
    inner: MonadIO<Y>,
    func: F,
}

impl<Y, Z, F: Fn(Y) -> MonadIO<Z> + Send + Sync> Effect<Z> for BindEffect<Y, F> {
    closed spec fn ready(&self) -> bool {
        &&& self.inner.effect.ready()
        &&& forall|y: Y| self.inner.yields(y) ==> call_requires(self.func, (y,))
    }

    closed spec fn yields(&self, z: Z) -> bool {
        exists|y: Y, m: MonadIO<Z>|
            self.inner.yields(y) && call_ensures(self.func, (y,), m) && m.yields(z)
    }

    fn run(&self) -> (z: Z) {
        proof {
            use_type_invariant(&self.inner);
        }
        let y = self.inner.effect.run();
        assert(self.inner.yields(y));
        let m = (self.func)(y);
        proof {
            use_type_invariant(&m);
        }
        let z = m.effect.run();
        assert(self.inner.yields(y) && call_ensures(self.func, (y,), m) && m.yields(z));
        z
    }
}

/// A `MonadIO` running `effect`, with the given handlers: the effect is put
/// behind a shared pointer to a `dyn Effect` (an unsizing coercion, which is
/// made here, outside the proved code). The pointer runs the same
/// computation.
#[verifier::external_body]
fn monad_of<Y, E: Effect<Y> + 'static>(
    effect: E,
    ob: Option<Arc<Mutex<dyn Handler>>>,
    sub: Option<Arc<Mutex<dyn Handler>>>,
) -> (r: MonadIO<Y>)
    requires
        effect.ready(),
    ensures
        r.effect.ready() == effect.ready(),
        forall|y: Y| #[trigger] r.yields(y) == effect.yields(y),
        r.ob_handler == ob,
        r.sub_handler == sub,
{
    MonadIO { effect: Arc::new(effect), ob_handler: ob, sub_handler: sub }
}

/// Wraps `Arc::clone` on the effect pointer and `Option::<Arc<_>>::clone` on
/// the handler pointers: the copy runs the same effect on the same handlers.
#[verifier::external_body]
fn share_monad<Y>(m: &MonadIO<Y>) -> (r: MonadIO<Y>)
    ensures
        r.effect.ready() == m.effect.ready(),
        forall|y: Y| #[trigger] r.yields(y) == m.yields(y),
        r.ob_handler == m.ob_handler,
        r.sub_handler == m.sub_handler,
{
    MonadIO {
        effect: Arc::clone(&m.effect),
        ob_handler: m.ob_handler.clone(),
        sub_handler: m.sub_handler.clone(),
    }
}

/// Lazy effect container with optional observe/subscribe handlers.
#[verifier::reject_recursive_types(Y)]
pub struct MonadIO<Y> {
    effect: Arc<dyn Effect<Y>>,
    ob_handler: Option<Arc<Mutex<dyn Handler>>>,
    sub_handler: Option<Arc<Mutex<dyn Handler>>>,
}

/// A closure giving a copy of `r` on each call (it can be sent across
/// threads: it holds only `r`).
pub fn of<Z: 'static + Send + Sync + Clone>(r: Z) -> (f: impl Fn() -> Z)
    ensures
        call_requires(f, ()),
        forall|z: Z| call_ensures(f, (), z) ==> cloned(r, z),
{
    move || -> (z: Z)
        ensures
            cloned(*&r, z),
        { r.clone() }
}

impl<Y> Clone for MonadIO<Y> {
    fn clone(&self) -> (r: Self)
        ensures
            forall|y: Y| r.yields(y) == self.yields(y),
            r.handlers() == self.handlers(),
    {
        proof {
            use_type_invariant(self);
        }
        share_monad(self)
    }
}

impl<Y> MonadIO<Y> {
    /// The effect may always be run.
    #[verifier::type_invariant]
    spec fn inv(&self) -> bool {
        self.effect.ready()
    }

    /// Whether `y` is a value the effect may produce.
    pub closed spec fn yields(&self, y: Y) -> bool {
        self.effect.yields(y)
    }

    /// Runs the effect here, whatever the handlers.
    pub(crate) fn run(&self) -> (y: Y)
        ensures
            self.yields(y),
    {
        proof {
            use_type_invariant(self);
        }
        self.effect.run()
    }

    /// The observe and subscribe handlers.
    pub closed spec fn handlers(&self) -> (
        Option<Arc<Mutex<dyn Handler>>>,
        Option<Arc<Mutex<dyn Handler>>>,
    ) {
        (self.ob_handler, self.sub_handler)
    }
}

impl<Y: 'static + Send + Sync + Clone> From<Y> for MonadIO<Y> {
    fn from(r: Y) -> (m: Self)
        ensures
            forall|y: Y| m.yields(y) ==> cloned(r, y),
    {
        MonadIO::just(r)
    }
}

impl<Y: 'static + Send + Sync + Clone> vstd::std_specs::convert::FromSpecImpl<Y> for MonadIO<Y> {
    open spec fn obeys_from_spec() -> bool {
        false
    }

    open spec fn from_spec(v: Y) -> Self {
        arbitrary()
    }
}

impl<Y: 'static + Send + Sync + Clone> MonadIO<Y> {
    /// Lifts a value: the effect gives a copy of `r`.
    pub fn just(r: Y) -> (m: MonadIO<Y>)
        ensures
            forall|y: Y| m.yields(y) ==> cloned(r, y),
            m.handlers() == (None::<Arc<Mutex<dyn Handler>>>, None::<Arc<Mutex<dyn Handler>>>),
    {
        let copy_of_r = move || -> (y: Y)
            ensures
                cloned(*&r, y),
            { r.clone() };
        MonadIO::new(copy_of_r)
    }
}

impl<Y: 'static + Send + Sync> MonadIO<Y> {
    /// A `MonadIO` running `effect`, on the caller's thread.
    pub fn new(effect: impl Fn() -> Y + Send + Sync + 'static) -> (m: MonadIO<Y>)
        requires
            call_requires(effect, ()),
        ensures
            forall|y: Y| m.yields(y) == call_ensures(effect, (), y),
            m.handlers() == (None::<Arc<Mutex<dyn Handler>>>, None::<Arc<Mutex<dyn Handler>>>),
    {
        MonadIO::new_with_handlers(effect, None, None)
    }

    /// A `MonadIO` running `effect`, observed on `ob` and delivered on `sub`.
    pub fn new_with_handlers(
        effect: impl Fn() -> Y + Send + Sync + 'static,
        ob: Option<Arc<Mutex<dyn Handler + 'static>>>,
        sub: Option<Arc<Mutex<dyn Handler + 'static>>>,
    ) -> (m: MonadIO<Y>)
        requires
            call_requires(effect, ()),
        ensures
            forall|y: Y| m.yields(y) == call_ensures(effect, (), y),
            m.handlers() == (ob, sub),
    {
        monad_of(EffectFn { func: effect }, ob, sub)
    }

    /// Runs the subscription pipeline on `h` when it is set.
    pub fn observe_on(&mut self, h: Option<Arc<Mutex<dyn Handler + 'static>>>)
        ensures
            forall|y: Y| final(self).yields(y) == old(self).yields(y),
            final(self).handlers() == (h, old(self).handlers().1),
    {
        proof {
            use_type_invariant(&*self);
        }
        self.ob_handler = h;
    }

    /// Delivers values on `h` when it is set (and an observe handler is set).
    pub fn subscribe_on(&mut self, h: Option<Arc<Mutex<dyn Handler + 'static>>>)
        ensures
            forall|y: Y| final(self).yields(y) == old(self).yields(y),
            final(self).handlers() == (old(self).handlers().0, h),
    {
        proof {
            use_type_invariant(&*self);
        }
        self.sub_handler = h;
    }

    /// Functor map: the effect followed by `func`.
    pub fn map<Z: 'static + Send + Sync + Clone>(
        &self,
        func: impl Fn(Y) -> Z + Send + Sync + 'static,
    ) -> (m: MonadIO<Z>)
        requires
            forall|y: Y| self.yields(y) ==> call_requires(func, (y,)),
        ensures
            forall|z: Z| m.yields(z) == exists|y: Y| self.yields(y) && call_ensures(func, (y,), z),
            m.handlers() == self.handlers(),
    {
        proof {
            use_type_invariant(self);
        }
        let effect = MapEffect { inner: share_monad(self), func };
        let m = monad_of(effect, share_handler(&self.ob_handler), share_handler(&self.sub_handler));
        proof {
            assert forall|z: Z| m.yields(z) == exists|y: Y| self.yields(y) && call_ensures(func, (y,), z) by {
                if m.yields(z) {
                    let y = choose|y: Y| effect.inner.yields(y) && call_ensures(effect.func, (y,), z);
                    assert(self.yields(y) && call_ensures(func, (y,), z));
                }
                if exists|y: Y| self.yields(y) && call_ensures(func, (y,), z) {
                    let y = choose|y: Y| self.yields(y) && call_ensures(func, (y,), z);
                    assert(effect.inner.yields(y));
                    assert(effect.yields(z));
                }
            }
        }
        m
    }

    /// Monadic bind: the effect, then `func` of its value, then the effect
    /// of the `MonadIO` that `func` gives.
    pub fn fmap<Z: 'static + Send + Sync + Clone>(
        &self,
        func: impl Fn(Y) -> MonadIO<Z> + Send + Sync + 'static,
    ) -> (m: MonadIO<Z>)
        requires
            forall|y: Y| self.yields(y) ==> call_requires(func, (y,)),
        ensures
            forall|z: Z|
                m.yields(z) == exists|y: Y, n: MonadIO<Z>|
                    self.yields(y) && call_ensures(func, (y,), n) && n.yields(z),
            m.handlers() == self.handlers(),
    {
        proof {
            use_type_invariant(self);
        }
        let effect = BindEffect { inner: share_monad(self), func };
        let m = monad_of(effect, share_handler(&self.ob_handler), share_handler(&self.sub_handler));
        proof {
            assert forall|z: Z|
                m.yields(z) == exists|y: Y, n: MonadIO<Z>|
                    self.yields(y) && call_ensures(func, (y,), n) && n.yields(z) by {
                if m.yields(z) {
                    let (y, n) = choose|y: Y, n: MonadIO<Z>|
                        effect.inner.yields(y) && call_ensures(effect.func, (y,), n) && n.yields(z);
                    assert(self.yields(y) && call_ensures(func, (y,), n) && n.yields(z));
                }
                if exists|y: Y, n: MonadIO<Z>| self.yields(y) && call_ensures(func, (y,), n) && n.yields(z) {
                    let (y, n) = choose|y: Y, n: MonadIO<Z>|
                        self.yields(y) && call_ensures(func, (y,), n) && n.yields(z);
                    assert(effect.inner.yields(y));
                    assert(effect.yields(z));
                }
            }
        }
        m
    }

    /// Runs the effect and hands the value to `s`: on the caller's thread
    /// when no observe handler is set (whatever the subscribe handler), else
    /// in a job posted to the observe handler (see `route_job`), which in
    /// turn posts the emission to the subscribe handler when one is set.
    pub fn subscribe(&self, s: Arc<impl Subscription<Y>>)
        ensures
            self.handlers().0 is None ==> exists|x: Arc<Y>|
                self.yields(*x) && #[trigger] s.received(x),
    {
        match &self.ob_handler {
            Some(ob_handler) => {
                let job = route_job(self, &s);
                post_to(ob_handler, job);
            },
            None => {
                emit(self, &s);
            },
        }
    }

    /// `subscribe` with a closure.
    pub fn subscribe_fn(&self, func: impl Fn(Arc<Y>) + Send + Sync + 'static)
        requires
            forall|x: Arc<Y>| call_requires(func, (x,)),
        ensures
            self.handlers().0 is None ==> exists|x: Arc<Y>|
                self.yields(*x) && #[trigger] call_ensures(func, (x,), ()),
    {
        self.subscribe(Arc::new(SubscriptionFunc::new(func)))
    }

    /// Runs the effect once and returns its value. Without an observe
    /// handler the effect runs here; with one, it runs where `subscribe`
    /// would run it (on the subscribe handler when one is set, else on the
    /// observe handler), and this blocks until the value is back.
    pub fn eval(&self) -> (r: Arc<Y>)
        ensures
            self.yields(*r),
    {
        proof {
            use_type_invariant(self);
        }
        let ob_handler = match &self.ob_handler {
            Some(h) => h,
            None => {
                return Arc::new(self.effect.run());
            },
        };
        let latch = CountDownLatch::new(1);
        let slot = Arc::new(RwLock::new(None, Ghost(EvalSlot { effect: *self })));
        let this = self.clone();
        let slot_job = share_arc(&slot);
        let latch_job = latch.clone();
        let job = move ||
            requires
                forall|y: Y| (*&slot_job).pred().effect.yields(y) == (*&this).yields(y),
            {
                route_eval(&this, &slot_job, &latch_job);
            };
        post_to(ob_handler, RawFunc::new(job));
        latch.wait();
        let held = slot.acquire_read();
        let delivered = match held.borrow() {
            Some(y) => Some(share_arc(y)),
            None => None,
        };
        held.release_read();
        match delivered {
            Some(y) => y,
            // The latch opens only after the value was stored.
            None => Arc::new(self.effect.run()),
        }
    }
}

/// What the slot of `eval` may hold: nothing yet, or a value of the effect.
#[verifier::reject_recursive_types(Y)]
struct EvalSlot<Y> {
    effect: MonadIO<Y>,
}

impl<Y> RwLockPredicate<Option<Arc<Y>>> for EvalSlot<Y> {
    closed spec fn inv(self, v: Option<Arc<Y>>) -> bool {
        v matches Some(y) ==> self.effect.yields(*y)
    }
}

/// On the observe handler: runs `fill_eval` on the subscribe handler when
/// there is one, else here.
fn route_eval<Y: 'static + Send + Sync>(
    m: &MonadIO<Y>,
    slot: &Arc<RwLock<Option<Arc<Y>>, EvalSlot<Y>>>,
    latch: &CountDownLatch,
)
    requires
        forall|y: Y| slot.pred().effect.yields(y) == m.yields(y),
{
    match &m.sub_handler {
        Some(sub_handler) => {
            let this = m.clone();
            let slot_job = share_arc(slot);
            let latch_job = latch.clone();
            let job = move ||
                requires
                    forall|y: Y| (*&slot_job).pred().effect.yields(y) == (*&this).yields(y),
                {
                    fill_eval(&this, &slot_job, &latch_job);
                };
            post_to(sub_handler, RawFunc::new(job));
        },
        None => {
            fill_eval(m, slot, latch);
        },
    }
}

/// Runs the effect of `m`, puts its value in `slot` and opens `latch`.
fn fill_eval<Y: 'static + Send + Sync>(
    m: &MonadIO<Y>,
    slot: &Arc<RwLock<Option<Arc<Y>>, EvalSlot<Y>>>,
    latch: &CountDownLatch,
)
    requires
        forall|y: Y| slot.pred().effect.yields(y) == m.yields(y),
{
    let y = m.run();
    let (_previous, held) = slot.acquire_write();
    held.release_write(Some(Arc::new(y)));
    latch.countdown();
}

/// Runs the effect of `m` and hands the value to `s`.
fn emit<Y: 'static + Send + Sync, S: Subscription<Y>>(m: &MonadIO<Y>, s: &Arc<S>)
    ensures
        exists|x: Arc<Y>| m.yields(*x) && #[trigger] s.received(x),
{
    proof {
        use_type_invariant(m);
    }
    let y = m.effect.run();
    let x = Arc::new(y);
    s.on_next(share_arc(&x));
    assert(m.yields(*x) && s.received(x));
}

/// The job that emits the effect of `m` to `s`: once it has run, `s` has
/// received a value of the effect.
fn emit_job<Y: 'static + Send + Sync, S: Subscription<Y>>(m: &MonadIO<Y>, s: &Arc<S>) -> (job: RawFunc)
    ensures
        job.completes() ==> exists|x: Arc<Y>| m.yields(*x) && #[trigger] s.received(x),
{
    let this = m.clone();
    let target = share_arc(s);
    let run = move ||
        ensures
            exists|x: Arc<Y>| (*&this).yields(*x) && #[trigger] (*&target).received(x),
        {
            emit(&this, &target);
        };
    RawFunc::new(run)
}

/// On the observe handler: posts the emission to the subscribe handler when
/// there is one (see `emit_job`), else emits here.
fn route<Y: 'static + Send + Sync, S: Subscription<Y>>(m: &MonadIO<Y>, s: &Arc<S>)
    ensures
        m.handlers().1 is None ==> exists|x: Arc<Y>| m.yields(*x) && #[trigger] s.received(x),
{
    match &m.sub_handler {
        Some(sub_handler) => {
            let job = emit_job(m, s);
            post_to(sub_handler, job);
        },
        None => {
            emit(m, s);
        },
    }
}

/// The job that routes the emission of `m` to `s` from the observe
/// handler: once it has run, and when no subscribe handler is set, `s` has
/// received a value of the effect.
fn route_job<Y: 'static + Send + Sync, S: Subscription<Y>>(m: &MonadIO<Y>, s: &Arc<S>) -> (job: RawFunc)
    ensures
        job.completes() ==> (m.handlers().1 is None ==> exists|x: Arc<Y>|
            m.yields(*x) && #[trigger] s.received(x)),
{
    let this = m.clone();
    let target = share_arc(s);
    let run = move ||
        ensures
            (*&this).handlers().1 is None ==> exists|x: Arc<Y>|
                (*&this).yields(*x) && #[trigger] (*&target).received(x),
        {
            route(&this, &target);
        };
    RawFunc::new(run)
}

} // verus!
