//! `Maybe`: an optional value behind a shared pointer, with the applicative
//! and chain operations of fantasy-land.

use std::sync::Arc;
use vstd::prelude::*;

verus! {

broadcast use vstd::function::group_function_axioms;

/// `Maybe` wraps an `Option<T>`; its view is that option.
#[derive(Clone)]
pub struct Maybe<T> {
    r: Arc<Option<T>>,
}

impl<T> View for Maybe<T> {
    type V = Option<T>;

    closed spec fn view(&self) -> Option<T> {
        *self.r
    }
}

impl<T: Clone + 'static> Maybe<T> {
    /// A copy of the wrapped option.
    pub fn option(&self) -> (r: Option<T>)
        ensures
            r is Some <==> self@ is Some,
            r is Some ==> cloned(self@->0, r->0),
    {
        match &*self.r {
            Some(x) => Some(x.clone()),
            None => None,
        }
    }

    /// A copy of the wrapped value; there must be one.
    pub fn unwrap(&self) -> (r: T)
        requires
            self@ is Some,
        ensures
            cloned(self@->0, r),
    {
        let inner: &Option<T> = &*self.r;
        inner.as_ref().unwrap().clone()
    }

    /// A copy of the wrapped value, or `val` when there is none.
    pub fn or(&self, val: T) -> (r: T)
        ensures
            self@ is None ==> r == val,
            self@ is Some ==> cloned(self@->0, r),
    {
        match &*self.r {
            Some(x) => x.clone(),
            None => val,
        }
    }
}

impl<T: 'static> Maybe<T> {
    /// Wraps `r`.
    pub fn just(r: Option<T>) -> (m: Maybe<T>)
        ensures
            m@ == r,
    {
        Maybe { r: Arc::new(r) }
    }

    /// Wraps `r` (the same as `just`).
    pub fn of(r: Option<T>) -> (m: Maybe<T>)
        ensures
            m@ == r,
    {
        Maybe::just(r)
    }

    /// Wraps the present value `r`.
    pub fn val(r: T) -> (m: Maybe<T>)
        ensures
            m@ == Some(r),
    {
        Maybe::just(Some(r))
    }

    /// Whether a value is present.
    pub fn present(&self) -> (b: bool)
        ensures
            b == self@ is Some,
    {
        match &*self.r {
            Some(_x) => true,
            None => false,
        }
    }

    /// Whether no value is present.
    pub fn null(&self) -> (b: bool)
        ensures
            b == self@ is None,
    {
        match &*self.r {
            Some(_x) => false,
            None => true,
        }
    }

    /// Calls `func` on the value when there is one; does nothing otherwise.
    pub fn let_do<F>(&self, func: F)
        where
            F: FnOnce(&T),
        requires
            self@ is Some ==> call_requires(func, (&self@->0,)),
        ensures
            self@ is Some ==> call_ensures(func, (&self@->0,), ()),
    {
        match &*self.r {
            Some(x) => func(x),
            None => (),
        }
    }

    /// Hands the wrapped option to `func` and returns the `Maybe` it gives.
    pub fn fmap<F, G>(&self, func: F) -> (m: Maybe<G>)
        where
            F: FnOnce(&Option<T>) -> Maybe<G>,
        requires
            call_requires(func, (&self@,)),
        ensures
            call_ensures(func, (&self@,), m),
    {
        func(&*self.r)
    }

    /// Wraps what `func` gives for the wrapped option.
    pub fn map<F, G>(&self, func: F) -> (m: Maybe<G>)
        where
            F: FnOnce(&Option<T>) -> Option<G>,
            G: 'static,
        requires
            call_requires(func, (&self@,)),
        ensures
            call_ensures(func, (&self@,), m@),
    {
        Maybe::just(func(&*self.r))
    }

    /// The same as `map`.
    pub fn bind<F, G>(&self, func: F) -> (m: Maybe<G>)
        where
            F: FnOnce(&Option<T>) -> Option<G>,
            G: 'static,
        requires
            call_requires(func, (&self@,)),
        ensures
            call_ensures(func, (&self@,), m@),
    {
        self.map(func)
    }

    /// The same as `map`.
    pub fn then<F, G>(&self, func: F) -> (m: Maybe<G>)
        where
            F: FnOnce(&Option<T>) -> Option<G>,
            G: 'static,
        requires
            call_requires(func, (&self@,)),
        ensures
            call_ensures(func, (&self@,), m@),
    {
        self.map(func)
    }

    /// The same as `fmap`.
    pub fn chain<F, G>(&self, func: F) -> (m: Maybe<G>)
        where
            F: FnOnce(&Option<T>) -> Maybe<G>,
        requires
            call_requires(func, (&self@,)),
        ensures
            call_ensures(func, (&self@,), m),
    {
        self.fmap(func)
    }

    /// Applies the wrapped function (a copy of it) to the wrapped option;
    /// no function gives no value.
    pub fn ap<F, G>(&self, maybe_func: &Maybe<F>) -> (m: Maybe<G>)
        where
            F: FnOnce(&Option<T>) -> Option<G> + Clone + 'static,
            G: 'static,
        requires
            maybe_func@ is Some ==> forall|g: F|
                cloned(maybe_func@->0, g) ==> #[trigger] call_requires(g, (&self@,)),
        ensures
            maybe_func@ is None ==> m@ is None,
            maybe_func@ is Some ==> exists|g: F|
                cloned(maybe_func@->0, g) && #[trigger] call_ensures(g, (&self@,), m@),
    {
        match &*maybe_func.r {
            Some(func) => {
                let g = func.clone();
                self.map(g)
            },
            None => Maybe::just(None::<G>),
        }
    }
}

/// `map`, `bind` and `then` agree: for a function whose result on the
/// wrapped option is determined, the three give the same `Maybe`. Each of
/// `by_map`, `by_bind`, `by_then` is a result the call may give (its
/// `ensures`).
pub proof fn lemma_map_bind_then_agree<T, G, F: FnOnce(&Option<T>) -> Option<G>>(
    m: Maybe<T>,
    func: F,
    by_map: Maybe<G>,
    by_bind: Maybe<G>,
    by_then: Maybe<G>,
)
    requires
        forall|a: Option<G>, b: Option<G>|
            call_ensures(func, (&m@,), a) && call_ensures(func, (&m@,), b) ==> a == b,
        call_ensures(func, (&m@,), by_map@),
        call_ensures(func, (&m@,), by_bind@),
        call_ensures(func, (&m@,), by_then@),
    ensures
        by_map@ == by_bind@,
        by_bind@ == by_then@,
{
}

/// `chain` and `fmap` agree: for a function whose result on the wrapped
/// option is determined, both give the same `Maybe`. Each of `by_chain`
/// and `by_fmap` is a result the call may give (its `ensures`).
pub proof fn lemma_chain_fmap_agree<T, G, F: FnOnce(&Option<T>) -> Maybe<G>>(
    m: Maybe<T>,
    func: F,
    by_chain: Maybe<G>,
    by_fmap: Maybe<G>,
)
    requires
        forall|a: Maybe<G>, b: Maybe<G>|
            call_ensures(func, (&m@,), a) && call_ensures(func, (&m@,), b) ==> a == b,
        call_ensures(func, (&m@,), by_chain),
        call_ensures(func, (&m@,), by_fmap),
    ensures
        by_chain == by_fmap,
{
}

/// A `Maybe` is either present or null, never both.
pub proof fn lemma_present_null_opposite<T>(m: Maybe<T>)
    ensures
        (m@ is Some) != (m@ is None),
{
}

impl<T: 'static> From<T> for Maybe<T> {
    fn from(r: T) -> (m: Self) {
        Maybe::just(Some(r))
    }
}

impl<T: 'static> vstd::std_specs::convert::FromSpecImpl<T> for Maybe<T> {
    open spec fn obeys_from_spec() -> bool {
        true
    }

    open spec fn from_spec(v: T) -> Self {
        choose|m: Maybe<T>| m@ == Some(v)
    }
}

} // verus!
