//! Functional helpers over `Vec<T>`: composition, `map`, `filter`, folds,
//! `reverse`, `contains` and `reduce`.
//!
//! The functions take the caller's closures as they are; their contracts speak
//! of what each call of a closure may return (`call_ensures`), so they hold for
//! closures with effects as well as for pure ones.

use vstd::prelude::*;
use vstd::std_specs::cmp::PartialEqSpec;
use vstd::std_specs::iter::IteratorSpec;
use vstd::std_specs::iter::VerusForLoopWrapper;
use vstd::std_specs::vec::into_iter_elts;

verus! {

broadcast use vstd::function::group_function_axioms;

/// The elements of `s` whose flag in `keep` is set, in their order in `s`.
pub open spec fn kept<T>(s: Seq<T>, keep: Seq<bool>) -> Seq<T>
    decreases s.len(),
{
    if s.len() == 0 || keep.len() == 0 {
        Seq::empty()
    } else {
        let rest = kept(s.drop_last(), keep.drop_last());
        if keep.last() {
            rest.push(s.last())
        } else {
            rest
        }
    }
}

/// `accs` records a left fold of `xs` with `f` from `init`: `accs[0]` is
/// `init` and each `accs[i]` is a result that `f` may give for
/// `(accs[i - 1], xs[i - 1])`.
pub open spec fn is_fold_chain<T, B, F: FnMut(B, T) -> B>(
    f: F,
    init: B,
    xs: Seq<T>,
    accs: Seq<B>,
) -> bool {
    &&& accs.len() == xs.len() + 1
    &&& accs[0] == init
    &&& forall|i: int|
        0 < i <= xs.len() ==> call_ensures(f, (accs[i - 1], xs[i - 1]), #[trigger] accs[i])
}

/// A fold of no element gives back its start value.
pub proof fn lemma_fold_empty<T, B, F: FnMut(B, T) -> B>(f: F, init: B, accs: Seq<B>)
    requires
        is_fold_chain(f, init, Seq::<T>::empty(), accs),
    ensures
        accs.last() == init,
{
}

/// A fold of `xs` followed by `x` is a fold of `xs`, then `f` on its result
/// and `x`.
pub proof fn lemma_fold_snoc<T, B, F: FnMut(B, T) -> B>(f: F, init: B, xs: Seq<T>, x: T, accs: Seq<B>)
    requires
        is_fold_chain(f, init, xs.push(x), accs),
    ensures
        is_fold_chain(f, init, xs, accs.drop_last()),
        call_ensures(f, (accs.drop_last().last(), x), accs.last()),
{
    let n = xs.len() as int;
    assert(xs.push(x)[n] == x);
    assert(call_ensures(f, (accs[n], xs.push(x)[n]), accs[n + 1]));
    assert forall|i: int| 0 < i <= xs.len() implies call_ensures(
        f,
        (accs.drop_last()[i - 1], xs[i - 1]),
        #[trigger] accs.drop_last()[i],
    ) by {
        assert(xs.push(x)[i - 1] == xs[i - 1]);
        assert(call_ensures(f, (accs[i - 1], xs.push(x)[i - 1]), accs[i]));
    }
}

/// Composes two functions: the returned closure applies `f`, then `g` to
/// what `f` gave; `g` need only accept what `f` may give.
pub fn compose_two<A, B, C, G, F>(f: F, g: G) -> (r: impl FnOnce(A) -> C)
    where
        F: FnOnce(A) -> B,
        G: FnOnce(B) -> C,
    requires
        forall|a: A, b: B| call_ensures(f, (a,), b) ==> call_requires(g, (b,)),
    ensures
        forall|a: A| call_requires(f, (a,)) ==> call_requires(r, (a,)),
        forall|a: A, c: C|
            call_ensures(r, (a,), c) ==> exists|b: B|
                call_ensures(f, (a,), b) && call_ensures(g, (b,), c),
{
    move |input: A| -> (c: C)
        requires
            call_requires(f, (input,)),
            forall|b: B| call_ensures(f, (input,), b) ==> call_requires(g, (b,)),
        ensures
            exists|b: B| call_ensures(f, (input,), b) && call_ensures(g, (b,), c),
        {
            let mid = f(input);
            g(mid)
        }
}

/// Maps `f` over every element of `v`, in order.
pub fn map<T, B>(f: impl FnMut(T) -> B, v: Vec<T>) -> (r: Vec<B>)
    requires
        forall|i: int| 0 <= i < v.len() ==> call_requires(f, (v[i],)),
    ensures
        r.len() == v.len(),
        forall|i: int| 0 <= i < v.len() ==> call_ensures(f, (v[i],), #[trigger] r[i]),
{
    let ghost f0 = f;
    let mut f = f;
    let ghost elems = v@;
    let mut out: Vec<B> = Vec::new();
    for x in it: v.into_iter()
        invariant
            it.seq() == elems,
            f == f0,
            out.len() == it.index(),
            forall|i: int| 0 <= i < elems.len() ==> call_requires(f, (elems[i],)),
            forall|i: int| 0 <= i < out.len() ==> call_ensures(f, (elems[i],), #[trigger] out[i]),
    {
        let y = f(x);
        out.push(y);
    }
    out
}

/// Keeps the elements of `v` for which `f` returns `true`, in order.
pub fn filter<'r, T: 'r>(f: impl FnMut(&T) -> bool, v: Vec<T>) -> (r: Vec<T>)
    requires
        forall|i: int| 0 <= i < v.len() ==> call_requires(f, (&v[i],)),
    ensures
        exists|keep: Seq<bool>|
            {
                &&& keep.len() == v.len()
                &&& forall|i: int| 0 <= i < v.len() ==> call_ensures(f, (&v[i],), #[trigger] keep[i])
                &&& r@ == kept(v@, keep)
            },
{
    let ghost f0 = f;
    let mut f = f;
    let ghost elems = v@;
    let ghost mut keep: Seq<bool> = Seq::empty();
    let mut out: Vec<T> = Vec::new();
    for x in it: v.into_iter()
        invariant
            it.seq() == elems,
            f == f0,
            keep.len() == it.index(),
            forall|i: int| 0 <= i < elems.len() ==> call_requires(f, (&elems[i],)),
            forall|i: int| 0 <= i < keep.len() ==> call_ensures(f, (&elems[i],), #[trigger] keep[i]),
            out@ == kept(elems.take(it.index() as int), keep),
    {
        let ghost k = it.index() as int;
        let b = f(&x);
        proof {
            assert(elems.take(k + 1).drop_last() =~= elems.take(k));
            assert(keep.push(b).drop_last() =~= keep);
        }
        if b {
            out.push(x);
        }
        proof {
            keep = keep.push(b);
        }
    }
    proof {
        assert(elems.take(elems.len() as int) =~= elems);
    }
    out
}

/// Left fold of `v` with `f`, starting from `initial`.
pub fn foldl<T, B>(f: impl FnMut(B, T) -> B, initial: B, v: Vec<T>) -> (r: B)
    requires
        forall|acc: B, i: int| 0 <= i < v.len() ==> #[trigger] call_requires(f, (acc, v[i])),
    ensures
        exists|accs: Seq<B>| is_fold_chain(f, initial, v@, accs) && r == accs.last(),
{
    let ghost f0 = f;
    let mut f = f;
    let ghost elems = v@;
    let mut acc = initial;
    let ghost mut accs: Seq<B> = seq![initial];
    for x in it: v.into_iter()
        invariant
            it.seq() == elems,
            f == f0,
            forall|a: B, i: int| 0 <= i < elems.len() ==> #[trigger] call_requires(f, (a, elems[i])),
            is_fold_chain(f, initial, elems.take(it.index() as int), accs),
            acc == accs.last(),
    {
        let ghost k = it.index() as int;
        acc = f(acc, x);
        proof {
            let next = accs.push(acc);
            assert forall|i: int| 0 < i <= k + 1 implies call_ensures(
                f,
                (next[i - 1], elems.take(k + 1)[i - 1]),
                #[trigger] next[i],
            ) by {
                if i < k + 1 {
                    assert(elems.take(k + 1)[i - 1] == elems.take(k)[i - 1]);
                }
            }
            accs = next;
        }
    }
    proof {
        assert(elems.take(elems.len() as int) =~= elems);
    }
    acc
}

/// Right fold of `v` with `f`, starting from `initial`: the elements are
/// taken from the last to the first.
pub fn foldr<T, B>(f: impl FnMut(B, T) -> B, initial: B, v: Vec<T>) -> (r: B)
    requires
        forall|acc: B, i: int| 0 <= i < v.len() ==> #[trigger] call_requires(f, (acc, v[i])),
    ensures
        exists|accs: Seq<B>| is_fold_chain(f, initial, v@.reverse(), accs) && r == accs.last(),
{
    let ghost f0 = f;
    let mut f = f;
    let ghost elems = v@;
    let ghost rev = v@.reverse();
    let mut v = v;
    let mut acc = initial;
    let ghost mut accs: Seq<B> = seq![initial];
    while v.len() > 0
        invariant
            f == f0,
            v@ == elems.take(v.len() as int),
            v.len() <= elems.len(),
            rev == elems.reverse(),
            forall|a: B, i: int| 0 <= i < elems.len() ==> #[trigger] call_requires(f, (a, elems[i])),
            is_fold_chain(f, initial, rev.take(elems.len() - v.len()), accs),
            acc == accs.last(),
        decreases v.len(),
    {
        let ghost k = elems.len() - v.len();
        let x = v.pop().unwrap();
        assert(x == elems[elems.len() - 1 - k]);
        assert(rev[k] == x);
        acc = f(acc, x);
        proof {
            let next = accs.push(acc);
            assert forall|i: int| 0 < i <= k + 1 implies call_ensures(
                f,
                (next[i - 1], rev.take(k + 1)[i - 1]),
                #[trigger] next[i],
            ) by {
                if i < k + 1 {
                    assert(rev.take(k + 1)[i - 1] == rev.take(k)[i - 1]);
                }
            }
            accs = next;
            assert(v@ =~= elems.take(v.len() as int));
        }
    }
    proof {
        assert(rev.take(elems.len() as int) =~= rev);
    }
    acc
}

/// Reverses `v`.
pub fn reverse<T>(v: Vec<T>) -> (r: Vec<T>)
    ensures
        r@ == v@.reverse(),
{
    let ghost elems = v@;
    let mut v = v;
    let mut out: Vec<T> = Vec::new();
    while v.len() > 0
        invariant
            v.len() <= elems.len(),
            v@ == elems.take(v.len() as int),
            out@ == elems.reverse().take(elems.len() - v.len()),
        decreases v.len(),
    {
        let ghost k = elems.len() - v.len();
        let x = v.pop().unwrap();
        out.push(x);
        proof {
            assert(v@ =~= elems.take(v.len() as int));
            assert(out@ =~= elems.reverse().take(k + 1));
        }
    }
    proof {
        assert(elems.reverse().take(elems.len() as int) =~= elems.reverse());
    }
    out
}

/// Reversing twice gives back the sequence itself.
pub proof fn lemma_reverse_involutive<T>(s: Seq<T>)
    ensures
        s.reverse().reverse() == s,
{
    assert(s.reverse().reverse() =~= s);
}

/// Returns whether some element of `v` equals `x`.
pub fn contains<T: PartialEq>(x: &T, v: Vec<T>) -> (r: bool)
    ensures
        r ==> exists|i: int| 0 <= i < v.len() && call_ensures(T::eq, (&v[i], x), true),
        !r ==> forall|i: int| 0 <= i < v.len() ==> call_ensures(T::eq, (&v[i], x), false),
        T::obeys_eq_spec() ==> (r <==> exists|i: int| 0 <= i < v.len() && v[i].eq_spec(x)),
{
    let mut i: usize = 0;
    while i < v.len()
        invariant
            i <= v.len(),
            forall|j: int| 0 <= j < i ==> call_ensures(T::eq, (&v[j], x), false),
            T::obeys_eq_spec() ==> forall|j: int| 0 <= j < i ==> !v[j].eq_spec(x),
        decreases v.len() - i,
    {
        if v[i] == *x {
            return true;
        }
        i = i + 1;
    }
    false
}

/// ECMAScript-like `reduce` for iterators.
pub trait Reduce<T>: Iterator<Item = T> {
    /// The items the iterator will give.
    spec fn items(&self) -> Seq<T>;

    /// Folds the items pairwise with `f`, from the first one; `None` when
    /// there is no item.
    fn reduce<F>(self, f: F) -> (r: Option<T>)
        where
            Self: Sized,
            F: FnMut(T, T) -> T,
        requires
            IteratorSpec::initial_value_relation(&self, &self),
            forall|a: T, b: T| call_requires(f, (a, b)),
        ensures
            self.items().len() == 0 ==> r is None,
            self.items().len() > 0 ==> r is Some && exists|accs: Seq<T>|
                is_fold_chain(f, self.items()[0], self.items().skip(1), accs) && r->0 == accs.last(),
    ;
}

impl<T> Reduce<T> for std::vec::IntoIter<T> {
    open spec fn items(&self) -> Seq<T> {
        into_iter_elts(*self)
    }

    fn reduce<F>(self, f: F) -> (r: Option<T>)
        where
            Self: Sized,
            F: FnMut(T, T) -> T,
    {
        reduce_items(f, self)
    }
}

/// Reduces `v` with `f`: `None` when `v` is empty, else the left fold of the
/// rest of `v` from its first element.
pub fn reduce<'r, T: 'r>(f: impl FnMut(T, T) -> T, v: Vec<T>) -> (r: Option<T>)
    requires
        forall|a: T, i: int| 0 < i < v.len() ==> #[trigger] call_requires(f, (a, v[i])),
    ensures
        v.len() == 0 ==> r is None,
        v.len() > 0 ==> r is Some && exists|accs: Seq<T>|
            is_fold_chain(f, v[0], v@.skip(1), accs) && r->0 == accs.last(),
{
    let ghost v0 = v;
    let items = v.into_iter();
    proof {
        vstd::std_specs::vec::axiom_spec_into_iter(v0);
    }
    reduce_items(f, items)
}

/// Folds the items of `items` pairwise with `f`, from the first one.
fn reduce_items<T, F: FnMut(T, T) -> T>(f: F, items: std::vec::IntoIter<T>) -> (r: Option<T>)
    requires
        IteratorSpec::initial_value_relation(&items, &items),
        forall|a: T, i: int| 0 < i < into_iter_elts(items).len() ==> #[trigger] call_requires(f, (a, into_iter_elts(items)[i])),
    ensures
        into_iter_elts(items).len() == 0 ==> r is None,
        into_iter_elts(items).len() > 0 ==> r is Some && exists|accs: Seq<T>|
            is_fold_chain(f, into_iter_elts(items)[0], into_iter_elts(items).skip(1), accs) && r->0 == accs.last(),
{
    let ghost f0 = f;
    let mut f = f;
    let ghost elems = into_iter_elts(items);
    let mut acc: Option<T> = None;
    let ghost mut accs: Seq<T> = Seq::empty();
    let mut w = VerusForLoopWrapper::new(items, Ghost(Some(&items)));
    loop
        invariant_except_break
            w.wf(),
            w.seq() == elems,
            0 <= w.index() <= elems.len(),
            f == f0,
            forall|a: T, i: int| 0 < i < elems.len() ==> #[trigger] call_requires(f, (a, elems[i])),
            w.index() == 0 ==> acc is None,
            w.index() > 0 ==> acc is Some && is_fold_chain(
                f,
                elems[0],
                elems.take(w.index()).skip(1),
                accs,
            ) && acc->0 == accs.last(),
        ensures
            w.index() == elems.len(),
            f == f0,
            elems.len() == 0 ==> acc is None,
            elems.len() > 0 ==> acc is Some && is_fold_chain(
                f,
                elems[0],
                elems.take(elems.len() as int).skip(1),
                accs,
            ) && acc->0 == accs.last(),
        decreases elems.len() - w.index(),
    {
        let ghost k = w.index();
        let next = w.next();
        let x = match next {
            Some(x) => x,
            None => {
                break;
            },
        };
        acc = match acc {
            None => {
                proof {
                    accs = seq![x];
                    assert(elems.take(1).skip(1) =~= Seq::<T>::empty());
                }
                Some(x)
            },
            Some(a) => {
                let y = f(a, x);
                proof {
                    let next = accs.push(y);
                    let xs = elems.take(k + 1).skip(1);
                    assert forall|i: int| 0 < i <= xs.len() implies call_ensures(
                        f,
                        (next[i - 1], xs[i - 1]),
                        #[trigger] next[i],
                    ) by {
                        if i < xs.len() {
                            assert(xs[i - 1] == elems.take(k).skip(1)[i - 1]);
                        }
                    }
                    accs = next;
                }
                Some(y)
            },
        };
    }
    proof {
        assert(elems.take(elems.len() as int) =~= elems);
        if elems.len() > 0 {
            assert(is_fold_chain(f, elems[0], elems.skip(1), accs));
        }
    }
    acc
}

} // verus!
