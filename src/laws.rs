//! How runs of `push` and `pop` combine, stated over the stack's view.
use vstd::prelude::*;
use crate::stack::{after_pop, popped};

verus! {

/// The view after pushing the values of `xs`, first to last, onto a stack
/// whose view is `s`.
pub open spec fn after_pushes<T>(s: Seq<T>, xs: Seq<T>) -> Seq<T>
    decreases xs.len(),
{
    if xs.len() == 0 {
        s
    } else {
        after_pushes(s, xs.drop_last()).push(xs.last())
    }
}

/// What `n` successive calls of `pop` return, in call order, on a stack whose
/// view is `s`.
pub open spec fn pop_results<T>(s: Seq<T>, n: nat) -> Seq<Option<T>>
    decreases n,
{
    if n == 0 {
        Seq::empty()
    } else {
        seq![popped(s)] + pop_results(after_pop(s), (n - 1) as nat)
    }
}

/// The view after `n` successive calls of `pop` on a stack whose view is `s`.
pub open spec fn after_pops<T>(s: Seq<T>, n: nat) -> Seq<T>
    decreases n,
{
    if n == 0 {
        s
    } else {
        after_pops(after_pop(s), (n - 1) as nat)
    }
}

/// Each value of `xs`, in reverse order, as a present result of `pop`.
pub open spec fn reversed_results<T>(xs: Seq<T>) -> Seq<Option<T>> {
    Seq::new(xs.len(), |i: int| Some(xs[xs.len() - 1 - i]))
}

/// Pushing `xs` appends it to the view.
proof fn lemma_after_pushes_appends<T>(s: Seq<T>, xs: Seq<T>)
    ensures
        after_pushes(s, xs) == s + xs,
    decreases xs.len(),
{
    if xs.len() > 0 {
        lemma_after_pushes_appends(s, xs.drop_last());
        assert(s + xs =~= (s + xs.drop_last()).push(xs.last()));
    }
}

/// Popping `k` times from `s + xs`, with `k` at most the length of `xs`,
/// returns the last `k` values of `xs`, newest first, and leaves the rest.
proof fn lemma_pops_from_top<T>(s: Seq<T>, xs: Seq<T>, k: nat)
    requires
        k <= xs.len(),
    ensures
        pop_results(s + xs, k) == reversed_results(xs.subrange(xs.len() - k, xs.len() as int)),
        after_pops(s + xs, k) == s + xs.subrange(0, xs.len() - k),
    decreases k,
{
    if k == 0 {
        assert(pop_results(s + xs, k) =~= reversed_results(xs.subrange(xs.len() - k, xs.len() as int)));
        assert(xs.subrange(0, xs.len() as int) =~= xs);
    } else {
        let t = s + xs;
        let rest = xs.drop_last();
        assert(t.len() > 0);
        assert(popped(t) == Some(xs.last()));
        assert(after_pop(t) =~= s + rest);
        lemma_pops_from_top(s, rest, (k - 1) as nat);
        assert(rest.subrange(0, rest.len() - (k - 1)) =~= xs.subrange(0, xs.len() - k));
        let top = xs.subrange(xs.len() - k, xs.len() as int);
        let lower = rest.subrange(rest.len() - (k - 1), rest.len() as int);
        assert(pop_results(t, k) =~= seq![Some(xs.last())] + reversed_results(lower));
        assert(seq![Some(xs.last())] + reversed_results(lower) =~= reversed_results(top));
    }
}

/// Popping as many times as values were pushed, with no pop in between,
/// returns those values in reverse order of their pushes and leaves the stack
/// as it was before the pushes.
pub proof fn lemma_pops_reverse_pushes<T>(s: Seq<T>, xs: Seq<T>)
    ensures
        pop_results(after_pushes(s, xs), xs.len()) == reversed_results(xs),
        after_pops(after_pushes(s, xs), xs.len()) == s,
{
    lemma_after_pushes_appends(s, xs);
    lemma_pops_from_top(s, xs, xs.len());
    assert(xs.subrange(0, xs.len() as int) =~= xs);
    assert(xs.subrange(0, 0) =~= Seq::<T>::empty());
    assert(s + Seq::<T>::empty() =~= s);
}

/// Every pop on an empty stack, however many are made, returns `None` and
/// leaves the stack empty.
pub proof fn lemma_pops_on_empty<T>(n: nat)
    ensures
        pop_results(Seq::<T>::empty(), n) == Seq::new(n, |i: int| None::<T>),
        after_pops(Seq::<T>::empty(), n) == Seq::<T>::empty(),
    decreases n,
{
    if n > 0 {
        lemma_pops_on_empty::<T>((n - 1) as nat);
        assert(pop_results(Seq::<T>::empty(), n) =~= Seq::new(n, |i: int| None::<T>));
    }
}

/// A push followed at once by a pop returns the pushed value and restores
/// the stack's view, hence every later pop result.
pub proof fn lemma_push_then_pop<T>(s: Seq<T>, x: T)
    ensures
        popped(s.push(x)) == Some(x),
        after_pop(s.push(x)) == s,
{
    assert(s.push(x).drop_last() =~= s);
}

/// After `xs.len()` pushes onto a new stack and then `m` pops, with `m` at
/// most the number of pushes, exactly `xs.len() - m` values remain: the
/// earliest ones pushed, which further pops return newest first.
pub proof fn lemma_pushes_then_pops_depth<T>(xs: Seq<T>, m: nat)
    requires
        m <= xs.len(),
    ensures
        after_pops(after_pushes(Seq::empty(), xs), m).len() == xs.len() - m,
        after_pops(after_pushes(Seq::empty(), xs), m) == xs.subrange(0, xs.len() - m),
        pop_results(after_pops(after_pushes(Seq::empty(), xs), m), (xs.len() - m) as nat)
            == reversed_results(xs.subrange(0, xs.len() - m)),
{
    let e = Seq::<T>::empty();
    lemma_after_pushes_appends(e, xs);
    assert(e + xs =~= xs);
    lemma_pops_from_top(e, xs, m);
    let rest = xs.subrange(0, xs.len() - m);
    assert(e + rest =~= rest);
    lemma_pops_from_top(e, rest, rest.len());
    assert(rest.subrange(0, rest.len() as int) =~= rest);
}

} // verus!
