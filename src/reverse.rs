//! Reversing a sequence of values by passing them through a [`Stack`].
use vstd::prelude::*;
use crate::stack::Stack;

verus! {

/// Pushes every value of `items`, first to last, onto a new stack, then pops
/// until the stack is empty: the values come back in reverse order.
pub fn reversed<T>(items: Vec<T>) -> (r: Vec<T>)
    ensures
        r@ == items@.reverse(),
{
    let ghost all = items@;
    let ghost n = all.len();
    let mut rest = items;
    let mut stack = Stack::new();
    while rest.len() > 0
        invariant
            stack@ + rest@ == all,
        decreases rest.len(),
    {
        let x = rest.remove(0);
        stack.push(x);
        assert(stack@ + rest@ =~= all);
    }
    assert(stack@ =~= all) by {
        assert(stack@ + rest@ =~= stack@);
    }
    let mut out: Vec<T> = Vec::new();
    loop
        invariant_except_break
            n == all.len(),
            out@.len() + stack@.len() == n,
            stack@ == all.subrange(0, stack@.len() as int),
            forall|i: int| 0 <= i < out@.len() ==> out@[i] == all[n - 1 - i],
        ensures
            out@.len() == n,
            forall|i: int| 0 <= i < out@.len() ==> out@[i] == all[n - 1 - i],
        decreases stack@.len(),
    {
        match stack.pop() {
            Some(x) => {
                assert(stack@ =~= all.subrange(0, stack@.len() as int));
                out.push(x);
            },
            None => {
                break;
            },
        }
    }
    assert(out@ =~= all.reverse());
    out
}

} // verus!
