use vstd::prelude::*;

verus! {

/// A stack of values of type `T`.
///
/// Its view is the sequence of the values that were pushed and not yet
/// popped, oldest first: the top of the stack is the last element.
pub struct Stack<T> {
    /// `None` when the stack is empty.
    contents: Option<StackElements<T>>,
}

/// A non-empty chain of nodes: the top value and what lies under it.
struct StackElements<T> {
    head: T,
    tail: Box<Option<StackElements<T>>>,
}

/// The values held by a chain, the deepest first and its head last.
spec fn chain_view<T>(chain: Option<StackElements<T>>) -> Seq<T>
    decreases chain,
{
    match chain {
        None => Seq::empty(),
        Some(node) => chain_view(*node.tail).push(node.head),
    }
}

/// What `pop` returns on a stack whose view is `s`: its last element, or
/// `None` when `s` is empty.
pub open spec fn popped<T>(s: Seq<T>) -> Option<T> {
    if s.len() == 0 {
        None
    } else {
        Some(s.last())
    }
}

/// The view that `pop` leaves behind on a stack whose view is `s`: `s` without
/// its last element, or `s` itself when it is empty.
pub open spec fn after_pop<T>(s: Seq<T>) -> Seq<T> {
    if s.len() == 0 {
        s
    } else {
        s.drop_last()
    }
}

impl<T> View for Stack<T> {
    type V = Seq<T>;

    closed spec fn view(&self) -> Seq<T> {
        chain_view(self.contents)
    }
}

impl<T> Stack<T> {
    /// An empty stack.
    pub fn new() -> (s: Stack<T>)
        ensures
            s@ == Seq::<T>::empty(),
    {
        Stack { contents: None }
    }

    /// Puts `element` on top of the stack.
    pub fn push(&mut self, element: T)
        ensures
            final(self)@ == old(self)@.push(element),
    {
        let below = self.contents.take();
        self.contents = Some(StackElements { head: element, tail: Box::new(below) });
    }

    /// Takes the most recently pushed value that is still on the stack, or
    /// returns `None`, leaving the stack as it was, when it is empty.
    pub fn pop(&mut self) -> (r: Option<T>)
        ensures
            r == popped(old(self)@),
            final(self)@ == after_pop(old(self)@),
    {
        match self.contents.take() {
            Some(node) => {
                self.contents = *node.tail;
                Some(node.head)
            },
            None => None,
        }
    }
}

impl<T> Drop for Stack<T> {
    /// Releases the chain one node at a time, so that dropping a deep stack
    /// does not recurse once per node.
    fn drop(&mut self)
        opens_invariants none
        no_unwind
    {
        loop
            decreases chain_view(self.contents).len(),
        {
            let mut top: Option<StackElements<T>> = None;
            std::mem::swap(&mut self.contents, &mut top);
            match top {
                Some(node) => {
                    self.contents = *node.tail;
                },
                None => {
                    break;
                },
            }
        }
    }
}

} // verus!
