use vstd::pervasive::cloned;
use vstd::prelude::*;

verus! {

/// One link of the chain: the element it carries and the rest of the chain
/// below it. A node owns its tail outright, so the chain is a simple path
/// with a single owner for every link.
#[derive(Debug)]
pub(crate) struct Node<T> {
    pub(crate) item: T,
    pub(crate) next: Stack<T>,
}

/// A last-in-first-out stack: a singly-linked chain of nodes owned from the
/// head, which is the top of the stack.
///
/// The abstract view (`self@`) is a `Seq<T>` holding the elements from top
/// to bottom, so `self@[0]` is the element a `pop` would return.
#[derive(Debug)]
pub struct Stack<T> {
    pub(crate) head: Option<Box<Node<T>>>,
}

/// What pushing `v` onto a stack holding `s` leaves behind: `v` on top of `s`.
pub open spec fn spec_push<T>(s: Seq<T>, v: T) -> Seq<T> {
    seq![v] + s
}

/// What popping a stack holding `s` produces: the top element and the rest,
/// or no value and the same empty stack when there is nothing to remove.
pub open spec fn spec_pop<T>(s: Seq<T>) -> (Option<T>, Seq<T>) {
    if s.len() == 0 {
        (None, s)
    } else {
        (Some(s[0]), s.drop_first())
    }
}

impl<T> Stack<T> {
    /// The elements of the chain, top first.
    pub closed spec fn as_seq(self) -> Seq<T>
        decreases self,
    {
        match self.head {
            None => Seq::empty(),
            Some(node) => seq![node.item] + node.next.as_seq(),
        }
    }
}

impl<T> Stack<T> {
    /// Unfolds one step of the view: an empty chain views as the empty
    /// sequence, and a chain views as its head element followed by the view
    /// of its tail.
    pub(crate) proof fn lemma_view_unfold(self)
        ensures
            self.head is None ==> self.as_seq() == Seq::<T>::empty(),
            self.head matches Some(node) ==> self.as_seq() == seq![node.item]
                + node.next.as_seq(),
    {
    }
}

impl<T> View for Stack<T> {
    type V = Seq<T>;

    open spec fn view(&self) -> Seq<T> {
        self.as_seq()
    }
}

impl<T> Stack<T> {
    /// An empty stack.
    pub fn new() -> (s: Self)
        ensures
            s@ == Seq::<T>::empty(),
    {
        Stack { head: None }
    }

    /// Places `item` on top of the stack; every element already present ends
    /// up one position further down.
    pub fn push(&mut self, item: T)
        ensures
            final(self)@ == spec_push(old(self)@, item),
    {
        let next = Stack { head: self.head.take() };
        self.head = Some(Box::new(Node { item, next }));
    }

    /// Removes and returns the most recently pushed element not yet removed;
    /// an empty stack signals the absence of a value and stays as it is.
    pub fn pop(&mut self) -> (r: Option<T>)
        ensures
            r == spec_pop(old(self)@).0,
            final(self)@ == spec_pop(old(self)@).1,
    {
        match self.head.take() {
            None => None,
            Some(node) => {
                let mut node = *node;
                self.head = node.next.head.take();
                Some(node.item)
            }
        }
    }

    /// A read-only reference to the top element, or no value when the stack
    /// is empty. The stack itself is left untouched.
    pub fn peek(&self) -> (r: Option<&T>)
        ensures
            self@.len() == 0 ==> r is None,
            self@.len() > 0 ==> (r matches Some(t) && *t == self@[0]),
    {
        match &self.head {
            None => None,
            Some(node) => Some(&node.item),
        }
    }

    /// An exclusive reference to the top element, or no value when the stack
    /// is empty. Writing through the reference replaces the top element in
    /// place; nothing else about the stack changes.
    pub fn peek_mut(&mut self) -> (r: Option<&mut T>)
        ensures
            old(self)@.len() == 0 ==> r is None && final(self)@ == old(self)@,
            old(self)@.len() > 0 ==> r is Some && *r.unwrap() == old(self)@[0]
                && final(self)@ == old(self)@.update(0, *final(r.unwrap())),
    {
        match &mut self.head {
            None => None,
            Some(node) => Some(&mut node.item),
        }
    }
}

impl<T: Clone> Stack<T> {
    /// Copies the chain node by node, cloning each element in place.
    fn clone_chain(&self) -> (res: Stack<T>)
        ensures
            res@.len() == self@.len(),
            forall|i: int|
                0 <= i < self@.len() ==> cloned::<T>(self@[i], #[trigger] res@[i]),
        decreases self,
    {
        proof {
            (*self).lemma_view_unfold();
        }
        match &self.head {
            None => Stack { head: None },
            Some(node) => {
                let item = node.item.clone();
                let rest = node.next.clone_chain();
                let res = Stack { head: Some(Box::new(Node { item, next: rest })) };
                proof {
                    res.lemma_view_unfold();
                    assert forall|i: int| 0 <= i < self@.len() implies cloned::<T>(
                        self@[i],
                        #[trigger] res@[i],
                    ) by {
                        if i > 0 {
                            assert(self@[i] == node.next@[i - 1]);
                            assert(res@[i] == rest@[i - 1]);
                        }
                    }
                }
                res
            }
        }
    }
}

impl<T: Clone> Clone for Stack<T> {
    /// A structural copy of the stack: the same number of elements, and the
    /// element at each position is a clone of the original at that position.
    fn clone(&self) -> (res: Self)
        ensures
            res@.len() == self@.len(),
            forall|i: int|
                0 <= i < self@.len() ==> cloned::<T>(self@[i], #[trigger] res@[i]),
    {
        self.clone_chain()
    }
}

impl<T> Default for Stack<T> {
    /// The default stack is the empty one.
    fn default() -> (s: Self)
        ensures
            s@ == Seq::<T>::empty(),
    {
        Stack { head: None }
    }
}

impl<T> Drop for Stack<T> {
    /// Tears the chain down iteratively from the head. Each node's tail is
    /// detached before the node itself is freed, so the implicit drop of a
    /// node never recurses into the rest of the chain and the teardown runs
    /// in constant call-stack depth however long the chain is.
    fn drop(&mut self)
        opens_invariants none
        no_unwind
    {
        let mut cur: Option<Box<Node<T>>> = None;
        core::mem::swap(&mut cur, &mut self.head);
        loop
            decreases cur,
        {
            match cur {
                None => {
                    break;
                }
                Some(node) => {
                    let mut node = *node;
                    cur = None;
                    core::mem::swap(&mut cur, &mut node.next.head);
                }
            }
        }
    }
}

} // verus!
