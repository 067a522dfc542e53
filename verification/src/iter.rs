use vstd::prelude::*;

use crate::stack::spec_pop;
use crate::stack::Stack;

verus! {

/// Consuming traversal: owns the stack it drains and yields the elements by
/// value, top to bottom, which is the reverse of the order they were pushed.
pub struct IntoIter<T> {
    stack: Stack<T>,
}

impl<T> IntoIter<T> {
    /// The elements not yet produced, top first.
    pub closed spec fn remaining(self) -> Seq<T> {
        self.stack@
    }

    /// Produces the next element by popping the owned stack; signals
    /// exhaustion once the stack is empty, and keeps doing so thereafter.
    pub fn next(&mut self) -> (r: Option<T>)
        ensures
            r == spec_pop(old(self).remaining()).0,
            final(self).remaining() == spec_pop(old(self).remaining()).1,
    {
        self.stack.pop()
    }
}

/// Read-only traversal: a cursor into the chain that visits the elements
/// top to bottom without changing anything. Any number of these may walk
/// the same stack at once.
pub struct Iter<'a, T> {
    cur: &'a Stack<T>,
}

impl<'a, T> Iter<'a, T> {
    /// The elements not yet visited, top first.
    pub closed spec fn remaining(self) -> Seq<T> {
        self.cur@
    }

    /// Yields a reference to the next element and steps past it; signals
    /// exhaustion once every element has been visited.
    pub fn next(&mut self) -> (r: Option<&'a T>)
        ensures
            old(self).remaining().len() == 0 ==> r is None
                && final(self).remaining() == old(self).remaining(),
            old(self).remaining().len() > 0 ==> (r matches Some(t)
                && *t == old(self).remaining()[0])
                && final(self).remaining() == old(self).remaining().drop_first(),
    {
        proof {
            (*self.cur).lemma_view_unfold();
        }
        match &self.cur.head {
            None => None,
            Some(node) => {
                proof {
                    assert((seq![node.item] + node.next@).drop_first() =~= node.next@);
                }
                self.cur = &node.next;
                Some(&node.item)
            }
        }
    }
}

/// Mutably-borrowing traversal: yields an exclusive reference to each
/// element, top to bottom. While it lives it is the only way into the
/// stack, and whatever the caller writes through a yielded reference stays
/// in the chain after the traversal ends.
pub struct IterMut<'a, T> {
    cur: Option<&'a mut Stack<T>>,
}

impl<'a, T> IterMut<'a, T> {
    /// The cursor: exclusive access to the part of the chain not yet
    /// visited, or nothing once the traversal is exhausted.
    pub closed spec fn cursor(self) -> Option<&'a mut Stack<T>> {
        self.cur
    }

    /// The elements not yet visited, top first, as they stand right now.
    pub open spec fn remaining(self) -> Seq<T> {
        match self.cursor() {
            None => Seq::empty(),
            Some(rest) => (*rest)@,
        }
    }

    /// Yields an exclusive reference to the next element and steps past it;
    /// signals exhaustion once every element has been visited. The last
    /// clause of each case pins the traversed chain to whatever the caller
    /// finally leaves behind through the yielded reference.
    pub fn next(&mut self) -> (r: Option<&'a mut T>)
        ensures
            old(self).remaining().len() == 0 ==> r is None
                && final(self).cursor() is None
                && (old(self).cursor() is Some
                    ==> (*final(old(self).cursor().unwrap()))@ == Seq::<T>::empty()),
            old(self).remaining().len() > 0 ==> r is Some
                && *r.unwrap() == old(self).remaining()[0]
                && final(self).cursor() is Some
                && final(self).remaining() == old(self).remaining().drop_first()
                && (*final(old(self).cursor().unwrap()))@ == seq![*final(r.unwrap())]
                    + (*final(final(self).cursor().unwrap()))@,
    {
        match self.cur.take() {
            None => None,
            Some(rest) => {
                proof {
                    (*rest).lemma_view_unfold();
                }
                match &mut rest.head {
                    None => None,
                    Some(node) => {
                        let node = &mut **node;
                        let item_ref = &mut node.item;
                        let next_ref = &mut node.next;
                        proof {
                            (*final(old(self).cursor().unwrap())).lemma_view_unfold();
                            assert((seq![*item_ref] + (*next_ref)@).drop_first()
                                =~= (*next_ref)@);
                        }
                        self.cur = Some(next_ref);
                        Some(item_ref)
                    }
                }
            }
        }
    }
}

impl<T> Stack<T> {
    /// Hands the stack over to a consuming cursor that drains it top to
    /// bottom.
    pub fn into_iter(self) -> (it: IntoIter<T>)
        ensures
            it.remaining() == self@,
    {
        IntoIter { stack: self }
    }

    /// A fresh read-only cursor positioned at the top of the stack. Starting
    /// another one later visits the same elements again.
    pub fn iter<'a>(&'a self) -> (it: Iter<'a, T>)
        ensures
            it.remaining() == self@,
    {
        Iter { cur: self }
    }

    /// A mutating cursor positioned at the top of the stack. It takes the
    /// one exclusive borrow of the stack, so no other access can coexist
    /// with it; once it is gone, the stack holds exactly what the traversal
    /// left behind.
    pub fn iter_mut<'a>(&'a mut self) -> (it: IterMut<'a, T>)
        ensures
            it.cursor() is Some,
            it.remaining() == old(self)@,
            (*final(it.cursor().unwrap()))@ == final(self)@,
    {
        IterMut { cur: Some(self) }
    }
}

} // verus!
