use vstd::prelude::*;

use crate::stack::spec_pop;
use crate::stack::spec_push;

verus! {

/// The stack contents after pushing the values of `vs`, in order, onto a
/// stack holding `s`.
pub open spec fn push_all<T>(s: Seq<T>, vs: Seq<T>) -> Seq<T>
    decreases vs.len(),
{
    if vs.len() == 0 {
        s
    } else {
        push_all(spec_push(s, vs[0]), vs.drop_first())
    }
}

/// The values produced by popping a stack holding `s` until it is empty, in
/// the order they come off.
pub open spec fn pop_all<T>(s: Seq<T>) -> Seq<T>
    decreases s.len(),
{
    if s.len() == 0 {
        Seq::empty()
    } else {
        seq![spec_pop(s).0.unwrap()] + pop_all(spec_pop(s).1)
    }
}

/// The stack contents after a sequence of rounds, each of which pushes one
/// value of `vs` and immediately pops it again.
pub open spec fn push_pop_rounds<T>(s: Seq<T>, vs: Seq<T>) -> Seq<T>
    decreases vs.len(),
{
    if vs.len() == 0 {
        s
    } else {
        push_pop_rounds(spec_pop(spec_push(s, vs[0])).1, vs.drop_first())
    }
}

/// Popping a stack until it is empty hands back exactly its contents, top
/// first.
pub proof fn lemma_pop_all_is_view<T>(s: Seq<T>)
    ensures
        pop_all(s) == s,
    decreases s.len(),
{
    if s.len() == 0 {
        assert(pop_all(s) =~= s);
    } else {
        lemma_pop_all_is_view(s.drop_first());
        assert(pop_all(s) =~= s);
    }
}

/// Pushing the values of `vs`, in order, piles them up in reverse order on
/// top of what was already there.
pub proof fn lemma_push_all_reverse<T>(s: Seq<T>, vs: Seq<T>)
    ensures
        push_all(s, vs) == vs.reverse() + s,
    decreases vs.len(),
{
    if vs.len() == 0 {
        assert(push_all(s, vs) =~= vs.reverse() + s);
    } else {
        lemma_push_all_reverse(spec_push(s, vs[0]), vs.drop_first());
        assert(vs.drop_first().reverse() + (seq![vs[0]] + s) =~= vs.reverse() + s);
    }
}

/// Last in, first out: pushing values onto an empty stack in order and then
/// popping until empty yields them in reverse push order — the last value
/// pushed comes off first, the first value pushed comes off last.
pub proof fn lemma_lifo_order<T>(vs: Seq<T>)
    ensures
        pop_all(push_all(Seq::empty(), vs)) == vs.reverse(),
{
    lemma_push_all_reverse(Seq::empty(), vs);
    lemma_pop_all_is_view(push_all(Seq::empty(), vs));
    assert(vs.reverse() + Seq::<T>::empty() =~= vs.reverse());
}

/// Popping an empty stack yields no value and leaves the stack exactly as it
/// was, so repeated pops of an empty stack all yield the empty signal and
/// never have a side effect.
pub proof fn lemma_pop_empty<T>(s: Seq<T>)
    requires
        s.len() == 0,
    ensures
        spec_pop(s).0 is None,
        spec_pop(s).1 == s,
{
}

/// Round trip: popping immediately after a push hands the pushed value back
/// and leaves the stack exactly as it was before the push.
pub proof fn lemma_push_then_pop<T>(s: Seq<T>, v: T)
    ensures
        spec_pop(spec_push(s, v)).0 == Some(v),
        spec_pop(spec_push(s, v)).1 == s,
{
    assert(spec_pop(spec_push(s, v)).1 =~= s);
}

/// Repeating push-then-pop any number of times leaves the stack it started
/// with; a stack that starts empty is empty again, with length zero.
pub proof fn lemma_push_pop_rounds_identity<T>(s: Seq<T>, vs: Seq<T>)
    ensures
        push_pop_rounds(s, vs) == s,
    decreases vs.len(),
{
    if vs.len() == 0 {
    } else {
        lemma_push_then_pop(s, vs[0]);
        lemma_push_pop_rounds_identity(s, vs.drop_first());
    }
}

} // verus!
