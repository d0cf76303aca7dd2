//! Two verified last-in-first-out stacks of machine integers: one backed by a
//! chain of singly owned nodes, one by a contiguous growable buffer. Both
//! expose the same operations with the same `EmptyStack` failure condition,
//! and both are specified against the same abstract model: the sequence of
//! held elements, topmost first.

use vstd::prelude::*;

pub mod array;
pub mod linked;

verus! {

/// The single failure condition of the library: removal or inspection was
/// attempted on a stack holding no elements. It is always recoverable by the
/// caller and never aborts the process.
#[derive(Clone, Copy, Debug, PartialEq, Eq)]
pub enum StackError {
    EmptyStack,
}

/// The contents of a stack, topmost element first, after pushing the elements
/// of `values` in order (first element first) onto a stack whose contents
/// were `start`.
pub open spec fn push_all(start: Seq<isize>, values: Seq<isize>) -> Seq<isize>
    decreases values.len(),
{
    if values.len() == 0 {
        start
    } else {
        seq![values.last()] + push_all(start, values.drop_last())
    }
}

/// The contents of a stack after `count` removals from contents `s`: each
/// removal discards the topmost element.
pub open spec fn popped(s: Seq<isize>, count: int) -> Seq<isize>
    decreases count,
{
    if count <= 0 {
        s
    } else {
        popped(s, count - 1).drop_first()
    }
}

/// LIFO law: pushing `v1 .. vn` onto contents `start` leaves the stack
/// holding `vn, .., v1` above `start`, so the pushed elements come back out
/// in exactly the reverse order of insertion.
pub proof fn lemma_lifo_order(start: Seq<isize>, values: Seq<isize>)
    ensures
        push_all(start, values) == values.reverse() + start,
    decreases values.len(),
{
    if values.len() == 0 {
        assert(values.reverse() + start =~= start);
    } else {
        lemma_lifo_order(start, values.drop_last());
        assert(values.reverse() =~= seq![values.last()] + values.drop_last().reverse());
        assert(seq![values.last()] + (values.drop_last().reverse() + start) =~= (seq![
            values.last(),
        ] + values.drop_last().reverse()) + start);
    }
}

/// LIFO law, element by element: after pushing `v1 .. vn` onto contents
/// `start`, the removal performed when `i` elements have already been removed
/// returns `v(n-i)`; removals therefore return `vn, vn-1, .., v1` in that
/// exact order.
pub proof fn lemma_lifo_pop_order(start: Seq<isize>, values: Seq<isize>, i: int)
    requires
        0 <= i < values.len(),
    ensures
        popped(push_all(start, values), i).first() == values[values.len() - 1 - i],
{
    lemma_lifo_order(start, values);
    lemma_popped_skip(push_all(start, values), i);
}

/// Push/pop identity: a removal immediately after pushing `v` onto contents
/// `s` returns `v` and leaves the contents -- hence the size and the previous
/// top -- exactly as they were before the push.
pub proof fn lemma_push_then_pop(s: Seq<isize>, v: isize)
    ensures
        (seq![v] + s).first() == v,
        (seq![v] + s).drop_first() == s,
{
    assert((seq![v] + s).drop_first() =~= s);
}

/// Size law: after `k` pushes onto an empty stack followed by `j` removals,
/// `j <= k`, exactly `k - j` elements remain.
pub proof fn lemma_size_after_pushes_and_pops(values: Seq<isize>, j: int)
    requires
        0 <= j <= values.len(),
    ensures
        popped(push_all(Seq::empty(), values), j).len() == values.len() - j,
{
    lemma_lifo_order(Seq::empty(), values);
    lemma_popped_skip(push_all(Seq::empty(), values), j);
}

/// `count` removals from contents `s` leave exactly the elements below the
/// first `count`.
proof fn lemma_popped_skip(s: Seq<isize>, count: int)
    requires
        0 <= count <= s.len(),
    ensures
        popped(s, count) == s.skip(count),
    decreases count,
{
    if count == 0 {
        assert(s.skip(0) =~= s);
    } else {
        lemma_popped_skip(s, count - 1);
        assert(s.skip(count - 1).drop_first() =~= s.skip(count));
    }
}

} // verus!
