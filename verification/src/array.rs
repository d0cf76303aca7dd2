//! LIFO stack backed by a single contiguous growable buffer. Elements sit in
//! push order, the topmost in the last occupied slot; the size is derived
//! from the buffer length, so there is no second counter to keep in step.

use crate::StackError;
use vstd::prelude::*;

verus! {

/// A LIFO stack of machine integers held in one exclusively owned buffer.
pub struct Stack {
    elements: Vec<isize>,
}

impl View for Stack {
    type V = Seq<isize>;

    /// The elements currently held, topmost first: the buffer keeps them in
    /// push order, so the abstract contents are the buffer reversed.
    closed spec fn view(&self) -> Seq<isize> {
        self.elements@.reverse()
    }
}

impl Stack {
    /// A new stack with no elements and size 0.
    pub fn create() -> (s: Stack)
        ensures
            s@ == Seq::<isize>::empty(),
    {
        Stack { elements: Vec::new() }
    }

    /// Pushes `insert_element`: appended at the end of the buffer, it becomes
    /// the new top. Every element already held stays, one place further from
    /// the top.
    pub fn push(&mut self, insert_element: isize)
        ensures
            final(self)@ == seq![insert_element] + old(self)@,
    {
        self.elements.push(insert_element);
        proof {
            let e = old(self).elements@;
            assert(e.push(insert_element).reverse() =~= seq![insert_element] + e.reverse());
        }
    }

    /// Removes and returns the last element of the buffer, the topmost of the
    /// stack. On an empty stack nothing changes and `EmptyStack` is reported.
    pub fn pop(&mut self) -> (r: Result<isize, StackError>)
        ensures
            old(self)@.len() == 0 ==> r == Err::<isize, StackError>(StackError::EmptyStack)
                && final(self)@ == old(self)@,
            old(self)@.len() > 0 ==> r == Ok::<isize, StackError>(old(self)@.first())
                && final(self)@ == old(self)@.drop_first(),
    {
        match self.elements.pop() {
            Option::Some(x) => {
                proof {
                    let e = old(self).elements@;
                    assert(self.elements@ =~= e.subrange(0, e.len() - 1));
                    assert(self.elements@.reverse() =~= e.reverse().drop_first());
                }
                Ok(x)
            },
            Option::None => Err(StackError::EmptyStack),
        }
    }

    /// Reads the last occupied slot, the topmost element, without removing
    /// it; `EmptyStack` on an empty buffer. Emptiness is checked before any
    /// access, so no out-of-bounds read can occur.
    pub fn top(&self) -> (r: Result<isize, StackError>)
        ensures
            self@.len() == 0 ==> r == Err::<isize, StackError>(StackError::EmptyStack),
            self@.len() > 0 ==> r == Ok::<isize, StackError>(self@.first()),
    {
        if self.elements.len() == 0 {
            Err(StackError::EmptyStack)
        } else {
            Ok(self.elements[self.elements.len() - 1])
        }
    }

    /// True exactly when the buffer holds no element.
    pub fn is_empty(&self) -> (r: bool)
        ensures
            r <==> self@.len() == 0,
    {
        self.elements.len() == 0
    }

    /// The number of held elements: the buffer length is the single source of
    /// truth, so no separate counter can fall out of step with it.
    pub fn size(&self) -> (r: usize)
        ensures
            r == self@.len(),
    {
        self.elements.len()
    }

    /// A fresh top-to-bottom walk of the buffer, last slot first: returns
    /// every held element, topmost first, without consuming or altering the
    /// stack.
    pub fn enumerate(&self) -> (r: Vec<isize>)
        ensures
            r@ == self@,
    {
        let mut out: Vec<isize> = Vec::new();
        let mut i: usize = self.elements.len();
        while i > 0
            invariant
                i <= self.elements@.len(),
                out@ == self@.take(self.elements@.len() - i),
            decreases i,
        {
            out.push(self.elements[i - 1]);
            i = i - 1;
            proof {
                let e = self.elements@;
                assert(e[i as int] == self@[e.len() - 1 - i]);
                assert(out@ =~= self@.take(e.len() - i));
            }
        }
        proof {
            assert(out@ =~= self@);
        }
        out
    }
}

} // verus!
