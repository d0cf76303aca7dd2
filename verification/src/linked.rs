//! LIFO stack backed by a chain of singly owned nodes. The stack holds only
//! the topmost node and a maintained element count; each node exclusively
//! owns its successor, so ownership forms a strict chain, never a graph.

use crate::StackError;
use vstd::prelude::*;

verus! {

/// One storage unit of the chain: a stored value plus the exclusively owned
/// link to the successor node, `None` at the bottom of the stack.
pub struct StackNode {
    data: isize,
    next: Option<Box<StackNode>>,
}

impl StackNode {
    /// The elements held by the chain hanging from `node`, topmost first.
    pub closed spec fn chain_seq(node: Option<Box<StackNode>>) -> Seq<isize>
        decreases node,
    {
        match node {
            Option::None => Seq::empty(),
            Option::Some(n) => n.as_seq(),
        }
    }

    /// The elements held by this node and its successors, this node's first.
    pub closed spec fn as_seq(self) -> Seq<isize>
        decreases self,
    {
        seq![self.data] + StackNode::chain_seq(self.next)
    }

    /// Builds a node holding `ele` whose successor chain is `next_ele`.
    pub fn create(ele: isize, next_ele: Option<Box<StackNode>>) -> (node: StackNode)
        ensures
            node.as_seq() == seq![ele] + StackNode::chain_seq(next_ele),
    {
        StackNode { data: ele, next: next_ele }
    }
}

/// A LIFO stack of machine integers: a chain of owned nodes reached from the
/// topmost one, plus a counter maintained so that `size` is constant-time.
pub struct Stack {
    top: Option<Box<StackNode>>,
    length: usize,
}

impl View for Stack {
    type V = Seq<isize>;

    /// The elements currently held, topmost first.
    closed spec fn view(&self) -> Seq<isize> {
        StackNode::chain_seq(self.top)
    }
}

impl Stack {
    /// The maintained counter agrees with the number of held elements.
    pub closed spec fn wf(self) -> bool {
        self.length == self@.len()
    }

    /// A new stack with no elements and size 0.
    pub fn create() -> (s: Stack)
        ensures
            s.wf(),
            s@ == Seq::<isize>::empty(),
    {
        Stack { top: Option::None, length: 0 }
    }

    /// True exactly when no top node is held, i.e. when no element is stored.
    pub fn is_empty(&self) -> (r: bool)
        ensures
            r <==> self@.len() == 0,
    {
        self.top.is_none()
    }

    /// Pushes `x`: the new top node holds `x` and owns the former chain.
    /// Every element already held stays, one place further from the top.
    pub fn push(&mut self, x: isize)
        requires
            old(self).wf(),
            old(self)@.len() < usize::MAX,
        ensures
            final(self).wf(),
            final(self)@ == seq![x] + old(self)@,
    {
        self.length = self.length + 1;
        let former_top = self.top.take();
        self.top = Option::Some(Box::new(StackNode::create(x, former_top)));
    }

    /// Removes and returns the topmost element; the detached node's former
    /// successor becomes the new top. On an empty stack nothing changes and
    /// `EmptyStack` is reported.
    pub fn pop(&mut self) -> (r: Result<isize, StackError>)
        requires
            old(self).wf(),
        ensures
            final(self).wf(),
            old(self)@.len() == 0 ==> r == Err::<isize, StackError>(StackError::EmptyStack)
                && final(self)@ == old(self)@,
            old(self)@.len() > 0 ==> r == Ok::<isize, StackError>(old(self)@.first())
                && final(self)@ == old(self)@.drop_first(),
    {
        match self.top.take() {
            Option::None => Err(StackError::EmptyStack),
            Option::Some(x) => {
                self.length = self.length - 1;
                self.top = x.next;
                proof {
                    assert(self@ =~= old(self)@.drop_first());
                }
                Ok(x.data)
            },
        }
    }

    /// Returns the topmost element without removing it; `EmptyStack` on an
    /// empty stack.
    pub fn top(&self) -> (r: Result<isize, StackError>)
        ensures
            self@.len() == 0 ==> r == Err::<isize, StackError>(StackError::EmptyStack),
            self@.len() > 0 ==> r == Ok::<isize, StackError>(self@.first()),
    {
        match &self.top {
            Option::None => Err(StackError::EmptyStack),
            Option::Some(t) => Ok(t.data),
        }
    }

    /// The number of held elements, read from the maintained counter in
    /// constant time.
    pub fn size(&self) -> (r: usize)
        requires
            self.wf(),
        ensures
            r == self@.len(),
    {
        self.length
    }

    /// A fresh top-to-bottom traversal of the chain: returns every held
    /// element, topmost first, without consuming or altering the stack.
    pub fn enumerate(&self) -> (r: Vec<isize>)
        ensures
            r@ == self@,
    {
        let mut out: Vec<isize> = Vec::new();
        let mut cur: &Option<Box<StackNode>> = &self.top;
        while cur.is_some()
            invariant
                out@ + StackNode::chain_seq(*cur) == self@,
            decreases StackNode::chain_seq(*cur).len(),
        {
            match cur {
                Option::Some(node) => {
                    out.push(node.data);
                    cur = &node.next;
                    proof {
                        assert(out@ + StackNode::chain_seq(*cur) =~= self@);
                    }
                },
                Option::None => {
                    assert(false);
                },
            }
        }
        proof {
            assert(out@ =~= self@);
        }
        out
    }
}

} // verus!
