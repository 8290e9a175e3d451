use vstd::prelude::*;

verus! {

/// A linked stack is like a linked list, but where each node is immutably borrowed to push the
/// next value. This essentially 'freezes' the nodes in the stack until the nodes above it are
/// popped via drops.
pub struct LinkedStack<'a, T> {
    value: T,
    parent: Option<&'a LinkedStack<'a, T>>,
}

impl<'a, T> LinkedStack<'a, T> {
    /// The values on the stack, the top first.
    pub closed spec fn values(self) -> Seq<T>
        decreases self,
    {
        match self.parent {
            None => seq![self.value],
            Some(p) => seq![self.value] + p.values(),
        }
    }

    /// A stack is never empty.
    pub proof fn lemma_not_empty(self)
        ensures
            self.values().len() >= 1,
    {
    }
}

impl<'a, T> View for LinkedStack<'a, T> {
    type V = Seq<T>;

    open spec fn view(&self) -> Seq<T> {
        self.values()
    }
}

impl<'a, T> LinkedStack<'a, T> {
    /// A stack holding one value.
    pub fn new(value: T) -> (r: Self)
        ensures
            r@ == seq![value],
    {
        LinkedStack { value, parent: None }
    }

    /// A stack with `value` on top of this one, which stays frozen while the new one lives.
    pub fn push<'b>(&'b self, value: T) -> (r: LinkedStack<'b, T>)
        ensures
            r@ == seq![value] + self@,
    {
        LinkedStack { value, parent: Some(self) }
    }

    /// Borrows the top element.
    pub fn peek(&self) -> (r: &T)
        ensures
            self@.len() >= 1,
            *r == self@[0],
    {
        &self.value
    }

    /// Gets the `n`th parent. An index of 0 gets the top of the stack.
    pub fn peek_nth(&self, index: usize) -> (r: Option<&T>)
        ensures
            r == if index < self@.len() {
                Some(&self@[index as int])
            } else {
                None::<&T>
            },
    {
        let mut node = self;
        let mut i: usize = 0;
        proof {
            self.lemma_not_empty();
            assert(self@.skip(0) =~= self@);
        }
        while i < index
            invariant
                i <= index,
                i < self@.len(),
                node@ == self@.skip(i as int),
            decreases index - i,
        {
            let ghost before = node@;
            match node.parent {
                Some(p) => {
                    proof {
                        assert(before == seq![node.value] + p@);
                        assert(self@.skip(i + 1) =~= before.drop_first());
                        assert(before.drop_first() =~= p@);
                        p.lemma_not_empty();
                    }
                    node = p;
                },
                None => {
                    assert(before == seq![node.value]);
                    return None;
                },
            }
            i = i + 1;
        }
        proof {
            node.lemma_not_empty();
            assert(node@[0] == node.value);
            assert(self@[index as int] == self@.skip(index as int)[0]);
        }
        Some(&node.value)
    }

    /// Gets all nodes until the `n - 1`th parent. An index of 0 gets no nodes.
    pub fn peek_n<'b>(&'b self, len: usize) -> (r: PeekedLinkedStack<'b, T>)
        ensures
            r@ == self@.take(if len < self@.len() {
                len as int
            } else {
                self@.len() as int
            }),
    {
        PeekedLinkedStack { node: self, remaining: len }
    }

    /// Takes the top value, giving up this node.
    pub fn pop(self) -> (r: T)
        ensures
            r == self@[0],
    {
        self.value
    }
}

/// The values from the top of a linked stack down, at most a given number of them.
pub struct PeekedLinkedStack<'a, T> {
    node: &'a LinkedStack<'a, T>,
    remaining: usize,
}

impl<'a, T> View for PeekedLinkedStack<'a, T> {
    type V = Seq<T>;

    /// The values that are still to come, in order.
    closed spec fn view(&self) -> Seq<T> {
        let all = self.node@;
        all.take(
            if (self.remaining as int) < all.len() {
                self.remaining as int
            } else {
                all.len() as int
            },
        )
    }
}

impl<'a, T> PeekedLinkedStack<'a, T> {
    /// Hands out the next value, if any is left.
    pub fn next(&mut self) -> (r: Option<&'a T>)
        ensures
            old(self)@.len() == 0 ==> r is None && final(self)@ == old(self)@,
            old(self)@.len() > 0 ==> r == Some(&old(self)@[0]) && final(self)@ == old(
                self,
            )@.drop_first(),
    {
        if self.remaining == 0 {
            return None;
        }
        self.remaining = self.remaining - 1;
        let value = &self.node.value;
        match self.node.parent {
            Some(node) => {
                assert(self.node@ == seq![self.node.value] + node@);
                self.node = node;
            },
            None => {
                self.remaining = 0;
            },
        }
        Some(value)
    }
}

/// Pushing a value and popping it gives the value back, and the stack below it is the one
/// that was pushed onto.
pub proof fn law_push_pop<T>(below: Seq<T>, value: T)
    ensures
        (seq![value] + below)[0] == value,
        (seq![value] + below).drop_first() == below,
        (seq![value] + below).len() == below.len() + 1,
{
    assert((seq![value] + below).drop_first() =~= below);
}

/// Looking `n + 1` deep into a stack after a push looks `n` deep into the stack that was
/// pushed onto.
pub proof fn law_peek_after_push<T>(below: Seq<T>, value: T, n: int)
    requires
        0 <= n < below.len(),
    ensures
        (seq![value] + below)[n + 1] == below[n],
{
}

} // verus!
