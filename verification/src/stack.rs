//! The parser's stack of grammar codes, resting on a bottom marker.

use vstd::prelude::*;

verus! {

/// The value of the bottom marker. No grammar symbol has this code.
pub const BOTTOM: u8 = 0;

/// A LIFO of grammar codes. Slot 0 always holds the bottom marker, so the
/// stack counts as empty when only that slot is left.
pub struct Stack {
    stack: Vec<u8>,
}

impl View for Stack {
    type V = Seq<u8>;

    /// Every slot from the bottom marker (index 0) up to the top (last).
    closed spec fn view(&self) -> Seq<u8> {
        self.stack@
    }
}

impl Stack {
    /// The bottom marker is in place.
    pub open spec fn wf(&self) -> bool {
        self@.len() >= 1 && self@[0] == BOTTOM
    }

    /// Whether only the bottom marker is left.
    pub open spec fn spec_is_empty(&self) -> bool {
        self@.len() == 1 && self@[0] == BOTTOM
    }

    /// A stack that holds the bottom marker alone.
    pub fn new() -> (s: Self)
        ensures
            s.wf(),
            s@ == seq![BOTTOM],
    {
        let mut stack: Vec<u8> = Vec::new();
        stack.push(BOTTOM);
        Stack { stack }
    }

    /// Puts `n` on top.
    pub fn push(&mut self, n: u8)
        requires
            old(self).wf(),
        ensures
            final(self).wf(),
            final(self)@ == old(self)@.push(n),
    {
        self.stack.push(n);
    }

    /// Takes the top code off and returns it. The bottom marker is never
    /// handed out: the caller checks `is_empty` first.
    pub fn pop(&mut self) -> (top: u8)
        requires
            old(self).wf(),
            !old(self).spec_is_empty(),
        ensures
            final(self).wf(),
            top == old(self)@.last(),
            final(self)@ == old(self)@.drop_last(),
    {
        let top = self.stack.pop();
        match top {
            Some(code) => code,
            None => BOTTOM,
        }
    }

    /// The top code, left in place.
    pub fn peek(&self) -> (top: u8)
        requires
            self.wf(),
            !self.spec_is_empty(),
        ensures
            top == self@.last(),
    {
        self.stack[self.stack.len() - 1]
    }

    /// Whether only the bottom marker is left.
    #[verifier::when_used_as_spec(spec_is_empty)]
    pub fn is_empty(&self) -> (empty: bool)
        ensures
            empty == self.spec_is_empty(),
    {
        self.stack.len() == 1 && self.stack[0] == BOTTOM
    }

    /// How many slots are in use, the bottom marker included.
    pub fn len(&self) -> (n: usize)
        ensures
            n == self@.len(),
    {
        self.stack.len()
    }

    /// The slots from the bottom marker up.
    pub fn slots(&self) -> (v: &Vec<u8>)
        ensures
            v@ == self@,
    {
        &self.stack
    }
}

} // verus!
