//! The pushdown automaton of the parser: one control state and a stack
//! of grammar codes.

use crate::bookkeeper::Token;
use crate::rules::{
    expansion, expansion_rule, is_terminal, lemma_rule_for, lookup_rule, rule_for, START_SYMBOL,
};
use crate::stack::Stack;
use vstd::prelude::*;

verus! {

/// What a transition did.
#[derive(Clone, Copy, Debug, PartialEq, Eq)]
pub enum Action {
    /// The nonterminal on top was replaced by the right-hand side of the
    /// rule with this number.
    UseRule(u8),
    /// The terminal on top was the lookahead: it is consumed.
    Match,
    /// No rule for the nonterminal on top, or another terminal than the
    /// lookahead.
    Error,
}

/// The automaton as the contracts see it.
pub struct PdaView {
    /// Whether the start symbol has been pushed.
    pub q: bool,
    /// The stack from the bottom marker up.
    pub stack: Seq<u8>,
}

/// A sequence back to front.
pub open spec fn reversed(symbols: Seq<u8>) -> Seq<u8> {
    Seq::new(symbols.len(), |i: int| symbols[symbols.len() - 1 - i])
}

/// What a transition does on the lookahead's code: it takes the top off
/// the stack. For a nonterminal it chooses a rule and pushes the rule's
/// right-hand side, last symbol first, so that the first comes to lie on
/// top. A terminal has to be the lookahead itself.
pub open spec fn action_for(stack: Seq<u8>, lookahead: u8) -> Action {
    let top = stack.last();
    if !is_terminal(top) {
        match rule_for(top, lookahead) {
            Some(rule) => Action::UseRule(rule),
            None => Action::Error,
        }
    } else if top == lookahead {
        Action::Match
    } else {
        Action::Error
    }
}

/// The stack after a transition.
pub open spec fn stack_after(stack: Seq<u8>, lookahead: u8) -> Seq<u8> {
    match action_for(stack, lookahead) {
        Action::UseRule(rule) => stack.drop_last() + reversed(expansion(rule)->0),
        _ => stack.drop_last(),
    }
}

/// The pushdown automaton.
#[allow(clippy::upper_case_acronyms)]
pub struct PDA {
    q: bool,
    stack: Stack,
}

impl View for PDA {
    type V = PdaView;

    closed spec fn view(&self) -> PdaView {
        PdaView { q: self.q, stack: self.stack@ }
    }
}

impl PDA {
    /// The stack rests on its bottom marker.
    pub closed spec fn wf(&self) -> bool {
        self.stack.wf()
    }

    /// An automaton in order has its stack on the bottom marker.
    pub proof fn lemma_wf(&self)
        requires
            self.wf(),
        ensures
            self@.stack.len() >= 1,
            self@.stack[0] == 0,
    {
    }

    /// An automaton that has not started: its stack holds the bottom
    /// marker alone.
    pub fn new() -> (pda: Self)
        ensures
            pda.wf(),
            pda@ == (PdaView { q: false, stack: seq![0u8] }),
    {
        PDA { q: false, stack: Stack::new() }
    }

    /// Initialize the PDA by pushing the start symbol onto the stack.
    pub fn initialize(&mut self)
        requires
            old(self).wf(),
        ensures
            final(self).wf(),
            final(self)@ == (PdaView { q: true, stack: old(self)@.stack.push(START_SYMBOL) }),
    {
        self.stack.push(START_SYMBOL);
        self.q = true;
    }

    /// Whether the start symbol has been pushed.
    pub fn q(&self) -> (q: bool)
        ensures
            q == self@.q,
    {
        self.q
    }

    /// The stack.
    pub fn stack(&self) -> (stack: &Stack)
        ensures
            stack@ == self@.stack,
            self.wf() ==> stack.wf(),
    {
        &self.stack
    }

    /// Pushes the right-hand side of a rule, last symbol first.
    fn expand(&mut self, symbols: &Vec<u8>)
        requires
            old(self).wf(),
        ensures
            final(self).wf(),
            final(self)@.q == old(self)@.q,
            final(self)@.stack == old(self)@.stack + reversed(symbols@),
    {
        let mut i = symbols.len();
        while i > 0
            invariant
                self.wf(),
                self@.q == old(self)@.q,
                i <= symbols.len(),
                self@.stack == old(self)@.stack + reversed(symbols@).take(symbols.len() - i),
            decreases i,
        {
            i -= 1;
            self.stack.push(symbols[i]);
            assert(self@.stack =~= old(self)@.stack + reversed(symbols@).take(symbols.len() - i));
        }
        assert(self@.stack =~= old(self)@.stack + reversed(symbols@));
    }

    /// Runs one transition on the lookahead and says what was done.
    pub fn step(&mut self, lookahead: u8) -> (action: Action)
        requires
            old(self).wf(),
            old(self)@.stack.len() > 1,
        ensures
            final(self).wf(),
            final(self)@.q == old(self)@.q,
            action == action_for(old(self)@.stack, lookahead),
            final(self)@.stack == stack_after(old(self)@.stack, lookahead),
    {
        let stack_top = self.stack.pop();
        if !is_terminal_symbol(stack_top) {
            proof {
                lemma_rule_for(stack_top, lookahead);
            }
            match lookup_rule(stack_top, lookahead) {
                Some(rule) => {
                    match expansion_rule(rule) {
                        Some(symbols) => {
                            self.expand(&symbols);
                            Action::UseRule(rule)
                        },
                        None => Action::Error,
                    }
                },
                None => Action::Error,
            }
        } else if stack_top != lookahead {
            Action::Error
        } else {
            Action::Match
        }
    }

    /// Run an iteration of the transition function. The first entry of
    /// the answer is whether the parse can go on, the second whether the
    /// lookahead was consumed, so that a new one is needed.
    pub fn transition(&mut self, lookahead: Token) -> (answer: (bool, bool))
        requires
            old(self).wf(),
            old(self)@.stack.len() > 1,
        ensures
            final(self).wf(),
            final(self)@.q == old(self)@.q,
            final(self)@.stack == stack_after(old(self)@.stack, lookahead@.code),
            answer.0 == (action_for(old(self)@.stack, lookahead@.code) != Action::Error),
            answer.1 == (action_for(old(self)@.stack, lookahead@.code) == Action::Match),
    {
        match self.step(lookahead.code) {
            Action::UseRule(_) => (true, false),
            Action::Match => (true, true),
            Action::Error => (false, false),
        }
    }
}

/// Determine whether a symbol is terminal or nonterminal.
pub fn is_terminal_symbol(code: u8) -> (terminal: bool)
    ensures
        terminal == is_terminal(code),
{
    code <= 41 && code > 0
}

} // verus!
