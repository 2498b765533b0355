//! Why the parser comes to an end: a measure on the stack that every
//! expansion makes smaller.
//!
//! Between two tokens the automaton only expands nonterminals. The
//! measure adds up weights from the top of the stack down to the first
//! symbol that cannot vanish, and each rule of the grammar weighs less on
//! its right-hand side than on its left.

use crate::pda::{action_for, reversed, stack_after};
use crate::rules::{expansion, is_nonterminal, lemma_rule_for, rule_for, rule_head};
use vstd::prelude::*;

verus! {

/// The nonterminals that derive the empty string.
pub open spec fn nullable(code: u8) -> bool {
    code == 42 || code == 43 || code == 44 || code == 45 || code == 51 || code == 56 || code == 67
        || code == 69
}

/// The weight of a symbol. A terminal weighs nothing; a nonterminal
/// weighs more than what any of its rules puts on top of the stack.
pub open spec fn weight(code: u8) -> nat {
    if code == 42 {
        6
    } else if code == 45 || code == 51 {
        3
    } else if code == 46 || code == 48 || code == 52 || code == 54 || code == 65 {
        2
    } else if is_nonterminal(code) {
        1
    } else {
        0
    }
}

/// The load of a stack: the weights from the top down to the first
/// symbol that cannot vanish.
pub open spec fn load(stack: Seq<u8>) -> nat
    decreases stack.len(),
{
    if stack.len() == 0 {
        0
    } else if nullable(stack.last()) {
        weight(stack.last()) + load(stack.drop_last())
    } else {
        weight(stack.last())
    }
}

/// The load of a stack on which `symbols` lie, the first of them on top,
/// above symbols with the load `below`.
pub open spec fn load_over(symbols: Seq<u8>, below: nat) -> nat
    decreases symbols.len(),
{
    if symbols.len() == 0 {
        below
    } else if nullable(symbols[0]) {
        weight(symbols[0]) + load_over(symbols.drop_first(), below)
    } else {
        weight(symbols[0])
    }
}

/// Pushing `symbols` back to front puts their load over that of the
/// stack.
pub proof fn lemma_load_pushed(stack: Seq<u8>, symbols: Seq<u8>)
    ensures
        load(stack + reversed(symbols)) == load_over(symbols, load(stack)),
    decreases symbols.len(),
{
    if symbols.len() == 0 {
        assert(stack + reversed(symbols) =~= stack);
    } else {
        let rest = symbols.drop_first();
        let all = stack + reversed(symbols);
        assert(all.last() == symbols[0]);
        assert(all.drop_last() =~= stack + reversed(rest));
        lemma_load_pushed(stack, rest);
    }
}

/// Every rule weighs less on its right-hand side than on its left.
pub proof fn lemma_rule_lightens(rule: u8, below: nat)
    requires
        expansion(rule) is Some,
    ensures
        load_over(expansion(rule)->0, below) < weight(rule_head(rule)) + if nullable(
            rule_head(rule),
        ) {
            below
        } else {
            0
        },
{
    reveal_with_fuel(load_over, 5);
    let symbols = expansion(rule)->0;
    if symbols.len() >= 2 {
        assert(symbols.drop_first()[0] == symbols[1]);
    }
    if symbols.len() >= 3 {
        assert(symbols.drop_first().drop_first()[0] == symbols[2]);
    }
    if symbols.len() == 3 {
        assert(symbols.drop_first().drop_first().drop_first().len() == 0);
    }
}

/// An expansion makes the load of the stack smaller.
pub proof fn lemma_expansion_unloads(stack: Seq<u8>, lookahead: u8)
    requires
        stack.len() > 0,
        action_for(stack, lookahead) is UseRule,
    ensures
        load(stack_after(stack, lookahead)) < load(stack),
{
    let top = stack.last();
    let rule = rule_for(top, lookahead)->0;
    lemma_rule_for(top, lookahead);
    lemma_load_pushed(stack.drop_last(), expansion(rule)->0);
    lemma_rule_lightens(rule, load(stack.drop_last()));
}

} // verus!
