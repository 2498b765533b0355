//! Front end for the Simple Scala teaching language: a character-level
//! scanner that classifies tokens and a table-driven LL(1) pushdown
//! automaton that accepts or rejects the token stream.
//!
//! - `text`: the character classes, and numerals.
//! - `lexicon`: the keywords and special symbols with their grammar codes.
//! - `automaton`: the states of the scanner and their moves.
//! - `scanner`: tokens on request, with line tracking, comments, and the
//!   queue of symbols split off a lexeme.
//! - `bookkeeper`: tokens and the symbol table.
//! - `error`: what the scanner reports of a lexeme that is no token.
//! - `rules`: the grammar tables.
//! - `stack`, `pda`: the pushdown automaton.
//! - `progress`: the measure by which every parse comes to an end.
//! - `parser`: the driver, from source text to verdict.
//! - `laws`: what holds of the scanner on every source text.

pub mod automaton;
pub mod bookkeeper;
pub mod error;
pub mod laws;
pub mod lexicon;
pub mod parser;
pub mod pda;
pub mod progress;
pub mod rules;
pub mod scanner;
pub mod stack;
pub mod text;
