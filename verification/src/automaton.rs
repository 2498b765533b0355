//! The scanner's automaton. A state says what has been read of the
//! lexeme under construction; a move says what the next character does to
//! it.
//!
//! States 1 to 109 follow the keywords letter by letter (but for 76 to
//! 79, which read `=`, `=>`, `<` and `<=`). State 114 reads a word that is
//! no keyword any more, states 110 to 113 read numeric constants, and
//! states 126 to 128 read on to the end of a lexeme that has failed.
//!
//! What the automaton decides is stated over twelve phases, which forget
//! how much of which keyword has been read: a word is a keyword exactly
//! when the keyword table says so. Every state is proved to move as its
//! phase does.

use crate::bookkeeper::SymbolType;
use crate::error::ErrorType;
use crate::lexicon::{
    keyword_code, lemma_keyword_letters, lemma_keyword_starts, lemma_starts_keyword_push,
    match_special_symbol_to_code, special_symbol_code, starts_keyword,
};
use crate::rules::COMMENT_CODE;
use crate::text::{
    is_alphabetic, is_ascii_letter, is_digit, is_separator, is_special_symbol, is_word_char,
    unicode_alphabetic,
};
use vstd::prelude::*;

verus! {

/// What reading one character leads to: on to another state, out with a
/// token of the given class and code, or out with an error.
#[derive(Clone, Copy, Debug, PartialEq, Eq)]
pub enum Move<S> {
    Go(S),
    Token(SymbolType, u8),
    Fail(ErrorType),
}

/// What kind of lexeme is being read.
#[derive(Clone, Copy, Debug, PartialEq, Eq)]
pub enum Phase {
    /// Letters, digits and periods after a leading letter.
    Word,
    /// A leading period.
    Point,
    /// Digits after a leading period.
    Fraction,
    /// Digits.
    Integer,
    /// Digits, a period, and maybe more digits.
    Decimal,
    /// `=`.
    Equals,
    /// `=>`.
    Arrow,
    /// `<`.
    Less,
    /// `<=`.
    LessEquals,
    /// A lexeme that fits no token.
    BadSymbol,
    /// A constant with a second period.
    BadPeriods,
    /// Digits followed by a letter.
    BadNumber,
}

/// The states of the automaton, by number.
#[derive(Clone, Copy, Debug, PartialEq, Eq)]
pub enum State {
    /// `p`
    S1,
    /// `pa`
    S2,
    /// `pac`
    S3,
    /// `pack`
    S4,
    /// `packa`
    S5,
    /// `packag`
    S6,
    /// `package`
    S7,
    /// `pr`
    S8,
    /// `pri`
    S9,
    /// `priv`
    S10,
    /// `priva`
    S11,
    /// `privat`
    S12,
    /// `private`
    S13,
    /// `prin`
    S14,
    /// `print`
    S15,
    /// `pro`
    S16,
    /// `prot`
    S17,
    /// `prote`
    S18,
    /// `protec`
    S19,
    /// `protect`
    S20,
    /// `protecte`
    S21,
    /// `protected`
    S22,
    /// `i`
    S23,
    /// `im`
    S24,
    /// `imp`
    S25,
    /// `impo`
    S26,
    /// `impor`
    S27,
    /// `import`
    S28,
    /// `if`
    S29,
    /// `in`
    S30,
    /// `int`
    S31,
    /// `a`
    S32,
    /// `ab`
    S33,
    /// `abs`
    S34,
    /// `abst`
    S35,
    /// `abstr`
    S36,
    /// `abstra`
    S37,
    /// `abstrac`
    S38,
    /// `abstract`
    S39,
    /// `an`
    S40,
    /// `and`
    S41,
    /// `f`
    S42,
    /// `fi`
    S43,
    /// `fin`
    S44,
    /// `fina`
    S45,
    /// `final`
    S46,
    /// `fa`
    S47,
    /// `fal`
    S48,
    /// `fals`
    S49,
    /// `false`
    S50,
    /// `s`
    S51,
    /// `se`
    S52,
    /// `sea`
    S53,
    /// `seal`
    S54,
    /// `seale`
    S55,
    /// `sealed`
    S56,
    /// `b`
    S57,
    /// `bo`
    S58,
    /// `boo`
    S59,
    /// `bool`
    S60,
    /// `c`
    S61,
    /// `cl`
    S62,
    /// `cla`
    S63,
    /// `clas`
    S64,
    /// `class`
    S65,
    /// `ca`
    S66,
    /// `cas`
    S67,
    /// `case`
    S68,
    /// `d`
    S69,
    /// `de`
    S70,
    /// `def`
    S71,
    /// `e`
    S72,
    /// `el`
    S73,
    /// `els`
    S74,
    /// `else`
    S75,
    /// `=`.
    S76,
    /// `=>`.
    S77,
    /// `<`.
    S78,
    /// `<=`.
    S79,
    /// `n`
    S80,
    /// `no`
    S81,
    /// `not`
    S82,
    /// `o`
    S83,
    /// `or`
    S84,
    /// `ob`
    S85,
    /// `obj`
    S86,
    /// `obje`
    S87,
    /// `objec`
    S88,
    /// `object`
    S89,
    /// `r`
    S90,
    /// `re`
    S91,
    /// `ret`
    S92,
    /// `retu`
    S93,
    /// `retur`
    S94,
    /// `return`
    S95,
    /// `rea`
    S96,
    /// `real`
    S97,
    /// `t`
    S98,
    /// `tr`
    S99,
    /// `tru`
    S100,
    /// `true`
    S101,
    /// `v`
    S102,
    /// `va`
    S103,
    /// `val`
    S104,
    /// `w`
    S105,
    /// `wh`
    S106,
    /// `whi`
    S107,
    /// `whil`
    S108,
    /// `while`
    S109,
    /// A leading period.
    S110,
    /// Digits after a leading period.
    S111,
    /// Digits.
    S112,
    /// Digits, a period, and maybe more digits.
    S113,
    /// A word that is no keyword any more.
    S114,
    /// A constant with a second period.
    S126,
    /// Digits followed by a letter.
    S127,
    /// A lexeme that fits no token.
    S128,
}

/// The letters that a keyword state has read. Empty for the other states.
pub open spec fn spelled(state: State) -> Seq<char> {
    match state {
        State::S1 => seq!['p'],
        State::S2 => seq!['p', 'a'],
        State::S3 => seq!['p', 'a', 'c'],
        State::S4 => seq!['p', 'a', 'c', 'k'],
        State::S5 => seq!['p', 'a', 'c', 'k', 'a'],
        State::S6 => seq!['p', 'a', 'c', 'k', 'a', 'g'],
        State::S7 => seq!['p', 'a', 'c', 'k', 'a', 'g', 'e'],
        State::S8 => seq!['p', 'r'],
        State::S9 => seq!['p', 'r', 'i'],
        State::S10 => seq!['p', 'r', 'i', 'v'],
        State::S11 => seq!['p', 'r', 'i', 'v', 'a'],
        State::S12 => seq!['p', 'r', 'i', 'v', 'a', 't'],
        State::S13 => seq!['p', 'r', 'i', 'v', 'a', 't', 'e'],
        State::S14 => seq!['p', 'r', 'i', 'n'],
        State::S15 => seq!['p', 'r', 'i', 'n', 't'],
        State::S16 => seq!['p', 'r', 'o'],
        State::S17 => seq!['p', 'r', 'o', 't'],
        State::S18 => seq!['p', 'r', 'o', 't', 'e'],
        State::S19 => seq!['p', 'r', 'o', 't', 'e', 'c'],
        State::S20 => seq!['p', 'r', 'o', 't', 'e', 'c', 't'],
        State::S21 => seq!['p', 'r', 'o', 't', 'e', 'c', 't', 'e'],
        State::S22 => seq!['p', 'r', 'o', 't', 'e', 'c', 't', 'e', 'd'],
        State::S23 => seq!['i'],
        State::S24 => seq!['i', 'm'],
        State::S25 => seq!['i', 'm', 'p'],
        State::S26 => seq!['i', 'm', 'p', 'o'],
        State::S27 => seq!['i', 'm', 'p', 'o', 'r'],
        State::S28 => seq!['i', 'm', 'p', 'o', 'r', 't'],
        State::S29 => seq!['i', 'f'],
        State::S30 => seq!['i', 'n'],
        State::S31 => seq!['i', 'n', 't'],
        State::S32 => seq!['a'],
        State::S33 => seq!['a', 'b'],
        State::S34 => seq!['a', 'b', 's'],
        State::S35 => seq!['a', 'b', 's', 't'],
        State::S36 => seq!['a', 'b', 's', 't', 'r'],
        State::S37 => seq!['a', 'b', 's', 't', 'r', 'a'],
        State::S38 => seq!['a', 'b', 's', 't', 'r', 'a', 'c'],
        State::S39 => seq!['a', 'b', 's', 't', 'r', 'a', 'c', 't'],
        State::S40 => seq!['a', 'n'],
        State::S41 => seq!['a', 'n', 'd'],
        State::S42 => seq!['f'],
        State::S43 => seq!['f', 'i'],
        State::S44 => seq!['f', 'i', 'n'],
        State::S45 => seq!['f', 'i', 'n', 'a'],
        State::S46 => seq!['f', 'i', 'n', 'a', 'l'],
        State::S47 => seq!['f', 'a'],
        State::S48 => seq!['f', 'a', 'l'],
        State::S49 => seq!['f', 'a', 'l', 's'],
        State::S50 => seq!['f', 'a', 'l', 's', 'e'],
        State::S51 => seq!['s'],
        State::S52 => seq!['s', 'e'],
        State::S53 => seq!['s', 'e', 'a'],
        State::S54 => seq!['s', 'e', 'a', 'l'],
        State::S55 => seq!['s', 'e', 'a', 'l', 'e'],
        State::S56 => seq!['s', 'e', 'a', 'l', 'e', 'd'],
        State::S57 => seq!['b'],
        State::S58 => seq!['b', 'o'],
        State::S59 => seq!['b', 'o', 'o'],
        State::S60 => seq!['b', 'o', 'o', 'l'],
        State::S61 => seq!['c'],
        State::S62 => seq!['c', 'l'],
        State::S63 => seq!['c', 'l', 'a'],
        State::S64 => seq!['c', 'l', 'a', 's'],
        State::S65 => seq!['c', 'l', 'a', 's', 's'],
        State::S66 => seq!['c', 'a'],
        State::S67 => seq!['c', 'a', 's'],
        State::S68 => seq!['c', 'a', 's', 'e'],
        State::S69 => seq!['d'],
        State::S70 => seq!['d', 'e'],
        State::S71 => seq!['d', 'e', 'f'],
        State::S72 => seq!['e'],
        State::S73 => seq!['e', 'l'],
        State::S74 => seq!['e', 'l', 's'],
        State::S75 => seq!['e', 'l', 's', 'e'],
        State::S80 => seq!['n'],
        State::S81 => seq!['n', 'o'],
        State::S82 => seq!['n', 'o', 't'],
        State::S83 => seq!['o'],
        State::S84 => seq!['o', 'r'],
        State::S85 => seq!['o', 'b'],
        State::S86 => seq!['o', 'b', 'j'],
        State::S87 => seq!['o', 'b', 'j', 'e'],
        State::S88 => seq!['o', 'b', 'j', 'e', 'c'],
        State::S89 => seq!['o', 'b', 'j', 'e', 'c', 't'],
        State::S90 => seq!['r'],
        State::S91 => seq!['r', 'e'],
        State::S92 => seq!['r', 'e', 't'],
        State::S93 => seq!['r', 'e', 't', 'u'],
        State::S94 => seq!['r', 'e', 't', 'u', 'r'],
        State::S95 => seq!['r', 'e', 't', 'u', 'r', 'n'],
        State::S96 => seq!['r', 'e', 'a'],
        State::S97 => seq!['r', 'e', 'a', 'l'],
        State::S98 => seq!['t'],
        State::S99 => seq!['t', 'r'],
        State::S100 => seq!['t', 'r', 'u'],
        State::S101 => seq!['t', 'r', 'u', 'e'],
        State::S102 => seq!['v'],
        State::S103 => seq!['v', 'a'],
        State::S104 => seq!['v', 'a', 'l'],
        State::S105 => seq!['w'],
        State::S106 => seq!['w', 'h'],
        State::S107 => seq!['w', 'h', 'i'],
        State::S108 => seq!['w', 'h', 'i', 'l'],
        State::S109 => seq!['w', 'h', 'i', 'l', 'e'],
        _ => Seq::empty(),
    }
}

/// The phase that a state belongs to.
pub open spec fn phase_of(state: State) -> Phase {
    match state {
        State::S76 => Phase::Equals,
        State::S77 => Phase::Arrow,
        State::S78 => Phase::Less,
        State::S79 => Phase::LessEquals,
        State::S110 => Phase::Point,
        State::S111 => Phase::Fraction,
        State::S112 => Phase::Integer,
        State::S113 => Phase::Decimal,
        State::S126 => Phase::BadPeriods,
        State::S127 => Phase::BadNumber,
        State::S128 => Phase::BadSymbol,
        _ => Phase::Word,
    }
}

/// Whether the state follows a keyword: of the states of a word, all but
/// 114.
pub open spec fn is_keyword_state(state: State) -> bool {
    phase_of(state) == Phase::Word && state != State::S114
}

/// What a state knows of the word read so far: a keyword state knows its
/// letters, state 114 knows that no keyword begins with it.
pub open spec fn tracks(state: State, word: Seq<char>) -> bool {
    if is_keyword_state(state) {
        word =~= spelled(state)
    } else if state == State::S114 {
        !starts_keyword(word)
    } else {
        true
    }
}

/// The phase in which the rest of a failed lexeme is read.
pub open spec fn failed_phase(error: ErrorType) -> Phase {
    match error {
        ErrorType::InvalidSymbol => Phase::BadSymbol,
        ErrorType::ConstantHasTooManyPeriods => Phase::BadPeriods,
        ErrorType::IdentifierBeginsWithNumber => Phase::BadNumber,
    }
}

/// A lexeme has failed: the error comes out at the separator that ends
/// it, and until then the automaton reads on.
pub open spec fn give_up(c: char, error: ErrorType) -> Move<Phase> {
    if is_separator(c) {
        Move::Fail(error)
    } else {
        Move::Go(failed_phase(error))
    }
}

/// What a finished word is: the keyword that the table has for it, or
/// else an identifier.
pub open spec fn word_verdict(word: Seq<char>) -> Move<Phase> {
    match keyword_code(word) {
        Some(code) => Move::Token(SymbolType::Keyword, code),
        None => Move::Token(SymbolType::Identifier, 1),
    }
}

/// The move after `word`, a leading letter and what followed it.
pub open spec fn word_step(word: Seq<char>, c: char) -> Move<Phase> {
    if is_separator(c) {
        word_verdict(word)
    } else if is_word_char(c) {
        Move::Go(Phase::Word)
    } else {
        Move::Go(Phase::BadSymbol)
    }
}

/// The move after a leading period.
pub open spec fn point_step(c: char) -> Move<Phase> {
    if is_digit(c) {
        Move::Go(Phase::Fraction)
    } else if c == '.' {
        Move::Go(Phase::BadPeriods)
    } else {
        give_up(c, ErrorType::InvalidSymbol)
    }
}

/// The move after a leading period and digits.
pub open spec fn fraction_step(c: char) -> Move<Phase> {
    if is_separator(c) {
        Move::Token(SymbolType::Constant, 2)
    } else if is_digit(c) {
        Move::Go(Phase::Fraction)
    } else if c == '.' {
        Move::Go(Phase::BadPeriods)
    } else {
        Move::Go(Phase::BadSymbol)
    }
}

/// The move after digits, where `letter` says whether `c` is alphabetic.
pub open spec fn integer_step(c: char, letter: bool) -> Move<Phase> {
    if is_separator(c) {
        Move::Token(SymbolType::Constant, 2)
    } else if is_digit(c) {
        Move::Go(Phase::Integer)
    } else if c == '.' {
        Move::Go(Phase::Decimal)
    } else if letter {
        Move::Go(Phase::BadNumber)
    } else {
        Move::Go(Phase::BadSymbol)
    }
}

/// The move after digits, a period, and maybe more digits.
pub open spec fn decimal_step(c: char) -> Move<Phase> {
    if is_separator(c) {
        Move::Token(SymbolType::Constant, 2)
    } else if is_digit(c) {
        Move::Go(Phase::Decimal)
    } else if c == '.' {
        Move::Go(Phase::BadPeriods)
    } else {
        Move::Go(Phase::BadSymbol)
    }
}

/// The move after `=`.
pub open spec fn equals_step(c: char) -> Move<Phase> {
    if is_separator(c) {
        Move::Token(SymbolType::SpecialSymbol, 38)
    } else if c == '>' {
        Move::Go(Phase::Arrow)
    } else {
        Move::Go(Phase::BadSymbol)
    }
}

/// The move after `=>`.
pub open spec fn arrow_step(c: char) -> Move<Phase> {
    if is_separator(c) {
        Move::Token(SymbolType::Keyword, 19)
    } else {
        Move::Go(Phase::BadSymbol)
    }
}

/// The move after `<`: only `=` may follow.
pub open spec fn less_step(c: char) -> Move<Phase> {
    if c == '=' {
        Move::Go(Phase::LessEquals)
    } else {
        give_up(c, ErrorType::InvalidSymbol)
    }
}

/// The move after `<=`.
pub open spec fn less_equals_step(c: char) -> Move<Phase> {
    if is_separator(c) {
        Move::Token(SymbolType::Keyword, 14)
    } else {
        Move::Go(Phase::BadSymbol)
    }
}

/// The move that the character `c` makes in `phase`, where `word` is what
/// the lexeme held before `c` was read.
pub open spec fn phase_step(phase: Phase, word: Seq<char>, c: char) -> Move<Phase> {
    match phase {
        Phase::Word => word_step(word, c),
        Phase::Point => point_step(c),
        Phase::Fraction => fraction_step(c),
        Phase::Integer => integer_step(c, unicode_alphabetic(c)),
        Phase::Decimal => decimal_step(c),
        Phase::Equals => equals_step(c),
        Phase::Arrow => arrow_step(c),
        Phase::Less => less_step(c),
        Phase::LessEquals => less_equals_step(c),
        Phase::BadSymbol => give_up(c, ErrorType::InvalidSymbol),
        Phase::BadPeriods => give_up(c, ErrorType::ConstantHasTooManyPeriods),
        Phase::BadNumber => give_up(c, ErrorType::IdentifierBeginsWithNumber),
    }
}

/// The move that the first character of a lexeme makes. White space never
/// comes here: it is skipped before.
pub open spec fn first_step(c: char) -> Move<Phase> {
    if is_ascii_letter(c) {
        Move::Go(Phase::Word)
    } else if c == '.' {
        Move::Go(Phase::Point)
    } else if is_digit(c) {
        Move::Go(Phase::Integer)
    } else if c == '=' {
        Move::Go(Phase::Equals)
    } else if c == '<' {
        Move::Go(Phase::Less)
    } else if c == '#' {
        Move::Token(SymbolType::SpecialSymbol, COMMENT_CODE)
    } else if is_special_symbol(c) {
        Move::Token(SymbolType::SpecialSymbol, special_symbol_code(c))
    } else {
        give_up(c, ErrorType::InvalidSymbol)
    }
}

/// The one state of a phase other than `Word`. The phase `Word` has many
/// states; 114 is the one that follows no keyword.
pub open spec fn home(phase: Phase) -> State {
    match phase {
        Phase::Word => State::S114,
        Phase::Point => State::S110,
        Phase::Fraction => State::S111,
        Phase::Integer => State::S112,
        Phase::Decimal => State::S113,
        Phase::Equals => State::S76,
        Phase::Arrow => State::S77,
        Phase::Less => State::S78,
        Phase::LessEquals => State::S79,
        Phase::BadSymbol => State::S128,
        Phase::BadPeriods => State::S126,
        Phase::BadNumber => State::S127,
    }
}

/// The move `m` of the automaton does what `step` asks for, where `word`
/// is what the lexeme held before `c`. It ends as `step` ends, or goes on
/// in the phase that `step` names: among the states of a word, to one
/// that knows of `word` and `c` what it has to.
pub open spec fn carries_out(step: Move<Phase>, word: Seq<char>, c: char, m: Move<State>) -> bool {
    match step {
        Move::Go(phase) => m matches Move::Go(next) && if phase == Phase::Word {
            phase_of(next) == Phase::Word && tracks(next, word.push(c))
        } else {
            next == home(phase)
        },
        Move::Token(kind, code) => m == Move::<State>::Token(kind, code),
        Move::Fail(error) => m == Move::<State>::Fail(error),
    }
}

/// What state 114 does: a separator ends the identifier, a letter, digit
/// or period goes on with it, anything else spoils it.
pub open spec fn identifier_move(c: char) -> Move<State> {
    if is_separator(c) {
        Move::Token(SymbolType::Identifier, 1)
    } else if is_word_char(c) {
        Move::Go(State::S114)
    } else {
        Move::Go(State::S128)
    }
}

/// What is asked of the move `m` that `state` makes on `c`. A keyword
/// state moves as a word does that holds the state's letters. State 114
/// takes every word for an identifier. Any other state moves as its
/// phase does.
pub open spec fn obeys(state: State, c: char, m: Move<State>) -> bool {
    if is_keyword_state(state) {
        carries_out(word_step(spelled(state), c), spelled(state), c, m)
    } else if state == State::S114 {
        m == identifier_move(c)
    } else {
        carries_out(phase_step(phase_of(state), Seq::empty(), c), Seq::empty(), c, m)
    }
}

/// A state that obeys moves as its phase does, on every word that it may
/// have read. This is what makes the automaton, with its states for each
/// keyword, decide what the keyword table decides.
pub proof fn lemma_obeys(state: State, word: Seq<char>, c: char, m: Move<State>)
    requires
        tracks(state, word),
        obeys(state, c, m),
    ensures
        carries_out(phase_step(phase_of(state), word, c), word, c, m),
{
    if state == State::S114 {
        lemma_starts_keyword_push(word, c);
        lemma_keyword_starts(word);
    }
}

/// The first character of a lexeme chooses the state, or is a token by
/// itself.
pub fn first_move(c: char) -> (m: Move<State>)
    ensures
        carries_out(first_step(c), Seq::empty(), c, m),
{
    proof {
        lemma_keyword_letters();
    }
    if is_ascii_letter(c) {
        match c {
            'p' => Move::Go(State::S1),
            'i' => Move::Go(State::S23),
            'a' => Move::Go(State::S32),
            'f' => Move::Go(State::S42),
            's' => Move::Go(State::S51),
            'b' => Move::Go(State::S57),
            'c' => Move::Go(State::S61),
            'd' => Move::Go(State::S69),
            'e' => Move::Go(State::S72),
            'n' => Move::Go(State::S80),
            'o' => Move::Go(State::S83),
            'r' => Move::Go(State::S90),
            't' => Move::Go(State::S98),
            'v' => Move::Go(State::S102),
            'w' => Move::Go(State::S105),
            _ => Move::Go(State::S114),
        }
    } else if c == '.' {
        Move::Go(State::S110)
    } else if is_digit(c) {
        Move::Go(State::S112)
    } else if c == '=' {
        Move::Go(State::S76)
    } else if c == '<' {
        Move::Go(State::S78)
    } else if c == '#' {
        Move::Token(SymbolType::SpecialSymbol, COMMENT_CODE)
    } else if is_special_symbol(c) {
        Move::Token(SymbolType::SpecialSymbol, match_special_symbol_to_code(c))
    } else if is_separator(c) {
        Move::Fail(ErrorType::InvalidSymbol)
    } else {
        Move::Go(State::S128)
    }
}

/// `p` has been read.
pub fn state_1(c: char) -> (m: Move<State>)
    ensures
        obeys(State::S1, c, m),
{
    proof {
        lemma_keyword_letters();
    }
    if c == 'a' {
        Move::Go(State::S2)
    } else if c == 'r' {
        Move::Go(State::S8)
    } else {
        state_114(c)
    }
}

/// `pa` has been read.
pub fn state_2(c: char) -> (m: Move<State>)
    ensures
        obeys(State::S2, c, m),
{
    proof {
        lemma_keyword_letters();
    }
    if c == 'c' {
        Move::Go(State::S3)
    } else {
        state_114(c)
    }
}

/// `pac` has been read.
pub fn state_3(c: char) -> (m: Move<State>)
    ensures
        obeys(State::S3, c, m),
{
    proof {
        lemma_keyword_letters();
    }
    if c == 'k' {
        Move::Go(State::S4)
    } else {
        state_114(c)
    }
}

/// `pack` has been read.
pub fn state_4(c: char) -> (m: Move<State>)
    ensures
        obeys(State::S4, c, m),
{
    proof {
        lemma_keyword_letters();
    }
    if c == 'a' {
        Move::Go(State::S5)
    } else {
        state_114(c)
    }
}

/// `packa` has been read.
pub fn state_5(c: char) -> (m: Move<State>)
    ensures
        obeys(State::S5, c, m),
{
    proof {
        lemma_keyword_letters();
    }
    if c == 'g' {
        Move::Go(State::S6)
    } else {
        state_114(c)
    }
}

/// `packag` has been read.
pub fn state_6(c: char) -> (m: Move<State>)
    ensures
        obeys(State::S6, c, m),
{
    proof {
        lemma_keyword_letters();
    }
    if c == 'e' {
        Move::Go(State::S7)
    } else {
        state_114(c)
    }
}

/// `package` has been read: the keyword, if it ends here.
pub fn state_7(c: char) -> (m: Move<State>)
    ensures
        obeys(State::S7, c, m),
{
    proof {
        lemma_keyword_letters();
    }
    if is_separator(c) {
        Move::Token(SymbolType::Keyword, 3)
    } else {
        state_114(c)
    }
}

/// `pr` has been read.
pub fn state_8(c: char) -> (m: Move<State>)
    ensures
        obeys(State::S8, c, m),
{
    proof {
        lemma_keyword_letters();
    }
    if c == 'i' {
        Move::Go(State::S9)
    } else if c == 'o' {
        Move::Go(State::S16)
    } else {
        state_114(c)
    }
}

/// `pri` has been read.
pub fn state_9(c: char) -> (m: Move<State>)
    ensures
        obeys(State::S9, c, m),
{
    proof {
        lemma_keyword_letters();
    }
    if c == 'v' {
        Move::Go(State::S10)
    } else if c == 'n' {
        Move::Go(State::S14)
    } else {
        state_114(c)
    }
}

/// `priv` has been read.
pub fn state_10(c: char) -> (m: Move<State>)
    ensures
        obeys(State::S10, c, m),
{
    proof {
        lemma_keyword_letters();
    }
    if c == 'a' {
        Move::Go(State::S11)
    } else {
        state_114(c)
    }
}

/// `priva` has been read.
pub fn state_11(c: char) -> (m: Move<State>)
    ensures
        obeys(State::S11, c, m),
{
    proof {
        lemma_keyword_letters();
    }
    if c == 't' {
        Move::Go(State::S12)
    } else {
        state_114(c)
    }
}

/// `privat` has been read.
pub fn state_12(c: char) -> (m: Move<State>)
    ensures
        obeys(State::S12, c, m),
{
    proof {
        lemma_keyword_letters();
    }
    if c == 'e' {
        Move::Go(State::S13)
    } else {
        state_114(c)
    }
}

/// `private` has been read: the keyword, if it ends here.
pub fn state_13(c: char) -> (m: Move<State>)
    ensures
        obeys(State::S13, c, m),
{
    proof {
        lemma_keyword_letters();
    }
    if is_separator(c) {
        Move::Token(SymbolType::Keyword, 8)
    } else {
        state_114(c)
    }
}

/// `prin` has been read.
pub fn state_14(c: char) -> (m: Move<State>)
    ensures
        obeys(State::S14, c, m),
{
    proof {
        lemma_keyword_letters();
    }
    if c == 't' {
        Move::Go(State::S15)
    } else {
        state_114(c)
    }
}

/// `print` has been read: the keyword, if it ends here.
pub fn state_15(c: char) -> (m: Move<State>)
    ensures
        obeys(State::S15, c, m),
{
    proof {
        lemma_keyword_letters();
    }
    if is_separator(c) {
        Move::Token(SymbolType::Keyword, 21)
    } else {
        state_114(c)
    }
}

/// `pro` has been read.
pub fn state_16(c: char) -> (m: Move<State>)
    ensures
        obeys(State::S16, c, m),
{
    proof {
        lemma_keyword_letters();
    }
    if c == 't' {
        Move::Go(State::S17)
    } else {
        state_114(c)
    }
}

/// `prot` has been read.
pub fn state_17(c: char) -> (m: Move<State>)
    ensures
        obeys(State::S17, c, m),
{
    proof {
        lemma_keyword_letters();
    }
    if c == 'e' {
        Move::Go(State::S18)
    } else {
        state_114(c)
    }
}

/// `prote` has been read.
pub fn state_18(c: char) -> (m: Move<State>)
    ensures
        obeys(State::S18, c, m),
{
    proof {
        lemma_keyword_letters();
    }
    if c == 'c' {
        Move::Go(State::S19)
    } else {
        state_114(c)
    }
}

/// `protec` has been read.
pub fn state_19(c: char) -> (m: Move<State>)
    ensures
        obeys(State::S19, c, m),
{
    proof {
        lemma_keyword_letters();
    }
    if c == 't' {
        Move::Go(State::S20)
    } else {
        state_114(c)
    }
}

/// `protect` has been read.
pub fn state_20(c: char) -> (m: Move<State>)
    ensures
        obeys(State::S20, c, m),
{
    proof {
        lemma_keyword_letters();
    }
    if c == 'e' {
        Move::Go(State::S21)
    } else {
        state_114(c)
    }
}

/// `protecte` has been read.
pub fn state_21(c: char) -> (m: Move<State>)
    ensures
        obeys(State::S21, c, m),
{
    proof {
        lemma_keyword_letters();
    }
    if c == 'd' {
        Move::Go(State::S22)
    } else {
        state_114(c)
    }
}

/// `protected` has been read: the keyword, if it ends here.
pub fn state_22(c: char) -> (m: Move<State>)
    ensures
        obeys(State::S22, c, m),
{
    proof {
        lemma_keyword_letters();
    }
    if is_separator(c) {
        Move::Token(SymbolType::Keyword, 9)
    } else {
        state_114(c)
    }
}

/// `i` has been read.
pub fn state_23(c: char) -> (m: Move<State>)
    ensures
        obeys(State::S23, c, m),
{
    proof {
        lemma_keyword_letters();
    }
    if c == 'm' {
        Move::Go(State::S24)
    } else if c == 'f' {
        Move::Go(State::S29)
    } else if c == 'n' {
        Move::Go(State::S30)
    } else {
        state_114(c)
    }
}

/// `im` has been read.
pub fn state_24(c: char) -> (m: Move<State>)
    ensures
        obeys(State::S24, c, m),
{
    proof {
        lemma_keyword_letters();
    }
    if c == 'p' {
        Move::Go(State::S25)
    } else {
        state_114(c)
    }
}

/// `imp` has been read.
pub fn state_25(c: char) -> (m: Move<State>)
    ensures
        obeys(State::S25, c, m),
{
    proof {
        lemma_keyword_letters();
    }
    if c == 'o' {
        Move::Go(State::S26)
    } else {
        state_114(c)
    }
}

/// `impo` has been read.
pub fn state_26(c: char) -> (m: Move<State>)
    ensures
        obeys(State::S26, c, m),
{
    proof {
        lemma_keyword_letters();
    }
    if c == 'r' {
        Move::Go(State::S27)
    } else {
        state_114(c)
    }
}

/// `impor` has been read.
pub fn state_27(c: char) -> (m: Move<State>)
    ensures
        obeys(State::S27, c, m),
{
    proof {
        lemma_keyword_letters();
    }
    if c == 't' {
        Move::Go(State::S28)
    } else {
        state_114(c)
    }
}

/// `import` has been read: the keyword, if it ends here.
pub fn state_28(c: char) -> (m: Move<State>)
    ensures
        obeys(State::S28, c, m),
{
    proof {
        lemma_keyword_letters();
    }
    if is_separator(c) {
        Move::Token(SymbolType::Keyword, 4)
    } else {
        state_114(c)
    }
}

/// `if` has been read: the keyword, if it ends here.
pub fn state_29(c: char) -> (m: Move<State>)
    ensures
        obeys(State::S29, c, m),
{
    proof {
        lemma_keyword_letters();
    }
    if is_separator(c) {
        Move::Token(SymbolType::Keyword, 15)
    } else {
        state_114(c)
    }
}

/// `in` has been read: the keyword, if it ends here.
pub fn state_30(c: char) -> (m: Move<State>)
    ensures
        obeys(State::S30, c, m),
{
    proof {
        lemma_keyword_letters();
    }
    if is_separator(c) {
        Move::Token(SymbolType::Keyword, 20)
    } else if c == 't' {
        Move::Go(State::S31)
    } else {
        state_114(c)
    }
}

/// `int` has been read: the keyword, if it ends here.
pub fn state_31(c: char) -> (m: Move<State>)
    ensures
        obeys(State::S31, c, m),
{
    proof {
        lemma_keyword_letters();
    }
    if is_separator(c) {
        Move::Token(SymbolType::Keyword, 28)
    } else {
        state_114(c)
    }
}

/// `a` has been read.
pub fn state_32(c: char) -> (m: Move<State>)
    ensures
        obeys(State::S32, c, m),
{
    proof {
        lemma_keyword_letters();
    }
    if c == 'b' {
        Move::Go(State::S33)
    } else if c == 'n' {
        Move::Go(State::S40)
    } else {
        state_114(c)
    }
}

/// `ab` has been read.
pub fn state_33(c: char) -> (m: Move<State>)
    ensures
        obeys(State::S33, c, m),
{
    proof {
        lemma_keyword_letters();
    }
    if c == 's' {
        Move::Go(State::S34)
    } else {
        state_114(c)
    }
}

/// `abs` has been read.
pub fn state_34(c: char) -> (m: Move<State>)
    ensures
        obeys(State::S34, c, m),
{
    proof {
        lemma_keyword_letters();
    }
    if c == 't' {
        Move::Go(State::S35)
    } else {
        state_114(c)
    }
}

/// `abst` has been read.
pub fn state_35(c: char) -> (m: Move<State>)
    ensures
        obeys(State::S35, c, m),
{
    proof {
        lemma_keyword_letters();
    }
    if c == 'r' {
        Move::Go(State::S36)
    } else {
        state_114(c)
    }
}

/// `abstr` has been read.
pub fn state_36(c: char) -> (m: Move<State>)
    ensures
        obeys(State::S36, c, m),
{
    proof {
        lemma_keyword_letters();
    }
    if c == 'a' {
        Move::Go(State::S37)
    } else {
        state_114(c)
    }
}

/// `abstra` has been read.
pub fn state_37(c: char) -> (m: Move<State>)
    ensures
        obeys(State::S37, c, m),
{
    proof {
        lemma_keyword_letters();
    }
    if c == 'c' {
        Move::Go(State::S38)
    } else {
        state_114(c)
    }
}

/// `abstrac` has been read.
pub fn state_38(c: char) -> (m: Move<State>)
    ensures
        obeys(State::S38, c, m),
{
    proof {
        lemma_keyword_letters();
    }
    if c == 't' {
        Move::Go(State::S39)
    } else {
        state_114(c)
    }
}

/// `abstract` has been read: the keyword, if it ends here.
pub fn state_39(c: char) -> (m: Move<State>)
    ensures
        obeys(State::S39, c, m),
{
    proof {
        lemma_keyword_letters();
    }
    if is_separator(c) {
        Move::Token(SymbolType::Keyword, 5)
    } else {
        state_114(c)
    }
}

/// `an` has been read.
pub fn state_40(c: char) -> (m: Move<State>)
    ensures
        obeys(State::S40, c, m),
{
    proof {
        lemma_keyword_letters();
    }
    if c == 'd' {
        Move::Go(State::S41)
    } else {
        state_114(c)
    }
}

/// `and` has been read: the keyword, if it ends here.
pub fn state_41(c: char) -> (m: Move<State>)
    ensures
        obeys(State::S41, c, m),
{
    proof {
        lemma_keyword_letters();
    }
    if is_separator(c) {
        Move::Token(SymbolType::Keyword, 26)
    } else {
        state_114(c)
    }
}

/// `f` has been read.
pub fn state_42(c: char) -> (m: Move<State>)
    ensures
        obeys(State::S42, c, m),
{
    proof {
        lemma_keyword_letters();
    }
    if c == 'i' {
        Move::Go(State::S43)
    } else if c == 'a' {
        Move::Go(State::S47)
    } else {
        state_114(c)
    }
}

/// `fi` has been read.
pub fn state_43(c: char) -> (m: Move<State>)
    ensures
        obeys(State::S43, c, m),
{
    proof {
        lemma_keyword_letters();
    }
    if c == 'n' {
        Move::Go(State::S44)
    } else {
        state_114(c)
    }
}

/// `fin` has been read.
pub fn state_44(c: char) -> (m: Move<State>)
    ensures
        obeys(State::S44, c, m),
{
    proof {
        lemma_keyword_letters();
    }
    if c == 'a' {
        Move::Go(State::S45)
    } else {
        state_114(c)
    }
}

/// `fina` has been read.
pub fn state_45(c: char) -> (m: Move<State>)
    ensures
        obeys(State::S45, c, m),
{
    proof {
        lemma_keyword_letters();
    }
    if c == 'l' {
        Move::Go(State::S46)
    } else {
        state_114(c)
    }
}

/// `final` has been read: the keyword, if it ends here.
pub fn state_46(c: char) -> (m: Move<State>)
    ensures
        obeys(State::S46, c, m),
{
    proof {
        lemma_keyword_letters();
    }
    if is_separator(c) {
        Move::Token(SymbolType::Keyword, 6)
    } else {
        state_114(c)
    }
}

/// `fa` has been read.
pub fn state_47(c: char) -> (m: Move<State>)
    ensures
        obeys(State::S47, c, m),
{
    proof {
        lemma_keyword_letters();
    }
    if c == 'l' {
        Move::Go(State::S48)
    } else {
        state_114(c)
    }
}

/// `fal` has been read.
pub fn state_48(c: char) -> (m: Move<State>)
    ensures
        obeys(State::S48, c, m),
{
    proof {
        lemma_keyword_letters();
    }
    if c == 's' {
        Move::Go(State::S49)
    } else {
        state_114(c)
    }
}

/// `fals` has been read.
pub fn state_49(c: char) -> (m: Move<State>)
    ensures
        obeys(State::S49, c, m),
{
    proof {
        lemma_keyword_letters();
    }
    if c == 'e' {
        Move::Go(State::S50)
    } else {
        state_114(c)
    }
}

/// `false` has been read: the keyword, if it ends here.
pub fn state_50(c: char) -> (m: Move<State>)
    ensures
        obeys(State::S50, c, m),
{
    proof {
        lemma_keyword_letters();
    }
    if is_separator(c) {
        Move::Token(SymbolType::Keyword, 25)
    } else {
        state_114(c)
    }
}

/// `s` has been read.
pub fn state_51(c: char) -> (m: Move<State>)
    ensures
        obeys(State::S51, c, m),
{
    proof {
        lemma_keyword_letters();
    }
    if c == 'e' {
        Move::Go(State::S52)
    } else {
        state_114(c)
    }
}

/// `se` has been read.
pub fn state_52(c: char) -> (m: Move<State>)
    ensures
        obeys(State::S52, c, m),
{
    proof {
        lemma_keyword_letters();
    }
    if c == 'a' {
        Move::Go(State::S53)
    } else {
        state_114(c)
    }
}

/// `sea` has been read.
pub fn state_53(c: char) -> (m: Move<State>)
    ensures
        obeys(State::S53, c, m),
{
    proof {
        lemma_keyword_letters();
    }
    if c == 'l' {
        Move::Go(State::S54)
    } else {
        state_114(c)
    }
}

/// `seal` has been read.
pub fn state_54(c: char) -> (m: Move<State>)
    ensures
        obeys(State::S54, c, m),
{
    proof {
        lemma_keyword_letters();
    }
    if c == 'e' {
        Move::Go(State::S55)
    } else {
        state_114(c)
    }
}

/// `seale` has been read.
pub fn state_55(c: char) -> (m: Move<State>)
    ensures
        obeys(State::S55, c, m),
{
    proof {
        lemma_keyword_letters();
    }
    if c == 'd' {
        Move::Go(State::S56)
    } else {
        state_114(c)
    }
}

/// `sealed` has been read: the keyword, if it ends here.
pub fn state_56(c: char) -> (m: Move<State>)
    ensures
        obeys(State::S56, c, m),
{
    proof {
        lemma_keyword_letters();
    }
    if is_separator(c) {
        Move::Token(SymbolType::Keyword, 7)
    } else {
        state_114(c)
    }
}

/// `b` has been read.
pub fn state_57(c: char) -> (m: Move<State>)
    ensures
        obeys(State::S57, c, m),
{
    proof {
        lemma_keyword_letters();
    }
    if c == 'o' {
        Move::Go(State::S58)
    } else {
        state_114(c)
    }
}

/// `bo` has been read.
pub fn state_58(c: char) -> (m: Move<State>)
    ensures
        obeys(State::S58, c, m),
{
    proof {
        lemma_keyword_letters();
    }
    if c == 'o' {
        Move::Go(State::S59)
    } else {
        state_114(c)
    }
}

/// `boo` has been read.
pub fn state_59(c: char) -> (m: Move<State>)
    ensures
        obeys(State::S59, c, m),
{
    proof {
        lemma_keyword_letters();
    }
    if c == 'l' {
        Move::Go(State::S60)
    } else {
        state_114(c)
    }
}

/// `bool` has been read: the keyword, if it ends here.
pub fn state_60(c: char) -> (m: Move<State>)
    ensures
        obeys(State::S60, c, m),
{
    proof {
        lemma_keyword_letters();
    }
    if is_separator(c) {
        Move::Token(SymbolType::Keyword, 30)
    } else {
        state_114(c)
    }
}

/// `c` has been read.
pub fn state_61(c: char) -> (m: Move<State>)
    ensures
        obeys(State::S61, c, m),
{
    proof {
        lemma_keyword_letters();
    }
    if c == 'l' {
        Move::Go(State::S62)
    } else if c == 'a' {
        Move::Go(State::S66)
    } else {
        state_114(c)
    }
}

/// `cl` has been read.
pub fn state_62(c: char) -> (m: Move<State>)
    ensures
        obeys(State::S62, c, m),
{
    proof {
        lemma_keyword_letters();
    }
    if c == 'a' {
        Move::Go(State::S63)
    } else {
        state_114(c)
    }
}

/// `cla` has been read.
pub fn state_63(c: char) -> (m: Move<State>)
    ensures
        obeys(State::S63, c, m),
{
    proof {
        lemma_keyword_letters();
    }
    if c == 's' {
        Move::Go(State::S64)
    } else {
        state_114(c)
    }
}

/// `clas` has been read.
pub fn state_64(c: char) -> (m: Move<State>)
    ensures
        obeys(State::S64, c, m),
{
    proof {
        lemma_keyword_letters();
    }
    if c == 's' {
        Move::Go(State::S65)
    } else {
        state_114(c)
    }
}

/// `class` has been read: the keyword, if it ends here.
pub fn state_65(c: char) -> (m: Move<State>)
    ensures
        obeys(State::S65, c, m),
{
    proof {
        lemma_keyword_letters();
    }
    if is_separator(c) {
        Move::Token(SymbolType::Keyword, 10)
    } else {
        state_114(c)
    }
}

/// `ca` has been read.
pub fn state_66(c: char) -> (m: Move<State>)
    ensures
        obeys(State::S66, c, m),
{
    proof {
        lemma_keyword_letters();
    }
    if c == 's' {
        Move::Go(State::S67)
    } else {
        state_114(c)
    }
}

/// `cas` has been read.
pub fn state_67(c: char) -> (m: Move<State>)
    ensures
        obeys(State::S67, c, m),
{
    proof {
        lemma_keyword_letters();
    }
    if c == 'e' {
        Move::Go(State::S68)
    } else {
        state_114(c)
    }
}

/// `case` has been read: the keyword, if it ends here.
pub fn state_68(c: char) -> (m: Move<State>)
    ensures
        obeys(State::S68, c, m),
{
    proof {
        lemma_keyword_letters();
    }
    if is_separator(c) {
        Move::Token(SymbolType::Keyword, 18)
    } else {
        state_114(c)
    }
}

/// `d` has been read.
pub fn state_69(c: char) -> (m: Move<State>)
    ensures
        obeys(State::S69, c, m),
{
    proof {
        lemma_keyword_letters();
    }
    if c == 'e' {
        Move::Go(State::S70)
    } else {
        state_114(c)
    }
}

/// `de` has been read.
pub fn state_70(c: char) -> (m: Move<State>)
    ensures
        obeys(State::S70, c, m),
{
    proof {
        lemma_keyword_letters();
    }
    if c == 'f' {
        Move::Go(State::S71)
    } else {
        state_114(c)
    }
}

/// `def` has been read: the keyword, if it ends here.
pub fn state_71(c: char) -> (m: Move<State>)
    ensures
        obeys(State::S71, c, m),
{
    proof {
        lemma_keyword_letters();
    }
    if is_separator(c) {
        Move::Token(SymbolType::Keyword, 13)
    } else {
        state_114(c)
    }
}

/// `e` has been read.
pub fn state_72(c: char) -> (m: Move<State>)
    ensures
        obeys(State::S72, c, m),
{
    proof {
        lemma_keyword_letters();
    }
    if c == 'l' {
        Move::Go(State::S73)
    } else {
        state_114(c)
    }
}

/// `el` has been read.
pub fn state_73(c: char) -> (m: Move<State>)
    ensures
        obeys(State::S73, c, m),
{
    proof {
        lemma_keyword_letters();
    }
    if c == 's' {
        Move::Go(State::S74)
    } else {
        state_114(c)
    }
}

/// `els` has been read.
pub fn state_74(c: char) -> (m: Move<State>)
    ensures
        obeys(State::S74, c, m),
{
    proof {
        lemma_keyword_letters();
    }
    if c == 'e' {
        Move::Go(State::S75)
    } else {
        state_114(c)
    }
}

/// `else` has been read: the keyword, if it ends here.
pub fn state_75(c: char) -> (m: Move<State>)
    ensures
        obeys(State::S75, c, m),
{
    proof {
        lemma_keyword_letters();
    }
    if is_separator(c) {
        Move::Token(SymbolType::Keyword, 16)
    } else {
        state_114(c)
    }
}

/// `=` has been read.
pub fn state_76(c: char) -> (m: Move<State>)
    ensures
        obeys(State::S76, c, m),
{
    if is_separator(c) {
        Move::Token(SymbolType::SpecialSymbol, 38)
    } else if c == '>' {
        Move::Go(State::S77)
    } else {
        Move::Go(State::S128)
    }
}

/// `=>` has been read.
pub fn state_77(c: char) -> (m: Move<State>)
    ensures
        obeys(State::S77, c, m),
{
    if is_separator(c) {
        Move::Token(SymbolType::Keyword, 19)
    } else {
        Move::Go(State::S128)
    }
}

/// `<` has been read.
pub fn state_78(c: char) -> (m: Move<State>)
    ensures
        obeys(State::S78, c, m),
{
    if c == '=' {
        Move::Go(State::S79)
    } else {
        state_128(c)
    }
}

/// `<=` has been read.
pub fn state_79(c: char) -> (m: Move<State>)
    ensures
        obeys(State::S79, c, m),
{
    if is_separator(c) {
        Move::Token(SymbolType::Keyword, 14)
    } else {
        Move::Go(State::S128)
    }
}

/// `n` has been read.
pub fn state_80(c: char) -> (m: Move<State>)
    ensures
        obeys(State::S80, c, m),
{
    proof {
        lemma_keyword_letters();
    }
    if c == 'o' {
        Move::Go(State::S81)
    } else {
        state_114(c)
    }
}

/// `no` has been read.
pub fn state_81(c: char) -> (m: Move<State>)
    ensures
        obeys(State::S81, c, m),
{
    proof {
        lemma_keyword_letters();
    }
    if c == 't' {
        Move::Go(State::S82)
    } else {
        state_114(c)
    }
}

/// `not` has been read: the keyword, if it ends here.
pub fn state_82(c: char) -> (m: Move<State>)
    ensures
        obeys(State::S82, c, m),
{
    proof {
        lemma_keyword_letters();
    }
    if is_separator(c) {
        Move::Token(SymbolType::Keyword, 23)
    } else {
        state_114(c)
    }
}

/// `o` has been read.
pub fn state_83(c: char) -> (m: Move<State>)
    ensures
        obeys(State::S83, c, m),
{
    proof {
        lemma_keyword_letters();
    }
    if c == 'r' {
        Move::Go(State::S84)
    } else if c == 'b' {
        Move::Go(State::S85)
    } else {
        state_114(c)
    }
}

/// `or` has been read: the keyword, if it ends here.
pub fn state_84(c: char) -> (m: Move<State>)
    ensures
        obeys(State::S84, c, m),
{
    proof {
        lemma_keyword_letters();
    }
    if is_separator(c) {
        Move::Token(SymbolType::Keyword, 27)
    } else {
        state_114(c)
    }
}

/// `ob` has been read.
pub fn state_85(c: char) -> (m: Move<State>)
    ensures
        obeys(State::S85, c, m),
{
    proof {
        lemma_keyword_letters();
    }
    if c == 'j' {
        Move::Go(State::S86)
    } else {
        state_114(c)
    }
}

/// `obj` has been read.
pub fn state_86(c: char) -> (m: Move<State>)
    ensures
        obeys(State::S86, c, m),
{
    proof {
        lemma_keyword_letters();
    }
    if c == 'e' {
        Move::Go(State::S87)
    } else {
        state_114(c)
    }
}

/// `obje` has been read.
pub fn state_87(c: char) -> (m: Move<State>)
    ensures
        obeys(State::S87, c, m),
{
    proof {
        lemma_keyword_letters();
    }
    if c == 'c' {
        Move::Go(State::S88)
    } else {
        state_114(c)
    }
}

/// `objec` has been read.
pub fn state_88(c: char) -> (m: Move<State>)
    ensures
        obeys(State::S88, c, m),
{
    proof {
        lemma_keyword_letters();
    }
    if c == 't' {
        Move::Go(State::S89)
    } else {
        state_114(c)
    }
}

/// `object` has been read: the keyword, if it ends here.
pub fn state_89(c: char) -> (m: Move<State>)
    ensures
        obeys(State::S89, c, m),
{
    proof {
        lemma_keyword_letters();
    }
    if is_separator(c) {
        Move::Token(SymbolType::Keyword, 11)
    } else {
        state_114(c)
    }
}

/// `r` has been read.
pub fn state_90(c: char) -> (m: Move<State>)
    ensures
        obeys(State::S90, c, m),
{
    proof {
        lemma_keyword_letters();
    }
    if c == 'e' {
        Move::Go(State::S91)
    } else {
        state_114(c)
    }
}

/// `re` has been read.
pub fn state_91(c: char) -> (m: Move<State>)
    ensures
        obeys(State::S91, c, m),
{
    proof {
        lemma_keyword_letters();
    }
    if c == 't' {
        Move::Go(State::S92)
    } else if c == 'a' {
        Move::Go(State::S96)
    } else {
        state_114(c)
    }
}

/// `ret` has been read.
pub fn state_92(c: char) -> (m: Move<State>)
    ensures
        obeys(State::S92, c, m),
{
    proof {
        lemma_keyword_letters();
    }
    if c == 'u' {
        Move::Go(State::S93)
    } else {
        state_114(c)
    }
}

/// `retu` has been read.
pub fn state_93(c: char) -> (m: Move<State>)
    ensures
        obeys(State::S93, c, m),
{
    proof {
        lemma_keyword_letters();
    }
    if c == 'r' {
        Move::Go(State::S94)
    } else {
        state_114(c)
    }
}

/// `retur` has been read.
pub fn state_94(c: char) -> (m: Move<State>)
    ensures
        obeys(State::S94, c, m),
{
    proof {
        lemma_keyword_letters();
    }
    if c == 'n' {
        Move::Go(State::S95)
    } else {
        state_114(c)
    }
}

/// `return` has been read: the keyword, if it ends here.
pub fn state_95(c: char) -> (m: Move<State>)
    ensures
        obeys(State::S95, c, m),
{
    proof {
        lemma_keyword_letters();
    }
    if is_separator(c) {
        Move::Token(SymbolType::Keyword, 22)
    } else {
        state_114(c)
    }
}

/// `rea` has been read.
pub fn state_96(c: char) -> (m: Move<State>)
    ensures
        obeys(State::S96, c, m),
{
    proof {
        lemma_keyword_letters();
    }
    if c == 'l' {
        Move::Go(State::S97)
    } else {
        state_114(c)
    }
}

/// `real` has been read: the keyword, if it ends here.
pub fn state_97(c: char) -> (m: Move<State>)
    ensures
        obeys(State::S97, c, m),
{
    proof {
        lemma_keyword_letters();
    }
    if is_separator(c) {
        Move::Token(SymbolType::Keyword, 29)
    } else {
        state_114(c)
    }
}

/// `t` has been read.
pub fn state_98(c: char) -> (m: Move<State>)
    ensures
        obeys(State::S98, c, m),
{
    proof {
        lemma_keyword_letters();
    }
    if c == 'r' {
        Move::Go(State::S99)
    } else {
        state_114(c)
    }
}

/// `tr` has been read.
pub fn state_99(c: char) -> (m: Move<State>)
    ensures
        obeys(State::S99, c, m),
{
    proof {
        lemma_keyword_letters();
    }
    if c == 'u' {
        Move::Go(State::S100)
    } else {
        state_114(c)
    }
}

/// `tru` has been read.
pub fn state_100(c: char) -> (m: Move<State>)
    ensures
        obeys(State::S100, c, m),
{
    proof {
        lemma_keyword_letters();
    }
    if c == 'e' {
        Move::Go(State::S101)
    } else {
        state_114(c)
    }
}

/// `true` has been read: the keyword, if it ends here.
pub fn state_101(c: char) -> (m: Move<State>)
    ensures
        obeys(State::S101, c, m),
{
    proof {
        lemma_keyword_letters();
    }
    if is_separator(c) {
        Move::Token(SymbolType::Keyword, 24)
    } else {
        state_114(c)
    }
}

/// `v` has been read.
pub fn state_102(c: char) -> (m: Move<State>)
    ensures
        obeys(State::S102, c, m),
{
    proof {
        lemma_keyword_letters();
    }
    if c == 'a' {
        Move::Go(State::S103)
    } else {
        state_114(c)
    }
}

/// `va` has been read.
pub fn state_103(c: char) -> (m: Move<State>)
    ensures
        obeys(State::S103, c, m),
{
    proof {
        lemma_keyword_letters();
    }
    if c == 'l' {
        Move::Go(State::S104)
    } else {
        state_114(c)
    }
}

/// `val` has been read: the keyword, if it ends here.
pub fn state_104(c: char) -> (m: Move<State>)
    ensures
        obeys(State::S104, c, m),
{
    proof {
        lemma_keyword_letters();
    }
    if is_separator(c) {
        Move::Token(SymbolType::Keyword, 12)
    } else {
        state_114(c)
    }
}

/// `w` has been read.
pub fn state_105(c: char) -> (m: Move<State>)
    ensures
        obeys(State::S105, c, m),
{
    proof {
        lemma_keyword_letters();
    }
    if c == 'h' {
        Move::Go(State::S106)
    } else {
        state_114(c)
    }
}

/// `wh` has been read.
pub fn state_106(c: char) -> (m: Move<State>)
    ensures
        obeys(State::S106, c, m),
{
    proof {
        lemma_keyword_letters();
    }
    if c == 'i' {
        Move::Go(State::S107)
    } else {
        state_114(c)
    }
}

/// `whi` has been read.
pub fn state_107(c: char) -> (m: Move<State>)
    ensures
        obeys(State::S107, c, m),
{
    proof {
        lemma_keyword_letters();
    }
    if c == 'l' {
        Move::Go(State::S108)
    } else {
        state_114(c)
    }
}

/// `whil` has been read.
pub fn state_108(c: char) -> (m: Move<State>)
    ensures
        obeys(State::S108, c, m),
{
    proof {
        lemma_keyword_letters();
    }
    if c == 'e' {
        Move::Go(State::S109)
    } else {
        state_114(c)
    }
}

/// `while` has been read: the keyword, if it ends here.
pub fn state_109(c: char) -> (m: Move<State>)
    ensures
        obeys(State::S109, c, m),
{
    proof {
        lemma_keyword_letters();
    }
    if is_separator(c) {
        Move::Token(SymbolType::Keyword, 17)
    } else {
        state_114(c)
    }
}

/// A leading period has been read.
pub fn state_110(c: char) -> (m: Move<State>)
    ensures
        obeys(State::S110, c, m),
{
    if is_digit(c) {
        Move::Go(State::S111)
    } else if c == '.' {
        Move::Go(State::S126)
    } else {
        state_128(c)
    }
}

/// A leading period and digits have been read.
pub fn state_111(c: char) -> (m: Move<State>)
    ensures
        obeys(State::S111, c, m),
{
    if is_separator(c) {
        Move::Token(SymbolType::Constant, 2)
    } else if is_digit(c) {
        Move::Go(State::S111)
    } else if c == '.' {
        Move::Go(State::S126)
    } else {
        Move::Go(State::S128)
    }
}

/// Digits have been read. `letter` says whether `c` is alphabetic.
pub fn state_112(c: char, letter: bool) -> (m: Move<State>)
    ensures
        carries_out(integer_step(c, letter), Seq::empty(), c, m),
{
    if is_separator(c) {
        Move::Token(SymbolType::Constant, 2)
    } else if is_digit(c) {
        Move::Go(State::S112)
    } else if c == '.' {
        Move::Go(State::S113)
    } else if letter {
        Move::Go(State::S127)
    } else {
        Move::Go(State::S128)
    }
}

/// Digits, a period, and maybe more digits have been read.
pub fn state_113(c: char) -> (m: Move<State>)
    ensures
        obeys(State::S113, c, m),
{
    if is_separator(c) {
        Move::Token(SymbolType::Constant, 2)
    } else if is_digit(c) {
        Move::Go(State::S113)
    } else if c == '.' {
        Move::Go(State::S126)
    } else {
        Move::Go(State::S128)
    }
}

/// A word has been read that is no keyword and cannot become one.
pub fn state_114(c: char) -> (m: Move<State>)
    ensures
        m == identifier_move(c),
{
    if is_separator(c) {
        Move::Token(SymbolType::Identifier, 1)
    } else if is_word_char(c) {
        Move::Go(State::S114)
    } else {
        Move::Go(State::S128)
    }
}

/// A second period has been read in a constant.
pub fn state_126(c: char) -> (m: Move<State>)
    ensures
        obeys(State::S126, c, m),
{
    if is_separator(c) {
        Move::Fail(ErrorType::ConstantHasTooManyPeriods)
    } else {
        Move::Go(State::S126)
    }
}

/// A letter has been read after digits.
pub fn state_127(c: char) -> (m: Move<State>)
    ensures
        obeys(State::S127, c, m),
{
    if is_separator(c) {
        Move::Fail(ErrorType::IdentifierBeginsWithNumber)
    } else {
        Move::Go(State::S127)
    }
}

/// The lexeme fits no token.
pub fn state_128(c: char) -> (m: Move<State>)
    ensures
        obeys(State::S128, c, m),
{
    if is_separator(c) {
        Move::Fail(ErrorType::InvalidSymbol)
    } else {
        Move::Go(State::S128)
    }
}

/// The move that `c` makes in `state`.
pub fn advance(state: State, c: char) -> (m: Move<State>)
    ensures
        obeys(state, c, m),
{
    match state {
        State::S1 => state_1(c),
        State::S2 => state_2(c),
        State::S3 => state_3(c),
        State::S4 => state_4(c),
        State::S5 => state_5(c),
        State::S6 => state_6(c),
        State::S7 => state_7(c),
        State::S8 => state_8(c),
        State::S9 => state_9(c),
        State::S10 => state_10(c),
        State::S11 => state_11(c),
        State::S12 => state_12(c),
        State::S13 => state_13(c),
        State::S14 => state_14(c),
        State::S15 => state_15(c),
        State::S16 => state_16(c),
        State::S17 => state_17(c),
        State::S18 => state_18(c),
        State::S19 => state_19(c),
        State::S20 => state_20(c),
        State::S21 => state_21(c),
        State::S22 => state_22(c),
        State::S23 => state_23(c),
        State::S24 => state_24(c),
        State::S25 => state_25(c),
        State::S26 => state_26(c),
        State::S27 => state_27(c),
        State::S28 => state_28(c),
        State::S29 => state_29(c),
        State::S30 => state_30(c),
        State::S31 => state_31(c),
        State::S32 => state_32(c),
        State::S33 => state_33(c),
        State::S34 => state_34(c),
        State::S35 => state_35(c),
        State::S36 => state_36(c),
        State::S37 => state_37(c),
        State::S38 => state_38(c),
        State::S39 => state_39(c),
        State::S40 => state_40(c),
        State::S41 => state_41(c),
        State::S42 => state_42(c),
        State::S43 => state_43(c),
        State::S44 => state_44(c),
        State::S45 => state_45(c),
        State::S46 => state_46(c),
        State::S47 => state_47(c),
        State::S48 => state_48(c),
        State::S49 => state_49(c),
        State::S50 => state_50(c),
        State::S51 => state_51(c),
        State::S52 => state_52(c),
        State::S53 => state_53(c),
        State::S54 => state_54(c),
        State::S55 => state_55(c),
        State::S56 => state_56(c),
        State::S57 => state_57(c),
        State::S58 => state_58(c),
        State::S59 => state_59(c),
        State::S60 => state_60(c),
        State::S61 => state_61(c),
        State::S62 => state_62(c),
        State::S63 => state_63(c),
        State::S64 => state_64(c),
        State::S65 => state_65(c),
        State::S66 => state_66(c),
        State::S67 => state_67(c),
        State::S68 => state_68(c),
        State::S69 => state_69(c),
        State::S70 => state_70(c),
        State::S71 => state_71(c),
        State::S72 => state_72(c),
        State::S73 => state_73(c),
        State::S74 => state_74(c),
        State::S75 => state_75(c),
        State::S76 => state_76(c),
        State::S77 => state_77(c),
        State::S78 => state_78(c),
        State::S79 => state_79(c),
        State::S80 => state_80(c),
        State::S81 => state_81(c),
        State::S82 => state_82(c),
        State::S83 => state_83(c),
        State::S84 => state_84(c),
        State::S85 => state_85(c),
        State::S86 => state_86(c),
        State::S87 => state_87(c),
        State::S88 => state_88(c),
        State::S89 => state_89(c),
        State::S90 => state_90(c),
        State::S91 => state_91(c),
        State::S92 => state_92(c),
        State::S93 => state_93(c),
        State::S94 => state_94(c),
        State::S95 => state_95(c),
        State::S96 => state_96(c),
        State::S97 => state_97(c),
        State::S98 => state_98(c),
        State::S99 => state_99(c),
        State::S100 => state_100(c),
        State::S101 => state_101(c),
        State::S102 => state_102(c),
        State::S103 => state_103(c),
        State::S104 => state_104(c),
        State::S105 => state_105(c),
        State::S106 => state_106(c),
        State::S107 => state_107(c),
        State::S108 => state_108(c),
        State::S109 => state_109(c),
        State::S110 => state_110(c),
        State::S111 => state_111(c),
        State::S112 => state_112(c, is_alphabetic(c)),
        State::S113 => state_113(c),
        State::S114 => state_114(c),
        State::S126 => state_126(c),
        State::S127 => state_127(c),
        State::S128 => state_128(c),
    }
}

} // verus!
