//! The lexical scanner: from source text to tokens, one request at a
//! time.
//!
//! What a request does is stated over a model of the scanner, the
//! `ScannerView`, by the spec functions `read`, `run`, `start` and
//! `request`. The executable scanner is proved to do exactly that.

use crate::automaton::{
    advance, first_move, first_step, lemma_obeys, phase_of, phase_step, tracks, Move, Phase,
};
use crate::bookkeeper::{
    entry_of, Bookkeeper, SymbolTableTokenView, SymbolType, Token, TokenView,
};
use crate::error::{Error, ErrorView};
use crate::lexicon::{match_special_symbol_to_code, special_symbol_code};
use crate::rules::{code_label, code_name, COMMENT_CODE};
use crate::text::{is_special_symbol, is_whitespace, push_char};
use std::collections::VecDeque;
use vstd::prelude::*;
use vstd::std_specs::iter::IteratorSpec;
use vstd::string::*;

verus! {

/// Where the scanner stands in a source text.
pub struct Cursor {
    /// How many characters of the source are behind the scanner.
    pub index: int,
    /// The number of the line that is being read. The first line is 1.
    pub line: nat,
    /// Whether the rest of the line is a comment.
    pub comment: bool,
    /// The lexeme under construction.
    pub text: Seq<char>,
    /// The special symbols that were split off a lexeme and wait to be
    /// handed out, oldest first.
    pub queue: Seq<TokenView>,
}

/// The scanner as the contracts see it.
pub struct ScannerView {
    pub source: Seq<char>,
    pub cursor: Cursor,
    /// The entries of the symbol table.
    pub symbols: Set<SymbolTableTokenView>,
}

/// What one run of the automaton leaves behind: the cursor, and a token
/// or an error or neither.
pub struct Scan {
    pub cursor: Cursor,
    pub token: Option<TokenView>,
    pub error: Option<ErrorView>,
}

impl Cursor {
    /// The cursor lies within the source, and a lexeme under construction
    /// has taken at least one character from it.
    pub open spec fn within(self, source: Seq<char>) -> bool {
        &&& 0 <= self.index <= source.len()
        &&& self.text.len() > 0 ==> self.index > 0
    }

    /// What is still to come: the characters not yet read and the tokens
    /// that wait in the queue.
    pub open spec fn remaining(self, source: Seq<char>) -> int {
        source.len() - self.index + self.queue.len()
    }
}

impl ScannerView {
    /// Whether every character of the source has been read.
    pub open spec fn is_done(self) -> bool {
        self.cursor.index >= self.source.len()
    }

    /// The scanner before its first request on `source`, with `symbols`
    /// in the symbol table.
    pub open spec fn initial(
        source: Seq<char>,
        symbols: Set<SymbolTableTokenView>,
    ) -> ScannerView {
        ScannerView {
            source,
            cursor: Cursor {
                index: 0,
                line: 1,
                comment: false,
                text: Seq::empty(),
                queue: Seq::empty(),
            },
            symbols,
        }
    }
}

/// The view of a token that may be there.
pub open spec fn token_view(token: Option<Token>) -> Option<TokenView> {
    match token {
        Some(t) => Some(t@),
        None => None,
    }
}

/// The view of an error that may be there.
pub open spec fn error_view(error: Option<Error>) -> Option<ErrorView> {
    match error {
        Some(e) => Some(e@),
        None => None,
    }
}

/// The place of the first newline at or after `from`, or the length of
/// the source where none follows.
pub open spec fn line_end(source: Seq<char>, from: int) -> int
    decreases source.len() - from,
{
    if from < 0 || from >= source.len() {
        source.len() as int
    } else if source[from] == '\n' {
        from
    } else {
        line_end(source, from + 1)
    }
}

/// The token for a special symbol that stood right behind a lexeme.
pub open spec fn attached_symbol(c: char, line: nat) -> TokenView {
    TokenView {
        token: seq![c],
        symbol_type: SymbolType::SpecialSymbol,
        line_number: line,
        code: special_symbol_code(c),
    }
}

/// Reads one character: the cursor afterwards, and the character that the
/// automaton gets to see.
///
/// - At the end of the source nothing is read and a blank is seen.
/// - The line number goes up when the character before was a newline,
///   and a comment ends there.
/// - Inside a comment the rest of the line is passed over, newline
///   included, and white space is seen.
/// - A special symbol right behind a lexeme is queued as a token of its
///   own, and the next character is read. Only `=` behind `<` joins the
///   lexeme.
/// - `$` ends the program: the cursor jumps to the end of the source and a
///   blank is seen.
/// - Anything else is seen as it is, and joins the lexeme unless it is
///   white space or a special symbol other than `=`.
pub open spec fn read(source: Seq<char>, k: Cursor) -> (Cursor, char)
    decreases source.len() - k.index,
{
    if k.index < 0 || k.index >= source.len() {
        (k, ' ')
    } else {
        let c = source[k.index];
        let fresh = k.index > 0 && source[k.index - 1] == '\n';
        let line = if fresh {
            k.line + 1
        } else {
            k.line
        };
        let comment = k.comment && !fresh;
        if comment {
            let end = line_end(source, k.index);
            if end >= source.len() {
                (Cursor { index: source.len() as int, line, comment, ..k }, ' ')
            } else {
                (Cursor { index: end + 1, line, comment, ..k }, '\n')
            }
        } else if is_special_symbol(c) && k.text.len() > 0 {
            if c == '=' && k.index > 0 && source[k.index - 1] == '<' {
                (Cursor { index: k.index + 1, line, comment, text: k.text.push(c), ..k }, c)
            } else {
                read(
                    source,
                    Cursor {
                        index: k.index + 1,
                        line,
                        comment,
                        queue: k.queue.push(attached_symbol(c, line)),
                        ..k
                    },
                )
            }
        } else if c == '$' {
            (Cursor { index: source.len() as int, line, comment: true, ..k }, ' ')
        } else if is_whitespace(c) || (is_special_symbol(c) && c != '=') {
            (Cursor { index: k.index + 1, line, comment, ..k }, c)
        } else {
            (Cursor { index: k.index + 1, line, comment, text: k.text.push(c), ..k }, c)
        }
    }
}

/// The text of a token: what was read for an identifier or a constant,
/// and the fixed spelling of its code for anything else.
pub open spec fn lexeme(kind: SymbolType, code: u8, text: Seq<char>) -> Seq<char> {
    if kind == SymbolType::Identifier || kind == SymbolType::Constant {
        text
    } else if code == COMMENT_CODE {
        seq!['#']
    } else {
        code_name(code)
    }
}

/// How a run ends on a move that leaves the automaton. A token gets the
/// line of the cursor, and the mark that opens a comment turns the
/// comment on. An error carries the lexeme as far as it was read.
pub open spec fn conclude(step: Move<Phase>, k: Cursor) -> Scan {
    match step {
        Move::Token(kind, code) => Scan {
            cursor: Cursor { comment: k.comment || code == COMMENT_CODE, ..k },
            token: Some(
                TokenView {
                    token: lexeme(kind, code, k.text),
                    symbol_type: kind,
                    line_number: k.line,
                    code,
                },
            ),
            error: None,
        },
        Move::Fail(error_type) => Scan {
            cursor: k,
            token: None,
            error: Some(ErrorView { error_type, token: k.text }),
        },
        Move::Go(_) => Scan { cursor: k, token: None, error: None },
    }
}

/// The lexeme after `c` was seen: `c` joins it unless it is white space
/// or a special symbol other than `=`.
pub open spec fn joined(text: Seq<char>, c: char) -> Seq<char> {
    if is_whitespace(c) || (is_special_symbol(c) && c != '=') {
        text
    } else {
        text.push(c)
    }
}

/// What reading a character tells: the cursor does not go back, it goes
/// forward unless the source is at its end, and nothing is seen but a
/// blank where it stays. What is still to come does not grow.
pub proof fn lemma_read(source: Seq<char>, k: Cursor)
    requires
        k.within(source),
    ensures
        read(source, k).0.within(source),
        k.index <= read(source, k).0.index,
        k.index < source.len() ==> k.index < read(source, k).0.index,
        k.index == read(source, k).0.index ==> read(source, k).1 == ' ' && read(source, k).0 == k,
        read(source, k).0.remaining(source) <= k.remaining(source),
        k.index < source.len() && k.text.len() == 0 ==> read(source, k).0.remaining(source)
            < k.remaining(source),
        read(source, k).0.text == joined(k.text, read(source, k).1),
    decreases source.len() - k.index,
{
    if k.index < source.len() {
        let c = source[k.index];
        let fresh = k.index > 0 && source[k.index - 1] == '\n';
        let line = if fresh {
            k.line + 1
        } else {
            k.line
        };
        let comment = k.comment && !fresh;
        if comment {
            lemma_line_end(source, k.index);
        } else if is_special_symbol(c) && k.text.len() > 0 {
            if !(c == '=' && k.index > 0 && source[k.index - 1] == '<') {
                lemma_read(
                    source,
                    Cursor {
                        index: k.index + 1,
                        line,
                        comment,
                        queue: k.queue.push(attached_symbol(c, line)),
                        ..k
                    },
                );
            }
        }
    }
}

/// The end of a line lies at or after the place it is sought from, and
/// no newline lies between.
pub proof fn lemma_line_end(source: Seq<char>, from: int)
    requires
        0 <= from <= source.len(),
    ensures
        from <= line_end(source, from) <= source.len(),
        line_end(source, from) < source.len() ==> source[line_end(source, from)] == '\n',
        forall|i: int| from <= i < line_end(source, from) ==> source[i] != '\n',
    decreases source.len() - from,
{
    if from < source.len() && source[from] != '\n' {
        lemma_line_end(source, from + 1);
    }
}

/// Runs the automaton from `phase` until a move leaves it: the character
/// read decides the move, on the lexeme as it was before.
pub open spec fn run(source: Seq<char>, k: Cursor, phase: Phase) -> Scan
    decreases source.len() - k.index,
    when k.within(source)
    via run_ends
{
    let (after, c) = read(source, k);
    match phase_step(phase, k.text, c) {
        Move::Go(next) => run(source, after, next),
        step => conclude(step, after),
    }
}

#[via_fn]
proof fn run_ends(source: Seq<char>, k: Cursor, phase: Phase) {
    lemma_read(source, k);
}

/// What follows the first read of a request, where `c` was seen and `k`
/// is the cursor behind it: white space is skipped as long as the source
/// lasts, and the first character that is none starts the automaton.
pub open spec fn begin(source: Seq<char>, k: Cursor, c: char) -> Scan
    decreases source.len() - k.index, 1nat,
    when k.within(source)
    via begin_ends
{
    if is_whitespace(c) {
        if k.index < source.len() {
            start(source, k)
        } else {
            Scan { cursor: k, token: None, error: None }
        }
    } else {
        match first_step(c) {
            Move::Go(phase) => run(source, k, phase),
            step => conclude(step, k),
        }
    }
}

#[via_fn]
proof fn begin_ends(source: Seq<char>, k: Cursor, c: char) {
}

/// Scans for the next token from a cursor that holds no lexeme and has
/// not reached the end of the source.
pub open spec fn start(source: Seq<char>, k: Cursor) -> Scan
    decreases source.len() - k.index, 0nat,
    when k.within(source) && k.index < source.len()
    via start_ends
{
    let (after, c) = read(source, k);
    begin(source, after, c)
}

#[via_fn]
proof fn start_ends(source: Seq<char>, k: Cursor) {
    lemma_read(source, k);
}

/// The symbol table after a request: an identifier or a constant that was
/// found is entered.
pub open spec fn noted(
    symbols: Set<SymbolTableTokenView>,
    token: Option<TokenView>,
) -> Set<SymbolTableTokenView> {
    match token {
        Some(t) => if t.symbol_type == SymbolType::Constant || t.symbol_type
            == SymbolType::Identifier {
            symbols.insert(entry_of(t))
        } else {
            symbols
        },
        None => symbols,
    }
}

/// One request: the scanner afterwards, the token or the error that came
/// of it, and whether the source is exhausted.
///
/// A token that waits in the queue is handed out first, and nothing is
/// read. With an empty queue and the source at its end, nothing comes.
/// Otherwise the source is scanned for the next token.
pub open spec fn request(s: ScannerView) -> (
    ScannerView,
    Option<TokenView>,
    Option<ErrorView>,
    bool,
) {
    let k = Cursor { text: Seq::empty(), ..s.cursor };
    if k.queue.len() > 0 {
        let after = Cursor { queue: k.queue.drop_first(), ..k };
        (ScannerView { cursor: after, ..s }, Some(k.queue[0]), None, k.index >= s.source.len())
    } else if k.index >= s.source.len() {
        (ScannerView { cursor: k, ..s }, None, None, true)
    } else {
        let scan = start(s.source, k);
        (
            ScannerView { cursor: scan.cursor, symbols: noted(s.symbols, scan.token), ..s },
            scan.token,
            scan.error,
            scan.cursor.index >= s.source.len(),
        )
    }
}

/// A run of the automaton leaves the cursor within the source and lets
/// nothing grow that is still to come.
pub proof fn lemma_run(source: Seq<char>, k: Cursor, phase: Phase)
    requires
        k.within(source),
    ensures
        run(source, k, phase).cursor.within(source),
        run(source, k, phase).cursor.remaining(source) <= k.remaining(source),
        k.index <= run(source, k, phase).cursor.index,
    decreases source.len() - k.index,
{
    lemma_read(source, k);
    let (after, c) = read(source, k);
    match phase_step(phase, k.text, c) {
        Move::Go(next) => {
            lemma_run(source, after, next);
        },
        _ => {},
    }
}

/// Scanning for a token takes something away from what is still to come,
/// unless the source is at its end already.
pub proof fn lemma_start(source: Seq<char>, k: Cursor)
    requires
        k.within(source),
        k.index < source.len(),
        k.text.len() == 0,
    ensures
        start(source, k).cursor.within(source),
        k.index < start(source, k).cursor.index,
        start(source, k).cursor.remaining(source) < k.remaining(source),
    decreases source.len() - k.index,
{
    lemma_read(source, k);
    let (after, c) = read(source, k);
    if is_whitespace(c) {
        if after.index < source.len() {
            lemma_start(source, after);
        }
    } else {
        match first_step(c) {
            Move::Go(phase) => {
                lemma_run(source, after, phase);
            },
            _ => {},
        }
    }
}

/// A request leaves the cursor within the source. It takes something
/// away from what is still to come whenever anything is left, and where
/// nothing is left it says so and finds nothing.
pub proof fn lemma_request(s: ScannerView)
    requires
        s.cursor.within(s.source),
    ensures
        request(s).0.source == s.source,
        request(s).0.cursor.within(s.source),
        request(s).0.cursor.remaining(s.source) <= s.cursor.remaining(s.source),
        s.cursor.remaining(s.source) > 0 ==> request(s).0.cursor.remaining(s.source)
            < s.cursor.remaining(s.source),
        s.cursor.remaining(s.source) == 0 ==> request(s).1 is None && request(s).2 is None
            && request(s).3,
        request(s).3 == request(s).0.is_done(),
{
    let k = Cursor { text: Seq::empty(), ..s.cursor };
    if k.queue.len() == 0 && k.index < s.source.len() {
        lemma_start(s.source, k);
    }
}

/// The views of the tokens of a queue.
pub open spec fn queue_view(queue: Seq<Token>) -> Seq<TokenView> {
    Seq::new(queue.len(), |i: int| queue[i]@)
}

/// The characters of a string, one by one.
pub fn characters(s: &str) -> (v: Vec<char>)
    ensures
        v@ == s@,
{
    let mut v: Vec<char> = Vec::new();
    for c in it: s.chars()
        invariant
            it.seq() == s@,
            v@ == s@.take(it.index() as int),
    {
        v.push(c);
        assert(v@ =~= s@.take(it.index() + 1));
    }
    assert(v@ =~= s@);
    v
}

/// The scanner: a source text, the place reached in it, and the symbol
/// table that it fills.
pub struct Scanner {
    source: Vec<char>,
    index: usize,
    line_number: usize,
    scanned_characters: String,
    extra_tokens: VecDeque<Token>,
    comment: bool,
    symtab: Bookkeeper,
}

impl View for Scanner {
    type V = ScannerView;

    closed spec fn view(&self) -> ScannerView {
        ScannerView {
            source: self.source@,
            cursor: Cursor {
                index: self.index as int,
                line: self.line_number as nat,
                comment: self.comment,
                text: self.scanned_characters@,
                queue: queue_view(self.extra_tokens@),
            },
            symbols: self.symtab@,
        }
    }
}

impl Scanner {
    /// The cursor lies within the source, the line number has gone up at
    /// most once for each character read, and the symbol table is in
    /// order.
    pub closed spec fn wf(&self) -> bool {
        &&& self@.cursor.within(self@.source)
        &&& 1 <= self.line_number
        &&& self.line_number <= self.index || self.line_number == 1
        &&& self.symtab.wf()
    }

    /// A scanner in order has its cursor within its source.
    pub proof fn lemma_wf(&self)
        requires
            self.wf(),
        ensures
            self@.cursor.within(self@.source),
    {
    }

    /// A scanner at the beginning of `src`, which enters what it finds
    /// into `symtab`.
    pub fn new(src: String, symtab: Bookkeeper) -> (scanner: Self)
        requires
            symtab.wf(),
        ensures
            scanner.wf(),
            scanner@ == ScannerView::initial(src@, symtab@),
    {
        let scanner = Scanner {
            source: characters(src.as_str()),
            index: 0,
            line_number: 1,
            scanned_characters: String::new(),
            extra_tokens: VecDeque::new(),
            comment: false,
            symtab,
        };
        proof {
            assert(scanner@.cursor.queue =~= Seq::<TokenView>::empty());
        }
        scanner
    }

    /// Determine whether we have consumed all characters in the source.
    pub fn is_done(&self) -> (done: bool)
        ensures
            done == self@.is_done(),
    {
        self.index >= self.source.len()
    }

    /// The symbol table as the scanner has filled it.
    pub fn symtab(&self) -> (table: &Bookkeeper)
        ensures
            table@ == self@.symbols,
            self.wf() ==> table.wf(),
    {
        &self.symtab
    }

    /// The place of the first newline at or after the cursor, or the
    /// length of the source.
    fn line_end(&self) -> (end: usize)
        requires
            self.index <= self.source.len(),
        ensures
            end == line_end(self.source@, self.index as int),
            self.index <= end <= self.source.len(),
    {
        let mut end = self.index;
        while end < self.source.len() && self.source[end] != '\n'
            invariant
                self.index <= end <= self.source.len(),
                line_end(self.source@, end as int) == line_end(self.source@, self.index as int),
            decreases self.source.len() - end,
        {
            end += 1;
        }
        end
    }

    /// Reads a character from the source, as `read` says.
    fn read_character(&mut self) -> (c: char)
        requires
            old(self).wf(),
        ensures
            final(self).wf(),
            final(self)@.source == old(self)@.source,
            final(self)@.symbols == old(self)@.symbols,
            (final(self)@.cursor, c) == read(old(self)@.source, old(self)@.cursor),
    {
        let ghost source = self.source@;
        let ghost goal = read(source, self@.cursor);
        loop
            invariant
                self.wf(),
                self.source@ == source,
                source == old(self)@.source,
                self@.symbols == old(self)@.symbols,
                read(source, self@.cursor) == goal,
                goal == read(source, old(self)@.cursor),
            decreases self.source.len() - self.index,
        {
            if self.index >= self.source.len() {
                return ' ';
            }
            let c = self.source[self.index];
            if self.index != 0 && self.source[self.index - 1] == '\n' {
                self.line_number += 1;
                self.comment = false;
            }
            if self.comment {
                let end = self.line_end();
                if end >= self.source.len() {
                    self.index = self.source.len();
                    return ' ';
                }
                self.index = end + 1;
                return '\n';
            }
            if is_special_symbol(c) && !self.scanned_characters.as_str().is_empty() {
                if c == '=' && self.source[self.index - 1] == '<' {
                    self.index += 1;
                    push_char(&mut self.scanned_characters, c);
                    return c;
                }
                let mut text = String::new();
                push_char(&mut text, c);
                let ghost queue = self.extra_tokens@;
                let token = Token {
                    token: text,
                    symbol_type: SymbolType::SpecialSymbol,
                    line_number: self.line_number,
                    code: match_special_symbol_to_code(c),
                };
                self.extra_tokens.push_back(token);
                self.index += 1;
                proof {
                    assert(token@ == attached_symbol(c, self.line_number as nat));
                    assert(queue_view(self.extra_tokens@) =~= queue_view(queue).push(token@));
                }
                continue ;
            }
            if c == '$' {
                self.index = self.source.len();
                self.comment = true;
                return ' ';
            }
            if !(is_whitespace(c) || (is_special_symbol(c) && c != '=')) {
                push_char(&mut self.scanned_characters, c);
            }
            self.index += 1;
            return c;
        }
    }

    /// The token that the automaton has found, as `conclude` says. The
    /// mark that opens a comment turns the comment on.
    fn make_token(&mut self, kind: SymbolType, code: u8) -> (token: Token)
        requires
            old(self).wf(),
        ensures
            final(self).wf(),
            final(self)@.source == old(self)@.source,
            final(self)@.symbols == old(self)@.symbols,
            conclude(Move::Token(kind, code), old(self)@.cursor) == (Scan {
                cursor: final(self)@.cursor,
                token: Some(token@),
                error: None,
            }),
    {
        let text = if kind == SymbolType::Identifier || kind == SymbolType::Constant {
            self.scanned_characters.clone()
        } else if code == COMMENT_CODE {
            let mut mark = String::new();
            push_char(&mut mark, '#');
            mark
        } else {
            String::from_str(code_label(code))
        };
        if code == COMMENT_CODE {
            self.comment = true;
        }
        Token { token: text, symbol_type: kind, line_number: self.line_number, code }
    }

    /// Scans for the next token: skips white space, lets the first
    /// character that is none choose a state, and runs the automaton
    /// until a move leaves it.
    fn initial_state(&mut self) -> (found: (Option<Token>, Option<Error>))
        requires
            old(self).wf(),
            old(self)@.cursor.text.len() == 0,
            !old(self)@.is_done(),
        ensures
            final(self).wf(),
            final(self)@.source == old(self)@.source,
            final(self)@.symbols == old(self)@.symbols,
            start(old(self)@.source, old(self)@.cursor) == (Scan {
                cursor: final(self)@.cursor,
                token: token_view(found.0),
                error: error_view(found.1),
            }),
    {
        let ghost source = self@.source;
        let ghost goal = start(source, self@.cursor);
        proof {
            lemma_read(source, self@.cursor);
        }
        let mut c = self.read_character();
        while is_whitespace(c)
            invariant
                self.wf(),
                self@.source == source,
                source == old(self)@.source,
                self@.symbols == old(self)@.symbols,
                self@.cursor.text == joined(Seq::empty(), c),
                begin(source, self@.cursor, c) == goal,
                goal == start(source, old(self)@.cursor),
            decreases source.len() - self@.cursor.index,
        {
            if self.is_done() {
                return (None, None);
            }
            proof {
                lemma_read(source, self@.cursor);
            }
            c = self.read_character();
        }
        let mut state = match first_move(c) {
            Move::Go(state) => state,
            Move::Token(kind, code) => {
                let token = self.make_token(kind, code);
                return (Some(token), None);
            },
            Move::Fail(error_type) => {
                let token = self.scanned_characters.clone();
                return (None, Some(Error { error_type, token }));
            },
        };
        loop
            invariant
                self.wf(),
                self@.source == source,
                source == old(self)@.source,
                self@.symbols == old(self)@.symbols,
                tracks(state, self@.cursor.text),
                run(source, self@.cursor, phase_of(state)) == goal,
                goal == start(source, old(self)@.cursor),
            decreases source.len() - self@.cursor.index,
        {
            let ghost k = self@.cursor;
            let c = self.read_character();
            let m = advance(state, c);
            proof {
                lemma_read(source, k);
                lemma_obeys(state, k.text, c, m);
            }
            match m {
                Move::Go(next) => {
                    state = next;
                },
                Move::Token(kind, code) => {
                    let token = self.make_token(kind, code);
                    return (Some(token), None);
                },
                Move::Fail(error_type) => {
                    let token = self.scanned_characters.clone();
                    return (None, Some(Error { error_type, token }));
                },
            }
        }
    }

    /// Hands out the next token: one that waits in the queue, or else
    /// the next one in the source, which is entered into the symbol table
    /// if it is an identifier or a constant. With it come the error, if
    /// the lexeme was no token, and whether the source is exhausted.
    pub fn token_request(&mut self) -> (answer: (Option<Token>, Option<Error>, bool))
        requires
            old(self).wf(),
        ensures
            final(self).wf(),
            (final(self)@, token_view(answer.0), error_view(answer.1), answer.2) == request(
                old(self)@,
            ),
    {
        self.scanned_characters = String::new();
        if self.extra_tokens.len() > 0 {
            let ghost queue = self.extra_tokens@;
            let token = self.extra_tokens.pop_front();
            proof {
                assert(queue_view(self.extra_tokens@) =~= queue_view(queue).drop_first());
            }
            return (token, None, self.is_done());
        }
        proof {
            assert(self@.cursor.queue =~= Seq::<TokenView>::empty());
        }
        if self.is_done() {
            return (None, None, true);
        }
        let (token, error) = self.initial_state();
        match &token {
            Some(t) => {
                if t.symbol_type == SymbolType::Constant || t.symbol_type
                    == SymbolType::Identifier {
                    let entry = t.entry();
                    self.symtab.insert(entry);
                }
            },
            None => {},
        }
        let done = self.is_done();
        (token, error, done)
    }
}

} // verus!
