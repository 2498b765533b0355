//! The parser: the scanner and the pushdown automaton, driven token by
//! token until the stack is down to its bottom marker or the input is
//! turned down.

use crate::bookkeeper::{Bookkeeper, SymbolType, Token, TokenView};
use crate::pda::{action_for, is_terminal_symbol, stack_after, Action, PdaView, PDA};
use crate::progress::{lemma_expansion_unloads, load};
use crate::rules::{is_terminal, EPSILON_CODE, START_SYMBOL};
use crate::scanner::{lemma_request, request, Scanner, ScannerView};
use vstd::prelude::*;
use vstd::string::*;

verus! {

/// The parser as the contracts see it.
pub struct ParserView {
    pub scanner: ScannerView,
    pub pda: PdaView,
    /// The token that decides the next transition, once one was fetched.
    pub lookahead: Option<TokenView>,
    /// Whether the lookahead has been consumed, so that the next step
    /// asks the scanner first.
    pub needs_lookahead: bool,
    /// What the scanner said at the last request of whether its source
    /// is exhausted.
    pub exhausted: bool,
}

/// The token that stands for the empty string where the scanner has
/// nothing more to give.
pub open spec fn epsilon() -> TokenView {
    TokenView {
        token: "epsilon"@,
        symbol_type: SymbolType::Epsilon,
        line_number: 0,
        code: EPSILON_CODE,
    }
}

impl ParserView {
    /// The code that decides the next transition: that of the lookahead,
    /// or that of the empty string while there is none.
    pub open spec fn code(self) -> u8 {
        match self.lookahead {
            Some(t) => t.code,
            None => EPSILON_CODE,
        }
    }

    /// Whether the stack is down to its bottom marker.
    pub open spec fn stack_is_empty(self) -> bool {
        self.pda.stack.len() <= 1
    }

    /// The parser as `begin` leaves it: the start symbol on the stack,
    /// and its first step will ask for a token.
    pub open spec fn begun(self) -> ParserView {
        ParserView {
            pda: PdaView { q: true, stack: self.pda.stack.push(START_SYMBOL) },
            lookahead: None,
            needs_lookahead: true,
            exhausted: false,
            ..self
        }
    }

    /// The first half of a step: where a lookahead is needed, the
    /// scanner is asked. A token becomes the lookahead; where the scanner
    /// has none and reports no error, the empty string does. The second
    /// entry says whether the scanner reported an error.
    pub open spec fn fetched(self) -> (ParserView, bool) {
        if self.needs_lookahead {
            let (scanner, token, error, exhausted) = request(self.scanner);
            let lookahead = if error is Some {
                self.lookahead
            } else if token is Some {
                token
            } else {
                Some(epsilon())
            };
            (
                ParserView { scanner, lookahead, needs_lookahead: false, exhausted, ..self },
                error is Some,
            )
        } else {
            (self, false)
        }
    }

    /// One step: fetch a lookahead if one is needed, then run one
    /// transition of the automaton on it. A matched lookahead is
    /// consumed. An error of the scanner ends the parse before any
    /// transition: the answer is `None` then.
    pub open spec fn step(self) -> (ParserView, Option<Action>) {
        let (p, failed) = self.fetched();
        if failed {
            (p, None)
        } else {
            let action = action_for(p.pda.stack, p.code());
            (
                ParserView {
                    pda: PdaView { stack: stack_after(p.pda.stack, p.code()), ..p.pda },
                    needs_lookahead: action == Action::Match,
                    ..p
                },
                Some(action),
            )
        }
    }

    /// Whether a step's answer lets the parse go on.
    pub open spec fn goes_on(action: Option<Action>) -> bool {
        action matches Some(a) && a != Action::Error
    }

    /// How far the parse is from asking for its last token: it drops
    /// with every token fetched and with every token matched, and is 0
    /// once the lookahead can never be matched.
    pub open spec fn alert(self) -> int {
        if self.needs_lookahead {
            1 + 2 * self.scanner.cursor.remaining(self.scanner.source)
        } else if is_terminal(self.code()) {
            2 + 2 * self.scanner.cursor.remaining(self.scanner.source)
        } else {
            0
        }
    }

    /// The parse from here to its end: the parser as it is left, and the
    /// verdict. Steps are made until the stack is down to its bottom
    /// marker or a step fails. The input is accepted if the stack came
    /// down, the automaton had been started, and the scanner said at its
    /// last request that the source is exhausted.
    pub open spec fn drive(self) -> (ParserView, bool)
        decreases self.alert(), load(self.pda.stack),
        when self.scanner.cursor.within(self.scanner.source)
        via Self::drive_ends
    {
        if self.stack_is_empty() {
            (self, self.pda.q && self.exhausted)
        } else {
            let (next, action) = self.step();
            if Self::goes_on(action) {
                next.drive()
            } else {
                (next, false)
            }
        }
    }

    #[via_fn]
    proof fn drive_ends(self) {
        if !self.stack_is_empty() {
            self.lemma_step();
        }
    }

    /// A step that lets the parse go on brings it nearer to its end: a
    /// token is fetched or matched, or else the stack is unloaded.
    pub proof fn lemma_step(self)
        requires
            self.scanner.cursor.within(self.scanner.source),
            !self.stack_is_empty(),
        ensures
            self.step().0.scanner.source == self.scanner.source,
            self.step().0.scanner.cursor.within(self.scanner.source),
            self.step().0.pda.q == self.pda.q,
            (self.exhausted ==> self.scanner.is_done()) ==> (self.step().0.exhausted
                ==> self.step().0.scanner.is_done()),
            Self::goes_on(self.step().1) ==> 0 <= self.step().0.alert() <= self.alert(),
            Self::goes_on(self.step().1) && self.step().0.alert() == self.alert() ==> load(
                self.step().0.pda.stack,
            ) < load(self.pda.stack),
    {
        lemma_request(self.scanner);
        let (p, failed) = self.fetched();
        if !failed {
            if action_for(p.pda.stack, p.code()) is UseRule {
                lemma_expansion_unloads(p.pda.stack, p.code());
            }
        }
    }

    /// Whatever is accepted is accepted with the stack down to its bottom
    /// marker and the source read to its end, both at once.
    pub proof fn lemma_accepted(self)
        requires
            self.scanner.cursor.within(self.scanner.source),
            self.exhausted ==> self.scanner.is_done(),
        ensures
            self.drive().1 ==> self.drive().0.stack_is_empty() && self.drive().0.pda.q
                && self.drive().0.scanner.is_done(),
        decreases self.alert(), load(self.pda.stack),
    {
        if !self.stack_is_empty() {
            self.lemma_step();
            let (next, action) = self.step();
            if Self::goes_on(action) {
                next.lemma_accepted();
            }
        }
    }
}

/// The parser.
pub struct Parser {
    scanner: Scanner,
    lookahead: Option<Token>,
    pda: PDA,
    needs_lookahead: bool,
    exhausted: bool,
}

impl View for Parser {
    type V = ParserView;

    closed spec fn view(&self) -> ParserView {
        ParserView {
            scanner: self.scanner@,
            pda: self.pda@,
            lookahead: match self.lookahead {
                Some(t) => Some(t@),
                None => None,
            },
            needs_lookahead: self.needs_lookahead,
            exhausted: self.exhausted,
        }
    }
}

impl Parser {
    /// Scanner and automaton are in order, and the source is exhausted
    /// where the parser holds that it is.
    pub closed spec fn wf(&self) -> bool {
        &&& self.scanner.wf()
        &&& self.pda.wf()
        &&& self.exhausted ==> self.scanner@.is_done()
    }

    /// A parser in order has its scanner's cursor within the source, and
    /// its stack on the bottom marker.
    pub proof fn lemma_wf(&self)
        requires
            self.wf(),
        ensures
            self@.scanner.cursor.within(self@.scanner.source),
            self@.pda.stack.len() >= 1,
            self@.pda.stack[0] == 0,
            self@.exhausted ==> self@.scanner.is_done(),
    {
        self.scanner.lemma_wf();
        self.pda.lemma_wf();
    }

    /// A parser for the source text `src`, whose scanner enters what it
    /// finds into `symtab`.
    pub fn new(src: String, symtab: Bookkeeper) -> (parser: Self)
        requires
            symtab.wf(),
        ensures
            parser.wf(),
            parser@ == (ParserView {
                scanner: ScannerView::initial(src@, symtab@),
                pda: PdaView { q: false, stack: seq![0u8] },
                lookahead: None,
                needs_lookahead: true,
                exhausted: false,
            }),
    {
        let scanner: Scanner = Scanner::new(src, symtab);
        let pda = PDA::new();
        Parser { scanner, lookahead: None, pda, needs_lookahead: true, exhausted: false }
    }

    /// The scanner.
    pub fn scanner(&self) -> (scanner: &Scanner)
        ensures
            scanner@ == self@.scanner,
            self.wf() ==> scanner.wf(),
    {
        &self.scanner
    }

    /// The automaton.
    pub fn pda(&self) -> (pda: &PDA)
        ensures
            pda@ == self@.pda,
            self.wf() ==> pda.wf(),
    {
        &self.pda
    }

    /// The token that decides the next transition, once one was fetched.
    pub fn lookahead(&self) -> (lookahead: &Option<Token>)
        ensures
            lookahead matches Some(t) ==> self@.lookahead == Some(t@),
            lookahead is None ==> self@.lookahead is None,
    {
        &self.lookahead
    }

    /// Whether the stack is down to its bottom marker: no step is left
    /// to make.
    pub fn is_finished(&self) -> (finished: bool)
        requires
            self.wf(),
        ensures
            finished == self@.stack_is_empty(),
    {
        proof {
            self.lemma_wf();
        }
        self.pda.stack().is_empty()
    }

    /// The verdict on the input once the stack has come down: it is
    /// accepted if the automaton was started and the scanner said at its
    /// last request that the source is exhausted.
    pub fn verdict(&self) -> (accepted: bool)
        requires
            self.wf(),
            self@.stack_is_empty(),
        ensures
            (self@, accepted) == self@.drive(),
            accepted ==> self@.scanner.is_done(),
    {
        proof {
            self.lemma_wf();
        }
        self.pda.q() && self.exhausted
    }

    /// Starts a parse: the start symbol goes on the stack, and the first
    /// step will ask the scanner for a token.
    pub fn begin(&mut self)
        requires
            old(self).wf(),
        ensures
            final(self).wf(),
            final(self)@ == old(self)@.begun(),
    {
        self.pda.initialize();
        self.lookahead = None;
        self.needs_lookahead = true;
        self.exhausted = false;
    }

    /// Makes one step, as `ParserView::step` says. The answer is what
    /// the automaton did, or `None` where the scanner reported an error.
    pub fn step(&mut self) -> (action: Option<Action>)
        requires
            old(self).wf(),
            !old(self)@.stack_is_empty(),
        ensures
            final(self).wf(),
            (final(self)@, action) == old(self)@.step(),
    {
        if self.needs_lookahead {
            let (token, error, exhausted) = self.scanner.token_request();
            self.needs_lookahead = false;
            self.exhausted = exhausted;
            if error.is_some() {
                return None;
            }
            self.lookahead = match token {
                Some(t) => Some(t),
                None => Some(
                    Token {
                        token: String::from_str("epsilon"),
                        symbol_type: SymbolType::Epsilon,
                        line_number: 0,
                        code: EPSILON_CODE,
                    },
                ),
            };
        }
        let code = match &self.lookahead {
            Some(t) => t.code,
            None => EPSILON_CODE,
        };
        let action = self.pda.step(code);
        match action {
            Action::Match => {
                if is_terminal_symbol(code) {
                    self.needs_lookahead = true;
                }
            },
            _ => {},
        }
        Some(action)
    }

    /// Parse the source. If the parsing is successful, return true. If
    /// not, return false.
    pub fn parse(&mut self) -> (accepted: bool)
        requires
            old(self).wf(),
        ensures
            final(self).wf(),
            (final(self)@, accepted) == old(self)@.begun().drive(),
            accepted ==> final(self)@.stack_is_empty() && final(self)@.scanner.is_done(),
    {
        self.begin();
        let ghost goal = self@.drive();
        loop
            invariant
                self.wf(),
                self@.drive() == goal,
                goal == old(self)@.begun().drive(),
            decreases self@.alert(), load(self@.pda.stack),
        {
            if self.is_finished() {
                return self.verdict();
            }
            proof {
                self.lemma_wf();
                self@.lemma_step();
            }
            match self.step() {
                Some(Action::UseRule(_)) | Some(Action::Match) => {},
                _ => {
                    return false;
                },
            }
        }
    }
}

} // verus!
