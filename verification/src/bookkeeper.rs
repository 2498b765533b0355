//! Tokens, and the symbol table that keeps one entry for each identifier
//! and constant seen.

use vstd::prelude::*;
use vstd::string::*;

verus! {

/// The classes of symbols in Simple Scala.
#[derive(Clone, Copy, Debug, PartialEq, Eq, Hash, Structural)]
pub enum SymbolType {
    Keyword,
    Constant,
    Identifier,
    SpecialSymbol,
    /// Stands for the empty string inside the parser. The scanner never
    /// gives a token this class.
    Epsilon,
}

impl SymbolType {
    /// How the class is written in a report.
    pub open spec fn spec_name(self) -> Seq<char> {
        match self {
            SymbolType::Keyword => "Keyword"@,
            SymbolType::Constant => "Constant"@,
            SymbolType::Identifier => "Identifier"@,
            SymbolType::SpecialSymbol => "Special Symbol"@,
            SymbolType::Epsilon => "Epsilon"@,
        }
    }

    /// How the class is written in a report.
    pub fn name(&self) -> (s: String)
        ensures
            s@ == self.spec_name(),
    {
        match self {
            SymbolType::Keyword => String::from_str("Keyword"),
            SymbolType::Constant => String::from_str("Constant"),
            SymbolType::Identifier => String::from_str("Identifier"),
            SymbolType::SpecialSymbol => String::from_str("Special Symbol"),
            SymbolType::Epsilon => String::from_str("Epsilon"),
        }
    }
}

/// A token as the scanner hands it out: the lexeme, its class, the line it
/// ended on (the first line is 1) and its grammar code.
#[derive(Clone, Debug, Eq, Hash, PartialEq)]
pub struct Token {
    pub token: String,
    pub symbol_type: SymbolType,
    pub line_number: usize,
    pub code: u8,
}

/// A `Token` with its text as a sequence of characters.
pub struct TokenView {
    pub token: Seq<char>,
    pub symbol_type: SymbolType,
    pub line_number: nat,
    pub code: u8,
}

impl View for Token {
    type V = TokenView;

    open spec fn view(&self) -> TokenView {
        TokenView {
            token: self.token@,
            symbol_type: self.symbol_type,
            line_number: self.line_number as nat,
            code: self.code,
        }
    }
}

impl Token {
    /// What the symbol table keeps of the token: everything but the line.
    pub fn entry(&self) -> (entry: SymbolTableToken)
        ensures
            entry@ == entry_of(self@),
    {
        SymbolTableToken {
            token: self.token.clone(),
            symbol_type: self.symbol_type,
            code: self.code,
        }
    }

    /// A second token with the same four fields.
    pub fn duplicate(&self) -> (t: Token)
        ensures
            t@ == self@,
    {
        Token {
            token: self.token.clone(),
            symbol_type: self.symbol_type,
            line_number: self.line_number,
            code: self.code,
        }
    }
}

/// A token as the symbol table stores it: without its line.
#[derive(Clone, Debug, Eq, Hash, PartialEq)]
pub struct SymbolTableToken {
    pub token: String,
    pub symbol_type: SymbolType,
    pub code: u8,
}

/// A `SymbolTableToken` with its text as a sequence of characters.
pub struct SymbolTableTokenView {
    pub token: Seq<char>,
    pub symbol_type: SymbolType,
    pub code: u8,
}

impl View for SymbolTableToken {
    type V = SymbolTableTokenView;

    open spec fn view(&self) -> SymbolTableTokenView {
        SymbolTableTokenView { token: self.token@, symbol_type: self.symbol_type, code: self.code }
    }
}

impl SymbolTableToken {
    /// Whether the two entries agree in text, class and code.
    pub fn same(&self, other: &SymbolTableToken) -> (r: bool)
        ensures
            r == (self@ == other@),
    {
        let r = self.token == other.token && self.symbol_type == other.symbol_type && self.code
            == other.code;
        r
    }
}

/// What the symbol table keeps of a token: everything but the line.
pub open spec fn entry_of(tkn: TokenView) -> SymbolTableTokenView {
    SymbolTableTokenView { token: tkn.token, symbol_type: tkn.symbol_type, code: tkn.code }
}

/// Strips the line number from a token.
pub fn convert_token_to_symbol_table_token(tkn: Token) -> (entry: SymbolTableToken)
    ensures
        entry@ == entry_of(tkn@),
{
    SymbolTableToken { token: tkn.token, symbol_type: tkn.symbol_type, code: tkn.code }
}

/// An entry that is inserted a second time changes nothing: a table that
/// was empty holds one entry after both.
pub proof fn lemma_insert_twice(symbols: Set<SymbolTableTokenView>, entry: SymbolTableTokenView)
    ensures
        symbols.insert(entry).insert(entry) == symbols.insert(entry),
        Set::<SymbolTableTokenView>::empty().insert(entry).insert(entry).len() == 1,
{
    assert(symbols.insert(entry).insert(entry) =~= symbols.insert(entry));
    assert(Set::<SymbolTableTokenView>::empty().insert(entry).insert(entry)
        =~= Set::<SymbolTableTokenView>::empty().insert(entry));
}

/// The symbol table: the entries inserted so far, each of them once, in
/// the order in which they first came.
pub struct Bookkeeper {
    symbols: Vec<SymbolTableToken>,
}

impl View for Bookkeeper {
    type V = Set<SymbolTableTokenView>;

    /// The set of the entries.
    closed spec fn view(&self) -> Set<SymbolTableTokenView> {
        self.entries().to_set()
    }
}

impl Bookkeeper {
    /// The entries in the order in which they first came.
    pub closed spec fn entries(&self) -> Seq<SymbolTableTokenView> {
        self.symbols@.map_values(|e: SymbolTableToken| e@)
    }

    /// No entry is stored twice.
    pub open spec fn wf(&self) -> bool {
        self.entries().no_duplicates()
    }

    /// The set holds what the sequence of entries holds.
    pub proof fn lemma_view(&self)
        ensures
            self@ == self.entries().to_set(),
    {
    }

    /// An empty symbol table.
    pub fn new() -> (table: Self)
        ensures
            table.wf(),
            table@ == Set::<SymbolTableTokenView>::empty(),
            table.entries() == Seq::<SymbolTableTokenView>::empty(),
    {
        let table = Bookkeeper { symbols: Vec::new() };
        proof {
            assert(table.entries() =~= Seq::<SymbolTableTokenView>::empty());
            assert(table@ =~= Set::<SymbolTableTokenView>::empty());
        }
        table
    }

    /// Whether an entry equal to `t` is stored.
    pub fn contains(&self, t: &SymbolTableToken) -> (found: bool)
        ensures
            found == self@.contains(t@),
    {
        let mut i: usize = 0;
        while i < self.symbols.len()
            invariant
                i <= self.symbols.len(),
                forall|j: int| 0 <= j < i ==> self.entries()[j] != t@,
            decreases self.symbols.len() - i,
        {
            if self.symbols[i].same(t) {
                assert(self.entries()[i as int] == t@);
                return true;
            }
            i += 1;
        }
        false
    }

    /// Stores `t` unless an equal entry is there already.
    pub fn insert(&mut self, t: SymbolTableToken)
        requires
            old(self).wf(),
        ensures
            final(self).wf(),
            final(self)@ == old(self)@.insert(t@),
            final(self).entries() == if old(self)@.contains(t@) {
                old(self).entries()
            } else {
                old(self).entries().push(t@)
            },
    {
        if !self.contains(&t) {
            let ghost before = self.entries();
            self.symbols.push(t);
            proof {
                assert(self.entries() =~= before.push(t@));
                before.lemma_push_to_set_commute(t@);
                assert forall|i: int, j: int|
                    0 <= i < self.entries().len() && 0 <= j < self.entries().len() && i
                        != j implies self.entries()[i] != self.entries()[j] by {
                    if i < before.len() && j < before.len() {
                        assert(before[i] != before[j]);
                    } else if i < before.len() {
                        assert(before.contains(before[i]));
                    } else {
                        assert(before.contains(before[j]));
                    }
                }
            }
        } else {
            assert(self@ =~= old(self)@.insert(t@));
        }
    }

    /// How many entries are stored.
    pub fn len(&self) -> (n: usize)
        requires
            self.wf(),
        ensures
            n == self@.len(),
            n == self.entries().len(),
    {
        proof {
            self.entries().unique_seq_to_set();
        }
        self.symbols.len()
    }

    /// The stored entries in the order in which they first came.
    pub fn symbols(&self) -> (v: &Vec<SymbolTableToken>)
        ensures
            v@.map_values(|e: SymbolTableToken| e@) == self.entries(),
    {
        &self.symbols
    }
}

} // verus!
