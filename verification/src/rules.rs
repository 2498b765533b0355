//! The grammar of Simple Scala as data: the code of every symbol, the
//! FIRST and FOLLOW sets that the parsing table is filled from, the LL(1)
//! parsing table, and the right-hand side of every rule.
//!
//! Codes 1 to 41 are terminals, 42 to 69 nonterminals. A rule is known by
//! its number, 1 to 59.

use crate::pda::is_terminal_symbol;
use crate::text::{decimal, u8_to_decimal};
use vstd::prelude::*;
use vstd::string::*;

verus! {

/// Stands for the empty string where a lookahead is expected.
pub const EPSILON_CODE: u8 = 253;

/// The code of `<scala>`, the symbol every derivation starts from.
pub const START_SYMBOL: u8 = 42;

/// The code the scanner gives the mark that opens a comment.
pub const COMMENT_CODE: u8 = 254;

/// The code the scanner falls back on for a character that has none.
pub const UNKNOWN_CODE: u8 = 255;

/// The number of the last rule of the grammar.
pub const LAST_RULE: u8 = 59;

/// Terminals have the codes 1 to 41.
pub open spec fn is_terminal(code: u8) -> bool {
    1 <= code <= 41
}

/// Nonterminals have the codes 42 to 69.
pub open spec fn is_nonterminal(code: u8) -> bool {
    42 <= code <= 69
}

/// How a grammar code is written: a terminal as it is spelled, a
/// nonterminal between angle brackets, `z0` for the bottom of the stack.
pub open spec fn code_name(code: u8) -> Seq<char> {
    match code {
        0 => "z0"@,
        1 => "[id]"@,
        2 => "[const]"@,
        3 => "package"@,
        4 => "import"@,
        5 => "abstract"@,
        6 => "final"@,
        7 => "sealed"@,
        8 => "private"@,
        9 => "protected"@,
        10 => "class"@,
        11 => "object"@,
        12 => "val"@,
        13 => "def"@,
        14 => "<="@,
        15 => "if"@,
        16 => "else"@,
        17 => "while"@,
        18 => "case"@,
        19 => "=>"@,
        20 => "in"@,
        21 => "print"@,
        22 => "return"@,
        23 => "not"@,
        24 => "true"@,
        25 => "false"@,
        26 => "and"@,
        27 => "or"@,
        28 => "int"@,
        29 => "real"@,
        30 => "bool"@,
        31 => ";"@,
        32 => "{"@,
        33 => "}"@,
        34 => "("@,
        35 => ")"@,
        36 => ":"@,
        37 => ","@,
        38 => "="@,
        39 => "+"@,
        40 => "*"@,
        41 => "@"@,
        42 => "<scala>"@,
        43 => "<packages>"@,
        44 => "<imports>"@,
        45 => "<scala-body>"@,
        46 => "<subbody>"@,
        47 => "<modifier>"@,
        48 => "<subbody-tail>"@,
        49 => "<tail-type>"@,
        50 => "<block>"@,
        51 => "<stmts>"@,
        52 => "<stmt>"@,
        53 => "<dcl>"@,
        54 => "<dcl-tail>"@,
        55 => "<ids>"@,
        56 => "<more-ids>"@,
        57 => "<type>"@,
        58 => "<asmt>"@,
        59 => "<if>"@,
        60 => "<while>"@,
        61 => "<case>"@,
        62 => "<in>"@,
        63 => "<out>"@,
        64 => "<return>"@,
        65 => "<expr>"@,
        66 => "<arith-expr>"@,
        67 => "<arith>"@,
        68 => "<bool-exp>"@,
        69 => "<bool>"@,
        _ => "{ERROR}"@,
    }
}

/// The name of a grammar code, as `code_name` gives it.
pub fn code_label(code: u8) -> (name: &'static str)
    ensures
        name@ == code_name(code),
{
    match code {
        0 => "z0",
        1 => "[id]",
        2 => "[const]",
        3 => "package",
        4 => "import",
        5 => "abstract",
        6 => "final",
        7 => "sealed",
        8 => "private",
        9 => "protected",
        10 => "class",
        11 => "object",
        12 => "val",
        13 => "def",
        14 => "<=",
        15 => "if",
        16 => "else",
        17 => "while",
        18 => "case",
        19 => "=>",
        20 => "in",
        21 => "print",
        22 => "return",
        23 => "not",
        24 => "true",
        25 => "false",
        26 => "and",
        27 => "or",
        28 => "int",
        29 => "real",
        30 => "bool",
        31 => ";",
        32 => "{",
        33 => "}",
        34 => "(",
        35 => ")",
        36 => ":",
        37 => ",",
        38 => "=",
        39 => "+",
        40 => "*",
        41 => "@",
        42 => "<scala>",
        43 => "<packages>",
        44 => "<imports>",
        45 => "<scala-body>",
        46 => "<subbody>",
        47 => "<modifier>",
        48 => "<subbody-tail>",
        49 => "<tail-type>",
        50 => "<block>",
        51 => "<stmts>",
        52 => "<stmt>",
        53 => "<dcl>",
        54 => "<dcl-tail>",
        55 => "<ids>",
        56 => "<more-ids>",
        57 => "<type>",
        58 => "<asmt>",
        59 => "<if>",
        60 => "<while>",
        61 => "<case>",
        62 => "<in>",
        63 => "<out>",
        64 => "<return>",
        65 => "<expr>",
        66 => "<arith-expr>",
        67 => "<arith>",
        68 => "<bool-exp>",
        69 => "<bool>",
        _ => "{ERROR}",
    }
}

/// What `code_to_string` writes for `code`: its name, a blank, and the
/// number itself between round brackets.
pub open spec fn code_text(code: u8) -> Seq<char> {
    code_name(code) + " ("@ + decimal(code as nat) + ")"@
}

/// A grammar code in readable form, for instance `<scala> (42)`.
pub fn code_to_string(code: u8) -> (text: String)
    ensures
        text@ == code_text(code),
{
    let mut text = String::from_str(code_label(code));
    text.append(" (");
    let number = u8_to_decimal(code);
    text.append(number.as_str());
    text.append(")");
    text
}

/// FIRST(`<modifier>`): the five modifier keywords.
pub open spec fn first_modifier_set() -> Set<u8> {
    set![5u8, 6u8, 7u8, 8u8, 9u8]
}

/// FIRST(`<scala>`): `package`, `import`, the empty string, and whatever
/// may begin a modifier.
pub open spec fn first_scala_set() -> Set<u8> {
    set![3u8, 4u8, EPSILON_CODE].union(first_modifier_set())
}

/// FOLLOW(`<packages>`): `import`, the empty string, and whatever may
/// begin a modifier.
pub open spec fn follow_packages_set() -> Set<u8> {
    set![4u8, EPSILON_CODE].union(first_modifier_set())
}

/// FOLLOW(`<imports>`): the empty string and whatever may begin a
/// modifier.
pub open spec fn follow_imports_set() -> Set<u8> {
    set![EPSILON_CODE].union(first_modifier_set())
}

/// FIRST(`<stmt>`).
pub open spec fn first_statement_set() -> Set<u8> {
    set![12u8, 13u8, 1u8, 15u8, 17u8, 18u8, 20u8, 21u8, 22u8, 32u8]
}

/// FOLLOW(`<arith>`).
pub open spec fn follow_arith_set() -> Set<u8> {
    set![31u8, 35u8, 19u8, 1u8, 2u8, 34u8]
}

/// Whether `code` is in FIRST(`<modifier>`).
pub fn first_modifier(code: u8) -> (r: bool)
    ensures
        r == first_modifier_set().contains(code),
{
    5 <= code && code <= 9
}

/// Whether `code` is in FIRST(`<scala>`).
pub fn first_scala(code: u8) -> (r: bool)
    ensures
        r == first_scala_set().contains(code),
{
    code == 3 || code == 4 || code == EPSILON_CODE || first_modifier(code)
}

/// Whether `code` is in FOLLOW(`<packages>`).
pub fn follow_packages(code: u8) -> (r: bool)
    ensures
        r == follow_packages_set().contains(code),
{
    code == 4 || code == EPSILON_CODE || first_modifier(code)
}

/// Whether `code` is in FOLLOW(`<imports>`).
pub fn follow_imports(code: u8) -> (r: bool)
    ensures
        r == follow_imports_set().contains(code),
{
    code == EPSILON_CODE || first_modifier(code)
}

/// Whether `code` is in FIRST(`<stmt>`).
pub fn first_statement(code: u8) -> (r: bool)
    ensures
        r == first_statement_set().contains(code),
{
    code == 12 || code == 13 || code == 1 || code == 15 || code == 17 || code == 18 || code == 20
        || code == 21 || code == 22 || code == 32
}

/// Whether `code` is in FOLLOW(`<arith>`).
pub fn follow_arith(code: u8) -> (r: bool)
    ensures
        r == follow_arith_set().contains(code),
{
    code == 31 || code == 35 || code == 19 || code == 1 || code == 2 || code == 34
}

/// The LL(1) parsing table: the rule to expand the nonterminal `top` by
/// when `lookahead` is the next token's code, if the table has an entry
/// for the pair. `EPSILON_CODE` as lookahead selects the rule to use when
/// no token decides.
pub open spec fn parsing_table(top: u8, lookahead: u8) -> Option<u8> {
    match top {
        // <scala>
        42 => {
            if first_scala_set().contains(lookahead) {
                Some(1)
            } else {
                None
            }
        },
        // <packages>
        43 => {
            if lookahead == 3 {
                Some(2)
            } else if follow_packages_set().contains(lookahead) {
                Some(3)
            } else {
                None
            }
        },
        // <imports>
        44 => {
            if lookahead == 4 {
                Some(4)
            } else if follow_imports_set().contains(lookahead) {
                Some(5)
            } else {
                None
            }
        },
        // <scala-body>
        45 => {
            if first_modifier_set().contains(lookahead) {
                Some(6)
            } else if lookahead == EPSILON_CODE {
                Some(7)
            } else {
                None
            }
        },
        // <subbody>
        46 => {
            if first_modifier_set().contains(lookahead) {
                Some(8)
            } else {
                None
            }
        },
        // <modifier>
        47 => {
            if lookahead == 5 {
                Some(9)
            } else if lookahead == 6 {
                Some(10)
            } else if lookahead == 7 {
                Some(11)
            } else if lookahead == 8 {
                Some(12)
            } else if lookahead == 9 {
                Some(13)
            } else {
                None
            }
        },
        // <subbody-tail>
        48 => {
            if lookahead == 10 || lookahead == 11 {
                Some(14)
            } else {
                None
            }
        },
        // <tail-type>
        49 => {
            if lookahead == 10 {
                Some(15)
            } else if lookahead == 11 {
                Some(16)
            } else {
                None
            }
        },
        // <block>
        50 => {
            if lookahead == 32 {
                Some(17)
            } else {
                None
            }
        },
        // <stmts>
        51 => {
            if first_statement_set().contains(lookahead) {
                Some(18)
            } else if lookahead == 33 {
                Some(19)
            } else {
                None
            }
        },
        // <stmt>
        52 => {
            if lookahead == 12 || lookahead == 13 {
                Some(20)
            } else if lookahead == 1 {
                Some(21)
            } else if lookahead == 15 {
                Some(22)
            } else if lookahead == 17 {
                Some(23)
            } else if lookahead == 18 {
                Some(24)
            } else if lookahead == 20 {
                Some(25)
            } else if lookahead == 21 {
                Some(26)
            } else if lookahead == 22 {
                Some(27)
            } else if lookahead == 32 {
                Some(28)
            } else {
                None
            }
        },
        // <dcl>
        53 => {
            if lookahead == 12 {
                Some(29)
            } else if lookahead == 13 {
                Some(30)
            } else {
                None
            }
        },
        // <dcl-tail>
        54 => {
            if lookahead == 1 {
                Some(31)
            } else {
                None
            }
        },
        // <ids>
        55 => {
            if lookahead == 1 {
                Some(32)
            } else {
                None
            }
        },
        // <more-ids>
        56 => {
            if lookahead == 37 {
                Some(33)
            } else if lookahead == 36 || lookahead == 35 {
                Some(34)
            } else {
                None
            }
        },
        // <type>
        57 => {
            if lookahead == 28 {
                Some(35)
            } else if lookahead == 29 {
                Some(36)
            } else if lookahead == 30 {
                Some(37)
            } else {
                None
            }
        },
        // <asmt>
        58 => {
            if lookahead == 1 {
                Some(38)
            } else {
                None
            }
        },
        // <if>
        59 => {
            if lookahead == 15 {
                Some(39)
            } else {
                None
            }
        },
        // <while>
        60 => {
            if lookahead == 17 {
                Some(40)
            } else {
                None
            }
        },
        // <case>
        61 => {
            if lookahead == 18 {
                Some(41)
            } else {
                None
            }
        },
        // <in>
        62 => {
            if lookahead == 20 {
                Some(42)
            } else {
                None
            }
        },
        // <out>
        63 => {
            if lookahead == 21 {
                Some(43)
            } else {
                None
            }
        },
        // <return>
        64 => {
            if lookahead == 22 {
                Some(44)
            } else {
                None
            }
        },
        // <expr>
        65 => {
            if lookahead == 1 || lookahead == 2 || lookahead == 34 {
                Some(45)
            } else if lookahead == 23 || lookahead == 24 || lookahead == 25 || lookahead == 41 {
                Some(46)
            } else {
                None
            }
        },
        // <arith-expr>
        66 => {
            if lookahead == 1 {
                Some(47)
            } else if lookahead == 2 {
                Some(48)
            } else if lookahead == 34 {
                Some(49)
            } else {
                None
            }
        },
        // <arith>
        67 => {
            if lookahead == 39 {
                Some(50)
            } else if lookahead == 40 {
                Some(51)
            } else if follow_arith_set().contains(lookahead) {
                Some(52)
            } else {
                None
            }
        },
        // <bool-exp>
        68 => {
            if lookahead == 23 {
                Some(53)
            } else if lookahead == 24 {
                Some(54)
            } else if lookahead == 25 {
                Some(55)
            } else if lookahead == 41 {
                Some(56)
            } else {
                None
            }
        },
        // <bool>
        69 => {
            if lookahead == 26 {
                Some(57)
            } else if lookahead == 27 {
                Some(58)
            } else if lookahead == EPSILON_CODE {
                Some(59)
            } else {
                None
            }
        },
        _ => None,
    }
}

/// Looks the pair up in the parsing table.
pub fn parsing_rule(top: u8, lookahead: u8) -> (rule: Option<u8>)
    ensures
        rule == parsing_table(top, lookahead),
{
    match top {
        // <scala>
        42 => {
            if first_scala(lookahead) {
                Some(1)
            } else {
                None
            }
        },
        // <packages>
        43 => {
            if lookahead == 3 {
                Some(2)
            } else if follow_packages(lookahead) {
                Some(3)
            } else {
                None
            }
        },
        // <imports>
        44 => {
            if lookahead == 4 {
                Some(4)
            } else if follow_imports(lookahead) {
                Some(5)
            } else {
                None
            }
        },
        // <scala-body>
        45 => {
            if first_modifier(lookahead) {
                Some(6)
            } else if lookahead == EPSILON_CODE {
                Some(7)
            } else {
                None
            }
        },
        // <subbody>
        46 => {
            if first_modifier(lookahead) {
                Some(8)
            } else {
                None
            }
        },
        // <modifier>
        47 => {
            if lookahead == 5 {
                Some(9)
            } else if lookahead == 6 {
                Some(10)
            } else if lookahead == 7 {
                Some(11)
            } else if lookahead == 8 {
                Some(12)
            } else if lookahead == 9 {
                Some(13)
            } else {
                None
            }
        },
        // <subbody-tail>
        48 => {
            if lookahead == 10 || lookahead == 11 {
                Some(14)
            } else {
                None
            }
        },
        // <tail-type>
        49 => {
            if lookahead == 10 {
                Some(15)
            } else if lookahead == 11 {
                Some(16)
            } else {
                None
            }
        },
        // <block>
        50 => {
            if lookahead == 32 {
                Some(17)
            } else {
                None
            }
        },
        // <stmts>
        51 => {
            if first_statement(lookahead) {
                Some(18)
            } else if lookahead == 33 {
                Some(19)
            } else {
                None
            }
        },
        // <stmt>
        52 => {
            if lookahead == 12 || lookahead == 13 {
                Some(20)
            } else if lookahead == 1 {
                Some(21)
            } else if lookahead == 15 {
                Some(22)
            } else if lookahead == 17 {
                Some(23)
            } else if lookahead == 18 {
                Some(24)
            } else if lookahead == 20 {
                Some(25)
            } else if lookahead == 21 {
                Some(26)
            } else if lookahead == 22 {
                Some(27)
            } else if lookahead == 32 {
                Some(28)
            } else {
                None
            }
        },
        // <dcl>
        53 => {
            if lookahead == 12 {
                Some(29)
            } else if lookahead == 13 {
                Some(30)
            } else {
                None
            }
        },
        // <dcl-tail>
        54 => {
            if lookahead == 1 {
                Some(31)
            } else {
                None
            }
        },
        // <ids>
        55 => {
            if lookahead == 1 {
                Some(32)
            } else {
                None
            }
        },
        // <more-ids>
        56 => {
            if lookahead == 37 {
                Some(33)
            } else if lookahead == 36 || lookahead == 35 {
                Some(34)
            } else {
                None
            }
        },
        // <type>
        57 => {
            if lookahead == 28 {
                Some(35)
            } else if lookahead == 29 {
                Some(36)
            } else if lookahead == 30 {
                Some(37)
            } else {
                None
            }
        },
        // <asmt>
        58 => {
            if lookahead == 1 {
                Some(38)
            } else {
                None
            }
        },
        // <if>
        59 => {
            if lookahead == 15 {
                Some(39)
            } else {
                None
            }
        },
        // <while>
        60 => {
            if lookahead == 17 {
                Some(40)
            } else {
                None
            }
        },
        // <case>
        61 => {
            if lookahead == 18 {
                Some(41)
            } else {
                None
            }
        },
        // <in>
        62 => {
            if lookahead == 20 {
                Some(42)
            } else {
                None
            }
        },
        // <out>
        63 => {
            if lookahead == 21 {
                Some(43)
            } else {
                None
            }
        },
        // <return>
        64 => {
            if lookahead == 22 {
                Some(44)
            } else {
                None
            }
        },
        // <expr>
        65 => {
            if lookahead == 1 || lookahead == 2 || lookahead == 34 {
                Some(45)
            } else if lookahead == 23 || lookahead == 24 || lookahead == 25 || lookahead == 41 {
                Some(46)
            } else {
                None
            }
        },
        // <arith-expr>
        66 => {
            if lookahead == 1 {
                Some(47)
            } else if lookahead == 2 {
                Some(48)
            } else if lookahead == 34 {
                Some(49)
            } else {
                None
            }
        },
        // <arith>
        67 => {
            if lookahead == 39 {
                Some(50)
            } else if lookahead == 40 {
                Some(51)
            } else if follow_arith(lookahead) {
                Some(52)
            } else {
                None
            }
        },
        // <bool-exp>
        68 => {
            if lookahead == 23 {
                Some(53)
            } else if lookahead == 24 {
                Some(54)
            } else if lookahead == 25 {
                Some(55)
            } else if lookahead == 41 {
                Some(56)
            } else {
                None
            }
        },
        // <bool>
        69 => {
            if lookahead == 26 {
                Some(57)
            } else if lookahead == 27 {
                Some(58)
            } else if lookahead == EPSILON_CODE {
                Some(59)
            } else {
                None
            }
        },
        _ => None,
    }
}

/// The rule to expand `top` by: the table's entry for the lookahead
/// itself, or else, for a nonterminal, its entry for the empty string.
pub open spec fn rule_for(top: u8, lookahead: u8) -> Option<u8> {
    match parsing_table(top, lookahead) {
        Some(rule) => Some(rule),
        None => if is_terminal(top) {
            None
        } else {
            parsing_table(top, EPSILON_CODE)
        },
    }
}

/// Chooses the rule to expand `top` by, trying the lookahead first and
/// the empty string second.
pub fn lookup_rule(top: u8, lookahead: u8) -> (rule: Option<u8>)
    ensures
        rule == rule_for(top, lookahead),
{
    match parsing_rule(top, lookahead) {
        Some(rule) => Some(rule),
        None => if is_terminal_symbol(top) {
            None
        } else {
            parsing_rule(top, EPSILON_CODE)
        },
    }
}

/// The right-hand side of a rule, first symbol first. An empty sequence
/// is a rule that derives the empty string.
pub open spec fn expansion(rule: u8) -> Option<Seq<u8>> {
    match rule {
        1 => Some(seq![43u8, 44u8, 45u8]),
        2 => Some(seq![3u8, 1u8, 31u8, 43u8]),
        3 => Some(Seq::empty()),
        4 => Some(seq![4u8, 1u8, 31u8, 44u8]),
        5 => Some(Seq::empty()),
        6 => Some(seq![46u8, 45u8]),
        7 => Some(Seq::empty()),
        8 => Some(seq![47u8, 48u8]),
        9 => Some(seq![5u8]),
        10 => Some(seq![6u8]),
        11 => Some(seq![7u8]),
        12 => Some(seq![8u8]),
        13 => Some(seq![9u8]),
        14 => Some(seq![49u8, 50u8]),
        15 => Some(seq![10u8]),
        16 => Some(seq![11u8]),
        17 => Some(seq![32u8, 51u8, 33u8]),
        18 => Some(seq![52u8, 31u8, 51u8]),
        19 => Some(Seq::empty()),
        20 => Some(seq![53u8]),
        21 => Some(seq![58u8]),
        22 => Some(seq![59u8]),
        23 => Some(seq![60u8]),
        24 => Some(seq![61u8]),
        25 => Some(seq![62u8]),
        26 => Some(seq![63u8]),
        27 => Some(seq![64u8]),
        28 => Some(seq![50u8]),
        29 => Some(seq![12u8, 54u8]),
        30 => Some(seq![13u8, 1u8, 34u8, 55u8, 35u8, 50u8]),
        31 => Some(seq![55u8, 36u8, 57u8]),
        32 => Some(seq![1u8, 56u8]),
        33 => Some(seq![37u8, 1u8, 56u8]),
        34 => Some(Seq::empty()),
        35 => Some(seq![28u8]),
        36 => Some(seq![29u8]),
        37 => Some(seq![30u8]),
        38 => Some(seq![1u8, 14u8, 65u8]),
        39 => Some(seq![15u8, 34u8, 65u8, 35u8, 52u8, 31u8, 16u8, 52u8]),
        40 => Some(seq![17u8, 34u8, 65u8, 35u8, 52u8]),
        41 => Some(seq![18u8, 1u8, 38u8, 65u8, 19u8, 52u8]),
        42 => Some(seq![20u8, 34u8, 55u8, 35u8]),
        43 => Some(seq![21u8, 34u8, 55u8, 35u8]),
        44 => Some(seq![22u8, 34u8, 65u8, 35u8]),
        45 => Some(seq![66u8]),
        46 => Some(seq![68u8]),
        47 => Some(seq![1u8, 67u8]),
        48 => Some(seq![2u8, 67u8]),
        49 => Some(seq![34u8, 66u8, 35u8, 67u8]),
        50 => Some(seq![39u8, 66u8]),
        51 => Some(seq![40u8, 66u8]),
        52 => Some(Seq::empty()),
        53 => Some(seq![23u8, 34u8, 68u8, 35u8, 69u8]),
        54 => Some(seq![24u8, 69u8]),
        55 => Some(seq![25u8, 69u8]),
        56 => Some(seq![41u8, 66u8, 66u8]),
        57 => Some(seq![26u8, 68u8]),
        58 => Some(seq![27u8, 68u8]),
        59 => Some(Seq::empty()),
        _ => None,
    }
}

/// The right-hand side of a rule, or `None` where no rule has the number.
pub fn expansion_rule(rule: u8) -> (symbols: Option<Vec<u8>>)
    ensures
        symbols is Some <==> expansion(rule) is Some,
        symbols is Some ==> symbols->0@ == expansion(rule)->0,
{
    match rule {
        1 => Some(vec![43, 44, 45]),
        2 => Some(vec![3, 1, 31, 43]),
        3 => Some(Vec::new()),
        4 => Some(vec![4, 1, 31, 44]),
        5 => Some(Vec::new()),
        6 => Some(vec![46, 45]),
        7 => Some(Vec::new()),
        8 => Some(vec![47, 48]),
        9 => Some(vec![5]),
        10 => Some(vec![6]),
        11 => Some(vec![7]),
        12 => Some(vec![8]),
        13 => Some(vec![9]),
        14 => Some(vec![49, 50]),
        15 => Some(vec![10]),
        16 => Some(vec![11]),
        17 => Some(vec![32, 51, 33]),
        18 => Some(vec![52, 31, 51]),
        19 => Some(Vec::new()),
        20 => Some(vec![53]),
        21 => Some(vec![58]),
        22 => Some(vec![59]),
        23 => Some(vec![60]),
        24 => Some(vec![61]),
        25 => Some(vec![62]),
        26 => Some(vec![63]),
        27 => Some(vec![64]),
        28 => Some(vec![50]),
        29 => Some(vec![12, 54]),
        30 => Some(vec![13, 1, 34, 55, 35, 50]),
        31 => Some(vec![55, 36, 57]),
        32 => Some(vec![1, 56]),
        33 => Some(vec![37, 1, 56]),
        34 => Some(Vec::new()),
        35 => Some(vec![28]),
        36 => Some(vec![29]),
        37 => Some(vec![30]),
        38 => Some(vec![1, 14, 65]),
        39 => Some(vec![15, 34, 65, 35, 52, 31, 16, 52]),
        40 => Some(vec![17, 34, 65, 35, 52]),
        41 => Some(vec![18, 1, 38, 65, 19, 52]),
        42 => Some(vec![20, 34, 55, 35]),
        43 => Some(vec![21, 34, 55, 35]),
        44 => Some(vec![22, 34, 65, 35]),
        45 => Some(vec![66]),
        46 => Some(vec![68]),
        47 => Some(vec![1, 67]),
        48 => Some(vec![2, 67]),
        49 => Some(vec![34, 66, 35, 67]),
        50 => Some(vec![39, 66]),
        51 => Some(vec![40, 66]),
        52 => Some(Vec::new()),
        53 => Some(vec![23, 34, 68, 35, 69]),
        54 => Some(vec![24, 69]),
        55 => Some(vec![25, 69]),
        56 => Some(vec![41, 66, 66]),
        57 => Some(vec![26, 68]),
        58 => Some(vec![27, 68]),
        59 => Some(Vec::new()),
        _ => None,
    }
}

/// The nonterminal that a rule rewrites.
pub open spec fn rule_head(rule: u8) -> u8 {
    match rule {
        1 => 42,
        2 | 3 => 43,
        4 | 5 => 44,
        6 | 7 => 45,
        8 => 46,
        9 | 10 | 11 | 12 | 13 => 47,
        14 => 48,
        15 | 16 => 49,
        17 => 50,
        18 | 19 => 51,
        20 | 21 | 22 | 23 | 24 | 25 | 26 | 27 | 28 => 52,
        29 | 30 => 53,
        31 => 54,
        32 => 55,
        33 | 34 => 56,
        35 | 36 | 37 => 57,
        38 => 58,
        39 => 59,
        40 => 60,
        41 => 61,
        42 => 62,
        43 => 63,
        44 => 64,
        45 | 46 => 65,
        47 | 48 | 49 => 66,
        50 | 51 | 52 => 67,
        53 | 54 | 55 | 56 => 68,
        57 | 58 | 59 => 69,
        _ => 0,
    }
}

/// Whatever the table chooses is a rule of the grammar, and a rule for
/// the nonterminal it was asked about.
pub proof fn lemma_rule_for(top: u8, lookahead: u8)
    ensures
        rule_for(top, lookahead) is Some ==> {
            let rule = rule_for(top, lookahead)->0;
            &&& 1 <= rule <= LAST_RULE
            &&& expansion(rule) is Some
            &&& rule_head(rule) == top
            &&& is_nonterminal(top)
        },
{
}

/// A right-hand side holds grammar symbols only.
pub proof fn lemma_expansion_symbols(rule: u8, i: int)
    requires
        expansion(rule) is Some,
        0 <= i < expansion(rule)->0.len(),
    ensures
        is_terminal(expansion(rule)->0[i]) || is_nonterminal(expansion(rule)->0[i]),
{
}

} // verus!
