// The grammar tables, the stack and the automaton on chosen values.
use simple_scala::bookkeeper::{
    convert_token_to_symbol_table_token, Bookkeeper, SymbolTableToken, SymbolType, Token,
};
use simple_scala::pda::{Action, PDA};
use simple_scala::rules::{
    code_label, code_to_string, expansion_rule, first_statement, follow_arith, follow_imports,
    lookup_rule, COMMENT_CODE, LAST_RULE, START_SYMBOL, UNKNOWN_CODE,
};
use simple_scala::rules::{first_modifier, first_scala, follow_packages, parsing_rule};
use simple_scala::stack::{Stack, BOTTOM};

fn token(text: &str, symbol_type: SymbolType, code: u8) -> Token {
    Token { token: text.to_string(), symbol_type, line_number: 1, code }
}

#[test]
fn codes_are_written_with_their_name_and_number() {
    assert_eq!(code_to_string(0), "z0 (0)");
    assert_eq!(code_to_string(1), "[id] (1)");
    assert_eq!(code_to_string(2), "[const] (2)");
    assert_eq!(code_to_string(3), "package (3)");
    assert_eq!(code_to_string(14), "<= (14)");
    assert_eq!(code_to_string(19), "=> (19)");
    assert_eq!(code_to_string(41), "@ (41)");
    assert_eq!(code_to_string(42), "<scala> (42)");
    assert_eq!(code_to_string(69), "<bool> (69)");
    assert_eq!(code_to_string(70), "{ERROR} (70)");
    assert_eq!(code_to_string(253), "{ERROR} (253)");
    assert_eq!(code_to_string(255), "{ERROR} (255)");
}

#[test]
fn labels_are_the_names_alone() {
    assert_eq!(code_label(0), "z0");
    assert_eq!(code_label(30), "bool");
    assert_eq!(code_label(68), "<bool-exp>");
    assert_eq!(code_label(200), "{ERROR}");
}

#[test]
fn the_constants_of_the_grammar() {
    assert_eq!(START_SYMBOL, 42);
    assert_eq!(COMMENT_CODE, 254);
    assert_eq!(UNKNOWN_CODE, 255);
    assert_eq!(LAST_RULE, 59);
    assert_eq!(BOTTOM, 0);
}

#[test]
fn first_and_follow_sets_hold_what_they_should() {
    let count = |f: fn(u8) -> bool| (0..=255u8).filter(|c| f(*c)).count();
    assert_eq!(count(first_modifier), 5);
    assert_eq!(count(first_scala), 8);
    assert_eq!(count(follow_packages), 7);
    assert_eq!(count(follow_imports), 6);
    assert_eq!(count(first_statement), 10);
    assert_eq!(count(follow_arith), 6);
    assert!(first_scala(253));
    assert!(!first_scala(1));
    assert!(follow_imports(9));
    assert!(!follow_imports(4));
    assert!(first_statement(32));
    assert!(!first_statement(33));
    assert!(follow_arith(19));
    assert!(!follow_arith(39));
}

#[test]
fn the_parsing_table_has_its_entries() {
    let entries = (0..=255u8)
        .flat_map(|top| (0..=255u8).map(move |lookahead| (top, lookahead)))
        .filter(|(top, lookahead)| parsing_rule(*top, *lookahead).is_some())
        .count();
    assert_eq!(entries, 107);
    assert_eq!(parsing_rule(42, 3), Some(1));
    assert_eq!(parsing_rule(42, 253), Some(1));
    assert_eq!(parsing_rule(43, 3), Some(2));
    assert_eq!(parsing_rule(43, 4), Some(3));
    assert_eq!(parsing_rule(45, 253), Some(7));
    assert_eq!(parsing_rule(48, 11), Some(14));
    assert_eq!(parsing_rule(52, 32), Some(28));
    assert_eq!(parsing_rule(56, 35), Some(34));
    assert_eq!(parsing_rule(67, 34), Some(52));
    assert_eq!(parsing_rule(69, 253), Some(59));
    assert_eq!(parsing_rule(43, 1), None);
    assert_eq!(parsing_rule(41, 41), None);
    assert_eq!(parsing_rule(70, 1), None);
}

#[test]
fn a_nonterminal_falls_back_on_the_empty_string() {
    assert_eq!(lookup_rule(43, 3), Some(2));
    assert_eq!(lookup_rule(43, 1), Some(3));
    assert_eq!(lookup_rule(42, 1), Some(1));
    assert_eq!(lookup_rule(45, 254), Some(7));
    assert_eq!(lookup_rule(69, 31), Some(59));
    assert_eq!(lookup_rule(50, 1), None);
    assert_eq!(lookup_rule(46, 253), None);
    assert_eq!(lookup_rule(3, 3), None);
    assert_eq!(lookup_rule(0, 253), None);
    assert_eq!(lookup_rule(200, 253), None);
}

#[test]
fn every_rule_the_table_names_has_a_right_hand_side() {
    for top in 0..=255u8 {
        for lookahead in 0..=255u8 {
            if let Some(rule) = lookup_rule(top, lookahead) {
                assert!(1 <= rule && rule <= LAST_RULE);
                assert!(expansion_rule(rule).is_some());
                assert!(42 <= top && top <= 69);
            }
        }
    }
}

#[test]
fn right_hand_sides_are_as_the_grammar_has_them() {
    assert_eq!(expansion_rule(1), Some(vec![43, 44, 45]));
    assert_eq!(expansion_rule(3), Some(vec![]));
    assert_eq!(expansion_rule(30), Some(vec![13, 1, 34, 55, 35, 50]));
    assert_eq!(expansion_rule(39), Some(vec![15, 34, 65, 35, 52, 31, 16, 52]));
    assert_eq!(expansion_rule(56), Some(vec![41, 66, 66]));
    assert_eq!(expansion_rule(59), Some(vec![]));
    assert_eq!(expansion_rule(0), None);
    assert_eq!(expansion_rule(60), None);
    let empty = (1..=59u8).filter(|r| expansion_rule(*r) == Some(vec![])).count();
    assert_eq!(empty, 7);
}

#[test]
fn the_stack_hands_out_last_in_first() {
    let mut s = Stack::new();
    assert!(s.is_empty());
    assert_eq!(s.len(), 1);
    s.push(42);
    s.push(7);
    assert!(!s.is_empty());
    assert_eq!(s.peek(), 7);
    assert_eq!(s.slots(), &vec![0, 42, 7]);
    assert_eq!(s.pop(), 7);
    assert_eq!(s.peek(), 42);
    assert_eq!(s.pop(), 42);
    assert!(s.is_empty());
    assert_eq!(s.slots(), &vec![0]);
}

#[test]
fn a_pushed_zero_is_no_bottom_marker() {
    let mut s = Stack::new();
    s.push(0);
    assert!(!s.is_empty());
    assert_eq!(s.pop(), 0);
    assert!(s.is_empty());
}

#[test]
fn the_automaton_starts_with_the_start_symbol() {
    let mut pda = PDA::new();
    assert!(!pda.q());
    assert!(pda.stack().is_empty());
    pda.initialize();
    assert!(pda.q());
    assert_eq!(pda.stack().slots(), &vec![0, 42]);
}

#[test]
fn an_expansion_puts_the_first_symbol_on_top() {
    let mut pda = PDA::new();
    pda.initialize();
    assert_eq!(pda.step(3), Action::UseRule(1));
    assert_eq!(pda.stack().slots(), &vec![0, 45, 44, 43]);
    assert_eq!(pda.step(3), Action::UseRule(2));
    assert_eq!(pda.stack().slots(), &vec![0, 45, 44, 43, 31, 1, 3]);
    assert_eq!(pda.step(3), Action::Match);
    assert_eq!(pda.stack().slots(), &vec![0, 45, 44, 43, 31, 1]);
    assert_eq!(pda.step(31), Action::Error);
    assert_eq!(pda.stack().slots(), &vec![0, 45, 44, 43, 31]);
}

#[test]
fn a_transition_says_whether_to_go_on_and_whether_to_fetch() {
    let mut pda = PDA::new();
    pda.initialize();
    assert_eq!(pda.transition(token("package", SymbolType::Keyword, 3)), (true, false));
    assert_eq!(pda.transition(token("package", SymbolType::Keyword, 3)), (true, false));
    assert_eq!(pda.transition(token("package", SymbolType::Keyword, 3)), (true, true));
    assert_eq!(pda.transition(token("a", SymbolType::Identifier, 1)), (true, true));
    assert_eq!(pda.transition(token("a", SymbolType::Identifier, 1)), (false, false));
    assert!(pda.q());
}

#[test]
fn an_empty_rule_only_takes_the_top_off() {
    let mut pda = PDA::new();
    pda.initialize();
    assert_eq!(pda.step(253), Action::UseRule(1));
    assert_eq!(pda.step(253), Action::UseRule(3));
    assert_eq!(pda.step(253), Action::UseRule(5));
    assert_eq!(pda.step(253), Action::UseRule(7));
    assert!(pda.stack().is_empty());
}

#[test]
fn a_nonterminal_without_a_rule_is_an_error() {
    let mut pda = PDA::new();
    pda.initialize();
    pda.step(5);
    pda.step(5);
    pda.step(5);
    assert_eq!(pda.step(5), Action::UseRule(6));
    assert_eq!(pda.stack().slots(), &vec![0, 45, 46]);
    assert_eq!(pda.step(1), Action::Error);
    assert_eq!(pda.stack().slots(), &vec![0, 45]);
}

#[test]
fn an_entry_is_a_token_without_its_line() {
    let t = Token {
        token: "count".to_string(),
        symbol_type: SymbolType::Identifier,
        line_number: 12,
        code: 1,
    };
    let expected = SymbolTableToken {
        token: "count".to_string(),
        symbol_type: SymbolType::Identifier,
        code: 1,
    };
    assert_eq!(t.entry(), expected);
    assert_eq!(t.duplicate(), t);
    assert_eq!(convert_token_to_symbol_table_token(t), expected);
}

#[test]
fn the_symbol_table_tells_entries_apart_by_all_three_fields() {
    let mut symtab = Bookkeeper::new();
    let entry = |text: &str, symbol_type: SymbolType, code: u8| SymbolTableToken {
        token: text.to_string(),
        symbol_type,
        code,
    };
    symtab.insert(entry("a", SymbolType::Identifier, 1));
    symtab.insert(entry("a", SymbolType::Identifier, 1));
    assert_eq!(symtab.len(), 1);
    symtab.insert(entry("b", SymbolType::Identifier, 1));
    symtab.insert(entry("a", SymbolType::Constant, 1));
    symtab.insert(entry("a", SymbolType::Identifier, 2));
    symtab.insert(entry("b", SymbolType::Identifier, 1));
    assert_eq!(symtab.len(), 4);
    assert!(symtab.contains(&entry("a", SymbolType::Constant, 1)));
    assert!(!symtab.contains(&entry("b", SymbolType::Constant, 1)));
    assert_eq!(symtab.symbols()[0], entry("a", SymbolType::Identifier, 1));
    assert_eq!(symtab.symbols()[3], entry("a", SymbolType::Identifier, 2));
}

#[test]
fn classes_have_their_names() {
    assert_eq!(SymbolType::Keyword.name(), "Keyword");
    assert_eq!(SymbolType::Constant.name(), "Constant");
    assert_eq!(SymbolType::Identifier.name(), "Identifier");
    assert_eq!(SymbolType::SpecialSymbol.name(), "Special Symbol");
    assert_eq!(SymbolType::Epsilon.name(), "Epsilon");
}
