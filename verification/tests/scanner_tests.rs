// Tokens, one source text at a time.
use simple_scala::bookkeeper::{Bookkeeper, SymbolType, Token};
use simple_scala::error::{Error, ErrorType};
use simple_scala::scanner::Scanner;

#[test]
fn test_whitespace() {
    let src_str = " \t\n".to_string();
    let symtab: Bookkeeper = Bookkeeper::new();
    let mut src = Scanner::new(src_str, symtab);

    let tkn: Option<Token> = src.token_request().0;
    let expected: Option<Token> = None;

    // Basically what this test is doing is checking if tkn == None.
    assert_eq!(tkn, expected);
}

// Verify that the scanner can recognize the keyword package.
#[test]
fn test_package() {
    let src_str = "package a;".to_string();
    let symtab: Bookkeeper = Bookkeeper::new();
    let mut src = Scanner::new(src_str, symtab);

    let tkn = &src.token_request().0.unwrap();

    let expected = &Some(Token {
        token: "package".to_string(),
        symbol_type: SymbolType::Keyword,
        line_number: 1,
        code: 3,
    })
    .unwrap();

    assert_eq!(tkn, expected);
}

// Verify that the scanner can recognize the protected keyword.
#[test]
fn test_protected() {
    let src_str = "protected package a;".to_string();
    let symtab: Bookkeeper = Bookkeeper::new();
    let mut src = Scanner::new(src_str, symtab);

    let tkn = &src.token_request().0.unwrap();

    let expected = &Some(Token {
        token: "protected".to_string(),
        symbol_type: SymbolType::Keyword,
        line_number: 1,
        code: 9,
    })
    .unwrap();

    assert_eq!(tkn, expected);
}

// Verify that the scanner can recognize the keyword "int."
#[test]
fn test_int() {
    let src_str = "int a;".to_string();
    let symtab: Bookkeeper = Bookkeeper::new();
    let mut src = Scanner::new(src_str, symtab);

    let tkn = &src.token_request().0.unwrap();

    let expected = &Some(Token {
        token: "int".to_string(),
        symbol_type: SymbolType::Keyword,
        line_number: 1,
        code: 28,
    })
    .unwrap();

    assert_eq!(tkn, expected);
}

// Verify that the scanner can recognize the keyword "if."
#[test]
fn test_if() {
    let src_str = "if a;".to_string();
    let symtab: Bookkeeper = Bookkeeper::new();
    let mut src = Scanner::new(src_str, symtab);

    let tkn = &src.token_request().0.unwrap();

    let expected = &Some(Token {
        token: "if".to_string(),
        symbol_type: SymbolType::Keyword,
        line_number: 1,
        code: 15,
    })
    .unwrap();

    assert_eq!(tkn, expected);
}

// Verify that the scanner can recognize the keyword "in."
#[test]
fn test_in() {
    let src_str = "in a;".to_string();
    let symtab: Bookkeeper = Bookkeeper::new();
    let mut src = Scanner::new(src_str, symtab);

    let tkn = &src.token_request().0.unwrap();

    let expected = &Some(Token {
        token: "in".to_string(),
        symbol_type: SymbolType::Keyword,
        line_number: 1,
        code: 20,
    })
    .unwrap();

    assert_eq!(tkn, expected);
}

// Verify that the scanner can recognize the keyword "import."
#[test]
fn test_import() {
    let src_str = "import package a;".to_string();
    let symtab: Bookkeeper = Bookkeeper::new();
    let mut src = Scanner::new(src_str, symtab);

    let tkn = &src.token_request().0.unwrap();

    let expected = &Some(Token {
        token: "import".to_string(),
        symbol_type: SymbolType::Keyword,
        line_number: 1,
        code: 4,
    })
    .unwrap();

    assert_eq!(tkn, expected);
}

#[test]
fn test_abstract() {
    let src_str = "abstract package a;".to_string();
    let symtab: Bookkeeper = Bookkeeper::new();
    let mut src = Scanner::new(src_str, symtab);

    let tkn = &src.token_request().0.unwrap();

    let expected = &Some(Token {
        token: "abstract".to_string(),
        symbol_type: SymbolType::Keyword,
        line_number: 1,
        code: 5,
    })
    .unwrap();

    assert_eq!(tkn, expected);
}

#[test]
fn test_and() {
    let src_str = "and is true".to_string();
    let symtab: Bookkeeper = Bookkeeper::new();
    let mut src = Scanner::new(src_str, symtab);

    let tkn = &src.token_request().0.unwrap();

    let expected = &Some(Token {
        token: "and".to_string(),
        symbol_type: SymbolType::Keyword,
        line_number: 1,
        code: 26,
    })
    .unwrap();

    assert_eq!(tkn, expected);
}

#[test]
fn test_final() {
    let src_str = "final int a;".to_string();
    let symtab: Bookkeeper = Bookkeeper::new();
    let mut src = Scanner::new(src_str, symtab);

    let tkn = &src.token_request().0.unwrap();

    let expected = &Some(Token {
        token: "final".to_string(),
        symbol_type: SymbolType::Keyword,
        line_number: 1,
        code: 6,
    })
    .unwrap();

    assert_eq!(tkn, expected);
}

#[test]
fn test_false() {
    let src_str = "false and true".to_string();
    let symtab: Bookkeeper = Bookkeeper::new();
    let mut src = Scanner::new(src_str, symtab);

    let tkn = &src.token_request().0.unwrap();

    let expected = &Some(Token {
        token: "false".to_string(),
        symbol_type: SymbolType::Keyword,
        line_number: 1,
        code: 25,
    })
    .unwrap();

    assert_eq!(tkn, expected);
}

#[test]
fn test_sealed() {
    let src_str = "sealed int a;".to_string();
    let symtab: Bookkeeper = Bookkeeper::new();
    let mut src = Scanner::new(src_str, symtab);

    let tkn = &src.token_request().0.unwrap();

    let expected = &Some(Token {
        token: "sealed".to_string(),
        symbol_type: SymbolType::Keyword,
        line_number: 1,
        code: 7,
    })
    .unwrap();

    assert_eq!(tkn, expected);
}

#[test]
fn test_class() {
    let src_str = "class a;".to_string();
    let symtab: Bookkeeper = Bookkeeper::new();
    let mut src = Scanner::new(src_str, symtab);

    let tkn = &src.token_request().0.unwrap();

    let expected = &Some(Token {
        token: "class".to_string(),
        symbol_type: SymbolType::Keyword,
        line_number: 1,
        code: 10,
    })
    .unwrap();

    assert_eq!(tkn, expected);
}

#[test]
fn test_object() {
    let src_str = "object a;".to_string();
    let symtab: Bookkeeper = Bookkeeper::new();
    let mut src = Scanner::new(src_str, symtab);

    let tkn = &src.token_request().0.unwrap();

    let expected = &Some(Token {
        token: "object".to_string(),
        symbol_type: SymbolType::Keyword,
        line_number: 1,
        code: 11,
    })
    .unwrap();

    assert_eq!(tkn, expected);
}

#[test]
fn test_val() {
    let src_str = "val a = false;".to_string();
    let symtab: Bookkeeper = Bookkeeper::new();
    let mut src = Scanner::new(src_str, symtab);

    let tkn = &src.token_request().0.unwrap();

    let expected = &Some(Token {
        token: "val".to_string(),
        symbol_type: SymbolType::Keyword,
        line_number: 1,
        code: 12,
    })
    .unwrap();

    assert_eq!(tkn, expected);
}

#[test]
fn test_def() {
    let src_str = "def this.is.function".to_string();
    let symtab: Bookkeeper = Bookkeeper::new();
    let mut src = Scanner::new(src_str, symtab);

    let tkn = &src.token_request().0.unwrap();

    let expected = &Some(Token {
        token: "def".to_string(),
        symbol_type: SymbolType::Keyword,
        line_number: 1,
        code: 13,
    })
    .unwrap();

    assert_eq!(tkn, expected);
}

#[test]
fn test_leq() {
    let src_str = "x <= 5".to_string();
    let symtab: Bookkeeper = Bookkeeper::new();
    let mut src = Scanner::new(src_str, symtab);

    // Skip first token just to see what happens
    src.token_request();
    let tkn = &src.token_request().0.unwrap();

    let expected = &Some(Token {
        token: "<=".to_string(),
        symbol_type: SymbolType::Keyword,
        line_number: 1,
        code: 14,
    })
    .unwrap();

    assert_eq!(tkn, expected);
}

#[test]
fn test_else() {
    let src_str = "else if".to_string();
    let symtab: Bookkeeper = Bookkeeper::new();
    let mut src = Scanner::new(src_str, symtab);

    let tkn = &src.token_request().0.unwrap();

    let expected = &Some(Token {
        token: "else".to_string(),
        symbol_type: SymbolType::Keyword,
        line_number: 1,
        code: 16,
    })
    .unwrap();

    assert_eq!(tkn, expected);
}

#[test]
fn test_while() {
    let src_str = "while is true".to_string();
    let symtab: Bookkeeper = Bookkeeper::new();
    let mut src = Scanner::new(src_str, symtab);

    let tkn = &src.token_request().0.unwrap();

    let expected = &Some(Token {
        token: "while".to_string(),
        symbol_type: SymbolType::Keyword,
        line_number: 1,
        code: 17,
    })
    .unwrap();

    assert_eq!(tkn, expected);
}

#[test]
fn test_case() {
    let src_str = "case a;".to_string();
    let symtab: Bookkeeper = Bookkeeper::new();
    let mut src = Scanner::new(src_str, symtab);

    let tkn = &src.token_request().0.unwrap();

    let expected = &Some(Token {
        token: "case".to_string(),
        symbol_type: SymbolType::Keyword,
        line_number: 1,
        code: 18,
    })
    .unwrap();

    assert_eq!(tkn, expected);
}

#[test]
fn test_geq() {
    let src_str = "x => 5".to_string();
    let symtab: Bookkeeper = Bookkeeper::new();
    let mut src = Scanner::new(src_str, symtab);

    src.token_request();
    let tkn = &src.token_request().0.unwrap();

    let expected = &Some(Token {
        token: "=>".to_string(),
        symbol_type: SymbolType::Keyword,
        line_number: 1,
        code: 19,
    })
    .unwrap();

    assert_eq!(tkn, expected);
}

#[test]
fn test_return() {
    let src_str = "return a;".to_string();
    let symtab: Bookkeeper = Bookkeeper::new();
    let mut src = Scanner::new(src_str, symtab);

    let tkn = &src.token_request().0.unwrap();

    let expected = &Some(Token {
        token: "return".to_string(),
        symbol_type: SymbolType::Keyword,
        line_number: 1,
        code: 22,
    })
    .unwrap();

    assert_eq!(tkn, expected);
}

#[test]
fn test_not() {
    let src_str = "not true".to_string();
    let symtab: Bookkeeper = Bookkeeper::new();
    let mut src = Scanner::new(src_str, symtab);

    let tkn = &src.token_request().0.unwrap();

    let expected = &Some(Token {
        token: "not".to_string(),
        symbol_type: SymbolType::Keyword,
        line_number: 1,
        code: 23,
    })
    .unwrap();

    assert_eq!(tkn, expected);
}

#[test]
fn test_true() {
    let src_str = "true and false = false".to_string();
    let symtab: Bookkeeper = Bookkeeper::new();
    let mut src = Scanner::new(src_str, symtab);

    let tkn = &src.token_request().0.unwrap();

    let expected = &Some(Token {
        token: "true".to_string(),
        symbol_type: SymbolType::Keyword,
        line_number: 1,
        code: 24,
    })
    .unwrap();

    assert_eq!(tkn, expected);
}

#[test]
fn test_or() {
    let src_str = "or is true".to_string();
    let symtab: Bookkeeper = Bookkeeper::new();
    let mut src = Scanner::new(src_str, symtab);

    let tkn = &src.token_request().0.unwrap();

    let expected = &Some(Token {
        token: "or".to_string(),
        symbol_type: SymbolType::Keyword,
        line_number: 1,
        code: 27,
    })
    .unwrap();

    assert_eq!(tkn, expected);
}

#[test]
fn test_real() {
    let src_str = "real a = 5.0".to_string();
    let symtab: Bookkeeper = Bookkeeper::new();
    let mut src = Scanner::new(src_str, symtab);

    let tkn = &src.token_request().0.unwrap();

    let expected = &Some(Token {
        token: "real".to_string(),
        symbol_type: SymbolType::Keyword,
        line_number: 1,
        code: 29,
    })
    .unwrap();

    assert_eq!(tkn, expected);
}

#[test]
fn test_bool() {
    let src_str = "bool b = false;".to_string();
    let symtab: Bookkeeper = Bookkeeper::new();
    let mut src = Scanner::new(src_str, symtab);

    let tkn = &src.token_request().0.unwrap();

    let expected = &Some(Token {
        token: "bool".to_string(),
        symbol_type: SymbolType::Keyword,
        line_number: 1,
        code: 30,
    })
    .unwrap();

    assert_eq!(tkn, expected);
}

// Test that the scanner recognizes an invalid keyword and throws the proper error.
#[test]
fn test_invalid_keyword() {
    let src_str = "this_is_not_a_valid_keyword\n".to_string();
    let symtab: Bookkeeper = Bookkeeper::new();
    let mut src = Scanner::new(src_str, symtab);

    let actual = src.token_request().1;

    let expected = Some(Error {
        error_type: ErrorType::InvalidSymbol,
        token: "this_is_not_a_valid_keyword".to_string(),
    });

    assert_eq!(expected, actual);
}

#[test]
fn test_zero_point_zero() {
    let src_str = "0.0\n".to_string();
    let symtab: Bookkeeper = Bookkeeper::new();
    let mut src = Scanner::new(src_str, symtab);

    let expected: &Token = &Some(Token {
        token: "0.0".to_string(),
        symbol_type: SymbolType::Constant,
        line_number: 1,
        code: 2,
    })
    .unwrap();

    let actual: &Token = &src.token_request().0.unwrap();

    assert_eq!(expected, actual);
}

#[test]
fn test_two_hundred_point_six() {
    let src_str = "200.6\n".to_string();
    let symtab: Bookkeeper = Bookkeeper::new();
    let mut src = Scanner::new(src_str, symtab);

    let expected: &Token = &Some(Token {
        token: "200.6".to_string(),
        symbol_type: SymbolType::Constant,
        line_number: 1,
        code: 2,
    })
    .unwrap();

    let actual: &Token = &src.token_request().0.unwrap();

    assert_eq!(expected, actual);
}

#[test]
fn test_point_four_seven() {
    let src_str = ".47\n".to_string();
    let symtab: Bookkeeper = Bookkeeper::new();
    let mut src = Scanner::new(src_str, symtab);

    let expected: &Token = &Some(Token {
        token: ".47".to_string(),
        symbol_type: SymbolType::Constant,
        line_number: 1,
        code: 2,
    })
    .unwrap();

    let actual: &Token = &src.token_request().0.unwrap();

    assert_eq!(expected, actual);
}

#[test]
fn scanner_test_zero() {
    let src_str = "00\n".to_string();
    let symtab: Bookkeeper = Bookkeeper::new();
    let mut src = Scanner::new(src_str, symtab);

    let expected: &Token = &Some(Token {
        token: "00".to_string(),
        symbol_type: SymbolType::Constant,
        line_number: 1,
        code: 2,
    })
    .unwrap();

    let actual: &Token = &src.token_request().0.unwrap();

    assert_eq!(expected, actual);
}

#[test]
fn test_too_many_periods() {
    let src_str = "25.2.5\n".to_string();
    let symtab: Bookkeeper = Bookkeeper::new();
    let mut src = Scanner::new(src_str, symtab);

    let actual_error: Error = src.token_request().1.unwrap();

    let expected_error: Error = Some(Error {
        error_type: ErrorType::ConstantHasTooManyPeriods,
        token: "25.2.5".to_string(),
    })
    .unwrap();

    assert_eq!(expected_error, actual_error);
}

#[test]
fn test_x() {
    let src_str = "x\n".to_string();
    let symtab: Bookkeeper = Bookkeeper::new();
    let mut src = Scanner::new(src_str, symtab);

    let expected: &Token = &Some(Token {
        token: "x".to_string(),
        symbol_type: SymbolType::Identifier,
        line_number: 1,
        code: 1,
    })
    .unwrap();

    let actual: &Token = &src.token_request().0.unwrap();

    assert_eq!(expected, actual);
}

#[test]
fn test_xx() {
    let src_str = "xx\n".to_string();
    let symtab: Bookkeeper = Bookkeeper::new();
    let mut src = Scanner::new(src_str, symtab);

    let expected: &Token = &Some(Token {
        token: "xx".to_string(),
        symbol_type: SymbolType::Identifier,
        line_number: 1,
        code: 1,
    })
    .unwrap();

    let actual: &Token = &src.token_request().0.unwrap();

    assert_eq!(expected, actual);
}

#[test]
fn test_x_with_semicolon() {
    let src_str = "x;\n".to_string();
    let symtab: Bookkeeper = Bookkeeper::new();
    let mut src = Scanner::new(src_str, symtab);

    let expected: &Token = &Some(Token {
        token: "x".to_string(),
        symbol_type: SymbolType::Identifier,
        line_number: 1,
        code: 1,
    })
    .unwrap();

    let actual: &Token = &src.token_request().0.unwrap();

    assert_eq!(expected, actual);
}

#[test]
fn test_a() {
    let src_str = "a\n".to_string();
    let symtab: Bookkeeper = Bookkeeper::new();
    let mut src = Scanner::new(src_str, symtab);

    let expected: &Token = &Some(Token {
        token: "a".to_string(),
        symbol_type: SymbolType::Identifier,
        line_number: 1,
        code: 1,
    })
    .unwrap();

    let actual: &Token = &src.token_request().0.unwrap();

    assert_eq!(expected, actual);
}

#[test]
fn test_aa() {
    let src_str = "aa\n".to_string();
    let symtab: Bookkeeper = Bookkeeper::new();
    let mut src = Scanner::new(src_str, symtab);

    let expected: &Token = &Some(Token {
        token: "aa".to_string(),
        symbol_type: SymbolType::Identifier,
        line_number: 1,
        code: 1,
    })
    .unwrap();

    let actual: &Token = &src.token_request().0.unwrap();

    assert_eq!(expected, actual);
}

#[test]
fn test_aa_with_semicolon() {
    let src_str = "aa;\n".to_string();
    let symtab: Bookkeeper = Bookkeeper::new();
    let mut src = Scanner::new(src_str, symtab);

    let expected: &Token = &Some(Token {
        token: "aa".to_string(),
        symbol_type: SymbolType::Identifier,
        line_number: 1,
        code: 1,
    })
    .unwrap();

    let actual: &Token = &src.token_request().0.unwrap();

    assert_eq!(expected, actual);
}

#[test]
fn test_print_but_without_t() {
    let src_str = "prin\n".to_string();
    let symtab: Bookkeeper = Bookkeeper::new();
    let mut src = Scanner::new(src_str, symtab);

    let expected: &Token = &Some(Token {
        token: "prin".to_string(),
        symbol_type: SymbolType::Identifier,
        line_number: 1,
        code: 1,
    })
    .unwrap();

    let actual: &Token = &src.token_request().0.unwrap();

    assert_eq!(expected, actual);
}

#[test]
fn test_print_but_without_t_and_with_semicolon() {
    let src_str = "prin;\n".to_string();
    let symtab: Bookkeeper = Bookkeeper::new();
    let mut src = Scanner::new(src_str, symtab);

    let expected: &Token = &Some(Token {
        token: "prin".to_string(),
        symbol_type: SymbolType::Identifier,
        line_number: 1,
        code: 1,
    })
    .unwrap();

    let actual: &Token = &src.token_request().0.unwrap();

    assert_eq!(expected, actual);
}

#[test]
fn test_one_of_dr_kim_crazy_identifiers() {
    let src_str = "b.c...67\n".to_string();
    let symtab: Bookkeeper = Bookkeeper::new();
    let mut src = Scanner::new(src_str, symtab);

    let expected: &Token = &Some(Token {
        token: "b.c...67".to_string(),
        symbol_type: SymbolType::Identifier,
        line_number: 1,
        code: 1,
    })
    .unwrap();

    let actual: &Token = &src.token_request().0.unwrap();

    assert_eq!(expected, actual);
}

#[test]
fn test_one_of_dr_kim_crazy_identifiers_with_semicolon() {
    let src_str = "b.c...67;\n".to_string();
    let symtab: Bookkeeper = Bookkeeper::new();
    let mut src = Scanner::new(src_str, symtab);

    let expected: &Token = &Some(Token {
        token: "b.c...67".to_string(),
        symbol_type: SymbolType::Identifier,
        line_number: 1,
        code: 1,
    })
    .unwrap();

    let actual: &Token = &src.token_request().0.unwrap();

    assert_eq!(expected, actual);
}

#[test]
fn test_one_of_dr_kim_crazy_identifiers_with_parentheses() {
    let src_str = "b.c...67()\n".to_string();
    let symtab: Bookkeeper = Bookkeeper::new();
    let mut src = Scanner::new(src_str, symtab);

    let expected: &Token = &Some(Token {
        token: "b.c...67".to_string(),
        symbol_type: SymbolType::Identifier,
        line_number: 1,
        code: 1,
    })
    .unwrap();

    let actual: &Token = &src.token_request().0.unwrap();

    assert_eq!(expected, actual);

    let expected: &Token = &Some(Token {
        token: "(".to_string(),
        symbol_type: SymbolType::SpecialSymbol,
        line_number: 1,
        code: 34,
    })
    .unwrap();

    let actual: &Token = &src.token_request().0.unwrap();

    assert_eq!(expected, actual);

    let expected: &Token = &Some(Token {
        token: ")".to_string(),
        symbol_type: SymbolType::SpecialSymbol,
        line_number: 1,
        code: 35,
    })
    .unwrap();

    let actual: &Token = &src.token_request().0.unwrap();

    assert_eq!(expected, actual);
}

#[test]
fn test_i() {
    let src_str = "i\n".to_string();
    let symtab: Bookkeeper = Bookkeeper::new();
    let mut src = Scanner::new(src_str, symtab);

    let expected: &Token = &Some(Token {
        token: "i".to_string(),
        symbol_type: SymbolType::Identifier,
        line_number: 1,
        code: 1,
    })
    .unwrap();

    let actual: &Token = &src.token_request().0.unwrap();

    assert_eq!(expected, actual);
}

#[test]
fn test_i_with_semicolon() {
    let src_str = "i;\n".to_string();
    let symtab: Bookkeeper = Bookkeeper::new();
    let mut src = Scanner::new(src_str, symtab);

    let expected: &Token = &Some(Token {
        token: "i".to_string(),
        symbol_type: SymbolType::Identifier,
        line_number: 1,
        code: 1,
    })
    .unwrap();

    let actual: &Token = &src.token_request().0.unwrap();

    assert_eq!(expected, actual);
}

#[test]
fn test_ii() {
    let src_str = "ii\n".to_string();
    let symtab: Bookkeeper = Bookkeeper::new();
    let mut src = Scanner::new(src_str, symtab);

    let expected: &Token = &Some(Token {
        token: "ii".to_string(),
        symbol_type: SymbolType::Identifier,
        line_number: 1,
        code: 1,
    })
    .unwrap();

    let actual: &Token = &src.token_request().0.unwrap();

    assert_eq!(expected, actual);
}

#[test]
fn test_ii_with_semicolon() {
    let src_str = "ii;\n".to_string();
    let symtab: Bookkeeper = Bookkeeper::new();
    let mut src = Scanner::new(src_str, symtab);

    let expected: &Token = &Some(Token {
        token: "ii".to_string(),
        symbol_type: SymbolType::Identifier,
        line_number: 1,
        code: 1,
    })
    .unwrap();

    let actual: &Token = &src.token_request().0.unwrap();

    assert_eq!(expected, actual);
}

#[test]
fn test_equal_sign() {
    let src_str = "=\n".to_string();
    let symtab: Bookkeeper = Bookkeeper::new();
    let mut src = Scanner::new(src_str, symtab);

    let expected: &Token = &Some(Token {
        token: "=".to_string(),
        symbol_type: SymbolType::SpecialSymbol,
        line_number: 1,
        code: 38,
    })
    .unwrap();

    let actual: &Token = &src.token_request().0.unwrap();

    assert_eq!(expected, actual);
}

#[test]
fn test_semicolon() {
    let src_str = ";\n".to_string();
    let symtab: Bookkeeper = Bookkeeper::new();
    let mut src = Scanner::new(src_str, symtab);

    let expected: &Token = &Some(Token {
        token: ";".to_string(),
        symbol_type: SymbolType::SpecialSymbol,
        line_number: 1,
        code: 31,
    })
    .unwrap();

    let actual: &Token = &src.token_request().0.unwrap();

    assert_eq!(expected, actual);
}

#[test]
fn test_left_bracket() {
    let src_str = "{\n".to_string();
    let symtab: Bookkeeper = Bookkeeper::new();
    let mut src = Scanner::new(src_str, symtab);

    let expected: &Token = &Some(Token {
        token: "{".to_string(),
        symbol_type: SymbolType::SpecialSymbol,
        line_number: 1,
        code: 32,
    })
    .unwrap();

    let actual: &Token = &src.token_request().0.unwrap();

    assert_eq!(expected, actual);
}

#[test]
fn test_right_bracket() {
    let src_str = "}\n".to_string();
    let symtab: Bookkeeper = Bookkeeper::new();
    let mut src = Scanner::new(src_str, symtab);

    let expected: &Token = &Some(Token {
        token: "}".to_string(),
        symbol_type: SymbolType::SpecialSymbol,
        line_number: 1,
        code: 33,
    })
    .unwrap();

    let actual: &Token = &src.token_request().0.unwrap();

    assert_eq!(expected, actual);
}

#[test]
fn test_left_parenthesis() {
    let src_str = "(\n".to_string();
    let symtab: Bookkeeper = Bookkeeper::new();
    let mut src = Scanner::new(src_str, symtab);

    let expected: &Token = &Some(Token {
        token: "(".to_string(),
        symbol_type: SymbolType::SpecialSymbol,
        line_number: 1,
        code: 34,
    })
    .unwrap();

    let actual: &Token = &src.token_request().0.unwrap();

    assert_eq!(expected, actual);
}

#[test]
fn test_right_parenthesis() {
    let src_str = ")\n".to_string();
    let symtab: Bookkeeper = Bookkeeper::new();
    let mut src = Scanner::new(src_str, symtab);

    let expected: &Token = &Some(Token {
        token: ")".to_string(),
        symbol_type: SymbolType::SpecialSymbol,
        line_number: 1,
        code: 35,
    })
    .unwrap();

    let actual: &Token = &src.token_request().0.unwrap();

    assert_eq!(expected, actual);
}

#[test]
fn test_colon() {
    let src_str = ":\n".to_string();
    let symtab: Bookkeeper = Bookkeeper::new();
    let mut src = Scanner::new(src_str, symtab);

    let expected: &Token = &Some(Token {
        token: ":".to_string(),
        symbol_type: SymbolType::SpecialSymbol,
        line_number: 1,
        code: 36,
    })
    .unwrap();

    let actual: &Token = &src.token_request().0.unwrap();

    assert_eq!(expected, actual);
}

#[test]
fn test_comma() {
    let src_str = ",\n".to_string();
    let symtab: Bookkeeper = Bookkeeper::new();
    let mut src = Scanner::new(src_str, symtab);

    let expected: &Token = &Some(Token {
        token: ",".to_string(),
        symbol_type: SymbolType::SpecialSymbol,
        line_number: 1,
        code: 37,
    })
    .unwrap();

    let actual: &Token = &src.token_request().0.unwrap();

    assert_eq!(expected, actual);
}

#[test]
fn test_plus_sign() {
    let src_str = "+\n".to_string();
    let symtab: Bookkeeper = Bookkeeper::new();
    let mut src = Scanner::new(src_str, symtab);

    let expected: &Token = &Some(Token {
        token: "+".to_string(),
        symbol_type: SymbolType::SpecialSymbol,
        line_number: 1,
        code: 39,
    })
    .unwrap();

    let actual: &Token = &src.token_request().0.unwrap();

    assert_eq!(expected, actual);
}

#[test]
fn test_star() {
    let src_str = "*\n".to_string();
    let symtab: Bookkeeper = Bookkeeper::new();
    let mut src = Scanner::new(src_str, symtab);

    let expected: &Token = &Some(Token {
        token: "*".to_string(),
        symbol_type: SymbolType::SpecialSymbol,
        line_number: 1,
        code: 40,
    })
    .unwrap();

    let actual: &Token = &src.token_request().0.unwrap();

    assert_eq!(expected, actual);
}

#[test]
fn test_at_sign() {
    let src_str = "@\n".to_string();
    let symtab: Bookkeeper = Bookkeeper::new();
    let mut src = Scanner::new(src_str, symtab);

    let expected: &Token = &Some(Token {
        token: "@".to_string(),
        symbol_type: SymbolType::SpecialSymbol,
        line_number: 1,
        code: 41,
    })
    .unwrap();

    let actual: &Token = &src.token_request().0.unwrap();

    assert_eq!(expected, actual);
}

#[test]
fn test_comments() {
    let src_str = "int a # this is a comment\nint b".to_string();
    let symtab: Bookkeeper = Bookkeeper::new();
    let mut src = Scanner::new(src_str, symtab);

    src.token_request();
    src.token_request();
    src.token_request();

    let mut tkn = src.token_request().0;
    while tkn.is_none() {
        tkn = src.token_request().0;
    }

    let expected_tkn: &Token = &Some(Token {
        token: "int".to_string(),
        symbol_type: SymbolType::Keyword,
        line_number: 2,
        code: 28,
    })
    .unwrap();

    assert_eq!(expected_tkn, &tkn.unwrap());
}

#[test]
fn test_dollar_sign() {
    let src_str = "\n$\n".to_string();
    let symtab: Bookkeeper = Bookkeeper::new();
    let mut src = Scanner::new(src_str, symtab);

    println!("{:?}", src.token_request());

    let expected: bool = true;
    let actual: bool = src.is_done();

    assert_eq!(expected, actual);
}

#[test]
fn test_some_text() {
    let src_str = "
        int a;
        package b;
        integers
        this is a test of identifiers
        # nothing in this line should be taken seriously
        int c;
        $
        "
    .to_string();
    let symtab = Bookkeeper::new();
    let mut src: Scanner = Scanner::new(src_str, symtab);

    let tkn = src.token_request().0.unwrap();

    let expected: &Token = &Some(Token {
        token: "int".to_string(),
        symbol_type: SymbolType::Keyword,
        line_number: 2,
        code: 28,
    })
    .unwrap();

    assert_eq!(expected, &tkn);

    let tkn = src.token_request().0.unwrap();
    let expected = &Some(Token {
        token: "a".to_string(),
        symbol_type: SymbolType::Identifier,
        line_number: 2,
        code: 1,
    })
    .unwrap();

    assert_eq!(expected, &tkn);

    let tkn = src.token_request().0.unwrap();
    let expected: &Token = &Some(Token {
        token: ";".to_string(),
        symbol_type: SymbolType::SpecialSymbol,
        line_number: 2,
        code: 31,
    })
    .unwrap();

    assert_eq!(expected, &tkn);

    let tkn = src.token_request().0.unwrap();
    let expected: &Token = &Some(Token {
        token: "package".to_string(),
        symbol_type: SymbolType::Keyword,
        line_number: 3,
        code: 3,
    })
    .unwrap();

    assert_eq!(expected, &tkn);

    let tkn = src.token_request().0.unwrap();
    let expected: &Token = &Some(Token {
        token: "b".to_string(),
        symbol_type: SymbolType::Identifier,
        line_number: 3,
        code: 1,
    })
    .unwrap();

    assert_eq!(expected, &tkn);

    let tkn = src.token_request().0.unwrap();
    let expected: &Token = &Some(Token {
        token: ";".to_string(),
        symbol_type: SymbolType::SpecialSymbol,
        line_number: 3,
        code: 31,
    })
    .unwrap();

    assert_eq!(expected, &tkn);

    let tkn = src.token_request().0.unwrap();
    let expected: &Token = &Some(Token {
        token: "integers".to_string(),
        symbol_type: SymbolType::Identifier,
        line_number: 4,
        code: 1,
    })
    .unwrap();

    assert_eq!(expected, &tkn);

    let tkn = src.token_request().0.unwrap();
    let expected: &Token = &Some(Token {
        token: "this".to_string(),
        symbol_type: SymbolType::Identifier,
        line_number: 5,
        code: 1,
    })
    .unwrap();

    assert_eq!(expected, &tkn);

    let tkn = src.token_request().0.unwrap();
    let expected: &Token = &Some(Token {
        token: "is".to_string(),
        symbol_type: SymbolType::Identifier,
        line_number: 5,
        code: 1,
    })
    .unwrap();

    assert_eq!(expected, &tkn);

    let tkn = src.token_request().0.unwrap();
    let expected: &Token = &Some(Token {
        token: "a".to_string(),
        symbol_type: SymbolType::Identifier,
        line_number: 5,
        code: 1,
    })
    .unwrap();

    assert_eq!(expected, &tkn);

    let tkn = src.token_request().0.unwrap();
    let expected: &Token = &Some(Token {
        token: "test".to_string(),
        symbol_type: SymbolType::Identifier,
        line_number: 5,
        code: 1,
    })
    .unwrap();

    assert_eq!(expected, &tkn);

    let tkn = src.token_request().0.unwrap();
    let expected: &Token = &Some(Token {
        token: "of".to_string(),
        symbol_type: SymbolType::Identifier,
        line_number: 5,
        code: 1,
    })
    .unwrap();

    assert_eq!(expected, &tkn);

    let tkn = src.token_request().0.unwrap();
    let expected: &Token = &Some(Token {
        token: "identifiers".to_string(),
        symbol_type: SymbolType::Identifier,
        line_number: 5,
        code: 1,
    })
    .unwrap();

    assert_eq!(expected, &tkn);

    let tkn = src.token_request().0.unwrap();
    let expected: &Token = &Some(Token {
        token: "#".to_string(),
        symbol_type: SymbolType::SpecialSymbol,
        line_number: 6,
        code: 254,
    })
    .unwrap();

    assert_eq!(expected, &tkn);

    let tkn = src.token_request().0.unwrap();
    let expected: &Token = &Some(Token {
        token: "int".to_string(),
        symbol_type: SymbolType::Keyword,
        line_number: 7,
        code: 28,
    })
    .unwrap();

    assert_eq!(expected, &tkn);

    let tkn = src.token_request().0.unwrap();
    let expected: &Token = &Some(Token {
        token: "c".to_string(),
        symbol_type: SymbolType::Identifier,
        line_number: 7,
        code: 1,
    })
    .unwrap();

    assert_eq!(expected, &tkn);

    let tkn = src.token_request().0.unwrap();
    let expected: &Token = &Some(Token {
        token: ";".to_string(),
        symbol_type: SymbolType::SpecialSymbol,
        line_number: 7,
        code: 31,
    })
    .unwrap();

    assert_eq!(expected, &tkn);

    src.token_request();
    let expected: bool = true;
    let actual: bool = src.is_done();

    assert_eq!(expected, actual);
}
