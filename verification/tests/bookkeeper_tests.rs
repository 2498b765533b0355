// The symbol table keeps each entry once.
use simple_scala::bookkeeper::{Bookkeeper, SymbolTableToken, SymbolType};

#[test]
fn test_one_entry() {
    let mut symtab = Bookkeeper::new();
    let tkn = SymbolTableToken {
        token: "test".to_string(),
        symbol_type: SymbolType::Identifier,
        code: 1,
    };

    symtab.insert(tkn);

    let expected = 1;
    let actual = symtab.len();

    assert_eq!(expected, actual);
}

#[test]
fn test_duplicate_entries() {
    let mut symtab = Bookkeeper::new();
    let tkn = SymbolTableToken {
        token: "test".to_string(),
        symbol_type: SymbolType::Identifier,
        code: 1,
    };

    let dup_tkn = tkn.clone();

    symtab.insert(tkn);
    symtab.insert(dup_tkn);

    let expected = 1;
    let actual = symtab.len();

    assert_eq!(expected, actual);
}
