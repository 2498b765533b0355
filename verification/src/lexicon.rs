//! The keywords of the language and their grammar codes.
//!
//! No keyword has more than nine letters. The predicates here compare
//! words position by position over those nine places, which lets the
//! solver decide them on words that are written out.

use crate::rules::{code_name, UNKNOWN_CODE};
use crate::text::is_ascii_letter;
use vstd::prelude::*;

verus! {

/// The length of the longest keyword, `protected`.
pub const LONGEST_KEYWORD: usize = 9;

/// The grammar code of a special symbol that is a token by itself. The
/// mark that opens a comment has none and gets `UNKNOWN_CODE`, as does
/// every other character.
pub open spec fn special_symbol_code(c: char) -> u8 {
    if c == ';' {
        31
    } else if c == '{' {
        32
    } else if c == '}' {
        33
    } else if c == '(' {
        34
    } else if c == ')' {
        35
    } else if c == ':' {
        36
    } else if c == ',' {
        37
    } else if c == '=' {
        38
    } else if c == '+' {
        39
    } else if c == '*' {
        40
    } else if c == '@' {
        41
    } else {
        UNKNOWN_CODE
    }
}

/// Given a special symbol, its grammar code.
pub fn match_special_symbol_to_code(special_symbol: char) -> (code: u8)
    ensures
        code == special_symbol_code(special_symbol),
{
    match special_symbol {
        ';' => 31,
        '{' => 32,
        '}' => 33,
        '(' => 34,
        ')' => 35,
        ':' => 36,
        ',' => 37,
        '=' => 38,
        '+' => 39,
        '*' => 40,
        '@' => 41,
        _ => UNKNOWN_CODE,
    }
}

/// If `w` has a letter at place `i`, so has `k`, and it is the same.
pub open spec fn agree(w: Seq<char>, k: Seq<char>, i: int) -> bool {
    i < w.len() ==> i < k.len() && w[i] == k[i]
}

/// `w` is an initial part of `k`, where `k` has at most nine letters.
pub open spec fn heads(w: Seq<char>, k: Seq<char>) -> bool {
    &&& w.len() <= k.len()
    &&& agree(w, k, 0)
    &&& agree(w, k, 1)
    &&& agree(w, k, 2)
    &&& agree(w, k, 3)
    &&& agree(w, k, 4)
    &&& agree(w, k, 5)
    &&& agree(w, k, 6)
    &&& agree(w, k, 7)
    &&& agree(w, k, 8)
}

/// `w` is the word `k`, where `k` has at most nine letters.
pub open spec fn spells(w: Seq<char>, k: Seq<char>) -> bool {
    w.len() == k.len() && heads(w, k)
}

/// The grammar code of `word` if it is a keyword.
pub open spec fn keyword_code(word: Seq<char>) -> Option<u8> {
    if spells(word, "package"@) {
        Some(3u8)
    }     else if spells(word, "import"@) {
        Some(4u8)
    }     else if spells(word, "abstract"@) {
        Some(5u8)
    }     else if spells(word, "final"@) {
        Some(6u8)
    }     else if spells(word, "sealed"@) {
        Some(7u8)
    }     else if spells(word, "private"@) {
        Some(8u8)
    }     else if spells(word, "protected"@) {
        Some(9u8)
    }     else if spells(word, "class"@) {
        Some(10u8)
    }     else if spells(word, "object"@) {
        Some(11u8)
    }     else if spells(word, "val"@) {
        Some(12u8)
    }     else if spells(word, "def"@) {
        Some(13u8)
    }     else if spells(word, "if"@) {
        Some(15u8)
    }     else if spells(word, "else"@) {
        Some(16u8)
    }     else if spells(word, "while"@) {
        Some(17u8)
    }     else if spells(word, "case"@) {
        Some(18u8)
    }     else if spells(word, "in"@) {
        Some(20u8)
    }     else if spells(word, "print"@) {
        Some(21u8)
    }     else if spells(word, "return"@) {
        Some(22u8)
    }     else if spells(word, "not"@) {
        Some(23u8)
    }     else if spells(word, "true"@) {
        Some(24u8)
    }     else if spells(word, "false"@) {
        Some(25u8)
    }     else if spells(word, "and"@) {
        Some(26u8)
    }     else if spells(word, "or"@) {
        Some(27u8)
    }     else if spells(word, "int"@) {
        Some(28u8)
    }     else if spells(word, "real"@) {
        Some(29u8)
    }     else if spells(word, "bool"@) {
        Some(30u8)
    } else {
        None
    }
}

/// `w` is an initial part of some keyword: reading on may still give one.
pub open spec fn starts_keyword(w: Seq<char>) -> bool {
    ||| heads(w, "package"@)
    ||| heads(w, "import"@)
    ||| heads(w, "abstract"@)
    ||| heads(w, "final"@)
    ||| heads(w, "sealed"@)
    ||| heads(w, "private"@)
    ||| heads(w, "protected"@)
    ||| heads(w, "class"@)
    ||| heads(w, "object"@)
    ||| heads(w, "val"@)
    ||| heads(w, "def"@)
    ||| heads(w, "if"@)
    ||| heads(w, "else"@)
    ||| heads(w, "while"@)
    ||| heads(w, "case"@)
    ||| heads(w, "in"@)
    ||| heads(w, "print"@)
    ||| heads(w, "return"@)
    ||| heads(w, "not"@)
    ||| heads(w, "true"@)
    ||| heads(w, "false"@)
    ||| heads(w, "and"@)
    ||| heads(w, "or"@)
    ||| heads(w, "int"@)
    ||| heads(w, "real"@)
    ||| heads(w, "bool"@)
}

/// On a word of at most nine letters `heads` says what
/// `Seq::is_prefix_of` says.
pub proof fn lemma_heads_is_prefix(w: Seq<char>, k: Seq<char>)
    requires
        k.len() <= LONGEST_KEYWORD,
    ensures
        heads(w, k) <==> w.is_prefix_of(k),
{
    if heads(w, k) {
        assert(w =~= k.subrange(0, w.len() as int));
    }
    if w.is_prefix_of(k) {
        assert(forall|i: int| 0 <= i < w.len() ==> w[i] == k.subrange(0, w.len() as int)[i]);
    }
}

/// On a word of at most nine letters `spells` is equality.
pub proof fn lemma_spells_is_equality(w: Seq<char>, k: Seq<char>)
    requires
        k.len() <= LONGEST_KEYWORD,
    ensures
        spells(w, k) <==> w == k,
{
    if spells(w, k) {
        assert(w =~= k);
    }
}

/// Every keyword letter by letter.
pub proof fn lemma_keyword_letters()
    ensures
        "package"@ == seq!['p', 'a', 'c', 'k', 'a', 'g', 'e'],
        "import"@ == seq!['i', 'm', 'p', 'o', 'r', 't'],
        "abstract"@ == seq!['a', 'b', 's', 't', 'r', 'a', 'c', 't'],
        "final"@ == seq!['f', 'i', 'n', 'a', 'l'],
        "sealed"@ == seq!['s', 'e', 'a', 'l', 'e', 'd'],
        "private"@ == seq!['p', 'r', 'i', 'v', 'a', 't', 'e'],
        "protected"@ == seq!['p', 'r', 'o', 't', 'e', 'c', 't', 'e', 'd'],
        "class"@ == seq!['c', 'l', 'a', 's', 's'],
        "object"@ == seq!['o', 'b', 'j', 'e', 'c', 't'],
        "val"@ == seq!['v', 'a', 'l'],
        "def"@ == seq!['d', 'e', 'f'],
        "if"@ == seq!['i', 'f'],
        "else"@ == seq!['e', 'l', 's', 'e'],
        "while"@ == seq!['w', 'h', 'i', 'l', 'e'],
        "case"@ == seq!['c', 'a', 's', 'e'],
        "in"@ == seq!['i', 'n'],
        "print"@ == seq!['p', 'r', 'i', 'n', 't'],
        "return"@ == seq!['r', 'e', 't', 'u', 'r', 'n'],
        "not"@ == seq!['n', 'o', 't'],
        "true"@ == seq!['t', 'r', 'u', 'e'],
        "false"@ == seq!['f', 'a', 'l', 's', 'e'],
        "and"@ == seq!['a', 'n', 'd'],
        "or"@ == seq!['o', 'r'],
        "int"@ == seq!['i', 'n', 't'],
        "real"@ == seq!['r', 'e', 'a', 'l'],
        "bool"@ == seq!['b', 'o', 'o', 'l'],
{
    reveal_strlit("package");
    reveal_strlit("import");
    reveal_strlit("abstract");
    reveal_strlit("final");
    reveal_strlit("sealed");
    reveal_strlit("private");
    reveal_strlit("protected");
    reveal_strlit("class");
    reveal_strlit("object");
    reveal_strlit("val");
    reveal_strlit("def");
    reveal_strlit("if");
    reveal_strlit("else");
    reveal_strlit("while");
    reveal_strlit("case");
    reveal_strlit("in");
    reveal_strlit("print");
    reveal_strlit("return");
    reveal_strlit("not");
    reveal_strlit("true");
    reveal_strlit("false");
    reveal_strlit("and");
    reveal_strlit("or");
    reveal_strlit("int");
    reveal_strlit("real");
    reveal_strlit("bool");
    assert("package"@ =~= seq!['p', 'a', 'c', 'k', 'a', 'g', 'e']);
    assert("import"@ =~= seq!['i', 'm', 'p', 'o', 'r', 't']);
    assert("abstract"@ =~= seq!['a', 'b', 's', 't', 'r', 'a', 'c', 't']);
    assert("final"@ =~= seq!['f', 'i', 'n', 'a', 'l']);
    assert("sealed"@ =~= seq!['s', 'e', 'a', 'l', 'e', 'd']);
    assert("private"@ =~= seq!['p', 'r', 'i', 'v', 'a', 't', 'e']);
    assert("protected"@ =~= seq!['p', 'r', 'o', 't', 'e', 'c', 't', 'e', 'd']);
    assert("class"@ =~= seq!['c', 'l', 'a', 's', 's']);
    assert("object"@ =~= seq!['o', 'b', 'j', 'e', 'c', 't']);
    assert("val"@ =~= seq!['v', 'a', 'l']);
    assert("def"@ =~= seq!['d', 'e', 'f']);
    assert("if"@ =~= seq!['i', 'f']);
    assert("else"@ =~= seq!['e', 'l', 's', 'e']);
    assert("while"@ =~= seq!['w', 'h', 'i', 'l', 'e']);
    assert("case"@ =~= seq!['c', 'a', 's', 'e']);
    assert("in"@ =~= seq!['i', 'n']);
    assert("print"@ =~= seq!['p', 'r', 'i', 'n', 't']);
    assert("return"@ =~= seq!['r', 'e', 't', 'u', 'r', 'n']);
    assert("not"@ =~= seq!['n', 'o', 't']);
    assert("true"@ =~= seq!['t', 'r', 'u', 'e']);
    assert("false"@ =~= seq!['f', 'a', 'l', 's', 'e']);
    assert("and"@ =~= seq!['a', 'n', 'd']);
    assert("or"@ =~= seq!['o', 'r']);
    assert("int"@ =~= seq!['i', 'n', 't']);
    assert("real"@ =~= seq!['r', 'e', 'a', 'l']);
    assert("bool"@ =~= seq!['b', 'o', 'o', 'l']);
}

/// A keyword is an initial part of itself.
pub proof fn lemma_keyword_starts(w: Seq<char>)
    ensures
        keyword_code(w) is Some ==> starts_keyword(w),
{
}

/// Once a word has left every keyword behind, no letter brings it back.
pub proof fn lemma_starts_keyword_push(w: Seq<char>, c: char)
    ensures
        starts_keyword(w.push(c)) ==> starts_keyword(w),
{
}

/// A keyword is made of letters, two at least.
pub proof fn lemma_keyword_is_letters(w: Seq<char>)
    requires
        keyword_code(w) is Some,
    ensures
        2 <= w.len() <= LONGEST_KEYWORD,
        forall|i: int| 0 <= i < w.len() ==> is_ascii_letter(#[trigger] w[i]),
{
    lemma_keyword_letters();
}

/// A word that is a keyword is the spelling of its code.
pub proof fn lemma_keyword_spelling(w: Seq<char>)
    ensures
        keyword_code(w) is Some ==> w == code_name(keyword_code(w)->0),
{
    lemma_keyword_letters();
    if keyword_code(w) is Some {
        assert(w =~= code_name(keyword_code(w)->0));
    }
}

/// Every keyword has its own code: the table reads both ways.
pub proof fn lemma_keyword_of_code(code: u8)
    requires
        3 <= code <= 30,
        code != 14,
        code != 19,
    ensures
        keyword_code(code_name(code)) == Some(code),
{
    lemma_keyword_letters();
}

} // verus!
