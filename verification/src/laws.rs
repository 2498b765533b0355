//! What holds of the scanner on every source text.

use crate::automaton::{first_step, phase_step, word_verdict, Move, Phase};
use crate::bookkeeper::{entry_of, SymbolTableTokenView, SymbolType, TokenView};
use crate::lexicon::{keyword_code, lemma_keyword_is_letters, lemma_keyword_spelling};
use crate::scanner::{
    conclude, lemma_line_end, read, request, run, start, Cursor, ScannerView,
};
use crate::text::{is_ascii_letter, is_whitespace, is_word_char};
use vstd::prelude::*;

verus! {

/// Scanning from `k` where nothing but white space is left in the source
/// finds nothing, reads the source to its end, and queues nothing.
pub proof fn lemma_start_blank(source: Seq<char>, k: Cursor)
    requires
        k.within(source),
        k.index < source.len(),
        k.text.len() == 0,
        forall|i: int| k.index <= i < source.len() ==> is_whitespace(#[trigger] source[i]),
    ensures
        start(source, k).token is None,
        start(source, k).error is None,
        start(source, k).cursor.index == source.len(),
        start(source, k).cursor.queue == k.queue,
        start(source, k).cursor.text.len() == 0,
    decreases source.len() - k.index,
{
    let (after, c) = read(source, k);
    assert(is_whitespace(source[k.index]));
    lemma_line_end(source, k.index);
    if after.index < source.len() {
        lemma_start_blank(source, after);
    }
}

/// On a source text of white space alone the first request finds no
/// token and no error, and says that the source is exhausted. So does
/// every request after it: the scanner is left at the end of the source
/// with an empty queue.
pub proof fn lemma_whitespace_only(source: Seq<char>, symbols: Set<SymbolTableTokenView>)
    requires
        forall|i: int| 0 <= i < source.len() ==> is_whitespace(#[trigger] source[i]),
    ensures
        request(ScannerView::initial(source, symbols)).1 is None,
        request(ScannerView::initial(source, symbols)).2 is None,
        request(ScannerView::initial(source, symbols)).3,
        request(ScannerView::initial(source, symbols)).0.is_done(),
        request(ScannerView::initial(source, symbols)).0.cursor.queue.len() == 0,
        request(ScannerView::initial(source, symbols)).0.symbols == symbols,
        request(request(ScannerView::initial(source, symbols)).0) == (
            request(ScannerView::initial(source, symbols)).0,
            None::<TokenView>,
            None::<crate::error::ErrorView>,
            true,
        ),
{
    let s = ScannerView::initial(source, symbols);
    let k = Cursor { text: Seq::empty(), ..s.cursor };
    assert(k == s.cursor);
    if source.len() > 0 {
        lemma_start_blank(source, k);
    }
    let after = request(s).0;
    assert(after.cursor.text =~= Seq::empty());
    assert(Cursor { text: Seq::empty(), ..after.cursor } == after.cursor);
}

/// A word that is read to its end is judged as a whole. From a cursor
/// `k` in the phase of words, with `n` letters, digits or periods ahead
/// and then white space or the end of the source, the run ends behind
/// that white space with the verdict on the lexeme of `k` and the `n`
/// characters together.
pub proof fn lemma_word_run(source: Seq<char>, k: Cursor, n: nat)
    requires
        k.within(source),
        k.text.len() > 0,
        !k.comment,
        source[k.index - 1] != '\n',
        k.index + n <= source.len(),
        forall|i: int| k.index <= i < k.index + n ==> is_word_char(#[trigger] source[i]),
        k.index + n < source.len() ==> is_whitespace(source[k.index + n]),
    ensures
        run(source, k, Phase::Word) == conclude(
            word_verdict(k.text + source.subrange(k.index, k.index + n)),
            Cursor {
                index: if k.index + n < source.len() {
                    k.index + n + 1
                } else {
                    source.len() as int
                },
                text: k.text + source.subrange(k.index, k.index + n),
                ..k
            },
        ),
    decreases n,
{
    let (after, c) = read(source, k);
    let word = source.subrange(k.index, k.index + n);
    if n == 0 {
        assert(k.text + word =~= k.text);
    } else {
        assert(is_word_char(source[k.index]));
        assert(c == source[k.index]);
        assert(after.text == k.text.push(c));
        assert(phase_step(Phase::Word, k.text, c) == Move::<Phase>::Go(Phase::Word));
        lemma_word_run(source, after, (n - 1) as nat);
        assert(after.text + source.subrange(after.index, after.index + n - 1) =~= k.text + word);
    }
}

/// The token that a whole word makes: the keyword that the table has
/// for it, or else an identifier, on line 1.
pub open spec fn word_token(word: Seq<char>) -> TokenView {
    match keyword_code(word) {
        Some(code) => TokenView {
            token: word,
            symbol_type: SymbolType::Keyword,
            line_number: 1,
            code,
        },
        None => TokenView {
            token: word,
            symbol_type: SymbolType::Identifier,
            line_number: 1,
            code: 1,
        },
    }
}

/// A word at the beginning of the source, followed by white space or by
/// the end of the source, comes out as one token, whole: a leading
/// letter and whatever letters, digits and periods follow it. It is a
/// keyword exactly if the keyword table has it, and an identifier
/// otherwise, which is entered into the symbol table. Nothing is queued.
pub proof fn lemma_word_token(
    source: Seq<char>,
    symbols: Set<SymbolTableTokenView>,
    word: Seq<char>,
)
    requires
        word.len() > 0,
        is_ascii_letter(word[0]),
        forall|i: int| 0 <= i < word.len() ==> is_word_char(#[trigger] word[i]),
        word.is_prefix_of(source),
        word.len() < source.len() ==> is_whitespace(source[word.len() as int]),
    ensures
        request(ScannerView::initial(source, symbols)).1 == Some(word_token(word)),
        request(ScannerView::initial(source, symbols)).2 is None,
        request(ScannerView::initial(source, symbols)).0.symbols == if keyword_code(word)
            is Some {
            symbols
        } else {
            symbols.insert(entry_of(word_token(word)))
        },
        request(ScannerView::initial(source, symbols)).0.cursor.queue.len() == 0,
{
    lemma_keyword_spelling(word);
    let s = ScannerView::initial(source, symbols);
    let k = s.cursor;
    assert(Cursor { text: Seq::empty(), ..k } == k);
    assert forall|i: int| 0 <= i < word.len() implies source[i] == word[i] by {
        assert(source.subrange(0, word.len() as int)[i] == source[i]);
    }
    let (after, c) = read(source, k);
    assert(c == word[0]);
    assert(after.text =~= seq![c]);
    assert(first_step(c) == Move::<Phase>::Go(Phase::Word));
    let n = (word.len() - 1) as nat;
    assert forall|i: int| after.index <= i < after.index + n implies is_word_char(
        #[trigger] source[i],
    ) by {
        assert(source[i] == word[i]);
    }
    lemma_word_run(source, after, n);
    assert(after.text + source.subrange(1, 1 + n as int) =~= word);
}

/// A keyword followed by white space, or by the end of the source, comes
/// out as one token: the keyword itself, of the class of keywords, with
/// the code that the keyword table has for it, on line 1. The symbol
/// table is left as it was.
pub proof fn lemma_keyword_round_trip(
    source: Seq<char>,
    symbols: Set<SymbolTableTokenView>,
    keyword: Seq<char>,
)
    requires
        keyword_code(keyword) is Some,
        keyword.is_prefix_of(source),
        keyword.len() < source.len() ==> is_whitespace(source[keyword.len() as int]),
    ensures
        request(ScannerView::initial(source, symbols)).1 == Some(
            TokenView {
                token: keyword,
                symbol_type: SymbolType::Keyword,
                line_number: 1,
                code: keyword_code(keyword)->0,
            },
        ),
        request(ScannerView::initial(source, symbols)).2 is None,
        request(ScannerView::initial(source, symbols)).0.symbols == symbols,
        request(ScannerView::initial(source, symbols)).0.cursor.queue.len() == 0,
{
    lemma_keyword_is_letters(keyword);
    lemma_word_token(source, symbols, keyword);
}

/// `<=` and `=>` followed by white space, or by the end of the source,
/// come out as keywords with the codes 14 and 19.
pub proof fn lemma_arrows_round_trip(
    source: Seq<char>,
    symbols: Set<SymbolTableTokenView>,
    less: bool,
)
    requires
        source.len() >= 2,
        less ==> source[0] == '<' && source[1] == '=',
        !less ==> source[0] == '=' && source[1] == '>',
        source.len() > 2 ==> is_whitespace(source[2]),
    ensures
        request(ScannerView::initial(source, symbols)).1 == Some(
            TokenView {
                token: if less {
                    "<="@
                } else {
                    "=>"@
                },
                symbol_type: SymbolType::Keyword,
                line_number: 1,
                code: if less {
                    14
                } else {
                    19
                },
            },
        ),
        request(ScannerView::initial(source, symbols)).2 is None,
        request(ScannerView::initial(source, symbols)).0.symbols == symbols,
{
    let s = ScannerView::initial(source, symbols);
    let k = s.cursor;
    assert(Cursor { text: Seq::empty(), ..k } == k);
    let (first, c) = read(source, k);
    let (second, d) = read(source, first);
    let (third, e) = read(source, second);
    assert(first.text.len() == 1);
    assert(second.text.len() == 2);
    assert(is_whitespace(e));
    if less {
        assert(run(source, second, Phase::LessEquals) == conclude(
            phase_step(Phase::LessEquals, second.text, e),
            third,
        ));
        assert(run(source, first, Phase::Less) == run(source, second, Phase::LessEquals));
    } else {
        assert(run(source, second, Phase::Arrow) == conclude(
            phase_step(Phase::Arrow, second.text, e),
            third,
        ));
        assert(run(source, first, Phase::Equals) == run(source, second, Phase::Arrow));
    }
}

} // verus!
