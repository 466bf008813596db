use vstd::prelude::*;
use crate::lexer::scan::{digits_end, quote_end, scan, skip_spaces, token_start, tokens_from};
use crate::lexer::token::TokenView;
use crate::text::{decimal_digits, is_ascii_digit, lemma_decimal_round_trip};

verus! {

/// Whether a token is a literal that source text can spell: a number that
/// is not negative, a string without a double quote in it, or a character.
pub open spec fn spellable(t: TokenView) -> bool {
    match t {
        TokenView::Number(v) => 0 <= v,
        TokenView::StringLit(s) => forall|i: int| 0 <= i < s.len() ==> s[i] != '"',
        TokenView::CharLit(_) => true,
        _ => false,
    }
}

/// The source text of a literal token.
pub open spec fn spelling(t: TokenView) -> Seq<char> {
    match t {
        TokenView::Number(v) => decimal_digits(v as nat),
        TokenView::StringLit(s) => seq!['"'] + s + seq!['"'],
        TokenView::CharLit(c) => seq!['\'', c, '\''],
        _ => Seq::empty(),
    }
}

proof fn lemma_digits_run(s: Seq<char>, p: int)
    requires
        0 <= p <= s.len(),
        forall|i: int| p <= i < s.len() ==> is_ascii_digit(#[trigger] s[i]),
    ensures
        digits_end(s, p) == s.len(),
    decreases s.len() - p,
{
    if p < s.len() {
        lemma_digits_run(s, p + 1);
    }
}

proof fn lemma_quote_run(s: Seq<char>, p: int, e: int)
    requires
        0 <= p <= e < s.len(),
        forall|i: int| p <= i < e ==> #[trigger] s[i] != '"',
        s[e] == '"',
    ensures
        quote_end(s, p) == e,
    decreases e - p,
{
    if p < e {
        lemma_quote_run(s, p + 1, e);
    }
}

/// Lexing the text that spells a literal, and nothing else, yields that
/// literal and then the end marker.
pub proof fn lemma_literal_round_trip(t: TokenView)
    requires
        spellable(t),
    ensures
        scan(spelling(t), 0).token == t,
        scan(spelling(t), scan(spelling(t), 0).next).token is EOF,
        tokens_from(spelling(t), 0) == seq![t],
{
    let text = spelling(t);
    match t {
        TokenView::Number(v) => {
            lemma_decimal_round_trip(v as nat);
            lemma_digits_run(text, 0);
            assert(text.subrange(0, text.len() as int) =~= text);
        },
        TokenView::StringLit(s) => {
            assert forall|i: int| 1 <= i < s.len() + 1 implies #[trigger] text[i] != '"' by {
            }
            lemma_quote_run(text, 1, s.len() as int + 1);
            assert(text.subrange(1, s.len() as int + 1) =~= s);
        },
        _ => {},
    }
    let first = scan(text, 0);
    assert(tokens_from(text, first.next) =~= Seq::<TokenView>::empty());
}

} // verus!
