use vstd::prelude::*;
use crate::lexer::token::TokenView;
use crate::text::{decimal_value, is_alphabetic, is_ascii_digit, is_whitespace, is_word_char};

verus! {

/// A token together with the offset at which the next scan starts.
pub struct Scan {
    pub token: TokenView,
    pub next: int,
}

/// The first offset at or after `p` that holds no white space.
pub open spec fn skip_spaces(s: Seq<char>, p: int) -> int
    decreases s.len() - p,
{
    if 0 <= p < s.len() && is_whitespace(s[p]) {
        skip_spaces(s, p + 1)
    } else {
        p
    }
}

/// The offset of the first line feed at or after `p`, or the end.
pub open spec fn line_end(s: Seq<char>, p: int) -> int
    decreases s.len() - p,
{
    if 0 <= p < s.len() && s[p] != '\n' {
        line_end(s, p + 1)
    } else {
        p
    }
}

/// The offset just after the first `*/` that starts at or after `p`, or the
/// end when there is none.
pub open spec fn block_end(s: Seq<char>, p: int) -> int
    decreases s.len() - p,
{
    if !(0 <= p < s.len()) {
        p
    } else if s[p] == '*' && p + 1 < s.len() && s[p + 1] == '/' {
        p + 2
    } else {
        block_end(s, p + 1)
    }
}

/// The end of the run of decimal digits that starts at `p`.
pub open spec fn digits_end(s: Seq<char>, p: int) -> int
    decreases s.len() - p,
{
    if 0 <= p < s.len() && is_ascii_digit(s[p]) {
        digits_end(s, p + 1)
    } else {
        p
    }
}

/// The end of the run of letters, digits and underscores that starts at `p`.
pub open spec fn word_end(s: Seq<char>, p: int) -> int
    decreases s.len() - p,
{
    if 0 <= p < s.len() && is_word_char(s[p]) {
        word_end(s, p + 1)
    } else {
        p
    }
}

/// The offset of the first double quote at or after `p`, or the end.
pub open spec fn quote_end(s: Seq<char>, p: int) -> int
    decreases s.len() - p,
{
    if 0 <= p < s.len() && s[p] != '"' {
        quote_end(s, p + 1)
    } else {
        p
    }
}

/// The keyword that a word spells, or the identifier that it is.
pub open spec fn keyword_or_identifier(word: Seq<char>) -> TokenView {
    if word == "Int"@ {
        TokenView::Int
    } else if word == "String"@ {
        TokenView::String
    } else if word == "Char"@ {
        TokenView::Char
    } else if word == "Bool"@ {
        TokenView::Bool
    } else if word == "Array"@ {
        TokenView::Array
    } else if word == "True"@ {
        TokenView::True
    } else if word == "False"@ {
        TokenView::False
    } else if word == "func"@ {
        TokenView::Func
    } else if word == "return"@ {
        TokenView::Return
    } else if word == "if"@ {
        TokenView::If
    } else if word == "else"@ {
        TokenView::Else
    } else {
        TokenView::Identifier(word)
    }
}

/// Whether the character after offset `q` is `c`.
pub open spec fn followed_by(s: Seq<char>, q: int, c: char) -> bool {
    q + 1 < s.len() && s[q + 1] == c
}

/// A character literal whose opening quote is at `q`: the quote, one
/// character, and the closing quote.
pub open spec fn scan_character(s: Seq<char>, q: int) -> Scan {
    if q + 1 >= s.len() {
        Scan { token: TokenView::Invalid('\''), next: q + 1 }
    } else if followed_by(s, q + 1, '\'') {
        Scan { token: TokenView::CharLit(s[q + 1]), next: q + 3 }
    } else {
        Scan { token: TokenView::Invalid('\''), next: q + 2 }
    }
}

/// One operator or punctuation mark at `q`, or the invalid-token marker.
/// A `/` that opens a comment is not handled here.
pub open spec fn scan_symbol(s: Seq<char>, q: int) -> Scan {
    let c = s[q];
    let one = |t: TokenView| Scan { token: t, next: q + 1 };
    let two = |t: TokenView| Scan { token: t, next: q + 2 };
    if c == '+' {
        if followed_by(s, q, '=') {
            two(TokenView::PlusEqual)
        } else if followed_by(s, q, '+') {
            two(TokenView::Invalid('+'))
        } else {
            one(TokenView::Plus)
        }
    } else if c == '-' {
        if followed_by(s, q, '>') {
            two(TokenView::Arrow)
        } else if followed_by(s, q, '=') {
            two(TokenView::MinusEqual)
        } else {
            one(TokenView::Minus)
        }
    } else if c == '*' {
        if followed_by(s, q, '*') {
            two(TokenView::Power)
        } else if followed_by(s, q, '=') {
            two(TokenView::StarEqual)
        } else {
            one(TokenView::Star)
        }
    } else if c == '/' {
        if followed_by(s, q, '=') {
            two(TokenView::SlashEqual)
        } else {
            one(TokenView::Slash)
        }
    } else if c == '%' {
        if followed_by(s, q, '=') {
            two(TokenView::PercentEqual)
        } else {
            one(TokenView::Percent)
        }
    } else if c == '=' {
        if followed_by(s, q, '=') {
            two(TokenView::EqualEqual)
        } else {
            one(TokenView::Equal)
        }
    } else if c == '!' {
        if followed_by(s, q, '=') {
            two(TokenView::BangEqual)
        } else {
            one(TokenView::Bang)
        }
    } else if c == '<' {
        if followed_by(s, q, '=') {
            two(TokenView::LessEqual)
        } else {
            one(TokenView::Less)
        }
    } else if c == '>' {
        if followed_by(s, q, '=') {
            two(TokenView::GreaterEqual)
        } else {
            one(TokenView::Greater)
        }
    } else if c == '&' {
        if followed_by(s, q, '&') {
            two(TokenView::And)
        } else {
            one(TokenView::Invalid('&'))
        }
    } else if c == '|' {
        if followed_by(s, q, '|') {
            two(TokenView::Or)
        } else {
            one(TokenView::Invalid('|'))
        }
    } else if c == '(' {
        one(TokenView::LeftParen)
    } else if c == ')' {
        one(TokenView::RightParen)
    } else if c == '{' {
        one(TokenView::LeftBrace)
    } else if c == '}' {
        one(TokenView::RightBrace)
    } else if c == '[' {
        one(TokenView::LeftBracket)
    } else if c == ']' {
        one(TokenView::RightBracket)
    } else if c == ';' {
        one(TokenView::Semicolon)
    } else if c == ',' {
        one(TokenView::Comma)
    } else {
        one(TokenView::Invalid(c))
    }
}

/// The token that starts exactly at `q`, where `q` is inside the text and
/// holds neither white space nor the start of a comment.
///
/// A number is a maximal run of decimal digits. A word starts with a letter
/// or an underscore and goes on with a maximal run of ASCII letters, digits
/// and underscores. A string runs from a double quote to the next one, or to
/// the end of the text, and its characters are taken as they stand.
pub open spec fn scan_token(s: Seq<char>, q: int) -> Scan {
    let c = s[q];
    if is_ascii_digit(c) {
        let e = digits_end(s, q);
        Scan { token: TokenView::Number(decimal_value(s.subrange(q, e))), next: e }
    } else if is_alphabetic(c) || c == '_' {
        let e = word_end(s, q + 1);
        Scan { token: keyword_or_identifier(s.subrange(q, e)), next: e }
    } else if c == '"' {
        let e = quote_end(s, q + 1);
        Scan {
            token: TokenView::StringLit(s.subrange(q + 1, e)),
            next: if e < s.len() {
                e + 1
            } else {
                e
            },
        }
    } else if c == '\'' {
        scan_character(s, q)
    } else {
        scan_symbol(s, q)
    }
}

/// Whether a comment starts at offset `q`.
pub open spec fn comment_at(s: Seq<char>, q: int) -> bool {
    0 <= q < s.len() && s[q] == '/' && (followed_by(s, q, '/') || followed_by(s, q, '*'))
}

/// The offset at which the next token starts: the first offset at or after
/// `p` that holds neither white space nor a comment, or the end of the text.
///
/// A line comment runs from `//` up to the next line feed, a block comment
/// from `/*` up to and with the next `*/`; neither nests.
pub open spec fn token_start(s: Seq<char>, p: int) -> int
    decreases s.len() - p,
{
    let q = skip_spaces(s, p);
    if p < 0 || q >= s.len() {
        q
    } else if s[q] == '/' && followed_by(s, q, '/') {
        proof {
            lemma_skip_spaces_bounds(s, p);
            lemma_line_end_bounds(s, q + 1);
        }
        token_start(s, line_end(s, q + 1))
    } else if s[q] == '/' && followed_by(s, q, '*') {
        proof {
            lemma_skip_spaces_bounds(s, p);
            lemma_block_end_bounds(s, q + 2);
        }
        token_start(s, block_end(s, q + 2))
    } else {
        q
    }
}

/// The next token at or after offset `p`: white space and comments are
/// passed over, and at the end of the text the token is the end marker.
pub open spec fn scan(s: Seq<char>, p: int) -> Scan {
    let q = token_start(s, p);
    if p < 0 || q >= s.len() {
        Scan { token: TokenView::EOF, next: q }
    } else {
        scan_token(s, q)
    }
}

/// Whether a token can be held: a number must not exceed the largest signed
/// 64-bit integer.
pub open spec fn representable(t: TokenView) -> bool {
    t matches TokenView::Number(v) ==> v <= i64::MAX
}

/// The tokens from offset `p` up to, and without, the end marker.
pub open spec fn tokens_from(s: Seq<char>, p: int) -> Seq<TokenView>
    decreases s.len() - p,
{
    let step = scan(s, p);
    if step.token is EOF || !(p < step.next <= s.len()) {
        Seq::empty()
    } else {
        seq![step.token] + tokens_from(s, step.next)
    }
}

/// Whether every token from offset `p` on can be held.
pub open spec fn all_representable(s: Seq<char>, p: int) -> bool
    decreases s.len() - p,
{
    let step = scan(s, p);
    if step.token is EOF || !(p < step.next <= s.len()) {
        true
    } else {
        representable(step.token) && all_representable(s, step.next)
    }
}

pub proof fn lemma_skip_spaces_bounds(s: Seq<char>, p: int)
    requires
        0 <= p <= s.len(),
    ensures
        p <= skip_spaces(s, p) <= s.len(),
        skip_spaces(s, p) < s.len() ==> !is_whitespace(s[skip_spaces(s, p)]),
    decreases s.len() - p,
{
    if p < s.len() && is_whitespace(s[p]) {
        lemma_skip_spaces_bounds(s, p + 1);
    }
}

pub proof fn lemma_line_end_bounds(s: Seq<char>, p: int)
    requires
        0 <= p <= s.len(),
    ensures
        p <= line_end(s, p) <= s.len(),
    decreases s.len() - p,
{
    if p < s.len() && s[p] != '\n' {
        lemma_line_end_bounds(s, p + 1);
    }
}

pub proof fn lemma_block_end_bounds(s: Seq<char>, p: int)
    requires
        0 <= p <= s.len(),
    ensures
        p <= block_end(s, p) <= s.len(),
    decreases s.len() - p,
{
    if p < s.len() && !(s[p] == '*' && p + 1 < s.len() && s[p + 1] == '/') {
        lemma_block_end_bounds(s, p + 1);
    }
}

pub proof fn lemma_digits_end_bounds(s: Seq<char>, p: int)
    requires
        0 <= p <= s.len(),
    ensures
        p <= digits_end(s, p) <= s.len(),
    decreases s.len() - p,
{
    if p < s.len() && is_ascii_digit(s[p]) {
        lemma_digits_end_bounds(s, p + 1);
    }
}

pub proof fn lemma_word_end_bounds(s: Seq<char>, p: int)
    requires
        0 <= p <= s.len(),
    ensures
        p <= word_end(s, p) <= s.len(),
    decreases s.len() - p,
{
    if p < s.len() && is_word_char(s[p]) {
        lemma_word_end_bounds(s, p + 1);
    }
}

pub proof fn lemma_quote_end_bounds(s: Seq<char>, p: int)
    requires
        0 <= p <= s.len(),
    ensures
        p <= quote_end(s, p) <= s.len(),
    decreases s.len() - p,
{
    if p < s.len() && s[p] != '"' {
        lemma_quote_end_bounds(s, p + 1);
    }
}

/// The next token starts at or after `p`, inside the text or at its end,
/// on a character that is neither white space nor the start of a comment.
pub proof fn lemma_token_start_bounds(s: Seq<char>, p: int)
    requires
        0 <= p <= s.len(),
    ensures
        p <= token_start(s, p) <= s.len(),
        token_start(s, p) < s.len() ==> !is_whitespace(s[token_start(s, p)]),
        !comment_at(s, token_start(s, p)),
    decreases s.len() - p,
{
    let q = skip_spaces(s, p);
    lemma_skip_spaces_bounds(s, p);
    if q >= s.len() {
    } else if s[q] == '/' && followed_by(s, q, '/') {
        lemma_line_end_bounds(s, q + 1);
        lemma_token_start_bounds(s, line_end(s, q + 1));
    } else if s[q] == '/' && followed_by(s, q, '*') {
        lemma_block_end_bounds(s, q + 2);
        lemma_token_start_bounds(s, block_end(s, q + 2));
    }
}

/// Where a token starts there is nothing left to pass over.
pub proof fn lemma_token_start_is_fixed(s: Seq<char>, p: int)
    requires
        0 <= p <= s.len(),
    ensures
        token_start(s, token_start(s, p)) == token_start(s, p),
        scan(s, token_start(s, p)) == scan(s, p),
{
    lemma_token_start_bounds(s, p);
}

/// Scanning never moves backwards and never leaves the text, and every token
/// but the end marker takes at least one character.
pub proof fn lemma_scan_progress(s: Seq<char>, p: int)
    requires
        0 <= p <= s.len(),
    ensures
        p <= scan(s, p).next <= s.len(),
        !(scan(s, p).token is EOF) ==> p < scan(s, p).next,
        scan(s, p).token is EOF ==> scan(s, p).next == s.len(),
{
    let q = token_start(s, p);
    lemma_token_start_bounds(s, p);
    if q < s.len() {
        lemma_digits_end_bounds(s, q);
        lemma_word_end_bounds(s, q + 1);
        lemma_quote_end_bounds(s, q + 1);
        if is_ascii_digit(s[q]) {
            lemma_digits_end_bounds(s, q + 1);
        }
    }
}

} // verus!
