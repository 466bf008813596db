use vstd::prelude::*;
use vstd::string::StrSliceExecFns;
use crate::lexer::scan::{
    all_representable, block_end, digits_end, followed_by, keyword_or_identifier,
    lemma_scan_progress, line_end, quote_end, representable, scan, scan_character, scan_symbol,
    skip_spaces, token_start, tokens_from, word_end,
};
use crate::lexer::token::{Token, TokenView};
use crate::text::{
    char_is_alphabetic, char_is_ascii_digit, char_is_whitespace, char_is_word, chars_of,
    decimal_value, string_of_range,
};

verus! {

/// The line, counted from 1, of offset `p` in `s`: one more than the number
/// of line feeds before it.
pub open spec fn line_at(s: Seq<char>, p: int) -> int
    decreases p,
{
    if p <= 0 {
        1
    } else {
        line_at(s, p - 1) + if s[p - 1] == '\n' {
            1int
        } else {
            0int
        }
    }
}

/// The column, counted from 0, of offset `p` in `s`: the number of
/// characters since the last line feed before it.
pub open spec fn column_at(s: Seq<char>, p: int) -> int
    decreases p,
{
    if p <= 0 {
        0
    } else if s[p - 1] == '\n' {
        0
    } else {
        column_at(s, p - 1) + 1
    }
}

proof fn lemma_line_column_bounds(s: Seq<char>, p: int)
    requires
        0 <= p,
    ensures
        1 <= line_at(s, p) <= p + 1,
        0 <= column_at(s, p) <= p,
    decreases p,
{
    if p > 0 {
        lemma_line_column_bounds(s, p - 1);
    }
}

/// The views of a sequence of tokens.
pub open spec fn token_views(tokens: Seq<Token>) -> Seq<TokenView> {
    tokens.map_values(|t: Token| t@)
}

/// Turns source text into tokens, one at a time.
pub struct Lexer {
    input: Vec<char>,
    position: usize,
    line: usize,
    column: usize,
}

/// What a lexer stands for: the text and the offset of the next unread
/// character.
pub struct LexerView {
    pub source: Seq<char>,
    pub offset: int,
}

impl View for Lexer {
    type V = LexerView;

    closed spec fn view(&self) -> LexerView {
        LexerView { source: self.input@, offset: self.position as int }
    }
}

impl Lexer {
    /// The offset lies inside the text or at its end, and line and column
    /// are those of the offset.
    pub closed spec fn wf(&self) -> bool {
        &&& self.position <= self.input.len() < usize::MAX
        &&& self.line == line_at(self.input@, self.position as int)
        &&& self.column == column_at(self.input@, self.position as int)
    }

    /// The token that the next call of `next_token` reads.
    pub open spec fn upcoming(&self) -> TokenView {
        scan(self@.source, self@.offset).token
    }

    /// Creates a new lexer at the start of the source code.
    pub fn new(input: String) -> (r: Self)
        requires
            input@.len() < usize::MAX,
        ensures
            r.wf(),
            r@ == (LexerView { source: input@, offset: 0 }),
    {
        Lexer { input: chars_of(input.as_str()), position: 0, line: 1, column: 0 }
    }

    /// The line of the next unread character, counted from 1.
    pub fn line(&self) -> (r: usize)
        requires
            self.wf(),
        ensures
            r == line_at(self@.source, self@.offset),
    {
        self.line
    }

    /// The column of the next unread character, counted from 0.
    pub fn column(&self) -> (r: usize)
        requires
            self.wf(),
        ensures
            r == column_at(self@.source, self@.offset),
    {
        self.column
    }

    /// The next unread character, if any.
    fn current_char(&self) -> (r: Option<char>)
        requires
            self.wf(),
        ensures
            r == if self@.offset < self@.source.len() {
                Some(self@.source[self@.offset])
            } else {
                None
            },
    {
        if self.position < self.input.len() {
            Some(self.input[self.position])
        } else {
            None
        }
    }

    /// Advances to the next character in the input; at the end it stays.
    fn advance(&mut self)
        requires
            old(self).wf(),
        ensures
            final(self).wf(),
            final(self)@.source == old(self)@.source,
            final(self)@.offset == if old(self)@.offset < old(self)@.source.len() {
                old(self)@.offset + 1
            } else {
                old(self)@.offset
            },
    {
        if self.position < self.input.len() {
            proof {
                lemma_line_column_bounds(self.input@, self.position as int);
            }
            if self.input[self.position] == '\n' {
                self.line += 1;
                self.column = 0;
            } else {
                self.column += 1;
            }
            self.position += 1;
        }
    }

    /// Peeks at the character after the current one without consuming it.
    fn peek(&self) -> (r: Option<char>)
        requires
            self.wf(),
        ensures
            r == if self@.offset + 1 < self@.source.len() {
                Some(self@.source[self@.offset + 1])
            } else {
                None
            },
    {
        if self.position + 1 >= self.input.len() {
            None
        } else {
            Some(self.input[self.position + 1])
        }
    }

    /// Skips whitespace characters.
    fn skip_whitespace(&mut self)
        requires
            old(self).wf(),
        ensures
            final(self).wf(),
            final(self)@.source == old(self)@.source,
            final(self)@.offset == skip_spaces(old(self)@.source, old(self)@.offset),
    {
        while self.position < self.input.len() && char_is_whitespace(self.input[self.position])
            invariant
                self.wf(),
                self@.source == old(self)@.source,
                skip_spaces(self@.source, self@.offset) == skip_spaces(
                    old(self)@.source,
                    old(self)@.offset,
                ),
            decreases self.input.len() - self.position,
        {
            self.advance();
        }
    }

    /// Skips a line comment, up to the line feed that ends it.
    fn skip_line_comment(&mut self)
        requires
            old(self).wf(),
        ensures
            final(self).wf(),
            final(self)@.source == old(self)@.source,
            final(self)@.offset == line_end(old(self)@.source, old(self)@.offset),
    {
        while self.position < self.input.len() && self.input[self.position] != '\n'
            invariant
                self.wf(),
                self@.source == old(self)@.source,
                line_end(self@.source, self@.offset) == line_end(
                    old(self)@.source,
                    old(self)@.offset,
                ),
            decreases self.input.len() - self.position,
        {
            self.advance();
        }
    }

    /// Skips a block comment, up to and with the `*/` that ends it.
    fn skip_block_comment(&mut self)
        requires
            old(self).wf(),
        ensures
            final(self).wf(),
            final(self)@.source == old(self)@.source,
            final(self)@.offset == block_end(old(self)@.source, old(self)@.offset),
    {
        while self.position < self.input.len()
            invariant
                self.wf(),
                self@.source == old(self)@.source,
                block_end(self@.source, self@.offset) == block_end(
                    old(self)@.source,
                    old(self)@.offset,
                ),
            decreases self.input.len() - self.position,
        {
            if self.input[self.position] == '*' && self.peek() == Some('/') {
                self.advance();
                self.advance();
                return ;
            } else {
                self.advance();
            }
        }
    }

    /// Reads an integer literal. Gives `None` where its value exceeds the
    /// largest signed 64-bit integer.
    fn read_number(&mut self) -> (r: Option<Token>)
        requires
            old(self).wf(),
        ensures
            final(self).wf(),
            final(self)@.source == old(self)@.source,
            final(self)@.offset == digits_end(old(self)@.source, old(self)@.offset),
            old(self)@.offset <= final(self)@.offset,
            ({
                let v = decimal_value(
                    old(self)@.source.subrange(old(self)@.offset, final(self)@.offset),
                );
                match r {
                    Some(t) => t@ == TokenView::Number(v),
                    None => v > i64::MAX,
                }
            }),
    {
        let start = self.position;
        let mut value: i64 = 0;
        let mut fits = true;
        while self.position < self.input.len() && char_is_ascii_digit(self.input[self.position])
            invariant
                self.wf(),
                self@.source == old(self)@.source,
                start == old(self)@.offset,
                start <= self.position <= self.input.len(),
                digits_end(self@.source, self@.offset) == digits_end(
                    old(self)@.source,
                    old(self)@.offset,
                ),
                0 <= value,
                0 <= decimal_value(self.input@.subrange(start as int, self.position as int)),
                fits ==> value == decimal_value(
                    self.input@.subrange(start as int, self.position as int),
                ),
                !fits ==> decimal_value(self.input@.subrange(start as int, self.position as int))
                    > i64::MAX,
            decreases self.input.len() - self.position,
        {
            let c = self.input[self.position];
            let digit: i64 = (c as u32 - '0' as u32) as i64;
            proof {
                let longer = self.input@.subrange(start as int, self.position + 1);
                assert(longer.drop_last() =~= self.input@.subrange(
                    start as int,
                    self.position as int,
                ));
            }
            if fits {
                if value <= (i64::MAX - digit) / 10 {
                    value = value * 10 + digit;
                } else {
                    fits = false;
                }
            }
            self.advance();
        }
        if fits {
            Some(Token::Number(value))
        } else {
            None
        }
    }

    /// Whether the characters from `from` to `to` spell `word`.
    fn word_matches(&self, from: usize, to: usize, word: &str) -> (r: bool)
        requires
            from <= to <= self.input.len(),
        ensures
            r == (self.input@.subrange(from as int, to as int) == word@),
    {
        let n = word.unicode_len();
        if n != to - from {
            return false;
        }
        let mut i: usize = 0;
        while i < n
            invariant
                n == word@.len(),
                n == to - from,
                from <= to <= self.input.len(),
                i <= n,
                forall|j: int| 0 <= j < i ==> self.input@[from + j] == word@[j],
            decreases n - i,
        {
            if self.input[from + i] != word.get_char(i) {
                return false;
            }
            i += 1;
        }
        assert(self.input@.subrange(from as int, to as int) =~= word@);
        true
    }

    /// Checks if the characters from `from` to `to` spell a keyword and
    /// returns the appropriate token.
    fn keyword_or_identifier(&self, from: usize, to: usize) -> (r: Token)
        requires
            from <= to <= self.input.len(),
        ensures
            r@ == keyword_or_identifier(self.input@.subrange(from as int, to as int)),
    {
        if self.word_matches(from, to, "Int") {
            Token::Int
        } else if self.word_matches(from, to, "String") {
            Token::String
        } else if self.word_matches(from, to, "Char") {
            Token::Char
        } else if self.word_matches(from, to, "Bool") {
            Token::Bool
        } else if self.word_matches(from, to, "Array") {
            Token::Array
        } else if self.word_matches(from, to, "True") {
            Token::True
        } else if self.word_matches(from, to, "False") {
            Token::False
        } else if self.word_matches(from, to, "func") {
            Token::Func
        } else if self.word_matches(from, to, "return") {
            Token::Return
        } else if self.word_matches(from, to, "if") {
            Token::If
        } else if self.word_matches(from, to, "else") {
            Token::Else
        } else {
            Token::Identifier(string_of_range(&self.input, from, to))
        }
    }

    /// Reads an identifier or keyword: its first character, then the run of
    /// ASCII letters, digits and underscores that follows.
    fn read_identifier(&mut self) -> (r: Token)
        requires
            old(self).wf(),
            old(self)@.offset < old(self)@.source.len(),
        ensures
            final(self).wf(),
            final(self)@.source == old(self)@.source,
            final(self)@.offset == word_end(old(self)@.source, old(self)@.offset + 1),
            r@ == keyword_or_identifier(
                old(self)@.source.subrange(old(self)@.offset, final(self)@.offset),
            ),
    {
        let start = self.position;
        self.advance();
        while self.position < self.input.len() && char_is_word(self.input[self.position])
            invariant
                self.wf(),
                self@.source == old(self)@.source,
                start < self.position <= self.input.len(),
                word_end(self@.source, self@.offset) == word_end(
                    old(self)@.source,
                    old(self)@.offset + 1,
                ),
            decreases self.input.len() - self.position,
        {
            self.advance();
        }
        self.keyword_or_identifier(start, self.position)
    }

    /// Reads a string literal: the characters between the opening quote and
    /// the next one, as they stand.
    fn read_string(&mut self) -> (r: Token)
        requires
            old(self).wf(),
            old(self)@.offset < old(self)@.source.len(),
        ensures
            final(self).wf(),
            final(self)@.source == old(self)@.source,
            ({
                let s = old(self)@.source;
                let e = quote_end(s, old(self)@.offset + 1);
                &&& r@ == TokenView::StringLit(s.subrange(old(self)@.offset + 1, e))
                &&& final(self)@.offset == if e < s.len() {
                    e + 1
                } else {
                    e
                }
            }),
    {
        self.advance();
        let start = self.position;
        while self.position < self.input.len() && self.input[self.position] != '"'
            invariant
                self.wf(),
                self@.source == old(self)@.source,
                start == old(self)@.offset + 1,
                start <= self.position <= self.input.len(),
                quote_end(self@.source, self@.offset) == quote_end(
                    old(self)@.source,
                    old(self)@.offset + 1,
                ),
            decreases self.input.len() - self.position,
        {
            self.advance();
        }
        let text = string_of_range(&self.input, start, self.position);
        self.advance();
        Token::StringLit(text)
    }

    /// Reads a character literal.
    fn read_character(&mut self) -> (r: Token)
        requires
            old(self).wf(),
            old(self)@.offset < old(self)@.source.len(),
        ensures
            final(self).wf(),
            final(self)@.source == old(self)@.source,
            r@ == scan_character(old(self)@.source, old(self)@.offset).token,
            final(self)@.offset == scan_character(old(self)@.source, old(self)@.offset).next,
    {
        self.advance();
        let ch = match self.current_char() {
            Some(c) => {
                self.advance();
                c
            },
            None => {
                return Token::Invalid('\'');
            },
        };
        if self.current_char() != Some('\'') {
            return Token::Invalid('\'');
        }
        self.advance();
        Token::CharLit(ch)
    }

    /// Consumes the current character, and the next one too where it is
    /// `second`; says which of the two happened.
    fn advance_pair(&mut self, second: char) -> (r: bool)
        requires
            old(self).wf(),
            old(self)@.offset < old(self)@.source.len(),
        ensures
            final(self).wf(),
            final(self)@.source == old(self)@.source,
            r == followed_by(old(self)@.source, old(self)@.offset, second),
            final(self)@.offset == old(self)@.offset + if r {
                2int
            } else {
                1int
            },
    {
        if self.peek() == Some(second) {
            self.advance();
            self.advance();
            true
        } else {
            self.advance();
            false
        }
    }

    /// Reads an operator or a punctuation mark that starts with `ch`, the
    /// current character.
    fn read_symbol(&mut self, ch: char) -> (r: Token)
        requires
            old(self).wf(),
            old(self)@.offset < old(self)@.source.len(),
            ch == old(self)@.source[old(self)@.offset],
        ensures
            final(self).wf(),
            final(self)@.source == old(self)@.source,
            r@ == scan_symbol(old(self)@.source, old(self)@.offset).token,
            final(self)@.offset == scan_symbol(old(self)@.source, old(self)@.offset).next,
    {
        if ch == '+' {
            if self.peek() == Some('=') {
                self.advance();
                self.advance();
                Token::PlusEqual
            } else if self.advance_pair('+') {
                Token::Invalid('+')
            } else {
                Token::Plus
            }
        } else if ch == '-' {
            if self.peek() == Some('>') {
                self.advance();
                self.advance();
                Token::Arrow
            } else if self.advance_pair('=') {
                Token::MinusEqual
            } else {
                Token::Minus
            }
        } else if ch == '*' {
            if self.peek() == Some('*') {
                self.advance();
                self.advance();
                Token::Power
            } else if self.advance_pair('=') {
                Token::StarEqual
            } else {
                Token::Star
            }
        } else if ch == '/' {
            if self.advance_pair('=') {
                Token::SlashEqual
            } else {
                Token::Slash
            }
        } else if ch == '%' {
            if self.advance_pair('=') {
                Token::PercentEqual
            } else {
                Token::Percent
            }
        } else if ch == '=' {
            if self.advance_pair('=') {
                Token::EqualEqual
            } else {
                Token::Equal
            }
        } else if ch == '!' {
            if self.advance_pair('=') {
                Token::BangEqual
            } else {
                Token::Bang
            }
        } else if ch == '<' {
            if self.advance_pair('=') {
                Token::LessEqual
            } else {
                Token::Less
            }
        } else if ch == '>' {
            if self.advance_pair('=') {
                Token::GreaterEqual
            } else {
                Token::Greater
            }
        } else if ch == '&' {
            if self.advance_pair('&') {
                Token::And
            } else {
                Token::Invalid('&')
            }
        } else if ch == '|' {
            if self.advance_pair('|') {
                Token::Or
            } else {
                Token::Invalid('|')
            }
        } else {
            self.advance();
            if ch == '(' {
                Token::LeftParen
            } else if ch == ')' {
                Token::RightParen
            } else if ch == '{' {
                Token::LeftBrace
            } else if ch == '}' {
                Token::RightBrace
            } else if ch == '[' {
                Token::LeftBracket
            } else if ch == ']' {
                Token::RightBracket
            } else if ch == ';' {
                Token::Semicolon
            } else if ch == ',' {
                Token::Comma
            } else {
                Token::Invalid(ch)
            }
        }
    }

    /// Passes over white space and comments, up to the start of the next
    /// token.
    fn skip_trivia(&mut self)
        requires
            old(self).wf(),
        ensures
            final(self).wf(),
            final(self)@.source == old(self)@.source,
            final(self)@.offset == token_start(old(self)@.source, old(self)@.offset),
        decreases old(self)@.source.len() - old(self)@.offset,
    {
        self.skip_whitespace();
        proof {
            crate::lexer::scan::lemma_skip_spaces_bounds(old(self)@.source, old(self)@.offset);
        }
        if self.current_char() == Some('/') && self.peek() == Some('/') {
            self.advance();
            self.skip_line_comment();
            proof {
                crate::lexer::scan::lemma_line_end_bounds(
                    old(self)@.source,
                    skip_spaces(old(self)@.source, old(self)@.offset) + 1,
                );
            }
            self.skip_trivia();
        } else if self.current_char() == Some('/') && self.peek() == Some('*') {
            self.advance();
            self.advance();
            self.skip_block_comment();
            proof {
                crate::lexer::scan::lemma_block_end_bounds(
                    old(self)@.source,
                    skip_spaces(old(self)@.source, old(self)@.offset) + 2,
                );
            }
            self.skip_trivia();
        }
    }

    /// Reads the next token, passing over white space and comments. Gives
    /// `None` where the token is a number too large to be held.
    fn lex(&mut self) -> (r: Option<Token>)
        requires
            old(self).wf(),
        ensures
            final(self).wf(),
            final(self)@.source == old(self)@.source,
            final(self)@.offset == scan(old(self)@.source, old(self)@.offset).next,
            match r {
                Some(t) => t@ == old(self).upcoming(),
                None => !representable(old(self).upcoming()),
            },
    {
        self.skip_trivia();
        proof {
            crate::lexer::scan::lemma_token_start_bounds(old(self)@.source, old(self)@.offset);
        }
        match self.current_char() {
            None => Some(Token::EOF),
            Some(ch) => {
                if char_is_ascii_digit(ch) {
                    self.read_number()
                } else if char_is_alphabetic(ch) || ch == '_' {
                    Some(self.read_identifier())
                } else if ch == '"' {
                    Some(self.read_string())
                } else if ch == '\'' {
                    Some(self.read_character())
                } else {
                    Some(self.read_symbol(ch))
                }
            },
        }
    }

    /// Passes over white space and comments, so that `line` and `column`
    /// are those of the first character of the next token. The token that
    /// comes next stays the same.
    pub fn skip_to_token(&mut self)
        requires
            old(self).wf(),
        ensures
            final(self).wf(),
            final(self)@.source == old(self)@.source,
            final(self)@.offset == token_start(old(self)@.source, old(self)@.offset),
            scan(final(self)@.source, final(self)@.offset) == scan(
                old(self)@.source,
                old(self)@.offset,
            ),
    {
        proof {
            crate::lexer::scan::lemma_token_start_is_fixed(old(self)@.source, old(self)@.offset);
        }
        self.skip_trivia();
    }

    /// Retrieves the next token from the input.
    ///
    /// The token must be one that can be held: see `try_next_token` for
    /// input that may spell a number beyond the signed 64-bit range.
    pub fn next_token(&mut self) -> (r: Token)
        requires
            old(self).wf(),
            representable(old(self).upcoming()),
        ensures
            final(self).wf(),
            final(self)@.source == old(self)@.source,
            r@ == old(self).upcoming(),
            final(self)@.offset == scan(old(self)@.source, old(self)@.offset).next,
    {
        match self.lex() {
            Some(t) => t,
            None => Token::EOF,
        }
    }

    /// Retrieves the next token from the input, or `None`, leaving the lexer
    /// as it was, where the next token is a number too large to be held.
    pub fn try_next_token(&mut self) -> (r: Option<Token>)
        requires
            old(self).wf(),
        ensures
            final(self).wf(),
            final(self)@.source == old(self)@.source,
            match r {
                Some(t) => {
                    &&& representable(old(self).upcoming())
                    &&& t@ == old(self).upcoming()
                    &&& final(self)@.offset == scan(old(self)@.source, old(self)@.offset).next
                },
                None => !representable(old(self).upcoming()) && final(self)@ == old(self)@,
            },
    {
        let position = self.position;
        let line = self.line;
        let column = self.column;
        let token = self.lex();
        if token.is_none() {
            self.position = position;
            self.line = line;
            self.column = column;
        }
        token
    }

    /// Retrieves the next token, or `None` at the end of the input.
    pub fn next(&mut self) -> (r: Option<Token>)
        requires
            old(self).wf(),
            representable(old(self).upcoming()),
        ensures
            final(self).wf(),
            final(self)@.source == old(self)@.source,
            final(self)@.offset == scan(old(self)@.source, old(self)@.offset).next,
            match r {
                Some(t) => t@ == old(self).upcoming() && !(t@ is EOF),
                None => old(self).upcoming() is EOF,
            },
    {
        let token = self.next_token();
        match token {
            Token::EOF => None,
            _ => Some(token),
        }
    }

    /// Reads all the tokens that are left, up to and without the end marker.
    pub fn collect(self) -> (r: Vec<Token>)
        requires
            self.wf(),
            all_representable(self@.source, self@.offset),
        ensures
            token_views(r@) == tokens_from(self@.source, self@.offset),
    {
        let mut lexer = self;
        let mut tokens: Vec<Token> = Vec::new();
        loop
            invariant
                lexer.wf(),
                lexer@.source == self@.source,
                all_representable(lexer@.source, lexer@.offset),
                token_views(tokens@) + tokens_from(lexer@.source, lexer@.offset) == tokens_from(
                    self@.source,
                    self@.offset,
                ),
            decreases lexer@.source.len() - lexer@.offset,
        {
            proof {
                lemma_scan_progress(lexer@.source, lexer@.offset);
            }
            match lexer.next() {
                None => {
                    return tokens;
                },
                Some(t) => {
                    tokens.push(t);
                },
            }
        }
    }
}

} // verus!
