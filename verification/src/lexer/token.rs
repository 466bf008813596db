use vstd::prelude::*;
use crate::text::{int_text, push_int, push_text, string_push};

verus! {

/// A lexical unit: a literal with its payload, an identifier, or a fixed
/// keyword, operator or punctuation mark.
#[derive(Debug, PartialEq)]
pub enum Token {
    // Literals
    Number(i64),
    StringLit(String),
    CharLit(char),
    Identifier(String),
    // Keywords
    Int,
    String,
    Char,
    Bool,
    Array,
    True,
    False,
    Func,
    Return,
    If,
    Else,
    // Arithmetic operators
    Plus,
    Minus,
    Star,
    Power,
    Slash,
    Percent,
    // Comparison operators
    EqualEqual,
    BangEqual,
    Less,
    Greater,
    LessEqual,
    GreaterEqual,
    // Logical operators
    And,
    Or,
    Bang,
    // Assignment operators
    Equal,
    PlusEqual,
    MinusEqual,
    StarEqual,
    SlashEqual,
    PercentEqual,
    // Delimiters
    LeftParen,
    RightParen,
    LeftBrace,
    RightBrace,
    LeftBracket,
    RightBracket,
    // Punctuation
    Semicolon,
    Comma,
    Arrow,
    // End of input
    EOF,
    /// A character that starts no token.
    Invalid(char),
}

/// The mathematical value of a [`Token`]: strings are character sequences and
/// numbers are unbounded integers.
pub enum TokenView {
    Number(int),
    StringLit(Seq<char>),
    CharLit(char),
    Identifier(Seq<char>),
    // Keywords
    Int,
    String,
    Char,
    Bool,
    Array,
    True,
    False,
    Func,
    Return,
    If,
    Else,
    // Arithmetic operators
    Plus,
    Minus,
    Star,
    Power,
    Slash,
    Percent,
    // Comparison operators
    EqualEqual,
    BangEqual,
    Less,
    Greater,
    LessEqual,
    GreaterEqual,
    // Logical operators
    And,
    Or,
    Bang,
    // Assignment operators
    Equal,
    PlusEqual,
    MinusEqual,
    StarEqual,
    SlashEqual,
    PercentEqual,
    // Delimiters
    LeftParen,
    RightParen,
    LeftBrace,
    RightBrace,
    LeftBracket,
    RightBracket,
    // Punctuation
    Semicolon,
    Comma,
    Arrow,
    // End of input
    EOF,
    Invalid(char),
}

impl TokenView {
    /// One of the reserved words of the language.
    pub open spec fn is_keyword(self) -> bool {
        self is Int || self is String || self is Char || self is Bool || self is Array
            || self is True || self is False || self is Func || self is Return || self is If
            || self is Else
    }

    /// A token that is a value by itself.
    pub open spec fn is_literal(self) -> bool {
        self is Number || self is StringLit || self is CharLit || self is True || self is False
    }

    /// An arithmetic, comparison or logical operator.
    pub open spec fn is_operator(self) -> bool {
        self is Plus || self is Minus || self is Star || self is Power || self is Slash
            || self is Percent || self is EqualEqual || self is BangEqual || self is Less
            || self is Greater || self is LessEqual || self is GreaterEqual || self is And
            || self is Or || self is Bang
    }

    /// How a token is shown in a message: the name of its kind, and behind
    /// it in parentheses the payload where there is one, a string between
    /// double quotes and a character between single quotes, both as they
    /// stand.
    pub open spec fn describe(self) -> Seq<char> {
        match self {
            TokenView::Number(n) => "Number("@ + int_text(n) + ")"@,
            TokenView::StringLit(s) => "StringLit(\""@ + s + "\")"@,
            TokenView::CharLit(c) => "CharLit('"@ + seq![c] + "')"@,
            TokenView::Identifier(s) => "Identifier(\""@ + s + "\")"@,
            TokenView::Invalid(c) => "Invalid('"@ + seq![c] + "')"@,
            TokenView::Int => "Int"@,
            TokenView::String => "String"@,
            TokenView::Char => "Char"@,
            TokenView::Bool => "Bool"@,
            TokenView::Array => "Array"@,
            TokenView::True => "True"@,
            TokenView::False => "False"@,
            TokenView::Func => "Func"@,
            TokenView::Return => "Return"@,
            TokenView::If => "If"@,
            TokenView::Else => "Else"@,
            TokenView::Plus => "Plus"@,
            TokenView::Minus => "Minus"@,
            TokenView::Star => "Star"@,
            TokenView::Power => "Power"@,
            TokenView::Slash => "Slash"@,
            TokenView::Percent => "Percent"@,
            TokenView::EqualEqual => "EqualEqual"@,
            TokenView::BangEqual => "BangEqual"@,
            TokenView::Less => "Less"@,
            TokenView::Greater => "Greater"@,
            TokenView::LessEqual => "LessEqual"@,
            TokenView::GreaterEqual => "GreaterEqual"@,
            TokenView::And => "And"@,
            TokenView::Or => "Or"@,
            TokenView::Bang => "Bang"@,
            TokenView::Equal => "Equal"@,
            TokenView::PlusEqual => "PlusEqual"@,
            TokenView::MinusEqual => "MinusEqual"@,
            TokenView::StarEqual => "StarEqual"@,
            TokenView::SlashEqual => "SlashEqual"@,
            TokenView::PercentEqual => "PercentEqual"@,
            TokenView::LeftParen => "LeftParen"@,
            TokenView::RightParen => "RightParen"@,
            TokenView::LeftBrace => "LeftBrace"@,
            TokenView::RightBrace => "RightBrace"@,
            TokenView::LeftBracket => "LeftBracket"@,
            TokenView::RightBracket => "RightBracket"@,
            TokenView::Semicolon => "Semicolon"@,
            TokenView::Comma => "Comma"@,
            TokenView::Arrow => "Arrow"@,
            TokenView::EOF => "EOF"@,
        }
    }

    /// Two tokens are of the same kind when they are the same variant,
    /// whatever their payloads.
    pub open spec fn same_kind(self, other: TokenView) -> bool {
        match (self, other) {
            (TokenView::Number(_), TokenView::Number(_)) => true,
            (TokenView::StringLit(_), TokenView::StringLit(_)) => true,
            (TokenView::CharLit(_), TokenView::CharLit(_)) => true,
            (TokenView::Identifier(_), TokenView::Identifier(_)) => true,
            (TokenView::Invalid(_), TokenView::Invalid(_)) => true,
            _ => self == other,
        }
    }
}

impl View for Token {
    type V = TokenView;

    open spec fn view(&self) -> TokenView {
        match self {
            Token::Number(n) => TokenView::Number(*n as int),
            Token::StringLit(s) => TokenView::StringLit(s@),
            Token::CharLit(c) => TokenView::CharLit(*c),
            Token::Identifier(s) => TokenView::Identifier(s@),
            Token::Int => TokenView::Int,
            Token::String => TokenView::String,
            Token::Char => TokenView::Char,
            Token::Bool => TokenView::Bool,
            Token::Array => TokenView::Array,
            Token::True => TokenView::True,
            Token::False => TokenView::False,
            Token::Func => TokenView::Func,
            Token::Return => TokenView::Return,
            Token::If => TokenView::If,
            Token::Else => TokenView::Else,
            Token::Plus => TokenView::Plus,
            Token::Minus => TokenView::Minus,
            Token::Star => TokenView::Star,
            Token::Power => TokenView::Power,
            Token::Slash => TokenView::Slash,
            Token::Percent => TokenView::Percent,
            Token::EqualEqual => TokenView::EqualEqual,
            Token::BangEqual => TokenView::BangEqual,
            Token::Less => TokenView::Less,
            Token::Greater => TokenView::Greater,
            Token::LessEqual => TokenView::LessEqual,
            Token::GreaterEqual => TokenView::GreaterEqual,
            Token::And => TokenView::And,
            Token::Or => TokenView::Or,
            Token::Bang => TokenView::Bang,
            Token::Equal => TokenView::Equal,
            Token::PlusEqual => TokenView::PlusEqual,
            Token::MinusEqual => TokenView::MinusEqual,
            Token::StarEqual => TokenView::StarEqual,
            Token::SlashEqual => TokenView::SlashEqual,
            Token::PercentEqual => TokenView::PercentEqual,
            Token::LeftParen => TokenView::LeftParen,
            Token::RightParen => TokenView::RightParen,
            Token::LeftBrace => TokenView::LeftBrace,
            Token::RightBrace => TokenView::RightBrace,
            Token::LeftBracket => TokenView::LeftBracket,
            Token::RightBracket => TokenView::RightBracket,
            Token::Semicolon => TokenView::Semicolon,
            Token::Comma => TokenView::Comma,
            Token::Arrow => TokenView::Arrow,
            Token::EOF => TokenView::EOF,
            Token::Invalid(c) => TokenView::Invalid(*c),
        }
    }
}

impl Clone for Token {
    fn clone(&self) -> (r: Self)
        ensures
            r@ == self@,
    {
        match self {
            Token::Number(n) => Token::Number(*n),
            Token::StringLit(s) => Token::StringLit(s.clone()),
            Token::CharLit(c) => Token::CharLit(*c),
            Token::Identifier(s) => Token::Identifier(s.clone()),
            Token::Int => Token::Int,
            Token::String => Token::String,
            Token::Char => Token::Char,
            Token::Bool => Token::Bool,
            Token::Array => Token::Array,
            Token::True => Token::True,
            Token::False => Token::False,
            Token::Func => Token::Func,
            Token::Return => Token::Return,
            Token::If => Token::If,
            Token::Else => Token::Else,
            Token::Plus => Token::Plus,
            Token::Minus => Token::Minus,
            Token::Star => Token::Star,
            Token::Power => Token::Power,
            Token::Slash => Token::Slash,
            Token::Percent => Token::Percent,
            Token::EqualEqual => Token::EqualEqual,
            Token::BangEqual => Token::BangEqual,
            Token::Less => Token::Less,
            Token::Greater => Token::Greater,
            Token::LessEqual => Token::LessEqual,
            Token::GreaterEqual => Token::GreaterEqual,
            Token::And => Token::And,
            Token::Or => Token::Or,
            Token::Bang => Token::Bang,
            Token::Equal => Token::Equal,
            Token::PlusEqual => Token::PlusEqual,
            Token::MinusEqual => Token::MinusEqual,
            Token::StarEqual => Token::StarEqual,
            Token::SlashEqual => Token::SlashEqual,
            Token::PercentEqual => Token::PercentEqual,
            Token::LeftParen => Token::LeftParen,
            Token::RightParen => Token::RightParen,
            Token::LeftBrace => Token::LeftBrace,
            Token::RightBrace => Token::RightBrace,
            Token::LeftBracket => Token::LeftBracket,
            Token::RightBracket => Token::RightBracket,
            Token::Semicolon => Token::Semicolon,
            Token::Comma => Token::Comma,
            Token::Arrow => Token::Arrow,
            Token::EOF => Token::EOF,
            Token::Invalid(c) => Token::Invalid(*c),
        }
    }
}

impl Token {
    /// Returns true if the token is a keyword.
    pub fn is_keyword(&self) -> (r: bool)
        ensures
            r == self@.is_keyword(),
    {
        match self {
            Token::Int
            | Token::String
            | Token::Char
            | Token::Bool
            | Token::Array
            | Token::True
            | Token::False
            | Token::Func
            | Token::Return
            | Token::If
            | Token::Else => true,
            _ => false,
        }
    }

    /// Returns true if the token is a literal value.
    pub fn is_literal(&self) -> (r: bool)
        ensures
            r == self@.is_literal(),
    {
        match self {
            Token::Number(_)
            | Token::StringLit(_)
            | Token::CharLit(_)
            | Token::True
            | Token::False => true,
            _ => false,
        }
    }

    /// Returns true if the token is an operator.
    pub fn is_operator(&self) -> (r: bool)
        ensures
            r == self@.is_operator(),
    {
        match self {
            Token::Plus
            | Token::Minus
            | Token::Star
            | Token::Power
            | Token::Slash
            | Token::Percent
            | Token::EqualEqual
            | Token::BangEqual
            | Token::Less
            | Token::Greater
            | Token::LessEqual
            | Token::GreaterEqual
            | Token::And
            | Token::Or
            | Token::Bang => true,
            _ => false,
        }
    }

    /// Appends to `out` how the token is shown in a message.
    pub fn write_description(&self, out: &mut String)
        ensures
            final(out)@ == old(out)@ + self@.describe(),
    {
        match self {
            Token::Number(n) => {
                push_text(out, "Number(");
                push_int(out, *n);
                push_text(out, ")");
            },
            Token::StringLit(s) => {
                push_text(out, "StringLit(\"");
                push_text(out, s.as_str());
                push_text(out, "\")");
            },
            Token::CharLit(c) => {
                push_text(out, "CharLit('");
                string_push(out, *c);
                push_text(out, "')");
            },
            Token::Identifier(s) => {
                push_text(out, "Identifier(\"");
                push_text(out, s.as_str());
                push_text(out, "\")");
            },
            Token::Invalid(c) => {
                push_text(out, "Invalid('");
                string_push(out, *c);
                push_text(out, "')");
            },
            Token::Int => push_text(out, "Int"),
            Token::String => push_text(out, "String"),
            Token::Char => push_text(out, "Char"),
            Token::Bool => push_text(out, "Bool"),
            Token::Array => push_text(out, "Array"),
            Token::True => push_text(out, "True"),
            Token::False => push_text(out, "False"),
            Token::Func => push_text(out, "Func"),
            Token::Return => push_text(out, "Return"),
            Token::If => push_text(out, "If"),
            Token::Else => push_text(out, "Else"),
            Token::Plus => push_text(out, "Plus"),
            Token::Minus => push_text(out, "Minus"),
            Token::Star => push_text(out, "Star"),
            Token::Power => push_text(out, "Power"),
            Token::Slash => push_text(out, "Slash"),
            Token::Percent => push_text(out, "Percent"),
            Token::EqualEqual => push_text(out, "EqualEqual"),
            Token::BangEqual => push_text(out, "BangEqual"),
            Token::Less => push_text(out, "Less"),
            Token::Greater => push_text(out, "Greater"),
            Token::LessEqual => push_text(out, "LessEqual"),
            Token::GreaterEqual => push_text(out, "GreaterEqual"),
            Token::And => push_text(out, "And"),
            Token::Or => push_text(out, "Or"),
            Token::Bang => push_text(out, "Bang"),
            Token::Equal => push_text(out, "Equal"),
            Token::PlusEqual => push_text(out, "PlusEqual"),
            Token::MinusEqual => push_text(out, "MinusEqual"),
            Token::StarEqual => push_text(out, "StarEqual"),
            Token::SlashEqual => push_text(out, "SlashEqual"),
            Token::PercentEqual => push_text(out, "PercentEqual"),
            Token::LeftParen => push_text(out, "LeftParen"),
            Token::RightParen => push_text(out, "RightParen"),
            Token::LeftBrace => push_text(out, "LeftBrace"),
            Token::RightBrace => push_text(out, "RightBrace"),
            Token::LeftBracket => push_text(out, "LeftBracket"),
            Token::RightBracket => push_text(out, "RightBracket"),
            Token::Semicolon => push_text(out, "Semicolon"),
            Token::Comma => push_text(out, "Comma"),
            Token::Arrow => push_text(out, "Arrow"),
            Token::EOF => push_text(out, "EOF"),
        }
    }

    /// Returns true if both tokens are the same variant, payloads aside.
    pub fn same_kind(&self, other: &Token) -> (r: bool)
        ensures
            r == self@.same_kind(other@),
    {
        match (self, other) {
            (Token::Number(_), Token::Number(_)) => true,
            (Token::StringLit(_), Token::StringLit(_)) => true,
            (Token::CharLit(_), Token::CharLit(_)) => true,
            (Token::Identifier(_), Token::Identifier(_)) => true,
            (Token::Invalid(_), Token::Invalid(_)) => true,
            (Token::Int, Token::Int) => true,
            (Token::String, Token::String) => true,
            (Token::Char, Token::Char) => true,
            (Token::Bool, Token::Bool) => true,
            (Token::Array, Token::Array) => true,
            (Token::True, Token::True) => true,
            (Token::False, Token::False) => true,
            (Token::Func, Token::Func) => true,
            (Token::Return, Token::Return) => true,
            (Token::If, Token::If) => true,
            (Token::Else, Token::Else) => true,
            (Token::Plus, Token::Plus) => true,
            (Token::Minus, Token::Minus) => true,
            (Token::Star, Token::Star) => true,
            (Token::Power, Token::Power) => true,
            (Token::Slash, Token::Slash) => true,
            (Token::Percent, Token::Percent) => true,
            (Token::EqualEqual, Token::EqualEqual) => true,
            (Token::BangEqual, Token::BangEqual) => true,
            (Token::Less, Token::Less) => true,
            (Token::Greater, Token::Greater) => true,
            (Token::LessEqual, Token::LessEqual) => true,
            (Token::GreaterEqual, Token::GreaterEqual) => true,
            (Token::And, Token::And) => true,
            (Token::Or, Token::Or) => true,
            (Token::Bang, Token::Bang) => true,
            (Token::Equal, Token::Equal) => true,
            (Token::PlusEqual, Token::PlusEqual) => true,
            (Token::MinusEqual, Token::MinusEqual) => true,
            (Token::StarEqual, Token::StarEqual) => true,
            (Token::SlashEqual, Token::SlashEqual) => true,
            (Token::PercentEqual, Token::PercentEqual) => true,
            (Token::LeftParen, Token::LeftParen) => true,
            (Token::RightParen, Token::RightParen) => true,
            (Token::LeftBrace, Token::LeftBrace) => true,
            (Token::RightBrace, Token::RightBrace) => true,
            (Token::LeftBracket, Token::LeftBracket) => true,
            (Token::RightBracket, Token::RightBracket) => true,
            (Token::Semicolon, Token::Semicolon) => true,
            (Token::Comma, Token::Comma) => true,
            (Token::Arrow, Token::Arrow) => true,
            (Token::EOF, Token::EOF) => true,
            _ => false,
        }
    }
}

} // verus!
