use vstd::prelude::*;
use crate::lexer::{Token, TokenView};
use crate::text::push_text;

verus! {

pub type ParseResult<T> = Result<T, ParseError>;

/// The ways in which a token sequence fails to be a program.
#[derive(Debug, PartialEq)]
#[allow(inconsistent_fields)]
pub enum ParseError {
    /// A token other than the one that the grammar asks for
    UnexpectedToken { expected: String, found: Token },
    /// The end of the input where more was needed
    UnexpectedEOF { expected: String },
    /// Any other breach of the grammar
    InvalidSyntax { message: String, token: Option<Token> },
    /// A token that cannot start an expression
    ExpectedExpression { found: Token },
}

/// The mathematical value of a [`ParseError`].
#[allow(inconsistent_fields)]
pub enum ParseErrorView {
    UnexpectedToken { expected: Seq<char>, found: TokenView },
    UnexpectedEOF { expected: Seq<char> },
    InvalidSyntax { message: Seq<char>, token: Option<TokenView> },
    ExpectedExpression { found: TokenView },
}

impl View for ParseError {
    type V = ParseErrorView;

    open spec fn view(&self) -> ParseErrorView {
        match self {
            ParseError::UnexpectedToken { expected, found } => ParseErrorView::UnexpectedToken {
                expected: expected@,
                found: found@,
            },
            ParseError::UnexpectedEOF { expected } => ParseErrorView::UnexpectedEOF {
                expected: expected@,
            },
            ParseError::InvalidSyntax { message, token } => ParseErrorView::InvalidSyntax {
                message: message@,
                token: match token {
                    Some(t) => Some(t@),
                    None => None,
                },
            },
            ParseError::ExpectedExpression { found } => ParseErrorView::ExpectedExpression {
                found: found@,
            },
        }
    }
}

impl ParseErrorView {
    /// The one line that describes the error.
    pub open spec fn message(self) -> Seq<char> {
        "Parse error: "@ + match self {
            ParseErrorView::UnexpectedToken { expected, found } => "Expected "@ + expected
                + ", found "@ + found.describe(),
            ParseErrorView::UnexpectedEOF { expected } => "Unexpected end of file, expected "@
                + expected,
            ParseErrorView::InvalidSyntax { message, token } => match token {
                Some(t) => message + " at "@ + t.describe(),
                None => message,
            },
            ParseErrorView::ExpectedExpression { found } => "Expected expression, found "@
                + found.describe(),
        }
    }
}

impl ParseError {
    /// The one line that describes the error.
    pub fn to_string(&self) -> (r: String)
        ensures
            r@ == self@.message(),
    {
        let mut s = String::new();
        push_text(&mut s, "Parse error: ");
        match self {
            ParseError::UnexpectedToken { expected, found } => {
                push_text(&mut s, "Expected ");
                push_text(&mut s, expected.as_str());
                push_text(&mut s, ", found ");
                found.write_description(&mut s);
            },
            ParseError::UnexpectedEOF { expected } => {
                push_text(&mut s, "Unexpected end of file, expected ");
                push_text(&mut s, expected.as_str());
            },
            ParseError::InvalidSyntax { message, token } => {
                push_text(&mut s, message.as_str());
                match token {
                    Some(t) => {
                        push_text(&mut s, " at ");
                        t.write_description(&mut s);
                    },
                    None => {},
                }
            },
            ParseError::ExpectedExpression { found } => {
                push_text(&mut s, "Expected expression, found ");
                found.write_description(&mut s);
            },
        }
        s
    }
}

impl Clone for ParseError {
    fn clone(&self) -> (r: Self)
        ensures
            r@ == self@,
    {
        match self {
            ParseError::UnexpectedToken { expected, found } => ParseError::UnexpectedToken {
                expected: expected.clone(),
                found: found.clone(),
            },
            ParseError::UnexpectedEOF { expected } => ParseError::UnexpectedEOF {
                expected: expected.clone(),
            },
            ParseError::InvalidSyntax { message, token } => ParseError::InvalidSyntax {
                message: message.clone(),
                token: match token {
                    Some(t) => Some(t.clone()),
                    None => None,
                },
            },
            ParseError::ExpectedExpression { found } => ParseError::ExpectedExpression {
                found: found.clone(),
            },
        }
    }
}

} // verus!
