use vstd::prelude::*;
use super::error::{ParseError, ParseResult};
use super::grammar;
use super::parser::{expr_outcome, exprs_outcome, Parser};
use crate::ast::operator::{BinaryOp, UnaryOp};
use crate::ast::{expr_views, Expr, ExprView, Literal};
use crate::lexer::Token;

verus! {

impl Parser {
    pub(super) fn parse_expression(&mut self) -> (r: ParseResult<Expr>)
        requires
            old(self).wf(),
        ensures
            final(self).wf(),
            final(self)@.tokens == old(self)@.tokens,
            expr_outcome(r, final(self)@.position) == grammar::expression(
                old(self)@.tokens,
                old(self)@.position,
                0,
            ),
            r is Ok ==> old(self)@.position < final(self)@.position,
        decreases old(self)@.tokens.len() - old(self)@.position, 3nat, 1nat,
    {
        self.parse_expression_with_precedence(0)
    }

    /// Parses an expression considering operator precedence using Pratt parsing.
    pub(super) fn parse_expression_with_precedence(&mut self, min_precedence: u8) -> (r:
        ParseResult<Expr>)
        requires
            old(self).wf(),
        ensures
            final(self).wf(),
            final(self)@.tokens == old(self)@.tokens,
            expr_outcome(r, final(self)@.position) == grammar::expression(
                old(self)@.tokens,
                old(self)@.position,
                min_precedence as int,
            ),
            r is Ok ==> old(self)@.position < final(self)@.position,
        decreases old(self)@.tokens.len() - old(self)@.position, 3nat, 0nat,
    {
        proof {
            self.lemma_position_in_tokens();
        }
        let mut left = self.parse_prefix()?;
        let ghost goal = grammar::expression(
            old(self)@.tokens,
            old(self)@.position,
            min_precedence as int,
        );
        proof {
            self.lemma_position_in_tokens();
        }
        loop
            invariant
                self.wf(),
                self@.tokens == old(self)@.tokens,
                0 <= old(self)@.position < self@.position <= self@.tokens.len(),
                goal == grammar::expression(
                    old(self)@.tokens,
                    old(self)@.position,
                    min_precedence as int,
                ),
                goal == grammar::operators(
                    self@.tokens,
                    self@.position,
                    left@,
                    min_precedence as int,
                ),
            decreases self@.tokens.len() - self@.position,
        {
            let op = match self.current_binary_op() {
                Some(op) => op,
                None => {
                    return Ok(left);
                },
            };
            let (precedence, is_left_assoc) = op.precedence_and_associativity();
            if precedence < min_precedence {
                return Ok(left);
            }
            self.advance();
            // For left-associative operators, we increase precedence for the right side
            // For right-associative (like **), we keep the same precedence
            let next_min_precedence = if is_left_assoc {
                precedence + 1
            } else {
                precedence
            };
            let right = self.parse_expression_with_precedence(next_min_precedence)?;
            proof {
                self.lemma_position_in_tokens();
            }
            left = Expr::Binary { left: Box::new(left), op, right: Box::new(right) };
        }
    }

    /// Parses prefix expressions: unary operators, then a primary expression
    pub(super) fn parse_prefix(&mut self) -> (r: ParseResult<Expr>)
        requires
            old(self).wf(),
        ensures
            final(self).wf(),
            final(self)@.tokens == old(self)@.tokens,
            expr_outcome(r, final(self)@.position) == grammar::prefix(
                old(self)@.tokens,
                old(self)@.position,
            ),
            r is Ok ==> old(self)@.position < final(self)@.position,
        decreases old(self)@.tokens.len() - old(self)@.position, 2nat, 0nat,
    {
        proof {
            self.lemma_position_in_tokens();
        }
        match self.peek() {
            Some(Token::Minus) => {
                self.advance();
                let right = self.parse_prefix()?;
                Ok(Expr::Unary { op: UnaryOp::Minus, right: Box::new(right) })
            },
            Some(Token::Bang) => {
                self.advance();
                let right = self.parse_prefix()?;
                Ok(Expr::Unary { op: UnaryOp::Not, right: Box::new(right) })
            },
            _ => self.parse_primary(),
        }
    }

    /// Parses primary expressions: literals, identifiers, parenthesized expressions, arrays
    pub(super) fn parse_primary(&mut self) -> (r: ParseResult<Expr>)
        requires
            old(self).wf(),
        ensures
            final(self).wf(),
            final(self)@.tokens == old(self)@.tokens,
            expr_outcome(r, final(self)@.position) == grammar::primary(
                old(self)@.tokens,
                old(self)@.position,
            ),
            r is Ok ==> old(self)@.position < final(self)@.position,
        decreases old(self)@.tokens.len() - old(self)@.position, 1nat, 0nat,
    {
        proof {
            self.lemma_position_in_tokens();
        }
        let expr = match self.current_token() {
            Token::Number(n) => {
                self.advance();
                Expr::Literal(Literal::Number(n))
            },
            Token::StringLit(s) => {
                self.advance();
                Expr::Literal(Literal::String(s))
            },
            Token::CharLit(c) => {
                self.advance();
                Expr::Literal(Literal::Char(c))
            },
            Token::True => {
                self.advance();
                Expr::Literal(Literal::Bool(true))
            },
            Token::False => {
                self.advance();
                Expr::Literal(Literal::Bool(false))
            },
            Token::Identifier(name) => {
                self.advance();
                Expr::Variable(name)
            },
            Token::LeftBracket => self.parse_array_literal()?,
            Token::LeftParen => {
                self.advance();
                let expr = self.parse_expression()?;
                self.expect(&Token::RightParen, "')' after expression")?;
                expr
            },
            found => {
                return Err(ParseError::ExpectedExpression { found });
            },
        };
        proof {
            self.lemma_position_in_tokens();
        }
        self.parse_suffix(expr)
    }

    /// Parses suffixes for expressions (like function calls, array indexing, etc.)
    pub(super) fn parse_suffix(&mut self, base: Expr) -> (r: ParseResult<Expr>)
        requires
            old(self).wf(),
        ensures
            final(self).wf(),
            final(self)@.tokens == old(self)@.tokens,
            expr_outcome(r, final(self)@.position) == grammar::suffixes(
                old(self)@.tokens,
                old(self)@.position,
                base@,
            ),
            r is Ok ==> old(self)@.position <= final(self)@.position,
        decreases old(self)@.tokens.len() - old(self)@.position, 0nat, 1nat,
    {
        let ghost start = base@;
        let mut expr = base;
        let ghost goal = grammar::suffixes(old(self)@.tokens, old(self)@.position, start);
        proof {
            self.lemma_position_in_tokens();
        }
        loop
            invariant
                self.wf(),
                self@.tokens == old(self)@.tokens,
                0 <= old(self)@.position <= self@.position <= self@.tokens.len(),
                start == base@,
                goal == grammar::suffixes(old(self)@.tokens, old(self)@.position, start),
                goal == grammar::suffixes(self@.tokens, self@.position, expr@),
            decreases self@.tokens.len() - self@.position,
        {
            let calls = match self.peek() {
                Some(Token::LeftParen) => true,
                _ => false,
            };
            let indexes = match self.peek() {
                Some(Token::LeftBracket) => true,
                _ => false,
            };
            if calls {
                self.advance();
                let args = self.parse_argument_list()?;
                self.expect(&Token::RightParen, "')' after arguments")?;
                proof {
                    Expr::lemma_view_call(Box::new(expr), args);
                    self.lemma_position_in_tokens();
                }
                expr = Expr::Call { callee: Box::new(expr), args };
            } else if indexes {
                self.advance();
                let index = self.parse_expression()?;
                self.expect(&Token::RightBracket, "']' after array index")?;
                proof {
                    self.lemma_position_in_tokens();
                }
                expr = Expr::ArrayAccess { array: Box::new(expr), index: Box::new(index) };
            } else {
                return Ok(expr);
            }
        }
    }

    /// Parses an array literal : [elem1, elem2, ...]
    pub(super) fn parse_array_literal(&mut self) -> (r: ParseResult<Expr>)
        requires
            old(self).wf(),
        ensures
            final(self).wf(),
            final(self)@.tokens == old(self)@.tokens,
            expr_outcome(r, final(self)@.position) == grammar::array_literal(
                old(self)@.tokens,
                old(self)@.position,
            ),
            r is Ok ==> old(self)@.position < final(self)@.position,
        decreases old(self)@.tokens.len() - old(self)@.position, 0nat, 0nat,
    {
        proof {
            self.lemma_position_in_tokens();
        }
        self.expect(&Token::LeftBracket, "'['")?;
        let elements = if self.check(&Token::RightBracket) {
            let none: Vec<Expr> = Vec::new();
            assert(expr_views(none@) =~= Seq::<ExprView>::empty());
            none
        } else {
            self.parse_expressions()?
        };
        self.expect(&Token::RightBracket, "']' after array elements")?;
        proof {
            Expr::lemma_view_array_literal(elements);
        }
        Ok(Expr::ArrayLiteral(elements))
    }

    /// Parses a list of arguments : (arg1, arg2, ...)
    pub(super) fn parse_argument_list(&mut self) -> (r: ParseResult<Vec<Expr>>)
        requires
            old(self).wf(),
        ensures
            final(self).wf(),
            final(self)@.tokens == old(self)@.tokens,
            exprs_outcome(r, final(self)@.position) == grammar::argument_list(
                old(self)@.tokens,
                old(self)@.position,
            ),
            r is Ok ==> old(self)@.position <= final(self)@.position,
        decreases old(self)@.tokens.len() - old(self)@.position, 5nat, 0nat,
    {
        if self.check(&Token::RightParen) {
            let none: Vec<Expr> = Vec::new();
            assert(expr_views(none@) =~= Seq::<ExprView>::empty());
            Ok(none)
        } else {
            self.parse_expressions()
        }
    }

    /// Parses one expression or more, with commas between them.
    pub(super) fn parse_expressions(&mut self) -> (r: ParseResult<Vec<Expr>>)
        requires
            old(self).wf(),
        ensures
            final(self).wf(),
            final(self)@.tokens == old(self)@.tokens,
            exprs_outcome(r, final(self)@.position) == grammar::expressions(
                old(self)@.tokens,
                old(self)@.position,
                Seq::empty(),
            ),
            r is Ok ==> old(self)@.position < final(self)@.position,
        decreases old(self)@.tokens.len() - old(self)@.position, 4nat, 0nat,
    {
        let mut items: Vec<Expr> = Vec::new();
        let ghost goal = grammar::expressions(old(self)@.tokens, old(self)@.position, Seq::empty());
        assert(expr_views(items@) =~= Seq::<ExprView>::empty());
        proof {
            self.lemma_position_in_tokens();
        }
        loop
            invariant
                self.wf(),
                self@.tokens == old(self)@.tokens,
                0 <= old(self)@.position <= self@.position <= self@.tokens.len(),
                goal == grammar::expressions(old(self)@.tokens, old(self)@.position, Seq::empty()),
                goal == grammar::expressions(self@.tokens, self@.position, expr_views(items@)),
            decreases self@.tokens.len() - self@.position,
        {
            let ghost done = expr_views(items@);
            let item = self.parse_expression()?;
            items.push(item);
            assert(expr_views(items@) =~= done.push(item@));
            if !self.match_token(&Token::Comma) {
                return Ok(items);
            }
            proof {
                self.lemma_position_in_tokens();
            }
        }
    }

    /// Returns the current binary operator if the current token is one.
    pub(super) fn current_binary_op(&self) -> (r: Option<BinaryOp>)
        requires
            self.wf(),
        ensures
            r == grammar::binary_op_of(grammar::token_at(self@.tokens, self@.position)),
    {
        if self.is_at_end() {
            return None;
        }
        match self.peek() {
            Some(Token::Plus) => Some(BinaryOp::Add),
            Some(Token::Minus) => Some(BinaryOp::Sub),
            Some(Token::Star) => Some(BinaryOp::Mul),
            Some(Token::Power) => Some(BinaryOp::Pow),
            Some(Token::Slash) => Some(BinaryOp::Div),
            Some(Token::Percent) => Some(BinaryOp::Mod),
            Some(Token::EqualEqual) => Some(BinaryOp::Equal),
            Some(Token::BangEqual) => Some(BinaryOp::NotEqual),
            Some(Token::Less) => Some(BinaryOp::Less),
            Some(Token::Greater) => Some(BinaryOp::Greater),
            Some(Token::LessEqual) => Some(BinaryOp::LessEqual),
            Some(Token::GreaterEqual) => Some(BinaryOp::GreaterEqual),
            Some(Token::And) => Some(BinaryOp::And),
            Some(Token::Or) => Some(BinaryOp::Or),
            _ => None,
        }
    }
}

} // verus!
