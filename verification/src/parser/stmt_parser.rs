use vstd::prelude::*;
use super::error::{ParseError, ParseResult};
use super::grammar;
use super::parser::{params_outcome, stmt_outcome, type_outcome, Parser};
use crate::ast::{param_views, stmt_views, Param, ParamView, Stmt, StmtView, Type};
use crate::lexer::Token;

verus! {

impl Parser {
    /// Parses a statement.
    pub(super) fn parse_statement(&mut self) -> (r: ParseResult<Stmt>)
        requires
            old(self).wf(),
        ensures
            final(self).wf(),
            final(self)@.tokens == old(self)@.tokens,
            stmt_outcome(r, final(self)@.position) == grammar::statement(
                old(self)@.tokens,
                old(self)@.position,
            ),
            r is Ok ==> old(self)@.position < final(self)@.position,
        decreases old(self)@.tokens.len() - old(self)@.position, 7nat,
    {
        proof {
            self.lemma_position_in_tokens();
        }
        match self.peek() {
            Some(Token::Int)
            | Some(Token::String)
            | Some(Token::Bool)
            | Some(Token::Char)
            | Some(Token::Array) => self.parse_let_statement(),
            Some(Token::If) => self.parse_if_statement(),
            Some(Token::Return) => self.parse_return_statement(),
            Some(Token::LeftBrace) => self.parse_block_statement(),
            Some(Token::Func) => self.parse_function_declaration(),
            Some(Token::Identifier(_)) => {
                // Could be assignment or expression statement
                // Peek ahead to check for '='
                let assigns = match self.peek_next() {
                    Some(Token::Equal) => true,
                    _ => false,
                };
                if assigns {
                    self.parse_assignment()
                } else {
                    self.parse_expression_statement()
                }
            },
            _ => self.parse_expression_statement(),
        }
    }

    /// Parse: Int x = 42;
    pub(super) fn parse_let_statement(&mut self) -> (r: ParseResult<Stmt>)
        requires
            old(self).wf(),
        ensures
            final(self).wf(),
            final(self)@.tokens == old(self)@.tokens,
            stmt_outcome(r, final(self)@.position) == grammar::let_statement(
                old(self)@.tokens,
                old(self)@.position,
            ),
            r is Ok ==> old(self)@.position < final(self)@.position,
    {
        let type_annotation = self.parse_type()?;
        let name = self.expect_identifier("variable name")?;
        self.expect(&Token::Equal, "'=' after variable name")?;
        let value = self.parse_expression()?;
        self.expect(&Token::Semicolon, "';' after expression")?;
        Ok(Stmt::Let { name, type_annotation: Some(type_annotation), value })
    }

    /// Parse: x = 10;
    pub(super) fn parse_assignment(&mut self) -> (r: ParseResult<Stmt>)
        requires
            old(self).wf(),
        ensures
            final(self).wf(),
            final(self)@.tokens == old(self)@.tokens,
            stmt_outcome(r, final(self)@.position) == grammar::assignment(
                old(self)@.tokens,
                old(self)@.position,
            ),
            r is Ok ==> old(self)@.position < final(self)@.position,
    {
        let name = self.expect_identifier("identifier")?;
        self.expect(&Token::Equal, "'='")?;
        let value = self.parse_expression()?;
        self.expect(&Token::Semicolon, "';' after expression")?;
        Ok(Stmt::Assignment { name, value })
    }

    /// Parse: expression;
    pub(super) fn parse_expression_statement(&mut self) -> (r: ParseResult<Stmt>)
        requires
            old(self).wf(),
        ensures
            final(self).wf(),
            final(self)@.tokens == old(self)@.tokens,
            stmt_outcome(r, final(self)@.position) == grammar::expression_statement(
                old(self)@.tokens,
                old(self)@.position,
            ),
            r is Ok ==> old(self)@.position < final(self)@.position,
    {
        let expr = self.parse_expression()?;
        self.expect(&Token::Semicolon, "';' after expression")?;
        Ok(Stmt::Expression(expr))
    }

    /// Parse: if (condition) { ... } else { ... }
    pub(super) fn parse_if_statement(&mut self) -> (r: ParseResult<Stmt>)
        requires
            old(self).wf(),
        ensures
            final(self).wf(),
            final(self)@.tokens == old(self)@.tokens,
            stmt_outcome(r, final(self)@.position) == grammar::if_statement(
                old(self)@.tokens,
                old(self)@.position,
            ),
            r is Ok ==> old(self)@.position < final(self)@.position,
        decreases old(self)@.tokens.len() - old(self)@.position, 6nat,
    {
        proof {
            self.lemma_position_in_tokens();
        }
        self.expect(&Token::If, "'if'")?;
        self.expect(&Token::LeftParen, "'(' after 'if'")?;
        let condition = self.parse_expression()?;
        self.expect(&Token::RightParen, "')' after condition")?;
        proof {
            self.lemma_position_in_tokens();
        }
        let then_branch = Box::new(self.parse_block_statement()?);
        let else_branch = if self.match_token(&Token::Else) {
            proof {
                self.lemma_position_in_tokens();
            }
            Some(
                Box::new(
                    if self.check(&Token::If) {
                        // else if
                        self.parse_if_statement()?
                    } else {
                        // else
                        self.parse_block_statement()?
                    },
                ),
            )
        } else {
            None
        };
        Ok(Stmt::If { condition, then_branch, else_branch })
    }

    /// Parse: return <expr>;
    pub(super) fn parse_return_statement(&mut self) -> (r: ParseResult<Stmt>)
        requires
            old(self).wf(),
        ensures
            final(self).wf(),
            final(self)@.tokens == old(self)@.tokens,
            stmt_outcome(r, final(self)@.position) == grammar::return_statement(
                old(self)@.tokens,
                old(self)@.position,
            ),
            r is Ok ==> old(self)@.position < final(self)@.position,
    {
        self.expect(&Token::Return, "'return'")?;
        let value = if self.check(&Token::Semicolon) {
            None
        } else {
            Some(self.parse_expression()?)
        };
        self.expect(&Token::Semicolon, "';' after return")?;
        Ok(Stmt::Return(value))
    }

    /// Parse: { stmt1; stmt2; ... }
    pub(super) fn parse_block_statement(&mut self) -> (r: ParseResult<Stmt>)
        requires
            old(self).wf(),
        ensures
            final(self).wf(),
            final(self)@.tokens == old(self)@.tokens,
            stmt_outcome(r, final(self)@.position) == grammar::block_statement(
                old(self)@.tokens,
                old(self)@.position,
            ),
            r is Ok ==> old(self)@.position < final(self)@.position,
        decreases old(self)@.tokens.len() - old(self)@.position, 6nat,
    {
        proof {
            self.lemma_position_in_tokens();
        }
        self.expect(&Token::LeftBrace, "'{'")?;
        let mut statements: Vec<Stmt> = Vec::new();
        let ghost start = self@.position;
        assert(stmt_views(statements@) =~= Seq::<StmtView>::empty());
        proof {
            self.lemma_position_in_tokens();
        }
        while !self.check(&Token::RightBrace) && !self.is_at_end()
            invariant
                self.wf(),
                self@.tokens == old(self)@.tokens,
                start == old(self)@.position + 1,
                0 <= start <= self@.position <= self@.tokens.len(),
                grammar::found(old(self)@.tokens, old(self)@.position, crate::lexer::TokenView::LeftBrace),
                grammar::statements(self@.tokens, self@.position, stmt_views(statements@))
                    == grammar::statements(old(self)@.tokens, start, Seq::empty()),
            decreases self@.tokens.len() - self@.position,
        {
            let ghost done = stmt_views(statements@);
            let statement = self.parse_statement()?;
            statements.push(statement);
            assert(stmt_views(statements@) =~= done.push(statement@));
            proof {
                self.lemma_position_in_tokens();
            }
        }
        self.expect(&Token::RightBrace, "'}' after block")?;
        proof {
            Stmt::lemma_view_block(statements);
        }
        Ok(Stmt::Block(statements))
    }

    /// Parse: func name(params) -> return_type { body }
    pub(super) fn parse_function_declaration(&mut self) -> (r: ParseResult<Stmt>)
        requires
            old(self).wf(),
        ensures
            final(self).wf(),
            final(self)@.tokens == old(self)@.tokens,
            stmt_outcome(r, final(self)@.position) == grammar::function_declaration(
                old(self)@.tokens,
                old(self)@.position,
            ),
            r is Ok ==> old(self)@.position < final(self)@.position,
        decreases old(self)@.tokens.len() - old(self)@.position, 6nat,
    {
        proof {
            self.lemma_position_in_tokens();
        }
        self.expect(&Token::Func, "'func'")?;
        let name = self.expect_identifier("function name")?;
        self.expect(&Token::LeftParen, "'(' after function name")?;
        let params = self.parse_parameter_list()?;
        self.expect(&Token::RightParen, "')' after parameters")?;
        let return_type = if self.match_token(&Token::Arrow) {
            Some(self.parse_type()?)
        } else {
            None
        };
        proof {
            self.lemma_position_in_tokens();
        }
        let body = self.parse_block_statement()?;
        Ok(Stmt::FunctionDecl { name, params, return_type, body: Box::new(body) })
    }

    /// Parses a list of function parameters.
    pub(super) fn parse_parameter_list(&mut self) -> (r: ParseResult<Vec<Param>>)
        requires
            old(self).wf(),
        ensures
            final(self).wf(),
            final(self)@.tokens == old(self)@.tokens,
            params_outcome(r, final(self)@.position) == grammar::parameter_list(
                old(self)@.tokens,
                old(self)@.position,
            ),
            r is Ok ==> old(self)@.position <= final(self)@.position,
    {
        let mut params: Vec<Param> = Vec::new();
        assert(param_views(params@) =~= Seq::<ParamView>::empty());
        if self.check(&Token::RightParen) {
            return Ok(params);
        }
        let ghost goal = grammar::parameters(old(self)@.tokens, old(self)@.position, Seq::empty());
        proof {
            self.lemma_position_in_tokens();
        }
        loop
            invariant
                self.wf(),
                self@.tokens == old(self)@.tokens,
                0 <= old(self)@.position <= self@.position <= self@.tokens.len(),
                !grammar::found(old(self)@.tokens, old(self)@.position, crate::lexer::TokenView::RightParen),
                goal == grammar::parameters(old(self)@.tokens, old(self)@.position, Seq::empty()),
                goal == grammar::parameters(self@.tokens, self@.position, param_views(params@)),
            decreases self@.tokens.len() - self@.position,
        {
            let ghost done = param_views(params@);
            let type_annotation = self.parse_type()?;
            let name = self.expect_identifier("parameter name")?;
            let param = Param { name, type_annotation };
            params.push(param);
            assert(param_views(params@) =~= done.push(param@));
            if !self.match_token(&Token::Comma) {
                return Ok(params);
            }
            proof {
                self.lemma_position_in_tokens();
            }
        }
    }

    /// Parses a type annotation.
    pub(super) fn parse_type(&mut self) -> (r: ParseResult<Type>)
        requires
            old(self).wf(),
        ensures
            final(self).wf(),
            final(self)@.tokens == old(self)@.tokens,
            type_outcome(r, final(self)@.position) == grammar::parse_type(
                old(self)@.tokens,
                old(self)@.position,
            ),
            r is Ok ==> old(self)@.position < final(self)@.position,
        decreases old(self)@.tokens.len() - old(self)@.position,
    {
        proof {
            self.lemma_position_in_tokens();
        }
        match self.current_token() {
            Token::Int => {
                self.advance();
                Ok(Type::Int)
            },
            Token::String => {
                self.advance();
                Ok(Type::String)
            },
            Token::Bool => {
                self.advance();
                Ok(Type::Bool)
            },
            Token::Char => {
                self.advance();
                Ok(Type::Char)
            },
            Token::Array => {
                self.advance();
                self.expect(&Token::Less, "'<' after 'Array'")?;
                let element_type = self.parse_type()?;
                self.expect(&Token::Greater, "'>' after array element type")?;
                Ok(Type::Array(Box::new(element_type)))
            },
            token => Err(
                ParseError::UnexpectedToken {
                    expected: "type (Int, String, Bool, Char, Array)".to_string(),
                    found: token,
                },
            ),
        }
    }
}

} // verus!
