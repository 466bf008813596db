use vstd::prelude::*;
use crate::ast::{expr_views, param_views, stmt_views, Expr, ExprView, Param, ParamView, Stmt, StmtView, Type};
use crate::lexer::{token_views, Token, TokenView};
use crate::parser::error::{ParseError, ParseErrorView, ParseResult};
use crate::parser::grammar;
use crate::parser::grammar::Parsed;

verus! {

/// Turns a sequence of tokens into statements.
pub struct Parser {
    tokens: Vec<Token>,
    current: usize,
}

/// What a parser stands for: the tokens and the position of the next one.
pub struct ParserView {
    pub tokens: Seq<TokenView>,
    pub position: int,
}

impl View for Parser {
    type V = ParserView;

    closed spec fn view(&self) -> ParserView {
        ParserView { tokens: token_views(self.tokens@), position: self.current as int }
    }
}

/// The outcome that a step without a value stands for.
pub open spec fn step_outcome(r: ParseResult<()>, next: int) -> Result<int, ParseErrorView> {
    match r {
        Ok(_) => Ok(next),
        Err(e) => Err(e@),
    }
}

/// The outcome that a parsed name stands for.
pub open spec fn name_outcome(r: ParseResult<String>, next: int) -> Parsed<Seq<char>> {
    match r {
        Ok(name) => Ok((name@, next)),
        Err(e) => Err(e@),
    }
}

/// The outcome that a parsed type stands for.
pub open spec fn type_outcome(r: ParseResult<Type>, next: int) -> Parsed<Type> {
    match r {
        Ok(t) => Ok((t, next)),
        Err(e) => Err(e@),
    }
}

/// The outcome that a parsed expression stands for.
pub open spec fn expr_outcome(r: ParseResult<Expr>, next: int) -> Parsed<ExprView> {
    match r {
        Ok(e) => Ok((e@, next)),
        Err(e) => Err(e@),
    }
}

/// The outcome that a parsed list of expressions stands for.
pub open spec fn exprs_outcome(r: ParseResult<Vec<Expr>>, next: int) -> Parsed<Seq<ExprView>> {
    match r {
        Ok(es) => Ok((expr_views(es@), next)),
        Err(e) => Err(e@),
    }
}

/// The outcome that a parsed statement stands for.
pub open spec fn stmt_outcome(r: ParseResult<Stmt>, next: int) -> Parsed<StmtView> {
    match r {
        Ok(s) => Ok((s@, next)),
        Err(e) => Err(e@),
    }
}

/// The outcome that a parsed list of parameters stands for.
pub open spec fn params_outcome(r: ParseResult<Vec<Param>>, next: int) -> Parsed<Seq<ParamView>> {
    match r {
        Ok(ps) => Ok((param_views(ps@), next)),
        Err(e) => Err(e@),
    }
}

/// The outcome that a parsed program stands for.
pub open spec fn program_outcome(r: ParseResult<Vec<Stmt>>) -> Result<
    Seq<StmtView>,
    ParseErrorView,
> {
    match r {
        Ok(ss) => Ok(stmt_views(ss@)),
        Err(e) => Err(e@),
    }
}

impl Parser {
    /// The position lies inside the tokens or at their end.
    pub closed spec fn wf(&self) -> bool {
        self.current <= self.tokens.len()
    }

    pub proof fn lemma_position_in_tokens(&self)
        requires
            self.wf(),
        ensures
            0 <= self@.position <= self@.tokens.len(),
    {
    }

    /// Creates a new Parser instance with the given tokens.
    pub fn new(tokens: Vec<Token>) -> (r: Self)
        ensures
            r.wf(),
            r@ == (ParserView { tokens: token_views(tokens@), position: 0 }),
    {
        Parser { tokens, current: 0 }
    }

    /// Looks at the current token without consuming it.
    pub(super) fn peek(&self) -> (r: Option<&Token>)
        requires
            self.wf(),
        ensures
            match r {
                Some(t) => self@.position < self@.tokens.len() && t@ == self@.tokens[self@.position],
                None => self@.position >= self@.tokens.len(),
            },
    {
        if self.current < self.tokens.len() {
            Some(&self.tokens[self.current])
        } else {
            None
        }
    }

    /// Looks at the next token without consuming it.
    pub(super) fn peek_next(&self) -> (r: Option<&Token>)
        requires
            self.wf(),
        ensures
            match r {
                Some(t) => t@ == grammar::token_at(self@.tokens, self@.position + 1),
                None => grammar::token_at(self@.tokens, self@.position + 1) is EOF,
            },
    {
        if self.current < self.tokens.len() && self.current + 1 < self.tokens.len() {
            Some(&self.tokens[self.current + 1])
        } else {
            None
        }
    }

    /// A copy of the current token; past the last token, the end marker.
    pub(super) fn current_token(&self) -> (r: Token)
        requires
            self.wf(),
        ensures
            r@ == grammar::token_at(self@.tokens, self@.position),
    {
        match self.peek() {
            Some(t) => t.clone(),
            None => Token::EOF,
        }
    }

    /// Checks if we have reached the end of the token stream.
    pub(super) fn is_at_end(&self) -> (r: bool)
        requires
            self.wf(),
        ensures
            r == grammar::at_end(self@.tokens, self@.position),
    {
        match self.peek() {
            Some(Token::EOF) => true,
            Some(_) => false,
            None => true,
        }
    }

    /// Advances to the next token, unless the current one is the end marker.
    pub(super) fn advance(&mut self)
        requires
            old(self).wf(),
        ensures
            final(self).wf(),
            final(self)@.tokens == old(self)@.tokens,
            final(self)@.position == if grammar::at_end(old(self)@.tokens, old(self)@.position) {
                old(self)@.position
            } else {
                old(self)@.position + 1
            },
    {
        if !self.is_at_end() {
            self.current += 1;
        }
    }

    /// Checks if the actual token is of the given type.
    pub(super) fn check(&self, token_type: &Token) -> (r: bool)
        requires
            self.wf(),
        ensures
            r == grammar::found(self@.tokens, self@.position, token_type@),
    {
        if self.is_at_end() {
            return false;
        }
        match self.peek() {
            Some(t) => t.same_kind(token_type),
            None => false,
        }
    }

    /// Advances if the current token matches the expected type.
    pub(super) fn expect(&mut self, expected: &Token, message: &str) -> (r: ParseResult<()>)
        requires
            old(self).wf(),
        ensures
            final(self).wf(),
            final(self)@.tokens == old(self)@.tokens,
            step_outcome(r, final(self)@.position) == grammar::expect(
                old(self)@.tokens,
                old(self)@.position,
                expected@,
                message@,
            ),
            r is Ok ==> final(self)@.position == old(self)@.position + 1,
    {
        if self.check(expected) {
            self.advance();
            Ok(())
        } else {
            Err(
                ParseError::UnexpectedToken {
                    expected: message.to_string(),
                    found: self.current_token(),
                },
            )
        }
    }

    /// Verify and consume a given token
    pub(super) fn match_token(&mut self, token_type: &Token) -> (r: bool)
        requires
            old(self).wf(),
        ensures
            final(self).wf(),
            final(self)@.tokens == old(self)@.tokens,
            r == grammar::found(old(self)@.tokens, old(self)@.position, token_type@),
            final(self)@.position == if r {
                old(self)@.position + 1
            } else {
                old(self)@.position
            },
    {
        if self.check(token_type) {
            self.advance();
            return true;
        }
        false
    }

    /// Passes over an identifier and gives its name.
    pub(super) fn expect_identifier(&mut self, expected: &str) -> (r: ParseResult<String>)
        requires
            old(self).wf(),
        ensures
            final(self).wf(),
            final(self)@.tokens == old(self)@.tokens,
            name_outcome(r, final(self)@.position) == grammar::identifier(
                old(self)@.tokens,
                old(self)@.position,
                expected@,
            ),
            r is Ok ==> final(self)@.position == old(self)@.position + 1,
    {
        match self.current_token() {
            Token::Identifier(name) => {
                self.advance();
                Ok(name)
            },
            token => Err(ParseError::UnexpectedToken { expected: expected.to_string(), found: token }),
        }
    }

    /// Entry point for parsing
    pub fn parse(&mut self) -> (r: ParseResult<Vec<Stmt>>)
        requires
            old(self).wf(),
        ensures
            final(self).wf(),
            final(self)@.tokens == old(self)@.tokens,
            program_outcome(r) == grammar::program(
                old(self)@.tokens,
                old(self)@.position,
                Seq::empty(),
            ),
            r matches Err(e) ==> e@ != grammar::stuck(),
            r is Ok ==> grammar::at_end(final(self)@.tokens, final(self)@.position),
    {
        proof {
            crate::parser::progress::lemma_program_settles(
                self@.tokens,
                self@.position,
                Seq::empty(),
            );
        }
        let mut statements: Vec<Stmt> = Vec::new();
        assert(stmt_views(statements@) =~= Seq::<StmtView>::empty());
        while !self.is_at_end()
            invariant
                self.wf(),
                self@.tokens == old(self)@.tokens,
                grammar::program(self@.tokens, self@.position, stmt_views(statements@))
                    == grammar::program(old(self)@.tokens, old(self)@.position, Seq::empty()),
                grammar::program(old(self)@.tokens, old(self)@.position, Seq::empty()) matches Err(
                    e,
                ) ==> e != grammar::stuck(),
            decreases self.tokens.len() - self.current,
        {
            let ghost done = stmt_views(statements@);
            let statement = self.parse_statement()?;
            statements.push(statement);
            assert(stmt_views(statements@) =~= done.push(statement@));
        }
        Ok(statements)
    }
}

} // verus!
