use vstd::prelude::*;
use crate::ast::{BinaryOp, ExprView, LiteralView, ParamView, StmtView, Type, UnaryOp};
use crate::lexer::TokenView;
use crate::parser::error::ParseErrorView;

verus! {

/// What parsing one construct gives: its value and the position of the
/// token after it, or the first error.
pub type Parsed<T> = Result<(T, int), ParseErrorView>;

/// The token at position `p`. Every position outside the sequence holds the
/// end marker.
pub open spec fn token_at(ts: Seq<TokenView>, p: int) -> TokenView {
    if 0 <= p < ts.len() {
        ts[p]
    } else {
        TokenView::EOF
    }
}

/// Whether position `p` holds the end marker.
pub open spec fn at_end(ts: Seq<TokenView>, p: int) -> bool {
    token_at(ts, p) is EOF
}

/// Whether position `p` holds a token of the kind of `kind`. The end marker
/// is never found.
pub open spec fn found(ts: Seq<TokenView>, p: int, kind: TokenView) -> bool {
    !at_end(ts, p) && token_at(ts, p).same_kind(kind)
}

/// The error of meeting `found` where `expected` describes what should stand.
pub open spec fn unexpected(expected: Seq<char>, found: TokenView) -> ParseErrorView {
    ParseErrorView::UnexpectedToken { expected, found }
}

/// The error that stands where a construct took no token. No input leads
/// to it: see `lemma_statement_advances` and its companions.
pub open spec fn stuck() -> ParseErrorView {
    ParseErrorView::InvalidSyntax { message: "no progress"@, token: None }
}

/// Passes over a token of the kind of `kind`, or fails with what was
/// expected and what was found.
pub open spec fn expect(ts: Seq<TokenView>, p: int, kind: TokenView, message: Seq<char>) -> Result<
    int,
    ParseErrorView,
> {
    if found(ts, p, kind) {
        Ok(p + 1)
    } else {
        Err(unexpected(message, token_at(ts, p)))
    }
}

/// Passes over an identifier and gives its name.
pub open spec fn identifier(ts: Seq<TokenView>, p: int, expected: Seq<char>) -> Parsed<Seq<char>> {
    match token_at(ts, p) {
        TokenView::Identifier(name) => Ok((name, p + 1)),
        other => Err(unexpected(expected, other)),
    }
}

/// The binary operator that a token stands for, if any.
pub open spec fn binary_op_of(t: TokenView) -> Option<BinaryOp> {
    match t {
        TokenView::Plus => Some(BinaryOp::Add),
        TokenView::Minus => Some(BinaryOp::Sub),
        TokenView::Star => Some(BinaryOp::Mul),
        TokenView::Power => Some(BinaryOp::Pow),
        TokenView::Slash => Some(BinaryOp::Div),
        TokenView::Percent => Some(BinaryOp::Mod),
        TokenView::EqualEqual => Some(BinaryOp::Equal),
        TokenView::BangEqual => Some(BinaryOp::NotEqual),
        TokenView::Less => Some(BinaryOp::Less),
        TokenView::Greater => Some(BinaryOp::Greater),
        TokenView::LessEqual => Some(BinaryOp::LessEqual),
        TokenView::GreaterEqual => Some(BinaryOp::GreaterEqual),
        TokenView::And => Some(BinaryOp::And),
        TokenView::Or => Some(BinaryOp::Or),
        _ => None,
    }
}

/// The least level that the right operand of `op` may bind at: one above
/// the level of `op` where it groups from the left, its own level where it
/// groups from the right.
pub open spec fn right_operand_level(op: BinaryOp) -> int {
    if op.left_associative() {
        op.level() + 1
    } else {
        op.level()
    }
}

/// A type: one of the four scalar type names, or `Array<` type `>`.
pub open spec fn parse_type(ts: Seq<TokenView>, p: int) -> Parsed<Type>
    decreases ts.len() - p,
{
    match token_at(ts, p) {
        TokenView::Int => Ok((Type::Int, p + 1)),
        TokenView::String => Ok((Type::String, p + 1)),
        TokenView::Bool => Ok((Type::Bool, p + 1)),
        TokenView::Char => Ok((Type::Char, p + 1)),
        TokenView::Array => match expect(ts, p + 1, TokenView::Less, "'<' after 'Array'"@) {
            Err(e) => Err(e),
            Ok(q) => match parse_type(ts, q) {
                Err(e) => Err(e),
                Ok((element, q2)) => match expect(
                    ts,
                    q2,
                    TokenView::Greater,
                    "'>' after array element type"@,
                ) {
                    Err(e) => Err(e),
                    Ok(q3) => Ok((Type::Array(Box::new(element)), q3)),
                },
            },
        },
        other => Err(unexpected("type (Int, String, Bool, Char, Array)"@, other)),
    }
}

/// A type takes at least one token and ends inside the sequence, and where
/// there is none the error names the token that stands in its place.
pub proof fn lemma_type_advances(ts: Seq<TokenView>, p: int)
    ensures
        parse_type(ts, p) matches Ok((_, q)) ==> p < q <= ts.len(),
        parse_type(ts, p) matches Err(e) ==> e is UnexpectedToken,
    decreases ts.len() - p,
{
    if token_at(ts, p) is Array {
        if let Ok(q) = expect(ts, p + 1, TokenView::Less, "'<' after 'Array'"@) {
            lemma_type_advances(ts, q);
        }
    }
}

/// The parameters from position `p` on, after `done`: each a type and a
/// name, with a comma between two of them.
pub open spec fn parameters(ts: Seq<TokenView>, p: int, done: Seq<ParamView>) -> Parsed<
    Seq<ParamView>,
>
    decreases ts.len() - p,
{
    match parse_type(ts, p) {
        Err(e) => Err(e),
        Ok((type_annotation, q)) => match identifier(ts, q, "parameter name"@) {
            Err(e) => Err(e),
            Ok((name, q2)) => {
                let all = done.push(ParamView { name, type_annotation });
                if found(ts, q2, TokenView::Comma) {
                    proof {
                        lemma_type_advances(ts, p);
                    }
                    parameters(ts, q2 + 1, all)
                } else {
                    Ok((all, q2))
                }
            },
        },
    }
}

/// The list of parameters of a function, which may be empty, up to the
/// parenthesis that closes it.
pub open spec fn parameter_list(ts: Seq<TokenView>, p: int) -> Parsed<Seq<ParamView>> {
    if found(ts, p, TokenView::RightParen) {
        Ok((Seq::empty(), p))
    } else {
        parameters(ts, p, Seq::empty())
    }
}

/// A list of parameters takes at least one token and ends inside the
/// sequence, and where it breaks off the error names the token that stands in
/// the place of what is missing.
pub proof fn lemma_parameters_advance(ts: Seq<TokenView>, p: int, done: Seq<ParamView>)
    requires
        0 <= p <= ts.len(),
    ensures
        parameters(ts, p, done) matches Ok((_, q)) ==> p < q <= ts.len(),
        parameters(ts, p, done) matches Err(e) ==> e is UnexpectedToken,
    decreases ts.len() - p,
{
    lemma_type_advances(ts, p);
    if let Ok((type_annotation, q)) = parse_type(ts, p) {
        if let Ok((name, q2)) = identifier(ts, q, "parameter name"@) {
            if found(ts, q2, TokenView::Comma) {
                lemma_parameters_advance(
                    ts,
                    q2 + 1,
                    done.push(ParamView { name, type_annotation }),
                );
            }
        }
    }
}

/// An expression: a prefix term, then any number of binary operators each
/// with its right operand, as far as the operators bind at `min` or tighter.
///
/// The right operand of an operator is parsed at the level that
/// `right_operand_level` gives, so `1 - 2 - 3` groups as `(1 - 2) - 3` and
/// `2 ** 3 ** 2` as `2 ** (3 ** 2)`.
pub open spec fn expression(ts: Seq<TokenView>, p: int, min: int) -> Parsed<ExprView>
    decreases ts.len() - p, 3nat,
{
    match prefix(ts, p) {
        Err(e) => Err(e),
        Ok((left, q)) => if p < q <= ts.len() {
            operators(ts, q, left, min)
        } else {
            Err(stuck())
        },
    }
}

/// The binary operators that follow `left`, which ends before position `p`.
pub open spec fn operators(ts: Seq<TokenView>, p: int, left: ExprView, min: int) -> Parsed<
    ExprView,
>
    decreases ts.len() - p, 0nat,
{
    match binary_op_of(token_at(ts, p)) {
        None => Ok((left, p)),
        Some(op) => if op.level() < min {
            Ok((left, p))
        } else {
            match expression(ts, p + 1, right_operand_level(op)) {
                Err(e) => Err(e),
                Ok((right, q)) => if p < q <= ts.len() {
                    operators(
                        ts,
                        q,
                        ExprView::Binary { left: Box::new(left), op, right: Box::new(right) },
                        min,
                    )
                } else {
                    Err(stuck())
                },
            }
        },
    }
}

/// A prefix term: any number of unary `-` and `!`, then a primary term.
pub open spec fn prefix(ts: Seq<TokenView>, p: int) -> Parsed<ExprView>
    decreases ts.len() - p, 2nat,
{
    match token_at(ts, p) {
        TokenView::Minus => match prefix(ts, p + 1) {
            Err(e) => Err(e),
            Ok((right, q)) => Ok((ExprView::Unary { op: UnaryOp::Minus, right: Box::new(right) }, q)),
        },
        TokenView::Bang => match prefix(ts, p + 1) {
            Err(e) => Err(e),
            Ok((right, q)) => Ok((ExprView::Unary { op: UnaryOp::Not, right: Box::new(right) }, q)),
        },
        _ => primary(ts, p),
    }
}

/// A primary term with its suffixes: a literal, a name, an array literal,
/// or an expression in parentheses, then any number of calls and indexings.
pub open spec fn primary(ts: Seq<TokenView>, p: int) -> Parsed<ExprView>
    decreases ts.len() - p, 1nat,
{
    match token_at(ts, p) {
        TokenView::Number(n) => suffixes(ts, p + 1, ExprView::Literal(LiteralView::Number(n))),
        TokenView::StringLit(s) => suffixes(ts, p + 1, ExprView::Literal(LiteralView::String(s))),
        TokenView::CharLit(c) => suffixes(ts, p + 1, ExprView::Literal(LiteralView::Char(c))),
        TokenView::True => suffixes(ts, p + 1, ExprView::Literal(LiteralView::Bool(true))),
        TokenView::False => suffixes(ts, p + 1, ExprView::Literal(LiteralView::Bool(false))),
        TokenView::Identifier(name) => suffixes(ts, p + 1, ExprView::Variable(name)),
        TokenView::LeftBracket => match array_literal(ts, p) {
            Err(e) => Err(e),
            Ok((array, q)) => if p < q <= ts.len() {
                suffixes(ts, q, array)
            } else {
                Err(stuck())
            },
        },
        TokenView::LeftParen => match expression(ts, p + 1, 0) {
            Err(e) => Err(e),
            Ok((inner, q)) => match expect(ts, q, TokenView::RightParen, "')' after expression"@) {
                Err(e) => Err(e),
                Ok(q2) => if p < q2 <= ts.len() {
                    suffixes(ts, q2, inner)
                } else {
                    Err(stuck())
                },
            },
        },
        other => Err(ParseErrorView::ExpectedExpression { found: other }),
    }
}

/// The suffixes of `base`, which ends before position `p`: each `(`
/// arguments `)` makes a call of what stands before it, each `[` index `]`
/// an indexing.
pub open spec fn suffixes(ts: Seq<TokenView>, p: int, base: ExprView) -> Parsed<ExprView>
    decreases ts.len() - p, 0nat,
{
    match token_at(ts, p) {
        TokenView::LeftParen => match argument_list(ts, p + 1) {
            Err(e) => Err(e),
            Ok((args, q)) => match expect(ts, q, TokenView::RightParen, "')' after arguments"@) {
                Err(e) => Err(e),
                Ok(q2) => if p < q2 <= ts.len() {
                    suffixes(ts, q2, ExprView::Call { callee: Box::new(base), args })
                } else {
                    Err(stuck())
                },
            },
        },
        TokenView::LeftBracket => match expression(ts, p + 1, 0) {
            Err(e) => Err(e),
            Ok((index, q)) => match expect(
                ts,
                q,
                TokenView::RightBracket,
                "']' after array index"@,
            ) {
                Err(e) => Err(e),
                Ok(q2) => if p < q2 <= ts.len() {
                    suffixes(
                        ts,
                        q2,
                        ExprView::ArrayAccess { array: Box::new(base), index: Box::new(index) },
                    )
                } else {
                    Err(stuck())
                },
            },
        },
        _ => Ok((base, p)),
    }
}

/// An array literal: `[`, elements with commas between them, `]`.
pub open spec fn array_literal(ts: Seq<TokenView>, p: int) -> Parsed<ExprView>
    decreases ts.len() - p, 0nat,
{
    match expect(ts, p, TokenView::LeftBracket, "'['"@) {
        Err(e) => Err(e),
        Ok(q) => match (if found(ts, q, TokenView::RightBracket) {
            Ok((Seq::empty(), q))
        } else {
            expressions(ts, q, Seq::empty())
        }) {
            Err(e) => Err(e),
            Ok((elements, q2)) => match expect(
                ts,
                q2,
                TokenView::RightBracket,
                "']' after array elements"@,
            ) {
                Err(e) => Err(e),
                Ok(q3) => Ok((ExprView::ArrayLiteral(elements), q3)),
            },
        },
    }
}

/// The arguments of a call, which may be none, up to the parenthesis that
/// closes them.
pub open spec fn argument_list(ts: Seq<TokenView>, p: int) -> Parsed<Seq<ExprView>>
    decreases ts.len() - p, 5nat,
{
    if found(ts, p, TokenView::RightParen) {
        Ok((Seq::empty(), p))
    } else {
        expressions(ts, p, Seq::empty())
    }
}

/// The expressions from position `p` on, after `done`, with a comma between
/// two of them.
pub open spec fn expressions(ts: Seq<TokenView>, p: int, done: Seq<ExprView>) -> Parsed<
    Seq<ExprView>,
>
    decreases ts.len() - p, 4nat,
{
    match expression(ts, p, 0) {
        Err(e) => Err(e),
        Ok((e, q)) => if found(ts, q, TokenView::Comma) {
            if p < q + 1 <= ts.len() {
                expressions(ts, q + 1, done.push(e))
            } else {
                Err(stuck())
            }
        } else {
            Ok((done.push(e), q))
        },
    }
}

/// Whether a token is the name of a type.
pub open spec fn starts_type(t: TokenView) -> bool {
    t is Int || t is String || t is Bool || t is Char || t is Array
}

/// A statement, told by its first token: a type name starts a declaration,
/// `if` a conditional, `return` a return, `{` a block, `func` a function, a
/// name followed by `=` an assignment. Anything else is an expression
/// statement.
pub open spec fn statement(ts: Seq<TokenView>, p: int) -> Parsed<StmtView>
    decreases ts.len() - p, 7nat,
{
    let t = token_at(ts, p);
    if starts_type(t) {
        let_statement(ts, p)
    } else if t is If {
        if_statement(ts, p)
    } else if t is Return {
        return_statement(ts, p)
    } else if t is LeftBrace {
        block_statement(ts, p)
    } else if t is Func {
        function_declaration(ts, p)
    } else if t is Identifier && token_at(ts, p + 1) is Equal {
        assignment(ts, p)
    } else {
        expression_statement(ts, p)
    }
}

/// `Type name = expr;`
pub open spec fn let_statement(ts: Seq<TokenView>, p: int) -> Parsed<StmtView> {
    match parse_type(ts, p) {
        Err(e) => Err(e),
        Ok((declared, q)) => match identifier(ts, q, "variable name"@) {
            Err(e) => Err(e),
            Ok((name, q2)) => match expect(ts, q2, TokenView::Equal, "'=' after variable name"@) {
                Err(e) => Err(e),
                Ok(q3) => {
                    match expression(ts, q3, 0) {
                        Err(e) => Err(e),
                        Ok((value, q4)) => match expect(
                            ts,
                            q4,
                            TokenView::Semicolon,
                            "';' after expression"@,
                        ) {
                            Err(e) => Err(e),
                            Ok(q5) => Ok(
                                (
                                    StmtView::Let { name, type_annotation: Some(declared), value },
                                    q5,
                                ),
                            ),
                        },
                    }
                },
            },
        },
    }
}

/// `name = expr;`
pub open spec fn assignment(ts: Seq<TokenView>, p: int) -> Parsed<StmtView> {
    match identifier(ts, p, "identifier"@) {
        Err(e) => Err(e),
        Ok((name, q)) => match expect(ts, q, TokenView::Equal, "'='"@) {
            Err(e) => Err(e),
            Ok(q2) => match expression(ts, q2, 0) {
                Err(e) => Err(e),
                Ok((value, q3)) => match expect(
                    ts,
                    q3,
                    TokenView::Semicolon,
                    "';' after expression"@,
                ) {
                    Err(e) => Err(e),
                    Ok(q4) => Ok((StmtView::Assignment { name, value }, q4)),
                },
            },
        },
    }
}

/// `expr;`
pub open spec fn expression_statement(ts: Seq<TokenView>, p: int) -> Parsed<StmtView> {
    match expression(ts, p, 0) {
        Err(e) => Err(e),
        Ok((e, q)) => match expect(ts, q, TokenView::Semicolon, "';' after expression"@) {
            Err(e) => Err(e),
            Ok(q2) => Ok((StmtView::Expression(e), q2)),
        },
    }
}

/// `if (expr) block`, then optionally `else` with a block or with another
/// conditional, which is how an else-if chain nests.
pub open spec fn if_statement(ts: Seq<TokenView>, p: int) -> Parsed<StmtView>
    decreases ts.len() - p, 6nat,
{
    match expect(ts, p, TokenView::If, "'if'"@) {
        Err(e) => Err(e),
        Ok(q) => match expect(ts, q, TokenView::LeftParen, "'(' after 'if'"@) {
            Err(e) => Err(e),
            Ok(q2) => match expression(ts, q2, 0) {
                Err(e) => Err(e),
                Ok((condition, q3)) => match expect(
                    ts,
                    q3,
                    TokenView::RightParen,
                    "')' after condition"@,
                ) {
                    Err(e) => Err(e),
                    Ok(q4) => if !(p < q4 <= ts.len()) {
                        Err(stuck())
                    } else {
                        match block_statement(ts, q4) {
                            Err(e) => Err(e),
                            Ok((then_branch, q5)) => if !found(ts, q5, TokenView::Else) {
                                Ok(
                                    (
                                        StmtView::If {
                                            condition,
                                            then_branch: Box::new(then_branch),
                                            else_branch: None,
                                        },
                                        q5,
                                    ),
                                )
                            } else if !(p < q5 + 1 <= ts.len()) {
                                Err(stuck())
                            } else {
                                match (if found(ts, q5 + 1, TokenView::If) {
                                    if_statement(ts, q5 + 1)
                                } else {
                                    block_statement(ts, q5 + 1)
                                }) {
                                    Err(e) => Err(e),
                                    Ok((other, q6)) => Ok(
                                        (
                                            StmtView::If {
                                                condition,
                                                then_branch: Box::new(then_branch),
                                                else_branch: Some(Box::new(other)),
                                            },
                                            q6,
                                        ),
                                    ),
                                }
                            },
                        }
                    },
                },
            },
        },
    }
}

/// `return;` or `return expr;`
pub open spec fn return_statement(ts: Seq<TokenView>, p: int) -> Parsed<StmtView> {
    match expect(ts, p, TokenView::Return, "'return'"@) {
        Err(e) => Err(e),
        Ok(q) => match (if found(ts, q, TokenView::Semicolon) {
            Ok((None, q))
        } else {
            match expression(ts, q, 0) {
                Err(e) => Err(e),
                Ok((e, q2)) => Ok((Some(e), q2)),
            }
        }) {
            Err(e) => Err(e),
            Ok((value, q2)) => match expect(ts, q2, TokenView::Semicolon, "';' after return"@) {
                Err(e) => Err(e),
                Ok(q3) => Ok((StmtView::Return(value), q3)),
            },
        },
    }
}

/// `{ stmt* }`
pub open spec fn block_statement(ts: Seq<TokenView>, p: int) -> Parsed<StmtView>
    decreases ts.len() - p, 6nat,
{
    match expect(ts, p, TokenView::LeftBrace, "'{'"@) {
        Err(e) => Err(e),
        Ok(q) => match statements(ts, q, Seq::empty()) {
            Err(e) => Err(e),
            Ok((items, q2)) => match expect(ts, q2, TokenView::RightBrace, "'}' after block"@) {
                Err(e) => Err(e),
                Ok(q3) => Ok((StmtView::Block(items), q3)),
            },
        },
    }
}

/// The statements of a block from position `p` on, after `done`, up to the
/// brace that closes the block or the end of the input.
pub open spec fn statements(ts: Seq<TokenView>, p: int, done: Seq<StmtView>) -> Parsed<
    Seq<StmtView>,
>
    decreases ts.len() - p, 8nat,
{
    if found(ts, p, TokenView::RightBrace) || at_end(ts, p) {
        Ok((done, p))
    } else {
        match statement(ts, p) {
            Err(e) => Err(e),
            Ok((s, q)) => if p < q <= ts.len() {
                statements(ts, q, done.push(s))
            } else {
                Err(stuck())
            },
        }
    }
}

/// `func name(type name, ...) -> type block`, where the arrow and the
/// returned type may be left out.
pub open spec fn function_declaration(ts: Seq<TokenView>, p: int) -> Parsed<StmtView>
    decreases ts.len() - p, 6nat,
{
    match expect(ts, p, TokenView::Func, "'func'"@) {
        Err(e) => Err(e),
        Ok(q) => match identifier(ts, q, "function name"@) {
            Err(e) => Err(e),
            Ok((name, q2)) => match expect(
                ts,
                q2,
                TokenView::LeftParen,
                "'(' after function name"@,
            ) {
                Err(e) => Err(e),
                Ok(q3) => match parameter_list(ts, q3) {
                    Err(e) => Err(e),
                    Ok((params, q4)) => match expect(
                        ts,
                        q4,
                        TokenView::RightParen,
                        "')' after parameters"@,
                    ) {
                        Err(e) => Err(e),
                        Ok(q5) => match (if found(ts, q5, TokenView::Arrow) {
                            match parse_type(ts, q5 + 1) {
                                Err(e) => Err(e),
                                Ok((t, q6)) => Ok((Some(t), q6)),
                            }
                        } else {
                            Ok((None, q5))
                        }) {
                            Err(e) => Err(e),
                            Ok((return_type, q6)) => {
                                proof {
                                    lemma_parameters_advance(ts, q3, Seq::empty());
                                    lemma_type_advances(ts, q5 + 1);
                                }
                                match block_statement(ts, q6) {
                                    Err(e) => Err(e),
                                    Ok((body, q7)) => Ok(
                                        (
                                            StmtView::FunctionDecl {
                                                name,
                                                params,
                                                return_type,
                                                body: Box::new(body),
                                            },
                                            q7,
                                        ),
                                    ),
                                }
                            },
                        },
                    },
                },
            },
        },
    }
}

/// The statements of a program from position `p` on, after `done`, up to
/// the end marker: the result is all of them, or the first error.
pub open spec fn program(ts: Seq<TokenView>, p: int, done: Seq<StmtView>) -> Result<
    Seq<StmtView>,
    ParseErrorView,
>
    decreases ts.len() - p,
{
    if at_end(ts, p) {
        Ok(done)
    } else {
        match statement(ts, p) {
            Err(e) => Err(e),
            Ok((s, q)) => if p < q <= ts.len() {
                program(ts, q, done.push(s))
            } else {
                Err(stuck())
            },
        }
    }
}

} // verus!
