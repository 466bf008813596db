use vstd::prelude::*;
use crate::ast::{ExprView, StmtView};
use crate::lexer::TokenView;
use crate::parser::grammar::{
    argument_list, array_literal, assignment, at_end, binary_op_of, block_statement, expect,
    expression, expression_statement, expressions, found, function_declaration, identifier,
    if_statement, lemma_parameters_advance, lemma_type_advances, let_statement, operators,
    parameter_list, parse_type, prefix, primary, program, return_statement, right_operand_level,
    starts_type, statement, statements, stuck, suffixes, token_at, Parsed,
};

verus! {

/// The outcome of a construct that took at least one token: it ends after
/// position `p` and inside the sequence, or it is an error that a token
/// caused.
pub open spec fn advanced<T>(r: Parsed<T>, p: int, len: nat) -> bool {
    match r {
        Ok((_, q)) => p < q <= len,
        Err(e) => e != stuck(),
    }
}

/// The outcome of a construct that may be empty: it ends at or after
/// position `p` and inside the sequence, or it is an error that a token
/// caused.
pub open spec fn settled<T>(r: Parsed<T>, p: int, len: nat) -> bool {
    match r {
        Ok((_, q)) => p <= q <= len,
        Err(e) => e != stuck(),
    }
}

/// An expression takes at least one token.
pub proof fn lemma_expression_advances(ts: Seq<TokenView>, p: int, min: int)
    requires
        0 <= p <= ts.len(),
    ensures
        advanced(expression(ts, p, min), p, ts.len()),
    decreases ts.len() - p, 3nat,
{
    lemma_prefix_advances(ts, p);
    if let Ok((left, q)) = prefix(ts, p) {
        lemma_operators_settle(ts, q, left, min);
    }
}

/// The operators after an operand end at or after their start.
pub proof fn lemma_operators_settle(ts: Seq<TokenView>, p: int, left: ExprView, min: int)
    requires
        0 <= p <= ts.len(),
    ensures
        settled(operators(ts, p, left, min), p, ts.len()),
    decreases ts.len() - p, 0nat,
{
    if let Some(op) = binary_op_of(token_at(ts, p)) {
        if op.level() >= min {
            lemma_expression_advances(ts, p + 1, right_operand_level(op));
            if let Ok((right, q)) = expression(ts, p + 1, right_operand_level(op)) {
                lemma_operators_settle(
                    ts,
                    q,
                    ExprView::Binary { left: Box::new(left), op, right: Box::new(right) },
                    min,
                );
            }
        }
    }
}

/// A prefix term takes at least one token.
pub proof fn lemma_prefix_advances(ts: Seq<TokenView>, p: int)
    requires
        0 <= p <= ts.len(),
    ensures
        advanced(prefix(ts, p), p, ts.len()),
    decreases ts.len() - p, 2nat,
{
    let t = token_at(ts, p);
    if t is Minus || t is Bang {
        lemma_prefix_advances(ts, p + 1);
    } else {
        lemma_primary_advances(ts, p);
    }
}

/// A primary term takes at least one token.
pub proof fn lemma_primary_advances(ts: Seq<TokenView>, p: int)
    requires
        0 <= p <= ts.len(),
    ensures
        advanced(primary(ts, p), p, ts.len()),
    decreases ts.len() - p, 1nat,
{
    match token_at(ts, p) {
        TokenView::Number(n) => {
            lemma_suffixes_settle(ts, p + 1, ExprView::Literal(crate::ast::LiteralView::Number(n)));
        },
        TokenView::StringLit(s) => {
            lemma_suffixes_settle(ts, p + 1, ExprView::Literal(crate::ast::LiteralView::String(s)));
        },
        TokenView::CharLit(c) => {
            lemma_suffixes_settle(ts, p + 1, ExprView::Literal(crate::ast::LiteralView::Char(c)));
        },
        TokenView::True => {
            lemma_suffixes_settle(
                ts,
                p + 1,
                ExprView::Literal(crate::ast::LiteralView::Bool(true)),
            );
        },
        TokenView::False => {
            lemma_suffixes_settle(
                ts,
                p + 1,
                ExprView::Literal(crate::ast::LiteralView::Bool(false)),
            );
        },
        TokenView::Identifier(name) => {
            lemma_suffixes_settle(ts, p + 1, ExprView::Variable(name));
        },
        TokenView::LeftBracket => {
            lemma_array_literal_advances(ts, p);
            if let Ok((array, q)) = array_literal(ts, p) {
                lemma_suffixes_settle(ts, q, array);
            }
        },
        TokenView::LeftParen => {
            lemma_expression_advances(ts, p + 1, 0);
            if let Ok((inner, q)) = expression(ts, p + 1, 0) {
                if let Ok(q2) = expect(ts, q, TokenView::RightParen, "')' after expression"@) {
                    lemma_suffixes_settle(ts, q2, inner);
                }
            }
        },
        _ => {},
    }
}

/// The suffixes of a term end at or after their start.
pub proof fn lemma_suffixes_settle(ts: Seq<TokenView>, p: int, base: ExprView)
    requires
        0 <= p <= ts.len(),
    ensures
        settled(suffixes(ts, p, base), p, ts.len()),
    decreases ts.len() - p, 0nat,
{
    match token_at(ts, p) {
        TokenView::LeftParen => {
            lemma_argument_list_settles(ts, p + 1);
            if let Ok((args, q)) = argument_list(ts, p + 1) {
                if let Ok(q2) = expect(ts, q, TokenView::RightParen, "')' after arguments"@) {
                    lemma_suffixes_settle(
                        ts,
                        q2,
                        ExprView::Call { callee: Box::new(base), args },
                    );
                }
            }
        },
        TokenView::LeftBracket => {
            lemma_expression_advances(ts, p + 1, 0);
            if let Ok((index, q)) = expression(ts, p + 1, 0) {
                if let Ok(q2) = expect(ts, q, TokenView::RightBracket, "']' after array index"@) {
                    lemma_suffixes_settle(
                        ts,
                        q2,
                        ExprView::ArrayAccess { array: Box::new(base), index: Box::new(index) },
                    );
                }
            }
        },
        _ => {},
    }
}

/// An array literal takes at least one token.
pub proof fn lemma_array_literal_advances(ts: Seq<TokenView>, p: int)
    requires
        0 <= p <= ts.len(),
    ensures
        advanced(array_literal(ts, p), p, ts.len()),
    decreases ts.len() - p, 0nat,
{
    if let Ok(q) = expect(ts, p, TokenView::LeftBracket, "'['"@) {
        if !found(ts, q, TokenView::RightBracket) {
            lemma_expressions_advance(ts, q, Seq::empty());
        }
    }
}

/// The arguments of a call end at or after their start.
pub proof fn lemma_argument_list_settles(ts: Seq<TokenView>, p: int)
    requires
        0 <= p <= ts.len(),
    ensures
        settled(argument_list(ts, p), p, ts.len()),
    decreases ts.len() - p, 5nat,
{
    if !found(ts, p, TokenView::RightParen) {
        lemma_expressions_advance(ts, p, Seq::empty());
    }
}

/// A list of expressions takes at least one token.
pub proof fn lemma_expressions_advance(ts: Seq<TokenView>, p: int, done: Seq<ExprView>)
    requires
        0 <= p <= ts.len(),
    ensures
        advanced(expressions(ts, p, done), p, ts.len()),
    decreases ts.len() - p, 4nat,
{
    lemma_expression_advances(ts, p, 0);
    if let Ok((e, q)) = expression(ts, p, 0) {
        if found(ts, q, TokenView::Comma) {
            lemma_expressions_advance(ts, q + 1, done.push(e));
        }
    }
}

/// A declaration takes at least one token.
pub proof fn lemma_let_statement_advances(ts: Seq<TokenView>, p: int)
    requires
        0 <= p <= ts.len(),
    ensures
        advanced(let_statement(ts, p), p, ts.len()),
{
    lemma_type_advances(ts, p);
    if let Ok((declared, q)) = parse_type(ts, p) {
        if let Ok((name, q2)) = identifier(ts, q, "variable name"@) {
            if let Ok(q3) = expect(ts, q2, TokenView::Equal, "'=' after variable name"@) {
                lemma_expression_advances(ts, q3, 0);
            }
        }
    }
}

/// An assignment takes at least one token.
pub proof fn lemma_assignment_advances(ts: Seq<TokenView>, p: int)
    requires
        0 <= p <= ts.len(),
    ensures
        advanced(assignment(ts, p), p, ts.len()),
{
    if let Ok((name, q)) = identifier(ts, p, "identifier"@) {
        if let Ok(q2) = expect(ts, q, TokenView::Equal, "'='"@) {
            lemma_expression_advances(ts, q2, 0);
        }
    }
}

/// An expression statement takes at least one token.
pub proof fn lemma_expression_statement_advances(ts: Seq<TokenView>, p: int)
    requires
        0 <= p <= ts.len(),
    ensures
        advanced(expression_statement(ts, p), p, ts.len()),
{
    lemma_expression_advances(ts, p, 0);
}

/// A return statement takes at least one token.
pub proof fn lemma_return_statement_advances(ts: Seq<TokenView>, p: int)
    requires
        0 <= p <= ts.len(),
    ensures
        advanced(return_statement(ts, p), p, ts.len()),
{
    if let Ok(q) = expect(ts, p, TokenView::Return, "'return'"@) {
        if !found(ts, q, TokenView::Semicolon) {
            lemma_expression_advances(ts, q, 0);
        }
    }
}

/// A statement takes at least one token, and the only errors are those that
/// a token caused.
pub proof fn lemma_statement_advances(ts: Seq<TokenView>, p: int)
    requires
        0 <= p <= ts.len(),
    ensures
        advanced(statement(ts, p), p, ts.len()),
    decreases ts.len() - p, 7nat,
{
    let t = token_at(ts, p);
    if starts_type(t) {
        lemma_let_statement_advances(ts, p);
    } else if t is If {
        lemma_if_statement_advances(ts, p);
    } else if t is Return {
        lemma_return_statement_advances(ts, p);
    } else if t is LeftBrace {
        lemma_block_statement_advances(ts, p);
    } else if t is Func {
        lemma_function_declaration_advances(ts, p);
    } else if t is Identifier && token_at(ts, p + 1) is Equal {
        lemma_assignment_advances(ts, p);
    } else {
        lemma_expression_statement_advances(ts, p);
    }
}

/// A conditional takes at least one token.
pub proof fn lemma_if_statement_advances(ts: Seq<TokenView>, p: int)
    requires
        0 <= p <= ts.len(),
    ensures
        advanced(if_statement(ts, p), p, ts.len()),
    decreases ts.len() - p, 6nat,
{
    if let Ok(q) = expect(ts, p, TokenView::If, "'if'"@) {
        if let Ok(q2) = expect(ts, q, TokenView::LeftParen, "'(' after 'if'"@) {
            lemma_expression_advances(ts, q2, 0);
            if let Ok((condition, q3)) = expression(ts, q2, 0) {
                if let Ok(q4) = expect(ts, q3, TokenView::RightParen, "')' after condition"@) {
                    lemma_block_statement_advances(ts, q4);
                    if let Ok((then_branch, q5)) = block_statement(ts, q4) {
                        if found(ts, q5, TokenView::Else) {
                            if found(ts, q5 + 1, TokenView::If) {
                                lemma_if_statement_advances(ts, q5 + 1);
                            } else {
                                lemma_block_statement_advances(ts, q5 + 1);
                            }
                        }
                    }
                }
            }
        }
    }
}

/// A block takes at least one token.
pub proof fn lemma_block_statement_advances(ts: Seq<TokenView>, p: int)
    requires
        0 <= p <= ts.len(),
    ensures
        advanced(block_statement(ts, p), p, ts.len()),
    decreases ts.len() - p, 6nat,
{
    if let Ok(q) = expect(ts, p, TokenView::LeftBrace, "'{'"@) {
        lemma_statements_settle(ts, q, Seq::empty());
    }
}

/// The statements of a block end at or after their start.
pub proof fn lemma_statements_settle(ts: Seq<TokenView>, p: int, done: Seq<StmtView>)
    requires
        0 <= p <= ts.len(),
    ensures
        settled(statements(ts, p, done), p, ts.len()),
    decreases ts.len() - p, 8nat,
{
    if !(found(ts, p, TokenView::RightBrace) || at_end(ts, p)) {
        lemma_statement_advances(ts, p);
        if let Ok((s, q)) = statement(ts, p) {
            lemma_statements_settle(ts, q, done.push(s));
        }
    }
}

/// A function declaration takes at least one token.
pub proof fn lemma_function_declaration_advances(ts: Seq<TokenView>, p: int)
    requires
        0 <= p <= ts.len(),
    ensures
        advanced(function_declaration(ts, p), p, ts.len()),
    decreases ts.len() - p, 6nat,
{
    if let Ok(q) = expect(ts, p, TokenView::Func, "'func'"@) {
        if let Ok((name, q2)) = identifier(ts, q, "function name"@) {
            if let Ok(q3) = expect(ts, q2, TokenView::LeftParen, "'(' after function name"@) {
                lemma_parameters_advance(ts, q3, Seq::empty());
                if let Ok((params, q4)) = parameter_list(ts, q3) {
                    if let Ok(q5) = expect(ts, q4, TokenView::RightParen, "')' after parameters"@) {
                        if found(ts, q5, TokenView::Arrow) {
                            lemma_type_advances(ts, q5 + 1);
                            if let Ok((t, q6)) = parse_type(ts, q5 + 1) {
                                lemma_block_statement_advances(ts, q6);
                            }
                        } else {
                            lemma_block_statement_advances(ts, q5);
                        }
                    }
                }
            }
        }
    }
}

/// Parsing a program fails only with an error that a token caused.
pub proof fn lemma_program_settles(ts: Seq<TokenView>, p: int, done: Seq<StmtView>)
    requires
        0 <= p <= ts.len(),
    ensures
        program(ts, p, done) matches Err(e) ==> e != stuck(),
    decreases ts.len() - p,
{
    if !at_end(ts, p) {
        lemma_statement_advances(ts, p);
        if let Ok((s, q)) = statement(ts, p) {
            lemma_program_settles(ts, q, done.push(s));
        }
    }
}

} // verus!
