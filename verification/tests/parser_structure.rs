use remylang::ast::{BinaryOp, Expr, Literal, Param, Stmt, Type, UnaryOp};
use remylang::lexer::{Lexer, Token};
use remylang::parser::{ParseError, Parser};

fn lex(code: &str) -> Vec<Token> {
    let mut lexer = Lexer::new(code.to_string());
    let mut tokens = Vec::new();
    loop {
        let token = lexer.next_token();
        let done = token == Token::EOF;
        tokens.push(token);
        if done {
            return tokens;
        }
    }
}

fn parse(code: &str) -> Result<Vec<Stmt>, ParseError> {
    Parser::new(lex(code)).parse()
}

fn num(n: i64) -> Expr {
    Expr::Literal(Literal::Number(n))
}

fn var(name: &str) -> Expr {
    Expr::Variable(name.to_string())
}

fn binary(left: Expr, op: BinaryOp, right: Expr) -> Expr {
    Expr::Binary { left: Box::new(left), op, right: Box::new(right) }
}

fn unexpected(expected: &str, found: Token) -> ParseError {
    ParseError::UnexpectedToken { expected: expected.to_string(), found }
}

#[test]
fn multiplication_is_the_right_child_of_addition() {
    assert_eq!(
        parse("1 + 2 * 3;"),
        Ok(vec![Stmt::Expression(binary(
            num(1),
            BinaryOp::Add,
            binary(num(2), BinaryOp::Mul, num(3))
        ))])
    );
}

#[test]
fn power_groups_from_the_right() {
    assert_eq!(
        parse("2 ** 3 ** 2;"),
        Ok(vec![Stmt::Expression(binary(
            num(2),
            BinaryOp::Pow,
            binary(num(3), BinaryOp::Pow, num(2))
        ))])
    );
}

#[test]
fn subtraction_groups_from_the_left() {
    assert_eq!(
        parse("1 - 2 - 3;"),
        Ok(vec![Stmt::Expression(binary(
            binary(num(1), BinaryOp::Sub, num(2)),
            BinaryOp::Sub,
            num(3)
        ))])
    );
}

#[test]
fn every_level_of_precedence() {
    // a || b && c == d < e + f * g ** h
    let expected = binary(
        var("a"),
        BinaryOp::Or,
        binary(
            var("b"),
            BinaryOp::And,
            binary(
                var("c"),
                BinaryOp::Equal,
                binary(
                    var("d"),
                    BinaryOp::Less,
                    binary(
                        var("e"),
                        BinaryOp::Add,
                        binary(var("f"), BinaryOp::Mul, binary(var("g"), BinaryOp::Pow, var("h"))),
                    ),
                ),
            ),
        ),
    );
    assert_eq!(
        parse("a || b && c == d < e + f * g ** h;"),
        Ok(vec![Stmt::Expression(expected)])
    );
}

#[test]
fn looser_operator_after_tighter_one() {
    assert_eq!(
        parse("1 * 2 + 3;"),
        Ok(vec![Stmt::Expression(binary(
            binary(num(1), BinaryOp::Mul, num(2)),
            BinaryOp::Add,
            num(3)
        ))])
    );
}

#[test]
fn unary_operators_nest() {
    assert_eq!(
        parse("--x;"),
        Ok(vec![Stmt::Expression(Expr::Unary {
            op: UnaryOp::Minus,
            right: Box::new(Expr::Unary { op: UnaryOp::Minus, right: Box::new(var("x")) }),
        })])
    );
    assert_eq!(
        parse("!!x;"),
        Ok(vec![Stmt::Expression(Expr::Unary {
            op: UnaryOp::Not,
            right: Box::new(Expr::Unary { op: UnaryOp::Not, right: Box::new(var("x")) }),
        })])
    );
}

#[test]
fn unary_minus_binds_tighter_than_power() {
    assert_eq!(
        parse("-2 ** 2;"),
        Ok(vec![Stmt::Expression(binary(
            Expr::Unary { op: UnaryOp::Minus, right: Box::new(num(2)) },
            BinaryOp::Pow,
            num(2)
        ))])
    );
}

#[test]
fn suffixes_chain() {
    let call = Expr::Call { callee: Box::new(var("f")), args: vec![var("x")] };
    let index = Expr::ArrayAccess { array: Box::new(call), index: Box::new(num(0)) };
    let outer = Expr::Call { callee: Box::new(index), args: vec![var("y")] };
    assert_eq!(parse("f(x)[0](y);"), Ok(vec![Stmt::Expression(outer)]));
}

#[test]
fn array_literal_takes_suffixes() {
    assert_eq!(
        parse("[1, 2][0];"),
        Ok(vec![Stmt::Expression(Expr::ArrayAccess {
            array: Box::new(Expr::ArrayLiteral(vec![num(1), num(2)])),
            index: Box::new(num(0)),
        })])
    );
}

#[test]
fn parenthesized_expression_takes_suffixes() {
    assert_eq!(
        parse("(a)[1];"),
        Ok(vec![Stmt::Expression(Expr::ArrayAccess {
            array: Box::new(var("a")),
            index: Box::new(num(1)),
        })])
    );
}

#[test]
fn name_before_equal_is_an_assignment() {
    assert_eq!(
        parse("x = 5;"),
        Ok(vec![Stmt::Assignment { name: "x".to_string(), value: num(5) }])
    );
    assert_eq!(
        parse("x == 5;"),
        Ok(vec![Stmt::Expression(binary(var("x"), BinaryOp::Equal, num(5)))])
    );
}

#[test]
fn nested_array_type() {
    assert_eq!(
        parse("Array<Array<Int>> m = [[1]];"),
        Ok(vec![Stmt::Let {
            name: "m".to_string(),
            type_annotation: Some(Type::Array(Box::new(Type::Array(Box::new(Type::Int))))),
            value: Expr::ArrayLiteral(vec![Expr::ArrayLiteral(vec![num(1)])]),
        }])
    );
}

#[test]
fn else_if_nests_a_conditional() {
    let expected = Stmt::If {
        condition: var("a"),
        then_branch: Box::new(Stmt::Block(vec![])),
        else_branch: Some(Box::new(Stmt::If {
            condition: var("b"),
            then_branch: Box::new(Stmt::Block(vec![Stmt::Return(None)])),
            else_branch: Some(Box::new(Stmt::Block(vec![]))),
        })),
    };
    assert_eq!(parse("if (a) {} else if (b) { return; } else {}"), Ok(vec![expected]));
}

#[test]
fn function_declaration_parts() {
    let expected = Stmt::FunctionDecl {
        name: "Add".to_string(),
        params: vec![
            Param { name: "a".to_string(), type_annotation: Type::Int },
            Param { name: "s".to_string(), type_annotation: Type::String },
        ],
        return_type: Some(Type::Bool),
        body: Box::new(Stmt::Block(vec![Stmt::Return(Some(Expr::Literal(Literal::Bool(
            true,
        ))))])),
    };
    assert_eq!(parse("func Add(Int a, String s) -> Bool { return True; }"), Ok(vec![expected]));
}

#[test]
fn tokens_without_end_marker_are_read_to_their_end() {
    let tokens = vec![Token::Number(1), Token::Semicolon];
    assert_eq!(Parser::new(tokens).parse(), Ok(vec![Stmt::Expression(num(1))]));
    assert_eq!(Parser::new(vec![]).parse(), Ok(vec![]));
}

#[test]
fn parsing_stops_at_the_first_end_marker() {
    let tokens = vec![Token::Number(1), Token::Semicolon, Token::EOF, Token::Plus];
    assert_eq!(Parser::new(tokens).parse(), Ok(vec![Stmt::Expression(num(1))]));
}

#[test]
fn missing_semicolon_names_the_end_marker() {
    assert_eq!(parse("Int x = 5"), Err(unexpected("';' after expression", Token::EOF)));
}

#[test]
fn missing_name_names_what_was_found() {
    assert_eq!(parse("Int"), Err(unexpected("variable name", Token::EOF)));
    assert_eq!(parse("Int 5 = 1;"), Err(unexpected("variable name", Token::Number(5))));
    assert_eq!(parse("func (x) {}"), Err(unexpected("function name", Token::LeftParen)));
    assert_eq!(parse("func f(Int) {}"), Err(unexpected("parameter name", Token::RightParen)));
}

#[test]
fn missing_type_names_what_was_found() {
    assert_eq!(
        parse("func f(x) {}"),
        Err(unexpected(
            "type (Int, String, Bool, Char, Array)",
            Token::Identifier("x".to_string())
        ))
    );
    assert_eq!(parse("Array x = 1;"), Err(unexpected("'<' after 'Array'", Token::Identifier("x".to_string()))));
    assert_eq!(parse("Array<Int x = 1;"), Err(unexpected("'>' after array element type", Token::Identifier("x".to_string()))));
}

#[test]
fn token_that_starts_no_expression() {
    assert_eq!(parse("+ 5;"), Err(ParseError::ExpectedExpression { found: Token::Plus }));
    assert_eq!(parse("1 + ;"), Err(ParseError::ExpectedExpression { found: Token::Semicolon }));
    assert_eq!(parse("f(1,);"), Err(ParseError::ExpectedExpression { found: Token::RightParen }));
    assert_eq!(parse("x = "), Err(ParseError::ExpectedExpression { found: Token::EOF }));
    assert_eq!(parse("&"), Err(ParseError::ExpectedExpression { found: Token::Invalid('&') }));
}

#[test]
fn missing_closing_marks() {
    assert_eq!(parse("(1 + 2;"), Err(unexpected("')' after expression", Token::Semicolon)));
    assert_eq!(parse("f(1;"), Err(unexpected("')' after arguments", Token::Semicolon)));
    assert_eq!(parse("a[1;"), Err(unexpected("']' after array index", Token::Semicolon)));
    assert_eq!(parse("[1, 2;"), Err(unexpected("']' after array elements", Token::Semicolon)));
    assert_eq!(parse("{ 1;"), Err(unexpected("'}' after block", Token::EOF)));
}

#[test]
fn statement_shapes_are_exact() {
    assert_eq!(parse("func Test();"), Err(unexpected("'{'", Token::Semicolon)));
    assert_eq!(parse("if a {}"), Err(unexpected("'(' after 'if'", Token::Identifier("a".to_string()))));
    assert_eq!(parse("if (a {}"), Err(unexpected("')' after condition", Token::LeftBrace)));
    assert_eq!(parse("if (a) 1;"), Err(unexpected("'{'", Token::Number(1))));
    assert_eq!(parse("return 1"), Err(unexpected("';' after return", Token::EOF)));
    assert_eq!(parse("Int x 5;"), Err(unexpected("'=' after variable name", Token::Number(5))));
    assert_eq!(parse("func f(Int a {}"), Err(unexpected("')' after parameters", Token::LeftBrace)));
    assert_eq!(parse("func f {}"), Err(unexpected("'(' after function name", Token::LeftBrace)));
}

#[test]
fn first_error_ends_parsing() {
    assert_eq!(parse("1 +; Int = ;"), Err(ParseError::ExpectedExpression { found: Token::Semicolon }));
}

#[test]
fn parse_error_lines() {
    assert_eq!(
        unexpected("';' after expression", Token::EOF).to_string(),
        "Parse error: Expected ';' after expression, found EOF"
    );
    assert_eq!(
        unexpected("variable name", Token::Number(-5)).to_string(),
        "Parse error: Expected variable name, found Number(-5)"
    );
    assert_eq!(
        ParseError::ExpectedExpression { found: Token::Identifier("x".to_string()) }.to_string(),
        "Parse error: Expected expression, found Identifier(\"x\")"
    );
    assert_eq!(
        ParseError::ExpectedExpression { found: Token::CharLit('c') }.to_string(),
        "Parse error: Expected expression, found CharLit('c')"
    );
    assert_eq!(
        ParseError::UnexpectedEOF { expected: "a statement".to_string() }.to_string(),
        "Parse error: Unexpected end of file, expected a statement"
    );
    assert_eq!(
        ParseError::InvalidSyntax { message: "bad".to_string(), token: Some(Token::Comma) }
            .to_string(),
        "Parse error: bad at Comma"
    );
    assert_eq!(
        ParseError::InvalidSyntax { message: "bad".to_string(), token: None }.to_string(),
        "Parse error: bad"
    );
}

#[test]
fn syntax_tree_copies_are_equal() {
    let program = parse("func f(Int a) -> Int { if (a > 0) { return f(a - 1); } return [a][0]; }")
        .unwrap();
    assert_eq!(program[0].clone(), program[0]);
    assert!(program[0].same(&program[0].clone()));
    let other = parse("func f(Int a) -> Int { if (a > 0) { return f(a - 2); } return [a][0]; }")
        .unwrap();
    assert!(!program[0].same(&other[0]));
}

#[test]
fn operator_levels() {
    assert_eq!(BinaryOp::Or.precedence(), 1);
    assert_eq!(BinaryOp::And.precedence(), 2);
    assert_eq!(BinaryOp::NotEqual.precedence(), 3);
    assert_eq!(BinaryOp::GreaterEqual.precedence(), 4);
    assert_eq!(BinaryOp::Sub.precedence(), 5);
    assert_eq!(BinaryOp::Mod.precedence(), 6);
    assert_eq!(BinaryOp::Pow.precedence_and_associativity(), (7, false));
    assert_eq!(BinaryOp::Add.precedence_and_associativity(), (5, true));
}
