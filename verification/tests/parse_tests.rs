use oxyjs::parser::ast::{AstKind, AstNode, Node};
use oxyjs::parser::ast_builder::{AstBuilder, Expected, ParseError};
use oxyjs::parser::input_stream::VecInputStream;
use oxyjs::parser::tokenizer::Token;

fn parse(src: &str) -> Result<oxyjs::parser::ast::ProgramNode, ParseError> {
    let stream = VecInputStream::new(src.as_bytes().to_vec());
    let mut builder = AstBuilder::new(stream);
    builder.parse_program()
}

fn parse_tree(src: &str) -> String {
    parse(src).expect("expected a successful parse").tree_string()
}

#[test]
fn empty_program_renders_empty() {
    let program = parse("").expect("empty input must parse");
    assert_eq!(program.source_elements().len(), 0);
    assert_eq!(program.tree_string(), "ProgramNode{}");
}

#[test]
fn rendering_is_deterministic() {
    let first = parse_tree("a + b;");
    let second = parse_tree("a + b;");
    assert_eq!(first, second);
}

#[test]
fn binary_minus_folds_left() {
    assert_eq!(
        parse_tree("a - b - c;"),
        "ProgramNode{ExprStmt{BinaryOpExpr(-){BinaryOpExpr(-){NameExpr{a}, NameExpr{b}}, NameExpr{c}}}}"
    );
}

#[test]
fn assignment_is_right_associative() {
    assert_eq!(
        parse_tree("a = b = c;"),
        "ProgramNode{ExprStmt{AssignExpr(=){NameExpr{a}, AssignExpr(=){NameExpr{b}, NameExpr{c}}}}}"
    );
}

#[test]
fn comma_folds_left() {
    assert_eq!(
        parse_tree("a, b, c;"),
        "ProgramNode{ExprStmt{CommaExpr{CommaExpr{NameExpr{a}, NameExpr{b}}, NameExpr{c}}}}"
    );
}

#[test]
fn var_statement_accumulates_declarations_in_order() {
    let program = parse("var x, y, z;").expect("var statement must parse");
    assert_eq!(program.tree_string(), "ProgramNode{Var{x, y, z}}");
    let elements = program.source_elements();
    assert_eq!(elements.len(), 1);
    match &*elements[0] {
        Node::Var(v) => {
            let names: Vec<&str> = v.variables().iter().map(|t| t.text().as_str()).collect();
            assert_eq!(names, ["x", "y", "z"]);
            for t in v.variables().iter() {
                assert_eq!(t.kind(), Token::Identifier);
            }
        }
        _ => panic!("expected a var statement"),
    }
}

#[test]
fn if_without_else() {
    assert_eq!(parse_tree("if (c) ;"), "ProgramNode{If(NameExpr{c}){Empty{}}}");
}

#[test]
fn invalid_assignment_target_is_not_rejected() {
    // The left side of an assignment is not restricted to valid targets in
    // this grammar subset: the parse must succeed, never abort.
    assert_eq!(
        parse_tree("a - b = c;"),
        "ProgramNode{ExprStmt{AssignExpr(=){BinaryOpExpr(-){NameExpr{a}, NameExpr{b}}, NameExpr{c}}}}"
    );
}

#[test]
fn dangling_token_is_a_parse_error() {
    match parse("x;;y") {
        Err(ParseError::UnexpectedToken { token, expected }) => {
            assert_eq!(token.kind(), Token::End);
            assert_eq!(token.position(), 4);
            assert_eq!(expected, Expected::Token(Token::Semicolon));
        }
        other => panic!("expected an unexpected-token error, got {:?}", other.is_ok()),
    }
}

#[test]
fn statements_accumulate_in_order() {
    assert_eq!(
        parse_tree("x; { } ; var a;"),
        "ProgramNode{ExprStmt{NameExpr{x}}, Block{}, Empty{}, Var{a}}"
    );
}

#[test]
fn empty_block_statement() {
    assert_eq!(parse_tree("{ }"), "ProgramNode{Block{}}");
}

#[test]
fn block_with_content_is_rejected() {
    match parse("{ x }") {
        Err(ParseError::UnexpectedToken { token, expected }) => {
            assert_eq!(token.kind(), Token::Identifier);
            assert_eq!(token.text(), "x");
            assert_eq!(expected, Expected::Token(Token::CloseBrace));
        }
        _ => panic!("expected an unexpected-token error"),
    }
}

#[test]
fn star_binds_tighter_than_plus() {
    assert_eq!(
        parse_tree("a + b * c;"),
        "ProgramNode{ExprStmt{BinaryOpExpr(+){NameExpr{a}, BinaryOpExpr(*){NameExpr{b}, NameExpr{c}}}}}"
    );
    assert_eq!(
        parse_tree("a * b + c;"),
        "ProgramNode{ExprStmt{BinaryOpExpr(+){BinaryOpExpr(*){NameExpr{a}, NameExpr{b}}, NameExpr{c}}}}"
    );
}

#[test]
fn logical_and_binds_tighter_than_or() {
    assert_eq!(
        parse_tree("a || b && c;"),
        "ProgramNode{ExprStmt{BinaryOpExpr(||){NameExpr{a}, BinaryOpExpr(&&){NameExpr{b}, NameExpr{c}}}}}"
    );
}

#[test]
fn conditional_expression() {
    assert_eq!(
        parse_tree("c ? a : b;"),
        "ProgramNode{ExprStmt{CondExpr{NameExpr{c}, NameExpr{a}, NameExpr{b}}}}"
    );
}

#[test]
fn assignment_of_conditional() {
    assert_eq!(
        parse_tree("x = c ? a : b;"),
        "ProgramNode{ExprStmt{AssignExpr(=){NameExpr{x}, CondExpr{NameExpr{c}, NameExpr{a}, NameExpr{b}}}}}"
    );
}

#[test]
fn compound_assignment_operator() {
    assert_eq!(
        parse_tree("a += b;"),
        "ProgramNode{ExprStmt{AssignExpr(+=){NameExpr{a}, NameExpr{b}}}}"
    );
    assert_eq!(
        parse_tree("a <<= b;"),
        "ProgramNode{ExprStmt{AssignExpr(<<=){NameExpr{a}, NameExpr{b}}}}"
    );
}

#[test]
fn lexical_error_carries_position() {
    match parse("a @ b;") {
        Err(ParseError::Lexical { pos }) => assert_eq!(pos, 2),
        _ => panic!("expected a lexical error"),
    }
}

#[test]
fn unterminated_block_comment_is_a_lexical_error() {
    match parse("/* never closed") {
        Err(ParseError::Lexical { pos }) => assert_eq!(pos, 0),
        _ => panic!("expected a lexical error"),
    }
}

#[test]
fn comments_and_whitespace_are_skipped() {
    assert_eq!(
        parse_tree("  // a line comment\n var /* in the middle */ x ;"),
        "ProgramNode{Var{x}}"
    );
}

#[test]
fn var_without_name_is_rejected() {
    match parse("var ;") {
        Err(ParseError::UnexpectedToken { token, expected }) => {
            assert_eq!(token.kind(), Token::Semicolon);
            assert_eq!(expected, Expected::Token(Token::Identifier));
        }
        _ => panic!("expected an unexpected-token error"),
    }
}

#[test]
fn var_names_must_be_separated() {
    match parse("var x y;") {
        Err(ParseError::UnexpectedToken { token, expected }) => {
            assert_eq!(token.kind(), Token::Identifier);
            assert_eq!(token.text(), "y");
            assert_eq!(expected, Expected::Token(Token::Semicolon));
        }
        _ => panic!("expected an unexpected-token error"),
    }
}

#[test]
fn if_requires_parentheses() {
    match parse("if x;") {
        Err(ParseError::UnexpectedToken { token, expected }) => {
            assert_eq!(token.kind(), Token::Identifier);
            assert_eq!(expected, Expected::Token(Token::OpenParen));
        }
        _ => panic!("expected an unexpected-token error"),
    }
    match parse("if (x; y") {
        Err(ParseError::UnexpectedToken { token, expected }) => {
            assert_eq!(token.kind(), Token::Semicolon);
            assert_eq!(expected, Expected::Token(Token::CloseParen));
        }
        _ => panic!("expected an unexpected-token error"),
    }
}

#[test]
fn expression_statement_requires_semicolon() {
    match parse("x") {
        Err(ParseError::UnexpectedToken { token, expected }) => {
            assert_eq!(token.kind(), Token::End);
            assert_eq!(expected, Expected::Token(Token::Semicolon));
        }
        _ => panic!("expected an unexpected-token error"),
    }
}

#[test]
fn token_without_expression_start_is_rejected() {
    match parse("+ x;") {
        Err(ParseError::UnexpectedToken { token, expected }) => {
            assert_eq!(token.kind(), Token::Plus);
            assert_eq!(expected, Expected::Expression);
        }
        _ => panic!("expected an unexpected-token error"),
    }
}

#[test]
fn nested_if_statement_body() {
    assert_eq!(
        parse_tree("if (a) if (b) x;"),
        "ProgramNode{If(NameExpr{a}){If(NameExpr{b}){ExprStmt{NameExpr{x}}}}}"
    );
}

#[test]
fn comma_binds_weaker_than_assignment() {
    assert_eq!(
        parse_tree("a = b, c;"),
        "ProgramNode{ExprStmt{CommaExpr{AssignExpr(=){NameExpr{a}, NameExpr{b}}, NameExpr{c}}}}"
    );
}

#[test]
fn var_statement_as_if_body() {
    assert_eq!(parse_tree("if (a) var x, y;"), "ProgramNode{If(NameExpr{a}){Var{x, y}}}");
}

#[test]
fn parsed_program_node_kinds() {
    let program = parse("x;").expect("must parse");
    assert_eq!(program.kind(), AstKind::Program);
    assert!(!program.is_statement());
    assert!(!program.is_expression());
    let elements = program.source_elements();
    match &*elements[0] {
        Node::ExprStmt(st) => {
            assert_eq!(st.kind(), AstKind::ExprStmt);
            assert!(st.is_statement());
            assert!(!st.is_expression());
            match st.expression() {
                Node::Name(n) => {
                    assert_eq!(n.kind(), AstKind::NameExpr);
                    assert!(n.is_expression());
                    assert!(!n.is_statement());
                    assert_eq!(n.name().text(), "x");
                    assert_eq!(n.name().position(), 0);
                }
                _ => panic!("expected a name expression"),
            }
        }
        _ => panic!("expected an expression statement"),
    }
}
