use oxyjs::parser::ast::{
    AssignExprNode, AstKind, AstNode, BinaryOpExprNode, BlockStmtNode, CommaExprNode, CondExprNode,
    EmptyStmtNode, ExprStmtNode, IfStmtNode, NameExprNode, Node, ProgramNode, VarStmtNode,
};
use oxyjs::parser::input_stream::VecInputStream;
use oxyjs::parser::tokenizer::{FullToken, Token, Tokenizer};

fn ident(text: &str, pos: usize) -> FullToken {
    FullToken::new(Token::Identifier, String::from(text), pos)
}

fn name_node(text: &str, pos: usize) -> Box<Node> {
    Box::new(Node::Name(NameExprNode::new(ident(text, pos))))
}

#[test]
fn name_expr_renders_its_token_text() {
    let n = NameExprNode::new(ident("foo", 0));
    assert_eq!(n.tree_string(), "NameExpr{foo}");
    assert_eq!(n.name().text(), "foo");
    assert_eq!(n.kind(), AstKind::NameExpr);
    assert!(n.is_expression());
    assert!(!n.is_statement());
}

#[test]
fn empty_and_block_render_fixed_strings() {
    let e = EmptyStmtNode::new();
    assert_eq!(e.tree_string(), "Empty{}");
    assert_eq!(e.kind(), AstKind::EmptyStmt);
    assert!(e.is_statement());
    let b = BlockStmtNode::new();
    assert_eq!(b.tree_string(), "Block{}");
    assert_eq!(b.kind(), AstKind::BlockStmt);
    assert!(b.is_statement());
    assert!(!b.is_expression());
}

#[test]
fn program_node_accumulates_source_elements() {
    let mut p = ProgramNode::new();
    assert_eq!(p.tree_string(), "ProgramNode{}");
    p.add_source_element(Box::new(Node::Empty(EmptyStmtNode::new())));
    p.add_source_element(Box::new(Node::ExprStmt(ExprStmtNode::new(name_node("a", 0)))));
    assert_eq!(p.source_elements().len(), 2);
    assert_eq!(p.tree_string(), "ProgramNode{Empty{}, ExprStmt{NameExpr{a}}}");
}

#[test]
fn var_stmt_node_accumulates_variables() {
    let mut v = VarStmtNode::new();
    assert_eq!(v.tree_string(), "Var{}");
    v.add_variable(ident("x", 4));
    v.add_variable(ident("y", 7));
    assert_eq!(v.variables().len(), 2);
    assert_eq!(v.variables()[1].position(), 7);
    assert_eq!(v.tree_string(), "Var{x, y}");
    assert_eq!(v.kind(), AstKind::VarStmt);
    assert!(v.is_statement());
}

#[test]
fn if_stmt_node_renders_condition_and_body() {
    let body = Box::new(Node::Empty(EmptyStmtNode::new()));
    let n = IfStmtNode::new_if(name_node("c", 4), body);
    assert_eq!(n.tree_string(), "If(NameExpr{c}){Empty{}}");
    assert_eq!(n.kind(), AstKind::IfStmt);
    assert!(n.is_statement());
    assert_eq!(n.cond_expr().tree_string(), "NameExpr{c}");
    assert_eq!(n.if_true_stmt().tree_string(), "Empty{}");
}

#[test]
fn expr_stmt_node_wraps_an_expression() {
    let n = ExprStmtNode::new(name_node("a", 0));
    assert_eq!(n.tree_string(), "ExprStmt{NameExpr{a}}");
    assert_eq!(n.expression().tree_string(), "NameExpr{a}");
}

#[test]
fn binary_op_expr_node_renders_operator() {
    let op = FullToken::new(Token::Minus, String::from("-"), 2);
    let n = BinaryOpExprNode::new(op, name_node("a", 0), name_node("b", 4));
    assert_eq!(n.tree_string(), "BinaryOpExpr(-){NameExpr{a}, NameExpr{b}}");
    assert_eq!(n.kind(), AstKind::BinaryOpExpr);
    assert!(n.is_expression());
    assert_eq!(n.binary_op().kind(), Token::Minus);
    assert_eq!(n.left_expr().tree_string(), "NameExpr{a}");
    assert_eq!(n.right_expr().tree_string(), "NameExpr{b}");
}

#[test]
fn cond_expr_node_renders_three_children() {
    let n = CondExprNode::new(name_node("c", 0), name_node("a", 4), name_node("b", 8));
    assert_eq!(n.tree_string(), "CondExpr{NameExpr{c}, NameExpr{a}, NameExpr{b}}");
    assert_eq!(n.kind(), AstKind::CondExpr);
    assert_eq!(n.cond_expr().tree_string(), "NameExpr{c}");
    assert_eq!(n.if_expr().tree_string(), "NameExpr{a}");
    assert_eq!(n.else_expr().tree_string(), "NameExpr{b}");
}

#[test]
fn assign_expr_node_renders_operator() {
    let op = FullToken::new(Token::Assign, String::from("="), 2);
    let n = AssignExprNode::new(op, name_node("a", 0), name_node("b", 4));
    assert_eq!(n.tree_string(), "AssignExpr(=){NameExpr{a}, NameExpr{b}}");
    assert_eq!(n.kind(), AstKind::AssignExpr);
    assert!(n.assignment_op().kind().is_assignment_op());
    assert_eq!(n.left_expr().tree_string(), "NameExpr{a}");
    assert_eq!(n.right_expr().tree_string(), "NameExpr{b}");
}

#[test]
fn comma_expr_node_renders_two_children() {
    let n = CommaExprNode::new(name_node("a", 0), name_node("b", 3));
    assert_eq!(n.tree_string(), "CommaExpr{NameExpr{a}, NameExpr{b}}");
    assert_eq!(n.kind(), AstKind::CommaExpr);
    assert_eq!(n.left_expr().tree_string(), "NameExpr{a}");
    assert_eq!(n.right_expr().tree_string(), "NameExpr{b}");
}

#[test]
fn write_tree_appends_to_the_given_string() {
    let n = NameExprNode::new(ident("z", 0));
    let mut s = String::from("prefix: ");
    n.write_tree(&mut s);
    assert_eq!(s, "prefix: NameExpr{z}");
}

#[test]
fn full_token_exposes_kind_text_position() {
    let t = FullToken::new(Token::PlusAssign, String::from("+="), 5);
    assert_eq!(t.kind(), Token::PlusAssign);
    assert_eq!(t.text(), "+=");
    assert_eq!(t.position(), 5);
    let mut s = String::new();
    t.write_token(&mut s);
    assert_eq!(s, "+=");
}

#[test]
fn token_classification_predicates() {
    assert!(Token::Identifier.is_identifier());
    assert!(!Token::VarKeyword.is_identifier());
    assert!(Token::Assign.is_assignment_op());
    assert!(Token::ShiftRightUnsignedAssign.is_assignment_op());
    assert!(!Token::Equal.is_assignment_op());
    assert_eq!(Token::LogicalOr.binary_precedence(), 1);
    assert_eq!(Token::Percent.binary_precedence(), 10);
    assert_eq!(Token::Semicolon.binary_precedence(), 0);
    assert_eq!(Token::End.binary_precedence(), 0);
}

#[test]
fn tokenizer_pulls_tokens_one_at_a_time() {
    let src = b"var answer /*gap*/ <<= zz2;".to_vec();
    let mut tok = Tokenizer::new(VecInputStream::new(src));
    let t1 = tok.next_token().expect("keyword");
    assert_eq!(t1.kind(), Token::VarKeyword);
    assert_eq!(t1.text(), "var");
    assert_eq!(t1.position(), 0);
    let t2 = tok.next_token().expect("identifier");
    assert_eq!(t2.kind(), Token::Identifier);
    assert_eq!(t2.text(), "answer");
    assert_eq!(t2.position(), 4);
    let t3 = tok.next_token().expect("operator");
    assert_eq!(t3.kind(), Token::ShiftLeftAssign);
    assert_eq!(t3.text(), "<<=");
    let t4 = tok.next_token().expect("identifier");
    assert_eq!(t4.kind(), Token::Identifier);
    assert_eq!(t4.text(), "zz2");
    let t5 = tok.next_token().expect("semicolon");
    assert_eq!(t5.kind(), Token::Semicolon);
    let t6 = tok.next_token().expect("end");
    assert_eq!(t6.kind(), Token::End);
    let again = tok.next_token().expect("end stays end");
    assert_eq!(again.kind(), Token::End);
}

#[test]
fn tokenizer_takes_the_longest_operator() {
    let src = b">>>= >>> >>= >> >= > === == = !== !=".to_vec();
    let mut tok = Tokenizer::new(VecInputStream::new(src));
    let expected = [
        Token::ShiftRightUnsignedAssign,
        Token::ShiftRightUnsigned,
        Token::ShiftRightAssign,
        Token::ShiftRight,
        Token::GreaterEqual,
        Token::Greater,
        Token::StrictEqual,
        Token::Equal,
        Token::Assign,
        Token::StrictNotEqual,
        Token::NotEqual,
        Token::End,
    ];
    for want in expected.iter() {
        let t = tok.next_token().expect("token");
        assert_eq!(t.kind(), *want);
    }
}

#[test]
fn tokenizer_reports_lexical_errors() {
    let mut tok = Tokenizer::new(VecInputStream::new(b"ok ~".to_vec()));
    assert_eq!(tok.next_token().expect("identifier").kind(), Token::Identifier);
    let err = tok.next_token().expect_err("tilde is no token");
    assert_eq!(err.pos, 3);
    let mut tok2 = Tokenizer::new(VecInputStream::new(b"! x".to_vec()));
    let err2 = tok2.next_token().expect_err("bare bang is no token");
    assert_eq!(err2.pos, 0);
}

#[test]
fn input_stream_cursor_behaviour() {
    let mut s = VecInputStream::new(vec![10, 20, 30]);
    assert_eq!(s.position(), 0);
    assert!(!s.at_end());
    assert_eq!(s.peek(), Some(10));
    assert_eq!(s.peek(), Some(10));
    assert_eq!(s.advance(), Some(10));
    assert_eq!(s.position(), 1);
    assert_eq!(s.advance(), Some(20));
    assert_eq!(s.advance(), Some(30));
    assert!(s.at_end());
    assert_eq!(s.peek(), None);
    assert_eq!(s.advance(), None);
    assert_eq!(s.position(), 3);
}
