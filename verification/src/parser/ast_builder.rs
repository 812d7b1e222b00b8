//! The parser: a recursive-descent, precedence-climbing builder of syntax
//! trees over the token stream.
//!
//! The grammar is written down once, as the `spec_parse_*` functions: total
//! mathematical functions from the source bytes and a position to either a
//! tree and the position right after it, or a parse error. Each executable
//! parse function is proved to return exactly what its specification says,
//! so `parse_program` is pinned down completely: one result for every input.
//!
//! Every specification-level step is wrapped so that a parse that consumed no
//! input would be the distinguished `Stuck` error; the executable functions
//! prove they always consume input, so `Stuck` is never actually produced.

use vstd::prelude::*;
use crate::parser::ast::{
    Ast, Node, ProgramNode, VarStmtNode, NameExprNode, BinaryOpExprNode, CondExprNode,
    AssignExprNode, CommaExprNode, EmptyStmtNode, BlockStmtNode, IfStmtNode, ExprStmtNode,
    node_view, is_expression, is_statement,
};
use crate::parser::input_stream::{StreamModel, VecInputStream};
use crate::parser::tokenizer::{
    FullToken, Token, TokenModel, Tokenizer, binary_prec, is_assign_op, scan, scan_token,
};

verus! {

/// What the parser was looking for when it found an unexpected token.
#[derive(Debug, Clone, Copy, PartialEq, Eq, Structural)]
pub enum Expected {
    /// A token that can start an expression.
    Expression,
    /// One specific token kind.
    Token(Token),
}

/// A parse failure: either the tokenizer could form no token, or a token
/// cannot start or continue the production being attempted.
#[derive(Debug)]
pub enum ParseError {
    /// A lexical error, at this byte position.
    Lexical { pos: usize },
    /// This token cannot stand here; `expected` names what the production
    /// was looking for.
    UnexpectedToken { token: FullToken, expected: Expected },
}

/// Mathematical model of a parse failure.
pub enum ParseErrorModel {
    Lexical { pos: int },
    UnexpectedToken { token: TokenModel, expected: Expected },
    /// A parse step that consumed no input. The executable parser proves
    /// progress at every step, so this error is never produced; it only
    /// makes the specification functions manifestly terminating.
    Stuck,
}

impl View for ParseError {
    type V = ParseErrorModel;

    open spec fn view(&self) -> ParseErrorModel {
        match self {
            ParseError::Lexical { pos } => ParseErrorModel::Lexical { pos: *pos as int },
            ParseError::UnexpectedToken { token, expected } => ParseErrorModel::UnexpectedToken {
                token: token@,
                expected: *expected,
            },
        }
    }
}

/// One specification-level tokenizer step, bounded: a token that is not
/// end-of-input consumes at least one byte and never passes the end.
pub open spec fn next_tok(s: Seq<u8>, p: int) -> Result<(TokenModel, int), ParseErrorModel> {
    match scan_token(s, p) {
        Ok(te) => {
            if (te.0.kind is End && p <= te.1 <= s.len()) || (p < te.1 <= s.len()) {
                Ok(te)
            } else {
                Err(ParseErrorModel::Stuck)
            }
        },
        Err(q) => Err(ParseErrorModel::Lexical { pos: q }),
    }
}

/// Bounds one specification-level production step: a successful parse from
/// position `p` must end strictly after `p` and inside the input.
pub open spec fn step(s: Seq<u8>, p: int, r: Result<(Ast, int), ParseErrorModel>) -> Result<
    (Ast, int),
    ParseErrorModel,
> {
    match r {
        Ok((a, q)) => {
            if p < q <= s.len() {
                Ok((a, q))
            } else {
                Err(ParseErrorModel::Stuck)
            }
        },
        Err(er) => Err(er),
    }
}

/// Primary expression: exactly one identifier, becoming a name expression.
pub open spec fn spec_parse_primary(s: Seq<u8>, p: int) -> Result<(Ast, int), ParseErrorModel> {
    match next_tok(s, p) {
        Ok((t, e)) => {
            if t.kind is Identifier {
                Ok((Ast::Name { tok: t }, e))
            } else {
                Err(ParseErrorModel::UnexpectedToken { token: t, expected: Expected::Expression })
            }
        },
        Err(er) => Err(er),
    }
}

/// The climbing half of the binary-expression parse: while the next token is
/// a binary operator binding at least as tightly as `min_prec`, parse its
/// right operand at the next higher floor and fold to the left.
pub open spec fn spec_parse_binary_ops(s: Seq<u8>, p: int, left: Ast, min_prec: int) -> Result<
    (Ast, int),
    ParseErrorModel,
>
    decreases s.len() - p, 1int,
{
    match next_tok(s, p) {
        Ok((t, e)) => {
            let pr = binary_prec(t.kind) as int;
            if 1 <= pr && min_prec <= pr {
                match step(s, e, spec_parse_binary_expr(s, e, pr + 1)) {
                    Ok((right, p2)) => spec_parse_binary_ops(
                        s,
                        p2,
                        Ast::BinaryOp { op: t, left: Box::new(left), right: Box::new(right) },
                        min_prec,
                    ),
                    Err(er) => Err(er),
                }
            } else {
                Ok((left, p))
            }
        },
        Err(er) => Err(er),
    }
}

/// A binary-operator expression over operators of precedence `min_prec` or
/// tighter: left-associative at each tier.
pub open spec fn spec_parse_binary_expr(s: Seq<u8>, p: int, min_prec: int) -> Result<
    (Ast, int),
    ParseErrorModel,
>
    decreases s.len() - p, 2int,
{
    match step(s, p, spec_parse_primary(s, p)) {
        Ok((left, p2)) => spec_parse_binary_ops(s, p2, left, min_prec),
        Err(er) => Err(er),
    }
}

/// A conditional expression: a binary expression, optionally followed by
/// `? AssignExpr : AssignExpr`.
pub open spec fn spec_parse_conditional(s: Seq<u8>, p: int) -> Result<(Ast, int), ParseErrorModel>
    decreases s.len() - p, 3int,
{
    match step(s, p, spec_parse_binary_expr(s, p, 1)) {
        Ok((c, p2)) => match next_tok(s, p2) {
            Ok((t, e)) => {
                if t.kind is Question {
                    match step(s, e, spec_parse_assignment(s, e)) {
                        Ok((tv, p3)) => match next_tok(s, p3) {
                            Ok((t2, e2)) => {
                                if t2.kind is Colon {
                                    match step(s, e2, spec_parse_assignment(s, e2)) {
                                        Ok((fv, p4)) => Ok(
                                            (
                                                Ast::Cond {
                                                    cond: Box::new(c),
                                                    if_true: Box::new(tv),
                                                    if_false: Box::new(fv),
                                                },
                                                p4,
                                            ),
                                        ),
                                        Err(er) => Err(er),
                                    }
                                } else {
                                    Err(ParseErrorModel::UnexpectedToken {
                                        token: t2,
                                        expected: Expected::Token(Token::Colon),
                                    })
                                }
                            },
                            Err(er) => Err(er),
                        },
                        Err(er) => Err(er),
                    }
                } else {
                    Ok((c, p2))
                }
            },
            Err(er) => Err(er),
        },
        Err(er) => Err(er),
    }
}

/// An assignment expression, right-associative: a conditional expression,
/// optionally followed by an assignment operator and a full assignment
/// expression.
pub open spec fn spec_parse_assignment(s: Seq<u8>, p: int) -> Result<(Ast, int), ParseErrorModel>
    decreases s.len() - p, 4int,
{
    match step(s, p, spec_parse_conditional(s, p)) {
        Ok((left, p2)) => match next_tok(s, p2) {
            Ok((t, e)) => {
                if is_assign_op(t.kind) {
                    match step(s, e, spec_parse_assignment(s, e)) {
                        Ok((right, p3)) => Ok(
                            (
                                Ast::Assign {
                                    op: t,
                                    left: Box::new(left),
                                    right: Box::new(right),
                                },
                                p3,
                            ),
                        ),
                        Err(er) => Err(er),
                    }
                } else {
                    Ok((left, p2))
                }
            },
            Err(er) => Err(er),
        },
        Err(er) => Err(er),
    }
}

/// The folding half of the comma-expression parse: while a comma follows,
/// parse another assignment expression and fold to the left.
pub open spec fn spec_parse_comma_ops(s: Seq<u8>, p: int, left: Ast) -> Result<
    (Ast, int),
    ParseErrorModel,
>
    decreases s.len() - p, 5int,
{
    match next_tok(s, p) {
        Ok((t, e)) => {
            if t.kind is Comma {
                match step(s, e, spec_parse_assignment(s, e)) {
                    Ok((right, p2)) => spec_parse_comma_ops(
                        s,
                        p2,
                        Ast::Comma { left: Box::new(left), right: Box::new(right) },
                    ),
                    Err(er) => Err(er),
                }
            } else {
                Ok((left, p))
            }
        },
        Err(er) => Err(er),
    }
}

/// A full expression: a comma-separated chain of assignment expressions,
/// left-associative.
pub open spec fn spec_parse_expression(s: Seq<u8>, p: int) -> Result<(Ast, int), ParseErrorModel>
    decreases s.len() - p, 6int,
{
    match step(s, p, spec_parse_assignment(s, p)) {
        Ok((left, p2)) => spec_parse_comma_ops(s, p2, left),
        Err(er) => Err(er),
    }
}

/// The declared names of a `var` statement, after the keyword: one
/// identifier, then either a comma and more names, or the closing semicolon.
pub open spec fn spec_parse_var_names(s: Seq<u8>, p: int, names: Seq<TokenModel>) -> Result<
    (Ast, int),
    ParseErrorModel,
>
    decreases s.len() - p, 7int,
{
    match next_tok(s, p) {
        Ok((t, e)) => {
            if t.kind is Identifier {
                match next_tok(s, e) {
                    Ok((t2, e2)) => {
                        if t2.kind is Comma {
                            spec_parse_var_names(s, e2, names.push(t))
                        } else if t2.kind is Semicolon {
                            Ok((Ast::Var { names: names.push(t) }, e2))
                        } else {
                            Err(ParseErrorModel::UnexpectedToken {
                                token: t2,
                                expected: Expected::Token(Token::Semicolon),
                            })
                        }
                    },
                    Err(er) => Err(er),
                }
            } else {
                Err(ParseErrorModel::UnexpectedToken {
                    token: t,
                    expected: Expected::Token(Token::Identifier),
                })
            }
        },
        Err(er) => Err(er),
    }
}

/// One statement, dispatched on the current token without consuming it:
/// `{ }`, a `var` statement, an empty statement, a one-armed `if`, or an
/// expression statement closed by `;`.
pub open spec fn spec_parse_statement(s: Seq<u8>, p: int) -> Result<(Ast, int), ParseErrorModel>
    decreases s.len() - p, 8int,
{
    match next_tok(s, p) {
        Ok((t, e)) => match t.kind {
            Token::OpenBrace => match next_tok(s, e) {
                Ok((t2, e2)) => {
                    if t2.kind is CloseBrace {
                        Ok((Ast::Block, e2))
                    } else {
                        Err(ParseErrorModel::UnexpectedToken {
                            token: t2,
                            expected: Expected::Token(Token::CloseBrace),
                        })
                    }
                },
                Err(er) => Err(er),
            },
            Token::VarKeyword => spec_parse_var_names(s, e, Seq::empty()),
            Token::Semicolon => Ok((Ast::Empty, e)),
            Token::IfKeyword => match next_tok(s, e) {
                Ok((t2, e2)) => {
                    if t2.kind is OpenParen {
                        match step(s, e2, spec_parse_expression(s, e2)) {
                            Ok((c, p3)) => match next_tok(s, p3) {
                                Ok((t3, e3)) => {
                                    if t3.kind is CloseParen {
                                        match step(s, e3, spec_parse_statement(s, e3)) {
                                            Ok((body, p4)) => Ok(
                                                (
                                                    Ast::If {
                                                        cond: Box::new(c),
                                                        body: Box::new(body),
                                                    },
                                                    p4,
                                                ),
                                            ),
                                            Err(er) => Err(er),
                                        }
                                    } else {
                                        Err(ParseErrorModel::UnexpectedToken {
                                            token: t3,
                                            expected: Expected::Token(Token::CloseParen),
                                        })
                                    }
                                },
                                Err(er) => Err(er),
                            },
                            Err(er) => Err(er),
                        }
                    } else {
                        Err(ParseErrorModel::UnexpectedToken {
                            token: t2,
                            expected: Expected::Token(Token::OpenParen),
                        })
                    }
                },
                Err(er) => Err(er),
            },
            _ => match step(s, p, spec_parse_expression(s, p)) {
                Ok((ex, p2)) => match next_tok(s, p2) {
                    Ok((t2, e2)) => {
                        if t2.kind is Semicolon {
                            Ok((Ast::ExprStmt { expr: Box::new(ex) }, e2))
                        } else {
                            Err(ParseErrorModel::UnexpectedToken {
                                token: t2,
                                expected: Expected::Token(Token::Semicolon),
                            })
                        }
                    },
                    Err(er) => Err(er),
                },
                Err(er) => Err(er),
            },
        },
        Err(er) => Err(er),
    }
}

/// The source elements of a program from position `p` on: statements until
/// end of input; anything that is not a statement there is a parse error, so
/// trailing unconsumed input is never silently dropped.
pub open spec fn spec_parse_source_elements(s: Seq<u8>, p: int, acc: Seq<Ast>) -> Result<
    (Ast, int),
    ParseErrorModel,
>
    decreases s.len() - p, 9int,
{
    match next_tok(s, p) {
        Ok((t, e)) => {
            if t.kind is End {
                Ok((Ast::Program { elems: acc }, e))
            } else {
                match step(s, p, spec_parse_statement(s, p)) {
                    Ok((st, p2)) => spec_parse_source_elements(s, p2, acc.push(st)),
                    Err(er) => Err(er),
                }
            }
        },
        Err(er) => Err(er),
    }
}

/// What parsing a whole source buffer returns: the program tree, or the
/// first lexical or syntax error.
pub open spec fn spec_parse_program(s: Seq<u8>) -> Result<Ast, ParseErrorModel> {
    match spec_parse_source_elements(s, 0, Seq::empty()) {
        Ok((a, _)) => Ok(a),
        Err(er) => Err(er),
    }
}

/// Parsing then rendering is deterministic: the result is a function of the
/// source bytes alone, so equal sources yield equal trees and hence the
/// identical rendered string.
pub proof fn lemma_parse_render_deterministic(s1: Seq<u8>, s2: Seq<u8>, a1: Ast, a2: Ast)
    requires
        s1 == s2,
        spec_parse_program(s1) == Ok::<Ast, ParseErrorModel>(a1),
        spec_parse_program(s2) == Ok::<Ast, ParseErrorModel>(a2),
    ensures
        spec_parse_program(s1) == spec_parse_program(s2),
        a1 == a2,
        crate::parser::ast::render(a1) == crate::parser::ast::render(a2),
{
}

/// The model of an executable parse result.
pub open spec fn parse_result_model(r: Result<(Node, usize), ParseError>) -> Result<
    (Ast, int),
    ParseErrorModel,
> {
    match r {
        Ok((n, p)) => Ok((node_view(n), p as int)),
        Err(er) => Err(er@),
    }
}

/// Primary expression: one identifier token, as a name expression.
fn parse_primary(bytes: &Vec<u8>, pos: usize) -> (r: Result<(Node, usize), ParseError>)
    requires
        pos <= bytes@.len(),
    ensures
        parse_result_model(r) == spec_parse_primary(bytes@, pos as int),
        r matches Ok(np) ==> pos < np.1 <= bytes@.len() && is_expression(node_view(np.0)),
{
    match scan(bytes, pos) {
        Ok((t, e)) => {
            if t.kind().is_identifier() {
                Ok((Node::Name(NameExprNode::new(t)), e))
            } else {
                Err(ParseError::UnexpectedToken { token: t, expected: Expected::Expression })
            }
        },
        Err(q) => Err(ParseError::Lexical { pos: q }),
    }
}

/// A binary-operator expression by precedence climbing over the floor
/// `min_prec`, left-associative within each tier.
#[verifier::loop_isolation(false)]
fn parse_binary_expr(bytes: &Vec<u8>, pos: usize, min_prec: u32) -> (r: Result<
    (Node, usize),
    ParseError,
>)
    requires
        pos <= bytes@.len(),
    ensures
        parse_result_model(r) == spec_parse_binary_expr(bytes@, pos as int, min_prec as int),
        r matches Ok(np) ==> pos < np.1 <= bytes@.len() && is_expression(node_view(np.0)),
    decreases bytes@.len() - pos,
{
    let ghost s = bytes@;
    let ghost target = spec_parse_binary_expr(s, pos as int, min_prec as int);
    let (mut node, mut p): (Node, usize) = match parse_primary(bytes, pos) {
        Ok(np) => np,
        Err(er) => {
            return Err(er);
        },
    };
    loop
        invariant
            pos < p <= s.len(),
            s == bytes@,
            is_expression(node_view(node)),
            spec_parse_binary_ops(s, p as int, node_view(node), min_prec as int) == target,
        decreases s.len() - p,
    {
        match scan(bytes, p) {
            Ok((t, e)) => {
                let pr = t.kind().binary_precedence();
                if 1 <= pr && min_prec <= pr {
                    match parse_binary_expr(bytes, e, pr + 1) {
                        Ok((right, p2)) => {
                            node = Node::BinaryOp(
                                BinaryOpExprNode::new(t, Box::new(node), Box::new(right)),
                            );
                            p = p2;
                        },
                        Err(er) => {
                            return Err(er);
                        },
                    }
                } else {
                    return Ok((node, p));
                }
            },
            Err(q) => {
                return Err(ParseError::Lexical { pos: q });
            },
        }
    }
}

/// A conditional expression: a binary expression, optionally followed by
/// `? AssignExpr : AssignExpr`.
fn parse_conditional(bytes: &Vec<u8>, pos: usize) -> (r: Result<(Node, usize), ParseError>)
    requires
        pos <= bytes@.len(),
    ensures
        parse_result_model(r) == spec_parse_conditional(bytes@, pos as int),
        r matches Ok(np) ==> pos < np.1 <= bytes@.len() && is_expression(node_view(np.0)),
    decreases bytes@.len() - pos, 0int,
{
    let (c, cp): (Node, usize) = match parse_binary_expr(bytes, pos, 1) {
        Ok(np) => np,
        Err(er) => {
            return Err(er);
        },
    };
    match scan(bytes, cp) {
        Ok((t, e)) => {
            if t.kind() == Token::Question {
                let (tv, tp): (Node, usize) = match parse_assignment(bytes, e) {
                    Ok(np) => np,
                    Err(er) => {
                        return Err(er);
                    },
                };
                match scan(bytes, tp) {
                    Ok((t2, e2)) => {
                        if t2.kind() == Token::Colon {
                            let (fv, fp): (Node, usize) = match parse_assignment(bytes, e2) {
                                Ok(np) => np,
                                Err(er) => {
                                    return Err(er);
                                },
                            };
                            Ok(
                                (
                                    Node::Cond(
                                        CondExprNode::new(
                                            Box::new(c),
                                            Box::new(tv),
                                            Box::new(fv),
                                        ),
                                    ),
                                    fp,
                                ),
                            )
                        } else {
                            Err(ParseError::UnexpectedToken {
                                token: t2,
                                expected: Expected::Token(Token::Colon),
                            })
                        }
                    },
                    Err(q) => Err(ParseError::Lexical { pos: q }),
                }
            } else {
                Ok((c, cp))
            }
        },
        Err(q) => Err(ParseError::Lexical { pos: q }),
    }
}

/// An assignment expression, right-associative.
fn parse_assignment(bytes: &Vec<u8>, pos: usize) -> (r: Result<(Node, usize), ParseError>)
    requires
        pos <= bytes@.len(),
    ensures
        parse_result_model(r) == spec_parse_assignment(bytes@, pos as int),
        r matches Ok(np) ==> pos < np.1 <= bytes@.len() && is_expression(node_view(np.0)),
    decreases bytes@.len() - pos, 1int,
{
    let (left, lp): (Node, usize) = match parse_conditional(bytes, pos) {
        Ok(np) => np,
        Err(er) => {
            return Err(er);
        },
    };
    match scan(bytes, lp) {
        Ok((t, e)) => {
            if t.kind().is_assignment_op() {
                let (right, rp): (Node, usize) = match parse_assignment(bytes, e) {
                    Ok(np) => np,
                    Err(er) => {
                        return Err(er);
                    },
                };
                Ok(
                    (
                        Node::Assign(AssignExprNode::new(t, Box::new(left), Box::new(right))),
                        rp,
                    ),
                )
            } else {
                Ok((left, lp))
            }
        },
        Err(q) => Err(ParseError::Lexical { pos: q }),
    }
}

/// A full expression: a comma chain of assignment expressions, folded left.
#[verifier::loop_isolation(false)]
fn parse_expression(bytes: &Vec<u8>, pos: usize) -> (r: Result<(Node, usize), ParseError>)
    requires
        pos <= bytes@.len(),
    ensures
        parse_result_model(r) == spec_parse_expression(bytes@, pos as int),
        r matches Ok(np) ==> pos < np.1 <= bytes@.len() && is_expression(node_view(np.0)),
    decreases bytes@.len() - pos, 2int,
{
    let ghost s = bytes@;
    let ghost target = spec_parse_expression(s, pos as int);
    let (mut node, mut p): (Node, usize) = match parse_assignment(bytes, pos) {
        Ok(np) => np,
        Err(er) => {
            return Err(er);
        },
    };
    loop
        invariant
            pos < p <= s.len(),
            s == bytes@,
            is_expression(node_view(node)),
            spec_parse_comma_ops(s, p as int, node_view(node)) == target,
        decreases s.len() - p,
    {
        match scan(bytes, p) {
            Ok((t, e)) => {
                if t.kind() == Token::Comma {
                    match parse_assignment(bytes, e) {
                        Ok((right, p2)) => {
                            node = Node::Comma(CommaExprNode::new(Box::new(node), Box::new(right)));
                            p = p2;
                        },
                        Err(er) => {
                            return Err(er);
                        },
                    }
                } else {
                    return Ok((node, p));
                }
            },
            Err(q) => {
                return Err(ParseError::Lexical { pos: q });
            },
        }
    }
}

/// The declared names of a `var` statement, after the keyword: identifiers
/// separated by commas, closed by a semicolon, appended to the node in
/// declaration order.
#[verifier::loop_isolation(false)]
fn parse_var_names(bytes: &Vec<u8>, pos: usize) -> (r: Result<(Node, usize), ParseError>)
    requires
        pos <= bytes@.len(),
    ensures
        parse_result_model(r) == spec_parse_var_names(bytes@, pos as int, Seq::empty()),
        r matches Ok(np) ==> pos < np.1 <= bytes@.len() && is_statement(node_view(np.0)),
{
    let ghost s = bytes@;
    let ghost target = spec_parse_var_names(s, pos as int, Seq::empty());
    let mut vars = VarStmtNode::new();
    let mut p = pos;
    loop
        invariant
            pos <= p <= s.len(),
            s == bytes@,
            vars@ matches Ast::Var { names } && spec_parse_var_names(s, p as int, names) == target,
        decreases s.len() - p,
    {
        match scan(bytes, p) {
            Ok((t, e)) => {
                if t.kind().is_identifier() {
                    match scan(bytes, e) {
                        Ok((t2, e2)) => {
                            if t2.kind() == Token::Comma {
                                vars.add_variable(t);
                                p = e2;
                            } else if t2.kind() == Token::Semicolon {
                                vars.add_variable(t);
                                return Ok((Node::Var(vars), e2));
                            } else {
                                return Err(ParseError::UnexpectedToken {
                                    token: t2,
                                    expected: Expected::Token(Token::Semicolon),
                                });
                            }
                        },
                        Err(q) => {
                            return Err(ParseError::Lexical { pos: q });
                        },
                    }
                } else {
                    return Err(ParseError::UnexpectedToken {
                        token: t,
                        expected: Expected::Token(Token::Identifier),
                    });
                }
            },
            Err(q) => {
                return Err(ParseError::Lexical { pos: q });
            },
        }
    }
}

/// One statement, dispatched on the current token without consuming it.
fn parse_statement(bytes: &Vec<u8>, pos: usize) -> (r: Result<(Node, usize), ParseError>)
    requires
        pos <= bytes@.len(),
    ensures
        parse_result_model(r) == spec_parse_statement(bytes@, pos as int),
        r matches Ok(np) ==> pos < np.1 <= bytes@.len() && is_statement(node_view(np.0)),
    decreases bytes@.len() - pos,
{
    match scan(bytes, pos) {
        Err(q) => Err(ParseError::Lexical { pos: q }),
        Ok((t, e)) => {
            match t.kind() {
                Token::OpenBrace => {
                    match scan(bytes, e) {
                        Ok((t2, e2)) => {
                            if t2.kind() == Token::CloseBrace {
                                Ok((Node::Block(BlockStmtNode::new()), e2))
                            } else {
                                Err(ParseError::UnexpectedToken {
                                    token: t2,
                                    expected: Expected::Token(Token::CloseBrace),
                                })
                            }
                        },
                        Err(q) => Err(ParseError::Lexical { pos: q }),
                    }
                },
                Token::VarKeyword => parse_var_names(bytes, e),
                Token::Semicolon => Ok((Node::Empty(EmptyStmtNode::new()), e)),
                Token::IfKeyword => {
                    match scan(bytes, e) {
                        Ok((t2, e2)) => {
                            if t2.kind() == Token::OpenParen {
                                match parse_expression(bytes, e2) {
                                    Ok((c, p3)) => {
                                        match scan(bytes, p3) {
                                            Ok((t3, e3)) => {
                                                if t3.kind() == Token::CloseParen {
                                                    match parse_statement(bytes, e3) {
                                                        Ok((body, p4)) => Ok(
                                                            (
                                                                Node::If(
                                                                    IfStmtNode::new_if(
                                                                        Box::new(c),
                                                                        Box::new(body),
                                                                    ),
                                                                ),
                                                                p4,
                                                            ),
                                                        ),
                                                        Err(er) => Err(er),
                                                    }
                                                } else {
                                                    Err(ParseError::UnexpectedToken {
                                                        token: t3,
                                                        expected: Expected::Token(
                                                            Token::CloseParen,
                                                        ),
                                                    })
                                                }
                                            },
                                            Err(q) => Err(ParseError::Lexical { pos: q }),
                                        }
                                    },
                                    Err(er) => Err(er),
                                }
                            } else {
                                Err(ParseError::UnexpectedToken {
                                    token: t2,
                                    expected: Expected::Token(Token::OpenParen),
                                })
                            }
                        },
                        Err(q) => Err(ParseError::Lexical { pos: q }),
                    }
                },
                _ => {
                    match parse_expression(bytes, pos) {
                        Ok((ex, p2)) => {
                            match scan(bytes, p2) {
                                Ok((t2, e2)) => {
                                    if t2.kind() == Token::Semicolon {
                                        Ok((Node::ExprStmt(ExprStmtNode::new(Box::new(ex))), e2))
                                    } else {
                                        Err(ParseError::UnexpectedToken {
                                            token: t2,
                                            expected: Expected::Token(Token::Semicolon),
                                        })
                                    }
                                },
                                Err(q) => Err(ParseError::Lexical { pos: q }),
                            }
                        },
                        Err(er) => Err(er),
                    }
                },
            }
        },
    }
}

/// The builder: drives the tokenizer over its input stream and assembles one
/// `ProgramNode`, or stops at the first lexical or syntax error.
pub struct AstBuilder {
    pub tokenizer: Tokenizer,
}

impl View for AstBuilder {
    type V = StreamModel;

    open spec fn view(&self) -> StreamModel {
        self.tokenizer@
    }
}

impl AstBuilder {
    pub open spec fn wf(&self) -> bool {
        0 <= self@.pos <= self@.bytes.len()
    }

    /// Takes ownership of the input stream the parse will consume.
    pub fn new(stream: VecInputStream) -> (b: AstBuilder)
        requires
            stream.wf(),
        ensures
            b@ == stream@,
            b.wf(),
    {
        AstBuilder { tokenizer: Tokenizer::new(stream) }
    }

    /// Consumes the entire token stream and returns the program tree, or the
    /// first lexical or syntax error; trailing input after the last
    /// statement is itself a parse error, never silently dropped.
    #[verifier::loop_isolation(false)]
    pub fn parse_program(&mut self) -> (r: Result<ProgramNode, ParseError>)
        requires
            old(self).wf(),
        ensures
            final(self).wf(),
            final(self)@.bytes == old(self)@.bytes,
            (match spec_parse_source_elements(old(self)@.bytes, old(self)@.pos, Seq::empty()) {
                Ok(ap) => {
                    &&& r matches Ok(p) && p@ == ap.0
                    &&& final(self)@.pos == ap.1
                },
                Err(er) => r matches Err(pe) && pe@ == er,
            }),
            old(self)@.pos == 0 ==> (match spec_parse_program(old(self)@.bytes) {
                Ok(a) => r matches Ok(p) && p@ == a,
                Err(er) => r matches Err(pe) && pe@ == er,
            }),
    {
        let ghost s = self.tokenizer.stream.bytes@;
        let ghost target = spec_parse_source_elements(s, old(self)@.pos, Seq::empty());
        let mut program = ProgramNode::new();
        loop
            invariant
                self.tokenizer.stream.pos <= self.tokenizer.stream.bytes@.len(),
                self.tokenizer.stream.bytes@ == s,
                program@ matches Ast::Program { elems } && spec_parse_source_elements(
                    s,
                    self.tokenizer.stream.pos as int,
                    elems,
                ) == target,
            decreases s.len() - self.tokenizer.stream.pos,
        {
            match scan(&self.tokenizer.stream.bytes, self.tokenizer.stream.pos) {
                Ok((t, e)) => {
                    if t.kind() == Token::End {
                        self.tokenizer.stream.pos = e;
                        return Ok(program);
                    } else {
                        match parse_statement(
                            &self.tokenizer.stream.bytes,
                            self.tokenizer.stream.pos,
                        ) {
                            Ok((n, p2)) => {
                                program.add_source_element(Box::new(n));
                                self.tokenizer.stream.pos = p2;
                            },
                            Err(er) => {
                                return Err(er);
                            },
                        }
                    }
                },
                Err(q) => {
                    return Err(ParseError::Lexical { pos: q });
                },
            }
        }
    }
}

} // verus!
