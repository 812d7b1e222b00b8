//! The syntax-tree node model: one struct per node kind, a closed enum over
//! them, and the canonical tree-string rendering.
//!
//! `Ast` is the mathematical model of a tree: what each node is, stripped of
//! representation detail. Every node struct views to an `Ast`, and `render`
//! says exactly which string a tree prints as; the executable `write_tree`
//! implementations are proved to emit `render` of their model.

use vstd::prelude::*;
use crate::parser::tokenizer::{FullToken, TokenModel, is_assign_op};

verus! {

broadcast use
    vstd::seq::group_seq_axioms,
    vstd::seq_lib::group_seq_lib_default,
    vstd::std_specs::vec::group_vec_axioms,
;

/// The tag of a syntax-tree node kind.
#[derive(Debug, Clone, Copy, PartialEq, Eq, Structural)]
pub enum AstKind {
    Program,
    BlockStmt,
    VarStmt,
    EmptyStmt,
    IfStmt,
    ExprStmt,
    BinaryOpExpr,
    CondExpr,
    AssignExpr,
    CommaExpr,
    NameExpr,
}

/// Mathematical model of a syntax tree.
#[verifier::ext_equal]
pub enum Ast {
    Program { elems: Seq<Ast> },
    Block,
    Var { names: Seq<TokenModel> },
    Empty,
    If { cond: Box<Ast>, body: Box<Ast> },
    ExprStmt { expr: Box<Ast> },
    BinaryOp { op: TokenModel, left: Box<Ast>, right: Box<Ast> },
    Cond { cond: Box<Ast>, if_true: Box<Ast>, if_false: Box<Ast> },
    Assign { op: TokenModel, left: Box<Ast>, right: Box<Ast> },
    Comma { left: Box<Ast>, right: Box<Ast> },
    Name { tok: TokenModel },
}

/// The kind tag of a tree.
pub open spec fn kind_of(a: Ast) -> AstKind {
    match a {
        Ast::Program { .. } => AstKind::Program,
        Ast::Block => AstKind::BlockStmt,
        Ast::Var { .. } => AstKind::VarStmt,
        Ast::Empty => AstKind::EmptyStmt,
        Ast::If { .. } => AstKind::IfStmt,
        Ast::ExprStmt { .. } => AstKind::ExprStmt,
        Ast::BinaryOp { .. } => AstKind::BinaryOpExpr,
        Ast::Cond { .. } => AstKind::CondExpr,
        Ast::Assign { .. } => AstKind::AssignExpr,
        Ast::Comma { .. } => AstKind::CommaExpr,
        Ast::Name { .. } => AstKind::NameExpr,
    }
}

/// Statements: everything a program element may be. The root `Program` is
/// neither a statement nor an expression.
pub open spec fn is_statement(a: Ast) -> bool {
    match a {
        Ast::Block | Ast::Var { .. } | Ast::Empty | Ast::If { .. } | Ast::ExprStmt { .. } => true,
        _ => false,
    }
}

/// Expressions: the operand forms of the expression ladder.
pub open spec fn is_expression(a: Ast) -> bool {
    match a {
        Ast::BinaryOp { .. } | Ast::Cond { .. } | Ast::Assign { .. } | Ast::Comma { .. }
            | Ast::Name { .. } => true,
        _ => false,
    }
}

/// No tree is both a statement and an expression.
pub proof fn lemma_statement_expression_exclusive(a: Ast)
    ensures
        !(is_statement(a) && is_expression(a)),
{
}

/// The models of a sequence of owned child nodes.
pub open spec fn views_of(s: Seq<Box<Node>>) -> Seq<Ast>
    decreases s,
{
    if s.len() == 0 {
        Seq::empty()
    } else {
        views_of(s.subrange(0, s.len() - 1)).push(node_view(*s[s.len() - 1]))
    }
}

/// The models of a sequence of owned tokens.
pub open spec fn tokens_view(s: Seq<Box<FullToken>>) -> Seq<TokenModel> {
    Seq::new(s.len(), |i: int| s[i]@)
}

/// The model of one node.
pub open spec fn node_view(n: Node) -> Ast
    decreases n,
{
    match n {
        Node::Program(p) => Ast::Program { elems: views_of(p.source_elements@) },
        Node::Block(_) => Ast::Block,
        Node::Var(v) => Ast::Var { names: tokens_view(v.variables@) },
        Node::Empty(_) => Ast::Empty,
        Node::If(i) => Ast::If {
            cond: Box::new(node_view(*i.cond_expr)),
            body: Box::new(node_view(*i.if_true_stmt)),
        },
        Node::ExprStmt(e) => Ast::ExprStmt { expr: Box::new(node_view(*e.expr)) },
        Node::BinaryOp(b) => Ast::BinaryOp {
            op: b.binary_op@,
            left: Box::new(node_view(*b.left_expr)),
            right: Box::new(node_view(*b.right_expr)),
        },
        Node::Cond(c) => Ast::Cond {
            cond: Box::new(node_view(*c.cond_expr)),
            if_true: Box::new(node_view(*c.if_expr)),
            if_false: Box::new(node_view(*c.else_expr)),
        },
        Node::Assign(a) => Ast::Assign {
            op: a.assign_op@,
            left: Box::new(node_view(*a.left_expr)),
            right: Box::new(node_view(*a.right_expr)),
        },
        Node::Comma(c) => Ast::Comma {
            left: Box::new(node_view(*c.left_expr)),
            right: Box::new(node_view(*c.right_expr)),
        },
        Node::Name(n) => Ast::Name { tok: n.name@ },
    }
}

/// The canonical tree string of a tree: `Kind{children}` with `", "` between
/// children and no trailing separator, `Kind(token){children}` for the node
/// kinds that carry an operator token, and `If(condition){body}`.
pub open spec fn render(a: Ast) -> Seq<char>
    decreases a,
{
    match a {
        Ast::Program { elems } => "ProgramNode{"@ + render_list(elems) + "}"@,
        Ast::Block => "Block{}"@,
        Ast::Var { names } => "Var{"@ + render_names(names) + "}"@,
        Ast::Empty => "Empty{}"@,
        Ast::If { cond, body } => "If("@ + render(*cond) + "){"@ + render(*body) + "}"@,
        Ast::ExprStmt { expr } => "ExprStmt{"@ + render(*expr) + "}"@,
        Ast::BinaryOp { op, left, right } => "BinaryOpExpr("@ + op.text + "){"@ + render(*left)
            + ", "@ + render(*right) + "}"@,
        Ast::Cond { cond, if_true, if_false } => "CondExpr{"@ + render(*cond) + ", "@ + render(
            *if_true,
        ) + ", "@ + render(*if_false) + "}"@,
        Ast::Assign { op, left, right } => "AssignExpr("@ + op.text + "){"@ + render(*left) + ", "@
            + render(*right) + "}"@,
        Ast::Comma { left, right } => "CommaExpr{"@ + render(*left) + ", "@ + render(*right)
            + "}"@,
        Ast::Name { tok } => "NameExpr{"@ + tok.text + "}"@,
    }
}

/// The rendering of a child list, children in order, `", "` between them.
pub open spec fn render_list(elems: Seq<Ast>) -> Seq<char>
    decreases elems,
{
    if elems.len() == 0 {
        Seq::empty()
    } else if elems.len() == 1 {
        render(elems[0])
    } else {
        render_list(elems.subrange(0, elems.len() - 1)) + ", "@ + render(elems[elems.len() - 1])
    }
}

/// The rendering of a declared-variable list: the token texts in order,
/// `", "` between them.
pub open spec fn render_names(names: Seq<TokenModel>) -> Seq<char>
    decreases names.len(),
{
    if names.len() == 0 {
        Seq::empty()
    } else if names.len() == 1 {
        names[0].text
    } else {
        render_names(names.subrange(0, names.len() - 1)) + ", "@ + names[names.len() - 1].text
    }
}

pub proof fn lemma_render_list_push(s: Seq<Ast>, a: Ast)
    ensures
        render_list(s.push(a)) == if s.len() == 0 {
            render(a)
        } else {
            render_list(s) + ", "@ + render(a)
        },
{
    let t = s.push(a);
    assert(t.subrange(0, t.len() - 1) =~= s);
    assert(t[t.len() - 1] == a);
}

pub proof fn lemma_render_names_push(s: Seq<TokenModel>, t: TokenModel)
    ensures
        render_names(s.push(t)) == if s.len() == 0 {
            t.text
        } else {
            render_names(s) + ", "@ + t.text
        },
{
    let u = s.push(t);
    assert(u.subrange(0, u.len() - 1) =~= s);
    assert(u[u.len() - 1] == t);
}

pub proof fn lemma_views_of_push(s: Seq<Box<Node>>, n: Box<Node>)
    ensures
        views_of(s.push(n)) == views_of(s).push(node_view(*n)),
{
    let t = s.push(n);
    assert(t.subrange(0, t.len() - 1) =~= s);
    assert(t[t.len() - 1] == n);
}

/// `views_of` keeps length and maps each element to its model.
pub proof fn lemma_views_of_len(s: Seq<Box<Node>>)
    ensures
        views_of(s).len() == s.len(),
    decreases s,
{
    if s.len() > 0 {
        lemma_views_of_len(s.subrange(0, s.len() - 1));
    }
}

pub proof fn lemma_views_of_index(s: Seq<Box<Node>>, i: int)
    requires
        0 <= i < s.len(),
    ensures
        views_of(s).len() == s.len(),
        views_of(s)[i] == node_view(*s[i]),
    decreases s,
{
    lemma_views_of_len(s);
    let sub = s.subrange(0, s.len() - 1);
    if i < s.len() - 1 {
        lemma_views_of_index(sub, i);
    }
}

pub proof fn lemma_tokens_view_push(s: Seq<Box<FullToken>>, t: Box<FullToken>)
    ensures
        tokens_view(s.push(t)) == tokens_view(s).push(t@),
{
    assert(tokens_view(s.push(t)) =~= tokens_view(s).push(t@));
}

/// The behaviour common to every syntax-tree node: its model, its kind tag,
/// its category, and the canonical rendering of the subtree it roots.
pub trait AstNode {
    /// The node's mathematical model.
    spec fn model(&self) -> Ast;

    /// The node's kind tag.
    fn kind(&self) -> (k: AstKind)
        ensures
            k == kind_of(self.model()),
    ;

    /// True when the node is a statement.
    fn is_statement(&self) -> (r: bool)
        ensures
            r == is_statement(self.model()),
    ;

    /// True when the node is an expression.
    fn is_expression(&self) -> (r: bool)
        ensures
            r == is_expression(self.model()),
    ;

    /// Appends the canonical tree string of this subtree to `w`.
    fn write_tree(&self, w: &mut String)
        ensures
            final(w)@ == old(w)@ + render(self.model()),
    ;

    /// The canonical tree string of this subtree.
    fn tree_string(&self) -> (r: String)
        ensures
            r@ == render(self.model()),
    ;
}

/// A syntax-tree node: the closed set of node kinds.
pub enum Node {
    Program(ProgramNode),
    Block(BlockStmtNode),
    Var(VarStmtNode),
    Empty(EmptyStmtNode),
    If(IfStmtNode),
    ExprStmt(ExprStmtNode),
    BinaryOp(BinaryOpExprNode),
    Cond(CondExprNode),
    Assign(AssignExprNode),
    Comma(CommaExprNode),
    Name(NameExprNode),
}

impl View for Node {
    type V = Ast;

    open spec fn view(&self) -> Ast {
        node_view(*self)
    }
}

/// Appends the canonical tree string of `n` to `w`.
pub fn write_node(n: &Node, w: &mut String)
    ensures
        final(w)@ == old(w)@ + render(node_view(*n)),
    decreases *n, 0int,
{
    match n {
        Node::Program(p) => p.write_tree(w),
        Node::Block(b) => b.write_tree(w),
        Node::Var(v) => v.write_tree(w),
        Node::Empty(e) => e.write_tree(w),
        Node::If(i) => i.write_tree(w),
        Node::ExprStmt(e) => e.write_tree(w),
        Node::BinaryOp(b) => b.write_tree(w),
        Node::Cond(c) => c.write_tree(w),
        Node::Assign(a) => a.write_tree(w),
        Node::Comma(c) => c.write_tree(w),
        Node::Name(x) => x.write_tree(w),
    }
}

impl AstNode for Node {
    open spec fn model(&self) -> Ast {
        node_view(*self)
    }

    fn kind(&self) -> (k: AstKind) {
        match self {
            Node::Program(p) => p.kind(),
            Node::Block(b) => b.kind(),
            Node::Var(v) => v.kind(),
            Node::Empty(e) => e.kind(),
            Node::If(i) => i.kind(),
            Node::ExprStmt(e) => e.kind(),
            Node::BinaryOp(b) => b.kind(),
            Node::Cond(c) => c.kind(),
            Node::Assign(a) => a.kind(),
            Node::Comma(c) => c.kind(),
            Node::Name(x) => x.kind(),
        }
    }

    fn is_statement(&self) -> (r: bool) {
        match self {
            Node::Program(_) => false,
            Node::Block(_) | Node::Var(_) | Node::Empty(_) | Node::If(_) | Node::ExprStmt(_) => {
                true
            },
            _ => false,
        }
    }

    fn is_expression(&self) -> (r: bool) {
        match self {
            Node::BinaryOp(_) | Node::Cond(_) | Node::Assign(_) | Node::Comma(_) | Node::Name(_)
                => true,
            _ => false,
        }
    }

    fn write_tree(&self, w: &mut String)
        decreases *self, 1int,
    {
        write_node(self, w);
    }

    fn tree_string(&self) -> (r: String) {
        let mut s = String::new();
        self.write_tree(&mut s);
        s
    }
}

/// The root node: an ordered sequence of top-level source elements, built
/// incrementally while the program is being recognized.
pub struct ProgramNode {
    pub source_elements: Vec<Box<Node>>,
}

impl ProgramNode {
    pub fn new() -> (n: ProgramNode)
        ensures
            n@ == (Ast::Program { elems: Seq::<Ast>::empty() }),
    {
        let n = ProgramNode { source_elements: Vec::new() };
        proof {
            assert(views_of(n.source_elements@) =~= Seq::<Ast>::empty());
        }
        n
    }

    pub fn source_elements(&self) -> (r: &Vec<Box<Node>>)
        ensures
            self@ matches Ast::Program { elems } && views_of(r@) == elems,
    {
        &self.source_elements
    }

    pub fn add_source_element(&mut self, source_element: Box<Node>)
        ensures
            final(self)@ matches Ast::Program { elems } && old(self)@ matches Ast::Program {
                elems: old_elems,
            } && elems == old_elems.push(source_element@),
    {
        proof {
            lemma_views_of_push(self.source_elements@, source_element);
        }
        self.source_elements.push(source_element);
    }
}

impl View for ProgramNode {
    type V = Ast;

    open spec fn view(&self) -> Ast {
        Ast::Program { elems: views_of(self.source_elements@) }
    }
}

impl AstNode for ProgramNode {
    open spec fn model(&self) -> Ast {
        self@
    }

    fn kind(&self) -> (k: AstKind) {
        AstKind::Program
    }

    fn is_statement(&self) -> (r: bool) {
        false
    }

    fn is_expression(&self) -> (r: bool) {
        false
    }

    fn write_tree(&self, w: &mut String)
        decreases *self, 1int,
    {
        let ghost elems = views_of(self.source_elements@);
        let mut out = String::new();
        let mut i: usize = 0;
        proof {
            lemma_views_of_len(self.source_elements@);
            assert(elems.take(0) =~= Seq::<Ast>::empty());
        }
        while i < self.source_elements.len()
            invariant
                i <= self.source_elements@.len(),
                elems == views_of(self.source_elements@),
                elems.len() == self.source_elements@.len(),
                out@ == render_list(elems.take(i as int)),
            decreases self.source_elements@.len() - i,
        {
            if i > 0 {
                out.append(", ");
            }
            proof {
                lemma_views_of_index(self.source_elements@, i as int);
                assert(elems.take(i + 1) =~= elems.take(i as int).push(elems[i as int]));
                lemma_render_list_push(elems.take(i as int), elems[i as int]);
            }
            let child = &self.source_elements[i];
            write_node(child, &mut out);
            i = i + 1;
        }
        proof {
            assert(elems.take(elems.len() as int) =~= elems);
        }
        w.append("ProgramNode{");
        w.append(out.as_str());
        w.append("}");
        proof {
            assert(w@ =~= old(w)@ + render(self.model()));
        }
    }

    fn tree_string(&self) -> (r: String) {
        let mut s = String::new();
        self.write_tree(&mut s);
        s
    }
}

/// A block statement; the grammar subset models no contained statements yet.
pub struct BlockStmtNode {}

impl BlockStmtNode {
    pub fn new() -> (n: BlockStmtNode)
        ensures
            n@ == Ast::Block,
    {
        BlockStmtNode {  }
    }
}

impl View for BlockStmtNode {
    type V = Ast;

    open spec fn view(&self) -> Ast {
        Ast::Block
    }
}

impl AstNode for BlockStmtNode {
    open spec fn model(&self) -> Ast {
        self@
    }

    fn kind(&self) -> (k: AstKind) {
        AstKind::BlockStmt
    }

    fn is_statement(&self) -> (r: bool) {
        true
    }

    fn is_expression(&self) -> (r: bool) {
        false
    }

    fn write_tree(&self, w: &mut String)
        decreases *self, 1int,
    {
        w.append("Block{}");
    }

    fn tree_string(&self) -> (r: String) {
        let mut s = String::new();
        self.write_tree(&mut s);
        s
    }
}

/// A `var` statement: the declared identifier tokens, in declaration order,
/// appended one at a time while the statement is being recognized.
pub struct VarStmtNode {
    pub variables: Vec<Box<FullToken>>,
}

impl VarStmtNode {
    pub fn new() -> (n: VarStmtNode)
        ensures
            n@ == (Ast::Var { names: Seq::<TokenModel>::empty() }),
    {
        let n = VarStmtNode { variables: Vec::new() };
        proof {
            assert(tokens_view(n.variables@) =~= Seq::<TokenModel>::empty());
        }
        n
    }

    pub fn variables(&self) -> (r: &Vec<Box<FullToken>>)
        ensures
            self@ matches Ast::Var { names } && tokens_view(r@) == names,
    {
        &self.variables
    }

    pub fn add_variable(&mut self, var: FullToken)
        ensures
            final(self)@ matches Ast::Var { names } && old(self)@ matches Ast::Var {
                names: old_names,
            } && names == old_names.push(var@),
    {
        proof {
            lemma_tokens_view_push(self.variables@, Box::new(var));
        }
        self.variables.push(Box::new(var));
    }
}

impl View for VarStmtNode {
    type V = Ast;

    open spec fn view(&self) -> Ast {
        Ast::Var { names: tokens_view(self.variables@) }
    }
}

impl AstNode for VarStmtNode {
    open spec fn model(&self) -> Ast {
        self@
    }

    fn kind(&self) -> (k: AstKind) {
        AstKind::VarStmt
    }

    fn is_statement(&self) -> (r: bool) {
        true
    }

    fn is_expression(&self) -> (r: bool) {
        false
    }

    fn write_tree(&self, w: &mut String)
        decreases *self, 1int,
    {
        let ghost names = tokens_view(self.variables@);
        let mut out = String::new();
        let mut i: usize = 0;
        proof {
            assert(names.take(0) =~= Seq::<TokenModel>::empty());
        }
        while i < self.variables.len()
            invariant
                i <= self.variables@.len(),
                names == tokens_view(self.variables@),
                names.len() == self.variables@.len(),
                out@ == render_names(names.take(i as int)),
            decreases self.variables@.len() - i,
        {
            if i > 0 {
                out.append(", ");
            }
            proof {
                assert(names.take(i + 1) =~= names.take(i as int).push(names[i as int]));
                lemma_render_names_push(names.take(i as int), names[i as int]);
            }
            let tok = &self.variables[i];
            tok.write_token(&mut out);
            i = i + 1;
        }
        proof {
            assert(names.take(names.len() as int) =~= names);
        }
        w.append("Var{");
        w.append(out.as_str());
        w.append("}");
        proof {
            assert(w@ =~= old(w)@ + render(self.model()));
        }
    }

    fn tree_string(&self) -> (r: String) {
        let mut s = String::new();
        self.write_tree(&mut s);
        s
    }
}

/// An empty statement: a bare `;`.
pub struct EmptyStmtNode {}

impl EmptyStmtNode {
    pub fn new() -> (n: EmptyStmtNode)
        ensures
            n@ == Ast::Empty,
    {
        EmptyStmtNode {  }
    }
}

impl View for EmptyStmtNode {
    type V = Ast;

    open spec fn view(&self) -> Ast {
        Ast::Empty
    }
}

impl AstNode for EmptyStmtNode {
    open spec fn model(&self) -> Ast {
        self@
    }

    fn kind(&self) -> (k: AstKind) {
        AstKind::EmptyStmt
    }

    fn is_statement(&self) -> (r: bool) {
        true
    }

    fn is_expression(&self) -> (r: bool) {
        false
    }

    fn write_tree(&self, w: &mut String)
        decreases *self, 1int,
    {
        w.append("Empty{}");
    }

    fn tree_string(&self) -> (r: String) {
        let mut s = String::new();
        self.write_tree(&mut s);
        s
    }
}

/// A one-armed `if` statement: a condition expression and the statement run
/// when it holds; no else-branch is modeled in this subset.
pub struct IfStmtNode {
    pub cond_expr: Box<Node>,
    pub if_true_stmt: Box<Node>,
}

impl IfStmtNode {
    pub fn new_if(cond_expr: Box<Node>, if_true_stmt: Box<Node>) -> (n: IfStmtNode)
        requires
            is_expression(cond_expr@),
            is_statement(if_true_stmt@),
        ensures
            n@ == (Ast::If { cond: Box::new(cond_expr@), body: Box::new(if_true_stmt@) }),
    {
        IfStmtNode { cond_expr, if_true_stmt }
    }

    pub fn cond_expr(&self) -> (r: &Node)
        ensures
            self@ matches Ast::If { cond, .. } && r@ == *cond,
    {
        &self.cond_expr
    }

    pub fn if_true_stmt(&self) -> (r: &Node)
        ensures
            self@ matches Ast::If { body, .. } && r@ == *body,
    {
        &self.if_true_stmt
    }
}

impl View for IfStmtNode {
    type V = Ast;

    open spec fn view(&self) -> Ast {
        Ast::If {
            cond: Box::new(node_view(*self.cond_expr)),
            body: Box::new(node_view(*self.if_true_stmt)),
        }
    }
}

impl AstNode for IfStmtNode {
    open spec fn model(&self) -> Ast {
        self@
    }

    fn kind(&self) -> (k: AstKind) {
        AstKind::IfStmt
    }

    fn is_statement(&self) -> (r: bool) {
        true
    }

    fn is_expression(&self) -> (r: bool) {
        false
    }

    fn write_tree(&self, w: &mut String)
        decreases *self, 1int,
    {
        w.append("If(");
        write_node(&self.cond_expr, w);
        w.append("){");
        write_node(&self.if_true_stmt, w);
        w.append("}");
        proof {
            assert(w@ =~= old(w)@ + render(self.model()));
        }
    }

    fn tree_string(&self) -> (r: String) {
        let mut s = String::new();
        self.write_tree(&mut s);
        s
    }
}

/// An expression statement: an expression evaluated for effect, then `;`.
pub struct ExprStmtNode {
    pub expr: Box<Node>,
}

impl ExprStmtNode {
    pub fn new(expr: Box<Node>) -> (n: ExprStmtNode)
        requires
            is_expression(expr@),
        ensures
            n@ == (Ast::ExprStmt { expr: Box::new(expr@) }),
    {
        ExprStmtNode { expr }
    }

    pub fn expression(&self) -> (r: &Node)
        ensures
            self@ matches Ast::ExprStmt { expr } && r@ == *expr,
    {
        &self.expr
    }
}

impl View for ExprStmtNode {
    type V = Ast;

    open spec fn view(&self) -> Ast {
        Ast::ExprStmt { expr: Box::new(node_view(*self.expr)) }
    }
}

impl AstNode for ExprStmtNode {
    open spec fn model(&self) -> Ast {
        self@
    }

    fn kind(&self) -> (k: AstKind) {
        AstKind::ExprStmt
    }

    fn is_statement(&self) -> (r: bool) {
        true
    }

    fn is_expression(&self) -> (r: bool) {
        false
    }

    fn write_tree(&self, w: &mut String)
        decreases *self, 1int,
    {
        w.append("ExprStmt{");
        write_node(&self.expr, w);
        w.append("}");
        proof {
            assert(w@ =~= old(w)@ + render(self.model()));
        }
    }

    fn tree_string(&self) -> (r: String) {
        let mut s = String::new();
        self.write_tree(&mut s);
        s
    }
}

/// A binary-operator expression: the operator token and its two operands.
pub struct BinaryOpExprNode {
    pub binary_op: FullToken,
    pub left_expr: Box<Node>,
    pub right_expr: Box<Node>,
}

impl BinaryOpExprNode {
    pub fn new(binary_op: FullToken, left_expr: Box<Node>, right_expr: Box<Node>) -> (n:
        BinaryOpExprNode)
        requires
            is_expression(left_expr@),
            is_expression(right_expr@),
        ensures
            n@ == (Ast::BinaryOp {
                op: binary_op@,
                left: Box::new(left_expr@),
                right: Box::new(right_expr@),
            }),
    {
        BinaryOpExprNode { binary_op, left_expr, right_expr }
    }

    pub fn binary_op(&self) -> (r: &FullToken)
        ensures
            self@ matches Ast::BinaryOp { op, .. } && r@ == op,
    {
        &self.binary_op
    }

    pub fn left_expr(&self) -> (r: &Node)
        ensures
            self@ matches Ast::BinaryOp { left, .. } && r@ == *left,
    {
        &self.left_expr
    }

    pub fn right_expr(&self) -> (r: &Node)
        ensures
            self@ matches Ast::BinaryOp { right, .. } && r@ == *right,
    {
        &self.right_expr
    }
}

impl View for BinaryOpExprNode {
    type V = Ast;

    open spec fn view(&self) -> Ast {
        Ast::BinaryOp {
            op: self.binary_op@,
            left: Box::new(node_view(*self.left_expr)),
            right: Box::new(node_view(*self.right_expr)),
        }
    }
}

impl AstNode for BinaryOpExprNode {
    open spec fn model(&self) -> Ast {
        self@
    }

    fn kind(&self) -> (k: AstKind) {
        AstKind::BinaryOpExpr
    }

    fn is_statement(&self) -> (r: bool) {
        false
    }

    fn is_expression(&self) -> (r: bool) {
        true
    }

    fn write_tree(&self, w: &mut String)
        decreases *self, 1int,
    {
        w.append("BinaryOpExpr(");
        self.binary_op.write_token(w);
        w.append("){");
        write_node(&self.left_expr, w);
        w.append(", ");
        write_node(&self.right_expr, w);
        w.append("}");
        proof {
            assert(w@ =~= old(w)@ + render(self.model()));
        }
    }

    fn tree_string(&self) -> (r: String) {
        let mut s = String::new();
        self.write_tree(&mut s);
        s
    }
}

/// A conditional (ternary) expression.
pub struct CondExprNode {
    pub cond_expr: Box<Node>,
    pub if_expr: Box<Node>,
    pub else_expr: Box<Node>,
}

impl CondExprNode {
    pub fn new(cond_expr: Box<Node>, if_expr: Box<Node>, else_expr: Box<Node>) -> (n: CondExprNode)
        requires
            is_expression(cond_expr@),
            is_expression(if_expr@),
            is_expression(else_expr@),
        ensures
            n@ == (Ast::Cond {
                cond: Box::new(cond_expr@),
                if_true: Box::new(if_expr@),
                if_false: Box::new(else_expr@),
            }),
    {
        CondExprNode { cond_expr, if_expr, else_expr }
    }

    pub fn cond_expr(&self) -> (r: &Node)
        ensures
            self@ matches Ast::Cond { cond, .. } && r@ == *cond,
    {
        &self.cond_expr
    }

    pub fn if_expr(&self) -> (r: &Node)
        ensures
            self@ matches Ast::Cond { if_true, .. } && r@ == *if_true,
    {
        &self.if_expr
    }

    pub fn else_expr(&self) -> (r: &Node)
        ensures
            self@ matches Ast::Cond { if_false, .. } && r@ == *if_false,
    {
        &self.else_expr
    }
}

impl View for CondExprNode {
    type V = Ast;

    open spec fn view(&self) -> Ast {
        Ast::Cond {
            cond: Box::new(node_view(*self.cond_expr)),
            if_true: Box::new(node_view(*self.if_expr)),
            if_false: Box::new(node_view(*self.else_expr)),
        }
    }
}

impl AstNode for CondExprNode {
    open spec fn model(&self) -> Ast {
        self@
    }

    fn kind(&self) -> (k: AstKind) {
        AstKind::CondExpr
    }

    fn is_statement(&self) -> (r: bool) {
        false
    }

    fn is_expression(&self) -> (r: bool) {
        true
    }

    fn write_tree(&self, w: &mut String)
        decreases *self, 1int,
    {
        w.append("CondExpr{");
        write_node(&self.cond_expr, w);
        w.append(", ");
        write_node(&self.if_expr, w);
        w.append(", ");
        write_node(&self.else_expr, w);
        w.append("}");
        proof {
            assert(w@ =~= old(w)@ + render(self.model()));
        }
    }

    fn tree_string(&self) -> (r: String) {
        let mut s = String::new();
        self.write_tree(&mut s);
        s
    }
}

/// An assignment expression: the assignment-operator token, the target and
/// the value. The target is any expression: restriction to valid assignment
/// targets is a known gap in this grammar subset, left unenforced.
pub struct AssignExprNode {
    pub assign_op: FullToken,
    pub left_expr: Box<Node>,
    pub right_expr: Box<Node>,
}

impl AssignExprNode {
    pub fn new(assign_op: FullToken, left_expr: Box<Node>, right_expr: Box<Node>) -> (n:
        AssignExprNode)
        requires
            is_expression(left_expr@),
            is_expression(right_expr@),
            is_assign_op(assign_op@.kind),
        ensures
            n@ == (Ast::Assign {
                op: assign_op@,
                left: Box::new(left_expr@),
                right: Box::new(right_expr@),
            }),
    {
        AssignExprNode { assign_op, left_expr, right_expr }
    }

    pub fn assignment_op(&self) -> (r: &FullToken)
        ensures
            self@ matches Ast::Assign { op, .. } && r@ == op,
    {
        &self.assign_op
    }

    pub fn left_expr(&self) -> (r: &Node)
        ensures
            self@ matches Ast::Assign { left, .. } && r@ == *left,
    {
        &self.left_expr
    }

    pub fn right_expr(&self) -> (r: &Node)
        ensures
            self@ matches Ast::Assign { right, .. } && r@ == *right,
    {
        &self.right_expr
    }
}

impl View for AssignExprNode {
    type V = Ast;

    open spec fn view(&self) -> Ast {
        Ast::Assign {
            op: self.assign_op@,
            left: Box::new(node_view(*self.left_expr)),
            right: Box::new(node_view(*self.right_expr)),
        }
    }
}

impl AstNode for AssignExprNode {
    open spec fn model(&self) -> Ast {
        self@
    }

    fn kind(&self) -> (k: AstKind) {
        AstKind::AssignExpr
    }

    fn is_statement(&self) -> (r: bool) {
        false
    }

    fn is_expression(&self) -> (r: bool) {
        true
    }

    fn write_tree(&self, w: &mut String)
        decreases *self, 1int,
    {
        w.append("AssignExpr(");
        self.assign_op.write_token(w);
        w.append("){");
        write_node(&self.left_expr, w);
        w.append(", ");
        write_node(&self.right_expr, w);
        w.append("}");
        proof {
            assert(w@ =~= old(w)@ + render(self.model()));
        }
    }

    fn tree_string(&self) -> (r: String) {
        let mut s = String::new();
        self.write_tree(&mut s);
        s
    }
}

/// A comma expression: the left operand is evaluated, then discarded for the
/// right one.
pub struct CommaExprNode {
    pub left_expr: Box<Node>,
    pub right_expr: Box<Node>,
}

impl CommaExprNode {
    pub fn new(left_expr: Box<Node>, right_expr: Box<Node>) -> (n: CommaExprNode)
        requires
            is_expression(left_expr@),
            is_expression(right_expr@),
        ensures
            n@ == (Ast::Comma { left: Box::new(left_expr@), right: Box::new(right_expr@) }),
    {
        CommaExprNode { left_expr, right_expr }
    }

    pub fn left_expr(&self) -> (r: &Node)
        ensures
            self@ matches Ast::Comma { left, .. } && r@ == *left,
    {
        &self.left_expr
    }

    pub fn right_expr(&self) -> (r: &Node)
        ensures
            self@ matches Ast::Comma { right, .. } && r@ == *right,
    {
        &self.right_expr
    }
}

impl View for CommaExprNode {
    type V = Ast;

    open spec fn view(&self) -> Ast {
        Ast::Comma {
            left: Box::new(node_view(*self.left_expr)),
            right: Box::new(node_view(*self.right_expr)),
        }
    }
}

impl AstNode for CommaExprNode {
    open spec fn model(&self) -> Ast {
        self@
    }

    fn kind(&self) -> (k: AstKind) {
        AstKind::CommaExpr
    }

    fn is_statement(&self) -> (r: bool) {
        false
    }

    fn is_expression(&self) -> (r: bool) {
        true
    }

    fn write_tree(&self, w: &mut String)
        decreases *self, 1int,
    {
        w.append("CommaExpr{");
        write_node(&self.left_expr, w);
        w.append(", ");
        write_node(&self.right_expr, w);
        w.append("}");
        proof {
            assert(w@ =~= old(w)@ + render(self.model()));
        }
    }

    fn tree_string(&self) -> (r: String) {
        let mut s = String::new();
        self.write_tree(&mut s);
        s
    }
}

/// A name expression: a bare identifier token.
pub struct NameExprNode {
    pub name: FullToken,
}

impl NameExprNode {
    pub fn new(name: FullToken) -> (n: NameExprNode)
        requires
            name@.kind is Identifier,
        ensures
            n@ == (Ast::Name { tok: name@ }),
    {
        NameExprNode { name }
    }

    pub fn name(&self) -> (r: &FullToken)
        ensures
            self@ matches Ast::Name { tok } && r@ == tok,
    {
        &self.name
    }
}

impl View for NameExprNode {
    type V = Ast;

    open spec fn view(&self) -> Ast {
        Ast::Name { tok: self.name@ }
    }
}

impl AstNode for NameExprNode {
    open spec fn model(&self) -> Ast {
        self@
    }

    fn kind(&self) -> (k: AstKind) {
        AstKind::NameExpr
    }

    fn is_statement(&self) -> (r: bool) {
        false
    }

    fn is_expression(&self) -> (r: bool) {
        true
    }

    fn write_tree(&self, w: &mut String)
        decreases *self, 1int,
    {
        w.append("NameExpr{");
        self.name.write_token(w);
        w.append("}");
        proof {
            assert(w@ =~= old(w)@ + render(self.model()));
        }
    }

    fn tree_string(&self) -> (r: String) {
        let mut s = String::new();
        self.write_tree(&mut s);
        s
    }
}

} // verus!
