//! The abstract syntax tree: expressions and statements as closed sum
//! types, each node carrying a process-unique integer id assigned at
//! construction. The id is the key into the resolver's side-table; it is an
//! explicit field, never identity-by-pointer.
//!
//! Function bodies (named functions, anonymous functions, methods) are kept
//! once, in the declaration table of a [`Program`]; the nodes that
//! introduce them hold an index into that table. The parser finishes a
//! body before it registers the declaration, so the table entries reached
//! from a declaration's body always have smaller indices than the
//! declaration itself.

use vstd::prelude::*;

use crate::token::Token;
use crate::util::{next_id, IdGen};

verus! {

/// A literal expression's value, as the parser saw it.
#[derive(Clone, Debug)]
pub enum LitVal {
    Num(i64),
    Text(String),
    Truth(bool),
    Nil,
}

/// What a property access reads: a named property or an indexed element.
#[derive(Debug)]
pub enum GetType {
    Name(Token),
    Index(Token, Box<Expr>),
}

/// A property or index read, `obj.name` or `obj[index]`.
#[derive(Debug)]
pub struct Get {
    pub id: u64,
    pub ty: GetType,
    pub object: Box<Expr>,
}

impl Get {
    pub fn new(gen: &mut IdGen, ty: GetType, object: Box<Expr>) -> (r: Get)
        ensures
            r.id == old(gen).spec_next(),
            r.ty == ty,
            r.object == object,
    {
        Get { id: next_id(gen), ty, object }
    }

    pub fn extract(&self) -> (r: (&GetType, &Expr))
        ensures
            r.0 == &self.ty,
            r.1 == &*self.object,
    {
        (&self.ty, &*self.object)
    }
}

/// What a property assignment writes: a named property or an indexed
/// element.
#[derive(Debug)]
pub enum SetType {
    Name(Token),
    Index(Token, Box<Expr>),
}

impl From<GetType> for SetType {
    fn from(value: GetType) -> (r: SetType) {
        match value {
            GetType::Name(name) => SetType::Name(name),
            GetType::Index(token, index) => SetType::Index(token, index),
        }
    }
}

impl vstd::std_specs::convert::FromSpecImpl<GetType> for SetType {
    open spec fn obeys_from_spec() -> bool {
        true
    }

    open spec fn from_spec(value: GetType) -> SetType {
        match value {
            GetType::Name(name) => SetType::Name(name),
            GetType::Index(token, index) => SetType::Index(token, index),
        }
    }
}

/// A property or index assignment, `obj.name = value` or
/// `obj[index] = value`.
#[derive(Debug)]
pub struct SetExpr {
    pub id: u64,
    pub ty: SetType,
    pub obj: Box<Expr>,
    pub value: Box<Expr>,
}

impl SetExpr {
    pub fn new(gen: &mut IdGen, ty: SetType, obj: Box<Expr>, value: Box<Expr>) -> (r: SetExpr)
        ensures
            r.id == old(gen).spec_next(),
            r.ty == ty,
            r.obj == obj,
            r.value == value,
    {
        SetExpr { id: next_id(gen), ty, obj, value }
    }

    pub fn extract(&self) -> (r: (&SetType, &Expr, &Expr))
        ensures
            r.0 == &self.ty,
            r.1 == &*self.obj,
            r.2 == &*self.value,
    {
        (&self.ty, &*self.obj, &*self.value)
    }
}

/// An object/dictionary literal, `{ key: value, ... }`.
#[derive(Debug)]
pub struct Obj {
    pub id: u64,
    pub values: Vec<(Token, Expr)>,
}

impl Obj {
    pub fn new(gen: &mut IdGen, values: Vec<(Token, Expr)>) -> (r: Obj)
        ensures
            r.id == old(gen).spec_next(),
            r.values == values,
    {
        Obj { id: next_id(gen), values }
    }

    pub fn extract(&self) -> (r: &Vec<(Token, Expr)>)
        ensures
            r == &self.values,
    {
        &self.values
    }
}

/// An anonymous function expression, `fn (params) { body }`; the parameter
/// list and body live in the program's declaration table.
#[derive(Debug)]
pub struct AnonFun {
    pub id: u64,
    pub token: Token,
    pub decl: usize,
}

impl AnonFun {
    pub fn new(gen: &mut IdGen, token: Token, decl: usize) -> (r: AnonFun)
        ensures
            r.id == old(gen).spec_next(),
            r.token == token,
            r.decl == decl,
    {
        AnonFun { id: next_id(gen), token, decl }
    }

    pub fn extract(&self) -> (r: (u64, &Token, usize))
        ensures
            r.0 == self.id,
            r.1 == &self.token,
            r.2 == self.decl,
    {
        (self.id, &self.token, self.decl)
    }
}

/// A named function declaration: also the shape of a method inside a class
/// declaration and of an anonymous function's body.
#[derive(Debug)]
pub struct FunDecl {
    pub id: u64,
    pub name: Token,
    pub params: Vec<Token>,
    pub body: Vec<Stmt>,
}

/// A host-facing `buffer` statement; the core treats it as a plain named
/// binding of an arbitrary expression value.
#[derive(Debug)]
pub struct Buffer {
    pub name: Token,
    pub obj: Box<Expr>,
}

impl Buffer {
    pub fn new(name: Token, obj: Box<Expr>) -> (r: Buffer)
        ensures
            r.name == name,
            r.obj == obj,
    {
        Buffer { name, obj }
    }

    pub fn extract(&self) -> (r: (&Token, &Expr))
        ensures
            r.0 == &self.name,
            r.1 == &*self.obj,
    {
        (&self.name, &*self.obj)
    }
}

/// A host-facing `pipeline` statement; a plain named binding to the core.
#[derive(Debug)]
pub struct Pipeline {
    pub name: Token,
    pub obj: Box<Expr>,
}

impl Pipeline {
    pub fn new(name: Token, obj: Box<Expr>) -> (r: Pipeline)
        ensures
            r.name == name,
            r.obj == obj,
    {
        Pipeline { name, obj }
    }

    pub fn extract(&self) -> (r: (&Token, &Expr))
        ensures
            r.0 == &self.name,
            r.1 == &*self.obj,
    {
        (&self.name, &*self.obj)
    }
}

/// A host-facing `render` statement: a named binding of a list of
/// expression values.
#[derive(Debug)]
pub struct Render {
    pub name: Token,
    pub elements: Vec<Expr>,
}

impl Render {
    pub fn new(name: Token, elements: Vec<Expr>) -> (r: Render)
        ensures
            r.name == name,
            r.elements == elements,
    {
        Render { name, elements }
    }

    pub fn extract(&self) -> (r: (&Token, &Vec<Expr>))
        ensures
            r.0 == &self.name,
            r.1 == &self.elements,
    {
        (&self.name, &self.elements)
    }
}

/// Expression nodes. Every variant carries its unique id.
#[derive(Debug)]
pub enum Expr {
    Literal { id: u64, token: Token, value: LitVal },
    Grouping { id: u64, inner: Box<Expr> },
    Unary { id: u64, op: Token, right: Box<Expr> },
    Binary { id: u64, op: Token, left: Box<Expr>, right: Box<Expr> },
    Logical { id: u64, op: Token, left: Box<Expr>, right: Box<Expr> },
    Variable { id: u64, name: Token },
    Assign { id: u64, name: Token, value: Box<Expr> },
    Call { id: u64, paren: Token, callee: Box<Expr>, args: Vec<Expr> },
    GetProp(Get),
    SetProp(SetExpr),
    ListLit { id: u64, elements: Vec<Expr> },
    ObjLit(Obj),
    Anon(AnonFun),
    SelfExpr { id: u64, keyword: Token },
    SuperExpr { id: u64, keyword: Token, method: Token },
}

impl Expr {
    /// The node's unique id, the key into the resolver's side-table.
    pub open spec fn spec_node_id(&self) -> u64 {
        match self {
            Expr::Literal { id, .. } => *id,
            Expr::Grouping { id, .. } => *id,
            Expr::Unary { id, .. } => *id,
            Expr::Binary { id, .. } => *id,
            Expr::Logical { id, .. } => *id,
            Expr::Variable { id, .. } => *id,
            Expr::Assign { id, .. } => *id,
            Expr::Call { id, .. } => *id,
            Expr::GetProp(g) => g.id,
            Expr::SetProp(s) => s.id,
            Expr::ListLit { id, .. } => *id,
            Expr::ObjLit(o) => o.id,
            Expr::Anon(a) => a.id,
            Expr::SelfExpr { id, .. } => *id,
            Expr::SuperExpr { id, .. } => *id,
        }
    }

    pub fn node_id(&self) -> (r: u64)
        ensures
            r == self.spec_node_id(),
    {
        match self {
            Expr::Literal { id, .. } => *id,
            Expr::Grouping { id, .. } => *id,
            Expr::Unary { id, .. } => *id,
            Expr::Binary { id, .. } => *id,
            Expr::Logical { id, .. } => *id,
            Expr::Variable { id, .. } => *id,
            Expr::Assign { id, .. } => *id,
            Expr::Call { id, .. } => *id,
            Expr::GetProp(g) => g.id,
            Expr::SetProp(s) => s.id,
            Expr::ListLit { id, .. } => *id,
            Expr::ObjLit(o) => o.id,
            Expr::Anon(a) => a.id,
            Expr::SelfExpr { id, .. } => *id,
            Expr::SuperExpr { id, .. } => *id,
        }
    }
}

/// Statement nodes.
#[derive(Debug)]
pub enum Stmt {
    Expression { expr: Expr },
    Print { expr: Expr },
    Let { name: Token, initializer: Option<Expr> },
    Block { statements: Vec<Stmt> },
    If { cond: Expr, then_branch: Box<Stmt>, else_branch: Option<Box<Stmt>> },
    While { cond: Expr, body: Box<Stmt> },
    Fun { decl: usize },
    Return { keyword: Token, value: Option<Expr> },
    ClassDecl { name: Token, superclass: Option<Expr>, methods: Vec<usize> },
    Export { inner: Box<Stmt> },
    UseStmt { path: Token },
    BufferStmt(Buffer),
    PipelineStmt(Pipeline),
    RenderStmt(Render),
}

/// One parsed script: its top-level statements and the table of every
/// function declaration in it. Indices held by [`Stmt::Fun`],
/// [`Expr::Anon`] and class methods point into `decls`.
#[derive(Debug)]
pub struct Program {
    pub decls: Vec<FunDecl>,
    pub stmts: Vec<Stmt>,
    /// The first id not used by any node of this program; run-time ids
    /// continue from here so value identities never collide with nodes.
    pub next_id: u64,
}

/// Whether every declaration index mentioned in the expression — an
/// anonymous function — lies below `b`. The parser registers a
/// declaration only after parsing its body, so everything it produces
/// satisfies this with `b` the table length at production time.
pub open spec fn expr_decls_below(e: Expr, b: int) -> bool
    decreases e,
{
    match e {
        Expr::Literal { .. } => true,
        Expr::Grouping { id: _, inner } => expr_decls_below(*inner, b),
        Expr::Unary { id: _, op: _, right } => expr_decls_below(*right, b),
        Expr::Binary { id: _, op: _, left, right } => expr_decls_below(*left, b)
            && expr_decls_below(*right, b),
        Expr::Logical { id: _, op: _, left, right } => expr_decls_below(*left, b)
            && expr_decls_below(*right, b),
        Expr::Variable { .. } => true,
        Expr::Assign { id: _, name: _, value } => expr_decls_below(*value, b),
        Expr::Call { id: _, paren: _, callee, args } => expr_decls_below(*callee, b) && (forall|
            i: int,
        |
            0 <= i < args@.len() ==> expr_decls_below(#[trigger] args@[i], b)),
        Expr::GetProp(g) => expr_decls_below(*g.object, b) && (match g.ty {
            GetType::Index(_, index) => expr_decls_below(*index, b),
            GetType::Name(_) => true,
        }),
        Expr::SetProp(sp) => expr_decls_below(*sp.obj, b) && expr_decls_below(*sp.value, b) && (
        match sp.ty {
            SetType::Index(_, index) => expr_decls_below(*index, b),
            SetType::Name(_) => true,
        }),
        Expr::ListLit { id: _, elements } => forall|i: int|
            0 <= i < elements@.len() ==> expr_decls_below(#[trigger] elements@[i], b),
        Expr::ObjLit(o) => forall|i: int|
            0 <= i < o.values@.len() ==> expr_decls_below((#[trigger] o.values@[i]).1, b),
        Expr::Anon(a) => a.decl < b,
        Expr::SelfExpr { .. } => true,
        Expr::SuperExpr { .. } => true,
    }
}

/// Whether every declaration index mentioned in the statement lies below
/// `b`.
pub open spec fn stmt_decls_below(s: Stmt, b: int) -> bool
    decreases s,
{
    match s {
        Stmt::Expression { expr } => expr_decls_below(expr, b),
        Stmt::Print { expr } => expr_decls_below(expr, b),
        Stmt::Let { name: _, initializer } => match initializer {
            Some(e) => expr_decls_below(e, b),
            None => true,
        },
        Stmt::Block { statements } => forall|i: int|
            0 <= i < statements@.len() ==> stmt_decls_below(#[trigger] statements@[i], b),
        Stmt::If { cond, then_branch, else_branch } => expr_decls_below(cond, b)
            && stmt_decls_below(*then_branch, b) && (match else_branch {
            Some(e) => stmt_decls_below(*e, b),
            None => true,
        }),
        Stmt::While { cond, body } => expr_decls_below(cond, b) && stmt_decls_below(*body, b),
        Stmt::Fun { decl } => decl < b,
        Stmt::Return { keyword: _, value } => match value {
            Some(e) => expr_decls_below(e, b),
            None => true,
        },
        Stmt::ClassDecl { name: _, superclass, methods } => (match superclass {
            Some(e) => expr_decls_below(e, b),
            None => true,
        }) && (forall|i: int| 0 <= i < methods@.len() ==> #[trigger] methods@[i] < b),
        Stmt::Export { inner } => stmt_decls_below(*inner, b),
        Stmt::UseStmt { .. } => true,
        Stmt::BufferStmt(bf) => expr_decls_below(*bf.obj, b),
        Stmt::PipelineStmt(p) => expr_decls_below(*p.obj, b),
        Stmt::RenderStmt(rn) => forall|i: int|
            0 <= i < rn.elements@.len() ==> expr_decls_below(#[trigger] rn.elements@[i], b),
    }
}

/// `stmt_decls_below` over a whole sequence.
pub open spec fn stmts_decls_below(ss: Seq<Stmt>, b: int) -> bool {
    forall|i: int| 0 <= i < ss.len() ==> stmt_decls_below(#[trigger] ss[i], b)
}

/// A bound on declaration indices weakens upward.
pub proof fn lemma_expr_decls_below_mono(e: Expr, b1: int, b2: int)
    requires
        expr_decls_below(e, b1),
        b1 <= b2,
    ensures
        expr_decls_below(e, b2),
    decreases e,
{
    match e {
        Expr::Grouping { id: _, inner } => lemma_expr_decls_below_mono(*inner, b1, b2),
        Expr::Unary { id: _, op: _, right } => lemma_expr_decls_below_mono(*right, b1, b2),
        Expr::Binary { id: _, op: _, left, right } => {
            lemma_expr_decls_below_mono(*left, b1, b2);
            lemma_expr_decls_below_mono(*right, b1, b2);
        },
        Expr::Logical { id: _, op: _, left, right } => {
            lemma_expr_decls_below_mono(*left, b1, b2);
            lemma_expr_decls_below_mono(*right, b1, b2);
        },
        Expr::Assign { id: _, name: _, value } => lemma_expr_decls_below_mono(*value, b1, b2),
        Expr::Call { id: _, paren: _, callee, args } => {
            lemma_expr_decls_below_mono(*callee, b1, b2);
            assert forall|i: int| 0 <= i < args@.len() implies expr_decls_below(
                #[trigger] args@[i],
                b2,
            ) by {
                lemma_expr_decls_below_mono(args@[i], b1, b2);
            }
        },
        Expr::GetProp(g) => {
            lemma_expr_decls_below_mono(*g.object, b1, b2);
            match &g.ty {
                GetType::Index(_, index) => lemma_expr_decls_below_mono(**index, b1, b2),
                GetType::Name(_) => {},
            }
        },
        Expr::SetProp(sp) => {
            lemma_expr_decls_below_mono(*sp.obj, b1, b2);
            lemma_expr_decls_below_mono(*sp.value, b1, b2);
            match &sp.ty {
                SetType::Index(_, index) => lemma_expr_decls_below_mono(**index, b1, b2),
                SetType::Name(_) => {},
            }
        },
        Expr::ListLit { id: _, elements } => {
            assert forall|i: int| 0 <= i < elements@.len() implies expr_decls_below(
                #[trigger] elements@[i],
                b2,
            ) by {
                lemma_expr_decls_below_mono(elements@[i], b1, b2);
            }
        },
        Expr::ObjLit(o) => {
            assert forall|i: int| 0 <= i < o.values@.len() implies expr_decls_below(
                (#[trigger] o.values@[i]).1,
                b2,
            ) by {
                lemma_expr_decls_below_mono(o.values@[i].1, b1, b2);
            }
        },
        _ => {},
    }
}

/// A bound on declaration indices weakens upward, for statements.
pub proof fn lemma_stmt_decls_below_mono(s: Stmt, b1: int, b2: int)
    requires
        stmt_decls_below(s, b1),
        b1 <= b2,
    ensures
        stmt_decls_below(s, b2),
    decreases s,
{
    match s {
        Stmt::Expression { expr } => lemma_expr_decls_below_mono(expr, b1, b2),
        Stmt::Print { expr } => lemma_expr_decls_below_mono(expr, b1, b2),
        Stmt::Let { name: _, initializer } => match initializer {
            Some(e) => lemma_expr_decls_below_mono(e, b1, b2),
            None => {},
        },
        Stmt::Block { statements } => {
            assert forall|i: int| 0 <= i < statements@.len() implies stmt_decls_below(
                #[trigger] statements@[i],
                b2,
            ) by {
                lemma_stmt_decls_below_mono(statements@[i], b1, b2);
            }
        },
        Stmt::If { cond, then_branch, else_branch } => {
            lemma_expr_decls_below_mono(cond, b1, b2);
            lemma_stmt_decls_below_mono(*then_branch, b1, b2);
            match else_branch {
                Some(e) => lemma_stmt_decls_below_mono(*e, b1, b2),
                None => {},
            }
        },
        Stmt::While { cond, body } => {
            lemma_expr_decls_below_mono(cond, b1, b2);
            lemma_stmt_decls_below_mono(*body, b1, b2);
        },
        Stmt::Return { keyword: _, value } => match value {
            Some(e) => lemma_expr_decls_below_mono(e, b1, b2),
            None => {},
        },
        Stmt::ClassDecl { name: _, superclass, methods: _ } => match superclass {
            Some(e) => lemma_expr_decls_below_mono(e, b1, b2),
            None => {},
        },
        Stmt::Export { inner } => lemma_stmt_decls_below_mono(*inner, b1, b2),
        Stmt::BufferStmt(bf) => lemma_expr_decls_below_mono(*bf.obj, b1, b2),
        Stmt::PipelineStmt(p) => lemma_expr_decls_below_mono(*p.obj, b1, b2),
        Stmt::RenderStmt(rn) => {
            assert forall|i: int| 0 <= i < rn.elements@.len() implies expr_decls_below(
                #[trigger] rn.elements@[i],
                b2,
            ) by {
                lemma_expr_decls_below_mono(rn.elements@[i], b1, b2);
            }
        },
        _ => {},
    }
}

/// A bound on declaration indices weakens upward, for expression
/// sequences.
pub proof fn lemma_exprs_decls_below_mono(es: Seq<Expr>, b1: int, b2: int)
    requires
        forall|i: int| 0 <= i < es.len() ==> expr_decls_below(#[trigger] es[i], b1),
        b1 <= b2,
    ensures
        forall|i: int| 0 <= i < es.len() ==> expr_decls_below(#[trigger] es[i], b2),
{
    assert forall|i: int| 0 <= i < es.len() implies expr_decls_below(#[trigger] es[i], b2) by {
        lemma_expr_decls_below_mono(es[i], b1, b2);
    }
}

/// A bound on declaration indices weakens upward, for keyed expression
/// sequences.
pub proof fn lemma_entries_decls_below_mono(es: Seq<(Token, Expr)>, b1: int, b2: int)
    requires
        forall|i: int| 0 <= i < es.len() ==> expr_decls_below((#[trigger] es[i]).1, b1),
        b1 <= b2,
    ensures
        forall|i: int| 0 <= i < es.len() ==> expr_decls_below((#[trigger] es[i]).1, b2),
{
    assert forall|i: int| 0 <= i < es.len() implies expr_decls_below(
        (#[trigger] es[i]).1,
        b2,
    ) by {
        lemma_expr_decls_below_mono(es[i].1, b1, b2);
    }
}

/// A bound on declaration indices weakens upward, for sequences.
pub proof fn lemma_stmts_decls_below_mono(ss: Seq<Stmt>, b1: int, b2: int)
    requires
        stmts_decls_below(ss, b1),
        b1 <= b2,
    ensures
        stmts_decls_below(ss, b2),
{
    assert forall|i: int| 0 <= i < ss.len() implies stmt_decls_below(#[trigger] ss[i], b2) by {
        lemma_stmt_decls_below_mono(ss[i], b1, b2);
    }
}

} // verus!