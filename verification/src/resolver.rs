//! The static resolver: one pass over the syntax tree that computes, for
//! every variable, `self` and `super` reference, the number of lexical
//! scopes to walk at run time, and checks what the parser cannot.
//!
//! The resolver maintains a stack of scope maps (name to ready-for-use)
//! mirroring the run-time frame nesting: one scope per block, one per
//! function or method body (holding its parameters), and for methods a
//! synthetic scope binding `self` (plus, under a superclass, a further
//! one binding `super`). A name found `d` scopes out is recorded in the
//! side-table under the reference's node id; a name found in no open
//! scope gets no entry and is left to global lookup at run time.
//!
//! Rejected here, as resolution errors: a self-referential initializer
//! (`let x = x;`), `return` outside any function, `self` or `super`
//! outside a method, `super` in a class without a superclass, and a class
//! that extends itself. If any were found, execution must not start; the
//! pass's contract proves this outright for a `return`, `self` or `super`
//! standing anywhere in the top-level statement tree.

use vstd::prelude::*;

use crate::ast::{Expr, FunDecl, GetType, Program, SetType, Stmt};
use crate::error::{ResolutionError, ResolutionErrorKind};
use crate::token::Token;
use crate::util::{assoc_get, assoc_lookup, assoc_put};

verus! {

/// The resolver's side-table: node id to scope distance. Absence of an
/// entry means the reference is looked up in the global scope.
pub struct Locals {
    pub table: Vec<Option<usize>>,
}

/// The recorded distance for node `id`, if any.
pub open spec fn locals_spec(table: Seq<Option<usize>>, id: int) -> Option<usize> {
    if 0 <= id < table.len() {
        table[id]
    } else {
        None
    }
}

impl Locals {
    pub fn new() -> (r: Locals)
        ensures
            r.table@.len() == 0,
    {
        Locals { table: Vec::new() }
    }

    /// The recorded distance for node `id`.
    pub fn depth_of(&self, id: u64) -> (r: Option<usize>)
        ensures
            r == locals_spec(self.table@, id as int),
    {
        let n = self.table.len();
        if id < n as u64 {
            self.table[id as usize]
        } else {
            None
        }
    }

    /// Records distance `depth` for node `id`; other entries keep their
    /// value.
    pub fn set(&mut self, id: u64, depth: usize)
        requires
            id < usize::MAX as u64,
        ensures
            locals_spec(final(self).table@, id as int) == Some(depth),
            forall|j: int|
                0 <= j && j != id ==> locals_spec(final(self).table@, j) == locals_spec(
                    old(self).table@,
                    j,
                ),
    {
        let idx = id as usize;
        while self.table.len() <= idx
            invariant
                forall|j: int|
                    0 <= j < self.table@.len() ==> locals_spec(self.table@, j) == locals_spec(
                        old(self).table@,
                        j,
                    ),
                forall|j: int|
                    self.table@.len() <= j ==> locals_spec(self.table@, j) == locals_spec(
                        old(self).table@,
                        j,
                    ) || locals_spec(old(self).table@, j) is None,
                self.table@.len() >= old(self).table@.len(),
                forall|j: int|
                    old(self).table@.len() <= j < self.table@.len() ==> self.table@[j] is None,
            decreases idx + 1 - self.table.len(),
        {
            self.table.push(None);
        }
        self.table.set(idx, Some(depth));
    }
}

/// What kind of function body the resolver is inside.
#[derive(Clone, Copy, Debug, PartialEq, Eq, Structural)]
pub enum FunCtx {
    NoFun,
    InFunction,
    InMethod,
    InInitializer,
}

/// What kind of class body the resolver is inside.
#[derive(Clone, Copy, Debug, PartialEq, Eq, Structural)]
pub enum ClassCtx {
    NoClass,
    InClass,
    InSubclass,
}

/// One open scope: name to whether its initializer has finished (a name
/// is declared first, and ready only after its initializer resolved).
pub type Scope = Vec<(String, bool)>;

/// The distance, in scopes, from the innermost open scope to the one
/// declaring `name`: 0 for the innermost, and so on outward. `None` when
/// no open scope declares it.
pub open spec fn scope_distance(scopes: Seq<Scope>, name: Seq<char>) -> Option<nat>
    decreases scopes.len(),
{
    if scopes.len() == 0 {
        None
    } else if assoc_lookup(scopes.last()@, name) is Some {
        Some(0 as nat)
    } else {
        match scope_distance(scopes.drop_last(), name) {
            Some(d) => Some((d + 1) as nat),
            None => None,
        }
    }
}

/// A recorded distance is always smaller than the number of open scopes.
pub proof fn lemma_scope_distance_bound(scopes: Seq<Scope>, name: Seq<char>)
    ensures
        match scope_distance(scopes, name) {
            Some(d) => d < scopes.len(),
            None => true,
        },
    decreases scopes.len(),
{
    if scopes.len() > 0 {
        lemma_scope_distance_bound(scopes.drop_last(), name);
    }
}

/// Whether the statement holds a `return` that no function body
/// encloses: such a statement, resolved outside any function, must be
/// rejected. Function and method bodies live in the declaration table and
/// open their own function context, so only the plain statement structure
/// is walked.
pub open spec fn stmt_has_naked_return(s: Stmt) -> bool
    decreases s,
{
    match s {
        Stmt::Return { .. } => true,
        Stmt::Block { statements } => exists|i: int|
            0 <= i < statements@.len() && stmt_has_naked_return(#[trigger] statements@[i]),
        Stmt::If { cond: _, then_branch, else_branch } => stmt_has_naked_return(*then_branch) || (
        match else_branch {
            Some(e) => stmt_has_naked_return(*e),
            None => false,
        }),
        Stmt::While { cond: _, body } => stmt_has_naked_return(*body),
        Stmt::Export { inner } => stmt_has_naked_return(*inner),
        _ => false,
    }
}

/// Whether the expression mentions `self` or `super` directly — not
/// inside an anonymous function's body, which lives in the declaration
/// table and is resolved in its own context.
pub open spec fn expr_mentions_self_or_super(e: Expr) -> bool
    decreases e,
{
    match e {
        Expr::SelfExpr { .. } => true,
        Expr::SuperExpr { .. } => true,
        Expr::Grouping { id: _, inner } => expr_mentions_self_or_super(*inner),
        Expr::Unary { id: _, op: _, right } => expr_mentions_self_or_super(*right),
        Expr::Binary { id: _, op: _, left, right } => expr_mentions_self_or_super(*left)
            || expr_mentions_self_or_super(*right),
        Expr::Logical { id: _, op: _, left, right } => expr_mentions_self_or_super(*left)
            || expr_mentions_self_or_super(*right),
        Expr::Assign { id: _, name: _, value } => expr_mentions_self_or_super(*value),
        Expr::Call { id: _, paren: _, callee, args } => expr_mentions_self_or_super(*callee) || (
        exists|i: int|
            0 <= i < args@.len() && expr_mentions_self_or_super(#[trigger] args@[i])),
        Expr::GetProp(g) => expr_mentions_self_or_super(*g.object) || (match g.ty {
            GetType::Index(_, index) => expr_mentions_self_or_super(*index),
            GetType::Name(_) => false,
        }),
        Expr::SetProp(sp) => expr_mentions_self_or_super(*sp.obj) || expr_mentions_self_or_super(
            *sp.value,
        ) || (match sp.ty {
            SetType::Index(_, index) => expr_mentions_self_or_super(*index),
            SetType::Name(_) => false,
        }),
        Expr::ListLit { id: _, elements } => exists|i: int|
            0 <= i < elements@.len() && expr_mentions_self_or_super(#[trigger] elements@[i]),
        Expr::ObjLit(o) => exists|i: int|
            0 <= i < o.values@.len() && expr_mentions_self_or_super(
                (#[trigger] o.values@[i]).1,
            ),
        _ => false,
    }
}

/// Whether the statement mentions `self` or `super` outside any method:
/// class declarations (whose methods open their own class context) and
/// function declarations (whose bodies live in the table) are skipped.
pub open spec fn stmt_mentions_self_or_super(s: Stmt) -> bool
    decreases s,
{
    match s {
        Stmt::Expression { expr } => expr_mentions_self_or_super(expr),
        Stmt::Print { expr } => expr_mentions_self_or_super(expr),
        Stmt::Let { name: _, initializer } => match initializer {
            Some(e) => expr_mentions_self_or_super(e),
            None => false,
        },
        Stmt::Block { statements } => exists|i: int|
            0 <= i < statements@.len() && stmt_mentions_self_or_super(
                #[trigger] statements@[i],
            ),
        Stmt::If { cond, then_branch, else_branch } => expr_mentions_self_or_super(cond)
            || stmt_mentions_self_or_super(*then_branch) || (match else_branch {
            Some(e) => stmt_mentions_self_or_super(*e),
            None => false,
        }),
        Stmt::While { cond, body } => expr_mentions_self_or_super(cond)
            || stmt_mentions_self_or_super(*body),
        Stmt::Return { keyword: _, value } => match value {
            Some(e) => expr_mentions_self_or_super(e),
            None => false,
        },
        Stmt::Export { inner } => stmt_mentions_self_or_super(*inner),
        Stmt::BufferStmt(b) => expr_mentions_self_or_super(*b.obj),
        Stmt::PipelineStmt(p) => expr_mentions_self_or_super(*p.obj),
        Stmt::RenderStmt(rn) => exists|i: int|
            0 <= i < rn.elements@.len() && expr_mentions_self_or_super(
                #[trigger] rn.elements@[i],
            ),
        _ => false,
    }
}

/// The static resolver's state.
pub struct Resolver {
    pub scopes: Vec<Scope>,
    pub current_fun: FunCtx,
    pub current_class: ClassCtx,
    pub errors: Vec<ResolutionError>,
}

impl Resolver {
    pub fn new() -> (r: Resolver)
        ensures
            r.scopes@.len() == 0,
            r.errors@.len() == 0,
            r.current_fun == FunCtx::NoFun,
            r.current_class == ClassCtx::NoClass,
    {
        Resolver {
            scopes: Vec::new(),
            current_fun: FunCtx::NoFun,
            current_class: ClassCtx::NoClass,
            errors: Vec::new(),
        }
    }

    fn error_at(&mut self, token: &Token, kind: ResolutionErrorKind)
        ensures
            final(self).scopes@ == old(self).scopes@,
            final(self).current_fun == old(self).current_fun,
            final(self).current_class == old(self).current_class,
            final(self).errors@.len() == old(self).errors@.len() + 1,
    {
        self.errors.push(ResolutionError { kind, token: token.duplicate() });
    }

    /// Records in the side-table how many scopes lie between the use site
    /// and the declaring scope — exactly the innermost scope distance of
    /// `name`, or nothing when no open scope declares it (the reference
    /// then falls back to global lookup at run time).
    #[verifier::loop_isolation(false)]
    fn resolve_local(&mut self, locals: &mut Locals, id: u64, name: &Token)
        requires
            id < usize::MAX as u64,
        ensures
            *final(self) == *old(self),
            match scope_distance(old(self).scopes@, name.lexeme@) {
                Some(d) => locals_spec(final(locals).table@, id as int) == Some(d as usize) && (
                forall|j: int|
                    0 <= j && j != id ==> locals_spec(final(locals).table@, j) == locals_spec(
                        old(locals).table@,
                        j,
                    )),
                None => *final(locals) == *old(locals),
            },
    {
        let ghost orig = self.scopes@;
        proof {
            assert(orig.subrange(0, orig.len() as int) =~= orig);
            lemma_scope_distance_bound(orig, name.lexeme@);
        }
        let mut d: usize = 0;
        let mut i = self.scopes.len();
        while i > 0
            invariant
                *self == *old(self),
                *locals == *old(locals),
                i <= self.scopes@.len(),
                d == self.scopes@.len() - i,
                match scope_distance(self.scopes@.subrange(0, i as int), name.lexeme@) {
                    Some(dd) => scope_distance(orig, name.lexeme@) == Some((dd + d) as nat),
                    None => scope_distance(orig, name.lexeme@) is None,
                },
                orig == self.scopes@,
            decreases i,
        {
            let found = match assoc_get(&self.scopes[i - 1], name.get_lexeme().as_str()) {
                Some(_) => true,
                None => false,
            };
            proof {
                assert(self.scopes@.subrange(0, i as int).last() == self.scopes@[i - 1]);
                assert(self.scopes@.subrange(0, i as int).drop_last() =~= self.scopes@.subrange(
                    0,
                    i - 1,
                ));
            }
            if found {
                locals.set(id, d);
                return ;
            }
            d = d + 1;
            i = i - 1;
        }
        proof {
            assert(scope_distance(self.scopes@.subrange(0, 0), name.lexeme@) is None);
        }
    }

    /// `resolve_local` behind the (always-true in practice) check that
    /// the node id fits the side-table's index type.
    fn resolve_ref(&mut self, locals: &mut Locals, id: u64, name: &Token)
        ensures
            *final(self) == *old(self),
    {
        if id < usize::MAX as u64 {
            self.resolve_local(locals, id, name);
        }
    }

    /// Opens a scope.
    fn begin_scope(&mut self)
        ensures
            final(self).scopes@.len() == old(self).scopes@.len() + 1,
            final(self).scopes@.last()@ == Seq::<(String, bool)>::empty(),
            forall|i: int|
                0 <= i < old(self).scopes@.len() ==> final(self).scopes@[i] == old(
                    self,
                ).scopes@[i],
            final(self).current_fun == old(self).current_fun,
            final(self).current_class == old(self).current_class,
            final(self).errors@ == old(self).errors@,
    {
        self.scopes.push(Vec::new());
    }

    /// Closes the innermost scope.
    fn end_scope(&mut self)
        ensures
            final(self).scopes@.len() == (if old(self).scopes@.len() > 0 {
                old(self).scopes@.len() - 1
            } else {
                0int
            }),
            forall|i: int|
                0 <= i < final(self).scopes@.len() ==> final(self).scopes@[i] == old(
                    self,
                ).scopes@[i],
            final(self).current_fun == old(self).current_fun,
            final(self).current_class == old(self).current_class,
            final(self).errors@ == old(self).errors@,
    {
        if self.scopes.len() > 0 {
            self.scopes.pop();
        }
    }

    /// Marks a name declared (but not ready) in the innermost scope; at
    /// the top level there is no open scope and globals are left to the
    /// run-time environment.
    fn declare(&mut self, name: &Token)
        ensures
            final(self).scopes@.len() == old(self).scopes@.len(),
            final(self).current_fun == old(self).current_fun,
            final(self).current_class == old(self).current_class,
            final(self).errors@ == old(self).errors@,
    {
        let n = self.scopes.len();
        if n > 0 {
            let slot = &mut self.scopes[n - 1];
            assoc_put(slot, name.get_lexeme().clone(), false);
        }
    }

    /// Marks a declared name ready for use in the innermost scope.
    fn mark_ready(&mut self, name: &Token)
        ensures
            final(self).scopes@.len() == old(self).scopes@.len(),
            final(self).current_fun == old(self).current_fun,
            final(self).current_class == old(self).current_class,
            final(self).errors@ == old(self).errors@,
    {
        let n = self.scopes.len();
        if n > 0 {
            let slot = &mut self.scopes[n - 1];
            assoc_put(slot, name.get_lexeme().clone(), true);
        }
    }

    /// Defines a synthetic binding (for `self` or `super`) in the
    /// innermost scope, already ready.
    fn define_synthetic(&mut self, name: &str)
        ensures
            final(self).scopes@.len() == old(self).scopes@.len(),
            final(self).current_fun == old(self).current_fun,
            final(self).current_class == old(self).current_class,
            final(self).errors@ == old(self).errors@,
    {
        let n = self.scopes.len();
        if n > 0 {
            let slot = &mut self.scopes[n - 1];
            assoc_put(slot, name.to_owned(), true);
        }
    }

    /// Whether the innermost scope holds `name` declared but not ready:
    /// the `let x = x;` situation.
    fn declared_not_ready(&self, name: &Token) -> (r: bool)
        ensures
            r == (self.scopes@.len() > 0 && assoc_lookup(
                self.scopes@.last()@,
                name.lexeme@,
            ) == Some(false)),
    {
        let n = self.scopes.len();
        if n == 0 {
            return false;
        }
        match assoc_get(&self.scopes[n - 1], name.get_lexeme().as_str()) {
            Some(ready) => !*ready,
            None => false,
        }
    }

    /// Resolves one statement. `ceiling` bounds the declaration indices
    /// that may be entered from here; the parser always registers a
    /// declaration after its body, so the bound is tight.
    #[verifier::loop_isolation(false)]
    fn resolve_stmt(
        &mut self,
        program: &Program,
        locals: &mut Locals,
        s: &Stmt,
        ceiling: usize,
        fuel: u64,
    )
        ensures
            final(self).scopes@.len() == old(self).scopes@.len(),
            final(self).current_fun == old(self).current_fun,
            final(self).current_class == old(self).current_class,
            final(self).errors@.len() >= old(self).errors@.len(),
            (old(self).current_fun == FunCtx::NoFun && stmt_has_naked_return(*s))
                ==> final(self).errors@.len() > old(self).errors@.len(),
            (old(self).current_class == ClassCtx::NoClass && stmt_mentions_self_or_super(*s))
                ==> final(self).errors@.len() > old(self).errors@.len(),
        decreases fuel,
    {
        if fuel == 0 {
            // unreachable for any program the parser produced: its own
            // depth budget is far below this one; still, execution must
            // not start on a statement the resolver could not walk
            let token = match s {
                Stmt::Return { keyword, value: _ } => keyword.duplicate(),
                _ => crate::token::Token::synthetic(
                    crate::token::TokenKind::Eof,
                    String::new(),
                ),
            };
            self.errors.push(
                ResolutionError { kind: ResolutionErrorKind::NestingTooDeep, token },
            );
            return ;
        }
        let sub: u64 = fuel - 1;
        match s {
            Stmt::Expression { expr } => {
                self.resolve_expr(program, locals, expr, ceiling, sub);
            },
            Stmt::Print { expr } => {
                self.resolve_expr(program, locals, expr, ceiling, sub);
            },
            Stmt::Let { name, initializer } => {
                self.declare(name);
                match initializer {
                    Some(init) => {
                        self.resolve_expr(program, locals, init, ceiling, sub);
                    },
                    None => {},
                }
                self.mark_ready(name);
            },
            Stmt::Block { statements } => {
                self.begin_scope();
                let mut i: usize = 0;
                while i < statements.len()
                    invariant
                        i <= statements@.len(),
                        self.scopes@.len() == old(self).scopes@.len() + 1,
                        self.current_fun == old(self).current_fun,
                        self.current_class == old(self).current_class,
                        self.errors@.len() >= old(self).errors@.len(),
                        (old(self).current_fun == FunCtx::NoFun && (exists|j: int|
                            0 <= j < i && stmt_has_naked_return(#[trigger] statements@[j])))
                            ==> self.errors@.len() > old(self).errors@.len(),
                        (old(self).current_class == ClassCtx::NoClass && (exists|j: int|
                            0 <= j < i && stmt_mentions_self_or_super(
                                #[trigger] statements@[j],
                            ))) ==> self.errors@.len() > old(self).errors@.len(),
                    decreases statements@.len() - i,
                {
                    self.resolve_stmt(program, locals, &statements[i], ceiling, sub);
                    i = i + 1;
                }
                self.end_scope();
            },
            Stmt::If { cond, then_branch, else_branch } => {
                self.resolve_expr(program, locals, cond, ceiling, sub);
                self.resolve_stmt(program, locals, then_branch, ceiling, sub);
                match else_branch {
                    Some(e) => {
                        self.resolve_stmt(program, locals, e, ceiling, sub);
                    },
                    None => {},
                }
            },
            Stmt::While { cond, body } => {
                self.resolve_expr(program, locals, cond, ceiling, sub);
                self.resolve_stmt(program, locals, body, ceiling, sub);
            },
            Stmt::Fun { decl } => {
                if *decl < program.decls.len() && *decl < ceiling {
                    let name = program.decls[*decl].name.duplicate();
                    self.declare(&name);
                    self.mark_ready(&name);
                    self.resolve_function(program, locals, *decl, FunCtx::InFunction, sub);
                }
                // a declaration index at or above the ceiling cannot come
                // from the parser; nothing is resolved for it and the
                // reference stays a run-time error
            },
            Stmt::Return { keyword, value } => {
                if self.current_fun == FunCtx::NoFun {
                    self.error_at(keyword, ResolutionErrorKind::ReturnOutsideFunction);
                }
                match value {
                    Some(v) => {
                        self.resolve_expr(program, locals, v, ceiling, sub);
                    },
                    None => {},
                }
            },
            Stmt::ClassDecl { name, superclass, methods } => {
                let enclosing_class = self.current_class;
                self.current_class = ClassCtx::InClass;
                self.declare(name);
                self.mark_ready(name);
                let mut has_superclass = false;
                match superclass {
                    Some(sup) => {
                        let mut extends_itself = false;
                        match sup {
                            Expr::Variable { id: _, name: sup_name } => {
                                if crate::util::str_eqx(
                                    sup_name.get_lexeme().as_str(),
                                    name.get_lexeme().as_str(),
                                ) {
                                    extends_itself = true;
                                    self.error_at(
                                        sup_name,
                                        ResolutionErrorKind::ClassExtendsItself,
                                    );
                                }
                            },
                            _ => {},
                        }
                        if !extends_itself {
                            self.resolve_expr(program, locals, sup, ceiling, sub);
                        }
                        self.current_class = ClassCtx::InSubclass;
                        self.begin_scope();
                        self.define_synthetic("super");
                        has_superclass = true;
                    },
                    None => {},
                }
                self.begin_scope();
                self.define_synthetic("self");
                let mut i: usize = 0;
                while i < methods.len()
                    invariant
                        self.scopes@.len() == old(self).scopes@.len() + 1 + (if has_superclass {
                            1int
                        } else {
                            0int
                        }),
                        self.current_fun == old(self).current_fun,
                        self.errors@.len() >= old(self).errors@.len(),
                    decreases methods@.len() - i,
                {
                    let m = methods[i];
                    if m < program.decls.len() && m < ceiling {
                        let ctx = if crate::util::str_eqx(
                            program.decls[m].name.get_lexeme().as_str(),
                            "init",
                        ) {
                            FunCtx::InInitializer
                        } else {
                            FunCtx::InMethod
                        };
                        self.resolve_function(program, locals, m, ctx, sub);
                    }
                    i = i + 1;
                }
                self.end_scope();
                if has_superclass {
                    self.end_scope();
                }
                self.current_class = enclosing_class;
            },
            Stmt::Export { inner } => {
                self.resolve_stmt(program, locals, inner, ceiling, sub);
            },
            Stmt::UseStmt { .. } => {
                // imports are resolved outside the core; nothing to do
            },
            Stmt::BufferStmt(b) => {
                self.declare(&b.name);
                self.resolve_expr(program, locals, &b.obj, ceiling, sub);
                self.mark_ready(&b.name);
            },
            Stmt::PipelineStmt(p) => {
                self.declare(&p.name);
                self.resolve_expr(program, locals, &p.obj, ceiling, sub);
                self.mark_ready(&p.name);
            },
            Stmt::RenderStmt(rn) => {
                self.declare(&rn.name);
                let mut i: usize = 0;
                while i < rn.elements.len()
                    invariant
                        self.scopes@.len() == old(self).scopes@.len(),
                        self.current_fun == old(self).current_fun,
                        self.current_class == old(self).current_class,
                        self.errors@.len() >= old(self).errors@.len(),
                        (old(self).current_class == ClassCtx::NoClass && (exists|j: int|
                            0 <= j < i && expr_mentions_self_or_super(
                                #[trigger] rn.elements@[j],
                            ))) ==> self.errors@.len() > old(self).errors@.len(),
                    decreases rn.elements@.len() - i,
                {
                    self.resolve_expr(program, locals, &rn.elements[i], ceiling, sub);
                    i = i + 1;
                }
                self.mark_ready(&rn.name);
            },
        }
    }

    /// Resolves one function or method body: a fresh scope holding the
    /// parameters, then the body, with the declaration's own index as the
    /// new ceiling.
    #[verifier::loop_isolation(false)]
    fn resolve_function(
        &mut self,
        program: &Program,
        locals: &mut Locals,
        f: usize,
        ctx: FunCtx,
        fuel: u64,
    )
        requires
            f < program.decls@.len(),
        ensures
            final(self).scopes@.len() == old(self).scopes@.len(),
            final(self).current_fun == old(self).current_fun,
            final(self).current_class == old(self).current_class,
            final(self).errors@.len() >= old(self).errors@.len(),
        decreases fuel,
    {
        if fuel == 0 {
            return ;
        }
        let sub: u64 = fuel - 1;
        let enclosing_fun = self.current_fun;
        self.current_fun = ctx;
        self.begin_scope();
        let mut i: usize = 0;
        while i < program.decls[f].params.len()
            invariant
                f < program.decls@.len(),
                self.scopes@.len() == old(self).scopes@.len() + 1,
                self.current_class == old(self).current_class,
                self.errors@.len() >= old(self).errors@.len(),
            decreases program.decls@[f as int].params@.len() - i,
        {
            let p = program.decls[f].params[i].duplicate();
            self.declare(&p);
            self.mark_ready(&p);
            i = i + 1;
        }
        let mut j: usize = 0;
        while j < program.decls[f].body.len()
            invariant
                f < program.decls@.len(),
                self.scopes@.len() == old(self).scopes@.len() + 1,
                self.current_class == old(self).current_class,
                self.errors@.len() >= old(self).errors@.len(),
            decreases program.decls@[f as int].body@.len() - j,
        {
            self.resolve_stmt(program, locals, &program.decls[f].body[j], f, sub);
            j = j + 1;
        }
        self.end_scope();
        self.current_fun = enclosing_fun;
    }

    /// Resolves one expression.
    #[verifier::loop_isolation(false)]
    fn resolve_expr(
        &mut self,
        program: &Program,
        locals: &mut Locals,
        e: &Expr,
        ceiling: usize,
        fuel: u64,
    )
        ensures
            final(self).scopes@.len() == old(self).scopes@.len(),
            final(self).current_fun == old(self).current_fun,
            final(self).current_class == old(self).current_class,
            final(self).errors@.len() >= old(self).errors@.len(),
            (old(self).current_class == ClassCtx::NoClass && expr_mentions_self_or_super(*e))
                ==> final(self).errors@.len() > old(self).errors@.len(),
        decreases fuel,
    {
        if fuel == 0 {
            // unreachable for parser output; recorded so that execution
            // cannot start on an expression the resolver could not walk
            let token = crate::token::Token::synthetic(crate::token::TokenKind::Eof, String::new());
            self.errors.push(ResolutionError { kind: ResolutionErrorKind::NestingTooDeep, token });
            return ;
        }
        let sub: u64 = fuel - 1;
        match e {
            Expr::Literal { .. } => {},
            Expr::Grouping { id: _, inner } => {
                self.resolve_expr(program, locals, inner, ceiling, sub);
            },
            Expr::Unary { id: _, op: _, right } => {
                self.resolve_expr(program, locals, right, ceiling, sub);
            },
            Expr::Binary { id: _, op: _, left, right } => {
                self.resolve_expr(program, locals, left, ceiling, sub);
                self.resolve_expr(program, locals, right, ceiling, sub);
            },
            Expr::Logical { id: _, op: _, left, right } => {
                self.resolve_expr(program, locals, left, ceiling, sub);
                self.resolve_expr(program, locals, right, ceiling, sub);
            },
            Expr::Variable { id, name } => {
                if self.declared_not_ready(name) {
                    self.error_at(name, ResolutionErrorKind::SelfReferentialInitializer);
                }
                self.resolve_ref(locals, *id, name);
            },
            Expr::Assign { id, name, value } => {
                self.resolve_expr(program, locals, value, ceiling, sub);
                self.resolve_ref(locals, *id, name);
            },
            Expr::Call { id: _, paren: _, callee, args } => {
                self.resolve_expr(program, locals, callee, ceiling, sub);
                let mut i: usize = 0;
                while i < args.len()
                    invariant
                        self.scopes@.len() == old(self).scopes@.len(),
                        self.current_fun == old(self).current_fun,
                        self.current_class == old(self).current_class,
                        self.errors@.len() >= old(self).errors@.len(),
                        (old(self).current_class == ClassCtx::NoClass && (exists|j: int|
                            0 <= j < i && expr_mentions_self_or_super(#[trigger] args@[j])))
                            ==> self.errors@.len() > old(self).errors@.len(),
                        (old(self).current_class == ClassCtx::NoClass
                            && expr_mentions_self_or_super(**callee)) ==> self.errors@.len()
                            > old(self).errors@.len(),
                    decreases args@.len() - i,
                {
                    self.resolve_expr(program, locals, &args[i], ceiling, sub);
                    i = i + 1;
                }
            },
            Expr::GetProp(g) => {
                match &g.ty {
                    GetType::Name(_) => {},
                    GetType::Index(_, index) => {
                        self.resolve_expr(program, locals, index, ceiling, sub);
                    },
                }
                self.resolve_expr(program, locals, &g.object, ceiling, sub);
            },
            Expr::SetProp(sp) => {
                match &sp.ty {
                    SetType::Name(_) => {},
                    SetType::Index(_, index) => {
                        self.resolve_expr(program, locals, index, ceiling, sub);
                    },
                }
                self.resolve_expr(program, locals, &sp.obj, ceiling, sub);
                self.resolve_expr(program, locals, &sp.value, ceiling, sub);
            },
            Expr::ListLit { id: _, elements } => {
                let mut i: usize = 0;
                while i < elements.len()
                    invariant
                        self.scopes@.len() == old(self).scopes@.len(),
                        self.current_fun == old(self).current_fun,
                        self.current_class == old(self).current_class,
                        self.errors@.len() >= old(self).errors@.len(),
                        (old(self).current_class == ClassCtx::NoClass && (exists|j: int|
                            0 <= j < i && expr_mentions_self_or_super(
                                #[trigger] elements@[j],
                            ))) ==> self.errors@.len() > old(self).errors@.len(),
                    decreases elements@.len() - i,
                {
                    self.resolve_expr(program, locals, &elements[i], ceiling, sub);
                    i = i + 1;
                }
            },
            Expr::ObjLit(o) => {
                let mut i: usize = 0;
                while i < o.values.len()
                    invariant
                        self.scopes@.len() == old(self).scopes@.len(),
                        self.current_fun == old(self).current_fun,
                        self.current_class == old(self).current_class,
                        self.errors@.len() >= old(self).errors@.len(),
                        (old(self).current_class == ClassCtx::NoClass && (exists|j: int|
                            0 <= j < i && expr_mentions_self_or_super(
                                (#[trigger] o.values@[j]).1,
                            ))) ==> self.errors@.len() > old(self).errors@.len(),
                    decreases o.values@.len() - i,
                {
                    proof {
                        assert(decreases_to!(*e => o.values@[i as int]));
                        assert(decreases_to!(o.values@[i as int] => o.values@[i as int].1));
                    }
                    self.resolve_expr(program, locals, &o.values[i].1, ceiling, sub);
                    i = i + 1;
                }
            },
            Expr::Anon(a) => {
                if a.decl < program.decls.len() && a.decl < ceiling {
                    self.resolve_function(program, locals, a.decl, FunCtx::InFunction, sub);
                }
            },
            Expr::SelfExpr { id, keyword } => {
                if self.current_class == ClassCtx::NoClass {
                    self.error_at(keyword, ResolutionErrorKind::SelfOutsideMethod);
                } else {
                    self.resolve_ref(locals, *id, keyword);
                }
            },
            Expr::SuperExpr { id, keyword, method: _ } => {
                if self.current_class == ClassCtx::NoClass {
                    self.error_at(keyword, ResolutionErrorKind::SuperOutsideMethod);
                } else if self.current_class == ClassCtx::InClass {
                    self.error_at(keyword, ResolutionErrorKind::SuperWithoutSuperclass);
                } else {
                    self.resolve_ref(locals, *id, keyword);
                }
            },
        }
    }

    /// Runs the resolver over a whole program, filling the side-table.
    /// `Err` holds every resolution error found, and is returned exactly
    /// when at least one was found: execution must not start on it.
    /// Runs the pass over a whole program. Besides the aggregation
    /// guarantee, a `return` that no function body encloses — anywhere in
    /// the top-level statement tree — is rejected: resolution then fails
    /// and execution must not start.
    pub fn resolve(self, program: &Program, locals: &mut Locals) -> (r: Result<
        (),
        Vec<ResolutionError>,
    >)
        requires
            self.current_fun == FunCtx::NoFun,
            self.current_class == ClassCtx::NoClass,
            self.errors@.len() == 0,
        ensures
            r matches Err(es) ==> es@.len() >= 1,
            (exists|i: int|
                0 <= i < program.stmts@.len() && stmt_has_naked_return(
                    #[trigger] program.stmts@[i],
                )) ==> r is Err,
            (exists|i: int|
                0 <= i < program.stmts@.len() && stmt_mentions_self_or_super(
                    #[trigger] program.stmts@[i],
                )) ==> r is Err,
    {
        let mut this = self;
        let ceiling = program.decls.len();
        let mut i: usize = 0;
        while i < program.stmts.len()
            invariant
                i <= program.stmts@.len(),
                this.current_fun == FunCtx::NoFun,
                this.current_class == ClassCtx::NoClass,
                (exists|j: int|
                    0 <= j < i && stmt_has_naked_return(#[trigger] program.stmts@[j]))
                    ==> this.errors@.len() >= 1,
                (exists|j: int|
                    0 <= j < i && stmt_mentions_self_or_super(#[trigger] program.stmts@[j]))
                    ==> this.errors@.len() >= 1,
            decreases program.stmts@.len() - i,
        {
            this.resolve_stmt(program, locals, &program.stmts[i], ceiling, u64::MAX);
            i = i + 1;
        }
        if this.errors.len() == 0 {
            Ok(())
        } else {
            Err(this.errors)
        }
    }
}

} // verus!
