//! The parser: token stream to a sequence of top-level statements, by
//! recursive descent with the usual precedence ladder (assignment <
//! logical-or < logical-and < equality < comparison < additive <
//! multiplicative < unary < call/index/property < primary).
//!
//! Every produced node receives a fresh id. On a syntax error the parser
//! records it with the offending token, synchronizes to the next statement
//! boundary and goes on, so one pass can report several errors; if any
//! were recorded, parsing fails with the aggregated list and the partial
//! syntax tree is discarded — execution never proceeds on a syntactically
//! invalid script.
//!
//! Nesting depth is bounded by a budget proportional to the token count
//! (a valid program's nesting can never exceed it); exhausting it is
//! reported as a syntax error.

use vstd::prelude::*;

use crate::ast::{
    expr_decls_below, lemma_entries_decls_below_mono, lemma_expr_decls_below_mono,
    lemma_exprs_decls_below_mono, lemma_stmts_decls_below_mono, stmt_decls_below,
    stmts_decls_below, AnonFun, Buffer, Expr, FunDecl, Get, GetType, LitVal, Obj, Pipeline,
    Program, Render, SetExpr, SetType, Stmt,
};
use crate::error::SyntaxError;
use crate::token::{Lit, Token, TokenKind};
use crate::util::{next_id, IdGen};

verus! {

/// The recursive-descent parser's state: the token stream, the cursor,
/// the collected errors, and the declaration table being built.
pub struct Parser {
    pub tokens: Vec<Token>,
    pub pos: usize,
    pub errors: Vec<SyntaxError>,
    pub decls: Vec<FunDecl>,
    pub gen: IdGen,
}

impl Parser {
    /// The cursor always rests on a real token: the stream ends with an
    /// end-of-file token that is never consumed.
    pub open spec fn wf(&self) -> bool {
        &&& self.tokens@.len() >= 1
        &&& self.tokens@.last().kind == TokenKind::Eof
        &&& self.pos < self.tokens@.len()
        &&& forall|d: int|
            0 <= d < self.decls@.len() ==> stmts_decls_below(
                (#[trigger] self.decls@[d]).body@,
                d,
            )
    }

    pub fn new(tokens: Vec<Token>) -> (r: Parser)
        requires
            tokens@.len() >= 1,
            tokens@.last().kind == TokenKind::Eof,
        ensures
            r.wf(),
            r.errors@.len() == 0,
    {
        Parser { tokens, pos: 0, errors: Vec::new(), decls: Vec::new(), gen: IdGen::new() }
    }

    fn peek_kind(&self) -> (k: TokenKind)
        requires
            self.wf(),
        ensures
            k == self.tokens@[self.pos as int].kind,
    {
        self.tokens[self.pos].get_type()
    }

    fn peek_token(&self) -> (t: Token)
        requires
            self.wf(),
        ensures
            crate::token::tok_like(t, self.tokens@[self.pos as int]),
    {
        self.tokens[self.pos].duplicate()
    }

    fn check(&self, k: TokenKind) -> (r: bool)
        requires
            self.wf(),
        ensures
            r == (self.tokens@[self.pos as int].kind == k),
    {
        self.peek_kind() == k
    }

    /// Consumes the current token (unless it is the end-of-file token,
    /// which is never consumed) and returns a copy of it.
    fn advance(&mut self) -> (t: Token)
        requires
            old(self).wf(),
        ensures
            final(self).wf(),
            final(self).tokens@ == old(self).tokens@,
            final(self).decls@ == old(self).decls@,
            final(self).errors@ == old(self).errors@,
            old(self).pos <= final(self).pos <= old(self).pos + 1,
            crate::token::tok_like(t, old(self).tokens@[old(self).pos as int]),
            (final(self).pos == old(self).pos) == (old(self).tokens@[old(self).pos as int].kind
                == TokenKind::Eof),
    {
        let t = self.tokens[self.pos].duplicate();
        if self.peek_kind() != TokenKind::Eof {
            // the cursor can always move: only the final Eof token is
            // never consumed, and it was ruled out above
            let n = self.tokens.len();
            if self.pos < n - 1 {
                self.pos = self.pos + 1;
            }
        }
        t
    }

    /// Records a syntax error at the current token.
    fn error_here(&mut self, msg: &str)
        requires
            old(self).wf(),
        ensures
            final(self).wf(),
            final(self).tokens@ == old(self).tokens@,
            final(self).decls@ == old(self).decls@,
            final(self).pos == old(self).pos,
            final(self).errors@.len() == old(self).errors@.len() + 1,
    {
        let token = self.peek_token();
        self.errors.push(SyntaxError { token, msg: msg.to_owned() });
    }

    /// Consumes a token of kind `k`, or records `msg` as a syntax error.
    fn consume(&mut self, k: TokenKind, msg: &str) -> (r: Result<Token, ()>)
        requires
            old(self).wf(),
        ensures
            final(self).wf(),
            final(self).tokens@ == old(self).tokens@,
            final(self).decls@ == old(self).decls@,
            old(self).pos <= final(self).pos <= old(self).pos + 1,
            final(self).errors@.len() >= old(self).errors@.len(),
            r is Err ==> final(self).errors@.len() > old(self).errors@.len(),
    {
        if self.check(k) {
            Ok(self.advance())
        } else {
            self.error_here(msg);
            Err(())
        }
    }

    /// Discards tokens up to the next statement boundary: just past a
    /// semicolon, or just before a keyword that starts a statement.
    fn synchronize(&mut self)
        requires
            old(self).wf(),
        ensures
            final(self).wf(),
            final(self).tokens@ == old(self).tokens@,
            final(self).decls@ == old(self).decls@,
            final(self).errors@ == old(self).errors@,
            final(self).pos >= old(self).pos,
    {
        loop
            invariant
                self.wf(),
                self.tokens@ == old(self).tokens@,
                self.decls@ == old(self).decls@,
                self.errors@ == old(self).errors@,
                self.pos >= old(self).pos,
            decreases self.tokens@.len() - self.pos,
        {
            let k = self.peek_kind();
            if k == TokenKind::Eof {
                return ;
            }
            if k == TokenKind::Semicolon {
                self.advance();
                return ;
            }
            if k == TokenKind::Class || k == TokenKind::Fn || k == TokenKind::Let || k
                == TokenKind::If || k == TokenKind::While || k == TokenKind::Print || k
                == TokenKind::Return || k == TokenKind::Export || k == TokenKind::Use || k
                == TokenKind::Buffer || k == TokenKind::Pipeline || k == TokenKind::Render {
                return ;
            }
            let before = self.pos;
            self.advance();
            if self.pos == before {
                return ;
            }
        }
    }

    /// Parses the whole stream. `Ok` holds the program; `Err` holds every
    /// syntax error found, and is returned exactly when at least one was
    /// recorded — no partial program ever escapes.
    pub fn parse(self) -> (r: Result<Program, Vec<SyntaxError>>)
        requires
            self.wf(),
            self.errors@.len() == 0,
        ensures
            r matches Err(es) ==> es@.len() >= 1,
            r matches Ok(p) ==> (forall|d: int|
                0 <= d < p.decls@.len() ==> stmts_decls_below(
                    (#[trigger] p.decls@[d]).body@,
                    d,
                )) && stmts_decls_below(p.stmts@, p.decls@.len() as int),
    {
        let mut this = self;
        let mut stmts: Vec<Stmt> = Vec::new();
        let budget_base = this.tokens.len();
        let budget: u64 = if budget_base < 100_000_000 {
            (budget_base as u64) * 16 + 64
        } else {
            u64::MAX
        };
        loop
            invariant
                this.wf(),
                stmts_decls_below(stmts@, this.decls@.len() as int),
            decreases this.tokens@.len() - this.pos,
        {
            if this.peek_kind() == TokenKind::Eof {
                break ;
            }
            let before = this.pos;
            let ghost len0 = this.decls@.len() as int;
            match this.parse_declaration(budget) {
                Ok(s) => {
                    proof {
                        lemma_stmts_decls_below_mono(stmts@, len0, this.decls@.len() as int);
                    }
                    stmts.push(s);
                },
                Err(()) => {
                    proof {
                        lemma_stmts_decls_below_mono(stmts@, len0, this.decls@.len() as int);
                    }
                    this.synchronize();
                },
            }
            if this.pos == before {
                // no progress was made on this statement: drop the token
                // so the pass always moves forward
                this.advance();
                if this.pos == before {
                    break ;
                }
            }
        }
        if this.errors.len() == 0 {
            let next_id_val = this.gen.peek();
            Ok(Program { decls: this.decls, stmts, next_id: next_id_val })
        } else {
            Err(this.errors)
        }
    }

    /// declaration := class | fn | let | statement
    fn parse_declaration(&mut self, depth: u64) -> (r: Result<Stmt, ()>)
        requires
            old(self).wf(),
        ensures
            final(self).decls@.len() >= old(self).decls@.len(),
            r matches Ok(st) ==> stmt_decls_below(st, final(self).decls@.len() as int),
            final(self).wf(),
            final(self).tokens@ == old(self).tokens@,
            final(self).pos >= old(self).pos,
        decreases depth, 3int,
    {
        if depth == 0 {
            self.error_here("statement too deeply nested");
            return Err(());
        }
        let sub: u64 = depth - 1;
        let k = self.peek_kind();
        if k == TokenKind::Class {
            self.parse_class(sub)
        } else if k == TokenKind::Fn {
            // `fn` followed by a name declares a function; `fn (` is an
            // anonymous function expression, left to the expression parser
            let n = self.tokens.len();
            if self.pos < n - 1 && self.tokens[self.pos + 1].get_type() == TokenKind::Identifier {
                self.parse_fn_decl(sub)
            } else {
                self.parse_statement(sub)
            }
        } else if k == TokenKind::Let {
            self.parse_let(sub)
        } else {
            self.parse_statement(sub)
        }
    }

    /// class := 'class' IDENT ('<' IDENT)? '{' method* '}'
    #[verifier::loop_isolation(false)]
    fn parse_class(&mut self, depth: u64) -> (r: Result<Stmt, ()>)
        requires
            old(self).wf(),
        ensures
            final(self).decls@.len() >= old(self).decls@.len(),
            r matches Ok(st) ==> stmt_decls_below(st, final(self).decls@.len() as int),
            final(self).wf(),
            final(self).tokens@ == old(self).tokens@,
            final(self).pos >= old(self).pos,
        decreases depth, 2int,
    {
        if depth == 0 {
            self.error_here("statement too deeply nested");
            return Err(());
        }
        let sub: u64 = depth - 1;
        self.advance();  // 'class'
        let name = match self.consume(TokenKind::Identifier, "expect a class name") {
            Ok(t) => t,
            Err(()) => {
                return Err(());
            },
        };
        let mut superclass: Option<Expr> = None;
        if self.check(TokenKind::Less) {
            self.advance();
            let sup = match self.consume(TokenKind::Identifier, "expect a superclass name") {
                Ok(t) => t,
                Err(()) => {
                    return Err(());
                },
            };
            superclass = Some(Expr::Variable { id: next_id(&mut self.gen), name: sup });
        }
        if let Err(()) = self.consume(TokenKind::LeftBrace, "expect '{' before the class body") {
            return Err(());
        }
        let mut methods: Vec<usize> = Vec::new();
        loop
            invariant
                self.wf(),
                self.tokens@ == old(self).tokens@,
                self.decls@.len() >= old(self).decls@.len(),
                self.pos >= old(self).pos,
                forall|k: int| 0 <= k < methods@.len() ==> #[trigger] methods@[k]
                    < self.decls@.len(),
            decreases self.tokens@.len() - self.pos,
        {
            if self.check(TokenKind::RightBrace) || self.check(TokenKind::Eof) {
                break ;
            }
            let before = self.pos;
            match self.parse_fun_body(sub, "method") {
                Ok(decl_index) => {
                    methods.push(decl_index);
                },
                Err(()) => {
                    return Err(());
                },
            }
            if self.pos == before {
                break ;
            }
        }
        if let Err(()) = self.consume(TokenKind::RightBrace, "expect '}' after the class body") {
            return Err(());
        }
        Ok(Stmt::ClassDecl { name, superclass, methods })
    }

    /// fn := 'fn' IDENT functionBody
    fn parse_fn_decl(&mut self, depth: u64) -> (r: Result<Stmt, ()>)
        requires
            old(self).wf(),
        ensures
            final(self).decls@.len() >= old(self).decls@.len(),
            r matches Ok(st) ==> stmt_decls_below(st, final(self).decls@.len() as int),
            final(self).wf(),
            final(self).tokens@ == old(self).tokens@,
            final(self).pos >= old(self).pos,
        decreases depth, 2int,
    {
        if depth == 0 {
            self.error_here("statement too deeply nested");
            return Err(());
        }
        let sub: u64 = depth - 1;
        self.advance();  // 'fn'
        match self.parse_fun_body(sub, "function") {
            Ok(decl_index) => Ok(Stmt::Fun { decl: decl_index }),
            Err(()) => Err(()),
        }
    }

    /// IDENT '(' params? ')' '{' body '}' — parses one named function or
    /// method, registers it in the declaration table, and returns its
    /// index. The body is parsed before the declaration is registered, so
    /// every declaration reachable from a body has a smaller index.
    fn parse_fun_body(&mut self, depth: u64, what: &str) -> (r: Result<usize, ()>)
        requires
            old(self).wf(),
        ensures
            final(self).decls@.len() >= old(self).decls@.len(),
            r matches Ok(idx) ==> idx < final(self).decls@.len(),
            final(self).wf(),
            final(self).tokens@ == old(self).tokens@,
            final(self).pos >= old(self).pos,
        decreases depth, 1int,
    {
        if depth == 0 {
            self.error_here("statement too deeply nested");
            return Err(());
        }
        let sub: u64 = depth - 1;
        let name = match self.consume(TokenKind::Identifier, "expect a name") {
            Ok(t) => t,
            Err(()) => {
                return Err(());
            },
        };
        let params = match self.parse_params(what) {
            Ok(ps) => ps,
            Err(()) => {
                return Err(());
            },
        };
        if let Err(()) = self.consume(TokenKind::LeftBrace, "expect '{' before the body") {
            return Err(());
        }
        let body = match self.parse_block_stmts(sub) {
            Ok(b) => b,
            Err(()) => {
                return Err(());
            },
        };
        let id = next_id(&mut self.gen);
        let decl_index = self.decls.len();
        let ghost table0 = self.decls@;
        self.decls.push(FunDecl { id, name, params, body });
        proof {
            // the body was finished before this registration, so every
            // declaration it mentions is older than this one; the rest of
            // the table is untouched
            assert forall|d: int|
                0 <= d < self.decls@.len() implies stmts_decls_below(
                (#[trigger] self.decls@[d]).body@,
                d,
            ) by {
                if d < decl_index {
                    assert(self.decls@[d] == table0[d]);
                }
            }
        }
        Ok(decl_index)
    }

    /// '(' (IDENT (',' IDENT)*)? ')'
    fn parse_params(&mut self, what: &str) -> (r: Result<Vec<Token>, ()>)
        requires
            old(self).wf(),
        ensures
            final(self).decls@.len() >= old(self).decls@.len(),
            final(self).wf(),
            final(self).tokens@ == old(self).tokens@,
            final(self).pos >= old(self).pos,
    {
        if let Err(()) = self.consume(TokenKind::LeftParen, "expect '(' after the name") {
            return Err(());
        }
        let mut params: Vec<Token> = Vec::new();
        if !self.check(TokenKind::RightParen) {
            loop
                invariant
                    self.wf(),
                    self.tokens@ == old(self).tokens@,
                    self.decls@ == old(self).decls@,
                    self.pos >= old(self).pos,
                decreases self.tokens@.len() - self.pos,
            {
                let p = match self.consume(TokenKind::Identifier, "expect a parameter name") {
                    Ok(t) => t,
                    Err(()) => {
                        return Err(());
                    },
                };
                params.push(p);
                if self.check(TokenKind::Comma) {
                    self.advance();
                } else {
                    break ;
                }
            }
        }
        if let Err(()) = self.consume(TokenKind::RightParen, "expect ')' after the parameters") {
            return Err(());
        }
        Ok(params)
    }

    /// The statements of a block, up to the closing brace (consumed).
    #[verifier::loop_isolation(false)]
    fn parse_block_stmts(&mut self, depth: u64) -> (r: Result<Vec<Stmt>, ()>)
        requires
            old(self).wf(),
        ensures
            final(self).decls@.len() >= old(self).decls@.len(),
            r matches Ok(b) ==> stmts_decls_below(b@, final(self).decls@.len() as int),
            final(self).wf(),
            final(self).tokens@ == old(self).tokens@,
            final(self).pos >= old(self).pos,
        decreases depth, 0int,
    {
        if depth == 0 {
            self.error_here("statement too deeply nested");
            return Err(());
        }
        let sub: u64 = depth - 1;
        let mut stmts: Vec<Stmt> = Vec::new();
        loop
            invariant
                self.wf(),
                self.tokens@ == old(self).tokens@,
                self.decls@.len() >= old(self).decls@.len(),
                self.pos >= old(self).pos,
                stmts_decls_below(stmts@, self.decls@.len() as int),
            decreases self.tokens@.len() - self.pos,
        {
            if self.check(TokenKind::RightBrace) || self.check(TokenKind::Eof) {
                break ;
            }
            let before = self.pos;
            let ghost len0 = self.decls@.len() as int;
            match self.parse_declaration(sub) {
                Ok(s) => {
                    proof {
                        lemma_stmts_decls_below_mono(stmts@, len0, self.decls@.len() as int);
                    }
                    stmts.push(s);
                },
                Err(()) => {
                    return Err(());
                },
            }
            if self.pos == before {
                break ;
            }
        }
        if let Err(()) = self.consume(TokenKind::RightBrace, "expect '}' after the block") {
            return Err(());
        }
        Ok(stmts)
    }

    /// let := 'let' IDENT ('=' expression)? ';'
    fn parse_let(&mut self, depth: u64) -> (r: Result<Stmt, ()>)
        requires
            old(self).wf(),
        ensures
            final(self).decls@.len() >= old(self).decls@.len(),
            r matches Ok(st) ==> stmt_decls_below(st, final(self).decls@.len() as int),
            final(self).wf(),
            final(self).tokens@ == old(self).tokens@,
            final(self).pos >= old(self).pos,
        decreases depth, 2int,
    {
        if depth == 0 {
            self.error_here("statement too deeply nested");
            return Err(());
        }
        let sub: u64 = depth - 1;
        self.advance();  // 'let'
        let name = match self.consume(TokenKind::Identifier, "expect a variable name") {
            Ok(t) => t,
            Err(()) => {
                return Err(());
            },
        };
        let mut initializer: Option<Expr> = None;
        if self.check(TokenKind::Equal) {
            self.advance();
            match self.parse_expression(sub) {
                Ok(e) => {
                    initializer = Some(e);
                },
                Err(()) => {
                    return Err(());
                },
            }
        }
        if let Err(()) = self.consume(
            TokenKind::Semicolon,
            "expect ';' after the variable declaration",
        ) {
            return Err(());
        }
        Ok(Stmt::Let { name, initializer })
    }

    /// statement := print | return | while | if | block | export | use |
    /// buffer | pipeline | render | expression ';'
    #[verifier::loop_isolation(false)]
    fn parse_statement(&mut self, depth: u64) -> (r: Result<Stmt, ()>)
        requires
            old(self).wf(),
        ensures
            final(self).decls@.len() >= old(self).decls@.len(),
            r matches Ok(st) ==> stmt_decls_below(st, final(self).decls@.len() as int),
            final(self).wf(),
            final(self).tokens@ == old(self).tokens@,
            final(self).pos >= old(self).pos,
        decreases depth, 2int,
    {
        if depth == 0 {
            self.error_here("statement too deeply nested");
            return Err(());
        }
        let sub: u64 = depth - 1;
        let k = self.peek_kind();
        // `buffer`, `pipeline` and `render` open a host-facing binding
        // only in the shape `keyword name = ...`; anywhere else they are
        // ordinary names (the native `render(...)` for one)
        let binding_shape = (k == TokenKind::Buffer || k == TokenKind::Pipeline || k
            == TokenKind::Render) && {
            let n = self.tokens.len();
            self.pos < n - 2 && self.tokens[self.pos + 1].get_type() == TokenKind::Identifier
                && self.tokens[self.pos + 2].get_type() == TokenKind::Equal
        };
        if k == TokenKind::Print {
            self.advance();
            let expr = match self.parse_expression(sub) {
                Ok(e) => e,
                Err(()) => {
                    return Err(());
                },
            };
            if let Err(()) = self.consume(TokenKind::Semicolon, "expect ';' after the value") {
                return Err(());
            }
            Ok(Stmt::Print { expr })
        } else if k == TokenKind::Return {
            let keyword = self.advance();
            let mut value: Option<Expr> = None;
            if !self.check(TokenKind::Semicolon) {
                match self.parse_expression(sub) {
                    Ok(e) => {
                        value = Some(e);
                    },
                    Err(()) => {
                        return Err(());
                    },
                }
            }
            if let Err(()) = self.consume(
                TokenKind::Semicolon,
                "expect ';' after the return value",
            ) {
                return Err(());
            }
            Ok(Stmt::Return { keyword, value })
        } else if k == TokenKind::While {
            self.advance();
            if let Err(()) = self.consume(TokenKind::LeftParen, "expect '(' after 'while'") {
                return Err(());
            }
            let cond = match self.parse_expression(sub) {
                Ok(e) => e,
                Err(()) => {
                    return Err(());
                },
            };
            if let Err(()) = self.consume(TokenKind::RightParen, "expect ')' after the condition")
                {
                return Err(());
            }
            let ghost len_cond = self.decls@.len() as int;
            let body = match self.parse_statement(sub) {
                Ok(s) => s,
                Err(()) => {
                    return Err(());
                },
            };
            proof {
                lemma_expr_decls_below_mono(cond, len_cond, self.decls@.len() as int);
            }
            Ok(Stmt::While { cond, body: Box::new(body) })
        } else if k == TokenKind::If {
            self.advance();
            if let Err(()) = self.consume(TokenKind::LeftParen, "expect '(' after 'if'") {
                return Err(());
            }
            let cond = match self.parse_expression(sub) {
                Ok(e) => e,
                Err(()) => {
                    return Err(());
                },
            };
            if let Err(()) = self.consume(TokenKind::RightParen, "expect ')' after the condition")
                {
                return Err(());
            }
            let ghost len_cond = self.decls@.len() as int;
            let then_branch = match self.parse_statement(sub) {
                Ok(s) => s,
                Err(()) => {
                    return Err(());
                },
            };
            let ghost len_then = self.decls@.len() as int;
            let mut else_branch: Option<Box<Stmt>> = None;
            if self.check(TokenKind::Else) {
                self.advance();
                match self.parse_statement(sub) {
                    Ok(s) => {
                        else_branch = Some(Box::new(s));
                    },
                    Err(()) => {
                        return Err(());
                    },
                }
            }
            proof {
                lemma_expr_decls_below_mono(cond, len_cond, self.decls@.len() as int);
                crate::ast::lemma_stmt_decls_below_mono(
                    then_branch,
                    len_then,
                    self.decls@.len() as int,
                );
            }
            Ok(Stmt::If { cond, then_branch: Box::new(then_branch), else_branch })
        } else if k == TokenKind::LeftBrace {
            self.advance();
            let statements = match self.parse_block_stmts(sub) {
                Ok(b) => b,
                Err(()) => {
                    return Err(());
                },
            };
            Ok(Stmt::Block { statements })
        } else if k == TokenKind::Export {
            self.advance();
            let inner = match self.parse_declaration(sub) {
                Ok(s) => s,
                Err(()) => {
                    return Err(());
                },
            };
            Ok(Stmt::Export { inner: Box::new(inner) })
        } else if k == TokenKind::Use {
            self.advance();
            let path = if self.check(TokenKind::Str) {
                self.advance()
            } else {
                match self.consume(TokenKind::Identifier, "expect a module path after 'use'") {
                    Ok(t) => t,
                    Err(()) => {
                        return Err(());
                    },
                }
            };
            if let Err(()) = self.consume(TokenKind::Semicolon, "expect ';' after 'use'") {
                return Err(());
            }
            Ok(Stmt::UseStmt { path })
        } else if k == TokenKind::Buffer && binding_shape {
            self.advance();
            let (name, value) = match self.parse_named_binding(sub) {
                Ok(p) => p,
                Err(()) => {
                    return Err(());
                },
            };
            Ok(Stmt::BufferStmt(Buffer::new(name, Box::new(value))))
        } else if k == TokenKind::Pipeline && binding_shape {
            self.advance();
            let (name, value) = match self.parse_named_binding(sub) {
                Ok(p) => p,
                Err(()) => {
                    return Err(());
                },
            };
            Ok(Stmt::PipelineStmt(Pipeline::new(name, Box::new(value))))
        } else if k == TokenKind::Render && binding_shape {
            self.advance();
            let name = match self.consume(TokenKind::Identifier, "expect a name after 'render'") {
                Ok(t) => t,
                Err(()) => {
                    return Err(());
                },
            };
            if let Err(()) = self.consume(TokenKind::Equal, "expect '=' after the name") {
                return Err(());
            }
            let mut elements: Vec<Expr> = Vec::new();
            loop
                invariant
                    self.wf(),
                    self.tokens@ == old(self).tokens@,
                    self.decls@.len() >= old(self).decls@.len(),
                    self.pos >= old(self).pos,
                    forall|k: int|
                        0 <= k < elements@.len() ==> expr_decls_below(
                            #[trigger] elements@[k],
                            self.decls@.len() as int,
                        ),
                decreases self.tokens@.len() - self.pos,
            {
                let before = self.pos;
                let ghost len0 = self.decls@.len() as int;
                match self.parse_expression(sub) {
                    Ok(e) => {
                        proof {
                            lemma_exprs_decls_below_mono(
                                elements@,
                                len0,
                                self.decls@.len() as int,
                            );
                        }
                        elements.push(e);
                    },
                    Err(()) => {
                        return Err(());
                    },
                }
                if self.check(TokenKind::Comma) {
                    self.advance();
                } else {
                    break ;
                }
                if self.pos == before {
                    break ;
                }
            }
            if let Err(()) = self.consume(TokenKind::Semicolon, "expect ';' after 'render'") {
                return Err(());
            }
            Ok(Stmt::RenderStmt(Render::new(name, elements)))
        } else {
            let expr = match self.parse_expression(sub) {
                Ok(e) => e,
                Err(()) => {
                    return Err(());
                },
            };
            if let Err(()) = self.consume(TokenKind::Semicolon, "expect ';' after the expression")
                {
                return Err(());
            }
            Ok(Stmt::Expression { expr })
        }
    }

    /// IDENT '=' expression ';' — the shape shared by `buffer` and
    /// `pipeline` statements.
    fn parse_named_binding(&mut self, depth: u64) -> (r: Result<(Token, Expr), ()>)
        requires
            old(self).wf(),
        ensures
            final(self).decls@.len() >= old(self).decls@.len(),
            r matches Ok(p) ==> expr_decls_below(p.1, final(self).decls@.len() as int),
            final(self).wf(),
            final(self).tokens@ == old(self).tokens@,
            final(self).pos >= old(self).pos,
        decreases depth, 1int,
    {
        if depth == 0 {
            self.error_here("statement too deeply nested");
            return Err(());
        }
        let sub: u64 = depth - 1;
        let name = match self.consume(TokenKind::Identifier, "expect a name") {
            Ok(t) => t,
            Err(()) => {
                return Err(());
            },
        };
        if let Err(()) = self.consume(TokenKind::Equal, "expect '=' after the name") {
            return Err(());
        }
        let value = match self.parse_expression(sub) {
            Ok(e) => e,
            Err(()) => {
                return Err(());
            },
        };
        if let Err(()) = self.consume(TokenKind::Semicolon, "expect ';' after the binding") {
            return Err(());
        }
        Ok((name, value))
    }

    /// expression := assignment
    fn parse_expression(&mut self, depth: u64) -> (r: Result<Expr, ()>)
        requires
            old(self).wf(),
        ensures
            final(self).decls@.len() >= old(self).decls@.len(),
            r matches Ok(e2) ==> expr_decls_below(e2, final(self).decls@.len() as int),
            final(self).wf(),
            final(self).tokens@ == old(self).tokens@,
            final(self).pos >= old(self).pos,
        decreases depth, 9int,
    {
        if depth == 0 {
            self.error_here("expression too deeply nested");
            return Err(());
        }
        let sub: u64 = depth - 1;
        self.parse_assignment(sub)
    }

    /// assignment := (call '.')? target '=' assignment | logic_or
    fn parse_assignment(&mut self, depth: u64) -> (r: Result<Expr, ()>)
        requires
            old(self).wf(),
        ensures
            final(self).decls@.len() >= old(self).decls@.len(),
            r matches Ok(e2) ==> expr_decls_below(e2, final(self).decls@.len() as int),
            final(self).wf(),
            final(self).tokens@ == old(self).tokens@,
            final(self).pos >= old(self).pos,
        decreases depth, 8int,
    {
        if depth == 0 {
            self.error_here("expression too deeply nested");
            return Err(());
        }
        let sub: u64 = depth - 1;
        let target = match self.parse_or(sub) {
            Ok(e) => e,
            Err(()) => {
                return Err(());
            },
        };
        if self.check(TokenKind::Equal) {
            self.advance();
            let ghost len0 = self.decls@.len() as int;
            let value = match self.parse_assignment(sub) {
                Ok(e) => e,
                Err(()) => {
                    return Err(());
                },
            };
            proof {
                lemma_expr_decls_below_mono(target, len0, self.decls@.len() as int);
            }
            match target {
                Expr::Variable { id: _, name } => {
                    return Ok(
                        Expr::Assign {
                            id: next_id(&mut self.gen),
                            name,
                            value: Box::new(value),
                        },
                    );
                },
                Expr::GetProp(get) => {
                    let Get { id: _, ty, object } = get;
                    return Ok(
                        Expr::SetProp(
                            SetExpr::new(
                                &mut self.gen,
                                SetType::from(ty),
                                object,
                                Box::new(value),
                            ),
                        ),
                    );
                },
                _ => {
                    self.error_here("invalid assignment target");
                    return Err(());
                },
            }
        }
        Ok(target)
    }

    /// logic_or := logic_and ('or' logic_and)*
    #[verifier::loop_isolation(false)]
    fn parse_or(&mut self, depth: u64) -> (r: Result<Expr, ()>)
        requires
            old(self).wf(),
        ensures
            final(self).decls@.len() >= old(self).decls@.len(),
            r matches Ok(e2) ==> expr_decls_below(e2, final(self).decls@.len() as int),
            final(self).wf(),
            final(self).tokens@ == old(self).tokens@,
            final(self).pos >= old(self).pos,
        decreases depth, 7int,
    {
        if depth == 0 {
            self.error_here("expression too deeply nested");
            return Err(());
        }
        let sub: u64 = depth - 1;
        let mut left = match self.parse_and(sub) {
            Ok(e) => e,
            Err(()) => {
                return Err(());
            },
        };
        loop
            invariant
                self.wf(),
                self.tokens@ == old(self).tokens@,
                self.decls@.len() >= old(self).decls@.len(),
                self.pos >= old(self).pos,
                expr_decls_below(left, self.decls@.len() as int),
            decreases self.tokens@.len() - self.pos,
        {
            if !self.check(TokenKind::Or) {
                break ;
            }
            let before = self.pos;
            let op = self.advance();
            let ghost len0 = self.decls@.len() as int;
            let right = match self.parse_and(sub) {
                Ok(e) => e,
                Err(()) => {
                    return Err(());
                },
            };
            proof {
                lemma_expr_decls_below_mono(left, len0, self.decls@.len() as int);
            }
            left = Expr::Logical {
                id: next_id(&mut self.gen),
                op,
                left: Box::new(left),
                right: Box::new(right),
            };
            if self.pos == before {
                break ;
            }
        }
        Ok(left)
    }

    /// logic_and := equality ('and' equality)*
    #[verifier::loop_isolation(false)]
    fn parse_and(&mut self, depth: u64) -> (r: Result<Expr, ()>)
        requires
            old(self).wf(),
        ensures
            final(self).decls@.len() >= old(self).decls@.len(),
            r matches Ok(e2) ==> expr_decls_below(e2, final(self).decls@.len() as int),
            final(self).wf(),
            final(self).tokens@ == old(self).tokens@,
            final(self).pos >= old(self).pos,
        decreases depth, 6int,
    {
        if depth == 0 {
            self.error_here("expression too deeply nested");
            return Err(());
        }
        let sub: u64 = depth - 1;
        let mut left = match self.parse_equality(sub) {
            Ok(e) => e,
            Err(()) => {
                return Err(());
            },
        };
        loop
            invariant
                self.wf(),
                self.tokens@ == old(self).tokens@,
                self.decls@.len() >= old(self).decls@.len(),
                self.pos >= old(self).pos,
                expr_decls_below(left, self.decls@.len() as int),
            decreases self.tokens@.len() - self.pos,
        {
            if !self.check(TokenKind::And) {
                break ;
            }
            let before = self.pos;
            let op = self.advance();
            let ghost len0 = self.decls@.len() as int;
            let right = match self.parse_equality(sub) {
                Ok(e) => e,
                Err(()) => {
                    return Err(());
                },
            };
            proof {
                lemma_expr_decls_below_mono(left, len0, self.decls@.len() as int);
            }
            left = Expr::Logical {
                id: next_id(&mut self.gen),
                op,
                left: Box::new(left),
                right: Box::new(right),
            };
            if self.pos == before {
                break ;
            }
        }
        Ok(left)
    }

    /// equality := comparison (('==' | '!=') comparison)*
    #[verifier::loop_isolation(false)]
    fn parse_equality(&mut self, depth: u64) -> (r: Result<Expr, ()>)
        requires
            old(self).wf(),
        ensures
            final(self).decls@.len() >= old(self).decls@.len(),
            r matches Ok(e2) ==> expr_decls_below(e2, final(self).decls@.len() as int),
            final(self).wf(),
            final(self).tokens@ == old(self).tokens@,
            final(self).pos >= old(self).pos,
        decreases depth, 5int,
    {
        if depth == 0 {
            self.error_here("expression too deeply nested");
            return Err(());
        }
        let sub: u64 = depth - 1;
        let mut left = match self.parse_comparison(sub) {
            Ok(e) => e,
            Err(()) => {
                return Err(());
            },
        };
        loop
            invariant
                self.wf(),
                self.tokens@ == old(self).tokens@,
                self.decls@.len() >= old(self).decls@.len(),
                self.pos >= old(self).pos,
                expr_decls_below(left, self.decls@.len() as int),
            decreases self.tokens@.len() - self.pos,
        {
            if !(self.check(TokenKind::EqualEqual) || self.check(TokenKind::BangEqual)) {
                break ;
            }
            let before = self.pos;
            let op = self.advance();
            let ghost len0 = self.decls@.len() as int;
            let right = match self.parse_comparison(sub) {
                Ok(e) => e,
                Err(()) => {
                    return Err(());
                },
            };
            proof {
                lemma_expr_decls_below_mono(left, len0, self.decls@.len() as int);
            }
            left = Expr::Binary {
                id: next_id(&mut self.gen),
                op,
                left: Box::new(left),
                right: Box::new(right),
            };
            if self.pos == before {
                break ;
            }
        }
        Ok(left)
    }

    /// comparison := term (('<' | '<=' | '>' | '>=') term)*
    #[verifier::loop_isolation(false)]
    fn parse_comparison(&mut self, depth: u64) -> (r: Result<Expr, ()>)
        requires
            old(self).wf(),
        ensures
            final(self).decls@.len() >= old(self).decls@.len(),
            r matches Ok(e2) ==> expr_decls_below(e2, final(self).decls@.len() as int),
            final(self).wf(),
            final(self).tokens@ == old(self).tokens@,
            final(self).pos >= old(self).pos,
        decreases depth, 4int,
    {
        if depth == 0 {
            self.error_here("expression too deeply nested");
            return Err(());
        }
        let sub: u64 = depth - 1;
        let mut left = match self.parse_term(sub) {
            Ok(e) => e,
            Err(()) => {
                return Err(());
            },
        };
        loop
            invariant
                self.wf(),
                self.tokens@ == old(self).tokens@,
                self.decls@.len() >= old(self).decls@.len(),
                self.pos >= old(self).pos,
                expr_decls_below(left, self.decls@.len() as int),
            decreases self.tokens@.len() - self.pos,
        {
            if !(self.check(TokenKind::Less) || self.check(TokenKind::LessEqual) || self.check(
                TokenKind::Greater,
            ) || self.check(TokenKind::GreaterEqual)) {
                break ;
            }
            let before = self.pos;
            let op = self.advance();
            let ghost len0 = self.decls@.len() as int;
            let right = match self.parse_term(sub) {
                Ok(e) => e,
                Err(()) => {
                    return Err(());
                },
            };
            proof {
                lemma_expr_decls_below_mono(left, len0, self.decls@.len() as int);
            }
            left = Expr::Binary {
                id: next_id(&mut self.gen),
                op,
                left: Box::new(left),
                right: Box::new(right),
            };
            if self.pos == before {
                break ;
            }
        }
        Ok(left)
    }

    /// term := factor (('+' | '-') factor)*
    #[verifier::loop_isolation(false)]
    fn parse_term(&mut self, depth: u64) -> (r: Result<Expr, ()>)
        requires
            old(self).wf(),
        ensures
            final(self).decls@.len() >= old(self).decls@.len(),
            r matches Ok(e2) ==> expr_decls_below(e2, final(self).decls@.len() as int),
            final(self).wf(),
            final(self).tokens@ == old(self).tokens@,
            final(self).pos >= old(self).pos,
        decreases depth, 3int,
    {
        if depth == 0 {
            self.error_here("expression too deeply nested");
            return Err(());
        }
        let sub: u64 = depth - 1;
        let mut left = match self.parse_factor(sub) {
            Ok(e) => e,
            Err(()) => {
                return Err(());
            },
        };
        loop
            invariant
                self.wf(),
                self.tokens@ == old(self).tokens@,
                self.decls@.len() >= old(self).decls@.len(),
                self.pos >= old(self).pos,
                expr_decls_below(left, self.decls@.len() as int),
            decreases self.tokens@.len() - self.pos,
        {
            if !(self.check(TokenKind::Plus) || self.check(TokenKind::Minus)) {
                break ;
            }
            let before = self.pos;
            let op = self.advance();
            let ghost len0 = self.decls@.len() as int;
            let right = match self.parse_factor(sub) {
                Ok(e) => e,
                Err(()) => {
                    return Err(());
                },
            };
            proof {
                lemma_expr_decls_below_mono(left, len0, self.decls@.len() as int);
            }
            left = Expr::Binary {
                id: next_id(&mut self.gen),
                op,
                left: Box::new(left),
                right: Box::new(right),
            };
            if self.pos == before {
                break ;
            }
        }
        Ok(left)
    }

    /// factor := unary (('*' | '/') unary)*
    #[verifier::loop_isolation(false)]
    fn parse_factor(&mut self, depth: u64) -> (r: Result<Expr, ()>)
        requires
            old(self).wf(),
        ensures
            final(self).decls@.len() >= old(self).decls@.len(),
            r matches Ok(e2) ==> expr_decls_below(e2, final(self).decls@.len() as int),
            final(self).wf(),
            final(self).tokens@ == old(self).tokens@,
            final(self).pos >= old(self).pos,
        decreases depth, 2int,
    {
        if depth == 0 {
            self.error_here("expression too deeply nested");
            return Err(());
        }
        let sub: u64 = depth - 1;
        let mut left = match self.parse_unary(sub) {
            Ok(e) => e,
            Err(()) => {
                return Err(());
            },
        };
        loop
            invariant
                self.wf(),
                self.tokens@ == old(self).tokens@,
                self.decls@.len() >= old(self).decls@.len(),
                self.pos >= old(self).pos,
                expr_decls_below(left, self.decls@.len() as int),
            decreases self.tokens@.len() - self.pos,
        {
            if !(self.check(TokenKind::Star) || self.check(TokenKind::Slash)) {
                break ;
            }
            let before = self.pos;
            let op = self.advance();
            let ghost len0 = self.decls@.len() as int;
            let right = match self.parse_unary(sub) {
                Ok(e) => e,
                Err(()) => {
                    return Err(());
                },
            };
            proof {
                lemma_expr_decls_below_mono(left, len0, self.decls@.len() as int);
            }
            left = Expr::Binary {
                id: next_id(&mut self.gen),
                op,
                left: Box::new(left),
                right: Box::new(right),
            };
            if self.pos == before {
                break ;
            }
        }
        Ok(left)
    }

    /// unary := ('!' | '-') unary | postfix
    fn parse_unary(&mut self, depth: u64) -> (r: Result<Expr, ()>)
        requires
            old(self).wf(),
        ensures
            final(self).decls@.len() >= old(self).decls@.len(),
            r matches Ok(e2) ==> expr_decls_below(e2, final(self).decls@.len() as int),
            final(self).wf(),
            final(self).tokens@ == old(self).tokens@,
            final(self).pos >= old(self).pos,
        decreases depth, 1int,
    {
        if depth == 0 {
            self.error_here("expression too deeply nested");
            return Err(());
        }
        let sub: u64 = depth - 1;
        if self.check(TokenKind::Bang) || self.check(TokenKind::Minus) {
            let op = self.advance();
            let right = match self.parse_unary(sub) {
                Ok(e) => e,
                Err(()) => {
                    return Err(());
                },
            };
            return Ok(Expr::Unary { id: next_id(&mut self.gen), op, right: Box::new(right) });
        }
        self.parse_postfix(sub)
    }

    /// postfix := primary ('(' args ')' | '.' IDENT | '[' expression ']')*
    #[verifier::loop_isolation(false)]
    fn parse_postfix(&mut self, depth: u64) -> (r: Result<Expr, ()>)
        requires
            old(self).wf(),
        ensures
            final(self).decls@.len() >= old(self).decls@.len(),
            r matches Ok(e2) ==> expr_decls_below(e2, final(self).decls@.len() as int),
            final(self).wf(),
            final(self).tokens@ == old(self).tokens@,
            final(self).pos >= old(self).pos,
        decreases depth, 0int,
    {
        if depth == 0 {
            self.error_here("expression too deeply nested");
            return Err(());
        }
        let sub: u64 = depth - 1;
        let mut expr = match self.parse_primary(sub) {
            Ok(e) => e,
            Err(()) => {
                return Err(());
            },
        };
        loop
            invariant
                self.wf(),
                self.tokens@ == old(self).tokens@,
                self.decls@.len() >= old(self).decls@.len(),
                self.pos >= old(self).pos,
                expr_decls_below(expr, self.decls@.len() as int),
            decreases self.tokens@.len() - self.pos,
        {
            let before = self.pos;
            if self.check(TokenKind::LeftParen) {
                let paren = self.advance();
                let mut args: Vec<Expr> = Vec::new();
                if !self.check(TokenKind::RightParen) {
                    loop
                        invariant
                            self.wf(),
                            self.tokens@ == old(self).tokens@,
                            self.decls@.len() >= old(self).decls@.len(),
                            self.pos >= old(self).pos,
                            self.pos > before,
                            expr_decls_below(expr, self.decls@.len() as int),
                            forall|k: int|
                                0 <= k < args@.len() ==> expr_decls_below(
                                    #[trigger] args@[k],
                                    self.decls@.len() as int,
                                ),
                        decreases self.tokens@.len() - self.pos,
                    {
                        let arg_before = self.pos;
                        let ghost len0 = self.decls@.len() as int;
                        match self.parse_expression(sub) {
                            Ok(a) => {
                                proof {
                                    lemma_expr_decls_below_mono(
                                        expr,
                                        len0,
                                        self.decls@.len() as int,
                                    );
                                    lemma_exprs_decls_below_mono(
                                        args@,
                                        len0,
                                        self.decls@.len() as int,
                                    );
                                }
                                args.push(a);
                            },
                            Err(()) => {
                                return Err(());
                            },
                        }
                        if self.check(TokenKind::Comma) {
                            self.advance();
                        } else {
                            break ;
                        }
                        if self.pos == arg_before {
                            break ;
                        }
                    }
                }
                if let Err(()) = self.consume(
                    TokenKind::RightParen,
                    "expect ')' after the arguments",
                ) {
                    return Err(());
                }
                expr = Expr::Call {
                    id: next_id(&mut self.gen),
                    paren,
                    callee: Box::new(expr),
                    args,
                };
            } else if self.check(TokenKind::Dot) {
                self.advance();
                let name = match self.consume(
                    TokenKind::Identifier,
                    "expect a property name after '.'",
                ) {
                    Ok(t) => t,
                    Err(()) => {
                        return Err(());
                    },
                };
                expr = Expr::GetProp(
                    Get::new(&mut self.gen, GetType::Name(name), Box::new(expr)),
                );
            } else if self.check(TokenKind::LeftBracket) {
                let bracket = self.advance();
                let ghost len0 = self.decls@.len() as int;
                let index = match self.parse_expression(sub) {
                    Ok(e) => e,
                    Err(()) => {
                        return Err(());
                    },
                };
                proof {
                    lemma_expr_decls_below_mono(expr, len0, self.decls@.len() as int);
                }
                if let Err(()) = self.consume(
                    TokenKind::RightBracket,
                    "expect ']' after the index",
                ) {
                    return Err(());
                }
                expr = Expr::GetProp(
                    Get::new(
                        &mut self.gen,
                        GetType::Index(bracket, Box::new(index)),
                        Box::new(expr),
                    ),
                );
            } else {
                break ;
            }
            if self.pos == before {
                break ;
            }
        }
        Ok(expr)
    }

    /// primary := literal | variable | 'self' | 'super' '.' IDENT |
    /// '(' expression ')' | '[' elements ']' | '{' entries '}' |
    /// 'fn' '(' params ')' block
    #[verifier::loop_isolation(false)]
    fn parse_primary(&mut self, depth: u64) -> (r: Result<Expr, ()>)
        requires
            old(self).wf(),
        ensures
            final(self).decls@.len() >= old(self).decls@.len(),
            r matches Ok(e2) ==> expr_decls_below(e2, final(self).decls@.len() as int),
            final(self).wf(),
            final(self).tokens@ == old(self).tokens@,
            final(self).pos >= old(self).pos,
        decreases depth, 10int,
    {
        if depth == 0 {
            self.error_here("expression too deeply nested");
            return Err(());
        }
        let sub: u64 = depth - 1;
        let k = self.peek_kind();
        if k == TokenKind::Number {
            let token = self.advance();
            let value = match token.get_lit() {
                Some(Lit::Num(n)) => LitVal::Num(*n),
                _ => LitVal::Num(0),
            };
            Ok(Expr::Literal { id: next_id(&mut self.gen), token, value })
        } else if k == TokenKind::Str {
            let token = self.advance();
            let value = match token.get_lit() {
                Some(Lit::Text(s)) => LitVal::Text(s.clone()),
                _ => LitVal::Text(String::new()),
            };
            Ok(Expr::Literal { id: next_id(&mut self.gen), token, value })
        } else if k == TokenKind::True {
            let token = self.advance();
            Ok(Expr::Literal { id: next_id(&mut self.gen), token, value: LitVal::Truth(true) })
        } else if k == TokenKind::False {
            let token = self.advance();
            Ok(Expr::Literal { id: next_id(&mut self.gen), token, value: LitVal::Truth(false) })
        } else if k == TokenKind::Nil {
            let token = self.advance();
            Ok(Expr::Literal { id: next_id(&mut self.gen), token, value: LitVal::Nil })
        } else if k == TokenKind::Slf {
            let keyword = self.advance();
            Ok(Expr::SelfExpr { id: next_id(&mut self.gen), keyword })
        } else if k == TokenKind::Super {
            let keyword = self.advance();
            if let Err(()) = self.consume(TokenKind::Dot, "expect '.' after 'super'") {
                return Err(());
            }
            let method = match self.consume(TokenKind::Identifier, "expect a method name") {
                Ok(t) => t,
                Err(()) => {
                    return Err(());
                },
            };
            Ok(Expr::SuperExpr { id: next_id(&mut self.gen), keyword, method })
        } else if k == TokenKind::Identifier || k == TokenKind::Buffer || k == TokenKind::Pipeline
            || k == TokenKind::Render {
            let name = self.advance();
            Ok(Expr::Variable { id: next_id(&mut self.gen), name })
        } else if k == TokenKind::LeftParen {
            self.advance();
            let inner = match self.parse_expression(sub) {
                Ok(e) => e,
                Err(()) => {
                    return Err(());
                },
            };
            if let Err(()) = self.consume(TokenKind::RightParen, "expect ')' after the expression")
                {
                return Err(());
            }
            Ok(Expr::Grouping { id: next_id(&mut self.gen), inner: Box::new(inner) })
        } else if k == TokenKind::LeftBracket {
            self.advance();
            let mut elements: Vec<Expr> = Vec::new();
            if !self.check(TokenKind::RightBracket) {
                loop
                    invariant
                        self.wf(),
                        self.tokens@ == old(self).tokens@,
                        self.decls@.len() >= old(self).decls@.len(),
                        self.pos >= old(self).pos,
                        forall|k: int|
                            0 <= k < elements@.len() ==> expr_decls_below(
                                #[trigger] elements@[k],
                                self.decls@.len() as int,
                            ),
                    decreases self.tokens@.len() - self.pos,
                {
                    let before = self.pos;
                    let ghost len0 = self.decls@.len() as int;
                    match self.parse_expression(sub) {
                        Ok(e) => {
                            proof {
                                lemma_exprs_decls_below_mono(
                                    elements@,
                                    len0,
                                    self.decls@.len() as int,
                                );
                            }
                            elements.push(e);
                        },
                        Err(()) => {
                            return Err(());
                        },
                    }
                    if self.check(TokenKind::Comma) {
                        self.advance();
                    } else {
                        break ;
                    }
                    if self.pos == before {
                        break ;
                    }
                }
            }
            if let Err(()) = self.consume(TokenKind::RightBracket, "expect ']' after the list") {
                return Err(());
            }
            Ok(Expr::ListLit { id: next_id(&mut self.gen), elements })
        } else if k == TokenKind::LeftBrace {
            self.advance();
            let mut values: Vec<(Token, Expr)> = Vec::new();
            if !self.check(TokenKind::RightBrace) {
                loop
                    invariant
                        self.wf(),
                        self.tokens@ == old(self).tokens@,
                        self.decls@.len() >= old(self).decls@.len(),
                        self.pos >= old(self).pos,
                        forall|k: int|
                            0 <= k < values@.len() ==> expr_decls_below(
                                (#[trigger] values@[k]).1,
                                self.decls@.len() as int,
                            ),
                    decreases self.tokens@.len() - self.pos,
                {
                    let before = self.pos;
                    let key = if self.check(TokenKind::Str) {
                        self.advance()
                    } else {
                        match self.consume(TokenKind::Identifier, "expect a key") {
                            Ok(t) => t,
                            Err(()) => {
                                return Err(());
                            },
                        }
                    };
                    if let Err(()) = self.consume(TokenKind::Colon, "expect ':' after the key") {
                        return Err(());
                    }
                    let ghost len0 = self.decls@.len() as int;
                    let value = match self.parse_expression(sub) {
                        Ok(e) => e,
                        Err(()) => {
                            return Err(());
                        },
                    };
                    proof {
                        lemma_entries_decls_below_mono(values@, len0, self.decls@.len() as int);
                    }
                    values.push((key, value));
                    if self.check(TokenKind::Comma) {
                        self.advance();
                    } else {
                        break ;
                    }
                    if self.pos == before {
                        break ;
                    }
                }
            }
            if let Err(()) = self.consume(TokenKind::RightBrace, "expect '}' after the object") {
                return Err(());
            }
            Ok(Expr::ObjLit(Obj::new(&mut self.gen, values)))
        } else if k == TokenKind::Fn {
            let token = self.advance();
            let params = match self.parse_params("anonymous function") {
                Ok(ps) => ps,
                Err(()) => {
                    return Err(());
                },
            };
            if let Err(()) = self.consume(TokenKind::LeftBrace, "expect '{' before the body") {
                return Err(());
            }
            let body = match self.parse_block_stmts(sub) {
                Ok(b) => b,
                Err(()) => {
                    return Err(());
                },
            };
            let id = next_id(&mut self.gen);
            let name = token.duplicate();
            let decl_index = self.decls.len();
            let ghost table0 = self.decls@;
            self.decls.push(FunDecl { id, name, params, body });
            proof {
                assert forall|d: int|
                    0 <= d < self.decls@.len() implies stmts_decls_below(
                    (#[trigger] self.decls@[d]).body@,
                    d,
                ) by {
                    if d < decl_index {
                        assert(self.decls@[d] == table0[d]);
                    }
                }
            }
            Ok(Expr::Anon(AnonFun::new(&mut self.gen, token, decl_index)))
        } else {
            self.error_here("expect an expression");
            Err(())
        }
    }
}

} // verus!
