//! The evaluator: a state machine over statement execution and expression
//! evaluation, driven by the resolver's side-table for variable lookup.
//!
//! Execution can finish, fail with a run-time error, or be interrupted by
//! one of the control transfers: `return` (unwinding to the nearest
//! enclosing call), cooperative cancellation (unwinding the whole run
//! without an error), a host-requested process exit, or exhaustion of the
//! step budget that bounds every run. Control transfers are an explicit
//! result, never an error.
//!
//! The cancellation flag is polled at every statement and every
//! expression: when a poll reads the flag set, evaluation short-circuits
//! at that boundary with no user-visible error and no further change to
//! the interpreter's state.

use vstd::prelude::*;

use crate::ast::{Expr, GetType, LitVal, Program, SetType, Stmt};
use crate::environment::Environment;
use crate::error::{
    format_at_token, format_report, LexError, ResolutionError, RuntimeError, RuntimeErrorKind,
    SyntaxError,
};
use crate::host::{Host, HostValue, NativeReply, NativeRequest};
use crate::object::{
    find_method_spec, is_truthy, show_obj, show_spec, Callable, CallableKind, Class, Instance,
    NativeFn, NativeObject, Object,
};
use crate::parser::Parser;
use crate::resolver::{Locals, Resolver};
use crate::scanner::scan_tokens;
use crate::token::{tok_like, Token, TokenKind};
use crate::util::{assoc_lookup, assoc_put, next_id, IdGen};

verus! {

/// How one statement or expression finished: normally with a value, or
/// through one of the control transfers.
#[derive(Clone, Copy, Debug)]
pub enum Flow {
    /// Normal completion.
    Norm(Object),
    /// A `return` unwinding to the nearest enclosing call.
    Ret(Object),
    /// Cooperative cancellation: unwinds the whole run silently.
    Cancelled,
    /// The run's step budget ran out.
    Exhausted,
    /// The script asked the host to terminate with this code.
    Exit(i64),
}

/// How a whole run ended when no error was raised.
#[derive(Clone, Copy, Debug, PartialEq, Eq, Structural)]
pub enum RunOutcome {
    Finished,
    Cancelled,
    Exhausted,
    Exited(i64),
}

/// Why a run failed: the aggregated static errors of one front-end stage,
/// or the run-time error that aborted execution.
#[derive(Debug)]
pub enum RunError {
    Lex(Vec<LexError>),
    Syntax(Vec<SyntaxError>),
    Resolution(Vec<ResolutionError>),
    Runtime(RuntimeError),
}

/// Everything `Object::bind` promises: on a callable with a live
/// captured frame, a fresh frame binding `self` to the instance and an
/// otherwise identical callable closing over it; on anything else, an
/// internal-bug error and no change.
pub open spec fn bind_post(
    callee: Object,
    instance: usize,
    env0: Environment,
    env1: Environment,
    r: Result<Object, RuntimeError>,
) -> bool {
    match callee {
        Object::Callable(c) => match c.closure {
            Some(f) => if f < env0.frames@.len() {
                {
                    let h = env0.frames@.len();
                    &&& env1.frames@.len() == h + 1
                    &&& (forall|i: int| 0 <= i < h ==> env1.frames@[i] == env0.frames@[i])
                    &&& env1.frames@[h as int].enclosing == Some(f)
                    &&& env1.frames@[h as int].bindings@.len() == 1
                    &&& env1.frames@[h as int].bindings@[0].0@ == "self"@
                    &&& env1.frames@[h as int].bindings@[0].1 == Some(Object::Instance(instance))
                    &&& assoc_lookup(env1.frames@[h as int].bindings@, "self"@) == Some(
                        Some(Object::Instance(instance)),
                    )
                    &&& r == Ok::<Object, RuntimeError>(
                        Object::Callable(
                            Callable {
                                id: c.id,
                                kind: c.kind,
                                closure: Some(h as usize),
                                arity: c.arity,
                                name: c.name,
                                is_init: c.is_init,
                            },
                        ),
                    )
                }
            } else {
                r matches Err(e) && e.kind == RuntimeErrorKind::InternalBug && env1 == env0
            },
            None => r matches Err(e) && e.kind == RuntimeErrorKind::InternalBug && env1 == env0,
        },
        _ => r matches Err(e) && e.kind == RuntimeErrorKind::InternalBug && env1 == env0,
    }
}

impl Object {
    /// Binds a method to an instance: a fresh frame, parented at the
    /// method's captured environment, in which `self` names the instance;
    /// the result is an otherwise identical callable closing over that
    /// frame. Each bind makes an independent frame, so bound methods
    /// never share a `self` binding.
    pub fn bind(&self, instance: usize, env: &mut Environment) -> (r: Result<
        Object,
        RuntimeError,
    >)
        requires
            old(env).wf(),
        ensures
            final(env).wf(),
            bind_post(*self, instance, *old(env), *final(env), r),
    {
        match self {
            Object::Callable(c) => {
                match c.closure {
                    Some(f) => {
                        if f < env.frames.len() {
                            let h = env.push_frame(f);
                            env.define(h, "self".to_owned(), Some(Object::Instance(instance)));
                            Ok(
                                Object::Callable(
                                    Callable {
                                        id: c.id,
                                        kind: c.kind,
                                        closure: Some(h),
                                        arity: c.arity,
                                        name: c.name,
                                        is_init: c.is_init,
                                    },
                                ),
                            )
                        } else {
                            Err(
                                RuntimeError::new(
                                    Token::synthetic(TokenKind::Slf, "self".to_owned()),
                                    RuntimeErrorKind::InternalBug,
                                ),
                            )
                        }
                    },
                    None => Err(
                        RuntimeError::new(
                            Token::synthetic(TokenKind::Slf, "self".to_owned()),
                            RuntimeErrorKind::InternalBug,
                        ),
                    ),
                }
            },
            _ => Err(
                RuntimeError::new(
                    Token::synthetic(TokenKind::Slf, "self".to_owned()),
                    RuntimeErrorKind::InternalBug,
                ),
            ),
        }
    }
}

impl Instance {
    /// Property access on an instance: its own fields first, then the
    /// class's method table up the superclass chain, binding a found
    /// method to the instance; a name found in neither is an undefined
    /// property.
    pub fn get(
        &self,
        self_handle: usize,
        name: &Token,
        classes: &Vec<Class>,
        env: &mut Environment,
    ) -> (r: Result<Object, RuntimeError>)
        requires
            old(env).wf(),
        ensures
            final(env).wf(),
            match assoc_lookup(self.fields@, name.lexeme@) {
                Some(v) => r == Ok::<Object, RuntimeError>(v) && *final(env) == *old(env),
                None => match find_method_spec(classes@, self.class as int, name.lexeme@) {
                    Some(m) => bind_post(m, self_handle, *old(env), *final(env), r),
                    None => *final(env) == *old(env) && (r matches Err(e) && tok_like(
                        e.token,
                        *name,
                    ) && (e.kind matches RuntimeErrorKind::UndefinedProperty(p) && p@
                        == name.lexeme@)),
                },
            },
    {
        match crate::util::assoc_get(&self.fields, name.get_lexeme().as_str()) {
            Some(v) => Ok(*v),
            None => {
                match Class::find_method(classes, self.class, name.get_lexeme().as_str()) {
                    Some(m) => m.bind(self_handle, env),
                    None => Err(
                        RuntimeError::new(
                            name.duplicate(),
                            RuntimeErrorKind::UndefinedProperty(name.get_lexeme().clone()),
                        ),
                    ),
                }
            },
        }
    }
}

/// How one evaluation step may change the interpreter's state, whatever
/// else it does: arenas only grow; an existing frame keeps its enclosing
/// link; an interned string, a class and a printed line, once there, are
/// never rewritten; an existing instance keeps its class; the resolver's
/// side-table is never touched; and the current frame is restored. Every
/// statement- and expression-level routine promises this.
pub open spec fn evolves(pre: Interpreter, post: Interpreter) -> bool {
    &&& evolves_heaps(pre, post)
    &&& post.current == pre.current
}

/// The heap part of [`evolves`]: what holds even at points where the
/// current frame is temporarily switched (inside a block or a call).
pub open spec fn evolves_heaps(pre: Interpreter, post: Interpreter) -> bool {
    &&& post.env.frames@.len() >= pre.env.frames@.len()
    &&& (forall|i: int|
        0 <= i < pre.env.frames@.len() ==> #[trigger] post.env.frames@[i].enclosing
            == pre.env.frames@[i].enclosing)
    &&& post.strings@.len() >= pre.strings@.len()
    &&& (forall|i: int|
        0 <= i < pre.strings@.len() ==> #[trigger] post.strings@[i] == pre.strings@[i])
    &&& post.lists@.len() >= pre.lists@.len()
    &&& post.dicts@.len() >= pre.dicts@.len()
    &&& post.instances@.len() >= pre.instances@.len()
    &&& (forall|i: int|
        0 <= i < pre.instances@.len() ==> #[trigger] post.instances@[i].class
            == pre.instances@[i].class)
    &&& post.classes@.len() >= pre.classes@.len()
    &&& (forall|i: int|
        0 <= i < pre.classes@.len() ==> #[trigger] post.classes@[i] == pre.classes@[i])
    &&& post.output@.len() >= pre.output@.len()
    &&& (forall|i: int|
        0 <= i < pre.output@.len() ==> #[trigger] post.output@[i] == pre.output@[i])
    &&& post.locals == pre.locals
}

/// The conditions under which a script-function call proceeds to its
/// body: a real declaration, a live captured frame, arguments matching
/// the parameter count.
pub open spec fn call_guards(
    program: Program,
    fun: usize,
    fun_closure: Option<usize>,
    args: Seq<Object>,
    pre: Interpreter,
) -> bool {
    &&& fun < program.decls@.len()
    &&& fun_closure matches Some(f) && f < pre.env.frames@.len()
    &&& args.len() == program.decls@[fun as int].params@.len()
}

/// What a named read on a dictionary yields: the value at the key, else
/// the value at the key's quoted form (a compatibility fallback), else
/// `nil` — a missing dictionary key is never an error.
pub open spec fn dict_read_spec(entries: Seq<(String, Object)>, name: Seq<char>) -> Object {
    match assoc_lookup(entries, name) {
        Some(v) => v,
        None => match assoc_lookup(entries, "\""@ + name + "\""@) {
            Some(v) => v,
            None => Object::Nil,
        },
    }
}

/// What an ordering comparison owes: defined only between two numbers or
/// two strings (by the value model's orderings, with the state untouched);
/// any other pairing is a type error naming both operand kinds. The
/// wanted-outcome flags say which ordering results make the comparison
/// true.
pub open spec fn ordering_post(
    l: Object,
    rv: Object,
    s0: Interpreter,
    s1: Interpreter,
    r: Result<Flow, RuntimeError>,
    want_lt: bool,
    want_eq: bool,
    want_gt: bool,
) -> bool {
    match (l, rv) {
        (Object::Num(x), Object::Num(y)) => s1 == s0 && r == Ok::<Flow, RuntimeError>(
            Flow::Norm(Object::Bool(ordering_picks(crate::object::num_order(x, y), want_lt, want_eq, want_gt))),
        ),
        (Object::Str(x), Object::Str(y)) => if x < s0.strings@.len() && y < s0.strings@.len() {
            s1 == s0 && r == Ok::<Flow, RuntimeError>(
                Flow::Norm(
                    Object::Bool(
                        ordering_picks(
                            crate::object::lex_cmp(s0.strings@[x as int]@, s0.strings@[y as int]@),
                            want_lt,
                            want_eq,
                            want_gt,
                        ),
                    ),
                ),
            )
        } else {
            r matches Err(e) && e.kind == RuntimeErrorKind::InternalBug
        },
        _ => s1 == s0 && (r matches Err(e) && (e.kind matches RuntimeErrorKind::CannotCompare(
            ta,
            tb,
        ) && ta@ == crate::object::kind_name(l) && tb@ == crate::object::kind_name(rv))),
    }
}

/// Whether an ordering outcome is among the wanted ones.
pub open spec fn ordering_picks(
    ord: crate::object::OrderKind,
    want_lt: bool,
    want_eq: bool,
    want_gt: bool,
) -> bool {
    match ord {
        crate::object::OrderKind::Less => want_lt,
        crate::object::OrderKind::Equal => want_eq,
        crate::object::OrderKind::Greater => want_gt,
    }
}

/// The tree-walking interpreter: the environment chain, the value heaps,
/// the resolver's side-table, and the run's outputs.
pub struct Interpreter {
    pub env: Environment,
    /// The frame statements currently execute in; frame 0 is the global
    /// frame holding the native registry.
    pub current: usize,
    /// The string arena `Object::Str` values point into.
    pub strings: Vec<String>,
    /// The shared-list heap.
    pub lists: Vec<Vec<Object>>,
    /// The shared-dictionary heap.
    pub dicts: Vec<Vec<(String, Object)>>,
    /// The instance heap.
    pub instances: Vec<Instance>,
    /// The class heap; a subclass always follows its superclass.
    pub classes: Vec<Class>,
    /// The resolver's side-table.
    pub locals: Locals,
    /// Every line `print` produced, in order.
    pub output: Vec<String>,
    /// Callbacks scripts registered for key events: key name to callable.
    pub callbacks: Vec<(String, Object)>,
    /// Run-time id allocator, seeded past the program's node ids.
    pub gen: IdGen,
}

impl Interpreter {
    /// The state every evaluator step preserves: the frame chain is
    /// well-formed and the current frame exists.
    pub open spec fn wf(&self) -> bool {
        &&& self.env.wf()
        &&& self.env.frames@.len() >= 1
        &&& self.current < self.env.frames@.len()
    }

    /// Interns a string, returning its arena index.
    fn intern(&mut self, s: String) -> (h: usize)
        ensures
            *final(self) == (Interpreter {
                strings: final(self).strings,
                ..*old(self)
            }),
            final(self).strings@ == old(self).strings@.push(s),
            h == old(self).strings@.len(),
    {
        let h = self.strings.len();
        self.strings.push(s);
        h
    }

    /// The recursion budget for structural walks (equality, display,
    /// externalizing): deeper nesting than one level per heap entry
    /// plus one is only possible through a reference cycle.
    pub open spec fn depth_budget_spec(&self) -> int {
        if self.lists@.len() < 0x1000_0000_0000 && self.dicts@.len() < 0x1000_0000_0000 {
            self.lists@.len() + self.dicts@.len() + 2int
        } else {
            0x2000_0000_0000_0000int
        }
    }

    fn depth_budget(&self) -> (r: u64)
        ensures
            r >= 1,
            r as int == self.depth_budget_spec(),
    {
        let a = self.lists.len() as u64;
        let b = self.dicts.len() as u64;
        if a < 0x1000_0000_0000 && b < 0x1000_0000_0000 {
            a + b + 2
        } else {
            0x2000_0000_0000_0000u64
        }
    }

    /// Whether the global frame binds `name` to the native `which` with
    /// the given fixed arity.
    pub open spec fn native_bound(&self, name: Seq<char>, which: NativeFn, arity: usize) -> bool {
        match self.env.binding_at(0, name) {
            Some(Some(Object::Callable(c))) => c.kind == (CallableKind::Native { which })
                && c.arity == arity && !c.is_init && c.closure is None,
            _ => false,
        }
    }

    /// The whole native registry the host integration requires, installed
    /// in the global frame with the documented arities.
    pub open spec fn natives_installed(&self) -> bool {
        &&& self.native_bound("getWindowDimensions"@, NativeFn::GetWindowDimensions, 0)
        &&& self.native_bound("tan"@, NativeFn::Tan, 1)
        &&& self.native_bound("sqrt"@, NativeFn::Sqrt, 1)
        &&& self.native_bound("sin"@, NativeFn::Sin, 1)
        &&& self.native_bound("cos"@, NativeFn::Cos, 1)
        &&& self.native_bound("render"@, NativeFn::Render, 1)
        &&& self.native_bound("clock"@, NativeFn::Clock, 0)
        &&& self.native_bound("panic"@, NativeFn::Panic, 1)
        &&& self.native_bound("string"@, NativeFn::Stringify, 1)
        &&& self.native_bound("exit"@, NativeFn::Exit, 0)
        &&& self.native_bound("exitWithCode"@, NativeFn::ExitWithCode, 1)
        &&& self.native_bound("instant"@, NativeFn::Instant, 0)
        &&& self.native_bound("elapsed"@, NativeFn::Elapsed, 1)
        &&& self.native_bound("regKeyEvent"@, NativeFn::RegisterKeyEvent, 2)
    }

    fn runtime_err(token: &Token, kind: RuntimeErrorKind) -> (r: RuntimeError)
        ensures
            tok_like(r.token, *token),
            r.kind == kind,
    {
        RuntimeError::new(token.duplicate(), kind)
    }

    /// Defines one native binding in the global frame.
    fn define_native(&mut self, name: &str, which: NativeFn, arity: usize)
        requires
            old(self).wf(),
        ensures
            final(self).wf(),
            final(self).output@ == old(self).output@,
            final(self).locals == old(self).locals,
            final(self).current == old(self).current,
            final(self).env.frames@.len() == old(self).env.frames@.len(),
            final(self).native_bound(name@, which, arity),
            forall|p: Seq<char>|
                p != name@ ==> #[trigger] final(self).env.binding_at(0, p) == old(
                    self,
                ).env.binding_at(0, p),
    {
        let name_h = self.intern(name.to_owned());
        let id = next_id(&mut self.gen);
        let callable = Callable::build(id, which, arity, name_h);
        let key = name.to_owned();
        let ghost key_snap = key;
        let ghost before = self.env.frames@[0].bindings@;
        let value = Some(Object::Callable(callable));
        self.env.define(0, key, value);
        proof {
            crate::util::lemma_assoc_store_lookup(before, key_snap, value, name@);
            assert forall|p: Seq<char>|
                p != name@ implies #[trigger] self.env.binding_at(0, p) == old(
                self,
            ).env.binding_at(0, p) by {
                crate::util::lemma_assoc_store_lookup(before, key_snap, value, p);
            }
        }
    }

    /// Installs the native registry in the global frame: the host bridge
    /// every script sees.
    #[verifier::rlimit(60)]
    fn define_globals(&mut self)
        requires
            old(self).wf(),
        ensures
            final(self).wf(),
            final(self).output@ == old(self).output@,
            final(self).locals == old(self).locals,
            final(self).current == old(self).current,
            final(self).natives_installed(),
    {
        proof {
            reveal_strlit("getWindowDimensions");
            reveal_strlit("tan");
            reveal_strlit("sqrt");
            reveal_strlit("sin");
            reveal_strlit("cos");
            reveal_strlit("render");
            reveal_strlit("clock");
            reveal_strlit("panic");
            reveal_strlit("string");
            reveal_strlit("exit");
            reveal_strlit("exitWithCode");
            reveal_strlit("instant");
            reveal_strlit("elapsed");
            reveal_strlit("regKeyEvent");
            // the views are distinct: the lengths separate most pairs,
            // a first character the rest
            assert("getWindowDimensions"@.len() == 19);
            assert("tan"@.len() == 3);
            assert("sqrt"@.len() == 4);
            assert("sin"@.len() == 3);
            assert("cos"@.len() == 3);
            assert("render"@.len() == 6);
            assert("clock"@.len() == 5);
            assert("panic"@.len() == 5);
            assert("string"@.len() == 6);
            assert("exit"@.len() == 4);
            assert("exitWithCode"@.len() == 12);
            assert("instant"@.len() == 7);
            assert("elapsed"@.len() == 7);
            assert("regKeyEvent"@.len() == 11);
            assert("tan"@[0] == 't' && "sin"@[0] == 's' && "cos"@[0] == 'c');
            assert("sqrt"@[0] == 's' && "exit"@[0] == 'e');
            assert("clock"@[0] == 'c' && "panic"@[0] == 'p');
            assert("render"@[0] == 'r' && "string"@[0] == 's');
            assert("instant"@[0] == 'i' && "elapsed"@[0] == 'e');
        }
        self.define_native("getWindowDimensions", NativeFn::GetWindowDimensions, 0);
        self.define_native("tan", NativeFn::Tan, 1);
        self.define_native("sqrt", NativeFn::Sqrt, 1);
        self.define_native("sin", NativeFn::Sin, 1);
        self.define_native("cos", NativeFn::Cos, 1);
        self.define_native("render", NativeFn::Render, 1);
        self.define_native("clock", NativeFn::Clock, 0);
        self.define_native("panic", NativeFn::Panic, 1);
        self.define_native("string", NativeFn::Stringify, 1);
        self.define_native("exit", NativeFn::Exit, 0);
        self.define_native("exitWithCode", NativeFn::ExitWithCode, 1);
        self.define_native("instant", NativeFn::Instant, 0);
        self.define_native("elapsed", NativeFn::Elapsed, 1);
        self.define_native("regKeyEvent", NativeFn::RegisterKeyEvent, 2);
    }

    /// A fresh interpreter: one global frame holding the native registry,
    /// empty heaps, no side-table.
    pub fn new() -> (r: Interpreter)
        ensures
            r.wf(),
            r.output@.len() == 0,
            r.locals.table@.len() == 0,
            r.natives_installed(),
    {
        let mut interp = Interpreter {
            env: Environment::new(),
            current: 0,
            strings: Vec::new(),
            lists: Vec::new(),
            dicts: Vec::new(),
            instances: Vec::new(),
            classes: Vec::new(),
            locals: Locals::new(),
            output: Vec::new(),
            callbacks: Vec::new(),
            gen: IdGen::new(),
        };
        interp.define_globals();
        interp
    }

    /// Drops every frame and value created by earlier runs and rebuilds
    /// the global scope: each run starts clean, which is what makes
    /// hot-reload safe (stale closures never survive into the next run).
    /// Run-time ids continue from `base_id`, past the program's node ids.
    pub fn reset(&mut self, base_id: u64)
        ensures
            final(self).wf(),
            final(self).output@.len() == 0,
            final(self).locals.table@.len() == 0,
            final(self).natives_installed(),
    {
        self.env = Environment::new();
        self.current = 0;
        self.strings = Vec::new();
        self.lists = Vec::new();
        self.dicts = Vec::new();
        self.instances = Vec::new();
        self.classes = Vec::new();
        self.locals = Locals::new();
        self.output = Vec::new();
        self.callbacks = Vec::new();
        self.gen = IdGen::starting_at(base_id);
        self.define_globals();
    }

    /// Records one side-table entry: node `id` resolves at `depth` frames
    /// out. This is the resolver's write path into the interpreter.
    pub fn resolve(&mut self, id: u64, depth: usize)
        ensures
            id < usize::MAX as u64 ==> crate::resolver::locals_spec(
                final(self).locals.table@,
                id as int,
            ) == Some(depth),
    {
        if id < usize::MAX as u64 {
            self.locals.set(id, depth);
        }
    }

    /// Truthiness, as the evaluator uses it everywhere a condition is
    /// coerced: `nil`, `void` and `false` are falsy, all else truthy.
    pub fn is_truly(&self, obj: &Object) -> (r: bool)
        ensures
            r == is_truthy(*obj),
    {
        obj.truthy()
    }

    /// Formats one report line about a token, as every user-visible error
    /// is shown: `[line:col] Error at 'lexeme': msg`.
    pub fn error_by_token(token: &Token, msg: &str) -> (r: String)
        ensures
            r@ == crate::error::report_seq(
                "Error"@,
                token.line as nat,
                token.col as nat,
                crate::error::at_token_seq(token.kind, token.lexeme@),
                msg@,
            ),
    {
        let wher = format_at_token(token);
        format_report("Error", token.get_line(), token.get_pos_in_line(), wher.as_str(), msg)
    }

    /// What looking a reference up must yield, given the side-table: at a
    /// recorded distance `d`, the binding of the frame exactly `d` hops
    /// out and nothing else; with no entry, the innermost binding of the
    /// global chain. The error tells an undeclared name apart from a
    /// declared-but-uninitialized one.
    pub open spec fn lookup_post(
        self,
        name: Token,
        id: u64,
        r: Result<Object, RuntimeError>,
    ) -> bool {
        match crate::resolver::locals_spec(self.locals.table@, id as int) {
            Some(d) => match self.env.ancestor_spec(self.current as int, d as nat) {
                Some(j) => match self.env.binding_at(j, name.lexeme@) {
                    Some(Some(v)) => r == Ok::<Object, RuntimeError>(v),
                    Some(None) => r matches Err(e) && (e.kind matches
                        RuntimeErrorKind::VariableNotInit(n) && n@ == name.lexeme@),
                    None => r matches Err(e) && (e.kind matches
                        RuntimeErrorKind::UndefinedVariable(n) && n@ == name.lexeme@),
                },
                None => r matches Err(e) && e.kind == RuntimeErrorKind::InternalBug,
            },
            None => match self.env.chain_resolve(0, name.lexeme@) {
                Some(j) => match self.env.binding_at(j, name.lexeme@) {
                    Some(Some(v)) => r == Ok::<Object, RuntimeError>(v),
                    Some(None) => r matches Err(e) && (e.kind matches
                        RuntimeErrorKind::VariableNotInit(n) && n@ == name.lexeme@),
                    None => false,
                },
                None => r matches Err(e) && (e.kind matches
                    RuntimeErrorKind::UndefinedVariable(n) && n@ == name.lexeme@),
            },
        }
    }

    /// Looks a variable reference up: through the side-table's distance
    /// when the resolver recorded one (reaching exactly that frame), and
    /// in the global frame otherwise.
    pub fn look_up_variable(&self, name: &Token, id: u64) -> (r: Result<Object, RuntimeError>)
        requires
            self.wf(),
        ensures
            self.lookup_post(*name, id, r),
    {
        match self.locals.depth_of(id) {
            Some(d) => self.env.get_at(self.current, d, name),
            None => self.env.get(0, name),
        }
    }

    /// The plain-data image of a value for the host boundary: containers
    /// copied out, opaque payloads as tokens, non-data values as their
    /// type tag. `fuel` bounds recursion; a cycle renders as its tag.
    fn externalize(&self, v: &Object, fuel: u64) -> (r: HostValue)
        ensures
            match *v {
                Object::Num(n) => r == HostValue::Num(n),
                Object::Bool(b) => r == HostValue::Truth(b),
                Object::Nil => r == HostValue::Nil,
                Object::NativeObject(no) => r == HostValue::Opaque(no.token),
                Object::Str(h) => if h < self.strings@.len() {
                    r matches HostValue::Text(t) && t@ == self.strings@[h as int]@
                } else {
                    r is Other
                },
                Object::List(h) => (h < self.lists@.len() && fuel > 0) ==> r is Items,
                Object::Dictionary(h) => (h < self.dicts@.len() && fuel > 0) ==> r is Entries,
                _ => r is Other,
            },
        decreases fuel, 0int, 0int,
    {
        match v {
            Object::Num(n) => HostValue::Num(*n),
            Object::Bool(b) => HostValue::Truth(*b),
            Object::Nil => HostValue::Nil,
            Object::Str(h) => {
                if *h < self.strings.len() {
                    HostValue::Text(self.strings[*h].clone())
                } else {
                    HostValue::Other("<invalid>".to_owned())
                }
            },
            Object::NativeObject(no) => HostValue::Opaque(no.token),
            Object::List(h) => {
                if *h < self.lists.len() && fuel > 0 {
                    HostValue::Items(self.externalize_items(*h, 0, fuel - 1))
                } else {
                    HostValue::Other("list".to_owned())
                }
            },
            Object::Dictionary(h) => {
                if *h < self.dicts.len() && fuel > 0 {
                    HostValue::Entries(self.externalize_entries(*h, 0, fuel - 1))
                } else {
                    HostValue::Other("dictionary".to_owned())
                }
            },
            _ => HostValue::Other(v.get_type()),
        }
    }

    fn externalize_items(&self, h: usize, i: usize, fuel: u64) -> (r: Vec<HostValue>)
        requires
            h < self.lists@.len(),
        decreases fuel, self.lists@[h as int]@.len() - i, 1int,
    {
        let mut out: Vec<HostValue> = Vec::new();
        if i < self.lists[h].len() {
            let elem = self.lists[h][i];
            out.push(self.externalize(&elem, fuel));
            let mut rest = self.externalize_items(h, i + 1, fuel);
            out.append(&mut rest);
        }
        out
    }

    fn externalize_entries(&self, h: usize, i: usize, fuel: u64) -> (r: Vec<(String, HostValue)>)
        requires
            h < self.dicts@.len(),
        decreases fuel, self.dicts@[h as int]@.len() - i, 1int,
    {
        let mut out: Vec<(String, HostValue)> = Vec::new();
        if i < self.dicts[h].len() {
            let key = self.dicts[h][i].0.clone();
            let val = self.dicts[h][i].1;
            out.push((key, self.externalize(&val, fuel)));
            let mut rest = self.externalize_entries(h, i + 1, fuel);
            out.append(&mut rest);
        }
        out
    }

    /// Property read by name on an evaluated receiver. An instance checks
    /// its own fields first, then the class's method table up the
    /// superclass chain, binding a found method; a dictionary reads the
    /// key (falling back to its quoted form, then to `nil`); any other
    /// receiver has no properties.
    pub fn get_property(&mut self, obj: &Object, name: &Token) -> (r: Result<Object, RuntimeError>)
        requires
            old(self).wf(),
        ensures
            final(self).wf(),
            evolves(*old(self), *final(self)),
            match *obj {
                Object::Instance(h) => if h < old(self).instances@.len() {
                    match assoc_lookup(
                        old(self).instances@[h as int].fields@,
                        name.lexeme@,
                    ) {
                        Some(v) => r == Ok::<Object, RuntimeError>(v) && *final(self) == *old(
                            self,
                        ),
                        None => match find_method_spec(
                            old(self).classes@,
                            old(self).instances@[h as int].class as int,
                            name.lexeme@,
                        ) {
                            Some(m) => bind_post(m, h, old(self).env, final(self).env, r),
                            None => *final(self) == *old(self) && (r matches Err(e) && tok_like(
                                e.token,
                                *name,
                            ) && (e.kind matches RuntimeErrorKind::UndefinedProperty(p) && p@
                                == name.lexeme@)),
                        },
                    }
                } else {
                    r matches Err(e) && e.kind == RuntimeErrorKind::InternalBug
                },
                Object::Dictionary(h) => if h < old(self).dicts@.len() {
                    *final(self) == *old(self) && r == Ok::<Object, RuntimeError>(
                        dict_read_spec(old(self).dicts@[h as int]@, name.lexeme@),
                    )
                } else {
                    r matches Err(e) && e.kind == RuntimeErrorKind::InternalBug
                },
                _ => *final(self) == *old(self) && (r matches Err(e) && tok_like(e.token, *name)
                    && e.kind == RuntimeErrorKind::OnlyInstancesHaveProperties),
            },
    {
        match obj {
            Object::Instance(h) => {
                if *h < self.instances.len() {
                    self.instances[*h].get(*h, name, &self.classes, &mut self.env)
                } else {
                    Err(Self::runtime_err(name, RuntimeErrorKind::InternalBug))
                }
            },
            Object::Dictionary(h) => {
                if *h < self.dicts.len() {
                    match crate::util::assoc_get(&self.dicts[*h], name.get_lexeme().as_str()) {
                        Some(v) => Ok(*v),
                        None => {
                            // compatibility fallback: a key stored in its
                            // quoted form
                            let mut quoted: String = "\"".to_owned();
                            quoted.append(name.get_lexeme().as_str());
                            quoted.append("\"");
                            proof {
                                assert(quoted@ =~= "\""@ + name.lexeme@ + "\""@);
                            }
                            match crate::util::assoc_get(&self.dicts[*h], quoted.as_str()) {
                                Some(v) => Ok(*v),
                                None => Ok(Object::Nil),
                            }
                        },
                    }
                } else {
                    Err(Self::runtime_err(name, RuntimeErrorKind::InternalBug))
                }
            },
            _ => Err(Self::runtime_err(name, RuntimeErrorKind::OnlyInstancesHaveProperties)),
        }
    }

    /// Property write by name on an evaluated receiver: an instance's
    /// field or a dictionary's entry is created or overwritten, and the
    /// assigned value is the result; any other receiver has no
    /// properties and nothing changes.
    pub fn set_property(&mut self, obj: &Object, name: &Token, value: Object) -> (r: Result<
        Object,
        RuntimeError,
    >)
        requires
            old(self).wf(),
        ensures
            final(self).wf(),
            evolves(*old(self), *final(self)),
            match *obj {
                Object::Instance(h) => if h < old(self).instances@.len() {
                    &&& r == Ok::<Object, RuntimeError>(value)
                    &&& *final(self) == (Interpreter {
                        instances: final(self).instances,
                        ..*old(self)
                    })
                    &&& final(self).instances@.len() == old(self).instances@.len()
                    &&& (forall|i: int|
                        0 <= i < old(self).instances@.len() && i != h
                            ==> final(self).instances@[i] == old(self).instances@[i])
                    &&& final(self).instances@[h as int].class == old(
                        self,
                    ).instances@[h as int].class
                    &&& final(self).instances@[h as int].fields@ == crate::util::assoc_store(
                        old(self).instances@[h as int].fields@,
                        name.lexeme,
                        value,
                    )
                } else {
                    r matches Err(e) && e.kind == RuntimeErrorKind::InternalBug
                },
                Object::Dictionary(h) => if h < old(self).dicts@.len() {
                    &&& r == Ok::<Object, RuntimeError>(value)
                    &&& *final(self) == (Interpreter { dicts: final(self).dicts, ..*old(self) })
                    &&& final(self).dicts@.len() == old(self).dicts@.len()
                    &&& (forall|i: int|
                        0 <= i < old(self).dicts@.len() && i != h ==> final(self).dicts@[i]
                            == old(self).dicts@[i])
                    &&& final(self).dicts@[h as int]@ == crate::util::assoc_store(
                        old(self).dicts@[h as int]@,
                        name.lexeme,
                        value,
                    )
                } else {
                    r matches Err(e) && e.kind == RuntimeErrorKind::InternalBug
                },
                _ => *final(self) == *old(self) && (r matches Err(e) && tok_like(e.token, *name)
                    && e.kind == RuntimeErrorKind::OnlyInstancesHaveProperties),
            },
    {
        match obj {
            Object::Instance(h) => {
                if *h < self.instances.len() {
                    let slot = &mut self.instances[*h];
                    slot.set(name.get_lexeme().clone(), value);
                    Ok(value)
                } else {
                    Err(Self::runtime_err(name, RuntimeErrorKind::InternalBug))
                }
            },
            Object::Dictionary(h) => {
                if *h < self.dicts.len() {
                    let slot = &mut self.dicts[*h];
                    assoc_put(slot, name.get_lexeme().clone(), value);
                    Ok(value)
                } else {
                    Err(Self::runtime_err(name, RuntimeErrorKind::InternalBug))
                }
            },
            _ => Err(Self::runtime_err(name, RuntimeErrorKind::OnlyInstancesHaveProperties)),
        }
    }

    /// Indexed read on evaluated values: the index must be a number and
    /// the receiver a list; an out-of-range read yields `nil` and never
    /// changes the list.
    pub fn read_index(&self, obj: &Object, idx: &Object, bracket: &Token) -> (r: Result<
        Object,
        RuntimeError,
    >)
        ensures
            match *idx {
                Object::Num(n) => match *obj {
                    Object::List(h) => if h < self.lists@.len() {
                        r == Ok::<Object, RuntimeError>(
                            if 0 <= n < self.lists@[h as int]@.len() {
                                self.lists@[h as int]@[n as int]
                            } else {
                                Object::Nil
                            },
                        )
                    } else {
                        r matches Err(e) && e.kind == RuntimeErrorKind::InternalBug
                    },
                    _ => r matches Err(e) && tok_like(e.token, *bracket) && e.kind
                        == RuntimeErrorKind::OnlyListsHaveIndices,
                },
                _ => r matches Err(e) && tok_like(e.token, *bracket) && e.kind
                    == RuntimeErrorKind::MustBeANumber,
            },
    {
        let n = match idx {
            Object::Num(n) => *n,
            _ => {
                return Err(Self::runtime_err(bracket, RuntimeErrorKind::MustBeANumber));
            },
        };
        match obj {
            Object::List(h) => {
                if *h < self.lists.len() {
                    if 0 <= n && (n as u64) < (self.lists[*h].len() as u64) {
                        Ok(self.lists[*h][n as usize])
                    } else {
                        Ok(Object::Nil)
                    }
                } else {
                    Err(Self::runtime_err(bracket, RuntimeErrorKind::InternalBug))
                }
            },
            _ => Err(Self::runtime_err(bracket, RuntimeErrorKind::OnlyListsHaveIndices)),
        }
    }

    /// Indexed write on evaluated values: the index must be a number and
    /// the receiver a list; the write is bounds-checked — it fails out
    /// of range and never grows the list.
    pub fn write_index(
        &mut self,
        obj: &Object,
        idx: &Object,
        value: Object,
        bracket: &Token,
    ) -> (r: Result<Object, RuntimeError>)
        requires
            old(self).wf(),
        ensures
            final(self).wf(),
            evolves(*old(self), *final(self)),
            match *idx {
                Object::Num(n) => match *obj {
                    Object::List(h) => if h < old(self).lists@.len() {
                        if 0 <= n < old(self).lists@[h as int]@.len() {
                            &&& r == Ok::<Object, RuntimeError>(value)
                            &&& *final(self) == (Interpreter {
                                lists: final(self).lists,
                                ..*old(self)
                            })
                            &&& final(self).lists@.len() == old(self).lists@.len()
                            &&& (forall|i: int|
                                0 <= i < old(self).lists@.len() && i != h
                                    ==> final(self).lists@[i] == old(self).lists@[i])
                            &&& final(self).lists@[h as int]@ == old(
                                self,
                            ).lists@[h as int]@.update(n as int, value)
                        } else {
                            *final(self) == *old(self) && (r matches Err(e) && tok_like(
                                e.token,
                                *bracket,
                            ) && e.kind == RuntimeErrorKind::IndexOutOfRange)
                        }
                    } else {
                        r matches Err(e) && e.kind == RuntimeErrorKind::InternalBug
                    },
                    _ => *final(self) == *old(self) && (r matches Err(e) && tok_like(
                        e.token,
                        *bracket,
                    ) && e.kind == RuntimeErrorKind::OnlyListsHaveIndices),
                },
                _ => *final(self) == *old(self) && (r matches Err(e) && tok_like(
                    e.token,
                    *bracket,
                ) && e.kind == RuntimeErrorKind::MustBeANumber),
            },
    {
        let n = match idx {
            Object::Num(n) => *n,
            _ => {
                return Err(Self::runtime_err(bracket, RuntimeErrorKind::MustBeANumber));
            },
        };
        match obj {
            Object::List(h) => {
                if *h < self.lists.len() {
                    if 0 <= n && (n as u64) < (self.lists[*h].len() as u64) {
                        let slot = &mut self.lists[*h];
                        slot.set(n as usize, value);
                        Ok(value)
                    } else {
                        Err(Self::runtime_err(bracket, RuntimeErrorKind::IndexOutOfRange))
                    }
                } else {
                    Err(Self::runtime_err(bracket, RuntimeErrorKind::InternalBug))
                }
            },
            _ => Err(Self::runtime_err(bracket, RuntimeErrorKind::OnlyListsHaveIndices)),
        }
    }

    /// `super.method`: dispatch starts at the superclass recorded in the
    /// `super` binding (never at the instance's run-time class) and binds
    /// the found method to the instance; a name found nowhere on that
    /// chain is an undefined property.
    pub fn super_dispatch(&mut self, superclass: usize, instance: usize, method: &Token) -> (r: Result<
        Object,
        RuntimeError,
    >)
        requires
            old(self).wf(),
        ensures
            final(self).wf(),
            evolves(*old(self), *final(self)),
            match find_method_spec(old(self).classes@, superclass as int, method.lexeme@) {
                Some(m) => bind_post(m, instance, old(self).env, final(self).env, r),
                None => *final(self) == *old(self) && (r matches Err(e) && tok_like(
                    e.token,
                    *method,
                ) && (e.kind matches RuntimeErrorKind::UndefinedProperty(p) && p@
                    == method.lexeme@)),
            },
    {
        match Class::find_method(&self.classes, superclass, method.get_lexeme().as_str()) {
            Some(m) => m.bind(instance, &mut self.env),
            None => Err(
                RuntimeError::new(
                    method.duplicate(),
                    RuntimeErrorKind::UndefinedProperty(method.get_lexeme().clone()),
                ),
            ),
        }
    }

    /// Runs a script callable's body: a new frame whose parent is the
    /// captured (closure) frame, each parameter bound to its argument,
    /// then the body as a block. A `return` caught here yields its value;
    /// otherwise the call's result is `void` — except for a constructor
    /// body, whose result is always the bound `self`, whatever the body
    /// returned.
    #[verifier::rlimit(80)]
    #[verifier::loop_isolation(false)]
    pub fn call_function<H: Host>(
        &mut self,
        host: &mut H,
        program: &Program,
        fun: usize,
        fun_closure: Option<usize>,
        is_init: bool,
        args: &Vec<Object>,
        paren: &Token,
        fuel: u64,
    ) -> (r: Result<Flow, RuntimeError>)
        requires
            old(self).wf(),
        ensures
            final(self).wf(),
            evolves(*old(self), *final(self)),
            !(r matches Ok(Flow::Ret(_))),
            fuel == 0 ==> r == Ok::<Flow, RuntimeError>(Flow::Exhausted) && *final(self) == *old(
                self,
            ),
            (fuel > 0 && !call_guards(*program, fun, fun_closure, args@, *old(self))) ==> (r
                matches Err(e) && (e.kind == RuntimeErrorKind::InternalBug || e.kind
                == RuntimeErrorKind::ArityMismatch) && *final(self) == *old(self)),
            (fuel > 0 && call_guards(*program, fun, fun_closure, args@, *old(self))) ==> {
                let fr = old(self).env.frames@.len();
                &&& final(self).env.frames@.len() > fr
                &&& final(self).env.frames@[fr as int].enclosing == fun_closure
                &&& (is_init ==> match r {
                    Ok(Flow::Norm(v)) => match final(self).env.chain_resolve(fr as int, "self"@) {
                        Some(j) => final(self).env.binding_at(j, "self"@) == Some(Some(v)),
                        None => false,
                    },
                    _ => true,
                })
            },
        decreases fuel, 0int, 0int,
    {
        if fuel == 0 {
            return Ok(Flow::Exhausted);
        }
        let sub: u64 = fuel - 1;
        if fun >= program.decls.len() {
            return Err(Self::runtime_err(paren, RuntimeErrorKind::InternalBug));
        }
        let parent = match fun_closure {
            Some(f) => {
                if f < self.env.frames.len() {
                    f
                } else {
                    return Err(Self::runtime_err(paren, RuntimeErrorKind::InternalBug));
                }
            },
            None => {
                return Err(Self::runtime_err(paren, RuntimeErrorKind::InternalBug));
            },
        };
        if args.len() != program.decls[fun].params.len() {
            return Err(Self::runtime_err(paren, RuntimeErrorKind::ArityMismatch));
        }
        let frame = self.env.push_frame(parent);
        let mut i: usize = 0;
        while i < args.len()
            invariant
                self.wf(),
                frame < self.env.frames@.len(),
                frame == old(self).env.frames@.len(),
                self.env.frames@[frame as int].enclosing == Some(parent),
                evolves_heaps(*old(self), *self),
                self.current == old(self).current,
                args@.len() == program.decls@[fun as int].params@.len(),
                fun < program.decls@.len(),
            decreases args@.len() - i,
        {
            let pname = program.decls[fun].params[i].get_lexeme().clone();
            self.env.define(frame, pname, Some(args[i]));
            i = i + 1;
        }
        let prev = self.current;
        self.current = frame;
        let mut outcome: Result<Flow, RuntimeError> = Ok(Flow::Norm(Object::Void));
        let mut j: usize = 0;
        let body_len = program.decls[fun].body.len();
        while j < body_len
            invariant
                self.wf(),
                frame < self.env.frames@.len(),
                frame == old(self).env.frames@.len(),
                self.env.frames@[frame as int].enclosing == Some(parent),
                prev < self.env.frames@.len(),
                prev == old(self).current,
                evolves_heaps(*old(self), *self),
                fun < program.decls@.len(),
                body_len == program.decls@[fun as int].body@.len(),
            decreases body_len - j,
        {
            match self.execute(host, program, &program.decls[fun].body[j], sub) {
                Ok(Flow::Norm(_)) => {},
                Ok(other) => {
                    outcome = Ok(other);
                    break ;
                },
                Err(e) => {
                    outcome = Err(e);
                    break ;
                },
            }
            j = j + 1;
        }
        self.current = prev;
        // a constructor call's result is the instance bound to `self`,
        // even when the body executed an explicit `return`
        match outcome {
            Ok(Flow::Norm(_)) => {
                if is_init {
                    let self_tok = Token::synthetic(TokenKind::Slf, "self".to_owned());
                    match self.env.get(frame, &self_tok) {
                        Ok(v) => Ok(Flow::Norm(v)),
                        Err(e) => Err(e),
                    }
                } else {
                    Ok(Flow::Norm(Object::Void))
                }
            },
            Ok(Flow::Ret(v)) => {
                if is_init {
                    let self_tok = Token::synthetic(TokenKind::Slf, "self".to_owned());
                    match self.env.get(frame, &self_tok) {
                        Ok(v2) => Ok(Flow::Norm(v2)),
                        Err(e) => Err(e),
                    }
                } else {
                    Ok(Flow::Norm(v))
                }
            },
            Ok(other) => Ok(other),
            Err(e) => Err(e),
        }
    }

    /// Invokes a callable value on already-evaluated arguments. An arity
    /// mismatch fails before the callable's body runs, with no side
    /// effects; calling a class constructs a new instance, runs its
    /// `init` (if any) and yields the instance — whatever `init`'s own
    /// `return` did; a value that is neither callable nor a class is a
    /// type error.
    #[verifier::rlimit(80)]
    pub fn call_object<H: Host>(
        &mut self,
        host: &mut H,
        program: &Program,
        callee: &Object,
        args: &Vec<Object>,
        paren: &Token,
        fuel: u64,
    ) -> (r: Result<Flow, RuntimeError>)
        requires
            old(self).wf(),
        ensures
            final(self).wf(),
            evolves(*old(self), *final(self)),
            !(r matches Ok(Flow::Ret(_))),
            match *callee {
                Object::Callable(c) => args@.len() != c.arity ==> (r matches Err(e) && e.kind
                    == RuntimeErrorKind::ArityMismatch && *final(self) == *old(self)),
                Object::Class(h) => h < old(self).classes@.len() ==> {
                    let needed = match find_method_spec(old(self).classes@, h as int, "init"@) {
                        Some(Object::Callable(ic)) => ic.arity as int,
                        _ => 0int,
                    };
                    &&& (args@.len() != needed ==> (r matches Err(e) && e.kind
                        == RuntimeErrorKind::ArityMismatch && *final(self) == *old(self)))
                    &&& (match r {
                        Ok(Flow::Norm(v)) => {
                            let k = old(self).instances@.len();
                            &&& v == Object::Instance(k as usize)
                            &&& final(self).instances@.len() > k
                            &&& final(self).instances@[k as int].class == h
                        },
                        _ => true,
                    })
                },
                _ => r matches Err(e) && e.kind == RuntimeErrorKind::NotCallable && *final(self)
                    == *old(self),
            },
        decreases fuel, 1int, 0int,
    {
        match callee {
            Object::Class(h) => {
                if *h >= self.classes.len() {
                    return Err(Self::runtime_err(paren, RuntimeErrorKind::InternalBug));
                }
                let init = Class::find_method(&self.classes, *h, "init");
                let needed: usize = match &init {
                    Some(Object::Callable(ic)) => ic.arity,
                    _ => 0,
                };
                if args.len() != needed {
                    return Err(Self::runtime_err(paren, RuntimeErrorKind::ArityMismatch));
                }
                let inst = self.instances.len();
                self.instances.push(Instance::new(*h));
                match init {
                    Some(m) => {
                        let bound = match m.bind(inst, &mut self.env) {
                            Ok(b) => b,
                            Err(e) => {
                                return Err(e);
                            },
                        };
                        match bound {
                            Object::Callable(bc) => {
                                match bc.kind {
                                    CallableKind::Script { fun } => {
                                        match self.call_function(
                                            host,
                                            program,
                                            fun,
                                            bc.closure,
                                            bc.is_init,
                                            args,
                                            paren,
                                            fuel,
                                        ) {
                                            Ok(Flow::Norm(_)) => {},
                                            Ok(Flow::Ret(_)) => {},
                                            Ok(other) => {
                                                return Ok(other);
                                            },
                                            Err(e) => {
                                                return Err(e);
                                            },
                                        }
                                    },
                                    CallableKind::Native { .. } => {
                                        return Err(
                                            Self::runtime_err(
                                                paren,
                                                RuntimeErrorKind::InternalBug,
                                            ),
                                        );
                                    },
                                }
                            },
                            _ => {
                                return Err(
                                    Self::runtime_err(paren, RuntimeErrorKind::InternalBug),
                                );
                            },
                        }
                    },
                    None => {},
                }
                Ok(Flow::Norm(Object::Instance(inst)))
            },
            Object::Callable(c) => {
                if args.len() != c.arity {
                    return Err(Self::runtime_err(paren, RuntimeErrorKind::ArityMismatch));
                }
                match c.kind {
                    CallableKind::Script { fun } => self.call_function(
                        host,
                        program,
                        fun,
                        c.closure,
                        c.is_init,
                        args,
                        paren,
                        fuel,
                    ),
                    CallableKind::Native { which } => self.dispatch_native(
                        host,
                        which,
                        args,
                        paren,
                    ),
                }
            },
            _ => Err(Self::runtime_err(paren, RuntimeErrorKind::NotCallable)),
        }
    }

    /// Converts a host reply carrying window dimensions to a dictionary
    /// value.
    fn dims_to_dict(&mut self, w: i64, hgt: i64) -> (r: Object)
        ensures
            *final(self) == (Interpreter { dicts: final(self).dicts, ..*old(self) }),
            final(self).dicts@.len() == old(self).dicts@.len() + 1,
            r == Object::Dictionary(old(self).dicts@.len() as usize),
    {
        let mut entries: Vec<(String, Object)> = Vec::new();
        assoc_put(&mut entries, "width".to_owned(), Object::Num(w));
        assoc_put(&mut entries, "height".to_owned(), Object::Num(hgt));
        let d = self.dicts.len();
        self.dicts.push(entries);
        Object::Dictionary(d)
    }

    /// Performs one native call. The pure natives (`panic`, `string`) are
    /// computed here; the rest go to the host, and whatever reply comes
    /// back is converted to a value — no reply shape is assumed.
    #[verifier::rlimit(80)]
    pub fn dispatch_native<H: Host>(
        &mut self,
        host: &mut H,
        which: NativeFn,
        args: &Vec<Object>,
        paren: &Token,
    ) -> (r: Result<Flow, RuntimeError>)
        requires
            old(self).wf(),
        ensures
            final(self).wf(),
            evolves(*old(self), *final(self)),
            !(r matches Ok(Flow::Ret(_))),
            ({
                let arg = if args@.len() >= 1 {
                    args@[0]
                } else {
                    Object::Nil
                };
                match which {
                    // host-independent natives: success (or the exact
                    // error) is owed outright
                    NativeFn::Panic => *final(self) == *old(self) && (r matches Err(e) && (e.kind
                        matches RuntimeErrorKind::UserPanic(_)) && tok_like(e.token, *paren)),
                    NativeFn::Stringify => match show_spec(
                        arg,
                        old(self).strings@,
                        old(self).lists@,
                        old(self).dicts@,
                        old(self).classes@,
                        old(self).instances@,
                        old(self).depth_budget_spec() as nat,
                    ) {
                        Some(t) => {
                            &&& r == Ok::<Flow, RuntimeError>(
                                Flow::Norm(Object::Str(old(self).strings@.len() as usize)),
                            )
                            &&& final(self).strings@.len() == old(self).strings@.len() + 1
                            &&& final(self).strings@.last()@ == t
                        },
                        None => r matches Err(e) && e.kind == RuntimeErrorKind::DepthExceeded
                            && *final(self) == *old(self),
                    },
                    NativeFn::Exit => r == Ok::<Flow, RuntimeError>(Flow::Exit(0)) && *final(self)
                        == *old(self),
                    NativeFn::ExitWithCode => match arg {
                        Object::Num(n) => r == Ok::<Flow, RuntimeError>(Flow::Exit(n))
                            && *final(self) == *old(self),
                        _ => *final(self) == *old(self) && (r matches Err(e) && (e.kind matches
                            RuntimeErrorKind::CannotConvertToExitCode(t) && t@
                            == crate::object::kind_name(arg))),
                    },
                    // host-answered natives: whatever reply came back, the
                    // result is a value of the documented shape
                    NativeFn::Render => r == Ok::<Flow, RuntimeError>(Flow::Norm(Object::Nil))
                        && *final(self) == *old(self),
                    NativeFn::Clock | NativeFn::Elapsed | NativeFn::Tan | NativeFn::Sqrt
                        | NativeFn::Sin | NativeFn::Cos => *final(self) == *old(self) && (match r {
                        Ok(Flow::Norm(v)) => v is Num || v is Nil,
                        _ => false,
                    }),
                    NativeFn::GetWindowDimensions => match r {
                        Ok(Flow::Norm(v)) => if v is Nil {
                            *final(self) == *old(self)
                        } else {
                            &&& v == Object::Dictionary(old(self).dicts@.len() as usize)
                            &&& final(self).dicts@.len() == old(self).dicts@.len() + 1
                            &&& *final(self) == (Interpreter {
                                dicts: final(self).dicts,
                                ..*old(self)
                            })
                        },
                        _ => false,
                    },
                    NativeFn::Instant => *final(self) == (Interpreter {
                        gen: final(self).gen,
                        ..*old(self)
                    }) && (match r {
                        Ok(Flow::Norm(v)) => v is NativeObject || v is Nil,
                        _ => false,
                    }),
                    NativeFn::RegisterKeyEvent => match arg {
                        Object::Str(h) => if h < old(self).strings@.len() {
                            &&& r == Ok::<Flow, RuntimeError>(Flow::Norm(Object::Nil))
                            &&& *final(self) == (Interpreter {
                                callbacks: final(self).callbacks,
                                ..*old(self)
                            })
                            &&& final(self).callbacks@.len() == old(self).callbacks@.len() + 1
                            &&& final(self).callbacks@.last().0@
                                == old(self).strings@[h as int]@
                            &&& final(self).callbacks@.last().1 == (if args@.len() >= 2 {
                                args@[1]
                            } else {
                                Object::Nil
                            })
                        } else {
                            *final(self) == *old(self) && (r matches Err(e) && e.kind
                                == RuntimeErrorKind::InternalBug)
                        },
                        _ => r == Ok::<Flow, RuntimeError>(Flow::Norm(Object::Nil))
                            && *final(self) == *old(self),
                    },
                }
            }),
    {
        let budget = self.depth_budget();
        match which {
            NativeFn::Panic => {
                let arg = if args.len() >= 1 {
                    args[0]
                } else {
                    Object::Nil
                };
                let msg = match show_obj(
                    &arg,
                    &self.strings,
                    &self.lists,
                    &self.dicts,
                    &self.classes,
                    &self.instances,
                    budget,
                ) {
                    Ok(m) => m,
                    Err(_) => "<unprintable>".to_owned(),
                };
                Err(Self::runtime_err(paren, RuntimeErrorKind::UserPanic(msg)))
            },
            NativeFn::Stringify => {
                let arg = if args.len() >= 1 {
                    args[0]
                } else {
                    Object::Nil
                };
                match show_obj(
                    &arg,
                    &self.strings,
                    &self.lists,
                    &self.dicts,
                    &self.classes,
                    &self.instances,
                    budget,
                ) {
                    Ok(m) => {
                        let h = self.intern(m);
                        Ok(Flow::Norm(Object::Str(h)))
                    },
                    Err(kind) => Err(Self::runtime_err(paren, kind)),
                }
            },
            NativeFn::Exit => Ok(Flow::Exit(0)),
            NativeFn::ExitWithCode => {
                let arg = if args.len() >= 1 {
                    args[0]
                } else {
                    Object::Nil
                };
                match arg {
                    Object::Num(n) => Ok(Flow::Exit(n)),
                    other => Err(
                        Self::runtime_err(
                            paren,
                            RuntimeErrorKind::CannotConvertToExitCode(other.get_type()),
                        ),
                    ),
                }
            },
            NativeFn::Render => {
                let arg = if args.len() >= 1 {
                    args[0]
                } else {
                    Object::Nil
                };
                let payload = self.externalize(&arg, budget);
                host.native(NativeRequest::Render(payload));
                Ok(Flow::Norm(Object::Nil))
            },
            NativeFn::Clock => {
                match host.native(NativeRequest::Clock) {
                    NativeReply::Num(n) => Ok(Flow::Norm(Object::Num(n))),
                    _ => Ok(Flow::Norm(Object::Nil)),
                }
            },
            NativeFn::GetWindowDimensions => {
                match host.native(NativeRequest::WindowDimensions) {
                    NativeReply::Dims(w, hgt) => {
                        let d = self.dims_to_dict(w, hgt);
                        Ok(Flow::Norm(d))
                    },
                    _ => Ok(Flow::Norm(Object::Nil)),
                }
            },
            NativeFn::Tan | NativeFn::Sqrt | NativeFn::Sin | NativeFn::Cos => {
                let arg = if args.len() >= 1 {
                    args[0]
                } else {
                    Object::Nil
                };
                match arg {
                    Object::Num(n) => {
                        let req = match which {
                            NativeFn::Tan => NativeRequest::Tan(n),
                            NativeFn::Sqrt => NativeRequest::Sqrt(n),
                            NativeFn::Sin => NativeRequest::Sin(n),
                            _ => NativeRequest::Cos(n),
                        };
                        match host.native(req) {
                            NativeReply::Num(v) => Ok(Flow::Norm(Object::Num(v))),
                            _ => Ok(Flow::Norm(Object::Nil)),
                        }
                    },
                    _ => Ok(Flow::Norm(Object::Nil)),
                }
            },
            NativeFn::Instant => {
                match host.native(NativeRequest::Instant) {
                    NativeReply::Opaque(t) => {
                        let no = NativeObject::new(&mut self.gen, t);
                        Ok(Flow::Norm(Object::NativeObject(no)))
                    },
                    _ => Ok(Flow::Norm(Object::Nil)),
                }
            },
            NativeFn::Elapsed => {
                let arg = if args.len() >= 1 {
                    args[0]
                } else {
                    Object::Nil
                };
                match arg {
                    Object::NativeObject(no) => {
                        match host.native(NativeRequest::Elapsed(no.token)) {
                            NativeReply::Num(v) => Ok(Flow::Norm(Object::Num(v))),
                            _ => Ok(Flow::Norm(Object::Nil)),
                        }
                    },
                    _ => Ok(Flow::Norm(Object::Nil)),
                }
            },
            NativeFn::RegisterKeyEvent => {
                let key = if args.len() >= 1 {
                    args[0]
                } else {
                    Object::Nil
                };
                let callback = if args.len() >= 2 {
                    args[1]
                } else {
                    Object::Nil
                };
                match key {
                    Object::Str(h) => {
                        if h < self.strings.len() {
                            let name = self.strings[h].clone();
                            self.callbacks.push((name, callback));
                            host.native(
                                NativeRequest::RegisterKeyEvent(self.strings[h].clone()),
                            );
                            Ok(Flow::Norm(Object::Nil))
                        } else {
                            Err(Self::runtime_err(paren, RuntimeErrorKind::InternalBug))
                        }
                    },
                    _ => Ok(Flow::Norm(Object::Nil)),
                }
            },
        }
    }

    /// Executes one statement. Cancellation is polled first: a set flag
    /// halts evaluation at this boundary with no error and no state
    /// change. A zero budget stops the run as exhausted.
    #[verifier::rlimit(80)]
    #[verifier::loop_isolation(false)]
    pub fn execute<H: Host>(
        &mut self,
        host: &mut H,
        program: &Program,
        s: &Stmt,
        fuel: u64,
    ) -> (r: Result<Flow, RuntimeError>)
        requires
            old(self).wf(),
        ensures
            final(self).wf(),
            evolves(*old(self), *final(self)),
            old(host).cancel_pending() ==> r == Ok::<Flow, RuntimeError>(Flow::Cancelled)
                && *final(self) == *old(self),
            !(*s is Expression) ==> match r {
                Ok(Flow::Norm(v)) => v == Object::Nil,
                _ => true,
            },
            match *s {
                Stmt::Print { .. } => match r {
                    Ok(Flow::Norm(_)) => final(self).output@.len() >= old(self).output@.len() + 1,
                    _ => true,
                },
                Stmt::Fun { decl } => match r {
                    Ok(Flow::Norm(_)) => decl < program.decls@.len() && final(self).env.binding_at(
                        old(self).current as int,
                        program.decls@[decl as int].name.lexeme@,
                    ) matches Some(Some(Object::Callable(_))),
                    _ => true,
                },
                Stmt::BufferStmt(b) => match r {
                    Ok(Flow::Norm(_)) => final(self).env.binding_at(
                        old(self).current as int,
                        b.name.lexeme@,
                    ) matches Some(Some(_)),
                    _ => true,
                },
                Stmt::PipelineStmt(p) => match r {
                    Ok(Flow::Norm(_)) => final(self).env.binding_at(
                        old(self).current as int,
                        p.name.lexeme@,
                    ) matches Some(Some(_)),
                    _ => true,
                },
                Stmt::RenderStmt(rn) => match r {
                    Ok(Flow::Norm(_)) => final(self).env.binding_at(
                        old(self).current as int,
                        rn.name.lexeme@,
                    ) matches Some(Some(Object::List(_))),
                    _ => true,
                },
                Stmt::Let { name, initializer: Some(_) } => match r {
                    Ok(Flow::Norm(_)) => final(self).env.binding_at(
                        old(self).current as int,
                        name.lexeme@,
                    ) matches Some(Some(_)),
                    _ => true,
                },
                Stmt::Return { .. } => !(r matches Ok(Flow::Norm(_))),
                Stmt::ClassDecl { name, .. } => match r {
                    Ok(Flow::Norm(_)) => final(self).env.binding_at(
                        old(self).current as int,
                        name.lexeme@,
                    ) matches Some(Some(Object::Class(_))),
                    _ => true,
                },
                _ => true,
            },
            (!old(host).cancel_pending() && fuel > 0) ==> match *s {
                Stmt::UseStmt { .. } => r == Ok::<Flow, RuntimeError>(Flow::Norm(Object::Nil))
                    && *final(self) == *old(self),
                Stmt::Return { keyword: _, value: None } => r == Ok::<Flow, RuntimeError>(
                    Flow::Ret(Object::Nil),
                ) && *final(self) == *old(self),
                Stmt::Let { name, initializer: None } => {
                    &&& r == Ok::<Flow, RuntimeError>(Flow::Norm(Object::Nil))
                    &&& final(self).env.frames@.len() == old(self).env.frames@.len()
                    &&& final(self).env.binding_at(old(self).current as int, name.lexeme@)
                        == Some(None::<Object>)
                    &&& (forall|p: Seq<char>|
                        p != name.lexeme@ ==> #[trigger] final(self).env.binding_at(
                            old(self).current as int,
                            p,
                        ) == old(self).env.binding_at(old(self).current as int, p))
                },
                _ => true,
            },
        decreases fuel, 3int, 0int,
    {
        if host.poll_cancelled() {
            return Ok(Flow::Cancelled);
        }
        if fuel == 0 {
            return Ok(Flow::Exhausted);
        }
        let sub: u64 = fuel - 1;
        match s {
            Stmt::Expression { expr } => self.evaluate(host, program, expr, sub),
            Stmt::Print { expr } => {
                let v = match self.evaluate(host, program, expr, sub) {
                    Ok(Flow::Norm(v)) => v,
                    other => {
                        return other;
                    },
                };
                let budget = self.depth_budget();
                let line = match show_obj(
                    &v,
                    &self.strings,
                    &self.lists,
                    &self.dicts,
                    &self.classes,
                    &self.instances,
                    budget,
                ) {
                    Ok(m) => m,
                    Err(kind) => {
                        return Err(Self::runtime_err(
                            &Token::synthetic(TokenKind::Print, "print".to_owned()),
                            kind,
                        ));
                    },
                };
                host.native(NativeRequest::Print(line.clone()));
                self.output.push(line);
                Ok(Flow::Norm(Object::Nil))
            },
            Stmt::Let { name, initializer } => {
                match initializer {
                    Some(init) => {
                        let v = match self.evaluate(host, program, init, sub) {
                            Ok(Flow::Norm(v)) => v,
                            other => {
                                return other;
                            },
                        };
                        let key = name.get_lexeme().clone();
                        let ghost key_snap = key;
                        let ghost before = self.env.frames@[self.current as int].bindings@;
                        self.env.define(self.current, key, Some(v));
                        proof {
                            crate::util::lemma_assoc_store_lookup(
                                before,
                                key_snap,
                                Some(v),
                                name.lexeme@,
                            );
                        }
                    },
                    None => {
                        let key = name.get_lexeme().clone();
                        let ghost key_snap = key;
                        let ghost before = self.env.frames@[self.current as int].bindings@;
                        self.env.define(self.current, key, None);
                        proof {
                            crate::util::lemma_assoc_store_lookup(
                                before,
                                key_snap,
                                None::<Object>,
                                name.lexeme@,
                            );
                            assert forall|p: Seq<char>|
                                p != name.lexeme@ implies #[trigger] self.env.binding_at(
                                old(self).current as int,
                                p,
                            ) == old(self).env.binding_at(old(self).current as int, p) by {
                                crate::util::lemma_assoc_store_lookup(
                                    before,
                                    key_snap,
                                    None::<Object>,
                                    p,
                                );
                            }
                        }
                    },
                }
                Ok(Flow::Norm(Object::Nil))
            },
            Stmt::Block { statements } => {
                let frame = self.env.push_frame(self.current);
                let prev = self.current;
                self.current = frame;
                let mut i: usize = 0;
                let mut out: Result<Flow, RuntimeError> = Ok(Flow::Norm(Object::Nil));
                while i < statements.len()
                    invariant
                        self.wf(),
                        prev < self.env.frames@.len(),
                        prev == old(self).current,
                        evolves_heaps(*old(self), *self),
                    decreases statements@.len() - i,
                {
                    match self.execute(host, program, &statements[i], sub) {
                        Ok(Flow::Norm(_)) => {},
                        Ok(other) => {
                            out = Ok(other);
                            break ;
                        },
                        Err(e) => {
                            out = Err(e);
                            break ;
                        },
                    }
                    i = i + 1;
                }
                self.current = prev;
                match out {
                    Ok(Flow::Norm(_)) => Ok(Flow::Norm(Object::Nil)),
                    other => other,
                }
            },
            Stmt::If { cond, then_branch, else_branch } => {
                let c = match self.evaluate(host, program, cond, sub) {
                    Ok(Flow::Norm(v)) => v,
                    other => {
                        return other;
                    },
                };
                if self.is_truly(&c) {
                    match self.execute(host, program, then_branch, sub) {
                        Ok(Flow::Norm(_)) => Ok(Flow::Norm(Object::Nil)),
                        other => other,
                    }
                } else {
                    match else_branch {
                        Some(els) => match self.execute(host, program, els, sub) {
                            Ok(Flow::Norm(_)) => Ok(Flow::Norm(Object::Nil)),
                            other => other,
                        },
                        None => Ok(Flow::Norm(Object::Nil)),
                    }
                }
            },
            Stmt::While { cond, body } => {
                let mut remaining = sub;
                loop
                    invariant
                        self.wf(),
                        evolves(*old(self), *self),
                        remaining < fuel,
                    decreases remaining,
                {
                    let c = match self.evaluate(host, program, cond, remaining) {
                        Ok(Flow::Norm(v)) => v,
                        other => {
                            return other;
                        },
                    };
                    if !self.is_truly(&c) {
                        return Ok(Flow::Norm(Object::Nil));
                    }
                    match self.execute(host, program, body, remaining) {
                        Ok(Flow::Norm(_)) => {},
                        other => {
                            return other;
                        },
                    }
                    if remaining == 0 {
                        return Ok(Flow::Exhausted);
                    }
                    remaining = remaining - 1;
                }
            },
            Stmt::Fun { decl } => {
                if *decl >= program.decls.len() {
                    return Err(Self::runtime_err(
                        &Token::synthetic(TokenKind::Fn, "fn".to_owned()),
                        RuntimeErrorKind::InternalBug,
                    ));
                }
                let name_tok = program.decls[*decl].name.duplicate();
                let name_h = self.intern(name_tok.get_lexeme().clone());
                let func = Object::function(
                    program.decls[*decl].id,
                    *decl,
                    Some(self.current),
                    program.decls[*decl].params.len(),
                    name_h,
                    false,
                );
                let key = name_tok.get_lexeme().clone();
                let ghost key_snap = key;
                let ghost before = self.env.frames@[self.current as int].bindings@;
                self.env.define(self.current, key, Some(func));
                proof {
                    crate::util::lemma_assoc_store_lookup(
                        before,
                        key_snap,
                        Some(func),
                        program.decls@[*decl as int].name.lexeme@,
                    );
                }
                Ok(Flow::Norm(Object::Nil))
            },
            Stmt::Return { keyword, value } => {
                match value {
                    Some(e) => match self.evaluate(host, program, e, sub) {
                        Ok(Flow::Norm(v)) => Ok(Flow::Ret(v)),
                        other => other,
                    },
                    None => Ok(Flow::Ret(Object::Nil)),
                }
            },
            Stmt::ClassDecl { name, superclass, methods } => self.execute_class(
                host,
                program,
                name,
                superclass,
                methods,
                sub,
            ),
            Stmt::Export { inner } => {
                match self.execute(host, program, inner, sub) {
                    Ok(Flow::Norm(_)) => Ok(Flow::Norm(Object::Nil)),
                    other => other,
                }
            },
            Stmt::UseStmt { .. } => Ok(Flow::Norm(Object::Nil)),
            Stmt::BufferStmt(b) => {
                let v = match self.evaluate(host, program, &b.obj, sub) {
                    Ok(Flow::Norm(v)) => v,
                    other => {
                        return other;
                    },
                };
                let key = b.name.get_lexeme().clone();
                let ghost key_snap = key;
                let ghost before = self.env.frames@[self.current as int].bindings@;
                self.env.define(self.current, key, Some(v));
                proof {
                    crate::util::lemma_assoc_store_lookup(before, key_snap, Some(v), b.name.lexeme@);
                }
                Ok(Flow::Norm(Object::Nil))
            },
            Stmt::PipelineStmt(p) => {
                let v = match self.evaluate(host, program, &p.obj, sub) {
                    Ok(Flow::Norm(v)) => v,
                    other => {
                        return other;
                    },
                };
                let key = p.name.get_lexeme().clone();
                let ghost key_snap = key;
                let ghost before = self.env.frames@[self.current as int].bindings@;
                self.env.define(self.current, key, Some(v));
                proof {
                    crate::util::lemma_assoc_store_lookup(before, key_snap, Some(v), p.name.lexeme@);
                }
                Ok(Flow::Norm(Object::Nil))
            },
            Stmt::RenderStmt(rn) => {
                let mut values: Vec<Object> = Vec::new();
                let mut i: usize = 0;
                while i < rn.elements.len()
                    invariant
                        self.wf(),
                        evolves(*old(self), *self),
                    decreases rn.elements@.len() - i,
                {
                    match self.evaluate(host, program, &rn.elements[i], sub) {
                        Ok(Flow::Norm(v)) => {
                            values.push(v);
                        },
                        other => {
                            return other;
                        },
                    }
                    i = i + 1;
                }
                let h = self.lists.len();
                self.lists.push(values);
                let key = rn.name.get_lexeme().clone();
                let ghost key_snap = key;
                let ghost before = self.env.frames@[self.current as int].bindings@;
                self.env.define(self.current, key, Some(Object::List(h)));
                proof {
                    crate::util::lemma_assoc_store_lookup(
                        before,
                        key_snap,
                        Some(Object::List(h)),
                        rn.name.lexeme@,
                    );
                }
                Ok(Flow::Norm(Object::Nil))
            },
        }
    }

    /// Executes a class declaration: the superclass expression (which
    /// must be a class), the synthetic `super` frame when there is one,
    /// the method closures (`init` flagged as constructor), and the
    /// two-phase binding of the class name so methods can refer to it.
    #[verifier::loop_isolation(false)]
    pub fn execute_class<H: Host>(
        &mut self,
        host: &mut H,
        program: &Program,
        name: &Token,
        superclass: &Option<Expr>,
        methods: &Vec<usize>,
        fuel: u64,
    ) -> (r: Result<Flow, RuntimeError>)
        requires
            old(self).wf(),
        ensures
            final(self).wf(),
            evolves(*old(self), *final(self)),
            match r {
                Ok(Flow::Norm(v)) => {
                    &&& v == Object::Nil
                    &&& final(self).classes@.len() >= 1
                    &&& final(self).classes@.last().name@ == name.lexeme@
                    &&& (superclass is None ==> final(self).classes@.last().superclass is None
                        && final(self).classes@.len() == old(self).classes@.len() + 1)
                    &&& final(self).env.binding_at(old(self).current as int, name.lexeme@)
                        == Some(
                        Some(Object::Class((final(self).classes@.len() - 1) as usize)),
                    )
                },
                _ => true,
            },
        decreases fuel, 2int, 0int,
    {
        if fuel == 0 {
            return Ok(Flow::Exhausted);
        }
        let sub: u64 = fuel - 1;
        let super_handle: Option<usize> = match superclass {
            Some(sup_expr) => {
                let sup = match self.evaluate(host, program, sup_expr, sub) {
                    Ok(Flow::Norm(v)) => v,
                    other => {
                        return other;
                    },
                };
                match sup {
                    Object::Class(h) => Some(h),
                    _ => {
                        return Err(Self::runtime_err(
                            name,
                            RuntimeErrorKind::SuperclassMustBeClass,
                        ));
                    },
                }
            },
            None => None,
        };
        let ghost pre_classes = self.classes@;
        let decl_key = name.get_lexeme().clone();
        let ghost decl_key_snap = decl_key;
        let ghost decl_before = self.env.frames@[self.current as int].bindings@;
        self.env.define(self.current, decl_key, None);
        proof {
            crate::util::lemma_assoc_store_lookup(
                decl_before,
                decl_key_snap,
                None::<Object>,
                name.lexeme@,
            );
        }
        // methods close over an extra frame binding `super` when there is
        // a superclass
        let decl_frame = self.current;
        let method_frame = match super_handle {
            Some(h) => {
                let f = self.env.push_frame(decl_frame);
                self.env.define(f, "super".to_owned(), Some(Object::Class(h)));
                f
            },
            None => decl_frame,
        };
        let mut table: Vec<(String, Object)> = Vec::new();
        let mut i: usize = 0;
        while i < methods.len()
            invariant
                self.wf(),
                method_frame < self.env.frames@.len(),
                decl_frame < self.env.frames@.len(),
                decl_frame == old(self).current,
                evolves(*old(self), *self),
                self.classes@ == pre_classes,
                superclass is None ==> pre_classes == old(self).classes@,
                self.env.binding_at(decl_frame as int, name.lexeme@) is Some,
            decreases methods@.len() - i,
        {
            let m = methods[i];
            if m < program.decls.len() {
                let mname = program.decls[m].name.get_lexeme().clone();
                let is_init = crate::util::str_eqx(mname.as_str(), "init");
                let name_h = self.intern(mname.clone());
                let func = Object::function(
                    program.decls[m].id,
                    m,
                    Some(method_frame),
                    program.decls[m].params.len(),
                    name_h,
                    is_init,
                );
                assoc_put(&mut table, mname, func);
            }
            i = i + 1;
        }
        let class_val = Object::class(
            &mut self.classes,
            name.get_lexeme().clone(),
            table,
            super_handle,
        );
        proof {
            // the class name is still bound in the declaring frame, so
            // the assignment lands exactly there
            self.env.lemma_chain_resolve_binds(decl_frame as int, name.lexeme@);
        }
        let ghost bindings_before = self.env.frames@[decl_frame as int].bindings@;
        match self.env.assign(decl_frame, name, class_val) {
            Ok(_) => {
                proof {
                    crate::util::lemma_assoc_store_lookup(
                        bindings_before,
                        name.lexeme,
                        Some(class_val),
                        name.lexeme@,
                    );
                }
                Ok(Flow::Norm(Object::Nil))
            },
            Err(e) => Err(e),
        }
    }

    /// Evaluates one expression. Cancellation is polled first, exactly as
    /// for statements.
    #[verifier::rlimit(80)]
    #[verifier::loop_isolation(false)]
    pub fn evaluate<H: Host>(
        &mut self,
        host: &mut H,
        program: &Program,
        e: &Expr,
        fuel: u64,
    ) -> (r: Result<Flow, RuntimeError>)
        requires
            old(self).wf(),
        ensures
            final(self).wf(),
            evolves(*old(self), *final(self)),
            !(r matches Ok(Flow::Ret(_))),
            old(host).cancel_pending() ==> r == Ok::<Flow, RuntimeError>(Flow::Cancelled)
                && *final(self) == *old(self),
            (!old(host).cancel_pending() && fuel > 0) ==> match *e {
                Expr::Literal { id: _, token: _, value: LitVal::Num(n) } => r == Ok::<
                    Flow,
                    RuntimeError,
                >(Flow::Norm(Object::Num(n))) && *final(self) == *old(self),
                Expr::Literal { id: _, token: _, value: LitVal::Truth(b) } => r == Ok::<
                    Flow,
                    RuntimeError,
                >(Flow::Norm(Object::Bool(b))) && *final(self) == *old(self),
                Expr::Literal { id: _, token: _, value: LitVal::Nil } => r == Ok::<
                    Flow,
                    RuntimeError,
                >(Flow::Norm(Object::Nil)) && *final(self) == *old(self),
                Expr::Literal { id: _, token: _, value: LitVal::Text(t) } => {
                    &&& r == Ok::<Flow, RuntimeError>(
                        Flow::Norm(Object::Str(old(self).strings@.len() as usize)),
                    )
                    &&& final(self).strings@.len() == old(self).strings@.len() + 1
                    &&& final(self).strings@.last()@ == t@
                },
                Expr::Variable { id, name } => *final(self) == *old(self) && (match r {
                    Ok(Flow::Norm(v)) => old(self).lookup_post(name, id, Ok(v)),
                    Err(e2) => old(self).lookup_post(name, id, Err(e2)),
                    _ => false,
                }),
                Expr::SelfExpr { id, keyword } => *final(self) == *old(self) && (match r {
                    Ok(Flow::Norm(v)) => old(self).lookup_post(keyword, id, Ok(v)),
                    Err(e2) => old(self).lookup_post(keyword, id, Err(e2)),
                    _ => false,
                }),
                _ => true,
            },
        decreases fuel, 3int, 1int,
    {
        if host.poll_cancelled() {
            return Ok(Flow::Cancelled);
        }
        if fuel == 0 {
            return Ok(Flow::Exhausted);
        }
        let sub: u64 = fuel - 1;
        match e {
            Expr::Literal { id: _, token: _, value } => {
                match value {
                    LitVal::Num(n) => Ok(Flow::Norm(Object::Num(*n))),
                    LitVal::Text(t) => {
                        let h = self.intern(t.clone());
                        Ok(Flow::Norm(Object::Str(h)))
                    },
                    LitVal::Truth(b) => Ok(Flow::Norm(Object::Bool(*b))),
                    LitVal::Nil => Ok(Flow::Norm(Object::Nil)),
                }
            },
            Expr::Grouping { id: _, inner } => self.evaluate(host, program, inner, sub),
            Expr::Unary { id: _, op, right } => {
                let v = match self.evaluate(host, program, right, sub) {
                    Ok(Flow::Norm(v)) => v,
                    other => {
                        return other;
                    },
                };
                let res = match op.get_type() {
                    TokenKind::Minus => crate::object::op_neg(&v),
                    TokenKind::Bang => Ok(crate::object::op_not(&v)),
                    _ => Err(RuntimeErrorKind::UnsupportedOperator(op.get_lexeme().clone())),
                };
                match res {
                    Ok(v2) => Ok(Flow::Norm(v2)),
                    Err(kind) => Err(Self::runtime_err(op, kind)),
                }
            },
            Expr::Binary { id: _, op, left, right } => {
                let l = match self.evaluate(host, program, left, sub) {
                    Ok(Flow::Norm(v)) => v,
                    other => {
                        return other;
                    },
                };
                let rv = match self.evaluate(host, program, right, sub) {
                    Ok(Flow::Norm(v)) => v,
                    other => {
                        return other;
                    },
                };
                self.apply_binary(op, &l, &rv)
            },
            Expr::Logical { id: _, op, left, right } => {
                let l = match self.evaluate(host, program, left, sub) {
                    Ok(Flow::Norm(v)) => v,
                    other => {
                        return other;
                    },
                };
                let or_op = op.get_type() == TokenKind::Or;
                if or_op {
                    if self.is_truly(&l) {
                        return Ok(Flow::Norm(l));
                    }
                } else {
                    if !self.is_truly(&l) {
                        return Ok(Flow::Norm(l));
                    }
                }
                self.evaluate(host, program, right, sub)
            },
            Expr::Variable { id, name } => {
                match self.look_up_variable(name, *id) {
                    Ok(v) => Ok(Flow::Norm(v)),
                    Err(e2) => Err(e2),
                }
            },
            Expr::Assign { id, name, value } => {
                let v = match self.evaluate(host, program, value, sub) {
                    Ok(Flow::Norm(v)) => v,
                    other => {
                        return other;
                    },
                };
                let assigned = match self.locals.depth_of(*id) {
                    Some(d) => self.env.assign_at(self.current, d, name, v),
                    None => self.env.assign(0, name, v),
                };
                match assigned {
                    Ok(v2) => Ok(Flow::Norm(v2)),
                    Err(e2) => Err(e2),
                }
            },
            Expr::Call { id: _, paren, callee, args } => {
                let callee_v = match self.evaluate(host, program, callee, sub) {
                    Ok(Flow::Norm(v)) => v,
                    other => {
                        return other;
                    },
                };
                let mut arg_vals: Vec<Object> = Vec::new();
                let mut i: usize = 0;
                while i < args.len()
                    invariant
                        self.wf(),
                        evolves(*old(self), *self),
                    decreases args@.len() - i,
                {
                    match self.evaluate(host, program, &args[i], sub) {
                        Ok(Flow::Norm(v)) => {
                            arg_vals.push(v);
                        },
                        other => {
                            return other;
                        },
                    }
                    i = i + 1;
                }
                self.call_object(host, program, &callee_v, &arg_vals, paren, sub)
            },
            Expr::GetProp(g) => {
                let obj = match self.evaluate(host, program, &g.object, sub) {
                    Ok(Flow::Norm(v)) => v,
                    other => {
                        return other;
                    },
                };
                match &g.ty {
                    GetType::Name(name) => {
                        match self.get_property(&obj, name) {
                            Ok(v) => Ok(Flow::Norm(v)),
                            Err(e2) => Err(e2),
                        }
                    },
                    GetType::Index(bracket, index) => {
                        let idx = match self.evaluate(host, program, index, sub) {
                            Ok(Flow::Norm(v)) => v,
                            other => {
                                return other;
                            },
                        };
                        match self.read_index(&obj, &idx, bracket) {
                            Ok(v) => Ok(Flow::Norm(v)),
                            Err(e2) => Err(e2),
                        }
                    },
                }
            },
            Expr::SetProp(sp) => {
                let obj = match self.evaluate(host, program, &sp.obj, sub) {
                    Ok(Flow::Norm(v)) => v,
                    other => {
                        return other;
                    },
                };
                match &sp.ty {
                    SetType::Name(name) => {
                        match obj {
                            Object::Instance(_) | Object::Dictionary(_) => {
                                let v = match self.evaluate(host, program, &sp.value, sub) {
                                    Ok(Flow::Norm(v)) => v,
                                    other => {
                                        return other;
                                    },
                                };
                                match self.set_property(&obj, name, v) {
                                    Ok(v2) => Ok(Flow::Norm(v2)),
                                    Err(e2) => Err(e2),
                                }
                            },
                            _ => Err(Self::runtime_err(
                                name,
                                RuntimeErrorKind::OnlyInstancesHaveProperties,
                            )),
                        }
                    },
                    SetType::Index(bracket, index) => {
                        let idx = match self.evaluate(host, program, index, sub) {
                            Ok(Flow::Norm(v)) => v,
                            other => {
                                return other;
                            },
                        };
                        match idx {
                            Object::Num(_) => {},
                            _ => {
                                return Err(Self::runtime_err(
                                    bracket,
                                    RuntimeErrorKind::MustBeANumber,
                                ));
                            },
                        }
                        match obj {
                            Object::List(_) => {
                                let v = match self.evaluate(host, program, &sp.value, sub) {
                                    Ok(Flow::Norm(v)) => v,
                                    other => {
                                        return other;
                                    },
                                };
                                match self.write_index(&obj, &idx, v, bracket) {
                                    Ok(v2) => Ok(Flow::Norm(v2)),
                                    Err(e2) => Err(e2),
                                }
                            },
                            _ => Err(Self::runtime_err(
                                bracket,
                                RuntimeErrorKind::OnlyListsHaveIndices,
                            )),
                        }
                    },
                }
            },
            Expr::ListLit { id: _, elements } => {
                let mut values: Vec<Object> = Vec::new();
                let mut i: usize = 0;
                while i < elements.len()
                    invariant
                        self.wf(),
                        evolves(*old(self), *self),
                    decreases elements@.len() - i,
                {
                    match self.evaluate(host, program, &elements[i], sub) {
                        Ok(Flow::Norm(v)) => {
                            values.push(v);
                        },
                        other => {
                            return other;
                        },
                    }
                    i = i + 1;
                }
                let h = self.lists.len();
                self.lists.push(values);
                Ok(Flow::Norm(Object::List(h)))
            },
            Expr::ObjLit(o) => {
                let mut entries: Vec<(String, Object)> = Vec::new();
                let mut i: usize = 0;
                while i < o.values.len()
                    invariant
                        self.wf(),
                        evolves(*old(self), *self),
                    decreases o.values@.len() - i,
                {
                    let v = match self.evaluate(host, program, &o.values[i].1, sub) {
                        Ok(Flow::Norm(v)) => v,
                        other => {
                            return other;
                        },
                    };
                    let key = o.values[i].0.get_lexeme().clone();
                    assoc_put(&mut entries, key, v);
                    i = i + 1;
                }
                let h = self.dicts.len();
                self.dicts.push(entries);
                Ok(Flow::Norm(Object::Dictionary(h)))
            },
            Expr::Anon(a) => {
                if a.decl >= program.decls.len() {
                    return Err(Self::runtime_err(
                        &a.token,
                        RuntimeErrorKind::InternalBug,
                    ));
                }
                let name_h = self.intern(a.token.get_lexeme().clone());
                let func = Object::function(
                    program.decls[a.decl].id,
                    a.decl,
                    Some(self.current),
                    program.decls[a.decl].params.len(),
                    name_h,
                    false,
                );
                Ok(Flow::Norm(func))
            },
            Expr::SelfExpr { id, keyword } => {
                match self.look_up_variable(keyword, *id) {
                    Ok(v) => Ok(Flow::Norm(v)),
                    Err(e2) => Err(e2),
                }
            },
            Expr::SuperExpr { id, keyword, method } => {
                let d = match self.locals.depth_of(*id) {
                    Some(d) => d,
                    None => {
                        return Err(Self::runtime_err(
                            keyword,
                            RuntimeErrorKind::InternalBug,
                        ));
                    },
                };
                if d == 0 {
                    return Err(Self::runtime_err(keyword, RuntimeErrorKind::InternalBug));
                }
                let sup = match self.env.get_at(self.current, d, keyword) {
                    Ok(v) => v,
                    Err(e2) => {
                        return Err(e2);
                    },
                };
                let sup_h = match sup {
                    Object::Class(h) => h,
                    _ => {
                        return Err(Self::runtime_err(
                            keyword,
                            RuntimeErrorKind::InternalBug,
                        ));
                    },
                };
                let self_tok = Token::synthetic(TokenKind::Slf, "self".to_owned());
                let inst = match self.env.get_at(self.current, d - 1, &self_tok) {
                    Ok(v) => v,
                    Err(e2) => {
                        return Err(e2);
                    },
                };
                let inst_h = match inst {
                    Object::Instance(h) => h,
                    _ => {
                        return Err(Self::runtime_err(
                            keyword,
                            RuntimeErrorKind::InternalBug,
                        ));
                    },
                };
                match self.super_dispatch(sup_h, inst_h, method) {
                    Ok(m) => Ok(Flow::Norm(m)),
                    Err(e2) => Err(e2),
                }
            },
        }
    }

    /// Applies one binary operator to two evaluated operands. Equality
    /// and the four orderings are pinned here to the value model's spec
    /// functions; the arithmetic arms delegate to the exact contracts of
    /// the value operations they call.
    pub fn apply_binary(&mut self, op: &Token, l: &Object, rv: &Object) -> (r: Result<
        Flow,
        RuntimeError,
    >)
        requires
            old(self).wf(),
        ensures
            final(self).wf(),
            evolves(*old(self), *final(self)),
            !(r matches Ok(Flow::Ret(_))),
            match op.kind {
                TokenKind::EqualEqual => match crate::object::eq_spec(
                    *l,
                    *rv,
                    old(self).strings@,
                    old(self).lists@,
                    old(self).dicts@,
                    old(self).depth_budget_spec() as nat,
                ) {
                    Some(b) => r == Ok::<Flow, RuntimeError>(Flow::Norm(Object::Bool(b)))
                        && *final(self) == *old(self),
                    None => r matches Err(e) && e.kind == RuntimeErrorKind::DepthExceeded,
                },
                TokenKind::BangEqual => match crate::object::eq_spec(
                    *l,
                    *rv,
                    old(self).strings@,
                    old(self).lists@,
                    old(self).dicts@,
                    old(self).depth_budget_spec() as nat,
                ) {
                    Some(b) => r == Ok::<Flow, RuntimeError>(Flow::Norm(Object::Bool(!b)))
                        && *final(self) == *old(self),
                    None => r matches Err(e) && e.kind == RuntimeErrorKind::DepthExceeded,
                },
                TokenKind::Less => ordering_post(
                    *l,
                    *rv,
                    *old(self),
                    *final(self),
                    r,
                    true,
                    false,
                    false,
                ),
                TokenKind::Greater => ordering_post(
                    *l,
                    *rv,
                    *old(self),
                    *final(self),
                    r,
                    false,
                    false,
                    true,
                ),
                TokenKind::LessEqual => ordering_post(
                    *l,
                    *rv,
                    *old(self),
                    *final(self),
                    r,
                    true,
                    true,
                    false,
                ),
                TokenKind::GreaterEqual => ordering_post(
                    *l,
                    *rv,
                    *old(self),
                    *final(self),
                    r,
                    false,
                    true,
                    true,
                ),
                _ => true,
            },
    {
        let budget = self.depth_budget();
        match op.get_type() {
            TokenKind::EqualEqual => {
                match crate::object::obj_eq(l, rv, &self.strings, &self.lists, &self.dicts, budget) {
                    Ok(b) => Ok(Flow::Norm(Object::Bool(b))),
                    Err(kind) => Err(Self::runtime_err(op, kind)),
                }
            },
            TokenKind::BangEqual => {
                match crate::object::obj_eq(l, rv, &self.strings, &self.lists, &self.dicts, budget) {
                    Ok(b) => Ok(Flow::Norm(Object::Bool(!b))),
                    Err(kind) => Err(Self::runtime_err(op, kind)),
                }
            },
            TokenKind::Greater => {
                match crate::object::compare(l, rv, &self.strings) {
                    Ok(c) => Ok(Flow::Norm(Object::Bool(match c {
                        crate::object::OrderKind::Greater => true,
                        _ => false,
                    }))),
                    Err(kind) => Err(Self::runtime_err(op, kind)),
                }
            },
            TokenKind::GreaterEqual => {
                match crate::object::compare(l, rv, &self.strings) {
                    Ok(c) => Ok(Flow::Norm(Object::Bool(match c {
                        crate::object::OrderKind::Greater => true,
                        crate::object::OrderKind::Equal => true,
                        _ => false,
                    }))),
                    Err(kind) => Err(Self::runtime_err(op, kind)),
                }
            },
            TokenKind::Less => {
                match crate::object::compare(l, rv, &self.strings) {
                    Ok(c) => Ok(Flow::Norm(Object::Bool(match c {
                        crate::object::OrderKind::Less => true,
                        _ => false,
                    }))),
                    Err(kind) => Err(Self::runtime_err(op, kind)),
                }
            },
            TokenKind::LessEqual => {
                match crate::object::compare(l, rv, &self.strings) {
                    Ok(c) => Ok(Flow::Norm(Object::Bool(match c {
                        crate::object::OrderKind::Less => true,
                        crate::object::OrderKind::Equal => true,
                        _ => false,
                    }))),
                    Err(kind) => Err(Self::runtime_err(op, kind)),
                }
            },
            TokenKind::Plus => {
                match crate::object::op_add(l, rv, &mut self.strings, &mut self.lists) {
                    Ok(v) => Ok(Flow::Norm(v)),
                    Err(kind) => Err(Self::runtime_err(op, kind)),
                }
            },
            TokenKind::Minus => {
                match crate::object::op_sub(l, rv) {
                    Ok(v) => Ok(Flow::Norm(v)),
                    Err(kind) => Err(Self::runtime_err(op, kind)),
                }
            },
            TokenKind::Star => {
                match crate::object::op_mul(l, rv) {
                    Ok(v) => Ok(Flow::Norm(v)),
                    Err(kind) => Err(Self::runtime_err(op, kind)),
                }
            },
            TokenKind::Slash => {
                match crate::object::op_div(l, rv) {
                    Ok(v) => Ok(Flow::Norm(v)),
                    Err(kind) => Err(Self::runtime_err(op, kind)),
                }
            },
            _ => Err(Self::runtime_err(
                op,
                RuntimeErrorKind::UnsupportedOperator(op.get_lexeme().clone()),
            )),
        }
    }

    /// Executes a whole program's statements in order.
    pub fn interpret<H: Host>(&mut self, host: &mut H, program: &Program, fuel: u64) -> (r:
        Result<RunOutcome, RuntimeError>)
        requires
            old(self).wf(),
        ensures
            final(self).wf(),
            evolves(*old(self), *final(self)),
            program.stmts@.len() == 0 ==> r == Ok::<RunOutcome, RuntimeError>(
                RunOutcome::Finished,
            ) && *final(self) == *old(self),
            (program.stmts@.len() > 0 && old(host).cancel_pending()) ==> r == Ok::<
                RunOutcome,
                RuntimeError,
            >(RunOutcome::Cancelled) && *final(self) == *old(self),
    {
        let mut i: usize = 0;
        while i < program.stmts.len()
            invariant
                self.wf(),
                i <= program.stmts@.len(),
                evolves(*old(self), *self),
                i > 0 ==> !old(host).cancel_pending(),
                i == 0 ==> *self == *old(self) && *host == *old(host),
            decreases program.stmts@.len() - i,
        {
            match self.execute(host, program, &program.stmts[i], fuel) {
                Ok(Flow::Norm(_)) => {},
                Ok(Flow::Ret(_)) => {},
                Ok(Flow::Cancelled) => {
                    return Ok(RunOutcome::Cancelled);
                },
                Ok(Flow::Exhausted) => {
                    return Ok(RunOutcome::Exhausted);
                },
                Ok(Flow::Exit(code)) => {
                    return Ok(RunOutcome::Exited(code));
                },
                Err(e) => {
                    return Err(e);
                },
            }
            i = i + 1;
        }
        Ok(RunOutcome::Finished)
    }

    /// Runs one script source end to end: scan, parse, resolve, then
    /// execute. Any lexical, syntax or resolution errors block execution
    /// entirely — no statement runs if any are present — and a run-time
    /// error aborts the run. The interpreter state is rebuilt fresh for
    /// the run.
    pub fn run<H: Host>(&mut self, host: &mut H, source: &str, fuel: u64) -> (r: Result<
        RunOutcome,
        RunError,
    >)
        ensures
            final(self).wf(),
            r matches Err(RunError::Lex(es)) ==> es@.len() >= 1,
            r matches Err(RunError::Syntax(es)) ==> es@.len() >= 1,
            r matches Err(RunError::Resolution(es)) ==> es@.len() >= 1,
            (r matches Err(RunError::Lex(_)) || r matches Err(RunError::Syntax(_)) || r matches
                Err(RunError::Resolution(_))) ==> final(self).output@.len() == 0,
    {
        let tokens = match scan_tokens(source) {
            Ok(t) => t,
            Err(es) => {
                self.reset(0);
                return Err(RunError::Lex(es));
            },
        };
        let parser = Parser::new(tokens);
        let program = match parser.parse() {
            Ok(p) => p,
            Err(es) => {
                self.reset(0);
                return Err(RunError::Syntax(es));
            },
        };
        self.reset(program.next_id);
        let resolver = Resolver::new();
        let mut locals = Locals::new();
        match resolver.resolve(&program, &mut locals) {
            Ok(()) => {},
            Err(es) => {
                return Err(RunError::Resolution(es));
            },
        }
        self.locals = locals;
        match self.interpret(host, &program, fuel) {
            Ok(outcome) => Ok(outcome),
            Err(e) => Err(RunError::Runtime(e)),
        }
    }

    /// Invokes the callback a script registered for `key`, if any, with
    /// no arguments; host key events are funneled through here by the
    /// same run loop that executes scripts, never concurrently with one.
    pub fn invoke_callback<H: Host>(
        &mut self,
        host: &mut H,
        program: &Program,
        key: &str,
        fuel: u64,
    ) -> (r: Result<(), RuntimeError>)
        requires
            old(self).wf(),
        ensures
            final(self).wf(),
            evolves(*old(self), *final(self)),
            (forall|i: int|
                0 <= i < old(self).callbacks@.len() ==> #[trigger] old(
                    self,
                ).callbacks@[i].0@ != key@) ==> r == Ok::<(), RuntimeError>(()) && *final(self)
                == *old(self),
    {
        let paren = Token::synthetic(TokenKind::Identifier, key.to_owned());
        let mut found: Option<Object> = None;
        let mut i: usize = 0;
        while i < self.callbacks.len()
            invariant
                self.wf(),
                *self == *old(self),
                i <= self.callbacks@.len(),
                found is None ==> forall|j: int|
                    0 <= j < i ==> #[trigger] self.callbacks@[j].0@ != key@,
                match found {
                    Some(_) => exists|j: int|
                        0 <= j < self.callbacks@.len() && #[trigger] self.callbacks@[j].0@
                            == key@,
                    None => true,
                },
            decreases self.callbacks@.len() - i,
        {
            if crate::util::str_eqx(self.callbacks[i].0.as_str(), key) {
                found = Some(self.callbacks[i].1);
            }
            i = i + 1;
        }
        match found {
            Some(callee) => {
                let args: Vec<Object> = Vec::new();
                match self.call_object(host, program, &callee, &args, &paren, fuel) {
                    Ok(_) => Ok(()),
                    Err(e) => Err(e),
                }
            },
            None => Ok(()),
        }
    }
}

} // verus!