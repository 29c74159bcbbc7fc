//! The run-time value model: the tagged set of values the evaluator
//! produces and consumes, and the pure operations on them.
//!
//! Values that own storage (strings, lists, dictionaries, instances,
//! classes) live in arenas owned by the interpreter and are referred to by
//! index, so a value itself is a small copyable tag. Sharing a list or a
//! dictionary between two variables is sharing the index; mutation through
//! either is visible through both, which matches the language's
//! by-reference semantics.

use vstd::prelude::*;

use crate::error::RuntimeErrorKind;
use crate::util::{assoc_lookup, next_id, IdGen};

verus! {

/// The host-independent identity of each native function the global scope
/// offers to scripts.
#[derive(Clone, Copy, Debug, PartialEq, Eq, Structural)]
pub enum NativeFn {
    GetWindowDimensions,
    Tan,
    Sqrt,
    Sin,
    Cos,
    Render,
    Clock,
    Panic,
    Stringify,
    Exit,
    ExitWithCode,
    Instant,
    Elapsed,
    RegisterKeyEvent,
}

/// What a callable runs when invoked: a script function from the program's
/// declaration table, or a native function.
#[derive(Clone, Copy, Debug)]
pub enum CallableKind {
    Script { fun: usize },
    Native { which: NativeFn },
}

/// A callable value: a closure (declaration + captured environment frame +
/// fixed arity + constructor flag) or a native binding.
#[derive(Clone, Copy, Debug)]
pub struct Callable {
    /// Identity used by equality: the declaring node's id for script
    /// functions, a registry id for natives, a class's id for constructors.
    pub id: u64,
    pub kind: CallableKind,
    /// The environment frame captured at creation; `None` only for
    /// natives, which close over nothing.
    pub closure: Option<usize>,
    /// The fixed number of parameters, checked before every invocation.
    pub arity: usize,
    /// The callable's display name, interned in the string arena.
    pub name: usize,
    /// Whether this callable is a class's `init` constructor body.
    pub is_init: bool,
}

impl Callable {
    /// A script closure over declaration `fun`, capturing `closure`.
    pub fn new(
        id: u64,
        fun: usize,
        closure: Option<usize>,
        arity: usize,
        name: usize,
        is_init: bool,
    ) -> (r: Callable)
        ensures
            r == (Callable { id, kind: CallableKind::Script { fun }, closure, arity, name, is_init }),
    {
        Callable { id, kind: CallableKind::Script { fun }, closure, arity, name, is_init }
    }

    /// A native binding.
    pub fn build(id: u64, which: NativeFn, arity: usize, name: usize) -> (r: Callable)
        ensures
            r == (Callable {
                id,
                kind: CallableKind::Native { which },
                closure: None,
                arity,
                name,
                is_init: false,
            }),
    {
        Callable { id, kind: CallableKind::Native { which }, closure: None, arity, name, is_init: false }
    }

    pub fn arity(&self) -> (r: usize)
        ensures
            r == self.arity,
    {
        self.arity
    }

    /// The interned display name.
    pub fn get_string(&self) -> (r: usize)
        ensures
            r == self.name,
    {
        self.name
    }

    pub fn get_closure(&self) -> (r: Option<usize>)
        ensures
            r == self.closure,
    {
        self.closure
    }

    /// The index of the script declaration this callable runs, if it is
    /// not a native.
    pub fn get_declaration(&self) -> (r: Option<usize>)
        ensures
            r == match self.kind {
                CallableKind::Script { fun } => Some(fun),
                CallableKind::Native { .. } => None::<usize>,
            },
    {
        match self.kind {
            CallableKind::Script { fun } => Some(fun),
            CallableKind::Native { .. } => None,
        }
    }

    pub fn is_init(&self) -> (r: bool)
        ensures
            r == self.is_init,
    {
        self.is_init
    }
}

/// An opaque host-supplied payload: the interpreter only carries it. `id`
/// is the value's identity; `token` is the host's handle for the payload.
#[derive(Clone, Copy, Debug)]
pub struct NativeObject {
    pub id: u64,
    pub token: u64,
}

impl NativeObject {
    pub fn new(gen: &mut IdGen, token: u64) -> (r: NativeObject)
        ensures
            r.id == old(gen).spec_next(),
            r.token == token,
    {
        NativeObject { id: next_id(gen), token }
    }

    /// The host's handle for the payload.
    pub fn extract(self) -> (r: u64)
        ensures
            r == self.token,
    {
        self.token
    }

    pub fn id(&self) -> (r: u64)
        ensures
            r == self.id,
    {
        self.id
    }
}

/// A run-time value. Indices point into the interpreter's arenas: `Str`
/// into the string arena, `List`/`Dictionary`/`Instance`/`Class` into the
/// respective heaps.
#[derive(Clone, Copy, Debug)]
pub enum Object {
    Str(usize),
    Num(i64),
    Bool(bool),
    Callable(Callable),
    Class(usize),
    Instance(usize),
    NativeObject(NativeObject),
    Nil,
    Void,
    List(usize),
    Dictionary(usize),
}

/// A class: name, method table (name to callable, most derived first in
/// the lookup order), and the optional superclass it extends. Classes are
/// shared: every instance and subclass holds the class's arena index.
#[derive(Debug)]
pub struct Class {
    pub name: String,
    pub methods: Vec<(String, Object)>,
    pub superclass: Option<usize>,
}

impl Class {
    pub fn new(name: String, methods: Vec<(String, Object)>, superclass: Option<usize>) -> (r:
        Class)
        ensures
            r.name == name,
            r.methods == methods,
            r.superclass == superclass,
    {
        Class { name, methods, superclass }
    }
}

/// What method lookup on class `c` finds for `name`: the most-derived
/// definition, walking the superclass chain outward. A superclass index
/// is only followed when it is smaller than the subclass's own index,
/// which holds for every class the evaluator builds (a class is created
/// after its superclass).
pub open spec fn find_method_spec(classes: Seq<Class>, c: int, name: Seq<char>) -> Option<Object>
    decreases (if c >= 0 { c } else { 0 }),
{
    if 0 <= c < classes.len() {
        match assoc_lookup(classes[c].methods@, name) {
            Some(m) => Some(m),
            None => match classes[c].superclass {
                Some(s) => if s < c {
                    find_method_spec(classes, s as int, name)
                } else {
                    None
                },
                None => None,
            },
        }
    } else {
        None
    }
}

impl Class {
    /// Looks `name` up on the class with arena index `c`, walking the
    /// superclass chain: the most-derived definition wins.
    pub fn find_method(classes: &Vec<Class>, c: usize, name: &str) -> (r: Option<Object>)
        ensures
            r == find_method_spec(classes@, c as int, name@),
        decreases c,
    {
        if c >= classes.len() {
            return None;
        }
        match crate::util::assoc_get(&classes[c].methods, name) {
            Some(m) => Some(*m),
            None => match classes[c].superclass {
                Some(s) => {
                    if s < c {
                        Class::find_method(classes, s, name)
                    } else {
                        None
                    }
                },
                None => None,
            },
        }
    }
}

/// An instance: its class and its own mutable field map. The field map is
/// checked before the class's methods on property access.
#[derive(Debug)]
pub struct Instance {
    pub class: usize,
    pub fields: Vec<(String, Object)>,
}

impl Instance {
    pub fn new(class: usize) -> (r: Instance)
        ensures
            r.class == class,
            r.fields@ == Seq::<(String, Object)>::empty(),
    {
        Instance { class, fields: Vec::new() }
    }

    /// Writes a field, creating it if absent.
    pub fn set(&mut self, name: String, value: Object)
        ensures
            final(self).class == old(self).class,
            final(self).fields@ == crate::util::assoc_store(old(self).fields@, name, value),
    {
        crate::util::assoc_put(&mut self.fields, name, value);
    }
}

/// The name of a value's type as shown in diagnostics.
pub open spec fn kind_name(v: Object) -> Seq<char> {
    match v {
        Object::Str(_) => "string"@,
        Object::Num(_) => "number"@,
        Object::Bool(_) => "boolean"@,
        Object::Callable(_) => "<callable>"@,
        Object::Class(_) => "class"@,
        Object::Instance(_) => "instance"@,
        Object::NativeObject(_) => "<native object>"@,
        Object::Nil => "nil"@,
        Object::Void => "void"@,
        Object::List(_) => "list"@,
        Object::Dictionary(_) => "dictionary"@,
    }
}

/// Truthiness: `nil`, `void` and `false` are falsy; every other value,
/// including `0`, the empty string and empty containers, is truthy.
pub open spec fn is_truthy(v: Object) -> bool {
    !(v is Nil || v is Void || v == Object::Bool(false))
}

impl Object {
    /// The diagnostic name of this value's type.
    pub fn get_type(&self) -> (r: String)
        ensures
            r@ == kind_name(*self),
    {
        match self {
            Object::Str(_) => "string".to_owned(),
            Object::Num(_) => "number".to_owned(),
            Object::Bool(_) => "boolean".to_owned(),
            Object::Callable(_) => "<callable>".to_owned(),
            Object::Class(_) => "class".to_owned(),
            Object::Instance(_) => "instance".to_owned(),
            Object::NativeObject(_) => "<native object>".to_owned(),
            Object::Nil => "nil".to_owned(),
            Object::Void => "void".to_owned(),
            Object::List(_) => "list".to_owned(),
            Object::Dictionary(_) => "dictionary".to_owned(),
        }
    }

    /// This value's truthiness.
    pub fn truthy(&self) -> (r: bool)
        ensures
            r == is_truthy(*self),
    {
        match self {
            Object::Nil => false,
            Object::Void => false,
            Object::Bool(b) => *b,
            _ => true,
        }
    }

    /// A script closure value. `fun` indexes the program's declaration
    /// table; `closure` is the captured frame; `is_init` marks constructor
    /// bodies.
    pub fn function(
        id: u64,
        fun: usize,
        closure: Option<usize>,
        arity: usize,
        name: usize,
        is_init: bool,
    ) -> (r: Object)
        ensures
            r == Object::Callable(
                Callable { id, kind: CallableKind::Script { fun }, closure, arity, name, is_init },
            ),
    {
        Object::Callable(Callable::new(id, fun, closure, arity, name, is_init))
    }

    /// Builds a class value: pushes the class onto the arena and returns
    /// the value referring to it.
    pub fn class(
        classes: &mut Vec<Class>,
        name: String,
        methods: Vec<(String, Object)>,
        superclass: Option<usize>,
    ) -> (r: Object)
        ensures
            final(classes)@ == old(classes)@.push(
                Class { name, methods, superclass },
            ),
            r == Object::Class(old(classes)@.len() as usize),
    {
        let h = classes.len();
        classes.push(Class::new(name, methods, superclass));
        Object::Class(h)
    }
}

/// What indexing-style field access reads, as a spec: a dictionary by a
/// string key (a missing key reads `nil`), a list by a numeric index (an
/// out-of-range read yields `nil`); nothing else has fields this way.
pub open spec fn get_field_spec(
    v: Object,
    key: Object,
    strings: Seq<String>,
    lists: Seq<Vec<Object>>,
    dicts: Seq<Vec<(String, Object)>>,
) -> Option<Object> {
    match (v, key) {
        (Object::Dictionary(h), Object::Str(k)) => if h < dicts.len() && k < strings.len() {
            match assoc_lookup(dicts[h as int]@, strings[k as int]@) {
                Some(x) => Some(x),
                None => Some(Object::Nil),
            }
        } else {
            None
        },
        (Object::List(h), Object::Num(i)) => if h < lists.len() {
            if 0 <= i < lists[h as int]@.len() {
                Some(lists[h as int]@[i as int])
            } else {
                Some(Object::Nil)
            }
        } else {
            None
        },
        _ => None,
    }
}

impl Object {
    /// Reads a field: a dictionary entry by string key or a list element
    /// by index, with `nil` for a missing key or an out-of-range read;
    /// `None` when the receiver/key pair supports no field access.
    pub fn get_field(
        &self,
        key: &Object,
        strings: &Vec<String>,
        lists: &Vec<Vec<Object>>,
        dicts: &Vec<Vec<(String, Object)>>,
    ) -> (r: Option<Object>)
        ensures
            r == get_field_spec(*self, *key, strings@, lists@, dicts@),
    {
        match (self, key) {
            (Object::Dictionary(h), Object::Str(k)) => {
                if *h < dicts.len() && *k < strings.len() {
                    match crate::util::assoc_get(&dicts[*h], strings[*k].as_str()) {
                        Some(x) => Some(*x),
                        None => Some(Object::Nil),
                    }
                } else {
                    None
                }
            },
            (Object::List(h), Object::Num(i)) => {
                if *h < lists.len() {
                    if 0 <= *i && (*i as u64) < (lists[*h].len() as u64) {
                        Some(lists[*h][*i as usize])
                    } else {
                        Some(Object::Nil)
                    }
                } else {
                    None
                }
            },
            _ => None,
        }
    }
}

/// Logical negation: `!v` is `true` exactly on falsy values.
pub fn op_not(v: &Object) -> (r: Object)
    ensures
        r == Object::Bool(!is_truthy(*v)),
{
    Object::Bool(!v.truthy())
}

/// Wrapping two's-complement negation of a number.
pub open spec fn wrap_neg(n: int) -> int {
    vstd::wrapping::i64_specs::wrapping_sub(0i64, n as i64) as int
}

/// Unary minus: defined on numbers only.
pub fn op_neg(v: &Object) -> (r: Result<Object, RuntimeErrorKind>)
    ensures
        match *v {
            Object::Num(n) => r == Ok::<Object, RuntimeErrorKind>(
                Object::Num(vstd::wrapping::i64_specs::wrapping_sub(0i64, n)),
            ),
            _ => r matches Err(RuntimeErrorKind::CannotNegate(t)) && t@ == kind_name(*v),
        },
{
    match v {
        Object::Num(n) => Ok(Object::Num(0i64.wrapping_sub(*n))),
        _ => Err(RuntimeErrorKind::CannotNegate(v.get_type())),
    }
}

/// `+`, which is overloaded: numeric addition (wrapping), string
/// concatenation (the result is a fresh string in the arena), and list
/// append, which mutates the shared list and returns the same list value.
/// Any other combination is a type error naming both operand types.
pub fn op_add(
    a: &Object,
    b: &Object,
    strings: &mut Vec<String>,
    lists: &mut Vec<Vec<Object>>,
) -> (r: Result<Object, RuntimeErrorKind>)
    ensures
        match (*a, *b) {
            (Object::Num(x), Object::Num(y)) => r == Ok::<Object, RuntimeErrorKind>(
                Object::Num(vstd::wrapping::i64_specs::wrapping_add(x, y)),
            ) && final(strings)@ == old(strings)@ && final(lists)@ == old(lists)@,
            (Object::Str(x), Object::Str(y)) => if x < old(strings)@.len() && y < old(strings)@.len() {
                &&& final(lists)@ == old(lists)@
                &&& final(strings)@.len() == old(strings)@.len() + 1
                &&& (forall|i: int|
                    0 <= i < old(strings)@.len() ==> final(strings)@[i] == old(strings)@[i])
                &&& final(strings)@.last()@ == old(strings)@[x as int]@ + old(strings)@[y as int]@
                &&& r == Ok::<Object, RuntimeErrorKind>(
                    Object::Str(old(strings)@.len() as usize),
                )
            } else {
                r == Err::<Object, RuntimeErrorKind>(RuntimeErrorKind::InternalBug)
                    && final(strings)@ == old(strings)@ && final(lists)@ == old(lists)@
            },
            (Object::List(h), _) => if h < old(lists)@.len() {
                &&& final(strings)@ == old(strings)@
                &&& final(lists)@.len() == old(lists)@.len()
                &&& (forall|i: int|
                    0 <= i < old(lists)@.len() && i != h ==> final(lists)@[i] == old(lists)@[i])
                &&& final(lists)@[h as int]@ == old(lists)@[h as int]@.push(*b)
                &&& r == Ok::<Object, RuntimeErrorKind>(Object::List(h))
            } else {
                r == Err::<Object, RuntimeErrorKind>(RuntimeErrorKind::InternalBug)
                    && final(strings)@ == old(strings)@ && final(lists)@ == old(lists)@
            },
            _ => final(strings)@ == old(strings)@ && final(lists)@ == old(lists)@ && (r matches Err(
                RuntimeErrorKind::CannotAdd(ta, tb),
            ) && ta@ == kind_name(*a) && tb@ == kind_name(*b)),
        },
{
    match (a, b) {
        (Object::Num(x), Object::Num(y)) => Ok(Object::Num(x.wrapping_add(*y))),
        (Object::Str(x), Object::Str(y)) => {
            if *x < strings.len() && *y < strings.len() {
                let joined = strings[*x].clone().concat(strings[*y].as_str());
                let h = strings.len();
                strings.push(joined);
                Ok(Object::Str(h))
            } else {
                Err(RuntimeErrorKind::InternalBug)
            }
        },
        (Object::List(h), _) => {
            if *h < lists.len() {
                let elem = *b;
                let slot = &mut lists[*h];
                slot.push(elem);
                Ok(Object::List(*h))
            } else {
                Err(RuntimeErrorKind::InternalBug)
            }
        },
        _ => Err(RuntimeErrorKind::CannotAdd(a.get_type(), b.get_type())),
    }
}

/// `-`: numeric only, wrapping.
pub fn op_sub(a: &Object, b: &Object) -> (r: Result<Object, RuntimeErrorKind>)
    ensures
        match (*a, *b) {
            (Object::Num(x), Object::Num(y)) => r == Ok::<Object, RuntimeErrorKind>(
                Object::Num(vstd::wrapping::i64_specs::wrapping_sub(x, y)),
            ),
            _ => r matches Err(RuntimeErrorKind::CannotSubtract(ta, tb)) && ta@ == kind_name(*a)
                && tb@ == kind_name(*b),
        },
{
    match (a, b) {
        (Object::Num(x), Object::Num(y)) => Ok(Object::Num(x.wrapping_sub(*y))),
        _ => Err(RuntimeErrorKind::CannotSubtract(a.get_type(), b.get_type())),
    }
}

/// `*`: numeric only, wrapping.
pub fn op_mul(a: &Object, b: &Object) -> (r: Result<Object, RuntimeErrorKind>)
    ensures
        match (*a, *b) {
            (Object::Num(x), Object::Num(y)) => r == Ok::<Object, RuntimeErrorKind>(
                Object::Num(vstd::wrapping::i64_specs::wrapping_mul(x, y)),
            ),
            _ => r matches Err(RuntimeErrorKind::CannotMultiply(ta, tb)) && ta@ == kind_name(*a)
                && tb@ == kind_name(*b),
        },
{
    match (a, b) {
        (Object::Num(x), Object::Num(y)) => Ok(Object::Num(x.wrapping_mul(*y))),
        _ => Err(RuntimeErrorKind::CannotMultiply(a.get_type(), b.get_type())),
    }
}

/// Truncated signed division with two's-complement wrapping: the one
/// overflowing case (`MIN / -1`) wraps back to `MIN`. Meaningful only for
/// `b != 0`.
pub open spec fn wrap_div_i64(a: int, b: int) -> int {
    let q = (if a < 0 {
        -a
    } else {
        a
    }) / (if b < 0 {
        -b
    } else {
        b
    });
    let signed = if (a < 0) != (b < 0) {
        -q
    } else {
        q
    };
    if signed == 0x8000_0000_0000_0000 {
        -0x8000_0000_0000_0000
    } else {
        signed
    }
}

/// The magnitude of a signed number as an unsigned one.
fn magnitude(n: i64) -> (r: u64)
    ensures
        r == (if n < 0 {
            -(n as int)
        } else {
            n as int
        }),
{
    if n == i64::MIN {
        9223372036854775808u64
    } else if n < 0 {
        (-n) as u64
    } else {
        n as u64
    }
}

/// `/`: numeric only; a zero divisor is an error, otherwise truncated
/// division with wrapping.
pub fn op_div(a: &Object, b: &Object) -> (r: Result<Object, RuntimeErrorKind>)
    ensures
        match (*a, *b) {
            (Object::Num(x), Object::Num(y)) => if y == 0 {
                r == Err::<Object, RuntimeErrorKind>(RuntimeErrorKind::DivisionByZero)
            } else {
                r == Ok::<Object, RuntimeErrorKind>(
                    Object::Num(wrap_div_i64(x as int, y as int) as i64),
                )
            },
            _ => r matches Err(RuntimeErrorKind::CannotDivide(ta, tb)) && ta@ == kind_name(*a)
                && tb@ == kind_name(*b),
        },
{
    match (a, b) {
        (Object::Num(x), Object::Num(y)) => {
            if *y == 0 {
                return Err(RuntimeErrorKind::DivisionByZero);
            }
            let ma = magnitude(*x);
            let mb = magnitude(*y);
            let q: u64 = ma / mb;
            let negative = (*x < 0) != (*y < 0);
            if q == 9223372036854775808u64 {
                Ok(Object::Num(i64::MIN))
            } else if negative {
                Ok(Object::Num(-(q as i64)))
            } else {
                Ok(Object::Num(q as i64))
            }
        },
        _ => Err(RuntimeErrorKind::CannotDivide(a.get_type(), b.get_type())),
    }
}

/// The truthiness table: `nil`, `void` and `false` are falsy; every
/// other value — `0`, the empty string, empty containers included — is
/// truthy.
pub proof fn lemma_truthiness_table(s: usize, l: usize, d: usize, i: usize)
    ensures
        !is_truthy(Object::Nil),
        !is_truthy(Object::Void),
        !is_truthy(Object::Bool(false)),
        is_truthy(Object::Bool(true)),
        is_truthy(Object::Num(0)),
        is_truthy(Object::Str(s)),
        is_truthy(Object::List(l)),
        is_truthy(Object::Dictionary(d)),
        is_truthy(Object::Instance(i)),
{
}

/// Method lookup finds the most-derived override: a method defined on
/// the class itself always wins over any definition on the superclass
/// chain.
pub proof fn lemma_most_derived_override(classes: Seq<Class>, c: int, name: Seq<char>)
    requires
        0 <= c < classes.len(),
        assoc_lookup(classes[c].methods@, name) is Some,
    ensures
        find_method_spec(classes, c, name) == assoc_lookup(classes[c].methods@, name),
{
}

/// An inherited method is found even when the class itself does not
/// define it: lookup continues on the superclass.
pub proof fn lemma_inherited_method(classes: Seq<Class>, c: int, name: Seq<char>)
    requires
        0 <= c < classes.len(),
        assoc_lookup(classes[c].methods@, name) is None,
        classes[c].superclass matches Some(s) && s < c,
    ensures
        find_method_spec(classes, c, name) == find_method_spec(
            classes,
            classes[c].superclass.unwrap() as int,
            name,
        ),
{
}

/// The outcome of an ordering comparison.
#[derive(Clone, Copy, Debug, PartialEq, Eq, Structural)]
pub enum OrderKind {
    Less,
    Equal,
    Greater,
}

/// Lexicographic comparison of two character sequences by code point.
pub open spec fn lex_cmp(x: Seq<char>, y: Seq<char>) -> OrderKind
    decreases x.len(),
{
    if x.len() == 0 && y.len() == 0 {
        OrderKind::Equal
    } else if x.len() == 0 {
        OrderKind::Less
    } else if y.len() == 0 {
        OrderKind::Greater
    } else if (x[0] as u32) < (y[0] as u32) {
        OrderKind::Less
    } else if (x[0] as u32) > (y[0] as u32) {
        OrderKind::Greater
    } else {
        lex_cmp(x.drop_first(), y.drop_first())
    }
}

/// Compares two strings lexicographically by code point.
pub fn str_cmp(a: &str, b: &str) -> (r: OrderKind)
    ensures
        r == lex_cmp(a@, b@),
{
    let la = a.unicode_len();
    let lb = b.unicode_len();
    let mut i: usize = 0;
    proof {
        assert(a@.skip(0) =~= a@);
        assert(b@.skip(0) =~= b@);
    }
    loop
        invariant
            i <= la,
            i <= lb,
            la == a@.len(),
            lb == b@.len(),
            lex_cmp(a@, b@) == lex_cmp(a@.skip(i as int), b@.skip(i as int)),
        decreases la - i,
    {
        if i >= la || i >= lb {
            if la == lb {
                return OrderKind::Equal;
            } else if i >= la {
                return OrderKind::Less;
            } else {
                return OrderKind::Greater;
            }
        }
        let ca = a.get_char(i);
        let cb = b.get_char(i);
        if (ca as u32) < (cb as u32) {
            proof {
                assert(a@.skip(i as int)[0] == a@[i as int]);
                assert(b@.skip(i as int)[0] == b@[i as int]);
            }
            return OrderKind::Less;
        } else if (ca as u32) > (cb as u32) {
            proof {
                assert(a@.skip(i as int)[0] == a@[i as int]);
                assert(b@.skip(i as int)[0] == b@[i as int]);
            }
            return OrderKind::Greater;
        }
        proof {
            assert(a@.skip(i as int)[0] == a@[i as int]);
            assert(b@.skip(i as int)[0] == b@[i as int]);
            assert(a@.skip(i as int).drop_first() =~= a@.skip(i + 1));
            assert(b@.skip(i as int).drop_first() =~= b@.skip(i + 1));
        }
        i = i + 1;
    }
}

/// The ordering of two numbers, as a spec.
pub open spec fn num_order(x: i64, y: i64) -> OrderKind {
    if x < y {
        OrderKind::Less
    } else if x > y {
        OrderKind::Greater
    } else {
        OrderKind::Equal
    }
}

/// Compares two values for ordering. Ordering is defined only between
/// two values of the same comparable kind — two numbers or two strings;
/// any other pairing is a type error naming both operand kinds.
pub fn compare(a: &Object, b: &Object, strings: &Vec<String>) -> (r: Result<
    OrderKind,
    RuntimeErrorKind,
>)
    ensures
        match (*a, *b) {
            (Object::Num(x), Object::Num(y)) => r == Ok::<OrderKind, RuntimeErrorKind>(
                num_order(x, y),
            ),
            (Object::Str(x), Object::Str(y)) => if x < strings@.len() && y < strings@.len() {
                r == Ok::<OrderKind, RuntimeErrorKind>(
                    lex_cmp(strings@[x as int]@, strings@[y as int]@),
                )
            } else {
                r == Err::<OrderKind, RuntimeErrorKind>(RuntimeErrorKind::InternalBug)
            },
            _ => r matches Err(RuntimeErrorKind::CannotCompare(ta, tb)) && ta@ == kind_name(*a)
                && tb@ == kind_name(*b),
        },
{
    match (a, b) {
        (Object::Num(x), Object::Num(y)) => {
            if *x < *y {
                Ok(OrderKind::Less)
            } else if *x > *y {
                Ok(OrderKind::Greater)
            } else {
                Ok(OrderKind::Equal)
            }
        },
        (Object::Str(x), Object::Str(y)) => {
            if *x < strings.len() && *y < strings.len() {
                Ok(str_cmp(strings[*x].as_str(), strings[*y].as_str()))
            } else {
                Err(RuntimeErrorKind::InternalBug)
            }
        },
        _ => Err(RuntimeErrorKind::CannotCompare(a.get_type(), b.get_type())),
    }
}

/// Equality of two values, with `fuel` bounding the depth of structural
/// recursion through lists and dictionaries. `None` means the depth bound
/// was hit, which only a reference cycle can force at the evaluator's
/// chosen fuel. Numbers, strings, booleans compare by value, `nil` and
/// `void` to themselves, callables by identity; lists and dictionaries
/// compare contents; every other combination is unequal.
pub open spec fn eq_spec(
    a: Object,
    b: Object,
    strings: Seq<String>,
    lists: Seq<Vec<Object>>,
    dicts: Seq<Vec<(String, Object)>>,
    fuel: nat,
) -> Option<bool>
    decreases fuel, 0int,
{
    match (a, b) {
        (Object::Num(x), Object::Num(y)) => Some(x == y),
        (Object::Str(x), Object::Str(y)) => Some(
            x < strings.len() && y < strings.len() && strings[x as int]@ == strings[y as int]@,
        ),
        (Object::Bool(x), Object::Bool(y)) => Some(x == y),
        (Object::Nil, Object::Nil) => Some(true),
        (Object::Void, Object::Void) => Some(true),
        (Object::Callable(c1), Object::Callable(c2)) => Some(c1.id == c2.id),
        (Object::List(h1), Object::List(h2)) => if h1 < lists.len() && h2 < lists.len() {
            if fuel == 0 {
                None
            } else {
                eq_list_spec(lists[h1 as int]@, lists[h2 as int]@, 0, strings, lists, dicts, (
                fuel - 1) as nat)
            }
        } else {
            Some(false)
        },
        (Object::Dictionary(h1), Object::Dictionary(h2)) => if h1 < dicts.len() && h2
            < dicts.len() {
            if fuel == 0 {
                None
            } else {
                eq_dict_spec(dicts[h1 as int]@, dicts[h2 as int]@, 0, strings, lists, dicts, (
                fuel - 1) as nat)
            }
        } else {
            Some(false)
        },
        _ => Some(false),
    }
}

/// Elementwise equality of two list contents from index `i` on; lengths
/// must agree.
pub open spec fn eq_list_spec(
    s1: Seq<Object>,
    s2: Seq<Object>,
    i: int,
    strings: Seq<String>,
    lists: Seq<Vec<Object>>,
    dicts: Seq<Vec<(String, Object)>>,
    fuel: nat,
) -> Option<bool>
    decreases fuel, s1.len() - i + 1,
{
    if s1.len() != s2.len() {
        Some(false)
    } else if i < 0 || i >= s1.len() {
        Some(true)
    } else {
        match eq_spec(s1[i], s2[i], strings, lists, dicts, fuel) {
            None => None,
            Some(false) => Some(false),
            Some(true) => eq_list_spec(s1, s2, i + 1, strings, lists, dicts, fuel),
        }
    }
}

/// Dictionary equality from entry `i` on: same size, and every key of the
/// first maps to an equal value in the second. With each side's keys
/// unique, this makes the two dictionaries equal as maps.
pub open spec fn eq_dict_spec(
    d1: Seq<(String, Object)>,
    d2: Seq<(String, Object)>,
    i: int,
    strings: Seq<String>,
    lists: Seq<Vec<Object>>,
    dicts: Seq<Vec<(String, Object)>>,
    fuel: nat,
) -> Option<bool>
    decreases fuel, d1.len() - i + 1,
{
    if d1.len() != d2.len() {
        Some(false)
    } else if i < 0 || i >= d1.len() {
        Some(true)
    } else {
        match assoc_lookup(d2, d1[i].0@) {
            None => Some(false),
            Some(w) => match eq_spec(d1[i].1, w, strings, lists, dicts, fuel) {
                None => None,
                Some(false) => Some(false),
                Some(true) => eq_dict_spec(d1, d2, i + 1, strings, lists, dicts, fuel),
            },
        }
    }
}

/// Equality as the language defines it; `Err` reports that the structural
/// depth bound was exceeded.
pub fn obj_eq(
    a: &Object,
    b: &Object,
    strings: &Vec<String>,
    lists: &Vec<Vec<Object>>,
    dicts: &Vec<Vec<(String, Object)>>,
    fuel: u64,
) -> (r: Result<bool, RuntimeErrorKind>)
    ensures
        match eq_spec(*a, *b, strings@, lists@, dicts@, fuel as nat) {
            Some(v) => r == Ok::<bool, RuntimeErrorKind>(v),
            None => r == Err::<bool, RuntimeErrorKind>(RuntimeErrorKind::DepthExceeded),
        },
    decreases fuel, 0int,
{
    match (a, b) {
        (Object::Num(x), Object::Num(y)) => Ok(*x == *y),
        (Object::Str(x), Object::Str(y)) => Ok(
            *x < strings.len() && *y < strings.len() && strings[*x] == strings[*y],
        ),
        (Object::Bool(x), Object::Bool(y)) => Ok(*x == *y),
        (Object::Nil, Object::Nil) => Ok(true),
        (Object::Void, Object::Void) => Ok(true),
        (Object::Callable(c1), Object::Callable(c2)) => Ok(c1.id == c2.id),
        (Object::List(h1), Object::List(h2)) => {
            if *h1 < lists.len() && *h2 < lists.len() {
                if fuel == 0 {
                    Err(RuntimeErrorKind::DepthExceeded)
                } else {
                    eq_list(*h1, *h2, 0, strings, lists, dicts, fuel - 1)
                }
            } else {
                Ok(false)
            }
        },
        (Object::Dictionary(h1), Object::Dictionary(h2)) => {
            if *h1 < dicts.len() && *h2 < dicts.len() {
                if fuel == 0 {
                    Err(RuntimeErrorKind::DepthExceeded)
                } else {
                    eq_dict(*h1, *h2, 0, strings, lists, dicts, fuel - 1)
                }
            } else {
                Ok(false)
            }
        },
        _ => Ok(false),
    }
}

fn eq_list(
    l1: usize,
    l2: usize,
    i: usize,
    strings: &Vec<String>,
    lists: &Vec<Vec<Object>>,
    dicts: &Vec<Vec<(String, Object)>>,
    fuel: u64,
) -> (r: Result<bool, RuntimeErrorKind>)
    requires
        l1 < lists@.len(),
        l2 < lists@.len(),
    ensures
        match eq_list_spec(
            lists@[l1 as int]@,
            lists@[l2 as int]@,
            i as int,
            strings@,
            lists@,
            dicts@,
            fuel as nat,
        ) {
            Some(v) => r == Ok::<bool, RuntimeErrorKind>(v),
            None => r == Err::<bool, RuntimeErrorKind>(RuntimeErrorKind::DepthExceeded),
        },
    decreases fuel, lists@[l1 as int]@.len() - i + 1,
{
    if lists[l1].len() != lists[l2].len() {
        Ok(false)
    } else if i >= lists[l1].len() {
        Ok(true)
    } else {
        let x = lists[l1][i];
        let y = lists[l2][i];
        match obj_eq(&x, &y, strings, lists, dicts, fuel) {
            Err(e) => Err(e),
            Ok(false) => Ok(false),
            Ok(true) => eq_list(l1, l2, i + 1, strings, lists, dicts, fuel),
        }
    }
}

fn eq_dict(
    d1: usize,
    d2: usize,
    i: usize,
    strings: &Vec<String>,
    lists: &Vec<Vec<Object>>,
    dicts: &Vec<Vec<(String, Object)>>,
    fuel: u64,
) -> (r: Result<bool, RuntimeErrorKind>)
    requires
        d1 < dicts@.len(),
        d2 < dicts@.len(),
    ensures
        match eq_dict_spec(
            dicts@[d1 as int]@,
            dicts@[d2 as int]@,
            i as int,
            strings@,
            lists@,
            dicts@,
            fuel as nat,
        ) {
            Some(v) => r == Ok::<bool, RuntimeErrorKind>(v),
            None => r == Err::<bool, RuntimeErrorKind>(RuntimeErrorKind::DepthExceeded),
        },
    decreases fuel, dicts@[d1 as int]@.len() - i + 1,
{
    if dicts[d1].len() != dicts[d2].len() {
        Ok(false)
    } else if i >= dicts[d1].len() {
        Ok(true)
    } else {
        let key_holder = &dicts[d1][i];
        match crate::util::assoc_get(&dicts[d2], key_holder.0.as_str()) {
            None => Ok(false),
            Some(w) => {
                let x = dicts[d1][i].1;
                let y = *w;
                match obj_eq(&x, &y, strings, lists, dicts, fuel) {
                    Err(e) => Err(e),
                    Ok(false) => Ok(false),
                    Ok(true) => eq_dict(d1, d2, i + 1, strings, lists, dicts, fuel),
                }
            },
        }
    }
}

/// What a dangling arena index renders as. The evaluator never produces
/// one; the renderer is total anyway.
pub open spec fn invalid_ref_text() -> Seq<char> {
    "<invalid>"@
}

/// The display text of a value, with `fuel` bounding recursion through
/// lists and dictionaries; `None` means the depth bound was hit. Strings
/// render as their contents at top level and quoted inside containers;
/// `void` renders as nothing.
pub open spec fn show_spec(
    v: Object,
    strings: Seq<String>,
    lists: Seq<Vec<Object>>,
    dicts: Seq<Vec<(String, Object)>>,
    classes: Seq<Class>,
    instances: Seq<Instance>,
    fuel: nat,
) -> Option<Seq<char>>
    decreases fuel, 0int,
{
    match v {
        Object::Str(h) => Some(
            if h < strings.len() {
                strings[h as int]@
            } else {
                invalid_ref_text()
            },
        ),
        Object::Num(n) => Some(crate::util::dec_int(n as int)),
        Object::Bool(b) => Some(
            if b {
                "true"@
            } else {
                "false"@
            },
        ),
        Object::Nil => Some("nil"@),
        Object::Void => Some(Seq::<char>::empty()),
        Object::Callable(c) => Some(
            "<function#"@ + crate::util::dec_digits(c.id as nat) + " "@ + (if c.name
                < strings.len() {
                strings[c.name as int]@
            } else {
                invalid_ref_text()
            }) + ">"@,
        ),
        Object::Class(h) => Some(
            if h < classes.len() {
                classes[h as int].name@
            } else {
                invalid_ref_text()
            },
        ),
        Object::Instance(h) => Some(
            if h < instances.len() && instances[h as int].class < classes.len() {
                classes[instances[h as int].class as int].name@ + " instance"@
            } else {
                invalid_ref_text()
            },
        ),
        Object::NativeObject(_) => Some("<native object>"@),
        Object::List(h) => if h < lists.len() {
            if fuel == 0 {
                None
            } else {
                match show_list_spec(
                    lists[h as int]@,
                    0,
                    strings,
                    lists,
                    dicts,
                    classes,
                    instances,
                    (fuel - 1) as nat,
                ) {
                    None => None,
                    Some(s) => Some("["@ + s + "]"@),
                }
            }
        } else {
            Some(invalid_ref_text())
        },
        Object::Dictionary(h) => if h < dicts.len() {
            if fuel == 0 {
                None
            } else {
                match show_dict_spec(
                    dicts[h as int]@,
                    0,
                    strings,
                    lists,
                    dicts,
                    classes,
                    instances,
                    (fuel - 1) as nat,
                ) {
                    None => None,
                    Some(s) => Some("{"@ + s + "}"@),
                }
            }
        } else {
            Some(invalid_ref_text())
        },
    }
}

/// The display text of one container element: strings are quoted, every
/// other value renders as at top level.
pub open spec fn show_elem_spec(
    v: Object,
    strings: Seq<String>,
    lists: Seq<Vec<Object>>,
    dicts: Seq<Vec<(String, Object)>>,
    classes: Seq<Class>,
    instances: Seq<Instance>,
    fuel: nat,
) -> Option<Seq<char>>
    decreases fuel, 1int,
{
    match v {
        Object::Str(h) => Some(
            "\""@ + (if h < strings.len() {
                strings[h as int]@
            } else {
                invalid_ref_text()
            }) + "\""@,
        ),
        _ => show_spec(v, strings, lists, dicts, classes, instances, fuel),
    }
}

/// The joined display text of list elements from index `i` on, separated
/// by a comma and a space.
pub open spec fn show_list_spec(
    elems: Seq<Object>,
    i: int,
    strings: Seq<String>,
    lists: Seq<Vec<Object>>,
    dicts: Seq<Vec<(String, Object)>>,
    classes: Seq<Class>,
    instances: Seq<Instance>,
    fuel: nat,
) -> Option<Seq<char>>
    decreases fuel, elems.len() - i + 2,
{
    if i < 0 || i >= elems.len() {
        Some(Seq::<char>::empty())
    } else {
        match show_elem_spec(elems[i], strings, lists, dicts, classes, instances, fuel) {
            None => None,
            Some(cur) => match show_list_spec(
                elems,
                i + 1,
                strings,
                lists,
                dicts,
                classes,
                instances,
                fuel,
            ) {
                None => None,
                Some(rest) => Some(
                    cur + (if i + 1 < elems.len() {
                        ", "@ + rest
                    } else {
                        rest
                    }),
                ),
            },
        }
    }
}

/// The joined display text of dictionary entries from index `i` on, each
/// as `key: value`.
pub open spec fn show_dict_spec(
    entries: Seq<(String, Object)>,
    i: int,
    strings: Seq<String>,
    lists: Seq<Vec<Object>>,
    dicts: Seq<Vec<(String, Object)>>,
    classes: Seq<Class>,
    instances: Seq<Instance>,
    fuel: nat,
) -> Option<Seq<char>>
    decreases fuel, entries.len() - i + 2,
{
    if i < 0 || i >= entries.len() {
        Some(Seq::<char>::empty())
    } else {
        match show_elem_spec(entries[i].1, strings, lists, dicts, classes, instances, fuel) {
            None => None,
            Some(cur) => match show_dict_spec(
                entries,
                i + 1,
                strings,
                lists,
                dicts,
                classes,
                instances,
                fuel,
            ) {
                None => None,
                Some(rest) => Some(
                    entries[i].0@ + ": "@ + cur + (if i + 1 < entries.len() {
                        ", "@ + rest
                    } else {
                        rest
                    }),
                ),
            },
        }
    }
}

/// Renders a value for `print` and for `string(...)`; `Err` reports that
/// the structural depth bound was exceeded.
pub fn show_obj(
    v: &Object,
    strings: &Vec<String>,
    lists: &Vec<Vec<Object>>,
    dicts: &Vec<Vec<(String, Object)>>,
    classes: &Vec<Class>,
    instances: &Vec<Instance>,
    fuel: u64,
) -> (r: Result<String, RuntimeErrorKind>)
    ensures
        match show_spec(*v, strings@, lists@, dicts@, classes@, instances@, fuel as nat) {
            Some(s) => r matches Ok(t) && t@ == s,
            None => r == Err::<String, RuntimeErrorKind>(RuntimeErrorKind::DepthExceeded),
        },
    decreases fuel, 0int,
{
    match v {
        Object::Str(h) => Ok(
            if *h < strings.len() {
                strings[*h].clone()
            } else {
                "<invalid>".to_owned()
            },
        ),
        Object::Num(n) => Ok(crate::util::i64_to_string(*n)),
        Object::Bool(b) => Ok(if *b {
            "true".to_owned()
        } else {
            "false".to_owned()
        }),
        Object::Nil => Ok("nil".to_owned()),
        Object::Void => Ok(String::new()),
        Object::Callable(c) => {
            let mut s: String = "<function#".to_owned();
            s.append(crate::util::u64_to_string(c.id).as_str());
            s.append(" ");
            if c.name < strings.len() {
                s.append(strings[c.name].as_str());
            } else {
                s.append("<invalid>");
            }
            s.append(">");
            proof {
                assert(s@ =~= show_spec(
                    *v,
                    strings@,
                    lists@,
                    dicts@,
                    classes@,
                    instances@,
                    fuel as nat,
                ).unwrap());
            }
            Ok(s)
        },
        Object::Class(h) => Ok(
            if *h < classes.len() {
                classes[*h].name.clone()
            } else {
                "<invalid>".to_owned()
            },
        ),
        Object::Instance(h) => {
            if *h < instances.len() && instances[*h].class < classes.len() {
                let mut s: String = classes[instances[*h].class].name.clone();
                s.append(" instance");
                Ok(s)
            } else {
                Ok("<invalid>".to_owned())
            }
        },
        Object::NativeObject(_) => Ok("<native object>".to_owned()),
        Object::List(h) => {
            if *h < lists.len() {
                if fuel == 0 {
                    Err(RuntimeErrorKind::DepthExceeded)
                } else {
                    match show_list(*h, 0, strings, lists, dicts, classes, instances, fuel - 1) {
                        Err(e) => Err(e),
                        Ok(inner) => {
                            let mut s: String = "[".to_owned();
                            s.append(inner.as_str());
                            s.append("]");
                            proof {
                                assert(s@ =~= "["@ + inner@ + "]"@);
                            }
                            Ok(s)
                        },
                    }
                }
            } else {
                Ok("<invalid>".to_owned())
            }
        },
        Object::Dictionary(h) => {
            if *h < dicts.len() {
                if fuel == 0 {
                    Err(RuntimeErrorKind::DepthExceeded)
                } else {
                    match show_dict(*h, 0, strings, lists, dicts, classes, instances, fuel - 1) {
                        Err(e) => Err(e),
                        Ok(inner) => {
                            let mut s: String = "{".to_owned();
                            s.append(inner.as_str());
                            s.append("}");
                            proof {
                                assert(s@ =~= "{"@ + inner@ + "}"@);
                            }
                            Ok(s)
                        },
                    }
                }
            } else {
                Ok("<invalid>".to_owned())
            }
        },
    }
}

fn show_elem(
    v: &Object,
    strings: &Vec<String>,
    lists: &Vec<Vec<Object>>,
    dicts: &Vec<Vec<(String, Object)>>,
    classes: &Vec<Class>,
    instances: &Vec<Instance>,
    fuel: u64,
) -> (r: Result<String, RuntimeErrorKind>)
    ensures
        match show_elem_spec(*v, strings@, lists@, dicts@, classes@, instances@, fuel as nat) {
            Some(s) => r matches Ok(t) && t@ == s,
            None => r == Err::<String, RuntimeErrorKind>(RuntimeErrorKind::DepthExceeded),
        },
    decreases fuel, 1int,
{
    match v {
        Object::Str(h) => {
            let mut s: String = "\"".to_owned();
            if *h < strings.len() {
                s.append(strings[*h].as_str());
            } else {
                s.append("<invalid>");
            }
            s.append("\"");
            proof {
                assert(s@ =~= show_elem_spec(
                    *v,
                    strings@,
                    lists@,
                    dicts@,
                    classes@,
                    instances@,
                    fuel as nat,
                ).unwrap());
            }
            Ok(s)
        },
        _ => show_obj(v, strings, lists, dicts, classes, instances, fuel),
    }
}

fn show_list(
    h: usize,
    i: usize,
    strings: &Vec<String>,
    lists: &Vec<Vec<Object>>,
    dicts: &Vec<Vec<(String, Object)>>,
    classes: &Vec<Class>,
    instances: &Vec<Instance>,
    fuel: u64,
) -> (r: Result<String, RuntimeErrorKind>)
    requires
        h < lists@.len(),
    ensures
        match show_list_spec(
            lists@[h as int]@,
            i as int,
            strings@,
            lists@,
            dicts@,
            classes@,
            instances@,
            fuel as nat,
        ) {
            Some(s) => r matches Ok(t) && t@ == s,
            None => r == Err::<String, RuntimeErrorKind>(RuntimeErrorKind::DepthExceeded),
        },
    decreases fuel, lists@[h as int]@.len() - i + 2,
{
    if i >= lists[h].len() {
        Ok(String::new())
    } else {
        let x = lists[h][i];
        match show_elem(&x, strings, lists, dicts, classes, instances, fuel) {
            Err(e) => Err(e),
            Ok(cur) => match show_list(h, i + 1, strings, lists, dicts, classes, instances, fuel) {
                Err(e) => Err(e),
                Ok(rest) => {
                    let mut s = cur;
                    if i + 1 < lists[h].len() {
                        s.append(", ");
                    }
                    s.append(rest.as_str());
                    Ok(s)
                },
            },
        }
    }
}

fn show_dict(
    h: usize,
    i: usize,
    strings: &Vec<String>,
    lists: &Vec<Vec<Object>>,
    dicts: &Vec<Vec<(String, Object)>>,
    classes: &Vec<Class>,
    instances: &Vec<Instance>,
    fuel: u64,
) -> (r: Result<String, RuntimeErrorKind>)
    requires
        h < dicts@.len(),
    ensures
        match show_dict_spec(
            dicts@[h as int]@,
            i as int,
            strings@,
            lists@,
            dicts@,
            classes@,
            instances@,
            fuel as nat,
        ) {
            Some(s) => r matches Ok(t) && t@ == s,
            None => r == Err::<String, RuntimeErrorKind>(RuntimeErrorKind::DepthExceeded),
        },
    decreases fuel, dicts@[h as int]@.len() - i + 2,
{
    if i >= dicts[h].len() {
        Ok(String::new())
    } else {
        let x = dicts[h][i].1;
        match show_elem(&x, strings, lists, dicts, classes, instances, fuel) {
            Err(e) => Err(e),
            Ok(cur) => match show_dict(h, i + 1, strings, lists, dicts, classes, instances, fuel) {
                Err(e) => Err(e),
                Ok(rest) => {
                    let mut s: String = dicts[h][i].0.clone();
                    s.append(": ");
                    s.append(cur.as_str());
                    if i + 1 < dicts[h].len() {
                        s.append(", ");
                    }
                    s.append(rest.as_str());
                    proof {
                        assert(s@ =~= show_dict_spec(
                            dicts@[h as int]@,
                            i as int,
                            strings@,
                            lists@,
                            dicts@,
                            classes@,
                            instances@,
                            fuel as nat,
                        ).unwrap());
                    }
                    Ok(s)
                },
            },
        }
    }
}

} // verus!
