//! The error taxonomy shared by the scanner, parser, resolver and
//! evaluator, and the formatting of user-visible reports.
//!
//! Every reported error renders as `[line:column] Kind [at 'lexeme']: message`
//! so it can be correlated with the source file. The two control-transfer
//! signals of the evaluator (`return`, cancellation) are not errors and live
//! in [`crate::interp`], never here.

use vstd::prelude::*;

use crate::token::{Token, TokenKind};
use crate::util::{dec_digits, u64_to_string};

verus! {

/// An error found while scanning the source text.
#[derive(Clone, Debug)]
pub enum LexErrorKind {
    /// A character outside the language's alphabet (this scanner also
    /// rejects bytes beyond ASCII this way).
    InvalidCharacter,
    /// A string literal still open at the end of the source.
    UnterminatedString,
    /// A backslash escape the language does not define.
    InvalidEscape,
    /// A numeric literal too large for the number type.
    NumberTooLarge,
}

#[derive(Clone, Debug)]
pub struct LexError {
    pub kind: LexErrorKind,
    pub line: usize,
    pub col: usize,
}

/// An error found while parsing, carrying the offending token and a
/// description of what was expected.
#[derive(Clone, Debug)]
pub struct SyntaxError {
    pub token: Token,
    pub msg: String,
}

/// A semantic error found by the static resolver.
#[derive(Clone, Copy, Debug, PartialEq, Eq, Structural)]
pub enum ResolutionErrorKind {
    /// `let x = x;` — the initializer reads the variable being declared.
    SelfReferentialInitializer,
    /// `return` outside any function body.
    ReturnOutsideFunction,
    /// `self` outside a method body.
    SelfOutsideMethod,
    /// `super` outside a method body.
    SuperOutsideMethod,
    /// `super` inside a class that has no superclass.
    SuperWithoutSuperclass,
    /// A class that names itself as its own superclass.
    ClassExtendsItself,
    /// Statement nesting beyond the resolver's walk budget; no program
    /// the parser accepts can reach it, and execution must not start on
    /// one that somehow does.
    NestingTooDeep,
}

#[derive(Clone, Debug)]
pub struct ResolutionError {
    pub kind: ResolutionErrorKind,
    pub token: Token,
}

/// An error raised while the evaluator runs.
#[derive(Clone, Debug)]
pub enum RuntimeErrorKind {
    /// A name declared nowhere in the environment chain.
    UndefinedVariable(String),
    /// A name declared but read before its first assignment.
    VariableNotInit(String),
    /// A property missing from an instance and its class chain.
    UndefinedProperty(String),
    /// The expression after `<` in a class head is not a class.
    SuperclassMustBeClass,
    /// Calling a value that is neither a function nor a class.
    NotCallable,
    /// Wrong number of arguments for a callable's fixed arity.
    ArityMismatch,
    /// Property access on a value that has no properties.
    OnlyInstancesHaveProperties,
    /// Indexing a value that is not a list.
    OnlyListsHaveIndices,
    /// An index expression that is not a number.
    MustBeANumber,
    /// Index assignment outside the list's current bounds.
    IndexOutOfRange,
    /// Unary minus on a value of the named type.
    CannotNegate(String),
    /// `+` on the named pair of types.
    CannotAdd(String, String),
    /// `-` on the named pair of types.
    CannotSubtract(String, String),
    /// `*` on the named pair of types.
    CannotMultiply(String, String),
    /// `/` on the named pair of types.
    CannotDivide(String, String),
    /// An ordering comparison (`<`, `<=`, `>`, `>=`) on the named pair of
    /// types; ordering is defined only between two numbers or two strings.
    CannotCompare(String, String),
    /// Division with a zero divisor.
    DivisionByZero,
    /// A binary or unary operator the evaluator does not know.
    UnsupportedOperator(String),
    /// The script called `panic(...)`; the payload is its message.
    UserPanic(String),
    /// `exitWithCode` with a value of the named non-numeric type.
    CannotConvertToExitCode(String),
    /// Structural comparison or display walked deeper than the heap could
    /// allow without a reference cycle.
    DepthExceeded,
    /// An internal invariant of the interpreter failed (a dangling heap
    /// handle or a missing frame).
    InternalBug,
}

#[derive(Clone, Debug)]
pub struct RuntimeError {
    pub kind: RuntimeErrorKind,
    pub token: Token,
}

impl RuntimeError {
    pub fn new(token: Token, kind: RuntimeErrorKind) -> (r: RuntimeError)
        ensures
            r.token == token,
            r.kind == kind,
    {
        RuntimeError { kind, token }
    }
}

/// The shape of every user-visible report:
/// `[line:col] ty wher: msg` followed by a newline, with the space before
/// `wher` dropped when `wher` is empty.
pub open spec fn report_seq(
    ty: Seq<char>,
    line: nat,
    pos: nat,
    wher: Seq<char>,
    msg: Seq<char>,
) -> Seq<char> {
    "["@ + dec_digits(line) + ":"@ + dec_digits(pos) + "] "@ + ty + (if wher.len() == 0 {
        Seq::<char>::empty()
    } else {
        " "@ + wher
    }) + ": "@ + msg + "\n"@
}

/// Renders one report line; the single formatting routine every error kind
/// goes through.
pub fn format_report(ty: &str, line: usize, pos: usize, wher: &str, msg: &str) -> (r: String)
    ensures
        r@ == report_seq(ty@, line as nat, pos as nat, wher@, msg@),
{
    let mut s: String = "[".to_owned();
    s.append(u64_to_string(line as u64).as_str());
    s.append(":");
    s.append(u64_to_string(pos as u64).as_str());
    s.append("] ");
    s.append(ty);
    if !wher.is_empty() {
        s.append(" ");
        s.append(wher);
    }
    s.append(": ");
    s.append(msg);
    s.append("\n");
    proof {
        assert(s@ =~= report_seq(ty@, line as nat, pos as nat, wher@, msg@));
    }
    s
}

/// The `at 'lexeme'` (or `at end`) piece of a report about a token.
pub open spec fn at_token_seq(kind: TokenKind, lexeme: Seq<char>) -> Seq<char> {
    if kind == TokenKind::Eof {
        "at end"@
    } else {
        "at '"@ + lexeme + "'"@
    }
}

/// Renders the `at ...` piece for `token`.
pub fn format_at_token(token: &Token) -> (r: String)
    ensures
        r@ == at_token_seq(token.kind, token.lexeme@),
{
    if token.get_type() == TokenKind::Eof {
        "at end".to_owned()
    } else {
        let mut s: String = "at '".to_owned();
        s.append(token.get_lexeme().as_str());
        s.append("'");
        proof {
            assert(s@ =~= at_token_seq(token.kind, token.lexeme@));
        }
        s
    }
}

} // verus!
