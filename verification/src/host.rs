//! The host bridge: everything the language runtime asks of the
//! surrounding application — native-function work, the outbound render
//! channel, and the shared cancellation flag.
//!
//! The application implements [`Host`]; scripts reach it only through the
//! native functions the interpreter registers in the global scope. A
//! [`ScriptedHost`] that answers deterministically lives here too, so the
//! engine can run without any real host.

use vstd::prelude::*;

verus! {

/// A value carried across the host boundary: the plain-data image of a
/// run-time value, with opaque payloads as host tokens and non-data
/// values (callables, classes) reduced to a descriptive tag.
#[derive(Debug)]
pub enum HostValue {
    Num(i64),
    Text(String),
    Truth(bool),
    Nil,
    Items(Vec<HostValue>),
    Entries(Vec<(String, HostValue)>),
    Opaque(u64),
    Other(String),
}

/// One request from the interpreter to the host.
#[derive(Debug)]
pub enum NativeRequest {
    /// Ask the host for its output dimensions (answered synchronously).
    WindowDimensions,
    /// Trigonometric and other numeric work the host computes.
    Tan(i64),
    Sqrt(i64),
    Sin(i64),
    Cos(i64),
    /// One-way emission of a declarative payload; the core does not
    /// interpret its shape.
    Render(HostValue),
    /// Wall-clock time.
    Clock,
    /// A line the script printed.
    Print(String),
    /// Process termination with the given code.
    Exit(i64),
    /// A new opaque timer; the host answers with a token.
    Instant,
    /// Microseconds elapsed on the timer behind the token.
    Elapsed(u64),
    /// The script registered a callback for this key name.
    RegisterKeyEvent(String),
}

/// The host's answer to a request.
#[derive(Debug)]
pub enum NativeReply {
    Unit,
    Num(i64),
    Text(String),
    Dims(i64, i64),
    Opaque(u64),
}

/// What the surrounding application supplies to the language runtime.
///
/// The evaluator polls `poll_cancelled` at every statement and expression
/// boundary; the application's implementation reads the shared flag its
/// file watcher sets. Nothing is promised about `native`'s replies: the
/// interpreter states what holds of every outcome.
pub trait Host {
    /// The abstract state of the cancellation flag as the next poll will
    /// observe it.
    spec fn cancel_pending(&self) -> bool;

    /// Reads the cancellation flag once. The host may update its state
    /// (arm a countdown, note the poll); the interpreter only relies on
    /// the value read.
    fn poll_cancelled(&mut self) -> (r: bool)
        ensures
            r == old(self).cancel_pending(),
    ;

    /// Performs one native request and answers it. Replies are entirely
    /// the host's choice.
    fn native(&mut self, req: NativeRequest) -> NativeReply;
}

/// A deterministic host: cancels after a fixed number of polls (if asked
/// to), records everything printed and rendered, and answers numeric
/// requests with fixed values. It is the host the tests run against.
pub struct ScriptedHost {
    /// Cancel once this many polls have happened, if set.
    pub cancel_after: Option<u64>,
    /// How many polls have happened.
    pub polls: u64,
    /// Every line printed, in order.
    pub printed: Vec<String>,
    /// Every rendered payload, in order.
    pub rendered: Vec<HostValue>,
    /// Every exit code requested, in order.
    pub exit_codes: Vec<i64>,
    /// The fixed answers for dimensions and the clock.
    pub width: i64,
    pub height: i64,
    pub clock: i64,
}

impl ScriptedHost {
    /// A host that never cancels.
    pub fn new() -> (r: ScriptedHost)
        ensures
            r.cancel_after is None,
            r.polls == 0,
            r.printed@.len() == 0,
            r.rendered@.len() == 0,
            r.exit_codes@.len() == 0,
    {
        ScriptedHost {
            cancel_after: None,
            polls: 0,
            printed: Vec::new(),
            rendered: Vec::new(),
            exit_codes: Vec::new(),
            width: 800,
            height: 600,
            clock: 0,
        }
    }

    /// A host that reports cancellation from the `after`-th poll on.
    pub fn cancelling_after(after: u64) -> (r: ScriptedHost)
        ensures
            r.cancel_after == Some(after),
            r.polls == 0,
            r.printed@.len() == 0,
    {
        ScriptedHost {
            cancel_after: Some(after),
            polls: 0,
            printed: Vec::new(),
            rendered: Vec::new(),
            exit_codes: Vec::new(),
            width: 800,
            height: 600,
            clock: 0,
        }
    }
}

impl Host for ScriptedHost {
    open spec fn cancel_pending(&self) -> bool {
        match self.cancel_after {
            Some(n) => self.polls >= n,
            None => false,
        }
    }

    fn poll_cancelled(&mut self) -> (r: bool) {
        let r = match self.cancel_after {
            Some(n) => self.polls >= n,
            None => false,
        };
        if self.polls < u64::MAX {
            self.polls = self.polls + 1;
        }
        r
    }

    fn native(&mut self, req: NativeRequest) -> NativeReply {
        match req {
            NativeRequest::WindowDimensions => NativeReply::Dims(self.width, self.height),
            NativeRequest::Tan(_) => NativeReply::Num(0),
            NativeRequest::Sqrt(_) => NativeReply::Num(0),
            NativeRequest::Sin(_) => NativeReply::Num(0),
            NativeRequest::Cos(_) => NativeReply::Num(0),
            NativeRequest::Render(v) => {
                self.rendered.push(v);
                NativeReply::Unit
            },
            NativeRequest::Clock => NativeReply::Num(self.clock),
            NativeRequest::Print(line) => {
                self.printed.push(line);
                NativeReply::Unit
            },
            NativeRequest::Exit(code) => {
                self.exit_codes.push(code);
                NativeReply::Unit
            },
            NativeRequest::Instant => NativeReply::Opaque(self.polls),
            NativeRequest::Elapsed(_) => NativeReply::Num(0),
            NativeRequest::RegisterKeyEvent(_) => NativeReply::Unit,
        }
    }
}

} // verus!
