//! The run-time chain of scope frames holding variable bindings.
//!
//! Frames live in one arena and refer to their enclosing frame by index;
//! sharing a frame (as closures do) is sharing the index. A binding maps a
//! name to `Some(value)` or to `None`, the declared-but-not-yet-initialized
//! state, which is distinct from being bound to `nil`.
//!
//! `get_at`/`assign_at` jump exactly `distance` frames outward and touch
//! only the frame they land on: this is the fast path driven by the
//! resolver's side-table, and its contract is the environment half of the
//! resolver/environment agreement the language depends on.

use vstd::prelude::*;

use crate::error::{RuntimeError, RuntimeErrorKind};
use crate::object::Object;
use crate::token::{tok_like, Token};
use crate::util::{assoc_get, assoc_lookup, assoc_put, assoc_store};

verus! {

/// One scope frame: its enclosing frame (none for the global frame) and
/// its bindings.
pub struct Frame {
    pub enclosing: Option<usize>,
    pub bindings: Vec<(String, Option<Object>)>,
}

/// The arena of all frames created so far. Frame 0 is the global frame.
pub struct Environment {
    pub frames: Vec<Frame>,
}

impl Environment {
    /// Every frame's enclosing link points at an earlier frame, so chains
    /// always lead toward the global frame and never cycle.
    pub open spec fn wf(&self) -> bool {
        forall|i: int|
            0 <= i < self.frames@.len() ==> match #[trigger] self.frames@[i].enclosing {
                Some(p) => p < i,
                None => true,
            }
    }

    /// The binding of `name` in frame `i` alone: `None` when the frame
    /// does not bind the name, `Some(state)` otherwise (where `state` is
    /// the optional value).
    pub open spec fn binding_at(&self, i: int, name: Seq<char>) -> Option<Option<Object>> {
        if 0 <= i < self.frames@.len() {
            assoc_lookup(self.frames@[i].bindings@, name)
        } else {
            None
        }
    }

    /// The frame reached from `i` after exactly `d` enclosing-frame hops,
    /// if the chain is long enough.
    pub open spec fn ancestor_spec(&self, i: int, d: nat) -> Option<int>
        decreases d,
    {
        if !(0 <= i < self.frames@.len()) {
            None
        } else if d == 0 {
            Some(i)
        } else {
            match self.frames@[i].enclosing {
                Some(p) => self.ancestor_spec(p as int, (d - 1) as nat),
                None => None,
            }
        }
    }

    /// The innermost frame of the chain starting at `i` that binds
    /// `name`, walking enclosing links outward. A link that does not
    /// point at an earlier frame is treated as absent (a well-formed
    /// arena never has one).
    pub open spec fn chain_resolve(&self, i: int, name: Seq<char>) -> Option<int>
        decreases (if i >= 0 { i + 1 } else { 0 }),
    {
        if !(0 <= i < self.frames@.len()) {
            None
        } else if self.binding_at(i, name) is Some {
            Some(i)
        } else {
            match self.frames@[i].enclosing {
                Some(p) => if p < i {
                    self.chain_resolve(p as int, name)
                } else {
                    None
                },
                None => None,
            }
        }
    }

    /// The frame the chain search names always holds a binding of the
    /// name: the search stops at the innermost frame of the chain that
    /// binds it, and at nothing else.
    pub proof fn lemma_chain_resolve_binds(&self, f: int, name: Seq<char>)
        ensures
            match self.chain_resolve(f, name) {
                Some(j) => 0 <= j < self.frames@.len() && self.binding_at(j, name) is Some && (
                self.binding_at(f, name) is Some ==> j == f),
                None => 0 <= f < self.frames@.len() ==> self.binding_at(f, name) is None,
            },
        decreases (if f >= 0 {
            f + 1
        } else {
            0
        }),
    {
        if 0 <= f < self.frames@.len() && self.binding_at(f, name) is None {
            match self.frames@[f].enclosing {
                Some(p) => {
                    if p < f {
                        self.lemma_chain_resolve_binds(p as int, name);
                    }
                },
                None => {},
            }
        }
    }

    /// The agreement the language depends on, stated for one lookup: when
    /// the frame exactly `d` hops out from the use site is the innermost
    /// frame of the chain that binds the name — which is what the
    /// resolver's recorded distance claims — the distance-driven lookup
    /// (`get_at`, which jumps `d` frames and reads only where it lands)
    /// reads the very binding the dynamic chain search (`get`) would
    /// find, never a shadowing or missing one.
    pub proof fn lemma_distance_lookup_agrees_with_search(&self, f: int, d: nat, name: Seq<char>)
        requires
            self.chain_resolve(f, name) is Some,
            self.ancestor_spec(f, d) == self.chain_resolve(f, name),
        ensures
            match self.ancestor_spec(f, d) {
                Some(j) => self.binding_at(j, name) is Some && self.binding_at(j, name)
                    == self.binding_at(self.chain_resolve(f, name).unwrap(), name),
                None => false,
            },
    {
        self.lemma_chain_resolve_binds(f, name);
    }

    /// A fresh environment holding only the global frame.
    pub fn new() -> (r: Environment)
        ensures
            r.frames@.len() == 1,
            r.frames@[0].enclosing is None,
            r.frames@[0].bindings@ == Seq::<(String, Option<Object>)>::empty(),
            r.wf(),
    {
        let mut frames: Vec<Frame> = Vec::new();
        frames.push(Frame { enclosing: None, bindings: Vec::new() });
        Environment { frames }
    }

    /// Opens a new frame whose enclosing frame is `enclosing`; returns its
    /// index. Existing frames are untouched.
    pub fn push_frame(&mut self, enclosing: usize) -> (h: usize)
        requires
            enclosing < old(self).frames@.len(),
        ensures
            h == old(self).frames@.len(),
            final(self).frames@.len() == old(self).frames@.len() + 1,
            forall|i: int|
                0 <= i < old(self).frames@.len() ==> final(self).frames@[i] == old(
                    self,
                ).frames@[i],
            final(self).frames@[h as int].enclosing == Some(enclosing),
            final(self).frames@[h as int].bindings@ == Seq::<(String, Option<Object>)>::empty(),
            old(self).wf() ==> final(self).wf(),
    {
        let h = self.frames.len();
        self.frames.push(Frame { enclosing: Some(enclosing), bindings: Vec::new() });
        proof {
            if old(self).wf() {
                assert forall|i: int|
                    0 <= i < self.frames@.len() implies match #[trigger] self.frames@[i].enclosing {
                    Some(p) => p < i,
                    None => true,
                } by {
                    if i < h {
                        assert(self.frames@[i] == old(self).frames@[i]);
                    }
                }
            }
        }
        h
    }

    /// Adds or overwrites a binding in frame `frame` alone.
    pub fn define(&mut self, frame: usize, name: String, value: Option<Object>)
        requires
            frame < old(self).frames@.len(),
        ensures
            final(self).frames@.len() == old(self).frames@.len(),
            forall|i: int|
                0 <= i < old(self).frames@.len() && i != frame ==> final(self).frames@[i] == old(
                    self,
                ).frames@[i],
            final(self).frames@[frame as int].enclosing == old(
                self,
            ).frames@[frame as int].enclosing,
            final(self).frames@[frame as int].bindings@ == assoc_store(
                old(self).frames@[frame as int].bindings@,
                name,
                value,
            ),
            old(self).wf() ==> final(self).wf(),
    {
        let slot = &mut self.frames[frame];
        assoc_put(&mut slot.bindings, name, value);
        proof {
            if old(self).wf() {
                assert forall|i: int|
                    0 <= i < self.frames@.len() implies match #[trigger] self.frames@[i].enclosing {
                    Some(p) => p < i,
                    None => true,
                } by {
                    if i != frame {
                        assert(self.frames@[i] == old(self).frames@[i]);
                    }
                }
            }
        }
    }

    /// The enclosing frame of `frame`, if any.
    pub fn get_enclosing(&self, frame: usize) -> (r: Option<usize>)
        ensures
            r == (if 0 <= frame < self.frames@.len() {
                self.frames@[frame as int].enclosing
            } else {
                None::<usize>
            }),
    {
        if frame < self.frames.len() {
            self.frames[frame].enclosing
        } else {
            None
        }
    }

    /// Walks from `frame` outward to the global frame and returns the
    /// innermost binding of the name: the value, or an error telling
    /// whether the name was never declared or declared but not yet
    /// initialized.
    pub fn get(&self, frame: usize, name: &Token) -> (r: Result<Object, RuntimeError>)
        ensures
            match self.chain_resolve(frame as int, name.lexeme@) {
                Some(j) => match self.binding_at(j, name.lexeme@) {
                    Some(Some(v)) => r == Ok::<Object, RuntimeError>(v),
                    Some(None) => r matches Err(e) && tok_like(e.token, *name) && (e.kind matches
                        RuntimeErrorKind::VariableNotInit(n) && n@ == name.lexeme@),
                    None => false,
                },
                None => r matches Err(e) && tok_like(e.token, *name) && (e.kind matches
                    RuntimeErrorKind::UndefinedVariable(n) && n@ == name.lexeme@),
            },
    {
        let mut cur = frame;
        loop
            invariant
                self.chain_resolve(frame as int, name.lexeme@) == self.chain_resolve(
                    cur as int,
                    name.lexeme@,
                ),
            decreases cur,
        {
            if cur >= self.frames.len() {
                return Err(
                    RuntimeError::new(
                        name.duplicate(),
                        RuntimeErrorKind::UndefinedVariable(name.get_lexeme().clone()),
                    ),
                );
            }
            match assoc_get(&self.frames[cur].bindings, name.get_lexeme().as_str()) {
                Some(state) => {
                    return match state {
                        Some(v) => Ok(*v),
                        None => Err(
                            RuntimeError::new(
                                name.duplicate(),
                                RuntimeErrorKind::VariableNotInit(name.get_lexeme().clone()),
                            ),
                        ),
                    };
                },
                None => {
                    match self.frames[cur].enclosing {
                        Some(p) => {
                            if p < cur {
                                cur = p;
                            } else {
                                return Err(
                                    RuntimeError::new(
                                        name.duplicate(),
                                        RuntimeErrorKind::UndefinedVariable(
                                            name.get_lexeme().clone(),
                                        ),
                                    ),
                                );
                            }
                        },
                        None => {
                            return Err(
                                RuntimeError::new(
                                    name.duplicate(),
                                    RuntimeErrorKind::UndefinedVariable(name.get_lexeme().clone()),
                                ),
                            );
                        },
                    }
                },
            }
        }
    }

    /// Jumps exactly `distance` frames outward from `frame` and reads the
    /// binding of that frame alone — no name search along the way.
    pub fn get_at(&self, frame: usize, distance: usize, name: &Token) -> (r: Result<
        Object,
        RuntimeError,
    >)
        ensures
            match self.ancestor_spec(frame as int, distance as nat) {
                Some(j) => match self.binding_at(j, name.lexeme@) {
                    Some(Some(v)) => r == Ok::<Object, RuntimeError>(v),
                    Some(None) => r matches Err(e) && tok_like(e.token, *name) && (e.kind matches
                        RuntimeErrorKind::VariableNotInit(n) && n@ == name.lexeme@),
                    None => r matches Err(e) && tok_like(e.token, *name) && (e.kind matches
                        RuntimeErrorKind::UndefinedVariable(n) && n@ == name.lexeme@),
                },
                None => r matches Err(e) && tok_like(e.token, *name) && e.kind
                    == RuntimeErrorKind::InternalBug,
            },
    {
        match self.ancestor(frame, distance) {
            None => Err(RuntimeError::new(name.duplicate(), RuntimeErrorKind::InternalBug)),
            Some(j) => {
                match assoc_get(&self.frames[j].bindings, name.get_lexeme().as_str()) {
                    Some(Some(v)) => Ok(*v),
                    Some(None) => Err(
                        RuntimeError::new(
                            name.duplicate(),
                            RuntimeErrorKind::VariableNotInit(name.get_lexeme().clone()),
                        ),
                    ),
                    None => Err(
                        RuntimeError::new(
                            name.duplicate(),
                            RuntimeErrorKind::UndefinedVariable(name.get_lexeme().clone()),
                        ),
                    ),
                }
            },
        }
    }

    /// The frame exactly `distance` hops out from `frame`, if the chain
    /// reaches that far.
    fn ancestor(&self, frame: usize, distance: usize) -> (r: Option<usize>)
        ensures
            match r {
                Some(u) => self.ancestor_spec(frame as int, distance as nat) == Some(u as int) && u
                    < self.frames@.len(),
                None => self.ancestor_spec(frame as int, distance as nat) is None,
            },
    {
        let mut cur = frame;
        let mut k: usize = 0;
        while k < distance
            invariant
                k <= distance,
                self.ancestor_spec(frame as int, distance as nat) == self.ancestor_spec(
                    cur as int,
                    (distance - k) as nat,
                ),
            decreases distance - k,
        {
            if cur >= self.frames.len() {
                return None;
            }
            match self.frames[cur].enclosing {
                Some(p) => {
                    cur = p;
                },
                None => {
                    return None;
                },
            }
            k = k + 1;
        }
        if cur < self.frames.len() {
            Some(cur)
        } else {
            None
        }
    }

    /// Walks from `frame` outward and overwrites the innermost existing
    /// binding of the name; assignment never declares, so a name bound
    /// nowhere in the chain is an error and nothing changes.
    pub fn assign(&mut self, frame: usize, name: &Token, value: Object) -> (r: Result<
        Object,
        RuntimeError,
    >)
        ensures
            match old(self).chain_resolve(frame as int, name.lexeme@) {
                Some(j) => {
                    &&& r == Ok::<Object, RuntimeError>(value)
                    &&& final(self).frames@.len() == old(self).frames@.len()
                    &&& (forall|i: int|
                        0 <= i < old(self).frames@.len() && i != j ==> final(self).frames@[i]
                            == old(self).frames@[i])
                    &&& final(self).frames@[j].enclosing == old(self).frames@[j].enclosing
                    &&& final(self).frames@[j].bindings@ == assoc_store(
                        old(self).frames@[j].bindings@,
                        name.lexeme,
                        Some(value),
                    )
                },
                None => *final(self) == *old(self) && (r matches Err(e) && tok_like(e.token, *name) && (
                e.kind matches RuntimeErrorKind::UndefinedVariable(n) && n@ == name.lexeme@)),
            },
    {
        let mut cur = frame;
        loop
            invariant
                self == old(self),
                old(self).chain_resolve(frame as int, name.lexeme@) == old(self).chain_resolve(
                    cur as int,
                    name.lexeme@,
                ),
            decreases cur,
        {
            if cur >= self.frames.len() {
                return Err(
                    RuntimeError::new(
                        name.duplicate(),
                        RuntimeErrorKind::UndefinedVariable(name.get_lexeme().clone()),
                    ),
                );
            }
            let found = match assoc_get(&self.frames[cur].bindings, name.get_lexeme().as_str()) {
                Some(_) => true,
                None => false,
            };
            if found {
                let slot = &mut self.frames[cur];
                assoc_put(&mut slot.bindings, name.get_lexeme().clone(), Some(value));
                return Ok(value);
            }
            match self.frames[cur].enclosing {
                Some(p) => {
                    if p < cur {
                        cur = p;
                    } else {
                        return Err(
                            RuntimeError::new(
                                name.duplicate(),
                                RuntimeErrorKind::UndefinedVariable(name.get_lexeme().clone()),
                            ),
                        );
                    }
                },
                None => {
                    return Err(
                        RuntimeError::new(
                            name.duplicate(),
                            RuntimeErrorKind::UndefinedVariable(name.get_lexeme().clone()),
                        ),
                    );
                },
            }
        }
    }

    /// Jumps exactly `distance` frames outward and overwrites the name's
    /// binding in that frame alone, mirroring `get_at`. Assignment never
    /// declares: a name the landing frame does not already bind is an
    /// undefined-variable error, and nothing changes.
    pub fn assign_at(
        &mut self,
        frame: usize,
        distance: usize,
        name: &Token,
        value: Object,
    ) -> (r: Result<Object, RuntimeError>)
        ensures
            match old(self).ancestor_spec(frame as int, distance as nat) {
                Some(j) => if old(self).binding_at(j, name.lexeme@) is Some {
                    &&& r == Ok::<Object, RuntimeError>(value)
                    &&& final(self).frames@.len() == old(self).frames@.len()
                    &&& (forall|i: int|
                        0 <= i < old(self).frames@.len() && i != j ==> final(self).frames@[i]
                            == old(self).frames@[i])
                    &&& final(self).frames@[j].enclosing == old(self).frames@[j].enclosing
                    &&& final(self).frames@[j].bindings@ == assoc_store(
                        old(self).frames@[j].bindings@,
                        name.lexeme,
                        Some(value),
                    )
                } else {
                    *final(self) == *old(self) && (r matches Err(e) && tok_like(e.token, *name)
                        && (e.kind matches RuntimeErrorKind::UndefinedVariable(n) && n@
                        == name.lexeme@))
                },
                None => *final(self) == *old(self) && (r matches Err(e) && tok_like(e.token, *name)
                    && e.kind == RuntimeErrorKind::InternalBug),
            },
    {
        match self.ancestor(frame, distance) {
            None => Err(RuntimeError::new(name.duplicate(), RuntimeErrorKind::InternalBug)),
            Some(j) => {
                let declared = match assoc_get(&self.frames[j].bindings, name.get_lexeme().as_str())
                    {
                    Some(_) => true,
                    None => false,
                };
                if declared {
                    let slot = &mut self.frames[j];
                    assoc_put(&mut slot.bindings, name.get_lexeme().clone(), Some(value));
                    Ok(value)
                } else {
                    Err(
                        RuntimeError::new(
                            name.duplicate(),
                            RuntimeErrorKind::UndefinedVariable(name.get_lexeme().clone()),
                        ),
                    )
                }
            },
        }
    }
}

} // verus!
