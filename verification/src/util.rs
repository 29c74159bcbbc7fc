//! Small shared helpers: the id allocator for syntax-tree nodes and run-time
//! objects, string comparison, and decimal formatting of numbers.

use vstd::prelude::*;

verus! {

/// Allocator of process-unique ids for syntax-tree nodes and run-time
/// objects. The parser and the interpreter thread one of these explicitly
/// instead of drawing from a global counter.
pub struct IdGen {
    next: u64,
}

impl IdGen {
    pub closed spec fn spec_next(&self) -> u64 {
        self.next
    }

    pub fn new() -> (r: IdGen)
        ensures
            r.spec_next() == 0,
    {
        IdGen { next: 0 }
    }

    /// An allocator whose next id is `base`.
    pub fn starting_at(base: u64) -> (r: IdGen)
        ensures
            r.spec_next() == base,
    {
        IdGen { next: base }
    }

    pub fn peek(&self) -> (r: u64)
        ensures
            r == self.spec_next(),
    {
        self.next
    }
}

/// Draws the next fresh id: returns the current counter and advances it.
/// The counter saturates at the largest `u64`, which no realistic program
/// reaches; ids below the counter are never handed out twice.
pub fn next_id(gen: &mut IdGen) -> (r: u64)
    ensures
        r == old(gen).spec_next(),
        final(gen).spec_next() == if old(gen).spec_next() == u64::MAX {
            u64::MAX as int
        } else {
            old(gen).spec_next() + 1
        },
{
    let id = gen.next;
    if gen.next < u64::MAX {
        gen.next = gen.next + 1;
    }
    id
}

/// True exactly when the two string slices hold the same characters.
pub fn str_eqx(a: &str, b: &str) -> (r: bool)
    ensures
        r == (a@ == b@),
{
    let ao: String = a.to_owned();
    let bo: String = b.to_owned();
    ao == bo
}

/// The index of the first entry of `s` whose key reads `name`, if any.
pub open spec fn assoc_index<T>(s: Seq<(String, T)>, name: Seq<char>) -> Option<int>
    decreases s.len(),
{
    if s.len() == 0 {
        None
    } else if s[0].0@ == name {
        Some(0)
    } else {
        match assoc_index(s.drop_first(), name) {
            Some(i) => Some(i + 1),
            None => None,
        }
    }
}

/// The value bound to `name` in the association list `s`, if any.
pub open spec fn assoc_lookup<T>(s: Seq<(String, T)>, name: Seq<char>) -> Option<T>
    decreases s.len(),
{
    if s.len() == 0 {
        None
    } else if s[0].0@ == name {
        Some(s[0].1)
    } else {
        assoc_lookup(s.drop_first(), name)
    }
}

/// What an association list looks like after binding `name` to `value`:
/// the first entry for `name` is overwritten, or a new entry is appended.
pub open spec fn assoc_store<T>(s: Seq<(String, T)>, name: String, value: T) -> Seq<(String, T)> {
    match assoc_index(s, name@) {
        Some(i) => s.update(i, (name, value)),
        None => s.push((name, value)),
    }
}

proof fn lemma_assoc_index_in_range<T>(s: Seq<(String, T)>, name: Seq<char>)
    ensures
        match assoc_index(s, name) {
            Some(i) => 0 <= i < s.len() && s[i].0@ == name && assoc_lookup(s, name) == Some(
                s[i].1,
            ) && (forall|j: int| 0 <= j < i ==> s[j].0@ != name),
            None => assoc_lookup(s, name) is None && (forall|j: int|
                0 <= j < s.len() ==> s[j].0@ != name),
        },
    decreases s.len(),
{
    if s.len() > 0 {
        let t = s.drop_first();
        lemma_assoc_index_in_range(t, name);
        assert(forall|j: int| 1 <= j < s.len() ==> s[j] == #[trigger] t[j - 1]);
        if s[0].0@ != name {
            match assoc_index(t, name) {
                Some(i) => {
                    assert(assoc_index(s, name) == Some(i + 1));
                    assert forall|j: int| 0 <= j < i + 1 implies s[j].0@ != name by {
                        if j > 0 {
                            assert(t[j - 1].0@ != name);
                        }
                    }
                },
                None => {
                    assert forall|j: int| 0 <= j < s.len() implies s[j].0@ != name by {
                        if j > 0 {
                            assert(t[j - 1].0@ != name);
                        }
                    }
                },
            }
        }
    }
}

/// What a store does to lookups: the stored name now maps to the value,
/// and every other name maps as before.
pub proof fn lemma_assoc_store_lookup<T>(
    s: Seq<(String, T)>,
    name: String,
    value: T,
    probe: Seq<char>,
)
    ensures
        assoc_lookup(assoc_store(s, name, value), probe) == (if probe == name@ {
            Some(value)
        } else {
            assoc_lookup(s, probe)
        }),
    decreases s.len(),
{
    lemma_assoc_index_in_range(s, name@);
    match assoc_index(s, name@) {
        Some(i) => {
            lemma_assoc_lookup_update(s, i, name, value, probe);
        },
        None => {
            lemma_assoc_lookup_push(s, name, value, probe);
        },
    }
}

proof fn lemma_assoc_lookup_push<T>(s: Seq<(String, T)>, name: String, value: T, probe: Seq<char>)
    requires
        assoc_lookup(s, probe) is None || probe != name@ || assoc_index(s, name@) is None,
    ensures
        assoc_lookup(s.push((name, value)), probe) == (if assoc_lookup(s, probe) is Some {
            assoc_lookup(s, probe)
        } else if probe == name@ {
            Some(value)
        } else {
            None
        }),
    decreases s.len(),
{
    if s.len() == 0 {
        assert(s.push((name, value)).drop_first() =~= Seq::<(String, T)>::empty());
    } else {
        assert(s.push((name, value)).drop_first() =~= s.drop_first().push((name, value)));
        lemma_assoc_lookup_push(s.drop_first(), name, value, probe);
    }
}

proof fn lemma_assoc_lookup_update<T>(
    s: Seq<(String, T)>,
    i: int,
    name: String,
    value: T,
    probe: Seq<char>,
)
    requires
        0 <= i < s.len(),
        s[i].0@ == name@,
        forall|j: int| 0 <= j < i ==> s[j].0@ != name@,
    ensures
        assoc_lookup(s.update(i, (name, value)), probe) == (if probe == name@ {
            Some(value)
        } else {
            assoc_lookup(s, probe)
        }),
    decreases s.len(),
{
    let t = s.update(i, (name, value));
    if i == 0 {
        if probe != name@ {
            assert(t.drop_first() =~= s.drop_first());
        }
    } else {
        assert(t.drop_first() =~= s.drop_first().update(i - 1, (name, value)));
        assert(forall|j: int| 0 <= j < i - 1 ==> s.drop_first()[j] == s[j + 1]);
        lemma_assoc_lookup_update(s.drop_first(), i - 1, name, value, probe);
    }
}

/// Looks `name` up in an association list; returns the first match.
pub fn assoc_get<'a, T>(entries: &'a Vec<(String, T)>, name: &str) -> (r: Option<&'a T>)
    ensures
        match r {
            Some(v) => assoc_lookup(entries@, name@) == Some(*v),
            None => assoc_lookup(entries@, name@) is None,
        },
{
    proof {
        lemma_assoc_index_in_range(entries@, name@);
    }
    let mut i: usize = 0;
    while i < entries.len()
        invariant
            0 <= i <= entries.len(),
            forall|j: int| 0 <= j < i ==> entries@[j].0@ != name@,
        decreases entries.len() - i,
    {
        if str_eqx(entries[i].0.as_str(), name) {
            proof {
                lemma_assoc_index_first(entries@, name@, i as int);
            }
            return Some(&entries[i].1);
        }
        i = i + 1;
    }
    None
}

proof fn lemma_assoc_index_first<T>(s: Seq<(String, T)>, name: Seq<char>, i: int)
    requires
        0 <= i < s.len(),
        s[i].0@ == name,
        forall|j: int| 0 <= j < i ==> s[j].0@ != name,
    ensures
        assoc_index(s, name) == Some(i),
        assoc_lookup(s, name) == Some(s[i].1),
    decreases s.len(),
{
    if i > 0 {
        lemma_assoc_index_first(s.drop_first(), name, i - 1);
    }
}

/// Binds `name` to `value`: overwrites the first entry for `name`, or
/// appends a new one.
pub fn assoc_put<T>(entries: &mut Vec<(String, T)>, name: String, value: T)
    ensures
        final(entries)@ == assoc_store(old(entries)@, name, value),
{
    proof {
        lemma_assoc_index_in_range(entries@, name@);
    }
    let ghost orig = entries@;
    let mut i: usize = 0;
    while i < entries.len()
        invariant
            0 <= i <= entries.len(),
            entries@ == orig,
            orig == old(entries)@,
            forall|j: int| 0 <= j < i ==> entries@[j].0@ != name@,
        decreases entries.len() - i,
    {
        if str_eqx(entries[i].0.as_str(), name.as_str()) {
            proof {
                lemma_assoc_index_first(orig, name@, i as int);
            }
            entries.set(i, (name, value));
            proof {
                assert(entries@ =~= assoc_store(orig, name, value));
            }
            return ;
        }
        i = i + 1;
    }
    entries.push((name, value));
}

/// The decimal digit character for `d` (meaningful for `d < 10`).
pub open spec fn digit_char(d: nat) -> char {
    if d == 0 {
        '0'
    } else if d == 1 {
        '1'
    } else if d == 2 {
        '2'
    } else if d == 3 {
        '3'
    } else if d == 4 {
        '4'
    } else if d == 5 {
        '5'
    } else if d == 6 {
        '6'
    } else if d == 7 {
        '7'
    } else if d == 8 {
        '8'
    } else {
        '9'
    }
}

/// The decimal representation of `n`, most significant digit first.
pub open spec fn dec_digits(n: nat) -> Seq<char>
    decreases n,
{
    if n < 10 {
        seq![digit_char(n)]
    } else {
        dec_digits(n / 10) + seq![digit_char(n % 10)]
    }
}

/// The decimal representation of a signed number: a minus sign followed by
/// the magnitude's digits when negative.
pub open spec fn dec_int(n: int) -> Seq<char> {
    if n < 0 {
        seq!['-'] + dec_digits((-n) as nat)
    } else {
        dec_digits(n as nat)
    }
}

fn digit_str(d: u64) -> (r: &'static str)
    requires
        d < 10,
    ensures
        r@ == seq![digit_char(d as nat)],
{
    proof {
        reveal_strlit("0");
        reveal_strlit("1");
        reveal_strlit("2");
        reveal_strlit("3");
        reveal_strlit("4");
        reveal_strlit("5");
        reveal_strlit("6");
        reveal_strlit("7");
        reveal_strlit("8");
        reveal_strlit("9");
    }
    if d == 0 {
        "0"
    } else if d == 1 {
        "1"
    } else if d == 2 {
        "2"
    } else if d == 3 {
        "3"
    } else if d == 4 {
        "4"
    } else if d == 5 {
        "5"
    } else if d == 6 {
        "6"
    } else if d == 7 {
        "7"
    } else if d == 8 {
        "8"
    } else {
        "9"
    }
}

/// Renders `n` in decimal.
pub fn u64_to_string(n: u64) -> (s: String)
    ensures
        s@ == dec_digits(n as nat),
    decreases n,
{
    if n < 10 {
        digit_str(n).to_owned()
    } else {
        let high = u64_to_string(n / 10);
        high.concat(digit_str(n % 10))
    }
}

/// Renders a signed number in decimal, with a leading minus sign when
/// negative.
pub fn i64_to_string(n: i64) -> (s: String)
    ensures
        s@ == dec_int(n as int),
{
    if n >= 0 {
        u64_to_string(n as u64)
    } else {
        proof {
            reveal_strlit("-");
        }
        let magnitude: u64 = if n == i64::MIN {
            9223372036854775808u64
        } else {
            (-n) as u64
        };
        let sign: String = "-".to_owned();
        sign.concat(u64_to_string(magnitude).as_str())
    }
}

} // verus!
