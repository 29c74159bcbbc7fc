//! Unit tests of the environment chain, the value model and the shared
//! helpers, exercised directly rather than through whole scripts.

use yun_lang::environment::Environment;
use yun_lang::error::RuntimeErrorKind;
use yun_lang::interp::Interpreter;
use yun_lang::object::{compare, obj_eq, op_add, op_div, op_neg, Object, OrderKind};
use yun_lang::token::{Token, TokenKind};
use yun_lang::util::{i64_to_string, u64_to_string};

fn ident(name: &str) -> Token {
    Token::new(TokenKind::Identifier, name.to_string(), None, 1, 1)
}

#[test]
fn get_at_reaches_exactly_the_distant_frame() {
    // globals <- f1 <- f2, with `v` declared in globals and f1 (shadowed)
    let mut env = Environment::new();
    env.define(0, "v".to_string(), Some(Object::Num(1)));
    let f1 = env.push_frame(0);
    env.define(f1, "v".to_string(), Some(Object::Num(2)));
    let f2 = env.push_frame(f1);

    // from f2: distance 1 must see the f1 binding, distance 2 the global
    assert!(matches!(env.get_at(f2, 1, &ident("v")), Ok(Object::Num(2))));
    assert!(matches!(env.get_at(f2, 2, &ident("v")), Ok(Object::Num(1))));
    // distance 0 lands on f2, which holds no binding: no search happens
    assert!(env.get_at(f2, 0, &ident("v")).is_err());
    // a distance past the chain's end is an internal fault
    assert!(env.get_at(f2, 3, &ident("v")).is_err());
}

#[test]
fn chain_walk_get_finds_innermost_binding() {
    let mut env = Environment::new();
    env.define(0, "a".to_string(), Some(Object::Num(10)));
    let f1 = env.push_frame(0);
    let f2 = env.push_frame(f1);
    assert!(matches!(env.get(f2, &ident("a")), Ok(Object::Num(10))));
    env.define(f1, "a".to_string(), Some(Object::Num(20)));
    assert!(matches!(env.get(f2, &ident("a")), Ok(Object::Num(20))));
}

#[test]
fn assign_overwrites_innermost_existing_binding() {
    let mut env = Environment::new();
    env.define(0, "a".to_string(), Some(Object::Num(1)));
    let f1 = env.push_frame(0);
    env.assign(f1, &ident("a"), Object::Num(7)).unwrap();
    assert!(matches!(env.get(0, &ident("a")), Ok(Object::Num(7))));
}

#[test]
fn assign_at_overwrites_only_a_declared_binding() {
    let mut env = Environment::new();
    env.define(0, "known".to_string(), Some(Object::Num(1)));
    let f1 = env.push_frame(0);
    env.assign_at(f1, 1, &ident("known"), Object::Num(3)).unwrap();
    assert!(matches!(env.get(0, &ident("known")), Ok(Object::Num(3))));
    // assignment never declares: a name the distant frame does not bind
    // is an undefined-variable error and nothing changes
    assert!(env.assign_at(f1, 1, &ident("fresh"), Object::Num(4)).is_err());
    assert!(env.get(0, &ident("fresh")).is_err());
}

#[test]
fn declared_without_value_reads_as_not_initialized() {
    let mut env = Environment::new();
    env.define(0, "a".to_string(), None);
    assert!(env.get(0, &ident("a")).is_err());
}

#[test]
fn sharing_a_frame_shares_its_bindings() {
    // two frames enclosing the same parent observe each other's writes
    // through the parent, the way two closures over one scope do
    let mut env = Environment::new();
    let parent = env.push_frame(0);
    env.define(parent, "n".to_string(), Some(Object::Num(0)));
    let c1 = env.push_frame(parent);
    let c2 = env.push_frame(parent);
    env.assign(c1, &ident("n"), Object::Num(9)).unwrap();
    assert!(matches!(env.get(c2, &ident("n")), Ok(Object::Num(9))));
}

#[test]
fn side_table_distance_drives_lookup() {
    // two nested frames both bind `v`; the recorded distance decides
    // which declaration a reference reads
    let mut interp = Interpreter::new();
    let f1 = interp.env.push_frame(0);
    let f2 = interp.env.push_frame(f1);
    interp.env.define(f1, "v".to_string(), Some(Object::Num(7)));
    interp.env.define(f2, "v".to_string(), Some(Object::Num(8)));
    interp.current = f2;
    let tok = ident("v");
    interp.resolve(42, 1);
    assert!(matches!(interp.look_up_variable(&tok, 42), Ok(Object::Num(7))));
    interp.resolve(42, 0);
    assert!(matches!(interp.look_up_variable(&tok, 42), Ok(Object::Num(8))));
    // an unrecorded node falls back to the global frame, where `v` is
    // not declared at all
    assert!(interp.look_up_variable(&tok, 43).is_err());
}

#[test]
fn decimal_rendering() {
    assert_eq!(u64_to_string(0), "0");
    assert_eq!(u64_to_string(90210), "90210");
    assert_eq!(i64_to_string(-42), "-42");
    assert_eq!(i64_to_string(i64::MIN), "-9223372036854775808");
    assert_eq!(i64_to_string(i64::MAX), "9223372036854775807");
}

#[test]
fn truthiness_of_every_kind() {
    assert!(!Object::Nil.truthy());
    assert!(!Object::Void.truthy());
    assert!(!Object::Bool(false).truthy());
    assert!(Object::Bool(true).truthy());
    assert!(Object::Num(0).truthy());
    assert!(Object::Str(0).truthy());
    assert!(Object::List(0).truthy());
    assert!(Object::Dictionary(0).truthy());
}

#[test]
fn negation_is_numeric_only() {
    assert!(matches!(op_neg(&Object::Num(5)), Ok(Object::Num(-5))));
    assert!(op_neg(&Object::Bool(true)).is_err());
}

#[test]
fn division_truncates_and_wraps_only_at_the_edge() {
    assert!(matches!(op_div(&Object::Num(7), &Object::Num(2)), Ok(Object::Num(3))));
    assert!(matches!(op_div(&Object::Num(-7), &Object::Num(2)), Ok(Object::Num(-3))));
    assert!(matches!(
        op_div(&Object::Num(i64::MIN), &Object::Num(-1)),
        Ok(Object::Num(i64::MIN))
    ));
    assert!(op_div(&Object::Num(1), &Object::Num(0)).is_err());
}

#[test]
fn plus_appends_to_the_shared_list() {
    let mut strings: Vec<String> = Vec::new();
    let mut lists: Vec<Vec<Object>> = vec![vec![Object::Num(1)]];
    let r = op_add(&Object::List(0), &Object::Num(2), &mut strings, &mut lists).unwrap();
    assert!(matches!(r, Object::List(0)));
    assert_eq!(lists[0].len(), 2);
}

#[test]
fn plus_concatenates_interned_strings() {
    let mut strings: Vec<String> = vec!["ab".to_string(), "cd".to_string()];
    let mut lists: Vec<Vec<Object>> = Vec::new();
    let r = op_add(&Object::Str(0), &Object::Str(1), &mut strings, &mut lists).unwrap();
    match r {
        Object::Str(h) => assert_eq!(strings[h], "abcd"),
        other => panic!("unexpected value {:?}", other),
    }
}

#[test]
fn equality_is_deep_for_lists() {
    let strings: Vec<String> = Vec::new();
    let lists: Vec<Vec<Object>> = vec![
        vec![Object::Num(1), Object::Num(2)],
        vec![Object::Num(1), Object::Num(2)],
        vec![Object::Num(1)],
    ];
    let dicts: Vec<Vec<(String, Object)>> = Vec::new();
    assert_eq!(
        obj_eq(&Object::List(0), &Object::List(1), &strings, &lists, &dicts, 16).unwrap(),
        true
    );
    assert_eq!(
        obj_eq(&Object::List(0), &Object::List(2), &strings, &lists, &dicts, 16).unwrap(),
        false
    );
}

#[test]
fn comparisons_are_numbers_or_strings_only() {
    let strings: Vec<String> = vec!["a".to_string(), "b".to_string()];
    assert!(matches!(compare(&Object::Num(1), &Object::Num(2), &strings), Ok(OrderKind::Less)));
    assert!(matches!(compare(&Object::Str(0), &Object::Str(1), &strings), Ok(OrderKind::Less)));
    // every other pairing is a type error naming both operand kinds
    match compare(&Object::Bool(false), &Object::Bool(true), &strings) {
        Err(RuntimeErrorKind::CannotCompare(a, b)) => {
            assert_eq!(a, "boolean");
            assert_eq!(b, "boolean");
        },
        other => panic!("expected a comparison type error, got {:?}", other),
    }
    assert!(compare(&Object::Nil, &Object::Nil, &strings).is_err());
    assert!(compare(&Object::Num(1), &Object::Str(0), &strings).is_err());
}
