//! The error taxonomy: lexical, syntax and resolution errors block
//! execution entirely; run-time errors abort the run; cancellation is
//! silent and not an error.

use yun_lang::error::{LexErrorKind, ResolutionErrorKind, RuntimeErrorKind};
use yun_lang::host::ScriptedHost;
use yun_lang::interp::{Interpreter, RunError, RunOutcome};

const FUEL: u64 = 1_000_000;

fn run_script(src: &str) -> (Interpreter, ScriptedHost, Result<RunOutcome, RunError>) {
    let mut interp = Interpreter::new();
    let mut host = ScriptedHost::new();
    let r = interp.run(&mut host, src, FUEL);
    (interp, host, r)
}

#[test]
fn arity_mismatch_fails_before_body_runs() {
    let (interp, _, r) = run_script("fn plus(a,b){print 99; return a+b;} plus(1);");
    match r {
        Err(RunError::Runtime(e)) => assert!(matches!(e.kind, RuntimeErrorKind::ArityMismatch)),
        other => panic!("expected an arity error, got {:?}", other.is_ok()),
    }
    // the body never ran: nothing was printed
    assert!(interp.output.is_empty());
}

#[test]
fn undefined_variable_carries_name_and_position() {
    let (_, _, r) = run_script("print y;");
    match r {
        Err(RunError::Runtime(e)) => {
            match &e.kind {
                RuntimeErrorKind::UndefinedVariable(n) => assert_eq!(n, "y"),
                other => panic!("wrong kind: {:?}", other),
            }
            assert_eq!(e.token.line, 1);
            assert_eq!(e.token.col, 7);
        },
        _ => panic!("expected a runtime error"),
    }
}

#[test]
fn declared_but_uninitialized_is_distinct_from_nil() {
    let (_, _, r) = run_script("let a; print a;");
    match r {
        Err(RunError::Runtime(e)) => {
            assert!(matches!(e.kind, RuntimeErrorKind::VariableNotInit(_)))
        },
        _ => panic!("expected a variable-not-initialized error"),
    }
}

#[test]
fn assignment_never_declares() {
    let (_, _, r) = run_script("q = 1;");
    match r {
        Err(RunError::Runtime(e)) => {
            assert!(matches!(e.kind, RuntimeErrorKind::UndefinedVariable(_)))
        },
        _ => panic!("expected an undefined-variable error"),
    }
}

#[test]
fn division_by_zero_is_an_error() {
    let (_, _, r) = run_script("print 1/0;");
    match r {
        Err(RunError::Runtime(e)) => assert!(matches!(e.kind, RuntimeErrorKind::DivisionByZero)),
        _ => panic!("expected a division error"),
    }
}

#[test]
fn adding_mismatched_types_names_both() {
    let (_, _, r) = run_script("print 1 + \"a\";");
    match r {
        Err(RunError::Runtime(e)) => match &e.kind {
            RuntimeErrorKind::CannotAdd(a, b) => {
                assert_eq!(a, "number");
                assert_eq!(b, "string");
            },
            other => panic!("wrong kind: {:?}", other),
        },
        _ => panic!("expected a type error"),
    }
}

#[test]
fn ordering_mismatched_kinds_is_a_type_error() {
    let (_, _, r) = run_script("print 1 < true;");
    match r {
        Err(RunError::Runtime(e)) => match &e.kind {
            RuntimeErrorKind::CannotCompare(a, b) => {
                assert_eq!(a, "number");
                assert_eq!(b, "boolean");
            },
            other => panic!("wrong kind: {:?}", other),
        },
        _ => panic!("expected a comparison type error"),
    }
}

#[test]
fn ordering_nil_against_nil_is_a_type_error() {
    let (_, _, r) = run_script("print nil <= nil;");
    match r {
        Err(RunError::Runtime(e)) => {
            assert!(matches!(e.kind, RuntimeErrorKind::CannotCompare(_, _)))
        },
        _ => panic!("expected a comparison type error"),
    }
}

#[test]
fn calling_a_number_is_not_callable() {
    let (_, _, r) = run_script("let x = 3; x();");
    match r {
        Err(RunError::Runtime(e)) => assert!(matches!(e.kind, RuntimeErrorKind::NotCallable)),
        _ => panic!("expected a not-callable error"),
    }
}

#[test]
fn index_assignment_out_of_range_fails() {
    let (_, _, r) = run_script("let l=[1]; l[5]=2;");
    match r {
        Err(RunError::Runtime(e)) => {
            assert!(matches!(e.kind, RuntimeErrorKind::IndexOutOfRange))
        },
        _ => panic!("expected an index error"),
    }
}

#[test]
fn property_access_on_number_fails() {
    let (_, _, r) = run_script("let n = 4; print n.x;");
    match r {
        Err(RunError::Runtime(e)) => {
            assert!(matches!(e.kind, RuntimeErrorKind::OnlyInstancesHaveProperties))
        },
        _ => panic!("expected a property error"),
    }
}

#[test]
fn undefined_property_on_instance() {
    let (_, _, r) = run_script("class A{} print A().missing;");
    match r {
        Err(RunError::Runtime(e)) => {
            assert!(matches!(e.kind, RuntimeErrorKind::UndefinedProperty(_)))
        },
        _ => panic!("expected an undefined-property error"),
    }
}

#[test]
fn superclass_must_be_a_class() {
    let (_, _, r) = run_script("let notclass = 1; class B<notclass{}");
    match r {
        Err(RunError::Runtime(e)) => {
            assert!(matches!(e.kind, RuntimeErrorKind::SuperclassMustBeClass))
        },
        _ => panic!("expected a superclass error"),
    }
}

#[test]
fn user_panic_carries_message() {
    let (_, _, r) = run_script("panic(\"boom\");");
    match r {
        Err(RunError::Runtime(e)) => match &e.kind {
            RuntimeErrorKind::UserPanic(m) => assert_eq!(m, "boom"),
            other => panic!("wrong kind: {:?}", other),
        },
        _ => panic!("expected a panic error"),
    }
}

#[test]
fn unterminated_string_is_a_lex_error() {
    let (_, _, r) = run_script("let s = \"abc;");
    match r {
        Err(RunError::Lex(es)) => {
            assert!(es.iter().any(|e| matches!(e.kind, LexErrorKind::UnterminatedString)))
        },
        _ => panic!("expected a lexical error"),
    }
}

#[test]
fn invalid_character_is_reported_with_position() {
    let (_, _, r) = run_script("let a = 1 @ 2;");
    match r {
        Err(RunError::Lex(es)) => {
            assert!(matches!(es[0].kind, LexErrorKind::InvalidCharacter));
            assert_eq!(es[0].line, 1);
            assert_eq!(es[0].col, 11);
        },
        _ => panic!("expected a lexical error"),
    }
}

#[test]
fn scanner_recovers_and_reports_several_errors() {
    let (_, _, r) = run_script("let a = 1 @ 2;\nlet b = 3 @ 4;");
    match r {
        Err(RunError::Lex(es)) => assert_eq!(es.len(), 2),
        _ => panic!("expected lexical errors"),
    }
}

#[test]
fn number_too_large_is_a_lex_error() {
    let (_, _, r) = run_script("print 99999999999999999999999999;");
    match r {
        Err(RunError::Lex(es)) => {
            assert!(matches!(es[0].kind, LexErrorKind::NumberTooLarge))
        },
        _ => panic!("expected a lexical error"),
    }
}

#[test]
fn unknown_escape_is_a_lex_error() {
    let (_, _, r) = run_script("let s = \"a\\q\";");
    match r {
        Err(RunError::Lex(es)) => {
            assert!(matches!(es[0].kind, LexErrorKind::InvalidEscape))
        },
        _ => panic!("expected a lexical error"),
    }
}

#[test]
fn comparing_a_cyclic_list_hits_the_depth_bound() {
    let (_, _, r) = run_script("let l=[1]; l[0]=l; print l==l;");
    match r {
        Err(RunError::Runtime(e)) => assert!(matches!(e.kind, RuntimeErrorKind::DepthExceeded)),
        _ => panic!("expected a depth error"),
    }
}

#[test]
fn printing_a_cyclic_list_hits_the_depth_bound() {
    let (_, _, r) = run_script("let l=[1]; l[0]=l; print l;");
    match r {
        Err(RunError::Runtime(e)) => assert!(matches!(e.kind, RuntimeErrorKind::DepthExceeded)),
        _ => panic!("expected a depth error"),
    }
}

#[test]
fn syntax_error_blocks_execution() {
    let (interp, _, r) = run_script("print 1; let = 5;");
    assert!(matches!(r, Err(RunError::Syntax(_))));
    // the valid first statement must not have run
    assert!(interp.output.is_empty());
}

#[test]
fn parser_reports_several_errors_in_one_pass() {
    let (_, _, r) = run_script("let = 1; let = 2;");
    match r {
        Err(RunError::Syntax(es)) => assert!(es.len() >= 2),
        _ => panic!("expected syntax errors"),
    }
}

#[test]
fn return_outside_function_is_a_resolution_error() {
    let (_, _, r) = run_script("return 1;");
    match r {
        Err(RunError::Resolution(es)) => {
            assert!(matches!(es[0].kind, ResolutionErrorKind::ReturnOutsideFunction))
        },
        _ => panic!("expected a resolution error"),
    }
}

#[test]
fn return_nested_in_a_top_level_block_is_rejected() {
    let (_, _, r) = run_script("{ if (true) { return 1; } }");
    match r {
        Err(RunError::Resolution(es)) => {
            assert!(matches!(es[0].kind, ResolutionErrorKind::ReturnOutsideFunction))
        },
        _ => panic!("expected a resolution error"),
    }
}

#[test]
fn self_outside_method_is_a_resolution_error() {
    let (_, _, r) = run_script("print self;");
    match r {
        Err(RunError::Resolution(es)) => {
            assert!(matches!(es[0].kind, ResolutionErrorKind::SelfOutsideMethod))
        },
        _ => panic!("expected a resolution error"),
    }
}

#[test]
fn super_outside_method_is_a_resolution_error() {
    let (_, _, r) = run_script("print super.m;");
    match r {
        Err(RunError::Resolution(es)) => {
            assert!(matches!(es[0].kind, ResolutionErrorKind::SuperOutsideMethod))
        },
        _ => panic!("expected a resolution error"),
    }
}

#[test]
fn super_without_superclass_is_a_resolution_error() {
    let (_, _, r) = run_script("class A{m(){return super.m();}}");
    match r {
        Err(RunError::Resolution(es)) => {
            assert!(matches!(es[0].kind, ResolutionErrorKind::SuperWithoutSuperclass))
        },
        _ => panic!("expected a resolution error"),
    }
}

#[test]
fn class_extending_itself_is_a_resolution_error() {
    let (_, _, r) = run_script("class A<A{}");
    match r {
        Err(RunError::Resolution(es)) => {
            assert!(matches!(es[0].kind, ResolutionErrorKind::ClassExtendsItself))
        },
        _ => panic!("expected a resolution error"),
    }
}

#[test]
fn self_referential_initializer_is_a_resolution_error() {
    let (_, _, r) = run_script("{ let a = a; }");
    match r {
        Err(RunError::Resolution(es)) => {
            assert!(matches!(es[0].kind, ResolutionErrorKind::SelfReferentialInitializer))
        },
        _ => panic!("expected a resolution error"),
    }
}

#[test]
fn cancellation_is_silent_and_immediate() {
    let mut interp = Interpreter::new();
    let mut host = ScriptedHost::cancelling_after(0);
    let r = interp.run(&mut host, "print 1;", FUEL);
    assert!(matches!(r, Ok(RunOutcome::Cancelled)));
    assert!(interp.output.is_empty());
}

#[test]
fn cancellation_halts_a_running_loop() {
    let mut interp = Interpreter::new();
    // let the run begin, then cancel in the middle of the loop
    let mut host = ScriptedHost::cancelling_after(50);
    let r = interp.run(&mut host, "let i=0; while (i < 1000000) { i = i + 1; } print i;", FUEL);
    assert!(matches!(r, Ok(RunOutcome::Cancelled)));
    // the loop never reached its bound and nothing was reported
    assert!(interp.output.is_empty());
}

#[test]
fn exhaustion_stops_unbounded_loops() {
    let mut interp = Interpreter::new();
    let mut host = ScriptedHost::new();
    let r = interp.run(&mut host, "let i=0; while (true) { i = i + 1; }", 10_000);
    assert!(matches!(r, Ok(RunOutcome::Exhausted)));
}

#[test]
fn formatted_reports_carry_line_and_column() {
    let tokens = yun_lang::scanner::scan_tokens("print y;").unwrap();
    let tok = tokens
        .iter()
        .find(|t| t.lexeme == "y")
        .expect("token for y");
    let line = Interpreter::error_by_token(tok, "Undefined variable");
    assert_eq!(line, "[1:7] Error at 'y': Undefined variable\n");
}
