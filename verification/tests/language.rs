//! End-to-end runs of whole scripts: scan, parse, resolve, execute, then
//! check what was printed.

use yun_lang::host::ScriptedHost;
use yun_lang::interp::{Interpreter, RunError, RunOutcome};

const FUEL: u64 = 1_000_000;

fn run_script(src: &str) -> (Interpreter, ScriptedHost, Result<RunOutcome, RunError>) {
    let mut interp = Interpreter::new();
    let mut host = ScriptedHost::new();
    let r = interp.run(&mut host, src, FUEL);
    (interp, host, r)
}

fn printed(src: &str) -> Vec<String> {
    let (interp, _, r) = run_script(src);
    assert!(matches!(r, Ok(RunOutcome::Finished)), "run did not finish cleanly");
    interp.output
}

#[test]
fn closure_captures_by_reference() {
    let out = printed("let x=1; let f = fn(){ return x; }; x=2; print f();");
    assert_eq!(out, vec!["2".to_string()]);
}

#[test]
fn named_function_sees_later_assignment() {
    let out = printed("let x=1; fn f(){return x;} x=2; print f();");
    assert_eq!(out, vec!["2".to_string()]);
}

#[test]
fn super_targets_immediate_superclass() {
    let out = printed(
        "class A{greet(){return \"A\";}} class B<A{greet(){return super.greet()+\"B\";}} print B().greet();",
    );
    assert_eq!(out, vec!["AB".to_string()]);
}

#[test]
fn super_ignores_runtime_subclass() {
    // C inherits B's greet; the super call inside B still targets A.
    let out = printed(
        "class A{greet(){return \"A\";}} class B<A{greet(){return super.greet()+\"B\";}} class C<B{} print C().greet();",
    );
    assert_eq!(out, vec!["AB".to_string()]);
}

#[test]
fn method_lookup_prefers_most_derived() {
    let out = printed(
        "class A{m(){return 1;}} class B<A{m(){return 2;}} print B().m();",
    );
    assert_eq!(out, vec!["2".to_string()]);
}

#[test]
fn list_index_assignment() {
    let out = printed("let lst=[1,2]; lst[0]=9; print lst;");
    assert_eq!(out, vec!["[9, 2]".to_string()]);
}

#[test]
fn list_out_of_range_read_is_nil() {
    let out = printed("let lst=[1]; print lst[5];");
    assert_eq!(out, vec!["nil".to_string()]);
}

#[test]
fn constructor_returns_instance_despite_return() {
    let out = printed("class C{init(){return 7;}} let c = C(); print c;");
    assert_eq!(out, vec!["C instance".to_string()]);
}

#[test]
fn constructor_runs_init_body() {
    let out = printed(
        "class P{init(){self.n = 41;} bump(){self.n = self.n + 1; return self.n;}} let p = P(); print p.bump();",
    );
    assert_eq!(out, vec!["42".to_string()]);
}

#[test]
fn truthiness_of_zero_and_empties() {
    let out = printed(
        "if (0) { print 1; } else { print 2; }\n\
         if (\"\") { print 3; } else { print 4; }\n\
         if ([]) { print 5; } else { print 6; }\n\
         if ({}) { print 7; } else { print 8; }\n\
         if (nil) { print 9; } else { print 10; }\n\
         if (false) { print 11; } else { print 12; }",
    );
    assert_eq!(
        out,
        vec!["1", "3", "5", "7", "10", "12"]
            .into_iter()
            .map(|s| s.to_string())
            .collect::<Vec<_>>()
    );
}

#[test]
fn arithmetic_precedence() {
    let out = printed("print 1+2*3; print (1+2)*3; print 7/2; print 0-5;");
    assert_eq!(out, vec!["7", "9", "3", "-5"].into_iter().map(|s| s.to_string()).collect::<Vec<_>>());
}

#[test]
fn string_concat_and_compare() {
    let out = printed("print \"a\"+\"b\"; print \"a\"<\"b\"; print \"b\"<=\"a\";");
    assert_eq!(out, vec!["ab", "true", "false"].into_iter().map(|s| s.to_string()).collect::<Vec<_>>());
}

#[test]
fn structural_equality_of_containers() {
    let out = printed(
        "print [1,2]==[1,2]; print [1,2]==[1,3]; print {a:1}=={a:1}; print {a:1}=={a:2};",
    );
    assert_eq!(out, vec!["true", "false", "true", "false"].into_iter().map(|s| s.to_string()).collect::<Vec<_>>());
}

#[test]
fn logical_short_circuit_returns_operand() {
    let out = printed("print 1 and 2; print nil or 5; print nil and 5; print 3 or 4;");
    assert_eq!(out, vec!["2", "5", "nil", "3"].into_iter().map(|s| s.to_string()).collect::<Vec<_>>());
}

#[test]
fn block_scoping_shadows_and_restores() {
    let out = printed("let a=1; { let a=2; print a; } print a;");
    assert_eq!(out, vec!["2", "1"].into_iter().map(|s| s.to_string()).collect::<Vec<_>>());
}

#[test]
fn nested_function_reads_enclosing_scope() {
    let out = printed("fn outer(){ let v=10; fn inner(){ return v; } return inner(); } print outer();");
    assert_eq!(out, vec!["10".to_string()]);
}

#[test]
fn deeply_nested_blocks_resolve_globals() {
    let out = printed("let x=1; { { { print x; } } }");
    assert_eq!(out, vec!["1".to_string()]);
}

#[test]
fn assignment_initializes_a_declared_variable() {
    let out = printed("let x; x = 1; print x;");
    assert_eq!(out, vec!["1".to_string()]);
}

#[test]
fn while_loop_counts() {
    let out = printed("let i=0; while (i<5) { i = i + 1; } print i;");
    assert_eq!(out, vec!["5".to_string()]);
}

#[test]
fn dictionary_get_and_set() {
    let out = printed("let d={w:1}; d.w=5; print d.w; print d.missing;");
    assert_eq!(out, vec!["5", "nil"].into_iter().map(|s| s.to_string()).collect::<Vec<_>>());
}

#[test]
fn list_append_with_plus_shares_the_list() {
    let out = printed("let a=[1]; let b=a; a + 2; print b;");
    assert_eq!(out, vec!["[1, 2]".to_string()]);
}

#[test]
fn print_string_inside_list_is_quoted() {
    let out = printed("print [\"x\", 1];");
    assert_eq!(out, vec!["[\"x\", 1]".to_string()]);
}

#[test]
fn stringify_native() {
    let out = printed("print string(12) + \"!\";");
    assert_eq!(out, vec!["12!".to_string()]);
}

#[test]
fn window_dimensions_answered_by_host() {
    let out = printed("let d = getWindowDimensions(); print d.width; print d.height;");
    assert_eq!(out, vec!["800", "600"].into_iter().map(|s| s.to_string()).collect::<Vec<_>>());
}

#[test]
fn render_sends_payload_to_host() {
    let (_, host, r) = run_script("render([1,2]);");
    assert!(matches!(r, Ok(RunOutcome::Finished)));
    assert_eq!(host.rendered.len(), 1);
}

#[test]
fn exit_with_code_stops_the_run() {
    let (interp, _, r) = run_script("exitWithCode(3); print 1;");
    assert!(matches!(r, Ok(RunOutcome::Exited(3))));
    assert!(interp.output.is_empty());
}

#[test]
fn exit_defaults_to_zero() {
    let (_, _, r) = run_script("exit();");
    assert!(matches!(r, Ok(RunOutcome::Exited(0))));
}

#[test]
fn anonymous_functions_are_values() {
    let out = printed("let twice = fn(f){ return f(f(1)); }; print twice(fn(n){ return n + 3; });");
    assert_eq!(out, vec!["7".to_string()]);
}

#[test]
fn export_executes_inner_binding() {
    let out = printed("export let a = 5; print a;");
    assert_eq!(out, vec!["5".to_string()]);
}

#[test]
fn buffer_pipeline_render_bind_names() {
    let out = printed("buffer b = 1; pipeline p = 2; render r = 3, 4; print b; print p; print r;");
    assert_eq!(out, vec!["1", "2", "[3, 4]"].into_iter().map(|s| s.to_string()).collect::<Vec<_>>());
}

#[test]
fn use_statement_is_a_no_op() {
    let out = printed("use lib; print 1;");
    assert_eq!(out, vec!["1".to_string()]);
}

#[test]
fn fields_shadow_methods() {
    let out = printed(
        "class A{m(){return 1;}} let a=A(); a.m = 9; print a.m;",
    );
    assert_eq!(out, vec!["9".to_string()]);
}

#[test]
fn functions_and_classes_display_by_name() {
    // the first node id the parser hands out goes to the declaration
    let out = printed("fn f(){} print f; class K{} print K;");
    assert_eq!(out, vec!["<function#0 f>".to_string(), "K".to_string()]);
}

#[test]
fn bound_methods_carry_their_instance() {
    let out = printed(
        "class A{init(){self.n=1;} look(){return self.n;}} let a=A(); let m=a.look; print m();",
    );
    assert_eq!(out, vec!["1".to_string()]);
}

#[test]
fn addition_wraps_at_the_numeric_edge() {
    let out = printed("print 9223372036854775807 + 1;");
    assert_eq!(out, vec!["-9223372036854775808".to_string()]);
}

#[test]
fn nested_containers_display_recursively() {
    let out = printed("print [ [1], {k: \"v\"} ];");
    assert_eq!(out, vec!["[[1], {k: \"v\"}]".to_string()]);
}

#[test]
fn key_event_callback_is_registered_and_invocable() {
    let mut interp = Interpreter::new();
    let mut host = ScriptedHost::new();
    // load and run manually so the program is still around for callbacks
    let tokens = yun_lang::scanner::scan_tokens("let hits = 0; regKeyEvent(\"w\", fn(){ hits = hits + 1; print hits; });").unwrap();
    let program = yun_lang::parser::Parser::new(tokens).parse().unwrap();
    interp.reset(program.next_id);
    let mut locals = yun_lang::resolver::Locals::new();
    yun_lang::resolver::Resolver::new().resolve(&program, &mut locals).unwrap();
    interp.locals = locals;
    let r = interp.interpret(&mut host, &program, FUEL);
    assert!(matches!(r, Ok(RunOutcome::Finished)));
    assert_eq!(interp.callbacks.len(), 1);
    interp.invoke_callback(&mut host, &program, "w", FUEL).unwrap();
    interp.invoke_callback(&mut host, &program, "w", FUEL).unwrap();
    assert_eq!(interp.output, vec!["1".to_string(), "2".to_string()]);
}
