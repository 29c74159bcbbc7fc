//! Property-style checks of the resolver/environment agreement: for
//! generated nestings of blocks and functions, the value a reference
//! reads is always the innermost declaration visible at the use site.

use yun_lang::host::ScriptedHost;
use yun_lang::interp::{Interpreter, RunOutcome};

const FUEL: u64 = 1_000_000;

fn run_output(src: &str) -> Vec<String> {
    let mut interp = Interpreter::new();
    let mut host = ScriptedHost::new();
    let r = interp.run(&mut host, src, FUEL);
    assert!(matches!(r, Ok(RunOutcome::Finished)), "script failed: {}", src);
    interp.output
}

fn next(seed: &mut u64) -> u64 {
    *seed = seed
        .wrapping_mul(6364136223846793005)
        .wrapping_add(1442695040888963407);
    *seed >> 33
}

#[test]
fn shadowing_in_generated_block_nestings() {
    let mut seed = 0x5eed_u64;
    for _trial in 0..40 {
        let depth = 1 + (next(&mut seed) % 6) as usize;
        let mut src = String::from("let x = 0;\n");
        let mut innermost_decl = 0usize;
        for level in 1..=depth {
            src.push('{');
            src.push('\n');
            if next(&mut seed) % 2 == 0 {
                src.push_str(&format!("let x = {};\n", level));
                innermost_decl = level;
            }
        }
        src.push_str("print x;\n");
        for _ in 0..depth {
            src.push('}');
        }
        let out = run_output(&src);
        assert_eq!(out, vec![innermost_decl.to_string()], "source was:\n{}", src);
    }
}

#[test]
fn closures_in_generated_nestings_read_their_declaration_site() {
    let mut seed = 0xfeed_u64;
    for _trial in 0..40 {
        let depth = 1 + (next(&mut seed) % 5) as usize;
        let mut src = String::from("let x = 0;\n");
        let mut innermost_decl = 0usize;
        for level in 1..=depth {
            src.push('{');
            src.push('\n');
            if next(&mut seed) % 2 == 0 {
                src.push_str(&format!("let x = {};\n", level));
                innermost_decl = level;
            }
        }
        // the function closes over the scope where it is written; the
        // call happens in the same scope, so it must read the innermost
        // declaration visible there
        src.push_str("fn probe() { return x; }\nprint probe();\n");
        for _ in 0..depth {
            src.push('}');
        }
        let out = run_output(&src);
        assert_eq!(out, vec![innermost_decl.to_string()], "source was:\n{}", src);
    }
}

#[test]
fn assignments_write_the_frame_the_resolver_chose() {
    let mut seed = 0xabc_u64;
    for _trial in 0..30 {
        let depth = 1 + (next(&mut seed) % 4) as usize;
        let redeclare_at = if next(&mut seed) % 2 == 0 { Some(1 + (next(&mut seed) % depth as u64) as usize) } else { None };
        let mut src = String::from("let x = 100;\n");
        for level in 1..=depth {
            src.push('{');
            src.push('\n');
            if redeclare_at == Some(level) {
                src.push_str("let x = 200;\n");
            }
        }
        src.push_str("x = 7;\nprint x;\n");
        for _ in 0..depth {
            src.push('}');
        }
        src.push_str("print x;\n");
        // the write lands on the innermost declaration: the outer one is
        // untouched exactly when an inner declaration shadowed it
        let expected_outer = if redeclare_at.is_some() { "100" } else { "7" };
        let out = run_output(&src);
        assert_eq!(out, vec!["7".to_string(), expected_outer.to_string()], "source was:\n{}", src);
    }
}
