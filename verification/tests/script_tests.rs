use cereal::command::Effect;
use cereal::command::EffectResult;
use cereal::command::ExecutionContext;
use cereal::commands::IfCommand;
use cereal::vm::StepRes;
use cereal::vm::VM;

/// Drives the machine's step loop until it finishes or stops; effects are
/// not expected here.
fn run_to_end(vm: &mut VM) -> Result<(), String> {
    loop {
        match vm.step() {
            Ok(StepRes::Progress) => continue,
            Ok(StepRes::DoneAll) => return Ok(()),
            Ok(StepRes::Paused(_)) => panic!("unexpected effect requested"),
            Ok(StepRes::Stopped(_)) => return Ok(()),
            Err(e) => return Err(e),
        }
    }
}

/// Drives the step loop until an effect is requested, returning it; the
/// machine stays paused.
fn run_to_effect(vm: &mut VM) -> Effect {
    loop {
        match vm.step() {
            Ok(StepRes::Progress) => continue,
            Ok(StepRes::Paused(e)) => return e,
            Ok(StepRes::DoneAll) => panic!("run finished without an effect"),
            Ok(StepRes::Stopped(m)) => panic!("run aborted: {}", m),
            Err(e) => panic!("run failed: {}", e),
        }
    }
}

fn load_and_run(script: &str) -> (VM, Result<(), String>) {
    let mut vm = VM::new();
    vm.load_string(script).expect("script should load");
    vm.reset_run();
    let r = run_to_end(&mut vm);
    (vm, r)
}

#[test]
fn if_is_true_executes_body() {
    let (vm, r) = load_and_run("IF \"a\" IS \"a\"\nPRINT body\nENDIF\nPRINT after");
    assert!(r.is_ok());
    assert_eq!(vm.output_lines(), vec!["body".to_string(), "after".to_string()]);
}

#[test]
fn if_is_false_skips_body() {
    let (vm, r) = load_and_run("IF \"a\" IS \"b\"\nPRINT body\nENDIF\nPRINT after");
    assert!(r.is_ok());
    assert_eq!(vm.output_lines(), vec!["after".to_string()]);
}

#[test]
fn if_not_and_contains_operators() {
    let (vm, r) = load_and_run("IF a NOT b\nPRINT one\nENDIF\nIF abc CONTAINS b\nPRINT two\nENDIF\nIF abc NOTCONTAINS z\nPRINT three\nENDIF");
    assert!(r.is_ok());
    assert_eq!(
        vm.output_lines(),
        vec!["one".to_string(), "two".to_string(), "three".to_string()]
    );
}

#[test]
fn def_then_print_outputs_value() {
    let (vm, r) = load_and_run("DEF x 5\nPRINT $x");
    assert!(r.is_ok());
    assert_eq!(vm.output_lines(), vec!["5".to_string()]);
}

#[test]
fn mov_then_eq_sets_true() {
    let (vm, r) = load_and_run("MOV x 5\nEQ $x 5");
    assert!(r.is_ok());
    assert_eq!(vm.get_variable("eq_result"), Some("TRUE".to_string()));
}

#[test]
fn mov_then_neq_sets_false() {
    let (vm, r) = load_and_run("MOV x 5\nNEQ $x 5");
    assert!(r.is_ok());
    assert_eq!(vm.get_variable("eq_result"), Some("FALSE".to_string()));
}

#[test]
fn macro_binds_registers_before_library_call() {
    let mut vm = VM::new();
    vm.load_string("!writef out.txt hello").expect("load");
    vm.reset_run();
    let eff = run_to_effect(&mut vm);
    // The macro arguments were moved into the registers first.
    assert_eq!(vm.get_variable("r0"), Some("out.txt".to_string()));
    assert_eq!(vm.get_variable("r1"), Some("hello".to_string()));
    match eff {
        Effect::WriteFile { filename, data } => {
            assert_eq!(filename, "out.txt");
            assert_eq!(data, "hello");
        },
        _ => panic!("expected a file write"),
    }
    vm.resume(EffectResult::WriteFile).expect("resume");
    assert!(run_to_end(&mut vm).is_ok());
}

#[test]
fn macro_with_unbound_library_reports_it() {
    let mut vm = VM::new();
    vm.load_string("!greet World").expect("load");
    vm.reset_run();
    let r = run_to_end(&mut vm);
    assert_eq!(r.unwrap_err(), "Library 'greet' not found");
    // The macro argument still reached register r0 first.
    assert_eq!(vm.get_variable("r0"), Some("World".to_string()));
}

#[test]
fn function_call_prints_once() {
    let (vm, r) = load_and_run("FN adder DO\nPRINT hi\nENDFN\nCALL adder");
    assert!(r.is_ok());
    assert_eq!(vm.output_lines(), vec!["hi".to_string()]);
}

#[test]
fn call_of_missing_function_halts() {
    let mut vm = VM::new();
    vm.load_string("CALL missing").expect("load");
    vm.reset_run();
    let r = run_to_end(&mut vm);
    assert_eq!(r.unwrap_err(), "Function 'missing' not found");
}

#[test]
fn unclosed_function_fails_to_load() {
    let mut vm = VM::new();
    let r = vm.load_string("FN f DO\nPRINT x");
    assert_eq!(r.unwrap_err(), "Unclosed function definition");
}

#[test]
fn stray_endfn_fails_to_load() {
    let mut vm = VM::new();
    let r = vm.load_string("PRINT a\nENDFN");
    assert_eq!(r.unwrap_err(), "ENDFN without matching FN");
}

#[test]
fn comment_only_script_runs_with_no_output() {
    let (vm, r) = load_and_run("// one\n-- two\n\n   // three");
    assert!(r.is_ok());
    assert!(vm.output_lines().is_empty());
    assert!(vm.get_variable("x").is_none());
}

#[test]
fn print_of_missing_variable_is_an_error() {
    let mut vm = VM::new();
    vm.load_string("PRINT $x").expect("load");
    vm.reset_run();
    let r = run_to_end(&mut vm);
    assert_eq!(r.unwrap_err(), "Variable x not found");
}

#[test]
fn expansion_rewrites_inside_longer_names() {
    // The expansion is a literal find-and-replace with no regard to token
    // boundaries: a variable named `a` also rewrites inside `$ab`.
    let (vm, r) = load_and_run("DEF a 1\nDEF out $ab\nEQ $out 1b");
    assert!(r.is_ok());
    assert_eq!(vm.get_variable("eq_result"), Some("TRUE".to_string()));
}

#[test]
fn abort_stops_the_run_on_purpose() {
    let mut vm = VM::new();
    vm.load_string("PRINT before\nABORT bye now\nPRINT after").expect("load");
    vm.reset_run();
    let mut aborted = None;
    loop {
        match vm.step() {
            Ok(StepRes::Progress) => continue,
            Ok(StepRes::Stopped(m)) => {
                aborted = Some(m);
                break;
            },
            Ok(StepRes::DoneAll) => break,
            Ok(StepRes::Paused(_)) => panic!("unexpected effect"),
            Err(e) => panic!("unexpected error: {}", e),
        }
    }
    assert_eq!(aborted, Some("bye now".to_string()));
    // Nothing after the abort ran.
    assert_eq!(vm.output_lines(), vec!["before".to_string()]);
}

#[test]
fn exec_round_trip_sets_conventional_variables() {
    let mut vm = VM::new();
    vm.load_string("EXEC echo hi").expect("load");
    vm.reset_run();
    let eff = run_to_effect(&mut vm);
    match eff {
        Effect::Shell { cmd } => assert_eq!(cmd, "echo hi"),
        _ => panic!("expected a shell run"),
    }
    vm.resume(EffectResult::Shell {
        spawn_error: None,
        stdout: "hi\n".to_string(),
        success: true,
        status: "exit status: 0".to_string(),
    })
    .expect("resume");
    assert!(run_to_end(&mut vm).is_ok());
    assert_eq!(vm.get_variable("exec_stdout"), Some("hi\n".to_string()));
    assert_eq!(vm.get_variable("exec_status"), Some("exit status: 0".to_string()));
}

#[test]
fn exec_failure_halts_with_exit_code() {
    let mut vm = VM::new();
    vm.load_string("EXEC false").expect("load");
    vm.reset_run();
    let _ = run_to_effect(&mut vm);
    let r = vm.resume(EffectResult::Shell {
        spawn_error: None,
        stdout: String::new(),
        success: false,
        status: "exit status: 1".to_string(),
    });
    assert_eq!(r.unwrap_err(), "Command failed with exit code: exit status: 1");
}

#[test]
fn input_trims_and_binds_the_line() {
    let mut vm = VM::new();
    vm.load_string("INPUT name").expect("load");
    vm.reset_run();
    match run_to_effect(&mut vm) {
        Effect::ReadLine { var } => assert_eq!(var, "name"),
        _ => panic!("expected a read"),
    }
    vm.resume(EffectResult::ReadLine { line: "  Ada \n".to_string() }).expect("resume");
    assert!(run_to_end(&mut vm).is_ok());
    assert_eq!(vm.get_variable("name"), Some("Ada".to_string()));
}

#[test]
fn httpget_round_trip_binds_body() {
    let mut vm = VM::new();
    vm.load_string("!httpget https://example.com").expect("load");
    vm.reset_run();
    match run_to_effect(&mut vm) {
        Effect::HttpGet { url } => assert_eq!(url, "https://example.com"),
        _ => panic!("expected a fetch"),
    }
    vm.resume(EffectResult::HttpGet { body: "<html></html>".to_string() }).expect("resume");
    assert!(run_to_end(&mut vm).is_ok());
    assert_eq!(vm.get_variable("http_get_body"), Some("<html></html>".to_string()));
}

#[test]
fn git_without_operands_is_an_error() {
    let mut vm = VM::new();
    vm.load_string("LIBCALL git").expect("load");
    vm.reset_run();
    let r = run_to_end(&mut vm);
    assert_eq!(r.unwrap_err(), "Git command or arguments cannot be empty");
}

#[test]
fn writef_without_data_is_an_error() {
    let mut vm = VM::new();
    vm.load_string("MOV r0 out.txt\nLIBCALL writef").expect("load");
    vm.reset_run();
    let r = run_to_end(&mut vm);
    assert_eq!(r.unwrap_err(), "Filename or data cannot be empty");
}

#[test]
fn unknown_operator_is_a_runtime_error() {
    let cmd = IfCommand::new("b".to_string(), "a".to_string(), "EQUALS".to_string());
    let mut ctx = ExecutionContext::new();
    assert_eq!(cmd.execute(&mut ctx).unwrap_err(), "Unknown operator: EQUALS");
}

#[test]
fn macro_with_many_arguments_counts_registers_in_decimal() {
    let mut vm = VM::new();
    vm.load_string("!nowhere a0 a1 a2 a3 a4 a5 a6 a7 a8 a9 a10").expect("load");
    vm.reset_run();
    let r = run_to_end(&mut vm);
    assert_eq!(r.unwrap_err(), "Library 'nowhere' not found");
    assert_eq!(vm.get_variable("r10"), Some("a10".to_string()));
    assert_eq!(vm.get_variable("r9"), Some("a9".to_string()));
}

#[test]
fn redefining_a_variable_overwrites_it() {
    let (vm, r) = load_and_run("DEF x one\nDEF x two\nPRINT $x");
    assert!(r.is_ok());
    assert_eq!(vm.output_lines(), vec!["two".to_string()]);
}

#[test]
fn eq_with_missing_variable_compares_empty() {
    let (vm, r) = load_and_run("EQ $nope x");
    assert!(r.is_ok());
    assert_eq!(vm.get_variable("eq_result"), Some("FALSE".to_string()));
}

#[test]
fn function_side_effects_are_visible_to_the_caller() {
    let (vm, r) = load_and_run("FN setx DO\nDEF x inner\nENDFN\nCALL setx\nPRINT $x");
    assert!(r.is_ok());
    assert_eq!(vm.output_lines(), vec!["inner".to_string()]);
}
