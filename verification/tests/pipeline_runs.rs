use host_cli::dispatch::{dispatch, CommandPlan, Subcommand};
use host_cli::errors::{HostErrorKind, UnifiedError};
use host_cli::pipeline::{
    eval_command, fetch_or_info_command, run_repl, run_script, xeval_command, Action, Event,
    Pipeline, Stage, Variant,
};
use host_cli::state::Flags;

fn flags() -> Flags {
    Flags { v8_flags: None, log_debug: false, xeval_replvar: None }
}

fn argv(items: &[&str]) -> Vec<String> {
    items.iter().map(|s| s.to_string()).collect()
}

fn expect_script(a: Action) -> String {
    match a {
        Action::ExecuteScript { source } => source,
        _ => panic!("expected a script-execution action"),
    }
}

fn expect_load(a: Action) -> (String, bool) {
    match a {
        Action::LoadModule { specifier, prefetch } => (specifier, prefetch),
        _ => panic!("expected a module-load action"),
    }
}

fn expect_exit(a: Action) -> (i32, Option<String>) {
    match a {
        Action::Exit { code, diagnostic } => (code, diagnostic),
        _ => panic!("expected a terminal action"),
    }
}

fn assert_silent_success_end(p: &mut Pipeline) {
    let a = p.step(Event::Settled(Ok(())));
    let (code, diagnostic) = expect_exit(a);
    assert_eq!(code, 0);
    assert!(diagnostic.is_none());
    assert!(matches!(p.stage, Stage::Finished));
}

#[test]
fn eval_successful_run_is_silent_and_exits_zero() {
    let mut p = eval_command(flags(), argv(&["deno", "1+1"]));
    let boot = expect_script(p.start());
    assert_eq!(boot, "denoMain()");
    let prep = expect_script(p.step(Event::Ran(Ok(()))));
    assert_eq!(
        prep,
        "async function _topLevelWrapper(){\n        1+1\n      }\n      _topLevelWrapper();\n      "
    );
    let a = p.step(Event::Ran(Ok(())));
    assert!(matches!(a, Action::AwaitCompletion));
    assert_silent_success_end(&mut p);
}

#[test]
fn run_successful_run_follows_imports_and_exits_zero() {
    let mut p = run_script(flags(), argv(&["main.ts"]));
    assert_eq!(expect_script(p.start()), "denoMain()");
    let (specifier, prefetch) = expect_load(p.step(Event::Ran(Ok(()))));
    assert_eq!(specifier, "main.ts");
    assert!(!prefetch);
    assert!(matches!(p.step(Event::Loaded(Ok(()))), Action::AwaitCompletion));
    assert_silent_success_end(&mut p);
}

#[test]
fn fetch_successful_run_prefetches_and_exits_zero() {
    let mut p = fetch_or_info_command(flags(), argv(&["main.ts"]), false);
    assert!(matches!(p.variant, Variant::Fetch));
    assert_eq!(expect_script(p.start()), "denoMain()");
    let (specifier, prefetch) = expect_load(p.step(Event::Ran(Ok(()))));
    assert_eq!(specifier, "main.ts");
    assert!(prefetch);
    assert!(matches!(p.step(Event::Loaded(Ok(()))), Action::AwaitCompletion));
    assert_silent_success_end(&mut p);
}

#[test]
fn info_successful_run_reports_metadata_then_exits_zero() {
    let mut p = fetch_or_info_command(flags(), argv(&["main.ts"]), true);
    assert!(matches!(p.variant, Variant::Info));
    assert_eq!(expect_script(p.start()), "denoMain()");
    let (specifier, prefetch) = expect_load(p.step(Event::Ran(Ok(()))));
    assert_eq!(specifier, "main.ts");
    assert!(prefetch);
    let a = p.step(Event::Loaded(Ok(())));
    match a {
        Action::PrintInfo { specifier } => assert_eq!(specifier, "main.ts"),
        _ => panic!("expected the metadata report action"),
    }
    assert!(matches!(p.step(Event::InfoPrinted), Action::AwaitCompletion));
    assert_silent_success_end(&mut p);
}

#[test]
fn info_metadata_failure_is_soft_and_exit_stays_zero() {
    let mut p = fetch_or_info_command(flags(), argv(&["main.ts"]), true);
    p.start();
    p.step(Event::Ran(Ok(())));
    p.step(Event::Loaded(Ok(())));
    // the metadata lookup failed; the fallback line was printed inline and
    // the pipeline still settles successfully
    assert!(matches!(p.step(Event::InfoPrinted), Action::AwaitCompletion));
    assert_silent_success_end(&mut p);
}

#[test]
fn repl_successful_run_only_bootstraps_then_settles() {
    let mut p = run_repl(flags(), argv(&[]));
    assert_eq!(expect_script(p.start()), "denoMain()");
    assert!(matches!(p.step(Event::Ran(Ok(()))), Action::AwaitCompletion));
    assert_silent_success_end(&mut p);
}

#[test]
fn xeval_installs_callback_before_bootstrap_and_exits_zero() {
    let f = Flags { v8_flags: None, log_debug: false, xeval_replvar: Some("$".to_string()) };
    let mut p = xeval_command(f, argv(&["deno", "console.log($)"]));
    let install = expect_script(p.start());
    assert_eq!(
        install,
        "window._xevalWrapper = async function ($){\n        console.log($)\n      }"
    );
    assert_eq!(expect_script(p.step(Event::Ran(Ok(())))), "denoMain()");
    assert!(matches!(p.step(Event::Ran(Ok(()))), Action::AwaitCompletion));
    assert_silent_success_end(&mut p);
}

#[test]
fn eval_thrown_error_exits_one_with_script_rendering() {
    let mut p = eval_command(flags(), argv(&["deno", "throw new Error('x')"]));
    p.start();
    p.step(Event::Ran(Ok(())));
    let err = UnifiedError::ScriptError {
        message: "Error: x".to_string(),
        stack: vec!["eval:1:7".to_string()],
    };
    let (code, diagnostic) = expect_exit(p.step(Event::Ran(Err(err))));
    assert_eq!(code, 1);
    let d = diagnostic.expect("a failure writes a diagnostic");
    assert_eq!(d, "Uncaught Error: x\n    at eval:1:7\n");
    assert!(d.starts_with("Uncaught "));
    assert!(!d.starts_with("bootstrap error"));
    assert!(!d.starts_with("resolution error"));
    assert!(!d.starts_with("engine error"));
}

#[test]
fn run_unresolvable_import_exits_one_before_execution() {
    let mut p = run_script(flags(), argv(&["main.ts"]));
    p.start();
    p.step(Event::Ran(Ok(())));
    let err = UnifiedError::HostError {
        kind: HostErrorKind::Resolution,
        message: "cannot resolve \"./missing.ts\"".to_string(),
    };
    let (code, diagnostic) = expect_exit(p.step(Event::Loaded(Err(err))));
    assert_eq!(code, 1);
    assert_eq!(
        diagnostic.unwrap(),
        "resolution error: cannot resolve \"./missing.ts\"\n"
    );
    // the pipeline is finished: no execution or settlement action follows
    assert!(matches!(p.stage, Stage::Finished));
}

#[test]
fn bootstrap_failure_exits_one_with_host_rendering() {
    let mut p = run_repl(flags(), argv(&[]));
    p.start();
    let err = UnifiedError::HostError {
        kind: HostErrorKind::Bootstrap,
        message: "runtime init failed".to_string(),
    };
    let (code, diagnostic) = expect_exit(p.step(Event::Ran(Err(err))));
    assert_eq!(code, 1);
    assert_eq!(diagnostic.unwrap(), "bootstrap error: runtime init failed\n");
}

#[test]
fn eval_with_import_syntax_never_loads_modules() {
    let mut p = eval_command(flags(), argv(&["deno", "import 'other.ts';"]));
    let mut actions = Vec::new();
    actions.push(p.start());
    actions.push(p.step(Event::Ran(Ok(()))));
    actions.push(p.step(Event::Ran(Ok(()))));
    actions.push(p.step(Event::Settled(Ok(()))));
    for a in &actions {
        assert!(!matches!(a, Action::LoadModule { .. }));
    }
    match &actions[1] {
        Action::ExecuteScript { source } => assert!(source.contains("import 'other.ts';")),
        _ => panic!("expected the wrapped program text"),
    }
}

#[test]
fn xeval_never_loads_modules() {
    let f = Flags { v8_flags: None, log_debug: false, xeval_replvar: Some("line".to_string()) };
    let mut p = xeval_command(f, argv(&["deno", "import 'other.ts';"]));
    let mut actions = Vec::new();
    actions.push(p.start());
    actions.push(p.step(Event::Ran(Ok(()))));
    actions.push(p.step(Event::Ran(Ok(()))));
    actions.push(p.step(Event::Settled(Ok(()))));
    for a in &actions {
        assert!(!matches!(a, Action::LoadModule { .. }));
    }
}

#[test]
fn dispatch_table_maps_each_subcommand_once() {
    assert_eq!(dispatch(&Subcommand::Eval), CommandPlan::RunPipeline(Variant::Eval));
    assert_eq!(dispatch(&Subcommand::Fetch), CommandPlan::RunPipeline(Variant::Fetch));
    assert_eq!(dispatch(&Subcommand::Info), CommandPlan::RunPipeline(Variant::Info));
    assert_eq!(dispatch(&Subcommand::Repl), CommandPlan::RunPipeline(Variant::Repl));
    assert_eq!(dispatch(&Subcommand::Run), CommandPlan::RunPipeline(Variant::Run));
    assert_eq!(dispatch(&Subcommand::Types), CommandPlan::PrintTypes);
    assert_eq!(dispatch(&Subcommand::Version), CommandPlan::RunPipeline(Variant::Repl));
    assert_eq!(dispatch(&Subcommand::Xeval), CommandPlan::RunPipeline(Variant::Xeval));
}
