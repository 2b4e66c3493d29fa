use run_pipeline::exit::{exit_for_error, exit_with_message, strip_error_prefix, CliError};
use run_pipeline::factory::{FactoryStep, ServiceFactory, ServiceKind};
use run_pipeline::permission::{
    answer_for_normalized, interpret_answer, GatewayError, PermissionGateway, PromptPolicy,
    PromptResponse,
};
use run_pipeline::pipeline::{
    check_permission_before_script, eval_command, exit_code, into_outcome, is_npm_scheme,
    maybe_npm_install, run_from_stdin, run_script, Action, EvalFlags, Event, ExecutionOutcome,
    Flags, NodeModulesDirMode, ResolvedModule, Stage, SubcommandResult,
};
use run_pipeline::worker::{eval_source, ExecutionMode, WorkerError, WorkerHandle, WorkerState};

fn flags(mode: Option<NodeModulesDirMode>) -> Flags {
    Flags { has_permission: false, has_permission_in_argv: false, node_modules_dir: mode }
}

fn module(spec: &str, scheme: &str) -> ResolvedModule {
    ResolvedModule { specifier: spec.to_string(), scheme: scheme.to_string() }
}

fn generic(msg: &str) -> CliError {
    CliError::Generic { message: msg.to_string() }
}

#[test]
fn eval_print_wraps_expression_and_exits_zero() {
    let f = flags(None);
    let (mut inv, a) = eval_command(&f, EvalFlags { code: "1+1".to_string(), print: true });
    assert!(matches!(a, Action::ResolveMainModule));
    let a = inv.step(Event::Resolved(Ok(module("file:///$deno$eval.mts", "file"))));
    match a {
        Action::RegisterText(t) => assert_eq!(t, "console.log(1+1)"),
        other => panic!("unexpected {:?}", other),
    }
    let a = inv.step(Event::Acknowledged);
    assert!(matches!(a, Action::CreateWorker(ExecutionMode::Eval)));
    let a = inv.step(Event::WorkerCreated(Ok(())));
    assert!(matches!(a, Action::RunWorker));
    let a = inv.step(Event::WorkerFinished(Ok(0)));
    assert!(matches!(a, Action::Exit));
    let o = inv.outcome().unwrap();
    assert!(matches!(o, ExecutionOutcome::Code(0)));
    assert_eq!(exit_code(o), 0);
}

#[test]
fn eval_without_print_registers_raw_code() {
    let f = flags(None);
    let (mut inv, _) = eval_command(&f, EvalFlags { code: "let x = 1;".to_string(), print: false });
    match inv.step(Event::Resolved(Ok(module("file:///$deno$eval.mts", "file")))) {
        Action::RegisterText(t) => assert_eq!(t, "let x = 1;"),
        other => panic!("unexpected {:?}", other),
    }
}

#[test]
fn stdin_empty_input_registers_empty_module_and_exits_zero() {
    let f = flags(None);
    let (mut inv, _) = run_from_stdin(&f);
    let a = inv.step(Event::Resolved(Ok(module("file:///$deno$stdin.mts", "file"))));
    assert!(matches!(a, Action::ReadStdin));
    match inv.step(Event::InputRead(Ok(Vec::new()))) {
        Action::RegisterBytes(b) => assert_eq!(b.len(), 0),
        other => panic!("unexpected {:?}", other),
    }
    let a = inv.step(Event::Acknowledged);
    assert!(matches!(a, Action::CreateWorker(ExecutionMode::Run)));
    assert!(matches!(inv.step(Event::WorkerCreated(Ok(()))), Action::RunWorker));
    assert!(matches!(inv.step(Event::WorkerFinished(Ok(0))), Action::Exit));
    assert_eq!(exit_code(inv.outcome().unwrap()), 0);
}

#[test]
fn install_failure_aborts_before_worker_creation() {
    let f = flags(Some(NodeModulesDirMode::Auto));
    let (mut inv, _) = run_script(ExecutionMode::Run, &f, "main.ts".to_string());
    let a = inv.step(Event::Resolved(Ok(module("file:///main.ts", "file"))));
    assert!(matches!(a, Action::EnsureInstalled));
    let a = inv.step(Event::Installed(Err(CliError::DependencyIntegrity {
        message: "integrity check failed".to_string(),
    })));
    assert!(matches!(a, Action::Exit));
    assert_eq!(inv.stage(), Stage::Done);
    let o = inv.outcome().unwrap();
    assert_eq!(exit_code(o), 10);
    match o {
        ExecutionOutcome::Failed(e) => {
            let r = exit_for_error(e);
            assert_eq!(r.code, 10);
            assert_eq!(r.text, "error: integrity check failed");
        }
        other => panic!("unexpected {:?}", other),
    }
}

#[test]
fn install_generic_failure_exits_one_without_worker() {
    let f = flags(Some(NodeModulesDirMode::Auto));
    let (mut inv, _) = run_script(ExecutionMode::Run, &f, "main.ts".to_string());
    inv.step(Event::Resolved(Ok(module("file:///main.ts", "file"))));
    let a = inv.step(Event::Installed(Err(generic("network down"))));
    assert!(matches!(a, Action::Exit));
    assert_eq!(exit_code(inv.outcome().unwrap()), 1);
}

#[test]
fn uncaught_script_error_exits_one_with_its_text() {
    let f = flags(None);
    let (mut inv, _) = run_script(ExecutionMode::Run, &f, "main.ts".to_string());
    assert!(matches!(
        inv.step(Event::Resolved(Ok(module("file:///main.ts", "file")))),
        Action::CreateWorker(ExecutionMode::Run)
    ));
    inv.step(Event::WorkerCreated(Ok(())));
    let a = inv.step(Event::WorkerFinished(Err(CliError::ScriptRuntime {
        message: "Uncaught Error: boom".to_string(),
    })));
    assert!(matches!(a, Action::Exit));
    let o = inv.outcome().unwrap();
    assert_eq!(exit_code(o), 1);
    match o {
        ExecutionOutcome::Failed(e) => {
            let r = exit_for_error(e);
            assert_eq!(r.code, 1);
            assert!(r.text.contains("Uncaught Error: boom"));
        }
        other => panic!("unexpected {:?}", other),
    }
}

#[test]
fn npm_entry_sets_user_agent_then_installs_in_auto_mode() {
    let f = flags(Some(NodeModulesDirMode::Auto));
    let (mut inv, _) = run_script(ExecutionMode::Run, &f, "npm:cowsay".to_string());
    let a = inv.step(Event::Resolved(Ok(module("npm:cowsay", "npm"))));
    assert!(matches!(a, Action::SetNpmUserAgent));
    assert!(matches!(inv.step(Event::Acknowledged), Action::EnsureInstalled));
    assert!(matches!(
        inv.step(Event::Installed(Ok(()))),
        Action::CreateWorker(ExecutionMode::Run)
    ));
    assert_eq!(inv.module().unwrap().specifier, "npm:cowsay");
}

#[test]
fn manual_mode_never_installs() {
    let f = flags(Some(NodeModulesDirMode::Manual));
    let (mut inv, _) = run_script(ExecutionMode::Run, &f, "main.ts".to_string());
    let a = inv.step(Event::Resolved(Ok(module("file:///main.ts", "file"))));
    assert!(matches!(a, Action::CreateWorker(ExecutionMode::Run)));
    assert!(!maybe_npm_install(&f));
    assert!(maybe_npm_install(&flags(Some(NodeModulesDirMode::Auto))));
    assert!(!maybe_npm_install(&flags(None)));
    assert!(!maybe_npm_install(&flags(Some(NodeModulesDirMode::Disabled))));
}

#[test]
fn resolution_failure_ends_invocation() {
    let f = flags(None);
    let (mut inv, _) = run_from_stdin(&f);
    assert!(!inv.accepts(&Event::Acknowledged));
    assert!(inv.accepts(&Event::Resolved(Err(generic("x")))));
    let a = inv.step(Event::Resolved(Err(generic("module not found"))));
    assert!(matches!(a, Action::Exit));
    assert!(!inv.accepts(&Event::Acknowledged));
    assert!(inv.module().is_none());
    assert_eq!(exit_code(inv.outcome().unwrap()), 1);
}

#[test]
fn interactive_answers() {
    assert_eq!(interpret_answer(None), PromptResponse::Deny);
    assert_eq!(interpret_answer(Some("y\n")), PromptResponse::Allow);
    assert_eq!(interpret_answer(Some("Yes\n")), PromptResponse::Allow);
    assert_eq!(interpret_answer(Some("  YES  ")), PromptResponse::Allow);
    assert_eq!(interpret_answer(Some("n\n")), PromptResponse::Deny);
    assert_eq!(interpret_answer(Some("")), PromptResponse::Deny);
    assert_eq!(interpret_answer(Some("yess")), PromptResponse::Deny);
    assert_eq!(answer_for_normalized("y"), PromptResponse::Allow);
    assert_eq!(answer_for_normalized("yes"), PromptResponse::Allow);
    assert_eq!(answer_for_normalized("Yes"), PromptResponse::Deny);
    assert_eq!(answer_for_normalized("no"), PromptResponse::Deny);
}

#[test]
fn gateway_is_write_once() {
    let mut g = PermissionGateway::new();
    assert_eq!(g.active_policy(), PromptPolicy::Interactive);
    assert!(g.needs_input());
    assert_eq!(g.prompt(None), PromptResponse::Deny);
    assert_eq!(g.install(PromptPolicy::AllowAll), Ok(()));
    assert_eq!(g.install(PromptPolicy::DenyAll), Err(GatewayError::AlreadyInstalled));
    assert_eq!(g.active_policy(), PromptPolicy::AllowAll);
    assert!(!g.needs_input());
    assert_eq!(g.prompt(None), PromptResponse::Allow);
    let mut d = PermissionGateway::new();
    assert_eq!(d.install(PromptPolicy::DenyAll), Ok(()));
    assert_eq!(d.prompt(Some("yes")), PromptResponse::Deny);
}

#[test]
fn factory_builds_each_service_once() {
    let mut f = ServiceFactory::new();
    assert_eq!(f.get(ServiceKind::WorkerBuilder), FactoryStep::Build);
    assert!(f.store(ServiceKind::WorkerBuilder, Err(generic("no config"))).is_err());
    assert!(!f.is_built(ServiceKind::WorkerBuilder));
    assert_eq!(f.store(ServiceKind::WorkerBuilder, Ok(7)).unwrap(), 7);
    assert_eq!(f.get(ServiceKind::WorkerBuilder), FactoryStep::Cached(7));
    assert_eq!(f.get(ServiceKind::WorkerBuilder), FactoryStep::Cached(7));
    assert_eq!(f.get(ServiceKind::SourceCache), FactoryStep::Build);
    assert!(f.is_built(ServiceKind::WorkerBuilder));
}

#[test]
fn worker_runs_once() {
    let mut w = WorkerHandle::create(ExecutionMode::Run);
    assert_eq!(w.state(), WorkerState::Created);
    assert_eq!(w.finish(Some(0)), Err(WorkerError::NotRunning));
    assert_eq!(w.run(), Ok(()));
    assert_eq!(w.run(), Err(WorkerError::AlreadyStarted));
    assert_eq!(w.finish(Some(3)), Ok(()));
    assert_eq!(w.state(), WorkerState::Completed(3));
    assert_eq!(w.run(), Err(WorkerError::AlreadyStarted));
    assert_eq!(w.state(), WorkerState::Completed(3));
    let mut v = WorkerHandle::create(ExecutionMode::Eval);
    assert_eq!(v.mode(), ExecutionMode::Eval);
    v.run().unwrap();
    assert_eq!(v.finish(None), Ok(()));
    assert_eq!(v.state(), WorkerState::Faulted);
    assert_eq!(v.run(), Err(WorkerError::AlreadyStarted));
}

#[test]
fn classifier_rows() {
    let v = exit_for_error(&CliError::Usage { display_version: true, message: "deno 2.0.0".to_string() });
    assert_eq!((v.text.as_str(), v.code), ("deno 2.0.0", 0));
    let u = exit_for_error(&CliError::Usage { display_version: false, message: "bad flag".to_string() });
    assert_eq!((u.text.as_str(), u.code), ("error: bad flag", 2));
    let g = exit_for_error(&generic("error: error: disk full"));
    assert_eq!((g.text.as_str(), g.code), ("error: disk full", 1));
    let s = exit_for_error(&CliError::ScriptRuntime { message: "Uncaught boom".to_string() });
    assert_eq!((s.text.as_str(), s.code), ("error: Uncaught boom", 1));
}

#[test]
fn message_prefix_handling() {
    assert_eq!(strip_error_prefix("error: error: x"), "x");
    assert_eq!(strip_error_prefix("error:x"), "error:x");
    assert_eq!(strip_error_prefix(""), "");
    assert_eq!(strip_error_prefix("an error: y"), "an error: y");
    let r = exit_with_message("error: oops", 5);
    assert_eq!(r.text, "error: oops");
    assert_eq!(r.code, 5);
}

#[test]
fn small_decisions() {
    let warn = Flags { has_permission: false, has_permission_in_argv: true, node_modules_dir: None };
    assert!(check_permission_before_script(&warn));
    let ok = Flags { has_permission: true, has_permission_in_argv: true, node_modules_dir: None };
    assert!(!check_permission_before_script(&ok));
    assert!(!check_permission_before_script(&flags(None)));
    assert!(is_npm_scheme("npm"));
    assert!(!is_npm_scheme("jsr"));
    assert!(!is_npm_scheme("npmx"));
    assert_eq!(eval_source("1+1", true), "console.log(1+1)");
    assert_eq!(eval_source("1+1", false), "1+1");
    assert!(matches!(into_outcome(Ok(SubcommandResult::Succeeded)), ExecutionOutcome::Code(0)));
    assert!(matches!(
        into_outcome(Ok(SubcommandResult::SucceededWithCode(4))),
        ExecutionOutcome::Code(4)
    ));
    let o = into_outcome(Err(CliError::DependencyIntegrity { message: "m".to_string() }));
    assert_eq!(exit_code(&o), 10);
}

#[test]
fn default_engine_flags() {
    assert_eq!(run_pipeline::pipeline::default_v8_flags(true), vec!["--max-old-space-size=3072".to_string()]);
    assert_eq!(
        run_pipeline::pipeline::default_v8_flags(false),
        vec!["--no-harmony-import-assertions".to_string()]
    );
}
