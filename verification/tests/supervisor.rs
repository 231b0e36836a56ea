use mcrw::registry::{HookKind, TriggerRegistry};
use mcrw::supervisor::{
    check_shutdown, classify_exit, hook_kind_for, hook_result, reported_code, run_hooks,
    ExitOutcome, WaitOutcome,
};
use mlua::{Function, Lua, RegistryKey};

fn hook(lua: &Lua, source: &str) -> RegistryKey {
    let func: Function = lua.load(source).eval().unwrap();
    lua.create_registry_value(func).unwrap()
}

fn ran(lua: &Lua) -> Vec<String> {
    lua.globals().get("ran").unwrap()
}

fn registry_with_hooks(lua: &Lua) -> TriggerRegistry {
    lua.load("ran = {}").exec().unwrap();
    let mut registry = TriggerRegistry::new();
    registry.register_stop_hook(hook(lua, "function() table.insert(ran, 'stop 1') end"));
    registry.register_crash_hook(hook(lua, "function() table.insert(ran, 'crash 1') end"));
    registry.register_stop_hook(hook(lua, "function() table.insert(ran, 'stop 2') end"));
    registry.register_crash_hook(hook(lua, "function() table.insert(ran, 'crash 2') end"));
    registry.register_stop_hook(hook(lua, "function() table.insert(ran, 'stop 3') end"));
    registry
}

#[test]
fn graceful_exit_runs_every_stop_hook_once_in_order() {
    let lua = Lua::new();
    let registry = registry_with_hooks(&lua);
    let report = check_shutdown(&lua, WaitOutcome::Exited { code: Some(0) }, &registry).unwrap();
    assert!(matches!(report.outcome, ExitOutcome::GracefulStop));
    assert_eq!(report.hooks_run, 3);
    assert_eq!(ran(&lua), vec!["stop 1", "stop 2", "stop 3"]);
}

#[test]
fn nonzero_exit_runs_crash_hooks_and_no_stop_hook() {
    let lua = Lua::new();
    let registry = registry_with_hooks(&lua);
    let report = check_shutdown(&lua, WaitOutcome::Exited { code: Some(1) }, &registry).unwrap();
    assert!(matches!(report.outcome, ExitOutcome::Crash { code: Some(1) }));
    assert_eq!(report.hooks_run, 2);
    assert_eq!(ran(&lua), vec!["crash 1", "crash 2"]);
}

#[test]
fn failed_wait_runs_crash_hooks() {
    let lua = Lua::new();
    let registry = registry_with_hooks(&lua);
    let report = check_shutdown(&lua, WaitOutcome::WaitFailed, &registry).unwrap();
    assert!(matches!(report.outcome, ExitOutcome::Crash { code: None }));
    assert_eq!(ran(&lua), vec!["crash 1", "crash 2"]);
}

#[test]
fn exit_without_code_runs_crash_hooks() {
    let lua = Lua::new();
    let registry = registry_with_hooks(&lua);
    let report = check_shutdown(&lua, WaitOutcome::Exited { code: None }, &registry).unwrap();
    assert!(matches!(report.outcome, ExitOutcome::Crash { code: None }));
    assert_eq!(report.hooks_run, 2);
    assert_eq!(ran(&lua), vec!["crash 1", "crash 2"]);
}

#[test]
fn shutdown_without_hooks_reports_the_outcome() {
    let lua = Lua::new();
    let registry = TriggerRegistry::new();
    let report = check_shutdown(&lua, WaitOutcome::Exited { code: Some(0) }, &registry).unwrap();
    assert!(matches!(report.outcome, ExitOutcome::GracefulStop));
    assert_eq!(report.hooks_run, 0);
    let report = check_shutdown(&lua, WaitOutcome::Exited { code: Some(-7) }, &registry).unwrap();
    assert!(matches!(report.outcome, ExitOutcome::Crash { code: Some(-7) }));
    assert_eq!(report.hooks_run, 0);
}

#[test]
fn failing_hook_ends_the_run() {
    let lua = Lua::new();
    lua.load("ran = {}").exec().unwrap();
    let mut registry = TriggerRegistry::new();
    registry.register_crash_hook(hook(&lua, "function() table.insert(ran, 'a') end"));
    registry.register_crash_hook(hook(&lua, "function() error('hook broke') end"));
    registry.register_crash_hook(hook(&lua, "function() table.insert(ran, 'c') end"));
    let failure =
        check_shutdown(&lua, WaitOutcome::Exited { code: Some(2) }, &registry).unwrap_err();
    assert_eq!(failure.kind, HookKind::Crash);
    assert_eq!(failure.index, 1);
    assert!(failure.message.contains("hook broke"));
    assert_eq!(ran(&lua), vec!["a"]);
}

#[test]
fn hooks_are_called_without_arguments() {
    let lua = Lua::new();
    lua.globals().set("argc", -1).unwrap();
    let mut registry = TriggerRegistry::new();
    registry.register_stop_hook(hook(&lua, "function(...) argc = select('#', ...) end"));
    assert_eq!(run_hooks(&lua, &registry, HookKind::Stop).unwrap(), 1);
    assert_eq!(lua.globals().get::<i64>("argc").unwrap(), 0);
}

#[test]
fn run_hooks_runs_the_list_asked_for() {
    let lua = Lua::new();
    let registry = registry_with_hooks(&lua);
    assert_eq!(run_hooks(&lua, &registry, HookKind::Crash).unwrap(), 2);
    assert_eq!(ran(&lua), vec!["crash 1", "crash 2"]);
    assert_eq!(run_hooks(&lua, &registry, HookKind::Stop).unwrap(), 3);
    assert_eq!(ran(&lua), vec!["crash 1", "crash 2", "stop 1", "stop 2", "stop 3"]);
}

#[test]
fn exit_is_classified_by_its_code() {
    assert!(matches!(
        classify_exit(WaitOutcome::Exited { code: Some(0) }),
        ExitOutcome::GracefulStop
    ));
    assert!(matches!(
        classify_exit(WaitOutcome::Exited { code: Some(137) }),
        ExitOutcome::Crash { code: Some(137) }
    ));
    assert!(matches!(
        classify_exit(WaitOutcome::Exited { code: None }),
        ExitOutcome::Crash { code: None }
    ));
    assert!(matches!(classify_exit(WaitOutcome::WaitFailed), ExitOutcome::Crash { code: None }));
}

#[test]
fn hook_list_follows_the_outcome() {
    assert_eq!(hook_kind_for(ExitOutcome::GracefulStop), HookKind::Stop);
    assert_eq!(hook_kind_for(ExitOutcome::Crash { code: Some(1) }), HookKind::Crash);
    assert_eq!(hook_kind_for(ExitOutcome::Crash { code: None }), HookKind::Crash);
}

#[test]
fn reported_code_defaults_to_minus_one() {
    assert_eq!(reported_code(Some(3)), 3);
    assert_eq!(reported_code(Some(0)), 0);
    assert_eq!(reported_code(None), -1);
}

#[test]
fn hook_result_names_the_hook_and_the_error() {
    assert!(hook_result(HookKind::Stop, 0, Ok(())).is_ok());
    let err = mlua::Error::RuntimeError("bad hook".to_string());
    let failure = hook_result(HookKind::Stop, 4, Err(err.clone())).unwrap_err();
    assert_eq!(failure.kind, HookKind::Stop);
    assert_eq!(failure.index, 4);
    assert_eq!(failure.message, err.to_string());
}

#[test]
fn hook_of_another_runtime_fails() {
    let lua = Lua::new();
    let mut registry = TriggerRegistry::new();
    {
        let gone = Lua::new();
        registry.register_stop_hook(hook(&gone, "function() end"));
    }
    let other = Lua::new();
    registry.register_stop_hook(hook(&other, "function() end"));
    let failure = run_hooks(&lua, &registry, HookKind::Stop).unwrap_err();
    assert_eq!(failure.kind, HookKind::Stop);
    assert_eq!(failure.index, 0);
}

#[test]
fn hook_key_that_holds_no_function_fails() {
    let lua = Lua::new();
    let mut registry = TriggerRegistry::new();
    registry.register_crash_hook(lua.create_registry_value(17).unwrap());
    let failure = run_hooks(&lua, &registry, HookKind::Crash).unwrap_err();
    assert_eq!(failure.kind, HookKind::Crash);
    assert_eq!(failure.index, 0);
}
