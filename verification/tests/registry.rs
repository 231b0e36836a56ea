use mcrw::pattern::{compile_pattern, compiled_or_error};
use mcrw::registry::{HookKind, Trigger, TriggerRegistry};
use mlua::{Function, Lua, RegistryKey};
use regex::Regex;

fn noop_callback(lua: &Lua) -> RegistryKey {
    let func: Function = lua.load("function() end").eval().unwrap();
    lua.create_registry_value(func).unwrap()
}

#[test]
fn invalid_pattern_is_reported_and_not_added() {
    let lua = Lua::new();
    let mut registry = TriggerRegistry::new();
    registry.register("ok", noop_callback(&lua)).unwrap();
    let before = registry.len();
    let err = registry.register("(", noop_callback(&lua)).unwrap_err();
    assert_eq!(err.pattern, "(");
    assert_eq!(err.message, Regex::new("(").unwrap_err().to_string());
    assert_eq!(registry.len(), before);
    assert_eq!(registry.trigger(0).pattern(), "ok");
}

#[test]
fn oversized_pattern_is_reported_and_not_added() {
    let lua = Lua::new();
    let mut registry = TriggerRegistry::new();
    let err = registry.register(r"\w{1000}{1000}", noop_callback(&lua)).unwrap_err();
    assert_eq!(err.pattern, r"\w{1000}{1000}");
    assert_eq!(registry.len(), 0);
}

#[test]
fn new_registry_is_empty() {
    let registry = TriggerRegistry::new();
    assert_eq!(registry.len(), 0);
    assert_eq!(registry.hook_count(HookKind::Stop), 0);
    assert_eq!(registry.hook_count(HookKind::Crash), 0);
}

#[test]
fn triggers_are_kept_in_registration_order() {
    let lua = Lua::new();
    let mut registry = TriggerRegistry::new();
    for pattern in ["^a", "b+", "^a", r"(\d+)"] {
        registry.register(pattern, noop_callback(&lua)).unwrap();
    }
    assert_eq!(registry.len(), 4);
    let patterns: Vec<String> = (0..4).map(|i| registry.trigger(i).pattern()).collect();
    assert_eq!(patterns, vec!["^a", "b+", "^a", r"(\d+)"]);
}

#[test]
fn registered_trigger_holds_the_given_callback() {
    let lua = Lua::new();
    let func: Function = lua.load("function() return 'mine' end").eval().unwrap();
    let key = lua.create_registry_value(func).unwrap();
    let mut registry = TriggerRegistry::new();
    registry.register("x", noop_callback(&lua)).unwrap();
    registry.register("y", key).unwrap();
    let stored: Function = lua.registry_value(&registry.trigger(1).callback).unwrap();
    assert_eq!(stored.call::<String>(()).unwrap(), "mine");
}

#[test]
fn add_trigger_appends_as_given() {
    let lua = Lua::new();
    let mut registry = TriggerRegistry::new();
    registry.add_trigger(Trigger { regex: Regex::new("abc").unwrap(), callback: noop_callback(&lua) });
    assert_eq!(registry.len(), 1);
    assert_eq!(registry.trigger(0).pattern(), "abc");
    assert!(registry.trigger(0).regex.is_match("xabcx"));
}

#[test]
fn register_compiled_passes_the_error_on() {
    let lua = Lua::new();
    let mut registry = TriggerRegistry::new();
    let err = registry.register_compiled(compile_pattern("[z-a]"), noop_callback(&lua)).unwrap_err();
    assert_eq!(err.pattern, "[z-a]");
    assert_eq!(registry.len(), 0);
    registry.register_compiled(compile_pattern("[a-z]"), noop_callback(&lua)).unwrap();
    assert_eq!(registry.len(), 1);
    assert_eq!(registry.trigger(0).pattern(), "[a-z]");
}

#[test]
fn compile_pattern_keeps_the_pattern_text() {
    let regex = compile_pattern(r"^Player (\w+) joined").unwrap();
    assert_eq!(regex.as_str(), r"^Player (\w+) joined");
    assert!(regex.is_match("Player Alice joined"));
}

#[test]
fn compiled_or_error_maps_both_answers() {
    let ok = compiled_or_error("a+", Regex::new("a+")).unwrap();
    assert_eq!(ok.as_str(), "a+");
    let err = compiled_or_error("a(", Regex::new("a(")).unwrap_err();
    assert_eq!(err.pattern, "a(");
    assert_eq!(err.message, Regex::new("a(").unwrap_err().to_string());
}

#[test]
fn hooks_go_to_their_own_list() {
    let lua = Lua::new();
    let mut registry = TriggerRegistry::new();
    registry.register_stop_hook(noop_callback(&lua));
    registry.register_crash_hook(noop_callback(&lua));
    registry.register_stop_hook(noop_callback(&lua));
    registry.register_hook(HookKind::Crash, noop_callback(&lua));
    registry.register_hook(HookKind::Stop, noop_callback(&lua));
    assert_eq!(registry.hook_count(HookKind::Stop), 3);
    assert_eq!(registry.hook_count(HookKind::Crash), 2);
    assert_eq!(registry.len(), 0);
}

#[test]
fn hooks_are_kept_in_registration_order() {
    let lua = Lua::new();
    let mut registry = TriggerRegistry::new();
    for name in ["a", "b", "c"] {
        let func: Function =
            lua.load(format!("function() return '{}' end", name)).eval().unwrap();
        registry.register_stop_hook(lua.create_registry_value(func).unwrap());
    }
    let names: Vec<String> = (0..3)
        .map(|i| {
            let func: Function =
                lua.registry_value(&registry.hook(HookKind::Stop, i).callback).unwrap();
            func.call::<String>(()).unwrap()
        })
        .collect();
    assert_eq!(names, vec!["a", "b", "c"]);
}
