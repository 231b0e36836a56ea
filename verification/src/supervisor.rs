//! The end of the child process: how its exit is classified and which
//! lifecycle hooks run for it.

use crate::registry::{Hook, HookKind, TriggerRegistry};
use crate::runtime::{lua_call_no_args, lua_error_text, runtime_error_text};
use mlua::Lua;
use vstd::prelude::*;

verus! {

/// How waiting for the child process ended.
#[derive(Clone, Copy, Debug)]
pub enum WaitOutcome {
    /// The child exited. `code` is its exit code, or `None` when it ended
    /// without one (killed by a signal).
    Exited { code: Option<i32> },
    /// Waiting itself failed.
    WaitFailed,
}

/// The classification of the child's end.
#[derive(Clone, Copy, Debug)]
pub enum ExitOutcome {
    /// The child exited with status zero.
    GracefulStop,
    /// Anything else. `code` is the exit code where there was one.
    Crash { code: Option<i32> },
}

/// The classification of a wait outcome: a graceful stop for exit code
/// zero, a crash for every other code, for no code, and for a failed wait.
pub open spec fn classified(wait: WaitOutcome) -> ExitOutcome {
    match wait {
        WaitOutcome::Exited { code: Some(0) } => ExitOutcome::GracefulStop,
        WaitOutcome::Exited { code } => ExitOutcome::Crash { code },
        WaitOutcome::WaitFailed => ExitOutcome::Crash { code: None },
    }
}

/// The hook list that runs for an exit outcome.
pub open spec fn hooks_for(outcome: ExitOutcome) -> HookKind {
    match outcome {
        ExitOutcome::GracefulStop => HookKind::Stop,
        ExitOutcome::Crash { .. } => HookKind::Crash,
    }
}

/// Classifies how the child process ended.
pub fn classify_exit(wait: WaitOutcome) -> (r: ExitOutcome)
    ensures
        r == classified(wait),
{
    match wait {
        WaitOutcome::Exited { code: Some(0) } => ExitOutcome::GracefulStop,
        WaitOutcome::Exited { code } => ExitOutcome::Crash { code },
        WaitOutcome::WaitFailed => ExitOutcome::Crash { code: None },
    }
}

/// Selects the hook list that runs for an exit outcome.
pub fn hook_kind_for(outcome: ExitOutcome) -> (r: HookKind)
    ensures
        r == hooks_for(outcome),
{
    match outcome {
        ExitOutcome::GracefulStop => HookKind::Stop,
        ExitOutcome::Crash { .. } => HookKind::Crash,
    }
}

/// The exit code to show for a crash: the code itself, or -1 where the
/// child left none.
pub fn reported_code(code: Option<i32>) -> (r: i32)
    ensures
        r == match code {
            Some(c) => c,
            None => -1i32,
        },
{
    match code {
        Some(c) => c,
        None => -1,
    }
}

/// The hooks that run for a wait outcome, in the order in which they
/// run.
pub open spec fn scheduled_hooks(registry: &TriggerRegistry, wait: WaitOutcome) -> Seq<Hook> {
    registry.hooks(hooks_for(classified(wait)))
}

/// After an exit with status zero every stop hook runs, each once, in
/// registration order, and no crash hook runs. After every other end of
/// the child, a failed wait included, every crash hook runs, each once,
/// in registration order, and no stop hook runs.
pub proof fn lemma_hooks_by_exit(registry: &TriggerRegistry, wait: WaitOutcome)
    ensures
        wait == (WaitOutcome::Exited { code: Some(0i32) }) ==> classified(wait)
            == ExitOutcome::GracefulStop && scheduled_hooks(registry, wait)
            == registry.stop_hooks(),
        wait != (WaitOutcome::Exited { code: Some(0i32) }) ==> classified(wait) is Crash
            && scheduled_hooks(registry, wait) == registry.crash_hooks(),
{
}

/// A lifecycle hook that failed: its list, its position in the list and
/// the runtime's explanation.
#[derive(Debug)]
pub struct HookFailure {
    pub kind: HookKind,
    pub index: usize,
    pub message: String,
}

/// What the supervisor reports once the hooks have run.
#[derive(Debug)]
pub struct ShutdownReport {
    pub outcome: ExitOutcome,
    /// The number of hooks that ran, each once, in registration order.
    pub hooks_run: usize,
}

/// Turns the runtime's answer for the hook at position `index` of the
/// list `kind` into the engine's own result.
pub fn hook_result(kind: HookKind, index: usize, answer: Result<(), mlua::Error>) -> (r: Result<
    (),
    HookFailure,
>)
    ensures
        answer is Ok ==> r is Ok,
        answer matches Err(err) ==> r matches Err(f) && f.kind == kind && f.index == index
            && f.message@ == runtime_error_text(err),
{
    match answer {
        Ok(()) => Ok(()),
        Err(err) => Err(HookFailure { kind, index, message: lua_error_text(&err) }),
    }
}

/// Calls `hook` without arguments in the runtime `lua`.
fn invoke_hook(lua: &Lua, hook: &Hook) -> Result<(), mlua::Error> {
    lua_call_no_args(lua, &hook.callback)
}

/// Runs the hooks of one list, one at a time, in registration order, each
/// to completion before the next starts. The run ends at the first hook
/// that fails. Returns the number of hooks that ran.
///
/// Assumed of the driver: no Rust function that it made callable from
/// scripts panics.
pub fn run_hooks(lua: &Lua, registry: &TriggerRegistry, kind: HookKind) -> (r: Result<
    usize,
    HookFailure,
>)
    ensures
        r matches Ok(n) ==> n == registry.hooks(kind).len(),
        r matches Err(f) ==> f.kind == kind && f.index < registry.hooks(kind).len(),
        registry.hooks(kind).len() == 0 ==> r is Ok,
{
    let n: usize = registry.hook_count(kind);
    let mut i: usize = 0;
    while i < n
        invariant
            i <= n,
            n == registry.hooks(kind).len(),
        decreases n - i,
    {
        let answer = invoke_hook(lua, registry.hook(kind, i));
        match hook_result(kind, i, answer) {
            Ok(()) => {},
            Err(failure) => {
                return Err(failure);
            },
        }
        i = i + 1;
    }
    Ok(n)
}

/// Classifies the end of the child process and runs the hooks for it:
/// the stop hooks after a graceful stop, the crash hooks after a crash,
/// never both. Call it once the child's output has ended and the wait for
/// its exit has returned.
///
/// Assumed of the driver: no Rust function that it made callable from
/// scripts panics.
pub fn check_shutdown(lua: &Lua, wait: WaitOutcome, registry: &TriggerRegistry) -> (r: Result<
    ShutdownReport,
    HookFailure,
>)
    ensures
        r matches Ok(report) ==> report.outcome == classified(wait) && report.hooks_run
            == scheduled_hooks(registry, wait).len(),
        r matches Err(f) ==> f.kind == hooks_for(classified(wait)) && f.index < scheduled_hooks(
            registry,
            wait,
        ).len(),
        scheduled_hooks(registry, wait).len() == 0 ==> r is Ok,
{
    let outcome = classify_exit(wait);
    match run_hooks(lua, registry, hook_kind_for(outcome)) {
        Ok(hooks_run) => Ok(ShutdownReport { outcome, hooks_run }),
        Err(failure) => Err(failure),
    }
}

} // verus!
