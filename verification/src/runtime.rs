//! The extension runtime: a Lua state driven through the `mlua` crate.
//!
//! Callbacks are values that live inside the Lua state; the engine holds
//! only keys to them and never interprets what a callback does. What a
//! call gives back depends on the script and on the state it runs in, so
//! the functions here promise nothing about it. They are believed, not
//! proved. The code that follows a call takes its result as an argument
//! and is proved for every value.
//!
//! A callback is always called through the state and its key, never
//! through a function handle on its own: a handle outlives its state and
//! can be carried to another one, and the runtime panics on both. A key
//! that does not belong to the state is an error that the runtime
//! reports.
//!
//! One thing is assumed of the driver and cannot be checked here: every
//! Rust function that the driver makes callable from scripts returns
//! without panicking. The runtime keeps such a panic and raises it again
//! in whoever called the script, and the engine has no means to stop it.

use mlua::{Function, Lua, RegistryKey, Variadic};
use vstd::prelude::*;

verus! {

/// `mlua::Lua`, the script runtime. Opaque to the engine.
#[verifier::external_type_specification]
#[verifier::external_body]
pub struct ExLua(mlua::Lua);

/// `mlua::RegistryKey`, the handle to a value that the runtime keeps.
/// Opaque to the engine.
#[verifier::external_type_specification]
#[verifier::external_body]
pub struct ExRegistryKey(mlua::RegistryKey);

/// `mlua::Error`, the runtime's error. Opaque to the engine, which reads
/// only its text.
#[verifier::external_type_specification]
#[verifier::external_body]
pub struct ExLuaError(mlua::Error);

/// The text that `mlua::Error` displays as.
pub uninterp spec fn runtime_error_text(err: mlua::Error) -> Seq<char>;

/// `Lua::registry_value`, read as a function, and `Function::call` on
/// it with text arguments, the result read as an optional list of texts.
///
/// Nothing is promised of the outcome. A key of another state, a key
/// that holds no function, a script that raises an error and a result
/// that is no list of texts all come back as errors. The function is
/// read from the live state `lua` and called at once, so it is a function
/// of that state. The call returns when the script does.
///
/// Assumed: no Rust function that the driver made callable from scripts
/// panics.
#[verifier::external_body]
pub(crate) fn lua_call_with_args(lua: &Lua, key: &RegistryKey, args: &Vec<String>) -> (r: Result<
    Option<Vec<String>>,
    mlua::Error,
>) {
    let func: Function = lua.registry_value(key)?;
    func.call(Variadic::from_iter(args.iter().map(|arg| arg.as_str())))
}

/// `Lua::registry_value`, read as a function, and `Function::call` on
/// it without arguments, the result discarded.
///
/// Nothing is promised of the outcome. A key of another state, a key
/// that holds no function and a script that raises an error all come
/// back as errors. The function is read from the live state `lua` and
/// called at once, so it is a function of that state. The call returns
/// when the script does.
///
/// Assumed: no Rust function that the driver made callable from scripts
/// panics.
#[verifier::external_body]
pub(crate) fn lua_call_no_args(lua: &Lua, key: &RegistryKey) -> (r: Result<(), mlua::Error>) {
    let func: Function = lua.registry_value(key)?;
    func.call(())
}

/// The `Display` text of an `mlua::Error`. Trusted: the result is a
/// function of the error.
#[verifier::external_body]
pub(crate) fn lua_error_text(err: &mlua::Error) -> (r: String)
    ensures
        r@ == runtime_error_text(*err),
{
    err.to_string()
}

} // verus!
