//! What extensions can do: the capability objects handed to extension
//! scripts.
//!
//! Every extension gets a capability of its own, which carries the
//! extension's identity. All capabilities register into the one shared
//! registry: extensions are not isolated from each other.

use crate::identity::{extension_identity, identity_of};
use crate::pattern::{pattern_text, PatternError};
use crate::registry::{Hook, HookKind, TriggerRegistry};
use mlua::RegistryKey;
use vstd::prelude::*;

verus! {

/// A log line of the extension `name`: the name in square brackets, a
/// space, and the message.
pub open spec fn log_text(name: Seq<char>, msg: Seq<char>) -> Seq<char> {
    seq!['['] + name + seq![']', ' '] + msg
}

/// The capability of one extension.
#[derive(Clone)]
pub struct PluginApi {
    plugin_name: String,
}

impl PluginApi {
    /// The identity of the extension that holds this capability.
    pub closed spec fn name(&self) -> Seq<char> {
        self.plugin_name@
    }

    /// The capability for the extension with the identity `plugin_name`.
    pub fn new(plugin_name: String) -> (r: Self)
        ensures
            r.name() == plugin_name@,
    {
        PluginApi { plugin_name }
    }

    /// The identity of the extension that holds this capability.
    pub fn plugin_name(&self) -> (r: &str)
        ensures
            r@ == self.name(),
    {
        self.plugin_name.as_str()
    }

    /// The line to log for a message of this extension.
    pub fn log_line(&self, msg: &str) -> (r: String)
        ensures
            r@ == log_text(self.name(), msg@),
    {
        proof {
            reveal_strlit("[");
            reveal_strlit("] ");
        }
        let mut line = "[".to_owned();
        line.append(self.plugin_name.as_str());
        line.append("] ");
        line.append(msg);
        line
    }

    /// Registers a trigger: compiles `pattern` and appends it, with the
    /// key under which the runtime keeps the callback, to the registry.
    ///
    /// When the pattern does not compile the registry is left as it was
    /// and the error is returned. Whether it compiles is the matcher's
    /// decision.
    pub fn register(
        &self,
        registry: &mut TriggerRegistry,
        pattern: &str,
        callback: RegistryKey,
    ) -> (r: Result<(), PatternError>)
        ensures
            r is Ok ==> final(registry).triggers().len() == old(registry).triggers().len() + 1
                && final(registry).triggers().drop_last() == old(registry).triggers()
                && pattern_text(final(registry).triggers().last().regex) == pattern@
                && final(registry).triggers().last().callback == callback,
            r matches Err(e) ==> e.pattern@ == pattern@ && final(registry).triggers() == old(
                registry,
            ).triggers(),
            final(registry).stop_hooks() == old(registry).stop_hooks(),
            final(registry).crash_hooks() == old(registry).crash_hooks(),
    {
        registry.register(pattern, callback)
    }

    /// Registers a lifecycle hook of the given kind: appends the key
    /// under which the runtime keeps the callback to the hook list.
    pub fn register_hook(
        &self,
        registry: &mut TriggerRegistry,
        kind: HookKind,
        callback: RegistryKey,
    )
        ensures
            final(registry).hooks(kind) == old(registry).hooks(kind).push(Hook { callback }),
            final(registry).triggers() == old(registry).triggers(),
            kind != HookKind::Stop ==> final(registry).stop_hooks() == old(registry).stop_hooks(),
            kind != HookKind::Crash ==> final(registry).crash_hooks() == old(
                registry,
            ).crash_hooks(),
    {
        registry.register_hook(kind, callback)
    }

    /// Registers a hook to run when the child stops gracefully.
    pub fn register_stop_hook(&self, registry: &mut TriggerRegistry, callback: RegistryKey)
        ensures
            final(registry).stop_hooks() == old(registry).stop_hooks().push(Hook { callback }),
            final(registry).triggers() == old(registry).triggers(),
            final(registry).crash_hooks() == old(registry).crash_hooks(),
    {
        registry.register_stop_hook(callback)
    }

    /// Registers a hook to run when the child crashes.
    pub fn register_crash_hook(&self, registry: &mut TriggerRegistry, callback: RegistryKey)
        ensures
            final(registry).crash_hooks() == old(registry).crash_hooks().push(Hook { callback }),
            final(registry).triggers() == old(registry).triggers(),
            final(registry).stop_hooks() == old(registry).stop_hooks(),
    {
        registry.register_crash_hook(callback)
    }
}

/// The capability from which extensions obtain their own.
pub struct ServerApi {}

impl ServerApi {
    /// The root capability.
    pub fn new() -> Self {
        ServerApi {  }
    }

    /// The capability for the extension that was loaded under
    /// `module_name`. Its identity is derived from the path.
    pub fn get_context(&self, module_name: &str) -> (r: PluginApi)
        ensures
            r.name() == identity_of(module_name@),
    {
        PluginApi::new(extension_identity(module_name))
    }
}

} // verus!
