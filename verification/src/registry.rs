//! The trigger registry: every trigger and lifecycle hook that
//! extensions have registered, in registration order.

use crate::pattern::{compile_pattern, pattern_text, regex_as_str, PatternError};
use mlua::RegistryKey;
use regex::Regex;
use vstd::prelude::*;

verus! {

/// A pattern and the callback to invoke for each line the pattern matches.
pub struct Trigger {
    pub regex: Regex,
    pub callback: RegistryKey,
}

impl Trigger {
    /// The pattern text this trigger was registered with.
    pub fn pattern(&self) -> (r: String)
        ensures
            r@ == pattern_text(self.regex),
    {
        regex_as_str(&self.regex)
    }
}

/// A lifecycle callback, invoked without arguments.
pub struct Hook {
    pub callback: RegistryKey,
}

/// The two lifecycle hook lists.
#[derive(Clone, Copy, Debug, PartialEq, Eq, Structural)]
pub enum HookKind {
    /// Hooks for a graceful stop.
    Stop,
    /// Hooks for a crash.
    Crash,
}

/// The registered triggers and hooks. Entries are only ever appended, so
/// the position of an entry is the order in which it was registered.
pub struct TriggerRegistry {
    triggers: Vec<Trigger>,
    stop_hooks: Vec<Hook>,
    crash_hooks: Vec<Hook>,
}

impl TriggerRegistry {
    /// The triggers, oldest first.
    pub closed spec fn triggers(&self) -> Seq<Trigger> {
        self.triggers@
    }

    /// The stop hooks, oldest first.
    pub closed spec fn stop_hooks(&self) -> Seq<Hook> {
        self.stop_hooks@
    }

    /// The crash hooks, oldest first.
    pub closed spec fn crash_hooks(&self) -> Seq<Hook> {
        self.crash_hooks@
    }

    /// The hook list of the given kind.
    pub open spec fn hooks(&self, kind: HookKind) -> Seq<Hook> {
        match kind {
            HookKind::Stop => self.stop_hooks(),
            HookKind::Crash => self.crash_hooks(),
        }
    }

    /// An empty registry.
    pub fn new() -> (r: Self)
        ensures
            r.triggers() == Seq::<Trigger>::empty(),
            r.stop_hooks() == Seq::<Hook>::empty(),
            r.crash_hooks() == Seq::<Hook>::empty(),
    {
        TriggerRegistry { triggers: Vec::new(), stop_hooks: Vec::new(), crash_hooks: Vec::new() }
    }

    /// The number of registered triggers.
    pub fn len(&self) -> (r: usize)
        ensures
            r == self.triggers().len(),
    {
        self.triggers.len()
    }

    /// The number of registered hooks of the given kind.
    pub fn hook_count(&self, kind: HookKind) -> (r: usize)
        ensures
            r == self.hooks(kind).len(),
    {
        match kind {
            HookKind::Stop => self.stop_hooks.len(),
            HookKind::Crash => self.crash_hooks.len(),
        }
    }

    /// The trigger registered at position `index`.
    pub fn trigger(&self, index: usize) -> (r: &Trigger)
        requires
            index < self.triggers().len(),
        ensures
            *r == self.triggers()[index as int],
    {
        &self.triggers[index]
    }

    /// The hook of the given kind registered at position `index`.
    pub fn hook(&self, kind: HookKind, index: usize) -> (r: &Hook)
        requires
            index < self.hooks(kind).len(),
        ensures
            *r == self.hooks(kind)[index as int],
    {
        match kind {
            HookKind::Stop => &self.stop_hooks[index],
            HookKind::Crash => &self.crash_hooks[index],
        }
    }

    /// Appends a trigger. Nothing is deduplicated: a pattern registered
    /// twice fires twice.
    pub fn add_trigger(&mut self, trigger: Trigger)
        ensures
            final(self).triggers() == old(self).triggers().push(trigger),
            final(self).stop_hooks() == old(self).stop_hooks(),
            final(self).crash_hooks() == old(self).crash_hooks(),
    {
        self.triggers.push(trigger);
    }

    /// Registers `callback` under an already compiled pattern, or passes
    /// the pattern error on and leaves the registry as it was.
    pub fn register_compiled(
        &mut self,
        compiled: Result<Regex, PatternError>,
        callback: RegistryKey,
    ) -> (r: Result<(), PatternError>)
        ensures
            compiled matches Ok(regex) ==> r is Ok && final(self).triggers() == old(
                self,
            ).triggers().push(Trigger { regex, callback }),
            compiled matches Err(e) ==> r == Err::<(), PatternError>(e) && final(self).triggers()
                == old(self).triggers(),
            final(self).stop_hooks() == old(self).stop_hooks(),
            final(self).crash_hooks() == old(self).crash_hooks(),
    {
        match compiled {
            Ok(regex) => {
                self.add_trigger(Trigger { regex, callback });
                Ok(())
            },
            Err(e) => Err(e),
        }
    }

    /// Compiles `pattern` and appends a trigger for it. When the pattern
    /// does not compile the registry is left as it was and the error is
    /// returned. Whether it compiles is the matcher's decision.
    pub fn register(&mut self, pattern: &str, callback: RegistryKey) -> (r: Result<
        (),
        PatternError,
    >)
        ensures
            r is Ok ==> final(self).triggers().len() == old(self).triggers().len() + 1
                && final(self).triggers().drop_last() == old(self).triggers() && pattern_text(
                final(self).triggers().last().regex,
            ) == pattern@ && final(self).triggers().last().callback == callback,
            r matches Err(e) ==> e.pattern@ == pattern@ && final(self).triggers() == old(
                self,
            ).triggers(),
            final(self).stop_hooks() == old(self).stop_hooks(),
            final(self).crash_hooks() == old(self).crash_hooks(),
    {
        self.register_compiled(compile_pattern(pattern), callback)
    }

    /// Appends a hook to the list of the given kind.
    pub fn register_hook(&mut self, kind: HookKind, callback: RegistryKey)
        ensures
            final(self).triggers() == old(self).triggers(),
            final(self).hooks(kind) == old(self).hooks(kind).push(Hook { callback }),
            kind != HookKind::Stop ==> final(self).stop_hooks() == old(self).stop_hooks(),
            kind != HookKind::Crash ==> final(self).crash_hooks() == old(self).crash_hooks(),
    {
        match kind {
            HookKind::Stop => self.stop_hooks.push(Hook { callback }),
            HookKind::Crash => self.crash_hooks.push(Hook { callback }),
        }
    }

    /// Appends a hook to run when the child stops gracefully.
    pub fn register_stop_hook(&mut self, callback: RegistryKey)
        ensures
            final(self).triggers() == old(self).triggers(),
            final(self).stop_hooks() == old(self).stop_hooks().push(Hook { callback }),
            final(self).crash_hooks() == old(self).crash_hooks(),
    {
        self.register_hook(HookKind::Stop, callback)
    }

    /// Appends a hook to run when the child crashes.
    pub fn register_crash_hook(&mut self, callback: RegistryKey)
        ensures
            final(self).triggers() == old(self).triggers(),
            final(self).stop_hooks() == old(self).stop_hooks(),
            final(self).crash_hooks() == old(self).crash_hooks().push(Hook { callback }),
    {
        self.register_hook(HookKind::Crash, callback)
    }
}

} // verus!
