//! The dispatch pass: which callbacks one output line sets off, with
//! which arguments, and what becomes of the commands they return.

use crate::command::{normalize_all, normalized_all};
use crate::pattern::{captures_of, matches_line, regex_captures};
use crate::registry::{Trigger, TriggerRegistry};
use crate::runtime::{lua_call_with_args, lua_error_text, runtime_error_text};
use mlua::Lua;
use vstd::prelude::*;

verus! {

/// The text a capture group contributes to a callback's arguments: the
/// group's text, or the empty text for a group that took no part in the
/// match.
pub open spec fn group_text(group: Option<Seq<char>>) -> Seq<char> {
    match group {
        Some(text) => text,
        None => Seq::empty(),
    }
}

/// The argument list for a callback: the whole line first, then the text
/// of each capture group from group 1 on, in group order.
pub open spec fn callback_args(line: Seq<char>, groups: Seq<Option<Seq<char>>>) -> Seq<Seq<char>> {
    Seq::new(
        if groups.len() == 0 {
            1
        } else {
            groups.len()
        },
        |i: int|
            if i == 0 {
                line
            } else {
                group_text(groups[i])
            },
    )
}

/// Builds the argument list for a callback from a line and the capture
/// groups of a match.
pub fn build_callback_args(line: &str, groups: &Vec<Option<String>>) -> (r: Vec<String>)
    ensures
        r.deep_view() == callback_args(line@, groups.deep_view()),
{
    let mut args: Vec<String> = Vec::new();
    args.push(line.to_owned());
    let mut i: usize = 1;
    while i < groups.len()
        invariant
            1 <= i,
            groups.len() >= 1 ==> i <= groups.len(),
            args.len() == if i <= groups.len() {
                i
            } else {
                1
            },
            args[0]@ == line@,
            forall|j: int| 1 <= j < args.len() ==> args[j]@ == group_text(groups.deep_view()[j]),
        decreases groups.len() - i,
    {
        let text = match &groups[i] {
            Some(t) => t.clone(),
            None => String::new(),
        };
        args.push(text);
        i = i + 1;
    }
    args
}

/// One callback invocation: the position of the trigger in the registry
/// and the arguments to pass to its callback.
pub struct Invocation {
    pub trigger: usize,
    pub args: Vec<String>,
}

impl DeepView for Invocation {
    type V = (nat, Seq<Seq<char>>);

    open spec fn deep_view(&self) -> (nat, Seq<Seq<char>>) {
        (self.trigger as nat, self.args.deep_view())
    }
}

/// The invocations that `line` sets off: one for each trigger whose
/// pattern matches, in registration order.
pub open spec fn planned(triggers: Seq<Trigger>, line: Seq<char>) -> Seq<(nat, Seq<Seq<char>>)>
    decreases triggers.len(),
{
    if triggers.len() == 0 {
        Seq::empty()
    } else {
        let earlier = planned(triggers.drop_last(), line);
        match captures_of(triggers.last().regex, line) {
            Some(groups) => earlier.push(
                ((triggers.len() - 1) as nat, callback_args(line, groups)),
            ),
            None => earlier,
        }
    }
}

/// Whether the trigger at position `i` of the registry is among the
/// invocations `plan`.
pub open spec fn is_planned(plan: Seq<(nat, Seq<Seq<char>>)>, i: int) -> bool {
    exists|k: int| 0 <= k < plan.len() && (#[trigger] plan[k]).0 == i
}

/// Every matching trigger is invoked exactly once per line, in
/// registration order, with the line and its capture groups as arguments;
/// no other trigger is invoked.
pub proof fn lemma_planned_invocations(triggers: Seq<Trigger>, line: Seq<char>)
    ensures
        // what is planned is a matching trigger, with its arguments
        forall|k: int|
            0 <= k < planned(triggers, line).len() ==> {
                let (i, args) = #[trigger] planned(triggers, line)[k];
                &&& i < triggers.len()
                &&& captures_of(triggers[i as int].regex, line) matches Some(groups)
                &&& args == callback_args(line, groups)
            },
        // in registration order, and so no trigger twice
        forall|j: int, k: int|
            0 <= j < k < planned(triggers, line).len() ==> (#[trigger] planned(triggers, line)[j]).0
                < (#[trigger] planned(triggers, line)[k]).0,
        // every matching trigger is planned
        forall|i: int|
            0 <= i < triggers.len() && #[trigger] matches_line(triggers[i].regex, line)
                ==> is_planned(planned(triggers, line), i),
        planned(triggers, line).len() <= triggers.len(),
    decreases triggers.len(),
{
    if triggers.len() > 0 {
        let shorter = triggers.drop_last();
        lemma_planned_invocations(shorter, line);
        let earlier = planned(shorter, line);
        let all = planned(triggers, line);
        assert forall|i: int|
            0 <= i < triggers.len() && #[trigger] matches_line(
                triggers[i].regex,
                line,
            ) implies is_planned(all, i) by {
            if i < shorter.len() {
                assert(shorter[i] == triggers[i]);
                let k = choose|k: int| 0 <= k < earlier.len() && (#[trigger] earlier[k]).0 == i;
                assert(all[k] == earlier[k]);
            } else {
                assert(all[all.len() - 1].0 == i);
            }
        }
    }
}

impl TriggerRegistry {
    /// The invocations that `line` sets off, in the order in which they
    /// are to be made.
    pub fn matching_invocations(&self, line: &str) -> (r: Vec<Invocation>)
        ensures
            r.deep_view() == planned(self.triggers(), line@),
    {
        let mut plan: Vec<Invocation> = Vec::new();
        let n: usize = self.len();
        let mut i: usize = 0;
        while i < n
            invariant
                i <= n,
                n == self.triggers().len(),
                plan.deep_view() == planned(self.triggers().take(i as int), line@),
            decreases n - i,
        {
            assert(self.triggers().take(i + 1).drop_last() =~= self.triggers().take(i as int));
            if let Some(groups) = regex_captures(&self.trigger(i).regex, line) {
                let args = build_callback_args(line, &groups);
                plan.push(Invocation { trigger: i, args });
            }
            i = i + 1;
        }
        assert(self.triggers().take(n as int) =~= self.triggers());
        plan
    }
}

/// The commands that one callback's return value contributes: the list
/// it returned, or nothing when it returned none.
pub open spec fn returned_commands(returned: Option<Seq<Seq<char>>>) -> Seq<Seq<char>> {
    match returned {
        Some(cmds) => cmds,
        None => Seq::empty(),
    }
}

/// The commands accumulated over a pass: what each callback returned, in
/// invocation order, each list in the order returned.
pub open spec fn accumulated(replies: Seq<Option<Seq<Seq<char>>>>) -> Seq<Seq<char>>
    decreases replies.len(),
{
    if replies.len() == 0 {
        Seq::empty()
    } else {
        accumulated(replies.drop_last()) + returned_commands(replies.last())
    }
}

/// The commands to submit after a pass: the accumulated commands, each
/// normalized.
pub open spec fn outgoing(replies: Seq<Option<Seq<Seq<char>>>>) -> Seq<Seq<char>> {
    normalized_all(accumulated(replies))
}

/// The commands that the callback at position `k` returned stand
/// together in the outgoing list, in the order returned, after all
/// commands of earlier callbacks and before all commands of later ones.
pub proof fn lemma_outgoing_keeps_order(replies: Seq<Option<Seq<Seq<char>>>>, k: int)
    requires
        0 <= k < replies.len(),
    ensures
        ({
            let start = accumulated(replies.take(k)).len() as int;
            let own = returned_commands(replies[k]);
            &&& start + own.len() <= outgoing(replies).len()
            &&& outgoing(replies).subrange(start, start + own.len()) == normalized_all(own)
        }),
    decreases replies.len(),
{
    if k < replies.len() - 1 {
        let shorter = replies.drop_last();
        lemma_outgoing_keeps_order(shorter, k);
        assert(shorter.take(k) =~= replies.take(k));
    }
}

/// Gathers the commands to submit from what the callbacks of a pass
/// returned: every returned list in invocation order, each command
/// normalized.
pub fn collect_commands(replies: Vec<Option<Vec<String>>>) -> (r: Vec<String>)
    ensures
        r.deep_view() == outgoing(replies.deep_view()),
{
    let mut commands: Vec<String> = Vec::new();
    let ghost all = replies.deep_view();
    for returned in it: replies
        invariant
            it.seq() == replies@,
            all == replies.deep_view(),
            commands.deep_view() == accumulated(all.take(it.index() as int)),
    {
        let ghost k = it.index() as int;
        assert(all.take(k + 1).drop_last() =~= all.take(k));
        if let Some(mut cmds) = returned {
            commands.append(&mut cmds);
        }
    }
    assert(all.take(replies@.len() as int) =~= all);
    normalize_all(commands)
}

/// A callback that failed: the position of its trigger in the registry
/// and the runtime's explanation.
#[derive(Debug)]
pub struct CallbackFailure {
    pub trigger: usize,
    pub message: String,
}

/// Turns the runtime's answer for the callback of the trigger at
/// position `trigger` into the engine's own result.
pub fn callback_result(trigger: usize, answer: Result<Option<Vec<String>>, mlua::Error>) -> (r:
    Result<Option<Vec<String>>, CallbackFailure>)
    ensures
        answer matches Ok(returned) ==> r == Ok::<Option<Vec<String>>, CallbackFailure>(returned),
        answer matches Err(err) ==> r matches Err(f) && f.trigger == trigger && f.message@
            == runtime_error_text(err),
{
    match answer {
        Ok(returned) => Ok(returned),
        Err(err) => Err(CallbackFailure { trigger, message: lua_error_text(&err) }),
    }
}

/// Calls the callback of `trigger` with `args` in the runtime `lua`.
fn invoke_trigger(lua: &Lua, trigger: &Trigger, args: &Vec<String>) -> Result<
    Option<Vec<String>>,
    mlua::Error,
> {
    lua_call_with_args(lua, &trigger.callback, args)
}

/// Runs the dispatch pass for one output line: invokes the callback of
/// every matching trigger, in registration order, and gathers the
/// commands to submit.
///
/// The pass ends at the first callback that fails; its failure is
/// returned and the commands gathered so far are dropped. What a callback
/// hands back is the runtime's affair: the result is stated for whatever
/// the callbacks handed back.
///
/// Assumed of the driver: no Rust function that it made callable from
/// scripts panics.
pub fn dispatch_line(lua: &Lua, registry: &TriggerRegistry, line: &str) -> (r: Result<
    Vec<String>,
    CallbackFailure,
>)
    ensures
        r matches Ok(cmds) ==> exists|replies: Seq<Option<Seq<Seq<char>>>>|
            replies.len() == planned(registry.triggers(), line@).len() && cmds.deep_view()
                == #[trigger] outgoing(replies),
        r matches Err(f) ==> is_planned(planned(registry.triggers(), line@), f.trigger as int),
        planned(registry.triggers(), line@).len() == 0 ==> (r matches Ok(cmds) && cmds@.len()
            == 0),
{
    let plan = registry.matching_invocations(line);
    let ghost wanted = planned(registry.triggers(), line@);
    proof {
        lemma_planned_invocations(registry.triggers(), line@);
    }
    let mut replies: Vec<Option<Vec<String>>> = Vec::new();
    let mut k: usize = 0;
    while k < plan.len()
        invariant
            k <= plan.len(),
            replies.len() == k,
            plan.deep_view() == wanted,
            wanted == planned(registry.triggers(), line@),
            forall|j: int|
                0 <= j < wanted.len() ==> (#[trigger] wanted[j]).0 < registry.triggers().len(),
        decreases plan.len() - k,
    {
        let invocation = &plan[k];
        assert(wanted[k as int].0 == invocation.trigger);
        let answer = invoke_trigger(lua, registry.trigger(invocation.trigger), &invocation.args);
        match callback_result(invocation.trigger, answer) {
            Ok(returned) => {
                replies.push(returned);
            },
            Err(failure) => {
                return Err(failure);
            },
        }
        k = k + 1;
    }
    let commands = collect_commands(replies);
    assert(wanted.len() == 0 ==> commands.deep_view().len() == 0);
    Ok(commands)
}

} // verus!
