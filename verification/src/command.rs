//! Commands destined for the child process's input stream.

use vstd::prelude::*;

verus! {

/// The line terminator that ends every transmitted command.
pub open spec fn terminator() -> char {
    '\n'
}

/// Whether `cmd` already ends with the line terminator.
pub open spec fn is_terminated(cmd: Seq<char>) -> bool {
    cmd.len() > 0 && cmd.last() == terminator()
}

/// The text that is transmitted for `cmd`: `cmd` itself when it is already
/// terminated, otherwise `cmd` followed by one terminator.
pub open spec fn normalized(cmd: Seq<char>) -> Seq<char> {
    if is_terminated(cmd) {
        cmd
    } else {
        cmd.push(terminator())
    }
}

/// Tells whether `cmd` ends with the line terminator.
pub fn ends_with_terminator(cmd: &str) -> (r: bool)
    ensures
        r == is_terminated(cmd@),
{
    let n: usize = cmd.unicode_len();
    if n == 0 {
        false
    } else {
        cmd.get_char(n - 1) == '\n'
    }
}

/// Normalizes a command for transmission: appends the terminator unless
/// the command already ends with it.
pub fn normalize_command(cmd: String) -> (r: String)
    ensures
        r@ == normalized(cmd@),
{
    if ends_with_terminator(cmd.as_str()) {
        cmd
    } else {
        let mut out = cmd;
        proof {
            reveal_strlit("\n");
        }
        out.append("\n");
        out
    }
}

/// Every command of a list, normalized, in the same order.
pub open spec fn normalized_all(cmds: Seq<Seq<char>>) -> Seq<Seq<char>> {
    Seq::new(cmds.len(), |i: int| normalized(cmds[i]))
}

/// Normalizes every command of a list, keeping the order.
pub fn normalize_all(cmds: Vec<String>) -> (r: Vec<String>)
    ensures
        r.deep_view() == normalized_all(cmds.deep_view()),
{
    let mut out: Vec<String> = Vec::new();
    for cmd in it: cmds
        invariant
            it.seq() == cmds@,
            out.len() == it.index(),
            forall|j: int| 0 <= j < out.len() ==> out[j]@ == normalized(cmds[j]@),
    {
        out.push(normalize_command(cmd));
    }
    out
}

/// A normalized command ends with the terminator, holds the command it
/// was made from as its beginning, and is longer by one terminator only
/// when the command had none. Normalizing again changes nothing.
pub proof fn lemma_normalized(cmd: Seq<char>)
    ensures
        is_terminated(normalized(cmd)),
        normalized(cmd).take(cmd.len() as int) == cmd,
        is_terminated(cmd) ==> normalized(cmd) == cmd,
        !is_terminated(cmd) ==> normalized(cmd).len() == cmd.len() + 1 && normalized(
            cmd,
        ).drop_last() == cmd,
        normalized(normalized(cmd)) == normalized(cmd),
{
}

} // verus!
