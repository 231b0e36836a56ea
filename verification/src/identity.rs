//! Extension identities: the name under which an extension's log lines
//! and settings are kept apart from those of other extensions.
//!
//! An extension is loaded as a module whose path is made of segments
//! separated by dots. Its identity is the segment before the last dot, or
//! the whole path when there is no dot.

use vstd::prelude::*;

verus! {

/// The separator of module path segments.
pub open spec fn separator() -> char {
    '.'
}

/// The position of the last separator in `path`, or -1 when there is
/// none.
pub open spec fn last_separator(path: Seq<char>) -> int
    decreases path.len(),
{
    if path.len() == 0 {
        -1
    } else if path.last() == separator() {
        path.len() - 1
    } else {
        last_separator(path.drop_last())
    }
}

/// The identity of the extension loaded from the module path `path`.
pub open spec fn identity_of(path: Seq<char>) -> Seq<char> {
    let end = last_separator(path);
    if end < 0 {
        path
    } else {
        path.subrange(last_separator(path.take(end)) + 1, end)
    }
}

/// The last separator of a path lies inside the path, is a separator,
/// and no separator follows it.
pub proof fn lemma_last_separator(path: Seq<char>)
    ensures
        -1 <= last_separator(path) < path.len(),
        last_separator(path) >= 0 ==> path[last_separator(path)] == separator(),
        forall|i: int| last_separator(path) < i < path.len() ==> path[i] != separator(),
    decreases path.len(),
{
    if path.len() > 0 && path.last() != separator() {
        let shorter = path.drop_last();
        lemma_last_separator(shorter);
        assert forall|i: int| last_separator(path) < i < path.len() implies path[i]
            != separator() by {
            if i < shorter.len() {
                assert(path[i] == shorter[i]);
            }
        }
    }
}

/// An identity is one segment of its path: it stands in the path as a
/// whole and holds no separator.
pub proof fn lemma_identity_is_one_segment(path: Seq<char>)
    ensures
        forall|i: int|
            0 <= i < identity_of(path).len() ==> #[trigger] identity_of(path)[i] != separator(),
        exists|start: int|
            0 <= start && start + identity_of(path).len() <= path.len() && #[trigger] path.subrange(
                start,
                start + identity_of(path).len(),
            ) == identity_of(path),
{
    lemma_last_separator(path);
    let end = last_separator(path);
    if end < 0 {
        let start: int = 0;
        assert(path.subrange(start, start + identity_of(path).len()) =~= identity_of(path));
    } else {
        let head = path.take(end);
        lemma_last_separator(head);
        let start = last_separator(head) + 1;
        assert forall|i: int| 0 <= i < identity_of(path).len() implies #[trigger] identity_of(
            path,
        )[i] != separator() by {
            assert(identity_of(path)[i] == head[start + i]);
        }
        assert(path.subrange(start, start + identity_of(path).len()) =~= identity_of(path));
    }
}

/// Derives the identity of an extension from its module path.
pub fn extension_identity(path: &str) -> (r: String)
    ensures
        r@ == identity_of(path@),
{
    let n: usize = path.unicode_len();
    let mut last: Option<usize> = None;
    let mut before_last: Option<usize> = None;
    let mut i: usize = 0;
    for c in it: path.chars()
        invariant
            it.seq() == path@,
            n == path@.len(),
            i == it.index(),
            i <= n,
            last matches Some(p) ==> p < i && p == last_separator(path@.take(i as int)),
            last is None ==> last_separator(path@.take(i as int)) == -1,
            last matches Some(p) ==> match before_last {
                Some(q) => q < p && q == last_separator(path@.take(p as int)),
                None => last_separator(path@.take(p as int)) == -1,
            },
    {
        assert(path@.take(i + 1).drop_last() =~= path@.take(i as int));
        if c == '.' {
            before_last = last;
            last = Some(i);
        }
        i = i + 1;
    }
    assert(path@.take(n as int) =~= path@);
    match last {
        None => path.to_owned(),
        Some(end) => {
            let start: usize = match before_last {
                Some(q) => q + 1,
                None => 0,
            };
            path.substring_char(start, end).to_owned()
        },
    }
}

} // verus!
