//! Where extensions live: the names under which the loader finds and
//! loads them.

use crate::identity::{identity_of, last_separator, separator};
use vstd::prelude::*;

verus! {

/// The module path under which the extension in the directory
/// `plugin_name` is loaded.
pub open spec fn module_name_of(plugin_name: Seq<char>) -> Seq<char> {
    "lua_plugins."@ + plugin_name + "."@
}

/// The module search path that lets the runtime find extensions, placed
/// before the search path `current` that it already has.
pub open spec fn search_path_of(current: Seq<char>) -> Seq<char> {
    "lua_plugins/?.lua;lua_plugins/?/init.lua;"@ + current
}

/// Builds the module path under which the extension in the directory
/// `plugin_name` is loaded.
pub fn plugin_module_name(plugin_name: &str) -> (r: String)
    ensures
        r@ == module_name_of(plugin_name@),
{
    let mut path = "lua_plugins.".to_owned();
    path.append(plugin_name);
    path.append(".");
    path
}

/// Builds the module search path that lets the runtime find extensions,
/// keeping the search path `current` behind it.
pub fn plugin_search_path(current: &str) -> (r: String)
    ensures
        r@ == search_path_of(current@),
{
    let mut path = "lua_plugins/?.lua;lua_plugins/?/init.lua;".to_owned();
    path.append(current);
    path
}

/// A path that ends in text without a separator has its last separator
/// where the path before that text has it.
pub proof fn lemma_last_separator_before_plain(path: Seq<char>, plain: Seq<char>)
    requires
        forall|i: int| 0 <= i < plain.len() ==> plain[i] != separator(),
    ensures
        last_separator(path + plain) == last_separator(path),
    decreases plain.len(),
{
    if plain.len() > 0 {
        lemma_last_separator_before_plain(path, plain.drop_last());
        assert((path + plain).drop_last() =~= path + plain.drop_last());
    }
}

/// An extension loaded under the module path of its directory has the
/// directory's name as its identity, as long as that name holds no
/// separator.
pub proof fn lemma_identity_is_directory_name(plugin_name: Seq<char>)
    requires
        forall|i: int| 0 <= i < plugin_name.len() ==> plugin_name[i] != separator(),
    ensures
        identity_of(module_name_of(plugin_name)) == plugin_name,
{
    reveal_strlit("lua_plugins.");
    reveal_strlit(".");
    let root = "lua_plugins."@;
    let path = module_name_of(plugin_name);
    assert(path.take(path.len() - 1) =~= root + plugin_name);
    lemma_last_separator_before_plain(root, plugin_name);
}

} // verus!
