//! What the functions on paths mean, said of the paths.

use crate::paths::{
    idle_part, joined, last_part, last_slash, lemma_last_slash, parent_of, without_tail,
};
use vstd::prelude::*;

verus! {

/// What is joined to a directory stands below it, behind one slash; a path that
/// starts at the root stays itself.
pub proof fn law_joined_stands_below(dir: Seq<char>, name: Seq<char>)
    ensures
        name.len() > 0 && name[0] == '/' ==> joined(dir, name) == name,
        !(name.len() > 0 && name[0] == '/') ==> dir.is_prefix_of(joined(dir, name))
            && name.is_suffix_of(joined(dir, name)),
        !(name.len() > 0 && name[0] == '/') && dir.len() > 0 && dir.last() != '/' ==> joined(
            dir,
            name,
        ) == dir + seq!['/'] + name,
        !(name.len() > 0 && name[0] == '/') && dir.len() > 0 && dir.last() == '/' ==> joined(
            dir,
            name,
        ) == dir + name,
        dir.len() == 0 ==> joined(dir, name) == name,
{
    reveal_strlit("/");
    assert("/"@ =~= seq!['/']);
    let whole = joined(dir, name);
    if !(name.len() > 0 && name[0] == '/') {
        assert(whole.take(dir.len() as int) =~= dir);
        assert(whole.skip(whole.len() - name.len()) =~= name);
    }
    if dir.len() == 0 {
        assert(dir + name =~= name);
    }
}

/// What stands in a directory has the directory as its parent.
pub proof fn law_parent_of_a_child(dir: Seq<char>, name: Seq<char>)
    requires
        dir.len() > 0,
        !idle_part(last_part(dir)),
        !idle_part(name),
        forall|k: int| 0 <= k < name.len() ==> name[k] != '/',
    ensures
        parent_of(dir + seq!['/'] + name) == Some(dir),
{
    let s = dir + seq!['/'] + name;
    let at = dir.len() as int;
    lemma_last_slash(s);
    lemma_last_slash(dir);
    assert(s[at] == '/');
    if last_slash(s) > at {
        assert(s[last_slash(s)] == name[last_slash(s) - at - 1]);
    }
    assert(last_slash(s) == at);
    assert(last_part(s) =~= name);
    assert(without_tail(s) == s);
    assert(s.take(at) =~= dir);
    assert(without_tail(dir) == dir);
    assert(s.len() > 1);
}

} // verus!
