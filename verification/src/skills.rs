//! Skills: which are shown, and which one a search opens.

pub mod laws;

use crate::model::SkillEntry;
use crate::paths::{parent, parent_of};
use crate::text::{
    before, comes_before, contains, holds, law_before_is_a_total_order, law_before_is_transitive,
    lower_text, lowered, optional_text, trim, trimmed,
};
use vstd::prelude::*;

verus! {

/// The directory of the open project, in which its skills are looked for.
pub open spec fn skills_dir(active_project_path: Option<Seq<char>>) -> Option<Seq<char>> {
    match active_project_path {
        Some(path) => parent_of(path),
        None => None,
    }
}

/// The directory of the open project, in which its skills are looked for.
pub fn skills_project_dir(active_project_path: &Option<String>) -> (r: Option<String>)
    ensures
        optional_text(r) == skills_dir(optional_text(*active_project_path)),
{
    match active_project_path {
        Some(path) => parent(path.as_str()),
        None => None,
    }
}

/// The skills that are shown: those for all projects, and then those of the open
/// project.
pub fn collect_skills_snapshot(global: Vec<SkillEntry>, project: Vec<SkillEntry>) -> (r: Vec<
    SkillEntry,
>)
    ensures
        r@ == global@ + project@,
{
    let mut out: Vec<SkillEntry> = global;
    let mut rest: Vec<SkillEntry> = project;
    out.append(&mut rest);
    out
}

/// The skills that a search looks through.
pub open spec fn looked_through(
    global: Seq<SkillEntry>,
    project: Seq<SkillEntry>,
    show_global: bool,
) -> Seq<SkillEntry> {
    if show_global {
        global + project
    } else {
        project
    }
}

/// The skills that a search looks through: those of the open project, and before
/// them those for all projects where these are shown.
pub fn searched_skills(
    global: Vec<SkillEntry>,
    project: Vec<SkillEntry>,
    show_global: bool,
) -> (r: Vec<SkillEntry>)
    ensures
        r@ == looked_through(global@, project@, show_global),
{
    if show_global {
        collect_skills_snapshot(global, project)
    } else {
        project
    }
}

/// Whether a search finds a skill: by its name or its description, in lower
/// case; an empty search finds every skill.
pub open spec fn found(entry: SkillEntry, needle: Seq<char>) -> bool {
    needle.len() == 0 || holds(lowered(entry.name@), needle) || holds(
        lowered(entry.description@),
        needle,
    )
}

/// What a search looks for.
pub open spec fn searched_for(query: Seq<char>) -> Seq<char> {
    lowered(trimmed(query))
}

/// Whether a skill is the one that a search opens: it is found, and no skill
/// that is found has a name that comes before, nor the same name and an earlier
/// place.
pub open spec fn opened(entries: Seq<SkillEntry>, needle: Seq<char>, k: int) -> bool {
    &&& 0 <= k < entries.len()
    &&& found(entries[k], needle)
    &&& forall|j: int|
        0 <= j < entries.len() && found(#[trigger] entries[j], needle) ==> !before(
            entries[j].name@,
            entries[k].name@,
        ) && (entries[j].name@ == entries[k].name@ ==> k <= j)
}

fn is_found(entry: &SkillEntry, needle: &str) -> (r: bool)
    ensures
        r == found(*entry, needle@),
{
    if needle.unicode_len() == 0 {
        return true;
    }
    let name: String = lower_text(entry.name.as_str());
    let description: String = lower_text(entry.description.as_str());
    contains(name.as_str(), needle) || contains(description.as_str(), needle)
}

/// Whether a place is that of the skill that a search opens, if it opens one.
pub open spec fn search_opens(
    entries: Seq<SkillEntry>,
    query: Seq<char>,
    at: Option<usize>,
) -> bool {
    match at {
        Some(k) => opened(entries, searched_for(query), k as int),
        None => forall|j: int|
            0 <= j < entries.len() ==> !found(#[trigger] entries[j], searched_for(query)),
    }
}

/// The place of the skill that a search opens: of those that it finds, the first
/// by name.
pub fn open_skill_search_result(entries: &Vec<SkillEntry>, query: &str) -> (r: Option<usize>)
    ensures
        search_opens(entries@, query@, r),
{
    let needle: String = lower_text(trim(query));
    let ghost wanted = searched_for(query@);
    let mut best: Option<usize> = None;
    let mut i: usize = 0;
    while i < entries.len()
        invariant
            i <= entries@.len(),
            needle@ == wanted,
            match best {
                Some(k) => k < i && opened(entries@.take(i as int), wanted, k as int),
                None => forall|j: int| 0 <= j < i ==> !found(#[trigger] entries@[j], wanted),
            },
        decreases entries@.len() - i,
    {
        let ghost head = entries@.take(i as int);
        let ghost next = entries@.take(i + 1);
        if is_found(&entries[i], needle.as_str()) {
            let better: bool = match best {
                Some(k) => comes_before(entries[i].name.as_str(), entries[k].name.as_str()),
                None => true,
            };
            proof {
                let new = entries@[i as int].name@;
                law_before_is_a_total_order(new, new);
                match best {
                    Some(k) => {
                        let old_name = entries@[k as int].name@;
                        assert(head[k as int] == entries@[k as int]);
                        assert forall|j: int| 0 <= j < i && found(
                            #[trigger] entries@[j],
                            wanted,
                        ) implies !before(entries@[j].name@, old_name) && (entries@[j].name@
                            == old_name ==> k <= j) by {
                            assert(head[j] == entries@[j]);
                        }
                        if better {
                            assert forall|j: int| 0 <= j < next.len() && found(
                                #[trigger] next[j],
                                wanted,
                            ) implies !before(next[j].name@, new) && (next[j].name@ == new ==> i
                                <= j) by {
                                if j < i {
                                    assert(next[j] == entries@[j]);
                                    if before(entries@[j].name@, new) {
                                        law_before_is_transitive(
                                            entries@[j].name@,
                                            new,
                                            old_name,
                                        );
                                    }
                                }
                            }
                        } else {
                            assert forall|j: int| 0 <= j < next.len() && found(
                                #[trigger] next[j],
                                wanted,
                            ) implies !before(next[j].name@, old_name) && (next[j].name@
                                == old_name ==> k <= j) by {
                                assert(next[j] == entries@[j]);
                            }
                        }
                    },
                    None => {
                        assert forall|j: int| 0 <= j < next.len() && found(
                            #[trigger] next[j],
                            wanted,
                        ) implies !before(next[j].name@, new) && (next[j].name@ == new ==> i
                            <= j) by {
                            assert(next[j] == entries@[j]);
                        }
                    },
                }
            }
            if better {
                best = Some(i);
            }
        } else {
            proof {
                if let Some(k) = best {
                    assert(head[k as int] == entries@[k as int]);
                    assert forall|j: int| 0 <= j < next.len() && found(
                        #[trigger] next[j],
                        wanted,
                    ) implies !before(next[j].name@, next[k as int].name@) && (next[j].name@
                        == next[k as int].name@ ==> k <= j) by {
                        assert(next[j] == entries@[j]);
                        assert(j < i);
                        assert(head[j] == entries@[j]);
                    }
                }
            }
        }
        i += 1;
    }
    assert(entries@.take(i as int) =~= entries@);
    best
}

/// A search opens at most one skill.
pub proof fn law_search_opens_one(
    entries: Seq<SkillEntry>,
    needle: Seq<char>,
    a: int,
    b: int,
)
    requires
        opened(entries, needle, a),
        opened(entries, needle, b),
    ensures
        a == b,
{
    law_before_is_a_total_order(entries[a].name@, entries[b].name@);
}

} // verus!
