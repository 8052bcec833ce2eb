//! What a search of skills opens, said of the skills.

use crate::model::SkillEntry;
use crate::paths::parent_of;
use crate::skills::{found, looked_through, search_opens, searched_for, skills_dir};
use crate::text::{before, holds, lowered, trimmed};
use vstd::prelude::*;

verus! {

/// A search looks through the skills of the open project, and through those for
/// all projects only where these are shown.
pub proof fn law_hidden_skills_are_not_searched(
    global: Seq<SkillEntry>,
    project: Seq<SkillEntry>,
)
    ensures
        looked_through(global, project, false) == project,
        looked_through(global, project, true).len() == global.len() + project.len(),
        global.is_prefix_of(looked_through(global, project, true)),
        project.is_suffix_of(looked_through(global, project, true)),
{
    let all = looked_through(global, project, true);
    assert(all.take(global.len() as int) =~= global);
    assert(all.skip(all.len() - project.len()) =~= project);
}

/// A skill is found by a part of its name or of what it is for, whatever the
/// case; an empty search finds all.
pub proof fn law_skills_are_found(entry: SkillEntry, query: Seq<char>)
    ensures
        holds(lowered(entry.name@), lowered(trimmed(query))) ==> found(entry, searched_for(query)),
        holds(lowered(entry.description@), lowered(trimmed(query))) ==> found(
            entry,
            searched_for(query),
        ),
        lowered(trimmed(query)).len() == 0 ==> found(entry, searched_for(query)),
        found(entry, searched_for(query)) && lowered(trimmed(query)).len() > 0 ==> holds(
            lowered(entry.name@),
            lowered(trimmed(query)),
        ) || holds(lowered(entry.description@), lowered(trimmed(query))),
{
}

/// What a search opens is found by it, and none that it finds comes before it by
/// name; where it opens nothing, it finds nothing.
pub proof fn law_first_by_name_is_opened(
    entries: Seq<SkillEntry>,
    query: Seq<char>,
    at: Option<usize>,
    j: int,
)
    requires
        search_opens(entries, query, at),
        0 <= j < entries.len(),
        found(entries[j], searched_for(query)),
    ensures
        at is Some,
        at->0 < entries.len(),
        found(entries[at->0 as int], searched_for(query)),
        entries[j].name@ == entries[at->0 as int].name@ || before(
            entries[at->0 as int].name@,
            entries[j].name@,
        ),
{
    if let Some(k) = at {
        crate::text::law_before_is_a_total_order(entries[j].name@, entries[k as int].name@);
    }
}

/// The skills of a project are beside its file.
pub proof fn law_project_skills_are_beside_its_file(path: Seq<char>)
    ensures
        skills_dir(Some(path)) == parent_of(path),
        skills_dir(None) is None,
{
}

} // verus!
