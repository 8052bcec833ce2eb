//! Where editors are found, said of the places.

use crate::editor_detect::{
    first_listed, installed, launched, listed, program_named, searched, well_known, EditorProbe,
};
use crate::paths::joined;
use crate::seqs::picked;
use crate::text::texts;
use vstd::prelude::*;

verus! {

proof fn lemma_first(paths: Seq<Seq<char>>, files: Seq<Seq<char>>, from: int, k: int)
    requires
        0 <= from <= k < paths.len(),
        listed(files, paths[k]),
        forall|i: int| from <= i < k ==> !listed(files, #[trigger] paths[i]),
    ensures
        first_listed(paths, files, from) == Some(paths[k]),
    decreases k - from,
{
    if from < k {
        lemma_first(paths, files, from + 1, k);
    }
}

/// A program is taken from the first directory of `PATH` that has it, whatever
/// else has it.
pub proof fn law_path_comes_first(probe: EditorProbe, bin: Seq<char>, dirs: Vec<String>, k: int)
    requires
        probe.search_dirs == Some(dirs),
        0 <= k < dirs@.len(),
        listed(texts(probe.files@), joined(dirs@[k]@, bin)),
        forall|i: int|
            0 <= i < k ==> !listed(texts(probe.files@), joined((#[trigger] dirs@[i])@, bin)),
    ensures
        probe.resolved(bin) == Some(joined(dirs@[k]@, bin)),
        launched(probe, bin) == joined(dirs@[k]@, bin),
{
    let paths = searched(bin, probe.dirs());
    assert(paths.len() == dirs@.len());
    assert forall|i: int| 0 <= i < k implies !listed(
        texts(probe.files@),
        #[trigger] paths[i],
    ) by {
        assert(paths[i] == joined(dirs@[i]@, bin));
    }
    assert(paths[k] == joined(dirs@[k]@, bin));
    lemma_first(paths, texts(probe.files@), 0, k);
}

/// The usual places of a program are the directories for programs, in this order,
/// then the one below the home directory, and then, of an editor that is known,
/// the one in its bundle.
pub proof fn law_usual_places(bin: Seq<char>, home: Option<Seq<char>>)
    ensures
        ({
            let places = well_known(bin, home);
            &&& places.len() >= 4
            &&& places[0] == joined("/usr/local/bin"@, bin)
            &&& places[1] == joined("/usr/bin"@, bin)
            &&& places[2] == joined("/bin"@, bin)
            &&& places[3] == joined("/snap/bin"@, bin)
            &&& home matches Some(dir) ==> places.len() >= 5 && places[4] == joined(
                joined(dir, ".local/bin"@),
                bin,
            )
            &&& bin == "code"@ ==> places.last()
                == "/Applications/Visual Studio Code.app/Contents/Resources/app/bin/code"@
            &&& bin == "subl"@ ==> places.last()
                == "/Applications/Sublime Text.app/Contents/SharedSupport/bin/subl"@
            &&& bin != "code"@ && bin != "subl"@ ==> places.len() == (if home is Some {
                5int
            } else {
                4
            })
        }),
{
    reveal_strlit("code");
    reveal_strlit("subl");
    assert("code"@[0] != "subl"@[0]);
}

/// A program that is in none of the directories of `PATH` is taken from the first
/// of its usual places that has it; where none has, it is launched by its name.
pub proof fn law_usual_places_come_next(probe: EditorProbe, bin: Seq<char>, k: int)
    requires
        first_listed(searched(bin, probe.dirs()), texts(probe.files@), 0) is None,
    ensures
        0 <= k < well_known(bin, probe.home_dir()).len() && listed(
            texts(probe.files@),
            well_known(bin, probe.home_dir())[k],
        ) && (forall|i: int|
            0 <= i < k ==> !listed(
                texts(probe.files@),
                #[trigger] well_known(bin, probe.home_dir())[i],
            )) ==> probe.resolved(bin) == Some(well_known(bin, probe.home_dir())[k]),
        probe.files@.len() == 0 ==> launched(probe, bin) == bin,
{
    let paths = well_known(bin, probe.home_dir());
    let files = texts(probe.files@);
    if 0 <= k < paths.len() && listed(files, paths[k]) && forall|i: int|
        0 <= i < k ==> !listed(files, #[trigger] paths[i]) {
        lemma_first(paths, files, 0, k);
    }
    if probe.files@.len() == 0 {
        crate::editor_detect::law_resolved_is_a_file(probe, bin);
    }
}

/// The editors that are offered are those whose program was found, VS Code first.
pub proof fn law_found_editors_are_offered(probe: EditorProbe)
    ensures
        ({
            let code = probe.resolved("code"@) is Some;
            let subl = probe.resolved("subl"@) is Some;
            let names = installed(probe);
            &&& code && subl ==> names == seq!["VS Code"@, "Sublime Text"@]
            &&& code && !subl ==> names == seq!["VS Code"@]
            &&& !code && subl ==> names == seq!["Sublime Text"@]
            &&& !code && !subl ==> names.len() == 0
        }),
        program_named("VS Code"@) == Some("code"@),
        program_named("Sublime Text"@) == Some("subl"@),
        forall|name: Seq<char>|
            name != "VS Code"@ && name != "Sublime Text"@ ==> #[trigger] program_named(
                name,
            ) is None,
{
    reveal_strlit("VS Code");
    reveal_strlit("Sublime Text");
    assert("VS Code"@.len() == 7 && "Sublime Text"@.len() == 12);
    let f = |c: (Seq<char>, Seq<char>)|
        if probe.resolved(c.0) is Some {
            Some(c.1)
        } else {
            None
        };
    let all = crate::editor_detect::candidates();
    let one = all.drop_last();
    assert(one.drop_last() =~= Seq::empty());
    assert(picked(one.drop_last(), f) =~= Seq::empty());
    assert(one.last() == ("code"@, "VS Code"@));
    assert(all.last() == ("subl"@, "Sublime Text"@));
    let names = installed(probe);
    if probe.resolved("code"@) is Some {
        assert(picked(one, f) =~= seq!["VS Code"@]);
        if probe.resolved("subl"@) is Some {
            assert(names =~= seq!["VS Code"@, "Sublime Text"@]);
        }
    } else {
        assert(picked(one, f) =~= Seq::empty());
        if probe.resolved("subl"@) is Some {
            assert(names =~= seq!["Sublime Text"@]);
        }
    }
}

} // verus!
