//! Finding the editors that can be launched from a command line.
//!
//! An application that was not started from a login shell has a short `PATH`,
//! so the usual places of installation are looked at too, and an editor is
//! launched by the path that was found.

pub mod laws;

use crate::paths::{join_path, joined};
use crate::seqs::{lemma_picked_take, picked};
use crate::text::{optional_text, same, texts};
use vstd::prelude::*;

verus! {

/// What is known of the machine: the directories of `PATH`, where it is set,
/// the home directory, where it is set, and those of the paths looked at that
/// are regular files.
#[derive(Debug, Clone)]
pub struct EditorProbe {
    pub search_dirs: Option<Vec<String>>,
    pub home: Option<String>,
    pub files: Vec<String>,
}

/// Whether a path is one of a list.
pub open spec fn listed(files: Seq<Seq<char>>, path: Seq<char>) -> bool {
    exists|k: int| 0 <= k < files.len() && #[trigger] files[k] == path
}

/// The editors that are looked for: the name of the program, and the name that
/// is displayed, in the order of display.
pub open spec fn candidates() -> Seq<(Seq<char>, Seq<char>)> {
    seq![("code"@, "VS Code"@), ("subl"@, "Sublime Text"@)]
}

/// The directories in which programs usually are.
pub open spec fn usual_dirs() -> Seq<Seq<char>> {
    seq!["/usr/local/bin"@, "/usr/bin"@, "/bin"@, "/snap/bin"@]
}

/// Where the program of an editor is inside its application bundle.
pub open spec fn bundled_path(bin: Seq<char>) -> Seq<Seq<char>> {
    if bin == "code"@ {
        seq!["/Applications/Visual Studio Code.app/Contents/Resources/app/bin/code"@]
    } else if bin == "subl"@ {
        seq!["/Applications/Sublime Text.app/Contents/SharedSupport/bin/subl"@]
    } else {
        Seq::empty()
    }
}

/// The place of a program below the home directory.
pub open spec fn home_path(bin: Seq<char>, home: Option<Seq<char>>) -> Seq<Seq<char>> {
    match home {
        Some(home) => seq![joined(joined(home, ".local/bin"@), bin)],
        None => Seq::empty(),
    }
}

/// The usual places of a program, in the order in which they are tried.
pub open spec fn well_known(bin: Seq<char>, home: Option<Seq<char>>) -> Seq<Seq<char>> {
    usual_dirs().map_values(|dir: Seq<char>| joined(dir, bin)) + home_path(bin, home)
        + bundled_path(bin)
}

/// The places of a program in the directories of `PATH`.
pub open spec fn searched(bin: Seq<char>, dirs: Option<Seq<Seq<char>>>) -> Seq<Seq<char>> {
    match dirs {
        Some(dirs) => dirs.map_values(|dir: Seq<char>| joined(dir, bin)),
        None => Seq::empty(),
    }
}

/// The first of a list of paths, from a position on, that is one of `files`.
pub open spec fn first_listed(
    paths: Seq<Seq<char>>,
    files: Seq<Seq<char>>,
    from: int,
) -> Option<Seq<char>>
    decreases paths.len() - from,
{
    if from < 0 || from >= paths.len() {
        None
    } else if listed(files, paths[from]) {
        Some(paths[from])
    } else {
        first_listed(paths, files, from + 1)
    }
}

impl EditorProbe {
    /// The directories of `PATH`.
    pub open spec fn dirs(self) -> Option<Seq<Seq<char>>> {
        match self.search_dirs {
            Some(dirs) => Some(texts(dirs@)),
            None => None,
        }
    }

    /// The home directory.
    pub open spec fn home_dir(self) -> Option<Seq<char>> {
        optional_text(self.home)
    }

    /// Where a program is: in the first directory of `PATH` that has it, else in
    /// the first of its usual places that does.
    pub open spec fn resolved(self, bin: Seq<char>) -> Option<Seq<char>> {
        match first_listed(searched(bin, self.dirs()), texts(self.files@), 0) {
            Some(path) => Some(path),
            None => first_listed(well_known(bin, self.home_dir()), texts(self.files@), 0),
        }
    }
}

fn is_listed(files: &Vec<String>, path: &str) -> (r: bool)
    ensures
        r == listed(texts(files@), path@),
{
    let mut i: usize = 0;
    while i < files.len()
        invariant
            i <= files@.len(),
            forall|k: int| 0 <= k < i ==> #[trigger] texts(files@)[k] != path@,
        decreases files@.len() - i,
    {
        if same(files[i].as_str(), path) {
            assert(texts(files@)[i as int] == path@);
            return true;
        }
        i += 1;
    }
    false
}

/// The first of a list of paths that is one of `files`.
fn find_listed(paths: Vec<String>, files: &Vec<String>) -> (r: Option<String>)
    ensures
        r is Some <==> first_listed(texts(paths@), texts(files@), 0) is Some,
        r is Some ==> r->0@ == first_listed(texts(paths@), texts(files@), 0)->0,
{
    let mut i: usize = 0;
    while i < paths.len()
        invariant
            i <= paths@.len(),
            first_listed(texts(paths@), texts(files@), 0) == first_listed(
                texts(paths@),
                texts(files@),
                i as int,
            ),
        decreases paths@.len() - i,
    {
        if is_listed(files, paths[i].as_str()) {
            return Some(paths[i].clone());
        }
        i += 1;
    }
    None
}

/// The places of a program in the directories of `PATH`, in their order.
pub fn search_paths(bin: &str, search_dirs: &Option<Vec<String>>) -> (r: Vec<String>)
    ensures
        texts(r@) == searched(
            bin@,
            match *search_dirs {
                Some(dirs) => Some(texts(dirs@)),
                None => None,
            },
        ),
{
    let mut out: Vec<String> = Vec::new();
    match search_dirs {
        Some(dirs) => {
            let mut i: usize = 0;
            while i < dirs.len()
                invariant
                    i <= dirs@.len(),
                    out@.len() == i,
                    forall|k: int| 0 <= k < i ==> (#[trigger] out@[k])@ == joined(dirs@[k]@, bin@),
                decreases dirs@.len() - i,
            {
                out.push(join_path(dirs[i].as_str(), bin));
                i += 1;
            }
            assert(texts(out@) =~= searched(bin@, Some(texts(dirs@))));
        },
        None => {
            assert(texts(out@) =~= searched(bin@, None));
        },
    }
    out
}

/// The usual places of a program: the directories for programs, the one below
/// the home directory, and, of the known editors, their application bundle.
pub fn well_known_editor_paths(bin: &str, home: &Option<String>) -> (r: Vec<String>)
    ensures
        texts(r@) == well_known(bin@, optional_text(*home)),
{
    let mut out: Vec<String> = Vec::new();
    out.push(join_path("/usr/local/bin", bin));
    out.push(join_path("/usr/bin", bin));
    out.push(join_path("/bin", bin));
    out.push(join_path("/snap/bin", bin));
    let ghost usual = usual_dirs().map_values(|dir: Seq<char>| joined(dir, bin@));
    assert(texts(out@) =~= usual);
    let ghost home_dir = optional_text(*home);
    match home {
        Some(home) => {
            let programs: String = join_path(home.as_str(), ".local/bin");
            out.push(join_path(programs.as_str(), bin));
        },
        None => {},
    }
    assert(texts(out@) =~= usual + home_path(bin@, home_dir));
    if same(bin, "code") {
        out.push("/Applications/Visual Studio Code.app/Contents/Resources/app/bin/code".to_owned());
    } else if same(bin, "subl") {
        out.push("/Applications/Sublime Text.app/Contents/SharedSupport/bin/subl".to_owned());
    }
    assert(texts(out@) =~= well_known(bin@, home_dir));
    out
}

/// Looks for a program in the directories of `PATH`.
pub fn which_binary(bin: &str, probe: &EditorProbe) -> (r: Option<String>)
    ensures
        r is Some <==> first_listed(searched(bin@, probe.dirs()), texts(probe.files@), 0) is Some,
        r is Some ==> r->0@ == first_listed(
            searched(bin@, probe.dirs()),
            texts(probe.files@),
            0,
        )->0,
{
    find_listed(search_paths(bin, &probe.search_dirs), &probe.files)
}

/// Finds the path by which a program can be launched: in `PATH`, else in one of
/// its usual places.
pub fn resolve_editor_bin(bin: &str, probe: &EditorProbe) -> (r: Option<String>)
    ensures
        r is Some <==> probe.resolved(bin@) is Some,
        r is Some ==> r->0@ == probe.resolved(bin@)->0,
{
    match which_binary(bin, probe) {
        Some(path) => Some(path),
        None => find_listed(well_known_editor_paths(bin, &probe.home), &probe.files),
    }
}

/// The display names of the editors whose program was found, in the order of
/// display.
pub open spec fn installed(probe: EditorProbe) -> Seq<Seq<char>> {
    picked(
        candidates(),
        |c: (Seq<char>, Seq<char>)|
            if probe.resolved(c.0) is Some {
                Some(c.1)
            } else {
                None
            },
    )
}

/// The display names of the editors whose program was found, in the order of
/// display.
pub fn detect_installed_editors(probe: &EditorProbe) -> (r: Vec<String>)
    ensures
        texts(r@) == installed(*probe),
{
    let ghost shown = |c: (Seq<char>, Seq<char>)|
        if probe.resolved(c.0) is Some {
            Some(c.1)
        } else {
            None
        };
    let mut out: Vec<String> = Vec::new();
    proof {
        assert(candidates().take(0) =~= Seq::empty());
        assert(texts(out@) =~= picked(candidates().take(0), shown));
        lemma_picked_take(candidates(), 0, shown);
        lemma_picked_take(candidates(), 1, shown);
        assert(candidates().take(2) =~= candidates());
    }
    if resolve_editor_bin("code", probe).is_some() {
        out.push("VS Code".to_owned());
    }
    assert(texts(out@) =~= picked(candidates().take(1), shown));
    if resolve_editor_bin("subl", probe).is_some() {
        out.push("Sublime Text".to_owned());
    }
    assert(texts(out@) =~= picked(candidates(), shown));
    out
}

/// The program that a display name stands for.
pub open spec fn program_named(name: Seq<char>) -> Option<Seq<char>> {
    if name == "VS Code"@ {
        Some("code"@)
    } else if name == "Sublime Text"@ {
        Some("subl"@)
    } else {
        None
    }
}

/// The program of the editor with a display name, where there is one.
pub fn editor_bin_named(name: &str) -> (r: Option<String>)
    ensures
        r is Some <==> program_named(name@) is Some,
        r is Some ==> r->0@ == program_named(name@)->0,
{
    if same(name, "VS Code") {
        Some("code".to_owned())
    } else if same(name, "Sublime Text") {
        Some("subl".to_owned())
    } else {
        None
    }
}

/// What is launched to open a file in an editor.
pub open spec fn launched(probe: EditorProbe, bin: Seq<char>) -> Seq<char> {
    match probe.resolved(bin) {
        Some(path) => path,
        None => bin,
    }
}

/// What is launched to open a file in an editor: the path that was found, else
/// the program's bare name.
pub fn editor_program(bin: &str, probe: &EditorProbe) -> (r: String)
    ensures
        r@ == launched(*probe, bin@),
{
    match resolve_editor_bin(bin, probe) {
        Some(path) => path,
        None => bin.to_owned(),
    }
}

proof fn lemma_first_listed(paths: Seq<Seq<char>>, files: Seq<Seq<char>>, from: int)
    requires
        0 <= from,
    ensures
        match first_listed(paths, files, from) {
            Some(path) => listed(files, path) && listed(paths, path),
            None => forall|k: int|
                from <= k < paths.len() ==> !listed(files, #[trigger] paths[k]),
        },
    decreases paths.len() - from,
{
    if from < paths.len() {
        if listed(files, paths[from]) {
            assert(paths[from] == paths[from]);
        } else {
            lemma_first_listed(paths, files, from + 1);
        }
    }
}

/// A program is found exactly where one of the places looked at is a file, and
/// what is found is such a place.
pub proof fn law_resolved_is_a_file(probe: EditorProbe, bin: Seq<char>)
    ensures
        match probe.resolved(bin) {
            Some(path) => listed(texts(probe.files@), path) && (listed(
                searched(bin, probe.dirs()),
                path,
            ) || listed(well_known(bin, probe.home_dir()), path)),
            None => (forall|k: int|
                0 <= k < searched(bin, probe.dirs()).len() ==> !listed(
                    texts(probe.files@),
                    #[trigger] searched(bin, probe.dirs())[k],
                )) && (forall|k: int|
                0 <= k < well_known(bin, probe.home_dir()).len() ==> !listed(
                    texts(probe.files@),
                    #[trigger] well_known(bin, probe.home_dir())[k],
                )),
        },
{
    lemma_first_listed(searched(bin, probe.dirs()), texts(probe.files@), 0);
    lemma_first_listed(well_known(bin, probe.home_dir()), texts(probe.files@), 0);
}

} // verus!
