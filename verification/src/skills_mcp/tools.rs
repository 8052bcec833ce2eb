//! What the tools of a server give.

use crate::json::{
    array, array1, json_seq, json_text, object1, object2, object4, text_value, Json, JsonValue,
};
use crate::model::{SkillEntry, SkillScope};
use crate::text::{debug_shown, debug_text, join, join3, same};
use vstd::prelude::*;

verus! {

/// The most bytes of a file beside a skill that are read.
pub const MAX_SKILL_FILE_BYTES: u64 = 524288;

/// A text as the content of what a tool gives.
pub open spec fn content(text: Seq<char>) -> Json {
    Json::Array(
        seq![Json::Object(seq![("type"@, Json::Text("text"@)), ("text"@, Json::Text(text))])],
    )
}

/// What a tool gives: a text.
pub open spec fn given(text: Seq<char>) -> Json {
    Json::Object(seq![("content"@, content(text))])
}

/// What a tool gives when it fails: a text that says why.
pub open spec fn failed(text: Seq<char>) -> Json {
    Json::Object(seq![("content"@, content(text)), ("isError"@, Json::Bool(true))])
}

fn make_content(text: &str) -> (r: JsonValue)
    ensures
        r@ == content(text@),
{
    array1(object2("type", text_value("text"), "text", text_value(text)))
}

/// What a tool gives: a text.
pub fn give_text(text: &str) -> (r: JsonValue)
    ensures
        r@ == given(text@),
{
    object1("content", make_content(text))
}

/// What a tool gives when it fails: a text that says why.
pub fn fail_text(text: &str) -> (r: JsonValue)
    ensures
        r@ == failed(text@),
{
    object2("content", make_content(text), "isError", JsonValue::Bool(true))
}

/// The first skill, from a position on, with a name.
pub open spec fn skill_from(entries: Seq<SkillEntry>, name: Seq<char>, from: int) -> Option<int>
    decreases entries.len() - from,
{
    if from < 0 || from >= entries.len() {
        None
    } else if entries[from].name@ == name {
        Some(from)
    } else {
        skill_from(entries, name, from + 1)
    }
}

/// What is said where there is no skill with a name.
pub open spec fn no_skill(name: Seq<char>) -> Seq<char> {
    "no skill named "@ + debug_shown(name) + " found"@
}

/// The skills that a server without a project's own rules knows: those for all
/// projects, and then those of the open project.
pub fn context_skills(global: Vec<SkillEntry>, project: Vec<SkillEntry>) -> (r: Vec<SkillEntry>)
    ensures
        r@ == global@ + project@,
{
    crate::skills::collect_skills_snapshot(global, project)
}

/// The first skill with a name; where there is none, that is said.
pub fn skill_by_name(entries: &Vec<SkillEntry>, name: &str) -> (r: Result<usize, String>)
    ensures
        match skill_from(entries@, name@, 0) {
            Some(at) => r is Ok && r->Ok_0 == at,
            None => r is Err && r->Err_0@ == no_skill(name@),
        },
        r is Ok ==> r->Ok_0 < entries@.len() && entries@[r->Ok_0 as int].name@ == name@,
{
    let mut i: usize = 0;
    while i < entries.len()
        invariant
            i <= entries@.len(),
            skill_from(entries@, name@, 0) == skill_from(entries@, name@, i as int),
        decreases entries@.len() - i,
    {
        if same(entries[i].name.as_str(), name) {
            return Ok(i);
        }
        i += 1;
    }
    let quoted: String = debug_text(name);
    Err(join3("no skill named ", quoted.as_str(), " found"))
}

/// The word for where a skill belongs.
pub open spec fn scope_word(scope: SkillScope) -> Seq<char> {
    match scope {
        SkillScope::Global => "global"@,
        SkillScope::Project => "project"@,
    }
}

/// The skill that another was made from, in the list of skills.
pub open spec fn origin_json(started_from: Option<String>) -> Json {
    match started_from {
        Some(from) => Json::Text(from@),
        None => Json::Null,
    }
}

/// A skill in the list of skills.
pub open spec fn skill_json(entry: SkillEntry) -> Json {
    Json::Object(
        seq![
            ("name"@, Json::Text(entry.name@)),
            ("description"@, Json::Text(entry.description@)),
            ("scope"@, Json::Text(scope_word(entry.scope))),
            ("startedFrom"@, origin_json(entry.started_from)),
        ],
    )
}

fn make_skill(entry: &SkillEntry) -> (r: JsonValue)
    ensures
        r@ == skill_json(*entry),
{
    let scope: &str = match entry.scope {
        SkillScope::Global => "global",
        SkillScope::Project => "project",
    };
    let from: JsonValue = match &entry.started_from {
        Some(from) => text_value(from.as_str()),
        None => JsonValue::Null,
    };
    assert(from@ == origin_json(entry.started_from));
    object4(
        "name",
        text_value(entry.name.as_str()),
        "description",
        text_value(entry.description.as_str()),
        "scope",
        text_value(scope),
        "startedFrom",
        from,
    )
}

/// The list of skills.
pub open spec fn skills_listed(entries: Seq<SkillEntry>) -> Json {
    Json::Array(entries.map_values(|entry: SkillEntry| skill_json(entry)))
}

/// What is given of the list of skills.
pub open spec fn skills_given(entries: Seq<SkillEntry>) -> Json {
    given(json_text(skills_listed(entries)))
}

/// The list of skills, as JSON in a text.
pub fn list_skills_result(entries: &Vec<SkillEntry>) -> (r: JsonValue)
    ensures
        r@ == skills_given(entries@),
{
    let mut out: Vec<JsonValue> = Vec::new();
    let mut i: usize = 0;
    while i < entries.len()
        invariant
            i <= entries@.len(),
            out@.len() == i,
            forall|k: int| 0 <= k < i ==> (#[trigger] out@[k])@ == skill_json(entries@[k]),
        decreases entries@.len() - i,
    {
        out.push(make_skill(&entries[i]));
        i += 1;
    }
    assert(json_seq(out@) =~= entries@.map_values(|entry: SkillEntry| skill_json(entry)));
    let text: String = array(out).to_text();
    give_text(text.as_str())
}

/// What came of reading the file of a skill, whose path is `shown` in messages.
#[derive(Debug, Clone, PartialEq, Eq)]
pub enum SkillRead {
    Directory { shown: String },
    Failed { shown: String, error: String },
    Content { text: String },
}

/// What is given of a skill.
pub open spec fn skill_given(read: SkillRead) -> Json {
    match read {
        SkillRead::Directory { shown } => failed(
            shown@ + " is a directory, not a readable SKILL.md file"@,
        ),
        SkillRead::Failed { shown, error } => failed(
            "failed to read "@ + shown@ + ": "@ + error@,
        ),
        SkillRead::Content { text } => given(text@),
    }
}

/// What is given for a name where no skill has it.
pub open spec fn unknown_given(name: Seq<char>) -> Json {
    failed(no_skill(name))
}

/// What is given for a name where no skill has it.
pub fn unknown_skill_result(name: &str) -> (r: JsonValue)
    ensures
        r@ == unknown_given(name@),
{
    let quoted: String = debug_text(name);
    let text: String = join3("no skill named ", quoted.as_str(), " found");
    fail_text(text.as_str())
}

/// What is given of a skill, by what came of reading its file.
pub fn read_skill_result(read: &SkillRead) -> (r: JsonValue)
    ensures
        r@ == skill_given(*read),
{
    match read {
        SkillRead::Directory { shown } => {
            let text: String = join(
                shown.as_str(),
                " is a directory, not a readable SKILL.md file",
            );
            fail_text(text.as_str())
        },
        SkillRead::Failed { shown, error } => {
            let what: String = join3("failed to read ", shown.as_str(), ": ");
            let text: String = join(what.as_str(), error.as_str());
            fail_text(text.as_str())
        },
        SkillRead::Content { text } => give_text(text.as_str()),
    }
}

/// What came of reading a file beside a skill, once its path was accepted.
#[derive(Debug, PartialEq, Eq)]
pub enum FileRead {
    /// Its size could not be had.
    Unmeasured { error: String },
    /// It has a size, and was read unless it is too large.
    Measured { bytes: u64, read: Result<String, String> },
}

/// What is given of a file beside a skill.
pub open spec fn file_given(path: Seq<char>, file: Result<FileRead, String>) -> Json {
    match file {
        Err(refusal) => failed(refusal@),
        Ok(FileRead::Unmeasured { error }) => failed(
            "failed to access "@ + debug_shown(path) + ": "@ + error@,
        ),
        Ok(FileRead::Measured { bytes, read }) => if bytes > MAX_SKILL_FILE_BYTES {
            failed(debug_shown(path) + " exceeds the 524288-byte skill file limit"@)
        } else {
            match read {
                Ok(text) => given(text@),
                Err(error) => failed("failed to read "@ + debug_shown(path) + ": "@ + error@),
            }
        },
    }
}

/// What is given of a file beside a skill: `file` is why its path is not
/// accepted, or what came of reading it.
pub fn read_skill_file_result(path: &str, file: &Result<FileRead, String>) -> (r: JsonValue)
    ensures
        r@ == file_given(path@, *file),
{
    let quoted: String = debug_text(path);
    match file {
        Err(refusal) => fail_text(refusal.as_str()),
        Ok(FileRead::Unmeasured { error }) => {
            let what: String = join3("failed to access ", quoted.as_str(), ": ");
            let text: String = join(what.as_str(), error.as_str());
            fail_text(text.as_str())
        },
        Ok(FileRead::Measured { bytes, read }) => if *bytes > MAX_SKILL_FILE_BYTES {
            let text: String = join(quoted.as_str(), " exceeds the 524288-byte skill file limit");
            fail_text(text.as_str())
        } else {
            match read {
                Ok(text) => give_text(text.as_str()),
                Err(error) => {
                    let what: String = join3("failed to read ", quoted.as_str(), ": ");
                    let text: String = join(what.as_str(), error.as_str());
                    fail_text(text.as_str())
                },
            }
        },
    }
}

/// Nothing of a file that is too large is given, whatever came of reading it.
pub proof fn law_large_files_are_not_given(
    path: Seq<char>,
    bytes: u64,
    a: Result<String, String>,
    b: Result<String, String>,
)
    requires
        bytes > MAX_SKILL_FILE_BYTES,
    ensures
        file_given(path, Ok(FileRead::Measured { bytes, read: a })) == file_given(
            path,
            Ok(FileRead::Measured { bytes, read: b }),
        ),
{
}

} // verus!
