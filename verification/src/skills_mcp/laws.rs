//! What the servers answer, said of the fields of their answers.

use crate::json::{
    field, has_only, items_field, json_parsed, json_text, lemma_four_fields, lemma_one_field,
    lemma_three_fields, lemma_two_fields, str_field, Json,
};
use crate::model::{SkillEntry, SkillScope};
use crate::paths::joined;
use crate::skills_mcp::{
    answer, args_read, called, dirs_from, handled, request_in, request_read, HandledView, Server,
};
use crate::skills_mcp::files::{
    below, files_given, first_obstacle, gathered, gathered_from, leads_to, lists_in_order,
    names_from, obstacle, ordered, part_of, path_names, plain_name, refusal, split_from,
    unlisted_given, walks, DirNode, Looked, PartView, PathWalk,
};
use crate::skills_mcp::tools::{
    file_given, given, no_skill, skill_from, skill_given, skills_given, skills_listed,
    unknown_given, FileRead, SkillRead,
};
use crate::text::{before, debug_shown, trimmed};
use vstd::prelude::*;

verus! {

proof fn lemma_names()
    ensures
        "content"@ != "isError"@,
        "type"@ != "text"@,
        "name"@ != "description"@,
        "name"@ != "scope"@,
        "name"@ != "startedFrom"@,
        "description"@ != "scope"@,
        "description"@ != "startedFrom"@,
        "scope"@ != "startedFrom"@,
        "name"@ != "inputSchema"@,
        "description"@ != "inputSchema"@,
        "name"@ != "version"@,
        "name"@ != "path"@,
        "protocolVersion"@ != "capabilities"@,
        "protocolVersion"@ != "serverInfo"@,
        "capabilities"@ != "serverInfo"@,
        "jsonrpc"@ != "id"@,
        "jsonrpc"@ != "result"@,
        "jsonrpc"@ != "error"@,
        "id"@ != "result"@,
        "id"@ != "error"@,
        "result"@ != "error"@,
        "code"@ != "message"@,
        "type"@ != "properties"@,
        "type"@ != "required"@,
        "properties"@ != "required"@,
{
    reveal_strlit("content");
    reveal_strlit("isError");
    reveal_strlit("type");
    reveal_strlit("text");
    reveal_strlit("name");
    reveal_strlit("description");
    reveal_strlit("scope");
    reveal_strlit("startedFrom");
    reveal_strlit("inputSchema");
    reveal_strlit("version");
    reveal_strlit("path");
    reveal_strlit("protocolVersion");
    reveal_strlit("capabilities");
    reveal_strlit("serverInfo");
    reveal_strlit("jsonrpc");
    reveal_strlit("id");
    reveal_strlit("result");
    reveal_strlit("error");
    reveal_strlit("code");
    reveal_strlit("message");
    reveal_strlit("properties");
    reveal_strlit("required");
    assert("content"@[0] != "isError"@[0]);
    assert("type"@[1] != "text"@[1]);
    assert("name"@.len() == 4 && "description"@.len() == 11 && "scope"@.len() == 5);
    assert("startedFrom"@.len() == 11 && "inputSchema"@.len() == 11 && "version"@.len() == 7);
    assert("description"@[0] != "startedFrom"@[0]);
    assert("description"@[0] != "inputSchema"@[0]);
    assert("name"@[0] != "path"@[0]);
    assert("protocolVersion"@.len() == 15 && "capabilities"@.len() == 12);
    assert("serverInfo"@.len() == 10 && "jsonrpc"@.len() == 7 && "id"@.len() == 2);
    assert("result"@.len() == 6 && "error"@.len() == 5);
    assert("code"@.len() == 4 && "message"@.len() == 7);
    assert("type"@.len() == 4 && "properties"@.len() == 10 && "required"@.len() == 8);
}

/// Whether a tool's result is a single text.
pub open spec fn says(result: Json, text: Seq<char>) -> bool {
    items_field(result, "content"@) matches Some(entries) && entries.len() == 1 && str_field(
        entries[0],
        "type"@,
    ) == Some("text"@) && str_field(entries[0], "text"@) == Some(text) && has_only(
        entries[0],
        seq!["type"@, "text"@],
    )
}

/// Whether a tool's result is the text that was asked for: it has nothing but
/// its content, so that it is no failure.
pub open spec fn succeeds_with(result: Json, text: Seq<char>) -> bool {
    says(result, text) && has_only(result, seq!["content"@]) && field(result, "isError"@) is None
}

/// Whether a tool's result is a failure, with a text that says why.
pub open spec fn fails_with(result: Json, text: Seq<char>) -> bool {
    says(result, text) && has_only(result, seq!["content"@, "isError"@]) && field(
        result,
        "isError"@,
    ) == Some(Json::Bool(true))
}

proof fn lemma_forms(text: Seq<char>)
    ensures
        succeeds_with(given(text), text),
        fails_with(crate::skills_mcp::tools::failed(text), text),
{
    lemma_names();
    let content = crate::skills_mcp::tools::content(text);
    lemma_two_fields("type"@, Json::Text("text"@), "text"@, Json::Text(text));
    lemma_one_field("content"@, content);
    lemma_two_fields("content"@, content, "isError"@, Json::Bool(true));
    let ok = given(text);
    assert(items_field(ok, "content"@) == Some(content->Array_0));
    if field(ok, "isError"@) is Some {
        assert(seq!["content"@].contains("isError"@));
    }
}

/// A skill whose file was read is given as just what the file holds, and is no
/// failure.
pub proof fn law_skill_is_given_as_read(text: String)
    ensures
        succeeds_with(skill_given(SkillRead::Content { text }), text@),
{
    lemma_forms(text@);
}

/// A skill whose file could not be read is a failure, which names the file and
/// says why.
pub proof fn law_unread_skill_is_a_failure(shown: String, error: String)
    ensures
        fails_with(
            skill_given(SkillRead::Failed { shown, error }),
            "failed to read "@ + shown@ + ": "@ + error@,
        ),
        fails_with(
            skill_given(SkillRead::Directory { shown }),
            shown@ + " is a directory, not a readable SKILL.md file"@,
        ),
{
    lemma_forms("failed to read "@ + shown@ + ": "@ + error@);
    lemma_forms(shown@ + " is a directory, not a readable SKILL.md file"@);
}

/// A result is marked as a failure exactly where the file of the skill could not
/// be read.
pub proof fn law_only_unread_skills_are_failures(read: SkillRead)
    ensures
        field(skill_given(read), "isError"@) is Some <==> !(read is Content),
{
    match read {
        SkillRead::Directory { shown } => {
            law_unread_skill_is_a_failure(shown, shown);
        },
        SkillRead::Failed { shown, error } => {
            law_unread_skill_is_a_failure(shown, error);
        },
        SkillRead::Content { text } => {
            law_skill_is_given_as_read(text);
        },
    }
}

/// A name that no skill has is a failure, which quotes the name.
pub proof fn law_unknown_skill_is_a_failure(name: Seq<char>)
    ensures
        fails_with(unknown_given(name), no_skill(name)),
        no_skill(name) == "no skill named "@ + debug_shown(name) + " found"@,
{
    lemma_forms(no_skill(name));
}

/// A file beside a skill is given as just what it holds where it was read and is
/// no larger than half a megabyte; in every other case the result is a failure.
pub proof fn law_file_is_given_as_read(path: Seq<char>, file: Result<FileRead, String>)
    ensures
        field(file_given(path, file), "isError"@) is None <==> (file matches Ok(
            FileRead::Measured { bytes, read },
        ) && bytes <= 524288 && read is Ok),
        file matches Ok(FileRead::Measured { bytes, read: Ok(text) }) ==> bytes <= 524288
            ==> succeeds_with(file_given(path, file), text@),
        file matches Ok(FileRead::Measured { bytes, read: Err(error) }) ==> bytes <= 524288
            ==> fails_with(
            file_given(path, file),
            "failed to read "@ + debug_shown(path) + ": "@ + error@,
        ),
        file matches Ok(FileRead::Measured { bytes, read }) ==> bytes > 524288 ==> fails_with(
            file_given(path, file),
            debug_shown(path) + " exceeds the 524288-byte skill file limit"@,
        ),
        file matches Ok(FileRead::Unmeasured { error }) ==> fails_with(
            file_given(path, file),
            "failed to access "@ + debug_shown(path) + ": "@ + error@,
        ),
        file matches Err(why) ==> fails_with(file_given(path, file), why@),
{
    match file {
        Err(why) => {
            lemma_forms(why@);
        },
        Ok(FileRead::Unmeasured { error }) => {
            lemma_forms("failed to access "@ + debug_shown(path) + ": "@ + error@);
        },
        Ok(FileRead::Measured { bytes, read }) => {
            lemma_forms(debug_shown(path) + " exceeds the 524288-byte skill file limit"@);
            match read {
                Ok(text) => {
                    lemma_forms(text@);
                },
                Err(error) => {
                    lemma_forms("failed to read "@ + debug_shown(path) + ": "@ + error@);
                },
            }
        },
    }
}

/// The list of skills is no failure, and is the text of a list with one entry for
/// each skill, in order: its name, what it is for, where it belongs, and what it
/// was made from.
pub proof fn law_skills_are_listed(entries: Seq<SkillEntry>)
    ensures
        succeeds_with(skills_given(entries), json_text(skills_listed(entries))),
        skills_listed(entries) is Array,
        skills_listed(entries)->Array_0.len() == entries.len(),
        forall|i: int|
            0 <= i < entries.len() ==> {
                let listed = #[trigger] skills_listed(entries)->Array_0[i];
                &&& str_field(listed, "name"@) == Some(entries[i].name@)
                &&& str_field(listed, "description"@) == Some(entries[i].description@)
                &&& entries[i].scope == SkillScope::Global ==> str_field(listed, "scope"@) == Some(
                    "global"@,
                )
                &&& entries[i].scope == SkillScope::Project ==> str_field(listed, "scope"@) == Some(
                    "project"@,
                )
                &&& entries[i].started_from matches Some(from) ==> str_field(
                    listed,
                    "startedFrom"@,
                ) == Some(from@)
                &&& entries[i].started_from is None ==> field(listed, "startedFrom"@) == Some(
                    Json::Null,
                )
                &&& has_only(listed, seq!["name"@, "description"@, "scope"@, "startedFrom"@])
            },
{
    lemma_names();
    lemma_forms(json_text(skills_listed(entries)));
    assert forall|i: int| 0 <= i < entries.len() implies {
        let listed = #[trigger] skills_listed(entries)->Array_0[i];
        &&& str_field(listed, "name"@) == Some(entries[i].name@)
        &&& str_field(listed, "description"@) == Some(entries[i].description@)
        &&& entries[i].scope == SkillScope::Global ==> str_field(listed, "scope"@) == Some(
            "global"@,
        )
        &&& entries[i].scope == SkillScope::Project ==> str_field(listed, "scope"@) == Some(
            "project"@,
        )
        &&& entries[i].started_from matches Some(from) ==> str_field(listed, "startedFrom"@)
            == Some(from@)
        &&& entries[i].started_from is None ==> field(listed, "startedFrom"@) == Some(Json::Null)
        &&& has_only(listed, seq!["name"@, "description"@, "scope"@, "startedFrom"@])
    } by {
        let e = entries[i];
        lemma_four_fields(
            "name"@,
            Json::Text(e.name@),
            "description"@,
            Json::Text(e.description@),
            "scope"@,
            Json::Text(crate::skills_mcp::tools::scope_word(e.scope)),
            "startedFrom"@,
            crate::skills_mcp::tools::origin_json(e.started_from),
        );
    }
}

/// Files that could not be listed are a failure that says why.
pub proof fn law_unlisted_files_are_a_failure(error: Seq<char>)
    ensures
        fails_with(unlisted_given(error), "failed to list skill files: "@ + error),
{
    lemma_forms("failed to list skill files: "@ + error);
}

/// The skill that is meant by a name is the first that has it, and there is none
/// only where no skill has it.
pub proof fn law_first_skill_of_a_name(entries: Seq<SkillEntry>, name: Seq<char>)
    ensures
        skill_from(entries, name, 0) matches Some(at) ==> 0 <= at < entries.len()
            && entries[at].name@ == name && forall|k: int|
            0 <= k < at ==> (#[trigger] entries[k]).name@ != name,
        skill_from(entries, name, 0) is None ==> forall|k: int|
            0 <= k < entries.len() ==> (#[trigger] entries[k]).name@ != name,
{
    lemma_first_skill(entries, name, 0);
}

proof fn lemma_first_skill(entries: Seq<SkillEntry>, name: Seq<char>, from: int)
    requires
        0 <= from <= entries.len(),
    ensures
        skill_from(entries, name, from) matches Some(at) ==> from <= at < entries.len()
            && entries[at].name@ == name && forall|k: int|
            from <= k < at ==> (#[trigger] entries[k]).name@ != name,
        skill_from(entries, name, from) is None ==> forall|k: int|
            from <= k < entries.len() ==> (#[trigger] entries[k]).name@ != name,
    decreases entries.len() - from,
{
    if from < entries.len() {
        lemma_first_skill(entries, name, from + 1);
    }
}

/// A message with an id is a request under that id, for its method and with its
/// parameters; one without an id is none.
pub proof fn law_request_is_read(message: Json)
    ensures
        request_read(message) is Some <==> field(message, "id"@) is Some,
        request_read(message) matches Some(r) ==> {
            &&& Some(r.id) == field(message, "id"@)
            &&& str_field(message, "method"@) matches Some(method) ==> r.method == method
            &&& str_field(message, "method"@) is None ==> r.method.len() == 0
            &&& r.params == field(message, "params"@)
        },
{
}

/// A line is a request where it is JSON that is one; a blank line is none.
pub proof fn law_line_is_read(line: Seq<char>)
    ensures
        trimmed(line).len() == 0 ==> request_in(line) is None,
        trimmed(line).len() > 0 && json_parsed(trimmed(line)) is None ==> request_in(line) is None,
        trimmed(line).len() > 0 && json_parsed(trimmed(line)) is Some ==> request_in(line)
            == request_read(json_parsed(trimmed(line))->0),
{
}

/// An answer bears the id of its request and has either a result or an error: the
/// value itself, or the number and the words of the error.
pub proof fn law_answer_is_result_or_error(id: Json, value: Json, code: int, message: Seq<char>)
    ensures
        ({
            let good = answer(id, Ok(value));
            &&& str_field(good, "jsonrpc"@) == Some("2.0"@)
            &&& field(good, "id"@) == Some(id)
            &&& field(good, "result"@) == Some(value)
            &&& has_only(good, seq!["jsonrpc"@, "id"@, "result"@])
            &&& field(good, "error"@) is None
        }),
        ({
            let bad = answer(id, Err((code, message)));
            &&& str_field(bad, "jsonrpc"@) == Some("2.0"@)
            &&& field(bad, "id"@) == Some(id)
            &&& field(bad, "error"@) matches Some(error) && field(error, "code"@) == Some(
                Json::Int(code),
            ) && str_field(error, "message"@) == Some(message)
            &&& has_only(bad, seq!["jsonrpc"@, "id"@, "error"@])
            &&& field(bad, "result"@) is None
        }),
{
    lemma_names();
    let version = Json::Text("2.0"@);
    lemma_three_fields("jsonrpc"@, version, "id"@, id, "result"@, value);
    lemma_two_fields("code"@, Json::Int(code), "message"@, Json::Text(message));
    let error = Json::Object(seq![("code"@, Json::Int(code)), ("message"@, Json::Text(message))]);
    lemma_three_fields("jsonrpc"@, version, "id"@, id, "error"@, error);
    let good = answer(id, Ok(value));
    let bad = answer(id, Err((code, message)));
    if field(good, "error"@) is Some {
        assert(seq!["jsonrpc"@, "id"@, "result"@].contains("error"@));
    }
    if field(bad, "result"@) is Some {
        assert(seq!["jsonrpc"@, "id"@, "error"@].contains("result"@));
    }
}

proof fn lemma_methods_differ()
    ensures
        "initialize"@ != "tools/list"@,
        "initialize"@ != "tools/call"@,
        "tools/list"@ != "tools/call"@,
        "list_skills"@ != "read_skill"@,
        "list_skills"@ != "list_skill_files"@,
        "list_skills"@ != "read_skill_file"@,
        "read_skill"@ != "list_skill_files"@,
        "read_skill"@ != "read_skill_file"@,
        "list_skill_files"@ != "read_skill_file"@,
{
    reveal_strlit("initialize");
    reveal_strlit("tools/list");
    reveal_strlit("tools/call");
    reveal_strlit("list_skills");
    reveal_strlit("read_skill");
    reveal_strlit("list_skill_files");
    reveal_strlit("read_skill_file");
    assert("initialize"@[0] != "tools/list"@[0]);
    assert("initialize"@[0] != "tools/call"@[0]);
    assert("tools/list"@[6] != "tools/call"@[6]);
    assert("list_skills"@.len() == 11 && "read_skill"@.len() == 10);
    assert("list_skill_files"@.len() == 16 && "read_skill_file"@.len() == 15);
}

/// A server introduces itself by its own name, and says that it has tools.
pub proof fn law_server_introduces_itself(server: Server, params: Option<Json>)
    ensures
        handled(server, "initialize"@, params) matches HandledView::Answer(said) && {
            &&& str_field(said, "protocolVersion"@) == Some("2024-11-05"@)
            &&& field(said, "capabilities"@) matches Some(can) && field(can, "tools"@) is Some
            &&& field(said, "serverInfo"@) matches Some(info) && str_field(info, "version"@)
                == Some("0.1.0"@) && (server == Server::Skills ==> str_field(info, "name"@) == Some(
                "skills-mcp-server"@,
            )) && (server == Server::Snapflowd ==> str_field(info, "name"@) == Some(
                "snapflowd-mcp"@,
            ))
        },
{
    lemma_names();
    lemma_methods_differ();
    let none = Json::Object(Seq::empty());
    let can = Json::Object(seq![("tools"@, none)]);
    lemma_one_field("tools"@, none);
    let name = Json::Text(crate::skills_mcp::server_name(server));
    let version = Json::Text("0.1.0"@);
    lemma_two_fields("name"@, name, "version"@, version);
    let info = Json::Object(seq![("name"@, name), ("version"@, version)]);
    lemma_three_fields(
        "protocolVersion"@,
        Json::Text("2024-11-05"@),
        "capabilities"@,
        can,
        "serverInfo"@,
        info,
    );
}

/// Whether a listed tool has a name, says what it does, and needs the given
/// parameters, each of them a text.
pub open spec fn is_tool(listed: Json, name: Seq<char>, needs: Seq<Seq<char>>) -> bool {
    &&& str_field(listed, "name"@) == Some(name)
    &&& str_field(listed, "description"@) is Some
    &&& has_only(listed, seq!["name"@, "description"@, "inputSchema"@])
    &&& field(listed, "inputSchema"@) matches Some(schema)
    &&& str_field(schema, "type"@) == Some("object"@)
    &&& field(schema, "properties"@) matches Some(properties)
    &&& has_only(properties, needs)
    &&& forall|k: int| 0 <= k < needs.len() ==> is_text(properties, #[trigger] needs[k])
    &&& needs.len() > 0 ==> field(schema, "required"@) == Some(
        Json::Array(needs.map_values(|name: Seq<char>| Json::Text(name))),
    )
}

/// Whether a parameter is a text.
pub open spec fn is_text(properties: Json, name: Seq<char>) -> bool {
    field(properties, name) is Some && str_field(field(properties, name)->0, "type"@) == Some(
        "string"@,
    )
}

/// Both servers list the two tools for skills, and one of them also the two for
/// the files beside skills; each with the parameters that it needs.
pub proof fn law_tools_are_listed(server: Server, params: Option<Json>)
    ensures
        ({
            &&& handled(server, "tools/list"@, params) matches HandledView::Answer(list)
            &&& items_field(list, "tools"@) matches Some(tools)
            &&& server == Server::Skills ==> tools.len() == 2
            &&& server == Server::Snapflowd ==> tools.len() == 4
            &&& is_tool(tools[0], "list_skills"@, Seq::empty())
            &&& is_tool(tools[1], "read_skill"@, seq!["name"@])
            &&& server == Server::Snapflowd ==> is_tool(
                tools[2],
                "list_skill_files"@,
                seq!["name"@],
            ) && is_tool(tools[3], "read_skill_file"@, seq!["name"@, "path"@])
        }),
{
    lemma_names();
    lemma_methods_differ();
    let tools = crate::skills_mcp::tools_of(server);
    lemma_one_field("tools"@, Json::Array(tools));
    let string = crate::skills_mcp::string_type();
    lemma_one_field("type"@, Json::Text("string"@));
    let object = Json::Text("object"@);
    let none = Json::Object(Seq::empty());
    lemma_two_fields("type"@, object, "properties"@, none);
    let list_schema = Json::Object(seq![("type"@, object), ("properties"@, none)]);
    let one = Json::Object(seq![("name"@, string)]);
    lemma_one_field("name"@, string);
    let one_needed = Json::Array(seq![Json::Text("name"@)]);
    lemma_three_fields("type"@, object, "properties"@, one, "required"@, one_needed);
    let two = Json::Object(seq![("name"@, string), ("path"@, string)]);
    lemma_two_fields("name"@, string, "path"@, string);
    let two_needed = Json::Array(seq![Json::Text("name"@), Json::Text("path"@)]);
    lemma_three_fields("type"@, object, "properties"@, two, "required"@, two_needed);
    lemma_tool(tools[0]);
    lemma_tool(tools[1]);
    let as_json = |name: Seq<char>| Json::Text(name);
    assert(seq!["name"@].map_values(as_json) =~= one_needed->Array_0);
    assert(seq!["name"@, "path"@].map_values(as_json) =~= two_needed->Array_0);
    if server == Server::Snapflowd {
        lemma_tool(tools[2]);
        lemma_tool(tools[3]);
        assert(is_tool(tools[2], "list_skill_files"@, seq!["name"@]));
        let needs = seq!["name"@, "path"@];
        assert(needs[0] == "name"@ && needs[1] == "path"@);
        assert(is_tool(tools[3], "read_skill_file"@, needs));
    }
    assert(is_tool(tools[1], "read_skill"@, seq!["name"@]));
}

proof fn lemma_tool(listed: Json)
    requires
        listed is Object,
        listed->Object_0.len() == 3,
        listed->Object_0[0].0 == "name"@,
        listed->Object_0[1].0 == "description"@,
        listed->Object_0[2].0 == "inputSchema"@,
    ensures
        field(listed, "name"@) == Some(listed->Object_0[0].1),
        field(listed, "description"@) == Some(listed->Object_0[1].1),
        field(listed, "inputSchema"@) == Some(listed->Object_0[2].1),
        has_only(listed, seq!["name"@, "description"@, "inputSchema"@]),
{
    lemma_names();
    let f = listed->Object_0;
    assert(f =~= seq![("name"@, f[0].1), ("description"@, f[1].1), ("inputSchema"@, f[2].1)]);
    lemma_three_fields("name"@, f[0].1, "description"@, f[1].1, "inputSchema"@, f[2].1);
}

/// Whether a call of a tool has a name for it and arguments.
pub open spec fn calls_with(params: Json, tool: Seq<char>, arguments: Json) -> bool {
    str_field(params, "name"@) == Some(tool) && field(params, "arguments"@) == Some(arguments)
}

/// A call of a tool is for the skill, and for the file, that its arguments name.
pub proof fn law_call_is_for_what_it_names(
    server: Server,
    params: Json,
    tool: Seq<char>,
    arguments: Json,
)
    requires
        calls_with(params, tool, arguments),
    ensures
        ({
            let done = handled(server, "tools/call"@, Some(params));
            let skill = str_field(arguments, "name"@);
            let path = str_field(arguments, "path"@);
            let files = server == Server::Snapflowd;
            &&& tool == "list_skills"@ ==> done is ListSkills
            &&& tool == "read_skill"@ && skill is Some ==> done == HandledView::ReadSkill(skill->0)
            &&& tool == "list_skill_files"@ && files && skill is Some ==> done
                == HandledView::ListSkillFiles(skill->0)
            &&& tool == "read_skill_file"@ && files && skill is Some && path is Some ==> done
                == HandledView::ReadSkillFile(skill->0, path->0)
            &&& (tool == "read_skill"@ || (files && (tool == "list_skill_files"@ || tool
                == "read_skill_file"@))) && skill is None ==> done == HandledView::Error(
                -32602,
                "missing required 'name' argument"@,
            )
            &&& tool == "read_skill_file"@ && files && skill is Some && path is None ==> done
                == HandledView::Error(-32602, "missing required 'path' argument"@)
        }),
{
    lemma_methods_differ();
}

/// What a server does not know is refused by its name: a method, or a tool; the
/// server without files does not know the tools for files.
pub proof fn law_unknown_is_refused(
    server: Server,
    method: Seq<char>,
    params: Option<Json>,
    tool: Seq<char>,
)
    ensures
        method != "initialize"@ && method != "tools/list"@ && method != "tools/call"@ ==> handled(
            server,
            method,
            params,
        ) == HandledView::Error(-32601, "Method not found: "@ + method),
        tool != "list_skills"@ && tool != "read_skill"@ && (server == Server::Skills || (tool
            != "list_skill_files"@ && tool != "read_skill_file"@)) ==> called(server, tool, params)
            == HandledView::Error(-32601, "unknown tool: "@ + tool),
{
    lemma_methods_differ();
}

/// A call without the name of a tool, or without arguments where a file is asked
/// for, says what it lacks.
pub proof fn law_lacking_call_is_refused(server: Server, params: Json)
    ensures
        str_field(params, "name"@) is None ==> handled(server, "tools/call"@, Some(params))
            == HandledView::Error(-32602, "missing required 'name' param"@),
        handled(server, "tools/call"@, None) == HandledView::Error(
            -32602,
            "missing required 'name' param"@,
        ),
        field(params, "arguments"@) is None ==> called(
            Server::Snapflowd,
            "read_skill_file"@,
            Some(params),
        ) == HandledView::Error(-32602, "missing required arguments"@),
        field(params, "arguments"@) is None ==> called(server, "read_skill"@, Some(params))
            == HandledView::Error(-32602, "missing required 'name' argument"@),
{
    lemma_methods_differ();
}

proof fn lemma_dirs_shift(
    first: Seq<String>,
    rest: Seq<String>,
    from: int,
    global: Option<String>,
    project: Option<String>,
)
    requires
        0 <= from,
    ensures
        dirs_from(first + rest, first.len() + from, global, project) == dirs_from(
            rest,
            from,
            global,
            project,
        ),
    decreases rest.len() + 1 - from,
{
    let all = first + rest;
    let at = first.len() + from;
    if from < rest.len() {
        assert(all[at] == rest[from]);
        let next = if from + 1 < rest.len() {
            Some(rest[from + 1])
        } else {
            None
        };
        if from + 1 < rest.len() {
            assert(all[at + 1] == rest[from + 1]);
        }
        lemma_dirs_shift(first, rest, from + 2, next, project);
        lemma_dirs_shift(first, rest, from + 2, global, next);
        lemma_dirs_shift(first, rest, from + 1, global, project);
    }
}

/// An option with its directory sets that directory, whatever follows; anything
/// that is no option is passed over; and where nothing follows, what was set
/// stays.
pub proof fn law_arguments_set_directories(
    word: String,
    dir: String,
    rest: Seq<String>,
    global: Option<String>,
    project: Option<String>,
)
    ensures
        dirs_from(Seq::empty(), 0, global, project) == (global, project),
        word@ == "--global-dir"@ ==> dirs_from(seq![word, dir] + rest, 0, global, project)
            == dirs_from(rest, 0, Some(dir), project),
        word@ == "--project-dir"@ ==> dirs_from(seq![word, dir] + rest, 0, global, project)
            == dirs_from(rest, 0, global, Some(dir)),
        word@ != "--global-dir"@ && word@ != "--project-dir"@ ==> dirs_from(
            seq![word] + rest,
            0,
            global,
            project,
        ) == dirs_from(rest, 0, global, project),
{
    reveal_strlit("--global-dir");
    reveal_strlit("--project-dir");
    assert("--global-dir"@.len() == 12 && "--project-dir"@.len() == 13);
    let two = seq![word, dir];
    let all = two + rest;
    assert(all[0] == word && all[1] == dir);
    lemma_dirs_shift(two, rest, 0, Some(dir), project);
    lemma_dirs_shift(two, rest, 0, global, Some(dir));
    let one = seq![word];
    assert((one + rest)[0] == word);
    lemma_dirs_shift(one, rest, 0, global, project);
}

/// Whether what was found on the way can be gone on from.
pub open spec fn is_clear(look: Looked) -> bool {
    !(look is Symlink) && !(look is Failed)
}

proof fn lemma_obstacles(path: Seq<char>, looks: Seq<Looked>, from: int)
    requires
        0 <= from <= looks.len(),
    ensures
        first_obstacle(path, looks, from) is None <==> forall|k: int|
            from <= k < looks.len() ==> is_clear(#[trigger] looks[k]),
    decreases looks.len() - from,
{
    if from < looks.len() {
        lemma_obstacles(path, looks, from + 1);
        if first_obstacle(path, looks, from) is None {
            assert forall|k: int| from <= k < looks.len() implies is_clear(#[trigger] looks[k]) by {
                if k == from {
                    assert(obstacle(path, looks[from]) is None);
                }
            }
        } else if forall|k: int| from <= k < looks.len() ==> is_clear(#[trigger] looks[k]) {
            assert(is_clear(looks[from]));
            assert(forall|k: int| from + 1 <= k < looks.len() ==> is_clear(#[trigger] looks[k]));
        }
    }
}

/// A path leads to a file beside a skill exactly where it is not empty, is made
/// of names alone, meets neither a symbolic link nor anything that cannot be
/// looked at, and ends at a regular file.
pub proof fn law_path_leads_to_regular_files(path: Seq<char>, looks: Seq<Looked>, leaves: bool)
    ensures
        refusal(path, looks, leaves) is None <==> path.len() > 0 && !leaves && looks.len() > 0
            && looks.last() is File && forall|k: int|
            0 <= k < looks.len() ==> is_clear(#[trigger] looks[k]),
{
    lemma_obstacles(path, looks, 0);
}

/// What is said of a path that leads nowhere: the first thing on the way that
/// cannot be gone on from decides.
pub proof fn law_first_obstacle_is_told(path: Seq<char>, looks: Seq<Looked>, leaves: bool, k: int)
    requires
        path.len() > 0,
        0 <= k < looks.len(),
        forall|i: int| 0 <= i < k ==> is_clear(#[trigger] looks[i]),
    ensures
        looks[k] is Symlink ==> refusal(path, looks, leaves) == Some(
            "symbolic links are not available through skills"@,
        ),
        looks[k] matches Looked::Failed { error } ==> refusal(path, looks, leaves) == Some(
            "failed to access "@ + debug_shown(path) + ": "@ + error@,
        ),
{
    if !is_clear(looks[k]) {
        lemma_reaches(path, looks, 0, k);
    }
}

proof fn lemma_reaches(path: Seq<char>, looks: Seq<Looked>, from: int, k: int)
    requires
        0 <= from <= k < looks.len(),
        forall|i: int| from <= i < k ==> is_clear(#[trigger] looks[i]),
    ensures
        first_obstacle(path, looks, from) == first_obstacle(path, looks, k),
    decreases k - from,
{
    if from < k {
        assert(is_clear(looks[from]));
        lemma_reaches(path, looks, from + 1, k);
    }
}

/// The path that names lead by, one after the other.
pub open spec fn path_of(names: Seq<Seq<char>>) -> Seq<char>
    decreases names.len(),
{
    if names.len() == 0 {
        Seq::empty()
    } else if names.len() == 1 {
        names[0]
    } else {
        names[0] + seq!['/'] + path_of(names.skip(1))
    }
}

proof fn lemma_split_name(s: Seq<char>, start: int, at: int, end: int)
    requires
        0 <= start <= at <= end <= s.len(),
        forall|k: int| start <= k < end ==> s[k] != '/',
        end < s.len() ==> s[end] == '/',
    ensures
        end < s.len() ==> split_from(s, start, at) == seq![s.subrange(start, end)] + split_from(
            s,
            end + 1,
            end + 1,
        ),
        end == s.len() ==> split_from(s, start, at) == seq![s.subrange(start, end)],
    decreases end - at,
{
    if at < end {
        assert(s[at] != '/');
        lemma_split_name(s, start, at + 1, end);
    }
}

proof fn lemma_split_shift(head: Seq<char>, tail: Seq<char>, start: int, at: int)
    requires
        0 <= start <= at <= tail.len(),
    ensures
        split_from(head + tail, head.len() + start, head.len() + at) == split_from(tail, start, at),
    decreases tail.len() - at,
{
    let whole = head + tail;
    let n = head.len() as int;
    if at < tail.len() {
        assert(whole[n + at] == tail[at]);
        if tail[at] == '/' {
            lemma_split_shift(head, tail, at + 1, at + 1);
            assert(whole.subrange(n + start, n + at) =~= tail.subrange(start, at));
        } else {
            lemma_split_shift(head, tail, start, at + 1);
        }
    } else {
        assert(whole.subrange(n + start, whole.len() as int) =~= tail.subrange(
            start,
            tail.len() as int,
        ));
    }
}

proof fn lemma_split_path_of(names: Seq<Seq<char>>)
    requires
        names.len() > 0,
        forall|k: int| 0 <= k < names.len() ==> plain_name(#[trigger] names[k]),
    ensures
        split_from(path_of(names), 0, 0) == names,
    decreases names.len(),
{
    let s = path_of(names);
    let name = names[0];
    assert(plain_name(name));
    if names.len() == 1 {
        lemma_split_name(s, 0, 0, s.len() as int);
        assert(s.subrange(0, s.len() as int) =~= name);
        assert(seq![name] =~= names);
    } else {
        let rest = names.skip(1);
        let head = name + seq!['/'];
        let tail = path_of(rest);
        assert(s =~= head + tail);
        assert forall|k: int| 0 <= k < name.len() implies s[k] != '/' by {
            assert(s[k] == name[k]);
        }
        assert(s[name.len() as int] == '/');
        lemma_split_name(s, 0, 0, name.len() as int);
        assert(s.subrange(0, name.len() as int) =~= name);
        lemma_split_shift(head, tail, 0, 0);
        assert forall|k: int| 0 <= k < rest.len() implies plain_name(#[trigger] rest[k]) by {
            assert(rest[k] == names[k + 1]);
        }
        lemma_split_path_of(rest);
        assert(seq![name] + rest =~= names);
    }
}

proof fn lemma_all_names(parts: Seq<Seq<char>>, from: int)
    requires
        0 <= from <= parts.len(),
        forall|k: int| 0 <= k < parts.len() ==> plain_name(#[trigger] parts[k]),
    ensures
        names_from(parts, from).0 == parts.skip(from),
        !names_from(parts, from).1,
    decreases parts.len() - from,
{
    if from < parts.len() {
        assert(plain_name(parts[from]));
        lemma_all_names(parts, from + 1);
        assert(seq![parts[from]] + parts.skip(from + 1) =~= parts.skip(from));
    } else {
        assert(parts.skip(from) =~= Seq::empty());
    }
}

/// A path that is made of names leads by just these names, in order, and by
/// nothing else.
pub proof fn law_names_are_walked_in_order(names: Seq<Seq<char>>)
    requires
        names.len() > 0,
        forall|k: int| 0 <= k < names.len() ==> plain_name(#[trigger] names[k]),
    ensures
        path_names(path_of(names)).0 == names,
        !path_names(path_of(names)).1,
{
    lemma_split_path_of(names);
    lemma_all_names(names, 0);
    assert(names.skip(0) =~= names);
}

proof fn lemma_upward(parts: Seq<Seq<char>>, from: int, k: int)
    requires
        0 <= from <= k < parts.len(),
        part_of(parts, k) == Some(PartView::Other),
    ensures
        names_from(parts, from).1,
    decreases k - from,
{
    if from < k {
        lemma_upward(parts, from + 1, k);
    }
}

/// A path leaves the skill where it starts at the root, or where one of its parts
/// between slashes leads upwards.
pub proof fn law_upward_paths_leave(path: Seq<char>, k: int)
    ensures
        path.len() > 0 && path[0] == '/' ==> path_names(path).1,
        0 <= k < split_from(path, 0, 0).len() && split_from(path, 0, 0)[k] == seq!['.', '.']
            ==> path_names(path).1,
{
    let parts = split_from(path, 0, 0);
    if path.len() > 0 && path[0] == '/' {
        lemma_split_name(path, 0, 0, 0);
        lemma_split_has_parts(path, 1, 1);
        assert(path.subrange(0, 0).len() == 0);
        assert(parts[0].len() == 0 && parts.len() > 1);
        lemma_upward(parts, 0, 0);
    }
    if 0 <= k < parts.len() && parts[k] == seq!['.', '.'] {
        assert(parts[k].len() == 2);
        assert(parts[k] != seq!['.']);
        lemma_upward(parts, 0, k);
    }
}

proof fn lemma_split_has_parts(s: Seq<char>, start: int, at: int)
    requires
        0 <= at <= s.len(),
    ensures
        split_from(s, start, at).len() >= 1,
    decreases s.len() - at,
{
    if at < s.len() && s[at] != '/' {
        lemma_split_has_parts(s, start, at + 1);
    }
}

/// Whether a path is that of a regular file in a tree, under the path of the
/// tree.
pub open spec fn has_file(entries: Vec<DirNode>, relative: Seq<char>, path: Seq<char>) -> bool
    decreases entries,
    via has_file_decreases
{
    exists|i: int|
        #![trigger entries@[i]]
        0 <= i < entries@.len() && match entries@[i] {
            DirNode::File { name } => crate::paths::joined(relative, name@) == path && path
                != "SKILL.md"@,
            DirNode::Directory { name, children } => has_file(
                children,
                crate::paths::joined(relative, name@),
                path,
            ),
            _ => false,
        }
}

#[via_fn]
proof fn has_file_decreases(entries: Vec<DirNode>, relative: Seq<char>, path: Seq<char>) {
    assert forall|i: int| 0 <= i < entries@.len() implies (match #[trigger] entries@[i] {
        DirNode::Directory { name, children } => decreases_to!(entries => children),
        _ => true,
    }) by {
        assert(decreases_to!(entries => entries@));
        assert(decreases_to!(entries@ => entries@[i]));
        if let DirNode::Directory { name, children } = entries@[i] {
            assert(decreases_to!(entries@[i] => entries@[i]->children));
        }
    }
}

proof fn lemma_gathered(
    entries: Vec<DirNode>,
    relative: Seq<char>,
    files: Seq<Seq<char>>,
    from: int,
)
    requires
        0 <= from <= entries@.len(),
    ensures
        ({
            let out = gathered_from(entries, relative, files, from);
            &&& files.is_prefix_of(out)
            &&& forall|k: int|
                files.len() <= k < out.len() ==> has_file(entries, relative, #[trigger] out[k])
        }),
    decreases entries, entries@.len() - from,
{
    let out = gathered_from(entries, relative, files, from);
    if from < entries@.len() {
        assert(decreases_to!(entries => entries@));
        assert(decreases_to!(entries@ => entries@[from]));
        match entries@[from] {
            DirNode::File { name } => {
                let path = crate::paths::joined(relative, name@);
                if path == "SKILL.md"@ {
                    lemma_gathered(entries, relative, files, from + 1);
                } else {
                    let more = files.push(path);
                    assert(has_file(entries, relative, path));
                    if files.len() + 1 < 512 {
                        lemma_gathered(entries, relative, more, from + 1);
                        assert(files.is_prefix_of(more));
                        assert forall|k: int| files.len() <= k < out.len() implies has_file(
                            entries,
                            relative,
                            #[trigger] out[k],
                        ) by {
                            if k == files.len() {
                                assert(out[k] == more[k]);
                            }
                        }
                    }
                }
            },
            DirNode::Directory { name, children } => {
                assert(decreases_to!(entries@[from] => entries@[from]->children));
                let below = crate::paths::joined(relative, name@);
                let inner = if files.len() >= 512 {
                    files
                } else {
                    gathered_from(children, below, files, 0)
                };
                if files.len() < 512 {
                    lemma_gathered(children, below, files, 0);
                }
                lemma_gathered(entries, relative, inner, from + 1);
                assert forall|k: int| files.len() <= k < out.len() implies has_file(
                    entries,
                    relative,
                    #[trigger] out[k],
                ) by {
                    if k < inner.len() {
                        assert(out[k] == inner[k]);
                        assert(has_file(children, below, inner[k]));
                        assert(entries@[from] is Directory);
                    }
                }
            },
            _ => {
                lemma_gathered(entries, relative, files, from + 1);
            },
        }
    }
}

/// Whether the entry at a place gives a path.
spec fn gives(entries: Vec<DirNode>, relative: Seq<char>, path: Seq<char>, i: int) -> bool {
    match entries@[i] {
        DirNode::File { name } => crate::paths::joined(relative, name@) == path && path
            != "SKILL.md"@,
        DirNode::Directory { name, children } => has_file(
            children,
            crate::paths::joined(relative, name@),
            path,
        ),
        _ => false,
    }
}

proof fn lemma_gathered_all(
    entries: Vec<DirNode>,
    relative: Seq<char>,
    files: Seq<Seq<char>>,
    from: int,
    i: int,
    path: Seq<char>,
)
    requires
        0 <= from <= i < entries@.len(),
        gathered_from(entries, relative, files, from).len() < 512,
        gives(entries, relative, path, i),
    ensures
        gathered_from(entries, relative, files, from).contains(path),
    decreases entries, entries@.len() - from,
{
    let out = gathered_from(entries, relative, files, from);
    lemma_gathered(entries, relative, files, from);
    assert(decreases_to!(entries => entries@));
    assert(decreases_to!(entries@ => entries@[from]));
    match entries@[from] {
        DirNode::File { name } => {
            let here = crate::paths::joined(relative, name@);
            if here == "SKILL.md"@ {
                lemma_gathered_all(entries, relative, files, from + 1, i, path);
            } else {
                let more = files.push(here);
                if i == from {
                    lemma_gathered(entries, relative, more, from + 1);
                    assert(more[files.len() as int] == path);
                    assert(out[files.len() as int] == path);
                } else {
                    lemma_gathered_all(entries, relative, more, from + 1, i, path);
                }
            }
        },
        DirNode::Directory { name, children } => {
            assert(decreases_to!(entries@[from] => entries@[from]->children));
            let below = crate::paths::joined(relative, name@);
            let inner = gathered_from(children, below, files, 0);
            lemma_gathered(entries, relative, inner, from + 1);
            if i == from {
                let k = choose|k: int|
                    #![trigger children@[k]]
                    0 <= k < children@.len() && match children@[k] {
                        DirNode::File { name } => crate::paths::joined(below, name@) == path && path
                            != "SKILL.md"@,
                        DirNode::Directory { name, children } => has_file(
                            children,
                            crate::paths::joined(below, name@),
                            path,
                        ),
                        _ => false,
                    };
                assert(gives(children, below, path, k));
                lemma_gathered_all(children, below, files, 0, k, path);
                let at = choose|at: int| 0 <= at < inner.len() && inner[at] == path;
                assert(out[at] == path);
            } else {
                lemma_gathered_all(entries, relative, inner, from + 1, i, path);
            }
        },
        _ => {
            lemma_gathered_all(entries, relative, files, from + 1, i, path);
        },
    }
}

/// The files that are listed are regular files below the skill, by their paths,
/// and never the skill's own file or a symbolic link; what was listed before
/// stays. Where fewer than 512 are listed, every file below the skill is.
pub proof fn law_files_are_listed(
    entries: Vec<DirNode>,
    relative: Seq<char>,
    files: Seq<Seq<char>>,
    path: Seq<char>,
)
    ensures
        ({
            let out = gathered(entries, relative, files);
            &&& files.is_prefix_of(out)
            &&& forall|k: int|
                files.len() <= k < out.len() ==> has_file(entries, relative, #[trigger] out[k])
            &&& out.len() < 512 && has_file(entries, relative, path) ==> out.contains(path)
        }),
{
    let out = gathered(entries, relative, files);
    if files.len() < 512 {
        lemma_gathered(entries, relative, files, 0);
        if out.len() < 512 && has_file(entries, relative, path) {
            let k = choose|k: int|
                #![trigger entries@[k]]
                0 <= k < entries@.len() && match entries@[k] {
                    DirNode::File { name } => crate::paths::joined(relative, name@) == path && path
                        != "SKILL.md"@,
                    DirNode::Directory { name, children } => has_file(
                        children,
                        crate::paths::joined(relative, name@),
                        path,
                    ),
                    _ => false,
                };
            assert(gives(entries, relative, path, k));
            lemma_gathered_all(entries, relative, files, 0, k, path);
        }
    }
}

/// A server is started with the directories that its arguments name, and not
/// without that of the skills for all projects.
pub proof fn law_server_needs_its_directory(args: Seq<String>)
    ensures
        args_read(args) is Some <==> dirs_from(args, 0, None, None).0 is Some,
        args_read(args) matches Some(a) ==> Some(a.global_dir) == dirs_from(args, 0, None, None).0
            && a.project_dir == dirs_from(args, 0, None, None).1,
{
}

/// A path that is followed ends at the last place of its walk, or is refused.
pub proof fn law_followed_path_ends_at_its_file(
    path: Seq<char>,
    walk: PathWalk,
    looks: Seq<Looked>,
    r: Result<String, String>,
)
    requires
        leads_to(path, walk, looks, r),
    ensures
        r matches Ok(file) ==> file == walk.paths@.last() && looks.len() > 0 && looks.last() is File
            && !walk.leaves,
        r is Ok ==> forall|k: int| 0 <= k < looks.len() ==> is_clear(#[trigger] looks[k]),
        walk.leaves ==> r is Err,
        looks.len() > 0 && !(looks.last() is File) ==> r is Err,
{
    law_path_leads_to_regular_files(path, looks, walk.leaves);
}

/// Whether a text is that of a list of these texts.
pub open spec fn lists_texts(text: Seq<char>, names: Seq<Seq<char>>) -> bool {
    exists|items: Seq<Json>|
        #[trigger] json_text(Json::Array(items)) == text && items.len() == names.len() && forall|
            k: int,
        |
            0 <= k < names.len() ==> #[trigger] items[k] == Json::Text(names[k])
}

/// The list of files is no failure, and is the text of a list with each file as
/// often as it was found, no file before one that comes before it.
pub proof fn law_listing_gives_each_file(value: Json, files: Seq<Seq<char>>)
    requires
        lists_in_order(value, files),
    ensures
        exists|listed: Seq<Seq<char>>, text: Seq<char>|
            #![trigger lists_texts(text, listed)]
            {
                &&& succeeds_with(value, text)
                &&& lists_texts(text, listed)
                &&& listed.to_multiset() == files.to_multiset()
                &&& forall|i: int, j: int|
                    0 <= i < j < listed.len() ==> !before(#[trigger] listed[j], #[trigger] listed[i])
            },
{
    let listed = choose|listed: Seq<Seq<char>>|
        {
            &&& #[trigger] ordered(listed)
            &&& listed.to_multiset() == files.to_multiset()
            &&& value == given(
                json_text(Json::Array(listed.map_values(|name: Seq<char>| Json::Text(name)))),
            )
        };
    let items = listed.map_values(|name: Seq<char>| Json::Text(name));
    let text = json_text(Json::Array(items));
    lemma_forms(text);
    assert(forall|k: int| 0 <= k < listed.len() ==> #[trigger] items[k] == Json::Text(listed[k]));
    assert(lists_texts(text, listed));
}

/// Files that were found are listed; where they could not be looked for, the reason
/// is given, and it is a failure.
pub proof fn law_files_are_given_or_the_reason(tree: Result<Vec<DirNode>, String>, value: Json)
    requires
        files_given(tree, value),
    ensures
        tree matches Ok(entries) ==> lists_in_order(
            value,
            gathered(entries, Seq::empty(), Seq::empty()),
        ),
        tree matches Err(why) ==> value == unlisted_given(why@),
{
}

/// A path is followed name by name: each place is the next name below the place
/// before it, the first below the skill.
pub proof fn law_path_is_walked_name_by_name(
    dir: Seq<char>,
    path: Seq<char>,
    walk: PathWalk,
    k: int,
)
    requires
        walks(dir, path, walk),
        0 <= k < path_names(path).0.len(),
    ensures
        walk.paths@.len() == path_names(path).0.len(),
        walk.leaves == path_names(path).1,
        k == 0 ==> walk.paths@[k]@ == joined(dir, path_names(path).0[0]),
        k > 0 ==> walk.paths@[k]@ == joined(walk.paths@[k - 1]@, path_names(path).0[k]),
{
    let names = path_names(path).0;
    assert(names.take(k + 1).drop_last() =~= names.take(k));
    assert(names.take(k + 1).last() == names[k]);
    assert(walk.paths@[k]@ == below(dir, names.take(k + 1)));
    if k > 0 {
        assert(walk.paths@[k - 1]@ == below(dir, names.take(k - 1 + 1)));
    } else {
        assert(names.take(0) =~= Seq::empty());
        assert(below(dir, names.take(0)) == dir);
    }
}

} // verus!
