//! The servers by which agents read skills, over JSON-RPC, a message a line.
//!
//! A line is read by [`read_request`] and understood by [`handle_request`]; what
//! a tool gives is put together from what is on disk by the functions of
//! [`tools`] and [`files`]; [`response`] makes the answer.

pub mod files;
pub mod laws;
pub mod tools;

use crate::json::{
    array, array1, field, json_parsed, json_seq, json_str, object0, object1, object2, object3,
    str_field, text_value, Json, JsonValue,
};
use crate::text::{join, optional_text, same, text_or, trim, trimmed};
use vstd::prelude::*;

verus! {

/// Which server it is: the one that lists and reads skills, or the one that also
/// lists and reads the files beside them.
#[derive(Debug, Clone, Copy, PartialEq, Eq, Structural)]
pub enum Server {
    Skills,
    Snapflowd,
}

/// What a server is started with: the directory of the skills for all projects,
/// and that of the open project.
#[derive(Debug, Clone, PartialEq, Eq)]
pub struct Args {
    pub global_dir: String,
    pub project_dir: Option<String>,
}

/// The two directories that arguments name, from a position on, after others
/// named some: a later one replaces an earlier one, and a name that is left out
/// at the end leaves none.
pub open spec fn dirs_from(
    args: Seq<String>,
    from: int,
    global: Option<String>,
    project: Option<String>,
) -> (Option<String>, Option<String>)
    decreases args.len() + 1 - from,
{
    if from < 0 || from >= args.len() {
        (global, project)
    } else {
        let next = if from + 1 < args.len() {
            Some(args[from + 1])
        } else {
            None
        };
        if args[from]@ == "--global-dir"@ {
            dirs_from(args, from + 2, next, project)
        } else if args[from]@ == "--project-dir"@ {
            dirs_from(args, from + 2, global, next)
        } else {
            dirs_from(args, from + 1, global, project)
        }
    }
}

/// The arguments of a server.
pub open spec fn args_read(args: Seq<String>) -> Option<Args> {
    let (global, project) = dirs_from(args, 0, None, None);
    match global {
        Some(global_dir) => Some(Args { global_dir, project_dir: project }),
        None => None,
    }
}

/// Reads the arguments of a server, without the name of the program. A server
/// cannot do without the directory of the skills for all projects.
pub fn parse_args(args: &Vec<String>) -> (r: Option<Args>)
    ensures
        r == args_read(args@),
{
    let mut global: Option<String> = None;
    let mut project: Option<String> = None;
    let mut i: usize = 0;
    while i < args.len()
        invariant
            i <= args@.len(),
            dirs_from(args@, 0, None, None) == dirs_from(args@, i as int, global, project),
        decreases args@.len() - i,
    {
        let is_global: bool = same(args[i].as_str(), "--global-dir");
        if is_global || same(args[i].as_str(), "--project-dir") {
            let next: Option<String> = if i + 1 < args.len() {
                Some(args[i + 1].clone())
            } else {
                None
            };
            if is_global {
                global = next;
            } else {
                project = next;
            }
            if i + 1 < args.len() {
                i += 2;
            } else {
                assert(dirs_from(args@, i + 2, global, project) == (global, project));
                i += 1;
            }
        } else {
            i += 1;
        }
    }
    match global {
        Some(global_dir) => Some(Args { global_dir, project_dir: project }),
        None => None,
    }
}

/// A request: what it is answered under, what it asks for, and with which
/// parameters.
#[derive(Debug, PartialEq)]
pub struct Request {
    pub id: JsonValue,
    pub method: String,
    pub params: Option<JsonValue>,
}

/// A [`Request`] as a mathematical value.
#[verifier::ext_equal]
pub struct RequestView {
    pub id: Json,
    pub method: Seq<char>,
    pub params: Option<Json>,
}

impl View for Request {
    type V = RequestView;

    open spec fn view(&self) -> RequestView {
        RequestView {
            id: self.id@,
            method: self.method@,
            params: match self.params {
                Some(params) => Some(params@),
                None => None,
            },
        }
    }
}

/// The request that a line holds: none where it is blank, is not JSON, or has no
/// id, as messages have that want no answer.
pub open spec fn request_in(line: Seq<char>) -> Option<RequestView> {
    if trimmed(line).len() == 0 {
        None
    } else {
        match json_parsed(trimmed(line)) {
            Some(message) => request_read(message),
            None => None,
        }
    }
}

/// The request that a message is: none where it has no id.
pub open spec fn request_read(message: Json) -> Option<RequestView> {
    match field(message, "id"@) {
        Some(id) => Some(
            RequestView {
                id,
                method: text_or(str_field(message, "method"@), Seq::empty()),
                params: field(message, "params"@),
            },
        ),
        None => None,
    }
}

/// Reads a request, given the line as JSON.
pub fn request_of(message: &JsonValue) -> (r: Option<Request>)
    ensures
        r is Some <==> request_read(message@) is Some,
        r is Some ==> r->0@ == request_read(message@)->0,
{
    let id: JsonValue = match message.get("id") {
        Some(id) => id.clone(),
        None => {
            return None;
        },
    };
    let method: String = match crate::json::get_str(message, "method") {
        Some(method) => method.to_owned(),
        None => crate::text::empty_text(),
    };
    let params: Option<JsonValue> = match message.get("params") {
        Some(params) => Some(params.clone()),
        None => None,
    };
    Some(Request { id, method, params })
}

/// Reads a line.
pub fn read_request(line: &str) -> (r: Option<Request>)
    ensures
        r is Some <==> request_in(line@) is Some,
        r is Some ==> r->0@ == request_in(line@)->0,
{
    let line: &str = trim(line);
    if line.unicode_len() == 0 {
        return None;
    }
    match JsonValue::parse(line) {
        Ok(message) => request_of(&message),
        Err(_) => None,
    }
}

/// Why a request is not answered with a result.
#[derive(Debug, Clone, PartialEq, Eq)]
pub struct RpcError {
    pub code: i64,
    pub message: String,
}

/// A tool that is called.
#[derive(Debug, Clone, PartialEq, Eq)]
pub enum ToolCall {
    ListSkills,
    ReadSkill { name: String },
    ListSkillFiles { name: String },
    ReadSkillFile { name: String, path: String },
}

/// What is done for a request: it is answered, or a tool is called.
#[derive(Debug, PartialEq)]
pub enum Handled {
    Answer(JsonValue),
    Call(ToolCall),
}

/// A [`Handled`] as a mathematical value.
#[verifier::ext_equal]
pub enum HandledView {
    Answer(Json),
    ListSkills,
    ReadSkill(Seq<char>),
    ListSkillFiles(Seq<char>),
    ReadSkillFile(Seq<char>, Seq<char>),
    Error(int, Seq<char>),
}

/// What is done for a request, or why it is not answered, as a mathematical
/// value.
pub open spec fn handled_view(r: Result<Handled, RpcError>) -> HandledView {
    match r {
        Ok(Handled::Answer(value)) => HandledView::Answer(value@),
        Ok(Handled::Call(ToolCall::ListSkills)) => HandledView::ListSkills,
        Ok(Handled::Call(ToolCall::ReadSkill { name })) => HandledView::ReadSkill(name@),
        Ok(Handled::Call(ToolCall::ListSkillFiles { name })) => HandledView::ListSkillFiles(name@),
        Ok(Handled::Call(ToolCall::ReadSkillFile { name, path })) => HandledView::ReadSkillFile(
            name@,
            path@,
        ),
        Err(error) => HandledView::Error(error.code as int, error.message@),
    }
}

/// A field of an optional object.
pub open spec fn param(params: Option<Json>, key: Seq<char>) -> Option<Json> {
    match params {
        Some(params) => field(params, key),
        None => None,
    }
}

/// A text field of an optional object.
pub open spec fn text_param(params: Option<Json>, key: Seq<char>) -> Option<Seq<char>> {
    match param(params, key) {
        Some(value) => json_str(value),
        None => None,
    }
}

/// The name of a server.
pub open spec fn server_name(server: Server) -> Seq<char> {
    match server {
        Server::Skills => "skills-mcp-server"@,
        Server::Snapflowd => "snapflowd-mcp"@,
    }
}

/// What a server says of itself.
pub open spec fn introduction(server: Server) -> Json {
    Json::Object(
        seq![
            ("protocolVersion"@, Json::Text("2024-11-05"@)),
            ("capabilities"@, Json::Object(seq![("tools"@, Json::Object(Seq::empty()))])),
            (
                "serverInfo"@,
                Json::Object(
                    seq![
                        ("name"@, Json::Text(server_name(server))),
                        ("version"@, Json::Text("0.1.0"@)),
                    ],
                ),
            ),
        ],
    )
}

/// That a parameter is a text.
pub open spec fn string_type() -> Json {
    Json::Object(seq![("type"@, Json::Text("string"@))])
}

/// The parameters of a tool that takes the name of a skill.
pub open spec fn name_schema() -> Json {
    Json::Object(
        seq![
            ("type"@, Json::Text("object"@)),
            ("properties"@, Json::Object(seq![("name"@, string_type())])),
            ("required"@, Json::Array(seq![Json::Text("name"@)])),
        ],
    )
}

/// A tool: its name, what it does, and its parameters.
pub open spec fn tool(name: Seq<char>, description: Seq<char>, schema: Json) -> Json {
    Json::Object(
        seq![
            ("name"@, Json::Text(name)),
            ("description"@, Json::Text(description)),
            ("inputSchema"@, schema),
        ],
    )
}

/// The tools of both servers.
pub open spec fn common_tools() -> Seq<Json> {
    seq![
        tool(
            "list_skills"@,
            "List every skill currently available to this session (global skills, plus this project's own skills if a project is open). Each entry has name/description/scope/startedFrom."@,
            Json::Object(
                seq![
                    ("type"@, Json::Text("object"@)),
                    ("properties"@, Json::Object(Seq::empty())),
                ],
            ),
        ),
        tool(
            "read_skill"@,
            "Read a skill's full SKILL.md content by its exact name, as returned by list_skills."@,
            name_schema(),
        ),
    ]
}

/// The tools for the files beside a skill.
pub open spec fn file_tools() -> Seq<Json> {
    seq![
        tool(
            "list_skill_files"@,
            "List supporting files currently present below a skill, such as references/ and scripts/. SKILL.md itself is read with read_skill."@,
            name_schema(),
        ),
        tool(
            "read_skill_file"@,
            "Read a UTF-8 supporting file below a skill, such as references/guide.md or scripts/build.sh. The path must be relative to that skill."@,
            Json::Object(
                seq![
                    ("type"@, Json::Text("object"@)),
                    (
                        "properties"@,
                        Json::Object(seq![("name"@, string_type()), ("path"@, string_type())]),
                    ),
                    (
                        "required"@,
                        Json::Array(seq![Json::Text("name"@), Json::Text("path"@)]),
                    ),
                ],
            ),
        ),
    ]
}

/// The tools of a server.
pub open spec fn tools_of(server: Server) -> Seq<Json> {
    match server {
        Server::Skills => common_tools(),
        Server::Snapflowd => common_tools() + file_tools(),
    }
}

/// The list of the tools of a server.
pub open spec fn tools_json(server: Server) -> Json {
    Json::Object(seq![("tools"@, Json::Array(tools_of(server)))])
}

/// A call of a tool without a parameter that it needs.
pub open spec fn missing(what: Seq<char>) -> HandledView {
    HandledView::Error(-32602, what)
}

/// What is done for the call of a tool.
pub open spec fn called(server: Server, name: Seq<char>, params: Option<Json>) -> HandledView {
    let arguments = param(params, "arguments"@);
    let skill = text_param(arguments, "name"@);
    if name == "list_skills"@ {
        HandledView::ListSkills
    } else if name == "read_skill"@ {
        match skill {
            Some(skill) => HandledView::ReadSkill(skill),
            None => missing("missing required 'name' argument"@),
        }
    } else if name == "list_skill_files"@ && server == Server::Snapflowd {
        match skill {
            Some(skill) => HandledView::ListSkillFiles(skill),
            None => missing("missing required 'name' argument"@),
        }
    } else if name == "read_skill_file"@ && server == Server::Snapflowd {
        if arguments is None {
            missing("missing required arguments"@)
        } else {
            match skill {
                Some(skill) => match text_param(arguments, "path"@) {
                    Some(path) => HandledView::ReadSkillFile(skill, path),
                    None => missing("missing required 'path' argument"@),
                },
                None => missing("missing required 'name' argument"@),
            }
        }
    } else {
        HandledView::Error(-32601, "unknown tool: "@ + name)
    }
}

/// What is done for a request.
pub open spec fn handled(server: Server, method: Seq<char>, params: Option<Json>) -> HandledView {
    if method == "initialize"@ {
        HandledView::Answer(introduction(server))
    } else if method == "tools/list"@ {
        HandledView::Answer(tools_json(server))
    } else if method == "tools/call"@ {
        match text_param(params, "name"@) {
            Some(name) => called(server, name, params),
            None => missing("missing required 'name' param"@),
        }
    } else {
        HandledView::Error(-32601, "Method not found: "@ + method)
    }
}

fn introduce(server: Server) -> (r: JsonValue)
    ensures
        r@ == introduction(server),
{
    let name: &str = match server {
        Server::Skills => "skills-mcp-server",
        Server::Snapflowd => "snapflowd-mcp",
    };
    let info: JsonValue = object2("name", text_value(name), "version", text_value("0.1.0"));
    object3(
        "protocolVersion",
        text_value("2024-11-05"),
        "capabilities",
        object1("tools", object0()),
        "serverInfo",
        info,
    )
}

fn make_tool(name: &str, description: &str, schema: JsonValue) -> (r: JsonValue)
    ensures
        r@ == tool(name@, description@, schema@),
{
    object3(
        "name",
        text_value(name),
        "description",
        text_value(description),
        "inputSchema",
        schema,
    )
}

fn make_name_schema() -> (r: JsonValue)
    ensures
        r@ == name_schema(),
{
    object3(
        "type",
        text_value("object"),
        "properties",
        object1("name", object1("type", text_value("string"))),
        "required",
        array1(text_value("name")),
    )
}

/// The list of the tools of a server.
pub fn tools_list_result(server: Server) -> (r: JsonValue)
    ensures
        r@ == tools_json(server),
{
    let mut tools: Vec<JsonValue> = Vec::new();
    tools.push(
        make_tool(
            "list_skills",
            "List every skill currently available to this session (global skills, plus this project's own skills if a project is open). Each entry has name/description/scope/startedFrom.",
            object2("type", text_value("object"), "properties", object0()),
        ),
    );
    tools.push(
        make_tool(
            "read_skill",
            "Read a skill's full SKILL.md content by its exact name, as returned by list_skills.",
            make_name_schema(),
        ),
    );
    assert(json_seq(tools@) =~= common_tools());
    match server {
        Server::Skills => {},
        Server::Snapflowd => {
            tools.push(
                make_tool(
                    "list_skill_files",
                    "List supporting files currently present below a skill, such as references/ and scripts/. SKILL.md itself is read with read_skill.",
                    make_name_schema(),
                ),
            );
            let both: JsonValue = object2(
                "name",
                object1("type", text_value("string")),
                "path",
                object1("type", text_value("string")),
            );
            let mut names: Vec<JsonValue> = Vec::new();
            names.push(text_value("name"));
            names.push(text_value("path"));
            assert(json_seq(names@) =~= seq![Json::Text("name"@), Json::Text("path"@)]);
            tools.push(
                make_tool(
                    "read_skill_file",
                    "Read a UTF-8 supporting file below a skill, such as references/guide.md or scripts/build.sh. The path must be relative to that skill.",
                    object3(
                        "type",
                        text_value("object"),
                        "properties",
                        both,
                        "required",
                        array(names),
                    ),
                ),
            );
        },
    }
    assert(json_seq(tools@) =~= tools_of(server));
    object1("tools", array(tools))
}

fn get_param<'a>(params: Option<&'a JsonValue>, key: &str) -> (r: Option<&'a JsonValue>)
    ensures
        match param(
            match params {
                Some(params) => Some(params@),
                None => None,
            },
            key@,
        ) {
            Some(value) => r is Some && r->0@ == value,
            None => r is None,
        },
{
    match params {
        Some(params) => params.get(key),
        None => None,
    }
}

fn get_text_param(params: Option<&JsonValue>, key: &str) -> (r: Option<String>)
    ensures
        optional_text(r) == text_param(
            match params {
                Some(params) => Some(params@),
                None => None,
            },
            key@,
        ),
{
    match get_param(params, key) {
        Some(value) => match value.as_str() {
            Some(text) => Some(text.to_owned()),
            None => None,
        },
        None => None,
    }
}

fn refuse(code: i64, message: String) -> (r: Result<Handled, RpcError>)
    ensures
        handled_view(r) == HandledView::Error(code as int, message@),
{
    Err(RpcError { code, message })
}

fn lacks(what: &str) -> (r: Result<Handled, RpcError>)
    ensures
        handled_view(r) == missing(what@),
{
    refuse(-32602, what.to_owned())
}

fn call_tool(server: Server, name: &str, params: Option<&JsonValue>) -> (r: Result<
    Handled,
    RpcError,
>)
    ensures
        handled_view(r) == called(
            server,
            name@,
            match params {
                Some(params) => Some(params@),
                None => None,
            },
        ),
{
    let arguments: Option<&JsonValue> = get_param(params, "arguments");
    let skill: Option<String> = get_text_param(arguments, "name");
    let files: bool = match server {
        Server::Skills => false,
        Server::Snapflowd => true,
    };
    if same(name, "list_skills") {
        Ok(Handled::Call(ToolCall::ListSkills))
    } else if same(name, "read_skill") {
        match skill {
            Some(skill) => Ok(Handled::Call(ToolCall::ReadSkill { name: skill })),
            None => lacks("missing required 'name' argument"),
        }
    } else if same(name, "list_skill_files") && files {
        match skill {
            Some(skill) => Ok(Handled::Call(ToolCall::ListSkillFiles { name: skill })),
            None => lacks("missing required 'name' argument"),
        }
    } else if same(name, "read_skill_file") && files {
        if arguments.is_none() {
            return lacks("missing required arguments");
        }
        match skill {
            Some(skill) => match get_text_param(arguments, "path") {
                Some(path) => Ok(Handled::Call(ToolCall::ReadSkillFile { name: skill, path })),
                None => lacks("missing required 'path' argument"),
            },
            None => lacks("missing required 'name' argument"),
        }
    } else {
        refuse(-32601, join("unknown tool: ", name))
    }
}

/// Says what is done for a request.
pub fn handle_request(server: Server, method: &str, params: Option<&JsonValue>) -> (r: Result<
    Handled,
    RpcError,
>)
    ensures
        handled_view(r) == handled(
            server,
            method@,
            match params {
                Some(params) => Some(params@),
                None => None,
            },
        ),
{
    if same(method, "initialize") {
        Ok(Handled::Answer(introduce(server)))
    } else if same(method, "tools/list") {
        Ok(Handled::Answer(tools_list_result(server)))
    } else if same(method, "tools/call") {
        match get_text_param(params, "name") {
            Some(name) => call_tool(server, name.as_str(), params),
            None => lacks("missing required 'name' param"),
        }
    } else {
        refuse(-32601, join("Method not found: ", method))
    }
}

/// The answer to a request.
pub open spec fn answer(id: Json, result: Result<Json, (int, Seq<char>)>) -> Json {
    match result {
        Ok(value) => Json::Object(
            seq![("jsonrpc"@, Json::Text("2.0"@)), ("id"@, id), ("result"@, value)],
        ),
        Err((code, message)) => Json::Object(
            seq![
                ("jsonrpc"@, Json::Text("2.0"@)),
                ("id"@, id),
                (
                    "error"@,
                    Json::Object(
                        seq![("code"@, Json::Int(code)), ("message"@, Json::Text(message))],
                    ),
                ),
            ],
        ),
    }
}

/// The answer to a request: a result, or an error with its number.
pub fn response(id: JsonValue, result: Result<JsonValue, RpcError>) -> (r: JsonValue)
    ensures
        r@ == answer(
            id@,
            match result {
                Ok(value) => Ok(value@),
                Err(error) => Err((error.code as int, error.message@)),
            },
        ),
{
    match result {
        Ok(value) => object3("jsonrpc", text_value("2.0"), "id", id, "result", value),
        Err(error) => object3(
            "jsonrpc",
            text_value("2.0"),
            "id",
            id,
            "error",
            object2(
                "code",
                JsonValue::Int(error.code as i128),
                "message",
                text_value(error.message.as_str()),
            ),
        ),
    }
}

/// An answer bears the id of its request.
pub proof fn law_answer_bears_the_id(id: Json, result: Result<Json, (int, Seq<char>)>)
    ensures
        field(answer(id, result), "id"@) == Some(id),
{
    reveal_strlit("jsonrpc");
    reveal_strlit("id");
    assert("jsonrpc"@.len() == 7);
    assert("id"@.len() == 2);
    let fields = answer(id, result)->Object_0;
    assert(fields[0].0 == "jsonrpc"@);
    assert(fields[1] == ("id"@, id));
    reveal_with_fuel(crate::json::field_from, 3);
}

/// Every tool that a server lists can be called: the call is understood, or a
/// parameter is missing, but the tool is known.
pub proof fn law_listed_tools_are_known(server: Server, k: int, params: Option<Json>)
    requires
        0 <= k < tools_of(server).len(),
    ensures
        ({
            let name = str_field(tools_of(server)[k], "name"@)->0;
            &&& str_field(tools_of(server)[k], "name"@) is Some
            &&& called(server, name, params) != HandledView::Error(
                -32601,
                "unknown tool: "@ + name,
            )
        }),
{
    reveal_with_fuel(crate::json::field_from, 2);
    let listed = tools_of(server)[k];
    assert(listed->Object_0[0].0 == "name"@);
    assert(k < 2 ==> listed == common_tools()[k]);
    assert(k >= 2 ==> listed == file_tools()[k - 2]);
    reveal_strlit("list_skills");
    reveal_strlit("read_skill");
    reveal_strlit("list_skill_files");
    reveal_strlit("read_skill_file");
}

} // verus!
