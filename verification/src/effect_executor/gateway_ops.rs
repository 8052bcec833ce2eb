//! What is asked of the gateway from the settings, and what the user is told of
//! the outcome.

use crate::effect::EffectError;
use crate::json::{fields_seq, object, put, no_fields, text_value, Json, JsonValue};
use crate::model::McpServerEntry;
use crate::text::{join, join3, optional_text};
use vstd::prelude::*;

verus! {

/// A setting of a tool.
#[derive(Debug, Clone, Copy, PartialEq, Eq, Structural)]
pub enum ToolField {
    Enabled,
    Deferred,
}

/// Something that is asked of the gateway about servers of tools and profiles.
#[derive(Debug, PartialEq)]
pub enum GatewayOp {
    CreateServer { entry: McpServerEntry },
    UpdateServer { entry: McpServerEntry },
    DeleteServer { name: String },
    SetServerEnabled { name: String, enabled: bool },
    Authenticate { name: String },
    Logout { name: String },
    SetTool { server: String, tool: String, field: ToolField, value: bool },
    FetchTools { name: String },
    CreateProfile { name: String, entry: JsonValue },
    DeleteProfile { name: String },
}

/// The definition of a profile: its name, what it allows, and its agent where
/// one was chosen.
pub open spec fn profile_json(
    name: Seq<char>,
    agent_id: Option<Seq<char>>,
    terminal: bool,
    fs: bool,
) -> Json {
    let fields = seq![
        ("name"@, Json::Text(name)),
        ("allow_terminal_access"@, Json::Bool(terminal)),
        ("allow_fs_access"@, Json::Bool(fs)),
    ];
    Json::Object(
        if agent_id is Some && agent_id->0.len() > 0 {
            fields.push(("agent_id"@, Json::Text(agent_id->0)))
        } else {
            fields
        },
    )
}

/// The definition of a profile.
pub fn profile_definition(
    name: &str,
    agent_id: &Option<String>,
    terminal: bool,
    fs: bool,
) -> (r: JsonValue)
    ensures
        r@ == profile_json(name@, optional_text(*agent_id), terminal, fs),
{
    let mut fields: Vec<(String, JsonValue)> = no_fields();
    put(&mut fields, "name", text_value(name));
    put(&mut fields, "allow_terminal_access", JsonValue::Bool(terminal));
    put(&mut fields, "allow_fs_access", JsonValue::Bool(fs));
    if let Some(agent_id) = agent_id {
        if agent_id.as_str().unicode_len() > 0 {
            put(&mut fields, "agent_id", text_value(agent_id.as_str()));
        }
    }
    assert(fields_seq(fields@) =~= profile_json(
        name@,
        optional_text(*agent_id),
        terminal,
        fs,
    )->Object_0);
    object(fields)
}

/// A name in quotation marks between two texts.
pub open spec fn quoted(before: Seq<char>, name: Seq<char>, after: Seq<char>) -> Seq<char> {
    before + "\""@ + name + "\""@ + after
}

fn quote(before: &str, name: &str, after: &str) -> (r: String)
    ensures
        r@ == quoted(before@, name@, after@),
{
    let opened: String = join3(before, "\"", name);
    join3(opened.as_str(), "\"", after)
}

/// What a setting of a tool was changed to.
pub open spec fn tool_change(field: ToolField, value: bool) -> Seq<char> {
    match (field, value) {
        (ToolField::Enabled, true) => "enabled"@,
        (ToolField::Enabled, false) => "disabled"@,
        (ToolField::Deferred, true) => "set to deferred"@,
        (ToolField::Deferred, false) => "set to eager"@,
    }
}

/// What the user is told when something was done.
pub open spec fn done_text(op: GatewayOp) -> Seq<char> {
    match op {
        GatewayOp::CreateServer { entry } => quoted("MCP server "@, entry.name@, " created"@),
        GatewayOp::UpdateServer { entry } => quoted("MCP server "@, entry.name@, " updated"@),
        GatewayOp::DeleteServer { name } => quoted("MCP server "@, name@, " removed"@),
        GatewayOp::SetServerEnabled { name, enabled } => quoted(
            "MCP server "@,
            name@,
            if enabled {
                " enabled"@
            } else {
                " disabled"@
            },
        ),
        GatewayOp::Authenticate { name } => quoted("Opened browser to connect "@, name@, ""@),
        GatewayOp::Logout { name } => quoted("Disconnected "@, name@, ""@),
        GatewayOp::SetTool { tool, field, value, .. } => quoted("Tool "@, tool@, " "@)
            + tool_change(field, value),
        GatewayOp::FetchTools { name } => quoted("Fetching tools for "@, name@, "..."@),
        GatewayOp::CreateProfile { name, .. } => quoted("Profile "@, name@, " created"@),
        GatewayOp::DeleteProfile { name } => quoted("Profile "@, name@, " deleted"@),
    }
}

/// What the user is told when something failed.
pub open spec fn failed_text(op: GatewayOp, error: Seq<char>) -> Seq<char> {
    let what = match op {
        GatewayOp::CreateServer { entry } => quoted(
            "Failed to create MCP server "@,
            entry.name@,
            ": "@,
        ),
        GatewayOp::UpdateServer { entry } => quoted(
            "Failed to update MCP server "@,
            entry.name@,
            ": "@,
        ),
        GatewayOp::DeleteServer { name } => quoted("Failed to remove MCP server "@, name@, ": "@),
        GatewayOp::SetServerEnabled { name, .. } => quoted(
            "Failed to update enabled state for MCP server "@,
            name@,
            ": "@,
        ),
        GatewayOp::Authenticate { name } => quoted(
            "Failed to start OAuth flow for MCP server "@,
            name@,
            ": "@,
        ),
        GatewayOp::Logout { name } => quoted("Failed to disconnect MCP server "@, name@, ": "@),
        GatewayOp::SetTool { server, tool, .. } => quoted(
            "Failed to update tool "@,
            tool@,
            " on MCP server "@,
        ) + quoted(""@, server@, ": "@),
        GatewayOp::FetchTools { name } => quoted(
            "Failed to fetch tools for MCP server "@,
            name@,
            ": "@,
        ),
        GatewayOp::CreateProfile { name, .. } => quoted(
            "Failed to create profile "@,
            name@,
            ": "@,
        ),
        GatewayOp::DeleteProfile { name } => quoted("Failed to delete profile "@, name@, ": "@),
    };
    what + error
}

fn done_message(op: &GatewayOp) -> (r: String)
    ensures
        r@ == done_text(*op),
{
    match op {
        GatewayOp::CreateServer { entry } => quote("MCP server ", entry.name.as_str(), " created"),
        GatewayOp::UpdateServer { entry } => quote("MCP server ", entry.name.as_str(), " updated"),
        GatewayOp::DeleteServer { name } => quote("MCP server ", name.as_str(), " removed"),
        GatewayOp::SetServerEnabled { name, enabled } => quote(
            "MCP server ",
            name.as_str(),
            if *enabled {
                " enabled"
            } else {
                " disabled"
            },
        ),
        GatewayOp::Authenticate { name } => quote("Opened browser to connect ", name.as_str(), ""),
        GatewayOp::Logout { name } => quote("Disconnected ", name.as_str(), ""),
        GatewayOp::SetTool { tool, field, value, .. } => {
            let change: &str = match (*field, *value) {
                (ToolField::Enabled, true) => "enabled",
                (ToolField::Enabled, false) => "disabled",
                (ToolField::Deferred, true) => "set to deferred",
                (ToolField::Deferred, false) => "set to eager",
            };
            let named: String = quote("Tool ", tool.as_str(), " ");
            join(named.as_str(), change)
        },
        GatewayOp::FetchTools { name } => quote("Fetching tools for ", name.as_str(), "..."),
        GatewayOp::CreateProfile { name, .. } => quote("Profile ", name.as_str(), " created"),
        GatewayOp::DeleteProfile { name } => quote("Profile ", name.as_str(), " deleted"),
    }
}

fn failed_message(op: &GatewayOp, error: &str) -> (r: String)
    ensures
        r@ == failed_text(*op, error@),
{
    let what: String = match op {
        GatewayOp::CreateServer { entry } => quote(
            "Failed to create MCP server ",
            entry.name.as_str(),
            ": ",
        ),
        GatewayOp::UpdateServer { entry } => quote(
            "Failed to update MCP server ",
            entry.name.as_str(),
            ": ",
        ),
        GatewayOp::DeleteServer { name } => quote(
            "Failed to remove MCP server ",
            name.as_str(),
            ": ",
        ),
        GatewayOp::SetServerEnabled { name, .. } => quote(
            "Failed to update enabled state for MCP server ",
            name.as_str(),
            ": ",
        ),
        GatewayOp::Authenticate { name } => quote(
            "Failed to start OAuth flow for MCP server ",
            name.as_str(),
            ": ",
        ),
        GatewayOp::Logout { name } => quote(
            "Failed to disconnect MCP server ",
            name.as_str(),
            ": ",
        ),
        GatewayOp::SetTool { server, tool, .. } => {
            let on: String = quote("Failed to update tool ", tool.as_str(), " on MCP server ");
            let of: String = quote("", server.as_str(), ": ");
            join(on.as_str(), of.as_str())
        },
        GatewayOp::FetchTools { name } => quote(
            "Failed to fetch tools for MCP server ",
            name.as_str(),
            ": ",
        ),
        GatewayOp::CreateProfile { name, .. } => quote(
            "Failed to create profile ",
            name.as_str(),
            ": ",
        ),
        GatewayOp::DeleteProfile { name } => quote(
            "Failed to delete profile ",
            name.as_str(),
            ": ",
        ),
    };
    join(what.as_str(), error)
}

/// Whether the user is told of something that was asked of the gateway.
pub open spec fn tells_outcome(
    op: GatewayOp,
    result: Result<(), String>,
    told: Result<String, EffectError>,
) -> bool {
    match result {
        Ok(()) => told is Ok && told->Ok_0@ == done_text(op),
        Err(error) => told is Err && told->Err_0.message@ == failed_text(op, error@),
    }
}

/// What the user is told of something that was asked of the gateway.
pub fn gateway_op_result(op: &GatewayOp, result: Result<(), String>) -> (r: Result<
    String,
    EffectError,
>)
    ensures
        tells_outcome(*op, result, r),
{
    match result {
        Ok(()) => Ok(done_message(op)),
        Err(error) => Err(EffectError::new(failed_message(op, error.as_str()))),
    }
}

/// Whether the user is told of a page for signing in.
pub open spec fn tells_signing_in(
    name: Seq<char>,
    opened: Result<Result<(), String>, String>,
    told: Result<String, EffectError>,
) -> bool {
    match opened {
        Ok(Ok(())) => told is Ok && told->Ok_0@ == quoted(
            "Opened browser to connect "@,
            name,
            ""@,
        ),
        Ok(Err(error)) => told is Err && told->Err_0.message@ == quoted(
            "MCP server "@,
            name,
            ": failed to open browser for OAuth: "@,
        ) + error@,
        Err(error) => told is Err && told->Err_0.message@ == quoted(
            "Failed to start OAuth flow for MCP server "@,
            name,
            ": "@,
        ) + error@,
    }
}

/// What the user is told after a page for signing in was asked for: `opened` is
/// the gateway's answer, and then whether the browser could be opened.
pub fn authenticate_result(name: String, opened: Result<Result<(), String>, String>) -> (r: Result<
    String,
    EffectError,
>)
    ensures
        tells_signing_in(name@, opened, r),
{
    match opened {
        Ok(Ok(())) => Ok(quote("Opened browser to connect ", name.as_str(), "")),
        Ok(Err(error)) => {
            let what: String = quote(
                "MCP server ",
                name.as_str(),
                ": failed to open browser for OAuth: ",
            );
            Err(EffectError::new(join(what.as_str(), error.as_str())))
        },
        Err(error) => {
            let what: String = quote(
                "Failed to start OAuth flow for MCP server ",
                name.as_str(),
                ": ",
            );
            Err(EffectError::new(join(what.as_str(), error.as_str())))
        },
    }
}

/// Whether the user is told of the panel's own server of tools.
pub open spec fn tells_builtin(
    enabled: bool,
    kept: Result<(), String>,
    told: Result<String, EffectError>,
) -> bool {
    match kept {
        Ok(()) => told is Ok && told->Ok_0@ == quoted(
            "MCP server "@,
            "snapflow"@,
            if enabled {
                " enabled"@
            } else {
                " disabled"@
            },
        ),
        Err(error) => told is Err && told->Err_0.message@
            == "Failed to persist snapflow MCP enabled="@ + (if enabled {
            "true"@
        } else {
            "false"@
        }) + ": "@ + error@,
    }
}

/// What the user is told after the panel's own server of tools was switched;
/// `kept` is whether the setting could be kept.
pub fn builtin_server_result(enabled: bool, kept: Result<(), String>) -> (r: Result<
    String,
    EffectError,
>)
    ensures
        tells_builtin(enabled, kept, r),
{
    match kept {
        Ok(()) => Ok(
            quote(
                "MCP server ",
                "snapflow",
                if enabled {
                    " enabled"
                } else {
                    " disabled"
                },
            ),
        ),
        Err(error) => {
            let flag: &str = if enabled {
                "true"
            } else {
                "false"
            };
            let what: String = join3("Failed to persist snapflow MCP enabled=", flag, ": ");
            Err(EffectError::new(join(what.as_str(), error.as_str())))
        },
    }
}

} // verus!
