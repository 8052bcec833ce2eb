//! Opening sessions for a pool: which profile a pool key selects, what is
//! sent to the gateway, and what its answer means.

use crate::gateway_actor::command_loop::{attach_params, CallView, GatewayCall};
use crate::json::{get_str, object2, str_field, text_value, Json, JsonValue};
use crate::text::{borrowed_text, owned, same};
use vstd::prelude::*;

verus! {

/// What stands for "no profile" in a pool key.
pub const NO_PROFILE_SENTINEL: &'static str = "__default__";

/// The text by which a pool key names a profile.
pub open spec fn profile_key(profile: Option<Seq<char>>) -> Seq<char> {
    match profile {
        Some(p) => p,
        None => NO_PROFILE_SENTINEL@,
    }
}

/// The profile that a pool key's text names.
pub open spec fn key_profile(key: Seq<char>) -> Option<Seq<char>> {
    if key == NO_PROFILE_SENTINEL@ {
        None
    } else {
        Some(key)
    }
}

/// The text by which a pool key names a profile, or that there is none.
pub fn provider_profile_key(profile: Option<&str>) -> (r: String)
    ensures
        r@ == profile_key(borrowed_text(profile)),
{
    match profile {
        Some(p) => p.to_owned(),
        None => NO_PROFILE_SENTINEL.to_owned(),
    }
}

/// A profile is found again from its key, unless its name is the sentinel.
pub proof fn law_profile_key_round_trip(profile: Option<Seq<char>>)
    requires
        profile != Some(NO_PROFILE_SENTINEL@),
    ensures
        key_profile(profile_key(profile)) == profile,
{
}

/// What decides whether a pooled session can be used again: the project, the
/// agent, and the profile.
#[derive(Clone, Debug, PartialEq, Eq, Hash)]
pub struct PoolKey {
    pub project_dir: String,
    pub agent_id: String,
    pub provider_profile: String,
}

impl PoolKey {
    /// A pool key of its three parts.
    pub fn new(project_dir: &str, agent_id: &str, provider_profile: String) -> (r: PoolKey)
        ensures
            r.project_dir@ == project_dir@,
            r.agent_id@ == agent_id@,
            r.provider_profile@ == provider_profile@,
    {
        PoolKey {
            project_dir: project_dir.to_owned(),
            agent_id: agent_id.to_owned(),
            provider_profile,
        }
    }
}

/// The profile that a pool key selects.
pub fn profile_from_key(key: &PoolKey) -> (r: Option<&str>)
    ensures
        borrowed_text(r) == key_profile(key.provider_profile@),
{
    if same(key.provider_profile.as_str(), NO_PROFILE_SENTINEL) {
        None
    } else {
        Some(key.provider_profile.as_str())
    }
}

/// Why a session could not be opened.
#[derive(Debug, PartialEq, Eq)]
pub struct OpenError {
    pub message: String,
    /// Whether another attempt can help.
    pub retryable: bool,
}

/// How a failed gateway call counts for the pool: a refusal for lack of
/// authentication or capacity is final, any other failure is worth another
/// attempt.
pub fn classify(authentication_or_capacity: bool, message: String) -> (r: OpenError)
    ensures
        counts_as(authentication_or_capacity, message@, r),
{
    OpenError { message, retryable: !authentication_or_capacity }
}

/// How the gateway's answer to a call came out: its value, or a failure with
/// whether it is for lack of authentication or capacity.
#[derive(Debug, PartialEq)]
pub enum CallResult {
    Value(JsonValue),
    Failure { authentication_or_capacity: bool, message: String },
}

/// What `session/new` is sent for a pool.
pub open spec fn create_params(cwd: Seq<char>, mcp_servers: Json) -> Json {
    Json::Object(seq![("cwd"@, Json::Text(cwd)), ("mcpServers"@, mcp_servers)])
}

/// The call that takes up a session again.
pub open spec fn resume_read(key: PoolKey, saved: Seq<char>) -> CallView {
    CallView {
        method: "session/resume"@,
        params: attach_params(saved, key.project_dir@),
        profile: key_profile(key.provider_profile@),
        with_updates: false,
    }
}

/// The call that opens a new session.
pub open spec fn create_read(key: PoolKey, mcp_servers: Json) -> CallView {
    CallView {
        method: "session/new"@,
        params: create_params(key.project_dir@, mcp_servers),
        profile: key_profile(key.provider_profile@),
        with_updates: false,
    }
}

/// Whether a failed call counts for the pool as this error.
pub open spec fn counts_as(
    authentication_or_capacity: bool,
    message: Seq<char>,
    error: OpenError,
) -> bool {
    error.message@ == message && error.retryable == !authentication_or_capacity
}

/// Whether taking up a session again comes to a result.
pub open spec fn resumes_to(
    saved: Seq<char>,
    result: CallResult,
    r: Result<String, OpenError>,
) -> bool {
    match result {
        CallResult::Value(_) => r is Ok && r->Ok_0@ == saved,
        CallResult::Failure { authentication_or_capacity, message } => r is Err && counts_as(
            authentication_or_capacity,
            message@,
            r->Err_0,
        ),
    }
}

/// Whether opening a new session comes to a result.
pub open spec fn creates(result: CallResult, r: Result<String, OpenError>) -> bool {
    match result {
        CallResult::Value(value) => match str_field(value@, "sessionId"@) {
            Some(id) => r is Ok && r->Ok_0@ == id,
            None => r is Err && r->Err_0.retryable && r->Err_0.message@
                == "session/new response had no sessionId field"@,
        },
        CallResult::Failure { authentication_or_capacity, message } => r is Err && counts_as(
            authentication_or_capacity,
            message@,
            r->Err_0,
        ),
    }
}

/// Opens sessions for one project.
#[derive(Debug, PartialEq)]
pub struct GatewaySessionOpener {
    pub mcp_servers: JsonValue,
}

impl GatewaySessionOpener {
    /// An opener whose sessions get the MCP servers `mcp_servers`.
    pub fn new(mcp_servers: JsonValue) -> (r: GatewaySessionOpener)
        ensures
            r.mcp_servers@ == mcp_servers@,
    {
        GatewaySessionOpener { mcp_servers }
    }

    /// Changes the MCP servers that sessions get from now on.
    pub fn set_mcp_servers(&mut self, mcp_servers: JsonValue)
        ensures
            final(self).mcp_servers@ == mcp_servers@,
    {
        self.mcp_servers = mcp_servers;
    }

    /// The call that takes up the session `saved_session_id` again.
    pub fn resume_call(&self, key: &PoolKey, saved_session_id: &str) -> (r: GatewayCall)
        ensures
            r@ == resume_read(*key, saved_session_id@),
    {
        GatewayCall {
            method: "session/resume".to_owned(),
            params: object2(
                "sessionId",
                text_value(saved_session_id),
                "cwd",
                text_value(key.project_dir.as_str()),
            ),
            profile: owned(profile_from_key(key)),
            with_updates: false,
        }
    }

    /// The call that opens a new session.
    pub fn create_call(&self, key: &PoolKey) -> (r: GatewayCall)
        ensures
            r@ == create_read(*key, self.mcp_servers@),
    {
        GatewayCall {
            method: "session/new".to_owned(),
            params: object2(
                "cwd",
                text_value(key.project_dir.as_str()),
                "mcpServers",
                self.mcp_servers.clone(),
            ),
            profile: owned(profile_from_key(key)),
            with_updates: false,
        }
    }
}

/// What taking up the session `saved_session_id` again comes to: that session,
/// or the failure of the call.
pub fn resumed(saved_session_id: &str, result: CallResult) -> (r: Result<String, OpenError>)
    ensures
        resumes_to(saved_session_id@, result, r),
{
    match result {
        CallResult::Value(_) => Ok(saved_session_id.to_owned()),
        CallResult::Failure { authentication_or_capacity, message } => Err(
            classify(authentication_or_capacity, message),
        ),
    }
}

/// What opening a new session comes to: the session that the answer names, the
/// failure of the call, or one worth another attempt where the answer names no
/// session.
pub fn created(result: CallResult) -> (r: Result<String, OpenError>)
    ensures
        creates(result, r),
{
    match result {
        CallResult::Value(value) => match get_str(&value, "sessionId") {
            Some(id) => Ok(id.to_owned()),
            None => Err(
                OpenError {
                    message: "session/new response had no sessionId field".to_owned(),
                    retryable: true,
                },
            ),
        },
        CallResult::Failure { authentication_or_capacity, message } => Err(
            classify(authentication_or_capacity, message),
        ),
    }
}

} // verus!
