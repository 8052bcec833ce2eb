//! The verified core of a chat panel: what its threads say, how their history
//! is kept, what it asks of the gateway, and what it shows.

pub mod conversation;
pub mod dirty;
pub mod dispatch;
pub mod editor_detect;
pub mod effect;
pub mod effect_executor;
pub mod external_snapshot;
pub mod gateway_actor;
pub mod json;
pub mod jsonl_format;
pub mod jsonl_lines;
pub mod jsonl_store;
pub mod keys;
pub mod list_model;
pub mod mock_agent;
pub mod model;
pub mod panel;
pub mod paths;
pub mod prefs;
pub mod project_stores;
pub mod protocol_types;
pub mod records;
pub mod runtime_snapshot;
pub mod seqs;
pub mod session_cache;
pub mod skills;
pub mod skills_mcp;
pub mod startup;
pub mod text;
pub mod text_util;
