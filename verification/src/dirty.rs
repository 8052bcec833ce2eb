//! What changed on the panel, in the smallest terms that its display needs.

use crate::model::{SkillEntry, VisibleThreadItem};
use crate::protocol_types::ChatMessage;
use vstd::prelude::*;

verus! {

/// A structural change of a list of rows.
#[derive(Debug, Clone, PartialEq)]
pub enum RowOp<T> {
    Insert { at: usize, row: T },
    Remove { at: usize },
    Move { from: usize, to: usize },
}

/// An error that the user is told of.
#[derive(Debug, Clone, PartialEq, Eq)]
pub struct ErrorDetail {
    pub message: String,
}

/// What has to be displayed anew.
#[derive(Debug, Clone, PartialEq)]
pub enum Dirty {
    /// A single property of the panel.
    Scalar(ScalarField),
    /// A row of the thread list, in its place.
    ThreadRow(usize),
    /// The order of the thread list, or which rows it has.
    ThreadListDiff(Vec<RowOp<VisibleThreadItem>>),
    /// One more message at the end of a thread.
    MessageAppended { thread_id: String },
    /// Which messages a thread shows.
    MessagesDiff { thread_id: String, ops: Vec<RowOp<ChatMessage>> },
    /// More text of a message that is being streamed.
    MessageStreamingDelta { thread_id: String, message_id: String, delta: String },
    /// How a thread is connected.
    Connection { thread_id: String },
    Error { thread_id: String, detail: ErrorDetail },
    PendingRequest { thread_id: String },
    Terminal { id: String },
    LocalTerminal,
    Settings,
    SkillsListDiff(Vec<RowOp<SkillEntry>>),
    SkillRow(usize),
    Capabilities { thread_id: String },
}

/// A property of the panel.
#[derive(Debug, Clone, Copy, PartialEq, Eq, Structural)]
pub enum ScalarField {
    SelectedThread,
    ComposeText,
    SettingsOpen,
    SettingsScope,
    ExpandedTerminal,
    SearchQuery,
}

} // verus!
