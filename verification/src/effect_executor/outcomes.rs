//! What follows when something that was done outside has an outcome.

use crate::effect::{EffectError, EffectResultMsg};
use crate::model::{AgentCatalogEntry, SkillEditorState, SkillScope};
use crate::paths::{parent, parent_of};
use crate::prefs::later;
use crate::seqs::{lemma_picked_take, picked};
use crate::text::{decimal, decimal_text, join, join3, optional_text, starts_with};
use vstd::prelude::*;

verus! {

/// What of the panel's state could not be changed or kept, and why.
#[derive(Debug, Clone, PartialEq, Eq)]
pub enum StateFailure {
    CloseThread { real_index: usize },
    ArchiveThread { real_index: usize, archived: bool },
    DeleteThread { real_index: usize },
    SelectedThread { error: String },
    BackgroundOverride { error: String },
    RenamedThread { error: String },
    RuntimeDefaults { error: String },
    DevMode { error: String },
    BundledSkill { error: String },
    BundledSkillAtStartup { error: String },
    MigratedDefaults { error: String },
}

/// What the user is told of it.
pub open spec fn failure_text(failure: StateFailure) -> Seq<char> {
    match failure {
        StateFailure::CloseThread { real_index } => "failed to close thread "@ + decimal(
            real_index as nat,
        ),
        StateFailure::ArchiveThread { real_index, archived } => "failed to set thread "@ + decimal(
            real_index as nat,
        ) + (if archived {
            " archived=true"@
        } else {
            " archived=false"@
        }),
        StateFailure::DeleteThread { real_index } => "failed to delete thread "@ + decimal(
            real_index as nat,
        ),
        StateFailure::SelectedThread { error } => "failed to persist selected chat thread: "@
            + error@,
        StateFailure::BackgroundOverride { error } =>
            "failed to toggle background-session override: "@ + error@,
        StateFailure::RenamedThread { error } => "failed to persist renamed chat thread: "@
            + error@,
        StateFailure::RuntimeDefaults { error } =>
            "failed to synchronize runtime panel defaults: "@ + error@,
        StateFailure::DevMode { error } => "failed to persist dev mode: "@ + error@,
        StateFailure::BundledSkill { error } => "failed to install bundled global skill: "@
            + error@,
        StateFailure::BundledSkillAtStartup { error } =>
            "failed to install bundled global skill at startup: "@ + error@,
        StateFailure::MigratedDefaults { error } => "failed to migrate panel defaults to JSON: "@
            + error@,
    }
}

/// What the user is told when something of the panel's state failed.
pub fn failure_message(failure: &StateFailure) -> (r: String)
    ensures
        r@ == failure_text(*failure),
{
    match failure {
        StateFailure::CloseThread { real_index } => {
            let number: String = decimal_text(*real_index as u64);
            join("failed to close thread ", number.as_str())
        },
        StateFailure::ArchiveThread { real_index, archived } => {
            let number: String = decimal_text(*real_index as u64);
            let state: &str = if *archived {
                " archived=true"
            } else {
                " archived=false"
            };
            join3("failed to set thread ", number.as_str(), state)
        },
        StateFailure::DeleteThread { real_index } => {
            let number: String = decimal_text(*real_index as u64);
            join("failed to delete thread ", number.as_str())
        },
        StateFailure::SelectedThread { error } => join(
            "failed to persist selected chat thread: ",
            error.as_str(),
        ),
        StateFailure::BackgroundOverride { error } => join(
            "failed to toggle background-session override: ",
            error.as_str(),
        ),
        StateFailure::RenamedThread { error } => join(
            "failed to persist renamed chat thread: ",
            error.as_str(),
        ),
        StateFailure::RuntimeDefaults { error } => join(
            "failed to synchronize runtime panel defaults: ",
            error.as_str(),
        ),
        StateFailure::DevMode { error } => join("failed to persist dev mode: ", error.as_str()),
        StateFailure::BundledSkill { error } => join(
            "failed to install bundled global skill: ",
            error.as_str(),
        ),
        StateFailure::BundledSkillAtStartup { error } => join(
            "failed to install bundled global skill at startup: ",
            error.as_str(),
        ),
        StateFailure::MigratedDefaults { error } => join(
            "failed to migrate panel defaults to JSON: ",
            error.as_str(),
        ),
    }
}

/// Whether a message tells of a failure of the panel's state.
pub open spec fn tells_failure(msg: EffectResultMsg, thread: Seq<char>, failure: StateFailure) -> bool {
    match msg {
        EffectResultMsg::StateEffectFailed { thread_id, message } => thread_id@ == thread
            && message@ == failure_text(failure),
        _ => false,
    }
}

/// The message to the model that something of the panel's state failed, for a
/// thread or, with the empty text, for the panel.
pub fn state_effect_failed(thread_id: String, failure: &StateFailure) -> (r: EffectResultMsg)
    ensures
        tells_failure(r, thread_id@, *failure),
{
    EffectResultMsg::StateEffectFailed { thread_id, message: failure_message(failure) }
}

/// What is done after an outcome.
#[derive(Debug, PartialEq)]
pub enum FollowUp {
    /// Tells the model.
    Report(EffectResultMsg),
    /// Reads the skills again and shows them.
    RefreshSkills,
    /// Brings a new skill to the agents.
    RegisterSkill { path: String, project_root: Option<String>, vendor_ids: Vec<String> },
    /// Brings an edited skill to the agents, once no more edits come.
    ResyncSkill { directory: String },
}

/// An error with a message.
pub open spec fn effect_error(r: Result<(), EffectError>, result: Result<(), String>) -> bool {
    match result {
        Ok(()) => r is Ok,
        Err(error) => r is Err && r->Err_0.message == error,
    }
}

fn with_effect_error(result: Result<(), String>) -> (r: Result<(), EffectError>)
    ensures
        effect_error(r, result),
{
    match result {
        Ok(()) => Ok(()),
        Err(error) => Err(EffectError::new(error)),
    }
}

/// Whether something tells the model that a skill was written, or why not.
pub open spec fn tells_written(follow: FollowUp, result: Result<(), String>) -> bool {
    match follow {
        FollowUp::Report(EffectResultMsg::SkillWritten(r)) => effect_error(r, result),
        _ => false,
    }
}

/// Whether what follows is what follows the writing of a skill.
pub open spec fn after_writing(
    directory: String,
    result: Result<(), String>,
    follows: Seq<FollowUp>,
) -> bool {
    &&& follows.len() == if result is Ok {
        2int
    } else {
        1
    }
    &&& tells_written(follows[0], result)
    &&& result is Ok ==> follows[1] == (FollowUp::ResyncSkill { directory })
}

/// What follows when a skill was written: the model is told, and a skill that
/// could be written is brought to the agents.
pub fn skill_written(directory: String, result: Result<(), String>) -> (r: Vec<FollowUp>)
    ensures
        after_writing(directory, result, r@),
{
    let mut out: Vec<FollowUp> = Vec::new();
    let written: bool = result.is_ok();
    out.push(FollowUp::Report(EffectResultMsg::SkillWritten(with_effect_error(result))));
    if written {
        out.push(FollowUp::ResyncSkill { directory });
    }
    out
}

/// Whether what follows is what follows the deleting of a skill.
pub open spec fn after_deleting(result: Result<(), String>, follows: Seq<FollowUp>) -> bool {
    &&& follows.len() == 2
    &&& tells_written(follows[0], result)
    &&& follows[1] == FollowUp::RefreshSkills
}

/// What follows when a skill was deleted: the model is told, and the skills are
/// shown anew.
pub fn skill_deleted(result: Result<(), String>) -> (r: Vec<FollowUp>)
    ensures
        after_deleting(result, r@),
{
    let mut out: Vec<FollowUp> = Vec::new();
    out.push(FollowUp::Report(EffectResultMsg::SkillWritten(with_effect_error(result))));
    out.push(FollowUp::RefreshSkills);
    out
}

/// The directory of the project that a new skill belongs to.
pub open spec fn skill_project(scope: SkillScope, project: Option<Seq<char>>) -> Option<Seq<char>> {
    match (scope, project) {
        (SkillScope::Project, Some(file)) => parent_of(file),
        _ => None,
    }
}

/// Whether something brings a new skill to the agents.
pub open spec fn registers(
    follow: FollowUp,
    skill: Seq<char>,
    root: Option<Seq<char>>,
    vendors: Vec<String>,
) -> bool {
    match follow {
        FollowUp::RegisterSkill { path, project_root, vendor_ids } => path@ == skill
            && optional_text(project_root) == root && vendor_ids == vendors,
        _ => false,
    }
}

/// Whether what follows is what follows the creating of a skill.
pub open spec fn after_creating(
    result: Result<String, EffectError>,
    scope: SkillScope,
    project: Option<Seq<char>>,
    vendor_ids: Vec<String>,
    follows: Seq<FollowUp>,
) -> bool {
    &&& follows.len() == if result is Ok {
        3int
    } else {
        2
    }
    &&& follows[0] == FollowUp::RefreshSkills
    &&& result is Ok ==> registers(
        follows[1],
        result->Ok_0@,
        skill_project(scope, project),
        vendor_ids,
    )
    &&& follows.last() == FollowUp::Report(EffectResultMsg::SkillCreated(result))
}

/// What follows when a skill was created: the skills are shown anew before the
/// editor opens, a skill that could be created is brought to the agents, and the
/// model is told.
pub fn skill_created(
    result: Result<String, EffectError>,
    scope: SkillScope,
    active_project_path: &Option<String>,
    vendor_ids: Vec<String>,
) -> (r: Vec<FollowUp>)
    ensures
        after_creating(result, scope, optional_text(*active_project_path), vendor_ids, r@),
{
    let mut out: Vec<FollowUp> = Vec::new();
    out.push(FollowUp::RefreshSkills);
    if let Ok(path) = &result {
        let project_root: Option<String> = match (scope, active_project_path) {
            (SkillScope::Project, Some(file)) => parent(file.as_str()),
            _ => None,
        };
        out.push(FollowUp::RegisterSkill { path: path.clone(), project_root, vendor_ids });
    }
    out.push(FollowUp::Report(EffectResultMsg::SkillCreated(result)));
    out
}

/// Whether what follows is what follows when a skill was made one for all
/// projects.
pub open spec fn after_promoting(
    result: Result<String, String>,
    vendor_ids: Vec<String>,
    follows: Seq<FollowUp>,
) -> bool {
    &&& follows.len() == if result is Ok {
        3int
    } else {
        2
    }
    &&& match follows[0] {
        FollowUp::Report(EffectResultMsg::SkillPromoted(told)) => match result {
            Ok(_) => told is Ok,
            Err(error) => told is Err && told->Err_0.message == error,
        },
        _ => false,
    }
    &&& follows[1] == FollowUp::RefreshSkills
    &&& result is Ok ==> registers(follows[2], result->Ok_0@, None, vendor_ids)
}

/// What follows when a skill of a project was made one for all projects: the
/// model is told, the skills are shown anew, and the skill is brought to the
/// agents.
pub fn skill_promoted(result: Result<String, String>, vendor_ids: Vec<String>) -> (r: Vec<FollowUp>)
    ensures
        after_promoting(result, vendor_ids, r@),
{
    let mut out: Vec<FollowUp> = Vec::new();
    match result {
        Ok(path) => {
            out.push(FollowUp::Report(EffectResultMsg::SkillPromoted(Ok(()))));
            out.push(FollowUp::RefreshSkills);
            out.push(FollowUp::RegisterSkill { path, project_root: None, vendor_ids });
        },
        Err(error) => {
            out.push(
                FollowUp::Report(EffectResultMsg::SkillPromoted(Err(EffectError::new(error)))),
            );
            out.push(FollowUp::RefreshSkills);
        },
    }
    out
}

/// Whether the model is told of a skill that was read for the editor.
pub open spec fn tells_read(
    msg: EffectResultMsg,
    path: String,
    name: String,
    content: Result<String, String>,
    detected_editors: Vec<String>,
) -> bool {
    match (msg, content) {
        (EffectResultMsg::SkillEditorLoaded(Ok(state)), Ok(content)) => state == (
        SkillEditorState { name, path, content, detected_editors }),
        (EffectResultMsg::SkillEditorLoaded(Err(told)), Err(error)) => told.message == error,
        _ => false,
    }
}

/// What the model is told when a skill was read for the editor.
pub fn skill_read(
    path: String,
    name: String,
    content: Result<String, String>,
    detected_editors: Vec<String>,
) -> (r: EffectResultMsg)
    ensures
        tells_read(r, path, name, content, detected_editors),
{
    match content {
        Ok(content) => EffectResultMsg::SkillEditorLoaded(
            Ok(SkillEditorState { name, path, content, detected_editors }),
        ),
        Err(error) => EffectResultMsg::SkillEditorLoaded(Err(EffectError::new(error))),
    }
}

/// Whether the model is told how opening another editor went.
pub open spec fn tells_launch(msg: EffectResultMsg, result: Result<(), String>) -> bool {
    match msg {
        EffectResultMsg::ExternalEditorOpened(told) => effect_error(told, result),
        _ => false,
    }
}

/// What the model is told when an editor was launched.
pub fn editor_launched(result: Result<(), String>) -> (r: EffectResultMsg)
    ensures
        tells_launch(r, result),
{
    EffectResultMsg::ExternalEditorOpened(with_effect_error(result))
}

/// Whether the model is told how opening a file with its usual program went.
pub open spec fn tells_opening(msg: EffectResultMsg, result: Result<(), String>) -> bool {
    match msg {
        EffectResultMsg::OsDefaultOpened(told) => effect_error(told, result),
        _ => false,
    }
}

/// What the model is told when a file was opened with the program that the
/// system has for it.
pub fn os_default_opened(result: Result<(), String>) -> (r: EffectResultMsg)
    ensures
        tells_opening(r, result),
{
    EffectResultMsg::OsDefaultOpened(with_effect_error(result))
}

/// What made a skill be brought to the agents.
#[derive(Debug, Clone, Copy, PartialEq, Eq, Structural)]
pub enum SkillSync {
    Create,
    Edit,
    Promote,
    AgentEnable,
    AgentDisable,
}

/// The word for it.
pub open spec fn sync_word(sync: SkillSync) -> Seq<char> {
    match sync {
        SkillSync::Create => "create"@,
        SkillSync::Edit => "edit"@,
        SkillSync::Promote => "promote"@,
        SkillSync::AgentEnable => "agent-enable"@,
        SkillSync::AgentDisable => "agent-disable"@,
    }
}

/// Whether the model is told of a skill that could not be brought to the agents.
pub open spec fn tells_sync_failure(
    msg: EffectResultMsg,
    sync: SkillSync,
    why: String,
) -> bool {
    match msg {
        EffectResultMsg::SkillReactiveSyncFailed { operation, detail } => operation@ == sync_word(
            sync,
        ) && detail == why,
        _ => false,
    }
}

/// What the model is told when a skill could not be brought to the agents.
pub fn dispatch_reactive_sync_failed(sync: SkillSync, detail: String) -> (r: EffectResultMsg)
    ensures
        tells_sync_failure(r, sync, detail),
{
    let word: &str = match sync {
        SkillSync::Create => "create",
        SkillSync::Edit => "edit",
        SkillSync::Promote => "promote",
        SkillSync::AgentEnable => "agent-enable",
        SkillSync::AgentDisable => "agent-disable",
    };
    EffectResultMsg::SkillReactiveSyncFailed { operation: word.to_owned(), detail }
}

/// The ids of the agents that are enabled.
pub open spec fn enabled_ids(agents: Seq<AgentCatalogEntry>) -> Seq<String> {
    picked(
        agents,
        |agent: AgentCatalogEntry|
            if agent.enabled {
                Some(agent.id)
            } else {
                None
            },
    )
}

/// The ids of the agents that are enabled, in the order of the catalog; none
/// without a bridge.
pub fn enabled_vendor_ids(agents: Option<&Vec<AgentCatalogEntry>>) -> (r: Vec<String>)
    ensures
        r@ == match agents {
            Some(agents) => enabled_ids(agents@),
            None => Seq::empty(),
        },
{
    let mut out: Vec<String> = Vec::new();
    match agents {
        Some(agents) => {
            let ghost id = |agent: AgentCatalogEntry|
                if agent.enabled {
                    Some(agent.id)
                } else {
                    None
                };
            let mut i: usize = 0;
            assert(agents@.take(0) =~= Seq::empty());
            while i < agents.len()
                invariant
                    i <= agents@.len(),
                    id == (|agent: AgentCatalogEntry|
                        if agent.enabled {
                            Some(agent.id)
                        } else {
                            None
                        }),
                    out@ == picked(agents@.take(i as int), id),
                decreases agents@.len() - i,
            {
                proof {
                    lemma_picked_take(agents@, i as int, id);
                }
                if agents[i].enabled {
                    out.push(agents[i].id.clone());
                }
                i += 1;
            }
            assert(agents@.take(i as int) =~= agents@);
        },
        None => {},
    }
    out
}

/// For how many milliseconds what is to follow the edit of a skill waits.
pub const SKILL_EDIT_DEBOUNCE_MILLIS: u64 = 750;

/// An edit, and from when on what follows it may be done.
#[derive(Debug, Clone, Copy, PartialEq, Eq, Structural)]
pub struct WaitingEdit {
    pub edit: u64,
    pub due: u64,
}

/// A count of edits. What is to follow an edit waits for a while, and is done
/// only where no later edit came.
#[derive(Debug, Clone, Copy, PartialEq, Eq, Structural)]
pub struct Debounce {
    pub generation: u64,
}

/// The count after one more edit.
pub open spec fn next_generation(generation: u64) -> u64 {
    if generation == u64::MAX {
        0
    } else {
        (generation + 1) as u64
    }
}

impl Debounce {
    /// Counts an edit at the time `now`, and says which one it is and when its
    /// wait of `delay` is over.
    pub fn debounce(&mut self, now: u64, delay: u64) -> (r: WaitingEdit)
        ensures
            r.edit == next_generation(old(self).generation),
            r.due == later(now, delay),
            final(self).generation == r.edit,
    {
        self.generation = if self.generation == u64::MAX {
            0
        } else {
            self.generation + 1
        };
        WaitingEdit { edit: self.generation, due: now.saturating_add(delay) }
    }

    /// Whether what follows an edit is done at the time `now`: its wait is over,
    /// and no later edit came.
    pub fn settles(&self, waiting: WaitingEdit, now: u64) -> (r: bool)
        ensures
            r == settled(self.generation, waiting, now),
    {
        now >= waiting.due && self.generation == waiting.edit
    }
}

/// Whether what follows an edit is done at a time, at a count of edits.
pub open spec fn settled(generation: u64, waiting: WaitingEdit, now: u64) -> bool {
    now >= waiting.due && generation == waiting.edit
}

/// The count after a number of edits.
pub open spec fn after_edits(generation: u64, edits: nat) -> u64
    decreases edits,
{
    if edits == 0 {
        generation
    } else {
        next_generation(after_edits(generation, (edits - 1) as nat))
    }
}

proof fn lemma_after_edits(generation: u64, edits: nat)
    ensures
        after_edits(generation, edits) == (generation + edits) % 0x1_0000_0000_0000_0000,
    decreases edits,
{
    if edits > 0 {
        lemma_after_edits(generation, (edits - 1) as nat);
    }
}

/// After a burst of edits the last one settles once its wait is over, and not
/// before; no other one does.
pub proof fn law_last_edit_settles(
    generation: u64,
    edit: nat,
    edits: nat,
    made_at: u64,
    delay: u64,
    now: u64,
)
    requires
        1 <= edit <= edits < 0x1_0000_0000_0000_0000,
    ensures
        settled(
            after_edits(generation, edits),
            WaitingEdit { edit: after_edits(generation, edit), due: later(made_at, delay) },
            now,
        ) <==> edit == edits && now >= later(made_at, delay),
{
    lemma_after_edits(generation, edit);
    lemma_after_edits(generation, edits);
}

/// What is sent to a terminal of the panel.
pub open spec fn input_sent(bytes: Vec<u8>) -> Option<Vec<u8>> {
    if bytes@.len() == 0 {
        None
    } else {
        Some(bytes)
    }
}

/// What is written to a local terminal for the bytes that keys stand for: keys
/// that stand for none write nothing.
pub fn local_terminal_input(bytes: Vec<u8>) -> (r: Option<Vec<u8>>)
    ensures
        r == input_sent(bytes),
{
    if bytes.len() == 0 {
        None
    } else {
        Some(bytes)
    }
}

/// A program that takes a text for the clipboard on its standard input.
#[derive(Debug, Clone, PartialEq, Eq)]
pub struct ClipboardHelper {
    pub program: String,
    pub args: Vec<String>,
}

/// What is tried next to put a text on the clipboard.
#[derive(Debug, Clone, PartialEq, Eq)]
pub enum ClipboardStep {
    Try(ClipboardHelper),
    Written,
    Failed(String),
}

/// Whether something is tried with a program and its arguments.
pub open spec fn tries(step: ClipboardStep, program: Seq<char>, args: Seq<Seq<char>>) -> bool {
    match step {
        ClipboardStep::Try(helper) => helper.program@ == program && crate::text::texts(
            helper.args@,
        ) == args,
        _ => false,
    }
}

fn helper(program: &str, first: &str, second: &str) -> (r: ClipboardHelper)
    ensures
        r.program@ == program@,
        crate::text::texts(r.args@) == seq![first@, second@],
{
    let mut args: Vec<String> = Vec::new();
    args.push(first.to_owned());
    args.push(second.to_owned());
    assert(crate::text::texts(args@) =~= seq![first@, second@]);
    ClipboardHelper { program: program.to_owned(), args }
}

/// Whether a step is the next one to put a text on the clipboard.
pub open spec fn clipboard_next(tried: usize, last_wrote: bool, step: ClipboardStep) -> bool {
    &&& tried > 0 && last_wrote ==> step == ClipboardStep::Written
    &&& tried == 0 ==> tries(step, "wl-copy"@, Seq::empty())
    &&& tried == 1 && !last_wrote ==> tries(step, "xclip"@, seq!["-selection"@, "clipboard"@])
    &&& tried == 2 && !last_wrote ==> tries(step, "xsel"@, seq!["--clipboard"@, "--input"@])
    &&& tried > 2 && !last_wrote ==> match step {
        ClipboardStep::Failed(message) => message@
            == "no clipboard helper (wl-copy/xclip/xsel) available"@,
        _ => false,
    }
}

/// What is done to put a text on the clipboard after a number of programs were
/// tried: the programs are tried in turn until one of them has written it.
pub fn write_clipboard_text(tried: usize, last_wrote: bool) -> (r: ClipboardStep)
    ensures
        clipboard_next(tried, last_wrote, r),
{
    if tried == 0 {
        let args: Vec<String> = Vec::new();
        assert(crate::text::texts(args@) =~= Seq::empty());
        ClipboardStep::Try(ClipboardHelper { program: "wl-copy".to_owned(), args })
    } else if last_wrote {
        ClipboardStep::Written
    } else if tried == 1 {
        ClipboardStep::Try(helper("xclip", "-selection", "clipboard"))
    } else if tried == 2 {
        ClipboardStep::Try(helper("xsel", "--clipboard", "--input"))
    } else {
        ClipboardStep::Failed("no clipboard helper (wl-copy/xclip/xsel) available".to_owned())
    }
}

/// How many rows are put before those that are shown.
pub open spec fn rows_before(before_len: int, after_len: int) -> int {
    if after_len > before_len {
        after_len - before_len
    } else {
        0
    }
}

/// How many rows are put before those that are shown, after an older page was
/// loaded: as many as the transcript grew by.
pub fn dispatch_load_older_requested(before_len: usize, after_len: usize) -> (r: usize)
    ensures
        r == rows_before(before_len as int, after_len as int),
{
    if after_len > before_len {
        after_len - before_len
    } else {
        0
    }
}

/// An option that a request offers.
#[derive(Debug, Clone, PartialEq, Eq)]
pub struct PermissionOption {
    pub id: String,
    pub kind: String,
}

/// The start of the kinds of option that allow, and of those that reject.
pub open spec fn kind_prefix(approved: bool) -> Seq<char> {
    if approved {
        "allow_"@
    } else {
        "reject_"@
    }
}

/// The first option, from a position on, that allows or rejects.
pub open spec fn first_option(
    options: Seq<PermissionOption>,
    approved: bool,
    from: int,
) -> Option<Seq<char>>
    decreases options.len() - from,
{
    if from < 0 || from >= options.len() {
        None
    } else if kind_prefix(approved).is_prefix_of(options[from].kind@) {
        Some(options[from].id@)
    } else {
        first_option(options, approved, from + 1)
    }
}

/// The option by which a request is approved or rejected: the first that allows
/// or the first that rejects. Where there is none, the request is answered
/// without one.
pub fn answer_pending_request(options: &Vec<PermissionOption>, approved: bool) -> (r: Option<
    String,
>)
    ensures
        optional_text(r) == first_option(options@, approved, 0),
{
    let prefix: &str = if approved {
        "allow_"
    } else {
        "reject_"
    };
    let mut i: usize = 0;
    while i < options.len()
        invariant
            i <= options@.len(),
            prefix@ == kind_prefix(approved),
            first_option(options@, approved, 0) == first_option(options@, approved, i as int),
        decreases options@.len() - i,
    {
        if starts_with(options[i].kind.as_str(), prefix) {
            return Some(options[i].id.clone());
        }
        i += 1;
    }
    None
}

/// What the model is told of a provider that was asked whether it can be used.
pub open spec fn probe_told(real_index: usize, provider: String, will_report: bool) -> Option<
    EffectResultMsg,
> {
    if will_report {
        None
    } else {
        Some(EffectResultMsg::ProviderProbeSkipped { real_index, provider })
    }
}

/// What the model is told when a provider was asked whether it can be used and
/// no answer will come.
pub fn provider_probe_started(real_index: usize, provider: String, will_report: bool) -> (r: Option<
    EffectResultMsg,
>)
    ensures
        r == probe_told(real_index, provider, will_report),
{
    if will_report {
        None
    } else {
        Some(EffectResultMsg::ProviderProbeSkipped { real_index, provider })
    }
}

/// The background setting that a thread is switched to.
pub open spec fn switched(effective: Option<bool>) -> bool {
    effective != Some(true)
}

/// The background setting that a thread is switched to: the other one than
/// holds, and on where it is not known.
pub fn toggled_background(effective: Option<bool>) -> (r: bool)
    ensures
        r == switched(effective),
{
    match effective {
        Some(on) => !on,
        None => true,
    }
}

} // verus!
