//! What the panel does when it is polled and painted, and when links and forms
//! are used.

pub mod laws;

use crate::model::{McpServerEntry, McpToolCatalog, Model, ThreadModel, ThreadState};
use crate::text::{borrowed_text, join3, optional_text, same, starts_with, trim, trimmed};
use vstd::prelude::*;

verus! {

/// Below this width or height, in pixels, the panel is not painted: the layout
/// has no room for what it holds.
pub const MIN_RENDERABLE_SIZE: u32 = 16;

/// The bytes of a pixel.
pub const PIXEL_BYTES: usize = 4;

/// Whether a thread shows that it is at work.
pub open spec fn thread_busy(thread: ThreadModel) -> bool {
    thread.state == ThreadState::Loading || thread.state == ThreadState::Cancelling
        || thread.connection_status@ == "Connecting..."@
}

/// Whether something is being done to a server of tools.
pub open spec fn in_flight(operations: Seq<String>, action: Seq<char>, name: Seq<char>) -> bool {
    exists|k: int| 0 <= k < operations.len() && (#[trigger] operations[k])@ == action + ":"@ + name
}

/// Whether a server of tools shows that something is being done to it.
pub open spec fn server_busy(operations: Seq<String>, entry: McpServerEntry) -> bool {
    ||| in_flight(operations, "delete"@, entry.name@)
    ||| in_flight(operations, "enabled"@, entry.name@)
    ||| in_flight(operations, "authenticate"@, entry.name@)
    ||| in_flight(operations, "logout"@, entry.name@)
    ||| entry.tool_catalog == Some(McpToolCatalog::Fetching)
    ||| (entry.tool_catalog is None && in_flight(operations, "tools_fetch"@, entry.name@))
}

/// Whether anything in the model shows that it is at work.
pub open spec fn model_busy(model: Model) -> bool {
    ||| exists|k: int| 0 <= k < model.threads@.len() && thread_busy(#[trigger] model.threads@[k])
    ||| exists|k: int|
        0 <= k < model.available_mcp_servers@.len() && server_busy(
            model.mcp_operations_in_flight@,
            #[trigger] model.available_mcp_servers@[k],
        )
}

fn is_in_flight(operations: &Vec<String>, action: &str, name: &str) -> (r: bool)
    ensures
        r == in_flight(operations@, action@, name@),
{
    let key: String = join3(action, ":", name);
    let mut i: usize = 0;
    while i < operations.len()
        invariant
            i <= operations@.len(),
            key@ == action@ + ":"@ + name@,
            forall|k: int| 0 <= k < i ==> (#[trigger] operations@[k])@ != key@,
        decreases operations@.len() - i,
    {
        if same(operations[i].as_str(), key.as_str()) {
            return true;
        }
        i += 1;
    }
    false
}

fn is_server_busy(operations: &Vec<String>, entry: &McpServerEntry) -> (r: bool)
    ensures
        r == server_busy(operations@, *entry),
{
    let name: &str = entry.name.as_str();
    if is_in_flight(operations, "delete", name) || is_in_flight(operations, "enabled", name)
        || is_in_flight(operations, "authenticate", name) || is_in_flight(
        operations,
        "logout",
        name,
    ) {
        return true;
    }
    match entry.tool_catalog {
        Some(catalog) => catalog == McpToolCatalog::Fetching,
        None => is_in_flight(operations, "tools_fetch", name),
    }
}

fn is_busy(model: &Model) -> (r: bool)
    ensures
        r == model_busy(*model),
{
    let mut i: usize = 0;
    while i < model.threads.len()
        invariant
            i <= model.threads@.len(),
            forall|k: int| 0 <= k < i ==> !thread_busy(#[trigger] model.threads@[k]),
        decreases model.threads@.len() - i,
    {
        let thread: &ThreadModel = &model.threads[i];
        if thread.state == ThreadState::Loading || thread.state == ThreadState::Cancelling || same(
            thread.connection_status.as_str(),
            "Connecting...",
        ) {
            assert(thread_busy(model.threads@[i as int]));
            return true;
        }
        i += 1;
    }
    let mut j: usize = 0;
    while j < model.available_mcp_servers.len()
        invariant
            j <= model.available_mcp_servers@.len(),
            forall|k: int|
                0 <= k < model.threads@.len() ==> !thread_busy(#[trigger] model.threads@[k]),
            forall|k: int|
                0 <= k < j ==> !server_busy(
                    model.mcp_operations_in_flight@,
                    #[trigger] model.available_mcp_servers@[k],
                ),
        decreases model.available_mcp_servers@.len() - j,
    {
        if is_server_busy(&model.mcp_operations_in_flight, &model.available_mcp_servers[j]) {
            return true;
        }
        j += 1;
    }
    false
}

/// What follows a poll: whether the host paints, and whether Slint is told to
/// draw anew.
#[derive(Debug, Clone, Copy, PartialEq, Eq, Structural)]
pub struct PollOutcome {
    pub needs_paint: bool,
    pub redraw: bool,
}

/// What follows a poll of a panel with a model, if there is one.
pub open spec fn polled(
    panel: Option<Model>,
    frame_changed: bool,
    animating: bool,
    connection_status: Seq<char>,
) -> PollOutcome {
    match panel {
        Some(model) => {
            let busy = model_busy(model) || connection_status == "Connecting..."@;
            PollOutcome {
                needs_paint: frame_changed || animating || busy,
                redraw: animating || busy,
            }
        },
        None => PollOutcome { needs_paint: false, redraw: false },
    }
}

/// What follows a poll, where `panel` is the model of the panel, if there is
/// one, `frame_changed` whether anything that is shown changed, `animating`
/// whether Slint has animations that run, and `connection_status` what the view
/// says of its connection. What shows that it is at work is drawn anew all the
/// time; without that it would stand still.
pub fn panel_rust_poll(
    panel: Option<&Model>,
    frame_changed: bool,
    animating: bool,
    connection_status: &str,
) -> (r: PollOutcome)
    ensures
        r == polled(
            match panel {
                Some(model) => Some(*model),
                None => None,
            },
            frame_changed,
            animating,
            connection_status@,
        ),
{
    match panel {
        Some(model) => {
            let busy: bool = is_busy(model) || same(connection_status, "Connecting...");
            PollOutcome {
                needs_paint: frame_changed || animating || busy,
                redraw: animating || busy,
            }
        },
        None => PollOutcome { needs_paint: false, redraw: false },
    }
}

/// While a thread is at work, every poll paints and draws anew.
pub proof fn law_busy_panel_is_painted(
    model: Model,
    frame_changed: bool,
    animating: bool,
    connection_status: Seq<char>,
    k: int,
)
    requires
        0 <= k < model.threads@.len(),
        thread_busy(model.threads@[k]),
    ensures
        polled(Some(model), frame_changed, animating, connection_status) == (PollOutcome {
            needs_paint: true,
            redraw: true,
        }),
{
}

/// Whether a panel of some size is painted.
pub open spec fn painted(panel: Option<(u32, u32)>) -> bool {
    match panel {
        Some((width, height)) => width >= MIN_RENDERABLE_SIZE && height >= MIN_RENDERABLE_SIZE,
        None => false,
    }
}

/// Whether a panel of some size is painted.
pub fn panel_rust_render_impl(panel: Option<(u32, u32)>) -> (r: bool)
    ensures
        r == painted(panel),
{
    match panel {
        Some((width, height)) => width >= MIN_RENDERABLE_SIZE && height >= MIN_RENDERABLE_SIZE,
        None => false,
    }
}

/// How many bytes a picture has.
pub open spec fn bytes_of(pixels: Option<usize>) -> int {
    match pixels {
        Some(pixels) => pixels * PIXEL_BYTES,
        None => 0,
    }
}

/// The width and the height of a panel.
pub open spec fn size_of_panel(panel: Option<(u32, u32)>) -> (u32, u32) {
    match panel {
        Some(size) => size,
        None => (0, 0),
    }
}

/// The bytes of the buffer of a panel, where there is one.
pub fn panel_rust_buffer_len(pixels: Option<usize>) -> (r: usize)
    requires
        pixels is Some ==> pixels->0 * PIXEL_BYTES <= usize::MAX,
    ensures
        r == bytes_of(pixels),
{
    match pixels {
        Some(pixels) => pixels * PIXEL_BYTES,
        None => 0,
    }
}

/// The width of a panel, and 0 where there is none.
pub fn panel_rust_width(panel: Option<(u32, u32)>) -> (r: u32)
    ensures
        r == size_of_panel(panel).0,
{
    match panel {
        Some((width, _)) => width,
        None => 0,
    }
}

/// The height of a panel, and 0 where there is none.
pub fn panel_rust_height(panel: Option<(u32, u32)>) -> (r: u32)
    ensures
        r == size_of_panel(panel).1,
{
    match panel {
        Some((_, height)) => height,
        None => 0,
    }
}

/// A program and what it is to open.
#[derive(Debug, Clone, PartialEq, Eq)]
pub struct LinkOpening {
    pub program: String,
    pub target: String,
}

/// Whether an opening is that of the target of a link.
pub open spec fn link_opened(
    target: Seq<char>,
    configured: Option<Seq<char>>,
    opening: Option<LinkOpening>,
) -> bool {
    &&& opening is Some <==> trimmed(target).len() > 0
    &&& opening is Some ==> {
        &&& opening->0.target@ == trimmed(target)
        &&& opening->0.program@ == match configured {
            Some(program) => program,
            None => "xdg-open"@,
        }
    }
}

/// What is launched to open the target of a link: the program that was
/// configured, else that of the desktop; nothing for a blank target.
pub fn open_md_link_target(target: &str, configured: Option<&str>) -> (r: Option<LinkOpening>)
    ensures
        link_opened(target@, borrowed_text(configured), r),
{
    let target: &str = trim(target);
    if target.unicode_len() == 0 {
        return None;
    }
    let program: String = match configured {
        Some(program) => program.to_owned(),
        None => "xdg-open".to_owned(),
    };
    Some(LinkOpening { program, target: target.to_owned() })
}

/// Whether a text is the address of a page of the web.
pub open spec fn web_address(s: Seq<char>) -> bool {
    "https://"@.is_prefix_of(s) || "http://"@.is_prefix_of(s)
}

/// What becomes of a click on the website of an agent.
#[derive(Debug, Clone, PartialEq, Eq)]
pub enum WebsiteClick {
    Open(LinkOpening),
    Refuse(String),
    Nothing,
}

/// Whether `click` is what becomes of a click on the website of an agent.
pub open spec fn website_clicked(
    website: Seq<char>,
    configured: Option<Seq<char>>,
    click: WebsiteClick,
) -> bool {
    match click {
        WebsiteClick::Open(opening) => web_address(trimmed(website)) && opening.program@ == (
        match configured {
            Some(program) => program,
            None => "xdg-open"@,
        }) && opening.target@ == trimmed(trimmed(website)) && trimmed(trimmed(website)).len() > 0,
        WebsiteClick::Refuse(address) => !web_address(trimmed(website)) && trimmed(website).len()
            > 0 && address@ == trimmed(website),
        WebsiteClick::Nothing => trimmed(website).len() == 0 || (web_address(trimmed(website))
            && trimmed(trimmed(website)).len() == 0),
    }
}

/// What becomes of a click on the website of an agent: only addresses of the
/// web are opened.
pub fn dispatch_agent_website_clicked(website: &str, configured: Option<&str>) -> (r: WebsiteClick)
    ensures
        website_clicked(website@, borrowed_text(configured), r),
{
    let address: &str = trim(website);
    if starts_with(address, "https://") || starts_with(address, "http://") {
        match open_md_link_target(address, configured) {
            Some(opening) => WebsiteClick::Open(opening),
            None => WebsiteClick::Nothing,
        }
    } else if address.unicode_len() > 0 {
        WebsiteClick::Refuse(address.to_owned())
    } else {
        WebsiteClick::Nothing
    }
}

/// The prompt that a text in the box for prompts sends.
pub open spec fn prompt_of(text: Seq<char>) -> Option<Seq<char>> {
    if trimmed(text).len() > 0 {
        Some(trimmed(text))
    } else {
        None
    }
}

/// The prompt that a text in the box for prompts sends: without the white space
/// around it, and none where nothing is left.
pub fn prompt_to_send(text: &str) -> (r: Option<String>)
    ensures
        optional_text(r) == prompt_of(text@),
{
    let text: &str = trim(text);
    if text.unicode_len() == 0 {
        None
    } else {
        Some(text.to_owned())
    }
}

/// The agent that a form names.
pub open spec fn agent_entered(agent_id: String) -> Option<String> {
    if agent_id@.len() == 0 {
        None
    } else {
        Some(agent_id)
    }
}

/// The agent that a form for a profile names, where it names one.
pub fn form_agent(agent_id: String) -> (r: Option<String>)
    ensures
        r == agent_entered(agent_id),
{
    if agent_id.as_str().unicode_len() == 0 {
        None
    } else {
        Some(agent_id)
    }
}

} // verus!
