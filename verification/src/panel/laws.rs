//! When the panel is painted and what links open, said of the panel.

use crate::model::{McpServerEntry, McpToolCatalog, Model, ThreadModel, ThreadState};
use crate::panel::{
    agent_entered, bytes_of, link_opened, painted, polled, prompt_of, server_busy, size_of_panel,
    thread_busy, website_clicked, LinkOpening, WebsiteClick,
};
use crate::text::{blank, trimmed};
use vstd::prelude::*;

verus! {

/// A thread is at work while it loads, is being cancelled, or is being connected;
/// a thread at rest or in error is not.
pub proof fn law_threads_at_work(thread: ThreadModel)
    ensures
        thread.state == ThreadState::Loading ==> thread_busy(thread),
        thread.state == ThreadState::Cancelling ==> thread_busy(thread),
        thread.connection_status@ == "Connecting..."@ ==> thread_busy(thread),
        (thread.state == ThreadState::Idle || thread.state == ThreadState::Error)
            && thread.connection_status@ != "Connecting..."@ ==> !thread_busy(thread),
{
}

/// Whether an operation on a server is under way.
pub open spec fn under_way(operations: Seq<String>, word: Seq<char>) -> bool {
    exists|k: int| 0 <= k < operations.len() && (#[trigger] operations[k])@ == word
}

/// A server is at work while it is removed, switched, signed in to or out of, or
/// its tools are fetched; a server about which nothing is under way is not.
pub proof fn law_servers_at_work(operations: Seq<String>, entry: McpServerEntry)
    ensures
        under_way(operations, "delete"@ + ":"@ + entry.name@) ==> server_busy(operations, entry),
        under_way(operations, "enabled"@ + ":"@ + entry.name@) ==> server_busy(operations, entry),
        under_way(operations, "authenticate"@ + ":"@ + entry.name@) ==> server_busy(
            operations,
            entry,
        ),
        under_way(operations, "logout"@ + ":"@ + entry.name@) ==> server_busy(operations, entry),
        entry.tool_catalog == Some(McpToolCatalog::Fetching) ==> server_busy(operations, entry),
        entry.tool_catalog is None && under_way(
            operations,
            "tools_fetch"@ + ":"@ + entry.name@,
        ) ==> server_busy(operations, entry),
        operations.len() == 0 && entry.tool_catalog != Some(McpToolCatalog::Fetching)
            ==> !server_busy(operations, entry),
{
}

/// A panel is painted where something changed or runs, and drawn anew where
/// something runs; a panel at rest is left alone, and so is none.
pub proof fn law_panel_is_painted_when_needed(
    model: Model,
    changed: bool,
    animating: bool,
    status: Seq<char>,
)
    ensures
        ({
            let r = polled(Some(model), changed, animating, status);
            let connecting = status == "Connecting..."@;
            &&& changed ==> r.needs_paint
            &&& animating ==> r.needs_paint && r.redraw
            &&& connecting ==> r.needs_paint && r.redraw
            &&& r.redraw ==> r.needs_paint
            &&& !changed && !animating && !connecting && (forall|k: int|
                0 <= k < model.threads@.len() ==> !thread_busy(#[trigger] model.threads@[k])) && (
            forall|k: int|
                0 <= k < model.available_mcp_servers@.len() ==> !server_busy(
                    model.mcp_operations_in_flight@,
                    #[trigger] model.available_mcp_servers@[k],
                )) ==> !r.needs_paint && !r.redraw
            &&& !animating && !connecting && (forall|k: int|
                0 <= k < model.threads@.len() ==> !thread_busy(#[trigger] model.threads@[k])) && (
            forall|k: int|
                0 <= k < model.available_mcp_servers@.len() ==> !server_busy(
                    model.mcp_operations_in_flight@,
                    #[trigger] model.available_mcp_servers@[k],
                )) ==> !r.redraw
        }),
        !polled(None, changed, animating, status).needs_paint,
        !polled(None, changed, animating, status).redraw,
{
}

/// While something is done to a server, every poll paints and draws anew.
pub proof fn law_busy_server_is_painted(
    model: Model,
    changed: bool,
    animating: bool,
    status: Seq<char>,
    k: int,
)
    requires
        0 <= k < model.available_mcp_servers@.len(),
        server_busy(model.mcp_operations_in_flight@, model.available_mcp_servers@[k]),
    ensures
        polled(Some(model), changed, animating, status).needs_paint,
        polled(Some(model), changed, animating, status).redraw,
{
}

/// A panel is painted from 16 pixels on, in width and in height.
pub proof fn law_small_panels_are_not_painted(width: u32, height: u32)
    ensures
        painted(Some((width, height))) <==> width >= 16 && height >= 16,
        !painted(None),
{
}

/// A link opens its target, without the white space around it, with the program
/// that was chosen, and else with that of the desktop; a blank one opens nothing.
pub proof fn law_link_opens_its_target(
    target: Seq<char>,
    configured: Option<Seq<char>>,
    opening: Option<LinkOpening>,
)
    requires
        link_opened(target, configured, opening),
    ensures
        blank(target) <==> opening is None,
        opening matches Some(o) ==> o.target@ == trimmed(target),
        opening matches Some(o) ==> (configured matches Some(program) ==> o.program@ == program),
        opening matches Some(o) ==> configured is None ==> o.program@ == "xdg-open"@,
{
    crate::text::lemma_blank_is_trimmed_empty(target);
}

/// Only an address of the web is opened: it starts with `https://` or `http://`;
/// anything else is refused by what it is.
pub proof fn law_only_web_addresses_are_opened(
    website: Seq<char>,
    configured: Option<Seq<char>>,
    click: WebsiteClick,
)
    requires
        website_clicked(website, configured, click),
    ensures
        click is Open ==> "https://"@.is_prefix_of(trimmed(website)) || "http://"@.is_prefix_of(
            trimmed(website),
        ),
        !("https://"@.is_prefix_of(trimmed(website)) || "http://"@.is_prefix_of(trimmed(website)))
            && !blank(website) ==> (click matches WebsiteClick::Refuse(address) && address@
            == trimmed(website)),
        blank(website) ==> !(click is Open) && !(click is Refuse),
        click matches WebsiteClick::Open(opening) ==> (configured matches Some(program)
            ==> opening.program@ == program),
{
    crate::text::lemma_blank_is_trimmed_empty(website);
    crate::text::lemma_blank_is_trimmed_empty(trimmed(website));
    if trimmed(website).len() == 0 {
        reveal_strlit("https://");
        reveal_strlit("http://");
        assert("https://"@.len() == 8 && "http://"@.len() == 7);
    }
}

/// A prompt is what was written, without the white space around it; what is blank
/// sends none.
pub proof fn law_blank_prompt_is_not_sent(text: Seq<char>)
    ensures
        blank(text) <==> prompt_of(text) is None,
        prompt_of(text) matches Some(prompt) ==> prompt == trimmed(text),
{
    crate::text::lemma_blank_is_trimmed_empty(text);
}

/// A picture has four bytes for every pixel; without a panel there is none.
pub proof fn law_pixels_have_four_bytes(pixels: usize, width: u32, height: u32)
    ensures
        bytes_of(Some(pixels)) == 4 * pixels,
        bytes_of(None) == 0,
        size_of_panel(Some((width, height))).0 == width,
        size_of_panel(Some((width, height))).1 == height,
        size_of_panel(None).0 == 0 && size_of_panel(None).1 == 0,
{
}

/// A form names the agent that was entered in it, and none where it is empty.
pub proof fn law_entered_agent_is_meant(agent: String)
    ensures
        agent@.len() > 0 ==> agent_entered(agent) == Some(agent),
        agent@.len() == 0 ==> agent_entered(agent) is None,
{
}

/// An address of the web is opened, as it stands without what is white around it,
/// by the program that is set, or else by that of the desktop.
pub proof fn law_web_addresses_are_opened(
    website: Seq<char>,
    configured: Option<Seq<char>>,
    click: WebsiteClick,
)
    requires
        website_clicked(website, configured, click),
        "https://"@.is_prefix_of(trimmed(website)) || "http://"@.is_prefix_of(trimmed(website)),
    ensures
        click matches WebsiteClick::Open(opening) && opening.target@ == trimmed(trimmed(website)) && (
        configured matches Some(program) ==> opening.program@ == program) && (configured is None
            ==> opening.program@ == "xdg-open"@),
{
    reveal_strlit("https://");
    reveal_strlit("http://");
    assert("https://"@.len() == 8 && "http://"@.len() == 7);
    assert("https://"@[0] == 'h' && "http://"@[0] == 'h');
    let s = trimmed(website);
    assert(s[0] == 'h') by {
        if "https://"@.is_prefix_of(s) {
            assert(s.subrange(0, 8)[0] == s[0]);
        } else {
            assert(s.subrange(0, 7)[0] == s[0]);
        }
    }
    crate::text::lemma_blank_is_trimmed_empty(s);
}

} // verus!
