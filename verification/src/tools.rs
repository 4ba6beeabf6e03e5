//! The tools page: every user can switch the tools that the assistant may call
//! off and on again for their own account.
//!
//! This is a personal layer above the roles. The list shows the entries that the
//! roles give, which the page is handed, and a switch can only take away.
use crate::html::{escaped, Html};
use crate::text::{opt_text, same};
use crate::tool_toggles::{
    entry_with, find_entry, grouped, has_key, render_toggle_row, render_toggle_sections, toggle_row,
    toggle_sections, CtxView, ToggleCtx, ToolEntry,
};
use crate::updates::{only_toast, pair, patch, toast, views, FlashKind, Update};
use vstd::hash_set::StringHashSet;
use crate::markup::{group_shows, shows};
use vstd::prelude::*;

verus! {

/// Where the switches of the tools page post to, and how its rows are named.
pub open spec fn page_list() -> CtxView {
    CtxView { post_path: "/tools/toggle"@, row_id_prefix: "tool-row"@ }
}

/// Where the switches of the tools page post to.
pub fn page_ctx() -> (r: ToggleCtx)
    ensures
        r@ == page_list(),
{
    ToggleCtx { post_path: "/tools/toggle".to_owned(), row_id_prefix: "tool-row".to_owned() }
}

// ---------------------------------------------------------------------------
// Sharing the location

/// Whether a user shares a position, and how exact it is if that is known.
pub enum SharedLocation {
    NotShared,
    Shared,
    /// The accuracy in metres, as text.
    Within(String),
}

/// The words for a shared location.
pub open spec fn location_words(l: SharedLocation) -> Seq<char> {
    match l {
        SharedLocation::NotShared => "Not shared."@,
        SharedLocation::Shared => "Shared."@,
        SharedLocation::Within(metres) => "Shared — accuracy ±"@ + metres@ + " m."@,
    }
}

/// The label of the location card. The card is shown only to users whose roles
/// give the location tool: without it a shared position would feed nothing.
pub fn geo_label(entries: &Vec<ToolEntry>, stored: &SharedLocation) -> (r: Option<String>)
    ensures
        match r {
            Some(s) => has_key(entries@, "get_user_location"@) && s@ == location_words(*stored),
            None => !has_key(entries@, "get_user_location"@),
        },
{
    let mut found = false;
    for i in 0..entries.len()
        invariant
            found == has_key(entries@.take(i as int), "get_user_location"@),
    {
        let here = same(&entries[i].key, "get_user_location");
        proof {
            let was = entries@.take(i as int);
            let now = entries@.take(i + 1);
            if found {
                let j = choose|j: int|
                    0 <= j < was.len() && (#[trigger] was[j]).key@ == "get_user_location"@;
                assert(now[j].key@ == "get_user_location"@);
            }
            if here {
                assert(now[i as int].key@ == "get_user_location"@);
            }
            if has_key(now, "get_user_location"@) && !here {
                let j = choose|j: int|
                    0 <= j < now.len() && (#[trigger] now[j]).key@ == "get_user_location"@;
                assert(was[j].key@ == "get_user_location"@);
            }
        }
        found = found || here;
    }
    assert(entries@.take(entries@.len() as int) =~= entries@);
    if found {
        Some(
            match stored {
                SharedLocation::NotShared => "Not shared.".to_owned(),
                SharedLocation::Shared => "Shared.".to_owned(),
                SharedLocation::Within(metres) => {
                    let mut s = "Shared — accuracy ±".to_owned();
                    s.append(metres);
                    s.append(" m.");
                    s
                },
            },
        )
    } else {
        None
    }
}

/// The card for sharing the location.
pub open spec fn location_card(status: Seq<char>) -> Seq<char> {
    r#"<section class="card border border-base-300 mb-6"><div class="card-body">"#@
        + r#"<h2 class="card-title text-base">Location</h2><p class="text-base-content/60 text-sm m-0">"#@
        + "Share your device&#39;s precise location so the assistant can answer questions like"@
        + " &quot;what&#39;s the weather here?&quot;. It&#39;s used only for your tool calls and you"@
        + " can stop sharing anytime. Without it, the assistant falls back to an approximate location"@
        + r#" derived from your IP address.</p><div class="flex items-center gap-3 mt-3 flex-wrap">"#@
        + r#"<button type="button" class="btn btn-sm btn-primary" data-on:click="window.geo.share(el)">"#@
        + "Share precise location</button>"@
        + r#"<button type="button" class="btn btn-sm btn-ghost" data-on:click="window.geo.forget(el)">"#@
        + r#"Stop sharing</button><span class="text-xs text-base-content/60" data-geo-status="">"#@
        + escaped(status)
        + "</span></div></div></section>"@
}

/// Renders the card for sharing the location.
pub fn render_location_card(status: &str) -> (r: Html)
    ensures
        r@ == location_card(status@),
{
    Html::new(r#"<section class="card border border-base-300 mb-6"><div class="card-body">"#)
        .raw(r#"<h2 class="card-title text-base">Location</h2><p class="text-base-content/60 text-sm m-0">"#)
        .raw("Share your device&#39;s precise location so the assistant can answer questions like")
        .raw(" &quot;what&#39;s the weather here?&quot;. It&#39;s used only for your tool calls and you")
        .raw(" can stop sharing anytime. Without it, the assistant falls back to an approximate location")
        .raw(r#" derived from your IP address.</p><div class="flex items-center gap-3 mt-3 flex-wrap">"#)
        .raw(r#"<button type="button" class="btn btn-sm btn-primary" data-on:click="window.geo.share(el)">"#)
        .raw("Share precise location</button>")
        .raw(r#"<button type="button" class="btn btn-sm btn-ghost" data-on:click="window.geo.forget(el)">"#)
        .raw(r#"Stop sharing</button><span class="text-xs text-base-content/60" data-geo-status="">"#)
        .text(&status)
        .raw("</span></div></div></section>")
}

// ---------------------------------------------------------------------------
// The page

/// The tools page.
pub open spec fn tools_page(
    entries: Seq<ToolEntry>,
    disabled: Set<Seq<char>>,
    geo_label: Option<Seq<char>>,
) -> Seq<char> {
    r#"<div class="max-w-5xl mx-auto w-full px-4 sm:px-6 pt-14 sm:pt-6 pb-6">"#@
        + r#"<h1 class="text-2xl font-bold mb-2">Tools</h1><p class="text-base-content/60 text-sm mb-6">"#@
        + "Turn the tools the assistant may use on or off. Changes apply to your account only and take"@
        + " effect on your next message.</p>"@
        + (match geo_label { Some(label) => location_card(label), None => Seq::empty() })
        + (if entries.len() == 0 {
            r#"<div class="card border border-base-300"><div class="card-body">"#@
                + r#"<p class="text-base-content/60 text-sm m-0">Your roles don&#39;t grant any tools.</p></div>"#@
                + "</div>"@
        } else {
            Seq::<char>::empty()
        })
        + toggle_sections(grouped(entries), disabled, page_list())
        + "</div>"@
}

/// Renders the tools page.
pub fn render_tools_body(
    entries: &Vec<ToolEntry>,
    disabled: &StringHashSet,
    geo_label: &Option<String>,
) -> (r: Html)
    ensures
        r@ == tools_page(entries@, disabled@, opt_text(*geo_label)),
{
    let ctx = page_ctx();
    let location = match geo_label {
        Some(label) => render_location_card(label),
        None => Html::empty(),
    };
    Html::new(r#"<div class="max-w-5xl mx-auto w-full px-4 sm:px-6 pt-14 sm:pt-6 pb-6">"#)
        .raw(r#"<h1 class="text-2xl font-bold mb-2">Tools</h1><p class="text-base-content/60 text-sm mb-6">"#)
        .raw("Turn the tools the assistant may use on or off. Changes apply to your account only and take")
        .raw(" effect on your next message.</p>")
        .html(location)
        .html(if entries.len() == 0 {
            Html::new(r#"<div class="card border border-base-300"><div class="card-body">"#)
                .raw(r#"<p class="text-base-content/60 text-sm m-0">Your roles don&#39;t grant any tools.</p></div>"#)
                .raw("</div>")
        } else {
            Html::empty()
        })
        .html(render_toggle_sections(entries, disabled, &ctx))
        .raw("</div>")
}

/// Renders one row of the tools page.
pub fn render_tool_row(entry: &ToolEntry, enabled: bool) -> (r: Html)
    ensures
        r@ == toggle_row(*entry, enabled, page_list()),
{
    let ctx = page_ctx();
    render_toggle_row(entry, enabled, &ctx)
}

// ---------------------------------------------------------------------------
// Switching a tool

/// What a switch asks for.
pub enum ToggleRequest {
    /// Not a key that the user has.
    Unknown,
    /// Remember the state of this entry.
    Store { entry: ToolEntry, enabled: bool },
}

/// Reads a switch: the key must be one that the user's roles give. The switch
/// is on when the checkbox was submitted, whatever its value.
pub fn read_toggle(
    entries: &Vec<ToolEntry>,
    tool_key: &str,
    submitted: &Option<String>,
) -> (r: ToggleRequest)
    ensures
        match r {
            ToggleRequest::Unknown => entry_with(entries@, tool_key@) is None,
            ToggleRequest::Store { entry, enabled } => entry_with(entries@, tool_key@) == Some(
                entry,
            ) && enabled == (submitted is Some),
        },
{
    match find_entry(entries, tool_key) {
        Some(entry) => ToggleRequest::Store { entry, enabled: submitted.is_some() },
        None => ToggleRequest::Unknown,
    }
}

/// The message after a switch was stored.
pub open spec fn toggled_words(title: Seq<char>, enabled: bool) -> Seq<char> {
    title + " "@ + (if enabled {
        "enabled"@
    } else {
        "disabled"@
    }) + "."@
}

/// What the page is told once a switch was stored: the row in its new state,
/// and a message.
pub fn toggled(entry: &ToolEntry, enabled: bool) -> (r: Vec<Update>)
    ensures
        views(r@) == seq![
            patch("#tool-row-"@ + entry.key@, "outer"@, toggle_row(*entry, enabled, page_list())),
            toast(FlashKind::Success, toggled_words(entry.title@, enabled)),
        ],
{
    let mut selector = "#tool-row-".to_owned();
    selector.append(&entry.key);
    let mut message = entry.title.clone();
    message.append(" ");
    message.append(
        if enabled {
            "enabled"
        } else {
            "disabled"
        },
    );
    message.append(".");
    let row = render_tool_row(entry, enabled).to_string();
    pair(
        Update::patch(&selector, "outer", &row),
        Update::toast(FlashKind::Success, &message),
    )
}

/// A switched row is put where it was: the change names the row, which carries
/// that name.
pub proof fn switched_row_is_found(entry: ToolEntry, enabled: bool)
    ensures
        "#tool-row-"@ + entry.key@ == "#"@ + page_list().row_name(entry.key@),
        (r#"<div id=""#@ + escaped(page_list().row_name(entry.key@)) + r#"""#@).is_prefix_of(
            toggle_row(entry, enabled, page_list()),
        ),
{
    reveal_strlit("#tool-row-");
    reveal_strlit("#");
    reveal_strlit("tool-row");
    reveal_strlit("-");
    assert("#tool-row-"@ =~= "#"@ + "tool-row"@ + "-"@);
    assert("#tool-row-"@ + entry.key@ =~= "#"@ + page_list().row_name(entry.key@));
    reveal(toggle_row);
    reveal_strlit(r#"""#);
    reveal_strlit(r#"" class="flex items-center gap-4 py-3"><div class="flex-1 min-w-0">"#);
    let head = r#"<div id=""#@ + escaped(page_list().row_name(entry.key@)) + r#"""#@;
    assert(toggle_row(entry, enabled, page_list()).take(head.len() as int) =~= head);
}

/// What the page is told when a choice could not be stored.
pub fn not_saved() -> (r: Vec<Update>)
    ensures
        views(r@) == seq![toast(FlashKind::Error, "could not save preference"@)],
{
    only_toast(FlashKind::Error, "could not save preference")
}

/// What the page is told when the key is not one that the user has.
pub fn unknown_tool() -> (r: Vec<Update>)
    ensures
        views(r@) == seq![toast(FlashKind::Error, "unknown tool"@)],
{
    only_toast(FlashKind::Error, "unknown tool")
}

// ---------------------------------------------------------------------------
// Laws

/// A tool is switched to what was sent for it, if the user has it; no other tool is.
pub proof fn only_ones_own_tools_are_switched(
    entries: &Vec<ToolEntry>,
    key: &str,
    sent: &Option<String>,
    r: ToggleRequest,
)
    requires
        call_ensures(read_toggle, (entries, key, sent), r),
    ensures
        r is Unknown <==> forall|i: int|
            0 <= i < entries@.len() ==> (#[trigger] entries@[i]).key@ != key@,
        r is Store ==> r->entry.key@ == key@ && entries@.contains(r->entry) && (r->enabled <==> *sent
            is Some),
{
    crate::tool_toggles::a_tool_is_found_by_its_key(entries@, key@);
    if r is Unknown {
        assert forall|i: int| 0 <= i < entries@.len() implies (#[trigger] entries@[i]).key@
            != key@ by {}
    }
}

/// A switched tool is shown as it is now, in the row that it had, and told by its title.
pub proof fn a_switch_shows_in_its_row(entry: &ToolEntry, enabled: bool, r: Vec<Update>)
    requires
        call_ensures(toggled, (entry, enabled), r),
    ensures
        views(r@).len() == 2,
        views(r@)[0] == patch(
            "#tool-row-"@ + entry.key@,
            "outer"@,
            toggle_row(
                *entry,
                enabled,
                (CtxView { post_path: "/tools/toggle"@, row_id_prefix: "tool-row"@ }),
            ),
        ),
        enabled ==> views(r@)[1] == toast(
            FlashKind::Success,
            entry.title@ + " "@ + "enabled"@ + "."@,
        ),
        !enabled ==> views(r@)[1] == toast(
            FlashKind::Success,
            entry.title@ + " "@ + "disabled"@ + "."@,
        ),
{
}

/// The tools page lists every tool, switched as the user left it.
pub proof fn every_tool_is_on_the_page(
    entries: Seq<ToolEntry>,
    disabled: Set<Seq<char>>,
    geo: Option<Seq<char>>,
    i: int,
)
    requires
        0 <= i < entries.len(),
    ensures
        shows(
            tools_page(entries, disabled, geo),
            toggle_row(
                entries[i],
                !disabled.contains(entries[i].key@),
                (CtxView { post_path: "/tools/toggle"@, row_id_prefix: "tool-row"@ }),
            ),
        ),
        geo matches Some(label) ==> shows(tools_page(entries, disabled, geo), escaped(label)),
{
    broadcast use group_shows;

    crate::tool_toggles::every_tool_can_be_switched(entries, disabled, page_list(), i);
}

/// The location is spoken of to those who have the tool that uses it: whether it is
/// shared, and how exact it is.
pub proof fn the_location_is_told(
    entries: &Vec<ToolEntry>,
    stored: &SharedLocation,
    r: Option<String>,
)
    requires
        call_ensures(geo_label, (entries, stored), r),
    ensures
        r is Some <==> exists|i: int|
            0 <= i < entries@.len() && (#[trigger] entries@[i]).key@ == "get_user_location"@,
        r is Some && *stored is NotShared ==> r->0@ == "Not shared."@,
        r is Some && *stored is Shared ==> r->0@ == "Shared."@,
        r is Some && *stored is Within ==> r->0@ == "Shared — accuracy ±"@ + stored->Within_0@
            + " m."@,
{
}

/// Troubles with a switch are told in their words.
pub proof fn switch_troubles_have_their_words(unsaved: Vec<Update>, unknown: Vec<Update>)
    requires
        call_ensures(not_saved, (), unsaved),
        call_ensures(unknown_tool, (), unknown),
    ensures
        views(unsaved@) == seq![toast(FlashKind::Error, "could not save preference"@)],
        views(unknown@) == seq![toast(FlashKind::Error, "unknown tool"@)],
{
}

} // verus!
