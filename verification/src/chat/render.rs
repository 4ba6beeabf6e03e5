//! The page of one conversation.
//!
//! The transcript and the message field come ready made; this is what stands
//! around them: the header with its pickers, the warnings of flagged models,
//! the menu of capabilities, and the document panel.
use crate::admin::{choice, choices, render_choice, render_choices};
use crate::chat::effort::Effort;
use crate::chat::Session;
use crate::compliance::{
    any_gdpr, any_nda, gdpr_flagged, nda_flagged, signals, signals_text, ChatModelOption,
};
use crate::html::{escaped, find_icon, Html, Ui};
use crate::json::{json_text, write_text};
use crate::text::{chars, occurs_at, same, starts_with, substring};
use crate::markup::{ends_in, group_shows, shows, starts_as};
use vstd::prelude::*;
use vstd::utf8::is_ascii_chars;

verus! {

// ---------------------------------------------------------------------------
// Models

/// The label of a model in the picker: its name, and each restriction.
pub open spec fn label_text(m: ChatModelOption) -> Seq<char> {
    if m.gdpr && m.nda {
        m.id@
    } else if m.nda {
        m.id@ + " (non-GDPR)"@
    } else if m.gdpr {
        m.id@ + " (confidential-restricted)"@
    } else {
        m.id@ + " (non-GDPR, confidential-restricted)"@
    }
}

/// The label of a model in the picker.
pub fn model_label(m: &ChatModelOption) -> (r: String)
    ensures
        r@ == label_text(*m),
{
    let mut out = m.id.clone();
    if m.gdpr && m.nda {
    } else if m.nda {
        out.append(" (non-GDPR)");
    } else if m.gdpr {
        out.append(" (confidential-restricted)");
    } else {
        out.append(" (non-GDPR, confidential-restricted)");
    }
    out
}

/// The options of the model picker. The value is the bare name, so that the
/// form posts the model itself.
pub open spec fn model_options(models: Seq<ChatModelOption>) -> Seq<char>
    decreases models.len(),
{
    if models.len() == 0 {
        Seq::empty()
    } else {
        model_options(models.drop_last()) + choice(
            models.last().id@,
            label_text(models.last()),
            false,
        )
    }
}

fn render_model_options(models: &Vec<ChatModelOption>) -> (r: Html)
    ensures
        r@ == model_options(models@),
{
    let mut out = Html::empty();
    assert(models@.take(0) =~= Seq::<ChatModelOption>::empty());
    for i in 0..models.len()
        invariant
            out@ == model_options(models@.take(i as int)),
    {
        assert(models@.take(i + 1).drop_last() =~= models@.take(i as int));
        out = out.html(render_choice(&models[i].id, &model_label(&models[i]), false));
    }
    assert(models@.take(models@.len() as int) =~= models@);
    out
}

/// The model that is picked when the page opens: the first one.
pub open spec fn first_model(models: Seq<ChatModelOption>) -> Seq<char> {
    if models.len() == 0 {
        ""@
    } else {
        models[0].id@
    }
}

/// The state that the warnings of the page read, with the first model picked.
pub fn compliance_signals(models: &Vec<ChatModelOption>) -> (r: String)
    ensures
        r@ == signals_text(models@, first_model(models@)),
{
    if models.len() == 0 {
        signals(models, "")
    } else {
        signals(models, &models[0].id)
    }
}

/// The warnings of flagged models. Each is there only if some model asks for
/// it, and shows while such a model is picked.
pub open spec fn compliance_banners(ui: &Ui, models: Seq<ChatModelOption>) -> Seq<char> {
    r#"<div data-signals=""#@
        + escaped(signals_text(models, first_model(models)))
        + r#"" data-init="$selectedModel = document.getElementById(&#39;model&#39;)?.value ??"#@
        + r#" $selectedModel" style="display:none"></div>"#@
        + (if gdpr_flagged(models).len() > 0 {
            r#"<div class="alert alert-error mb-2" role="alert""#@
                + r#" data-show="$gdprFlagged.includes($selectedModel)" style="display:none">"#@
                + ui.icon_markup("alert"@, 20)
                + "<span>"@
                + "You are sending data to a non-GDPR-compliant model. Do not enter personal information"@
                + " (names, emails, addresses, customer or employee data).</span></div>"@
        } else {
            Seq::<char>::empty()
        })
        + (if nda_flagged(models).len() > 0 {
            r#"<div class="alert alert-error mb-2" role="alert""#@
                + r#" data-show="$ndaFlagged.includes($selectedModel)" style="display:none">"#@
                + ui.icon_markup("alert"@, 20)
                + "<span>"@
                + "This model is not covered by a confidentiality agreement. Do not send NDA-protected or"@
                + " proprietary material.</span></div>"@
        } else {
            Seq::<char>::empty()
        })
}

fn render_compliance_banners(ui: &Ui, models: &Vec<ChatModelOption>) -> (r: Html)
    ensures
        r@ == compliance_banners(ui, models@),
{
    Html::new(r#"<div data-signals=""#)
        .text(&compliance_signals(models))
        .raw(r#"" data-init="$selectedModel = document.getElementById(&#39;model&#39;)?.value ??"#)
        .raw(r#" $selectedModel" style="display:none"></div>"#)
        .html(if any_gdpr(models) {
            Html::new(r#"<div class="alert alert-error mb-2" role="alert""#)
                .raw(r#" data-show="$gdprFlagged.includes($selectedModel)" style="display:none">"#)
                .icon(ui, "alert", 20)
                .raw("<span>")
                .raw("You are sending data to a non-GDPR-compliant model. Do not enter personal information")
                .raw(" (names, emails, addresses, customer or employee data).</span></div>")
        } else {
            Html::empty()
        })
        .html(if any_nda(models) {
            Html::new(r#"<div class="alert alert-error mb-2" role="alert""#)
                .raw(r#" data-show="$ndaFlagged.includes($selectedModel)" style="display:none">"#)
                .icon(ui, "alert", 20)
                .raw("<span>")
                .raw("This model is not covered by a confidentiality agreement. Do not send NDA-protected or")
                .raw(" proprietary material.</span></div>")
        } else {
            Html::empty()
        })
}

// ---------------------------------------------------------------------------
// Effort

/// The levels, the given one chosen.
pub open spec fn effort_options(effort: Effort) -> Seq<char> {
    choice("fast"@, "Fast"@, effort == Effort::Fast) + choice(
        "standard"@,
        "Standard"@,
        effort == Effort::Standard,
    ) + choice("deep"@, "Deep"@, effort == Effort::Deep) + choice(
        "max"@,
        "Max"@,
        effort == Effort::Max,
    )
}

fn effort_option(level: Effort, effort: Effort) -> (r: Html)
    ensures
        r@ == choice(level.word(), level.name(), effort == level),
{
    render_choice(level.as_str(), level.label(), effort == level)
}

fn render_effort_options(effort: Effort) -> (r: Html)
    ensures
        r@ == effort_options(effort),
{
    effort_option(Effort::Fast, effort).html(effort_option(Effort::Standard, effort)).html(
        effort_option(Effort::Deep, effort),
    ).html(effort_option(Effort::Max, effort))
}

/// The picker of the effort. It has no name, so that the form around it does
/// not post it; the level goes into the address.
pub open spec fn effort_select(ui: &Ui, session_id: Seq<char>, effort: Effort) -> Seq<char> {
    r#"<span class="text-sm" style="display:inline-flex; align-items:center; gap:0.35rem""#@
        + r#" title="Thinking effort: higher = more reasoning and more tool rounds, but slower">"#@
        + ui.icon_markup("sparkles"@, 16)
        + r#"<span class="opacity-70 hidden sm:inline">Thinking:</span>"#@
        + r#"<select aria-label="Thinking effort" data-on:change="@post(&#39;/chat/"#@
        + escaped(session_id)
        + r#"/effort?effort=&#39; + evt.target.value)" class="select select-sm" style="border:1px solid"#@
        + " color-mix(in oklch, currentColor 15%, transparent); border-radius:9999px;"@
        + r#" padding-right:2rem; min-width:6rem">"#@
        + effort_options(effort)
        + "</select></span>"@
}

/// Renders the picker of the effort.
pub fn render_effort_select(ui: &Ui, session_id: &str, effort: Effort) -> (r: Html)
    ensures
        r@ == effort_select(ui, session_id@, effort),
{
    Html::new(r#"<span class="text-sm" style="display:inline-flex; align-items:center; gap:0.35rem""#)
        .raw(r#" title="Thinking effort: higher = more reasoning and more tool rounds, but slower">"#)
        .icon(ui, "sparkles", 16)
        .raw(r#"<span class="opacity-70 hidden sm:inline">Thinking:</span>"#)
        .raw(r#"<select aria-label="Thinking effort" data-on:change="@post(&#39;/chat/"#)
        .text(session_id)
        .raw(r#"/effort?effort=&#39; + evt.target.value)" class="select select-sm" style="border:1px solid"#)
        .raw(" color-mix(in oklch, currentColor 15%, transparent); border-radius:9999px;")
        .raw(r#" padding-right:2rem; min-width:6rem">"#)
        .html(render_effort_options(effort))
        .raw("</select></span>")
}

// ---------------------------------------------------------------------------
// Capabilities

/// What a switch of the menu governs.
#[derive(Clone, Copy, PartialEq, Eq, Structural, Debug)]
pub enum CapKind {
    /// A tool or an integration.
    Tool,
    /// A skill.
    Skill,
}

impl CapKind {
    /// The word in the address of a switch.
    pub open spec fn word(&self) -> Seq<char> {
        match self {
            CapKind::Tool => "tool"@,
            CapKind::Skill => "skill"@,
        }
    }

    /// The word in the address of a switch.
    pub fn as_str(self) -> (r: &'static str)
        ensures
            r@ == self.word(),
    {
        match self {
            CapKind::Tool => "tool",
            CapKind::Skill => "skill",
        }
    }
}

/// One row of the menu.
pub struct CapabilityRow {
    /// The key of the integration, or the name of the skill.
    pub key: String,
    pub kind: CapKind,
    pub label: String,
    /// The section that the row stands in.
    pub group: String,
    /// Whether it is on in this conversation.
    pub enabled: bool,
    /// The icon of an integration: the name of a known logo, or an emoji.
    pub icon: Option<String>,
}

/// The address that flips a capability.
pub open spec fn toggle_url(base: Seq<char>, c: CapabilityRow) -> Seq<char> {
    base + "?kind="@ + c.kind.word() + "&key="@ + c.key@
}

/// The address that flips a capability.
pub fn cap_toggle_url(base: &str, c: &CapabilityRow) -> (r: String)
    ensures
        r@ == toggle_url(base@, *c),
{
    let mut out = base.to_owned();
    out.append("?kind=");
    out.append(c.kind.as_str());
    out.append("&key=");
    out.append(&c.key);
    out
}

/// The connector of an integration's key: what follows `mcp__`.
pub open spec fn connector_of(key: Seq<char>) -> Seq<char> {
    if "mcp__"@.is_prefix_of(key) {
        key.skip(5)
    } else {
        key
    }
}

fn connector_name(key: &str) -> (r: String)
    ensures
        r@ == connector_of(key@),
{
    if starts_with(key, "mcp__") {
        proof {
            reveal_strlit("mcp__");
        }
        let v = chars(key);
        let n: usize = v.len();
        let r = substring(&v, 5, n);
        assert(r@ =~= key@.skip(5));
        r
    } else {
        key.to_owned()
    }
}

/// The icon of an integration without a logo: its emoji, else a plug. The name
/// of a logo is never shown as text.
pub open spec fn hint_icon(ui: &Ui, icon: Option<String>) -> Seq<char> {
    match icon {
        Some(emoji) => if emoji@.len() > 0 && !is_ascii_chars(emoji@) {
            r#"<span style="font-size:1rem; line-height:1">"#@
                + escaped(emoji@)
                + "</span>"@
        } else {
            ui.icon_markup("plug"@, 16)
        },
        None => ui.icon_markup("plug"@, 16),
    }
}

/// The logo that the icon of an integration names.
pub open spec fn hint_logo(ui: &Ui, icon: Option<String>) -> Option<Seq<char>> {
    match icon {
        Some(i) => find_icon(ui.logos@, i@, 16),
        None => None,
    }
}

/// The icon of a row: a sparkle for a skill; for an integration the logo of its
/// connector, else the logo that its icon names, else the icon itself.
pub open spec fn cap_icon_markup(ui: &Ui, c: CapabilityRow) -> Seq<char> {
    match c.kind {
        CapKind::Skill => ui.icon_markup("sparkles"@, 16),
        CapKind::Tool => match find_icon(ui.logos@, connector_of(c.key@), 16) {
            Some(logo) => logo,
            None => match hint_logo(ui, c.icon) {
                Some(logo) => logo,
                None => hint_icon(ui, c.icon),
            },
        },
    }
}

fn render_hint_icon(ui: &Ui, icon: &Option<String>) -> (r: Html)
    ensures
        r@ == hint_icon(ui, *icon),
{
    match icon {
        Some(emoji) => if !emoji.as_str().is_empty() && !emoji.as_str().is_ascii() {
            Html::new(r#"<span style="font-size:1rem; line-height:1">"#)
                .text(emoji)
                .raw("</span>")
        } else {
            ui.icon("plug", 16)
        },
        None => ui.icon("plug", 16),
    }
}

/// Renders the icon of a row.
pub fn cap_icon(ui: &Ui, c: &CapabilityRow) -> (r: Html)
    ensures
        r@ == cap_icon_markup(ui, *c),
{
    match c.kind {
        CapKind::Skill => ui.icon("sparkles", 16),
        CapKind::Tool => {
            if let Some(logo) = ui.logo(&connector_name(&c.key), 16) {
                return logo;
            }
            if let Some(i) = &c.icon {
                if let Some(logo) = ui.logo(i, 16) {
                    return logo;
                }
            }
            render_hint_icon(ui, &c.icon)
        },
    }
}

/// What `str::to_lowercase` returns.
pub uninterp spec fn lowercase_of(s: Seq<char>) -> Seq<char>;

/// `str::to_lowercase`: every character in its Unicode lower case. The result is
/// named and not stated, as it rests on the Unicode tables.
#[verifier::external_body]
fn lowercase(s: &str) -> (r: String)
    ensures
        r@ == lowercase_of(s@),
{
    s.to_lowercase()
}

/// A row of the menu: a button that flips the capability, with a check when it
/// is on. It shows while the search text occurs in its label.
#[verifier::opaque]
pub open spec fn menu_item(ui: &Ui, base: Seq<char>, c: CapabilityRow) -> Seq<char> {
    r#"<button type="button" data-on:click="@post(&#39;"#@
        + escaped(toggle_url(base, c))
        + r#"&#39;)" data-show="$capQuery === &#39;&#39; || "#@
        + escaped(json_text(lowercase_of(c.label@)))
        + r#".includes($capQuery)" class="w-full flex items-center gap-2 px-3 py-2 rounded-lg"#@
        + r#" hover:bg-base-200 text-sm" style="text-align:left">"#@
        + r#"<span style="display:inline-flex; width:1.15rem; justify-content:center; opacity:0.85">"#@
        + cap_icon_markup(ui, c)
        + r#"</span><span class="flex-1 truncate">"#@
        + escaped(c.label@)
        + "</span>"@
        + (if c.enabled {
            r#"<span class="text-success">"#@
                + ui.icon_markup("check"@, 16)
                + "</span>"@
        } else {
            Seq::<char>::empty()
        })
        + "</button>"@
}

/// Renders a row of the menu.
pub fn cap_menu_item(ui: &Ui, base: &str, c: &CapabilityRow) -> (r: Html)
    ensures
        r@ == menu_item(ui, base@, *c),
{
    proof {
        reveal(menu_item);
    }
    let url = cap_toggle_url(base, c);
    let filter = write_text(&lowercase(&c.label));
    Html::new(r#"<button type="button" data-on:click="@post(&#39;"#)
        .text(&url)
        .raw(r#"&#39;)" data-show="$capQuery === &#39;&#39; || "#)
        .text(&filter)
        .raw(r#".includes($capQuery)" class="w-full flex items-center gap-2 px-3 py-2 rounded-lg"#)
        .raw(r#" hover:bg-base-200 text-sm" style="text-align:left">"#)
        .raw(r#"<span style="display:inline-flex; width:1.15rem; justify-content:center; opacity:0.85">"#)
        .html(cap_icon(ui, c))
        .raw(r#"</span><span class="flex-1 truncate">"#)
        .text(&c.label)
        .raw("</span>")
        .html(if c.enabled {
            Html::new(r#"<span class="text-success">"#)
                .icon(ui, "check", 16)
                .raw("</span>")
        } else {
            Html::empty()
        })
        .raw("</button>")
}

/// The chip of a capability that is on: a button that turns it off.
#[verifier::opaque]
pub open spec fn chip(ui: &Ui, base: Seq<char>, c: CapabilityRow) -> Seq<char> {
    r#"<button type="button" data-on:click="@post(&#39;"#@
        + escaped(toggle_url(base, c))
        + r#"&#39;)" class="badge badge-outline gap-1" style="cursor:pointer" title="Remove">"#@
        + r#"<span style="display:inline-flex">"#@
        + cap_icon_markup(ui, c)
        + "</span><span>"@
        + escaped(c.label@)
        + r#"</span><span class="opacity-60">×</span></button>"#@
}

/// Renders the chip of a capability.
pub fn cap_chip(ui: &Ui, base: &str, c: &CapabilityRow) -> (r: Html)
    ensures
        r@ == chip(ui, base@, *c),
{
    proof {
        reveal(chip);
    }
    let url = cap_toggle_url(base, c);
    Html::new(r#"<button type="button" data-on:click="@post(&#39;"#)
        .text(&url)
        .raw(r#"&#39;)" class="badge badge-outline gap-1" style="cursor:pointer" title="Remove">"#)
        .raw(r#"<span style="display:inline-flex">"#)
        .html(cap_icon(ui, c))
        .raw("</span><span>")
        .text(&c.label)
        .raw(r#"</span><span class="opacity-60">×</span></button>"#)
}

/// The chips of what is on.
pub open spec fn chips(ui: &Ui, base: Seq<char>, caps: Seq<CapabilityRow>) -> Seq<char>
    decreases caps.len(),
{
    if caps.len() == 0 {
        Seq::empty()
    } else {
        let head = chips(ui, base, caps.drop_last());
        if caps.last().enabled {
            head + chip(ui, base, caps.last())
        } else {
            head
        }
    }
}

fn render_chips(ui: &Ui, base: &str, caps: &Vec<CapabilityRow>) -> (r: Html)
    ensures
        r@ == chips(ui, base@, caps@),
{
    let mut out = Html::empty();
    assert(caps@.take(0) =~= Seq::<CapabilityRow>::empty());
    for i in 0..caps.len()
        invariant
            out@ == chips(ui, base@, caps@.take(i as int)),
    {
        assert(caps@.take(i + 1).drop_last() =~= caps@.take(i as int));
        if caps[i].enabled {
            out = out.html(cap_chip(ui, base, &caps[i]));
        }
    }
    assert(caps@.take(caps@.len() as int) =~= caps@);
    out
}

/// The heading of a section. It is hidden while a search is on.
pub open spec fn section_heading(label: Seq<char>) -> Seq<char> {
    r#"<div data-show="$capQuery === &#39;&#39;" style="margin:0.15rem 0; padding:0.3rem 0.55rem;"#@
        + " font-size:0.66rem; font-weight:700; letter-spacing:0.06em; text-transform:uppercase;"@
        + " opacity:0.65; background:color-mix(in oklch, currentColor 7%, transparent);"@
        + r#" border-radius:0.35rem">"#@
        + escaped(label)
        + "</div>"@
}

/// Renders the heading of a section.
pub fn group_heading(label: &str) -> (r: Html)
    ensures
        r@ == section_heading(label@),
{
    Html::new(r#"<div data-show="$capQuery === &#39;&#39;" style="margin:0.15rem 0; padding:0.3rem 0.55rem;"#)
        .raw(" font-size:0.66rem; font-weight:700; letter-spacing:0.06em; text-transform:uppercase;")
        .raw(" opacity:0.65; background:color-mix(in oklch, currentColor 7%, transparent);")
        .raw(r#" border-radius:0.35rem">"#)
        .text(label)
        .raw("</div>")
}

/// The rows of one section.
pub open spec fn section_items(
    ui: &Ui,
    base: Seq<char>,
    caps: Seq<CapabilityRow>,
    group: Seq<char>,
) -> Seq<char>
    decreases caps.len(),
{
    if caps.len() == 0 {
        Seq::empty()
    } else {
        let head = section_items(ui, base, caps.drop_last(), group);
        if caps.last().group@ == group {
            head + menu_item(ui, base, caps.last())
        } else {
            head
        }
    }
}

/// Whether a section has a row.
pub open spec fn has_section(caps: Seq<CapabilityRow>, group: Seq<char>) -> bool {
    exists|i: int| 0 <= i < caps.len() && (#[trigger] caps[i]).group@ == group
}

/// A section under its heading; nothing when it has no row.
pub open spec fn section(
    ui: &Ui,
    base: Seq<char>,
    caps: Seq<CapabilityRow>,
    group: Seq<char>,
) -> Seq<char> {
    if has_section(caps, group) {
        section_heading(group) + section_items(ui, base, caps, group)
    } else {
        Seq::empty()
    }
}

fn render_section(ui: &Ui, base: &str, caps: &Vec<CapabilityRow>, group: &str) -> (r: (Html, bool))
    ensures
        r.0@ == section(ui, base@, caps@, group@),
        r.1 == has_section(caps@, group@),
{
    let mut items = Html::empty();
    let mut found = false;
    assert(caps@.take(0) =~= Seq::<CapabilityRow>::empty());
    for i in 0..caps.len()
        invariant
            items@ == section_items(ui, base@, caps@.take(i as int), group@),
            found == exists|k: int| 0 <= k < i && (#[trigger] caps@[k]).group@ == group@,
    {
        assert(caps@.take(i + 1).drop_last() =~= caps@.take(i as int));
        if same(&caps[i].group, group) {
            items = items.html(cap_menu_item(ui, base, &caps[i]));
            found = true;
            assert(caps@[i as int].group@ == group@);
        }
    }
    assert(caps@.take(caps@.len() as int) =~= caps@);
    if found {
        (group_heading(group).html(items), true)
    } else {
        (Html::empty(), false)
    }
}

/// The address that the switches of a conversation post to.
pub open spec fn capabilities_url(session_id: Seq<char>) -> Seq<char> {
    "/chat/"@ + session_id + "/capabilities"@
}

/// The button of the menu, the menu with its sections, integrations first, and
/// the chips of what is on. A search field comes with a long list. `open` says
/// whether the menu shows at once, so that a change leaves it open.
pub open spec fn capabilities_inner(
    ui: &Ui,
    session_id: Seq<char>,
    caps: Seq<CapabilityRow>,
    open: bool,
) -> Seq<char> {
    let base = capabilities_url(session_id);
    r#"<div id="capabilities" style="display:flex; flex-wrap:wrap; align-items:center; gap:0.4rem">"#@
        + r#"<div style="position:relative">"#@
        + r#"<button type="button" data-on:click="$capMenu = !$capMenu" class="btn btn-ghost btn-sm"#@
        + r#" gap-1" style="border-radius:9999px" title="Integrations &amp; skills for this"#@
        + r#" conversation">"#@
        + ui.icon_markup("plus"@, 16)
        + "<span>Tools</span></button>"@
        + (if has_section(caps, "Integrations"@) || has_section(caps, "Skills"@) {
            r#"<div class="rounded-box border border-base-300 bg-base-100 shadow" data-show="$capMenu""#@
                + r#" style="display:"#@
                + (if open { "block"@ } else { "none"@ })
                + "; position:absolute; left:0; bottom:100%; margin-bottom:8px; width:19rem; z-index:30;"@
                + r#" overflow:hidden; padding:0.25rem">"#@
                + (if caps.len() > 6 {
                    r#"<input type="text" placeholder="Search…" data-on:input="$capQuery ="#@
                        + r#" evt.target.value.toLowerCase()" class="input input-sm" style="width:100%;"#@
                        + " margin-bottom:0.25rem; border:1px solid color-mix(in oklch, currentColor 15%,"@
                        + r#" transparent)">"#@
                } else {
                    Seq::<char>::empty()
                })
                + r#"<div style="max-height:48vh; overflow-y:auto">"#@
                + (section(ui, base, caps, "Integrations"@) + section(ui, base, caps, "Skills"@))
                + "</div></div>"@
        } else {
            r#"<div class="rounded-box border border-base-300 bg-base-100 shadow text-sm""#@
                + r#" data-show="$capMenu" style="display:"#@
                + (if open { "block"@ } else { "none"@ })
                + "; position:absolute; left:0; bottom:100%; margin-bottom:8px; width:19rem; z-index:30;"@
                + r#" overflow:hidden; padding:0.25rem; padding:0.75rem">Connect an integration under "#@
                + r#"<a href="/integrations" style="text-decoration:underline">Integrations</a>"#@
                + " to make it available here.</div>"@
        })
        + "</div>"@
        + chips(ui, base, caps)
        + "</div>"@
}

/// Renders what a change of a capability replaces.
pub fn render_capabilities_inner(
    ui: &Ui,
    session_id: &str,
    caps: &Vec<CapabilityRow>,
    open: bool,
) -> (r: Html)
    ensures
        r@ == capabilities_inner(ui, session_id@, caps@, open),
{
    let mut base = "/chat/".to_owned();
    base.append(session_id);
    base.append("/capabilities");
    let integrations = render_section(ui, &base, caps, "Integrations");
    let skills = render_section(ui, &base, caps, "Skills");
    Html::new(r#"<div id="capabilities" style="display:flex; flex-wrap:wrap; align-items:center; gap:0.4rem">"#)
        .raw(r#"<div style="position:relative">"#)
        .raw(r#"<button type="button" data-on:click="$capMenu = !$capMenu" class="btn btn-ghost btn-sm"#)
        .raw(r#" gap-1" style="border-radius:9999px" title="Integrations &amp; skills for this"#)
        .raw(r#" conversation">"#)
        .icon(ui, "plus", 16)
        .raw("<span>Tools</span></button>")
        .html(if integrations.1 || skills.1 {
            Html::new(r#"<div class="rounded-box border border-base-300 bg-base-100 shadow" data-show="$capMenu""#)
                .raw(r#" style="display:"#)
                .html(Html::new(if open { "block" } else { "none" }))
                .raw("; position:absolute; left:0; bottom:100%; margin-bottom:8px; width:19rem; z-index:30;")
                .raw(r#" overflow:hidden; padding:0.25rem">"#)
                .html(if caps.len() > 6 {
                    Html::new(r#"<input type="text" placeholder="Search…" data-on:input="$capQuery ="#)
                        .raw(r#" evt.target.value.toLowerCase()" class="input input-sm" style="width:100%;"#)
                        .raw(" margin-bottom:0.25rem; border:1px solid color-mix(in oklch, currentColor 15%,")
                        .raw(r#" transparent)">"#)
                } else {
                    Html::empty()
                })
                .raw(r#"<div style="max-height:48vh; overflow-y:auto">"#)
                .html(integrations.0.html(skills.0))
                .raw("</div></div>")
        } else {
            Html::new(r#"<div class="rounded-box border border-base-300 bg-base-100 shadow text-sm""#)
                .raw(r#" data-show="$capMenu" style="display:"#)
                .html(Html::new(if open { "block" } else { "none" }))
                .raw("; position:absolute; left:0; bottom:100%; margin-bottom:8px; width:19rem; z-index:30;")
                .raw(r#" overflow:hidden; padding:0.25rem; padding:0.75rem">Connect an integration under "#)
                .raw(r#"<a href="/integrations" style="text-decoration:underline">Integrations</a>"#)
                .raw(" to make it available here.</div>")
        })
        .raw("</div>")
        .html(render_chips(ui, &base, caps))
        .raw("</div>")
}

/// The menu in its frame, which holds whether it is open and what is searched
/// and is left alone when the menu is replaced.
pub open spec fn capabilities(
    ui: &Ui,
    session_id: Seq<char>,
    caps: Seq<CapabilityRow>,
    open: bool,
) -> Seq<char> {
    r#"<div id="cap-wrap" data-signals="{capMenu: false, capQuery: &#39;&#39;}""#@
        + r#" data-on:click__outside="$capMenu = false">"#@
        + capabilities_inner(ui, session_id, caps, open)
        + "</div>"@
}

/// Renders the menu in its frame.
pub fn render_capabilities(
    ui: &Ui,
    session_id: &str,
    caps: &Vec<CapabilityRow>,
    open: bool,
) -> (r: Html)
    ensures
        r@ == capabilities(ui, session_id@, caps@, open),
{
    Html::new(r#"<div id="cap-wrap" data-signals="{capMenu: false, capQuery: &#39;&#39;}""#)
        .raw(r#" data-on:click__outside="$capMenu = false">"#)
        .html(render_capabilities_inner(ui, session_id, caps, open))
        .raw("</div>")
}

/// The row above the message field: the menu and the effort.
pub open spec fn composer_toolbar(
    ui: &Ui,
    session_id: Seq<char>,
    caps: Seq<CapabilityRow>,
    effort: Effort,
) -> Seq<char> {
    r#"<div style="display:flex; flex-wrap:wrap; align-items:center; gap:0.5rem; width:100%;"#@
        + r#" padding:0.5rem 1.125rem 0">"#@
        + capabilities(ui, session_id, caps, false)
        + r#"<div style="margin-left:auto">"#@
        + effort_select(ui, session_id, effort)
        + "</div></div>"@
}

/// Renders the row above the message field.
pub fn render_composer_toolbar(
    ui: &Ui,
    session_id: &str,
    caps: &Vec<CapabilityRow>,
    effort: Effort,
) -> (r: Html)
    ensures
        r@ == composer_toolbar(ui, session_id@, caps@, effort),
{
    Html::new(r#"<div style="display:flex; flex-wrap:wrap; align-items:center; gap:0.5rem; width:100%;"#)
        .raw(r#" padding:0.5rem 1.125rem 0">"#)
        .html(render_capabilities(ui, session_id, caps, false))
        .raw(r#"<div style="margin-left:auto">"#)
        .html(render_effort_select(ui, session_id, effort))
        .raw("</div></div>")
}

// ---------------------------------------------------------------------------
// Controls of the header

/// The owner's share button. A click that shares also copies the address.
pub open spec fn share_control(share_url: Seq<char>, shared: bool) -> Seq<char> {
    r#"<button id="share-toggle" type="button" data-on:click=""#@
        + (if shared {
            "@post(&#39;"@
                + escaped(share_url)
                + "&#39;)"@
        } else {
            "navigator.clipboard &amp;&amp; navigator.clipboard.writeText(window.location.href);"@
                + " @post(&#39;"@
                + escaped(share_url)
                + "&#39;)"@
        })
        + r#"" class="btn btn-ghost btn-sm whitespace-nowrap" title="Shared chats are readable by any"#@
        + r#" signed-in user who has the link">"#@
        + (if shared {
            "Shared ✓"@
        } else {
            "Share"@
        })
        + "</button>"@
}

/// Renders the owner's share button.
pub fn render_share_control(share_url: &str, shared: bool) -> (r: Html)
    ensures
        r@ == share_control(share_url@, shared),
{
    Html::new(r#"<button id="share-toggle" type="button" data-on:click=""#)
        .html(if shared {
            Html::new("@post(&#39;")
                .text(share_url)
                .raw("&#39;)")
        } else {
            Html::new("navigator.clipboard &amp;&amp; navigator.clipboard.writeText(window.location.href);")
                .raw(" @post(&#39;")
                .text(share_url)
                .raw("&#39;)")
        })
        .raw(r#"" class="btn btn-ghost btn-sm whitespace-nowrap" title="Shared chats are readable by any"#)
        .raw(r#" signed-in user who has the link">"#)
        .html(if shared {
            Html::new("Shared ✓")
        } else {
            Html::new("Share")
        })
        .raw("</button>")
}

/// The button with which a reader copies a shared conversation.
pub open spec fn fork_control(ui: &Ui, session_id: Seq<char>) -> Seq<char> {
    r#"<button id="fork-button" type="button" data-on:click="@post(&#39;/chat/"#@
        + escaped(session_id)
        + r#"/fork&#39;)" class="btn btn-primary btn-sm whitespace-nowrap" title="Copy this conversation"#@
        + r#" into your own chats so you can keep chatting">"#@
        + ui.icon_markup("copy"@, 16)
        + r#"<span class="hidden sm:inline">Continue in my chats</span></button>"#@
}

/// Renders the button with which a reader copies a shared conversation.
pub fn render_fork_control(ui: &Ui, session_id: &str) -> (r: Html)
    ensures
        r@ == fork_control(ui, session_id@),
{
    Html::new(r#"<button id="fork-button" type="button" data-on:click="@post(&#39;/chat/"#)
        .text(session_id)
        .raw(r#"/fork&#39;)" class="btn btn-primary btn-sm whitespace-nowrap" title="Copy this conversation"#)
        .raw(r#" into your own chats so you can keep chatting">"#)
        .icon(ui, "copy", 16)
        .raw(r#"<span class="hidden sm:inline">Continue in my chats</span></button>"#)
}

/// The download links. They are plain links, so that the browser downloads.
pub open spec fn export_control(ui: &Ui, session_id: Seq<char>) -> Seq<char> {
    r#"<details class="dropdown dropdown-end">"#@
        + r#"<summary class="btn btn-ghost btn-sm whitespace-nowrap" title="Download this conversation">"#@
        + ui.icon_markup("download"@, 16)
        + r#"<span class="hidden sm:inline">Export</span></summary>"#@
        + r#"<ul class="dropdown-content menu bg-base-100 rounded-box z-10 mt-1 w-48 p-2 shadow"><li>"#@
        + r#"<a href="/chat/"#@
        + escaped(session_id)
        + r#"/export.pdf" download="download">PDF document</a></li><li><a href="/chat/"#@
        + escaped(session_id)
        + r#"/export.md" download="download">Markdown (.md)</a></li></ul></details>"#@
}

/// Renders the download links.
pub fn render_export_control(ui: &Ui, session_id: &str) -> (r: Html)
    ensures
        r@ == export_control(ui, session_id@),
{
    Html::new(r#"<details class="dropdown dropdown-end">"#)
        .raw(r#"<summary class="btn btn-ghost btn-sm whitespace-nowrap" title="Download this conversation">"#)
        .icon(ui, "download", 16)
        .raw(r#"<span class="hidden sm:inline">Export</span></summary>"#)
        .raw(r#"<ul class="dropdown-content menu bg-base-100 rounded-box z-10 mt-1 w-48 p-2 shadow"><li>"#)
        .raw(r#"<a href="/chat/"#)
        .text(session_id)
        .raw(r#"/export.pdf" download="download">PDF document</a></li><li><a href="/chat/"#)
        .text(session_id)
        .raw(r#"/export.md" download="download">Markdown (.md)</a></li></ul></details>"#)
}

// ---------------------------------------------------------------------------
// The page

/// What a page of a conversation shows.
pub struct ChatPage<'a> {
    pub active: &'a Session,
    /// The reply that is still being written, if there is one.
    pub in_flight_turn_id: Option<&'a str>,
    pub models: &'a Vec<ChatModelOption>,
    pub transcription_models: &'a Vec<String>,
    pub error_msg: Option<&'a str>,
    /// Whether the viewer is not the owner.
    pub read_only: bool,
    pub shared: bool,
    pub effort: Effort,
    pub capabilities: &'a Vec<CapabilityRow>,
    /// The open document, if the conversation has one.
    pub document_canvas: Option<&'a Html>,
}

/// The name of a conversation.
pub open spec fn label_of(session: Session) -> Seq<char> {
    match session.title {
        Some(t) => t@,
        None => "New conversation"@,
    }
}

/// The name of a conversation.
pub fn session_label(session: &Session) -> (r: String)
    ensures
        r@ == label_of(*session),
{
    match &session.title {
        Some(t) => t.clone(),
        None => "New conversation".to_owned(),
    }
}

/// An address under a conversation.
pub open spec fn session_url(session_id: Seq<char>, what: Seq<char>) -> Seq<char> {
    "/chat/"@ + session_id + what
}

fn make_session_url(session_id: &str, what: &str) -> (r: String)
    ensures
        r@ == session_url(session_id@, what@),
{
    let mut out = "/chat/".to_owned();
    out.append(session_id);
    out.append(what);
    out
}

/// Where the transcript follows the reply that is still being written; nowhere
/// when there is none.
pub fn tail_url(page: &ChatPage<'_>) -> (r: Option<String>)
    ensures
        r is Some <==> page.in_flight_turn_id is Some,
        r matches Some(u) ==> u@ == session_url(page.active.id@, "/tail"@),
{
    if page.in_flight_turn_id.is_some() {
        Some(make_session_url(&page.active.id, "/tail"))
    } else {
        None
    }
}

/// What the message field is made with.
pub struct ComposerOpts {
    pub post_url: String,
    pub cancel_url: String,
    pub placeholder: String,
    pub has_voice: bool,
    /// Whether a reply is being written, so that the field offers to stop it.
    pub streaming: bool,
    pub toolbar: Html,
}

/// What the message field of a page is made with; a reader has none.
pub fn composer_opts(ui: &Ui, page: &ChatPage<'_>) -> (r: Option<ComposerOpts>)
    ensures
        r is Some <==> !page.read_only,
        r matches Some(o) ==> {
            &&& o.post_url@ == session_url(page.active.id@, "/messages"@)
            &&& o.cancel_url@ == session_url(page.active.id@, "/cancel"@)
            &&& o.placeholder@ == "Message the model…"@
            &&& o.has_voice == (page.transcription_models@.len() > 0)
            &&& o.streaming == page.in_flight_turn_id is Some
            &&& o.toolbar@ == composer_toolbar(
                ui,
                page.active.id@,
                page.capabilities@,
                page.effort,
            )
        },
{
    if page.read_only {
        None
    } else {
        Some(
            ComposerOpts {
                post_url: make_session_url(&page.active.id, "/messages"),
                cancel_url: make_session_url(&page.active.id, "/cancel"),
                placeholder: "Message the model…".to_owned(),
                has_voice: page.transcription_models.len() > 0,
                streaming: page.in_flight_turn_id.is_some(),
                toolbar: render_composer_toolbar(
                    ui,
                    &page.active.id,
                    page.capabilities,
                    page.effort,
                ),
            },
        )
    }
}

/// The pickers of the model and of the voice model. Without a known model the
/// name is typed.
pub open spec fn pickers(
    ui: &Ui,
    models: Seq<ChatModelOption>,
    voice_models: Seq<String>,
) -> Seq<char> {
    r#"<div class="chat-header__pickers hidden sm:flex">"#@
        + (if models.len() == 0 {
            r#"<input id="model" name="model" form="chat-form" type="text" required="required""#@
                + r#" placeholder="model (e.g. gpt-4o-mini)" class="input input-bordered input-sm w-56">"#@
        } else {
            r#"<div class="flex items-center gap-1.5 text-sm">"#@
                + ui.icon_markup("sliders"@, 14)
                + r#"<select id="model" name="model" form="chat-form" aria-label="Chat model""#@
                + r#" data-on:change="$selectedModel = evt.target.value" class="select select-bordered select-sm"#@
                + r#" chat-model-select">"#@
                + model_options(models)
                + "</select></div>"@
        })
        + (if voice_models.len() > 0 {
            r#"<div class="flex items-center gap-1.5 text-sm">"#@
                + ui.icon_markup("mic"@, 14)
                + r#"<select id="voice-model" data-mic-model="1" aria-label="Voice model" class="select"#@
                + r#" select-bordered select-sm chat-model-select">"#@
                + choices(voice_models, None)
                + "</select></div>"@
        } else {
            Seq::<char>::empty()
        })
        + "</div>"@
}

fn render_pickers(ui: &Ui, models: &Vec<ChatModelOption>, voice_models: &Vec<String>) -> (r: Html)
    ensures
        r@ == pickers(ui, models@, voice_models@),
{
    Html::new(r#"<div class="chat-header__pickers hidden sm:flex">"#)
        .html(if models.len() == 0 {
            Html::new(r#"<input id="model" name="model" form="chat-form" type="text" required="required""#)
                .raw(r#" placeholder="model (e.g. gpt-4o-mini)" class="input input-bordered input-sm w-56">"#)
        } else {
            Html::new(r#"<div class="flex items-center gap-1.5 text-sm">"#)
                .icon(ui, "sliders", 14)
                .raw(r#"<select id="model" name="model" form="chat-form" aria-label="Chat model""#)
                .raw(r#" data-on:change="$selectedModel = evt.target.value" class="select select-bordered select-sm"#)
                .raw(r#" chat-model-select">"#)
                .html(render_model_options(models))
                .raw("</select></div>")
        })
        .html(if voice_models.len() > 0 {
            Html::new(r#"<div class="flex items-center gap-1.5 text-sm">"#)
                .icon(ui, "mic", 14)
                .raw(r#"<select id="voice-model" data-mic-model="1" aria-label="Voice model" class="select"#)
                .raw(r#" select-bordered select-sm chat-model-select">"#)
                .html(render_choices(voice_models, None))
                .raw("</select></div>")
        } else {
            Html::empty()
        })
        .raw("</div>")
}

/// The header: the name, the downloads and the document switch; for the owner
/// the pickers and the share button, for a reader the copy button.
pub open spec fn page_header(ui: &Ui, page: ChatPage<'_>) -> Seq<char> {
    r#"<div class="chat-header flex"><div class="chat-header__title hidden sm:block">"#@
        + r#"<h1 class="text-lg font-semibold truncate">"#@
        + escaped(label_of(*page.active))
        + r#"</h1></div><div class="flex items-center gap-2 ml-auto">"#@
        + export_control(ui, page.active.id@)
        + r#"<button type="button" class="btn btn-ghost btn-sm gap-1" title="Show / hide the document"#@
        + r#" canvas" data-show="$hasCanvas" data-on:click="$canvasOpen = !$canvasOpen">"#@
        + ui.icon_markup("pencil"@, 16)
        + r#"<span class="hidden sm:inline">Document</span></button>"#@
        + (if page.read_only {
            fork_control(ui, page.active.id@)
        } else {
            pickers(ui, page.models@, page.transcription_models@)
                + share_control(session_url(page.active.id@, "/share"@), page.shared)
        })
        + "</div></div>"@
}

fn render_page_header(ui: &Ui, page: &ChatPage<'_>) -> (r: Html)
    ensures
        r@ == page_header(ui, *page),
{
    let share_url = make_session_url(&page.active.id, "/share");
    Html::new(r#"<div class="chat-header flex"><div class="chat-header__title hidden sm:block">"#)
        .raw(r#"<h1 class="text-lg font-semibold truncate">"#)
        .text(&session_label(page.active))
        .raw(r#"</h1></div><div class="flex items-center gap-2 ml-auto">"#)
        .html(render_export_control(ui, &page.active.id))
        .raw(r#"<button type="button" class="btn btn-ghost btn-sm gap-1" title="Show / hide the document"#)
        .raw(r#" canvas" data-show="$hasCanvas" data-on:click="$canvasOpen = !$canvasOpen">"#)
        .icon(ui, "pencil", 16)
        .raw(r#"<span class="hidden sm:inline">Document</span></button>"#)
        .html(if page.read_only {
            render_fork_control(ui, &page.active.id)
        } else {
            render_pickers(ui, page.models, page.transcription_models)
                .html(render_share_control(&share_url, page.shared))
        })
        .raw("</div></div>")
}

/// Whether the page warns of flagged models: for the owner, if there is a
/// picker.
pub open spec fn shows_compliance(page: ChatPage<'_>) -> bool {
    !page.read_only && page.models@.len() > 0
}

/// The error of the page, if there is one.
pub open spec fn error_alert(ui: &Ui, error_msg: Option<&str>) -> Seq<char> {
    match error_msg {
        Some(msg) => {
            r#"<div class="alert alert-error mb-4">"#@
                + ui.icon_markup("alert"@, 20)
                + "<span>"@
                + escaped(msg@)
                + "</span></div>"@
        },
        None => Seq::empty(),
    }
}

fn render_error_alert(ui: &Ui, error_msg: Option<&str>) -> (r: Html)
    ensures
        r@ == error_alert(ui, error_msg),
{
    match error_msg {
        Some(msg) => {
            Html::new(r#"<div class="alert alert-error mb-4">"#)
                .icon(ui, "alert", 20)
                .raw("<span>")
                .text(msg)
                .raw("</span></div>")
        },
        None => Html::empty(),
    }
}

/// The open document, if there is one.
pub open spec fn canvas_of(page: ChatPage<'_>) -> Seq<char> {
    match page.document_canvas {
        Some(h) => h@,
        None => Seq::empty(),
    }
}

fn render_canvas(page: &ChatPage<'_>) -> (r: Html)
    ensures
        r@ == canvas_of(*page),
{
    match page.document_canvas {
        Some(h) => h.clone(),
        None => Html::empty(),
    }
}

/// The page: header, warnings, error, transcript, and the message field or, for
/// a reader, the note that there is none; beside it the document panel, which
/// is there even when it is empty.
pub open spec fn chat_page(
    ui: &Ui,
    page: ChatPage<'_>,
    conversation: Seq<char>,
    composer: Seq<char>,
) -> Seq<char> {
    r#"<div class="chat-shell" data-signals="{&quot;hasCanvas&quot;: "#@
        + (if page.document_canvas is Some { "true"@ } else { "false"@ })
        + r#", &quot;canvasOpen&quot;: false}" data-init="$canvasOpen = $hasCanvas &amp;&amp;"#@
        + r#" window.innerWidth &gt;= 768" data-on:gwcanvasopen__window="$canvasOpen = true""#@
        + r#" data-class="{&#39;canvas-open&#39;: $canvasOpen}"><div class="chat-col">"#@
        + page_header(ui, page)
        + (if shows_compliance(page) {
            compliance_banners(ui, page.models@)
        } else {
            Seq::<char>::empty()
        })
        + error_alert(ui, page.error_msg)
        + conversation
        + (if page.read_only {
            r#"<div class="alert mt-4">"#@
                + ui.icon_markup("alert"@, 20)
                + "<span>Shared chat — read-only. Only the creator can reply.</span></div>"@
        } else {
            composer
        })
        + "</div>"@
        + r#"<div id="canvas-splitter" class="canvas-splitter" data-show="$canvasOpen""#@
        + r#" aria-hidden="true"></div>"#@
        + r#"<aside id="document-canvas-slot" class="canvas-col" data-show="$canvasOpen">"#@
        + canvas_of(page)
        + "</aside></div>"@
}

/// Renders the page of a conversation around its transcript and its message
/// field, made by [`tail_url`] and [`composer_opts`].
pub fn render_chat_page(
    ui: &Ui,
    page: &ChatPage<'_>,
    conversation: Html,
    composer: Html,
) -> (r: Html)
    ensures
        r@ == chat_page(ui, *page, conversation@, composer@),
{
    Html::new(r#"<div class="chat-shell" data-signals="{&quot;hasCanvas&quot;: "#)
        .html(Html::new(if page.document_canvas.is_some() { "true" } else { "false" }))
        .raw(r#", &quot;canvasOpen&quot;: false}" data-init="$canvasOpen = $hasCanvas &amp;&amp;"#)
        .raw(r#" window.innerWidth &gt;= 768" data-on:gwcanvasopen__window="$canvasOpen = true""#)
        .raw(r#" data-class="{&#39;canvas-open&#39;: $canvasOpen}"><div class="chat-col">"#)
        .html(render_page_header(ui, page))
        .html(if !page.read_only && page.models.len() > 0 {
            render_compliance_banners(ui, page.models)
        } else {
            Html::empty()
        })
        .html(render_error_alert(ui, page.error_msg))
        .html(conversation)
        .html(if page.read_only {
            Html::new(r#"<div class="alert mt-4">"#)
                .icon(ui, "alert", 20)
                .raw("<span>Shared chat — read-only. Only the creator can reply.</span></div>")
        } else {
            composer
        })
        .raw("</div>")
        .raw(r#"<div id="canvas-splitter" class="canvas-splitter" data-show="$canvasOpen""#)
        .raw(r#" aria-hidden="true"></div>"#)
        .raw(r#"<aside id="document-canvas-slot" class="canvas-col" data-show="$canvasOpen">"#)
        .html(render_canvas(page))
        .raw("</aside></div>")
}

// ---------------------------------------------------------------------------
// Laws

/// A reader of a shared conversation sees none of what only its owner can use:
/// the page is the same whatever models, effort, capabilities and message field
/// the owner has, and whether or not it still counts as shared.
pub proof fn reader_sees_no_controls(
    ui: &Ui,
    a: ChatPage<'_>,
    b: ChatPage<'_>,
    conversation: Seq<char>,
    composer_a: Seq<char>,
    composer_b: Seq<char>,
)
    requires
        a.read_only,
        b.read_only,
        a.active == b.active,
        a.error_msg == b.error_msg,
        a.document_canvas == b.document_canvas,
    ensures
        chat_page(ui, a, conversation, composer_a) == chat_page(ui, b, conversation, composer_b),
{
}

/// Models that are all cleared bring no warning.
pub proof fn cleared_models_bring_no_warning(
    ui: &Ui,
    models: Seq<ChatModelOption>,
    other: Seq<ChatModelOption>,
)
    requires
        models.len() > 0,
        other.len() > 0,
        models[0].id@ == other[0].id@,
        forall|i: int| 0 <= i < models.len() ==> (#[trigger] models[i]).gdpr && models[i].nda,
        forall|i: int| 0 <= i < other.len() ==> (#[trigger] other[i]).gdpr && other[i].nda,
    ensures
        gdpr_flagged(models).len() == 0,
        nda_flagged(models).len() == 0,
        compliance_banners(ui, models) == compliance_banners(ui, other),
{
    cleared_lists_are_empty(models);
    cleared_lists_are_empty(other);
}

proof fn cleared_lists_are_empty(models: Seq<ChatModelOption>)
    requires
        forall|i: int| 0 <= i < models.len() ==> (#[trigger] models[i]).gdpr && models[i].nda,
    ensures
        gdpr_flagged(models) == Seq::<Seq<char>>::empty(),
        nda_flagged(models) == Seq::<Seq<char>>::empty(),
    decreases models.len(),
{
    if models.len() > 0 {
        let d = models.drop_last();
        assert forall|i: int| 0 <= i < d.len() implies (#[trigger] d[i]).gdpr && d[i].nda by {
            assert(d[i] == models[i]);
        }
        cleared_lists_are_empty(d);
        assert(models[models.len() - 1] == models.last());
    }
}

/// A model is shown by its name, with what it may not be sent behind it.
pub proof fn a_label_warns_of_the_model(m: ChatModelOption)
    ensures
        m.id@.is_prefix_of(label_text(m)),
        m.gdpr && m.nda <==> label_text(m) == m.id@,
        !m.gdpr && m.nda ==> label_text(m) == m.id@ + " (non-GDPR)"@,
        m.gdpr && !m.nda ==> label_text(m) == m.id@ + " (confidential-restricted)"@,
        !m.gdpr && !m.nda ==> label_text(m) == m.id@ + " (non-GDPR, confidential-restricted)"@,
{
    reveal_strlit(" (non-GDPR)");
    reveal_strlit(" (confidential-restricted)");
    reveal_strlit(" (non-GDPR, confidential-restricted)");
    assert(m.id@ =~= label_text(m).subrange(0, m.id@.len() as int));
    assert(!(m.gdpr && m.nda) ==> label_text(m).len() > m.id@.len());
}

/// Every model can be picked by its name, and shows its label.
pub proof fn every_model_can_be_picked(
    ui: &Ui,
    models: Seq<ChatModelOption>,
    voices: Seq<String>,
    i: int,
)
    requires
        0 <= i < models.len(),
    ensures
        shows(pickers(ui, models, voices), choice(models[i].id@, label_text(models[i]), false)),
{
    broadcast use group_shows;

    lemma_model_options(models, i);
}

proof fn lemma_model_options(models: Seq<ChatModelOption>, i: int)
    requires
        0 <= i < models.len(),
    ensures
        shows(model_options(models), choice(models[i].id@, label_text(models[i]), false)),
    decreases models.len(),
{
    broadcast use group_shows;

    if i < models.len() - 1 {
        lemma_model_options(models.drop_last(), i);
    }
}

/// The toggle of a capability names it by its kind and key.
pub proof fn a_toggle_names_its_capability(base: &str, c: &CapabilityRow, r: String)
    requires
        call_ensures(cap_toggle_url, (base, c), r),
    ensures
        c.kind == CapKind::Tool ==> r@ == base@ + "?kind="@ + "tool"@ + "&key="@ + c.key@,
        c.kind == CapKind::Skill ==> r@ == base@ + "?kind="@ + "skill"@ + "&key="@ + c.key@,
{
}

/// A capability has the picture of its connector, else the picture or the sign that it
/// brings, else a plug; a skill has sparkles.
pub proof fn a_capability_has_its_picture(ui: &Ui, c: CapabilityRow)
    ensures
        c.kind == CapKind::Skill ==> cap_icon_markup(ui, c) == ui.icon_markup("sparkles"@, 16),
        c.kind == CapKind::Tool ==> {
            let own = find_icon(ui.logos@, connector_of(c.key@), 16);
            &&& own is Some ==> cap_icon_markup(ui, c) == own->0
            &&& own is None && c.icon is None ==> cap_icon_markup(ui, c) == ui.icon_markup(
                "plug"@,
                16,
            )
            &&& own is None && c.icon is Some ==> {
                let hint = find_icon(ui.logos@, c.icon->0@, 16);
                &&& hint is Some ==> cap_icon_markup(ui, c) == hint->0
                &&& hint is None && is_ascii_chars(c.icon->0@) ==> cap_icon_markup(ui, c)
                    == ui.icon_markup("plug"@, 16)
                &&& hint is None && c.icon->0@.len() > 0 && !is_ascii_chars(c.icon->0@)
                    ==> cap_icon_markup(ui, c)
                    == r#"<span style="font-size:1rem; line-height:1">"#@ + escaped(c.icon->0@)
                    + "</span>"@
            }
        },
{
}

/// The connector of a tool is named behind the mark of a connector.
pub proof fn a_connector_is_named_behind_its_mark(name: Seq<char>)
    ensures
        connector_of("mcp__"@ + name) == name,
        !"mcp__"@.is_prefix_of(name) ==> connector_of(name) == name,
{
    reveal_strlit("mcp__");
    let key = "mcp__"@ + name;
    assert(key.subrange(0, 5) =~= "mcp__"@);
    assert(key.skip(5) =~= name);
}

proof fn lemma_a_menu_item_shows_its_capability()
    ensures
        ends_in(
            r#"<button type="button" data-on:click="@post(&#39;"#@,
            r#"data-on:click="@post(&#39;"#@,
        ),
        starts_as(
            r#"&#39;)" data-show="$capQuery === &#39;&#39; || "#@,
            r#"&#39;)""#@,
        ),
        ends_in(
            r#"&#39;)" data-show="$capQuery === &#39;&#39; || "#@,
            r#"data-show="$capQuery === &#39;&#39; || "#@,
        ),
        starts_as(
            r#".includes($capQuery)" class="w-full flex items-center gap-2 px-3 py-2 rounded-lg"#@,
            r#".includes($capQuery)""#@,
        ),
        ends_in(
            r#"</span><span class="flex-1 truncate">"#@,
            r#"<span class="flex-1 truncate">"#@,
        ),
        starts_as(
            r#"</span><span class="flex-1 truncate">"#@,
            "</span>"@,
        ),
{
    assert(ends_in(r#"<button type="button" data-on:click="@post(&#39;"#@, r#"data-on:click="@post(&#39;"#@)) by {
        reveal(ends_in);
        reveal_strlit(r#"<button type="button" data-on:click="@post(&#39;"#);
        reveal_strlit(r#"data-on:click="@post(&#39;"#);
        assert(r#"<button type="button" data-on:click="@post(&#39;"#@.skip(22) =~= r#"data-on:click="@post(&#39;"#@);
    }
    assert(starts_as(r#"&#39;)" data-show="$capQuery === &#39;&#39; || "#@, r#"&#39;)""#@)) by {
        reveal(starts_as);
        reveal_strlit(r#"&#39;)" data-show="$capQuery === &#39;&#39; || "#);
        reveal_strlit(r#"&#39;)""#);
        assert(r#"&#39;)" data-show="$capQuery === &#39;&#39; || "#@.take(7) =~= r#"&#39;)""#@);
    }
    assert(ends_in(r#"&#39;)" data-show="$capQuery === &#39;&#39; || "#@, r#"data-show="$capQuery === &#39;&#39; || "#@)) by {
        reveal(ends_in);
        reveal_strlit(r#"&#39;)" data-show="$capQuery === &#39;&#39; || "#);
        reveal_strlit(r#"data-show="$capQuery === &#39;&#39; || "#);
        assert(r#"&#39;)" data-show="$capQuery === &#39;&#39; || "#@.skip(8) =~= r#"data-show="$capQuery === &#39;&#39; || "#@);
    }
    assert(starts_as(r#".includes($capQuery)" class="w-full flex items-center gap-2 px-3 py-2 rounded-lg"#@, r#".includes($capQuery)""#@)) by {
        reveal(starts_as);
        reveal_strlit(r#".includes($capQuery)" class="w-full flex items-center gap-2 px-3 py-2 rounded-lg"#);
        reveal_strlit(r#".includes($capQuery)""#);
        assert(r#".includes($capQuery)" class="w-full flex items-center gap-2 px-3 py-2 rounded-lg"#@.take(21) =~= r#".includes($capQuery)""#@);
    }
    assert(ends_in(r#"</span><span class="flex-1 truncate">"#@, r#"<span class="flex-1 truncate">"#@)) by {
        reveal(ends_in);
        reveal_strlit(r#"</span><span class="flex-1 truncate">"#);
        reveal_strlit(r#"<span class="flex-1 truncate">"#);
        assert(r#"</span><span class="flex-1 truncate">"#@.skip(7) =~= r#"<span class="flex-1 truncate">"#@);
    }
    assert(starts_as(r#"</span><span class="flex-1 truncate">"#@, "</span>"@)) by {
        reveal(starts_as);
        reveal_strlit(r#"</span><span class="flex-1 truncate">"#);
        reveal_strlit("</span>");
        assert(r#"</span><span class="flex-1 truncate">"#@.take(7) =~= "</span>"@);
    }
}

/// An item of the menu shows its capability, posts to its toggle, is found by its name in small
/// letters, and has a tick where the capability is on.
pub proof fn a_menu_item_shows_its_capability(ui: &Ui, base: Seq<char>, c: CapabilityRow)
    ensures
        ({
            let page = menu_item(ui, base, c);
            &&& shows(page, r#"data-on:click="@post(&#39;"#@ + escaped(toggle_url(base, c)) + r#"&#39;)""#@)
            &&& shows(page, r#"data-show="$capQuery === &#39;&#39; || "#@ + escaped(json_text(lowercase_of(c.label@))) + r#".includes($capQuery)""#@)
            &&& shows(page, r#"<span class="flex-1 truncate">"#@ + escaped(c.label@) + "</span>"@)
            &&& shows(page, cap_icon_markup(ui, c))
            &&& c.enabled ==> shows(page, r#"<span class="text-success">"#@ + ui.icon_markup("check"@, 16) + "</span>"@)
        }),
{
    broadcast use group_shows;

    lemma_a_menu_item_shows_its_capability();
    reveal(menu_item);
}

proof fn lemma_a_chip_shows_its_capability()
    ensures
        ends_in(
            r#"<button type="button" data-on:click="@post(&#39;"#@,
            r#"data-on:click="@post(&#39;"#@,
        ),
        starts_as(
            r#"&#39;)" class="badge badge-outline gap-1" style="cursor:pointer" title="Remove">"#@,
            r#"&#39;)""#@,
        ),
        starts_as(
            r#"</span><span class="opacity-60">×</span></button>"#@,
            "</span>"@,
        ),
        starts_as(
            "</span><span>"@,
            "</span>"@,
        ),
{
    assert(ends_in(r#"<button type="button" data-on:click="@post(&#39;"#@, r#"data-on:click="@post(&#39;"#@)) by {
        reveal(ends_in);
        reveal_strlit(r#"<button type="button" data-on:click="@post(&#39;"#);
        reveal_strlit(r#"data-on:click="@post(&#39;"#);
        assert(r#"<button type="button" data-on:click="@post(&#39;"#@.skip(22) =~= r#"data-on:click="@post(&#39;"#@);
    }
    assert(starts_as(r#"&#39;)" class="badge badge-outline gap-1" style="cursor:pointer" title="Remove">"#@, r#"&#39;)""#@)) by {
        reveal(starts_as);
        reveal_strlit(r#"&#39;)" class="badge badge-outline gap-1" style="cursor:pointer" title="Remove">"#);
        reveal_strlit(r#"&#39;)""#);
        assert(r#"&#39;)" class="badge badge-outline gap-1" style="cursor:pointer" title="Remove">"#@.take(7) =~= r#"&#39;)""#@);
    }
    assert(starts_as(r#"</span><span class="opacity-60">×</span></button>"#@, "</span>"@)) by {
        reveal(starts_as);
        reveal_strlit(r#"</span><span class="opacity-60">×</span></button>"#);
        reveal_strlit("</span>");
        assert(r#"</span><span class="opacity-60">×</span></button>"#@.take(7) =~= "</span>"@);
    }
    assert(starts_as("</span><span>"@, "</span>"@)) by {
        reveal(starts_as);
        reveal_strlit("</span><span>");
        reveal_strlit("</span>");
        assert("</span><span>"@.take(7) =~= "</span>"@);
    }
}

/// A chip shows its capability with its picture and posts to its toggle.
pub proof fn a_chip_shows_its_capability(ui: &Ui, base: Seq<char>, c: CapabilityRow)
    ensures
        ({
            let page = chip(ui, base, c);
            &&& shows(page, r#"data-on:click="@post(&#39;"#@ + escaped(toggle_url(base, c)) + r#"&#39;)""#@)
            &&& shows(page, "</span><span>"@ + escaped(c.label@) + "</span>"@)
            &&& shows(page, r#"<span style="display:inline-flex">"#@ + cap_icon_markup(ui, c) + "</span>"@)
        }),
{
    broadcast use group_shows;

    lemma_a_chip_shows_its_capability();
    reveal(chip);
}

proof fn lemma_chips(ui: &Ui, base: Seq<char>, caps: Seq<CapabilityRow>, i: int)
    requires
        0 <= i < caps.len(),
        caps[i].enabled,
    ensures
        shows(chips(ui, base, caps), chip(ui, base, caps[i])),
    decreases caps.len(),
{
    broadcast use group_shows;

    if i < caps.len() - 1 {
        lemma_chips(ui, base, caps.drop_last(), i);
    }
}

proof fn lemma_no_chips(ui: &Ui, base: Seq<char>, caps: Seq<CapabilityRow>)
    requires
        forall|i: int| 0 <= i < caps.len() ==> !(#[trigger] caps[i]).enabled,
    ensures
        chips(ui, base, caps).len() == 0,
    decreases caps.len(),
{
    if caps.len() > 0 {
        let d = caps.drop_last();
        assert forall|i: int| 0 <= i < d.len() implies !(#[trigger] d[i]).enabled by {
            assert(d[i] == caps[i]);
        }
        lemma_no_chips(ui, base, d);
        assert(!caps[caps.len() - 1].enabled);
    }
}

proof fn lemma_section_items(
    ui: &Ui,
    base: Seq<char>,
    caps: Seq<CapabilityRow>,
    group: Seq<char>,
    i: int,
)
    requires
        0 <= i < caps.len(),
        caps[i].group@ == group,
    ensures
        shows(section_items(ui, base, caps, group), menu_item(ui, base, caps[i])),
    decreases caps.len(),
{
    broadcast use group_shows;

    if i < caps.len() - 1 {
        lemma_section_items(ui, base, caps.drop_last(), group, i);
    }
}

/// Every integration and every skill has its item in the menu, and every capability that is
/// on has its chip beside it, with the toggle of this conversation; where nothing is on,
/// there is no chip.
pub proof fn every_capability_is_offered(
    ui: &Ui,
    session_id: Seq<char>,
    caps: Seq<CapabilityRow>,
    open: bool,
    i: int,
)
    requires
        0 <= i < caps.len(),
    ensures
        ({
            let page = capabilities(ui, session_id, caps, open);
            let base = "/chat/"@ + session_id + "/capabilities"@;
            &&& caps[i].group@ == "Integrations"@ ==> shows(page, menu_item(ui, base, caps[i]))
                && shows(page, section_heading("Integrations"@))
            &&& caps[i].group@ == "Skills"@ ==> shows(page, menu_item(ui, base, caps[i])) && shows(
                page,
                section_heading("Skills"@),
            )
            &&& caps[i].enabled ==> shows(page, chip(ui, base, caps[i]))
            &&& (forall|k: int| 0 <= k < caps.len() ==> !(#[trigger] caps[k]).enabled) ==> chips(
                ui,
                base,
                caps,
            ).len() == 0
        }),
{
    broadcast use group_shows;

    let base = "/chat/"@ + session_id + "/capabilities"@;
    if caps[i].enabled {
        lemma_chips(ui, base, caps, i);
    }
    if caps[i].group@ == "Integrations"@ {
        lemma_section_items(ui, base, caps, "Integrations"@, i);
    }
    if caps[i].group@ == "Skills"@ {
        lemma_section_items(ui, base, caps, "Skills"@, i);
    }
    if forall|k: int| 0 <= k < caps.len() ==> !(#[trigger] caps[k]).enabled {
        lemma_no_chips(ui, base, caps);
    }
}

proof fn lemma_a_heading_shows_its_label()
    ensures
        ends_in(
            r#" border-radius:0.35rem">"#@,
            r#"border-radius:0.35rem">"#@,
        ),
{
    assert(ends_in(r#" border-radius:0.35rem">"#@, r#"border-radius:0.35rem">"#@)) by {
        reveal(ends_in);
        reveal_strlit(r#" border-radius:0.35rem">"#);
        reveal_strlit(r#"border-radius:0.35rem">"#);
        assert(r#" border-radius:0.35rem">"#@.skip(1) =~= r#"border-radius:0.35rem">"#@);
    }
}

/// A heading of the menu shows its label.
pub proof fn a_heading_shows_its_label(label: Seq<char>)
    ensures
        ({
            let page = section_heading(label);
            &&& shows(page, r#"border-radius:0.35rem">"#@ + escaped(label) + "</div>"@)
        }),
{
    broadcast use group_shows;

    lemma_a_heading_shows_its_label();
}

proof fn lemma_the_menu_is_open_or_shut()
    ensures
        ends_in(
            r#" data-show="$capMenu" style="display:"#@,
            r#"style="display:"#@,
        ),
        ends_in(
            r#" style="display:"#@,
            r#"style="display:"#@,
        ),
        starts_as(
            "; position:absolute; left:0; bottom:100%; margin-bottom:8px; width:19rem; z-index:30;"@,
            "; position:absolute;"@,
        ),
        shows(
            r#"<input type="text" placeholder="Search…" data-on:input="$capQuery ="#@,
            r#"<input type="text" placeholder="Search…""#@,
        ),
{
    assert(ends_in(r#" data-show="$capMenu" style="display:"#@, r#"style="display:"#@)) by {
        reveal(ends_in);
        reveal_strlit(r#" data-show="$capMenu" style="display:"#);
        reveal_strlit(r#"style="display:"#);
        assert(r#" data-show="$capMenu" style="display:"#@.skip(22) =~= r#"style="display:"#@);
    }
    assert(ends_in(r#" style="display:"#@, r#"style="display:"#@)) by {
        reveal(ends_in);
        reveal_strlit(r#" style="display:"#);
        reveal_strlit(r#"style="display:"#);
        assert(r#" style="display:"#@.skip(1) =~= r#"style="display:"#@);
    }
    assert(starts_as("; position:absolute; left:0; bottom:100%; margin-bottom:8px; width:19rem; z-index:30;"@, "; position:absolute;"@)) by {
        reveal(starts_as);
        reveal_strlit("; position:absolute; left:0; bottom:100%; margin-bottom:8px; width:19rem; z-index:30;");
        reveal_strlit("; position:absolute;");
        assert("; position:absolute; left:0; bottom:100%; margin-bottom:8px; width:19rem; z-index:30;"@.take(20) =~= "; position:absolute;"@);
    }
    assert(shows(r#"<input type="text" placeholder="Search…" data-on:input="$capQuery ="#@, r#"<input type="text" placeholder="Search…""#@)) by {
        reveal(shows);
        reveal_strlit(r#"<input type="text" placeholder="Search…" data-on:input="$capQuery ="#);
        reveal_strlit(r#"<input type="text" placeholder="Search…""#);
        assert(r#"<input type="text" placeholder="Search…" data-on:input="$capQuery ="#@.subrange(0, 40) =~= r#"<input type="text" placeholder="Search…""#@);
        assert(occurs_at(r#"<input type="text" placeholder="Search…" data-on:input="$capQuery ="#@, r#"<input type="text" placeholder="Search…""#@, 0));
    }
}

/// The menu is shown open where it is, and shut else; where it is long it can be searched, and
/// where it is empty it tells what to do.
pub proof fn the_menu_is_open_or_shut(ui: &Ui, session_id: Seq<char>, caps: Seq<CapabilityRow>, open: bool)
    ensures
        ({
            let page = capabilities_inner(ui, session_id, caps, open);
            &&& open ==> shows(page, r#"style="display:"#@ + "block"@ + "; position:absolute;"@)
            &&& !open ==> shows(page, r#"style="display:"#@ + "none"@ + "; position:absolute;"@)
            &&& caps.len() > 6 && has_section(caps, "Integrations"@) ==> shows(page, r#"<input type="text" placeholder="Search…""#@)
            &&& caps.len() > 6 && has_section(caps, "Skills"@) ==> shows(page, r#"<input type="text" placeholder="Search…""#@)
            &&& !has_section(caps, "Integrations"@) && !has_section(caps, "Skills"@) ==> shows(page, r#"<a href="/integrations" style="text-decoration:underline">Integrations</a>"#@)
        }),
{
    broadcast use group_shows;

    lemma_the_menu_is_open_or_shut();
}

proof fn lemma_the_effort_is_marked()
    ensures
        ends_in(
            r#"<select aria-label="Thinking effort" data-on:change="@post(&#39;/chat/"#@,
            "@post(&#39;/chat/"@,
        ),
        starts_as(
            r#"/effort?effort=&#39; + evt.target.value)" class="select select-sm" style="border:1px solid"#@,
            "/effort?effort=&#39; + evt.target.value)"@,
        ),
{
    assert(ends_in(r#"<select aria-label="Thinking effort" data-on:change="@post(&#39;/chat/"#@, "@post(&#39;/chat/"@)) by {
        reveal(ends_in);
        reveal_strlit(r#"<select aria-label="Thinking effort" data-on:change="@post(&#39;/chat/"#);
        reveal_strlit("@post(&#39;/chat/");
        assert(r#"<select aria-label="Thinking effort" data-on:change="@post(&#39;/chat/"#@.skip(53) =~= "@post(&#39;/chat/"@);
    }
    assert(starts_as(r#"/effort?effort=&#39; + evt.target.value)" class="select select-sm" style="border:1px solid"#@, "/effort?effort=&#39; + evt.target.value)"@)) by {
        reveal(starts_as);
        reveal_strlit(r#"/effort?effort=&#39; + evt.target.value)" class="select select-sm" style="border:1px solid"#);
        reveal_strlit("/effort?effort=&#39; + evt.target.value)");
        assert(r#"/effort?effort=&#39; + evt.target.value)" class="select select-sm" style="border:1px solid"#@.take(40) =~= "/effort?effort=&#39; + evt.target.value)"@);
    }
}

/// The chosen effort is marked among all of them, and a choice is sent to the conversation.
pub proof fn the_effort_is_marked(ui: &Ui, session_id: Seq<char>, effort: Effort)
    ensures
        ({
            let page = effort_select(ui, session_id, effort);
            &&& shows(page, "@post(&#39;/chat/"@ + escaped(session_id) + "/effort?effort=&#39; + evt.target.value)"@)
            &&& shows(page, choice("fast"@, "Fast"@, effort == Effort::Fast))
            &&& shows(page, choice("standard"@, "Standard"@, effort == Effort::Standard))
            &&& shows(page, choice("deep"@, "Deep"@, effort == Effort::Deep))
            &&& shows(page, choice("max"@, "Max"@, effort == Effort::Max))
        }),
{
    broadcast use group_shows;

    lemma_the_effort_is_marked();
}

proof fn lemma_sharing_is_switched()
    ensures
        ends_in(
            " @post(&#39;"@,
            "@post(&#39;"@,
        ),
        shows(
            "navigator.clipboard &amp;&amp; navigator.clipboard.writeText(window.location.href);"@,
            "navigator.clipboard.writeText(window.location.href);"@,
        ),
        ends_in(
            r#" signed-in user who has the link">"#@,
            r#"signed-in user who has the link">"#@,
        ),
{
    assert(ends_in(" @post(&#39;"@, "@post(&#39;"@)) by {
        reveal(ends_in);
        reveal_strlit(" @post(&#39;");
        reveal_strlit("@post(&#39;");
        assert(" @post(&#39;"@.skip(1) =~= "@post(&#39;"@);
    }
    assert(shows("navigator.clipboard &amp;&amp; navigator.clipboard.writeText(window.location.href);"@, "navigator.clipboard.writeText(window.location.href);"@)) by {
        reveal(shows);
        reveal_strlit("navigator.clipboard &amp;&amp; navigator.clipboard.writeText(window.location.href);");
        reveal_strlit("navigator.clipboard.writeText(window.location.href);");
        assert("navigator.clipboard &amp;&amp; navigator.clipboard.writeText(window.location.href);"@.subrange(31, 83) =~= "navigator.clipboard.writeText(window.location.href);"@);
        assert(occurs_at("navigator.clipboard &amp;&amp; navigator.clipboard.writeText(window.location.href);"@, "navigator.clipboard.writeText(window.location.href);"@, 31));
    }
    assert(ends_in(r#" signed-in user who has the link">"#@, r#"signed-in user who has the link">"#@)) by {
        reveal(ends_in);
        reveal_strlit(r#" signed-in user who has the link">"#);
        reveal_strlit(r#"signed-in user who has the link">"#);
        assert(r#" signed-in user who has the link">"#@.skip(1) =~= r#"signed-in user who has the link">"#@);
    }
}

/// The control of sharing posts to its address, tells whether the conversation is shared, and
/// copies the link when sharing begins.
pub proof fn sharing_is_switched(url: Seq<char>, shared: bool)
    ensures
        ({
            let page = share_control(url, shared);
            &&& shared ==> shows(page, "@post(&#39;"@ + escaped(url) + "&#39;)"@)
            &&& !shared ==> shows(page, " @post(&#39;"@ + escaped(url) + "&#39;)"@)
            &&& !shared ==> shows(page, "navigator.clipboard.writeText(window.location.href);"@)
            &&& shared ==> shows(page, r#"signed-in user who has the link">"#@ + "Shared ✓"@ + "</button>"@)
            &&& !shared ==> shows(page, r#"signed-in user who has the link">"#@ + "Share"@ + "</button>"@)
        }),
{
    broadcast use group_shows;

    lemma_sharing_is_switched();
}

proof fn lemma_a_copy_is_made_of_the_conversation()
    ensures
        ends_in(
            r#"<button id="fork-button" type="button" data-on:click="@post(&#39;/chat/"#@,
            "@post(&#39;/chat/"@,
        ),
        starts_as(
            r#"/fork&#39;)" class="btn btn-primary btn-sm whitespace-nowrap" title="Copy this conversation"#@,
            "/fork&#39;)"@,
        ),
{
    assert(ends_in(r#"<button id="fork-button" type="button" data-on:click="@post(&#39;/chat/"#@, "@post(&#39;/chat/"@)) by {
        reveal(ends_in);
        reveal_strlit(r#"<button id="fork-button" type="button" data-on:click="@post(&#39;/chat/"#);
        reveal_strlit("@post(&#39;/chat/");
        assert(r#"<button id="fork-button" type="button" data-on:click="@post(&#39;/chat/"#@.skip(54) =~= "@post(&#39;/chat/"@);
    }
    assert(starts_as(r#"/fork&#39;)" class="btn btn-primary btn-sm whitespace-nowrap" title="Copy this conversation"#@, "/fork&#39;)"@)) by {
        reveal(starts_as);
        reveal_strlit(r#"/fork&#39;)" class="btn btn-primary btn-sm whitespace-nowrap" title="Copy this conversation"#);
        reveal_strlit("/fork&#39;)");
        assert(r#"/fork&#39;)" class="btn btn-primary btn-sm whitespace-nowrap" title="Copy this conversation"#@.take(11) =~= "/fork&#39;)"@);
    }
}

/// The control of copying posts to the conversation.
pub proof fn a_copy_is_made_of_the_conversation(ui: &Ui, session_id: Seq<char>)
    ensures
        ({
            let page = fork_control(ui, session_id);
            &&& shows(page, "@post(&#39;/chat/"@ + escaped(session_id) + "/fork&#39;)"@)
        }),
{
    broadcast use group_shows;

    lemma_a_copy_is_made_of_the_conversation();
}

proof fn lemma_the_conversation_is_downloaded()
    ensures
        ends_in(
            r#"/export.pdf" download="download">PDF document</a></li><li><a href="/chat/"#@,
            r#"<a href="/chat/"#@,
        ),
        starts_as(
            r#"/export.pdf" download="download">PDF document</a></li><li><a href="/chat/"#@,
            r#"/export.pdf" download="download">PDF document</a>"#@,
        ),
        starts_as(
            r#"/export.md" download="download">Markdown (.md)</a></li></ul></details>"#@,
            r#"/export.md" download="download">Markdown (.md)</a>"#@,
        ),
{
    assert(ends_in(r#"/export.pdf" download="download">PDF document</a></li><li><a href="/chat/"#@, r#"<a href="/chat/"#@)) by {
        reveal(ends_in);
        reveal_strlit(r#"/export.pdf" download="download">PDF document</a></li><li><a href="/chat/"#);
        reveal_strlit(r#"<a href="/chat/"#);
        assert(r#"/export.pdf" download="download">PDF document</a></li><li><a href="/chat/"#@.skip(58) =~= r#"<a href="/chat/"#@);
    }
    assert(starts_as(r#"/export.pdf" download="download">PDF document</a></li><li><a href="/chat/"#@, r#"/export.pdf" download="download">PDF document</a>"#@)) by {
        reveal(starts_as);
        reveal_strlit(r#"/export.pdf" download="download">PDF document</a></li><li><a href="/chat/"#);
        reveal_strlit(r#"/export.pdf" download="download">PDF document</a>"#);
        assert(r#"/export.pdf" download="download">PDF document</a></li><li><a href="/chat/"#@.take(49) =~= r#"/export.pdf" download="download">PDF document</a>"#@);
    }
    assert(starts_as(r#"/export.md" download="download">Markdown (.md)</a></li></ul></details>"#@, r#"/export.md" download="download">Markdown (.md)</a>"#@)) by {
        reveal(starts_as);
        reveal_strlit(r#"/export.md" download="download">Markdown (.md)</a></li></ul></details>"#);
        reveal_strlit(r#"/export.md" download="download">Markdown (.md)</a>"#);
        assert(r#"/export.md" download="download">Markdown (.md)</a></li></ul></details>"#@.take(50) =~= r#"/export.md" download="download">Markdown (.md)</a>"#@);
    }
}

/// The conversation can be downloaded as a document and as text.
pub proof fn the_conversation_is_downloaded(ui: &Ui, session_id: Seq<char>)
    ensures
        ({
            let page = export_control(ui, session_id);
            &&& shows(page, r#"<a href="/chat/"#@ + escaped(session_id) + r#"/export.pdf" download="download">PDF document</a>"#@)
            &&& shows(page, r#"<a href="/chat/"#@ + escaped(session_id) + r#"/export.md" download="download">Markdown (.md)</a>"#@)
        }),
{
    broadcast use group_shows;

    lemma_the_conversation_is_downloaded();
}

proof fn lemma_flagged_models_are_warned_of()
    ensures
        starts_as(
            r#"" data-init="$selectedModel = document.getElementById(&#39;model&#39;)?.value ??"#@,
            r#"" data-init="$selectedModel"#@,
        ),
        shows(
            r#" data-show="$gdprFlagged.includes($selectedModel)" style="display:none">"#@,
            r#"data-show="$gdprFlagged.includes($selectedModel)""#@,
        ),
        shows(
            r#" data-show="$ndaFlagged.includes($selectedModel)" style="display:none">"#@,
            r#"data-show="$ndaFlagged.includes($selectedModel)""#@,
        ),
        shows(
            "You are sending data to a non-GDPR-compliant model. Do not enter personal information"@,
            "You are sending data to a non-GDPR-compliant model."@,
        ),
        shows(
            "This model is not covered by a confidentiality agreement. Do not send NDA-protected or"@,
            "This model is not covered by a confidentiality agreement."@,
        ),
{
    assert(starts_as(r#"" data-init="$selectedModel = document.getElementById(&#39;model&#39;)?.value ??"#@, r#"" data-init="$selectedModel"#@)) by {
        reveal(starts_as);
        reveal_strlit(r#"" data-init="$selectedModel = document.getElementById(&#39;model&#39;)?.value ??"#);
        reveal_strlit(r#"" data-init="$selectedModel"#);
        assert(r#"" data-init="$selectedModel = document.getElementById(&#39;model&#39;)?.value ??"#@.take(27) =~= r#"" data-init="$selectedModel"#@);
    }
    assert(shows(r#" data-show="$gdprFlagged.includes($selectedModel)" style="display:none">"#@, r#"data-show="$gdprFlagged.includes($selectedModel)""#@)) by {
        reveal(shows);
        reveal_strlit(r#" data-show="$gdprFlagged.includes($selectedModel)" style="display:none">"#);
        reveal_strlit(r#"data-show="$gdprFlagged.includes($selectedModel)""#);
        assert(r#" data-show="$gdprFlagged.includes($selectedModel)" style="display:none">"#@.subrange(1, 50) =~= r#"data-show="$gdprFlagged.includes($selectedModel)""#@);
        assert(occurs_at(r#" data-show="$gdprFlagged.includes($selectedModel)" style="display:none">"#@, r#"data-show="$gdprFlagged.includes($selectedModel)""#@, 1));
    }
    assert(shows(r#" data-show="$ndaFlagged.includes($selectedModel)" style="display:none">"#@, r#"data-show="$ndaFlagged.includes($selectedModel)""#@)) by {
        reveal(shows);
        reveal_strlit(r#" data-show="$ndaFlagged.includes($selectedModel)" style="display:none">"#);
        reveal_strlit(r#"data-show="$ndaFlagged.includes($selectedModel)""#);
        assert(r#" data-show="$ndaFlagged.includes($selectedModel)" style="display:none">"#@.subrange(1, 49) =~= r#"data-show="$ndaFlagged.includes($selectedModel)""#@);
        assert(occurs_at(r#" data-show="$ndaFlagged.includes($selectedModel)" style="display:none">"#@, r#"data-show="$ndaFlagged.includes($selectedModel)""#@, 1));
    }
    assert(shows("You are sending data to a non-GDPR-compliant model. Do not enter personal information"@, "You are sending data to a non-GDPR-compliant model."@)) by {
        reveal(shows);
        reveal_strlit("You are sending data to a non-GDPR-compliant model. Do not enter personal information");
        reveal_strlit("You are sending data to a non-GDPR-compliant model.");
        assert("You are sending data to a non-GDPR-compliant model. Do not enter personal information"@.subrange(0, 51) =~= "You are sending data to a non-GDPR-compliant model."@);
        assert(occurs_at("You are sending data to a non-GDPR-compliant model. Do not enter personal information"@, "You are sending data to a non-GDPR-compliant model."@, 0));
    }
    assert(shows("This model is not covered by a confidentiality agreement. Do not send NDA-protected or"@, "This model is not covered by a confidentiality agreement."@)) by {
        reveal(shows);
        reveal_strlit("This model is not covered by a confidentiality agreement. Do not send NDA-protected or");
        reveal_strlit("This model is not covered by a confidentiality agreement.");
        assert("This model is not covered by a confidentiality agreement. Do not send NDA-protected or"@.subrange(0, 57) =~= "This model is not covered by a confidentiality agreement."@);
        assert(occurs_at("This model is not covered by a confidentiality agreement. Do not send NDA-protected or"@, "This model is not covered by a confidentiality agreement."@, 0));
    }
}

/// The page knows which models are flagged, and warns of each kind that there is.
pub proof fn flagged_models_are_warned_of(ui: &Ui, models: Seq<ChatModelOption>)
    ensures
        ({
            let page = compliance_banners(ui, models);
            &&& shows(page, r#"<div data-signals=""#@ + escaped(signals_text(models, first_model(models))) + r#"" data-init="$selectedModel"#@)
            &&& gdpr_flagged(models).len() > 0 ==> shows(page, r#"data-show="$gdprFlagged.includes($selectedModel)""#@)
            &&& nda_flagged(models).len() > 0 ==> shows(page, r#"data-show="$ndaFlagged.includes($selectedModel)""#@)
            &&& gdpr_flagged(models).len() > 0 ==> shows(page, "You are sending data to a non-GDPR-compliant model."@)
            &&& nda_flagged(models).len() > 0 ==> shows(page, "This model is not covered by a confidentiality agreement."@)
        }),
{
    broadcast use group_shows;

    lemma_flagged_models_are_warned_of();
}

proof fn lemma_a_model_and_a_voice_are_picked()
    ensures
        shows(
            r#"<select id="voice-model" data-mic-model="1" aria-label="Voice model" class="select"#@,
            r#"<select id="voice-model" data-mic-model="1" aria-label="Voice model""#@,
        ),
{
    assert(shows(r#"<select id="voice-model" data-mic-model="1" aria-label="Voice model" class="select"#@, r#"<select id="voice-model" data-mic-model="1" aria-label="Voice model""#@)) by {
        reveal(shows);
        reveal_strlit(r#"<select id="voice-model" data-mic-model="1" aria-label="Voice model" class="select"#);
        reveal_strlit(r#"<select id="voice-model" data-mic-model="1" aria-label="Voice model""#);
        assert(r#"<select id="voice-model" data-mic-model="1" aria-label="Voice model" class="select"#@.subrange(0, 68) =~= r#"<select id="voice-model" data-mic-model="1" aria-label="Voice model""#@);
        assert(occurs_at(r#"<select id="voice-model" data-mic-model="1" aria-label="Voice model" class="select"#@, r#"<select id="voice-model" data-mic-model="1" aria-label="Voice model""#@, 0));
    }
}

/// The model is typed where none is known and picked else; a voice is picked where there is
/// one.
pub proof fn a_model_and_a_voice_are_picked(ui: &Ui, models: Seq<ChatModelOption>, voices: Seq<String>)
    ensures
        ({
            let page = pickers(ui, models, voices);
            &&& models.len() == 0 ==> shows(page, r#"<input id="model" name="model" form="chat-form" type="text" required="required""#@)
            &&& models.len() > 0 ==> shows(page, r#"<select id="model" name="model" form="chat-form" aria-label="Chat model""#@)
            &&& voices.len() > 0 ==> shows(page, r#"<select id="voice-model" data-mic-model="1" aria-label="Voice model""#@)
            &&& voices.len() > 0 ==> shows(page, choices(voices, None))
        }),
{
    broadcast use group_shows;

    lemma_a_model_and_a_voice_are_picked();
}

proof fn lemma_the_header_shows_the_conversation()
    ensures
        starts_as(
            r#"</h1></div><div class="flex items-center gap-2 ml-auto">"#@,
            "</h1>"@,
        ),
{
    assert(starts_as(r#"</h1></div><div class="flex items-center gap-2 ml-auto">"#@, "</h1>"@)) by {
        reveal(starts_as);
        reveal_strlit(r#"</h1></div><div class="flex items-center gap-2 ml-auto">"#);
        reveal_strlit("</h1>");
        assert(r#"</h1></div><div class="flex items-center gap-2 ml-auto">"#@.take(5) =~= "</h1>"@);
    }
}

/// The header shows the name of the conversation and its downloads; the owner gets the pickers
/// and the control of sharing, a reader the control of copying.
pub proof fn the_header_shows_the_conversation(ui: &Ui, of: ChatPage<'_>)
    ensures
        ({
            let page = page_header(ui, of);
            &&& of.active.title is Some ==> shows(page, r#"<h1 class="text-lg font-semibold truncate">"#@ + escaped(of.active.title->0@) + "</h1>"@)
            &&& of.active.title is None ==> shows(page, r#"<h1 class="text-lg font-semibold truncate">"#@ + escaped("New conversation"@) + "</h1>"@)
            &&& shows(page, export_control(ui, of.active.id@))
            &&& of.read_only ==> shows(page, fork_control(ui, of.active.id@))
            &&& !of.read_only ==> shows(page, pickers(ui, of.models@, of.transcription_models@))
            &&& !of.read_only ==> shows(page, share_control("/chat/"@ + of.active.id@ + "/share"@, of.shared))
        }),
{
    broadcast use group_shows;

    lemma_the_header_shows_the_conversation();
}

proof fn lemma_the_page_shows_the_conversation()
    ensures
        ends_in(
            r#"<div class="chat-shell" data-signals="{&quot;hasCanvas&quot;: "#@,
            "{&quot;hasCanvas&quot;: "@,
        ),
        starts_as(
            r#", &quot;canvasOpen&quot;: false}" data-init="$canvasOpen = $hasCanvas &amp;&amp;"#@,
            r#", &quot;canvasOpen&quot;: false}""#@,
        ),
{
    assert(ends_in(r#"<div class="chat-shell" data-signals="{&quot;hasCanvas&quot;: "#@, "{&quot;hasCanvas&quot;: "@)) by {
        reveal(ends_in);
        reveal_strlit(r#"<div class="chat-shell" data-signals="{&quot;hasCanvas&quot;: "#);
        reveal_strlit("{&quot;hasCanvas&quot;: ");
        assert(r#"<div class="chat-shell" data-signals="{&quot;hasCanvas&quot;: "#@.skip(38) =~= "{&quot;hasCanvas&quot;: "@);
    }
    assert(starts_as(r#", &quot;canvasOpen&quot;: false}" data-init="$canvasOpen = $hasCanvas &amp;&amp;"#@, r#", &quot;canvasOpen&quot;: false}""#@)) by {
        reveal(starts_as);
        reveal_strlit(r#", &quot;canvasOpen&quot;: false}" data-init="$canvasOpen = $hasCanvas &amp;&amp;"#);
        reveal_strlit(r#", &quot;canvasOpen&quot;: false}""#);
        assert(r#", &quot;canvasOpen&quot;: false}" data-init="$canvasOpen = $hasCanvas &amp;&amp;"#@.take(33) =~= r#", &quot;canvasOpen&quot;: false}""#@);
    }
}

/// The page shows the header, the conversation, the document beside it where there is one, and
/// what went wrong. The owner has the message field and the warnings of flagged models; a
/// reader is told that only the owner can reply.
#[verifier::rlimit(40)]
pub proof fn the_page_shows_the_conversation(ui: &Ui, of: ChatPage<'_>, conversation: Seq<char>, composer: Seq<char>)
    ensures
        ({
            let page = chat_page(ui, of, conversation, composer);
            &&& shows(page, page_header(ui, of))
            &&& shows(page, conversation)
            &&& !of.read_only ==> shows(page, composer)
            &&& of.read_only ==> shows(page, "<span>Shared chat — read-only. Only the creator can reply.</span></div>"@)
            &&& !of.read_only && of.models@.len() > 0 ==> shows(page, compliance_banners(ui, of.models@))
            &&& of.error_msg is Some ==> shows(page, "<span>"@ + escaped(of.error_msg->0@) + "</span></div>"@)
            &&& of.document_canvas is Some ==> shows(page, r#"<aside id="document-canvas-slot" class="canvas-col" data-show="$canvasOpen">"#@ + of.document_canvas->0@ + "</aside></div>"@)
            &&& of.document_canvas is Some ==> shows(page, "{&quot;hasCanvas&quot;: "@ + "true"@ + r#", &quot;canvasOpen&quot;: false}""#@)
            &&& of.document_canvas is None ==> shows(page, "{&quot;hasCanvas&quot;: "@ + "false"@ + r#", &quot;canvasOpen&quot;: false}""#@)
        }),
{
    broadcast use group_shows;

    lemma_the_page_shows_the_conversation();
}

/// A reply that is being written is followed at its address; the message field posts to the
/// conversation, stops the reply there, and tells whether it can be spoken to.
pub proof fn the_field_posts_to_the_conversation(
    ui: &Ui,
    page: &ChatPage<'_>,
    tail: Option<String>,
    r: Option<ComposerOpts>,
)
    requires
        call_ensures(tail_url, (page,), tail),
        call_ensures(composer_opts, (ui, page), r),
    ensures
        page.in_flight_turn_id is None <==> tail is None,
        tail matches Some(u) ==> u@ == "/chat/"@ + page.active.id@ + "/tail"@,
        page.read_only <==> r is None,
        r matches Some(o) ==> {
            &&& o.post_url@ == "/chat/"@ + page.active.id@ + "/messages"@
            &&& o.cancel_url@ == "/chat/"@ + page.active.id@ + "/cancel"@
            &&& o.placeholder@ == "Message the model…"@
            &&& o.has_voice <==> page.transcription_models@.len() > 0
            &&& o.streaming <==> page.in_flight_turn_id is Some
            &&& shows(o.toolbar@, capabilities(ui, page.active.id@, page.capabilities@, false))
            &&& shows(o.toolbar@, effort_select(ui, page.active.id@, page.effort))
        },
{
    broadcast use group_shows;

}

} // verus!
