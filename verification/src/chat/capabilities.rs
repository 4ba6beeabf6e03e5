//! What a conversation can use, and the switches for it.
//!
//! A tool or an integration is on, off or left to the model; a skill is loaded
//! or left to the model.
use crate::chat::render::{CapKind, CapabilityRow};
use crate::html::Ui;
use crate::integrations::{is_listed, listed};
use crate::order::{in_order, is_order, lemma_placed_at, placed, sorted, sorting_sorts};
use crate::text::{before_or_same, clone_opt, opt_text, same, text_le};
use crate::tool_toggles::{Category, CategoryView, ToolEntry};
use vstd::prelude::*;

verus! {

// ---------------------------------------------------------------------------
// States

/// The state of a capability in a conversation.
#[derive(Clone, Copy, PartialEq, Eq, Structural, Debug)]
pub enum ToolState {
    On,
    Off,
    /// Left to the model.
    Auto,
}

/// The state that a submitted word stands for.
pub open spec fn state_named(s: Seq<char>) -> Option<ToolState> {
    if s == "on"@ {
        Some(ToolState::On)
    } else if s == "off"@ {
        Some(ToolState::Off)
    } else if s == "auto"@ {
        Some(ToolState::Auto)
    } else {
        None
    }
}

/// The state that a recorded choice stands for.
pub open spec fn recorded(row: Option<bool>) -> ToolState {
    match row {
        Some(true) => ToolState::On,
        Some(false) => ToolState::Off,
        None => ToolState::Auto,
    }
}

impl ToolState {
    /// The state that a recorded choice stands for: without one it is left to
    /// the model.
    pub fn from_row(row: Option<bool>) -> (r: ToolState)
        ensures
            r == recorded(row),
    {
        match row {
            Some(b) => if b {
                ToolState::On
            } else {
                ToolState::Off
            },
            None => ToolState::Auto,
        }
    }
}

/// Reads the submitted state. A missing or unknown word is handed back.
pub fn read_state(state: Option<String>) -> (r: Result<ToolState, Option<String>>)
    ensures
        match state {
            Some(s) => match state_named(s@) {
                Some(t) => r == Ok::<ToolState, Option<String>>(t),
                None => r == Err::<ToolState, Option<String>>(state),
            },
            None => r == Err::<ToolState, Option<String>>(None),
        },
{
    let found = match &state {
        Some(s) => if same(s, "on") {
            Some(ToolState::On)
        } else if same(s, "off") {
            Some(ToolState::Off)
        } else if same(s, "auto") {
            Some(ToolState::Auto)
        } else {
            None
        },
        None => None,
    };
    match found {
        Some(t) => Ok(t),
        None => Err(state),
    }
}

/// A text as Rust source has it: in quotes, with escapes.
pub uninterp spec fn debug_of(s: Seq<char>) -> Seq<char>;

/// `Debug` of `str`: the text in quotes, with escapes for the characters that std
/// escapes. The result is named and not stated, as it rests on the Unicode tables.
#[verifier::external_body]
fn debug_text(s: &str) -> (r: String)
    ensures
        r@ == debug_of(s@),
{
    format!("{s:?}")
}

/// What is said of a state that is missing or unknown.
pub open spec fn unknown_state_words(state: Option<Seq<char>>) -> Seq<char> {
    "unknown capability state: "@ + match state {
        Some(s) => "Some("@ + debug_of(s) + ")"@,
        None => "None"@,
    }
}

/// Says that a state is missing or unknown.
pub fn unknown_state(state: &Option<String>) -> (r: String)
    ensures
        r@ == unknown_state_words(opt_text(*state)),
{
    let quoted = match state {
        Some(s) => Some(debug_text(s)),
        None => None,
    };
    quote_state(quoted)
}

/// Says that a state is missing or unknown, given how it is quoted.
pub fn quote_state(quoted: Option<String>) -> (r: String)
    ensures
        r@ == "unknown capability state: "@ + (match quoted {
            Some(q) => "Some("@ + q@ + ")"@,
            None => "None"@,
        }),
{
    let mut out = "unknown capability state: ".to_owned();
    match quoted {
        Some(q) => {
            let mut inner = "Some(".to_owned();
            inner.append(&q);
            inner.append(")");
            out.append(&inner);
        },
        None => {
            out.append("None");
        },
    }
    out
}

/// What is written to put a capability into a state.
#[derive(Clone, Copy, PartialEq, Eq, Structural, Debug)]
pub enum OverlayWrite {
    /// Record a choice for a tool.
    Record(bool),
    /// Drop the choice for a tool.
    Drop,
    /// Record a skill as loaded.
    Load,
    /// Forget a loaded skill.
    Unload,
}

/// What is written to put a capability into a state. A skill has two states
/// only: what is not on is unloaded.
pub open spec fn overlay_write(kind: CapKind, target: ToolState) -> OverlayWrite {
    match kind {
        CapKind::Skill => if target == ToolState::On {
            OverlayWrite::Load
        } else {
            OverlayWrite::Unload
        },
        CapKind::Tool => match target {
            ToolState::On => OverlayWrite::Record(true),
            ToolState::Off => OverlayWrite::Record(false),
            ToolState::Auto => OverlayWrite::Drop,
        },
    }
}

/// Decides what is written to put a capability into a state.
pub fn apply_capability_state(kind: CapKind, target: ToolState) -> (r: OverlayWrite)
    ensures
        r == overlay_write(kind, target),
{
    match kind {
        CapKind::Skill => if target == ToolState::On {
            OverlayWrite::Load
        } else {
            OverlayWrite::Unload
        },
        CapKind::Tool => match target {
            ToolState::On => OverlayWrite::Record(true),
            ToolState::Off => OverlayWrite::Record(false),
            ToolState::Auto => OverlayWrite::Drop,
        },
    }
}

/// The recorded choice for a tool after a write.
pub open spec fn row_after(write: OverlayWrite, before: Option<bool>) -> Option<bool> {
    match write {
        OverlayWrite::Record(b) => Some(b),
        OverlayWrite::Drop => None,
        _ => before,
    }
}

/// A tool that was put into a state is in that state, whatever was recorded
/// before.
pub proof fn tool_state_reads_back(target: ToolState, before: Option<bool>)
    ensures
        recorded(row_after(overlay_write(CapKind::Tool, target), before)) == target,
{
}

// ---------------------------------------------------------------------------
// The list

/// What a conversation can use.
pub struct Capability {
    pub key: String,
    pub kind: CapKind,
    pub label: String,
    pub description: String,
    pub group: String,
    pub group_slug: String,
    pub order: u32,
    pub state: ToolState,
    pub icon: Option<String>,
}

/// A [`Capability`] over texts.
pub ghost struct CapabilityView {
    pub key: Seq<char>,
    pub kind: CapKind,
    pub label: Seq<char>,
    pub description: Seq<char>,
    pub group: Seq<char>,
    pub group_slug: Seq<char>,
    pub order: u32,
    pub state: ToolState,
    pub icon: Option<Seq<char>>,
}

impl View for Capability {
    type V = CapabilityView;

    open spec fn view(&self) -> CapabilityView {
        CapabilityView {
            key: self.key@,
            kind: self.kind,
            label: self.label@,
            description: self.description@,
            group: self.group@,
            group_slug: self.group_slug@,
            order: self.order,
            state: self.state,
            icon: opt_text(self.icon),
        }
    }
}

/// The views of a list.
pub open spec fn cap_views(v: Seq<Capability>) -> Seq<CapabilityView> {
    v.map_values(|c: Capability| c@)
}

/// A capability that a catalog offers: its key, what it is called and what it
/// does, in a section.
pub open spec fn offered(
    key: Seq<char>,
    kind: CapKind,
    label: Seq<char>,
    description: Seq<char>,
    section: CategoryView,
    state: ToolState,
    icon: Option<Seq<char>>,
) -> CapabilityView {
    CapabilityView {
        key,
        kind,
        label,
        description,
        group: section.label,
        group_slug: section.slug,
        order: section.order,
        state,
        icon,
    }
}

/// A recorded choice for a tool.
pub struct ToolChoice {
    pub key: String,
    pub enabled: bool,
}

/// The recorded choice for a key.
pub open spec fn choice_for(choices: Seq<ToolChoice>, key: Seq<char>) -> Option<bool>
    decreases choices.len(),
{
    if choices.len() == 0 {
        None
    } else if choices[0].key@ == key {
        Some(choices[0].enabled)
    } else {
        choice_for(choices.drop_first(), key)
    }
}

fn find_choice(choices: &Vec<ToolChoice>, key: &str) -> (r: Option<bool>)
    ensures
        r == choice_for(choices@, key@),
{
    assert(choices@.skip(0) =~= choices@);
    for i in 0..choices.len()
        invariant
            choice_for(choices@, key@) == choice_for(choices@.skip(i as int), key@),
    {
        assert(choices@.skip(i as int).drop_first() =~= choices@.skip(i + 1));
        if same(&choices[i].key, key) {
            return Some(choices[i].enabled);
        }
    }
    None
}

/// An integration that the user has connected.
pub struct ConnectedInfo {
    pub key: String,
    pub name: String,
    pub description: Option<String>,
    pub icon: Option<String>,
    pub enabled: bool,
    /// Whether the user's groups may use it.
    pub allowed: bool,
}

/// A skill that the user may load, with its title and description if it is
/// installed.
pub struct SkillInfo {
    pub name: String,
    pub card: Option<(String, String)>,
}

/// What a conversation's menu is made of.
pub struct CapabilitySources {
    pub entries: Vec<ToolEntry>,
    pub choices: Vec<ToolChoice>,
    pub connected: Vec<ConnectedInfo>,
    pub skills: Vec<SkillInfo>,
    pub loaded: Vec<String>,
    /// The section of the integrations.
    pub integrations: Category,
    /// The word that stands for the section of the skills in an address.
    pub skill_slug: String,
    /// The place of the section of the skills among the others.
    pub skill_order: u32,
}

/// The section of the skills.
pub open spec fn skill_section(src: &CapabilitySources) -> CategoryView {
    CategoryView { label: "Skills"@, slug: src.skill_slug@, order: src.skill_order }
}

/// The tools. Integrations are left out here: those that are connected come with
/// their own names.
pub open spec fn tool_rows(src: &CapabilitySources, entries: Seq<ToolEntry>) -> Seq<CapabilityView>
    decreases entries.len(),
{
    if entries.len() == 0 {
        Seq::empty()
    } else {
        let head = tool_rows(src, entries.drop_last());
        let e = entries.last();
        if e.category@ == src.integrations@ {
            head
        } else {
            head.push(
                offered(
                    e.key@,
                    CapKind::Tool,
                    e.title@,
                    e.description@,
                    e.category@,
                    recorded(choice_for(src.choices@, e.key@)),
                    None,
                ),
            )
        }
    }
}

/// The connected integrations that are enabled and that the user may use. One
/// switch governs all tools of an integration.
pub open spec fn connector_rows(
    ui: &Ui,
    src: &CapabilitySources,
    connected: Seq<ConnectedInfo>,
) -> Seq<CapabilityView>
    decreases connected.len(),
{
    if connected.len() == 0 {
        Seq::empty()
    } else {
        let head = connector_rows(ui, src, connected.drop_last());
        let c = connected.last();
        if !c.enabled || !c.allowed {
            head
        } else {
            let key = "mcp__"@ + c.key@;
            let description = match c.description {
                Some(d) => d@,
                None => ui.message_with("chat-mcp-bridged-description"@, "name"@, c.name@),
            };
            head.push(
                offered(
                    key,
                    CapKind::Tool,
                    c.name@,
                    description,
                    src.integrations@,
                    recorded(choice_for(src.choices@, key)),
                    opt_text(c.icon),
                ),
            )
        }
    }
}

/// The skills, by their titles; one that is not installed by its name.
pub open spec fn skill_rows(src: &CapabilitySources, skills: Seq<SkillInfo>) -> Seq<CapabilityView>
    decreases skills.len(),
{
    if skills.len() == 0 {
        Seq::empty()
    } else {
        let s = skills.last();
        let (label, description) = match s.card {
            Some((t, d)) => (t@, d@),
            None => (s.name@, ""@),
        };
        skill_rows(src, skills.drop_last()).push(
            offered(
                s.name@,
                CapKind::Skill,
                label,
                description,
                skill_section(src),
                if listed(src.loaded@, s.name@) {
                    ToolState::On
                } else {
                    ToolState::Auto
                },
                None,
            ),
        )
    }
}

/// Order of the menu: by section, within a section by label.
pub open spec fn row_le(a: CapabilityView, b: CapabilityView) -> bool {
    a.order < b.order || (a.order == b.order && text_le(a.label, b.label))
}

/// Order of the menu.
pub open spec fn menu_order() -> spec_fn(CapabilityView, CapabilityView) -> bool {
    |a: CapabilityView, b: CapabilityView| row_le(a, b)
}

fn before(a: &Capability, b: &Capability) -> (r: bool)
    ensures
        r == row_le(a@, b@),
{
    a.order < b.order || (a.order == b.order && before_or_same(&a.label, &b.label))
}

fn place(out: &mut Vec<Capability>, c: Capability)
    ensures
        cap_views(final(out)@) == placed(menu_order(), cap_views(old(out)@), c@),
{
    let ghost old_views = cap_views(out@);
    let mut k: usize = out.len();
    while k > 0 && !before(&out[k - 1], &c)
        invariant
            k <= out@.len(),
            forall|j: int| k <= j < out@.len() ==> !row_le(#[trigger] out@[j]@, c@),
        decreases k,
    {
        k = k - 1;
    }
    proof {
        assert forall|j: int| k <= j < old_views.len() implies !row_le(
            #[trigger] old_views[j],
            c@,
        ) by {
            assert(old_views[j] == out@[j]@);
        }
        if k > 0 {
            assert(old_views[k - 1] == out@[k - 1]@);
        }
        lemma_placed_at(menu_order(), old_views, c@, k as int);
    }
    let ghost cv = c@;
    out.insert(k, c);
    assert(cap_views(out@) =~= old_views.insert(k as int, cv));
}

fn make(
    key: String,
    kind: CapKind,
    label: String,
    description: String,
    section: &Category,
    state: ToolState,
    icon: Option<String>,
) -> (r: Capability)
    ensures
        r@ == offered(key@, kind, label@, description@, section@, state, opt_text(icon)),
{
    Capability {
        key,
        kind,
        label,
        description,
        group: section.label.clone(),
        group_slug: section.slug.clone(),
        order: section.order,
        state,
        icon,
    }
}

/// All rows, before they are sorted.
pub open spec fn unsorted(ui: &Ui, src: &CapabilitySources) -> Seq<CapabilityView> {
    tool_rows(src, src.entries@) + connector_rows(ui, src, src.connected@) + skill_rows(
        src,
        src.skills@,
    )
}

fn add_tools(src: &CapabilitySources, out: &mut Vec<Capability>)
    requires
        old(out)@.len() == 0,
    ensures
        cap_views(final(out)@) == sorted(menu_order(), tool_rows(src, src.entries@)),
{
    let entries = &src.entries;
    assert(cap_views(out@) =~= sorted(menu_order(), tool_rows(src, entries@.take(0))));
    for i in 0..entries.len()
        invariant
            entries == &src.entries,
            cap_views(out@) == sorted(menu_order(), tool_rows(src, entries@.take(i as int))),
    {
        assert(entries@.take(i + 1).drop_last() =~= entries@.take(i as int));
        let ghost head = tool_rows(src, entries@.take(i as int));
        let e = &entries[i];
        if !e.category.same_as(&src.integrations) {
            let state = ToolState::from_row(find_choice(&src.choices, &e.key));
            let row = make(
                e.key.clone(),
                CapKind::Tool,
                e.title.clone(),
                e.description.clone(),
                &e.category,
                state,
                None,
            );
            proof {
                assert(head.push(row@).drop_last() =~= head);
            }
            place(out, row);
        }
    }
    assert(entries@.take(entries@.len() as int) =~= entries@);
}

fn add_connectors(ui: &Ui, src: &CapabilitySources, out: &mut Vec<Capability>)
    requires
        cap_views(old(out)@) == sorted(menu_order(), tool_rows(src, src.entries@)),
    ensures
        cap_views(final(out)@) == sorted(menu_order(), 
            tool_rows(src, src.entries@) + connector_rows(ui, src, src.connected@),
        ),
{
    let connected = &src.connected;
    let ghost base = tool_rows(src, src.entries@);
    assert(base + connector_rows(ui, src, connected@.take(0)) =~= base);
    for i in 0..connected.len()
        invariant
            connected == &src.connected,
            cap_views(out@) == sorted(menu_order(), base + connector_rows(ui, src, connected@.take(i as int))),
    {
        assert(connected@.take(i + 1).drop_last() =~= connected@.take(i as int));
        let ghost head = connector_rows(ui, src, connected@.take(i as int));
        let c = &connected[i];
        if c.enabled && c.allowed {
            let mut key = "mcp__".to_owned();
            key.append(&c.key);
            let state = ToolState::from_row(find_choice(&src.choices, &key));
            let description = match &c.description {
                Some(d) => d.clone(),
                None => ui.t_with("chat-mcp-bridged-description", "name", &c.name),
            };
            let row = make(
                key,
                CapKind::Tool,
                c.name.clone(),
                description,
                &src.integrations,
                state,
                clone_opt(&c.icon),
            );
            proof {
                assert((base + head.push(row@)).drop_last() =~= base + head);
            }
            place(out, row);
        }
    }
    assert(connected@.take(connected@.len() as int) =~= connected@);
}

fn add_skills(ui: &Ui, src: &CapabilitySources, out: &mut Vec<Capability>)
    requires
        cap_views(old(out)@) == sorted(menu_order(), 
            tool_rows(src, src.entries@) + connector_rows(ui, src, src.connected@),
        ),
    ensures
        cap_views(final(out)@) == sorted(menu_order(), unsorted(ui, src)),
{
    let skills = &src.skills;
    let section = Category {
        label: "Skills".to_owned(),
        slug: src.skill_slug.clone(),
        order: src.skill_order,
    };
    let ghost base = tool_rows(src, src.entries@) + connector_rows(ui, src, src.connected@);
    assert(base + skill_rows(src, skills@.take(0)) =~= base);
    for i in 0..skills.len()
        invariant
            skills == &src.skills,
            section@ == skill_section(src),
            cap_views(out@) == sorted(menu_order(), base + skill_rows(src, skills@.take(i as int))),
    {
        assert(skills@.take(i + 1).drop_last() =~= skills@.take(i as int));
        let ghost head = skill_rows(src, skills@.take(i as int));
        let s = &skills[i];
        let state = if is_listed(&src.loaded, &s.name) {
            ToolState::On
        } else {
            ToolState::Auto
        };
        let (label, description) = match &s.card {
            Some((t, d)) => (t.clone(), d.clone()),
            None => (s.name.clone(), "".to_owned()),
        };
        let row = make(
            s.name.clone(),
            CapKind::Skill,
            label,
            description,
            &section,
            state,
            None,
        );
        proof {
            assert((base + head.push(row@)).drop_last() =~= base + head);
        }
        place(out, row);
    }
    assert(skills@.take(skills@.len() as int) =~= skills@);
}

/// What a conversation can use, in the order of the menu.
pub open spec fn menu(ui: &Ui, src: &CapabilitySources) -> Seq<CapabilityView> {
    sorted(menu_order(), unsorted(ui, src))
}

/// Lists what a conversation can use: the tools that the user's roles give, the
/// connected integrations, and the skills, in the order of the menu.
pub fn build_capabilities(ui: &Ui, src: &CapabilitySources) -> (r: Vec<Capability>)
    ensures
        cap_views(r@) == menu(ui, src),
{
    let mut out: Vec<Capability> = Vec::new();
    add_tools(src, &mut out);
    add_connectors(ui, src, &mut out);
    add_skills(ui, src, &mut out);
    out
}

/// Whether a row of the menu stands for a capability: on or not.
pub open spec fn is_row_of(row: CapabilityRow, c: CapabilityView) -> bool {
    &&& row.key@ == c.key
    &&& row.kind == c.kind
    &&& row.label@ == c.label
    &&& row.group@ == c.group
    &&& row.enabled == (c.state == ToolState::On)
    &&& opt_text(row.icon) == c.icon
}

/// The row of the menu for a capability.
pub fn menu_row(c: &Capability) -> (r: CapabilityRow)
    ensures
        is_row_of(r, c@),
{
    CapabilityRow {
        key: c.key.clone(),
        kind: c.kind,
        label: c.label.clone(),
        group: c.group.clone(),
        enabled: c.state == ToolState::On,
        icon: clone_opt(&c.icon),
    }
}

/// Whether the rows of a menu stand for capabilities, one for each and in their
/// order.
pub open spec fn are_rows_of(rows: Seq<CapabilityRow>, caps: Seq<CapabilityView>) -> bool {
    &&& rows.len() == caps.len()
    &&& forall|i: int| 0 <= i < rows.len() ==> is_row_of(#[trigger] rows[i], caps[i])
}

/// The rows of the menu.
pub fn menu_rows(caps: &Vec<Capability>) -> (r: Vec<CapabilityRow>)
    ensures
        are_rows_of(r@, cap_views(caps@)),
{
    let mut out: Vec<CapabilityRow> = Vec::new();
    for i in 0..caps.len()
        invariant
            out@.len() == i,
            forall|k: int| 0 <= k < i ==> is_row_of(#[trigger] out@[k], caps@[k]@),
    {
        out.push(menu_row(&caps[i]));
    }
    out
}

// ---------------------------------------------------------------------------
// Which capabilities a click changes

/// A capability to change.
pub ghost struct TargetView {
    pub kind: CapKind,
    pub key: Seq<char>,
}

/// The capabilities of a section; all of them when no section is given.
pub open spec fn members(caps: Seq<CapabilityView>, slug: Option<Seq<char>>) -> Seq<TargetView>
    decreases caps.len(),
{
    if caps.len() == 0 {
        Seq::empty()
    } else {
        let head = members(caps.drop_last(), slug);
        if slug is None || caps.last().group_slug == slug->0 {
            head.push(TargetView { kind: caps.last().kind, key: caps.last().key })
        } else {
            head
        }
    }
}

/// The capabilities that a click changes: all, those of a section, or one.
pub open spec fn click_targets(
    caps: Seq<CapabilityView>,
    kind: Seq<char>,
    key: Seq<char>,
) -> Seq<TargetView> {
    if kind == "all"@ {
        members(caps, None)
    } else if kind == "group"@ {
        members(caps, Some(key))
    } else if kind == "skill"@ {
        seq![TargetView { kind: CapKind::Skill, key }]
    } else {
        seq![TargetView { kind: CapKind::Tool, key }]
    }
}

/// The views of a list of targets.
pub open spec fn target_views(v: Seq<(CapKind, String)>) -> Seq<TargetView> {
    v.map_values(|t: (CapKind, String)| TargetView { kind: t.0, key: t.1@ })
}

fn collect(caps: &Vec<Capability>, slug: Option<&str>) -> (r: Vec<(CapKind, String)>)
    ensures
        target_views(r@) == members(
            cap_views(caps@),
            match slug {
                Some(s) => Some(s@),
                None => None,
            },
        ),
{
    let ghost want: Option<Seq<char>> = match slug {
        Some(s) => Some(s@),
        None => None,
    };
    let ghost view = cap_views(caps@);
    let mut out: Vec<(CapKind, String)> = Vec::new();
    assert(target_views(out@) =~= members(view.take(0), want));
    for i in 0..caps.len()
        invariant
            view == cap_views(caps@),
            want == (match slug {
                Some(s) => Some(s@),
                None => None::<Seq<char>>,
            }),
            target_views(out@) == members(view.take(i as int), want),
    {
        assert(view.take(i + 1).drop_last() =~= view.take(i as int));
        assert(view.take(i + 1).last() == caps@[i as int]@);
        let ghost before = target_views(out@);
        let take = match slug {
            Some(s) => same(&caps[i].group_slug, s),
            None => true,
        };
        if take {
            out.push((caps[i].kind, caps[i].key.clone()));
            assert(target_views(out@) =~= before.push(
                TargetView { kind: caps@[i as int].kind, key: caps@[i as int].key@ },
            ));
        }
    }
    assert(view.take(view.len() as int) =~= view);
    out
}

/// Finds the capabilities that a click changes. A section has exactly the
/// members that are on screen.
pub fn targets(caps: &Vec<Capability>, kind: &str, key: &str) -> (r: Vec<(CapKind, String)>)
    ensures
        target_views(r@) == click_targets(cap_views(caps@), kind@, key@),
{
    if same(kind, "all") {
        collect(caps, None)
    } else if same(kind, "group") {
        collect(caps, Some(key))
    } else {
        let what = if same(kind, "skill") {
            CapKind::Skill
        } else {
            CapKind::Tool
        };
        let mut out: Vec<(CapKind, String)> = Vec::new();
        out.push((what, key.to_owned()));
        assert(target_views(out@) =~= seq![TargetView { kind: what, key: key@ }]);
        out
    }
}

// ---------------------------------------------------------------------------
// Laws

proof fn lemma_menu_order()
    ensures
        is_order(menu_order()),
{
    let le = menu_order();
    assert forall|a: CapabilityView, b: CapabilityView| #[trigger] le(a, b) || le(b, a) by {
        crate::text::lemma_text_le_total(a.label, b.label);
    }
    assert forall|a: CapabilityView, b: CapabilityView, c: CapabilityView|
        #[trigger] le(a, b) && #[trigger] le(b, c) implies le(a, c) by {
        if a.order == b.order && b.order == c.order {
            crate::text::lemma_text_le_transitive(a.label, b.label, c.label);
        }
    }
}

/// The menu is in order, and holds what there is, no more and no less.
pub proof fn menu_is_sorted(ui: &Ui, src: &CapabilitySources)
    ensures
        in_order(menu_order(), menu(ui, src)),
        menu(ui, src).to_multiset() == unsorted(ui, src).to_multiset(),
{
    lemma_menu_order();
    sorting_sorts(menu_order(), unsorted(ui, src));
}

proof fn lemma_choice(choices: Seq<ToolChoice>, key: Seq<char>)
    ensures
        choice_for(choices, key) is None <==> forall|k: int|
            0 <= k < choices.len() ==> (#[trigger] choices[k]).key@ != key,
        choice_for(choices, key) matches Some(b) ==> exists|k: int|
            0 <= k < choices.len() && (#[trigger] choices[k]).key@ == key && choices[k].enabled == b
                && forall|j: int| 0 <= j < k ==> (#[trigger] choices[j]).key@ != key,
    decreases choices.len(),
{
    if choices.len() > 0 && choices[0].key@ != key {
        let rest = choices.drop_first();
        lemma_choice(rest, key);
        if choice_for(rest, key) is None {
            assert forall|k: int| 0 <= k < choices.len() implies (#[trigger] choices[k]).key@
                != key by {
                if k > 0 {
                    assert(rest[k - 1] == choices[k]);
                }
            }
        } else {
            let b = choice_for(rest, key)->0;
            let k = choose|k: int|
                0 <= k < rest.len() && (#[trigger] rest[k]).key@ == key && rest[k].enabled == b
                    && forall|j: int| 0 <= j < k ==> (#[trigger] rest[j]).key@ != key;
            assert(choices[k + 1] == rest[k]);
            assert forall|j: int| 0 <= j < k + 1 implies (#[trigger] choices[j]).key@ != key by {
                if j > 0 {
                    assert(rest[j - 1] == choices[j]);
                }
            }
        }
    } else if choices.len() > 0 {
        assert(choices[0].key@ == key);
    }
}

/// Whether a state is what the choices record for a key: on or off as the first choice
/// for the key says, and left to the model without one.
pub open spec fn is_recorded(
    choices: Seq<ToolChoice>,
    key: Seq<char>,
    state: ToolState,
) -> bool {
    match state {
        ToolState::Auto => forall|k: int|
            0 <= k < choices.len() ==> (#[trigger] choices[k]).key@ != key,
        _ => exists|k: int|
            0 <= k < choices.len() && (#[trigger] choices[k]).key@ == key && choices[k].enabled == (
            state == ToolState::On) && forall|j: int|
                0 <= j < k ==> (#[trigger] choices[j]).key@ != key,
    }
}

proof fn lemma_recorded(choices: Seq<ToolChoice>, key: Seq<char>)
    ensures
        is_recorded(choices, key, recorded(choice_for(choices, key))),
        forall|s: ToolState| is_recorded(choices, key, s) ==> s == recorded(choice_for(choices, key)),
{
    lemma_choice(choices, key);
    let found = choice_for(choices, key);
    assert forall|s: ToolState| is_recorded(choices, key, s) implies s == recorded(found) by {
        if s != ToolState::Auto {
            let k = choose|k: int|
                0 <= k < choices.len() && (#[trigger] choices[k]).key@ == key && choices[k].enabled
                    == (s == ToolState::On) && forall|j: int|
                    0 <= j < k ==> (#[trigger] choices[j]).key@ != key;
            let m = choose|m: int|
                0 <= m < choices.len() && (#[trigger] choices[m]).key@ == key && choices[m].enabled
                    == found->0 && forall|j: int|
                    0 <= j < m ==> (#[trigger] choices[j]).key@ != key;
            assert(!(k < m) && !(m < k));
        }
    }
}

/// Whether a row of the menu is that of a tool: called as the tool is, in its section,
/// in the state that is recorded for its key.
pub open spec fn is_tool_row(src: &CapabilitySources, e: ToolEntry, row: CapabilityView) -> bool {
    &&& row.kind == CapKind::Tool
    &&& row.key == e.key@
    &&& row.label == e.title@
    &&& row.description == e.description@
    &&& row.group == e.category.label@
    &&& row.group_slug == e.category.slug@
    &&& row.order == e.category.order
    &&& row.icon is None
    &&& is_recorded(src.choices@, e.key@, row.state)
}

/// Whether a row of the menu is that of an integration: called as it is, in the section
/// of the integrations, with its own mark and in the state recorded for all its tools.
#[verifier::opaque]
pub open spec fn is_connector_row(
    ui: &Ui,
    src: &CapabilitySources,
    c: ConnectedInfo,
    row: CapabilityView,
) -> bool {
    &&& row.kind == CapKind::Tool
    &&& row.key == "mcp__"@ + c.key@
    &&& row.label == c.name@
    &&& c.description matches Some(d) ==> row.description == d@
    &&& c.description is None ==> row.description == ui.message_with(
        "chat-mcp-bridged-description"@,
        "name"@,
        c.name@,
    )
    &&& row.group == src.integrations.label@
    &&& row.group_slug == src.integrations.slug@
    &&& row.order == src.integrations.order
    &&& row.icon == opt_text(c.icon)
    &&& is_recorded(src.choices@, "mcp__"@ + c.key@, row.state)
}

/// Whether a row of the menu is that of a skill: called by its title, by its name where
/// it is not installed, and on if and only if it is loaded.
pub open spec fn is_skill_row(src: &CapabilitySources, s: SkillInfo, row: CapabilityView) -> bool {
    &&& row.kind == CapKind::Skill
    &&& row.key == s.name@
    &&& s.card matches Some(card) ==> row.label == card.0@ && row.description == card.1@
    &&& s.card is None ==> row.label == s.name@ && row.description == ""@
    &&& row.group == "Skills"@
    &&& row.group_slug == src.skill_slug@
    &&& row.order == src.skill_order
    &&& row.icon is None
    &&& row.state == ToolState::On <==> exists|k: int|
        0 <= k < src.loaded@.len() && (#[trigger] src.loaded@[k])@ == s.name@
    &&& row.state != ToolState::Off
}

proof fn lemma_tool_rows(src: &CapabilitySources, entries: Seq<ToolEntry>)
    ensures
        forall|i: int|
            0 <= i < entries.len() && (#[trigger] entries[i]).category@ != src.integrations@
                ==> exists|k: int|
                0 <= k < tool_rows(src, entries).len() && is_tool_row(
                    src,
                    entries[i],
                    #[trigger] tool_rows(src, entries)[k],
                ),
        forall|k: int|
            0 <= k < tool_rows(src, entries).len() ==> exists|i: int|
                0 <= i < entries.len() && (#[trigger] entries[i]).category@ != src.integrations@
                    && is_tool_row(src, entries[i], #[trigger] tool_rows(src, entries)[k]),
    decreases entries.len(),
{
    if entries.len() > 0 {
        let d = entries.drop_last();
        let head = tool_rows(src, d);
        let all = tool_rows(src, entries);
        let last = entries.last();
        lemma_tool_rows(src, d);
        lemma_recorded(src.choices@, last.key@);
        assert forall|i: int|
            0 <= i < entries.len() && (#[trigger] entries[i]).category@
                != src.integrations@ implies exists|k: int|
            0 <= k < all.len() && is_tool_row(src, entries[i], #[trigger] all[k]) by {
            if i < d.len() {
                assert(d[i] == entries[i]);
                let k = choose|k: int|
                    0 <= k < head.len() && is_tool_row(src, d[i], #[trigger] head[k]);
                assert(all[k] == head[k]);
            } else {
                assert(is_tool_row(src, entries[i], all[all.len() - 1]));
            }
        }
        assert forall|k: int| 0 <= k < all.len() implies exists|i: int|
            0 <= i < entries.len() && (#[trigger] entries[i]).category@ != src.integrations@
                && is_tool_row(src, entries[i], #[trigger] all[k]) by {
            if k < head.len() {
                assert(all[k] == head[k]);
                let i = choose|i: int|
                    0 <= i < d.len() && (#[trigger] d[i]).category@ != src.integrations@
                        && is_tool_row(src, d[i], head[k]);
                assert(entries[i] == d[i]);
            } else {
                assert(is_tool_row(src, entries[entries.len() - 1], all[k]));
            }
        }
    }
}

proof fn lemma_connector_row(ui: &Ui, src: &CapabilitySources, connected: Seq<ConnectedInfo>)
    requires
        connected.len() > 0,
        connected.last().enabled,
        connected.last().allowed,
    ensures
        connector_rows(ui, src, connected).len() > 0,
        is_connector_row(
            ui,
            src,
            connected.last(),
            connector_rows(ui, src, connected).last(),
        ),
{
    reveal(is_connector_row);
    lemma_recorded(src.choices@, "mcp__"@ + connected.last().key@);
}

proof fn lemma_loaded(loaded: Seq<String>, name: Seq<char>)
    ensures
        listed(loaded, name) <==> exists|k: int|
            0 <= k < loaded.len() && (#[trigger] loaded[k])@ == name,
{
    let t = crate::text::texts(loaded);
    if listed(loaded, name) {
        let k = choose|k: int| 0 <= k < t.len() && t[k] == name;
        assert(loaded[k]@ == name);
    }
    if exists|k: int| 0 <= k < loaded.len() && (#[trigger] loaded[k])@ == name {
        let k = choose|k: int| 0 <= k < loaded.len() && (#[trigger] loaded[k])@ == name;
        assert(t[k] == name);
    }
}

spec fn is_of_connected(
    ui: &Ui,
    src: &CapabilitySources,
    connected: Seq<ConnectedInfo>,
    row: CapabilityView,
) -> bool {
    exists|i: int|
        0 <= i < connected.len() && (#[trigger] connected[i]).enabled && connected[i].allowed
            && is_connector_row(ui, src, connected[i], row)
}

proof fn lemma_connector_rows(ui: &Ui, src: &CapabilitySources, connected: Seq<ConnectedInfo>)
    ensures
        forall|i: int|
            0 <= i < connected.len() && (#[trigger] connected[i]).enabled && connected[i].allowed
                ==> exists|k: int|
                0 <= k < connector_rows(ui, src, connected).len() && is_connector_row(
                    ui,
                    src,
                    connected[i],
                    #[trigger] connector_rows(ui, src, connected)[k],
                ),
        forall|k: int|
            0 <= k < connector_rows(ui, src, connected).len() ==> is_of_connected(
                ui,
                src,
                connected,
                #[trigger] connector_rows(ui, src, connected)[k],
            ),
    decreases connected.len(),
{
    if connected.len() > 0 {
        let d = connected.drop_last();
        let head = connector_rows(ui, src, d);
        let all = connector_rows(ui, src, connected);
        let last = connected.last();
        lemma_connector_rows(ui, src, d);
        if last.enabled && last.allowed {
            lemma_connector_row(ui, src, connected);
        }
        assert forall|i: int|
            0 <= i < connected.len() && (#[trigger] connected[i]).enabled
                && connected[i].allowed implies exists|k: int|
            0 <= k < all.len() && is_connector_row(ui, src, connected[i], #[trigger] all[k]) by {
            if i < d.len() {
                assert(d[i] == connected[i]);
                let k = choose|k: int|
                    0 <= k < head.len() && is_connector_row(ui, src, d[i], #[trigger] head[k]);
                assert(all[k] == head[k]);
            } else {
                assert(is_connector_row(ui, src, connected[i], all[all.len() - 1]));
            }
        }
        assert forall|k: int| 0 <= k < all.len() implies is_of_connected(
            ui,
            src,
            connected,
            #[trigger] all[k],
        ) by {
            if k < head.len() {
                assert(all[k] == head[k]);
                let i = choose|i: int|
                    0 <= i < d.len() && (#[trigger] d[i]).enabled && d[i].allowed
                        && is_connector_row(ui, src, d[i], head[k]);
                assert(connected[i] == d[i]);
            } else {
                assert(is_connector_row(ui, src, connected[connected.len() - 1], all[k]));
            }
        }
    }
}

proof fn lemma_skill_rows(src: &CapabilitySources, skills: Seq<SkillInfo>)
    ensures
        skill_rows(src, skills).len() == skills.len(),
        forall|i: int|
            0 <= i < skills.len() ==> is_skill_row(
                src,
                #[trigger] skills[i],
                skill_rows(src, skills)[i],
            ),
    decreases skills.len(),
{
    if skills.len() > 0 {
        let d = skills.drop_last();
        lemma_skill_rows(src, d);
        lemma_loaded(src.loaded@, skills.last().name@);
        let all = skill_rows(src, skills);
        let head = skill_rows(src, d);
        assert forall|i: int| 0 <= i < skills.len() implies is_skill_row(
            src,
            #[trigger] skills[i],
            all[i],
        ) by {
            if i < d.len() {
                assert(d[i] == skills[i]);
                assert(all[i] == head[i]);
            }
        }
    }
}

proof fn lemma_menu_holds(ui: &Ui, src: &CapabilitySources)
    ensures
        forall|row: CapabilityView|
            #[trigger] menu(ui, src).contains(row) <==> tool_rows(src, src.entries@).contains(row)
                || connector_rows(ui, src, src.connected@).contains(row) || skill_rows(
                src,
                src.skills@,
            ).contains(row),
{
    menu_is_sorted(ui, src);
    let (m, u) = (menu(ui, src), unsorted(ui, src));
    let (a, b, c) = (
        tool_rows(src, src.entries@),
        connector_rows(ui, src, src.connected@),
        skill_rows(src, src.skills@),
    );
    assert forall|row: CapabilityView| #[trigger] m.contains(row) <==> a.contains(row)
        || b.contains(row) || c.contains(row) by {
        m.to_multiset_ensures();
        u.to_multiset_ensures();
        assert(m.contains(row) <==> m.to_multiset().count(row) > 0);
        assert(u.contains(row) <==> u.to_multiset().count(row) > 0);
        if a.contains(row) {
            let k = choose|k: int| 0 <= k < a.len() && a[k] == row;
            assert(u[k] == row);
        }
        if b.contains(row) {
            let k = choose|k: int| 0 <= k < b.len() && b[k] == row;
            assert(u[a.len() + k] == row);
        }
        if c.contains(row) {
            let k = choose|k: int| 0 <= k < c.len() && c[k] == row;
            assert(u[a.len() + b.len() + k] == row);
        }
        if u.contains(row) {
            let k = choose|k: int| 0 <= k < u.len() && u[k] == row;
            if k < a.len() {
                assert(a[k] == row);
            } else if k < a.len() + b.len() {
                assert(b[k - a.len()] == row);
            } else {
                assert(c[k - a.len() - b.len()] == row);
            }
        }
    }
}

/// The menu lists every tool outside the section of the integrations: with its key, its
/// texts and its section, on if its key is recorded as on, off if it is recorded as
/// off, and left to the model only if nothing is recorded for it.
pub proof fn every_tool_is_in_the_menu(ui: &Ui, src: &CapabilitySources, i: int)
    requires
        0 <= i < src.entries@.len(),
        src.entries@[i].category@ != src.integrations@,
    ensures
        exists|row: CapabilityView|
            #[trigger] menu(ui, src).contains(row) && is_tool_row(src, src.entries@[i], row),
{
    lemma_menu_holds(ui, src);
    lemma_tool_rows(src, src.entries@);
    let rows = tool_rows(src, src.entries@);
    let e = src.entries@[i];
    let k = choose|k: int| 0 <= k < rows.len() && is_tool_row(src, e, #[trigger] rows[k]);
    assert(rows.contains(rows[k]));
    assert(menu(ui, src).contains(rows[k]));
}

/// The menu lists every connected integration that is enabled and allowed.
pub proof fn every_integration_is_in_the_menu(ui: &Ui, src: &CapabilitySources, i: int)
    requires
        0 <= i < src.connected@.len(),
        src.connected@[i].enabled,
        src.connected@[i].allowed,
    ensures
        exists|row: CapabilityView|
            #[trigger] menu(ui, src).contains(row) && is_connector_row(
                ui,
                src,
                src.connected@[i],
                row,
            ),
{
    lemma_menu_holds(ui, src);
    lemma_connector_rows(ui, src, src.connected@);
    let rows = connector_rows(ui, src, src.connected@);
    let c = src.connected@[i];
    let k = choose|k: int| 0 <= k < rows.len() && is_connector_row(ui, src, c, #[trigger] rows[k]);
    assert(rows.contains(rows[k]));
    assert(menu(ui, src).contains(rows[k]));
}

/// The menu lists every skill, and shows it as on if and only if it is loaded.
pub proof fn every_skill_is_in_the_menu(ui: &Ui, src: &CapabilitySources, i: int)
    requires
        0 <= i < src.skills@.len(),
    ensures
        exists|row: CapabilityView|
            #[trigger] menu(ui, src).contains(row) && is_skill_row(src, src.skills@[i], row),
{
    lemma_menu_holds(ui, src);
    lemma_skill_rows(src, src.skills@);
    let rows = skill_rows(src, src.skills@);
    assert(rows.contains(rows[i]));
    assert(menu(ui, src).contains(rows[i]));
    assert(is_skill_row(src, src.skills@[i], rows[i]));
}

/// The menu lists nothing else: no integration that is disabled, not allowed or not
/// connected, no tool and no skill that is not there.
pub proof fn nothing_else_is_in_the_menu(ui: &Ui, src: &CapabilitySources, row: CapabilityView)
    requires
        menu(ui, src).contains(row),
    ensures
        (exists|i: int|
            0 <= i < src.entries@.len() && (#[trigger] src.entries@[i]).category@
                != src.integrations@ && is_tool_row(src, src.entries@[i], row)) || (exists|i: int|
            0 <= i < src.connected@.len() && (#[trigger] src.connected@[i]).enabled
                && src.connected@[i].allowed && is_connector_row(ui, src, src.connected@[i], row))
            || (exists|i: int|
            0 <= i < src.skills@.len() && is_skill_row(src, #[trigger] src.skills@[i], row)),
{
    lemma_menu_holds(ui, src);
    lemma_tool_rows(src, src.entries@);
    lemma_connector_rows(ui, src, src.connected@);
    lemma_skill_rows(src, src.skills@);
    let (a, b, c) = (
        tool_rows(src, src.entries@),
        connector_rows(ui, src, src.connected@),
        skill_rows(src, src.skills@),
    );
    if a.contains(row) {
        let k = choose|k: int| 0 <= k < a.len() && a[k] == row;
        assert(a[k] == row);
    } else if b.contains(row) {
        let k = choose|k: int| 0 <= k < b.len() && b[k] == row;
        assert(b[k] == row);
    } else {
        let k = choose|k: int| 0 <= k < c.len() && c[k] == row;
        assert(is_skill_row(src, src.skills@[k], row));
    }
}

/// Whether choices are those that a write for a key leaves: the key is recorded as
/// written, or not at all once its choice is dropped.
pub open spec fn is_written(
    choices: Seq<ToolChoice>,
    key: Seq<char>,
    write: OverlayWrite,
) -> bool {
    match write {
        OverlayWrite::Record(b) => {
            &&& exists|k: int| 0 <= k < choices.len() && (#[trigger] choices[k]).key@ == key
            &&& forall|k: int|
                0 <= k < choices.len() && (#[trigger] choices[k]).key@ == key ==> choices[k].enabled
                    == b
        },
        OverlayWrite::Drop => forall|k: int|
            0 <= k < choices.len() ==> (#[trigger] choices[k]).key@ != key,
        _ => false,
    }
}

/// After a click that puts a tool into a state, the menu that is built again shows the
/// tool in that state.
pub proof fn a_click_shows_in_the_menu(
    ui: &Ui,
    src: &CapabilitySources,
    i: int,
    target: ToolState,
    write: OverlayWrite,
)
    requires
        0 <= i < src.entries@.len(),
        src.entries@[i].category@ != src.integrations@,
        call_ensures(apply_capability_state, (CapKind::Tool, target), write),
        is_written(src.choices@, src.entries@[i].key@, write),
    ensures
        exists|row: CapabilityView|
            #[trigger] menu(ui, src).contains(row) && row.kind == CapKind::Tool && row.key
                == src.entries@[i].key@ && row.label == src.entries@[i].title@ && row.state
                == target,
{
    every_tool_is_in_the_menu(ui, src, i);
    let e = src.entries@[i];
    let row = choose|row: CapabilityView|
        #[trigger] menu(ui, src).contains(row) && is_tool_row(src, e, row);
    let choices = src.choices@;
    if target == ToolState::Auto {
        assert(is_written(choices, e.key@, OverlayWrite::Drop));
        assert(row.state == ToolState::Auto);
    } else {
        assert(is_written(choices, e.key@, OverlayWrite::Record(target == ToolState::On)));
        let k = choose|k: int| 0 <= k < choices.len() && (#[trigger] choices[k]).key@ == e.key@;
        assert(row.state != ToolState::Auto);
    }
}

/// A skill is loaded when it is switched on and unloaded when it is not; a tool is
/// recorded as on or off, or its choice is dropped.
pub proof fn a_click_writes_its_state(kind: CapKind, target: ToolState, write: OverlayWrite)
    requires
        call_ensures(apply_capability_state, (kind, target), write),
    ensures
        kind == CapKind::Skill && target == ToolState::On ==> write == OverlayWrite::Load,
        kind == CapKind::Skill && target != ToolState::On ==> write == OverlayWrite::Unload,
        kind == CapKind::Tool && target == ToolState::On ==> write == OverlayWrite::Record(true),
        kind == CapKind::Tool && target == ToolState::Off ==> write == OverlayWrite::Record(false),
        kind == CapKind::Tool && target == ToolState::Auto ==> write == OverlayWrite::Drop,
{
}

/// The words `on`, `off` and `auto` stand for their states; every other word, and none
/// at all, is handed back.
pub proof fn a_word_names_its_state(
    state: Option<String>,
    r: Result<ToolState, Option<String>>,
)
    requires
        call_ensures(read_state, (state,), r),
    ensures
        opt_text(state) == Some("on"@) <==> r == Ok::<ToolState, Option<String>>(ToolState::On),
        opt_text(state) == Some("off"@) <==> r == Ok::<ToolState, Option<String>>(ToolState::Off),
        opt_text(state) == Some("auto"@) <==> r == Ok::<ToolState, Option<String>>(ToolState::Auto),
        r matches Err(s) ==> s == state,
{
    reveal_strlit("on");
    reveal_strlit("off");
    reveal_strlit("auto");
    assert("on"@.len() == 2 && "off"@.len() == 3 && "auto"@.len() == 4);
}

/// A row of the menu shows its capability, ticked if and only if it is on.
pub proof fn a_row_is_ticked_when_on(c: &Capability, row: CapabilityRow)
    requires
        call_ensures(menu_row, (c,), row),
    ensures
        row.key@ == c.key@,
        row.kind == c.kind,
        row.label@ == c.label@,
        row.group@ == c.group@,
        row.enabled <==> c.state == ToolState::On,
        opt_text(row.icon) == opt_text(c.icon),
{
}

proof fn lemma_members(caps: Seq<CapabilityView>, slug: Option<Seq<char>>)
    ensures
        forall|i: int|
            0 <= i < caps.len() && (slug is None || (#[trigger] caps[i]).group_slug == slug->0)
                ==> members(caps, slug).contains(
                TargetView { kind: caps[i].kind, key: caps[i].key },
            ),
        forall|k: int|
            0 <= k < members(caps, slug).len() ==> exists|i: int|
                0 <= i < caps.len() && (slug is None || (#[trigger] caps[i]).group_slug == slug->0)
                    && #[trigger] members(caps, slug)[k] == (TargetView {
                    kind: caps[i].kind,
                    key: caps[i].key,
                }),
    decreases caps.len(),
{
    if caps.len() > 0 {
        let d = caps.drop_last();
        let head = members(d, slug);
        let all = members(caps, slug);
        lemma_members(d, slug);
        assert forall|i: int|
            0 <= i < caps.len() && (slug is None || (#[trigger] caps[i]).group_slug
                == slug->0) implies all.contains(
            TargetView { kind: caps[i].kind, key: caps[i].key },
        ) by {
            let t = TargetView { kind: caps[i].kind, key: caps[i].key };
            if i < d.len() {
                assert(d[i] == caps[i]);
                assert(head.contains(t));
                let j = choose|j: int| 0 <= j < head.len() && head[j] == t;
                assert(all[j] == t);
            } else {
                assert(all[all.len() - 1] == t);
            }
        }
        assert forall|k: int| 0 <= k < all.len() implies exists|i: int|
            0 <= i < caps.len() && (slug is None || (#[trigger] caps[i]).group_slug == slug->0)
                && #[trigger] all[k] == (TargetView { kind: caps[i].kind, key: caps[i].key }) by {
            if k < head.len() {
                assert(all[k] == head[k]);
                let i = choose|i: int|
                    0 <= i < d.len() && (slug is None || (#[trigger] d[i]).group_slug == slug->0)
                        && head[k] == (TargetView { kind: d[i].kind, key: d[i].key });
                assert(caps[i] == d[i]);
            } else {
                let i = caps.len() - 1;
                assert(all[k] == (TargetView { kind: caps[i].kind, key: caps[i].key }));
            }
        }
    }
}

/// A click on all changes every capability, one on a section exactly those of the
/// section, and any other the one it names.
pub proof fn a_click_reaches_its_targets(
    caps: Seq<CapabilityView>,
    key: Seq<char>,
    i: int,
    t: TargetView,
)
    ensures
        0 <= i < caps.len() ==> click_targets(caps, "all"@, key).contains(
            TargetView { kind: caps[i].kind, key: caps[i].key },
        ),
        0 <= i < caps.len() && caps[i].group_slug == key ==> click_targets(
            caps,
            "group"@,
            key,
        ).contains(TargetView { kind: caps[i].kind, key: caps[i].key }),
        click_targets(caps, "group"@, key).contains(t) ==> exists|j: int|
            0 <= j < caps.len() && (#[trigger] caps[j]).group_slug == key && caps[j].kind == t.kind
                && caps[j].key == t.key,
        click_targets(caps, "all"@, key).contains(t) ==> exists|j: int|
            0 <= j < caps.len() && (#[trigger] caps[j]).kind == t.kind && caps[j].key == t.key,
        click_targets(caps, "skill"@, key) == seq![TargetView { kind: CapKind::Skill, key }],
        click_targets(caps, "tool"@, key) == seq![TargetView { kind: CapKind::Tool, key }],
{
    reveal_strlit("all");
    reveal_strlit("group");
    reveal_strlit("skill");
    reveal_strlit("tool");
    assert("all"@.len() == 3 && "group"@.len() == 5 && "skill"@.len() == 5 && "tool"@.len() == 4);
    assert("group"@[0] == 'g' && "skill"@[0] == 's');
    lemma_members(caps, None);
    lemma_members(caps, Some(key));
    let a = members(caps, None);
    let g = members(caps, Some(key));
    if 0 <= i < caps.len() {
        assert(caps[i].group_slug == caps[i].group_slug);
    }
    if a.contains(t) {
        let k = choose|k: int| 0 <= k < a.len() && a[k] == t;
        assert(a[k] == t);
    }
    if g.contains(t) {
        let k = choose|k: int| 0 <= k < g.len() && g[k] == t;
        assert(g[k] == t);
    }
}

/// A state that is not known is told as it was sent.
pub proof fn an_unknown_state_is_told(state: &Option<String>, r: String)
    requires
        call_ensures(unknown_state, (state,), r),
    ensures
        *state is None ==> r@ == "unknown capability state: "@ + "None"@,
        *state matches Some(s) ==> r@ == "unknown capability state: "@ + ("Some("@ + debug_of(s@)
            + ")"@),
{
}

} // verus!
