//! The list of tool switches shared by the tools page and the panel of a token.
//!
//! Both show the same capabilities, grouped by category, and remember only what
//! was switched off. They differ in where a switch posts and in how its row is
//! named; [`ToggleCtx`] holds these two.
use crate::html::{escaped, Html};
use crate::text::{same, texts};
use vstd::hash_set::StringHashSet;
use crate::markup::{ends_in, group_shows, shows, starts_as};
use vstd::prelude::*;

verus! {

/// The section that a capability is shown in.
#[derive(PartialEq, Eq, Debug)]
pub struct Category {
    /// The heading of the section.
    pub label: String,
    /// The word that stands for the section in an address.
    pub slug: String,
    /// The place of the section among the others.
    pub order: u32,
}

/// A [`Category`] over texts.
pub ghost struct CategoryView {
    pub label: Seq<char>,
    pub slug: Seq<char>,
    pub order: u32,
}

impl View for Category {
    type V = CategoryView;

    open spec fn view(&self) -> CategoryView {
        CategoryView { label: self.label@, slug: self.slug@, order: self.order }
    }
}

impl Clone for Category {
    fn clone(&self) -> (r: Self)
        ensures
            r == *self,
    {
        Category { label: self.label.clone(), slug: self.slug.clone(), order: self.order }
    }
}

impl Category {
    /// Whether two sections are the same.
    pub fn same_as(&self, other: &Category) -> (r: bool)
        ensures
            r == (self@ == other@),
    {
        self.order == other.order && same(&self.label, &other.label) && same(
            &self.slug,
            &other.slug,
        )
    }
}

/// One capability with a switch.
pub struct ToolEntry {
    pub key: String,
    pub title: String,
    pub tech: String,
    pub description: String,
    pub category: Category,
}

impl Clone for ToolEntry {
    fn clone(&self) -> (r: Self)
        ensures
            r == *self,
    {
        ToolEntry {
            key: self.key.clone(),
            title: self.title.clone(),
            tech: self.tech.clone(),
            description: self.description.clone(),
            category: self.category.clone(),
        }
    }
}

/// Where a list of switches posts to and how its rows are named.
pub struct ToggleCtx {
    pub post_path: String,
    pub row_id_prefix: String,
}

/// A [`ToggleCtx`] over texts.
pub ghost struct CtxView {
    pub post_path: Seq<char>,
    pub row_id_prefix: Seq<char>,
}

impl View for ToggleCtx {
    type V = CtxView;

    open spec fn view(&self) -> CtxView {
        CtxView { post_path: self.post_path@, row_id_prefix: self.row_id_prefix@ }
    }
}

impl CtxView {
    /// The name of the row for `key`.
    pub open spec fn row_name(self, key: Seq<char>) -> Seq<char> {
        self.row_id_prefix + "-"@ + key
    }
}

impl ToggleCtx {
    /// The name of the row for `key`.
    pub fn row_id(&self, key: &str) -> (r: String)
        ensures
            r@ == self@.row_name(key@),
    {
        let mut out = self.row_id_prefix.clone();
        out.append("-");
        out.append(key);
        out
    }
}

// ---------------------------------------------------------------------------
// Keys

/// Whether some entry has that key.
pub open spec fn has_key(entries: Seq<ToolEntry>, key: Seq<char>) -> bool {
    exists|i: int| 0 <= i < entries.len() && (#[trigger] entries[i]).key@ == key
}

/// The set of the given keys.
pub fn key_set(keys: &Vec<String>) -> (r: StringHashSet)
    ensures
        r@ == texts(keys@).to_set(),
{
    let mut out = StringHashSet::new();
    assert(out@ =~= texts(keys@.take(0)).to_set());
    for i in 0..keys.len()
        invariant
            out@ == texts(keys@.take(i as int)).to_set(),
    {
        let ghost before = texts(keys@.take(i as int));
        out.insert(keys[i].clone());
        proof {
            let now = texts(keys@.take(i + 1));
            let last = keys@[i as int]@;
            assert(now =~= before.push(last));
            assert(now[i as int] == last);
            assert forall|k: Seq<char>| now.to_set().contains(k) implies before.to_set().insert(
                last,
            ).contains(k) by {
                let j = choose|j: int| 0 <= j < now.len() && now[j] == k;
                if j < i {
                    assert(before[j] == k);
                }
            }
            assert forall|k: Seq<char>| before.to_set().contains(k) implies now.to_set().contains(
                k,
            ) by {
                let j = choose|j: int| 0 <= j < before.len() && before[j] == k;
                assert(now[j] == k);
            }
            assert(out@ =~= now.to_set());
        }
    }
    assert(keys@.take(keys@.len() as int) =~= keys@);
    out
}

/// The keys of the entries, to tell a real key from a made-up one.
pub fn valid_keys(entries: &Vec<ToolEntry>) -> (r: StringHashSet)
    ensures
        forall|key: Seq<char>| #[trigger] r@.contains(key) <==> has_key(entries@, key),
{
    let mut out = StringHashSet::new();
    for i in 0..entries.len()
        invariant
            forall|key: Seq<char>|
                #[trigger] out@.contains(key) <==> has_key(entries@.take(i as int), key),
    {
        let ghost before = out@;
        out.insert(entries[i].key.clone());
        proof {
            let now = entries@.take(i + 1);
            let was = entries@.take(i as int);
            assert forall|key: Seq<char>| #[trigger] out@.contains(key) <==> has_key(now, key) by {
                if out@.contains(key) {
                    if before.contains(key) {
                        let j = choose|j: int| 0 <= j < was.len() && (#[trigger] was[j]).key@ == key;
                        assert(now[j].key@ == key);
                    } else {
                        assert(now[i as int].key@ == key);
                    }
                }
                if has_key(now, key) {
                    let j = choose|j: int| 0 <= j < now.len() && (#[trigger] now[j]).key@ == key;
                    if j < i {
                        assert(was[j].key@ == key);
                    }
                }
            }
        }
    }
    assert(entries@.take(entries@.len() as int) =~= entries@);
    out
}

/// The first entry with that key.
pub open spec fn entry_with(entries: Seq<ToolEntry>, key: Seq<char>) -> Option<ToolEntry>
    decreases entries.len(),
{
    if entries.len() == 0 {
        None
    } else if entries[0].key@ == key {
        Some(entries[0])
    } else {
        entry_with(entries.drop_first(), key)
    }
}

/// The first entry with that key.
pub fn find_entry(entries: &Vec<ToolEntry>, key: &str) -> (r: Option<ToolEntry>)
    ensures
        r == entry_with(entries@, key@),
{
    assert(entries@.skip(0) =~= entries@);
    for i in 0..entries.len()
        invariant
            entry_with(entries@, key@) == entry_with(entries@.skip(i as int), key@),
    {
        assert(entries@.skip(i as int).drop_first() =~= entries@.skip(i + 1));
        if same(&entries[i].key, key) {
            return Some(entries[i].clone());
        }
    }
    None
}

// ---------------------------------------------------------------------------
// Grouping

/// The entries cut where the category changes.
pub open spec fn grouped(entries: Seq<ToolEntry>) -> Seq<(CategoryView, Seq<ToolEntry>)>
    decreases entries.len(),
{
    if entries.len() == 0 {
        Seq::empty()
    } else {
        let groups = grouped(entries.drop_last());
        let e = entries.last();
        if groups.len() > 0 && groups.last().0 == e.category@ {
            groups.drop_last().push((e.category@, groups.last().1.push(e)))
        } else {
            groups.push((e.category@, seq![e]))
        }
    }
}

/// The view of a list of groups.
pub open spec fn groups_view(groups: Seq<(Category, Vec<ToolEntry>)>) -> Seq<
    (CategoryView, Seq<ToolEntry>),
> {
    groups.map_values(|g: (Category, Vec<ToolEntry>)| (g.0@, g.1@))
}

/// Splits entries, which stand in category order, into contiguous groups.
pub fn group_by_category(entries: &Vec<ToolEntry>) -> (r: Vec<(Category, Vec<ToolEntry>)>)
    ensures
        groups_view(r@) == grouped(entries@),
{
    let mut groups: Vec<(Category, Vec<ToolEntry>)> = Vec::new();
    assert(entries@.take(0) =~= Seq::<ToolEntry>::empty());
    assert(groups_view(groups@) =~= Seq::<(CategoryView, Seq<ToolEntry>)>::empty());
    for i in 0..entries.len()
        invariant
            groups_view(groups@) == grouped(entries@.take(i as int)),
    {
        let ghost before = groups_view(groups@);
        proof {
            assert(entries@.take(i + 1).drop_last() =~= entries@.take(i as int));
            assert(before.len() == groups@.len());
        }
        let entry = entries[i].clone();
        let n: usize = groups.len();
        if n > 0 && groups[n - 1].0.same_as(&entry.category) {
            let ghost last = groups@.last();
            assert(before.last() == (last.0@, last.1@));
            if let Some((category, mut rows)) = groups.pop() {
                rows.push(entry);
                groups.push((category, rows));
                assert(groups_view(groups@) =~= before.drop_last().push(
                    (entry.category@, before.last().1.push(entry)),
                ));
            }
        } else {
            if n > 0 {
                assert(before.last().0 == groups@.last().0@);
            }
            let mut rows: Vec<ToolEntry> = Vec::new();
            rows.push(entry);
            assert(rows@ =~= seq![entry]);
            groups.push((entries[i].category.clone(), rows));
            assert(groups_view(groups@) =~= before.push((entry.category@, seq![entry])));
        }
    }
    assert(entries@.take(entries@.len() as int) =~= entries@);
    groups
}

// ---------------------------------------------------------------------------
// Rows and sections

/// One capability: title, technical name, description and switch. The wanted
/// state rides in the form, as the presence of the checkbox.
#[verifier::opaque]
pub open spec fn toggle_row(entry: ToolEntry, enabled: bool, ctx: CtxView) -> Seq<char> {
    r#"<div id=""#@
        + escaped(ctx.row_name(entry.key@))
        + r#"" class="flex items-center gap-4 py-3"><div class="flex-1 min-w-0">"#@
        + r#"<div class="flex items-baseline gap-2 flex-wrap">"#@
        + r#"<span class="text-sm font-medium text-base-content">"#@
        + escaped(entry.title@)
        + r#"</span><code class="text-xs text-base-content/50 font-mono">"#@
        + escaped(entry.tech@)
        + r#"</code></div><div class="text-xs text-base-content/60 mt-0.5">"#@
        + escaped(entry.description@)
        + r#"</div></div><form action=""#@
        + escaped(ctx.post_path)
        + r#"" method="post" class="m-0" data-on:change__prevent="@post(&#39;"#@
        + escaped(ctx.post_path)
        + r#"&#39;, {contentType: &#39;form&#39;})"><input type="hidden" name="tool_key" value=""#@
        + escaped(entry.key@)
        + r#"">"#@
        + (if enabled {
            r#"<input type="checkbox" name="enabled" value="true" class="toggle toggle-primary""#@
                + r#" checked="checked" aria-label="Toggle tool">"#@
        } else {
            r#"<input type="checkbox" name="enabled" value="true" class="toggle toggle-primary""#@
                + r#" aria-label="Toggle tool">"#@
        })
        + "</form></div>"@
}

/// Renders one capability with its switch.
pub fn render_toggle_row(entry: &ToolEntry, enabled: bool, ctx: &ToggleCtx) -> (r: Html)
    ensures
        r@ == toggle_row(*entry, enabled, ctx@),
{
    proof {
        reveal(toggle_row);
    }
    let row_id = ctx.row_id(&entry.key);
    Html::new(r#"<div id=""#)
        .text(&row_id)
        .raw(r#"" class="flex items-center gap-4 py-3"><div class="flex-1 min-w-0">"#)
        .raw(r#"<div class="flex items-baseline gap-2 flex-wrap">"#)
        .raw(r#"<span class="text-sm font-medium text-base-content">"#)
        .text(&entry.title)
        .raw(r#"</span><code class="text-xs text-base-content/50 font-mono">"#)
        .text(&entry.tech)
        .raw(r#"</code></div><div class="text-xs text-base-content/60 mt-0.5">"#)
        .text(&entry.description)
        .raw(r#"</div></div><form action=""#)
        .text(&ctx.post_path)
        .raw(r#"" method="post" class="m-0" data-on:change__prevent="@post(&#39;"#)
        .text(&ctx.post_path)
        .raw(r#"&#39;, {contentType: &#39;form&#39;})"><input type="hidden" name="tool_key" value=""#)
        .text(&entry.key)
        .raw(r#"">"#)
        .html(if enabled {
            Html::new(r#"<input type="checkbox" name="enabled" value="true" class="toggle toggle-primary""#)
                .raw(r#" checked="checked" aria-label="Toggle tool">"#)
        } else {
            Html::new(r#"<input type="checkbox" name="enabled" value="true" class="toggle toggle-primary""#)
                .raw(r#" aria-label="Toggle tool">"#)
        })
        .raw("</form></div>")
}

/// The rows of a group. A capability is on unless its key is switched off.
pub open spec fn toggle_rows(
    entries: Seq<ToolEntry>,
    disabled: Set<Seq<char>>,
    ctx: CtxView,
) -> Seq<char>
    decreases entries.len(),
{
    if entries.len() == 0 {
        Seq::empty()
    } else {
        let e = entries.last();
        toggle_rows(entries.drop_last(), disabled, ctx) + toggle_row(
            e,
            !disabled.contains(e.key@),
            ctx,
        )
    }
}

fn render_toggle_rows(
    entries: &Vec<ToolEntry>,
    disabled: &StringHashSet,
    ctx: &ToggleCtx,
) -> (r: Html)
    ensures
        r@ == toggle_rows(entries@, disabled@, ctx@),
{
    let mut out = Html::empty();
    assert(entries@.take(0) =~= Seq::<ToolEntry>::empty());
    for i in 0..entries.len()
        invariant
            out@ == toggle_rows(entries@.take(i as int), disabled@, ctx@),
    {
        assert(entries@.take(i + 1).drop_last() =~= entries@.take(i as int));
        let on = !disabled.contains(&entries[i].key);
        out = out.html(render_toggle_row(&entries[i], on, ctx));
    }
    assert(entries@.take(entries@.len() as int) =~= entries@);
    out
}

/// One section of the list.
#[verifier::opaque]
pub open spec fn toggle_section(
    category: CategoryView,
    rows: Seq<ToolEntry>,
    disabled: Set<Seq<char>>,
    ctx: CtxView,
) -> Seq<char> {
    r#"<section class="card border border-base-300 mb-6"><div class="card-body">"#@
        + r#"<h2 class="card-title text-base">"#@
        + escaped(category.label)
        + r#"</h2><div class="flex flex-col divide-y divide-base-300">"#@
        + toggle_rows(rows, disabled, ctx)
        + "</div></div></section>"@
}

fn render_toggle_section(
    category: &Category,
    rows: &Vec<ToolEntry>,
    disabled: &StringHashSet,
    ctx: &ToggleCtx,
) -> (r: Html)
    ensures
        r@ == toggle_section(category@, rows@, disabled@, ctx@),
{
    proof {
        reveal(toggle_section);
    }
    Html::new(r#"<section class="card border border-base-300 mb-6"><div class="card-body">"#)
        .raw(r#"<h2 class="card-title text-base">"#)
        .text(&category.label)
        .raw(r#"</h2><div class="flex flex-col divide-y divide-base-300">"#)
        .html(render_toggle_rows(rows, disabled, ctx))
        .raw("</div></div></section>")
}

/// The sections of a list of groups.
pub open spec fn toggle_sections(
    groups: Seq<(CategoryView, Seq<ToolEntry>)>,
    disabled: Set<Seq<char>>,
    ctx: CtxView,
) -> Seq<char>
    decreases groups.len(),
{
    if groups.len() == 0 {
        Seq::empty()
    } else {
        toggle_sections(groups.drop_last(), disabled, ctx) + toggle_section(
            groups.last().0,
            groups.last().1,
            disabled,
            ctx,
        )
    }
}

/// Renders the whole list, one section per group.
pub fn render_toggle_sections(
    entries: &Vec<ToolEntry>,
    disabled: &StringHashSet,
    ctx: &ToggleCtx,
) -> (r: Html)
    ensures
        r@ == toggle_sections(grouped(entries@), disabled@, ctx@),
{
    let groups = group_by_category(entries);
    let ghost view = groups_view(groups@);
    let mut out = Html::empty();
    assert(view.take(0) =~= Seq::<(CategoryView, Seq<ToolEntry>)>::empty());
    for i in 0..groups.len()
        invariant
            view == groups_view(groups@),
            out@ == toggle_sections(view.take(i as int), disabled@, ctx@),
    {
        proof {
            assert(view.take(i + 1).drop_last() =~= view.take(i as int));
            assert(view.take(i + 1).last() == (groups@[i as int].0@, groups@[i as int].1@));
        }
        out = out.html(render_toggle_section(&groups[i].0, &groups[i].1, disabled, ctx));
    }
    assert(view.take(view.len() as int) =~= view);
    out
}

// ---------------------------------------------------------------------------
// Laws

/// The entries of a list of groups, one group after the other.
pub open spec fn flattened(groups: Seq<(CategoryView, Seq<ToolEntry>)>) -> Seq<ToolEntry>
    decreases groups.len(),
{
    if groups.len() == 0 {
        Seq::empty()
    } else {
        flattened(groups.drop_last()) + groups.last().1
    }
}

/// Grouping loses nothing and reorders nothing; every group holds entries of
/// its own category and at least one; neighbouring groups differ in category.
pub proof fn grouping_keeps_runs(entries: Seq<ToolEntry>)
    ensures
        flattened(grouped(entries)) == entries,
        forall|i: int, j: int|
            0 <= i < grouped(entries).len() && 0 <= j < grouped(entries)[i].1.len() ==> (
            #[trigger] grouped(entries)[i].1[j]).category@ == grouped(entries)[i].0,
        forall|i: int|
            0 <= i < grouped(entries).len() ==> (#[trigger] grouped(entries)[i]).1.len() > 0,
        forall|i: int|
            0 < i < grouped(entries).len() ==> grouped(entries)[i - 1].0 != (
            #[trigger] grouped(entries)[i]).0,
    decreases entries.len(),
{
    if entries.len() == 0 {
        assert(flattened(grouped(entries)) =~= entries);
    } else {
        let d = entries.drop_last();
        let e = entries.last();
        grouping_keeps_runs(d);
        let g = grouped(d);
        let h = grouped(entries);
        if g.len() > 0 && g.last().0 == e.category@ {
            assert(h.drop_last() =~= g.drop_last());
            assert(flattened(h) =~= (flattened(g.drop_last()) + g.last().1).push(e));
            assert forall|i: int, j: int| 0 <= i < h.len() && 0 <= j < h[i].1.len() implies (
            #[trigger] h[i].1[j]).category@ == h[i].0 by {
                if i < g.len() - 1 {
                    assert(h[i] == g[i]);
                } else if j < g.last().1.len() {
                    assert(h[i].1[j] == g[i].1[j]);
                }
            }
            assert forall|i: int| 0 < i < h.len() implies h[i - 1].0 != (#[trigger] h[i]).0 by {
                assert(h[i].0 == g[i].0);
                assert(h[i - 1].0 == g[i - 1].0);
            }
        } else {
            assert(h.drop_last() =~= g);
            assert(flattened(h) =~= flattened(g).push(e));
            assert forall|i: int, j: int| 0 <= i < h.len() && 0 <= j < h[i].1.len() implies (
            #[trigger] h[i].1[j]).category@ == h[i].0 by {
                if i < g.len() {
                    assert(h[i].1[j] == g[i].1[j]);
                }
            }
            assert forall|i: int| 0 < i < h.len() implies h[i - 1].0 != (#[trigger] h[i]).0 by {
                if i < g.len() {
                    assert(h[i].0 == g[i].0 && h[i - 1].0 == g[i - 1].0);
                }
            }
        }
        assert(d.push(e) =~= entries);
    }
}

/// Rows of different keys have different names, so that a change of one row
/// never reaches another.
pub proof fn row_names_differ(ctx: CtxView, a: Seq<char>, b: Seq<char>)
    requires
        a != b,
    ensures
        ctx.row_name(a) != ctx.row_name(b),
{
    let p = ctx.row_id_prefix + "-"@;
    if ctx.row_name(a) == ctx.row_name(b) {
        assert(ctx.row_name(a).skip(p.len() as int) =~= a);
        assert(ctx.row_name(b).skip(p.len() as int) =~= b);
    }
}

proof fn lemma_row_shows_the_tool()
    ensures
        starts_as(
            r#"" class="flex items-center gap-4 py-3"><div class="flex-1 min-w-0">"#@,
            r#"" class="#@,
        ),
        starts_as(
            r#"</span><code class="text-xs text-base-content/50 font-mono">"#@,
            "</span>"@,
        ),
        ends_in(
            r#"</span><code class="text-xs text-base-content/50 font-mono">"#@,
            r#"<code class="text-xs text-base-content/50 font-mono">"#@,
        ),
        starts_as(
            r#"</code></div><div class="text-xs text-base-content/60 mt-0.5">"#@,
            "</code>"@,
        ),
        ends_in(
            r#"</code></div><div class="text-xs text-base-content/60 mt-0.5">"#@,
            r#"<div class="text-xs text-base-content/60 mt-0.5">"#@,
        ),
        starts_as(
            r#"</div></div><form action=""#@,
            "</div>"@,
        ),
        ends_in(
            r#"</div></div><form action=""#@,
            r#"<form action=""#@,
        ),
        starts_as(
            r#"" method="post" class="m-0" data-on:change__prevent="@post(&#39;"#@,
            r#"" method="post""#@,
        ),
        ends_in(
            r#"&#39;, {contentType: &#39;form&#39;})"><input type="hidden" name="tool_key" value=""#@,
            r#"<input type="hidden" name="tool_key" value=""#@,
        ),
        ends_in(
            r#"" class="flex items-center gap-4 py-3"><div class="flex-1 min-w-0">"#@,
            r#"">"#@,
        ),
        ends_in(
            r#"</code></div><div class="text-xs text-base-content/60 mt-0.5">"#@,
            r#"">"#@,
        ),
        ends_in(
            r#" aria-label="Toggle tool">"#@,
            r#"">"#@,
        ),
        ends_in(
            r#"</span><code class="text-xs text-base-content/50 font-mono">"#@,
            r#"">"#@,
        ),
        ends_in(
            r#"<span class="text-sm font-medium text-base-content">"#@,
            r#"">"#@,
        ),
        ends_in(
            r#"<div class="flex items-baseline gap-2 flex-wrap">"#@,
            r#"">"#@,
        ),
        ends_in(
            r#" checked="checked" aria-label="Toggle tool">"#@,
            r#"">"#@,
        ),
{
    assert(starts_as(r#"" class="flex items-center gap-4 py-3"><div class="flex-1 min-w-0">"#@, r#"" class="#@)) by {
        reveal(starts_as);
        reveal_strlit(r#"" class="flex items-center gap-4 py-3"><div class="flex-1 min-w-0">"#);
        reveal_strlit(r#"" class="#);
        assert(r#"" class="flex items-center gap-4 py-3"><div class="flex-1 min-w-0">"#@.take(8) =~= r#"" class="#@);
    }
    assert(starts_as(r#"</span><code class="text-xs text-base-content/50 font-mono">"#@, "</span>"@)) by {
        reveal(starts_as);
        reveal_strlit(r#"</span><code class="text-xs text-base-content/50 font-mono">"#);
        reveal_strlit("</span>");
        assert(r#"</span><code class="text-xs text-base-content/50 font-mono">"#@.take(7) =~= "</span>"@);
    }
    assert(ends_in(r#"</span><code class="text-xs text-base-content/50 font-mono">"#@, r#"<code class="text-xs text-base-content/50 font-mono">"#@)) by {
        reveal(ends_in);
        reveal_strlit(r#"</span><code class="text-xs text-base-content/50 font-mono">"#);
        reveal_strlit(r#"<code class="text-xs text-base-content/50 font-mono">"#);
        assert(r#"</span><code class="text-xs text-base-content/50 font-mono">"#@.skip(7) =~= r#"<code class="text-xs text-base-content/50 font-mono">"#@);
    }
    assert(starts_as(r#"</code></div><div class="text-xs text-base-content/60 mt-0.5">"#@, "</code>"@)) by {
        reveal(starts_as);
        reveal_strlit(r#"</code></div><div class="text-xs text-base-content/60 mt-0.5">"#);
        reveal_strlit("</code>");
        assert(r#"</code></div><div class="text-xs text-base-content/60 mt-0.5">"#@.take(7) =~= "</code>"@);
    }
    assert(ends_in(r#"</code></div><div class="text-xs text-base-content/60 mt-0.5">"#@, r#"<div class="text-xs text-base-content/60 mt-0.5">"#@)) by {
        reveal(ends_in);
        reveal_strlit(r#"</code></div><div class="text-xs text-base-content/60 mt-0.5">"#);
        reveal_strlit(r#"<div class="text-xs text-base-content/60 mt-0.5">"#);
        assert(r#"</code></div><div class="text-xs text-base-content/60 mt-0.5">"#@.skip(13) =~= r#"<div class="text-xs text-base-content/60 mt-0.5">"#@);
    }
    assert(starts_as(r#"</div></div><form action=""#@, "</div>"@)) by {
        reveal(starts_as);
        reveal_strlit(r#"</div></div><form action=""#);
        reveal_strlit("</div>");
        assert(r#"</div></div><form action=""#@.take(6) =~= "</div>"@);
    }
    assert(ends_in(r#"</div></div><form action=""#@, r#"<form action=""#@)) by {
        reveal(ends_in);
        reveal_strlit(r#"</div></div><form action=""#);
        reveal_strlit(r#"<form action=""#);
        assert(r#"</div></div><form action=""#@.skip(12) =~= r#"<form action=""#@);
    }
    assert(starts_as(r#"" method="post" class="m-0" data-on:change__prevent="@post(&#39;"#@, r#"" method="post""#@)) by {
        reveal(starts_as);
        reveal_strlit(r#"" method="post" class="m-0" data-on:change__prevent="@post(&#39;"#);
        reveal_strlit(r#"" method="post""#);
        assert(r#"" method="post" class="m-0" data-on:change__prevent="@post(&#39;"#@.take(15) =~= r#"" method="post""#@);
    }
    assert(ends_in(r#"&#39;, {contentType: &#39;form&#39;})"><input type="hidden" name="tool_key" value=""#@, r#"<input type="hidden" name="tool_key" value=""#@)) by {
        reveal(ends_in);
        reveal_strlit(r#"&#39;, {contentType: &#39;form&#39;})"><input type="hidden" name="tool_key" value=""#);
        reveal_strlit(r#"<input type="hidden" name="tool_key" value=""#);
        assert(r#"&#39;, {contentType: &#39;form&#39;})"><input type="hidden" name="tool_key" value=""#@.skip(39) =~= r#"<input type="hidden" name="tool_key" value=""#@);
    }
    assert(ends_in(r#"" class="flex items-center gap-4 py-3"><div class="flex-1 min-w-0">"#@, r#"">"#@)) by {
        reveal(ends_in);
        reveal_strlit(r#"" class="flex items-center gap-4 py-3"><div class="flex-1 min-w-0">"#);
        reveal_strlit(r#"">"#);
        assert(r#"" class="flex items-center gap-4 py-3"><div class="flex-1 min-w-0">"#@.skip(65) =~= r#"">"#@);
    }
    assert(ends_in(r#"</code></div><div class="text-xs text-base-content/60 mt-0.5">"#@, r#"">"#@)) by {
        reveal(ends_in);
        reveal_strlit(r#"</code></div><div class="text-xs text-base-content/60 mt-0.5">"#);
        reveal_strlit(r#"">"#);
        assert(r#"</code></div><div class="text-xs text-base-content/60 mt-0.5">"#@.skip(60) =~= r#"">"#@);
    }
    assert(ends_in(r#" aria-label="Toggle tool">"#@, r#"">"#@)) by {
        reveal(ends_in);
        reveal_strlit(r#" aria-label="Toggle tool">"#);
        reveal_strlit(r#"">"#);
        assert(r#" aria-label="Toggle tool">"#@.skip(24) =~= r#"">"#@);
    }
    assert(ends_in(r#"</span><code class="text-xs text-base-content/50 font-mono">"#@, r#"">"#@)) by {
        reveal(ends_in);
        reveal_strlit(r#"</span><code class="text-xs text-base-content/50 font-mono">"#);
        reveal_strlit(r#"">"#);
        assert(r#"</span><code class="text-xs text-base-content/50 font-mono">"#@.skip(58) =~= r#"">"#@);
    }
    assert(ends_in(r#"<span class="text-sm font-medium text-base-content">"#@, r#"">"#@)) by {
        reveal(ends_in);
        reveal_strlit(r#"<span class="text-sm font-medium text-base-content">"#);
        reveal_strlit(r#"">"#);
        assert(r#"<span class="text-sm font-medium text-base-content">"#@.skip(50) =~= r#"">"#@);
    }
    assert(ends_in(r#"<div class="flex items-baseline gap-2 flex-wrap">"#@, r#"">"#@)) by {
        reveal(ends_in);
        reveal_strlit(r#"<div class="flex items-baseline gap-2 flex-wrap">"#);
        reveal_strlit(r#"">"#);
        assert(r#"<div class="flex items-baseline gap-2 flex-wrap">"#@.skip(47) =~= r#"">"#@);
    }
    assert(ends_in(r#" checked="checked" aria-label="Toggle tool">"#@, r#"">"#@)) by {
        reveal(ends_in);
        reveal_strlit(r#" checked="checked" aria-label="Toggle tool">"#);
        reveal_strlit(r#"">"#);
        assert(r#" checked="checked" aria-label="Toggle tool">"#@.skip(42) =~= r#"">"#@);
    }
}

/// The row of a tool shows its names and what it does, switches that tool, and its switch is
/// on if and only if the tool is.
pub proof fn row_shows_the_tool(e: ToolEntry, enabled: bool, ctx: CtxView)
    ensures
        ({
            let page = toggle_row(e, enabled, ctx);
            &&& shows(page, r#"<div id=""#@ + escaped(ctx.row_id_prefix + "-"@ + e.key@) + r#"" class="#@)
            &&& shows(page, r#"<span class="text-sm font-medium text-base-content">"#@ + escaped(e.title@) + "</span>"@)
            &&& shows(page, r#"<code class="text-xs text-base-content/50 font-mono">"#@ + escaped(e.tech@) + "</code>"@)
            &&& shows(page, r#"<div class="text-xs text-base-content/60 mt-0.5">"#@ + escaped(e.description@) + "</div>"@)
            &&& shows(page, r#"<form action=""#@ + escaped(ctx.post_path) + r#"" method="post""#@)
            &&& shows(page, r#"<input type="hidden" name="tool_key" value=""#@ + escaped(e.key@) + r#"">"#@)
            &&& enabled ==> shows(page, r#"">"#@ + (r#"<input type="checkbox" name="enabled" value="true" class="toggle toggle-primary""#@ + r#" checked="checked" aria-label="Toggle tool">"#@) + "</form></div>"@)
            &&& !enabled ==> shows(page, r#"">"#@ + (r#"<input type="checkbox" name="enabled" value="true" class="toggle toggle-primary""#@ + r#" aria-label="Toggle tool">"#@) + "</form></div>"@)
        }),
{
    broadcast use group_shows;

    lemma_row_shows_the_tool();
    reveal(toggle_row);
}

proof fn lemma_row_in_rows(
    rows: Seq<ToolEntry>,
    disabled: Set<Seq<char>>,
    ctx: CtxView,
    k: int,
)
    requires
        0 <= k < rows.len(),
    ensures
        shows(
            toggle_rows(rows, disabled, ctx),
            toggle_row(rows[k], !disabled.contains(rows[k].key@), ctx),
        ),
    decreases rows.len(),
{
    broadcast use group_shows;

    if k < rows.len() - 1 {
        lemma_row_in_rows(rows.drop_last(), disabled, ctx, k);
    }
}

proof fn lemma_row_in_sections(
    groups: Seq<(CategoryView, Seq<ToolEntry>)>,
    disabled: Set<Seq<char>>,
    ctx: CtxView,
    g: int,
    k: int,
)
    requires
        0 <= g < groups.len(),
        0 <= k < groups[g].1.len(),
    ensures
        shows(
            toggle_sections(groups, disabled, ctx),
            toggle_row(groups[g].1[k], !disabled.contains(groups[g].1[k].key@), ctx),
        ),
        shows(toggle_sections(groups, disabled, ctx), escaped(groups[g].0.label)),
    decreases groups.len(),
{
    broadcast use group_shows;

    reveal(toggle_section);
    if g < groups.len() - 1 {
        lemma_row_in_sections(groups.drop_last(), disabled, ctx, g, k);
    } else {
        lemma_row_in_rows(groups[g].1, disabled, ctx, k);
    }
}

proof fn lemma_grouped_place(entries: Seq<ToolEntry>, i: int) -> (p: (int, int))
    requires
        0 <= i < entries.len(),
    ensures
        0 <= p.0 < grouped(entries).len(),
        0 <= p.1 < grouped(entries)[p.0].1.len(),
        grouped(entries)[p.0].1[p.1] == entries[i],
        grouped(entries)[p.0].0 == entries[i].category@,
    decreases entries.len(),
{
    let d = entries.drop_last();
    let groups = grouped(d);
    let all = grouped(entries);
    let e = entries.last();
    let merged = groups.len() > 0 && groups.last().0 == e.category@;
    if i < entries.len() - 1 {
        let p = lemma_grouped_place(d, i);
        assert(d[i] == entries[i]);
        if merged {
            if p.0 == groups.len() - 1 {
                assert(all[p.0].1[p.1] == groups[p.0].1[p.1]);
            } else {
                assert(all[p.0] == groups[p.0]);
            }
        } else {
            assert(all[p.0] == groups[p.0]);
        }
        p
    } else if merged {
        (all.len() - 1, all.last().1.len() - 1)
    } else {
        (all.len() - 1, 0)
    }
}

/// Every tool has its row in the list, under the heading of its category, and is switched
/// off there if and only if it is one of those that were switched off.
pub proof fn every_tool_can_be_switched(
    entries: Seq<ToolEntry>,
    disabled: Set<Seq<char>>,
    ctx: CtxView,
    i: int,
)
    requires
        0 <= i < entries.len(),
    ensures
        shows(
            toggle_sections(grouped(entries), disabled, ctx),
            toggle_row(entries[i], !disabled.contains(entries[i].key@), ctx),
        ),
        shows(
            toggle_sections(grouped(entries), disabled, ctx),
            escaped(entries[i].category.label@),
        ),
{
    let p = lemma_grouped_place(entries, i);
    lemma_row_in_sections(grouped(entries), disabled, ctx, p.0, p.1);
}

/// A tool is found by its key, and what is found has that key.
pub proof fn a_tool_is_found_by_its_key(entries: Seq<ToolEntry>, key: Seq<char>)
    ensures
        entry_with(entries, key) is Some <==> exists|i: int|
            0 <= i < entries.len() && (#[trigger] entries[i]).key@ == key,
        entry_with(entries, key) matches Some(e) ==> e.key@ == key && entries.contains(e),
    decreases entries.len(),
{
    if entries.len() > 0 && entries[0].key@ != key {
        let rest = entries.drop_first();
        a_tool_is_found_by_its_key(rest, key);
        if entry_with(rest, key) is Some {
            let e = entry_with(rest, key)->0;
            let k = choose|k: int| 0 <= k < rest.len() && rest[k] == e;
            assert(entries[k + 1] == e);
        }
        if exists|i: int| 0 <= i < entries.len() && (#[trigger] entries[i]).key@ == key {
            let i = choose|i: int| 0 <= i < entries.len() && (#[trigger] entries[i]).key@ == key;
            assert(rest[i - 1] == entries[i]);
        }
    } else if entries.len() > 0 {
        assert(entries[0].key@ == key);
    }
}

} // verus!
