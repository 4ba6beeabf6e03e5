//! Groups of users and what they grant.
use crate::fields::{bool_checkbox, checkbox, name_field, pk_name_input};
use crate::forms::{checkbox_on, csv_items, is_checked, parse_csv};
use crate::html::{escaped, Html, Ui};
use crate::notice::{said, Notice};
use crate::text::{
    free_of, is_item, items_of, join, joined, list_reads_back, occurs_at, texts, trim, trimmed,
};
use crate::updates::{only_toast, toast, Answer, AnswerView, FlashKind};
use crate::markup::{ends_in, group_shows, shows, starts_as};
use vstd::prelude::*;

verus! {

/// A group with what it grants.
pub struct GroupView {
    pub name: String,
    pub description: String,
    pub is_admin: bool,
    pub is_default: bool,
    pub oidc_values: Vec<String>,
    pub tools: Vec<String>,
    pub skills: Vec<String>,
}

/// The form of a group.
pub struct SaveForm {
    pub name: String,
    pub description: String,
    pub is_admin: String,
    pub is_default: String,
    pub oidc_values: String,
    pub tools: String,
    pub skills: String,
}

/// Reads the form of a group.
pub fn read_group(form: &SaveForm) -> (r: Result<GroupView, Notice>)
    ensures
        r is Err <==> trimmed(form.name@).len() == 0,
        match r {
            Err(n) => n@ == said(false, "groups-error-name-required"@),
            Ok(g) => {
                &&& g.name@ == trimmed(form.name@)
                &&& g.description@ == trimmed(form.description@)
                &&& g.is_admin == is_checked(form.is_admin@)
                &&& g.is_default == is_checked(form.is_default@)
                &&& texts(g.oidc_values@) == csv_items(form.oidc_values@)
                &&& texts(g.tools@) == csv_items(form.tools@)
                &&& texts(g.skills@) == csv_items(form.skills@)
            },
        },
{
    let name = trim(&form.name);
    if name.as_str().is_empty() {
        return Err(Notice::plain(false, "groups-error-name-required"));
    }
    Ok(
        GroupView {
            name,
            description: trim(&form.description),
            is_admin: checkbox_on(&form.is_admin),
            is_default: checkbox_on(&form.is_default),
            oidc_values: parse_csv(&form.oidc_values),
            tools: parse_csv(&form.tools),
            skills: parse_csv(&form.skills),
        },
    )
}

/// The name of the group that a form deletes.
pub fn read_deletion(name: &str) -> (r: String)
    ensures
        r@ == trimmed(name@),
{
    trim(name)
}

/// What follows once a group was saved or deleted: the page of groups, or the
/// first error.
pub fn group_stored(error: Option<&str>) -> (r: Answer)
    ensures
        r@ == (match error {
            None => AnswerView::SeeOther { to: "/admin/groups"@ },
            Some(e) => AnswerView::Changes { updates: seq![toast(FlashKind::Error, e@)] },
        }),
{
    match error {
        None => Answer::SeeOther { to: "/admin/groups".to_owned() },
        Some(e) => Answer::Changes { updates: only_toast(FlashKind::Error, e) },
    }
}

/// Values that a field suggests.
pub open spec fn suggestions(values: Seq<String>) -> Seq<char>
    decreases values.len(),
{
    if values.len() == 0 {
        Seq::empty()
    } else {
        suggestions(values.drop_last()) + (
        r#"<option value=""#@
            + escaped(values.last()@)
            + r#""></option>"#@
        )
    }
}

fn render_suggestions(values: &Vec<String>) -> (r: Html)
    ensures
        r@ == suggestions(values@),
{
    let mut out = Html::empty();
    assert(values@.take(0) =~= Seq::<String>::empty());
    for i in 0..values.len()
        invariant
            out@ == suggestions(values@.take(i as int)),
    {
        assert(values@.take(i + 1).drop_last() =~= values@.take(i as int));
        let item =
            Html::new(r#"<option value=""#)
                .text(&values[i])
                .raw(r#""></option>"#)
        ;
        out = out.html(item);
    }
    assert(values@.take(values@.len() as int) =~= values@);
    out
}

/// What the fields suggest: values of the identity provider that were seen, known
/// tools and known skills.
pub open spec fn suggestion_lists(
    observed: Seq<String>,
    tool_ids: Seq<String>,
    skill_names: Seq<String>,
) -> Seq<char> {
    r#"<datalist id="oidc-values">"#@
        + suggestions(observed)
        + r#"</datalist><datalist id="tool-ids">"#@
        + suggestions(tool_ids)
        + r#"</datalist><datalist id="skill-names">"#@
        + suggestions(skill_names)
        + "</datalist>"@
}

/// Renders what the fields suggest.
pub fn datalists(
    observed: &Vec<String>,
    tool_ids: &Vec<String>,
    skill_names: &Vec<String>,
) -> (r: Html)
    ensures
        r@ == suggestion_lists(observed@, tool_ids@, skill_names@),
{
    Html::new(r#"<datalist id="oidc-values">"#)
        .html(render_suggestions(observed))
        .raw(r#"</datalist><datalist id="tool-ids">"#)
        .html(render_suggestions(tool_ids))
        .raw(r#"</datalist><datalist id="skill-names">"#)
        .html(render_suggestions(skill_names))
        .raw("</datalist>")
}

/// The field of a group's name.
pub fn name_input(value: &str, readonly: bool) -> (r: Html)
    ensures
        r@ == name_field(value@, "developers"@, readonly),
{
    pk_name_input(value, "developers", readonly)
}

/// The form of a group with these values.
pub open spec fn filled_form(
    ui: &Ui,
    stored: bool,
    heading: Seq<char>,
    name: Seq<char>,
    description: Seq<char>,
    is_admin: bool,
    is_default: bool,
    oidc: Seq<char>,
    tools: Seq<char>,
    skills: Seq<char>,
) -> Seq<char> {
    r#"<form method="post" action="/admin/groups/save" class="flex flex-col gap-3">"#@
        + r#"<h3 class="font-semibold">"#@
        + escaped(heading)
        + r#"</h3><label class="form-control"><span class="label-text">"#@
        + escaped(ui.message("groups-field-name"@))
        + "</span>"@
        + name_field(name, "developers"@, stored)
        + r#"</label><label class="form-control"><span class="label-text">"#@
        + escaped(ui.message("groups-field-description"@))
        + r#"</span><input type="text" name="description" value=""#@
        + escaped(description)
        + r#"" class="input input-bordered input-sm"></label><div class="flex gap-4 flex-wrap">"#@
        + checkbox("is_admin"@, "1"@, ui.message("groups-field-admin"@), is_admin, false)
        + checkbox("is_default"@, "1"@, ui.message("groups-field-default"@), is_default, false)
        + r#"</div><label class="form-control"><span class="label-text">"#@
        + escaped(ui.message("groups-field-oidc"@))
        + r#"</span><span class="label-text-alt text-base-content/60">"#@
        + escaped(ui.message("groups-field-oidc-help"@))
        + r#"</span><input type="text" name="oidc_values" value=""#@
        + escaped(oidc)
        + r#"" list="oidc-values" class="input input-bordered input-sm" placeholder="grp-dev,"#@
        + r#" CN=devs,OU=…"></label><label class="form-control"><span class="label-text">"#@
        + escaped(ui.message("groups-field-tools"@))
        + r#"</span><input type="text" name="tools" value=""#@
        + escaped(tools)
        + r#"" list="tool-ids" class="input input-bordered input-sm" placeholder="*"></label>"#@
        + r#"<label class="form-control"><span class="label-text">"#@
        + escaped(ui.message("groups-field-skills"@))
        + r#"</span><input type="text" name="skills" value=""#@
        + escaped(skills)
        + r#"" list="skill-names" class="input input-bordered input-sm" placeholder="*"></label>"#@
        + r#"<div class="flex justify-end"><button type="submit" class="btn btn-sm btn-primary">"#@
        + escaped(ui.message("groups-save"@))
        + "</button></div></form>"@
}

/// The form of a group: empty for a new one, filled with a stored one, whose name
/// stays.
#[verifier::opaque]
pub open spec fn form_of(ui: &Ui, existing: Option<&GroupView>) -> Seq<char> {
    match existing {
        Some(g) => filled_form(
            ui,
            true,
            g.name@,
            g.name@,
            g.description@,
            g.is_admin,
            g.is_default,
            joined(texts(g.oidc_values@), ", "@),
            joined(texts(g.tools@), ", "@),
            joined(texts(g.skills@), ", "@),
        ),
        None => filled_form(
            ui,
            false,
            ui.message("groups-new-heading"@),
            Seq::empty(),
            Seq::empty(),
            false,
            false,
            Seq::empty(),
            Seq::empty(),
            Seq::empty(),
        ),
    }
}

fn render_form(
    ui: &Ui,
    stored: bool,
    heading: String,
    name: String,
    description: String,
    is_admin: bool,
    is_default: bool,
    oidc: String,
    tools: String,
    skills: String,
) -> (r: Html)
    ensures
        r@ == filled_form(
            ui,
            stored,
            heading@,
            name@,
            description@,
            is_admin,
            is_default,
            oidc@,
            tools@,
            skills@,
        ),
{
    Html::new(r#"<form method="post" action="/admin/groups/save" class="flex flex-col gap-3">"#)
        .raw(r#"<h3 class="font-semibold">"#)
        .text(&heading)
        .raw(r#"</h3><label class="form-control"><span class="label-text">"#)
        .msg(ui, "groups-field-name")
        .raw("</span>")
        .html(name_input(&name, stored))
        .raw(r#"</label><label class="form-control"><span class="label-text">"#)
        .msg(ui, "groups-field-description")
        .raw(r#"</span><input type="text" name="description" value=""#)
        .text(&description)
        .raw(r#"" class="input input-bordered input-sm"></label><div class="flex gap-4 flex-wrap">"#)
        .html(bool_checkbox("is_admin", "1", &ui.t("groups-field-admin"), is_admin, false))
        .html(bool_checkbox("is_default", "1", &ui.t("groups-field-default"), is_default, false))
        .raw(r#"</div><label class="form-control"><span class="label-text">"#)
        .msg(ui, "groups-field-oidc")
        .raw(r#"</span><span class="label-text-alt text-base-content/60">"#)
        .msg(ui, "groups-field-oidc-help")
        .raw(r#"</span><input type="text" name="oidc_values" value=""#)
        .text(&oidc)
        .raw(r#"" list="oidc-values" class="input input-bordered input-sm" placeholder="grp-dev,"#)
        .raw(r#" CN=devs,OU=…"></label><label class="form-control"><span class="label-text">"#)
        .msg(ui, "groups-field-tools")
        .raw(r#"</span><input type="text" name="tools" value=""#)
        .text(&tools)
        .raw(r#"" list="tool-ids" class="input input-bordered input-sm" placeholder="*"></label>"#)
        .raw(r#"<label class="form-control"><span class="label-text">"#)
        .msg(ui, "groups-field-skills")
        .raw(r#"</span><input type="text" name="skills" value=""#)
        .text(&skills)
        .raw(r#"" list="skill-names" class="input input-bordered input-sm" placeholder="*"></label>"#)
        .raw(r#"<div class="flex justify-end"><button type="submit" class="btn btn-sm btn-primary">"#)
        .msg(ui, "groups-save")
        .raw("</button></div></form>")
}

/// Renders the form of a group.
pub fn group_form(ui: &Ui, existing: Option<&GroupView>) -> (r: Html)
    ensures
        r@ == form_of(ui, existing),
{
    proof {
        reveal(form_of);
    }
    match existing {
        Some(g) => render_form(
            ui,
            true,
            g.name.clone(),
            g.name.clone(),
            g.description.clone(),
            g.is_admin,
            g.is_default,
            join(&g.oidc_values, ", "),
            join(&g.tools, ", "),
            join(&g.skills, ", "),
        ),
        None => {
            let empty = String::new();
            assert(empty@ =~= Seq::<char>::empty());
            render_form(
                ui,
                false,
                ui.t("groups-new-heading"),
                String::new(),
                String::new(),
                false,
                false,
                String::new(),
                String::new(),
                String::new(),
            )
        },
    }
}

/// A stored group: its form, and a button that deletes it.
pub open spec fn card(ui: &Ui, g: GroupView) -> Seq<char> {
    r#"<article class="card border border-base-300 bg-base-100"><div class="card-body gap-3 p-4">"#@
        + form_of(ui, Some(&g))
        + r#"<form method="post" action="/admin/groups/delete" class="flex justify-end">"#@
        + r#"<input type="hidden" name="name" value=""#@
        + escaped(g.name@)
        + r#"">"#@
        + r#"<button type="submit" class="btn btn-sm btn-ghost text-error" onclick="return"#@
        + r#" confirm(&#39;Delete this group?&#39;)">"#@
        + ui.icon_markup("trash"@, 16)
        + escaped(ui.message("groups-delete"@))
        + "</button></form></div></article>"@
}

/// Renders a stored group.
pub fn group_card(ui: &Ui, g: &GroupView) -> (r: Html)
    ensures
        r@ == card(ui, *g),
{
    Html::new(r#"<article class="card border border-base-300 bg-base-100"><div class="card-body gap-3 p-4">"#)
        .html(group_form(ui, Some(g)))
        .raw(r#"<form method="post" action="/admin/groups/delete" class="flex justify-end">"#)
        .raw(r#"<input type="hidden" name="name" value=""#)
        .text(&g.name)
        .raw(r#"">"#)
        .raw(r#"<button type="submit" class="btn btn-sm btn-ghost text-error" onclick="return"#)
        .raw(r#" confirm(&#39;Delete this group?&#39;)">"#)
        .icon(ui, "trash", 16)
        .msg(ui, "groups-delete")
        .raw("</button></form></div></article>")
}

/// The stored groups.
pub open spec fn cards(ui: &Ui, views: Seq<GroupView>) -> Seq<char>
    decreases views.len(),
{
    if views.len() == 0 {
        Seq::empty()
    } else {
        cards(ui, views.drop_last()) + card(ui, views.last())
    }
}

fn render_cards(ui: &Ui, views: &Vec<GroupView>) -> (r: Html)
    ensures
        r@ == cards(ui, views@),
{
    let mut out = Html::empty();
    assert(views@.take(0) =~= Seq::<GroupView>::empty());
    for i in 0..views.len()
        invariant
            out@ == cards(ui, views@.take(i as int)),
    {
        assert(views@.take(i + 1).drop_last() =~= views@.take(i as int));
        out = out.html(group_card(ui, &views[i]));
    }
    assert(views@.take(views@.len() as int) =~= views@);
    out
}

/// The page of groups.
pub open spec fn groups_page(
    ui: &Ui,
    views: Seq<GroupView>,
    observed: Seq<String>,
    tool_ids: Seq<String>,
    skill_names: Seq<String>,
) -> Seq<char> {
    r#"<section class="max-w-4xl mx-auto p-4 sm:p-6 flex flex-col gap-6">"#@
        + r#"<header class="flex flex-col gap-1"><h1 class="text-2xl font-bold">"#@
        + escaped(ui.message("groups-heading"@))
        + r#"</h1><p class="text-base-content/70 text-sm">"#@
        + escaped(ui.message("groups-intro"@))
        + "</p></header>"@
        + suggestion_lists(observed, tool_ids, skill_names)
        + form_of(ui, None)
        + r#"<div class="flex flex-col gap-4"><h2 class="text-lg font-semibold">"#@
        + escaped(ui.message("groups-existing-heading"@))
        + "</h2>"@
        + (if views.len() == 0 {
            r#"<p class="text-base-content/60 text-sm">"#@
                + escaped(ui.message("groups-empty"@))
                + "</p>"@
        } else {
            cards(ui, views)
        })
        + "</div></section>"@
}

/// Renders the page of groups.
pub fn render_body(
    ui: &Ui,
    views: &Vec<GroupView>,
    observed: &Vec<String>,
    tool_ids: &Vec<String>,
    skill_names: &Vec<String>,
) -> (r: Html)
    ensures
        r@ == groups_page(ui, views@, observed@, tool_ids@, skill_names@),
{
    Html::new(r#"<section class="max-w-4xl mx-auto p-4 sm:p-6 flex flex-col gap-6">"#)
        .raw(r#"<header class="flex flex-col gap-1"><h1 class="text-2xl font-bold">"#)
        .msg(ui, "groups-heading")
        .raw(r#"</h1><p class="text-base-content/70 text-sm">"#)
        .msg(ui, "groups-intro")
        .raw("</p></header>")
        .html(datalists(observed, tool_ids, skill_names))
        .html(group_form(ui, None))
        .raw(r#"<div class="flex flex-col gap-4"><h2 class="text-lg font-semibold">"#)
        .msg(ui, "groups-existing-heading")
        .raw("</h2>")
        .html(if views.len() == 0 {
            Html::new(r#"<p class="text-base-content/60 text-sm">"#)
                .msg(ui, "groups-empty")
                .raw("</p>")
        } else {
            render_cards(ui, views)
        })
        .raw("</div></section>")
}

/// The grants of a group.
pub open spec fn grant_lists(g: GroupView) -> Seq<Seq<Seq<char>>> {
    seq![texts(g.oidc_values@), texts(g.tools@), texts(g.skills@)]
}

/// A form that is saved unchanged changes no grant: each list that it shows is
/// read as it was, if its items hold no comma and no white space at their ends.
pub proof fn grants_read_back(g: GroupView, k: int)
    requires
        0 <= k < 3,
        forall|i: int|
            0 <= i < grant_lists(g)[k].len() ==> is_item(#[trigger] grant_lists(g)[k][i])
                && free_of(grant_lists(g)[k][i], false, ","@),
    ensures
        csv_items(joined(grant_lists(g)[k], ", "@)) == grant_lists(g)[k],
{
    list_reads_back(grant_lists(g)[k]);
}

proof fn lemma_form_shows_the_group()
    ensures
        starts_as(
            r#"" readonly="readonly" class="input input-bordered input-sm font-mono bg-base-200">"#@,
            r#"" readonly="readonly""#@,
        ),
        ends_in(
            r#"</span><input type="text" name="description" value=""#@,
            r#"<input type="text" name="description" value=""#@,
        ),
        starts_as(
            r#"" class="input input-bordered input-sm"></label><div class="flex gap-4 flex-wrap">"#@,
            r#"" class="#@,
        ),
        starts_as(
            r#"" class="checkbox checkbox-sm">"#@,
            r#"" class="#@,
        ),
        ends_in(
            r#"</span><input type="text" name="oidc_values" value=""#@,
            r#"<input type="text" name="oidc_values" value=""#@,
        ),
        starts_as(
            r#"" list="oidc-values" class="input input-bordered input-sm" placeholder="grp-dev,"#@,
            r#"" list="oidc-values""#@,
        ),
        ends_in(
            r#"</span><input type="text" name="tools" value=""#@,
            r#"<input type="text" name="tools" value=""#@,
        ),
        starts_as(
            r#"" list="tool-ids" class="input input-bordered input-sm" placeholder="*"></label>"#@,
            r#"" list="tool-ids""#@,
        ),
        ends_in(
            r#"</span><input type="text" name="skills" value=""#@,
            r#"<input type="text" name="skills" value=""#@,
        ),
        starts_as(
            r#"" list="skill-names" class="input input-bordered input-sm" placeholder="*"></label>"#@,
            r#"" list="skill-names""#@,
        ),
{
    assert(starts_as(r#"" readonly="readonly" class="input input-bordered input-sm font-mono bg-base-200">"#@, r#"" readonly="readonly""#@)) by {
        reveal(starts_as);
        reveal_strlit(r#"" readonly="readonly" class="input input-bordered input-sm font-mono bg-base-200">"#);
        reveal_strlit(r#"" readonly="readonly""#);
        assert(r#"" readonly="readonly" class="input input-bordered input-sm font-mono bg-base-200">"#@.take(21) =~= r#"" readonly="readonly""#@);
    }
    assert(ends_in(r#"</span><input type="text" name="description" value=""#@, r#"<input type="text" name="description" value=""#@)) by {
        reveal(ends_in);
        reveal_strlit(r#"</span><input type="text" name="description" value=""#);
        reveal_strlit(r#"<input type="text" name="description" value=""#);
        assert(r#"</span><input type="text" name="description" value=""#@.skip(7) =~= r#"<input type="text" name="description" value=""#@);
    }
    assert(starts_as(r#"" class="input input-bordered input-sm"></label><div class="flex gap-4 flex-wrap">"#@, r#"" class="#@)) by {
        reveal(starts_as);
        reveal_strlit(r#"" class="input input-bordered input-sm"></label><div class="flex gap-4 flex-wrap">"#);
        reveal_strlit(r#"" class="#);
        assert(r#"" class="input input-bordered input-sm"></label><div class="flex gap-4 flex-wrap">"#@.take(8) =~= r#"" class="#@);
    }
    assert(starts_as(r#"" class="checkbox checkbox-sm">"#@, r#"" class="#@)) by {
        reveal(starts_as);
        reveal_strlit(r#"" class="checkbox checkbox-sm">"#);
        reveal_strlit(r#"" class="#);
        assert(r#"" class="checkbox checkbox-sm">"#@.take(8) =~= r#"" class="#@);
    }
    assert(ends_in(r#"</span><input type="text" name="oidc_values" value=""#@, r#"<input type="text" name="oidc_values" value=""#@)) by {
        reveal(ends_in);
        reveal_strlit(r#"</span><input type="text" name="oidc_values" value=""#);
        reveal_strlit(r#"<input type="text" name="oidc_values" value=""#);
        assert(r#"</span><input type="text" name="oidc_values" value=""#@.skip(7) =~= r#"<input type="text" name="oidc_values" value=""#@);
    }
    assert(starts_as(r#"" list="oidc-values" class="input input-bordered input-sm" placeholder="grp-dev,"#@, r#"" list="oidc-values""#@)) by {
        reveal(starts_as);
        reveal_strlit(r#"" list="oidc-values" class="input input-bordered input-sm" placeholder="grp-dev,"#);
        reveal_strlit(r#"" list="oidc-values""#);
        assert(r#"" list="oidc-values" class="input input-bordered input-sm" placeholder="grp-dev,"#@.take(20) =~= r#"" list="oidc-values""#@);
    }
    assert(ends_in(r#"</span><input type="text" name="tools" value=""#@, r#"<input type="text" name="tools" value=""#@)) by {
        reveal(ends_in);
        reveal_strlit(r#"</span><input type="text" name="tools" value=""#);
        reveal_strlit(r#"<input type="text" name="tools" value=""#);
        assert(r#"</span><input type="text" name="tools" value=""#@.skip(7) =~= r#"<input type="text" name="tools" value=""#@);
    }
    assert(starts_as(r#"" list="tool-ids" class="input input-bordered input-sm" placeholder="*"></label>"#@, r#"" list="tool-ids""#@)) by {
        reveal(starts_as);
        reveal_strlit(r#"" list="tool-ids" class="input input-bordered input-sm" placeholder="*"></label>"#);
        reveal_strlit(r#"" list="tool-ids""#);
        assert(r#"" list="tool-ids" class="input input-bordered input-sm" placeholder="*"></label>"#@.take(17) =~= r#"" list="tool-ids""#@);
    }
    assert(ends_in(r#"</span><input type="text" name="skills" value=""#@, r#"<input type="text" name="skills" value=""#@)) by {
        reveal(ends_in);
        reveal_strlit(r#"</span><input type="text" name="skills" value=""#);
        reveal_strlit(r#"<input type="text" name="skills" value=""#);
        assert(r#"</span><input type="text" name="skills" value=""#@.skip(7) =~= r#"<input type="text" name="skills" value=""#@);
    }
    assert(starts_as(r#"" list="skill-names" class="input input-bordered input-sm" placeholder="*"></label>"#@, r#"" list="skill-names""#@)) by {
        reveal(starts_as);
        reveal_strlit(r#"" list="skill-names" class="input input-bordered input-sm" placeholder="*"></label>"#);
        reveal_strlit(r#"" list="skill-names""#);
        assert(r#"" list="skill-names" class="input input-bordered input-sm" placeholder="*"></label>"#@.take(20) =~= r#"" list="skill-names""#@);
    }
}

/// The form of a group shows each of its texts and lists in the field that it is read from,
/// and ticks the boxes of what the group is.
#[verifier::rlimit(30)]
pub proof fn form_shows_the_group(ui: &Ui, g: &GroupView)
    ensures
        ({
            let page = form_of(ui, Some(g));
            &&& shows(page, r#"<input type="text" name="name" value=""#@ + escaped(g.name@) + r#"" readonly="readonly""#@)
            &&& shows(page, r#"<input type="text" name="description" value=""#@ + escaped(g.description@) + r#"" class="#@)
            &&& shows(page, r#"<input type="text" name="oidc_values" value=""#@ + escaped(joined(texts(g.oidc_values@), ", "@)) + r#"" list="oidc-values""#@)
            &&& shows(page, r#"<input type="text" name="tools" value=""#@ + escaped(joined(texts(g.tools@), ", "@)) + r#"" list="tool-ids""#@)
            &&& shows(page, r#"<input type="text" name="skills" value=""#@ + escaped(joined(texts(g.skills@), ", "@)) + r#"" list="skill-names""#@)
            &&& g.is_admin ==> shows(page, r#"<input type="checkbox" name=""#@ + escaped("is_admin"@) + r#"" value=""#@ + escaped("1"@) + r#"" checked="checked" class="checkbox checkbox-sm">"#@)
            &&& !g.is_admin ==> shows(page, r#"<input type="checkbox" name=""#@ + escaped("is_admin"@) + r#"" value=""#@ + escaped("1"@) + r#"" class="checkbox checkbox-sm">"#@)
            &&& g.is_default ==> shows(page, r#"<input type="checkbox" name=""#@ + escaped("is_default"@) + r#"" value=""#@ + escaped("1"@) + r#"" checked="checked" class="checkbox checkbox-sm">"#@)
            &&& !g.is_default ==> shows(page, r#"<input type="checkbox" name=""#@ + escaped("is_default"@) + r#"" value=""#@ + escaped("1"@) + r#"" class="checkbox checkbox-sm">"#@)
        }),
{
    broadcast use group_shows;

    lemma_form_shows_the_group();
    reveal(form_of);
    reveal(checkbox);
}

proof fn lemma_a_card_deletes_its_group()
    ensures
        shows(
            r#"<form method="post" action="/admin/groups/delete" class="flex justify-end">"#@,
            r#"<form method="post" action="/admin/groups/delete""#@,
        ),
{
    assert(shows(r#"<form method="post" action="/admin/groups/delete" class="flex justify-end">"#@, r#"<form method="post" action="/admin/groups/delete""#@)) by {
        reveal(shows);
        reveal_strlit(r#"<form method="post" action="/admin/groups/delete" class="flex justify-end">"#);
        reveal_strlit(r#"<form method="post" action="/admin/groups/delete""#);
        assert(r#"<form method="post" action="/admin/groups/delete" class="flex justify-end">"#@.subrange(0, 49) =~= r#"<form method="post" action="/admin/groups/delete""#@);
        assert(occurs_at(r#"<form method="post" action="/admin/groups/delete" class="flex justify-end">"#@, r#"<form method="post" action="/admin/groups/delete""#@, 0));
    }
}

/// The card of a group holds its form, and deletes that group and no other.
pub proof fn a_card_deletes_its_group(ui: &Ui, g: GroupView)
    ensures
        ({
            let page = card(ui, g);
            &&& shows(page, r#"<form method="post" action="/admin/groups/delete""#@)
            &&& shows(page, r#"<input type="hidden" name="name" value=""#@ + escaped(g.name@) + r#"">"#@)
        }),
{
    broadcast use group_shows;

    lemma_a_card_deletes_its_group();
}

/// Every group has its card on the page.
pub proof fn every_group_is_listed(
    ui: &Ui,
    views: Seq<GroupView>,
    observed: Seq<String>,
    tool_ids: Seq<String>,
    skill_names: Seq<String>,
    i: int,
)
    requires
        0 <= i < views.len(),
    ensures
        shows(groups_page(ui, views, observed, tool_ids, skill_names), card(ui, views[i])),
        shows(card(ui, views[i]), form_of(ui, Some(&views[i]))),
{
    broadcast use group_shows;

    lemma_group_is_listed(ui, views, i);
}

proof fn lemma_group_is_listed(ui: &Ui, views: Seq<GroupView>, i: int)
    requires
        0 <= i < views.len(),
    ensures
        shows(cards(ui, views), card(ui, views[i])),
    decreases views.len(),
{
    broadcast use group_shows;

    if i < views.len() - 1 {
        lemma_group_is_listed(ui, views.drop_last(), i);
    }
}

/// What is stored of a group is what was typed into its form, each text in its place and
/// without the blanks around it, and each list item by item. A group without a name is
/// refused, and no other.
pub proof fn a_group_is_stored_as_typed(form: &SaveForm, r: Result<GroupView, Notice>)
    requires
        call_ensures(read_group, (form,), r),
    ensures
        r is Err <==> trimmed(form.name@).len() == 0,
        r matches Err(n) ==> n@ == said(false, "groups-error-name-required"@),
        r matches Ok(g) ==> {
            &&& g.name@ == trimmed(form.name@)
            &&& g.description@ == trimmed(form.description@)
            &&& g.is_admin <==> is_checked(form.is_admin@)
            &&& g.is_default <==> is_checked(form.is_default@)
            &&& texts(g.oidc_values@) == items_of(form.oidc_values@, ","@)
            &&& texts(g.tools@) == items_of(form.tools@, ","@)
            &&& texts(g.skills@) == items_of(form.skills@, ","@)
        },
{
}

/// Opening the form of a group and sending it as it is keeps the group.
pub proof fn an_unchanged_group_is_kept(g: GroupView, form: &SaveForm, r: Result<GroupView, Notice>)
    requires
        is_item(g.name@),
        is_item(g.description@) || g.description@.len() == 0,
        forall|k: int, i: int|
            0 <= k < 3 && 0 <= i < grant_lists(g)[k].len() ==> is_item(
                #[trigger] grant_lists(g)[k][i],
            ) && free_of(grant_lists(g)[k][i], false, ","@),
        form.name@ == g.name@,
        form.description@ == g.description@,
        form.is_admin@ == (if g.is_admin { "1"@ } else { ""@ }),
        form.is_default@ == (if g.is_default { "1"@ } else { ""@ }),
        form.oidc_values@ == joined(texts(g.oidc_values@), ", "@),
        form.tools@ == joined(texts(g.tools@), ", "@),
        form.skills@ == joined(texts(g.skills@), ", "@),
        call_ensures(read_group, (form,), r),
    ensures
        r matches Ok(kept) && {
            &&& kept.name@ == g.name@
            &&& kept.description@ == g.description@
            &&& kept.is_admin == g.is_admin
            &&& kept.is_default == g.is_default
            &&& texts(kept.oidc_values@) == texts(g.oidc_values@)
            &&& texts(kept.tools@) == texts(g.tools@)
            &&& texts(kept.skills@) == texts(g.skills@)
        },
{
    let lists = grant_lists(g);
    assert forall|k: int| 0 <= k < 3 implies items_of(joined(#[trigger] lists[k], ", "@), ","@)
        == lists[k] by {
        assert forall|i: int| 0 <= i < lists[k].len() implies is_item(#[trigger] lists[k][i])
            && free_of(lists[k][i], false, ","@) by {
            assert(is_item(grant_lists(g)[k][i]));
        }
        list_reads_back(lists[k]);
    }
    assert(lists[0] == texts(g.oidc_values@));
    assert(lists[1] == texts(g.tools@));
    assert(lists[2] == texts(g.skills@));
    crate::text::lemma_item_trimmed(g.name@);
    if g.description@.len() > 0 {
        crate::text::lemma_item_trimmed(g.description@);
    } else {
        assert(trimmed(g.description@) =~= g.description@);
    }
    crate::forms::a_box_is_ticked("1"@);
    reveal_strlit("");
    assert(""@ =~= Seq::<char>::empty());
}

/// A stored group brings one back to the list; what went wrong is told.
pub proof fn a_stored_group_leads_to_the_list(error: Option<&str>, r: Answer)
    requires
        call_ensures(group_stored, (error,), r),
    ensures
        error is None ==> r@ == (AnswerView::SeeOther { to: "/admin/groups"@ }),
        error matches Some(e) ==> r@ == (AnswerView::Changes {
            updates: seq![toast(FlashKind::Error, e@)],
        }),
{
}

proof fn lemma_suggestions(values: Seq<String>, i: int)
    requires
        0 <= i < values.len(),
    ensures
        shows(
            suggestions(values),
            r#"<option value=""#@ + escaped(values[i]@) + r#""></option>"#@,
        ),
    decreases values.len(),
{
    broadcast use group_shows;

    if i < values.len() - 1 {
        lemma_suggestions(values.drop_last(), i);
    }
}

/// Every value that is known is suggested, in the list of its field.
pub proof fn every_known_value_is_suggested(
    observed: Seq<String>,
    tools: Seq<String>,
    skills: Seq<String>,
    values: Seq<String>,
    i: int,
)
    ensures
        ({
            let page = suggestion_lists(observed, tools, skills);
            &&& shows(page, r#"<datalist id="oidc-values">"#@ + suggestions(observed))
            &&& shows(page, r#"<datalist id="tool-ids">"#@ + suggestions(tools))
            &&& shows(page, r#"<datalist id="skill-names">"#@ + suggestions(skills))
        }),
        0 <= i < values.len() ==> shows(
            suggestions(values),
            r#"<option value=""#@ + escaped(values[i]@) + r#""></option>"#@,
        ),
{
    broadcast use group_shows;

    if 0 <= i < values.len() {
        lemma_suggestions(values, i);
    }
    let tools_head = r#"</datalist><datalist id="tool-ids">"#@;
    let skills_head = r#"</datalist><datalist id="skill-names">"#@;
    assert(ends_in(tools_head, r#"<datalist id="tool-ids">"#@)) by {
        reveal(ends_in);
        reveal_strlit(r#"</datalist><datalist id="tool-ids">"#);
        reveal_strlit(r#"<datalist id="tool-ids">"#);
        assert(tools_head.skip(11) =~= r#"<datalist id="tool-ids">"#@);
    }
    assert(ends_in(skills_head, r#"<datalist id="skill-names">"#@)) by {
        reveal(ends_in);
        reveal_strlit(r#"</datalist><datalist id="skill-names">"#);
        reveal_strlit(r#"<datalist id="skill-names">"#);
        assert(skills_head.skip(11) =~= r#"<datalist id="skill-names">"#@);
    }
}

proof fn lemma_a_group_is_deleted_by_its_button()
    ensures
        starts_as(
            "</button></form></div></article>"@,
            "</button></form>"@,
        ),
{
    assert(starts_as("</button></form></div></article>"@, "</button></form>"@)) by {
        reveal(starts_as);
        reveal_strlit("</button></form></div></article>");
        reveal_strlit("</button></form>");
        assert("</button></form></div></article>"@.take(16) =~= "</button></form>"@);
    }
}

/// The button that deletes a group is labelled so.
pub proof fn a_group_is_deleted_by_its_button(ui: &Ui, g: GroupView)
    ensures
        ({
            let page = card(ui, g);
            &&& shows(page, escaped(ui.message("groups-delete"@)) + "</button></form>"@)
        }),
{
    broadcast use group_shows;

    lemma_a_group_is_deleted_by_its_button();
}

} // verus!
