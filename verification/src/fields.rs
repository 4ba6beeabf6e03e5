//! Fields that the forms of administrators share.
use crate::html::{escaped, Html, Ui};
use crate::markup::{ends_in, group_shows, shows, starts_as};
use vstd::prelude::*;

verus! {

/// A checkbox. An unchecked one has no mark at all, as the mark counts by being
/// there.
#[verifier::opaque]
pub open spec fn checkbox(
    name: Seq<char>,
    value: Seq<char>,
    label: Seq<char>,
    checked: bool,
    mono: bool,
) -> Seq<char> {
    let input_head = if checked {
        r#"<input type="checkbox" name=""#@
            + escaped(name)
            + r#"" value=""#@
            + escaped(value)
            + r#"" checked="checked" class="checkbox checkbox-sm">"#@
    } else {
        r#"<input type="checkbox" name=""#@
            + escaped(name)
            + r#"" value=""#@
            + escaped(value)
            + r#"" class="checkbox checkbox-sm">"#@
    };
    r#"<label class="label cursor-pointer justify-start gap-2">"#@
        + input_head
        + r#"<span class=""#@
        + (if mono { "label-text font-mono"@ } else { "label-text"@ })
        + r#"">"#@
        + escaped(label)
        + "</span></label>"@
}

/// Renders a checkbox.
pub fn bool_checkbox(name: &str, value: &str, label: &str, checked: bool, mono: bool) -> (r: Html)
    ensures
        r@ == checkbox(name@, value@, label@, checked, mono),
{
    proof {
        reveal(checkbox);
    }
    let input_head = if checked {
        Html::new(r#"<input type="checkbox" name=""#)
            .text(name)
            .raw(r#"" value=""#)
            .text(value)
            .raw(r#"" checked="checked" class="checkbox checkbox-sm">"#)
    } else {
        Html::new(r#"<input type="checkbox" name=""#)
            .text(name)
            .raw(r#"" value=""#)
            .text(value)
            .raw(r#"" class="checkbox checkbox-sm">"#)
    };
    Html::new(r#"<label class="label cursor-pointer justify-start gap-2">"#)
        .html(input_head)
        .raw(r#"<span class=""#)
        .html(Html::new(if mono { "label-text font-mono" } else { "label-text" }))
        .raw(r#"">"#)
        .text(label)
        .raw("</span></label>")
}

/// The field of a name. A name that is stored cannot be changed.
pub open spec fn name_field(value: Seq<char>, placeholder: Seq<char>, locked: bool) -> Seq<char> {
    if locked {
        r#"<input type="text" name="name" value=""#@
            + escaped(value)
            + r#"" readonly="readonly" class="input input-bordered input-sm font-mono bg-base-200">"#@
    } else {
        r#"<input type="text" name="name" value=""#@
            + escaped(value)
            + r#"" required="required" class="input input-bordered input-sm font-mono" placeholder=""#@
            + escaped(placeholder)
            + r#"">"#@
    }
}

/// Renders the field of a name.
pub fn pk_name_input(value: &str, placeholder: &str, locked: bool) -> (r: Html)
    ensures
        r@ == name_field(value@, placeholder@, locked),
{
    if locked {
        Html::new(r#"<input type="text" name="name" value=""#)
            .text(value)
            .raw(r#"" readonly="readonly" class="input input-bordered input-sm font-mono bg-base-200">"#)
    } else {
        Html::new(r#"<input type="text" name="name" value=""#)
            .text(value)
            .raw(r#"" required="required" class="input input-bordered input-sm font-mono" placeholder=""#)
            .text(placeholder)
            .raw(r#"">"#)
    }
}

/// The form that deletes something by its name.
pub open spec fn delete_form(
    ui: &Ui,
    action: Seq<char>,
    name: Seq<char>,
    label: Seq<char>,
) -> Seq<char> {
    r#"<form method="post" action=""#@
        + escaped(action)
        + r#"" data-on:submit__prevent="@post(&#39;"#@
        + escaped(action)
        + r#"&#39;, {contentType: &#39;form&#39;})" class="flex justify-end m-0">"#@
        + r#"<input type="hidden" name="name" value=""#@
        + escaped(name)
        + r#""><button type="submit" class="btn btn-ghost btn-sm text-error">"#@
        + ui.icon_markup("trash"@, 14)
        + "<span>"@
        + escaped(label)
        + "</span></button></form>"@
}

/// Renders the form that deletes something by its name.
pub fn render_delete_form(ui: &Ui, action: &str, name: &str, label: &str) -> (r: Html)
    ensures
        r@ == delete_form(ui, action@, name@, label@),
{
    Html::new(r#"<form method="post" action=""#)
        .text(action)
        .raw(r#"" data-on:submit__prevent="@post(&#39;"#)
        .text(action)
        .raw(r#"&#39;, {contentType: &#39;form&#39;})" class="flex justify-end m-0">"#)
        .raw(r#"<input type="hidden" name="name" value=""#)
        .text(name)
        .raw(r#""><button type="submit" class="btn btn-ghost btn-sm text-error">"#)
        .icon(ui, "trash", 14)
        .raw("<span>")
        .text(label)
        .raw("</span></button></form>")
}

// ---------------------------------------------------------------------------
// Laws

proof fn lemma_a_box_shows_its_state()
    ensures
        ends_in(
            r#"" class="checkbox checkbox-sm">"#@,
            r#"">"#@,
        ),
        ends_in(
            r#"" checked="checked" class="checkbox checkbox-sm">"#@,
            r#"">"#@,
        ),
        ends_in(
            r#"<label class="label cursor-pointer justify-start gap-2">"#@,
            r#"">"#@,
        ),
{
    assert(ends_in(r#"" class="checkbox checkbox-sm">"#@, r#"">"#@)) by {
        reveal(ends_in);
        reveal_strlit(r#"" class="checkbox checkbox-sm">"#);
        reveal_strlit(r#"">"#);
        assert(r#"" class="checkbox checkbox-sm">"#@.skip(29) =~= r#"">"#@);
    }
    assert(ends_in(r#"" checked="checked" class="checkbox checkbox-sm">"#@, r#"">"#@)) by {
        reveal(ends_in);
        reveal_strlit(r#"" checked="checked" class="checkbox checkbox-sm">"#);
        reveal_strlit(r#"">"#);
        assert(r#"" checked="checked" class="checkbox checkbox-sm">"#@.skip(47) =~= r#"">"#@);
    }
    assert(ends_in(r#"<label class="label cursor-pointer justify-start gap-2">"#@, r#"">"#@)) by {
        reveal(ends_in);
        reveal_strlit(r#"<label class="label cursor-pointer justify-start gap-2">"#);
        reveal_strlit(r#"">"#);
        assert(r#"<label class="label cursor-pointer justify-start gap-2">"#@.skip(54) =~= r#"">"#@);
    }
}

/// A box has its name, its value and its label, and is ticked if and only if it is on.
pub proof fn a_box_shows_its_state(name: Seq<char>, value: Seq<char>, label: Seq<char>, checked: bool, mono: bool)
    ensures
        ({
            let page = checkbox(name, value, label, checked, mono);
            &&& checked ==> shows(page, r#"<input type="checkbox" name=""#@ + escaped(name) + r#"" value=""#@ + escaped(value) + r#"" checked="checked" class="checkbox checkbox-sm">"#@)
            &&& !checked ==> shows(page, r#"<input type="checkbox" name=""#@ + escaped(name) + r#"" value=""#@ + escaped(value) + r#"" class="checkbox checkbox-sm">"#@)
            &&& shows(page, r#"">"#@ + escaped(label) + "</span></label>"@)
        }),
{
    broadcast use group_shows;

    lemma_a_box_shows_its_state();
    reveal(checkbox);
}

proof fn lemma_a_name_is_locked_once_stored()
    ensures
        starts_as(
            r#"" readonly="readonly" class="input input-bordered input-sm font-mono bg-base-200">"#@,
            r#"" readonly="readonly""#@,
        ),
        starts_as(
            r#"" required="required" class="input input-bordered input-sm font-mono" placeholder=""#@,
            r#"" required="required""#@,
        ),
{
    assert(starts_as(r#"" readonly="readonly" class="input input-bordered input-sm font-mono bg-base-200">"#@, r#"" readonly="readonly""#@)) by {
        reveal(starts_as);
        reveal_strlit(r#"" readonly="readonly" class="input input-bordered input-sm font-mono bg-base-200">"#);
        reveal_strlit(r#"" readonly="readonly""#);
        assert(r#"" readonly="readonly" class="input input-bordered input-sm font-mono bg-base-200">"#@.take(21) =~= r#"" readonly="readonly""#@);
    }
    assert(starts_as(r#"" required="required" class="input input-bordered input-sm font-mono" placeholder=""#@, r#"" required="required""#@)) by {
        reveal(starts_as);
        reveal_strlit(r#"" required="required" class="input input-bordered input-sm font-mono" placeholder=""#);
        reveal_strlit(r#"" required="required""#);
        assert(r#"" required="required" class="input input-bordered input-sm font-mono" placeholder=""#@.take(21) =~= r#"" required="required""#@);
    }
}

/// The field of a name shows it, and lets it be changed only while it is not stored yet.
pub proof fn a_name_is_locked_once_stored(value: Seq<char>, placeholder: Seq<char>, locked: bool)
    ensures
        ({
            let page = name_field(value, placeholder, locked);
            &&& locked ==> shows(page, r#"<input type="text" name="name" value=""#@ + escaped(value) + r#"" readonly="readonly""#@)
            &&& !locked ==> shows(page, r#"<input type="text" name="name" value=""#@ + escaped(value) + r#"" required="required""#@)
        }),
{
    broadcast use group_shows;

    lemma_a_name_is_locked_once_stored();
}

proof fn lemma_a_deletion_names_its_object()
    ensures
        starts_as(
            r#"&#39;, {contentType: &#39;form&#39;})" class="flex justify-end m-0">"#@,
            r#"&#39;, {contentType: &#39;form&#39;})""#@,
        ),
        starts_as(
            r#""><button type="submit" class="btn btn-ghost btn-sm text-error">"#@,
            r#""><button"#@,
        ),
{
    assert(starts_as(r#"&#39;, {contentType: &#39;form&#39;})" class="flex justify-end m-0">"#@, r#"&#39;, {contentType: &#39;form&#39;})""#@)) by {
        reveal(starts_as);
        reveal_strlit(r#"&#39;, {contentType: &#39;form&#39;})" class="flex justify-end m-0">"#);
        reveal_strlit(r#"&#39;, {contentType: &#39;form&#39;})""#);
        assert(r#"&#39;, {contentType: &#39;form&#39;})" class="flex justify-end m-0">"#@.take(38) =~= r#"&#39;, {contentType: &#39;form&#39;})""#@);
    }
    assert(starts_as(r#""><button type="submit" class="btn btn-ghost btn-sm text-error">"#@, r#""><button"#@)) by {
        reveal(starts_as);
        reveal_strlit(r#""><button type="submit" class="btn btn-ghost btn-sm text-error">"#);
        reveal_strlit(r#""><button"#);
        assert(r#""><button type="submit" class="btn btn-ghost btn-sm text-error">"#@.take(9) =~= r#""><button"#@);
    }
}

/// The form of a deletion sends the name of what is deleted to where it says.
pub proof fn a_deletion_names_its_object(ui: &Ui, action: Seq<char>, name: Seq<char>, label: Seq<char>)
    ensures
        ({
            let page = delete_form(ui, action, name, label);
            &&& shows(page, r#"<form method="post" action=""#@ + escaped(action) + r#"" data-on:submit__prevent="@post(&#39;"#@ + escaped(action) + r#"&#39;, {contentType: &#39;form&#39;})""#@)
            &&& shows(page, r#"<input type="hidden" name="name" value=""#@ + escaped(name) + r#""><button"#@)
            &&& shows(page, "<span>"@ + escaped(label) + "</span></button></form>"@)
        }),
{
    broadcast use group_shows;

    lemma_a_deletion_names_its_object();
}

/// The button of a deletion shows its picture and its label.
pub proof fn a_deletion_has_its_label(ui: &Ui, action: Seq<char>, name: Seq<char>, label: Seq<char>)
    ensures
        ({
            let page = delete_form(ui, action, name, label);
            &&& shows(page, ui.icon_markup("trash"@, 14) + "<span>"@ + escaped(label) + "</span></button></form>"@)
        }),
{
    broadcast use group_shows;

}

} // verus!
