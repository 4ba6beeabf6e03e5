//! The page of skills: what is installed, who may use it, and what is in it.
use crate::chat::export::{download_headers, download_response, header_views, Header};
use crate::html::{escaped, Html, Ui};
use crate::integrations::{is_listed, listed};
use crate::multipart::{boundary_error, boundary_of, read_boundary};
use crate::num::decimal;
use crate::query::{find_value, lossy_text, percent_decode, value_bytes, written_value};
use crate::text::{
    before_or_same, lemma_text_le_antisymmetric, lemma_text_le_total, lemma_text_le_transitive,
    same, split_first, split_once, text_le, texts,
};
use crate::text::occurs_at;
use crate::markup::{ends_in, group_shows, shows, starts_as};
use vstd::prelude::*;
use vstd::utf8::{decode_utf8, is_ascii_chars, valid_utf8};

verus! {

// ---------------------------------------------------------------------------
// What is installed

/// A role and the skills that it grants.
pub struct RoleGrant {
    pub id: String,
    pub skills: Vec<String>,
}

/// An installed skill. Its body is rendered, or could not be read.
pub struct InstalledSkill {
    pub name: String,
    pub description: String,
    pub files: Vec<String>,
    pub body: Result<Html, String>,
}

/// A skill on the page.
pub struct SkillView {
    pub name: String,
    pub description: String,
    /// The files beside the main one.
    pub files: Vec<String>,
    /// The roles that grant it.
    pub roles: Vec<String>,
    pub body: Html,
}

/// Whether a role grants a skill, by its name or with all others.
pub open spec fn grants(role: RoleGrant, name: Seq<char>) -> bool {
    listed(role.skills@, "*"@) || listed(role.skills@, name)
}

/// The roles that grant a skill.
pub open spec fn granting(roles: Seq<RoleGrant>, name: Seq<char>) -> Seq<Seq<char>>
    decreases roles.len(),
{
    if roles.len() == 0 {
        Seq::empty()
    } else {
        let head = granting(roles.drop_last(), name);
        if grants(roles.last(), name) {
            head.push(roles.last().id@)
        } else {
            head
        }
    }
}

fn granting_roles(roles: &Vec<RoleGrant>, name: &str) -> (r: Vec<String>)
    ensures
        texts(r@) == granting(roles@, name@),
{
    let mut out: Vec<String> = Vec::new();
    assert(texts(out@) =~= granting(roles@.take(0), name@));
    for i in 0..roles.len()
        invariant
            texts(out@) == granting(roles@.take(i as int), name@),
    {
        assert(roles@.take(i + 1).drop_last() =~= roles@.take(i as int));
        let ghost before = texts(out@);
        if is_listed(&roles[i].skills, "*") || is_listed(&roles[i].skills, name) {
            out.push(roles[i].id.clone());
            assert(texts(out@) =~= before.push(roles@[i as int].id@));
        }
    }
    assert(roles@.take(roles@.len() as int) =~= roles@);
    out
}

/// The body of a skill on the page: as rendered, or why it could not be read.
pub open spec fn shown_body(body: Result<Html, String>) -> Seq<char> {
    match body {
        Ok(h) => h@,
        Err(e) => "<p><em>Could not read SKILL.md: "@ + e@ + "</em></p>"@,
    }
}

/// Whether a row of the page is that of a skill.
pub open spec fn view_of(v: SkillView, s: InstalledSkill, roles: Seq<RoleGrant>) -> bool {
    &&& v.name@ == s.name@
    &&& v.description@ == s.description@
    &&& v.files == s.files
    &&& texts(v.roles@) == granting(roles, s.name@)
    &&& v.body@ == shown_body(s.body)
}

/// Makes the rows of the page, one for each skill, in order.
pub fn skill_views(installed: Vec<InstalledSkill>, roles: &Vec<RoleGrant>) -> (r: Vec<SkillView>)
    ensures
        r@.len() == installed@.len(),
        forall|i: int|
            0 <= i < r@.len() ==> view_of(#[trigger] r@[i], installed@[i], roles@),
{
    let mut out: Vec<SkillView> = Vec::new();
    let ghost all = installed@;
    let mut rest = installed;
    let n: usize = rest.len();
    let mut i: usize = 0;
    assert(all.skip(0) =~= all);
    while i < n
        invariant
            i <= n,
            n == all.len(),
            rest@ == all.skip(i as int),
            out@.len() == i,
            forall|j: int| 0 <= j < i ==> view_of(#[trigger] out@[j], all[j], roles@),
        decreases n - i,
    {
        let s = rest.remove(0);
        assert(rest@ =~= all.skip(i + 1));
        assert(s == all[i as int]);
        let body = match s.body {
            Ok(h) => h,
            Err(e) => Html::new("<p><em>Could not read SKILL.md: ").raw(&e).raw("</em></p>"),
        };
        let granted = granting_roles(roles, &s.name);
        out.push(
            SkillView {
                name: s.name,
                description: s.description,
                files: s.files,
                roles: granted,
                body,
            },
        );
        i = i + 1;
    }
    out
}

// ---------------------------------------------------------------------------
// Which skill is shown

/// The text that a value of a query stands for.
pub open spec fn value_text(v: Seq<char>) -> Seq<char> {
    lossy_text(value_bytes(v))
}

/// Reads the skill that a query asks for.
pub fn selected_skill_param(query: Option<&str>) -> (r: Option<String>)
    ensures
        match query {
            None => r is None,
            Some(q) => match written_value(q@, "skill"@) {
                None => r is None,
                Some(v) => {
                    &&& r is Some
                    &&& r->0@ == value_text(v)
                    &&& valid_utf8(value_bytes(v)) ==> r->0@ == decode_utf8(value_bytes(v))
                },
            },
        },
{
    match query {
        None => None,
        Some(q) => match find_value(q, "skill") {
            None => None,
            Some(v) => Some(percent_decode(&v)),
        },
    }
}

/// Position of the first skill of that name; the number of skills when there is
/// none.
pub open spec fn position(skills: Seq<SkillView>, name: Seq<char>) -> int
    decreases skills.len(),
{
    if skills.len() == 0 || skills[0].name@ == name {
        0
    } else {
        1 + position(skills.drop_first(), name)
    }
}

/// The skill that is shown: the one asked for, else the first.
pub open spec fn shown(skills: Seq<SkillView>, name: Option<Seq<char>>) -> int {
    match name {
        Some(n) => if position(skills, n) < skills.len() {
            position(skills, n)
        } else {
            0
        },
        None => 0,
    }
}

/// Finds the skill that is shown.
pub fn select(skills: &Vec<SkillView>, name: Option<&str>) -> (r: usize)
    ensures
        r as int == shown(
            skills@,
            match name {
                Some(n) => Some(n@),
                None => None,
            },
        ),
        skills@.len() > 0 ==> r < skills@.len(),
{
    if let Some(n) = name {
        assert(skills@.skip(0) =~= skills@);
        for i in 0..skills.len()
            invariant
                name == Some(n),
                position(skills@, n@) == i + position(skills@.skip(i as int), n@),
        {
            assert(skills@.skip(i as int).drop_first() =~= skills@.skip(i + 1));
            if same(&skills[i].name, n) {
                return i;
            }
        }
    }
    0
}

/// The address of a skill on the page.
pub open spec fn skill_path(name: Seq<char>) -> Seq<char> {
    "/admin/skills?skill="@ + name
}

fn make_skill_path(name: &str) -> (r: String)
    ensures
        r@ == skill_path(name@),
{
    let mut out = "/admin/skills?skill=".to_owned();
    out.append(name);
    out
}

/// The address of the page with a skill shown.
pub fn page_url(skills: &Vec<SkillView>, selected: usize) -> (r: String)
    ensures
        r@ == (if selected < skills@.len() {
            skill_path(skills@[selected as int].name@)
        } else {
            "/admin/skills"@
        }),
{
    if selected < skills.len() {
        make_skill_path(&skills[selected].name)
    } else {
        "/admin/skills".to_owned()
    }
}

// ---------------------------------------------------------------------------
// Adding, removing, fetching

/// Reads the boundary of an upload.
pub fn upload_boundary(content_type: &str) -> (r: Result<String, String>)
    ensures
        match boundary_of(content_type@) {
            Ok(b) => r is Ok && r->Ok_0@ == b,
            Err(e) => r is Err && r->Err_0@ == boundary_error(
                "expected a multipart/form-data upload (form enctype)"@,
                e,
            ),
        },
{
    read_boundary(content_type, "expected a multipart/form-data upload (form enctype)")
}

/// What is said when there is nowhere to install a skill.
pub fn not_configured() -> (r: String)
    ensures
        r@ == "Skills aren't configured ([skills] dir is unset)."@,
{
    "Skills aren't configured ([skills] dir is unset).".to_owned()
}

/// Takes the archive out of an upload: the content of the first field named for
/// it, if that was sent and is not empty.
pub fn read_upload_field(field: Result<Option<Vec<u8>>, String>) -> (r: Result<Vec<u8>, String>)
    ensures
        match field {
            Ok(Some(b)) => if b@.len() > 0 {
                r == Ok::<Vec<u8>, String>(b)
            } else {
                r is Err && r->Err_0@ == "No file was uploaded — pick a .skill archive."@
            },
            Ok(None) => r is Err && r->Err_0@ == "No file was uploaded — pick a .skill archive."@,
            Err(e) => r == Err::<Vec<u8>, String>(e),
        },
{
    match field {
        Ok(Some(b)) => if b.len() > 0 {
            Ok(b)
        } else {
            Err("No file was uploaded — pick a .skill archive.".to_owned())
        },
        Ok(None) => Err("No file was uploaded — pick a .skill archive.".to_owned()),
        Err(e) => Err(e),
    }
}

fn explain(what: &str, error: &str) -> (r: String)
    ensures
        r@ == what@ + error@,
{
    let mut out = what.to_owned();
    out.append(error);
    out
}

/// What an installation is answered with: the page with the new skill, or why
/// it failed.
pub fn installed(result: Result<String, String>) -> (r: Result<String, String>)
    ensures
        match result {
            Ok(name) => r is Ok && r->Ok_0@ == skill_path(name@),
            Err(e) => r is Err && r->Err_0@ == "Could not install skill: "@ + e@,
        },
{
    match result {
        Ok(name) => Ok(make_skill_path(&name)),
        Err(e) => Err(explain("Could not install skill: ", &e)),
    }
}

/// What a removal is answered with: the page, or why it failed.
pub fn removed(result: Result<(), String>) -> (r: Result<String, String>)
    ensures
        match result {
            Ok(_) => r is Ok && r->Ok_0@ == "/admin/skills"@,
            Err(e) => r is Err && r->Err_0@ == "Could not delete skill: "@ + e@,
        },
{
    match result {
        Ok(_) => Ok("/admin/skills".to_owned()),
        Err(e) => Err(explain("Could not delete skill: ", &e)),
    }
}

/// What is said of a removal that cannot be read.
pub fn bad_removal(error: &str) -> (r: String)
    ensures
        r@ == "Bad delete request: "@ + error@,
{
    explain("Bad delete request: ", error)
}

/// The headers of a skill that is fetched.
pub fn archive_headers(name: &str, len: usize) -> (r: Vec<Header>)
    ensures
        header_views(r@) == download_headers("application/zip"@, name@ + ".skill"@, len as nat),
{
    let mut filename = name.to_owned();
    filename.append(".skill");
    download_response("application/zip", &filename, len)
}

// ---------------------------------------------------------------------------
// The files of a skill

/// The directory of a path: what comes before its first slash.
pub open spec fn dir_of(path: Seq<char>) -> Option<Seq<char>> {
    match split_first(path, '/') {
        Some((d, _)) => Some(d),
        None => None,
    }
}

/// A path below its directory.
pub open spec fn below_dir(path: Seq<char>) -> Seq<char> {
    match split_first(path, '/') {
        Some((_, rest)) => rest,
        None => path,
    }
}

/// `d` put into a sorted list, if it is not there.
pub open spec fn with_dir(list: Seq<Seq<char>>, d: Seq<char>) -> Seq<Seq<char>>
    decreases list.len(),
{
    if list.len() == 0 {
        seq![d]
    } else if list.last() == d {
        list
    } else if text_le(list.last(), d) {
        list.push(d)
    } else {
        with_dir(list.drop_last(), d).push(list.last())
    }
}

/// The directories of a skill, each once, in order.
pub open spec fn dirs_of(files: Seq<Seq<char>>) -> Seq<Seq<char>>
    decreases files.len(),
{
    if files.len() == 0 {
        Seq::empty()
    } else {
        let head = dirs_of(files.drop_last());
        match dir_of(files.last()) {
            Some(d) => with_dir(head, d),
            None => head,
        }
    }
}

fn add_dir(list: &mut Vec<String>, d: String)
    ensures
        texts(final(list)@) == with_dir(texts(old(list)@), d@),
{
    let ghost before = texts(list@);
    let mut k: usize = list.len();
    let mut present = false;
    while k > 0 && !present && !before_or_same(&list[k - 1], &d)
        invariant
            k <= list@.len(),
            !present,
            forall|j: int| k <= j < list@.len() ==> !text_le(#[trigger] list@[j]@, d@),
        decreases k,
    {
        k = k - 1;
    }
    if k > 0 {
        present = same(&list[k - 1], &d);
    }
    proof {
        assert forall|j: int| k <= j < before.len() implies !text_le(#[trigger] before[j], d@) by {
            assert(before[j] == list@[j]@);
        }
        if k > 0 {
            assert(before[k - 1] == list@[k - 1]@);
        }
        lemma_with_dir(before, d@, k as int);
    }
    if !present {
        let ghost dv = d@;
        list.insert(k, d);
        assert(texts(list@) =~= before.insert(k as int, dv));
    }
}

proof fn lemma_with_dir(list: Seq<Seq<char>>, d: Seq<char>, k: int)
    requires
        0 <= k <= list.len(),
        k == 0 || text_le(list[k - 1], d),
        forall|j: int| k <= j < list.len() ==> !text_le(#[trigger] list[j], d),
    ensures
        with_dir(list, d) == (if k > 0 && list[k - 1] == d {
            list
        } else {
            list.insert(k, d)
        }),
    decreases list.len(),
{
    if list.len() == 0 {
        assert(list.insert(0, d) =~= seq![d]);
    } else if k == list.len() {
        assert(list.insert(k, d) =~= list.push(d));
    } else {
        let l = list.drop_last();
        assert(!text_le(list[list.len() - 1], d));
        lemma_text_le_total(d, d);
        assert forall|j: int| k <= j < l.len() implies !text_le(#[trigger] l[j], d) by {
            assert(l[j] == list[j]);
        }
        lemma_with_dir(l, d, k);
        if k > 0 && list[k - 1] == d {
            assert(l.push(list.last()) =~= list);
        } else {
            assert(l.insert(k, d).push(list.last()) =~= list.insert(k, d));
        }
    }
}

fn find_dirs(files: &Vec<String>) -> (r: Vec<String>)
    ensures
        texts(r@) == dirs_of(texts(files@)),
{
    let ghost view = texts(files@);
    let mut out: Vec<String> = Vec::new();
    assert(texts(out@) =~= dirs_of(view.take(0)));
    for i in 0..files.len()
        invariant
            view == texts(files@),
            texts(out@) == dirs_of(view.take(i as int)),
    {
        proof {
            assert(view.take(i + 1).drop_last() =~= view.take(i as int));
            assert(view.take(i + 1).last() == files@[i as int]@);
        }
        if let Some((d, _)) = split_once(&files[i], '/') {
            add_dir(&mut out, d);
        }
    }
    assert(view.take(view.len() as int) =~= view);
    out
}

/// The files of a directory.
pub open spec fn nested_files(files: Seq<Seq<char>>, dir: Seq<char>) -> Seq<char>
    decreases files.len(),
{
    if files.len() == 0 {
        Seq::empty()
    } else {
        let head = nested_files(files.drop_last(), dir);
        if dir_of(files.last()) == Some(dir) {
            head + (
            r#"<div class="pl-4 py-0.5 font-mono truncate">"#@
                + escaped(below_dir(files.last()))
                + "</div>"@
            )
        } else {
            head
        }
    }
}

/// The files outside any directory.
pub open spec fn root_files(files: Seq<Seq<char>>) -> Seq<char>
    decreases files.len(),
{
    if files.len() == 0 {
        Seq::empty()
    } else {
        let head = root_files(files.drop_last());
        if dir_of(files.last()) is None {
            head + (
            r#"<div class="py-0.5 font-mono truncate">"#@
                + escaped(files.last())
                + "</div>"@
            )
        } else {
            head
        }
    }
}

fn render_nested_files(files: &Vec<String>, dir: &str) -> (r: Html)
    ensures
        r@ == nested_files(texts(files@), dir@),
{
    let ghost view = texts(files@);
    let mut out = Html::empty();
    assert(view.take(0) =~= Seq::<Seq<char>>::empty());
    for i in 0..files.len()
        invariant
            view == texts(files@),
            out@ == nested_files(view.take(i as int), dir@),
    {
        proof {
            assert(view.take(i + 1).drop_last() =~= view.take(i as int));
            assert(view.take(i + 1).last() == files@[i as int]@);
        }
        if let Some((d, rest)) = split_once(&files[i], '/') {
            if same(&d, dir) {
                let row =
                    Html::new(r#"<div class="pl-4 py-0.5 font-mono truncate">"#)
                        .text(&rest)
                        .raw("</div>")
                ;
                out = out.html(row);
            }
        }
    }
    assert(view.take(view.len() as int) =~= view);
    out
}

fn render_root_files(files: &Vec<String>) -> (r: Html)
    ensures
        r@ == root_files(texts(files@)),
{
    let ghost view = texts(files@);
    let mut out = Html::empty();
    assert(view.take(0) =~= Seq::<Seq<char>>::empty());
    for i in 0..files.len()
        invariant
            view == texts(files@),
            out@ == root_files(view.take(i as int)),
    {
        proof {
            assert(view.take(i + 1).drop_last() =~= view.take(i as int));
            assert(view.take(i + 1).last() == files@[i as int]@);
        }
        if split_once(&files[i], '/').is_none() {
            let row =
                Html::new(r#"<div class="py-0.5 font-mono truncate">"#)
                    .text(&files[i])
                    .raw("</div>")
            ;
            out = out.html(row);
        }
    }
    assert(view.take(view.len() as int) =~= view);
    out
}

/// The directories, each with its files.
pub open spec fn dir_rows(ui: &Ui, files: Seq<Seq<char>>, dirs: Seq<Seq<char>>) -> Seq<char>
    decreases dirs.len(),
{
    if dirs.len() == 0 {
        Seq::empty()
    } else {
        dir_rows(ui, files, dirs.drop_last()) + (
        r#"<div class="flex items-center gap-1 py-0.5 text-base-content/50">"#@
            + ui.icon_markup("folder"@, 12)
            + r#"<span class="font-mono">"#@
            + escaped(dirs.last())
            + "/</span></div>"@
            + nested_files(files, dirs.last())
        )
    }
}

fn render_dir_rows(ui: &Ui, files: &Vec<String>, dirs: &Vec<String>) -> (r: Html)
    ensures
        r@ == dir_rows(ui, texts(files@), texts(dirs@)),
{
    let ghost view = texts(dirs@);
    let mut out = Html::empty();
    assert(view.take(0) =~= Seq::<Seq<char>>::empty());
    for i in 0..dirs.len()
        invariant
            view == texts(dirs@),
            out@ == dir_rows(ui, texts(files@), view.take(i as int)),
    {
        proof {
            assert(view.take(i + 1).drop_last() =~= view.take(i as int));
            assert(view.take(i + 1).last() == dirs@[i as int]@);
        }
        let row =
            Html::new(r#"<div class="flex items-center gap-1 py-0.5 text-base-content/50">"#)
                .icon(ui, "folder", 12)
                .raw(r#"<span class="font-mono">"#)
                .text(&dirs[i])
                .raw("/</span></div>")
                .html(render_nested_files(files, &dirs[i]))
        ;
        out = out.html(row);
    }
    assert(view.take(view.len() as int) =~= view);
    out
}

/// The files of a skill: the main one, then each directory with its files, then
/// what stands outside them.
pub open spec fn file_tree(ui: &Ui, s: SkillView) -> Seq<char> {
    r#"<div class="pl-3 pr-1 pb-1 text-xs text-base-content/60">"#@
        + r#"<div class="flex items-center gap-1 py-0.5">"#@
        + ui.icon_markup("folder"@, 12)
        + r#"<span class="font-mono">SKILL.md</span></div>"#@
        + dir_rows(ui, texts(s.files@), dirs_of(texts(s.files@)))
        + root_files(texts(s.files@))
        + "</div>"@
}

/// Renders the files of a skill.
pub fn render_file_tree(ui: &Ui, s: &SkillView) -> (r: Html)
    ensures
        r@ == file_tree(ui, *s),
{
    let dirs = find_dirs(&s.files);
    Html::new(r#"<div class="pl-3 pr-1 pb-1 text-xs text-base-content/60">"#)
        .raw(r#"<div class="flex items-center gap-1 py-0.5">"#)
        .icon(ui, "folder", 12)
        .raw(r#"<span class="font-mono">SKILL.md</span></div>"#)
        .html(render_dir_rows(ui, &s.files, &dirs))
        .html(render_root_files(&s.files))
        .raw("</div>")
}

// ---------------------------------------------------------------------------
// The page

/// The classes of a link to a skill.
pub open spec fn link_class(active: bool) -> Seq<char> {
    "block px-2 py-1.5 text-sm font-mono rounded transition-colors cursor-pointer"@ + if active {
        " bg-base-300 text-base-content font-semibold"@
    } else {
        " text-base-content/70 hover:bg-base-200"@
    }
}

/// The classes of a link to a skill.
pub fn rail_link_class(active: bool) -> (r: String)
    ensures
        r@ == link_class(active),
{
    let mut out = "block px-2 py-1.5 text-sm font-mono rounded transition-colors cursor-pointer".to_owned();
    if active {
        out.append(" bg-base-300 text-base-content font-semibold");
    } else {
        out.append(" text-base-content/70 hover:bg-base-200");
    }
    out
}

/// A skill in the list; the one that is shown with its files.
#[verifier::opaque]
pub open spec fn rail_item(ui: &Ui, s: SkillView, active: bool) -> Seq<char> {
    r#"<li><a href="/admin/skills?skill="#@
        + escaped(s.name@)
        + r#"" data-on:click__prevent="@get(&#39;/admin/skills?skill="#@
        + escaped(s.name@)
        + r#"&#39;)" class=""#@
        + escaped(link_class(active))
        + r#"">"#@
        + escaped(s.name@)
        + "</a>"@
        + (if active {
            file_tree(ui, s)
        } else {
            Seq::<char>::empty()
        })
        + "</li>"@
}

fn render_rail_item(ui: &Ui, s: &SkillView, active: bool) -> (r: Html)
    ensures
        r@ == rail_item(ui, *s, active),
{
    proof {
        reveal(rail_item);
    }
    Html::new(r#"<li><a href="/admin/skills?skill="#)
        .text(&s.name)
        .raw(r#"" data-on:click__prevent="@get(&#39;/admin/skills?skill="#)
        .text(&s.name)
        .raw(r#"&#39;)" class=""#)
        .text(&rail_link_class(active))
        .raw(r#"">"#)
        .text(&s.name)
        .raw("</a>")
        .html(if active {
            render_file_tree(ui, s)
        } else {
            Html::empty()
        })
        .raw("</li>")
}

/// The skills in the list.
pub open spec fn rail_items(ui: &Ui, skills: Seq<SkillView>, selected: int) -> Seq<char>
    decreases skills.len(),
{
    if skills.len() == 0 {
        Seq::empty()
    } else {
        rail_items(ui, skills.drop_last(), selected) + rail_item(
            ui,
            skills.last(),
            skills.len() - 1 == selected,
        )
    }
}

fn render_rail_items(ui: &Ui, skills: &Vec<SkillView>, selected: usize) -> (r: Html)
    ensures
        r@ == rail_items(ui, skills@, selected as int),
{
    let mut out = Html::empty();
    assert(skills@.take(0) =~= Seq::<SkillView>::empty());
    for i in 0..skills.len()
        invariant
            out@ == rail_items(ui, skills@.take(i as int), selected as int),
    {
        assert(skills@.take(i + 1).drop_last() =~= skills@.take(i as int));
        out = out.html(render_rail_item(ui, &skills[i], i == selected));
    }
    assert(skills@.take(skills@.len() as int) =~= skills@);
    out
}

/// Where the skills come from, if that is set.
pub open spec fn dir_note(dir: Option<&str>) -> Seq<char> {
    match dir {
        Some(d) => {
            r#"<div class="px-2 pt-2 mt-1 border-t border-base-300 text-xs text-base-content/40 break-all">"#@
                + "Source: "@
                + escaped(d@)
                + "</div>"@
        },
        None => Seq::empty(),
    }
}

fn render_dir_note(dir: Option<&str>) -> (r: Html)
    ensures
        r@ == dir_note(dir),
{
    match dir {
        Some(d) => {
            Html::new(r#"<div class="px-2 pt-2 mt-1 border-t border-base-300 text-xs text-base-content/40 break-all">"#)
                .raw("Source: ")
                .text(d)
                .raw("</div>")
        },
        None => Html::empty(),
    }
}

/// The left side: the upload form and the list.
pub open spec fn rail(
    ui: &Ui,
    skills: Seq<SkillView>,
    selected: int,
    dir: Option<&str>,
) -> Seq<char> {
    r#"<aside class="w-60 shrink-0 sticky top-6 flex flex-col gap-3">"#@
        + r#"<form method="post" action="/admin/skills/upload" enctype="multipart/form-data" class="card"#@
        + r#" border border-base-300"><div class="card-body p-3 gap-2">"#@
        + r#"<div class="text-xs uppercase tracking-wide text-base-content/50">Add a skill</div>"#@
        + r#"<input type="file" name="skill" accept=".skill,.zip" required="required" class="file-input"#@
        + r#" file-input-sm file-input-bordered w-full">"#@
        + r#"<button type="submit" class="btn btn-sm btn-primary w-full">Upload .skill</button></div>"#@
        + r#"</form><div class="card border border-base-300"><div class="card-body p-2">"#@
        + r#"<div class="px-2 py-1 text-xs uppercase tracking-wide text-base-content/50">Loaded skills"#@
        + "</div>"@
        + (if skills.len() == 0 {
            r#"<div class="px-2 py-1 text-sm text-base-content/50">None yet</div>"#@
        } else {
            Seq::<char>::empty()
        })
        + r#"<ul class="flex flex-col">"#@
        + rail_items(ui, skills, selected)
        + "</ul>"@
        + dir_note(dir)
        + "</div></div></aside>"@
}

/// Renders the left side.
pub fn render_rail(ui: &Ui, skills: &Vec<SkillView>, selected: usize, dir: Option<&str>) -> (r: Html)
    ensures
        r@ == rail(ui, skills@, selected as int, dir),
{
    Html::new(r#"<aside class="w-60 shrink-0 sticky top-6 flex flex-col gap-3">"#)
        .raw(r#"<form method="post" action="/admin/skills/upload" enctype="multipart/form-data" class="card"#)
        .raw(r#" border border-base-300"><div class="card-body p-3 gap-2">"#)
        .raw(r#"<div class="text-xs uppercase tracking-wide text-base-content/50">Add a skill</div>"#)
        .raw(r#"<input type="file" name="skill" accept=".skill,.zip" required="required" class="file-input"#)
        .raw(r#" file-input-sm file-input-bordered w-full">"#)
        .raw(r#"<button type="submit" class="btn btn-sm btn-primary w-full">Upload .skill</button></div>"#)
        .raw(r#"</form><div class="card border border-base-300"><div class="card-body p-2">"#)
        .raw(r#"<div class="px-2 py-1 text-xs uppercase tracking-wide text-base-content/50">Loaded skills"#)
        .raw("</div>")
        .html(if skills.len() == 0 {
            Html::new(r#"<div class="px-2 py-1 text-sm text-base-content/50">None yet</div>"#)
        } else {
            Html::empty()
        })
        .raw(r#"<ul class="flex flex-col">"#)
        .html(render_rail_items(ui, skills, selected))
        .raw("</ul>")
        .html(render_dir_note(dir))
        .raw("</div></div></aside>")
}

/// The roles that grant a skill.
pub open spec fn role_badges(roles: Seq<Seq<char>>) -> Seq<char>
    decreases roles.len(),
{
    if roles.len() == 0 {
        Seq::empty()
    } else {
        role_badges(roles.drop_last()) + (
        r#"<span class="badge badge-sm badge-outline">"#@
            + escaped(roles.last())
            + "</span>"@
        )
    }
}

fn render_role_badges(roles: &Vec<String>) -> (r: Html)
    ensures
        r@ == role_badges(texts(roles@)),
{
    let ghost view = texts(roles@);
    let mut out = Html::empty();
    assert(view.take(0) =~= Seq::<Seq<char>>::empty());
    for i in 0..roles.len()
        invariant
            view == texts(roles@),
            out@ == role_badges(view.take(i as int)),
    {
        proof {
            assert(view.take(i + 1).drop_last() =~= view.take(i as int));
            assert(view.take(i + 1).last() == roles@[i as int]@);
        }
        let badge =
            Html::new(r#"<span class="badge badge-sm badge-outline">"#)
                .text(&roles[i])
                .raw("</span>")
        ;
        out = out.html(badge);
    }
    assert(view.take(view.len() as int) =~= view);
    out
}

/// The right side: who may use the skill, what it is, and its text.
pub open spec fn detail(ui: &Ui, s: SkillView) -> Seq<char> {
    r#"<section class="flex-1 min-w-0"><div class="flex items-start justify-between gap-3">"#@
        + r#"<h2 class="text-xl font-mono font-semibold m-0">"#@
        + escaped(s.name@)
        + r#"</h2><div class="flex items-center gap-1 shrink-0"><a href="/admin/skills/download?skill="#@
        + escaped(s.name@)
        + r#"" class="btn btn-sm btn-ghost" title="Download this skill as a .skill archive">"#@
        + ui.icon_markup("download"@, 14)
        + r#"Download</a><form method="post" action="/admin/skills/delete">"#@
        + r#"<input type="hidden" name="name" value=""#@
        + escaped(s.name@)
        + r#""><button type="submit" class="btn btn-sm btn-ghost text-error" title="Remove this skill">"#@
        + ui.icon_markup("trash"@, 14)
        + "Delete</button></form></div></div>"@
        + r#"<div class="flex flex-wrap items-start gap-x-8 gap-y-2 mt-2"><div>"#@
        + r#"<div class="text-xs uppercase tracking-wide text-base-content/50 mb-1">Granted to</div>"#@
        + r#"<div class="flex flex-wrap gap-1">"#@
        + role_badges(texts(s.roles@))
        + (if s.roles@.len() == 0 {
            r#"<span class="badge badge-sm badge-warning badge-outline">no role grants this</span>"#@
        } else {
            Seq::<char>::empty()
        })
        + r#"</div></div><div><div class="text-xs uppercase tracking-wide text-base-content/50 mb-1">"#@
        + r#"Files</div><div class="text-sm text-base-content/80">"#@
        + decimal(s.files@.len())
        + r#" bundled</div></div></div><div class="mt-4">"#@
        + r#"<div class="text-xs uppercase tracking-wide text-base-content/50 mb-1">Description</div>"#@
        + r#"<p class="text-sm text-base-content/80 m-0">"#@
        + escaped(s.description@)
        + r#"</p></div><div class="card border border-base-300 mt-5">"#@
        + r#"<div class="card-body prose max-w-none">"#@
        + s.body@
        + "</div></div></section>"@
}

/// Renders the right side.
pub fn render_detail(ui: &Ui, s: &SkillView) -> (r: Html)
    ensures
        r@ == detail(ui, *s),
{
    Html::new(r#"<section class="flex-1 min-w-0"><div class="flex items-start justify-between gap-3">"#)
        .raw(r#"<h2 class="text-xl font-mono font-semibold m-0">"#)
        .text(&s.name)
        .raw(r#"</h2><div class="flex items-center gap-1 shrink-0"><a href="/admin/skills/download?skill="#)
        .text(&s.name)
        .raw(r#"" class="btn btn-sm btn-ghost" title="Download this skill as a .skill archive">"#)
        .icon(ui, "download", 14)
        .raw(r#"Download</a><form method="post" action="/admin/skills/delete">"#)
        .raw(r#"<input type="hidden" name="name" value=""#)
        .text(&s.name)
        .raw(r#""><button type="submit" class="btn btn-sm btn-ghost text-error" title="Remove this skill">"#)
        .icon(ui, "trash", 14)
        .raw("Delete</button></form></div></div>")
        .raw(r#"<div class="flex flex-wrap items-start gap-x-8 gap-y-2 mt-2"><div>"#)
        .raw(r#"<div class="text-xs uppercase tracking-wide text-base-content/50 mb-1">Granted to</div>"#)
        .raw(r#"<div class="flex flex-wrap gap-1">"#)
        .html(render_role_badges(&s.roles))
        .html(if s.roles.len() == 0 {
            Html::new(r#"<span class="badge badge-sm badge-warning badge-outline">no role grants this</span>"#)
        } else {
            Html::empty()
        })
        .raw(r#"</div></div><div><div class="text-xs uppercase tracking-wide text-base-content/50 mb-1">"#)
        .raw(r#"Files</div><div class="text-sm text-base-content/80">"#)
        .num(s.files.len() as u64)
        .raw(r#" bundled</div></div></div><div class="mt-4">"#)
        .raw(r#"<div class="text-xs uppercase tracking-wide text-base-content/50 mb-1">Description</div>"#)
        .raw(r#"<p class="text-sm text-base-content/80 m-0">"#)
        .text(&s.description)
        .raw(r#"</p></div><div class="card border border-base-300 mt-5">"#)
        .raw(r#"<div class="card-body prose max-w-none">"#)
        .html(s.body.clone())
        .raw("</div></div></section>")
}

/// The error of the page, if there is one.
pub open spec fn error_alert(error: Option<&str>) -> Seq<char> {
    match error {
        Some(e) => {
            r#"<div class="alert alert-error text-sm mb-4">"#@
                + escaped(e@)
                + "</div>"@
        },
        None => Seq::empty(),
    }
}

fn render_error_alert(error: Option<&str>) -> (r: Html)
    ensures
        r@ == error_alert(error),
{
    match error {
        Some(e) => {
            Html::new(r#"<div class="alert alert-error text-sm mb-4">"#)
                .text(e)
                .raw("</div>")
        },
        None => Html::empty(),
    }
}

/// The page of skills.
pub open spec fn skills_page(
    ui: &Ui,
    skills: Seq<SkillView>,
    selected: int,
    dir: Option<&str>,
    error: Option<&str>,
) -> Seq<char> {
    r#"<div class="max-w-5xl mx-auto w-full px-4 sm:px-6 pt-14 sm:pt-6 pb-6">"#@
        + r#"<div class="flex items-center gap-2">"#@
        + ui.icon_markup("sliders"@, 20)
        + r#"<h1 class="text-2xl font-bold m-0">Skills</h1></div>"#@
        + r#"<p class="text-base-content/60 text-sm mt-1 mb-4">"#@
        + "Operator-installed guidance the chat model loads on demand via the "@
        + r#"<code class="font-mono text-xs">read_skill</code> tool. Upload a "#@
        + r#"<code class="font-mono text-xs">.skill</code>"#@
        + " archive below — it&#39;s available immediately, no restart.</p>"@
        + error_alert(error)
        + r#"<div class="flex gap-6 items-start">"#@
        + rail(ui, skills, selected, dir)
        + (if skills.len() == 0 {
            r#"<section class="flex-1 min-w-0 text-base-content/60 text-sm pt-2">"#@
                + (if dir is Some {
                    "No skills loaded yet. Upload a .skill archive to add one."@
                } else {
                    "Skills aren&#39;t configured. Set [skills] dir in the gateway config and restart to enable"@
                        + " them."@
                })
                + "</section>"@
        } else {
            detail(ui, skills[selected])
        })
        + "</div></div>"@
}

/// Renders the page of skills.
pub fn render_body(
    ui: &Ui,
    skills: &Vec<SkillView>,
    selected: usize,
    dir: Option<&str>,
    error: Option<&str>,
) -> (r: Html)
    requires
        skills@.len() > 0 ==> selected < skills@.len(),
    ensures
        r@ == skills_page(ui, skills@, selected as int, dir, error),
{
    Html::new(r#"<div class="max-w-5xl mx-auto w-full px-4 sm:px-6 pt-14 sm:pt-6 pb-6">"#)
        .raw(r#"<div class="flex items-center gap-2">"#)
        .icon(ui, "sliders", 20)
        .raw(r#"<h1 class="text-2xl font-bold m-0">Skills</h1></div>"#)
        .raw(r#"<p class="text-base-content/60 text-sm mt-1 mb-4">"#)
        .raw("Operator-installed guidance the chat model loads on demand via the ")
        .raw(r#"<code class="font-mono text-xs">read_skill</code> tool. Upload a "#)
        .raw(r#"<code class="font-mono text-xs">.skill</code>"#)
        .raw(" archive below — it&#39;s available immediately, no restart.</p>")
        .html(render_error_alert(error))
        .raw(r#"<div class="flex gap-6 items-start">"#)
        .html(render_rail(ui, skills, selected, dir))
        .html(if skills.len() == 0 {
            Html::new(r#"<section class="flex-1 min-w-0 text-base-content/60 text-sm pt-2">"#)
                .html(if dir.is_some() {
                    Html::new("No skills loaded yet. Upload a .skill archive to add one.")
                } else {
                    Html::new("Skills aren&#39;t configured. Set [skills] dir in the gateway config and restart to enable")
                        .raw(" them.")
                })
                .raw("</section>")
        } else {
            render_detail(ui, &skills[selected])
        })
        .raw("</div></div>")
}

// ---------------------------------------------------------------------------
// Laws

/// A name that a skill can be installed under.
pub open spec fn skill_name(name: Seq<char>) -> bool {
    is_ascii_chars(name) && forall|i: int|
        0 <= i < name.len() ==> {
            let c = #[trigger] name[i];
            'a' <= c <= 'z' || 'A' <= c <= 'Z' || '0' <= c <= '9' || c == '.' || c == '_' || c == '-'
        }
}

/// The link to a skill leads to that skill: its name is read from the link.
pub proof fn skill_link_reads_back(name: Seq<char>)
    requires
        skill_name(name),
    ensures
        written_value("skill="@ + name, "skill"@) == Some(name),
        valid_utf8(value_bytes(name)),
        decode_utf8(value_bytes(name)) == name,
{
    crate::query::plain_is_read(name);
    reveal_strlit("skill=");
    reveal_strlit("skill");
    reveal_strlit("&");
    let q = "skill="@ + name;
    assert(crate::text::free_of(q, false, "&"@)) by {
        assert forall|i: int| 0 <= i < q.len() implies !crate::text::in_class(
            #[trigger] q[i],
            false,
            "&"@,
        ) by {
            assert("&"@ =~= seq!['&']);
            if i < 6 {
                assert(q[i] == "skill="@[i]);
            } else {
                assert(q[i] == name[i - 6]);
            }
        }
    }
    crate::text::lemma_split_free(q, false, "&"@);
    let pairs = crate::text::split_parts(q, false, "&"@);
    assert(pairs[0] == q);
    crate::text::lemma_first_index_at(q, '=', 5);
    assert(q.take(5) =~= "skill"@);
    assert(q.skip(6) =~= name);
}

/// A list of directories in order, each once.
pub open spec fn ordered(list: Seq<Seq<char>>) -> bool {
    forall|i: int, j: int|
        0 <= i < j < list.len() ==> text_le(#[trigger] list[i], #[trigger] list[j]) && list[i]
            != list[j]
}

proof fn lemma_with_dir_ordered(list: Seq<Seq<char>>, d: Seq<char>)
    requires
        ordered(list),
    ensures
        ordered(with_dir(list, d)),
        with_dir(list, d).len() > 0,
        with_dir(list, d).last() == d || (list.len() > 0 && with_dir(list, d).last() == list.last()),
        forall|x: Seq<char>|
            #[trigger] with_dir(list, d).contains(x) <==> list.contains(x) || x == d,
    decreases list.len(),
{
    let w = with_dir(list, d);
    if list.len() == 0 {
        assert(w[0] == d);
    } else if list.last() == d {
        assert(list[list.len() - 1] == d);
    } else if text_le(list.last(), d) {
        assert forall|i: int, j: int| 0 <= i < j < w.len() implies text_le(
            #[trigger] w[i],
            #[trigger] w[j],
        ) && w[i] != w[j] by {
            if j < list.len() {
                assert(w[i] == list[i] && w[j] == list[j]);
            } else {
                assert(w[j] == d && w[i] == list[i]);
                let last = list[list.len() - 1];
                if i < list.len() - 1 {
                    assert(text_le(list[i], last) && list[i] != last);
                    lemma_text_le_transitive(list[i], last, d);
                    if list[i] == d {
                        lemma_text_le_antisymmetric(last, d);
                    }
                }
            }
        }
        assert forall|x: Seq<char>| #[trigger] w.contains(x) <==> list.contains(x) || x == d by {
            if w.contains(x) {
                let i = choose|i: int| 0 <= i < w.len() && w[i] == x;
                if i < list.len() {
                    assert(list[i] == x);
                }
            }
            if list.contains(x) {
                let i = choose|i: int| 0 <= i < list.len() && list[i] == x;
                assert(w[i] == x);
            }
            assert(w[w.len() - 1] == d);
        }
    } else {
        let l = list.drop_last();
        let last = list.last();
        assert forall|i: int, j: int| 0 <= i < j < l.len() implies text_le(
            #[trigger] l[i],
            #[trigger] l[j],
        ) && l[i] != l[j] by {
            assert(l[i] == list[i] && l[j] == list[j]);
        }
        lemma_with_dir_ordered(l, d);
        let h = with_dir(l, d);
        lemma_text_le_total(last, d);
        assert(text_le(h.last(), last) && h.last() != last) by {
            if l.len() > 0 && h.last() == l.last() {
                assert(l.last() == list[list.len() - 2]);
                assert(text_le(list[list.len() - 2], list[list.len() - 1]));
            }
        }
        assert forall|i: int, j: int| 0 <= i < j < w.len() implies text_le(
            #[trigger] w[i],
            #[trigger] w[j],
        ) && w[i] != w[j] by {
            if j < h.len() {
                assert(w[i] == h[i] && w[j] == h[j]);
            } else {
                assert(w[j] == last && w[i] == h[i]);
                let top = h[h.len() - 1];
                if i < h.len() - 1 {
                    assert(text_le(h[i], top) && h[i] != top);
                    lemma_text_le_transitive(h[i], top, last);
                    if h[i] == last {
                        lemma_text_le_antisymmetric(top, last);
                    }
                }
            }
        }
        assert forall|x: Seq<char>| #[trigger] w.contains(x) <==> list.contains(x) || x == d by {
            if w.contains(x) {
                let i = choose|i: int| 0 <= i < w.len() && w[i] == x;
                if i < h.len() {
                    assert(h.contains(x)) by {
                        assert(h[i] == x);
                    }
                    if l.contains(x) {
                        let k = choose|k: int| 0 <= k < l.len() && l[k] == x;
                        assert(list[k] == x);
                    }
                } else {
                    assert(list[list.len() - 1] == x);
                }
            }
            if list.contains(x) {
                let i = choose|i: int| 0 <= i < list.len() && list[i] == x;
                if i < l.len() {
                    assert(l[i] == x);
                    assert(h.contains(x));
                    let k = choose|k: int| 0 <= k < h.len() && h[k] == x;
                    assert(w[k] == x);
                } else {
                    assert(w[w.len() - 1] == x);
                }
            }
            if x == d {
                assert(h.contains(d));
                let k = choose|k: int| 0 <= k < h.len() && h[k] == d;
                assert(w[k] == d);
            }
        }
    }
}

/// Every directory that has a file is listed, once, and in order; no other is.
pub proof fn directories_are_listed(files: Seq<Seq<char>>)
    ensures
        ordered(dirs_of(files)),
        forall|d: Seq<char>|
            #[trigger] dirs_of(files).contains(d) <==> exists|i: int|
                0 <= i < files.len() && dir_of(#[trigger] files[i]) == Some(d),
    decreases files.len(),
{
    if files.len() > 0 {
        let f = files.drop_last();
        directories_are_listed(f);
        let head = dirs_of(f);
        if let Some(d) = dir_of(files.last()) {
            lemma_with_dir_ordered(head, d);
        }
        assert forall|d: Seq<char>| #[trigger] dirs_of(files).contains(d) <==> exists|i: int|
            0 <= i < files.len() && dir_of(#[trigger] files[i]) == Some(d) by {
            if dirs_of(files).contains(d) {
                if head.contains(d) {
                    let i = choose|i: int| 0 <= i < f.len() && dir_of(#[trigger] f[i]) == Some(d);
                    assert(files[i] == f[i]);
                } else {
                    assert(files[files.len() - 1] == files.last());
                }
            }
            if exists|i: int| 0 <= i < files.len() && dir_of(#[trigger] files[i]) == Some(d) {
                let i = choose|i: int|
                    0 <= i < files.len() && dir_of(#[trigger] files[i]) == Some(d);
                if i < f.len() {
                    assert(f[i] == files[i]);
                    assert(head.contains(d));
                }
            }
        }
    }
}

proof fn lemma_detail_shows_the_skill()
    ensures
        starts_as(
            r#"</h2><div class="flex items-center gap-1 shrink-0"><a href="/admin/skills/download?skill="#@,
            "</h2>"@,
        ),
        ends_in(
            r#"</h2><div class="flex items-center gap-1 shrink-0"><a href="/admin/skills/download?skill="#@,
            r#"<a href="/admin/skills/download?skill="#@,
        ),
        starts_as(
            r#"" class="btn btn-sm btn-ghost" title="Download this skill as a .skill archive">"#@,
            r#"" class="#@,
        ),
        starts_as(
            r#""><button type="submit" class="btn btn-sm btn-ghost text-error" title="Remove this skill">"#@,
            r#""><button"#@,
        ),
        ends_in(
            r#"Files</div><div class="text-sm text-base-content/80">"#@,
            r#"<div class="text-sm text-base-content/80">"#@,
        ),
        starts_as(
            r#" bundled</div></div></div><div class="mt-4">"#@,
            " bundled"@,
        ),
        starts_as(
            r#"</p></div><div class="card border border-base-300 mt-5">"#@,
            "</p>"@,
        ),
{
    assert(starts_as(r#"</h2><div class="flex items-center gap-1 shrink-0"><a href="/admin/skills/download?skill="#@, "</h2>"@)) by {
        reveal(starts_as);
        reveal_strlit(r#"</h2><div class="flex items-center gap-1 shrink-0"><a href="/admin/skills/download?skill="#);
        reveal_strlit("</h2>");
        assert(r#"</h2><div class="flex items-center gap-1 shrink-0"><a href="/admin/skills/download?skill="#@.take(5) =~= "</h2>"@);
    }
    assert(ends_in(r#"</h2><div class="flex items-center gap-1 shrink-0"><a href="/admin/skills/download?skill="#@, r#"<a href="/admin/skills/download?skill="#@)) by {
        reveal(ends_in);
        reveal_strlit(r#"</h2><div class="flex items-center gap-1 shrink-0"><a href="/admin/skills/download?skill="#);
        reveal_strlit(r#"<a href="/admin/skills/download?skill="#);
        assert(r#"</h2><div class="flex items-center gap-1 shrink-0"><a href="/admin/skills/download?skill="#@.skip(51) =~= r#"<a href="/admin/skills/download?skill="#@);
    }
    assert(starts_as(r#"" class="btn btn-sm btn-ghost" title="Download this skill as a .skill archive">"#@, r#"" class="#@)) by {
        reveal(starts_as);
        reveal_strlit(r#"" class="btn btn-sm btn-ghost" title="Download this skill as a .skill archive">"#);
        reveal_strlit(r#"" class="#);
        assert(r#"" class="btn btn-sm btn-ghost" title="Download this skill as a .skill archive">"#@.take(8) =~= r#"" class="#@);
    }
    assert(starts_as(r#""><button type="submit" class="btn btn-sm btn-ghost text-error" title="Remove this skill">"#@, r#""><button"#@)) by {
        reveal(starts_as);
        reveal_strlit(r#""><button type="submit" class="btn btn-sm btn-ghost text-error" title="Remove this skill">"#);
        reveal_strlit(r#""><button"#);
        assert(r#""><button type="submit" class="btn btn-sm btn-ghost text-error" title="Remove this skill">"#@.take(9) =~= r#""><button"#@);
    }
    assert(ends_in(r#"Files</div><div class="text-sm text-base-content/80">"#@, r#"<div class="text-sm text-base-content/80">"#@)) by {
        reveal(ends_in);
        reveal_strlit(r#"Files</div><div class="text-sm text-base-content/80">"#);
        reveal_strlit(r#"<div class="text-sm text-base-content/80">"#);
        assert(r#"Files</div><div class="text-sm text-base-content/80">"#@.skip(11) =~= r#"<div class="text-sm text-base-content/80">"#@);
    }
    assert(starts_as(r#" bundled</div></div></div><div class="mt-4">"#@, " bundled"@)) by {
        reveal(starts_as);
        reveal_strlit(r#" bundled</div></div></div><div class="mt-4">"#);
        reveal_strlit(" bundled");
        assert(r#" bundled</div></div></div><div class="mt-4">"#@.take(8) =~= " bundled"@);
    }
    assert(starts_as(r#"</p></div><div class="card border border-base-300 mt-5">"#@, "</p>"@)) by {
        reveal(starts_as);
        reveal_strlit(r#"</p></div><div class="card border border-base-300 mt-5">"#);
        reveal_strlit("</p>");
        assert(r#"</p></div><div class="card border border-base-300 mt-5">"#@.take(4) =~= "</p>"@);
    }
}

/// The page of a skill shows its name, its description, its text and how many files it has;
/// it downloads and deletes that skill.
#[verifier::rlimit(20)]
pub proof fn detail_shows_the_skill(ui: &Ui, s: SkillView)
    ensures
        ({
            let page = detail(ui, s);
            &&& shows(page, r#"<h2 class="text-xl font-mono font-semibold m-0">"#@ + escaped(s.name@) + "</h2>"@)
            &&& shows(page, r#"<a href="/admin/skills/download?skill="#@ + escaped(s.name@) + r#"" class="#@)
            &&& shows(page, r#"<input type="hidden" name="name" value=""#@ + escaped(s.name@) + r#""><button"#@)
            &&& shows(page, role_badges(texts(s.roles@)))
            &&& s.roles@.len() == 0 ==> shows(page, r#"<span class="badge badge-sm badge-warning badge-outline">no role grants this</span>"#@)
            &&& shows(page, r#"<div class="text-sm text-base-content/80">"#@ + decimal(s.files@.len()) + " bundled"@)
            &&& shows(page, r#"<p class="text-sm text-base-content/80 m-0">"#@ + escaped(s.description@) + "</p>"@)
            &&& shows(page, r#"<div class="card-body prose max-w-none">"#@ + s.body@ + "</div></div></section>"@)
        }),
{
    broadcast use group_shows;

    lemma_detail_shows_the_skill();
}

/// The item of a skill in the list leads to it, and shows its files if and only if it is the
/// open one.
pub proof fn an_item_leads_to_its_skill(ui: &Ui, s: SkillView, active: bool)
    ensures
        ({
            let page = rail_item(ui, s, active);
            &&& shows(page, r#"<li><a href="/admin/skills?skill="#@ + escaped(s.name@) + r#"" data-on:click__prevent="@get(&#39;/admin/skills?skill="#@ + escaped(s.name@) + r#"&#39;)" class=""#@)
            &&& shows(page, r#"">"#@ + escaped(s.name@) + "</a>"@)
            &&& active ==> shows(page, "</a>"@ + file_tree(ui, s) + "</li>"@)
            &&& !active ==> shows(page, "</a>"@ + Seq::<char>::empty() + "</li>"@)
        }),
{
    broadcast use group_shows;

    reveal(rail_item);
}

/// Every skill has its item in the list, that of the open one marked, and the open one is
/// shown beside it, with an error if there is one.
pub proof fn every_skill_is_listed(
    ui: &Ui,
    skills: Seq<SkillView>,
    selected: int,
    dir: Option<&str>,
    error: Option<&str>,
    i: int,
)
    requires
        0 <= i < skills.len(),
    ensures
        shows(
            skills_page(ui, skills, selected, dir, error),
            rail_item(ui, skills[i], i == selected),
        ),
        shows(skills_page(ui, skills, selected, dir, error), detail(ui, skills[selected])),
        error matches Some(e) ==> shows(
            skills_page(ui, skills, selected, dir, error),
            escaped(e@),
        ),
{
    broadcast use group_shows;

    lemma_skill_is_listed(ui, skills, selected, i);
}

proof fn lemma_skill_is_listed(ui: &Ui, skills: Seq<SkillView>, selected: int, i: int)
    requires
        0 <= i < skills.len(),
    ensures
        shows(rail_items(ui, skills, selected), rail_item(ui, skills[i], i == selected)),
    decreases skills.len(),
{
    broadcast use group_shows;

    if i < skills.len() - 1 {
        lemma_skill_is_listed(ui, skills.drop_last(), selected, i);
    }
}

/// The roles that grant a skill are those that list it or list all, and no others.
pub proof fn a_role_grants_what_it_lists(roles: Seq<RoleGrant>, name: Seq<char>, id: Seq<char>)
    ensures
        granting(roles, name).contains(id) <==> exists|k: int|
            0 <= k < roles.len() && (#[trigger] roles[k]).id@ == id && (listed(
                roles[k].skills@,
                "*"@,
            ) || listed(roles[k].skills@, name)),
    decreases roles.len(),
{
    if roles.len() > 0 {
        let d = roles.drop_last();
        let head = granting(d, name);
        let all = granting(roles, name);
        a_role_grants_what_it_lists(d, name, id);
        if all.contains(id) {
            let k = choose|k: int| 0 <= k < all.len() && all[k] == id;
            if k < head.len() {
                assert(head[k] == id);
                let j = choose|j: int|
                    0 <= j < d.len() && (#[trigger] d[j]).id@ == id && (listed(
                        d[j].skills@,
                        "*"@,
                    ) || listed(d[j].skills@, name));
                assert(roles[j] == d[j]);
            } else {
                assert(roles[roles.len() - 1].id@ == id);
            }
        }
        if exists|k: int|
            0 <= k < roles.len() && (#[trigger] roles[k]).id@ == id && (listed(
                roles[k].skills@,
                "*"@,
            ) || listed(roles[k].skills@, name)) {
            let k = choose|k: int|
                0 <= k < roles.len() && (#[trigger] roles[k]).id@ == id && (listed(
                    roles[k].skills@,
                    "*"@,
                ) || listed(roles[k].skills@, name));
            if k < d.len() {
                assert(d[k] == roles[k]);
                assert(head.contains(id));
                let j = choose|j: int| 0 <= j < head.len() && head[j] == id;
                assert(all[j] == id);
            } else {
                assert(all[all.len() - 1] == id);
            }
        }
    }
}

/// What is shown of an installed skill is what was read of it: its name, description and
/// files, the roles that grant it, and its text, or why that could not be read.
pub proof fn a_skill_is_shown_as_installed(
    installed: Vec<InstalledSkill>,
    roles: &Vec<RoleGrant>,
    r: Vec<SkillView>,
    i: int,
)
    requires
        call_ensures(skill_views, (installed, roles), r),
        0 <= i < installed@.len(),
    ensures
        r@.len() == installed@.len(),
        r@[i].name@ == installed@[i].name@,
        r@[i].description@ == installed@[i].description@,
        r@[i].files == installed@[i].files,
        texts(r@[i].roles@) == granting(roles@, installed@[i].name@),
        installed@[i].body matches Ok(h) ==> r@[i].body@ == h@,
        installed@[i].body matches Err(e) ==> shows(r@[i].body@, e@),
{
    broadcast use group_shows;

    assert(view_of(r@[i], installed@[i], roles@));
}

proof fn lemma_skill_position(skills: Seq<SkillView>, name: Seq<char>)
    ensures
        0 <= position(skills, name) <= skills.len(),
        position(skills, name) < skills.len() ==> skills[position(skills, name)].name@ == name,
        forall|j: int| 0 <= j < position(skills, name) ==> (#[trigger] skills[j]).name@ != name,
    decreases skills.len(),
{
    if skills.len() > 0 && skills[0].name@ != name {
        lemma_skill_position(skills.drop_first(), name);
        assert forall|j: int| 0 <= j < position(skills, name) implies (#[trigger] skills[j]).name@
            != name by {
            if j > 0 {
                assert(skills.drop_first()[j - 1] == skills[j]);
            }
        }
    }
}

/// The skill that is asked for is the one that is shown, and its address is that of the
/// page; the first one is shown where none or an unknown one is asked for.
pub proof fn the_named_skill_is_shown(
    skills: &Vec<SkillView>,
    name: Option<&str>,
    r: usize,
    url: String,
)
    requires
        skills@.len() > 0,
        call_ensures(select, (skills, name), r),
        call_ensures(page_url, (skills, r), url),
    ensures
        r < skills@.len(),
        name is Some && (exists|k: int|
            0 <= k < skills@.len() && (#[trigger] skills@[k]).name@ == name->0@)
            ==> skills@[r as int].name@ == name->0@,
        name is None || (forall|k: int|
            0 <= k < skills@.len() ==> (#[trigger] skills@[k]).name@ != name->0@) ==> r == 0,
        url@ == "/admin/skills?skill="@ + skills@[r as int].name@,
{
    if name is Some {
        lemma_skill_position(skills@, name->0@);
    }
}

/// An upload needs a file with something in it; what was installed and removed leads to
/// its page, and what went wrong is told.
pub proof fn an_upload_needs_a_file(
    field: Result<Option<Vec<u8>>, String>,
    read: Result<Vec<u8>, String>,
    result: Result<String, String>,
    done: Result<String, String>,
    gone: Result<(), String>,
    after: Result<String, String>,
)
    requires
        call_ensures(read_upload_field, (field,), read),
        call_ensures(installed, (result,), done),
        call_ensures(removed, (gone,), after),
    ensures
        field matches Ok(Some(b)) ==> (b@.len() > 0 ==> read == Ok::<Vec<u8>, String>(b)),
        field is Ok && (field->Ok_0 is None || field->Ok_0->0@.len() == 0) ==> read is Err
            && read->Err_0@ == "No file was uploaded — pick a .skill archive."@,
        field matches Err(e) ==> read == Err::<Vec<u8>, String>(e),
        result matches Ok(name) ==> done is Ok && done->Ok_0@ == "/admin/skills?skill="@ + name@,
        result matches Err(e) ==> done is Err && done->Err_0@ == "Could not install skill: "@ + e@,
        gone is Ok ==> after is Ok && after->Ok_0@ == "/admin/skills"@,
        gone matches Err(e) ==> after is Err && after->Err_0@ == "Could not delete skill: "@ + e@,
{
}

/// Every file of a skill is in its tree: one below a directory under that directory by
/// the rest of its path, any other by its name.
pub proof fn every_file_is_in_the_tree(ui: &Ui, s: SkillView, i: int)
    requires
        0 <= i < s.files@.len(),
    ensures
        ({
            let file = s.files@[i]@;
            &&& dir_of(file) is None ==> shows(
                file_tree(ui, s),
                r#"<div class="py-0.5 font-mono truncate">"#@ + escaped(file) + "</div>"@,
            )
            &&& dir_of(file) matches Some(d) ==> shows(
                file_tree(ui, s),
                r#"<div class="pl-4 py-0.5 font-mono truncate">"#@ + escaped(below_dir(file))
                    + "</div>"@,
            )
        }),
{
    broadcast use group_shows;

    let files = texts(s.files@);
    let file = files[i];
    if dir_of(file) is None {
        lemma_root_file(files, i);
    } else {
        let d = dir_of(file)->0;
        directories_are_listed(files);
        lemma_nested_file(files, d, i);
        let dirs = dirs_of(files);
        assert(dir_of(files[i]) == Some(d));
        assert(dirs_of(files).contains(d));
        let k = choose|k: int| 0 <= k < dirs.len() && dirs[k] == d;
        lemma_dir_row(ui, files, dirs, k, i);
    }
}

proof fn lemma_root_file(files: Seq<Seq<char>>, i: int)
    requires
        0 <= i < files.len(),
        dir_of(files[i]) is None,
    ensures
        shows(
            root_files(files),
            r#"<div class="py-0.5 font-mono truncate">"#@ + escaped(files[i]) + "</div>"@,
        ),
    decreases files.len(),
{
    broadcast use group_shows;

    if i < files.len() - 1 {
        lemma_root_file(files.drop_last(), i);
    }
}

proof fn lemma_nested_file(files: Seq<Seq<char>>, dir: Seq<char>, i: int)
    requires
        0 <= i < files.len(),
        dir_of(files[i]) == Some(dir),
    ensures
        shows(
            nested_files(files, dir),
            r#"<div class="pl-4 py-0.5 font-mono truncate">"#@ + escaped(below_dir(files[i]))
                + "</div>"@,
        ),
    decreases files.len(),
{
    broadcast use group_shows;

    if i < files.len() - 1 {
        lemma_nested_file(files.drop_last(), dir, i);
    }
}

proof fn lemma_dir_row(
    ui: &Ui,
    files: Seq<Seq<char>>,
    dirs: Seq<Seq<char>>,
    k: int,
    i: int,
)
    requires
        0 <= k < dirs.len(),
        0 <= i < files.len(),
        dir_of(files[i]) == Some(dirs[k]),
    ensures
        shows(
            dir_rows(ui, files, dirs),
            r#"<div class="pl-4 py-0.5 font-mono truncate">"#@ + escaped(below_dir(files[i]))
                + "</div>"@,
        ),
    decreases dirs.len(),
{
    broadcast use group_shows;

    if k < dirs.len() - 1 {
        lemma_dir_row(ui, files, dirs.drop_last(), k, i);
    } else {
        lemma_nested_file(files, dirs[k], i);
    }
}

/// A path lies in the directory before its first slash, under what is behind it.
pub proof fn a_path_lies_in_its_directory(dir: Seq<char>, rest: Seq<char>)
    requires
        !dir.contains('/'),
    ensures
        dir_of(dir + "/"@ + rest) == Some(dir),
        below_dir(dir + "/"@ + rest) == rest,
        dir_of(dir) is None,
{
    reveal_strlit("/");
    let p = dir + "/"@ + rest;
    assert forall|j: int| 0 <= j < dir.len() implies p[j] != '/' by {
        assert(p[j] == dir[j]);
        assert(dir.contains(dir[j]));
    }
    assert(p[dir.len() as int] == '/');
    crate::text::lemma_first_index_at(p, '/', dir.len() as int);
    assert(p.take(dir.len() as int) =~= dir);
    assert(p.skip(dir.len() as int + 1) =~= rest);
    assert forall|j: int| 0 <= j < dir.len() implies dir[j] != '/' by {
        assert(dir.contains(dir[j]));
    }
    crate::text::lemma_first_index_at(dir, '/', dir.len() as int);
}

/// A link is set off while its skill is shown.
pub proof fn the_shown_skill_is_set_off()
    ensures
        shows(link_class(true), "font-semibold"@),
        link_class(true) != link_class(false),
{
    broadcast use group_shows;

    let marked = " bg-base-300 text-base-content font-semibold"@;
    let plain = " text-base-content/70 hover:bg-base-200"@;
    let base = "block px-2 py-1.5 text-sm font-mono rounded transition-colors cursor-pointer"@;
    reveal_strlit(" bg-base-300 text-base-content font-semibold");
    reveal_strlit(" text-base-content/70 hover:bg-base-200");
    reveal_strlit("font-semibold");
    assert(shows(marked, "font-semibold"@)) by {
        reveal(shows);
        assert(marked.subrange(31, 44) =~= "font-semibold"@);
        assert(occurs_at(marked, "font-semibold"@, 31));
    }
    assert(link_class(true)[base.len() as int + 1] == 'b');
    assert(link_class(false)[base.len() as int + 1] == 't');
}

/// Troubles with skills are told in their words.
pub proof fn skill_troubles_have_their_words(error: &str, unset: String, bad: String)
    requires
        call_ensures(not_configured, (), unset),
        call_ensures(bad_removal, (error,), bad),
    ensures
        unset@ == "Skills aren't configured ([skills] dir is unset)."@,
        bad@ == "Bad delete request: "@ + error@,
{
}

proof fn lemma_the_rail_tells_where_skills_come_from()
    ensures
        shows(
            r#"<form method="post" action="/admin/skills/upload" enctype="multipart/form-data" class="card"#@,
            r#"<form method="post" action="/admin/skills/upload" enctype="multipart/form-data""#@,
        ),
        shows(
            r#"<input type="file" name="skill" accept=".skill,.zip" required="required" class="file-input"#@,
            r#"<input type="file" name="skill""#@,
        ),
        starts_as(
            "</div></div></aside>"@,
            "</div>"@,
        ),
{
    assert(shows(r#"<form method="post" action="/admin/skills/upload" enctype="multipart/form-data" class="card"#@, r#"<form method="post" action="/admin/skills/upload" enctype="multipart/form-data""#@)) by {
        reveal(shows);
        reveal_strlit(r#"<form method="post" action="/admin/skills/upload" enctype="multipart/form-data" class="card"#);
        reveal_strlit(r#"<form method="post" action="/admin/skills/upload" enctype="multipart/form-data""#);
        assert(r#"<form method="post" action="/admin/skills/upload" enctype="multipart/form-data" class="card"#@.subrange(0, 79) =~= r#"<form method="post" action="/admin/skills/upload" enctype="multipart/form-data""#@);
        assert(occurs_at(r#"<form method="post" action="/admin/skills/upload" enctype="multipart/form-data" class="card"#@, r#"<form method="post" action="/admin/skills/upload" enctype="multipart/form-data""#@, 0));
    }
    assert(shows(r#"<input type="file" name="skill" accept=".skill,.zip" required="required" class="file-input"#@, r#"<input type="file" name="skill""#@)) by {
        reveal(shows);
        reveal_strlit(r#"<input type="file" name="skill" accept=".skill,.zip" required="required" class="file-input"#);
        reveal_strlit(r#"<input type="file" name="skill""#);
        assert(r#"<input type="file" name="skill" accept=".skill,.zip" required="required" class="file-input"#@.subrange(0, 31) =~= r#"<input type="file" name="skill""#@);
        assert(occurs_at(r#"<input type="file" name="skill" accept=".skill,.zip" required="required" class="file-input"#@, r#"<input type="file" name="skill""#@, 0));
    }
    assert(starts_as("</div></div></aside>"@, "</div>"@)) by {
        reveal(starts_as);
        reveal_strlit("</div></div></aside>");
        reveal_strlit("</div>");
        assert("</div></div></aside>"@.take(6) =~= "</div>"@);
    }
}

/// The rail uploads a skill, tells where there is none yet, and where they come from.
pub proof fn the_rail_tells_where_skills_come_from(ui: &Ui, skills: Seq<SkillView>, selected: int, dir: Option<&str>)
    ensures
        ({
            let page = rail(ui, skills, selected, dir);
            &&& shows(page, r#"<form method="post" action="/admin/skills/upload" enctype="multipart/form-data""#@)
            &&& shows(page, r#"<input type="file" name="skill""#@)
            &&& skills.len() == 0 ==> shows(page, r#"<div class="px-2 py-1 text-sm text-base-content/50">None yet</div>"#@)
            &&& dir is Some ==> shows(page, "Source: "@ + escaped(dir->0@) + "</div>"@)
        }),
{
    broadcast use group_shows;

    lemma_the_rail_tells_where_skills_come_from();
}

/// The archive of a skill is downloaded as one, under the name of the skill.
pub proof fn an_archive_is_named_after_its_skill(name: &str, len: usize, r: Vec<Header>)
    requires
        call_ensures(archive_headers, (name, len), r),
    ensures
        header_views(r@).contains(("content-type"@, "application/zip"@)),
        header_views(r@).contains(
            ("content-disposition"@, "attachment; filename=\""@ + (name@ + ".skill"@) + "\""@),
        ),
        header_views(r@).contains(("content-length"@, decimal(len as nat))),
{
    let h = header_views(r@);
    assert(h[0] == ("content-type"@, "application/zip"@));
    assert(h[1] == ("content-length"@, decimal(len as nat)));
    assert(h[2] == ("content-disposition"@, "attachment; filename=\""@ + (name@ + ".skill"@)
        + "\""@));
}

} // verus!
