//! Upstream servers.
//!
//! What is edited here is stored; it takes effect when the changes are applied,
//! and the page counts the changes that wait for it.
use crate::connectors::Sealed;
use crate::forms::{
    checkbox_on, csv_items, field, field_of, fields_all, has_field, is_checked, parse_csv,
    parse_u32, u32_or,
};
use crate::html::Ui;
use crate::lines::{
    entries_of, line_views, lines_of, lines_read_back, read_lines, writable, write_lines, Line,
    LineView,
};
use crate::notice::{said, Notice};
use crate::num::{decimal, show_u64};
use crate::pools::{filled_in, read_filled_in};
use crate::text::{clone_opt, joined, opt_text, texts, trim, trimmed};
use crate::updates::{pair, toast, views, FlashKind, Update, UpdateView};
use vstd::prelude::*;

verus! {

// ---------------------------------------------------------------------------
// Aliases

/// Another name of a model. Without a target it stands for the only model of its
/// server.
pub struct AliasRow {
    pub alias: String,
    pub target: Option<String>,
}

/// The line for an alias.
pub open spec fn alias_entry(a: AliasRow) -> LineView {
    LineView { name: a.alias@, value: opt_text(a.target) }
}

/// The lines for aliases.
pub open spec fn alias_entries(v: Seq<AliasRow>) -> Seq<LineView> {
    v.map_values(|a: AliasRow| alias_entry(a))
}

/// The text for aliases: one per line.
pub open spec fn alias_text(v: Seq<AliasRow>) -> Seq<char> {
    joined(lines_of(alias_entries(v)), "\n"@)
}

/// Writes aliases, one per line: `name=target`, or a bare name.
pub fn alias_lines(aliases: &Vec<AliasRow>) -> (r: String)
    ensures
        r@ == alias_text(aliases@),
{
    let mut out: Vec<Line> = Vec::new();
    for i in 0..aliases.len()
        invariant
            line_views(out@) == alias_entries(aliases@.take(i as int)),
    {
        let ghost before = line_views(out@);
        let entry = Line { name: aliases[i].alias.clone(), value: clone_opt(&aliases[i].target) };
        let ghost ev = entry@;
        out.push(entry);
        proof {
            assert(line_views(out@) =~= before.push(ev));
            assert(line_views(out@) =~= alias_entries(aliases@.take(i + 1)));
        }
    }
    assert(aliases@.take(aliases@.len() as int) =~= aliases@);
    write_lines(&out)
}

/// Reads aliases, one per line: `name=target`, or a bare name.
pub fn parse_aliases(v: &str) -> (r: Vec<AliasRow>)
    ensures
        alias_entries(r@) == entries_of(v@),
{
    let lines = read_lines(v);
    let ghost view = entries_of(v@);
    let mut out: Vec<AliasRow> = Vec::new();
    assert(line_views(lines@).len() == lines@.len());
    for i in 0..lines.len()
        invariant
            view == line_views(lines@),
            lines@.len() == view.len(),
            alias_entries(out@) == view.take(i as int),
    {
        let ghost before = alias_entries(out@);
        assert(view[i as int] == lines@[i as int]@);
        let row = AliasRow { alias: lines[i].name.clone(), target: clone_opt(&lines[i].value) };
        let ghost rv = alias_entry(row);
        out.push(row);
        proof {
            assert(alias_entries(out@) =~= before.push(rv));
            assert(alias_entries(out@) =~= view.take(i + 1));
        }
    }
    assert(view.take(view.len() as int) =~= view);
    out
}

/// Aliases that were written are read: they come back as they were.
pub proof fn aliases_read_back(aliases: Seq<AliasRow>)
    requires
        forall|i: int| 0 <= i < aliases.len() ==> writable(alias_entry(#[trigger] aliases[i])),
    ensures
        entries_of(alias_text(aliases)) == alias_entries(aliases),
{
    let entries = alias_entries(aliases);
    assert forall|i: int| 0 <= i < entries.len() implies writable(#[trigger] entries[i]) by {
        assert(entries[i] == alias_entry(aliases[i]));
    }
    lines_read_back(entries);
}

// ---------------------------------------------------------------------------
// Saving

/// A submitted server.
pub struct BackendForm {
    pub name: String,
    pub base_url: String,
    pub api_key_env: Option<String>,
    /// The key that was entered, if one was.
    pub api_key: Option<String>,
    pub weight: u32,
    pub max_inflight: u32,
    pub health_path: String,
    pub probe_models: bool,
    pub supports_edit: bool,
    pub models: Vec<String>,
    pub aliases: Vec<AliasRow>,
    /// The pool that the server is put into, none for no pool; absent when the
    /// form does not say.
    pub pool: Option<Option<String>>,
}

/// Reads the form of a server.
pub fn read_backend(pairs: &Vec<(String, String)>) -> (r: Result<BackendForm, Notice>)
    ensures
        ({
            let name = trimmed(field_of(pairs@, "name"@));
            let base_url = trimmed(field_of(pairs@, "base_url"@));
            match r {
                Err(n) => if name.len() == 0 {
                    n@ == said(false, "backends-error-name-required"@)
                } else {
                    base_url.len() == 0 && n@ == said(false, "backends-error-base-url-required"@)
                },
                Ok(b) => {
                    &&& name.len() > 0
                    &&& base_url.len() > 0
                    &&& b.name@ == name
                    &&& b.base_url@ == base_url
                    &&& opt_text(b.api_key_env) == filled_in(field_of(pairs@, "api_key_env"@))
                    &&& opt_text(b.api_key) == filled_in(field_of(pairs@, "api_key"@))
                    &&& b.weight == u32_or(field_of(pairs@, "weight"@), 1)
                    &&& b.max_inflight == u32_or(field_of(pairs@, "max_inflight"@), 16)
                    &&& b.health_path@ == (match filled_in(field_of(pairs@, "health_path"@)) {
                        Some(p) => p,
                        None => "/models"@,
                    })
                    &&& b.probe_models == is_checked(field_of(pairs@, "probe_models"@))
                    &&& b.supports_edit == is_checked(field_of(pairs@, "supports_edit"@))
                    &&& texts(b.models@) == csv_items(field_of(pairs@, "models"@))
                    &&& alias_entries(b.aliases@) == entries_of(field_of(pairs@, "aliases"@))
                    &&& b.pool is Some <==> has_field(pairs@, "pool"@)
                    &&& b.pool matches Some(p) ==> opt_text(p) == filled_in(
                        field_of(pairs@, "pool"@),
                    )
                },
            }
        }),
{
    let name = trim(&field(pairs, "name"));
    if name.as_str().is_empty() {
        return Err(Notice::plain(false, "backends-error-name-required"));
    }
    let base_url = trim(&field(pairs, "base_url"));
    if base_url.as_str().is_empty() {
        return Err(Notice::plain(false, "backends-error-base-url-required"));
    }
    let health_path = match read_filled_in(&field(pairs, "health_path")) {
        Some(p) => p,
        None => "/models".to_owned(),
    };
    let pools = fields_all(pairs, "pool");
    assert(texts(pools@).len() == pools@.len());
    let pool = if pools.len() > 0 {
        Some(read_filled_in(&field(pairs, "pool")))
    } else {
        None
    };
    Ok(
        BackendForm {
            name,
            base_url,
            api_key_env: read_filled_in(&field(pairs, "api_key_env")),
            api_key: read_filled_in(&field(pairs, "api_key")),
            weight: parse_u32(&field(pairs, "weight"), 1),
            max_inflight: parse_u32(&field(pairs, "max_inflight"), 16),
            health_path,
            probe_models: checkbox_on(&field(pairs, "probe_models")),
            supports_edit: checkbox_on(&field(pairs, "supports_edit")),
            models: parse_csv(&field(pairs, "models")),
            aliases: parse_aliases(&field(pairs, "aliases")),
            pool,
        },
    )
}

/// The key of a server as it is stored.
pub struct StoredKey {
    pub ciphertext: Option<Vec<u8>>,
    pub nonce: Option<Vec<u8>>,
}

/// The key to store: an entered one, sealed; else the one that is stored. A
/// blank field never clears a key, as the form does not show it.
pub fn key_to_store(sealed: Option<Sealed>, existing: Option<StoredKey>) -> (r: StoredKey)
    ensures
        match sealed {
            Some(s) => r.ciphertext == Some(s.ciphertext) && r.nonce == Some(s.nonce),
            None => match existing {
                Some(e) => r == e,
                None => r.ciphertext is None && r.nonce is None,
            },
        },
{
    match sealed {
        Some(s) => StoredKey { ciphertext: Some(s.ciphertext), nonce: Some(s.nonce) },
        None => match existing {
            Some(e) => e,
            None => StoredKey { ciphertext: None, nonce: None },
        },
    }
}

/// What is said when something could not be stored.
pub fn store_failed(error: &str) -> (r: Notice)
    ensures
        r@ == said(false, "admin-db-upsert-error"@).with("err"@, error@),
{
    Notice::plain(false, "admin-db-upsert-error").and("err", error)
}

/// What is said when something could not be deleted.
pub fn delete_failed(error: &str) -> (r: Notice)
    ensures
        r@ == said(false, "admin-db-error"@).with("err"@, error@),
{
    Notice::plain(false, "admin-db-error").and("err", error)
}

/// How many changes wait to be applied, for the page.
pub open spec fn dirty_json(count: nat) -> Seq<char> {
    "{\"topologyDirty\": "@ + decimal(count) + "}"@
}

/// Tells the page how many changes wait to be applied.
pub fn dirty_signal(count: u64) -> (r: Update)
    ensures
        r@ == (UpdateView::Signals { json: dirty_json(count as nat) }),
{
    let mut json = "{\"topologyDirty\": ".to_owned();
    json.append(&show_u64(count));
    json.append("}");
    Update::Signals { json }
}

/// What the page is told once a server was saved.
pub fn backend_saved(ui: &Ui, name: &str, dirty: u64) -> (r: Vec<Update>)
    ensures
        views(r@) == seq![
            toast(FlashKind::Success, ui.message_with("backends-saved"@, "name"@, name@)),
            UpdateView::Signals { json: dirty_json(dirty as nat) },
        ],
{
    pair(
        Update::toast(FlashKind::Success, &ui.t_with("backends-saved", "name", name)),
        dirty_signal(dirty),
    )
}

/// What the page is told once a server was deleted.
pub fn backend_deleted(ui: &Ui, name: &str, dirty: u64) -> (r: Vec<Update>)
    ensures
        views(r@) == seq![
            toast(FlashKind::Success, ui.message_with("backends-deleted"@, "name"@, name@)),
            UpdateView::Signals { json: dirty_json(dirty as nat) },
        ],
{
    pair(
        Update::toast(FlashKind::Success, &ui.t_with("backends-deleted", "name", name)),
        dirty_signal(dirty),
    )
}

// ---------------------------------------------------------------------------
// Laws

/// A server is stored as its form says: every field is read under its own name, without
/// the blanks around it, and what was left out has its default.
pub proof fn a_backend_is_stored_as_typed(
    pairs: &Vec<(String, String)>,
    r: Result<BackendForm, Notice>,
)
    requires
        call_ensures(read_backend, (pairs,), r),
    ensures
        ({
            let sent = |key: Seq<char>| trimmed(field_of(pairs@, key));
            &&& r is Ok <==> sent("name"@).len() > 0 && sent("base_url"@).len() > 0
            &&& sent("name"@).len() == 0 ==> r is Err && r->Err_0@ == said(
                false,
                "backends-error-name-required"@,
            )
            &&& sent("name"@).len() > 0 && sent("base_url"@).len() == 0 ==> r is Err && r->Err_0@
                == said(false, "backends-error-base-url-required"@)
            &&& r matches Ok(b) ==> {
                &&& b.name@ == sent("name"@)
                &&& b.base_url@ == sent("base_url"@)
                &&& sent("api_key_env"@).len() > 0 ==> opt_text(b.api_key_env) == Some(
                    sent("api_key_env"@),
                )
                &&& sent("api_key_env"@).len() == 0 ==> b.api_key_env is None
                &&& sent("api_key"@).len() > 0 ==> opt_text(b.api_key) == Some(sent("api_key"@))
                &&& sent("api_key"@).len() == 0 ==> b.api_key is None
                &&& b.weight == u32_or(field_of(pairs@, "weight"@), 1)
                &&& b.max_inflight == u32_or(field_of(pairs@, "max_inflight"@), 16)
                &&& sent("health_path"@).len() > 0 ==> b.health_path@ == sent("health_path"@)
                &&& sent("health_path"@).len() == 0 ==> b.health_path@ == "/models"@
                &&& b.probe_models <==> is_checked(field_of(pairs@, "probe_models"@))
                &&& b.supports_edit <==> is_checked(field_of(pairs@, "supports_edit"@))
                &&& texts(b.models@) == crate::text::items_of(field_of(pairs@, "models"@), ","@)
                &&& alias_entries(b.aliases@) == entries_of(field_of(pairs@, "aliases"@))
                &&& b.pool is None <==> !has_field(pairs@, "pool"@)
                &&& b.pool matches Some(p) ==> {
                    &&& sent("pool"@).len() > 0 ==> opt_text(p) == Some(sent("pool"@))
                    &&& sent("pool"@).len() == 0 ==> p is None
                }
            }
        }),
{
}

/// A new key replaces the stored one; without a new one the stored one stays.
pub proof fn the_stored_key_stays(
    sealed: Option<Sealed>,
    existing: Option<StoredKey>,
    r: StoredKey,
)
    requires
        call_ensures(key_to_store, (sealed, existing), r),
    ensures
        sealed matches Some(s) ==> r.ciphertext == Some(s.ciphertext) && r.nonce == Some(s.nonce),
        sealed is None && existing is Some ==> r.ciphertext == existing->0.ciphertext && r.nonce
            == existing->0.nonce,
        sealed is None && existing is None ==> r.ciphertext is None && r.nonce is None,
{
}

/// A saved and a deleted server are told by their name, each in its own words, together
/// with how many changes wait.
pub proof fn a_change_is_told_and_counted(
    ui: &Ui,
    name: &str,
    dirty: u64,
    saved: Vec<Update>,
    deleted: Vec<Update>,
)
    requires
        call_ensures(backend_saved, (ui, name, dirty), saved),
        call_ensures(backend_deleted, (ui, name, dirty), deleted),
    ensures
        views(saved@).len() == 2,
        views(deleted@).len() == 2,
        views(saved@)[0] == (UpdateView::Toast {
            kind: FlashKind::Success,
            message: ui.message_with("backends-saved"@, "name"@, name@),
        }),
        views(deleted@)[0] == (UpdateView::Toast {
            kind: FlashKind::Success,
            message: ui.message_with("backends-deleted"@, "name"@, name@),
        }),
        views(saved@)[1] == (UpdateView::Signals {
            json: "{\"topologyDirty\": "@ + decimal(dirty as nat) + "}"@,
        }),
        views(deleted@)[1] == views(saved@)[1],
{
}

/// The page is told how many changes are not yet in force.
pub proof fn the_page_is_told_of_changes(count: u64, r: Update)
    requires
        call_ensures(dirty_signal, (count,), r),
    ensures
        r@ == (UpdateView::Signals {
            json: "{\"topologyDirty\": "@ + decimal(count as nat) + "}"@,
        }),
{
}

/// A failed change is told with what went wrong.
pub proof fn a_failed_change_is_told(error: &str, stored: Notice, deleted: Notice)
    requires
        call_ensures(store_failed, (error,), stored),
        call_ensures(delete_failed, (error,), deleted),
    ensures
        stored@ == said(false, "admin-db-upsert-error"@).with("err"@, error@),
        deleted@ == said(false, "admin-db-error"@).with("err"@, error@),
{
}

} // verus!
