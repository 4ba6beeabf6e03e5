//! Administration of the connector catalog: the servers that users can connect
//! to the assistant.
//!
//! An administrator edits endpoints and scopes, supplies an OAuth client where
//! a connector cannot register one by itself, and enables or disables entries.
use crate::forms::{csv_items, parse_csv};
use crate::html::{escaped, find_icon, Html, Ui};
use crate::json::{json_at, json_pointer};
use crate::text::{
    clean, items_of, join, joined, nonblank, occurs_at, opt_text, same, split_items, starts_with,
    string_or_empty, strip, text_or_empty, texts, trim, trimmed, without_suffix,
};
use crate::markup::{ends_in, group_shows, shows, starts_as};
use vstd::prelude::*;

verus! {

// ---------------------------------------------------------------------------
// The catalog

/// How the gateway proves itself to a connector's server.
#[derive(Clone, Copy, PartialEq, Eq, Structural, Debug)]
pub enum AuthKind {
    OAuth2,
    StaticBearer,
    NoAuth,
}

/// Whose identity a connector uses.
#[derive(Clone, Copy, PartialEq, Eq, Structural, Debug)]
pub enum Scope {
    PerUser,
    Global,
}

/// The kind that a form value names; anything unknown is OAuth.
pub open spec fn auth_named(s: Seq<char>) -> AuthKind {
    if s == "static_bearer"@ {
        AuthKind::StaticBearer
    } else if s == "none"@ {
        AuthKind::NoAuth
    } else {
        AuthKind::OAuth2
    }
}

/// The scope that a form value names; anything unknown is per user.
pub open spec fn scope_named(s: Seq<char>) -> Scope {
    if s == "global"@ {
        Scope::Global
    } else {
        Scope::PerUser
    }
}

impl AuthKind {
    /// Reads a form value.
    pub fn parse(s: &str) -> (r: AuthKind)
        ensures
            r == auth_named(s@),
    {
        if same(s, "static_bearer") {
            AuthKind::StaticBearer
        } else if same(s, "none") {
            AuthKind::NoAuth
        } else {
            AuthKind::OAuth2
        }
    }
}

impl Scope {
    /// Reads a form value.
    pub fn parse(s: &str) -> (r: Scope)
        ensures
            r == scope_named(s@),
    {
        if same(s, "global") {
            Scope::Global
        } else {
            Scope::PerUser
        }
    }
}

/// One entry of the catalog.
pub struct Connector {
    pub key: String,
    pub name: String,
    pub description: Option<String>,
    pub icon: Option<String>,
    pub category: Option<String>,
    pub url: String,
    pub auth: AuthKind,
    pub scope: Scope,
    pub audit: bool,
    pub use_dcr: bool,
    pub client_id: Option<String>,
    pub client_secret_ct: Option<Vec<u8>>,
    pub client_secret_nonce: Option<Vec<u8>>,
    pub authorize_url: Option<String>,
    pub token_url: Option<String>,
    pub registration_url: Option<String>,
    pub scopes: Vec<String>,
    pub allowed_groups: Vec<String>,
    pub required_role: Option<String>,
    pub enabled: bool,
    pub seeded: bool,
}

impl Connector {
    /// One shared identity for the whole gateway.
    pub open spec fn global(&self) -> bool {
        self.scope == Scope::Global
    }

    /// An OAuth connector that can neither register a client nor has one.
    pub open spec fn lacks_client(&self) -> bool {
        self.auth == AuthKind::OAuth2 && !self.use_dcr && self.client_id is None
    }

    /// Whether one identity is shared by the whole gateway.
    pub fn is_global(&self) -> (r: bool)
        ensures
            r == self.global(),
    {
        self.scope == Scope::Global
    }

    /// Whether an administrator still has to configure an OAuth client.
    pub fn needs_setup(&self) -> (r: bool)
        ensures
            r == self.lacks_client(),
    {
        self.auth == AuthKind::OAuth2 && !self.use_dcr && self.client_id.is_none()
    }
}

/// The address that providers send users back to.
pub open spec fn callback_address(public_url: Seq<char>) -> Seq<char> {
    without_suffix(public_url, false, "/"@) + "/integrations/callback"@
}

/// The address that providers send users back to.
pub fn callback_uri(public_url: &str) -> (r: String)
    ensures
        r@ == callback_address(public_url@),
{
    let mut out = strip(public_url, false, false, "/");
    out.append("/integrations/callback");
    out
}

// ---------------------------------------------------------------------------
// OAuth client credentials pasted as JSON

/// Fields lifted out of an OAuth client-credentials JSON.
pub struct ParsedClientJson {
    pub client_id: Option<String>,
    pub client_secret: Option<String>,
    pub authorize_url: Option<String>,
    pub token_url: Option<String>,
}

impl Default for ParsedClientJson {
    fn default() -> (r: Self)
        ensures
            r.client_id is None,
            r.client_secret is None,
            r.authorize_url is None,
            r.token_url is None,
    {
        ParsedClientJson {
            client_id: None,
            client_secret: None,
            authorize_url: None,
            token_url: None,
        }
    }
}

/// Where the credentials stand: under `web`, else under `installed`, else at the top.
pub open spec fn client_root(has_web: bool, has_installed: bool) -> Seq<char> {
    if has_web {
        "/web"@
    } else if has_installed {
        "/installed"@
    } else {
        ""@
    }
}

/// Picks where the credentials stand.
pub fn credentials_root(has_web: bool, has_installed: bool) -> (r: String)
    ensures
        r@ == client_root(has_web, has_installed),
{
    if has_web {
        "/web".to_owned()
    } else if has_installed {
        "/installed".to_owned()
    } else {
        "".to_owned()
    }
}

/// The string at a pointer, if a string stands there.
pub open spec fn json_string(raw: Seq<char>, pointer: Seq<char>) -> Option<Seq<char>> {
    match json_at(raw, pointer) {
        Some(inner) => inner,
        None => None,
    }
}

/// A field of the credentials.
pub open spec fn client_field(raw: Seq<char>, pointer: Seq<char>) -> Option<Seq<char>> {
    let root = client_root(
        json_at(raw, "/web"@) is Some,
        json_at(raw, "/installed"@) is Some,
    );
    json_string(raw, root + pointer)
}

fn string_at(raw: &str, root: &str, pointer: &str) -> (r: Option<String>)
    ensures
        opt_text(r) == json_string(raw@, root@ + pointer@),
        r is Some ==> json_at(raw@, ""@) is Some,
{
    let mut path = root.to_owned();
    path.append(pointer);
    match json_pointer(raw, &path) {
        Some(inner) => inner,
        None => None,
    }
}

/// Reads a downloaded OAuth client JSON: `{"web":{…}}`, `{"installed":{…}}` or
/// a bare object. A text that is not JSON, or holds none of the fields, yields
/// nothing.
pub fn parse_client_json(raw: &str) -> (r: ParsedClientJson)
    ensures
        opt_text(r.client_id) == client_field(raw@, "/client_id"@),
        opt_text(r.client_secret) == client_field(raw@, "/client_secret"@),
        opt_text(r.authorize_url) == client_field(raw@, "/auth_uri"@),
        opt_text(r.token_url) == client_field(raw@, "/token_uri"@),
        json_at(raw@, ""@) is None ==> r.client_id is None && r.client_secret is None
            && r.authorize_url is None && r.token_url is None,
{
    let root = credentials_root(
        json_pointer(raw, "/web").is_some(),
        json_pointer(raw, "/installed").is_some(),
    );
    ParsedClientJson {
        client_id: string_at(raw, &root, "/client_id"),
        client_secret: string_at(raw, &root, "/client_secret"),
        authorize_url: string_at(raw, &root, "/auth_uri"),
        token_url: string_at(raw, &root, "/token_uri"),
    }
}

// ---------------------------------------------------------------------------
// Saving a connector

/// The submitted connector form.
pub struct SaveForm {
    pub key: String,
    pub name: String,
    pub description: Option<String>,
    pub icon: Option<String>,
    pub category: Option<String>,
    pub url: String,
    pub auth: Option<String>,
    pub scope: Option<String>,
    pub audit: Option<String>,
    pub use_dcr: Option<String>,
    pub client_id: Option<String>,
    pub client_secret: Option<String>,
    pub authorize_url: Option<String>,
    pub token_url: Option<String>,
    pub registration_url: Option<String>,
    pub scopes: Option<String>,
    pub allowed_groups: Option<String>,
    pub client_json: Option<String>,
}

/// Why a connector form is refused.
#[derive(Clone, Copy, PartialEq, Eq, Structural, Debug)]
pub enum SaveError {
    /// Key, name or address is blank.
    MissingFields,
    /// A pasted client JSON without a client id.
    BadClientJson,
    /// A shared connector cannot use per-user OAuth.
    GlobalOauth,
}

/// The OAuth client that a form describes, its secret still in the clear.
pub struct ClientParts {
    pub client_id: Option<String>,
    pub authorize_url: Option<String>,
    pub token_url: Option<String>,
    pub secret: Option<String>,
}

/// A sealed secret.
pub struct Sealed {
    pub ciphertext: Vec<u8>,
    pub nonce: Vec<u8>,
}

/// What is written to the catalog.
pub struct ConnectorInput {
    pub key: String,
    pub name: String,
    pub description: Option<String>,
    pub icon: Option<String>,
    pub category: Option<String>,
    pub url: String,
    pub auth: AuthKind,
    pub scope: Scope,
    pub audit: bool,
    pub use_dcr: bool,
    pub client_id: Option<String>,
    pub client_secret_ct: Option<Vec<u8>>,
    pub client_secret_nonce: Option<Vec<u8>>,
    pub authorize_url: Option<String>,
    pub token_url: Option<String>,
    pub registration_url: Option<String>,
    pub scopes: Vec<String>,
    pub allowed_groups: Vec<String>,
}

/// The first text that is there.
pub open spec fn first_of(a: Option<Seq<char>>, b: Option<Seq<char>>) -> Option<Seq<char>> {
    if a is Some {
        a
    } else {
        b
    }
}

fn or_clean(a: Option<String>, b: &Option<String>) -> (r: Option<String>)
    ensures
        opt_text(r) == first_of(opt_text(a), nonblank(opt_text(*b))),
{
    match a {
        Some(s) => Some(s),
        None => clean(b),
    }
}

/// Key, name and address are all there.
pub open spec fn required_fields(form: SaveForm) -> bool {
    trimmed(form.key@).len() > 0 && trimmed(form.name@).len() > 0 && trimmed(form.url@).len() > 0
}

/// A field of the pasted JSON, if one was pasted.
pub open spec fn pasted_field(form: SaveForm, pointer: Seq<char>) -> Option<Seq<char>> {
    match nonblank(opt_text(form.client_json)) {
        Some(json) => client_field(json, pointer),
        None => None,
    }
}

/// The client described by a pasted JSON (`pasted`, absent when none was) and
/// the single fields: what the JSON holds wins, the fields fill the rest.
pub fn merge_client(form: &SaveForm, pasted: Option<ParsedClientJson>) -> (r: Result<
    ClientParts,
    SaveError,
>)
    ensures
        r matches Err(e) ==> e == SaveError::BadClientJson,
        r is Err <==> (pasted is Some && pasted->0.client_id is None),
        r matches Ok(c) ==> {
            let p = pasted;
            &&& opt_text(c.client_id) == first_of(
                if p is Some { opt_text(p->0.client_id) } else { None },
                nonblank(opt_text(form.client_id)),
            )
            &&& opt_text(c.authorize_url) == first_of(
                if p is Some { opt_text(p->0.authorize_url) } else { None },
                nonblank(opt_text(form.authorize_url)),
            )
            &&& opt_text(c.token_url) == first_of(
                if p is Some { opt_text(p->0.token_url) } else { None },
                nonblank(opt_text(form.token_url)),
            )
            &&& opt_text(c.secret) == first_of(
                if p is Some { opt_text(p->0.client_secret) } else { None },
                nonblank(opt_text(form.client_secret)),
            )
        },
{
    let parsed = match pasted {
        Some(p) => {
            if p.client_id.is_none() {
                return Err(SaveError::BadClientJson);
            }
            p
        },
        None => ParsedClientJson::default(),
    };
    Ok(
        ClientParts {
            client_id: or_clean(parsed.client_id, &form.client_id),
            authorize_url: or_clean(parsed.authorize_url, &form.authorize_url),
            token_url: or_clean(parsed.token_url, &form.token_url),
            secret: or_clean(parsed.client_secret, &form.client_secret),
        },
    )
}

/// First half of saving: checks the required fields and works out the OAuth
/// client. The secret is sealed by the caller before [`finish_save`].
pub fn prepare_client(form: &SaveForm) -> (r: Result<ClientParts, SaveError>)
    ensures
        r == Err::<ClientParts, SaveError>(SaveError::MissingFields) <==> !required_fields(*form),
        r == Err::<ClientParts, SaveError>(SaveError::BadClientJson) <==> required_fields(*form)
            && nonblank(opt_text(form.client_json)) is Some && pasted_field(*form, "/client_id"@) is None,
        r matches Err(e) ==> e != SaveError::GlobalOauth,
        r matches Ok(c) ==> {
            &&& opt_text(c.client_id) == first_of(
                pasted_field(*form, "/client_id"@),
                nonblank(opt_text(form.client_id)),
            )
            &&& opt_text(c.authorize_url) == first_of(
                pasted_field(*form, "/auth_uri"@),
                nonblank(opt_text(form.authorize_url)),
            )
            &&& opt_text(c.token_url) == first_of(
                pasted_field(*form, "/token_uri"@),
                nonblank(opt_text(form.token_url)),
            )
            &&& opt_text(c.secret) == first_of(
                pasted_field(*form, "/client_secret"@),
                nonblank(opt_text(form.client_secret)),
            )
        },
{
    if trim(&form.key).as_str().is_empty() || trim(&form.name).as_str().is_empty() || trim(
        &form.url,
    ).as_str().is_empty() {
        return Err(SaveError::MissingFields);
    }
    let pasted = match clean(&form.client_json) {
        Some(json) => Some(parse_client_json(&json)),
        None => None,
    };
    merge_client(form, pasted)
}

/// The form value, or the default when the field was not submitted.
pub open spec fn or_default(v: Option<String>, default: Seq<char>) -> Seq<char> {
    match v {
        Some(s) => s@,
        None => default,
    }
}

/// The auth kind of a form.
pub open spec fn form_auth(form: SaveForm) -> AuthKind {
    auth_named(or_default(form.auth, "oauth2"@))
}

/// The scope of a form.
pub open spec fn form_scope(form: SaveForm) -> Scope {
    scope_named(or_default(form.scope, "per_user"@))
}

/// Second half of saving: what is written to the catalog. `sealed` is the
/// sealed secret, absent when none was supplied (the stored one then stays).
pub fn finish_save(form: SaveForm, client: ClientParts, sealed: Option<Sealed>) -> (r: Result<
    ConnectorInput,
    SaveError,
>)
    ensures
        r is Err <==> form_scope(form) == Scope::Global && form_auth(form) == AuthKind::OAuth2,
        r matches Err(e) ==> e == SaveError::GlobalOauth,
        r matches Ok(c) ==> {
            &&& c.key@ == trimmed(form.key@)
            &&& c.name@ == trimmed(form.name@)
            &&& opt_text(c.description) == nonblank(opt_text(form.description))
            &&& opt_text(c.icon) == nonblank(opt_text(form.icon))
            &&& opt_text(c.category) == nonblank(opt_text(form.category))
            &&& c.url@ == trimmed(form.url@)
            &&& c.auth == form_auth(form)
            &&& c.scope == form_scope(form)
            &&& c.audit == (form.audit is Some)
            &&& c.use_dcr == (form.use_dcr is Some)
            &&& c.client_id == client.client_id
            &&& c.authorize_url == client.authorize_url
            &&& c.token_url == client.token_url
            &&& c.client_secret_ct is Some <==> sealed is Some
            &&& c.client_secret_nonce is Some <==> sealed is Some
            &&& sealed matches Some(s) ==> c.client_secret_ct == Some(s.ciphertext)
                && c.client_secret_nonce == Some(s.nonce)
            &&& opt_text(c.registration_url) == nonblank(opt_text(form.registration_url))
            &&& texts(c.scopes@) == items_of(text_or_empty(opt_text(form.scopes)), ", \n\t"@)
            &&& texts(c.allowed_groups@) == csv_items(text_or_empty(opt_text(form.allowed_groups)))
        },
{
    let auth = match &form.auth {
        Some(a) => AuthKind::parse(a),
        None => AuthKind::parse("oauth2"),
    };
    let scope = match &form.scope {
        Some(s) => Scope::parse(s),
        None => Scope::parse("per_user"),
    };
    if scope == Scope::Global && auth == AuthKind::OAuth2 {
        return Err(SaveError::GlobalOauth);
    }
    let (client_secret_ct, client_secret_nonce) = match sealed {
        Some(s) => (Some(s.ciphertext), Some(s.nonce)),
        None => (None, None),
    };
    Ok(
        ConnectorInput {
            key: trim(&form.key),
            name: trim(&form.name),
            description: clean(&form.description),
            icon: clean(&form.icon),
            category: clean(&form.category),
            url: trim(&form.url),
            auth,
            scope,
            audit: form.audit.is_some(),
            use_dcr: form.use_dcr.is_some(),
            client_id: client.client_id,
            client_secret_ct,
            client_secret_nonce,
            authorize_url: client.authorize_url,
            token_url: client.token_url,
            registration_url: clean(&form.registration_url),
            scopes: split_items(&string_or_empty(&form.scopes), ", \n\t"),
            allowed_groups: parse_csv(&string_or_empty(&form.allowed_groups)),
        },
    )
}

/// Whether a connector may be switched: on only once it has what it needs.
/// `stored` is the catalog entry, absent when it cannot be read.
pub fn may_toggle(enable: bool, stored: Option<&Connector>) -> (r: bool)
    ensures
        r == !(enable && stored is Some && stored->0.lacks_client()),
{
    match stored {
        Some(c) => !(enable && c.needs_setup()),
        None => true,
    }
}

/// What is said of a connector that lacks what it needs to be switched on.
pub fn needs_client_words(ui: &Ui) -> (r: String)
    ensures
        r@ == ui.message("connectors-error-needs-client-id"@),
{
    ui.t("connectors-error-needs-client-id")
}

impl SaveError {
    /// Why the form is refused, in words.
    pub open spec fn words(self, ui: &Ui) -> Seq<char> {
        match self {
            SaveError::MissingFields => ui.message("connectors-error-missing-fields"@),
            SaveError::BadClientJson => ui.message("connectors-error-bad-client-json"@),
            SaveError::GlobalOauth => "A global connector is a single shared identity for the whole gateway, so it can't use per-user OAuth. Choose \"No auth\" (token baked into the server, e.g. Discord) or \"Bearer token\" (one shared token) instead."@,
        }
    }

    /// The words shown to the administrator.
    pub fn message(&self, ui: &Ui) -> (r: String)
        ensures
            r@ == self.words(ui),
    {
        match self {
            SaveError::MissingFields => ui.t("connectors-error-missing-fields"),
            SaveError::BadClientJson => ui.t("connectors-error-bad-client-json"),
            SaveError::GlobalOauth => "A global connector is a single shared identity for the whole gateway, so it can't use per-user OAuth. Choose \"No auth\" (token baked into the server, e.g. Discord) or \"Bearer token\" (one shared token) instead.".to_owned(),
        }
    }
}

/// What went wrong with the catalog.
#[derive(Clone, Copy, PartialEq, Eq, Structural, Debug)]
pub enum CatalogFault {
    Sealing,
    Saving,
    Toggling,
    Deleting,
    Restoring,
}

impl CatalogFault {
    /// The key of the message.
    pub open spec fn key(self) -> Seq<char> {
        match self {
            CatalogFault::Sealing => "connectors-error-sealing-secret"@,
            CatalogFault::Saving => "connectors-error-saving"@,
            CatalogFault::Toggling => "connectors-error-toggling"@,
            CatalogFault::Deleting => "connectors-error-deleting"@,
            CatalogFault::Restoring => "connectors-error-restoring"@,
        }
    }

    /// The words shown to the administrator.
    pub fn message(&self, ui: &Ui, error: &str) -> (r: String)
        ensures
            r@ == ui.message_with(self.key(), "error"@, error@),
    {
        let key = match self {
            CatalogFault::Sealing => "connectors-error-sealing-secret",
            CatalogFault::Saving => "connectors-error-saving",
            CatalogFault::Toggling => "connectors-error-toggling",
            CatalogFault::Deleting => "connectors-error-deleting",
            CatalogFault::Restoring => "connectors-error-restoring",
        };
        ui.t_with(key, "error", error)
    }
}

// ---------------------------------------------------------------------------
// The audit log of one connector

/// One recorded tool call.
pub struct McpToolEvent {
    pub created_at: String,
    pub user_id: String,
    pub user_email: String,
    pub tool_id: String,
    pub outcome: String,
    pub error: Option<String>,
    pub arguments: Option<String>,
}

/// The name shown for a connector: its own, or its key when it is gone.
pub open spec fn display_name(stored: Option<&Connector>, key: Seq<char>) -> Seq<char> {
    match stored {
        Some(c) => c.name@,
        None => key,
    }
}

/// The name shown for a connector.
pub fn audit_name(stored: Option<&Connector>, key: &str) -> (r: String)
    ensures
        r@ == display_name(stored, key@),
{
    match stored {
        Some(c) => c.name.clone(),
        None => key.to_owned(),
    }
}

/// Title of the audit page.
pub fn audit_title(name: &str) -> (r: String)
    ensures
        r@ == name@ + " — audit log"@,
{
    let mut out = name.to_owned();
    out.append(" — audit log");
    out
}

/// One line of the audit log.
#[verifier::opaque]
pub open spec fn audit_row(e: McpToolEvent) -> Seq<char> {
    let who = if e.user_email@.len() == 0 { e.user_id@ } else { e.user_email@ };
    let detail = text_or_empty(first_of(opt_text(e.error), opt_text(e.arguments)));
    let ok = e.outcome@ == "ok"@;
    r#"<tr><td class="text-xs whitespace-nowrap text-base-content/60">"#@
        + escaped(e.created_at@)
        + r#"</td><td class="text-xs">"#@
        + escaped(who)
        + r#"</td><td class="text-xs"><code>"#@
        + escaped(e.tool_id@)
        + r#"</code></td><td class="text-xs">"#@
        + (if ok {
            r#"<span class="badge badge-success badge-xs">ok</span>"#@
        } else {
            r#"<span class="badge badge-error badge-xs">error</span>"#@
        })
        + r#"</td><td class="text-xs text-base-content/50 max-w-md truncate">"#@
        + escaped(detail)
        + "</td></tr>"@
}

/// The lines of the audit log, in the order given.
pub open spec fn audit_rows(events: Seq<McpToolEvent>) -> Seq<char>
    decreases events.len(),
{
    if events.len() == 0 {
        Seq::empty()
    } else {
        audit_rows(events.drop_last()) + audit_row(events.last())
    }
}

fn render_audit_row(e: &McpToolEvent) -> (r: Html)
    ensures
        r@ == audit_row(*e),
{
    proof {
        reveal(audit_row);
    }
    let who = if e.user_email.as_str().is_empty() {
        e.user_id.clone()
    } else {
        e.user_email.clone()
    };
    let detail = match &e.error {
        Some(s) => s.clone(),
        None => string_or_empty(&e.arguments),
    };
    let ok = same(&e.outcome, "ok");
    Html::new(r#"<tr><td class="text-xs whitespace-nowrap text-base-content/60">"#)
        .text(&e.created_at)
        .raw(r#"</td><td class="text-xs">"#)
        .text(&who)
        .raw(r#"</td><td class="text-xs"><code>"#)
        .text(&e.tool_id)
        .raw(r#"</code></td><td class="text-xs">"#)
        .html(if ok {
            Html::new(r#"<span class="badge badge-success badge-xs">ok</span>"#)
        } else {
            Html::new(r#"<span class="badge badge-error badge-xs">error</span>"#)
        })
        .raw(r#"</td><td class="text-xs text-base-content/50 max-w-md truncate">"#)
        .text(&detail)
        .raw("</td></tr>")
}

fn render_audit_rows(events: &Vec<McpToolEvent>) -> (r: Html)
    ensures
        r@ == audit_rows(events@),
{
    let mut out = Html::empty();
    assert(events@.take(0) =~= Seq::<McpToolEvent>::empty());
    for i in 0..events.len()
        invariant
            out@ == audit_rows(events@.take(i as int)),
    {
        assert(events@.take(i + 1).drop_last() =~= events@.take(i as int));
        out = out.html(render_audit_row(&events[i]));
    }
    assert(events@.take(events@.len() as int) =~= events@);
    out
}

/// The audit page of a connector.
pub open spec fn audit_page(
    name: Seq<char>,
    key: Seq<char>,
    events: Seq<McpToolEvent>,
) -> Seq<char> {
    r#"<div class="max-w-5xl mx-auto w-full px-4 sm:px-6 pt-14 sm:pt-6 pb-6">"#@
        + r#"<a href="/admin/connectors" class="text-sm text-base-content/60 hover:underline">"#@
        + r#"← Connectors</a><div class="flex items-center gap-2 flex-wrap mt-2 mb-1">"#@
        + r#"<h1 class="text-2xl font-bold m-0">"#@
        + escaped(name)
        + r#"</h1><span class="badge badge-warning badge-sm">Audited</span></div>"#@
        + r#"<p class="text-base-content/60 text-sm mb-6">Tool-call audit for <code>"#@
        + escaped(key)
        + "</code>. Newest first; last 200.</p>"@
        + (if events.len() == 0 {
            r#"<p class="text-base-content/50 text-sm m-0">No tool calls recorded for this connector yet."#@
                + "</p>"@
        } else {
            r#"<div class="overflow-x-auto"><table class="table table-sm"><thead><tr><th>When</th><th>User"#@
                + "</th><th>Tool</th><th>Outcome</th><th>Detail</th></tr></thead><tbody>"@
                + audit_rows(events)
                + "</tbody></table></div>"@
        })
        + "</div>"@
}

/// Renders the audit page of a connector, the events in the order given.
pub fn render_audit_page(name: &str, key: &str, events: &Vec<McpToolEvent>) -> (r: Html)
    ensures
        r@ == audit_page(name@, key@, events@),
{
    Html::new(r#"<div class="max-w-5xl mx-auto w-full px-4 sm:px-6 pt-14 sm:pt-6 pb-6">"#)
        .raw(r#"<a href="/admin/connectors" class="text-sm text-base-content/60 hover:underline">"#)
        .raw(r#"← Connectors</a><div class="flex items-center gap-2 flex-wrap mt-2 mb-1">"#)
        .raw(r#"<h1 class="text-2xl font-bold m-0">"#)
        .text(&name)
        .raw(r#"</h1><span class="badge badge-warning badge-sm">Audited</span></div>"#)
        .raw(r#"<p class="text-base-content/60 text-sm mb-6">Tool-call audit for <code>"#)
        .text(&key)
        .raw("</code>. Newest first; last 200.</p>")
        .html(if events.len() == 0 {
            Html::new(r#"<p class="text-base-content/50 text-sm m-0">No tool calls recorded for this connector yet."#)
                .raw("</p>")
        } else {
            Html::new(r#"<div class="overflow-x-auto"><table class="table table-sm"><thead><tr><th>When</th><th>User"#)
                .raw("</th><th>Tool</th><th>Outcome</th><th>Detail</th></tr></thead><tbody>")
                .html(render_audit_rows(events))
                .raw("</tbody></table></div>")
        })
        .raw("</div>")
}

// ---------------------------------------------------------------------------
// Help for creating an OAuth client

/// Help for a connector whose users paste their own token.
pub open spec fn help_token(ui: &Ui) -> Seq<char> {
    r#"<div class="rounded-md border border-info/30 bg-info/5 p-3 text-xs leading-relaxed">"#@
        + r#"<p class="m-0">"#@
        + escaped(ui.message("connectors-oauth-help-token-1"@))
        + " <code>Authorization: Bearer &lt;token&gt;</code>"@
        + escaped(ui.message("connectors-oauth-help-token-2"@))
        + "</p></div>"@
}

/// Help for a connector without credentials.
pub open spec fn help_open(is_global: bool) -> Seq<char> {
    r#"<div class="rounded-md border border-info/30 bg-info/5 p-3 text-xs leading-relaxed">"#@
        + (if is_global {
            r#"<p class="m-0">"#@
                + "Global connector: set the MCP server URL above (the gateway reaches it with no auth). The"@
                + " credential — e.g. a Discord bot token — is baked into the MCP server itself, so keep its"@
                + " endpoint private/loopback-only, never publicly exposed. Its tools are available to"@
                + " everyone the role below allows, with no per-user sign-in; each user can still toggle them"@
                + " always/ask/off on their Tools page.</p>"@
        } else {
            r#"<p class="m-0">"#@
                + "Public connector: set the MCP server URL above. No OAuth client and no per-user token —"@
                + " every user still connects individually so they can opt its tools in or out.</p>"@
        })
        + "</div>"@
}

/// Help for a connector that registers its client by itself.
pub open spec fn help_dcr(ui: &Ui, is_google_ws: bool, redirect_uri: Seq<char>) -> Seq<char> {
    r#"<div class="rounded-md border border-info/30 bg-info/5 p-3 text-xs leading-relaxed">"#@
        + r#"<p class="m-0 font-medium">"#@
        + escaped(ui.message("connectors-oauth-help-dcr-heading"@))
        + r#"</p><p class="m-0 mt-1">"#@
        + escaped(ui.message("connectors-oauth-help-dcr-body"@))
        + "</p>"@
        + (if is_google_ws {
            r#"<p class="m-0 mt-2">"#@
                + escaped(ui.message("connectors-oauth-help-gws-1"@))
                + " <strong>"@
                + escaped(ui.message("connectors-oauth-help-gws-self-hosted"@))
                + "</strong> "@
                + escaped(ui.message("connectors-oauth-help-gws-2"@))
                + " "@
                + r#"<a class="link" target="_blank" rel="noopener noreferrer""#@
                + r#" href="https://github.com/taylorwilsdon/google_workspace_mcp">"#@
                + "taylorwilsdon/google_workspace_mcp</a> "@
                + escaped(ui.message("connectors-oauth-help-gws-3"@))
                + " <code>/mcp/</code>"@
                + escaped(ui.message("connectors-oauth-help-gws-4"@))
                + " <strong>"@
                + escaped(ui.message("connectors-oauth-help-gws-ga-apis"@))
                + "</strong> "@
                + escaped(ui.message("connectors-oauth-help-gws-5"@))
                + " <code>WORKSPACE_MCP_ALLOWED_CLIENT_REDIRECT_URIS</code>:</p>"@
                + r#"<code class="block mt-1 p-1.5 rounded bg-base-300/60 break-all select-all">"#@
                + escaped(redirect_uri)
                + r#"</code><p class="m-0 mt-2 text-base-content/60">"#@
                + escaped(ui.message("connectors-oauth-help-gws-footer"@))
                + "</p>"@
        } else {
            Seq::<char>::empty()
        })
        + "</div>"@
}

/// Where to create the client, by provider.
pub open spec fn provider_help(
    ui: &Ui,
    is_google: bool,
    is_github: bool,
    is_slack: bool,
) -> Seq<char> {
    Seq::<char>::empty()
        + (if is_google {
            r#"<p class="m-0">"#@
                + escaped(ui.message("connectors-oauth-help-google-1"@))
                + " "@
                + r#"<a class="link" target="_blank" rel="noopener noreferrer""#@
                + r#" href="https://console.cloud.google.com/apis/credentials">"#@
                + escaped(ui.message("connectors-oauth-help-google-link"@))
                + "</a> "@
                + escaped(ui.message("connectors-oauth-help-google-2"@))
                + "</p>"@
        } else if is_github {
            r#"<p class="m-0">"#@
                + escaped(ui.message("connectors-oauth-help-github-1"@))
                + " "@
                + r#"<a class="link" target="_blank" rel="noopener noreferrer""#@
                + r#" href="https://github.com/settings/developers">"#@
                + escaped(ui.message("connectors-oauth-help-github-link"@))
                + "</a> "@
                + escaped(ui.message("connectors-oauth-help-github-2"@))
                + "</p>"@
        } else if is_slack {
            r#"<p class="m-0">Slack: create an app at "#@
                + r#"<a class="link" target="_blank" rel="noopener noreferrer" href="https://api.slack.com/apps">"#@
                + "api.slack.com/apps</a>"@
                + ", add the redirect URI above under OAuth &amp; Permissions, request the scopes configured"@
                + " below, and copy the Client ID + Client Secret from Basic Information. Slack requires a"@
                + " statically registered, directory-published or workspace-internal app — dynamic client"@
                + " registration isn&#39;t supported.</p>"@
        } else {
            r#"<p class="m-0">"#@
                + escaped(ui.message("connectors-oauth-help-fallback"@))
                + "</p>"@
        })
}

fn render_provider_help(ui: &Ui, is_google: bool, is_github: bool, is_slack: bool) -> (r: Html)
    ensures
        r@ == provider_help(ui, is_google, is_github, is_slack),
{
    Html::empty().html(if is_google {
            Html::new(r#"<p class="m-0">"#)
                .msg(ui, "connectors-oauth-help-google-1")
                .raw(" ")
                .raw(r#"<a class="link" target="_blank" rel="noopener noreferrer""#)
                .raw(r#" href="https://console.cloud.google.com/apis/credentials">"#)
                .msg(ui, "connectors-oauth-help-google-link")
                .raw("</a> ")
                .msg(ui, "connectors-oauth-help-google-2")
                .raw("</p>")
        } else if is_github {
            Html::new(r#"<p class="m-0">"#)
                .msg(ui, "connectors-oauth-help-github-1")
                .raw(" ")
                .raw(r#"<a class="link" target="_blank" rel="noopener noreferrer""#)
                .raw(r#" href="https://github.com/settings/developers">"#)
                .msg(ui, "connectors-oauth-help-github-link")
                .raw("</a> ")
                .msg(ui, "connectors-oauth-help-github-2")
                .raw("</p>")
        } else if is_slack {
            Html::new(r#"<p class="m-0">Slack: create an app at "#)
                .raw(r#"<a class="link" target="_blank" rel="noopener noreferrer" href="https://api.slack.com/apps">"#)
                .raw("api.slack.com/apps</a>")
                .raw(", add the redirect URI above under OAuth &amp; Permissions, request the scopes configured")
                .raw(" below, and copy the Client ID + Client Secret from Basic Information. Slack requires a")
                .raw(" statically registered, directory-published or workspace-internal app — dynamic client")
                .raw(" registration isn&#39;t supported.</p>")
        } else {
            Html::new(r#"<p class="m-0">"#)
                .msg(ui, "connectors-oauth-help-fallback")
                .raw("</p>")
        })
}

/// Help for a connector that needs a client created by hand.
pub open spec fn help_client(
    ui: &Ui,
    is_google: bool,
    is_github: bool,
    is_slack: bool,
    redirect_uri: Seq<char>,
) -> Seq<char> {
    r#"<div class="rounded-md border border-info/30 bg-info/5 p-3 text-xs leading-relaxed">"#@
        + r#"<p class="m-0 font-medium">"#@
        + escaped(ui.message("connectors-oauth-help-generic-heading"@))
        + r#"</p><p class="m-0 mt-1">"#@
        + escaped(ui.message("connectors-oauth-help-generic-intro"@))
        + r#"</p><code class="block mt-1 mb-2 p-1.5 rounded bg-base-300/60 break-all select-all">"#@
        + escaped(redirect_uri)
        + "</code>"@
        + provider_help(ui, is_google, is_github, is_slack)
        + r#"<p class="m-0 mt-2 text-base-content/60">"#@
        + escaped(ui.message("connectors-oauth-why-1"@))
        + " <strong>"@
        + escaped(ui.message("connectors-term-this-gateway"@))
        + "</strong> "@
        + escaped(ui.message("connectors-oauth-why-2"@))
        + " <strong>"@
        + escaped(ui.message("connectors-oauth-why-no-app"@))
        + "</strong> "@
        + escaped(ui.message("connectors-oauth-why-3"@))
        + "</p></div>"@
}

/// A text of the entry being edited, the empty text for a new one.
pub open spec fn pick(existing: Option<&Connector>, f: spec_fn(Connector) -> Seq<char>) -> Seq<
    char,
> {
    match existing {
        Some(c) => f(*c),
        None => Seq::empty(),
    }
}

/// Help for obtaining an OAuth client.
pub open spec fn oauth_help(
    ui: &Ui,
    existing: Option<&Connector>,
    redirect_uri: Seq<char>,
) -> Seq<char> {
    let key = pick(existing, |c: Connector| c.key@);
    let category = pick(existing, |c: Connector| text_or_empty(opt_text(c.category)));
    if existing is Some && existing->0.auth == AuthKind::StaticBearer {
        help_token(ui)
    } else if existing is Some && existing->0.auth == AuthKind::NoAuth {
        help_open(existing->0.global())
    } else if existing is Some && existing->0.use_dcr {
        help_dcr(ui, key == "google_workspace"@, redirect_uri)
    } else {
        help_client(
            ui,
            category == "Google"@ || "google"@.is_prefix_of(key) || key == "gmail"@,
            key == "github"@,
            key == "slack"@,
            redirect_uri,
        )
    }
}

fn render_help_token(ui: &Ui) -> (r: Html)
    ensures
        r@ == help_token(ui),
{
    Html::new(r#"<div class="rounded-md border border-info/30 bg-info/5 p-3 text-xs leading-relaxed">"#)
        .raw(r#"<p class="m-0">"#)
        .msg(ui, "connectors-oauth-help-token-1")
        .raw(" <code>Authorization: Bearer &lt;token&gt;</code>")
        .msg(ui, "connectors-oauth-help-token-2")
        .raw("</p></div>")
}

fn render_help_open(is_global: bool) -> (r: Html)
    ensures
        r@ == help_open(is_global),
{
    Html::new(r#"<div class="rounded-md border border-info/30 bg-info/5 p-3 text-xs leading-relaxed">"#)
        .html(if is_global {
            Html::new(r#"<p class="m-0">"#)
                .raw("Global connector: set the MCP server URL above (the gateway reaches it with no auth). The")
                .raw(" credential — e.g. a Discord bot token — is baked into the MCP server itself, so keep its")
                .raw(" endpoint private/loopback-only, never publicly exposed. Its tools are available to")
                .raw(" everyone the role below allows, with no per-user sign-in; each user can still toggle them")
                .raw(" always/ask/off on their Tools page.</p>")
        } else {
            Html::new(r#"<p class="m-0">"#)
                .raw("Public connector: set the MCP server URL above. No OAuth client and no per-user token —")
                .raw(" every user still connects individually so they can opt its tools in or out.</p>")
        })
        .raw("</div>")
}

fn render_help_dcr(ui: &Ui, is_google_ws: bool, redirect_uri: &str) -> (r: Html)
    ensures
        r@ == help_dcr(ui, is_google_ws, redirect_uri@),
{
    Html::new(r#"<div class="rounded-md border border-info/30 bg-info/5 p-3 text-xs leading-relaxed">"#)
        .raw(r#"<p class="m-0 font-medium">"#)
        .msg(ui, "connectors-oauth-help-dcr-heading")
        .raw(r#"</p><p class="m-0 mt-1">"#)
        .msg(ui, "connectors-oauth-help-dcr-body")
        .raw("</p>")
        .html(if is_google_ws {
            Html::new(r#"<p class="m-0 mt-2">"#)
                .msg(ui, "connectors-oauth-help-gws-1")
                .raw(" <strong>")
                .msg(ui, "connectors-oauth-help-gws-self-hosted")
                .raw("</strong> ")
                .msg(ui, "connectors-oauth-help-gws-2")
                .raw(" ")
                .raw(r#"<a class="link" target="_blank" rel="noopener noreferrer""#)
                .raw(r#" href="https://github.com/taylorwilsdon/google_workspace_mcp">"#)
                .raw("taylorwilsdon/google_workspace_mcp</a> ")
                .msg(ui, "connectors-oauth-help-gws-3")
                .raw(" <code>/mcp/</code>")
                .msg(ui, "connectors-oauth-help-gws-4")
                .raw(" <strong>")
                .msg(ui, "connectors-oauth-help-gws-ga-apis")
                .raw("</strong> ")
                .msg(ui, "connectors-oauth-help-gws-5")
                .raw(" <code>WORKSPACE_MCP_ALLOWED_CLIENT_REDIRECT_URIS</code>:</p>")
                .raw(r#"<code class="block mt-1 p-1.5 rounded bg-base-300/60 break-all select-all">"#)
                .text(&redirect_uri)
                .raw(r#"</code><p class="m-0 mt-2 text-base-content/60">"#)
                .msg(ui, "connectors-oauth-help-gws-footer")
                .raw("</p>")
        } else {
            Html::empty()
        })
        .raw("</div>")
}

fn render_help_client(
    ui: &Ui,
    is_google: bool,
    is_github: bool,
    is_slack: bool,
    redirect_uri: &str,
) -> (r: Html)
    ensures
        r@ == help_client(ui, is_google, is_github, is_slack, redirect_uri@),
{
    Html::new(r#"<div class="rounded-md border border-info/30 bg-info/5 p-3 text-xs leading-relaxed">"#)
        .raw(r#"<p class="m-0 font-medium">"#)
        .msg(ui, "connectors-oauth-help-generic-heading")
        .raw(r#"</p><p class="m-0 mt-1">"#)
        .msg(ui, "connectors-oauth-help-generic-intro")
        .raw(r#"</p><code class="block mt-1 mb-2 p-1.5 rounded bg-base-300/60 break-all select-all">"#)
        .text(redirect_uri)
        .raw("</code>")
        .html(render_provider_help(ui, is_google, is_github, is_slack))
        .raw(r#"<p class="m-0 mt-2 text-base-content/60">"#)
        .msg(ui, "connectors-oauth-why-1")
        .raw(" <strong>")
        .msg(ui, "connectors-term-this-gateway")
        .raw("</strong> ")
        .msg(ui, "connectors-oauth-why-2")
        .raw(" <strong>")
        .msg(ui, "connectors-oauth-why-no-app")
        .raw("</strong> ")
        .msg(ui, "connectors-oauth-why-3")
        .raw("</p></div>")
}

/// Renders the help for obtaining an OAuth client, by kind of connector and by
/// provider. A connector that needs a client is always told the redirect
/// address to register.
pub fn render_oauth_help(ui: &Ui, existing: Option<&Connector>, redirect_uri: &str) -> (r: Html)
    ensures
        r@ == oauth_help(ui, existing, redirect_uri@),
{
    match existing {
        Some(c) => {
            if c.auth == AuthKind::StaticBearer {
                return render_help_token(ui);
            }
            if c.auth == AuthKind::NoAuth {
                return render_help_open(c.is_global());
            }
            if c.use_dcr {
                return render_help_dcr(ui, same(&c.key, "google_workspace"), redirect_uri);
            }
        },
        None => {},
    }
    let key = match existing {
        Some(c) => c.key.clone(),
        None => String::new(),
    };
    let category = match existing {
        Some(c) => string_or_empty(&c.category),
        None => String::new(),
    };
    let is_google = same(&category, "Google") || starts_with(&key, "google") || same(&key, "gmail");
    render_help_client(ui, is_google, same(&key, "github"), same(&key, "slack"), redirect_uri)
}

// ---------------------------------------------------------------------------
// The create and edit form

/// A labelled text input.
pub open spec fn text_field(
    label: Seq<char>,
    fname: Seq<char>,
    val: Seq<char>,
    ph: Seq<char>,
) -> Seq<char> {
    r#"<label class="flex flex-col gap-1 w-full"><span class="label-text text-xs">"#@
        + escaped(label)
        + r#"</span><input type="text" name=""#@
        + escaped(fname)
        + r#"" value=""#@
        + escaped(val)
        + r#"" placeholder=""#@
        + escaped(ph)
        + r#"" class="input input-bordered input-sm w-full"></label>"#@
}

fn render_text_field(label: &str, fname: &str, val: &str, ph: &str) -> (r: Html)
    ensures
        r@ == text_field(label@, fname@, val@, ph@),
{
    Html::new(r#"<label class="flex flex-col gap-1 w-full"><span class="label-text text-xs">"#)
        .text(&label)
        .raw(r#"</span><input type="text" name=""#)
        .text(&fname)
        .raw(r#"" value=""#)
        .text(&val)
        .raw(r#"" placeholder=""#)
        .text(&ph)
        .raw(r#"" class="input input-bordered input-sm w-full"></label>"#)
}

/// The choice between a per-user and a shared connector.
pub open spec fn scope_select(is_global: bool) -> Seq<char> {
    r#"<label class="flex flex-col gap-1 w-full"><span class="label-text text-xs">Scope</span>"#@
        + r#"<select name="scope" class="select select-bordered select-sm w-full">"#@
        + (if is_global {
            r#"<option value="per_user">Per-user (each user connects their own account)</option>"#@
                + r#"<option value="global" selected="selected">Global (one shared identity for everyone)"#@
                + "</option>"@
        } else {
            r#"<option value="per_user" selected="selected">Per-user (each user connects their own account)"#@
                + r#"</option><option value="global">Global (one shared identity for everyone)</option>"#@
        })
        + r#"</select><span class="label-text-alt text-base-content/50">"#@
        + "Global connectors are shared by everyone (RBAC-gated) with no sign-in — a single bot/token"@
        + " for the whole gateway (e.g. Discord). They must use &quot;No auth&quot; or &quot;Bearer"@
        + " token&quot;, not OAuth.</span></label>"@
}

fn render_scope_select(is_global: bool) -> (r: Html)
    ensures
        r@ == scope_select(is_global),
{
    Html::new(r#"<label class="flex flex-col gap-1 w-full"><span class="label-text text-xs">Scope</span>"#)
        .raw(r#"<select name="scope" class="select select-bordered select-sm w-full">"#)
        .html(if is_global {
            Html::new(r#"<option value="per_user">Per-user (each user connects their own account)</option>"#)
                .raw(r#"<option value="global" selected="selected">Global (one shared identity for everyone)"#)
                .raw("</option>")
        } else {
            Html::new(r#"<option value="per_user" selected="selected">Per-user (each user connects their own account)"#)
                .raw(r#"</option><option value="global">Global (one shared identity for everyone)</option>"#)
        })
        .raw(r#"</select><span class="label-text-alt text-base-content/50">"#)
        .raw("Global connectors are shared by everyone (RBAC-gated) with no sign-in — a single bot/token")
        .raw(" for the whole gateway (e.g. Discord). They must use &quot;No auth&quot; or &quot;Bearer")
        .raw(" token&quot;, not OAuth.</span></label>")
}

/// The choice of how the gateway authenticates.
pub open spec fn auth_select(ui: &Ui, auth_static: bool, auth_none: bool) -> Seq<char> {
    r#"<label class="flex flex-col gap-1 w-full"><span class="label-text text-xs">"#@
        + escaped(ui.message("connectors-field-auth-label"@))
        + r#"</span><select name="auth" class="select select-bordered select-sm w-full">"#@
        + (if auth_static {
            r#"<option value="oauth2">"#@
                + escaped(ui.message("connectors-auth-option-oauth"@))
                + r#"</option><option value="static_bearer" selected="selected">"#@
                + escaped(ui.message("connectors-auth-option-token"@))
                + r#"</option><option value="none">"#@
                + escaped(ui.message("connectors-auth-option-none"@))
                + "</option>"@
        } else if auth_none {
            r#"<option value="oauth2">"#@
                + escaped(ui.message("connectors-auth-option-oauth"@))
                + r#"</option><option value="static_bearer">"#@
                + escaped(ui.message("connectors-auth-option-token"@))
                + r#"</option><option value="none" selected="selected">"#@
                + escaped(ui.message("connectors-auth-option-none"@))
                + "</option>"@
        } else {
            r#"<option value="oauth2" selected="selected">"#@
                + escaped(ui.message("connectors-auth-option-oauth"@))
                + r#"</option><option value="static_bearer">"#@
                + escaped(ui.message("connectors-auth-option-token"@))
                + r#"</option><option value="none">"#@
                + escaped(ui.message("connectors-auth-option-none"@))
                + "</option>"@
        })
        + "</select></label>"@
}

fn render_auth_select(ui: &Ui, auth_static: bool, auth_none: bool) -> (r: Html)
    ensures
        r@ == auth_select(ui, auth_static, auth_none),
{
    Html::new(r#"<label class="flex flex-col gap-1 w-full"><span class="label-text text-xs">"#)
        .msg(ui, "connectors-field-auth-label")
        .raw(r#"</span><select name="auth" class="select select-bordered select-sm w-full">"#)
        .html(if auth_static {
            Html::new(r#"<option value="oauth2">"#)
                .msg(ui, "connectors-auth-option-oauth")
                .raw(r#"</option><option value="static_bearer" selected="selected">"#)
                .msg(ui, "connectors-auth-option-token")
                .raw(r#"</option><option value="none">"#)
                .msg(ui, "connectors-auth-option-none")
                .raw("</option>")
        } else if auth_none {
            Html::new(r#"<option value="oauth2">"#)
                .msg(ui, "connectors-auth-option-oauth")
                .raw(r#"</option><option value="static_bearer">"#)
                .msg(ui, "connectors-auth-option-token")
                .raw(r#"</option><option value="none" selected="selected">"#)
                .msg(ui, "connectors-auth-option-none")
                .raw("</option>")
        } else {
            Html::new(r#"<option value="oauth2" selected="selected">"#)
                .msg(ui, "connectors-auth-option-oauth")
                .raw(r#"</option><option value="static_bearer">"#)
                .msg(ui, "connectors-auth-option-token")
                .raw(r#"</option><option value="none">"#)
                .msg(ui, "connectors-auth-option-none")
                .raw("</option>")
        })
        .raw("</select></label>")
}

/// The shared token of a global connector.
pub open spec fn shared_token_field(secret_placeholder: Seq<char>) -> Seq<char> {
    r#"<label class="flex flex-col gap-1 w-full"><span class="label-text text-xs">"#@
        + r#"Bearer token (shared)</span><input type="password" name="client_secret" placeholder=""#@
        + escaped(secret_placeholder)
        + r#"" class="input input-bordered input-sm w-full">"#@
        + r#"<span class="label-text-alt text-base-content/50">Sent as <code>"#@
        + "Authorization: Bearer &lt;token&gt;</code>"@
        + " to the MCP server for every user. Stored encrypted.</span></label>"@
}

fn render_shared_token(secret_placeholder: &str) -> (r: Html)
    ensures
        r@ == shared_token_field(secret_placeholder@),
{
    Html::new(r#"<label class="flex flex-col gap-1 w-full"><span class="label-text text-xs">"#)
        .raw(r#"Bearer token (shared)</span><input type="password" name="client_secret" placeholder=""#)
        .text(&secret_placeholder)
        .raw(r#"" class="input input-bordered input-sm w-full">"#)
        .raw(r#"<span class="label-text-alt text-base-content/50">Sent as <code>"#)
        .raw("Authorization: Bearer &lt;token&gt;</code>")
        .raw(" to the MCP server for every user. Stored encrypted.</span></label>")
}

/// The OAuth client of a connector.
pub open spec fn client_fields(
    ui: &Ui,
    client_id: Seq<char>,
    secret_placeholder: Seq<char>,
    use_dcr: bool,
    scopes: Seq<char>,
    authorize_url: Seq<char>,
    token_url: Seq<char>,
    registration_url: Seq<char>,
) -> Seq<char> {
    r#"<label class="flex flex-col gap-1 w-full"><span class="label-text text-xs">"#@
        + escaped(ui.message("connectors-field-client-json-label"@))
        + "</span>"@
        + r#"<textarea name="client_json" rows="3" autocomplete="off""#@
        + r#" placeholder="{&quot;web&quot;:{&quot;client_id&quot;:&quot;…&quot;,&quot;client_secret&quot;:&quot;…&quot;,&quot;auth_uri&quot;:&quot;…&quot;,&quot;token_uri&quot;:&quot;…&quot;}}" class="textarea textarea-bordered textarea-sm w-full font-mono text-xs">"#@
        + r#"</textarea><span class="label-text-alt text-base-content/50">"#@
        + escaped(ui.message("connectors-field-client-json-help"@))
        + r#"</span></label><div class="grid grid-cols-1 sm:grid-cols-2 gap-2">"#@
        + r#"<label class="flex flex-col gap-1 w-full"><span class="label-text text-xs">"#@
        + escaped(ui.message("connectors-field-client-id-label"@))
        + r#"</span><input type="text" name="client_id" value=""#@
        + escaped(client_id)
        + r#"" placeholder=""#@
        + escaped(ui.message("connectors-field-client-id-placeholder"@))
        + r#"" class="input input-bordered input-sm w-full">"#@
        + r#"<span class="label-text-alt text-base-content/50">"#@
        + escaped(ui.message("connectors-field-client-id-help-1"@))
        + " <strong>"@
        + escaped(ui.message("connectors-term-this-gateway"@))
        + "</strong> "@
        + escaped(ui.message("connectors-field-client-id-help-2"@))
        + r#"</span></label><label class="flex flex-col gap-1 w-full"><span class="label-text text-xs">"#@
        + escaped(ui.message("connectors-field-client-secret-label"@))
        + r#"</span><input type="password" name="client_secret" placeholder=""#@
        + escaped(secret_placeholder)
        + r#"" class="input input-bordered input-sm w-full">"#@
        + r#"<span class="label-text-alt text-base-content/50">"#@
        + escaped(ui.message("connectors-field-client-secret-help"@))
        + r#"</span></label></div><label class="label cursor-pointer justify-start gap-2 py-0">"#@
        + (if use_dcr {
            r#"<input type="checkbox" name="use_dcr" value="1" checked="checked" class="checkbox"#@
                + r#" checkbox-sm">"#@
        } else {
            r#"<input type="checkbox" name="use_dcr" value="1" class="checkbox checkbox-sm">"#@
        })
        + r#"<span class="label-text text-xs">"#@
        + escaped(ui.message("connectors-field-use-dcr-label"@))
        + "</span></label>"@
        + text_field(ui.message("connectors-field-scopes-label"@), "scopes"@, scopes, "scope.a scope.b"@)
        + r#"<details><summary class="cursor-pointer text-xs text-base-content/60">"#@
        + escaped(ui.message("connectors-advanced-summary"@))
        + r#"</summary><div class="grid grid-cols-1 gap-2 mt-2">"#@
        + text_field(ui.message("connectors-field-authorize-url-label"@), "authorize_url"@, authorize_url, ui.message("connectors-placeholder-optional-override"@))
        + text_field(ui.message("connectors-field-token-url-label"@), "token_url"@, token_url, ui.message("connectors-placeholder-optional-override"@))
        + text_field(ui.message("connectors-field-registration-url-label"@), "registration_url"@, registration_url, ui.message("connectors-placeholder-optional-override"@))
        + "</div></details>"@
}

fn render_client_fields(
    ui: &Ui,
    client_id: &str,
    secret_placeholder: &str,
    use_dcr: bool,
    scopes: &str,
    authorize_url: &str,
    token_url: &str,
    registration_url: &str,
) -> (r: Html)
    ensures
        r@ == client_fields(
            ui,
            client_id@,
            secret_placeholder@,
            use_dcr,
            scopes@,
            authorize_url@,
            token_url@,
            registration_url@,
        ),
{
    Html::new(r#"<label class="flex flex-col gap-1 w-full"><span class="label-text text-xs">"#)
        .msg(ui, "connectors-field-client-json-label")
        .raw("</span>")
        .raw(r#"<textarea name="client_json" rows="3" autocomplete="off""#)
        .raw(r#" placeholder="{&quot;web&quot;:{&quot;client_id&quot;:&quot;…&quot;,&quot;client_secret&quot;:&quot;…&quot;,&quot;auth_uri&quot;:&quot;…&quot;,&quot;token_uri&quot;:&quot;…&quot;}}" class="textarea textarea-bordered textarea-sm w-full font-mono text-xs">"#)
        .raw(r#"</textarea><span class="label-text-alt text-base-content/50">"#)
        .msg(ui, "connectors-field-client-json-help")
        .raw(r#"</span></label><div class="grid grid-cols-1 sm:grid-cols-2 gap-2">"#)
        .raw(r#"<label class="flex flex-col gap-1 w-full"><span class="label-text text-xs">"#)
        .msg(ui, "connectors-field-client-id-label")
        .raw(r#"</span><input type="text" name="client_id" value=""#)
        .text(&client_id)
        .raw(r#"" placeholder=""#)
        .msg(ui, "connectors-field-client-id-placeholder")
        .raw(r#"" class="input input-bordered input-sm w-full">"#)
        .raw(r#"<span class="label-text-alt text-base-content/50">"#)
        .msg(ui, "connectors-field-client-id-help-1")
        .raw(" <strong>")
        .msg(ui, "connectors-term-this-gateway")
        .raw("</strong> ")
        .msg(ui, "connectors-field-client-id-help-2")
        .raw(r#"</span></label><label class="flex flex-col gap-1 w-full"><span class="label-text text-xs">"#)
        .msg(ui, "connectors-field-client-secret-label")
        .raw(r#"</span><input type="password" name="client_secret" placeholder=""#)
        .text(&secret_placeholder)
        .raw(r#"" class="input input-bordered input-sm w-full">"#)
        .raw(r#"<span class="label-text-alt text-base-content/50">"#)
        .msg(ui, "connectors-field-client-secret-help")
        .raw(r#"</span></label></div><label class="label cursor-pointer justify-start gap-2 py-0">"#)
        .html(if use_dcr {
            Html::new(r#"<input type="checkbox" name="use_dcr" value="1" checked="checked" class="checkbox"#)
                .raw(r#" checkbox-sm">"#)
        } else {
            Html::new(r#"<input type="checkbox" name="use_dcr" value="1" class="checkbox checkbox-sm">"#)
        })
        .raw(r#"<span class="label-text text-xs">"#)
        .msg(ui, "connectors-field-use-dcr-label")
        .raw("</span></label>")
        .html(render_text_field(&ui.t("connectors-field-scopes-label"), "scopes", &scopes, "scope.a scope.b"))
        .raw(r#"<details><summary class="cursor-pointer text-xs text-base-content/60">"#)
        .msg(ui, "connectors-advanced-summary")
        .raw(r#"</summary><div class="grid grid-cols-1 gap-2 mt-2">"#)
        .html(render_text_field(&ui.t("connectors-field-authorize-url-label"), "authorize_url", &authorize_url, &ui.t("connectors-placeholder-optional-override")))
        .html(render_text_field(&ui.t("connectors-field-token-url-label"), "token_url", &token_url, &ui.t("connectors-placeholder-optional-override")))
        .html(render_text_field(&ui.t("connectors-field-registration-url-label"), "registration_url", &registration_url, &ui.t("connectors-placeholder-optional-override")))
        .raw("</div></details>")
}

/// The shared create and edit form. An existing entry fills the fields and pins
/// the key; without one the form is blank.
#[verifier::opaque]
pub open spec fn form_fields(
    ui: &Ui,
    existing: Option<&Connector>,
    has_secret: bool,
    redirect_uri: Seq<char>,
) -> Seq<char> {
    let key = pick(existing, |c: Connector| c.key@);
    let name = pick(existing, |c: Connector| c.name@);
    let description = pick(existing, |c: Connector| text_or_empty(opt_text(c.description)));
    let icon = pick(existing, |c: Connector| text_or_empty(opt_text(c.icon)));
    let category = pick(existing, |c: Connector| text_or_empty(opt_text(c.category)));
    let url = pick(existing, |c: Connector| c.url@);
    let client_id = pick(existing, |c: Connector| text_or_empty(opt_text(c.client_id)));
    let authorize_url = pick(existing, |c: Connector| text_or_empty(opt_text(c.authorize_url)));
    let token_url = pick(existing, |c: Connector| text_or_empty(opt_text(c.token_url)));
    let registration_url = pick(
        existing,
        |c: Connector| text_or_empty(opt_text(c.registration_url)),
    );
    let scopes = pick(existing, |c: Connector| joined(texts(c.scopes@), " "@));
    let allowed_groups = pick(existing, |c: Connector| joined(texts(c.allowed_groups@), ", "@));
    let use_dcr = existing is Some ==> existing->0.use_dcr;
    let auth_static = existing is Some && existing->0.auth == AuthKind::StaticBearer;
    let auth_none = existing is Some && existing->0.auth == AuthKind::NoAuth;
    let is_global = existing is Some && existing->0.global();
    let audit = existing is Some && existing->0.audit;
    let is_edit = existing is Some;
    let secret_placeholder = if has_secret {
        ui.message("connectors-secret-placeholder-existing"@)
    } else {
        ui.message("connectors-secret-placeholder-new"@)
    };
    r#"<form method="post" action="/admin/connectors" class="flex flex-col gap-2">"#@
        + r#"<div class="grid grid-cols-1 sm:grid-cols-2 gap-2">"#@
        + (if is_edit {
            r#"<label class="flex flex-col gap-1 w-full"><span class="label-text text-xs">"#@
                + escaped(ui.message("connectors-field-key-readonly-label"@))
                + r#"</span><input type="text" name="key" value=""#@
                + escaped(key)
                + r#"" readonly="readonly" class="input input-bordered input-sm w-full opacity-60"></label>"#@
        } else {
            text_field(ui.message("connectors-field-key-label"@), "key"@, ""@, ui.message("connectors-field-key-placeholder"@))
        })
        + text_field(ui.message("connectors-field-name-label"@), "name"@, name, ui.message("connectors-field-name-placeholder"@))
        + text_field(ui.message("connectors-field-icon-label"@), "icon"@, icon, "📧"@)
        + text_field(ui.message("connectors-field-category-label"@), "category"@, category, ui.message("connectors-field-category-placeholder"@))
        + "</div>"@
        + text_field(ui.message("connectors-field-description-label"@), "description"@, description, ui.message("connectors-field-description-placeholder"@))
        + text_field(ui.message("connectors-field-url-label"@), "url"@, url, "https://…/mcp"@)
        + scope_select(is_global)
        + auth_select(ui, auth_static, auth_none)
        + oauth_help(ui, existing, redirect_uri)
        + (if is_global && auth_static {
            shared_token_field(secret_placeholder)
        } else {
            Seq::<char>::empty()
        })
        + (if !auth_static && !auth_none {
            client_fields(ui, client_id, secret_placeholder, use_dcr, scopes, authorize_url, token_url, registration_url)
        } else {
            Seq::<char>::empty()
        })
        + text_field(ui.message("connectors-field-allowed-groups-label"@), "allowed_groups"@, allowed_groups, ui.message("connectors-placeholder-optional"@))
        + r#"<label class="label cursor-pointer justify-start gap-2 py-0">"#@
        + (if audit {
            r#"<input type="checkbox" name="audit" value="1" checked="checked" class="checkbox"#@
                + r#" checkbox-sm">"#@
        } else {
            r#"<input type="checkbox" name="audit" value="1" class="checkbox checkbox-sm">"#@
        })
        + r#"<span class="label-text text-xs">Audit tool calls (log who ran each tool, and the outcome)"#@
        + r#"</span></label><div><button type="submit" class="btn btn-sm btn-primary">"#@
        + (if is_edit {
            escaped(ui.message("connectors-save-changes-button"@))
        } else {
            escaped(ui.message("connectors-add-connector-button"@))
        })
        + "</button></div></form>"@
}

/// Renders the shared create and edit form.
pub fn render_form_fields(
    ui: &Ui,
    existing: Option<&Connector>,
    has_secret: bool,
    redirect_uri: &str,
) -> (r: Html)
    ensures
        r@ == form_fields(ui, existing, has_secret, redirect_uri@),
{
    proof {
        reveal(form_fields);
    }
    let is_edit = existing.is_some();
    let (mut key, mut name, mut url) = (String::new(), String::new(), String::new());
    let (mut description, mut icon, mut category) = (String::new(), String::new(), String::new());
    let (mut client_id, mut scopes, mut allowed_groups) = (
        String::new(),
        String::new(),
        String::new(),
    );
    let (mut authorize_url, mut token_url, mut registration_url) = (
        String::new(),
        String::new(),
        String::new(),
    );
    let (mut use_dcr, mut auth_static, mut auth_none) = (true, false, false);
    let (mut is_global, mut audit) = (false, false);
    if let Some(c) = existing {
        key = c.key.clone();
        name = c.name.clone();
        url = c.url.clone();
        description = string_or_empty(&c.description);
        icon = string_or_empty(&c.icon);
        category = string_or_empty(&c.category);
        client_id = string_or_empty(&c.client_id);
        authorize_url = string_or_empty(&c.authorize_url);
        token_url = string_or_empty(&c.token_url);
        registration_url = string_or_empty(&c.registration_url);
        scopes = join(&c.scopes, " ");
        allowed_groups = join(&c.allowed_groups, ", ");
        use_dcr = c.use_dcr;
        auth_static = c.auth == AuthKind::StaticBearer;
        auth_none = c.auth == AuthKind::NoAuth;
        is_global = c.is_global();
        audit = c.audit;
    }
    let secret_placeholder = if has_secret {
        ui.t("connectors-secret-placeholder-existing")
    } else {
        ui.t("connectors-secret-placeholder-new")
    };
    Html::new(r#"<form method="post" action="/admin/connectors" class="flex flex-col gap-2">"#)
        .raw(r#"<div class="grid grid-cols-1 sm:grid-cols-2 gap-2">"#)
        .html(if is_edit {
            Html::new(r#"<label class="flex flex-col gap-1 w-full"><span class="label-text text-xs">"#)
                .msg(ui, "connectors-field-key-readonly-label")
                .raw(r#"</span><input type="text" name="key" value=""#)
                .text(&key)
                .raw(r#"" readonly="readonly" class="input input-bordered input-sm w-full opacity-60"></label>"#)
        } else {
            render_text_field(&ui.t("connectors-field-key-label"), "key", "", &ui.t("connectors-field-key-placeholder"))
        })
        .html(render_text_field(&ui.t("connectors-field-name-label"), "name", &name, &ui.t("connectors-field-name-placeholder")))
        .html(render_text_field(&ui.t("connectors-field-icon-label"), "icon", &icon, "📧"))
        .html(render_text_field(&ui.t("connectors-field-category-label"), "category", &category, &ui.t("connectors-field-category-placeholder")))
        .raw("</div>")
        .html(render_text_field(&ui.t("connectors-field-description-label"), "description", &description, &ui.t("connectors-field-description-placeholder")))
        .html(render_text_field(&ui.t("connectors-field-url-label"), "url", &url, "https://…/mcp"))
        .html(render_scope_select(is_global))
        .html(render_auth_select(ui, auth_static, auth_none))
        .html(render_oauth_help(ui, existing, redirect_uri))
        .html(if is_global && auth_static {
            render_shared_token(&secret_placeholder)
        } else {
            Html::empty()
        })
        .html(if !auth_static && !auth_none {
            render_client_fields(ui, &client_id, &secret_placeholder, use_dcr, &scopes, &authorize_url, &token_url, &registration_url)
        } else {
            Html::empty()
        })
        .html(render_text_field(&ui.t("connectors-field-allowed-groups-label"), "allowed_groups", &allowed_groups, &ui.t("connectors-placeholder-optional")))
        .raw(r#"<label class="label cursor-pointer justify-start gap-2 py-0">"#)
        .html(if audit {
            Html::new(r#"<input type="checkbox" name="audit" value="1" checked="checked" class="checkbox"#)
                .raw(r#" checkbox-sm">"#)
        } else {
            Html::new(r#"<input type="checkbox" name="audit" value="1" class="checkbox checkbox-sm">"#)
        })
        .raw(r#"<span class="label-text text-xs">Audit tool calls (log who ran each tool, and the outcome)"#)
        .raw(r#"</span></label><div><button type="submit" class="btn btn-sm btn-primary">"#)
        .html(if is_edit {
            Html::of(&ui.t("connectors-save-changes-button"))
        } else {
            Html::of(&ui.t("connectors-add-connector-button"))
        })
        .raw("</button></div></form>")
}

// ---------------------------------------------------------------------------
// The catalog page

/// The folded form for a new connector.
pub open spec fn add_form(ui: &Ui, redirect_uri: Seq<char>) -> Seq<char> {
    r#"<details class="card border border-base-300 mb-2">"#@
        + r#"<summary class="cursor-pointer card-body py-3 font-medium text-sm">"#@
        + escaped(ui.message("connectors-add-summary"@))
        + r#"</summary><div class="card-body pt-0">"#@
        + form_fields(ui, None, false, redirect_uri)
        + "</div></details>"@
}

fn render_add_form(ui: &Ui, redirect_uri: &str) -> (r: Html)
    ensures
        r@ == add_form(ui, redirect_uri@),
{
    Html::new(r#"<details class="card border border-base-300 mb-2">"#)
        .raw(r#"<summary class="cursor-pointer card-body py-3 font-medium text-sm">"#)
        .msg(ui, "connectors-add-summary")
        .raw(r#"</summary><div class="card-body pt-0">"#)
        .html(render_form_fields(ui, None, false, redirect_uri))
        .raw("</div></details>")
}

/// The form for an existing connector.
pub open spec fn edit_form(
    ui: &Ui,
    c: &Connector,
    has_secret: bool,
    redirect_uri: Seq<char>,
) -> Seq<char> {
    r#"<div class="mt-2">"#@
        + form_fields(ui, Some(c), has_secret, redirect_uri)
        + "</div>"@
}

/// Renders the form for an existing connector.
pub fn render_edit_form(ui: &Ui, c: &Connector, has_secret: bool, redirect_uri: &str) -> (r: Html)
    ensures
        r@ == edit_form(ui, c, has_secret, redirect_uri@),
{
    Html::new(r#"<div class="mt-2">"#)
        .html(render_form_fields(ui, Some(c), has_secret, redirect_uri))
        .raw("</div>")
}

/// The drawing of a connector: its logo, or its icon text.
pub open spec fn connector_logo(ui: &Ui, c: &Connector) -> Seq<char> {
    match find_icon(ui.logos@, c.key@, 22) {
        Some(m) => m,
        None => r#"<span class="text-xl leading-none">"#@ + escaped(
            text_or_empty(opt_text(c.icon)),
        ) + "</span>"@,
    }
}

/// One connector of the catalog.
#[verifier::opaque]
pub open spec fn connector_row(ui: &Ui, c: &Connector, redirect_uri: Seq<char>) -> Seq<char> {
    let logo = connector_logo(ui, c);
    r#"<section class="card border border-base-300"><div class="card-body gap-2">"#@
        + r#"<div class="flex items-center gap-3 flex-wrap"><span class="shrink-0">"#@
        + logo
        + r#"</span><div class="min-w-0 flex-1"><div class="flex items-center gap-2 flex-wrap">"#@
        + r#"<h2 class="card-title text-base m-0">"#@
        + escaped(c.name@)
        + r#"</h2><code class="text-xs text-base-content/50">"#@
        + escaped(c.key@)
        + "</code>"@
        + (if c.enabled {
            r#"<span class="badge badge-success badge-sm">"#@
                + escaped(ui.message("connectors-badge-enabled"@))
                + "</span>"@
        } else {
            r#"<span class="badge badge-ghost badge-sm">"#@
                + escaped(ui.message("connectors-badge-disabled"@))
                + "</span>"@
        })
        + (if c.global() {
            r#"<span class="badge badge-info badge-sm">Global</span>"#@
        } else {
            Seq::<char>::empty()
        })
        + (if c.audit {
            r#"<span class="badge badge-warning badge-sm">Audited</span>"#@
        } else {
            Seq::<char>::empty()
        })
        + (if c.seeded {
            r#"<span class="badge badge-outline badge-sm">"#@
                + escaped(ui.message("connectors-badge-default"@))
                + "</span>"@
        } else {
            Seq::<char>::empty()
        })
        + (if c.use_dcr {
            r#"<span class="badge badge-outline badge-sm">"#@
                + escaped(ui.message("connectors-badge-dcr"@))
                + "</span>"@
        } else {
            Seq::<char>::empty()
        })
        + (if c.lacks_client() {
            r#"<span class="badge badge-warning badge-sm">"#@
                + escaped(ui.message("connectors-badge-needs-client-id"@))
                + "</span>"@
        } else {
            Seq::<char>::empty()
        })
        + r#"</div><p class="text-xs text-base-content/50 m-0 mt-0.5 break-all">"#@
        + escaped(c.url@)
        + r#"</p></div><div class="flex items-center gap-2 shrink-0">"#@
        + r#"<form method="post" action="/admin/connectors/"#@
        + escaped(c.key@)
        + r#"/toggle" class="m-0">"#@
        + (if c.enabled {
            r#"<button type="submit" class="btn btn-xs btn-ghost">"#@
                + escaped(ui.message("connectors-disable-button"@))
                + "</button>"@
        } else if c.lacks_client() {
            r#"<button type="button" disabled="disabled" class="btn btn-xs btn-primary btn-disabled""#@
                + r#" title=""#@
                + escaped(ui.message("connectors-enable-disabled-title"@))
                + r#"">"#@
                + escaped(ui.message("connectors-enable-button"@))
                + "</button>"@
        } else {
            r#"<button type="submit" name="enabled" value="1" class="btn btn-xs btn-primary">"#@
                + escaped(ui.message("connectors-enable-button"@))
                + "</button>"@
        })
        + "</form>"@
        + (if c.audit {
            r#"<a href="/admin/connectors/"#@
                + escaped(c.key@)
                + r#"/audit" class="btn btn-xs btn-ghost">Audit log</a>"#@
        } else {
            Seq::<char>::empty()
        })
        + r#"<form method="post" action="/admin/connectors/"#@
        + escaped(c.key@)
        + r#"/delete" class="m-0" data-confirm=""#@
        + escaped(ui.message("connectors-delete-confirm"@))
        + r#""><button type="submit" class="btn btn-xs btn-ghost text-error">"#@
        + escaped(ui.message("connectors-delete-button"@))
        + "</button></form></div></div><details>"@
        + r#"<summary class="cursor-pointer text-sm text-base-content/70">"#@
        + escaped(ui.message("connectors-edit-summary"@))
        + "</summary>"@
        + edit_form(ui, c, c.client_secret_ct is Some, redirect_uri)
        + "</details></div></section>"@
}

/// Renders one connector of the catalog: its state, its switches and its form.
/// A connector that still needs a client cannot be switched on.
pub fn render_connector_row(ui: &Ui, c: &Connector, redirect_uri: &str) -> (r: Html)
    ensures
        r@ == connector_row(ui, c, redirect_uri@),
{
    proof {
        reveal(connector_row);
    }
    let logo = match ui.logo(&c.key, 22) {
        Some(h) => h,
        None => Html::new(r#"<span class="text-xl leading-none">"#).text(
            &string_or_empty(&c.icon),
        ).raw("</span>"),
    };
    Html::new(r#"<section class="card border border-base-300"><div class="card-body gap-2">"#)
        .raw(r#"<div class="flex items-center gap-3 flex-wrap"><span class="shrink-0">"#)
        .html(logo)
        .raw(r#"</span><div class="min-w-0 flex-1"><div class="flex items-center gap-2 flex-wrap">"#)
        .raw(r#"<h2 class="card-title text-base m-0">"#)
        .text(&c.name)
        .raw(r#"</h2><code class="text-xs text-base-content/50">"#)
        .text(&c.key)
        .raw("</code>")
        .html(if c.enabled {
            Html::new(r#"<span class="badge badge-success badge-sm">"#)
                .msg(ui, "connectors-badge-enabled")
                .raw("</span>")
        } else {
            Html::new(r#"<span class="badge badge-ghost badge-sm">"#)
                .msg(ui, "connectors-badge-disabled")
                .raw("</span>")
        })
        .html(if c.is_global() {
            Html::new(r#"<span class="badge badge-info badge-sm">Global</span>"#)
        } else {
            Html::empty()
        })
        .html(if c.audit {
            Html::new(r#"<span class="badge badge-warning badge-sm">Audited</span>"#)
        } else {
            Html::empty()
        })
        .html(if c.seeded {
            Html::new(r#"<span class="badge badge-outline badge-sm">"#)
                .msg(ui, "connectors-badge-default")
                .raw("</span>")
        } else {
            Html::empty()
        })
        .html(if c.use_dcr {
            Html::new(r#"<span class="badge badge-outline badge-sm">"#)
                .msg(ui, "connectors-badge-dcr")
                .raw("</span>")
        } else {
            Html::empty()
        })
        .html(if c.needs_setup() {
            Html::new(r#"<span class="badge badge-warning badge-sm">"#)
                .msg(ui, "connectors-badge-needs-client-id")
                .raw("</span>")
        } else {
            Html::empty()
        })
        .raw(r#"</div><p class="text-xs text-base-content/50 m-0 mt-0.5 break-all">"#)
        .text(&c.url)
        .raw(r#"</p></div><div class="flex items-center gap-2 shrink-0">"#)
        .raw(r#"<form method="post" action="/admin/connectors/"#)
        .text(&c.key)
        .raw(r#"/toggle" class="m-0">"#)
        .html(if c.enabled {
            Html::new(r#"<button type="submit" class="btn btn-xs btn-ghost">"#)
                .msg(ui, "connectors-disable-button")
                .raw("</button>")
        } else if c.needs_setup() {
            Html::new(r#"<button type="button" disabled="disabled" class="btn btn-xs btn-primary btn-disabled""#)
                .raw(r#" title=""#)
                .msg(ui, "connectors-enable-disabled-title")
                .raw(r#"">"#)
                .msg(ui, "connectors-enable-button")
                .raw("</button>")
        } else {
            Html::new(r#"<button type="submit" name="enabled" value="1" class="btn btn-xs btn-primary">"#)
                .msg(ui, "connectors-enable-button")
                .raw("</button>")
        })
        .raw("</form>")
        .html(if c.audit {
            Html::new(r#"<a href="/admin/connectors/"#)
                .text(&c.key)
                .raw(r#"/audit" class="btn btn-xs btn-ghost">Audit log</a>"#)
        } else {
            Html::empty()
        })
        .raw(r#"<form method="post" action="/admin/connectors/"#)
        .text(&c.key)
        .raw(r#"/delete" class="m-0" data-confirm=""#)
        .msg(ui, "connectors-delete-confirm")
        .raw(r#""><button type="submit" class="btn btn-xs btn-ghost text-error">"#)
        .msg(ui, "connectors-delete-button")
        .raw("</button></form></div></div><details>")
        .raw(r#"<summary class="cursor-pointer text-sm text-base-content/70">"#)
        .msg(ui, "connectors-edit-summary")
        .raw("</summary>")
        .html(render_edit_form(ui, c, c.client_secret_ct.is_some(), redirect_uri))
        .raw("</details></div></section>")
}

/// The connectors of the catalog, in order.
pub open spec fn connector_rows(
    ui: &Ui,
    connectors: Seq<Connector>,
    redirect_uri: Seq<char>,
) -> Seq<char>
    decreases connectors.len(),
{
    if connectors.len() == 0 {
        Seq::empty()
    } else {
        connector_rows(ui, connectors.drop_last(), redirect_uri) + connector_row(
            ui,
            &connectors.last(),
            redirect_uri,
        )
    }
}

fn render_connector_rows(ui: &Ui, connectors: &Vec<Connector>, redirect_uri: &str) -> (r: Html)
    ensures
        r@ == connector_rows(ui, connectors@, redirect_uri@),
{
    let mut out = Html::empty();
    assert(connectors@.take(0) =~= Seq::<Connector>::empty());
    for i in 0..connectors.len()
        invariant
            out@ == connector_rows(ui, connectors@.take(i as int), redirect_uri@),
    {
        assert(connectors@.take(i + 1).drop_last() =~= connectors@.take(i as int));
        out = out.html(render_connector_row(ui, &connectors[i], redirect_uri));
    }
    assert(connectors@.take(connectors@.len() as int) =~= connectors@);
    out
}

/// The catalog page.
pub open spec fn catalog_page(
    ui: &Ui,
    connectors: Seq<Connector>,
    redirect_uri: Seq<char>,
) -> Seq<char> {
    r#"<div class="max-w-5xl mx-auto w-full px-4 sm:px-6 pt-14 sm:pt-6 pb-6">"#@
        + r#"<div class="flex items-center justify-between gap-3 mb-2 flex-wrap">"#@
        + r#"<h1 class="text-2xl font-bold m-0">"#@
        + escaped(ui.message("connectors-heading"@))
        + r#"</h1><form method="post" action="/admin/connectors/restore-defaults" class="m-0">"#@
        + r#"<button type="submit" class="btn btn-sm btn-ghost">"#@
        + escaped(ui.message("connectors-restore-defaults-button"@))
        + r#"</button></form></div><p class="text-base-content/60 text-sm mb-6">"#@
        + escaped(ui.message("connectors-catalog-intro"@))
        + "</p>"@
        + add_form(ui, redirect_uri)
        + (if connectors.len() == 0 {
            r#"<div class="card border border-base-300"><div class="card-body">"#@
                + r#"<p class="text-base-content/60 text-sm m-0">"#@
                + escaped(ui.message("connectors-empty-state"@))
                + "</p></div></div>"@
        } else {
            Seq::<char>::empty()
        })
        + r#"<div class="flex flex-col gap-3 mt-4">"#@
        + connector_rows(ui, connectors, redirect_uri)
        + "</div></div>"@
}

/// Renders the catalog page.
pub fn render_body(ui: &Ui, connectors: &Vec<Connector>, redirect_uri: &str) -> (r: Html)
    ensures
        r@ == catalog_page(ui, connectors@, redirect_uri@),
{
    Html::new(r#"<div class="max-w-5xl mx-auto w-full px-4 sm:px-6 pt-14 sm:pt-6 pb-6">"#)
        .raw(r#"<div class="flex items-center justify-between gap-3 mb-2 flex-wrap">"#)
        .raw(r#"<h1 class="text-2xl font-bold m-0">"#)
        .msg(ui, "connectors-heading")
        .raw(r#"</h1><form method="post" action="/admin/connectors/restore-defaults" class="m-0">"#)
        .raw(r#"<button type="submit" class="btn btn-sm btn-ghost">"#)
        .msg(ui, "connectors-restore-defaults-button")
        .raw(r#"</button></form></div><p class="text-base-content/60 text-sm mb-6">"#)
        .msg(ui, "connectors-catalog-intro")
        .raw("</p>")
        .html(render_add_form(ui, redirect_uri))
        .html(if connectors.len() == 0 {
            Html::new(r#"<div class="card border border-base-300"><div class="card-body">"#)
                .raw(r#"<p class="text-base-content/60 text-sm m-0">"#)
                .msg(ui, "connectors-empty-state")
                .raw("</p></div></div>")
        } else {
            Html::empty()
        })
        .raw(r#"<div class="flex flex-col gap-3 mt-4">"#)
        .html(render_connector_rows(ui, connectors, redirect_uri))
        .raw("</div></div>")
}

// ---------------------------------------------------------------------------
// Laws

/// Whoever has to create a client at a provider is shown the address to register
/// there: the help for a connector that needs one holds it.
pub proof fn redirect_uri_is_shown(ui: &Ui, existing: Option<&Connector>, redirect_uri: Seq<char>)
    requires
        existing is Some ==> existing->0.auth == AuthKind::OAuth2 && !existing->0.use_dcr,
    ensures
        exists|i: int| occurs_at(oauth_help(ui, existing, redirect_uri), escaped(redirect_uri), i),
{
    let key = pick(existing, |c: Connector| c.key@);
    let category = pick(existing, |c: Connector| text_or_empty(opt_text(c.category)));
    let is_google = category == "Google"@ || "google"@.is_prefix_of(key) || key == "gmail"@;
    let (is_github, is_slack) = (key == "github"@, key == "slack"@);
    let help = help_client(ui, is_google, is_github, is_slack, redirect_uri);
    assert(oauth_help(ui, existing, redirect_uri) == help);
    let before = r#"<div class="rounded-md border border-info/30 bg-info/5 p-3 text-xs leading-relaxed">"#@
        + r#"<p class="m-0 font-medium">"#@
        + escaped(ui.message("connectors-oauth-help-generic-heading"@))
        + r#"</p><p class="m-0 mt-1">"#@
        + escaped(ui.message("connectors-oauth-help-generic-intro"@))
        + r#"</p><code class="block mt-1 mb-2 p-1.5 rounded bg-base-300/60 break-all select-all">"#@;
    let shown = escaped(redirect_uri);
    let at = before.len() as int;
    assert(help.subrange(at, at + shown.len()) =~= shown);
    assert(occurs_at(help, shown, at));
}

/// Whether two connectors are alike in everything but their sealed secret.
pub open spec fn alike_but_secret(a: Connector, b: Connector) -> bool {
    b == (Connector {
        client_secret_ct: b.client_secret_ct,
        client_secret_nonce: b.client_secret_nonce,
        ..a
    })
}

/// The secret of a connector is not in its form, not even sealed: whether or not
/// the form says that there is one, two connectors that differ in nothing but the
/// secret have the same form.
pub proof fn form_ignores_secret(
    ui: &Ui,
    a: &Connector,
    b: &Connector,
    has_secret: bool,
    redirect_uri: Seq<char>,
)
    requires
        alike_but_secret(*a, *b),
    ensures
        form_fields(ui, Some(a), has_secret, redirect_uri) == form_fields(
            ui,
            Some(b),
            has_secret,
            redirect_uri,
        ),
        edit_form(ui, a, has_secret, redirect_uri) == edit_form(ui, b, has_secret, redirect_uri),
{
    reveal(form_fields);
}

/// The secret of a connector never reaches its row of the catalog, not even sealed:
/// two connectors that differ in nothing but the secret look the same. The row says
/// whether there is one, and no more.
pub proof fn secret_is_not_shown(ui: &Ui, a: &Connector, b: &Connector, redirect_uri: Seq<char>)
    requires
        alike_but_secret(*a, *b),
        a.client_secret_ct is Some <==> b.client_secret_ct is Some,
    ensures
        connector_row(ui, a, redirect_uri) == connector_row(ui, b, redirect_uri),
{
    form_ignores_secret(ui, a, b, a.client_secret_ct is Some, redirect_uri);
    reveal(connector_row);
}

/// No secret reaches the page of the catalog: it is the same for two catalogs whose
/// connectors differ in nothing but their secrets.
pub proof fn catalog_shows_no_secret(
    ui: &Ui,
    a: Seq<Connector>,
    b: Seq<Connector>,
    redirect_uri: Seq<char>,
)
    requires
        a.len() == b.len(),
        forall|i: int|
            0 <= i < a.len() ==> alike_but_secret(#[trigger] a[i], b[i]) && (
            a[i].client_secret_ct is Some <==> b[i].client_secret_ct is Some),
    ensures
        catalog_page(ui, a, redirect_uri) == catalog_page(ui, b, redirect_uri),
{
    lemma_rows_alike(ui, a, b, redirect_uri);
}

proof fn lemma_rows_alike(
    ui: &Ui,
    a: Seq<Connector>,
    b: Seq<Connector>,
    redirect_uri: Seq<char>,
)
    requires
        a.len() == b.len(),
        forall|i: int|
            0 <= i < a.len() ==> alike_but_secret(#[trigger] a[i], b[i]) && (
            a[i].client_secret_ct is Some <==> b[i].client_secret_ct is Some),
    ensures
        connector_rows(ui, a, redirect_uri) == connector_rows(ui, b, redirect_uri),
    decreases a.len(),
{
    if a.len() > 0 {
        let (c, d) = (a.drop_last(), b.drop_last());
        assert forall|i: int| 0 <= i < c.len() implies alike_but_secret(#[trigger] c[i], d[i]) && (
        c[i].client_secret_ct is Some <==> d[i].client_secret_ct is Some) by {
            assert(c[i] == a[i] && d[i] == b[i]);
        }
        lemma_rows_alike(ui, c, d, redirect_uri);
        assert(a[a.len() - 1] == a.last() && b[b.len() - 1] == b.last());
        secret_is_not_shown(ui, &a.last(), &b.last(), redirect_uri);
    }
}

proof fn lemma_form_shows_the_connector()
    ensures
        starts_as(
            r#"" readonly="readonly" class="input input-bordered input-sm w-full opacity-60"></label>"#@,
            r#"" readonly="readonly""#@,
        ),
        ends_in(
            r#"</span><input type="text" name=""#@,
            r#"<input type="text" name=""#@,
        ),
{
    assert(starts_as(r#"" readonly="readonly" class="input input-bordered input-sm w-full opacity-60"></label>"#@, r#"" readonly="readonly""#@)) by {
        reveal(starts_as);
        reveal_strlit(r#"" readonly="readonly" class="input input-bordered input-sm w-full opacity-60"></label>"#);
        reveal_strlit(r#"" readonly="readonly""#);
        assert(r#"" readonly="readonly" class="input input-bordered input-sm w-full opacity-60"></label>"#@.take(21) =~= r#"" readonly="readonly""#@);
    }
    assert(ends_in(r#"</span><input type="text" name=""#@, r#"<input type="text" name=""#@)) by {
        reveal(ends_in);
        reveal_strlit(r#"</span><input type="text" name=""#);
        reveal_strlit(r#"<input type="text" name=""#);
        assert(r#"</span><input type="text" name=""#@.skip(7) =~= r#"<input type="text" name=""#@);
    }
}

/// The form of a connector shows each of its texts in the field that it is read from.
#[verifier::rlimit(30)]
pub proof fn form_shows_the_connector(ui: &Ui, c: &Connector, has_secret: bool, redirect_uri: Seq<char>)
    ensures
        ({
            let page = form_fields(ui, Some(c), has_secret, redirect_uri);
            &&& shows(page, r#"</span><input type="text" name="key" value=""#@ + escaped(c.key@) + r#"" readonly="readonly""#@)
            &&& shows(page, r#"<input type="text" name=""#@ + escaped("name"@) + r#"" value=""#@ + escaped(c.name@) + r#"" placeholder=""#@)
            &&& shows(page, r#"<input type="text" name=""#@ + escaped("icon"@) + r#"" value=""#@ + escaped(text_or_empty(opt_text(c.icon))) + r#"" placeholder=""#@)
            &&& shows(page, r#"<input type="text" name=""#@ + escaped("category"@) + r#"" value=""#@ + escaped(text_or_empty(opt_text(c.category))) + r#"" placeholder=""#@)
            &&& shows(page, r#"<input type="text" name=""#@ + escaped("description"@) + r#"" value=""#@ + escaped(text_or_empty(opt_text(c.description))) + r#"" placeholder=""#@)
            &&& shows(page, r#"<input type="text" name=""#@ + escaped("url"@) + r#"" value=""#@ + escaped(c.url@) + r#"" placeholder=""#@)
            &&& shows(page, r#"<input type="text" name=""#@ + escaped("allowed_groups"@) + r#"" value=""#@ + escaped(joined(texts(c.allowed_groups@), ", "@)) + r#"" placeholder=""#@)
            &&& c.audit ==> shows(page, r#"<input type="checkbox" name="audit" value="1" checked="checked" class="checkbox"#@)
            &&& !c.audit ==> shows(page, r#"<input type="checkbox" name="audit" value="1" class="checkbox checkbox-sm">"#@)
        }),
{
    broadcast use group_shows;

    lemma_form_shows_the_connector();
    reveal(form_fields);
}

proof fn lemma_form_marks_the_kind()
    ensures
        shows(
            r#"</option><option value="static_bearer">"#@,
            r#"<option value="static_bearer">"#@,
        ),
        shows(
            r#"</option><option value="none">"#@,
            r#"<option value="none">"#@,
        ),
        shows(
            r#"</option><option value="static_bearer" selected="selected">"#@,
            r#"<option value="static_bearer" selected="selected">"#@,
        ),
        shows(
            r#"</option><option value="none" selected="selected">"#@,
            r#"<option value="none" selected="selected">"#@,
        ),
        shows(
            r#"<option value="global" selected="selected">Global (one shared identity for everyone)"#@,
            r#"<option value="global" selected="selected">"#@,
        ),
        shows(
            r#"<option value="per_user">Per-user (each user connects their own account)</option>"#@,
            r#"<option value="per_user">"#@,
        ),
        shows(
            r#"<option value="per_user" selected="selected">Per-user (each user connects their own account)"#@,
            r#"<option value="per_user" selected="selected">"#@,
        ),
        shows(
            r#"</option><option value="global">Global (one shared identity for everyone)</option>"#@,
            r#"<option value="global">"#@,
        ),
{
    assert(shows(r#"</option><option value="static_bearer">"#@, r#"<option value="static_bearer">"#@)) by {
        reveal(shows);
        reveal_strlit(r#"</option><option value="static_bearer">"#);
        reveal_strlit(r#"<option value="static_bearer">"#);
        assert(r#"</option><option value="static_bearer">"#@.subrange(9, 39) =~= r#"<option value="static_bearer">"#@);
        assert(occurs_at(r#"</option><option value="static_bearer">"#@, r#"<option value="static_bearer">"#@, 9));
    }
    assert(shows(r#"</option><option value="none">"#@, r#"<option value="none">"#@)) by {
        reveal(shows);
        reveal_strlit(r#"</option><option value="none">"#);
        reveal_strlit(r#"<option value="none">"#);
        assert(r#"</option><option value="none">"#@.subrange(9, 30) =~= r#"<option value="none">"#@);
        assert(occurs_at(r#"</option><option value="none">"#@, r#"<option value="none">"#@, 9));
    }
    assert(shows(r#"</option><option value="static_bearer" selected="selected">"#@, r#"<option value="static_bearer" selected="selected">"#@)) by {
        reveal(shows);
        reveal_strlit(r#"</option><option value="static_bearer" selected="selected">"#);
        reveal_strlit(r#"<option value="static_bearer" selected="selected">"#);
        assert(r#"</option><option value="static_bearer" selected="selected">"#@.subrange(9, 59) =~= r#"<option value="static_bearer" selected="selected">"#@);
        assert(occurs_at(r#"</option><option value="static_bearer" selected="selected">"#@, r#"<option value="static_bearer" selected="selected">"#@, 9));
    }
    assert(shows(r#"</option><option value="none" selected="selected">"#@, r#"<option value="none" selected="selected">"#@)) by {
        reveal(shows);
        reveal_strlit(r#"</option><option value="none" selected="selected">"#);
        reveal_strlit(r#"<option value="none" selected="selected">"#);
        assert(r#"</option><option value="none" selected="selected">"#@.subrange(9, 50) =~= r#"<option value="none" selected="selected">"#@);
        assert(occurs_at(r#"</option><option value="none" selected="selected">"#@, r#"<option value="none" selected="selected">"#@, 9));
    }
    assert(shows(r#"<option value="global" selected="selected">Global (one shared identity for everyone)"#@, r#"<option value="global" selected="selected">"#@)) by {
        reveal(shows);
        reveal_strlit(r#"<option value="global" selected="selected">Global (one shared identity for everyone)"#);
        reveal_strlit(r#"<option value="global" selected="selected">"#);
        assert(r#"<option value="global" selected="selected">Global (one shared identity for everyone)"#@.subrange(0, 43) =~= r#"<option value="global" selected="selected">"#@);
        assert(occurs_at(r#"<option value="global" selected="selected">Global (one shared identity for everyone)"#@, r#"<option value="global" selected="selected">"#@, 0));
    }
    assert(shows(r#"<option value="per_user">Per-user (each user connects their own account)</option>"#@, r#"<option value="per_user">"#@)) by {
        reveal(shows);
        reveal_strlit(r#"<option value="per_user">Per-user (each user connects their own account)</option>"#);
        reveal_strlit(r#"<option value="per_user">"#);
        assert(r#"<option value="per_user">Per-user (each user connects their own account)</option>"#@.subrange(0, 25) =~= r#"<option value="per_user">"#@);
        assert(occurs_at(r#"<option value="per_user">Per-user (each user connects their own account)</option>"#@, r#"<option value="per_user">"#@, 0));
    }
    assert(shows(r#"<option value="per_user" selected="selected">Per-user (each user connects their own account)"#@, r#"<option value="per_user" selected="selected">"#@)) by {
        reveal(shows);
        reveal_strlit(r#"<option value="per_user" selected="selected">Per-user (each user connects their own account)"#);
        reveal_strlit(r#"<option value="per_user" selected="selected">"#);
        assert(r#"<option value="per_user" selected="selected">Per-user (each user connects their own account)"#@.subrange(0, 45) =~= r#"<option value="per_user" selected="selected">"#@);
        assert(occurs_at(r#"<option value="per_user" selected="selected">Per-user (each user connects their own account)"#@, r#"<option value="per_user" selected="selected">"#@, 0));
    }
    assert(shows(r#"</option><option value="global">Global (one shared identity for everyone)</option>"#@, r#"<option value="global">"#@)) by {
        reveal(shows);
        reveal_strlit(r#"</option><option value="global">Global (one shared identity for everyone)</option>"#);
        reveal_strlit(r#"<option value="global">"#);
        assert(r#"</option><option value="global">Global (one shared identity for everyone)</option>"#@.subrange(9, 32) =~= r#"<option value="global">"#@);
        assert(occurs_at(r#"</option><option value="global">Global (one shared identity for everyone)</option>"#@, r#"<option value="global">"#@, 9));
    }
}

/// The form of a connector marks the option of its kind and of its scope, and no other.
#[verifier::rlimit(30)]
pub proof fn form_marks_the_kind(ui: &Ui, c: &Connector, has_secret: bool, redirect_uri: Seq<char>)
    ensures
        ({
            let page = form_fields(ui, Some(c), has_secret, redirect_uri);
            &&& c.auth == AuthKind::OAuth2 ==> shows(page, r#"<option value="oauth2" selected="selected">"#@)
            &&& c.auth == AuthKind::OAuth2 ==> shows(page, r#"<option value="static_bearer">"#@)
            &&& c.auth == AuthKind::OAuth2 ==> shows(page, r#"<option value="none">"#@)
            &&& c.auth == AuthKind::StaticBearer ==> shows(page, r#"<option value="oauth2">"#@)
            &&& c.auth == AuthKind::StaticBearer ==> shows(page, r#"<option value="static_bearer" selected="selected">"#@)
            &&& c.auth == AuthKind::StaticBearer ==> shows(page, r#"<option value="none">"#@)
            &&& c.auth == AuthKind::NoAuth ==> shows(page, r#"<option value="oauth2">"#@)
            &&& c.auth == AuthKind::NoAuth ==> shows(page, r#"<option value="static_bearer">"#@)
            &&& c.auth == AuthKind::NoAuth ==> shows(page, r#"<option value="none" selected="selected">"#@)
            &&& c.scope == Scope::Global ==> shows(page, r#"<option value="global" selected="selected">"#@)
            &&& c.scope == Scope::Global ==> shows(page, r#"<option value="per_user">"#@)
            &&& c.scope == Scope::PerUser ==> shows(page, r#"<option value="per_user" selected="selected">"#@)
            &&& c.scope == Scope::PerUser ==> shows(page, r#"<option value="global">"#@)
        }),
{
    broadcast use group_shows;

    lemma_form_marks_the_kind();
    reveal(form_fields);
}

proof fn lemma_form_shows_the_client()
    ensures
        ends_in(
            r#"</span><input type="text" name=""#@,
            r#"<input type="text" name=""#@,
        ),
        starts_as(
            r#"" class="input input-bordered input-sm w-full"></label>"#@,
            r#"" class="#@,
        ),
        starts_as(
            r#"" class="input input-bordered input-sm w-full">"#@,
            r#"" class="#@,
        ),
{
    assert(ends_in(r#"</span><input type="text" name=""#@, r#"<input type="text" name=""#@)) by {
        reveal(ends_in);
        reveal_strlit(r#"</span><input type="text" name=""#);
        reveal_strlit(r#"<input type="text" name=""#);
        assert(r#"</span><input type="text" name=""#@.skip(7) =~= r#"<input type="text" name=""#@);
    }
    assert(starts_as(r#"" class="input input-bordered input-sm w-full"></label>"#@, r#"" class="#@)) by {
        reveal(starts_as);
        reveal_strlit(r#"" class="input input-bordered input-sm w-full"></label>"#);
        reveal_strlit(r#"" class="#);
        assert(r#"" class="input input-bordered input-sm w-full"></label>"#@.take(8) =~= r#"" class="#@);
    }
    assert(starts_as(r#"" class="input input-bordered input-sm w-full">"#@, r#"" class="#@)) by {
        reveal(starts_as);
        reveal_strlit(r#"" class="input input-bordered input-sm w-full">"#);
        reveal_strlit(r#"" class="#);
        assert(r#"" class="input input-bordered input-sm w-full">"#@.take(8) =~= r#"" class="#@);
    }
}

/// The form of a connector that signs in by OAuth shows its client: the id, the scopes and
/// the addresses, each in its field, and whether it registers a client by itself.
#[verifier::rlimit(30)]
pub proof fn form_shows_the_client(ui: &Ui, c: &Connector, has_secret: bool, redirect_uri: Seq<char>)
    requires
        c.auth == AuthKind::OAuth2,
    ensures
        ({
            let page = form_fields(ui, Some(c), has_secret, redirect_uri);
            &&& shows(page, r#"</span><input type="text" name="client_id" value=""#@ + escaped(text_or_empty(opt_text(c.client_id))) + r#"" placeholder=""#@)
            &&& shows(page, r#"<input type="text" name=""#@ + escaped("scopes"@) + r#"" value=""#@ + escaped(joined(texts(c.scopes@), " "@)) + r#"" placeholder=""#@)
            &&& shows(page, r#"<input type="text" name=""#@ + escaped("authorize_url"@) + r#"" value=""#@ + escaped(text_or_empty(opt_text(c.authorize_url))) + r#"" placeholder=""#@)
            &&& shows(page, r#"<input type="text" name=""#@ + escaped("token_url"@) + r#"" value=""#@ + escaped(text_or_empty(opt_text(c.token_url))) + r#"" placeholder=""#@)
            &&& shows(page, r#"<input type="text" name=""#@ + escaped("registration_url"@) + r#"" value=""#@ + escaped(text_or_empty(opt_text(c.registration_url))) + r#"" placeholder=""#@)
            &&& c.use_dcr ==> shows(page, r#"<input type="checkbox" name="use_dcr" value="1" checked="checked" class="checkbox"#@)
            &&& !c.use_dcr ==> shows(page, r#"<input type="checkbox" name="use_dcr" value="1" class="checkbox checkbox-sm">"#@)
            &&& has_secret ==> shows(page, r#"</span><input type="password" name="client_secret" placeholder=""#@ + escaped(ui.message("connectors-secret-placeholder-existing"@)) + r#"" class="#@)
            &&& !has_secret ==> shows(page, r#"</span><input type="password" name="client_secret" placeholder=""#@ + escaped(ui.message("connectors-secret-placeholder-new"@)) + r#"" class="#@)
        }),
{
    broadcast use group_shows;

    lemma_form_shows_the_client();
    reveal(form_fields);
}

proof fn lemma_row_shows_the_connector()
    ensures
        starts_as(
            r#"</p></div><div class="flex items-center gap-2 shrink-0">"#@,
            "</p>"@,
        ),
        starts_as(
            r#"</span><div class="min-w-0 flex-1"><div class="flex items-center gap-2 flex-wrap">"#@,
            "</span>"@,
        ),
{
    assert(starts_as(r#"</p></div><div class="flex items-center gap-2 shrink-0">"#@, "</p>"@)) by {
        reveal(starts_as);
        reveal_strlit(r#"</p></div><div class="flex items-center gap-2 shrink-0">"#);
        reveal_strlit("</p>");
        assert(r#"</p></div><div class="flex items-center gap-2 shrink-0">"#@.take(4) =~= "</p>"@);
    }
    assert(starts_as(r#"</span><div class="min-w-0 flex-1"><div class="flex items-center gap-2 flex-wrap">"#@, "</span>"@)) by {
        reveal(starts_as);
        reveal_strlit(r#"</span><div class="min-w-0 flex-1"><div class="flex items-center gap-2 flex-wrap">"#);
        reveal_strlit("</span>");
        assert(r#"</span><div class="min-w-0 flex-1"><div class="flex items-center gap-2 flex-wrap">"#@.take(7) =~= "</span>"@);
    }
}

/// A row of the catalog shows the connector: its name, its key, its address, and by badges
/// whether it is enabled, shared, audited, a default, registers by itself or lacks a
/// client.
#[verifier::rlimit(30)]
pub proof fn row_shows_the_connector(ui: &Ui, c: &Connector, redirect_uri: Seq<char>)
    ensures
        ({
            let page = connector_row(ui, c, redirect_uri);
            &&& shows(page, r#"<h2 class="card-title text-base m-0">"#@ + escaped(c.name@) + r#"</h2><code class="text-xs text-base-content/50">"#@ + escaped(c.key@) + "</code>"@)
            &&& shows(page, r#"</div><p class="text-xs text-base-content/50 m-0 mt-0.5 break-all">"#@ + escaped(c.url@) + "</p>"@)
            &&& c.enabled ==> shows(page, r#"<span class="badge badge-success badge-sm">"#@ + escaped(ui.message("connectors-badge-enabled"@)) + "</span>"@)
            &&& !c.enabled ==> shows(page, r#"<span class="badge badge-ghost badge-sm">"#@ + escaped(ui.message("connectors-badge-disabled"@)) + "</span>"@)
            &&& c.scope == Scope::Global ==> shows(page, r#"<span class="badge badge-info badge-sm">Global</span>"#@)
            &&& c.audit ==> shows(page, r#"<span class="badge badge-warning badge-sm">Audited</span>"#@)
            &&& c.seeded ==> shows(page, r#"<span class="badge badge-outline badge-sm">"#@ + escaped(ui.message("connectors-badge-default"@)) + "</span>"@)
            &&& c.use_dcr ==> shows(page, r#"<span class="badge badge-outline badge-sm">"#@ + escaped(ui.message("connectors-badge-dcr"@)) + "</span>"@)
            &&& c.auth == AuthKind::OAuth2 && !c.use_dcr && c.client_id is None ==> shows(page, r#"<span class="badge badge-warning badge-sm">"#@ + escaped(ui.message("connectors-badge-needs-client-id"@)) + "</span>"@)
        }),
{
    broadcast use group_shows;

    lemma_row_shows_the_connector();
    reveal(connector_row);
}

proof fn lemma_row_offers_the_connector()
    ensures
        starts_as(
            r#"/delete" class="m-0" data-confirm=""#@,
            r#"/delete" class="#@,
        ),
        starts_as(
            r#"/audit" class="btn btn-xs btn-ghost">Audit log</a>"#@,
            r#"/audit" class="#@,
        ),
        shows(
            r#"<button type="button" disabled="disabled" class="btn btn-xs btn-primary btn-disabled""#@,
            r#"<button type="button" disabled="disabled""#@,
        ),
        starts_as(
            "</details></div></section>"@,
            "</details>"@,
        ),
{
    assert(starts_as(r#"/delete" class="m-0" data-confirm=""#@, r#"/delete" class="#@)) by {
        reveal(starts_as);
        reveal_strlit(r#"/delete" class="m-0" data-confirm=""#);
        reveal_strlit(r#"/delete" class="#);
        assert(r#"/delete" class="m-0" data-confirm=""#@.take(15) =~= r#"/delete" class="#@);
    }
    assert(starts_as(r#"/audit" class="btn btn-xs btn-ghost">Audit log</a>"#@, r#"/audit" class="#@)) by {
        reveal(starts_as);
        reveal_strlit(r#"/audit" class="btn btn-xs btn-ghost">Audit log</a>"#);
        reveal_strlit(r#"/audit" class="#);
        assert(r#"/audit" class="btn btn-xs btn-ghost">Audit log</a>"#@.take(14) =~= r#"/audit" class="#@);
    }
    assert(shows(r#"<button type="button" disabled="disabled" class="btn btn-xs btn-primary btn-disabled""#@, r#"<button type="button" disabled="disabled""#@)) by {
        reveal(shows);
        reveal_strlit(r#"<button type="button" disabled="disabled" class="btn btn-xs btn-primary btn-disabled""#);
        reveal_strlit(r#"<button type="button" disabled="disabled""#);
        assert(r#"<button type="button" disabled="disabled" class="btn btn-xs btn-primary btn-disabled""#@.subrange(0, 41) =~= r#"<button type="button" disabled="disabled""#@);
        assert(occurs_at(r#"<button type="button" disabled="disabled" class="btn btn-xs btn-primary btn-disabled""#@, r#"<button type="button" disabled="disabled""#@, 0));
    }
    assert(starts_as("</details></div></section>"@, "</details>"@)) by {
        reveal(starts_as);
        reveal_strlit("</details></div></section>");
        reveal_strlit("</details>");
        assert("</details></div></section>"@.take(10) =~= "</details>"@);
    }
}

/// The buttons of a row are about its connector: it can be switched off while it is on, and
/// on only if it does not lack a client; its audit log is linked if it is audited.
#[verifier::rlimit(30)]
pub proof fn row_offers_the_connector(ui: &Ui, c: &Connector, redirect_uri: Seq<char>)
    ensures
        ({
            let page = connector_row(ui, c, redirect_uri);
            &&& shows(page, r#"<form method="post" action="/admin/connectors/"#@ + escaped(c.key@) + r#"/toggle" class="m-0">"#@)
            &&& shows(page, r#"<form method="post" action="/admin/connectors/"#@ + escaped(c.key@) + r#"/delete" class="#@)
            &&& c.audit ==> shows(page, r#"<a href="/admin/connectors/"#@ + escaped(c.key@) + r#"/audit" class="#@)
            &&& c.enabled ==> shows(page, r#"/toggle" class="m-0">"#@ + (r#"<button type="submit" class="btn btn-xs btn-ghost">"#@ + escaped(ui.message("connectors-disable-button"@)) + "</button>"@) + "</form>"@)
            &&& !c.enabled && c.auth == AuthKind::OAuth2 && !c.use_dcr && c.client_id is None ==> shows(page, r#"<button type="button" disabled="disabled""#@)
            &&& !c.enabled && !(c.auth == AuthKind::OAuth2 && !c.use_dcr && c.client_id is None) ==> shows(page, r#"/toggle" class="m-0">"#@ + (r#"<button type="submit" name="enabled" value="1" class="btn btn-xs btn-primary">"#@ + escaped(ui.message("connectors-enable-button"@)) + "</button>"@) + "</form>"@)
            &&& shows(page, "</summary>"@ + edit_form(ui, c, c.client_secret_ct is Some, redirect_uri) + "</details>"@)
        }),
{
    broadcast use group_shows;

    lemma_row_offers_the_connector();
    reveal(connector_row);
}

proof fn lemma_a_call_is_told_in_the_log()
    ensures
        starts_as(
            "</td></tr>"@,
            "</td>"@,
        ),
        starts_as(
            r#"</td><td class="text-xs">"#@,
            "</td>"@,
        ),
        starts_as(
            r#"</td><td class="text-xs text-base-content/50 max-w-md truncate">"#@,
            "</td>"@,
        ),
        starts_as(
            r#"</td><td class="text-xs"><code>"#@,
            "</td>"@,
        ),
        ends_in(
            r#"</code></td><td class="text-xs">"#@,
            r#"</td><td class="text-xs">"#@,
        ),
        ends_in(
            r#"</td><td class="text-xs"><code>"#@,
            "<code>"@,
        ),
        starts_as(
            r#"</code></td><td class="text-xs">"#@,
            "</code>"@,
        ),
        ends_in(
            r#"</td><td class="text-xs text-base-content/50 max-w-md truncate">"#@,
            r#"<td class="text-xs text-base-content/50 max-w-md truncate">"#@,
        ),
{
    assert(starts_as("</td></tr>"@, "</td>"@)) by {
        reveal(starts_as);
        reveal_strlit("</td></tr>");
        reveal_strlit("</td>");
        assert("</td></tr>"@.take(5) =~= "</td>"@);
    }
    assert(starts_as(r#"</td><td class="text-xs">"#@, "</td>"@)) by {
        reveal(starts_as);
        reveal_strlit(r#"</td><td class="text-xs">"#);
        reveal_strlit("</td>");
        assert(r#"</td><td class="text-xs">"#@.take(5) =~= "</td>"@);
    }
    assert(starts_as(r#"</td><td class="text-xs text-base-content/50 max-w-md truncate">"#@, "</td>"@)) by {
        reveal(starts_as);
        reveal_strlit(r#"</td><td class="text-xs text-base-content/50 max-w-md truncate">"#);
        reveal_strlit("</td>");
        assert(r#"</td><td class="text-xs text-base-content/50 max-w-md truncate">"#@.take(5) =~= "</td>"@);
    }
    assert(starts_as(r#"</td><td class="text-xs"><code>"#@, "</td>"@)) by {
        reveal(starts_as);
        reveal_strlit(r#"</td><td class="text-xs"><code>"#);
        reveal_strlit("</td>");
        assert(r#"</td><td class="text-xs"><code>"#@.take(5) =~= "</td>"@);
    }
    assert(ends_in(r#"</code></td><td class="text-xs">"#@, r#"</td><td class="text-xs">"#@)) by {
        reveal(ends_in);
        reveal_strlit(r#"</code></td><td class="text-xs">"#);
        reveal_strlit(r#"</td><td class="text-xs">"#);
        assert(r#"</code></td><td class="text-xs">"#@.skip(7) =~= r#"</td><td class="text-xs">"#@);
    }
    assert(ends_in(r#"</td><td class="text-xs"><code>"#@, "<code>"@)) by {
        reveal(ends_in);
        reveal_strlit(r#"</td><td class="text-xs"><code>"#);
        reveal_strlit("<code>");
        assert(r#"</td><td class="text-xs"><code>"#@.skip(25) =~= "<code>"@);
    }
    assert(starts_as(r#"</code></td><td class="text-xs">"#@, "</code>"@)) by {
        reveal(starts_as);
        reveal_strlit(r#"</code></td><td class="text-xs">"#);
        reveal_strlit("</code>");
        assert(r#"</code></td><td class="text-xs">"#@.take(7) =~= "</code>"@);
    }
    assert(ends_in(r#"</td><td class="text-xs text-base-content/50 max-w-md truncate">"#@, r#"<td class="text-xs text-base-content/50 max-w-md truncate">"#@)) by {
        reveal(ends_in);
        reveal_strlit(r#"</td><td class="text-xs text-base-content/50 max-w-md truncate">"#);
        reveal_strlit(r#"<td class="text-xs text-base-content/50 max-w-md truncate">"#);
        assert(r#"</td><td class="text-xs text-base-content/50 max-w-md truncate">"#@.skip(5) =~= r#"<td class="text-xs text-base-content/50 max-w-md truncate">"#@);
    }
}

/// A line of the audit log tells who ran which tool when, whether it went well, and what
/// was said or asked.
pub proof fn a_call_is_told_in_the_log(e: McpToolEvent)
    ensures
        ({
            let page = audit_row(e);
            &&& shows(page, r#"<tr><td class="text-xs whitespace-nowrap text-base-content/60">"#@ + escaped(e.created_at@) + "</td>"@)
            &&& e.user_email@.len() > 0 ==> shows(page, r#"</td><td class="text-xs">"#@ + escaped(e.user_email@) + "</td>"@)
            &&& e.user_email@.len() == 0 ==> shows(page, r#"</td><td class="text-xs">"#@ + escaped(e.user_id@) + "</td>"@)
            &&& shows(page, "<code>"@ + escaped(e.tool_id@) + "</code>"@)
            &&& e.outcome@ == "ok"@ ==> shows(page, r#"<span class="badge badge-success badge-xs">ok</span>"#@)
            &&& e.outcome@ != "ok"@ ==> shows(page, r#"<span class="badge badge-error badge-xs">error</span>"#@)
            &&& e.error is Some ==> shows(page, r#"<td class="text-xs text-base-content/50 max-w-md truncate">"#@ + escaped(e.error->0@) + "</td></tr>"@)
            &&& e.error is None && e.arguments is Some ==> shows(page, r#"<td class="text-xs text-base-content/50 max-w-md truncate">"#@ + escaped(e.arguments->0@) + "</td></tr>"@)
        }),
{
    broadcast use group_shows;

    lemma_a_call_is_told_in_the_log();
    reveal(audit_row);
}

/// A connector is stored as its form says: the option that was picked is the kind and
/// the scope that are stored, and the form then marks that same option. An option that
/// was not sent stands for OAuth and for each user's own account.
pub proof fn options_read_back(
    ui: &Ui,
    form: SaveForm,
    client: ClientParts,
    sealed: Option<Sealed>,
    saved: ConnectorInput,
    stored: &Connector,
    has_secret: bool,
    redirect_uri: Seq<char>,
)
    requires
        call_ensures(
            finish_save,
            (form, client, sealed),
            Ok::<ConnectorInput, SaveError>(saved),
        ),
        stored.auth == saved.auth,
        stored.scope == saved.scope,
    ensures
        ({
            let page = form_fields(ui, Some(stored), has_secret, redirect_uri);
            &&& opt_text(form.auth) == Some("static_bearer"@) ==> saved.auth
                == AuthKind::StaticBearer && shows(
                page,
                r#"<option value="static_bearer" selected="selected">"#@,
            )
            &&& opt_text(form.auth) == Some("none"@) ==> saved.auth == AuthKind::NoAuth && shows(
                page,
                r#"<option value="none" selected="selected">"#@,
            )
            &&& opt_text(form.auth) == Some("oauth2"@) || form.auth is None ==> saved.auth
                == AuthKind::OAuth2 && shows(
                page,
                r#"<option value="oauth2" selected="selected">"#@,
            )
            &&& opt_text(form.scope) == Some("global"@) ==> saved.scope == Scope::Global && shows(
                page,
                r#"<option value="global" selected="selected">"#@,
            )
            &&& opt_text(form.scope) == Some("per_user"@) || form.scope is None ==> saved.scope
                == Scope::PerUser && shows(
                page,
                r#"<option value="per_user" selected="selected">"#@,
            )
        }),
{
    form_marks_the_kind(ui, stored, has_secret, redirect_uri);
    reveal_strlit("static_bearer");
    reveal_strlit("none");
    reveal_strlit("oauth2");
    reveal_strlit("global");
    reveal_strlit("per_user");
    assert("static_bearer"@.len() == 13 && "none"@.len() == 4 && "oauth2"@.len() == 6
        && "global"@.len() == 6 && "per_user"@.len() == 8);
}

/// What is stored of a connector is what its form says, each text in its place and
/// without the blanks around it. A shared connector that signs in by OAuth is refused,
/// and no other. A secret that was not typed is not written, so that the stored one
/// stays.
pub proof fn a_connector_is_stored_as_typed(
    form: SaveForm,
    client: ClientParts,
    sealed: Option<Sealed>,
    r: Result<ConnectorInput, SaveError>,
)
    requires
        call_ensures(finish_save, (form, client, sealed), r),
    ensures
        r is Err <==> opt_text(form.scope) == Some("global"@) && opt_text(form.auth) != Some(
            "static_bearer"@,
        ) && opt_text(form.auth) != Some("none"@),
        r matches Err(e) ==> e == SaveError::GlobalOauth,
        r matches Ok(c) ==> {
            &&& c.key@ == trimmed(form.key@)
            &&& c.name@ == trimmed(form.name@)
            &&& c.url@ == trimmed(form.url@)
            &&& opt_text(c.description) == nonblank(opt_text(form.description))
            &&& opt_text(c.icon) == nonblank(opt_text(form.icon))
            &&& opt_text(c.category) == nonblank(opt_text(form.category))
            &&& opt_text(c.registration_url) == nonblank(opt_text(form.registration_url))
            &&& c.audit <==> form.audit is Some
            &&& c.use_dcr <==> form.use_dcr is Some
            &&& c.client_id == client.client_id
            &&& c.authorize_url == client.authorize_url
            &&& c.token_url == client.token_url
            &&& sealed is None ==> c.client_secret_ct is None && c.client_secret_nonce is None
            &&& sealed matches Some(s) ==> c.client_secret_ct == Some(s.ciphertext)
                && c.client_secret_nonce == Some(s.nonce)
            &&& texts(c.scopes@) == items_of(text_or_empty(opt_text(form.scopes)), ", \n\t"@)
            &&& texts(c.allowed_groups@) == items_of(
                text_or_empty(opt_text(form.allowed_groups)),
                ","@,
            )
        },
{
    reveal_strlit("static_bearer");
    reveal_strlit("none");
    reveal_strlit("oauth2");
    reveal_strlit("global");
    reveal_strlit("per_user");
    assert("static_bearer"@.len() == 13 && "none"@.len() == 4 && "oauth2"@.len() == 6
        && "global"@.len() == 6 && "per_user"@.len() == 8);
}

/// The client of a form is the pasted one where something was pasted, and the one of
/// the single fields otherwise; what the pasted text leaves out is taken from the
/// fields.
pub proof fn the_pasted_client_wins(
    form: &SaveForm,
    pasted: Option<ParsedClientJson>,
    r: Result<ClientParts, SaveError>,
)
    requires
        call_ensures(merge_client, (form, pasted), r),
    ensures
        pasted is Some && pasted->0.client_id is None <==> r is Err,
        r matches Err(e) ==> e == SaveError::BadClientJson,
        r is Ok && pasted is None ==> {
            &&& opt_text(r->Ok_0.client_id) == nonblank(opt_text(form.client_id))
            &&& opt_text(r->Ok_0.authorize_url) == nonblank(opt_text(form.authorize_url))
            &&& opt_text(r->Ok_0.token_url) == nonblank(opt_text(form.token_url))
            &&& opt_text(r->Ok_0.secret) == nonblank(opt_text(form.client_secret))
        },
        r is Ok && pasted is Some ==> {
            let p = pasted->0;
            &&& opt_text(r->Ok_0.client_id) == opt_text(p.client_id)
            &&& p.authorize_url is Some ==> opt_text(r->Ok_0.authorize_url) == opt_text(
                p.authorize_url,
            )
            &&& p.authorize_url is None ==> opt_text(r->Ok_0.authorize_url) == nonblank(
                opt_text(form.authorize_url),
            )
            &&& p.token_url is Some ==> opt_text(r->Ok_0.token_url) == opt_text(p.token_url)
            &&& p.token_url is None ==> opt_text(r->Ok_0.token_url) == nonblank(
                opt_text(form.token_url),
            )
            &&& p.client_secret is Some ==> opt_text(r->Ok_0.secret) == opt_text(p.client_secret)
            &&& p.client_secret is None ==> opt_text(r->Ok_0.secret) == nonblank(
                opt_text(form.client_secret),
            )
        },
{
}

/// A form without a key, a name or an address is refused before anything else is
/// looked at; a pasted text without a client id is refused next.
pub proof fn what_is_missing_is_told(form: &SaveForm, r: Result<ClientParts, SaveError>)
    requires
        call_ensures(prepare_client, (form,), r),
    ensures
        trimmed(form.key@).len() == 0 || trimmed(form.name@).len() == 0 || trimmed(
            form.url@,
        ).len() == 0 <==> r == Err::<ClientParts, SaveError>(SaveError::MissingFields),
        trimmed(form.key@).len() > 0 && trimmed(form.name@).len() > 0 && trimmed(form.url@).len()
            > 0 && nonblank(opt_text(form.client_json)) is None ==> r is Ok && {
            &&& opt_text(r->Ok_0.client_id) == nonblank(opt_text(form.client_id))
            &&& opt_text(r->Ok_0.authorize_url) == nonblank(opt_text(form.authorize_url))
            &&& opt_text(r->Ok_0.token_url) == nonblank(opt_text(form.token_url))
            &&& opt_text(r->Ok_0.secret) == nonblank(opt_text(form.client_secret))
        },
        r matches Err(e) ==> e == SaveError::MissingFields || e == SaveError::BadClientJson,
{
}

/// A downloaded client is read from under `web`, else from under `installed`, else from
/// the top: each field from its own name.
pub proof fn client_fields_have_their_names(raw: &str, r: ParsedClientJson)
    requires
        call_ensures(parse_client_json, (raw,), r),
    ensures
        json_at(raw@, "/web"@) is Some ==> {
            &&& opt_text(r.client_id) == json_string(raw@, "/web"@ + "/client_id"@)
            &&& opt_text(r.client_secret) == json_string(raw@, "/web"@ + "/client_secret"@)
            &&& opt_text(r.authorize_url) == json_string(raw@, "/web"@ + "/auth_uri"@)
            &&& opt_text(r.token_url) == json_string(raw@, "/web"@ + "/token_uri"@)
        },
        json_at(raw@, "/web"@) is None && json_at(raw@, "/installed"@) is Some ==> {
            &&& opt_text(r.client_id) == json_string(raw@, "/installed"@ + "/client_id"@)
            &&& opt_text(r.client_secret) == json_string(raw@, "/installed"@ + "/client_secret"@)
            &&& opt_text(r.authorize_url) == json_string(raw@, "/installed"@ + "/auth_uri"@)
            &&& opt_text(r.token_url) == json_string(raw@, "/installed"@ + "/token_uri"@)
        },
        json_at(raw@, "/web"@) is None && json_at(raw@, "/installed"@) is None ==> {
            &&& opt_text(r.client_id) == json_string(raw@, "/client_id"@)
            &&& opt_text(r.client_secret) == json_string(raw@, "/client_secret"@)
            &&& opt_text(r.authorize_url) == json_string(raw@, "/auth_uri"@)
            &&& opt_text(r.token_url) == json_string(raw@, "/token_uri"@)
        },
        forall|p: Seq<char>|
            (json_at(raw@, p) matches Some(found) ==> #[trigger] json_string(raw@, p) == found),
{
    reveal_strlit("");
    assert(""@ + "/client_id"@ =~= "/client_id"@);
    assert(""@ + "/client_secret"@ =~= "/client_secret"@);
    assert(""@ + "/auth_uri"@ =~= "/auth_uri"@);
    assert(""@ + "/token_uri"@ =~= "/token_uri"@);
}

/// Only a connector that lacks a client cannot be switched on; every one can be
/// switched off.
pub proof fn only_a_missing_client_stops_a_switch(
    enable: bool,
    stored: Option<&Connector>,
    r: bool,
)
    requires
        call_ensures(may_toggle, (enable, stored), r),
    ensures
        !r <==> enable && stored is Some && stored->0.auth == AuthKind::OAuth2
            && !stored->0.use_dcr && stored->0.client_id is None,
{
}

/// Users come back to one address below the public one, with one slash between.
pub proof fn callback_is_below_the_public_address(base: Seq<char>)
    requires
        base.len() > 0,
        base.last() != '/',
    ensures
        callback_address(base) == base + "/integrations/callback"@,
        callback_address(base.push('/')) == base + "/integrations/callback"@,
{
    reveal_strlit("/");
    assert("/"@[0] == '/');
    assert("/"@.contains('/'));
    assert(base.push('/').drop_last() =~= base);
    assert(without_suffix(base, false, "/"@) == base);
}

/// Every connector of a catalog has its row on the page.
pub proof fn every_connector_is_listed(
    ui: &Ui,
    connectors: Seq<Connector>,
    redirect_uri: Seq<char>,
    i: int,
)
    requires
        0 <= i < connectors.len(),
    ensures
        shows(
            catalog_page(ui, connectors, redirect_uri),
            connector_row(ui, &connectors[i], redirect_uri),
        ),
{
    broadcast use group_shows;

    lemma_row_is_listed(ui, connectors, redirect_uri, i);
}

proof fn lemma_row_is_listed(
    ui: &Ui,
    connectors: Seq<Connector>,
    redirect_uri: Seq<char>,
    i: int,
)
    requires
        0 <= i < connectors.len(),
    ensures
        shows(
            connector_rows(ui, connectors, redirect_uri),
            connector_row(ui, &connectors[i], redirect_uri),
        ),
    decreases connectors.len(),
{
    broadcast use group_shows;

    if i < connectors.len() - 1 {
        lemma_row_is_listed(ui, connectors.drop_last(), redirect_uri, i);
    }
}

/// A client stands in the part of its file that there is, the one of the web first; the words
/// for a missing one are those of its message.
pub proof fn a_client_stands_in_its_part(
    ui: &Ui,
    web: bool,
    installed: bool,
    root: String,
    words: String,
)
    requires
        call_ensures(credentials_root, (web, installed), root),
        call_ensures(needs_client_words, (ui,), words),
    ensures
        web ==> root@ == "/web"@,
        !web && installed ==> root@ == "/installed"@,
        !web && !installed ==> root@ == ""@,
        words@ == ui.message("connectors-error-needs-client-id"@),
{
}

/// The log of a connector is titled with its name.
pub proof fn a_log_is_titled_with_the_name(name: &str, r: String)
    requires
        call_ensures(audit_title, (name,), r),
    ensures
        r@ == name@ + " — audit log"@,
{
}

} // verus!
