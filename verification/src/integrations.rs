//! The per-user connector store: connecting accounts over OAuth or with a
//! token, and the permission of each tool.
//!
//! The steps that talk to a provider, seal a secret or touch the database are
//! the caller's. What is asked of them, and what follows from their answers,
//! is decided here.
use crate::connectors::{AuthKind, Connector, Sealed};
use crate::html::{escaped, find_icon, Html, Ui};
use crate::num::decimal;
use crate::text::{
    clone_list, opt_text, same, string_or_empty, text_or_empty, texts, trim, trimmed,
};
use crate::markup::{ends_in, group_shows, shows, starts_as};
use vstd::prelude::*;

verus! {

// ---------------------------------------------------------------------------
// Who may use a connector

/// Why a request is turned down.
#[derive(Clone, Copy, PartialEq, Eq, Structural, Debug)]
pub enum Refusal {
    UnknownOrDisabled,
    NoAccess,
    NotOauth,
    NotTokenBased,
    NoRegistration,
    NeedsClientId,
    MissingCodeOrState,
    Expired,
    StateMismatch,
    ConnectorGone,
    MissingClientId,
    TokenRequired,
    InvalidMode,
    UnknownConnector,
}

impl Refusal {
    /// Whether the user lacks a right, as opposed to something having failed.
    pub open spec fn forbidden(&self) -> bool {
        self is UnknownOrDisabled || self is NoAccess || self is StateMismatch
            || self is UnknownConnector
    }

    /// Whether the answer is "forbidden" rather than an error page.
    pub fn is_forbidden(&self) -> (r: bool)
        ensures
            r == self.forbidden(),
    {
        match self {
            Refusal::UnknownOrDisabled => true,
            Refusal::NoAccess => true,
            Refusal::StateMismatch => true,
            Refusal::UnknownConnector => true,
            _ => false,
        }
    }

    /// The words shown to the user.
    pub open spec fn words(&self) -> Seq<char> {
        match self {
            Refusal::UnknownOrDisabled => "unknown or disabled connector"@,
            Refusal::NoAccess => "you don't have access to this connector"@,
            Refusal::NotOauth => "this connector does not use OAuth"@,
            Refusal::NotTokenBased => "this connector is not token-based"@,
            Refusal::NoRegistration => "this connector needs setup: no client id is configured and the provider offers no dynamic registration. Ask an admin to add an OAuth client."@,
            Refusal::NeedsClientId => "this connector needs setup: an admin must configure an OAuth client id."@,
            Refusal::MissingCodeOrState => "callback missing code or state"@,
            Refusal::Expired => "this authorization has expired or was already used — start again from Integrations"@,
            Refusal::StateMismatch => "authorization state did not match your session"@,
            Refusal::ConnectorGone => "the connector no longer exists"@,
            Refusal::MissingClientId => "connector is missing its OAuth client id"@,
            Refusal::TokenRequired => "a token is required"@,
            Refusal::InvalidMode => "invalid permission mode"@,
            Refusal::UnknownConnector => "unknown connector"@,
        }
    }

    /// The words shown to the user.
    pub fn message(&self) -> (r: String)
        ensures
            r@ == self.words(),
    {
        let s = match self {
            Refusal::UnknownOrDisabled => "unknown or disabled connector",
            Refusal::NoAccess => "you don't have access to this connector",
            Refusal::NotOauth => "this connector does not use OAuth",
            Refusal::NotTokenBased => "this connector is not token-based",
            Refusal::NoRegistration => "this connector needs setup: no client id is configured and the provider offers no dynamic registration. Ask an admin to add an OAuth client.",
            Refusal::NeedsClientId => "this connector needs setup: an admin must configure an OAuth client id.",
            Refusal::MissingCodeOrState => "callback missing code or state",
            Refusal::Expired => "this authorization has expired or was already used — start again from Integrations",
            Refusal::StateMismatch => "authorization state did not match your session",
            Refusal::ConnectorGone => "the connector no longer exists",
            Refusal::MissingClientId => "connector is missing its OAuth client id",
            Refusal::TokenRequired => "a token is required",
            Refusal::InvalidMode => "invalid permission mode",
            Refusal::UnknownConnector => "unknown connector",
        };
        s.to_owned()
    }
}

/// What went wrong with the connection of a user.
#[derive(Clone, Copy, PartialEq, Eq, Structural, Debug)]
pub enum ConnectionFault {
    Sealing,
    Saving,
    Disconnecting,
    Permission,
    Permissions,
    Listing,
}

impl ConnectionFault {
    /// What was being done.
    pub open spec fn doing(self) -> Seq<char> {
        match self {
            ConnectionFault::Sealing => "sealing token: "@,
            ConnectionFault::Saving => "saving connection: "@,
            ConnectionFault::Disconnecting => "disconnecting: "@,
            ConnectionFault::Permission => "saving tool permission: "@,
            ConnectionFault::Permissions => "saving permissions: "@,
            ConnectionFault::Listing => "listing tools: "@,
        }
    }

    /// The words shown to the user.
    pub fn message(&self, error: &str) -> (r: String)
        ensures
            r@ == self.doing() + error@,
    {
        let doing = match self {
            ConnectionFault::Sealing => "sealing token: ",
            ConnectionFault::Saving => "saving connection: ",
            ConnectionFault::Disconnecting => "disconnecting: ",
            ConnectionFault::Permission => "saving tool permission: ",
            ConnectionFault::Permissions => "saving permissions: ",
            ConnectionFault::Listing => "listing tools: ",
        };
        let mut out = doing.to_owned();
        out.append(error);
        out
    }
}

/// Whether a text is one of a list.
pub open spec fn listed(list: Seq<String>, s: Seq<char>) -> bool {
    texts(list).contains(s)
}

/// Whether a text is one of a list.
pub fn is_listed(list: &Vec<String>, s: &str) -> (r: bool)
    ensures
        r == listed(list@, s@),
{
    for i in 0..list.len()
        invariant
            forall|j: int| 0 <= j < i ==> list@[j]@ != s@,
    {
        if same(&list[i], s) {
            assert(texts(list@)[i as int] == s@);
            return true;
        }
    }
    false
}

/// A connector without a required role is open to everyone; one with a role to
/// those who have it.
pub open spec fn permitted(connector: &Connector, role_ids: Seq<String>) -> bool {
    connector.required_role matches Some(role) ==> listed(role_ids, role@)
}

/// Whether the caller's roles permit a connector.
pub fn may_use(connector: &Connector, role_ids: &Vec<String>) -> (r: bool)
    ensures
        r == permitted(connector, role_ids@),
{
    match &connector.required_role {
        Some(role) => is_listed(role_ids, role),
        None => true,
    }
}

/// The connectors that roles permit, in their order.
pub open spec fn permitted_only(connectors: Seq<Connector>, role_ids: Seq<String>) -> Seq<Connector>
    decreases connectors.len(),
{
    if connectors.len() == 0 {
        Seq::empty()
    } else {
        let rest = permitted_only(connectors.drop_first(), role_ids);
        if permitted(&connectors[0], role_ids) {
            seq![connectors[0]] + rest
        } else {
            rest
        }
    }
}

/// The connectors that the caller's roles permit: only these are shown.
pub fn usable(connectors: Vec<Connector>, role_ids: &Vec<String>) -> (r: Vec<Connector>)
    ensures
        r@ == permitted_only(connectors@, role_ids@),
{
    let ghost all = connectors@;
    let mut rest = connectors;
    let mut out: Vec<Connector> = Vec::new();
    assert(out@ + permitted_only(rest@, role_ids@) =~= permitted_only(all, role_ids@));
    while rest.len() > 0
        invariant
            out@ + permitted_only(rest@, role_ids@) == permitted_only(all, role_ids@),
        decreases rest@.len(),
    {
        let ghost (before, left) = (out@, rest@);
        let c = rest.remove(0);
        proof {
            assert(rest@ =~= left.drop_first());
            let later = permitted_only(rest@, role_ids@);
            assert(before + (seq![c] + later) =~= before.push(c) + later);
        }
        if may_use(&c, role_ids) {
            out.push(c);
        }
    }
    assert(out@ + permitted_only(rest@, role_ids@) =~= out@);
    out
}

/// What stands in the way of connecting, checked in this order: the connector
/// is known and enabled, the caller's roles permit it, and it authenticates in
/// the way asked for.
pub open spec fn connect_obstacle(
    connector: Option<&Connector>,
    role_ids: Seq<String>,
    wanted: AuthKind,
) -> Option<Refusal> {
    if connector is None || !connector->0.enabled {
        Some(Refusal::UnknownOrDisabled)
    } else if !permitted(connector->0, role_ids) {
        Some(Refusal::NoAccess)
    } else if connector->0.auth != wanted {
        Some(
            if wanted == AuthKind::OAuth2 {
                Refusal::NotOauth
            } else {
                Refusal::NotTokenBased
            },
        )
    } else {
        None
    }
}

/// Checks that the caller may connect a connector in the way asked for.
pub fn check_connect(
    connector: Option<&Connector>,
    role_ids: &Vec<String>,
    wanted: AuthKind,
) -> (r: Option<Refusal>)
    ensures
        r == connect_obstacle(connector, role_ids@, wanted),
{
    match connector {
        Some(c) => {
            if !c.enabled {
                Some(Refusal::UnknownOrDisabled)
            } else if !may_use(c, role_ids) {
                Some(Refusal::NoAccess)
            } else if c.auth != wanted {
                if wanted == AuthKind::OAuth2 {
                    Some(Refusal::NotOauth)
                } else {
                    Some(Refusal::NotTokenBased)
                }
            } else {
                None
            }
        },
        None => Some(Refusal::UnknownOrDisabled),
    }
}

// ---------------------------------------------------------------------------
// Connecting over OAuth

/// Where the client identity of an authorization comes from.
pub enum ClientPlan {
    /// The client configured in the catalog.
    Configured(String),
    /// A client registered on the fly at this address.
    Register(String),
    /// There is none.
    Refused(Refusal),
}

/// Chooses the client identity: the configured one, else one registered on the
/// fly at the provider's registration address.
pub fn plan_client(connector: &Connector, registration_url: &Option<String>) -> (r: ClientPlan)
    ensures
        match r {
            ClientPlan::Configured(id) => connector.client_id == Some(id),
            ClientPlan::Register(url) => connector.client_id is None && connector.use_dcr
                && *registration_url == Some(url),
            ClientPlan::Refused(why) => connector.client_id is None && why == (
            if connector.use_dcr {
                Refusal::NoRegistration
            } else {
                Refusal::NeedsClientId
            }) && (connector.use_dcr ==> registration_url is None),
        },
        r is Configured <==> connector.client_id is Some,
        r is Register <==> connector.client_id is None && connector.use_dcr
            && registration_url is Some,
{
    match &connector.client_id {
        Some(id) => ClientPlan::Configured(id.clone()),
        None => {
            if connector.use_dcr {
                match registration_url {
                    Some(url) => ClientPlan::Register(url.clone()),
                    None => ClientPlan::Refused(Refusal::NoRegistration),
                }
            } else {
                ClientPlan::Refused(Refusal::NeedsClientId)
            }
        },
    }
}

/// An authorization under way.
pub struct PendingOauth {
    pub state: String,
    pub user_id: String,
    pub connector_key: String,
    pub pkce_verifier: String,
    pub redirect_uri: String,
    pub token_url: String,
    pub resource: Option<String>,
    pub dcr_client_id: Option<String>,
    pub dcr_client_secret_ct: Option<Vec<u8>>,
    pub dcr_client_secret_nonce: Option<Vec<u8>>,
    pub return_to: Option<String>,
}

/// The row that remembers an authorization until the provider calls back. The
/// client registered for it, if any, is kept so that the callback can use it.
pub fn pending_row(
    state: String,
    user_id: String,
    connector_key: String,
    pkce_verifier: String,
    redirect_uri: String,
    token_url: String,
    connector: &Connector,
    registered_id: Option<String>,
    registered_secret: Option<Sealed>,
) -> (r: PendingOauth)
    ensures
        r.state == state,
        r.user_id == user_id,
        r.connector_key == connector_key,
        r.pkce_verifier == pkce_verifier,
        r.redirect_uri == redirect_uri,
        r.token_url == token_url,
        r.resource == Some(connector.url),
        r.dcr_client_id == registered_id,
        match registered_secret {
            Some(s) => r.dcr_client_secret_ct == Some(s.ciphertext) && r.dcr_client_secret_nonce
                == Some(s.nonce),
            None => r.dcr_client_secret_ct is None && r.dcr_client_secret_nonce is None,
        },
        r.return_to is None,
{
    let (ct, nonce) = match registered_secret {
        Some(s) => (Some(s.ciphertext), Some(s.nonce)),
        None => (None, None),
    };
    PendingOauth {
        state,
        user_id,
        connector_key,
        pkce_verifier,
        redirect_uri,
        token_url,
        resource: Some(connector.url.clone()),
        dcr_client_id: registered_id,
        dcr_client_secret_ct: ct,
        dcr_client_secret_nonce: nonce,
        return_to: None,
    }
}

// ---------------------------------------------------------------------------
// The provider calls back

/// What a provider appends to the callback address.
pub struct CallbackParams {
    pub code: Option<String>,
    pub state: Option<String>,
    pub error: Option<String>,
    pub error_description: Option<String>,
}

/// What a callback says.
pub enum CallbackOutcome {
    /// The provider reports an error, in these words.
    Provider(String),
    /// Turned down.
    Refused(Refusal),
    /// Exchange this code; the authorization is remembered under this state.
    Exchange { code: String, state: String },
}

/// The words for an error reported by the provider.
pub open spec fn provider_words(error: Seq<char>, description: Seq<char>) -> Seq<char> {
    "provider returned an error: "@ + error + " "@ + description
}

/// Reads a callback: an error wins, then both code and state must be there.
pub fn read_callback(params: CallbackParams) -> (r: CallbackOutcome)
    ensures
        match r {
            CallbackOutcome::Provider(words) => params.error is Some && words@ == provider_words(
                params.error->0@,
                text_or_empty(opt_text(params.error_description)),
            ),
            CallbackOutcome::Refused(why) => params.error is None && (params.code is None
                || params.state is None) && why == Refusal::MissingCodeOrState,
            CallbackOutcome::Exchange { code, state } => params.error is None && params.code
                == Some(code) && params.state == Some(state),
        },
{
    if let Some(err) = params.error {
        let mut words = "provider returned an error: ".to_owned();
        words.append(&err);
        words.append(" ");
        words.append(&string_or_empty(&params.error_description));
        return CallbackOutcome::Provider(words);
    }
    match (params.code, params.state) {
        (Some(code), Some(state)) => CallbackOutcome::Exchange { code, state },
        _ => CallbackOutcome::Refused(Refusal::MissingCodeOrState),
    }
}

/// Checks the remembered authorization: it must still be there and belong to
/// the user who came back.
pub fn check_pending(pending: Option<&PendingOauth>, user_id: &str) -> (r: Option<Refusal>)
    ensures
        r == (if pending is None {
            Some(Refusal::Expired)
        } else if pending->0.user_id@ != user_id@ {
            Some(Refusal::StateMismatch)
        } else {
            None
        }),
{
    match pending {
        Some(p) => if same(&p.user_id, user_id) {
            None
        } else {
            Some(Refusal::StateMismatch)
        },
        None => Some(Refusal::Expired),
    }
}

/// Which client redeems the code.
pub enum Credentials {
    /// The client registered when the authorization started; its secret still
    /// has to be opened if `sealed` is set.
    Registered { client_id: String, sealed: bool },
    /// The client of the catalog, whose secret still has to be opened.
    Catalog { client_id: String },
    /// There is none.
    Refused(Refusal),
}

/// Chooses the client that redeems the code: the one registered for this
/// authorization, else the one of the catalog.
pub fn choose_credentials(pending: &PendingOauth, connector: &Connector) -> (r: Credentials)
    ensures
        match r {
            Credentials::Registered { client_id, sealed } => pending.dcr_client_id == Some(
                client_id,
            ) && sealed == (pending.dcr_client_secret_ct is Some
                && pending.dcr_client_secret_nonce is Some),
            Credentials::Catalog { client_id } => pending.dcr_client_id is None
                && connector.client_id == Some(client_id),
            Credentials::Refused(why) => pending.dcr_client_id is None && connector.client_id is None
                && why == Refusal::MissingClientId,
        },
{
    match &pending.dcr_client_id {
        Some(id) => Credentials::Registered {
            client_id: id.clone(),
            sealed: pending.dcr_client_secret_ct.is_some()
                && pending.dcr_client_secret_nonce.is_some(),
        },
        None => match &connector.client_id {
            Some(id) => Credentials::Catalog { client_id: id.clone() },
            None => Credentials::Refused(Refusal::MissingClientId),
        },
    }
}

/// The resource that the token is asked for: the remembered one, else the
/// connector's address.
pub fn token_resource(pending: &PendingOauth, connector: &Connector) -> (r: String)
    ensures
        r == (match pending.resource {
            Some(res) => res,
            None => connector.url,
        }),
{
    match &pending.resource {
        Some(res) => res.clone(),
        None => connector.url.clone(),
    }
}

/// A stored connection, every token sealed.
pub struct NewConnection {
    pub user_id: String,
    pub connector_key: String,
    pub access_token_ct: Vec<u8>,
    pub access_token_nonce: Vec<u8>,
    pub refresh_token_ct: Option<Vec<u8>>,
    pub refresh_token_nonce: Option<Vec<u8>>,
    pub token_expires_at: Option<i64>,
    pub scopes: Vec<String>,
    pub dcr_client_id: Option<String>,
    pub dcr_client_secret_ct: Option<Vec<u8>>,
    pub dcr_client_secret_nonce: Option<Vec<u8>>,
    pub token_url: Option<String>,
}

/// The connection made from an authorization and the sealed tokens. The scopes
/// are those that the provider granted, or the connector's own when it names
/// none. The client registered for the authorization stays with the connection.
pub fn oauth_connection(
    user_id: String,
    pending: PendingOauth,
    connector: &Connector,
    access: Sealed,
    refresh: Option<Sealed>,
    expires_at: Option<i64>,
    granted: Vec<String>,
) -> (r: NewConnection)
    ensures
        r.user_id == user_id,
        r.connector_key == pending.connector_key,
        r.access_token_ct == access.ciphertext,
        r.access_token_nonce == access.nonce,
        match refresh {
            Some(s) => r.refresh_token_ct == Some(s.ciphertext) && r.refresh_token_nonce == Some(
                s.nonce,
            ),
            None => r.refresh_token_ct is None && r.refresh_token_nonce is None,
        },
        r.token_expires_at == expires_at,
        r.scopes@ == (if granted@.len() == 0 { connector.scopes@ } else { granted@ }),
        r.dcr_client_id == pending.dcr_client_id,
        r.dcr_client_secret_ct == pending.dcr_client_secret_ct,
        r.dcr_client_secret_nonce == pending.dcr_client_secret_nonce,
        r.token_url == Some(pending.token_url),
{
    let (refresh_token_ct, refresh_token_nonce) = match refresh {
        Some(s) => (Some(s.ciphertext), Some(s.nonce)),
        None => (None, None),
    };
    NewConnection {
        user_id,
        connector_key: pending.connector_key,
        access_token_ct: access.ciphertext,
        access_token_nonce: access.nonce,
        refresh_token_ct,
        refresh_token_nonce,
        token_expires_at: expires_at,
        scopes: if granted.len() == 0 {
            clone_list(&connector.scopes)
        } else {
            granted
        },
        dcr_client_id: pending.dcr_client_id,
        dcr_client_secret_ct: pending.dcr_client_secret_ct,
        dcr_client_secret_nonce: pending.dcr_client_secret_nonce,
        token_url: Some(pending.token_url),
    }
}

// ---------------------------------------------------------------------------
// Connecting with a token

/// The token that a user pasted, trimmed; a blank one is refused.
pub fn read_token(token: &str) -> (r: Result<String, Refusal>)
    ensures
        r is Err <==> trimmed(token@).len() == 0,
        match r {
            Ok(t) => t@ == trimmed(token@),
            Err(why) => why == Refusal::TokenRequired,
        },
{
    let t = trim(token);
    if t.as_str().is_empty() {
        Err(Refusal::TokenRequired)
    } else {
        Ok(t)
    }
}

/// The connection made from a pasted token: used as it is until the user
/// replaces it, so without refresh token, expiry, scopes or client.
pub fn token_connection(user_id: String, connector_key: String, sealed: Sealed) -> (r: NewConnection)
    ensures
        r.user_id == user_id,
        r.connector_key == connector_key,
        r.access_token_ct == sealed.ciphertext,
        r.access_token_nonce == sealed.nonce,
        r.refresh_token_ct is None,
        r.refresh_token_nonce is None,
        r.token_expires_at is None,
        r.scopes@.len() == 0,
        r.dcr_client_id is None,
        r.dcr_client_secret_ct is None,
        r.dcr_client_secret_nonce is None,
        r.token_url is None,
{
    NewConnection {
        user_id,
        connector_key,
        access_token_ct: sealed.ciphertext,
        access_token_nonce: sealed.nonce,
        refresh_token_ct: None,
        refresh_token_nonce: None,
        token_expires_at: None,
        scopes: Vec::new(),
        dcr_client_id: None,
        dcr_client_secret_ct: None,
        dcr_client_secret_nonce: None,
        token_url: None,
    }
}

// ---------------------------------------------------------------------------
// Tool permissions

/// When a tool of a connector may run.
#[derive(Clone, Copy, PartialEq, Eq, Structural, Debug)]
pub enum ToolMode {
    Always,
    Ask,
    Off,
}

/// The mode that a form value names.
pub open spec fn mode_named(s: Seq<char>) -> Option<ToolMode> {
    if s == "always"@ {
        Some(ToolMode::Always)
    } else if s == "ask"@ {
        Some(ToolMode::Ask)
    } else if s == "off"@ {
        Some(ToolMode::Off)
    } else {
        None
    }
}

impl ToolMode {
    /// The form value of a mode.
    pub open spec fn name(&self) -> Seq<char> {
        match self {
            ToolMode::Always => "always"@,
            ToolMode::Ask => "ask"@,
            ToolMode::Off => "off"@,
        }
    }

    /// Reads a form value.
    pub fn parse(s: &str) -> (r: Option<ToolMode>)
        ensures
            r == mode_named(s@),
    {
        if same(s, "always") {
            Some(ToolMode::Always)
        } else if same(s, "ask") {
            Some(ToolMode::Ask)
        } else if same(s, "off") {
            Some(ToolMode::Off)
        } else {
            None
        }
    }

    /// The form value of a mode.
    pub fn as_str(&self) -> (r: &'static str)
        ensures
            r@ == self.name(),
    {
        match self {
            ToolMode::Always => "always",
            ToolMode::Ask => "ask",
            ToolMode::Off => "off",
        }
    }
}

/// A mode is read back from its own form value.
pub proof fn mode_reads_back(mode: ToolMode)
    ensures
        mode_named(mode.name()) == Some(mode),
{
    reveal_strlit("always");
    reveal_strlit("ask");
    reveal_strlit("off");
    assert("ask"@.len() == 3 && "off"@.len() == 3 && "always"@.len() == 6);
    assert("ask"@[0] != "off"@[0]);
}

/// The permission change that a form asks for.
pub fn read_mode(mode: &str) -> (r: Result<ToolMode, Refusal>)
    ensures
        match r {
            Ok(m) => mode_named(mode@) == Some(m),
            Err(why) => mode_named(mode@) is None && why == Refusal::InvalidMode,
        },
{
    match ToolMode::parse(mode) {
        Some(m) => Ok(m),
        None => Err(Refusal::InvalidMode),
    }
}

/// One tool of a connector.
pub struct ToolInfo {
    pub remote_name: String,
    pub description: String,
    pub read_only: bool,
    pub mode: ToolMode,
}

/// The changes that set every tool of a connector to one mode.
pub fn set_all(tools: &Vec<ToolInfo>, mode: ToolMode) -> (r: Vec<(String, ToolMode)>)
    ensures
        r@.len() == tools@.len(),
        forall|i: int|
            0 <= i < tools@.len() ==> (#[trigger] r@[i]).0 == tools@[i].remote_name && r@[i].1
                == mode,
{
    let mut out: Vec<(String, ToolMode)> = Vec::new();
    for i in 0..tools.len()
        invariant
            out@.len() == i,
            forall|j: int|
                0 <= j < i ==> (#[trigger] out@[j]).0 == tools@[j].remote_name && out@[j].1 == mode,
    {
        out.push((tools[i].remote_name.clone(), mode));
    }
    out
}

// ---------------------------------------------------------------------------
// The store page

/// One of the three permission buttons; the current one stands out.
pub open spec fn mode_button(
    mode: ToolMode,
    label: Seq<char>,
    tool: Seq<char>,
    current: ToolMode,
) -> Seq<char> {
    r#"<button type="submit" name="mode" value=""#@
        + escaped(mode.name())
        + r#"" class=""#@
        + (if mode == current { "btn btn-xs btn-primary"@ } else { "btn btn-xs btn-ghost"@ })
        + r#"">"#@
        + escaped(label)
        + r#"</button><input type="hidden" name="tool" value=""#@
        + escaped(tool)
        + r#"">"#@
}

fn render_mode_button(mode: ToolMode, label: &str, tool: &str, current: ToolMode) -> (r: Html)
    ensures
        r@ == mode_button(mode, label@, tool@, current),
{
    Html::new(r#"<button type="submit" name="mode" value=""#)
        .text(mode.as_str())
        .raw(r#"" class=""#)
        .html(Html::new(if mode == current { "btn btn-xs btn-primary" } else { "btn btn-xs btn-ghost" }))
        .raw(r#"">"#)
        .text(&label)
        .raw(r#"</button><input type="hidden" name="tool" value=""#)
        .text(&tool)
        .raw(r#"">"#)
}

/// The three permission buttons of a tool, each in a form of its own.
pub open spec fn mode_picker(action: Seq<char>, tool: Seq<char>, current: ToolMode) -> Seq<char> {
    r#"<div class="join shrink-0"><form method="post" action=""#@
        + escaped(action)
        + r#"" class="m-0 join-item">"#@
        + mode_button(ToolMode::Always, "Always"@, tool, current)
        + r#"</form><form method="post" action=""#@
        + escaped(action)
        + r#"" class="m-0 join-item">"#@
        + mode_button(ToolMode::Ask, "Ask"@, tool, current)
        + r#"</form><form method="post" action=""#@
        + escaped(action)
        + r#"" class="m-0 join-item">"#@
        + mode_button(ToolMode::Off, "Off"@, tool, current)
        + "</form></div>"@
}

/// Renders the three permission buttons of a tool.
pub fn render_mode_picker(action: &str, tool: &str, current: ToolMode) -> (r: Html)
    ensures
        r@ == mode_picker(action@, tool@, current),
{
    Html::new(r#"<div class="join shrink-0"><form method="post" action=""#)
        .text(&action)
        .raw(r#"" class="m-0 join-item">"#)
        .html(render_mode_button(ToolMode::Always, "Always", tool, current))
        .raw(r#"</form><form method="post" action=""#)
        .text(&action)
        .raw(r#"" class="m-0 join-item">"#)
        .html(render_mode_button(ToolMode::Ask, "Ask", tool, current))
        .raw(r#"</form><form method="post" action=""#)
        .text(&action)
        .raw(r#"" class="m-0 join-item">"#)
        .html(render_mode_button(ToolMode::Off, "Off", tool, current))
        .raw("</form></div>")
}

/// One tool of a connected connector.
#[verifier::opaque]
pub open spec fn tool_row(key: Seq<char>, tool: ToolInfo) -> Seq<char> {
    let action = "/integrations/"@ + key + "/tools/mode"@;
    r#"<div class="flex items-center gap-3 py-2"><div class="min-w-0 flex-1">"#@
        + r#"<div class="flex items-center gap-2"><code class="text-xs font-mono">"#@
        + escaped(tool.remote_name@)
        + r#"</code><span class="badge badge-ghost badge-xs">"#@
        + (if tool.read_only { "read"@ } else { "write"@ })
        + "</span></div>"@
        + (if tool.description@.len() > 0 {
            r#"<p class="text-xs text-base-content/50 m-0 mt-0.5 line-clamp-1">"#@
                + escaped(tool.description@)
                + "</p>"@
        } else {
            Seq::<char>::empty()
        })
        + "</div>"@
        + mode_picker(action, tool.remote_name@, tool.mode)
        + "</div>"@
}

fn path(prefix: &str, key: &str, suffix: &str) -> (r: String)
    ensures
        r@ == prefix@ + key@ + suffix@,
{
    let mut out = prefix.to_owned();
    out.append(key);
    out.append(suffix);
    out
}

/// Renders one tool of a connected connector.
pub fn render_tool_row(key: &str, tool: &ToolInfo) -> (r: Html)
    ensures
        r@ == tool_row(key@, *tool),
{
    proof {
        reveal(tool_row);
    }
    let action = path("/integrations/", key, "/tools/mode");
    Html::new(r#"<div class="flex items-center gap-3 py-2"><div class="min-w-0 flex-1">"#)
        .raw(r#"<div class="flex items-center gap-2"><code class="text-xs font-mono">"#)
        .text(&tool.remote_name)
        .raw(r#"</code><span class="badge badge-ghost badge-xs">"#)
        .html(Html::new(if tool.read_only { "read" } else { "write" }))
        .raw("</span></div>")
        .html(if !tool.description.as_str().is_empty() {
            Html::new(r#"<p class="text-xs text-base-content/50 m-0 mt-0.5 line-clamp-1">"#)
                .text(&tool.description)
                .raw("</p>")
        } else {
            Html::empty()
        })
        .raw("</div>")
        .html(render_mode_picker(&action, &tool.remote_name, tool.mode))
        .raw("</div>")
}

/// The tools of a connector, in order.
pub open spec fn tool_rows(key: Seq<char>, tools: Seq<ToolInfo>) -> Seq<char>
    decreases tools.len(),
{
    if tools.len() == 0 {
        Seq::empty()
    } else {
        tool_rows(key, tools.drop_last()) + tool_row(key, tools.last())
    }
}

fn render_tool_rows(key: &str, tools: &Vec<ToolInfo>) -> (r: Html)
    ensures
        r@ == tool_rows(key@, tools@),
{
    let mut out = Html::empty();
    assert(tools@.take(0) =~= Seq::<ToolInfo>::empty());
    for i in 0..tools.len()
        invariant
            out@ == tool_rows(key@, tools@.take(i as int)),
    {
        assert(tools@.take(i + 1).drop_last() =~= tools@.take(i as int));
        out = out.html(render_tool_row(key, &tools[i]));
    }
    assert(tools@.take(tools@.len() as int) =~= tools@);
    out
}

/// Shown when the tools of a connected connector cannot be listed: the reason.
pub open spec fn tools_failed(detail: Seq<char>) -> Seq<char> {
    r#"<div class="border-t border-base-300 pt-3"><p class="text-error text-xs m-0">"#@
        + "Couldn&#39;t load this connector&#39;s tools: "@
        + escaped(detail)
        + r#"</p><p class="text-base-content/50 text-xs m-0 mt-1">"#@
        + "Check the MCP server URL / your token, then use Reconnect above.</p></div>"@
}

fn render_tools_failed(detail: &str) -> (r: Html)
    ensures
        r@ == tools_failed(detail@),
{
    Html::new(r#"<div class="border-t border-base-300 pt-3"><p class="text-error text-xs m-0">"#)
        .raw("Couldn&#39;t load this connector&#39;s tools: ")
        .text(&detail)
        .raw(r#"</p><p class="text-base-content/50 text-xs m-0 mt-1">"#)
        .raw("Check the MCP server URL / your token, then use Reconnect above.</p></div>")
}

/// A button that sets every tool to one mode.
pub open spec fn set_all_button(key: Seq<char>, mode: Seq<char>, label: Seq<char>) -> Seq<char> {
    r#"<form method="post" action="/integrations/"#@
        + escaped(key)
        + r#"/tools/all" class="m-0"><button type="submit" name="mode" value=""#@
        + escaped(mode)
        + r#"" class="btn btn-xs btn-ghost">"#@
        + escaped(label)
        + "</button></form>"@
}

fn render_set_all(key: &str, mode: &str, label: &str) -> (r: Html)
    ensures
        r@ == set_all_button(key@, mode@, label@),
{
    Html::new(r#"<form method="post" action="/integrations/"#)
        .text(&key)
        .raw(r#"/tools/all" class="m-0"><button type="submit" name="mode" value=""#)
        .text(&mode)
        .raw(r#"" class="btn btn-xs btn-ghost">"#)
        .text(&label)
        .raw("</button></form>")
}

/// The permissions of a connector's tools: how many, one button per mode for
/// all of them, and each tool.
pub open spec fn tools_list(key: Seq<char>, tools: Seq<ToolInfo>) -> Seq<char> {
    r#"<div class="border-t border-base-300 pt-3">"#@
        + r#"<div class="flex items-center justify-between gap-3 flex-wrap mb-1">"#@
        + r#"<span class="text-xs font-medium text-base-content/70">Tool permissions ("#@
        + decimal(tools.len())
        + r#")</span><div class="flex items-center gap-1">"#@
        + r#"<span class="text-xs text-base-content/50 mr-1">Set all:</span>"#@
        + set_all_button(key, "always"@, "Always"@)
        + set_all_button(key, "ask"@, "Ask"@)
        + set_all_button(key, "off"@, "Off"@)
        + "</div></div><details>"@
        + r#"<summary class="cursor-pointer text-xs text-base-content/60 select-none py-1">"#@
        + "Show / hide individual tools</summary>"@
        + r#"<div class="flex flex-col divide-y divide-base-200 mt-1">"#@
        + tool_rows(key, tools)
        + "</div></details></div>"@
}

/// The tools of a connected connector: why they cannot be listed, that there
/// are none, or their permissions.
pub open spec fn tools_section(
    key: Seq<char>,
    tools: Option<&Vec<ToolInfo>>,
    tool_error: Option<&String>,
) -> Seq<char> {
    match tools {
        None => tools_failed(
            match tool_error {
                Some(e) => e@,
                None => "connection unavailable"@,
            },
        ),
        Some(list) => if list@.len() == 0 {
            r#"<p class="text-base-content/50 text-xs m-0 border-t border-base-300 pt-3">"#@
                + "This connector exposes no tools.</p>"@
        } else {
            tools_list(key, list@)
        },
    }
}

fn render_tools_list(key: &str, tools: &Vec<ToolInfo>) -> (r: Html)
    ensures
        r@ == tools_list(key@, tools@),
{
    Html::new(r#"<div class="border-t border-base-300 pt-3">"#)
        .raw(r#"<div class="flex items-center justify-between gap-3 flex-wrap mb-1">"#)
        .raw(r#"<span class="text-xs font-medium text-base-content/70">Tool permissions ("#)
        .num(tools.len() as u64)
        .raw(r#")</span><div class="flex items-center gap-1">"#)
        .raw(r#"<span class="text-xs text-base-content/50 mr-1">Set all:</span>"#)
        .html(render_set_all(key, "always", "Always"))
        .html(render_set_all(key, "ask", "Ask"))
        .html(render_set_all(key, "off", "Off"))
        .raw("</div></div><details>")
        .raw(r#"<summary class="cursor-pointer text-xs text-base-content/60 select-none py-1">"#)
        .raw("Show / hide individual tools</summary>")
        .raw(r#"<div class="flex flex-col divide-y divide-base-200 mt-1">"#)
        .html(render_tool_rows(key, tools))
        .raw("</div></details></div>")
}

/// Renders the tools of a connected connector.
pub fn render_tools(
    key: &str,
    tools: Option<&Vec<ToolInfo>>,
    tool_error: Option<&String>,
) -> (r: Html)
    ensures
        r@ == tools_section(key@, tools, tool_error),
{
    match tools {
        None => {
            let detail = match tool_error {
                Some(e) => e.clone(),
                None => "connection unavailable".to_owned(),
            };
            render_tools_failed(&detail)
        },
        Some(list) => if list.len() == 0 {
            Html::new(r#"<p class="text-base-content/50 text-xs m-0 border-t border-base-300 pt-3">"#)
                .raw("This connector exposes no tools.</p>")
        } else {
            render_tools_list(key, list)
        },
    }
}

/// The form for a pasted token.
pub open spec fn token_form(key: Seq<char>) -> Seq<char> {
    r#"<form method="post" action="/integrations/"#@
        + escaped(key)
        + r#"/token" class="border-t border-base-300 pt-3 flex items-end gap-2 flex-wrap">"#@
        + r#"<label class="form-control flex-1 min-w-48"><span class="label-text text-xs">Your API token"#@
        + "</span>"@
        + r#"<input type="password" name="token" required="required" placeholder="paste your token""#@
        + r#" autocomplete="off" class="input input-bordered input-sm w-full"></label>"#@
        + r#"<button type="submit" class="btn btn-sm btn-primary">Connect</button></form>"#@
}

/// Renders the form for a pasted token.
pub fn render_token_form(key: &str) -> (r: Html)
    ensures
        r@ == token_form(key@),
{
    Html::new(r#"<form method="post" action="/integrations/"#)
        .text(&key)
        .raw(r#"/token" class="border-t border-base-300 pt-3 flex items-end gap-2 flex-wrap">"#)
        .raw(r#"<label class="form-control flex-1 min-w-48"><span class="label-text text-xs">Your API token"#)
        .raw("</span>")
        .raw(r#"<input type="password" name="token" required="required" placeholder="paste your token""#)
        .raw(r#" autocomplete="off" class="input input-bordered input-sm w-full"></label>"#)
        .raw(r#"<button type="submit" class="btn btn-sm btn-primary">Connect</button></form>"#)
}

/// The buttons of a connector: reconnect and disconnect once it is connected,
/// else connect, greyed out while it needs setup and absent where a token is
/// pasted instead.
pub open spec fn connect_controls(
    key: Seq<char>,
    connected: bool,
    needs_setup: bool,
    token_auth: bool,
) -> Seq<char> {
    Seq::<char>::empty()
        + (if connected {
            r#"<div class="flex items-center gap-2"><form method="post" action="/integrations/"#@
                + escaped(key)
                + (if token_auth { "/retry"@ } else { "/connect"@ })
                + r#"" class="m-0">"#@
                + r#"<button type="submit" class="btn btn-sm btn-ghost" title="Re-establish the connection"#@
                + r#" (re-auth / retry)">Reconnect</button></form><form method="post" action="/integrations/"#@
                + escaped(key)
                + r#"/disconnect" class="m-0" onsubmit="return confirm(&#39;Disconnect this integration? Your"#@
                + r#" stored access token will be deleted.&#39;)">"#@
                + r#"<button type="submit" class="btn btn-sm btn-ghost text-error">Disconnect</button></form>"#@
                + "</div>"@
        } else if token_auth {
            "<span></span>"@
        } else if needs_setup {
            r#"<button type="button" class="btn btn-sm" disabled="disabled">Connect</button>"#@
        } else {
            r#"<form method="post" action="/integrations/"#@
                + escaped(key)
                + r#"/connect" class="m-0"><button type="submit" class="btn btn-sm btn-primary">Connect</button>"#@
                + "</form>"@
        })
}

/// Renders the buttons of a connector.
pub fn render_connect_controls(
    key: &str,
    connected: bool,
    needs_setup: bool,
    token_auth: bool,
) -> (r: Html)
    ensures
        r@ == connect_controls(key@, connected, needs_setup, token_auth),
{
    Html::empty().html(if connected {
            Html::new(r#"<div class="flex items-center gap-2"><form method="post" action="/integrations/"#)
                .text(&key)
                .html(Html::new(if token_auth { "/retry" } else { "/connect" }))
                .raw(r#"" class="m-0">"#)
                .raw(r#"<button type="submit" class="btn btn-sm btn-ghost" title="Re-establish the connection"#)
                .raw(r#" (re-auth / retry)">Reconnect</button></form><form method="post" action="/integrations/"#)
                .text(&key)
                .raw(r#"/disconnect" class="m-0" onsubmit="return confirm(&#39;Disconnect this integration? Your"#)
                .raw(r#" stored access token will be deleted.&#39;)">"#)
                .raw(r#"<button type="submit" class="btn btn-sm btn-ghost text-error">Disconnect</button></form>"#)
                .raw("</div>")
        } else if token_auth {
            Html::new("<span></span>")
        } else if needs_setup {
            Html::new(r#"<button type="button" class="btn btn-sm" disabled="disabled">Connect</button>"#)
        } else {
            Html::new(r#"<form method="post" action="/integrations/"#)
                .text(&key)
                .raw(r#"/connect" class="m-0"><button type="submit" class="btn btn-sm btn-primary">Connect</button>"#)
                .raw("</form>")
        })
}

/// A user's connection, as far as the store shows it.
pub struct Connection {
    pub status: String,
}

/// The drawing of a connector: its logo, or its icon text.
pub open spec fn card_logo(ui: &Ui, connector: &Connector) -> Seq<char> {
    match find_icon(ui.logos@, connector.key@, 26) {
        Some(m) => m,
        None => r#"<span class="text-2xl leading-none">"#@ + escaped(
            text_or_empty(opt_text(connector.icon)),
        ) + "</span>"@,
    }
}

/// One connector of the store.
pub open spec fn connector_card(
    ui: &Ui,
    connector: &Connector,
    connection: Option<&Connection>,
    tools: Option<&Vec<ToolInfo>>,
    tool_error: Option<&String>,
) -> Seq<char> {
    let connected = connection is Some;
    let errored = connection is Some && connection->0.status@ == "error"@;
    let needs_setup = connector.lacks_client();
    let token_auth = connector.auth == AuthKind::StaticBearer;
    let logo = card_logo(ui, connector);
    r#"<section class="card border border-base-300"><div class="card-body gap-3">"#@
        + r#"<div class="flex items-start gap-3"><span class="shrink-0 mt-0.5">"#@
        + logo
        + r#"</span><div class="min-w-0 flex-1"><div class="flex items-center gap-2 flex-wrap">"#@
        + r#"<h2 class="card-title text-base m-0">"#@
        + escaped(connector.name@)
        + "</h2>"@
        + (if connected && !errored {
            r#"<span class="badge badge-success badge-sm">Connected</span>"#@
        } else {
            Seq::<char>::empty()
        })
        + (if errored {
            r#"<span class="badge badge-error badge-sm">Needs reconnect</span>"#@
        } else {
            Seq::<char>::empty()
        })
        + (if !connected && needs_setup {
            r#"<span class="badge badge-ghost badge-sm">Needs admin setup</span>"#@
        } else {
            Seq::<char>::empty()
        })
        + r#"</div><p class="text-base-content/60 text-sm m-0 mt-1">"#@
        + escaped(text_or_empty(opt_text(connector.description)))
        + r#"</p></div><div class="shrink-0">"#@
        + connect_controls(connector.key@, connected, needs_setup, token_auth)
        + "</div></div>"@
        + (if token_auth && !connected {
            token_form(connector.key@)
        } else {
            Seq::<char>::empty()
        })
        + (if connected {
            tools_section(connector.key@, tools, tool_error)
        } else {
            Seq::<char>::empty()
        })
        + "</div></section>"@
}

/// Renders one connector of the store. Its tools are shown only once it is
/// connected.
pub fn render_connector_card(
    ui: &Ui,
    connector: &Connector,
    connection: Option<&Connection>,
    tools: Option<&Vec<ToolInfo>>,
    tool_error: Option<&String>,
) -> (r: Html)
    ensures
        r@ == connector_card(ui, connector, connection, tools, tool_error),
{
    let connected = connection.is_some();
    let errored = match connection {
        Some(c) => same(&c.status, "error"),
        None => false,
    };
    let needs_setup = connector.needs_setup();
    let token_auth = connector.auth == AuthKind::StaticBearer;
    let desc = string_or_empty(&connector.description);
    let logo = match ui.logo(&connector.key, 26) {
        Some(h) => h,
        None => Html::new(r#"<span class="text-2xl leading-none">"#).text(
            &string_or_empty(&connector.icon),
        ).raw("</span>"),
    };
    Html::new(r#"<section class="card border border-base-300"><div class="card-body gap-3">"#)
        .raw(r#"<div class="flex items-start gap-3"><span class="shrink-0 mt-0.5">"#)
        .html(logo)
        .raw(r#"</span><div class="min-w-0 flex-1"><div class="flex items-center gap-2 flex-wrap">"#)
        .raw(r#"<h2 class="card-title text-base m-0">"#)
        .text(&connector.name)
        .raw("</h2>")
        .html(if connected && !errored {
            Html::new(r#"<span class="badge badge-success badge-sm">Connected</span>"#)
        } else {
            Html::empty()
        })
        .html(if errored {
            Html::new(r#"<span class="badge badge-error badge-sm">Needs reconnect</span>"#)
        } else {
            Html::empty()
        })
        .html(if !connected && needs_setup {
            Html::new(r#"<span class="badge badge-ghost badge-sm">Needs admin setup</span>"#)
        } else {
            Html::empty()
        })
        .raw(r#"</div><p class="text-base-content/60 text-sm m-0 mt-1">"#)
        .text(&desc)
        .raw(r#"</p></div><div class="shrink-0">"#)
        .html(render_connect_controls(&connector.key, connected, needs_setup, token_auth))
        .raw("</div></div>")
        .html(if token_auth && !connected {
            render_token_form(&connector.key)
        } else {
            Html::empty()
        })
        .html(if connected {
            render_tools(&connector.key, tools, tool_error)
        } else {
            Html::empty()
        })
        .raw("</div></section>")
}

/// The store page, around the cards of the visible connectors.
pub open spec fn store_page(cards: Seq<Html>) -> Seq<char> {
    r#"<div class="max-w-5xl mx-auto w-full px-4 sm:px-6 pt-14 sm:pt-6 pb-6">"#@
        + r#"<h1 class="text-2xl font-bold mb-2">Integrations</h1>"#@
        + r#"<p class="text-base-content/60 text-sm mb-6">"#@
        + "Connect your own accounts so the assistant can act on your behalf — reading your email,"@
        + " calendar, files, repositories, and more. Each connection uses your own permissions and can"@
        + " be disconnected anytime.</p>"@
        + (if cards.len() == 0 {
            r#"<div class="card border border-base-300"><div class="card-body">"#@
                + r#"<p class="text-base-content/60 text-sm m-0">"#@
                + "No connectors are available yet. An administrator can enable them under Admin → Connectors."@
                + "</p></div></div>"@
        } else {
            Seq::<char>::empty()
        })
        + r#"<div class="flex flex-col gap-4">"#@
        + crate::html::concat(cards)
        + "</div></div>"@
}

/// Renders the store page.
pub fn render_body(cards: &Vec<Html>) -> (r: Html)
    ensures
        r@ == store_page(cards@),
{
    Html::new(r#"<div class="max-w-5xl mx-auto w-full px-4 sm:px-6 pt-14 sm:pt-6 pb-6">"#)
        .raw(r#"<h1 class="text-2xl font-bold mb-2">Integrations</h1>"#)
        .raw(r#"<p class="text-base-content/60 text-sm mb-6">"#)
        .raw("Connect your own accounts so the assistant can act on your behalf — reading your email,")
        .raw(" calendar, files, repositories, and more. Each connection uses your own permissions and can")
        .raw(" be disconnected anytime.</p>")
        .html(if cards.len() == 0 {
            Html::new(r#"<div class="card border border-base-300"><div class="card-body">"#)
                .raw(r#"<p class="text-base-content/60 text-sm m-0">"#)
                .raw("No connectors are available yet. An administrator can enable them under Admin → Connectors.")
                .raw("</p></div></div>")
        } else {
            Html::empty()
        })
        .raw(r#"<div class="flex flex-col gap-4">"#)
        .html(crate::html::concat_html(cards))
        .raw("</div></div>")
}

// ---------------------------------------------------------------------------
// Laws

/// A connector that a caller may not see cannot be connected either, whatever
/// its kind: the store hides it and both ways of connecting refuse it.
pub proof fn hidden_is_not_connectable(c: &Connector, role_ids: Seq<String>, wanted: AuthKind)
    requires
        !permitted(c, role_ids),
    ensures
        connect_obstacle(Some(c), role_ids, wanted) is Some,
        connect_obstacle(Some(c), role_ids, wanted)->0.forbidden(),
{
}

/// A connector that passes the check for one way of connecting is refused for
/// the other.
pub proof fn one_way_to_connect(c: &Connector, role_ids: Seq<String>)
    ensures
        !(connect_obstacle(Some(c), role_ids, AuthKind::OAuth2) is None && connect_obstacle(
            Some(c),
            role_ids,
            AuthKind::StaticBearer,
        ) is None),
{
}

/// A text is listed if and only if it is one of the list.
pub proof fn a_listed_text_is_in_the_list(list: Seq<String>, s: Seq<char>)
    ensures
        listed(list, s) <==> exists|k: int| 0 <= k < list.len() && (#[trigger] list[k])@ == s,
{
    let t = texts(list);
    if listed(list, s) {
        let k = choose|k: int| 0 <= k < t.len() && t[k] == s;
        assert(list[k]@ == s);
    }
    if exists|k: int| 0 <= k < list.len() && (#[trigger] list[k])@ == s {
        let k = choose|k: int| 0 <= k < list.len() && (#[trigger] list[k])@ == s;
        assert(t[k] == s);
    }
}

/// A connector that asks for a role is for those who have it, and every other connector
/// is for everyone.
pub proof fn a_role_opens_a_connector(c: &Connector, role_ids: Seq<String>)
    ensures
        c.required_role is None ==> permitted(c, role_ids),
        c.required_role matches Some(role) ==> (permitted(c, role_ids) <==> exists|k: int|
            0 <= k < role_ids.len() && (#[trigger] role_ids[k])@ == role@),
{
    if c.required_role is Some {
        a_listed_text_is_in_the_list(role_ids, c.required_role->0@);
    }
}

/// The store offers every connector that the user may use, in order, and no other.
pub proof fn the_store_offers_what_is_permitted(
    connectors: Seq<Connector>,
    role_ids: Seq<String>,
    c: Connector,
)
    ensures
        permitted_only(connectors, role_ids).contains(c) <==> connectors.contains(c) && permitted(
            &c,
            role_ids,
        ),
    decreases connectors.len(),
{
    if connectors.len() > 0 {
        let rest = connectors.drop_first();
        the_store_offers_what_is_permitted(rest, role_ids, c);
        let tail = permitted_only(rest, role_ids);
        let all = permitted_only(connectors, role_ids);
        if all.contains(c) {
            let k = choose|k: int| 0 <= k < all.len() && all[k] == c;
            if permitted(&connectors[0], role_ids) && k > 0 {
                assert(tail[k - 1] == c);
            }
            if !permitted(&connectors[0], role_ids) {
                assert(tail[k] == c);
            }
        }
        if tail.contains(c) {
            let k = choose|k: int| 0 <= k < tail.len() && tail[k] == c;
            if permitted(&connectors[0], role_ids) {
                assert(all[k + 1] == c);
            } else {
                assert(all[k] == c);
            }
        }
        if rest.contains(c) {
            let k = choose|k: int| 0 <= k < rest.len() && rest[k] == c;
            assert(connectors[k + 1] == c);
        }
        if connectors.contains(c) {
            let k = choose|k: int| 0 <= k < connectors.len() && connectors[k] == c;
            if k > 0 {
                assert(rest[k - 1] == c);
            } else if permitted(&c, role_ids) {
                assert(all[0] == c);
            }
        }
    }
}

/// A connector can be connected if and only if it is there and enabled, the user may use
/// it, and it is connected in that way; what stands in the way is told in this order.
pub proof fn an_obstacle_is_told(
    connector: Option<&Connector>,
    role_ids: Seq<String>,
    wanted: AuthKind,
)
    ensures
        connect_obstacle(connector, role_ids, wanted) is None <==> connector is Some
            && connector->0.enabled && permitted(connector->0, role_ids) && connector->0.auth
            == wanted,
        connector is None || !connector->0.enabled ==> connect_obstacle(connector, role_ids, wanted)
            == Some(Refusal::UnknownOrDisabled),
        connector is Some && connector->0.enabled && !permitted(connector->0, role_ids)
            ==> connect_obstacle(connector, role_ids, wanted) == Some(Refusal::NoAccess),
        connector is Some && connector->0.enabled && permitted(connector->0, role_ids)
            && connector->0.auth != AuthKind::OAuth2 ==> connect_obstacle(
            connector,
            role_ids,
            AuthKind::OAuth2,
        ) == Some(Refusal::NotOauth),
        connector is Some && connector->0.enabled && permitted(connector->0, role_ids)
            && connector->0.auth != AuthKind::StaticBearer ==> connect_obstacle(
            connector,
            role_ids,
            AuthKind::StaticBearer,
        ) == Some(Refusal::NotTokenBased),
{
}

/// A refusal is answered as forbidden where the user is not meant to know or to go on,
/// and has its own words.
pub proof fn refusals_have_their_words(a: Refusal)
    ensures
        a.forbidden() <==> a == Refusal::UnknownOrDisabled || a == Refusal::NoAccess || a
            == Refusal::StateMismatch || a == Refusal::UnknownConnector,
        Refusal::UnknownOrDisabled.words() == "unknown or disabled connector"@,
        Refusal::NoAccess.words() == "you don't have access to this connector"@,
        Refusal::NotOauth.words() == "this connector does not use OAuth"@,
        Refusal::NotTokenBased.words() == "this connector is not token-based"@,
        Refusal::NeedsClientId.words()
            == "this connector needs setup: an admin must configure an OAuth client id."@,
        Refusal::MissingCodeOrState.words() == "callback missing code or state"@,
        Refusal::StateMismatch.words() == "authorization state did not match your session"@,
        Refusal::ConnectorGone.words() == "the connector no longer exists"@,
        Refusal::MissingClientId.words() == "connector is missing its OAuth client id"@,
        Refusal::TokenRequired.words() == "a token is required"@,
        Refusal::InvalidMode.words() == "invalid permission mode"@,
        Refusal::UnknownConnector.words() == "unknown connector"@,
{
}

/// A configured client is used; without one, a connector that registers by itself
/// registers where the provider says, and every other is refused with what it lacks.
pub proof fn a_configured_client_is_used(
    c: &Connector,
    registration_url: &Option<String>,
    r: ClientPlan,
)
    requires
        call_ensures(plan_client, (c, registration_url), r),
    ensures
        c.client_id matches Some(id) ==> r == ClientPlan::Configured(id),
        c.client_id is None && c.use_dcr && *registration_url is Some ==> r == ClientPlan::Register(
            registration_url->0,
        ),
        c.client_id is None && c.use_dcr && *registration_url is None ==> r == ClientPlan::Refused(
            Refusal::NoRegistration,
        ),
        c.client_id is None && !c.use_dcr ==> r == ClientPlan::Refused(Refusal::NeedsClientId),
{
}

/// What is remembered of a sign-in is what it was begun with, each in its place.
pub proof fn a_pending_sign_in_is_remembered(
    state: String,
    user_id: String,
    key: String,
    verifier: String,
    redirect_uri: String,
    token_url: String,
    connector: &Connector,
    registered_id: Option<String>,
    secret: Option<Sealed>,
    r: PendingOauth,
)
    requires
        call_ensures(
            pending_row,
            (
                state,
                user_id,
                key,
                verifier,
                redirect_uri,
                token_url,
                connector,
                registered_id,
                secret,
            ),
            r,
        ),
    ensures
        r.state == state,
        r.user_id == user_id,
        r.connector_key == key,
        r.pkce_verifier == verifier,
        r.redirect_uri == redirect_uri,
        r.token_url == token_url,
        r.resource == Some(connector.url),
        r.dcr_client_id == registered_id,
        secret matches Some(s) ==> r.dcr_client_secret_ct == Some(s.ciphertext)
            && r.dcr_client_secret_nonce == Some(s.nonce),
        secret is None ==> r.dcr_client_secret_ct is None && r.dcr_client_secret_nonce is None,
{
}

/// A provider that calls back with an error is told as such, whatever else it sends; one
/// that sends a code and a state is answered with an exchange of that code, and any other
/// is refused.
pub proof fn a_callback_is_read(params: CallbackParams, r: CallbackOutcome)
    requires
        call_ensures(read_callback, (params,), r),
    ensures
        params.error is Some ==> r is Provider && r->Provider_0@ == "provider returned an error: "@
            + params.error->0@ + " "@ + (match params.error_description {
            Some(d) => d@,
            None => Seq::empty(),
        }),
        params.error is None && params.code is Some && params.state is Some ==> r == (
        CallbackOutcome::Exchange { code: params.code->0, state: params.state->0 }),
        params.error is None && (params.code is None || params.state is None) ==> r
            == CallbackOutcome::Refused(Refusal::MissingCodeOrState),
{
}

/// A sign-in is finished only by the user who began it, and only once.
pub proof fn a_sign_in_is_finished_by_its_user(
    pending: Option<&PendingOauth>,
    user_id: &str,
    r: Option<Refusal>,
)
    requires
        call_ensures(check_pending, (pending, user_id), r),
    ensures
        pending is None ==> r == Some(Refusal::Expired),
        pending is Some && pending->0.user_id@ != user_id@ ==> r == Some(Refusal::StateMismatch),
        pending is Some && pending->0.user_id@ == user_id@ ==> r is None,
{
}

/// A sign-in goes on with the client that was registered for it, else with that of the
/// catalog, and asks for the resource that it was begun for.
pub proof fn a_sign_in_keeps_its_client(
    pending: &PendingOauth,
    c: &Connector,
    r: Credentials,
    resource: String,
)
    requires
        call_ensures(choose_credentials, (pending, c), r),
        call_ensures(token_resource, (pending, c), resource),
    ensures
        pending.dcr_client_id matches Some(id) ==> r == (Credentials::Registered {
            client_id: id,
            sealed: pending.dcr_client_secret_ct is Some && pending.dcr_client_secret_nonce is Some,
        }),
        pending.dcr_client_id is None && c.client_id is Some ==> r == (Credentials::Catalog {
            client_id: c.client_id->0,
        }),
        pending.dcr_client_id is None && c.client_id is None ==> r == Credentials::Refused(
            Refusal::MissingClientId,
        ),
        pending.resource matches Some(res) ==> resource == res,
        pending.resource is None ==> resource == c.url,
{
}

/// A connection is stored for the user and the connector of the sign-in, with the tokens
/// that were given and sealed, the scopes that were granted, or those asked for when the
/// provider names none, and where to refresh it.
pub proof fn a_connection_is_stored_as_granted(
    user_id: String,
    pending: PendingOauth,
    c: &Connector,
    access: Sealed,
    refresh: Option<Sealed>,
    expires_at: Option<i64>,
    granted: Vec<String>,
    r: NewConnection,
)
    requires
        call_ensures(
            oauth_connection,
            (user_id, pending, c, access, refresh, expires_at, granted),
            r,
        ),
    ensures
        r.user_id == user_id,
        r.connector_key == pending.connector_key,
        r.access_token_ct == access.ciphertext,
        r.access_token_nonce == access.nonce,
        refresh matches Some(s) ==> r.refresh_token_ct == Some(s.ciphertext)
            && r.refresh_token_nonce == Some(s.nonce),
        refresh is None ==> r.refresh_token_ct is None && r.refresh_token_nonce is None,
        r.token_expires_at == expires_at,
        granted@.len() > 0 ==> r.scopes@ == granted@,
        granted@.len() == 0 ==> r.scopes@ == c.scopes@,
        r.dcr_client_id == pending.dcr_client_id,
        r.dcr_client_secret_ct == pending.dcr_client_secret_ct,
        r.dcr_client_secret_nonce == pending.dcr_client_secret_nonce,
        r.token_url == Some(pending.token_url),
{
}

/// A pasted token is taken without the blanks around it, and is stored for the user and
/// the connector that it was pasted for, without anything to refresh it.
pub proof fn a_pasted_token_is_stored(
    token: &str,
    read: Result<String, Refusal>,
    user_id: String,
    key: String,
    sealed: Sealed,
    r: NewConnection,
)
    requires
        call_ensures(read_token, (token,), read),
        call_ensures(token_connection, (user_id, key, sealed), r),
    ensures
        trimmed(token@).len() == 0 ==> read == Err::<String, Refusal>(Refusal::TokenRequired),
        trimmed(token@).len() > 0 ==> read is Ok && read->Ok_0@ == trimmed(token@),
        r.user_id == user_id,
        r.connector_key == key,
        r.access_token_ct == sealed.ciphertext,
        r.access_token_nonce == sealed.nonce,
        r.refresh_token_ct is None && r.refresh_token_nonce is None && r.token_expires_at is None,
        r.dcr_client_id is None && r.dcr_client_secret_ct is None && r.dcr_client_secret_nonce
            is None && r.token_url is None,
{
}

/// The permissions are called by their names; every other word is refused.
pub proof fn a_mode_is_read_as_named(mode: &str, r: Result<ToolMode, Refusal>)
    requires
        call_ensures(read_mode, (mode,), r),
    ensures
        mode@ == "always"@ <==> r == Ok::<ToolMode, Refusal>(ToolMode::Always),
        mode@ == "ask"@ <==> r == Ok::<ToolMode, Refusal>(ToolMode::Ask),
        mode@ == "off"@ <==> r == Ok::<ToolMode, Refusal>(ToolMode::Off),
        r matches Err(why) ==> why == Refusal::InvalidMode,
        ToolMode::Always.name() == "always"@,
        ToolMode::Ask.name() == "ask"@,
        ToolMode::Off.name() == "off"@,
{
    mode_reads_back(ToolMode::Always);
    mode_reads_back(ToolMode::Ask);
    mode_reads_back(ToolMode::Off);
}

/// One click sets every tool of a connector, each under its name, to the same permission.
pub proof fn one_click_sets_every_tool(
    tools: &Vec<ToolInfo>,
    mode: ToolMode,
    r: Vec<(String, ToolMode)>,
    i: int,
)
    requires
        call_ensures(set_all, (tools, mode), r),
        0 <= i < tools@.len(),
    ensures
        r@.len() == tools@.len(),
        r@[i] == (tools@[i].remote_name, mode),
{
    assert(r@[i].0 == tools@[i].remote_name);
}

/// What went wrong with a connection is told with what was being done.
pub proof fn a_connection_fault_says_what_failed(fault: ConnectionFault)
    ensures
        fault.doing() == match fault {
            ConnectionFault::Sealing => "sealing token: "@,
            ConnectionFault::Saving => "saving connection: "@,
            ConnectionFault::Disconnecting => "disconnecting: "@,
            ConnectionFault::Permission => "saving tool permission: "@,
            ConnectionFault::Permissions => "saving permissions: "@,
            ConnectionFault::Listing => "listing tools: "@,
        },
{
}

proof fn lemma_row_shows_the_tool()
    ensures
        ends_in(
            r#"<div class="flex items-center gap-2"><code class="text-xs font-mono">"#@,
            r#"<code class="text-xs font-mono">"#@,
        ),
        starts_as(
            r#"</code><span class="badge badge-ghost badge-xs">"#@,
            "</code>"@,
        ),
        ends_in(
            r#"</form><form method="post" action=""#@,
            r#"<form method="post" action=""#@,
        ),
        ends_in(
            r#"<div class="join shrink-0"><form method="post" action=""#@,
            r#"<form method="post" action=""#@,
        ),
        starts_as(
            r#"" class=""#@,
            r#"" class="#@,
        ),
        starts_as(
            r#"" class="m-0 join-item">"#@,
            r#"" class="#@,
        ),
        starts_as(
            r#"</button><input type="hidden" name="tool" value=""#@,
            "</button>"@,
        ),
{
    assert(ends_in(r#"<div class="flex items-center gap-2"><code class="text-xs font-mono">"#@, r#"<code class="text-xs font-mono">"#@)) by {
        reveal(ends_in);
        reveal_strlit(r#"<div class="flex items-center gap-2"><code class="text-xs font-mono">"#);
        reveal_strlit(r#"<code class="text-xs font-mono">"#);
        assert(r#"<div class="flex items-center gap-2"><code class="text-xs font-mono">"#@.skip(37) =~= r#"<code class="text-xs font-mono">"#@);
    }
    assert(starts_as(r#"</code><span class="badge badge-ghost badge-xs">"#@, "</code>"@)) by {
        reveal(starts_as);
        reveal_strlit(r#"</code><span class="badge badge-ghost badge-xs">"#);
        reveal_strlit("</code>");
        assert(r#"</code><span class="badge badge-ghost badge-xs">"#@.take(7) =~= "</code>"@);
    }
    assert(ends_in(r#"</form><form method="post" action=""#@, r#"<form method="post" action=""#@)) by {
        reveal(ends_in);
        reveal_strlit(r#"</form><form method="post" action=""#);
        reveal_strlit(r#"<form method="post" action=""#);
        assert(r#"</form><form method="post" action=""#@.skip(7) =~= r#"<form method="post" action=""#@);
    }
    assert(ends_in(r#"<div class="join shrink-0"><form method="post" action=""#@, r#"<form method="post" action=""#@)) by {
        reveal(ends_in);
        reveal_strlit(r#"<div class="join shrink-0"><form method="post" action=""#);
        reveal_strlit(r#"<form method="post" action=""#);
        assert(r#"<div class="join shrink-0"><form method="post" action=""#@.skip(27) =~= r#"<form method="post" action=""#@);
    }
    assert(starts_as(r#"" class=""#@, r#"" class="#@)) by {
        reveal(starts_as);
        reveal_strlit(r#"" class=""#);
        reveal_strlit(r#"" class="#);
        assert(r#"" class=""#@.take(8) =~= r#"" class="#@);
    }
    assert(starts_as(r#"" class="m-0 join-item">"#@, r#"" class="#@)) by {
        reveal(starts_as);
        reveal_strlit(r#"" class="m-0 join-item">"#);
        reveal_strlit(r#"" class="#);
        assert(r#"" class="m-0 join-item">"#@.take(8) =~= r#"" class="#@);
    }
    assert(starts_as(r#"</button><input type="hidden" name="tool" value=""#@, "</button>"@)) by {
        reveal(starts_as);
        reveal_strlit(r#"</button><input type="hidden" name="tool" value=""#);
        reveal_strlit("</button>");
        assert(r#"</button><input type="hidden" name="tool" value=""#@.take(9) =~= "</button>"@);
    }
}

/// The row of a tool shows its name, what it does and whether it only reads. Its buttons are
/// about that tool of that connector, and the one of its permission is marked.
#[verifier::rlimit(20)]
pub proof fn row_shows_the_tool(key: Seq<char>, tool: ToolInfo)
    ensures
        ({
            let page = tool_row(key, tool);
            &&& shows(page, r#"<code class="text-xs font-mono">"#@ + escaped(tool.remote_name@) + "</code>"@)
            &&& tool.read_only ==> shows(page, r#"</code><span class="badge badge-ghost badge-xs">"#@ + "read"@ + "</span></div>"@)
            &&& !tool.read_only ==> shows(page, r#"</code><span class="badge badge-ghost badge-xs">"#@ + "write"@ + "</span></div>"@)
            &&& tool.description@.len() > 0 ==> shows(page, r#"<p class="text-xs text-base-content/50 m-0 mt-0.5 line-clamp-1">"#@ + escaped(tool.description@) + "</p>"@)
            &&& shows(page, r#"<form method="post" action=""#@ + escaped("/integrations/"@ + key + "/tools/mode"@) + r#"" class="#@)
            &&& shows(page, r#"</button><input type="hidden" name="tool" value=""#@ + escaped(tool.remote_name@) + r#"">"#@)
            &&& tool.mode == ToolMode::Always ==> shows(page, r#"<button type="submit" name="mode" value=""#@ + escaped("always"@) + r#"" class=""#@ + "btn btn-xs btn-primary"@ + r#"">"#@ + escaped("Always"@) + "</button>"@)
            &&& tool.mode != ToolMode::Always ==> shows(page, r#"<button type="submit" name="mode" value=""#@ + escaped("always"@) + r#"" class=""#@ + "btn btn-xs btn-ghost"@ + r#"">"#@ + escaped("Always"@) + "</button>"@)
            &&& tool.mode == ToolMode::Ask ==> shows(page, r#"<button type="submit" name="mode" value=""#@ + escaped("ask"@) + r#"" class=""#@ + "btn btn-xs btn-primary"@ + r#"">"#@ + escaped("Ask"@) + "</button>"@)
            &&& tool.mode != ToolMode::Ask ==> shows(page, r#"<button type="submit" name="mode" value=""#@ + escaped("ask"@) + r#"" class=""#@ + "btn btn-xs btn-ghost"@ + r#"">"#@ + escaped("Ask"@) + "</button>"@)
            &&& tool.mode == ToolMode::Off ==> shows(page, r#"<button type="submit" name="mode" value=""#@ + escaped("off"@) + r#"" class=""#@ + "btn btn-xs btn-primary"@ + r#"">"#@ + escaped("Off"@) + "</button>"@)
            &&& tool.mode != ToolMode::Off ==> shows(page, r#"<button type="submit" name="mode" value=""#@ + escaped("off"@) + r#"" class=""#@ + "btn btn-xs btn-ghost"@ + r#"">"#@ + escaped("Off"@) + "</button>"@)
        }),
{
    broadcast use group_shows;

    lemma_row_shows_the_tool();
    reveal(tool_row);
}

proof fn lemma_a_list_sets_all_tools()
    ensures
        ends_in(
            r#"<span class="text-xs font-medium text-base-content/70">Tool permissions ("#@,
            "Tool permissions ("@,
        ),
        starts_as(
            r#")</span><div class="flex items-center gap-1">"#@,
            ")</span>"@,
        ),
{
    assert(ends_in(r#"<span class="text-xs font-medium text-base-content/70">Tool permissions ("#@, "Tool permissions ("@)) by {
        reveal(ends_in);
        reveal_strlit(r#"<span class="text-xs font-medium text-base-content/70">Tool permissions ("#);
        reveal_strlit("Tool permissions (");
        assert(r#"<span class="text-xs font-medium text-base-content/70">Tool permissions ("#@.skip(55) =~= "Tool permissions ("@);
    }
    assert(starts_as(r#")</span><div class="flex items-center gap-1">"#@, ")</span>"@)) by {
        reveal(starts_as);
        reveal_strlit(r#")</span><div class="flex items-center gap-1">"#);
        reveal_strlit(")</span>");
        assert(r#")</span><div class="flex items-center gap-1">"#@.take(8) =~= ")</span>"@);
    }
}

/// The list of tools counts them, and sets all of them at once to the permission of the
/// button.
pub proof fn a_list_sets_all_tools(key: Seq<char>, tools: Seq<ToolInfo>)
    ensures
        ({
            let page = tools_list(key, tools);
            &&& shows(page, "Tool permissions ("@ + decimal(tools.len()) + ")</span>"@)
            &&& shows(page, r#"<form method="post" action="/integrations/"#@ + escaped(key) + r#"/tools/all" class="m-0"><button type="submit" name="mode" value=""#@ + escaped("always"@) + r#"" class="btn btn-xs btn-ghost">"#@ + escaped("Always"@) + "</button></form>"@)
            &&& shows(page, r#"<form method="post" action="/integrations/"#@ + escaped(key) + r#"/tools/all" class="m-0"><button type="submit" name="mode" value=""#@ + escaped("ask"@) + r#"" class="btn btn-xs btn-ghost">"#@ + escaped("Ask"@) + "</button></form>"@)
            &&& shows(page, r#"<form method="post" action="/integrations/"#@ + escaped(key) + r#"/tools/all" class="m-0"><button type="submit" name="mode" value=""#@ + escaped("off"@) + r#"" class="btn btn-xs btn-ghost">"#@ + escaped("Off"@) + "</button></form>"@)
        }),
{
    broadcast use group_shows;

    lemma_a_list_sets_all_tools();
}

proof fn lemma_card_shows_the_connector()
    ensures
        ends_in(
            r#"</div><p class="text-base-content/60 text-sm m-0 mt-1">"#@,
            r#"<p class="text-base-content/60 text-sm m-0 mt-1">"#@,
        ),
        starts_as(
            r#"</p></div><div class="shrink-0">"#@,
            "</p>"@,
        ),
        ends_in(
            r#" (re-auth / retry)">Reconnect</button></form><form method="post" action="/integrations/"#@,
            r#"<form method="post" action="/integrations/"#@,
        ),
        ends_in(
            r#"<div class="flex items-center gap-2"><form method="post" action="/integrations/"#@,
            r#"<form method="post" action="/integrations/"#@,
        ),
        starts_as(
            r#"/disconnect" class="m-0" onsubmit="return confirm(&#39;Disconnect this integration? Your"#@,
            r#"/disconnect" class="#@,
        ),
        starts_as(
            r#"/token" class="border-t border-base-300 pt-3 flex items-end gap-2 flex-wrap">"#@,
            r#"/token" class="#@,
        ),
        starts_as(
            r#"/connect" class="m-0"><button type="submit" class="btn btn-sm btn-primary">Connect</button>"#@,
            r#"/connect" class="#@,
        ),
{
    assert(ends_in(r#"</div><p class="text-base-content/60 text-sm m-0 mt-1">"#@, r#"<p class="text-base-content/60 text-sm m-0 mt-1">"#@)) by {
        reveal(ends_in);
        reveal_strlit(r#"</div><p class="text-base-content/60 text-sm m-0 mt-1">"#);
        reveal_strlit(r#"<p class="text-base-content/60 text-sm m-0 mt-1">"#);
        assert(r#"</div><p class="text-base-content/60 text-sm m-0 mt-1">"#@.skip(6) =~= r#"<p class="text-base-content/60 text-sm m-0 mt-1">"#@);
    }
    assert(starts_as(r#"</p></div><div class="shrink-0">"#@, "</p>"@)) by {
        reveal(starts_as);
        reveal_strlit(r#"</p></div><div class="shrink-0">"#);
        reveal_strlit("</p>");
        assert(r#"</p></div><div class="shrink-0">"#@.take(4) =~= "</p>"@);
    }
    assert(ends_in(r#" (re-auth / retry)">Reconnect</button></form><form method="post" action="/integrations/"#@, r#"<form method="post" action="/integrations/"#@)) by {
        reveal(ends_in);
        reveal_strlit(r#" (re-auth / retry)">Reconnect</button></form><form method="post" action="/integrations/"#);
        reveal_strlit(r#"<form method="post" action="/integrations/"#);
        assert(r#" (re-auth / retry)">Reconnect</button></form><form method="post" action="/integrations/"#@.skip(45) =~= r#"<form method="post" action="/integrations/"#@);
    }
    assert(ends_in(r#"<div class="flex items-center gap-2"><form method="post" action="/integrations/"#@, r#"<form method="post" action="/integrations/"#@)) by {
        reveal(ends_in);
        reveal_strlit(r#"<div class="flex items-center gap-2"><form method="post" action="/integrations/"#);
        reveal_strlit(r#"<form method="post" action="/integrations/"#);
        assert(r#"<div class="flex items-center gap-2"><form method="post" action="/integrations/"#@.skip(37) =~= r#"<form method="post" action="/integrations/"#@);
    }
    assert(starts_as(r#"/disconnect" class="m-0" onsubmit="return confirm(&#39;Disconnect this integration? Your"#@, r#"/disconnect" class="#@)) by {
        reveal(starts_as);
        reveal_strlit(r#"/disconnect" class="m-0" onsubmit="return confirm(&#39;Disconnect this integration? Your"#);
        reveal_strlit(r#"/disconnect" class="#);
        assert(r#"/disconnect" class="m-0" onsubmit="return confirm(&#39;Disconnect this integration? Your"#@.take(19) =~= r#"/disconnect" class="#@);
    }
    assert(starts_as(r#"/token" class="border-t border-base-300 pt-3 flex items-end gap-2 flex-wrap">"#@, r#"/token" class="#@)) by {
        reveal(starts_as);
        reveal_strlit(r#"/token" class="border-t border-base-300 pt-3 flex items-end gap-2 flex-wrap">"#);
        reveal_strlit(r#"/token" class="#);
        assert(r#"/token" class="border-t border-base-300 pt-3 flex items-end gap-2 flex-wrap">"#@.take(14) =~= r#"/token" class="#@);
    }
    assert(starts_as(r#"/connect" class="m-0"><button type="submit" class="btn btn-sm btn-primary">Connect</button>"#@, r#"/connect" class="#@)) by {
        reveal(starts_as);
        reveal_strlit(r#"/connect" class="m-0"><button type="submit" class="btn btn-sm btn-primary">Connect</button>"#);
        reveal_strlit(r#"/connect" class="#);
        assert(r#"/connect" class="m-0"><button type="submit" class="btn btn-sm btn-primary">Connect</button>"#@.take(16) =~= r#"/connect" class="#@);
    }
}

/// The card of a connector shows its name and description, and whether it is connected, needs
/// a new sign-in or an administrator.
#[verifier::rlimit(30)]
pub proof fn card_shows_the_connector(ui: &Ui, c: &Connector, connection: Option<&Connection>, tools: Option<&Vec<ToolInfo>>, error: Option<&String>)
    ensures
        ({
            let page = connector_card(ui, c, connection, tools, error);
            &&& shows(page, r#"<h2 class="card-title text-base m-0">"#@ + escaped(c.name@) + "</h2>"@)
            &&& shows(page, r#"<p class="text-base-content/60 text-sm m-0 mt-1">"#@ + escaped(text_or_empty(opt_text(c.description))) + "</p>"@)
            &&& connection is Some && connection->0.status@ != "error"@ ==> shows(page, r#"<span class="badge badge-success badge-sm">Connected</span>"#@)
            &&& connection is Some && connection->0.status@ == "error"@ ==> shows(page, r#"<span class="badge badge-error badge-sm">Needs reconnect</span>"#@)
            &&& connection is None && c.auth == AuthKind::OAuth2 && !c.use_dcr && c.client_id is None ==> shows(page, r#"<span class="badge badge-ghost badge-sm">Needs admin setup</span>"#@)
            &&& connection is Some && c.auth == AuthKind::StaticBearer ==> shows(page, r#"<form method="post" action="/integrations/"#@ + escaped(c.key@) + "/retry"@ + r#"" class="m-0">"#@)
            &&& connection is Some && c.auth != AuthKind::StaticBearer ==> shows(page, r#"<form method="post" action="/integrations/"#@ + escaped(c.key@) + "/connect"@ + r#"" class="m-0">"#@)
            &&& connection is Some ==> shows(page, r#"<form method="post" action="/integrations/"#@ + escaped(c.key@) + r#"/disconnect" class="#@)
            &&& connection is Some ==> shows(page, tools_section(c.key@, tools, error))
            &&& connection is None && c.auth == AuthKind::StaticBearer ==> shows(page, r#"<form method="post" action="/integrations/"#@ + escaped(c.key@) + r#"/token" class="#@)
            &&& connection is None && c.auth == AuthKind::OAuth2 && !c.use_dcr && c.client_id is None ==> shows(page, r#"<button type="button" class="btn btn-sm" disabled="disabled">Connect</button>"#@)
            &&& connection is None && c.auth != AuthKind::StaticBearer && !(c.auth == AuthKind::OAuth2 && !c.use_dcr && c.client_id is None) ==> shows(page, r#"<form method="post" action="/integrations/"#@ + escaped(c.key@) + r#"/connect" class="#@)
        }),
{
    broadcast use group_shows;

    lemma_card_shows_the_connector();
}

/// Every tool of a connected connector has its row, and a failure to list them is told.
pub proof fn every_tool_is_listed(
    key: Seq<char>,
    tools: &Vec<ToolInfo>,
    error: Option<&String>,
    i: int,
)
    ensures
        0 <= i < tools@.len() ==> shows(
            tools_section(key, Some(tools), error),
            tool_row(key, tools@[i]),
        ),
        error matches Some(e) ==> shows(tools_section(key, None, error), escaped(e@)),
{
    broadcast use group_shows;

    if 0 <= i < tools@.len() {
        lemma_tool_is_listed(key, tools@, i);
    }
}

proof fn lemma_tool_is_listed(key: Seq<char>, tools: Seq<ToolInfo>, i: int)
    requires
        0 <= i < tools.len(),
    ensures
        shows(tool_rows(key, tools), tool_row(key, tools[i])),
    decreases tools.len(),
{
    broadcast use group_shows;

    if i < tools.len() - 1 {
        lemma_tool_is_listed(key, tools.drop_last(), i);
    }
}

/// Every card is on the page of the store.
pub proof fn every_card_is_in_the_store(cards: Seq<Html>, i: int)
    requires
        0 <= i < cards.len(),
    ensures
        shows(store_page(cards), cards[i]@),
{
    broadcast use group_shows;

    lemma_card_is_listed(cards, i);
}

proof fn lemma_card_is_listed(cards: Seq<Html>, i: int)
    requires
        0 <= i < cards.len(),
    ensures
        shows(crate::html::concat(cards), cards[i]@),
    decreases cards.len(),
{
    broadcast use group_shows;

    if i < cards.len() - 1 {
        lemma_card_is_listed(cards.drop_last(), i);
    }
}

proof fn lemma_a_tool_is_switched_between_its_modes()
    ensures
        ends_in(
            r#"</form><form method="post" action=""#@,
            r#"<form method="post" action=""#@,
        ),
        ends_in(
            r#"<div class="join shrink-0"><form method="post" action=""#@,
            r#"<form method="post" action=""#@,
        ),
{
    assert(ends_in(r#"</form><form method="post" action=""#@, r#"<form method="post" action=""#@)) by {
        reveal(ends_in);
        reveal_strlit(r#"</form><form method="post" action=""#);
        reveal_strlit(r#"<form method="post" action=""#);
        assert(r#"</form><form method="post" action=""#@.skip(7) =~= r#"<form method="post" action=""#@);
    }
    assert(ends_in(r#"<div class="join shrink-0"><form method="post" action=""#@, r#"<form method="post" action=""#@)) by {
        reveal(ends_in);
        reveal_strlit(r#"<div class="join shrink-0"><form method="post" action=""#);
        reveal_strlit(r#"<form method="post" action=""#);
        assert(r#"<div class="join shrink-0"><form method="post" action=""#@.skip(27) =~= r#"<form method="post" action=""#@);
    }
}

/// Each mode of a tool has its button, which posts the mode and the tool; the current one is
/// set off.
pub proof fn a_tool_is_switched_between_its_modes(action: Seq<char>, tool: Seq<char>, current: ToolMode)
    ensures
        ({
            let page = mode_picker(action, tool, current);
            &&& shows(page, r#"<form method="post" action=""#@ + escaped(action) + r#"" class="m-0 join-item">"#@)
            &&& shows(page, mode_button(ToolMode::Always, "Always"@, tool, current))
            &&& shows(page, mode_button(ToolMode::Ask, "Ask"@, tool, current))
            &&& shows(page, mode_button(ToolMode::Off, "Off"@, tool, current))
        }),
{
    broadcast use group_shows;

    lemma_a_tool_is_switched_between_its_modes();
}

proof fn lemma_a_mode_button_posts_its_mode()
    ensures
        starts_as(
            r#"</button><input type="hidden" name="tool" value=""#@,
            "</button>"@,
        ),
        ends_in(
            r#"</button><input type="hidden" name="tool" value=""#@,
            r#"<input type="hidden" name="tool" value=""#@,
        ),
{
    assert(starts_as(r#"</button><input type="hidden" name="tool" value=""#@, "</button>"@)) by {
        reveal(starts_as);
        reveal_strlit(r#"</button><input type="hidden" name="tool" value=""#);
        reveal_strlit("</button>");
        assert(r#"</button><input type="hidden" name="tool" value=""#@.take(9) =~= "</button>"@);
    }
    assert(ends_in(r#"</button><input type="hidden" name="tool" value=""#@, r#"<input type="hidden" name="tool" value=""#@)) by {
        reveal(ends_in);
        reveal_strlit(r#"</button><input type="hidden" name="tool" value=""#);
        reveal_strlit(r#"<input type="hidden" name="tool" value=""#);
        assert(r#"</button><input type="hidden" name="tool" value=""#@.skip(9) =~= r#"<input type="hidden" name="tool" value=""#@);
    }
}

/// A button posts its mode for its tool, and is set off where the mode is the current one.
pub proof fn a_mode_button_posts_its_mode(mode: ToolMode, label: Seq<char>, tool: Seq<char>, current: ToolMode)
    ensures
        ({
            let page = mode_button(mode, label, tool, current);
            &&& shows(page, r#"<button type="submit" name="mode" value=""#@ + escaped(mode.name()) + r#"" class=""#@)
            &&& mode == current ==> shows(page, r#"" class=""#@ + "btn btn-xs btn-primary"@ + r#"">"#@)
            &&& mode != current ==> shows(page, r#"" class=""#@ + "btn btn-xs btn-ghost"@ + r#"">"#@)
            &&& shows(page, r#"">"#@ + escaped(label) + "</button>"@)
            &&& shows(page, r#"<input type="hidden" name="tool" value=""#@ + escaped(tool) + r#"">"#@)
        }),
{
    broadcast use group_shows;

    lemma_a_mode_button_posts_its_mode();
}

} // verus!
