//! Connecting an account over OAuth, step by step.
//!
//! A connection is made in two requests. The first finds out where the provider
//! authorizes, chooses or registers a client, remembers the authorization and
//! sends the user to the provider. The second takes up the remembered
//! authorization when the user comes back, redeems the code, seals the tokens and
//! stores them. [`ConnectFlow::next`] and [`CallbackFlow::next`] say what is done
//! after each event; whoever runs them does that and hands back the next event.
use crate::connectors::{callback_address, callback_uri, AuthKind, Connector, Sealed};
use crate::integrations::{
    check_connect, check_pending, choose_credentials, connect_obstacle, oauth_connection,
    pending_row, plan_client, read_callback, provider_words, token_resource, CallbackOutcome,
    CallbackParams, ClientPlan, Credentials, NewConnection, PendingOauth, Refusal,
};
use crate::text::{clone_list, clone_opt, opt_text, text_or_empty};
use vstd::prelude::*;

verus! {

/// What went wrong, and with which error.
pub open spec fn failure(what: Seq<char>, error: Seq<char>) -> Seq<char> {
    what + ": "@ + error
}

fn write_failure(what: &str, error: &str) -> (r: String)
    ensures
        r@ == failure(what@, error@),
{
    let mut out = what.to_owned();
    out.append(": ");
    out.append(error);
    out
}

// ---------------------------------------------------------------------------
// Going to the provider

/// Where a provider does what.
pub struct Endpoints {
    pub authorize_url: String,
    pub token_url: String,
    pub registration_url: Option<String>,
}

/// The client of an authorization.
pub struct Client {
    pub id: String,
    /// Whether it was registered for this authorization.
    pub registered: bool,
    pub secret: Option<Sealed>,
}

/// What the first request waits for.
pub enum ConnectStep {
    /// The connector, for someone with these roles.
    Catalog { role_ids: Vec<String> },
    /// Where its provider does what.
    Discovery { connector: Connector },
    /// A client of the gateway.
    Registration { connector: Connector, endpoints: Endpoints },
    /// The sealed secret of that client.
    Secret { connector: Connector, endpoints: Endpoints, client_id: String },
    /// Secrets that only this authorization knows.
    Draw { connector: Connector, endpoints: Endpoints, client: Client },
    /// The address that the user is sent to.
    Address {
        connector: Connector,
        endpoints: Endpoints,
        client: Client,
        verifier: String,
        state: String,
    },
    /// The remembered authorization.
    Memory { url: String },
    /// Nothing more.
    Over,
}

/// The first request.
pub struct ConnectFlow {
    pub user_id: String,
    pub key: String,
    pub redirect_uri: String,
    pub step: ConnectStep,
}

/// What happened.
pub enum ConnectEvent {
    /// The catalog was asked.
    Found { connector: Option<Connector> },
    Discovered { endpoints: Endpoints },
    DiscoveryFailed { error: String },
    Registered { client_id: String, secret: Option<String> },
    RegistrationFailed { error: String },
    Sealed { sealed: Sealed },
    SealingFailed { error: String },
    Drawn { verifier: String, challenge: String, state: String },
    Built { url: String },
    BuildingFailed { error: String },
    Remembered,
    RememberingFailed { error: String },
}

/// What is to be done.
pub enum ConnectAction {
    Discover {
        url: String,
        authorize_url: Option<String>,
        token_url: Option<String>,
        registration_url: Option<String>,
    },
    Register { at: String, redirect_uri: String, client_name: String, scopes: Vec<String> },
    Seal { secret: String },
    Draw,
    Build {
        at: String,
        client_id: String,
        redirect_uri: String,
        scopes: Vec<String>,
        state: String,
        challenge: String,
        resource: String,
    },
    Remember { pending: PendingOauth },
    /// Send the user to the provider.
    Leave { url: String },
    Refuse { why: Refusal },
    Fail { words: String },
}

impl ConnectFlow {
    /// Whether an event answers what the request waits for.
    pub open spec fn expects(self, event: ConnectEvent) -> bool {
        match self.step {
            ConnectStep::Catalog { .. } => event is Found,
            ConnectStep::Discovery { .. } => event is Discovered || event is DiscoveryFailed,
            ConnectStep::Registration { .. } => event is Registered || event is RegistrationFailed,
            ConnectStep::Secret { .. } => event is Sealed || event is SealingFailed,
            ConnectStep::Draw { .. } => event is Drawn,
            ConnectStep::Address { .. } => event is Built || event is BuildingFailed,
            ConnectStep::Memory { .. } => event is Remembered || event is RememberingFailed,
            ConnectStep::Over => false,
        }
    }

    /// Whether the same request goes on.
    pub open spec fn goes_on(self, next: ConnectFlow) -> bool {
        next.user_id == self.user_id && next.key == self.key && next.redirect_uri
            == self.redirect_uri
    }
}

/// The end, with a refusal.
pub open spec fn connect_refused(next: ConnectFlow, action: ConnectAction, why: Refusal) -> bool {
    next.step is Over && action == (ConnectAction::Refuse { why })
}

/// The end, with an error.
pub open spec fn connect_failed(
    next: ConnectFlow,
    action: ConnectAction,
    what: Seq<char>,
    error: Seq<char>,
) -> bool {
    next.step is Over && (action matches ConnectAction::Fail { words } && words@ == failure(
        what,
        error,
    ))
}

/// A client is there: draw the secrets of the authorization.
pub open spec fn client_chosen(
    next: ConnectFlow,
    action: ConnectAction,
    connector: Connector,
    endpoints: Endpoints,
    id: Seq<char>,
    registered: bool,
    secret: Option<Sealed>,
) -> bool {
    &&& action is Draw
    &&& next.step matches ConnectStep::Draw { connector: c, endpoints: e, client }
    &&& c == connector
    &&& e == endpoints
    &&& client.id@ == id
    &&& client.registered == registered
    &&& client.secret == secret
}

/// What follows the discovery: the configured client is used, else one is
/// registered, where the provider offers that.
pub open spec fn discovered(
    next: ConnectFlow,
    action: ConnectAction,
    connector: Connector,
    endpoints: Endpoints,
) -> bool {
    match connector.client_id {
        Some(id) => client_chosen(next, action, connector, endpoints, id@, false, None),
        None => if !connector.use_dcr {
            connect_refused(next, action, Refusal::NeedsClientId)
        } else {
            match endpoints.registration_url {
                None => connect_refused(next, action, Refusal::NoRegistration),
                Some(at) => {
                    &&& next.step == (ConnectStep::Registration { connector, endpoints })
                    &&& action matches ConnectAction::Register {
                        at: address,
                        redirect_uri,
                        client_name,
                        scopes,
                    }
                    &&& address == at
                    &&& redirect_uri == next.redirect_uri
                    &&& client_name@ == "croit LLM Gateway"@
                    &&& scopes@ == connector.scopes@
                },
            }
        },
    }
}

/// What follows the address: the authorization is remembered under its state, for
/// the user who asked, with the client that was registered for it.
pub open spec fn built(
    flow: ConnectFlow,
    next: ConnectFlow,
    action: ConnectAction,
    url: String,
) -> bool {
    &&& next.step == (ConnectStep::Memory { url })
    &&& flow.step matches ConnectStep::Address { connector, endpoints, client, verifier, state }
    &&& action matches ConnectAction::Remember { pending }
    &&& pending.state == state
    &&& pending.user_id == flow.user_id
    &&& pending.connector_key == flow.key
    &&& pending.pkce_verifier == verifier
    &&& pending.redirect_uri == flow.redirect_uri
    &&& pending.token_url == endpoints.token_url
    &&& pending.resource == Some(connector.url)
    &&& pending.dcr_client_id == (if client.registered { Some(client.id) } else { None })
    &&& match client.secret {
        Some(s) => pending.dcr_client_secret_ct == Some(s.ciphertext)
            && pending.dcr_client_secret_nonce == Some(s.nonce),
        None => pending.dcr_client_secret_ct is None && pending.dcr_client_secret_nonce is None,
    }
    &&& pending.return_to is None
}

/// Whether a request, after an event, goes on in this way.
pub open spec fn connect_step(
    flow: ConnectFlow,
    event: ConnectEvent,
    next: ConnectFlow,
    action: ConnectAction,
) -> bool {
    &&& flow.goes_on(next)
    &&& match event {
        ConnectEvent::Found { connector } => {
            let obstacle = connect_obstacle(
                match connector {
                    Some(c) => Some(&c),
                    None => None,
                },
                flow.step->role_ids@,
                AuthKind::OAuth2,
            );
            match obstacle {
                Some(why) => connect_refused(next, action, why),
                None => {
                    let c = connector->0;
                    &&& next.step == (ConnectStep::Discovery { connector: c })
                    &&& action matches ConnectAction::Discover {
                        url,
                        authorize_url,
                        token_url,
                        registration_url,
                    }
                    &&& url == c.url
                    &&& opt_text(authorize_url) == opt_text(c.authorize_url)
                    &&& opt_text(token_url) == opt_text(c.token_url)
                    &&& opt_text(registration_url) == opt_text(c.registration_url)
                },
            }
        },
        ConnectEvent::Discovered { endpoints } => discovered(
            next,
            action,
            flow.step->Discovery_connector,
            endpoints,
        ),
        ConnectEvent::DiscoveryFailed { error } => connect_failed(
            next,
            action,
            "OAuth discovery failed"@,
            error@,
        ),
        ConnectEvent::Registered { client_id, secret } => match secret {
            Some(s) => {
                &&& next.step == (ConnectStep::Secret {
                    connector: flow.step->Registration_connector,
                    endpoints: flow.step->Registration_endpoints,
                    client_id,
                })
                &&& action == (ConnectAction::Seal { secret: s })
            },
            None => client_chosen(
                next,
                action,
                flow.step->Registration_connector,
                flow.step->Registration_endpoints,
                client_id@,
                true,
                None,
            ),
        },
        ConnectEvent::RegistrationFailed { error } => connect_failed(
            next,
            action,
            "dynamic client registration failed"@,
            error@,
        ),
        ConnectEvent::Sealed { sealed } => client_chosen(
            next,
            action,
            flow.step->Secret_connector,
            flow.step->Secret_endpoints,
            flow.step->client_id@,
            true,
            Some(sealed),
        ),
        ConnectEvent::SealingFailed { error } => connect_failed(
            next,
            action,
            "sealing client secret"@,
            error@,
        ),
        ConnectEvent::Drawn { verifier, challenge, state } => {
            let c = flow.step->Draw_connector;
            let e = flow.step->Draw_endpoints;
            let id = flow.step->Draw_client.id;
            &&& next.step == (ConnectStep::Address {
                connector: c,
                endpoints: e,
                client: flow.step->Draw_client,
                verifier,
                state,
            })
            &&& action matches ConnectAction::Build {
                at,
                client_id,
                redirect_uri,
                scopes,
                state: shown,
                challenge: asked,
                resource,
            }
            &&& at == e.authorize_url
            &&& client_id == id
            &&& redirect_uri == flow.redirect_uri
            &&& scopes@ == c.scopes@
            &&& shown == state
            &&& asked == challenge
            &&& resource == c.url
        },
        ConnectEvent::Built { url } => built(flow, next, action, url),
        ConnectEvent::BuildingFailed { error } => connect_failed(
            next,
            action,
            "building authorize URL"@,
            error@,
        ),
        ConnectEvent::Remembered => next.step is Over && action == (ConnectAction::Leave {
            url: flow.step->url,
        }),
        ConnectEvent::RememberingFailed { error } => connect_failed(
            next,
            action,
            "persisting authorization"@,
            error@,
        ),
    }
}

impl ConnectFlow {
    /// Begins the first request, for a user who wants to connect a connector.
    pub fn begin(user_id: String, key: String, public_url: &str, role_ids: Vec<String>) -> (r: ConnectFlow)
        ensures
            r.user_id == user_id,
            r.key == key,
            r.redirect_uri@ == callback_address(public_url@),
            r.step == (ConnectStep::Catalog { role_ids }),
    {
        ConnectFlow {
            user_id,
            key,
            redirect_uri: callback_uri(public_url),
            step: ConnectStep::Catalog { role_ids },
        }
    }

    fn over(self, action: ConnectAction) -> (r: (ConnectFlow, ConnectAction))
        ensures
            self.goes_on(r.0),
            r.0.step is Over,
            r.1 == action,
    {
        (ConnectFlow { step: ConnectStep::Over, ..self }, action)
    }

    fn fail(self, what: &str, error: &str) -> (r: (ConnectFlow, ConnectAction))
        ensures
            self.goes_on(r.0),
            connect_failed(r.0, r.1, what@, error@),
    {
        self.over(ConnectAction::Fail { words: write_failure(what, error) })
    }

    fn found(self, connector: Option<Connector>) -> (r: (ConnectFlow, ConnectAction))
        requires
            self.step is Catalog,
        ensures
            connect_step(self, ConnectEvent::Found { connector }, r.0, r.1),
    {
        let obstacle = match &self.step {
            ConnectStep::Catalog { role_ids } => check_connect(
                connector.as_ref(),
                role_ids,
                AuthKind::OAuth2,
            ),
            _ => None,
        };
        match obstacle {
            Some(why) => self.over(ConnectAction::Refuse { why }),
            None => match connector {
                Some(c) => {
                    let action = ConnectAction::Discover {
                        url: c.url.clone(),
                        authorize_url: clone_opt(&c.authorize_url),
                        token_url: clone_opt(&c.token_url),
                        registration_url: clone_opt(&c.registration_url),
                    };
                    (ConnectFlow { step: ConnectStep::Discovery { connector: c }, ..self }, action)
                },
                None => self.over(ConnectAction::Refuse { why: Refusal::UnknownOrDisabled }),
            },
        }
    }

    fn discover(self, endpoints: Endpoints) -> (r: (ConnectFlow, ConnectAction))
        requires
            self.step is Discovery,
        ensures
            connect_step(self, ConnectEvent::Discovered { endpoints }, r.0, r.1),
    {
        let ConnectFlow { user_id, key, redirect_uri, step } = self;
        match step {
            ConnectStep::Discovery { connector } => {
                let (step, action) = match plan_client(&connector, &endpoints.registration_url) {
                    ClientPlan::Configured(id) => (
                        ConnectStep::Draw {
                            connector,
                            endpoints,
                            client: Client { id, registered: false, secret: None },
                        },
                        ConnectAction::Draw,
                    ),
                    ClientPlan::Register(at) => {
                        let scopes = clone_list(&connector.scopes);
                        (
                            ConnectStep::Registration { connector, endpoints },
                            ConnectAction::Register {
                                at,
                                redirect_uri: redirect_uri.clone(),
                                client_name: "croit LLM Gateway".to_owned(),
                                scopes,
                            },
                        )
                    },
                    ClientPlan::Refused(why) => (ConnectStep::Over, ConnectAction::Refuse { why }),
                };
                (ConnectFlow { user_id, key, redirect_uri, step }, action)
            },
            _ => (
                ConnectFlow { user_id, key, redirect_uri, step: ConnectStep::Over },
                ConnectAction::Draw,
            ),
        }
    }

    fn register(self, client_id: String, secret: Option<String>) -> (r: (ConnectFlow, ConnectAction))
        requires
            self.step is Registration,
        ensures
            connect_step(self, ConnectEvent::Registered { client_id, secret }, r.0, r.1),
    {
        let ConnectFlow { user_id, key, redirect_uri, step } = self;
        let (step, action) = match step {
            ConnectStep::Registration { connector, endpoints } => match secret {
                Some(secret) => (
                    ConnectStep::Secret { connector, endpoints, client_id },
                    ConnectAction::Seal { secret },
                ),
                None => (
                    ConnectStep::Draw {
                        connector,
                        endpoints,
                        client: Client { id: client_id, registered: true, secret: None },
                    },
                    ConnectAction::Draw,
                ),
            },
            _ => (ConnectStep::Over, ConnectAction::Draw),
        };
        (ConnectFlow { user_id, key, redirect_uri, step }, action)
    }

    fn seal(self, sealed: Sealed) -> (r: (ConnectFlow, ConnectAction))
        requires
            self.step is Secret,
        ensures
            connect_step(self, ConnectEvent::Sealed { sealed }, r.0, r.1),
    {
        let ConnectFlow { user_id, key, redirect_uri, step } = self;
        let step = match step {
            ConnectStep::Secret { connector, endpoints, client_id } => ConnectStep::Draw {
                connector,
                endpoints,
                client: Client { id: client_id, registered: true, secret: Some(sealed) },
            },
            _ => ConnectStep::Over,
        };
        (ConnectFlow { user_id, key, redirect_uri, step }, ConnectAction::Draw)
    }

    fn draw(self, verifier: String, challenge: String, state: String) -> (r: (
        ConnectFlow,
        ConnectAction,
    ))
        requires
            self.step is Draw,
        ensures
            connect_step(self, ConnectEvent::Drawn { verifier, challenge, state }, r.0, r.1),
    {
        let ConnectFlow { user_id, key, redirect_uri, step } = self;
        let (step, action) = match step {
            ConnectStep::Draw { connector, endpoints, client } => {
                let action = ConnectAction::Build {
                    at: endpoints.authorize_url.clone(),
                    client_id: client.id.clone(),
                    redirect_uri: redirect_uri.clone(),
                    scopes: clone_list(&connector.scopes),
                    state: state.clone(),
                    challenge,
                    resource: connector.url.clone(),
                };
                (ConnectStep::Address { connector, endpoints, client, verifier, state }, action)
            },
            _ => (ConnectStep::Over, ConnectAction::Draw),
        };
        (ConnectFlow { user_id, key, redirect_uri, step }, action)
    }

    fn build(self, url: String) -> (r: (ConnectFlow, ConnectAction))
        requires
            self.step is Address,
        ensures
            connect_step(self, ConnectEvent::Built { url }, r.0, r.1),
    {
        let ConnectFlow { user_id, key, redirect_uri, step } = self;
        let (step, action) = match step {
            ConnectStep::Address { connector, endpoints, client, verifier, state } => {
                let registered_id = if client.registered {
                    Some(client.id)
                } else {
                    None
                };
                let pending = pending_row(
                    state,
                    user_id.clone(),
                    key.clone(),
                    verifier,
                    redirect_uri.clone(),
                    endpoints.token_url,
                    &connector,
                    registered_id,
                    client.secret,
                );
                (ConnectStep::Memory { url }, ConnectAction::Remember { pending })
            },
            _ => (ConnectStep::Over, ConnectAction::Draw),
        };
        (ConnectFlow { user_id, key, redirect_uri, step }, action)
    }

    fn leave(self) -> (r: (ConnectFlow, ConnectAction))
        requires
            self.step is Memory,
        ensures
            connect_step(self, ConnectEvent::Remembered, r.0, r.1),
    {
        let ConnectFlow { user_id, key, redirect_uri, step } = self;
        let action = match step {
            ConnectStep::Memory { url } => ConnectAction::Leave { url },
            _ => ConnectAction::Draw,
        };
        (ConnectFlow { user_id, key, redirect_uri, step: ConnectStep::Over }, action)
    }

    /// What follows an event: the request as it is then, and what is to be done.
    pub fn next(self, event: ConnectEvent) -> (r: (ConnectFlow, ConnectAction))
        requires
            self.expects(event),
        ensures
            connect_step(self, event, r.0, r.1),
    {
        match event {
            ConnectEvent::Found { connector } => self.found(connector),
            ConnectEvent::Discovered { endpoints } => self.discover(endpoints),
            ConnectEvent::DiscoveryFailed { error } => self.fail("OAuth discovery failed", &error),
            ConnectEvent::Registered { client_id, secret } => self.register(client_id, secret),
            ConnectEvent::RegistrationFailed { error } => self.fail(
                "dynamic client registration failed",
                &error,
            ),
            ConnectEvent::Sealed { sealed } => self.seal(sealed),
            ConnectEvent::SealingFailed { error } => self.fail("sealing client secret", &error),
            ConnectEvent::Drawn { verifier, challenge, state } => self.draw(
                verifier,
                challenge,
                state,
            ),
            ConnectEvent::Built { url } => self.build(url),
            ConnectEvent::BuildingFailed { error } => self.fail("building authorize URL", &error),
            ConnectEvent::Remembered => self.leave(),
            ConnectEvent::RememberingFailed { error } => self.fail(
                "persisting authorization",
                &error,
            ),
        }
    }
}

// ---------------------------------------------------------------------------
// Coming back

/// What a provider hands out for a code.
pub struct Tokens {
    pub access_token: String,
    pub refresh_token: Option<String>,
    /// When the access token expires, in seconds since 1970.
    pub expires_at: Option<i64>,
    pub scopes: Vec<String>,
}

/// What the second request waits for.
pub enum CallbackStep {
    /// The remembered authorization.
    Memory { code: String },
    /// Its connector.
    Catalog { code: String, pending: PendingOauth },
    /// The secret of the client that redeems the code.
    Secret { code: String, pending: PendingOauth, connector: Connector, client_id: String },
    /// The tokens.
    Exchange { pending: PendingOauth, connector: Connector },
    /// The sealed access token.
    Access {
        pending: PendingOauth,
        connector: Connector,
        refresh_token: Option<String>,
        expires_at: Option<i64>,
        scopes: Vec<String>,
    },
    /// The sealed refresh token.
    Refresh {
        pending: PendingOauth,
        connector: Connector,
        access: Sealed,
        expires_at: Option<i64>,
        scopes: Vec<String>,
    },
    /// The stored connection.
    Store { connector_key: String },
    /// Nothing more.
    Over,
}

/// The second request.
pub struct CallbackFlow {
    pub user_id: String,
    pub step: CallbackStep,
}

/// What happened.
pub enum CallbackEvent {
    /// The remembered authorization was taken up; it cannot be taken up again.
    Taken { pending: Option<PendingOauth> },
    TakingFailed { error: String },
    /// The catalog was asked.
    Found { connector: Option<Connector> },
    Opened { secret: Option<String> },
    OpeningFailed { error: String },
    Redeemed { tokens: Tokens },
    RedeemingFailed { error: String },
    Sealed { sealed: Sealed },
    SealingFailed { error: String },
    Stored,
    StoringFailed { error: String },
}

/// What is to be done.
pub enum CallbackAction {
    Take { state: String },
    Find { connector_key: String },
    /// Open the secret of the client that was registered for the authorization.
    OpenRegistered { ciphertext: Vec<u8>, nonce: Vec<u8> },
    /// Open the secret of the connector's client, if it has one.
    OpenCatalog { secret: Option<Vec<u8>>, secret_nonce: Option<Vec<u8>> },
    Redeem {
        token_url: String,
        code: String,
        verifier: String,
        redirect_uri: String,
        client_id: String,
        client_secret: Option<String>,
        resource: String,
    },
    Seal { token: String },
    Store { connection: NewConnection },
    /// Forget what is cached of the connection, and show the connectors.
    Finish { connector_key: String },
    Refuse { why: Refusal },
    Fail { words: String },
}

impl CallbackFlow {
    /// Whether a state can occur: the authorization that is taken up is the
    /// user's own.
    pub open spec fn wf(self) -> bool {
        match self.step {
            CallbackStep::Catalog { pending, .. } => pending.user_id@ == self.user_id@,
            CallbackStep::Secret { pending, .. } => pending.user_id@ == self.user_id@,
            CallbackStep::Exchange { pending, .. } => pending.user_id@ == self.user_id@,
            CallbackStep::Access { pending, .. } => pending.user_id@ == self.user_id@,
            CallbackStep::Refresh { pending, .. } => pending.user_id@ == self.user_id@,
            _ => true,
        }
    }

    /// Whether an event answers what the request waits for.
    pub open spec fn expects(self, event: CallbackEvent) -> bool {
        match self.step {
            CallbackStep::Memory { .. } => event is Taken || event is TakingFailed,
            CallbackStep::Catalog { .. } => event is Found,
            CallbackStep::Secret { .. } => event is Opened || event is OpeningFailed,
            CallbackStep::Exchange { .. } => event is Redeemed || event is RedeemingFailed,
            CallbackStep::Access { .. } => event is Sealed || event is SealingFailed,
            CallbackStep::Refresh { .. } => event is Sealed || event is SealingFailed,
            CallbackStep::Store { .. } => event is Stored || event is StoringFailed,
            CallbackStep::Over => false,
        }
    }
}

/// The end, with a refusal.
pub open spec fn callback_refused(next: CallbackFlow, action: CallbackAction, why: Refusal) -> bool {
    next.step is Over && action == (CallbackAction::Refuse { why })
}

/// The end, with these words.
pub open spec fn callback_failed(next: CallbackFlow, action: CallbackAction, said: Seq<char>) -> bool {
    next.step is Over && (action matches CallbackAction::Fail { words } && words@ == said)
}

/// The code is redeemed, by this client.
pub open spec fn redeems(
    next: CallbackFlow,
    action: CallbackAction,
    code: Seq<char>,
    pending: PendingOauth,
    connector: Connector,
    id: Seq<char>,
    secret: Option<Seq<char>>,
) -> bool {
    &&& next.step == (CallbackStep::Exchange { pending, connector })
    &&& action matches CallbackAction::Redeem {
        token_url,
        code: c,
        verifier,
        redirect_uri,
        client_id,
        client_secret,
        resource,
    }
    &&& token_url == pending.token_url
    &&& c@ == code
    &&& verifier == pending.pkce_verifier
    &&& redirect_uri == pending.redirect_uri
    &&& client_id@ == id
    &&& opt_text(client_secret) == secret
    &&& resource == (match pending.resource {
        Some(res) => res,
        None => connector.url,
    })
}

/// What follows the connector: the secret of the client is opened, where there
/// may be one; the client registered for the authorization goes before that of
/// the catalog.
pub open spec fn connector_found(
    next: CallbackFlow,
    action: CallbackAction,
    code: String,
    pending: PendingOauth,
    connector: Connector,
) -> bool {
    match pending.dcr_client_id {
        Some(id) => match (pending.dcr_client_secret_ct, pending.dcr_client_secret_nonce) {
            (Some(ct), Some(no)) => {
                &&& next.step == (CallbackStep::Secret { code, pending, connector, client_id: id })
                &&& action matches CallbackAction::OpenRegistered { ciphertext, nonce }
                &&& ciphertext@ == ct@
                &&& nonce@ == no@
            },
            _ => redeems(next, action, code@, pending, connector, id@, None),
        },
        None => match connector.client_id {
            Some(id) => {
                &&& next.step == (CallbackStep::Secret { code, pending, connector, client_id: id })
                &&& action matches CallbackAction::OpenCatalog { secret, secret_nonce }
                &&& opt_bytes(secret) == opt_bytes(connector.client_secret_ct)
                &&& opt_bytes(secret_nonce) == opt_bytes(connector.client_secret_nonce)
            },
            None => callback_refused(next, action, Refusal::MissingClientId),
        },
    }
}

/// The bytes of an optional list of bytes.
pub open spec fn opt_bytes(o: Option<Vec<u8>>) -> Option<Seq<u8>> {
    match o {
        Some(v) => Some(v@),
        None => None,
    }
}

/// The connection is stored: the user's own, under the connector of the
/// authorization, with what was sealed.
pub open spec fn stores_connection(
    flow: CallbackFlow,
    next: CallbackFlow,
    action: CallbackAction,
    pending: PendingOauth,
    connector: Connector,
    access: Sealed,
    refresh: Option<Sealed>,
    expires_at: Option<i64>,
    scopes: Seq<String>,
) -> bool {
    &&& next.step matches CallbackStep::Store { connector_key }
    &&& connector_key@ == pending.connector_key@
    &&& action matches CallbackAction::Store { connection }
    &&& connection.user_id == flow.user_id
    &&& connection.connector_key == pending.connector_key
    &&& connection.access_token_ct == access.ciphertext
    &&& connection.access_token_nonce == access.nonce
    &&& match refresh {
        Some(s) => connection.refresh_token_ct == Some(s.ciphertext)
            && connection.refresh_token_nonce == Some(s.nonce),
        None => connection.refresh_token_ct is None && connection.refresh_token_nonce is None,
    }
    &&& connection.token_expires_at == expires_at
    &&& connection.scopes@ == (if scopes.len() == 0 { connector.scopes@ } else { scopes })
    &&& connection.dcr_client_id == pending.dcr_client_id
    &&& connection.dcr_client_secret_ct == pending.dcr_client_secret_ct
    &&& connection.dcr_client_secret_nonce == pending.dcr_client_secret_nonce
    &&& connection.token_url == Some(pending.token_url)
}

/// What follows the sealing of a token: the refresh token is sealed after the
/// access token, if there is one; what is sealed is stored.
pub open spec fn token_sealed(
    flow: CallbackFlow,
    next: CallbackFlow,
    action: CallbackAction,
    sealed: Sealed,
) -> bool {
    match flow.step {
        CallbackStep::Access { pending, connector, refresh_token, expires_at, scopes } => {
            match refresh_token {
                Some(token) => {
                    &&& next.step == (CallbackStep::Refresh {
                        pending,
                        connector,
                        access: sealed,
                        expires_at,
                        scopes,
                    })
                    &&& action == (CallbackAction::Seal { token })
                },
                None => stores_connection(
                    flow,
                    next,
                    action,
                    pending,
                    connector,
                    sealed,
                    None,
                    expires_at,
                    scopes@,
                ),
            }
        },
        CallbackStep::Refresh { pending, connector, access, expires_at, scopes } => {
            stores_connection(
                flow,
                next,
                action,
                pending,
                connector,
                access,
                Some(sealed),
                expires_at,
                scopes@,
            )
        },
        _ => false,
    }
}

/// Whether a request, after an event, goes on in this way.
pub open spec fn callback_step(
    flow: CallbackFlow,
    event: CallbackEvent,
    next: CallbackFlow,
    action: CallbackAction,
) -> bool {
    &&& next.user_id == flow.user_id
    &&& match event {
        CallbackEvent::Taken { pending } => match pending {
            None => callback_refused(next, action, Refusal::Expired),
            Some(p) => if p.user_id@ != flow.user_id@ {
                callback_refused(next, action, Refusal::StateMismatch)
            } else {
                &&& next.step == (CallbackStep::Catalog {
                    code: flow.step->Memory_code,
                    pending: p,
                })
                &&& action == (CallbackAction::Find { connector_key: p.connector_key })
            },
        },
        CallbackEvent::TakingFailed { error } => callback_failed(
            next,
            action,
            failure("loading authorization"@, error@),
        ),
        CallbackEvent::Found { connector } => match connector {
            None => callback_refused(next, action, Refusal::ConnectorGone),
            Some(c) => connector_found(
                next,
                action,
                flow.step->Catalog_code,
                flow.step->Catalog_pending,
                c,
            ),
        },
        CallbackEvent::Opened { secret } => redeems(
            next,
            action,
            flow.step->Secret_code@,
            flow.step->Secret_pending,
            flow.step->Secret_connector,
            flow.step->Secret_client_id@,
            opt_text(secret),
        ),
        CallbackEvent::OpeningFailed { error } => callback_failed(
            next,
            action,
            failure("decrypting client secret"@, error@),
        ),
        CallbackEvent::Redeemed { tokens } => {
            &&& next.step == (CallbackStep::Access {
                pending: flow.step->Exchange_pending,
                connector: flow.step->Exchange_connector,
                refresh_token: tokens.refresh_token,
                expires_at: tokens.expires_at,
                scopes: tokens.scopes,
            })
            &&& action == (CallbackAction::Seal { token: tokens.access_token })
        },
        CallbackEvent::RedeemingFailed { error } => callback_failed(next, action, error@),
        CallbackEvent::Sealed { sealed } => token_sealed(flow, next, action, sealed),
        CallbackEvent::SealingFailed { error } => callback_failed(
            next,
            action,
            failure(
                if flow.step is Access {
                    "sealing access token"@
                } else {
                    "sealing refresh token"@
                },
                error@,
            ),
        ),
        CallbackEvent::Stored => next.step is Over && action == (CallbackAction::Finish {
            connector_key: flow.step->Store_connector_key,
        }),
        CallbackEvent::StoringFailed { error } => callback_failed(
            next,
            action,
            failure("saving connection"@, error@),
        ),
    }
}

fn clone_bytes(v: &Vec<u8>) -> (r: Vec<u8>)
    ensures
        r@ == v@,
{
    let r = v.clone();
    assert(r@ =~= v@);
    r
}

fn clone_opt_bytes(o: &Option<Vec<u8>>) -> (r: Option<Vec<u8>>)
    ensures
        opt_bytes(r) == opt_bytes(*o),
{
    match o {
        Some(v) => Some(clone_bytes(v)),
        None => None,
    }
}

impl CallbackFlow {
    /// Begins the second request with what the provider sent along.
    pub fn begin(user_id: String, params: CallbackParams) -> (r: (CallbackFlow, CallbackAction))
        ensures
            r.0.user_id == user_id,
            r.0.wf(),
            match params.error {
                Some(e) => callback_failed(
                    r.0,
                    r.1,
                    provider_words(e@, text_or_empty(opt_text(params.error_description))),
                ),
                None => match (params.code, params.state) {
                    (Some(code), Some(state)) => r.0.step == (CallbackStep::Memory { code }) && r.1
                        == (CallbackAction::Take { state }),
                    _ => callback_refused(r.0, r.1, Refusal::MissingCodeOrState),
                },
            },
    {
        match read_callback(params) {
            CallbackOutcome::Provider(words) => (
                CallbackFlow { user_id, step: CallbackStep::Over },
                CallbackAction::Fail { words },
            ),
            CallbackOutcome::Refused(why) => (
                CallbackFlow { user_id, step: CallbackStep::Over },
                CallbackAction::Refuse { why },
            ),
            CallbackOutcome::Exchange { code, state } => (
                CallbackFlow { user_id, step: CallbackStep::Memory { code } },
                CallbackAction::Take { state },
            ),
        }
    }

    fn refuse(self, why: Refusal) -> (r: (CallbackFlow, CallbackAction))
        ensures
            r.0.user_id == self.user_id,
            callback_refused(r.0, r.1, why),
    {
        (CallbackFlow { step: CallbackStep::Over, ..self }, CallbackAction::Refuse { why })
    }

    fn fail(self, words: String) -> (r: (CallbackFlow, CallbackAction))
        ensures
            r.0.user_id == self.user_id,
            callback_failed(r.0, r.1, words@),
    {
        (CallbackFlow { step: CallbackStep::Over, ..self }, CallbackAction::Fail { words })
    }

    fn take(self, pending: Option<PendingOauth>) -> (r: (CallbackFlow, CallbackAction))
        requires
            self.step is Memory,
        ensures
            callback_step(self, CallbackEvent::Taken { pending }, r.0, r.1),
            r.0.wf(),
    {
        if let Some(why) = check_pending(pending.as_ref(), &self.user_id) {
            return self.refuse(why);
        }
        let CallbackFlow { user_id, step } = self;
        match (step, pending) {
            (CallbackStep::Memory { code }, Some(p)) => {
                let action = CallbackAction::Find { connector_key: p.connector_key.clone() };
                (CallbackFlow { user_id, step: CallbackStep::Catalog { code, pending: p } }, action)
            },
            _ => (
                CallbackFlow { user_id, step: CallbackStep::Over },
                CallbackAction::Refuse { why: Refusal::Expired },
            ),
        }
    }

    fn find(self, found: Option<Connector>) -> (r: (CallbackFlow, CallbackAction))
        requires
            self.wf(),
            self.step is Catalog,
        ensures
            callback_step(self, CallbackEvent::Found { connector: found }, r.0, r.1),
            r.0.wf(),
    {
        let CallbackFlow { user_id, step } = self;
        match (step, found) {
            (CallbackStep::Catalog { code, pending }, Some(connector)) => {
                match choose_credentials(&pending, &connector) {
                    Credentials::Registered { client_id, .. } => {
                        match (&pending.dcr_client_secret_ct, &pending.dcr_client_secret_nonce) {
                            (Some(ct), Some(no)) => {
                                let action = CallbackAction::OpenRegistered {
                                    ciphertext: clone_bytes(ct),
                                    nonce: clone_bytes(no),
                                };
                                (
                                    CallbackFlow {
                                        user_id,
                                        step: CallbackStep::Secret {
                                            code,
                                            pending,
                                            connector,
                                            client_id,
                                        },
                                    },
                                    action,
                                )
                            },
                            _ => redeem(user_id, code, pending, connector, client_id, None),
                        }
                    },
                    Credentials::Catalog { client_id } => {
                        let action = CallbackAction::OpenCatalog {
                            secret: clone_opt_bytes(&connector.client_secret_ct),
                            secret_nonce: clone_opt_bytes(&connector.client_secret_nonce),
                        };
                        (
                            CallbackFlow {
                                user_id,
                                step: CallbackStep::Secret { code, pending, connector, client_id },
                            },
                            action,
                        )
                    },
                    Credentials::Refused(why) => (
                        CallbackFlow { user_id, step: CallbackStep::Over },
                        CallbackAction::Refuse { why },
                    ),
                }
            },
            _ => (
                CallbackFlow { user_id, step: CallbackStep::Over },
                CallbackAction::Refuse { why: Refusal::ConnectorGone },
            ),
        }
    }

    fn open(self, secret: Option<String>) -> (r: (CallbackFlow, CallbackAction))
        requires
            self.wf(),
            self.step is Secret,
        ensures
            callback_step(self, CallbackEvent::Opened { secret }, r.0, r.1),
            r.0.wf(),
    {
        let CallbackFlow { user_id, step } = self;
        match step {
            CallbackStep::Secret { code, pending, connector, client_id } => redeem(
                user_id,
                code,
                pending,
                connector,
                client_id,
                secret,
            ),
            _ => (
                CallbackFlow { user_id, step: CallbackStep::Over },
                CallbackAction::Refuse { why: Refusal::MissingClientId },
            ),
        }
    }

    fn redeemed(self, tokens: Tokens) -> (r: (CallbackFlow, CallbackAction))
        requires
            self.wf(),
            self.step is Exchange,
        ensures
            callback_step(self, CallbackEvent::Redeemed { tokens }, r.0, r.1),
            r.0.wf(),
    {
        let CallbackFlow { user_id, step } = self;
        let step = match step {
            CallbackStep::Exchange { pending, connector } => CallbackStep::Access {
                pending,
                connector,
                refresh_token: tokens.refresh_token,
                expires_at: tokens.expires_at,
                scopes: tokens.scopes,
            },
            _ => CallbackStep::Over,
        };
        (CallbackFlow { user_id, step }, CallbackAction::Seal { token: tokens.access_token })
    }

    fn seal(self, sealed: Sealed) -> (r: (CallbackFlow, CallbackAction))
        requires
            self.wf(),
            self.step is Access || self.step is Refresh,
        ensures
            callback_step(self, CallbackEvent::Sealed { sealed }, r.0, r.1),
            r.0.wf(),
    {
        let CallbackFlow { user_id, step } = self;
        match step {
            CallbackStep::Access { pending, connector, refresh_token, expires_at, scopes } => {
                match refresh_token {
                    Some(token) => (
                        CallbackFlow {
                            user_id,
                            step: CallbackStep::Refresh {
                                pending,
                                connector,
                                access: sealed,
                                expires_at,
                                scopes,
                            },
                        },
                        CallbackAction::Seal { token },
                    ),
                    None => store(user_id, pending, connector, sealed, None, expires_at, scopes),
                }
            },
            CallbackStep::Refresh { pending, connector, access, expires_at, scopes } => store(
                user_id,
                pending,
                connector,
                access,
                Some(sealed),
                expires_at,
                scopes,
            ),
            _ => (
                CallbackFlow { user_id, step: CallbackStep::Over },
                CallbackAction::Refuse { why: Refusal::Expired },
            ),
        }
    }

    fn sealing_failed(self, error: &str) -> (r: (CallbackFlow, CallbackAction))
        requires
            self.step is Access || self.step is Refresh,
        ensures
            r.0.user_id == self.user_id,
            callback_failed(
                r.0,
                r.1,
                failure(
                    if self.step is Access {
                        "sealing access token"@
                    } else {
                        "sealing refresh token"@
                    },
                    error@,
                ),
            ),
    {
        let words = match &self.step {
            CallbackStep::Access { .. } => write_failure("sealing access token", error),
            _ => write_failure("sealing refresh token", error),
        };
        self.fail(words)
    }

    fn finish(self) -> (r: (CallbackFlow, CallbackAction))
        requires
            self.step is Store,
        ensures
            callback_step(self, CallbackEvent::Stored, r.0, r.1),
            r.0.wf(),
    {
        let CallbackFlow { user_id, step } = self;
        let action = match step {
            CallbackStep::Store { connector_key } => CallbackAction::Finish { connector_key },
            _ => CallbackAction::Refuse { why: Refusal::Expired },
        };
        (CallbackFlow { user_id, step: CallbackStep::Over }, action)
    }

    /// What follows an event: the request as it is then, and what is to be done.
    pub fn next(self, event: CallbackEvent) -> (r: (CallbackFlow, CallbackAction))
        requires
            self.wf(),
            self.expects(event),
        ensures
            callback_step(self, event, r.0, r.1),
            r.0.wf(),
    {
        match event {
            CallbackEvent::Taken { pending } => self.take(pending),
            CallbackEvent::TakingFailed { error } => self.fail(
                write_failure("loading authorization", &error),
            ),
            CallbackEvent::Found { connector } => self.find(connector),
            CallbackEvent::Opened { secret } => self.open(secret),
            CallbackEvent::OpeningFailed { error } => self.fail(
                write_failure("decrypting client secret", &error),
            ),
            CallbackEvent::Redeemed { tokens } => self.redeemed(tokens),
            CallbackEvent::RedeemingFailed { error } => self.fail(error),
            CallbackEvent::Sealed { sealed } => self.seal(sealed),
            CallbackEvent::SealingFailed { error } => self.sealing_failed(&error),
            CallbackEvent::Stored => self.finish(),
            CallbackEvent::StoringFailed { error } => self.fail(
                write_failure("saving connection", &error),
            ),
        }
    }
}

fn redeem(
    user_id: String,
    code: String,
    pending: PendingOauth,
    connector: Connector,
    client_id: String,
    client_secret: Option<String>,
) -> (r: (CallbackFlow, CallbackAction))
    ensures
        r.0.user_id == user_id,
        redeems(
            r.0,
            r.1,
            code@,
            pending,
            connector,
            client_id@,
            opt_text(client_secret),
        ),
{
    let action = CallbackAction::Redeem {
        token_url: pending.token_url.clone(),
        code,
        verifier: pending.pkce_verifier.clone(),
        redirect_uri: pending.redirect_uri.clone(),
        client_id,
        client_secret,
        resource: token_resource(&pending, &connector),
    };
    (CallbackFlow { user_id, step: CallbackStep::Exchange { pending, connector } }, action)
}

fn store(
    user_id: String,
    pending: PendingOauth,
    connector: Connector,
    access: Sealed,
    refresh: Option<Sealed>,
    expires_at: Option<i64>,
    scopes: Vec<String>,
) -> (r: (CallbackFlow, CallbackAction))
    ensures
        r.0.user_id == user_id,
        stores_connection(
            r.0,
            r.0,
            r.1,
            pending,
            connector,
            access,
            refresh,
            expires_at,
            scopes@,
        ),
{
    let step = CallbackStep::Store { connector_key: pending.connector_key.clone() };
    let connection = oauth_connection(
        user_id.clone(),
        pending,
        &connector,
        access,
        refresh,
        expires_at,
        scopes,
    );
    (CallbackFlow { user_id, step }, CallbackAction::Store { connection })
}

// ---------------------------------------------------------------------------
// Laws

/// A connection is stored for the user who came back, and only from an
/// authorization that the same user began.
pub proof fn only_the_beginner_connects(
    flow: CallbackFlow,
    event: CallbackEvent,
    next: CallbackFlow,
    action: CallbackAction,
    connection: NewConnection,
)
    requires
        flow.wf(),
        flow.expects(event),
        callback_step(flow, event, next, action),
        action == (CallbackAction::Store { connection }),
    ensures
        connection.user_id@ == flow.user_id@,
        match flow.step {
            CallbackStep::Access { pending, .. } => pending.user_id@ == connection.user_id@,
            CallbackStep::Refresh { pending, .. } => pending.user_id@ == connection.user_id@,
            _ => false,
        },
{
}

/// What the first request remembers is what the second accepts: taken up by the
/// user who began it, an authorization leads on to its connector.
pub proof fn what_is_remembered_is_taken_up(
    connect: ConnectFlow,
    url: String,
    after: ConnectFlow,
    pending: PendingOauth,
    callback: CallbackFlow,
    next: CallbackFlow,
    action: CallbackAction,
)
    requires
        connect.step is Address,
        connect_step(
            connect,
            ConnectEvent::Built { url },
            after,
            ConnectAction::Remember { pending },
        ),
        callback.step is Memory,
        callback_step(callback, CallbackEvent::Taken { pending: Some(pending) }, next, action),
    ensures
        callback.user_id@ == connect.user_id@ ==> (action == (CallbackAction::Find {
            connector_key: connect.key,
        })),
        callback.user_id@ != connect.user_id@ ==> callback_refused(
            next,
            action,
            Refusal::StateMismatch,
        ),
{
}

/// A code is redeemed at the address and for the resource that the
/// authorization was begun with.
pub proof fn the_code_goes_where_it_came_from(
    connect: ConnectFlow,
    url: String,
    after: ConnectFlow,
    pending: PendingOauth,
    next: CallbackFlow,
    action: CallbackAction,
    code: Seq<char>,
    connector: Connector,
    id: Seq<char>,
    secret: Option<Seq<char>>,
)
    requires
        connect.step is Address,
        connect_step(
            connect,
            ConnectEvent::Built { url },
            after,
            ConnectAction::Remember { pending },
        ),
        redeems(next, action, code, pending, connector, id, secret),
    ensures
        action matches CallbackAction::Redeem {
            token_url,
            code: c,
            verifier,
            redirect_uri,
            client_id,
            client_secret,
            resource,
        } && token_url == connect.step->Address_endpoints.token_url && resource
            == connect.step->Address_connector.url && redirect_uri == connect.redirect_uri
            && verifier == connect.step->Address_verifier,
{
}

/// The course of going to a provider with a configured client, from its first step to
/// its last: the provider is asked where to go, the user is sent there for this
/// connector, its scopes and its resource, with a fresh state and challenge, and the
/// state and the verifier are remembered for this user and this connector.
pub proof fn a_configured_client_goes_to_the_provider(
    flow: ConnectFlow,
    c: Connector,
    endpoints: Endpoints,
    verifier: String,
    challenge: String,
    state: String,
    url: String,
    discovery: (ConnectFlow, ConnectAction),
    draw: (ConnectFlow, ConnectAction),
    address: (ConnectFlow, ConnectAction),
    memory: (ConnectFlow, ConnectAction),
    over: (ConnectFlow, ConnectAction),
)
    requires
        flow.step is Catalog,
        connect_obstacle(Some(&c), flow.step->role_ids@, AuthKind::OAuth2) is None,
        c.client_id is Some,
        call_ensures(
            ConnectFlow::next,
            (flow, ConnectEvent::Found { connector: Some(c) }),
            discovery,
        ),
        call_ensures(
            ConnectFlow::next,
            (discovery.0, ConnectEvent::Discovered { endpoints }),
            draw,
        ),
        call_ensures(
            ConnectFlow::next,
            (draw.0, ConnectEvent::Drawn { verifier, challenge, state }),
            address,
        ),
        call_ensures(ConnectFlow::next, (address.0, ConnectEvent::Built { url }), memory),
        call_ensures(ConnectFlow::next, (memory.0, ConnectEvent::Remembered), over),
    ensures
        discovery.1 is Discover,
        discovery.1->Discover_url == c.url,
        opt_text(discovery.1->Discover_authorize_url) == opt_text(c.authorize_url),
        opt_text(discovery.1->Discover_token_url) == opt_text(c.token_url),
        opt_text(discovery.1->Discover_registration_url) == opt_text(c.registration_url),
        draw.1 is Draw,
        address.1 is Build,
        address.1->Build_at == endpoints.authorize_url,
        address.1->Build_client_id@ == c.client_id->0@,
        address.1->Build_redirect_uri == flow.redirect_uri,
        address.1->Build_scopes@ == c.scopes@,
        address.1->Build_state == state,
        address.1->Build_challenge == challenge,
        address.1->Build_resource == c.url,
        memory.1 is Remember,
        memory.1->pending.state == state,
        memory.1->pending.user_id == flow.user_id,
        memory.1->pending.connector_key == flow.key,
        memory.1->pending.pkce_verifier == verifier,
        memory.1->pending.redirect_uri == flow.redirect_uri,
        memory.1->pending.token_url == endpoints.token_url,
        memory.1->pending.resource == Some(c.url),
        memory.1->pending.dcr_client_id is None,
        memory.1->pending.dcr_client_secret_ct is None,
        over.1 == (ConnectAction::Leave { url }),
        over.0.step is Over,
{
}

/// The course of a connector that registers by itself: it registers where the provider
/// says, for its own scopes; the secret that it is given is sealed before it is kept, and
/// the registered client is the one that is used and remembered.
pub proof fn a_registered_client_is_remembered(
    flow: ConnectFlow,
    c: Connector,
    endpoints: Endpoints,
    client_id: String,
    secret: String,
    sealed: Sealed,
    verifier: String,
    challenge: String,
    state: String,
    url: String,
    register: (ConnectFlow, ConnectAction),
    seal: (ConnectFlow, ConnectAction),
    draw: (ConnectFlow, ConnectAction),
    address: (ConnectFlow, ConnectAction),
    memory: (ConnectFlow, ConnectAction),
)
    requires
        flow.step == (ConnectStep::Discovery { connector: c }),
        c.client_id is None,
        c.use_dcr,
        endpoints.registration_url is Some,
        call_ensures(ConnectFlow::next, (flow, ConnectEvent::Discovered { endpoints }), register),
        call_ensures(
            ConnectFlow::next,
            (register.0, ConnectEvent::Registered { client_id, secret: Some(secret) }),
            seal,
        ),
        call_ensures(ConnectFlow::next, (seal.0, ConnectEvent::Sealed { sealed }), draw),
        call_ensures(
            ConnectFlow::next,
            (draw.0, ConnectEvent::Drawn { verifier, challenge, state }),
            address,
        ),
        call_ensures(ConnectFlow::next, (address.0, ConnectEvent::Built { url }), memory),
    ensures
        register.1 is Register,
        register.1->Register_at == endpoints.registration_url->0,
        register.1->Register_redirect_uri == flow.redirect_uri,
        register.1->Register_scopes@ == c.scopes@,
        register.1->Register_client_name@ == "croit LLM Gateway"@,
        seal.1 == (ConnectAction::Seal { secret }),
        address.1 is Build,
        address.1->Build_client_id@ == client_id@,
        memory.1 is Remember,
        memory.1->pending.dcr_client_id is Some,
        memory.1->pending.dcr_client_id->0@ == client_id@,
        memory.1->pending.dcr_client_secret_ct == Some(sealed.ciphertext),
        memory.1->pending.dcr_client_secret_nonce == Some(sealed.nonce),
        memory.1->pending.pkce_verifier == verifier,
        memory.1->pending.token_url == endpoints.token_url,
{
}

/// A client that registered without a secret is used and remembered without one; what
/// can neither register nor has a client is refused.
pub proof fn a_client_without_a_secret_is_used(
    flow: ConnectFlow,
    c: Connector,
    endpoints: Endpoints,
    client_id: String,
    r: (ConnectFlow, ConnectAction),
    draw: (ConnectFlow, ConnectAction),
)
    requires
        flow.step == (ConnectStep::Discovery { connector: c }),
        c.client_id is None,
        call_ensures(ConnectFlow::next, (flow, ConnectEvent::Discovered { endpoints }), r),
        c.use_dcr && endpoints.registration_url is Some ==> call_ensures(
            ConnectFlow::next,
            (r.0, ConnectEvent::Registered { client_id, secret: None }),
            draw,
        ),
    ensures
        !c.use_dcr ==> r.1 == (ConnectAction::Refuse { why: Refusal::NeedsClientId }),
        c.use_dcr && endpoints.registration_url is None ==> r.1 == (ConnectAction::Refuse {
            why: Refusal::NoRegistration,
        }),
        c.use_dcr && endpoints.registration_url is Some ==> draw.1 is Draw && draw.0.step is Draw
            && draw.0.step->Draw_client.id@ == client_id@ && draw.0.step->Draw_client.registered
            && draw.0.step->Draw_client.secret is None && draw.0.step->Draw_connector == c,
{
}

/// What stops a sign-in is told and ends it: what stands in the way of the connector, or
/// the step that failed and its error.
pub proof fn a_stopped_sign_in_says_why(
    flow: ConnectFlow,
    connector: Option<Connector>,
    error: String,
    event: ConnectEvent,
    r: (ConnectFlow, ConnectAction),
)
    requires
        flow.expects(event),
        call_ensures(ConnectFlow::next, (flow, event), r),
    ensures
        event == (ConnectEvent::Found { connector }) ==> ({
            let obstacle = connect_obstacle(
                match connector {
                    Some(c) => Some(&c),
                    None => None,
                },
                flow.step->role_ids@,
                AuthKind::OAuth2,
            );
            obstacle matches Some(why) ==> r.1 == (ConnectAction::Refuse { why }) && r.0.step is Over
        }),
        event == (ConnectEvent::DiscoveryFailed { error }) ==> r.0.step is Over && r.1 is Fail
            && r.1->words@ == "OAuth discovery failed"@ + ": "@ + error@,
        event == (ConnectEvent::RegistrationFailed { error }) ==> r.0.step is Over && r.1 is Fail
            && r.1->words@ == "dynamic client registration failed"@ + ": "@ + error@,
        event == (ConnectEvent::SealingFailed { error }) ==> r.0.step is Over && r.1 is Fail
            && r.1->words@ == "sealing client secret"@ + ": "@ + error@,
        event == (ConnectEvent::BuildingFailed { error }) ==> r.0.step is Over && r.1 is Fail
            && r.1->words@ == "building authorize URL"@ + ": "@ + error@,
        event == (ConnectEvent::RememberingFailed { error }) ==> r.0.step is Over && r.1 is Fail
            && r.1->words@ == "persisting authorization"@ + ": "@ + error@,
        r.0.user_id == flow.user_id && r.0.key == flow.key && r.0.redirect_uri == flow.redirect_uri,
{
}

/// The course of coming back from a provider, from its first step to its last: the
/// remembered sign-in is taken up by its state, its connector is found, the code is
/// redeemed with the remembered verifier, the tokens are sealed, and the connection is
/// stored for this user with both of them.
pub proof fn a_code_becomes_a_connection(
    flow: CallbackFlow,
    pending: PendingOauth,
    c: Connector,
    secret: Option<String>,
    tokens: Tokens,
    access: Sealed,
    refresh: Sealed,
    found: (CallbackFlow, CallbackAction),
    opened: (CallbackFlow, CallbackAction),
    redeem: (CallbackFlow, CallbackAction),
    sealing: (CallbackFlow, CallbackAction),
    resealing: (CallbackFlow, CallbackAction),
    storing: (CallbackFlow, CallbackAction),
    over: (CallbackFlow, CallbackAction),
)
    requires
        flow.step is Memory,
        pending.user_id@ == flow.user_id@,
        pending.dcr_client_id is None,
        c.client_id is Some,
        tokens.refresh_token is Some,
        call_ensures(
            CallbackFlow::next,
            (flow, CallbackEvent::Taken { pending: Some(pending) }),
            found,
        ),
        call_ensures(
            CallbackFlow::next,
            (found.0, CallbackEvent::Found { connector: Some(c) }),
            opened,
        ),
        call_ensures(CallbackFlow::next, (opened.0, CallbackEvent::Opened { secret }), redeem),
        call_ensures(CallbackFlow::next, (redeem.0, CallbackEvent::Redeemed { tokens }), sealing),
        call_ensures(
            CallbackFlow::next,
            (sealing.0, CallbackEvent::Sealed { sealed: access }),
            resealing,
        ),
        call_ensures(
            CallbackFlow::next,
            (resealing.0, CallbackEvent::Sealed { sealed: refresh }),
            storing,
        ),
        call_ensures(CallbackFlow::next, (storing.0, CallbackEvent::Stored), over),
    ensures
        found.1 == (CallbackAction::Find { connector_key: pending.connector_key }),
        opened.1 is OpenCatalog,
        opt_bytes(opened.1->secret) == opt_bytes(c.client_secret_ct),
        opt_bytes(opened.1->secret_nonce) == opt_bytes(c.client_secret_nonce),
        redeem.1 is Redeem,
        redeem.1->token_url == pending.token_url,
        redeem.1->code@ == flow.step->Memory_code@,
        redeem.1->verifier == pending.pkce_verifier,
        redeem.1->redirect_uri == pending.redirect_uri,
        redeem.1->client_id@ == c.client_id->0@,
        opt_text(redeem.1->client_secret) == opt_text(secret),
        sealing.1 == (CallbackAction::Seal { token: tokens.access_token }),
        resealing.1 == (CallbackAction::Seal { token: tokens.refresh_token->0 }),
        storing.1 is Store,
        storing.1->connection.user_id == flow.user_id,
        storing.1->connection.connector_key == pending.connector_key,
        storing.1->connection.access_token_ct == access.ciphertext,
        storing.1->connection.access_token_nonce == access.nonce,
        storing.1->connection.refresh_token_ct == Some(refresh.ciphertext),
        storing.1->connection.refresh_token_nonce == Some(refresh.nonce),
        storing.1->connection.token_expires_at == tokens.expires_at,
        tokens.scopes@.len() > 0 ==> storing.1->connection.scopes@ == tokens.scopes@,
        tokens.scopes@.len() == 0 ==> storing.1->connection.scopes@ == c.scopes@,
        storing.1->connection.token_url == Some(pending.token_url),
        over.1 is Finish,
        over.1->Finish_connector_key@ == pending.connector_key@,
        over.0.step is Over,
{
}

/// A connection without a token to refresh it is stored at once, without one; a client
/// that was registered for the sign-in is the one that redeems the code.
pub proof fn a_registered_client_redeems_the_code(
    flow: CallbackFlow,
    pending: PendingOauth,
    c: Connector,
    code: String,
    r: (CallbackFlow, CallbackAction),
    access: CallbackFlow,
    sealed: Sealed,
    stored: (CallbackFlow, CallbackAction),
)
    requires
        flow.wf(),
        flow.step == (CallbackStep::Catalog { code, pending }),
        pending.dcr_client_id is Some,
        call_ensures(
            CallbackFlow::next,
            (flow, CallbackEvent::Found { connector: Some(c) }),
            r,
        ),
        access.wf(),
        access.step is Access,
        access.step->Access_refresh_token is None,
        call_ensures(CallbackFlow::next, (access, CallbackEvent::Sealed { sealed }), stored),
    ensures
        pending.dcr_client_secret_ct is Some && pending.dcr_client_secret_nonce is Some
            ==> r.1 is OpenRegistered && r.1->ciphertext@ == pending.dcr_client_secret_ct->0@
            && r.1->nonce@ == pending.dcr_client_secret_nonce->0@ && r.0.step is Secret
            && r.0.step->Secret_client_id == pending.dcr_client_id->0,
        pending.dcr_client_secret_ct is None || pending.dcr_client_secret_nonce is None
            ==> r.1 is Redeem && r.1->client_id@ == pending.dcr_client_id->0@
            && r.1->client_secret is None && r.1->code@ == code@,
        stored.1 is Store,
        stored.1->connection.access_token_ct == sealed.ciphertext,
        stored.1->connection.refresh_token_ct is None,
        stored.1->connection.refresh_token_nonce is None,
{
}

/// What stops the return from a provider is told and ends it.
pub proof fn a_stopped_return_says_why(
    flow: CallbackFlow,
    error: String,
    event: CallbackEvent,
    r: (CallbackFlow, CallbackAction),
)
    requires
        flow.wf(),
        flow.expects(event),
        call_ensures(CallbackFlow::next, (flow, event), r),
    ensures
        event == (CallbackEvent::Taken { pending: None }) ==> r.0.step is Over && r.1 == (
        CallbackAction::Refuse { why: Refusal::Expired }),
        event is Taken && event->pending is Some && event->pending->0.user_id@ != flow.user_id@
            ==> r.0.step is Over && r.1 == (CallbackAction::Refuse { why: Refusal::StateMismatch }),
        event == (CallbackEvent::Found { connector: None }) ==> r.0.step is Over && r.1 == (
        CallbackAction::Refuse { why: Refusal::ConnectorGone }),
        event is Found && event->connector is Some && flow.step->Catalog_pending.dcr_client_id
            is None && event->connector->0.client_id is None ==> r.0.step is Over && r.1 == (
        CallbackAction::Refuse { why: Refusal::MissingClientId }),
        event == (CallbackEvent::TakingFailed { error }) ==> r.0.step is Over && r.1 is Fail
            && r.1->words@ == "loading authorization"@ + ": "@ + error@,
        event == (CallbackEvent::OpeningFailed { error }) ==> r.0.step is Over && r.1 is Fail
            && r.1->words@ == "decrypting client secret"@ + ": "@ + error@,
        event == (CallbackEvent::RedeemingFailed { error }) ==> r.0.step is Over && r.1 is Fail
            && r.1->words@ == error@,
        event == (CallbackEvent::SealingFailed { error }) && flow.step is Access ==> r.0.step is Over
            && r.1 is Fail && r.1->words@ == "sealing access token"@ + ": "@ + error@,
        event == (CallbackEvent::SealingFailed { error }) && flow.step is Refresh ==> r.0.step
            is Over && r.1 is Fail && r.1->words@ == "sealing refresh token"@ + ": "@ + error@,
        event == (CallbackEvent::StoringFailed { error }) ==> r.0.step is Over && r.1 is Fail
            && r.1->words@ == "saving connection"@ + ": "@ + error@,
        r.0.user_id == flow.user_id,
{
}

/// The return from a provider begins with what it sent: an error is told, a code and a
/// state lead on, and anything else is refused.
pub proof fn a_return_begins_with_what_was_sent(
    user_id: String,
    params: CallbackParams,
    r: (CallbackFlow, CallbackAction),
)
    requires
        call_ensures(CallbackFlow::begin, (user_id, params), r),
    ensures
        r.0.user_id == user_id,
        params.error is Some ==> r.0.step is Over && r.1 is Fail && r.1->words@
            == "provider returned an error: "@ + params.error->0@ + " "@ + (
        match params.error_description {
            Some(d) => d@,
            None => Seq::empty(),
        }),
        params.error is None && params.code is Some && params.state is Some ==> r.0.step == (
        CallbackStep::Memory { code: params.code->0 }) && r.1 == (CallbackAction::Take {
            state: params.state->0,
        }),
        params.error is None && (params.code is None || params.state is None) ==> r.0.step is Over
            && r.1 == (CallbackAction::Refuse { why: Refusal::MissingCodeOrState }),
{
}

/// A sign-in begins for the user and the connector that it is asked for, with their
/// roles, and with the one address that providers send users back to.
pub proof fn a_sign_in_begins_for_its_user(
    user_id: String,
    key: String,
    public_url: &str,
    role_ids: Vec<String>,
    r: ConnectFlow,
)
    requires
        call_ensures(ConnectFlow::begin, (user_id, key, public_url, role_ids), r),
    ensures
        r.user_id == user_id,
        r.key == key,
        r.redirect_uri@ == callback_address(public_url@),
        r.step == (ConnectStep::Catalog { role_ids }),
{
}

} // verus!
