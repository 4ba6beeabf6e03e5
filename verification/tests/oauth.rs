use gateway_pages::connectors::{AuthKind, Connector, Scope, Sealed};
use gateway_pages::integrations::{usable, check_connect, read_mode, read_token, set_all, token_connection, CallbackParams,
    ConnectionFault, PendingOauth, Refusal, ToolInfo, ToolMode,};
use gateway_pages::oauth::{
    CallbackAction, CallbackEvent, CallbackFlow, ConnectAction, ConnectEvent, ConnectFlow,
    Endpoints, Tokens,
};

fn connector() -> Connector {
    Connector {
        key: "gh".into(),
        name: "GitHub".into(),
        description: None,
        icon: None,
        category: None,
        url: "https://mcp".into(),
        auth: AuthKind::OAuth2,
        scope: Scope::PerUser,
        audit: false,
        use_dcr: true,
        client_id: None,
        client_secret_ct: None,
        client_secret_nonce: None,
        authorize_url: Some("https://auth".into()),
        token_url: None,
        registration_url: None,
        scopes: vec!["read".into()],
        allowed_groups: vec![],
        required_role: None,
        enabled: true,
        seeded: false,
    }
}

fn endpoints(registration: Option<&str>) -> Endpoints {
    Endpoints {
        authorize_url: "https://p/authorize".into(),
        token_url: "https://p/token".into(),
        registration_url: registration.map(|s| s.to_string()),
    }
}

fn sealed(n: u8) -> Sealed {
    Sealed {
        ciphertext: vec![n],
        nonce: vec![n, n],
    }
}

fn begin() -> ConnectFlow {
    ConnectFlow::begin("u".into(), "gh".into(), "https://gw/", vec!["dev".into()])
}

fn found(c: Connector) -> ConnectFlow {
    let (flow, action) = begin().next(ConnectEvent::Found { connector: Some(c) });
    assert!(matches!(
        action,
        ConnectAction::Discover { url, authorize_url, token_url, registration_url }
            if url == "https://mcp" && authorize_url.as_deref() == Some("https://auth")
                && token_url.is_none() && registration_url.is_none()
    ));
    flow
}

fn refusal(action: ConnectAction) -> Refusal {
    match action {
        ConnectAction::Refuse { why } => why,
        _ => panic!("not refused"),
    }
}

#[test]
fn an_account_is_connected_with_a_registered_client() {
    let flow = found(connector());
    let (flow, action) = flow.next(ConnectEvent::Discovered {
        endpoints: endpoints(Some("https://p/register")),
    });
    assert!(matches!(
        action,
        ConnectAction::Register { at, redirect_uri, client_name, scopes }
            if at == "https://p/register" && redirect_uri == "https://gw/integrations/callback"
                && client_name == "croit LLM Gateway" && scopes == vec!["read"]
    ));
    let (flow, action) = flow.next(ConnectEvent::Registered {
        client_id: "cid".into(),
        secret: Some("s".into()),
    });
    assert!(matches!(action, ConnectAction::Seal { secret } if secret == "s"));
    let (flow, action) = flow.next(ConnectEvent::Sealed { sealed: sealed(1) });
    assert!(matches!(action, ConnectAction::Draw));
    let (flow, action) = flow.next(ConnectEvent::Drawn {
        verifier: "v".into(),
        challenge: "ch".into(),
        state: "st".into(),
    });
    assert!(matches!(
        action,
        ConnectAction::Build { at, client_id, redirect_uri, scopes, state, challenge, resource }
            if at == "https://p/authorize" && client_id == "cid"
                && redirect_uri == "https://gw/integrations/callback" && scopes == vec!["read"]
                && state == "st" && challenge == "ch" && resource == "https://mcp"
    ));
    let (flow, action) = flow.next(ConnectEvent::Built {
        url: "https://p/authorize?x".into(),
    });
    let pending = match action {
        ConnectAction::Remember { pending } => pending,
        _ => panic!("not remembered"),
    };
    assert_eq!(pending.state, "st");
    assert_eq!(pending.user_id, "u");
    assert_eq!(pending.connector_key, "gh");
    assert_eq!(pending.pkce_verifier, "v");
    assert_eq!(pending.token_url, "https://p/token");
    assert_eq!(pending.resource.as_deref(), Some("https://mcp"));
    assert_eq!(pending.dcr_client_id.as_deref(), Some("cid"));
    assert_eq!(pending.dcr_client_secret_ct, Some(vec![1]));
    let (_, action) = flow.next(ConnectEvent::Remembered);
    assert!(matches!(action, ConnectAction::Leave { url } if url == "https://p/authorize?x"));
    comes_back(pending);
}

fn comes_back(pending: PendingOauth) {
    let (flow, action) = CallbackFlow::begin("u".into(), params(Some("code"), Some("st"), None));
    assert!(matches!(action, CallbackAction::Take { state } if state == "st"));
    let (flow, action) = flow.next(CallbackEvent::Taken {
        pending: Some(pending),
    });
    assert!(matches!(action, CallbackAction::Find { connector_key } if connector_key == "gh"));
    let (flow, action) = flow.next(CallbackEvent::Found {
        connector: Some(connector()),
    });
    assert!(matches!(
        action,
        CallbackAction::OpenRegistered { ciphertext, nonce } if ciphertext == vec![1] && nonce == vec![1, 1]
    ));
    let (flow, action) = flow.next(CallbackEvent::Opened {
        secret: Some("s".into()),
    });
    assert!(matches!(
        action,
        CallbackAction::Redeem { token_url, code, verifier, redirect_uri, client_id, client_secret, resource }
            if token_url == "https://p/token" && code == "code" && verifier == "v"
                && redirect_uri == "https://gw/integrations/callback" && client_id == "cid"
                && client_secret.as_deref() == Some("s") && resource == "https://mcp"
    ));
    let (flow, action) = flow.next(CallbackEvent::Redeemed {
        tokens: Tokens {
            access_token: "at".into(),
            refresh_token: Some("rt".into()),
            expires_at: Some(7),
            scopes: vec![],
        },
    });
    assert!(matches!(action, CallbackAction::Seal { token } if token == "at"));
    let (flow, action) = flow.next(CallbackEvent::Sealed { sealed: sealed(2) });
    assert!(matches!(action, CallbackAction::Seal { token } if token == "rt"));
    let (flow, action) = flow.next(CallbackEvent::Sealed { sealed: sealed(3) });
    let c = match action {
        CallbackAction::Store { connection } => connection,
        _ => panic!("not stored"),
    };
    assert_eq!(c.user_id, "u");
    assert_eq!(c.connector_key, "gh");
    assert_eq!(c.access_token_ct, vec![2]);
    assert_eq!(c.refresh_token_ct, Some(vec![3]));
    assert_eq!(c.token_expires_at, Some(7));
    assert_eq!(c.scopes, vec!["read"]);
    assert_eq!(c.dcr_client_id.as_deref(), Some("cid"));
    assert_eq!(c.token_url.as_deref(), Some("https://p/token"));
    let (_, action) = flow.next(CallbackEvent::Stored);
    assert!(matches!(action, CallbackAction::Finish { connector_key } if connector_key == "gh"));
}

#[test]
fn a_configured_client_needs_no_registration() {
    let mut c = connector();
    c.client_id = Some("static".into());
    let (flow, action) = found(c).next(ConnectEvent::Discovered {
        endpoints: endpoints(None),
    });
    assert!(matches!(action, ConnectAction::Draw));
    let (flow, _) = flow.next(ConnectEvent::Drawn {
        verifier: "v".into(),
        challenge: "ch".into(),
        state: "st".into(),
    });
    let (_, action) = flow.next(ConnectEvent::Built { url: "x".into() });
    assert!(matches!(
        action,
        ConnectAction::Remember { pending } if pending.dcr_client_id.is_none() && pending.dcr_client_secret_ct.is_none()
    ));
}

#[test]
fn connecting_is_refused() {
    let (_, action) = begin().next(ConnectEvent::Found { connector: None });
    assert_eq!(refusal(action), Refusal::UnknownOrDisabled);
    let mut c = connector();
    c.required_role = Some("admin".into());
    let (_, action) = begin().next(ConnectEvent::Found { connector: Some(c) });
    assert_eq!(refusal(action), Refusal::NoAccess);
    let mut c = connector();
    c.auth = AuthKind::StaticBearer;
    assert!(check_connect(Some(&c), &vec![], AuthKind::StaticBearer).is_none());
    let (_, action) = begin().next(ConnectEvent::Found { connector: Some(c) });
    assert_eq!(refusal(action), Refusal::NotOauth);
    let (_, action) = found(connector()).next(ConnectEvent::Discovered {
        endpoints: endpoints(None),
    });
    assert_eq!(refusal(action), Refusal::NoRegistration);
    let mut c = connector();
    c.use_dcr = false;
    let (_, action) = found(c).next(ConnectEvent::Discovered {
        endpoints: endpoints(Some("x")),
    });
    assert_eq!(refusal(action), Refusal::NeedsClientId);
    assert_eq!(
        Refusal::NeedsClientId.message(),
        "this connector needs setup: an admin must configure an OAuth client id."
    );
    assert!(Refusal::NoAccess.is_forbidden() && !Refusal::NotOauth.is_forbidden());
}

#[test]
fn connecting_can_fail() {
    let words = |action: ConnectAction| match action {
        ConnectAction::Fail { words } => words,
        _ => panic!("no failure"),
    };
    let (_, a) = found(connector()).next(ConnectEvent::DiscoveryFailed { error: "e".into() });
    assert_eq!(words(a), "OAuth discovery failed: e");
    let registering = || {
        found(connector())
            .next(ConnectEvent::Discovered {
                endpoints: endpoints(Some("x")),
            })
            .0
    };
    let (_, a) = registering().next(ConnectEvent::RegistrationFailed { error: "e".into() });
    assert_eq!(words(a), "dynamic client registration failed: e");
    let (flow, _) = registering().next(ConnectEvent::Registered {
        client_id: "c".into(),
        secret: Some("s".into()),
    });
    let (_, a) = flow.next(ConnectEvent::SealingFailed { error: "e".into() });
    assert_eq!(words(a), "sealing client secret: e");
    let drawing = || {
        registering()
            .next(ConnectEvent::Registered {
                client_id: "c".into(),
                secret: None,
            })
            .0
            .next(ConnectEvent::Drawn {
                verifier: "v".into(),
                challenge: "c".into(),
                state: "s".into(),
            })
            .0
    };
    let (_, a) = drawing().next(ConnectEvent::BuildingFailed { error: "e".into() });
    assert_eq!(words(a), "building authorize URL: e");
    let (flow, _) = drawing().next(ConnectEvent::Built { url: "u".into() });
    let (_, a) = flow.next(ConnectEvent::RememberingFailed { error: "e".into() });
    assert_eq!(words(a), "persisting authorization: e");
}

fn params(code: Option<&str>, state: Option<&str>, error: Option<&str>) -> CallbackParams {
    CallbackParams {
        code: code.map(|s| s.to_string()),
        state: state.map(|s| s.to_string()),
        error: error.map(|s| s.to_string()),
        error_description: Some("why".into()),
    }
}

fn pending(user: &str) -> PendingOauth {
    PendingOauth {
        state: "st".into(),
        user_id: user.into(),
        connector_key: "gh".into(),
        pkce_verifier: "v".into(),
        redirect_uri: "r".into(),
        token_url: "t".into(),
        resource: None,
        dcr_client_id: None,
        dcr_client_secret_ct: None,
        dcr_client_secret_nonce: None,
        return_to: None,
    }
}

#[test]
fn coming_back_is_refused() {
    let why = |action: CallbackAction| match action {
        CallbackAction::Refuse { why } => why,
        _ => panic!("not refused"),
    };
    let (_, a) = CallbackFlow::begin("u".into(), params(None, Some("s"), None));
    assert_eq!(why(a), Refusal::MissingCodeOrState);
    let memory = || CallbackFlow::begin("u".into(), params(Some("c"), Some("s"), None)).0;
    let (_, a) = memory().next(CallbackEvent::Taken { pending: None });
    assert_eq!(why(a), Refusal::Expired);
    let (_, a) = memory().next(CallbackEvent::Taken {
        pending: Some(pending("other")),
    });
    assert_eq!(why(a), Refusal::StateMismatch);
    let catalog = || {
        memory()
            .next(CallbackEvent::Taken {
                pending: Some(pending("u")),
            })
            .0
    };
    let (_, a) = catalog().next(CallbackEvent::Found { connector: None });
    assert_eq!(why(a), Refusal::ConnectorGone);
    let (_, a) = catalog().next(CallbackEvent::Found {
        connector: Some(connector()),
    });
    assert_eq!(why(a), Refusal::MissingClientId);
}

#[test]
fn coming_back_can_fail() {
    let words = |action: CallbackAction| match action {
        CallbackAction::Fail { words } => words,
        _ => panic!("no failure"),
    };
    let (_, a) = CallbackFlow::begin("u".into(), params(None, None, Some("denied")));
    assert_eq!(words(a), "provider returned an error: denied why");
    let memory = || CallbackFlow::begin("u".into(), params(Some("c"), Some("s"), None)).0;
    let (_, a) = memory().next(CallbackEvent::TakingFailed { error: "e".into() });
    assert_eq!(words(a), "loading authorization: e");
    let secret = || {
        let mut c = connector();
        c.client_id = Some("static".into());
        c.client_secret_ct = Some(vec![9]);
        c.client_secret_nonce = Some(vec![8]);
        let (flow, a) = memory()
            .next(CallbackEvent::Taken {
                pending: Some(pending("u")),
            })
            .0
            .next(CallbackEvent::Found { connector: Some(c) });
        assert!(matches!(
            a,
            CallbackAction::OpenCatalog { secret, secret_nonce }
                if secret == Some(vec![9]) && secret_nonce == Some(vec![8])
        ));
        flow
    };
    let (_, a) = secret().next(CallbackEvent::OpeningFailed { error: "e".into() });
    assert_eq!(words(a), "decrypting client secret: e");
    let exchange = || secret().next(CallbackEvent::Opened { secret: None }).0;
    let (_, a) = exchange().next(CallbackEvent::RedeemingFailed { error: "e".into() });
    assert_eq!(words(a), "e");
    let access = |refresh: Option<&str>| {
        exchange()
            .next(CallbackEvent::Redeemed {
                tokens: Tokens {
                    access_token: "a".into(),
                    refresh_token: refresh.map(|s| s.to_string()),
                    expires_at: None,
                    scopes: vec!["granted".into()],
                },
            })
            .0
    };
    let (_, a) = access(None).next(CallbackEvent::SealingFailed { error: "e".into() });
    assert_eq!(words(a), "sealing access token: e");
    let (flow, _) = access(Some("r")).next(CallbackEvent::Sealed { sealed: sealed(1) });
    let (_, a) = flow.next(CallbackEvent::SealingFailed { error: "e".into() });
    assert_eq!(words(a), "sealing refresh token: e");
    let (flow, a) = access(None).next(CallbackEvent::Sealed { sealed: sealed(1) });
    assert!(matches!(
        a,
        CallbackAction::Store { connection }
            if connection.scopes == vec!["granted"] && connection.refresh_token_ct.is_none()
    ));
    let (_, a) = flow.next(CallbackEvent::StoringFailed { error: "e".into() });
    assert_eq!(words(a), "saving connection: e");
}

#[test]
fn tokens_are_pasted() {
    assert_eq!(read_token(" t ").ok().unwrap(), "t");
    assert_eq!(read_token(" ").err().unwrap(), Refusal::TokenRequired);
    let c = token_connection("u".into(), "k".into(), sealed(5));
    assert_eq!(c.access_token_ct, vec![5]);
    assert!(c.refresh_token_ct.is_none() && c.scopes.is_empty() && c.token_url.is_none());
}

#[test]
fn modes_are_read_and_set() {
    for mode in [ToolMode::Always, ToolMode::Ask, ToolMode::Off] {
        assert_eq!(ToolMode::parse(mode.as_str()), Some(mode));
    }
    assert_eq!(read_mode("never").err().unwrap(), Refusal::InvalidMode);
    let tools = vec![ToolInfo {
        remote_name: "t".into(),
        description: String::new(),
        read_only: false,
        mode: ToolMode::Ask,
    }];
    assert_eq!(set_all(&tools, ToolMode::Off), vec![("t".to_string(), ToolMode::Off)]);
}

#[test]
fn faults_are_worded() {
    assert_eq!(ConnectionFault::Sealing.message("e"), "sealing token: e");
    assert_eq!(ConnectionFault::Saving.message("e"), "saving connection: e");
    assert_eq!(ConnectionFault::Disconnecting.message("e"), "disconnecting: e");
    assert_eq!(ConnectionFault::Permission.message("e"), "saving tool permission: e");
    assert_eq!(ConnectionFault::Permissions.message("e"), "saving permissions: e");
    assert_eq!(ConnectionFault::Listing.message("e"), "listing tools: e");
}

#[test]
fn only_permitted_connectors_are_shown() {
    let needs = |key: &str, role: Option<&str>| Connector {
        key: key.into(),
        required_role: role.map(str::to_string),
        ..connector()
    };
    let all = vec![needs("a", Some("ops")), needs("b", None), needs("c", Some("dev"))];
    let shown = usable(all, &vec!["dev".into()]);
    let keys: Vec<&str> = shown.iter().map(|c| c.key.as_str()).collect();
    assert_eq!(keys, vec!["b", "c"]);
    assert!(usable(vec![], &vec![]).is_empty());
}
