use gateway_pages::connectors::{
    audit_name, audit_title, callback_uri, finish_save, may_toggle, needs_client_words,
    parse_client_json, prepare_client, render_audit_page, render_body,
    render_form_fields, render_oauth_help, AuthKind, CatalogFault,
    Connector, McpToolEvent, SaveError, SaveForm, Scope, Sealed,
};
use gateway_pages::html::{Message, Ui};

#[test]
fn parses_google_web_client_json() {
    let raw = r#"{"web":{"client_id":"abc.apps.googleusercontent.com","client_secret":"GOCSPX-xyz","auth_uri":"https://accounts.google.com/o/oauth2/auth","token_uri":"https://oauth2.googleapis.com/token","redirect_uris":["http://localhost:8080/integrations/callback"]}}"#;
    let p = parse_client_json(raw);
    assert_eq!(
        p.client_id.as_deref(),
        Some("abc.apps.googleusercontent.com")
    );
    assert_eq!(p.client_secret.as_deref(), Some("GOCSPX-xyz"));
    assert_eq!(
        p.authorize_url.as_deref(),
        Some("https://accounts.google.com/o/oauth2/auth")
    );
    assert_eq!(
        p.token_url.as_deref(),
        Some("https://oauth2.googleapis.com/token")
    );
}

#[test]
fn parses_installed_and_bare_shapes() {
    let installed = r#"{"installed":{"client_id":"cid","client_secret":"sec"}}"#;
    assert_eq!(
        parse_client_json(installed).client_id.as_deref(),
        Some("cid")
    );
    let bare = r#"{"client_id":"cid2"}"#;
    assert_eq!(parse_client_json(bare).client_id.as_deref(), Some("cid2"));
}

#[test]
fn malformed_json_yields_none() {
    assert!(parse_client_json("not json").client_id.is_none());
    assert!(parse_client_json("{}").client_id.is_none());
}

fn form() -> SaveForm {
    SaveForm {
        key: " gh ".into(),
        name: " GitHub ".into(),
        description: Some(" ".into()),
        icon: None,
        category: None,
        url: " https://mcp ".into(),
        auth: None,
        scope: None,
        audit: None,
        use_dcr: Some("on".into()),
        client_id: Some(" typed ".into()),
        client_secret: Some(" ".into()),
        authorize_url: None,
        token_url: None,
        registration_url: None,
        scopes: Some("a,b c\td".into()),
        allowed_groups: Some("x, y".into()),
        client_json: None,
    }
}

#[test]
fn a_connector_is_read() {
    let client = prepare_client(&form()).ok().unwrap();
    assert_eq!(client.client_id.as_deref(), Some("typed"));
    assert!(client.secret.is_none());
    let c = finish_save(form(), client, None).ok().unwrap();
    assert_eq!(c.key, "gh");
    assert_eq!(c.name, "GitHub");
    assert!(c.description.is_none());
    assert_eq!(c.url, "https://mcp");
    assert_eq!(c.auth, AuthKind::OAuth2);
    assert_eq!(c.scope, Scope::PerUser);
    assert!(c.use_dcr && !c.audit);
    assert_eq!(c.scopes, vec!["a", "b", "c", "d"]);
    assert_eq!(c.allowed_groups, vec!["x", "y"]);
    assert!(c.client_secret_ct.is_none());
}

#[test]
fn a_pasted_client_wins() {
    let mut f = form();
    f.client_json = Some(
        r#"{"web":{"client_id":"pasted","client_secret":"s","token_uri":"t"}}"#.into(),
    );
    let client = prepare_client(&f).ok().unwrap();
    assert_eq!(client.client_id.as_deref(), Some("pasted"));
    assert_eq!(client.secret.as_deref(), Some("s"));
    assert_eq!(client.token_url.as_deref(), Some("t"));
    let sealed = Sealed {
        ciphertext: vec![1],
        nonce: vec![2],
    };
    let c = finish_save(f, client, Some(sealed)).ok().unwrap();
    assert_eq!(c.client_secret_ct, Some(vec![1]));
    assert_eq!(c.client_secret_nonce, Some(vec![2]));
}

#[test]
fn a_bad_connector_is_refused() {
    let mut f = form();
    f.url = " ".into();
    assert_eq!(prepare_client(&f).err(), Some(SaveError::MissingFields));
    let mut f = form();
    f.client_json = Some("{}".into());
    assert_eq!(prepare_client(&f).err(), Some(SaveError::BadClientJson));
    let mut f = form();
    f.scope = Some("global".into());
    let client = prepare_client(&f).ok().unwrap();
    assert_eq!(finish_save(f, client, None).err(), Some(SaveError::GlobalOauth));
    let mut f = form();
    f.scope = Some("global".into());
    f.auth = Some("none".into());
    let client = prepare_client(&f).ok().unwrap();
    let c = finish_save(f, client, None).ok().unwrap();
    assert_eq!(c.auth, AuthKind::NoAuth);
    assert_eq!(c.scope, Scope::Global);
}

fn stored() -> Connector {
    Connector {
        key: "gh".into(),
        name: "GitHub".into(),
        description: None,
        icon: None,
        category: None,
        url: "https://mcp".into(),
        auth: AuthKind::OAuth2,
        scope: Scope::PerUser,
        audit: false,
        use_dcr: false,
        client_id: None,
        client_secret_ct: Some(b"sealed-secret".to_vec()),
        client_secret_nonce: None,
        authorize_url: None,
        token_url: None,
        registration_url: None,
        scopes: vec![],
        allowed_groups: vec![],
        required_role: None,
        enabled: false,
        seeded: false,
    }
}

#[test]
fn a_connector_without_a_client_stays_off() {
    let mut c = stored();
    assert!(!may_toggle(true, Some(&c)));
    assert!(may_toggle(false, Some(&c)));
    assert!(may_toggle(true, None));
    c.use_dcr = true;
    assert!(may_toggle(true, Some(&c)));
}

#[test]
fn connectors_are_shown() {
    let ui = Ui {
        messages: vec![],
        icons: vec![],
        logos: vec![],
    };
    let uri = callback_uri("https://gw//");
    assert_eq!(uri, "https://gw/integrations/callback");
    let html = render_body(&ui, &vec![stored()], &uri).to_string();
    assert!(html.contains("GitHub") && html.contains("/admin/connectors"), "{html}");
    assert!(!html.contains("sealed-secret"), "{html}");
    let mut other = stored();
    other.client_secret_ct = Some(vec![0]);
    other.client_secret_nonce = Some(vec![1]);
    assert_eq!(html, render_body(&ui, &vec![other], &uri).to_string());
    let mut none = stored();
    none.client_secret_ct = None;
    for has_secret in [false, true] {
        let form = |c: &Connector| render_form_fields(&ui, Some(c), has_secret, &uri).to_string();
        assert_eq!(form(&stored()), form(&none));
    }
}

#[test]
fn uses_are_recorded() {
    assert_eq!(audit_name(Some(&stored()), "k"), "GitHub");
    assert_eq!(audit_name(None, "k"), "k");
    assert!(audit_title("GitHub").contains("GitHub"));
    let html = render_audit_page(
        "GitHub",
        "gh",
        &vec![McpToolEvent {
            created_at: "2026".into(),
            user_id: "u".into(),
            user_email: "u@x".into(),
            tool_id: "t<".into(),
            outcome: "ok".into(),
            error: None,
            arguments: Some("{}".into()),
        }],
    )
    .to_string();
    assert!(html.contains("t&lt;") && html.contains("u@x"), "{html}");
}

#[test]
fn refusals_are_worded() {
    let keys = [
        "connectors-error-needs-client-id",
        "connectors-error-missing-fields",
        "connectors-error-bad-client-json",
    ];
    let mut messages: Vec<Message> = keys
        .iter()
        .map(|k| Message {
            key: k.to_string(),
            text: format!("<{k}>"),
        })
        .collect();
    messages.push(Message {
        key: "connectors-error-saving".into(),
        text: "Not saved: {error}".into(),
    });
    let ui = Ui {
        messages,
        icons: vec![],
        logos: vec![],
    };
    assert_eq!(needs_client_words(&ui), "<connectors-error-needs-client-id>");
    assert_eq!(SaveError::MissingFields.message(&ui), "<connectors-error-missing-fields>");
    assert_eq!(SaveError::BadClientJson.message(&ui), "<connectors-error-bad-client-json>");
    let global = SaveError::GlobalOauth.message(&ui);
    assert!(global.starts_with("A global connector is a single shared identity"), "{global}");
    assert!(global.contains("Choose \"No auth\" (token baked into the server, e.g. Discord)"), "{global}");
    assert_eq!(CatalogFault::Saving.message(&ui, "full"), "Not saved: full");
}

#[test]
fn the_address_to_register_is_shown() {
    let ui = Ui {
        messages: vec![],
        icons: vec![],
        logos: vec![],
    };
    let uri = "https://gw/integrations/callback?a&b";
    let shown = "https://gw/integrations/callback?a&amp;b";
    assert!(render_oauth_help(&ui, None, uri).to_string().contains(shown));
    let mut c = stored();
    assert!(render_oauth_help(&ui, Some(&c), uri).to_string().contains(shown));
    c.use_dcr = true;
    assert!(!render_oauth_help(&ui, Some(&c), uri).to_string().contains(shown));
    c.key = "google_workspace".into();
    assert!(render_oauth_help(&ui, Some(&c), uri).to_string().contains(shown));
    c.auth = AuthKind::StaticBearer;
    assert!(!render_oauth_help(&ui, Some(&c), uri).to_string().contains(shown));
}
