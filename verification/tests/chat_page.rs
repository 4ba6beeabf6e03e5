use gateway_pages::chat::effort::Effort;
use gateway_pages::chat::render::{
    cap_icon, composer_opts, model_label, render_capabilities, render_chat_page,
    render_export_control, render_share_control, session_label, tail_url, CapKind, CapabilityRow,
    ChatPage, ComposerOpts,
};
use gateway_pages::chat::Session;
use gateway_pages::compliance::ChatModelOption;
use gateway_pages::html::{Html, Icon, Ui};

fn ui() -> Ui {
    Ui {
        messages: vec![],
        icons: vec![],
        logos: vec![],
    }
}

fn session() -> Session {
    Session {
        id: "s1".into(),
        user_id: "u1".into(),
        title: None,
        shared: false,
        pinned: false,
    }
}

/// A field to write in, with what the page asks of it.
fn composer(opts: Option<ComposerOpts>) -> Html {
    match opts {
        Some(o) => Html::new("<form data-signals=\"{chatStreaming: ")
            .raw(if o.streaming { "true" } else { "false" })
            .raw("}\" action=\"")
            .text(&o.post_url)
            .raw("\" data-cancel=\"")
            .text(&o.cancel_url)
            .raw("\">")
            .html(o.toolbar)
            .raw("</form>"),
        None => Html::empty(),
    }
}

fn render(page: &ChatPage<'_>) -> String {
    let field = composer(composer_opts(&ui(), page));
    render_chat_page(&ui(), page, Html::empty(), field).to_string()
}

fn page_body(in_flight: Option<&str>) -> String {
    page_body_ro(in_flight, false)
}

fn page_body_ro(in_flight: Option<&str>, read_only: bool) -> String {
    let s = session();
    render(&ChatPage {
        active: &s,
        in_flight_turn_id: in_flight,
        models: &vec![],
        transcription_models: &vec![],
        error_msg: None,
        read_only,
        shared: false,
        effort: Effort::Standard,
        capabilities: &vec![],
        document_canvas: None,
    })
}

fn page_body_with_models(models: &Vec<ChatModelOption>, read_only: bool) -> String {
    let s = session();
    render(&ChatPage {
        active: &s,
        in_flight_turn_id: None,
        models,
        transcription_models: &vec![],
        error_msg: None,
        read_only,
        shared: false,
        effort: Effort::Standard,
        capabilities: &vec![],
        document_canvas: None,
    })
}

fn opt(id: &str, gdpr: bool, nda: bool) -> ChatModelOption {
    ChatModelOption {
        id: id.into(),
        gdpr,
        nda,
    }
}

#[test]
fn model_label_suffixes_each_restriction() {
    assert_eq!(model_label(&opt("qwen", true, true)), "qwen");
    assert_eq!(
        model_label(&opt("glm-4.6", false, true)),
        "glm-4.6 (non-GDPR)"
    );
    assert_eq!(
        model_label(&opt("x", true, false)),
        "x (confidential-restricted)"
    );
    assert_eq!(
        model_label(&opt("glm-5.2", false, false)),
        "glm-5.2 (non-GDPR, confidential-restricted)"
    );
}

#[test]
fn compliant_models_emit_no_warning_banner_or_flags() {
    let body = page_body_with_models(&vec![opt("qwen", true, true)], false);
    assert!(
        !body.contains("non-GDPR"),
        "no suffix for clear model: {body}"
    );
    assert!(
        body.contains("gdprFlagged: []") && body.contains("ndaFlagged: []"),
        "clear models must yield empty flag arrays: {body}"
    );
    assert!(
        !body.contains("non-GDPR-compliant model"),
        "no GDPR banner copy expected: {body}"
    );
}

#[test]
fn flagged_model_wires_dropdown_suffix_signals_and_banner() {
    let body = page_body_with_models(&vec![opt("glm-4.6", false, true)], false);
    assert!(
        body.contains("glm-4.6 (non-GDPR)"),
        "dropdown option must show the suffix: {body}"
    );
    assert!(
        body.contains(r#"gdprFlagged: [&quot;glm-4.6&quot;]"#),
        "model must be in the gdprFlagged signal array: {body}"
    );
    assert!(
        body.contains(r#"selectedModel: &quot;glm-4.6&quot;"#),
        "default model must seed selectedModel: {body}"
    );
    assert!(
        body.contains("$gdprFlagged.includes($selectedModel)"),
        "GDPR banner must react to the selected model: {body}"
    );
    assert!(
        body.contains("non-GDPR-compliant model. Do not enter personal"),
        "GDPR banner copy must be present: {body}"
    );
    assert!(
        body.contains("ndaFlagged: []"),
        "nda-clear model must not be flagged for NDA: {body}"
    );
    assert!(
        body.contains("$selectedModel = evt.target.value"),
        "model select must update selectedModel on change: {body}"
    );
    assert!(
        body.contains(r#"$selectedModel = document.getElementById(&#39;model&#39;)?.value"#),
        "compliance signals must sync from the picker on data-init: {body}"
    );
}

#[test]
fn read_only_viewer_sees_no_compliance_ui() {
    let body = page_body_with_models(&vec![opt("glm-4.6", false, false)], true);
    assert!(
        !body.contains("gdprFlagged"),
        "read-only view must not wire compliance signals: {body}"
    );
    assert!(
        !body.contains("non-GDPR-compliant model"),
        "read-only view must not show the banner: {body}"
    );
}

#[test]
fn share_control_posts_without_form_serialization() {
    let s = render_share_control("/chat/s1/share", false).to_string();
    assert!(
        s.contains("@post(&#39;/chat/s1/share&#39;)"),
        "share toggle must POST plainly; got {s}"
    );
    assert!(
        !s.contains("contentType"),
        "no enclosing form exists — must not request form serialization; got {s}"
    );
}

#[test]
fn in_flight_turn_arms_the_stop_control_on_load() {
    assert!(
        page_body(Some("t1")).contains("chatStreaming: true"),
        "an in-flight turn must arm the Stop control server-side"
    );
}

#[test]
fn idle_page_renders_composer_not_streaming() {
    assert!(
        page_body(None).contains("chatStreaming: false"),
        "an idle page must not seed the streaming/stop state"
    );
}

#[test]
fn export_links_present_for_owner_and_shared_viewer() {
    for read_only in [false, true] {
        let body = page_body_ro(None, read_only);
        assert!(
            body.contains("/chat/s1/export.pdf"),
            "PDF export link missing (read_only={read_only}): {body}"
        );
        assert!(
            body.contains("/chat/s1/export.md"),
            "Markdown export link missing (read_only={read_only}): {body}"
        );
    }
}

#[test]
fn fork_button_only_for_read_only_viewer_and_posts_plainly() {
    let owner = page_body_ro(None, false);
    assert!(
        !owner.contains("/chat/s1/fork"),
        "owner must not see the fork button: {owner}"
    );

    let viewer = page_body_ro(None, true);
    assert!(
        viewer.contains("id=\"fork-button\""),
        "read-only viewer must see the fork button: {viewer}"
    );
    assert!(
        viewer.contains("@post(&#39;/chat/s1/fork&#39;)"),
        "fork button must POST plainly to the fork endpoint: {viewer}"
    );
    assert!(
        !viewer.contains("/chat/s1/messages"),
        "read-only view must not expose the message endpoint: {viewer}"
    );
}

#[test]
fn export_links_are_plain_downloads_not_spa_nav() {
    let menu = render_export_control(&ui(), "s1").to_string();
    assert!(menu.contains("download"), "expected download attr: {menu}");
    assert!(
        !menu.contains("data-on"),
        "export links must not carry datastar directives: {menu}"
    );
}

#[test]
fn effort_picker_wires_to_effort_endpoint_with_current_selected() {
    let body = page_body(None);
    assert!(
        body.contains("/chat/s1/effort"),
        "effort picker must post to the effort endpoint: {body}"
    );
    for label in ["Fast", "Standard", "Deep", "Max"] {
        assert!(
            body.contains(label),
            "missing effort level `{label}`: {body}"
        );
    }
    assert!(
        body.contains("value=\"standard\" selected=\"selected\""),
        "the current effort must be pre-selected: {body}"
    );
}

fn capability(key: &str, kind: CapKind, label: &str, group: &str, enabled: bool) -> CapabilityRow {
    CapabilityRow {
        key: key.into(),
        kind,
        label: label.into(),
        group: group.into(),
        enabled,
        icon: None,
    }
}

#[test]
fn capabilities_menu_wires_toggle_and_reflects_state() {
    let caps = vec![
        capability("mcp__atlassian", CapKind::Tool, "Atlassian", "Integrations", true),
        capability("mcp__gitlab", CapKind::Tool, "GitLab", "Integrations", false),
        capability("brand", CapKind::Skill, "Brand", "Skills", false),
    ];
    let html = render_capabilities(&ui(), "s1", &caps, false).to_string();
    assert!(
        html.contains("id=\"capabilities\""),
        "mount id missing: {html}"
    );
    assert!(
        html.contains("id=\"cap-wrap\""),
        "wrapper id missing: {html}"
    );
    assert!(
        html.contains("capMenu"),
        "open-state signal missing: {html}"
    );
    assert!(
        html.contains("Integrations") && html.contains("Skills"),
        "section headings missing: {html}"
    );
    assert!(
        !html.contains("<form"),
        "capability toggles must not be nested forms: {html}"
    );
    assert!(
        html.contains("/chat/s1/capabilities?kind=tool&amp;key=mcp__atlassian"),
        "integration toggle must @post kind+key in the query: {html}"
    );
    assert!(
        html.contains("kind=skill&amp;key=brand"),
        "skill toggle must be wired by kind=skill: {html}"
    );
    assert!(
        html.contains("kind=tool&amp;key=mcp__gitlab"),
        "second integration toggle must be wired: {html}"
    );
    assert!(html.contains("Atlassian"), "enabled label missing: {html}");
    assert!(
        html.contains("×"),
        "enabled chip must carry a remove affordance: {html}"
    );
    assert!(
        html.contains("display:none"),
        "menu must start closed: {html}"
    );
    let open = render_capabilities(&ui(), "s1", &caps, true).to_string();
    assert!(
        open.contains("display:block"),
        "open render must show the menu: {open}"
    );
}

#[test]
fn read_only_view_exposes_no_capabilities_or_effort_controls() {
    let viewer = page_body_ro(None, true);
    assert!(
        !viewer.contains("/chat/s1/effort"),
        "read-only view must not expose the effort endpoint: {viewer}"
    );
    assert!(
        !viewer.contains("/chat/s1/capabilities"),
        "read-only view must not expose the capabilities endpoint: {viewer}"
    );
}

#[test]
fn a_reply_in_flight_is_followed() {
    let s = session();
    let mut page = ChatPage {
        active: &s,
        in_flight_turn_id: Some("t1"),
        models: &vec![],
        transcription_models: &vec![],
        error_msg: None,
        read_only: false,
        shared: false,
        effort: Effort::Fast,
        capabilities: &vec![],
        document_canvas: None,
    };
    assert_eq!(tail_url(&page).as_deref(), Some("/chat/s1/tail"));
    page.in_flight_turn_id = None;
    assert!(tail_url(&page).is_none());
    assert_eq!(composer_opts(&ui(), &page).unwrap().post_url, "/chat/s1/messages");
    page.read_only = true;
    assert!(composer_opts(&ui(), &page).is_none());
}

#[test]
fn untitled_conversations_have_a_name() {
    let mut s = session();
    assert_eq!(session_label(&s), "New conversation");
    s.title = Some("Weather".into());
    assert_eq!(session_label(&s), "Weather");
}

#[test]
fn integrations_show_their_logo() {
    let ui = Ui {
        messages: vec![],
        icons: vec![Icon {
            name: "plug".into(),
            size: 16,
            markup: Html::new("<svg>plug</svg>"),
        }],
        logos: vec![Icon {
            name: "gitlab".into(),
            size: 16,
            markup: Html::new("<svg>fox</svg>"),
        }],
    };
    let mut c = capability("mcp__gitlab", CapKind::Tool, "GitLab", "Integrations", false);
    assert_eq!(cap_icon(&ui, &c).to_string(), "<svg>fox</svg>");
    c.key = "mcp__other".into();
    assert_eq!(cap_icon(&ui, &c).to_string(), "<svg>plug</svg>");
    c.icon = Some("gitlab".into());
    assert_eq!(cap_icon(&ui, &c).to_string(), "<svg>fox</svg>");
    c.icon = Some("🦊".into());
    assert!(cap_icon(&ui, &c).to_string().contains("🦊"));
}

#[test]
fn the_menu_is_searched_without_regard_to_case() {
    let caps = vec![capability("k", CapKind::Skill, "ÄPFEL", "Skills", false)];
    let html = render_capabilities(&ui(), "s1", &caps, true).to_string();
    assert!(html.contains("äpfel"), "{html}");
}

#[test]
fn a_title_is_escaped() {
    let mut s = session();
    s.title = Some("<b>&\"'".into());
    let body = render(&ChatPage {
        active: &s,
        in_flight_turn_id: None,
        models: &vec![],
        transcription_models: &vec![],
        error_msg: None,
        read_only: false,
        shared: false,
        effort: Effort::Fast,
        capabilities: &vec![],
        document_canvas: None,
    });
    assert!(body.contains("&lt;b&gt;&amp;&quot;&#39;"), "{body}");
    assert!(!body.contains("<b>"), "{body}");
}
