use gateway_pages::chat::capabilities::{
    apply_capability_state, build_capabilities, menu_row, read_state, targets, CapabilitySources,
    unknown_state, ConnectedInfo, OverlayWrite, SkillInfo, ToolChoice, ToolState,
};
use gateway_pages::chat::effort::Effort;
use gateway_pages::chat::export::{attachment_headers, download_response, export_filename, slugify};
use gateway_pages::chat::flow::{Action, Event, Step, TurnFlow};
use gateway_pages::chat::models::{promote, promote_option};
use gateway_pages::chat::render::CapKind;
use gateway_pages::chat::submit::{
    augment_user_text, field_kind, first_message_title, parse_version_query, plan_attachment,
    submit_boundary, upload_failed, AttachmentPlan, ChatSubmit, FieldKind, SubmitDraft,
};
use gateway_pages::chat::view::{
    already_gone, attachment_text, carries_files, check_attachment, check_edit, document_shown,
    effort_answer, fetch_refusal, followed_turn, fork_refusal, load_owned_turn, new_bubbles,
    notification_title, page_state, page_title, pdf_refusal, pin_answer, plan_edit, plan_retry, plan_tail, plan_view,
    push_message, read_open_chat, session_path, share_answer, sidebar_changed, turn_changed,
    turn_outcome, voice_available, whole_conversation, Offer, PageFacts,
    Settings, TailPlan, Turn, TurnRole, TurnStatus, Worker,
};
use gateway_pages::chat::Session;
use gateway_pages::compliance::ChatModelOption;
use gateway_pages::html::{Html, Message, Ui};
use gateway_pages::tool_toggles::{Category, ToolEntry};
use gateway_pages::updates::{Answer, FlashKind, Update};

fn ui() -> Ui {
    Ui {
        messages: vec![Message {
            key: "chat-toast-effort-set".into(),
            text: "Now {level}".into(),
        }],
        icons: vec![],
        logos: vec![],
    }
}

fn session(owner: &str) -> Session {
    Session {
        id: "abc-def".into(),
        user_id: owner.into(),
        title: None,
        shared: false,
        pinned: false,
    }
}

fn worker(session_id: &str) -> Worker {
    Worker {
        session_id: session_id.into(),
        turn_id: "t".into(),
    }
}

fn submit(text: &str, files: &[&str]) -> ChatSubmit {
    ChatSubmit {
        model: "m".into(),
        user_text: text.into(),
        attachments: files.iter().map(|s| s.to_string()).collect(),
        voice: true,
    }
}

/// Runs the course of a message up to the slot.
fn waiting(titled: bool) -> TurnFlow {
    let (flow, a) = TurnFlow::message().next(&ui(), Event::SessionFound { titled });
    assert!(matches!(a[0], Action::CheckLimits));
    let (flow, a) = flow.next(&ui(), Event::WithinLimits);
    assert!(matches!(a[0], Action::ReadBody));
    let (flow, a) = flow.next(&ui(), Event::BodyRead);
    assert!(matches!(a[0], Action::ReadSubmit));
    let (flow, a) = flow.next(
        &ui(),
        Event::Submitted {
            submit: submit("hi", &["[file]"]),
        },
    );
    assert!(matches!(a[0], Action::TakeSlot));
    flow
}

fn refusal(actions: &[Action]) -> (bool, String) {
    match actions {
        [Action::Refuse { message }] => (false, message.clone()),
        [Action::FreeSlot, Action::Refuse { message }] => (true, message.clone()),
        _ => panic!("not refused"),
    }
}

#[test]
fn a_message_takes_its_course() {
    let (flow, a) = waiting(false).next(&ui(), Event::SlotTaken);
    assert!(matches!(&a[..], [Action::StoreUserTurn { text }] if text == "hi\n\n[file]"));
    let (flow, a) = flow.next(&ui(), Event::UserTurnStored);
    assert!(matches!(
        &a[..],
        [Action::StoreTitle { title }, Action::StoreReply { model }] if title == "hi" && model == "m"
    ));
    let (flow, a) = flow.next(&ui(), Event::ReplyStored);
    assert!(matches!(
        &a[..],
        [
            Action::Touch,
            Action::Listen,
            Action::AnnounceTitle,
            Action::StartWorker { model, voice: true },
            Action::FindTitle { text, .. },
            Action::StreamNew
        ] if model == "m" && text == "hi"
    ));
    assert_eq!(flow.step, Step::Over);
}

#[test]
fn a_titled_conversation_keeps_its_title() {
    let (flow, _) = waiting(true).next(&ui(), Event::SlotTaken);
    let (flow, a) = flow.next(&ui(), Event::UserTurnStored);
    assert!(matches!(&a[..], [Action::StoreReply { .. }]));
    let (_, a) = flow.next(&ui(), Event::ReplyStored);
    assert!(matches!(
        &a[..],
        [Action::Touch, Action::Listen, Action::StartWorker { .. }, Action::StreamNew]
    ));
}

#[test]
fn a_message_is_refused() {
    let (_, a) = TurnFlow::message().next(&ui(), Event::SessionMissing);
    assert_eq!(refusal(&a), (false, "chat-error-conversation-not-found".to_string()));
    let (flow, _) = TurnFlow::message().next(&ui(), Event::SessionFound { titled: true });
    let (_, a) = flow.next(&ui(), Event::OverLimits);
    assert_eq!(refusal(&a), (false, "chat-error-rate-limited".to_string()));
    let (_, a) = waiting(true).next(&ui(), Event::SlotBusy);
    assert_eq!(refusal(&a), (false, "chat-error-still-streaming".to_string()));
    let (flow, _) = waiting(true).next(&ui(), Event::SlotTaken);
    let (_, a) = flow.next(&ui(), Event::Failed { error: "db".into() });
    assert_eq!(refusal(&a), (true, "db".to_string()));
    let (flow, _) = TurnFlow::message().next(&ui(), Event::SessionFound { titled: true });
    let (flow, _) = flow.next(&ui(), Event::WithinLimits);
    let (flow, _) = flow.next(&ui(), Event::BodyRead);
    let (_, a) = flow.next(&ui(), Event::Submitted { submit: submit("", &[]) });
    assert_eq!(refusal(&a), (false, "chat-error-message-empty".to_string()));
}

#[test]
fn a_reply_is_written_again() {
    let (flow, a) = TurnFlow::again("m2".into());
    assert!(matches!(&a[..], [Action::TakeSlot]));
    let (flow, a) = flow.next(&ui(), Event::SlotTaken);
    assert!(matches!(&a[..], [Action::StoreReply { model }] if model == "m2"));
    let (_, a) = flow.next(&ui(), Event::ReplyStored);
    assert!(matches!(
        &a[..],
        [Action::Touch, Action::Listen, Action::StartWorker { voice: false, .. }, Action::StreamAll]
    ));
}

#[test]
fn messages_are_assembled() {
    assert_eq!(augment_user_text(&submit("a", &["x", "y"])), "a\n\nx\n\ny");
    assert_eq!(augment_user_text(&submit("", &["x"])), "x");
    let draft = SubmitDraft::new()
        .text_field(FieldKind::Model, " m ".into())
        .text_field(FieldKind::Message, " hi ".into())
        .text_field(FieldKind::Voice, " 1 ".into())
        .file("marker".into());
    let s = draft.finish().ok().unwrap();
    assert_eq!(s.model, "m");
    assert_eq!(s.user_text, "hi");
    assert!(s.voice);
    assert_eq!(s.attachments, vec!["marker"]);
    let none = SubmitDraft::new().text_field(FieldKind::Model, " ".into());
    assert_eq!(none.finish().err().as_deref(), Some("no model selected"));
    assert_eq!(field_kind("attachment"), FieldKind::Attachment);
    assert_eq!(field_kind("else"), FieldKind::Other);
    assert_eq!(upload_failed("f", "e"), "upload `f`: e");
}

#[test]
fn attachments_are_planned() {
    assert!(matches!(plan_attachment(String::new(), true, false, None), AttachmentPlan::Skip));
    assert!(matches!(
        plan_attachment("a.png".into(), true, false, None),
        AttachmentPlan::NotConfigured { .. }
    ));
    assert!(
        matches!(plan_attachment("a.png".into(), false, true, None), AttachmentPlan::Store { desired } if desired == "a.png")
    );
    assert!(
        matches!(plan_attachment(" ".into(), false, true, Some(".png")), AttachmentPlan::Store { desired } if desired == "pasted.png")
    );
    assert!(
        matches!(plan_attachment(String::new(), false, true, None), AttachmentPlan::Store { desired } if desired == "pasted.bin")
    );
    assert_eq!(
        submit_boundary("multipart/form-data; boundary=\"b c\"").ok().as_deref(),
        Some("b c")
    );
    assert!(submit_boundary("multipart/form-data").is_err());
}

#[test]
fn first_messages_become_titles() {
    assert_eq!(first_message_title(" hello \nworld"), "hello");
    assert_eq!(first_message_title(&"x".repeat(65)), format!("{}…", "x".repeat(64)));
    assert_eq!(first_message_title(""), "");
    assert_eq!(first_message_title(&("Hi".to_string() + &" ".repeat(63))), "Hi");
    assert_eq!(first_message_title(&("Hi\n".to_string() + &"x".repeat(100))), "Hi…");
    assert_eq!(first_message_title(&("Hi\r\n".to_string() + &" \n".repeat(50))), "Hi");
    assert_eq!(first_message_title(&("\n".to_string() + &"x".repeat(100))), "…");
    assert_eq!(first_message_title(&"x".repeat(64)), "x".repeat(64));
    assert_eq!(parse_version_query("a=b&version=3"), Some(3));
    assert_eq!(parse_version_query("version=x&version=3"), None);
    assert_eq!(parse_version_query("a"), None);
}

#[test]
fn conversations_are_exported() {
    assert_eq!(slugify("  Ceph vs. SeaweedFS! "), "ceph-vs-seaweedfs");
    assert_eq!(slugify("äöü"), "");
    assert_eq!(slugify(&"a".repeat(70)).len(), 60);
    let mut s = session("u");
    assert_eq!(export_filename(&s, "pdf"), "chat-abc.pdf");
    s.title = Some("My Chat".into());
    assert_eq!(export_filename(&s, "md"), "my-chat.md");
    let h = download_response("application/pdf", "a.pdf", 7);
    let pairs: Vec<(&str, &str)> =
        h.iter().map(|h| (h.name.as_str(), h.value.as_str())).collect();
    assert_eq!(
        pairs,
        vec![
            ("content-type", "application/pdf"),
            ("content-length", "7"),
            ("content-disposition", "attachment; filename=\"a.pdf\""),
            ("cache-control", "no-store"),
        ]
    );
    assert_eq!(attachment_headers("image/png", 1)[2].value, "private, max-age=3600");
}

#[test]
fn efforts_read_back() {
    for e in [Effort::Fast, Effort::Standard, Effort::Deep, Effort::Max] {
        assert_eq!(Effort::from_db(Some(e.as_str())), e);
    }
    assert_eq!(Effort::from_db(None), Effort::Standard);
    assert_eq!(Effort::from_db(Some("nonsense")), Effort::Standard);
    match effort_answer(&ui(), "s", Effort::Deep, true) {
        Answer::Changes { updates } => {
            assert!(matches!(&updates[0], Update::Toast { message, .. } if message == "Now Deep"))
        }
        Answer::SeeOther { .. } => panic!("a script needs changes"),
    }
    assert!(matches!(effort_answer(&ui(), "s", Effort::Deep, false), Answer::SeeOther { to } if to == "/chat/s"));
}

#[test]
fn only_the_owner_changes_a_conversation() {
    let w = worker("abc-def");
    let p = plan_view(&session("u"), "u", Some(&w));
    assert!(!p.read_only);
    assert_eq!(p.sweep, Some(Some("t".to_string())));
    let other = worker("other");
    assert_eq!(plan_view(&session("u"), "u", Some(&other)).sweep, Some(None));
    let p = plan_view(&session("u"), "v", Some(&w));
    assert!(p.read_only && p.sweep.is_none());
    assert_eq!(followed_turn(false, Some("t".into())).as_deref(), Some("t"));
    assert!(followed_turn(true, Some("t".into())).is_none());
    assert!(voice_available(false, true, &vec!["w".into()]));
    assert!(!voice_available(true, true, &vec!["w".into()]));
    assert!(!voice_available(false, true, &vec![]));
}

#[test]
fn a_worker_is_followed() {
    let w = worker("s");
    assert!(matches!(plan_tail(false, Some(&w), "s"), TailPlan::Nothing));
    assert!(matches!(plan_tail(true, Some(&w), "s"), TailPlan::Follow { turn_id } if turn_id == "t"));
    assert!(matches!(
        plan_tail(true, Some(&w), "other"),
        TailPlan::Idle { update: Update::Signals { json } } if json == r#"{"chatStreaming":false}"#
    ));
}

#[test]
fn conversations_are_shared_pinned_and_forked() {
    match share_answer(&ui(), "s", true, true) {
        Answer::Changes { updates } => {
            assert!(matches!(&updates[0], Update::Patch { selector, .. } if selector == "#share-toggle"));
            assert!(matches!(&updates[1], Update::Toast { kind: FlashKind::Success, message } if message == "chat-toast-share-copied"));
        }
        Answer::SeeOther { .. } => panic!("a script needs changes"),
    }
    assert!(matches!(share_answer(&ui(), "s", true, false), Answer::SeeOther { to } if to == "/chat/s"));
    assert_eq!(read_open_chat("s".into()).as_deref(), Some("s"));
    assert!(read_open_chat(String::new()).is_none());
    assert!(
        matches!(pin_answer(&ui(), true, &None, false, &Html::empty()), Answer::SeeOther { to } if to == "/chat")
    );
    assert!(fork_refusal(&ui(), &session("u"), "v", true).is_none());
    assert!(
        matches!(fork_refusal(&ui(), &session("u"), "u", false), Some(Answer::SeeOther { to }) if to == "/chat/abc-def")
    );
    assert!(matches!(&already_gone(&ui())[0], Update::Toast { kind: FlashKind::Info, .. }));
    assert_eq!(session_path("s"), "/chat/s");
    assert_eq!(page_title(&ui(), &session("u")), "chat-default-title — LLM Gateway");
}

fn turn(role: TurnRole) -> Turn {
    Turn {
        id: "t".into(),
        seq: 4,
        role,
        status: TurnStatus::Completed,
        user_content: Some("mine".into()),
        content: Some("its".into()),
    }
}

#[test]
fn messages_are_edited_and_replies_repeated() {
    assert!(load_owned_turn(true, true).is_none());
    assert_eq!(load_owned_turn(false, true).unwrap().key, "chat-error-conversation-not-found");
    assert_eq!(load_owned_turn(true, false).unwrap().key, "chat-error-message-not-found");
    assert_eq!(plan_retry(&turn(TurnRole::Assistant)).ok(), Some(4));
    assert_eq!(
        plan_retry(&turn(TurnRole::User)).err().unwrap().key,
        "chat-error-retry-assistant-only"
    );
    assert!(check_edit(&turn(TurnRole::User)).is_none());
    assert_eq!(
        check_edit(&turn(TurnRole::Assistant)).unwrap().key,
        "chat-error-edit-own-messages-only"
    );
    let e = plan_edit(&turn(TurnRole::User), false, " new ".into()).ok().unwrap();
    assert_eq!(e.text, "new");
    assert_eq!(e.cut_from, 5);
    assert_eq!(
        plan_edit(&turn(TurnRole::User), false, " ".into()).err().unwrap().key,
        "chat-error-message-must-not-be-empty"
    );
    assert!(carries_files("multipart/form-data; boundary=x"));
    assert!(!carries_files("application/x-www-form-urlencoded"));
    assert_eq!(attachment_text(&turn(TurnRole::User)), (true, "mine".to_string()));
    assert_eq!(attachment_text(&turn(TurnRole::Assistant)), (false, "its".to_string()));
}

#[test]
fn the_page_follows_the_conversation() {
    let b = || Html::new("<b>");
    assert!(matches!(turn_changed("t", &b()), Update::Patch { selector, mode, .. } if selector == "#turn-t" && mode == "outer"));
    assert!(matches!(new_bubbles(b(), b()), Update::Patch { selector, mode, markup } if selector == "#conversation" && mode == "append" && markup == "<b><b>"));
    assert!(matches!(whole_conversation(&vec![b()]), Update::Patch { mode, .. } if mode == "inner"));
    assert!(matches!(document_shown(&b()), Update::Patch { selector, .. } if selector == "#document-canvas-slot"));
    let u = sidebar_changed("s", &b(), Some((&b(), 2)));
    assert_eq!(u.len(), 3);
    assert!(matches!(&u[2], Update::Signals { json } if json == r#"{"hasCanvas": true, "hasAssets": true, "assetCount": 2}"#));
    let u = sidebar_changed("s", &b(), Some((&b(), 0)));
    assert!(matches!(&u[2], Update::Signals { json } if json == r#"{"hasAssets": false, "assetCount": 0}"#));
    assert_eq!(sidebar_changed("s", &b(), None).len(), 1);
}

#[test]
fn attachments_are_guarded() {
    assert_eq!(check_attachment(false, Some(true), true).unwrap().status, 401);
    assert_eq!(check_attachment(true, Some(false), true).unwrap().status, 404);
    assert_eq!(check_attachment(true, None, true).unwrap().status, 500);
    assert_eq!(check_attachment(true, Some(true), false).unwrap().status, 503);
    assert!(check_attachment(true, Some(true), true).is_none());
    assert_eq!(fetch_refusal(true).status, 400);
    assert_eq!(fetch_refusal(false).status, 404);
    assert_eq!(pdf_refusal(true).status, 503);
    assert_eq!(pdf_refusal(true).key, "chat-error-pdf-export-unavailable");
    assert_eq!(pdf_refusal(false).status, 500);
    assert_eq!(pdf_refusal(false).key, "chat-error-pdf-export-failed");
}

#[test]
fn finished_replies_are_announced() {
    assert_eq!(turn_outcome(TurnStatus::Completed), Some(false));
    assert_eq!(turn_outcome(TurnStatus::Errored), Some(true));
    assert_eq!(turn_outcome(TurnStatus::Cancelled), None);
    assert_eq!(turn_outcome(TurnStatus::InProgress), None);
    assert!(notification_title(Some("  ".into())).is_none());
    let m = push_message(&ui(), None, true, "s");
    assert_eq!(m.title, "push-untitled-conversation");
    assert_eq!(m.body, "push-turn-error-body");
    assert_eq!(m.url, "/chat/s");
    assert_eq!(m.tag, "s");
    assert_eq!(push_message(&ui(), Some("T"), false, "s").body, "push-turn-complete-body");
}

#[test]
fn the_default_model_is_offered_first() {
    let models: Vec<String> = vec!["a".into(), "b".into(), "c".into()];
    assert_eq!(promote(&Some("c".into()), models.clone()), vec!["c", "a", "b"]);
    assert_eq!(promote(&Some("z".into()), models.clone()), models);
    assert_eq!(promote(&None, models.clone()), models);
    let option = |id: &str| ChatModelOption {
        id: id.into(),
        gdpr: true,
        nda: true,
    };
    let r = promote_option(&Some("b".into()), vec![option("a"), option("b")]);
    assert_eq!(r[0].id, "b");
    assert_eq!(r[1].id, "a");
}

fn section(label: &str, order: u32) -> Category {
    Category {
        label: label.into(),
        slug: label.to_lowercase(),
        order,
    }
}

fn sources() -> CapabilitySources {
    CapabilitySources {
        entries: vec![
            ToolEntry {
                key: "search".into(),
                title: "Search".into(),
                tech: "search".into(),
                description: "d".into(),
                category: section("Web", 2),
            },
            ToolEntry {
                key: "mcp".into(),
                title: "MCP".into(),
                tech: "mcp".into(),
                description: "d".into(),
                category: section("Integrations", 1),
            },
        ],
        choices: vec![ToolChoice {
            key: "mcp__gh".into(),
            enabled: true,
        }],
        connected: vec![
            ConnectedInfo {
                key: "gh".into(),
                name: "GitHub".into(),
                description: None,
                icon: None,
                enabled: true,
                allowed: true,
            },
            ConnectedInfo {
                key: "off".into(),
                name: "Off".into(),
                description: None,
                icon: None,
                enabled: false,
                allowed: true,
            },
        ],
        skills: vec![SkillInfo {
            name: "brand".into(),
            card: None,
        }],
        loaded: vec!["brand".into()],
        integrations: section("Integrations", 1),
        skill_slug: "skills".into(),
        skill_order: 9,
    }
}

#[test]
fn capabilities_are_collected_in_order() {
    let caps = build_capabilities(&ui(), &sources());
    let keys: Vec<&str> = caps.iter().map(|c| c.key.as_str()).collect();
    assert_eq!(keys, vec!["mcp__gh", "search", "brand"]);
    assert_eq!(caps[0].state, ToolState::On);
    assert_eq!(caps[1].state, ToolState::Auto);
    assert_eq!(caps[2].state, ToolState::On);
    assert_eq!(caps[2].label, "brand");
    assert_eq!(caps[2].group, "Skills");
    assert_eq!(caps[0].group, "Integrations");
    assert_eq!(caps[0].description, "chat-mcp-bridged-description");
    assert!(menu_row(&caps[0]).enabled && !menu_row(&caps[1]).enabled);
    assert_eq!(targets(&caps, "all", "*").len(), 3);
    assert_eq!(targets(&caps, "group", "web"), vec![(CapKind::Tool, "search".to_string())]);
    assert_eq!(targets(&caps, "skill", "x"), vec![(CapKind::Skill, "x".to_string())]);
    assert_eq!(targets(&caps, "tool", "y"), vec![(CapKind::Tool, "y".to_string())]);
}

#[test]
fn a_page_is_put_together_for_its_viewer() {
    let facts = || PageFacts {
        in_flight: Some("t".into()),
        chat: Offer { models: vec![], configured: Some("m".into()) },
        transcription: Offer {
            models: vec!["a".into(), "b".into()],
            configured: Some("b".into()),
        },
        settings: Some(Settings { effort: Some("deep".into()), sources: sources() }),
        has_speech: true,
    };
    let mine = page_state(&ui(), false, facts());
    assert_eq!(mine.in_flight_turn_id.as_deref(), Some("t"));
    assert_eq!(mine.transcription_models, vec!["b".to_string(), "a".to_string()]);
    assert_eq!(mine.effort, Effort::Deep);
    assert_eq!(mine.capabilities.len(), 3);
    assert!(mine.capabilities[0].enabled && mine.voice);
    let read = page_state(&ui(), true, facts());
    assert!(read.in_flight_turn_id.is_none());
    assert_eq!(read.transcription_models, vec!["b".to_string(), "a".to_string()]);
    assert_eq!(read.effort, Effort::Standard);
    assert!(read.capabilities.is_empty() && !read.voice);
}

#[test]
fn choices_are_written() {
    assert_eq!(read_state(Some("on".into())).ok(), Some(ToolState::On));
    assert_eq!(read_state(Some("auto".into())).ok(), Some(ToolState::Auto));
    assert_eq!(read_state(Some("x".into())).err(), Some(Some("x".to_string())));
    assert_eq!(read_state(None).err(), Some(None));
    assert_eq!(unknown_state(&None), "unknown capability state: None");
    assert_eq!(
        unknown_state(&Some("a\"b\n".into())),
        "unknown capability state: Some(\"a\\\"b\\n\")"
    );
    assert_eq!(ToolState::from_row(Some(false)), ToolState::Off);
    assert_eq!(ToolState::from_row(None), ToolState::Auto);
    assert_eq!(apply_capability_state(CapKind::Tool, ToolState::On), OverlayWrite::Record(true));
    assert_eq!(apply_capability_state(CapKind::Tool, ToolState::Off), OverlayWrite::Record(false));
    assert_eq!(apply_capability_state(CapKind::Tool, ToolState::Auto), OverlayWrite::Drop);
    assert_eq!(apply_capability_state(CapKind::Skill, ToolState::On), OverlayWrite::Load);
    assert_eq!(apply_capability_state(CapKind::Skill, ToolState::Off), OverlayWrite::Unload);
}
