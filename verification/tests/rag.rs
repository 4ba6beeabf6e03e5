use gateway_pages::html::{Message, Ui};
use gateway_pages::moment::Moment;
use gateway_pages::rag::{
    becomes_primary, bulk_notice, create_failed, created_notice, default_embedding, first_ref,
    log_level_badge, parse_bulk, parse_bulk_line, read_add_ref, read_ref_update, read_update, rebuild_target,
    render_body, render_create_form, render_edit_form, render_ref, render_ref_edit_form,
    render_ref_log, split_globs, status_updates, unified_target, validate, Collection, CollectionRef,
    CollectionStatus, CreateForm, IndexLogEntry, LogLevel, RefUpdateForm, SearchMode, UpdateForm,
};
use gateway_pages::saving::{SaveAction, SaveEvent, SaveFlow};
use gateway_pages::updates::{FlashKind, Update};

fn ui() -> Ui {
    let texts = [
        ("rag-status-cloning", "cloning"),
        ("rag-status-ready", "ready"),
        ("rag-never", "never"),
        ("rag-button-edit", "Edit"),
        ("rag-ref-indexed-line", "indexed {date} · {commit}"),
        ("rag-log-error", "error"),
        ("rag-log-empty", "No indexing events recorded yet"),
    ];
    Ui {
        messages: texts
            .iter()
            .map(|(k, t)| Message {
                key: k.to_string(),
                text: t.to_string(),
            })
            .collect(),
        icons: vec![],
        logos: vec![],
    }
}

fn collection() -> Collection {
    Collection {
        id: 7,
        name: "ceph".into(),
        description: None,
        git_url: "https://example.invalid/ceph.git".into(),
        git_ref: "main".into(),
        pat: None,
        embedding_model: "embed".into(),
        include_globs: vec!["**/*".into()],
        exclude_globs: vec![],
        chunk_size: 800,
        chunk_overlap: 100,
        search_mode: SearchMode::Versioned,
        status: CollectionStatus::Ready,
        allowed_groups: Vec::new(),
    }
}

fn cref(id: i64, status: CollectionStatus, err: Option<&str>) -> CollectionRef {
    CollectionRef {
        id,
        collection_id: 7,
        git_ref: "reef".into(),
        git_url: None,
        source_label: "ceph".into(),
        is_primary: true,
        status,
        last_indexed_at: None,
        last_indexed_commit: None,
        last_error: err.map(|s| s.into()),
    }
}

#[test]
fn render_ref_wires_log_button_to_endpoint() {
    let c = collection();
    let r = cref(
        42,
        CollectionStatus::Error,
        Some("Branch 'x' does not exist"),
    );
    let html = render_ref(&ui(), &c, &r, Some(&r)).to_string();
    assert!(html.contains("rag-ref-42"), "{html}");
    assert!(html.contains("/rag/refs/42/log"), "{html}");
    assert!(html.contains("does not exist"), "{html}");
}

#[test]
fn aggregate_source_row_mirrors_primary_status() {
    let mut c = collection();
    c.search_mode = SearchMode::Aggregate;
    let mut primary = cref(1, CollectionStatus::Cloning, None);
    primary.is_primary = true;
    let mut other = cref(2, CollectionStatus::Ready, None);
    other.is_primary = false;

    let html = render_ref(&ui(), &c, &other, Some(&primary)).to_string();
    assert!(
        html.contains("cloning"),
        "non-primary row should mirror primary status: {html}"
    );
    assert!(
        !html.contains(">ready<"),
        "non-primary row must not show its own stale 'ready': {html}"
    );
    assert!(html.contains("rag-ref-2"), "{html}");
    assert!(html.contains("/rag/refs/2/reindex"), "{html}");
}

#[test]
fn aggregate_source_row_mirrors_primary_provenance() {
    let mut c = collection();
    c.search_mode = SearchMode::Aggregate;
    let mut primary = cref(1, CollectionStatus::Ready, None);
    primary.is_primary = true;
    // 2026-07-06T11:08:00Z
    primary.last_indexed_at = Moment::new(1_783_336_080);
    primary.last_indexed_commit = Some("8c585019abcdef".into());
    let mut other = cref(2, CollectionStatus::Ready, None);
    other.is_primary = false;

    let html = render_ref(&ui(), &c, &other, Some(&primary)).to_string();
    assert!(
        html.contains("2026-07-06"),
        "non-primary row must show the primary's indexed date, not 'never': {html}"
    );
    assert!(
        html.contains("8c585019"),
        "non-primary row must show the primary's commit: {html}"
    );
    assert!(
        !html.contains("never"),
        "non-primary aggregate row must not read 'indexed never': {html}"
    );
}

#[test]
fn versioned_row_shows_own_status_not_primary() {
    let c = collection();
    let primary = cref(1, CollectionStatus::Cloning, None);
    let mut other = cref(2, CollectionStatus::Ready, None);
    other.is_primary = false;
    let html = render_ref(&ui(), &c, &other, Some(&primary)).to_string();
    assert!(
        html.contains("ready"),
        "versioned row shows its own status: {html}"
    );
    assert!(
        !html.contains("cloning"),
        "versioned row must not borrow primary status: {html}"
    );
}

#[test]
fn render_ref_wires_edit_button_to_endpoint() {
    let mut c = collection();
    c.search_mode = SearchMode::Aggregate;
    let mut r = cref(7, CollectionStatus::Ready, None);
    r.is_primary = false;
    let html = render_ref(&ui(), &c, &r, Some(&r)).to_string();
    assert!(html.contains("Edit"), "{html}");
    assert!(html.contains("/rag/refs/7/edit-form"), "{html}");
}

#[test]
fn render_ref_edit_form_prefills_and_wires_update() {
    let mut c = collection();
    c.search_mode = SearchMode::Aggregate;
    let mut r = cref(7, CollectionStatus::Ready, None);
    r.git_url = Some("https://example.com/org/cifs-utils.git".into());
    r.git_ref = "master".into();
    let html = render_ref_edit_form(&ui(), &c, &r).to_string();
    assert!(html.contains("/rag/refs/7/update"), "{html}");
    assert!(html.contains("/rag/refs/7/cancel-edit"), "{html}");
    assert!(html.contains("cifs-utils.git"), "{html}");
    assert!(html.contains("master"), "{html}");
}

#[test]
fn render_body_arms_status_poll_and_log_container() {
    let c = collection();
    let refs = vec![cref(42, CollectionStatus::Cloning, None)];
    let html = render_body(&ui(), &vec![(c, refs)], &vec!["embed".into()], None).to_string();
    assert!(html.contains("data-on-interval__duration.4s"), "{html}");
    assert!(html.contains("/rag/status"), "{html}");
    assert!(html.contains("rag-reflog-42"), "{html}");
}

#[test]
fn render_body_empty_list_does_not_poll() {
    let html = render_body(&ui(), &vec![], &vec!["embed".into()], None).to_string();
    assert!(!html.contains("/rag/status"), "{html}");
}

#[test]
fn create_form_preselects_configured_default_embedding() {
    let models: Vec<String> = vec!["embed-a".into(), "embed-b".into()];
    let with = render_create_form(&ui(), &models, Some("embed-b")).to_string();
    assert!(
        with.contains(r#"value="embed-b" selected="selected""#),
        "configured default must be pre-selected: {with}"
    );
    let without = render_create_form(&ui(), &models, None).to_string();
    assert!(
        without.contains(r#"disabled="disabled" selected="selected""#),
        "unset default must keep the choose-a-model placeholder: {without}"
    );
}

#[test]
fn render_ref_log_shows_entries_and_empty_state() {
    let entries = vec![IndexLogEntry {
        created_at: Moment::new(1_783_336_080).unwrap(),
        level: LogLevel::Error,
        phase: "cloning".into(),
        message: "Branch 'x' does not exist in the repository".into(),
    }];
    let html = render_ref_log(&ui(), 42, &entries).to_string();
    assert!(html.contains("does not exist in the repository"), "{html}");
    assert!(html.contains("error"), "{html}");

    let empty = render_ref_log(&ui(), 42, &vec![]).to_string();
    assert!(empty.contains("No indexing events recorded yet"), "{empty}");
}

fn create() -> CreateForm {
    CreateForm {
        name: " docs ".into(),
        description: Some(" ".into()),
        git_url: " https://e/x.git ".into(),
        git_ref: None,
        pat: None,
        embedding_model: " embed ".into(),
        include_globs: Some("*.md\n *.rs ".into()),
        exclude_globs: None,
        chunk_size: None,
        chunk_overlap: None,
        aggregate: None,
    }
}

#[test]
fn a_collection_is_read() {
    let new = validate(create()).ok().unwrap();
    assert_eq!(new.name, "docs");
    assert!(new.description.is_none());
    assert_eq!(new.git_url, "https://e/x.git");
    assert_eq!(new.embedding_model, "embed");
    assert_eq!(new.include_globs, vec!["*.md", "*.rs"]);
    assert_eq!(new.search_mode, SearchMode::Versioned);
    assert_eq!(first_ref(&new).as_deref(), Some(new.git_ref.as_str()));
    assert!(created_notice(new.search_mode, &new.name, &new.git_ref).success);
}

#[test]
fn a_bad_collection_is_refused() {
    let mut f = create();
    f.name = " ".into();
    assert!(validate(f).is_err());
    let mut f = create();
    f.git_url = String::new();
    assert!(validate(f).is_err());
    let mut f = create();
    f.embedding_model = String::new();
    assert!(validate(f).is_err());
    let mut f = create();
    f.chunk_size = Some(-1);
    assert!(validate(f).is_err());
    assert!(!create_failed("UNIQUE constraint failed", "docs").success);
}

#[test]
fn a_blank_token_keeps_the_stored_one() {
    let mut c = collection();
    c.pat = Some("secret".into());
    let form = |pat: Option<&str>, clear: Option<&str>| UpdateForm {
        description: None,
        git_url: "https://e/x.git".into(),
        git_ref: Some("main".into()),
        pat: pat.map(|s| s.to_string()),
        clear_pat: clear.map(|s| s.to_string()),
        embedding_model: "embed".into(),
        include_globs: None,
        exclude_globs: None,
        chunk_size: Some(800),
        chunk_overlap: Some(100),
        allowed_groups: Some("a, b".into()),
    };
    let e = read_update(&form(Some(" "), None), &c).ok().unwrap();
    assert_eq!(e.pat.as_deref(), Some("secret"));
    assert_eq!(e.allowed_groups, vec!["a", "b"]);
    let e = read_update(&form(Some("new"), None), &c).ok().unwrap();
    assert_eq!(e.pat.as_deref(), Some("new"));
    let e = read_update(&form(None, Some("on")), &c).ok().unwrap();
    assert!(e.pat.is_none());
    let html = render_edit_form(&ui(), &c, &vec!["embed".into()]).to_string();
    assert!(!html.contains("secret"), "{html}");
}

#[test]
fn sources_are_read_line_by_line() {
    assert_eq!(
        parse_bulk_line("https://e/a.git main", "x"),
        Some(("https://e/a.git".to_string(), "main".to_string()))
    );
    assert_eq!(
        parse_bulk_line(" https://e/a.git ", "x"),
        Some(("https://e/a.git".to_string(), "x".to_string()))
    );
    assert!(parse_bulk_line("   ", "x").is_none());
    assert_eq!(parse_bulk("https://e/a\n\nhttps://e/b v1", "m").ok().unwrap().len(), 2);
    assert!(parse_bulk("\n \n", "m").is_err());
    assert!(becomes_primary(false, 0));
    assert!(!becomes_primary(true, 0));
    assert!(!becomes_primary(false, 1));
    assert!(bulk_notice(2, 1).success);
}

#[test]
fn one_index_is_rebuilt() {
    assert_eq!(rebuild_target(Some(SearchMode::Aggregate), Some(1), 2), 1);
    assert_eq!(rebuild_target(Some(SearchMode::Aggregate), None, 2), 2);
    assert_eq!(rebuild_target(Some(SearchMode::Versioned), Some(1), 2), 2);
    assert_eq!(rebuild_target(None, Some(1), 2), 2);
    assert_eq!(unified_target(Some(SearchMode::Aggregate), Some(1)), Some(1));
    assert_eq!(unified_target(Some(SearchMode::Versioned), Some(1)), None);
    assert_eq!(unified_target(None, Some(1)), None);
}

#[test]
fn references_are_read() {
    assert_eq!(read_add_ref(" v1 ", &None).ok().unwrap().git_ref, "v1");
    assert!(read_add_ref(" ", &None).is_err());
    let r = cref(1, CollectionStatus::Ready, None);
    let form = RefUpdateForm {
        git_url: None,
        git_ref: Some(" v2 ".into()),
    };
    let e = read_ref_update(&form, &r, Some(SearchMode::Versioned)).ok().unwrap();
    assert_eq!(e.git_ref, "v2");
}

#[test]
fn a_default_model_must_be_offered() {
    let models = vec!["a".to_string()];
    assert_eq!(default_embedding(&Some("a".into()), &models).as_deref(), Some("a"));
    assert!(default_embedding(&Some("b".into()), &models).is_none());
    assert!(default_embedding(&None, &models).is_none());
}

#[test]
fn every_reference_is_polled() {
    let list = vec![(
        collection(),
        vec![
            cref(1, CollectionStatus::Ready, None),
            cref(2, CollectionStatus::Ready, None),
        ],
    )];
    assert_eq!(status_updates(&ui(), &list).len(), 2);
    assert!(split_globs(&None).is_empty());
}

fn edit_form(model: &str) -> UpdateForm {
    UpdateForm {
        description: None,
        git_url: "https://e/new.git".into(),
        git_ref: None,
        pat: None,
        clear_pat: None,
        embedding_model: model.into(),
        include_globs: None,
        exclude_globs: None,
        chunk_size: None,
        chunk_overlap: None,
        allowed_groups: Some("dev, ops".into()),
    }
}

fn found(c: Option<Collection>) -> SaveEvent {
    SaveEvent::Found { collection: c }
}

fn toast_of(action: &SaveAction) -> &str {
    match action {
        SaveAction::Answer { updates } => match &updates[..] {
            [Update::Toast { kind: FlashKind::Error, message }] => message,
            _ => panic!("expected one toast"),
        },
        _ => panic!("expected an answer"),
    }
}

#[test]
fn an_edited_collection_is_saved() {
    let ui = ui();
    let mut stored = collection();
    stored.pat = Some("secret".into());
    let (flow, action) = SaveFlow::begin(edit_form("embed")).next(&ui, found(Some(stored)));
    assert!(matches!(
        action,
        SaveAction::StoreEdit { edit }
            if edit.git_url == "https://e/new.git" && edit.git_ref == "main"
                && edit.pat.as_deref() == Some("secret") && edit.chunk_size == 800
    ));
    let (flow, action) = flow.next(&ui, SaveEvent::Stored);
    assert!(matches!(action, SaveAction::StoreGroups { groups } if groups == ["dev", "ops"]));
    let (flow, action) = flow.next(&ui, SaveEvent::Stored);
    assert!(matches!(action, SaveAction::Reload));
    let (flow, action) = flow.next(&ui, found(Some(collection())));
    assert!(matches!(action, SaveAction::ListSources));
    let refs = vec![cref(42, CollectionStatus::Ready, None)];
    let (_, action) = flow.next(&ui, SaveEvent::Listed { refs });
    match action {
        SaveAction::Answer { updates } => {
            assert_eq!(updates.len(), 2);
            assert!(matches!(
                &updates[0],
                Update::Patch { selector, mode, markup }
                    if selector == "#rag-row-7" && mode == "outer" && markup.contains("rag-ref-42")
            ));
            assert!(matches!(&updates[1], Update::Toast { kind: FlashKind::Success, .. }));
        }
        _ => panic!("expected an answer"),
    }
}

#[test]
fn what_cannot_be_saved_is_told() {
    let ui = ui();
    let begin = |model: &str| SaveFlow::begin(edit_form(model));
    let (_, a) = begin(" ").next(&ui, found(Some(collection())));
    assert_eq!(toast_of(&a), "rag-toast-embedding-model-required");
    let (_, a) = begin("embed").next(&ui, found(None));
    assert_eq!(toast_of(&a), "rag-toast-collection-not-found-cap");
    let (_, a) = begin("embed").next(&ui, SaveEvent::FindingFailed);
    assert_eq!(toast_of(&a), "rag-toast-load-collection-failed-cap");
    let (flow, _) = begin("embed").next(&ui, found(Some(collection())));
    let (_, a) = flow.next(&ui, SaveEvent::StoringFailed);
    assert_eq!(toast_of(&a), "rag-toast-save-failed");
    let (flow, _) = begin("embed").next(&ui, found(Some(collection())));
    let (flow, _) = flow.next(&ui, SaveEvent::Stored);
    let (_, a) = flow.next(&ui, SaveEvent::StoringFailed);
    assert_eq!(toast_of(&a), "rag-toast-save-failed");
    for (event, key) in [
        (found(None), "rag-toast-vanished"),
        (SaveEvent::FindingFailed, "rag-toast-saved-reload-failed"),
    ] {
        let (flow, _) = begin("embed").next(&ui, found(Some(collection())));
        let (flow, _) = flow.next(&ui, SaveEvent::Stored);
        let (flow, _) = flow.next(&ui, SaveEvent::Stored);
        let (_, a) = flow.next(&ui, event);
        assert_eq!(toast_of(&a), key);
    }
}

#[test]
fn the_label_of_a_log_entry_stays_on_one_line() {
    for level in [LogLevel::Info, LogLevel::Warn, LogLevel::Error] {
        let html = log_level_badge(&ui(), level).to_string();
        assert!(html.contains("shrink-0") && html.contains("whitespace-nowrap"), "{html}");
    }
}
