use gateway_pages::backends::{
    alias_lines, backend_deleted, backend_saved, delete_failed, dirty_signal, key_to_store,
    parse_aliases, read_backend, store_failed, AliasRow, StoredKey,
};
use gateway_pages::connectors::Sealed;
use gateway_pages::forms::{
    checkbox_on, explain_form, field, fields_all, malformed, parse_csv, parse_u32, read_form,
};
use gateway_pages::html::{Message, Ui};
use gateway_pages::pools::{
    fallback_saved, fallback_select, parse_voices, pool_deleted, pool_saved, read_fallback,
    read_pool, render_pool_form, render_pools_body, sort_pools, voice_lines, FallbackChange,
    Fallbacks, PoolRow, VoiceRow,
};
use gateway_pages::updates::{FlashKind, Update};

fn ui() -> Ui {
    Ui {
        messages: vec![Message {
            key: "backends-saved".into(),
            text: "Saved {name}.".into(),
        }],
        icons: vec![],
        logos: vec![],
    }
}

fn pairs(fields: &[(&str, &str)]) -> Vec<(String, String)> {
    fields
        .iter()
        .map(|(k, v)| (k.to_string(), v.to_string()))
        .collect()
}

#[test]
fn forms_are_read() {
    let read = read_form(b"name=a+b&models=x%2Cy&backends=b1&backends=caf%C3%A9&flag").ok().unwrap();
    assert_eq!(
        read,
        pairs(&[("name", "a b"), ("models", "x,y"), ("backends", "b1"), ("backends", "café"), ("flag", "")])
    );
    assert!(read_form(b"").ok().unwrap().is_empty());
    let said = "malformed form: no pairs";
    for updates in [malformed("no pairs"), explain_form(Err("no pairs".into())).err().unwrap()] {
        assert!(matches!(&updates[..], [Update::Toast { kind: FlashKind::Error, message }] if message == said));
    }
    assert_eq!(explain_form(Ok(pairs(&[("k", "v")]))).ok(), Some(pairs(&[("k", "v")])));
}

#[test]
fn parse_csv_trims_and_drops_empties() {
    assert_eq!(parse_csv(" a, b ,,c , "), vec!["a", "b", "c"]);
    assert!(parse_csv("   ").is_empty());
}

#[test]
fn checkbox_on_recognises_present_values() {
    assert!(checkbox_on("on"));
    assert!(checkbox_on(" true "));
    assert!(!checkbox_on(""));
    assert!(!checkbox_on("off"));
}

#[test]
fn aliases_round_trip() {
    let parsed = parse_aliases("fast=qwen-7b\nbare\n\n  smart = qwen-32b ");
    assert_eq!(parsed.len(), 3);
    assert_eq!(parsed[0].alias, "fast");
    assert_eq!(parsed[0].target.as_deref(), Some("qwen-7b"));
    assert_eq!(parsed[1].alias, "bare");
    assert!(parsed[1].target.is_none());
    assert_eq!(parsed[2].target.as_deref(), Some("qwen-32b"));
    assert_eq!(alias_lines(&parsed), "fast=qwen-7b\nbare\nsmart=qwen-32b");
}

#[test]
fn written_aliases_are_read() {
    let aliases = vec![
        AliasRow {
            alias: "a".into(),
            target: Some("b=c".into()),
        },
        AliasRow {
            alias: "d".into(),
            target: None,
        },
    ];
    let read = parse_aliases(&alias_lines(&aliases));
    assert_eq!(read.len(), 2);
    assert_eq!(read[0].alias, "a");
    assert_eq!(read[0].target.as_deref(), Some("b=c"));
    assert_eq!(read[1].alias, "d");
    assert!(read[1].target.is_none());
}

#[test]
fn numbers_fall_back() {
    assert_eq!(parse_u32(" 7 ", 1), 7);
    assert_eq!(parse_u32("", 16), 16);
    assert_eq!(parse_u32("x", 16), 16);
    assert_eq!(parse_u32("4294967296", 3), 3);
    assert_eq!(parse_u32("4294967295", 3), u32::MAX);
}

#[test]
fn fields_are_found_by_name() {
    let p = pairs(&[("a", "1"), ("b", "2"), ("a", "3")]);
    assert_eq!(field(&p, "a"), "1");
    assert_eq!(field(&p, "c"), "");
    assert_eq!(fields_all(&p, "a"), vec!["1", "3"]);
}

#[test]
fn servers_have_defaults() {
    let b = read_backend(&pairs(&[("name", " gpu "), ("base_url", "http://x ")]))
        .ok()
        .unwrap();
    assert_eq!(b.name, "gpu");
    assert_eq!(b.base_url, "http://x");
    assert_eq!(b.weight, 1);
    assert_eq!(b.max_inflight, 16);
    assert_eq!(b.health_path, "/models");
    assert!(b.api_key.is_none() && b.api_key_env.is_none());
    assert!(!b.probe_models && !b.supports_edit);
    assert!(b.pool.is_none());
    let b = read_backend(&pairs(&[
        ("name", "gpu"),
        ("base_url", "u"),
        ("api_key", " k "),
        ("weight", "3"),
        ("health_path", "/ok"),
        ("probe_models", "on"),
        ("models", "a, b"),
        ("aliases", "x=a"),
        ("pool", " "),
    ]))
    .ok()
    .unwrap();
    assert_eq!(b.api_key.as_deref(), Some("k"));
    assert_eq!(b.weight, 3);
    assert_eq!(b.health_path, "/ok");
    assert!(b.probe_models);
    assert_eq!(b.models, vec!["a", "b"]);
    assert_eq!(b.aliases.len(), 1);
    assert_eq!(b.pool, Some(None));
}

#[test]
fn servers_need_a_name_and_an_address() {
    let n = read_backend(&pairs(&[("name", " "), ("base_url", "u")])).err().unwrap();
    assert_eq!(n.key, "backends-error-name-required");
    let n = read_backend(&pairs(&[("name", "x")])).err().unwrap();
    assert_eq!(n.key, "backends-error-base-url-required");
}

#[test]
fn a_blank_key_keeps_the_stored_one() {
    let sealed = || Sealed {
        ciphertext: vec![1],
        nonce: vec![2],
    };
    let old = || StoredKey {
        ciphertext: Some(vec![3]),
        nonce: Some(vec![4]),
    };
    let k = key_to_store(Some(sealed()), Some(old()));
    assert_eq!(k.ciphertext, Some(vec![1]));
    assert_eq!(k.nonce, Some(vec![2]));
    let k = key_to_store(None, Some(old()));
    assert_eq!(k.ciphertext, Some(vec![3]));
    assert_eq!(k.nonce, Some(vec![4]));
    let k = key_to_store(None, None);
    assert!(k.ciphertext.is_none() && k.nonce.is_none());
}

#[test]
fn changes_are_counted() {
    let u = backend_saved(&ui(), "gpu", 2);
    assert_eq!(u.len(), 2);
    assert!(
        matches!(&u[0], Update::Toast { kind: FlashKind::Success, message } if message == "Saved gpu.")
    );
    assert!(matches!(&u[1], Update::Signals { json } if json == "{\"topologyDirty\": 2}"));
    assert!(
        matches!(&backend_deleted(&ui(), "gpu", 3)[0], Update::Toast { message, .. } if message == "backends-deleted")
    );
    assert!(matches!(dirty_signal(0), Update::Signals { json } if json == "{\"topologyDirty\": 0}"));
    assert_eq!(store_failed("e").key, "admin-db-upsert-error");
    assert_eq!(delete_failed("e").key, "admin-db-error");
}

fn sample_pool() -> PoolRow {
    PoolRow {
        name: "chat-eu".into(),
        kind: "chat".into(),
        strategy: "round_robin".into(),
        fallback_offline: Some("glm-4.6".into()),
        compliance_gdpr: false,
        compliance_nda: true,
        enforce_limits: true,
        sort_order: 3,
        backends: vec!["gpu-01".into()],
        models: vec!["qwen-32b".into()],
        voices: vec![
            VoiceRow {
                lang_code: "de".into(),
                voice_id: "de-voice".into(),
            },
            VoiceRow {
                lang_code: String::new(),
                voice_id: "default-voice".into(),
            },
        ],
    }
}

#[test]
fn voices_round_trip() {
    let parsed = parse_voices("de=de-voice\ndefault-voice\nen = en-voice ");
    assert_eq!(parsed.len(), 3);
    assert_eq!(parsed[0].lang_code, "de");
    assert_eq!(parsed[0].voice_id, "de-voice");
    assert!(parsed[1].lang_code.is_empty());
    assert_eq!(parsed[1].voice_id, "default-voice");
    assert_eq!(parsed[2].lang_code, "en");
    assert_eq!(parsed[2].voice_id, "en-voice");
    assert_eq!(
        voice_lines(&parsed),
        "de=de-voice\ndefault-voice\nen=en-voice"
    );
}

#[test]
fn add_form_wires_to_save_endpoint() {
    let html = render_pool_form(&ui(), None, 0, &vec!["gpu-01".into()]).to_string();
    assert!(
        html.contains(r#"action="/admin/pools/save""#),
        "form must post to the save route: {html}"
    );
    assert!(
        html.contains("@post(") && html.contains("/admin/pools/save"),
        "submit must datastar-post to the save route: {html}"
    );
    assert!(
        !html.contains("/admin/pools/delete"),
        "add form must not render a delete form: {html}"
    );
}

#[test]
fn edit_form_reflects_stored_state() {
    let p = sample_pool();
    let html = render_pool_form(
        &ui(),
        Some(&p),
        p.sort_order,
        &vec!["gpu-01".into(), "gpu-02".into()],
    )
    .to_string();
    assert!(
        html.contains(r#"value="chat" selected="selected""#),
        "stored kind must be selected: {html}"
    );
    assert!(
        html.contains(r#"value="round_robin" selected="selected""#),
        "stored strategy must be selected: {html}"
    );
    assert!(
        html.contains(r#"name="backends" value="gpu-01" checked="checked""#),
        "assigned backend must be checked: {html}"
    );
    assert!(
        html.contains(r#"name="backends" value="gpu-02" class="checkbox checkbox-sm""#),
        "unassigned backend must be unchecked: {html}"
    );
    assert!(
        html.contains(r#"name="compliance_nda" value="on" checked="checked""#),
        "nda true → checked: {html}"
    );
    assert!(
        html.contains(r#"name="compliance_gdpr" value="on" class="checkbox checkbox-sm""#),
        "gdpr false → not checked: {html}"
    );
    assert!(
        html.contains("readonly=\"readonly\""),
        "name must be read-only on edit: {html}"
    );
    assert!(
        html.contains(r#"action="/admin/pools/delete""#),
        "edit form must offer a delete: {html}"
    );
}

#[test]
fn fallback_select_wires_and_marks_current() {
    let models = vec!["qwen-32b".to_string(), "glm-4.6".to_string()];
    let html = fallback_select(&ui(), "chat", Some("glm-4.6"), &models).to_string();
    assert!(
        html.contains(r#"action="/admin/pools/fallback""#),
        "must post to the fallback route: {html}"
    );
    assert!(
        html.contains(r#"name="kind" value="chat""#),
        "kind discriminator must be present: {html}"
    );
    assert!(
        html.contains(r#"value="glm-4.6" selected="selected""#),
        "current model must be selected: {html}"
    );
}

#[test]
fn pools_are_read() {
    let p = read_pool(&pairs(&[
        ("name", " eu "),
        ("kind", "chat"),
        ("strategy", "round_robin"),
        ("sort_order", "-4"),
        ("compliance_gdpr", "on"),
        ("backends", "b1"),
        ("backends", "b2"),
        ("models", "m1,m2"),
        ("voices", "v"),
    ]))
    .ok()
    .unwrap();
    assert_eq!(p.name, "eu");
    assert_eq!(p.sort_order, -4);
    assert!(p.compliance_gdpr && !p.compliance_nda);
    assert_eq!(p.backends, vec!["b1", "b2"]);
    assert_eq!(p.models, vec!["m1", "m2"]);
    assert_eq!(p.voices.len(), 1);
    assert!(p.fallback_offline.is_none());
    assert!(read_pool(&pairs(&[("kind", "chat")])).is_err());
    assert!(read_pool(&pairs(&[("name", "x"), ("kind", "nonsense")])).is_err());
}

#[test]
fn pools_are_shown_in_order() {
    let mut a = sample_pool();
    a.sort_order = 9;
    let mut b = sample_pool();
    b.sort_order = 1;
    b.name = "first".into();
    let sorted = sort_pools(vec![a, b]);
    assert_eq!(sorted[0].name, "first");
    assert_eq!(sorted[1].name, "chat-eu");
    let none = Fallbacks {
        chat: None,
        transcription: None,
        embedding: None,
        image: None,
    };
    let html = render_pools_body(&ui(), &sorted, &vec![], &none, &vec![]).to_string();
    assert!(html.find(r#"value="first""#).unwrap() < html.find(r#"value="chat-eu""#).unwrap());
}

#[test]
fn what_is_said_of_pools() {
    assert_eq!(pool_saved(None, "p").key, "pools-saved");
    assert!(!pool_saved(Some("e"), "p").success);
    assert_eq!(pool_deleted(None, "p").key, "pools-deleted");
    let c: FallbackChange = read_fallback(&pairs(&[("kind", "chat"), ("model", " m ")]))
        .ok()
        .unwrap();
    assert_eq!(c.kind, "chat");
    assert_eq!(c.model.as_deref(), Some("m"));
    assert!(fallback_saved(&c, None).success);
    assert!(!fallback_saved(&c, Some("e")).success);
    assert!(read_fallback(&pairs(&[("kind", "nonsense")])).is_err());
}
