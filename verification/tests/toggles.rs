use gateway_pages::tool_toggles::{
    find_entry, group_by_category, key_set, render_toggle_row, render_toggle_sections, valid_keys,
    Category, ToggleCtx, ToolEntry,
};
use gateway_pages::tools::{
    geo_label, not_saved, read_toggle, render_tools_body, toggled, unknown_tool, SharedLocation,
    ToggleRequest,
};
use gateway_pages::updates::{FlashKind, Update};

fn entry(key: &str, category: Category) -> ToolEntry {
    ToolEntry {
        key: key.to_string(),
        title: key.to_string(),
        tech: key.to_string(),
        description: "desc".to_string(),
        category,
    }
}

fn web() -> Category {
    Category { label: "Web & more".into(), slug: "web".into(), order: 1 }
}

fn utility() -> Category {
    Category { label: "Utility".into(), slug: "utility".into(), order: 2 }
}

#[test]
fn row_id_is_prefixed() {
    let ctx = ToggleCtx {
        post_path: "/tools/toggle".into(),
        row_id_prefix: "tool-row".into(),
    };
    assert_eq!(ctx.row_id("search_web"), "tool-row-search_web");
}

#[test]
fn group_by_category_preserves_contiguous_runs() {
    let entries = vec![
        entry("search_web", web()),
        entry("fetch_url", web()),
        entry("get_current_timestamp", utility()),
    ];
    let groups = group_by_category(&entries);
    assert_eq!(groups.len(), 2);
    assert_eq!(groups[0].0, web());
    assert_eq!(groups[0].1.len(), 2);
    assert_eq!(groups[1].0, utility());
}

#[test]
fn groups_are_cut_at_every_change() {
    let entries = vec![
        entry("a", web()),
        entry("b", utility()),
        entry("c", web()),
    ];
    let groups = group_by_category(&entries);
    assert_eq!(groups.len(), 3);
    assert_eq!(groups[2].1[0].key, "c");
    assert!(group_by_category(&vec![]).is_empty());
    let twin = Category { order: 2, ..web() };
    assert_eq!(group_by_category(&vec![entry("a", web()), entry("b", twin)]).len(), 2);
}

#[test]
fn enabled_row_renders_checked_and_posts_to_ctx_path() {
    let ctx = ToggleCtx {
        post_path: "/tokens/abc/tools/toggle".into(),
        row_id_prefix: "token-abc-toolrow".into(),
    };
    let e = entry("rag_search", utility());
    let on = render_toggle_row(&e, true, &ctx).to_string();
    assert!(on.contains("token-abc-toolrow-rag_search"));
    assert!(on.contains("/tokens/abc/tools/toggle"));
    assert!(on.contains("checked"));
    let off = render_toggle_row(&e, false, &ctx).to_string();
    assert!(!off.contains("checked"));
}

#[test]
fn valid_keys_are_the_keys_of_the_entries() {
    let entries = vec![entry("a", web()), entry("b", web())];
    let keys = valid_keys(&entries);
    assert!(keys.contains("a") && keys.contains("b") && !keys.contains("c"));
    assert!(find_entry(&entries, "b").is_some());
    assert!(find_entry(&entries, "c").is_none());
}

#[test]
fn sections_escape_their_heading_and_mark_what_is_on() {
    let entries = vec![entry("a", web()), entry("b", web())];
    let disabled = key_set(&vec!["b".to_string()]);
    let ctx = ToggleCtx { post_path: "/p".into(), row_id_prefix: "r".into() };
    let html = render_toggle_sections(&entries, &disabled, &ctx).to_string();
    assert!(html.contains("Web &amp; more"));
    assert_eq!(html.matches("checked=").count(), 1);
    assert!(html.contains("@post(&#39;/p&#39;, {contentType: &#39;form&#39;})"));
}

#[test]
fn location_card_only_for_those_with_the_tool() {
    let with = vec![entry("get_user_location", utility())];
    let without = vec![entry("a", web())];
    assert_eq!(
        geo_label(&with, &SharedLocation::Within("12".into())).as_deref(),
        Some("Shared — accuracy ±12 m.")
    );
    assert_eq!(geo_label(&with, &SharedLocation::Shared).as_deref(), Some("Shared."));
    assert_eq!(
        geo_label(&with, &SharedLocation::NotShared).as_deref(),
        Some("Not shared.")
    );
    assert_eq!(geo_label(&without, &SharedLocation::Shared), None);
    let page = render_tools_body(&without, &key_set(&vec![]), &None).to_string();
    assert!(!page.contains("window.geo.share"));
    let page =
        render_tools_body(&with, &key_set(&vec![]), &Some("Shared.".into())).to_string();
    assert!(page.contains("window.geo.share"));
    let empty = render_tools_body(&vec![], &key_set(&vec![]), &None).to_string();
    assert!(empty.contains("Your roles don&#39;t grant any tools."));
}

#[test]
fn switching_answers_with_the_row_and_a_message() {
    let entries = vec![entry("a", web())];
    assert!(matches!(read_toggle(&entries, "x", &None), ToggleRequest::Unknown));
    match read_toggle(&entries, "a", &Some("".into())) {
        ToggleRequest::Store { entry, enabled } => {
            assert!(enabled);
            let updates = toggled(&entry, enabled);
            assert_eq!(updates.len(), 2);
            match &updates[0] {
                Update::Patch { selector, mode, markup } => {
                    assert_eq!(selector, "#tool-row-a");
                    assert_eq!(mode, "outer");
                    assert!(markup.starts_with("<div id=\"tool-row-a\""));
                }
                _ => panic!("expected a patch"),
            }
            match &updates[1] {
                Update::Toast { kind, message } => {
                    assert_eq!(*kind, FlashKind::Success);
                    assert_eq!(message, "a enabled.");
                }
                _ => panic!("expected a toast"),
            }
        }
        ToggleRequest::Unknown => panic!("known key"),
    }
    for (updates, words) in [(unknown_tool(), "unknown tool"), (not_saved(), "could not save preference")] {
        assert!(matches!(&updates[..], [Update::Toast { kind: FlashKind::Error, message }] if message == words));
    }
}
