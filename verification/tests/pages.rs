use gateway_pages::html::{Html, Message, Ui};
use gateway_pages::layout::{
    forbidden_html, internal_error_html, is_admin, login_redirect, main_class_for,
    nav_get_directive, nav_or_html_page, render_app_sidebar, render_login_page,
    render_sidebar_session, require_admin_or_403, safe_return, sidebar_nav_directive, Chrome,
    NavItem, Page, SidebarChat, SidebarSession, Theme,
};
use gateway_pages::lines::{read_lines, write_lines, Line};
use gateway_pages::moment::Moment;
use gateway_pages::notice::Notice;
use gateway_pages::num::{parse_i64, parse_u64, show_i64, show_u64};
use gateway_pages::query::{find_value, hex_val, percent_decode, query_of};
use gateway_pages::skills::{
    archive_headers, installed, page_url, read_upload_field, removed, render_body,
    render_file_tree, select, selected_skill_param, skill_views, upload_boundary, InstalledSkill,
    RoleGrant, SkillView,
};
use gateway_pages::tokens::{
    created, deleted, expiry, not_stored, plan_token, render_minted_banner, render_token_row, render_tokens_body,
    revoked, AccountSummary, MintedBanner, Token, TokenRowData, MAX_TTL_DAYS,
};
use gateway_pages::updates::{FlashKind, StoreOutcome, Update};

fn ui() -> Ui {
    Ui {
        messages: vec![Message {
            key: "k".into(),
            text: "Hello {name}, {name} and {other}!".into(),
        }],
        icons: vec![],
        logos: vec![],
    }
}

fn chrome() -> Chrome {
    Chrome {
        light_switch: Html::new("<i>to dark</i>"),
        dark_switch: Html::new("<i>to light</i>"),
        toasts: Html::empty(),
        css_href: "/app.css".into(),
        datastar_src: "/d.js".into(),
        app_src: "/a.js".into(),
        pcm_recorder: "/p.js".into(),
        source_url: "https://src".into(),
        version_label: "v1".into(),
    }
}

#[test]
fn messages_are_filled() {
    let n = Notice::plain(false, "k").and("name", "A{other}").and("other", "B");
    assert_eq!(n.text(&ui()), "Hello A{other}, A{other} and B!");
    assert!(
        matches!(&n.show(&ui())[0], Update::Toast { kind: FlashKind::Error, message } if message.starts_with("Hello"))
    );
    assert_eq!(Notice::plain(true, "missing").text(&ui()), "missing");
}

#[test]
fn text_is_escaped() {
    assert_eq!(
        Html::of("<a href=\"x\">'&'</a>").to_string(),
        "&lt;a href=&quot;x&quot;&gt;&#39;&amp;&#39;&lt;/a&gt;"
    );
    assert_eq!(Html::new("<b>").text("<").raw("</b>").to_string(), "<b>&lt;</b>");
}

#[test]
fn numbers_are_read_and_shown() {
    assert_eq!(show_u64(0), "0");
    assert_eq!(show_u64(u64::MAX), "18446744073709551615");
    assert_eq!(show_i64(i64::MIN), "-9223372036854775808");
    assert_eq!(parse_u64("18446744073709551615"), Some(u64::MAX));
    assert_eq!(parse_u64("18446744073709551616"), None);
    assert_eq!(parse_u64("+7"), Some(7));
    assert_eq!(parse_u64(""), None);
    assert_eq!(parse_i64("-9223372036854775808"), Some(i64::MIN));
    assert_eq!(parse_i64("-"), None);
}

#[test]
fn lines_are_read_back() {
    let lines = vec![
        Line {
            name: "a".into(),
            value: Some("b = c".into()),
        },
        Line {
            name: "d".into(),
            value: None,
        },
    ];
    let text = write_lines(&lines);
    assert_eq!(text, "a=b = c\nd");
    let read = read_lines(&text);
    assert_eq!(read.len(), 2);
    assert_eq!(read[0].value.as_deref(), Some("b = c"));
    assert!(read[1].value.is_none());
    assert_eq!(read_lines(" x = y \r\n\n z ").len(), 2);
}

#[test]
fn moments_are_shown() {
    // 2026-07-06T11:08:00Z
    let m = Moment::new(1_783_336_080).unwrap();
    assert_eq!(m.date(), "2026-07-06");
    assert_eq!(m.short_text(), "2026-07-06 11:08");
    assert_eq!(Moment::new(0).unwrap().date(), "1970-01-01");
    assert!(Moment::new(i64::MAX).is_none());
}

#[test]
fn queries_are_written_and_read() {
    let path = "/chat/a b?x=ä&y=1+2";
    let q = query_of("return_to", path);
    assert_eq!(q, "return_to=%2Fchat%2Fa+b%3Fx%3D%C3%A4%26y%3D1%2B2");
    assert_eq!(percent_decode(&find_value(&q, "return_to").unwrap()), path);
    assert_eq!(percent_decode("a%2fb+c%"), "a/b c%");
    assert_eq!(percent_decode("%zz%41"), "%zzA");
    assert_eq!(percent_decode("%4"), "%4");
    assert_eq!(percent_decode("%41x"), "Ax");
    assert_eq!(percent_decode("%FFx"), "\u{FFFD}x");
    assert_eq!(hex_val(b'f'), Some(15));
    assert_eq!(hex_val(b'F'), Some(15));
    assert_eq!(hex_val(b'g'), None);
    assert_eq!(find_value("a&b=1&b=2", "b").as_deref(), Some("1"));
    assert!(find_value("a", "a").is_none());
}

#[test]
fn a_deep_link_survives_sign_in() {
    let path = "/chat/s1?a=b";
    let to = login_redirect(true, Some(path));
    assert_eq!(to, "/login?return_to=%2Fchat%2Fs1%3Fa%3Db");
    assert_eq!(percent_decode(&find_value(&to["/login?".len()..], "return_to").unwrap()), path);
    assert_eq!(login_redirect(false, Some(path)), "/login");
    assert_eq!(login_redirect(true, Some("/login?x")), "/login");
    assert_eq!(login_redirect(true, Some("*")), "/login");
    assert_eq!(login_redirect(true, None), "/login");
    assert_eq!(safe_return(Some("/x".into())).as_deref(), Some("/x"));
    assert_eq!(safe_return(Some("/".into())).as_deref(), Some("/"));
    for away in ["https://evil", "//evil.example", "/\\evil.example", "/\t/evil.example", ""] {
        assert!(safe_return(Some(away.into())).is_none(), "{away}");
        assert_eq!(login_redirect(true, Some(away)), "/login");
    }
    let html = render_login_page(&Some("/chat?a=\"b".into()), "https://src").to_string();
    assert!(
        html.contains(r#"<input type="hidden" name="return_to" value="/chat?a=&quot;b">"#),
        "{html}"
    );
    assert!(!render_login_page(&None, "https://src").to_string().contains("return_to"));
}

#[test]
fn navigation_closes_the_drawer() {
    assert_eq!(nav_get_directive("/x"), "@get('/x')");
    assert_eq!(
        sidebar_nav_directive("/x"),
        "document.getElementById('app-sidebar-toggle').checked = false; @get('/x')"
    );
    assert_ne!(main_class_for(Some(NavItem::Chat)), main_class_for(Some(NavItem::Tools)));
    assert_eq!(main_class_for(None), main_class_for(Some(NavItem::Tools)));
    assert_eq!(main_class_for(None), main_class_for(Some(NavItem::Scheduled)));
}

#[test]
fn administrators_see_more() {
    let none = SidebarChat {
        sessions: vec![],
        active_session_id: None,
    };
    let side =
        |admin| render_app_sidebar(&ui(), &chrome(), Theme::Light, None, "u@x", admin, &none).to_string();
    assert!(side(true).contains("/admin/models") && !side(false).contains("/admin/models"));
    assert!(side(true).contains("to dark"));
    assert!(is_admin(&vec!["user".into(), "admin".into()]));
    assert!(!is_admin(&vec!["dev".into()]));
    let page = require_admin_or_403(&ui(), &chrome(), &vec!["dev".into()], "u@x").unwrap();
    assert_eq!(page.status, 403);
    assert!(require_admin_or_403(&ui(), &chrome(), &vec!["admin".into()], "u@x").is_none());
}

#[test]
fn conversations_are_listed() {
    let s = SidebarSession {
        id: "s1".into(),
        title: None,
    };
    let html = render_sidebar_session(&ui(), &s, Some("s1")).to_string();
    assert!(html.contains("Untitled chat") && html.contains("session-row--active"), "{html}");
    assert!(html.contains("/chat/s1/delete"), "{html}");
    let html = render_sidebar_session(&ui(), &s, None).to_string();
    assert!(!html.contains("session-row--active"), "{html}");
}

#[test]
fn pages_come_whole_or_in_parts() {
    let none = || SidebarChat {
        sessions: vec![],
        active_session_id: None,
    };
    let page = |scripted| {
        nav_or_html_page(
            &ui(),
            &chrome(),
            Theme::Light,
            scripted,
            NavItem::Tools,
            "Tools",
            "u@x",
            false,
            Html::new("<p>body</p>"),
            "/tools",
            &none(),
        )
    };
    match page(false) {
        Page::Document { html } => {
            assert!(
                html.starts_with(r#"<!DOCTYPE html><html lang="en" data-theme="light" class="light">"#),
                "{html}"
            );
            assert!(html.contains("<p>body</p>") && html.contains("<title>"), "{html}")
        }
        Page::Changes { .. } => panic!("a browser needs a document"),
    }
    match page(true) {
        Page::Changes { updates } => assert!(
            updates.iter().any(|u| matches!(u, Update::Script { code } if code.contains("/tools")))
        ),
        Page::Document { .. } => panic!("a script needs changes"),
    }
    assert_eq!(internal_error_html(&ui(), &chrome(), "u@x", "m<").status, 500);
    assert!(internal_error_html(&ui(), &chrome(), "u@x", "m<").html.contains("m&lt;"));
    let refused = forbidden_html(&ui(), &chrome(), "u@x", "m").html;
    assert!(refused.contains("Forbidden"));
    assert!(refused.contains(r#"data-theme="dark" class="dark""#), "{refused}");
    assert!(refused.contains("to light"), "{refused}");
}

fn skill(name: &str, files: &[&str]) -> SkillView {
    SkillView {
        name: name.into(),
        description: "d".into(),
        files: files.iter().map(|s| s.to_string()).collect(),
        roles: vec![],
        body: Html::empty(),
    }
}

#[test]
fn skills_belong_to_roles() {
    let views = skill_views(
        vec![
            InstalledSkill {
                name: "a".into(),
                description: "d".into(),
                files: vec![],
                body: Ok(Html::new("<p>A</p>")),
            },
            InstalledSkill {
                name: "b".into(),
                description: "d".into(),
                files: vec![],
                body: Err("gone".into()),
            },
        ],
        &vec![
            RoleGrant {
                id: "all".into(),
                skills: vec!["*".into()],
            },
            RoleGrant {
                id: "one".into(),
                skills: vec!["a".into()],
            },
        ],
    );
    assert_eq!(views[0].roles, vec!["all", "one"]);
    assert_eq!(views[1].roles, vec!["all"]);
    assert_eq!(views[0].body.to_string(), "<p>A</p>");
    assert_eq!(
        views[1].body.to_string(),
        "<p><em>Could not read SKILL.md: gone</em></p>"
    );
}

#[test]
fn a_skill_is_selected() {
    let skills = vec![skill("a", &[]), skill("b", &[])];
    assert_eq!(select(&skills, Some("b")), 1);
    assert_eq!(select(&skills, Some("z")), 0);
    assert_eq!(select(&skills, None), 0);
    assert_eq!(page_url(&skills, 1), "/admin/skills?skill=b");
    assert_eq!(page_url(&vec![], 0), "/admin/skills");
    assert_eq!(selected_skill_param(Some("x=1&skill=a%2Db")).as_deref(), Some("a-b"));
    assert!(selected_skill_param(None).is_none());
    let html = render_body(&ui(), &skills, 0, Some("data/skills"), Some("bad <file>")).to_string();
    assert!(html.contains("bad &lt;file&gt;") && html.contains("data/skills"), "{html}");
}

#[test]
fn the_files_of_a_skill_are_shown_as_a_tree() {
    let html = render_file_tree(&ui(), &skill("a", &["z/2", "README", "b/1", "b/c/3"])).to_string();
    let at = |s: &str| html.find(s).unwrap();
    assert!(at("SKILL.md") < at(">b/<"), "{html}");
    assert!(at(">b/<") < at(">1<") && at(">1<") < at(">c/3<"), "{html}");
    assert!(at(">c/3<") < at(">z/<") && at(">z/<") < at(">2<"), "{html}");
    assert!(at(">2<") < at(">README<"), "{html}");
}

#[test]
fn skills_are_uploaded_and_removed() {
    assert_eq!(
        upload_boundary("multipart/form-data; boundary=xyz").ok().as_deref(),
        Some("xyz")
    );
    assert!(upload_boundary("text/plain")
        .err()
        .unwrap()
        .starts_with("expected a multipart/form-data upload (form enctype): "));
    assert_eq!(read_upload_field(Ok(Some(vec![1]))).ok(), Some(vec![1]));
    assert_eq!(
        read_upload_field(Ok(None)).err().as_deref(),
        Some("No file was uploaded — pick a .skill archive.")
    );
    assert_eq!(read_upload_field(Err("e".into())).err().as_deref(), Some("e"));
    assert_eq!(installed(Ok("a".into())).ok().as_deref(), Some("/admin/skills?skill=a"));
    assert_eq!(installed(Err("e".into())).err().as_deref(), Some("Could not install skill: e"));
    assert_eq!(removed(Ok(())).ok().as_deref(), Some("/admin/skills"));
    assert_eq!(removed(Err("e".into())).err().as_deref(), Some("Could not delete skill: e"));
    let h = archive_headers("a", 3);
    assert_eq!(h[0].value, "application/zip");
    assert_eq!(h[1].value, "3");
    assert_eq!(h[2].value, "attachment; filename=\"a.skill\"");
    assert_eq!(h[3].value, "no-store");
}

fn token(id: &str, gone: bool) -> Token {
    let m = Moment::new(1_783_336_080).unwrap();
    Token {
        id: id.into(),
        name: "ci<".into(),
        created_at: m,
        last_used_at: None,
        expires_at: m,
        revoked_at: if gone { Some(m) } else { None },
    }
}

#[test]
fn tokens_are_planned() {
    let p = plan_token(" ci ", None, 30).ok().unwrap();
    assert_eq!(p.name, "ci");
    assert_eq!(p.hours, 720);
    assert_eq!(plan_token("ci", Some(0), 30).ok().unwrap().hours, 24);
    assert_eq!(plan_token("ci", Some(i64::MAX), 30).ok().unwrap().hours, MAX_TTL_DAYS * 24);
    assert_eq!(MAX_TTL_DAYS, 1825);
    assert_eq!(
        plan_token(" ", None, 30).err().as_deref(),
        Some("Token name must be 1..=128 characters.")
    );
    assert!(plan_token(&"x".repeat(129), None, 30).is_err());
}

#[test]
fn tokens_expire() {
    let plan = plan_token("ci", Some(1), 30).ok().unwrap();
    let start = Moment::new(0).unwrap();
    assert_eq!(expiry(&plan, &start).map(|m| m.second()), Some(86400));
    let latest = Moment::new(253402207200).unwrap();
    assert!(expiry(&plan, &latest).is_none());
}

#[test]
fn tokens_are_shown() {
    let r = TokenRowData::from_token(&token("t1", false));
    assert_eq!(
        r.meta,
        "created 2026-07-06 · last used never · expires 2026-07-06"
    );
    assert_eq!(r.dom_id(), "token-row-t1");
    assert_eq!(r.revoke_directive(), "@post('/tokens/t1/revoke', {contentType: 'form'})");
    assert_eq!(r.delete_directive(), "@post('/tokens/t1/delete', {contentType: 'form'})");
    let active = render_token_row(&token("t1", false)).to_string();
    assert!(active.contains("/tokens/t1/revoke") && active.contains("ci&lt;"), "{active}");
    let gone = render_token_row(&token("t1", true)).to_string();
    assert!(gone.contains("/tokens/t1/delete"), "{gone}");
    let account = AccountSummary::new("u@x", "u", &vec![], &vec!["dev".into()]);
    assert_eq!(account.oidc_roles, "none");
    assert_eq!(account.rbac_roles, "dev");
    let html = render_tokens_body(&ui(), &vec![token("t1", false)], None, &account).to_string();
    assert!(html.contains("token-row-t1") && html.contains("u@x"), "{html}");
    let banner = render_minted_banner(
        &ui(),
        &MintedBanner {
            name: "ci".into(),
            plaintext: "secret&".into(),
        },
    )
    .to_string();
    assert!(banner.contains("secret&amp;"), "{banner}");
}

#[test]
fn what_is_said_of_tokens() {
    let u = created(&ui(), &token("t1", false), "secret".into());
    assert_eq!(u.len(), 4);
    assert!(matches!(&u[3], Update::Toast { message, .. } if message == "Token created."));
    let list = vec![token("t1", true)];
    assert!(matches!(&revoked(StoreOutcome::Done, &list, "t1")[1], Update::Toast { message, .. } if message == "Token revoked."));
    assert!(matches!(&revoked(StoreOutcome::Done, &list, "t2")[0], Update::Toast { kind: FlashKind::Error, message } if message == "Revoked token not found."));
    assert!(matches!(&revoked(StoreOutcome::NotDone, &list, "t1")[0], Update::Toast { kind: FlashKind::Info, .. }));
    assert!(matches!(&revoked(StoreOutcome::Failed, &list, "t1")[0], Update::Toast { message, .. } if message == "Revoke failed."));
    assert!(matches!(&deleted(StoreOutcome::Done, "t1")[0], Update::Patch { mode, .. } if mode == "remove"));
    assert!(matches!(&deleted(StoreOutcome::NotDone, "t1")[0], Update::Toast { message, .. } if message == "Token is still active — revoke it first."));
    assert!(matches!(&not_stored()[0], Update::Toast { kind: FlashKind::Error, message } if message == "Storing token failed."));
    assert!(matches!(&deleted(StoreOutcome::Failed, "t1")[0], Update::Toast { message, .. } if message == "Remove failed."));
}
