use gateway_pages::groups::{
    group_card, group_form, group_stored, name_input, read_deletion, read_group, render_body,
    GroupView, SaveForm,
};
use gateway_pages::html::{Html, Icon, Ui};
use gateway_pages::moment::Moment;
use gateway_pages::updates::{Answer, FlashKind, Update};
use gateway_pages::users::{
    actor_email, plan_stop, redirect_with_session_cookie, render_audit, render_audit_row,
    render_user_row, restore_failed, user_rows, ImpersonationEvent, Start, StartAction, StartEvent,
    Stop, User,
};

fn ui() -> Ui {
    Ui {
        messages: vec![],
        icons: vec![Icon {
            name: "users".into(),
            size: 14,
            markup: Html::new("<svg/>"),
        }],
        logos: vec![],
    }
}

fn form() -> SaveForm {
    SaveForm {
        name: " dev ".into(),
        description: " d ".into(),
        is_admin: "1".into(),
        is_default: String::new(),
        oidc_values: "a, b".into(),
        tools: "*".into(),
        skills: " , x".into(),
    }
}

fn group() -> GroupView {
    GroupView {
        name: "dev<".into(),
        description: "d".into(),
        is_admin: true,
        is_default: false,
        oidc_values: vec!["a".into(), "b".into()],
        tools: vec!["*".into()],
        skills: vec![],
    }
}

#[test]
fn groups_are_read() {
    let g = read_group(&form()).ok().unwrap();
    assert_eq!(g.name, "dev");
    assert_eq!(g.description, "d");
    assert!(g.is_admin && !g.is_default);
    assert_eq!(g.oidc_values, vec!["a", "b"]);
    assert_eq!(g.tools, vec!["*"]);
    assert_eq!(g.skills, vec!["x"]);
    let mut f = form();
    f.name = "  ".into();
    assert_eq!(read_group(&f).err().unwrap().key, "groups-error-name-required");
    assert_eq!(read_deletion(" dev "), "dev");
}

#[test]
fn an_unchanged_group_is_saved_unchanged() {
    let g = group();
    let f = SaveForm {
        name: "dev".into(),
        description: "d".into(),
        is_admin: "1".into(),
        is_default: String::new(),
        oidc_values: g.oidc_values.join(", "),
        tools: g.tools.join(", "),
        skills: g.skills.join(", "),
    };
    let html = group_form(&ui(), Some(&g)).to_string();
    assert!(html.contains(r#"name="oidc_values" value="a, b""#), "{html}");
    let read = read_group(&f).ok().unwrap();
    assert_eq!(read.oidc_values, g.oidc_values);
    assert_eq!(read.tools, g.tools);
    assert_eq!(read.skills, g.skills);
}

#[test]
fn the_name_of_a_group_stays() {
    let new = name_input("", false).to_string();
    assert_eq!(
        new,
        r#"<input type="text" name="name" value="" required="required" class="input input-bordered input-sm font-mono" placeholder="developers">"#
    );
    let stored = name_input("dev", true).to_string();
    assert_eq!(
        stored,
        r#"<input type="text" name="name" value="dev" readonly="readonly" class="input input-bordered input-sm font-mono bg-base-200">"#
    );
    let card = group_card(&ui(), &group()).to_string();
    assert!(card.contains(r#"action="/admin/groups/delete""#), "{card}");
    assert!(card.contains("dev&lt;"), "{card}");
    assert!(card.contains(r#"name="is_admin" value="1" checked="checked""#), "{card}");
}

#[test]
fn the_page_of_groups_suggests_values() {
    let html = render_body(
        &ui(),
        &vec![],
        &vec!["grp".into()],
        &vec!["tool".into()],
        &vec!["skill".into()],
    )
    .to_string();
    assert!(
        html.contains(r#"<datalist id="oidc-values"><option value="grp"></option></datalist>"#),
        "{html}"
    );
    assert!(html.contains("groups-empty"), "{html}");
    let html = render_body(&ui(), &vec![group()], &vec![], &vec![], &vec![]).to_string();
    assert!(!html.contains("groups-empty"), "{html}");
}

#[test]
fn what_follows_a_change_of_groups() {
    assert!(matches!(group_stored(None), Answer::SeeOther { to } if to == "/admin/groups"));
    match group_stored(Some("broken")) {
        Answer::Changes { updates } => assert!(matches!(
            &updates[0],
            Update::Toast { kind: FlashKind::Error, message } if message == "broken"
        )),
        Answer::SeeOther { .. } => panic!("an error leads nowhere"),
    }
}

fn user(id: &str) -> User {
    User {
        id: id.into(),
        email: format!("{id}@x"),
        name: None,
        roles: vec![],
        role_ids: vec!["admin".into(), "dev".into()],
        // 2026-07-06T11:08:00Z
        created_at: Moment::new(1_783_336_080).unwrap(),
    }
}

#[test]
fn users_are_listed() {
    let rows = user_rows(&vec![user("a"), user("b")], "b");
    assert_eq!(rows[0].oidc_roles, "none");
    assert_eq!(rows[0].rbac_roles, "admin, dev");
    assert_eq!(rows[0].created, "2026-07-06");
    assert!(!rows[0].is_self && rows[1].is_self);
    let other = render_user_row(&ui(), &rows[0], true).to_string();
    assert!(other.contains("/admin/users/impersonate"), "{other}");
    let locked = render_user_row(&ui(), &rows[0], false).to_string();
    assert!(!locked.contains("/admin/users/impersonate"), "{locked}");
    assert!(locked.contains("—"), "{locked}");
    let own = render_user_row(&ui(), &rows[1], true).to_string();
    assert!(own.contains(">you<") && !own.contains("/admin/users/impersonate"), "{own}");
}

#[test]
fn a_start_stands_out() {
    let event = |action: &str| ImpersonationEvent {
        created_at: Moment::new(1_783_336_080).unwrap(),
        action: action.into(),
        actor_email: "a@x".into(),
        target_email: "b@x".into(),
    };
    let start = render_audit_row(&event("start")).to_string();
    assert!(start.contains("badge badge-warning") && start.contains("2026-07-06 11:08"), "{start}");
    let stop = render_audit_row(&event("stop")).to_string();
    assert!(stop.contains("badge badge-ghost"), "{stop}");
    let none = render_audit(&vec![]).to_string();
    assert!(none.contains("No impersonations recorded yet."), "{none}");
}

fn begun() -> Start {
    let (start, action) = Start::begin(true, false, "admin", "admin@x");
    assert!(matches!(action, StartAction::ReadForm));
    start
}

fn forbidden(action: StartAction) -> String {
    match action {
        StartAction::Forbid { reason } => reason,
        _ => panic!("not refused"),
    }
}

#[test]
fn an_administrator_acts_as_a_user() {
    let (start, action) = begun().next(StartEvent::FormRead { user_id: "u".into() });
    assert!(matches!(action, StartAction::Find { user_id } if user_id == "u"));
    let (start, action) = start.next(StartEvent::Found {
        id: "u".into(),
        email: "u@x".into(),
    });
    assert!(
        matches!(action, StartAction::Make { target_id, admin_id } if target_id == "u" && admin_id == "admin")
    );
    let (start, action) = start.next(StartEvent::Made {
        session_id: "s".into(),
    });
    assert!(matches!(
        action,
        StartAction::Record { admin_id, admin_email, target_id, target_email }
            if admin_id == "admin" && admin_email == "admin@x" && target_id == "u" && target_email == "u@x"
    ));
    let (_, action) = start.next(StartEvent::Recorded);
    assert!(matches!(action, StartAction::Enter { session_id } if session_id == "s"));
}

#[test]
fn acting_as_a_user_is_refused() {
    let (_, action) = Start::begin(false, false, "admin", "admin@x");
    assert_eq!(forbidden(action), "Impersonation is disabled on this gateway.");
    let (_, action) = Start::begin(true, true, "admin", "admin@x");
    assert_eq!(
        forbidden(action),
        "Already impersonating — return to your account before starting another."
    );
    let (_, action) = begun().next(StartEvent::Unreadable {
        reason: "too large".into(),
    });
    assert_eq!(forbidden(action), "too large");
    let (_, action) = begun().next(StartEvent::Malformed { error: "e".into() });
    assert_eq!(forbidden(action), "malformed form: e");
    let (_, action) = begun().next(StartEvent::FormRead {
        user_id: "admin".into(),
    });
    assert_eq!(forbidden(action), "You can't impersonate yourself.");
    let (start, _) = begun().next(StartEvent::FormRead { user_id: "u".into() });
    let (_, action) = start.next(StartEvent::Missing);
    assert_eq!(forbidden(action), "No such user.");
}

#[test]
fn acting_as_a_user_can_fail() {
    let (start, _) = begun().next(StartEvent::FormRead { user_id: "u".into() });
    let (_, action) = start.next(StartEvent::LookupFailed);
    assert!(matches!(action, StartAction::Fail { reason } if reason == "could not look up user"));
    let (start, _) = begun().next(StartEvent::FormRead { user_id: "u".into() });
    let (start, _) = start.next(StartEvent::Found {
        id: "u".into(),
        email: "u@x".into(),
    });
    let (_, action) = start.next(StartEvent::MakingFailed);
    assert!(
        matches!(action, StartAction::Fail { reason } if reason == "could not start impersonation")
    );
}

#[test]
fn acting_as_a_user_ends() {
    assert!(matches!(plan_stop(None), Stop::Home));
    assert!(matches!(plan_stop(Some("a".into())), Stop::Restore { admin_id } if admin_id == "a"));
    assert_eq!(restore_failed(), "could not restore your account");
    assert_eq!(actor_email(None, "id"), "id");
    assert_eq!(actor_email(Some("e@x".into()), "id"), "e@x");
    let headers = redirect_with_session_cookie("sid", "signed", "/");
    assert_eq!(headers[0].name, "location");
    assert_eq!(headers[0].value, "/");
    assert_eq!(headers[1].name, "set-cookie");
    assert_eq!(headers[1].value, "sid=signed; Path=/; HttpOnly; SameSite=Lax");
}
