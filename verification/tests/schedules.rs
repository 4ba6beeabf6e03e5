use gateway_pages::html::{Message, Ui};
use gateway_pages::moment::{Moment, LAST_SECOND};
use gateway_pages::scheduled::{
    deleted, last_run_line, next_after_edit, parse_in_range, past_run_line, prepare, previewed, render_action_row,
    render_preview, render_preview_error, reuse_rounds_or_default, run_line, run_lines, toggle, toggled,
    trouble_notice, updated, ActionForm, BuilderInit, CronSummary, RowTexts, ScheduleFields, ScheduledAction, Trouble,
};
use gateway_pages::updates::{FlashKind, StoreOutcome, Update};

fn ui() -> Ui {
    Ui {
        messages: vec![Message {
            key: "scheduled-field-hour".into(),
            text: "hour".into(),
        }],
        icons: vec![],
        logos: vec![],
    }
}

fn fields(mode: &str) -> ScheduleFields {
    ScheduleFields {
        mode: mode.into(),
        minute: Some(" 5 ".into()),
        hour: Some("9".into()),
        dom: Some("31".into()),
        advanced: Some(" */5 * * * * ".into()),
        wd0: None,
        wd1: Some("on".into()),
        wd2: None,
        wd3: None,
        wd4: None,
        wd5: Some("on".into()),
        wd6: None,
    }
}

#[test]
fn schedules_become_expressions() {
    for (mode, cron) in [
        ("hourly", "5 * * * *"),
        ("daily", "5 9 * * *"),
        ("weekly", "5 9 * * 1,5"),
        ("monthly", "5 9 31 * *"),
        ("advanced", "*/5 * * * *"),
    ] {
        assert_eq!(fields(mode).assemble_cron(&ui()).ok().unwrap(), cron);
    }
    assert_eq!(fields("weekly").weekdays(), vec![1, 5]);
}

#[test]
fn bad_schedules_are_refused() {
    let key = |f: ScheduleFields| f.assemble_cron(&ui()).err().unwrap().key;
    assert_eq!(key(fields("yearly")), "scheduled-err-unknown-schedule-type");
    let mut f = fields("weekly");
    f.wd1 = None;
    f.wd5 = None;
    assert_eq!(key(f), "scheduled-err-pick-weekday");
    let mut f = fields("advanced");
    f.advanced = Some(" ".into());
    assert_eq!(key(f), "scheduled-err-enter-cron");
    let mut f = fields("advanced");
    f.advanced = Some(" */5 * * * * ".into());
    f.minute = None;
    f.hour = Some("99".into());
    assert_eq!(f.assemble_cron(&ui()).ok().as_deref(), Some("*/5 * * * *"));
    let mut f = fields("daily");
    f.hour = Some("24".into());
    let n = f.assemble_cron(&ui()).err().unwrap();
    assert_eq!(n.key, "scheduled-err-field-range");
    assert_eq!(
        n.args,
        vec![
            ("field".to_string(), "hour".to_string()),
            ("min".to_string(), "0".to_string()),
            ("max".to_string(), "23".to_string())
        ]
    );
    let mut f = fields("daily");
    f.hour = Some("x".into());
    assert_eq!(key(f), "scheduled-err-invalid-field");
    let mut f = fields("daily");
    f.hour = None;
    assert_eq!(key(f), "scheduled-err-enter-field");
    assert_eq!(parse_in_range(&ui(), &Some("59".into()), 0, 59, "k").ok(), Some(59));
}

#[test]
fn an_expression_opens_the_builder_that_wrote_it() {
    for mode in ["hourly", "daily", "weekly", "monthly"] {
        let cron = fields(mode).assemble_cron(&ui()).ok().unwrap();
        let b = BuilderInit::from_cron(&cron, "UTC");
        assert_eq!(b.mode, mode);
        assert_eq!(b.minute, 5);
        assert_eq!(b.advanced, cron);
    }
    let b = BuilderInit::from_cron("5 9 * * 7,1,1", "UTC");
    assert_eq!(b.mode, "weekly");
    assert_eq!(b.weekdays, vec![0, 1]);
    for cron in ["*/5 * * * *", "5 9 * 2 *", "5 9 * * 8", "5 9 * *", "300 * * * *", "75 9 * * *", "5 24 * * *", "5 9 0 * *", "5 9 32 * *", "60 * * * *", "60 9 * * 1"] {
        let b = BuilderInit::from_cron(cron, "UTC");
        assert_eq!(b.mode, "advanced", "{cron}");
        assert_eq!(b.advanced_raw, cron);
    }
    let d = BuilderInit::defaults("Europe/Berlin");
    assert_eq!(d.mode, "daily");
    assert_eq!((d.minute, d.hour, d.dom), (0, 9, 1));
    assert_eq!(d.weekdays, vec![1]);
    assert_eq!(d.timezone, "Europe/Berlin");
}

fn form(name: &str, tz: &str) -> ActionForm {
    ActionForm {
        name: name.into(),
        prompt: " p ".into(),
        model: " m ".into(),
        timezone: tz.into(),
    }
}

#[test]
fn actions_are_prepared() {
    let p = prepare(&ui(), &form(" n ", " Europe/Berlin "), &fields("daily")).ok().unwrap();
    assert_eq!(p.name, "n");
    assert_eq!(p.prompt, "p");
    assert_eq!(p.model, "m");
    assert_eq!(p.timezone, "Europe/Berlin");
    assert_eq!(p.cron, "5 9 * * *");
    let key = |f: ActionForm| prepare(&ui(), &f, &fields("daily")).err().unwrap().key;
    assert_eq!(key(form(" ", "UTC")), "scheduled-err-name-length");
    assert_eq!(key(form(&"n".repeat(129), "UTC")), "scheduled-err-name-length");
    assert_eq!(key(form("n", "Nowhere/Land")), "scheduled-err-unknown-timezone");
    let mut f = form("n", "UTC");
    f.prompt = String::new();
    assert_eq!(key(f), "scheduled-err-prompt-length");
    let mut f = form("n", "UTC");
    f.model = String::new();
    assert_eq!(key(f), "scheduled-err-pick-model");
}

#[test]
fn rounds_are_bounded() {
    assert_eq!(reuse_rounds_or_default(&None), 5);
    assert_eq!(reuse_rounds_or_default(&Some("x".into())), 5);
    assert_eq!(reuse_rounds_or_default(&Some(" 0 ".into())), 1);
    assert_eq!(reuse_rounds_or_default(&Some("51".into())), 50);
    assert_eq!(reuse_rounds_or_default(&Some("7".into())), 7);
}

#[test]
fn a_paused_action_stays_paused() {
    let at = Moment::new(0);
    assert!(next_after_edit(Some(false), at).is_none());
    assert_eq!(next_after_edit(Some(true), at).map(|m| m.second()), Some(0));
    assert_eq!(next_after_edit(None, at).map(|m| m.second()), Some(0));
    assert!(toggle(false) && !toggle(true));
}

#[test]
fn runs_are_shown_in_their_zone() {
    // 2026-07-06T11:08:00Z
    let at = Moment::new(1_783_336_080).unwrap();
    assert_eq!(run_lines(&vec![at], "Europe/Berlin"), vec!["Mon Jul 6, 13:08"]);
    assert_eq!(run_lines(&vec![at], "UTC"), vec!["Mon Jul 6, 11:08"]);
    assert_eq!(
        last_run_line(Some(at), "Europe/Berlin").as_deref(),
        Some("Jul 6, 13:08")
    );
    assert!(last_run_line(None, "UTC").is_none());
    assert_eq!(run_line(at, 0), "Mon Jul 6, 11:08");
    assert_eq!(run_line(at, -12 * 3600), "Sun Jul 5, 23:08");
    assert_eq!(past_run_line(at, 13 * 3600 + 1800), "Jul 7, 00:38");
    let last = Moment::new(LAST_SECOND).unwrap();
    assert_eq!(run_line(last, 93_599), "Fri Dec 31, 23:59");
}

#[test]
fn schedules_are_previewed() {
    let ok = Ok(CronSummary {
        summary: "Every day".into(),
        runs: vec!["a".into(), "b".into()],
    });
    let html = render_preview(&ui(), &ok, "UTC").to_string();
    assert!(html.contains("Every day (UTC)") && html.contains("a  ·  b"), "{html}");
    let none = Ok(CronSummary {
        summary: "Never".into(),
        runs: vec![],
    });
    assert!(render_preview(&ui(), &none, "UTC")
        .to_string()
        .contains("scheduled-no-upcoming-runs"));
    let bad: Result<CronSummary, String> = Err("no <cron>".into());
    assert!(render_preview(&ui(), &bad, "UTC").to_string().contains("no &lt;cron&gt;"));
    let html = render_preview(&ui(), &ok, "Nowhere").to_string();
    assert!(html.contains("scheduled-err-unknown-timezone"), "{html}");
    let u = previewed(&render_preview_error(&ui(), "e"));
    assert!(matches!(&u[0], Update::Patch { selector, mode, .. } if selector == "#schedule-preview" && mode == "inner"));
}

fn action() -> ScheduledAction {
    ScheduledAction {
        id: "a1".into(),
        name: "News".into(),
        prompt: "x".repeat(97),
        model: "m".into(),
        cron: "5 9 * * *".into(),
        timezone: "UTC".into(),
        tools_enabled: true,
        reuse_conversation: false,
        reuse_rounds: 5,
        enabled: true,
        next_run_at: None,
        last_run_at: None,
        last_status: None,
        last_session_id: None,
    }
}

#[test]
fn rows_are_shown_and_replaced() {
    let texts = RowTexts {
        summary: None,
        next: None,
        last: None,
    };
    let html = render_action_row(&ui(), &action(), &texts).to_string();
    assert!(html.contains(r#"id="sched-row-a1""#), "{html}");
    assert!(html.contains(&format!("{}…", "x".repeat(96))), "{html}");
    assert!(html.contains("m · cron: 5 9 * * * (UTC)"), "{html}");
    assert!(html.contains("/scheduled/a1/toggle"), "{html}");
    let u = toggled(&ui(), &action(), &texts, true);
    assert!(matches!(&u[0], Update::Patch { selector, mode, .. } if selector == "#sched-row-a1" && mode == "outer"));
    assert!(matches!(&u[1], Update::Toast { kind: FlashKind::Success, message } if message == "scheduled-toast-resumed"));
}

#[test]
fn what_the_page_is_told() {
    assert!(matches!(&updated(&ui(), StoreOutcome::Done)[1], Update::Script { code } if code == "window.location.assign('/scheduled')"));
    assert!(matches!(&updated(&ui(), StoreOutcome::NotDone)[0], Update::Toast { kind: FlashKind::Error, message } if message == "scheduled-toast-not-found"));
    assert!(matches!(&updated(&ui(), StoreOutcome::Failed)[0], Update::Toast { message, .. } if message == "scheduled-toast-update-failed"));
    assert!(matches!(&deleted(&ui(), "a1", StoreOutcome::Done)[0], Update::Patch { selector, mode, .. } if selector == "#sched-row-a1" && mode == "remove"));
    assert!(matches!(&deleted(&ui(), "a1", StoreOutcome::NotDone)[0], Update::Toast { kind: FlashKind::Info, .. }));
    assert!(matches!(&deleted(&ui(), "a1", StoreOutcome::Failed)[0], Update::Toast { kind: FlashKind::Error, .. }));
}

#[test]
fn troubles_are_told() {
    for (trouble, key) in [
        (Trouble::NotFound, "scheduled-toast-not-found"),
        (Trouble::SaveFailed, "scheduled-toast-save-failed"),
        (Trouble::UpdateFailed, "scheduled-toast-update-failed"),
        (Trouble::RefreshFailed, "scheduled-toast-refresh-failed"),
    ] {
        let notice = trouble_notice(trouble);
        assert!(!notice.success);
        assert_eq!(notice.key, key);
        assert!(notice.args.is_empty());
    }
}
