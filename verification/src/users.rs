//! The users of the gateway, and acting as one of them.
//!
//! An administrator can act as another user. [`Start::next`] says what is done
//! after each event; whoever runs it does that and hands back the next event.
use crate::chat::export::{header_views, Header};
use crate::html::{escaped, Html, Ui};
use crate::moment::{utc_text, Moment};
use crate::text::{opt_text, same, string_or_empty, text_or_empty, texts};
use crate::tokens::{join_or, joined_or};
use crate::markup::{ends_in, group_shows, shows, starts_as};
use vstd::prelude::*;

verus! {

/// A user.
pub struct User {
    pub id: String,
    pub email: String,
    pub name: Option<String>,
    /// The roles of the identity provider.
    pub roles: Vec<String>,
    /// The roles of the gateway that these give.
    pub role_ids: Vec<String>,
    pub created_at: Moment,
}

/// A user as a row shows them.
pub struct UserRow {
    pub id: String,
    pub email: String,
    pub name: String,
    pub oidc_roles: String,
    pub rbac_roles: String,
    pub created: String,
    /// Whether it is the one who looks.
    pub is_self: bool,
}

/// Whether a row shows a user, to the administrator with that number.
pub open spec fn row_of(r: UserRow, u: User, admin_id: Seq<char>) -> bool {
    &&& r.id@ == u.id@
    &&& r.email@ == u.email@
    &&& r.name@ == text_or_empty(opt_text(u.name))
    &&& r.oidc_roles@ == joined_or(texts(u.roles@), "none"@)
    &&& r.rbac_roles@ == joined_or(texts(u.role_ids@), "none granted"@)
    &&& r.created@ == utc_text(u.created_at.at(), "%Y-%m-%d"@)
    &&& r.is_self == (u.id@ == admin_id)
}

/// Makes the rows of users.
pub fn user_rows(users: &Vec<User>, admin_id: &str) -> (r: Vec<UserRow>)
    ensures
        r@.len() == users@.len(),
        forall|i: int| 0 <= i < r@.len() ==> row_of(#[trigger] r@[i], users@[i], admin_id@),
{
    let mut out: Vec<UserRow> = Vec::new();
    for i in 0..users.len()
        invariant
            out@.len() == i,
            forall|j: int| 0 <= j < i ==> row_of(#[trigger] out@[j], users@[j], admin_id@),
    {
        let u = &users[i];
        out.push(
            UserRow {
                id: u.id.clone(),
                email: u.email.clone(),
                name: string_or_empty(&u.name),
                oidc_roles: join_or(&u.roles, "none"),
                rbac_roles: join_or(&u.role_ids, "none granted"),
                created: u.created_at.date(),
                is_self: same(&u.id, admin_id),
            },
        );
    }
    out
}

// ---------------------------------------------------------------------------
// Acting as another user

/// What a start waits for.
pub enum StartStep {
    /// The form.
    Form,
    /// The user that it names.
    Target { user_id: String },
    /// A session as that user.
    Session { target_id: String, target_email: String },
    /// The record of it.
    Record { session_id: String },
    /// Nothing more.
    Over,
}

/// An administrator who is about to act as another user.
pub struct Start {
    pub admin_id: String,
    pub admin_email: String,
    pub step: StartStep,
}

/// What happened.
pub enum StartEvent {
    FormRead { user_id: String },
    /// The request could not be read.
    Unreadable { reason: String },
    /// What was read is no such form.
    Malformed { error: String },
    Found { id: String, email: String },
    Missing,
    LookupFailed,
    Made { session_id: String },
    MakingFailed,
    /// The start was recorded, or that was tried in vain.
    Recorded,
}

/// What is to be done.
pub enum StartAction {
    ReadForm,
    Find { user_id: String },
    /// Make a session as the target for the administrator.
    Make { target_id: String, admin_id: String },
    /// Record who began to act as whom.
    Record { admin_id: String, admin_email: String, target_id: String, target_email: String },
    /// Hand out the session and show the first page.
    Enter { session_id: String },
    /// Refuse.
    Forbid { reason: String },
    /// Tell of an internal error.
    Fail { reason: String },
}

/// A [`StartStep`] over texts.
pub ghost enum StartStepView {
    Form,
    Target { user_id: Seq<char> },
    Session { target_id: Seq<char>, target_email: Seq<char> },
    Record { session_id: Seq<char> },
    Over,
}

/// A [`Start`] over texts.
pub ghost struct StartView {
    pub admin_id: Seq<char>,
    pub admin_email: Seq<char>,
    pub step: StartStepView,
}

/// A [`StartEvent`] over texts.
pub ghost enum StartEventView {
    FormRead { user_id: Seq<char> },
    Unreadable { reason: Seq<char> },
    Malformed { error: Seq<char> },
    Found { id: Seq<char>, email: Seq<char> },
    Missing,
    LookupFailed,
    Made { session_id: Seq<char> },
    MakingFailed,
    Recorded,
}

/// A [`StartAction`] over texts.
pub ghost enum StartActionView {
    ReadForm,
    Find { user_id: Seq<char> },
    Make { target_id: Seq<char>, admin_id: Seq<char> },
    Record {
        admin_id: Seq<char>,
        admin_email: Seq<char>,
        target_id: Seq<char>,
        target_email: Seq<char>,
    },
    Enter { session_id: Seq<char> },
    Forbid { reason: Seq<char> },
    Fail { reason: Seq<char> },
}

impl View for StartStep {
    type V = StartStepView;

    open spec fn view(&self) -> StartStepView {
        match self {
            StartStep::Form => StartStepView::Form,
            StartStep::Target { user_id } => StartStepView::Target { user_id: user_id@ },
            StartStep::Session { target_id, target_email } => StartStepView::Session {
                target_id: target_id@,
                target_email: target_email@,
            },
            StartStep::Record { session_id } => StartStepView::Record { session_id: session_id@ },
            StartStep::Over => StartStepView::Over,
        }
    }
}

impl View for Start {
    type V = StartView;

    open spec fn view(&self) -> StartView {
        StartView {
            admin_id: self.admin_id@,
            admin_email: self.admin_email@,
            step: self.step@,
        }
    }
}

impl View for StartEvent {
    type V = StartEventView;

    open spec fn view(&self) -> StartEventView {
        match self {
            StartEvent::FormRead { user_id } => StartEventView::FormRead { user_id: user_id@ },
            StartEvent::Unreadable { reason } => StartEventView::Unreadable { reason: reason@ },
            StartEvent::Malformed { error } => StartEventView::Malformed { error: error@ },
            StartEvent::Found { id, email } => StartEventView::Found { id: id@, email: email@ },
            StartEvent::Missing => StartEventView::Missing,
            StartEvent::LookupFailed => StartEventView::LookupFailed,
            StartEvent::Made { session_id } => StartEventView::Made { session_id: session_id@ },
            StartEvent::MakingFailed => StartEventView::MakingFailed,
            StartEvent::Recorded => StartEventView::Recorded,
        }
    }
}

impl View for StartAction {
    type V = StartActionView;

    open spec fn view(&self) -> StartActionView {
        match self {
            StartAction::ReadForm => StartActionView::ReadForm,
            StartAction::Find { user_id } => StartActionView::Find { user_id: user_id@ },
            StartAction::Make { target_id, admin_id } => StartActionView::Make {
                target_id: target_id@,
                admin_id: admin_id@,
            },
            StartAction::Record { admin_id, admin_email, target_id, target_email } => {
                StartActionView::Record {
                    admin_id: admin_id@,
                    admin_email: admin_email@,
                    target_id: target_id@,
                    target_email: target_email@,
                }
            },
            StartAction::Enter { session_id } => StartActionView::Enter { session_id: session_id@ },
            StartAction::Forbid { reason } => StartActionView::Forbid { reason: reason@ },
            StartAction::Fail { reason } => StartActionView::Fail { reason: reason@ },
        }
    }
}

impl StartView {
    /// How an administrator begins: not where it is switched off, and not while
    /// they already act as someone.
    pub open spec fn begun(
        allowed: bool,
        already: bool,
        admin_id: Seq<char>,
        admin_email: Seq<char>,
    ) -> (StartView, StartActionView) {
        let start = StartView { admin_id, admin_email, step: StartStepView::Form };
        if !allowed {
            start.forbidden("Impersonation is disabled on this gateway."@)
        } else if already {
            start.forbidden(
                "Already impersonating — return to your account before starting another."@,
            )
        } else {
            (start, StartActionView::ReadForm)
        }
    }

    /// The start at another step.
    pub open spec fn at(self, step: StartStepView) -> StartView {
        StartView { step, ..self }
    }

    /// The end, with a refusal.
    pub open spec fn forbidden(self, reason: Seq<char>) -> (StartView, StartActionView) {
        (self.at(StartStepView::Over), StartActionView::Forbid { reason })
    }

    /// The end, with an internal error.
    pub open spec fn failed(self, reason: Seq<char>) -> (StartView, StartActionView) {
        (self.at(StartStepView::Over), StartActionView::Fail { reason })
    }

    /// Whether an event answers what the start waits for. The user that is found
    /// is the one that was looked for.
    pub open spec fn expects(self, event: StartEventView) -> bool {
        match self.step {
            StartStepView::Form => event is FormRead || event is Unreadable || event is Malformed,
            StartStepView::Target { user_id } => event is Missing || event is LookupFailed || (
            event matches StartEventView::Found { id, .. } && id == user_id),
            StartStepView::Session { .. } => event is Made || event is MakingFailed,
            StartStepView::Record { .. } => event is Recorded,
            StartStepView::Over => false,
        }
    }

    /// Whether a state can occur: nobody is about to act as themselves.
    pub open spec fn wf(self) -> bool {
        match self.step {
            StartStepView::Target { user_id } => user_id != self.admin_id,
            StartStepView::Session { target_id, .. } => target_id != self.admin_id,
            _ => true,
        }
    }

    /// What follows an event.
    pub open spec fn after(self, event: StartEventView) -> (StartView, StartActionView) {
        match event {
            StartEventView::FormRead { user_id } => if user_id == self.admin_id {
                self.forbidden("You can't impersonate yourself."@)
            } else {
                (
                    self.at(StartStepView::Target { user_id }),
                    StartActionView::Find { user_id },
                )
            },
            StartEventView::Unreadable { reason } => self.forbidden(reason),
            StartEventView::Malformed { error } => self.forbidden("malformed form: "@ + error),
            StartEventView::Found { id, email } => (
                self.at(StartStepView::Session { target_id: id, target_email: email }),
                StartActionView::Make { target_id: id, admin_id: self.admin_id },
            ),
            StartEventView::Missing => self.forbidden("No such user."@),
            StartEventView::LookupFailed => self.failed("could not look up user"@),
            StartEventView::Made { session_id } => (
                self.at(StartStepView::Record { session_id }),
                StartActionView::Record {
                    admin_id: self.admin_id,
                    admin_email: self.admin_email,
                    target_id: self.step->target_id,
                    target_email: self.step->target_email,
                },
            ),
            StartEventView::MakingFailed => self.failed("could not start impersonation"@),
            StartEventView::Recorded => (
                self.at(StartStepView::Over),
                StartActionView::Enter { session_id: self.step->Record_session_id },
            ),
        }
    }
}

impl Start {
    /// Begins, for an administrator.
    pub fn begin(allowed: bool, already: bool, admin_id: &str, admin_email: &str) -> (r: (
        Start,
        StartAction,
    ))
        ensures
            (r.0@, r.1@) == StartView::begun(allowed, already, admin_id@, admin_email@),
            r.0@.wf(),
    {
        let start = Start {
            admin_id: admin_id.to_owned(),
            admin_email: admin_email.to_owned(),
            step: StartStep::Form,
        };
        if !allowed {
            start.forbid("Impersonation is disabled on this gateway.")
        } else if already {
            start.forbid("Already impersonating — return to your account before starting another.")
        } else {
            (start, StartAction::ReadForm)
        }
    }

    fn forbid(self, reason: &str) -> (r: (Start, StartAction))
        ensures
            (r.0@, r.1@) == self@.forbidden(reason@),
    {
        (
            Start { step: StartStep::Over, ..self },
            StartAction::Forbid { reason: reason.to_owned() },
        )
    }

    fn fail(self, reason: &str) -> (r: (Start, StartAction))
        ensures
            (r.0@, r.1@) == self@.failed(reason@),
    {
        (Start { step: StartStep::Over, ..self }, StartAction::Fail { reason: reason.to_owned() })
    }

    /// What follows an event: the start as it is then, and what is to be done.
    pub fn next(self, event: StartEvent) -> (r: (Start, StartAction))
        requires
            self@.wf(),
            self@.expects(event@),
        ensures
            (r.0@, r.1@) == self@.after(event@),
            r.0@.wf(),
    {
        match event {
            StartEvent::FormRead { user_id } => {
                if same(&user_id, &self.admin_id) {
                    return self.forbid("You can't impersonate yourself.");
                }
                let action = StartAction::Find { user_id: user_id.clone() };
                (Start { step: StartStep::Target { user_id }, ..self }, action)
            },
            StartEvent::Unreadable { reason } => self.forbid(&reason),
            StartEvent::Malformed { error } => {
                let mut reason = "malformed form: ".to_owned();
                reason.append(&error);
                self.forbid(&reason)
            },
            StartEvent::Found { id, email } => {
                let action = StartAction::Make {
                    target_id: id.clone(),
                    admin_id: self.admin_id.clone(),
                };
                (
                    Start {
                        step: StartStep::Session { target_id: id, target_email: email },
                        ..self
                    },
                    action,
                )
            },
            StartEvent::Missing => self.forbid("No such user."),
            StartEvent::LookupFailed => self.fail("could not look up user"),
            StartEvent::Made { session_id } => {
                let Start { admin_id, admin_email, step } = self;
                let (target_id, target_email) = match step {
                    StartStep::Session { target_id, target_email } => (target_id, target_email),
                    _ => (String::new(), String::new()),
                };
                let action = StartAction::Record {
                    admin_id: admin_id.clone(),
                    admin_email: admin_email.clone(),
                    target_id,
                    target_email,
                };
                (Start { admin_id, admin_email, step: StartStep::Record { session_id } }, action)
            },
            StartEvent::MakingFailed => self.fail("could not start impersonation"),
            StartEvent::Recorded => {
                let Start { admin_id, admin_email, step } = self;
                let session_id = match step {
                    StartStep::Record { session_id } => session_id,
                    _ => String::new(),
                };
                (
                    Start { admin_id, admin_email, step: StartStep::Over },
                    StartAction::Enter { session_id },
                )
            },
        }
    }
}

/// An administrator begins only where acting as others is allowed, and not while
/// they act as someone.
pub proof fn acting_does_not_nest(
    allowed: bool,
    already: bool,
    admin_id: Seq<char>,
    admin_email: Seq<char>,
)
    ensures
        StartView::begun(allowed, already, admin_id, admin_email).1 is Forbid <==> (!allowed
            || already),
        StartView::begun(allowed, already, admin_id, admin_email).1 is ReadForm <==> (allowed
            && !already),
{
}

/// A session is made only for the administrator who asked, and never as
/// themselves.
pub proof fn nobody_acts_as_themselves(
    start: StartView,
    event: StartEventView,
    target: Seq<char>,
    admin: Seq<char>,
)
    requires
        start.wf(),
        start.expects(event),
        start.after(event).1 == (StartActionView::Make { target_id: target, admin_id: admin }),
    ensures
        admin == start.admin_id,
        target != admin,
{
}

/// Nobody enters a session without a record of it having been tried: only the
/// step after the record hands it out.
pub proof fn every_session_is_recorded(start: StartView, event: StartEventView)
    requires
        start.wf(),
        start.expects(event),
    ensures
        start.after(event).1 is Enter <==> event is Recorded,
        event is Made ==> start.after(event).1 is Record && start.after(event).0.step is Record,
{
}

/// What ends acting as another user: whose account is restored, if someone else
/// looks through this session at all.
pub enum Stop {
    /// Nothing to end: show the first page.
    Home,
    /// Make a session for the administrator, and delete this one.
    Restore { admin_id: String },
}

/// Ends acting as another user.
pub fn plan_stop(impersonator: Option<String>) -> (r: Stop)
    ensures
        match impersonator {
            None => r is Home,
            Some(id) => r matches Stop::Restore { admin_id } && admin_id@ == id@,
        },
{
    match impersonator {
        None => Stop::Home,
        Some(admin_id) => Stop::Restore { admin_id },
    }
}

/// Why the administrator's account could not be restored.
pub fn restore_failed() -> (r: String)
    ensures
        r@ == "could not restore your account"@,
{
    "could not restore your account".to_owned()
}

/// What the administrator is called in the record: their address, or their
/// number when the account cannot be read.
pub fn actor_email(found: Option<String>, admin_id: &str) -> (r: String)
    ensures
        r@ == (match found {
            Some(e) => e@,
            None => admin_id@,
        }),
{
    match found {
        Some(e) => e,
        None => admin_id.to_owned(),
    }
}

/// The cookie of a session.
pub open spec fn cookie_text(name: Seq<char>, signed: Seq<char>) -> Seq<char> {
    name + "="@ + signed + "; Path=/; HttpOnly; SameSite=Lax"@
}

/// The headers that lead to another page with the cookie of a session.
pub fn redirect_with_session_cookie(name: &str, signed: &str, location: &str) -> (r: Vec<Header>)
    ensures
        header_views(r@) == seq![
            ("location"@, location@),
            ("set-cookie"@, cookie_text(name@, signed@)),
        ],
{
    let mut cookie = name.to_owned();
    cookie.append("=");
    cookie.append(signed);
    cookie.append("; Path=/; HttpOnly; SameSite=Lax");
    let mut out: Vec<Header> = Vec::new();
    out.push(Header { name: "location".to_owned(), value: location.to_owned() });
    out.push(Header { name: "set-cookie".to_owned(), value: cookie });
    assert(header_views(out@) =~= seq![
        ("location"@, location@),
        ("set-cookie"@, cookie_text(name@, signed@)),
    ]);
    out
}

// ---------------------------------------------------------------------------
// The page

/// The row of a user. Others can be acted as, where that is allowed.
#[verifier::opaque]
pub open spec fn user_row(ui: &Ui, r: UserRow, allow: bool) -> Seq<char> {
    r#"<tr><td><div class="font-medium">"#@
        + escaped(r.email@)
        + "</div>"@
        + (if r.name@.len() > 0 {
            r#"<div class="text-xs text-base-content/60">"#@
                + escaped(r.name@)
                + "</div>"@
        } else {
            Seq::<char>::empty()
        })
        + r#"<div class="text-xs text-base-content/40 font-mono break-all">"#@
        + escaped(r.id@)
        + r#"</div></td><td class="text-sm">"#@
        + escaped(r.oidc_roles@)
        + r#"</td><td class="text-sm">"#@
        + escaped(r.rbac_roles@)
        + r#"</td><td class="text-sm whitespace-nowrap">"#@
        + escaped(r.created@)
        + r#"</td><td class="text-right">"#@
        + (if r.is_self {
            r#"<span class="badge badge-ghost">you</span>"#@
        } else if allow {
            r#"<form method="post" action="/admin/users/impersonate" class="m-0 inline">"#@
                + r#"<input type="hidden" name="user_id" value=""#@
                + escaped(r.id@)
                + r#""><button type="submit" class="btn btn-outline btn-sm">"#@
                + ui.icon_markup("users"@, 14)
                + "<span>Impersonate</span></button></form>"@
        } else {
            r#"<span class="text-base-content/40">—</span>"#@
        })
        + "</td></tr>"@
}

/// Renders the row of a user.
pub fn render_user_row(ui: &Ui, r: &UserRow, allow: bool) -> (h: Html)
    ensures
        h@ == user_row(ui, *r, allow),
{
    proof {
        reveal(user_row);
    }
    Html::new(r#"<tr><td><div class="font-medium">"#)
        .text(&r.email)
        .raw("</div>")
        .html(if !r.name.as_str().is_empty() {
            Html::new(r#"<div class="text-xs text-base-content/60">"#)
                .text(&r.name)
                .raw("</div>")
        } else {
            Html::empty()
        })
        .raw(r#"<div class="text-xs text-base-content/40 font-mono break-all">"#)
        .text(&r.id)
        .raw(r#"</div></td><td class="text-sm">"#)
        .text(&r.oidc_roles)
        .raw(r#"</td><td class="text-sm">"#)
        .text(&r.rbac_roles)
        .raw(r#"</td><td class="text-sm whitespace-nowrap">"#)
        .text(&r.created)
        .raw(r#"</td><td class="text-right">"#)
        .html(if r.is_self {
            Html::new(r#"<span class="badge badge-ghost">you</span>"#)
        } else if allow {
            Html::new(r#"<form method="post" action="/admin/users/impersonate" class="m-0 inline">"#)
                .raw(r#"<input type="hidden" name="user_id" value=""#)
                .text(&r.id)
                .raw(r#""><button type="submit" class="btn btn-outline btn-sm">"#)
                .icon(ui, "users", 14)
                .raw("<span>Impersonate</span></button></form>")
        } else {
            Html::new(r#"<span class="text-base-content/40">—</span>"#)
        })
        .raw("</td></tr>")
}

/// The rows of users.
pub open spec fn user_table(ui: &Ui, rows: Seq<UserRow>, allow: bool) -> Seq<char>
    decreases rows.len(),
{
    if rows.len() == 0 {
        Seq::empty()
    } else {
        user_table(ui, rows.drop_last(), allow) + user_row(ui, rows.last(), allow)
    }
}

fn render_user_table(ui: &Ui, rows: &Vec<UserRow>, allow: bool) -> (r: Html)
    ensures
        r@ == user_table(ui, rows@, allow),
{
    let mut out = Html::empty();
    assert(rows@.take(0) =~= Seq::<UserRow>::empty());
    for i in 0..rows.len()
        invariant
            out@ == user_table(ui, rows@.take(i as int), allow),
    {
        assert(rows@.take(i + 1).drop_last() =~= rows@.take(i as int));
        out = out.html(render_user_row(ui, &rows[i], allow));
    }
    assert(rows@.take(rows@.len() as int) =~= rows@);
    out
}

/// A recorded start or end.
pub struct ImpersonationEvent {
    pub created_at: Moment,
    pub action: String,
    pub actor_email: String,
    pub target_email: String,
}

/// The row of a recorded event. A start stands out.
#[verifier::opaque]
pub open spec fn audit_row(e: ImpersonationEvent) -> Seq<char> {
    let started = e.action@ == "start"@;
    r#"<tr><td class="text-sm whitespace-nowrap">"#@
        + escaped(utc_text(e.created_at.at(), "%Y-%m-%d %H:%M"@))
        + r#"</td><td><span class=""#@
        + (if started { "badge badge-warning"@ } else { "badge badge-ghost"@ })
        + r#"">"#@
        + escaped(e.action@)
        + r#"</span></td><td class="text-sm break-all">"#@
        + escaped(e.actor_email@)
        + r#"</td><td class="text-sm break-all">"#@
        + escaped(e.target_email@)
        + "</td></tr>"@
}

/// Renders the row of a recorded event.
pub fn render_audit_row(e: &ImpersonationEvent) -> (r: Html)
    ensures
        r@ == audit_row(*e),
{
    proof {
        reveal(audit_row);
    }
    let started = same(&e.action, "start");
    Html::new(r#"<tr><td class="text-sm whitespace-nowrap">"#)
        .text(&e.created_at.short_text())
        .raw(r#"</td><td><span class=""#)
        .html(Html::new(if started { "badge badge-warning" } else { "badge badge-ghost" }))
        .raw(r#"">"#)
        .text(&e.action)
        .raw(r#"</span></td><td class="text-sm break-all">"#)
        .text(&e.actor_email)
        .raw(r#"</td><td class="text-sm break-all">"#)
        .text(&e.target_email)
        .raw("</td></tr>")
}

/// The rows of recorded events.
pub open spec fn audit_rows(events: Seq<ImpersonationEvent>) -> Seq<char>
    decreases events.len(),
{
    if events.len() == 0 {
        Seq::empty()
    } else {
        audit_rows(events.drop_last()) + audit_row(events.last())
    }
}

fn render_audit_rows(events: &Vec<ImpersonationEvent>) -> (r: Html)
    ensures
        r@ == audit_rows(events@),
{
    let mut out = Html::empty();
    assert(events@.take(0) =~= Seq::<ImpersonationEvent>::empty());
    for i in 0..events.len()
        invariant
            out@ == audit_rows(events@.take(i as int)),
    {
        assert(events@.take(i + 1).drop_last() =~= events@.take(i as int));
        out = out.html(render_audit_row(&events[i]));
    }
    assert(events@.take(events@.len() as int) =~= events@);
    out
}

/// The record of who acted as whom.
pub open spec fn audit_section(events: Seq<ImpersonationEvent>) -> Seq<char> {
    r#"<section class="card border border-base-300 bg-base-100 mt-2"><div class="card-body gap-2">"#@
        + r#"<h2 class="card-title text-base">Recent impersonation activity</h2>"#@
        + (if events.len() == 0 {
            r#"<p class="text-base-content/60 text-sm">No impersonations recorded yet.</p>"#@
        } else {
            r#"<div class="overflow-x-auto"><table class="table table-sm"><thead><tr><th>When</th><th>"#@
                + "Action</th><th>Admin</th><th>Target</th></tr></thead><tbody>"@
                + audit_rows(events)
                + "</tbody></table></div>"@
        })
        + "</div></section>"@
}

/// Renders the record of who acted as whom.
pub fn render_audit(events: &Vec<ImpersonationEvent>) -> (r: Html)
    ensures
        r@ == audit_section(events@),
{
    Html::new(r#"<section class="card border border-base-300 bg-base-100 mt-2"><div class="card-body gap-2">"#)
        .raw(r#"<h2 class="card-title text-base">Recent impersonation activity</h2>"#)
        .html(if events.len() == 0 {
            Html::new(r#"<p class="text-base-content/60 text-sm">No impersonations recorded yet.</p>"#)
        } else {
            Html::new(r#"<div class="overflow-x-auto"><table class="table table-sm"><thead><tr><th>When</th><th>"#)
                .raw("Action</th><th>Admin</th><th>Target</th></tr></thead><tbody>")
                .html(render_audit_rows(events))
                .raw("</tbody></table></div>")
        })
        .raw("</div></section>")
}

/// The page of users.
pub open spec fn users_page(
    ui: &Ui,
    rows: Seq<UserRow>,
    events: Seq<ImpersonationEvent>,
    allow: bool,
) -> Seq<char> {
    r#"<section class="max-w-5xl mx-auto p-4 sm:p-6 flex flex-col gap-4">"#@
        + r#"<header class="flex flex-col gap-1"><h1 class="text-2xl font-bold">Users</h1>"#@
        + (if allow {
            r#"<p class="text-base-content/70 text-sm">"#@
                + "Everyone who has signed in to this gateway, with their identity-provider groups and the"@
                + " gateway roles those map to. <strong>Impersonate</strong>"@
                + " starts a session that behaves exactly as that user — useful for reproducing what they see."@
                + " Every impersonation is logged below.</p>"@
        } else {
            r#"<p class="text-base-content/70 text-sm">"#@
                + "Everyone who has signed in to this gateway, with their identity-provider groups and the"@
                + " gateway roles those map to. Impersonation is <strong>disabled</strong>"@
                + " on this gateway (`allow_impersonation = false`).</p>"@
        })
        + r#"</header><div class="overflow-x-auto card border border-base-300 bg-base-100">"#@
        + r#"<table class="table table-sm"><thead><tr><th>User</th><th>OIDC groups</th><th>Gateway roles"#@
        + r#"</th><th>Joined</th><th class="text-right">Action</th></tr></thead><tbody>"#@
        + user_table(ui, rows, allow)
        + "</tbody></table></div>"@
        + audit_section(events)
        + "</section>"@
}

/// Renders the page of users.
pub fn render_body(
    ui: &Ui,
    rows: &Vec<UserRow>,
    events: &Vec<ImpersonationEvent>,
    allow: bool,
) -> (r: Html)
    ensures
        r@ == users_page(ui, rows@, events@, allow),
{
    Html::new(r#"<section class="max-w-5xl mx-auto p-4 sm:p-6 flex flex-col gap-4">"#)
        .raw(r#"<header class="flex flex-col gap-1"><h1 class="text-2xl font-bold">Users</h1>"#)
        .html(if allow {
            Html::new(r#"<p class="text-base-content/70 text-sm">"#)
                .raw("Everyone who has signed in to this gateway, with their identity-provider groups and the")
                .raw(" gateway roles those map to. <strong>Impersonate</strong>")
                .raw(" starts a session that behaves exactly as that user — useful for reproducing what they see.")
                .raw(" Every impersonation is logged below.</p>")
        } else {
            Html::new(r#"<p class="text-base-content/70 text-sm">"#)
                .raw("Everyone who has signed in to this gateway, with their identity-provider groups and the")
                .raw(" gateway roles those map to. Impersonation is <strong>disabled</strong>")
                .raw(" on this gateway (`allow_impersonation = false`).</p>")
        })
        .raw(r#"</header><div class="overflow-x-auto card border border-base-300 bg-base-100">"#)
        .raw(r#"<table class="table table-sm"><thead><tr><th>User</th><th>OIDC groups</th><th>Gateway roles"#)
        .raw(r#"</th><th>Joined</th><th class="text-right">Action</th></tr></thead><tbody>"#)
        .html(render_user_table(ui, rows, allow))
        .raw("</tbody></table></div>")
        .html(render_audit(events))
        .raw("</section>")
}

proof fn lemma_row_shows_the_user()
    ensures
        starts_as(
            r#"</div></td><td class="text-sm">"#@,
            "</div>"@,
        ),
        starts_as(
            r#""><button type="submit" class="btn btn-outline btn-sm">"#@,
            r#""><button type="submit""#@,
        ),
        ends_in(
            r#"</td><td class="text-right">"#@,
            r#"<td class="text-right">"#@,
        ),
{
    assert(starts_as(r#"</div></td><td class="text-sm">"#@, "</div>"@)) by {
        reveal(starts_as);
        reveal_strlit(r#"</div></td><td class="text-sm">"#);
        reveal_strlit("</div>");
        assert(r#"</div></td><td class="text-sm">"#@.take(6) =~= "</div>"@);
    }
    assert(starts_as(r#""><button type="submit" class="btn btn-outline btn-sm">"#@, r#""><button type="submit""#@)) by {
        reveal(starts_as);
        reveal_strlit(r#""><button type="submit" class="btn btn-outline btn-sm">"#);
        reveal_strlit(r#""><button type="submit""#);
        assert(r#""><button type="submit" class="btn btn-outline btn-sm">"#@.take(23) =~= r#""><button type="submit""#@);
    }
    assert(ends_in(r#"</td><td class="text-right">"#@, r#"<td class="text-right">"#@)) by {
        reveal(ends_in);
        reveal_strlit(r#"</td><td class="text-right">"#);
        reveal_strlit(r#"<td class="text-right">"#);
        assert(r#"</td><td class="text-right">"#@.skip(5) =~= r#"<td class="text-right">"#@);
    }
}

/// A row shows the user: address, name, number, roles and day of joining. An administrator
/// can act as any other user from it, where that is allowed.
pub proof fn row_shows_the_user(ui: &Ui, r: UserRow, allow: bool)
    ensures
        ({
            let page = user_row(ui, r, allow);
            &&& shows(page, r#"<tr><td><div class="font-medium">"#@ + escaped(r.email@) + "</div>"@)
            &&& r.name@.len() > 0 ==> shows(page, r#"<div class="text-xs text-base-content/60">"#@ + escaped(r.name@) + "</div>"@)
            &&& shows(page, r#"<div class="text-xs text-base-content/40 font-mono break-all">"#@ + escaped(r.id@) + r#"</div></td><td class="text-sm">"#@ + escaped(r.oidc_roles@) + r#"</td><td class="text-sm">"#@ + escaped(r.rbac_roles@) + r#"</td><td class="text-sm whitespace-nowrap">"#@ + escaped(r.created@) + r#"</td><td class="text-right">"#@)
            &&& r.is_self ==> shows(page, r#"<span class="badge badge-ghost">you</span>"#@)
            &&& !r.is_self && allow ==> shows(page, r#"<input type="hidden" name="user_id" value=""#@ + escaped(r.id@) + r#""><button type="submit""#@)
            &&& !r.is_self && !allow ==> shows(page, r#"<td class="text-right">"#@ + r#"<span class="text-base-content/40">—</span>"#@ + "</td></tr>"@)
        }),
{
    broadcast use group_shows;

    lemma_row_shows_the_user();
    reveal(user_row);
}

proof fn lemma_a_record_is_told()
    ensures
        starts_as(
            "</td></tr>"@,
            "</td>"@,
        ),
        starts_as(
            r#"</td><td><span class=""#@,
            "</td>"@,
        ),
        starts_as(
            r#"</td><td class="text-sm break-all">"#@,
            "</td>"@,
        ),
        ends_in(
            r#"<tr><td class="text-sm whitespace-nowrap">"#@,
            r#"">"#@,
        ),
        ends_in(
            r#"</td><td class="text-sm break-all">"#@,
            r#"">"#@,
        ),
        ends_in(
            r#"</span></td><td class="text-sm break-all">"#@,
            r#"">"#@,
        ),
{
    assert(starts_as("</td></tr>"@, "</td>"@)) by {
        reveal(starts_as);
        reveal_strlit("</td></tr>");
        reveal_strlit("</td>");
        assert("</td></tr>"@.take(5) =~= "</td>"@);
    }
    assert(starts_as(r#"</td><td><span class=""#@, "</td>"@)) by {
        reveal(starts_as);
        reveal_strlit(r#"</td><td><span class=""#);
        reveal_strlit("</td>");
        assert(r#"</td><td><span class=""#@.take(5) =~= "</td>"@);
    }
    assert(starts_as(r#"</td><td class="text-sm break-all">"#@, "</td>"@)) by {
        reveal(starts_as);
        reveal_strlit(r#"</td><td class="text-sm break-all">"#);
        reveal_strlit("</td>");
        assert(r#"</td><td class="text-sm break-all">"#@.take(5) =~= "</td>"@);
    }
    assert(ends_in(r#"<tr><td class="text-sm whitespace-nowrap">"#@, r#"">"#@)) by {
        reveal(ends_in);
        reveal_strlit(r#"<tr><td class="text-sm whitespace-nowrap">"#);
        reveal_strlit(r#"">"#);
        assert(r#"<tr><td class="text-sm whitespace-nowrap">"#@.skip(40) =~= r#"">"#@);
    }
    assert(ends_in(r#"</td><td class="text-sm break-all">"#@, r#"">"#@)) by {
        reveal(ends_in);
        reveal_strlit(r#"</td><td class="text-sm break-all">"#);
        reveal_strlit(r#"">"#);
        assert(r#"</td><td class="text-sm break-all">"#@.skip(33) =~= r#"">"#@);
    }
    assert(ends_in(r#"</span></td><td class="text-sm break-all">"#@, r#"">"#@)) by {
        reveal(ends_in);
        reveal_strlit(r#"</span></td><td class="text-sm break-all">"#);
        reveal_strlit(r#"">"#);
        assert(r#"</span></td><td class="text-sm break-all">"#@.skip(40) =~= r#"">"#@);
    }
}

/// A line of the record tells when who began or stopped to act as whom.
pub proof fn a_record_is_told(e: ImpersonationEvent)
    ensures
        ({
            let page = audit_row(e);
            &&& shows(page, r#"<tr><td class="text-sm whitespace-nowrap">"#@ + escaped(utc_text(e.created_at.at(), "%Y-%m-%d %H:%M"@)) + "</td>"@)
            &&& shows(page, r#"">"#@ + escaped(e.action@) + r#"</span></td><td class="text-sm break-all">"#@ + escaped(e.actor_email@) + r#"</td><td class="text-sm break-all">"#@ + escaped(e.target_email@) + "</td></tr>"@)
            &&& e.action@ == "start"@ ==> shows(page, r#"</td><td><span class=""#@ + "badge badge-warning"@ + r#"">"#@)
            &&& e.action@ != "start"@ ==> shows(page, r#"</td><td><span class=""#@ + "badge badge-ghost"@ + r#"">"#@)
        }),
{
    broadcast use group_shows;

    lemma_a_record_is_told();
    reveal(audit_row);
}

/// Every user has a row on the page, and every record a line.
pub proof fn every_user_and_record_is_listed(
    ui: &Ui,
    rows: Seq<UserRow>,
    events: Seq<ImpersonationEvent>,
    allow: bool,
    i: int,
)
    ensures
        0 <= i < rows.len() ==> shows(
            users_page(ui, rows, events, allow),
            user_row(ui, rows[i], allow),
        ),
        0 <= i < events.len() ==> shows(
            users_page(ui, rows, events, allow),
            audit_row(events[i]),
        ),
{
    broadcast use group_shows;

    if 0 <= i < rows.len() {
        lemma_user_is_listed(ui, rows, allow, i);
    }
    if 0 <= i < events.len() {
        lemma_record_is_listed(events, i);
    }
}

proof fn lemma_user_is_listed(ui: &Ui, rows: Seq<UserRow>, allow: bool, i: int)
    requires
        0 <= i < rows.len(),
    ensures
        shows(user_table(ui, rows, allow), user_row(ui, rows[i], allow)),
    decreases rows.len(),
{
    broadcast use group_shows;

    if i < rows.len() - 1 {
        lemma_user_is_listed(ui, rows.drop_last(), allow, i);
    }
}

proof fn lemma_record_is_listed(events: Seq<ImpersonationEvent>, i: int)
    requires
        0 <= i < events.len(),
    ensures
        shows(audit_rows(events), audit_row(events[i])),
    decreases events.len(),
{
    broadcast use group_shows;

    if i < events.len() - 1 {
        lemma_record_is_listed(events.drop_last(), i);
    }
}

/// There is a row for each user, in their order, that holds what is known of the user;
/// exactly the administrator's own row is marked as theirs.
pub proof fn rows_are_of_the_users(
    users: &Vec<User>,
    admin_id: &str,
    rows: Vec<UserRow>,
    i: int,
)
    requires
        call_ensures(user_rows, (users, admin_id), rows),
        0 <= i < users@.len(),
    ensures
        rows@.len() == users@.len(),
        rows@[i].id@ == users@[i].id@,
        rows@[i].email@ == users@[i].email@,
        users@[i].name matches Some(n) ==> rows@[i].name@ == n@,
        users@[i].name is None ==> rows@[i].name@.len() == 0,
        rows@[i].oidc_roles@ == (if users@[i].roles@.len() == 0 {
            "none"@
        } else {
            crate::text::joined(texts(users@[i].roles@), ", "@)
        }),
        rows@[i].rbac_roles@ == (if users@[i].role_ids@.len() == 0 {
            "none granted"@
        } else {
            crate::text::joined(texts(users@[i].role_ids@), ", "@)
        }),
        rows@[i].created@ == utc_text(users@[i].created_at.at(), "%Y-%m-%d"@),
        rows@[i].is_self <==> users@[i].id@ == admin_id@,
{
    assert(row_of(rows@[i], users@[i], admin_id@));
    assert(texts(users@[i].roles@).len() == users@[i].roles@.len());
    assert(texts(users@[i].role_ids@).len() == users@[i].role_ids@.len());
}

/// The course of acting as another user from its first step to its last: the user who
/// was asked for is looked up, a session is made as that user for this administrator,
/// both are recorded, and that session is handed out.
pub proof fn the_administrator_becomes_the_user(
    admin_id: Seq<char>,
    admin_email: Seq<char>,
    user_id: Seq<char>,
    email: Seq<char>,
    session_id: Seq<char>,
)
    requires
        user_id != admin_id,
    ensures
        ({
            let (form, read) = StartView::begun(true, false, admin_id, admin_email);
            let (target, find) = form.after(StartEventView::FormRead { user_id });
            let (session, make) = target.after(StartEventView::Found { id: user_id, email });
            let (record, write) = session.after(StartEventView::Made { session_id });
            let (over, enter) = record.after(StartEventView::Recorded);
            &&& read == StartActionView::ReadForm
            &&& find == (StartActionView::Find { user_id })
            &&& make == (StartActionView::Make { target_id: user_id, admin_id })
            &&& write == (StartActionView::Record {
                admin_id,
                admin_email,
                target_id: user_id,
                target_email: email,
            })
            &&& enter == (StartActionView::Enter { session_id })
            &&& over.step is Over
        }),
{
}

/// Whatever stops an administrator from acting as another user is told, and ends it.
pub proof fn a_refused_start_says_why(
    start: StartView,
    admin_id: Seq<char>,
    admin_email: Seq<char>,
    already: bool,
    words: Seq<char>,
)
    ensures
        StartView::begun(false, already, admin_id, admin_email).1 == (StartActionView::Forbid {
            reason: "Impersonation is disabled on this gateway."@,
        }),
        StartView::begun(true, true, admin_id, admin_email).1 == (StartActionView::Forbid {
            reason: "Already impersonating — return to your account before starting another."@,
        }),
        start.after(StartEventView::FormRead { user_id: start.admin_id }).1 == (
        StartActionView::Forbid { reason: "You can't impersonate yourself."@ }),
        start.after(StartEventView::Missing).1 == (StartActionView::Forbid {
            reason: "No such user."@,
        }),
        start.after(StartEventView::Unreadable { reason: words }).1 == (StartActionView::Forbid {
            reason: words,
        }),
        start.after(StartEventView::Malformed { error: words }).1 == (StartActionView::Forbid {
            reason: "malformed form: "@ + words,
        }),
        start.after(StartEventView::LookupFailed).1 == (StartActionView::Fail {
            reason: "could not look up user"@,
        }),
        start.after(StartEventView::MakingFailed).1 == (StartActionView::Fail {
            reason: "could not start impersonation"@,
        }),
        forall|e: StartEventView|
            #[trigger] start.after(e).1 is Forbid || start.after(e).1 is Fail ==> start.after(
                e,
            ).0.step is Over,
{
}

/// Whoever acts as another user gets back to their own account; whoever does not goes to
/// the first page.
pub proof fn a_stop_restores_the_administrator(
    impersonator: Option<String>,
    r: Stop,
    found: Option<String>,
    admin_id: &str,
    email: String,
)
    requires
        call_ensures(plan_stop, (impersonator,), r),
        call_ensures(actor_email, (found, admin_id), email),
    ensures
        impersonator is None ==> r is Home,
        impersonator matches Some(id) ==> r is Restore && r->admin_id@ == id@,
        found matches Some(e) ==> email@ == e@,
        found is None ==> email@ == admin_id@,
{
}

/// A session is handed out in a cookie that scripts cannot read and other sites do not
/// send, together with where to go.
pub proof fn a_session_comes_in_a_safe_cookie(
    name: &str,
    signed: &str,
    location: &str,
    r: Vec<Header>,
)
    requires
        call_ensures(redirect_with_session_cookie, (name, signed, location), r),
    ensures
        header_views(r@).len() == 2,
        header_views(r@)[0] == ("location"@, location@),
        header_views(r@)[1].0 == "set-cookie"@,
        (name@ + "="@ + signed@).is_prefix_of(header_views(r@)[1].1),
        shows(header_views(r@)[1].1, "; Path=/; HttpOnly; SameSite=Lax"@),
{
    broadcast use group_shows;

    assert((name@ + "="@ + signed@).is_prefix_of(
        name@ + "="@ + signed@ + "; Path=/; HttpOnly; SameSite=Lax"@,
    ));
}

/// Without records that is told; an account that cannot be restored is told as well.
pub proof fn an_empty_record_is_told(failed: String)
    requires
        call_ensures(restore_failed, (), failed),
    ensures
        shows(
            audit_section(Seq::empty()),
            r#"<p class="text-base-content/60 text-sm">No impersonations recorded yet.</p>"#@,
        ),
        failed@ == "could not restore your account"@,
{
    broadcast use group_shows;

}

} // verus!
