//! The page of access tokens.
use crate::html::{escaped, Html, Ui};
use crate::moment::{utc_text, Moment, FIRST_SECOND, LAST_SECOND};
use crate::scheduled::length_ok;
use crate::text::{byte_len, join, joined, same, texts, trim, trimmed, utf8_len};
use crate::updates::{
    only_toast, pair, patch, toast, views, FlashKind, StoreOutcome, Update, UpdateView,
};
use crate::markup::{ends_in, group_shows, shows, starts_as};
use vstd::prelude::*;

verus! {

/// The longest life of a token, in days.
pub const MAX_TTL_DAYS: i64 = 1825;

/// A token. Its value is not kept.
pub struct Token {
    pub id: String,
    pub name: String,
    pub created_at: Moment,
    pub last_used_at: Option<Moment>,
    pub expires_at: Moment,
    pub revoked_at: Option<Moment>,
}

// ---------------------------------------------------------------------------
// Creating

/// A token to create.
pub struct TokenPlan {
    pub name: String,
    /// How long it lives, in hours.
    pub hours: i64,
}

/// How many days a token lives: as asked for or as configured, at least one and
/// at most five years.
pub open spec fn lifetime_days(asked: Option<i64>, configured: i64) -> int {
    let days = match asked {
        Some(d) => d,
        None => configured,
    };
    if days < 1 {
        1
    } else if days > MAX_TTL_DAYS {
        MAX_TTL_DAYS as int
    } else {
        days as int
    }
}

/// Checks the form for a new token.
pub fn plan_token(name: &str, ttl_days: Option<i64>, configured: i64) -> (r: Result<TokenPlan, String>)
    ensures
        r is Ok <==> length_ok(trimmed(name@), 128),
        match r {
            Ok(p) => p.name@ == trimmed(name@) && p.hours == 24 * lifetime_days(
                ttl_days,
                configured,
            ),
            Err(e) => e@ == "Token name must be 1..=128 characters."@,
        },
{
    let name = trim(name);
    if name.as_str().is_empty() || byte_len(&name) > 128 {
        return Err("Token name must be 1..=128 characters.".to_owned());
    }
    let asked: i64 = match ttl_days {
        Some(d) => d,
        None => configured,
    };
    let days: i64 = if asked < 1 {
        1
    } else if asked > MAX_TTL_DAYS {
        MAX_TTL_DAYS
    } else {
        asked
    };
    Ok(TokenPlan { name, hours: 24 * days })
}

/// When a token that is made now expires; absent when no instant is that late.
pub fn expiry(plan: &TokenPlan, now: &Moment) -> (r: Option<Moment>)
    ensures
        r is Some <==> FIRST_SECOND <= now.at() + plan.hours * 3600 <= LAST_SECOND,
        r matches Some(m) ==> m.at() == now.at() + plan.hours * 3600,
{
    let at: i64 = now.second();
    match plan.hours.checked_mul(3600) {
        Some(seconds) => match at.checked_add(seconds) {
            Some(second) => Moment::new(second),
            None => None,
        },
        None => None,
    }
}

/// A token lives at least a day and at most five years, whatever is asked for
/// and configured.
pub proof fn lifetime_is_bounded(asked: Option<i64>, configured: i64)
    ensures
        1 <= lifetime_days(asked, configured) <= 1825,
{
}

// ---------------------------------------------------------------------------
// The account

/// A list in words, or what is said when it is empty.
pub open spec fn joined_or(items: Seq<Seq<char>>, empty: Seq<char>) -> Seq<char> {
    if items.len() == 0 {
        empty
    } else {
        joined(items, ", "@)
    }
}

/// Puts a list into words.
pub fn join_or(items: &Vec<String>, empty: &str) -> (r: String)
    ensures
        r@ == joined_or(texts(items@), empty@),
{
    assert(texts(items@).len() == items@.len());
    if items.len() == 0 {
        empty.to_owned()
    } else {
        join(items, ", ")
    }
}

/// Who is signed in.
pub struct AccountSummary {
    pub email: String,
    pub user_id: String,
    pub oidc_roles: String,
    pub rbac_roles: String,
}

impl AccountSummary {
    /// Sums up who is signed in: the roles of the identity provider and those of
    /// the gateway.
    pub fn new(
        email: &str,
        user_id: &str,
        roles: &Vec<String>,
        role_ids: &Vec<String>,
    ) -> (r: AccountSummary)
        ensures
            r.email@ == email@,
            r.user_id@ == user_id@,
            r.oidc_roles@ == joined_or(texts(roles@), "none"@),
            r.rbac_roles@ == joined_or(texts(role_ids@), "none granted"@),
    {
        AccountSummary {
            email: email.to_owned(),
            user_id: user_id.to_owned(),
            oidc_roles: join_or(roles, "none"),
            rbac_roles: join_or(role_ids, "none granted"),
        }
    }
}

/// Who is signed in.
pub open spec fn account_section(account: AccountSummary) -> Seq<char> {
    r#"<section class="card border border-base-300 mt-6"><div class="card-body">"#@
        + r#"<h2 class="card-title text-base">Account</h2><p class="text-base-content/60 text-sm">"#@
        + "Signed in as "@
        + escaped(account.email@)
        + r#"</p><dl class="grid grid-cols-[8rem_minmax(0,1fr)] gap-y-2 gap-x-4 text-sm mt-2">"#@
        + r#"<dt class="text-base-content/60">User ID</dt>"#@
        + r#"<dd class="font-mono text-xs break-all min-w-0">"#@
        + escaped(account.user_id@)
        + r#"</dd><dt class="text-base-content/60">OIDC roles</dt><dd class="min-w-0 break-words">"#@
        + escaped(account.oidc_roles@)
        + r#"</dd><dt class="text-base-content/60">RBAC role IDs</dt><dd class="min-w-0 break-words">"#@
        + escaped(account.rbac_roles@)
        + "</dd></dl></div></section>"@
}

/// Renders who is signed in.
pub fn render_account_section(account: &AccountSummary) -> (r: Html)
    ensures
        r@ == account_section(*account),
{
    Html::new(r#"<section class="card border border-base-300 mt-6"><div class="card-body">"#)
        .raw(r#"<h2 class="card-title text-base">Account</h2><p class="text-base-content/60 text-sm">"#)
        .raw("Signed in as ")
        .text(&account.email)
        .raw(r#"</p><dl class="grid grid-cols-[8rem_minmax(0,1fr)] gap-y-2 gap-x-4 text-sm mt-2">"#)
        .raw(r#"<dt class="text-base-content/60">User ID</dt>"#)
        .raw(r#"<dd class="font-mono text-xs break-all min-w-0">"#)
        .text(&account.user_id)
        .raw(r#"</dd><dt class="text-base-content/60">OIDC roles</dt><dd class="min-w-0 break-words">"#)
        .text(&account.oidc_roles)
        .raw(r#"</dd><dt class="text-base-content/60">RBAC role IDs</dt><dd class="min-w-0 break-words">"#)
        .text(&account.rbac_roles)
        .raw("</dd></dl></div></section>")
}

// ---------------------------------------------------------------------------
// Rows

/// The name of a token's row.
pub open spec fn row_name(id: Seq<char>) -> Seq<char> {
    "token-row-"@ + id
}

/// An action on a token.
pub open spec fn token_action(id: Seq<char>, what: Seq<char>) -> Seq<char> {
    "/tokens/"@ + id + what
}

/// The script that posts a form.
pub open spec fn post_directive(action: Seq<char>) -> Seq<char> {
    "@post('"@ + action + "', {contentType: 'form'})"@
}

/// When a token was made and used, and when it ends.
pub open spec fn token_meta(t: Token) -> Seq<char> {
    "created "@ + utc_text(t.created_at.at(), "%Y-%m-%d"@) + " · last used "@ + (
    match t.last_used_at {
        Some(m) => utc_text(m.at(), "%Y-%m-%d"@),
        None => "never"@,
    }) + " · expires "@ + utc_text(t.expires_at.at(), "%Y-%m-%d"@)
}

/// A token as a row shows it.
pub struct TokenRowData {
    pub id: String,
    pub name: String,
    pub meta: String,
    pub revoked: bool,
    pub revoke_action: String,
    pub delete_action: String,
}

/// Whether a row shows a token.
pub open spec fn row_of(r: TokenRowData, t: Token) -> bool {
    &&& r.id@ == t.id@
    &&& r.name@ == t.name@
    &&& r.meta@ == token_meta(t)
    &&& r.revoked == t.revoked_at is Some
    &&& r.revoke_action@ == token_action(t.id@, "/revoke"@)
    &&& r.delete_action@ == token_action(t.id@, "/delete"@)
}

impl TokenRowData {
    /// Makes the row of a token.
    pub fn from_token(t: &Token) -> (r: TokenRowData)
        ensures
            row_of(r, *t),
    {
        let mut meta = "created ".to_owned();
        meta.append(&t.created_at.date());
        meta.append(" · last used ");
        match &t.last_used_at {
            Some(m) => {
                meta.append(&m.date());
            },
            None => {
                meta.append("never");
            },
        }
        meta.append(" · expires ");
        meta.append(&t.expires_at.date());
        let mut revoke_action = "/tokens/".to_owned();
        revoke_action.append(&t.id);
        revoke_action.append("/revoke");
        let mut delete_action = "/tokens/".to_owned();
        delete_action.append(&t.id);
        delete_action.append("/delete");
        TokenRowData {
            id: t.id.clone(),
            name: t.name.clone(),
            meta,
            revoked: t.revoked_at.is_some(),
            revoke_action,
            delete_action,
        }
    }

    /// The name of the row.
    pub fn dom_id(&self) -> (r: String)
        ensures
            r@ == row_name(self.id@),
    {
        let mut out = "token-row-".to_owned();
        out.append(&self.id);
        out
    }

    /// The script that revokes the token.
    pub fn revoke_directive(&self) -> (r: String)
        ensures
            r@ == post_directive(self.revoke_action@),
    {
        post(&self.revoke_action)
    }

    /// The script that deletes the token.
    pub fn delete_directive(&self) -> (r: String)
        ensures
            r@ == post_directive(self.delete_action@),
    {
        post(&self.delete_action)
    }
}

fn post(action: &str) -> (r: String)
    ensures
        r@ == post_directive(action@),
{
    let mut out = "@post('".to_owned();
    out.append(action);
    out.append("', {contentType: 'form'})");
    out
}

/// The row of a token: one that is active can be revoked, one that was revoked
/// can be removed.
#[verifier::opaque]
pub open spec fn token_row(t: Token) -> Seq<char> {
    r#"<li id=""#@
        + escaped(row_name(t.id@))
        + r#"" class="flex items-center gap-4 py-3"><div class="flex-1 min-w-0">"#@
        + r#"<div class="text-sm font-medium text-base-content">"#@
        + escaped(t.name@)
        + r#"</div><div class="text-xs text-base-content/60">"#@
        + escaped(token_meta(t))
        + "</div></div>"@
        + (if t.revoked_at is Some {
            r#"<span class="badge badge-error">revoked</span><form action=""#@
                + escaped(token_action(t.id@, "/delete"@))
                + r#"" method="post" class="m-0" data-on:submit__prevent=""#@
                + escaped(post_directive(token_action(t.id@, "/delete"@)))
                + r#""><button type="submit" class="btn btn-outline btn-sm">Remove</button></form>"#@
        } else {
            r#"<span class="badge badge-secondary">active</span><form action=""#@
                + escaped(token_action(t.id@, "/revoke"@))
                + r#"" method="post" class="m-0" data-on:submit__prevent=""#@
                + escaped(post_directive(token_action(t.id@, "/revoke"@)))
                + r#""><button type="submit" class="btn btn-error btn-sm">Revoke</button></form>"#@
        })
        + "</li>"@
}

/// Renders the row of a token.
pub fn render_token_row(t: &Token) -> (h: Html)
    ensures
        h@ == token_row(*t),
{
    proof {
        reveal(token_row);
    }
    let r = TokenRowData::from_token(t);
    Html::new(r#"<li id=""#)
        .text(&r.dom_id())
        .raw(r#"" class="flex items-center gap-4 py-3"><div class="flex-1 min-w-0">"#)
        .raw(r#"<div class="text-sm font-medium text-base-content">"#)
        .text(&r.name)
        .raw(r#"</div><div class="text-xs text-base-content/60">"#)
        .text(&r.meta)
        .raw("</div></div>")
        .html(if r.revoked {
            Html::new(r#"<span class="badge badge-error">revoked</span><form action=""#)
                .text(&r.delete_action)
                .raw(r#"" method="post" class="m-0" data-on:submit__prevent=""#)
                .text(&r.delete_directive())
                .raw(r#""><button type="submit" class="btn btn-outline btn-sm">Remove</button></form>"#)
        } else {
            Html::new(r#"<span class="badge badge-secondary">active</span><form action=""#)
                .text(&r.revoke_action)
                .raw(r#"" method="post" class="m-0" data-on:submit__prevent=""#)
                .text(&r.revoke_directive())
                .raw(r#""><button type="submit" class="btn btn-error btn-sm">Revoke</button></form>"#)
        })
        .raw("</li>")
}

/// The rows of tokens.
pub open spec fn token_rows(list: Seq<Token>) -> Seq<char>
    decreases list.len(),
{
    if list.len() == 0 {
        Seq::empty()
    } else {
        token_rows(list.drop_last()) + token_row(list.last())
    }
}

fn render_token_rows(list: &Vec<Token>) -> (r: Html)
    ensures
        r@ == token_rows(list@),
{
    let mut out = Html::empty();
    assert(list@.take(0) =~= Seq::<Token>::empty());
    for i in 0..list.len()
        invariant
            out@ == token_rows(list@.take(i as int)),
    {
        assert(list@.take(i + 1).drop_last() =~= list@.take(i as int));
        out = out.html(render_token_row(&list[i]));
    }
    assert(list@.take(list@.len() as int) =~= list@);
    out
}

// ---------------------------------------------------------------------------
// The page

/// A token that was just made, with its value.
pub struct MintedBanner {
    pub name: String,
    pub plaintext: String,
}

/// The value of a new token, shown once.
pub open spec fn minted_banner(ui: &Ui, banner: MintedBanner) -> Seq<char> {
    r#"<div id="token-minted-banner" class="card mb-6"><div class="card-body">"#@
        + r#"<div class="flex items-center gap-2"><span class="text-success">"#@
        + ui.icon_markup("check"@, 18)
        + r#"</span><h2 class="card-title text-base m-0">Token created</h2></div>"#@
        + r#"<p class="text-sm text-base-content/70 mt-1 mb-3">"#@
        + r#"Copy the value now — you won&#39;t be able to see it again.</p><div class="relative">"#@
        + r#"<pre id="minted-token-value" class="bg-base-100 border border-base-300 text-base-content"#@
        + " rounded-md p-3 pr-12 m-0 font-mono text-xs select-all break-all whitespace-pre-wrap w-full"@
        + r#" min-w-0">"#@
        + escaped(banner.plaintext@)
        + "</pre>"@
        + r##"<button type="button" data-copy-target="#minted-token-value""##@
        + r#" data-on:click="window.uiCopy(el)" aria-label="Copy token" title="Copy token" class="btn"#@
        + r#" btn-ghost btn-sm btn-square absolute top-1.5 right-1.5">"#@
        + ui.icon_markup("copy"@, 16)
        + r#"</button></div><p class="text-xs text-base-content/60 mt-3 mb-0">Name: "#@
        + escaped(banner.name@)
        + "</p></div></div>"@
}

/// Renders the value of a new token.
pub fn render_minted_banner(ui: &Ui, banner: &MintedBanner) -> (r: Html)
    ensures
        r@ == minted_banner(ui, *banner),
{
    Html::new(r#"<div id="token-minted-banner" class="card mb-6"><div class="card-body">"#)
        .raw(r#"<div class="flex items-center gap-2"><span class="text-success">"#)
        .icon(ui, "check", 18)
        .raw(r#"</span><h2 class="card-title text-base m-0">Token created</h2></div>"#)
        .raw(r#"<p class="text-sm text-base-content/70 mt-1 mb-3">"#)
        .raw(r#"Copy the value now — you won&#39;t be able to see it again.</p><div class="relative">"#)
        .raw(r#"<pre id="minted-token-value" class="bg-base-100 border border-base-300 text-base-content"#)
        .raw(" rounded-md p-3 pr-12 m-0 font-mono text-xs select-all break-all whitespace-pre-wrap w-full")
        .raw(r#" min-w-0">"#)
        .text(&banner.plaintext)
        .raw("</pre>")
        .raw(r##"<button type="button" data-copy-target="#minted-token-value""##)
        .raw(r#" data-on:click="window.uiCopy(el)" aria-label="Copy token" title="Copy token" class="btn"#)
        .raw(r#" btn-ghost btn-sm btn-square absolute top-1.5 right-1.5">"#)
        .icon(ui, "copy", 16)
        .raw(r#"</button></div><p class="text-xs text-base-content/60 mt-3 mb-0">Name: "#)
        .text(&banner.name)
        .raw("</p></div></div>")
}

/// The place of the value of a new token.
pub open spec fn banner_placeholder() -> Seq<char> {
    r#"<div id="token-minted-banner"></div>"#@
}

/// Renders the place of the value of a new token.
pub fn empty_banner_placeholder() -> (r: Html)
    ensures
        r@ == banner_placeholder(),
{
    Html::new(r#"<div id="token-minted-banner"></div>"#)
}

/// The page of tokens.
pub open spec fn tokens_page(
    ui: &Ui,
    list: Seq<Token>,
    minted: Option<&MintedBanner>,
    account: AccountSummary,
) -> Seq<char> {
    let banner = match minted {
        Some(b) => minted_banner(ui, *b),
        None => banner_placeholder(),
    };
    r#"<div class="max-w-5xl mx-auto w-full px-4 sm:px-6 pt-14 sm:pt-6 pb-6">"#@
        + r#"<h1 class="text-2xl font-bold mb-2">API tokens</h1>"#@
        + r#"<p class="text-base-content/60 text-sm mb-6">"#@
        + "Bearer tokens for the OpenAI-compatible API. The plaintext is shown only at creation time —"@
        + " store it somewhere safe.</p>"@
        + banner
        + r#"<form id="token-create-form" action="/tokens" method="post" class="card border"#@
        + r#" border-base-300 mb-6" data-on:submit__prevent="@post(&#39;/tokens&#39;, {contentType:"#@
        + r#" &#39;form&#39;})"><div class="card-body"><h2 class="card-title">Create token</h2>"#@
        + r#"<p class="text-base-content/70">Mint a new bearer token for the OpenAI-compatible API.</p>"#@
        + r#"<label class="form-control w-full"><div class="label"><span class="label-text">Name</span>"#@
        + "</div>"@
        + r#"<input id="name" name="name" type="text" required="required" placeholder="e.g. laptop,"#@
        + r#" ci-runner" class="input input-bordered w-full"></label><label class="form-control w-32">"#@
        + r#"<div class="label"><span class="label-text">TTL (days)</span></div>"#@
        + r#"<input id="ttl_days" name="ttl_days" type="number" min="1" max="1825" value="90""#@
        + r#" class="input input-bordered w-full"></label><div class="card-actions justify-end mt-2">"#@
        + r#"<button type="submit" class="btn btn-primary">Create token</button></div></div></form>"#@
        + r#"<section class="card border border-base-300"><div class="card-body"><h2 class="card-title">"#@
        + "Your tokens</h2>"@
        + r#"<ul id="token-list" class="token-list flex flex-col divide-y divide-base-300">"#@
        + token_rows(list)
        + r#"</ul><p class="token-list-empty text-base-content/60 text-sm">"#@
        + "No tokens yet. Create one above.</p></div></section>"@
        + account_section(account)
        + "</div>"@
}

/// Renders the page of tokens.
pub fn render_tokens_body(
    ui: &Ui,
    list: &Vec<Token>,
    minted: Option<&MintedBanner>,
    account: &AccountSummary,
) -> (r: Html)
    ensures
        r@ == tokens_page(ui, list@, minted, *account),
{
    let banner = match minted {
        Some(b) => render_minted_banner(ui, b),
        None => empty_banner_placeholder(),
    };
    Html::new(r#"<div class="max-w-5xl mx-auto w-full px-4 sm:px-6 pt-14 sm:pt-6 pb-6">"#)
        .raw(r#"<h1 class="text-2xl font-bold mb-2">API tokens</h1>"#)
        .raw(r#"<p class="text-base-content/60 text-sm mb-6">"#)
        .raw("Bearer tokens for the OpenAI-compatible API. The plaintext is shown only at creation time —")
        .raw(" store it somewhere safe.</p>")
        .html(banner)
        .raw(r#"<form id="token-create-form" action="/tokens" method="post" class="card border"#)
        .raw(r#" border-base-300 mb-6" data-on:submit__prevent="@post(&#39;/tokens&#39;, {contentType:"#)
        .raw(r#" &#39;form&#39;})"><div class="card-body"><h2 class="card-title">Create token</h2>"#)
        .raw(r#"<p class="text-base-content/70">Mint a new bearer token for the OpenAI-compatible API.</p>"#)
        .raw(r#"<label class="form-control w-full"><div class="label"><span class="label-text">Name</span>"#)
        .raw("</div>")
        .raw(r#"<input id="name" name="name" type="text" required="required" placeholder="e.g. laptop,"#)
        .raw(r#" ci-runner" class="input input-bordered w-full"></label><label class="form-control w-32">"#)
        .raw(r#"<div class="label"><span class="label-text">TTL (days)</span></div>"#)
        .raw(r#"<input id="ttl_days" name="ttl_days" type="number" min="1" max="1825" value="90""#)
        .raw(r#" class="input input-bordered w-full"></label><div class="card-actions justify-end mt-2">"#)
        .raw(r#"<button type="submit" class="btn btn-primary">Create token</button></div></div></form>"#)
        .raw(r#"<section class="card border border-base-300"><div class="card-body"><h2 class="card-title">"#)
        .raw("Your tokens</h2>")
        .raw(r#"<ul id="token-list" class="token-list flex flex-col divide-y divide-base-300">"#)
        .html(render_token_rows(list))
        .raw(r#"</ul><p class="token-list-empty text-base-content/60 text-sm">"#)
        .raw("No tokens yet. Create one above.</p></div></section>")
        .html(render_account_section(account))
        .raw("</div>")
}

// ---------------------------------------------------------------------------
// Answers

/// What the page is told when a new token could not be stored.
pub fn not_stored() -> (r: Vec<Update>)
    ensures
        views(r@) == seq![toast(FlashKind::Error, "Storing token failed."@)],
{
    only_toast(FlashKind::Error, "Storing token failed.")
}

/// What the page is told once a token was created.
pub fn created(ui: &Ui, token: &Token, plaintext: String) -> (r: Vec<Update>)
    ensures
        views(r@) == seq![
            patch("#token-list"@, "append"@, token_row(*token)),
            patch(
                "#token-minted-banner"@,
                "outer"@,
                minted_banner(ui, MintedBanner { name: token.name, plaintext }),
            ),
            UpdateView::Script { code: "document.getElementById('token-create-form').reset()"@ },
            toast(FlashKind::Success, "Token created."@),
        ],
{
    let row = render_token_row(token);
    let banner = MintedBanner { name: token.name.clone(), plaintext };
    let shown = render_minted_banner(ui, &banner);
    let mut out: Vec<Update> = Vec::new();
    out.push(Update::patch("#token-list", "append", &row.text));
    out.push(Update::patch("#token-minted-banner", "outer", &shown.text));
    out.push(Update::script("document.getElementById('token-create-form').reset()"));
    out.push(Update::toast(FlashKind::Success, "Token created."));
    assert(views(out@) =~= seq![
        patch("#token-list"@, "append"@, token_row(*token)),
        patch("#token-minted-banner"@, "outer"@, minted_banner(ui, banner)),
        UpdateView::Script { code: "document.getElementById('token-create-form').reset()"@ },
        toast(FlashKind::Success, "Token created."@),
    ]);
    out
}

/// Position of the first token with that number; the number of tokens when there
/// is none.
pub open spec fn position(list: Seq<Token>, id: Seq<char>) -> int
    decreases list.len(),
{
    if list.len() == 0 || list[0].id@ == id {
        0
    } else {
        1 + position(list.drop_first(), id)
    }
}

fn find_token<'a>(list: &'a Vec<Token>, id: &str) -> (r: Option<&'a Token>)
    ensures
        match r {
            Some(t) => position(list@, id@) < list@.len() && *t == list@[position(list@, id@)],
            None => position(list@, id@) >= list@.len(),
        },
{
    assert(list@.skip(0) =~= list@);
    for i in 0..list.len()
        invariant
            position(list@, id@) == i + position(list@.skip(i as int), id@),
    {
        assert(list@.skip(i as int).drop_first() =~= list@.skip(i + 1));
        if same(&list[i].id, id) {
            return Some(&list[i]);
        }
    }
    None
}

/// What the page is told after a revocation: the row as it is now stored.
pub fn revoked(outcome: StoreOutcome, list: &Vec<Token>, token_id: &str) -> (r: Vec<Update>)
    ensures
        views(r@) == (match outcome {
            StoreOutcome::Done => {
                let i = position(list@, token_id@);
                if i < list@.len() {
                    seq![
                        patch("#"@ + row_name(token_id@), "outer"@, token_row(list@[i])),
                        toast(FlashKind::Success, "Token revoked."@),
                    ]
                } else {
                    seq![toast(FlashKind::Error, "Revoked token not found."@)]
                }
            },
            StoreOutcome::NotDone => seq![
                toast(FlashKind::Info, "Token was already revoked."@),
            ],
            StoreOutcome::Failed => seq![toast(FlashKind::Error, "Revoke failed."@)],
        }),
{
    match outcome {
        StoreOutcome::Done => match find_token(list, token_id) {
            Some(t) => {
                let row = render_token_row(t);
                pair(
                    Update::patch(&row_selector(token_id), "outer", &row.text),
                    Update::toast(FlashKind::Success, "Token revoked."),
                )
            },
            None => only_toast(FlashKind::Error, "Revoked token not found."),
        },
        StoreOutcome::NotDone => only_toast(FlashKind::Info, "Token was already revoked."),
        StoreOutcome::Failed => only_toast(FlashKind::Error, "Revoke failed."),
    }
}

fn row_selector(token_id: &str) -> (r: String)
    ensures
        r@ == "#"@ + row_name(token_id@),
{
    let mut name = "token-row-".to_owned();
    name.append(token_id);
    let mut out = "#".to_owned();
    out.append(&name);
    out
}

/// What the page is told after a removal. An active token has to be revoked
/// first.
pub fn deleted(outcome: StoreOutcome, token_id: &str) -> (r: Vec<Update>)
    ensures
        views(r@) == (match outcome {
            StoreOutcome::Done => seq![
                patch("#"@ + row_name(token_id@), "remove"@, ""@),
                toast(FlashKind::Success, "Token removed."@),
            ],
            StoreOutcome::NotDone => seq![
                toast(FlashKind::Info, "Token is still active — revoke it first."@),
            ],
            StoreOutcome::Failed => seq![toast(FlashKind::Error, "Remove failed."@)],
        }),
{
    match outcome {
        StoreOutcome::Done => pair(
            Update::patch(&row_selector(token_id), "remove", ""),
            Update::toast(FlashKind::Success, "Token removed."),
        ),
        StoreOutcome::NotDone => only_toast(
            FlashKind::Info,
            "Token is still active — revoke it first.",
        ),
        StoreOutcome::Failed => only_toast(FlashKind::Error, "Remove failed."),
    }
}

proof fn lemma_row_shows_the_token()
    ensures
        starts_as(
            r#"" class="flex items-center gap-4 py-3"><div class="flex-1 min-w-0">"#@,
            r#"" class="#@,
        ),
        starts_as(
            r#"</div><div class="text-xs text-base-content/60">"#@,
            "</div>"@,
        ),
        starts_as(
            "</div></div>"@,
            "</div>"@,
        ),
        ends_in(
            r#"</div><div class="text-xs text-base-content/60">"#@,
            r#"<div class="text-xs text-base-content/60">"#@,
        ),
{
    assert(starts_as(r#"" class="flex items-center gap-4 py-3"><div class="flex-1 min-w-0">"#@, r#"" class="#@)) by {
        reveal(starts_as);
        reveal_strlit(r#"" class="flex items-center gap-4 py-3"><div class="flex-1 min-w-0">"#);
        reveal_strlit(r#"" class="#);
        assert(r#"" class="flex items-center gap-4 py-3"><div class="flex-1 min-w-0">"#@.take(8) =~= r#"" class="#@);
    }
    assert(starts_as(r#"</div><div class="text-xs text-base-content/60">"#@, "</div>"@)) by {
        reveal(starts_as);
        reveal_strlit(r#"</div><div class="text-xs text-base-content/60">"#);
        reveal_strlit("</div>");
        assert(r#"</div><div class="text-xs text-base-content/60">"#@.take(6) =~= "</div>"@);
    }
    assert(starts_as("</div></div>"@, "</div>"@)) by {
        reveal(starts_as);
        reveal_strlit("</div></div>");
        reveal_strlit("</div>");
        assert("</div></div>"@.take(6) =~= "</div>"@);
    }
    assert(ends_in(r#"</div><div class="text-xs text-base-content/60">"#@, r#"<div class="text-xs text-base-content/60">"#@)) by {
        reveal(ends_in);
        reveal_strlit(r#"</div><div class="text-xs text-base-content/60">"#);
        reveal_strlit(r#"<div class="text-xs text-base-content/60">"#);
        assert(r#"</div><div class="text-xs text-base-content/60">"#@.skip(6) =~= r#"<div class="text-xs text-base-content/60">"#@);
    }
}

/// A row shows the token: its name, when it was made, used and when it expires, and
/// whether it is active or revoked. An active one can be revoked, a revoked one removed,
/// and not the other way round.
pub proof fn row_shows_the_token(t: Token)
    ensures
        ({
            let page = token_row(t);
            &&& shows(page, r#"<li id=""#@ + escaped("token-row-"@ + t.id@) + r#"" class="#@)
            &&& shows(page, r#"<div class="text-sm font-medium text-base-content">"#@ + escaped(t.name@) + "</div>"@)
            &&& shows(page, r#"<div class="text-xs text-base-content/60">"#@ + escaped("created "@ + utc_text(t.created_at.at(), "%Y-%m-%d"@) + " · last used "@ + (match t.last_used_at { Some(m) => utc_text(m.at(), "%Y-%m-%d"@), None => "never"@ }) + " · expires "@ + utc_text(t.expires_at.at(), "%Y-%m-%d"@)) + "</div></div>"@)
            &&& t.revoked_at is None ==> shows(page, r#"<span class="badge badge-secondary">active</span><form action=""#@ + escaped("/tokens/"@ + t.id@ + "/revoke"@) + r#"" method="post" class="m-0" data-on:submit__prevent=""#@ + escaped("@post('"@ + ("/tokens/"@ + t.id@ + "/revoke"@) + "', {contentType: 'form'})"@) + r#""><button type="submit" class="btn btn-error btn-sm">Revoke</button></form>"#@)
            &&& t.revoked_at is Some ==> shows(page, r#"<span class="badge badge-error">revoked</span><form action=""#@ + escaped("/tokens/"@ + t.id@ + "/delete"@) + r#"" method="post" class="m-0" data-on:submit__prevent=""#@ + escaped("@post('"@ + ("/tokens/"@ + t.id@ + "/delete"@) + "', {contentType: 'form'})"@) + r#""><button type="submit" class="btn btn-outline btn-sm">Remove</button></form>"#@)
        }),
{
    broadcast use group_shows;

    lemma_row_shows_the_token();
    reveal(token_row);
}

proof fn lemma_account_is_shown()
    ensures
        starts_as(
            r#"</p><dl class="grid grid-cols-[8rem_minmax(0,1fr)] gap-y-2 gap-x-4 text-sm mt-2">"#@,
            "</p>"@,
        ),
        starts_as(
            r#"</dd><dt class="text-base-content/60">RBAC role IDs</dt><dd class="min-w-0 break-words">"#@,
            "</dd>"@,
        ),
        starts_as(
            r#"</dd><dt class="text-base-content/60">OIDC roles</dt><dd class="min-w-0 break-words">"#@,
            "</dd>"@,
        ),
        starts_as(
            "</dd></dl></div></section>"@,
            "</dd>"@,
        ),
        ends_in(
            r#"</dd><dt class="text-base-content/60">OIDC roles</dt><dd class="min-w-0 break-words">"#@,
            r#"<dt class="text-base-content/60">OIDC roles</dt><dd class="min-w-0 break-words">"#@,
        ),
        ends_in(
            r#"</dd><dt class="text-base-content/60">RBAC role IDs</dt><dd class="min-w-0 break-words">"#@,
            r#"<dt class="text-base-content/60">RBAC role IDs</dt><dd class="min-w-0 break-words">"#@,
        ),
{
    assert(starts_as(r#"</p><dl class="grid grid-cols-[8rem_minmax(0,1fr)] gap-y-2 gap-x-4 text-sm mt-2">"#@, "</p>"@)) by {
        reveal(starts_as);
        reveal_strlit(r#"</p><dl class="grid grid-cols-[8rem_minmax(0,1fr)] gap-y-2 gap-x-4 text-sm mt-2">"#);
        reveal_strlit("</p>");
        assert(r#"</p><dl class="grid grid-cols-[8rem_minmax(0,1fr)] gap-y-2 gap-x-4 text-sm mt-2">"#@.take(4) =~= "</p>"@);
    }
    assert(starts_as(r#"</dd><dt class="text-base-content/60">RBAC role IDs</dt><dd class="min-w-0 break-words">"#@, "</dd>"@)) by {
        reveal(starts_as);
        reveal_strlit(r#"</dd><dt class="text-base-content/60">RBAC role IDs</dt><dd class="min-w-0 break-words">"#);
        reveal_strlit("</dd>");
        assert(r#"</dd><dt class="text-base-content/60">RBAC role IDs</dt><dd class="min-w-0 break-words">"#@.take(5) =~= "</dd>"@);
    }
    assert(starts_as(r#"</dd><dt class="text-base-content/60">OIDC roles</dt><dd class="min-w-0 break-words">"#@, "</dd>"@)) by {
        reveal(starts_as);
        reveal_strlit(r#"</dd><dt class="text-base-content/60">OIDC roles</dt><dd class="min-w-0 break-words">"#);
        reveal_strlit("</dd>");
        assert(r#"</dd><dt class="text-base-content/60">OIDC roles</dt><dd class="min-w-0 break-words">"#@.take(5) =~= "</dd>"@);
    }
    assert(starts_as("</dd></dl></div></section>"@, "</dd>"@)) by {
        reveal(starts_as);
        reveal_strlit("</dd></dl></div></section>");
        reveal_strlit("</dd>");
        assert("</dd></dl></div></section>"@.take(5) =~= "</dd>"@);
    }
    assert(ends_in(r#"</dd><dt class="text-base-content/60">OIDC roles</dt><dd class="min-w-0 break-words">"#@, r#"<dt class="text-base-content/60">OIDC roles</dt><dd class="min-w-0 break-words">"#@)) by {
        reveal(ends_in);
        reveal_strlit(r#"</dd><dt class="text-base-content/60">OIDC roles</dt><dd class="min-w-0 break-words">"#);
        reveal_strlit(r#"<dt class="text-base-content/60">OIDC roles</dt><dd class="min-w-0 break-words">"#);
        assert(r#"</dd><dt class="text-base-content/60">OIDC roles</dt><dd class="min-w-0 break-words">"#@.skip(5) =~= r#"<dt class="text-base-content/60">OIDC roles</dt><dd class="min-w-0 break-words">"#@);
    }
    assert(ends_in(r#"</dd><dt class="text-base-content/60">RBAC role IDs</dt><dd class="min-w-0 break-words">"#@, r#"<dt class="text-base-content/60">RBAC role IDs</dt><dd class="min-w-0 break-words">"#@)) by {
        reveal(ends_in);
        reveal_strlit(r#"</dd><dt class="text-base-content/60">RBAC role IDs</dt><dd class="min-w-0 break-words">"#);
        reveal_strlit(r#"<dt class="text-base-content/60">RBAC role IDs</dt><dd class="min-w-0 break-words">"#);
        assert(r#"</dd><dt class="text-base-content/60">RBAC role IDs</dt><dd class="min-w-0 break-words">"#@.skip(5) =~= r#"<dt class="text-base-content/60">RBAC role IDs</dt><dd class="min-w-0 break-words">"#@);
    }
}

/// The account section shows who is signed in: the address, the number and the roles, each
/// under its heading.
pub proof fn account_is_shown(a: AccountSummary)
    ensures
        ({
            let page = account_section(a);
            &&& shows(page, "Signed in as "@ + escaped(a.email@) + "</p>"@)
            &&& shows(page, r#"<dd class="font-mono text-xs break-all min-w-0">"#@ + escaped(a.user_id@) + "</dd>"@)
            &&& shows(page, r#"<dt class="text-base-content/60">OIDC roles</dt><dd class="min-w-0 break-words">"#@ + escaped(a.oidc_roles@) + "</dd>"@)
            &&& shows(page, r#"<dt class="text-base-content/60">RBAC role IDs</dt><dd class="min-w-0 break-words">"#@ + escaped(a.rbac_roles@) + "</dd>"@)
        }),
{
    broadcast use group_shows;

    lemma_account_is_shown();
}

proof fn lemma_a_new_token_is_shown_once()
    ensures
        starts_as(
            "</p></div></div>"@,
            "</p>"@,
        ),
        ends_in(
            "No tokens yet. Create one above.</p></div></section>"@,
            "</div></section>"@,
        ),
{
    assert(starts_as("</p></div></div>"@, "</p>"@)) by {
        reveal(starts_as);
        reveal_strlit("</p></div></div>");
        reveal_strlit("</p>");
        assert("</p></div></div>"@.take(4) =~= "</p>"@);
    }
    assert(ends_in("No tokens yet. Create one above.</p></div></section>"@, "</div></section>"@)) by {
        reveal(ends_in);
        reveal_strlit("No tokens yet. Create one above.</p></div></section>");
        reveal_strlit("</div></section>");
        assert("No tokens yet. Create one above.</p></div></section>"@.skip(36) =~= "</div></section>"@);
    }
}

/// A new token is shown with its name and its value; the page without one shows none.
#[verifier::rlimit(20)]
pub proof fn a_new_token_is_shown_once(ui: &Ui, list: Seq<Token>, b: &MintedBanner, account: AccountSummary)
    ensures
        ({
            let page = tokens_page(ui, list, Some(b), account);
            &&& shows(page, r#" min-w-0">"#@ + escaped(b.plaintext@) + "</pre>"@)
            &&& shows(page, r#"</button></div><p class="text-xs text-base-content/60 mt-3 mb-0">Name: "#@ + escaped(b.name@) + "</p>"@)
            &&& shows(page, "</div></section>"@ + account_section(account) + "</div>"@)
        }),
{
    broadcast use group_shows;

    lemma_a_new_token_is_shown_once();
}

/// Every token has its row on the page.
pub proof fn every_token_is_listed(
    ui: &Ui,
    minted: Option<&MintedBanner>,
    account: AccountSummary,
    list: Seq<Token>,
    i: int,
)
    requires
        0 <= i < list.len(),
    ensures
        shows(tokens_page(ui, list, minted, account), token_row(list[i])),
{
    broadcast use group_shows;

    lemma_token_is_listed(list, i);
}

proof fn lemma_token_is_listed(list: Seq<Token>, i: int)
    requires
        0 <= i < list.len(),
    ensures
        shows(token_rows(list), token_row(list[i])),
    decreases list.len(),
{
    broadcast use group_shows;

    if i < list.len() - 1 {
        lemma_token_is_listed(list.drop_last(), i);
    }
}

/// A token is made under the name that was typed, without the blanks around it, if that
/// has one to 128 bytes. It lives for the days that were asked for, or the configured
/// ones, but for a day at least and for five years at most.
pub proof fn a_token_lives_as_asked(
    name: &str,
    ttl_days: Option<i64>,
    configured: i64,
    r: Result<TokenPlan, String>,
)
    requires
        call_ensures(plan_token, (name, ttl_days, configured), r),
    ensures
        r is Ok <==> 1 <= utf8_len(trimmed(name@)) <= 128,
        r matches Err(e) ==> e@ == "Token name must be 1..=128 characters."@,
        r matches Ok(p) ==> {
            let days = match ttl_days {
                Some(d) => d,
                None => configured,
            };
            &&& p.name@ == trimmed(name@)
            &&& 1 <= days <= 1825 ==> p.hours == days * 24
            &&& days < 1 ==> p.hours == 24
            &&& days > 1825 ==> p.hours == 1825 * 24
        },
{
    crate::text::lemma_bytes(trimmed(name@));
}

/// A token expires as many hours from now as were planned.
pub proof fn a_token_expires_when_planned(plan: &TokenPlan, now: &Moment, r: Option<Moment>)
    requires
        call_ensures(expiry, (plan, now), r),
    ensures
        r matches Some(m) ==> m.at() - now.at() == plan.hours * 60 * 60,
        r is None ==> !(FIRST_SECOND <= now.at() + plan.hours * 3600 <= LAST_SECOND),
{
}

/// A list is shown with commas between its items; an empty one by the word for it.
pub proof fn a_list_is_shown_in_order(items: Seq<Seq<char>>, empty: Seq<char>)
    ensures
        items.len() == 0 ==> joined_or(items, empty) == empty,
        items.len() > 0 ==> joined_or(items, empty) == joined(items, ", "@),
        items.len() == 1 ==> joined_or(items, empty) == items[0],
{
}

/// The summary of an account holds what it was made of, each in its place.
pub proof fn a_summary_is_of_its_account(
    email: &str,
    user_id: &str,
    roles: &Vec<String>,
    role_ids: &Vec<String>,
    r: AccountSummary,
)
    requires
        call_ensures(AccountSummary::new, (email, user_id, roles, role_ids), r),
    ensures
        r.email@ == email@,
        r.user_id@ == user_id@,
        r.oidc_roles@ == (if roles@.len() == 0 { "none"@ } else { joined(texts(roles@), ", "@) }),
        r.rbac_roles@ == (if role_ids@.len() == 0 {
            "none granted"@
        } else {
            joined(texts(role_ids@), ", "@)
        }),
{
    assert(texts(roles@).len() == roles@.len());
    assert(texts(role_ids@).len() == role_ids@.len());
}

/// The data of a row are those of its token.
pub proof fn row_data_are_of_the_token(t: &Token, r: TokenRowData)
    requires
        call_ensures(TokenRowData::from_token, (t,), r),
    ensures
        r.id@ == t.id@,
        r.name@ == t.name@,
        r.revoked <==> t.revoked_at is Some,
        r.revoke_action@ == "/tokens/"@ + t.id@ + "/revoke"@,
        r.delete_action@ == "/tokens/"@ + t.id@ + "/delete"@,
        shows(r.meta@, utc_text(t.created_at.at(), "%Y-%m-%d"@)),
        shows(r.meta@, utc_text(t.expires_at.at(), "%Y-%m-%d"@)),
        t.last_used_at matches Some(m) ==> shows(r.meta@, utc_text(m.at(), "%Y-%m-%d"@)),
        t.last_used_at is None ==> shows(r.meta@, "never"@),
{
    broadcast use group_shows;

}

proof fn lemma_token_position(list: Seq<Token>, id: Seq<char>)
    ensures
        0 <= position(list, id) <= list.len(),
        position(list, id) < list.len() ==> list[position(list, id)].id@ == id,
        forall|j: int| 0 <= j < position(list, id) ==> (#[trigger] list[j]).id@ != id,
    decreases list.len(),
{
    if list.len() > 0 && list[0].id@ != id {
        lemma_token_position(list.drop_first(), id);
        assert forall|j: int| 0 <= j < position(list, id) implies (#[trigger] list[j]).id@ != id by {
            if j > 0 {
                assert(list.drop_first()[j - 1] == list[j]);
            }
        }
    }
}

/// Revoking a token shows its row again, as it is now, in the place of the old one; what
/// was not revoked is told and nothing else is changed.
pub proof fn a_revoked_token_shows_in_its_row(
    outcome: StoreOutcome,
    list: &Vec<Token>,
    token_id: &str,
    i: int,
    r: Vec<Update>,
)
    requires
        call_ensures(revoked, (outcome, list, token_id), r),
    ensures
        outcome == StoreOutcome::Done && 0 <= i < list@.len() && list@[i].id@ == token_id@ && (
        forall|j: int| 0 <= j < i ==> (#[trigger] list@[j]).id@ != token_id@) ==> views(r@) == seq![
            patch("#token-row-"@ + token_id@, "outer"@, token_row(list@[i])),
            toast(FlashKind::Success, "Token revoked."@),
        ],
        outcome == StoreOutcome::Done && (forall|j: int|
            0 <= j < list@.len() ==> (#[trigger] list@[j]).id@ != token_id@) ==> views(r@) == seq![
            toast(FlashKind::Error, "Revoked token not found."@),
        ],
        outcome == StoreOutcome::NotDone ==> views(r@) == seq![
            toast(FlashKind::Info, "Token was already revoked."@),
        ],
        outcome == StoreOutcome::Failed ==> views(r@) == seq![
            toast(FlashKind::Error, "Revoke failed."@),
        ],
{
    lemma_token_position(list@, token_id@);
    let p = position(list@, token_id@);
    reveal_strlit("#");
    reveal_strlit("token-row-");
    reveal_strlit("#token-row-");
    assert("#"@ + "token-row-"@ =~= "#token-row-"@);
    assert("#"@ + row_name(token_id@) =~= "#token-row-"@ + token_id@);
    if p < list@.len() {
        assert(list@[p].id@ == token_id@);
    }
}

/// A removed token leaves the list; one that is still active stays.
pub proof fn only_a_revoked_token_is_removed(
    outcome: StoreOutcome,
    token_id: &str,
    r: Vec<Update>,
)
    requires
        call_ensures(deleted, (outcome, token_id), r),
    ensures
        outcome == StoreOutcome::Done ==> views(r@) == seq![
            patch("#token-row-"@ + token_id@, "remove"@, ""@),
            toast(FlashKind::Success, "Token removed."@),
        ],
        outcome == StoreOutcome::NotDone ==> views(r@) == seq![
            toast(FlashKind::Info, "Token is still active — revoke it first."@),
        ],
        outcome == StoreOutcome::Failed ==> views(r@) == seq![
            toast(FlashKind::Error, "Remove failed."@),
        ],
{
    reveal_strlit("#");
    reveal_strlit("token-row-");
    reveal_strlit("#token-row-");
    assert("#"@ + "token-row-"@ =~= "#token-row-"@);
    assert("#"@ + row_name(token_id@) =~= "#token-row-"@ + token_id@);
}

/// A new token joins the list, its value is shown with its name, and the form is empty
/// again.
pub proof fn a_new_token_joins_the_list(
    ui: &Ui,
    token: &Token,
    plaintext: String,
    r: Vec<Update>,
)
    requires
        call_ensures(created, (ui, token, plaintext), r),
    ensures
        views(r@).len() == 4,
        views(r@)[0] == patch("#token-list"@, "append"@, token_row(*token)),
        views(r@)[1] is Patch,
        views(r@)[1]->selector == "#token-minted-banner"@,
        views(r@)[1]->mode == "outer"@,
        shows(views(r@)[1]->markup, escaped(plaintext@)),
        shows(views(r@)[1]->markup, "Name: "@ + escaped(token.name@)),
        views(r@)[3] == toast(FlashKind::Success, "Token created."@),
{
    broadcast use group_shows;

    assert(ends_in(
        r#"</button></div><p class="text-xs text-base-content/60 mt-3 mb-0">Name: "#@,
        "Name: "@,
    )) by {
        reveal(ends_in);
        reveal_strlit(r#"</button></div><p class="text-xs text-base-content/60 mt-3 mb-0">Name: "#);
        reveal_strlit("Name: ");
        assert(r#"</button></div><p class="text-xs text-base-content/60 mt-3 mb-0">Name: "#@.skip(65)
            =~= "Name: "@);
    }
}

/// A token is revoked and deleted at its own addresses.
pub proof fn a_token_is_changed_at_its_addresses(row: &TokenRowData, revoke: String, delete: String)
    requires
        call_ensures(TokenRowData::revoke_directive, (row,), revoke),
        call_ensures(TokenRowData::delete_directive, (row,), delete),
    ensures
        revoke@ == "@post('"@ + row.revoke_action@ + "', {contentType: 'form'})"@,
        delete@ == "@post('"@ + row.delete_action@ + "', {contentType: 'form'})"@,
{
}

/// A token that could not be stored is told to be lost.
pub proof fn a_lost_token_is_told(r: Vec<Update>)
    requires
        call_ensures(not_stored, (), r),
    ensures
        views(r@) == seq![toast(FlashKind::Error, "Storing token failed."@)],
{
}

} // verus!
