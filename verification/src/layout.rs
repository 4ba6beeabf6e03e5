//! What stands around every page: the sidebar, the document, and the pages for
//! those who are not signed in or may not enter.
use crate::html::{escaped, Html, Ui};
use crate::json::{json_text, write_text};
use crate::query::{form_text, query_of};
use crate::text::{chars, opt_text, same, starts_with, texts};
use crate::integrations::is_listed;
use crate::updates::{patch, views, Update, UpdateView};
use crate::text::occurs_at;
use crate::markup::{ends_in, group_shows, shows, starts_as};
use vstd::prelude::*;

verus! {

// ---------------------------------------------------------------------------
// Navigation

/// The pages.
#[derive(Clone, Copy, PartialEq, Eq, Structural, Debug)]
pub enum NavItem {
    Tokens,
    Chat,
    Tools,
    Memory,
    Admin,
    Backends,
    Rag,
    Scheduled,
    Integrations,
    Groups,
    Pools,
    Connectors,
    Users,
    Skills,
}

/// The script that fetches a page in place.
pub open spec fn get_directive(href: Seq<char>) -> Seq<char> {
    "@get('"@ + href + "')"@
}

/// The script that fetches a page in place.
pub fn nav_get_directive(href: &str) -> (r: String)
    ensures
        r@ == get_directive(href@),
{
    let mut out = "@get('".to_owned();
    out.append(href);
    out.append("')");
    out
}

/// The script that fetches a page in place and closes the drawer, which would
/// else stay open over the new page.
pub open spec fn drawer_directive(href: Seq<char>) -> Seq<char> {
    "document.getElementById('app-sidebar-toggle').checked = false; "@ + get_directive(href)
}

/// The script of a link in the sidebar.
pub fn sidebar_nav_directive(href: &str) -> (r: String)
    ensures
        r@ == drawer_directive(href@),
{
    let mut out = "document.getElementById('app-sidebar-toggle').checked = false; ".to_owned();
    out.append(&nav_get_directive(href));
    out
}

/// Whether one of the gateway's roles, which a user's groups were resolved to, is
/// that of administrators.
pub fn is_admin(role_ids: &Vec<String>) -> (r: bool)
    ensures
        r == texts(role_ids@).contains("admin"@),
{
    is_listed(role_ids, "admin")
}

/// The classes of the main part: the chat fills the height, other pages scroll.
pub open spec fn main_class(active: Option<NavItem>) -> Seq<char> {
    if active == Some(NavItem::Chat) {
        "chat-main relative flex-1 min-h-0 flex flex-col w-full max-w-5xl mx-auto px-4 sm:px-6 sm:pt-4"@
    } else {
        "flex-1 min-h-0 overflow-y-auto"@
    }
}

/// The classes of the main part.
pub fn main_class_for(active: Option<NavItem>) -> (r: &'static str)
    ensures
        r@ == main_class(active),
{
    match active {
        Some(NavItem::Chat) => "chat-main relative flex-1 min-h-0 flex flex-col w-full max-w-5xl mx-auto px-4 sm:px-6 sm:pt-4",
        _ => "flex-1 min-h-0 overflow-y-auto",
    }
}

// ---------------------------------------------------------------------------
// The sidebar

/// A conversation in the sidebar.
pub struct SidebarSession {
    pub id: String,
    pub title: Option<String>,
}

/// The conversations in the sidebar, and the one that is open.
pub struct SidebarChat {
    pub sessions: Vec<SidebarSession>,
    pub active_session_id: Option<String>,
}

/// A [`SidebarChat`] over texts.
pub ghost struct SidebarView {
    pub sessions: Seq<SidebarSession>,
    pub open: Option<Seq<char>>,
}

impl View for SidebarChat {
    type V = SidebarView;

    open spec fn view(&self) -> SidebarView {
        SidebarView { sessions: self.sessions@, open: opt_text(self.active_session_id) }
    }
}

/// No conversations.
pub open spec fn no_chats() -> SidebarView {
    SidebarView { sessions: Seq::empty(), open: None }
}

impl SidebarChat {
    /// No conversations.
    pub fn empty() -> (r: SidebarChat)
        ensures
            r@ == no_chats(),
    {
        let r = SidebarChat { sessions: Vec::new(), active_session_id: None };
        assert(r@.sessions =~= Seq::empty());
        r
    }
}

/// The colours of a page.
#[derive(Clone, Copy, PartialEq, Eq, Structural, Debug)]
pub enum Theme {
    Light,
    Dark,
}

impl Theme {
    /// The word that stands for the theme.
    pub open spec fn word(&self) -> Seq<char> {
        match self {
            Theme::Light => "light"@,
            Theme::Dark => "dark"@,
        }
    }

    /// The word that stands for the theme.
    pub fn as_str(&self) -> (r: &'static str)
        ensures
            r@ == self.word(),
    {
        match self {
            Theme::Light => "light",
            Theme::Dark => "dark",
        }
    }
}

/// What the build brings to every page.
pub struct Chrome {
    /// The switch of the theme, as a light page shows it.
    pub light_switch: Html,
    /// The switch of the theme, as a dark page shows it.
    pub dark_switch: Html,
    /// Where short messages appear.
    pub toasts: Html,
    pub css_href: String,
    pub datastar_src: String,
    pub app_src: String,
    pub pcm_recorder: String,
    /// Where the source of the build is.
    pub source_url: String,
    pub version_label: String,
}

impl Chrome {
    /// The switch that a page of a theme shows.
    pub open spec fn switch_from(&self, theme: Theme) -> Seq<char> {
        match theme {
            Theme::Light => self.light_switch@,
            Theme::Dark => self.dark_switch@,
        }
    }
}

fn theme_switch(chrome: &Chrome, theme: Theme) -> (r: Html)
    ensures
        r@ == chrome.switch_from(theme),
{
    match theme {
        Theme::Light => chrome.light_switch.clone(),
        Theme::Dark => chrome.dark_switch.clone(),
    }
}

/// A link of the sidebar.
#[verifier::opaque]
pub open spec fn nav_link(
    href: Seq<char>,
    selected: bool,
    icon: Seq<char>,
    label: Seq<char>,
) -> Seq<char> {
    r#"<a href=""#@
        + escaped(href)
        + r#"" class=""#@
        + (if selected { "app-sidebar__nav-link app-sidebar__nav-link--active"@ } else { "app-sidebar__nav-link"@ })
        + r#"" data-on:click__prevent=""#@
        + escaped(drawer_directive(href))
        + r#"">"#@
        + icon
        + "<span>"@
        + escaped(label)
        + "</span></a>"@
}

/// Renders a link of the sidebar; the one to the open page is marked.
pub fn sidebar_nav_link(
    href: &str,
    item: NavItem,
    active: Option<NavItem>,
    icon: Html,
    label: &str,
) -> (r: Html)
    ensures
        r@ == nav_link(href@, active == Some(item), icon@, label@),
{
    proof {
        reveal(nav_link);
    }
    let selected = match active {
        Some(a) => a == item,
        None => false,
    };
    Html::new(r#"<a href=""#)
        .text(href)
        .raw(r#"" class=""#)
        .html(Html::new(if selected { "app-sidebar__nav-link app-sidebar__nav-link--active" } else { "app-sidebar__nav-link" }))
        .raw(r#"" data-on:click__prevent=""#)
        .text(&sidebar_nav_directive(href))
        .raw(r#"">"#)
        .html(icon)
        .raw("<span>")
        .text(label)
        .raw("</span></a>")
}

/// The title of a conversation in the sidebar.
pub open spec fn row_title(s: SidebarSession) -> Seq<char> {
    match s.title {
        Some(t) => t@,
        None => "Untitled chat"@,
    }
}

/// A conversation in the sidebar: a link, and a button that deletes it. The open
/// one is marked.
#[verifier::opaque]
pub open spec fn session_row(s: SidebarSession, active_id: Option<Seq<char>>, ui: &Ui) -> Seq<char> {
    let is_active = active_id == Some(s.id@);
    let title = row_title(s);
    r#"<li id="session-row-"#@
        + escaped(s.id@)
        + r#"" class="session-row__item"><a href="/chat/"#@
        + escaped(s.id@)
        + r#"" class=""#@
        + (if is_active { "session-row session-row--active"@ } else { "session-row"@ })
        + r#"" data-on:click__prevent="document.getElementById(&#39;app-sidebar-toggle&#39;).checked ="#@
        + " false; @get(&#39;/chat/"@
        + escaped(s.id@)
        + r#"&#39;)"><span class="session-row__title">"#@
        + escaped(title)
        + r#"</span></a><form method="post" action="/chat/"#@
        + escaped(s.id@)
        + r#"/delete" data-on:submit__prevent="@post(&#39;/chat/"#@
        + escaped(s.id@)
        + r#"/delete&#39;, {contentType: &#39;form&#39;})" class="m-0 session-row__delete-form">"#@
        + r#"<button type="submit" class="session-row__delete" aria-label="Delete conversation""#@
        + r#" title="Delete conversation">"#@
        + ui.icon_markup("trash"@, 12)
        + "</button></form></li>"@
}

/// Renders a conversation in the sidebar.
pub fn render_sidebar_session(ui: &Ui, s: &SidebarSession, active_id: Option<&str>) -> (r: Html)
    ensures
        r@ == session_row(
            *s,
            match active_id {
                Some(a) => Some(a@),
                None => None,
            },
            ui,
        ),
{
    proof {
        reveal(session_row);
    }
    let is_active = match active_id {
        Some(a) => same(a, &s.id),
        None => false,
    };
    let title = match &s.title {
        Some(t) => t.clone(),
        None => "Untitled chat".to_owned(),
    };
    Html::new(r#"<li id="session-row-"#)
        .text(&s.id)
        .raw(r#"" class="session-row__item"><a href="/chat/"#)
        .text(&s.id)
        .raw(r#"" class=""#)
        .html(Html::new(if is_active { "session-row session-row--active" } else { "session-row" }))
        .raw(r#"" data-on:click__prevent="document.getElementById(&#39;app-sidebar-toggle&#39;).checked ="#)
        .raw(" false; @get(&#39;/chat/")
        .text(&s.id)
        .raw(r#"&#39;)"><span class="session-row__title">"#)
        .text(&title)
        .raw(r#"</span></a><form method="post" action="/chat/"#)
        .text(&s.id)
        .raw(r#"/delete" data-on:submit__prevent="@post(&#39;/chat/"#)
        .text(&s.id)
        .raw(r#"/delete&#39;, {contentType: &#39;form&#39;})" class="m-0 session-row__delete-form">"#)
        .raw(r#"<button type="submit" class="session-row__delete" aria-label="Delete conversation""#)
        .raw(r#" title="Delete conversation">"#)
        .icon(ui, "trash", 12)
        .raw("</button></form></li>")
}

/// The conversations in the sidebar.
pub open spec fn session_rows(
    ui: &Ui,
    sessions: Seq<SidebarSession>,
    active_id: Option<Seq<char>>,
) -> Seq<char>
    decreases sessions.len(),
{
    if sessions.len() == 0 {
        Seq::empty()
    } else {
        session_rows(ui, sessions.drop_last(), active_id) + session_row(
            sessions.last(),
            active_id,
            ui,
        )
    }
}

fn render_session_rows(ui: &Ui, chat: &SidebarChat) -> (r: Html)
    ensures
        r@ == session_rows(ui, chat@.sessions, chat@.open),
{
    let sessions = &chat.sessions;
    let mut out = Html::empty();
    assert(sessions@.take(0) =~= Seq::<SidebarSession>::empty());
    for i in 0..sessions.len()
        invariant
            sessions == &chat.sessions,
            out@ == session_rows(
                ui,
                sessions@.take(i as int),
                opt_text(chat.active_session_id),
            ),
    {
        assert(sessions@.take(i + 1).drop_last() =~= sessions@.take(i as int));
        let row = match &chat.active_session_id {
            Some(a) => render_sidebar_session(ui, &sessions[i], Some(a)),
            None => render_sidebar_session(ui, &sessions[i], None),
        };
        out = out.html(row);
    }
    assert(sessions@.take(sessions@.len() as int) =~= sessions@);
    out
}

/// The links that everyone sees.
pub open spec fn common_links(ui: &Ui, active: Option<NavItem>) -> Seq<char> {
    nav_link("/chat"@, active == Some(NavItem::Chat), ui.icon_markup("message"@, 16), "Chat"@)
        + nav_link("/tools"@, active == Some(NavItem::Tools), ui.icon_markup("sliders"@, 16), "Tools"@)
        + nav_link("/memory"@, active == Some(NavItem::Memory), ui.icon_markup("folder"@, 16), "Memory"@)
        + nav_link("/tokens"@, active == Some(NavItem::Tokens), ui.icon_markup("key"@, 16), "Tokens"@)
}

/// The links to the pages of administrators.
pub open spec fn admin_links(ui: &Ui, active: Option<NavItem>) -> Seq<char> {
    nav_link("/admin/models"@, active == Some(NavItem::Admin), ui.icon_markup("sliders"@, 16), "Models"@)
        + nav_link("/admin/backends"@, active == Some(NavItem::Backends), ui.icon_markup("cube"@, 16), "Backends"@)
        + nav_link("/rag"@, active == Some(NavItem::Rag), ui.icon_markup("folder"@, 16), "RAG"@)
}

/// The part of the sidebar that holds the links.
pub open spec fn nav_of(links: Seq<char>) -> Seq<char> {
    r#"<nav class="app-sidebar__primary">"#@ + links + "</nav>"@
}

/// The links of the sidebar. Those to the pages of administrators are there for
/// administrators only.
#[verifier::opaque]
pub open spec fn nav_links(ui: &Ui, active: Option<NavItem>, admin: bool) -> Seq<char> {
    nav_of(
        common_links(ui, active) + if admin {
            admin_links(ui, active)
        } else {
            Seq::<char>::empty()
        },
    )
}

fn render_common_links(ui: &Ui, active: Option<NavItem>) -> (r: Html)
    ensures
        r@ == common_links(ui, active),
{
    sidebar_nav_link("/chat", NavItem::Chat, active, ui.icon("message", 16), "Chat")
        .html(sidebar_nav_link("/tools", NavItem::Tools, active, ui.icon("sliders", 16), "Tools"))
        .html(sidebar_nav_link("/memory", NavItem::Memory, active, ui.icon("folder", 16), "Memory"))
        .html(sidebar_nav_link("/tokens", NavItem::Tokens, active, ui.icon("key", 16), "Tokens"))
}

fn render_admin_links(ui: &Ui, active: Option<NavItem>) -> (r: Html)
    ensures
        r@ == admin_links(ui, active),
{
    sidebar_nav_link("/admin/models", NavItem::Admin, active, ui.icon("sliders", 16), "Models")
        .html(sidebar_nav_link("/admin/backends", NavItem::Backends, active, ui.icon("cube", 16), "Backends"))
        .html(sidebar_nav_link("/rag", NavItem::Rag, active, ui.icon("folder", 16), "RAG"))
}

fn render_nav_links(ui: &Ui, active: Option<NavItem>, admin: bool) -> (r: Html)
    ensures
        r@ == nav_links(ui, active, admin),
{
    proof {
        reveal(nav_links);
    }
    let links = render_common_links(ui, active).html(
        if admin {
            render_admin_links(ui, active)
        } else {
            Html::empty()
        },
    );
    Html::new(r#"<nav class="app-sidebar__primary">"#).html(links).raw("</nav>")
}

/// The sidebar: links, conversations, the user, and where the source is.
#[verifier::opaque]
pub open spec fn app_sidebar(
    ui: &Ui,
    chrome: &Chrome,
    theme: Theme,
    active: Option<NavItem>,
    user_email: Seq<char>,
    admin: bool,
    chat: SidebarView,
) -> Seq<char> {
    r#"<aside id="app-sidebar" class="app-sidebar"><div class="app-sidebar__brand">"#@
        + r#"<a href="/" class="app-sidebar__brand-link" data-on:click__prevent=""#@
        + escaped(drawer_directive("/"@))
        + r#"">LLM Gateway</a></div>"#@
        + nav_links(ui, active, admin)
        + r#"<div class="app-sidebar__sessions-section"><div class="app-sidebar__sessions-header">"#@
        + r#"<span class="app-sidebar__sessions-label">Conversations</span>"#@
        + r#"<form method="post" action="/chat/sessions""#@
        + r#" data-on:submit__prevent="document.getElementById(&#39;app-sidebar-toggle&#39;).checked ="#@
        + r#" false; @post(&#39;/chat/sessions&#39;, {contentType: &#39;form&#39;})" class="m-0">"#@
        + r#"<button type="submit" class="app-sidebar__new-btn" aria-label="Start a new conversation""#@
        + r#" title="New conversation">"#@
        + ui.icon_markup("plus"@, 14)
        + r#"</button></form></div><ul id="session-list" class="app-sidebar__sessions">"#@
        + session_rows(ui, chat.sessions, chat.open)
        + r#"</ul></div><div class="app-sidebar__user"><span class="app-sidebar__email">"#@
        + escaped(user_email)
        + r#"</span><div class="app-sidebar__user-actions">"#@
        + chrome.switch_from(theme)
        + r#"<form method="post" action="/auth/logout" class="m-0">"#@
        + r#"<button type="submit" class="btn btn-ghost btn-square btn-sm" title="Sign out""#@
        + r#" aria-label="Sign out">"#@
        + ui.icon_markup("logout"@, 16)
        + r#"</button></form></div></div><div class="px-4 py-2 border-t border-base-300/60"><a href=""#@
        + escaped(chrome.source_url@)
        + r#"" class="text-[11px] leading-tight text-base-content/45 link link-hover" target="_blank""#@
        + r#" rel="noopener noreferrer" title="Source code (AGPL-3.0)">Source · AGPL-3.0 · "#@
        + escaped(chrome.version_label@)
        + "</a></div></aside>"@
}

/// Renders the sidebar.
pub fn render_app_sidebar(
    ui: &Ui,
    chrome: &Chrome,
    theme: Theme,
    active: Option<NavItem>,
    user_email: &str,
    admin: bool,
    chat: &SidebarChat,
) -> (r: Html)
    ensures
        r@ == app_sidebar(ui, chrome, theme, active, user_email@, admin, chat@),
{
    proof {
        reveal(app_sidebar);
    }
    Html::new(r#"<aside id="app-sidebar" class="app-sidebar"><div class="app-sidebar__brand">"#)
        .raw(r#"<a href="/" class="app-sidebar__brand-link" data-on:click__prevent=""#)
        .text(&sidebar_nav_directive("/"))
        .raw(r#"">LLM Gateway</a></div>"#)
        .html(render_nav_links(ui, active, admin))
        .raw(r#"<div class="app-sidebar__sessions-section"><div class="app-sidebar__sessions-header">"#)
        .raw(r#"<span class="app-sidebar__sessions-label">Conversations</span>"#)
        .raw(r#"<form method="post" action="/chat/sessions""#)
        .raw(r#" data-on:submit__prevent="document.getElementById(&#39;app-sidebar-toggle&#39;).checked ="#)
        .raw(r#" false; @post(&#39;/chat/sessions&#39;, {contentType: &#39;form&#39;})" class="m-0">"#)
        .raw(r#"<button type="submit" class="app-sidebar__new-btn" aria-label="Start a new conversation""#)
        .raw(r#" title="New conversation">"#)
        .icon(ui, "plus", 14)
        .raw(r#"</button></form></div><ul id="session-list" class="app-sidebar__sessions">"#)
        .html(render_session_rows(ui, chat))
        .raw(r#"</ul></div><div class="app-sidebar__user"><span class="app-sidebar__email">"#)
        .text(user_email)
        .raw(r#"</span><div class="app-sidebar__user-actions">"#)
        .html(theme_switch(chrome, theme))
        .raw(r#"<form method="post" action="/auth/logout" class="m-0">"#)
        .raw(r#"<button type="submit" class="btn btn-ghost btn-square btn-sm" title="Sign out""#)
        .raw(r#" aria-label="Sign out">"#)
        .icon(ui, "logout", 16)
        .raw(r#"</button></form></div></div><div class="px-4 py-2 border-t border-base-300/60"><a href=""#)
        .text(&chrome.source_url)
        .raw(r#"" class="text-[11px] leading-tight text-base-content/45 link link-hover" target="_blank""#)
        .raw(r#" rel="noopener noreferrer" title="Source code (AGPL-3.0)">Source · AGPL-3.0 · "#)
        .text(&chrome.version_label)
        .raw("</a></div></aside>")
}

// ---------------------------------------------------------------------------
// The document

/// The document of a page: the scripts, the page, the sidebar in a drawer, and
/// the place of short messages. The page's own script comes before the one that
/// calls into it.
pub open spec fn document(
    ui: &Ui,
    chrome: &Chrome,
    theme: Theme,
    active: Option<NavItem>,
    title: Seq<char>,
    user_email: Seq<char>,
    admin: bool,
    body: Seq<char>,
    chat: SidebarView,
) -> Seq<char> {
    r#"<!DOCTYPE html><html lang="en" data-theme=""#@
        + escaped(theme.word())
        + r#"" class=""#@
        + escaped(theme.word())
        + r#""><head><meta charset="utf-8">"#@
        + r#"<meta name="viewport" content="width=device-width, initial-scale=1"><title>"#@
        + escaped(title)
        + r#"</title><link rel="stylesheet" href=""#@
        + escaped(chrome.css_href@)
        + r#""><script src=""#@
        + escaped(chrome.app_src@)
        + r#"" defer="defer" data-pcm-recorder=""#@
        + escaped(chrome.pcm_recorder@)
        + r#""></script><script type="module" src=""#@
        + escaped(chrome.datastar_src@)
        + r#""></script></head><body class="bg-base-100 text-base-content">"#@
        + r#"<div class="app-shell drawer lg:drawer-open h-dvh overflow-hidden">"#@
        + r#"<input id="app-sidebar-toggle" type="checkbox" class="drawer-toggle">"#@
        + r#"<div class="drawer-content relative flex flex-col min-w-0 min-h-0 overflow-hidden">"#@
        + r#"<label for="app-sidebar-toggle" class="app-mobile-menu-btn lg:hidden" aria-label="Open"#@
        + r#" menu">"#@
        + ui.icon_markup("menu"@, 18)
        + r#"</label><main class=""#@
        + escaped(main_class(active))
        + r#"">"#@
        + body
        + r#"</main></div><div class="drawer-side z-40">"#@
        + r#"<label for="app-sidebar-toggle" aria-label="Close menu" class="drawer-overlay"></label>"#@
        + app_sidebar(ui, chrome, theme, active, user_email, admin, chat)
        + "</div></div>"@
        + chrome.toasts@
        + "</body></html>"@
}

/// Renders the document of a page.
pub fn layout_authed(
    ui: &Ui,
    chrome: &Chrome,
    theme: Theme,
    active: Option<NavItem>,
    title: &str,
    user_email: &str,
    admin: bool,
    body: Html,
    chat: &SidebarChat,
) -> (r: String)
    ensures
        r@ == document(ui, chrome, theme, active, title@, user_email@, admin, body@, chat@),
{
    let page =
        Html::new(r#"<!DOCTYPE html><html lang="en" data-theme=""#)
            .text(theme.as_str())
            .raw(r#"" class=""#)
            .text(theme.as_str())
            .raw(r#""><head><meta charset="utf-8">"#)
            .raw(r#"<meta name="viewport" content="width=device-width, initial-scale=1"><title>"#)
            .text(title)
            .raw(r#"</title><link rel="stylesheet" href=""#)
            .text(&chrome.css_href)
            .raw(r#""><script src=""#)
            .text(&chrome.app_src)
            .raw(r#"" defer="defer" data-pcm-recorder=""#)
            .text(&chrome.pcm_recorder)
            .raw(r#""></script><script type="module" src=""#)
            .text(&chrome.datastar_src)
            .raw(r#""></script></head><body class="bg-base-100 text-base-content">"#)
            .raw(r#"<div class="app-shell drawer lg:drawer-open h-dvh overflow-hidden">"#)
            .raw(r#"<input id="app-sidebar-toggle" type="checkbox" class="drawer-toggle">"#)
            .raw(r#"<div class="drawer-content relative flex flex-col min-w-0 min-h-0 overflow-hidden">"#)
            .raw(r#"<label for="app-sidebar-toggle" class="app-mobile-menu-btn lg:hidden" aria-label="Open"#)
            .raw(r#" menu">"#)
            .icon(ui, "menu", 18)
            .raw(r#"</label><main class=""#)
            .text(main_class_for(active))
            .raw(r#"">"#)
            .html(body)
            .raw(r#"</main></div><div class="drawer-side z-40">"#)
            .raw(r#"<label for="app-sidebar-toggle" aria-label="Close menu" class="drawer-overlay"></label>"#)
            .html(render_app_sidebar(ui, chrome, theme, active, user_email, admin, chat))
            .raw("</div></div>")
            .html(chrome.toasts.clone())
            .raw("</body></html>")
    ;
    page.text
}

/// The main part of a page.
pub open spec fn main_part(active: Option<NavItem>, body: Seq<char>) -> Seq<char> {
    r#"<main class=""#@
        + escaped(main_class(active))
        + r#"">"#@
        + body
        + "</main>"@
}

fn render_main_part(active: Option<NavItem>, body: Html) -> (r: Html)
    ensures
        r@ == main_part(active, body@),
{
    Html::new(r#"<main class=""#)
        .text(main_class_for(active))
        .raw(r#"">"#)
        .html(body)
        .raw("</main>")
}

/// The title of a page.
pub open spec fn title_part(title: Seq<char>) -> Seq<char> {
    "<title>"@
        + escaped(title)
        + "</title>"@
}

fn render_title_part(title: &str) -> (r: Html)
    ensures
        r@ == title_part(title@),
{
    Html::new("<title>")
        .text(title)
        .raw("</title>")
}

/// The script that shows the address of a page that was fetched in place, and
/// moves to its message field if it has one.
pub open spec fn push_script(url: Seq<char>) -> Seq<char> {
    "history.pushState(null, '', "@ + json_text(url)
        + "); { const m = document.getElementById('message'); if (m) m.focus(); }"@
}

/// What replaces the open page when another one is fetched in place: the main
/// part, the sidebar, the title, and the address.
pub open spec fn page_changes(
    ui: &Ui,
    chrome: &Chrome,
    theme: Theme,
    active: NavItem,
    title: Seq<char>,
    user_email: Seq<char>,
    admin: bool,
    body: Seq<char>,
    url: Seq<char>,
    chat: SidebarView,
) -> Seq<UpdateView> {
    seq![
        patch("main"@, "outer"@, main_part(Some(active), body)),
        patch(
            "#app-sidebar"@,
            "outer"@,
            app_sidebar(ui, chrome, theme, Some(active), user_email, admin, chat),
        ),
        patch("title"@, "outer"@, title_part(title)),
        UpdateView::Script { code: push_script(url) },
    ]
}

/// A page: the whole document, or what changes of the open one.
pub enum Page {
    Document { html: String },
    Changes { updates: Vec<Update> },
}

/// Answers a request for a page: with what changes when it is fetched in place,
/// else with the document.
pub fn nav_or_html_page(
    ui: &Ui,
    chrome: &Chrome,
    theme: Theme,
    scripted: bool,
    active: NavItem,
    title: &str,
    user_email: &str,
    admin: bool,
    body: Html,
    url: &str,
    chat: &SidebarChat,
) -> (r: Page)
    ensures
        match r {
            Page::Document { html } => !scripted && html@ == document(
                ui,
                chrome,
                theme,
                Some(active),
                title@,
                user_email@,
                admin,
                body@,
                chat@,
            ),
            Page::Changes { updates } => scripted && views(updates@) == page_changes(
                ui,
                chrome,
                theme,
                active,
                title@,
                user_email@,
                admin,
                body@,
                url@,
                chat@,
            ),
        },
{
    if !scripted {
        return Page::Document {
            html: layout_authed(ui, chrome, theme, Some(active), title, user_email, admin, body, chat),
        };
    }
    let ghost body_view = body@;
    let main = render_main_part(Some(active), body);
    let sidebar = render_app_sidebar(ui, chrome, theme, Some(active), user_email, admin, chat);
    let head = render_title_part(title);
    let mut code = "history.pushState(null, '', ".to_owned();
    code.append(&write_text(url));
    code.append("); { const m = document.getElementById('message'); if (m) m.focus(); }");
    let mut updates: Vec<Update> = Vec::new();
    updates.push(Update::patch("main", "outer", &main.text));
    updates.push(Update::patch("#app-sidebar", "outer", &sidebar.text));
    updates.push(Update::patch("title", "outer", &head.text));
    updates.push(Update::script(&code));
    assert(views(updates@) =~= page_changes(
        ui,
        chrome,
        theme,
        active,
        title@,
        user_email@,
        admin,
        body_view,
        url@,
        chat@,
    ));
    Page::Changes { updates }
}

// ---------------------------------------------------------------------------
// Signing in, and being kept out

/// Whether an address is a path on this site. A second slash would begin the name
/// of another host; browsers take a backslash for a slash, and leave out tabs and
/// line ends.
pub open spec fn is_local(p: Seq<char>) -> bool {
    p.len() > 0 && p[0] == '/' && (p.len() > 1 ==> !breaks_out(p[1]))
}

/// Whether a character after the first slash leads away from this site.
pub open spec fn breaks_out(c: char) -> bool {
    c == '/' || c == '\\' || c == '\t' || c == '\n' || c == '\r'
}

fn check_local(p: &str) -> (r: bool)
    ensures
        r == is_local(p@),
{
    let v = chars(p);
    if v.len() == 0 || v[0] != '/' {
        return false;
    }
    if v.len() > 1 {
        let c = v[1];
        return !(c == '/' || c == '\\' || c == '\t' || c == '\n' || c == '\r');
    }
    true
}

/// Where someone who is not signed in is sent: to the sign-in page, with the
/// address they asked for if they can be sent back to it. Only an address on
/// this site is kept, and only of a page that was asked for, not of an action.
pub open spec fn login_target(is_get: bool, path: Option<Seq<char>>) -> Seq<char> {
    match path {
        Some(p) => if is_get && is_local(p) && !"/login"@.is_prefix_of(p) {
            "/login?"@ + (form_text("return_to"@) + "="@ + form_text(p))
        } else {
            "/login"@
        },
        None => "/login"@,
    }
}

/// Decides where someone who is not signed in is sent.
pub fn login_redirect(is_get: bool, path_and_query: Option<&str>) -> (r: String)
    ensures
        r@ == login_target(
            is_get,
            match path_and_query {
                Some(p) => Some(p@),
                None => None,
            },
        ),
{
    if let Some(p) = path_and_query {
        if is_get && check_local(p) && !starts_with(p, "/login") {
            let mut out = "/login?".to_owned();
            out.append(&query_of("return_to", p));
            return out;
        }
    }
    "/login".to_owned()
}

/// The address that someone is sent back to after signing in, if it is one on
/// this site.
pub fn safe_return(return_to: Option<String>) -> (r: Option<String>)
    ensures
        r == (match return_to {
            Some(p) => if is_local(p@) {
                Some(p)
            } else {
                None
            },
            None => None,
        }),
{
    match return_to {
        Some(p) => if check_local(&p) {
            Some(p)
        } else {
            None
        },
        None => None,
    }
}

/// The sign-in page. It carries the address to return to.
pub open spec fn login_page(return_to: Option<String>, source_url: Seq<char>) -> Seq<char> {
    let field = match return_to {
        Some(rt) => (
        r#"<input type="hidden" name="return_to" value=""#@
            + escaped(rt@)
            + r#"">"#@
        ),
        None => Seq::empty(),
    };
    r#"<main class="min-h-dvh flex items-center justify-center p-8">"#@
        + r#"<div class="card border border-base-300 w-full max-w-md"><div class="card-body">"#@
        + r#"<h2 class="card-title text-2xl">Sign in to LLM Gateway</h2><p class="text-base-content/70">"#@
        + "Authenticate with your company&#39;s OIDC provider to mint API tokens and route LLM"@
        + r#" requests.</p><form action="/auth/login" method="get" class="mt-2">"#@
        + field
        + r#"<button type="submit" class="btn btn-primary btn-block">Continue with OIDC →</button></form>"#@
        + r#"<p class="mt-4 text-center text-xs text-base-content/45"><a href=""#@
        + escaped(source_url)
        + r#"" class="link link-hover" target="_blank" rel="noopener noreferrer">Source code · AGPL-3.0"#@
        + "</a></p></div></div></main>"@
}

/// Renders the sign-in page.
pub fn render_login_page(return_to: &Option<String>, source_url: &str) -> (r: Html)
    ensures
        r@ == login_page(*return_to, source_url@),
{
    let field = match return_to {
        Some(rt) => {
            Html::new(r#"<input type="hidden" name="return_to" value=""#)
                .text(rt)
                .raw(r#"">"#)
        },
        None => Html::empty(),
    };
    Html::new(r#"<main class="min-h-dvh flex items-center justify-center p-8">"#)
        .raw(r#"<div class="card border border-base-300 w-full max-w-md"><div class="card-body">"#)
        .raw(r#"<h2 class="card-title text-2xl">Sign in to LLM Gateway</h2><p class="text-base-content/70">"#)
        .raw("Authenticate with your company&#39;s OIDC provider to mint API tokens and route LLM")
        .raw(r#" requests.</p><form action="/auth/login" method="get" class="mt-2">"#)
        .html(field)
        .raw(r#"<button type="submit" class="btn btn-primary btn-block">Continue with OIDC →</button></form>"#)
        .raw(r#"<p class="mt-4 text-center text-xs text-base-content/45"><a href=""#)
        .text(source_url)
        .raw(r#"" class="link link-hover" target="_blank" rel="noopener noreferrer">Source code · AGPL-3.0"#)
        .raw("</a></p></div></div></main>")
}

/// What the page of an error says.
pub open spec fn error_body(ui: &Ui, forbidden: bool, message: Seq<char>) -> Seq<char> {
    r#"<div class=""#@
        + (if forbidden { "alert alert-warning max-w-md mx-auto items-start"@ } else { "alert alert-error max-w-md mx-auto items-start"@ })
        + r#"">"#@
        + ui.icon_markup("alert"@, 20)
        + r#"<div class="flex-1"><div class="font-bold">"#@
        + (if forbidden { "Forbidden"@ } else { "Internal error"@ })
        + "</div><div>"@
        + escaped(message)
        + "</div></div></div>"@
}

fn render_error_body(ui: &Ui, forbidden: bool, message: &str) -> (r: Html)
    ensures
        r@ == error_body(ui, forbidden, message@),
{
    Html::new(r#"<div class=""#)
        .html(Html::new(if forbidden { "alert alert-warning max-w-md mx-auto items-start" } else { "alert alert-error max-w-md mx-auto items-start" }))
        .raw(r#"">"#)
        .icon(ui, "alert", 20)
        .raw(r#"<div class="flex-1"><div class="font-bold">"#)
        .html(Html::new(if forbidden { "Forbidden" } else { "Internal error" }))
        .raw("</div><div>")
        .text(message)
        .raw("</div></div></div>")
}

/// The page of an error, with its status.
pub struct ErrorPage {
    pub status: u16,
    pub html: String,
}

/// The page of an error: it is dark, no page is open in its sidebar, and that lists
/// no conversations and no pages of administrators.
pub open spec fn error_document(
    ui: &Ui,
    chrome: &Chrome,
    forbidden: bool,
    user_email: Seq<char>,
    message: Seq<char>,
) -> Seq<char> {
    document(
        ui,
        chrome,
        Theme::Dark,
        None,
        if forbidden {
            "Forbidden — LLM Gateway"@
        } else {
            "Error — LLM Gateway"@
        },
        user_email,
        false,
        error_body(ui, forbidden, message),
        no_chats(),
    )
}

fn error_page(ui: &Ui, chrome: &Chrome, forbidden: bool, user_email: &str, message: &str) -> (r: String)
    ensures
        r@ == error_document(ui, chrome, forbidden, user_email@, message@),
{
    let chat = SidebarChat::empty();
    let title = if forbidden {
        "Forbidden — LLM Gateway"
    } else {
        "Error — LLM Gateway"
    };
    let body = render_error_body(ui, forbidden, message);
    layout_authed(ui, chrome, Theme::Dark, None, title, user_email, false, body, &chat)
}

/// Renders the page of an internal error.
pub fn internal_error_html(ui: &Ui, chrome: &Chrome, user_email: &str, message: &str) -> (r: ErrorPage)
    ensures
        r.status == 500,
        r.html@ == error_document(ui, chrome, false, user_email@, message@),
{
    ErrorPage { status: 500, html: error_page(ui, chrome, false, user_email, message) }
}

/// Renders the page for someone who is signed in but may not enter.
pub fn forbidden_html(ui: &Ui, chrome: &Chrome, user_email: &str, message: &str) -> (r: ErrorPage)
    ensures
        r.status == 403,
        r.html@ == error_document(ui, chrome, true, user_email@, message@),
{
    ErrorPage { status: 403, html: error_page(ui, chrome, true, user_email, message) }
}

/// Who may enter a page of administrators: others get its refusal.
pub fn require_admin_or_403(
    ui: &Ui,
    chrome: &Chrome,
    role_ids: &Vec<String>,
    user_email: &str,
) -> (r: Option<ErrorPage>)
    ensures
        r is None <==> texts(role_ids@).contains("admin"@),
        r matches Some(p) ==> p.status == 403 && p.html@ == error_document(
            ui,
            chrome,
            true,
            user_email@,
            "admin role required"@,
        ),
{
    if is_admin(role_ids) {
        None
    } else {
        Some(forbidden_html(ui, chrome, user_email, "admin role required"))
    }
}

// ---------------------------------------------------------------------------
// Laws

/// Someone who asked for a page before signing in is led back to it: the address
/// that the sign-in page is called with reads back as the address they asked
/// for.
pub proof fn deep_link_survives_sign_in(path: Seq<char>)
    requires
        is_local(path),
        !"/login"@.is_prefix_of(path),
    ensures
        login_target(true, Some(path)) == "/login?return_to="@ + form_text(path),
        crate::query::value_bytes(form_text(path)) == vstd::utf8::encode_utf8(path),
        vstd::utf8::decode_utf8(crate::query::value_bytes(form_text(path))) == path,
{
    crate::query::written_is_read(path);
    lemma_return_to();
    reveal_strlit("/login?");
    reveal_strlit("return_to");
    reveal_strlit("=");
    reveal_strlit("/login?return_to=");
    assert("/login?"@ + ("return_to"@ + "="@ + form_text(path)) =~= "/login?return_to="@
        + form_text(path));
}

proof fn lemma_return_to()
    ensures
        form_text("return_to"@) == "return_to"@,
{
    reveal_strlit("return_to");
    let s = "return_to"@;
    vstd::utf8::is_ascii_chars_encode_utf8(s);
    let b = vstd::utf8::encode_utf8(s);
    assert forall|i: int| 0 <= i < b.len() implies crate::query::unreserved(#[trigger] b[i]) by {
        assert(b[i] == s[i] as u8);
    }
    lemma_unreserved(b);
    assert(form_text(s) =~= s);
}

proof fn lemma_unreserved(b: Seq<u8>)
    requires
        forall|i: int| 0 <= i < b.len() ==> crate::query::unreserved(#[trigger] b[i]),
    ensures
        crate::query::form_bytes(b).len() == b.len(),
        forall|i: int|
            0 <= i < b.len() ==> #[trigger] crate::query::form_bytes(b)[i] == b[i] as char,
    decreases b.len(),
{
    if b.len() > 0 {
        let d = b.drop_first();
        assert forall|i: int| 0 <= i < d.len() implies crate::query::unreserved(#[trigger] d[i]) by {
            assert(d[i] == b[i + 1]);
        }
        lemma_unreserved(d);
        assert forall|i: int| 0 <= i < b.len() implies #[trigger] crate::query::form_bytes(b)[i]
            == b[i] as char by {
            if i > 0 {
                assert(crate::query::form_bytes(b)[i] == crate::query::form_bytes(d)[i - 1]);
                assert(d[i - 1] == b[i]);
            }
        }
    }
}

/// Only an address on this site is ever carried to the sign-in page: a path that
/// was asked for, and that names no other host.
pub proof fn only_local_addresses_are_carried(is_get: bool, path: Option<Seq<char>>)
    ensures
        login_target(is_get, path) != "/login"@ ==> {
            &&& is_get
            &&& path is Some
            &&& is_local(path->0)
            &&& path->0[0] == '/'
            &&& path->0.len() > 1 ==> path->0[1] != '/' && path->0[1] != '\\'
        },
{
}

/// Someone who is no administrator sees no link to the pages of administrators:
/// their links are those of everyone, and none is marked while such a page is open.
pub proof fn admin_links_are_for_administrators(ui: &Ui, active: Option<NavItem>)
    ensures
        nav_links(ui, active, false) == nav_of(common_links(ui, active)),
        nav_links(ui, active, true) == nav_of(common_links(ui, active) + admin_links(ui, active)),
        active != Some(NavItem::Chat) && active != Some(NavItem::Tools) && active != Some(
            NavItem::Memory,
        ) && active != Some(NavItem::Tokens) ==> nav_links(ui, active, false) == nav_links(
            ui,
            None,
            false,
        ),
{
    reveal(nav_links);
    let common = common_links(ui, active);
    assert(common + Seq::<char>::empty() =~= common);
}

/// Every link of the sidebar leads to its own page under its own label, and is marked while
/// that page is open. Those of administrators are there for administrators.
pub proof fn links_lead_to_their_pages(ui: &Ui, active: Option<NavItem>, admin: bool)
    ensures
        ({
            let page = nav_links(ui, active, admin);
            &&& shows(page, nav_link("/chat"@, active == Some(NavItem::Chat), ui.icon_markup("message"@, 16), "Chat"@))
            &&& shows(page, nav_link("/tools"@, active == Some(NavItem::Tools), ui.icon_markup("sliders"@, 16), "Tools"@))
            &&& shows(page, nav_link("/memory"@, active == Some(NavItem::Memory), ui.icon_markup("folder"@, 16), "Memory"@))
            &&& shows(page, nav_link("/tokens"@, active == Some(NavItem::Tokens), ui.icon_markup("key"@, 16), "Tokens"@))
            &&& admin ==> shows(page, nav_link("/admin/models"@, active == Some(NavItem::Admin), ui.icon_markup("sliders"@, 16), "Models"@))
            &&& admin ==> shows(page, nav_link("/admin/backends"@, active == Some(NavItem::Backends), ui.icon_markup("cube"@, 16), "Backends"@))
            &&& admin ==> shows(page, nav_link("/rag"@, active == Some(NavItem::Rag), ui.icon_markup("folder"@, 16), "RAG"@))
        }),
{
    broadcast use group_shows;

    reveal(nav_links);
}

/// A link goes to its address, with scripts or without, shows its label, and is marked if
/// and only if it is selected.
pub proof fn a_link_goes_where_it_says(href: Seq<char>, selected: bool, icon: Seq<char>, label: Seq<char>)
    ensures
        ({
            let page = nav_link(href, selected, icon, label);
            &&& selected ==> shows(page, r#"<a href=""#@ + escaped(href) + r#"" class=""#@ + "app-sidebar__nav-link app-sidebar__nav-link--active"@ + r#"" data-on:click__prevent=""#@)
            &&& !selected ==> shows(page, r#"<a href=""#@ + escaped(href) + r#"" class=""#@ + "app-sidebar__nav-link"@ + r#"" data-on:click__prevent=""#@)
            &&& shows(page, r#"" data-on:click__prevent=""#@ + escaped("document.getElementById('app-sidebar-toggle').checked = false; "@ + ("@get('"@ + href + "')"@)) + r#"">"#@ + icon + "<span>"@ + escaped(label) + "</span></a>"@)
        }),
{
    broadcast use group_shows;

    reveal(nav_link);
}

proof fn lemma_row_shows_the_conversation()
    ensures
        starts_as(
            r#"" class="session-row__item"><a href="/chat/"#@,
            r#"" class=""#@,
        ),
        starts_as(
            r#"" data-on:click__prevent="document.getElementById(&#39;app-sidebar-toggle&#39;).checked ="#@,
            r#"" data-on:click__prevent="#@,
        ),
        ends_in(
            r#"&#39;)"><span class="session-row__title">"#@,
            r#"<span class="session-row__title">"#@,
        ),
        starts_as(
            r#"</span></a><form method="post" action="/chat/"#@,
            "</span>"@,
        ),
        ends_in(
            r#"</span></a><form method="post" action="/chat/"#@,
            r#"<form method="post" action="/chat/"#@,
        ),
        starts_as(
            r#"/delete" data-on:submit__prevent="@post(&#39;/chat/"#@,
            r#"/delete" data-on"#@,
        ),
{
    assert(starts_as(r#"" class="session-row__item"><a href="/chat/"#@, r#"" class=""#@)) by {
        reveal(starts_as);
        reveal_strlit(r#"" class="session-row__item"><a href="/chat/"#);
        reveal_strlit(r#"" class=""#);
        assert(r#"" class="session-row__item"><a href="/chat/"#@.take(9) =~= r#"" class=""#@);
    }
    assert(starts_as(r#"" data-on:click__prevent="document.getElementById(&#39;app-sidebar-toggle&#39;).checked ="#@, r#"" data-on:click__prevent="#@)) by {
        reveal(starts_as);
        reveal_strlit(r#"" data-on:click__prevent="document.getElementById(&#39;app-sidebar-toggle&#39;).checked ="#);
        reveal_strlit(r#"" data-on:click__prevent="#);
        assert(r#"" data-on:click__prevent="document.getElementById(&#39;app-sidebar-toggle&#39;).checked ="#@.take(25) =~= r#"" data-on:click__prevent="#@);
    }
    assert(ends_in(r#"&#39;)"><span class="session-row__title">"#@, r#"<span class="session-row__title">"#@)) by {
        reveal(ends_in);
        reveal_strlit(r#"&#39;)"><span class="session-row__title">"#);
        reveal_strlit(r#"<span class="session-row__title">"#);
        assert(r#"&#39;)"><span class="session-row__title">"#@.skip(8) =~= r#"<span class="session-row__title">"#@);
    }
    assert(starts_as(r#"</span></a><form method="post" action="/chat/"#@, "</span>"@)) by {
        reveal(starts_as);
        reveal_strlit(r#"</span></a><form method="post" action="/chat/"#);
        reveal_strlit("</span>");
        assert(r#"</span></a><form method="post" action="/chat/"#@.take(7) =~= "</span>"@);
    }
    assert(ends_in(r#"</span></a><form method="post" action="/chat/"#@, r#"<form method="post" action="/chat/"#@)) by {
        reveal(ends_in);
        reveal_strlit(r#"</span></a><form method="post" action="/chat/"#);
        reveal_strlit(r#"<form method="post" action="/chat/"#);
        assert(r#"</span></a><form method="post" action="/chat/"#@.skip(11) =~= r#"<form method="post" action="/chat/"#@);
    }
    assert(starts_as(r#"/delete" data-on:submit__prevent="@post(&#39;/chat/"#@, r#"/delete" data-on"#@)) by {
        reveal(starts_as);
        reveal_strlit(r#"/delete" data-on:submit__prevent="@post(&#39;/chat/"#);
        reveal_strlit(r#"/delete" data-on"#);
        assert(r#"/delete" data-on:submit__prevent="@post(&#39;/chat/"#@.take(16) =~= r#"/delete" data-on"#@);
    }
}

/// The row of a conversation shows its title, leads to it, deletes it, and is marked if and
/// only if it is the open one.
pub proof fn row_shows_the_conversation(s: SidebarSession, open: Option<Seq<char>>, ui: &Ui)
    ensures
        ({
            let page = session_row(s, open, ui);
            &&& shows(page, r#"<li id="session-row-"#@ + escaped(s.id@) + r#"" class="session-row__item"><a href="/chat/"#@ + escaped(s.id@) + r#"" class=""#@)
            &&& open == Some(s.id@) ==> shows(page, r#"" class=""#@ + "session-row session-row--active"@ + r#"" data-on:click__prevent="#@)
            &&& open != Some(s.id@) ==> shows(page, r#"" class=""#@ + "session-row"@ + r#"" data-on:click__prevent="#@)
            &&& s.title is Some ==> shows(page, r#"<span class="session-row__title">"#@ + escaped(s.title->0@) + "</span>"@)
            &&& s.title is None ==> shows(page, r#"<span class="session-row__title">"#@ + escaped("Untitled chat"@) + "</span>"@)
            &&& shows(page, r#"<form method="post" action="/chat/"#@ + escaped(s.id@) + r#"/delete" data-on"#@)
        }),
{
    broadcast use group_shows;

    lemma_row_shows_the_conversation();
    reveal(session_row);
}

proof fn lemma_sidebar_shows_the_user()
    ensures
        ends_in(
            r#"</ul></div><div class="app-sidebar__user"><span class="app-sidebar__email">"#@,
            r#"<span class="app-sidebar__email">"#@,
        ),
        starts_as(
            r#"</span><div class="app-sidebar__user-actions">"#@,
            "</span>"@,
        ),
        ends_in(
            r#"</span><div class="app-sidebar__user-actions">"#@,
            r#"<div class="app-sidebar__user-actions">"#@,
        ),
        ends_in(
            r#"</button></form></div></div><div class="px-4 py-2 border-t border-base-300/60"><a href=""#@,
            r#"<a href=""#@,
        ),
        starts_as(
            r#"" class="text-[11px] leading-tight text-base-content/45 link link-hover" target="_blank""#@,
            r#"" class="#@,
        ),
{
    assert(ends_in(r#"</ul></div><div class="app-sidebar__user"><span class="app-sidebar__email">"#@, r#"<span class="app-sidebar__email">"#@)) by {
        reveal(ends_in);
        reveal_strlit(r#"</ul></div><div class="app-sidebar__user"><span class="app-sidebar__email">"#);
        reveal_strlit(r#"<span class="app-sidebar__email">"#);
        assert(r#"</ul></div><div class="app-sidebar__user"><span class="app-sidebar__email">"#@.skip(42) =~= r#"<span class="app-sidebar__email">"#@);
    }
    assert(starts_as(r#"</span><div class="app-sidebar__user-actions">"#@, "</span>"@)) by {
        reveal(starts_as);
        reveal_strlit(r#"</span><div class="app-sidebar__user-actions">"#);
        reveal_strlit("</span>");
        assert(r#"</span><div class="app-sidebar__user-actions">"#@.take(7) =~= "</span>"@);
    }
    assert(ends_in(r#"</span><div class="app-sidebar__user-actions">"#@, r#"<div class="app-sidebar__user-actions">"#@)) by {
        reveal(ends_in);
        reveal_strlit(r#"</span><div class="app-sidebar__user-actions">"#);
        reveal_strlit(r#"<div class="app-sidebar__user-actions">"#);
        assert(r#"</span><div class="app-sidebar__user-actions">"#@.skip(7) =~= r#"<div class="app-sidebar__user-actions">"#@);
    }
    assert(ends_in(r#"</button></form></div></div><div class="px-4 py-2 border-t border-base-300/60"><a href=""#@, r#"<a href=""#@)) by {
        reveal(ends_in);
        reveal_strlit(r#"</button></form></div></div><div class="px-4 py-2 border-t border-base-300/60"><a href=""#);
        reveal_strlit(r#"<a href=""#);
        assert(r#"</button></form></div></div><div class="px-4 py-2 border-t border-base-300/60"><a href=""#@.skip(79) =~= r#"<a href=""#@);
    }
    assert(starts_as(r#"" class="text-[11px] leading-tight text-base-content/45 link link-hover" target="_blank""#@, r#"" class="#@)) by {
        reveal(starts_as);
        reveal_strlit(r#"" class="text-[11px] leading-tight text-base-content/45 link link-hover" target="_blank""#);
        reveal_strlit(r#"" class="#);
        assert(r#"" class="text-[11px] leading-tight text-base-content/45 link link-hover" target="_blank""#@.take(8) =~= r#"" class="#@);
    }
}

/// The sidebar shows who is signed in and the switch away from the current theme, and signs
/// out.
#[verifier::rlimit(20)]
pub proof fn sidebar_shows_the_user(ui: &Ui, chrome: &Chrome, theme: Theme, active: Option<NavItem>, email: Seq<char>, admin: bool, chat: SidebarView)
    ensures
        ({
            let page = app_sidebar(ui, chrome, theme, active, email, admin, chat);
            &&& shows(page, r#"<span class="app-sidebar__email">"#@ + escaped(email) + "</span>"@)
            &&& theme == Theme::Light ==> shows(page, r#"<div class="app-sidebar__user-actions">"#@ + chrome.light_switch@ + r#"<form method="post" action="/auth/logout" class="m-0">"#@)
            &&& theme == Theme::Dark ==> shows(page, r#"<div class="app-sidebar__user-actions">"#@ + chrome.dark_switch@ + r#"<form method="post" action="/auth/logout" class="m-0">"#@)
            &&& shows(page, nav_links(ui, active, admin))
            &&& shows(page, r#"<form method="post" action="/chat/sessions""#@)
            &&& shows(page, r#"<a href=""#@ + escaped(chrome.source_url@) + r#"" class="#@)
        }),
{
    broadcast use group_shows;

    lemma_sidebar_shows_the_user();
    reveal(app_sidebar);
}

proof fn lemma_document_holds_the_page()
    ensures
        ends_in(
            r#"<meta name="viewport" content="width=device-width, initial-scale=1"><title>"#@,
            "<title>"@,
        ),
        starts_as(
            r#"</title><link rel="stylesheet" href=""#@,
            "</title>"@,
        ),
        ends_in(
            r#"<!DOCTYPE html><html lang="en" data-theme=""#@,
            r#"data-theme=""#@,
        ),
        starts_as(
            r#""><head><meta charset="utf-8">"#@,
            r#""><head>"#@,
        ),
        ends_in(
            r#"</label><main class=""#@,
            r#"<main class=""#@,
        ),
        starts_as(
            r#"</main></div><div class="drawer-side z-40">"#@,
            "</main>"@,
        ),
        ends_in(
            r#"</title><link rel="stylesheet" href=""#@,
            r#"<link rel="stylesheet" href=""#@,
        ),
        starts_as(
            r#""><head><meta charset="utf-8">"#@,
            r#"">"#@,
        ),
        starts_as(
            r#""></script><script type="module" src=""#@,
            r#"">"#@,
        ),
        starts_as(
            r#""></script></head><body class="bg-base-100 text-base-content">"#@,
            r#"">"#@,
        ),
        starts_as(
            r#""><script src=""#@,
            r#"">"#@,
        ),
        ends_in(
            r#""><script src=""#@,
            r#"<script src=""#@,
        ),
        starts_as(
            r#"" defer="defer" data-pcm-recorder=""#@,
            r#"" defer="defer""#@,
        ),
        ends_in(
            r#""></script><script type="module" src=""#@,
            r#"<script type="module" src=""#@,
        ),
{
    assert(ends_in(r#"<meta name="viewport" content="width=device-width, initial-scale=1"><title>"#@, "<title>"@)) by {
        reveal(ends_in);
        reveal_strlit(r#"<meta name="viewport" content="width=device-width, initial-scale=1"><title>"#);
        reveal_strlit("<title>");
        assert(r#"<meta name="viewport" content="width=device-width, initial-scale=1"><title>"#@.skip(68) =~= "<title>"@);
    }
    assert(starts_as(r#"</title><link rel="stylesheet" href=""#@, "</title>"@)) by {
        reveal(starts_as);
        reveal_strlit(r#"</title><link rel="stylesheet" href=""#);
        reveal_strlit("</title>");
        assert(r#"</title><link rel="stylesheet" href=""#@.take(8) =~= "</title>"@);
    }
    assert(ends_in(r#"<!DOCTYPE html><html lang="en" data-theme=""#@, r#"data-theme=""#@)) by {
        reveal(ends_in);
        reveal_strlit(r#"<!DOCTYPE html><html lang="en" data-theme=""#);
        reveal_strlit(r#"data-theme=""#);
        assert(r#"<!DOCTYPE html><html lang="en" data-theme=""#@.skip(31) =~= r#"data-theme=""#@);
    }
    assert(starts_as(r#""><head><meta charset="utf-8">"#@, r#""><head>"#@)) by {
        reveal(starts_as);
        reveal_strlit(r#""><head><meta charset="utf-8">"#);
        reveal_strlit(r#""><head>"#);
        assert(r#""><head><meta charset="utf-8">"#@.take(8) =~= r#""><head>"#@);
    }
    assert(ends_in(r#"</label><main class=""#@, r#"<main class=""#@)) by {
        reveal(ends_in);
        reveal_strlit(r#"</label><main class=""#);
        reveal_strlit(r#"<main class=""#);
        assert(r#"</label><main class=""#@.skip(8) =~= r#"<main class=""#@);
    }
    assert(starts_as(r#"</main></div><div class="drawer-side z-40">"#@, "</main>"@)) by {
        reveal(starts_as);
        reveal_strlit(r#"</main></div><div class="drawer-side z-40">"#);
        reveal_strlit("</main>");
        assert(r#"</main></div><div class="drawer-side z-40">"#@.take(7) =~= "</main>"@);
    }
    assert(ends_in(r#"</title><link rel="stylesheet" href=""#@, r#"<link rel="stylesheet" href=""#@)) by {
        reveal(ends_in);
        reveal_strlit(r#"</title><link rel="stylesheet" href=""#);
        reveal_strlit(r#"<link rel="stylesheet" href=""#);
        assert(r#"</title><link rel="stylesheet" href=""#@.skip(8) =~= r#"<link rel="stylesheet" href=""#@);
    }
    assert(starts_as(r#""><head><meta charset="utf-8">"#@, r#"">"#@)) by {
        reveal(starts_as);
        reveal_strlit(r#""><head><meta charset="utf-8">"#);
        reveal_strlit(r#"">"#);
        assert(r#""><head><meta charset="utf-8">"#@.take(2) =~= r#"">"#@);
    }
    assert(starts_as(r#""></script><script type="module" src=""#@, r#"">"#@)) by {
        reveal(starts_as);
        reveal_strlit(r#""></script><script type="module" src=""#);
        reveal_strlit(r#"">"#);
        assert(r#""></script><script type="module" src=""#@.take(2) =~= r#"">"#@);
    }
    assert(starts_as(r#""></script></head><body class="bg-base-100 text-base-content">"#@, r#"">"#@)) by {
        reveal(starts_as);
        reveal_strlit(r#""></script></head><body class="bg-base-100 text-base-content">"#);
        reveal_strlit(r#"">"#);
        assert(r#""></script></head><body class="bg-base-100 text-base-content">"#@.take(2) =~= r#"">"#@);
    }
    assert(starts_as(r#""><script src=""#@, r#"">"#@)) by {
        reveal(starts_as);
        reveal_strlit(r#""><script src=""#);
        reveal_strlit(r#"">"#);
        assert(r#""><script src=""#@.take(2) =~= r#"">"#@);
    }
    assert(ends_in(r#""><script src=""#@, r#"<script src=""#@)) by {
        reveal(ends_in);
        reveal_strlit(r#""><script src=""#);
        reveal_strlit(r#"<script src=""#);
        assert(r#""><script src=""#@.skip(2) =~= r#"<script src=""#@);
    }
    assert(starts_as(r#"" defer="defer" data-pcm-recorder=""#@, r#"" defer="defer""#@)) by {
        reveal(starts_as);
        reveal_strlit(r#"" defer="defer" data-pcm-recorder=""#);
        reveal_strlit(r#"" defer="defer""#);
        assert(r#"" defer="defer" data-pcm-recorder=""#@.take(15) =~= r#"" defer="defer""#@);
    }
    assert(ends_in(r#""></script><script type="module" src=""#@, r#"<script type="module" src=""#@)) by {
        reveal(ends_in);
        reveal_strlit(r#""></script><script type="module" src=""#);
        reveal_strlit(r#"<script type="module" src=""#);
        assert(r#""></script><script type="module" src=""#@.skip(11) =~= r#"<script type="module" src=""#@);
    }
}

/// The document holds the page, its title and its sidebar, in the theme of the user; the
/// main part is laid out for a chat if and only if a chat is open.
#[verifier::rlimit(30)]
pub proof fn document_holds_the_page(ui: &Ui, chrome: &Chrome, theme: Theme, active: Option<NavItem>, title: Seq<char>, email: Seq<char>, admin: bool, body: Seq<char>, chat: SidebarView)
    ensures
        ({
            let page = document(ui, chrome, theme, active, title, email, admin, body, chat);
            &&& shows(page, "<title>"@ + escaped(title) + "</title>"@)
            &&& theme == Theme::Light ==> shows(page, r#"data-theme=""#@ + escaped("light"@) + r#"" class=""#@ + escaped("light"@) + r#""><head>"#@)
            &&& theme == Theme::Dark ==> shows(page, r#"data-theme=""#@ + escaped("dark"@) + r#"" class=""#@ + escaped("dark"@) + r#""><head>"#@)
            &&& active == Some(NavItem::Chat) ==> shows(page, r#"<main class=""#@ + escaped("chat-main relative flex-1 min-h-0 flex flex-col w-full max-w-5xl mx-auto px-4 sm:px-6 sm:pt-4"@) + r#"">"#@ + body + "</main>"@)
            &&& active != Some(NavItem::Chat) ==> shows(page, r#"<main class=""#@ + escaped("flex-1 min-h-0 overflow-y-auto"@) + r#"">"#@ + body + "</main>"@)
            &&& shows(page, app_sidebar(ui, chrome, theme, active, email, admin, chat))
            &&& shows(page, r#"<link rel="stylesheet" href=""#@ + escaped(chrome.css_href@) + r#"">"#@)
            &&& shows(page, r#"<script src=""#@ + escaped(chrome.app_src@) + r#"" defer="defer""#@)
            &&& shows(page, r#"<script type="module" src=""#@ + escaped(chrome.datastar_src@) + r#"">"#@)
        }),
{
    broadcast use group_shows;

    lemma_document_holds_the_page();
}

proof fn lemma_sign_in_carries_the_return()
    ensures
        shows(
            r#" requests.</p><form action="/auth/login" method="get" class="mt-2">"#@,
            r#"<form action="/auth/login" method="get""#@,
        ),
{
    assert(shows(r#" requests.</p><form action="/auth/login" method="get" class="mt-2">"#@, r#"<form action="/auth/login" method="get""#@)) by {
        reveal(shows);
        reveal_strlit(r#" requests.</p><form action="/auth/login" method="get" class="mt-2">"#);
        reveal_strlit(r#"<form action="/auth/login" method="get""#);
        assert(r#" requests.</p><form action="/auth/login" method="get" class="mt-2">"#@.subrange(14, 53) =~= r#"<form action="/auth/login" method="get""#@);
        assert(occurs_at(r#" requests.</p><form action="/auth/login" method="get" class="mt-2">"#@, r#"<form action="/auth/login" method="get""#@, 14));
    }
}

/// The page to sign in carries where to return to, if anywhere.
pub proof fn sign_in_carries_the_return(rt: String, source: Seq<char>)
    ensures
        ({
            let page = login_page(Some(rt), source);
            &&& shows(page, r#"<input type="hidden" name="return_to" value=""#@ + escaped(rt@) + r#"">"#@)
            &&& shows(page, r#"<form action="/auth/login" method="get""#@)
        }),
{
    broadcast use group_shows;

    lemma_sign_in_carries_the_return();
}

proof fn lemma_an_error_page_tells_the_error()
    ensures
        ends_in(
            r#"<div class="flex-1"><div class="font-bold">"#@,
            r#"<div class="font-bold">"#@,
        ),
{
    assert(ends_in(r#"<div class="flex-1"><div class="font-bold">"#@, r#"<div class="font-bold">"#@)) by {
        reveal(ends_in);
        reveal_strlit(r#"<div class="flex-1"><div class="font-bold">"#);
        reveal_strlit(r#"<div class="font-bold">"#);
        assert(r#"<div class="flex-1"><div class="font-bold">"#@.skip(20) =~= r#"<div class="font-bold">"#@);
    }
}

/// A page of an error tells it, under its own heading.
pub proof fn an_error_page_tells_the_error(ui: &Ui, forbidden: bool, message: Seq<char>)
    ensures
        ({
            let page = error_body(ui, forbidden, message);
            &&& shows(page, "</div><div>"@ + escaped(message) + "</div></div></div>"@)
            &&& forbidden ==> shows(page, r#"<div class="font-bold">"#@ + "Forbidden"@ + "</div><div>"@)
            &&& !forbidden ==> shows(page, r#"<div class="font-bold">"#@ + "Internal error"@ + "</div><div>"@)
        }),
{
    broadcast use group_shows;

    lemma_an_error_page_tells_the_error();
}

/// Every conversation has its row in the sidebar.
pub proof fn every_conversation_is_listed(
    ui: &Ui,
    chrome: &Chrome,
    theme: Theme,
    active: Option<NavItem>,
    email: Seq<char>,
    admin: bool,
    chat: SidebarView,
    i: int,
)
    requires
        0 <= i < chat.sessions.len(),
    ensures
        shows(
            app_sidebar(ui, chrome, theme, active, email, admin, chat),
            session_row(chat.sessions[i], chat.open, ui),
        ),
{
    broadcast use group_shows;

    lemma_conversation_is_listed(ui, chat.sessions, chat.open, i);
    reveal(app_sidebar);
}

proof fn lemma_conversation_is_listed(
    ui: &Ui,
    sessions: Seq<SidebarSession>,
    open: Option<Seq<char>>,
    i: int,
)
    requires
        0 <= i < sessions.len(),
    ensures
        shows(session_rows(ui, sessions, open), session_row(sessions[i], open, ui)),
    decreases sessions.len(),
{
    broadcast use group_shows;

    if i < sessions.len() - 1 {
        lemma_conversation_is_listed(ui, sessions.drop_last(), open, i);
    }
}

/// A page is opened as a document where there are no scripts, and by changing the one
/// that is open where there are: the main part, the sidebar, the title and the address
/// are then those of the new page.
pub proof fn a_page_opens_either_way(
    ui: &Ui,
    chrome: &Chrome,
    theme: Theme,
    scripted: bool,
    active: NavItem,
    title: &str,
    email: &str,
    admin: bool,
    body: Html,
    url: &str,
    chat: &SidebarChat,
    r: Page,
)
    requires
        call_ensures(
            nav_or_html_page,
            (ui, chrome, theme, scripted, active, title, email, admin, body, url, chat),
            r,
        ),
    ensures
        !scripted ==> r is Document && r->html@ == document(
            ui,
            chrome,
            theme,
            Some(active),
            title@,
            email@,
            admin,
            body@,
            chat@,
        ),
        scripted ==> r is Changes && {
            let changes = views(r->updates@);
            &&& changes.len() == 4
            &&& changes[0] is Patch
            &&& changes[0]->selector == "main"@
            &&& changes[0]->mode == "outer"@
            &&& shows(changes[0]->markup, body@)
            &&& changes[1] == patch(
                "#app-sidebar"@,
                "outer"@,
                app_sidebar(ui, chrome, theme, Some(active), email@, admin, chat@),
            )
            &&& changes[2] == patch(
                "title"@,
                "outer"@,
                "<title>"@ + escaped(title@) + "</title>"@,
            )
            &&& changes[3] is Script
            &&& shows(changes[3]->code, json_text(url@))
        },
{
    broadcast use group_shows;

}

/// An address is local if it is a path that cannot be read as another site's: one slash,
/// and nothing behind it that a browser would take for a second one.
pub proof fn a_local_address_is_a_path(p: Seq<char>)
    ensures
        is_local(p) <==> p.len() > 0 && p[0] == '/' && (p.len() > 1 ==> p[1] != '/' && p[1] != '\\'
            && p[1] != '\t' && p[1] != '\n' && p[1] != '\r'),
{
}

/// Whoever signs in returns to where they asked for, if that is local, and not elsewhere.
pub proof fn only_a_local_return_is_kept(return_to: Option<String>, r: Option<String>)
    requires
        call_ensures(safe_return, (return_to,), r),
    ensures
        return_to is Some && is_local(return_to->0@) ==> r == return_to,
        return_to is None || !is_local(return_to->0@) ==> r is None,
{
}

/// Whoever is not signed in is sent to sign in; a page that was asked for by its address
/// is remembered, but not the one to sign in itself, nor what was sent.
pub proof fn a_visitor_signs_in_first(p: Seq<char>)
    ensures
        login_target(false, Some(p)) == "/login"@,
        login_target(true, None) == "/login"@,
        !is_local(p) ==> login_target(true, Some(p)) == "/login"@,
        "/login"@.is_prefix_of(p) ==> login_target(true, Some(p)) == "/login"@,
{
}

/// The pages of administrators are for those with that role; everyone else is told, with
/// the status of a refusal.
pub proof fn administrators_have_the_role(
    ui: &Ui,
    chrome: &Chrome,
    role_ids: &Vec<String>,
    email: &str,
    message: &str,
    r: Option<ErrorPage>,
    admin: bool,
    failed: ErrorPage,
    forbidden: ErrorPage,
)
    requires
        call_ensures(require_admin_or_403, (ui, chrome, role_ids, email), r),
        call_ensures(is_admin, (role_ids,), admin),
        call_ensures(internal_error_html, (ui, chrome, email, message), failed),
        call_ensures(forbidden_html, (ui, chrome, email, message), forbidden),
    ensures
        admin <==> exists|k: int| 0 <= k < role_ids@.len() && (#[trigger] role_ids@[k])@ == "admin"@,
        r is None <==> admin,
        r matches Some(p) ==> p.status == 403 && shows(p.html@, escaped("admin role required"@)),
        failed.status == 500,
        shows(failed.html@, error_body(ui, false, message@)),
        forbidden.status == 403,
        shows(forbidden.html@, error_body(ui, true, message@)),
{
    broadcast use group_shows;

    crate::integrations::a_listed_text_is_in_the_list(role_ids@, "admin"@);
}

/// A link of the navigation gets its page, and shuts the drawer first where it stands in
/// one; only the page of a conversation keeps its parts in place.
pub proof fn a_link_gets_its_page(href: &str, get: String, drawer: String)
    requires
        call_ensures(nav_get_directive, (href,), get),
        call_ensures(sidebar_nav_directive, (href,), drawer),
    ensures
        get@ == "@get('"@ + href@ + "')"@,
        drawer@ == "document.getElementById('app-sidebar-toggle').checked = false; "@ + get@,
        main_class(None) == "flex-1 min-h-0 overflow-y-auto"@,
        forall|n: NavItem|
            n != NavItem::Chat ==> #[trigger] main_class(Some(n)) == main_class(None),
        main_class(Some(NavItem::Chat)) != main_class(None),
{
    reveal_strlit("flex-1 min-h-0 overflow-y-auto");
    reveal_strlit(
        "chat-main relative flex-1 min-h-0 flex flex-col w-full max-w-5xl mx-auto px-4 sm:px-6 sm:pt-4",
    );
    assert(main_class(None)[0] == 'f');
    assert(main_class(Some(NavItem::Chat))[0] == 'c');
}

} // verus!
