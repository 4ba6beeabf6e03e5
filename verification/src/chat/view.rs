//! What is decided around the page of a conversation: who may do what, and what
//! an action is answered with.
use crate::chat::capabilities::{
    are_rows_of, build_capabilities, menu, menu_rows, CapabilitySources, CapabilityView,
};
use crate::chat::effort::{effort_named, Effort};
use crate::chat::models::{configured_place, moved, option_ids, promote, promote_option};
use crate::chat::render::{render_share_control, share_control, CapabilityRow};
use crate::chat::Session;
use crate::compliance::ChatModelOption;
use crate::html::{concat, concat_html, Html, Ui};
use crate::notice::{said, Notice};
use crate::num::{decimal, show_u64};
use crate::text::{opt_text, same, string_or_empty, text_or_empty, texts, trim, trimmed};
use crate::updates::{
    pair, patch, single, toast, views, Answer, AnswerView, FlashKind, Update, UpdateView,
};
use vstd::prelude::*;

verus! {

/// The address of a conversation.
pub open spec fn chat_path(id: Seq<char>) -> Seq<char> {
    "/chat/"@ + id
}

/// The address of a conversation.
pub fn session_path(id: &str) -> (r: String)
    ensures
        r@ == chat_path(id@),
{
    let mut out = "/chat/".to_owned();
    out.append(id);
    out
}

// ---------------------------------------------------------------------------
// Opening a conversation

/// A worker that is writing a reply.
pub struct Worker {
    pub session_id: String,
    pub turn_id: String,
}

/// The reply that a worker writes in a conversation.
pub open spec fn live_turn(worker: Option<&Worker>, session_id: Seq<char>) -> Option<Seq<char>> {
    match worker {
        Some(w) => if w.session_id@ == session_id {
            Some(w.turn_id@)
        } else {
            None
        },
        None => None,
    }
}

fn find_live_turn(worker: Option<&Worker>, session_id: &str) -> (r: Option<String>)
    ensures
        opt_text(r) == live_turn(worker, session_id@),
{
    match worker {
        Some(w) => if same(&w.session_id, session_id) {
            Some(w.turn_id.clone())
        } else {
            None
        },
        None => None,
    }
}

/// Whether the viewer of a conversation is not its owner.
pub open spec fn is_reader(session: Session, viewer: Seq<char>) -> bool {
    session.user_id@ != viewer
}

/// How a conversation is opened.
pub struct ViewPlan {
    pub read_only: bool,
    /// Whether replies that nobody writes any more are marked as failed first,
    /// all but the one given.
    pub sweep: Option<Option<String>>,
}

/// Decides how a conversation is opened. Only its owner's view changes it: the
/// worker slot of another user says nothing about its replies, so a reader's
/// view would mark one as failed that is being written.
pub fn plan_view(session: &Session, viewer: &str, worker: Option<&Worker>) -> (r: ViewPlan)
    ensures
        r.read_only == is_reader(*session, viewer@),
        match r.sweep {
            Some(exempt) => !r.read_only && opt_text(exempt) == live_turn(worker, session.id@),
            None => r.read_only,
        },
{
    if !same(&session.user_id, viewer) {
        ViewPlan { read_only: true, sweep: None }
    } else {
        ViewPlan { read_only: false, sweep: Some(find_live_turn(worker, &session.id)) }
    }
}

/// The reply that the page follows: a reader gets a still picture.
pub fn followed_turn(read_only: bool, in_flight: Option<String>) -> (r: Option<String>)
    ensures
        r == (if read_only {
            None
        } else {
            in_flight
        }),
{
    if read_only {
        None
    } else {
        in_flight
    }
}

/// Whether the page offers to talk: it takes a voice and an ear.
pub fn voice_available(
    read_only: bool,
    has_speech: bool,
    transcription_models: &Vec<String>,
) -> (r: bool)
    ensures
        r == (!read_only && has_speech && transcription_models@.len() > 0),
{
    !read_only && has_speech && transcription_models.len() > 0
}

/// What the owner of a conversation has set for it.
pub struct Settings {
    pub effort: Option<String>,
    pub sources: CapabilitySources,
}

/// The models that a user can choose from, and the one to start with.
pub struct Offer<T> {
    pub models: Vec<T>,
    pub configured: Option<String>,
}

/// What is known when a conversation is opened. The settings are read for the
/// owner only.
pub struct PageFacts {
    pub in_flight: Option<String>,
    pub chat: Offer<ChatModelOption>,
    pub transcription: Offer<String>,
    pub settings: Option<Settings>,
    pub has_speech: bool,
}

/// What the page of a conversation is drawn from.
pub struct PageState {
    pub in_flight_turn_id: Option<String>,
    pub models: Vec<ChatModelOption>,
    pub transcription_models: Vec<String>,
    pub effort: Effort,
    pub capabilities: Vec<CapabilityRow>,
    pub voice: bool,
}

/// The effort that a page shows: a reader sees the standard one.
pub open spec fn shown_effort(read_only: bool, settings: Option<Settings>) -> Effort {
    match settings {
        Some(s) => if read_only {
            Effort::Standard
        } else {
            effort_named(opt_text(s.effort))
        },
        None => Effort::Standard,
    }
}

/// The menu that a page shows: a reader sees none.
pub open spec fn shown_menu(ui: &Ui, read_only: bool, settings: Option<Settings>) -> Seq<
    CapabilityView,
> {
    match settings {
        Some(s) => if read_only {
            Seq::empty()
        } else {
            menu(ui, &s.sources)
        },
        None => Seq::empty(),
    }
}

/// Puts together what the page of a conversation is drawn from. A reader gets a
/// still picture without the settings of the owner.
pub fn page_state(ui: &Ui, read_only: bool, facts: PageFacts) -> (r: PageState)
    ensures
        opt_text(r.in_flight_turn_id) == (if read_only {
            None
        } else {
            opt_text(facts.in_flight)
        }),
        r.models@ == moved(
            facts.chat.models@,
            configured_place(option_ids(facts.chat.models@), opt_text(facts.chat.configured)),
        ),
        r.transcription_models@ == moved(
            facts.transcription.models@,
            configured_place(
                texts(facts.transcription.models@),
                opt_text(facts.transcription.configured),
            ),
        ),
        r.effort == shown_effort(read_only, facts.settings),
        are_rows_of(r.capabilities@, shown_menu(ui, read_only, facts.settings)),
        r.voice == (!read_only && facts.has_speech && facts.transcription.models@.len() > 0),
{
    let models = promote_option(&facts.chat.configured, facts.chat.models);
    let transcription_models = promote(&facts.transcription.configured, facts.transcription.models);
    let mut effort = Effort::Standard;
    let mut capabilities: Vec<CapabilityRow> = Vec::new();
    if !read_only {
        if let Some(settings) = &facts.settings {
            effort = match &settings.effort {
                Some(word) => Effort::from_db(Some(word.as_str())),
                None => Effort::from_db(None),
            };
            capabilities = menu_rows(&build_capabilities(ui, &settings.sources));
        }
    }
    let voice = voice_available(read_only, facts.has_speech, &transcription_models);
    PageState {
        in_flight_turn_id: followed_turn(read_only, facts.in_flight),
        models,
        transcription_models,
        effort,
        capabilities,
        voice,
    }
}

/// What a reader is shown does not depend on what the owner has set.
pub proof fn settings_are_the_owners(ui: &Ui, a: Option<Settings>, b: Option<Settings>)
    ensures
        shown_effort(true, a) == shown_effort(true, b),
        shown_menu(ui, true, a) == shown_menu(ui, true, b),
{
}

/// The title of the page of a conversation.
pub open spec fn window_title(ui: &Ui, session: Session) -> Seq<char> {
    (match session.title {
        Some(t) => t@,
        None => ui.message("chat-default-title"@),
    }) + " — LLM Gateway"@
}

/// Makes the title of the page of a conversation.
pub fn page_title(ui: &Ui, session: &Session) -> (r: String)
    ensures
        r@ == window_title(ui, *session),
{
    let mut out = match &session.title {
        Some(t) => t.clone(),
        None => ui.t("chat-default-title"),
    };
    out.append(" — LLM Gateway");
    out
}

/// What a request to follow a reply is answered with.
pub enum TailPlan {
    /// Nothing: the conversation cannot be read.
    Nothing,
    /// That no reply is being written.
    Idle { update: Update },
    /// What the worker says about this reply.
    Follow { turn_id: String },
}

/// Decides what a request to follow a reply is answered with. Workers belong to
/// the owner, so a reader is told that no reply is being written.
pub fn plan_tail(readable: bool, worker: Option<&Worker>, session_id: &str) -> (r: TailPlan)
    ensures
        match r {
            TailPlan::Nothing => !readable,
            TailPlan::Idle { update } => {
                &&& readable
                &&& live_turn(worker, session_id@) is None
                &&& update@ == (UpdateView::Signals { json: "{\"chatStreaming\":false}"@ })
            },
            TailPlan::Follow { turn_id } => {
                &&& readable
                &&& live_turn(worker, session_id@) == Some(turn_id@)
            },
        },
{
    if !readable {
        return TailPlan::Nothing;
    }
    match find_live_turn(worker, session_id) {
        Some(turn_id) => TailPlan::Follow { turn_id },
        None => TailPlan::Idle {
            update: Update::Signals { json: "{\"chatStreaming\":false}".to_owned() },
        },
    }
}

// ---------------------------------------------------------------------------
// Sharing, pinning, copying, deleting

/// What sharing or unsharing is answered with. What is said comes from what is
/// now stored, so a click on an old page never claims the opposite. Without
/// scripts the page is loaded again.
pub fn share_answer(ui: &Ui, session_id: &str, now_shared: bool, scripted: bool) -> (r: Answer)
    ensures
        r@ == (if !scripted {
            AnswerView::SeeOther { to: chat_path(session_id@) }
        } else {
            AnswerView::Changes {
                updates: seq![
                    patch(
                        "#share-toggle"@,
                        "outer"@,
                        share_control(
                            crate::chat::render::session_url(session_id@, "/share"@),
                            now_shared,
                        ),
                    ),
                    if now_shared {
                        toast(FlashKind::Success, ui.message("chat-toast-share-copied"@))
                    } else {
                        toast(FlashKind::Info, ui.message("chat-toast-share-stopped"@))
                    },
                ],
            }
        }),
{
    if !scripted {
        return Answer::SeeOther { to: session_path(session_id) };
    }
    let mut url = session_path(session_id);
    url.append("/share");
    let control = render_share_control(&url, now_shared).to_string();
    let said = if now_shared {
        Update::toast(FlashKind::Success, &ui.t("chat-toast-share-copied"))
    } else {
        Update::toast(FlashKind::Info, &ui.t("chat-toast-share-stopped"))
    };
    Answer::Changes { updates: pair(Update::patch("#share-toggle", "outer", &control), said) }
}

/// The open conversation that a form names, if it names one.
pub open spec fn open_chat(active: Seq<char>) -> Option<Seq<char>> {
    if active.len() == 0 {
        None
    } else {
        Some(active)
    }
}

/// Reads the open conversation that a form names.
pub fn read_open_chat(active: String) -> (r: Option<String>)
    ensures
        opt_text(r) == open_chat(active@),
{
    if active.as_str().is_empty() {
        None
    } else {
        Some(active)
    }
}

/// What pinning or unpinning is answered with: the whole list, as the row moves.
/// Without scripts the open conversation is loaded again.
pub fn pin_answer(
    ui: &Ui,
    now_pinned: bool,
    active: &Option<String>,
    scripted: bool,
    list: &Html,
) -> (r: Answer)
    ensures
        r@ == (if !scripted {
            AnswerView::SeeOther {
                to: match *active {
                    Some(id) => chat_path(id@),
                    None => "/chat"@,
                },
            }
        } else {
            AnswerView::Changes {
                updates: seq![
                    patch("#session-list"@, "outer"@, list@),
                    if now_pinned {
                        toast(FlashKind::Success, ui.message("chat-toast-pinned"@))
                    } else {
                        toast(FlashKind::Info, ui.message("chat-toast-unpinned"@))
                    },
                ],
            }
        }),
{
    if !scripted {
        return Answer::SeeOther {
            to: match active {
                Some(id) => session_path(id),
                None => "/chat".to_owned(),
            },
        };
    }
    let said = if now_pinned {
        Update::toast(FlashKind::Success, &ui.t("chat-toast-pinned"))
    } else {
        Update::toast(FlashKind::Info, &ui.t("chat-toast-unpinned"))
    };
    Answer::Changes { updates: pair(Update::patch("#session-list", "outer", &list.text), said) }
}

/// Whether a conversation is copied for a viewer: it is not for its owner, who
/// is told so, or shown it again without scripts.
pub fn fork_refusal(ui: &Ui, source: &Session, viewer: &str, scripted: bool) -> (r: Option<Answer>)
    ensures
        r is None <==> is_reader(*source, viewer@),
        r matches Some(a) ==> a@ == (if !scripted {
            AnswerView::SeeOther { to: chat_path(source.id@) }
        } else {
            AnswerView::Changes {
                updates: seq![
                    toast(FlashKind::Info, ui.message("chat-toast-already-in-your-chats"@)),
                ],
            }
        }),
{
    if !same(&source.user_id, viewer) {
        return None;
    }
    if !scripted {
        return Some(Answer::SeeOther { to: session_path(&source.id) });
    }
    Some(
        Answer::Changes {
            updates: single(
                Update::toast(FlashKind::Info, &ui.t("chat-toast-already-in-your-chats")),
            ),
        },
    )
}

/// What deleting a conversation that is not there is answered with.
pub fn already_gone(ui: &Ui) -> (r: Vec<Update>)
    ensures
        views(r@) == seq![
            toast(FlashKind::Info, ui.message("chat-toast-conversation-already-gone"@)),
        ],
{
    single(Update::toast(FlashKind::Info, &ui.t("chat-toast-conversation-already-gone")))
}

/// What setting the effort is answered with.
pub fn effort_answer(ui: &Ui, session_id: &str, effort: Effort, scripted: bool) -> (r: Answer)
    ensures
        r@ == (if !scripted {
            AnswerView::SeeOther { to: chat_path(session_id@) }
        } else {
            AnswerView::Changes {
                updates: seq![
                    toast(
                        FlashKind::Success,
                        ui.message_with("chat-toast-effort-set"@, "level"@, effort.name()),
                    ),
                ],
            }
        }),
{
    if !scripted {
        return Answer::SeeOther { to: session_path(session_id) };
    }
    let message = ui.t_with("chat-toast-effort-set", "level", effort.label());
    Answer::Changes { updates: single(Update::toast(FlashKind::Success, &message)) }
}

// ---------------------------------------------------------------------------
// Turns

/// Who wrote a turn.
#[derive(Clone, Copy, PartialEq, Eq, Structural, Debug)]
pub enum TurnRole {
    User,
    Assistant,
}

/// Where a turn stands.
#[derive(Clone, Copy, PartialEq, Eq, Structural, Debug)]
pub enum TurnStatus {
    InProgress,
    Completed,
    Errored,
    Cancelled,
}

/// A turn of a conversation.
pub struct Turn {
    pub id: String,
    pub seq: i64,
    pub role: TurnRole,
    pub status: TurnStatus,
    pub user_content: Option<String>,
    pub content: Option<String>,
}

/// The turn of an address.
pub struct TurnPath {
    pub id: String,
    pub turn_id: String,
}

/// The attachment of an address, to be removed.
pub struct AttachmentRemovePath {
    pub id: String,
    pub turn_id: String,
    pub filename: String,
}

/// The attachment of an address.
pub struct AttachmentPath {
    pub turn_id: String,
    pub filename: String,
}

/// What is said of a turn that the caller cannot work on.
pub fn load_owned_turn(owns_session: bool, turn_found: bool) -> (r: Option<Notice>)
    ensures
        match r {
            None => owns_session && turn_found,
            Some(n) => n@ == (if !owns_session {
                said(false, "chat-error-conversation-not-found"@)
            } else {
                said(false, "chat-error-message-not-found"@)
            }) && !(owns_session && turn_found),
        },
{
    if !owns_session {
        Some(Notice::plain(false, "chat-error-conversation-not-found"))
    } else if !turn_found {
        Some(Notice::plain(false, "chat-error-message-not-found"))
    } else {
        None
    }
}

/// Where a conversation is cut off to repeat a reply: at the reply itself.
pub fn plan_retry(turn: &Turn) -> (r: Result<i64, Notice>)
    ensures
        r is Ok <==> turn.role == TurnRole::Assistant,
        match r {
            Ok(seq) => seq == turn.seq,
            Err(n) => n@ == said(false, "chat-error-retry-assistant-only"@),
        },
{
    if turn.role != TurnRole::Assistant {
        Err(Notice::plain(false, "chat-error-retry-assistant-only"))
    } else {
        Ok(turn.seq)
    }
}

/// Whether a turn can be edited: a message can, a reply cannot.
pub fn check_edit(turn: &Turn) -> (r: Option<Notice>)
    ensures
        r is None <==> turn.role == TurnRole::User,
        r matches Some(n) ==> n@ == said(false, "chat-error-edit-own-messages-only"@),
{
    if turn.role != TurnRole::User {
        Some(Notice::plain(false, "chat-error-edit-own-messages-only"))
    } else {
        None
    }
}

/// An edited message and where the conversation is cut off.
pub struct EditPlan {
    pub text: String,
    pub cut_from: i64,
}

/// Whether a form carries files.
pub fn carries_files(content_type: &str) -> (r: bool)
    ensures
        r == "multipart/form-data"@.is_prefix_of(content_type@),
{
    crate::text::starts_with(content_type, "multipart/form-data")
}

/// The text of an edited message: as put together where it came with files, else
/// trimmed.
pub open spec fn edited_text(with_files: bool, text: Seq<char>) -> Seq<char> {
    if with_files {
        text
    } else {
        trimmed(text)
    }
}

/// Decides how an edited message is stored: everything below it goes.
pub fn plan_edit(turn: &Turn, with_files: bool, text: String) -> (r: Result<EditPlan, Notice>)
    requires
        turn.seq < i64::MAX,
    ensures
        r is Err <==> edited_text(with_files, text@).len() == 0,
        match r {
            Ok(p) => p.text@ == edited_text(with_files, text@) && p.cut_from == turn.seq + 1,
            Err(n) => n@ == said(false, "chat-error-message-must-not-be-empty"@),
        },
{
    let text = if with_files {
        text
    } else {
        trim(&text)
    };
    if text.as_str().is_empty() {
        Err(Notice::plain(false, "chat-error-message-must-not-be-empty"))
    } else {
        Ok(EditPlan { text, cut_from: turn.seq + 1 })
    }
}

/// The text of a turn that holds the markers of its files: what the user wrote,
/// or what the model wrote.
pub open spec fn marked_text(turn: Turn) -> Seq<char> {
    if turn.role == TurnRole::User {
        text_or_empty(opt_text(turn.user_content))
    } else {
        text_or_empty(opt_text(turn.content))
    }
}

/// Picks the text of a turn that holds the markers of its files, and tells
/// whether it is the user's.
pub fn attachment_text(turn: &Turn) -> (r: (bool, String))
    ensures
        r.0 == (turn.role == TurnRole::User),
        r.1@ == marked_text(*turn),
{
    if turn.role == TurnRole::User {
        (true, string_or_empty(&turn.user_content))
    } else {
        (false, string_or_empty(&turn.content))
    }
}

/// The changed turn on the page.
pub fn turn_changed(turn_id: &str, markup: &Html) -> (r: Update)
    ensures
        r@ == patch("#turn-"@ + turn_id@, "outer"@, markup@),
{
    let mut selector = "#turn-".to_owned();
    selector.append(turn_id);
    Update::patch(&selector, "outer", &markup.text)
}

/// The bubbles of a new message and its reply on the page.
pub fn new_bubbles(message: Html, reply: Html) -> (r: Update)
    ensures
        r@ == patch("#conversation"@, "append"@, message@ + reply@),
{
    let markup = message.html(reply);
    Update::patch("#conversation", "append", &markup.text)
}

/// The whole conversation on the page. What was cut off is gone, and the frame
/// stays.
pub fn whole_conversation(turns: &Vec<Html>) -> (r: Update)
    ensures
        r@ == patch("#conversation"@, "inner"@, concat(turns@)),
{
    let markup = concat_html(turns);
    Update::patch("#conversation", "inner", &markup.text)
}

/// A document on the page.
pub fn document_shown(markup: &Html) -> (r: Update)
    ensures
        r@ == patch("#document-canvas-slot"@, "inner"@, markup@),
{
    Update::patch("#document-canvas-slot", "inner", &markup.text)
}

/// The values that the page keeps about the files of a conversation.
pub open spec fn asset_signals(count: nat) -> Seq<char> {
    if count == 0 {
        "{\"hasAssets\": false, \"assetCount\": 0}"@
    } else {
        "{\"hasCanvas\": true, \"hasAssets\": true, \"assetCount\": "@ + decimal(count) + "}"@
    }
}

/// What the page is told when a title or the files of a conversation changed: its
/// row in the list, and, if they could be read, its files and how many there are.
pub fn sidebar_changed(
    session_id: &str,
    row: &Html,
    assets: Option<(&Html, usize)>,
) -> (r: Vec<Update>)
    ensures
        views(r@) == (match assets {
            None => seq![patch("#session-row-"@ + session_id@, "outer"@, row@)],
            Some((panel, count)) => seq![
                patch("#session-row-"@ + session_id@, "outer"@, row@),
                patch("#assets-canvas-slot"@, "inner"@, panel@),
                UpdateView::Signals { json: asset_signals(count as nat) },
            ],
        }),
{
    let mut selector = "#session-row-".to_owned();
    selector.append(session_id);
    let mut out: Vec<Update> = Vec::new();
    out.push(Update::patch(&selector, "outer", &row.text));
    if let Some((panel, count)) = assets {
        out.push(Update::patch("#assets-canvas-slot", "inner", &panel.text));
        let json = if count == 0 {
            "{\"hasAssets\": false, \"assetCount\": 0}".to_owned()
        } else {
            let mut json = "{\"hasCanvas\": true, \"hasAssets\": true, \"assetCount\": ".to_owned();
            json.append(&show_u64(count as u64));
            json.append("}");
            json
        };
        out.push(Update::Signals { json });
    }
    let ghost want = match assets {
        None => seq![patch("#session-row-"@ + session_id@, "outer"@, row@)],
        Some((panel, count)) => seq![
            patch("#session-row-"@ + session_id@, "outer"@, row@),
            patch("#assets-canvas-slot"@, "inner"@, panel@),
            UpdateView::Signals { json: asset_signals(count as nat) },
        ],
    };
    assert(views(out@) =~= want);
    out
}

// ---------------------------------------------------------------------------
// Attachments

/// An error of a request for an attachment.
pub struct AttachmentRefusal {
    pub status: u16,
    pub key: String,
}

/// Why an attachment is not handed out, in the order in which it is checked:
/// who asks, whether they may read the conversation, and whether there is a
/// store. What may not be read is as if it were not there.
pub open spec fn attachment_obstacle(
    signed_in: bool,
    readable: Option<bool>,
    configured: bool,
) -> Option<(u16, Seq<char>)> {
    if !signed_in {
        Some((401, "chat-error-auth-required"@))
    } else if readable == Some(false) {
        Some((404, "chat-error-no-such-turn"@))
    } else if readable is None {
        Some((500, "chat-error-db-error"@))
    } else if !configured {
        Some((503, "chat-error-attachments-not-configured"@))
    } else {
        None
    }
}

/// Checks a request for an attachment. `readable` is absent when that could not
/// be found out.
pub fn check_attachment(
    signed_in: bool,
    readable: Option<bool>,
    configured: bool,
) -> (r: Option<AttachmentRefusal>)
    ensures
        match r {
            Some(e) => attachment_obstacle(signed_in, readable, configured) == Some(
                (e.status, e.key@),
            ),
            None => attachment_obstacle(signed_in, readable, configured) is None,
        },
{
    if !signed_in {
        return Some(AttachmentRefusal { status: 401, key: "chat-error-auth-required".to_owned() });
    }
    match readable {
        Some(true) => {},
        Some(false) => {
            return Some(
                AttachmentRefusal { status: 404, key: "chat-error-no-such-turn".to_owned() },
            );
        },
        None => {
            return Some(AttachmentRefusal { status: 500, key: "chat-error-db-error".to_owned() });
        },
    }
    if !configured {
        return Some(
            AttachmentRefusal { status: 503, key: "chat-error-attachments-not-configured".to_owned() },
        );
    }
    None
}

/// Why an attachment could not be fetched.
pub fn fetch_refusal(bad_filename: bool) -> (r: AttachmentRefusal)
    ensures
        (r.status, r.key@) == (if bad_filename {
            (400u16, "chat-error-bad-filename"@)
        } else {
            (404u16, "chat-error-attachment-not-found"@)
        }),
{
    if bad_filename {
        AttachmentRefusal { status: 400, key: "chat-error-bad-filename".to_owned() }
    } else {
        AttachmentRefusal { status: 404, key: "chat-error-attachment-not-found".to_owned() }
    }
}

/// Why a conversation is not handed out as a PDF: the program that makes it is
/// not there, or it failed.
pub fn pdf_refusal(program_missing: bool) -> (r: AttachmentRefusal)
    ensures
        (r.status, r.key@) == (if program_missing {
            (503u16, "chat-error-pdf-export-unavailable"@)
        } else {
            (500u16, "chat-error-pdf-export-failed"@)
        }),
{
    if program_missing {
        AttachmentRefusal { status: 503, key: "chat-error-pdf-export-unavailable".to_owned() }
    } else {
        AttachmentRefusal { status: 500, key: "chat-error-pdf-export-failed".to_owned() }
    }
}

// ---------------------------------------------------------------------------
// Notifications

/// Whether the end of a turn is worth a notification, and whether it failed. One
/// that was stopped is not: whoever stopped it is there.
pub fn turn_outcome(status: TurnStatus) -> (r: Option<bool>)
    ensures
        r == (match status {
            TurnStatus::Completed => Some(false),
            TurnStatus::Errored => Some(true),
            _ => None,
        }),
{
    match status {
        TurnStatus::Completed => Some(false),
        TurnStatus::Errored => Some(true),
        _ => None,
    }
}

/// The title that a notification shows, if the conversation has one that says
/// something.
pub fn notification_title(title: Option<String>) -> (r: Option<String>)
    ensures
        r == (match title {
            Some(t) => if trimmed(t@).len() > 0 {
                Some(t)
            } else {
                None
            },
            None => None,
        }),
{
    match title {
        Some(t) => {
            let s = trim(&t);
            if s.as_str().is_empty() {
                None
            } else {
                Some(t)
            }
        },
        None => None,
    }
}

/// A notification.
pub struct PushMessage {
    pub title: String,
    pub body: String,
    pub url: String,
    pub tag: String,
}

/// Makes the notification that a turn has ended. `title` is the title of the
/// conversation, short enough for a heading.
pub fn push_message(
    ui: &Ui,
    title: Option<&str>,
    errored: bool,
    session_id: &str,
) -> (r: PushMessage)
    ensures
        r.title@ == (match title {
            Some(t) => t@,
            None => ui.message("push-untitled-conversation"@),
        }),
        r.body@ == ui.message(
            if errored {
                "push-turn-error-body"@
            } else {
                "push-turn-complete-body"@
            },
        ),
        r.url@ == chat_path(session_id@),
        r.tag@ == session_id@,
{
    PushMessage {
        title: match title {
            Some(t) => t.to_owned(),
            None => ui.t("push-untitled-conversation"),
        },
        body: ui.t(
            if errored {
                "push-turn-error-body"
            } else {
                "push-turn-complete-body"
            },
        ),
        url: session_path(session_id),
        tag: session_id.to_owned(),
    }
}

/// Only its owner may change a conversation. For the owner, replies that were left
/// unfinished are cleared up, except the one that is being written; a reader follows none.
pub proof fn a_reader_changes_nothing(
    session: &Session,
    viewer: &str,
    worker: Option<&Worker>,
    plan: ViewPlan,
    in_flight: Option<String>,
    followed: Option<String>,
    has_speech: bool,
    voices: &Vec<String>,
    voice: bool,
)
    requires
        call_ensures(plan_view, (session, viewer, worker), plan),
        call_ensures(followed_turn, (plan.read_only, in_flight), followed),
        call_ensures(voice_available, (plan.read_only, has_speech, voices), voice),
    ensures
        plan.read_only <==> session.user_id@ != viewer@,
        session.user_id@ != viewer@ ==> plan.sweep is None && followed is None && !voice,
        session.user_id@ == viewer@ ==> plan.sweep is Some && followed == in_flight,
        session.user_id@ == viewer@ && worker is Some && worker->0.session_id@ == session.id@ ==> {
            &&& plan.sweep->0 is Some
            &&& plan.sweep->0->0@ == worker->0.turn_id@
        },
        session.user_id@ == viewer@ && (worker is None || worker->0.session_id@ != session.id@)
            ==> plan.sweep->0 is None,
        voice ==> has_speech && voices@.len() > 0,
        session.user_id@ == viewer@ && has_speech && voices@.len() > 0 ==> voice,
{
}

/// The page of the owner has what was found: the reply that is being written, the effort
/// that was chosen, every capability, and the voice where it can be heard and written
/// down. The page of a reader has none of it.
pub proof fn the_page_has_what_was_found(ui: &Ui, facts: PageFacts, own: PageState, read: PageState)
    requires
        call_ensures(page_state, (ui, false, facts), own),
        call_ensures(page_state, (ui, true, facts), read),
    ensures
        opt_text(own.in_flight_turn_id) == opt_text(facts.in_flight),
        read.in_flight_turn_id is None,
        own.models@ == read.models@,
        own.transcription_models@ == read.transcription_models@,
        facts.settings matches Some(s) ==> {
            &&& own.effort == effort_named(opt_text(s.effort))
            &&& are_rows_of(own.capabilities@, menu(ui, &s.sources))
        },
        facts.settings is None ==> own.effort == Effort::Standard && own.capabilities@.len() == 0,
        read.effort == Effort::Standard,
        read.capabilities@.len() == 0,
        own.voice <==> facts.has_speech && facts.transcription.models@.len() > 0,
        !read.voice,
{
}

/// The window is named after its conversation, with the name of the site behind it.
pub proof fn the_window_is_named_after_the_conversation(ui: &Ui, session: &Session, r: String)
    requires
        call_ensures(page_title, (ui, session), r),
    ensures
        session.title matches Some(t) ==> r@ == t@ + " — LLM Gateway"@,
        session.title is None ==> r@ == ui.message("chat-default-title"@) + " — LLM Gateway"@,
{
}

/// Who may read a conversation follows the reply that is being written in it, and is told
/// where there is none; others are told nothing.
pub proof fn the_reply_being_written_is_followed(
    readable: bool,
    worker: Option<&Worker>,
    session_id: &str,
    r: TailPlan,
)
    requires
        call_ensures(plan_tail, (readable, worker, session_id), r),
    ensures
        !readable <==> r is Nothing,
        readable && worker is Some && worker->0.session_id@ == session_id@ ==> r is Follow
            && r->turn_id@ == worker->0.turn_id@,
        readable && (worker is None || worker->0.session_id@ != session_id@) ==> r is Idle
            && r->update@ == (UpdateView::Signals { json: "{\"chatStreaming\":false}"@ }),
{
}

/// Sharing, pinning and choosing an effort send a page without scripts back to the
/// conversation.
pub proof fn without_scripts_the_page_is_opened_again(
    ui: &Ui,
    id: &str,
    on: bool,
    active: &Option<String>,
    list: &Html,
    effort: Effort,
    share: Answer,
    pin: Answer,
    set: Answer,
)
    requires
        call_ensures(share_answer, (ui, id, on, false), share),
        call_ensures(pin_answer, (ui, on, active, false, list), pin),
        call_ensures(effort_answer, (ui, id, effort, false), set),
    ensures
        share@ == (AnswerView::SeeOther { to: "/chat/"@ + id@ }),
        set@ == (AnswerView::SeeOther { to: "/chat/"@ + id@ }),
        *active matches Some(open) ==> pin@ == (AnswerView::SeeOther { to: "/chat/"@ + open@ }),
        *active is None ==> pin@ == (AnswerView::SeeOther { to: "/chat"@ }),
{
}

/// With scripts, the control that was used is shown in its new state, and the change is
/// told in its words.
pub proof fn with_scripts_the_change_is_shown(
    ui: &Ui,
    id: &str,
    active: &Option<String>,
    list: &Html,
    effort: Effort,
    shared: Answer,
    private: Answer,
    pinned: Answer,
    unpinned: Answer,
    set: Answer,
)
    requires
        call_ensures(share_answer, (ui, id, true, true), shared),
        call_ensures(share_answer, (ui, id, false, true), private),
        call_ensures(pin_answer, (ui, true, active, true, list), pinned),
        call_ensures(pin_answer, (ui, false, active, true, list), unpinned),
        call_ensures(effort_answer, (ui, id, effort, true), set),
    ensures
        shared@ == (AnswerView::Changes {
            updates: seq![
                patch(
                    "#share-toggle"@,
                    "outer"@,
                    share_control("/chat/"@ + id@ + "/share"@, true),
                ),
                toast(FlashKind::Success, ui.message("chat-toast-share-copied"@)),
            ],
        }),
        private@ == (AnswerView::Changes {
            updates: seq![
                patch(
                    "#share-toggle"@,
                    "outer"@,
                    share_control("/chat/"@ + id@ + "/share"@, false),
                ),
                toast(FlashKind::Info, ui.message("chat-toast-share-stopped"@)),
            ],
        }),
        pinned@ == (AnswerView::Changes {
            updates: seq![
                patch("#session-list"@, "outer"@, list@),
                toast(FlashKind::Success, ui.message("chat-toast-pinned"@)),
            ],
        }),
        unpinned@ == (AnswerView::Changes {
            updates: seq![
                patch("#session-list"@, "outer"@, list@),
                toast(FlashKind::Info, ui.message("chat-toast-unpinned"@)),
            ],
        }),
        set@ == (AnswerView::Changes {
            updates: seq![
                toast(
                    FlashKind::Success,
                    ui.message_with("chat-toast-effort-set"@, "level"@, effort.name()),
                ),
            ],
        }),
{
}

/// A conversation is copied for a reader; its owner already has it, and is told so.
pub proof fn only_a_reader_makes_a_copy(
    ui: &Ui,
    source: &Session,
    viewer: &str,
    r: Option<Answer>,
    s: Option<Answer>,
)
    requires
        call_ensures(fork_refusal, (ui, source, viewer, true), r),
        call_ensures(fork_refusal, (ui, source, viewer, false), s),
    ensures
        source.user_id@ != viewer@ ==> r is None && s is None,
        source.user_id@ == viewer@ ==> {
            &&& r is Some
            &&& s is Some
            &&& s->0@ == (AnswerView::SeeOther { to: "/chat/"@ + source.id@ })
            &&& r->0@ == (AnswerView::Changes {
                updates: seq![
                    toast(FlashKind::Info, ui.message("chat-toast-already-in-your-chats"@)),
                ],
            })
        },
{
}

/// The conversation that is open is known by its number; a blank one stands for none.
pub proof fn the_open_chat_is_known_by_its_number(active: String, r: Option<String>)
    requires
        call_ensures(read_open_chat, (active,), r),
    ensures
        active@.len() == 0 <==> r is None,
        r matches Some(t) ==> t@ == active@,
{
}

/// A message is only touched by the owner of its conversation, and what is missing is
/// told.
pub proof fn a_message_belongs_to_an_owned_conversation(
    owns: bool,
    found: bool,
    r: Option<Notice>,
)
    requires
        call_ensures(load_owned_turn, (owns, found), r),
    ensures
        owns && found <==> r is None,
        !owns ==> r->0@ == said(false, "chat-error-conversation-not-found"@),
        owns && !found ==> r->0@ == said(false, "chat-error-message-not-found"@),
{
}

/// A reply is written anew in its place, a message is changed in its place with all that
/// came after it cut off; neither is done to the other, nor with a blank text.
pub proof fn a_message_is_changed_in_its_place(
    turn: &Turn,
    with_files: bool,
    text: String,
    retry: Result<i64, Notice>,
    check: Option<Notice>,
    edit: Result<EditPlan, Notice>,
)
    requires
        turn.seq < i64::MAX,
        call_ensures(plan_retry, (turn,), retry),
        call_ensures(check_edit, (turn,), check),
        call_ensures(plan_edit, (turn, with_files, text), edit),
    ensures
        turn.role == TurnRole::Assistant ==> {
            &&& retry == Ok::<i64, Notice>(turn.seq)
            &&& check is Some
            &&& check->0@ == said(false, "chat-error-edit-own-messages-only"@)
        },
        turn.role == TurnRole::User ==> {
            &&& check is None
            &&& retry is Err
            &&& retry->Err_0@ == said(false, "chat-error-retry-assistant-only"@)
        },
        text@.len() == 0 ==> edit is Err,
        edit matches Ok(p) ==> p.cut_from == turn.seq + 1,
        edit is Ok && with_files ==> edit->Ok_0.text@ == text@,
        edit is Ok && !with_files ==> edit->Ok_0.text@ == trimmed(text@),
        edit is Err && with_files ==> text@.len() == 0,
        edit is Err && !with_files ==> trimmed(text@).len() == 0,
        edit matches Err(n) ==> n@ == said(false, "chat-error-message-must-not-be-empty"@),
{
    assert(trimmed(Seq::<char>::empty()).len() == 0);
    if text@.len() == 0 {
        assert(text@ =~= Seq::<char>::empty());
    }
}

/// The files of a message stand in what its author wrote.
pub proof fn files_stand_in_what_was_written(turn: &Turn, r: (bool, String))
    requires
        call_ensures(attachment_text, (turn,), r),
    ensures
        turn.role == TurnRole::User ==> r.0,
        turn.role == TurnRole::Assistant ==> !r.0,
        turn.role == TurnRole::User && turn.user_content is Some ==> r.1@ == turn.user_content->0@,
        turn.role == TurnRole::User && turn.user_content is None ==> r.1@.len() == 0,
        turn.role == TurnRole::Assistant && turn.content is Some ==> r.1@ == turn.content->0@,
        turn.role == TurnRole::Assistant && turn.content is None ==> r.1@.len() == 0,
{
}

/// What changed replaces what stood in its place on the page: a message under its number,
/// new ones at the end with the reply behind the message, and the document in its panel.
pub proof fn changes_go_to_their_places(
    id: &str,
    markup: &Html,
    message: Html,
    reply: Html,
    turns: &Vec<Html>,
    changed: Update,
    added: Update,
    all: Update,
    document: Update,
)
    requires
        call_ensures(turn_changed, (id, markup), changed),
        call_ensures(new_bubbles, (message, reply), added),
        call_ensures(whole_conversation, (turns,), all),
        call_ensures(document_shown, (markup,), document),
    ensures
        changed@ == patch("#turn-"@ + id@, "outer"@, markup@),
        added@ == patch("#conversation"@, "append"@, message@ + reply@),
        all@ == patch("#conversation"@, "inner"@, concat(turns@)),
        document@ == patch("#document-canvas-slot"@, "inner"@, markup@),
{
}

/// The row of a conversation is replaced; with files the panel and their number come too.
pub proof fn the_row_of_a_conversation_is_replaced(
    id: &str,
    row: &Html,
    panel: &Html,
    count: usize,
    bare: Vec<Update>,
    full: Vec<Update>,
)
    requires
        call_ensures(sidebar_changed, (id, row, None::<(&Html, usize)>), bare),
        call_ensures(sidebar_changed, (id, row, Some((panel, count))), full),
    ensures
        views(bare@) == seq![patch("#session-row-"@ + id@, "outer"@, row@)],
        views(full@).len() == 3,
        views(full@)[0] == patch("#session-row-"@ + id@, "outer"@, row@),
        views(full@)[1] == patch("#assets-canvas-slot"@, "inner"@, panel@),
        count == 0 ==> views(full@)[2] == (UpdateView::Signals {
            json: "{\"hasAssets\": false, \"assetCount\": 0}"@,
        }),
        count > 0 ==> views(full@)[2] == (UpdateView::Signals {
            json: "{\"hasCanvas\": true, \"hasAssets\": true, \"assetCount\": "@ + decimal(
                count as nat,
            ) + "}"@,
        }),
{
}

/// A file is given to who is signed in and may read its message, where files are set up;
/// else the first obstacle is told.
pub proof fn the_first_obstacle_is_told(
    signed_in: bool,
    readable: Option<bool>,
    configured: bool,
    r: Option<AttachmentRefusal>,
)
    requires
        call_ensures(check_attachment, (signed_in, readable, configured), r),
    ensures
        r is None <==> signed_in && readable == Some(true) && configured,
        !signed_in ==> r->0.status == 401 && r->0.key@ == "chat-error-auth-required"@,
        signed_in && readable is None ==> r->0.status == 500 && r->0.key@ == "chat-error-db-error"@,
        signed_in && readable == Some(false) ==> r->0.status == 404 && r->0.key@
            == "chat-error-no-such-turn"@,
        signed_in && readable == Some(true) && !configured ==> r->0.status == 503 && r->0.key@
            == "chat-error-attachments-not-configured"@,
{
    match readable {
        Some(b) => {
            if b {
                assert(readable == Some(true));
            } else {
                assert(readable == Some(false));
            }
        },
        None => {},
    }
}

/// What went wrong with a file or a download has its number and its words.
pub proof fn failures_have_their_words(
    bad_name: AttachmentRefusal,
    gone: AttachmentRefusal,
    no_program: AttachmentRefusal,
    failed: AttachmentRefusal,
)
    requires
        call_ensures(fetch_refusal, (true,), bad_name),
        call_ensures(fetch_refusal, (false,), gone),
        call_ensures(pdf_refusal, (true,), no_program),
        call_ensures(pdf_refusal, (false,), failed),
    ensures
        bad_name.status == 400 && bad_name.key@ == "chat-error-bad-filename"@,
        gone.status == 404 && gone.key@ == "chat-error-attachment-not-found"@,
        no_program.status == 503 && no_program.key@ == "chat-error-pdf-export-unavailable"@,
        failed.status == 500 && failed.key@ == "chat-error-pdf-export-failed"@,
{
}

/// A reply that ended, well or not, is told in a notification that names its conversation
/// and leads there; one that was stopped or is being written is not.
pub proof fn an_ended_reply_is_told(
    ui: &Ui,
    status: TurnStatus,
    outcome: Option<bool>,
    title: Option<String>,
    named: Option<String>,
    words: Option<&str>,
    errored: bool,
    id: &str,
    r: PushMessage,
)
    requires
        call_ensures(turn_outcome, (status,), outcome),
        call_ensures(notification_title, (title,), named),
        call_ensures(push_message, (ui, words, errored, id), r),
    ensures
        outcome is Some <==> status == TurnStatus::Completed || status == TurnStatus::Errored,
        outcome == Some(true) <==> status == TurnStatus::Errored,
        title matches Some(t) && trimmed(t@).len() > 0 ==> named == title,
        title is None || trimmed(title->0@).len() == 0 ==> named is None,
        words matches Some(t) ==> r.title@ == t@,
        words is None ==> r.title@ == ui.message("push-untitled-conversation"@),
        errored ==> r.body@ == ui.message("push-turn-error-body"@),
        !errored ==> r.body@ == ui.message("push-turn-complete-body"@),
        r.url@ == "/chat/"@ + id@,
        r.tag@ == id@,
{
}

/// A conversation that is gone is told to be; an edit brings files where it comes as a form of
/// parts.
pub proof fn what_is_gone_is_told(ui: &Ui, gone: Vec<Update>, content_type: &str, files: bool)
    requires
        call_ensures(already_gone, (ui,), gone),
        call_ensures(carries_files, (content_type,), files),
    ensures
        views(gone@) == seq![
            toast(FlashKind::Info, ui.message("chat-toast-conversation-already-gone"@)),
        ],
        files <==> "multipart/form-data"@.is_prefix_of(content_type@),
{
}

} // verus!
