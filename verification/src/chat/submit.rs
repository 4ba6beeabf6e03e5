//! What is sent into a conversation.
use crate::forms::{checkbox_on, is_checked};
use crate::multipart::{boundary_error, boundary_of, read_boundary};
use crate::num::{parse_i64, signed_value, within};
use crate::text::{
    chars, clip, clipped, find_char, first_index, opt_text, same, split, split_parts, starts_with,
    substring, text_or_empty, texts, trim, trimmed,
};
use crate::markup::{group_shows, shows};
use vstd::prelude::*;

verus! {

/// A message as it was sent.
pub struct ChatSubmit {
    pub model: String,
    pub user_text: String,
    /// The markers of the files that came with it.
    pub attachments: Vec<String>,
    /// Whether it was spoken.
    pub voice: bool,
}

/// A [`ChatSubmit`] over texts.
pub ghost struct SubmitView {
    pub model: Seq<char>,
    pub user_text: Seq<char>,
    pub attachments: Seq<Seq<char>>,
    pub voice: bool,
}

impl View for ChatSubmit {
    type V = SubmitView;

    open spec fn view(&self) -> SubmitView {
        SubmitView {
            model: self.model@,
            user_text: self.user_text@,
            attachments: texts(self.attachments@),
            voice: self.voice,
        }
    }
}

/// What is said of a form that is not sent as the message field sends it.
pub open spec fn not_multipart() -> Seq<char> {
    "expected multipart/form-data submit (the composer should set enctype=\"multipart/form-data\")"@
}

/// Reads the boundary of a sent message.
pub fn submit_boundary(content_type: &str) -> (r: Result<String, String>)
    ensures
        match boundary_of(content_type@) {
            Ok(b) => r is Ok && r->Ok_0@ == b,
            Err(e) => r is Err && r->Err_0@ == boundary_error(not_multipart(), e),
        },
{
    read_boundary(
        content_type,
        "expected multipart/form-data submit (the composer should set enctype=\"multipart/form-data\")",
    )
}

// ---------------------------------------------------------------------------
// The fields

/// What a field of the form holds.
#[derive(Clone, Copy, PartialEq, Eq, Structural, Debug)]
pub enum FieldKind {
    Model,
    Message,
    Voice,
    Attachment,
    /// Nothing that is read.
    Other,
}

/// What a field of that name holds.
pub open spec fn kind_of(name: Seq<char>) -> FieldKind {
    if name == "model"@ {
        FieldKind::Model
    } else if name == "message"@ {
        FieldKind::Message
    } else if name == "voice"@ {
        FieldKind::Voice
    } else if name == "attachment"@ {
        FieldKind::Attachment
    } else {
        FieldKind::Other
    }
}

/// Tells what a field of that name holds.
pub fn field_kind(name: &str) -> (r: FieldKind)
    ensures
        r == kind_of(name@),
{
    if same(name, "model") {
        FieldKind::Model
    } else if same(name, "message") {
        FieldKind::Message
    } else if same(name, "voice") {
        FieldKind::Voice
    } else if same(name, "attachment") {
        FieldKind::Attachment
    } else {
        FieldKind::Other
    }
}

/// A message while its fields are read.
pub struct SubmitDraft {
    pub model: Option<String>,
    pub user_text: String,
    pub attachments: Vec<String>,
    pub voice: bool,
}

/// A [`SubmitDraft`] over texts.
pub ghost struct DraftView {
    pub model: Option<Seq<char>>,
    pub user_text: Seq<char>,
    pub attachments: Seq<Seq<char>>,
    pub voice: bool,
}

impl View for SubmitDraft {
    type V = DraftView;

    open spec fn view(&self) -> DraftView {
        DraftView {
            model: opt_text(self.model),
            user_text: self.user_text@,
            attachments: texts(self.attachments@),
            voice: self.voice,
        }
    }
}

impl DraftView {
    /// The draft before any field.
    pub open spec fn empty() -> DraftView {
        DraftView {
            model: None,
            user_text: Seq::empty(),
            attachments: Seq::empty(),
            voice: false,
        }
    }

    /// The draft after a text field. Of several fields of one name the last one
    /// counts.
    pub open spec fn with_text(self, kind: FieldKind, text: Seq<char>) -> DraftView {
        match kind {
            FieldKind::Model => DraftView { model: Some(text), ..self },
            FieldKind::Message => DraftView { user_text: text, ..self },
            FieldKind::Voice => DraftView { voice: is_checked(text), ..self },
            _ => self,
        }
    }

    /// The draft after a file was stored.
    pub open spec fn with_file(self, marker: Seq<char>) -> DraftView {
        DraftView { attachments: self.attachments.push(marker), ..self }
    }

    /// The model, if one was picked.
    pub open spec fn picked(self) -> Seq<char> {
        trimmed(text_or_empty(self.model))
    }

    /// The message that the draft amounts to.
    pub open spec fn finished(self) -> SubmitView {
        SubmitView {
            model: self.picked(),
            user_text: trimmed(self.user_text),
            attachments: self.attachments,
            voice: self.voice,
        }
    }
}

impl SubmitDraft {
    /// The draft before any field.
    pub fn new() -> (r: SubmitDraft)
        ensures
            r@ == DraftView::empty(),
    {
        let r = SubmitDraft {
            model: None,
            user_text: String::new(),
            attachments: Vec::new(),
            voice: false,
        };
        assert(r@.attachments =~= Seq::empty());
        r
    }

    /// Takes a text field.
    pub fn text_field(self, kind: FieldKind, text: String) -> (r: SubmitDraft)
        ensures
            r@ == self@.with_text(kind, text@),
    {
        match kind {
            FieldKind::Model => SubmitDraft { model: Some(text), ..self },
            FieldKind::Message => SubmitDraft { user_text: text, ..self },
            FieldKind::Voice => SubmitDraft { voice: checkbox_on(&text), ..self },
            _ => self,
        }
    }

    /// Takes the marker of a file that was stored.
    pub fn file(self, marker: String) -> (r: SubmitDraft)
        ensures
            r@ == self@.with_file(marker@),
    {
        let ghost before = texts(self.attachments@);
        let mut attachments = self.attachments;
        attachments.push(marker);
        assert(texts(attachments@) =~= before.push(marker@));
        SubmitDraft { attachments, ..self }
    }

    /// Ends the draft. A message needs a model; that it says something is
    /// checked by who sends it.
    pub fn finish(self) -> (r: Result<ChatSubmit, String>)
        ensures
            r is Ok <==> self@.picked().len() > 0,
            match r {
                Ok(s) => s@ == self@.finished(),
                Err(e) => e@ == "no model selected"@,
            },
    {
        let model = match &self.model {
            Some(m) => trim(m),
            None => {
                let t = trim("");
                proof {
                    reveal_strlit("");
                    assert(""@ =~= Seq::<char>::empty());
                }
                t
            },
        };
        if model.as_str().is_empty() {
            return Err("no model selected".to_owned());
        }
        Ok(
            ChatSubmit {
                model,
                user_text: trim(&self.user_text),
                attachments: self.attachments,
                voice: self.voice,
            },
        )
    }
}

// ---------------------------------------------------------------------------
// Files

/// What becomes of a file field.
pub enum AttachmentPlan {
    /// Nothing was picked.
    Skip,
    /// There is nowhere to store it.
    NotConfigured { message: String },
    /// Store it, under this name or one made from it.
    Store { desired: String },
}

/// The name that a file is to have: its own, or one by its type. `ext` is the
/// ending for its type, if one is known.
pub open spec fn desired_name(filename: Seq<char>, ext: Option<Seq<char>>) -> Seq<char> {
    if trimmed(filename).len() > 0 {
        filename
    } else {
        "pasted"@ + match ext {
            Some(e) => e,
            None => ".bin"@,
        }
    }
}

/// Decides what becomes of a file field. A browser sends the field even when
/// nothing was picked, without name and content.
pub fn plan_attachment(
    filename: String,
    no_content: bool,
    configured: bool,
    ext: Option<&str>,
) -> (r: AttachmentPlan)
    ensures
        match r {
            AttachmentPlan::Skip => filename@.len() == 0 && no_content,
            AttachmentPlan::NotConfigured { message } => {
                &&& !(filename@.len() == 0 && no_content)
                &&& !configured
                &&& message@
                    == "chat attachments are not configured (set [chat.s3] in gateway.toml)"@
            },
            AttachmentPlan::Store { desired } => {
                &&& !(filename@.len() == 0 && no_content)
                &&& configured
                &&& desired@ == desired_name(
                    filename@,
                    match ext {
                        Some(e) => Some(e@),
                        None => None,
                    },
                )
            },
        },
{
    if filename.as_str().is_empty() && no_content {
        return AttachmentPlan::Skip;
    }
    if !configured {
        return AttachmentPlan::NotConfigured {
            message: "chat attachments are not configured (set [chat.s3] in gateway.toml)".to_owned(),
        };
    }
    let t = trim(&filename);
    if !t.as_str().is_empty() {
        return AttachmentPlan::Store { desired: filename };
    }
    let mut desired = "pasted".to_owned();
    match ext {
        Some(e) => {
            desired.append(e);
        },
        None => {
            desired.append(".bin");
        },
    }
    AttachmentPlan::Store { desired }
}

/// What is said when a file could not be stored.
pub fn upload_failed(filename: &str, error: &str) -> (r: String)
    ensures
        r@ == "upload `"@ + filename@ + "`: "@ + error@,
{
    let mut out = "upload `".to_owned();
    out.append(filename);
    out.append("`: ");
    out.append(error);
    out
}

/// A text and the markers of files, each set off by a blank line.
pub open spec fn with_markers(text: Seq<char>, markers: Seq<Seq<char>>) -> Seq<char>
    decreases markers.len(),
{
    if markers.len() == 0 {
        text
    } else {
        let head = with_markers(text, markers.drop_last());
        if head.len() == 0 {
            markers.last()
        } else {
            head + "\n\n"@ + markers.last()
        }
    }
}

/// Builds the text that is stored: what was typed, and the markers of the files.
pub fn augment_user_text(submit: &ChatSubmit) -> (r: String)
    ensures
        r@ == with_markers(submit@.user_text, submit@.attachments),
{
    let markers = &submit.attachments;
    let ghost view = texts(markers@);
    let mut out = submit.user_text.clone();
    assert(view.take(0) =~= Seq::<Seq<char>>::empty());
    for i in 0..markers.len()
        invariant
            markers == &submit.attachments,
            view == texts(markers@),
            out@ == with_markers(submit.user_text@, view.take(i as int)),
    {
        proof {
            assert(view.take(i + 1).drop_last() =~= view.take(i as int));
            assert(view.take(i + 1).last() == markers@[i as int]@);
        }
        let ghost head = out@;
        if !out.as_str().is_empty() {
            out.append("\n\n");
            out.append(&markers[i]);
        } else {
            out.append(&markers[i]);
            assert(head + markers@[i as int]@ =~= markers@[i as int]@);
        }
    }
    assert(view.take(view.len() as int) =~= view);
    out
}

// ---------------------------------------------------------------------------
// The first title

/// The text up to the first line end.
pub open spec fn first_line(s: Seq<char>) -> Seq<char> {
    s.take(first_index(s, '\n'))
}

/// The text after the first line.
pub open spec fn after_first_line(s: Seq<char>) -> Seq<char> {
    s.skip(first_index(s, '\n'))
}

/// Whether the first title leaves out some of a message: the message is longer than
/// a title, and more than blanks is missing, from the first line or after it.
pub open spec fn is_cut(msg: Seq<char>) -> bool {
    msg.len() > 64 && (trimmed(first_line(msg)).len() > 64 || trimmed(after_first_line(msg)).len()
        > 0)
}

/// The title that a conversation has until a better one is found: the first
/// line of its first message, cut off, with a mark when something is left out.
pub open spec fn quick_title(msg: Seq<char>) -> Seq<char> {
    clipped(trimmed(first_line(msg)), 64) + if is_cut(msg) {
        "…"@
    } else {
        Seq::empty()
    }
}

/// Makes the title that a conversation has until a better one is found.
pub fn first_message_title(msg: &str) -> (r: String)
    ensures
        r@ == quick_title(msg@),
{
    let v = chars(msg);
    let i = find_char(&v, '\n');
    let all: usize = v.len();
    let line = substring(&v, 0, i);
    let rest = substring(&v, i, all);
    assert(line@ =~= first_line(msg@));
    assert(rest@ =~= after_first_line(msg@));
    let line = trim(&line);
    let rest = trim(&rest);
    let mut out = clip(&line, 64);
    let n: usize = chars(&line).len();
    if all > 64 && (n > 64 || !rest.as_str().is_empty()) {
        out.append("…");
    } else {
        assert(out@ + Seq::<char>::empty() =~= out@);
    }
    out
}

/// The first title is short.
pub proof fn quick_title_is_short(msg: Seq<char>)
    ensures
        quick_title(msg).len() <= 65,
{
    reveal_strlit("…");
}

// ---------------------------------------------------------------------------
// Versions of a document

/// The text of the first `version` in a query.
pub open spec fn version_text(parts: Seq<Seq<char>>) -> Option<Seq<char>>
    decreases parts.len(),
{
    if parts.len() == 0 {
        None
    } else if "version="@.is_prefix_of(parts[0]) {
        Some(parts[0].skip(8))
    } else {
        version_text(parts.drop_first())
    }
}

/// The version that a query asks for.
pub open spec fn version_asked(q: Seq<char>) -> Option<int> {
    match version_text(split_parts(q, false, "&"@)) {
        Some(t) => within(signed_value(t), i64::MIN as int, i64::MAX as int),
        None => None,
    }
}

/// Reads the version that a query asks for; none means the latest.
pub fn parse_version_query(q: &str) -> (r: Option<i64>)
    ensures
        match r {
            Some(n) => version_asked(q@) == Some(n as int),
            None => version_asked(q@) is None,
        },
{
    let parts = split(q, false, "&");
    let ghost view = texts(parts@);
    assert(view.skip(0) =~= view);
    for i in 0..parts.len()
        invariant
            view == texts(parts@),
            view == split_parts(q@, false, "&"@),
            version_text(view) == version_text(view.skip(i as int)),
    {
        assert(view.skip(i as int)[0] == parts@[i as int]@);
        assert(view.skip(i as int).drop_first() =~= view.skip(i + 1));
        if starts_with(&parts[i], "version=") {
            proof {
                reveal_strlit("version=");
            }
            let v = chars(&parts[i]);
            let n: usize = v.len();
            let t = substring(&v, 8, n);
            assert(t@ =~= parts@[i as int]@.skip(8));
            return parse_i64(&t);
        }
    }
    None
}

// ---------------------------------------------------------------------------
// Laws

/// The fields of a message are known by their names.
pub proof fn fields_have_their_names(name: Seq<char>)
    ensures
        kind_of("model"@) == FieldKind::Model,
        kind_of("message"@) == FieldKind::Message,
        kind_of("voice"@) == FieldKind::Voice,
        kind_of("attachment"@) == FieldKind::Attachment,
        name != "model"@ && name != "message"@ && name != "voice"@ && name != "attachment"@
            ==> kind_of(name) == FieldKind::Other,
{
    reveal_strlit("model");
    reveal_strlit("message");
    reveal_strlit("voice");
    reveal_strlit("attachment");
    assert("model"@.len() == 5 && "message"@.len() == 7 && "voice"@.len() == 5
        && "attachment"@.len() == 10);
    assert("model"@[0] == 'm' && "voice"@[0] == 'v');
}

/// A message is what was sent: the model and the text without the blanks around them, the
/// files in their order, and the voice if its box is ticked. Without a model it is not
/// taken.
pub proof fn a_message_is_as_sent(
    model: String,
    text: String,
    voice: String,
    first: String,
    second: String,
    a: SubmitDraft,
    b: SubmitDraft,
    c: SubmitDraft,
    d: SubmitDraft,
    e: SubmitDraft,
    f: SubmitDraft,
    r: Result<ChatSubmit, String>,
)
    requires
        call_ensures(SubmitDraft::new, (), a),
        call_ensures(SubmitDraft::text_field, (a, FieldKind::Model, model), b),
        call_ensures(SubmitDraft::text_field, (b, FieldKind::Message, text), c),
        call_ensures(SubmitDraft::text_field, (c, FieldKind::Voice, voice), d),
        call_ensures(SubmitDraft::file, (d, first), e),
        call_ensures(SubmitDraft::file, (e, second), f),
        call_ensures(SubmitDraft::finish, (f,), r),
    ensures
        trimmed(model@).len() == 0 ==> r is Err && r->Err_0@ == "no model selected"@,
        trimmed(model@).len() > 0 ==> r is Ok && {
            let s = r->Ok_0@;
            &&& s.model == trimmed(model@)
            &&& s.user_text == trimmed(text@)
            &&& s.attachments == seq![first@, second@]
            &&& s.voice <==> is_checked(voice@)
        },
{
    assert(e@.attachments =~= seq![first@]);
    assert(f@.attachments =~= seq![first@, second@]);
}

/// What was not sent is not there: without text, files and voice a message has none.
pub proof fn a_draft_begins_empty(
    model: String,
    a: SubmitDraft,
    b: SubmitDraft,
    r: Result<ChatSubmit, String>,
)
    requires
        call_ensures(SubmitDraft::new, (), a),
        call_ensures(SubmitDraft::text_field, (a, FieldKind::Model, model), b),
        call_ensures(SubmitDraft::finish, (b,), r),
        trimmed(model@).len() > 0,
    ensures
        r is Ok,
        r->Ok_0@.user_text.len() == 0,
        r->Ok_0@.attachments.len() == 0,
        !r->Ok_0@.voice,
{
    assert(trimmed(Seq::<char>::empty()).len() == 0);
}

/// An empty file field is passed over; a file is stored under its name, or as pasted with
/// the ending of its kind; where files are not set up, that is told.
pub proof fn a_file_is_stored_under_its_name(
    filename: String,
    no_content: bool,
    configured: bool,
    ext: Option<&str>,
    r: AttachmentPlan,
)
    requires
        call_ensures(plan_attachment, (filename, no_content, configured, ext), r),
    ensures
        filename@.len() == 0 && no_content <==> r is Skip,
        !(filename@.len() == 0 && no_content) && !configured <==> r is NotConfigured,
        r is NotConfigured ==> r->message@
            == "chat attachments are not configured (set [chat.s3] in gateway.toml)"@,
        r is Store && trimmed(filename@).len() > 0 ==> r->desired@ == filename@,
        r is Store && trimmed(filename@).len() == 0 && ext is Some ==> r->desired@ == "pasted"@
            + ext->0@,
        r is Store && trimmed(filename@).len() == 0 && ext is None ==> r->desired@ == "pasted"@
            + ".bin"@,
{
}

/// A stored message begins with what was typed and holds every file, each on lines of
/// its own.
pub proof fn every_file_is_in_the_message(
    text: Seq<char>,
    markers: Seq<Seq<char>>,
    i: int,
)
    ensures
        text.is_prefix_of(with_markers(text, markers)),
        0 <= i < markers.len() ==> shows(with_markers(text, markers), markers[i]),
        markers.len() == 0 ==> with_markers(text, markers) == text,
        markers.len() == 1 && text.len() == 0 ==> with_markers(text, markers) == markers[0],
        markers.len() == 1 && text.len() > 0 ==> with_markers(text, markers) == text + "\n\n"@
            + markers[0],
    decreases markers.len(),
{
    broadcast use group_shows;

    if markers.len() > 0 {
        every_file_is_in_the_message(text, markers.drop_last(), i);
        let head = with_markers(text, markers.drop_last());
        let all = with_markers(text, markers);
        if head.len() > 0 {
            assert(text =~= all.subrange(0, text.len() as int)) by {
                assert(text == head.subrange(0, text.len() as int));
            }
        } else {
            assert(text =~= Seq::<char>::empty());
            assert(text =~= all.subrange(0, 0));
            if 0 <= i < markers.len() - 1 {
                reveal(shows);
                let m = markers[i];
                assert(shows(head, m));
                let k = choose|k: int| crate::text::occurs_at(head, m, k);
                assert(m =~= Seq::<char>::empty());
                assert(all.subrange(0, 0) =~= m);
                assert(crate::text::occurs_at(all, m, 0));
            }
        }
    } else {
        assert(text =~= text.subrange(0, text.len() as int));
    }
}

/// The first title is the first line of the message, in full where it has at most 64
/// characters, else its first 64 and a mark; a longer message of several lines is marked
/// as well.
pub proof fn the_first_title_is_the_first_line(line: Seq<char>, rest: Seq<char>)
    requires
        crate::text::is_item(line),
        !line.contains('\n'),
    ensures
        line.len() <= 64 ==> quick_title(line) == line,
        line.len() > 64 ==> quick_title(line) == line.take(64) + "…"@,
        line.len() <= 64 && trimmed(rest).len() == 0 ==> quick_title(line + "\n"@ + rest) == line,
        line.len() <= 64 && line.len() + 1 + rest.len() <= 64 ==> quick_title(line + "\n"@ + rest)
            == line,
        line.len() <= 64 && line.len() + 1 + rest.len() > 64 && trimmed(rest).len() > 0
            ==> quick_title(line + "\n"@ + rest) == line + "…"@,
{
    reveal_strlit("\n");
    assert("\n"@ =~= seq!['\n']);
    crate::text::lemma_item_trimmed(line);
    assert forall|j: int| 0 <= j < line.len() implies line[j] != '\n' by {
        assert(line.contains(line[j]));
    }
    crate::text::lemma_first_index_at(line, '\n', line.len() as int);
    assert(line.take(line.len() as int) =~= line);
    let none = Seq::<char>::empty();
    assert(line.skip(line.len() as int) =~= none);
    assert(trimmed(none).len() == 0);
    assert(line + none =~= line);
    let msg = line + "\n"@ + rest;
    let n = line.len() as int;
    assert forall|j: int| 0 <= j < n implies msg[j] != '\n' by {
        assert(msg[j] == line[j]);
    }
    assert(msg[n] == '\n');
    crate::text::lemma_first_index_at(msg, '\n', n);
    assert(msg.take(n) =~= line);
    let tail = msg.skip(n);
    assert(tail =~= seq!['\n'] + rest);
    assert(tail.drop_first() =~= rest);
    assert(crate::text::in_class(tail[0], true, none));
    assert(trimmed(tail) == trimmed(rest));
}

/// The version that is asked for is the number behind its name, wherever in the query it
/// stands.
pub proof fn a_version_is_read(n: i64, before: Seq<char>)
    requires
        !before.contains('&'),
        !"version="@.is_prefix_of(before),
    ensures
        version_asked("version="@ + crate::num::signed_decimal(n as int)) == Some(n as int),
        version_asked(before + "&"@ + ("version="@ + crate::num::signed_decimal(n as int))) == Some(
            n as int,
        ),
        version_asked(before) is None,
{
    reveal_strlit("version=");
    reveal_strlit("&");
    let amp = "&"@;
    assert(amp =~= seq!['&']);
    assert(amp[0] == '&');
    let number = crate::num::signed_decimal(n as int);
    crate::num::signed_decimal_reads_back(n as int);
    let asked = "version="@ + number;
    assert(asked.skip(8) =~= number);
    assert(asked.subrange(0, 8) =~= "version="@);
    if n < 0 {
        crate::num::decimal_reads_back((-n) as nat);
    } else {
        crate::num::decimal_reads_back(n as nat);
    }
    assert forall|i: int| 0 <= i < asked.len() implies !crate::text::in_class(
        #[trigger] asked[i],
        false,
        amp,
    ) by {
        if i >= 8 {
            assert(asked[i] == number[i - 8]);
            if n < 0 {
                if i > 8 {
                    assert(number[i - 8] == crate::num::decimal((-n) as nat)[i - 9]);
                    assert(crate::num::is_digit(crate::num::decimal((-n) as nat)[i - 9]));
                }
            } else {
                assert(crate::num::is_digit(number[i - 8]));
            }
        }
    }
    assert forall|i: int| 0 <= i < before.len() implies !crate::text::in_class(
        #[trigger] before[i],
        false,
        amp,
    ) by {
        assert(before.contains(before[i]));
    }
    crate::text::lemma_split_free(asked, false, amp);
    crate::text::lemma_split_free(before, false, amp);
    crate::text::lemma_split_append(before, '&', asked, false, amp);
    let two = seq![before].push(asked);
    assert(two.drop_first() =~= seq![asked]);
    assert(two[0] == before);
    assert(version_text(seq![asked]) == Some(number));
    assert(version_text(two) == version_text(seq![asked]));
    assert(seq![before].drop_first() =~= Seq::<Seq<char>>::empty());
    assert(seq![before][0] == before);
    assert(version_text(Seq::<Seq<char>>::empty()) is None);
    assert(version_text(seq![before].drop_first()) is None);
    assert(version_text(seq![before]) is None);
}

/// A message that is no form of parts, and a file that could not be stored, are told with
/// what is wrong.
pub proof fn a_bad_upload_is_told(
    content_type: &str,
    r: Result<String, String>,
    filename: &str,
    error: &str,
    failed: String,
)
    requires
        call_ensures(submit_boundary, (content_type,), r),
        call_ensures(upload_failed, (filename, error), failed),
    ensures
        r is Ok <==> boundary_of(content_type@) is Ok,
        r is Ok ==> r->Ok_0@ == boundary_of(content_type@)->Ok_0,
        r is Err ==> r->Err_0@
            == "expected multipart/form-data submit (the composer should set enctype=\"multipart/form-data\")"@
            + ": "@ + boundary_of(content_type@)->Err_0,
        failed@ == "upload `"@ + filename@ + "`: "@ + error@,
{
}

} // verus!
