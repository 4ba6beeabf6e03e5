//! What a page is told to change in answer to an action.
use vstd::prelude::*;

verus! {

/// The tone of a short message.
#[derive(Clone, Copy, PartialEq, Eq, Structural, Debug)]
pub enum FlashKind {
    Success,
    Info,
    Error,
}

/// One change of the page.
pub enum Update {
    /// Put markup at the element that the selector finds, in the given mode.
    Patch { selector: String, mode: String, markup: String },
    /// Run a script.
    Script { code: String },
    /// Show a short message.
    Toast { kind: FlashKind, message: String },
    /// Set values that the page keeps, written as JSON.
    Signals { json: String },
}

/// One change of the page, over texts.
pub ghost enum UpdateView {
    Patch { selector: Seq<char>, mode: Seq<char>, markup: Seq<char> },
    Script { code: Seq<char> },
    Toast { kind: FlashKind, message: Seq<char> },
    Signals { json: Seq<char> },
}

impl View for Update {
    type V = UpdateView;

    open spec fn view(&self) -> UpdateView {
        match self {
            Update::Patch { selector, mode, markup } => UpdateView::Patch {
                selector: selector@,
                mode: mode@,
                markup: markup@,
            },
            Update::Script { code } => UpdateView::Script { code: code@ },
            Update::Toast { kind, message } => UpdateView::Toast {
                kind: *kind,
                message: message@,
            },
            Update::Signals { json } => UpdateView::Signals { json: json@ },
        }
    }
}

/// The views of a list of changes.
pub open spec fn views(list: Seq<Update>) -> Seq<UpdateView> {
    list.map_values(|u: Update| u@)
}

/// A change of markup.
pub open spec fn patch(selector: Seq<char>, mode: Seq<char>, markup: Seq<char>) -> UpdateView {
    UpdateView::Patch { selector, mode, markup }
}

/// A short message.
pub open spec fn toast(kind: FlashKind, message: Seq<char>) -> UpdateView {
    UpdateView::Toast { kind, message }
}

impl Update {
    /// A change of markup.
    pub fn patch(selector: &str, mode: &str, markup: &str) -> (r: Update)
        ensures
            r@ == patch(selector@, mode@, markup@),
    {
        Update::Patch {
            selector: selector.to_owned(),
            mode: mode.to_owned(),
            markup: markup.to_owned(),
        }
    }

    /// A script to run.
    pub fn script(code: &str) -> (r: Update)
        ensures
            r@ == (UpdateView::Script { code: code@ }),
    {
        Update::Script { code: code.to_owned() }
    }

    /// A short message.
    pub fn toast(kind: FlashKind, message: &str) -> (r: Update)
        ensures
            r@ == toast(kind, message@),
    {
        Update::Toast { kind, message: message.to_owned() }
    }
}

/// What became of a change in the store.
#[derive(Clone, Copy, PartialEq, Eq, Structural, Debug)]
pub enum StoreOutcome {
    Done,
    /// It was not in the state that the action needs.
    NotDone,
    Failed,
}

/// What an action is answered with.
pub enum Answer {
    /// Another page.
    SeeOther { to: String },
    /// Changes of this page.
    Changes { updates: Vec<Update> },
}

/// An [`Answer`] over texts.
pub ghost enum AnswerView {
    SeeOther { to: Seq<char> },
    Changes { updates: Seq<UpdateView> },
}

impl View for Answer {
    type V = AnswerView;

    open spec fn view(&self) -> AnswerView {
        match self {
            Answer::SeeOther { to } => AnswerView::SeeOther { to: to@ },
            Answer::Changes { updates } => AnswerView::Changes { updates: views(updates@) },
        }
    }
}

/// A single short message.
pub fn only_toast(kind: FlashKind, message: &str) -> (r: Vec<Update>)
    ensures
        views(r@) == seq![toast(kind, message@)],
{
    let mut out: Vec<Update> = Vec::new();
    out.push(Update::toast(kind, message));
    assert(views(out@) =~= seq![toast(kind, message@)]);
    out
}

/// A single change.
pub fn single(a: Update) -> (r: Vec<Update>)
    ensures
        views(r@) == seq![a@],
{
    let mut out: Vec<Update> = Vec::new();
    out.push(a);
    assert(views(out@) =~= seq![a@]);
    out
}

/// Two changes.
pub fn pair(a: Update, b: Update) -> (r: Vec<Update>)
    ensures
        views(r@) == seq![a@, b@],
{
    let mut out: Vec<Update> = Vec::new();
    out.push(a);
    out.push(b);
    assert(views(out@) =~= seq![a@, b@]);
    out
}

} // verus!
