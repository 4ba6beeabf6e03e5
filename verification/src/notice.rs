//! Short messages that answer an action.
use crate::html::{args_view, fill, filled, Ui};
use crate::updates::{only_toast, toast, views, FlashKind, Update, UpdateView};
use vstd::prelude::*;

verus! {

/// A message to translate: its key and the values that go into it.
pub struct Notice {
    pub success: bool,
    pub key: String,
    pub args: Vec<(String, String)>,
}

/// A message over texts.
#[verifier::ext_equal]
pub ghost struct NoticeView {
    pub success: bool,
    pub key: Seq<char>,
    pub args: Seq<(Seq<char>, Seq<char>)>,
}

impl View for Notice {
    type V = NoticeView;

    open spec fn view(&self) -> NoticeView {
        NoticeView {
            success: self.success,
            key: self.key@,
            args: self.args@.map_values(|a: (String, String)| (a.0@, a.1@)),
        }
    }
}

/// A message without values.
pub open spec fn said(success: bool, key: Seq<char>) -> NoticeView {
    NoticeView { success, key, args: Seq::empty() }
}

impl NoticeView {
    /// The message with one value more.
    pub open spec fn with(self, name: Seq<char>, value: Seq<char>) -> NoticeView {
        NoticeView { args: self.args.push((name, value)), ..self }
    }

    /// The message in the user's language, with its values.
    pub open spec fn words(self, ui: &Ui) -> Seq<char> {
        filled(ui.message(self.key), self.args)
    }

    /// The message as the page shows it.
    pub open spec fn shown(self, ui: &Ui) -> UpdateView {
        toast(
            if self.success {
                FlashKind::Success
            } else {
                FlashKind::Error
            },
            self.words(ui),
        )
    }
}

impl Notice {
    /// A message without values.
    pub open spec fn says(&self, success: bool, key: Seq<char>) -> bool {
        self@ == said(success, key)
    }

    /// A message with one value.
    pub open spec fn says_of(
        &self,
        success: bool,
        key: Seq<char>,
        name: Seq<char>,
        value: Seq<char>,
    ) -> bool {
        self@ == said(success, key).with(name, value)
    }

    /// A message without values.
    pub fn plain(success: bool, key: &str) -> (r: Notice)
        ensures
            r.says(success, key@),
            r@ == said(success, key@),
    {
        let r = Notice { success, key: key.to_owned(), args: Vec::new() };
        assert(r@ =~= said(success, key@));
        r
    }

    /// The message with one value more.
    pub fn and(self, name: &str, value: &str) -> (r: Notice)
        ensures
            r@ == self@.with(name@, value@),
    {
        let ghost before = self@;
        let mut args = self.args;
        args.push((name.to_owned(), value.to_owned()));
        let r = Notice { success: self.success, key: self.key, args };
        assert(r@ =~= before.with(name@, value@));
        r
    }

    /// A message with one value.
    pub fn with(success: bool, key: &str, name: &str, value: &str) -> (r: Notice)
        ensures
            r.says_of(success, key@, name@, value@),
    {
        Notice::plain(success, key).and(name, value)
    }

    /// The message in the user's language, with its values.
    pub fn text(&self, ui: &Ui) -> (r: String)
        ensures
            r@ == self@.words(ui),
    {
        assert(args_view(self.args@) =~= self@.args);
        fill(&ui.t(&self.key), &self.args)
    }

    /// The message as the page shows it.
    pub fn show(&self, ui: &Ui) -> (r: Vec<Update>)
        ensures
            views(r@) == seq![self@.shown(ui)],
    {
        let kind = if self.success {
            FlashKind::Success
        } else {
            FlashKind::Error
        };
        only_toast(kind, &self.text(ui))
    }
}

// ---------------------------------------------------------------------------
// Laws

/// A notice is the message of its key with its values in it, shown as good news or bad.
pub proof fn a_notice_is_told_in_its_words(
    ui: &Ui,
    success: bool,
    key: &str,
    name: &str,
    value: &str,
    bare: Notice,
    one: Notice,
    same: Notice,
    bare_text: String,
    one_text: String,
    shown: Vec<Update>,
)
    requires
        call_ensures(Notice::plain, (success, key), bare),
        call_ensures(Notice::with, (success, key, name, value), one),
        call_ensures(Notice::and, (bare, name, value), same),
        call_ensures(Notice::text, (&bare, ui), bare_text),
        call_ensures(Notice::text, (&one, ui), one_text),
        call_ensures(Notice::show, (&one, ui), shown),
    ensures
        !ui.message(key@).contains('{') ==> bare_text@ == ui.message(key@),
        one_text@ == ui.message_with(key@, name@, value@),
        same@ == one@,
        views(shown@).len() == 1,
        success ==> views(shown@)[0] == toast(FlashKind::Success, one_text@),
        !success ==> views(shown@)[0] == toast(FlashKind::Error, one_text@),
{
    let none = Seq::<(Seq<char>, Seq<char>)>::empty();
    if !ui.message(key@).contains('{') {
        crate::html::plain_text_is_kept(ui.message(key@), Seq::empty(), none);
    }
    assert(none.push((name@, value@)) =~= seq![(name@, value@)]);
}

} // verus!
