//! The course of saving an edited collection, step by step.
//!
//! The stored collection is found and the form checked against it; then the edit
//! and the groups that may use the collection are stored, the collection is read
//! again, and its row is shown as it is now. [`SaveFlow::next`] says what is done
//! after each event; whoever runs it does that and hands back the next event.
use crate::html::Ui;
use crate::notice::said;
use crate::rag::{
    collection_row, collection_saved, edit_asked, place, read_update, row_patch, trouble_notice,
    update_fault, Collection, CollectionEdit, CollectionRef, Trouble, UpdateForm,
};
use crate::text::{clone_list, nonblank, opt_text, texts};
use crate::updates::{patch, views, Update, UpdateView};
use vstd::prelude::*;

verus! {

/// What a flow waits for.
pub enum SaveStep {
    /// The stored collection.
    Find { form: UpdateForm },
    /// The stored edit.
    Edit { name: String, groups: Vec<String> },
    /// The stored groups.
    Groups { name: String },
    /// The collection as it is now.
    Reload { name: String },
    /// Its sources.
    Sources { name: String, collection: Collection },
    /// Nothing more.
    Over,
}

/// A flow.
pub struct SaveFlow {
    pub step: SaveStep,
}

/// What happened.
pub enum SaveEvent {
    /// The collection was looked for; absent when there is none.
    Found { collection: Option<Collection> },
    FindingFailed,
    Stored,
    StoringFailed,
    Listed { refs: Vec<CollectionRef> },
}

/// What is to be done.
pub enum SaveAction {
    StoreEdit { edit: CollectionEdit },
    StoreGroups { groups: Vec<String> },
    Reload,
    ListSources,
    Answer { updates: Vec<Update> },
}

impl SaveFlow {
    /// Whether an event answers what the flow waits for.
    pub open spec fn expects(self, event: SaveEvent) -> bool {
        match self.step {
            SaveStep::Find { .. } => event is Found || event is FindingFailed,
            SaveStep::Edit { .. } => event is Stored || event is StoringFailed,
            SaveStep::Groups { .. } => event is Stored || event is StoringFailed,
            SaveStep::Reload { .. } => event is Found || event is FindingFailed,
            SaveStep::Sources { .. } => event is Listed,
            SaveStep::Over => false,
        }
    }
}

/// The end, with these changes of the page.
pub open spec fn answered(next: SaveFlow, action: SaveAction, changes: Seq<UpdateView>) -> bool {
    next.step is Over && (action matches SaveAction::Answer { updates } && views(updates@)
        == changes)
}

/// The end, with a message.
pub open spec fn told(ui: &Ui, next: SaveFlow, action: SaveAction, trouble: Trouble) -> bool {
    answered(next, action, seq![said(false, trouble.key()).shown(ui)])
}

/// What the page is told of a saved collection: its row as it is now.
pub open spec fn saved(
    ui: &Ui,
    name: Seq<char>,
    collection: &Collection,
    refs: Seq<CollectionRef>,
) -> Seq<UpdateView> {
    seq![
        patch(place("#rag-row-"@, collection.id), "outer"@, collection_row(ui, collection, refs)),
        said(true, "rag-toast-saved"@).with("name"@, name).shown(ui),
    ]
}

/// What follows an event.
pub open spec fn save_step(
    flow: SaveFlow,
    ui: &Ui,
    event: SaveEvent,
    next: SaveFlow,
    action: SaveAction,
) -> bool {
    match flow.step {
        SaveStep::Find { form } => match event {
            SaveEvent::Found { collection: Some(c) } => match update_fault(form, &c) {
                Some(fault) => answered(next, action, seq![said(false, fault).shown(ui)]),
                None => {
                    &&& action matches SaveAction::StoreEdit { edit }
                    &&& edit_asked(form, &c, edit)
                    &&& next.step matches SaveStep::Edit { name, groups }
                    &&& name == c.name
                    &&& texts(groups@) == texts(edit.allowed_groups@)
                },
            },
            SaveEvent::Found { collection: None } => told(
                ui,
                next,
                action,
                Trouble::CollectionMissing,
            ),
            _ => told(ui, next, action, Trouble::CollectionUnreadable),
        },
        SaveStep::Edit { name, groups } => if event is Stored {
            &&& next.step == (SaveStep::Groups { name })
            &&& action == (SaveAction::StoreGroups { groups })
        } else {
            told(ui, next, action, Trouble::SaveFailed)
        },
        SaveStep::Groups { name } => if event is Stored {
            &&& next.step == (SaveStep::Reload { name })
            &&& action == SaveAction::Reload
        } else {
            told(ui, next, action, Trouble::SaveFailed)
        },
        SaveStep::Reload { name } => match event {
            SaveEvent::Found { collection: Some(c) } => {
                &&& next.step == (SaveStep::Sources { name, collection: c })
                &&& action == SaveAction::ListSources
            },
            SaveEvent::Found { collection: None } => told(ui, next, action, Trouble::Vanished),
            _ => told(ui, next, action, Trouble::ReloadFailed),
        },
        SaveStep::Sources { name, collection } => match event {
            SaveEvent::Listed { refs } => answered(
                next,
                action,
                saved(ui, name@, &collection, refs@),
            ),
            _ => false,
        },
        SaveStep::Over => false,
    }
}

fn tell(ui: &Ui, trouble: Trouble) -> (r: (SaveFlow, SaveAction))
    ensures
        told(ui, r.0, r.1, trouble),
{
    (
        SaveFlow { step: SaveStep::Over },
        SaveAction::Answer { updates: trouble_notice(trouble).show(ui) },
    )
}

impl SaveFlow {
    /// Begins with a form; the collection is looked for first.
    pub fn begin(form: UpdateForm) -> (r: SaveFlow)
        ensures
            r.step == (SaveStep::Find { form }),
    {
        SaveFlow { step: SaveStep::Find { form } }
    }

    fn check(ui: &Ui, form: UpdateForm, c: Collection) -> (r: (SaveFlow, SaveAction))
        ensures
            save_step(
                SaveFlow { step: SaveStep::Find { form } },
                ui,
                SaveEvent::Found { collection: Some(c) },
                r.0,
                r.1,
            ),
    {
        match read_update(&form, &c) {
            Ok(edit) => {
                let groups = clone_list(&edit.allowed_groups);
                (
                    SaveFlow { step: SaveStep::Edit { name: c.name, groups } },
                    SaveAction::StoreEdit { edit },
                )
            },
            Err(notice) => (
                SaveFlow { step: SaveStep::Over },
                SaveAction::Answer { updates: notice.show(ui) },
            ),
        }
    }

    fn show(ui: &Ui, name: String, c: Collection, refs: Vec<CollectionRef>) -> (r: (
        SaveFlow,
        SaveAction,
    ))
        ensures
            answered(r.0, r.1, saved(ui, name@, &c, refs@)),
    {
        let message = collection_saved(&name).text(ui);
        let updates = row_patch(ui, &c, &refs, &message, None);
        (SaveFlow { step: SaveStep::Over }, SaveAction::Answer { updates })
    }

    /// What is done after an event.
    pub fn next(self, ui: &Ui, event: SaveEvent) -> (r: (SaveFlow, SaveAction))
        requires
            self.expects(event),
        ensures
            save_step(self, ui, event, r.0, r.1),
    {
        match (self.step, event) {
            (SaveStep::Find { form }, SaveEvent::Found { collection }) => match collection {
                Some(c) => Self::check(ui, form, c),
                None => tell(ui, Trouble::CollectionMissing),
            },
            (SaveStep::Find { .. }, _) => tell(ui, Trouble::CollectionUnreadable),
            (SaveStep::Edit { name, groups }, SaveEvent::Stored) => (
                SaveFlow { step: SaveStep::Groups { name } },
                SaveAction::StoreGroups { groups },
            ),
            (SaveStep::Edit { .. }, _) => tell(ui, Trouble::SaveFailed),
            (SaveStep::Groups { name }, SaveEvent::Stored) => (
                SaveFlow { step: SaveStep::Reload { name } },
                SaveAction::Reload,
            ),
            (SaveStep::Groups { .. }, _) => tell(ui, Trouble::SaveFailed),
            (SaveStep::Reload { name }, SaveEvent::Found { collection }) => match collection {
                Some(c) => (
                    SaveFlow { step: SaveStep::Sources { name, collection: c } },
                    SaveAction::ListSources,
                ),
                None => tell(ui, Trouble::Vanished),
            },
            (SaveStep::Reload { .. }, _) => tell(ui, Trouble::ReloadFailed),
            (SaveStep::Sources { name, collection }, SaveEvent::Listed { refs }) => Self::show(
                ui,
                name,
                collection,
                refs,
            ),
            (SaveStep::Sources { .. }, _) => tell(ui, Trouble::ReloadFailed),
            (SaveStep::Over, _) => tell(ui, Trouble::ReloadFailed),
        }
    }
}

// ---------------------------------------------------------------------------
// Laws

/// Nothing is stored of a form that is refused, nor of one for a collection that
/// is not there.
pub proof fn only_a_good_form_is_stored(
    flow: SaveFlow,
    ui: &Ui,
    event: SaveEvent,
    next: SaveFlow,
    action: SaveAction,
)
    requires
        flow.expects(event),
        save_step(flow, ui, event, next, action),
        action is StoreEdit,
    ensures
        flow.step is Find,
        event matches SaveEvent::Found { collection: Some(c) } && update_fault(
            flow.step->form,
            &c,
        ) is None && edit_asked(flow.step->form, &c, action->edit),
{
}

/// An edit without a new access token keeps the stored one, unless it is to be
/// cleared.
pub proof fn the_token_is_kept(form: UpdateForm, existing: &Collection, edit: CollectionEdit)
    requires
        edit_asked(form, existing, edit),
        nonblank(opt_text(form.pat)) is None,
    ensures
        opt_text(edit.pat) == (if form.clear_pat is Some {
            None
        } else {
            opt_text(existing.pat)
        }),
{
}

/// How many steps a flow has left at most.
pub open spec fn steps_left(step: SaveStep) -> nat {
    match step {
        SaveStep::Find { .. } => 5,
        SaveStep::Edit { .. } => 4,
        SaveStep::Groups { .. } => 3,
        SaveStep::Reload { .. } => 2,
        SaveStep::Sources { .. } => 1,
        SaveStep::Over => 0,
    }
}

/// Every step brings a flow nearer its end, and it ends with an answer.
pub proof fn saving_ends(
    flow: SaveFlow,
    ui: &Ui,
    event: SaveEvent,
    next: SaveFlow,
    action: SaveAction,
)
    requires
        flow.expects(event),
        save_step(flow, ui, event, next, action),
    ensures
        steps_left(next.step) < steps_left(flow.step),
        action is Answer <==> next.step is Over,
{
}

/// The course of saving an edited collection from its first step to its last: the edit is
/// stored, then the groups that it asks for, and the row is shown as the collection is
/// then, under the name that it had.
pub proof fn an_edit_is_stored_and_shown(
    ui: &Ui,
    form: UpdateForm,
    c: Collection,
    fresh: Collection,
    refs: Vec<CollectionRef>,
    flow: SaveFlow,
    edit: (SaveFlow, SaveAction),
    groups: (SaveFlow, SaveAction),
    reload: (SaveFlow, SaveAction),
    sources: (SaveFlow, SaveAction),
    answer: (SaveFlow, SaveAction),
)
    requires
        update_fault(form, &c) is None,
        call_ensures(SaveFlow::begin, (form,), flow),
        call_ensures(
            SaveFlow::next,
            (flow, ui, SaveEvent::Found { collection: Some(c) }),
            edit,
        ),
        call_ensures(SaveFlow::next, (edit.0, ui, SaveEvent::Stored), groups),
        call_ensures(SaveFlow::next, (groups.0, ui, SaveEvent::Stored), reload),
        call_ensures(
            SaveFlow::next,
            (reload.0, ui, SaveEvent::Found { collection: Some(fresh) }),
            sources,
        ),
        call_ensures(SaveFlow::next, (sources.0, ui, SaveEvent::Listed { refs }), answer),
    ensures
        edit.1 is StoreEdit,
        edit_asked(form, &c, edit.1->edit),
        groups.1 is StoreGroups,
        texts(groups.1->groups@) == crate::text::items_of(
            crate::text::text_or_empty(opt_text(form.allowed_groups)),
            ","@,
        ),
        reload.1 is Reload,
        sources.1 is ListSources,
        answer.1 is Answer,
        views(answer.1->updates@).len() == 2,
        views(answer.1->updates@)[0] == patch(
            "#rag-row-"@ + crate::num::signed_decimal(fresh.id as int),
            "outer"@,
            collection_row(ui, &fresh, refs@),
        ),
        views(answer.1->updates@)[1] == said(true, "rag-toast-saved"@).with(
            "name"@,
            c.name@,
        ).shown(ui),
        answer.0.step is Over,
{
}

/// What goes wrong while saving is told in its own words, and ends it.
pub proof fn a_failed_save_says_why(
    ui: &Ui,
    flow: SaveFlow,
    event: SaveEvent,
    r: (SaveFlow, SaveAction),
)
    requires
        flow.expects(event),
        call_ensures(SaveFlow::next, (flow, ui, event), r),
    ensures
        flow.step is Find && event == (SaveEvent::Found { collection: None }) ==> tells(
            ui,
            r,
            "rag-toast-collection-not-found-cap"@,
        ),
        flow.step is Find && event is FindingFailed ==> tells(
            ui,
            r,
            "rag-toast-load-collection-failed-cap"@,
        ),
        flow.step is Reload && event == (SaveEvent::Found { collection: None }) ==> tells(
            ui,
            r,
            "rag-toast-vanished"@,
        ),
        flow.step is Reload && event is FindingFailed ==> tells(
            ui,
            r,
            "rag-toast-saved-reload-failed"@,
        ),
        flow.step is Edit && event is StoringFailed ==> tells(ui, r, "rag-toast-save-failed"@),
        flow.step is Groups && event is StoringFailed ==> tells(ui, r, "rag-toast-save-failed"@),
        flow.step is Find && event is Found && event->collection is Some && update_fault(
            flow.step->form,
            &event->collection->0,
        ) is Some ==> tells(
            ui,
            r,
            update_fault(flow.step->form, &event->collection->0)->0,
        ),
{
}

/// Whether a step ends with a message about a failure and nothing else.
pub open spec fn tells(ui: &Ui, r: (SaveFlow, SaveAction), key: Seq<char>) -> bool {
    &&& r.0.step is Over
    &&& r.1 is Answer
    &&& views(r.1->updates@) == seq![said(false, key).shown(ui)]
}

} // verus!
