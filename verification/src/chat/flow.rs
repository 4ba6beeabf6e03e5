//! The course of a message, step by step.
//!
//! A sent message is checked, the user's one worker slot is taken, the message
//! and the empty reply are stored, and a worker is started that writes the
//! reply. A repeated reply takes the slot, is stored and is written in the same
//! way. [`TurnFlow::next`] says what is done after each event; whoever runs it
//! does that and hands back the next event.
//!
//! The slot is taken before anything is stored: a second click while a reply is
//! being written must not leave a reply behind that nobody writes.
use crate::chat::submit::{
    augment_user_text, first_message_title, quick_title, with_markers, ChatSubmit, SubmitView,
};
use crate::html::Ui;
use vstd::prelude::*;

verus! {

/// What a flow waits for.
#[derive(Clone, Copy, PartialEq, Eq, Structural, Debug)]
pub enum Step {
    /// Whether the conversation is the sender's.
    Session,
    /// Whether the sender is within their limits.
    Quota,
    /// The content of the request.
    Body,
    /// The message in it.
    Submit,
    /// The worker slot.
    Slot,
    /// The stored message.
    UserTurn,
    /// The stored empty reply.
    Reply,
    /// Nothing more.
    Over,
}

/// What a flow brings into the conversation.
pub enum Cause {
    /// A new message; `untitled` says whether the conversation has no title yet.
    Message { untitled: bool, submit: Option<ChatSubmit> },
    /// The reply to what is there once more, by this model.
    Again { model: String },
}

/// A flow.
pub struct TurnFlow {
    pub step: Step,
    pub cause: Cause,
}

/// What happened.
pub enum Event {
    SessionFound { titled: bool },
    SessionMissing,
    WithinLimits,
    OverLimits,
    BodyRead,
    Submitted { submit: ChatSubmit },
    SlotTaken,
    SlotBusy,
    UserTurnStored,
    ReplyStored,
    /// The step failed, in words.
    Failed { error: String },
}

/// What is to be done.
pub enum Action {
    CheckLimits,
    ReadBody,
    ReadSubmit,
    TakeSlot,
    FreeSlot,
    StoreUserTurn { text: String },
    StoreTitle { title: String },
    StoreReply { model: String },
    /// Mark the conversation as used now.
    Touch,
    /// Listen to the worker, before it can say anything.
    Listen,
    /// Tell the listeners that the title changed.
    AnnounceTitle,
    StartWorker { model: String, voice: bool },
    /// Find a better title in the background.
    FindTitle { text: String, model: String },
    /// Answer with the new bubbles and what the worker says.
    StreamNew,
    /// Answer with the whole conversation and what the worker says.
    StreamAll,
    /// Answer with an error.
    Refuse { message: String },
}

/// A [`Cause`] over texts.
pub ghost enum CauseView {
    Message { untitled: bool, submit: Option<SubmitView> },
    Again { model: Seq<char> },
}

/// A [`TurnFlow`] over texts.
pub ghost struct FlowView {
    pub step: Step,
    pub cause: CauseView,
}

/// An [`Event`] over texts.
pub ghost enum EventView {
    SessionFound { titled: bool },
    SessionMissing,
    WithinLimits,
    OverLimits,
    BodyRead,
    Submitted { submit: SubmitView },
    SlotTaken,
    SlotBusy,
    UserTurnStored,
    ReplyStored,
    Failed { error: Seq<char> },
}

/// An [`Action`] over texts.
pub ghost enum ActionView {
    CheckLimits,
    ReadBody,
    ReadSubmit,
    TakeSlot,
    FreeSlot,
    StoreUserTurn { text: Seq<char> },
    StoreTitle { title: Seq<char> },
    StoreReply { model: Seq<char> },
    Touch,
    Listen,
    AnnounceTitle,
    StartWorker { model: Seq<char>, voice: bool },
    FindTitle { text: Seq<char>, model: Seq<char> },
    StreamNew,
    StreamAll,
    Refuse { message: Seq<char> },
}

impl View for Cause {
    type V = CauseView;

    open spec fn view(&self) -> CauseView {
        match self {
            Cause::Message { untitled, submit } => CauseView::Message {
                untitled: *untitled,
                submit: match submit {
                    Some(s) => Some(s@),
                    None => None,
                },
            },
            Cause::Again { model } => CauseView::Again { model: model@ },
        }
    }
}

impl View for TurnFlow {
    type V = FlowView;

    open spec fn view(&self) -> FlowView {
        FlowView { step: self.step, cause: self.cause@ }
    }
}

impl View for Event {
    type V = EventView;

    open spec fn view(&self) -> EventView {
        match self {
            Event::SessionFound { titled } => EventView::SessionFound { titled: *titled },
            Event::SessionMissing => EventView::SessionMissing,
            Event::WithinLimits => EventView::WithinLimits,
            Event::OverLimits => EventView::OverLimits,
            Event::BodyRead => EventView::BodyRead,
            Event::Submitted { submit } => EventView::Submitted { submit: submit@ },
            Event::SlotTaken => EventView::SlotTaken,
            Event::SlotBusy => EventView::SlotBusy,
            Event::UserTurnStored => EventView::UserTurnStored,
            Event::ReplyStored => EventView::ReplyStored,
            Event::Failed { error } => EventView::Failed { error: error@ },
        }
    }
}

impl View for Action {
    type V = ActionView;

    open spec fn view(&self) -> ActionView {
        match self {
            Action::CheckLimits => ActionView::CheckLimits,
            Action::ReadBody => ActionView::ReadBody,
            Action::ReadSubmit => ActionView::ReadSubmit,
            Action::TakeSlot => ActionView::TakeSlot,
            Action::FreeSlot => ActionView::FreeSlot,
            Action::StoreUserTurn { text } => ActionView::StoreUserTurn { text: text@ },
            Action::StoreTitle { title } => ActionView::StoreTitle { title: title@ },
            Action::StoreReply { model } => ActionView::StoreReply { model: model@ },
            Action::Touch => ActionView::Touch,
            Action::Listen => ActionView::Listen,
            Action::AnnounceTitle => ActionView::AnnounceTitle,
            Action::StartWorker { model, voice } => ActionView::StartWorker {
                model: model@,
                voice: *voice,
            },
            Action::FindTitle { text, model } => ActionView::FindTitle {
                text: text@,
                model: model@,
            },
            Action::StreamNew => ActionView::StreamNew,
            Action::StreamAll => ActionView::StreamAll,
            Action::Refuse { message } => ActionView::Refuse { message: message@ },
        }
    }
}

/// The views of a list of actions.
pub open spec fn action_views(v: Seq<Action>) -> Seq<ActionView> {
    v.map_values(|a: Action| a@)
}

impl FlowView {
    /// The course of a new message.
    pub open spec fn message() -> FlowView {
        FlowView {
            step: Step::Session,
            cause: CauseView::Message { untitled: false, submit: None },
        }
    }

    /// The course of a repeated reply.
    pub open spec fn again(model: Seq<char>) -> FlowView {
        FlowView { step: Step::Slot, cause: CauseView::Again { model } }
    }

    /// Whether a state can occur: a message is known from the step on that takes
    /// the slot; a repeated reply begins there and stores no message.
    pub open spec fn wf(self) -> bool {
        match self.cause {
            CauseView::Message { submit, .. } => (self.step == Step::Slot || self.step
                == Step::UserTurn || self.step == Step::Reply) ==> submit is Some,
            CauseView::Again { .. } => self.step == Step::Slot || self.step == Step::Reply
                || self.step == Step::Over,
        }
    }

    /// Whether the flow holds the worker slot.
    pub open spec fn holds_slot(self) -> bool {
        self.step == Step::UserTurn || self.step == Step::Reply
    }

    /// Whether an event answers what the flow waits for.
    pub open spec fn expects(self, event: EventView) -> bool {
        match self.step {
            Step::Session => event is SessionFound || event is SessionMissing || event is Failed,
            Step::Quota => event is WithinLimits || event is OverLimits,
            Step::Body => event is BodyRead || event is Failed,
            Step::Submit => event is Submitted || event is Failed,
            Step::Slot => event is SlotTaken || event is SlotBusy,
            Step::UserTurn => event is UserTurnStored || event is Failed,
            Step::Reply => event is ReplyStored || event is Failed,
            Step::Over => false,
        }
    }

    /// The flow at another step.
    pub open spec fn at(self, step: Step) -> FlowView {
        FlowView { step, ..self }
    }

    /// The end, with an error; a slot that is held is freed.
    pub open spec fn refused(self, message: Seq<char>) -> (FlowView, Seq<ActionView>) {
        (
            self.at(Step::Over),
            if self.holds_slot() {
                seq![ActionView::FreeSlot, ActionView::Refuse { message }]
            } else {
                seq![ActionView::Refuse { message }]
            },
        )
    }

    /// The model that writes the reply.
    pub open spec fn model(self) -> Seq<char> {
        match self.cause {
            CauseView::Message { submit, .. } => submit->0.model,
            CauseView::Again { model } => model,
        }
    }

    /// What is done once the reply is stored. The listening comes before
    /// anything that can speak.
    pub open spec fn started(self) -> Seq<ActionView> {
        match self.cause {
            CauseView::Message { untitled, submit } => {
                let s = submit->0;
                let start = ActionView::StartWorker { model: s.model, voice: s.voice };
                if untitled {
                    seq![
                        ActionView::Touch,
                        ActionView::Listen,
                        ActionView::AnnounceTitle,
                        start,
                        ActionView::FindTitle { text: s.user_text, model: s.model },
                        ActionView::StreamNew,
                    ]
                } else {
                    seq![ActionView::Touch, ActionView::Listen, start, ActionView::StreamNew]
                }
            },
            CauseView::Again { model } => seq![
                ActionView::Touch,
                ActionView::Listen,
                ActionView::StartWorker { model, voice: false },
                ActionView::StreamAll,
            ],
        }
    }

    /// What follows the taking of the slot.
    pub open spec fn slot_taken(self) -> (FlowView, Seq<ActionView>) {
        match self.cause {
            CauseView::Message { submit, .. } => (
                self.at(Step::UserTurn),
                seq![
                    ActionView::StoreUserTurn {
                        text: with_markers(submit->0.user_text, submit->0.attachments),
                    },
                ],
            ),
            CauseView::Again { model } => (
                self.at(Step::Reply),
                seq![ActionView::StoreReply { model }],
            ),
        }
    }

    /// What follows the storing of the message: an untitled conversation gets a
    /// title made from what was typed.
    pub open spec fn user_turn_stored(self) -> (FlowView, Seq<ActionView>) {
        let reply = ActionView::StoreReply { model: self.model() };
        (
            self.at(Step::Reply),
            match self.cause {
                CauseView::Message { untitled, submit } => if untitled {
                    seq![
                        ActionView::StoreTitle { title: quick_title(submit->0.user_text) },
                        reply,
                    ]
                } else {
                    seq![reply]
                },
                CauseView::Again { .. } => seq![reply],
            },
        )
    }

    /// What follows an event.
    pub open spec fn after(self, ui: &Ui, event: EventView) -> (FlowView, Seq<ActionView>) {
        match event {
            EventView::SessionFound { titled } => (
                FlowView {
                    step: Step::Quota,
                    cause: CauseView::Message { untitled: !titled, submit: None },
                },
                seq![ActionView::CheckLimits],
            ),
            EventView::SessionMissing => self.refused(
                ui.message("chat-error-conversation-not-found"@),
            ),
            EventView::WithinLimits => (self.at(Step::Body), seq![ActionView::ReadBody]),
            EventView::OverLimits => self.refused(ui.message("chat-error-rate-limited"@)),
            EventView::BodyRead => (self.at(Step::Submit), seq![ActionView::ReadSubmit]),
            EventView::Submitted { submit } => if submit.user_text.len() == 0
                && submit.attachments.len() == 0 {
                self.refused(ui.message("chat-error-message-empty"@))
            } else {
                (
                    FlowView {
                        step: Step::Slot,
                        cause: CauseView::Message {
                            untitled: match self.cause {
                                CauseView::Message { untitled, .. } => untitled,
                                CauseView::Again { .. } => false,
                            },
                            submit: Some(submit),
                        },
                    },
                    seq![ActionView::TakeSlot],
                )
            },
            EventView::SlotTaken => self.slot_taken(),
            EventView::SlotBusy => self.refused(ui.message("chat-error-still-streaming"@)),
            EventView::UserTurnStored => self.user_turn_stored(),
            EventView::ReplyStored => (self.at(Step::Over), self.started()),
            EventView::Failed { error } => self.refused(error),
        }
    }
}

fn one(a: Action) -> (r: Vec<Action>)
    ensures
        action_views(r@) == seq![a@],
{
    let mut out: Vec<Action> = Vec::new();
    out.push(a);
    assert(action_views(out@) =~= seq![a@]);
    out
}

impl TurnFlow {
    /// Begins the course of a new message.
    pub fn message() -> (r: TurnFlow)
        ensures
            r@ == FlowView::message(),
            r@.wf(),
    {
        TurnFlow { step: Step::Session, cause: Cause::Message { untitled: false, submit: None } }
    }

    /// Begins the course of a repeated reply.
    pub fn again(model: String) -> (r: (TurnFlow, Vec<Action>))
        ensures
            r.0@ == FlowView::again(model@),
            r.0@.wf(),
            action_views(r.1@) == seq![ActionView::TakeSlot],
    {
        (TurnFlow { step: Step::Slot, cause: Cause::Again { model } }, one(Action::TakeSlot))
    }

    fn refuse(self, message: String) -> (r: (TurnFlow, Vec<Action>))
        ensures
            (r.0@, action_views(r.1@)) == self@.refused(message@),
    {
        let mut out: Vec<Action> = Vec::new();
        if self.step == Step::UserTurn || self.step == Step::Reply {
            out.push(Action::FreeSlot);
        }
        out.push(Action::Refuse { message });
        assert(action_views(out@) =~= self@.refused(message@).1);
        (TurnFlow { step: Step::Over, ..self }, out)
    }

    fn take_slot(self) -> (r: (TurnFlow, Vec<Action>))
        requires
            self@.wf(),
            self@.step == Step::Slot,
        ensures
            (r.0@, action_views(r.1@)) == self@.slot_taken(),
    {
        let (step, action) = match &self.cause {
            Cause::Message { submit, .. } => match submit {
                Some(s) => (
                    Step::UserTurn,
                    Action::StoreUserTurn { text: augment_user_text(s) },
                ),
                None => (Step::UserTurn, Action::StoreUserTurn { text: String::new() }),
            },
            Cause::Again { model } => (Step::Reply, Action::StoreReply { model: model.clone() }),
        };
        (TurnFlow { step, ..self }, one(action))
    }

    fn store_reply(self) -> (r: (TurnFlow, Vec<Action>))
        requires
            self@.wf(),
            self@.step == Step::UserTurn,
        ensures
            (r.0@, action_views(r.1@)) == self@.user_turn_stored(),
    {
        let mut out: Vec<Action> = Vec::new();
        match &self.cause {
            Cause::Message { untitled, submit } => {
                if let Some(s) = submit {
                    if *untitled {
                        out.push(Action::StoreTitle { title: first_message_title(&s.user_text) });
                    }
                    out.push(Action::StoreReply { model: s.model.clone() });
                }
            },
            Cause::Again { model } => {
                out.push(Action::StoreReply { model: model.clone() });
            },
        }
        assert(action_views(out@) =~= self@.user_turn_stored().1);
        (TurnFlow { step: Step::Reply, ..self }, out)
    }

    fn start(self) -> (r: (TurnFlow, Vec<Action>))
        requires
            self@.wf(),
            self@.step == Step::Reply,
        ensures
            r.0@ == self@.at(Step::Over),
            action_views(r.1@) == self@.started(),
    {
        let mut out: Vec<Action> = Vec::new();
        out.push(Action::Touch);
        out.push(Action::Listen);
        match &self.cause {
            Cause::Message { untitled, submit } => {
                if let Some(s) = submit {
                    if *untitled {
                        out.push(Action::AnnounceTitle);
                    }
                    out.push(Action::StartWorker { model: s.model.clone(), voice: s.voice });
                    if *untitled {
                        out.push(
                            Action::FindTitle { text: s.user_text.clone(), model: s.model.clone() },
                        );
                    }
                    out.push(Action::StreamNew);
                }
            },
            Cause::Again { model } => {
                out.push(Action::StartWorker { model: model.clone(), voice: false });
                out.push(Action::StreamAll);
            },
        }
        assert(action_views(out@) =~= self@.started());
        (TurnFlow { step: Step::Over, ..self }, out)
    }

    fn take_submit(self, ui: &Ui, submit: ChatSubmit) -> (r: (TurnFlow, Vec<Action>))
        requires
            self@.wf(),
            self@.step == Step::Submit,
        ensures
            (r.0@, action_views(r.1@)) == self@.after(
                ui,
                EventView::Submitted { submit: submit@ },
            ),
    {
        assert(submit@.attachments.len() == submit.attachments@.len());
        if submit.user_text.as_str().is_empty() && submit.attachments.len() == 0 {
            return self.refuse(ui.t("chat-error-message-empty"));
        }
        let untitled = match &self.cause {
            Cause::Message { untitled, .. } => *untitled,
            Cause::Again { .. } => false,
        };
        (
            TurnFlow { step: Step::Slot, cause: Cause::Message { untitled, submit: Some(submit) } },
            one(Action::TakeSlot),
        )
    }

    /// What follows an event: the flow as it is then, and what is to be done, in
    /// order.
    pub fn next(self, ui: &Ui, event: Event) -> (r: (TurnFlow, Vec<Action>))
        requires
            self@.wf(),
            self@.expects(event@),
        ensures
            (r.0@, action_views(r.1@)) == self@.after(ui, event@),
            r.0@.wf(),
    {
        match event {
            Event::SessionFound { titled } => (
                TurnFlow {
                    step: Step::Quota,
                    cause: Cause::Message { untitled: !titled, submit: None },
                },
                one(Action::CheckLimits),
            ),
            Event::SessionMissing => self.refuse(ui.t("chat-error-conversation-not-found")),
            Event::WithinLimits => (
                TurnFlow { step: Step::Body, ..self },
                one(Action::ReadBody),
            ),
            Event::OverLimits => self.refuse(ui.t("chat-error-rate-limited")),
            Event::BodyRead => (
                TurnFlow { step: Step::Submit, ..self },
                one(Action::ReadSubmit),
            ),
            Event::Submitted { submit } => self.take_submit(ui, submit),
            Event::SlotTaken => self.take_slot(),
            Event::SlotBusy => self.refuse(ui.t("chat-error-still-streaming")),
            Event::UserTurnStored => self.store_reply(),
            Event::ReplyStored => self.start(),
            Event::Failed { error } => self.refuse(error),
        }
    }
}

// ---------------------------------------------------------------------------
// Laws

/// Whether an action stores something in the conversation.
pub open spec fn stores(a: ActionView) -> bool {
    a is StoreUserTurn || a is StoreReply || a is StoreTitle
}

/// Whether an action hands the slot to a worker.
pub open spec fn hands_over(a: ActionView) -> bool {
    a is StartWorker
}

/// Nothing is stored before the slot is held: whatever a step stores, it stores
/// with the slot taken, then or before.
pub proof fn nothing_is_stored_without_the_slot(
    flow: FlowView,
    ui: &Ui,
    event: EventView,
    i: int,
)
    requires
        flow.wf(),
        flow.expects(event),
        0 <= i < flow.after(ui, event).1.len(),
        stores(flow.after(ui, event).1[i]),
    ensures
        flow.holds_slot() || event is SlotTaken,
        flow.after(ui, event).0.holds_slot(),
{
}

/// The slot is never lost: after a step it is held if it was held or was taken,
/// unless the step freed it or handed it to a worker.
pub proof fn the_slot_is_not_lost(flow: FlowView, ui: &Ui, event: EventView)
    requires
        flow.wf(),
        flow.expects(event),
    ensures
        ({
            let (next, actions) = flow.after(ui, event);
            let gone = exists|i: int|
                0 <= i < actions.len() && (#[trigger] actions[i] is FreeSlot || hands_over(
                    actions[i],
                ));
            next.holds_slot() <==> (flow.holds_slot() || event is SlotTaken) && !gone
        }),
{
    let (next, actions) = flow.after(ui, event);
    if event is ReplyStored {
        match flow.cause {
            CauseView::Message { untitled, submit } => {
                assert(hands_over(actions[if untitled { 3 } else { 2 }]));
            },
            CauseView::Again { model } => {
                assert(hands_over(actions[2]));
            },
        }
    } else if event is Failed && flow.holds_slot() {
        assert(actions[0] is FreeSlot);
    }
}

/// A flow ends in one of two ways: with an answer that follows the worker, once
/// the reply is stored, or with an error as its last action.
pub proof fn a_flow_ends_with_an_answer(flow: FlowView, ui: &Ui, event: EventView)
    requires
        flow.wf(),
        flow.expects(event),
        flow.after(ui, event).0.step == Step::Over,
    ensures
        ({
            let last = flow.after(ui, event).1.last();
            if event is ReplyStored {
                last is StreamNew || last is StreamAll
            } else {
                last is Refuse
            }
        }),
{
}

/// Every step ends a flow or brings it nearer its end, so that a run is finite.
pub open spec fn steps_left(step: Step) -> nat {
    match step {
        Step::Session => 7,
        Step::Quota => 6,
        Step::Body => 5,
        Step::Submit => 4,
        Step::Slot => 3,
        Step::UserTurn => 2,
        Step::Reply => 1,
        Step::Over => 0,
    }
}

/// Every step brings a flow nearer its end.
pub proof fn a_flow_ends(flow: FlowView, ui: &Ui, event: EventView)
    requires
        flow.wf(),
        flow.expects(event),
    ensures
        steps_left(flow.after(ui, event).0.step) < steps_left(flow.step),
{
}

/// A message with a text or with a file is taken: the flow keeps it as it came and
/// asks for the slot, and for nothing else. What is refused as empty has neither.
pub proof fn only_empty_messages_are_refused(flow: FlowView, ui: &Ui, submit: SubmitView)
    requires
        flow.wf(),
        flow.step == Step::Submit,
    ensures
        ({
            let (next, actions) = flow.after(ui, EventView::Submitted { submit });
            if submit.user_text.len() > 0 || submit.attachments.len() > 0 {
                &&& next.step == Step::Slot
                &&& next.cause is Message
                &&& next.cause->submit == Some(submit)
                &&& next.cause->untitled == flow.cause->untitled
                &&& actions == seq![ActionView::TakeSlot]
            } else {
                &&& next.step == Step::Over
                &&& actions == seq![
                    ActionView::Refuse { message: ui.message("chat-error-message-empty"@) },
                ]
            }
        }),
{
}

/// A flow that is turned away says why, and does nothing else but free a slot that
/// it holds: an unknown conversation, a spent allowance, a reply that is still being
/// written, or the error that came.
pub proof fn a_refusal_says_why(flow: FlowView, ui: &Ui, error: Seq<char>)
    requires
        flow.wf(),
    ensures
        flow.step == Step::Session ==> flow.after(ui, EventView::SessionMissing).1 == seq![
            ActionView::Refuse { message: ui.message("chat-error-conversation-not-found"@) },
        ],
        flow.step == Step::Quota ==> flow.after(ui, EventView::OverLimits).1 == seq![
            ActionView::Refuse { message: ui.message("chat-error-rate-limited"@) },
        ],
        flow.step == Step::Slot ==> flow.after(ui, EventView::SlotBusy).1 == seq![
            ActionView::Refuse { message: ui.message("chat-error-still-streaming"@) },
        ],
        flow.step == Step::Session || flow.step == Step::Body || flow.step == Step::Submit
            ==> flow.after(ui, EventView::Failed { error }).1 == seq![
            ActionView::Refuse { message: error },
        ],
        flow.step == Step::UserTurn || flow.step == Step::Reply ==> flow.after(
            ui,
            EventView::Failed { error },
        ).1 == seq![ActionView::FreeSlot, ActionView::Refuse { message: error }],
        forall|event: EventView|
            flow.expects(event) && (event is SessionMissing || event is OverLimits || event
                is SlotBusy || event is Failed) ==> (#[trigger] flow.after(ui, event)).0.step
                == Step::Over,
{
}

/// The course of a message from its first step to its last: what was typed is stored
/// with its files, the reply is stored, written and followed with the model and the
/// voice that the message asks for, and a conversation gets a title if and only if it
/// had none.
pub proof fn a_message_is_stored_and_answered(ui: &Ui, titled: bool, submit: SubmitView)
    requires
        submit.user_text.len() > 0 || submit.attachments.len() > 0,
    ensures
        ({
            let (found, limits) = FlowView::message().after(
                ui,
                EventView::SessionFound { titled },
            );
            let (within, body) = found.after(ui, EventView::WithinLimits);
            let (read, form) = within.after(ui, EventView::BodyRead);
            let (sent, slot) = read.after(ui, EventView::Submitted { submit });
            let (taken, turn) = sent.after(ui, EventView::SlotTaken);
            let (stored, reply) = taken.after(ui, EventView::UserTurnStored);
            let (over, answer) = stored.after(ui, EventView::ReplyStored);
            &&& limits == seq![ActionView::CheckLimits]
            &&& body == seq![ActionView::ReadBody]
            &&& form == seq![ActionView::ReadSubmit]
            &&& slot == seq![ActionView::TakeSlot]
            &&& turn == seq![
                ActionView::StoreUserTurn {
                    text: with_markers(submit.user_text, submit.attachments),
                },
            ]
            &&& reply.last() == (ActionView::StoreReply { model: submit.model })
            &&& reply.drop_last() == if titled {
                Seq::<ActionView>::empty()
            } else {
                seq![ActionView::StoreTitle { title: quick_title(submit.user_text) }]
            }
            &&& answer.first() == ActionView::Touch
            &&& answer.contains(
                ActionView::StartWorker { model: submit.model, voice: submit.voice },
            )
            &&& answer.contains(ActionView::AnnounceTitle) <==> !titled
            &&& answer.contains(
                ActionView::FindTitle { text: submit.user_text, model: submit.model },
            ) <==> !titled
            &&& answer.last() == ActionView::StreamNew
            &&& answer.len() == if titled { 4int } else { 6int }
            &&& over.step == Step::Over
        }),
{
    let found = FlowView::message().after(ui, EventView::SessionFound { titled }).0;
    let within = found.after(ui, EventView::WithinLimits).0;
    let read = within.after(ui, EventView::BodyRead).0;
    let sent = read.after(ui, EventView::Submitted { submit }).0;
    let taken = sent.after(ui, EventView::SlotTaken).0;
    let (stored, reply) = taken.after(ui, EventView::UserTurnStored);
    let answer = stored.after(ui, EventView::ReplyStored).1;
    if titled {
        assert(reply.drop_last() =~= Seq::<ActionView>::empty());
        assert(answer[2] == (ActionView::StartWorker { model: submit.model, voice: submit.voice }));
    } else {
        assert(reply.drop_last() =~= seq![
            ActionView::StoreTitle { title: quick_title(submit.user_text) },
        ]);
        assert(answer[2] == ActionView::AnnounceTitle);
        assert(answer[3] == (ActionView::StartWorker { model: submit.model, voice: submit.voice }));
        assert(answer[4] == (ActionView::FindTitle {
            text: submit.user_text,
            model: submit.model,
        }));
    }
}

/// A repeated reply stores no message and no title: it is stored, written and
/// followed with the model that it was asked of, without the voice.
pub proof fn a_repeated_reply_is_answered(ui: &Ui, model: Seq<char>)
    ensures
        ({
            let (taken, reply) = FlowView::again(model).after(ui, EventView::SlotTaken);
            let (over, answer) = taken.after(ui, EventView::ReplyStored);
            &&& reply == seq![ActionView::StoreReply { model }]
            &&& answer == seq![
                ActionView::Touch,
                ActionView::Listen,
                ActionView::StartWorker { model, voice: false },
                ActionView::StreamAll,
            ]
            &&& over.step == Step::Over
        }),
{
}

/// Nobody misses what a worker says: whoever starts one listens before.
pub proof fn the_listener_comes_first(flow: FlowView, ui: &Ui, event: EventView, k: int)
    requires
        flow.wf(),
        flow.expects(event),
        0 <= k < flow.after(ui, event).1.len(),
        flow.after(ui, event).1[k] is StartWorker || flow.after(ui, event).1[k] is AnnounceTitle,
    ensures
        exists|j: int| 0 <= j < k && #[trigger] flow.after(ui, event).1[j] is Listen,
{
    assert(flow.after(ui, event).1[1] is Listen);
}

/// A repeated reply begins by taking the slot.
pub proof fn a_repeated_reply_takes_the_slot(model: String, r: (TurnFlow, Vec<Action>))
    requires
        call_ensures(TurnFlow::again, (model,), r),
    ensures
        action_views(r.1@) == seq![ActionView::TakeSlot],
        r.0@.model() == model@,
        !r.0@.holds_slot(),
{
}

} // verus!
