//! The state machine of a payment session.
//!
//! A payment is authorized by the payer, confirmed by the store and then
//! captured; it ends as `Successed`, `Failed` or `Closed`. The machine decides;
//! what it decides on is carried out by whoever drives it: the calls to the
//! ledger that it plans, and the effects that each step returns.

use vstd::prelude::*;

use super::{execute, executed, LedgerCall, LedgerCallView, LedgerReply, LedgerReplyView};
use crate::api::{
    InitPaymentRequest, InitPaymentRequestView, Notification, NotificationView, OperationError,
    OperationErrorView, OperationStatus, OperationStatusView, PaymentNotification,
};
use crate::bank::memory::MemoryStorage;
use crate::domain::card_number::CardNumber;
use crate::random::random_uuid;
use crate::routes::html_pages_and_triggers::{Credentials, CredentialsView};

verus! {

/// Seconds to wait before a notification is posted to the store.
pub const WEBHOOK_DELAY_SECS: u64 = 1;

/// Where a payment session stands.
#[derive(Debug)]
pub enum State {
    Init,
    ReadyToConfirm,
    ReadyToCapture,
    Closed { redirect_url: String },
    Failed { redirect_url: String, err: OperationError },
    Successed { redirect_url: String },
}

/// A `State` as contracts see it.
pub enum StateView {
    Init,
    ReadyToConfirm,
    ReadyToCapture,
    Closed { redirect_url: Seq<char> },
    Failed { redirect_url: Seq<char>, err: OperationErrorView },
    Successed { redirect_url: Seq<char> },
}

impl StateView {
    /// Terminal states have no way out.
    pub open spec fn is_terminal(self) -> bool {
        self is Closed || self is Failed || self is Successed
    }

    /// Where a session that ended sends the customer; `None` before the end.
    pub open spec fn redirect_url(self) -> Option<Seq<char>> {
        match self {
            StateView::Closed { redirect_url } => Some(redirect_url),
            StateView::Failed { redirect_url, .. } => Some(redirect_url),
            StateView::Successed { redirect_url } => Some(redirect_url),
            _ => None,
        }
    }

    /// How the session ended, for a terminal state.
    pub open spec fn status(self) -> OperationStatusView {
        match self {
            StateView::Successed { .. } => OperationStatusView::Success,
            StateView::Failed { err, .. } => OperationStatusView::Fail(err),
            _ => OperationStatusView::Cancel,
        }
    }
}

impl View for State {
    type V = StateView;

    open spec fn view(&self) -> StateView {
        match self {
            State::Init => StateView::Init,
            State::ReadyToConfirm => StateView::ReadyToConfirm,
            State::ReadyToCapture => StateView::ReadyToCapture,
            State::Closed { redirect_url } => StateView::Closed { redirect_url: redirect_url@ },
            State::Failed { redirect_url, err } => StateView::Failed {
                redirect_url: redirect_url@,
                err: err@,
            },
            State::Successed { redirect_url } => StateView::Successed {
                redirect_url: redirect_url@,
            },
        }
    }
}

impl Clone for State {
    fn clone(&self) -> (s: Self)
        ensures
            s == *self,
    {
        match self {
            State::Init => State::Init,
            State::ReadyToConfirm => State::ReadyToConfirm,
            State::ReadyToCapture => State::ReadyToCapture,
            State::Closed { redirect_url } => State::Closed { redirect_url: redirect_url.clone() },
            State::Failed { redirect_url, err } => State::Failed {
                redirect_url: redirect_url.clone(),
                err: err.clone(),
            },
            State::Successed { redirect_url } => State::Successed {
                redirect_url: redirect_url.clone(),
            },
        }
    }
}

impl State {
    /// The state in which every session starts.
    pub fn init() -> (s: State)
        ensures
            s@ == StateView::Init,
    {
        State::Init
    }

    /// Is this one of the states that a session ends in?
    pub fn is_terminal(&self) -> (b: bool)
        ensures
            b == self@.is_terminal(),
    {
        match self {
            State::Closed { .. } | State::Failed { .. } | State::Successed { .. } => true,
            _ => false,
        }
    }

    /// Where a session that ended sends the customer; `None` before the end.
    pub fn redirect_url(&self) -> (url: Option<&str>)
        ensures
            match url {
                Some(u) => self@.redirect_url() == Some(u@),
                None => self@.redirect_url() is None,
            },
    {
        match self {
            State::Closed { redirect_url } => Some(redirect_url.as_str()),
            State::Failed { redirect_url, .. } => Some(redirect_url.as_str()),
            State::Successed { redirect_url } => Some(redirect_url.as_str()),
            _ => None,
        }
    }

    /// How a session in this state ended; a session that has not ended counts
    /// as cancelled.
    pub fn status(&self) -> (s: OperationStatus)
        ensures
            s@ == self@.status(),
    {
        match self {
            State::Successed { .. } => OperationStatus::Success,
            State::Failed { err, .. } => OperationStatus::Fail(err.clone()),
            _ => OperationStatus::Cancel,
        }
    }
}

/// What can happen to a payment session.
pub enum Event {
    /// The payer submitted the credentials of the paying account.
    Submit { creds: Credentials },
    /// Nobody acted in time.
    Timeout,
    /// The store confirmed the payment.
    ConfirmRequest,
    /// The store asked for the money.
    CaptureRequest,
    /// The store cancelled the payment.
    CancelRequest,
}

/// An `Event` as contracts see it.
pub enum EventView {
    Submit { creds: CredentialsView },
    Timeout,
    ConfirmRequest,
    CaptureRequest,
    CancelRequest,
}

impl View for Event {
    type V = EventView;

    open spec fn view(&self) -> EventView {
        match self {
            Event::Submit { creds } => EventView::Submit { creds: creds@ },
            Event::Timeout => EventView::Timeout,
            Event::ConfirmRequest => EventView::ConfirmRequest,
            Event::CaptureRequest => EventView::CaptureRequest,
            Event::CancelRequest => EventView::CancelRequest,
        }
    }
}

/// What a step of the machine leaves to be done.
#[derive(Debug)]
pub enum Effect {
    /// Post `notification` to `url` after `delay_secs` seconds.
    Webhook { notification: Notification, url: String, delay_secs: u64 },
    /// The session ended in `state`: tell whoever waits for its end, and
    /// release the watcher that would otherwise expire it.
    Finale { state: State },
}

/// An `Effect` as contracts see it.
pub enum EffectView {
    Webhook { notification: NotificationView, url: Seq<char>, delay_secs: u64 },
    Finale { state: StateView },
}

impl View for Effect {
    type V = EffectView;

    open spec fn view(&self) -> EffectView {
        match self {
            Effect::Webhook { notification, url, delay_secs } => EffectView::Webhook {
                notification: notification@,
                url: url@,
                delay_secs: *delay_secs,
            },
            Effect::Finale { state } => EffectView::Finale { state: state@ },
        }
    }
}

/// The effects of a vector as contracts see them.
pub open spec fn effect_views(effects: Seq<Effect>) -> Seq<EffectView> {
    Seq::new(effects.len(), |i: int| effects[i]@)
}

/// A payment session as contracts see it.
pub struct InnerView {
    pub id: u128,
    pub store_credentials: CredentialsView,
    pub req: InitPaymentRequestView,
    pub payer_card: Option<Seq<char>>,
    pub state: StateView,
}

/// Does the machine act on `event` in `state`? Any other event is ignored.
pub open spec fn accepts(state: StateView, event: EventView) -> bool {
    match state {
        StateView::Init => event is Submit || event is Timeout,
        StateView::ReadyToConfirm => event is ConfirmRequest || event is Timeout
            || event is CancelRequest,
        StateView::ReadyToCapture => event is CaptureRequest || event is Timeout
            || event is CancelRequest,
        _ => false,
    }
}

impl InnerView {
    /// Once the payer is authorized, the session remembers the paying card.
    pub open spec fn wf(self) -> bool {
        (self.state is ReadyToConfirm || self.state is ReadyToCapture) ==> self.payer_card is Some
    }

    /// The state of a session that was closed or that failed.
    pub open spec fn closed(self) -> StateView {
        StateView::Closed { redirect_url: self.req.fail_url }
    }

    /// The state of a session that failed for the reason `err`.
    pub open spec fn failed(self, err: OperationErrorView) -> StateView {
        StateView::Failed { redirect_url: self.req.fail_url, err }
    }

    /// What the session asks of the ledger when `event` arrives: the payer's
    /// authorization on `Submit` in `Init`, the payment on `CaptureRequest` in
    /// `ReadyToCapture` (a plain transaction to the store where the request
    /// names no beneficiaries, a split transaction where it does), nothing
    /// in every other case.
    pub open spec fn plan(self, event: EventView) -> LedgerCallView {
        match (self.state, event, self.payer_card) {
            (StateView::Init, EventView::Submit { creds }, _) => LedgerCallView::Authorize {
                card: creds.card_number,
                password: creds.password,
            },
            (StateView::ReadyToCapture, EventView::CaptureRequest, Some(payer)) => if self.req.beneficiaries.parts.len()
                == 0 {
                LedgerCallView::Transaction {
                    sender: payer,
                    recipient: self.store_credentials.card_number,
                    amount: self.req.amount,
                }
            } else {
                LedgerCallView::SplitTransaction {
                    sender: payer,
                    amount: self.req.amount,
                    beneficiaries: self.req.beneficiaries,
                }
            },
            _ => LedgerCallView::Nothing,
        }
    }

    /// The state that `event` leads to, given what the ledger replied, or
    /// `None` where the event is ignored.
    pub open spec fn target(self, event: EventView, reply: LedgerReplyView) -> Option<StateView> {
        match (self.state, event) {
            (StateView::Init, EventView::Submit { .. }) => match reply {
                LedgerReplyView::Resolved { account: Ok(payer), store: Ok(store) } => if store.card_number
                    == self.store_credentials.card_number {
                    Some(StateView::ReadyToConfirm)
                } else {
                    Some(self.failed(OperationErrorView::NotAuthorizedRequest))
                },
                LedgerReplyView::Resolved { .. } => Some(
                    self.failed(OperationErrorView::NotAuthorizedRequest),
                ),
                _ => None,
            },
            (StateView::Init, EventView::Timeout) => Some(self.closed()),
            (StateView::ReadyToConfirm, EventView::ConfirmRequest) => Some(
                StateView::ReadyToCapture,
            ),
            (StateView::ReadyToConfirm, EventView::Timeout) => Some(self.closed()),
            (StateView::ReadyToConfirm, EventView::CancelRequest) => Some(self.closed()),
            (StateView::ReadyToCapture, EventView::CaptureRequest) => match reply {
                LedgerReplyView::Moved(Ok(_)) => Some(
                    StateView::Successed { redirect_url: self.req.success_url },
                ),
                LedgerReplyView::Moved(Err(e)) => Some(
                    self.failed(OperationErrorView::Failed { reason: e.client_reason() }),
                ),
                _ => None,
            },
            (StateView::ReadyToCapture, EventView::Timeout) => Some(self.closed()),
            (StateView::ReadyToCapture, EventView::CancelRequest) => Some(self.closed()),
            _ => None,
        }
    }

    /// What entering the state `next` leaves to be done: a notification of
    /// the milestone, and for a terminal state first the announcement of the end.
    pub open spec fn effects_of(self, next: StateView) -> Seq<EffectView> {
        match next {
            StateView::Init => Seq::empty(),
            StateView::ReadyToConfirm => seq![
                EffectView::Webhook {
                    notification: NotificationView::PaymentReadyToConfirm { session_id: self.id },
                    url: self.req.notification_url,
                    delay_secs: WEBHOOK_DELAY_SECS,
                },
            ],
            StateView::ReadyToCapture => seq![
                EffectView::Webhook {
                    notification: NotificationView::PaymentReadyToCapture { session_id: self.id },
                    url: self.req.notification_url,
                    delay_secs: WEBHOOK_DELAY_SECS,
                },
            ],
            _ => seq![
                EffectView::Finale { state: next },
                EffectView::Webhook {
                    notification: NotificationView::PaymentFinished {
                        session_id: self.id,
                        status: next.status(),
                    },
                    url: self.req.notification_url,
                    delay_secs: WEBHOOK_DELAY_SECS,
                },
            ],
        }
    }

    /// The session after `event`, given what the ledger replied, and the
    /// effects of the step. An event that is ignored changes nothing and has
    /// no effect.
    pub open spec fn step(self, event: EventView, reply: LedgerReplyView) -> (
        InnerView,
        Seq<EffectView>,
    ) {
        match self.target(event, reply) {
            None => (self, Seq::empty()),
            Some(next) => (
                InnerView {
                    state: next,
                    payer_card: match (next, reply) {
                        (
                            StateView::ReadyToConfirm,
                            LedgerReplyView::Resolved { account: Ok(payer), .. },
                        ) => Some(payer.card_number),
                        _ => self.payer_card,
                    },
                    ..self
                },
                self.effects_of(next),
            ),
        }
    }
}

/// A payment session: the request that opened it, the credentials of the store
/// it pays, the card of the payer once authorized, and its state.
pub struct Inner {
    id: u128,
    store_credentials: Credentials,
    req: InitPaymentRequest,
    payer_card: Option<CardNumber>,
    state: State,
}

impl View for Inner {
    type V = InnerView;

    closed spec fn view(&self) -> InnerView {
        InnerView {
            id: self.id,
            store_credentials: self.store_credentials@,
            req: self.req@,
            payer_card: match self.payer_card {
                Some(c) => Some(c@),
                None => None,
            },
            state: self.state@,
        }
    }
}

impl Inner {
    /// A fresh session in `Init`, under a random identifier. The store's
    /// card is pinned here: a payment goes to this card whatever store the
    /// ledger names later.
    pub fn new(req: InitPaymentRequest, store_credentials: Credentials) -> (inner: Inner)
        ensures
            inner@.state == StateView::Init,
            inner@.payer_card is None,
            inner@.req == req@,
            inner@.store_credentials == store_credentials@,
            inner@.wf(),
    {
        Inner { id: random_uuid(), store_credentials, req, payer_card: None, state: State::Init }
    }

    /// The identifier of the session.
    pub fn id(&self) -> (id: u128)
        ensures
            id == self@.id,
    {
        self.id
    }

    /// The state of the session.
    pub fn state(&self) -> (s: &State)
        ensures
            s@ == self@.state,
    {
        &self.state
    }

    /// The request that opened the session.
    pub fn req(&self) -> (r: &InitPaymentRequest)
        ensures
            r@ == self@.req,
    {
        &self.req
    }

    /// The credentials of the store that the session pays.
    pub fn store_credentials(&self) -> (c: &Credentials)
        ensures
            c@ == self@.store_credentials,
    {
        &self.store_credentials
    }

    /// What to ask of the ledger before `event` can be completed.
    pub fn plan(&self, event: &Event) -> (call: LedgerCall)
        ensures
            call@ == self@.plan(event@),
            !accepts(self@.state, event@) ==> call@ == LedgerCallView::Nothing,
    {
        match (&self.state, event, &self.payer_card) {
            (State::Init, Event::Submit { creds }, _) => LedgerCall::Authorize {
                card: creds.card_number.clone(),
                password: creds.password.clone(),
            },
            (State::ReadyToCapture, Event::CaptureRequest, Some(payer)) => {
                if self.req.beneficiaries.is_empty() {
                    LedgerCall::Transaction {
                        sender: payer.clone(),
                        recipient: self.store_credentials.card_number.clone(),
                        amount: self.req.amount,
                    }
                } else {
                    LedgerCall::SplitTransaction {
                        sender: payer.clone(),
                        amount: self.req.amount,
                        beneficiaries: self.req.beneficiaries.clone(),
                    }
                }
            },
            _ => LedgerCall::Nothing,
        }
    }

    /// The state of a session that failed for the reason `err`.
    fn failed(&self, err: OperationError) -> (s: State)
        ensures
            s@ == self@.failed(err@),
    {
        State::Failed { redirect_url: self.req.fail_url.clone(), err }
    }

    /// The state of a session that was closed.
    fn closed(&self) -> (s: State)
        ensures
            s@ == self@.closed(),
    {
        State::Closed { redirect_url: self.req.fail_url.clone() }
    }

    /// The state that `event` leads to, with the payer's card where the
    /// event authorizes the payer.
    fn decide(&self, event: &Event, reply: &LedgerReply) -> (r: Option<(State, Option<CardNumber>)>)
        ensures
            match r {
                Some((next, payer)) => {
                    &&& self@.target(event@, reply@) == Some(next@)
                    &&& match payer {
                        Some(card) => self@.step(event@, reply@).0.payer_card == Some(card@),
                        None => self@.step(event@, reply@).0.payer_card == self@.payer_card,
                    }
                },
                None => self@.target(event@, reply@) is None,
            },
    {
        match (&self.state, event) {
            (State::Init, Event::Submit { .. }) => match reply {
                LedgerReply::Resolved { account: Ok(payer), store: Ok(store) } => {
                    if store.card() == self.store_credentials.card_number {
                        Some((State::ReadyToConfirm, Some(payer.card())))
                    } else {
                        Some((self.failed(OperationError::NotAuthorizedRequest), None))
                    }
                },
                LedgerReply::Resolved { .. } => Some(
                    (self.failed(OperationError::NotAuthorizedRequest), None),
                ),
                _ => None,
            },
            (State::Init, Event::Timeout) => Some((self.closed(), None)),
            (State::ReadyToConfirm, Event::ConfirmRequest) => Some((State::ReadyToCapture, None)),
            (State::ReadyToConfirm, Event::Timeout) => Some((self.closed(), None)),
            (State::ReadyToConfirm, Event::CancelRequest) => Some((self.closed(), None)),
            (State::ReadyToCapture, Event::CaptureRequest) => match reply {
                LedgerReply::Moved(Ok(_)) => Some(
                    (State::Successed { redirect_url: self.req.success_url.clone() }, None),
                ),
                LedgerReply::Moved(Err(e)) => Some(
                    (
                        self.failed(OperationError::Failed { reason: e.str_reason_for_client() }),
                        None,
                    ),
                ),
                _ => None,
            },
            (State::ReadyToCapture, Event::Timeout) => Some((self.closed(), None)),
            (State::ReadyToCapture, Event::CancelRequest) => Some((self.closed(), None)),
            _ => None,
        }
    }

    /// Enters the state `next` and says what that leaves to be done.
    fn on_transition(&mut self, next: State) -> (effects: Vec<Effect>)
        ensures
            final(self)@ == (InnerView { state: next@, ..old(self)@ }),
            effect_views(effects@) == old(self)@.effects_of(next@),
    {
        let mut effects: Vec<Effect> = Vec::new();
        match &next {
            State::Init => {},
            State::ReadyToConfirm => {
                effects.push(
                    Effect::Webhook {
                        notification: Notification::PaymentNotification(
                            PaymentNotification::ReadyToConfirm { session_id: self.id },
                        ),
                        url: self.req.notification_url.clone(),
                        delay_secs: WEBHOOK_DELAY_SECS,
                    },
                );
            },
            State::ReadyToCapture => {
                effects.push(
                    Effect::Webhook {
                        notification: Notification::PaymentNotification(
                            PaymentNotification::ReadyToCapture { session_id: self.id },
                        ),
                        url: self.req.notification_url.clone(),
                        delay_secs: WEBHOOK_DELAY_SECS,
                    },
                );
            },
            _ => {
                effects.push(Effect::Finale { state: next.clone() });
                effects.push(
                    Effect::Webhook {
                        notification: Notification::PaymentNotification(
                            PaymentNotification::PaymentFinished {
                                session_id: self.id,
                                status: next.status(),
                            },
                        ),
                        url: self.req.notification_url.clone(),
                        delay_secs: WEBHOOK_DELAY_SECS,
                    },
                );
            },
        }
        self.state = next;
        assert(effect_views(effects@) =~= old(self)@.effects_of(next@));
        effects
    }

    /// Completes the step that `event` asks for, given the ledger's reply to
    /// the call that `plan` named for it. An event that the state does not
    /// act on, and a reply that does not answer the plan, change nothing.
    pub fn complete(&mut self, event: &Event, reply: &LedgerReply) -> (effects: Vec<Effect>)
        ensures
            (final(self)@, effect_views(effects@)) == old(self)@.step(event@, reply@),
            !accepts(old(self)@.state, event@) ==> final(self)@ == old(self)@ && effects@.len() == 0,
            old(self)@.state.is_terminal() ==> final(self)@ == old(self)@ && effects@.len() == 0,
            old(self)@.wf() ==> final(self)@.wf(),
    {
        match self.decide(event, reply) {
            None => {
                let effects: Vec<Effect> = Vec::new();
                assert(effect_views(effects@) =~= Seq::<EffectView>::empty());
                effects
            },
            Some((next, payer)) => {
                if let Some(card) = payer {
                    self.payer_card = Some(card);
                }
                self.on_transition(next)
            },
        }
    }

    /// Takes the step that `event` asks for against the ledger held in
    /// memory: plans the call, puts it to the ledger and completes the step
    /// with the reply. Returns the reply together with the effects of the
    /// step. An event that the state does not act on touches neither the
    /// session nor the ledger.
    pub fn handle(&mut self, event: &Event, bank: &mut MemoryStorage) -> (r: (
        LedgerReply,
        Vec<Effect>,
    ))
        requires
            old(bank)@.wf(),
        ensures
            final(bank)@.wf(),
            executed(old(bank)@, final(bank)@, old(self)@.plan(event@), r.0@),
            (final(self)@, effect_views(r.1@)) == old(self)@.step(event@, r.0@),
            !accepts(old(self)@.state, event@) ==> {
                &&& final(self)@ == old(self)@
                &&& r.1@.len() == 0
                &&& final(bank)@ == old(bank)@
            },
            old(self)@.wf() ==> final(self)@.wf(),
    {
        let call = self.plan(event);
        let reply = execute(&call, bank);
        let effects = self.complete(event, &reply);
        (reply, effects)
    }
}

} // verus!
