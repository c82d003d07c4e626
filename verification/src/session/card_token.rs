//! The state machine of a session that registers a card token.
//!
//! The customer names a card, the store confirms, and the ledger issues a
//! token for the card; the session ends as `Successed` with the token, as
//! `Failed` or as `Closed`.

use vstd::prelude::*;

use super::{execute, executed, LedgerCall, LedgerCallView, LedgerReply, LedgerReplyView};
use crate::api::{
    Notification, NotificationView, OperationError, OperationErrorView, OperationStatus,
    OperationStatusView, RegisterCardTokenRequest, RegisterCardTokenRequestView, TokenNotification,
};
use crate::bank::memory::MemoryStorage;
use crate::domain::card_number::CardNumber;
use crate::random::random_uuid;
use crate::routes::html_pages_and_triggers::{Credentials, CredentialsView};

verus! {

/// Seconds to wait before a notification is posted to the store.
pub const WEBHOOK_DELAY_SECS: u64 = 1;

/// Where a session that registers a card token stands.
#[derive(Debug)]
pub enum State {
    Init,
    ReadyToConfirm,
    Closed { redirect_url: String },
    Failed { redirect_url: String, err: OperationError },
    Successed { redirect_url: String, token: String },
}

/// A `State` as contracts see it.
pub enum StateView {
    Init,
    ReadyToConfirm,
    Closed { redirect_url: Seq<char> },
    Failed { redirect_url: Seq<char>, err: OperationErrorView },
    Successed { redirect_url: Seq<char>, token: Seq<char> },
}

impl StateView {
    /// Terminal states have no way out.
    pub open spec fn is_terminal(self) -> bool {
        self is Closed || self is Failed || self is Successed
    }

    /// Where a session that ended sends the customer; `None` before the end.
    pub open spec fn redirect_url(self) -> Option<Seq<char>> {
        match self {
            StateView::Closed { redirect_url } => Some(redirect_url),
            StateView::Failed { redirect_url, .. } => Some(redirect_url),
            StateView::Successed { redirect_url, .. } => Some(redirect_url),
            _ => None,
        }
    }

    /// How the session ended, for a terminal state.
    pub open spec fn status(self) -> OperationStatusView {
        match self {
            StateView::Successed { .. } => OperationStatusView::Success,
            StateView::Failed { err, .. } => OperationStatusView::Fail(err),
            _ => OperationStatusView::Cancel,
        }
    }

    /// The token that the session registered, if it succeeded.
    pub open spec fn token(self) -> Option<Seq<char>> {
        match self {
            StateView::Successed { token, .. } => Some(token),
            _ => None,
        }
    }

    /// The name of the state.
    pub open spec fn name(self) -> Seq<char> {
        match self {
            StateView::ReadyToConfirm => "ReadyToConfirm"@,
            StateView::Failed { .. } => "Failed"@,
            StateView::Successed { .. } => "Successed"@,
            StateView::Closed { .. } => "Closed"@,
            StateView::Init => "Init"@,
        }
    }
}

impl View for State {
    type V = StateView;

    open spec fn view(&self) -> StateView {
        match self {
            State::Init => StateView::Init,
            State::ReadyToConfirm => StateView::ReadyToConfirm,
            State::Closed { redirect_url } => StateView::Closed { redirect_url: redirect_url@ },
            State::Failed { redirect_url, err } => StateView::Failed {
                redirect_url: redirect_url@,
                err: err@,
            },
            State::Successed { redirect_url, token } => StateView::Successed {
                redirect_url: redirect_url@,
                token: token@,
            },
        }
    }
}

impl Clone for State {
    fn clone(&self) -> (s: Self)
        ensures
            s == *self,
    {
        match self {
            State::Init => State::Init,
            State::ReadyToConfirm => State::ReadyToConfirm,
            State::Closed { redirect_url } => State::Closed { redirect_url: redirect_url.clone() },
            State::Failed { redirect_url, err } => State::Failed {
                redirect_url: redirect_url.clone(),
                err: err.clone(),
            },
            State::Successed { redirect_url, token } => State::Successed {
                redirect_url: redirect_url.clone(),
                token: token.clone(),
            },
        }
    }
}

impl State {
    /// The state in which every session starts.
    pub fn init() -> (s: State)
        ensures
            s@ == StateView::Init,
    {
        State::Init
    }

    /// Is this one of the states that a session ends in?
    pub fn is_terminal(&self) -> (b: bool)
        ensures
            b == self@.is_terminal(),
    {
        match self {
            State::Closed { .. } | State::Failed { .. } | State::Successed { .. } => true,
            _ => false,
        }
    }

    /// Where a session that ended sends the customer; `None` before the end.
    pub fn redirect_url(&self) -> (url: Option<&str>)
        ensures
            match url {
                Some(u) => self@.redirect_url() == Some(u@),
                None => self@.redirect_url() is None,
            },
    {
        match self {
            State::Closed { redirect_url } => Some(redirect_url.as_str()),
            State::Failed { redirect_url, .. } => Some(redirect_url.as_str()),
            State::Successed { redirect_url, .. } => Some(redirect_url.as_str()),
            _ => None,
        }
    }

    /// How a session in this state ended; a session that has not ended counts
    /// as cancelled.
    pub fn status(&self) -> (s: OperationStatus)
        ensures
            s@ == self@.status(),
    {
        match self {
            State::Successed { .. } => OperationStatus::Success,
            State::Failed { err, .. } => OperationStatus::Fail(err.clone()),
            _ => OperationStatus::Cancel,
        }
    }

    /// The token that the session registered, if it succeeded.
    fn token(&self) -> (t: Option<String>)
        ensures
            match t {
                Some(t) => self@.token() == Some(t@),
                None => self@.token() is None,
            },
    {
        match self {
            State::Successed { token, .. } => Some(token.clone()),
            _ => None,
        }
    }

    /// The name of the state, as it is written to the log.
    pub fn fmt(&self) -> (name: String)
        ensures
            name@ == self@.name(),
    {
        match self {
            State::ReadyToConfirm => String::from_str("ReadyToConfirm"),
            State::Failed { .. } => String::from_str("Failed"),
            State::Successed { .. } => String::from_str("Successed"),
            State::Closed { .. } => String::from_str("Closed"),
            State::Init => String::from_str("Init"),
        }
    }
}

/// What can happen to a session that registers a card token.
#[derive(Debug)]
pub enum Event {
    /// The customer named the card to register.
    Submit { card_for_reg: CardNumber },
    /// The store confirmed the registration.
    ConfirmRequest,
    /// Nobody acted in time.
    Timeout,
    /// The store cancelled the registration.
    CancelRequest,
}

/// An `Event` as contracts see it.
pub enum EventView {
    Submit { card_for_reg: Seq<char> },
    ConfirmRequest,
    Timeout,
    CancelRequest,
}

impl View for Event {
    type V = EventView;

    open spec fn view(&self) -> EventView {
        match self {
            Event::Submit { card_for_reg } => EventView::Submit { card_for_reg: card_for_reg@ },
            Event::ConfirmRequest => EventView::ConfirmRequest,
            Event::Timeout => EventView::Timeout,
            Event::CancelRequest => EventView::CancelRequest,
        }
    }
}

/// What a step of the machine leaves to be done.
#[derive(Debug)]
pub enum Effect {
    /// Post `notification` to `url` after `delay_secs` seconds.
    Webhook { notification: Notification, url: String, delay_secs: u64 },
    /// The session ended in `state`: tell whoever waits for its end, and
    /// release the watcher that would otherwise expire it.
    Finale { state: State },
}

/// An `Effect` as contracts see it.
pub enum EffectView {
    Webhook { notification: NotificationView, url: Seq<char>, delay_secs: u64 },
    Finale { state: StateView },
}

impl View for Effect {
    type V = EffectView;

    open spec fn view(&self) -> EffectView {
        match self {
            Effect::Webhook { notification, url, delay_secs } => EffectView::Webhook {
                notification: notification@,
                url: url@,
                delay_secs: *delay_secs,
            },
            Effect::Finale { state } => EffectView::Finale { state: state@ },
        }
    }
}

/// The effects of a vector as contracts see them.
pub open spec fn effect_views(effects: Seq<Effect>) -> Seq<EffectView> {
    Seq::new(effects.len(), |i: int| effects[i]@)
}

/// A session that registers a card token, as contracts see it.
pub struct InnerView {
    pub id: u128,
    pub store_credentials: CredentialsView,
    pub req: RegisterCardTokenRequestView,
    pub card_for_reg: Option<Seq<char>>,
    pub state: StateView,
}

/// Does the machine act on `event` in `state`? Any other event is ignored.
pub open spec fn accepts(state: StateView, event: EventView) -> bool {
    match state {
        StateView::Init => event is Submit || event is Timeout,
        StateView::ReadyToConfirm => event is ConfirmRequest || event is Timeout
            || event is CancelRequest,
        _ => false,
    }
}

impl InnerView {
    /// Once the card is found, the session remembers it.
    pub open spec fn wf(self) -> bool {
        self.state is ReadyToConfirm ==> self.card_for_reg is Some
    }

    /// The state of a session that was closed.
    pub open spec fn closed(self) -> StateView {
        StateView::Closed { redirect_url: self.req.fail_url }
    }

    /// The state of a session that failed for the reason `err`.
    pub open spec fn failed(self, err: OperationErrorView) -> StateView {
        StateView::Failed { redirect_url: self.req.fail_url, err }
    }

    /// What the session asks of the ledger when `event` arrives: the account
    /// of the card on `Submit` in `Init`, a token for the card on
    /// `ConfirmRequest` in `ReadyToConfirm`, nothing in every other case.
    pub open spec fn plan(self, event: EventView) -> LedgerCallView {
        match (self.state, event, self.card_for_reg) {
            (StateView::Init, EventView::Submit { card_for_reg }, _) => LedgerCallView::FindAccount {
                card: card_for_reg,
            },
            (StateView::ReadyToConfirm, EventView::ConfirmRequest, Some(card)) =>
                LedgerCallView::IssueToken { card },
            _ => LedgerCallView::Nothing,
        }
    }

    /// The state that `event` leads to, given what the ledger replied, or
    /// `None` where the event is ignored.
    pub open spec fn target(self, event: EventView, reply: LedgerReplyView) -> Option<StateView> {
        match (self.state, event) {
            (StateView::Init, EventView::Submit { .. }) => match reply {
                LedgerReplyView::Resolved { account: Ok(account), store: Ok(store) } => if store.card_number
                    == self.store_credentials.card_number {
                    Some(StateView::ReadyToConfirm)
                } else {
                    Some(self.failed(OperationErrorView::NotAuthorizedRequest))
                },
                LedgerReplyView::Resolved { .. } => Some(
                    self.failed(OperationErrorView::NotAuthorizedRequest),
                ),
                _ => None,
            },
            (StateView::Init, EventView::Timeout) => Some(self.closed()),
            (StateView::ReadyToConfirm, EventView::ConfirmRequest) => match reply {
                LedgerReplyView::Issued(Ok(token)) => Some(
                    StateView::Successed { redirect_url: self.req.success_url, token },
                ),
                LedgerReplyView::Issued(Err(e)) => Some(
                    self.failed(OperationErrorView::Failed { reason: e.client_reason() }),
                ),
                _ => None,
            },
            (StateView::ReadyToConfirm, EventView::Timeout) => Some(self.closed()),
            (StateView::ReadyToConfirm, EventView::CancelRequest) => Some(self.closed()),
            _ => None,
        }
    }

    /// What entering the state `next` leaves to be done: a notification of
    /// the milestone, and for a terminal state first the announcement of the end.
    pub open spec fn effects_of(self, next: StateView) -> Seq<EffectView> {
        match next {
            StateView::Init => Seq::empty(),
            StateView::ReadyToConfirm => seq![
                EffectView::Webhook {
                    notification: NotificationView::TokenReadyToConfirm { session_id: self.id },
                    url: self.req.notification_url,
                    delay_secs: WEBHOOK_DELAY_SECS,
                },
            ],
            _ => seq![
                EffectView::Finale { state: next },
                EffectView::Webhook {
                    notification: NotificationView::TokenFinished {
                        card_token: next.token(),
                        session_id: self.id,
                        status: next.status(),
                    },
                    url: self.req.notification_url,
                    delay_secs: WEBHOOK_DELAY_SECS,
                },
            ],
        }
    }

    /// The session after `event`, given what the ledger replied, and the
    /// effects of the step. An event that is ignored changes nothing and has
    /// no effect.
    pub open spec fn step(self, event: EventView, reply: LedgerReplyView) -> (
        InnerView,
        Seq<EffectView>,
    ) {
        match self.target(event, reply) {
            None => (self, Seq::empty()),
            Some(next) => (
                InnerView {
                    state: next,
                    card_for_reg: match (next, reply) {
                        (
                            StateView::ReadyToConfirm,
                            LedgerReplyView::Resolved { account: Ok(account), .. },
                        ) => Some(account.card_number),
                        _ => self.card_for_reg,
                    },
                    ..self
                },
                self.effects_of(next),
            ),
        }
    }
}

/// A session that registers a card token: the request that opened it, the
/// credentials of the store that asked, the card once it is found, and its state.
pub struct Inner {
    id: u128,
    store_credentials: Credentials,
    req: RegisterCardTokenRequest,
    card_for_reg: Option<CardNumber>,
    state: State,
}

impl View for Inner {
    type V = InnerView;

    closed spec fn view(&self) -> InnerView {
        InnerView {
            id: self.id,
            store_credentials: self.store_credentials@,
            req: self.req@,
            card_for_reg: match self.card_for_reg {
                Some(c) => Some(c@),
                None => None,
            },
            state: self.state@,
        }
    }
}

impl Inner {
    /// A fresh session in `Init`, under a random identifier.
    pub fn new(req: RegisterCardTokenRequest, store_credentials: Credentials) -> (inner: Inner)
        ensures
            inner@.state == StateView::Init,
            inner@.card_for_reg is None,
            inner@.req == req@,
            inner@.store_credentials == store_credentials@,
            inner@.wf(),
    {
        Inner { id: random_uuid(), store_credentials, req, card_for_reg: None, state: State::Init }
    }

    /// The identifier of the session.
    pub fn id(&self) -> (id: u128)
        ensures
            id == self@.id,
    {
        self.id
    }

    /// The state of the session.
    pub fn state(&self) -> (s: &State)
        ensures
            s@ == self@.state,
    {
        &self.state
    }

    /// The request that opened the session.
    pub fn req(&self) -> (r: &RegisterCardTokenRequest)
        ensures
            r@ == self@.req,
    {
        &self.req
    }

    /// The credentials of the store that opened the session.
    pub fn store_credentials(&self) -> (c: &Credentials)
        ensures
            c@ == self@.store_credentials,
    {
        &self.store_credentials
    }

    /// What to ask of the ledger before `event` can be completed.
    pub fn plan(&self, event: &Event) -> (call: LedgerCall)
        ensures
            call@ == self@.plan(event@),
            !accepts(self@.state, event@) ==> call@ == LedgerCallView::Nothing,
    {
        match (&self.state, event, &self.card_for_reg) {
            (State::Init, Event::Submit { card_for_reg }, _) => LedgerCall::FindAccount {
                card: card_for_reg.clone(),
            },
            (State::ReadyToConfirm, Event::ConfirmRequest, Some(card)) => LedgerCall::IssueToken {
                card: card.clone(),
            },
            _ => LedgerCall::Nothing,
        }
    }

    /// The state of a session that failed for the reason `err`.
    fn failed(&self, err: OperationError) -> (s: State)
        ensures
            s@ == self@.failed(err@),
    {
        State::Failed { redirect_url: self.req.fail_url.clone(), err }
    }

    /// The state of a session that was closed.
    fn closed(&self) -> (s: State)
        ensures
            s@ == self@.closed(),
    {
        State::Closed { redirect_url: self.req.fail_url.clone() }
    }

    /// The state that `event` leads to, with the card where the event finds it.
    fn decide(&self, event: &Event, reply: &LedgerReply) -> (r: Option<(State, Option<CardNumber>)>)
        ensures
            match r {
                Some((next, card)) => {
                    &&& self@.target(event@, reply@) == Some(next@)
                    &&& match card {
                        Some(card) => self@.step(event@, reply@).0.card_for_reg == Some(card@),
                        None => self@.step(event@, reply@).0.card_for_reg == self@.card_for_reg,
                    }
                },
                None => self@.target(event@, reply@) is None,
            },
    {
        match (&self.state, event) {
            (State::Init, Event::Submit { .. }) => match reply {
                LedgerReply::Resolved { account: Ok(account), store: Ok(store) } => {
                    if store.card() == self.store_credentials.card_number {
                        Some((State::ReadyToConfirm, Some(account.card())))
                    } else {
                        Some((self.failed(OperationError::NotAuthorizedRequest), None))
                    }
                },
                LedgerReply::Resolved { .. } => Some(
                    (self.failed(OperationError::NotAuthorizedRequest), None),
                ),
                _ => None,
            },
            (State::Init, Event::Timeout) => Some((self.closed(), None)),
            (State::ReadyToConfirm, Event::ConfirmRequest) => match reply {
                LedgerReply::Issued(Ok(token)) => Some(
                    (
                        State::Successed {
                            redirect_url: self.req.success_url.clone(),
                            token: token.clone(),
                        },
                        None,
                    ),
                ),
                LedgerReply::Issued(Err(e)) => Some(
                    (
                        self.failed(OperationError::Failed { reason: e.str_reason_for_client() }),
                        None,
                    ),
                ),
                _ => None,
            },
            (State::ReadyToConfirm, Event::Timeout) => Some((self.closed(), None)),
            (State::ReadyToConfirm, Event::CancelRequest) => Some((self.closed(), None)),
            _ => None,
        }
    }

    /// Enters the state `next` and says what that leaves to be done.
    fn on_transition(&mut self, next: State) -> (effects: Vec<Effect>)
        ensures
            final(self)@ == (InnerView { state: next@, ..old(self)@ }),
            effect_views(effects@) == old(self)@.effects_of(next@),
    {
        let mut effects: Vec<Effect> = Vec::new();
        match &next {
            State::Init => {},
            State::ReadyToConfirm => {
                effects.push(
                    Effect::Webhook {
                        notification: Notification::TokenNotification(
                            TokenNotification::ReadyToConfirm { session_id: self.id },
                        ),
                        url: self.req.notification_url.clone(),
                        delay_secs: WEBHOOK_DELAY_SECS,
                    },
                );
            },
            _ => {
                effects.push(Effect::Finale { state: next.clone() });
                effects.push(
                    Effect::Webhook {
                        notification: Notification::TokenNotification(
                            TokenNotification::Finished {
                                card_token: next.token(),
                                session_id: self.id,
                                status: next.status(),
                            },
                        ),
                        url: self.req.notification_url.clone(),
                        delay_secs: WEBHOOK_DELAY_SECS,
                    },
                );
            },
        }
        self.state = next;
        assert(effect_views(effects@) =~= old(self)@.effects_of(next@));
        effects
    }

    /// Completes the step that `event` asks for, given the ledger's reply to
    /// the call that `plan` named for it. An event that the state does not
    /// act on, and a reply that does not answer the plan, change nothing.
    pub fn complete(&mut self, event: &Event, reply: &LedgerReply) -> (effects: Vec<Effect>)
        ensures
            (final(self)@, effect_views(effects@)) == old(self)@.step(event@, reply@),
            !accepts(old(self)@.state, event@) ==> final(self)@ == old(self)@ && effects@.len() == 0,
            old(self)@.state.is_terminal() ==> final(self)@ == old(self)@ && effects@.len() == 0,
            old(self)@.wf() ==> final(self)@.wf(),
    {
        match self.decide(event, reply) {
            None => {
                let effects: Vec<Effect> = Vec::new();
                assert(effect_views(effects@) =~= Seq::<EffectView>::empty());
                effects
            },
            Some((next, card)) => {
                if let Some(card) = card {
                    self.card_for_reg = Some(card);
                }
                self.on_transition(next)
            },
        }
    }

    /// Takes the step that `event` asks for against the ledger held in
    /// memory: plans the call, puts it to the ledger and completes the step
    /// with the reply. Returns the reply together with the effects of the
    /// step. An event that the state does not act on touches neither the
    /// session nor the ledger.
    pub fn handle(&mut self, event: &Event, bank: &mut MemoryStorage) -> (r: (
        LedgerReply,
        Vec<Effect>,
    ))
        requires
            old(bank)@.wf(),
        ensures
            final(bank)@.wf(),
            executed(old(bank)@, final(bank)@, old(self)@.plan(event@), r.0@),
            (final(self)@, effect_views(r.1@)) == old(self)@.step(event@, r.0@),
            !accepts(old(self)@.state, event@) ==> {
                &&& final(self)@ == old(self)@
                &&& r.1@.len() == 0
                &&& final(bank)@ == old(bank)@
            },
            old(self)@.wf() ==> final(self)@.wf(),
    {
        let call = self.plan(event);
        let reply = execute(&call, bank);
        let effects = self.complete(event, &reply);
        (reply, effects)
    }
}

} // verus!
