//! Interaction sessions: what a session asks of the ledger, and the registry
//! of the sessions in flight.

use vstd::prelude::*;

use vstd::pervasive::cloned;

use crate::bank::ledger::LedgerView;
use crate::bank::memory::MemoryStorage;
use crate::bank::{is_token, result_view, Account, AccountView, BankErrorView, BankOperationError};
use crate::domain::beneficiaries::{Beneficiaries, BeneficiariesView};
use crate::clock::now_utc_nanos;
use crate::domain::card_number::CardNumber;

pub mod card_token;
pub mod laws;
pub mod payment;
pub mod webhook;

verus! {

/// What a session needs from the ledger before it can take its next step.
pub enum LedgerCall {
    /// Nothing: the step does not depend on the ledger.
    Nothing,
    /// Authorize the account of `card` with `password`, and name the store's account.
    Authorize { card: CardNumber, password: String },
    /// Find the account of `card`, and name the store's account.
    FindAccount { card: CardNumber },
    /// Move `amount` from `sender` to `recipient`.
    Transaction { sender: CardNumber, recipient: CardNumber, amount: i64 },
    /// Pay `amount` from `sender` to the beneficiaries.
    SplitTransaction { sender: CardNumber, amount: i64, beneficiaries: Beneficiaries },
    /// Issue a card token for `card`.
    IssueToken { card: CardNumber },
}

/// A `LedgerCall` as contracts see it.
pub enum LedgerCallView {
    Nothing,
    Authorize { card: Seq<char>, password: Seq<char> },
    FindAccount { card: Seq<char> },
    Transaction { sender: Seq<char>, recipient: Seq<char>, amount: i64 },
    SplitTransaction { sender: Seq<char>, amount: i64, beneficiaries: BeneficiariesView },
    IssueToken { card: Seq<char> },
}

impl View for LedgerCall {
    type V = LedgerCallView;

    open spec fn view(&self) -> LedgerCallView {
        match self {
            LedgerCall::Nothing => LedgerCallView::Nothing,
            LedgerCall::Authorize { card, password } => LedgerCallView::Authorize {
                card: card@,
                password: password@,
            },
            LedgerCall::FindAccount { card } => LedgerCallView::FindAccount { card: card@ },
            LedgerCall::Transaction { sender, recipient, amount } => LedgerCallView::Transaction {
                sender: sender@,
                recipient: recipient@,
                amount: *amount,
            },
            LedgerCall::SplitTransaction { sender, amount, beneficiaries } =>
                LedgerCallView::SplitTransaction {
                    sender: sender@,
                    amount: *amount,
                    beneficiaries: beneficiaries@,
                },
            LedgerCall::IssueToken { card } => LedgerCallView::IssueToken { card: card@ },
        }
    }
}

/// What the ledger answered to a `LedgerCall`.
pub enum LedgerReply {
    /// Nothing was asked.
    Nothing,
    /// The account that was asked for, and the store's account.
    Resolved { account: Result<Account, BankOperationError>, store: Result<Account, BankOperationError> },
    /// Whether the money was moved.
    Moved(Result<(), BankOperationError>),
    /// The token that was issued.
    Issued(Result<String, BankOperationError>),
}

/// A `LedgerReply` as contracts see it.
pub enum LedgerReplyView {
    Nothing,
    Resolved { account: Result<AccountView, BankErrorView>, store: Result<AccountView, BankErrorView> },
    Moved(Result<(), BankErrorView>),
    Issued(Result<Seq<char>, BankErrorView>),
}

impl View for LedgerReply {
    type V = LedgerReplyView;

    open spec fn view(&self) -> LedgerReplyView {
        match self {
            LedgerReply::Nothing => LedgerReplyView::Nothing,
            LedgerReply::Resolved { account, store } => LedgerReplyView::Resolved {
                account: result_view(*account),
                store: result_view(*store),
            },
            LedgerReply::Moved(r) => LedgerReplyView::Moved(result_view(*r)),
            LedgerReply::Issued(r) => LedgerReplyView::Issued(result_view(*r)),
        }
    }
}

/// Is `reply` the answer of the ledger `before` to `call`, and `after` the
/// ledger that the call leaves? Only calls that are granted change the
/// ledger, and they change what the call names and nothing else.
pub open spec fn executed(
    before: LedgerView,
    after: LedgerView,
    call: LedgerCallView,
    reply: LedgerReplyView,
) -> bool {
    match call {
        LedgerCallView::Nothing => reply == LedgerReplyView::Nothing && after == before,
        LedgerCallView::Authorize { card, password } => {
            &&& reply == LedgerReplyView::Resolved {
                account: before.authorize_account(card, password),
                store: Ok(before.store_account),
            }
            &&& after == before
        },
        LedgerCallView::FindAccount { card } => {
            &&& reply == LedgerReplyView::Resolved {
                account: before.find_account(card),
                store: Ok(before.store_account),
            }
            &&& after == before
        },
        LedgerCallView::Transaction { sender, recipient, amount } => match before.transfer_check(
            sender,
            recipient,
            amount,
        ) {
            Ok(t) => reply == LedgerReplyView::Moved(Ok(())) && before.extended_by(after, seq![t]),
            Err(e) => reply == LedgerReplyView::Moved(Err(e)) && after == before,
        },
        LedgerCallView::SplitTransaction { sender, amount, beneficiaries } =>
            match before.split_check(sender, amount, beneficiaries) {
                Ok(moves) => reply == LedgerReplyView::Moved(Ok(())) && before.extended_by(
                    after,
                    moves,
                ),
                Err(e) => reply == LedgerReplyView::Moved(Err(e)) && after == before,
            },
        LedgerCallView::IssueToken { card } => match before.find_account(card) {
            Ok(_) => reply matches LedgerReplyView::Issued(Ok(token)) && is_token(token) && after
                == before.with_token(token, card),
            Err(e) => reply == LedgerReplyView::Issued(Err(e)) && after == before,
        },
    }
}

/// Puts a session's call to the ledger held in memory.
pub fn execute(call: &LedgerCall, bank: &mut MemoryStorage) -> (reply: LedgerReply)
    requires
        old(bank)@.wf(),
    ensures
        final(bank)@.wf(),
        executed(old(bank)@, final(bank)@, call@, reply@),
{
    match call {
        LedgerCall::Nothing => LedgerReply::Nothing,
        LedgerCall::Authorize { card, password } => LedgerReply::Resolved {
            account: bank.authorize_account(card, password.as_str()),
            store: bank.get_store_account(),
        },
        LedgerCall::FindAccount { card } => LedgerReply::Resolved {
            account: bank.find_account(card),
            store: bank.get_store_account(),
        },
        LedgerCall::Transaction { sender, recipient, amount } => LedgerReply::Moved(
            bank.new_transaction(sender, recipient, *amount),
        ),
        LedgerCall::SplitTransaction { sender, amount, beneficiaries } => LedgerReply::Moved(
            bank.new_split_transaction(sender, *amount, beneficiaries),
        ),
        LedgerCall::IssueToken { card } => LedgerReply::Issued(bank.new_card_token(card)),
    }
}

/// Why the registry could not serve a request.
#[derive(Debug)]
pub enum SessionError {
    /// The lock that guards the registry could not be taken.
    MutexError(String),
    /// No session has the identifier.
    NoEntityError(u128),
}

/// A payment session in the registry: its identifier, the time of its
/// creation in nanoseconds since the Unix epoch, and the handle through
/// which its state machine is reached. The identifier stands beside the
/// handle so that a session can be found without taking hold of its state.
#[derive(Debug)]
pub struct PaymentSession<P> {
    pub id: u128,
    pub creation_time: i128,
    pub state: P,
}

/// A session that registers a card token, in the registry.
#[derive(Debug)]
pub struct CardTokenRegSession<T> {
    pub id: u128,
    pub creation_time: i128,
    pub state: T,
}

impl<P> PaymentSession<P> {
    /// The registry entry of the session `id`, created now.
    pub fn new(id: u128, state: P) -> (s: Self)
        ensures
            s.id == id,
            s.state == state,
    {
        PaymentSession { id, creation_time: now_utc_nanos(), state }
    }
}

impl<T> CardTokenRegSession<T> {
    /// The registry entry of the session `id`, created now.
    pub fn new(id: u128, state: T) -> (s: Self)
        ensures
            s.id == id,
            s.state == state,
    {
        CardTokenRegSession { id, creation_time: now_utc_nanos(), state }
    }
}

/// A process with a beginning and an end: a payment, or the registration of
/// a card token.
#[derive(Debug)]
pub enum Session<P, T> {
    PaymentSession(PaymentSession<P>),
    CardTokenRegSession(CardTokenRegSession<T>),
}

/// Is `copy` a handle to the session `entry`: the same kind, identifier
/// and time of creation, with a clone of the handle to its state?
pub open spec fn same_session<P: Clone, T: Clone>(entry: Session<P, T>, copy: Session<P, T>) -> bool {
    match (entry, copy) {
        (Session::PaymentSession(a), Session::PaymentSession(b)) => a.id == b.id
            && a.creation_time == b.creation_time && cloned(a.state, b.state),
        (Session::CardTokenRegSession(a), Session::CardTokenRegSession(b)) => a.id == b.id
            && a.creation_time == b.creation_time && cloned(a.state, b.state),
        _ => false,
    }
}

impl<P, T> Session<P, T> {
    /// The identifier of the session.
    pub open spec fn spec_id(&self) -> u128 {
        match *self {
            Session::PaymentSession(s) => s.id,
            Session::CardTokenRegSession(s) => s.id,
        }
    }

    /// The time at which the session was created.
    pub open spec fn spec_creation_time(&self) -> i128 {
        match *self {
            Session::PaymentSession(s) => s.creation_time,
            Session::CardTokenRegSession(s) => s.creation_time,
        }
    }

    /// The identifier of the session.
    #[verifier::when_used_as_spec(spec_id)]
    pub fn id(&self) -> (id: u128)
        ensures
            id == self.spec_id(),
    {
        match self {
            Session::PaymentSession(s) => s.id,
            Session::CardTokenRegSession(s) => s.id,
        }
    }

    /// The time at which the session was created, in nanoseconds since the
    /// Unix epoch.
    #[verifier::when_used_as_spec(spec_creation_time)]
    pub fn creation_time(&self) -> (t: i128)
        ensures
            t == self.spec_creation_time(),
    {
        match self {
            Session::PaymentSession(s) => s.creation_time,
            Session::CardTokenRegSession(s) => s.creation_time,
        }
    }

    /// The payment session, if this is one.
    pub fn payment_session(&self) -> (r: Option<&PaymentSession<P>>)
        ensures
            match r {
                Some(s) => *self == Session::<P, T>::PaymentSession(*s),
                None => self is CardTokenRegSession,
            },
    {
        match self {
            Session::PaymentSession(s) => Some(s),
            Session::CardTokenRegSession(_) => None,
        }
    }

    /// The session that registers a card token, if this is one.
    pub fn card_token_reg_session(&self) -> (r: Option<&CardTokenRegSession<T>>)
        ensures
            match r {
                Some(s) => *self == Session::<P, T>::CardTokenRegSession(*s),
                None => self is PaymentSession,
            },
    {
        match self {
            Session::PaymentSession(_) => None,
            Session::CardTokenRegSession(s) => Some(s),
        }
    }
}

impl<P: Clone, T: Clone> Clone for Session<P, T> {
    fn clone(&self) -> (s: Self)
        ensures
            same_session(*self, s),
    {
        match self {
            Session::PaymentSession(a) => Session::PaymentSession(
                PaymentSession { id: a.id, creation_time: a.creation_time, state: a.state.clone() },
            ),
            Session::CardTokenRegSession(a) => Session::CardTokenRegSession(
                CardTokenRegSession {
                    id: a.id,
                    creation_time: a.creation_time,
                    state: a.state.clone(),
                },
            ),
        }
    }
}

/// The identifiers of the sessions, in their order.
pub open spec fn session_ids<P, T>(sessions: Seq<Session<P, T>>) -> Seq<u128> {
    Seq::new(sessions.len(), |i: int| sessions[i].spec_id())
}

/// The first position at which `id` stands in `ids`; the length of `ids` if
/// it stands nowhere.
pub open spec fn first_position(ids: Seq<u128>, id: u128) -> int
    decreases ids.len(),
{
    if ids.len() == 0 || ids[0] == id {
        0
    } else {
        1 + first_position(ids.drop_first(), id)
    }
}

/// `first_position` is the position before which `id` does not stand and at
/// which it does.
pub proof fn lemma_first_position(ids: Seq<u128>, id: u128, i: int)
    requires
        0 <= i <= ids.len(),
        forall|j: int| 0 <= j < i ==> ids[j] != id,
        i < ids.len() ==> ids[i] == id,
    ensures
        first_position(ids, id) == i,
        ids.contains(id) <==> i < ids.len(),
    decreases i,
{
    if i > 0 {
        let rest = ids.drop_first();
        assert forall|j: int| 0 <= j < i - 1 implies rest[j] != id by {
            assert(rest[j] == ids[j + 1]);
        }
        lemma_first_position(rest, id, i - 1);
    }
    if ids.contains(id) {
        let k = choose|k: int| 0 <= k < ids.len() && ids[k] == id;
        assert(k >= i);
    }
}

/// What is left of `items` when the item at `position` is taken out by
/// moving the last item into its place.
pub open spec fn swap_removed<A>(items: Seq<A>, position: int) -> Seq<A> {
    items.update(position, items.last()).drop_last()
}

/// The sessions in flight, found by their identifiers.
#[derive(Debug)]
pub struct InteractionSessions<P, T> {
    list: Vec<Session<P, T>>,
}

impl<P, T> View for InteractionSessions<P, T> {
    type V = Seq<Session<P, T>>;

    closed spec fn view(&self) -> Seq<Session<P, T>> {
        self.list@
    }
}

impl<P, T> InteractionSessions<P, T> {
    /// The identifiers of the sessions in the registry.
    pub open spec fn ids(&self) -> Seq<u128> {
        session_ids(self@)
    }

    /// An empty registry.
    pub fn new() -> (r: Self)
        ensures
            r@.len() == 0,
    {
        InteractionSessions { list: Vec::new() }
    }

    /// Adds a session. This cannot fail.
    pub fn insert(&mut self, entity: Session<P, T>) -> (r: Result<(), SessionError>)
        ensures
            r is Ok,
            final(self)@ == old(self)@.push(entity),
            final(self).ids() == old(self).ids().push(entity.spec_id()),
    {
        self.list.push(entity);
        assert(self.ids() =~= old(self).ids().push(entity.spec_id()));
        Ok(())
    }

    /// The first position of a session with the identifier `id`.
    fn position(&self, id: u128) -> (r: Option<usize>)
        ensures
            match r {
                Some(i) => i < self@.len() && self.ids().contains(id) && first_position(
                    self.ids(),
                    id,
                ) == i && self@[i as int].spec_id() == id,
                None => !self.ids().contains(id),
            },
    {
        let mut i: usize = 0;
        while i < self.list.len()
            invariant
                i <= self.list@.len(),
                forall|j: int| 0 <= j < i ==> self.ids()[j] != id,
            decreases self.list@.len() - i,
        {
            if self.list[i].id() == id {
                proof {
                    lemma_first_position(self.ids(), id, i as int);
                }
                return Some(i);
            }
            i += 1;
        }
        proof {
            lemma_first_position(self.ids(), id, i as int);
        }
        None
    }

    /// Is a session with the identifier `id` in the registry?
    pub fn has_session(&self, id: u128) -> (b: bool)
        ensures
            b == self.ids().contains(id),
    {
        self.position(id).is_some()
    }

    /// Takes the session with the identifier `id` out of the registry. A
    /// session that is not there is reported as `NoEntityError`, which a
    /// caller must tolerate: expiry and completion may both ask.
    pub fn remove_session_by_id(&mut self, id: u128) -> (r: Result<(), SessionError>)
        ensures
            match r {
                Ok(()) => old(self).ids().contains(id) && final(self)@ == swap_removed(
                    old(self)@,
                    first_position(old(self).ids(), id),
                ) && final(self).ids() == swap_removed(
                    old(self).ids(),
                    first_position(old(self).ids(), id),
                ),
                Err(e) => !old(self).ids().contains(id) && e == SessionError::NoEntityError(id)
                    && final(self)@ == old(self)@,
            },
    {
        match self.position(id) {
            Some(pos) => {
                let _ = self.list.swap_remove(pos);
                assert(self.ids() =~= swap_removed(old(self).ids(), pos as int));
                Ok(())
            },
            None => Err(SessionError::NoEntityError(id)),
        }
    }
}

impl<P: Clone, T: Clone> InteractionSessions<P, T> {
    /// A handle to the session with the identifier `id`: a clone of the
    /// entry, which shares the state of the session, not the state itself.
    pub fn try_acquire_session_by_id(&self, id: u128) -> (r: Result<Session<P, T>, SessionError>)
        ensures
            match r {
                Ok(s) => self.ids().contains(id) && s.spec_id() == id && same_session(
                    self@[first_position(self.ids(), id)],
                    s,
                ),
                Err(e) => !self.ids().contains(id) && e == SessionError::NoEntityError(id),
            },
    {
        match self.position(id) {
            Some(pos) => Ok(self.list[pos].clone()),
            None => Err(SessionError::NoEntityError(id)),
        }
    }
}

} // verus!
