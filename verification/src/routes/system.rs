//! What the operator of the bank can do, request by request.

use vstd::prelude::*;

use crate::bank::ledger::Transfer;
use crate::bank::memory::MemoryStorage;
use crate::bank::{AccountView, BankErrorView, BankOperationError};
use crate::domain::card_number::{is_card_number, CardNumber};
use crate::domain::requests::system_api::{
    AddAccountRequest, DeleteAccountRequest, NewTransactionRequest, OpenCreditRequest,
};
use crate::domain::responses::system_api::{AddAccountResponse, ListAccountsResponse};

verus! {

/// Why a request of the operator was not served.
#[derive(Debug)]
pub enum SystemApiError {
    /// The lock that guards the ledger could not be taken.
    MutexLockError(String),
    /// The ledger refused.
    BankOperationError(BankOperationError),
    /// The operator's credentials were not accepted.
    NotAuthorized,
}

/// A `SystemApiError` as contracts see it.
pub enum SystemApiErrorView {
    MutexLockError(Seq<char>),
    BankOperationError(BankErrorView),
    NotAuthorized,
}

impl View for SystemApiError {
    type V = SystemApiErrorView;

    open spec fn view(&self) -> SystemApiErrorView {
        match self {
            SystemApiError::MutexLockError(s) => SystemApiErrorView::MutexLockError(s@),
            SystemApiError::BankOperationError(e) => SystemApiErrorView::BankOperationError(e@),
            SystemApiError::NotAuthorized => SystemApiErrorView::NotAuthorized,
        }
    }
}

impl SystemApiErrorView {
    /// The HTTP status that answers the error: 401 for credentials that were
    /// not accepted, 500 for what went wrong inside the bank, 400 for what
    /// the ledger refused.
    pub open spec fn status_code(self) -> u16 {
        match self {
            SystemApiErrorView::NotAuthorized => 401,
            SystemApiErrorView::MutexLockError(_) => 500,
            SystemApiErrorView::BankOperationError(BankErrorView::InternalError(_)) => 500,
            SystemApiErrorView::BankOperationError(BankErrorView::MutexLockError(_)) => 500,
            SystemApiErrorView::BankOperationError(_) => 400,
        }
    }
}

impl SystemApiError {
    /// The HTTP status that answers the error.
    pub fn status_code(&self) -> (code: u16)
        ensures
            code == self@.status_code(),
    {
        match self {
            SystemApiError::NotAuthorized => 401,
            SystemApiError::MutexLockError(_) => 500,
            SystemApiError::BankOperationError(BankOperationError::InternalError(_)) => 500,
            SystemApiError::BankOperationError(BankOperationError::MutexLockError(_)) => 500,
            SystemApiError::BankOperationError(_) => 400,
        }
    }
}

/// Opens an account for a customer under the card number `card`. Fails
/// exactly when the number is already taken.
pub fn open_account(bank: &mut MemoryStorage, req: &AddAccountRequest, card: CardNumber) -> (r:
    Result<AddAccountResponse, SystemApiError>)
    requires
        old(bank)@.wf(),
    ensures
        final(bank)@.wf(),
        r is Ok <==> !old(bank)@.knows(card@),
        r matches Ok(response) ==> response.card_number@ == card@ && final(bank)@ == old(
            bank,
        )@.with_account(
            AccountView {
                username: req.username@,
                card_number: card@,
                password: req.password@,
                is_existing: true,
            },
        ),
        r matches Err(e) ==> e@ matches SystemApiErrorView::BankOperationError(
            BankErrorView::InternalError(_),
        ) && final(bank)@ == old(bank)@,
{
    match bank.open_account(req.username.as_str(), req.password.as_str(), card) {
        Ok(card_number) => Ok(AddAccountResponse { card_number }),
        Err(e) => Err(SystemApiError::BankOperationError(e)),
    }
}

/// Opens an account for a customer under a random card number:
/// `open_account` on a number drawn.
pub fn add_account(bank: &mut MemoryStorage, req: &AddAccountRequest) -> (r: Result<
    AddAccountResponse,
    SystemApiError,
>)
    requires
        old(bank)@.wf(),
    ensures
        final(bank)@.wf(),
        match r {
            Ok(response) => {
                &&& !old(bank)@.knows(response.card_number@)
                &&& is_card_number(response.card_number@)
                &&& final(bank)@ == old(bank)@.with_account(
                    AccountView {
                        username: req.username@,
                        card_number: response.card_number@,
                        password: req.password@,
                        is_existing: true,
                    },
                )
            },
            Err(e) => e@ matches SystemApiErrorView::BankOperationError(
                BankErrorView::InternalError(_),
            ) && final(bank)@ == old(bank)@,
        },
{
    open_account(bank, req, CardNumber::generate())
}

/// Deletes a customer's account.
pub fn delete_account(bank: &mut MemoryStorage, req: &DeleteAccountRequest) -> (r: Result<
    (),
    SystemApiError,
>)
    requires
        old(bank)@.wf(),
    ensures
        final(bank)@.wf(),
        final(bank)@ == old(bank)@.after_delete(req.card_number@),
        match r {
            Ok(()) => old(bank)@.delete_result(req.card_number@) is Ok,
            Err(e) => e@ matches SystemApiErrorView::BankOperationError(cause) && old(
                bank,
            )@.delete_result(req.card_number@) == Err::<(), BankErrorView>(cause),
        },
{
    match bank.delete_account(&req.card_number) {
        Ok(()) => Ok(()),
        Err(e) => Err(SystemApiError::BankOperationError(e)),
    }
}

/// Credits an account with money from the emission account.
pub fn open_credit(bank: &mut MemoryStorage, req: &OpenCreditRequest) -> (r: Result<
    (),
    SystemApiError,
>)
    requires
        old(bank)@.wf(),
    ensures
        final(bank)@.wf(),
        match r {
            Ok(()) => old(bank)@.credit_check(req.card_number@, req.amount) is Ok && old(
                bank,
            )@.extended_by(
                final(bank)@,
                seq![old(bank)@.credit_check(req.card_number@, req.amount)->Ok_0],
            ),
            Err(e) => e@ matches SystemApiErrorView::BankOperationError(cause) && old(
                bank,
            )@.credit_check(req.card_number@, req.amount) == Err::<Transfer, BankErrorView>(cause)
                && final(bank)@ == old(bank)@,
        },
{
    match bank.open_credit(&req.card_number, req.amount) {
        Ok(()) => Ok(()),
        Err(e) => Err(SystemApiError::BankOperationError(e)),
    }
}

/// Moves money from one account to another.
pub fn new_transaction(bank: &mut MemoryStorage, req: &NewTransactionRequest) -> (r: Result<
    (),
    SystemApiError,
>)
    requires
        old(bank)@.wf(),
    ensures
        final(bank)@.wf(),
        match r {
            Ok(()) => old(bank)@.transfer_check(req.from@, req.to@, req.amount) is Ok && old(
                bank,
            )@.extended_by(
                final(bank)@,
                seq![old(bank)@.transfer_check(req.from@, req.to@, req.amount)->Ok_0],
            ),
            Err(e) => e@ matches SystemApiErrorView::BankOperationError(cause) && old(
                bank,
            )@.transfer_check(req.from@, req.to@, req.amount) == Err::<Transfer, BankErrorView>(
                cause,
            ) && final(bank)@ == old(bank)@,
        },
{
    match bank.new_transaction(&req.from, &req.to, req.amount) {
        Ok(()) => Ok(()),
        Err(e) => Err(SystemApiError::BankOperationError(e)),
    }
}

/// Reports on every customer's account.
pub fn list_accounts(bank: &MemoryStorage) -> (r: Result<ListAccountsResponse, SystemApiError>)
    ensures
        r is Ok <==> bank@.balances_fit(bank@.accounts.len() as int),
        r matches Ok(response) ==> {
            &&& response.accounts@.len() == bank@.accounts.len()
            &&& forall|i: int|
                0 <= i < response.accounts@.len() ==> (#[trigger] response.accounts@[i])@
                    == bank@.report(i)
        },
        r matches Err(e) ==> e@ matches SystemApiErrorView::BankOperationError(
            BankErrorView::InternalError(_),
        ),
{
    match bank.list_accounts() {
        Ok(accounts) => Ok(ListAccountsResponse { accounts }),
        Err(e) => Err(SystemApiError::BankOperationError(e)),
    }
}

} // verus!
