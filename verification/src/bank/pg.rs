//! What the ledger in a transactional database shares with the one in
//! memory: how the database's refusals read as errors of the ledger, and
//! which accounts are the customers'.

use vstd::prelude::*;
use vstd::string::*;

use super::{store_username, BankErrorView, BankOperationError};

verus! {

/// The error of the ledger that a refusal of the database stands for, by
/// the message that the database raised; `None` for a failure without one.
pub open spec fn transaction_error_spec(message: Option<Seq<char>>) -> BankErrorView {
    match message {
        None => BankErrorView::InternalError("Failed to create transaction"@),
        Some(m) => if m == "Not enough funds"@ {
            BankErrorView::NotEnoughFunds
        } else if m == "Amount must be greater than 0"@ {
            BankErrorView::BadTransaction
        } else if m == "Sender and recipient cannot be the same"@ {
            BankErrorView::BadTransaction
        } else if m == "Sender or recipient account does not exist or is not active"@ {
            BankErrorView::AccountNotFound
        } else {
            BankErrorView::InternalError(m)
        },
    }
}

/// Reads the refusal of a transaction by the database as an error of the
/// ledger.
pub fn transaction_error(message: Option<&str>) -> (e: BankOperationError)
    ensures
        e@ == transaction_error_spec(
            match message {
                Some(m) => Some(m@),
                None => None,
            },
        ),
{
    match message {
        None => BankOperationError::InternalError(String::from_str("Failed to create transaction")),
        Some(m) => {
            let m = String::from_str(m);
            if m == String::from_str("Not enough funds") {
                BankOperationError::NotEnoughFunds
            } else if m == String::from_str("Amount must be greater than 0") {
                BankOperationError::BadTransaction
            } else if m == String::from_str("Sender and recipient cannot be the same") {
                BankOperationError::BadTransaction
            } else if m == String::from_str(
                "Sender or recipient account does not exist or is not active",
            ) {
                BankOperationError::AccountNotFound
            } else {
                BankOperationError::InternalError(m)
            }
        },
    }
}

/// Does a storage that holds `accounts_count` accounts still need its system
/// accounts? They are the first two accounts of a storage and are created
/// once, so they are needed exactly when the storage holds no account.
pub fn needs_system_accounts(accounts_count: i64) -> (b: bool)
    ensures
        b == (accounts_count == 0),
{
    accounts_count == 0
}

/// Is an account under this name one of the two system accounts? The
/// accounts table holds them beside the customers' accounts, from which
/// they are told by their names.
pub fn is_system_account(username: &str, bank_username: &str) -> (b: bool)
    ensures
        b == (username@ == bank_username@ || username@ == store_username()),
{
    let username = String::from_str(username);
    username == String::from_str(bank_username) || username == String::from_str("store")
}

} // verus!
