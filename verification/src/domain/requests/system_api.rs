//! What the operator of the bank may ask for.

use vstd::prelude::*;

use crate::domain::card_number::CardNumber;

verus! {

/// Open an account.
pub struct AddAccountRequest {
    pub username: String,
    pub password: String,
}

/// Delete the account with this card number.
#[derive(Debug)]
pub struct DeleteAccountRequest {
    pub card_number: CardNumber,
}

/// Credit an account with money from the emission account.
#[derive(Debug)]
pub struct OpenCreditRequest {
    pub card_number: CardNumber,
    pub amount: i64,
}

/// Move money from one account to another.
#[derive(Debug)]
pub struct NewTransactionRequest {
    pub from: CardNumber,
    pub to: CardNumber,
    pub amount: i64,
}

} // verus!
