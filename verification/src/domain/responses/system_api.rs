//! What the operator of the bank is told.

use vstd::prelude::*;

use crate::bank::{Transaction, TransactionView};
use crate::domain::card_number::CardNumber;

verus! {

/// The answer to a request to open an account.
#[derive(Debug)]
pub struct AddAccountResponse {
    pub card_number: CardNumber,
}

/// A customer's account with all that the ledger knows of it.
pub struct Account {
    pub card_number: CardNumber,
    pub balance: i64,
    pub transactions: Vec<Transaction>,
    pub exists: bool,
    pub tokens: Vec<String>,
    pub username: String,
}

/// The report on an account as contracts see it.
pub struct AccountReportView {
    pub card_number: Seq<char>,
    pub balance: i64,
    pub transactions: Seq<TransactionView>,
    pub exists: bool,
    pub tokens: Seq<Seq<char>>,
    pub username: Seq<char>,
}

impl View for Account {
    type V = AccountReportView;

    open spec fn view(&self) -> AccountReportView {
        AccountReportView {
            card_number: self.card_number@,
            balance: self.balance,
            transactions: Seq::new(self.transactions@.len(), |i: int| self.transactions@[i]@),
            exists: self.exists,
            tokens: Seq::new(self.tokens@.len(), |i: int| self.tokens@[i]@),
            username: self.username@,
        }
    }
}

/// The customers' accounts.
pub struct ListAccountsResponse {
    pub accounts: Vec<Account>,
}

/// The card tokens issued, each with the card number it stands for.
#[derive(Debug)]
pub struct ListCardTokensResponse {
    pub list: Vec<(String, CardNumber)>,
}

} // verus!
