//! The rows that the queries on the persistent ledger return.

use vstd::prelude::*;

verus! {

/// An account as the `accounts` table holds it.
#[derive(Debug)]
pub struct GetAccount {
    pub username: String,
    pub card_number: String,
    pub is_existing: bool,
    pub password_hash: String,
}

/// An account as the `accounts` table holds it, borrowed from the row.
#[derive(Debug)]
pub struct GetAccountBorrowed<'a> {
    pub username: &'a str,
    pub card_number: &'a str,
    pub is_existing: bool,
    pub password_hash: &'a str,
}

/// The account that a token stands for, as the join of `tokens` and
/// `accounts` gives it.
#[derive(Debug)]
pub struct GetAccountByToken {
    pub username: String,
    pub card_number: String,
    pub is_existing: bool,
}

/// The account that a token stands for, borrowed from the row.
#[derive(Debug)]
pub struct GetAccountByTokenBorrowed<'a> {
    pub username: &'a str,
    pub card_number: &'a str,
    pub is_existing: bool,
}

impl GetAccount {
    /// Copies a borrowed row.
    pub fn from_borrowed(row: GetAccountBorrowed<'_>) -> (r: GetAccount)
        ensures
            r.username@ == row.username@,
            r.card_number@ == row.card_number@,
            r.is_existing == row.is_existing,
            r.password_hash@ == row.password_hash@,
    {
        GetAccount {
            username: String::from_str(row.username),
            card_number: String::from_str(row.card_number),
            is_existing: row.is_existing,
            password_hash: String::from_str(row.password_hash),
        }
    }
}

impl GetAccountByToken {
    /// Copies a borrowed row.
    pub fn from_borrowed(row: GetAccountByTokenBorrowed<'_>) -> (r: GetAccountByToken)
        ensures
            r.username@ == row.username@,
            r.card_number@ == row.card_number@,
            r.is_existing == row.is_existing,
    {
        GetAccountByToken {
            username: String::from_str(row.username),
            card_number: String::from_str(row.card_number),
            is_existing: row.is_existing,
        }
    }
}

} // verus!
