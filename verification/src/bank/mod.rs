//! The bank: accounts, transactions and the errors of ledger operations.

use vstd::prelude::*;
use vstd::string::*;

use crate::cornucopia::queries::bank_queries::GetAccount;
use crate::domain::card_number::{parse_spec, CardNumber, CardNumberError};
use crate::random::{is_alphanumeric_byte, sample_alphanumeric};
use crate::text::push_char;

pub mod laws;
pub mod ledger;
pub mod memory;
pub mod pg;

verus! {

/// Number of characters in a card token.
pub const TOKEN_LEN: usize = 30;

/// Why a ledger operation was refused.
#[derive(Debug)]
pub enum BankOperationError {
    /// The storage behind the ledger failed; the text is for the log only.
    InternalError(String),
    /// No account has the card number.
    AccountNotFound,
    /// No card number is registered under the token.
    TokenNotFound,
    /// The account was deleted.
    AccountIsDeleted,
    /// The sender's balance does not cover the amount.
    NotEnoughFunds,
    /// The credentials do not match the account.
    NotAuthorized,
    /// The amount is not positive, or sender and recipient coincide.
    BadTransaction,
    /// The lock that guards the ledger could not be taken.
    MutexLockError(String),
    /// The operation is not allowed on this target.
    BadOperation(String),
}

/// An error of a ledger operation as contracts see it.
pub enum BankErrorView {
    InternalError(Seq<char>),
    AccountNotFound,
    TokenNotFound,
    AccountIsDeleted,
    NotEnoughFunds,
    NotAuthorized,
    BadTransaction,
    MutexLockError(Seq<char>),
    BadOperation(Seq<char>),
}

impl View for BankOperationError {
    type V = BankErrorView;

    open spec fn view(&self) -> BankErrorView {
        match self {
            BankOperationError::InternalError(s) => BankErrorView::InternalError(s@),
            BankOperationError::AccountNotFound => BankErrorView::AccountNotFound,
            BankOperationError::TokenNotFound => BankErrorView::TokenNotFound,
            BankOperationError::AccountIsDeleted => BankErrorView::AccountIsDeleted,
            BankOperationError::NotEnoughFunds => BankErrorView::NotEnoughFunds,
            BankOperationError::NotAuthorized => BankErrorView::NotAuthorized,
            BankOperationError::BadTransaction => BankErrorView::BadTransaction,
            BankOperationError::MutexLockError(s) => BankErrorView::MutexLockError(s@),
            BankOperationError::BadOperation(s) => BankErrorView::BadOperation(s@),
        }
    }
}

/// A result as contracts see it: the view of what it holds.
pub open spec fn result_view<T: View, E: View>(r: Result<T, E>) -> Result<T::V, E::V> {
    match r {
        Ok(t) => Ok(t@),
        Err(e) => Err(e@),
    }
}

impl BankErrorView {
    /// The text that describes this error.
    pub open spec fn message(self) -> Seq<char> {
        match self {
            BankErrorView::InternalError(_) => "Internal error"@,
            BankErrorView::AccountNotFound => "No account"@,
            BankErrorView::TokenNotFound => "No account for token"@,
            BankErrorView::AccountIsDeleted => "Account was deleted"@,
            BankErrorView::NotEnoughFunds => "Not enough funds for operation"@,
            BankErrorView::NotAuthorized => "Account is not authorized"@,
            BankErrorView::BadTransaction => "Can't perform transaction"@,
            BankErrorView::MutexLockError(e) => "Mutex lock error: "@ + e,
            BankErrorView::BadOperation(e) => "Attempt to perform not allowed operation: "@ + e,
        }
    }

    /// The text that may be shown to a client: as `message`, but what went
    /// wrong inside the bank is reported as an internal error and no more.
    pub open spec fn client_reason(self) -> Seq<char> {
        match self {
            BankErrorView::MutexLockError(_) => "Internal error"@,
            _ => self.message(),
        }
    }
}

impl BankOperationError {
    /// Describes the error in words.
    pub fn message(&self) -> (s: String)
        ensures
            s@ == self@.message(),
    {
        match self {
            BankOperationError::InternalError(_) => String::from_str("Internal error"),
            BankOperationError::AccountNotFound => String::from_str("No account"),
            BankOperationError::TokenNotFound => String::from_str("No account for token"),
            BankOperationError::AccountIsDeleted => String::from_str("Account was deleted"),
            BankOperationError::NotEnoughFunds => String::from_str(
                "Not enough funds for operation",
            ),
            BankOperationError::NotAuthorized => String::from_str("Account is not authorized"),
            BankOperationError::BadTransaction => String::from_str("Can't perform transaction"),
            BankOperationError::MutexLockError(e) => String::from_str("Mutex lock error: ").concat(
                e.as_str(),
            ),
            BankOperationError::BadOperation(e) => String::from_str(
                "Attempt to perform not allowed operation: ",
            ).concat(e.as_str()),
        }
    }

    /// Describes the error in words that are safe to hand to a client.
    pub fn str_reason_for_client(&self) -> (s: String)
        ensures
            s@ == self@.client_reason(),
    {
        match self {
            BankOperationError::MutexLockError(_) => String::from_str("Internal error"),
            _ => self.message(),
        }
    }
}

impl Clone for BankOperationError {
    fn clone(&self) -> (e: Self)
        ensures
            e == *self,
    {
        match self {
            BankOperationError::InternalError(s) => BankOperationError::InternalError(s.clone()),
            BankOperationError::AccountNotFound => BankOperationError::AccountNotFound,
            BankOperationError::TokenNotFound => BankOperationError::TokenNotFound,
            BankOperationError::AccountIsDeleted => BankOperationError::AccountIsDeleted,
            BankOperationError::NotEnoughFunds => BankOperationError::NotEnoughFunds,
            BankOperationError::NotAuthorized => BankOperationError::NotAuthorized,
            BankOperationError::BadTransaction => BankOperationError::BadTransaction,
            BankOperationError::MutexLockError(s) => BankOperationError::MutexLockError(s.clone()),
            BankOperationError::BadOperation(s) => BankOperationError::BadOperation(s.clone()),
        }
    }
}

/// An account as contracts see it.
pub struct AccountView {
    pub username: Seq<char>,
    pub card_number: Seq<char>,
    pub password: Seq<char>,
    pub is_existing: bool,
}

/// An account of the bank. Two accounts are the same account when their card
/// numbers are equal. An account holds its password and so cannot be printed.
pub struct Account {
    username: String,
    card_number: CardNumber,
    password: String,
    is_existing: bool,
}

impl View for Account {
    type V = AccountView;

    closed spec fn view(&self) -> AccountView {
        AccountView {
            username: self.username@,
            card_number: self.card_number@,
            password: self.password@,
            is_existing: self.is_existing,
        }
    }
}

impl Account {
    /// The account that a row of the persistent ledger describes: its card
    /// number must be one. The password stays behind; the account gets an
    /// empty one.
    pub fn try_from(value: GetAccount) -> (r: Result<Account, CardNumberError>)
        ensures
            match r {
                Ok(account) => parse_spec(value.card_number@) is Ok && account@ == (AccountView {
                    username: value.username@,
                    card_number: value.card_number@,
                    password: Seq::<char>::empty(),
                    is_existing: value.is_existing,
                }),
                Err(e) => parse_spec(value.card_number@) == Err::<Seq<char>, CardNumberError>(e),
            },
    {
        let card_number = CardNumber::parse(value.card_number.as_str())?;
        Ok(
            Account {
                username: value.username,
                card_number,
                password: String::new(),
                is_existing: value.is_existing,
            },
        )
    }

    /// The account that a row of the persistent ledger describes, with the
    /// hash that stands for its password.
    pub fn from_row(value: GetAccount) -> (r: Result<Account, CardNumberError>)
        ensures
            match r {
                Ok(account) => parse_spec(value.card_number@) is Ok && account@ == (AccountView {
                    username: value.username@,
                    card_number: value.card_number@,
                    password: value.password_hash@,
                    is_existing: value.is_existing,
                }),
                Err(e) => parse_spec(value.card_number@) == Err::<Seq<char>, CardNumberError>(e),
            },
    {
        let card_number = CardNumber::parse(value.card_number.as_str())?;
        Ok(
            Account {
                username: value.username,
                card_number,
                password: value.password_hash,
                is_existing: value.is_existing,
            },
        )
    }

    /// The account's card number.
    pub fn card(&self) -> (c: CardNumber)
        ensures
            c@ == self@.card_number,
    {
        self.card_number.clone()
    }

    /// The name the account was opened under.
    pub fn username(&self) -> (s: &str)
        ensures
            s@ == self@.username,
    {
        self.username.as_str()
    }

    /// The account's password, or the hash that stands for it.
    pub fn password(&self) -> (s: &str)
        ensures
            s@ == self@.password,
    {
        self.password.as_str()
    }

    /// `false` once the account has been deleted.
    pub fn is_existing(&self) -> (b: bool)
        ensures
            b == self@.is_existing,
    {
        self.is_existing
    }
}

impl Clone for Account {
    fn clone(&self) -> (a: Self)
        ensures
            a == *self,
    {
        Account {
            username: self.username.clone(),
            card_number: self.card_number.clone(),
            password: self.password.clone(),
            is_existing: self.is_existing,
        }
    }
}

impl PartialEq for Account {
    fn eq(&self, other: &Self) -> (r: bool) {
        self.card_number == other.card_number
    }
}

impl vstd::std_specs::cmp::PartialEqSpecImpl for Account {
    open spec fn obeys_eq_spec() -> bool {
        true
    }

    open spec fn eq_spec(&self, other: &Self) -> bool {
        self@.card_number == other@.card_number
    }
}

/// The name under which the store's account is opened.
pub open spec fn store_username() -> Seq<char> {
    "store"@
}

/// Draws up the two system accounts of a bank under the card numbers
/// given: the emission account, opened under `bank_username`, and the
/// store's account, opened under `store`, both with `password`. Fails with
/// an internal error exactly when the two card numbers coincide.
pub fn system_accounts_with(
    bank_username: &str,
    password: &str,
    emission_card: CardNumber,
    store_card: CardNumber,
) -> (r: Result<(Account, Account), BankOperationError>)
    ensures
        r is Ok <==> emission_card@ != store_card@,
        r matches Ok((emission, store)) ==> {
            &&& emission@ == (AccountView {
                username: bank_username@,
                card_number: emission_card@,
                password: password@,
                is_existing: true,
            })
            &&& store@ == (AccountView {
                username: store_username(),
                card_number: store_card@,
                password: password@,
                is_existing: true,
            })
        },
        r matches Err(e) ==> e@ is InternalError,
{
    if emission_card == store_card {
        return Err(
            BankOperationError::InternalError(
                String::from_str("The system accounts got the same card number"),
            ),
        );
    }
    let emission_account = Account {
        card_number: emission_card,
        password: String::from_str(password),
        is_existing: true,
        username: String::from_str(bank_username),
    };
    let store_account = Account {
        card_number: store_card,
        password: String::from_str(password),
        is_existing: true,
        username: String::from_str("store"),
    };
    Ok((emission_account, store_account))
}

/// Draws up the two system accounts of a bank, each under a random card
/// number: `system_accounts_with` on two numbers drawn. Fails with an
/// internal error if the two numbers drawn coincide.
pub fn system_accounts(bank_username: &str, password: &str) -> (r: Result<
    (Account, Account),
    BankOperationError,
>)
    ensures
        match r {
            Ok((emission, store)) => {
                &&& emission@.username == bank_username@
                &&& emission@.password == password@
                &&& emission@.is_existing
                &&& store@.username == store_username()
                &&& store@.password == password@
                &&& store@.is_existing
                &&& emission@.card_number != store@.card_number
                &&& crate::domain::card_number::is_card_number(emission@.card_number)
                &&& crate::domain::card_number::is_card_number(store@.card_number)
            },
            Err(e) => e@ is InternalError,
        },
{
    system_accounts_with(bank_username, password, CardNumber::generate(), CardNumber::generate())
}

/// A transaction as contracts see it.
pub struct TransactionView {
    pub sender: AccountView,
    pub recipient: AccountView,
    pub amount: i64,
    pub datetime: i128,
}

/// A movement of money between two accounts. The log of transactions is the
/// only record of money: balances are derived from it.
pub struct Transaction {
    sender: Account,
    recipient: Account,
    amount: i64,
    /// Nanoseconds since the Unix epoch, UTC.
    datetime: i128,
}

impl View for Transaction {
    type V = TransactionView;

    closed spec fn view(&self) -> TransactionView {
        TransactionView {
            sender: self.sender@,
            recipient: self.recipient@,
            amount: self.amount,
            datetime: self.datetime,
        }
    }
}

impl Transaction {
    /// The transaction that moved `amount` from `sender` to `recipient` at
    /// `datetime`, in nanoseconds since the Unix epoch.
    pub fn new(sender: Account, recipient: Account, amount: i64, datetime: i128) -> (t: Transaction)
        ensures
            t@ == (TransactionView { sender: sender@, recipient: recipient@, amount, datetime }),
    {
        Transaction { sender, recipient, amount, datetime }
    }

    /// The account that pays.
    pub fn sender(&self) -> (a: &Account)
        ensures
            a@ == self@.sender,
    {
        &self.sender
    }

    /// The account that is paid.
    pub fn recipient(&self) -> (a: &Account)
        ensures
            a@ == self@.recipient,
    {
        &self.recipient
    }

    /// The amount moved.
    pub fn amount(&self) -> (n: i64)
        ensures
            n == self@.amount,
    {
        self.amount
    }

    /// When the transaction was recorded, in nanoseconds since the Unix epoch.
    pub fn datetime(&self) -> (t: i128)
        ensures
            t == self@.datetime,
    {
        self.datetime
    }
}

impl Clone for Transaction {
    fn clone(&self) -> (t: Self)
        ensures
            t == *self,
    {
        Transaction {
            sender: self.sender.clone(),
            recipient: self.recipient.clone(),
            amount: self.amount,
            datetime: self.datetime,
        }
    }
}

/// What one transaction adds to the balance of the account with card number
/// `card`: the amount if the account receives it, minus the amount if the
/// account sends it.
pub open spec fn movement(tx: TransactionView, card: Seq<char>) -> int {
    (if tx.recipient.card_number == card {
        tx.amount as int
    } else {
        0
    }) - (if tx.sender.card_number == card {
        tx.amount as int
    } else {
        0
    })
}

/// The balance that the log `txs` gives the account with card number `card`:
/// everything it received minus everything it sent.
pub open spec fn balance_of(txs: Seq<TransactionView>, card: Seq<char>) -> int
    decreases txs.len(),
{
    if txs.len() == 0 {
        0
    } else {
        balance_of(txs.drop_last(), card) + movement(txs.last(), card)
    }
}

/// The shape of a card token: thirty ASCII letters and digits.
pub open spec fn is_token(s: Seq<char>) -> bool {
    &&& s.len() == TOKEN_LEN
    &&& forall|i: int| 0 <= i < s.len() ==> is_alphanumeric_byte(#[trigger] s[i] as u8) && s[i] <= '\u{7f}'
}

/// Generates a card token: thirty random letters and digits.
pub fn generate_token() -> (token: String)
    ensures
        is_token(token@),
{
    let mut token = String::new();
    let mut i: usize = 0;
    while i < TOKEN_LEN
        invariant
            i <= TOKEN_LEN,
            token@.len() == i,
            forall|j: int|
                0 <= j < i ==> is_alphanumeric_byte(#[trigger] token@[j] as u8) && token@[j]
                    <= '\u{7f}',
        decreases TOKEN_LEN - i,
    {
        let code = sample_alphanumeric();
        push_char(&mut token, code as char);
        i += 1;
    }
    token
}

} // verus!
