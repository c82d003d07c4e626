//! The ledger held in memory.

use vstd::prelude::*;
use vstd::string::*;

use super::ledger::{
    account_views, authorized, delete_verdict as delete_verdict_spec, has_card, lemma_split_len,
    resolved_account, lemma_split_prefix, reported_balance, split_amounts,
    split_plan, tokens_of, transactions_of, transfers, transfers_total, LedgerView, Transfer,
};
use super::{
    balance_of, generate_token, is_token, movement, result_view, store_username,
    system_accounts_with, Account,
    AccountView,
    BankErrorView, BankOperationError, Transaction, TransactionView,
};
use crate::clock::now_utc_nanos;
use crate::domain::beneficiaries::{Beneficiaries, BeneficiaryView};
use crate::domain::card_number::{is_card_number, CardNumber};

verus! {

/// A card token with the card number that it stands for.
#[derive(Debug)]
struct TokenEntry {
    token: String,
    card: CardNumber,
}

/// The ledger: accounts, the log of transactions and the card tokens, all held
/// in memory. Every operation leaves the ledger well formed (`LedgerView::wf`).
pub struct MemoryStorage {
    tokens: Vec<TokenEntry>,
    accounts: Vec<Account>,
    transactions: Vec<Transaction>,
    // System account
    emission_account: Account,
    // There is a single store
    store_account: Account,
    changed: bool,
}

impl View for MemoryStorage {
    type V = LedgerView;

    closed spec fn view(&self) -> LedgerView {
        LedgerView {
            accounts: Seq::new(self.accounts@.len(), |i: int| self.accounts@[i]@),
            transactions: Seq::new(self.transactions@.len(), |i: int| self.transactions@[i]@),
            tokens: Seq::new(
                self.tokens@.len(),
                |i: int| (self.tokens@[i].token@, self.tokens@[i].card@),
            ),
            emission_account: self.emission_account@,
            store_account: self.store_account@,
            changed: self.changed,
        }
    }
}

impl MemoryStorage {
    /// Looks for the customer's account with the card number `card`.
    fn position(&self, card: &CardNumber) -> (r: Option<usize>)
        requires
            self@.wf(),
        ensures
            match r {
                Some(i) => i < self@.accounts.len() && self@.account_cards().contains(card@)
                    && self@.account_cards().index_of(card@) == i
                    && self.accounts@[i as int]@ == self@.accounts[i as int],
                None => !self@.account_cards().contains(card@),
            },
    {
        let mut i: usize = 0;
        while i < self.accounts.len()
            invariant
                self@.wf(),
                i <= self.accounts@.len(),
                self@.accounts.len() == self.accounts@.len(),
                forall|j: int| 0 <= j < i ==> self@.account_cards()[j] != card@,
            decreases self.accounts@.len() - i,
        {
            if self.accounts[i].card_number == *card {
                proof {
                    self@.lemma_account_position(i as int);
                }
                return Some(i);
            }
            i += 1;
        }
        None
    }

    /// A ledger with the two system accounts, under the card numbers given,
    /// and nothing else. The emission account is opened under
    /// `bank_username`, the store's account under `store`, both with
    /// `password`. Fails with an internal error exactly when the two card
    /// numbers coincide.
    pub fn with_system_cards(
        bank_username: &str,
        password: &str,
        emission_card: CardNumber,
        store_card: CardNumber,
    ) -> (r: Result<MemoryStorage, BankOperationError>)
        ensures
            r is Ok <==> emission_card@ != store_card@,
            r matches Ok(bank) ==> bank@.wf() && bank@ == (LedgerView {
                accounts: Seq::empty(),
                transactions: Seq::empty(),
                tokens: Seq::empty(),
                emission_account: AccountView {
                    username: bank_username@,
                    card_number: emission_card@,
                    password: password@,
                    is_existing: true,
                },
                store_account: AccountView {
                    username: store_username(),
                    card_number: store_card@,
                    password: password@,
                    is_existing: true,
                },
                changed: false,
            }),
            r matches Err(e) ==> e@ is InternalError,
    {
        let (emission_account, store_account) = system_accounts_with(
            bank_username,
            password,
            emission_card,
            store_card,
        )?;
        let bank = MemoryStorage {
            tokens: Vec::new(),
            accounts: Vec::new(),
            emission_account,
            store_account,
            transactions: Vec::new(),
            changed: false,
        };
        proof {
            assert(bank@.accounts =~= Seq::<AccountView>::empty());
            assert(bank@.transactions =~= Seq::<TransactionView>::empty());
            assert(bank@.tokens =~= Seq::<(Seq<char>, Seq<char>)>::empty());
            assert(bank@.account_cards() =~= Seq::<Seq<char>>::empty());
            assert(bank@.cards() =~= seq![
                bank@.emission_account.card_number,
                bank@.store_account.card_number,
            ]);
            assert(bank@.token_keys() =~= Seq::<Seq<char>>::empty());
        }
        Ok(bank)
    }

    /// A ledger with the two system accounts and nothing else, each under a
    /// random card number: `with_system_cards` on two numbers drawn. Fails
    /// with an internal error if the two numbers drawn coincide.
    pub fn new(bank_username: &str, password: &str) -> (r: Result<MemoryStorage, BankOperationError>)
        ensures
            match r {
                Ok(bank) => {
                    &&& bank@.wf()
                    &&& bank@.accounts.len() == 0
                    &&& bank@.transactions.len() == 0
                    &&& bank@.tokens.len() == 0
                    &&& !bank@.changed
                    &&& bank@.emission_account.username == bank_username@
                    &&& bank@.emission_account.password == password@
                    &&& bank@.store_account.username == "store"@
                    &&& bank@.store_account.password == password@
                    &&& is_card_number(bank@.emission_account.card_number)
                    &&& is_card_number(bank@.store_account.card_number)
                },
                Err(e) => e@ is InternalError,
            },
    {
        MemoryStorage::with_system_cards(
            bank_username,
            password,
            CardNumber::generate(),
            CardNumber::generate(),
        )
    }

    /// Is a change notification owed to the subscribers? Asking settles the debt.
    pub fn take_changed(&mut self) -> (changed: bool)
        ensures
            changed == old(self)@.changed,
            final(self)@ == (LedgerView { changed: false, ..old(self)@ }),
    {
        let changed = self.changed;
        self.changed = false;
        changed
    }

    /// Resolves `card` to an account: a customer's account that was not
    /// deleted, or the store's account.
    pub fn find_account(&self, card: &CardNumber) -> (r: Result<Account, BankOperationError>)
        requires
            self@.wf(),
        ensures
            result_view(r) == self@.find_account(card@),
    {
        proof {
            self@.lemma_system_cards();
        }
        let found = match self.position(card) {
            Some(i) => Some(&self.accounts[i]),
            None => {
                if self.store_account.card_number == *card {
                    Some(&self.store_account)
                } else {
                    None
                }
            },
        };
        resolve_account(card, found, &self.emission_account.card_number)
    }

    /// The store's account.
    pub fn get_store_account(&self) -> (r: Result<Account, BankOperationError>)
        ensures
            result_view(r) == Ok::<AccountView, BankErrorView>(self@.store_account),
    {
        Ok(self.store_account.clone())
    }

    /// The emission account.
    pub fn get_emission_account(&self) -> (r: Result<Account, BankOperationError>)
        ensures
            result_view(r) == Ok::<AccountView, BankErrorView>(self@.emission_account),
    {
        Ok(self.emission_account.clone())
    }

    /// Validates the credentials of the bank's operator: the name and the
    /// password of the emission account.
    pub fn authorize_system(&self, username: &str, password: &str) -> (r: Result<
        (),
        BankOperationError,
    >)
        ensures
            r is Ok <==> self@.authorize_system(username@, password@),
            r matches Err(e) ==> e@ == BankErrorView::NotAuthorized,
    {
        if str_eq(self.emission_account.username.as_str(), username) && str_eq(
            self.emission_account.password.as_str(),
            password,
        ) {
            Ok(())
        } else {
            Err(BankOperationError::NotAuthorized)
        }
    }

    /// Resolves `card` as `find_account` does and checks the password.
    pub fn authorize_account(&self, card: &CardNumber, password: &str) -> (r: Result<
        Account,
        BankOperationError,
    >)
        requires
            self@.wf(),
        ensures
            result_view(r) == self@.authorize_account(card@, password@),
    {
        let account = self.find_account(card);
        let password_matches = match &account {
            Ok(account) => str_eq(account.password.as_str(), password),
            Err(_) => false,
        };
        authorize(account, password_matches)
    }

    /// Opens an account for a customer under the card number `card` and
    /// returns that number. Fails with an internal error, and changes
    /// nothing, exactly when the number is already taken by an account of
    /// the ledger, a system account included.
    pub fn open_account(&mut self, username: &str, password: &str, card: CardNumber) -> (r: Result<
        CardNumber,
        BankOperationError,
    >)
        requires
            old(self)@.wf(),
        ensures
            final(self)@.wf(),
            r is Ok <==> !old(self)@.knows(card@),
            r matches Ok(c) ==> c@ == card@ && final(self)@ == old(self)@.with_account(
                AccountView {
                    username: username@,
                    card_number: card@,
                    password: password@,
                    is_existing: true,
                },
            ),
            r matches Err(e) ==> e@ is InternalError && final(self)@ == old(self)@,
    {
        proof {
            old(self)@.lemma_cards();
        }
        if self.position(&card).is_some() || self.store_account.card_number == card
            || self.emission_account.card_number == card {
            return Err(
                BankOperationError::InternalError(
                    String::from_str("The card number drawn is already taken"),
                ),
            );
        }
        let account = Account {
            card_number: card.clone(),
            is_existing: true,
            password: String::from_str(password),
            username: String::from_str(username),
        };
        self.accounts.push(account);
        self.changed = true;
        proof {
            let before = old(self)@;
            let after = self@;
            assert(after.accounts =~= before.accounts.push(account@));
            assert(after.transactions =~= before.transactions);
            assert(after.tokens =~= before.tokens);
            before.lemma_with_account(account@);
        }
        Ok(card)
    }

    /// Opens an account for a customer under a fresh random card number and
    /// returns that number: `open_account` on a number drawn. Fails with an
    /// internal error, and changes nothing, if the number drawn is already
    /// taken.
    pub fn add_account(&mut self, username: &str, password: &str) -> (r: Result<
        CardNumber,
        BankOperationError,
    >)
        requires
            old(self)@.wf(),
        ensures
            final(self)@.wf(),
            match r {
                Ok(card) => {
                    &&& !old(self)@.knows(card@)
                    &&& is_card_number(card@)
                    &&& final(self)@ == old(self)@.with_account(
                        AccountView {
                            username: username@,
                            card_number: card@,
                            password: password@,
                            is_existing: true,
                        },
                    )
                },
                Err(e) => e@ is InternalError && final(self)@ == old(self)@,
            },
    {
        self.open_account(username, password, CardNumber::generate())
    }

    /// The balance that the log gives the account with card number `card`.
    fn balance_exact(&self, card: &CardNumber) -> (total: i128)
        ensures
            total == self@.balance(card@),
    {
        let mut total: i128 = 0;
        let mut i: usize = 0;
        let ghost log = self@.transactions;
        while i < self.transactions.len()
            invariant
                i <= self.transactions@.len(),
                log == self@.transactions,
                log.len() == self.transactions@.len(),
                total == balance_of(log.take(i as int), card@),
                -(i as int) * 0x8000_0000_0000_0000 <= total <= (i as int)
                    * 0x8000_0000_0000_0000,
            decreases self.transactions@.len() - i,
        {
            let tx = &self.transactions[i];
            let mut delta: i128 = 0;
            if tx.recipient.card_number == *card {
                delta = delta + tx.amount as i128;
            }
            if tx.sender.card_number == *card {
                delta = delta - tx.amount as i128;
            }
            proof {
                assert(log.take(i + 1).drop_last() =~= log.take(i as int));
                assert(log.take(i + 1).last() == tx@);
                assert(delta == movement(tx@, card@));
            }
            total = total + delta;
            i += 1;
        }
        proof {
            assert(log.take(i as int) =~= log);
        }
        total
    }

    /// The balance of the account that `card` resolves to: all it received
    /// minus all it sent.
    pub fn balance(&self, card: &CardNumber) -> (r: Result<i64, BankOperationError>)
        requires
            self@.wf(),
        ensures
            result_view(r) == self@.balance_result(card@),
    {
        let _ = self.find_account(card)?;
        report_balance(self.balance_exact(card))
    }

    /// The balance of the store's account.
    pub fn store_balance(&self) -> (r: Result<i64, BankOperationError>)
        ensures
            result_view(r) == reported_balance(self@.balance(self@.store_account.card_number)),
    {
        report_balance(self.balance_exact(&self.store_account.card_number))
    }

    /// The balance of the emission account: minus the money in circulation.
    pub fn bank_emission(&self) -> (r: Result<i64, BankOperationError>)
        ensures
            result_view(r) == reported_balance(self@.balance(self@.emission_account.card_number)),
    {
        report_balance(self.balance_exact(&self.emission_account.card_number))
    }

    /// The log of transactions, oldest first.
    pub fn list_transactions(&self) -> (r: Result<Vec<Transaction>, BankOperationError>)
        ensures
            r is Ok,
            r->Ok_0@.len() == self@.transactions.len(),
            forall|i: int| 0 <= i < r->Ok_0@.len() ==> (#[trigger] r->Ok_0@[i])@ == self@.transactions[i],
    {
        let mut log: Vec<Transaction> = Vec::new();
        let mut i: usize = 0;
        while i < self.transactions.len()
            invariant
                i <= self.transactions@.len(),
                log@.len() == i,
                forall|j: int| 0 <= j < i ==> (#[trigger] log@[j])@ == self.transactions@[j]@,
            decreases self.transactions@.len() - i,
        {
            log.push(self.transactions[i].clone());
            i += 1;
        }
        Ok(log)
    }

    /// Appends to the log the transaction that records one movement, with the
    /// time that the clock gives.
    fn record(&mut self, sender: Account, recipient: Account, amount: i64)
        ensures
            old(self)@.extended_by(
                final(self)@,
                seq![Transfer { sender: sender@, recipient: recipient@, amount }],
            ),
    {
        let transaction = Transaction { sender, recipient, amount, datetime: now_utc_nanos() };
        self.transactions.push(transaction);
        self.changed = true;
        proof {
            let before = old(self)@;
            let n = before.transactions.len() as int;
            assert(self@.accounts =~= before.accounts);
            assert(self@.tokens =~= before.tokens);
            assert(self@.transactions.take(n) =~= before.transactions);
            assert(self@.transactions[n + 0] == transaction@);
        }
    }

    /// Moves `amount` from the account of `sender` to the account of
    /// `recipient`. Refused, with nothing changed, unless both cards resolve
    /// to two different accounts, the amount is positive and the sender's
    /// balance covers it: no transfer drives a sender below zero.
    pub fn new_transaction(&mut self, sender: &CardNumber, recipient: &CardNumber, amount: i64) -> (r:
        Result<(), BankOperationError>)
        requires
            old(self)@.wf(),
        ensures
            final(self)@.wf(),
            match r {
                Ok(()) => {
                    &&& old(self)@.transfer_check(sender@, recipient@, amount) is Ok
                    &&& old(self)@.extended_by(
                        final(self)@,
                        seq![old(self)@.transfer_check(sender@, recipient@, amount)->Ok_0],
                    )
                    &&& final(self)@.balance(sender@) == old(self)@.balance(sender@) - amount
                    &&& final(self)@.balance(sender@) >= 0
                    &&& final(self)@.balance(recipient@) == old(self)@.balance(recipient@) + amount
                },
                Err(e) => old(self)@.transfer_check(sender@, recipient@, amount) == Err::<
                    Transfer,
                    BankErrorView,
                >(e@) && final(self)@ == old(self)@,
            },
    {
        let sender_account = self.find_account(sender)?;
        let recipient_account = self.find_account(recipient)?;
        proof {
            self@.lemma_found(sender@);
            self@.lemma_found(recipient@);
        }
        if sender_account == recipient_account {
            return Err(BankOperationError::BadTransaction);
        }
        if self.balance_exact(sender) < amount as i128 {
            return Err(BankOperationError::NotEnoughFunds);
        }
        if amount <= 0 {
            return Err(BankOperationError::BadTransaction);
        }
        let ghost moves = seq![
            Transfer { sender: sender_account@, recipient: recipient_account@, amount },
        ];
        self.record(sender_account, recipient_account, amount);
        proof {
            old(self)@.lemma_extended(self@, moves);
            assert(moves.drop_last() =~= Seq::<Transfer>::empty());
            assert(transfers_total(moves, sender@) == -amount) by {
                reveal_with_fuel(transfers_total, 2);
            }
            assert(transfers_total(moves, recipient@) == amount) by {
                reveal_with_fuel(transfers_total, 2);
            }
        }
        Ok(())
    }

    /// Creates money: records a transaction of `amount` from the emission
    /// account to the account that `card` resolves to. The emission account
    /// has no balance floor.
    pub fn open_credit(&mut self, card: &CardNumber, amount: i64) -> (r: Result<
        (),
        BankOperationError,
    >)
        requires
            old(self)@.wf(),
        ensures
            final(self)@.wf(),
            match r {
                Ok(()) => {
                    &&& old(self)@.credit_check(card@, amount) is Ok
                    &&& old(self)@.extended_by(
                        final(self)@,
                        seq![old(self)@.credit_check(card@, amount)->Ok_0],
                    )
                    &&& final(self)@.balance(card@) == old(self)@.balance(card@) + amount
                },
                Err(e) => old(self)@.credit_check(card@, amount) == Err::<Transfer, BankErrorView>(
                    e@,
                ) && final(self)@ == old(self)@,
            },
    {
        let account = self.find_account(card)?;
        let emission = self.emission_account.clone();
        let ghost moves = seq![Transfer { sender: emission@, recipient: account@, amount }];
        proof {
            self@.lemma_found(card@);
            self@.lemma_cards();
            self@.lemma_system_cards();
        }
        self.record(emission, account, amount);
        proof {
            old(self)@.lemma_extended(self@, moves);
            assert(moves.drop_last() =~= Seq::<Transfer>::empty());
            assert(transfers_total(moves, card@) == amount) by {
                reveal_with_fuel(transfers_total, 2);
            }
        }
        Ok(())
    }

    /// Looks for `token` among the tokens issued.
    fn token_position(&self, token: &str) -> (r: Option<usize>)
        requires
            self@.wf(),
        ensures
            match r {
                Some(i) => i < self@.tokens.len() && self@.token_keys().contains(token@)
                    && self@.token_keys().index_of(token@) == i
                    && self@.tokens[i as int].1 == self.tokens@[i as int].card@,
                None => !self@.token_keys().contains(token@),
            },
    {
        let mut i: usize = 0;
        while i < self.tokens.len()
            invariant
                self@.wf(),
                i <= self.tokens@.len(),
                self@.tokens.len() == self.tokens@.len(),
                forall|j: int| 0 <= j < i ==> self@.token_keys()[j] != token@,
            decreases self.tokens@.len() - i,
        {
            if str_eq(self.tokens[i].token.as_str(), token) {
                proof {
                    let keys = self@.token_keys();
                    assert(keys[i as int] == token@);
                }
                return Some(i);
            }
            i += 1;
        }
        None
    }

    /// Resolves a card token to the account that it stands for.
    pub fn get_account_by_token(&self, token: &str) -> (r: Result<Account, BankOperationError>)
        requires
            self@.wf(),
        ensures
            result_view(r) == self@.account_by_token(token@),
    {
        match self.token_position(token) {
            Some(i) => self.find_account(&self.tokens[i].card),
            None => Err(BankOperationError::TokenNotFound),
        }
    }

    /// Issues a fresh random token for the account that `card` resolves to.
    /// The token then resolves to that account.
    pub fn new_card_token(&mut self, card: &CardNumber) -> (r: Result<String, BankOperationError>)
        requires
            old(self)@.wf(),
        ensures
            final(self)@.wf(),
            match r {
                Ok(token) => {
                    &&& old(self)@.find_account(card@) is Ok
                    &&& is_token(token@)
                    &&& final(self)@ == old(self)@.with_token(token@, card@)
                    &&& final(self)@.account_by_token(token@) == old(self)@.find_account(card@)
                },
                Err(e) => old(self)@.find_account(card@) == Err::<AccountView, BankErrorView>(e@)
                    && final(self)@ == old(self)@,
            },
    {
        let _ = self.find_account(card)?;
        let token = generate_token();
        let entry = TokenEntry { token: token.clone(), card: card.clone() };
        proof {
            old(self)@.lemma_with_token(token@, card@);
        }
        match self.token_position(token.as_str()) {
            Some(i) => {
                self.tokens.set(i, entry);
                proof {
                    assert(self@.tokens =~= old(self)@.tokens.update(i as int, (token@, card@)));
                }
            },
            None => {
                self.tokens.push(entry);
                proof {
                    assert(self@.tokens =~= old(self)@.tokens.push((token@, card@)));
                }
            },
        }
        self.changed = true;
        proof {
            assert(self@.accounts =~= old(self)@.accounts);
            assert(self@.transactions =~= old(self)@.transactions);
        }
        Ok(token)
    }

    /// Resolves the token of every beneficiary, in order.
    fn resolve(&self, beneficiaries: &Beneficiaries) -> (r: Result<Vec<Account>, BankOperationError>)
        requires
            self@.wf(),
        ensures
            match r {
                Ok(accounts) => {
                    &&& self@.resolve_beneficiaries(beneficiaries@.parts) == Ok::<
                        Seq<AccountView>,
                        BankErrorView,
                    >(account_views(accounts@))
                    &&& accounts@.len() == beneficiaries@.parts.len()
                },
                Err(e) => self@.resolve_beneficiaries(beneficiaries@.parts) == Err::<
                    Seq<AccountView>,
                    BankErrorView,
                >(e@),
            },
    {
        let ghost parts = beneficiaries@.parts;
        let mut accounts: Vec<Account> = Vec::new();
        let mut i: usize = 0;
        proof {
            assert(parts.take(0) =~= Seq::<BeneficiaryView>::empty());
        }
        while i < beneficiaries.count()
            invariant
                self@.wf(),
                parts == beneficiaries@.parts,
                i <= parts.len(),
                accounts@.len() == i,
                self@.resolve_beneficiaries(parts.take(i as int)) is Ok,
                self@.resolve_beneficiaries(parts.take(i as int))->Ok_0.len() == i,
                forall|j: int|
                    0 <= j < i ==> (#[trigger] accounts@[j])@ == self@.resolve_beneficiaries(
                        parts.take(i as int),
                    )->Ok_0[j],
            decreases parts.len() - i,
        {
            proof {
                assert(parts.take(i + 1).drop_last() =~= parts.take(i as int));
                assert(parts.take(i + 1).last() == parts[i as int]);
            }
            match self.get_account_by_token(beneficiaries.get(i).token()) {
                Ok(account) => {
                    accounts.push(account);
                },
                Err(e) => {
                    proof {
                        self@.lemma_unresolved_prefix(parts, i + 1);
                    }
                    return Err(e);
                },
            }
            i += 1;
        }
        proof {
            assert(parts.take(i as int) =~= parts);
            assert(account_views(accounts@) =~= self@.resolve_beneficiaries(parts)->Ok_0);
        }
        Ok(accounts)
    }

    /// Pays `amount` from the account of `sender` to several beneficiaries:
    /// one transaction for each, of its share of `amount`, rounded to a whole
    /// amount. Either the whole payment is recorded or nothing is. What the
    /// shares round to need not add up to `amount`.
    pub fn new_split_transaction(
        &mut self,
        sender: &CardNumber,
        amount: i64,
        beneficiaries: &Beneficiaries,
    ) -> (r: Result<(), BankOperationError>)
        requires
            old(self)@.wf(),
        ensures
            final(self)@.wf(),
            match r {
                Ok(()) => {
                    &&& old(self)@.split_check(sender@, amount, beneficiaries@) is Ok
                    &&& old(self)@.extended_by(
                        final(self)@,
                        old(self)@.split_check(sender@, amount, beneficiaries@)->Ok_0,
                    )
                },
                Err(e) => old(self)@.split_check(sender@, amount, beneficiaries@) == Err::<
                    Seq<Transfer>,
                    BankErrorView,
                >(e@) && final(self)@ == old(self)@,
            },
    {
        let ghost before = self@;
        let ghost parts = beneficiaries@.parts;
        let resolved = self.resolve(beneficiaries);
        let payer = self.find_account(sender);
        let balance = Ok(self.balance_exact(sender));
        let (payer, accounts, amounts) = plan_split(
            sender,
            amount,
            beneficiaries,
            resolved,
            payer,
            balance,
        )?;
        let n = accounts.len();
        let ghost moves = before.split_check(sender@, amount, beneficiaries@)->Ok_0;
        proof {
            before.lemma_resolved(parts);
            lemma_split_len(amount, parts);
        }
        self.changed = true;
        proof {
            assert(self@.accounts =~= before.accounts);
            assert(self@.tokens =~= before.tokens);
            assert(self@.transactions =~= before.transactions);
            assert(self@.transactions.take(before.transactions.len() as int)
                =~= before.transactions);
            assert(moves.take(0) =~= Seq::<Transfer>::empty());
        }
        let mut i: usize = 0;
        while i < n
            invariant
                i <= n,
                n == accounts@.len(),
                n == amounts@.len(),
                n == moves.len(),
                before.extended_by(self@, moves.take(i as int)),
                forall|j: int|
                    0 <= j < n ==> #[trigger] moves[j] == (Transfer {
                        sender: payer@,
                        recipient: accounts@[j]@,
                        amount: amounts@[j],
                    }),
            decreases n - i,
        {
            let ghost middle = self@;
            self.record(payer.clone(), accounts[i].clone(), amounts[i]);
            proof {
                before.lemma_extended_twice(middle, self@, moves.take(i as int), moves[i as int]);
                assert(moves.take(i as int).push(moves[i as int]) =~= moves.take(i + 1));
            }
            i += 1;
        }
        proof {
            assert(moves.take(n as int) =~= moves);
            before.lemma_found(sender@);
            assert forall|j: int| 0 <= j < moves.len() implies before.knows(
                #[trigger] moves[j].sender.card_number,
            ) && before.knows(moves[j].recipient.card_number) by {
                before.lemma_found_by_token(parts[j].token);
            }
            before.lemma_extended(self@, moves);
        }
        Ok(())
    }

    /// The transactions that the account with card number `card` sent or received.
    fn account_transactions(&self, card: &CardNumber) -> (r: Vec<Transaction>)
        ensures
            Seq::new(r@.len(), |i: int| r@[i]@) == transactions_of(self@.transactions, card@),
    {
        let ghost log = self@.transactions;
        let mut found: Vec<Transaction> = Vec::new();
        let mut i: usize = 0;
        proof {
            assert(log.take(0) =~= Seq::<TransactionView>::empty());
        }
        while i < self.transactions.len()
            invariant
                i <= self.transactions@.len(),
                log == self@.transactions,
                log.len() == self.transactions@.len(),
                Seq::new(found@.len(), |j: int| found@[j]@) =~= transactions_of(
                    log.take(i as int),
                    card@,
                ),
            decreases self.transactions@.len() - i,
        {
            let tx = &self.transactions[i];
            proof {
                assert(log.take(i + 1).drop_last() =~= log.take(i as int));
                assert(log.take(i + 1).last() == tx@);
            }
            if tx.sender.card_number == *card || tx.recipient.card_number == *card {
                found.push(tx.clone());
            }
            i += 1;
        }
        proof {
            assert(log.take(i as int) =~= log);
        }
        found
    }

    /// The tokens that stand for `card`.
    fn account_tokens(&self, card: &CardNumber) -> (r: Vec<String>)
        ensures
            Seq::new(r@.len(), |i: int| r@[i]@) == tokens_of(self@.tokens, card@),
    {
        let ghost all = self@.tokens;
        let mut found: Vec<String> = Vec::new();
        let mut i: usize = 0;
        proof {
            assert(all.take(0) =~= Seq::<(Seq<char>, Seq<char>)>::empty());
        }
        while i < self.tokens.len()
            invariant
                i <= self.tokens@.len(),
                all == self@.tokens,
                all.len() == self.tokens@.len(),
                Seq::new(found@.len(), |j: int| found@[j]@) =~= tokens_of(all.take(i as int), card@),
            decreases self.tokens@.len() - i,
        {
            let entry = &self.tokens[i];
            proof {
                assert(all.take(i + 1).drop_last() =~= all.take(i as int));
                assert(all.take(i + 1).last() == (entry.token@, entry.card@));
            }
            if entry.card == *card {
                found.push(entry.token.clone());
            }
            i += 1;
        }
        proof {
            assert(all.take(i as int) =~= all);
        }
        found
    }

    /// Reports on every customer's account, in the order of their opening:
    /// its balance, its transactions and its tokens. Fails with an internal
    /// error if some balance does not fit in 64 bits.
    pub fn list_accounts(&self) -> (r: Result<
        Vec<crate::domain::responses::system_api::Account>,
        BankOperationError,
    >)
        ensures
            r is Ok <==> self@.balances_fit(self@.accounts.len() as int),
            r matches Ok(reports) ==> {
                &&& reports@.len() == self@.accounts.len()
                &&& forall|i: int|
                    0 <= i < reports@.len() ==> (#[trigger] reports@[i])@ == self@.report(i)
            },
            r matches Err(e) ==> e@ is InternalError,
    {
        let mut reports: Vec<crate::domain::responses::system_api::Account> = Vec::new();
        let mut i: usize = 0;
        while i < self.accounts.len()
            invariant
                i <= self.accounts@.len(),
                self@.accounts.len() == self.accounts@.len(),
                reports@.len() == i,
                self@.balances_fit(i as int),
                forall|j: int| 0 <= j < i ==> (#[trigger] reports@[j])@ == self@.report(j),
            decreases self.accounts@.len() - i,
        {
            let account = &self.accounts[i];
            assert(account@ == self@.accounts[i as int]);
            let balance = match report_balance(self.balance_exact(&account.card_number)) {
                Ok(balance) => balance,
                Err(e) => {
                    assert(!(i64::MIN <= self@.balance(self@.accounts[i as int].card_number)
                        <= i64::MAX));
                    return Err(e);
                },
            };
            let report = crate::domain::responses::system_api::Account {
                card_number: account.card_number.clone(),
                balance,
                transactions: self.account_transactions(&account.card_number),
                exists: account.is_existing,
                tokens: self.account_tokens(&account.card_number),
                username: account.username.clone(),
            };
            reports.push(report);
            i += 1;
        }
        Ok(reports)
    }

    /// Marks a customer's account as deleted. The system accounts cannot be
    /// deleted, and an account cannot be deleted twice.
    pub fn delete_account(&mut self, card: &CardNumber) -> (r: Result<(), BankOperationError>)
        requires
            old(self)@.wf(),
        ensures
            final(self)@.wf(),
            result_view(r) == old(self)@.delete_result(card@),
            final(self)@ == old(self)@.after_delete(card@),
    {
        proof {
            old(self)@.lemma_system_cards();
        }
        let position = self.position(card);
        let result = delete_verdict(
            card,
            match position {
                Some(i) => Some(&self.accounts[i]),
                None => None,
            },
            &self.store_account.card_number,
            &self.emission_account.card_number,
        );
        if result.is_ok() {
            let i = position.unwrap();
            let mut account = self.accounts[i].clone();
            account.is_existing = false;
            self.accounts.set(i, account);
            proof {
                let before = old(self)@;
                assert(self@.accounts =~= before.accounts.update(
                    i as int,
                    AccountView { is_existing: false, ..before.accounts[i as int] },
                ));
                assert(self@.transactions =~= before.transactions);
                assert(self@.tokens =~= before.tokens);
            }
        }
        self.changed = true;
        proof {
            let before = old(self)@;
            assert(self@.accounts =~= before.after_delete(card@).accounts);
            assert(self@.transactions =~= before.transactions);
            assert(self@.tokens =~= before.tokens);
            before.lemma_after_delete(card@);
        }
        result
    }
}

/// Resolves a card number to an account, from what the storage holds: the
/// account under that number, if any, and the card number of the emission
/// account. Every storage resolves a card number by this function.
pub fn resolve_account(card: &CardNumber, found: Option<&Account>, emission_card: &CardNumber) -> (r:
    Result<Account, BankOperationError>)
    ensures
        result_view(r) == resolved_account(
            card@,
            match found {
                Some(account) => Some(account@),
                None => None,
            },
            emission_card@,
        ),
{
    if *card == *emission_card {
        return Err(BankOperationError::AccountNotFound);
    }
    match found {
        None => Err(BankOperationError::AccountNotFound),
        Some(account) => if account.is_existing {
            Ok(account.clone())
        } else {
            Err(BankOperationError::AccountIsDeleted)
        },
    }
}

/// Decides on credentials, from the account that the card number resolved
/// to, or the error of resolving it, and from whether the password matches
/// the account's. Every storage authorizes an account by this function.
pub fn authorize(account: Result<Account, BankOperationError>, password_matches: bool) -> (r: Result<
    Account,
    BankOperationError,
>)
    ensures
        result_view(r) == authorized(result_view(account), password_matches),
{
    let account = account?;
    if password_matches {
        Ok(account)
    } else {
        Err(BankOperationError::NotAuthorized)
    }
}

/// Decides on a request to delete the account with card number `card`, from
/// what the storage holds: the customer's account under that number, if
/// any, and the card numbers of the two system accounts. Every storage decides
/// on a deletion by this function.
pub fn delete_verdict(
    card: &CardNumber,
    found: Option<&Account>,
    store_card: &CardNumber,
    emission_card: &CardNumber,
) -> (r: Result<(), BankOperationError>)
    ensures
        result_view(r) == delete_verdict_spec(
            card@,
            match found {
                Some(account) => Some(account@),
                None => None,
            },
            store_card@,
            emission_card@,
        ),
{
    if *card == *store_card {
        Err(BankOperationError::BadOperation(String::from_str("Can't delete store account")))
    } else if *card == *emission_card {
        Err(BankOperationError::BadOperation(String::from_str("Can't delete emission account")))
    } else {
        match found {
            None => Err(BankOperationError::AccountNotFound),
            Some(account) => if account.is_existing {
                Ok(())
            } else {
                Err(BankOperationError::AccountIsDeleted)
            },
        }
    }
}

/// The accounts that were looked up, or the error of looking them up, as
/// contracts see them.
pub open spec fn accounts_result_view(r: Result<Vec<Account>, BankOperationError>) -> Result<
    Seq<AccountView>,
    BankErrorView,
> {
    match r {
        Ok(accounts) => Ok(account_views(accounts@)),
        Err(e) => Err(e@),
    }
}

/// A balance that was looked up, or the error of looking it up, as
/// contracts see it.
pub open spec fn balance_result_view(r: Result<i128, BankOperationError>) -> Result<
    int,
    BankErrorView,
> {
    match r {
        Ok(balance) => Ok(balance as int),
        Err(e) => Err(e@),
    }
}

/// Decides on a payment of `amount` by `sender`, split among beneficiaries,
/// from what the storage holds: the accounts that the tokens of the
/// beneficiaries resolve to, in their order, the account of the sender and its
/// balance, each of them or the error of looking it up. Returns the payer,
/// the accounts to pay and the amount for each, or the reason for refusing
/// the payment. Every storage decides on a split payment by this function.
pub fn plan_split(
    sender: &CardNumber,
    amount: i64,
    beneficiaries: &Beneficiaries,
    resolved: Result<Vec<Account>, BankOperationError>,
    payer: Result<Account, BankOperationError>,
    balance: Result<i128, BankOperationError>,
) -> (r: Result<(Account, Vec<Account>, Vec<i64>), BankOperationError>)
    ensures
        match r {
            Ok((p, accounts, amounts)) => {
                &&& split_plan(
                    sender@,
                    amount,
                    beneficiaries@,
                    accounts_result_view(resolved),
                    result_view(payer),
                    balance_result_view(balance),
                ) == Ok::<Seq<Transfer>, BankErrorView>(
                    transfers(p@, account_views(accounts@), amounts@),
                )
                &&& accounts@.len() == beneficiaries@.parts.len()
                &&& amounts@.len() == beneficiaries@.parts.len()
                &&& resolved == Ok::<Vec<Account>, BankOperationError>(accounts)
                &&& payer == Ok::<Account, BankOperationError>(p)
            },
            Err(e) => split_plan(
                sender@,
                amount,
                beneficiaries@,
                accounts_result_view(resolved),
                result_view(payer),
                balance_result_view(balance),
            ) == Err::<Seq<Transfer>, BankErrorView>(e@),
        },
{
    if !beneficiaries.validate() {
        return Err(BankOperationError::BadTransaction);
    }
    let accounts = resolved?;
    if accounts.len() != beneficiaries.count() {
        return Err(
            BankOperationError::InternalError(String::from_str("Not every beneficiary was resolved")),
        );
    }
    if pays_to(&accounts, sender) {
        return Err(BankOperationError::BadTransaction);
    }
    let payer = payer?;
    let balance = balance?;
    if balance < amount as i128 {
        return Err(BankOperationError::NotEnoughFunds);
    }
    if amount <= 0 {
        return Err(BankOperationError::BadTransaction);
    }
    match split(amount, beneficiaries) {
        Some(amounts) => {
            proof {
                lemma_split_len(amount, beneficiaries@.parts);
            }
            Ok((payer, accounts, amounts))
        },
        None => Err(
            BankOperationError::BadOperation(String::from_str("Can't convert money correctly")),
        ),
    }
}

/// Is `sender` the card number of one of `accounts`? A payment must not be
/// split among beneficiaries that include the payer.
pub fn pays_to(accounts: &Vec<Account>, sender: &CardNumber) -> (b: bool)
    ensures
        b == has_card(account_views(accounts@), sender@),
{
    let ghost views = account_views(accounts@);
    let mut i: usize = 0;
    while i < accounts.len()
        invariant
            i <= accounts@.len(),
            views == account_views(accounts@),
            forall|j: int| 0 <= j < i ==> (#[trigger] views[j]).card_number != sender@,
        decreases accounts@.len() - i,
    {
        if accounts[i].card_number == *sender {
            assert(views[i as int].card_number == sender@);
            return true;
        }
        i += 1;
    }
    false
}

/// Computes what each beneficiary gets of `amount`: its share, rounded to a
/// whole amount by itself. `None` if one of the shares cannot be computed.
pub fn split(amount: i64, beneficiaries: &Beneficiaries) -> (r: Option<Vec<i64>>)
    ensures
        match r {
            Some(amounts) => split_amounts(amount, beneficiaries@.parts) == Some(amounts@),
            None => split_amounts(amount, beneficiaries@.parts) is None,
        },
{
    let ghost parts = beneficiaries@.parts;
    let n = beneficiaries.count();
    let mut amounts: Vec<i64> = Vec::new();
    let mut i: usize = 0;
    proof {
        assert(parts.take(0) =~= Seq::<BeneficiaryView>::empty());
    }
    while i < n
        invariant
            i <= n,
            n == parts.len(),
            parts == beneficiaries@.parts,
            amounts@.len() == i,
            split_amounts(amount, parts.take(i as int)) == Some(amounts@),
        decreases n - i,
    {
        proof {
            assert(parts.take(i + 1).drop_last() =~= parts.take(i as int));
            assert(parts.take(i + 1).last() == parts[i as int]);
        }
        match beneficiaries.get(i).part().of(amount) {
            Some(part) => {
                amounts.push(part);
            },
            None => {
                proof {
                    lemma_split_prefix(amount, parts, i + 1);
                }
                return None;
            },
        }
        i += 1;
    }
    proof {
        assert(parts.take(i as int) =~= parts);
    }
    Some(amounts)
}

/// Reports a balance in 64 bits, or an internal error where it does not fit.
fn report_balance(balance: i128) -> (r: Result<i64, BankOperationError>)
    ensures
        result_view(r) == reported_balance(balance as int),
{
    if balance < -0x8000_0000_0000_0000i128 || balance > 0x7FFF_FFFF_FFFF_FFFFi128 {
        Err(BankOperationError::InternalError(String::from_str("Balance does not fit in 64 bits")))
    } else {
        Ok(balance as i64)
    }
}

/// Compares two strings character by character.
fn str_eq(a: &str, b: &str) -> (r: bool)
    ensures
        r == (a@ == b@),
{
    String::from_str(a) == String::from_str(b)
}

} // verus!
