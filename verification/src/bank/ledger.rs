//! The ledger as contracts see it: its state, the verdict of each operation
//! on a state, and what the operations keep true.

use vstd::prelude::*;

use super::{balance_of, movement, Account, AccountView, BankErrorView, TransactionView};
use crate::decimal::share_of;
use crate::domain::beneficiaries::{BeneficiariesView, BeneficiaryView};
use crate::domain::responses::system_api::AccountReportView;

verus! {


/// The state of the ledger as contracts see it.
pub struct LedgerView {
    /// The accounts that customers opened, in the order of their opening.
    pub accounts: Seq<AccountView>,
    /// The log of transactions, oldest first.
    pub transactions: Seq<TransactionView>,
    /// The card tokens issued so far, each with the card number it stands for.
    pub tokens: Seq<(Seq<char>, Seq<char>)>,
    /// The system account that all money comes from.
    pub emission_account: AccountView,
    /// The system account of the store.
    pub store_account: AccountView,
    /// Is a change notification owed to the subscribers?
    pub changed: bool,
}

impl LedgerView {
    /// The card numbers of the customers' accounts.
    pub open spec fn account_cards(self) -> Seq<Seq<char>> {
        Seq::new(self.accounts.len(), |i: int| self.accounts[i].card_number)
    }

    /// The card numbers of all accounts, the two system accounts first.
    pub open spec fn cards(self) -> Seq<Seq<char>> {
        seq![self.emission_account.card_number, self.store_account.card_number]
            + self.account_cards()
    }

    /// The tokens issued so far.
    pub open spec fn token_keys(self) -> Seq<Seq<char>> {
        Seq::new(self.tokens.len(), |i: int| self.tokens[i].0)
    }

    /// Does some account, a system account included, have this card number?
    pub open spec fn knows(self, card: Seq<char>) -> bool {
        self.cards().contains(card)
    }

    /// Are the sender and the recipient of `tx` accounts of this ledger?
    pub open spec fn knows_parties(self, tx: TransactionView) -> bool {
        self.knows(tx.sender.card_number) && self.knows(tx.recipient.card_number)
    }

    /// Is every transaction of the log `txs` between accounts of this ledger?
    pub open spec fn log_is_known(self, txs: Seq<TransactionView>) -> bool {
        forall|i: int| 0 <= i < txs.len() ==> self.knows_parties(#[trigger] txs[i])
    }

    /// A log between accounts of this ledger is a log between accounts of
    /// every ledger that has all the accounts of this one.
    pub proof fn lemma_log_stays_known(self, after: LedgerView, txs: Seq<TransactionView>)
        requires
            self.log_is_known(txs),
            forall|c: Seq<char>| #[trigger] self.knows(c) ==> after.knows(c),
        ensures
            after.log_is_known(txs),
    {
        assert forall|i: int| 0 <= i < txs.len() implies after.knows_parties(#[trigger] txs[i]) by {
            assert(self.knows_parties(txs[i]));
        }
    }

    /// The invariant of the ledger: no two accounts share a card number, the
    /// system accounts are active, every transaction is between accounts of
    /// this ledger, and no token was issued twice.
    pub open spec fn wf(self) -> bool {
        &&& self.cards().no_duplicates()
        &&& self.emission_account.is_existing
        &&& self.store_account.is_existing
        &&& self.log_is_known(self.transactions)
        &&& self.token_keys().no_duplicates()
    }

    /// The account that this ledger holds under the card number `card`: a
    /// customer's account, or the store's.
    pub open spec fn holds(self, card: Seq<char>) -> Option<AccountView> {
        if self.account_cards().contains(card) {
            Some(self.accounts[self.account_cards().index_of(card)])
        } else if self.store_account.card_number == card {
            Some(self.store_account)
        } else {
            None
        }
    }

    /// The account that `card` resolves to: a customer's account that was not
    /// deleted, or the store's account.
    pub open spec fn find_account(self, card: Seq<char>) -> Result<AccountView, BankErrorView> {
        resolved_account(card, self.holds(card), self.emission_account.card_number)
    }

    /// The balance of the account with card number `card`.
    pub open spec fn balance(self, card: Seq<char>) -> int {
        balance_of(self.transactions, card)
    }

    /// The account that `token` stands for.
    pub open spec fn account_by_token(self, token: Seq<char>) -> Result<AccountView, BankErrorView> {
        if self.token_keys().contains(token) {
            self.find_account(self.tokens[self.token_keys().index_of(token)].1)
        } else {
            Err(BankErrorView::TokenNotFound)
        }
    }

    /// Where the card numbers of the accounts stand in `cards`: the emission
    /// account first, the store second, the customers' accounts after them.
    pub proof fn lemma_cards(self)
        ensures
            self.cards().len() == self.accounts.len() + 2,
            self.cards()[0] == self.emission_account.card_number,
            self.cards()[1] == self.store_account.card_number,
            forall|k: int|
                0 <= k < self.accounts.len() ==> #[trigger] self.cards()[k + 2]
                    == self.accounts[k].card_number,
            forall|c: Seq<char>|
                self.knows(c) <==> (c == self.emission_account.card_number || c
                    == self.store_account.card_number || self.account_cards().contains(c)),
    {
        let cards = self.cards();
        let rest = self.account_cards();
        assert forall|c: Seq<char>|
            self.knows(c) <==> (c == self.emission_account.card_number || c
                == self.store_account.card_number || rest.contains(c)) by {
            if self.knows(c) {
                let k = choose|k: int| 0 <= k < cards.len() && cards[k] == c;
                if k >= 2 {
                    assert(rest[k - 2] == c);
                }
            }
            if rest.contains(c) {
                let k = choose|k: int| 0 <= k < rest.len() && rest[k] == c;
                assert(cards[k + 2] == c);
            }
            if c == self.emission_account.card_number {
                assert(cards[0] == c);
            }
            if c == self.store_account.card_number {
                assert(cards[1] == c);
            }
        }
    }

    /// In a well-formed ledger a card number stands at one position only.
    pub proof fn lemma_account_position(self, i: int)
        requires
            self.wf(),
            0 <= i < self.accounts.len(),
        ensures
            self.account_cards().contains(self.accounts[i].card_number),
            self.account_cards().index_of(self.accounts[i].card_number) == i,
            self.accounts[i].card_number != self.store_account.card_number,
            self.accounts[i].card_number != self.emission_account.card_number,
            self.store_account.card_number != self.emission_account.card_number,
    {
        self.lemma_cards();
        let cards = self.account_cards();
        let card = self.accounts[i].card_number;
        assert(cards[i] == card);
        let k = cards.index_of(card);
        assert(self.cards()[k + 2] == self.cards()[i + 2]);
        assert(self.cards()[i + 2] == card);
    }

    /// In a well-formed ledger the two system accounts have different card
    /// numbers, and no customer has either.
    pub proof fn lemma_system_cards(self)
        requires
            self.wf(),
        ensures
            self.store_account.card_number != self.emission_account.card_number,
            !self.account_cards().contains(self.store_account.card_number),
            !self.account_cards().contains(self.emission_account.card_number),
    {
        self.lemma_cards();
        let cards = self.account_cards();
        if cards.contains(self.store_account.card_number) {
            let k = cards.index_of(self.store_account.card_number);
            self.lemma_account_position(k);
        }
        if cards.contains(self.emission_account.card_number) {
            let k = cards.index_of(self.emission_account.card_number);
            self.lemma_account_position(k);
        }
    }

    /// The balance of an account as the ledger reports it: an error unless
    /// `card` resolves, and an internal error where the balance does not fit
    /// in 64 bits.
    pub open spec fn balance_result(self, card: Seq<char>) -> Result<i64, BankErrorView> {
        match self.find_account(card) {
            Err(e) => Err(e),
            Ok(_) => reported_balance(self.balance(card)),
        }
    }

    /// Does `password` open the account that `card` resolves to?
    pub open spec fn authorize_account(
        self,
        card: Seq<char>,
        password: Seq<char>,
    ) -> Result<AccountView, BankErrorView> {
        authorized(
            self.find_account(card),
            self.find_account(card) matches Ok(account) && account.password == password,
        )
    }

    /// Are these the credentials of the bank's operator?
    pub open spec fn authorize_system(self, username: Seq<char>, password: Seq<char>) -> bool {
        self.emission_account.username == username && self.emission_account.password == password
    }

    /// The customer's account with card number `card`, if there is one.
    pub open spec fn customer(self, card: Seq<char>) -> Option<AccountView> {
        if self.account_cards().contains(card) {
            Some(self.accounts[self.account_cards().index_of(card)])
        } else {
            None
        }
    }

    /// The verdict on a request to delete the account with card number
    /// `card`: `delete_verdict` on what this ledger holds.
    pub open spec fn delete_result(self, card: Seq<char>) -> Result<(), BankErrorView> {
        delete_verdict(
            card,
            self.customer(card),
            self.store_account.card_number,
            self.emission_account.card_number,
        )
    }

    /// This ledger after a request to delete the account with card number
    /// `card`: the account, if the request is granted, is marked as deleted.
    /// Subscribers are notified whatever the verdict.
    pub open spec fn after_delete(self, card: Seq<char>) -> LedgerView {
        if self.delete_result(card) is Ok {
            let i = self.account_cards().index_of(card);
            LedgerView {
                accounts: self.accounts.update(
                    i,
                    AccountView { is_existing: false, ..self.accounts[i] },
                ),
                changed: true,
                ..self
            }
        } else {
            self.touched()
        }
    }

    /// This ledger with one more customer's account.
    pub open spec fn with_account(self, account: AccountView) -> LedgerView {
        LedgerView { accounts: self.accounts.push(account), changed: true, ..self }
    }

    /// Opening an account under a card number that no account has keeps the
    /// ledger well formed.
    pub proof fn lemma_with_account(self, account: AccountView)
        requires
            self.wf(),
            !self.knows(account.card_number),
        ensures
            self.with_account(account).wf(),
            forall|c: Seq<char>|
                self.with_account(account).knows(c) <==> (self.knows(c) || c
                    == account.card_number),
    {
        let after = self.with_account(account);
        self.lemma_cards();
        after.lemma_cards();
        assert(after.cards() =~= self.cards().push(account.card_number));
        assert(after.token_keys() =~= self.token_keys());
        assert forall|c: Seq<char>|
            after.knows(c) <==> (self.knows(c) || c == account.card_number) by {
            if self.knows(c) {
                let k = choose|k: int| 0 <= k < self.cards().len() && self.cards()[k] == c;
                assert(after.cards()[k] == c);
            }
            if c == account.card_number {
                assert(after.cards()[self.cards().len() as int] == c);
            }
        }
        self.lemma_log_stays_known(after, self.transactions);
    }

    /// A request to delete an account keeps the ledger well formed and the
    /// card numbers where they were.
    pub proof fn lemma_after_delete(self, card: Seq<char>)
        requires
            self.wf(),
        ensures
            self.after_delete(card).wf(),
            self.after_delete(card).cards() == self.cards(),
            self.after_delete(card).transactions == self.transactions,
    {
        let after = self.after_delete(card);
        assert(after.account_cards() =~= self.account_cards());
        assert(after.cards() =~= self.cards());
        assert(after.token_keys() =~= self.token_keys());
        self.lemma_log_stays_known(after, self.transactions);
    }

    /// The verdict on a transfer of `amount` between two card numbers: the
    /// movement to record, or the reason for refusing it. Both cards must
    /// resolve, to two different accounts; the sender's balance must cover
    /// the amount; the amount must be positive.
    pub open spec fn transfer_check(
        self,
        sender: Seq<char>,
        recipient: Seq<char>,
        amount: i64,
    ) -> Result<Transfer, BankErrorView> {
        match self.find_account(sender) {
            Err(e) => Err(e),
            Ok(s) => match self.find_account(recipient) {
                Err(e) => Err(e),
                Ok(r) => if s.card_number == r.card_number {
                    Err(BankErrorView::BadTransaction)
                } else if self.balance(sender) < amount {
                    Err(BankErrorView::NotEnoughFunds)
                } else if amount <= 0 {
                    Err(BankErrorView::BadTransaction)
                } else {
                    Ok(Transfer { sender: s, recipient: r, amount })
                },
            },
        }
    }

    /// The verdict on a credit of `amount` to the account that `card`
    /// resolves to: the emission account pays, whatever its balance.
    pub open spec fn credit_check(self, card: Seq<char>, amount: i64) -> Result<
        Transfer,
        BankErrorView,
    > {
        match self.find_account(card) {
            Err(e) => Err(e),
            Ok(account) => Ok(
                Transfer { sender: self.emission_account, recipient: account, amount },
            ),
        }
    }

    /// Is `after` this ledger with one transaction appended to the log for
    /// each of `moves`, in their order, and a change notification owed? The
    /// time of each new transaction is whatever the clock said.
    pub open spec fn extended_by(self, after: LedgerView, moves: Seq<Transfer>) -> bool {
        &&& after.accounts == self.accounts
        &&& after.tokens == self.tokens
        &&& after.emission_account == self.emission_account
        &&& after.store_account == self.store_account
        &&& after.changed
        &&& after.transactions.len() == self.transactions.len() + moves.len()
        &&& after.transactions.take(self.transactions.len() as int) == self.transactions
        &&& forall|i: int|
            0 <= i < moves.len() ==> records(
                #[trigger] after.transactions[self.transactions.len() + i],
                moves[i],
            )
    }

    /// This ledger after `token` has been registered for `card`: a token that
    /// was issued before now stands for `card`.
    pub open spec fn with_token(self, token: Seq<char>, card: Seq<char>) -> LedgerView {
        if self.token_keys().contains(token) {
            LedgerView {
                tokens: self.tokens.update(self.token_keys().index_of(token), (token, card)),
                changed: true,
                ..self
            }
        } else {
            LedgerView { tokens: self.tokens.push((token, card)), changed: true, ..self }
        }
    }

    /// The accounts that the tokens of `parts` stand for, in their order, or
    /// the error of the first token that does not resolve.
    pub open spec fn resolve_beneficiaries(self, parts: Seq<BeneficiaryView>) -> Result<
        Seq<AccountView>,
        BankErrorView,
    >
        decreases parts.len(),
    {
        if parts.len() == 0 {
            Ok(Seq::empty())
        } else {
            match self.resolve_beneficiaries(parts.drop_last()) {
                Err(e) => Err(e),
                Ok(accounts) => match self.account_by_token(parts.last().token) {
                    Err(e) => Err(e),
                    Ok(account) => Ok(accounts.push(account)),
                },
            }
        }
    }

    /// The verdict on a payment of `amount` by `sender`, split among
    /// beneficiaries: `split_plan` on what this ledger holds of the
    /// beneficiaries and of the sender.
    pub open spec fn split_check(
        self,
        sender: Seq<char>,
        amount: i64,
        beneficiaries: BeneficiariesView,
    ) -> Result<Seq<Transfer>, BankErrorView> {
        split_plan(
            sender,
            amount,
            beneficiaries,
            self.resolve_beneficiaries(beneficiaries.parts),
            self.find_account(sender),
            Ok(self.balance(sender)),
        )
    }

    /// Where every token resolves, there is one account for each beneficiary,
    /// the one that its token stands for.
    pub proof fn lemma_resolved(self, parts: Seq<BeneficiaryView>)
        requires
            self.resolve_beneficiaries(parts) is Ok,
        ensures
            self.resolve_beneficiaries(parts)->Ok_0.len() == parts.len(),
            forall|i: int|
                0 <= i < parts.len() ==> self.account_by_token(#[trigger] parts[i].token) == Ok::<
                    AccountView,
                    BankErrorView,
                >(self.resolve_beneficiaries(parts)->Ok_0[i]),
        decreases parts.len(),
    {
        if parts.len() > 0 {
            self.lemma_resolved(parts.drop_last());
            let accounts = self.resolve_beneficiaries(parts)->Ok_0;
            assert forall|i: int| 0 <= i < parts.len() implies self.account_by_token(
                #[trigger] parts[i].token,
            ) == Ok::<AccountView, BankErrorView>(accounts[i]) by {
                if i < parts.len() - 1 {
                    assert(parts.drop_last()[i] == parts[i]);
                }
            }
        }
    }

    /// The first token that does not resolve decides the verdict on the whole list.
    pub proof fn lemma_unresolved_prefix(self, parts: Seq<BeneficiaryView>, k: int)
        requires
            0 <= k <= parts.len(),
            self.resolve_beneficiaries(parts.take(k)) is Err,
        ensures
            self.resolve_beneficiaries(parts) == self.resolve_beneficiaries(parts.take(k)),
        decreases parts.len() - k,
    {
        if k == parts.len() {
            assert(parts.take(k) =~= parts);
        } else {
            assert(parts.drop_last().take(k) =~= parts.take(k));
            self.lemma_unresolved_prefix(parts.drop_last(), k);
        }
    }

    /// Two extensions of the log, one after the other, are one extension.
    pub proof fn lemma_extended_twice(
        self,
        middle: LedgerView,
        after: LedgerView,
        first: Seq<Transfer>,
        then: Transfer,
    )
        requires
            self.extended_by(middle, first),
            middle.extended_by(after, seq![then]),
        ensures
            self.extended_by(after, first.push(then)),
    {
        let n = self.transactions.len() as int;
        let m = middle.transactions.len() as int;
        assert(after.transactions.take(n) =~= self.transactions) by {
            assert(after.transactions.take(m).take(n) =~= after.transactions.take(n));
        }
        assert forall|i: int| 0 <= i < first.push(then).len() implies records(
            #[trigger] after.transactions[n + i],
            first.push(then)[i],
        ) by {
            if i < first.len() {
                assert(after.transactions.take(m)[n + i] == after.transactions[n + i]);
                assert(records(middle.transactions[n + i], first[i]));
            } else {
                assert(records(after.transactions[m + 0], seq![then][0]));
            }
        }
    }

    /// What the ledger reports of the customer's account at position `i`.
    pub open spec fn report(self, i: int) -> AccountReportView {
        let account = self.accounts[i];
        AccountReportView {
            card_number: account.card_number,
            balance: self.balance(account.card_number) as i64,
            transactions: transactions_of(self.transactions, account.card_number),
            exists: account.is_existing,
            tokens: tokens_of(self.tokens, account.card_number),
            username: account.username,
        }
    }

    /// Does the balance of every one of the first `n` customers' accounts fit
    /// in 64 bits?
    pub open spec fn balances_fit(self, n: int) -> bool {
        forall|i: int|
            0 <= i < n ==> i64::MIN <= self.balance(#[trigger] self.accounts[i].card_number)
                <= i64::MAX
    }

    /// An account that a token stands for is an account of the ledger.
    pub proof fn lemma_found_by_token(self, token: Seq<char>)
        requires
            self.account_by_token(token) is Ok,
        ensures
            self.knows(self.account_by_token(token)->Ok_0.card_number),
    {
        let card = self.tokens[self.token_keys().index_of(token)].1;
        self.lemma_found(card);
    }

    /// Registering a token keeps the ledger well formed, and the token then
    /// stands for the card it was registered for.
    pub proof fn lemma_with_token(self, token: Seq<char>, card: Seq<char>)
        requires
            self.wf(),
        ensures
            self.with_token(token, card).wf(),
            self.with_token(token, card).cards() == self.cards(),
            self.with_token(token, card).account_by_token(token) == self.find_account(card),
    {
        let after = self.with_token(token, card);
        let keys = self.token_keys();
        assert(after.account_cards() =~= self.account_cards());
        assert(after.cards() =~= self.cards());
        self.lemma_log_stays_known(after, self.transactions);
        if keys.contains(token) {
            let k = keys.index_of(token);
            assert(after.token_keys() =~= keys);
            assert(after.tokens[k].1 == card);
        } else {
            assert(after.token_keys() =~= keys.push(token));
            let k = keys.len() as int;
            assert(after.token_keys()[k] == token);
            assert(after.token_keys().contains(token));
            let j = after.token_keys().index_of(token);
            if j != k {
                assert(keys[j] == token);
            }
            assert(after.tokens[k].1 == card);
        }
    }

    /// An account that a card number resolves to is an account of the ledger,
    /// under that card number.
    pub proof fn lemma_found(self, card: Seq<char>)
        requires
            self.find_account(card) is Ok,
        ensures
            self.knows(card),
            self.find_account(card)->Ok_0.card_number == card,
            self.find_account(card)->Ok_0.is_existing,
    {
        self.lemma_cards();
    }

    /// Appending transactions between accounts of the ledger keeps it well
    /// formed, and adds to each balance what the new transactions move.
    pub proof fn lemma_extended(self, after: LedgerView, moves: Seq<Transfer>)
        requires
            self.wf(),
            self.extended_by(after, moves),
            forall|i: int|
                0 <= i < moves.len() ==> self.knows(#[trigger] moves[i].sender.card_number)
                    && self.knows(moves[i].recipient.card_number),
        ensures
            after.wf(),
            after.cards() == self.cards(),
            forall|card: Seq<char>| #[trigger]
                after.balance(card) == self.balance(card) + transfers_total(moves, card),
    {
        let n = self.transactions.len() as int;
        assert(after.account_cards() =~= self.account_cards());
        assert(after.cards() =~= self.cards());
        assert(after.token_keys() =~= self.token_keys());
        assert forall|i: int| 0 <= i < after.transactions.len() implies after.knows_parties(
            #[trigger] after.transactions[i],
        ) by {
            if i < n {
                assert(after.transactions.take(n)[i] == after.transactions[i]);
                assert(self.knows_parties(self.transactions[i]));
            } else {
                assert(records(after.transactions[n + (i - n)], moves[i - n]));
                assert(self.knows(moves[i - n].sender.card_number));
            }
        }
        assert forall|card: Seq<char>| #[trigger]
            after.balance(card) == self.balance(card) + transfers_total(moves, card) by {
            lemma_balance_extended(self.transactions, after.transactions, moves, card);
        }
    }

    /// This ledger with a change notification owed.
    pub open spec fn touched(self) -> LedgerView {
        LedgerView { changed: true, ..self }
    }
}

/// A movement of money that an operation decides on: who pays, who is paid
/// and how much.
pub struct Transfer {
    pub sender: AccountView,
    pub recipient: AccountView,
    pub amount: i64,
}

/// Does the transaction `tx` record the movement `t`?
pub open spec fn records(tx: TransactionView, t: Transfer) -> bool {
    tx.sender == t.sender && tx.recipient == t.recipient && tx.amount == t.amount
}

/// What one movement adds to the balance of the account with card number `card`.
pub open spec fn transfer_movement(t: Transfer, card: Seq<char>) -> int {
    (if t.recipient.card_number == card {
        t.amount as int
    } else {
        0
    }) - (if t.sender.card_number == card {
        t.amount as int
    } else {
        0
    })
}

/// What a sequence of movements adds to the balance of the account with card
/// number `card`.
pub open spec fn transfers_total(moves: Seq<Transfer>, card: Seq<char>) -> int
    decreases moves.len(),
{
    if moves.len() == 0 {
        0
    } else {
        transfers_total(moves.drop_last(), card) + transfer_movement(moves.last(), card)
    }
}

/// A log that grew by the transactions that record `moves` gives each account
/// its old balance plus what the movements add.
pub proof fn lemma_balance_extended(
    before: Seq<TransactionView>,
    after: Seq<TransactionView>,
    moves: Seq<Transfer>,
    card: Seq<char>,
)
    requires
        after.len() == before.len() + moves.len(),
        after.take(before.len() as int) == before,
        forall|i: int| 0 <= i < moves.len() ==> records(#[trigger] after[before.len() + i], moves[i]),
    ensures
        balance_of(after, card) == balance_of(before, card) + transfers_total(moves, card),
    decreases moves.len(),
{
    if moves.len() == 0 {
        assert(after.take(before.len() as int) =~= after);
    } else {
        let shorter = after.drop_last();
        let fewer = moves.drop_last();
        assert(shorter.take(before.len() as int) =~= after.take(before.len() as int));
        assert forall|i: int| 0 <= i < fewer.len() implies records(
            #[trigger] shorter[before.len() + i],
            fewer[i],
        ) by {
            assert(records(after[before.len() + i], moves[i]));
        }
        lemma_balance_extended(before, shorter, fewer, card);
        assert(records(after[before.len() + (moves.len() - 1)], moves[moves.len() - 1]));
        assert(movement(after.last(), card) == transfer_movement(moves.last(), card));
    }
}

/// Is `card` the card number of one of `accounts`?
pub open spec fn has_card(accounts: Seq<AccountView>, card: Seq<char>) -> bool {
    exists|i: int| 0 <= i < accounts.len() && (#[trigger] accounts[i]).card_number == card
}

/// The whole amounts that the beneficiaries get of `amount`, each share
/// rounded by itself, or `None` if one of them cannot be computed.
pub open spec fn split_amounts(amount: i64, parts: Seq<BeneficiaryView>) -> Option<Seq<i64>>
    decreases parts.len(),
{
    if parts.len() == 0 {
        Some(Seq::empty())
    } else {
        match split_amounts(amount, parts.drop_last()) {
            None => None,
            Some(amounts) => match share_of(
                amount,
                parts.last().part.mantissa,
                parts.last().part.scale,
            ) {
                None => None,
                Some(part) => Some(amounts.push(part)),
            },
        }
    }
}

/// The account that a card number resolves to, given the account that the
/// storage holds under that number, if any, and the card number of the
/// emission account. The emission account does not resolve: only credit
/// draws on it. An account that was deleted does not resolve either.
pub open spec fn resolved_account(
    card: Seq<char>,
    found: Option<AccountView>,
    emission_card: Seq<char>,
) -> Result<AccountView, BankErrorView> {
    if card == emission_card {
        Err(BankErrorView::AccountNotFound)
    } else {
        match found {
            None => Err(BankErrorView::AccountNotFound),
            Some(account) => if account.is_existing {
                Ok(account)
            } else {
                Err(BankErrorView::AccountIsDeleted)
            },
        }
    }
}

/// The verdict on credentials, given the account that the card number
/// resolved to, or the error of resolving it, and whether the password
/// matches the account's: a card number that does not resolve fails as it
/// failed, and a password that does not match is not authorized.
pub open spec fn authorized(account: Result<AccountView, BankErrorView>, password_matches: bool) -> Result<
    AccountView,
    BankErrorView,
> {
    match account {
        Err(e) => Err(e),
        Ok(account) => if password_matches {
            Ok(account)
        } else {
            Err(BankErrorView::NotAuthorized)
        },
    }
}

/// The verdict on a request to delete the account with card number `card`,
/// given the customer's account that the storage holds under that number, if
/// any, and the card numbers of the two system accounts. The system accounts
/// are protected, an unknown account cannot be deleted, and no account can be
/// deleted twice.
pub open spec fn delete_verdict(
    card: Seq<char>,
    found: Option<AccountView>,
    store_card: Seq<char>,
    emission_card: Seq<char>,
) -> Result<(), BankErrorView> {
    if card == store_card {
        Err(BankErrorView::BadOperation("Can't delete store account"@))
    } else if card == emission_card {
        Err(BankErrorView::BadOperation("Can't delete emission account"@))
    } else {
        match found {
            None => Err(BankErrorView::AccountNotFound),
            Some(account) => if account.is_existing {
                Ok(())
            } else {
                Err(BankErrorView::AccountIsDeleted)
            },
        }
    }
}

/// The movements that pay each of `accounts` its amount from `payer`.
pub open spec fn transfers(payer: AccountView, accounts: Seq<AccountView>, amounts: Seq<i64>) -> Seq<
    Transfer,
> {
    Seq::new(
        accounts.len(),
        |i: int| Transfer { sender: payer, recipient: accounts[i], amount: amounts[i] },
    )
}

/// The verdict on a payment of `amount` by `sender`, split among
/// beneficiaries, given what the storage holds: the accounts that the tokens
/// resolve to, the account of the sender and its balance, each of them or the
/// error of looking it up. The verdict is the movements to record, one for each
/// beneficiary in its order, or the reason for refusing the payment, the
/// first of these that applies: the list did not pass validation; a token
/// did not resolve; the sender is among the beneficiaries; the sender did
/// not resolve; the balance does not cover `amount`; `amount` is not
/// positive; a share of it is no whole amount of 64 bits. The shares are
/// rounded one by one and need not add up to `amount`.
pub open spec fn split_plan(
    sender: Seq<char>,
    amount: i64,
    beneficiaries: BeneficiariesView,
    resolved: Result<Seq<AccountView>, BankErrorView>,
    payer: Result<AccountView, BankErrorView>,
    balance: Result<int, BankErrorView>,
) -> Result<Seq<Transfer>, BankErrorView> {
    if !beneficiaries.valid {
        Err(BankErrorView::BadTransaction)
    } else {
        match resolved {
            Err(e) => Err(e),
            Ok(accounts) => if accounts.len() != beneficiaries.parts.len() {
                Err(BankErrorView::InternalError("Not every beneficiary was resolved"@))
            } else if has_card(accounts, sender) {
                Err(BankErrorView::BadTransaction)
            } else {
                match (payer, balance) {
                    (Err(e), _) => Err(e),
                    (Ok(_), Err(e)) => Err(e),
                    (Ok(payer), Ok(balance)) => if balance < amount {
                        Err(BankErrorView::NotEnoughFunds)
                    } else if amount <= 0 {
                        Err(BankErrorView::BadTransaction)
                    } else {
                        match split_amounts(amount, beneficiaries.parts) {
                            None => Err(
                                BankErrorView::BadOperation("Can't convert money correctly"@),
                            ),
                            Some(amounts) => Ok(transfers(payer, accounts, amounts)),
                        }
                    },
                }
            },
        }
    }
}

/// The accounts of a vector as contracts see them.
pub open spec fn account_views(accounts: Seq<Account>) -> Seq<AccountView> {
    Seq::new(accounts.len(), |i: int| accounts[i]@)
}

/// Where every share can be computed, there is one amount for each beneficiary.
pub proof fn lemma_split_len(amount: i64, parts: Seq<BeneficiaryView>)
    requires
        split_amounts(amount, parts) is Some,
    ensures
        split_amounts(amount, parts)->Some_0.len() == parts.len(),
    decreases parts.len(),
{
    if parts.len() > 0 {
        lemma_split_len(amount, parts.drop_last());
    }
}

/// The first share that cannot be computed decides for the whole list.
pub proof fn lemma_split_prefix(amount: i64, parts: Seq<BeneficiaryView>, k: int)
    requires
        0 <= k <= parts.len(),
        split_amounts(amount, parts.take(k)) is None,
    ensures
        split_amounts(amount, parts) is None,
    decreases parts.len() - k,
{
    if k == parts.len() {
        assert(parts.take(k) =~= parts);
    } else {
        assert(parts.drop_last().take(k) =~= parts.take(k));
        lemma_split_prefix(amount, parts.drop_last(), k);
    }
}

/// The transactions of the log `txs` that the account with card number `card`
/// sent or received, in the order of the log.
pub open spec fn transactions_of(txs: Seq<TransactionView>, card: Seq<char>) -> Seq<TransactionView>
    decreases txs.len(),
{
    if txs.len() == 0 {
        Seq::empty()
    } else {
        let rest = transactions_of(txs.drop_last(), card);
        if txs.last().sender.card_number == card || txs.last().recipient.card_number == card {
            rest.push(txs.last())
        } else {
            rest
        }
    }
}

/// The tokens among `tokens` that stand for `card`, in the order of their issue.
pub open spec fn tokens_of(tokens: Seq<(Seq<char>, Seq<char>)>, card: Seq<char>) -> Seq<Seq<char>>
    decreases tokens.len(),
{
    if tokens.len() == 0 {
        Seq::empty()
    } else {
        let rest = tokens_of(tokens.drop_last(), card);
        if tokens.last().1 == card {
            rest.push(tokens.last().0)
        } else {
            rest
        }
    }
}

/// A balance as the ledger reports it: an internal error where it does not
/// fit in 64 bits.
pub open spec fn reported_balance(balance: int) -> Result<i64, BankErrorView> {
    if i64::MIN <= balance <= i64::MAX {
        Ok(balance as i64)
    } else {
        Err(BankErrorView::InternalError("Balance does not fit in 64 bits"@))
    }
}

} // verus!
