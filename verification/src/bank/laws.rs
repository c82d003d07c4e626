//! What holds of every ledger, whatever was done to it.

use vstd::prelude::*;

use super::ledger::LedgerView;
use super::{balance_of, movement, BankErrorView, TransactionView};

verus! {

/// The sum of the balances that the log `txs` gives the accounts with the card
/// numbers `cards`.
pub open spec fn total_balance(txs: Seq<TransactionView>, cards: Seq<Seq<char>>) -> int
    decreases cards.len(),
{
    if cards.len() == 0 {
        0
    } else {
        total_balance(txs, cards.drop_last()) + balance_of(txs, cards.last())
    }
}

/// What one transaction adds to the balances of the accounts with the card
/// numbers `cards`, taken together.
pub open spec fn total_movement(tx: TransactionView, cards: Seq<Seq<char>>) -> int
    decreases cards.len(),
{
    if cards.len() == 0 {
        0
    } else {
        total_movement(tx, cards.drop_last()) + movement(tx, cards.last())
    }
}

/// How often `card` occurs in `cards`.
pub open spec fn occurrences(cards: Seq<Seq<char>>, card: Seq<char>) -> int
    decreases cards.len(),
{
    if cards.len() == 0 {
        0
    } else {
        occurrences(cards.drop_last(), card) + if cards.last() == card {
            1int
        } else {
            0int
        }
    }
}

proof fn lemma_occurs_once(cards: Seq<Seq<char>>, card: Seq<char>)
    requires
        cards.no_duplicates(),
    ensures
        occurrences(cards, card) == if cards.contains(card) {
            1int
        } else {
            0int
        },
    decreases cards.len(),
{
    if cards.len() > 0 {
        let rest = cards.drop_last();
        lemma_occurs_once(rest, card);
        if rest.contains(card) {
            let k = choose|k: int| 0 <= k < rest.len() && rest[k] == card;
            assert(cards[k] == card);
            assert(cards.contains(card));
            assert(cards.last() != card);
        } else if cards.last() == card {
            assert(cards[cards.len() - 1] == card);
        } else if cards.contains(card) {
            let k = choose|k: int| 0 <= k < cards.len() && cards[k] == card;
            assert(rest[k] == card);
        }
    }
}

proof fn lemma_total_movement(tx: TransactionView, cards: Seq<Seq<char>>)
    ensures
        total_movement(tx, cards) == tx.amount * occurrences(cards, tx.recipient.card_number)
            - tx.amount * occurrences(cards, tx.sender.card_number),
    decreases cards.len(),
{
    if cards.len() > 0 {
        lemma_total_movement(tx, cards.drop_last());
        let a = occurrences(cards.drop_last(), tx.recipient.card_number);
        let b = occurrences(cards.drop_last(), tx.sender.card_number);
        assert(tx.amount * (a + 1) == tx.amount * a + tx.amount) by (nonlinear_arith);
        assert(tx.amount * (b + 1) == tx.amount * b + tx.amount) by (nonlinear_arith);
    }
}

proof fn lemma_total_balance_step(txs: Seq<TransactionView>, cards: Seq<Seq<char>>)
    requires
        txs.len() > 0,
    ensures
        total_balance(txs, cards) == total_balance(txs.drop_last(), cards) + total_movement(
            txs.last(),
            cards,
        ),
    decreases cards.len(),
{
    if cards.len() > 0 {
        lemma_total_balance_step(txs, cards.drop_last());
    }
}

proof fn lemma_total_balance_of_empty_log(txs: Seq<TransactionView>, cards: Seq<Seq<char>>)
    requires
        txs.len() == 0,
    ensures
        total_balance(txs, cards) == 0,
    decreases cards.len(),
{
    if cards.len() > 0 {
        lemma_total_balance_of_empty_log(txs, cards.drop_last());
    }
}

/// Conservation: whatever the sequence of transactions, the balances of all
/// accounts add up to zero, as long as `cards` names each account once and
/// every transaction is between accounts that `cards` names.
pub proof fn lemma_conservation(txs: Seq<TransactionView>, cards: Seq<Seq<char>>)
    requires
        cards.no_duplicates(),
        forall|i: int| 0 <= i < txs.len() ==> cards.contains(#[trigger] txs[i].sender.card_number),
        forall|i: int|
            0 <= i < txs.len() ==> cards.contains(#[trigger] txs[i].recipient.card_number),
    ensures
        total_balance(txs, cards) == 0,
    decreases txs.len(),
{
    if txs.len() == 0 {
        lemma_total_balance_of_empty_log(txs, cards);
    } else {
        let earlier = txs.drop_last();
        assert forall|i: int| 0 <= i < earlier.len() implies cards.contains(
            #[trigger] earlier[i].sender.card_number,
        ) by {
            assert(earlier[i] == txs[i]);
        }
        assert forall|i: int| 0 <= i < earlier.len() implies cards.contains(
            #[trigger] earlier[i].recipient.card_number,
        ) by {
            assert(earlier[i] == txs[i]);
        }
        lemma_conservation(earlier, cards);
        lemma_total_balance_step(txs, cards);
        let tx = txs.last();
        assert(tx == txs[txs.len() - 1]);
        lemma_total_movement(tx, cards);
        lemma_occurs_once(cards, tx.sender.card_number);
        lemma_occurs_once(cards, tx.recipient.card_number);
    }
}

/// Conservation in the ledger: at every point in time the balances of all
/// accounts, the emission account and the store included, add up to zero.
pub proof fn lemma_ledger_conserves_money(ledger: LedgerView)
    requires
        ledger.wf(),
    ensures
        total_balance(ledger.transactions, ledger.cards()) == 0,
{
    let txs = ledger.transactions;
    assert forall|i: int| 0 <= i < txs.len() implies ledger.cards().contains(
        #[trigger] txs[i].sender.card_number,
    ) by {
        assert(ledger.knows_parties(txs[i]));
    }
    assert forall|i: int| 0 <= i < txs.len() implies ledger.cards().contains(
        #[trigger] txs[i].recipient.card_number,
    ) by {
        assert(ledger.knows_parties(txs[i]));
    }
    lemma_conservation(txs, ledger.cards());
}

/// An account is deleted once: after a request to delete it was granted, the
/// same request is refused with `AccountIsDeleted` and changes nothing more.
pub proof fn lemma_deleted_once(ledger: LedgerView, card: Seq<char>)
    requires
        ledger.wf(),
        ledger.delete_result(card) is Ok,
    ensures
        ledger.after_delete(card).delete_result(card) == Err::<(), BankErrorView>(
            BankErrorView::AccountIsDeleted,
        ),
        ledger.after_delete(card).after_delete(card) == ledger.after_delete(card),
{
    let after = ledger.after_delete(card);
    assert(after.account_cards() =~= ledger.account_cards());
}

/// A deleted account stays deleted: a request to delete an account that is
/// marked as deleted is refused with `AccountIsDeleted`.
pub proof fn lemma_deleted_is_refused(ledger: LedgerView, i: int)
    requires
        ledger.wf(),
        0 <= i < ledger.accounts.len(),
        !ledger.accounts[i].is_existing,
    ensures
        ledger.delete_result(ledger.accounts[i].card_number) == Err::<(), BankErrorView>(
            BankErrorView::AccountIsDeleted,
        ),
{
    ledger.lemma_account_position(i);
}

/// A deleted account is rejected by every operation that resolves it: it
/// cannot be found or authorized, its balance is not reported, and it can
/// neither pay nor be paid nor be credited.
pub proof fn lemma_deleted_account_is_rejected(
    ledger: LedgerView,
    i: int,
    other: Seq<char>,
    password: Seq<char>,
    amount: i64,
)
    requires
        ledger.wf(),
        0 <= i < ledger.accounts.len(),
        !ledger.accounts[i].is_existing,
    ensures
        ({
            let card = ledger.accounts[i].card_number;
            let deleted = BankErrorView::AccountIsDeleted;
            &&& ledger.find_account(card) == Err::<super::AccountView, BankErrorView>(deleted)
            &&& ledger.authorize_account(card, password) == Err::<
                super::AccountView,
                BankErrorView,
            >(deleted)
            &&& ledger.balance_result(card) == Err::<i64, BankErrorView>(deleted)
            &&& ledger.credit_check(card, amount) is Err
            &&& ledger.transfer_check(card, other, amount) is Err
            &&& ledger.transfer_check(other, card, amount) is Err
        }),
{
    ledger.lemma_account_position(i);
}

/// Deleting an account leaves the log and the tokens as they were: a token
/// outlives the account that it stands for.
pub proof fn lemma_delete_keeps_log_and_tokens(ledger: LedgerView, card: Seq<char>)
    ensures
        ledger.after_delete(card).transactions == ledger.transactions,
        ledger.after_delete(card).tokens == ledger.tokens,
        forall|c: Seq<char>| #[trigger] ledger.after_delete(card).balance(c) == ledger.balance(c),
{
}

/// The system accounts are protected: a request to delete the store's account
/// or the emission account is refused as a bad operation, never as an
/// unknown account, and no account is changed by it.
pub proof fn lemma_system_accounts_are_protected(ledger: LedgerView, card: Seq<char>)
    requires
        ledger.wf(),
        card == ledger.store_account.card_number || card == ledger.emission_account.card_number,
    ensures
        ledger.delete_result(card) matches Err(BankErrorView::BadOperation(_)),
        ledger.after_delete(card).accounts == ledger.accounts,
        ledger.after_delete(card).store_account == ledger.store_account,
        ledger.after_delete(card).emission_account == ledger.emission_account,
{
    ledger.lemma_system_cards();
}

/// No transfer overdraws: where a transfer is granted, the sender's balance
/// covers the amount, so that it does not fall below zero.
pub proof fn lemma_transfer_leaves_sender_solvent(
    ledger: LedgerView,
    sender: Seq<char>,
    recipient: Seq<char>,
    amount: i64,
)
    requires
        ledger.transfer_check(sender, recipient, amount) is Ok,
    ensures
        amount > 0,
        ledger.balance(sender) - amount >= 0,
        sender != recipient,
{
    ledger.lemma_found(sender);
    ledger.lemma_found(recipient);
}

/// A token resolves to the account of the card it was issued for.
pub proof fn lemma_token_resolves(ledger: LedgerView, token: Seq<char>, card: Seq<char>)
    requires
        ledger.wf(),
        ledger.find_account(card) is Ok,
    ensures
        ledger.with_token(token, card).account_by_token(token) == ledger.find_account(card),
        ledger.with_token(token, card).account_by_token(token)->Ok_0.card_number == card,
{
    ledger.lemma_with_token(token, card);
    ledger.lemma_found(card);
}

} // verus!
