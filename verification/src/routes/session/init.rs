//! Opening sessions, and the payment that the store makes itself.

use vstd::prelude::*;

use crate::bank::ledger::{LedgerView, Transfer};
use crate::bank::memory::MemoryStorage;
use crate::bank::{BankErrorView, BankOperationError};

verus! {

/// The page on which a payer submits the credentials of the paying account.
pub const PAYMENT_PAGE_ENDPOINT: &'static str = "payment_page";

/// The page on which a customer submits the card to register.
pub const REGISTER_CARD_TOKEN_PAGE_ENDPOINT: &'static str = "register_card_token_page";

/// The verdict on a payment of `amount` by the store to the account that
/// `recipient_token` stands for.
pub open spec fn make_payment_spec(ledger: LedgerView, recipient_token: Seq<char>, amount: i64) -> Result<
    Transfer,
    BankErrorView,
> {
    match ledger.account_by_token(recipient_token) {
        Err(e) => Err(e),
        Ok(recipient) => ledger.transfer_check(
            ledger.store_account.card_number,
            recipient.card_number,
            amount,
        ),
    }
}

/// Pays `amount` from the store's account to the account that
/// `recipient_token` stands for.
pub fn make_payment(bank: &mut MemoryStorage, recipient_token: &str, amount: i64) -> (r: Result<
    (),
    BankOperationError,
>)
    requires
        old(bank)@.wf(),
    ensures
        final(bank)@.wf(),
        match r {
            Ok(()) => make_payment_spec(old(bank)@, recipient_token@, amount) is Ok && old(
                bank,
            )@.extended_by(
                final(bank)@,
                seq![make_payment_spec(old(bank)@, recipient_token@, amount)->Ok_0],
            ),
            Err(e) => make_payment_spec(old(bank)@, recipient_token@, amount) == Err::<
                Transfer,
                BankErrorView,
            >(e@) && final(bank)@ == old(bank)@,
        },
{
    let store_card = match bank.get_store_account() {
        Ok(account) => account.card(),
        Err(e) => {
            return Err(e);
        },
    };
    let recipient_card = bank.get_account_by_token(recipient_token)?.card();
    bank.new_transaction(&store_card, &recipient_card, amount)
}

} // verus!
