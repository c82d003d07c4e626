//! What the store may learn of a card token.

use vstd::prelude::*;

use crate::bank::ledger::LedgerView;
use crate::bank::memory::MemoryStorage;

verus! {

/// What is told of a card token: whether the account that it stands for
/// exists, or that no account can be found for it.
pub open spec fn token_info_spec(ledger: LedgerView, card_token: Seq<char>) -> Result<bool, Seq<char>> {
    match ledger.account_by_token(card_token) {
        Ok(account) => Ok(account.is_existing),
        Err(_) => Err("No token found"@),
    }
}

/// Looks a card token up for the store.
pub fn token_info(bank: &MemoryStorage, card_token: &str) -> (r: Result<bool, String>)
    requires
        bank@.wf(),
    ensures
        match r {
            Ok(b) => token_info_spec(bank@, card_token@) == Ok::<bool, Seq<char>>(b),
            Err(e) => token_info_spec(bank@, card_token@) == Err::<bool, Seq<char>>(e@),
        },
{
    match bank.get_account_by_token(card_token) {
        Ok(account) => Ok(account.is_existing()),
        Err(_) => Err(String::from_str("No token found")),
    }
}

} // verus!
