//! What a customer submits on the pages of a session.

use vstd::prelude::*;

use crate::domain::card_number::CardNumber;

verus! {

/// A card number with the password of its account.
pub struct Credentials {
    pub card_number: CardNumber,
    pub password: String,
}

/// `Credentials` as contracts see them.
pub struct CredentialsView {
    pub card_number: Seq<char>,
    pub password: Seq<char>,
}

impl View for Credentials {
    type V = CredentialsView;

    open spec fn view(&self) -> CredentialsView {
        CredentialsView { card_number: self.card_number@, password: self.password@ }
    }
}

impl Clone for Credentials {
    fn clone(&self) -> (c: Self)
        ensures
            c == *self,
    {
        Credentials { card_number: self.card_number.clone(), password: self.password.clone() }
    }
}

} // verus!

verus! {

/// Seconds that a trigger waits for a session to end before it times the
/// session out.
pub const TRIGGER_TIMEOUT_SECS: u64 = 120;

/// May the payer's credentials be submitted to a payment session in this
/// state? Only a session that has not begun takes them.
pub fn may_trigger_payment(state: &crate::session::payment::State) -> (b: bool)
    ensures
        b == (state@ is Init),
{
    match state {
        crate::session::payment::State::Init => true,
        _ => false,
    }
}

/// May a card be submitted to a session in this state that registers a card
/// token? Only a session that has not begun takes one.
pub fn may_trigger_card_token_registration(state: &crate::session::card_token::State) -> (b: bool)
    ensures
        b == (state@ is Init),
{
    match state {
        crate::session::card_token::State::Init => true,
        _ => false,
    }
}

} // verus!
