//! A simulated acquiring bank: a ledger of accounts and transactions, and the
//! state machines that drive payment and card-token-registration sessions.

pub mod api;
pub mod bank;
pub mod clock;
pub mod config;
pub mod cornucopia;
pub mod decimal;
pub mod domain;
pub mod middleware;
pub mod random;
pub mod routes;
pub mod session;
pub mod tasks;
pub mod text;

use vstd::prelude::*;
use vstd::string::*;

use session::{InteractionSessions, SessionError};

verus! {

/// The text that describes each cause of an error, one after the other.
pub open spec fn causes_text(causes: Seq<String>) -> Seq<char>
    decreases causes.len(),
{
    if causes.len() == 0 {
        Seq::empty()
    } else {
        causes_text(causes.drop_last()) + "Caused by:\n\t"@ + causes.last()@ + "\n"@
    }
}

/// Describes an error with the chain of its causes: the error's own message
/// and an empty line, then each cause, the nearest first, under the words
/// `Caused by:`.
pub fn error_chain_fmt(message: &str, causes: &Vec<String>) -> (text: String)
    ensures
        text@ == message@ + "\n\n"@ + causes_text(causes@),
{
    let mut text = String::from_str(message);
    text.append("\n\n");
    let mut i: usize = 0;
    proof {
        assert(causes@.take(0) =~= Seq::<String>::empty());
    }
    while i < causes.len()
        invariant
            i <= causes@.len(),
            text@ == message@ + "\n\n"@ + causes_text(causes@.take(i as int)),
        decreases causes@.len() - i,
    {
        proof {
            assert(causes@.take(i + 1).drop_last() =~= causes@.take(i as int));
            assert(causes@.take(i + 1).last() == causes@[i as int]);
        }
        let ghost before = text@;
        text.append("Caused by:\n\t");
        text.append(causes[i].as_str());
        text.append("\n");
        proof {
            assert(text@ =~= message@ + "\n\n"@ + causes_text(causes@.take(i + 1)));
        }
        i += 1;
    }
    proof {
        assert(causes@.take(i as int) =~= causes@);
    }
    text
}

/// What holds entries under identifiers and can drop one of them.
pub trait RemovableById {
    /// Drops the entry with the identifier `id`.
    fn remove(&mut self, id: u128) -> Result<(), SessionError>;

    /// Is there an entry with the identifier `id`?
    fn exists_by_id(&self, id: u128) -> Result<bool, SessionError>;
}

impl<P, T> RemovableById for InteractionSessions<P, T> {
    fn remove(&mut self, id: u128) -> (r: Result<(), SessionError>)
        ensures
            r is Ok <==> old(self).ids().contains(id),
            r is Ok ==> final(self).ids() == session::swap_removed(
                old(self).ids(),
                session::first_position(old(self).ids(), id),
            ),
            r is Err ==> final(self)@ == old(self)@,
    {
        self.remove_session_by_id(id)
    }

    fn exists_by_id(&self, id: u128) -> (r: Result<bool, SessionError>)
        ensures
            r == Ok::<bool, SessionError>(self.ids().contains(id)),
    {
        Ok(self.has_session(id))
    }
}

} // verus!
