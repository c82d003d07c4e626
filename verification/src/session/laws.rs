//! What holds of every session and of the registry.

use vstd::prelude::*;

use super::{
    card_token, executed, first_position, payment, swap_removed, LedgerCallView, LedgerReplyView,
};
use crate::bank::ledger::LedgerView;

verus! {

/// Monotonicity of a payment session: an event that the state does not act
/// on asks nothing of the ledger, leaves the session as it was, has no
/// effect, and leaves the ledger as it was.
pub proof fn lemma_payment_ignores_out_of_order(
    inner: payment::InnerView,
    event: payment::EventView,
    reply: LedgerReplyView,
    before: LedgerView,
    after: LedgerView,
)
    requires
        !payment::accepts(inner.state, event),
        executed(before, after, inner.plan(event), reply),
    ensures
        inner.plan(event) == LedgerCallView::Nothing,
        inner.step(event, reply) == (inner, Seq::<payment::EffectView>::empty()),
        after == before,
{
}

/// Monotonicity of a session that registers a card token.
pub proof fn lemma_card_token_ignores_out_of_order(
    inner: card_token::InnerView,
    event: card_token::EventView,
    reply: LedgerReplyView,
    before: LedgerView,
    after: LedgerView,
)
    requires
        !card_token::accepts(inner.state, event),
        executed(before, after, inner.plan(event), reply),
    ensures
        inner.plan(event) == LedgerCallView::Nothing,
        inner.step(event, reply) == (inner, Seq::<card_token::EffectView>::empty()),
        after == before,
{
}

/// A payment session ends once: in a terminal state no event is acted on, so
/// that of a timeout and a transition that race, the one that comes second
/// changes nothing and announces nothing.
pub proof fn lemma_payment_ends_once(
    inner: payment::InnerView,
    event: payment::EventView,
    reply: LedgerReplyView,
)
    requires
        inner.state.is_terminal(),
    ensures
        !payment::accepts(inner.state, event),
        inner.plan(event) == LedgerCallView::Nothing,
        inner.step(event, reply) == (inner, Seq::<payment::EffectView>::empty()),
{
}

/// A session that registers a card token ends once.
pub proof fn lemma_card_token_ends_once(
    inner: card_token::InnerView,
    event: card_token::EventView,
    reply: LedgerReplyView,
)
    requires
        inner.state.is_terminal(),
    ensures
        !card_token::accepts(inner.state, event),
        inner.plan(event) == LedgerCallView::Nothing,
        inner.step(event, reply) == (inner, Seq::<card_token::EffectView>::empty()),
{
}

/// The end of a payment session is announced exactly when it is reached:
/// a step announces a state if and only if it enters a terminal state, and
/// it announces the state that it enters.
pub proof fn lemma_payment_announces_its_end(
    inner: payment::InnerView,
    event: payment::EventView,
    reply: LedgerReplyView,
)
    ensures
        match inner.target(event, reply) {
            Some(next) => {
                let effects = inner.step(event, reply).1;
                if next.is_terminal() {
                    effects.len() == 2 && effects[0] == (payment::EffectView::Finale {
                        state: next,
                    }) && effects[1] is Webhook
                } else {
                    effects.len() <= 1 && forall|i: int|
                        0 <= i < effects.len() ==> #[trigger] effects[i] is Webhook
                }
            },
            None => inner.step(event, reply).1.len() == 0,
        },
{
}

/// A capture pays the store that was pinned when the session was opened:
/// where a payment without beneficiaries is captured and the ledger grants
/// it, the payer's balance falls by the amount of the request and the balance
/// of the pinned card rises by it, and the session has succeeded.
pub proof fn lemma_capture_pays_the_pinned_store(
    inner: payment::InnerView,
    reply: LedgerReplyView,
    before: LedgerView,
    after: LedgerView,
)
    requires
        before.wf(),
        inner.state is ReadyToCapture,
        inner.payer_card is Some,
        inner.req.beneficiaries.parts.len() == 0,
        executed(before, after, inner.plan(payment::EventView::CaptureRequest), reply),
        reply == LedgerReplyView::Moved(Ok(())),
    ensures
        after.wf(),
        after.balance(inner.payer_card->Some_0) == before.balance(inner.payer_card->Some_0)
            - inner.req.amount,
        after.balance(inner.store_credentials.card_number) == before.balance(
            inner.store_credentials.card_number,
        ) + inner.req.amount,
        inner.req.amount > 0,
        before.balance(inner.payer_card->Some_0) >= inner.req.amount,
        inner.step(payment::EventView::CaptureRequest, reply).0.state == (
        payment::StateView::Successed { redirect_url: inner.req.success_url }),
{
    let payer = inner.payer_card->Some_0;
    let store = inner.store_credentials.card_number;
    let amount = inner.req.amount;
    let check = before.transfer_check(payer, store, amount);
    assert(check is Ok);
    let moves = seq![check->Ok_0];
    before.lemma_found(payer);
    before.lemma_found(store);
    before.lemma_extended(after, moves);
    assert(moves.drop_last() =~= Seq::<crate::bank::ledger::Transfer>::empty());
    assert(crate::bank::ledger::transfers_total(moves, payer) == -amount) by {
        reveal_with_fuel(crate::bank::ledger::transfers_total, 2);
    }
    assert(crate::bank::ledger::transfers_total(moves, store) == amount) by {
        reveal_with_fuel(crate::bank::ledger::transfers_total, 2);
    }
}

/// A step that the ledger refuses moves no money: where the ledger answers a
/// session's call with an error, the ledger is as it was.
pub proof fn lemma_refused_call_changes_nothing(
    call: LedgerCallView,
    error: crate::bank::BankErrorView,
    before: LedgerView,
    after: LedgerView,
)
    requires
        executed(before, after, call, LedgerReplyView::Moved(Err(error))) || executed(
            before,
            after,
            call,
            LedgerReplyView::Issued(Err(error)),
        ),
    ensures
        after == before,
{
}

/// A session is removed once: in a registry that holds each identifier once,
/// removing a session leaves no session under its identifier, so that a
/// second removal finds nothing, and leaves every other session in.
pub proof fn lemma_removed_once(ids: Seq<u128>, id: u128)
    requires
        ids.no_duplicates(),
        ids.contains(id),
    ensures
        !swap_removed(ids, first_position(ids, id)).contains(id),
        swap_removed(ids, first_position(ids, id)).no_duplicates(),
        forall|other: u128|
            other != id ==> (#[trigger] swap_removed(ids, first_position(ids, id)).contains(other)
                <==> ids.contains(other)),
{
    let k = choose|k: int| 0 <= k < ids.len() && ids[k] == id;
    let p = first_position(ids, id);
    assert(p == k) by {
        super::lemma_first_position(ids, id, k);
    }
    let after = swap_removed(ids, p);
    let last = ids.len() - 1;
    assert forall|i: int| 0 <= i < after.len() implies after[i] != id by {
        if i == p {
            assert(after[i] == ids[last]);
        } else {
            assert(after[i] == ids[i]);
        }
    }
    assert forall|i: int, j: int| 0 <= i < after.len() && 0 <= j < after.len() && i != j implies after[i]
        != after[j] by {
        let a = if i == p {
            last
        } else {
            i
        };
        let b = if j == p {
            last
        } else {
            j
        };
        assert(after[i] == ids[a]);
        assert(after[j] == ids[b]);
    }
    assert forall|other: u128| other != id implies (#[trigger] after.contains(other)
        <==> ids.contains(other)) by {
        if after.contains(other) {
            let i = choose|i: int| 0 <= i < after.len() && after[i] == other;
            let a = if i == p {
                last
            } else {
                i
            };
            assert(ids[a] == other);
        }
        if ids.contains(other) {
            let i = choose|i: int| 0 <= i < ids.len() && ids[i] == other;
            if i == last {
                assert(after[p] == other);
            } else {
                assert(after[i] == other);
            }
        }
    }
}

/// A fresh identifier keeps the registry free of duplicates.
pub proof fn lemma_insert_keeps_ids_distinct(ids: Seq<u128>, id: u128)
    requires
        ids.no_duplicates(),
        !ids.contains(id),
    ensures
        ids.push(id).no_duplicates(),
        ids.push(id).contains(id),
{
    assert(ids.push(id)[ids.len() as int] == id);
}

} // verus!
