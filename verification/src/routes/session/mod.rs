//! The webhooks by which the store drives a session: confirm, capture and
//! cancel. Each is turned into an event for the session's state machine, or
//! refused with the status that tells the store why.

use vstd::prelude::*;

use crate::api::{OperationError, OperationErrorView, OperationStatus, OperationStatusView};
use crate::session::{card_token, payment};

pub mod init;

verus! {

/// What the store asks for through a webhook.
#[derive(Debug, Clone, Copy, PartialEq, Eq, Structural)]
pub enum WebhookKind {
    Confirm,
    Capture,
    Cancel,
}

/// The verdict on a webhook for a payment session in `state`: the event to
/// hand to the machine, or the status to answer with. A request that is not
/// authorized by the store's credentials is refused first. A session that
/// was closed answers `Cancelled`, one that failed answers with its error,
/// and a request that does not fit the state is a `BadRequest`.
pub open spec fn payment_webhook_spec(
    kind: WebhookKind,
    authorized: bool,
    state: payment::StateView,
) -> Result<payment::EventView, OperationStatusView> {
    if !authorized {
        Err(OperationStatusView::Fail(OperationErrorView::NotAuthorizedRequest))
    } else {
        match (state, kind) {
            (payment::StateView::Closed { .. }, _) => Err(
                OperationStatusView::Fail(OperationErrorView::Cancelled),
            ),
            (payment::StateView::Failed { err, .. }, _) => Err(OperationStatusView::Fail(err)),
            (payment::StateView::ReadyToConfirm, WebhookKind::Confirm) => Ok(
                payment::EventView::ConfirmRequest,
            ),
            (payment::StateView::ReadyToCapture, WebhookKind::Capture) => Ok(
                payment::EventView::CaptureRequest,
            ),
            (payment::StateView::Successed { .. }, WebhookKind::Cancel) => Err(
                OperationStatusView::Fail(OperationErrorView::BadRequest),
            ),
            (_, WebhookKind::Cancel) => Ok(payment::EventView::CancelRequest),
            _ => Err(OperationStatusView::Fail(OperationErrorView::BadRequest)),
        }
    }
}

/// The verdict on a webhook for a session in `state` that registers a card
/// token. Such a session has nothing to capture: a capture is a `BadRequest`
/// whoever asks.
pub open spec fn card_token_webhook_spec(
    kind: WebhookKind,
    authorized: bool,
    state: card_token::StateView,
) -> Result<card_token::EventView, OperationStatusView> {
    if kind == WebhookKind::Capture {
        Err(OperationStatusView::Fail(OperationErrorView::BadRequest))
    } else if !authorized {
        Err(OperationStatusView::Fail(OperationErrorView::NotAuthorizedRequest))
    } else {
        match (state, kind) {
            (card_token::StateView::Closed { .. }, _) => Err(
                OperationStatusView::Fail(OperationErrorView::Cancelled),
            ),
            (card_token::StateView::Failed { err, .. }, _) => Err(OperationStatusView::Fail(err)),
            (card_token::StateView::ReadyToConfirm, WebhookKind::Confirm) => Ok(
                card_token::EventView::ConfirmRequest,
            ),
            (card_token::StateView::Successed { .. }, WebhookKind::Cancel) => Err(
                OperationStatusView::Fail(OperationErrorView::BadRequest),
            ),
            (_, WebhookKind::Cancel) => Ok(card_token::EventView::CancelRequest),
            _ => Err(OperationStatusView::Fail(OperationErrorView::BadRequest)),
        }
    }
}

/// A verdict as contracts see it.
pub open spec fn verdict_view<E: View>(r: Result<E, OperationStatus>) -> Result<
    E::V,
    OperationStatusView,
> {
    match r {
        Ok(e) => Ok(e@),
        Err(s) => Err(s@),
    }
}

/// Decides on a webhook for a payment session. `authorized` says whether
/// the request carried the token that the store's credentials call for.
pub fn payment_webhook(kind: WebhookKind, authorized: bool, state: &payment::State) -> (r: Result<
    payment::Event,
    OperationStatus,
>)
    ensures
        verdict_view(r) == payment_webhook_spec(kind, authorized, state@),
{
    if !authorized {
        return Err(OperationStatus::Fail(OperationError::NotAuthorizedRequest));
    }
    match (state, kind) {
        (payment::State::Closed { .. }, _) => Err(OperationStatus::Fail(OperationError::Cancelled)),
        (payment::State::Failed { err, .. }, _) => Err(OperationStatus::Fail(err.clone())),
        (payment::State::ReadyToConfirm, WebhookKind::Confirm) => Ok(payment::Event::ConfirmRequest),
        (payment::State::ReadyToCapture, WebhookKind::Capture) => Ok(payment::Event::CaptureRequest),
        (payment::State::Successed { .. }, WebhookKind::Cancel) => Err(
            OperationStatus::Fail(OperationError::BadRequest),
        ),
        (_, WebhookKind::Cancel) => Ok(payment::Event::CancelRequest),
        _ => Err(OperationStatus::Fail(OperationError::BadRequest)),
    }
}

/// Decides on a webhook for a session that registers a card token.
pub fn card_token_webhook(kind: WebhookKind, authorized: bool, state: &card_token::State) -> (r:
    Result<card_token::Event, OperationStatus>)
    ensures
        verdict_view(r) == card_token_webhook_spec(kind, authorized, state@),
{
    if kind == WebhookKind::Capture {
        return Err(OperationStatus::Fail(OperationError::BadRequest));
    }
    if !authorized {
        return Err(OperationStatus::Fail(OperationError::NotAuthorizedRequest));
    }
    match (state, kind) {
        (card_token::State::Closed { .. }, _) => Err(
            OperationStatus::Fail(OperationError::Cancelled),
        ),
        (card_token::State::Failed { err, .. }, _) => Err(OperationStatus::Fail(err.clone())),
        (card_token::State::ReadyToConfirm, WebhookKind::Confirm) => Ok(
            card_token::Event::ConfirmRequest,
        ),
        (card_token::State::Successed { .. }, WebhookKind::Cancel) => Err(
            OperationStatus::Fail(OperationError::BadRequest),
        ),
        (_, WebhookKind::Cancel) => Ok(card_token::Event::CancelRequest),
        _ => Err(OperationStatus::Fail(OperationError::BadRequest)),
    }
}

/// A webhook never hands a payment session an event that would change its
/// recorded end: whatever it forwards to a session in a terminal state, the
/// session ignores.
pub proof fn lemma_webhook_respects_the_end(
    kind: WebhookKind,
    authorized: bool,
    state: payment::StateView,
)
    requires
        state.is_terminal(),
    ensures
        payment_webhook_spec(kind, authorized, state) is Err,
{
}

} // verus!
