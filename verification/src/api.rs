//! What the bank tells the store about the sessions it runs, and what the
//! store asks for when it opens one.

use vstd::prelude::*;

use crate::domain::beneficiaries::{Beneficiaries, BeneficiariesView};

verus! {

/// Why an operation did not succeed, in terms fit for the store.
#[derive(Debug)]
pub enum OperationError {
    /// The credentials were not accepted.
    NotAuthorizedRequest,
    /// The ledger refused; the reason is safe to show.
    Failed { reason: String },
    /// No session has the identifier.
    SessionNotFound,
    /// The session was closed before it finished.
    Cancelled,
    /// The request does not fit the state of the session.
    BadRequest,
    /// Something else went wrong.
    Unexpected(String),
}

/// An `OperationError` as contracts see it.
pub enum OperationErrorView {
    NotAuthorizedRequest,
    Failed { reason: Seq<char> },
    SessionNotFound,
    Cancelled,
    BadRequest,
    Unexpected(Seq<char>),
}

impl View for OperationError {
    type V = OperationErrorView;

    open spec fn view(&self) -> OperationErrorView {
        match self {
            OperationError::NotAuthorizedRequest => OperationErrorView::NotAuthorizedRequest,
            OperationError::Failed { reason } => OperationErrorView::Failed { reason: reason@ },
            OperationError::SessionNotFound => OperationErrorView::SessionNotFound,
            OperationError::Cancelled => OperationErrorView::Cancelled,
            OperationError::BadRequest => OperationErrorView::BadRequest,
            OperationError::Unexpected(s) => OperationErrorView::Unexpected(s@),
        }
    }
}

impl Clone for OperationError {
    fn clone(&self) -> (e: Self)
        ensures
            e == *self,
    {
        match self {
            OperationError::NotAuthorizedRequest => OperationError::NotAuthorizedRequest,
            OperationError::Failed { reason } => OperationError::Failed { reason: reason.clone() },
            OperationError::SessionNotFound => OperationError::SessionNotFound,
            OperationError::Cancelled => OperationError::Cancelled,
            OperationError::BadRequest => OperationError::BadRequest,
            OperationError::Unexpected(s) => OperationError::Unexpected(s.clone()),
        }
    }
}

/// How an operation ended.
#[derive(Debug)]
pub enum OperationStatus {
    Success,
    Cancel,
    Fail(OperationError),
}

/// An `OperationStatus` as contracts see it.
pub enum OperationStatusView {
    Success,
    Cancel,
    Fail(OperationErrorView),
}

impl View for OperationStatus {
    type V = OperationStatusView;

    open spec fn view(&self) -> OperationStatusView {
        match self {
            OperationStatus::Success => OperationStatusView::Success,
            OperationStatus::Cancel => OperationStatusView::Cancel,
            OperationStatus::Fail(e) => OperationStatusView::Fail(e@),
        }
    }
}

impl Clone for OperationStatus {
    fn clone(&self) -> (s: Self)
        ensures
            s == *self,
    {
        match self {
            OperationStatus::Success => OperationStatus::Success,
            OperationStatus::Cancel => OperationStatus::Cancel,
            OperationStatus::Fail(e) => OperationStatus::Fail(e.clone()),
        }
    }
}

/// A milestone of a payment session.
#[derive(Debug)]
pub enum PaymentNotification {
    ReadyToConfirm { session_id: u128 },
    ReadyToCapture { session_id: u128 },
    PaymentFinished { session_id: u128, status: OperationStatus },
}

/// A milestone of a session that registers a card token.
#[derive(Debug)]
pub enum TokenNotification {
    ReadyToConfirm { session_id: u128 },
    Finished { card_token: Option<String>, session_id: u128, status: OperationStatus },
}

/// What is posted to the notification URL of a session.
#[derive(Debug)]
pub enum Notification {
    PaymentNotification(PaymentNotification),
    TokenNotification(TokenNotification),
}

/// A `Notification` as contracts see it.
pub enum NotificationView {
    PaymentReadyToConfirm { session_id: u128 },
    PaymentReadyToCapture { session_id: u128 },
    PaymentFinished { session_id: u128, status: OperationStatusView },
    TokenReadyToConfirm { session_id: u128 },
    TokenFinished { card_token: Option<Seq<char>>, session_id: u128, status: OperationStatusView },
}

impl View for Notification {
    type V = NotificationView;

    open spec fn view(&self) -> NotificationView {
        match self {
            Notification::PaymentNotification(PaymentNotification::ReadyToConfirm { session_id }) =>
                NotificationView::PaymentReadyToConfirm { session_id: *session_id },
            Notification::PaymentNotification(PaymentNotification::ReadyToCapture { session_id }) =>
                NotificationView::PaymentReadyToCapture { session_id: *session_id },
            Notification::PaymentNotification(
                PaymentNotification::PaymentFinished { session_id, status },
            ) => NotificationView::PaymentFinished { session_id: *session_id, status: status@ },
            Notification::TokenNotification(TokenNotification::ReadyToConfirm { session_id }) =>
                NotificationView::TokenReadyToConfirm { session_id: *session_id },
            Notification::TokenNotification(
                TokenNotification::Finished { card_token, session_id, status },
            ) => NotificationView::TokenFinished {
                card_token: match card_token {
                    Some(t) => Some(t@),
                    None => None,
                },
                session_id: *session_id,
                status: status@,
            },
        }
    }
}

/// What the store sends to open a payment session.
#[derive(Debug)]
pub struct InitPaymentRequest {
    pub notification_url: String,
    pub success_url: String,
    pub fail_url: String,
    pub amount: i64,
    pub beneficiaries: Beneficiaries,
}

/// An `InitPaymentRequest` as contracts see it.
pub struct InitPaymentRequestView {
    pub notification_url: Seq<char>,
    pub success_url: Seq<char>,
    pub fail_url: Seq<char>,
    pub amount: i64,
    pub beneficiaries: BeneficiariesView,
}

impl View for InitPaymentRequest {
    type V = InitPaymentRequestView;

    open spec fn view(&self) -> InitPaymentRequestView {
        InitPaymentRequestView {
            notification_url: self.notification_url@,
            success_url: self.success_url@,
            fail_url: self.fail_url@,
            amount: self.amount,
            beneficiaries: self.beneficiaries@,
        }
    }
}

/// What the store sends to open a session that registers a card token.
#[derive(Debug)]
pub struct RegisterCardTokenRequest {
    pub notification_url: String,
    pub success_url: String,
    pub fail_url: String,
}

/// A `RegisterCardTokenRequest` as contracts see it.
pub struct RegisterCardTokenRequestView {
    pub notification_url: Seq<char>,
    pub success_url: Seq<char>,
    pub fail_url: Seq<char>,
}

impl View for RegisterCardTokenRequest {
    type V = RegisterCardTokenRequestView;

    open spec fn view(&self) -> RegisterCardTokenRequestView {
        RegisterCardTokenRequestView {
            notification_url: self.notification_url@,
            success_url: self.success_url@,
            fail_url: self.fail_url@,
        }
    }
}

} // verus!
