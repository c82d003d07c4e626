use acquisim::config::{data_backend_type, DataBackendType};
use acquisim::error_chain_fmt;
use acquisim::session::webhook::{Action, Outcome, WebhookDelivery};
use acquisim::session::{
    CardTokenRegSession, InteractionSessions, PaymentSession, Session, SessionError,
};
use acquisim::tasks::wait_before_removal;
use acquisim::RemovableById;

type Registry = InteractionSessions<String, u8>;

fn payment(id: u128, state: &str) -> Session<String, u8> {
    Session::PaymentSession(PaymentSession::new(id, state.to_string()))
}

fn registration(id: u128, state: u8) -> Session<String, u8> {
    Session::CardTokenRegSession(CardTokenRegSession::new(id, state))
}

#[test]
fn registry_finds_sessions_by_identifier() {
    let mut sessions = Registry::new();
    assert!(!sessions.has_session(1));
    assert!(sessions.insert(payment(1, "one")).is_ok());
    assert!(sessions.insert(registration(2, 22)).is_ok());
    assert!(sessions.insert(payment(3, "three")).is_ok());
    assert!(sessions.has_session(1) && sessions.has_session(2) && sessions.has_session(3));
    assert_eq!(sessions.exists_by_id(2).unwrap(), true);
    assert_eq!(sessions.exists_by_id(4).unwrap(), false);

    let found = sessions.try_acquire_session_by_id(1).unwrap();
    assert_eq!(found.id(), 1);
    assert_eq!(found.payment_session().unwrap().state, "one");
    assert!(found.card_token_reg_session().is_none());
    assert!(found.creation_time() > 0);
    let found = sessions.try_acquire_session_by_id(2).unwrap();
    assert_eq!(found.card_token_reg_session().unwrap().state, 22);
    assert!(found.payment_session().is_none());
    match sessions.try_acquire_session_by_id(9) {
        Err(SessionError::NoEntityError(id)) => assert_eq!(id, 9),
        other => panic!("{other:?}"),
    }
    // Acquiring takes nothing out.
    assert!(sessions.has_session(1));
}

#[test]
fn a_session_is_removed_once() {
    let mut sessions = Registry::new();
    for id in 1..=4 {
        sessions.insert(payment(id, "s")).unwrap();
    }
    assert!(sessions.remove_session_by_id(2).is_ok());
    assert!(!sessions.has_session(2));
    for id in [1, 3, 4] {
        assert!(sessions.has_session(id));
    }
    // Expiry and completion may both ask: the second finds nothing.
    match sessions.remove_session_by_id(2) {
        Err(SessionError::NoEntityError(id)) => assert_eq!(id, 2),
        other => panic!("{other:?}"),
    }
    assert!(sessions.remove(2).is_err());
    assert!(sessions.remove(4).is_ok());
    assert!(sessions.remove(1).is_ok());
    assert!(sessions.remove(3).is_ok());
    assert!(!sessions.has_session(3));
    assert!(sessions.remove(3).is_err());
}

#[test]
fn removal_takes_the_first_of_two() {
    let mut sessions = Registry::new();
    sessions.insert(payment(7, "first")).unwrap();
    sessions.insert(payment(8, "other")).unwrap();
    sessions.insert(payment(7, "second")).unwrap();
    assert_eq!(sessions.try_acquire_session_by_id(7).unwrap().payment_session().unwrap().state, "first");
    sessions.remove_session_by_id(7).unwrap();
    assert_eq!(sessions.try_acquire_session_by_id(7).unwrap().payment_session().unwrap().state, "second");
    sessions.remove_session_by_id(7).unwrap();
    assert!(!sessions.has_session(7));
    assert!(sessions.has_session(8));
}

#[test]
fn a_failing_store_is_tried_three_times() {
    let mut delivery = WebhookDelivery::new();
    let mut sent = 0;
    let mut slept = 0;
    loop {
        match delivery.next() {
            Action::Send => {
                sent += 1;
                delivery.sent(Outcome::Failed);
            }
            Action::Sleep { secs } => {
                assert_eq!(secs, 1);
                slept += 1;
                delivery.slept();
            }
            Action::Stop => break,
        }
        assert!(sent + slept < 100);
    }
    assert_eq!(sent, 3);
    assert_eq!(slept, 3);
    assert_eq!(delivery.attempts(), 3);
    // Nothing revives a delivery that is over.
    delivery.sent(Outcome::Failed);
    delivery.slept();
    assert_eq!(delivery.next(), Action::Stop);
    assert_eq!(delivery.attempts(), 3);
}

#[test]
fn any_answer_ends_a_delivery() {
    for status in [200u16, 404, 500] {
        let mut delivery = WebhookDelivery::new();
        assert_eq!(delivery.next(), Action::Send);
        delivery.sent(Outcome::Responded { status });
        assert_eq!(delivery.next(), Action::Stop);
        assert_eq!(delivery.attempts(), 1);
    }
    let mut delivery = WebhookDelivery::new();
    delivery.sent(Outcome::Failed);
    assert_eq!(delivery.next(), Action::Sleep { secs: 1 });
    // An outcome reported during the pause is not counted.
    delivery.sent(Outcome::Failed);
    assert_eq!(delivery.attempts(), 1);
    delivery.slept();
    assert_eq!(delivery.next(), Action::Send);
    delivery.sent(Outcome::Responded { status: 200 });
    assert_eq!(delivery.next(), Action::Stop);
    assert_eq!(delivery.attempts(), 2);
}

#[test]
fn the_watcher_waits_for_the_rest_of_the_hour() {
    let second = 1_000_000_000i128;
    assert_eq!(wait_before_removal(0, 0), Some((3600, 0)));
    assert_eq!(wait_before_removal(5 * second, 65 * second + 1), Some((3539, 999_999_999)));
    assert_eq!(wait_before_removal(0, 3600 * second), Some((0, 0)));
    assert_eq!(wait_before_removal(0, 3600 * second + 1), None);
    assert_eq!(wait_before_removal(10 * second, 0), Some((3610, 0)));
    assert_eq!(wait_before_removal(i128::MAX, i128::MAX), Some((3600, 0)));
    assert_eq!(wait_before_removal(i128::MIN, i128::MIN), Some((3600, 0)));
    assert_eq!(wait_before_removal(i128::MAX, 0), None);
    assert_eq!(wait_before_removal(i128::MAX, i128::MIN), None);
    assert_eq!(wait_before_removal(i128::MIN, i128::MAX), None);
    let most = u64::MAX as i128 * second + 999_999_999;
    assert_eq!(wait_before_removal(most, 3600 * second), Some((u64::MAX, 999_999_999)));
    assert_eq!(wait_before_removal(most + 1, 3600 * second), None);
}

#[test]
fn backend_names() {
    assert_eq!(data_backend_type("postgres"), Some(DataBackendType::Pg));
    assert_eq!(data_backend_type("memory"), Some(DataBackendType::Mem));
    assert_eq!(data_backend_type("Memory"), None);
    assert_eq!(data_backend_type(""), None);
}

#[test]
fn errors_are_written_with_their_causes() {
    assert_eq!(error_chain_fmt("Internal error", &vec![]), "Internal error\n\n");
    assert_eq!(
        error_chain_fmt("Internal error", &vec!["pool".to_string(), "socket".to_string()]),
        "Internal error\n\nCaused by:\n\tpool\nCaused by:\n\tsocket\n"
    );
}
