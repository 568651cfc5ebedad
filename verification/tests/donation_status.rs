use stellar_aid::donation_status::{DonationEvent, DonationStatus, TransitionError};

#[test]
fn pending_submit_yields_submitted() {
    let next = DonationStatus::Pending.transition(DonationEvent::Submit).unwrap();
    assert_eq!(next, DonationStatus::Submitted);
}

#[test]
fn submitted_begin_confirmation_yields_confirming() {
    let next = DonationStatus::Submitted.transition(DonationEvent::BeginConfirmation).unwrap();
    assert_eq!(next, DonationStatus::Confirming);
}

#[test]
fn confirming_confirm_yields_confirmed() {
    let next = DonationStatus::Confirming.transition(DonationEvent::Confirm).unwrap();
    assert_eq!(next, DonationStatus::Confirmed);
}

#[test]
fn submitted_fail_yields_failed() {
    let next = DonationStatus::Submitted.transition(DonationEvent::Fail).unwrap();
    assert_eq!(next, DonationStatus::Failed);
}

#[test]
fn confirming_fail_yields_failed() {
    let next = DonationStatus::Confirming.transition(DonationEvent::Fail).unwrap();
    assert_eq!(next, DonationStatus::Failed);
}

#[test]
fn failed_refund_yields_refunded() {
    let next = DonationStatus::Failed.transition(DonationEvent::Refund).unwrap();
    assert_eq!(next, DonationStatus::Refunded);
}

#[test]
fn confirmed_cannot_go_to_pending() {
    let err = DonationStatus::Confirmed.transition(DonationEvent::Submit).unwrap_err();
    assert_eq!(
        err,
        TransitionError::InvalidTransition { from: DonationStatus::Confirmed, event: DonationEvent::Submit }
    );
}

#[test]
fn refunded_cannot_transition_further() {
    let err = DonationStatus::Refunded.transition(DonationEvent::Submit).unwrap_err();
    assert!(matches!(err, TransitionError::InvalidTransition { .. }));
}

#[test]
fn pending_cannot_confirm_directly() {
    let err = DonationStatus::Pending.transition(DonationEvent::Confirm).unwrap_err();
    assert!(matches!(err, TransitionError::InvalidTransition { .. }));
}

#[test]
fn confirmed_cannot_be_refunded() {
    let err = DonationStatus::Confirmed.transition(DonationEvent::Refund).unwrap_err();
    assert!(matches!(err, TransitionError::InvalidTransition { .. }));
}

#[test]
fn pending_cannot_fail() {
    let err = DonationStatus::Pending.transition(DonationEvent::Fail).unwrap_err();
    assert!(matches!(err, TransitionError::InvalidTransition { .. }));
}

#[test]
fn error_message_contains_state_and_event() {
    let err = DonationStatus::Confirmed.transition(DonationEvent::Submit).unwrap_err();
    let msg = err.message();
    assert!(msg.contains("Confirmed"));
    assert!(msg.contains("Submit"));
}

#[test]
fn full_happy_path_pending_to_confirmed() {
    let status = DonationStatus::Pending
        .transition(DonationEvent::Submit)
        .unwrap()
        .transition(DonationEvent::BeginConfirmation)
        .unwrap()
        .transition(DonationEvent::Confirm)
        .unwrap();
    assert_eq!(status, DonationStatus::Confirmed);
}

#[test]
fn full_failure_path_pending_to_refunded() {
    let status = DonationStatus::Pending
        .transition(DonationEvent::Submit)
        .unwrap()
        .transition(DonationEvent::Fail)
        .unwrap()
        .transition(DonationEvent::Refund)
        .unwrap();
    assert_eq!(status, DonationStatus::Refunded);
}

const ALL_STATUSES: [DonationStatus; 6] = [
    DonationStatus::Pending,
    DonationStatus::Submitted,
    DonationStatus::Confirming,
    DonationStatus::Confirmed,
    DonationStatus::Failed,
    DonationStatus::Refunded,
];

const ALL_EVENTS: [DonationEvent; 5] = [
    DonationEvent::Submit,
    DonationEvent::BeginConfirmation,
    DonationEvent::Confirm,
    DonationEvent::Fail,
    DonationEvent::Refund,
];

#[test]
fn exact_error_message() {
    let err = DonationStatus::Confirmed.transition(DonationEvent::Submit).unwrap_err();
    assert_eq!(err.message(), "invalid transition: cannot apply Submit while in state Confirmed");
    let err = DonationStatus::Pending.transition(DonationEvent::BeginConfirmation).unwrap_err();
    assert_eq!(err.message(), "invalid transition: cannot apply BeginConfirmation while in state Pending");
}

#[test]
fn final_states_accept_no_event() {
    for event in ALL_EVENTS {
        assert!(DonationStatus::Confirmed.transition(event).is_err());
        assert!(DonationStatus::Refunded.transition(event).is_err());
    }
}

#[test]
fn exactly_six_transitions_are_allowed() {
    let mut allowed = 0;
    for status in ALL_STATUSES {
        for event in ALL_EVENTS {
            match status.transition(event) {
                Ok(next) => {
                    allowed += 1;
                    assert_ne!(next, status);
                    assert_ne!(next, DonationStatus::Pending);
                }
                Err(err) => assert_eq!(err, TransitionError::InvalidTransition { from: status, event }),
            }
        }
    }
    assert_eq!(allowed, 6);
}

#[test]
fn refund_only_after_failure() {
    for status in ALL_STATUSES {
        if status.transition(DonationEvent::Refund).is_ok() {
            assert_eq!(status, DonationStatus::Failed);
        }
    }
}
