use stellar_aid::webhook::{
    AttemptOutcome, Delivery, DeliveryStep, DonationConfirmedPayload, WebhookError, MAX_ATTEMPTS, RETRY_DELAY_MS,
};

#[test]
fn webhook_error_message_includes_attempts_and_reason() {
    let err = WebhookError::DeliveryFailed { attempts: 3, last_error: "connection refused".into() };
    let msg = err.message();
    assert!(msg.contains('3'));
    assert!(msg.contains("connection refused"));
}

#[test]
fn webhook_error_message_is_exact() {
    let err = WebhookError::DeliveryFailed { attempts: 3, last_error: "HTTP 500 Internal Server Error".into() };
    assert_eq!(err.message(), "webhook delivery failed after 3 attempt(s): HTTP 500 Internal Server Error");
}

#[test]
fn payload_carries_the_donation() {
    let p = DonationConfirmedPayload::new("txhash123", "campaign-1", "GABC123", 5000, "2026-06-21T17:44:34Z");
    assert_eq!(p.event, "donation.confirmed");
    assert_eq!(p.tx_hash, "txhash123");
    assert_eq!(p.campaign_id, "campaign-1");
    assert_eq!(p.donor_address, "GABC123");
    assert_eq!(p.amount, 5000);
    assert_eq!(p.timestamp, "2026-06-21T17:44:34Z");
}

#[test]
fn delivery_stops_on_first_success() {
    let mut d = Delivery::new();
    assert_eq!(d.record(AttemptOutcome::Delivered), DeliveryStep::Done);
    assert_eq!(d.attempt, 1);
}

#[test]
fn delivery_retries_then_succeeds() {
    let mut d = Delivery::new();
    assert_eq!(
        d.record(AttemptOutcome::RequestFailed("connection refused".into())),
        DeliveryStep::Retry { delay_ms: RETRY_DELAY_MS }
    );
    assert_eq!(
        d.record(AttemptOutcome::HttpStatus("503 Service Unavailable".into())),
        DeliveryStep::Retry { delay_ms: 500 }
    );
    assert_eq!(d.last_error, "HTTP 503 Service Unavailable");
    assert_eq!(d.record(AttemptOutcome::Delivered), DeliveryStep::Done);
    assert_eq!(d.attempt, 3);
}

#[test]
fn delivery_gives_up_after_three_failures_with_last_error() {
    let mut d = Delivery::new();
    assert!(matches!(d.record(AttemptOutcome::HttpStatus("500 Internal Server Error".into())), DeliveryStep::Retry { .. }));
    assert!(matches!(d.record(AttemptOutcome::RequestFailed("timed out".into())), DeliveryStep::Retry { .. }));
    let last = d.record(AttemptOutcome::HttpStatus("502 Bad Gateway".into()));
    assert_eq!(
        last,
        DeliveryStep::GiveUp(WebhookError::DeliveryFailed {
            attempts: MAX_ATTEMPTS,
            last_error: "HTTP 502 Bad Gateway".into()
        })
    );
}
