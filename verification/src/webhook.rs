use vstd::prelude::*;

use crate::text::{decimal, u64_to_decimal};

verus! {

/// Deliveries are tried at most this many times.
pub const MAX_ATTEMPTS: u32 = 3;

/// Pause, in milliseconds, between two delivery attempts.
pub const RETRY_DELAY_MS: u64 = 500;

/// Payload sent in the body of a `donation.confirmed` webhook.
#[derive(Debug, Clone)]
pub struct DonationConfirmedPayload {
    pub event: &'static str,
    pub tx_hash: String,
    pub campaign_id: String,
    pub donor_address: String,
    pub amount: u64,
    pub timestamp: String,
}

impl DonationConfirmedPayload {
    /// The `donation.confirmed` payload for a donation.
    pub fn new(
        tx_hash: &str,
        campaign_id: &str,
        donor_address: &str,
        amount: u64,
        timestamp: &str,
    ) -> (p: DonationConfirmedPayload)
        ensures
            p.event@ == "donation.confirmed"@,
            p.tx_hash@ == tx_hash@,
            p.campaign_id@ == campaign_id@,
            p.donor_address@ == donor_address@,
            p.amount == amount,
            p.timestamp@ == timestamp@,
    {
        DonationConfirmedPayload {
            event: "donation.confirmed",
            tx_hash: tx_hash.to_string(),
            campaign_id: campaign_id.to_string(),
            donor_address: donor_address.to_string(),
            amount,
            timestamp: timestamp.to_string(),
        }
    }
}

/// Errors that can occur during webhook delivery.
#[derive(Debug, Clone, PartialEq, Eq)]
pub enum WebhookError {
    DeliveryFailed { attempts: u32, last_error: String },
}

pub open spec fn webhook_error_text(e: WebhookError) -> Seq<char> {
    match e {
        WebhookError::DeliveryFailed { attempts, last_error } =>
            "webhook delivery failed after "@ + decimal(attempts as nat) + " attempt(s): "@ + last_error@,
    }
}

impl WebhookError {
    /// The error's message.
    pub fn message(&self) -> (r: String)
        ensures
            r@ == webhook_error_text(*self),
    {
        match self {
            WebhookError::DeliveryFailed { attempts, last_error } => {
                let mut s = "webhook delivery failed after ".to_string();
                s.append(u64_to_decimal(*attempts as u64).as_str());
                s.append(" attempt(s): ");
                s.append(last_error.as_str());
                s
            },
        }
    }
}

/// How one delivery attempt went.
#[derive(Debug, Clone, PartialEq, Eq)]
pub enum AttemptOutcome {
    /// The server answered with a success status.
    Delivered,
    /// The server answered with another status, shown as `status`
    /// (such as `500 Internal Server Error`).
    HttpStatus(String),
    /// The request failed before any answer; `reason` describes why.
    RequestFailed(String),
}

/// What to do after an attempt.
#[derive(Debug, Clone, PartialEq, Eq)]
pub enum DeliveryStep {
    /// The webhook was delivered.
    Done,
    /// Wait `delay_ms` milliseconds, then try again.
    Retry { delay_ms: u64 },
    /// Give up with this error.
    GiveUp(WebhookError),
}

/// Progress of one delivery: the attempt about to be reported and the
/// error of the last failed attempt.
#[derive(Debug)]
pub struct Delivery {
    pub attempt: u32,
    pub last_error: String,
}

/// The error text an attempt leaves behind.
pub open spec fn attempt_error(outcome: AttemptOutcome) -> Seq<char> {
    match outcome {
        AttemptOutcome::Delivered => Seq::empty(),
        AttemptOutcome::HttpStatus(status) => "HTTP "@ + status@,
        AttemptOutcome::RequestFailed(reason) => reason@,
    }
}

pub open spec fn attempt_in_range(attempt: u32) -> bool {
    1 <= attempt <= MAX_ATTEMPTS
}

/// Whether reporting `outcome` for attempt `attempt` ends the delivery:
/// `Some(true)` delivered, `Some(false)` given up, `None` not yet.
pub open spec fn settles(attempt: u32, outcome: AttemptOutcome) -> Option<bool> {
    if outcome is Delivered {
        Some(true)
    } else if attempt >= MAX_ATTEMPTS {
        Some(false)
    } else {
        None
    }
}

impl Delivery {
    /// A delivery about to make its first attempt.
    pub fn new() -> (d: Delivery)
        ensures
            d.attempt == 1,
            d.last_error@ == Seq::<char>::empty(),
    {
        Delivery { attempt: 1, last_error: String::new() }
    }

    /// Reports how the current attempt went and says what to do next: stop
    /// on success; otherwise remember the error and retry after the delay,
    /// or give up with that error once the last attempt has failed.
    pub fn record(&mut self, outcome: AttemptOutcome) -> (step: DeliveryStep)
        requires
            attempt_in_range(old(self).attempt),
        ensures
            attempt_in_range(final(self).attempt),
            step is Done <==> settles(old(self).attempt, outcome) == Some(true),
            step is GiveUp <==> settles(old(self).attempt, outcome) == Some(false),
            step is Retry <==> settles(old(self).attempt, outcome) is None,
            outcome is Delivered ==> step == DeliveryStep::Done && final(self).attempt == old(self).attempt
                && final(self).last_error@ == old(self).last_error@,
            !(outcome is Delivered) ==> final(self).last_error@ == attempt_error(outcome),
            !(outcome is Delivered) && old(self).attempt < MAX_ATTEMPTS ==> step == (DeliveryStep::Retry {
                delay_ms: RETRY_DELAY_MS,
            }) && final(self).attempt == old(self).attempt + 1,
            !(outcome is Delivered) && old(self).attempt == MAX_ATTEMPTS ==> final(self).attempt == MAX_ATTEMPTS
                && (step matches DeliveryStep::GiveUp(WebhookError::DeliveryFailed { attempts, last_error })
                && attempts == MAX_ATTEMPTS && last_error@ == attempt_error(outcome)),
    {
        let text = match outcome {
            AttemptOutcome::Delivered => {
                return DeliveryStep::Done;
            },
            AttemptOutcome::HttpStatus(status) => {
                let mut t = "HTTP ".to_string();
                t.append(status.as_str());
                t
            },
            AttemptOutcome::RequestFailed(reason) => reason,
        };
        if self.attempt < MAX_ATTEMPTS {
            self.last_error = text;
            self.attempt = self.attempt + 1;
            DeliveryStep::Retry { delay_ms: RETRY_DELAY_MS }
        } else {
            self.last_error = text.clone();
            DeliveryStep::GiveUp(WebhookError::DeliveryFailed { attempts: MAX_ATTEMPTS, last_error: text })
        }
    }
}

/// A delivery fed the outcomes `outcomes` in turn, from its first attempt:
/// `Some(true)` when it is delivered, `Some(false)` when it gives up, `None`
/// while it still asks for more attempts.
pub open spec fn delivery_verdict(attempt: u32, outcomes: Seq<AttemptOutcome>) -> Option<bool>
    decreases outcomes.len(),
{
    if outcomes.len() == 0 {
        None
    } else {
        match settles(attempt, outcomes[0]) {
            Some(done) => Some(done),
            None => delivery_verdict((attempt + 1) as u32, outcomes.drop_first()),
        }
    }
}

/// A delivery settles within `MAX_ATTEMPTS` attempts, and it is delivered
/// exactly when one of those attempts succeeds.
pub proof fn law_delivery_settles(outcomes: Seq<AttemptOutcome>)
    requires
        outcomes.len() >= MAX_ATTEMPTS,
    ensures
        delivery_verdict(1, outcomes) is Some,
        delivery_verdict(1, outcomes) == Some(true) <==> (exists|i: int|
            0 <= i < MAX_ATTEMPTS && #[trigger] outcomes[i] is Delivered),
{
    let o1 = outcomes.drop_first();
    let o2 = o1.drop_first();
    assert(o1[0] == outcomes[1]);
    assert(o2[0] == outcomes[2]);
    if outcomes[0] is Delivered {
    } else if outcomes[1] is Delivered {
        assert(delivery_verdict(2, o1) == Some(true));
    } else if outcomes[2] is Delivered {
        assert(delivery_verdict(3, o2) == Some(true));
        assert(delivery_verdict(2, o1) == Some(true));
    } else {
        assert(delivery_verdict(3, o2) == Some(false));
        assert(delivery_verdict(2, o1) == Some(false));
        assert forall|i: int| 0 <= i < MAX_ATTEMPTS implies !(#[trigger] outcomes[i] is Delivered) by {
            if i == 0 {
            } else if i == 1 {
            } else {
            }
        }
    }
}

} // verus!
