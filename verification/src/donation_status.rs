use vstd::prelude::*;

verus! {

/// All states a donation can occupy during its lifecycle.
#[derive(Debug, Clone, Copy, PartialEq, Eq, Structural)]
pub enum DonationStatus {
    /// Created locally; not yet broadcast to the network.
    Pending,
    /// Transaction submitted to the Stellar network.
    Submitted,
    /// Transaction seen on-chain; waiting for sufficient ledger closings.
    Confirming,
    /// Sufficient confirmations received; donation is finalised.
    Confirmed,
    /// Transaction failed or was rejected by the network.
    Failed,
    /// Funds returned to the donor after a failure.
    Refunded,
}

/// Events that drive the donation state machine forward.
#[derive(Debug, Clone, Copy, PartialEq, Eq, Structural)]
pub enum DonationEvent {
    /// Donor authorises and broadcasts the transaction.
    Submit,
    /// Network acknowledges the transaction; confirmation begins.
    BeginConfirmation,
    /// Enough ledger closings have passed to consider the donation confirmed.
    Confirm,
    /// The transaction was rejected or timed out.
    Fail,
    /// The funds have been returned to the donor.
    Refund,
}

/// Returned when a state transition is not permitted.
#[derive(Debug, Clone, Copy, PartialEq, Eq, Structural)]
pub enum TransitionError {
    InvalidTransition { from: DonationStatus, event: DonationEvent },
}

/// The transition table of the lifecycle:
///
/// ```text
/// Pending     --[Submit]-------------> Submitted
/// Submitted   --[BeginConfirmation]--> Confirming
/// Submitted   --[Fail]--------------> Failed
/// Confirming  --[Confirm]-----------> Confirmed
/// Confirming  --[Fail]--------------> Failed
/// Failed      --[Refund]------------> Refunded
/// ```
pub open spec fn next_status(from: DonationStatus, event: DonationEvent) -> Option<DonationStatus> {
    match (from, event) {
        (DonationStatus::Pending, DonationEvent::Submit) => Some(DonationStatus::Submitted),
        (DonationStatus::Submitted, DonationEvent::BeginConfirmation) => Some(DonationStatus::Confirming),
        (DonationStatus::Submitted, DonationEvent::Fail) => Some(DonationStatus::Failed),
        (DonationStatus::Confirming, DonationEvent::Confirm) => Some(DonationStatus::Confirmed),
        (DonationStatus::Confirming, DonationEvent::Fail) => Some(DonationStatus::Failed),
        (DonationStatus::Failed, DonationEvent::Refund) => Some(DonationStatus::Refunded),
        _ => None,
    }
}

/// The status reached by applying `events` in order, if every step is allowed.
pub open spec fn run_events(from: DonationStatus, events: Seq<DonationEvent>) -> Option<DonationStatus>
    decreases events.len(),
{
    if events.len() == 0 {
        Some(from)
    } else {
        match next_status(from, events[0]) {
            Some(mid) => run_events(mid, events.drop_first()),
            None => None,
        }
    }
}

/// How far along the lifecycle a status lies; every allowed step raises it.
pub open spec fn progress(s: DonationStatus) -> int {
    match s {
        DonationStatus::Pending => 0,
        DonationStatus::Submitted => 1,
        DonationStatus::Confirming => 2,
        DonationStatus::Confirmed => 3,
        DonationStatus::Failed => 3,
        DonationStatus::Refunded => 4,
    }
}

/// A status from which no event leads anywhere.
pub open spec fn is_terminal(s: DonationStatus) -> bool {
    forall|e: DonationEvent| #[trigger] next_status(s, e) is None
}

pub open spec fn status_name(s: DonationStatus) -> Seq<char> {
    match s {
        DonationStatus::Pending => "Pending"@,
        DonationStatus::Submitted => "Submitted"@,
        DonationStatus::Confirming => "Confirming"@,
        DonationStatus::Confirmed => "Confirmed"@,
        DonationStatus::Failed => "Failed"@,
        DonationStatus::Refunded => "Refunded"@,
    }
}

pub open spec fn event_name(e: DonationEvent) -> Seq<char> {
    match e {
        DonationEvent::Submit => "Submit"@,
        DonationEvent::BeginConfirmation => "BeginConfirmation"@,
        DonationEvent::Confirm => "Confirm"@,
        DonationEvent::Fail => "Fail"@,
        DonationEvent::Refund => "Refund"@,
    }
}

pub open spec fn transition_error_text(err: TransitionError) -> Seq<char> {
    match err {
        TransitionError::InvalidTransition { from, event } =>
            "invalid transition: cannot apply "@ + event_name(event) + " while in state "@
                + status_name(from),
    }
}

impl DonationStatus {
    /// Attempt to advance the state machine by applying `event`.
    ///
    /// Returns the new status when the table allows the step, and otherwise
    /// an error that carries the current status and the refused event.
    pub fn transition(self, event: DonationEvent) -> (r: Result<DonationStatus, TransitionError>)
        ensures
            match next_status(self, event) {
                Some(next) => r == Ok::<DonationStatus, TransitionError>(next),
                None => r == Err::<DonationStatus, TransitionError>(
                    TransitionError::InvalidTransition { from: self, event },
                ),
            },
    {
        match (self, event) {
            (DonationStatus::Pending, DonationEvent::Submit) => Ok(DonationStatus::Submitted),
            (DonationStatus::Submitted, DonationEvent::BeginConfirmation) => Ok(DonationStatus::Confirming),
            (DonationStatus::Submitted, DonationEvent::Fail) => Ok(DonationStatus::Failed),
            (DonationStatus::Confirming, DonationEvent::Confirm) => Ok(DonationStatus::Confirmed),
            (DonationStatus::Confirming, DonationEvent::Fail) => Ok(DonationStatus::Failed),
            (DonationStatus::Failed, DonationEvent::Refund) => Ok(DonationStatus::Refunded),
            _ => Err(TransitionError::InvalidTransition { from: self, event }),
        }
    }

    /// The variant's name, as `{:?}` prints it.
    pub fn name(&self) -> (r: &'static str)
        ensures
            r@ == status_name(*self),
    {
        match self {
            DonationStatus::Pending => "Pending",
            DonationStatus::Submitted => "Submitted",
            DonationStatus::Confirming => "Confirming",
            DonationStatus::Confirmed => "Confirmed",
            DonationStatus::Failed => "Failed",
            DonationStatus::Refunded => "Refunded",
        }
    }
}

impl DonationEvent {
    /// The variant's name, as `{:?}` prints it.
    pub fn name(&self) -> (r: &'static str)
        ensures
            r@ == event_name(*self),
    {
        match self {
            DonationEvent::Submit => "Submit",
            DonationEvent::BeginConfirmation => "BeginConfirmation",
            DonationEvent::Confirm => "Confirm",
            DonationEvent::Fail => "Fail",
            DonationEvent::Refund => "Refund",
        }
    }
}

impl TransitionError {
    /// The error's message:
    /// `invalid transition: cannot apply {event:?} while in state {from:?}`.
    pub fn message(&self) -> (r: String)
        ensures
            r@ == transition_error_text(*self),
    {
        match self {
            TransitionError::InvalidTransition { from, event } => {
                let mut s = "invalid transition: cannot apply ".to_string();
                s.append(event.name());
                s.append(" while in state ");
                s.append(from.name());
                s
            },
        }
    }
}

/// Every allowed step moves the donation strictly forward in its lifecycle.
pub proof fn lemma_transition_advances(from: DonationStatus, event: DonationEvent)
    requires
        next_status(from, event) is Some,
    ensures
        progress(next_status(from, event)->0) > progress(from),
{
}

/// A non-empty run of allowed steps never comes back to the status it started
/// from: the lifecycle has no cycles.
pub proof fn lemma_run_never_returns(from: DonationStatus, events: Seq<DonationEvent>)
    requires
        events.len() > 0,
        run_events(from, events) is Some,
    ensures
        progress(run_events(from, events)->0) > progress(from),
        run_events(from, events)->0 != from,
    decreases events.len(),
{
    let mid = next_status(from, events[0])->0;
    let rest = events.drop_first();
    assert(run_events(from, events) == run_events(mid, rest));
    if rest.len() > 0 {
        lemma_run_never_returns(mid, rest);
    } else {
        assert(run_events(mid, rest) == Some(mid));
    }
}

/// `Confirmed` and `Refunded` are final: no event moves a donation out of them.
pub proof fn lemma_final_states()
    ensures
        is_terminal(DonationStatus::Confirmed),
        is_terminal(DonationStatus::Refunded),
{
}

/// A donation is refunded only straight after failing, and confirmed only
/// straight after confirming.
pub proof fn lemma_refund_only_after_failure(from: DonationStatus, event: DonationEvent)
    ensures
        next_status(from, event) == Some(DonationStatus::Refunded) ==> from == DonationStatus::Failed
            && event == DonationEvent::Refund,
        next_status(from, event) == Some(DonationStatus::Confirmed) ==> from
            == DonationStatus::Confirming && event == DonationEvent::Confirm,
{
}

/// No event ever leads back to `Pending`.
pub proof fn lemma_pending_never_reentered(from: DonationStatus, event: DonationEvent)
    ensures
        next_status(from, event) != Some(DonationStatus::Pending),
{
}

} // verus!
