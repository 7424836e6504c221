use vstd::prelude::*;

verus! {

// ---------------------------------------------------------------------------
// Submission driver
//
// Submitting a transaction is a bounded-retry protocol: a preflight rejection
// is terminal at once, any other failure is transient and retried with a
// fresh attempt, up to a fixed total of attempts. The driver is an explicit
// state machine; the caller performs one submission per `InFlight` state and
// reports what came back.
// ---------------------------------------------------------------------------

/// Total attempts allowed, the first one included.
pub const MAX_SUBMIT_ATTEMPTS: u8 = 10;

#[derive(Clone, Copy, PartialEq, Eq, Structural, Debug)]
pub enum SubmitState {
    /// Attempt number `attempt` is to be (or being) submitted.
    InFlight { attempt: u8 },
    /// Confirmed after `attempts` submissions.
    Succeeded { attempts: u8 },
    /// The ledger rejected the transaction before execution; never retried.
    PreflightRejected { attempts: u8 },
    /// Every allowed attempt failed transiently.
    RetriesExhausted,
}

#[derive(Clone, Copy, PartialEq, Eq, Structural, Debug)]
pub enum SubmitEvent {
    /// The transaction was submitted and confirmed.
    Confirmed,
    /// The ledger predicted failure and rejected the submission outright.
    PreflightRejection,
    /// Any other submission failure: network trouble, a stale block reference.
    TransientFailure,
}

/// A state the driver can actually be in.
pub open spec fn submit_state_wf(s: SubmitState) -> bool {
    match s {
        SubmitState::InFlight { attempt } => 1 <= attempt <= MAX_SUBMIT_ATTEMPTS,
        SubmitState::Succeeded { attempts } => 1 <= attempts <= MAX_SUBMIT_ATTEMPTS,
        SubmitState::PreflightRejected { attempts } => 1 <= attempts <= MAX_SUBMIT_ATTEMPTS,
        SubmitState::RetriesExhausted => true,
    }
}

/// A state in which no further submission happens.
pub open spec fn submit_terminal(s: SubmitState) -> bool {
    !(s is InFlight)
}

/// How one reported outcome advances the driver.
pub open spec fn submit_transition(s: SubmitState, e: SubmitEvent) -> SubmitState {
    match s {
        SubmitState::InFlight { attempt } => match e {
            SubmitEvent::Confirmed => SubmitState::Succeeded { attempts: attempt },
            SubmitEvent::PreflightRejection => SubmitState::PreflightRejected { attempts: attempt },
            SubmitEvent::TransientFailure => if attempt >= MAX_SUBMIT_ATTEMPTS {
                SubmitState::RetriesExhausted
            } else {
                SubmitState::InFlight { attempt: (attempt + 1) as u8 }
            },
        },
        _ => s,
    }
}

/// The driver's first state: about to make attempt 1.
pub fn submit_start() -> (s: SubmitState)
    ensures
        s == (SubmitState::InFlight { attempt: 1u8 }),
        submit_state_wf(s),
{
    SubmitState::InFlight { attempt: 1 }
}

/// Advances the driver by one reported outcome.
pub fn submit_step(s: SubmitState, e: SubmitEvent) -> (next: SubmitState)
    requires
        submit_state_wf(s),
    ensures
        next == submit_transition(s, e),
        submit_state_wf(next),
{
    match s {
        SubmitState::InFlight { attempt } => match e {
            SubmitEvent::Confirmed => SubmitState::Succeeded { attempts: attempt },
            SubmitEvent::PreflightRejection => SubmitState::PreflightRejected { attempts: attempt },
            SubmitEvent::TransientFailure => if attempt >= MAX_SUBMIT_ATTEMPTS {
                SubmitState::RetriesExhausted
            } else {
                SubmitState::InFlight { attempt: attempt + 1 }
            },
        },
        _ => s,
    }
}

/// Whether the driver is done.
pub fn submit_is_terminal(s: &SubmitState) -> (r: bool)
    ensures
        r == submit_terminal(*s),
{
    !matches!(s, SubmitState::InFlight { .. })
}

/// The driver run over a whole sequence of reported outcomes, starting in
/// `s`; outcomes reported after a terminal state change nothing.
pub open spec fn submit_run_from(s: SubmitState, events: Seq<SubmitEvent>) -> SubmitState
    decreases events.len(),
{
    if events.len() == 0 {
        s
    } else {
        submit_run_from(submit_transition(s, events[0]), events.skip(1))
    }
}

/// The driver run from its first state.
pub open spec fn submit_run(events: Seq<SubmitEvent>) -> SubmitState {
    submit_run_from(SubmitState::InFlight { attempt: 1u8 }, events)
}

/// A terminal state absorbs every later event.
pub proof fn lemma_submit_terminal_absorbs(s: SubmitState, events: Seq<SubmitEvent>)
    requires
        submit_terminal(s),
    ensures
        submit_run_from(s, events) == s,
    decreases events.len(),
{
    if events.len() > 0 {
        lemma_submit_terminal_absorbs(s, events.skip(1));
    }
}

/// A preflight rejection on the first attempt is terminal at once: the run
/// ends rejected with exactly one attempt made, whatever would have followed.
pub proof fn lemma_preflight_first_attempt_terminal(events: Seq<SubmitEvent>)
    requires
        events.len() >= 1,
        events[0] == SubmitEvent::PreflightRejection,
    ensures
        submit_run(events) == (SubmitState::PreflightRejected { attempts: 1u8 }),
{
    lemma_submit_terminal_absorbs(
        SubmitState::PreflightRejected { attempts: 1u8 },
        events.skip(1),
    );
}

/// After `k` leading transient failures, and fewer than the bound, the driver
/// is in flight on attempt `k + 1` with the remaining events ahead of it.
proof fn lemma_transient_prefix(events: Seq<SubmitEvent>, k: int)
    requires
        0 <= k <= events.len(),
        k < MAX_SUBMIT_ATTEMPTS,
        forall|i: int| 0 <= i < k ==> events[i] == SubmitEvent::TransientFailure,
    ensures
        submit_run(events) == submit_run_from(
            SubmitState::InFlight { attempt: (k + 1) as u8 },
            events.skip(k),
        ),
    decreases k,
{
    if k > 0 {
        lemma_transient_prefix(events, k - 1);
        assert(events.skip(k - 1)[0] == SubmitEvent::TransientFailure);
        assert(events.skip(k - 1).skip(1) =~= events.skip(k));
    } else {
        assert(events.skip(0) =~= events);
    }
}

/// Transient failures on every attempt but the last, then a confirmation:
/// the run succeeds, with the full count of attempts recorded.
pub proof fn lemma_transients_then_success(events: Seq<SubmitEvent>)
    requires
        events.len() >= MAX_SUBMIT_ATTEMPTS,
        forall|i: int| 0 <= i < MAX_SUBMIT_ATTEMPTS - 1 ==> events[i]
            == SubmitEvent::TransientFailure,
        events[MAX_SUBMIT_ATTEMPTS - 1] == SubmitEvent::Confirmed,
    ensures
        submit_run(events) == (SubmitState::Succeeded { attempts: MAX_SUBMIT_ATTEMPTS }),
{
    lemma_transient_prefix(events, MAX_SUBMIT_ATTEMPTS - 1);
    assert(events.skip(MAX_SUBMIT_ATTEMPTS - 1)[0] == SubmitEvent::Confirmed);
    lemma_submit_terminal_absorbs(
        SubmitState::Succeeded { attempts: MAX_SUBMIT_ATTEMPTS },
        events.skip(MAX_SUBMIT_ATTEMPTS - 1).skip(1),
    );
}

/// A transient failure on every allowed attempt exhausts the retry bound.
pub proof fn lemma_transients_exhaust(events: Seq<SubmitEvent>)
    requires
        events.len() >= MAX_SUBMIT_ATTEMPTS,
        forall|i: int| 0 <= i < MAX_SUBMIT_ATTEMPTS ==> events[i] == SubmitEvent::TransientFailure,
    ensures
        submit_run(events) == SubmitState::RetriesExhausted,
{
    lemma_transient_prefix(events, MAX_SUBMIT_ATTEMPTS - 1);
    assert(events.skip(MAX_SUBMIT_ATTEMPTS - 1)[0] == SubmitEvent::TransientFailure);
    lemma_submit_terminal_absorbs(
        SubmitState::RetriesExhausted,
        events.skip(MAX_SUBMIT_ATTEMPTS - 1).skip(1),
    );
}

} // verus!
