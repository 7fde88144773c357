//! The extraction retry loop, as a state machine over classified
//! responses: each answer of the service either stops the loop (full
//! hold, or nothing to extract) or names how long to wait before the
//! next attempt. The retry has no attempt cap: every non-terminal
//! response leads to another attempt after a wait.

use vstd::prelude::*;

verus! {

/// Status of a successful extraction response.
pub const STATUS_CREATED: u16 = 201;

/// Status of an extraction rejected as impossible at the current
/// location; terminal for this cycle.
pub const STATUS_BAD_REQUEST: u16 = 400;

/// Status of an extraction rejected because a cooldown is still running.
pub const STATUS_CONFLICT: u16 = 409;

/// Fixed backoff, in seconds, before retrying after an unexpected status.
pub const UNEXPECTED_BACKOFF_SECONDS: u64 = 75;

/// How a raw HTTP status sorts into the extraction protocol.
#[derive(Clone, Copy, PartialEq, Eq, Structural, Debug)]
pub enum ExtractResponseKind {
    /// 201: the extraction succeeded and the body carries yield, cooldown
    /// and cargo.
    Created,
    /// 409: a cooldown was already running; the error body carries the
    /// remaining seconds.
    CooldownConflict,
    /// 400: nothing can be extracted here.
    BadRequest,
    /// Any other status.
    Unexpected,
}

/// Sorts the status of an extraction response into the protocol's cases.
pub fn classify_extract_status(status: u16) -> (k: ExtractResponseKind)
    ensures
        k == spec_classify_extract_status(status),
{
    if status == STATUS_CREATED {
        ExtractResponseKind::Created
    } else if status == STATUS_CONFLICT {
        ExtractResponseKind::CooldownConflict
    } else if status == STATUS_BAD_REQUEST {
        ExtractResponseKind::BadRequest
    } else {
        ExtractResponseKind::Unexpected
    }
}

/// The classification [`classify_extract_status`] implements.
pub open spec fn spec_classify_extract_status(status: u16) -> ExtractResponseKind {
    if status == STATUS_CREATED {
        ExtractResponseKind::Created
    } else if status == STATUS_CONFLICT {
        ExtractResponseKind::CooldownConflict
    } else if status == STATUS_BAD_REQUEST {
        ExtractResponseKind::BadRequest
    } else {
        ExtractResponseKind::Unexpected
    }
}

/// One extraction response, reduced to what the retry decision reads.
#[derive(Clone, Copy, PartialEq, Eq, Structural, Debug)]
pub enum ExtractEvent {
    /// The extraction succeeded; the cooldown and the new fill level came
    /// with the response.
    Created { cooldown_remaining: u8, cargo_units: i8, cargo_capacity: i8 },
    /// The extraction was rejected: a cooldown is still running for this
    /// many more seconds.
    CooldownConflict { remaining: u8 },
    /// The extraction is impossible at the current location.
    BadRequest,
    /// Any other status.
    Unexpected { status: u16 },
}

/// What the extraction loop does after one response.
#[derive(Clone, Copy, PartialEq, Eq, Structural, Debug)]
pub enum ExtractAction {
    /// The hold is full: leave the loop, extraction is complete.
    StopFull,
    /// The response was terminal: leave the loop without error.
    StopTerminal,
    /// Sleep this many seconds, then attempt another extraction.
    WaitRetry { seconds: u64 },
}

/// The decision [`extract_step`] implements.
pub open spec fn spec_extract_step(e: ExtractEvent) -> ExtractAction {
    match e {
        ExtractEvent::Created { cooldown_remaining, cargo_units, cargo_capacity } => {
            if cargo_units == cargo_capacity {
                ExtractAction::StopFull
            } else {
                ExtractAction::WaitRetry { seconds: cooldown_remaining as u64 }
            }
        },
        ExtractEvent::CooldownConflict { remaining } => ExtractAction::WaitRetry {
            seconds: remaining as u64,
        },
        ExtractEvent::BadRequest => ExtractAction::StopTerminal,
        ExtractEvent::Unexpected { .. } => ExtractAction::WaitRetry {
            seconds: UNEXPECTED_BACKOFF_SECONDS,
        },
    }
}

/// Decides what the extraction loop does after one response: stop when
/// the hold is full or the response is terminal, otherwise wait for the
/// reported cooldown (or the fixed backoff) and retry.
pub fn extract_step(e: ExtractEvent) -> (a: ExtractAction)
    ensures
        a == spec_extract_step(e),
{
    match e {
        ExtractEvent::Created { cooldown_remaining, cargo_units, cargo_capacity } => {
            if cargo_units == cargo_capacity {
                ExtractAction::StopFull
            } else {
                ExtractAction::WaitRetry { seconds: cooldown_remaining as u64 }
            }
        },
        ExtractEvent::CooldownConflict { remaining } => ExtractAction::WaitRetry {
            seconds: remaining as u64,
        },
        ExtractEvent::BadRequest => ExtractAction::StopTerminal,
        ExtractEvent::Unexpected { .. } => ExtractAction::WaitRetry {
            seconds: UNEXPECTED_BACKOFF_SECONDS,
        },
    }
}

/// The actions an extraction loop takes on a sequence of responses: one
/// action per response, up to and including the first stop.
pub open spec fn spec_extract_run(events: Seq<ExtractEvent>) -> Seq<ExtractAction>
    decreases events.len(),
{
    if events.len() == 0 {
        Seq::empty()
    } else {
        let a = spec_extract_step(events[0]);
        if a is WaitRetry {
            seq![a] + spec_extract_run(events.skip(1))
        } else {
            seq![a]
        }
    }
}

/// Runs the extraction loop over a sequence of responses, one action per
/// response; the run ends at the first stopping action, and no response
/// after that point is looked at.
pub fn extract_run(events: &Vec<ExtractEvent>) -> (acts: Vec<ExtractAction>)
    ensures
        acts@ == spec_extract_run(events@),
{
    let mut acts: Vec<ExtractAction> = Vec::new();
    let n = events.len();
    proof {
        assert(events@.skip(0) =~= events@);
    }
    let mut i: usize = 0;
    while i < n
        invariant_except_break
            0 <= i <= n,
            n == events@.len(),
            spec_extract_run(events@) == acts@ + spec_extract_run(events@.skip(i as int)),
            forall|j: int| 0 <= j < acts@.len() ==> acts@[j] is WaitRetry,
        ensures
            acts@ == spec_extract_run(events@),
        decreases n - i,
    {
        let ghost prev = acts@;
        proof {
            assert(events@.skip(i as int)[0] == events@[i as int]);
            assert(events@.skip(i as int).skip(1) =~= events@.skip(i as int + 1));
        }
        let a = extract_step(events[i]);
        acts.push(a);
        proof {
            assert(acts@ =~= prev + seq![a]);
        }
        match a {
            ExtractAction::WaitRetry { .. } => {
                proof {
                    assert((prev + seq![a]) + spec_extract_run(events@.skip(i as int + 1)) =~= prev
                        + (seq![a] + spec_extract_run(events@.skip(i as int + 1))));
                }
                i += 1;
            },
            _ => {
                proof {
                    assert(spec_extract_run(events@.skip(i as int)) =~= seq![a]);
                }
                break;
            },
        }
    }
    proof {
        if i == n {
            assert(events@.skip(n as int) =~= Seq::<ExtractEvent>::empty());
            assert(acts@ + spec_extract_run(events@.skip(n as int)) =~= acts@);
        }
    }
    acts
}

/// Law: an extraction run answers each response it looks at with the
/// decision for that response, looks at no response past the first stop,
/// and every action before the last one is a wait-and-retry.
pub proof fn lemma_extract_run_shape(events: Seq<ExtractEvent>)
    ensures
        spec_extract_run(events).len() <= events.len(),
        events.len() > 0 ==> spec_extract_run(events).len() > 0,
        forall|i: int|
            0 <= i < spec_extract_run(events).len() ==> spec_extract_run(events)[i]
                == spec_extract_step(events[i]),
        forall|i: int|
            0 <= i < spec_extract_run(events).len() - 1 ==> spec_extract_run(events)[i]
                is WaitRetry,
    decreases events.len(),
{
    if events.len() > 0 {
        let a = spec_extract_step(events[0]);
        if a is WaitRetry {
            lemma_extract_run_shape(events.skip(1));
            let rest = spec_extract_run(events.skip(1));
            assert forall|i: int|
                0 <= i < spec_extract_run(events).len() implies spec_extract_run(events)[i]
                == spec_extract_step(events[i]) by {
                if i > 0 {
                    assert(events.skip(1)[i - 1] == events[i]);
                    assert(spec_extract_run(events)[i] == rest[i - 1]);
                }
            }
            assert forall|i: int|
                0 <= i < spec_extract_run(events).len() - 1 implies spec_extract_run(events)[i]
                is WaitRetry by {
                if i > 0 {
                    assert(spec_extract_run(events)[i] == rest[i - 1]);
                }
            }
        }
    }
}

/// Law: the loop runs up to exactly the first stopping response: when
/// every response before index `k` asks for a wait-and-retry and the
/// response at `k` stops the loop — a full hold, or a terminal status —
/// the run holds exactly `k + 1` actions, so the responses after `k` are
/// never requested.
pub proof fn lemma_extract_run_reaches_first_stop(events: Seq<ExtractEvent>, k: int)
    requires
        0 <= k < events.len(),
        forall|j: int| 0 <= j < k ==> spec_extract_step(#[trigger] events[j]) is WaitRetry,
        !(spec_extract_step(events[k]) is WaitRetry),
    ensures
        spec_extract_run(events).len() == k + 1,
    decreases events.len(),
{
    if k > 0 {
        assert(spec_extract_step(events[0]) is WaitRetry);
        assert forall|j: int|
            0 <= j < k - 1 implies spec_extract_step(#[trigger] events.skip(1)[j])
            is WaitRetry by {
            assert(events.skip(1)[j] == events[j + 1]);
        }
        assert(events.skip(1)[k - 1] == events[k]);
        lemma_extract_run_reaches_first_stop(events.skip(1), k - 1);
    }
}

/// Law: once the loop stops — in particular once a response reports a
/// full hold — it issues no further attempt: a stopping action is always
/// the last action of a run.
pub proof fn lemma_extract_stop_is_last(events: Seq<ExtractEvent>, i: int)
    requires
        0 <= i < spec_extract_run(events).len(),
        !(spec_extract_run(events)[i] is WaitRetry),
    ensures
        i == spec_extract_run(events).len() - 1,
{
    lemma_extract_run_shape(events);
}

} // verus!
