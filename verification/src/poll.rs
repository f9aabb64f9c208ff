//! Decisions of an event poll: take the next queued event, waiting up to a timeout.
//!
//! The caller of `poll_step` performs the actions: it locks the event queue and tries to
//! take an event, or sleeps for a millisecond, and hands back what happened.
use vstd::prelude::*;
use vstd::utf8::encode_utf8;
use crate::outcome::{ErrorSlot, is_nul_free, nul_free};

verus! {

/// What one attempt to take an event from the queue found.
#[derive(Debug, PartialEq, Eq)]
pub struct PollAttempt {
    /// The queue's lock was poisoned by a panicking holder.
    pub lock_poisoned: bool,
    /// The event taken, if the queue held one. Nothing is taken through a poisoned lock
    /// unless the action asked for it.
    pub received: Option<String>,
}

/// What the poller observed since its last action.
#[derive(Debug, PartialEq, Eq)]
pub enum PollEvent {
    /// An attempt to take an event finished.
    Attempted(PollAttempt),
    /// A sleep finished, this many nanoseconds after the poll began.
    Woke { elapsed_nanos: u64 },
}

/// The result handed to the C caller: the event text, and what goes in the error slot.
#[derive(Debug, PartialEq, Eq)]
pub struct PollOutcome {
    pub event: Option<String>,
    pub error: ErrorSlot,
}

/// What the poller does next.
#[derive(Debug, PartialEq, Eq)]
pub enum PollAction {
    /// Stop and return this result.
    Finish(PollOutcome),
    /// Try to take an event; through a poisoned lock too when `take_if_poisoned`.
    Attempt { take_if_poisoned: bool },
    /// Sleep for a millisecond.
    Sleep,
}

/// The error reported when the event queue's lock is poisoned.
pub open spec fn poisoned_message() -> Seq<char> {
    "event receiver lock poisoned"@
}

/// The error reported when an event cannot be handed to C as a NUL-terminated string.
pub open spec fn unencodable_message() -> Seq<char> {
    "failed to encode event as c string"@
}

/// The result of handing `received` to the caller: the event when C can hold it (the
/// error slot untouched), else no event and an error; no event and an untouched slot
/// when nothing was received.
pub open spec fn spec_deliver(received: Option<String>, outcome: PollOutcome) -> bool {
    match received {
        None => outcome.event is None && outcome.error is Untouched,
        Some(text) => if nul_free(text@) {
            outcome.event == Some(text) && outcome.error is Untouched
        } else {
            outcome.event is None && is_message(outcome.error, unencodable_message())
        },
    }
}

/// Whether the error slot is set to a message with this text.
pub open spec fn is_message(slot: ErrorSlot, text: Seq<char>) -> bool {
    slot matches ErrorSlot::Message(m) && m@ == text
}

/// The event an action hands to the caller, if any.
pub open spec fn delivered(action: PollAction) -> Option<String> {
    match action {
        PollAction::Finish(outcome) => outcome.event,
        _ => None,
    }
}

/// The poll's deadline in nanoseconds after it began.
pub open spec fn deadline_nanos(timeout_ms: u32) -> int {
    timeout_ms * 1_000_000
}

/// The action that follows `event` in a poll with timeout `timeout_ms` milliseconds.
pub open spec fn spec_poll_step(timeout_ms: u32, event: PollEvent, action: PollAction) -> bool {
    match event {
        PollEvent::Attempted(attempt) => if timeout_ms == 0 {
            if attempt.lock_poisoned {
                action matches PollAction::Finish(outcome) && outcome.event is None
                    && is_message(outcome.error, poisoned_message())
            } else {
                action matches PollAction::Finish(outcome) && spec_deliver(attempt.received, outcome)
            }
        } else if attempt.received is Some || attempt.lock_poisoned {
            action matches PollAction::Finish(outcome) && spec_deliver(attempt.received, outcome)
        } else {
            action is Sleep
        },
        PollEvent::Woke { elapsed_nanos } => if elapsed_nanos >= deadline_nanos(timeout_ms) {
            action matches PollAction::Finish(outcome) && spec_deliver(None, outcome)
        } else {
            action == (PollAction::Attempt { take_if_poisoned: timeout_ms != 0 })
        },
    }
}

/// The first action of a poll with timeout `timeout_ms`: an attempt to take an event,
/// which with a zero timeout does not go through a poisoned lock.
pub fn poll_start(timeout_ms: u32) -> (action: PollAction)
    ensures
        action == (PollAction::Attempt { take_if_poisoned: timeout_ms != 0 }),
{
    PollAction::Attempt { take_if_poisoned: timeout_ms != 0 }
}

/// Hands `received` to the caller (see `spec_deliver`).
pub fn deliver(received: Option<String>) -> (outcome: PollOutcome)
    ensures
        spec_deliver(received, outcome),
        match received {
            None => outcome.event is None && outcome.error is Untouched,
            Some(text) => if !encode_utf8(text@).contains(0u8) {
                outcome.event == Some(text) && outcome.error is Untouched
            } else {
                outcome.error matches ErrorSlot::Message(m) && m@
                    == "failed to encode event as c string"@ && outcome.event is None
            },
        },
{
    match received {
        None => PollOutcome { event: None, error: ErrorSlot::Untouched },
        Some(text) => {
            if is_nul_free(text.as_str()) {
                PollOutcome { event: Some(text), error: ErrorSlot::Untouched }
            } else {
                PollOutcome {
                    event: None,
                    error: ErrorSlot::Message("failed to encode event as c string".to_owned()),
                }
            }
        },
    }
}

/// Decides what a poll with timeout `timeout_ms` does after `event`. With a zero timeout
/// it makes one attempt and finishes; otherwise it sleeps between attempts until an event
/// arrives, the lock turns out poisoned, or the deadline passes.
pub fn poll_step(timeout_ms: u32, event: PollEvent) -> (action: PollAction)
    ensures
        spec_poll_step(timeout_ms, event, action),
        delivered(action) is Some ==> (event matches PollEvent::Attempted(a) && a.received
            == delivered(action)),
        timeout_ms == 0 && event is Attempted ==> action is Finish,
{
    match event {
        PollEvent::Attempted(attempt) => {
            if timeout_ms == 0 {
                if attempt.lock_poisoned {
                    PollAction::Finish(PollOutcome {
                        event: None,
                        error: ErrorSlot::Message("event receiver lock poisoned".to_owned()),
                    })
                } else {
                    PollAction::Finish(deliver(attempt.received))
                }
            } else if attempt.received.is_some() || attempt.lock_poisoned {
                PollAction::Finish(deliver(attempt.received))
            } else {
                PollAction::Sleep
            }
        },
        PollEvent::Woke { elapsed_nanos } => {
            let deadline: u64 = (timeout_ms as u64) * 1_000_000u64;
            if elapsed_nanos >= deadline {
                PollAction::Finish(deliver(None))
            } else {
                PollAction::Attempt { take_if_poisoned: timeout_ms != 0 }
            }
        },
    }
}

/// Every received event whose UTF-8 bytes hold no 0 reaches the caller unchanged, with the
/// error slot untouched; an event holding a 0 byte is replaced by the encoding error.
pub proof fn law_events_without_nul_are_delivered(text: String, outcome: PollOutcome)
    requires
        spec_deliver(Some(text), outcome),
    ensures
        !encode_utf8(text@).contains(0u8) ==> outcome.event == Some(text) && outcome.error is Untouched,
        encode_utf8(text@).contains(0u8) ==> outcome.event is None && is_message(
            outcome.error,
            "failed to encode event as c string"@,
        ),
{
}

/// Nothing received means nothing delivered and no error.
pub proof fn law_nothing_received_nothing_delivered(outcome: PollOutcome)
    requires
        spec_deliver(None, outcome),
    ensures
        outcome.event is None && outcome.error is Untouched,
{
}

/// A poll that wakes at or after `timeout_ms` milliseconds ends with no event and no
/// error; one that wakes earlier tries again.
pub proof fn law_poll_deadline(timeout_ms: u32, elapsed_nanos: u64, action: PollAction)
    requires
        spec_poll_step(timeout_ms, PollEvent::Woke { elapsed_nanos }, action),
    ensures
        elapsed_nanos >= timeout_ms * 1_000_000int ==> (action matches PollAction::Finish(o)
            && o.event is None && o.error is Untouched),
        elapsed_nanos < timeout_ms * 1_000_000int ==> action == (PollAction::Attempt {
            take_if_poisoned: timeout_ms != 0,
        }),
{
}

/// With a zero timeout a poll finishes after its one attempt: with the event found (when C
/// can hold it), with nothing, or with the poisoned-lock error.
pub proof fn law_zero_timeout_finishes_at_once(attempt: PollAttempt, action: PollAction)
    requires
        spec_poll_step(0, PollEvent::Attempted(attempt), action),
    ensures
        attempt.lock_poisoned ==> (action matches PollAction::Finish(o) && o.event is None
            && is_message(o.error, "event receiver lock poisoned"@)),
        !attempt.lock_poisoned ==> (action matches PollAction::Finish(o) && spec_deliver(
            attempt.received,
            o,
        )),
{
}

/// With a timeout, an attempt that finds an event finishes with it (when C can hold it);
/// one that finds nothing through a sound lock sleeps and tries again.
pub proof fn law_timeout_waits_for_events(timeout_ms: u32, attempt: PollAttempt, action: PollAction)
    requires
        timeout_ms != 0,
        spec_poll_step(timeout_ms, PollEvent::Attempted(attempt), action),
    ensures
        attempt.received is Some ==> (action matches PollAction::Finish(o) && spec_deliver(
            attempt.received,
            o,
        )),
        attempt.received is None && !attempt.lock_poisoned ==> action is Sleep,
        attempt.received is None && attempt.lock_poisoned ==> (action matches PollAction::Finish(o)
            && o.event is None && o.error is Untouched),
{
}

} // verus!
