use codex_ffi::outcome::ErrorSlot;
use codex_ffi::poll::deliver;
use codex_ffi::poll::poll_start;
use codex_ffi::poll::poll_step;
use codex_ffi::poll::PollAction;
use codex_ffi::poll::PollAttempt;
use codex_ffi::poll::PollEvent;
use codex_ffi::poll::PollOutcome;

fn attempted(lock_poisoned: bool, received: Option<&str>) -> PollEvent {
    PollEvent::Attempted(PollAttempt { lock_poisoned, received: received.map(str::to_string) })
}

fn delivered(event: &str) -> PollAction {
    PollAction::Finish(PollOutcome { event: Some(event.to_string()), error: ErrorSlot::Untouched })
}

fn empty_handed() -> PollAction {
    PollAction::Finish(PollOutcome { event: None, error: ErrorSlot::Untouched })
}

#[test]
fn deliver_passes_events_through() {
    assert_eq!(
        deliver(Some("{\"id\":1}".to_string())),
        PollOutcome { event: Some("{\"id\":1}".to_string()), error: ErrorSlot::Untouched }
    );
    assert_eq!(deliver(None), PollOutcome { event: None, error: ErrorSlot::Untouched });
}

#[test]
fn deliver_rejects_event_with_nul() {
    assert_eq!(
        deliver(Some("a\0b".to_string())),
        PollOutcome {
            event: None,
            error: ErrorSlot::Message("failed to encode event as c string".to_string()),
        }
    );
}

#[test]
fn zero_timeout_makes_one_attempt() {
    assert_eq!(poll_step(0, attempted(false, Some("e"))), delivered("e"));
    assert_eq!(poll_step(0, attempted(false, None)), empty_handed());
    assert_eq!(
        poll_step(0, attempted(true, None)),
        PollAction::Finish(PollOutcome {
            event: None,
            error: ErrorSlot::Message("event receiver lock poisoned".to_string()),
        })
    );
}

#[test]
fn timeout_waits_between_attempts() {
    assert_eq!(poll_step(10, attempted(false, Some("e"))), delivered("e"));
    assert_eq!(poll_step(10, attempted(false, None)), PollAction::Sleep);
    assert_eq!(
        poll_step(10, PollEvent::Woke { elapsed_nanos: 9_999_999 }),
        PollAction::Attempt { take_if_poisoned: true }
    );
    assert_eq!(poll_step(10, PollEvent::Woke { elapsed_nanos: 10_000_000 }), empty_handed());
    assert_eq!(poll_step(10, PollEvent::Woke { elapsed_nanos: u64::MAX }), empty_handed());
}

#[test]
fn poisoned_lock_with_timeout_returns_what_it_holds() {
    assert_eq!(poll_step(10, attempted(true, Some("e"))), delivered("e"));
    assert_eq!(poll_step(10, attempted(true, None)), empty_handed());
}

#[test]
fn longest_timeout_deadline() {
    assert_eq!(
        poll_step(u32::MAX, PollEvent::Woke { elapsed_nanos: 4_294_967_294_999_999 }),
        PollAction::Attempt { take_if_poisoned: true }
    );
    assert_eq!(
        poll_step(u32::MAX, PollEvent::Woke { elapsed_nanos: 4_294_967_295_000_000 }),
        empty_handed()
    );
}

#[test]
fn first_attempt_respects_timeout() {
    assert_eq!(poll_start(0), PollAction::Attempt { take_if_poisoned: false });
    assert_eq!(poll_start(250), PollAction::Attempt { take_if_poisoned: true });
}
