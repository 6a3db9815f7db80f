use cdc_bridge::changefeed::{Cause, DecodeError, Step};
use cdc_bridge::retry::Backoff;
use cdc_bridge::BridgeEvent;

#[test]
fn backoff_starts_unused() {
    assert_eq!(Backoff::new(100, 30_000), Backoff { base_millis: 100, cap_millis: 30_000, attempt: 0 });
}

#[test]
fn pauses_double_up_to_the_cap() {
    let mut b = Backoff::new(100, 1_000);
    let pauses: Vec<u64> = (0..7).map(|_| b.next_delay()).collect();
    assert_eq!(pauses, vec![100, 200, 400, 800, 1_000, 1_000, 1_000]);
    assert_eq!(b.attempt, 7);
}

#[test]
fn pause_at_a_given_attempt() {
    let mut b = Backoff { base_millis: 3, cap_millis: u64::MAX, attempt: 10 };
    assert_eq!(b.next_delay(), 3 * 1024);
    assert_eq!(b.attempt, 11);
}

#[test]
fn cap_below_the_base_is_the_pause() {
    let mut b = Backoff::new(500, 200);
    assert_eq!(b.next_delay(), 200);
    assert_eq!(b.next_delay(), 200);
}

#[test]
fn zero_base_never_pauses() {
    let mut b = Backoff { base_millis: 0, cap_millis: 1_000, attempt: u32::MAX - 1 };
    assert_eq!(b.next_delay(), 0);
    assert_eq!(b.attempt, u32::MAX);
    assert_eq!(b.next_delay(), 0);
    assert_eq!(b.attempt, u32::MAX);
}

#[test]
fn zero_cap_never_pauses() {
    let mut b = Backoff::new(100, 0);
    assert_eq!(b.next_delay(), 0);
}

#[test]
fn large_pauses_do_not_overflow() {
    let mut b = Backoff { base_millis: u64::MAX / 2 + 1, cap_millis: u64::MAX, attempt: 1 };
    assert_eq!(b.next_delay(), u64::MAX);
    let mut c = Backoff { base_millis: 1, cap_millis: u64::MAX, attempt: 63 };
    assert_eq!(c.next_delay(), 1 << 63);
    assert_eq!(c.next_delay(), u64::MAX);
    let mut d = Backoff { base_millis: 1, cap_millis: u64::MAX, attempt: u32::MAX };
    assert_eq!(d.next_delay(), u64::MAX);
    assert_eq!(d.attempt, u32::MAX);
}

#[test]
fn reset_starts_over() {
    let mut b = Backoff::new(100, 1_000);
    b.next_delay();
    b.next_delay();
    b.reset();
    assert_eq!(b, Backoff::new(100, 1_000));
    assert_eq!(b.next_delay(), 100);
}

#[test]
fn progress_starts_the_backoff_over() {
    let mut b = Backoff { base_millis: 100, cap_millis: 1_000, attempt: 3 };
    assert_eq!(b.pause_after(&Step::Skip), None);
    assert_eq!(b.attempt, 0);
    let mut c = Backoff { base_millis: 100, cap_millis: 1_000, attempt: 3 };
    assert_eq!(c.pause_after(&Step::Forward(BridgeEvent::Stop)), None);
    assert_eq!(c.attempt, 0);
}

#[test]
fn ended_attempt_is_followed_by_a_pause() {
    let mut b = Backoff::new(100, 1_000);
    assert_eq!(b.pause_after(&Step::Reopen(Cause::ConnectionAborted)), Some(100));
    assert_eq!(b.pause_after(&Step::Reopen(Cause::TransportError)), Some(200));
    assert_eq!(b.pause_after(&Step::Reopen(Cause::EndOfResults)), Some(400));
    assert_eq!(b.pause_after(&Step::Skip), None);
    assert_eq!(b.pause_after(&Step::Reopen(Cause::UnknownShape)), Some(100));
}

#[test]
fn fatal_step_is_followed_by_no_pause() {
    let mut b = Backoff { base_millis: 100, cap_millis: 1_000, attempt: 2 };
    assert_eq!(b.pause_after(&Step::Abort(DecodeError::InvalidKey)), None);
    assert_eq!(b.attempt, 2);
}
