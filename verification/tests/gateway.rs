//! The admission gate end to end: ban bookkeeping, rate escalation,
//! bucket resets, and the documented scenarios.

use security_gate::addr::{parse_ipv4, ClientAddr};
use security_gate::admission::{banned_message, Admission, AdmissionPipeline};
use security_gate::{REQUEST_LIMIT, WINDOW_WIDTH_SECONDS};

fn probe_addr() -> ClientAddr {
    parse_ipv4("203.0.113.7").expect("a valid dotted quad")
}

#[test]
fn ban_is_visible_to_the_next_check() {
    let mut gate = AdmissionPipeline::new(10, 40);
    let a = probe_addr();
    assert!(!gate.is_banned(a));
    assert!(gate.ban(a));
    assert!(gate.is_banned(a));
}

#[test]
fn ban_stays_until_unban() {
    let mut gate = AdmissionPipeline::new(10, 40);
    let a = probe_addr();
    let b = parse_ipv4("198.51.100.23").unwrap();
    gate.ban(a);
    // Unrelated traffic and admin work does not lift the ban.
    gate.ban(b);
    gate.screen(Some(b), 3);
    gate.unban(b);
    gate.screen(Some(a), 17);
    assert!(gate.is_banned(a));
    // Only the matching unban lifts it.
    assert!(gate.unban(a));
    assert!(!gate.is_banned(a));
}

#[test]
fn ban_twice_is_idempotent() {
    let mut gate = AdmissionPipeline::new(10, 40);
    let a = probe_addr();
    assert!(gate.ban(a));
    // The second ban reports "already banned" and changes nothing.
    assert!(!gate.ban(a));
    assert!(gate.is_banned(a));
}

#[test]
fn unban_of_unbanned_address_is_a_noop() {
    let mut gate = AdmissionPipeline::new(10, 40);
    let a = probe_addr();
    assert!(!gate.unban(a));
    assert!(!gate.is_banned(a));
}

#[test]
fn missing_client_address_is_rejected() {
    let mut gate = AdmissionPipeline::new(10, 40);
    assert_eq!(gate.screen(None, 100), Admission::Rejected);
}

#[test]
fn banned_client_is_rejected_without_counting() {
    let mut gate = AdmissionPipeline::new(10, 40);
    let a = probe_addr();
    gate.ban(a);
    for _ in 0..100 {
        assert_eq!(gate.screen(Some(a), 5), Admission::Rejected);
    }
    // After an unban the counter starts fresh: the next request is
    // admitted because none of the rejected ones were counted.
    gate.unban(a);
    assert_eq!(gate.screen(Some(a), 5), Admission::Admitted);
}

#[test]
fn escalation_is_deterministic_at_the_threshold() {
    // Threshold 3 for a small exhaustive run: requests 1..=3 pass,
    // request 4 trips the ban, request 5 is short-circuited.
    let mut gate = AdmissionPipeline::new(10, 3);
    let a = probe_addr();
    for _ in 0..3 {
        assert_eq!(gate.screen(Some(a), 42), Admission::Admitted);
    }
    assert!(!gate.is_banned(a));
    assert_eq!(gate.screen(Some(a), 42), Admission::Rejected);
    assert!(gate.is_banned(a));
    assert_eq!(gate.screen(Some(a), 42), Admission::Rejected);
}

#[test]
fn bucket_reset_starts_the_count_at_one() {
    let mut gate = AdmissionPipeline::new(10, 3);
    let a = probe_addr();
    // Reach the threshold in the bucket [40, 50).
    for _ in 0..3 {
        assert_eq!(gate.screen(Some(a), 41), Admission::Admitted);
    }
    // The next bucket starts over: three more requests pass before the
    // fourth in that bucket trips the ban.
    for _ in 0..3 {
        assert_eq!(gate.screen(Some(a), 52), Admission::Admitted);
    }
    assert_eq!(gate.screen(Some(a), 55), Admission::Rejected);
    assert!(gate.is_banned(a));
}

#[test]
fn auto_ban_scenario_at_the_reference_settings() {
    // W = 10 s, T = 40: 41 requests from 203.0.113.7 inside one
    // bucket; the first 40 are admitted, the 41st trips the ban, and a
    // 42nd request is answered with the banned response.
    let mut gate = AdmissionPipeline::new(WINDOW_WIDTH_SECONDS, REQUEST_LIMIT);
    let a = probe_addr();
    for k in 0..40u64 {
        let now = 1000 + (k % 10);
        assert_eq!(gate.screen(Some(a), now), Admission::Admitted);
    }
    assert!(!gate.is_banned(a));
    assert_eq!(gate.screen(Some(a), 1009), Admission::Rejected);
    assert!(gate.is_banned(a));
    assert_eq!(gate.screen(Some(a), 1012), Admission::Rejected);
    assert_eq!(banned_message(), "You are banned from this site.");
}

#[test]
fn distinct_addresses_are_counted_separately() {
    let mut gate = AdmissionPipeline::new(10, 2);
    let a = probe_addr();
    let b = parse_ipv4("198.51.100.23").unwrap();
    assert_eq!(gate.screen(Some(a), 7), Admission::Admitted);
    assert_eq!(gate.screen(Some(a), 7), Admission::Admitted);
    assert_eq!(gate.screen(Some(b), 7), Admission::Admitted);
    // Only `a` has exhausted its budget.
    assert_eq!(gate.screen(Some(a), 7), Admission::Rejected);
    assert_eq!(gate.screen(Some(b), 7), Admission::Admitted);
    assert!(gate.is_banned(a));
    assert!(!gate.is_banned(b));
}

#[test]
fn screen_now_uses_the_wall_clock() {
    let mut gate = AdmissionPipeline::new(WINDOW_WIDTH_SECONDS, REQUEST_LIMIT);
    let a = probe_addr();
    let (decision, now) = gate.screen_now(Some(a));
    assert_eq!(decision, Admission::Admitted);
    // The reading is a plausible Unix time: after 2020-01-01.
    assert!(now > 1_577_836_800);
}
