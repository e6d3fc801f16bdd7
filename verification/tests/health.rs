use rpxy_failover::health_check::counter::ConsecutiveCounter;
use rpxy_failover::health_check::health::UpstreamHealth;

#[test]
fn initial_state_is_healthy() {
    let h = UpstreamHealth::new(3, 2);
    assert!(h.is_healthy());
}

#[test]
fn record_failures_eventually_marks_unhealthy() {
    let mut h = UpstreamHealth::new(3, 2);
    assert!(h.record(false).is_none());
    assert!(h.record(false).is_none());
    assert_eq!(h.record(false), Some(false));
    assert!(!h.is_healthy());
}

#[test]
fn record_successes_recover_from_unhealthy() {
    let mut h = UpstreamHealth::new(3, 2);
    h.record(false);
    h.record(false);
    h.record(false);
    assert!(!h.is_healthy());
    assert!(h.record(true).is_none());
    assert_eq!(h.record(true), Some(true));
    assert!(h.is_healthy());
}

#[test]
fn success_ends_a_run_of_failures() {
    let mut h = UpstreamHealth::new(3, 2);
    assert_eq!(h.record(false), None);
    assert_eq!(h.record(false), None);
    assert_eq!(h.record(true), None);
    assert_eq!(h.record(false), None);
    assert_eq!(h.record(false), None);
    assert!(h.is_healthy());
    assert_eq!(h.record(false), Some(false));
}

#[test]
fn failure_ends_a_run_of_successes() {
    let mut h = UpstreamHealth::new(1, 2);
    assert_eq!(h.record(false), Some(false));
    assert_eq!(h.record(true), None);
    assert_eq!(h.record(false), None);
    assert_eq!(h.record(true), None);
    assert!(!h.is_healthy());
    assert_eq!(h.record(true), Some(true));
}

#[test]
fn state_is_reported_once() {
    let mut h = UpstreamHealth::new(2, 2);
    assert_eq!(h.record(true), None);
    assert_eq!(h.record(true), None);
    assert_eq!(h.record(false), None);
    assert_eq!(h.record(false), Some(false));
    assert_eq!(h.record(false), None);
    assert_eq!(h.record(false), None);
    assert!(!h.is_healthy());
}

#[test]
fn zero_thresholds_act_as_one() {
    let mut h = UpstreamHealth::new(0, 0);
    assert!(h.is_healthy());
    assert_eq!(h.record(true), None);
    assert_eq!(h.record(false), Some(false));
    assert_eq!(h.record(true), Some(true));
}

#[test]
fn largest_threshold_does_not_overflow() {
    let mut h = UpstreamHealth::new(u32::MAX, u32::MAX);
    for _ in 0..1000 {
        assert_eq!(h.record(false), None);
    }
    assert!(h.is_healthy());
}

#[test]
fn set_overrides_the_status_only() {
    let mut h = UpstreamHealth::new(2, 1);
    h.set(false);
    assert!(!h.is_healthy());
    // The counter still counts from the healthy state.
    assert_eq!(h.record(true), None);
    assert!(!h.is_healthy());
    assert_eq!(h.record(false), None);
    assert_eq!(h.record(false), Some(false));
    assert_eq!(h.record(true), Some(true));
    assert!(h.is_healthy());
}

#[test]
fn counter_reports_changes() {
    let mut c = ConsecutiveCounter::new(2, 3);
    assert_eq!(c.record(false), None);
    assert_eq!(c.record(false), Some(false));
    assert_eq!(c.record(true), None);
    assert_eq!(c.record(true), None);
    assert_eq!(c.record(true), Some(true));
}
