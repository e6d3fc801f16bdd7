use std::sync::Arc;

use rpxy_failover::context::FailoverContext;
use rpxy_failover::decimal::push_decimal;
use rpxy_failover::failover::{
    check_statuses, AppFallbackInput, FailoverConfig, PassiveHealthInput, StatusClassification,
    DEFAULT_UNHEALTHY_STATUSES,
};
use rpxy_failover::globals::{AppFallbackRoute, PassiveHealthRoute};

fn ph(statuses: Option<Vec<u16>>, on_connection_failure: Option<bool>) -> PassiveHealthInput {
    PassiveHealthInput {
        unhealthy_statuses: statuses,
        on_connection_failure,
    }
}

fn af(statuses: Vec<u16>) -> AppFallbackInput {
    AppFallbackInput {
        fallback_on_statuses: statuses,
    }
}

#[test]
fn build_returns_none_when_neither_set() {
    assert!(FailoverConfig::build(None, None, None, None, 3).is_none());
}

#[test]
fn build_passive_health_defaults() {
    let cfg = FailoverConfig::build(Some(ph(None, None)), None, None, None, 3).unwrap();
    let p = cfg.passive_health.unwrap();
    assert_eq!(p.unhealthy_statuses.len(), 3);
    assert!(p.unhealthy_statuses.contains(&502));
    assert!(p.unhealthy_statuses.contains(&503));
    assert!(p.unhealthy_statuses.contains(&504));
    assert!(p.on_connection_failure);
    assert!(cfg.app_fallback.is_none());
    assert_eq!(cfg.max_retries, 2);
    assert!(!cfg.retry_non_idempotent);
}

#[test]
fn build_passive_health_overrides() {
    let cfg = FailoverConfig::build(Some(ph(Some(vec![500]), Some(false))), None, Some(5), Some(true), 3).unwrap();
    let p = cfg.passive_health.unwrap();
    assert!(p.unhealthy_statuses.contains(&500));
    assert!(!p.on_connection_failure);
    assert_eq!(cfg.max_retries, 5);
    assert!(cfg.retry_non_idempotent);
}

#[test]
fn build_app_fallback_only() {
    let cfg = FailoverConfig::build(None, Some(af(vec![404, 501])), None, None, 2).unwrap();
    assert!(cfg.passive_health.is_none());
    let a = cfg.app_fallback.unwrap();
    assert_eq!(a.fallback_on_statuses.len(), 2);
    assert!(a.fallback_on_statuses.contains(&404));
}

#[test]
fn build_both_sections() {
    let cfg = FailoverConfig::build(Some(ph(Some(vec![502]), None)), Some(af(vec![404])), None, None, 3).unwrap();
    assert!(cfg.passive_health.is_some());
    assert!(cfg.app_fallback.is_some());
}

#[test]
fn validate_rejects_out_of_range() {
    let cfg = FailoverConfig::build(Some(ph(Some(vec![200]), None)), None, None, None, 2).unwrap();
    assert!(cfg.validate().is_err());

    let cfg = FailoverConfig::build(None, Some(af(vec![600])), None, None, 2).unwrap();
    assert!(cfg.validate().is_err());

    let cfg = FailoverConfig::build(Some(ph(Some(vec![502]), None)), Some(af(vec![404])), None, None, 2).unwrap();
    assert!(cfg.validate().is_ok());
}

#[test]
fn classify_status_health_failure_takes_priority() {
    // Same status in both lists: passive_health wins because health observation is the
    // stronger signal (we want it recorded even if it's also in app_fallback).
    let cfg = FailoverConfig::build(Some(ph(Some(vec![502]), None)), Some(af(vec![502])), None, None, 2).unwrap();
    assert_eq!(cfg.classify_status(502), StatusClassification::HealthFailure);
}

#[test]
fn classify_status_routes_correctly() {
    let cfg = FailoverConfig::build(Some(ph(Some(vec![502]), None)), Some(af(vec![404])), None, None, 2).unwrap();
    assert_eq!(cfg.classify_status(502), StatusClassification::HealthFailure);
    assert_eq!(cfg.classify_status(404), StatusClassification::AppFallback);
    assert_eq!(cfg.classify_status(200), StatusClassification::Pass);
    assert_eq!(cfg.classify_status(500), StatusClassification::Pass);
}

#[test]
fn all_retry_statuses_unions_both_sets() {
    let cfg = FailoverConfig::build(Some(ph(Some(vec![502, 503]), None)), Some(af(vec![404])), None, None, 3).unwrap();
    let union = cfg.all_retry_statuses();
    assert_eq!(union.len(), 3);
    assert!(union.contains(&502));
    assert!(union.contains(&503));
    assert!(union.contains(&404));
}

#[test]
fn all_retry_statuses_passive_only_reuses_arc() {
    let cfg = FailoverConfig::build(Some(ph(Some(vec![502, 503]), None)), None, None, None, 2).unwrap();
    let union = cfg.all_retry_statuses();
    assert_eq!(union.len(), 2);
    assert!(union.contains(&502));
    assert!(union.contains(&503));
    // No allocation: the Arc returned shares the same allocation as passive_health.unhealthy_statuses.
    assert!(Arc::ptr_eq(&union, &cfg.passive_health.as_ref().unwrap().unhealthy_statuses));
}

#[test]
fn all_retry_statuses_app_fallback_only_reuses_arc() {
    let cfg = FailoverConfig::build(None, Some(af(vec![404])), None, None, 2).unwrap();
    let union = cfg.all_retry_statuses();
    assert_eq!(union.len(), 1);
    assert!(union.contains(&404));
    assert!(Arc::ptr_eq(&union, &cfg.app_fallback.as_ref().unwrap().fallback_on_statuses));
}

#[test]
fn is_health_failure_status_only_matches_passive_health() {
    let cfg = FailoverConfig::build(Some(ph(Some(vec![502]), None)), Some(af(vec![404])), None, None, 2).unwrap();
    assert!(cfg.is_health_failure_status(502));
    assert!(!cfg.is_health_failure_status(404));
    assert!(!cfg.is_health_failure_status(200));

    // App-fallback-only config: every status returns false (no health observation).
    let cfg = FailoverConfig::build(None, Some(af(vec![404])), None, None, 2).unwrap();
    assert!(!cfg.is_health_failure_status(404));
    assert!(!cfg.is_health_failure_status(502));
}

#[test]
fn failover_context_get_next_iterates_from_initial_index() {
    let mut ctx = FailoverContext::new(2);
    assert!(!ctx.has_tried(2));
    ctx.mark_tried(2);
    assert!(ctx.has_tried(2));
    assert!(!ctx.has_tried(0));

    ctx.increment_retry();
    assert_eq!(ctx.retry_count, 1);
    assert!(ctx.can_retry(2));
    ctx.increment_retry();
    assert!(!ctx.can_retry(2));
}

#[test]
fn validate_names_the_list_and_the_status() {
    let cfg = FailoverConfig::build(Some(ph(Some(vec![200]), None)), None, None, None, 2).unwrap();
    assert_eq!(
        cfg.validate(),
        Err("passive_health.unhealthy_statuses contains 200 (must be 400-599)".to_string())
    );
    let cfg = FailoverConfig::build(None, Some(af(vec![404, 600, 501])), None, None, 2).unwrap();
    assert_eq!(
        cfg.validate(),
        Err("app_fallback.fallback_on_statuses contains 600 (must be 400-599)".to_string())
    );
}

#[test]
fn validate_looks_at_passive_health_first() {
    let cfg = FailoverConfig::build(Some(ph(Some(vec![503, 399]), None)), Some(af(vec![1])), None, None, 2).unwrap();
    assert_eq!(
        cfg.validate(),
        Err("passive_health.unhealthy_statuses contains 399 (must be 400-599)".to_string())
    );
}

#[test]
fn validate_reports_one_of_several() {
    let cfg = FailoverConfig::build(Some(ph(Some(vec![100, 700]), None)), None, None, None, 2).unwrap();
    let message = cfg.validate().unwrap_err();
    assert!(
        message == "passive_health.unhealthy_statuses contains 100 (must be 400-599)"
            || message == "passive_health.unhealthy_statuses contains 700 (must be 400-599)"
    );
}

#[test]
fn validate_accepts_the_ends_of_the_range() {
    let cfg = FailoverConfig::build(Some(ph(Some(vec![400, 599]), None)), Some(af(vec![])), None, None, 2).unwrap();
    assert_eq!(cfg.validate(), Ok(()));
    let cfg = FailoverConfig::build(Some(PassiveHealthInput::default()), None, None, None, 2).unwrap();
    assert_eq!(cfg.validate(), Ok(()));
}

#[test]
fn check_statuses_stops_at_the_first_offender() {
    assert_eq!(check_statuses("list", &[]), Ok(()));
    assert_eq!(check_statuses("list", &[404, 502]), Ok(()));
    assert_eq!(
        check_statuses("list", &[404, 0, 700]),
        Err("list contains 0 (must be 400-599)".to_string())
    );
}

#[test]
fn decimal_is_what_display_prints() {
    for n in 0..=u16::MAX {
        let mut out = String::from("#");
        push_decimal(&mut out, n);
        assert_eq!(out, format!("#{n}"));
    }
}

#[test]
fn default_statuses_are_gateway_errors() {
    assert_eq!(DEFAULT_UNHEALTHY_STATUSES, [502, 503, 504]);
}

#[test]
fn default_retries_cover_the_other_upstreams() {
    let retries = |n: usize| {
        FailoverConfig::build(Some(ph(None, None)), None, None, None, n)
            .unwrap()
            .max_retries
    };
    assert_eq!(retries(0), 0);
    assert_eq!(retries(1), 0);
    assert_eq!(retries(4), 3);
    assert_eq!(retries(usize::MAX), usize::MAX - 1);
}

#[test]
fn repeated_statuses_count_once() {
    let cfg = FailoverConfig::build(
        Some(ph(Some(vec![502, 502, 503]), None)),
        Some(af(vec![404, 503, 404])),
        None,
        None,
        3,
    )
    .unwrap();
    assert_eq!(cfg.passive_health.as_ref().unwrap().unhealthy_statuses.len(), 2);
    assert_eq!(cfg.app_fallback.as_ref().unwrap().fallback_on_statuses.len(), 2);
    assert_eq!(cfg.all_retry_statuses().len(), 3);
}

#[test]
fn retry_statuses_are_those_not_passed_through() {
    let cfg = FailoverConfig::build(Some(ph(None, None)), Some(af(vec![404, 502])), None, None, 3).unwrap();
    let union = cfg.all_retry_statuses();
    for status in 0..=u16::MAX {
        let class = cfg.classify_status(status);
        assert_eq!(union.contains(&status), class != StatusClassification::Pass);
        assert_eq!(cfg.is_health_failure_status(status), class == StatusClassification::HealthFailure);
        if !(400..600).contains(&status) {
            assert_eq!(class, StatusClassification::Pass);
        }
    }
}

#[test]
fn empty_lists_trigger_nothing() {
    let cfg = FailoverConfig::build(Some(ph(Some(vec![]), None)), Some(af(vec![])), None, None, 3).unwrap();
    assert!(cfg.all_retry_statuses().is_empty());
    assert_eq!(cfg.classify_status(502), StatusClassification::Pass);
}

#[test]
fn inputs_come_from_routes() {
    let route = PassiveHealthRoute {
        unhealthy_statuses: Some(vec![500, 502]),
        on_connection_failure: Some(false),
    };
    let input = PassiveHealthInput::from(&route);
    assert_eq!(input.unhealthy_statuses, Some(vec![500, 502]));
    assert_eq!(input.on_connection_failure, Some(false));

    let route = PassiveHealthRoute {
        unhealthy_statuses: None,
        on_connection_failure: None,
    };
    let input = PassiveHealthInput::from(&route);
    assert!(input.unhealthy_statuses.is_none());
    assert!(input.on_connection_failure.is_none());

    let route = AppFallbackRoute {
        fallback_on_statuses: vec![404],
    };
    assert_eq!(AppFallbackInput::from(&route).fallback_on_statuses, vec![404]);
}

#[test]
fn equal_inputs_build_equal_configs() {
    let build = |list: Vec<u16>| FailoverConfig::build(Some(ph(Some(list), None)), None, None, None, 2).unwrap();
    assert_eq!(build(vec![502, 503]), build(vec![503, 502]));
    assert_ne!(build(vec![502, 503]), build(vec![502]));
    let cfg = build(vec![502]);
    assert_eq!(cfg.clone(), cfg);
}

#[test]
fn context_keeps_marks_and_budget_apart() {
    let mut ctx = FailoverContext::new(1);
    for idx in [1, 3, 3, 0] {
        ctx.mark_tried(idx);
    }
    assert_eq!(ctx.retry_count, 0);
    assert_eq!(ctx.initial_upstream_idx, 1);
    for idx in 0..5 {
        assert_eq!(ctx.has_tried(idx), [0, 1, 3].contains(&idx));
    }
    for n in 0..4 {
        assert_eq!(ctx.can_retry(3), n < 3);
        ctx.increment_retry();
    }
    assert!(ctx.has_tried(3));
    assert_eq!(ctx.initial_upstream_idx, 1);
}

#[test]
fn context_copy_is_independent() {
    let mut ctx = FailoverContext::new(0);
    ctx.mark_tried(2);
    ctx.increment_retry();
    let mut copy = ctx.clone();
    copy.mark_tried(5);
    assert!(copy.has_tried(2));
    assert!(copy.has_tried(5));
    assert!(!ctx.has_tried(5));
    assert_eq!(copy.retry_count, 1);
    assert_eq!(copy.initial_upstream_idx, 0);
}

#[test]
fn getters_read_the_configuration() {
    let cfg = FailoverConfig::build(Some(ph(Some(vec![500]), Some(false))), None, Some(5), Some(true), 3).unwrap();
    assert_eq!(cfg.max_retries(), 5);
    assert!(cfg.retry_non_idempotent());
    assert_eq!(cfg.on_connection_failure(), Some(false));
    assert!(cfg.passive_health().unwrap().unhealthy_statuses.contains(&500));
    assert!(cfg.app_fallback().is_none());

    let cfg = FailoverConfig::build(None, Some(af(vec![404])), None, None, 3).unwrap();
    assert_eq!(cfg.max_retries(), 2);
    assert!(!cfg.retry_non_idempotent());
    assert_eq!(cfg.on_connection_failure(), None);
    assert!(cfg.passive_health().is_none());
    assert!(cfg.app_fallback().unwrap().fallback_on_statuses.contains(&404));
}

#[test]
fn retry_statuses_are_shared_by_every_call_and_copy() {
    let cfg = FailoverConfig::build(Some(ph(None, None)), Some(af(vec![404])), None, None, 3).unwrap();
    assert!(Arc::ptr_eq(&cfg.all_retry_statuses(), &cfg.all_retry_statuses()));
    assert!(Arc::ptr_eq(&cfg.all_retry_statuses(), &cfg.clone().all_retry_statuses()));
}

#[test]
fn getters_read_the_context() {
    let mut ctx = FailoverContext::new(4);
    assert_eq!(ctx.retry_count(), 0);
    ctx.increment_retry();
    ctx.mark_tried(1);
    assert_eq!(ctx.retry_count(), 1);
    assert_eq!(ctx.initial_upstream_idx(), 4);
}
