use anomaly_detector::{
    initialize, AnomalyDetector, BehaviorEvent, BehaviorPattern, ClientProfile,
    ConfigurationError, IndicatorSet, NotFound, SecurityConfig, ThreatLevel, ThresholdOverride,
};

fn event(tenant: &str, client: &str, readings: &[(&str, i64)]) -> BehaviorEvent {
    let mut indicators = IndicatorSet::new();
    for (key, value) in readings {
        indicators.insert(key, *value);
    }
    BehaviorEvent {
        tenant_id: tenant.to_string(),
        client_id: client.to_string(),
        timestamp: 0,
        indicators,
        confidence: 1_000_000,
    }
}

fn engine_with(max_profiles: usize, window_ms: i64) -> AnomalyDetector {
    let mut config = SecurityConfig::default();
    config.max_active_profiles = max_profiles;
    config.staleness_window_ms = window_ms;
    AnomalyDetector::with_config(&config).unwrap()
}

#[test]
fn a_new_engine_has_the_default_settings() {
    let engine = AnomalyDetector::new();
    assert_eq!(engine.max_profiles(), 100_000);
    assert_eq!(engine.staleness_window_ms(), 86_400_000);
    assert_eq!(engine.profile_count(), 0);
    assert_eq!(engine.events_processed(), 0);
    assert_eq!(engine.full_clears(), 0);
    assert!(engine.get_all_profiles().is_empty());
}

#[test]
fn rapid_failures_at_half_failure_rate_is_critical() {
    let mut engine = AnomalyDetector::new();
    let result = engine
        .analyze_at(&event("acme", "alice", &[("failure_rate", 500_000)]), 1_000)
        .unwrap();
    assert_eq!(result.detected_patterns, vec![BehaviorPattern::RapidFailures]);
    assert_eq!(result.score, 900_000);
    assert_eq!(result.level, ThreatLevel::Critical);
    assert_eq!(result.recommendation, "ISOLATE_SESSION");
    assert_eq!(result.tenant_id, "acme");
    assert_eq!(result.client_id, "alice");
    assert_eq!(result.timestamp, 1_000);
}

#[test]
fn injection_alone_is_critical() {
    let mut engine = AnomalyDetector::new();
    let result = engine
        .analyze_at(&event("acme", "alice", &[("injection_score", 800_001)]), 1_000)
        .unwrap();
    assert_eq!(result.detected_patterns, vec![BehaviorPattern::PayloadInjection]);
    assert_eq!(result.score, 1_000_000);
    assert_eq!(result.level, ThreatLevel::Critical);
    assert_eq!(result.recommendation, "ISOLATE_SESSION");
}

#[test]
fn injection_is_critical_whatever_the_failure_rate() {
    let mut engine = AnomalyDetector::new();
    let result = engine
        .analyze_at(
            &event("acme", "alice", &[("injection_score", 900_000), ("failure_rate", -5_000_000)]),
            1_000,
        )
        .unwrap();
    assert_eq!(result.score, 1_000_000);
    assert_eq!(result.level, ThreatLevel::Critical);
}

#[test]
fn an_event_without_indicators_is_safe() {
    let mut engine = AnomalyDetector::new();
    let result = engine.analyze_at(&event("acme", "alice", &[]), 1_000).unwrap();
    assert_eq!(result.detected_patterns, vec![]);
    assert_eq!(result.score, 0);
    assert_eq!(result.level, ThreatLevel::Safe);
    assert_eq!(result.recommendation, "ALLOW");
}

#[test]
fn each_level_has_its_recommendation() {
    let mut engine = AnomalyDetector::new();
    let high = engine
        .analyze_at(&event("acme", "a", &[("enumeration_score", 800_000)]), 1)
        .unwrap();
    assert_eq!((high.score, high.level), (800_000, ThreatLevel::High));
    assert_eq!(high.recommendation, "REQUIRE_MFA");
    let medium = engine
        .analyze_at(&event("acme", "b", &[("timing_variance", 5_000_000)]), 1)
        .unwrap();
    assert_eq!((medium.score, medium.level), (500_000, ThreatLevel::Medium));
    assert_eq!(medium.recommendation, "THROTTLE_REQUESTS");
    let low = engine
        .analyze_at(&event("acme", "c", &[("location_risk", 900_000)]), 1)
        .unwrap();
    assert_eq!((low.score, low.level), (300_000, ThreatLevel::Low));
    assert_eq!(low.recommendation, "LOG_WARNING");
    let several = engine
        .analyze_at(
            &event("acme", "d", &[("location_risk", 900_000), ("timing_variance", 1)]),
            1,
        )
        .unwrap();
    assert_eq!(
        several.detected_patterns,
        vec![BehaviorPattern::TimingAttack, BehaviorPattern::AnomalousLocation]
    );
    assert_eq!((several.score, several.level), (800_000, ThreatLevel::High));
}

#[test]
fn the_first_event_creates_the_profile() {
    let mut engine = AnomalyDetector::new();
    assert!(engine.get_profile("acme", "alice").is_none());
    engine.analyze_at(&event("acme", "alice", &[("location_risk", 900_000)]), 5_000).unwrap();
    let profile = engine.get_profile("acme", "alice").unwrap();
    assert_eq!(profile.tenant_id, "acme");
    assert_eq!(profile.client_id, "alice");
    assert_eq!(profile.first_seen, 5_000);
    assert_eq!(profile.last_seen, 5_000);
    assert_eq!(profile.total_events, 1);
    assert_eq!(profile.risk_score, 300_000);
    assert!(!profile.is_compromised);
    assert_eq!(profile.threat_level, ThreatLevel::Low);
    assert_eq!(engine.profile_count(), 1);
    assert_eq!(engine.events_processed(), 1);
}

#[test]
fn every_event_touches_the_profile() {
    let mut engine = AnomalyDetector::new();
    engine.analyze_at(&event("acme", "alice", &[]), 5_000).unwrap();
    engine.analyze_at(&event("acme", "alice", &[]), 6_000).unwrap();
    engine.analyze_at(&event("acme", "alice", &[]), 5_500).unwrap();
    let profile = engine.get_profile("acme", "alice").unwrap();
    assert_eq!(profile.first_seen, 5_000);
    assert_eq!(profile.last_seen, 5_500);
    assert_eq!(profile.total_events, 3);
    assert_eq!(engine.profile_count(), 1);
    assert_eq!(engine.events_processed(), 3);
}

#[test]
fn the_risk_estimate_rises_fast_and_falls_slowly() {
    let mut engine = AnomalyDetector::new();
    let first = engine
        .analyze_at(&event("acme", "alice", &[("enumeration_score", 800_000)]), 1)
        .unwrap();
    assert_eq!(first.score, 800_000);
    assert_eq!(engine.get_profile("acme", "alice").unwrap().risk_score, 800_000);
    let second = engine
        .analyze_at(&event("acme", "alice", &[("location_risk", 900_000)]), 2)
        .unwrap();
    assert_eq!(second.score, 300_000);
    assert_eq!(second.level, ThreatLevel::Low);
    let profile = engine.get_profile("acme", "alice").unwrap();
    assert_eq!(profile.risk_score, 750_000);
    assert_eq!(profile.threat_level, ThreatLevel::Low);
    assert!(!profile.is_compromised);
    engine.analyze_at(&event("acme", "alice", &[]), 3).unwrap();
    assert_eq!(engine.get_profile("acme", "alice").unwrap().risk_score, 675_000);
    engine.analyze_at(&event("acme", "alice", &[("enumeration_score", 800_000)]), 4).unwrap();
    assert_eq!(engine.get_profile("acme", "alice").unwrap().risk_score, 800_000);
}

#[test]
fn a_failure_rate_below_zero_switches_no_rule_off() {
    let mut engine = AnomalyDetector::new();
    let result = engine
        .analyze_at(
            &event("acme", "alice", &[("spray_score", 900_000), ("failure_rate", -1_000_000)]),
            1,
        )
        .unwrap();
    assert_eq!(result.detected_patterns, vec![BehaviorPattern::CredentialSpray]);
    assert_eq!(result.score, 900_000);
    assert_eq!(result.level, ThreatLevel::Critical);
    assert_eq!(result.recommendation, "ISOLATE_SESSION");
    assert!(engine.get_profile("acme", "alice").unwrap().is_compromised);
    let located = engine
        .analyze_at(
            &event("acme", "bob", &[("location_risk", 900_000), ("failure_rate", i64::MIN)]),
            1,
        )
        .unwrap();
    assert_eq!(located.score, 300_000);
    assert_eq!(located.level, ThreatLevel::Low);
}

#[test]
fn a_failure_rate_above_one_amplifies_as_one() {
    let mut engine = AnomalyDetector::new();
    let result = engine
        .analyze_at(
            &event("acme", "alice", &[("location_risk", 900_000), ("failure_rate", 7_000_000)]),
            1,
        )
        .unwrap();
    assert_eq!(
        result.detected_patterns,
        vec![BehaviorPattern::RapidFailures, BehaviorPattern::AnomalousLocation]
    );
    // min(1, 0.6 * 2) + min(1, 0.3 * 2), limited to one
    assert_eq!(result.score, 1_000_000);
    let mut config = SecurityConfig::default();
    config.threshold_overrides.push(ThresholdOverride {
        indicator: "failure_rate".to_string(),
        threshold: 1_000_000,
    });
    let mut quiet = AnomalyDetector::with_config(&config).unwrap();
    let result = quiet
        .analyze_at(
            &event("acme", "alice", &[("location_risk", 900_000), ("failure_rate", 7_000_000)]),
            1,
        )
        .unwrap();
    assert_eq!(result.detected_patterns, vec![BehaviorPattern::AnomalousLocation]);
    assert_eq!(result.score, 600_000);
    assert_eq!(result.level, ThreatLevel::Medium);
}

#[test]
fn a_critical_verdict_marks_the_client_compromised() {
    let mut engine = AnomalyDetector::new();
    engine.analyze_at(&event("acme", "alice", &[("spray_score", 800_000)]), 1).unwrap();
    let profile = engine.get_profile("acme", "alice").unwrap();
    assert!(profile.is_compromised);
    assert_eq!(profile.risk_score, 1_000_000);
    assert_eq!(profile.threat_level, ThreatLevel::Critical);
}

#[test]
fn a_compromised_client_stays_blocked() {
    let mut engine = AnomalyDetector::new();
    let first = engine
        .analyze_at(&event("acme", "alice", &[("injection_score", 900_000)]), 1)
        .unwrap();
    assert_eq!(first.recommendation, "ISOLATE_SESSION");
    for (at, readings) in [
        (2, vec![]),
        (3, vec![("failure_rate", 0)]),
        (4, vec![("location_risk", 900_000)]),
        (5, vec![("injection_score", 900_000)]),
    ] {
        let next = engine.analyze_at(&event("acme", "alice", &readings), at).unwrap();
        assert_eq!(next.score, 1_000_000);
        assert_eq!(next.level, ThreatLevel::Critical);
        assert_eq!(next.recommendation, "BLOCK_PERMANENTLY");
        assert_eq!(next.detected_patterns, vec![]);
        assert_eq!(next.timestamp, at);
    }
    let profile = engine.get_profile("acme", "alice").unwrap();
    assert!(profile.is_compromised);
    assert_eq!(profile.risk_score, 1_000_000);
    assert_eq!(profile.total_events, 5);
    assert_eq!(profile.last_seen, 5);
    assert_eq!(profile.first_seen, 1);
}

#[test]
fn a_compromised_client_stays_blocked_while_others_come_and_go() {
    let mut engine = engine_with(4, 10);
    engine.analyze_at(&event("acme", "alice", &[("injection_score", 900_000)]), 1).unwrap();
    engine.analyze_at(&event("acme", "bob", &[]), 2).unwrap();
    engine.analyze_at(&event("acme", "carol", &[]), 3).unwrap();
    engine.analyze_at(&event("acme", "dave", &[]), 4).unwrap();
    // the store is full; erin is new; at 1000 all are stale, alice alone is kept
    engine.analyze_at(&event("acme", "erin", &[]), 1_000).unwrap();
    assert_eq!(engine.full_clears(), 0);
    assert_eq!(engine.profile_count(), 2);
    let next = engine.analyze_at(&event("acme", "alice", &[]), 1_001).unwrap();
    assert_eq!(next.recommendation, "BLOCK_PERMANENTLY");
    assert_eq!(next.score, 1_000_000);
}

#[test]
fn a_reset_gives_a_clean_slate() {
    let mut engine = AnomalyDetector::new();
    engine.analyze_at(&event("acme", "alice", &[("injection_score", 900_000)]), 1).unwrap();
    assert_eq!(engine.reset_profile("acme", "alice"), Ok(()));
    assert!(engine.get_profile("acme", "alice").is_none());
    assert_eq!(engine.profile_count(), 0);
    let next = engine.analyze_at(&event("acme", "alice", &[]), 2).unwrap();
    assert_eq!(next.level, ThreatLevel::Safe);
    assert_eq!(next.recommendation, "ALLOW");
    let profile = engine.get_profile("acme", "alice").unwrap();
    assert!(!profile.is_compromised);
    assert_eq!(profile.total_events, 1);
    assert_eq!(profile.first_seen, 2);
}

#[test]
fn a_reset_of_an_unknown_client_is_not_found() {
    let mut engine = AnomalyDetector::new();
    assert_eq!(engine.reset_profile("acme", "alice"), Err(NotFound));
    engine.analyze_at(&event("acme", "alice", &[]), 1).unwrap();
    assert_eq!(engine.reset_profile("acme", "bob"), Err(NotFound));
    assert_eq!(engine.reset_profile("other", "alice"), Err(NotFound));
    assert_eq!(engine.profile_count(), 1);
    assert_eq!(engine.reset_profile("acme", "alice"), Ok(()));
    assert_eq!(engine.reset_profile("acme", "alice"), Err(NotFound));
}

#[test]
fn tenants_are_isolated() {
    let mut engine = AnomalyDetector::new();
    engine.analyze_at(&event("globex", "alice", &[("location_risk", 900_000)]), 1).unwrap();
    let before = engine.get_profile("globex", "alice").unwrap();
    engine.analyze_at(&event("acme", "alice", &[("injection_score", 900_000)]), 2).unwrap();
    engine.analyze_at(&event("acme", "alice", &[]), 3).unwrap();
    let after = engine.get_profile("globex", "alice").unwrap();
    assert_eq!(after.first_seen, before.first_seen);
    assert_eq!(after.last_seen, before.last_seen);
    assert_eq!(after.total_events, before.total_events);
    assert_eq!(after.risk_score, before.risk_score);
    assert_eq!(after.is_compromised, before.is_compromised);
    assert_eq!(after.threat_level, before.threat_level);
    assert!(engine.get_profile("acme", "alice").unwrap().is_compromised);
    let verdict = engine.analyze_at(&event("globex", "alice", &[]), 4).unwrap();
    assert_eq!(verdict.level, ThreatLevel::Safe);
    assert_eq!(verdict.recommendation, "ALLOW");
    assert_eq!(engine.profile_count(), 2);
}

#[test]
fn tenant_and_client_are_not_run_together() {
    let mut engine = AnomalyDetector::new();
    engine.analyze_at(&event("ab", "c", &[("injection_score", 900_000)]), 1).unwrap();
    let verdict = engine.analyze_at(&event("a", "bc", &[]), 2).unwrap();
    assert_eq!(verdict.level, ThreatLevel::Safe);
    let swapped = engine.analyze_at(&event("c", "ab", &[]), 3).unwrap();
    assert_eq!(swapped.level, ThreatLevel::Safe);
    assert_eq!(engine.profile_count(), 3);
}

#[test]
fn marking_an_existing_client_compromised() {
    let mut engine = AnomalyDetector::new();
    engine.analyze_at(&event("acme", "alice", &[("location_risk", 900_000)]), 1).unwrap();
    engine.mark_compromised_at("acme", "alice", 50);
    let profile = engine.get_profile("acme", "alice").unwrap();
    assert!(profile.is_compromised);
    assert_eq!(profile.risk_score, 1_000_000);
    assert_eq!(profile.threat_level, ThreatLevel::Low);
    assert_eq!(profile.total_events, 1);
    assert_eq!(profile.last_seen, 1);
    assert_eq!(engine.events_processed(), 1);
    let next = engine.analyze_at(&event("acme", "alice", &[]), 60).unwrap();
    assert_eq!(next.recommendation, "BLOCK_PERMANENTLY");
}

#[test]
fn marking_an_unknown_client_compromised() {
    let mut engine = AnomalyDetector::new();
    engine.mark_compromised_at("acme", "mallory", 50);
    let profile = engine.get_profile("acme", "mallory").unwrap();
    assert!(profile.is_compromised);
    assert_eq!(profile.risk_score, 1_000_000);
    assert_eq!(profile.total_events, 0);
    assert_eq!(profile.first_seen, 50);
    let first = engine.analyze_at(&event("acme", "mallory", &[]), 60).unwrap();
    assert_eq!(first.recommendation, "BLOCK_PERMANENTLY");
    assert_eq!(first.level, ThreatLevel::Critical);
}

#[test]
fn marking_by_the_clock() {
    let mut engine = AnomalyDetector::new();
    engine.mark_compromised("acme", "mallory");
    let profile = engine.get_profile("acme", "mallory").unwrap();
    assert!(profile.is_compromised);
    assert!(profile.first_seen > 1_600_000_000_000);
}

#[test]
fn analysis_by_the_clock() {
    let mut engine = AnomalyDetector::new();
    let result = engine.analyze(&event("acme", "alice", &[("failure_rate", 500_000)])).unwrap();
    assert_eq!(result.score, 900_000);
    assert_eq!(result.level, ThreatLevel::Critical);
    // later than September 2020, in milliseconds
    assert!(result.timestamp > 1_600_000_000_000);
    let profile = engine.get_profile("acme", "alice").unwrap();
    assert_eq!(profile.last_seen, result.timestamp);
    assert_eq!(profile.first_seen, result.timestamp);
    let again = engine.analyze(&event("acme", "alice", &[])).unwrap();
    assert!(again.timestamp >= result.timestamp);
    assert_eq!(again.recommendation, "BLOCK_PERMANENTLY");
}

#[test]
fn a_full_store_under_a_window_of_zero_is_wiped() {
    let mut engine = engine_with(3, 0);
    engine.analyze_at(&event("acme", "a", &[]), 100).unwrap();
    engine.analyze_at(&event("acme", "b", &[]), 100).unwrap();
    engine.analyze_at(&event("acme", "c", &[]), 100).unwrap();
    assert_eq!(engine.profile_count(), 3);
    assert_eq!(engine.full_clears(), 0);
    engine.analyze_at(&event("acme", "d", &[]), 100).unwrap();
    assert_eq!(engine.profile_count(), 1);
    assert_eq!(engine.full_clears(), 1);
    assert!(engine.get_profile("acme", "d").is_some());
    assert!(engine.get_profile("acme", "a").is_none());
}

#[test]
fn the_store_never_outgrows_its_cap() {
    let mut engine = engine_with(5, 1_000_000);
    for i in 0..40 {
        let client = format!("client-{}", i);
        engine.analyze_at(&event("acme", &client, &[]), i).unwrap();
        assert!(engine.profile_count() <= 5);
        assert!(engine.get_profile("acme", &client).is_some());
    }
    assert_eq!(engine.events_processed(), 40);
    assert_eq!(engine.full_clears(), 7);
}

#[test]
fn stale_profiles_are_evicted_before_anything_is_wiped() {
    let mut engine = engine_with(3, 10);
    engine.analyze_at(&event("acme", "a", &[]), 100).unwrap();
    engine.analyze_at(&event("acme", "b", &[]), 105).unwrap();
    engine.analyze_at(&event("acme", "c", &[]), 112).unwrap();
    // at 116 the window began at 106: a and b are stale, c is not
    engine.analyze_at(&event("acme", "d", &[]), 116).unwrap();
    assert_eq!(engine.full_clears(), 0);
    assert_eq!(engine.profile_count(), 2);
    assert!(engine.get_profile("acme", "a").is_none());
    assert!(engine.get_profile("acme", "b").is_none());
    assert!(engine.get_profile("acme", "c").is_some());
    assert!(engine.get_profile("acme", "d").is_some());
}

#[test]
fn a_profile_seen_at_the_start_of_the_window_is_not_stale() {
    let mut engine = engine_with(2, 10);
    engine.analyze_at(&event("acme", "a", &[]), 100).unwrap();
    engine.analyze_at(&event("acme", "b", &[]), 99).unwrap();
    engine.analyze_at(&event("acme", "c", &[]), 110).unwrap();
    assert!(engine.get_profile("acme", "a").is_some());
    assert!(engine.get_profile("acme", "b").is_none());
    assert_eq!(engine.full_clears(), 0);
}

#[test]
fn eviction_keeps_compromised_profiles() {
    let mut engine = engine_with(3, 10);
    engine.analyze_at(&event("acme", "a", &[("injection_score", 900_000)]), 1).unwrap();
    engine.analyze_at(&event("acme", "b", &[]), 2).unwrap();
    engine.analyze_at(&event("acme", "c", &[]), 3).unwrap();
    engine.analyze_at(&event("acme", "d", &[]), 1_000).unwrap();
    assert_eq!(engine.full_clears(), 0);
    assert_eq!(engine.profile_count(), 2);
    assert!(engine.get_profile("acme", "a").unwrap().is_compromised);
    assert!(engine.get_profile("acme", "d").is_some());
}

#[test]
fn a_store_full_of_compromised_profiles_is_wiped() {
    let mut engine = engine_with(2, 10);
    engine.analyze_at(&event("acme", "a", &[("injection_score", 900_000)]), 1).unwrap();
    engine.analyze_at(&event("acme", "b", &[("injection_score", 900_000)]), 2).unwrap();
    let verdict = engine.analyze_at(&event("acme", "c", &[]), 1_000).unwrap();
    assert_eq!(verdict.level, ThreatLevel::Safe);
    assert_eq!(engine.full_clears(), 1);
    assert_eq!(engine.profile_count(), 1);
    let forgotten = engine.analyze_at(&event("acme", "a", &[]), 1_001).unwrap();
    assert_eq!(forgotten.recommendation, "ALLOW");
}

#[test]
fn a_known_client_is_served_though_the_store_is_full() {
    let mut engine = engine_with(2, 0);
    engine.analyze_at(&event("acme", "a", &[]), 1).unwrap();
    engine.analyze_at(&event("acme", "b", &[]), 2).unwrap();
    engine.analyze_at(&event("acme", "a", &[("location_risk", 900_000)]), 1_000).unwrap();
    assert_eq!(engine.profile_count(), 2);
    assert_eq!(engine.full_clears(), 0);
    assert_eq!(engine.get_profile("acme", "a").unwrap().total_events, 2);
    assert!(engine.get_profile("acme", "b").is_some());
}

#[test]
fn cleanup_says_whether_it_wiped() {
    let mut engine = engine_with(2, 10);
    engine.analyze_at(&event("acme", "a", &[]), 1).unwrap();
    assert!(!engine.cleanup_stale_profiles(5));
    assert_eq!(engine.profile_count(), 1);
    assert!(!engine.cleanup_stale_profiles(500));
    assert_eq!(engine.profile_count(), 0);
    engine.analyze_at(&event("acme", "a", &[]), 600).unwrap();
    engine.analyze_at(&event("acme", "b", &[]), 600).unwrap();
    assert!(engine.cleanup_stale_profiles(601));
    assert_eq!(engine.profile_count(), 0);
    assert_eq!(engine.full_clears(), 1);
}

#[test]
fn a_negative_window_makes_everything_stale() {
    let mut engine = engine_with(2, -10);
    engine.analyze_at(&event("acme", "a", &[]), 100).unwrap();
    engine.analyze_at(&event("acme", "b", &[]), 100).unwrap();
    engine.analyze_at(&event("acme", "c", &[]), 100).unwrap();
    assert_eq!(engine.full_clears(), 0);
    assert_eq!(engine.profile_count(), 1);
}

#[test]
fn times_at_the_ends_of_the_range() {
    let mut engine = engine_with(1, i64::MAX);
    engine.analyze_at(&event("acme", "a", &[]), i64::MIN).unwrap();
    engine.analyze_at(&event("acme", "b", &[]), i64::MAX).unwrap();
    assert_eq!(engine.profile_count(), 1);
    let mut other = engine_with(1, i64::MIN);
    other.analyze_at(&event("acme", "a", &[]), i64::MAX).unwrap();
    other.analyze_at(&event("acme", "b", &[]), i64::MIN).unwrap();
    assert_eq!(other.profile_count(), 1);
    assert!(other.get_profile("acme", "b").is_some());
}

#[test]
fn all_profiles_are_listed_once() {
    let mut engine = AnomalyDetector::new();
    engine.analyze_at(&event("acme", "a", &[]), 1).unwrap();
    engine.analyze_at(&event("acme", "b", &[("injection_score", 900_000)]), 2).unwrap();
    engine.analyze_at(&event("globex", "a", &[]), 3).unwrap();
    engine.analyze_at(&event("acme", "a", &[]), 4).unwrap();
    let mut listing: Vec<(String, String, u64, bool)> = engine
        .get_all_profiles()
        .into_iter()
        .map(|p| (p.tenant_id, p.client_id, p.total_events, p.is_compromised))
        .collect();
    listing.sort();
    assert_eq!(
        listing,
        vec![
            ("acme".to_string(), "a".to_string(), 2, false),
            ("acme".to_string(), "b".to_string(), 1, true),
            ("globex".to_string(), "a".to_string(), 1, false),
        ]
    );
}

#[test]
fn a_listing_is_a_snapshot() {
    let mut engine = AnomalyDetector::new();
    engine.analyze_at(&event("acme", "a", &[]), 1).unwrap();
    let listing = engine.get_all_profiles();
    engine.analyze_at(&event("acme", "a", &[]), 2).unwrap();
    engine.analyze_at(&event("acme", "b", &[]), 3).unwrap();
    assert_eq!(listing.len(), 1);
    assert_eq!(listing[0].total_events, 1);
}

#[test]
fn the_health_report() {
    let mut engine = AnomalyDetector::new();
    engine.analyze_at(&event("acme", "a", &[]), 1).unwrap();
    engine.analyze_at(&event("acme", "b", &[]), 2).unwrap();
    engine.analyze_at(&event("acme", "a", &[]), 3).unwrap();
    let report = engine.health(77, 12);
    assert_eq!(report.status, "healthy");
    assert_eq!(report.uptime_seconds, 77);
    assert_eq!(report.events_processed, 3);
    assert_eq!(report.active_profiles, 2);
    assert_eq!(report.memory_usage_mb, 12);
}

#[test]
fn an_engine_from_a_configuration() {
    let mut config = SecurityConfig::default();
    config.max_active_profiles = 7;
    config.staleness_window_ms = 1_234;
    let engine = AnomalyDetector::with_config(&config).unwrap();
    assert_eq!(engine.max_profiles(), 7);
    assert_eq!(engine.staleness_window_ms(), 1_234);
    assert_eq!(engine.profile_count(), 0);
}

#[test]
fn an_engine_without_room_is_refused() {
    let mut config = SecurityConfig::default();
    config.max_active_profiles = 0;
    assert_eq!(
        AnomalyDetector::with_config(&config).err(),
        Some(ConfigurationError::InvalidMaxProfiles)
    );
}

#[test]
fn an_override_of_an_unknown_rule_is_refused() {
    let mut config = SecurityConfig::default();
    config.threshold_overrides.push(ThresholdOverride {
        indicator: "failure_rate".to_string(),
        threshold: 100_000,
    });
    config.threshold_overrides.push(ThresholdOverride {
        indicator: "rate_limit".to_string(),
        threshold: 100_000_000,
    });
    assert_eq!(
        AnomalyDetector::with_config(&config).err(),
        Some(ConfigurationError::UnknownThresholdKey("rate_limit".to_string()))
    );
}

#[test]
fn overrides_move_the_cut_points() {
    let mut config = SecurityConfig::default();
    config.threshold_overrides.push(ThresholdOverride {
        indicator: "injection_score".to_string(),
        threshold: 500_000,
    });
    config.threshold_overrides.push(ThresholdOverride {
        indicator: "failure_rate".to_string(),
        threshold: 950_000,
    });
    let mut engine = AnomalyDetector::with_config(&config).unwrap();
    let injected = engine
        .analyze_at(&event("acme", "a", &[("injection_score", 600_000)]), 1)
        .unwrap();
    assert_eq!(injected.level, ThreatLevel::Critical);
    let failing = engine.analyze_at(&event("acme", "b", &[("failure_rate", 900_000)]), 1).unwrap();
    assert_eq!(failing.detected_patterns, vec![]);
    assert_eq!(failing.level, ThreatLevel::Safe);
}

#[test]
fn initialize_without_a_configuration() {
    let engine = initialize(None).unwrap();
    assert_eq!(engine.max_profiles(), 100_000);
    assert_eq!(engine.staleness_window_ms(), 86_400_000);
    assert_eq!(engine.profile_count(), 0);
}

#[test]
fn initialize_with_a_configuration() {
    let mut config = SecurityConfig::default();
    config.max_active_profiles = 9;
    let engine = initialize(Some(config)).unwrap();
    assert_eq!(engine.max_profiles(), 9);
    let mut bad = SecurityConfig::default();
    bad.max_active_profiles = 0;
    assert_eq!(initialize(Some(bad)).err(), Some(ConfigurationError::InvalidMaxProfiles));
}

fn profile_at(risk_score: i64, is_compromised: bool) -> ClientProfile {
    ClientProfile {
        tenant_id: "acme".to_string(),
        client_id: "alice".to_string(),
        first_seen: 10,
        last_seen: 20,
        total_events: 4,
        risk_score,
        is_compromised,
        threat_level: ThreatLevel::Medium,
    }
}

#[test]
fn judging_an_event_follows_the_verdict() {
    let engine = AnomalyDetector::new();
    let (profile, verdict) = engine.judge(
        profile_at(800_000, false),
        &event("acme", "alice", &[("location_risk", 900_000), ("failure_rate", -600_000)]),
        30,
    );
    assert_eq!(verdict.score, 300_000);
    assert_eq!(verdict.level, ThreatLevel::Low);
    assert_eq!(verdict.detected_patterns, vec![BehaviorPattern::AnomalousLocation]);
    assert_eq!(verdict.recommendation, "LOG_WARNING");
    assert_eq!(verdict.timestamp, 30);
    assert_eq!(verdict.tenant_id, "acme");
    assert_eq!(verdict.client_id, "alice");
    assert_eq!(profile.risk_score, 750_000);
    assert_eq!(profile.threat_level, ThreatLevel::Low);
    assert_eq!(profile.total_events, 5);
    assert_eq!(profile.first_seen, 10);
    assert_eq!(profile.last_seen, 30);
    assert!(!profile.is_compromised);
    assert_eq!(engine.profile_count(), 0);
}

#[test]
fn judging_a_critical_event_marks_the_profile() {
    let engine = AnomalyDetector::new();
    let (profile, verdict) = engine.judge(
        profile_at(100_000, false),
        &event("acme", "alice", &[("spray_score", 800_000)]),
        30,
    );
    assert_eq!(verdict.score, 900_000);
    assert_eq!(verdict.level, ThreatLevel::Critical);
    assert_eq!(verdict.recommendation, "ISOLATE_SESSION");
    assert!(profile.is_compromised);
    assert_eq!(profile.risk_score, 1_000_000);
    assert_eq!(profile.threat_level, ThreatLevel::Critical);
}

#[test]
fn judging_a_compromised_client_looks_at_nothing() {
    let engine = AnomalyDetector::new();
    let (profile, verdict) =
        engine.judge(profile_at(1_000_000, true), &event("acme", "alice", &[]), 30);
    assert_eq!(verdict.score, 1_000_000);
    assert_eq!(verdict.level, ThreatLevel::Critical);
    assert_eq!(verdict.recommendation, "BLOCK_PERMANENTLY");
    assert_eq!(verdict.detected_patterns, vec![]);
    assert!(profile.is_compromised);
    assert_eq!(profile.risk_score, 1_000_000);
    assert_eq!(profile.threat_level, ThreatLevel::Medium);
    assert_eq!(profile.total_events, 5);
    assert_eq!(profile.last_seen, 30);
}

#[test]
fn the_event_counter_stops_at_the_top() {
    let engine = AnomalyDetector::new();
    let mut full = profile_at(0, false);
    full.total_events = u64::MAX;
    let (profile, _) = engine.judge(full, &event("acme", "alice", &[]), 30);
    assert_eq!(profile.total_events, u64::MAX);
}
