//! The rule set: which behaviour patterns an indicator map exhibits.
//!
//! Each rule reads one named indicator and compares it with a threshold. A
//! rule whose indicator is absent does not fire: an absent reading means
//! "not measured", never "zero".
//!
//! Six of the seven indicators are fractions. A producer may send any
//! number for them; a rule reads the number limited to the range from zero
//! to one. With a cut point inside that range, as all the standard ones
//! are, this changes no outcome: a reading is above the cut point exactly
//! when the number sent is. The timing variance is a count of milliseconds,
//! not a fraction, and is read as it was sent.

use crate::fixed::{limit, limited, UNIT};
use crate::indicators::IndicatorSet;
use crate::models::{BehaviorEvent, BehaviorPattern};
use vstd::prelude::*;

verus! {

pub const KEY_INJECTION_SCORE: &'static str = "injection_score";

pub const KEY_SPRAY_SCORE: &'static str = "spray_score";

pub const KEY_ENUMERATION_SCORE: &'static str = "enumeration_score";

pub const KEY_RESOURCE_USAGE: &'static str = "resource_usage";

pub const KEY_FAILURE_RATE: &'static str = "failure_rate";

pub const KEY_TIMING_VARIANCE: &'static str = "timing_variance";

pub const KEY_LOCATION_RISK: &'static str = "location_risk";

pub const THRESHOLD_INJECTION: i64 = 800_000;

pub const THRESHOLD_SPRAY: i64 = 700_000;

pub const THRESHOLD_ENUMERATION: i64 = 700_000;

pub const THRESHOLD_RESOURCE: i64 = 850_000;

pub const THRESHOLD_FAILURE_RATE: i64 = 400_000;

/// Upper end, exclusive, of the timing-variance band: ten milliseconds.
pub const TIMING_VARIANCE_MAX: i64 = 10_000_000;

pub const THRESHOLD_LOCATION: i64 = 800_000;

/// The cut point of every rule.
#[derive(Clone, Copy, Debug, PartialEq, Eq, Structural)]
pub struct Thresholds {
    pub injection: i64,
    pub spray: i64,
    pub enumeration: i64,
    pub resource: i64,
    pub failure_rate: i64,
    pub timing_max: i64,
    pub location: i64,
}

/// The cut points the engine uses unless told otherwise.
pub open spec fn standard_thresholds() -> Thresholds {
    Thresholds {
        injection: THRESHOLD_INJECTION,
        spray: THRESHOLD_SPRAY,
        enumeration: THRESHOLD_ENUMERATION,
        resource: THRESHOLD_RESOURCE,
        failure_rate: THRESHOLD_FAILURE_RATE,
        timing_max: TIMING_VARIANCE_MAX,
        location: THRESHOLD_LOCATION,
    }
}

/// The rule that reads the indicator named `key`, if there is one.
pub open spec fn rule_reading(key: Seq<char>) -> Option<BehaviorPattern> {
    if key == KEY_INJECTION_SCORE@ {
        Some(BehaviorPattern::PayloadInjection)
    } else if key == KEY_SPRAY_SCORE@ {
        Some(BehaviorPattern::CredentialSpray)
    } else if key == KEY_ENUMERATION_SCORE@ {
        Some(BehaviorPattern::Enumeration)
    } else if key == KEY_RESOURCE_USAGE@ {
        Some(BehaviorPattern::ResourceAbuse)
    } else if key == KEY_FAILURE_RATE@ {
        Some(BehaviorPattern::RapidFailures)
    } else if key == KEY_TIMING_VARIANCE@ {
        Some(BehaviorPattern::TimingAttack)
    } else if key == KEY_LOCATION_RISK@ {
        Some(BehaviorPattern::AnomalousLocation)
    } else {
        None
    }
}

/// `thresholds` with the cut point of the rule for `pattern` set to `value`.
/// Patterns without a rule leave it as it is.
pub open spec fn with_cut_point(
    thresholds: Thresholds,
    pattern: BehaviorPattern,
    value: i64,
) -> Thresholds {
    match pattern {
        BehaviorPattern::PayloadInjection => Thresholds { injection: value, ..thresholds },
        BehaviorPattern::CredentialSpray => Thresholds { spray: value, ..thresholds },
        BehaviorPattern::Enumeration => Thresholds { enumeration: value, ..thresholds },
        BehaviorPattern::ResourceAbuse => Thresholds { resource: value, ..thresholds },
        BehaviorPattern::RapidFailures => Thresholds { failure_rate: value, ..thresholds },
        BehaviorPattern::TimingAttack => Thresholds { timing_max: value, ..thresholds },
        BehaviorPattern::AnomalousLocation => Thresholds { location: value, ..thresholds },
        BehaviorPattern::Normal | BehaviorPattern::DeviceChange => thresholds,
    }
}

/// Whether `indicators` binds `key` to a fraction that, limited to the range
/// from zero to one, is strictly above `threshold`.
pub open spec fn exceeds(indicators: Map<Seq<char>, i64>, key: Seq<char>, threshold: int) -> bool {
    indicators.contains_key(key) && limited(indicators[key] as int) > threshold
}

/// Limiting a fraction changes no outcome while the cut point lies within
/// the range from zero to one: the limited reading is above the cut point
/// exactly when the number sent is.
pub proof fn lemma_limit_changes_no_outcome(value: int, threshold: int)
    requires
        0 <= threshold < UNIT,
    ensures
        limited(value) > threshold <==> value > threshold,
{
}

/// Whether `indicators` binds `key` to a value strictly between zero and `max`.
pub open spec fn within_band(indicators: Map<Seq<char>, i64>, key: Seq<char>, max: int) -> bool {
    indicators.contains_key(key) && 0 < indicators[key] < max
}

/// Whether the rule for `pattern` fires on `indicators`. `Normal` and
/// `DeviceChange` have no rule and never fire.
pub open spec fn rule_fires(
    thresholds: Thresholds,
    pattern: BehaviorPattern,
    indicators: Map<Seq<char>, i64>,
) -> bool {
    match pattern {
        BehaviorPattern::PayloadInjection => exceeds(
            indicators,
            KEY_INJECTION_SCORE@,
            thresholds.injection as int,
        ),
        BehaviorPattern::CredentialSpray => exceeds(
            indicators,
            KEY_SPRAY_SCORE@,
            thresholds.spray as int,
        ),
        BehaviorPattern::Enumeration => exceeds(
            indicators,
            KEY_ENUMERATION_SCORE@,
            thresholds.enumeration as int,
        ),
        BehaviorPattern::ResourceAbuse => exceeds(
            indicators,
            KEY_RESOURCE_USAGE@,
            thresholds.resource as int,
        ),
        BehaviorPattern::RapidFailures => exceeds(
            indicators,
            KEY_FAILURE_RATE@,
            thresholds.failure_rate as int,
        ),
        BehaviorPattern::TimingAttack => within_band(
            indicators,
            KEY_TIMING_VARIANCE@,
            thresholds.timing_max as int,
        ),
        BehaviorPattern::AnomalousLocation => exceeds(
            indicators,
            KEY_LOCATION_RISK@,
            thresholds.location as int,
        ),
        BehaviorPattern::Normal | BehaviorPattern::DeviceChange => false,
    }
}

/// Place of a pattern in the evaluation order, most severe rule first.
/// Patterns without a rule come after all the others.
pub open spec fn evaluation_rank(pattern: BehaviorPattern) -> int {
    match pattern {
        BehaviorPattern::PayloadInjection => 0,
        BehaviorPattern::CredentialSpray => 1,
        BehaviorPattern::Enumeration => 2,
        BehaviorPattern::ResourceAbuse => 3,
        BehaviorPattern::RapidFailures => 4,
        BehaviorPattern::TimingAttack => 5,
        BehaviorPattern::AnomalousLocation => 6,
        BehaviorPattern::DeviceChange => 7,
        BehaviorPattern::Normal => 8,
    }
}

/// `pattern` alone when its rule fires, nothing otherwise.
pub open spec fn emitted(
    thresholds: Thresholds,
    pattern: BehaviorPattern,
    indicators: Map<Seq<char>, i64>,
) -> Seq<BehaviorPattern> {
    if rule_fires(thresholds, pattern, indicators) {
        seq![pattern]
    } else {
        Seq::empty()
    }
}

/// The patterns whose rules fire on `indicators`, in evaluation order.
pub open spec fn detected_patterns(thresholds: Thresholds, indicators: Map<Seq<char>, i64>) -> Seq<
    BehaviorPattern,
> {
    emitted(thresholds, BehaviorPattern::PayloadInjection, indicators)
        + emitted(thresholds, BehaviorPattern::CredentialSpray, indicators)
        + emitted(thresholds, BehaviorPattern::Enumeration, indicators)
        + emitted(thresholds, BehaviorPattern::ResourceAbuse, indicators)
        + emitted(thresholds, BehaviorPattern::RapidFailures, indicators)
        + emitted(thresholds, BehaviorPattern::TimingAttack, indicators)
        + emitted(thresholds, BehaviorPattern::AnomalousLocation, indicators)
}

/// What [`detected_patterns`] amounts to: a pattern is reported exactly when
/// its rule fires, and the report is strictly ascending in evaluation order,
/// so no pattern is reported twice.
pub proof fn lemma_detected_patterns(thresholds: Thresholds, indicators: Map<Seq<char>, i64>)
    ensures
        forall|p: BehaviorPattern|
            detected_patterns(thresholds, indicators).contains(p) <==> rule_fires(
                thresholds,
                p,
                indicators,
            ),
        forall|i: int, j: int|
            0 <= i < j < detected_patterns(thresholds, indicators).len() ==> evaluation_rank(
                detected_patterns(thresholds, indicators)[i],
            ) < evaluation_rank(detected_patterns(thresholds, indicators)[j]),
        detected_patterns(thresholds, indicators).no_duplicates(),
        detected_patterns(thresholds, indicators).len() <= 7,
{
    let d = detected_patterns(thresholds, indicators);
    let e0 = emitted(thresholds, BehaviorPattern::PayloadInjection, indicators);
    let e1 = emitted(thresholds, BehaviorPattern::CredentialSpray, indicators);
    let e2 = emitted(thresholds, BehaviorPattern::Enumeration, indicators);
    let e3 = emitted(thresholds, BehaviorPattern::ResourceAbuse, indicators);
    let e4 = emitted(thresholds, BehaviorPattern::RapidFailures, indicators);
    let e5 = emitted(thresholds, BehaviorPattern::TimingAttack, indicators);
    let e6 = emitted(thresholds, BehaviorPattern::AnomalousLocation, indicators);
    let s1 = e0 + e1;
    let s2 = s1 + e2;
    let s3 = s2 + e3;
    let s4 = s3 + e4;
    let s5 = s4 + e5;
    assert(d == s5 + e6);
    assert forall|p: BehaviorPattern| d.contains(p) <==> rule_fires(thresholds, p, indicators) by {
        if rule_fires(thresholds, p, indicators) {
            let at = if p == BehaviorPattern::PayloadInjection {
                0
            } else if p == BehaviorPattern::CredentialSpray {
                e0.len() as int
            } else if p == BehaviorPattern::Enumeration {
                s1.len() as int
            } else if p == BehaviorPattern::ResourceAbuse {
                s2.len() as int
            } else if p == BehaviorPattern::RapidFailures {
                s3.len() as int
            } else if p == BehaviorPattern::TimingAttack {
                s4.len() as int
            } else {
                s5.len() as int
            };
            assert(d[at] == p);
        }
    }
    assert forall|i: int, j: int| 0 <= i < j < d.len() implies evaluation_rank(d[i])
        < evaluation_rank(d[j]) by {}
}

impl Thresholds {
    /// The standard cut points.
    pub fn standard() -> (thresholds: Thresholds)
        ensures
            thresholds == standard_thresholds(),
    {
        Thresholds {
            injection: THRESHOLD_INJECTION,
            spray: THRESHOLD_SPRAY,
            enumeration: THRESHOLD_ENUMERATION,
            resource: THRESHOLD_RESOURCE,
            failure_rate: THRESHOLD_FAILURE_RATE,
            timing_max: TIMING_VARIANCE_MAX,
            location: THRESHOLD_LOCATION,
        }
    }
}

/// The stateless evaluator of the rule set.
#[derive(Clone, Copy, Debug)]
pub struct PatternMatcher {
    thresholds: Thresholds,
}

impl PatternMatcher {
    /// The cut points this matcher compares against.
    pub closed spec fn thresholds(&self) -> Thresholds {
        self.thresholds
    }

    /// A matcher with the standard cut points.
    pub fn new() -> (matcher: Self)
        ensures
            matcher.thresholds() == standard_thresholds(),
    {
        PatternMatcher { thresholds: Thresholds::standard() }
    }

    /// A matcher with the given cut points.
    pub fn with_thresholds(thresholds: Thresholds) -> (matcher: Self)
        ensures
            matcher.thresholds() == thresholds,
    {
        PatternMatcher { thresholds }
    }

    /// The cut points this matcher compares against.
    pub fn cut_points(&self) -> (thresholds: Thresholds)
        ensures
            thresholds == self.thresholds(),
    {
        self.thresholds
    }

    /// The patterns that `event` exhibits, in evaluation order, each at most
    /// once.
    pub fn detect(&self, event: &BehaviorEvent) -> (patterns: Vec<BehaviorPattern>)
        ensures
            patterns@ == detected_patterns(self.thresholds(), event.indicators@),
    {
        let mut patterns: Vec<BehaviorPattern> = Vec::new();
        let ghost t = self.thresholds;
        let ghost ind = event.indicators@;
        let ghost e0 = emitted(t, BehaviorPattern::PayloadInjection, ind);
        let ghost e1 = emitted(t, BehaviorPattern::CredentialSpray, ind);
        let ghost e2 = emitted(t, BehaviorPattern::Enumeration, ind);
        let ghost e3 = emitted(t, BehaviorPattern::ResourceAbuse, ind);
        let ghost e4 = emitted(t, BehaviorPattern::RapidFailures, ind);
        let ghost e5 = emitted(t, BehaviorPattern::TimingAttack, ind);
        let ghost e6 = emitted(t, BehaviorPattern::AnomalousLocation, ind);
        assert(patterns@ =~= Seq::<BehaviorPattern>::empty());
        if self.detect_payload_injection(&event.indicators) {
            patterns.push(BehaviorPattern::PayloadInjection);
        }
        assert(patterns@ =~= e0);
        if self.detect_credential_spray(&event.indicators) {
            patterns.push(BehaviorPattern::CredentialSpray);
        }
        assert(patterns@ =~= e0 + e1);
        if self.detect_enumeration(&event.indicators) {
            patterns.push(BehaviorPattern::Enumeration);
        }
        assert(patterns@ =~= e0 + e1 + e2);
        if self.detect_resource_abuse(&event.indicators) {
            patterns.push(BehaviorPattern::ResourceAbuse);
        }
        assert(patterns@ =~= e0 + e1 + e2 + e3);
        if self.detect_rapid_failures(&event.indicators) {
            patterns.push(BehaviorPattern::RapidFailures);
        }
        assert(patterns@ =~= e0 + e1 + e2 + e3 + e4);
        if self.detect_timing_attack(&event.indicators) {
            patterns.push(BehaviorPattern::TimingAttack);
        }
        assert(patterns@ =~= e0 + e1 + e2 + e3 + e4 + e5);
        if self.detect_anomalous_location(&event.indicators) {
            patterns.push(BehaviorPattern::AnomalousLocation);
        }
        assert(patterns@ =~= e0 + e1 + e2 + e3 + e4 + e5 + e6);
        patterns
    }

    /// Injected payloads: the injection score is above its cut point.
    pub fn detect_payload_injection(&self, indicators: &IndicatorSet) -> (fires: bool)
        ensures
            fires == rule_fires(self.thresholds(), BehaviorPattern::PayloadInjection, indicators@),
    {
        match indicators.get(KEY_INJECTION_SCORE) {
            Some(score) => limit(score) > self.thresholds.injection,
            None => false,
        }
    }

    /// Brute force: the failure rate is above its cut point.
    pub fn detect_rapid_failures(&self, indicators: &IndicatorSet) -> (fires: bool)
        ensures
            fires == rule_fires(self.thresholds(), BehaviorPattern::RapidFailures, indicators@),
    {
        match indicators.get(KEY_FAILURE_RATE) {
            Some(rate) => limit(rate) > self.thresholds.failure_rate,
            None => false,
        }
    }

    /// Scanning for users or resources: the enumeration score is above its
    /// cut point.
    pub fn detect_enumeration(&self, indicators: &IndicatorSet) -> (fires: bool)
        ensures
            fires == rule_fires(self.thresholds(), BehaviorPattern::Enumeration, indicators@),
    {
        match indicators.get(KEY_ENUMERATION_SCORE) {
            Some(score) => limit(score) > self.thresholds.enumeration,
            None => false,
        }
    }

    /// Scripted timing: the variance of response timing, in milliseconds as
    /// it was sent, is abnormally low, yet not the constant zero of a
    /// placeholder.
    pub fn detect_timing_attack(&self, indicators: &IndicatorSet) -> (fires: bool)
        ensures
            fires == rule_fires(self.thresholds(), BehaviorPattern::TimingAttack, indicators@),
    {
        match indicators.get(KEY_TIMING_VARIANCE) {
            Some(variance) => variance > 0 && variance < self.thresholds.timing_max,
            None => false,
        }
    }

    /// Exhaustion of resources: usage is above its cut point.
    pub fn detect_resource_abuse(&self, indicators: &IndicatorSet) -> (fires: bool)
        ensures
            fires == rule_fires(self.thresholds(), BehaviorPattern::ResourceAbuse, indicators@),
    {
        match indicators.get(KEY_RESOURCE_USAGE) {
            Some(usage) => limit(usage) > self.thresholds.resource,
            None => false,
        }
    }

    /// One password tried on many accounts: the spray score is above its cut
    /// point.
    pub fn detect_credential_spray(&self, indicators: &IndicatorSet) -> (fires: bool)
        ensures
            fires == rule_fires(self.thresholds(), BehaviorPattern::CredentialSpray, indicators@),
    {
        match indicators.get(KEY_SPRAY_SCORE) {
            Some(score) => limit(score) > self.thresholds.spray,
            None => false,
        }
    }

    /// A location at odds with the client's history: the location risk is
    /// above its cut point.
    pub fn detect_anomalous_location(&self, indicators: &IndicatorSet) -> (fires: bool)
        ensures
            fires == rule_fires(self.thresholds(), BehaviorPattern::AnomalousLocation, indicators@),
    {
        match indicators.get(KEY_LOCATION_RISK) {
            Some(risk) => limit(risk) > self.thresholds.location,
            None => false,
        }
    }
}

} // verus!
