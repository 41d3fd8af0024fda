//! From matched patterns to a score, a threat level, a recommendation, and
//! the next value of a profile's running risk estimate.

use crate::fixed::{clamp, clamp_to_score, is_score, limit, limited, UNIT};
use crate::indicators::IndicatorSet;
use crate::models::{BehaviorPattern, ThreatLevel};
use crate::patterns::KEY_FAILURE_RATE;
use vstd::prelude::*;

verus! {

pub const CRITICAL_FROM: i64 = 900_000;

pub const HIGH_FROM: i64 = 750_000;

pub const MEDIUM_FROM: i64 = 500_000;

pub const LOW_FROM: i64 = 250_000;

pub const ISOLATE_SESSION: &'static str = "ISOLATE_SESSION";

pub const REQUIRE_MFA: &'static str = "REQUIRE_MFA";

pub const THROTTLE_REQUESTS: &'static str = "THROTTLE_REQUESTS";

pub const LOG_WARNING: &'static str = "LOG_WARNING";

pub const ALLOW: &'static str = "ALLOW";

/// The severity of a pattern before amplification.
pub open spec fn base_severity(pattern: BehaviorPattern) -> int {
    match pattern {
        BehaviorPattern::PayloadInjection => 1_000_000,
        BehaviorPattern::CredentialSpray => 900_000,
        BehaviorPattern::Enumeration => 800_000,
        BehaviorPattern::ResourceAbuse => 700_000,
        BehaviorPattern::RapidFailures => 600_000,
        BehaviorPattern::TimingAttack => 500_000,
        BehaviorPattern::DeviceChange => 400_000,
        BehaviorPattern::AnomalousLocation => 300_000,
        BehaviorPattern::Normal => 0,
    }
}

/// The factor by which every severity is amplified: one plus the failure
/// rate where it was measured, one where it was not. No other indicator
/// amplifies. A failure rate outside the range from zero to one is limited
/// to it, so the factor lies between one and two: no producer can shrink a
/// severity, nor turn it negative.
pub open spec fn multiplier(indicators: Map<Seq<char>, i64>) -> int {
    if indicators.contains_key(KEY_FAILURE_RATE@) {
        UNIT + limited(indicators[KEY_FAILURE_RATE@] as int)
    } else {
        UNIT as int
    }
}

/// The contribution of one matched pattern: its amplified severity, rounded
/// down to a millionth and capped at one.
pub open spec fn pattern_score(pattern: BehaviorPattern, indicators: Map<Seq<char>, i64>) -> int {
    let amplified = base_severity(pattern) * multiplier(indicators) / (UNIT as int);
    if amplified > UNIT {
        UNIT as int
    } else {
        amplified
    }
}

/// The sum of the contributions of `patterns`.
pub open spec fn raw_score(patterns: Seq<BehaviorPattern>, indicators: Map<Seq<char>, i64>) -> int
    decreases patterns.len(),
{
    if patterns.len() == 0 {
        0
    } else {
        raw_score(patterns.drop_last(), indicators) + pattern_score(patterns.last(), indicators)
    }
}

/// Whether an injected payload is among `patterns`: the signal that is
/// critical by itself.
pub open spec fn critical_override(patterns: Seq<BehaviorPattern>) -> bool {
    patterns.contains(BehaviorPattern::PayloadInjection)
}

/// The score of an event: one when the override applies, else the sum of
/// the contributions limited to the range from zero to one.
pub open spec fn event_score(
    patterns: Seq<BehaviorPattern>,
    indicators: Map<Seq<char>, i64>,
) -> int {
    if critical_override(patterns) {
        UNIT as int
    } else {
        clamp(raw_score(patterns, indicators), 0, UNIT as int)
    }
}

/// The band of `score`. Each band includes its lower end; the override wins
/// over every band.
pub open spec fn threat_level_of(score: int, critical_override: bool) -> ThreatLevel {
    if critical_override || score >= CRITICAL_FROM {
        ThreatLevel::Critical
    } else if score >= HIGH_FROM {
        ThreatLevel::High
    } else if score >= MEDIUM_FROM {
        ThreatLevel::Medium
    } else if score >= LOW_FROM {
        ThreatLevel::Low
    } else {
        ThreatLevel::Safe
    }
}

/// The action recommended at `level`.
pub open spec fn recommendation_text(level: ThreatLevel) -> Seq<char> {
    match level {
        ThreatLevel::Critical => ISOLATE_SESSION@,
        ThreatLevel::High => REQUIRE_MFA@,
        ThreatLevel::Medium => THROTTLE_REQUESTS@,
        ThreatLevel::Low => LOG_WARNING@,
        ThreatLevel::Safe => ALLOW@,
    }
}

/// The next running risk estimate: a worse score is taken over at once, a
/// better one pulls the estimate a tenth of the way, rounded down.
pub open spec fn updated_risk(current: int, score: int) -> int {
    if score > current {
        score
    } else {
        (current * 9 + score) / 10
    }
}

/// Every contribution lies between the base severity of its pattern and
/// one, whatever the indicators hold.
pub proof fn lemma_pattern_score_bounds(pattern: BehaviorPattern, indicators: Map<Seq<char>, i64>)
    ensures
        UNIT <= multiplier(indicators) <= 2 * UNIT,
        base_severity(pattern) <= pattern_score(pattern, indicators) <= UNIT,
        0 <= pattern_score(pattern, indicators),
        !indicators.contains_key(KEY_FAILURE_RATE@) ==> pattern_score(pattern, indicators)
            == base_severity(pattern),
{
}

/// The sum of contributions is not negative, and no less than any of them.
pub proof fn lemma_raw_score_sign(patterns: Seq<BehaviorPattern>, indicators: Map<Seq<char>, i64>)
    ensures
        raw_score(patterns, indicators) >= 0,
        forall|i: int|
            0 <= i < patterns.len() ==> raw_score(patterns, indicators) >= pattern_score(
                #[trigger] patterns[i],
                indicators,
            ),
    decreases patterns.len(),
{
    if patterns.len() > 0 {
        lemma_raw_score_sign(patterns.drop_last(), indicators);
        lemma_pattern_score_bounds(patterns.last(), indicators);
        assert forall|i: int| 0 <= i < patterns.len() implies raw_score(patterns, indicators)
            >= pattern_score(#[trigger] patterns[i], indicators) by {
            if i < patterns.len() - 1 {
                assert(patterns.drop_last()[i] == patterns[i]);
            }
        }
    }
}

/// The base severity of `pattern`.
pub fn severity(pattern: &BehaviorPattern) -> (base: i64)
    ensures
        base == base_severity(*pattern),
{
    match pattern {
        BehaviorPattern::PayloadInjection => 1_000_000,
        BehaviorPattern::CredentialSpray => 900_000,
        BehaviorPattern::Enumeration => 800_000,
        BehaviorPattern::ResourceAbuse => 700_000,
        BehaviorPattern::RapidFailures => 600_000,
        BehaviorPattern::TimingAttack => 500_000,
        BehaviorPattern::DeviceChange => 400_000,
        BehaviorPattern::AnomalousLocation => 300_000,
        BehaviorPattern::Normal => 0,
    }
}

/// The contribution of one matched pattern under `indicators`.
pub fn calculate_pattern_score(pattern: &BehaviorPattern, indicators: &IndicatorSet) -> (score: i64)
    ensures
        score == pattern_score(*pattern, indicators@),
{
    let base: i64 = severity(pattern);
    let mut factor: i64 = UNIT;
    match indicators.get(KEY_FAILURE_RATE) {
        Some(failure_rate) => {
            factor = factor + limit(failure_rate);
        },
        None => {},
    }
    assert(0 <= base * factor <= 2_000_000_000_000) by (nonlinear_arith)
        requires
            0 <= base <= 1_000_000,
            1_000_000 <= factor <= 2_000_000,
    ;
    let amplified: i64 = base * factor / UNIT;
    if amplified > UNIT {
        UNIT
    } else {
        amplified
    }
}

/// The score of an event with the matched `patterns`, and whether the
/// critical override applied.
pub fn score(patterns: &Vec<BehaviorPattern>, indicators: &IndicatorSet) -> (result: (i64, bool))
    ensures
        result.0 == event_score(patterns@, indicators@),
        result.1 == critical_override(patterns@),
        is_score(result.0 as int),
{
    let mut total: i64 = 0;
    let mut injected: bool = false;
    let mut i: usize = 0;
    while i < patterns.len()
        invariant
            i <= patterns@.len(),
            total == clamp(raw_score(patterns@.take(i as int), indicators@), 0, UNIT as int),
            injected == patterns@.take(i as int).contains(BehaviorPattern::PayloadInjection),
        decreases patterns@.len() - i,
    {
        let ghost before = patterns@.take(i as int);
        let ghost after = patterns@.take(i + 1);
        let contribution = calculate_pattern_score(&patterns[i], indicators);
        proof {
            assert(after.drop_last() =~= before);
            lemma_pattern_score_bounds(patterns@[i as int], indicators@);
            lemma_raw_score_sign(before, indicators@);
        }
        total = clamp_to_score(total as i128 + contribution as i128);
        if patterns[i] == BehaviorPattern::PayloadInjection {
            injected = true;
        }
        i = i + 1;
    }
    assert(patterns@.take(i as int) =~= patterns@);
    if injected {
        (UNIT, true)
    } else {
        (total, false)
    }
}

/// The threat level of `score`, the override winning over every band.
pub fn classify(score: i64, critical_override: bool) -> (level: ThreatLevel)
    ensures
        level == threat_level_of(score as int, critical_override),
{
    if critical_override || score >= CRITICAL_FROM {
        ThreatLevel::Critical
    } else if score >= HIGH_FROM {
        ThreatLevel::High
    } else if score >= MEDIUM_FROM {
        ThreatLevel::Medium
    } else if score >= LOW_FROM {
        ThreatLevel::Low
    } else {
        ThreatLevel::Safe
    }
}

/// The action recommended at `level`.
pub fn recommendation(level: ThreatLevel) -> (text: String)
    ensures
        text@ == recommendation_text(level),
{
    match level {
        ThreatLevel::Critical => ISOLATE_SESSION.to_owned(),
        ThreatLevel::High => REQUIRE_MFA.to_owned(),
        ThreatLevel::Medium => THROTTLE_REQUESTS.to_owned(),
        ThreatLevel::Low => LOG_WARNING.to_owned(),
        ThreatLevel::Safe => ALLOW.to_owned(),
    }
}

/// The next running risk estimate of a profile at `current` after an event
/// that scored `score`.
pub fn update_risk(current: i64, score: i64) -> (next: i64)
    ensures
        next == updated_risk(current as int, score as int),
{
    if score > current {
        score
    } else {
        let weighted: i128 = current as i128 * 9 + score as i128;
        let quotient: i128 = weighted / 10;
        let remainder: i128 = weighted % 10;
        let floored: i128 = if remainder < 0 {
            quotient - 1
        } else {
            quotient
        };
        floored as i64
    }
}

/// The estimate rises at once and falls slowly: a worse score replaces it,
/// a better one leaves it between that score and its old value.
pub proof fn lemma_decay_asymmetry(current: int, score: int)
    ensures
        score > current ==> updated_risk(current, score) == score,
        score <= current ==> score <= updated_risk(current, score) <= current,
        score <= current ==> updated_risk(current, score) == (current * 9 + score) / 10,
        is_score(current) && is_score(score) ==> is_score(updated_risk(current, score)),
{
}

} // verus!
