//! What the engine is told at construction, and the checks made on it.
//!
//! A configuration that fails a check is refused outright: the engine is
//! not built on a guess.

use crate::models::BehaviorPattern;
use crate::text::same_text;
use crate::patterns::{
    rule_reading, standard_thresholds, with_cut_point, Thresholds, KEY_ENUMERATION_SCORE,
    KEY_FAILURE_RATE, KEY_INJECTION_SCORE, KEY_LOCATION_RISK, KEY_RESOURCE_USAGE, KEY_SPRAY_SCORE,
    KEY_TIMING_VARIANCE,
};
use vstd::prelude::*;

verus! {

pub const DEFAULT_MAX_PROFILES: usize = 100_000;

/// Twenty-four hours, in milliseconds.
pub const DEFAULT_STALENESS_WINDOW_MS: i64 = 86_400_000;

/// One hundred, in millionths.
pub const DEFAULT_RATE_LIMIT: i64 = 100_000_000;

/// Eight tenths, in millionths.
pub const DEFAULT_SENSITIVITY: i64 = 800_000;

/// A replacement for the cut point of the rule that reads `indicator`.
#[derive(Clone, Debug)]
pub struct ThresholdOverride {
    pub indicator: String,
    pub threshold: i64,
}

/// The settings of the engine.
#[derive(Clone, Debug)]
pub struct SecurityConfig {
    /// The most profiles the store may hold. Zero is refused.
    pub max_active_profiles: usize,
    /// Carried for the caller; the engine does not read it.
    pub rate_limit_threshold: i64,
    /// Carried for the caller; the engine does not read it.
    pub sensitivity: i64,
    /// How long, in milliseconds, a profile may go unseen before eviction
    /// may remove it.
    pub staleness_window_ms: i64,
    /// Replacements for cut points, applied in order. One that names no
    /// indicator that a rule reads is refused.
    pub threshold_overrides: Vec<ThresholdOverride>,
}

/// Why a configuration was refused.
#[derive(Clone, Debug, PartialEq, Eq)]
pub enum ConfigurationError {
    /// The store was given no room at all.
    InvalidMaxProfiles,
    /// An override names an indicator that no rule reads; this is the name.
    UnknownThresholdKey(String),
}

/// Whether every override up to, not including, position `end` names an
/// indicator that a rule reads.
pub open spec fn all_known(overrides: Seq<ThresholdOverride>, end: int) -> bool {
    forall|i: int| 0 <= i < end ==> rule_reading(#[trigger] overrides[i].indicator@) is Some
}

/// `base` after `overrides` have been applied in order. An override that
/// names no rule changes nothing.
pub open spec fn overridden(base: Thresholds, overrides: Seq<ThresholdOverride>) -> Thresholds
    decreases overrides.len(),
{
    if overrides.len() == 0 {
        base
    } else {
        let earlier = overridden(base, overrides.drop_last());
        match rule_reading(overrides.last().indicator@) {
            Some(pattern) => with_cut_point(earlier, pattern, overrides.last().threshold),
            None => earlier,
        }
    }
}

/// The rule that reads the indicator named `key`, if there is one.
pub fn rule_for(key: &str) -> (rule: Option<BehaviorPattern>)
    ensures
        rule == rule_reading(key@),
{
    if same_text(key, KEY_INJECTION_SCORE) {
        Some(BehaviorPattern::PayloadInjection)
    } else if same_text(key, KEY_SPRAY_SCORE) {
        Some(BehaviorPattern::CredentialSpray)
    } else if same_text(key, KEY_ENUMERATION_SCORE) {
        Some(BehaviorPattern::Enumeration)
    } else if same_text(key, KEY_RESOURCE_USAGE) {
        Some(BehaviorPattern::ResourceAbuse)
    } else if same_text(key, KEY_FAILURE_RATE) {
        Some(BehaviorPattern::RapidFailures)
    } else if same_text(key, KEY_TIMING_VARIANCE) {
        Some(BehaviorPattern::TimingAttack)
    } else if same_text(key, KEY_LOCATION_RISK) {
        Some(BehaviorPattern::AnomalousLocation)
    } else {
        None
    }
}

/// `thresholds` with the cut point of the rule for `pattern` set to `value`.
pub fn set_cut_point(thresholds: Thresholds, pattern: BehaviorPattern, value: i64) -> (changed:
    Thresholds)
    ensures
        changed == with_cut_point(thresholds, pattern, value),
{
    let mut changed = thresholds;
    match pattern {
        BehaviorPattern::PayloadInjection => {
            changed.injection = value;
        },
        BehaviorPattern::CredentialSpray => {
            changed.spray = value;
        },
        BehaviorPattern::Enumeration => {
            changed.enumeration = value;
        },
        BehaviorPattern::ResourceAbuse => {
            changed.resource = value;
        },
        BehaviorPattern::RapidFailures => {
            changed.failure_rate = value;
        },
        BehaviorPattern::TimingAttack => {
            changed.timing_max = value;
        },
        BehaviorPattern::AnomalousLocation => {
            changed.location = value;
        },
        BehaviorPattern::Normal => {},
        BehaviorPattern::DeviceChange => {},
    }
    changed
}

/// The standard cut points with `overrides` applied in order, or the first
/// override that names no rule.
pub fn resolve_thresholds(overrides: &Vec<ThresholdOverride>) -> (resolved: Result<
    Thresholds,
    ConfigurationError,
>)
    ensures
        match resolved {
            Ok(thresholds) => {
                &&& all_known(overrides@, overrides@.len() as int)
                &&& thresholds == overridden(standard_thresholds(), overrides@)
            },
            Err(ConfigurationError::UnknownThresholdKey(name)) => exists|i: int|
                {
                    &&& 0 <= i < overrides@.len()
                    &&& all_known(overrides@, i)
                    &&& rule_reading(#[trigger] overrides@[i].indicator@) is None
                    &&& name@ == overrides@[i].indicator@
                },
            Err(ConfigurationError::InvalidMaxProfiles) => false,
        },
{
    let mut thresholds = Thresholds::standard();
    let mut i: usize = 0;
    while i < overrides.len()
        invariant
            i <= overrides@.len(),
            all_known(overrides@, i as int),
            thresholds == overridden(standard_thresholds(), overrides@.take(i as int)),
        decreases overrides@.len() - i,
    {
        assert(overrides@.take(i + 1).drop_last() =~= overrides@.take(i as int));
        match rule_for(overrides[i].indicator.as_str()) {
            Some(pattern) => {
                thresholds = set_cut_point(thresholds, pattern, overrides[i].threshold);
            },
            None => {
                return Err(ConfigurationError::UnknownThresholdKey(overrides[i].indicator.clone()));
            },
        }
        i = i + 1;
    }
    assert(overrides@.take(i as int) =~= overrides@);
    Ok(thresholds)
}

impl SecurityConfig {
    /// Whether the engine accepts this configuration.
    pub open spec fn acceptable(&self) -> bool {
        &&& self.max_active_profiles >= 1
        &&& all_known(self.threshold_overrides@, self.threshold_overrides@.len() as int)
    }

    /// The cut points that this configuration asks for.
    pub open spec fn thresholds(&self) -> Thresholds {
        overridden(standard_thresholds(), self.threshold_overrides@)
    }

    /// Checks the configuration and gives the cut points it asks for. A
    /// store without room is reported before an unknown override.
    pub fn validate(&self) -> (checked: Result<Thresholds, ConfigurationError>)
        ensures
            checked is Ok <==> self.acceptable(),
            checked matches Ok(thresholds) ==> thresholds == self.thresholds(),
            checked matches Err(ConfigurationError::InvalidMaxProfiles)
                <==> self.max_active_profiles == 0,
            checked matches Err(ConfigurationError::UnknownThresholdKey(name)) ==> exists|i: int|
                {
                    &&& 0 <= i < self.threshold_overrides@.len()
                    &&& all_known(self.threshold_overrides@, i)
                    &&& rule_reading(#[trigger] self.threshold_overrides@[i].indicator@) is None
                    &&& name@ == self.threshold_overrides@[i].indicator@
                },
    {
        if self.max_active_profiles == 0 {
            return Err(ConfigurationError::InvalidMaxProfiles);
        }
        resolve_thresholds(&self.threshold_overrides)
    }
}

impl Default for SecurityConfig {
    /// A hundred thousand profiles, a window of a day, the standard cut
    /// points.
    fn default() -> (config: Self)
        ensures
            config.max_active_profiles == DEFAULT_MAX_PROFILES,
            config.rate_limit_threshold == DEFAULT_RATE_LIMIT,
            config.sensitivity == DEFAULT_SENSITIVITY,
            config.staleness_window_ms == DEFAULT_STALENESS_WINDOW_MS,
            config.threshold_overrides@.len() == 0,
            config.acceptable(),
            config.thresholds() == standard_thresholds(),
    {
        SecurityConfig {
            max_active_profiles: DEFAULT_MAX_PROFILES,
            rate_limit_threshold: DEFAULT_RATE_LIMIT,
            sensitivity: DEFAULT_SENSITIVITY,
            staleness_window_ms: DEFAULT_STALENESS_WINDOW_MS,
            threshold_overrides: Vec::new(),
        }
    }
}

} // verus!
