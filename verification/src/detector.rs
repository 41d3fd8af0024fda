//! The engine: profile lookup, the fast path for compromised clients, rule
//! evaluation, scoring, and the cap on memory.
//!
//! One engine is built when the process starts and handed to every request;
//! an engine built per request would know nothing of what came before.

use crate::clock::now_millis;
use crate::config::{
    all_known, ConfigurationError, SecurityConfig, DEFAULT_MAX_PROFILES,
    DEFAULT_STALENESS_WINDOW_MS,
};
use crate::fixed::UNIT;
use crate::model::{
    admitted, bumped, engine_wf, needs_room, profile_after, result_of, state_after,
    state_after_cleanup, state_after_mark, verdict_for, verdict_on, wipes, EngineView,
    BLOCK_PERMANENTLY,
};
use crate::models::{AnomalyScore, BehaviorEvent, ClientProfile, HealthCheck, ThreatLevel};
use crate::patterns::{rule_reading, standard_thresholds, PatternMatcher};
use crate::scoring::{classify, lemma_decay_asymmetry, recommendation, score, update_risk};
use crate::store::{lists, ProfileMap, ProfileStore};
use vstd::prelude::*;

verus! {

pub const HEALTHY: &'static str = "healthy";

/// The answer to a question about a client that has no profile.
#[derive(Clone, Copy, Debug, PartialEq, Eq, Structural)]
pub struct NotFound;

/// The anomaly-scoring engine.
pub struct AnomalyDetector {
    profiles: ProfileStore,
    pattern_matcher: PatternMatcher,
    max_profiles: usize,
    staleness_window_ms: i64,
    events_processed: u64,
    full_clears: u64,
}

impl View for AnomalyDetector {
    type V = EngineView;

    closed spec fn view(&self) -> EngineView {
        EngineView {
            profiles: self.profiles@,
            max_profiles: self.max_profiles as nat,
            staleness_window: self.staleness_window_ms as int,
            thresholds: self.pattern_matcher.thresholds(),
            events_processed: self.events_processed as nat,
            full_clears: self.full_clears as nat,
        }
    }
}

/// A counter one further, held at the top of its range.
fn bump(n: u64) -> (next: u64)
    ensures
        next == bumped(n as nat),
{
    if n < u64::MAX {
        n + 1
    } else {
        n
    }
}

impl AnomalyDetector {
    /// The invariant of the engine; see [`engine_wf`].
    pub open spec fn wf(&self) -> bool {
        engine_wf(self@)
    }

    /// An engine with the default settings: room for a hundred thousand
    /// profiles, a staleness window of a day, the standard cut points.
    pub fn new() -> (engine: Self)
        ensures
            engine.wf(),
            engine@ == (EngineView {
                profiles: ProfileMap::empty(),
                max_profiles: DEFAULT_MAX_PROFILES as nat,
                staleness_window: DEFAULT_STALENESS_WINDOW_MS as int,
                thresholds: standard_thresholds(),
                events_processed: 0,
                full_clears: 0,
            }),
    {
        AnomalyDetector {
            profiles: ProfileStore::new(),
            pattern_matcher: PatternMatcher::new(),
            max_profiles: DEFAULT_MAX_PROFILES,
            staleness_window_ms: DEFAULT_STALENESS_WINDOW_MS,
            events_processed: 0,
            full_clears: 0,
        }
    }

    /// An engine with the settings of `config`, or the reason why `config`
    /// is refused.
    pub fn with_config(config: &SecurityConfig) -> (built: Result<Self, ConfigurationError>)
        ensures
            built is Ok <==> config.acceptable(),
            built matches Ok(engine) ==> engine.wf() && engine@ == (EngineView {
                profiles: ProfileMap::empty(),
                max_profiles: config.max_active_profiles as nat,
                staleness_window: config.staleness_window_ms as int,
                thresholds: config.thresholds(),
                events_processed: 0,
                full_clears: 0,
            }),
            built matches Err(ConfigurationError::InvalidMaxProfiles)
                <==> config.max_active_profiles == 0,
            built matches Err(ConfigurationError::UnknownThresholdKey(name))
                ==> config.max_active_profiles >= 1 && exists|i: int|
                {
                    &&& 0 <= i < config.threshold_overrides@.len()
                    &&& all_known(config.threshold_overrides@, i)
                    &&& rule_reading(#[trigger] config.threshold_overrides@[i].indicator@) is None
                    &&& name@ == config.threshold_overrides@[i].indicator@
                },
    {
        match config.validate() {
            Ok(thresholds) => Ok(
                AnomalyDetector {
                    profiles: ProfileStore::new(),
                    pattern_matcher: PatternMatcher::with_thresholds(thresholds),
                    max_profiles: config.max_active_profiles,
                    staleness_window_ms: config.staleness_window_ms,
                    events_processed: 0,
                    full_clears: 0,
                },
            ),
            Err(error) => Err(error),
        }
    }

    /// Makes room at `now`: evicts the stale profiles and, where the store
    /// is then still at its cap, wipes it. Says whether it wiped.
    pub fn cleanup_stale_profiles(&mut self, now: i64) -> (wiped: bool)
        requires
            old(self).wf(),
        ensures
            final(self).wf(),
            final(self)@ == state_after_cleanup(old(self)@, now as int),
            wiped == wipes(
                old(self)@.profiles,
                old(self)@.max_profiles,
                now as int,
                old(self)@.staleness_window,
            ),
            final(self)@.profiles.len() < final(self)@.max_profiles,
    {
        self.profiles.evict_stale(now, self.staleness_window_ms);
        if self.profiles.size() >= self.max_profiles {
            self.profiles.clear_all();
            self.full_clears = bump(self.full_clears);
            true
        } else {
            false
        }
    }

    /// Scores `event` as of the present moment. See [`Self::analyze_at`].
    /// Where the machine's clock gives no time that can be counted in
    /// milliseconds from 1970, the event is booked at the epoch itself.
    pub fn analyze(&mut self, event: &BehaviorEvent) -> (result: Result<AnomalyScore, String>)
        requires
            old(self).wf(),
        ensures
            final(self).wf(),
            result is Ok,
            exists|now: i64|
                {
                    &&& final(self)@ == state_after(
                        old(self)@,
                        (event.tenant_id@, event.client_id@),
                        event.indicators@,
                        now as int,
                    )
                    &&& result.unwrap()@ == #[trigger] result_of(
                        old(self)@,
                        (event.tenant_id@, event.client_id@),
                        event.indicators@,
                        now as int,
                    )
                },
    {
        let now = now_millis();
        self.analyze_at(event, now)
    }

    /// Scores `event` as of `now`.
    ///
    /// A client without a profile gets one, room being made first where the
    /// store is at its cap. The profile is touched. A compromised client is
    /// blocked without a look at the event; any other is judged by the
    /// rules, and its profile follows the verdict.
    pub fn analyze_at(&mut self, event: &BehaviorEvent, now: i64) -> (result: Result<
        AnomalyScore,
        String,
    >)
        requires
            old(self).wf(),
        ensures
            final(self).wf(),
            result is Ok,
            final(self)@ == state_after(
                old(self)@,
                (event.tenant_id@, event.client_id@),
                event.indicators@,
                now as int,
            ),
            result.unwrap()@ == result_of(
                old(self)@,
                (event.tenant_id@, event.client_id@),
                event.indicators@,
                now as int,
            ),
    {
        let tenant = event.tenant_id.as_str();
        let client = event.client_id.as_str();
        let profile = self.enroll(tenant, client, now);
        self.events_processed = bump(self.events_processed);
        let (updated, verdict) = self.judge(profile, event, now);
        self.profiles.put(updated);
        Ok(verdict)
    }

    /// What one event does to the profile it is booked under, and the
    /// verdict on it. The store is not touched: a caller that keeps
    /// profiles of its own, each under its own lock, applies this to one
    /// profile at a time.
    ///
    /// The profile is touched. A compromised client is blocked without a
    /// look at the event; any other is judged by the rules, and its profile
    /// follows the verdict.
    pub fn judge(&self, profile: ClientProfile, event: &BehaviorEvent, now: i64) -> (outcome: (
        ClientProfile,
        AnomalyScore,
    ))
        requires
            profile@.wf(),
        ensures
            outcome.0@ == profile_after(
                profile@,
                self@.thresholds,
                event.indicators@,
                now as int,
            ),
            outcome.0@.wf(),
            outcome.1@ == verdict_on(
                (event.tenant_id@, event.client_id@),
                verdict_for(profile@, self@.thresholds, event.indicators@),
                now as int,
            ),
    {
        let mut profile = profile;
        let was_compromised = profile.is_compromised;
        profile.last_seen = now;
        profile.total_events = bump(profile.total_events);
        if was_compromised {
            let verdict = AnomalyScore {
                client_id: event.client_id.clone(),
                tenant_id: event.tenant_id.clone(),
                score: UNIT,
                level: ThreatLevel::Critical,
                detected_patterns: Vec::new(),
                recommendation: BLOCK_PERMANENTLY.to_owned(),
                timestamp: now,
            };
            return (profile, verdict);
        }
        let detected_patterns = self.pattern_matcher.detect(event);
        let (event_score, critical_trigger) = score(&detected_patterns, &event.indicators);
        let level = classify(event_score, critical_trigger);
        proof {
            lemma_decay_asymmetry(profile.risk_score as int, event_score as int);
        }
        profile.risk_score = update_risk(profile.risk_score, event_score);
        profile.threat_level = level;
        if level == ThreatLevel::Critical {
            profile.is_compromised = true;
            profile.risk_score = UNIT;
        }
        let verdict = AnomalyScore {
            client_id: event.client_id.clone(),
            tenant_id: event.tenant_id.clone(),
            score: event_score,
            level,
            detected_patterns,
            recommendation: recommendation(level),
            timestamp: now,
        };
        (profile, verdict)
    }

    /// The profile under which the next event of `client_id` within
    /// `tenant_id` is booked. A client without a profile gets one as of
    /// `now`; where the store is at its cap, room is made first.
    fn enroll(&mut self, tenant_id: &str, client_id: &str, now: i64) -> (profile: ClientProfile)
        requires
            old(self).wf(),
        ensures
            final(self).wf(),
            final(self)@ == (EngineView {
                profiles: admitted(old(self)@, (tenant_id@, client_id@), now as int),
                full_clears: if needs_room(
                    old(self)@.profiles,
                    (tenant_id@, client_id@),
                    old(self)@.max_profiles,
                ) && wipes(
                    old(self)@.profiles,
                    old(self)@.max_profiles,
                    now as int,
                    old(self)@.staleness_window,
                ) {
                    bumped(old(self)@.full_clears)
                } else {
                    old(self)@.full_clears
                },
                ..old(self)@
            }),
            final(self)@.profiles.contains_key((tenant_id@, client_id@)),
            profile@ == final(self)@.profiles[(tenant_id@, client_id@)],
            profile@.key() == (tenant_id@, client_id@),
            profile@.wf(),
    {
        if !self.profiles.contains(tenant_id, client_id) && self.profiles.size()
            >= self.max_profiles {
            self.cleanup_stale_profiles(now);
        }
        self.profiles.get_or_create(tenant_id, client_id, now)
    }

    /// A copy of the profile of `client_id` within `tenant_id`, or `None`
    /// when the client has none.
    pub fn get_profile(&self, tenant_id: &str, client_id: &str) -> (found: Option<ClientProfile>)
        requires
            self.wf(),
        ensures
            found is Some <==> self@.profiles.contains_key((tenant_id@, client_id@)),
            found is Some ==> found.unwrap()@ == self@.profiles[(tenant_id@, client_id@)],
    {
        self.profiles.get(tenant_id, client_id)
    }

    /// A copy of every profile, each once, in no stated order. The copies
    /// do not follow later changes.
    pub fn get_all_profiles(&self) -> (listing: Vec<ClientProfile>)
        requires
            self.wf(),
        ensures
            lists(listing@, self@.profiles),
    {
        self.profiles.snapshot()
    }

    /// Marks `client_id` within `tenant_id` compromised as of the present
    /// moment, or of the epoch where the machine's clock gives no time that
    /// can be counted from it. See [`Self::mark_compromised_at`].
    pub fn mark_compromised(&mut self, tenant_id: &str, client_id: &str)
        requires
            old(self).wf(),
        ensures
            final(self).wf(),
            exists|now: i64| final(self)@ == #[trigger] state_after_mark(
                old(self)@,
                (tenant_id@, client_id@),
                now as int,
            ),
    {
        let now = now_millis();
        self.mark_compromised_at(tenant_id, client_id, now);
    }

    /// Marks `client_id` within `tenant_id` compromised, whatever its
    /// profile says: the flag is set and the risk put at one. A client
    /// without a profile is given one as of `now`, so that its first event
    /// is blocked already. Nothing is scored.
    pub fn mark_compromised_at(&mut self, tenant_id: &str, client_id: &str, now: i64)
        requires
            old(self).wf(),
        ensures
            final(self).wf(),
            final(self)@ == state_after_mark(old(self)@, (tenant_id@, client_id@), now as int),
    {
        let mut profile = self.enroll(tenant_id, client_id, now);
        profile.is_compromised = true;
        profile.risk_score = UNIT;
        self.profiles.put(profile);
    }

    /// Deletes the profile of `client_id` within `tenant_id`, the mark of
    /// compromise with it. `Err(NotFound)` exactly when there was none.
    pub fn reset_profile(&mut self, tenant_id: &str, client_id: &str) -> (done: Result<
        (),
        NotFound,
    >)
        requires
            old(self).wf(),
        ensures
            final(self).wf(),
            done is Ok <==> old(self)@.profiles.contains_key((tenant_id@, client_id@)),
            final(self)@ == (EngineView {
                profiles: old(self)@.profiles.remove((tenant_id@, client_id@)),
                ..old(self)@
            }),
    {
        if self.profiles.remove(tenant_id, client_id) {
            Ok(())
        } else {
            Err(NotFound)
        }
    }

    /// The liveness report. The engine knows how many events it scored and
    /// how many profiles it holds; the caller supplies the rest.
    pub fn health(&self, uptime_seconds: u64, memory_usage_mb: u64) -> (report: HealthCheck)
        requires
            self.wf(),
        ensures
            report.status@ == HEALTHY@,
            report.uptime_seconds == uptime_seconds,
            report.events_processed == self@.events_processed,
            report.active_profiles == self@.profiles.len(),
            report.memory_usage_mb == memory_usage_mb,
    {
        HealthCheck {
            status: HEALTHY.to_owned(),
            uptime_seconds,
            events_processed: self.events_processed,
            active_profiles: self.profiles.size() as u64,
            memory_usage_mb,
        }
    }

    /// The number of profiles held.
    pub fn profile_count(&self) -> (n: usize)
        requires
            self.wf(),
        ensures
            n == self@.profiles.len(),
    {
        self.profiles.size()
    }

    /// The cap on the number of profiles.
    pub fn max_profiles(&self) -> (n: usize)
        ensures
            n == self@.max_profiles,
    {
        self.max_profiles
    }

    /// The staleness window, in milliseconds.
    pub fn staleness_window_ms(&self) -> (window: i64)
        ensures
            window == self@.staleness_window,
    {
        self.staleness_window_ms
    }

    /// How many events were scored; held at the top of the range.
    pub fn events_processed(&self) -> (n: u64)
        ensures
            n == self@.events_processed,
    {
        self.events_processed
    }

    /// How many times the store was wiped to make room; held at the top of
    /// the range. A caller that logs wipes compares this before and after.
    pub fn full_clears(&self) -> (n: u64)
        ensures
            n == self@.full_clears,
    {
        self.full_clears
    }
}

/// Builds the engine of a process from `config`, or from the default
/// settings where there is none. A configuration is refused as
/// [`AnomalyDetector::with_config`] refuses it.
pub fn initialize(config: Option<SecurityConfig>) -> (built: Result<
    AnomalyDetector,
    ConfigurationError,
>)
    ensures
        built is Ok <==> (config matches Some(given) ==> given.acceptable()),
        built matches Err(ConfigurationError::InvalidMaxProfiles) <==> (config matches Some(given)
            && given.max_active_profiles == 0),
        built matches Err(ConfigurationError::UnknownThresholdKey(name)) ==> (config matches Some(
            given,
        ) && given.max_active_profiles >= 1 && exists|i: int|
            {
                &&& 0 <= i < given.threshold_overrides@.len()
                &&& all_known(given.threshold_overrides@, i)
                &&& rule_reading(#[trigger] given.threshold_overrides@[i].indicator@) is None
                &&& name@ == given.threshold_overrides@[i].indicator@
            }),
        built matches Ok(engine) ==> engine.wf() && engine@.profiles == ProfileMap::empty()
            && engine@.events_processed == 0 && engine@.full_clears == 0,
        built matches Ok(engine) ==> match config {
            Some(given) => {
                &&& engine@.max_profiles == given.max_active_profiles
                &&& engine@.staleness_window == given.staleness_window_ms
                &&& engine@.thresholds == given.thresholds()
            },
            None => {
                &&& engine@.max_profiles == DEFAULT_MAX_PROFILES
                &&& engine@.staleness_window == DEFAULT_STALENESS_WINDOW_MS
                &&& engine@.thresholds == standard_thresholds()
            },
        },
{
    match config {
        Some(given) => AnomalyDetector::with_config(&given),
        None => Ok(AnomalyDetector::new()),
    }
}

} // verus!
