//! What one event does to the engine, as mathematics.
//!
//! The functions here have no executable counterpart of their own: they are
//! the terms in which [`crate::detector::AnomalyDetector`] states its
//! contracts and in which [`crate::laws`] states what follows.

use crate::fixed::UNIT;
use crate::models::{BehaviorPattern, ProfileKey, ProfileView, ScoreView, ThreatLevel};
use crate::patterns::{detected_patterns, Thresholds};
use crate::scoring::{
    critical_override, event_score, recommendation_text, threat_level_of, updated_risk,
};
use crate::store::{profiles_wf, with_profile, without_stale, ProfileMap};
use vstd::prelude::*;

verus! {

pub const BLOCK_PERMANENTLY: &'static str = "BLOCK_PERMANENTLY";

/// The state of an engine, as mathematical values.
pub struct EngineView {
    pub profiles: ProfileMap,
    pub max_profiles: nat,
    pub staleness_window: int,
    pub thresholds: Thresholds,
    pub events_processed: nat,
    pub full_clears: nat,
}

/// The invariant of an engine: a well-formed store, room for at least one
/// profile, and never more profiles than the cap.
pub open spec fn engine_wf(state: EngineView) -> bool {
    &&& profiles_wf(state.profiles)
    &&& state.max_profiles >= 1
    &&& state.profiles.len() <= state.max_profiles
}

/// What the engine concludes from one event.
pub struct Verdict {
    pub score: int,
    pub level: ThreatLevel,
    pub patterns: Seq<BehaviorPattern>,
    pub recommendation: Seq<char>,
}

/// A counter one further, held at the top of its range.
pub open spec fn bumped(n: nat) -> nat {
    if n < u64::MAX {
        n + 1
    } else {
        n
    }
}

/// Whether room has to be made before `key` is admitted: the key is new and
/// the store is at its cap.
pub open spec fn needs_room(profiles: ProfileMap, key: ProfileKey, max_profiles: nat) -> bool {
    !profiles.contains_key(key) && profiles.len() >= max_profiles
}

/// Whether making room at `now` ends in the full wipe: eviction alone does
/// not bring the store under its cap.
pub open spec fn wipes(profiles: ProfileMap, max_profiles: nat, now: int, window: int) -> bool {
    without_stale(profiles, now, window).len() >= max_profiles
}

/// The store after room was made: without its stale profiles, or empty
/// where that was not enough.
pub open spec fn after_cleanup(
    profiles: ProfileMap,
    max_profiles: nat,
    now: int,
    window: int,
) -> ProfileMap {
    if wipes(profiles, max_profiles, now, window) {
        Map::empty()
    } else {
        without_stale(profiles, now, window)
    }
}

/// The store ready to take an event for `key`: room is made where needed, a
/// new key is not turned away, and an existing key never triggers eviction.
pub open spec fn admitted(state: EngineView, key: ProfileKey, now: int) -> ProfileMap {
    let roomy = if needs_room(state.profiles, key, state.max_profiles) {
        after_cleanup(state.profiles, state.max_profiles, now, state.staleness_window)
    } else {
        state.profiles
    };
    with_profile(roomy, key, now)
}

/// A profile with one more event, seen at `now`.
pub open spec fn touched(profile: ProfileView, now: int) -> ProfileView {
    ProfileView { last_seen: now, total_events: bumped(profile.total_events), ..profile }
}

/// The verdict on every event of a compromised client, whatever the event
/// holds.
pub open spec fn blocked() -> Verdict {
    Verdict {
        score: UNIT as int,
        level: ThreatLevel::Critical,
        patterns: Seq::empty(),
        recommendation: BLOCK_PERMANENTLY@,
    }
}

/// The verdict that the rules and the scoring give on `indicators`.
pub open spec fn assessed(thresholds: Thresholds, indicators: Map<Seq<char>, i64>) -> Verdict {
    let patterns = detected_patterns(thresholds, indicators);
    let score = event_score(patterns, indicators);
    let level = threat_level_of(score, critical_override(patterns));
    Verdict { score, level, patterns, recommendation: recommendation_text(level) }
}

/// The verdict on an event of a client with `profile`.
pub open spec fn verdict_for(
    profile: ProfileView,
    thresholds: Thresholds,
    indicators: Map<Seq<char>, i64>,
) -> Verdict {
    if profile.is_compromised {
        blocked()
    } else {
        assessed(thresholds, indicators)
    }
}

/// A profile marked compromised: the flag set and the risk at one.
pub open spec fn compromised(profile: ProfileView) -> ProfileView {
    ProfileView { is_compromised: true, risk_score: UNIT as int, ..profile }
}

/// A profile after `verdict` was reached on one of its events: the risk
/// estimate follows the score, the level is recorded, and a critical
/// verdict marks the profile compromised.
pub open spec fn settled(profile: ProfileView, verdict: Verdict) -> ProfileView {
    let recorded = ProfileView {
        risk_score: updated_risk(profile.risk_score, verdict.score),
        threat_level: verdict.level,
        ..profile
    };
    if verdict.level == ThreatLevel::Critical {
        compromised(recorded)
    } else {
        recorded
    }
}

/// A profile after one event at `now`. A compromised profile is touched and
/// otherwise left alone.
pub open spec fn profile_after(
    profile: ProfileView,
    thresholds: Thresholds,
    indicators: Map<Seq<char>, i64>,
    now: int,
) -> ProfileView {
    if profile.is_compromised {
        touched(profile, now)
    } else {
        settled(touched(profile, now), assessed(thresholds, indicators))
    }
}

/// The engine after an event for `key` with `indicators` at `now`.
pub open spec fn state_after(
    state: EngineView,
    key: ProfileKey,
    indicators: Map<Seq<char>, i64>,
    now: int,
) -> EngineView {
    let ready = admitted(state, key, now);
    EngineView {
        profiles: ready.insert(key, profile_after(ready[key], state.thresholds, indicators, now)),
        events_processed: bumped(state.events_processed),
        full_clears: if needs_room(state.profiles, key, state.max_profiles) && wipes(
            state.profiles,
            state.max_profiles,
            now,
            state.staleness_window,
        ) {
            bumped(state.full_clears)
        } else {
            state.full_clears
        },
        ..state
    }
}

/// `verdict` as it is reported for the client `key` at `now`.
pub open spec fn verdict_on(key: ProfileKey, verdict: Verdict, now: int) -> ScoreView {
    ScoreView {
        client_id: key.1,
        tenant_id: key.0,
        score: verdict.score,
        level: verdict.level,
        detected_patterns: verdict.patterns,
        recommendation: verdict.recommendation,
        timestamp: now,
    }
}

/// What the engine reports on an event for `key` with `indicators` at `now`.
pub open spec fn result_of(
    state: EngineView,
    key: ProfileKey,
    indicators: Map<Seq<char>, i64>,
    now: int,
) -> ScoreView {
    verdict_on(
        key,
        verdict_for(admitted(state, key, now)[key], state.thresholds, indicators),
        now,
    )
}

/// The engine after room was made at `now`, whether or not it was needed.
pub open spec fn state_after_cleanup(state: EngineView, now: int) -> EngineView {
    EngineView {
        profiles: after_cleanup(state.profiles, state.max_profiles, now, state.staleness_window),
        full_clears: if wipes(state.profiles, state.max_profiles, now, state.staleness_window) {
            bumped(state.full_clears)
        } else {
            state.full_clears
        },
        ..state
    }
}

/// The engine after `key` was marked compromised at `now`. A key without a
/// profile is admitted first, as for an event.
pub open spec fn state_after_mark(state: EngineView, key: ProfileKey, now: int) -> EngineView {
    let ready = admitted(state, key, now);
    EngineView {
        profiles: ready.insert(key, compromised(ready[key])),
        full_clears: if needs_room(state.profiles, key, state.max_profiles) && wipes(
            state.profiles,
            state.max_profiles,
            now,
            state.staleness_window,
        ) {
            bumped(state.full_clears)
        } else {
            state.full_clears
        },
        ..state
    }
}

} // verus!
