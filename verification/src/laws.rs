//! What holds of the engine, proved from the model in [`crate::model`].

use crate::fixed::{is_score, limited, UNIT};
use crate::model::{
    admitted, assessed, bumped, engine_wf, needs_room, profile_after, result_of, state_after,
    wipes, EngineView, BLOCK_PERMANENTLY,
};
use crate::models::{BehaviorPattern, ProfileKey, ProfileView, ThreatLevel};
use crate::patterns::{
    detected_patterns, lemma_detected_patterns, rule_fires, rule_reading, standard_thresholds,
    Thresholds, KEY_ENUMERATION_SCORE, KEY_FAILURE_RATE, KEY_INJECTION_SCORE, KEY_LOCATION_RISK,
    KEY_RESOURCE_USAGE, KEY_SPRAY_SCORE, KEY_TIMING_VARIANCE,
};
use crate::scoring::{
    base_severity, event_score, lemma_decay_asymmetry, lemma_pattern_score_bounds,
    lemma_raw_score_sign, pattern_score, threat_level_of, ALLOW,
};
use crate::store::{evictable, fresh_profile, lemma_without_stale, profiles_wf, without_stale};
use vstd::prelude::*;

verus! {

/// One event as the model sees it.
pub struct Step {
    pub key: ProfileKey,
    pub indicators: Map<Seq<char>, i64>,
    pub now: int,
}

/// Whether `step` ends in the full wipe of the store of `state`.
pub open spec fn step_wipes(state: EngineView, step: Step) -> bool {
    needs_room(state.profiles, step.key, state.max_profiles) && wipes(
        state.profiles,
        state.max_profiles,
        step.now,
        state.staleness_window,
    )
}

/// The engine after `steps`, taken in order.
pub open spec fn run(state: EngineView, steps: Seq<Step>) -> EngineView
    decreases steps.len(),
{
    if steps.len() == 0 {
        state
    } else {
        let step = steps.last();
        state_after(run(state, steps.drop_last()), step.key, step.indicators, step.now)
    }
}

/// Whether none of `steps`, taken in order from `state`, ends in the full
/// wipe.
pub open spec fn wipe_free(state: EngineView, steps: Seq<Step>) -> bool
    decreases steps.len(),
{
    steps.len() == 0 || (wipe_free(state, steps.drop_last()) && !step_wipes(
        run(state, steps.drop_last()),
        steps.last(),
    ))
}

/// The store made ready for `key` is well formed, holds `key`, and has not
/// outgrown the cap.
pub proof fn lemma_admitted(state: EngineView, key: ProfileKey, now: int)
    requires
        engine_wf(state),
    ensures
        profiles_wf(admitted(state, key, now)),
        admitted(state, key, now).contains_key(key),
        admitted(state, key, now).len() <= state.max_profiles,
        state.profiles.contains_key(key) ==> admitted(state, key, now) == state.profiles,
{
    lemma_without_stale(state.profiles, now, state.staleness_window);
}

/// A well-formed profile is well formed after an event, whatever the event.
pub proof fn lemma_profile_after(
    profile: ProfileView,
    thresholds: Thresholds,
    indicators: Map<Seq<char>, i64>,
    now: int,
)
    requires
        profile.wf(),
    ensures
        profile_after(profile, thresholds, indicators, now).wf(),
        profile_after(profile, thresholds, indicators, now).key() == profile.key(),
        profile_after(profile, thresholds, indicators, now).first_seen == profile.first_seen,
        profile_after(profile, thresholds, indicators, now).last_seen == now,
        profile_after(profile, thresholds, indicators, now).total_events >= profile.total_events,
        profile.is_compromised ==> profile_after(
            profile,
            thresholds,
            indicators,
            now,
        ).is_compromised,
{
    lemma_decay_asymmetry(profile.risk_score, assessed(thresholds, indicators).score);
}

/// The score of an event is a fraction between zero and one.
pub proof fn lemma_assessed_is_score(thresholds: Thresholds, indicators: Map<Seq<char>, i64>)
    ensures
        is_score(assessed(thresholds, indicators).score),
{
}

/// Bounded store: an engine that is well formed stays so through every
/// event. In particular the store never holds more profiles than its cap.
pub proof fn lemma_store_stays_bounded(
    state: EngineView,
    key: ProfileKey,
    indicators: Map<Seq<char>, i64>,
    now: int,
)
    requires
        engine_wf(state),
    ensures
        engine_wf(state_after(state, key, indicators, now)),
        state_after(state, key, indicators, now).profiles.len() <= state.max_profiles,
        state_after(state, key, indicators, now).profiles.contains_key(key),
{
    lemma_admitted(state, key, now);
    lemma_profile_after(admitted(state, key, now)[key], state.thresholds, indicators, now);
}

/// Bounded store, at the cap: where the store is full, the key is new and
/// eviction frees nothing (every profile is compromised or was seen within
/// the window), the store is wiped, and afterwards holds the new key alone.
pub proof fn lemma_full_store_is_wiped(
    state: EngineView,
    key: ProfileKey,
    indicators: Map<Seq<char>, i64>,
    now: int,
)
    requires
        engine_wf(state),
        needs_room(state.profiles, key, state.max_profiles),
        forall|k: ProfileKey| #[trigger]
            state.profiles.contains_key(k) ==> !evictable(
                state.profiles[k],
                now,
                state.staleness_window,
            ),
    ensures
        wipes(state.profiles, state.max_profiles, now, state.staleness_window),
        state_after(state, key, indicators, now).profiles.dom() == set![key],
        state_after(state, key, indicators, now).profiles.len() == 1,
        state_after(state, key, indicators, now).full_clears == bumped(state.full_clears),
{
    assert(without_stale(state.profiles, now, state.staleness_window) =~= state.profiles);
}

/// Bounded store, when all is stale: where the store is full, the key is
/// new and eviction removes every profile, nothing is wiped, and the store
/// afterwards holds the new key alone.
pub proof fn lemma_stale_store_is_emptied(
    state: EngineView,
    key: ProfileKey,
    indicators: Map<Seq<char>, i64>,
    now: int,
)
    requires
        engine_wf(state),
        needs_room(state.profiles, key, state.max_profiles),
        forall|k: ProfileKey| #[trigger]
            state.profiles.contains_key(k) ==> evictable(
                state.profiles[k],
                now,
                state.staleness_window,
            ),
    ensures
        !wipes(state.profiles, state.max_profiles, now, state.staleness_window),
        state_after(state, key, indicators, now).profiles.dom() == set![key],
        state_after(state, key, indicators, now).profiles.len() == 1,
        state_after(state, key, indicators, now).full_clears == state.full_clears,
{
    assert(without_stale(state.profiles, now, state.staleness_window) =~= Map::<
        ProfileKey,
        ProfileView,
    >::empty());
}

/// Bounded store, over time: an engine that is well formed stays so
/// through any run of events, so its store never outgrows the cap.
pub proof fn lemma_run_stays_bounded(state: EngineView, steps: Seq<Step>)
    requires
        engine_wf(state),
    ensures
        engine_wf(run(state, steps)),
        run(state, steps).profiles.len() <= state.max_profiles,
        run(state, steps).max_profiles == state.max_profiles,
    decreases steps.len(),
{
    if steps.len() > 0 {
        let step = steps.last();
        lemma_run_stays_bounded(state, steps.drop_last());
        lemma_store_stays_bounded(
            run(state, steps.drop_last()),
            step.key,
            step.indicators,
            step.now,
        );
    }
}

/// Bounded store, with a window of zero: where the store is full, the key
/// is new and no profile was seen before `now`, the store is wiped, and
/// afterwards holds the new key alone.
pub proof fn lemma_zero_window_wipes(
    state: EngineView,
    key: ProfileKey,
    indicators: Map<Seq<char>, i64>,
    now: int,
)
    requires
        engine_wf(state),
        state.staleness_window == 0,
        needs_room(state.profiles, key, state.max_profiles),
        forall|k: ProfileKey| #[trigger]
            state.profiles.contains_key(k) ==> state.profiles[k].last_seen >= now,
    ensures
        wipes(state.profiles, state.max_profiles, now, state.staleness_window),
        state_after(state, key, indicators, now).profiles.len() == 1,
        state_after(state, key, indicators, now).profiles.contains_key(key),
{
    lemma_full_store_is_wiped(state, key, indicators, now);
}

/// An event under one key leaves every other key alone: afterwards the
/// other profile is as it was or, where room had to be made, gone. It is
/// not gone where no room had to be made, nor, short of the full wipe,
/// where it is compromised.
pub proof fn lemma_other_keys_untouched(
    state: EngineView,
    key: ProfileKey,
    other: ProfileKey,
    indicators: Map<Seq<char>, i64>,
    now: int,
)
    requires
        engine_wf(state),
        key != other,
    ensures
        ({
            let after = state_after(state, key, indicators, now);
            &&& after.profiles.contains_key(other) ==> state.profiles.contains_key(other)
                && after.profiles[other] == state.profiles[other]
            &&& !needs_room(state.profiles, key, state.max_profiles)
                ==> state.profiles.contains_key(other) ==> after.profiles.contains_key(other)
            &&& !step_wipes(state, Step { key, indicators, now })
                ==> state.profiles.contains_key(other) && state.profiles[other].is_compromised
                ==> after.profiles.contains_key(other)
        }),
{
}

/// Tenant isolation: an event of client `client` within tenant `tenant`
/// never alters the profile of the client of that name within another
/// tenant: that profile is afterwards as it was or, where room had to be
/// made, gone. Unless the event ends in the full wipe, the verdict on every
/// later event of that other client is what it would have been.
pub proof fn lemma_tenant_isolation(
    state: EngineView,
    tenant: Seq<char>,
    other_tenant: Seq<char>,
    client: Seq<char>,
    indicators: Map<Seq<char>, i64>,
    now: int,
)
    requires
        engine_wf(state),
        tenant != other_tenant,
    ensures
        ({
            let after = state_after(state, (tenant, client), indicators, now);
            let other = (other_tenant, client);
            &&& after.profiles.contains_key(other) ==> state.profiles.contains_key(other)
                && after.profiles[other] == state.profiles[other]
            &&& !step_wipes(state, Step { key: (tenant, client), indicators, now })
                ==> forall|later: Map<Seq<char>, i64>, at: int| #[trigger]
                result_of(after, other, later, at) == result_of(state, other, later, at)
        }),
{
    let key = (tenant, client);
    let other = (other_tenant, client);
    let after = state_after(state, key, indicators, now);
    lemma_other_keys_untouched(state, key, other, indicators, now);
    lemma_store_stays_bounded(state, key, indicators, now);
    if !step_wipes(state, Step { key, indicators, now }) {
        assert forall|later: Map<Seq<char>, i64>, at: int| #[trigger]
            result_of(after, other, later, at) == result_of(state, other, later, at) by {
            lemma_admitted_standing(state, other, at);
            lemma_admitted_standing(after, other, at);
        }
    }
}

/// The profile under which an event is booked is the client's own where it
/// has one, and a fresh one where it has none.
pub proof fn lemma_admitted_standing(state: EngineView, key: ProfileKey, now: int)
    requires
        engine_wf(state),
    ensures
        admitted(state, key, now)[key] == if state.profiles.contains_key(key) {
            state.profiles[key]
        } else {
            fresh_profile(key, now)
        },
{
}

/// Monotone compromise, first half: a critical verdict marks the client
/// compromised.
pub proof fn lemma_critical_marks_compromised(
    state: EngineView,
    key: ProfileKey,
    indicators: Map<Seq<char>, i64>,
    now: int,
)
    requires
        engine_wf(state),
        result_of(state, key, indicators, now).level == ThreatLevel::Critical,
    ensures
        state_after(state, key, indicators, now).profiles.contains_key(key),
        state_after(state, key, indicators, now).profiles[key].is_compromised,
        state_after(state, key, indicators, now).profiles[key].risk_score == UNIT,
{
    lemma_admitted(state, key, now);
}

/// Monotone compromise, second half: every event of a compromised client
/// is blocked, whatever its indicators, and leaves the client compromised.
pub proof fn lemma_compromised_is_blocked(
    state: EngineView,
    key: ProfileKey,
    indicators: Map<Seq<char>, i64>,
    now: int,
)
    requires
        engine_wf(state),
        state.profiles.contains_key(key),
        state.profiles[key].is_compromised,
    ensures
        result_of(state, key, indicators, now).score == UNIT,
        result_of(state, key, indicators, now).level == ThreatLevel::Critical,
        result_of(state, key, indicators, now).recommendation == BLOCK_PERMANENTLY@,
        result_of(state, key, indicators, now).detected_patterns == Seq::<BehaviorPattern>::empty(),
        state_after(state, key, indicators, now).profiles.contains_key(key),
        state_after(state, key, indicators, now).profiles[key].is_compromised,
        state_after(state, key, indicators, now).profiles[key].risk_score == UNIT,
{
    lemma_admitted(state, key, now);
}

/// Monotone compromise: once a client is compromised, it stays so through
/// any run of events, its own and those of others, none of which ends in
/// the full wipe; and its next event is blocked, whatever its indicators.
pub proof fn lemma_monotone_compromise(
    state: EngineView,
    key: ProfileKey,
    steps: Seq<Step>,
    indicators: Map<Seq<char>, i64>,
    now: int,
)
    requires
        engine_wf(state),
        state.profiles.contains_key(key),
        state.profiles[key].is_compromised,
        wipe_free(state, steps),
    ensures
        engine_wf(run(state, steps)),
        run(state, steps).profiles.contains_key(key),
        run(state, steps).profiles[key].is_compromised,
        result_of(run(state, steps), key, indicators, now).score == UNIT,
        result_of(run(state, steps), key, indicators, now).level == ThreatLevel::Critical,
        result_of(run(state, steps), key, indicators, now).recommendation == BLOCK_PERMANENTLY@,
    decreases steps.len(),
{
    if steps.len() > 0 {
        let step = steps.last();
        let before = run(state, steps.drop_last());
        lemma_monotone_compromise(state, key, steps.drop_last(), step.indicators, step.now);
        lemma_store_stays_bounded(before, step.key, step.indicators, step.now);
        if step.key == key {
            lemma_compromised_is_blocked(before, key, step.indicators, step.now);
        } else {
            lemma_other_keys_untouched(before, step.key, key, step.indicators, step.now);
        }
    }
    lemma_compromised_is_blocked(run(state, steps), key, indicators, now);
}

/// Monotone compromise, from the verdict on: once an event of a client is
/// judged critical, every later event of that client is blocked with a
/// score of one, whatever its indicators and whatever others send in
/// between, as long as no event in between ends in the full wipe.
pub proof fn lemma_critical_then_blocked(
    state: EngineView,
    key: ProfileKey,
    indicators: Map<Seq<char>, i64>,
    now: int,
    between: Seq<Step>,
    later_indicators: Map<Seq<char>, i64>,
    later: int,
)
    requires
        engine_wf(state),
        result_of(state, key, indicators, now).level == ThreatLevel::Critical,
        wipe_free(state_after(state, key, indicators, now), between),
    ensures
        ({
            let after = run(state_after(state, key, indicators, now), between);
            &&& result_of(after, key, later_indicators, later).score == UNIT
            &&& result_of(after, key, later_indicators, later).level == ThreatLevel::Critical
            &&& result_of(after, key, later_indicators, later).recommendation
                == BLOCK_PERMANENTLY@
        }),
{
    lemma_critical_marks_compromised(state, key, indicators, now);
    lemma_store_stays_bounded(state, key, indicators, now);
    lemma_monotone_compromise(
        state_after(state, key, indicators, now),
        key,
        between,
        later_indicators,
        later,
    );
}

/// Injection override: an event whose injection score, read as every
/// fraction is, is above the cut point is critical with a score of one,
/// whatever else it holds and whoever sends it.
pub proof fn lemma_injection_is_critical(
    state: EngineView,
    key: ProfileKey,
    indicators: Map<Seq<char>, i64>,
    now: int,
)
    requires
        indicators.contains_key(KEY_INJECTION_SCORE@),
        limited(indicators[KEY_INJECTION_SCORE@] as int) > state.thresholds.injection,
    ensures
        assessed(state.thresholds, indicators).level == ThreatLevel::Critical,
        assessed(state.thresholds, indicators).score == UNIT,
        result_of(state, key, indicators, now).level == ThreatLevel::Critical,
        result_of(state, key, indicators, now).score == UNIT,
{
    assert(detected_patterns(state.thresholds, indicators)[0] == BehaviorPattern::PayloadInjection);
}

/// Injection override under the standard cut points: an injection score
/// above eight tenths is critical, even with no other indicator.
pub proof fn lemma_injection_above_eight_tenths(indicators: Map<Seq<char>, i64>)
    requires
        indicators.contains_key(KEY_INJECTION_SCORE@),
        indicators[KEY_INJECTION_SCORE@] > 800_000,
    ensures
        assessed(standard_thresholds(), indicators).level == ThreatLevel::Critical,
        assessed(standard_thresholds(), indicators).score == UNIT,
{
    assert(detected_patterns(standard_thresholds(), indicators)[0]
        == BehaviorPattern::PayloadInjection);
}

/// No producer lowers a score: whatever failure rate an event carries, each
/// of its matched patterns counts for at least its base severity, so the
/// score of the event is no less than the base severity of any of them.
pub proof fn lemma_no_failure_rate_lowers_a_score(
    patterns: Seq<BehaviorPattern>,
    indicators: Map<Seq<char>, i64>,
    i: int,
)
    requires
        0 <= i < patterns.len(),
    ensures
        pattern_score(patterns[i], indicators) >= base_severity(patterns[i]),
        event_score(patterns, indicators) >= base_severity(patterns[i]),
        is_score(event_score(patterns, indicators)),
{
    lemma_pattern_score_bounds(patterns[i], indicators);
    lemma_raw_score_sign(patterns, indicators);
}

/// Threshold boundaries: without the override, the level of a score is
/// decided by four cut points, each band including its lower end.
pub proof fn lemma_threat_bands(score: int)
    ensures
        threat_level_of(score, false) == ThreatLevel::Critical <==> score >= 900_000,
        threat_level_of(score, false) == ThreatLevel::High <==> 750_000 <= score < 900_000,
        threat_level_of(score, false) == ThreatLevel::Medium <==> 500_000 <= score < 750_000,
        threat_level_of(score, false) == ThreatLevel::Low <==> 250_000 <= score < 500_000,
        threat_level_of(score, false) == ThreatLevel::Safe <==> score < 250_000,
        threat_level_of(score, true) == ThreatLevel::Critical,
{
}

/// A higher score never gets a lower level.
pub proof fn lemma_levels_rise_with_score(lower: int, higher: int)
    requires
        lower <= higher,
    ensures
        threat_level_of(lower, false).spec_rank() <= threat_level_of(higher, false).spec_rank(),
{
}

/// Missing indicator, no rule fire: an event without indicators exhibits no
/// pattern and scores zero, under any cut points.
pub proof fn lemma_no_indicator_no_pattern(thresholds: Thresholds)
    ensures
        detected_patterns(thresholds, Map::<Seq<char>, i64>::empty()) == Seq::<
            BehaviorPattern,
        >::empty(),
        assessed(thresholds, Map::<Seq<char>, i64>::empty()).score == 0,
        assessed(thresholds, Map::<Seq<char>, i64>::empty()).level == ThreatLevel::Safe,
        assessed(thresholds, Map::<Seq<char>, i64>::empty()).recommendation == ALLOW@,
{
}

/// Missing indicator, no rule fire, for a client: an event without
/// indicators of a client that is not compromised is reported with no
/// pattern, a score of zero, as safe, to be allowed.
pub proof fn lemma_no_indicator_is_safe(state: EngineView, key: ProfileKey, now: int)
    requires
        engine_wf(state),
        state.profiles.contains_key(key) ==> !state.profiles[key].is_compromised,
    ensures
        ({
            let result = result_of(state, key, Map::<Seq<char>, i64>::empty(), now);
            &&& result.detected_patterns == Seq::<BehaviorPattern>::empty()
            &&& result.score == 0
            &&& result.level == ThreatLevel::Safe
            &&& result.recommendation == ALLOW@
        }),
{
    lemma_no_indicator_no_pattern(state.thresholds);
    lemma_admitted_standing(state, key, now);
}

/// Missing indicator, no rule fire: a rule whose indicator the event does
/// not carry does not fire, whatever else the event carries.
pub proof fn lemma_unmeasured_rule_is_silent(
    thresholds: Thresholds,
    pattern: BehaviorPattern,
    key: Seq<char>,
    indicators: Map<Seq<char>, i64>,
)
    requires
        rule_reading(key) == Some(pattern),
        !indicators.contains_key(key),
    ensures
        !rule_fires(thresholds, pattern, indicators),
        !detected_patterns(thresholds, indicators).contains(pattern),
{
    lemma_detected_patterns(thresholds, indicators);
}

/// Each of the seven indicator names is read by its own rule; so the names
/// differ from one another.
pub proof fn lemma_keys_differ()
    ensures
        rule_reading(KEY_INJECTION_SCORE@) == Some(BehaviorPattern::PayloadInjection),
        rule_reading(KEY_SPRAY_SCORE@) == Some(BehaviorPattern::CredentialSpray),
        rule_reading(KEY_ENUMERATION_SCORE@) == Some(BehaviorPattern::Enumeration),
        rule_reading(KEY_RESOURCE_USAGE@) == Some(BehaviorPattern::ResourceAbuse),
        rule_reading(KEY_FAILURE_RATE@) == Some(BehaviorPattern::RapidFailures),
        rule_reading(KEY_TIMING_VARIANCE@) == Some(BehaviorPattern::TimingAttack),
        rule_reading(KEY_LOCATION_RISK@) == Some(BehaviorPattern::AnomalousLocation),
{
    reveal_strlit("injection_score");
    reveal_strlit("spray_score");
    reveal_strlit("enumeration_score");
    reveal_strlit("resource_usage");
    reveal_strlit("failure_rate");
    reveal_strlit("timing_variance");
    reveal_strlit("location_risk");
    assert(KEY_INJECTION_SCORE@.len() == 15);
    assert(KEY_SPRAY_SCORE@.len() == 11);
    assert(KEY_ENUMERATION_SCORE@.len() == 17);
    assert(KEY_RESOURCE_USAGE@.len() == 14);
    assert(KEY_FAILURE_RATE@.len() == 12);
    assert(KEY_TIMING_VARIANCE@.len() == 15);
    assert(KEY_LOCATION_RISK@.len() == 13);
    assert(KEY_INJECTION_SCORE@[0] == 'i');
    assert(KEY_TIMING_VARIANCE@[0] == 't');
}

} // verus!
