//! The vocabulary of the engine: events, profiles, results, and the closed
//! enumerations that classify them.
//!
//! Times are milliseconds since the Unix epoch. Fractions are millionths
//! (see [`crate::fixed`]).

use crate::fixed::{is_score, UNIT};
use crate::indicators::IndicatorSet;
use vstd::prelude::*;

verus! {

/// Classification band of a score, from harmless to hostile. The variants
/// stand in ascending order.
#[derive(Clone, Copy, Debug, PartialEq, Eq, PartialOrd, Ord, Hash, Structural)]
pub enum ThreatLevel {
    Safe,
    Low,
    Medium,
    High,
    Critical,
}

/// A category of suspicious activity.
#[derive(Clone, Copy, Debug, PartialEq, Eq, Hash, Structural)]
pub enum BehaviorPattern {
    Normal,
    RapidFailures,
    Enumeration,
    PayloadInjection,
    TimingAttack,
    ResourceAbuse,
    DeviceChange,
    AnomalousLocation,
    CredentialSpray,
}

impl ThreatLevel {
    /// Position of the level in the order `Safe < Low < Medium < High < Critical`.
    pub open spec fn spec_rank(self) -> u8 {
        match self {
            ThreatLevel::Safe => 0,
            ThreatLevel::Low => 1,
            ThreatLevel::Medium => 2,
            ThreatLevel::High => 3,
            ThreatLevel::Critical => 4,
        }
    }

    #[verifier::when_used_as_spec(spec_rank)]
    pub fn rank(self) -> (r: u8)
        ensures
            r == self.spec_rank(),
    {
        match self {
            ThreatLevel::Safe => 0,
            ThreatLevel::Low => 1,
            ThreatLevel::Medium => 2,
            ThreatLevel::High => 3,
            ThreatLevel::Critical => 4,
        }
    }
}

/// One observed action of a client within a tenant.
#[derive(Clone, Debug)]
pub struct BehaviorEvent {
    pub tenant_id: String,
    pub client_id: String,
    /// When the event happened, by its producer. The engine books an event
    /// at the time of its analysis.
    pub timestamp: i64,
    pub indicators: IndicatorSet,
    /// Confidence of the producer in its indicators. Carried, not consumed.
    pub confidence: i64,
}

/// The running record the engine keeps for one `(tenant, client)` pair.
#[derive(Clone, Debug)]
pub struct ClientProfile {
    pub tenant_id: String,
    pub client_id: String,
    pub first_seen: i64,
    pub last_seen: i64,
    pub total_events: u64,
    pub risk_score: i64,
    pub is_compromised: bool,
    pub threat_level: ThreatLevel,
}

/// Identity of a profile: tenant first, client second.
pub type ProfileKey = (Seq<char>, Seq<char>);

/// What a [`ClientProfile`] holds, as mathematical values.
pub struct ProfileView {
    pub tenant_id: Seq<char>,
    pub client_id: Seq<char>,
    pub first_seen: int,
    pub last_seen: int,
    pub total_events: nat,
    pub risk_score: int,
    pub is_compromised: bool,
    pub threat_level: ThreatLevel,
}

impl ProfileView {
    /// The pair under which the profile is stored.
    pub open spec fn key(self) -> ProfileKey {
        (self.tenant_id, self.client_id)
    }

    /// The risk estimate is a score, and a compromised profile sits at the
    /// top of the scale.
    pub open spec fn wf(self) -> bool {
        &&& is_score(self.risk_score)
        &&& self.is_compromised ==> self.risk_score == UNIT
    }
}

impl View for ClientProfile {
    type V = ProfileView;

    open spec fn view(&self) -> ProfileView {
        ProfileView {
            tenant_id: self.tenant_id@,
            client_id: self.client_id@,
            first_seen: self.first_seen as int,
            last_seen: self.last_seen as int,
            total_events: self.total_events as nat,
            risk_score: self.risk_score as int,
            is_compromised: self.is_compromised,
            threat_level: self.threat_level,
        }
    }
}

/// The verdict on one event.
#[derive(Clone, Debug)]
pub struct AnomalyScore {
    pub client_id: String,
    pub tenant_id: String,
    pub score: i64,
    pub level: ThreatLevel,
    pub detected_patterns: Vec<BehaviorPattern>,
    pub recommendation: String,
    pub timestamp: i64,
}

/// What an [`AnomalyScore`] holds, as mathematical values.
pub struct ScoreView {
    pub client_id: Seq<char>,
    pub tenant_id: Seq<char>,
    pub score: int,
    pub level: ThreatLevel,
    pub detected_patterns: Seq<BehaviorPattern>,
    pub recommendation: Seq<char>,
    pub timestamp: int,
}

impl View for AnomalyScore {
    type V = ScoreView;

    open spec fn view(&self) -> ScoreView {
        ScoreView {
            client_id: self.client_id@,
            tenant_id: self.tenant_id@,
            score: self.score as int,
            level: self.level,
            detected_patterns: self.detected_patterns@,
            recommendation: self.recommendation@,
            timestamp: self.timestamp as int,
        }
    }
}

/// A stored description of a threat: which pattern, how often, within what
/// window, and how severe.
#[derive(Clone, Debug)]
pub struct ThreatSignature {
    pub id: String,
    pub pattern: BehaviorPattern,
    pub threshold: u32,
    pub time_window_ms: u64,
    pub severity: ThreatLevel,
    pub description: String,
}

/// Envelope around one analysis, as reported to a caller.
#[derive(Clone, Debug)]
pub struct DetectionResult {
    pub success: bool,
    pub anomaly_score: Option<AnomalyScore>,
    pub error: Option<String>,
    pub processing_time_ms: u64,
}

/// Liveness report of the engine.
#[derive(Clone, Debug)]
pub struct HealthCheck {
    pub status: String,
    pub uptime_seconds: u64,
    pub events_processed: u64,
    pub active_profiles: u64,
    pub memory_usage_mb: u64,
}

} // verus!
