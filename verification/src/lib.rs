//! Behavioural-anomaly scoring for authentication and access events in a
//! multi-tenant service.
//!
//! For each event, a client acting within a tenant, the engine keeps a
//! running profile, evaluates the event's indicators against a fixed set of
//! rules, combines the matched patterns into a score, classifies the score
//! into a threat level, and recommends an action.
//!
//! Every quantity that is a fraction in the problem domain (indicator
//! values, severities, scores) is carried as a signed integer count of
//! millionths; see [`fixed`]. Times are milliseconds since the Unix epoch.
//!
//! The engine is [`AnomalyDetector`]. It changes only through exclusive
//! borrows; a process that serves requests in parallel shares one engine
//! behind a lock of its choice, or keeps its own profiles and applies
//! [`AnomalyDetector::judge`] to one profile at a time.
//!
//! What an event does is written down once, as mathematics, in [`model`];
//! the executable functions are proved to do exactly that, and [`laws`]
//! proves what follows from it: tenants are isolated, compromise sticks,
//! the store stays within its cap.

pub mod baseline;
mod clock;
pub mod config;
pub mod detector;
pub mod fixed;
pub mod indicators;
pub mod laws;
pub mod model;
pub mod models;
pub mod patterns;
pub mod scoring;
pub mod store;
pub mod text;

pub use config::{ConfigurationError, SecurityConfig, ThresholdOverride};
pub use detector::{initialize, AnomalyDetector, NotFound};
pub use indicators::IndicatorSet;
pub use models::{
    AnomalyScore, BehaviorEvent, BehaviorPattern, ClientProfile, DetectionResult, HealthCheck,
    ThreatLevel, ThreatSignature,
};
pub use patterns::{PatternMatcher, Thresholds};
pub use store::ProfileStore;
