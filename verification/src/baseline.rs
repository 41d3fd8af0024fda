//! Deviation of a request from what is usual for its user.
//!
//! A [`UserBaseline`] remembers, within fixed limits, where a user comes
//! from, at which hours, with which devices and to which endpoints. A
//! request is held against it and scored in points, a point being a
//! million units as everywhere in this crate.

use crate::text::{contains_text, same_text, starts_with, texts};
use vstd::prelude::*;
use vstd::string::*;

verus! {

pub const MAX_COUNTRIES: usize = 5;

pub const MAX_USER_AGENTS: usize = 10;

pub const MAX_ENDPOINTS: usize = 50;

/// Three points.
pub const POINTS_LOCATION: i64 = 3_000_000;

/// One point and a half: work at night is not rare.
pub const POINTS_TIME: i64 = 1_500_000;

/// Two points.
pub const POINTS_DEVICE: i64 = 2_000_000;

/// Half a point: some exploring is normal.
pub const POINTS_ENDPOINT: i64 = 500_000;

pub const MEDIUM_RISK_FROM: i64 = 2_000_000;

pub const HIGH_RISK_FROM: i64 = 4_500_000;

pub const CRITICAL_RISK_FROM: i64 = 7_000_000;

pub const PRIVATE_PREFIX_TEN: &'static str = "10.";

pub const PRIVATE_PREFIX_192: &'static str = "192.";

pub const COUNTRY_LOCAL: &'static str = "LAN";

pub const COUNTRY_DEFAULT: &'static str = "US";

pub const UNUSUAL_LOCATION: &'static str = "Unusual Location: ";

pub const UNUSUAL_TIME: &'static str = "Unusual Time";

pub const NEW_DEVICE: &'static str = "New Device/Browser";

pub const NEW_PROFILE: &'static str = "New user profile created";

pub const RISK_LOW: &'static str = "low";

pub const RISK_MEDIUM: &'static str = "medium";

pub const RISK_HIGH: &'static str = "high";

pub const RISK_CRITICAL: &'static str = "critical";

pub const ACTION_BLOCK: &'static str = "BLOCK";

pub const ACTION_CHALLENGE: &'static str = "CHALLENGE";

pub const ACTION_ALLOW: &'static str = "ALLOW";

/// What is usual for one user of one tenant.
#[derive(Clone, Debug)]
pub struct UserBaseline {
    pub user_id: i32,
    pub tenant_id: String,
    pub typical_countries: Vec<String>,
    pub typical_hours: Vec<u32>,
    pub known_user_agents: Vec<String>,
    pub endpoints_history: Vec<String>,
    pub last_updated: i64,
}

/// One request to be held against a baseline.
#[derive(Clone, Debug)]
pub struct AnomalyRequest {
    pub user_id: i32,
    pub tenant_id: String,
    pub ip_address: String,
    pub user_agent: String,
    pub endpoint: String,
}

/// The answer to one request.
#[derive(Clone, Debug)]
pub struct AnomalyResponse {
    pub anomaly_score: i64,
    pub anomalies: Vec<String>,
    pub risk_level: String,
    pub action: String,
}

/// What a [`UserBaseline`] holds, as mathematical values.
pub struct BaselineView {
    pub user_id: int,
    pub tenant_id: Seq<char>,
    pub typical_countries: Seq<Seq<char>>,
    pub typical_hours: Seq<u32>,
    pub known_user_agents: Seq<Seq<char>>,
    pub endpoints_history: Seq<Seq<char>>,
    pub last_updated: int,
}

impl View for UserBaseline {
    type V = BaselineView;

    open spec fn view(&self) -> BaselineView {
        BaselineView {
            user_id: self.user_id as int,
            tenant_id: self.tenant_id@,
            typical_countries: texts(self.typical_countries@),
            typical_hours: self.typical_hours@,
            known_user_agents: texts(self.known_user_agents@),
            endpoints_history: texts(self.endpoints_history@),
            last_updated: self.last_updated as int,
        }
    }
}

impl BaselineView {
    /// The lists that have a limit are within it.
    pub open spec fn bounded(self) -> bool {
        &&& self.typical_countries.len() <= MAX_COUNTRIES
        &&& self.known_user_agents.len() <= MAX_USER_AGENTS
        &&& self.endpoints_history.len() <= MAX_ENDPOINTS
    }
}

/// What holding a request against a baseline finds.
pub struct Findings {
    pub score: int,
    pub anomalies: Seq<Seq<char>>,
}

/// The country that an address is taken to come from: the local network
/// for the two private prefixes, the default country for any other.
pub open spec fn country_of(ip: Seq<char>) -> Seq<char> {
    if PRIVATE_PREFIX_TEN@.is_prefix_of(ip) || PRIVATE_PREFIX_192@.is_prefix_of(ip) {
        COUNTRY_LOCAL@
    } else {
        COUNTRY_DEFAULT@
    }
}

/// `item` alone where `present`, nothing otherwise.
pub open spec fn noted(present: bool, item: Seq<char>) -> Seq<Seq<char>> {
    if present {
        seq![item]
    } else {
        Seq::empty()
    }
}

/// `points` where `present`, nothing otherwise.
pub open spec fn charged(present: bool, points: int) -> int {
    if present {
        points
    } else {
        0
    }
}

/// What a request from `country` at `hour` with `user_agent` to `endpoint`
/// deviates in, and how many points that makes. A new endpoint costs
/// points and is not listed.
pub open spec fn findings(
    baseline: BaselineView,
    country: Seq<char>,
    hour: u32,
    user_agent: Seq<char>,
    endpoint: Seq<char>,
) -> Findings {
    let new_country = !baseline.typical_countries.contains(country);
    let new_hour = !baseline.typical_hours.contains(hour);
    let new_device = !baseline.known_user_agents.contains(user_agent);
    let new_endpoint = !baseline.endpoints_history.contains(endpoint);
    Findings {
        score: charged(new_country, POINTS_LOCATION as int) + charged(new_hour, POINTS_TIME as int)
            + charged(new_device, POINTS_DEVICE as int) + charged(
            new_endpoint,
            POINTS_ENDPOINT as int,
        ),
        anomalies: noted(new_country, UNUSUAL_LOCATION@ + country) + noted(new_hour, UNUSUAL_TIME@)
            + noted(new_device, NEW_DEVICE@),
    }
}

/// The name of the band of a number of points.
pub open spec fn risk_level_of(score: int) -> Seq<char> {
    if score < MEDIUM_RISK_FROM {
        RISK_LOW@
    } else if score < HIGH_RISK_FROM {
        RISK_MEDIUM@
    } else if score < CRITICAL_RISK_FROM {
        RISK_HIGH@
    } else {
        RISK_CRITICAL@
    }
}

/// What is done about a request of a band: blocked where critical,
/// challenged where high, let through otherwise.
pub open spec fn action_of(risk_level: Seq<char>) -> Seq<char> {
    if risk_level == RISK_CRITICAL@ {
        ACTION_BLOCK@
    } else if risk_level == RISK_HIGH@ {
        ACTION_CHALLENGE@
    } else {
        ACTION_ALLOW@
    }
}

/// `list` with `item` at its end unless it is there already or the list
/// has `limit` items.
pub open spec fn remembered_up_to(list: Seq<Seq<char>>, item: Seq<char>, limit: int) -> Seq<
    Seq<char>,
> {
    if list.contains(item) || list.len() >= limit {
        list
    } else {
        list.push(item)
    }
}

/// `list` with `item` at its end unless it is there already; where the
/// list has `limit` items or more, its first item makes room.
pub open spec fn remembered_latest(list: Seq<Seq<char>>, item: Seq<char>, limit: int) -> Seq<
    Seq<char>,
> {
    if list.contains(item) {
        list
    } else if list.len() >= limit {
        list.drop_first().push(item)
    } else {
        list.push(item)
    }
}

/// `list` with `item` at its end; where that makes more than `limit`
/// items, the first is dropped.
pub open spec fn appended_within(list: Seq<Seq<char>>, item: Seq<char>, limit: int) -> Seq<
    Seq<char>,
> {
    if list.len() + 1 > limit {
        list.push(item).drop_first()
    } else {
        list.push(item)
    }
}

/// The baseline of a user after one more request was seen.
pub open spec fn updated_baseline(
    baseline: BaselineView,
    country: Seq<char>,
    hour: u32,
    user_agent: Seq<char>,
    endpoint: Seq<char>,
    now: int,
) -> BaselineView {
    BaselineView {
        typical_countries: remembered_up_to(
            baseline.typical_countries,
            country,
            MAX_COUNTRIES as int,
        ),
        typical_hours: if baseline.typical_hours.contains(hour) {
            baseline.typical_hours
        } else {
            baseline.typical_hours.push(hour)
        },
        known_user_agents: remembered_latest(
            baseline.known_user_agents,
            user_agent,
            MAX_USER_AGENTS as int,
        ),
        endpoints_history: appended_within(
            baseline.endpoints_history,
            endpoint,
            MAX_ENDPOINTS as int,
        ),
        last_updated: now,
        ..baseline
    }
}

/// The baseline of a user of whom one request was seen.
pub open spec fn first_baseline(
    user_id: int,
    tenant_id: Seq<char>,
    country: Seq<char>,
    hour: u32,
    user_agent: Seq<char>,
    endpoint: Seq<char>,
    now: int,
) -> BaselineView {
    BaselineView {
        user_id,
        tenant_id,
        typical_countries: seq![country],
        typical_hours: seq![hour],
        known_user_agents: seq![user_agent],
        endpoints_history: seq![endpoint],
        last_updated: now,
    }
}

/// An update keeps a baseline within its limits.
pub proof fn lemma_update_stays_bounded(
    baseline: BaselineView,
    country: Seq<char>,
    hour: u32,
    user_agent: Seq<char>,
    endpoint: Seq<char>,
    now: int,
)
    requires
        baseline.bounded(),
    ensures
        updated_baseline(baseline, country, hour, user_agent, endpoint, now).bounded(),
        updated_baseline(
            baseline,
            country,
            hour,
            user_agent,
            endpoint,
            now,
        ).endpoints_history.last() == endpoint,
        updated_baseline(
            baseline,
            country,
            hour,
            user_agent,
            endpoint,
            now,
        ).known_user_agents.contains(user_agent),
{
    let agents = remembered_latest(baseline.known_user_agents, user_agent, MAX_USER_AGENTS as int);
    if !baseline.known_user_agents.contains(user_agent) {
        assert(agents.last() == user_agent);
    }
}

/// Whether `hour` is among `list`.
pub fn contains_hour(list: &Vec<u32>, hour: u32) -> (found: bool)
    ensures
        found == list@.contains(hour),
{
    let mut i: usize = 0;
    while i < list.len()
        invariant
            i <= list@.len(),
            forall|j: int| 0 <= j < i ==> list@[j] != hour,
        decreases list@.len() - i,
    {
        if list[i] == hour {
            return true;
        }
        i = i + 1;
    }
    false
}

/// The country that `ip` is taken to come from.
pub fn extract_country(ip: &str) -> (country: String)
    ensures
        country@ == country_of(ip@),
{
    if starts_with(ip, PRIVATE_PREFIX_TEN) || starts_with(ip, PRIVATE_PREFIX_192) {
        return COUNTRY_LOCAL.to_owned();
    }
    COUNTRY_DEFAULT.to_owned()
}

/// The name of the band of `score`.
pub fn determine_risk_level(score: i64) -> (level: String)
    ensures
        level@ == risk_level_of(score as int),
{
    if score < MEDIUM_RISK_FROM {
        RISK_LOW.to_owned()
    } else if score < HIGH_RISK_FROM {
        RISK_MEDIUM.to_owned()
    } else if score < CRITICAL_RISK_FROM {
        RISK_HIGH.to_owned()
    } else {
        RISK_CRITICAL.to_owned()
    }
}

/// What is done about a request of the band named `risk_level`.
pub fn determine_action(risk_level: &str) -> (action: String)
    ensures
        action@ == action_of(risk_level@),
{
    if same_text(risk_level, RISK_CRITICAL) {
        ACTION_BLOCK.to_owned()
    } else if same_text(risk_level, RISK_HIGH) {
        ACTION_CHALLENGE.to_owned()
    } else {
        ACTION_ALLOW.to_owned()
    }
}

/// Holds `request`, made at `current_hour`, against `baseline`: the points
/// of its deviations and their descriptions, in the order location, time,
/// device.
pub fn calculate_anomaly_score(
    request: &AnomalyRequest,
    baseline: &UserBaseline,
    current_hour: u32,
) -> (found: (i64, Vec<String>))
    ensures
        found.0 == findings(
            baseline@,
            country_of(request.ip_address@),
            current_hour,
            request.user_agent@,
            request.endpoint@,
        ).score,
        texts(found.1@) == findings(
            baseline@,
            country_of(request.ip_address@),
            current_hour,
            request.user_agent@,
            request.endpoint@,
        ).anomalies,
{
    let mut score: i64 = 0;
    let mut anomalies: Vec<String> = Vec::new();
    let current_country = extract_country(request.ip_address.as_str());
    if !contains_text(&baseline.typical_countries, current_country.as_str()) {
        score = score + POINTS_LOCATION;
        let mut note = UNUSUAL_LOCATION.to_owned();
        note.append(current_country.as_str());
        anomalies.push(note);
    }

    if !contains_hour(&baseline.typical_hours, current_hour) {
        score = score + POINTS_TIME;
        anomalies.push(UNUSUAL_TIME.to_owned());
    }

    if !contains_text(&baseline.known_user_agents, request.user_agent.as_str()) {
        score = score + POINTS_DEVICE;
        anomalies.push(NEW_DEVICE.to_owned());
    }

    if !contains_text(&baseline.endpoints_history, request.endpoint.as_str()) {
        score = score + POINTS_ENDPOINT;
    }
    (score, anomalies)
}

/// The answer to `request`, made at `current_hour`. A user without a
/// baseline scores nothing, and the answer says that a profile was begun.
pub fn detect_anomaly(
    request: &AnomalyRequest,
    baseline: Option<&UserBaseline>,
    current_hour: u32,
) -> (response: AnomalyResponse)
    ensures
        match baseline {
            Some(known) => {
                let found = findings(
                    known@,
                    country_of(request.ip_address@),
                    current_hour,
                    request.user_agent@,
                    request.endpoint@,
                );
                &&& response.anomaly_score == found.score
                &&& texts(response.anomalies@) == found.anomalies
            },
            None => {
                &&& response.anomaly_score == 0
                &&& texts(response.anomalies@) == seq![NEW_PROFILE@]
            },
        },
        response.risk_level@ == risk_level_of(response.anomaly_score as int),
        response.action@ == action_of(response.risk_level@),
{
    let (score, anomalies) = match baseline {
        Some(known) => calculate_anomaly_score(request, known, current_hour),
        None => {
            let mut anomalies: Vec<String> = Vec::new();
            anomalies.push(NEW_PROFILE.to_owned());
            (0, anomalies)
        },
    };
    let risk_level = determine_risk_level(score);
    let action = determine_action(risk_level.as_str());
    AnomalyResponse { anomaly_score: score, anomalies, risk_level, action }
}

/// The baseline of the user of `request` after that request, made at hour
/// `hour` and time `now`, was seen: `existing` brought up to date, or a
/// first baseline where there was none.
pub fn update_baseline(
    existing: Option<UserBaseline>,
    request: &AnomalyRequest,
    hour: u32,
    now: i64,
) -> (updated: UserBaseline)
    ensures
        updated@ == match existing {
            Some(known) => updated_baseline(
                known@,
                country_of(request.ip_address@),
                hour,
                request.user_agent@,
                request.endpoint@,
                now as int,
            ),
            None => first_baseline(
                request.user_id as int,
                request.tenant_id@,
                country_of(request.ip_address@),
                hour,
                request.user_agent@,
                request.endpoint@,
                now as int,
            ),
        },
{
    let country = extract_country(request.ip_address.as_str());
    match existing {
        Some(known) => {
            let mut baseline = known;
            let ghost before = baseline@;
            if !contains_text(&baseline.typical_countries, country.as_str()) {
                if baseline.typical_countries.len() < MAX_COUNTRIES {
                    baseline.typical_countries.push(country);
                }
            }
            assert(texts(baseline.typical_countries@) =~= remembered_up_to(
                before.typical_countries,
                country_of(request.ip_address@),
                MAX_COUNTRIES as int,
            ));
            if !contains_hour(&baseline.typical_hours, hour) {
                baseline.typical_hours.push(hour);
            }
            if !contains_text(&baseline.known_user_agents, request.user_agent.as_str()) {
                if baseline.known_user_agents.len() >= MAX_USER_AGENTS {
                    baseline.known_user_agents.remove(0);
                }
                baseline.known_user_agents.push(request.user_agent.clone());
            }
            assert(texts(baseline.known_user_agents@) =~= remembered_latest(
                before.known_user_agents,
                request.user_agent@,
                MAX_USER_AGENTS as int,
            ));
            baseline.endpoints_history.push(request.endpoint.clone());
            if baseline.endpoints_history.len() > MAX_ENDPOINTS {
                baseline.endpoints_history.remove(0);
            }
            assert(texts(baseline.endpoints_history@) =~= appended_within(
                before.endpoints_history,
                request.endpoint@,
                MAX_ENDPOINTS as int,
            ));
            baseline.last_updated = now;
            baseline
        },
        None => {
            let mut typical_countries: Vec<String> = Vec::new();
            typical_countries.push(country);
            let mut typical_hours: Vec<u32> = Vec::new();
            typical_hours.push(hour);
            let mut known_user_agents: Vec<String> = Vec::new();
            known_user_agents.push(request.user_agent.clone());
            let mut endpoints_history: Vec<String> = Vec::new();
            endpoints_history.push(request.endpoint.clone());
            assert(texts(typical_countries@) =~= seq![country_of(request.ip_address@)]);
            assert(texts(known_user_agents@) =~= seq![request.user_agent@]);
            assert(texts(endpoints_history@) =~= seq![request.endpoint@]);
            UserBaseline {
                user_id: request.user_id,
                tenant_id: request.tenant_id.clone(),
                typical_countries,
                typical_hours,
                known_user_agents,
                endpoints_history,
                last_updated: now,
            }
        },
    }
}

/// Whether a presented key is the expected one. No key presented is no
/// match.
pub fn is_authorized(presented: Option<&str>, expected: &str) -> (authorized: bool)
    ensures
        authorized == (presented matches Some(key) && key@ == expected@),
{
    match presented {
        Some(key) => same_text(key, expected),
        None => false,
    }
}

} // verus!
