use anomaly_detector::baseline::{
    calculate_anomaly_score, contains_hour, detect_anomaly, determine_action,
    determine_risk_level, extract_country, is_authorized, update_baseline, AnomalyRequest,
    UserBaseline,
};
use anomaly_detector::text::{contains_text, same_text, starts_with};

fn request(ip: &str, user_agent: &str, endpoint: &str) -> AnomalyRequest {
    AnomalyRequest {
        user_id: 42,
        tenant_id: "acme".to_string(),
        ip_address: ip.to_string(),
        user_agent: user_agent.to_string(),
        endpoint: endpoint.to_string(),
    }
}

fn usual() -> UserBaseline {
    UserBaseline {
        user_id: 42,
        tenant_id: "acme".to_string(),
        typical_countries: vec!["LAN".to_string()],
        typical_hours: vec![9, 10, 11],
        known_user_agents: vec!["firefox".to_string()],
        endpoints_history: vec!["/login".to_string(), "/home".to_string()],
        last_updated: 1_000,
    }
}

fn strings(items: &[&str]) -> Vec<String> {
    items.iter().map(|s| s.to_string()).collect()
}

#[test]
fn texts_are_compared_whole() {
    assert!(same_text("", ""));
    assert!(same_text("abc", "abc"));
    assert!(!same_text("abc", "abd"));
    assert!(!same_text("abc", "ab"));
    assert!(!same_text("abc", "ABC"));
}

#[test]
fn prefixes() {
    assert!(starts_with("10.0.0.1", "10."));
    assert!(starts_with("10.", "10."));
    assert!(!starts_with("10", "10."));
    assert!(!starts_with("110.0.0.1", "10."));
    assert!(starts_with("anything", ""));
    assert!(starts_with("", ""));
    assert!(!starts_with("", "a"));
    assert!(starts_with("héllo", "hé"));
    assert!(!starts_with("héllo", "he"));
}

#[test]
fn private_addresses_are_local() {
    assert_eq!(extract_country("10.1.2.3"), "LAN");
    assert_eq!(extract_country("10."), "LAN");
    assert_eq!(extract_country("192.168.0.1"), "LAN");
    assert_eq!(extract_country("192.0.2.1"), "LAN");
}

#[test]
fn other_addresses_are_in_the_default_country() {
    assert_eq!(extract_country("8.8.8.8"), "US");
    assert_eq!(extract_country("110.1.2.3"), "US");
    assert_eq!(extract_country("10"), "US");
    assert_eq!(extract_country("192"), "US");
    assert_eq!(extract_country("1192.168.0.1"), "US");
    assert_eq!(extract_country(""), "US");
    assert_eq!(extract_country("::1"), "US");
}

#[test]
fn risk_bands() {
    assert_eq!(determine_risk_level(0), "low");
    assert_eq!(determine_risk_level(1_999_999), "low");
    assert_eq!(determine_risk_level(2_000_000), "medium");
    assert_eq!(determine_risk_level(4_499_999), "medium");
    assert_eq!(determine_risk_level(4_500_000), "high");
    assert_eq!(determine_risk_level(6_999_999), "high");
    assert_eq!(determine_risk_level(7_000_000), "critical");
    assert_eq!(determine_risk_level(i64::MAX), "critical");
    assert_eq!(determine_risk_level(i64::MIN), "low");
}

#[test]
fn actions() {
    assert_eq!(determine_action("critical"), "BLOCK");
    assert_eq!(determine_action("high"), "CHALLENGE");
    assert_eq!(determine_action("medium"), "ALLOW");
    assert_eq!(determine_action("low"), "ALLOW");
    assert_eq!(determine_action("CRITICAL"), "ALLOW");
    assert_eq!(determine_action(""), "ALLOW");
}

#[test]
fn membership() {
    let list = strings(&["a", "bc", ""]);
    assert!(contains_text(&list, "a"));
    assert!(contains_text(&list, "bc"));
    assert!(contains_text(&list, ""));
    assert!(!contains_text(&list, "b"));
    assert!(!contains_text(&vec![], "a"));
    assert!(contains_hour(&vec![1, 2, 3], 3));
    assert!(!contains_hour(&vec![1, 2, 3], 0));
    assert!(!contains_hour(&vec![], 0));
}

#[test]
fn a_usual_request_scores_nothing() {
    let (score, anomalies) =
        calculate_anomaly_score(&request("10.0.0.7", "firefox", "/home"), &usual(), 10);
    assert_eq!(score, 0);
    assert!(anomalies.is_empty());
}

#[test]
fn each_deviation_has_its_points() {
    let base = usual();
    let (location, notes) =
        calculate_anomaly_score(&request("8.8.8.8", "firefox", "/home"), &base, 10);
    assert_eq!(location, 3_000_000);
    assert_eq!(notes, strings(&["Unusual Location: US"]));
    let (time, notes) = calculate_anomaly_score(&request("10.0.0.7", "firefox", "/home"), &base, 3);
    assert_eq!(time, 1_500_000);
    assert_eq!(notes, strings(&["Unusual Time"]));
    let (device, notes) = calculate_anomaly_score(&request("10.0.0.7", "curl", "/home"), &base, 10);
    assert_eq!(device, 2_000_000);
    assert_eq!(notes, strings(&["New Device/Browser"]));
    let (endpoint, notes) =
        calculate_anomaly_score(&request("10.0.0.7", "firefox", "/admin"), &base, 10);
    assert_eq!(endpoint, 500_000);
    assert!(notes.is_empty());
}

#[test]
fn deviations_add_up() {
    let (score, anomalies) =
        calculate_anomaly_score(&request("8.8.8.8", "curl", "/admin"), &usual(), 3);
    assert_eq!(score, 7_000_000);
    assert_eq!(
        anomalies,
        strings(&["Unusual Location: US", "Unusual Time", "New Device/Browser"])
    );
    let mut abroad = usual();
    abroad.typical_countries = strings(&["US"]);
    let (score, anomalies) =
        calculate_anomaly_score(&request("192.168.1.1", "firefox", "/admin"), &abroad, 9);
    assert_eq!(score, 3_500_000);
    assert_eq!(anomalies, strings(&["Unusual Location: LAN"]));
}

#[test]
fn the_answer_to_a_request_of_a_known_user() {
    let response = detect_anomaly(&request("8.8.8.8", "curl", "/admin"), Some(&usual()), 3);
    assert_eq!(response.anomaly_score, 7_000_000);
    assert_eq!(response.risk_level, "critical");
    assert_eq!(response.action, "BLOCK");
    assert_eq!(response.anomalies.len(), 3);
    let response = detect_anomaly(&request("8.8.8.8", "curl", "/home"), Some(&usual()), 10);
    assert_eq!(response.anomaly_score, 5_000_000);
    assert_eq!(response.risk_level, "high");
    assert_eq!(response.action, "CHALLENGE");
    let response = detect_anomaly(&request("8.8.8.8", "firefox", "/home"), Some(&usual()), 10);
    assert_eq!(response.anomaly_score, 3_000_000);
    assert_eq!(response.risk_level, "medium");
    assert_eq!(response.action, "ALLOW");
    let response = detect_anomaly(&request("10.1.1.1", "firefox", "/new"), Some(&usual()), 10);
    assert_eq!(response.anomaly_score, 500_000);
    assert_eq!(response.risk_level, "low");
    assert_eq!(response.action, "ALLOW");
    assert!(response.anomalies.is_empty());
}

#[test]
fn the_answer_to_a_request_of_an_unknown_user() {
    let response = detect_anomaly(&request("8.8.8.8", "curl", "/admin"), None, 3);
    assert_eq!(response.anomaly_score, 0);
    assert_eq!(response.anomalies, strings(&["New user profile created"]));
    assert_eq!(response.risk_level, "low");
    assert_eq!(response.action, "ALLOW");
}

#[test]
fn the_first_baseline() {
    let first = update_baseline(None, &request("8.8.8.8", "curl", "/admin"), 3, 5_000);
    assert_eq!(first.user_id, 42);
    assert_eq!(first.tenant_id, "acme");
    assert_eq!(first.typical_countries, strings(&["US"]));
    assert_eq!(first.typical_hours, vec![3]);
    assert_eq!(first.known_user_agents, strings(&["curl"]));
    assert_eq!(first.endpoints_history, strings(&["/admin"]));
    assert_eq!(first.last_updated, 5_000);
}

#[test]
fn an_update_remembers_what_is_new() {
    let updated = update_baseline(Some(usual()), &request("8.8.8.8", "curl", "/admin"), 3, 5_000);
    assert_eq!(updated.user_id, 42);
    assert_eq!(updated.tenant_id, "acme");
    assert_eq!(updated.typical_countries, strings(&["LAN", "US"]));
    assert_eq!(updated.typical_hours, vec![9, 10, 11, 3]);
    assert_eq!(updated.known_user_agents, strings(&["firefox", "curl"]));
    assert_eq!(updated.endpoints_history, strings(&["/login", "/home", "/admin"]));
    assert_eq!(updated.last_updated, 5_000);
}

#[test]
fn an_update_does_not_repeat_what_is_known() {
    let updated =
        update_baseline(Some(usual()), &request("10.0.0.1", "firefox", "/home"), 10, 5_000);
    assert_eq!(updated.typical_countries, strings(&["LAN"]));
    assert_eq!(updated.typical_hours, vec![9, 10, 11]);
    assert_eq!(updated.known_user_agents, strings(&["firefox"]));
    assert_eq!(updated.endpoints_history, strings(&["/login", "/home", "/home"]));
    assert_eq!(updated.last_updated, 5_000);
}

#[test]
fn at_most_five_countries_are_remembered() {
    let mut full = usual();
    full.typical_countries = strings(&["A", "B", "C", "D", "E"]);
    let updated = update_baseline(Some(full), &request("8.8.8.8", "firefox", "/home"), 10, 1);
    assert_eq!(updated.typical_countries, strings(&["A", "B", "C", "D", "E"]));
    let mut four = usual();
    four.typical_countries = strings(&["A", "B", "C", "D"]);
    let updated = update_baseline(Some(four), &request("8.8.8.8", "firefox", "/home"), 10, 1);
    assert_eq!(updated.typical_countries, strings(&["A", "B", "C", "D", "US"]));
}

#[test]
fn the_ten_latest_user_agents_are_remembered() {
    let mut full = usual();
    full.known_user_agents = (0..10).map(|i| format!("ua{}", i)).collect();
    let updated = update_baseline(Some(full.clone()), &request("10.0.0.1", "new", "/home"), 10, 1);
    let mut expected: Vec<String> = (1..10).map(|i| format!("ua{}", i)).collect();
    expected.push("new".to_string());
    assert_eq!(updated.known_user_agents, expected);
    let same = update_baseline(Some(full.clone()), &request("10.0.0.1", "ua3", "/home"), 10, 1);
    assert_eq!(same.known_user_agents, full.known_user_agents);
}

#[test]
fn the_fifty_latest_endpoints_are_remembered() {
    let mut full = usual();
    full.endpoints_history = (0..50).map(|i| format!("/e{}", i)).collect();
    let updated = update_baseline(Some(full), &request("10.0.0.1", "firefox", "/e0"), 10, 1);
    let mut expected: Vec<String> = (1..50).map(|i| format!("/e{}", i)).collect();
    expected.push("/e0".to_string());
    assert_eq!(updated.endpoints_history, expected);
    let mut nearly = usual();
    nearly.endpoints_history = (0..49).map(|i| format!("/e{}", i)).collect();
    let updated = update_baseline(Some(nearly), &request("10.0.0.1", "firefox", "/x"), 10, 1);
    assert_eq!(updated.endpoints_history.len(), 50);
    assert_eq!(updated.endpoints_history[0], "/e0");
    assert_eq!(updated.endpoints_history[49], "/x");
}

#[test]
fn a_key_is_accepted_when_it_is_the_expected_one() {
    assert!(is_authorized(Some("secret"), "secret"));
    assert!(!is_authorized(Some("Secret"), "secret"));
    assert!(!is_authorized(Some(""), "secret"));
    assert!(!is_authorized(None, "secret"));
    assert!(is_authorized(Some(""), ""));
    assert!(!is_authorized(None, ""));
}
