use anomaly_detector::IndicatorSet;

#[test]
fn new_set_is_empty() {
    let set = IndicatorSet::new();
    assert!(set.is_empty());
    assert_eq!(set.get("failure_rate"), None);
    assert!(!set.contains_key("failure_rate"));
}

#[test]
fn insert_then_get() {
    let mut set = IndicatorSet::new();
    set.insert("failure_rate", 500_000);
    set.insert("injection_score", 900_000);
    assert!(!set.is_empty());
    assert_eq!(set.get("failure_rate"), Some(500_000));
    assert_eq!(set.get("injection_score"), Some(900_000));
    assert_eq!(set.get("spray_score"), None);
    assert!(set.contains_key("injection_score"));
}

#[test]
fn insert_replaces_an_earlier_binding() {
    let mut set = IndicatorSet::new();
    set.insert("failure_rate", 100_000);
    set.insert("spray_score", 7);
    set.insert("failure_rate", 200_000);
    assert_eq!(set.get("failure_rate"), Some(200_000));
    assert_eq!(set.get("spray_score"), Some(7));
    set.insert("spray_score", -7);
    assert_eq!(set.get("spray_score"), Some(-7));
    assert_eq!(set.get("failure_rate"), Some(200_000));
}

#[test]
fn names_are_compared_by_their_whole_text() {
    let mut set = IndicatorSet::new();
    set.insert("failure_rate", 1);
    assert_eq!(set.get("failure_rat"), None);
    assert_eq!(set.get("failure_rate "), None);
    assert_eq!(set.get("Failure_rate"), None);
    assert_eq!(set.get(""), None);
    set.insert("", 2);
    assert_eq!(set.get(""), Some(2));
}

#[test]
fn extreme_values_are_kept() {
    let mut set = IndicatorSet::new();
    set.insert("a", i64::MAX);
    set.insert("b", i64::MIN);
    assert_eq!(set.get("a"), Some(i64::MAX));
    assert_eq!(set.get("b"), Some(i64::MIN));
}

#[test]
fn a_clone_holds_the_same_bindings() {
    let mut set = IndicatorSet::new();
    set.insert("failure_rate", 5);
    let copy = set.clone();
    set.insert("failure_rate", 6);
    assert_eq!(copy.get("failure_rate"), Some(5));
    assert_eq!(set.get("failure_rate"), Some(6));
}
