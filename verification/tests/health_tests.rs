use app_health::Health;

#[test]
fn display_strings() {
    assert_eq!(Health::Nominal.as_str(), "Nominal");
    assert_eq!(Health::Degraded.as_str(), "Degraded");
    assert_eq!(Health::Critical.as_str(), "Critical");
    assert_eq!(Health::Down.as_str(), "Down");
    assert_eq!(Health::Unrecoverable.as_str(), "Unrecoverable");
}

#[test]
fn health_ordering_is_severity_order() {
    assert!(Health::Nominal < Health::Degraded);
    assert!(Health::Degraded < Health::Critical);
    assert!(Health::Critical < Health::Down);
    assert!(Health::Down < Health::Unrecoverable);
    assert_eq!(
        Health::Critical.partial_cmp(&Health::Critical),
        Some(core::cmp::Ordering::Equal)
    );
}

#[test]
fn health_default_is_nominal() {
    assert_eq!(Health::default(), Health::Nominal);
}

#[test]
fn health_worst_picks_more_severe() {
    assert_eq!(Health::Nominal.worst(Health::Critical), Health::Critical);
    assert_eq!(Health::Down.worst(Health::Degraded), Health::Down);
    assert_eq!(Health::Critical.worst(Health::Critical), Health::Critical);
}
