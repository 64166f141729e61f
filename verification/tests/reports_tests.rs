use app_health::{ComponentState, Filter, Health, Reports, Signal};

#[test]
fn reports_collection_round_trip() {
    let mut cs1 = ComponentState::new(String::from("a"));
    cs1.add_publisher_signal(Signal::new(Health::Critical, Vec::new()));
    let r1 = cs1.make_report(Filter::all());
    let mut cs2 = ComponentState::new(String::from("b"));
    let r2 = cs2.make_report(Filter::all());

    let reports = Reports::new(vec![r1, r2]);
    assert_eq!(reports.len(), 2);
    assert!(!reports.is_empty());
    assert_eq!(reports.get(0).name(), "a");
    assert_eq!(reports.get(0).state(), Health::Critical);
    assert_eq!(reports.get(0).signal_count(Health::Critical), 1);
    assert_eq!(reports.get(1).name(), "b");
    assert_eq!(reports.get(1).state(), Health::Nominal);

    let cloned = reports.clone();
    assert_eq!(cloned.len(), 2);
    assert_eq!(cloned.get(0).signal_count(Health::Critical), 1);
}

#[test]
fn report_signals_listing_matches_filter() {
    let mut cs = ComponentState::new(String::from("c"));
    cs.add_publisher_signal(Signal::new(Health::Down, vec![("reason", "disk").into()]));
    let report = cs.make_report(Filter::down());
    let listing = report.signals(Health::Down);
    assert_eq!(listing.len(), 1);
    let (sig, count) = listing.get(0);
    assert_eq!(sig.state(), Health::Down);
    assert_eq!(sig.attributes().len(), 1);
    assert_eq!(sig.attributes()[0].name().as_str(), "reason");
    assert_eq!(count, 1);
    let clone = listing.clone();
    assert_eq!(clone.len(), 1);
}
