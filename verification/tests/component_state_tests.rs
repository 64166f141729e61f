use app_health::component_state::dec_or_remove;
use app_health::{ComponentState, Filter, Health, Signal};

fn degraded_signal() -> Signal {
    Signal::new(Health::Degraded, Vec::new())
}

fn critical_signal() -> Signal {
    Signal::new(Health::Critical, Vec::new())
}

#[test]
fn fresh_state_is_nominal() {
    let mut cs = ComponentState::new(String::from("db"));
    assert_eq!(cs.state(), Health::Nominal);
    let report = cs.make_report(Filter::empty());
    assert_eq!(report.name(), "db");
    assert_eq!(report.state(), Health::Nominal);
    assert_eq!(report.signal_count(Health::Nominal), 0);
}

#[test]
fn state_is_max_severity_with_live_signal() {
    let mut cs = ComponentState::new(String::from("c"));
    cs.add_publisher_signal(degraded_signal());
    assert_eq!(cs.state(), Health::Degraded);
    cs.add_publisher_signal(critical_signal());
    assert_eq!(cs.state(), Health::Critical);
    cs.add_publisher_signal(degraded_signal());
    assert_eq!(cs.state(), Health::Critical);
    cs.remove_publisher_signal(critical_signal());
    assert_eq!(cs.state(), Health::Degraded);
}

#[test]
fn counts_track_signal_multiplicities() {
    let mut cs = ComponentState::new(String::from("c"));
    cs.add_publisher_signal(degraded_signal());
    cs.add_publisher_signal(degraded_signal());
    cs.add_publisher_signal(critical_signal());
    let report = cs.make_report(Filter::all());
    assert_eq!(report.signal_count(Health::Nominal), 0);
    assert_eq!(report.signal_count(Health::Degraded), 2);
    assert_eq!(report.signal_count(Health::Critical), 1);
    assert_eq!(report.signal_count(Health::Down), 0);
    assert_eq!(report.signal_count(Health::Unrecoverable), 0);

    // Two equal Degraded signals coalesce into one listing entry of count 2.
    let degraded = report.signals(Health::Degraded);
    assert_eq!(degraded.len(), 1);
    let (sig, count) = degraded.get(0);
    assert_eq!(sig.state(), Health::Degraded);
    assert_eq!(count, 2);
}

#[test]
fn report_filtering() {
    let mut cs = ComponentState::new(String::from("c1"));
    cs.add_publisher_signal(degraded_signal());
    cs.add_publisher_signal(critical_signal());

    let empty = cs.make_report(Filter::empty());
    assert_eq!(empty.signal_count(Health::Nominal), 0);
    assert_eq!(empty.signal_count(Health::Degraded), 1);
    assert_eq!(empty.signal_count(Health::Critical), 1);
    assert_eq!(empty.signal_count(Health::Down), 0);
    assert_eq!(empty.signal_count(Health::Unrecoverable), 0);
    assert!(empty.signals(Health::Nominal).is_empty());
    assert!(empty.signals(Health::Degraded).is_empty());
    assert!(empty.signals(Health::Critical).is_empty());
    assert!(empty.signals(Health::Down).is_empty());
    assert!(empty.signals(Health::Unrecoverable).is_empty());

    let filtered = cs.make_report(Filter::critical());
    assert_eq!(filtered.signal_count(Health::Degraded), 1);
    assert_eq!(filtered.signal_count(Health::Critical), 1);
    assert!(filtered.signals(Health::Degraded).is_empty());
    let critical = filtered.signals(Health::Critical);
    assert_eq!(critical.len(), 1);
    let (sig, count) = critical.get(0);
    assert_eq!(sig.state(), Health::Critical);
    assert_eq!(sig.attributes().len(), 0);
    assert_eq!(count, 1);
}

#[test]
fn publisher_fan_in_returns_to_nominal() {
    // 100 publishers on one component each publish Degraded and then Nominal;
    // afterwards everything is back at Nominal with 100 nominal signals live.
    let mut cs = ComponentState::new(String::from("c1"));
    let nominal = Signal::nominal();
    for _ in 0..100 {
        cs.add_publisher_signal(nominal.clone());
    }
    for _ in 0..100 {
        cs.remove_publisher_signal(nominal.clone());
        cs.add_publisher_signal(degraded_signal());
    }
    assert_eq!(cs.state(), Health::Degraded);
    for _ in 0..100 {
        cs.remove_publisher_signal(degraded_signal());
        cs.add_publisher_signal(nominal.clone());
    }
    assert_eq!(cs.state(), Health::Nominal);
    let report = cs.make_report(Filter::all());
    assert_eq!(report.signal_count(Health::Nominal), 100);
    assert_eq!(report.signal_count(Health::Degraded), 0);
    assert_eq!(report.signal_count(Health::Critical), 0);
    assert_eq!(report.signal_count(Health::Down), 0);
    assert_eq!(report.signal_count(Health::Unrecoverable), 0);
}

#[test]
fn dec_or_remove_decrements_multiplicity() {
    let mut bucket: Vec<(Signal, usize)> = vec![(degraded_signal(), 2)];
    dec_or_remove(&mut bucket, degraded_signal());
    assert_eq!(bucket.len(), 1);
    assert_eq!(bucket[0].1, 1);
}

#[test]
fn dec_or_remove_removes_last_entry() {
    let mut bucket: Vec<(Signal, usize)> = vec![(degraded_signal(), 1)];
    dec_or_remove(&mut bucket, degraded_signal());
    assert_eq!(bucket.len(), 0);
}

#[test]
fn dec_or_remove_ignores_missing_key() {
    let mut bucket: Vec<(Signal, usize)> = vec![(degraded_signal(), 1)];
    dec_or_remove(&mut bucket, Signal::new(Health::Degraded, vec![("k", 1i64).into()]));
    assert_eq!(bucket.len(), 1);
    assert_eq!(bucket[0].1, 1);
}

#[test]
fn contains_signal_finds_tracked_signal() {
    let mut cs = ComponentState::new(String::from("c"));
    assert!(!cs.contains_signal(&degraded_signal()));
    cs.add_publisher_signal(degraded_signal());
    assert!(cs.contains_signal(&degraded_signal()));
    assert!(!cs.contains_signal(&critical_signal()));
}

#[test]
fn filter_bits_cover_the_severities() {
    assert_eq!(Filter::empty().bits(), 0);
    assert_eq!(Filter::nominal().bits(), 1);
    assert_eq!(Filter::degraded().bits(), 2);
    assert_eq!(Filter::critical().bits(), 4);
    assert_eq!(Filter::down().bits(), 8);
    assert_eq!(Filter::unrecoverable().bits(), 16);
    assert_eq!(Filter::all().bits(), 31);
    assert_eq!(
        Filter::degraded().union(Filter::critical()).bits(),
        6
    );
    assert!(Filter::all().includes(Health::Down));
    assert!(!Filter::critical().includes(Health::Down));
    assert!(Filter::critical().includes(Health::Critical));
}
