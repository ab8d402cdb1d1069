use carbon_ledger::carbon_oracle::{CarbonError, CarbonOracle, MONITORING_VALIDITY_SECONDS};

fn s(x: &str) -> String {
    x.to_string()
}

fn setup() -> CarbonOracle {
    let mut o = CarbonOracle::new();
    o.initialize(s("admin"));
    o.add_oracle(&s("admin"), s("oracle"));
    o
}

#[test]
fn submit_monitoring() {
    let mut o = setup();
    let hash = [0u8; 32];
    o.submit_monitoring_data(s("oracle"), s("P1"), hash, 100, 0, 100, s("SRC"), 0).unwrap();
}

#[test]
#[should_panic]
fn unauthorized_oracle_fails() {
    let mut o = setup();
    let hash = [0u8; 32];
    o.submit_monitoring_data(s("other"), s("P1"), hash, 100, 0, 100, s("SRC"), 0).unwrap();
}

#[test]
fn update_price() {
    let mut o = setup();
    o.update_credit_price(&s("oracle"), s("VCS"), 2023, 15, s("SRC"), 0).unwrap();
}

#[test]
fn staleness_check() {
    let mut o = setup();
    let hash = [0u8; 32];
    o.submit_monitoring_data(s("oracle"), s("P1"), hash, 100, 0, 100, s("SRC"), 0).unwrap();
    assert!(o.is_monitoring_current(&s("P1"), 0));
}

#[test]
fn flag_project() {
    let mut o = setup();
    o.flag_project(&s("oracle"), &s("P1")).unwrap();
}

#[test]
fn get_benchmark_price() {
    let mut o = setup();
    o.update_credit_price(&s("oracle"), s("VCS"), 2023, 15, s("SRC"), 0).unwrap();
    o.get_benchmark_price(&s("VCS"), 2023).unwrap();
}

// Exact values and error cases.

#[test]
fn monitoring_window() {
    let mut o = setup();
    let hash = [3u8; 32];
    assert!(!o.is_monitoring_current(&s("P1"), 0));
    o.submit_monitoring_data(s("oracle"), s("P1"), hash, 100, 0, 100, s("SRC"), 1000).unwrap();
    assert!(o.is_monitoring_current(&s("P1"), 1000 + MONITORING_VALIDITY_SECONDS));
    assert!(!o.is_monitoring_current(&s("P1"), 1001 + MONITORING_VALIDITY_SECONDS));
    assert_eq!(MONITORING_VALIDITY_SECONDS, 365 * 24 * 60 * 60);
    let d = o.get_monitoring_data(&s("P1")).unwrap();
    assert_eq!(d.submitted_by, s("oracle"));
    assert_eq!(d.data_hash, hash);
    assert_eq!(d.sequestration_tonnes, 100);
    assert_eq!(d.submitted_at, 1000);
    assert_eq!(o.get_monitoring_data(&s("P2")), Err(CarbonError::MonitoringDataStale));
}

#[test]
fn unauthorized_calls_change_nothing() {
    let mut o = setup();
    let hash = [0u8; 32];
    assert_eq!(
        o.submit_monitoring_data(s("other"), s("P1"), hash, 1, 0, 1, s("SRC"), 0),
        Err(CarbonError::UnauthorizedOracle)
    );
    assert_eq!(
        o.update_credit_price(&s("other"), s("VCS"), 2023, 15, s("SRC"), 0),
        Err(CarbonError::UnauthorizedOracle)
    );
    assert_eq!(o.flag_project(&s("other"), &s("P1")), Err(CarbonError::UnauthorizedOracle));
    assert_eq!(o.get_monitoring_data(&s("P1")), Err(CarbonError::MonitoringDataStale));
    assert_eq!(o.get_benchmark_price(&s("VCS"), 2023), Err(CarbonError::PriceNotSet));
    assert!(!o.get_flagged_projects(&s("P1")));
}

#[test]
fn prices_and_flags_read_back() {
    let mut o = setup();
    o.update_credit_price(&s("oracle"), s("VCS"), 2023, 15, s("SRC"), 4).unwrap();
    o.update_credit_price(&s("oracle"), s("VCS"), 2023, 17, s("SRC2"), 5).unwrap();
    let p = o.get_benchmark_price(&s("VCS"), 2023).unwrap();
    assert_eq!(p.price_per_tonne, 17);
    assert_eq!(p.source, s("SRC2"));
    assert_eq!(p.updated_at, 5);
    assert_eq!(o.get_benchmark_price(&s("VCS"), 2024), Err(CarbonError::PriceNotSet));
    assert!(!o.get_flagged_projects(&s("P1")));
    o.flag_project(&s("oracle"), &s("P1")).unwrap();
    assert!(o.get_flagged_projects(&s("P1")));
    assert!(!o.get_flagged_projects(&s("P2")));
}

#[test]
fn restored_oracle_sees_loaded_entries() {
    let mut o = setup();
    o.submit_monitoring_data(s("oracle"), s("P1"), [1u8; 32], 5, 0, 1, s("SRC"), 10).unwrap();
    o.update_credit_price(&s("oracle"), s("VCS"), 2023, 15, s("SRC"), 4).unwrap();
    let d = o.get_monitoring_data(&s("P1")).unwrap();
    let p = o.get_benchmark_price(&s("VCS"), 2023).unwrap();
    let mut restored = CarbonOracle::restore(Some(s("admin")), None);
    restored.load_monitoring(s("P1"), d.clone());
    restored.load_price(p.clone());
    restored.load_flag(&s("P1"), true);
    assert_eq!(restored.get_monitoring_data(&s("P1")), Ok(d));
    assert_eq!(restored.get_benchmark_price(&s("VCS"), 2023), Ok(p));
    assert!(restored.get_flagged_projects(&s("P1")));
    assert!(restored.is_monitoring_current(&s("P1"), 10));
}
