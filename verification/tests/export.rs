use xlm_ns::export::{record_status, PortfolioRecord};
use xlm_ns::registry::RegistryEntry;

fn name_record(expires_at: u64, grace_period_ends_at: u64) -> RegistryEntry {
    RegistryEntry {
        name: "timmy.xlm".to_string(),
        owner: "GDRA...OWNER".to_string(),
        resolver: Some("CABC...RESOLVER".to_string()),
        target_address: Some("GDRA...TARGET".to_string()),
        metadata_uri: None,
        ttl_seconds: 3600,
        registered_at: 1_700_000_000,
        expires_at,
        grace_period_ends_at,
        transfer_count: 0,
    }
}

#[test]
fn test_portfolio_record_status_active() {
    let record = name_record(1_700_001_000, 1_700_002_000);
    let export = PortfolioRecord::from_name_record(&record, 1_700_000_000);
    assert_eq!(export.status, "active");
}

#[test]
fn test_portfolio_record_status_grace() {
    let record = name_record(1_700_000_000, 1_700_002_000);
    let export = PortfolioRecord::from_name_record(&record, 1_700_001_000);
    assert_eq!(export.status, "grace");
}

#[test]
fn test_portfolio_record_status_expired() {
    let record = name_record(1_700_000_000, 1_700_001_000);
    let export = PortfolioRecord::from_name_record(&record, 1_700_002_000);
    assert_eq!(export.status, "expired");
}

#[test]
fn portfolio_record_copies_fields_and_defaults_missing_ones() {
    let mut record = name_record(1_700_001_000, 1_700_002_000);
    let export = PortfolioRecord::from_name_record(&record, 1_700_000_000);
    assert_eq!(export.name, "timmy.xlm");
    assert_eq!(export.owner, "GDRA...OWNER");
    assert_eq!(export.resolver, "CABC...RESOLVER");
    assert_eq!(export.target_address, "GDRA...TARGET");
    assert_eq!(export.registered_at, 1_700_000_000);
    assert_eq!(export.expires_at, 1_700_001_000);
    assert_eq!(export.grace_period_ends_at, 1_700_002_000);

    record.resolver = None;
    record.target_address = None;
    let export = PortfolioRecord::from_name_record(&record, 1_700_000_000);
    assert_eq!(export.resolver, "");
    assert_eq!(export.target_address, "");
}

#[test]
fn status_boundaries_are_inclusive() {
    let record = name_record(1_000, 2_000);
    assert_eq!(record_status(&record, 1_000), "active");
    assert_eq!(record_status(&record, 1_001), "grace");
    assert_eq!(record_status(&record, 2_000), "grace");
    assert_eq!(record_status(&record, 2_001), "expired");
}
