use xlm_ns::common::{
    add_sat, build_xlm_name, decode_target_version, expiry_from_now, extract_label, grace_period_ends_at,
    is_active_at, is_claimable_at, is_time_window_open, mul_sat, parent_name, price_for_label_length,
    sub_sat, validate_account_address, validate_base_name, validate_chain_name, validate_fqdn,
    validate_label, validate_registration_years, validate_text_record_key, GRACE_PERIOD_SECONDS,
    SECONDS_PER_YEAR,
};

fn s(v: &str) -> String {
    v.to_string()
}

#[test]
fn saturating_arithmetic() {
    assert_eq!(add_sat(u64::MAX, 1), u64::MAX);
    assert_eq!(sub_sat(1, 2), 0);
    assert_eq!(mul_sat(u64::MAX, 2), u64::MAX);
    assert_eq!(add_sat(2, 3), 5);
}

#[test]
fn lifecycle_instants() {
    assert!(is_active_at(100, 100));
    assert!(!is_active_at(100, 101));
    assert!(!is_claimable_at(200, 200));
    assert!(is_claimable_at(200, 201));
    assert_eq!(grace_period_ends_at(1_000), 1_000 + GRACE_PERIOD_SECONDS);
    assert_eq!(expiry_from_now(10, 2), 10 + 2 * SECONDS_PER_YEAR);
    assert_eq!(expiry_from_now(u64::MAX - 1, 1), u64::MAX);
    assert!(is_time_window_open(5, 5, 10));
    assert!(is_time_window_open(10, 5, 10));
    assert!(!is_time_window_open(11, 5, 10));
    assert!(!is_time_window_open(4, 5, 10));
}

#[test]
fn pricing_tiers() {
    assert_eq!(price_for_label_length(1), 1_000_000_000);
    assert_eq!(price_for_label_length(4), 500_000_000);
    assert_eq!(price_for_label_length(5), 250_000_000);
    assert_eq!(price_for_label_length(6), 100_000_000);
    assert_eq!(price_for_label_length(63), 100_000_000);
}

#[test]
fn names_and_labels() {
    assert!(validate_label(&s("timmy")));
    assert!(validate_label(&s("a-b")));
    assert!(!validate_label(&s("-ab")));
    assert!(!validate_label(&s("ab-")));
    assert!(!validate_label(&s("Tim")));
    assert!(!validate_label(&s("")));
    assert!(!validate_label(&"a".repeat(64)));
    assert!(validate_fqdn(&s("pay.timmy.xlm")));
    assert!(!validate_fqdn(&s("timmy.com")));
    assert!(!validate_fqdn(&s("pay..timmy.xlm")));
    assert!(!validate_fqdn(&s(".xlm")));
    assert!(validate_base_name(&s("timmy.xlm")));
    assert!(!validate_base_name(&s("pay.timmy.xlm")));
    assert!(validate_chain_name(&s("ethereum")));
    assert!(!validate_chain_name(&s("Ethereum")));
    assert!(validate_registration_years(1));
    assert!(validate_registration_years(10));
    assert!(!validate_registration_years(0));
    assert!(!validate_registration_years(11));
    assert!(validate_text_record_key(&s("com.twitter")));
    assert!(!validate_text_record_key(&s("Twitter")));
}

#[test]
fn building_and_splitting_names() {
    assert_eq!(build_xlm_name(&s("timmy")), Some(s("timmy.xlm")));
    assert_eq!(build_xlm_name(&s("bad label")), None);
    assert_eq!(extract_label(&s("timmy.xlm")), Some(s("timmy")));
    assert_eq!(extract_label(&s("pay.timmy.xlm")), None);
    assert_eq!(parent_name(&s("app.pay.alice.xlm")), Some(s("pay.alice.xlm")));
    assert_eq!(parent_name(&s("alice.xlm")), Some(s("xlm")));
    assert_eq!(parent_name(&s("xlm")), None);
}

#[test]
fn account_addresses() {
    assert!(validate_account_address(&format!("G{}", "A".repeat(55))));
    assert!(validate_account_address(&format!("G{}7", "Z".repeat(54))));
    assert!(!validate_account_address(&format!("C{}", "A".repeat(55))));
    assert!(!validate_account_address(&format!("G{}", "A".repeat(54))));
    assert!(!validate_account_address(&format!("G{}1", "A".repeat(54))));
    assert!(!validate_account_address(&format!("G{}a", "A".repeat(54))));
}

#[test]
fn upgrade_targets() {
    assert_eq!(decode_target_version(&vec![]), 2);
    assert_eq!(decode_target_version(&vec![0, 0, 1, 0]), 256);
    assert_eq!(decode_target_version(&vec![0, 0, 0, 9, 7]), 9);
}
