use xlm_ns::common::{expiry_from_now, price_for_label_length, within_grace_period, GRACE_PERIOD_SECONDS};
use xlm_ns::registrar::{
    RegistrarEvent,
    can_renew, RegistrarContract, RegistrarError, RegistrationStatus, DEFAULT_GRACE_PERIOD_SECONDS,
};
use xlm_ns::registry::{RegistryContract, RegistryError};

fn s(v: &str) -> String {
    v.to_string()
}

fn setup() -> (RegistrarContract, RegistryContract) {
    let mut registrar = RegistrarContract::new();
    let registry = RegistryContract::new();
    registrar.initialize(s("REGISTRY"), s("ADMIN")).unwrap();
    (registrar, registry)
}

#[test]
fn applies_tiered_pricing() {
    assert_eq!(price_for_label_length(3), 1_000_000_000);
    assert_eq!(price_for_label_length(5), 250_000_000);
    assert_eq!(price_for_label_length(12), 100_000_000);
}

#[test]
fn computes_expiry_and_grace_period() {
    let expiry = expiry_from_now(100, 1);
    assert!(within_grace_period(expiry, expiry + 10));
    let grace_end = expiry + GRACE_PERIOD_SECONDS;
    assert!(can_renew(grace_end, expiry + 10).unwrap());
}

#[test]
fn stores_registrations_in_contract_storage() {
    let (mut client, mut registry) = setup();
    let owner = s("GOWNER");
    let label = s("timmy");
    let name = s("timmy.xlm");

    let quote = client.quote_registration(&label, 1, 100).unwrap();
    client
        .register(&mut registry, &label, &owner, 1, quote.fee_stroops, 100)
        .unwrap();
    assert!(!client.is_available(&label, 101));

    client
        .renew(&mut registry, &name, &owner, 1, quote.fee_stroops, 200)
        .unwrap();

    let record = client.registration(&name).unwrap();
    assert_eq!(record.owner, owner);
    assert!(client.treasury_balance() >= quote.fee_stroops * 2);
    assert_eq!(registry.resolve(&name, 200).unwrap().owner, owner);
}

#[test]
fn can_renew_active_registration_before_expiry() {
    let now = 1000;
    let expiry = 2000;
    let grace_end = expiry + GRACE_PERIOD_SECONDS;
    let result = can_renew(grace_end, now);
    assert!(result.is_ok());
    assert!(result.unwrap());
}

#[test]
fn can_renew_at_exact_expiry() {
    let now = 2000;
    let expiry = 2000;
    let grace_end = expiry + GRACE_PERIOD_SECONDS;
    let result = can_renew(grace_end, now);
    assert!(result.is_ok());
    assert!(result.unwrap());
}

#[test]
fn can_renew_during_grace_period() {
    let expiry = 1000;
    let grace_end = expiry + GRACE_PERIOD_SECONDS;
    let now = expiry + 100;
    let result = can_renew(grace_end, now);
    assert!(result.is_ok());
    assert!(result.unwrap());
}

#[test]
fn can_renew_at_grace_period_boundary_minus_one() {
    let expiry = 1000;
    let grace_end = expiry + GRACE_PERIOD_SECONDS;
    let now = grace_end - 1;
    let result = can_renew(grace_end, now);
    assert!(result.is_ok());
    assert!(result.unwrap());
}

#[test]
fn can_renew_at_exact_grace_period_end() {
    let expiry = 1000;
    let grace_end = expiry + GRACE_PERIOD_SECONDS;
    let now = grace_end;
    let result = can_renew(grace_end, now);
    assert!(result.is_ok());
    assert!(result.unwrap());
}

#[test]
fn cannot_renew_claimable_registration_after_grace_period() {
    let expiry = 1000;
    let grace_end = expiry + GRACE_PERIOD_SECONDS;
    let now = grace_end + 1;
    let result = can_renew(grace_end, now);
    assert!(result.is_err());
    assert_eq!(result.unwrap_err(), RegistrarError::RegistrationClaimable);
}

#[test]
fn cannot_renew_claimable_registration_far_future() {
    let expiry = 1000;
    let grace_end = expiry + GRACE_PERIOD_SECONDS;
    let now = grace_end + 1000000;
    let result = can_renew(grace_end, now);
    assert!(result.is_err());
    assert_eq!(result.unwrap_err(), RegistrarError::RegistrationClaimable);
}

#[test]
fn renew_fails_for_claimable_registration() {
    let (mut client, mut registry) = setup();
    let owner = s("GOWNER");
    let label = s("test");
    let name = s("test.xlm");
    let quote = client.quote_registration(&label, 1, 100).unwrap();
    client
        .register(&mut registry, &label, &owner, 1, quote.fee_stroops, 100)
        .unwrap();
    let after_grace = quote.grace_period_ends_at + 1;
    let result = client.renew(&mut registry, &name, &owner, 1, quote.fee_stroops, after_grace);
    assert_eq!(result, Err(RegistrarError::RegistrationClaimable));
}

#[test]
fn renew_succeeds_at_grace_period_boundary() {
    let (mut client, mut registry) = setup();
    let owner = s("GOWNER");
    let label = s("boundary");
    let name = s("boundary.xlm");
    let quote = client.quote_registration(&label, 1, 100).unwrap();
    client
        .register(&mut registry, &label, &owner, 1, quote.fee_stroops, 100)
        .unwrap();
    let grace_end = quote.grace_period_ends_at;
    client
        .renew(&mut registry, &name, &owner, 1, quote.fee_stroops, grace_end)
        .unwrap();
    let record = client.registration(&name).unwrap();
    assert!(record.expires_at > quote.expiry_unix);
}

#[test]
fn declares_that_admin_recovery_is_not_supported() {
    let client = RegistrarContract::new();
    assert!(!client.supports_admin_recovery());
}

#[test]
fn quote_renewal_reports_current_and_extended_expiry() {
    let (mut client, mut registry) = setup();
    let owner = s("GOWNER");
    let label = s("renew");
    let name = s("renew.xlm");
    let reg_quote = client.quote_registration(&label, 1, 100).unwrap();
    client
        .register(&mut registry, &label, &owner, 1, reg_quote.fee_stroops, 100)
        .unwrap();
    let renewal = client.quote_renewal(&name, 2, 200).unwrap();
    assert_eq!(renewal.current_expiry_unix, reg_quote.expiry_unix);
    assert!(renewal.extended_expiry_unix > renewal.current_expiry_unix);
    assert_eq!(
        renewal.grace_period_ends_at,
        renewal.extended_expiry_unix + GRACE_PERIOD_SECONDS
    );
    assert_eq!(renewal.fee_stroops, 500_000_000);
    assert_eq!(renewal.pricing.annual_fee_stroops, 250_000_000);
    assert_eq!(renewal.pricing.duration_years, 2);
}

#[test]
fn quote_renewal_fails_for_unregistered_name() {
    let (client, _registry) = setup();
    let result = client.quote_renewal(&s("ghost.xlm"), 1, 100);
    assert_eq!(result, Err(RegistrarError::NotFound));
}

#[test]
fn pricing_policy_version_is_exposed() {
    let client = RegistrarContract::new();
    assert_eq!(client.pricing_policy_version(), 1);
}

#[test]
fn quote_includes_pricing_breakdown() {
    let (client, _registry) = setup();
    let quote = client.quote_registration(&s("hello"), 2, 100).unwrap();
    assert_eq!(quote.pricing.annual_fee_stroops, 250_000_000);
    assert_eq!(quote.pricing.duration_years, 2);
    assert_eq!(quote.pricing.premium_stroops, 0);
    assert_eq!(quote.fee_stroops, 500_000_000);

    let short_quote = client.quote_registration(&s("abc"), 1, 100).unwrap();
    assert_eq!(short_quote.pricing.annual_fee_stroops, 1_000_000_000);
    assert_eq!(short_quote.pricing.duration_years, 1);
    assert_eq!(short_quote.fee_stroops, 1_000_000_000);

    let long_quote = client.quote_registration(&s("verylongname"), 3, 100).unwrap();
    assert_eq!(long_quote.pricing.annual_fee_stroops, 100_000_000);
    assert_eq!(long_quote.pricing.duration_years, 3);
    assert_eq!(long_quote.fee_stroops, 300_000_000);
}

#[test]
fn fee_metrics_track_operations() {
    let (mut client, mut registry) = setup();
    let owner1 = s("GOWNER1");
    let owner2 = s("GOWNER2");
    let q1 = client.quote_registration(&s("metric1"), 1, 100).unwrap();
    let q2 = client.quote_registration(&s("metric2"), 1, 100).unwrap();
    client
        .register(&mut registry, &s("metric1"), &owner1, 1, q1.fee_stroops, 100)
        .unwrap();
    client
        .register(&mut registry, &s("metric2"), &owner2, 1, q2.fee_stroops, 100)
        .unwrap();
    client
        .renew(&mut registry, &s("metric1.xlm"), &owner1, 1, q1.fee_stroops, 200)
        .unwrap();
    let metrics = client.fee_metrics();
    assert_eq!(metrics.total_registrations, 2);
    assert_eq!(metrics.total_renewals, 1);
    assert_eq!(
        metrics.treasury_balance,
        q1.fee_stroops + q2.fee_stroops + q1.fee_stroops
    );
    assert_eq!(metrics.treasury_balance, client.treasury_balance());
}

#[test]
fn status_is_unavailable_for_unknown_name() {
    let (client, _registry) = setup();
    assert_eq!(
        client.registration_status(&s("nobody"), 100),
        RegistrationStatus::Unavailable
    );
}

#[test]
fn status_is_reserved_for_reserved_label() {
    let (mut client, _registry) = setup();
    client.reserve_label(&s("admin")).unwrap();
    assert_eq!(
        client.registration_status(&s("admin"), 100),
        RegistrationStatus::Reserved
    );
}

#[test]
fn status_is_active_during_registration_period() {
    let (mut client, mut registry) = setup();
    let quote = client.quote_registration(&s("active"), 1, 100).unwrap();
    client
        .register(&mut registry, &s("active"), &s("GOWNER"), 1, quote.fee_stroops, 100)
        .unwrap();
    assert_eq!(
        client.registration_status(&s("active"), 200),
        RegistrationStatus::Active
    );
}

#[test]
fn status_is_grace_period_after_expiry() {
    let (mut client, mut registry) = setup();
    let quote = client.quote_registration(&s("lapsed"), 1, 100).unwrap();
    client
        .register(&mut registry, &s("lapsed"), &s("GOWNER"), 1, quote.fee_stroops, 100)
        .unwrap();
    assert_eq!(
        client.registration_status(&s("lapsed"), quote.expiry_unix + 1),
        RegistrationStatus::GracePeriod
    );
}

#[test]
fn status_is_claimable_after_grace_period() {
    let (mut client, mut registry) = setup();
    let quote = client.quote_registration(&s("gone"), 1, 100).unwrap();
    client
        .register(&mut registry, &s("gone"), &s("GOWNER"), 1, quote.fee_stroops, 100)
        .unwrap();
    assert_eq!(
        client.registration_status(&s("gone"), quote.grace_period_ends_at + 1),
        RegistrationStatus::Claimable
    );
}

#[test]
fn treasury_accumulates_exact_fees_across_registrations() {
    let (mut client, mut registry) = setup();
    let q1 = client.quote_registration(&s("pay1"), 1, 100).unwrap();
    let q2 = client.quote_registration(&s("pay2"), 2, 100).unwrap();
    client
        .register(&mut registry, &s("pay1"), &s("GOWNER1"), 1, q1.fee_stroops, 100)
        .unwrap();
    client
        .register(&mut registry, &s("pay2"), &s("GOWNER2"), 2, q2.fee_stroops, 100)
        .unwrap();
    let expected = q1.fee_stroops + q2.fee_stroops;
    assert_eq!(client.treasury_balance(), expected);
    let report = client.accounting_report();
    assert_eq!(report.treasury_balance, expected);
    assert_eq!(report.total_registrations, 2);
    assert_eq!(report.total_renewals, 0);
}

#[test]
fn treasury_accumulates_overpayment_stroops() {
    let (mut client, mut registry) = setup();
    let quote = client.quote_registration(&s("over"), 1, 100).unwrap();
    let overpay = quote.fee_stroops + 9_999;
    client
        .register(&mut registry, &s("over"), &s("GOWNER"), 1, overpay, 100)
        .unwrap();
    assert_eq!(client.treasury_balance(), quote.fee_stroops);
    assert_eq!(client.accounting_report().treasury_balance, quote.fee_stroops);
}

#[test]
fn registration_fails_on_insufficient_payment() {
    let (mut client, mut registry) = setup();
    let quote = client.quote_registration(&s("cheap"), 1, 100).unwrap();
    let result = client.register(&mut registry, &s("cheap"), &s("GOWNER"), 1, quote.fee_stroops - 1, 100);
    assert_eq!(result, Err(RegistrarError::InsufficientFee));
    assert_eq!(client.treasury_balance(), 0);
    assert_eq!(client.accounting_report().total_registrations, 0);
}

#[test]
fn renewal_count_and_treasury_update_correctly() {
    let (mut client, mut registry) = setup();
    let owner = s("GOWNER");
    let q = client.quote_registration(&s("counted"), 1, 100).unwrap();
    client
        .register(&mut registry, &s("counted"), &owner, 1, q.fee_stroops, 100)
        .unwrap();
    client
        .renew(&mut registry, &s("counted.xlm"), &owner, 1, q.fee_stroops, 200)
        .unwrap();
    client
        .renew(&mut registry, &s("counted.xlm"), &owner, 1, q.fee_stroops, 300)
        .unwrap();
    let report = client.accounting_report();
    assert_eq!(report.total_registrations, 1);
    assert_eq!(report.total_renewals, 2);
    assert_eq!(report.treasury_balance, q.fee_stroops * 3);
    assert_eq!(report.treasury_balance, client.treasury_balance());
}

#[test]
fn accounting_report_matches_fee_metrics() {
    let (mut client, mut registry) = setup();
    let q = client.quote_registration(&s("match"), 1, 100).unwrap();
    client
        .register(&mut registry, &s("match"), &s("GOWNER"), 1, q.fee_stroops, 100)
        .unwrap();
    let metrics = client.fee_metrics();
    let report = client.accounting_report();
    assert_eq!(metrics.treasury_balance, report.treasury_balance);
    assert_eq!(metrics.total_registrations, report.total_registrations);
    assert_eq!(metrics.total_renewals, report.total_renewals);
}

#[test]
fn rate_limit_config_initialized_with_defaults() {
    let (client, _registry) = setup();
    let config = client.get_rate_limit_config();
    assert_eq!(config.window_size_seconds, 86400);
    assert_eq!(config.max_registrations_per_window, 5);
}

fn register_many(
    client: &mut RegistrarContract,
    registry: &mut RegistryContract,
    prefix: &str,
    owner: &str,
    count: u32,
    now: u64,
) {
    for i in 0..count {
        let label = format!("{prefix}{i}");
        let quote = client.quote_registration(&label, 1, now).unwrap();
        client
            .register(registry, &label, &owner.to_string(), 1, quote.fee_stroops, now)
            .unwrap();
    }
}

#[test]
fn can_register_up_to_limit_within_window() {
    let (mut client, mut registry) = setup();
    register_many(&mut client, &mut registry, "limit", "GOWNER", 5, 1000);
    assert_eq!(client.fee_metrics().total_registrations, 5);
}

#[test]
fn rate_limit_exceeded_on_sixth_registration_in_window() {
    let (mut client, mut registry) = setup();
    register_many(&mut client, &mut registry, "six", "GOWNER", 5, 1000);
    let quote = client.quote_registration(&s("six5"), 1, 1000).unwrap();
    let result = client.register(&mut registry, &s("six5"), &s("GOWNER"), 1, quote.fee_stroops, 1000);
    assert_eq!(result, Err(RegistrarError::RateLimitExceeded));
}

#[test]
fn rate_limit_at_exact_boundary_tracks_limit_and_rejects_one_over() {
    let (mut client, mut registry) = setup();
    let owner = s("GOWNER");
    let now = 86_400u64;
    for i in 0..5 {
        let label = format!("edge{}", i);
        let quote = client.quote_registration(&label, 1, now).unwrap();
        assert_eq!(
            client.register(&mut registry, &label, &owner, 1, quote.fee_stroops, now),
            Ok(())
        );
    }
    assert_eq!(client.get_registrations_in_window(&owner, now), 5);
    let sixth = s("edge5");
    let quote = client.quote_registration(&sixth, 1, now).unwrap();
    assert_eq!(
        client.register(&mut registry, &sixth, &owner, 1, quote.fee_stroops, now),
        Err(RegistrarError::RateLimitExceeded)
    );
    assert_eq!(client.get_registrations_in_window(&owner, now), 5);
    assert_eq!(client.fee_metrics().total_registrations, 5);
}

#[test]
fn rate_limit_window_resets_after_window_start_transitions() {
    let (mut client, mut registry) = setup();
    let owner = s("GOWNER");
    let window_boundary = 86_400u64;
    register_many(&mut client, &mut registry, "reset", "GOWNER", 5, window_boundary);
    let after_boundary = window_boundary + 1;
    assert_eq!(client.get_registrations_in_window(&owner, after_boundary), 0);
    let label = s("resetnext");
    let quote = client.quote_registration(&label, 1, after_boundary).unwrap();
    assert_eq!(
        client.register(&mut registry, &label, &owner, 1, quote.fee_stroops, after_boundary),
        Ok(())
    );
    assert_eq!(client.get_registrations_in_window(&owner, after_boundary), 1);
    assert_eq!(client.fee_metrics().total_registrations, 6);
}

#[test]
fn whitelisted_address_bypasses_rate_limit() {
    let (mut client, mut registry) = setup();
    let owner = s("GOWNER");
    client.whitelist_address(&owner).unwrap();
    assert!(client.is_whitelisted(&owner));
    register_many(&mut client, &mut registry, "white", "GOWNER", 10, 1000);
    assert_eq!(client.fee_metrics().total_registrations, 10);
}

#[test]
fn remove_whitelist_applies_rate_limit() {
    let (mut client, mut registry) = setup();
    let owner = s("GOWNER");
    client.whitelist_address(&owner).unwrap();
    client.remove_whitelist_address(&owner).unwrap();
    assert!(!client.is_whitelisted(&owner));
    register_many(&mut client, &mut registry, "unwhite", "GOWNER", 5, 1000);
    let quote = client.quote_registration(&s("unwhite5"), 1, 1000).unwrap();
    assert_eq!(
        client.register(&mut registry, &s("unwhite5"), &owner, 1, quote.fee_stroops, 1000),
        Err(RegistrarError::RateLimitExceeded)
    );
}

#[test]
fn whitelist_removal_reenables_limit_using_registrations_recorded_while_whitelisted() {
    let (mut client, mut registry) = setup();
    let owner = s("GOWNER");
    let now = 1000u64;
    client.whitelist_address(&owner).unwrap();
    register_many(&mut client, &mut registry, "recorded", "GOWNER", 6, now);
    assert_eq!(client.get_registrations_in_window(&owner, now), 6);
    client.remove_whitelist_address(&owner).unwrap();
    let quote = client.quote_registration(&s("recorded6"), 1, now).unwrap();
    assert_eq!(
        client.register(&mut registry, &s("recorded6"), &owner, 1, quote.fee_stroops, now),
        Err(RegistrarError::RateLimitExceeded)
    );
}

#[test]
fn different_addresses_have_independent_rate_limits() {
    let (mut client, mut registry) = setup();
    register_many(&mut client, &mut registry, "alice", "GALICE", 5, 1000);
    register_many(&mut client, &mut registry, "bob", "GBOB", 5, 1000);
    assert_eq!(client.fee_metrics().total_registrations, 10);
}

#[test]
fn registrations_outside_window_do_not_count_toward_limit() {
    let (mut client, mut registry) = setup();
    let now = 1000u64;
    let future_window = now + 86400 + 1;
    register_many(&mut client, &mut registry, "windowa", "GOWNER", 5, now);
    register_many(&mut client, &mut registry, "windowb", "GOWNER", 5, future_window);
    assert_eq!(client.fee_metrics().total_registrations, 10);
}

#[test]
fn get_registrations_in_window_returns_count() {
    let (mut client, mut registry) = setup();
    let owner = s("GOWNER");
    assert_eq!(client.get_registrations_in_window(&owner, 1000), 0);
    register_many(&mut client, &mut registry, "count", "GOWNER", 3, 1000);
    assert_eq!(client.get_registrations_in_window(&owner, 1000), 3);
}

#[test]
fn set_rate_limit_config_changes_limit() {
    let (mut client, mut registry) = setup();
    client.set_rate_limit_config(86400, 3).unwrap();
    assert_eq!(client.get_rate_limit_config().max_registrations_per_window, 3);
    register_many(&mut client, &mut registry, "limited", "GOWNER", 3, 1000);
    let quote = client.quote_registration(&s("limited3"), 1, 1000).unwrap();
    assert!(client
        .register(&mut registry, &s("limited3"), &s("GOWNER"), 1, quote.fee_stroops, 1000)
        .is_err());
}

#[test]
fn lowering_rate_limit_mid_window_respects_existing_registration_count() {
    let (mut client, mut registry) = setup();
    let owner = s("GOWNER");
    register_many(&mut client, &mut registry, "reconfig", "GOWNER", 5, 1000);
    assert_eq!(client.get_registrations_in_window(&owner, 1000), 5);
    client.set_rate_limit_config(86_400, 3).unwrap();
    let quote = client.quote_registration(&s("reconfignext"), 1, 1000).unwrap();
    assert_eq!(
        client.register(&mut registry, &s("reconfignext"), &owner, 1, quote.fee_stroops, 1000),
        Err(RegistrarError::RateLimitExceeded)
    );
    assert_eq!(client.get_registrations_in_window(&owner, 1000), 5);
}

#[test]
fn rate_limit_uses_saturating_window_start_at_zero_timestamp() {
    let (mut client, mut registry) = setup();
    let owner = s("GOWNER");
    for i in 0..5 {
        let label = format!("zero{}", i);
        let quote = client.quote_registration(&label, 1, 0).unwrap();
        assert_eq!(
            client.register(&mut registry, &label, &owner, 1, quote.fee_stroops, 0),
            Ok(())
        );
    }
    assert_eq!(client.get_registrations_in_window(&owner, 1), 5);
    let quote = client.quote_registration(&s("zerolimit"), 1, 1).unwrap();
    assert_eq!(
        client.register(&mut registry, &s("zerolimit"), &owner, 1, quote.fee_stroops, 1),
        Err(RegistrarError::RateLimitExceeded)
    );
}

#[test]
fn grace_period_defaults_to_30_days() {
    let (client, _registry) = setup();
    assert_eq!(client.get_grace_period(), DEFAULT_GRACE_PERIOD_SECONDS);
    assert_eq!(client.get_grace_period(), GRACE_PERIOD_SECONDS);
}

#[test]
fn set_grace_period_updates_quotes() {
    let (mut client, _registry) = setup();
    let custom_grace = 86_400 * 14;
    client.set_grace_period(custom_grace).unwrap();
    let quote = client.quote_registration(&s("custom"), 1, 1000).unwrap();
    assert_eq!(quote.grace_period_ends_at, quote.expiry_unix + custom_grace);
}

#[test]
fn set_grace_period_rejects_out_of_range_values() {
    let (mut client, _registry) = setup();
    assert_eq!(client.set_grace_period(0), Err(RegistrarError::Validation));
}

#[test]
fn extend_during_grace_renews_expired_name() {
    let (mut client, mut registry) = setup();
    let owner = s("GOWNER");
    let label = s("gracerenew");
    let name = s("gracerenew.xlm");
    let quote = client.quote_registration(&label, 1, 100).unwrap();
    client
        .register(&mut registry, &label, &owner, 1, quote.fee_stroops, 100)
        .unwrap();
    let in_grace = quote.expiry_unix + 1;
    client
        .extend_during_grace(&mut registry, &name, &owner, 1, quote.fee_stroops, in_grace)
        .unwrap();
    let record = client.registration(&name).unwrap();
    assert!(record.expires_at > in_grace);
    assert_eq!(
        client.registration_status(&label, in_grace),
        RegistrationStatus::Active
    );
}

#[test]
fn extend_during_grace_rejects_active_name() {
    let (mut client, mut registry) = setup();
    let owner = s("GOWNER");
    let label = s("stillactive");
    let name = s("stillactive.xlm");
    let quote = client.quote_registration(&label, 1, 100).unwrap();
    client
        .register(&mut registry, &label, &owner, 1, quote.fee_stroops, 100)
        .unwrap();
    let result = client.extend_during_grace(
        &mut registry,
        &name,
        &owner,
        1,
        quote.fee_stroops,
        quote.expiry_unix,
    );
    assert_eq!(result, Err(RegistrarError::NotRenewable));
}

#[test]
fn extend_during_grace_rejects_claimable_name() {
    let (mut client, mut registry) = setup();
    let owner = s("GOWNER");
    let label = s("toolate");
    let name = s("toolate.xlm");
    let quote = client.quote_registration(&label, 1, 100).unwrap();
    client
        .register(&mut registry, &label, &owner, 1, quote.fee_stroops, 100)
        .unwrap();
    let after_grace = quote.grace_period_ends_at + 1;
    let result =
        client.extend_during_grace(&mut registry, &name, &owner, 1, quote.fee_stroops, after_grace);
    assert_eq!(result, Err(RegistrarError::RegistrationClaimable));
}

#[test]
fn register_rejected_during_grace_period() {
    let (mut client, mut registry) = setup();
    let owner = s("GOWNER");
    let intruder = s("GINTRUDER");
    let label = s("taken");
    let quote = client.quote_registration(&label, 1, 100).unwrap();
    client
        .register(&mut registry, &label, &owner, 1, quote.fee_stroops, 100)
        .unwrap();
    let in_grace = quote.expiry_unix + 1;
    assert!(!client.is_available(&label, in_grace));
    assert_eq!(
        client.registration_status(&label, in_grace),
        RegistrationStatus::GracePeriod
    );
    let result = client.register(&mut registry, &label, &intruder, 1, quote.fee_stroops, in_grace);
    assert_eq!(result, Err(RegistrarError::AlreadyRegistered));
}

#[test]
fn name_available_after_grace_period() {
    let (mut client, mut registry) = setup();
    let owner = s("GOWNER");
    let label = s("released");
    let quote = client.quote_registration(&label, 1, 100).unwrap();
    client
        .register(&mut registry, &label, &owner, 1, quote.fee_stroops, 100)
        .unwrap();
    let after_grace = quote.grace_period_ends_at + 1;
    assert!(client.is_available(&label, after_grace));
    assert_eq!(
        client.registration_status(&label, after_grace),
        RegistrationStatus::Claimable
    );
}

#[test]
fn released_name_can_be_registered_again_by_someone_else() {
    let (mut client, mut registry) = setup();
    let label = s("second");
    let quote = client.quote_registration(&label, 1, 100).unwrap();
    client
        .register(&mut registry, &label, &s("GFIRST"), 1, quote.fee_stroops, 100)
        .unwrap();
    let later = quote.grace_period_ends_at + 1;
    let q2 = client.quote_registration(&label, 1, later).unwrap();
    client
        .register(&mut registry, &label, &s("GSECOND"), 1, q2.fee_stroops, later)
        .unwrap();
    assert_eq!(client.registration(&s("second.xlm")).unwrap().owner, "GSECOND");
    assert_eq!(registry.resolve(&s("second.xlm"), later).unwrap().owner, "GSECOND");
}

#[test]
fn register_reports_registry_refusal_and_changes_nothing() {
    let (mut client, mut registry) = setup();
    registry.initialize(s("RADMIN")).unwrap();
    registry.pause(100).unwrap();
    let quote = client.quote_registration(&s("paused"), 1, 100).unwrap();
    let result = client.register(&mut registry, &s("paused"), &s("GOWNER"), 1, quote.fee_stroops, 100);
    assert_eq!(result, Err(RegistrarError::Registry(RegistryError::ContractPaused)));
    assert_eq!(client.treasury_balance(), 0);
    assert!(client.registration(&s("paused.xlm")).is_none());
    assert_eq!(client.get_registrations_in_window(&s("GOWNER"), 100), 0);
}

#[test]
fn register_requires_initialization() {
    let mut client = RegistrarContract::new();
    let mut registry = RegistryContract::new();
    let quote = client.quote_registration(&s("early"), 1, 100).unwrap();
    assert_eq!(
        client.register(&mut registry, &s("early"), &s("GOWNER"), 1, quote.fee_stroops, 100),
        Err(RegistrarError::NotInitialized)
    );
}

#[test]
fn register_rejects_reserved_and_invalid_labels() {
    let (mut client, mut registry) = setup();
    client.reserve_label(&s("vip")).unwrap();
    assert_eq!(
        client.register(&mut registry, &s("vip"), &s("GOWNER"), 1, u64::MAX, 100),
        Err(RegistrarError::Reserved)
    );
    assert_eq!(
        client.register(&mut registry, &s("Bad_Label"), &s("GOWNER"), 1, u64::MAX, 100),
        Err(RegistrarError::Validation)
    );
    assert_eq!(
        client.register(&mut registry, &s("fine"), &s("GOWNER"), 11, u64::MAX, 100),
        Err(RegistrarError::Validation)
    );
}

#[test]
fn load_reserved_manifest_counts_new_valid_labels() {
    let (mut client, _registry) = setup();
    client.reserve_label(&s("one")).unwrap();
    let labels = vec![s("one"), s("two"), s("Bad"), s("two"), s("three")];
    assert_eq!(client.load_reserved_manifest(&labels), Ok(2));
    assert_eq!(
        client.registration_status(&s("three"), 0),
        RegistrationStatus::Reserved
    );
    assert_eq!(
        client.registration_status(&s("Bad"), 0),
        RegistrationStatus::Unavailable
    );
}

#[test]
fn renew_by_non_owner_is_unauthorized() {
    let (mut client, mut registry) = setup();
    let quote = client.quote_registration(&s("mine"), 1, 100).unwrap();
    client
        .register(&mut registry, &s("mine"), &s("GOWNER"), 1, quote.fee_stroops, 100)
        .unwrap();
    assert_eq!(
        client.renew(&mut registry, &s("mine.xlm"), &s("GOTHER"), 1, quote.fee_stroops, 200),
        Err(RegistrarError::Unauthorized)
    );
}

#[test]
fn upgrade_reads_target_version_from_migration_data() {
    let (mut client, _registry) = setup();
    assert_eq!(client.get_version(), 1);
    client.upgrade(&vec![0, 0, 0, 7]).unwrap();
    assert_eq!(client.get_version(), 7);
    client.upgrade(&vec![1]).unwrap();
    assert_eq!(client.get_version(), 2);
    let mut fresh = RegistrarContract::new();
    assert_eq!(fresh.upgrade(&vec![]), Err(RegistrarError::UpgradeFailed));
}

#[test]
fn register_emits_registered_event() {
    let (mut client, mut registry) = setup();
    let owner = s("GOWNER");
    let label = s("events");
    let quote = client.quote_registration(&label, 1, 100).unwrap();
    client.register(&mut registry, &label, &owner, 1, quote.fee_stroops, 100).unwrap();

    assert!(!client.events().is_empty(), "register() must emit at least one event");
    assert_eq!(
        client.events().last(),
        Some(&RegistrarEvent::Registered {
            label,
            owner,
            payment_stroops: quote.fee_stroops,
            expires_at: quote.expiry_unix,
            grace_period_ends_at: quote.grace_period_ends_at,
        })
    );
}

#[test]
fn renew_emits_renewed_event() {
    let (mut client, mut registry) = setup();
    let owner = s("GOWNER");
    let label = s("renev");
    let name = s("renev.xlm");
    let quote = client.quote_registration(&label, 1, 100).unwrap();
    client.register(&mut registry, &label, &owner, 1, quote.fee_stroops, 100).unwrap();
    let before = client.events().len();

    client.renew(&mut registry, &name, &owner, 1, quote.fee_stroops, 200).unwrap();

    assert!(client.events().len() > before, "renew() must emit at least one event");
    assert!(matches!(client.events().last(), Some(RegistrarEvent::Renewed { .. })));
}

#[test]
fn rate_limit_events_emitted_on_limit_exceeded() {
    let (mut client, mut registry) = setup();
    let owner = s("GOWNER");
    let now = 1000u64;
    for i in 0..5 {
        let label = format!("event{}", i);
        let quote = client.quote_registration(&label, 1, now).unwrap();
        client.register(&mut registry, &label, &owner, 1, quote.fee_stroops, now).unwrap();
    }
    let label6 = s("event5");
    let quote6 = client.quote_registration(&label6, 1, now).unwrap();
    let result = client.register(&mut registry, &label6, &owner, 1, quote6.fee_stroops, now);
    assert!(result.is_err(), "6th registration should be rate-limited");
}

#[test]
fn reservations_and_configuration_are_announced() {
    let (mut client, _registry) = setup();
    client.reserve_label(&s("vip")).unwrap();
    client.reserve_label(&s("vip")).unwrap();
    let n = client.events().len();
    assert_eq!(client.events()[n - 2], RegistrarEvent::ReservedAdded { label: s("vip") });
    assert_eq!(client.events()[n - 1], RegistrarEvent::ReservedSkipped { label: s("vip") });

    let added = client.load_reserved_manifest(&vec![s("gold"), s("BAD LABEL"), s("vip")]).unwrap();
    assert_eq!(added, 1);
    let n = client.events().len();
    assert_eq!(client.events()[n - 3], RegistrarEvent::ReservedAdded { label: s("gold") });
    assert_eq!(client.events()[n - 2], RegistrarEvent::ReservedSkipped { label: s("BAD LABEL") });
    assert_eq!(client.events()[n - 1], RegistrarEvent::ReservedSkipped { label: s("vip") });

    client.set_rate_limit_config(60, 2).unwrap();
    assert_eq!(
        client.events().last(),
        Some(&RegistrarEvent::RateLimitSet { window_size_seconds: 60, max_registrations_per_window: 2 })
    );
    client.whitelist_address(&s("GVIP")).unwrap();
    assert_eq!(client.events().last(), Some(&RegistrarEvent::Whitelisted { address: s("GVIP") }));
    client.remove_whitelist_address(&s("GVIP")).unwrap();
    assert_eq!(client.events().last(), Some(&RegistrarEvent::Unwhitelisted { address: s("GVIP") }));
}

#[test]
fn registration_record_keeps_the_payment() {
    let (mut client, mut registry) = setup();
    let quote = client.quote_registration(&s("over"), 1, 100).unwrap();
    let overpay = quote.fee_stroops + 9_999;
    client
        .register(&mut registry, &s("over"), &s("GOWNER"), 1, overpay, 100)
        .unwrap();
    assert_eq!(client.registration(&s("over.xlm")).unwrap().fee_paid, overpay);
}

#[test]
fn renewal_adds_the_payment_to_record_and_treasury() {
    let (mut client, mut registry) = setup();
    let quote = client.quote_registration(&s("renewme"), 1, 100).unwrap();
    client
        .register(&mut registry, &s("renewme"), &s("GOWNER"), 1, quote.fee_stroops, 100)
        .unwrap();
    let renewal = client.quote_renewal(&s("renewme.xlm"), 1, 200).unwrap();
    let payment = renewal.fee_stroops + 500;
    client
        .renew(&mut registry, &s("renewme.xlm"), &s("GOWNER"), 1, payment, 200)
        .unwrap();
    assert_eq!(client.treasury_balance(), quote.fee_stroops + payment);
    assert_eq!(
        client.registration(&s("renewme.xlm")).unwrap().fee_paid,
        quote.fee_stroops + payment
    );
}

#[test]
fn registrar_registers_a_bare_entry_in_the_registry() {
    let (mut client, mut registry) = setup();
    let quote = client.quote_registration(&s("bare"), 1, 100).unwrap();
    client
        .register(&mut registry, &s("bare"), &s("GOWNER"), 1, quote.fee_stroops, 100)
        .unwrap();
    let entry = registry.resolve(&s("bare.xlm"), 100).unwrap();
    assert_eq!(entry.target_address, None);
    assert_eq!(entry.metadata_uri, None);
    assert_eq!(entry.resolver, None);
    assert_eq!(entry.transfer_count, 0);
    assert_eq!(registry.names_for_owner(&s("GOWNER")), vec![s("bare.xlm")]);
}
