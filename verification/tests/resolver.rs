use xlm_ns::common::{MAX_TEXT_RECORDS, MAX_TEXT_RECORD_VALUE_LENGTH};
use xlm_ns::registry::RegistryContract;
use xlm_ns::resolver::{
    transfer_with_resolver, BatchOp, ResolutionRecord, ResolverContract, ResolverError, ResolverEvent,
    MAX_BATCH_OPS,
};
use xlm_ns::subdomain::SubdomainContract;

fn s(v: &str) -> String {
    v.to_string()
}

/// A resolver with no registry configured, and a registry it never consults.
fn standalone() -> (ResolverContract, RegistryContract) {
    (ResolverContract::new(), RegistryContract::new())
}

fn stellar(rec: &ResolutionRecord) -> Option<String> {
    rec.addresses.get(&s("stellar")).cloned()
}

fn text(rec: &ResolutionRecord, key: &str) -> Option<String> {
    rec.text_records.get(&s(key)).cloned()
}

/// A registry, a resolver bound to it, and a subdomain contract of the given depth.
fn setup_with_subdomain(depth: u32) -> (ResolverContract, RegistryContract, SubdomainContract) {
    let mut registry = RegistryContract::new();
    let mut resolver = ResolverContract::new();
    let mut subdomain = SubdomainContract::new();
    registry.initialize(s("GADMIN")).unwrap();
    resolver.initialize(s("CREGISTRY"), s("GADMIN")).unwrap();
    subdomain.initialize(s("GADMIN")).unwrap();
    subdomain.set_max_depth(depth).unwrap();
    resolver.set_subdomain_contract(s("CSUBDOMAIN")).unwrap();
    (resolver, registry, subdomain)
}

#[test]
fn persists_forward_reverse_and_primary_resolution_records() {
    let (mut client, reg) = standalone();
    let name = s("timmy.xlm");
    let address = s("GABC");

    client.set_record(&reg, &name, &s("GOWNER"), &address, 100).unwrap();
    client.set_text_record(&reg, &name, &s("GOWNER"), &s("com.twitter"), &s("@timmy"), 101).unwrap();
    client.set_primary_name(&reg, &address, &s("GOWNER"), &name).unwrap();

    let record = client.resolve(&name, None).unwrap();
    assert_eq!(record.owner, "GOWNER");
    assert_eq!(stellar(&record), Some(address.clone()));
    assert_eq!(text(&record, "com.twitter"), Some(s("@timmy")));
    assert_eq!(record.updated_at, 101);
    assert_eq!(client.reverse(&reg, &s("GABC"), 0), Some(name));
}

#[test]
fn removes_forward_reverse_and_primary_records() {
    let (mut client, reg) = standalone();
    let name = s("timmy.xlm");
    let address = s("GABC");

    client.set_record(&reg, &name, &s("GOWNER"), &address, 100).unwrap();
    client.set_primary_name(&reg, &address, &s("GOWNER"), &name).unwrap();
    client.remove_record(&reg, &name, &s("GOWNER")).unwrap();

    assert!(client.resolve(&name, None).is_none());
    assert_eq!(client.reverse(&reg, &address, 0), None);
}

#[test]
fn resolve_falls_back_through_parent_chain_and_marks_wildcard() {
    let (mut resolver, mut registry, subdomain) = setup_with_subdomain(3);
    let parent = s("alice.xlm");
    let now = 100u64;
    registry.register(parent.clone(), s("GOWNER"), Some(s("CRESOLVER")), None, now, 1_000, 2_000).unwrap();
    resolver.set_record(&registry, &parent, &s("GOWNER"), &s("GALICE"), now).unwrap();

    let record = resolver.resolve(&s("app.pay.alice.xlm"), Some(&subdomain)).unwrap();
    assert_eq!(stellar(&record), Some(s("GALICE")));
    assert!(record.is_wildcard);
    assert_eq!(record.owner, "GOWNER");
}

#[test]
fn wildcard_resolution_can_be_disabled_by_owner() {
    let (mut resolver, mut registry, subdomain) = setup_with_subdomain(3);
    let parent = s("alice.xlm");
    let now = 110u64;
    registry.register(parent.clone(), s("GOWNER"), Some(s("CRESOLVER")), None, now, 1_000, 2_000).unwrap();
    resolver.set_record(&registry, &parent, &s("GOWNER"), &s("GALICE"), now).unwrap();
    resolver.set_wildcard_resolution(&registry, &parent, &s("GOWNER"), false, now + 1).unwrap();

    assert!(resolver.resolve(&s("pay.alice.xlm"), Some(&subdomain)).is_none());
    let exact = resolver.resolve(&parent, Some(&subdomain)).unwrap();
    assert!(!exact.is_wildcard);
}

#[test]
fn explicit_subdomain_records_override_wildcard_fallback() {
    let (mut resolver, mut registry, subdomain) = setup_with_subdomain(3);
    let parent = s("alice.xlm");
    let child = s("pay.alice.xlm");
    let now = 120u64;
    registry.register(parent.clone(), s("GOWNER"), Some(s("CRESOLVER")), None, now, 1_000, 2_000).unwrap();
    registry.register(child.clone(), s("GOWNER"), Some(s("CRESOLVER")), None, now, 1_000, 2_000).unwrap();
    resolver.set_record(&registry, &parent, &s("GOWNER"), &s("GALICE"), now).unwrap();
    resolver.set_record(&registry, &child, &s("GOWNER"), &s("GPAYALICE"), now + 1).unwrap();

    let record = resolver.resolve(&child, Some(&subdomain)).unwrap();
    assert_eq!(stellar(&record), Some(s("GPAYALICE")));
    assert!(!record.is_wildcard);
}

#[test]
fn fallback_resolution_respects_depth_limit() {
    let (mut resolver, mut registry, subdomain) = setup_with_subdomain(1);
    let parent = s("alice.xlm");
    let now = 130u64;
    registry.register(parent.clone(), s("GOWNER"), Some(s("CRESOLVER")), None, now, 1_000, 2_000).unwrap();
    resolver.set_record(&registry, &parent, &s("GOWNER"), &s("GALICE"), now).unwrap();

    assert!(resolver.resolve(&s("app.pay.alice.xlm"), Some(&subdomain)).is_none());
}

#[test]
fn transfer_clears_old_owner_reverse_and_does_not_set_new_owner_reverse() {
    let mut registry = RegistryContract::new();
    let mut resolver = ResolverContract::new();
    registry.initialize(s("GADMIN")).unwrap();
    resolver.initialize(s("CREGISTRY"), s("GADMIN")).unwrap();

    let name = s("alice.xlm");
    let old_address = s("GAAAA");
    let new_address = s("GBBBB");
    let now = 100u64;
    registry.register(name.clone(), s("GOLD"), Some(s("CRESOLVER")), None, now, 1_000, 2_000).unwrap();
    resolver.set_record(&registry, &name, &s("GOLD"), &old_address, now).unwrap();
    resolver.set_primary_name(&registry, &old_address, &s("GOLD"), &name).unwrap();

    transfer_with_resolver(&mut registry, &mut resolver, &name, &s("GOLD"), s("GNEW"), now + 10).unwrap();

    assert_eq!(resolver.reverse(&registry, &old_address, 0), None);
    assert_eq!(resolver.reverse(&registry, &new_address, 0), None);
}

#[test]
fn reverse_lookup_lazily_cleans_stale_entries_after_registry_transfer() {
    let mut registry = RegistryContract::new();
    let mut resolver = ResolverContract::new();
    registry.initialize(s("GADMIN")).unwrap();
    resolver.initialize(s("CREGISTRY"), s("GADMIN")).unwrap();

    let name = s("bob.xlm");
    let old_address = s("GCCCC");
    let now = 200u64;
    registry.register(name.clone(), s("GOLD"), Some(s("CRESOLVER")), None, now, 1_200, 2_200).unwrap();
    resolver.set_record(&registry, &name, &s("GOLD"), &old_address, now).unwrap();
    resolver.set_primary_name(&registry, &old_address, &s("GOLD"), &name).unwrap();
    // The registry moves the name without telling the resolver: both the reverse and
    // the primary entry of the old address are now stale.
    registry.transfer(&name, &s("GOLD"), s("GNEW"), now + 10).unwrap();

    assert_eq!(resolver.reverse(&registry, &old_address, 0), None);
    assert_eq!(resolver.reverse(&registry, &old_address, 0), None);
}

#[test]
fn rejects_text_record_updates_from_non_owner() {
    let (mut client, reg) = standalone();
    let name = s("timmy.xlm");
    client.set_record(&reg, &name, &s("GOWNER"), &s("GABC"), 100).unwrap();

    let result = client.set_text_record(&reg, &name, &s("GINTRUDER"), &s("com.twitter"), &s("@timmy"), 101);
    assert!(result.is_err(), "non-owner text update should fail");
    let stored = client.resolve(&name, None).unwrap();
    assert_eq!(stored.text_records.len(), 0);
}

#[test]
fn rejects_record_removal_from_non_owner() {
    let (mut client, reg) = standalone();
    let name = s("timmy.xlm");
    let address = s("GABC");
    client.set_record(&reg, &name, &s("GOWNER"), &address, 100).unwrap();

    let result = client.remove_record(&reg, &name, &s("GINTRUDER"));
    assert!(result.is_err(), "non-owner record removal should fail");
    assert!(client.resolve(&name, None).is_some());
    assert_eq!(client.reverse(&reg, &address, 0), Some(name));
}

#[test]
fn enforces_text_record_limit_but_allows_updating_existing_key_at_limit() {
    let (mut client, reg) = standalone();
    let name = s("timmy.xlm");
    let owner = s("GOWNER");
    client.set_record(&reg, &name, &owner, &s("GABC"), 100).unwrap();

    for idx in 0..MAX_TEXT_RECORDS {
        client
            .set_text_record(&reg, &name, &owner, &format!("key-{idx}"), &format!("value-{idx}"), 101 + idx as u64)
            .unwrap();
    }
    client.set_text_record(&reg, &name, &owner, &s("key-0"), &s("updated"), 500).unwrap();

    let updated_record = client.resolve(&name, None).unwrap();
    assert_eq!(updated_record.text_records.len(), MAX_TEXT_RECORDS);
    assert_eq!(text(&updated_record, "key-0"), Some(s("updated")));
    assert_eq!(updated_record.updated_at, 500);

    let overflow = client.set_text_record(&reg, &name, &owner, &s("overflow"), &s("value"), 501);
    assert!(overflow.is_err(), "adding a new key past the limit should fail");
}

#[test]
fn reverse_lookup_prefers_primary_name_when_present() {
    let (mut client, reg) = standalone();
    let first_name = s("timmy.xlm");
    let second_name = s("pay.timmy.xlm");
    let address = s("GABC");

    client.set_record(&reg, &first_name, &s("GOWNER"), &address, 100).unwrap();
    client.set_record(&reg, &second_name, &s("GOWNER"), &address, 101).unwrap();
    assert_eq!(client.reverse(&reg, &address, 0), Some(second_name.clone()));

    client.set_primary_name(&reg, &address, &s("GOWNER"), &first_name).unwrap();
    assert_eq!(client.reverse(&reg, &address, 0), Some(first_name));
}

#[test]
fn removes_old_primary_mappings_when_address_changes() {
    let (mut client, reg) = standalone();
    let name = s("timmy.xlm");
    let old_address = s("GABC");
    let new_address = s("GDEF");

    client.set_record(&reg, &name, &s("GOWNER"), &old_address, 100).unwrap();
    client.set_primary_name(&reg, &old_address, &s("GOWNER"), &name).unwrap();
    assert_eq!(client.reverse(&reg, &old_address, 0), Some(name.clone()));

    client.set_record(&reg, &name, &s("GOWNER"), &new_address, 101).unwrap();
    assert_eq!(client.reverse(&reg, &old_address, 0), None);
    assert_eq!(client.reverse(&reg, &new_address, 0), Some(name));
}

#[test]
fn updating_address_preserves_text_records() {
    let (mut client, reg) = standalone();
    let name = s("timmy.xlm");
    client.set_record(&reg, &name, &s("GOWNER"), &s("GABC"), 100).unwrap();
    client.set_text_record(&reg, &name, &s("GOWNER"), &s("com.twitter"), &s("@timmy"), 101).unwrap();
    client.set_record(&reg, &name, &s("GOWNER"), &s("GDEF"), 102).unwrap();

    let record = client.resolve(&name, None).unwrap();
    assert_eq!(stellar(&record), Some(s("GDEF")));
    assert_eq!(record.text_records.len(), 1);
    assert_eq!(text(&record, "com.twitter"), Some(s("@timmy")));
    assert_eq!(record.updated_at, 102);
}

#[test]
fn enforces_text_record_value_size_limit() {
    let (mut client, reg) = standalone();
    let name = s("timmy.xlm");
    client.set_record(&reg, &name, &s("GOWNER"), &s("GABC"), 100).unwrap();

    let valid_value = "x".repeat(MAX_TEXT_RECORD_VALUE_LENGTH);
    client.set_text_record(&reg, &name, &s("GOWNER"), &s("key1"), &valid_value, 101).unwrap();
    let record = client.resolve(&name, None).unwrap();
    assert_eq!(record.text_records.len(), 1);

    let oversized_value = "x".repeat(MAX_TEXT_RECORD_VALUE_LENGTH + 1);
    let result = client.set_text_record(&reg, &name, &s("GOWNER"), &s("key2"), &oversized_value, 102);
    assert!(result.is_err(), "text record value exceeding limit should fail");
    assert_eq!(result, Err(ResolverError::TextRecordValueTooLong));
}

#[test]
fn supports_multi_chain_address_records() {
    let (mut client, reg) = standalone();
    let name = s("timmy.xlm");
    let stellar_address = s("GABC");
    let ethereum_address = s("0x1234567890123456789012345678901234567890");

    client.set_record(&reg, &name, &s("GOWNER"), &stellar_address, 100).unwrap();
    client.set_address(&reg, &name, &s("GOWNER"), &s("ethereum"), &ethereum_address, 101).unwrap();

    let record = client.resolve(&name, None).unwrap();
    assert_eq!(stellar(&record), Some(stellar_address));
    assert_eq!(record.addresses.get(&s("ethereum")).cloned(), Some(ethereum_address.clone()));
    assert_eq!(client.get_address(&name, &s("ethereum")), Some(ethereum_address));
}

#[test]
fn batch_resolve_returns_records_for_multiple_names() {
    let (mut client, reg) = standalone();
    client.set_record(&reg, &s("alice.xlm"), &s("GOWNER"), &s("GAAA"), 100).unwrap();
    client.set_record(&reg, &s("bob.xlm"), &s("GOWNER"), &s("GBBB"), 101).unwrap();

    let names = vec![s("alice.xlm"), s("bob.xlm"), s("charlie.xlm")];
    let results = client.batch_resolve(&names, None);
    assert_eq!(results.len(), 3);
    assert!(results[0].is_some());
    assert!(results[1].is_some());
    assert!(results[2].is_none());
}

#[test]
fn batch_reverse_returns_names_for_multiple_addresses() {
    let (mut client, reg) = standalone();
    client.set_record(&reg, &s("alice.xlm"), &s("GOWNER"), &s("GAAA"), 100).unwrap();
    client.set_record(&reg, &s("bob.xlm"), &s("GOWNER"), &s("GBBB"), 101).unwrap();

    let addresses = vec![s("GAAA"), s("GBBB"), s("GCCC")];
    let results = client.batch_reverse(&reg, &addresses, 0);
    assert_eq!(results.len(), 3);
    assert_eq!(results[0], Some(s("alice.xlm")));
    assert_eq!(results[1], Some(s("bob.xlm")));
    assert_eq!(results[2], None);
}

#[test]
fn accepts_valid_text_record_keys() {
    let (mut client, reg) = standalone();
    let name = s("alice.xlm");
    let owner = s("GOWNER");
    client.set_record(&reg, &name, &owner, &s("GABC"), 100).unwrap();
    client.set_text_record(&reg, &name, &owner, &s("url"), &s("https://x"), 101).unwrap();
    client.set_text_record(&reg, &name, &owner, &s("com.twitter"), &s("@alice"), 102).unwrap();
    client.set_text_record(&reg, &name, &owner, &s("org.did_key-1"), &s("did:x"), 103).unwrap();
    assert_eq!(client.resolve(&name, None).unwrap().text_records.len(), 3);
}

#[test]
fn rejects_uppercase_text_record_key() {
    let (mut client, reg) = standalone();
    let name = s("alice.xlm");
    client.set_record(&reg, &name, &s("GOWNER"), &s("GABC"), 100).unwrap();
    let result = client.set_text_record(&reg, &name, &s("GOWNER"), &s("Twitter"), &s("@alice"), 101);
    assert!(result.is_err(), "uppercase key must be rejected");
    assert_eq!(result, Err(ResolverError::InvalidKey));
}

#[test]
fn rejects_empty_text_record_key() {
    let (mut client, reg) = standalone();
    let name = s("alice.xlm");
    client.set_record(&reg, &name, &s("GOWNER"), &s("GABC"), 100).unwrap();
    let result = client.set_text_record(&reg, &name, &s("GOWNER"), &s(""), &s("val"), 101);
    assert!(result.is_err(), "empty key must be rejected");
}

#[test]
fn rejects_overlong_text_record_key() {
    let (mut client, reg) = standalone();
    let name = s("alice.xlm");
    client.set_record(&reg, &name, &s("GOWNER"), &s("GABC"), 100).unwrap();
    let long_key = "a".repeat(65);
    let result = client.set_text_record(&reg, &name, &s("GOWNER"), &long_key, &s("val"), 101);
    assert!(result.is_err(), "65-byte key must be rejected");
}

#[test]
fn rejects_text_record_key_with_space() {
    let (mut client, reg) = standalone();
    let name = s("alice.xlm");
    client.set_record(&reg, &name, &s("GOWNER"), &s("GABC"), 100).unwrap();
    let result = client.set_text_record(&reg, &name, &s("GOWNER"), &s("bad key"), &s("val"), 101);
    assert!(result.is_err(), "key with space must be rejected");
}

#[test]
fn set_record_emits_forward_and_reverse_events() {
    let (mut client, reg) = standalone();
    let name = s("alice.xlm");
    client.set_record(&reg, &name, &s("GOWNER"), &s("GAAA"), 100).unwrap();
    let record = client.resolve(&name, None).unwrap();
    assert_eq!(record.updated_at, 100);
}

#[test]
fn set_text_record_emits_event() {
    let (mut client, reg) = standalone();
    let name = s("alice.xlm");
    client.set_record(&reg, &name, &s("GOWNER"), &s("GAAA"), 100).unwrap();
    client
        .set_text_record(&reg, &name, &s("GOWNER"), &s("url"), &s("https://alice.example"), 101)
        .unwrap();
    let record = client.resolve(&name, None).unwrap();
    assert_eq!(record.text_records.len(), 1);
    assert_eq!(record.updated_at, 101);
}

#[test]
fn remove_record_emits_event_and_clears_mappings() {
    let (mut client, reg) = standalone();
    let name = s("alice.xlm");
    let addr = s("GAAA");
    client.set_record(&reg, &name, &s("GOWNER"), &addr, 100).unwrap();
    client.set_primary_name(&reg, &addr, &s("GOWNER"), &name).unwrap();
    client.remove_record(&reg, &name, &s("GOWNER")).unwrap();
    assert!(client.resolve(&name, None).is_none());
    assert_eq!(client.reverse(&reg, &addr, 0), None);
}

#[test]
fn set_primary_name_emits_event() {
    let (mut client, reg) = standalone();
    let name = s("alice.xlm");
    let addr = s("GAAA");
    client.set_record(&reg, &name, &s("GOWNER"), &addr, 100).unwrap();
    client.set_primary_name(&reg, &addr, &s("GOWNER"), &name).unwrap();
    assert_eq!(client.reverse(&reg, &addr, 0), Some(name));
}

#[test]
fn test_batch_set_ordering() {
    let (mut client, reg) = standalone();
    let name = s("alice.xlm");
    client.set_record(&reg, &name, &s("GOWNER"), &s("GAAA"), 100).unwrap();

    let ops = vec![
        BatchOp::SetAddress(s("GBBB")),
        BatchOp::SetText(s("url"), s("https://first.example")),
        BatchOp::SetAddress(s("GCCC")),
        BatchOp::SetText(s("url"), s("https://last.example")),
    ];
    let applied = client.batch_set(&reg, &name, &s("GOWNER"), &ops, 200).unwrap();
    assert_eq!(applied, 4);

    let record = client.resolve(&name, None).unwrap();
    assert_eq!(stellar(&record), Some(s("GCCC")));
    assert_eq!(record.text_records.len(), 1);
    assert_eq!(text(&record, "url"), Some(s("https://last.example")));
    assert_eq!(record.updated_at, 200);
    assert_eq!(client.reverse(&reg, &s("GCCC"), 0), Some(name.clone()));
    assert_eq!(client.reverse(&reg, &s("GBBB"), 0), None);
    assert_eq!(client.reverse(&reg, &s("GAAA"), 0), None);
}

#[test]
fn test_batch_set_over_max_ops() {
    let (mut client, reg) = standalone();
    let name = s("alice.xlm");
    client.set_record(&reg, &name, &s("GOWNER"), &s("GAAA"), 100).unwrap();

    let mut ops = Vec::new();
    for i in 0..=MAX_BATCH_OPS {
        ops.push(BatchOp::SetText(format!("key-{i}"), s("v")));
    }
    let result = client.batch_set(&reg, &name, &s("GOWNER"), &ops, 200);
    assert!(result.is_err(), "batch_set must reject oversized payloads");
    assert_eq!(result, Err(ResolverError::BatchTooLarge));
}

#[test]
fn batch_set_rejects_non_owner() {
    let (mut client, reg) = standalone();
    let name = s("alice.xlm");
    client.set_record(&reg, &name, &s("GOWNER"), &s("GAAA"), 100).unwrap();
    let ops = vec![BatchOp::SetAddress(s("GBBB"))];
    let result = client.batch_set(&reg, &name, &s("GINTRUDER"), &ops, 200);
    assert!(result.is_err(), "non-owner batch_set should fail");
    assert_eq!(client.reverse(&reg, &s("GAAA"), 0), Some(name));
}

#[test]
fn test_batch_set_partial_failure_count() {
    let (mut client, reg) = standalone();
    let name = s("alice.xlm");
    client.set_record(&reg, &name, &s("GOWNER"), &s("GAAA"), 100).unwrap();

    let ops = vec![
        BatchOp::SetAddress(s("GBBB")),
        BatchOp::SetText(s("BadKey"), s("value")),
        BatchOp::SetText(s("url"), s("https://alice.example")),
    ];
    let applied = client.batch_set(&reg, &name, &s("GOWNER"), &ops, 200).unwrap();
    assert_eq!(applied, 2, "only successful operations are counted");

    let record = client.resolve(&name, None).unwrap();
    assert_eq!(stellar(&record), Some(s("GBBB")));
    assert_eq!(record.text_records.len(), 1);
    assert_eq!(text(&record, "url"), Some(s("https://alice.example")));
    assert_eq!(text(&record, "badkey"), None);
}

#[test]
fn test_batch_set_invalid_key_skipped() {
    let (mut client, reg) = standalone();
    let name = s("alice.xlm");
    client.set_record(&reg, &name, &s("GOWNER"), &s("GAAA"), 100).unwrap();

    let ops = vec![
        BatchOp::SetText(s("url"), s("before")),
        BatchOp::SetText(s("BadKey"), s("skip")),
        BatchOp::SetText(s("email"), s("after")),
    ];
    assert_eq!(client.batch_set(&reg, &name, &s("GOWNER"), &ops, 200), Ok(2));
    let record = client.resolve(&name, None).unwrap();
    assert_eq!(record.text_records.len(), 2);
    assert_eq!(text(&record, "url"), Some(s("before")));
    assert_eq!(text(&record, "email"), Some(s("after")));
    assert_eq!(text(&record, "BadKey"), None);
}

#[test]
fn test_batch_set_at_text_limit() {
    let (mut client, reg) = standalone();
    let name = s("alice.xlm");
    let owner = s("GOWNER");
    client.set_record(&reg, &name, &owner, &s("GAAA"), 100).unwrap();
    for idx in 0..MAX_TEXT_RECORDS {
        client
            .set_text_record(&reg, &name, &owner, &format!("key-{idx}"), &s("value"), 101 + idx as u64)
            .unwrap();
    }

    let ops = vec![
        BatchOp::SetText(s("new-key"), s("skipped")),
        BatchOp::SetText(s("key-0"), s("updated")),
    ];
    assert_eq!(client.batch_set(&reg, &name, &owner, &ops, 200), Ok(1));
    let record = client.resolve(&name, None).unwrap();
    assert_eq!(record.text_records.len(), MAX_TEXT_RECORDS);
    assert_eq!(text(&record, "new-key"), None);
    assert_eq!(text(&record, "key-0"), Some(s("updated")));
}

#[test]
fn test_batch_set_at_max_ops() {
    let (mut client, reg) = standalone();
    let name = s("alice.xlm");
    client.set_record(&reg, &name, &s("GOWNER"), &s("GAAA"), 100).unwrap();

    let mut ops = Vec::new();
    for idx in 0..MAX_BATCH_OPS {
        ops.push(BatchOp::SetAddress(format!("G{idx}")));
    }
    assert_eq!(client.batch_set(&reg, &name, &s("GOWNER"), &ops, 200), Ok(MAX_BATCH_OPS as u32));
    assert_eq!(client.reverse(&reg, &format!("G{}", MAX_BATCH_OPS - 1), 0), Some(name));
}

#[test]
fn test_batch_set_all_invalid() {
    let (mut client, reg) = standalone();
    let name = s("alice.xlm");
    client.set_record(&reg, &name, &s("GOWNER"), &s("GAAA"), 100).unwrap();

    let ops = vec![
        BatchOp::SetText(s("BadKey"), s("value")),
        BatchOp::SetText(s("also invalid!"), s("value")),
    ];
    assert_eq!(client.batch_set(&reg, &name, &s("GOWNER"), &ops, 200), Ok(0));
    let record = client.resolve(&name, None).unwrap();
    assert_eq!(stellar(&record), Some(s("GAAA")));
    assert_eq!(record.text_records.len(), 0);
    assert_eq!(record.updated_at, 100);
}

#[test]
fn property_repeated_address_replacement_keeps_reverse_consistent() {
    let (mut client, reg) = standalone();
    let name = s("alice.xlm");
    let addresses = ["GAAA", "GBBB", "GCCC", "GDDD", "GEEE"];
    for (i, addr_str) in addresses.iter().enumerate() {
        let addr = s(addr_str);
        client.set_record(&reg, &name, &s("GOWNER"), &addr, 100 + i as u64).unwrap();
        assert_eq!(
            client.reverse(&reg, &addr, 0),
            Some(name.clone()),
            "reverse for {addr_str} must resolve after set_record"
        );
        for prev_addr_str in &addresses[..i] {
            assert_eq!(
                client.reverse(&reg, &s(prev_addr_str), 0),
                None,
                "stale reverse for {prev_addr_str} must be cleared"
            );
        }
    }
}

#[test]
fn property_primary_name_changes_remain_consistent() {
    let (mut client, reg) = standalone();
    let names = ["alice.xlm", "pay.alice.xlm", "tip.alice.xlm"];
    let addr = s("GAAA");
    for (i, n) in names.iter().enumerate() {
        client.set_record(&reg, &s(n), &s("GOWNER"), &addr, 100 + i as u64).unwrap();
    }
    for chosen in &names {
        let chosen_name = s(chosen);
        client.set_primary_name(&reg, &addr, &s("GOWNER"), &chosen_name).unwrap();
        assert_eq!(
            client.reverse(&reg, &addr, 0),
            Some(chosen_name.clone()),
            "reverse should return the current primary name ({chosen})"
        );
        for n in &names {
            assert!(client.resolve(&s(n), None).is_some(), "forward resolution for {n} must remain intact");
        }
    }
}

#[test]
fn property_remove_and_reregister_stays_consistent() {
    let (mut client, reg) = standalone();
    let name = s("alice.xlm");
    let addr = s("GAAA");
    for round in 0u64..4 {
        client.set_record(&reg, &name, &s("GOWNER"), &addr, 100 + round * 10).unwrap();
        assert!(client.resolve(&name, None).is_some());
        assert_eq!(client.reverse(&reg, &addr, 0), Some(name.clone()));

        client.remove_record(&reg, &name, &s("GOWNER")).unwrap();
        assert!(client.resolve(&name, None).is_none());
        assert_eq!(client.reverse(&reg, &addr, 0), None);
    }
}

#[test]
fn property_text_record_churn_near_limit_stays_consistent() {
    let (mut client, reg) = standalone();
    let name = s("alice.xlm");
    let owner = s("GOWNER");
    client.set_record(&reg, &name, &owner, &s("GAAA"), 100).unwrap();
    for idx in 0..MAX_TEXT_RECORDS {
        client
            .set_text_record(&reg, &name, &owner, &format!("key-{idx}"), &format!("value-{idx}"), 101 + idx as u64)
            .unwrap();
    }
    assert_eq!(client.resolve(&name, None).unwrap().text_records.len(), MAX_TEXT_RECORDS);

    let overflow = client.set_text_record(&reg, &name, &owner, &s("overflow-key"), &s("v"), 200);
    assert!(overflow.is_err());
    assert_eq!(overflow, Err(ResolverError::TooManyTextRecords));

    client.set_text_record(&reg, &name, &owner, &s("key-0"), &s("updated"), 201).unwrap();
    let record = client.resolve(&name, None).unwrap();
    assert_eq!(record.text_records.len(), MAX_TEXT_RECORDS);
    assert_eq!(text(&record, "key-0"), Some(s("updated")));
}

#[test]
fn property_batch_set_sequence_remains_consistent() {
    let (mut client, reg) = standalone();
    let name = s("alice.xlm");
    client.set_record(&reg, &name, &s("GOWNER"), &s("G0000"), 100).unwrap();

    let steps: &[(&str, &[(&str, &str)])] = &[
        ("GAAA", &[("url", "https://a"), ("com.twitter", "@a1")]),
        ("GBBB", &[("url", "https://b"), ("email", "b@b.com")]),
        ("GCCC", &[("email", "c@c.com")]),
    ];
    let mut now = 200u64;
    for (addr_str, text_pairs) in steps {
        let mut ops = vec![BatchOp::SetAddress(s(addr_str))];
        for (k, v) in *text_pairs {
            ops.push(BatchOp::SetText(s(k), s(v)));
        }
        client.batch_set(&reg, &name, &s("GOWNER"), &ops, now).unwrap();
        assert_eq!(client.reverse(&reg, &s(addr_str), 0), Some(name.clone()));
        assert!(client.resolve(&name, None).is_some());
        now += 10;
    }
}

#[test]
fn test_version_is_exposed() {
    let client = ResolverContract::new();
    assert_eq!(client.version(), 1);
}

// ---- further cases of the library's own ----

#[test]
fn registry_refusal_is_reported_when_a_registry_is_configured() {
    let mut registry = RegistryContract::new();
    let mut resolver = ResolverContract::new();
    resolver.initialize(s("CREGISTRY"), s("GADMIN")).unwrap();
    // The name is not registered: the registry's refusal is passed on.
    assert_eq!(
        resolver.set_record(&registry, &s("ghost.xlm"), &s("GOWNER"), &s("GABC"), 10),
        Err(ResolverError::Registry(xlm_ns::registry::RegistryError::NotFound))
    );
    registry.register(s("ghost.xlm"), s("GOWNER"), None, None, 10, 100, 200).unwrap();
    assert_eq!(
        resolver.set_record(&registry, &s("ghost.xlm"), &s("GOTHER"), &s("GABC"), 10),
        Err(ResolverError::Unauthorized)
    );
    resolver.set_record(&registry, &s("ghost.xlm"), &s("GOWNER"), &s("GABC"), 10).unwrap();
    assert_eq!(resolver.get_stellar_address(&s("ghost.xlm"), None), Some(s("GABC")));
}

#[test]
fn invalid_names_and_missing_records_are_rejected() {
    let (mut client, reg) = standalone();
    assert_eq!(
        client.set_record(&reg, &s("no-tld"), &s("GOWNER"), &s("GABC"), 10),
        Err(ResolverError::Validation)
    );
    client.set_record(&reg, &s("ok.xlm"), &s("GOWNER"), &s("GABC"), 10).unwrap();
    assert_eq!(
        client.set_address(&reg, &s("missing.xlm"), &s("GOWNER"), &s("ethereum"), &s("0x1"), 11),
        Err(ResolverError::RecordNotFound)
    );
}

#[test]
fn record_changes_are_announced_in_order() {
    let (mut client, reg) = standalone();
    let name = s("alice.xlm");
    client.set_record(&reg, &name, &s("GOWNER"), &s("GAAA"), 100).unwrap();
    let n = client.events().len();
    assert_eq!(n, 2);
    assert_eq!(
        client.events()[0],
        ResolverEvent::ForwardUpdated { name: name.clone(), address: s("GAAA"), chain: s("stellar"), updated_at: 100 }
    );
    assert_eq!(client.events()[1], ResolverEvent::ReverseUpdated { address: s("GAAA"), name: name.clone() });

    client.set_text_record(&reg, &name, &s("GOWNER"), &s("url"), &s("https://a"), 101).unwrap();
    assert_eq!(
        client.events().last(),
        Some(&ResolverEvent::TextRecordUpdated { name: name.clone(), key: s("url"), value: s("https://a"), updated_at: 101 })
    );
    client.set_address(&reg, &name, &s("GOWNER"), &s("ethereum"), &s("0xabc"), 102).unwrap();
    assert_eq!(
        client.events().last(),
        Some(&ResolverEvent::ForwardUpdated {
            name: name.clone(),
            address: s("0xabc"),
            chain: s("ethereum"),
            updated_at: 102,
        })
    );
    client.set_primary_name(&reg, &s("GAAA"), &s("GOWNER"), &name).unwrap();
    assert_eq!(
        client.events().last(),
        Some(&ResolverEvent::PrimaryNameSet { address: s("GAAA"), name: name.clone() })
    );
    client.remove_record(&reg, &name, &s("GOWNER")).unwrap();
    assert_eq!(
        client.events().last(),
        Some(&ResolverEvent::RecordRemoved { name: name.clone(), former_address: Some(s("GAAA")) })
    );
    // A refused change announces nothing.
    let before = client.events().len();
    assert!(client.remove_record(&reg, &name, &s("GOWNER")).is_err());
    assert_eq!(client.events().len(), before);
}

#[test]
fn batch_set_announces_each_applied_operation() {
    let (mut client, reg) = standalone();
    let name = s("alice.xlm");
    client.set_record(&reg, &name, &s("GOWNER"), &s("GAAA"), 100).unwrap();
    let before = client.events().len();
    let ops = vec![
        BatchOp::SetText(s("BadKey"), s("skipped")),
        BatchOp::SetAddress(s("GBBB")),
        BatchOp::SetText(s("url"), s("u")),
    ];
    assert_eq!(client.batch_set(&reg, &name, &s("GOWNER"), &ops, 300), Ok(2));
    let events = &client.events()[before..];
    assert_eq!(
        events,
        &[
            ResolverEvent::ForwardUpdated { name: name.clone(), address: s("GBBB"), chain: s("stellar"), updated_at: 300 },
            ResolverEvent::ReverseUpdated { address: s("GBBB"), name: name.clone() },
            ResolverEvent::TextRecordUpdated { name: name.clone(), key: s("url"), value: s("u"), updated_at: 300 },
        ]
    );
}

#[test]
fn record_owner_moves_only_for_its_current_owner() {
    let (mut client, reg) = standalone();
    let name = s("timmy.xlm");
    assert!(!client.has_record(&name));
    assert_eq!(
        client.transfer_record_owner(&name, &s("GOWNER"), &s("GNEXT")),
        Err(ResolverError::RecordNotFound)
    );
    client.set_record(&reg, &name, &s("GOWNER"), &s("GABC"), 100).unwrap();
    assert!(client.has_record(&name));
    assert_eq!(
        client.transfer_record_owner(&name, &s("GOTHER"), &s("GNEXT")),
        Err(ResolverError::Unauthorized)
    );
    client.transfer_record_owner(&name, &s("GOWNER"), &s("GNEXT")).unwrap();
    assert_eq!(client.resolve(&name, None).unwrap().owner, s("GNEXT"));
}

#[test]
fn batch_applies_at_most_its_operations_and_keeps_text_limits() {
    let (mut client, reg) = standalone();
    let name = s("timmy.xlm");
    client.set_record(&reg, &name, &s("GOWNER"), &s("GABC"), 100).unwrap();
    let long = "v".repeat(MAX_TEXT_RECORD_VALUE_LENGTH + 1);
    let ops = vec![
        BatchOp::SetText(s("email"), s("a@b.c")),
        BatchOp::SetText(s("BAD KEY"), s("x")),
        BatchOp::SetText(s("bio"), long),
        BatchOp::SetAddress(s("GNEW")),
    ];
    let applied = client.batch_set(&reg, &name, &s("GOWNER"), &ops, 200).unwrap();
    assert_eq!(applied, 2);
    let rec = client.resolve(&name, None).unwrap();
    assert_eq!(text(&rec, "email"), Some(s("a@b.c")));
    assert_eq!(text(&rec, "bio"), None);
    assert_eq!(stellar(&rec), Some(s("GNEW")));
}

#[test]
fn transfer_without_a_named_resolver_leaves_an_uninitialized_resolver_alone() {
    let mut registry = RegistryContract::new();
    let mut resolver = ResolverContract::new();
    registry.initialize(s("GADMIN")).unwrap();
    registry
        .register(s("timmy.xlm"), s("GOLD"), None, None, 100, 1_000, 2_000)
        .unwrap();
    transfer_with_resolver(&mut registry, &mut resolver, &s("timmy.xlm"), &s("GOLD"), s("GNEW"), 200).unwrap();
    assert_eq!(registry.resolve(&s("timmy.xlm"), 200).unwrap().owner, s("GNEW"));
}
