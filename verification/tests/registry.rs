use xlm_ns::registry::{NameState, NftCall, RegistryContract, RegistryError, RegistryEvent};

fn s(v: &str) -> String {
    v.to_string()
}

struct TimeHelper {
    now: u64,
}

impl TimeHelper {
    fn new() -> Self {
        Self { now: 100_000 }
    }
    fn future(&self, seconds: u64) -> u64 {
        self.now + seconds
    }
    fn past(&self, seconds: u64) -> u64 {
        self.now.saturating_sub(seconds)
    }
}

fn register_default(registry: &mut RegistryContract, name: &str, owner: &str, time: &TimeHelper) {
    registry
        .register(s(name), s(owner), None, None, time.now, time.future(1_000), time.future(2_000))
        .unwrap();
}

#[test]
fn stores_registry_entries_in_persistent_storage() {
    let mut registry = RegistryContract::new();
    let owner = s("GOWNER");
    let next_owner = s("GNEXT");
    let name = s("timmy.xlm");
    let time = TimeHelper::new();

    registry
        .register(
            name.clone(),
            owner.clone(),
            Some(s("GABC")),
            None,
            time.now,
            time.future(1_000),
            time.future(2_000),
        )
        .unwrap();

    let transfer_time = time.future(10);
    registry.transfer(&name, &owner, next_owner.clone(), transfer_time).unwrap();

    let resolved = registry.resolve(&name, transfer_time).unwrap();
    assert_eq!(resolved.owner, next_owner);
    assert_eq!(registry.names_for_owner(&next_owner).len(), 1);
}

#[test]
fn pause_blocks_mutations_but_keeps_queries_available() {
    let mut registry = RegistryContract::new();
    let admin = s("GADMIN");
    let owner = s("GOWNER");
    let next_owner = s("GNEXT");
    let name = s("paused.xlm");
    let time = TimeHelper::new();

    registry.initialize(admin).unwrap();
    register_default(&mut registry, "paused.xlm", "GOWNER", &time);

    registry.pause(100_000).unwrap();
    assert!(registry.is_paused());
    assert_eq!(
        registry.register(
            s("blocked-registration.xlm"),
            owner.clone(),
            None,
            None,
            time.now,
            time.future(1_000),
            time.future(2_000),
        ),
        Err(RegistryError::ContractPaused)
    );
    assert_eq!(
        registry.transfer(&name, &owner, next_owner.clone(), time.future(10)),
        Err(RegistryError::ContractPaused)
    );
    assert_eq!(
        registry.renew(&name, &owner, time.future(1_500), time.future(2_500), time.now),
        Err(RegistryError::ContractPaused)
    );
    assert_eq!(registry.set_resolver(&name, &owner, None, time.now), Err(RegistryError::ContractPaused));
    assert_eq!(
        registry.set_target_address(&name, &owner, None, time.now),
        Err(RegistryError::ContractPaused)
    );
    assert_eq!(registry.set_metadata(&name, &owner, None, time.now), Err(RegistryError::ContractPaused));
    assert_eq!(registry.burn(&name, &owner, time.now), Err(RegistryError::ContractPaused));

    assert_eq!(registry.resolve(&name, time.now).unwrap().owner, owner);
    assert_eq!(registry.name_state(&name, time.now), NameState::Active);
    assert_eq!(registry.names_for_owner(&owner).len(), 1);

    registry.unpause(100_000).unwrap();
    assert!(!registry.is_paused());
    registry.transfer(&name, &owner, next_owner.clone(), time.future(10)).unwrap();
    assert_eq!(registry.resolve(&name, time.future(10)).unwrap().owner, next_owner);
}

#[test]
fn pause_and_unpause_emit_timestamped_events() {
    let mut registry = RegistryContract::new();
    let admin = s("GADMIN");
    registry.initialize(admin.clone()).unwrap();

    registry.pause(123).unwrap();
    assert_eq!(
        registry.events().last(),
        Some(&RegistryEvent::ContractPaused { admin: admin.clone(), timestamp: 123 })
    );
    registry.unpause(123).unwrap();
    assert_eq!(
        registry.events().last(),
        Some(&RegistryEvent::ContractUnpaused { admin, timestamp: 123 })
    );
    assert_eq!(registry.events().len(), 2);
}

#[test]
fn name_state_distinguishes_lifecycle_phases() {
    let mut registry = RegistryContract::new();
    let name = s("phase.xlm");
    let time = TimeHelper::new();
    let expires_at = time.future(1_000);
    let grace_period_ends_at = time.future(2_000);

    assert_eq!(registry.name_state(&name, time.now), NameState::Missing);

    registry
        .register(name.clone(), s("GOWNER"), None, None, time.now, expires_at, grace_period_ends_at)
        .unwrap();

    assert_eq!(registry.name_state(&name, time.future(500)), NameState::Active);
    assert_eq!(registry.name_state(&name, expires_at), NameState::Active);
    assert_eq!(registry.name_state(&name, time.future(1_500)), NameState::GracePeriod);
    assert_eq!(registry.name_state(&name, grace_period_ends_at), NameState::GracePeriod);
    assert_eq!(registry.name_state(&name, grace_period_ends_at + 1), NameState::Claimable);
}

#[test]
fn rejects_registration_with_expiry_before_now() {
    let mut registry = RegistryContract::new();
    let time = TimeHelper::new();
    let result = registry.register(
        s("timmy.xlm"),
        s("GOWNER"),
        None,
        None,
        time.now,
        time.past(1),
        time.future(100),
    );
    assert_eq!(result, Err(RegistryError::InvalidExpiry));
}

#[test]
fn rejects_registration_with_grace_period_before_expiry() {
    let mut registry = RegistryContract::new();
    let time = TimeHelper::new();
    let result = registry.register(
        s("timmy.xlm"),
        s("GOWNER"),
        None,
        None,
        time.now,
        time.future(100),
        time.future(99),
    );
    assert_eq!(result, Err(RegistryError::InvalidGracePeriod));
}

#[test]
fn rejects_renewal_with_malformed_lifecycle_timestamps() {
    let mut registry = RegistryContract::new();
    let owner = s("GOWNER");
    let name = s("timmy.xlm");
    let time = TimeHelper::new();
    let expires_at = time.future(100);
    let grace_ends_at = time.future(200);
    registry
        .register(name.clone(), owner.clone(), None, None, time.now, expires_at, grace_ends_at)
        .unwrap();

    let invalid_expiry = registry.renew(&name, &owner, time.past(1), grace_ends_at, time.now);
    assert_eq!(invalid_expiry, Err(RegistryError::InvalidExpiry));

    let invalid_grace_period =
        registry.renew(&name, &owner, time.future(150), time.future(149), time.now);
    assert_eq!(invalid_grace_period, Err(RegistryError::InvalidGracePeriod));
}

#[test]
fn rejects_renewal_that_reduces_expiry_or_grace_period() {
    let mut registry = RegistryContract::new();
    let owner = s("GOWNER");
    let name = s("timmy.xlm");
    let time = TimeHelper::new();
    let expires_at = time.future(100);
    let grace_ends_at = time.future(200);
    registry
        .register(name.clone(), owner.clone(), None, None, time.now, expires_at, grace_ends_at)
        .unwrap();

    let reduced_expiry = registry.renew(&name, &owner, time.future(50), grace_ends_at, time.now);
    assert_eq!(reduced_expiry, Err(RegistryError::InvalidExpiry));

    let reduced_grace = registry.renew(&name, &owner, expires_at, time.future(150), time.now);
    assert_eq!(reduced_grace, Err(RegistryError::InvalidGracePeriod));

    let new_expires_at = time.future(200);
    let new_grace_ends_at = time.future(300);
    registry.renew(&name, &owner, new_expires_at, new_grace_ends_at, time.now).unwrap();
    let entry = registry.resolve(&name, time.now).unwrap();
    assert_eq!(entry.expires_at, new_expires_at);
    assert_eq!(entry.grace_period_ends_at, new_grace_ends_at);
}

#[test]
fn threat_actor_cannot_transfer_unowned_name() {
    let mut registry = RegistryContract::new();
    let time = TimeHelper::new();
    register_default(&mut registry, "timmy.xlm", "GOWNER", &time);
    let result = registry.transfer(&s("timmy.xlm"), &s("GATTACKER"), s("GNEXT"), time.future(10));
    assert_eq!(result, Err(RegistryError::Unauthorized));
}

#[test]
fn threat_actor_cannot_set_resolver_for_unowned_name() {
    let mut registry = RegistryContract::new();
    let time = TimeHelper::new();
    register_default(&mut registry, "timmy.xlm", "GOWNER", &time);
    let result =
        registry.set_resolver(&s("timmy.xlm"), &s("GATTACKER"), Some(s("CRESOLVER")), time.future(10));
    assert_eq!(result, Err(RegistryError::Unauthorized));
}

#[test]
fn threat_actor_cannot_set_target_address_for_unowned_name() {
    let mut registry = RegistryContract::new();
    let time = TimeHelper::new();
    register_default(&mut registry, "timmy.xlm", "GOWNER", &time);
    let result = registry.set_target_address(
        &s("timmy.xlm"),
        &s("GATTACKER"),
        Some(s("target_address")),
        time.future(10),
    );
    assert_eq!(result, Err(RegistryError::Unauthorized));
}

#[test]
fn threat_actor_cannot_set_metadata_for_unowned_name() {
    let mut registry = RegistryContract::new();
    let time = TimeHelper::new();
    register_default(&mut registry, "timmy.xlm", "GOWNER", &time);
    let result =
        registry.set_metadata(&s("timmy.xlm"), &s("GATTACKER"), Some(s("ipfs://hash")), time.future(10));
    assert_eq!(result, Err(RegistryError::Unauthorized));
}

#[test]
fn threat_actor_cannot_renew_unowned_name() {
    let mut registry = RegistryContract::new();
    let time = TimeHelper::new();
    register_default(&mut registry, "timmy.xlm", "GOWNER", &time);
    let result = registry.renew(
        &s("timmy.xlm"),
        &s("GATTACKER"),
        time.future(1500),
        time.future(2500),
        time.future(10),
    );
    assert_eq!(result, Err(RegistryError::Unauthorized));
}

#[test]
fn test_declares_that_admin_recovery_is_not_supported() {
    let registry = RegistryContract::new();
    assert!(!registry.supports_admin_recovery());
}

#[test]
fn audit_owner_index_is_empty_for_consistent_state() {
    let mut registry = RegistryContract::new();
    let time = TimeHelper::new();
    register_default(&mut registry, "audit-ok.xlm", "GOWNER", &time);
    let stale = registry.audit_owner_index(&s("GOWNER"));
    assert_eq!(stale.len(), 0, "expected no stale entries after normal registration");
}

#[test]
fn audit_owner_index_is_empty_after_transfer() {
    let mut registry = RegistryContract::new();
    let time = TimeHelper::new();
    let owner = s("GOWNER");
    let next_owner = s("GNEXT");
    register_default(&mut registry, "audit-xfer.xlm", "GOWNER", &time);
    registry.transfer(&s("audit-xfer.xlm"), &owner, next_owner.clone(), time.future(10)).unwrap();

    assert_eq!(
        registry.audit_owner_index(&owner).len(),
        0,
        "previous owner index should be clean after transfer"
    );
    assert_eq!(
        registry.audit_owner_index(&next_owner).len(),
        0,
        "new owner index should be clean after transfer"
    );
}

#[test]
fn audit_owner_index_is_empty_for_unknown_owner() {
    let registry = RegistryContract::new();
    let stale = registry.audit_owner_index(&s("GSTRANGER"));
    assert_eq!(stale.len(), 0, "unknown owner should have an empty audit result");
}

#[test]
fn audit_owner_index_detects_stale_index_entry() {
    let mut registry = RegistryContract::new();
    let owner = s("GOWNER");
    let phantom = s("phantom.xlm");
    registry.inject_stale_index_entry(&owner, &phantom);

    let stale = registry.audit_owner_index(&owner);
    assert_eq!(stale.len(), 1, "expected exactly one stale entry");
    assert_eq!(stale[0], phantom);
}

#[test]
fn transfer_emits_event_with_name_old_owner_and_new_owner() {
    let mut registry = RegistryContract::new();
    let time = TimeHelper::new();
    let owner = s("GOWNER");
    let next_owner = s("GNEXT");
    let name = s("event-xfer.xlm");
    register_default(&mut registry, "event-xfer.xlm", "GOWNER", &time);
    let before = registry.events().len();

    registry.transfer(&name, &owner, next_owner.clone(), time.future(10)).unwrap();

    assert_eq!(registry.events().len(), before + 1);
    assert_eq!(
        registry.events().last(),
        Some(&RegistryEvent::Transferred { name, old_owner: owner, new_owner: next_owner })
    );
}

#[test]
fn transfer_event_is_emitted_once_per_transfer() {
    let mut registry = RegistryContract::new();
    let time = TimeHelper::new();
    let owner = s("GOWNER");
    let second = s("GSECOND");
    let third = s("GTHIRD");
    let name = s("multi-xfer.xlm");
    registry
        .register(name.clone(), owner.clone(), None, None, time.now, time.future(10_000), time.future(20_000))
        .unwrap();

    let before = registry.events().len();
    registry.transfer(&name, &owner, second.clone(), time.future(10)).unwrap();
    assert_eq!(registry.events().len(), before + 1);
    assert_eq!(
        registry.events().last(),
        Some(&RegistryEvent::Transferred {
            name: name.clone(),
            old_owner: owner.clone(),
            new_owner: second.clone(),
        }),
        "first transfer event should carry (name, old_owner, new_owner)"
    );

    registry.transfer(&name, &second, third.clone(), time.future(20)).unwrap();
    assert_eq!(registry.events().len(), before + 2);
    assert_eq!(
        registry.events().last(),
        Some(&RegistryEvent::Transferred { name: name.clone(), old_owner: second, new_owner: third }),
        "second transfer event should carry (name, old_owner, new_owner)"
    );
}

#[test]
fn dispute_lock_blocks_mutations_but_not_resolution_and_expires_automatically() {
    let mut registry = RegistryContract::new();
    let admin = s("GADMIN");
    let dispute_admin = s("GDISPUTE");
    let owner = s("GOWNER");
    let next_owner = s("GNEXT");
    let name = s("locked.xlm");
    let time = TimeHelper::new();

    registry.initialize(admin).unwrap();
    registry.set_dispute_admin(dispute_admin.clone()).unwrap();
    register_default(&mut registry, "locked.xlm", "GOWNER", &time);

    let locked_until = time.future(50);
    registry.lock_name(&name, &dispute_admin, locked_until, s("dispute review"), time.now).unwrap();

    let resolved = registry.resolve(&name, time.future(10)).unwrap();
    assert_eq!(resolved.owner, owner, "resolution should stay live while locked");

    assert_eq!(
        registry.transfer(&name, &owner, next_owner.clone(), time.future(10)),
        Err(RegistryError::Locked)
    );
    assert_eq!(
        registry.set_metadata(&name, &owner, Some(s("ipfs://new-metadata")), time.future(10)),
        Err(RegistryError::Locked)
    );
    assert_eq!(
        registry.renew(&name, &owner, time.future(1_500), time.future(2_500), time.future(10)),
        Err(RegistryError::Locked)
    );

    registry.transfer(&name, &owner, next_owner.clone(), time.future(60)).unwrap();
    let resolved_after_expiry = registry.resolve(&name, time.future(60)).unwrap();
    assert_eq!(resolved_after_expiry.owner, next_owner);
}

#[test]
fn dispute_lock_unlock_emits_events_and_allows_early_release() {
    let mut registry = RegistryContract::new();
    let admin = s("GADMIN");
    let dispute_admin = s("GDISPUTE");
    let owner = s("GOWNER");
    let next_owner = s("GNEXT");
    let name = s("unlock.xlm");
    let time = TimeHelper::new();

    registry.initialize(admin).unwrap();
    registry.set_dispute_admin(dispute_admin.clone()).unwrap();
    register_default(&mut registry, "unlock.xlm", "GOWNER", &time);

    let lock_reason = s("ownership dispute");
    let locked_until = time.future(500);

    registry.lock_name(&name, &dispute_admin, locked_until, lock_reason.clone(), time.now).unwrap();
    assert_eq!(
        registry.events().last(),
        Some(&RegistryEvent::LockApplied {
            name: name.clone(),
            locked_until,
            lock_reason: lock_reason.clone(),
            admin: dispute_admin.clone(),
        })
    );

    registry.unlock_name(&name, &dispute_admin).unwrap();
    assert_eq!(
        registry.events().last(),
        Some(&RegistryEvent::LockRemoved {
            name: name.clone(),
            locked_until,
            lock_reason: lock_reason.clone(),
            admin: dispute_admin.clone(),
        })
    );

    registry.transfer(&name, &owner, next_owner.clone(), time.future(10)).unwrap();
    let resolved = registry.resolve(&name, time.future(10)).unwrap();
    assert_eq!(resolved.owner, next_owner);
}

#[test]
fn non_dispute_admin_cannot_lock_or_unlock_names() {
    let mut registry = RegistryContract::new();
    let dispute_admin = s("GDISPUTE");
    let attacker = s("GATTACKER");
    let name = s("governed.xlm");
    let time = TimeHelper::new();

    registry.initialize(s("GADMIN")).unwrap();
    registry.set_dispute_admin(dispute_admin).unwrap();
    register_default(&mut registry, "governed.xlm", "GOWNER", &time);

    let lock_attempt = registry.lock_name(&name, &attacker, time.future(10), s("dispute"), time.now);
    assert_eq!(lock_attempt, Err(RegistryError::Unauthorized));

    let unlock_attempt = registry.unlock_name(&name, &attacker);
    assert!(matches!(unlock_attempt, Err(RegistryError::Unauthorized)));
}

// ---- further cases of the library's own ----

#[test]
fn claimable_name_can_be_registered_again_and_announces_the_burn() {
    let mut registry = RegistryContract::new();
    let time = TimeHelper::new();
    let name = s("reclaim.xlm");
    register_default(&mut registry, "reclaim.xlm", "GOWNER", &time);

    // Still in its grace period: not yet claimable.
    assert_eq!(
        registry.register(name.clone(), s("GNEW"), None, None, time.future(1_500), time.future(3_000), time.future(4_000)),
        Err(RegistryError::NotYetClaimable)
    );
    // Active: already registered.
    assert_eq!(
        registry.register(name.clone(), s("GNEW"), None, None, time.future(10), time.future(3_000), time.future(4_000)),
        Err(RegistryError::AlreadyRegistered)
    );

    let later = time.future(2_001);
    registry.register(name.clone(), s("GNEW"), None, None, later, later + 1_000, later + 2_000).unwrap();
    assert_eq!(registry.resolve(&name, later).unwrap().owner, s("GNEW"));
    assert_eq!(registry.names_for_owner(&s("GOWNER")).len(), 0);
    assert_eq!(
        registry.events().last(),
        Some(&RegistryEvent::Burned { name: name.clone(), owner: s("GOWNER") })
    );
}

#[test]
fn burn_frees_the_name() {
    let mut registry = RegistryContract::new();
    let time = TimeHelper::new();
    let name = s("burned.xlm");
    register_default(&mut registry, "burned.xlm", "GOWNER", &time);
    assert_eq!(registry.burn(&name, &s("GSTRANGER"), time.now), Err(RegistryError::Unauthorized));
    registry.burn(&name, &s("GOWNER"), time.now).unwrap();
    assert_eq!(registry.name_state(&name, time.now), NameState::Missing);
    assert_eq!(registry.resolve(&name, time.now).map(|e| e.owner), Err(RegistryError::NotFound));
    assert_eq!(registry.names_for_owner(&s("GOWNER")).len(), 0);
}

#[test]
fn invalid_names_and_long_metadata_are_rejected() {
    let mut registry = RegistryContract::new();
    let time = TimeHelper::new();
    assert_eq!(
        registry.register(s("no-tld"), s("GOWNER"), None, None, time.now, time.future(10), time.future(20)),
        Err(RegistryError::Validation)
    );
    let long = "x".repeat(257);
    assert_eq!(
        registry.register(s("meta.xlm"), s("GOWNER"), None, Some(long), time.now, time.future(10), time.future(20)),
        Err(RegistryError::MetadataTooLong)
    );
    assert_eq!(registry.resolve(&s("meta.xlm"), time.now).map(|e| e.owner), Err(RegistryError::NotFound));
}

#[test]
fn initialize_only_once_and_upgrade_records_version() {
    let mut registry = RegistryContract::new();
    assert_eq!(registry.upgrade(&vec![0, 0, 0, 2]), Err(RegistryError::UpgradeFailed));
    registry.initialize(s("GADMIN")).unwrap();
    assert_eq!(registry.initialize(s("GOTHER")), Err(RegistryError::Unauthorized));
    let before = registry.get_version();
    registry.upgrade(&vec![0, 0, 0, 2]).unwrap();
    assert_eq!(registry.get_version(), 2);
    assert_eq!(
        registry.events().last(),
        Some(&RegistryEvent::ContractUpgraded { old_version: before, new_version: 2, admin: s("GADMIN") })
    );
}

#[test]
fn nft_contract_moves_ownership_and_others_cannot() {
    let mut registry = RegistryContract::new();
    let time = TimeHelper::new();
    registry.initialize(s("GADMIN")).unwrap();
    register_default(&mut registry, "timmy.xlm", "GOWNER", &time);

    // Without a configured NFT contract nobody may move ownership this way.
    assert_eq!(
        registry.update_owner(&s("timmy.xlm"), &s("CNFT"), s("GNEXT"), time.now),
        Err(RegistryError::Unauthorized)
    );
    registry.set_nft_contract(s("CNFT")).unwrap();
    assert_eq!(
        registry.update_owner(&s("timmy.xlm"), &s("GOWNER"), s("GNEXT"), time.now),
        Err(RegistryError::Unauthorized)
    );
    assert_eq!(
        registry.update_owner(&s("missing.xlm"), &s("CNFT"), s("GNEXT"), time.now),
        Err(RegistryError::NotFound)
    );
    registry.update_owner(&s("timmy.xlm"), &s("CNFT"), s("GNEXT"), time.now).unwrap();
    assert_eq!(registry.resolve(&s("timmy.xlm"), time.now).unwrap().owner, s("GNEXT"));
    assert_eq!(registry.names_for_owner(&s("GNEXT")), vec![s("timmy.xlm")]);
    assert!(registry.names_for_owner(&s("GOWNER")).is_empty());
}

#[test]
fn reports_storage_schema_version() {
    let registry = RegistryContract::new();
    assert_eq!(registry.storage_schema_version(), 1);
}

#[test]
fn nft_contract_is_told_of_mints_transfers_renewals_and_burns() {
    let mut registry = RegistryContract::new();
    let time = TimeHelper::new();
    registry.initialize(s("GADMIN")).unwrap();

    // Without an NFT contract no call is made.
    register_default(&mut registry, "plain.xlm", "GOWNER", &time);
    assert!(registry.nft_calls().is_empty());

    registry.set_nft_contract(s("CNFT")).unwrap();
    register_default(&mut registry, "timmy.xlm", "GOWNER", &time);
    registry.transfer(&s("timmy.xlm"), &s("GOWNER"), s("GNEXT"), time.now).unwrap();
    registry
        .renew(&s("timmy.xlm"), &s("GNEXT"), time.future(1_500), time.future(2_500), time.now)
        .unwrap();
    registry.burn(&s("timmy.xlm"), &s("GNEXT"), time.now).unwrap();
    assert_eq!(
        registry.nft_calls(),
        &vec![
            NftCall::Mint {
                name: s("timmy.xlm"),
                owner: s("GOWNER"),
                metadata_uri: None,
                expires_at: time.future(1_000),
            },
            NftCall::SyncOwner { name: s("timmy.xlm"), new_owner: s("GNEXT") },
            NftCall::SyncExpiry { name: s("timmy.xlm"), new_expiry: time.future(1_500) },
            NftCall::Burn { name: s("timmy.xlm") },
        ]
    );
}

#[test]
fn reregistration_burns_the_old_token_before_minting() {
    let mut registry = RegistryContract::new();
    let time = TimeHelper::new();
    registry.initialize(s("GADMIN")).unwrap();
    registry.set_nft_contract(s("CNFT")).unwrap();
    register_default(&mut registry, "timmy.xlm", "GOWNER", &time);
    let later = time.future(3_000);
    registry
        .register(s("timmy.xlm"), s("GNEW"), None, None, later, later + 1_000, later + 2_000)
        .unwrap();
    let calls = registry.nft_calls();
    assert_eq!(calls.len(), 3);
    assert_eq!(calls[1], NftCall::Burn { name: s("timmy.xlm") });
    assert_eq!(
        calls[2],
        NftCall::Mint { name: s("timmy.xlm"), owner: s("GNEW"), metadata_uri: None, expires_at: later + 1_000 }
    );
}

#[test]
fn audit_reports_only_an_injected_stale_name() {
    let mut registry = RegistryContract::new();
    let time = TimeHelper::new();
    register_default(&mut registry, "real.xlm", "GOWNER", &time);
    assert!(registry.audit_owner_index(&s("GOWNER")).is_empty());
    registry.inject_stale_index_entry(&s("GOWNER"), &s("phantom.xlm"));
    assert_eq!(registry.audit_owner_index(&s("GOWNER")), vec![s("phantom.xlm")]);
}
