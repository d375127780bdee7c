//! The registry: the authoritative record of who owns each name and for how long.
//!
//! Authorization is the host's job: a method that names a caller or owner acts as
//! if that address has signed the call, and an admin-only method acts as if the
//! stored admin has signed it. A call that fails leaves the registry unchanged.
use vstd::prelude::*;
use crate::common::{
    byte_len, copy_opt_string, decode_target_version, is_active_at, is_claimable_at,
    spec_is_active_at, spec_is_claimable_at, spec_target_version, str_byte_len, valid_fqdn,
    validate_fqdn, CONTRACT_VERSION, DEFAULT_TTL_SECONDS, MAX_METADATA_URI_LENGTH,
};
use crate::strmap::{other_than, same_str, strs, StrList, StrMap};

verus! {

/// Whether admins can force names out of the normal lifecycle.
pub const ADMIN_RECOVERY_SUPPORTED: bool = false;

/// Version of the persistent storage layout.
pub const STORAGE_SCHEMA_VERSION: u32 = 1;

/// Everything the registry knows about one name.
pub struct RegistryEntry {
    pub name: String,
    pub owner: String,
    pub resolver: Option<String>,
    pub target_address: Option<String>,
    pub metadata_uri: Option<String>,
    pub ttl_seconds: u64,
    pub registered_at: u64,
    pub expires_at: u64,
    pub grace_period_ends_at: u64,
    pub transfer_count: u32,
}

impl RegistryEntry {
    /// A field-by-field copy.
    pub fn copy(&self) -> (r: Self)
        ensures
            r == *self,
    {
        RegistryEntry {
            name: self.name.clone(),
            owner: self.owner.clone(),
            resolver: copy_opt_string(&self.resolver),
            target_address: copy_opt_string(&self.target_address),
            metadata_uri: copy_opt_string(&self.metadata_uri),
            ttl_seconds: self.ttl_seconds,
            registered_at: self.registered_at,
            expires_at: self.expires_at,
            grace_period_ends_at: self.grace_period_ends_at,
            transfer_count: self.transfer_count,
        }
    }

    /// Active up to and including the expiry instant.
    pub open spec fn spec_is_active_at(&self, now: int) -> bool {
        spec_is_active_at(self.expires_at as int, now)
    }

    /// Claimable strictly after the grace period ends.
    pub open spec fn spec_is_claimable_at(&self, now: int) -> bool {
        spec_is_claimable_at(self.grace_period_ends_at as int, now)
    }

    fn is_active_at(&self, now_unix: u64) -> (r: bool)
        ensures
            r == self.spec_is_active_at(now_unix as int),
    {
        is_active_at(self.expires_at, now_unix)
    }

    fn is_claimable_at(&self, now_unix: u64) -> (r: bool)
        ensures
            r == self.spec_is_claimable_at(now_unix as int),
    {
        is_claimable_at(self.grace_period_ends_at, now_unix)
    }
}

/// Lifecycle state of a name.
#[derive(Clone, Copy, Debug, PartialEq, Eq, Structural)]
pub enum NameState {
    /// No entry exists for this name.
    Missing,
    /// Registered and not yet expired.
    Active,
    /// Expired but still within the grace period (only the owner may renew).
    GracePeriod,
    /// Past the grace period; anyone may claim it.
    Claimable,
}

/// Errors of the registry.
#[derive(Clone, Copy, Debug, PartialEq, Eq, Structural)]
pub enum RegistryError {
    AlreadyRegistered,
    NotFound,
    NotYetClaimable,
    NotActive,
    Unauthorized,
    MetadataTooLong,
    Validation,
    InvalidExpiry,
    InvalidGracePeriod,
    UpgradeFailed,
    Locked,
    ContractPaused,
}

impl RegistryError {
    /// A human-readable description of the error.
    pub fn message(&self) -> (r: String)
        ensures
            r@ == registry_error_message(*self),
    {
        let s = match self {
            RegistryError::AlreadyRegistered => "name is already registered",
            RegistryError::NotFound => "name was not found",
            RegistryError::NotYetClaimable => "expired name is still in its grace period",
            RegistryError::NotActive => "name is not currently active",
            RegistryError::Unauthorized => "caller is not authorized for this name",
            RegistryError::MetadataTooLong => "metadata uri exceeds the allowed length",
            RegistryError::Validation => "name failed validation",
            RegistryError::InvalidExpiry => "expires_at must be greater than or equal to the current time",
            RegistryError::InvalidGracePeriod => "grace_period_ends_at must be greater than or equal to expires_at",
            RegistryError::UpgradeFailed => "contract upgrade failed",
            RegistryError::Locked => "name is locked for dispute resolution",
            RegistryError::ContractPaused => "registry is paused",
        };
        String::from_str(s)
    }
}

/// The text of each registry error.
pub closed spec fn registry_error_message(e: RegistryError) -> Seq<char> {
    match e {
        RegistryError::AlreadyRegistered => "name is already registered"@,
        RegistryError::NotFound => "name was not found"@,
        RegistryError::NotYetClaimable => "expired name is still in its grace period"@,
        RegistryError::NotActive => "name is not currently active"@,
        RegistryError::Unauthorized => "caller is not authorized for this name"@,
        RegistryError::MetadataTooLong => "metadata uri exceeds the allowed length"@,
        RegistryError::Validation => "name failed validation"@,
        RegistryError::InvalidExpiry => "expires_at must be greater than or equal to the current time"@,
        RegistryError::InvalidGracePeriod => "grace_period_ends_at must be greater than or equal to expires_at"@,
        RegistryError::UpgradeFailed => "contract upgrade failed"@,
        RegistryError::Locked => "name is locked for dispute resolution"@,
        RegistryError::ContractPaused => "registry is paused"@,
    }
}

/// A dispute lock on a name.
pub struct NameLock {
    pub locked_until: u64,
    pub lock_reason: String,
}

/// The names of an owner in an owner index (empty when the owner has none).
pub open spec fn names_of(idx: Map<Seq<char>, Seq<Seq<char>>>, owner: Seq<char>) -> Seq<Seq<char>> {
    if idx.dom().contains(owner) {
        idx[owner]
    } else {
        Seq::empty()
    }
}

/// The owner index after adding a name to an owner's list (kept once).
pub open spec fn idx_add(
    idx: Map<Seq<char>, Seq<Seq<char>>>,
    owner: Seq<char>,
    name: Seq<char>,
) -> Map<Seq<char>, Seq<Seq<char>>> {
    idx.insert(
        owner,
        if names_of(idx, owner).contains(name) {
            names_of(idx, owner)
        } else {
            names_of(idx, owner).push(name)
        },
    )
}

/// The owner index after removing every occurrence of a name from an owner's list.
pub open spec fn idx_remove(
    idx: Map<Seq<char>, Seq<Seq<char>>>,
    owner: Seq<char>,
    name: Seq<char>,
) -> Map<Seq<char>, Seq<Seq<char>>> {
    idx.insert(owner, names_of(idx, owner).filter(other_than(name)))
}

/// What the registry announces to indexers, in the order it happens.
#[derive(Clone, Debug, PartialEq, Eq)]
pub enum RegistryEvent {
    /// The stored version moved forward (topics "contract", "upgraded").
    ContractUpgraded { old_version: u32, new_version: u32, admin: String },
    /// A name's entry was removed (topics "name", "burn").
    Burned { name: String, owner: String },
    /// A name changed owner (topics "name", "transfer").
    Transferred { name: String, old_owner: String, new_owner: String },
    /// A dispute lock was placed (topics "name", "lck_apld").
    LockApplied { name: String, locked_until: u64, lock_reason: String, admin: String },
    /// A dispute lock was lifted early (topics "name", "lck_rmvd").
    LockRemoved { name: String, locked_until: u64, lock_reason: String, admin: String },
    /// Mutations were paused (topics "contract", "paused").
    ContractPaused { admin: String, timestamp: u64 },
    /// Mutations were resumed (topics "contract", "unpaused").
    ContractUnpaused { admin: String, timestamp: u64 },
}

/// A call the registry makes on the NFT contract, when one is configured.
#[derive(Clone, Debug, PartialEq, Eq)]
pub enum NftCall {
    /// Mint the token of a newly registered name.
    Mint { name: String, owner: String, metadata_uri: Option<String>, expires_at: u64 },
    /// Move the token of a transferred name to its new owner.
    SyncOwner { name: String, new_owner: String },
    /// Move the token's expiry after a renewal.
    SyncExpiry { name: String, new_expiry: u64 },
    /// Burn the token of a removed name.
    Burn { name: String },
}

/// The registry contract state.
pub struct RegistryContract {
    entries: StrMap<RegistryEntry>,
    locks: StrMap<NameLock>,
    owner_names: StrMap<StrList>,
    admin: Option<String>,
    dispute_admin: Option<String>,
    nft_contract: Option<String>,
    version: Option<u32>,
    paused: bool,
    events: Vec<RegistryEvent>,
    nft_calls: Vec<NftCall>,
}

impl RegistryContract {
    /// Entries by name.
    pub closed spec fn entries(&self) -> Map<Seq<char>, RegistryEntry> {
        self.entries@
    }

    /// Dispute locks by name.
    pub closed spec fn locks(&self) -> Map<Seq<char>, NameLock> {
        self.locks@
    }

    /// The owner index: for each owner, its names in the order they were added.
    pub closed spec fn owner_index(&self) -> Map<Seq<char>, Seq<Seq<char>>> {
        Map::new(
            |o: Seq<char>| self.owner_names@.dom().contains(o),
            |o: Seq<char>| self.owner_names@[o]@,
        )
    }

    /// The administrator, once initialized.
    pub closed spec fn admin(&self) -> Option<Seq<char>> {
        match self.admin {
            Some(a) => Some(a@),
            None => None,
        }
    }

    /// The dispute administrator, once initialized.
    pub closed spec fn dispute_admin(&self) -> Option<Seq<char>> {
        match self.dispute_admin {
            Some(a) => Some(a@),
            None => None,
        }
    }

    /// The NFT contract allowed to move ownership, if configured.
    pub closed spec fn nft_contract(&self) -> Option<Seq<char>> {
        match self.nft_contract {
            Some(a) => Some(a@),
            None => None,
        }
    }

    /// The stored contract version, if any.
    pub closed spec fn stored_version(&self) -> Option<u32> {
        self.version
    }

    /// Whether mutations are paused.
    pub closed spec fn is_paused_spec(&self) -> bool {
        self.paused
    }

    /// Every event announced so far, oldest first.
    pub closed spec fn event_log(&self) -> Seq<RegistryEvent> {
        self.events@
    }

    /// Every call made on the NFT contract so far, oldest first.
    pub closed spec fn nft_call_log(&self) -> Seq<NftCall> {
        self.nft_calls@
    }

    /// A call log with one more call on the NFT contract, made only when one is configured.
    pub open spec fn nft_logged(&self, log: Seq<NftCall>, call: NftCall) -> Seq<NftCall> {
        if self.nft_contract() is Some {
            log.push(call)
        } else {
            log
        }
    }

    /// The administrator's account (meaningful once initialized).
    pub closed spec fn admin_account(&self) -> String {
        self.admin.unwrap()
    }

    /// The dispute administrator's account (meaningful once initialized).
    pub closed spec fn dispute_admin_account(&self) -> String {
        self.dispute_admin.unwrap()
    }

    /// Every name in the owner index belongs to that owner, and every entry is
    /// listed under its owner.
    pub open spec fn index_consistent(&self) -> bool {
        &&& forall|o: Seq<char>, i: int|
            0 <= i < names_of(self.owner_index(), o).len() ==> self.entries().dom().contains(
                #[trigger] names_of(self.owner_index(), o)[i],
            ) && self.entries()[names_of(self.owner_index(), o)[i]].owner@ == o
        &&& forall|n: Seq<char>|
            #[trigger] self.entries().dom().contains(n) ==> names_of(
                self.owner_index(),
                self.entries()[n].owner@,
            ).contains(n)
    }

    /// Whether a dispute lock blocks changes to the name at `now`.
    pub open spec fn lock_blocks(&self, name: Seq<char>, now: int) -> bool {
        self.locks().dom().contains(name) && self.locks()[name].locked_until >= now
    }

    /// The locks after an expired lock on the name is cleared.
    pub open spec fn locks_after_unlock(&self, name: Seq<char>, now: int) -> Map<Seq<char>, NameLock> {
        if self.locks().dom().contains(name) && !self.lock_blocks(name, now) {
            self.locks().remove(name)
        } else {
            self.locks()
        }
    }

    /// The version reported by `get_version`.
    pub open spec fn current_version(&self) -> u32 {
        match self.stored_version() {
            Some(v) => v,
            None => CONTRACT_VERSION,
        }
    }

    /// The same configuration and flags (everything but entries, locks and index).
    pub open spec fn same_config(&self, other: &Self) -> bool {
        &&& self.admin() == other.admin()
        &&& self.dispute_admin() == other.dispute_admin()
        &&& self.nft_contract() == other.nft_contract()
        &&& self.stored_version() == other.stored_version()
        &&& self.is_paused_spec() == other.is_paused_spec()
        &&& self.admin_account() == other.admin_account()
        &&& self.dispute_admin_account() == other.dispute_admin_account()
    }

    /// The registry `after` a successful `register` of `name` to `owner`: the new entry
    /// (no resolver, default TTL, no transfers), the owner index moved from any previous
    /// owner, the name's expired lock dropped, the configuration kept, the NFT contract
    /// told to burn any previous token and mint the new one, and a previous entry's
    /// removal announced.
    pub open spec fn registered(
        &self,
        after: &Self,
        name: String,
        owner: String,
        target_address: Option<String>,
        metadata_uri: Option<String>,
        now_unix: u64,
        expires_at: u64,
        grace_period_ends_at: u64,
    ) -> bool {
        &&& after.entries() == self.entries().insert(
            name@,
            RegistryEntry {
                name: name,
                owner: owner,
                resolver: None,
                target_address: target_address,
                metadata_uri: metadata_uri,
                ttl_seconds: DEFAULT_TTL_SECONDS,
                registered_at: now_unix,
                expires_at: expires_at,
                grace_period_ends_at: grace_period_ends_at,
                transfer_count: 0,
            },
        )
        &&& after.owner_index() == if self.entries().dom().contains(name@) {
            idx_add(
                idx_remove(
                    self.owner_index(),
                    self.entries()[name@].owner@,
                    name@,
                ),
                owner@,
                name@,
            )
        } else {
            idx_add(self.owner_index(), owner@, name@)
        }
        &&& after.locks() == self.locks_after_unlock(name@, now_unix as int)
        &&& after.same_config(&*self)
        &&& after.nft_call_log() == self.nft_logged(
            if self.entries().dom().contains(name@) {
                self.nft_logged(self.nft_call_log(), NftCall::Burn { name: name })
            } else {
                self.nft_call_log()
            },
            NftCall::Mint { name: name, owner: owner, metadata_uri: metadata_uri, expires_at: expires_at },
        )
        &&& after.event_log() == if self.entries().dom().contains(name@) {
            self.event_log().push(
                RegistryEvent::Burned { name: name, owner: self.entries()[name@].owner },
            )
        } else {
            self.event_log()
        }
    }

    /// The registry `after` a successful `renew` of `name`: the new expiry and grace end,
    /// the index and configuration kept, the name's expired lock dropped, and the NFT
    /// contract told of the new expiry.
    pub open spec fn renewed(
        &self,
        after: &Self,
        name: String,
        expires_at: u64,
        grace_period_ends_at: u64,
        now_unix: u64,
    ) -> bool {
        &&& after.entries() == self.entries().insert(
            name@,
            RegistryEntry {
                expires_at: expires_at,
                grace_period_ends_at: grace_period_ends_at,
                ..self.entries()[name@]
            },
        )
        &&& after.owner_index() == self.owner_index()
        &&& after.locks() == self.locks_after_unlock(name@, now_unix as int)
        &&& after.same_config(&*self)
        &&& after.nft_call_log() == self.nft_logged(
            self.nft_call_log(),
            NftCall::SyncExpiry { name: name, new_expiry: expires_at },
        )
        &&& after.event_log() == self.event_log()
    }

    /// A registry with no entries and no configuration.
    pub fn new() -> (r: Self)
        ensures
            r.entries() == Map::<Seq<char>, RegistryEntry>::empty(),
            r.locks() == Map::<Seq<char>, NameLock>::empty(),
            r.owner_index() == Map::<Seq<char>, Seq<Seq<char>>>::empty(),
            r.admin() is None,
            r.dispute_admin() is None,
            r.nft_contract() is None,
            r.stored_version() is None,
            !r.is_paused_spec(),
            r.event_log() == Seq::<RegistryEvent>::empty(),
            r.nft_call_log() == Seq::<NftCall>::empty(),
            r.index_consistent(),
    {
        let r = RegistryContract {
            entries: StrMap::new(),
            locks: StrMap::new(),
            owner_names: StrMap::new(),
            admin: None,
            dispute_admin: None,
            nft_contract: None,
            version: None,
            paused: false,
            events: Vec::new(),
            nft_calls: Vec::new(),
        };
        assert(r.owner_index() =~= Map::<Seq<char>, Seq<Seq<char>>>::empty());
        r
    }

    /// Sets the admin (who is also the first dispute admin) once.
    pub fn initialize(&mut self, admin: String) -> (r: Result<(), RegistryError>)
        ensures
            old(self).admin() is Some ==> r == Err::<(), RegistryError>(
                RegistryError::Unauthorized,
            ) && *final(self) == *old(self),
            old(self).admin() is None ==> r is Ok && final(self).admin() == Some(admin@)
                && final(self).dispute_admin() == Some(admin@) && final(self).stored_version()
                == Some(CONTRACT_VERSION) && final(self).entries() == old(self).entries()
                && final(self).locks() == old(self).locks() && final(self).owner_index() == old(self).owner_index() && final(self).nft_contract() == old(self).nft_contract()
                && final(self).is_paused_spec() == old(self).is_paused_spec()
                && final(self).nft_call_log() == old(self).nft_call_log()
                && final(self).event_log() == old(self).event_log(),
    {
        if self.admin.is_some() {
            return Err(RegistryError::Unauthorized);
        }
        self.dispute_admin = Some(admin.clone());
        self.admin = Some(admin);
        self.version = Some(CONTRACT_VERSION);
        Ok(())
    }

    /// The version this code implements.
    pub fn version(&self) -> (r: u32)
        ensures
            r == CONTRACT_VERSION,
    {
        CONTRACT_VERSION
    }

    /// The stored version, or the code version when none is stored.
    pub fn get_version(&self) -> (r: u32)
        ensures
            r == self.current_version(),
    {
        match self.version {
            Some(v) => v,
            None => CONTRACT_VERSION,
        }
    }

    /// Configures the NFT contract (admin only).
    pub fn set_nft_contract(&mut self, nft_contract: String) -> (r: Result<(), RegistryError>)
        ensures
            old(self).admin() is None ==> r == Err::<(), RegistryError>(RegistryError::Unauthorized)
                && *final(self) == *old(self),
            old(self).admin() is Some ==> r is Ok && final(self).nft_contract() == Some(
                nft_contract@,
            ) && final(self).entries() == old(self).entries() && final(self).locks() == old(self).locks() && final(self).owner_index() == old(self).owner_index() && final(self).admin() == old(self).admin() && final(self).dispute_admin() == old(self).dispute_admin() && final(self).stored_version() == old(self).stored_version()
                && final(self).is_paused_spec() == old(self).is_paused_spec()
                && final(self).nft_call_log() == old(self).nft_call_log()
                && final(self).event_log() == old(self).event_log(),
    {
        if self.admin.is_none() {
            return Err(RegistryError::Unauthorized);
        }
        self.nft_contract = Some(nft_contract);
        Ok(())
    }

    /// Replaces the dispute admin (admin only).
    pub fn set_dispute_admin(&mut self, dispute_admin: String) -> (r: Result<(), RegistryError>)
        ensures
            old(self).admin() is None ==> r == Err::<(), RegistryError>(RegistryError::Unauthorized)
                && *final(self) == *old(self),
            old(self).admin() is Some ==> r is Ok && final(self).dispute_admin() == Some(
                dispute_admin@,
            ) && final(self).entries() == old(self).entries() && final(self).locks() == old(self).locks() && final(self).owner_index() == old(self).owner_index() && final(self).admin() == old(self).admin() && final(self).nft_contract() == old(self).nft_contract() && final(self).stored_version() == old(self).stored_version()
                && final(self).is_paused_spec() == old(self).is_paused_spec()
                && final(self).nft_call_log() == old(self).nft_call_log()
                && final(self).event_log() == old(self).event_log(),
    {
        if self.admin.is_none() {
            return Err(RegistryError::Unauthorized);
        }
        self.dispute_admin = Some(dispute_admin);
        Ok(())
    }

    /// Records a code upgrade (admin only): the stored version becomes the target
    /// version read from the migration data.
    pub fn upgrade(&mut self, migration_data: &Vec<u8>) -> (r: Result<(), RegistryError>)
        ensures
            old(self).admin() is None ==> r == Err::<(), RegistryError>(RegistryError::UpgradeFailed)
                && *final(self) == *old(self),
            old(self).admin() is Some ==> r is Ok && final(self).stored_version() == Some(
                spec_target_version(migration_data@),
            ) && final(self).entries() == old(self).entries() && final(self).locks() == old(self).locks() && final(self).owner_index() == old(self).owner_index() && final(self).admin() == old(self).admin() && final(self).dispute_admin() == old(self).dispute_admin() && final(self).nft_contract() == old(self).nft_contract()
                && final(self).is_paused_spec() == old(self).is_paused_spec()
                && final(self).nft_call_log() == old(self).nft_call_log()
                && final(self).event_log() == old(self).event_log().push(
                RegistryEvent::ContractUpgraded {
                    old_version: old(self).current_version(),
                    new_version: spec_target_version(migration_data@),
                    admin: old(self).admin_account(),
                },
            ),
    {
        if self.admin.is_none() {
            return Err(RegistryError::UpgradeFailed);
        }
        let target = decode_target_version(migration_data);
        let old_version = self.get_version();
        let admin = self.admin.clone().unwrap();
        self.version = Some(target);
        self.events.push(RegistryEvent::ContractUpgraded { old_version, new_version: target, admin });
        Ok(())
    }

    /// Stops all mutations of names (admin only).
    pub fn pause(&mut self, now_unix: u64) -> (r: Result<(), RegistryError>)
        ensures
            old(self).admin() is None ==> r == Err::<(), RegistryError>(RegistryError::Unauthorized)
                && *final(self) == *old(self),
            old(self).admin() is Some ==> r is Ok && final(self).is_paused_spec()
                && final(self).entries() == old(self).entries() && final(self).locks() == old(self).locks() && final(self).owner_index() == old(self).owner_index() && final(self).admin() == old(self).admin() && final(self).dispute_admin() == old(self).dispute_admin() && final(self).nft_contract() == old(self).nft_contract()
                && final(self).stored_version() == old(self).stored_version()
                && final(self).nft_call_log() == old(self).nft_call_log()
                && final(self).event_log() == old(self).event_log().push(
                RegistryEvent::ContractPaused { admin: old(self).admin_account(), timestamp: now_unix },
            ),
    {
        if self.admin.is_none() {
            return Err(RegistryError::Unauthorized);
        }
        self.paused = true;
        let admin = self.admin.clone().unwrap();
        self.events.push(RegistryEvent::ContractPaused { admin, timestamp: now_unix });
        Ok(())
    }

    /// Resumes mutations (admin only).
    pub fn unpause(&mut self, now_unix: u64) -> (r: Result<(), RegistryError>)
        ensures
            old(self).admin() is None ==> r == Err::<(), RegistryError>(RegistryError::Unauthorized)
                && *final(self) == *old(self),
            old(self).admin() is Some ==> r is Ok && !final(self).is_paused_spec()
                && final(self).entries() == old(self).entries() && final(self).locks() == old(self).locks() && final(self).owner_index() == old(self).owner_index() && final(self).admin() == old(self).admin() && final(self).dispute_admin() == old(self).dispute_admin() && final(self).nft_contract() == old(self).nft_contract()
                && final(self).stored_version() == old(self).stored_version()
                && final(self).nft_call_log() == old(self).nft_call_log()
                && final(self).event_log() == old(self).event_log().push(
                RegistryEvent::ContractUnpaused { admin: old(self).admin_account(), timestamp: now_unix },
            ),
    {
        if self.admin.is_none() {
            return Err(RegistryError::Unauthorized);
        }
        self.paused = false;
        let admin = self.admin.clone().unwrap();
        self.events.push(RegistryEvent::ContractUnpaused { admin, timestamp: now_unix });
        Ok(())
    }

    /// Whether mutations are paused.
    pub fn is_paused(&self) -> (r: bool)
        ensures
            r == self.is_paused_spec(),
    {
        self.paused
    }

    /// Every event announced so far, oldest first.
    pub fn events(&self) -> (r: &Vec<RegistryEvent>)
        ensures
            r@ == self.event_log(),
    {
        &self.events
    }

    /// The calls made on the NFT contract, oldest first.
    pub fn nft_calls(&self) -> (r: &Vec<NftCall>)
        ensures
            r@ == self.nft_call_log(),
    {
        &self.nft_calls
    }

    fn log_nft_call(&mut self, call: NftCall)
        ensures
            final(self).nft_call_log() == old(self).nft_logged(old(self).nft_call_log(), call),
            final(self).entries() == old(self).entries(),
            final(self).locks() == old(self).locks(),
            final(self).owner_index() == old(self).owner_index(),
            final(self).same_config(&*old(self)),
            final(self).event_log() == old(self).event_log(),
    {
        if self.nft_contract.is_some() {
            self.nft_calls.push(call);
        }
    }

    /// Admin recovery is not supported: names leave an owner only through expiry.
    pub fn supports_admin_recovery(&self) -> (r: bool)
        ensures
            r == ADMIN_RECOVERY_SUPPORTED,
    {
        ADMIN_RECOVERY_SUPPORTED
    }

    /// Version of the storage layout.
    pub fn storage_schema_version(&self) -> (r: u32)
        ensures
            r == STORAGE_SCHEMA_VERSION,
    {
        STORAGE_SCHEMA_VERSION
    }

    // ---------------------------------------------------------------
    // Index maintenance
    // ---------------------------------------------------------------

    fn add_owner_name(&mut self, owner: &String, name: &String)
        ensures
            final(self).owner_index() == idx_add(old(self).owner_index(), owner@, name@),
            final(self).entries() == old(self).entries(),
            final(self).locks() == old(self).locks(),
            final(self).same_config(&*old(self)),
            final(self).nft_call_log() == old(self).nft_call_log(),
            final(self).event_log() == old(self).event_log(),
    {
        let ghost old_idx = self.owner_index();
        let mut list = match self.owner_names.remove(owner) {
            Some(l) => l,
            None => StrList::new(),
        };
        assert(list@ == names_of(old_idx, owner@));
        list.push_unique(name.clone());
        self.owner_names.insert(owner.clone(), list);
        assert(self.owner_index() =~= idx_add(old_idx, owner@, name@));
    }

    fn remove_owner_name(&mut self, owner: &String, name: &String)
        ensures
            final(self).owner_index() == idx_remove(old(self).owner_index(), owner@, name@),
            final(self).entries() == old(self).entries(),
            final(self).locks() == old(self).locks(),
            final(self).same_config(&*old(self)),
            final(self).nft_call_log() == old(self).nft_call_log(),
            final(self).event_log() == old(self).event_log(),
    {
        let ghost old_idx = self.owner_index();
        let mut list = match self.owner_names.remove(owner) {
            Some(l) => l,
            None => StrList::new(),
        };
        assert(list@ == names_of(old_idx, owner@));
        list.remove_all(name);
        self.owner_names.insert(owner.clone(), list);
        assert(self.owner_index() =~= idx_remove(old_idx, owner@, name@));
    }

    /// Clears an expired lock on the name, or reports that a live lock blocks it.
    fn ensure_name_unlocked(&mut self, name: &String, now_unix: u64) -> (r: Result<(), RegistryError>)
        ensures
            old(self).lock_blocks(name@, now_unix as int) ==> r == Err::<(), RegistryError>(
                RegistryError::Locked,
            ) && *final(self) == *old(self),
            !old(self).lock_blocks(name@, now_unix as int) ==> r is Ok && final(self).locks()
                == old(self).locks_after_unlock(name@, now_unix as int),
            final(self).entries() == old(self).entries(),
            final(self).owner_index() == old(self).owner_index(),
            final(self).same_config(&*old(self)),
            final(self).nft_call_log() == old(self).nft_call_log(),
            final(self).event_log() == old(self).event_log(),
    {
        let blocked = match self.locks.get(name) {
            Some(lock) => lock.locked_until >= now_unix,
            None => false,
        };
        if blocked {
            return Err(RegistryError::Locked);
        }
        if self.locks.contains_key(name) {
            let _ = self.locks.remove(name);
        }
        Ok(())
    }

    fn check_unlocked(&self, name: &String, now_unix: u64) -> (r: bool)
        ensures
            r == !self.lock_blocks(name@, now_unix as int),
    {
        match self.locks.get(name) {
            Some(lock) => lock.locked_until < now_unix,
            None => true,
        }
    }

    // ---------------------------------------------------------------
    // Registration and lifecycle
    // ---------------------------------------------------------------

    /// The outcome of `register` before any change is made.
    pub open spec fn register_check(
        &self,
        name: Seq<char>,
        metadata_uri: Option<String>,
        now: int,
        expires_at: int,
        grace_period_ends_at: int,
    ) -> Result<(), RegistryError> {
        if self.is_paused_spec() {
            Err(RegistryError::ContractPaused)
        } else if !valid_fqdn(name) {
            Err(RegistryError::Validation)
        } else if self.lock_blocks(name, now) {
            Err(RegistryError::Locked)
        } else if metadata_too_long(metadata_uri) {
            Err(RegistryError::MetadataTooLong)
        } else if !spec_is_active_at(expires_at, now) {
            Err(RegistryError::InvalidExpiry)
        } else if grace_period_ends_at < expires_at {
            Err(RegistryError::InvalidGracePeriod)
        } else if self.entries().dom().contains(name) && self.entries()[name].spec_is_active_at(
            now,
        ) {
            Err(RegistryError::AlreadyRegistered)
        } else if self.entries().dom().contains(name) && !self.entries()[name].spec_is_claimable_at(
            now,
        ) {
            Err(RegistryError::NotYetClaimable)
        } else {
            Ok(())
        }
    }

    /// Registers a name to an owner with the given lifecycle, replacing a claimable
    /// earlier registration.
    pub fn register(
        &mut self,
        name: String,
        owner: String,
        target_address: Option<String>,
        metadata_uri: Option<String>,
        now_unix: u64,
        expires_at: u64,
        grace_period_ends_at: u64,
    ) -> (r: Result<(), RegistryError>)
        ensures
            r == old(self).register_check(
                name@,
                metadata_uri,
                now_unix as int,
                expires_at as int,
                grace_period_ends_at as int,
            ),
            r is Err ==> *final(self) == *old(self),
            r is Ok ==> old(self).registered(
                &*final(self),
                name,
                owner,
                target_address,
                metadata_uri,
                now_unix,
                expires_at,
                grace_period_ends_at,
            ),
            old(self).index_consistent() ==> final(self).index_consistent(),
    {
        if self.paused {
            return Err(RegistryError::ContractPaused);
        }
        if !validate_fqdn(&name) {
            return Err(RegistryError::Validation);
        }
        if !self.check_unlocked(&name, now_unix) {
            return Err(RegistryError::Locked);
        }
        if check_metadata_too_long(&metadata_uri) {
            return Err(RegistryError::MetadataTooLong);
        }
        if !is_active_at(expires_at, now_unix) {
            return Err(RegistryError::InvalidExpiry);
        }
        if grace_period_ends_at < expires_at {
            return Err(RegistryError::InvalidGracePeriod);
        }
        let previous_owner: Option<String> = match self.entries.get(&name) {
            Some(existing) => {
                if existing.is_active_at(now_unix) {
                    return Err(RegistryError::AlreadyRegistered);
                }
                if !existing.is_claimable_at(now_unix) {
                    return Err(RegistryError::NotYetClaimable);
                }
                Some(existing.owner.clone())
            },
            None => None,
        };
        let ghost s0 = *self;
        let _ = self.ensure_name_unlocked(&name, now_unix);
        let ghost s1 = *self;
        match &previous_owner {
            Some(prev) => {
                self.remove_owner_name(prev, &name);
                let _ = self.entries.remove(&name);
                self.log_nft_call(NftCall::Burn { name: name.clone() });
                self.events.push(RegistryEvent::Burned { name: name.clone(), owner: prev.clone() });
            },
            None => {},
        }
        let ghost s2 = *self;
        self.add_owner_name(&owner, &name);
        let ghost s3 = *self;
        let key = name.clone();
        let mint = NftCall::Mint {
            name: name.clone(),
            owner: owner.clone(),
            metadata_uri: copy_opt_string(&metadata_uri),
            expires_at,
        };
        let entry = RegistryEntry {
            name,
            owner,
            resolver: None,
            target_address,
            metadata_uri,
            ttl_seconds: DEFAULT_TTL_SECONDS,
            registered_at: now_unix,
            expires_at,
            grace_period_ends_at,
            transfer_count: 0,
        };
        self.entries.insert(key, entry);
        self.log_nft_call(mint);
        proof {
            if s0.entries().dom().contains(entry.name@) {
                assert(s2.entries() =~= s0.entries().remove(entry.name@));
            }
            assert(self.entries() =~= s0.entries().insert(entry.name@, entry));
            if s0.index_consistent() {
                lemma_register_keeps_index(s0, *self, entry.name@, entry.owner@);
            }
        }
        Ok(())
    }

    /// Whether the name's entry names a resolver.
    pub(crate) fn names_resolver(&self, name: &String) -> (r: bool)
        ensures
            r == (self.entries().dom().contains(name@) && self.entries()[name@].resolver is Some),
    {
        match self.entries.get(name) {
            Some(entry) => entry.resolver.is_some(),
            None => false,
        }
    }

    /// The outcome of `resolve`.
    pub open spec fn spec_resolve(&self, name: Seq<char>, now: int) -> Result<RegistryEntry, RegistryError> {
        if !valid_fqdn(name) {
            Err(RegistryError::Validation)
        } else if !self.entries().dom().contains(name) {
            Err(RegistryError::NotFound)
        } else if !self.entries()[name].spec_is_active_at(now) {
            Err(RegistryError::NotActive)
        } else {
            Ok(self.entries()[name])
        }
    }

    /// The entry of an active name.
    pub fn resolve(&self, name: &String, now_unix: u64) -> (r: Result<RegistryEntry, RegistryError>)
        ensures
            r == self.spec_resolve(name@, now_unix as int),
    {
        if !validate_fqdn(name) {
            return Err(RegistryError::Validation);
        }
        match self.entries.get(name) {
            None => Err(RegistryError::NotFound),
            Some(entry) => {
                if !entry.is_active_at(now_unix) {
                    Err(RegistryError::NotActive)
                } else {
                    Ok(entry.copy())
                }
            },
        }
    }

    /// The lifecycle state of a name at `now`.
    pub open spec fn spec_name_state(&self, name: Seq<char>, now: int) -> NameState {
        if !self.entries().dom().contains(name) {
            NameState::Missing
        } else if self.entries()[name].spec_is_active_at(now) {
            NameState::Active
        } else if self.entries()[name].spec_is_claimable_at(now) {
            NameState::Claimable
        } else {
            NameState::GracePeriod
        }
    }

    /// The lifecycle state of a name: missing, active, in its grace period, or claimable.
    pub fn name_state(&self, name: &String, now_unix: u64) -> (r: NameState)
        ensures
            r == self.spec_name_state(name@, now_unix as int),
    {
        match self.entries.get(name) {
            None => NameState::Missing,
            Some(entry) => {
                if entry.is_active_at(now_unix) {
                    NameState::Active
                } else if entry.is_claimable_at(now_unix) {
                    NameState::Claimable
                } else {
                    NameState::GracePeriod
                }
            },
        }
    }

    /// Whether the caller may act as owner of the name at `now`.
    pub open spec fn owner_check(&self, name: Seq<char>, caller: Seq<char>, now: int) -> Result<
        (),
        RegistryError,
    > {
        if !self.entries().dom().contains(name) {
            Err(RegistryError::NotFound)
        } else if !self.entries()[name].spec_is_active_at(now) {
            Err(RegistryError::NotActive)
        } else if self.entries()[name].owner@ != caller {
            Err(RegistryError::Unauthorized)
        } else {
            Ok(())
        }
    }

    /// Checks that the caller owns the name and that the name is active.
    pub fn check_owner(&self, name: &String, caller: &String, now_unix: u64) -> (r: Result<
        (),
        RegistryError,
    >)
        ensures
            r == self.owner_check(name@, caller@, now_unix as int),
    {
        match self.entries.get(name) {
            None => Err(RegistryError::NotFound),
            Some(entry) => {
                if !entry.is_active_at(now_unix) {
                    Err(RegistryError::NotActive)
                } else if !same_str(&entry.owner, caller) {
                    Err(RegistryError::Unauthorized)
                } else {
                    Ok(())
                }
            },
        }
    }

    /// The outcome of an owner-only mutation before any change is made.
    pub open spec fn owner_mutation_check(&self, name: Seq<char>, caller: Seq<char>, now: int) -> Result<
        (),
        RegistryError,
    > {
        if self.is_paused_spec() {
            Err(RegistryError::ContractPaused)
        } else if self.lock_blocks(name, now) {
            Err(RegistryError::Locked)
        } else {
            self.owner_check(name, caller, now)
        }
    }

    fn owner_mutation_allowed(&self, name: &String, caller: &String, now_unix: u64) -> (r: Result<
        (),
        RegistryError,
    >)
        ensures
            r == self.owner_mutation_check(name@, caller@, now_unix as int),
    {
        if self.paused {
            return Err(RegistryError::ContractPaused);
        }
        if !self.check_unlocked(name, now_unix) {
            return Err(RegistryError::Locked);
        }
        self.check_owner(name, caller, now_unix)
    }

    /// Moves an active name from its owner (the caller) to a new owner.
    pub fn transfer(&mut self, name: &String, caller: &String, new_owner: String, now_unix: u64) -> (r:
        Result<(), RegistryError>)
        ensures
            r == old(self).owner_mutation_check(name@, caller@, now_unix as int),
            r is Err ==> *final(self) == *old(self),
            r is Ok ==> {
                let e = old(self).entries()[name@];
                &&& final(self).entries() == old(self).entries().insert(
                    name@,
                    RegistryEntry {
                        owner: new_owner,
                        transfer_count: (if e.transfer_count == u32::MAX {
                            u32::MAX
                        } else {
                            (e.transfer_count + 1) as u32
                        }),
                        ..e
                    },
                )
                &&& final(self).owner_index() == idx_add(
                    idx_remove(old(self).owner_index(), e.owner@, name@),
                    new_owner@,
                    name@,
                )
                &&& final(self).locks() == old(self).locks_after_unlock(name@, now_unix as int)
                &&& final(self).same_config(&*old(self))
                &&& final(self).nft_call_log() == old(self).nft_logged(
                    old(self).nft_call_log(),
                    NftCall::SyncOwner { name: *name, new_owner: new_owner },
                )
                &&& final(self).event_log() == old(self).event_log().push(
                    RegistryEvent::Transferred { name: *name, old_owner: e.owner, new_owner: new_owner },
                )
            },
            old(self).index_consistent() ==> final(self).index_consistent(),
    {
        let ok = self.owner_mutation_allowed(name, caller, now_unix);
        if ok.is_err() {
            return ok;
        }
        let ghost s0 = *self;
        let _ = self.ensure_name_unlocked(name, now_unix);
        let mut entry = self.entries.remove(name).unwrap();
        let old_owner = entry.owner.clone();
        entry.owner = new_owner;
        entry.transfer_count = if entry.transfer_count == u32::MAX {
            u32::MAX
        } else {
            entry.transfer_count + 1
        };
        let ghost new_owner_view = entry.owner@;
        let ghost new_entry = entry;
        self.remove_owner_name(&old_owner, name);
        self.add_owner_name(&entry.owner.clone(), name);
        let new_owner = entry.owner.clone();
        self.entries.insert(name.clone(), entry);
        proof {
            assert(self.entries() =~= s0.entries().insert(name@, new_entry));
            if s0.index_consistent() {
                lemma_move_keeps_index(s0, *self, name@, new_owner_view);
            }
        }
        let sync = NftCall::SyncOwner { name: name.clone(), new_owner: new_owner.clone() };
        self.events.push(RegistryEvent::Transferred { name: name.clone(), old_owner, new_owner });
        self.log_nft_call(sync);
        Ok(())
    }

    /// Points the name at a resolver contract (owner only).
    pub fn set_resolver(&mut self, name: &String, caller: &String, resolver: Option<String>, now_unix: u64) -> (r:
        Result<(), RegistryError>)
        ensures
            r == old(self).owner_mutation_check(name@, caller@, now_unix as int),
            r is Err ==> *final(self) == *old(self),
            r is Ok ==> {
                &&& final(self).entries() == old(self).entries().insert(
                    name@,
                    RegistryEntry { resolver: resolver, ..old(self).entries()[name@] },
                )
                &&& final(self).owner_index() == old(self).owner_index()
                &&& final(self).locks() == old(self).locks_after_unlock(name@, now_unix as int)
                &&& final(self).same_config(&*old(self))
                &&& final(self).nft_call_log() == old(self).nft_call_log()
                &&& final(self).event_log() == old(self).event_log()
            },
            old(self).index_consistent() ==> final(self).index_consistent(),
    {
        let ok = self.owner_mutation_allowed(name, caller, now_unix);
        if ok.is_err() {
            return ok;
        }
        let ghost s0 = *self;
        let _ = self.ensure_name_unlocked(name, now_unix);
        let mut entry = self.entries.remove(name).unwrap();
        entry.resolver = resolver;
        let ghost new_entry = entry;
        self.entries.insert(name.clone(), entry);
        proof {
            assert(self.entries() =~= s0.entries().insert(name@, new_entry));
            if s0.index_consistent() {
                lemma_same_owner_keeps_index(s0, *self, name@);
            }
        }
        Ok(())
    }

    /// Sets the name's target address (owner only).
    pub fn set_target_address(
        &mut self,
        name: &String,
        caller: &String,
        target_address: Option<String>,
        now_unix: u64,
    ) -> (r: Result<(), RegistryError>)
        ensures
            r == old(self).owner_mutation_check(name@, caller@, now_unix as int),
            r is Err ==> *final(self) == *old(self),
            r is Ok ==> {
                &&& final(self).entries() == old(self).entries().insert(
                    name@,
                    RegistryEntry { target_address: target_address, ..old(self).entries()[name@] },
                )
                &&& final(self).owner_index() == old(self).owner_index()
                &&& final(self).locks() == old(self).locks_after_unlock(name@, now_unix as int)
                &&& final(self).same_config(&*old(self))
                &&& final(self).nft_call_log() == old(self).nft_call_log()
                &&& final(self).event_log() == old(self).event_log()
            },
            old(self).index_consistent() ==> final(self).index_consistent(),
    {
        let ok = self.owner_mutation_allowed(name, caller, now_unix);
        if ok.is_err() {
            return ok;
        }
        let ghost s0 = *self;
        let _ = self.ensure_name_unlocked(name, now_unix);
        let mut entry = self.entries.remove(name).unwrap();
        entry.target_address = target_address;
        let ghost new_entry = entry;
        self.entries.insert(name.clone(), entry);
        proof {
            assert(self.entries() =~= s0.entries().insert(name@, new_entry));
            if s0.index_consistent() {
                lemma_same_owner_keeps_index(s0, *self, name@);
            }
        }
        Ok(())
    }

    /// The outcome of `set_metadata` before any change is made.
    pub open spec fn set_metadata_check(
        &self,
        name: Seq<char>,
        caller: Seq<char>,
        metadata_uri: Option<String>,
        now: int,
    ) -> Result<(), RegistryError> {
        if self.is_paused_spec() {
            Err(RegistryError::ContractPaused)
        } else if self.lock_blocks(name, now) {
            Err(RegistryError::Locked)
        } else if metadata_too_long(metadata_uri) {
            Err(RegistryError::MetadataTooLong)
        } else {
            self.owner_check(name, caller, now)
        }
    }

    /// Sets the name's metadata URI (owner only).
    pub fn set_metadata(
        &mut self,
        name: &String,
        caller: &String,
        metadata_uri: Option<String>,
        now_unix: u64,
    ) -> (r: Result<(), RegistryError>)
        ensures
            r == old(self).set_metadata_check(name@, caller@, metadata_uri, now_unix as int),
            r is Err ==> *final(self) == *old(self),
            r is Ok ==> {
                &&& final(self).entries() == old(self).entries().insert(
                    name@,
                    RegistryEntry { metadata_uri: metadata_uri, ..old(self).entries()[name@] },
                )
                &&& final(self).owner_index() == old(self).owner_index()
                &&& final(self).locks() == old(self).locks_after_unlock(name@, now_unix as int)
                &&& final(self).same_config(&*old(self))
                &&& final(self).nft_call_log() == old(self).nft_call_log()
                &&& final(self).event_log() == old(self).event_log()
            },
            old(self).index_consistent() ==> final(self).index_consistent(),
    {
        if self.paused {
            return Err(RegistryError::ContractPaused);
        }
        if !self.check_unlocked(name, now_unix) {
            return Err(RegistryError::Locked);
        }
        if check_metadata_too_long(&metadata_uri) {
            return Err(RegistryError::MetadataTooLong);
        }
        let ok = self.check_owner(name, caller, now_unix);
        if ok.is_err() {
            return ok;
        }
        let ghost s0 = *self;
        let _ = self.ensure_name_unlocked(name, now_unix);
        let mut entry = self.entries.remove(name).unwrap();
        entry.metadata_uri = metadata_uri;
        let ghost new_entry = entry;
        self.entries.insert(name.clone(), entry);
        proof {
            assert(self.entries() =~= s0.entries().insert(name@, new_entry));
            if s0.index_consistent() {
                lemma_same_owner_keeps_index(s0, *self, name@);
            }
        }
        Ok(())
    }

    /// The outcome of `update_owner` before any change is made.
    pub open spec fn update_owner_check(&self, name: Seq<char>, caller: Seq<char>, now: int) -> Result<
        (),
        RegistryError,
    > {
        if self.is_paused_spec() {
            Err(RegistryError::ContractPaused)
        } else if self.nft_contract() is None {
            Err(RegistryError::Unauthorized)
        } else if self.nft_contract() != Some(caller) {
            Err(RegistryError::Unauthorized)
        } else if !self.entries().dom().contains(name) {
            Err(RegistryError::NotFound)
        } else if self.lock_blocks(name, now) {
            Err(RegistryError::Locked)
        } else if !self.entries()[name].spec_is_active_at(now) {
            Err(RegistryError::NotActive)
        } else {
            Ok(())
        }
    }

    /// Moves an active name to a new owner on behalf of the configured NFT contract;
    /// `now_unix` is the ledger time.
    pub fn update_owner(&mut self, name: &String, caller: &String, new_owner: String, now_unix: u64) -> (r:
        Result<(), RegistryError>)
        ensures
            r == old(self).update_owner_check(name@, caller@, now_unix as int),
            r is Err ==> *final(self) == *old(self),
            r is Ok ==> {
                let e = old(self).entries()[name@];
                &&& final(self).entries() == old(self).entries().insert(
                    name@,
                    RegistryEntry {
                        owner: new_owner,
                        transfer_count: (if e.transfer_count == u32::MAX {
                            u32::MAX
                        } else {
                            (e.transfer_count + 1) as u32
                        }),
                        ..e
                    },
                )
                &&& final(self).owner_index() == idx_add(
                    idx_remove(old(self).owner_index(), e.owner@, name@),
                    new_owner@,
                    name@,
                )
                &&& final(self).locks() == old(self).locks_after_unlock(name@, now_unix as int)
                &&& final(self).same_config(&*old(self))
                &&& final(self).nft_call_log() == old(self).nft_call_log()
                &&& final(self).event_log() == old(self).event_log().push(
                    RegistryEvent::Transferred { name: *name, old_owner: e.owner, new_owner: new_owner },
                )
            },
            old(self).index_consistent() ==> final(self).index_consistent(),
    {
        if self.paused {
            return Err(RegistryError::ContractPaused);
        }
        match &self.nft_contract {
            None => {
                return Err(RegistryError::Unauthorized);
            },
            Some(nft) => {
                if !same_str(nft, caller) {
                    return Err(RegistryError::Unauthorized);
                }
            },
        }
        if !self.entries.contains_key(name) {
            return Err(RegistryError::NotFound);
        }
        if !self.check_unlocked(name, now_unix) {
            return Err(RegistryError::Locked);
        }
        let active = match self.entries.get(name) {
            Some(entry) => entry.is_active_at(now_unix),
            None => false,
        };
        if !active {
            return Err(RegistryError::NotActive);
        }
        let ghost s0 = *self;
        let _ = self.ensure_name_unlocked(name, now_unix);
        let mut entry = self.entries.remove(name).unwrap();
        let old_owner = entry.owner.clone();
        entry.owner = new_owner;
        entry.transfer_count = if entry.transfer_count == u32::MAX {
            u32::MAX
        } else {
            entry.transfer_count + 1
        };
        let ghost new_owner_view = entry.owner@;
        let ghost new_entry = entry;
        self.remove_owner_name(&old_owner, name);
        self.add_owner_name(&entry.owner.clone(), name);
        let new_owner = entry.owner.clone();
        self.entries.insert(name.clone(), entry);
        proof {
            assert(self.entries() =~= s0.entries().insert(name@, new_entry));
            if s0.index_consistent() {
                lemma_move_keeps_index(s0, *self, name@, new_owner_view);
            }
        }
        self.events.push(RegistryEvent::Transferred { name: name.clone(), old_owner, new_owner });
        Ok(())
    }

    /// The outcome of `renew` before any change is made.
    pub open spec fn renew_check(
        &self,
        name: Seq<char>,
        caller: Seq<char>,
        expires_at: int,
        grace_period_ends_at: int,
        now: int,
    ) -> Result<(), RegistryError> {
        if self.is_paused_spec() {
            Err(RegistryError::ContractPaused)
        } else if self.lock_blocks(name, now) {
            Err(RegistryError::Locked)
        } else if !self.entries().dom().contains(name) {
            Err(RegistryError::NotFound)
        } else if self.entries()[name].spec_is_claimable_at(now) {
            Err(RegistryError::NotActive)
        } else if self.entries()[name].owner@ != caller {
            Err(RegistryError::Unauthorized)
        } else if expires_at < self.entries()[name].expires_at {
            Err(RegistryError::InvalidExpiry)
        } else if grace_period_ends_at < self.entries()[name].grace_period_ends_at {
            Err(RegistryError::InvalidGracePeriod)
        } else if !spec_is_active_at(expires_at, now) {
            Err(RegistryError::InvalidExpiry)
        } else if grace_period_ends_at < expires_at {
            Err(RegistryError::InvalidGracePeriod)
        } else {
            Ok(())
        }
    }

    /// Extends a name that is not yet claimable (owner only); expiry and grace end
    /// may only move forward.
    pub fn renew(
        &mut self,
        name: &String,
        caller: &String,
        expires_at: u64,
        grace_period_ends_at: u64,
        now_unix: u64,
    ) -> (r: Result<(), RegistryError>)
        ensures
            r == old(self).renew_check(
                name@,
                caller@,
                expires_at as int,
                grace_period_ends_at as int,
                now_unix as int,
            ),
            r is Err ==> *final(self) == *old(self),
            r is Ok ==> old(self).renewed(&*final(self), *name, expires_at, grace_period_ends_at, now_unix),
            old(self).index_consistent() ==> final(self).index_consistent(),
    {
        if self.paused {
            return Err(RegistryError::ContractPaused);
        }
        if !self.check_unlocked(name, now_unix) {
            return Err(RegistryError::Locked);
        }
        match self.entries.get(name) {
            None => {
                return Err(RegistryError::NotFound);
            },
            Some(entry) => {
                if entry.is_claimable_at(now_unix) {
                    return Err(RegistryError::NotActive);
                }
                if !same_str(&entry.owner, caller) {
                    return Err(RegistryError::Unauthorized);
                }
                if expires_at < entry.expires_at {
                    return Err(RegistryError::InvalidExpiry);
                }
                if grace_period_ends_at < entry.grace_period_ends_at {
                    return Err(RegistryError::InvalidGracePeriod);
                }
            },
        }
        if !is_active_at(expires_at, now_unix) {
            return Err(RegistryError::InvalidExpiry);
        }
        if grace_period_ends_at < expires_at {
            return Err(RegistryError::InvalidGracePeriod);
        }
        let ghost s0 = *self;
        let _ = self.ensure_name_unlocked(name, now_unix);
        let mut entry = self.entries.remove(name).unwrap();
        entry.expires_at = expires_at;
        entry.grace_period_ends_at = grace_period_ends_at;
        let ghost new_entry = entry;
        self.entries.insert(name.clone(), entry);
        proof {
            assert(self.entries() =~= s0.entries().insert(name@, new_entry));
            if s0.index_consistent() {
                lemma_same_owner_keeps_index(s0, *self, name@);
            }
        }
        self.log_nft_call(NftCall::SyncExpiry { name: name.clone(), new_expiry: expires_at });
        Ok(())
    }

    /// The names listed for an owner, in the order they were added.
    pub fn names_for_owner(&self, owner: &String) -> (r: Vec<String>)
        ensures
            strs(r@) == names_of(self.owner_index(), owner@),
    {
        match self.owner_names.get(owner) {
            Some(list) => list.to_vec(),
            None => {
                let v: Vec<String> = Vec::new();
                assert(strs(v@) =~= Seq::<Seq<char>>::empty());
                v
            },
        }
    }

    /// Names in an owner's index whose entry is missing or owned by someone else.
    pub open spec fn stale_names(&self, owner: Seq<char>) -> Seq<Seq<char>> {
        names_of(self.owner_index(), owner).filter(
            |n: Seq<char>| !self.entries().dom().contains(n) || self.entries()[n].owner@ != owner,
        )
    }

    /// The names in an owner's index that disagree with the entries.
    pub fn audit_owner_index(&self, owner: &String) -> (r: Vec<String>)
        ensures
            strs(r@) == self.stale_names(owner@),
            self.index_consistent() ==> r@.len() == 0,
    {
        let ghost idx_names = names_of(self.owner_index(), owner@);
        let ghost pred = |n: Seq<char>|
            !self.entries().dom().contains(n) || self.entries()[n].owner@ != owner@;
        let mut stale: Vec<String> = Vec::new();
        match self.owner_names.get(owner) {
            None => {
                proof {
                    reveal(Seq::filter);
                    assert(strs(stale@) =~= self.stale_names(owner@));
                }
            },
            Some(list) => {
                let n = list.len();
                let mut i: usize = 0;
                while i < n
                    invariant
                        n == list@.len(),
                        list@ == idx_names,
                        i <= n,
                        strs(stale@) == idx_names.take(i as int).filter(pred),
                        pred == (|n: Seq<char>|
                            !self.entries().dom().contains(n) || self.entries()[n].owner@
                                != owner@),
                    decreases n - i,
                {
                    let name = list.get(i);
                    proof {
                        assert(idx_names.take(i + 1) =~= idx_names.take(i as int).push(
                            idx_names[i as int],
                        ));
                        idx_names.take(i as int).lemma_filter_push(idx_names[i as int], pred);
                    }
                    let is_stale = match self.entries.get(name) {
                        None => true,
                        Some(entry) => !same_str(&entry.owner, owner),
                    };
                    if is_stale {
                        let ghost before = stale@;
                        stale.push(name.clone());
                        proof {
                            assert(strs(stale@) =~= strs(before).push(idx_names[i as int]));
                        }
                    }
                    i = i + 1;
                }
                proof {
                    assert(idx_names.take(n as int) =~= idx_names);
                }
            },
        }
        proof {
            if self.index_consistent() {
                broadcast use vstd::seq_lib::group_filter_ensures;

                if stale@.len() > 0 {
                    let s = self.stale_names(owner@);
                    assert(s.len() > 0);
                    assert(pred(s[0]));
                    assert(idx_names.contains(s[0])) by {
                        idx_names.lemma_filter_contains_rev(pred, s[0]);
                    }
                    let j = choose|j: int| 0 <= j < idx_names.len() && idx_names[j] == s[0];
                    assert(names_of(self.owner_index(), owner@)[j] == s[0]);
                }
            }
        }
        stale
    }

    /// Removes a name (its owner may always burn it; anyone may burn a claimable name).
    pub open spec fn burn_check(&self, name: Seq<char>, caller: Seq<char>, now: int) -> Result<
        (),
        RegistryError,
    > {
        if self.is_paused_spec() {
            Err(RegistryError::ContractPaused)
        } else if self.lock_blocks(name, now) {
            Err(RegistryError::Locked)
        } else if !self.entries().dom().contains(name) {
            Err(RegistryError::NotFound)
        } else if self.entries()[name].owner@ != caller && !self.entries()[name].spec_is_claimable_at(
            now,
        ) {
            Err(RegistryError::Unauthorized)
        } else {
            Ok(())
        }
    }

    /// Deletes a name's entry and removes it from its owner's index.
    pub fn burn(&mut self, name: &String, caller: &String, now_unix: u64) -> (r: Result<(), RegistryError>)
        ensures
            r == old(self).burn_check(name@, caller@, now_unix as int),
            r is Err ==> *final(self) == *old(self),
            r is Ok ==> {
                &&& final(self).entries() == old(self).entries().remove(name@)
                &&& final(self).owner_index() == idx_remove(
                    old(self).owner_index(),
                    old(self).entries()[name@].owner@,
                    name@,
                )
                &&& final(self).locks() == old(self).locks_after_unlock(name@, now_unix as int)
                &&& final(self).same_config(&*old(self))
                &&& final(self).nft_call_log() == old(self).nft_logged(
                    old(self).nft_call_log(),
                    NftCall::Burn { name: *name },
                )
                &&& final(self).event_log() == old(self).event_log().push(
                    RegistryEvent::Burned { name: *name, owner: old(self).entries()[name@].owner },
                )
            },
            old(self).index_consistent() ==> final(self).index_consistent(),
    {
        if self.paused {
            return Err(RegistryError::ContractPaused);
        }
        if !self.check_unlocked(name, now_unix) {
            return Err(RegistryError::Locked);
        }
        let owner = match self.entries.get(name) {
            None => {
                return Err(RegistryError::NotFound);
            },
            Some(entry) => {
                if !same_str(&entry.owner, caller) && !entry.is_claimable_at(now_unix) {
                    return Err(RegistryError::Unauthorized);
                }
                entry.owner.clone()
            },
        };
        let ghost s0 = *self;
        let _ = self.ensure_name_unlocked(name, now_unix);
        self.remove_owner_name(&owner, name);
        let _ = self.entries.remove(name);
        proof {
            if s0.index_consistent() {
                lemma_burn_keeps_index(s0, *self, name@);
            }
        }
        self.log_nft_call(NftCall::Burn { name: name.clone() });
        self.events.push(RegistryEvent::Burned { name: name.clone(), owner });
        Ok(())
    }

    /// The outcome of `lock_name` before any change is made.
    pub open spec fn lock_check(&self, name: Seq<char>, caller: Seq<char>, locked_until: int, now: int) -> Result<
        (),
        RegistryError,
    > {
        if self.dispute_admin() is None {
            Err(RegistryError::Unauthorized)
        } else if self.dispute_admin() != Some(caller) {
            Err(RegistryError::Unauthorized)
        } else if !valid_fqdn(name) {
            Err(RegistryError::Validation)
        } else if !self.entries().dom().contains(name) {
            Err(RegistryError::NotFound)
        } else if locked_until < now {
            Err(RegistryError::InvalidExpiry)
        } else {
            Ok(())
        }
    }

    /// Locks a registered name for dispute review until `locked_until` (dispute admin only).
    pub fn lock_name(
        &mut self,
        name: &String,
        caller: &String,
        locked_until: u64,
        lock_reason: String,
        now_unix: u64,
    ) -> (r: Result<(), RegistryError>)
        ensures
            r == old(self).lock_check(name@, caller@, locked_until as int, now_unix as int),
            r is Err ==> *final(self) == *old(self),
            r is Ok ==> {
                &&& final(self).locks() == old(self).locks().insert(
                    name@,
                    NameLock { locked_until: locked_until, lock_reason: lock_reason },
                )
                &&& final(self).entries() == old(self).entries()
                &&& final(self).owner_index() == old(self).owner_index()
                &&& final(self).same_config(&*old(self))
                &&& final(self).nft_call_log() == old(self).nft_call_log()
                &&& final(self).event_log() == old(self).event_log().push(
                    RegistryEvent::LockApplied {
                        name: *name,
                        locked_until: locked_until,
                        lock_reason: lock_reason,
                        admin: old(self).dispute_admin_account(),
                    },
                )
            },
            old(self).index_consistent() ==> final(self).index_consistent(),
    {
        match &self.dispute_admin {
            None => {
                return Err(RegistryError::Unauthorized);
            },
            Some(admin) => {
                if !same_str(admin, caller) {
                    return Err(RegistryError::Unauthorized);
                }
            },
        }
        if !validate_fqdn(name) {
            return Err(RegistryError::Validation);
        }
        if !self.entries.contains_key(name) {
            return Err(RegistryError::NotFound);
        }
        if locked_until < now_unix {
            return Err(RegistryError::InvalidExpiry);
        }
        let admin = self.dispute_admin.clone().unwrap();
        self.locks.insert(name.clone(), NameLock { locked_until, lock_reason: lock_reason.clone() });
        self.events.push(
            RegistryEvent::LockApplied { name: name.clone(), locked_until, lock_reason, admin },
        );
        Ok(())
    }

    /// The outcome of `unlock_name` before any change is made.
    pub open spec fn unlock_check(&self, name: Seq<char>, caller: Seq<char>) -> Result<
        (),
        RegistryError,
    > {
        if self.dispute_admin() is None {
            Err(RegistryError::Unauthorized)
        } else if self.dispute_admin() != Some(caller) {
            Err(RegistryError::Unauthorized)
        } else if !valid_fqdn(name) {
            Err(RegistryError::Validation)
        } else if !self.locks().dom().contains(name) {
            Err(RegistryError::NotFound)
        } else {
            Ok(())
        }
    }

    /// Releases a dispute lock early (dispute admin only) and hands back the lock.
    pub fn unlock_name(&mut self, name: &String, caller: &String) -> (r: Result<NameLock, RegistryError>)
        ensures
            r is Err ==> r == Err::<NameLock, RegistryError>(
                old(self).unlock_check(name@, caller@)->Err_0,
            ) && *final(self) == *old(self),
            r is Ok == old(self).unlock_check(name@, caller@) is Ok,
            r is Ok ==> {
                &&& r->Ok_0 == old(self).locks()[name@]
                &&& final(self).locks() == old(self).locks().remove(name@)
                &&& final(self).entries() == old(self).entries()
                &&& final(self).owner_index() == old(self).owner_index()
                &&& final(self).same_config(&*old(self))
                &&& final(self).nft_call_log() == old(self).nft_call_log()
                &&& final(self).event_log() == old(self).event_log().push(
                    RegistryEvent::LockRemoved {
                        name: *name,
                        locked_until: old(self).locks()[name@].locked_until,
                        lock_reason: old(self).locks()[name@].lock_reason,
                        admin: old(self).dispute_admin_account(),
                    },
                )
            },
            old(self).index_consistent() ==> final(self).index_consistent(),
    {
        match &self.dispute_admin {
            None => {
                return Err(RegistryError::Unauthorized);
            },
            Some(admin) => {
                if !same_str(admin, caller) {
                    return Err(RegistryError::Unauthorized);
                }
            },
        }
        if !validate_fqdn(name) {
            return Err(RegistryError::Validation);
        }
        if !self.locks.contains_key(name) {
            return Err(RegistryError::NotFound);
        }
        match self.locks.remove(name) {
            Some(lock) => {
                let admin = self.dispute_admin.clone().unwrap();
                self.events.push(
                    RegistryEvent::LockRemoved {
                        name: name.clone(),
                        locked_until: lock.locked_until,
                        lock_reason: lock.lock_reason.clone(),
                        admin,
                    },
                );
                Ok(lock)
            },
            None => Err(RegistryError::NotFound),
        }
    }

    /// Adds a name to an owner's index without an entry behind it, leaving the index
    /// inconsistent; for exercising `audit_owner_index`.
    pub fn inject_stale_index_entry(&mut self, owner: &String, name: &String)
        ensures
            final(self).owner_index() == idx_add(old(self).owner_index(), owner@, name@),
            final(self).entries() == old(self).entries(),
            final(self).locks() == old(self).locks(),
            final(self).same_config(&*old(self)),
            final(self).nft_call_log() == old(self).nft_call_log(),
            final(self).event_log() == old(self).event_log(),
    {
        self.add_owner_name(owner, name);
    }
}

/// Whether an optional metadata URI exceeds the allowed length in bytes.
pub open spec fn metadata_too_long(m: Option<String>) -> bool {
    match m {
        Some(s) => byte_len(s@) as usize > MAX_METADATA_URI_LENGTH,
        None => false,
    }
}

fn check_metadata_too_long(m: &Option<String>) -> (r: bool)
    ensures
        r == metadata_too_long(*m),
{
    match m {
        Some(s) => str_byte_len(s) > MAX_METADATA_URI_LENGTH,
        None => false,
    }
}

// -------------------------------------------------------------------
// Owner-index consistency
// -------------------------------------------------------------------

proof fn lemma_filter_facts(s: Seq<Seq<char>>, name: Seq<char>)
    ensures
        forall|x: Seq<char>| #[trigger]
            s.filter(other_than(name)).contains(x) <==> (s.contains(x) && x != name),
{
    broadcast use vstd::seq_lib::group_filter_ensures;

    let p = other_than(name);
    assert forall|x: Seq<char>| #[trigger] s.filter(p).contains(x) <==> (s.contains(x) && x != name) by {
        if s.filter(p).contains(x) {
            s.lemma_filter_contains_rev(p, x);
            let i = choose|i: int| 0 <= i < s.filter(p).len() && s.filter(p)[i] == x;
            assert(p(s.filter(p)[i]));
        }
        if s.contains(x) && x != name {
            let i = choose|i: int| 0 <= i < s.len() && s[i] == x;
            assert(p(s[i]));
        }
    }
}

/// Every name listed under each owner belongs to that owner (by `contains`).
spec fn index_sound(
    idx: Map<Seq<char>, Seq<Seq<char>>>,
    entries: Map<Seq<char>, RegistryEntry>,
) -> bool {
    forall|o: Seq<char>, x: Seq<char>| #[trigger]
        names_of(idx, o).contains(x) ==> entries.dom().contains(x) && entries[x].owner@ == o
}

spec fn index_complete(
    idx: Map<Seq<char>, Seq<Seq<char>>>,
    entries: Map<Seq<char>, RegistryEntry>,
) -> bool {
    forall|n: Seq<char>| #[trigger]
        entries.dom().contains(n) ==> names_of(idx, entries[n].owner@).contains(n)
}

proof fn lemma_consistent_iff(r: RegistryContract)
    ensures
        r.index_consistent() <==> (index_sound(r.owner_index(), r.entries()) && index_complete(
            r.owner_index(),
            r.entries(),
        )),
{
    let idx = r.owner_index();
    if r.index_consistent() {
        assert forall|o: Seq<char>, x: Seq<char>| #[trigger]
            names_of(idx, o).contains(x) implies r.entries().dom().contains(x)
            && r.entries()[x].owner@ == o by {
            let i = choose|i: int| 0 <= i < names_of(idx, o).len() && names_of(idx, o)[i] == x;
        }
    }
    if index_sound(idx, r.entries()) {
        assert forall|o: Seq<char>, i: int|
            0 <= i < names_of(idx, o).len() implies r.entries().dom().contains(
            #[trigger] names_of(idx, o)[i],
        ) && r.entries()[names_of(idx, o)[i]].owner@ == o by {
            assert(names_of(idx, o).contains(names_of(idx, o)[i]));
        }
    }
}

proof fn lemma_register_keeps_index(s0: RegistryContract, s: RegistryContract, name: Seq<char>, owner: Seq<char>)
    requires
        s0.index_consistent(),
        s.entries().dom().contains(name),
        s.entries()[name].owner@ == owner,
        s.entries() == s0.entries().insert(name, s.entries()[name]),
        s.owner_index() == if s0.entries().dom().contains(name) {
            idx_add(idx_remove(s0.owner_index(), s0.entries()[name].owner@, name), owner, name)
        } else {
            idx_add(s0.owner_index(), owner, name)
        },
    ensures
        s.index_consistent(),
{
    lemma_consistent_iff(s0);
    let idx0 = s0.owner_index();
    let mid = if s0.entries().dom().contains(name) {
        idx_remove(idx0, s0.entries()[name].owner@, name)
    } else {
        idx0
    };
    if s0.entries().dom().contains(name) {
        lemma_filter_facts(names_of(idx0, s0.entries()[name].owner@), name);
    }
    assert(s.owner_index() == idx_add(mid, owner, name));
    // Names in `mid` other than `name` still belong to their listed owner.
    assert forall|o: Seq<char>, x: Seq<char>| #[trigger]
        names_of(mid, o).contains(x) && (x != name || !s0.entries().dom().contains(name))
        implies s0.entries().dom().contains(x) && s0.entries()[x].owner@ == o by {
        if s0.entries().dom().contains(name) && o == s0.entries()[name].owner@ {
            assert(names_of(idx0, o).contains(x));
        } else {
            assert(names_of(mid, o) == names_of(idx0, o));
        }
    }
    assert forall|o: Seq<char>, x: Seq<char>| #[trigger]
        names_of(s.owner_index(), o).contains(x) implies s.entries().dom().contains(x)
        && s.entries()[x].owner@ == o by {
        if o == owner {
            if x != name {
                assert(names_of(mid, o).contains(x));
                if !s0.entries().dom().contains(name) {
                    assert(names_of(idx0, o).contains(x));
                }
            }
        } else {
            assert(names_of(s.owner_index(), o) == names_of(mid, o));
            if !s0.entries().dom().contains(name) {
                assert(names_of(idx0, o).contains(x));
                assert(x != name);
            } else if x == name {
                if o == s0.entries()[name].owner@ {
                } else {
                    assert(names_of(idx0, o).contains(name));
                }
            }
        }
    }
    assert forall|n: Seq<char>| #[trigger]
        s.entries().dom().contains(n) implies names_of(s.owner_index(), s.entries()[n].owner@).contains(
        n,
    ) by {
        if n != name {
            let o = s0.entries()[n].owner@;
            assert(names_of(idx0, o).contains(n));
            assert(names_of(mid, o).contains(n));
            if o == owner {
                let l = names_of(mid, o);
                if !l.contains(name) {
                    let i = choose|i: int| 0 <= i < l.len() && l[i] == n;
                    assert(l.push(name)[i] == n);
                }
            }
        } else {
            let l = names_of(mid, owner);
            if !l.contains(name) {
                assert(l.push(name)[l.len() as int] == name);
            }
        }
    }
    lemma_consistent_iff(s);
}

proof fn lemma_move_keeps_index(s0: RegistryContract, s: RegistryContract, name: Seq<char>, new_owner: Seq<char>)
    requires
        s0.index_consistent(),
        s0.entries().dom().contains(name),
        s.entries().dom().contains(name),
        s.entries()[name].owner@ == new_owner,
        s.entries() == s0.entries().insert(name, s.entries()[name]),
        s.owner_index() == idx_add(
            idx_remove(s0.owner_index(), s0.entries()[name].owner@, name),
            new_owner,
            name,
        ),
    ensures
        s.index_consistent(),
{
    lemma_register_keeps_index(s0, s, name, new_owner);
}

proof fn lemma_same_owner_keeps_index(s0: RegistryContract, s: RegistryContract, name: Seq<char>)
    requires
        s0.index_consistent(),
        s0.entries().dom().contains(name),
        s.entries().dom().contains(name),
        s.entries()[name].owner == s0.entries()[name].owner,
        s.entries() == s0.entries().insert(name, s.entries()[name]),
        s.owner_index() == s0.owner_index(),
    ensures
        s.index_consistent(),
{
    lemma_consistent_iff(s0);
    assert forall|o: Seq<char>, x: Seq<char>| #[trigger]
        names_of(s.owner_index(), o).contains(x) implies s.entries().dom().contains(x)
        && s.entries()[x].owner@ == o by {
        assert(names_of(s0.owner_index(), o).contains(x));
    }
    assert forall|n: Seq<char>| #[trigger]
        s.entries().dom().contains(n) implies names_of(s.owner_index(), s.entries()[n].owner@).contains(
        n,
    ) by {
        assert(s0.entries().dom().contains(n));
    }
    lemma_consistent_iff(s);
}

proof fn lemma_burn_keeps_index(s0: RegistryContract, s: RegistryContract, name: Seq<char>)
    requires
        s0.index_consistent(),
        s0.entries().dom().contains(name),
        s.entries() == s0.entries().remove(name),
        s.owner_index() == idx_remove(s0.owner_index(), s0.entries()[name].owner@, name),
    ensures
        s.index_consistent(),
{
    lemma_consistent_iff(s0);
    let o0 = s0.entries()[name].owner@;
    lemma_filter_facts(names_of(s0.owner_index(), o0), name);
    assert forall|o: Seq<char>, x: Seq<char>| #[trigger]
        names_of(s.owner_index(), o).contains(x) implies s.entries().dom().contains(x)
        && s.entries()[x].owner@ == o by {
        if o == o0 {
            assert(names_of(s0.owner_index(), o).contains(x));
        } else {
            assert(names_of(s0.owner_index(), o).contains(x));
            if x == name {
                assert(s0.entries()[name].owner@ == o);
            }
        }
    }
    assert forall|n: Seq<char>| #[trigger]
        s.entries().dom().contains(n) implies names_of(s.owner_index(), s.entries()[n].owner@).contains(
        n,
    ) by {
        assert(s0.entries().dom().contains(n));
        assert(names_of(s0.owner_index(), s0.entries()[n].owner@).contains(n));
    }
    lemma_consistent_iff(s);
}

// ------------------------------------------------------------------
// Laws
// ------------------------------------------------------------------

/// What a registration writes is what a lookup reads: once an entry is stored for a
/// valid name, the name resolves to that entry and is active at every instant from
/// `now` up to its expiry.
pub proof fn law_register_then_resolve(before: RegistryContract, after: RegistryContract, entry: RegistryEntry, t: int)
    requires
        after.entries() == before.entries().insert(entry.name@, entry),
        valid_fqdn(entry.name@),
        t <= entry.expires_at,
    ensures
        after.spec_resolve(entry.name@, t) == Ok::<RegistryEntry, RegistryError>(entry),
        after.spec_name_state(entry.name@, t) == NameState::Active,
{
}

/// A registered name cannot be taken over before its grace period is over: any new
/// registration of it is refused until the name is claimable.
pub proof fn law_no_takeover_before_claimable(
    r: RegistryContract,
    name: Seq<char>,
    metadata_uri: Option<String>,
    now: int,
    expires_at: int,
    grace_period_ends_at: int,
)
    requires
        r.entries().dom().contains(name),
        !r.entries()[name].spec_is_claimable_at(now),
    ensures
        r.register_check(name, metadata_uri, now, expires_at, grace_period_ends_at) is Err,
{
}

/// After a burn the name is gone: it is missing at every instant and no lookup finds it.
pub proof fn law_burn_frees_name(before: RegistryContract, after: RegistryContract, name: Seq<char>, t: int)
    requires
        after.entries() == before.entries().remove(name),
    ensures
        after.spec_name_state(name, t) == NameState::Missing,
        after.spec_resolve(name, t) is Err,
{
}

/// A transfer hands the name to the new owner: the entry now resolves with that owner
/// while it is active, and everything else about it is kept.
pub proof fn law_transfer_then_resolve(before: RegistryContract, after: RegistryContract, name: Seq<char>, new_owner: String, t: int)
    requires
        before.entries().dom().contains(name),
        valid_fqdn(name),
        after.entries() == before.entries().insert(
            name,
            RegistryEntry {
                owner: new_owner,
                transfer_count: (if before.entries()[name].transfer_count == u32::MAX {
                    u32::MAX
                } else {
                    (before.entries()[name].transfer_count + 1) as u32
                }),
                ..before.entries()[name]
            },
        ),
        t <= before.entries()[name].expires_at,
    ensures
        after.spec_resolve(name, t) matches Ok(e) && e.owner == new_owner && e.expires_at
            == before.entries()[name].expires_at && e.grace_period_ends_at
            == before.entries()[name].grace_period_ends_at,
{
}

/// While the registry is paused every change of a name is refused with
/// `ContractPaused`, whatever else holds.
pub proof fn law_pause_refuses_every_change(
    r: RegistryContract,
    name: Seq<char>,
    caller: Seq<char>,
    metadata_uri: Option<String>,
    now: int,
    expires_at: int,
    grace_period_ends_at: int,
)
    requires
        r.is_paused_spec(),
    ensures
        r.register_check(name, metadata_uri, now, expires_at, grace_period_ends_at) == Err::<
            (),
            RegistryError,
        >(RegistryError::ContractPaused),
        r.owner_mutation_check(name, caller, now) == Err::<(), RegistryError>(RegistryError::ContractPaused),
        r.set_metadata_check(name, caller, metadata_uri, now) == Err::<(), RegistryError>(
            RegistryError::ContractPaused,
        ),
        r.update_owner_check(name, caller, now) == Err::<(), RegistryError>(RegistryError::ContractPaused),
        r.renew_check(name, caller, expires_at, grace_period_ends_at, now) == Err::<(), RegistryError>(
            RegistryError::ContractPaused,
        ),
        r.burn_check(name, caller, now) == Err::<(), RegistryError>(RegistryError::ContractPaused),
{
}

/// A live dispute lock refuses every owner change of the name with `Locked`, while the
/// name keeps resolving; once the lock's time has passed it no longer blocks.
pub proof fn law_dispute_lock_blocks_changes_not_resolution(
    r: RegistryContract,
    name: Seq<char>,
    caller: Seq<char>,
    metadata_uri: Option<String>,
    now: int,
    expires_at: int,
    grace_period_ends_at: int,
)
    requires
        !r.is_paused_spec(),
        valid_fqdn(name),
        r.lock_blocks(name, now),
    ensures
        r.register_check(name, metadata_uri, now, expires_at, grace_period_ends_at) == Err::<
            (),
            RegistryError,
        >(RegistryError::Locked),
        r.owner_mutation_check(name, caller, now) == Err::<(), RegistryError>(RegistryError::Locked),
        r.set_metadata_check(name, caller, metadata_uri, now) == Err::<(), RegistryError>(
            RegistryError::Locked,
        ),
        r.renew_check(name, caller, expires_at, grace_period_ends_at, now) == Err::<(), RegistryError>(
            RegistryError::Locked,
        ),
        r.burn_check(name, caller, now) == Err::<(), RegistryError>(RegistryError::Locked),
        r.entries().dom().contains(name) && r.entries()[name].spec_is_active_at(now) ==> r.spec_resolve(
            name,
            now,
        ) == Ok::<RegistryEntry, RegistryError>(r.entries()[name]),
        forall|later: int| later > r.locks()[name].locked_until ==> !r.lock_blocks(name, later),
{
}

/// The owner index audit finds nothing in a consistent registry. A new registry is
/// consistent and every change of the registry keeps it so, so in every state reached
/// through the registry's own operations the audit reports no name; only an entry put
/// into the index from outside can make it report one.
pub proof fn law_audit_clean_when_consistent(reg: RegistryContract, owner: Seq<char>)
    requires
        reg.index_consistent(),
    ensures
        reg.stale_names(owner) == Seq::<Seq<char>>::empty(),
{
    broadcast use vstd::seq_lib::group_filter_ensures;

    let idx_names = names_of(reg.owner_index(), owner);
    let s = reg.stale_names(owner);
    if s.len() > 0 {
        assert(idx_names.contains(s[0])) by {
            broadcast use Seq::lemma_filter_contains_rev;

            assert(s.contains(s[0]));
        }
        let j = choose|j: int| 0 <= j < idx_names.len() && idx_names[j] == s[0];
        assert(names_of(reg.owner_index(), owner)[j] == s[0]);
    }
    assert(reg.stale_names(owner) =~= Seq::<Seq<char>>::empty());
}

/// Along any run of the registry that starts from an empty registry and goes through
/// steps each keeping the owner index consistent (as `register`, `transfer`,
/// `update_owner`, `renew`, `burn` and every other operation but
/// `inject_stale_index_entry` do), the audit of every owner is empty in every state.
pub proof fn law_audit_clean_along_run(states: Seq<RegistryContract>, owner: Seq<char>)
    requires
        states.len() > 0,
        states[0].entries() == Map::<Seq<char>, RegistryEntry>::empty(),
        states[0].owner_index() == Map::<Seq<char>, Seq<Seq<char>>>::empty(),
        forall|i: int|
            0 <= i < states.len() - 1 ==> (#[trigger] states[i].index_consistent() ==> states[i + 1].index_consistent()),
    ensures
        forall|j: int| 0 <= j < states.len() ==> #[trigger] states[j].stale_names(owner) == Seq::<Seq<char>>::empty(),
{
    assert forall|j: int| 0 <= j < states.len() implies #[trigger] states[j].index_consistent() by {
        lemma_run_consistent(states, j);
    }
    assert forall|j: int| 0 <= j < states.len() implies #[trigger] states[j].stale_names(owner)
        == Seq::<Seq<char>>::empty() by {
        assert(states[j].index_consistent());
        law_audit_clean_when_consistent(states[j], owner);
    }
}

proof fn lemma_run_consistent(states: Seq<RegistryContract>, j: int)
    requires
        0 <= j < states.len(),
        states[0].entries() == Map::<Seq<char>, RegistryEntry>::empty(),
        states[0].owner_index() == Map::<Seq<char>, Seq<Seq<char>>>::empty(),
        forall|i: int|
            0 <= i < states.len() - 1 ==> (#[trigger] states[i].index_consistent() ==> states[i + 1].index_consistent()),
    ensures
        states[j].index_consistent(),
    decreases j,
{
    if j == 0 {
        assert(states[0].index_consistent());
    } else {
        lemma_run_consistent(states, j - 1);
        assert(states[j - 1].index_consistent());
    }
}

} // verus!
