//! The resolver: what a name points to (an address per chain and text records),
//! the reverse mapping from Stellar addresses back to names, primary names, and
//! wildcard fallback to a parent's record.
//!
//! Authorization is the host's job: a method that names a caller or owner acts as
//! if that address has signed the call. When a registry is configured, ownership is
//! decided by the registry passed in, and a registry that refuses the lookup fails
//! the call with `ResolverError::Registry`. A call that fails leaves the resolver
//! unchanged.
use vstd::prelude::*;
use crate::common::{
    byte_len, decode_target_version, parent_name, spec_parent_name, spec_target_version,
    str_byte_len, valid_fqdn, valid_text_record_key, validate_fqdn, validate_text_record_key,
    CONTRACT_VERSION, MAX_TEXT_RECORDS, MAX_TEXT_RECORD_VALUE_LENGTH,
};
use crate::registry::{RegistryContract, RegistryError};
use crate::strmap::{same_str, StrMap};
use crate::subdomain::SubdomainContract;

verus! {

/// Most operations one `batch_set` call may carry.
pub const MAX_BATCH_OPS: usize = 16;

/// Parent levels a wildcard lookup climbs when no subdomain contract says otherwise.
pub const DEFAULT_FALLBACK_DEPTH: u32 = 3;

/// The chain whose address takes part in reverse resolution.
pub open spec fn default_chain() -> Seq<char> {
    seq!['s', 't', 'e', 'l', 'l', 'a', 'r']
}

fn default_chain_string() -> (r: String)
    ensures
        r@ == default_chain(),
{
    let r = String::from_str("stellar");
    proof {
        reveal_strlit("stellar");
        assert(r@ =~= default_chain());
    }
    r
}

/// What a name resolves to.
pub struct ResolutionRecord {
    pub owner: String,
    /// Address per chain.
    pub addresses: StrMap<String>,
    pub text_records: StrMap<String>,
    pub updated_at: u64,
    /// Whether the record was found through a parent's wildcard.
    pub is_wildcard: bool,
}

/// One change carried by `batch_set`.
pub enum BatchOp {
    /// Set the Stellar address.
    SetAddress(String),
    /// Set a text record (key, value).
    SetText(String, String),
}

/// Errors of the resolver.
#[derive(Clone, Copy, Debug, PartialEq, Eq, Structural)]
pub enum ResolverError {
    Validation,
    RecordNotFound,
    Unauthorized,
    TooManyTextRecords,
    NotInitialized,
    TextRecordValueTooLong,
    InvalidChain,
    InvalidKey,
    BatchTooLarge,
    UpgradeFailed,
    /// The registry refused the ownership lookup.
    Registry(RegistryError),
}

/// A map of strings, by the characters of its values.
pub open spec fn sview(m: Map<Seq<char>, String>) -> Map<Seq<char>, Seq<char>> {
    Map::new(|k: Seq<char>| m.dom().contains(k), |k: Seq<char>| m[k]@)
}

proof fn lemma_sview_insert(m: Map<Seq<char>, String>, k: Seq<char>, s: String)
    ensures
        sview(m.insert(k, s)) == sview(m).insert(k, s@),
{
    assert(sview(m.insert(k, s)) =~= sview(m).insert(k, s@));
}

proof fn lemma_sview_remove(m: Map<Seq<char>, String>, k: Seq<char>)
    ensures
        sview(m.remove(k)) == sview(m).remove(k),
{
    assert(sview(m.remove(k)) =~= sview(m).remove(k));
}

/// A resolution record as mathematical values.
#[verifier::ext_equal]
pub struct RecordView {
    pub owner: Seq<char>,
    pub addresses: Map<Seq<char>, Seq<char>>,
    pub text_records: Map<Seq<char>, Seq<char>>,
    pub updated_at: u64,
    pub is_wildcard: bool,
}

impl ResolutionRecord {
    /// The record as mathematical values.
    pub open spec fn rv(&self) -> RecordView {
        RecordView {
            owner: self.owner@,
            addresses: sview(self.addresses@),
            text_records: sview(self.text_records@),
            updated_at: self.updated_at,
            is_wildcard: self.is_wildcard,
        }
    }

    /// A copy.
    pub fn copy(&self) -> (r: Self)
        ensures
            r.rv() == self.rv(),
    {
        ResolutionRecord {
            owner: self.owner.clone(),
            addresses: self.addresses.duplicate(),
            text_records: self.text_records.duplicate(),
            updated_at: self.updated_at,
            is_wildcard: self.is_wildcard,
        }
    }
}

/// What the resolver announces to indexers, in the order it happens.
#[derive(Clone, Debug, PartialEq, Eq)]
pub enum ResolverEvent {
    /// The stored version moved.
    ContractUpgraded { old_version: u32, new_version: u32, admin: String },
    /// A name's address on a chain was set (topics "resolver", "fwd_set").
    ForwardUpdated { name: String, address: String, chain: String, updated_at: u64 },
    /// A Stellar address was pointed back at a name (topics "resolver", "rev_set").
    ReverseUpdated { address: String, name: String },
    /// A text record was set (topics "resolver", "txt_set").
    TextRecordUpdated { name: String, key: String, value: String, updated_at: u64 },
    /// An address chose its primary name (topics "resolver", "prim_set").
    PrimaryNameSet { address: String, name: String },
    /// A record was removed, with the Stellar address it had (topics "resolver", "removed").
    RecordRemoved { name: String, former_address: Option<String> },
}

/// An event as mathematical values.
pub enum ResolverEventView {
    ContractUpgraded { old_version: u32, new_version: u32, admin: Seq<char> },
    ForwardUpdated { name: Seq<char>, address: Seq<char>, chain: Seq<char>, updated_at: u64 },
    ReverseUpdated { address: Seq<char>, name: Seq<char> },
    TextRecordUpdated { name: Seq<char>, key: Seq<char>, value: Seq<char>, updated_at: u64 },
    PrimaryNameSet { address: Seq<char>, name: Seq<char> },
    RecordRemoved { name: Seq<char>, former_address: Option<Seq<char>> },
}

impl View for ResolverEvent {
    type V = ResolverEventView;

    open spec fn view(&self) -> ResolverEventView {
        match self {
            ResolverEvent::ContractUpgraded { old_version, new_version, admin } => ResolverEventView::ContractUpgraded {
                old_version: *old_version,
                new_version: *new_version,
                admin: admin@,
            },
            ResolverEvent::ForwardUpdated { name, address, chain, updated_at } => ResolverEventView::ForwardUpdated {
                name: name@,
                address: address@,
                chain: chain@,
                updated_at: *updated_at,
            },
            ResolverEvent::ReverseUpdated { address, name } => ResolverEventView::ReverseUpdated {
                address: address@,
                name: name@,
            },
            ResolverEvent::TextRecordUpdated { name, key, value, updated_at } => ResolverEventView::TextRecordUpdated {
                name: name@,
                key: key@,
                value: value@,
                updated_at: *updated_at,
            },
            ResolverEvent::PrimaryNameSet { address, name } => ResolverEventView::PrimaryNameSet {
                address: address@,
                name: name@,
            },
            ResolverEvent::RecordRemoved { name, former_address } => ResolverEventView::RecordRemoved {
                name: name@,
                former_address: match former_address {
                    Some(a) => Some(a@),
                    None => None,
                },
            },
        }
    }
}

/// Everything the resolver holds, as mathematical values.
#[verifier::ext_equal]
pub struct ResolverView {
    /// Records by name.
    pub forward: Map<Seq<char>, RecordView>,
    /// Name each Stellar address points back to.
    pub reverse: Map<Seq<char>, Seq<char>>,
    /// Primary name chosen for each Stellar address.
    pub primary: Map<Seq<char>, Seq<char>>,
    /// Wildcard switches by name (absent means enabled).
    pub wildcard: Map<Seq<char>, bool>,
    pub registry: Option<Seq<char>>,
    pub subdomain_contract: Option<Seq<char>>,
    pub admin: Option<Seq<char>>,
    pub version: Option<u32>,
    /// Every event announced so far, oldest first.
    pub events: Seq<ResolverEventView>,
}

/// The state of a `batch_set` in progress: the record, reverse and primary maps, and
/// how many operations were applied.
pub struct BatchState {
    pub record: RecordView,
    pub reverse: Map<Seq<char>, Seq<char>>,
    pub primary: Map<Seq<char>, Seq<char>>,
    pub applied: nat,
    pub events: Seq<ResolverEventView>,
}

/// The maps after the Stellar address of a name moves from `old` (if any) to `new`:
/// the old address loses its reverse and primary entries, and the new one points back.
pub open spec fn move_stellar(
    reverse: Map<Seq<char>, Seq<char>>,
    primary: Map<Seq<char>, Seq<char>>,
    old: Option<Seq<char>>,
    new: Seq<char>,
    name: Seq<char>,
) -> (Map<Seq<char>, Seq<char>>, Map<Seq<char>, Seq<char>>) {
    let (rv, pv) = match old {
        Some(o) => if o != new {
            (reverse.remove(o), primary.remove(o))
        } else {
            (reverse, primary)
        },
        None => (reverse, primary),
    };
    (rv.insert(new, name), pv)
}

/// The Stellar address of a record, if any.
pub open spec fn stellar_of(r: RecordView) -> Option<Seq<char>> {
    if r.addresses.dom().contains(default_chain()) {
        Some(r.addresses[default_chain()])
    } else {
        None
    }
}

/// One step of `batch_set`.
pub open spec fn batch_step(s: BatchState, op: BatchOp, name: Seq<char>, now: u64) -> BatchState {
    match op {
        BatchOp::SetAddress(a) => {
            let (rv, pv) = move_stellar(s.reverse, s.primary, stellar_of(s.record), a@, name);
            BatchState {
                record: RecordView {
                    addresses: s.record.addresses.insert(default_chain(), a@),
                    ..s.record
                },
                reverse: rv,
                primary: pv,
                applied: s.applied + 1,
                events: s.events.push(
                    ResolverEventView::ForwardUpdated {
                        name: name,
                        address: a@,
                        chain: default_chain(),
                        updated_at: now,
                    },
                ).push(ResolverEventView::ReverseUpdated { address: a@, name: name }),
            }
        },
        BatchOp::SetText(k, v) => {
            if !valid_text_record_key(k@) || byte_len(v@) > MAX_TEXT_RECORD_VALUE_LENGTH || (
            !s.record.text_records.dom().contains(k@) && s.record.text_records.len()
                >= MAX_TEXT_RECORDS) {
                s
            } else {
                BatchState {
                    record: RecordView {
                        text_records: s.record.text_records.insert(k@, v@),
                        ..s.record
                    },
                    applied: s.applied + 1,
                    events: s.events.push(
                        ResolverEventView::TextRecordUpdated { name: name, key: k@, value: v@, updated_at: now },
                    ),
                    ..s
                }
            }
        },
    }
}

/// All steps of `batch_set`, in order.
pub open spec fn batch_all(s: BatchState, ops: Seq<BatchOp>, name: Seq<char>, now: u64) -> BatchState
    decreases ops.len(),
{
    if ops.len() == 0 {
        s
    } else {
        batch_step(batch_all(s, ops.drop_last(), name, now), ops.last(), name, now)
    }
}

impl ResolverView {
    /// The owner the registry reports for a name, when a registry is configured.
    pub open spec fn registry_owner(self, registry: &RegistryContract, name: Seq<char>, now: u64) -> Result<
        Option<Seq<char>>,
        ResolverError,
    > {
        if self.registry is None {
            Ok(None)
        } else {
            match registry.spec_resolve(name, now as int) {
                Ok(e) => Ok(Some(e.owner@)),
                Err(e) => Err(ResolverError::Registry(e)),
            }
        }
    }

    /// Whether the caller owns the record: per the registry when one is configured,
    /// otherwise per the record.
    pub open spec fn owner_check(
        self,
        registry: &RegistryContract,
        name: Seq<char>,
        caller: Seq<char>,
        now: u64,
    ) -> Result<(), ResolverError> {
        match self.registry_owner(registry, name, now) {
            Err(e) => Err(e),
            Ok(Some(o)) => if o == caller {
                Ok(())
            } else {
                Err(ResolverError::Unauthorized)
            },
            Ok(None) => if self.forward[name].owner == caller {
                Ok(())
            } else {
                Err(ResolverError::Unauthorized)
            },
        }
    }

    /// The verdict on a change to an existing record by the caller.
    pub open spec fn mutation_check(
        self,
        registry: &RegistryContract,
        name: Seq<char>,
        caller: Seq<char>,
        now: u64,
    ) -> Result<(), ResolverError> {
        if !self.forward.dom().contains(name) {
            Err(ResolverError::RecordNotFound)
        } else {
            self.owner_check(registry, name, caller, now)
        }
    }

    /// Whether wildcard fallback to this name is enabled.
    pub open spec fn wildcard_enabled(self, name: Seq<char>) -> bool {
        !self.wildcard.dom().contains(name) || self.wildcard[name]
    }

    /// The record a lookup of `name` finds starting at `current` after `hops` levels:
    /// its key and whether it was reached through a wildcard.
    pub open spec fn lookup_from(self, name: Seq<char>, current: Seq<char>, hops: int, max: int) -> Option<
        (Seq<char>, bool),
    >
        decreases max - hops,
    {
        if self.forward.dom().contains(current) {
            if current == name {
                Some((current, false))
            } else if self.wildcard_enabled(current) {
                Some((current, true))
            } else {
                None
            }
        } else if hops >= max {
            None
        } else {
            match spec_parent_name(current) {
                Some(p) => self.lookup_from(name, p, hops + 1, max),
                None => None,
            }
        }
    }

    /// The record a lookup of `name` finds, climbing at most `max` parent levels.
    pub open spec fn lookup(self, name: Seq<char>, max: int) -> Option<(Seq<char>, bool)> {
        if !valid_fqdn(name) {
            None
        } else {
            self.lookup_from(name, name, 0, max)
        }
    }

    /// Whether a reverse entry from `address` to `name` is still current: the record
    /// exists, its Stellar address is `address`, and, with a registry, the registry
    /// still reports the record's owner.
    pub open spec fn reverse_current(
        self,
        registry: &RegistryContract,
        name: Seq<char>,
        address: Seq<char>,
        now: u64,
    ) -> bool {
        &&& self.forward.dom().contains(name)
        &&& stellar_of(self.forward[name]) == Some(address)
        &&& (self.registry is None || (registry.spec_resolve(name, now as int) matches Ok(e)
            && e.owner@ == self.forward[name].owner))
    }

    /// The state after stale reverse and primary entries of `address` naming `name` are dropped.
    pub open spec fn cleanup(self, address: Seq<char>, name: Seq<char>) -> ResolverView {
        ResolverView {
            reverse: if self.reverse.dom().contains(address) && self.reverse[address] == name {
                self.reverse.remove(address)
            } else {
                self.reverse
            },
            primary: if self.primary.dom().contains(address) && self.primary[address] == name {
                self.primary.remove(address)
            } else {
                self.primary
            },
            ..self
        }
    }

    /// The outcome of a reverse lookup: the name found and the state after stale entries
    /// met on the way are dropped. The primary name is tried first, then the reverse entry.
    pub open spec fn reverse_result(self, registry: &RegistryContract, address: Seq<char>, now: u64) -> (
        Option<Seq<char>>,
        ResolverView,
    ) {
        if self.primary.dom().contains(address) && self.reverse_current(
            registry,
            self.primary[address],
            address,
            now,
        ) {
            (Some(self.primary[address]), self)
        } else {
            let v1 = if self.primary.dom().contains(address) {
                self.cleanup(address, self.primary[address])
            } else {
                self
            };
            if v1.reverse.dom().contains(address) && v1.reverse_current(
                registry,
                v1.reverse[address],
                address,
                now,
            ) {
                (Some(v1.reverse[address]), v1)
            } else if v1.reverse.dom().contains(address) {
                (None, v1.cleanup(address, v1.reverse[address]))
            } else {
                (None, v1)
            }
        }
    }

    /// Reverse lookups of several addresses, in order.
    pub open spec fn batch_reverse_result(
        self,
        registry: &RegistryContract,
        addresses: Seq<Seq<char>>,
        now: u64,
    ) -> (Seq<Option<Seq<char>>>, ResolverView)
        decreases addresses.len(),
    {
        if addresses.len() == 0 {
            (Seq::empty(), self)
        } else {
            let prev = self.batch_reverse_result(registry, addresses.drop_last(), now);
            let step = prev.1.reverse_result(registry, addresses.last(), now);
            (prev.0.push(step.0), step.1)
        }
    }
}

spec fn opt_seq(o: Option<String>) -> Option<Seq<char>> {
    match o {
        Some(s) => Some(s@),
        None => None,
    }
}

spec fn forward_view(m: Map<Seq<char>, ResolutionRecord>) -> Map<Seq<char>, RecordView> {
    Map::new(|k: Seq<char>| m.dom().contains(k), |k: Seq<char>| m[k].rv())
}

/// The resolver's state.
pub struct ResolverContract {
    forward: StrMap<ResolutionRecord>,
    reverse: StrMap<String>,
    primary: StrMap<String>,
    wildcard: StrMap<bool>,
    registry: Option<String>,
    subdomain_contract: Option<String>,
    admin: Option<String>,
    version: Option<u32>,
    events: Vec<ResolverEvent>,
}

/// The views of events, in order.
pub open spec fn event_views(events: Seq<ResolverEvent>) -> Seq<ResolverEventView> {
    events.map_values(|e: ResolverEvent| e@)
}

impl View for ResolverContract {
    type V = ResolverView;

    closed spec fn view(&self) -> ResolverView {
        ResolverView {
            forward: forward_view(self.forward@),
            reverse: sview(self.reverse@),
            primary: sview(self.primary@),
            wildcard: self.wildcard@,
            registry: opt_seq(self.registry),
            subdomain_contract: opt_seq(self.subdomain_contract),
            admin: opt_seq(self.admin),
            version: self.version,
            events: event_views(self.events@),
        }
    }
}

impl ResolverContract {
    /// Every stored record has finitely many text records.
    pub proof fn lemma_text_records_finite(&self, name: Seq<char>)
        ensures
            self@.forward.dom().contains(name) ==> self@.forward[name].text_records.dom().finite(),
    {
        if self.forward@.dom().contains(name) {
            let rec = self.forward@[name];
            rec.text_records.lemma_finite();
            assert(sview(rec.text_records@).dom() =~= rec.text_records@.dom());
        }
    }

    /// A resolver with no records and no configuration.
    pub fn new() -> (r: Self)
        ensures
            r@.forward == Map::<Seq<char>, RecordView>::empty(),
            r@.reverse == Map::<Seq<char>, Seq<char>>::empty(),
            r@.primary == Map::<Seq<char>, Seq<char>>::empty(),
            r@.wildcard == Map::<Seq<char>, bool>::empty(),
            r@.registry is None,
            r@.subdomain_contract is None,
            r@.admin is None,
            r@.version is None,
            r@.events == Seq::<ResolverEventView>::empty(),
    {
        let r = ResolverContract {
            forward: StrMap::new(),
            reverse: StrMap::new(),
            primary: StrMap::new(),
            wildcard: StrMap::new(),
            registry: None,
            subdomain_contract: None,
            admin: None,
            version: None,
            events: Vec::new(),
        };
        assert(r@.forward =~= Map::<Seq<char>, RecordView>::empty());
        assert(r@.events =~= Seq::<ResolverEventView>::empty());
        assert(r@.reverse =~= Map::<Seq<char>, Seq<char>>::empty());
        assert(r@.primary =~= Map::<Seq<char>, Seq<char>>::empty());
        r
    }

    /// The version this code implements.
    pub fn version(&self) -> (r: u32)
        ensures
            r == CONTRACT_VERSION,
    {
        CONTRACT_VERSION
    }

    /// Connects the resolver to its registry and sets its admin, once.
    pub fn initialize(&mut self, registry: String, admin: String) -> (r: Result<(), ResolverError>)
        ensures
            old(self)@.registry is Some ==> r == Err::<(), ResolverError>(ResolverError::Unauthorized)
                && final(self)@ == old(self)@,
            old(self)@.registry is None ==> r is Ok && final(self)@ == (ResolverView {
                registry: Some(registry@),
                admin: Some(admin@),
                version: Some(CONTRACT_VERSION),
                ..old(self)@
            }),
    {
        if self.registry.is_some() {
            return Err(ResolverError::Unauthorized);
        }
        let ghost v0 = self@;
        self.registry = Some(registry);
        self.admin = Some(admin);
        self.version = Some(CONTRACT_VERSION);
        assert(self@ =~= ResolverView {
            registry: Some(registry@),
            admin: Some(admin@),
            version: Some(CONTRACT_VERSION),
            ..v0
        });
        Ok(())
    }

    /// Names the subdomain contract whose depth limit bounds wildcard lookups (admin only).
    pub fn set_subdomain_contract(&mut self, subdomain_contract: String) -> (r: Result<(), ResolverError>)
        ensures
            old(self)@.admin is None ==> r == Err::<(), ResolverError>(ResolverError::NotInitialized)
                && final(self)@ == old(self)@,
            old(self)@.admin is Some ==> r is Ok && final(self)@ == (ResolverView {
                subdomain_contract: Some(subdomain_contract@),
                ..old(self)@
            }),
    {
        if self.admin.is_none() {
            return Err(ResolverError::NotInitialized);
        }
        let ghost v0 = self@;
        self.subdomain_contract = Some(subdomain_contract);
        assert(self@ =~= ResolverView { subdomain_contract: Some(subdomain_contract@), ..v0 });
        Ok(())
    }

    /// The stored version, or the code's version when none is stored.
    pub fn get_version(&self) -> (r: u32)
        ensures
            r == match self@.version {
                Some(v) => v,
                None => CONTRACT_VERSION,
            },
    {
        match self.version {
            Some(v) => v,
            None => CONTRACT_VERSION,
        }
    }

    /// Moves the stored version to the one named by the migration data (admin only).
    pub fn upgrade(&mut self, migration_data: &Vec<u8>) -> (r: Result<(), ResolverError>)
        ensures
            old(self)@.admin is None ==> r == Err::<(), ResolverError>(ResolverError::UpgradeFailed)
                && final(self)@ == old(self)@,
            old(self)@.admin is Some ==> r is Ok && final(self)@ == (ResolverView {
                version: Some(spec_target_version(migration_data@)),
                events: old(self)@.events.push(
                    ResolverEventView::ContractUpgraded {
                        old_version: match old(self)@.version {
                            Some(v) => v,
                            None => CONTRACT_VERSION,
                        },
                        new_version: spec_target_version(migration_data@),
                        admin: old(self)@.admin->0,
                    },
                ),
                ..old(self)@
            }),
    {
        if self.admin.is_none() {
            return Err(ResolverError::UpgradeFailed);
        }
        let ghost v0 = self@;
        let old_version = self.get_version();
        let new_version = decode_target_version(migration_data);
        let admin = self.admin.clone().unwrap();
        self.version = Some(new_version);
        assert(self@ =~= ResolverView { version: Some(spec_target_version(migration_data@)), ..v0 });
        self.emit(ResolverEvent::ContractUpgraded { old_version, new_version, admin });
        Ok(())
    }

    fn emit(&mut self, e: ResolverEvent)
        ensures
            final(self)@ == (ResolverView { events: old(self)@.events.push(e@), ..old(self)@ }),
    {
        let ghost v0 = self@;
        let ghost e0 = self.events@;
        self.events.push(e);
        assert(event_views(self.events@) =~= event_views(e0).push(e@));
        assert(self@ =~= ResolverView { events: v0.events.push(e@), ..v0 });
    }

    /// Every event announced so far, oldest first.
    pub fn events(&self) -> (r: &Vec<ResolverEvent>)
        ensures
            event_views(r@) == self@.events,
    {
        &self.events
    }

    fn registry_owner(&self, registry: &RegistryContract, name: &String, now_unix: u64) -> (r: Result<
        Option<String>,
        ResolverError,
    >)
        ensures
            match r {
                Ok(Some(o)) => self@.registry_owner(registry, name@, now_unix) == Ok::<
                    Option<Seq<char>>,
                    ResolverError,
                >(Some(o@)),
                Ok(None) => self@.registry_owner(registry, name@, now_unix) == Ok::<
                    Option<Seq<char>>,
                    ResolverError,
                >(None),
                Err(e) => self@.registry_owner(registry, name@, now_unix) == Err::<
                    Option<Seq<char>>,
                    ResolverError,
                >(e),
            },
    {
        if self.registry.is_none() {
            return Ok(None);
        }
        match registry.resolve(name, now_unix) {
            Ok(entry) => Ok(Some(entry.owner)),
            Err(e) => Err(ResolverError::Registry(e)),
        }
    }

    fn assert_owner(&self, registry: &RegistryContract, name: &String, caller: &String, now_unix: u64) -> (r:
        Result<(), ResolverError>)
        requires
            self@.forward.dom().contains(name@),
        ensures
            r == self@.owner_check(registry, name@, caller@, now_unix),
    {
        match self.registry_owner(registry, name, now_unix) {
            Err(e) => Err(e),
            Ok(Some(o)) => {
                if same_str(&o, caller) {
                    Ok(())
                } else {
                    Err(ResolverError::Unauthorized)
                }
            },
            Ok(None) => {
                let rec = self.forward.get(name).unwrap();
                if same_str(&rec.owner, caller) {
                    Ok(())
                } else {
                    Err(ResolverError::Unauthorized)
                }
            },
        }
    }

    fn take_record(&mut self, name: &String) -> (r: ResolutionRecord)
        requires
            old(self)@.forward.dom().contains(name@),
        ensures
            r.rv() == old(self)@.forward[name@],
            final(self)@ == (ResolverView { forward: old(self)@.forward.remove(name@), ..old(self)@ }),
    {
        let ghost v0 = self@;
        let r = self.forward.remove(name).unwrap();
        assert(self@ =~= ResolverView { forward: v0.forward.remove(name@), ..v0 });
        r
    }

    fn put_record(&mut self, name: &String, rec: ResolutionRecord)
        ensures
            final(self)@ == (ResolverView { forward: old(self)@.forward.insert(name@, rec.rv()), ..old(self)@ }),
    {
        let ghost v0 = self@;
        let ghost rv = rec.rv();
        self.forward.insert(name.clone(), rec);
        assert(self@ =~= ResolverView { forward: v0.forward.insert(name@, rv), ..v0 });
    }

    /// Moves the Stellar reverse mapping of `name` from `old` (if any) to `new`.
    fn move_stellar(&mut self, prev: &Option<String>, new: &String, name: &String)
        ensures
            final(self)@ == ({
                let (rv, pv) = move_stellar(
                    old(self)@.reverse,
                    old(self)@.primary,
                    match prev {
                        Some(o) => Some(o@),
                        None => None,
                    },
                    new@,
                    name@,
                );
                ResolverView { reverse: rv, primary: pv, ..old(self)@ }
            }),
    {
        let ghost v0 = self@;
        let ghost r0 = self.reverse@;
        let ghost p0 = self.primary@;
        match prev {
            Some(o) => {
                if !same_str(o, new) {
                    let _ = self.reverse.remove(o);
                    let _ = self.primary.remove(o);
                    proof {
                        lemma_sview_remove(r0, o@);
                        lemma_sview_remove(p0, o@);
                    }
                }
            },
            None => {},
        }
        let ghost r1 = self.reverse@;
        self.reverse.insert(new.clone(), name.clone());
        proof {
            lemma_sview_insert(r1, new@, *name);
        }
        assert(self@ =~= ({
            let (rv, pv) = move_stellar(
                v0.reverse,
                v0.primary,
                match prev {
                    Some(o) => Some(o@),
                    None => None,
                },
                new@,
                name@,
            );
            ResolverView { reverse: rv, primary: pv, ..v0 }
        }));
    }

    fn stellar_address(rec: &ResolutionRecord, chain: &String) -> (r: Option<String>)
        requires
            chain@ == default_chain(),
        ensures
            match r {
                Some(a) => stellar_of(rec.rv()) == Some(a@),
                None => stellar_of(rec.rv()) is None,
            },
    {
        match rec.addresses.get(chain) {
            Some(a) => Some(a.clone()),
            None => None,
        }
    }

    /// The verdict on `set_record`.
    pub open spec fn set_record_check(
        v: ResolverView,
        registry: &RegistryContract,
        name: Seq<char>,
        owner: Seq<char>,
        now: u64,
    ) -> Result<(), ResolverError> {
        if !valid_fqdn(name) {
            Err(ResolverError::Validation)
        } else {
            match v.registry_owner(registry, name, now) {
                Err(e) => Err(e),
                Ok(Some(o)) => if o != owner {
                    Err(ResolverError::Unauthorized)
                } else {
                    Ok(())
                },
                Ok(None) => if v.forward.dom().contains(name) && v.forward[name].owner != owner {
                    Err(ResolverError::Unauthorized)
                } else {
                    Ok(())
                },
            }
        }
    }

    /// The state after a successful `set_record`.
    pub open spec fn set_record_result(
        v: ResolverView,
        name: Seq<char>,
        owner: Seq<char>,
        address: Seq<char>,
        now: u64,
    ) -> ResolverView {
        let has = v.forward.dom().contains(name);
        let prev = if has {
            stellar_of(v.forward[name])
        } else {
            None
        };
        let (rv, pv) = move_stellar(v.reverse, v.primary, prev, address, name);
        let addresses = if has {
            v.forward[name].addresses
        } else {
            Map::empty()
        };
        let texts = if has {
            v.forward[name].text_records
        } else {
            Map::empty()
        };
        ResolverView {
            forward: v.forward.insert(
                name,
                RecordView {
                    owner: owner,
                    addresses: addresses.insert(default_chain(), address),
                    text_records: texts,
                    updated_at: now,
                    is_wildcard: false,
                },
            ),
            reverse: rv,
            primary: pv,
            events: v.events.push(
                ResolverEventView::ForwardUpdated {
                    name: name,
                    address: address,
                    chain: default_chain(),
                    updated_at: now,
                },
            ).push(ResolverEventView::ReverseUpdated { address: address, name: name }),
            ..v
        }
    }

    /// Points a name at a Stellar address and the address back at the name, creating
    /// the record or keeping its other addresses and text records.
    pub fn set_record(
        &mut self,
        registry: &RegistryContract,
        name: &String,
        owner: &String,
        address: &String,
        now_unix: u64,
    ) -> (r: Result<(), ResolverError>)
        ensures
            r == Self::set_record_check(old(self)@, registry, name@, owner@, now_unix),
            r is Err ==> final(self)@ == old(self)@,
            r is Ok ==> final(self)@ == Self::set_record_result(old(self)@, name@, owner@, address@, now_unix),
    {
        let ghost v0 = self@;
        if !validate_fqdn(name) {
            return Err(ResolverError::Validation);
        }
        match self.registry_owner(registry, name, now_unix) {
            Err(e) => {
                return Err(e);
            },
            Ok(Some(o)) => {
                if !same_str(&o, owner) {
                    return Err(ResolverError::Unauthorized);
                }
            },
            Ok(None) => {
                match self.forward.get(name) {
                    Some(existing) => {
                        if !same_str(&existing.owner, owner) {
                            return Err(ResolverError::Unauthorized);
                        }
                    },
                    None => {},
                }
            },
        }
        let chain = default_chain_string();
        let (mut addresses, texts, prev) = if self.forward.contains_key(name) {
            let rec = self.take_record(name);
            let prev = Self::stellar_address(&rec, &chain);
            (rec.addresses, rec.text_records, prev)
        } else {
            let a: StrMap<String> = StrMap::new();
            let t: StrMap<String> = StrMap::new();
            (a, t, None)
        };
        self.move_stellar(&prev, address, name);
        let ghost a0 = addresses@;
        addresses.insert(chain, address.clone());
        proof {
            lemma_sview_insert(a0, default_chain(), *address);
        }
        let rec = ResolutionRecord {
            owner: owner.clone(),
            addresses,
            text_records: texts,
            updated_at: now_unix,
            is_wildcard: false,
        };
        self.put_record(name, rec);
        proof {
            assert(sview(Map::<Seq<char>, String>::empty()) =~= Map::<Seq<char>, Seq<char>>::empty());
        }
        self.emit(
            ResolverEvent::ForwardUpdated {
                name: name.clone(),
                address: address.clone(),
                chain: default_chain_string(),
                updated_at: now_unix,
            },
        );
        self.emit(ResolverEvent::ReverseUpdated { address: address.clone(), name: name.clone() });
        assert(self@ =~= Self::set_record_result(v0, name@, owner@, address@, now_unix));
        Ok(())
    }

    /// Sets the address of a name on one chain (owner only); a Stellar address also
    /// moves the reverse mapping.
    pub fn set_address(
        &mut self,
        registry: &RegistryContract,
        name: &String,
        caller: &String,
        chain: &String,
        address: &String,
        now_unix: u64,
    ) -> (r: Result<(), ResolverError>)
        ensures
            r == old(self)@.mutation_check(registry, name@, caller@, now_unix),
            r is Err ==> final(self)@ == old(self)@,
            r is Ok ==> final(self)@ == ({
                let v = old(self)@;
                let rec = v.forward[name@];
                let (rv, pv) = if chain@ == default_chain() {
                    move_stellar(v.reverse, v.primary, stellar_of(rec), address@, name@)
                } else {
                    (v.reverse, v.primary)
                };
                ResolverView {
                    forward: v.forward.insert(
                        name@,
                        RecordView {
                            addresses: rec.addresses.insert(chain@, address@),
                            updated_at: now_unix,
                            ..rec
                        },
                    ),
                    reverse: rv,
                    primary: pv,
                    events: if chain@ == default_chain() {
                        v.events.push(ResolverEventView::ReverseUpdated { address: address@, name: name@ })
                    } else {
                        v.events
                    }.push(
                        ResolverEventView::ForwardUpdated {
                            name: name@,
                            address: address@,
                            chain: chain@,
                            updated_at: now_unix,
                        },
                    ),
                    ..v
                }
            }),
    {
        let ghost v0 = self@;
        if !self.forward.contains_key(name) {
            return Err(ResolverError::RecordNotFound);
        }
        match self.assert_owner(registry, name, caller, now_unix) {
            Err(e) => {
                return Err(e);
            },
            Ok(()) => {},
        }
        let mut rec = self.take_record(name);
        let stellar = default_chain_string();
        if same_str(chain, &stellar) {
            let prev = Self::stellar_address(&rec, &stellar);
            self.move_stellar(&prev, address, name);
            self.emit(ResolverEvent::ReverseUpdated { address: address.clone(), name: name.clone() });
        }
        let ghost a0 = rec.addresses@;
        rec.addresses.insert(chain.clone(), address.clone());
        proof {
            lemma_sview_insert(a0, chain@, *address);
        }
        rec.updated_at = now_unix;
        self.put_record(name, rec);
        self.emit(
            ResolverEvent::ForwardUpdated {
                name: name.clone(),
                address: address.clone(),
                chain: chain.clone(),
                updated_at: now_unix,
            },
        );
        assert(self@ =~= ({
            let rec0 = v0.forward[name@];
            let (rv, pv) = if chain@ == default_chain() {
                move_stellar(v0.reverse, v0.primary, stellar_of(rec0), address@, name@)
            } else {
                (v0.reverse, v0.primary)
            };
            ResolverView {
                forward: v0.forward.insert(
                    name@,
                    RecordView {
                        addresses: rec0.addresses.insert(chain@, address@),
                        updated_at: now_unix,
                        ..rec0
                    },
                ),
                reverse: rv,
                primary: pv,
                events: if chain@ == default_chain() {
                    v0.events.push(ResolverEventView::ReverseUpdated { address: address@, name: name@ })
                } else {
                    v0.events
                }.push(
                    ResolverEventView::ForwardUpdated {
                        name: name@,
                        address: address@,
                        chain: chain@,
                        updated_at: now_unix,
                    },
                ),
                ..v0
            }
        }));
        Ok(())
    }

    /// The address of a name on one chain.
    pub fn get_address(&self, name: &String, chain: &String) -> (r: Option<String>)
        ensures
            r is Some == (self@.forward.dom().contains(name@)
                && self@.forward[name@].addresses.dom().contains(chain@)),
            r matches Some(a) ==> a@ == self@.forward[name@].addresses[chain@],
    {
        match self.forward.get(name) {
            Some(rec) => match rec.addresses.get(chain) {
                Some(a) => Some(a.clone()),
                None => None,
            },
            None => None,
        }
    }

    /// The verdict on `set_text_record`.
    pub open spec fn text_check(
        v: ResolverView,
        registry: &RegistryContract,
        name: Seq<char>,
        caller: Seq<char>,
        key: Seq<char>,
        value: Seq<char>,
        now: u64,
    ) -> Result<(), ResolverError> {
        if !valid_text_record_key(key) {
            Err(ResolverError::InvalidKey)
        } else if byte_len(value) > MAX_TEXT_RECORD_VALUE_LENGTH {
            Err(ResolverError::TextRecordValueTooLong)
        } else if v.mutation_check(registry, name, caller, now) is Err {
            v.mutation_check(registry, name, caller, now)
        } else if !v.forward[name].text_records.dom().contains(key)
            && v.forward[name].text_records.len() >= MAX_TEXT_RECORDS {
            Err(ResolverError::TooManyTextRecords)
        } else {
            Ok(())
        }
    }

    /// Sets a text record of a name (owner only), up to the per-record limit.
    pub fn set_text_record(
        &mut self,
        registry: &RegistryContract,
        name: &String,
        caller: &String,
        key: &String,
        value: &String,
        now_unix: u64,
    ) -> (r: Result<(), ResolverError>)
        ensures
            r == Self::text_check(old(self)@, registry, name@, caller@, key@, value@, now_unix),
            r is Err ==> final(self)@ == old(self)@,
            r is Ok ==> final(self)@ == ({
                let v = old(self)@;
                let rec = v.forward[name@];
                ResolverView {
                    forward: v.forward.insert(
                        name@,
                        RecordView {
                            text_records: rec.text_records.insert(key@, value@),
                            updated_at: now_unix,
                            ..rec
                        },
                    ),
                    events: v.events.push(
                        ResolverEventView::TextRecordUpdated {
                            name: name@,
                            key: key@,
                            value: value@,
                            updated_at: now_unix,
                        },
                    ),
                    ..v
                }
            }),
    {
        let ghost v0 = self@;
        if !validate_text_record_key(key) {
            return Err(ResolverError::InvalidKey);
        }
        if str_byte_len(value) > MAX_TEXT_RECORD_VALUE_LENGTH {
            return Err(ResolverError::TextRecordValueTooLong);
        }
        if !self.forward.contains_key(name) {
            return Err(ResolverError::RecordNotFound);
        }
        match self.assert_owner(registry, name, caller, now_unix) {
            Err(e) => {
                return Err(e);
            },
            Ok(()) => {},
        }
        let full = match self.forward.get(name) {
            Some(rec) => {
                proof {
                    assert(sview(rec.text_records@).dom() =~= rec.text_records@.dom());
                }
                !rec.text_records.contains_key(key) && rec.text_records.len() >= MAX_TEXT_RECORDS
            },
            None => false,
        };
        if full {
            return Err(ResolverError::TooManyTextRecords);
        }
        let mut rec = self.take_record(name);
        let ghost t0 = rec.text_records@;
        rec.text_records.insert(key.clone(), value.clone());
        proof {
            lemma_sview_insert(t0, key@, *value);
        }
        rec.updated_at = now_unix;
        self.put_record(name, rec);
        self.emit(
            ResolverEvent::TextRecordUpdated {
                name: name.clone(),
                key: key.clone(),
                value: value.clone(),
                updated_at: now_unix,
            },
        );
        assert(self@ =~= ({
            let rec0 = v0.forward[name@];
            ResolverView {
                forward: v0.forward.insert(
                    name@,
                    RecordView {
                        text_records: rec0.text_records.insert(key@, value@),
                        updated_at: now_unix,
                        ..rec0
                    },
                ),
                events: v0.events.push(
                    ResolverEventView::TextRecordUpdated {
                        name: name@,
                        key: key@,
                        value: value@,
                        updated_at: now_unix,
                    },
                ),
                ..v0
            }
        }));
        Ok(())
    }

    /// Makes a name the primary name of its own Stellar address (owner only).
    pub fn set_primary_name(
        &mut self,
        registry: &RegistryContract,
        address: &String,
        caller: &String,
        name: &String,
    ) -> (r: Result<(), ResolverError>)
        ensures
            ({
                let v = old(self)@;
                &&& v.mutation_check(registry, name@, caller@, 0) is Err ==> r == v.mutation_check(
                    registry,
                    name@,
                    caller@,
                    0,
                )
                &&& v.mutation_check(registry, name@, caller@, 0) is Ok && stellar_of(v.forward[name@])
                    != Some(address@) ==> r == Err::<(), ResolverError>(ResolverError::Unauthorized)
                &&& r is Err ==> final(self)@ == v
                &&& v.mutation_check(registry, name@, caller@, 0) is Ok && stellar_of(v.forward[name@])
                    == Some(address@) ==> r is Ok && final(self)@ == (ResolverView {
                    primary: v.primary.insert(address@, name@),
                    events: v.events.push(ResolverEventView::PrimaryNameSet { address: address@, name: name@ }),
                    ..v
                })
            }),
    {
        let ghost v0 = self@;
        if !self.forward.contains_key(name) {
            return Err(ResolverError::RecordNotFound);
        }
        match self.assert_owner(registry, name, caller, 0) {
            Err(e) => {
                return Err(e);
            },
            Ok(()) => {},
        }
        let chain = default_chain_string();
        let matches = match self.forward.get(name) {
            Some(rec) => match Self::stellar_address(rec, &chain) {
                Some(a) => same_str(&a, address),
                None => false,
            },
            None => false,
        };
        if !matches {
            return Err(ResolverError::Unauthorized);
        }
        let ghost p0 = self.primary@;
        self.primary.insert(address.clone(), name.clone());
        proof {
            lemma_sview_insert(p0, address@, *name);
        }
        assert(self@ =~= ResolverView { primary: v0.primary.insert(address@, name@), ..v0 });
        self.emit(ResolverEvent::PrimaryNameSet { address: address.clone(), name: name.clone() });
        Ok(())
    }

    /// Removes a name's record (owner only) with its wildcard switch and the reverse
    /// and primary entries of its Stellar address.
    pub fn remove_record(&mut self, registry: &RegistryContract, name: &String, caller: &String) -> (r: Result<
        (),
        ResolverError,
    >)
        ensures
            r == old(self)@.mutation_check(registry, name@, caller@, 0),
            r is Err ==> final(self)@ == old(self)@,
            r is Ok ==> final(self)@ == ({
                let v = old(self)@;
                let (rv, pv) = match stellar_of(v.forward[name@]) {
                    Some(a) => (v.reverse.remove(a), v.primary.remove(a)),
                    None => (v.reverse, v.primary),
                };
                ResolverView {
                    forward: v.forward.remove(name@),
                    wildcard: v.wildcard.remove(name@),
                    reverse: rv,
                    primary: pv,
                    events: v.events.push(
                        ResolverEventView::RecordRemoved { name: name@, former_address: stellar_of(v.forward[name@]) },
                    ),
                    ..v
                }
            }),
    {
        let ghost v0 = self@;
        if !self.forward.contains_key(name) {
            return Err(ResolverError::RecordNotFound);
        }
        match self.assert_owner(registry, name, caller, 0) {
            Err(e) => {
                return Err(e);
            },
            Ok(()) => {},
        }
        let chain = default_chain_string();
        let rec = self.take_record(name);
        let ghost r0 = self.reverse@;
        let ghost p0 = self.primary@;
        let former_address = Self::stellar_address(&rec, &chain);
        match Self::stellar_address(&rec, &chain) {
            Some(a) => {
                let _ = self.reverse.remove(&a);
                let _ = self.primary.remove(&a);
                proof {
                    lemma_sview_remove(r0, a@);
                    lemma_sview_remove(p0, a@);
                }
            },
            None => {},
        }
        let _ = self.wildcard.remove(name);
        let ghost v1 = self@;
        self.emit(ResolverEvent::RecordRemoved { name: name.clone(), former_address });
        assert(self@ =~= ({
            let (rv, pv) = match stellar_of(v0.forward[name@]) {
                Some(a) => (v0.reverse.remove(a), v0.primary.remove(a)),
                None => (v0.reverse, v0.primary),
            };
            ResolverView {
                forward: v0.forward.remove(name@),
                wildcard: v0.wildcard.remove(name@),
                reverse: rv,
                primary: pv,
                events: v0.events.push(
                    ResolverEventView::RecordRemoved { name: name@, former_address: stellar_of(v0.forward[name@]) },
                ),
                ..v0
            }
        }));
        Ok(())
    }

    fn drop_if_names(map: &mut StrMap<String>, address: &String, name: &String)
        ensures
            sview(final(map)@) == if sview(old(map)@).dom().contains(address@) && sview(old(map)@)[address@]
                == name@ {
                sview(old(map)@).remove(address@)
            } else {
                sview(old(map)@)
            },
    {
        let ghost m0 = map@;
        let hit = match map.get(address) {
            Some(n) => same_str(n, name),
            None => false,
        };
        if hit {
            let _ = map.remove(address);
            proof {
                lemma_sview_remove(m0, address@);
            }
        }
    }

    fn cleanup_stale_reverse(&mut self, address: &String, name: &String)
        ensures
            final(self)@ == old(self)@.cleanup(address@, name@),
    {
        let ghost v0 = self@;
        Self::drop_if_names(&mut self.reverse, address, name);
        Self::drop_if_names(&mut self.primary, address, name);
        assert(self@ =~= v0.cleanup(address@, name@));
    }

    /// Drops the reverse and primary entries of the previous owner that still name the
    /// record; the registry calls this after a transfer.
    pub fn clear_reverse_record(&mut self, name: &String, previous_owner: &String)
        requires
            old(self)@.registry is Some,
        ensures
            final(self)@ == old(self)@.cleanup(previous_owner@, name@),
    {
        self.cleanup_stale_reverse(previous_owner, name);
    }

    /// Hands the record to a new owner (current owner only).
    pub fn update_owner(
        &mut self,
        registry: &RegistryContract,
        name: &String,
        caller: &String,
        new_owner: &String,
    ) -> (r: Result<(), ResolverError>)
        ensures
            r == old(self)@.mutation_check(registry, name@, caller@, 0),
            r is Err ==> final(self)@ == old(self)@,
            r is Ok ==> final(self)@ == (ResolverView {
                forward: old(self)@.forward.insert(
                    name@,
                    RecordView { owner: new_owner@, ..old(self)@.forward[name@] },
                ),
                ..old(self)@
            }),
    {
        let ghost v0 = self@;
        if !self.forward.contains_key(name) {
            return Err(ResolverError::RecordNotFound);
        }
        match self.assert_owner(registry, name, caller, 0) {
            Err(e) => {
                return Err(e);
            },
            Ok(()) => {},
        }
        let mut rec = self.take_record(name);
        rec.owner = new_owner.clone();
        self.put_record(name, rec);
        assert(self@ =~= ResolverView {
            forward: v0.forward.insert(name@, RecordView { owner: new_owner@, ..v0.forward[name@] }),
            ..v0
        });
        Ok(())
    }

    /// Hands the record to a new owner, checked against the record's own owner only.
    pub fn transfer_record_owner(&mut self, name: &String, caller: &String, new_owner: &String) -> (r: Result<
        (),
        ResolverError,
    >)
        ensures
            !old(self)@.forward.dom().contains(name@) ==> r == Err::<(), ResolverError>(
                ResolverError::RecordNotFound,
            ),
            old(self)@.forward.dom().contains(name@) && old(self)@.forward[name@].owner != caller@
                ==> r == Err::<(), ResolverError>(ResolverError::Unauthorized),
            r is Err ==> final(self)@ == old(self)@,
            old(self)@.forward.dom().contains(name@) && old(self)@.forward[name@].owner == caller@
                ==> r is Ok && final(self)@ == (ResolverView {
                forward: old(self)@.forward.insert(
                    name@,
                    RecordView { owner: new_owner@, ..old(self)@.forward[name@] },
                ),
                ..old(self)@
            }),
    {
        let ghost v0 = self@;
        let is_owner = match self.forward.get(name) {
            Some(rec) => same_str(&rec.owner, caller),
            None => {
                return Err(ResolverError::RecordNotFound);
            },
        };
        if !is_owner {
            return Err(ResolverError::Unauthorized);
        }
        let mut rec = self.take_record(name);
        rec.owner = new_owner.clone();
        self.put_record(name, rec);
        assert(self@ =~= ResolverView {
            forward: v0.forward.insert(name@, RecordView { owner: new_owner@, ..v0.forward[name@] }),
            ..v0
        });
        Ok(())
    }

    /// Whether a name has its own record.
    pub fn has_record(&self, name: &String) -> (r: bool)
        ensures
            r == self@.forward.dom().contains(name@),
    {
        self.forward.contains_key(name)
    }

    /// Turns wildcard fallback to this name on or off (owner only).
    pub fn set_wildcard_resolution(
        &mut self,
        registry: &RegistryContract,
        name: &String,
        caller: &String,
        enabled: bool,
        now_unix: u64,
    ) -> (r: Result<(), ResolverError>)
        ensures
            !valid_fqdn(name@) ==> r == Err::<(), ResolverError>(ResolverError::Validation),
            valid_fqdn(name@) ==> r == old(self)@.mutation_check(registry, name@, caller@, now_unix),
            r is Err ==> final(self)@ == old(self)@,
            r is Ok ==> final(self)@ == (ResolverView {
                wildcard: old(self)@.wildcard.insert(name@, enabled),
                ..old(self)@
            }),
    {
        let ghost v0 = self@;
        if !validate_fqdn(name) {
            return Err(ResolverError::Validation);
        }
        if !self.forward.contains_key(name) {
            return Err(ResolverError::RecordNotFound);
        }
        match self.assert_owner(registry, name, caller, now_unix) {
            Err(e) => {
                return Err(e);
            },
            Ok(()) => {},
        }
        self.wildcard.insert(name.clone(), enabled);
        assert(self@ =~= ResolverView { wildcard: v0.wildcard.insert(name@, enabled), ..v0 });
        Ok(())
    }

    /// Parent levels a wildcard lookup may climb: the subdomain contract's depth limit
    /// when one is configured and reachable, otherwise the default.
    pub open spec fn fallback_depth(v: ResolverView, subdomains: Option<&SubdomainContract>) -> u32 {
        if v.subdomain_contract is None {
            DEFAULT_FALLBACK_DEPTH
        } else {
            match subdomains {
                Some(sc) => sc@.max_depth,
                None => DEFAULT_FALLBACK_DEPTH,
            }
        }
    }

    /// What `resolve` returns, as mathematical values.
    pub open spec fn resolve_spec(v: ResolverView, name: Seq<char>, max: u32) -> Option<RecordView> {
        match v.lookup(name, max as int) {
            Some((k, w)) => Some(RecordView { is_wildcard: w, ..v.forward[k] }),
            None => None,
        }
    }

    /// Parent levels a wildcard lookup may climb.
    pub fn fallback_depth_limit(&self, subdomains: Option<&SubdomainContract>) -> (r: u32)
        ensures
            r == Self::fallback_depth(self@, subdomains),
    {
        if self.subdomain_contract.is_none() {
            return DEFAULT_FALLBACK_DEPTH;
        }
        match subdomains {
            Some(sc) => sc.max_depth(),
            None => DEFAULT_FALLBACK_DEPTH,
        }
    }

    fn wildcard_enabled(&self, name: &String) -> (r: bool)
        ensures
            r == self@.wildcard_enabled(name@),
    {
        match self.wildcard.get(name) {
            Some(b) => *b,
            None => true,
        }
    }

    /// The record of a name, or, when it has none, the record of the nearest parent
    /// (within the depth limit) whose wildcard is enabled, marked as a wildcard match.
    pub fn resolve(&self, name: &String, subdomains: Option<&SubdomainContract>) -> (r: Option<ResolutionRecord>)
        ensures
            match r {
                Some(rec) => Self::resolve_spec(self@, name@, Self::fallback_depth(self@, subdomains))
                    == Some(rec.rv()),
                None => Self::resolve_spec(self@, name@, Self::fallback_depth(self@, subdomains)) is None,
            },
    {
        if !validate_fqdn(name) {
            return None;
        }
        let max = self.fallback_depth_limit(subdomains);
        let mut current = name.clone();
        let mut hops: u32 = 0;
        loop
            invariant
                valid_fqdn(name@),
                max == Self::fallback_depth(self@, subdomains),
                hops <= max,
                self@.lookup(name@, max as int) == self@.lookup_from(
                    name@,
                    current@,
                    hops as int,
                    max as int,
                ),
            decreases max - hops,
        {
            match self.forward.get(&current) {
                Some(rec) => {
                    if same_str(&current, name) {
                        let mut out = rec.copy();
                        out.is_wildcard = false;
                        return Some(out);
                    } else if self.wildcard_enabled(&current) {
                        let mut out = rec.copy();
                        out.is_wildcard = true;
                        return Some(out);
                    } else {
                        return None;
                    }
                },
                None => {},
            }
            if hops >= max {
                return None;
            }
            match parent_name(&current) {
                Some(p) => {
                    current = p;
                    hops = hops + 1;
                },
                None => {
                    return None;
                },
            }
        }
    }

    /// The Stellar address a name resolves to.
    pub fn get_stellar_address(&self, name: &String, subdomains: Option<&SubdomainContract>) -> (r: Option<
        String,
    >)
        ensures
            match Self::resolve_spec(self@, name@, Self::fallback_depth(self@, subdomains)) {
                Some(rv) => match r {
                    Some(a) => stellar_of(rv) == Some(a@),
                    None => stellar_of(rv) is None,
                },
                None => r is None,
            },
    {
        let chain = default_chain_string();
        match self.resolve(name, subdomains) {
            Some(rec) => Self::stellar_address(&rec, &chain),
            None => None,
        }
    }

    /// Resolves several names.
    pub fn batch_resolve(&self, names: &Vec<String>, subdomains: Option<&SubdomainContract>) -> (r: Vec<
        Option<ResolutionRecord>,
    >)
        ensures
            r@.len() == names@.len(),
            forall|i: int|
                0 <= i < names@.len() ==> match #[trigger] r@[i] {
                    Some(rec) => Self::resolve_spec(
                        self@,
                        names@[i]@,
                        Self::fallback_depth(self@, subdomains),
                    ) == Some(rec.rv()),
                    None => Self::resolve_spec(
                        self@,
                        names@[i]@,
                        Self::fallback_depth(self@, subdomains),
                    ) is None,
                },
    {
        let mut out: Vec<Option<ResolutionRecord>> = Vec::new();
        let mut i: usize = 0;
        while i < names.len()
            invariant
                i <= names@.len(),
                out@.len() == i,
                forall|j: int|
                    0 <= j < i ==> match #[trigger] out@[j] {
                        Some(rec) => Self::resolve_spec(
                            self@,
                            names@[j]@,
                            Self::fallback_depth(self@, subdomains),
                        ) == Some(rec.rv()),
                        None => Self::resolve_spec(
                            self@,
                            names@[j]@,
                            Self::fallback_depth(self@, subdomains),
                        ) is None,
                    },
            decreases names@.len() - i,
        {
            let r = self.resolve(&names[i], subdomains);
            out.push(r);
            i = i + 1;
        }
        out
    }

    fn reverse_current(&self, registry: &RegistryContract, name: &String, address: &String, now_unix: u64) -> (r:
        bool)
        ensures
            r == self@.reverse_current(registry, name@, address@, now_unix),
    {
        let chain = default_chain_string();
        let owner = match self.forward.get(name) {
            None => {
                return false;
            },
            Some(rec) => {
                match Self::stellar_address(rec, &chain) {
                    Some(a) => {
                        if !same_str(&a, address) {
                            return false;
                        }
                    },
                    None => {
                        return false;
                    },
                }
                rec.owner.clone()
            },
        };
        if self.registry.is_none() {
            return true;
        }
        match registry.resolve(name, now_unix) {
            Ok(entry) => same_str(&entry.owner, &owner),
            Err(_) => false,
        }
    }

    fn lookup_name(map: &StrMap<String>, address: &String) -> (r: Option<String>)
        ensures
            match r {
                Some(n) => sview(map@).dom().contains(address@) && sview(map@)[address@] == n@,
                None => !sview(map@).dom().contains(address@),
            },
    {
        match map.get(address) {
            Some(n) => Some(n.clone()),
            None => None,
        }
    }

    /// The name an address resolves back to: its primary name, else its reverse entry,
    /// each only while the name's record still carries the address (and, with a
    /// registry, still has the registry's owner). Stale entries met on the way are dropped.
    pub fn reverse(&mut self, registry: &RegistryContract, address: &String, now_unix: u64) -> (r: Option<String>)
        ensures
            match r {
                Some(n) => old(self)@.reverse_result(registry, address@, now_unix).0 == Some(n@),
                None => old(self)@.reverse_result(registry, address@, now_unix).0 is None,
            },
            final(self)@ == old(self)@.reverse_result(registry, address@, now_unix).1,
    {
        match Self::lookup_name(&self.primary, address) {
            Some(name) => {
                if self.reverse_current(registry, &name, address, now_unix) {
                    return Some(name);
                }
                self.cleanup_stale_reverse(address, &name);
            },
            None => {},
        }
        match Self::lookup_name(&self.reverse, address) {
            Some(name) => {
                if self.reverse_current(registry, &name, address, now_unix) {
                    return Some(name);
                }
                self.cleanup_stale_reverse(address, &name);
            },
            None => {},
        }
        None
    }

    /// Reverse lookups of several addresses, in order.
    pub fn batch_reverse(&mut self, registry: &RegistryContract, addresses: &Vec<String>, now_unix: u64) -> (r:
        Vec<Option<String>>)
        ensures
            r@.len() == addresses@.len(),
            forall|i: int|
                0 <= i < addresses@.len() ==> match #[trigger] r@[i] {
                    Some(n) => old(self)@.batch_reverse_result(
                        registry,
                        addresses@.map_values(|a: String| a@),
                        now_unix,
                    ).0[i] == Some(n@),
                    None => old(self)@.batch_reverse_result(
                        registry,
                        addresses@.map_values(|a: String| a@),
                        now_unix,
                    ).0[i] is None,
                },
            final(self)@ == old(self)@.batch_reverse_result(
                registry,
                addresses@.map_values(|a: String| a@),
                now_unix,
            ).1,
    {
        let ghost v0 = self@;
        let ghost all = addresses@.map_values(|a: String| a@);
        let mut out: Vec<Option<String>> = Vec::new();
        let mut i: usize = 0;
        while i < addresses.len()
            invariant
                i <= addresses@.len(),
                all == addresses@.map_values(|a: String| a@),
                out@.len() == i,
                v0.batch_reverse_result(registry, all.take(i as int), now_unix).1 == self@,
                v0.batch_reverse_result(registry, all.take(i as int), now_unix).0.len() == i,
                forall|j: int|
                    0 <= j < i ==> match #[trigger] out@[j] {
                        Some(n) => v0.batch_reverse_result(registry, all.take(i as int), now_unix).0[j]
                            == Some(n@),
                        None => v0.batch_reverse_result(registry, all.take(i as int), now_unix).0[j] is None,
                    },
            decreases addresses@.len() - i,
        {
            proof {
                assert(all.take(i + 1).drop_last() =~= all.take(i as int));
                assert(all.take(i + 1).last() == addresses@[i as int]@);
            }
            let r = self.reverse(registry, &addresses[i], now_unix);
            out.push(r);
            i = i + 1;
        }
        proof {
            assert(all.take(addresses@.len() as int) =~= all);
        }
        out
    }

    /// Applies address and text changes to one record in a single call (owner only, at
    /// most `MAX_BATCH_OPS` operations). Text changes with an invalid key, a value that
    /// is too long, or a new key beyond the record limit are skipped; the result is the
    /// number of operations applied, and the record is stamped only when one was.
    pub fn batch_set(
        &mut self,
        registry: &RegistryContract,
        name: &String,
        caller: &String,
        ops: &Vec<BatchOp>,
        now_unix: u64,
    ) -> (r: Result<u32, ResolverError>)
        ensures
            ({
                let v = old(self)@;
                let s = batch_all(
                    BatchState {
                        record: v.forward[name@],
                        reverse: v.reverse,
                        primary: v.primary,
                        applied: 0,
                        events: v.events,
                    },
                    ops@,
                    name@,
                    now_unix,
                );
                &&& !valid_fqdn(name@) ==> r == Err::<u32, ResolverError>(ResolverError::Validation)
                &&& valid_fqdn(name@) && ops@.len() > MAX_BATCH_OPS ==> r == Err::<u32, ResolverError>(
                    ResolverError::BatchTooLarge,
                )
                &&& valid_fqdn(name@) && ops@.len() <= MAX_BATCH_OPS && v.mutation_check(
                    registry,
                    name@,
                    caller@,
                    now_unix,
                ) is Err ==> r == Err::<u32, ResolverError>(v.mutation_check(registry, name@, caller@, now_unix)->Err_0)
                &&& r is Err ==> final(self)@ == v
                &&& valid_fqdn(name@) && ops@.len() <= MAX_BATCH_OPS && v.mutation_check(
                    registry,
                    name@,
                    caller@,
                    now_unix,
                ) is Ok ==> r == Ok::<u32, ResolverError>(s.applied as u32) && final(self)@ == (ResolverView {
                    forward: if s.applied > 0 {
                        v.forward.insert(name@, RecordView { updated_at: now_unix, ..s.record })
                    } else {
                        v.forward
                    },
                    reverse: s.reverse,
                    primary: s.primary,
                    events: s.events,
                    ..v
                })
            }),
    {
        let ghost v0 = self@;
        if !validate_fqdn(name) {
            return Err(ResolverError::Validation);
        }
        if ops.len() > MAX_BATCH_OPS {
            return Err(ResolverError::BatchTooLarge);
        }
        if !self.forward.contains_key(name) {
            return Err(ResolverError::RecordNotFound);
        }
        match self.assert_owner(registry, name, caller, now_unix) {
            Err(e) => {
                return Err(e);
            },
            Ok(()) => {},
        }
        let mut rec = match self.forward.get(name) {
            Some(r) => r.copy(),
            None => {
                return Err(ResolverError::RecordNotFound);
            },
        };
        let ghost s0 = BatchState {
            record: v0.forward[name@],
            reverse: v0.reverse,
            primary: v0.primary,
            applied: 0,
            events: v0.events,
        };
        let chain = default_chain_string();
        let mut applied: u32 = 0;
        let mut i: usize = 0;
        while i < ops.len()
            invariant
                i <= ops@.len(),
                ops@.len() <= MAX_BATCH_OPS,
                chain@ == default_chain(),
                applied <= i,
                batch_all(s0, ops@.take(i as int), name@, now_unix) == (BatchState {
                    record: rec.rv(),
                    reverse: self@.reverse,
                    primary: self@.primary,
                    applied: applied as nat,
                    events: self@.events,
                }),
                self@ == (ResolverView {
                    reverse: self@.reverse,
                    primary: self@.primary,
                    events: self@.events,
                    ..v0
                }),
            decreases ops@.len() - i,
        {
            proof {
                assert(ops@.take(i + 1).drop_last() =~= ops@.take(i as int));
                assert(ops@.take(i + 1).last() == ops@[i as int]);
            }
            match &ops[i] {
                BatchOp::SetAddress(new_addr) => {
                    let prev = Self::stellar_address(&rec, &chain);
                    self.move_stellar(&prev, new_addr, name);
                    let ghost a0 = rec.addresses@;
                    rec.addresses.insert(chain.clone(), new_addr.clone());
                    proof {
                        lemma_sview_insert(a0, default_chain(), *new_addr);
                    }
                    self.emit(
                        ResolverEvent::ForwardUpdated {
                            name: name.clone(),
                            address: new_addr.clone(),
                            chain: chain.clone(),
                            updated_at: now_unix,
                        },
                    );
                    self.emit(ResolverEvent::ReverseUpdated { address: new_addr.clone(), name: name.clone() });
                    applied = applied + 1;
                },
                BatchOp::SetText(key, value) => {
                    proof {
                        assert(sview(rec.text_records@).dom() =~= rec.text_records@.dom());
                    }
                    if validate_text_record_key(key) && str_byte_len(value) <= MAX_TEXT_RECORD_VALUE_LENGTH
                        && (rec.text_records.contains_key(key) || rec.text_records.len()
                        < MAX_TEXT_RECORDS) {
                        let ghost t0 = rec.text_records@;
                        rec.text_records.insert(key.clone(), value.clone());
                        proof {
                            lemma_sview_insert(t0, key@, *value);
                        }
                        self.emit(
                            ResolverEvent::TextRecordUpdated {
                                name: name.clone(),
                                key: key.clone(),
                                value: value.clone(),
                                updated_at: now_unix,
                            },
                        );
                        applied = applied + 1;
                    }
                },
            }
            i = i + 1;
        }
        proof {
            assert(ops@.take(ops@.len() as int) =~= ops@);
        }
        if applied > 0 {
            rec.updated_at = now_unix;
            let ghost before = self@;
            let ghost rv = rec.rv();
            self.forward.insert(name.clone(), rec);
            assert(self@ =~= ResolverView { forward: before.forward.insert(name@, rv), ..before });
        }
        assert(self@ =~= ({
            let s = batch_all(s0, ops@, name@, now_unix);
            ResolverView {
                forward: if s.applied > 0 {
                    v0.forward.insert(name@, RecordView { updated_at: now_unix, ..s.record })
                } else {
                    v0.forward
                },
                reverse: s.reverse,
                primary: s.primary,
                events: s.events,
                ..v0
            }
        }));
        Ok(applied)
    }
}


/// Transfers a name in the registry and, when the name's entry names a resolver, drops
/// the previous owner's reverse and primary entries in that resolver that still point
/// at the name. When that call is made, the resolver must know its registry, as it only
/// takes the call from it.
pub fn transfer_with_resolver(
    registry: &mut RegistryContract,
    resolver: &mut ResolverContract,
    name: &String,
    caller: &String,
    new_owner: String,
    now_unix: u64,
) -> (r: Result<(), RegistryError>)
    requires
        old(registry).owner_mutation_check(name@, caller@, now_unix as int) is Ok && old(
            registry,
        ).entries()[name@].resolver is Some ==> old(resolver)@.registry is Some,
    ensures
        r == old(registry).owner_mutation_check(name@, caller@, now_unix as int),
        r is Err ==> *final(registry) == *old(registry) && final(resolver)@ == old(resolver)@,
        r is Ok ==> final(registry).entries() == old(registry).entries().insert(
            name@,
            crate::registry::RegistryEntry {
                owner: new_owner,
                transfer_count: (if old(registry).entries()[name@].transfer_count == u32::MAX {
                    u32::MAX
                } else {
                    (old(registry).entries()[name@].transfer_count + 1) as u32
                }),
                ..old(registry).entries()[name@]
            },
        ),
        r is Ok ==> final(resolver)@ == if old(registry).entries()[name@].resolver is Some {
            old(resolver)@.cleanup(caller@, name@)
        } else {
            old(resolver)@
        },
        old(registry).index_consistent() ==> final(registry).index_consistent(),
{
    let has_resolver = registry.names_resolver(name);
    let r = registry.transfer(name, caller, new_owner, now_unix);
    if r.is_ok() && has_resolver {
        resolver.clear_reverse_record(name, caller);
    }
    r
}

/// After a transfer through `transfer_with_resolver`, the previous owner's address no
/// longer resolves back to the name through a stale reverse or primary entry.
pub proof fn law_transfer_clears_previous_owner(v: ResolverView, previous_owner: Seq<char>, name: Seq<char>)
    ensures
        !(v.cleanup(previous_owner, name).reverse.dom().contains(previous_owner) && v.cleanup(
            previous_owner,
            name,
        ).reverse[previous_owner] == name),
        !(v.cleanup(previous_owner, name).primary.dom().contains(previous_owner) && v.cleanup(
            previous_owner,
            name,
        ).primary[previous_owner] == name),
        v.cleanup(previous_owner, name).forward == v.forward,
{
}

// ------------------------------------------------------------------
// Laws
// ------------------------------------------------------------------

/// Reverse resolution is sound: an address only ever resolves back to a name whose
/// record still carries that address as its Stellar address (and, with a registry,
/// whose record owner is still the registry's owner).
pub proof fn law_reverse_is_sound(v: ResolverView, registry: &RegistryContract, address: Seq<char>, now: u64)
    ensures
        v.reverse_result(registry, address, now).0 matches Some(n) ==> v.reverse_current(
            registry,
            n,
            address,
            now,
        ),
        v.reverse_result(registry, address, now).0 matches Some(n) ==> v.forward.dom().contains(n)
            && stellar_of(v.forward[n]) == Some(address),
{
}

/// A record written by `set_record` is what its name resolves to, and its address
/// resolves back to the name unless the address already has a primary name: at any time
/// when the resolver has no registry, and at the time of the write when it has one and
/// the write was allowed.
pub proof fn law_set_record_round_trip(
    v: ResolverView,
    registry: &RegistryContract,
    name: Seq<char>,
    owner: Seq<char>,
    address: Seq<char>,
    now: u64,
    max: u32,
    t: u64,
)
    requires
        valid_fqdn(name),
        v.registry is None || ResolverContract::set_record_check(v, registry, name, owner, now) is Ok,
        !v.primary.dom().contains(address),
    ensures
        ({
            let after = ResolverContract::set_record_result(v, name, owner, address, now);
            &&& ResolverContract::resolve_spec(after, name, max) == Some(after.forward[name])
            &&& stellar_of(after.forward[name]) == Some(address)
            &&& after.forward[name].owner == owner
            &&& (v.registry is None || t == now) ==> after.reverse_result(registry, address, t).0 == Some(name)
        }),
{
    let after = ResolverContract::set_record_result(v, name, owner, address, now);
    assert(after.forward.dom().contains(name));
    assert(after.lookup_from(name, name, 0, max as int) == Some((name, false)));
    assert(after.forward[name].addresses.dom().contains(default_chain()));
    assert(!after.primary.dom().contains(address));
    assert(after.reverse.dom().contains(address) && after.reverse[address] == name);
}

/// A removed record is gone: its name has no record of its own, and its former
/// Stellar address no longer has a reverse or primary entry.
pub proof fn law_remove_record_clears_reverse(v: ResolverView, name: Seq<char>)
    requires
        v.forward.dom().contains(name),
    ensures
        ({
            let (rv, pv) = match stellar_of(v.forward[name]) {
                Some(a) => (v.reverse.remove(a), v.primary.remove(a)),
                None => (v.reverse, v.primary),
            };
            let after = ResolverView {
                forward: v.forward.remove(name),
                wildcard: v.wildcard.remove(name),
                reverse: rv,
                primary: pv,
                ..v
            };
            &&& !after.forward.dom().contains(name)
            &&& stellar_of(v.forward[name]) matches Some(a) ==> !after.reverse.dom().contains(a)
                && !after.primary.dom().contains(a)
        }),
{
}

/// Whether a record's text records keep the limits: finitely many, at most
/// `MAX_TEXT_RECORDS` of them, every key a valid text-record key.
pub open spec fn text_records_within_limits(r: RecordView) -> bool {
    &&& r.text_records.dom().finite()
    &&& r.text_records.len() <= MAX_TEXT_RECORDS
    &&& forall|k: Seq<char>| #[trigger] r.text_records.dom().contains(k) ==> valid_text_record_key(k)
}

/// A batch never applies more operations than it carries, keeps a record within the
/// text-record limits, and every text value it writes is within the value limit.
pub proof fn law_batch_keeps_limits(s: BatchState, ops: Seq<BatchOp>, name: Seq<char>, now: u64)
    requires
        text_records_within_limits(s.record),
    ensures
        ({
            let t = batch_all(s, ops, name, now);
            &&& s.applied <= t.applied <= s.applied + ops.len()
            &&& text_records_within_limits(t.record)
            &&& forall|k: Seq<char>|
                #[trigger] t.record.text_records.dom().contains(k) && (!s.record.text_records.dom().contains(k)
                    || t.record.text_records[k] != s.record.text_records[k]) ==> byte_len(t.record.text_records[k])
                    <= MAX_TEXT_RECORD_VALUE_LENGTH
        }),
    decreases ops.len(),
{
    if ops.len() > 0 {
        let prev = batch_all(s, ops.drop_last(), name, now);
        law_batch_keeps_limits(s, ops.drop_last(), name, now);
        let t = batch_step(prev, ops.last(), name, now);
        assert(t == batch_all(s, ops, name, now));
        match ops.last() {
            BatchOp::SetAddress(a) => {
                assert(t.record.text_records == prev.record.text_records);
            },
            BatchOp::SetText(k, v) => {
                if t != prev {
                    let m = prev.record.text_records;
                    assert(t.record.text_records == m.insert(k@, v@));
                    if !m.dom().contains(k@) {
                        assert(m.insert(k@, v@).dom() =~= m.dom().insert(k@));
                        assert(m.insert(k@, v@).len() == m.len() + 1);
                    } else {
                        assert(m.insert(k@, v@).dom() =~= m.dom());
                    }
                }
            },
        }
    }
}

/// A batch on a stored record that keeps the text-record limits applies at most as many
/// operations as it carries (so at most `MAX_BATCH_OPS` when accepted), keeps the record
/// within the limits, and writes no text value beyond the value limit.
pub proof fn law_batch_set_keeps_stored_limits(
    resolver: &ResolverContract,
    ops: Seq<BatchOp>,
    name: Seq<char>,
    now: u64,
)
    requires
        resolver@.forward.dom().contains(name),
        resolver@.forward[name].text_records.len() <= MAX_TEXT_RECORDS,
        forall|k: Seq<char>| #[trigger] resolver@.forward[name].text_records.dom().contains(k) ==> valid_text_record_key(k),
    ensures
        ({
            let v = resolver@;
            let s = BatchState {
                record: v.forward[name],
                reverse: v.reverse,
                primary: v.primary,
                applied: 0,
                events: v.events,
            };
            let t = batch_all(s, ops, name, now);
            &&& t.applied <= ops.len()
            &&& text_records_within_limits(t.record)
            &&& forall|k: Seq<char>|
                #[trigger] t.record.text_records.dom().contains(k) && (!s.record.text_records.dom().contains(k)
                    || t.record.text_records[k] != s.record.text_records[k]) ==> byte_len(t.record.text_records[k])
                    <= MAX_TEXT_RECORD_VALUE_LENGTH
        }),
{
    resolver.lemma_text_records_finite(name);
    let v = resolver@;
    let s = BatchState { record: v.forward[name], reverse: v.reverse, primary: v.primary, applied: 0, events: v.events };
    law_batch_keeps_limits(s, ops, name, now);
}

/// The name `k` parent levels above `name` (the name itself at level zero), while the
/// parents last.
pub open spec fn ancestor(name: Seq<char>, k: nat) -> Option<Seq<char>>
    decreases k,
{
    if k == 0 {
        Some(name)
    } else {
        match ancestor(name, (k - 1) as nat) {
            Some(a) => spec_parent_name(a),
            None => None,
        }
    }
}

proof fn lemma_ancestor_shorter(name: Seq<char>, k: nat)
    requires
        k > 0,
        ancestor(name, k) is Some,
    ensures
        ancestor(name, k)->0.len() < name.len(),
    decreases k,
{
    let prev = ancestor(name, (k - 1) as nat)->0;
    if k > 1 {
        lemma_ancestor_shorter(name, (k - 1) as nat);
    }
    let d = prev.index_of_first('.')->0;
    prev.index_of_first_ensures('.');
    assert(ancestor(name, k)->0 == prev.subrange(d + 1, prev.len() as int));
}

proof fn lemma_lookup_reaches(v: ResolverView, name: Seq<char>, max: u32, h: nat, k: nat)
    requires
        h <= k <= max,
        ancestor(name, k) is Some,
        v.forward.dom().contains(ancestor(name, k)->0),
        forall|j: nat| j < k ==> (#[trigger] ancestor(name, j)) is Some && !v.forward.dom().contains(ancestor(name, j)->0),
    ensures
        v.lookup_from(name, ancestor(name, h)->0, h as int, max as int) == if k == 0 {
            Some((name, false))
        } else if !v.wildcard.dom().contains(ancestor(name, k)->0) || v.wildcard[ancestor(name, k)->0] {
            Some((ancestor(name, k)->0, true))
        } else {
            None::<(Seq<char>, bool)>
        },
    decreases k - h,
{
    if h == k {
        if k > 0 {
            lemma_ancestor_shorter(name, k);
        }
    } else {
        assert(ancestor(name, h) is Some);
        assert(ancestor(name, (h + 1) as nat) is Some);
        lemma_lookup_reaches(v, name, max, (h + 1) as nat, k);
    }
}

/// A lookup stops at the nearest name, itself or an ancestor within the depth limit,
/// that has a record: the name's own record, else that ancestor's record marked as a
/// wildcard match when the ancestor's wildcard is on (absent counts as on), and nothing
/// when it is off; no more distant ancestor is ever used.
pub proof fn law_resolve_uses_nearest_record(v: ResolverView, name: Seq<char>, max: u32, k: nat)
    requires
        valid_fqdn(name),
        k <= max,
        ancestor(name, k) is Some,
        v.forward.dom().contains(ancestor(name, k)->0),
        forall|j: nat| j < k ==> (#[trigger] ancestor(name, j)) is Some && !v.forward.dom().contains(ancestor(name, j)->0),
    ensures
        ({
            let a = ancestor(name, k)->0;
            ResolverContract::resolve_spec(v, name, max) == if k == 0 {
                Some(RecordView { is_wildcard: false, ..v.forward[name] })
            } else if !v.wildcard.dom().contains(a) || v.wildcard[a] {
                Some(RecordView { is_wildcard: true, ..v.forward[a] })
            } else {
                None
            }
        }),
{
    lemma_lookup_reaches(v, name, max, 0, k);
}

proof fn lemma_lookup_none(v: ResolverView, name: Seq<char>, max: u32, h: nat)
    requires
        h <= max,
        ancestor(name, h) is Some,
        forall|j: nat| j <= max ==> (#[trigger] ancestor(name, j) matches Some(b) ==> !v.forward.dom().contains(b)),
    ensures
        v.lookup_from(name, ancestor(name, h)->0, h as int, max as int) is None,
    decreases max - h,
{
    assert(ancestor(name, h) matches Some(b) ==> !v.forward.dom().contains(b));
    if h < max {
        let cur = ancestor(name, h)->0;
        if spec_parent_name(cur) is Some {
            assert(ancestor(name, (h + 1) as nat) == spec_parent_name(cur));
            lemma_lookup_none(v, name, max, (h + 1) as nat);
        }
    }
}

/// When neither the name nor any ancestor within the depth limit has a record, the
/// name does not resolve.
pub proof fn law_resolve_none_without_record(v: ResolverView, name: Seq<char>, max: u32)
    requires
        forall|j: nat| j <= max ==> (#[trigger] ancestor(name, j) matches Some(b) ==> !v.forward.dom().contains(b)),
    ensures
        ResolverContract::resolve_spec(v, name, max) is None,
{
    if valid_fqdn(name) {
        lemma_lookup_none(v, name, max, 0);
    }
}

} // verus!
