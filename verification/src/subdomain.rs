//! Subdomains: owners of a second-level name register it as a parent and then
//! create, hand over and revoke names beneath it, alone or through controllers.
//!
//! Authorization is the host's job: a method that names a caller or owner acts as
//! if that address has signed the call. When a registry is configured, a parent
//! counts only while the registry reports it active at the ledger time passed in;
//! the registry is handed to each method that needs it, and `None` stands for a
//! registry that could not be reached. A parent found inactive by a lookup that
//! does not fail is purged with all its subdomains. A call that fails leaves the
//! contract unchanged.
use vstd::prelude::*;
use crate::common::{
    byte_len, char_at, lemma_byte_len_ge_char_len, char_len, valid_base_name, valid_fqdn, validate_base_name,
    validate_fqdn, CONTRACT_VERSION,
};
use crate::registry::{NameState, RegistryContract};
use crate::strmap::{same_str, strs, StrList, StrMap};

verus! {

/// Subdomains a parent may hold until the admin sets another limit.
pub const DEFAULT_MAX_SUBDOMAINS_PER_PARENT: u32 = 100;

/// Labels per subdomain allowed until the admin sets another depth.
pub const DEFAULT_MAX_DEPTH: u32 = 3;

/// Longest subdomain, in bytes.
pub const MAX_SUBDOMAIN_BYTES: usize = 256;

/// A parent domain as handed out to callers.
pub struct ParentDomain {
    pub owner: String,
    pub controllers: Vec<String>,
}

/// A subdomain.
pub struct SubdomainRecord {
    pub parent: String,
    pub owner: String,
    pub created_at: u64,
}

impl SubdomainRecord {
    /// A field-by-field copy.
    pub fn copy(&self) -> (r: Self)
        ensures
            r == *self,
    {
        SubdomainRecord {
            parent: self.parent.clone(),
            owner: self.owner.clone(),
            created_at: self.created_at,
        }
    }
}

/// Errors of the subdomain contract.
#[derive(Clone, Copy, Debug, PartialEq, Eq, Structural)]
pub enum SubdomainError {
    Validation,
    ParentNotFound,
    AlreadyExists,
    NotFound,
    Unauthorized,
    UpgradeFailed,
    DepthLimitExceeded,
    ParentSubdomainLimitReached,
}

/// `s` with `x` appended unless it already occurs.
pub open spec fn push_unique(s: Seq<Seq<char>>, x: Seq<char>) -> Seq<Seq<char>> {
    if s.contains(x) {
        s
    } else {
        s.push(x)
    }
}

/// `s` without the first occurrence of `x`.
pub open spec fn remove_first(s: Seq<Seq<char>>, x: Seq<char>) -> Seq<Seq<char>> {
    if s.contains(x) {
        s.remove(s.index_of_first(x)->0)
    } else {
        s
    }
}

/// How often `c` occurs in `s`.
pub open spec fn count_char(s: Seq<char>, c: char) -> nat
    decreases s.len(),
{
    if s.len() == 0 {
        0
    } else {
        count_char(s.drop_last(), c) + if s.last() == c {
            1nat
        } else {
            0nat
        }
    }
}

/// The full name of a subdomain: `label.parent`.
pub open spec fn subdomain_name(label: Seq<char>, parent: Seq<char>) -> Seq<char> {
    label + seq!['.'] + parent
}

/// What the contract announces to indexers, in the order it happens.
#[derive(Clone, Debug, PartialEq, Eq)]
pub enum SubdomainEvent {
    /// A parent was registered (topics "subdomain", "prnt_reg").
    ParentRegistered { parent: String, owner: String },
    /// A controller was added to a parent (topics "subdomain", "ctrl_add").
    ControllerAdded { parent: String, caller: String, controller: String },
    /// A controller was removed from a parent (topics "subdomain", "ctrl_rm").
    ControllerRemoved { parent: String, caller: String, controller: String },
    /// A subdomain was created (topics "subdomain", "created").
    Created { fqdn: String, parent: String, caller: String, owner: String },
    /// A subdomain changed owner (topics "subdomain", "transfer").
    Transferred { fqdn: String, old_owner: String, new_owner: String },
    /// A subdomain was deleted (topics "subdomain", "deleted").
    Deleted { fqdn: String, caller: String },
    /// A subdomain was revoked (topics "subdomain", "revoked").
    Revoked { fqdn: String, caller: String },
}

/// Everything the contract holds, as mathematical values.
#[verifier::ext_equal]
pub struct SubdomainView {
    /// Parent domains: owner and controllers.
    pub parents: Map<Seq<char>, (Seq<char>, Seq<Seq<char>>)>,
    /// Subdomains by full name.
    pub records: Map<Seq<char>, SubdomainRecord>,
    /// Subdomains listed under each parent (empty when none).
    pub parent_subs: Map<Seq<char>, Seq<Seq<char>>>,
    /// Subdomains listed under each owner (empty when none).
    pub owner_subs: Map<Seq<char>, Seq<Seq<char>>>,
    pub registry: Option<Seq<char>>,
    pub admin: Option<Seq<char>>,
    pub version: Option<u32>,
    pub max_depth: u32,
    pub max_per_parent: u32,
    /// Every event announced so far, oldest first.
    pub events: Seq<SubdomainEvent>,
}

impl SubdomainView {
    /// Whether a parent counts as active: always without a registry, otherwise only
    /// when the registry reports it active at `now`.
    pub open spec fn parent_active(self, registry: Option<&RegistryContract>, parent: Seq<char>, now: u64) -> bool {
        self.registry is None || (registry matches Some(r) && r.spec_name_state(parent, now as int)
            == NameState::Active)
    }

    /// Whether the caller may act for the parent: its owner or one of its controllers.
    pub open spec fn may_manage(self, parent: Seq<char>, caller: Seq<char>) -> bool {
        self.parents[parent].0 == caller || self.parents[parent].1.contains(caller)
    }

    /// The state after a subdomain is dropped, using the given record for its lists.
    pub open spec fn drop_with(self, fqdn: Seq<char>, rec: SubdomainRecord) -> SubdomainView {
        SubdomainView {
            parent_subs: self.parent_subs.insert(
                rec.parent@,
                remove_first(self.parent_subs[rec.parent@], fqdn),
            ),
            owner_subs: self.owner_subs.insert(
                rec.owner@,
                remove_first(self.owner_subs[rec.owner@], fqdn),
            ),
            records: self.records.remove(fqdn),
            ..self
        }
    }

    /// The state after a subdomain is dropped, if it exists.
    pub open spec fn drop_one(self, fqdn: Seq<char>) -> SubdomainView {
        if self.records.dom().contains(fqdn) {
            self.drop_with(fqdn, self.records[fqdn])
        } else {
            self
        }
    }

    /// The state after each listed subdomain is dropped, in order.
    pub open spec fn drop_all(self, subs: Seq<Seq<char>>) -> SubdomainView
        decreases subs.len(),
    {
        if subs.len() == 0 {
            self
        } else {
            self.drop_all(subs.drop_last()).drop_one(subs.last())
        }
    }

    /// The state after a parent and every subdomain listed under it are removed.
    pub open spec fn purge_parent(self, parent: Seq<char>) -> SubdomainView {
        let v = self.drop_all(self.parent_subs[parent]);
        SubdomainView {
            parent_subs: v.parent_subs.insert(parent, Seq::empty()),
            parents: v.parents.remove(parent),
            ..v
        }
    }

    /// The state after a lookup of the parent: unchanged while it is active, purged otherwise.
    pub open spec fn after_check(self, registry: Option<&RegistryContract>, parent: Seq<char>, now: u64) -> SubdomainView {
        if self.parent_active(registry, parent, now) {
            self
        } else {
            self.purge_parent(parent)
        }
    }

    /// The verdict on `create`.
    pub open spec fn create_check(
        self,
        registry: Option<&RegistryContract>,
        label: Seq<char>,
        parent: Seq<char>,
        caller: Seq<char>,
        now: u64,
    ) -> Result<(), SubdomainError> {
        if !self.parent_active(registry, parent, now) || !self.parents.dom().contains(parent) {
            Err(SubdomainError::ParentNotFound)
        } else if !self.may_manage(parent, caller) {
            Err(SubdomainError::Unauthorized)
        } else if label.len() > 0 && count_char(label, '.') + 1 > self.max_depth {
            Err(SubdomainError::DepthLimitExceeded)
        } else if self.records.dom().contains(subdomain_name(label, parent)) {
            Err(SubdomainError::AlreadyExists)
        } else if self.parent_subs[parent].len() >= self.max_per_parent {
            Err(SubdomainError::ParentSubdomainLimitReached)
        } else {
            Ok(())
        }
    }
}

spec fn opt_seq(o: Option<String>) -> Option<Seq<char>> {
    match o {
        Some(s) => Some(s@),
        None => None,
    }
}

/// Lists stored per key, as a total map (a missing key holds the empty list).
pub closed spec fn lists_view(m: Map<Seq<char>, StrList>) -> Map<Seq<char>, Seq<Seq<char>>> {
    Map::new(
        |k: Seq<char>| true,
        |k: Seq<char>|
            if m.dom().contains(k) {
                m[k]@
            } else {
                Seq::empty()
            },
    )
}

fn list_add(lists: &mut StrMap<StrList>, key: &String, item: &String)
    ensures
        lists_view(final(lists)@) == lists_view(old(lists)@).insert(
            key@,
            push_unique(lists_view(old(lists)@)[key@], item@),
        ),
{
    let ghost m0 = lists_view(lists@);
    let mut l = match lists.remove(key) {
        Some(l) => l,
        None => StrList::new(),
    };
    l.push_unique(item.clone());
    lists.insert(key.clone(), l);
    assert(lists_view(lists@) =~= m0.insert(key@, push_unique(m0[key@], item@)));
}

fn list_remove(lists: &mut StrMap<StrList>, key: &String, item: &String)
    ensures
        lists_view(final(lists)@) == lists_view(old(lists)@).insert(
            key@,
            remove_first(lists_view(old(lists)@)[key@], item@),
        ),
{
    let ghost m0 = lists_view(lists@);
    proof {
        m0[key@].index_of_first_ensures(item@);
    }
    match lists.remove(key) {
        Some(l) => {
            let mut l = l;
            l.remove_first(item);
            lists.insert(key.clone(), l);
            assert(lists_view(lists@) =~= m0.insert(key@, remove_first(m0[key@], item@)));
        },
        None => {
            assert(lists_view(lists@) =~= m0.insert(key@, remove_first(m0[key@], item@)));
        },
    }
}

fn list_get(lists: &StrMap<StrList>, key: &String) -> (r: Vec<String>)
    ensures
        strs(r@) == lists_view(lists@)[key@],
{
    match lists.get(key) {
        Some(l) => l.to_vec(),
        None => {
            let r: Vec<String> = Vec::new();
            assert(strs(r@) =~= Seq::<Seq<char>>::empty());
            r
        },
    }
}

struct ParentEntry {
    owner: String,
    controllers: StrList,
}

spec fn parents_view(m: Map<Seq<char>, ParentEntry>) -> Map<Seq<char>, (Seq<char>, Seq<Seq<char>>)> {
    Map::new(|k: Seq<char>| m.dom().contains(k), |k: Seq<char>| (m[k].owner@, m[k].controllers@))
}

/// The subdomain contract's state.
pub struct SubdomainContract {
    parents: StrMap<ParentEntry>,
    records: StrMap<SubdomainRecord>,
    parent_subs: StrMap<StrList>,
    owner_subs: StrMap<StrList>,
    registry: Option<String>,
    admin: Option<String>,
    version: Option<u32>,
    max_depth: u32,
    max_per_parent: u32,
    events: Vec<SubdomainEvent>,
}

impl View for SubdomainContract {
    type V = SubdomainView;

    closed spec fn view(&self) -> SubdomainView {
        SubdomainView {
            parents: parents_view(self.parents@),
            records: self.records@,
            parent_subs: lists_view(self.parent_subs@),
            owner_subs: lists_view(self.owner_subs@),
            registry: opt_seq(self.registry),
            admin: opt_seq(self.admin),
            version: self.version,
            max_depth: self.max_depth,
            max_per_parent: self.max_per_parent,
            events: self.events@,
        }
    }
}

/// Counts the dots of a string.
fn count_dots(s: &String) -> (r: u32)
    requires
        s@.len() <= u32::MAX,
    ensures
        r == count_char(s@, '.'),
{
    let n = char_len(s);
    let mut count: u32 = 0;
    let mut i: usize = 0;
    while i < n
        invariant
            n == s@.len(),
            n <= u32::MAX,
            i <= n,
            count == count_char(s@.take(i as int), '.'),
            count <= i,
        decreases n - i,
    {
        proof {
            assert(s@.take(i + 1).drop_last() =~= s@.take(i as int));
        }
        if char_at(s, i) == '.' {
            count = count + 1;
        }
        i = i + 1;
    }
    proof {
        assert(s@.take(n as int) =~= s@);
    }
    count
}

impl SubdomainContract {
    /// A contract with no parents, no subdomains and the default limits.
    pub fn new() -> (r: Self)
        ensures
            r@.parents == Map::<Seq<char>, (Seq<char>, Seq<Seq<char>>)>::empty(),
            r@.records == Map::<Seq<char>, SubdomainRecord>::empty(),
            forall|k: Seq<char>| #[trigger] r@.parent_subs[k] == Seq::<Seq<char>>::empty(),
            forall|k: Seq<char>| #[trigger] r@.owner_subs[k] == Seq::<Seq<char>>::empty(),
            r@.registry is None,
            r@.admin is None,
            r@.version is None,
            r@.max_depth == DEFAULT_MAX_DEPTH,
            r@.max_per_parent == DEFAULT_MAX_SUBDOMAINS_PER_PARENT,
            r@.events == Seq::<SubdomainEvent>::empty(),
    {
        let r = SubdomainContract {
            parents: StrMap::new(),
            records: StrMap::new(),
            parent_subs: StrMap::new(),
            owner_subs: StrMap::new(),
            registry: None,
            admin: None,
            version: None,
            max_depth: DEFAULT_MAX_DEPTH,
            max_per_parent: DEFAULT_MAX_SUBDOMAINS_PER_PARENT,
            events: Vec::new(),
        };
        assert(r@.parents =~= Map::<Seq<char>, (Seq<char>, Seq<Seq<char>>)>::empty());
        r
    }

    /// The version this code implements.
    pub fn version(&self) -> (r: u32)
        ensures
            r == CONTRACT_VERSION,
    {
        CONTRACT_VERSION
    }

    /// Sets the admin once, with the default depth and per-parent limits.
    pub fn initialize(&mut self, admin: String) -> (r: Result<(), SubdomainError>)
        ensures
            old(self)@.admin is Some ==> r == Err::<(), SubdomainError>(SubdomainError::AlreadyExists)
                && final(self)@ == old(self)@,
            old(self)@.admin is None ==> r is Ok && final(self)@ == (SubdomainView {
                admin: Some(admin@),
                version: Some(CONTRACT_VERSION),
                max_depth: DEFAULT_MAX_DEPTH,
                max_per_parent: DEFAULT_MAX_SUBDOMAINS_PER_PARENT,
                ..old(self)@
            }),
    {
        if self.admin.is_some() {
            return Err(SubdomainError::AlreadyExists);
        }
        let ghost v0 = self@;
        self.admin = Some(admin);
        self.version = Some(CONTRACT_VERSION);
        self.max_depth = DEFAULT_MAX_DEPTH;
        self.max_per_parent = DEFAULT_MAX_SUBDOMAINS_PER_PARENT;
        assert(self@ =~= SubdomainView {
            admin: Some(admin@),
            version: Some(CONTRACT_VERSION),
            max_depth: DEFAULT_MAX_DEPTH,
            max_per_parent: DEFAULT_MAX_SUBDOMAINS_PER_PARENT,
            ..v0
        });
        Ok(())
    }

    /// Names the registry that decides which parents are active (admin only).
    pub fn set_registry_contract(&mut self, registry_contract: String) -> (r: Result<(), SubdomainError>)
        ensures
            old(self)@.admin is None ==> r == Err::<(), SubdomainError>(SubdomainError::Unauthorized)
                && final(self)@ == old(self)@,
            old(self)@.admin is Some ==> r is Ok && final(self)@ == (SubdomainView {
                registry: Some(registry_contract@),
                ..old(self)@
            }),
    {
        if self.admin.is_none() {
            return Err(SubdomainError::Unauthorized);
        }
        let ghost v0 = self@;
        self.registry = Some(registry_contract);
        assert(self@ =~= SubdomainView { registry: Some(registry_contract@), ..v0 });
        Ok(())
    }

    /// The stored version, or the code's version when none is stored.
    pub fn get_version(&self) -> (r: u32)
        ensures
            r == match self@.version {
                Some(v) => v,
                None => CONTRACT_VERSION,
            },
    {
        match self.version {
            Some(v) => v,
            None => CONTRACT_VERSION,
        }
    }

    /// Sets the most labels a new subdomain may have (admin only).
    pub fn set_max_depth(&mut self, depth: u32) -> (r: Result<(), SubdomainError>)
        ensures
            old(self)@.admin is None ==> r == Err::<(), SubdomainError>(SubdomainError::Unauthorized)
                && final(self)@ == old(self)@,
            old(self)@.admin is Some ==> r is Ok && final(self)@ == (SubdomainView {
                max_depth: depth,
                ..old(self)@
            }),
    {
        if self.admin.is_none() {
            return Err(SubdomainError::Unauthorized);
        }
        let ghost v0 = self@;
        self.max_depth = depth;
        assert(self@ =~= SubdomainView { max_depth: depth, ..v0 });
        Ok(())
    }

    /// The most labels a new subdomain may have.
    pub fn max_depth(&self) -> (r: u32)
        ensures
            r == self@.max_depth,
    {
        self.max_depth
    }

    /// Sets how many subdomains one parent may hold (admin only).
    pub fn set_max_subdomains_per_parent(&mut self, limit: u32) -> (r: Result<(), SubdomainError>)
        ensures
            old(self)@.admin is None ==> r == Err::<(), SubdomainError>(SubdomainError::Unauthorized)
                && final(self)@ == old(self)@,
            old(self)@.admin is Some ==> r is Ok && final(self)@ == (SubdomainView {
                max_per_parent: limit,
                ..old(self)@
            }),
    {
        if self.admin.is_none() {
            return Err(SubdomainError::Unauthorized);
        }
        let ghost v0 = self@;
        self.max_per_parent = limit;
        assert(self@ =~= SubdomainView { max_per_parent: limit, ..v0 });
        Ok(())
    }

    /// Every event announced so far, oldest first.
    pub fn events(&self) -> (r: &Vec<SubdomainEvent>)
        ensures
            r@ == self@.events,
    {
        &self.events
    }

    /// How many subdomains one parent may hold.
    pub fn get_max_subdomains_per_parent(&self) -> (r: u32)
        ensures
            r == self@.max_per_parent,
    {
        self.max_per_parent
    }

    /// Accepts an upgrade when an admin is set; the stored state is kept as it is.
    pub fn upgrade(&mut self) -> (r: Result<(), SubdomainError>)
        ensures
            old(self)@.admin is None ==> r == Err::<(), SubdomainError>(SubdomainError::UpgradeFailed),
            old(self)@.admin is Some ==> r is Ok,
            final(self)@ == old(self)@,
    {
        if self.admin.is_none() {
            return Err(SubdomainError::UpgradeFailed);
        }
        Ok(())
    }

    fn is_parent_active(&self, registry: Option<&RegistryContract>, parent: &String, now_unix: u64) -> (r: bool)
        ensures
            r == self@.parent_active(registry, parent@, now_unix),
    {
        if self.registry.is_none() {
            return true;
        }
        match registry {
            Some(reg) => {
                match reg.name_state(parent, now_unix) {
                    NameState::Active => true,
                    _ => false,
                }
            },
            None => false,
        }
    }

    fn drop_with(&mut self, fqdn: &String, rec: &SubdomainRecord)
        ensures
            final(self)@ == old(self)@.drop_with(fqdn@, *rec),
    {
        let ghost v0 = self@;
        list_remove(&mut self.parent_subs, &rec.parent, fqdn);
        list_remove(&mut self.owner_subs, &rec.owner, fqdn);
        let _ = self.records.remove(fqdn);
        assert(self@ =~= v0.drop_with(fqdn@, *rec));
    }

    fn purge_parent_namespace(&mut self, parent: &String)
        ensures
            final(self)@ == old(self)@.purge_parent(parent@),
    {
        let ghost v0 = self@;
        let subs = list_get(&self.parent_subs, parent);
        let ghost s = strs(subs@);
        let mut i: usize = 0;
        while i < subs.len()
            invariant
                i <= subs@.len(),
                s == strs(subs@),
                s == v0.parent_subs[parent@],
                self@ == v0.drop_all(s.take(i as int)),
            decreases subs@.len() - i,
        {
            let fqdn = &subs[i];
            proof {
                assert(s.take(i + 1).drop_last() =~= s.take(i as int));
                assert(s.take(i + 1).last() == fqdn@);
            }
            let rec = match self.records.get(fqdn) {
                Some(r) => Some(r.copy()),
                None => None,
            };
            match rec {
                Some(r) => {
                    self.drop_with(fqdn, &r);
                },
                None => {},
            }
            i = i + 1;
        }
        proof {
            assert(s.take(subs@.len() as int) =~= s);
        }
        let ghost v1 = self@;
        let _ = self.parent_subs.remove(parent);
        let _ = self.parents.remove(parent);
        assert(self@ =~= SubdomainView {
            parent_subs: v1.parent_subs.insert(parent@, Seq::empty()),
            parents: v1.parents.remove(parent@),
            ..v1
        });
    }

    fn ensure_parent_is_active(&mut self, registry: Option<&RegistryContract>, parent: &String, now_unix: u64) -> (r: bool)
        ensures
            r == old(self)@.parent_active(registry, parent@, now_unix),
            final(self)@ == old(self)@.after_check(registry, parent@, now_unix),
    {
        if self.is_parent_active(registry, parent, now_unix) {
            return true;
        }
        self.purge_parent_namespace(parent);
        false
    }

    /// Registers a second-level name as a parent, once per owner. With a registry, the
    /// owner must be the registry's owner of the active name; a parent registered by an
    /// earlier owner is purged and replaced.
    pub fn register_parent(
        &mut self,
        registry: Option<&RegistryContract>,
        parent: &String,
        owner: &String,
        now_unix: u64,
    ) -> (r: Result<(), SubdomainError>)
        ensures
            ({
                let v = old(self)@;
                let p = parent@;
                let reg_ok = registry matches Some(rg) && rg.entries().dom().contains(p)
                    && rg.entries()[p].spec_is_active_at(now_unix as int);
                let fresh = v.parents.dom().contains(p) ==> (v.registry is Some
                    && v.parents[p].0 != owner@);
                let base = if v.registry is Some && v.parents.dom().contains(p) {
                    v.purge_parent(p)
                } else {
                    v
                };
                &&& !valid_fqdn(p) || !valid_base_name(p) ==> r == Err::<(), SubdomainError>(
                    SubdomainError::Validation,
                )
                &&& valid_base_name(p) && v.registry is Some && !reg_ok ==> r == Err::<
                    (),
                    SubdomainError,
                >(SubdomainError::ParentNotFound)
                &&& valid_base_name(p) && v.registry is Some && reg_ok
                    && registry->0.entries()[p].owner@ != owner@ ==> r == Err::<
                    (),
                    SubdomainError,
                >(SubdomainError::Unauthorized)
                &&& valid_base_name(p) && (v.registry is None || (reg_ok
                    && registry->0.entries()[p].owner@ == owner@)) && !fresh ==> r == Err::<
                    (),
                    SubdomainError,
                >(SubdomainError::AlreadyExists)
                &&& r is Err ==> final(self)@ == v
                &&& valid_base_name(p) && (v.registry is None || (reg_ok
                    && registry->0.entries()[p].owner@ == owner@)) && fresh ==> r is Ok
                    && final(self)@ == (SubdomainView {
                    parents: base.parents.insert(p, (owner@, Seq::empty())),
                    events: base.events.push(
                        SubdomainEvent::ParentRegistered { parent: *parent, owner: *owner },
                    ),
                    ..base
                })
            }),
    {
        let ghost v0 = self@;
        if !validate_fqdn(parent) || !validate_base_name(parent) {
            return Err(SubdomainError::Validation);
        }
        if self.registry.is_some() {
            let reg_owner = match registry {
                Some(rg) => match rg.resolve(parent, now_unix) {
                    Ok(entry) => Some(entry.owner),
                    Err(_) => None,
                },
                None => None,
            };
            match reg_owner {
                None => {
                    return Err(SubdomainError::ParentNotFound);
                },
                Some(ro) => {
                    if !same_str(&ro, owner) {
                        return Err(SubdomainError::Unauthorized);
                    }
                    let same_owner = match self.parents.get(parent) {
                        Some(existing) => Some(same_str(&existing.owner, &ro)),
                        None => None,
                    };
                    match same_owner {
                        Some(true) => {
                            return Err(SubdomainError::AlreadyExists);
                        },
                        Some(false) => {
                            self.purge_parent_namespace(parent);
                        },
                        None => {},
                    }
                },
            }
        } else if self.parents.contains_key(parent) {
            return Err(SubdomainError::AlreadyExists);
        }
        let ghost v1 = self@;
        self.parents.insert(parent.clone(), ParentEntry { owner: owner.clone(), controllers: StrList::new() });
        self.events.push(SubdomainEvent::ParentRegistered { parent: parent.clone(), owner: owner.clone() });
        assert(self@ =~= SubdomainView {
            parents: v1.parents.insert(parent@, (owner@, Seq::empty())),
            events: v1.events.push(
                SubdomainEvent::ParentRegistered { parent: *parent, owner: *owner },
            ),
            ..v1
        });
        Ok(())
    }

    fn check_parent(&self, registry: Option<&RegistryContract>, parent: &String, now_unix: u64) -> (r: bool)
        ensures
            r == (self@.parent_active(registry, parent@, now_unix) && self@.parents.dom().contains(
                parent@,
            )),
    {
        self.is_parent_active(registry, parent, now_unix) && self.parents.contains_key(parent)
    }

    fn may_manage(&self, parent: &String, caller: &String) -> (r: bool)
        requires
            self@.parents.dom().contains(parent@),
        ensures
            r == self@.may_manage(parent@, caller@),
    {
        match self.parents.get(parent) {
            Some(p) => same_str(&p.owner, caller) || p.controllers.contains(caller),
            None => false,
        }
    }

    /// Lets the parent's owner add a controller; adding one twice changes nothing.
    pub fn add_controller(
        &mut self,
        registry: Option<&RegistryContract>,
        parent: &String,
        caller: &String,
        controller: &String,
        now_unix: u64,
    ) -> (r: Result<(), SubdomainError>)
        ensures
            ({
                let v = old(self)@;
                let p = parent@;
                &&& !(v.parent_active(registry, p, now_unix) && v.parents.dom().contains(p)) ==> r
                    == Err::<(), SubdomainError>(SubdomainError::ParentNotFound)
                &&& v.parent_active(registry, p, now_unix) && v.parents.dom().contains(p)
                    && v.parents[p].0 != caller@ ==> r == Err::<(), SubdomainError>(
                    SubdomainError::Unauthorized,
                )
                &&& r is Err ==> final(self)@ == v
                &&& v.parent_active(registry, p, now_unix) && v.parents.dom().contains(p)
                    && v.parents[p].0 == caller@ ==> r is Ok && final(self)@ == (SubdomainView {
                    parents: v.parents.insert(
                        p,
                        (v.parents[p].0, push_unique(v.parents[p].1, controller@)),
                    ),
                    events: if v.parents[p].1.contains(controller@) {
                        v.events
                    } else {
                        v.events.push(
                            SubdomainEvent::ControllerAdded {
                                parent: *parent,
                                caller: *caller,
                                controller: *controller,
                            },
                        )
                    },
                    ..v
                })
            }),
    {
        if !self.check_parent(registry, parent, now_unix) {
            return Err(SubdomainError::ParentNotFound);
        }
        let ghost v0 = self@;
        let mut entry = self.parents.remove(parent).unwrap();
        if !same_str(&entry.owner, caller) {
            self.parents.insert(parent.clone(), entry);
            assert(self@ =~= v0);
            return Err(SubdomainError::Unauthorized);
        }
        let present = entry.controllers.contains(controller);
        entry.controllers.push_unique(controller.clone());
        self.parents.insert(parent.clone(), entry);
        if !present {
            self.events.push(
                SubdomainEvent::ControllerAdded {
                    parent: parent.clone(),
                    caller: caller.clone(),
                    controller: controller.clone(),
                },
            );
        }
        assert(self@ =~= SubdomainView {
            parents: v0.parents.insert(
                parent@,
                (v0.parents[parent@].0, push_unique(v0.parents[parent@].1, controller@)),
            ),
            events: if v0.parents[parent@].1.contains(controller@) {
                v0.events
            } else {
                v0.events.push(
                    SubdomainEvent::ControllerAdded {
                        parent: *parent,
                        caller: *caller,
                        controller: *controller,
                    },
                )
            },
            ..v0
        });
        Ok(())
    }

    /// Lets the parent's owner remove a controller; removing an absent one changes nothing.
    pub fn remove_controller(
        &mut self,
        registry: Option<&RegistryContract>,
        parent: &String,
        caller: &String,
        controller: &String,
        now_unix: u64,
    ) -> (r: Result<(), SubdomainError>)
        ensures
            ({
                let v = old(self)@;
                let p = parent@;
                &&& !(v.parent_active(registry, p, now_unix) && v.parents.dom().contains(p)) ==> r
                    == Err::<(), SubdomainError>(SubdomainError::ParentNotFound)
                &&& v.parent_active(registry, p, now_unix) && v.parents.dom().contains(p)
                    && v.parents[p].0 != caller@ ==> r == Err::<(), SubdomainError>(
                    SubdomainError::Unauthorized,
                )
                &&& r is Err ==> final(self)@ == v
                &&& v.parent_active(registry, p, now_unix) && v.parents.dom().contains(p)
                    && v.parents[p].0 == caller@ ==> r is Ok && final(self)@ == (SubdomainView {
                    parents: v.parents.insert(
                        p,
                        (v.parents[p].0, remove_first(v.parents[p].1, controller@)),
                    ),
                    events: if v.parents[p].1.contains(controller@) {
                        v.events.push(
                            SubdomainEvent::ControllerRemoved {
                                parent: *parent,
                                caller: *caller,
                                controller: *controller,
                            },
                        )
                    } else {
                        v.events
                    },
                    ..v
                })
            }),
    {
        if !self.check_parent(registry, parent, now_unix) {
            return Err(SubdomainError::ParentNotFound);
        }
        let ghost v0 = self@;
        let mut entry = self.parents.remove(parent).unwrap();
        if !same_str(&entry.owner, caller) {
            self.parents.insert(parent.clone(), entry);
            assert(self@ =~= v0);
            return Err(SubdomainError::Unauthorized);
        }
        proof {
            v0.parents[parent@].1.index_of_first_ensures(controller@);
        }
        let present = entry.controllers.contains(controller);
        entry.controllers.remove_first(controller);
        self.parents.insert(parent.clone(), entry);
        if present {
            self.events.push(
                SubdomainEvent::ControllerRemoved {
                    parent: parent.clone(),
                    caller: caller.clone(),
                    controller: controller.clone(),
                },
            );
        }
        assert(self@ =~= SubdomainView {
            parents: v0.parents.insert(
                parent@,
                (v0.parents[parent@].0, remove_first(v0.parents[parent@].1, controller@)),
            ),
            events: if v0.parents[parent@].1.contains(controller@) {
                v0.events.push(
                    SubdomainEvent::ControllerRemoved {
                        parent: *parent,
                        caller: *caller,
                        controller: *controller,
                    },
                )
            } else {
                v0.events
            },
            ..v0
        });
        Ok(())
    }

    /// Creates `label.parent` for the owner, on behalf of the parent's owner or a
    /// controller, within the depth and per-parent limits; returns the full name.
    pub fn create(
        &mut self,
        registry: Option<&RegistryContract>,
        label: &String,
        parent: &String,
        caller: &String,
        owner: &String,
        created_at: u64,
        now_unix: u64,
    ) -> (r: Result<String, SubdomainError>)
        requires
            byte_len(label@) + 1 + byte_len(parent@) <= MAX_SUBDOMAIN_BYTES,
        ensures
            ({
                let v = old(self)@;
                let n = subdomain_name(label@, parent@);
                &&& r is Err == v.create_check(registry, label@, parent@, caller@, now_unix) is Err
                &&& r matches Err(e) ==> v.create_check(registry, label@, parent@, caller@, now_unix)
                    == Err::<(), SubdomainError>(e) && final(self)@ == v
                &&& r matches Ok(name) ==> name@ == n && final(self)@ == (SubdomainView {
                    records: v.records.insert(
                        n,
                        SubdomainRecord { parent: *parent, owner: *owner, created_at },
                    ),
                    parent_subs: v.parent_subs.insert(parent@, push_unique(v.parent_subs[parent@], n)),
                    owner_subs: v.owner_subs.insert(owner@, push_unique(v.owner_subs[owner@], n)),
                    events: v.events.push(
                        SubdomainEvent::Created {
                            fqdn: name,
                            parent: *parent,
                            caller: *caller,
                            owner: *owner,
                        },
                    ),
                    ..v
                })
            }),
    {
        let ghost v0 = self@;
        if !self.check_parent(registry, parent, now_unix) {
            return Err(SubdomainError::ParentNotFound);
        }
        if !self.may_manage(parent, caller) {
            return Err(SubdomainError::Unauthorized);
        }
        proof {
            lemma_byte_len_ge_char_len(label@);
        }
        if char_len(label) > 0 {
            let dots = count_dots(label);
            if dots >= self.max_depth {
                return Err(SubdomainError::DepthLimitExceeded);
            }
        }
        let mut fqdn = label.clone();
        fqdn.append(".");
        fqdn.append(parent.as_str());
        proof {
            reveal_strlit(".");
            assert(fqdn@ =~= subdomain_name(label@, parent@));
        }
        if self.records.contains_key(&fqdn) {
            return Err(SubdomainError::AlreadyExists);
        }
        let count = match self.parent_subs.get(parent) {
            Some(l) => l.len(),
            None => 0,
        };
        if count >= self.max_per_parent as usize {
            return Err(SubdomainError::ParentSubdomainLimitReached);
        }
        let record = SubdomainRecord { parent: parent.clone(), owner: owner.clone(), created_at };
        self.records.insert(fqdn.clone(), record);
        list_add(&mut self.parent_subs, parent, &fqdn);
        list_add(&mut self.owner_subs, owner, &fqdn);
        self.events.push(
            SubdomainEvent::Created {
                fqdn: fqdn.clone(),
                parent: parent.clone(),
                caller: caller.clone(),
                owner: owner.clone(),
            },
        );
        assert(self@ =~= SubdomainView {
            records: v0.records.insert(
                fqdn@,
                SubdomainRecord { parent: *parent, owner: *owner, created_at },
            ),
            parent_subs: v0.parent_subs.insert(parent@, push_unique(v0.parent_subs[parent@], fqdn@)),
            owner_subs: v0.owner_subs.insert(owner@, push_unique(v0.owner_subs[owner@], fqdn@)),
            events: v0.events.push(
                SubdomainEvent::Created {
                    fqdn: fqdn,
                    parent: *parent,
                    caller: *caller,
                    owner: *owner,
                },
            ),
            ..v0
        });
        Ok(fqdn)
    }

    /// Hands a subdomain to a new owner (current owner only).
    pub fn transfer(
        &mut self,
        registry: Option<&RegistryContract>,
        fqdn: &String,
        caller: &String,
        new_owner: &String,
        now_unix: u64,
    ) -> (r: Result<(), SubdomainError>)
        ensures
            ({
                let v = old(self)@;
                let f = fqdn@;
                let rec = v.records[f];
                &&& !v.records.dom().contains(f) ==> r == Err::<(), SubdomainError>(
                    SubdomainError::NotFound,
                )
                &&& v.records.dom().contains(f) && !v.parent_active(registry, rec.parent@, now_unix)
                    ==> r == Err::<(), SubdomainError>(SubdomainError::ParentNotFound)
                &&& v.records.dom().contains(f) && v.parent_active(registry, rec.parent@, now_unix)
                    && rec.owner@ != caller@ ==> r == Err::<(), SubdomainError>(
                    SubdomainError::Unauthorized,
                )
                &&& r is Err ==> final(self)@ == v
                &&& v.records.dom().contains(f) && v.parent_active(registry, rec.parent@, now_unix)
                    && rec.owner@ == caller@ ==> r is Ok && final(self)@ == ({
                    let dropped = v.owner_subs.insert(rec.owner@, remove_first(v.owner_subs[rec.owner@], f));
                    SubdomainView {
                        records: v.records.insert(f, SubdomainRecord { owner: *new_owner, ..rec }),
                        owner_subs: dropped.insert(new_owner@, push_unique(dropped[new_owner@], f)),
                        events: v.events.push(
                            SubdomainEvent::Transferred {
                                fqdn: *fqdn,
                                old_owner: rec.owner,
                                new_owner: *new_owner,
                            },
                        ),
                        ..v
                    }
                })
            }),
    {
        let ghost v0 = self@;
        let mut record = match self.records.get(fqdn) {
            Some(r) => r.copy(),
            None => return Err(SubdomainError::NotFound),
        };
        if !self.is_parent_active(registry, &record.parent, now_unix) {
            return Err(SubdomainError::ParentNotFound);
        }
        if !same_str(&record.owner, caller) {
            return Err(SubdomainError::Unauthorized);
        }
        let ghost rec0 = record;
        let old_owner = record.owner.clone();
        record.owner = new_owner.clone();
        self.records.insert(fqdn.clone(), record);
        list_remove(&mut self.owner_subs, &old_owner, fqdn);
        let ghost dropped = self@.owner_subs;
        list_add(&mut self.owner_subs, new_owner, fqdn);
        self.events.push(
            SubdomainEvent::Transferred {
                fqdn: fqdn.clone(),
                old_owner,
                new_owner: new_owner.clone(),
            },
        );
        assert(self@ =~= SubdomainView {
            records: v0.records.insert(fqdn@, SubdomainRecord { owner: *new_owner, ..rec0 }),
            owner_subs: dropped.insert(new_owner@, push_unique(dropped[new_owner@], fqdn@)),
            events: v0.events.push(
                SubdomainEvent::Transferred {
                    fqdn: *fqdn,
                    old_owner: rec0.owner,
                    new_owner: *new_owner,
                },
            ),
            ..v0
        });
        Ok(())
    }

    fn remove_subdomain(
        &mut self,
        registry: Option<&RegistryContract>,
        fqdn: &String,
        caller: &String,
        now_unix: u64,
        revoking: bool,
    ) -> (r: Result<(), SubdomainError>)
        ensures
            ({
                let v = old(self)@;
                let f = fqdn@;
                let rec = v.records[f];
                let p = rec.parent@;
                &&& !v.records.dom().contains(f) ==> r == Err::<(), SubdomainError>(
                    SubdomainError::NotFound,
                )
                &&& v.records.dom().contains(f) && !v.parent_active(registry, p, now_unix) ==> r
                    == Err::<(), SubdomainError>(SubdomainError::ParentNotFound)
                &&& v.records.dom().contains(f) && v.parent_active(registry, p, now_unix)
                    && rec.owner@ != caller@ && !v.parents.dom().contains(p) ==> r == Err::<
                    (),
                    SubdomainError,
                >(
                    if revoking {
                        SubdomainError::Unauthorized
                    } else {
                        SubdomainError::ParentNotFound
                    },
                )
                &&& v.records.dom().contains(f) && v.parent_active(registry, p, now_unix)
                    && rec.owner@ != caller@ && v.parents.dom().contains(p) && !v.may_manage(
                    p,
                    caller@,
                ) ==> r == Err::<(), SubdomainError>(SubdomainError::Unauthorized)
                &&& r is Err ==> final(self)@ == v
                &&& v.records.dom().contains(f) && v.parent_active(registry, p, now_unix) && (
                rec.owner@ == caller@ || (v.parents.dom().contains(p) && v.may_manage(
                    p,
                    caller@,
                ))) ==> r is Ok && final(self)@ == (SubdomainView {
                    events: v.events.push(
                        if revoking {
                            SubdomainEvent::Revoked { fqdn: *fqdn, caller: *caller }
                        } else {
                            SubdomainEvent::Deleted { fqdn: *fqdn, caller: *caller }
                        },
                    ),
                    ..v.drop_with(f, rec)
                })
            }),
    {
        let record = match self.records.get(fqdn) {
            Some(r) => r.copy(),
            None => return Err(SubdomainError::NotFound),
        };
        if !self.is_parent_active(registry, &record.parent, now_unix) {
            return Err(SubdomainError::ParentNotFound);
        }
        if !same_str(&record.owner, caller) {
            if !self.parents.contains_key(&record.parent) {
                if revoking {
                    return Err(SubdomainError::Unauthorized);
                } else {
                    return Err(SubdomainError::ParentNotFound);
                }
            }
            if !self.may_manage(&record.parent, caller) {
                return Err(SubdomainError::Unauthorized);
            }
        }
        self.drop_with(fqdn, &record);
        let ghost v1 = self@;
        if revoking {
            self.events.push(SubdomainEvent::Revoked { fqdn: fqdn.clone(), caller: caller.clone() });
        } else {
            self.events.push(SubdomainEvent::Deleted { fqdn: fqdn.clone(), caller: caller.clone() });
        }
        assert(self@ =~= SubdomainView {
            events: v1.events.push(
                if revoking {
                    SubdomainEvent::Revoked { fqdn: *fqdn, caller: *caller }
                } else {
                    SubdomainEvent::Deleted { fqdn: *fqdn, caller: *caller }
                },
            ),
            ..v1
        });
        Ok(())
    }

    /// Deletes a subdomain, on behalf of its owner or of the parent's owner or a controller.
    pub fn delete(
        &mut self,
        registry: Option<&RegistryContract>,
        fqdn: &String,
        caller: &String,
        now_unix: u64,
    ) -> (r: Result<(), SubdomainError>)
        ensures
            ({
                let v = old(self)@;
                let f = fqdn@;
                let rec = v.records[f];
                let p = rec.parent@;
                &&& !v.records.dom().contains(f) ==> r == Err::<(), SubdomainError>(
                    SubdomainError::NotFound,
                )
                &&& v.records.dom().contains(f) && !v.parent_active(registry, p, now_unix) ==> r
                    == Err::<(), SubdomainError>(SubdomainError::ParentNotFound)
                &&& v.records.dom().contains(f) && v.parent_active(registry, p, now_unix)
                    && rec.owner@ != caller@ && !v.parents.dom().contains(p) ==> r == Err::<
                    (),
                    SubdomainError,
                >(SubdomainError::ParentNotFound)
                &&& v.records.dom().contains(f) && v.parent_active(registry, p, now_unix)
                    && rec.owner@ != caller@ && v.parents.dom().contains(p) && !v.may_manage(
                    p,
                    caller@,
                ) ==> r == Err::<(), SubdomainError>(SubdomainError::Unauthorized)
                &&& r is Err ==> final(self)@ == v
                &&& v.records.dom().contains(f) && v.parent_active(registry, p, now_unix) && (
                rec.owner@ == caller@ || (v.parents.dom().contains(p) && v.may_manage(
                    p,
                    caller@,
                ))) ==> r is Ok && final(self)@ == (SubdomainView {
                    events: v.events.push(SubdomainEvent::Deleted { fqdn: *fqdn, caller: *caller }),
                    ..v.drop_with(f, rec)
                })
            }),
    {
        self.remove_subdomain(registry, fqdn, caller, now_unix, false)
    }

    /// Revokes a subdomain, on behalf of its owner or of the parent's owner or a controller.
    pub fn revoke(
        &mut self,
        registry: Option<&RegistryContract>,
        fqdn: &String,
        caller: &String,
        now_unix: u64,
    ) -> (r: Result<(), SubdomainError>)
        ensures
            ({
                let v = old(self)@;
                let f = fqdn@;
                let rec = v.records[f];
                let p = rec.parent@;
                &&& !v.records.dom().contains(f) ==> r == Err::<(), SubdomainError>(
                    SubdomainError::NotFound,
                )
                &&& v.records.dom().contains(f) && !v.parent_active(registry, p, now_unix) ==> r
                    == Err::<(), SubdomainError>(SubdomainError::ParentNotFound)
                &&& v.records.dom().contains(f) && v.parent_active(registry, p, now_unix)
                    && rec.owner@ != caller@ && !(v.parents.dom().contains(p) && v.may_manage(
                    p,
                    caller@,
                )) ==> r == Err::<(), SubdomainError>(SubdomainError::Unauthorized)
                &&& r is Err ==> final(self)@ == v
                &&& v.records.dom().contains(f) && v.parent_active(registry, p, now_unix) && (
                rec.owner@ == caller@ || (v.parents.dom().contains(p) && v.may_manage(
                    p,
                    caller@,
                ))) ==> r is Ok && final(self)@ == (SubdomainView {
                    events: v.events.push(SubdomainEvent::Revoked { fqdn: *fqdn, caller: *caller }),
                    ..v.drop_with(f, rec)
                })
            }),
    {
        self.remove_subdomain(registry, fqdn, caller, now_unix, true)
    }

    /// A subdomain whose parent is active; one whose parent is no longer active is
    /// purged along with the parent's namespace.
    pub fn record(&mut self, registry: Option<&RegistryContract>, fqdn: &String, now_unix: u64) -> (r: Option<
        SubdomainRecord,
    >)
        ensures
            ({
                let v = old(self)@;
                let f = fqdn@;
                let rec = v.records[f];
                &&& !v.records.dom().contains(f) ==> r is None && final(self)@ == v
                &&& v.records.dom().contains(f) && v.parent_active(registry, rec.parent@, now_unix)
                    ==> r == Some(rec) && final(self)@ == v
                &&& v.records.dom().contains(f) && !v.parent_active(registry, rec.parent@, now_unix)
                    ==> r is None && final(self)@ == v.purge_parent(rec.parent@).drop_with(f, rec)
            }),
    {
        let record = match self.records.get(fqdn) {
            Some(r) => r.copy(),
            None => return None,
        };
        if self.ensure_parent_is_active(registry, &record.parent, now_unix) {
            Some(record)
        } else {
            self.drop_with(fqdn, &record);
            None
        }
    }

    /// Whether a subdomain exists under an active parent (purging it otherwise, as `record` does).
    pub fn record_exists(&mut self, registry: Option<&RegistryContract>, fqdn: &String, now_unix: u64) -> (r: bool)
        ensures
            ({
                let v = old(self)@;
                let f = fqdn@;
                let rec = v.records[f];
                &&& r == (v.records.dom().contains(f) && v.parent_active(registry, rec.parent@, now_unix))
                &&& !v.records.dom().contains(f) ==> final(self)@ == v
                &&& v.records.dom().contains(f) && v.parent_active(registry, rec.parent@, now_unix)
                    ==> final(self)@ == v
                &&& v.records.dom().contains(f) && !v.parent_active(registry, rec.parent@, now_unix)
                    ==> final(self)@ == v.purge_parent(rec.parent@).drop_with(f, rec)
            }),
    {
        self.record(registry, fqdn, now_unix).is_some()
    }

    /// A parent that is still active; one that is not is purged.
    pub fn parent(&mut self, registry: Option<&RegistryContract>, parent: &String, now_unix: u64) -> (r: Option<
        ParentDomain,
    >)
        ensures
            final(self)@ == old(self)@.after_check(registry, parent@, now_unix),
            r is Some == (old(self)@.parent_active(registry, parent@, now_unix)
                && old(self)@.parents.dom().contains(parent@)),
            r matches Some(p) ==> p.owner@ == old(self)@.parents[parent@].0 && strs(p.controllers@)
                == old(self)@.parents[parent@].1,
    {
        if !self.ensure_parent_is_active(registry, parent, now_unix) {
            return None;
        }
        match self.parents.get(parent) {
            Some(p) => Some(ParentDomain { owner: p.owner.clone(), controllers: p.controllers.to_vec() }),
            None => None,
        }
    }

    /// The subdomains listed under an active parent; an inactive parent is purged and has none.
    pub fn subdomains_for_parent(&mut self, registry: Option<&RegistryContract>, parent: &String, now_unix: u64) -> (r:
        Vec<String>)
        ensures
            final(self)@ == old(self)@.after_check(registry, parent@, now_unix),
            strs(r@) == if old(self)@.parent_active(registry, parent@, now_unix) {
                old(self)@.parent_subs[parent@]
            } else {
                Seq::<Seq<char>>::empty()
            },
    {
        if !self.ensure_parent_is_active(registry, parent, now_unix) {
            let r: Vec<String> = Vec::new();
            assert(strs(r@) =~= Seq::<Seq<char>>::empty());
            return r;
        }
        list_get(&self.parent_subs, parent)
    }

    /// The subdomains listed under an owner.
    pub fn subdomains_for_owner(&self, owner: &String) -> (r: Vec<String>)
        ensures
            strs(r@) == self@.owner_subs[owner@],
    {
        list_get(&self.owner_subs, owner)
    }
}

// ------------------------------------------------------------------
// Laws
// ------------------------------------------------------------------

/// Every subdomain is listed under its parent and under its owner.
pub open spec fn lists_cover_records(v: SubdomainView) -> bool {
    forall|f: Seq<char>|
        #[trigger] v.records.dom().contains(f) ==> v.parent_subs[v.records[f].parent@].contains(f)
            && v.owner_subs[v.records[f].owner@].contains(f)
}

proof fn lemma_remove_first_keeps_others(s: Seq<Seq<char>>, x: Seq<char>, y: Seq<char>)
    requires
        s.contains(y),
        y != x,
    ensures
        remove_first(s, x).contains(y),
{
    if s.contains(x) {
        s.index_of_first_ensures(x);
        let i = s.index_of_first(x)->0;
        let j = choose|j: int| 0 <= j < s.len() && s[j] == y;
        assert(j != i);
        if j < i {
            assert(s.remove(i)[j] == y);
        } else {
            assert(s.remove(i)[j - 1] == y);
        }
    }
}

proof fn lemma_push_unique_keeps(s: Seq<Seq<char>>, x: Seq<char>, y: Seq<char>)
    requires
        s.contains(y) || y == x,
    ensures
        push_unique(s, x).contains(y),
{
    if !s.contains(x) {
        if y == x {
            assert(s.push(x)[s.len() as int] == x);
        } else {
            let j = choose|j: int| 0 <= j < s.len() && s[j] == y;
            assert(s.push(x)[j] == y);
        }
    }
}

/// Creating a subdomain keeps every subdomain listed under its parent and owner, and a
/// lookup then finds the new record while its parent is active.
pub proof fn law_create_keeps_lists_and_resolves(
    v: SubdomainView,
    registry: Option<&RegistryContract>,
    n: Seq<char>,
    parent: String,
    owner: String,
    created_at: u64,
    now: u64,
)
    requires
        lists_cover_records(v),
        v.parent_active(registry, parent@, now),
    ensures
        ({
            let after = SubdomainView {
                records: v.records.insert(n, SubdomainRecord { parent, owner, created_at }),
                parent_subs: v.parent_subs.insert(parent@, push_unique(v.parent_subs[parent@], n)),
                owner_subs: v.owner_subs.insert(owner@, push_unique(v.owner_subs[owner@], n)),
                ..v
            };
            &&& lists_cover_records(after)
            &&& after.records.dom().contains(n)
            &&& after.parent_active(registry, after.records[n].parent@, now)
            &&& after.records[n].owner == owner
        }),
{
    let after = SubdomainView {
        records: v.records.insert(n, SubdomainRecord { parent, owner, created_at }),
        parent_subs: v.parent_subs.insert(parent@, push_unique(v.parent_subs[parent@], n)),
        owner_subs: v.owner_subs.insert(owner@, push_unique(v.owner_subs[owner@], n)),
        ..v
    };
    assert forall|f: Seq<char>| #[trigger] after.records.dom().contains(f) implies after.parent_subs[
        after.records[f].parent@
    ].contains(f) && after.owner_subs[after.records[f].owner@].contains(f) by {
        if f == n {
            lemma_push_unique_keeps(v.parent_subs[parent@], n, n);
            lemma_push_unique_keeps(v.owner_subs[owner@], n, n);
        } else {
            let r = v.records[f];
            if r.parent@ == parent@ {
                lemma_push_unique_keeps(v.parent_subs[parent@], n, f);
            }
            if r.owner@ == owner@ {
                lemma_push_unique_keeps(v.owner_subs[owner@], n, f);
            }
        }
    }
}

/// Dropping a subdomain keeps every other subdomain listed under its parent and owner.
pub proof fn law_drop_keeps_lists(v: SubdomainView, f: Seq<char>)
    requires
        lists_cover_records(v),
        v.records.dom().contains(f),
    ensures
        lists_cover_records(v.drop_with(f, v.records[f])),
        !v.drop_with(f, v.records[f]).records.dom().contains(f),
{
    let rec = v.records[f];
    let after = v.drop_with(f, rec);
    assert forall|g: Seq<char>| #[trigger] after.records.dom().contains(g) implies after.parent_subs[
        after.records[g].parent@
    ].contains(g) && after.owner_subs[after.records[g].owner@].contains(g) by {
        let r = v.records[g];
        assert(g != f);
        if r.parent@ == rec.parent@ {
            lemma_remove_first_keeps_others(v.parent_subs[rec.parent@], f, g);
        }
        if r.owner@ == rec.owner@ {
            lemma_remove_first_keeps_others(v.owner_subs[rec.owner@], f, g);
        }
    }
}

/// A transfer keeps every subdomain listed under its parent and owner; the moved one
/// is now listed under its new owner.
pub proof fn law_transfer_keeps_lists(v: SubdomainView, f: Seq<char>, new_owner: String)
    requires
        lists_cover_records(v),
        v.records.dom().contains(f),
    ensures
        ({
            let rec = v.records[f];
            let dropped = v.owner_subs.insert(rec.owner@, remove_first(v.owner_subs[rec.owner@], f));
            let after = SubdomainView {
                records: v.records.insert(f, SubdomainRecord { owner: new_owner, ..rec }),
                owner_subs: dropped.insert(new_owner@, push_unique(dropped[new_owner@], f)),
                ..v
            };
            &&& lists_cover_records(after)
            &&& after.owner_subs[new_owner@].contains(f)
        }),
{
    let rec = v.records[f];
    let dropped = v.owner_subs.insert(rec.owner@, remove_first(v.owner_subs[rec.owner@], f));
    let after = SubdomainView {
        records: v.records.insert(f, SubdomainRecord { owner: new_owner, ..rec }),
        owner_subs: dropped.insert(new_owner@, push_unique(dropped[new_owner@], f)),
        ..v
    };
    lemma_push_unique_keeps(dropped[new_owner@], f, f);
    assert forall|g: Seq<char>| #[trigger] after.records.dom().contains(g) implies after.parent_subs[
        after.records[g].parent@
    ].contains(g) && after.owner_subs[after.records[g].owner@].contains(g) by {
        if g != f {
            let r = v.records[g];
            if r.owner@ == rec.owner@ {
                lemma_remove_first_keeps_others(v.owner_subs[rec.owner@], f, g);
            }
            assert(dropped[r.owner@].contains(g));
            if r.owner@ == new_owner@ {
                lemma_push_unique_keeps(dropped[new_owner@], f, g);
            }
        }
    }
}

} // verus!
