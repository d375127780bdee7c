//! The registrar: sells and renews second-level `.xlm` names, collects their fees,
//! keeps labels reserved, limits how many names one owner may buy per window, and
//! records every sale and renewal in the registry.
//!
//! Authorization is the host's job: a method that names an owner or caller acts as
//! if that address has signed the call. Methods that record a sale or renewal take
//! the registry they write to; the registrar's own checks come first, then the
//! registry's, and a call that fails at either leaves both unchanged. A refusal by
//! the registry is reported as `RegistrarError::Registry`.
use vstd::prelude::*;
use crate::common::{
    add_sat, build_xlm_name, char_len, decode_target_version, expiry_from_now, extract_label,
    mul_sat, price_for_label_length, sat_add, sat_mul, sat_sub, spec_expiry_from_now,
    spec_price_for_label_length, spec_target_version, sub_sat, valid_base_name, valid_label,
    valid_registration_years, validate_label, validate_registration_years, xlm_suffix,
    CONTRACT_VERSION, GRACE_PERIOD_SECONDS, PRICING_POLICY_VERSION,
};
use crate::registry::{RegistryContract, RegistryError};
use crate::strmap::{same_str, StrMap, U64Map};

verus! {

/// Whether admins can force names out of the normal lifecycle.
pub const ADMIN_RECOVERY_SUPPORTED: bool = false;

/// Default length of a rate-limit window (24 hours).
pub const DEFAULT_RATE_LIMIT_WINDOW_SECONDS: u64 = 86_400;

/// Default number of registrations one owner may make per window.
pub const DEFAULT_MAX_REGISTRATIONS_PER_WINDOW: u64 = 5;

/// Grace period used until the admin configures another one (30 days).
pub const DEFAULT_GRACE_PERIOD_SECONDS: u64 = GRACE_PERIOD_SECONDS;

/// Shortest grace period the admin may configure (1 day).
pub const MIN_GRACE_PERIOD_SECONDS: u64 = 86_400;

/// Longest grace period the admin may configure (365 days).
pub const MAX_GRACE_PERIOD_SECONDS: u64 = 31_536_000;

/// How a fee was computed.
#[derive(Clone, Copy, Debug, PartialEq, Eq, Structural)]
pub struct PricingBreakdown {
    pub annual_fee_stroops: u64,
    pub duration_years: u64,
    pub premium_stroops: u64,
}

/// The price and lifecycle of a new registration.
#[derive(Clone, Copy, Debug, PartialEq, Eq, Structural)]
pub struct RegistrationQuote {
    pub fee_stroops: u64,
    pub expiry_unix: u64,
    pub grace_period_ends_at: u64,
    pub pricing: PricingBreakdown,
}

/// The price of a renewal, with the expiry before and after it.
#[derive(Clone, Copy, Debug, PartialEq, Eq, Structural)]
pub struct RenewalQuote {
    pub fee_stroops: u64,
    pub current_expiry_unix: u64,
    pub extended_expiry_unix: u64,
    pub grace_period_ends_at: u64,
    pub pricing: PricingBreakdown,
}

/// Aggregate accounting of the registrar.
#[derive(Clone, Copy, Debug, PartialEq, Eq, Structural)]
pub struct RegistrarMetrics {
    pub treasury_balance: u64,
    pub total_registrations: u64,
    pub total_renewals: u64,
}

/// Lifecycle status of a label from the registrar's point of view.
#[derive(Clone, Copy, Debug, PartialEq, Eq, Structural)]
pub enum RegistrationStatus {
    /// Never registered, or not a valid label.
    Unavailable,
    /// Registered and not yet expired.
    Active,
    /// Expired but within the grace period: only the owner may renew.
    GracePeriod,
    /// Past the grace period: anyone may register it.
    Claimable,
    /// On the reserved list: it cannot be registered at all.
    Reserved,
}

/// What the registrar remembers of a sale.
pub struct RegistrationRecord {
    pub name: String,
    pub owner: String,
    pub registered_at: u64,
    pub expires_at: u64,
    pub grace_period_ends_at: u64,
    pub fee_paid: u64,
    pub renewed_at: u64,
}

impl RegistrationRecord {
    /// A field-by-field copy.
    pub fn copy(&self) -> (r: Self)
        ensures
            r == *self,
    {
        RegistrationRecord {
            name: self.name.clone(),
            owner: self.owner.clone(),
            registered_at: self.registered_at,
            expires_at: self.expires_at,
            grace_period_ends_at: self.grace_period_ends_at,
            fee_paid: self.fee_paid,
            renewed_at: self.renewed_at,
        }
    }
}

/// How many registrations one owner may make per window.
#[derive(Clone, Copy, Debug, PartialEq, Eq, Structural)]
pub struct RateLimitConfig {
    pub window_size_seconds: u64,
    pub max_registrations_per_window: u64,
}

/// Errors of the registrar.
#[derive(Clone, Copy, Debug, PartialEq, Eq, Structural)]
pub enum RegistrarError {
    InsufficientFee,
    NotFound,
    NotRenewable,
    AlreadyRegistered,
    Reserved,
    Unauthorized,
    Validation,
    RegistrationClaimable,
    NotInitialized,
    AlreadyInitialized,
    RateLimitExceeded,
    UpgradeFailed,
    /// The registry refused to record the change.
    Registry(RegistryError),
}

/// The default rate limit.
pub open spec fn default_rate_limit() -> RateLimitConfig {
    RateLimitConfig {
        window_size_seconds: DEFAULT_RATE_LIMIT_WINDOW_SECONDS,
        max_registrations_per_window: DEFAULT_MAX_REGISTRATIONS_PER_WINDOW,
    }
}

/// The quote for registering a label of `label_len` characters for `years` years at `now`,
/// with a grace period of `grace` seconds.
pub open spec fn spec_build_quote(label_len: int, years: u64, now: u64, grace: u64) -> RegistrationQuote {
    let annual = spec_price_for_label_length(label_len);
    let expiry = spec_expiry_from_now(now as int, years as int) as u64;
    RegistrationQuote {
        fee_stroops: sat_mul(annual as int, years as int) as u64,
        expiry_unix: expiry,
        grace_period_ends_at: sat_add(expiry as int, grace as int) as u64,
        pricing: PricingBreakdown {
            annual_fee_stroops: annual,
            duration_years: years,
            premium_stroops: 0,
        },
    }
}

/// The quote for renewing a label of `label_len` characters that expires at `current_expiry`:
/// the new term starts at the later of the current expiry and `now`.
pub open spec fn spec_renewal_quote(
    label_len: int,
    current_expiry: u64,
    years: u64,
    now: u64,
    grace: u64,
) -> RenewalQuote {
    let annual = spec_price_for_label_length(label_len);
    let base = if current_expiry > now {
        current_expiry
    } else {
        now
    };
    let extended = spec_expiry_from_now(base as int, years as int) as u64;
    RenewalQuote {
        fee_stroops: sat_mul(annual as int, years as int) as u64,
        current_expiry_unix: current_expiry,
        extended_expiry_unix: extended,
        grace_period_ends_at: sat_add(extended as int, grace as int) as u64,
        pricing: PricingBreakdown {
            annual_fee_stroops: annual,
            duration_years: years,
            premium_stroops: 0,
        },
    }
}

/// Whether a registration whose grace period ends at `grace_period_end` can still be
/// renewed at `now`: until the grace period is over, renewal is allowed; after it the
/// name is claimable.
pub open spec fn spec_can_renew(grace_period_end: u64, now: u64) -> Result<bool, RegistrarError> {
    if now > grace_period_end {
        Err(RegistrarError::RegistrationClaimable)
    } else {
        Ok(true)
    }
}

/// Checks that a registration can still be renewed.
pub fn can_renew(grace_period_end: u64, now_unix: u64) -> (r: Result<bool, RegistrarError>)
    ensures
        r == spec_can_renew(grace_period_end, now_unix),
{
    if now_unix > grace_period_end {
        return Err(RegistrarError::RegistrationClaimable);
    }
    Ok(true)
}

/// What the registrar announces to indexers, in the order it happens.
#[derive(Clone, Debug, PartialEq, Eq)]
pub enum RegistrarEvent {
    /// The stored version moved (topics "registrar", "upgraded").
    ContractUpgraded { old_version: u32, new_version: u32, admin: String },
    /// A label was newly reserved (topics "reserved", "added").
    ReservedAdded { label: String },
    /// A label was already reserved or is invalid (topics "reserved", "skipped").
    ReservedSkipped { label: String },
    /// A name was sold (topics "registrar", "reg").
    Registered {
        label: String,
        owner: String,
        payment_stroops: u64,
        expires_at: u64,
        grace_period_ends_at: u64,
    },
    /// A name was renewed (topics "registrar", "renewed").
    Renewed {
        name: String,
        caller: String,
        payment_stroops: u64,
        expires_at: u64,
        grace_period_ends_at: u64,
    },
    /// The rate limit was replaced (topics "registrar", "rate").
    RateLimitSet { window_size_seconds: u64, max_registrations_per_window: u64 },
    /// An owner was exempted from the rate limit (topics "registrar", "wlist").
    Whitelisted { address: String },
    /// An owner's exemption was lifted (topics "registrar", "unwlist").
    Unwhitelisted { address: String },
}

/// Everything the registrar holds, as mathematical values.
#[verifier::ext_equal]
pub struct RegistrarView {
    /// Sales by full name.
    pub registrations: Map<Seq<char>, RegistrationRecord>,
    /// Labels that cannot be registered.
    pub reserved: Set<Seq<char>>,
    /// Owners exempt from the rate limit.
    pub whitelist: Set<Seq<char>>,
    /// Registrations counted per (owner, window start).
    pub windows: Map<(Seq<char>, u64), u64>,
    pub treasury: u64,
    pub total_registrations: u64,
    pub total_renewals: u64,
    pub rate_limit: RateLimitConfig,
    /// The registry this registrar writes to, once initialized.
    pub registry: Option<Seq<char>>,
    pub admin: Option<Seq<char>>,
    pub version: Option<u32>,
    /// Grace period given to new expiries, in seconds.
    pub grace_period: u64,
    /// Every event announced so far, oldest first.
    pub events: Seq<RegistrarEvent>,
}

impl RegistrarView {
    /// The start of the rate-limit window that `now` counts toward.
    pub open spec fn window_start(self, now: u64) -> u64 {
        sat_sub(now as int, self.rate_limit.window_size_seconds as int) as u64
    }

    /// Registrations the owner made in the window of `now`.
    pub open spec fn window_count(self, owner: Seq<char>, now: u64) -> u64 {
        let k = (owner, self.window_start(now));
        if self.windows.dom().contains(k) {
            self.windows[k]
        } else {
            0
        }
    }

    /// Whether the owner has used up the registrations of the window of `now`.
    pub open spec fn rate_limited(self, owner: Seq<char>, now: u64) -> bool {
        !self.whitelist.contains(owner) && self.window_count(owner, now)
            >= self.rate_limit.max_registrations_per_window
    }

    /// The quote for a label at `now`.
    pub open spec fn quote(self, label: Seq<char>, years: u64, now: u64) -> RegistrationQuote {
        spec_build_quote(label.len() as int, years, now, self.grace_period)
    }

    /// The renewal quote for a registered name at `now`.
    pub open spec fn renewal_quote(self, name: Seq<char>, years: u64, now: u64) -> RenewalQuote {
        spec_renewal_quote(
            name.len() - 4,
            self.registrations[name].expires_at,
            years,
            now,
            self.grace_period,
        )
    }

    /// The registrar's own verdict on a registration, before the registry is asked.
    pub open spec fn register_check(
        self,
        label: Seq<char>,
        owner: Seq<char>,
        years: u64,
        payment: u64,
        now: u64,
    ) -> Result<(), RegistrarError> {
        let name = label + xlm_suffix();
        if !valid_label(label) {
            Err(RegistrarError::Validation)
        } else if !valid_registration_years(years as int) {
            Err(RegistrarError::Validation)
        } else if self.reserved.contains(label) {
            Err(RegistrarError::Reserved)
        } else if self.rate_limited(owner, now) {
            Err(RegistrarError::RateLimitExceeded)
        } else if payment < self.quote(label, years, now).fee_stroops {
            Err(RegistrarError::InsufficientFee)
        } else if self.registrations.dom().contains(name) && now
            <= self.registrations[name].grace_period_ends_at {
            Err(RegistrarError::AlreadyRegistered)
        } else if self.registry is None {
            Err(RegistrarError::NotInitialized)
        } else {
            Ok(())
        }
    }

    /// The registrar's own verdict on a renewal, before the registry is asked.
    /// `grace_only` restricts it to names that have already expired.
    pub open spec fn renew_check(
        self,
        name: Seq<char>,
        caller: Seq<char>,
        years: u64,
        payment: u64,
        now: u64,
        grace_only: bool,
    ) -> Result<(), RegistrarError> {
        if !valid_base_name(name) {
            Err(RegistrarError::Validation)
        } else if !valid_registration_years(years as int) {
            Err(RegistrarError::Validation)
        } else if !self.registrations.dom().contains(name) {
            Err(RegistrarError::NotFound)
        } else if self.registrations[name].owner@ != caller {
            Err(RegistrarError::Unauthorized)
        } else if grace_only && now <= self.registrations[name].expires_at {
            Err(RegistrarError::NotRenewable)
        } else if spec_can_renew(self.registrations[name].grace_period_ends_at, now) is Err {
            Err(RegistrarError::RegistrationClaimable)
        } else if payment < self.renewal_quote(name, years, now).fee_stroops {
            Err(RegistrarError::InsufficientFee)
        } else if self.registry is None {
            Err(RegistrarError::NotInitialized)
        } else {
            Ok(())
        }
    }

    /// The status of a label at `now`.
    pub open spec fn status(self, label: Seq<char>, now: u64) -> RegistrationStatus {
        let name = label + xlm_suffix();
        if self.reserved.contains(label) {
            RegistrationStatus::Reserved
        } else if !valid_label(label) || !self.registrations.dom().contains(name) {
            RegistrationStatus::Unavailable
        } else if now <= self.registrations[name].expires_at {
            RegistrationStatus::Active
        } else if now <= self.registrations[name].grace_period_ends_at {
            RegistrationStatus::GracePeriod
        } else {
            RegistrationStatus::Claimable
        }
    }

    /// Whether a label can be registered at `now` (reservations aside).
    pub open spec fn available(self, label: Seq<char>, now: u64) -> bool {
        let name = label + xlm_suffix();
        valid_label(label) && (!self.registrations.dom().contains(name) || now
            > self.registrations[name].grace_period_ends_at)
    }
}

/// Whether a record holds exactly these values.
pub open spec fn record_is(
    r: RegistrationRecord,
    name: Seq<char>,
    owner: Seq<char>,
    now: u64,
    quote: RegistrationQuote,
    payment: u64,
) -> bool {
    &&& r.name@ == name
    &&& r.owner@ == owner
    &&& r.registered_at == now
    &&& r.expires_at == quote.expiry_unix
    &&& r.grace_period_ends_at == quote.grace_period_ends_at
    &&& r.fee_paid == payment
    &&& r.renewed_at == now
}

/// The events a manifest announces: one per label, in order, `ReservedAdded` for a label
/// it newly reserves and `ReservedSkipped` for any other.
pub open spec fn manifest_events(reserved: Set<Seq<char>>, labels: Seq<String>) -> Seq<RegistrarEvent>
    decreases labels.len(),
{
    if labels.len() == 0 {
        Seq::empty()
    } else {
        let before = manifest_result(reserved, labels.drop_last().map_values(|s: String| s@)).0;
        let l = labels.last();
        manifest_events(reserved, labels.drop_last()).push(
            if valid_label(l@) && !before.contains(l@) {
                RegistrarEvent::ReservedAdded { label: l }
            } else {
                RegistrarEvent::ReservedSkipped { label: l }
            },
        )
    }
}

/// Labels reserved by a manifest, and how many of them were new: the labels are taken
/// in order, invalid and already reserved ones are skipped.
pub open spec fn manifest_result(reserved: Set<Seq<char>>, labels: Seq<Seq<char>>) -> (Set<Seq<char>>, nat)
    decreases labels.len(),
{
    if labels.len() == 0 {
        (reserved, 0)
    } else {
        let prev = manifest_result(reserved, labels.drop_last());
        let l = labels.last();
        if valid_label(l) && !prev.0.contains(l) {
            (prev.0.insert(l), prev.1 + 1)
        } else {
            prev
        }
    }
}

spec fn opt_seq(o: Option<String>) -> Option<Seq<char>> {
    match o {
        Some(s) => Some(s@),
        None => None,
    }
}

/// The registrar's state.
pub struct RegistrarContract {
    registrations: StrMap<RegistrationRecord>,
    reserved: StrMap<bool>,
    whitelist: StrMap<bool>,
    windows: StrMap<U64Map>,
    treasury: u64,
    registration_count: u64,
    renewal_count: u64,
    rate_limit: RateLimitConfig,
    registry: Option<String>,
    admin: Option<String>,
    version: Option<u32>,
    grace_period: u64,
    events: Vec<RegistrarEvent>,
}

impl View for RegistrarContract {
    type V = RegistrarView;

    closed spec fn view(&self) -> RegistrarView {
        RegistrarView {
            registrations: self.registrations@,
            reserved: Set::new(|l: Seq<char>| self.reserved@.dom().contains(l) && self.reserved@[l]),
            whitelist: Set::new(
                |a: Seq<char>| self.whitelist@.dom().contains(a) && self.whitelist@[a],
            ),
            windows: Map::new(
                |k: (Seq<char>, u64)|
                    self.windows@.dom().contains(k.0) && self.windows@[k.0]@.dom().contains(k.1),
                |k: (Seq<char>, u64)| self.windows@[k.0]@[k.1],
            ),
            treasury: self.treasury,
            total_registrations: self.registration_count,
            total_renewals: self.renewal_count,
            rate_limit: self.rate_limit,
            registry: opt_seq(self.registry),
            admin: opt_seq(self.admin),
            version: self.version,
            grace_period: self.grace_period,
            events: self.events@,
        }
    }
}

impl RegistrarContract {
    /// The admin's account (meaningful once initialized).
    pub closed spec fn admin_account(&self) -> String {
        self.admin.unwrap()
    }

    /// Every event announced so far, oldest first.
    pub fn events(&self) -> (r: &Vec<RegistrarEvent>)
        ensures
            r@ == self@.events,
    {
        &self.events
    }

    /// A registrar with no sales and the default configuration.
    pub fn new() -> (r: Self)
        ensures
            r@.registrations == Map::<Seq<char>, RegistrationRecord>::empty(),
            r@.reserved == Set::<Seq<char>>::empty(),
            r@.whitelist == Set::<Seq<char>>::empty(),
            r@.windows == Map::<(Seq<char>, u64), u64>::empty(),
            r@.treasury == 0,
            r@.total_registrations == 0,
            r@.total_renewals == 0,
            r@.rate_limit == default_rate_limit(),
            r@.registry is None,
            r@.admin is None,
            r@.version is None,
            r@.grace_period == DEFAULT_GRACE_PERIOD_SECONDS,
            r@.events == Seq::<RegistrarEvent>::empty(),
    {
        let r = RegistrarContract {
            registrations: StrMap::new(),
            reserved: StrMap::new(),
            whitelist: StrMap::new(),
            windows: StrMap::new(),
            treasury: 0,
            registration_count: 0,
            renewal_count: 0,
            rate_limit: RateLimitConfig {
                window_size_seconds: DEFAULT_RATE_LIMIT_WINDOW_SECONDS,
                max_registrations_per_window: DEFAULT_MAX_REGISTRATIONS_PER_WINDOW,
            },
            registry: None,
            admin: None,
            version: None,
            grace_period: DEFAULT_GRACE_PERIOD_SECONDS,
            events: Vec::new(),
        };
        assert(r@.reserved =~= Set::<Seq<char>>::empty());
        assert(r@.whitelist =~= Set::<Seq<char>>::empty());
        assert(r@.windows =~= Map::<(Seq<char>, u64), u64>::empty());
        r
    }

    /// Connects the registrar to its registry and sets its admin, once.
    pub fn initialize(&mut self, registry: String, admin: String) -> (r: Result<(), RegistrarError>)
        ensures
            old(self)@.registry is Some ==> r == Err::<(), RegistrarError>(
                RegistrarError::AlreadyInitialized,
            ) && final(self)@ == old(self)@,
            old(self)@.registry is None ==> r is Ok && final(self)@ == (RegistrarView {
                registry: Some(registry@),
                admin: Some(admin@),
                version: Some(CONTRACT_VERSION),
                ..old(self)@
            }),
    {
        if self.registry.is_some() {
            return Err(RegistrarError::AlreadyInitialized);
        }
        let ghost v0 = self@;
        self.registry = Some(registry);
        self.admin = Some(admin);
        self.version = Some(CONTRACT_VERSION);
        assert(self@ =~= RegistrarView {
            registry: Some(registry@),
            admin: Some(admin@),
            version: Some(CONTRACT_VERSION),
            ..v0
        });
        Ok(())
    }

    /// The version this code implements.
    pub fn version(&self) -> (r: u32)
        ensures
            r == CONTRACT_VERSION,
    {
        CONTRACT_VERSION
    }

    /// The stored version, or the code's version when none is stored.
    pub fn get_version(&self) -> (r: u32)
        ensures
            r == match self@.version {
                Some(v) => v,
                None => CONTRACT_VERSION,
            },
    {
        match self.version {
            Some(v) => v,
            None => CONTRACT_VERSION,
        }
    }

    /// Moves the stored version to the one named by the migration data (admin only).
    pub fn upgrade(&mut self, migration_data: &Vec<u8>) -> (r: Result<(), RegistrarError>)
        ensures
            old(self)@.admin is None ==> r == Err::<(), RegistrarError>(
                RegistrarError::UpgradeFailed,
            ) && final(self)@ == old(self)@,
            old(self)@.admin is Some ==> r is Ok && final(self)@ == (RegistrarView {
                version: Some(spec_target_version(migration_data@)),
                events: old(self)@.events.push(
                    RegistrarEvent::ContractUpgraded {
                        old_version: match old(self)@.version {
                            Some(v) => v,
                            None => CONTRACT_VERSION,
                        },
                        new_version: spec_target_version(migration_data@),
                        admin: old(self).admin_account(),
                    },
                ),
                ..old(self)@
            }),
    {
        if self.admin.is_none() {
            return Err(RegistrarError::UpgradeFailed);
        }
        let ghost v0 = self@;
        let old_version = self.get_version();
        let new_version = decode_target_version(migration_data);
        let admin = self.admin.clone().unwrap();
        self.version = Some(new_version);
        self.events.push(RegistrarEvent::ContractUpgraded { old_version, new_version, admin });
        assert(self@ =~= RegistrarView {
            version: Some(spec_target_version(migration_data@)),
            events: v0.events.push(
                RegistrarEvent::ContractUpgraded { old_version, new_version, admin: old(self).admin_account() },
            ),
            ..v0
        });
        Ok(())
    }

    fn is_reserved(&self, label: &String) -> (r: bool)
        ensures
            r == self@.reserved.contains(label@),
    {
        match self.reserved.get(label) {
            Some(b) => *b,
            None => false,
        }
    }

    fn add_reserved(&mut self, label: &String)
        ensures
            final(self)@ == (RegistrarView { reserved: old(self)@.reserved.insert(label@), ..old(self)@ }),
    {
        let ghost v0 = self@;
        self.reserved.insert(label.clone(), true);
        assert(self@.reserved =~= v0.reserved.insert(label@));
        assert(self@ =~= RegistrarView { reserved: v0.reserved.insert(label@), ..v0 });
    }

    /// Reserves a valid label so that nobody can register it; reserving it again changes nothing.
    pub fn reserve_label(&mut self, label: &String) -> (r: Result<(), RegistrarError>)
        ensures
            !valid_label(label@) ==> r == Err::<(), RegistrarError>(RegistrarError::Validation)
                && final(self)@ == old(self)@,
            valid_label(label@) ==> r is Ok && final(self)@ == (RegistrarView {
                reserved: old(self)@.reserved.insert(label@),
                events: old(self)@.events.push(
                    if old(self)@.reserved.contains(label@) {
                        RegistrarEvent::ReservedSkipped { label: *label }
                    } else {
                        RegistrarEvent::ReservedAdded { label: *label }
                    },
                ),
                ..old(self)@
            }),
    {
        if !validate_label(label) {
            return Err(RegistrarError::Validation);
        }
        let ghost v0 = self@;
        if self.is_reserved(label) {
            self.events.push(RegistrarEvent::ReservedSkipped { label: label.clone() });
            assert(v0.reserved.insert(label@) =~= v0.reserved);
            assert(self@ =~= RegistrarView {
                reserved: v0.reserved.insert(label@),
                events: v0.events.push(RegistrarEvent::ReservedSkipped { label: *label }),
                ..v0
            });
            return Ok(());
        }
        self.add_reserved(label);
        self.events.push(RegistrarEvent::ReservedAdded { label: label.clone() });
        assert(self@ =~= RegistrarView {
            reserved: v0.reserved.insert(label@),
            events: v0.events.push(RegistrarEvent::ReservedAdded { label: *label }),
            ..v0
        });
        Ok(())
    }

    /// Reserves every valid label of the list and reports how many were newly reserved;
    /// invalid labels are skipped.
    pub fn load_reserved_manifest(&mut self, labels: &Vec<String>) -> (r: Result<u32, RegistrarError>)
        requires
            labels@.len() <= u32::MAX,
        ensures
            r is Ok,
            r matches Ok(n) ==> n == manifest_result(
                old(self)@.reserved,
                labels@.map_values(|s: String| s@),
            ).1,
            final(self)@ == (RegistrarView {
                reserved: manifest_result(old(self)@.reserved, labels@.map_values(|s: String| s@)).0,
                events: old(self)@.events + manifest_events(old(self)@.reserved, labels@),
                ..old(self)@
            }),
    {
        let ghost v0 = self@;
        let ghost all = labels@.map_values(|s: String| s@);
        let mut added: u32 = 0;
        let mut i: usize = 0;
        while i < labels.len()
            invariant
                i <= labels@.len(),
                labels@.len() <= u32::MAX,
                all == labels@.map_values(|s: String| s@),
                added <= i,
                (self@.reserved, added as nat) == manifest_result(v0.reserved, all.take(i as int)),
                self@.events == v0.events + manifest_events(v0.reserved, labels@.take(i as int)),
                self@ == (RegistrarView { reserved: self@.reserved, events: self@.events, ..v0 }),
            decreases labels@.len() - i,
        {
            let label = &labels[i];
            let ghost ev0 = self@.events;
            proof {
                assert(all.take(i + 1).drop_last() =~= all.take(i as int));
                assert(all.take(i + 1).last() == label@);
                assert(labels@.take(i + 1).drop_last() =~= labels@.take(i as int));
                assert(labels@.take(i + 1).last() == *label);
                assert(labels@.take(i as int).map_values(|s: String| s@) =~= all.take(i as int));
            }
            if validate_label(label) && !self.is_reserved(label) {
                self.add_reserved(label);
                self.events.push(RegistrarEvent::ReservedAdded { label: label.clone() });
                added = added + 1;
            } else {
                self.events.push(RegistrarEvent::ReservedSkipped { label: label.clone() });
            }
            proof {
                assert(self@.events =~= v0.events + manifest_events(v0.reserved, labels@.take(i + 1)));
            }
            i = i + 1;
        }
        proof {
            assert(all.take(labels@.len() as int) =~= all);
            assert(labels@.take(labels@.len() as int) =~= labels@);
        }
        Ok(added)
    }

    fn build_quote(&self, label_len: usize, years: u64, now_unix: u64) -> (q: RegistrationQuote)
        ensures
            q == spec_build_quote(label_len as int, years, now_unix, self@.grace_period),
    {
        let annual = price_for_label_length(label_len);
        let expiry = expiry_from_now(now_unix, years);
        RegistrationQuote {
            fee_stroops: mul_sat(annual, years),
            expiry_unix: expiry,
            grace_period_ends_at: add_sat(expiry, self.grace_period),
            pricing: PricingBreakdown {
                annual_fee_stroops: annual,
                duration_years: years,
                premium_stroops: 0,
            },
        }
    }

    fn build_renewal_quote(&self, label_len: usize, current_expiry: u64, years: u64, now_unix: u64) -> (q:
        RenewalQuote)
        ensures
            q == spec_renewal_quote(label_len as int, current_expiry, years, now_unix, self@.grace_period),
    {
        let annual = price_for_label_length(label_len);
        let base = if current_expiry > now_unix {
            current_expiry
        } else {
            now_unix
        };
        let extended = expiry_from_now(base, years);
        RenewalQuote {
            fee_stroops: mul_sat(annual, years),
            current_expiry_unix: current_expiry,
            extended_expiry_unix: extended,
            grace_period_ends_at: add_sat(extended, self.grace_period),
            pricing: PricingBreakdown {
                annual_fee_stroops: annual,
                duration_years: years,
                premium_stroops: 0,
            },
        }
    }

    /// The price and lifecycle of registering a label for `years` years at `now_unix`.
    pub fn quote_registration(&self, label: &String, years: u64, now_unix: u64) -> (r: Result<
        RegistrationQuote,
        RegistrarError,
    >)
        ensures
            !valid_label(label@) || !valid_registration_years(years as int) ==> r == Err::<
                RegistrationQuote,
                RegistrarError,
            >(RegistrarError::Validation),
            valid_label(label@) && valid_registration_years(years as int) ==> r == Ok::<
                RegistrationQuote,
                RegistrarError,
            >(self@.quote(label@, years, now_unix)),
    {
        if !validate_label(label) || !validate_registration_years(years) {
            return Err(RegistrarError::Validation);
        }
        Ok(self.build_quote(char_len(label), years, now_unix))
    }

    /// The price of renewing a registered name, with its expiry before and after.
    pub fn quote_renewal(&self, name: &String, years: u64, now_unix: u64) -> (r: Result<
        RenewalQuote,
        RegistrarError,
    >)
        ensures
            !valid_base_name(name@) || !valid_registration_years(years as int) ==> r == Err::<
                RenewalQuote,
                RegistrarError,
            >(RegistrarError::Validation),
            valid_base_name(name@) && valid_registration_years(years as int)
                && !self@.registrations.dom().contains(name@) ==> r == Err::<
                RenewalQuote,
                RegistrarError,
            >(RegistrarError::NotFound),
            valid_base_name(name@) && valid_registration_years(years as int)
                && self@.registrations.dom().contains(name@) ==> r == Ok::<
                RenewalQuote,
                RegistrarError,
            >(self@.renewal_quote(name@, years, now_unix)),
    {
        let label = match extract_label(name) {
            Some(l) => l,
            None => return Err(RegistrarError::Validation),
        };
        if !validate_registration_years(years) {
            return Err(RegistrarError::Validation);
        }
        match self.registrations.get(name) {
            None => Err(RegistrarError::NotFound),
            Some(record) => Ok(
                self.build_renewal_quote(char_len(&label), record.expires_at, years, now_unix),
            ),
        }
    }

    /// Version of the pricing table.
    pub fn pricing_policy_version(&self) -> (r: u32)
        ensures
            r == PRICING_POLICY_VERSION,
    {
        PRICING_POLICY_VERSION
    }

    fn window_count(&self, owner: &String, now_unix: u64) -> (r: u64)
        ensures
            r == self@.window_count(owner@, now_unix),
    {
        let start = sub_sat(now_unix, self.rate_limit.window_size_seconds);
        match self.windows.get(owner) {
            Some(w) => w.get_or_zero(start),
            None => 0,
        }
    }

    fn is_rate_limited(&self, owner: &String, now_unix: u64) -> (r: bool)
        ensures
            r == self@.rate_limited(owner@, now_unix),
    {
        if self.is_whitelisted(owner) {
            return false;
        }
        self.window_count(owner, now_unix) >= self.rate_limit.max_registrations_per_window
    }

    fn record_registration(&mut self, owner: &String, now_unix: u64)
        ensures
            final(self)@ == (RegistrarView {
                windows: old(self)@.windows.insert(
                    (owner@, old(self)@.window_start(now_unix)),
                    sat_add(old(self)@.window_count(owner@, now_unix) as int, 1) as u64,
                ),
                ..old(self)@
            }),
    {
        let ghost v0 = self@;
        let start = sub_sat(now_unix, self.rate_limit.window_size_seconds);
        let count = self.window_count(owner, now_unix);
        let mut w = match self.windows.remove(owner) {
            Some(w) => w,
            None => U64Map::new(),
        };
        w.insert(start, add_sat(count, 1));
        self.windows.insert(owner.clone(), w);
        let ghost k = (owner@, start);
        assert(self@.windows =~= v0.windows.insert(k, sat_add(count as int, 1) as u64));
        assert(self@ =~= RegistrarView {
            windows: v0.windows.insert(k, sat_add(count as int, 1) as u64),
            ..v0
        });
    }

    /// Registers `label.xlm` to the owner for `years` years and records the sale in the
    /// registry. A payment of at least the quoted fee is accepted; the record keeps the
    /// payment, and the treasury grows by the quoted fee.
    pub fn register(
        &mut self,
        registry: &mut RegistryContract,
        label: &String,
        owner: &String,
        years: u64,
        payment_stroops: u64,
        now_unix: u64,
    ) -> (r: Result<(), RegistrarError>)
        ensures
            ({
                let v = old(self)@;
                let n = label@ + xlm_suffix();
                let q = v.quote(label@, years, now_unix);
                &&& r == match v.register_check(label@, owner@, years, payment_stroops, now_unix) {
                    Err(e) => Err(e),
                    Ok(_) => match old(registry).register_check(
                        n,
                        None,
                        now_unix as int,
                        q.expiry_unix as int,
                        q.grace_period_ends_at as int,
                    ) {
                        Err(e) => Err(RegistrarError::Registry(e)),
                        Ok(_) => Ok(()),
                    },
                }
                &&& r is Err ==> final(self)@ == v && *final(registry) == *old(registry)
                &&& r is Ok ==> {
                    &&& final(self)@.registrations.dom() == v.registrations.dom().insert(n)
                    &&& final(self)@.registrations.remove(n) == v.registrations.remove(n)
                    &&& record_is(final(self)@.registrations[n], n, owner@, now_unix, q, payment_stroops)
                    &&& final(self)@.windows == v.windows.insert(
                        (owner@, v.window_start(now_unix)),
                        sat_add(v.window_count(owner@, now_unix) as int, 1) as u64,
                    )
                    &&& final(self)@.treasury == sat_add(v.treasury as int, q.fee_stroops as int)
                    &&& final(self)@.total_registrations == sat_add(v.total_registrations as int, 1)
                    &&& final(self)@ == (RegistrarView {
                        registrations: final(self)@.registrations,
                        windows: final(self)@.windows,
                        treasury: final(self)@.treasury,
                        total_registrations: final(self)@.total_registrations,
                        events: v.events.push(
                            RegistrarEvent::Registered {
                                label: *label,
                                owner: *owner,
                                payment_stroops: payment_stroops,
                                expires_at: q.expiry_unix,
                                grace_period_ends_at: q.grace_period_ends_at,
                            },
                        ),
                        ..v
                    })
                    &&& exists|nm: String|
                        nm@ == n && #[trigger] old(registry).registered(
                            &*final(registry),
                            nm,
                            *owner,
                            None,
                            None,
                            now_unix,
                            q.expiry_unix,
                            q.grace_period_ends_at,
                        )
                    &&& old(registry).index_consistent() ==> final(registry).index_consistent()
                }
            }),
    {
        let ghost v0 = self@;
        if !validate_label(label) {
            return Err(RegistrarError::Validation);
        }
        if !validate_registration_years(years) {
            return Err(RegistrarError::Validation);
        }
        if self.is_reserved(label) {
            return Err(RegistrarError::Reserved);
        }
        if self.is_rate_limited(owner, now_unix) {
            return Err(RegistrarError::RateLimitExceeded);
        }
        let quote = self.build_quote(char_len(label), years, now_unix);
        if payment_stroops < quote.fee_stroops {
            return Err(RegistrarError::InsufficientFee);
        }
        let name = match build_xlm_name(label) {
            Some(n) => n,
            None => return Err(RegistrarError::Validation),
        };
        match self.registrations.get(&name) {
            Some(existing) => {
                if now_unix <= existing.grace_period_ends_at {
                    return Err(RegistrarError::AlreadyRegistered);
                }
            },
            None => {},
        }
        if self.registry.is_none() {
            return Err(RegistrarError::NotInitialized);
        }
        let ghost registry0 = *registry;
        let ghost registered_name = name;
        match registry.register(
            name.clone(),
            owner.clone(),
            None,
            None,
            now_unix,
            quote.expiry_unix,
            quote.grace_period_ends_at,
        ) {
            Err(e) => {
                return Err(RegistrarError::Registry(e));
            },
            Ok(()) => {},
        }
        assert(registry0.registered(
            &*registry,
            registered_name,
            *owner,
            None,
            None,
            now_unix,
            quote.expiry_unix,
            quote.grace_period_ends_at,
        ));
        let record = RegistrationRecord {
            name: name.clone(),
            owner: owner.clone(),
            registered_at: now_unix,
            expires_at: quote.expiry_unix,
            grace_period_ends_at: quote.grace_period_ends_at,
            fee_paid: payment_stroops,
            renewed_at: now_unix,
        };
        let ghost n = name@;
        self.registrations.insert(name, record);
        let ghost v1 = self@;
        assert(v1 =~= RegistrarView { registrations: v0.registrations.insert(n, record), ..v0 });
        self.record_registration(owner, now_unix);
        self.treasury = add_sat(self.treasury, quote.fee_stroops);
        self.registration_count = add_sat(self.registration_count, 1);
        self.events.push(
            RegistrarEvent::Registered {
                label: label.clone(),
                owner: owner.clone(),
                payment_stroops,
                expires_at: quote.expiry_unix,
                grace_period_ends_at: quote.grace_period_ends_at,
            },
        );
        proof {
            assert(self@.registrations.dom() =~= v0.registrations.dom().insert(n));
            assert(self@.registrations.remove(n) =~= v0.registrations.remove(n));
            assert(registry.entries().remove(n) =~= old(registry).entries().remove(n));
        }
        Ok(())
    }

    fn renew_inner(
        &mut self,
        registry: &mut RegistryContract,
        name: &String,
        caller: &String,
        years: u64,
        payment_stroops: u64,
        now_unix: u64,
        grace_only: bool,
    ) -> (r: Result<(), RegistrarError>)
        ensures
            ({
                let v = old(self)@;
                let q = v.renewal_quote(name@, years, now_unix);
                &&& r == match v.renew_check(
                    name@,
                    caller@,
                    years,
                    payment_stroops,
                    now_unix,
                    grace_only,
                ) {
                    Err(e) => Err(e),
                    Ok(_) => match old(registry).renew_check(
                        name@,
                        caller@,
                        q.extended_expiry_unix as int,
                        q.grace_period_ends_at as int,
                        now_unix as int,
                    ) {
                        Err(e) => Err(RegistrarError::Registry(e)),
                        Ok(_) => Ok(()),
                    },
                }
                &&& r is Err ==> final(self)@ == v && *final(registry) == *old(registry)
                &&& r is Ok ==> {
                    &&& final(self)@ == (RegistrarView {
                        registrations: v.registrations.insert(
                            name@,
                            RegistrationRecord {
                                expires_at: q.extended_expiry_unix,
                                grace_period_ends_at: q.grace_period_ends_at,
                                renewed_at: now_unix,
                                fee_paid: sat_add(
                                    v.registrations[name@].fee_paid as int,
                                    payment_stroops as int,
                                ) as u64,
                                ..v.registrations[name@]
                            },
                        ),
                        treasury: sat_add(v.treasury as int, payment_stroops as int) as u64,
                        total_renewals: sat_add(v.total_renewals as int, 1) as u64,
                        events: v.events.push(
                            RegistrarEvent::Renewed {
                                name: *name,
                                caller: *caller,
                                payment_stroops: payment_stroops,
                                expires_at: q.extended_expiry_unix,
                                grace_period_ends_at: q.grace_period_ends_at,
                            },
                        ),
                        ..v
                    })
                    &&& old(registry).renewed(
                        &*final(registry),
                        *name,
                        q.extended_expiry_unix,
                        q.grace_period_ends_at,
                        now_unix,
                    )
                    &&& old(registry).index_consistent() ==> final(registry).index_consistent()
                }
            }),
    {
        let ghost v0 = self@;
        let label = match extract_label(name) {
            Some(l) => l,
            None => return Err(RegistrarError::Validation),
        };
        if !validate_registration_years(years) {
            return Err(RegistrarError::Validation);
        }
        let (quote, fee_paid) = match self.registrations.get(name) {
            None => {
                return Err(RegistrarError::NotFound);
            },
            Some(record) => {
                if !same_str(&record.owner, caller) {
                    return Err(RegistrarError::Unauthorized);
                }
                if grace_only && now_unix <= record.expires_at {
                    return Err(RegistrarError::NotRenewable);
                }
                match can_renew(record.grace_period_ends_at, now_unix) {
                    Ok(_) => {},
                    Err(e) => {
                        return Err(e);
                    },
                }
                (
                    self.build_renewal_quote(char_len(&label), record.expires_at, years, now_unix),
                    record.fee_paid,
                )
            },
        };
        if payment_stroops < quote.fee_stroops {
            return Err(RegistrarError::InsufficientFee);
        }
        if self.registry.is_none() {
            return Err(RegistrarError::NotInitialized);
        }
        match registry.renew(
            name,
            caller,
            quote.extended_expiry_unix,
            quote.grace_period_ends_at,
            now_unix,
        ) {
            Err(e) => {
                return Err(RegistrarError::Registry(e));
            },
            Ok(()) => {},
        }
        let mut record = self.registrations.remove(name).unwrap();
        record.expires_at = quote.extended_expiry_unix;
        record.grace_period_ends_at = quote.grace_period_ends_at;
        record.renewed_at = now_unix;
        record.fee_paid = add_sat(fee_paid, payment_stroops);
        self.registrations.insert(name.clone(), record);
        self.treasury = add_sat(self.treasury, payment_stroops);
        self.renewal_count = add_sat(self.renewal_count, 1);
        self.events.push(
            RegistrarEvent::Renewed {
                name: name.clone(),
                caller: caller.clone(),
                payment_stroops,
                expires_at: quote.extended_expiry_unix,
                grace_period_ends_at: quote.grace_period_ends_at,
            },
        );
        proof {
            assert(self@.registrations =~= v0.registrations.insert(name@, record));
        }
        assert(self@ =~= RegistrarView {
            registrations: v0.registrations.insert(name@, record),
            treasury: sat_add(v0.treasury as int, payment_stroops as int) as u64,
            total_renewals: sat_add(v0.total_renewals as int, 1) as u64,
            events: v0.events.push(
                RegistrarEvent::Renewed {
                    name: *name,
                    caller: *caller,
                    payment_stroops,
                    expires_at: quote.extended_expiry_unix,
                    grace_period_ends_at: quote.grace_period_ends_at,
                },
            ),
            ..v0
        });
        Ok(())
    }

    /// Renews a name (owner only) until its grace period ends, extending from the later
    /// of its expiry and `now_unix`, and records the renewal in the registry. The payment
    /// is added to the record's fee paid and to the treasury.
    pub fn renew(
        &mut self,
        registry: &mut RegistryContract,
        name: &String,
        caller: &String,
        years: u64,
        payment_stroops: u64,
        now_unix: u64,
    ) -> (r: Result<(), RegistrarError>)
        ensures
            ({
                let v = old(self)@;
                let q = v.renewal_quote(name@, years, now_unix);
                &&& r == match v.renew_check(name@, caller@, years, payment_stroops, now_unix, false) {
                    Err(e) => Err(e),
                    Ok(_) => match old(registry).renew_check(
                        name@,
                        caller@,
                        q.extended_expiry_unix as int,
                        q.grace_period_ends_at as int,
                        now_unix as int,
                    ) {
                        Err(e) => Err(RegistrarError::Registry(e)),
                        Ok(_) => Ok(()),
                    },
                }
                &&& r is Err ==> final(self)@ == v && *final(registry) == *old(registry)
                &&& r is Ok ==> {
                    &&& final(self)@ == (RegistrarView {
                        registrations: v.registrations.insert(
                            name@,
                            RegistrationRecord {
                                expires_at: q.extended_expiry_unix,
                                grace_period_ends_at: q.grace_period_ends_at,
                                renewed_at: now_unix,
                                fee_paid: sat_add(
                                    v.registrations[name@].fee_paid as int,
                                    payment_stroops as int,
                                ) as u64,
                                ..v.registrations[name@]
                            },
                        ),
                        treasury: sat_add(v.treasury as int, payment_stroops as int) as u64,
                        total_renewals: sat_add(v.total_renewals as int, 1) as u64,
                        events: v.events.push(
                            RegistrarEvent::Renewed {
                                name: *name,
                                caller: *caller,
                                payment_stroops: payment_stroops,
                                expires_at: q.extended_expiry_unix,
                                grace_period_ends_at: q.grace_period_ends_at,
                            },
                        ),
                        ..v
                    })
                    &&& old(registry).renewed(
                        &*final(registry),
                        *name,
                        q.extended_expiry_unix,
                        q.grace_period_ends_at,
                        now_unix,
                    )
                    &&& old(registry).index_consistent() ==> final(registry).index_consistent()
                }
            }),
    {
        self.renew_inner(registry, name, caller, years, payment_stroops, now_unix, false)
    }

    /// Renews a name that has expired but is still in its grace period (owner only); the
    /// new term starts at `now_unix`.
    pub fn extend_during_grace(
        &mut self,
        registry: &mut RegistryContract,
        name: &String,
        caller: &String,
        years: u64,
        payment_stroops: u64,
        now_unix: u64,
    ) -> (r: Result<(), RegistrarError>)
        ensures
            ({
                let v = old(self)@;
                let q = v.renewal_quote(name@, years, now_unix);
                &&& r == match v.renew_check(name@, caller@, years, payment_stroops, now_unix, true) {
                    Err(e) => Err(e),
                    Ok(_) => match old(registry).renew_check(
                        name@,
                        caller@,
                        q.extended_expiry_unix as int,
                        q.grace_period_ends_at as int,
                        now_unix as int,
                    ) {
                        Err(e) => Err(RegistrarError::Registry(e)),
                        Ok(_) => Ok(()),
                    },
                }
                &&& r is Err ==> final(self)@ == v && *final(registry) == *old(registry)
                &&& r is Ok ==> {
                    &&& q.extended_expiry_unix == spec_expiry_from_now(now_unix as int, years as int)
                    &&& final(self)@ == (RegistrarView {
                        registrations: v.registrations.insert(
                            name@,
                            RegistrationRecord {
                                expires_at: q.extended_expiry_unix,
                                grace_period_ends_at: q.grace_period_ends_at,
                                renewed_at: now_unix,
                                fee_paid: sat_add(
                                    v.registrations[name@].fee_paid as int,
                                    payment_stroops as int,
                                ) as u64,
                                ..v.registrations[name@]
                            },
                        ),
                        treasury: sat_add(v.treasury as int, payment_stroops as int) as u64,
                        total_renewals: sat_add(v.total_renewals as int, 1) as u64,
                        events: v.events.push(
                            RegistrarEvent::Renewed {
                                name: *name,
                                caller: *caller,
                                payment_stroops: payment_stroops,
                                expires_at: q.extended_expiry_unix,
                                grace_period_ends_at: q.grace_period_ends_at,
                            },
                        ),
                        ..v
                    })
                    &&& old(registry).renewed(
                        &*final(registry),
                        *name,
                        q.extended_expiry_unix,
                        q.grace_period_ends_at,
                        now_unix,
                    )
                    &&& old(registry).index_consistent() ==> final(registry).index_consistent()
                }
            }),
    {
        self.renew_inner(registry, name, caller, years, payment_stroops, now_unix, true)
    }

    /// The registrar's record of a name.
    pub fn registration(&self, name: &String) -> (r: Option<RegistrationRecord>)
        ensures
            r == if self@.registrations.dom().contains(name@) {
                Some(self@.registrations[name@])
            } else {
                None::<RegistrationRecord>
            },
    {
        match self.registrations.get(name) {
            Some(record) => Some(record.copy()),
            None => None,
        }
    }

    /// Whether `label.xlm` can be bought at `now_unix`: a valid label that was never sold
    /// or whose grace period is over.
    pub fn is_available(&self, label: &String, now_unix: u64) -> (r: bool)
        ensures
            r == self@.available(label@, now_unix),
    {
        let name = match build_xlm_name(label) {
            Some(n) => n,
            None => return false,
        };
        match self.registrations.get(&name) {
            Some(record) => now_unix > record.grace_period_ends_at,
            None => true,
        }
    }

    /// Fees collected so far.
    pub fn treasury_balance(&self) -> (r: u64)
        ensures
            r == self@.treasury,
    {
        self.treasury
    }

    /// Treasury and operation counters.
    pub fn fee_metrics(&self) -> (r: RegistrarMetrics)
        ensures
            r == (RegistrarMetrics {
                treasury_balance: self@.treasury,
                total_registrations: self@.total_registrations,
                total_renewals: self@.total_renewals,
            }),
    {
        RegistrarMetrics {
            treasury_balance: self.treasury,
            total_registrations: self.registration_count,
            total_renewals: self.renewal_count,
        }
    }

    /// Admin recovery is not supported: names leave an owner only through expiry.
    pub fn supports_admin_recovery(&self) -> (r: bool)
        ensures
            r == ADMIN_RECOVERY_SUPPORTED,
    {
        ADMIN_RECOVERY_SUPPORTED
    }

    /// The lifecycle status of a label at `now_unix`.
    pub fn registration_status(&self, label: &String, now_unix: u64) -> (r: RegistrationStatus)
        ensures
            r == self@.status(label@, now_unix),
    {
        if self.is_reserved(label) {
            return RegistrationStatus::Reserved;
        }
        let name = match build_xlm_name(label) {
            Some(n) => n,
            None => return RegistrationStatus::Unavailable,
        };
        match self.registrations.get(&name) {
            None => RegistrationStatus::Unavailable,
            Some(record) => {
                if now_unix <= record.expires_at {
                    RegistrationStatus::Active
                } else if now_unix <= record.grace_period_ends_at {
                    RegistrationStatus::GracePeriod
                } else {
                    RegistrationStatus::Claimable
                }
            },
        }
    }

    /// The same figures as `fee_metrics`, for reconciliation.
    pub fn accounting_report(&self) -> (r: RegistrarMetrics)
        ensures
            r == (RegistrarMetrics {
                treasury_balance: self@.treasury,
                total_registrations: self@.total_registrations,
                total_renewals: self@.total_renewals,
            }),
    {
        self.fee_metrics()
    }

    /// Replaces the rate limit.
    pub fn set_rate_limit_config(&mut self, window_size_seconds: u64, max_registrations_per_window: u64) -> (r:
        Result<(), RegistrarError>)
        ensures
            r is Ok,
            final(self)@ == (RegistrarView {
                rate_limit: RateLimitConfig { window_size_seconds, max_registrations_per_window },
                events: old(self)@.events.push(
                    RegistrarEvent::RateLimitSet { window_size_seconds, max_registrations_per_window },
                ),
                ..old(self)@
            }),
    {
        let ghost v0 = self@;
        self.rate_limit = RateLimitConfig { window_size_seconds, max_registrations_per_window };
        self.events.push(RegistrarEvent::RateLimitSet { window_size_seconds, max_registrations_per_window });
        assert(self@ =~= RegistrarView {
            rate_limit: RateLimitConfig { window_size_seconds, max_registrations_per_window },
            events: v0.events.push(
                RegistrarEvent::RateLimitSet { window_size_seconds, max_registrations_per_window },
            ),
            ..v0
        });
        Ok(())
    }

    /// The rate limit in force.
    pub fn get_rate_limit_config(&self) -> (r: RateLimitConfig)
        ensures
            r == self@.rate_limit,
    {
        self.rate_limit
    }

    /// Exempts an owner from the rate limit.
    pub fn whitelist_address(&mut self, address: &String) -> (r: Result<(), RegistrarError>)
        ensures
            r is Ok,
            final(self)@ == (RegistrarView {
                whitelist: old(self)@.whitelist.insert(address@),
                events: old(self)@.events.push(RegistrarEvent::Whitelisted { address: *address }),
                ..old(self)@
            }),
    {
        let ghost v0 = self@;
        self.whitelist.insert(address.clone(), true);
        self.events.push(RegistrarEvent::Whitelisted { address: address.clone() });
        assert(self@.whitelist =~= v0.whitelist.insert(address@));
        assert(self@ =~= RegistrarView {
            whitelist: v0.whitelist.insert(address@),
            events: v0.events.push(RegistrarEvent::Whitelisted { address: *address }),
            ..v0
        });
        Ok(())
    }

    /// Subjects an owner to the rate limit again.
    pub fn remove_whitelist_address(&mut self, address: &String) -> (r: Result<(), RegistrarError>)
        ensures
            r is Ok,
            final(self)@ == (RegistrarView {
                whitelist: old(self)@.whitelist.remove(address@),
                events: old(self)@.events.push(RegistrarEvent::Unwhitelisted { address: *address }),
                ..old(self)@
            }),
    {
        let ghost v0 = self@;
        let _ = self.whitelist.remove(address);
        self.events.push(RegistrarEvent::Unwhitelisted { address: address.clone() });
        assert(self@.whitelist =~= v0.whitelist.remove(address@));
        assert(self@ =~= RegistrarView {
            whitelist: v0.whitelist.remove(address@),
            events: v0.events.push(RegistrarEvent::Unwhitelisted { address: *address }),
            ..v0
        });
        Ok(())
    }

    /// Whether an owner is exempt from the rate limit.
    pub fn is_whitelisted(&self, address: &String) -> (r: bool)
        ensures
            r == self@.whitelist.contains(address@),
    {
        match self.whitelist.get(address) {
            Some(b) => *b,
            None => false,
        }
    }

    /// Registrations the owner made in the window of `now_unix`.
    pub fn get_registrations_in_window(&self, address: &String, now_unix: u64) -> (r: u64)
        ensures
            r == self@.window_count(address@, now_unix),
    {
        self.window_count(address, now_unix)
    }

    /// The grace period given to new expiries.
    pub fn get_grace_period(&self) -> (r: u64)
        ensures
            r == self@.grace_period,
    {
        self.grace_period
    }

    /// Sets the grace period given to new expiries (admin only), between one day and
    /// one year.
    pub fn set_grace_period(&mut self, seconds: u64) -> (r: Result<(), RegistrarError>)
        ensures
            old(self)@.admin is None ==> r == Err::<(), RegistrarError>(
                RegistrarError::NotInitialized,
            ) && final(self)@ == old(self)@,
            old(self)@.admin is Some && !(MIN_GRACE_PERIOD_SECONDS <= seconds
                <= MAX_GRACE_PERIOD_SECONDS) ==> r == Err::<(), RegistrarError>(
                RegistrarError::Validation,
            ) && final(self)@ == old(self)@,
            old(self)@.admin is Some && MIN_GRACE_PERIOD_SECONDS <= seconds
                <= MAX_GRACE_PERIOD_SECONDS ==> r is Ok && final(self)@ == (RegistrarView {
                grace_period: seconds,
                ..old(self)@
            }),
    {
        if self.admin.is_none() {
            return Err(RegistrarError::NotInitialized);
        }
        if seconds < MIN_GRACE_PERIOD_SECONDS || seconds > MAX_GRACE_PERIOD_SECONDS {
            return Err(RegistrarError::Validation);
        }
        let ghost v0 = self@;
        self.grace_period = seconds;
        assert(self@ =~= RegistrarView { grace_period: seconds, ..v0 });
        Ok(())
    }
}

// ------------------------------------------------------------------
// Laws
// ------------------------------------------------------------------

/// The lifecycle a sale starts: a label that was just registered at `now` is active
/// from then until its expiry, in its grace period until the grace period ends, and
/// claimable afterwards; it is available again exactly when it is claimable.
pub proof fn law_registration_lifecycle(
    before: RegistrarView,
    after: RegistrarView,
    label: Seq<char>,
    owner: Seq<char>,
    years: u64,
    payment: u64,
    now: u64,
    t: u64,
)
    requires
        before.register_check(label, owner, years, payment, now) is Ok,
        after.reserved == before.reserved,
        after.registrations.dom().contains(label + xlm_suffix()),
        record_is(
            after.registrations[label + xlm_suffix()],
            label + xlm_suffix(),
            owner,
            now,
            before.quote(label, years, now),
            payment,
        ),
        after.grace_period == before.grace_period,
    ensures
        ({
            let q = before.quote(label, years, now);
            &&& now <= q.expiry_unix <= q.grace_period_ends_at
            &&& now <= t <= q.expiry_unix ==> after.status(label, t) == RegistrationStatus::Active
            &&& q.expiry_unix < t <= q.grace_period_ends_at ==> after.status(label, t)
                == RegistrationStatus::GracePeriod
            &&& q.grace_period_ends_at < t ==> after.status(label, t) == RegistrationStatus::Claimable
            &&& after.available(label, t) <==> q.grace_period_ends_at < t
        }),
{
}

/// Status and renewability agree: a registered name can be renewed exactly while its
/// status is active or in its grace period.
pub proof fn law_status_matches_renewability(v: RegistrarView, label: Seq<char>, now: u64)
    requires
        valid_label(label),
        !v.reserved.contains(label),
        v.registrations.dom().contains(label + xlm_suffix()),
    ensures
        ({
            let rec = v.registrations[label + xlm_suffix()];
            rec.expires_at <= rec.grace_period_ends_at ==> (spec_can_renew(rec.grace_period_ends_at, now) is Ok
                <==> (v.status(label, now) == RegistrationStatus::Active || v.status(label, now)
                == RegistrationStatus::GracePeriod))
        }),
{
}

/// A renewal never shortens a registration: the new expiry is at least the current
/// one and at least `now`, and the new grace period ends no earlier than it.
pub proof fn law_renewal_extends(v: RegistrarView, name: Seq<char>, years: u64, now: u64)
    requires
        v.registrations.dom().contains(name),
    ensures
        ({
            let q = v.renewal_quote(name, years, now);
            &&& q.current_expiry_unix == v.registrations[name].expires_at
            &&& q.extended_expiry_unix >= q.current_expiry_unix
            &&& q.extended_expiry_unix >= now
            &&& q.grace_period_ends_at >= q.extended_expiry_unix
            &&& years >= 1 && q.current_expiry_unix as int + years * 31_536_000 <= u64::MAX
                && now as int + years * 31_536_000 <= u64::MAX ==> q.extended_expiry_unix
                > q.current_expiry_unix && q.extended_expiry_unix > now
        }),
{
    assert(years * 31_536_000 >= 0) by (nonlinear_arith)
        requires
            years >= 0,
    ;
    if years >= 1 {
        assert(years * 31_536_000 >= 31_536_000) by (nonlinear_arith)
            requires
                years >= 1,
        ;
    }
}

/// A non-whitelisted owner who has used up the registrations of the current window
/// cannot register again in it, whatever the label, term or payment.
pub proof fn law_rate_limit_blocks(v: RegistrarView, label: Seq<char>, owner: Seq<char>, years: u64, payment: u64, now: u64)
    requires
        valid_label(label),
        valid_registration_years(years as int),
        !v.reserved.contains(label),
        !v.whitelist.contains(owner),
        v.window_count(owner, now) >= v.rate_limit.max_registrations_per_window,
    ensures
        v.register_check(label, owner, years, payment, now) == Err::<(), RegistrarError>(
            RegistrarError::RateLimitExceeded,
        ),
{
}

/// An exempted owner is never held back by the rate limit, however many names it has
/// bought in the window; lifting the exemption brings the window's count back into play.
pub proof fn law_whitelist_bypasses_rate_limit(
    v: RegistrarView,
    label: Seq<char>,
    owner: Seq<char>,
    years: u64,
    payment: u64,
    now: u64,
)
    ensures
        v.whitelist.contains(owner) ==> v.register_check(label, owner, years, payment, now) != Err::<
            (),
            RegistrarError,
        >(RegistrarError::RateLimitExceeded),
        ({
            let lifted = RegistrarView { whitelist: v.whitelist.remove(owner), ..v };
            lifted.rate_limited(owner, now) <==> v.window_count(owner, now)
                >= v.rate_limit.max_registrations_per_window
        }),
{
}

/// A sale is only accepted when the payment covers the quoted fee; any smaller payment
/// of an otherwise acceptable registration is refused as insufficient.
pub proof fn law_payment_must_cover_quote(
    v: RegistrarView,
    label: Seq<char>,
    owner: Seq<char>,
    years: u64,
    payment: u64,
    now: u64,
)
    ensures
        v.register_check(label, owner, years, payment, now) is Ok ==> payment >= v.quote(
            label,
            years,
            now,
        ).fee_stroops,
        valid_label(label) && valid_registration_years(years as int) && !v.reserved.contains(label)
            && !v.rate_limited(owner, now) && payment < v.quote(label, years, now).fee_stroops
            ==> v.register_check(label, owner, years, payment, now) == Err::<(), RegistrarError>(
            RegistrarError::InsufficientFee,
        ),
{
}

} // verus!
