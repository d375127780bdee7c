//! Rows of a portfolio export.
use vstd::prelude::*;
use crate::registry::RegistryEntry;

verus! {

/// One exported name.
pub struct PortfolioRecord {
    pub name: String,
    pub owner: String,
    pub resolver: String,
    pub target_address: String,
    pub registered_at: i64,
    pub expires_at: i64,
    pub grace_period_ends_at: i64,
    pub status: String,
}

/// The status of a registry entry at `now`: active through its expiry, then in its
/// grace period, then expired (timestamps read as signed seconds).
pub open spec fn status_spec(record: RegistryEntry, now: i64) -> Seq<char> {
    if now <= record.expires_at as i64 {
        "active"@
    } else if now <= record.grace_period_ends_at as i64 {
        "grace"@
    } else {
        "expired"@
    }
}

/// The status of a registry entry at `now_unix`.
pub fn record_status(record: &RegistryEntry, now_unix: i64) -> (r: String)
    ensures
        r@ == status_spec(*record, now_unix),
{
    let expires_at = record.expires_at as i64;
    let grace_period_ends_at = record.grace_period_ends_at as i64;
    if now_unix <= expires_at {
        String::from_str("active")
    } else if now_unix <= grace_period_ends_at {
        String::from_str("grace")
    } else {
        String::from_str("expired")
    }
}

/// An optional string, or the empty string.
pub open spec fn or_empty(o: Option<String>) -> Seq<char> {
    match o {
        Some(s) => s@,
        None => Seq::empty(),
    }
}

impl PortfolioRecord {
    /// The export row of a registry entry at `now_unix`.
    pub fn from_name_record(record: &RegistryEntry, now_unix: i64) -> (r: Self)
        ensures
            r.name@ == record.name@,
            r.owner@ == record.owner@,
            r.resolver@ == or_empty(record.resolver),
            r.target_address@ == or_empty(record.target_address),
            r.registered_at == record.registered_at as i64,
            r.expires_at == record.expires_at as i64,
            r.grace_period_ends_at == record.grace_period_ends_at as i64,
            r.status@ == status_spec(*record, now_unix),
    {
        let resolver = match &record.resolver {
            Some(s) => s.clone(),
            None => String::new(),
        };
        let target_address = match &record.target_address {
            Some(s) => s.clone(),
            None => String::new(),
        };
        PortfolioRecord {
            name: record.name.clone(),
            owner: record.owner.clone(),
            resolver,
            target_address,
            registered_at: record.registered_at as i64,
            expires_at: record.expires_at as i64,
            grace_period_ends_at: record.grace_period_ends_at as i64,
            status: record_status(record, now_unix),
        }
    }
}

} // verus!
