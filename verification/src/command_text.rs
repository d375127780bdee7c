//! What the client prints for its name and auction commands once the network has
//! answered: renewals, transfers, lookups, and auction creation, bids and settlement.
use vstd::prelude::*;
use crate::history::{decimal, decimal_string};

verus! {

fn push_text(s: &mut String, t: &str)
    ensures
        final(s)@ == old(s)@ + t@,
{
    s.append(t);
}

fn push_number(s: &mut String, n: u64)
    ensures
        final(s)@ == old(s)@ + decimal(n as nat),
{
    let d = decimal_string(n);
    s.append(d.as_str());
}

/// The signer line, when a signer was used.
pub open spec fn signer_line(signer: Option<Seq<char>>) -> Seq<char> {
    match signer {
        Some(d) => "  Signer: "@ + d + "\n"@,
        None => Seq::empty(),
    }
}

fn push_signer_line(s: &mut String, signer: &Option<String>)
    ensures
        final(s)@ == old(s)@ + signer_line(
            match signer {
                Some(d) => Some(d@),
                None => None,
            },
        ),
{
    match signer {
        Some(d) => {
            push_text(s, "  Signer: ");
            push_text(s, d.as_str());
            push_text(s, "\n");
        },
        None => {},
    }
}

/// A signer description as mathematical text.
pub open spec fn opt_view(o: Option<String>) -> Option<Seq<char>> {
    match o {
        Some(d) => Some(d@),
        None => None,
    }
}

// ------------------------------------------------------------------
// Renewal
// ------------------------------------------------------------------

/// The error of a renewal of a name that has no registration.
pub fn renew_missing_text(name: &str) -> (r: String)
    ensures
        r@ == "Name '"@ + name@ + "' is not registered and cannot be renewed."@,
{
    let mut s = String::from_str("Name '");
    push_text(&mut s, name);
    push_text(&mut s, "' is not registered and cannot be renewed.");
    s
}

/// What a finished renewal reports.
pub struct RenewalReceipt {
    pub name: String,
    pub years: u64,
    /// How the signer describes itself, when one was used.
    pub signer: Option<String>,
    pub fee_paid: u64,
    pub new_expiry: u64,
    pub status: String,
    pub tx_hash: String,
}

/// The human report of a renewal.
pub open spec fn renewal_report_text(r: RenewalReceipt) -> Seq<char> {
    signer_line(opt_view(r.signer)) + "SUCCESS: Renewed "@ + r.name@ + " for "@ + decimal(r.years as nat)
        + " year(s)\n  Fee Paid: "@ + decimal(r.fee_paid as nat) + " XLM\n  New Expiry: "@ + decimal(
        r.new_expiry as nat,
    ) + "\n  Status: "@ + r.status@ + "\n  Transaction Hash: "@ + r.tx_hash@
}

/// The human report of a renewal.
pub fn renewal_report(r: &RenewalReceipt) -> (t: String)
    ensures
        t@ == renewal_report_text(*r),
{
    let mut s = String::new();
    push_signer_line(&mut s, &r.signer);
    push_text(&mut s, "SUCCESS: Renewed ");
    push_text(&mut s, r.name.as_str());
    push_text(&mut s, " for ");
    push_number(&mut s, r.years);
    push_text(&mut s, " year(s)\n  Fee Paid: ");
    push_number(&mut s, r.fee_paid);
    push_text(&mut s, " XLM\n  New Expiry: ");
    push_number(&mut s, r.new_expiry);
    push_text(&mut s, "\n  Status: ");
    push_text(&mut s, r.status.as_str());
    push_text(&mut s, "\n  Transaction Hash: ");
    push_text(&mut s, r.tx_hash.as_str());
    assert(s@ =~= renewal_report_text(*r));
    s
}

// ------------------------------------------------------------------
// Transfer
// ------------------------------------------------------------------

/// What a finished transfer reports, with the owner read back afterwards if it could be.
pub struct TransferReceipt {
    pub name: String,
    pub new_owner: String,
    /// How the signer describes itself, when one was used.
    pub signer: Option<String>,
    pub status: String,
    pub tx_hash: String,
    pub verified_owner: Option<String>,
}

/// The human report of a transfer: the intent, the signer, the outcome, and either the
/// owner read back or a warning that it could not be read.
pub open spec fn transfer_report_text(r: TransferReceipt) -> Seq<char> {
    "Initiating transfer of "@ + r.name@ + " to "@ + r.new_owner@ + "...\n"@ + signer_line(opt_view(r.signer))
        + "SUCCESS: "@ + r.name@ + " ownership transferred to "@ + r.new_owner@ + "\n  Status: "@
        + r.status@ + "\n  Transaction Hash: "@ + r.tx_hash@ + "\n"@ + match r.verified_owner {
        Some(a) => "Verified: Current owner is now "@ + a@,
        None => "Warning: Could not verify ownership change immediately."@,
    }
}

/// The human report of a transfer.
pub fn transfer_report(r: &TransferReceipt) -> (t: String)
    ensures
        t@ == transfer_report_text(*r),
{
    let mut s = String::from_str("Initiating transfer of ");
    push_text(&mut s, r.name.as_str());
    push_text(&mut s, " to ");
    push_text(&mut s, r.new_owner.as_str());
    push_text(&mut s, "...\n");
    push_signer_line(&mut s, &r.signer);
    push_text(&mut s, "SUCCESS: ");
    push_text(&mut s, r.name.as_str());
    push_text(&mut s, " ownership transferred to ");
    push_text(&mut s, r.new_owner.as_str());
    push_text(&mut s, "\n  Status: ");
    push_text(&mut s, r.status.as_str());
    push_text(&mut s, "\n  Transaction Hash: ");
    push_text(&mut s, r.tx_hash.as_str());
    push_text(&mut s, "\n");
    match &r.verified_owner {
        Some(a) => {
            push_text(&mut s, "Verified: Current owner is now ");
            push_text(&mut s, a.as_str());
        },
        None => push_text(&mut s, "Warning: Could not verify ownership change immediately."),
    }
    assert(s@ =~= transfer_report_text(*r));
    s
}

// ------------------------------------------------------------------
// Lookups
// ------------------------------------------------------------------

/// What a forward lookup answered.
pub struct ResolveAnswer {
    pub name: String,
    pub address: Option<String>,
    pub resolver: Option<String>,
    pub is_wildcard: bool,
    pub expires_at: Option<u64>,
}

/// The lines a resolved name prints.
pub open spec fn resolve_lines(a: ResolveAnswer, address: Seq<char>) -> Seq<char> {
    "Name: "@ + a.name@ + "\nAddress: "@ + address + match a.resolver {
        Some(r) => "\nResolver: "@ + r@,
        None => Seq::empty(),
    } + "\nResolved via wildcard: "@ + (if a.is_wildcard {
        "yes"@
    } else {
        "no"@
    }) + match a.expires_at {
        Some(e) => "\nExpires at: "@ + decimal(e as nat),
        None => Seq::empty(),
    }
}

/// The output of a lookup of `name`: its lines when it has an address, otherwise the
/// error that it was not found.
pub fn resolve_output(a: &ResolveAnswer, name: &str) -> (r: Result<String, String>)
    ensures
        match a.address {
            Some(addr) => r matches Ok(t) && t@ == resolve_lines(*a, addr@),
            None => r matches Err(m) && m@ == "Name '"@ + name@ + "' not found or has no resolution"@,
        },
{
    match &a.address {
        Some(addr) => {
            let mut s = String::from_str("Name: ");
            push_text(&mut s, a.name.as_str());
            push_text(&mut s, "\nAddress: ");
            push_text(&mut s, addr.as_str());
            match &a.resolver {
                Some(res) => {
                    push_text(&mut s, "\nResolver: ");
                    push_text(&mut s, res.as_str());
                },
                None => {},
            }
            push_text(&mut s, "\nResolved via wildcard: ");
            if a.is_wildcard {
                push_text(&mut s, "yes");
            } else {
                push_text(&mut s, "no");
            }
            match a.expires_at {
                Some(e) => {
                    push_text(&mut s, "\nExpires at: ");
                    push_number(&mut s, e);
                },
                None => {},
            }
            assert(s@ =~= resolve_lines(*a, addr@));
            Ok(s)
        },
        None => {
            let mut m = String::from_str("Name '");
            push_text(&mut m, name);
            push_text(&mut m, "' not found or has no resolution");
            Err(m)
        },
    }
}

/// The output of a reverse lookup: whether a primary name was found, and the line shown.
pub fn reverse_output(address: &str, primary_name: Option<&str>) -> (r: (bool, String))
    ensures
        match primary_name {
            Some(n) => r.0 && r.1@ == address@ + " -> "@ + n@,
            None => !r.0 && r.1@ == address@ + " -> [NO PRIMARY NAME]"@,
        },
{
    let mut s = String::new();
    push_text(&mut s, address);
    match primary_name {
        Some(n) => {
            push_text(&mut s, " -> ");
            push_text(&mut s, n);
            (true, s)
        },
        None => {
            push_text(&mut s, " -> [NO PRIMARY NAME]");
            (false, s)
        },
    }
}

// ------------------------------------------------------------------
// Auctions
// ------------------------------------------------------------------

/// The treasury of an auction created without a signer: `G` followed by 55 `A`s.
pub fn default_treasury() -> (r: String)
    ensures
        r@.len() == 56,
        r@[0] == 'G',
        forall|i: int| 1 <= i < 56 ==> r@[i] == 'A',
{
    let mut s = String::from_str("G");
    proof {
        reveal_strlit("G");
    }
    let mut i: usize = 0;
    while i < 55
        invariant
            i <= 55,
            s@.len() == i + 1,
            s@[0] == 'G',
            forall|j: int| 1 <= j < i + 1 ==> s@[j] == 'A',
        decreases 55 - i,
    {
        proof {
            reveal_strlit("A");
        }
        push_text(&mut s, "A");
        i = i + 1;
    }
    s
}

/// The line shown before an auction command is submitted, with the signer when one is used.
pub open spec fn intro_text(action: Seq<char>, name: Seq<char>, signer: Option<Seq<char>>) -> Seq<char> {
    action + name + "..."@ + match signer {
        Some(d) => "\n  Signer: "@ + d,
        None => Seq::empty(),
    }
}

fn intro(action: &str, name: &str, signer: &Option<String>) -> (r: String)
    ensures
        r@ == intro_text(action@, name@, opt_view(*signer)),
{
    let mut s = String::new();
    push_text(&mut s, action);
    push_text(&mut s, name);
    push_text(&mut s, "...");
    match signer {
        Some(d) => {
            push_text(&mut s, "\n  Signer: ");
            push_text(&mut s, d.as_str());
        },
        None => {},
    }
    s
}

/// The line shown before an auction is created.
pub fn auction_create_intro(name: &str, signer: &Option<String>) -> (r: String)
    ensures
        r@ == intro_text("Creating auction for "@, name@, opt_view(*signer)),
{
    intro("Creating auction for ", name, signer)
}

/// The report of a created auction.
pub fn auction_created_text(name: &str, reserve: u64, duration: u64, tx_hash: &str) -> (r: String)
    ensures
        r@ == "SUCCESS: auction created for "@ + name@ + "\n  Reserve: "@ + decimal(reserve as nat)
            + " XLM\n  Duration: "@ + decimal(duration as nat) + "s\n  Transaction Hash: "@ + tx_hash@,
{
    let mut s = String::from_str("SUCCESS: auction created for ");
    push_text(&mut s, name);
    push_text(&mut s, "\n  Reserve: ");
    push_number(&mut s, reserve);
    push_text(&mut s, " XLM\n  Duration: ");
    push_number(&mut s, duration);
    push_text(&mut s, "s\n  Transaction Hash: ");
    push_text(&mut s, tx_hash);
    s
}

/// The line shown before a bid is placed.
pub fn bid_intro(name: &str, amount: u64, signer: &Option<String>) -> (r: String)
    ensures
        r@ == "Placing bid of "@ + decimal(amount as nat) + " XLM on "@ + name@ + "..."@ + match *signer {
            Some(d) => "\n  Signer: "@ + d@,
            None => Seq::empty(),
        },
{
    let mut s = String::from_str("Placing bid of ");
    push_number(&mut s, amount);
    push_text(&mut s, " XLM on ");
    push_text(&mut s, name);
    push_text(&mut s, "...");
    match signer {
        Some(d) => {
            push_text(&mut s, "\n  Signer: ");
            push_text(&mut s, d.as_str());
        },
        None => {},
    }
    s
}

/// The report of a placed bid.
pub fn bid_placed_text(name: &str, tx_hash: &str) -> (r: String)
    ensures
        r@ == "SUCCESS: bid placed on "@ + name@ + "\n  Transaction Hash: "@ + tx_hash@,
{
    let mut s = String::from_str("SUCCESS: bid placed on ");
    push_text(&mut s, name);
    push_text(&mut s, "\n  Transaction Hash: ");
    push_text(&mut s, tx_hash);
    s
}

/// The line shown before an auction is settled.
pub fn auction_settle_intro(name: &str, signer: &Option<String>) -> (r: String)
    ensures
        r@ == intro_text("Settling auction for "@, name@, opt_view(*signer)),
{
    intro("Settling auction for ", name, signer)
}

/// The report of a settled auction.
pub fn auction_settled_text(name: &str, tx_hash: &str) -> (r: String)
    ensures
        r@ == "SUCCESS: auction settled for "@ + name@ + "\n  Transaction Hash: "@ + tx_hash@,
{
    let mut s = String::from_str("SUCCESS: auction settled for ");
    push_text(&mut s, name);
    push_text(&mut s, "\n  Transaction Hash: ");
    push_text(&mut s, tx_hash);
    s
}

} // verus!
