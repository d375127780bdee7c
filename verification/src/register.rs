//! The registration command of the client: whether it can run, and the report it
//! prints once the registrar has answered.
use vstd::prelude::*;
use crate::history::{decimal, decimal_string};

verus! {

/// The registrar contract the registration command talks to, or the reason it cannot run.
pub fn register_plan(registrar_contract_id: &Option<String>) -> (r: Result<String, String>)
    ensures
        registrar_contract_id is None ==> (r matches Err(m) && m@ == "Registrar contract ID not configured"@),
        registrar_contract_id matches Some(id) ==> (r matches Ok(t) && t@ == id@),
{
    match registrar_contract_id {
        Some(id) => {
            let mut t = String::new();
            t.append(id.as_str());
            Ok(t)
        },
        None => Err(String::from_str("Registrar contract ID not configured")),
    }
}

/// What a finished registration reports: the quote it was sold at and the receipt.
pub struct RegistrationSummary {
    pub label: String,
    pub registrar_contract_id: String,
    pub fee_total: u64,
    pub fee_currency: String,
    pub fee_base: u64,
    pub fee_premium: u64,
    pub fee_network: u64,
    pub duration_years: u64,
    pub quote_expires_at: u64,
    /// How the signer describes itself, when one was used.
    pub signer: Option<String>,
    pub name: String,
    pub owner: String,
    pub fee_paid: u64,
    pub expires_at: u64,
    pub status: String,
    pub tx_hash: String,
}

/// The quote block of the report.
pub open spec fn quote_text(s: RegistrationSummary) -> Seq<char> {
    "Registration quote for "@ + s.label@ + ".xlm:\n  Registrar: "@ + s.registrar_contract_id@
        + "\n  Fee: "@ + decimal(s.fee_total as nat) + " "@ + s.fee_currency@ + " (base "@ + decimal(
        s.fee_base as nat,
    ) + ", premium "@ + decimal(s.fee_premium as nat) + ", network "@ + decimal(s.fee_network as nat)
        + ")\n  Duration: "@ + decimal(s.duration_years as nat) + " year(s)\n  Expiry: "@ + decimal(
        s.quote_expires_at as nat,
    ) + match s.signer {
        Some(d) => "\n  Signer: "@ + d@,
        None => Seq::empty(),
    }
}

/// The receipt block of the report.
pub open spec fn receipt_text(s: RegistrationSummary) -> Seq<char> {
    "SUCCESS: registered "@ + s.name@ + " to "@ + s.owner@ + "\n  Fee paid: "@ + decimal(s.fee_paid as nat)
        + " "@ + s.fee_currency@ + "\n  Expires at: "@ + decimal(s.expires_at as nat) + "\n  Status: "@
        + s.status@ + "\n  Transaction Hash: "@ + s.tx_hash@
}

/// The human report of a registration: the quote block, an empty line, the receipt block.
pub open spec fn registration_report_text(s: RegistrationSummary) -> Seq<char> {
    quote_text(s) + "\n\n"@ + receipt_text(s)
}

fn push_text(s: &mut String, t: &str)
    ensures
        final(s)@ == old(s)@ + t@,
{
    s.append(t);
}

fn push_number(s: &mut String, n: u64)
    ensures
        final(s)@ == old(s)@ + decimal(n as nat),
{
    let d = decimal_string(n);
    s.append(d.as_str());
}

/// The human report of a finished registration.
pub fn registration_report(s: &RegistrationSummary) -> (r: String)
    ensures
        r@ == registration_report_text(*s),
{
    let mut t = String::from_str("Registration quote for ");
    push_text(&mut t, s.label.as_str());
    push_text(&mut t, ".xlm:\n  Registrar: ");
    push_text(&mut t, s.registrar_contract_id.as_str());
    push_text(&mut t, "\n  Fee: ");
    push_number(&mut t, s.fee_total);
    push_text(&mut t, " ");
    push_text(&mut t, s.fee_currency.as_str());
    push_text(&mut t, " (base ");
    push_number(&mut t, s.fee_base);
    push_text(&mut t, ", premium ");
    push_number(&mut t, s.fee_premium);
    push_text(&mut t, ", network ");
    push_number(&mut t, s.fee_network);
    push_text(&mut t, ")\n  Duration: ");
    push_number(&mut t, s.duration_years);
    push_text(&mut t, " year(s)\n  Expiry: ");
    push_number(&mut t, s.quote_expires_at);
    match &s.signer {
        Some(d) => {
            push_text(&mut t, "\n  Signer: ");
            push_text(&mut t, d.as_str());
        },
        None => {},
    }
    assert(t@ =~= quote_text(*s));
    let mut u = String::from_str("SUCCESS: registered ");
    push_text(&mut u, s.name.as_str());
    push_text(&mut u, " to ");
    push_text(&mut u, s.owner.as_str());
    push_text(&mut u, "\n  Fee paid: ");
    push_number(&mut u, s.fee_paid);
    push_text(&mut u, " ");
    push_text(&mut u, s.fee_currency.as_str());
    push_text(&mut u, "\n  Expires at: ");
    push_number(&mut u, s.expires_at);
    push_text(&mut u, "\n  Status: ");
    push_text(&mut u, s.status.as_str());
    push_text(&mut u, "\n  Transaction Hash: ");
    push_text(&mut u, s.tx_hash.as_str());
    assert(u@ =~= receipt_text(*s));
    push_text(&mut t, "\n\n");
    push_text(&mut t, u.as_str());
    assert(t@ =~= registration_report_text(*s));
    t
}

} // verus!
