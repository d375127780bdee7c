use xlm_ns::command_text::{
    auction_create_intro, auction_created_text, auction_settle_intro, auction_settled_text, bid_intro,
    bid_placed_text, default_treasury, renew_missing_text, renewal_report, resolve_output, reverse_output,
    transfer_report, RenewalReceipt, ResolveAnswer, TransferReceipt,
};

fn s(v: &str) -> String {
    v.to_string()
}

#[test]
fn renewal_texts() {
    assert_eq!(renew_missing_text("ghost.xlm"), "Name 'ghost.xlm' is not registered and cannot be renewed.");
    let receipt = RenewalReceipt {
        name: s("timmy.xlm"),
        years: 2,
        signer: Some(s("alice")),
        fee_paid: 500,
        new_expiry: 1_800_000_000,
        status: s("SUCCESS"),
        tx_hash: s("h1"),
    };
    assert_eq!(
        renewal_report(&receipt),
        "  Signer: alice\nSUCCESS: Renewed timmy.xlm for 2 year(s)\n  Fee Paid: 500 XLM\n  New Expiry: 1800000000\n  Status: SUCCESS\n  Transaction Hash: h1"
    );
}

#[test]
fn transfer_texts_verify_or_warn() {
    let mut receipt = TransferReceipt {
        name: s("timmy.xlm"),
        new_owner: s("GNEXT"),
        signer: None,
        status: s("SUCCESS"),
        tx_hash: s("h2"),
        verified_owner: Some(s("GNEXT")),
    };
    assert_eq!(
        transfer_report(&receipt),
        "Initiating transfer of timmy.xlm to GNEXT...\nSUCCESS: timmy.xlm ownership transferred to GNEXT\n  Status: SUCCESS\n  Transaction Hash: h2\nVerified: Current owner is now GNEXT"
    );
    receipt.verified_owner = None;
    assert!(transfer_report(&receipt).ends_with("\nWarning: Could not verify ownership change immediately."));
}

#[test]
fn lookup_texts() {
    let answer = ResolveAnswer {
        name: s("timmy.xlm"),
        address: Some(s("GADDR")),
        resolver: Some(s("CRES")),
        is_wildcard: false,
        expires_at: Some(42),
    };
    assert_eq!(
        resolve_output(&answer, "timmy.xlm"),
        Ok(s("Name: timmy.xlm\nAddress: GADDR\nResolver: CRES\nResolved via wildcard: no\nExpires at: 42"))
    );
    let missing = ResolveAnswer { name: s("x.xlm"), address: None, resolver: None, is_wildcard: false, expires_at: None };
    assert_eq!(resolve_output(&missing, "x.xlm"), Err(s("Name 'x.xlm' not found or has no resolution")));
    assert_eq!(reverse_output("GADDR", Some("timmy.xlm")), (true, s("GADDR -> timmy.xlm")));
    assert_eq!(reverse_output("GADDR", None), (false, s("GADDR -> [NO PRIMARY NAME]")));
}

#[test]
fn auction_texts() {
    assert_eq!(default_treasury(), format!("G{}", "A".repeat(55)));
    assert_eq!(auction_create_intro("prize.xlm", &Some(s("alice"))), "Creating auction for prize.xlm...\n  Signer: alice");
    assert_eq!(
        auction_created_text("prize.xlm", 50, 3600, "h3"),
        "SUCCESS: auction created for prize.xlm\n  Reserve: 50 XLM\n  Duration: 3600s\n  Transaction Hash: h3"
    );
    assert_eq!(bid_intro("prize.xlm", 75, &None), "Placing bid of 75 XLM on prize.xlm...");
    assert_eq!(bid_placed_text("prize.xlm", "h4"), "SUCCESS: bid placed on prize.xlm\n  Transaction Hash: h4");
    assert_eq!(auction_settle_intro("prize.xlm", &None), "Settling auction for prize.xlm...");
    assert_eq!(auction_settled_text("prize.xlm", "h5"), "SUCCESS: auction settled for prize.xlm\n  Transaction Hash: h5");
}
