use xlm_ns::bidding::{
    bid_mode, check_bid_amount, format_auction_inspect, format_auction_status, format_simulation, parse_u64,
    read_bid_answer, read_confirmation, trim, watch_interval, AuctionSummary, BidAnswer, BidPlanError,
    SimulationSummary,
};

fn auction() -> AuctionSummary {
    AuctionSummary {
        name: "prize.xlm".to_string(),
        status: "active".to_string(),
        owner: "GOWNER".to_string(),
        reserve_price: 50,
        highest_bid: 120,
        highest_bidder: Some("GBOB".to_string()),
        bid_count: 3,
        ends_at: 1_000,
    }
}

#[test]
fn trim_removes_surrounding_whitespace() {
    assert_eq!(trim("  42 \n"), "42");
    assert_eq!(trim("\t\r\n"), "");
    assert_eq!(trim("a b"), "a b");
    assert_eq!(trim("\u{2003}x\u{2003}"), "x");
}

#[test]
fn parse_u64_accepts_plain_and_plus_signed_numbers() {
    assert_eq!(parse_u64("0"), Some(0));
    assert_eq!(parse_u64("18446744073709551615"), Some(u64::MAX));
    assert_eq!(parse_u64("18446744073709551616"), None);
    assert_eq!(parse_u64("+7"), Some(7));
    assert_eq!(parse_u64(""), None);
    assert_eq!(parse_u64("+"), None);
    assert_eq!(parse_u64("-1"), None);
    assert_eq!(parse_u64("12a"), None);
    for s in ["0", "7", "+7", "007", "12a", "", "99999999999999999999", "-3"] {
        assert_eq!(parse_u64(s), s.parse::<u64>().ok(), "{s}");
    }
}

#[test]
fn bid_answers() {
    assert_eq!(read_bid_answer("\n", Some(75), 50), BidAnswer::Amount { amount: 75, below_reserve: false });
    assert_eq!(read_bid_answer("\n", None, 50), BidAnswer::Required);
    assert_eq!(read_bid_answer(" 0 \n", None, 50), BidAnswer::Zero);
    assert_eq!(read_bid_answer("ten\n", None, 50), BidAnswer::NotANumber);
    assert_eq!(read_bid_answer("40\n", None, 50), BidAnswer::Amount { amount: 40, below_reserve: true });
    assert_eq!(BidAnswer::Zero.message(), Some("Bid amount must be greater than zero.".to_string()));
    assert_eq!(BidAnswer::Required.message(), Some("Bid amount is required.".to_string()));
    assert_eq!(BidAnswer::NotANumber.message(), Some("Enter a whole-number bid amount.".to_string()));
    assert_eq!(BidAnswer::Amount { amount: 1, below_reserve: false }.message(), None);
}

#[test]
fn confirmations() {
    assert_eq!(read_confirmation("y\n"), Some(true));
    assert_eq!(read_confirmation(" YES \n"), Some(true));
    assert_eq!(read_confirmation("\n"), Some(false));
    assert_eq!(read_confirmation("No"), Some(false));
    assert_eq!(read_confirmation("maybe"), None);
}

#[test]
fn guided_bid_modes() {
    assert_eq!(bid_mode(false, false, true, None), Err(BidPlanError::NotAccepting));
    assert_eq!(bid_mode(true, true, true, None), Err(BidPlanError::AmountRequired));
    assert_eq!(bid_mode(true, false, false, None), Err(BidPlanError::AmountRequired));
    assert_eq!(bid_mode(true, false, true, None), Ok(true));
    assert_eq!(bid_mode(true, true, true, Some(5)), Ok(false));
    assert_eq!(check_bid_amount(0), Err(BidPlanError::ZeroAmount));
    assert_eq!(check_bid_amount(9), Ok(9));
}

#[test]
fn watch_interval_is_between_one_and_ten_seconds() {
    assert_eq!(watch_interval(100, 200), 1);
    assert_eq!(watch_interval(100, 100), 1);
    assert_eq!(watch_interval(105, 100), 5);
    assert_eq!(watch_interval(1_000, 100), 10);
}

#[test]
fn auction_status_text() {
    assert_eq!(
        format_auction_status(&auction(), 400),
        "Auction status for prize.xlm:\n  Status: active\n  Reserve price: 50 XLM\n  Current highest bid: 120 XLM\n  Number of bids: 3\n  Time remaining: 600s\n  Ends at: 1000"
    );
    assert!(format_auction_status(&auction(), 5_000).contains("Time remaining: 0s"));
}

#[test]
fn simulation_text() {
    let sim = SimulationSummary {
        success: true,
        fee_estimate: 100,
        auth_addresses: vec!["GA".to_string(), "GB".to_string()],
        error: None,
    };
    assert_eq!(
        format_simulation(&sim),
        "Bid transaction simulation:\n  Success: true\n  Estimated network fee: 100 stroops\n  Required authorizations: GA, GB"
    );
    let none = SimulationSummary { success: false, fee_estimate: 0, auth_addresses: vec![], error: None };
    assert!(format_simulation(&none).ends_with("Success: false\n  Estimated network fee: 0 stroops\n  Required authorizations: none"));
}

#[test]
fn inspect_text() {
    assert_eq!(
        format_auction_inspect(&auction()),
        "Auction for prize.xlm:\n  Status: active\n  Owner: GOWNER\n  Reserve Price: 50 XLM\n  Highest Bid: 120 XLM\n  Highest Bidder: GBOB\n  Ends at: 1000"
    );
    let mut a = auction();
    a.highest_bidder = None;
    assert!(!format_auction_inspect(&a).contains("Highest Bidder"));
}

#[test]
fn refused_guided_bids_explain_why() {
    assert_eq!(
        BidPlanError::AmountRequired.message("prize.xlm", "settled"),
        "--amount is required with --no-interactive or machine-readable output"
    );
    assert_eq!(
        BidPlanError::ZeroAmount.message("prize.xlm", "settled"),
        "bid amount must be greater than zero"
    );
    assert_eq!(
        BidPlanError::NotAccepting.message("prize.xlm", "settled"),
        "auction 'prize.xlm' is settled; it is not accepting bids"
    );
}
