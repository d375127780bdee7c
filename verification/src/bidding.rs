//! Decisions of the guided auction bid: whether to prompt, how an answer typed at a
//! prompt is read, how long to wait between polls of an open auction, and the texts
//! that show an auction and a simulated bid.
use vstd::prelude::*;
use crate::common::sat_sub;
use crate::history::{decimal, decimal_string, digit};

verus! {

/// The characters with the Unicode White_Space property: tab through carriage return,
/// space, next line, no-break space, Ogham space mark, en quad through hair space, line
/// and paragraph separators, narrow no-break space, medium mathematical space and
/// ideographic space.
pub open spec fn unicode_whitespace(c: char) -> bool {
    let u = c as u32;
    ||| 0x09 <= u <= 0x0D
    ||| u == 0x20
    ||| u == 0x85
    ||| u == 0xA0
    ||| u == 0x1680
    ||| 0x2000 <= u <= 0x200A
    ||| u == 0x2028
    ||| u == 0x2029
    ||| u == 0x202F
    ||| u == 0x205F
    ||| u == 0x3000
}

/// Calls `char::is_whitespace`, which holds exactly for the characters with the Unicode
/// White_Space property.
#[verifier::external_body]
fn is_whitespace(c: char) -> (r: bool)
    ensures
        r == unicode_whitespace(c),
{
    c.is_whitespace()
}

/// The text without leading and trailing whitespace.
pub open spec fn trim_spec(s: Seq<char>) -> Seq<char>
    decreases s.len(),
{
    if s.len() == 0 {
        s
    } else if unicode_whitespace(s[0]) {
        trim_spec(s.drop_first())
    } else if unicode_whitespace(s.last()) {
        trim_spec(s.drop_last())
    } else {
        s
    }
}

/// The value of a decimal digit character.
pub open spec fn digit_value(c: char) -> int {
    (c as u32) - ('0' as u32)
}

/// Whether a character is an ASCII decimal digit.
pub open spec fn is_digit(c: char) -> bool {
    '0' <= c && c <= '9'
}

/// The value of a string of decimal digits.
pub open spec fn digits_value(s: Seq<char>) -> nat
    decreases s.len(),
{
    if s.len() == 0 {
        0
    } else {
        (digits_value(s.drop_last()) * 10 + digit_value(s.last())) as nat
    }
}

/// The unsigned integer a string denotes, as `u64::from_str` reads it: an optional `+`
/// followed by at least one decimal digit, within range.
pub open spec fn parse_u64_spec(s: Seq<char>) -> Option<u64> {
    let body = unsigned_body(s);
    if body.len() > 0 && all_digits(body) && digits_value(body) <= u64::MAX {
        Some(digits_value(body) as u64)
    } else {
        None
    }
}

/// The text after an optional leading `+`.
pub open spec fn unsigned_body(s: Seq<char>) -> Seq<char> {
    if s.len() > 0 && s[0] == '+' {
        s.drop_first()
    } else {
        s
    }
}

/// Whether every character is a decimal digit.
pub open spec fn all_digits(s: Seq<char>) -> bool {
    forall|i: int| 0 <= i < s.len() ==> is_digit(#[trigger] s[i])
}

/// What an answer to the bid-amount prompt comes to.
#[derive(Clone, Copy, Debug, PartialEq, Eq, Structural)]
pub enum BidAnswer {
    /// A bid of this amount; `below_reserve` asks for a warning.
    Amount { amount: u64, below_reserve: bool },
    /// Nothing was typed and there is no default.
    Required,
    /// A zero bid.
    Zero,
    /// Not a whole number.
    NotANumber,
}

impl BidAnswer {
    /// The message shown before asking again, for answers that are not a bid.
    pub fn message(&self) -> (r: Option<String>)
        ensures
            match *self {
                BidAnswer::Amount { .. } => r is None,
                BidAnswer::Required => r matches Some(m) && m@ == "Bid amount is required."@,
                BidAnswer::Zero => r matches Some(m) && m@ == "Bid amount must be greater than zero."@,
                BidAnswer::NotANumber => r matches Some(m) && m@ == "Enter a whole-number bid amount."@,
            },
    {
        match self {
            BidAnswer::Amount { .. } => None,
            BidAnswer::Required => Some(String::from_str("Bid amount is required.")),
            BidAnswer::Zero => Some(String::from_str("Bid amount must be greater than zero.")),
            BidAnswer::NotANumber => Some(String::from_str("Enter a whole-number bid amount.")),
        }
    }
}

/// How an answer to the bid-amount prompt is read: blank takes the default, otherwise
/// the trimmed answer must be a positive whole number.
pub open spec fn bid_answer_spec(input: Seq<char>, default: Option<u64>, reserve: u64) -> BidAnswer {
    let v = trim_spec(input);
    let amount = if v.len() == 0 {
        default
    } else {
        parse_u64_spec(v)
    };
    if v.len() == 0 && default is None {
        BidAnswer::Required
    } else if amount is None {
        BidAnswer::NotANumber
    } else if amount->0 == 0 && v.len() > 0 {
        BidAnswer::Zero
    } else {
        BidAnswer::Amount { amount: amount->0, below_reserve: amount->0 < reserve }
    }
}

/// Strips leading and trailing whitespace.
pub fn trim(s: &str) -> (r: String)
    ensures
        r@ == trim_spec(s@),
{
    let n = s.unicode_len();
    let mut lo: usize = 0;
    let mut hi: usize = n;
    assert(s@.subrange(0, n as int) =~= s@);
    while lo < hi && is_whitespace(s.get_char(lo))
        invariant
            n == s@.len(),
            lo <= hi == n,
            trim_spec(s@) == trim_spec(s@.subrange(lo as int, n as int)),
        decreases hi - lo,
    {
        proof {
            let t = s@.subrange(lo as int, n as int);
            assert(t.drop_first() =~= s@.subrange(lo + 1, n as int));
        }
        lo = lo + 1;
    }
    while lo < hi && is_whitespace(s.get_char(hi - 1))
        invariant
            n == s@.len(),
            lo <= hi <= n,
            trim_spec(s@) == trim_spec(s@.subrange(lo as int, hi as int)),
            lo < hi ==> !unicode_whitespace(s@[lo as int]),
        decreases hi - lo,
    {
        proof {
            let t = s@.subrange(lo as int, hi as int);
            assert(t.drop_last() =~= s@.subrange(lo as int, hi - 1));
            assert(t[0] == s@[lo as int]);
        }
        hi = hi - 1;
    }
    proof {
        let t = s@.subrange(lo as int, hi as int);
        if t.len() > 0 {
            assert(t[0] == s@[lo as int]);
            assert(t.last() == s@[hi - 1]);
        }
    }
    String::from_str(s.substring_char(lo, hi))
}

proof fn lemma_digits_value_push(s: Seq<char>, c: char)
    requires
        is_digit(c),
    ensures
        digits_value(s.push(c)) == digits_value(s) * 10 + digit_value(c),
{
    assert(s.push(c).drop_last() =~= s);
}

proof fn lemma_digits_value_grows(s: Seq<char>, i: int)
    requires
        0 <= i <= s.len(),
        all_digits(s),
    ensures
        digits_value(s.take(i)) <= digits_value(s),
    decreases s.len() - i,
{
    if i < s.len() {
        lemma_digits_value_grows(s, i + 1);
        assert(s.take(i + 1) =~= s.take(i).push(s[i]));
        lemma_digits_value_push(s.take(i), s[i]);
    } else {
        assert(s.take(i) =~= s);
    }
}

/// Reads an unsigned integer as `u64::from_str` does.
pub fn parse_u64(s: &str) -> (r: Option<u64>)
    ensures
        r == parse_u64_spec(s@),
{
    let n = s.unicode_len();
    let start: usize = if n > 0 && s.get_char(0) == '+' {
        1
    } else {
        0
    };
    let ghost body = unsigned_body(s@);
    proof {
        assert(body =~= s@.subrange(start as int, n as int));
    }
    if start == n {
        return None;
    }
    let mut value: u64 = 0;
    let mut i: usize = start;
    while i < n
        invariant
            n == s@.len(),
            start <= i <= n,
            body == s@.subrange(start as int, n as int),
            body == unsigned_body(s@),
            forall|j: int| 0 <= j < i - start ==> is_digit(#[trigger] body[j]),
            value == digits_value(body.take(i - start)),
        decreases n - i,
    {
        let c = s.get_char(i);
        let ghost k = i - start;
        assert(body[k] == c);
        if !('0' <= c && c <= '9') {
            assert(!is_digit(body[k as int]));
            assert(0 <= k < body.len());
            assert(!all_digits(body));
            return None;
        }
        let d = (c as u32 - '0' as u32) as u64;
        proof {
            assert(body.take(k + 1) =~= body.take(k).push(c));
            lemma_digits_value_push(body.take(k), c);
        }
        if value > (u64::MAX - d) / 10 {
            proof {
                assert(digits_value(body.take(k + 1)) > u64::MAX) by (nonlinear_arith)
                    requires
                        value > (u64::MAX - d) / 10,
                        0 <= d <= 9,
                        digits_value(body.take(k + 1)) == value * 10 + d,
                ;
                if all_digits(body) {
                    lemma_digits_value_grows(body, k + 1);
                }
            }
            return None;
        }
        proof {
            assert(value * 10 + d <= u64::MAX) by (nonlinear_arith)
                requires
                    value <= (u64::MAX - d) / 10,
                    0 <= d <= 9,
            ;
        }
        value = value * 10 + d;
        i = i + 1;
    }
    proof {
        assert(body.take(n - start) =~= body);
    }
    Some(value)
}

/// Reads an answer to the bid-amount prompt.
pub fn read_bid_answer(input: &str, default: Option<u64>, reserve: u64) -> (r: BidAnswer)
    ensures
        r == bid_answer_spec(input@, default, reserve),
{
    let v = trim(input);
    if v.as_str().unicode_len() == 0 {
        match default {
            Some(amount) => BidAnswer::Amount { amount, below_reserve: amount < reserve },
            None => BidAnswer::Required,
        }
    } else {
        match parse_u64(v.as_str()) {
            None => BidAnswer::NotANumber,
            Some(0) => BidAnswer::Zero,
            Some(amount) => BidAnswer::Amount { amount, below_reserve: amount < reserve },
        }
    }
}

/// The lowercase form of an ASCII letter; other characters are kept.
pub open spec fn ascii_lower(c: char) -> char {
    if 'A' <= c && c <= 'Z' {
        ((c as u32) + 32) as char
    } else {
        c
    }
}

/// How an answer to a yes/no confirmation is read: `y`/`yes` confirm, blank, `n` and
/// `no` decline (any letter case, surrounding whitespace ignored); anything else asks again.
pub open spec fn confirmation_spec(input: Seq<char>) -> Option<bool> {
    let v = trim_spec(input).map_values(|c: char| ascii_lower(c));
    if v == "y"@ || v == "yes"@ {
        Some(true)
    } else if v.len() == 0 || v == "n"@ || v == "no"@ {
        Some(false)
    } else {
        None
    }
}

fn lower_char(c: char) -> (r: char)
    ensures
        r == ascii_lower(c),
{
    if 'A' <= c && c <= 'Z' {
        let code = (c as u32) + 32;
        proof {
            assert(0x61 <= code <= 0x7a);
        }
        (code as u8) as char
    } else {
        c
    }
}

/// Reads an answer to a yes/no confirmation; `None` asks again.
pub fn read_confirmation(input: &str) -> (r: Option<bool>)
    ensures
        r == confirmation_spec(input@),
{
    let t = trim(input);
    let n = t.as_str().unicode_len();
    let ghost v = trim_spec(input@).map_values(|c: char| ascii_lower(c));
    proof {
        reveal_strlit("y");
        reveal_strlit("yes");
        reveal_strlit("n");
        reveal_strlit("no");
    }
    if n == 0 {
        return Some(false);
    }
    if n > 3 {
        proof {
            assert(v.len() > 3);
        }
        return None;
    }
    let c0 = lower_char(t.as_str().get_char(0));
    assert(v[0] == c0);
    if n == 1 {
        if c0 == 'y' {
            assert(v =~= "y"@);
            return Some(true);
        }
        if c0 == 'n' {
            assert(v =~= "n"@);
            return Some(false);
        }
        assert(v != "y"@ && v != "n"@ && v != "yes"@ && v != "no"@) by {
            if v == "y"@ {
                assert(v[0] == 'y');
            }
            if v == "n"@ {
                assert(v[0] == 'n');
            }
        }
        return None;
    }
    let c1 = lower_char(t.as_str().get_char(1));
    assert(v[1] == c1);
    if n == 2 {
        if c0 == 'n' && c1 == 'o' {
            assert(v =~= "no"@);
            return Some(false);
        }
        assert(v != "no"@) by {
            if v == "no"@ {
                assert(v[0] == 'n' && v[1] == 'o');
            }
        }
        return None;
    }
    let c2 = lower_char(t.as_str().get_char(2));
    assert(v[2] == c2);
    if c0 == 'y' && c1 == 'e' && c2 == 's' {
        assert(v =~= "yes"@);
        return Some(true);
    }
    assert(v != "yes"@) by {
        if v == "yes"@ {
            assert(v[0] == 'y' && v[1] == 'e' && v[2] == 's');
        }
    }
    None
}

/// Why a guided bid cannot go ahead.
#[derive(Clone, Copy, Debug, PartialEq, Eq, Structural)]
pub enum BidPlanError {
    /// The auction is not open for bids.
    NotAccepting,
    /// A non-interactive run was given no amount.
    AmountRequired,
    /// A zero bid.
    ZeroAmount,
}

/// Whether the guided bid prompts the user: only for human output when prompting is not
/// disabled. A closed auction, or a non-interactive run without an amount, stops the bid.
pub fn bid_mode(auction_active: bool, no_interactive: bool, human_output: bool, amount: Option<u64>) -> (r:
    Result<bool, BidPlanError>)
    ensures
        !auction_active ==> r == Err::<bool, BidPlanError>(BidPlanError::NotAccepting),
        auction_active && (no_interactive || !human_output) && amount is None ==> r == Err::<
            bool,
            BidPlanError,
        >(BidPlanError::AmountRequired),
        auction_active && !(((no_interactive || !human_output) && amount is None)) ==> r == Ok::<
            bool,
            BidPlanError,
        >(!no_interactive && human_output),
{
    if !auction_active {
        return Err(BidPlanError::NotAccepting);
    }
    let interactive = !no_interactive && human_output;
    if !interactive && amount.is_none() {
        return Err(BidPlanError::AmountRequired);
    }
    Ok(interactive)
}

/// Checks the amount finally chosen for a bid.
pub fn check_bid_amount(amount: u64) -> (r: Result<u64, BidPlanError>)
    ensures
        amount == 0 ==> r == Err::<u64, BidPlanError>(BidPlanError::ZeroAmount),
        amount > 0 ==> r == Ok::<u64, BidPlanError>(amount),
{
    if amount == 0 {
        return Err(BidPlanError::ZeroAmount);
    }
    Ok(amount)
}

/// Seconds to wait before polling an open auction again: the time remaining, kept
/// between one and ten seconds.
pub fn watch_interval(ends_at: u64, now_unix: u64) -> (r: u64)
    ensures
        r == ({
            let rem = sat_sub(ends_at as int, now_unix as int);
            if rem < 1 {
                1
            } else if rem > 10 {
                10
            } else {
                rem
            }
        }),
        1 <= r <= 10,
{
    let remaining = ends_at.saturating_sub(now_unix);
    if remaining < 1 {
        1
    } else if remaining > 10 {
        10
    } else {
        remaining
    }
}

/// What the client reports of an auction.
pub struct AuctionSummary {
    pub name: String,
    /// The status label the client shows (for example `active`).
    pub status: String,
    pub owner: String,
    pub reserve_price: u64,
    pub highest_bid: u64,
    pub highest_bidder: Option<String>,
    pub bid_count: u64,
    pub ends_at: u64,
}

/// What a simulated bid transaction reports.
pub struct SimulationSummary {
    pub success: bool,
    pub fee_estimate: u64,
    pub auth_addresses: Vec<String>,
    pub error: Option<String>,
}

/// The text of a boolean as Rust prints it.
pub open spec fn bool_text(b: bool) -> Seq<char> {
    if b {
        "true"@
    } else {
        "false"@
    }
}

/// Texts joined with a separator.
pub open spec fn join(parts: Seq<Seq<char>>, sep: Seq<char>) -> Seq<char>
    decreases parts.len(),
{
    if parts.len() == 0 {
        Seq::empty()
    } else if parts.len() == 1 {
        parts[0]
    } else {
        join(parts.drop_last(), sep) + sep + parts.last()
    }
}

/// The status block shown before a guided bid, at `now`.
pub open spec fn auction_status_text(a: AuctionSummary, now: u64) -> Seq<char> {
    "Auction status for "@ + a.name@ + ":\n  Status: "@ + a.status@ + "\n  Reserve price: "@ + decimal(
        a.reserve_price as nat,
    ) + " XLM\n  Current highest bid: "@ + decimal(a.highest_bid as nat) + " XLM\n  Number of bids: "@
        + decimal(a.bid_count as nat) + "\n  Time remaining: "@ + decimal(
        sat_sub(a.ends_at as int, now as int) as nat,
    ) + "s\n  Ends at: "@ + decimal(a.ends_at as nat)
}

/// The report of a simulated bid.
pub open spec fn simulation_text(sim: SimulationSummary) -> Seq<char> {
    "Bid transaction simulation:\n  Success: "@ + bool_text(sim.success) + "\n  Estimated network fee: "@
        + decimal(sim.fee_estimate as nat) + " stroops\n  Required authorizations: "@ + if sim.auth_addresses@.len()
        == 0 {
        "none"@
    } else {
        join(sim.auth_addresses@.map_values(|a: String| a@), ", "@)
    }
}

/// The report of an auction shown by `inspect`.
pub open spec fn inspect_text(a: AuctionSummary) -> Seq<char> {
    "Auction for "@ + a.name@ + ":\n  Status: "@ + a.status@ + "\n  Owner: "@ + a.owner@
        + "\n  Reserve Price: "@ + decimal(a.reserve_price as nat) + " XLM\n  Highest Bid: "@ + decimal(
        a.highest_bid as nat,
    ) + " XLM"@ + match a.highest_bidder {
        Some(b) => "\n  Highest Bidder: "@ + b@,
        None => Seq::empty(),
    } + "\n  Ends at: "@ + decimal(a.ends_at as nat)
}

fn push_text(s: &mut String, t: &str)
    ensures
        final(s)@ == old(s)@ + t@,
{
    s.append(t);
}

fn push_number(s: &mut String, n: u64)
    ensures
        final(s)@ == old(s)@ + decimal(n as nat),
{
    let d = decimal_string(n);
    s.append(d.as_str());
}

/// The status block shown before a guided bid.
pub fn format_auction_status(auction: &AuctionSummary, now_unix: u64) -> (r: String)
    ensures
        r@ == auction_status_text(*auction, now_unix),
{
    let mut s = String::from_str("Auction status for ");
    push_text(&mut s, auction.name.as_str());
    push_text(&mut s, ":\n  Status: ");
    push_text(&mut s, auction.status.as_str());
    push_text(&mut s, "\n  Reserve price: ");
    push_number(&mut s, auction.reserve_price);
    push_text(&mut s, " XLM\n  Current highest bid: ");
    push_number(&mut s, auction.highest_bid);
    push_text(&mut s, " XLM\n  Number of bids: ");
    push_number(&mut s, auction.bid_count);
    push_text(&mut s, "\n  Time remaining: ");
    push_number(&mut s, auction.ends_at.saturating_sub(now_unix));
    push_text(&mut s, "s\n  Ends at: ");
    push_number(&mut s, auction.ends_at);
    assert(s@ =~= auction_status_text(*auction, now_unix));
    s
}

/// The report of a simulated bid.
pub fn format_simulation(simulation: &SimulationSummary) -> (r: String)
    ensures
        r@ == simulation_text(*simulation),
{
    let mut s = String::from_str("Bid transaction simulation:\n  Success: ");
    if simulation.success {
        push_text(&mut s, "true");
    } else {
        push_text(&mut s, "false");
    }
    push_text(&mut s, "\n  Estimated network fee: ");
    push_number(&mut s, simulation.fee_estimate);
    push_text(&mut s, " stroops\n  Required authorizations: ");
    let ghost head = s@;
    let parts = &simulation.auth_addresses;
    let ghost all = parts@.map_values(|a: String| a@);
    if parts.len() == 0 {
        push_text(&mut s, "none");
    } else {
        let mut i: usize = 0;
        while i < parts.len()
            invariant
                i <= parts@.len(),
                all == parts@.map_values(|a: String| a@),
                s@ == head + join(all.take(i as int), ", "@),
            decreases parts@.len() - i,
        {
            proof {
                assert(all.take(i + 1).drop_last() =~= all.take(i as int));
                assert(all.take(i + 1).last() == parts@[i as int]@);
            }
            if i > 0 {
                push_text(&mut s, ", ");
            } else {
                assert(all.take(0) =~= Seq::<Seq<char>>::empty());
            }
            push_text(&mut s, parts[i].as_str());
            proof {
                if i == 0 {
                    assert(all.take(1) =~= seq![parts@[0]@]);
                    assert(s@ =~= head + join(all.take(1), ", "@));
                } else {
                    assert(s@ =~= head + join(all.take(i + 1), ", "@));
                }
            }
            i = i + 1;
        }
        proof {
            assert(all.take(parts@.len() as int) =~= all);
        }
    }
    assert(s@ =~= simulation_text(*simulation));
    s
}

/// The report of an auction shown by `inspect`.
pub fn format_auction_inspect(auction: &AuctionSummary) -> (r: String)
    ensures
        r@ == inspect_text(*auction),
{
    let mut s = String::from_str("Auction for ");
    push_text(&mut s, auction.name.as_str());
    push_text(&mut s, ":\n  Status: ");
    push_text(&mut s, auction.status.as_str());
    push_text(&mut s, "\n  Owner: ");
    push_text(&mut s, auction.owner.as_str());
    push_text(&mut s, "\n  Reserve Price: ");
    push_number(&mut s, auction.reserve_price);
    push_text(&mut s, " XLM\n  Highest Bid: ");
    push_number(&mut s, auction.highest_bid);
    push_text(&mut s, " XLM");
    match &auction.highest_bidder {
        Some(b) => {
            push_text(&mut s, "\n  Highest Bidder: ");
            push_text(&mut s, b.as_str());
        },
        None => {},
    }
    push_text(&mut s, "\n  Ends at: ");
    push_number(&mut s, auction.ends_at);
    assert(s@ =~= inspect_text(*auction));
    s
}

/// The text a refused guided bid reports, for the auction `name` whose state reads `status`.
pub open spec fn plan_error_text(e: BidPlanError, name: Seq<char>, status: Seq<char>) -> Seq<char> {
    match e {
        BidPlanError::NotAccepting => "auction '"@ + name + "' is "@ + status + "; it is not accepting bids"@,
        BidPlanError::AmountRequired => "--amount is required with --no-interactive or machine-readable output"@,
        BidPlanError::ZeroAmount => "bid amount must be greater than zero"@,
    }
}

impl BidPlanError {
    /// The message of a refused guided bid, for the auction `name` whose state reads `status`.
    pub fn message(&self, name: &str, status: &str) -> (r: String)
        ensures
            r@ == plan_error_text(*self, name@, status@),
    {
        match self {
            BidPlanError::NotAccepting => {
                let mut s = String::from_str("auction '");
                push_text(&mut s, name);
                push_text(&mut s, "' is ");
                push_text(&mut s, status);
                push_text(&mut s, "; it is not accepting bids");
                assert(s@ =~= plan_error_text(*self, name@, status@));
                s
            },
            BidPlanError::AmountRequired => String::from_str(
                "--amount is required with --no-interactive or machine-readable output",
            ),
            BidPlanError::ZeroAmount => String::from_str("bid amount must be greater than zero"),
        }
    }
}

proof fn lemma_digit(d: int)
    requires
        0 <= d < 10,
    ensures
        digit(d).len() == 1,
        is_digit(digit(d)[0]),
        digit_value(digit(d)[0]) == d,
{
    if d == 0 {
        reveal_strlit("0");
    } else if d == 1 {
        reveal_strlit("1");
    } else if d == 2 {
        reveal_strlit("2");
    } else if d == 3 {
        reveal_strlit("3");
    } else if d == 4 {
        reveal_strlit("4");
    } else if d == 5 {
        reveal_strlit("5");
    } else if d == 6 {
        reveal_strlit("6");
    } else if d == 7 {
        reveal_strlit("7");
    } else if d == 8 {
        reveal_strlit("8");
    } else {
        reveal_strlit("9");
    }
}

proof fn lemma_decimal_digits(n: nat)
    ensures
        decimal(n).len() > 0,
        all_digits(decimal(n)),
        digits_value(decimal(n)) == n,
    decreases n,
{
    if n < 10 {
        lemma_digit(n as int);
        assert(decimal(n).drop_last() =~= Seq::<char>::empty());
        assert(digits_value(decimal(n).drop_last()) == 0);
        assert(digits_value(decimal(n)) == digit_value(decimal(n).last()));
    } else {
        lemma_decimal_digits(n / 10);
        lemma_digit((n % 10) as int);
        let s = decimal(n / 10);
        let t = decimal(n);
        assert(t == s + digit((n % 10) as int));
        assert(t.drop_last() =~= s);
        assert(t.last() == digit((n % 10) as int)[0]);
        assert forall|i: int| 0 <= i < t.len() implies is_digit(#[trigger] t[i]) by {
            if i < s.len() {
                assert(t[i] == s[i]);
            }
        }
        assert(digits_value(t) == digits_value(s) * 10 + (n % 10));
        assert(n == (n / 10) * 10 + n % 10);
    }
}

/// Typed text decides a bid on its own: the default amount counts only when nothing is
/// typed, and then it is the bid (or, without a default, an amount is required).
pub proof fn law_typed_amount_wins(input: Seq<char>, default: Option<u64>, reserve: u64)
    ensures
        trim_spec(input).len() > 0 ==> bid_answer_spec(input, default, reserve) == bid_answer_spec(
            input,
            None,
            reserve,
        ),
        trim_spec(input).len() == 0 ==> bid_answer_spec(input, default, reserve) == match default {
            Some(x) => BidAnswer::Amount { amount: x, below_reserve: x < reserve },
            None => BidAnswer::Required,
        },
{
}

/// A positive whole number typed in decimal, with or without the line end the prompt
/// reads, is bid as that number, whatever the default; it is flagged exactly when it
/// is below the reserve.
pub proof fn law_decimal_bid_is_read_back(n: u64, default: Option<u64>, reserve: u64)
    requires
        n > 0,
    ensures
        bid_answer_spec(decimal(n as nat), default, reserve) == (BidAnswer::Amount {
            amount: n,
            below_reserve: n < reserve,
        }),
        bid_answer_spec(decimal(n as nat) + "\n"@, default, reserve) == (BidAnswer::Amount {
            amount: n,
            below_reserve: n < reserve,
        }),
{
    let s = decimal(n as nat);
    lemma_decimal_digits(n as nat);
    assert(is_digit(s[0]) && is_digit(s.last()));
    assert(!unicode_whitespace(s[0]) && !unicode_whitespace(s.last()));
    assert(trim_spec(s) == s);
    assert(unsigned_body(s) == s);
    assert(parse_u64_spec(s) == Some(n));
    reveal_strlit("\n");
    let t = s + "\n"@;
    assert(t[0] == s[0]);
    assert(t.last() == '\n');
    assert(unicode_whitespace(t.last()));
    assert(t.drop_last() =~= s);
    assert(trim_spec(t) == trim_spec(s));
}

} // verus!
