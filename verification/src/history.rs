//! Name-history events: their kinds, query options, cache keys and file names, and
//! the human-readable listing.
use vstd::prelude::*;
use crate::common::{byte_len, str_byte_len, valid_account_address, validate_account_address};
use crate::strmap::same_str;
use vstd::string::StringSliceAdditionalSpecFns;

verus! {

/// The kind of a name-service event.
#[derive(Clone, Copy, Debug, PartialEq, Eq, Structural)]
pub enum EventType {
    Register,
    Renew,
    Transfer,
    Bid,
    AuctionWin,
    AuctionClaim,
    AuctionCancel,
    ResolverUpdate,
    MetadataUpdate,
    Unknown,
}

/// The machine-readable name of an event kind.
pub open spec fn event_str(e: EventType) -> Seq<char> {
    match e {
        EventType::Register => "register"@,
        EventType::Renew => "renew"@,
        EventType::Transfer => "transfer"@,
        EventType::Bid => "bid"@,
        EventType::AuctionWin => "auction_win"@,
        EventType::AuctionClaim => "auction_claim"@,
        EventType::AuctionCancel => "auction_cancel"@,
        EventType::ResolverUpdate => "resolver_update"@,
        EventType::MetadataUpdate => "metadata_update"@,
        EventType::Unknown => "unknown"@,
    }
}

/// The heading of an event kind in the human listing.
pub open spec fn event_display(e: EventType) -> Seq<char> {
    match e {
        EventType::Register => "REGISTER"@,
        EventType::Renew => "RENEW"@,
        EventType::Transfer => "TRANSFER"@,
        EventType::Bid => "BID"@,
        EventType::AuctionWin => "AUCTION WIN"@,
        EventType::AuctionClaim => "AUCTION CLAIM"@,
        EventType::AuctionCancel => "AUCTION CANCEL"@,
        EventType::ResolverUpdate => "RESOLVER UPDATE"@,
        EventType::MetadataUpdate => "METADATA UPDATE"@,
        EventType::Unknown => "UNKNOWN"@,
    }
}

impl EventType {
    /// The machine-readable name.
    pub fn as_str(&self) -> (r: String)
        ensures
            r@ == event_str(*self),
    {
        let s = match self {
            EventType::Register => "register",
            EventType::Renew => "renew",
            EventType::Transfer => "transfer",
            EventType::Bid => "bid",
            EventType::AuctionWin => "auction_win",
            EventType::AuctionClaim => "auction_claim",
            EventType::AuctionCancel => "auction_cancel",
            EventType::ResolverUpdate => "resolver_update",
            EventType::MetadataUpdate => "metadata_update",
            EventType::Unknown => "unknown",
        };
        String::from_str(s)
    }

    /// The heading in the human listing.
    pub fn display_name(&self) -> (r: String)
        ensures
            r@ == event_display(*self),
    {
        let s = match self {
            EventType::Register => "REGISTER",
            EventType::Renew => "RENEW",
            EventType::Transfer => "TRANSFER",
            EventType::Bid => "BID",
            EventType::AuctionWin => "AUCTION WIN",
            EventType::AuctionClaim => "AUCTION CLAIM",
            EventType::AuctionCancel => "AUCTION CANCEL",
            EventType::ResolverUpdate => "RESOLVER UPDATE",
            EventType::MetadataUpdate => "METADATA UPDATE",
            EventType::Unknown => "UNKNOWN",
        };
        String::from_str(s)
    }
}

/// Most events one query returns.
pub const MAX_HISTORY_LIMIT: usize = 1000;

/// Options of a history query.
#[derive(Clone, Copy, Debug)]
pub struct HistoryOptions {
    pub limit: usize,
    pub no_cache: bool,
}

impl Default for HistoryOptions {
    fn default() -> (r: Self)
        ensures
            r.limit == 50,
            !r.no_cache,
    {
        HistoryOptions { limit: 50, no_cache: false }
    }
}

/// A limit brought into `1..=1000`.
pub open spec fn normalized_limit(limit: usize) -> usize {
    if limit > MAX_HISTORY_LIMIT {
        MAX_HISTORY_LIMIT
    } else if limit == 0 {
        1
    } else {
        limit
    }
}

impl HistoryOptions {
    /// The options with the limit brought into `1..=1000`.
    pub fn normalized(self) -> (r: Self)
        ensures
            r.limit == normalized_limit(self.limit),
            r.no_cache == self.no_cache,
    {
        let mut r = self;
        if r.limit > MAX_HISTORY_LIMIT {
            r.limit = MAX_HISTORY_LIMIT;
        }
        if r.limit == 0 {
            r.limit = 1;
        }
        r
    }
}

// ------------------------------------------------------------------
// Decimal numbers
// ------------------------------------------------------------------

/// The decimal digit of a value below ten.
pub open spec fn digit(d: int) -> Seq<char> {
    if d == 0 {
        "0"@
    } else if d == 1 {
        "1"@
    } else if d == 2 {
        "2"@
    } else if d == 3 {
        "3"@
    } else if d == 4 {
        "4"@
    } else if d == 5 {
        "5"@
    } else if d == 6 {
        "6"@
    } else if d == 7 {
        "7"@
    } else if d == 8 {
        "8"@
    } else {
        "9"@
    }
}

/// The decimal representation of a number, without leading zeros.
pub open spec fn decimal(n: nat) -> Seq<char>
    decreases n,
{
    if n < 10 {
        digit(n as int)
    } else {
        decimal(n / 10) + digit((n % 10) as int)
    }
}

fn append_digit(s: &mut String, d: u64)
    requires
        d < 10,
    ensures
        final(s)@ == old(s)@ + digit(d as int),
{
    let t = if d == 0 {
        "0"
    } else if d == 1 {
        "1"
    } else if d == 2 {
        "2"
    } else if d == 3 {
        "3"
    } else if d == 4 {
        "4"
    } else if d == 5 {
        "5"
    } else if d == 6 {
        "6"
    } else if d == 7 {
        "7"
    } else if d == 8 {
        "8"
    } else {
        "9"
    };
    s.append(t);
}

/// The decimal representation of a number.
pub fn decimal_string(n: u64) -> (r: String)
    ensures
        r@ == decimal(n as nat),
    decreases n,
{
    if n < 10 {
        let mut s = String::new();
        append_digit(&mut s, n);
        assert(s@ =~= decimal(n as nat));
        s
    } else {
        let mut s = decimal_string(n / 10);
        append_digit(&mut s, n % 10);
        s
    }
}

fn append_str(s: &mut String, t: &str)
    ensures
        final(s)@ == old(s)@ + t@,
{
    s.append(t);
}

// ------------------------------------------------------------------
// Cache keys and files
// ------------------------------------------------------------------

/// The cache key of a query: `history:<address>:<name>:<limit>`, with `all` for a part
/// that is not given.
pub open spec fn cache_key(address: Option<Seq<char>>, name: Option<Seq<char>>, limit: nat) -> Seq<char> {
    let a = match address {
        Some(s) => s,
        None => "all"@,
    };
    let n = match name {
        Some(s) => s,
        None => "all"@,
    };
    "history:"@ + a + ":"@ + n + ":"@ + decimal(limit)
}

/// Whether `char::is_alphanumeric` holds for a character (Unicode alphabetic or numeric).
pub uninterp spec fn unicode_alphanumeric(c: char) -> bool;

/// Calls `char::is_alphanumeric`. Among ASCII characters exactly the letters and digits
/// are alphanumeric; for the rest of Unicode the result is left to the named function.
#[verifier::external_body]
fn is_alphanumeric(c: char) -> (r: bool)
    ensures
        r == unicode_alphanumeric(c),
        (c as u32) < 128 ==> (r <==> (('a' <= c && c <= 'z') || ('A' <= c && c <= 'Z') || ('0' <= c
            && c <= '9'))),
{
    c.is_alphanumeric()
}

/// The character kept in a cache file name: alphanumerics, `-` and `_` stay, anything
/// else becomes `_`.
pub open spec fn safe_char(c: char) -> char {
    if unicode_alphanumeric(c) || c == '-' || c == '_' {
        c
    } else {
        '_'
    }
}

/// A key made safe for use as a file name.
pub open spec fn safe_key(key: Seq<char>) -> Seq<char> {
    key.map_values(|c: char| safe_char(c))
}

/// A file name inside a directory, joined as a Unix path.
pub open spec fn join_path(dir: Seq<char>, file: Seq<char>) -> Seq<char> {
    if dir.len() == 0 {
        file
    } else if dir.last() == '/' {
        dir + file
    } else {
        dir + "/"@ + file
    }
}

/// Where cached history queries are kept.
pub struct HistoryCache {
    pub cache_dir: String,
}

impl HistoryCache {
    /// The cache key of a query.
    pub fn make_cache_key(address: Option<&str>, name: Option<&str>, limit: usize) -> (r: String)
        ensures
            r@ == cache_key(
                match address {
                    Some(s) => Some(s@),
                    None => None,
                },
                match name {
                    Some(s) => Some(s@),
                    None => None,
                },
                limit as nat,
            ),
    {
        let mut r = String::from_str("history:");
        match address {
            Some(a) => append_str(&mut r, a),
            None => append_str(&mut r, "all"),
        }
        append_str(&mut r, ":");
        match name {
            Some(n) => append_str(&mut r, n),
            None => append_str(&mut r, "all"),
        }
        append_str(&mut r, ":");
        let digits = decimal_string(limit as u64);
        append_str(&mut r, digits.as_str());
        r
    }

    /// The file that caches a key: the key made safe, with a `.json` extension, inside
    /// the cache directory.
    pub fn get_cache_path(&self, key: &str) -> (r: String)
        ensures
            r@ == join_path(self.cache_dir@, safe_key(key@) + ".json"@),
    {
        let n = key.unicode_len();
        let mut safe = String::new();
        let mut i: usize = 0;
        while i < n
            invariant
                n == key@.len(),
                i <= n,
                safe@ == safe_key(key@.take(i as int)),
            decreases n - i,
        {
            let c = key.get_char(i);
            if is_alphanumeric(c) || c == '-' || c == '_' {
                append_str(&mut safe, key.substring_char(i, i + 1));
            } else {
                append_str(&mut safe, "_");
                proof {
                    reveal_strlit("_");
                }
            }
            proof {
                assert(key@.subrange(i as int, i + 1) =~= seq![c]);
                assert(safe_key(key@.take(i + 1)) =~= safe_key(key@.take(i as int)).push(safe_char(c)));
            }
            i = i + 1;
        }
        proof {
            assert(key@.take(n as int) =~= key@);
        }
        append_str(&mut safe, ".json");
        let dir_len = self.cache_dir.as_str().unicode_len();
        if dir_len == 0 {
            return safe;
        }
        let mut r = self.cache_dir.clone();
        if self.cache_dir.as_str().get_char(dir_len - 1) != '/' {
            append_str(&mut r, "/");
        }
        append_str(&mut r, safe.as_str());
        r
    }
}

/// Cached answers are used for five minutes.
pub const CACHE_TTL_SECONDS: u64 = 300;

/// Whether a cache file written `elapsed_secs` seconds ago may still be used.
pub fn is_cache_fresh(elapsed_secs: u64) -> (r: bool)
    ensures
        r == (elapsed_secs < CACHE_TTL_SECONDS),
{
    elapsed_secs < CACHE_TTL_SECONDS
}

// ------------------------------------------------------------------
// Events and their human listing
// ------------------------------------------------------------------

/// A JSON value, carried unread with an event.
#[verifier::external_type_specification]
#[verifier::external_body]
pub struct ExJsonValue(serde_json::Value);

/// One name-service event as reported to the user.
pub struct HistoryEvent {
    pub timestamp: String,
    pub ledger: u32,
    pub tx_hash: String,
    pub event_type: EventType,
    pub name: Option<String>,
    pub owner: Option<String>,
    pub previous_owner: Option<String>,
    pub counterparty: Option<String>,
    pub amount: Option<String>,
    pub fee: Option<String>,
    pub contract_id: String,
    pub explorer_url: String,
    pub raw: Option<serde_json::Value>,
}

/// The start of a transaction hash shown in the listing: its first 12 bytes, or all of
/// it when it is shorter.
pub open spec fn tx_prefix(tx: Seq<char>) -> Seq<char> {
    if byte_len(tx) <= 12 {
        tx
    } else {
        vstd::utf8::decode_utf8(vstd::utf8::encode_utf8(tx).subrange(0, 12))
    }
}

/// Whether the first 12 bytes of a hash end on a character boundary (always so for
/// hashes of ASCII characters).
pub open spec fn tx_prefix_defined(tx: Seq<char>) -> bool {
    byte_len(tx) <= 12 || vstd::utf8::is_char_boundary(vstd::utf8::encode_utf8(tx), 12)
}

/// `n` copies of a character.
pub open spec fn repeat_char(c: char, n: nat) -> Seq<char> {
    Seq::new(n, |i: int| c)
}

/// A `label value suffix` line when the value is present.
#[verifier::opaque]
pub open spec fn opt_line(label: Seq<char>, value: Option<String>, suffix: Seq<char>) -> Seq<char> {
    match value {
        Some(v) => label + v@ + suffix + "\n"@,
        None => Seq::empty(),
    }
}

/// The first lines of an event's block: time, kind, and the parties and amounts it has.
pub open spec fn event_head(e: HistoryEvent) -> Seq<char> {
    "\n"@ + e.timestamp@ + "\n"@ + event_display(e.event_type) + "\n"@ + opt_line("Name: "@, e.name, ""@)
        + opt_line("Owner: "@, e.owner, ""@) + opt_line("Previous Owner: "@, e.previous_owner, ""@)
        + opt_line("Counterparty: "@, e.counterparty, ""@) + opt_line("Amount: "@, e.amount, " XLM"@)
        + opt_line("Fee: "@, e.fee, " XLM"@)
}

/// The last lines of an event's block: transaction, ledger and a rule.
pub open spec fn event_tail(e: HistoryEvent) -> Seq<char> {
    "Tx: "@ + tx_prefix(e.tx_hash@) + "\n"@ + "Ledger: "@ + decimal(e.ledger as nat) + "\n"@
        + repeat_char('-', 80)
}

/// The block of the listing that shows one event.
pub open spec fn event_block(e: HistoryEvent) -> Seq<char> {
    event_head(e) + event_tail(e)
}

/// The blocks of several events, in order.
pub open spec fn event_blocks(events: Seq<HistoryEvent>) -> Seq<char>
    decreases events.len(),
{
    if events.len() == 0 {
        Seq::empty()
    } else {
        event_blocks(events.drop_last()) + event_block(events.last())
    }
}

/// The human listing of events: a notice when there are none, otherwise a heading, a
/// rule and one block per event.
pub open spec fn human_output(events: Seq<HistoryEvent>) -> Seq<char> {
    if events.len() == 0 {
        "No xlm-ns activity found for this address."@
    } else {
        "Name History\n"@ + repeat_char('=', 80) + "\n"@ + event_blocks(events)
    }
}

fn append_repeat(s: &mut String, c: &str, n: usize)
    requires
        c@.len() == 1,
    ensures
        final(s)@ == old(s)@ + repeat_char(c@[0], n as nat),
{
    let mut i: usize = 0;
    while i < n
        invariant
            c@.len() == 1,
            i <= n,
            s@ == old(s)@ + repeat_char(c@[0], i as nat),
        decreases n - i,
    {
        append_str(s, c);
        proof {
            assert(repeat_char(c@[0], (i + 1) as nat) =~= repeat_char(c@[0], i as nat) + c@);
        }
        i = i + 1;
    }
}

fn append_opt_line(s: &mut String, label: &str, value: &Option<String>, suffix: &str)
    ensures
        final(s)@ == old(s)@ + opt_line(label@, *value, suffix@),
{
    proof {
        reveal(opt_line);
    }
    match value {
        Some(v) => {
            append_str(s, label);
            append_str(s, v.as_str());
            append_str(s, suffix);
            append_str(s, "\n");
            proof {
                assert(s@ =~= old(s)@ + opt_line(label@, *value, suffix@));
            }
        },
        None => {
            assert(s@ =~= old(s)@ + opt_line(label@, *value, suffix@));
        },
    }
}

/// The start of a transaction hash as shown in the listing.
fn tx_prefix_str(tx: &String) -> (r: &str)
    requires
        tx_prefix_defined(tx@),
    ensures
        r@ == tx_prefix(tx@),
{
    broadcast use vstd::utf8::encode_utf8_decode_utf8;

    let s = tx.as_str();
    proof {
        assert(s@ == tx@);
        assert(s.spec_bytes() == vstd::utf8::encode_utf8(tx@));
        assert(s.spec_bytes().len() == byte_len(tx@));
    }
    if str_byte_len(tx) <= 12 {
        s
    } else {
        assert(byte_len(tx@) > 12);
        let (head, _) = s.split_at(12);
        proof {
            let bytes = vstd::utf8::encode_utf8(tx@).subrange(0, 12);
            assert(head.spec_bytes() =~= bytes);
            assert(vstd::utf8::encode_utf8(head@) == bytes);
            assert(vstd::utf8::decode_utf8(vstd::utf8::encode_utf8(head@)) == head@);
            assert(head@ == vstd::utf8::decode_utf8(bytes));
        }
        head
    }
}

fn append_event_head(s: &mut String, e: &HistoryEvent)
    ensures
        final(s)@ == old(s)@ + event_head(*e),
{
    append_str(s, "\n");
    append_str(s, e.timestamp.as_str());
    append_str(s, "\n");
    let heading = e.event_type.display_name();
    append_str(s, heading.as_str());
    append_str(s, "\n");
    append_opt_line(s, "Name: ", &e.name, "");
    append_opt_line(s, "Owner: ", &e.owner, "");
    append_opt_line(s, "Previous Owner: ", &e.previous_owner, "");
    append_opt_line(s, "Counterparty: ", &e.counterparty, "");
    append_opt_line(s, "Amount: ", &e.amount, " XLM");
    append_opt_line(s, "Fee: ", &e.fee, " XLM");
    proof {
        assert(s@ =~= old(s)@ + event_head(*e));
    }
}

fn append_event_tail(s: &mut String, e: &HistoryEvent)
    requires
        tx_prefix_defined(e.tx_hash@),
    ensures
        final(s)@ == old(s)@ + event_tail(*e),
{
    append_str(s, "Tx: ");
    append_str(s, tx_prefix_str(&e.tx_hash));
    append_str(s, "\n");
    append_str(s, "Ledger: ");
    let ledger = decimal_string(e.ledger as u64);
    append_str(s, ledger.as_str());
    append_str(s, "\n");
    proof {
        reveal_strlit("-");
    }
    append_repeat(s, "-", 80);
    proof {
        assert(s@ =~= old(s)@ + event_tail(*e));
    }
}

fn append_event_block(s: &mut String, e: &HistoryEvent)
    requires
        tx_prefix_defined(e.tx_hash@),
    ensures
        final(s)@ == old(s)@ + event_block(*e),
{
    append_event_head(s, e);
    append_event_tail(s, e);
    assert(s@ =~= old(s)@ + event_block(*e));
}

/// The human listing of events.
pub fn format_human_output(events: &Vec<HistoryEvent>) -> (r: String)
    requires
        forall|i: int| 0 <= i < events@.len() ==> tx_prefix_defined(#[trigger] events@[i].tx_hash@),
    ensures
        r@ == human_output(events@),
{
    if events.len() == 0 {
        return String::from_str("No xlm-ns activity found for this address.");
    }
    let mut out = String::from_str("Name History\n");
    proof {
        reveal_strlit("=");
    }
    append_repeat(&mut out, "=", 80);
    append_str(&mut out, "\n");
    let ghost head = out@;
    let mut i: usize = 0;
    while i < events.len()
        invariant
            i <= events@.len(),
            forall|j: int| 0 <= j < events@.len() ==> tx_prefix_defined(#[trigger] events@[j].tx_hash@),
            out@ == head + event_blocks(events@.take(i as int)),
        decreases events@.len() - i,
    {
        append_event_block(&mut out, &events[i]);
        proof {
            assert(events@.take(i + 1).drop_last() =~= events@.take(i as int));
            assert(head + event_blocks(events@.take(i + 1)) =~= head + event_blocks(events@.take(i as int))
                + event_block(events@[i as int]));
        }
        i = i + 1;
    }
    proof {
        assert(events@.take(events@.len() as int) =~= events@);
    }
    out
}

// ------------------------------------------------------------------
// The history provider
// ------------------------------------------------------------------

/// The explorer page of a transaction: the testnet explorer on testnet, the public one
/// on any other network.
pub open spec fn explorer_url(network: Seq<char>, tx_hash: Seq<char>) -> Seq<char> {
    "https://stellar.expert/explorer/"@ + (if network == "testnet"@ {
        "testnet"@
    } else {
        "public"@
    }) + "/tx/"@ + tx_hash
}

/// Latest Unix time that chrono can show as a date (the end of its last supported year).
pub const MAX_RFC3339_SECONDS: u64 = 8_210_266_876_799;

/// chrono's RFC 3339 text (`to_rfc3339`) of the UTC time `seconds` and `nanos` after the
/// Unix epoch.
pub uninterp spec fn rfc3339_utc(seconds: u64, nanos: u32) -> Seq<char>;

/// Whether a text is chrono's RFC 3339 text of some UTC time it can show, with fewer
/// nanoseconds than a second.
pub open spec fn is_utc_rfc3339_text(text: Seq<char>) -> bool {
    exists|s: u64, ns: u32| s <= MAX_RFC3339_SECONDS && ns < 1_000_000_000 && text == #[trigger] rfc3339_utc(s, ns)
}

/// The outline every RFC 3339 text of a UTC time has: at least a date, `T` and a time of
/// day (25 characters with the offset), ending in the offset `+00:00`.
pub open spec fn utc_rfc3339_outline(t: Seq<char>) -> bool {
    &&& t.len() >= 25
    &&& t.subrange(t.len() - 6, t.len() as int) == "+00:00"@
}

/// Calls `chrono::DateTime::<Utc>::from` on the system time `seconds` after the Unix
/// epoch, then `to_rfc3339`. The text is named by `rfc3339_utc` with no fraction of a
/// second; of its characters only the outline is stated. Times past chrono's last
/// supported year make chrono panic, so they are left out.
#[verifier::external_body]
fn utc_rfc3339(seconds: u64) -> (r: String)
    requires
        seconds <= MAX_RFC3339_SECONDS,
    ensures
        r@ == rfc3339_utc(seconds, 0),
        utc_rfc3339_outline(r@),
{
    let t = std::time::SystemTime::UNIX_EPOCH + std::time::Duration::from_secs(seconds);
    chrono::DateTime::<chrono::Utc>::from(t).to_rfc3339()
}

/// Calls `chrono::Utc::now().to_rfc3339()`. The clock picks the time, so of the result
/// it is stated only that it is the text of some time chrono can show, with its
/// nanoseconds below one second, and that it has the outline of such a text.
#[verifier::external_body]
fn utc_now_rfc3339() -> (r: String)
    ensures
        is_utc_rfc3339_text(r@),
        utc_rfc3339_outline(r@),
{
    chrono::Utc::now().to_rfc3339()
}

/// Reads history from the network; events are not fetched yet, so every query
/// answers with an empty list.
pub struct SorobanHistoryProvider {
    pub network: String,
}

impl SorobanHistoryProvider {
    /// A provider for the named network.
    pub fn new(network: &str) -> (r: Self)
        ensures
            r.network@ == network@,
    {
        SorobanHistoryProvider { network: String::from_str(network) }
    }

    /// The explorer page of a transaction on this provider's network.
    pub fn build_explorer_url(&self, tx_hash: &str) -> (r: String)
        ensures
            r@ == explorer_url(self.network@, tx_hash@),
    {
        let mut r = String::from_str("https://stellar.expert/explorer/");
        if same_str(&self.network, &String::from_str("testnet")) {
            append_str(&mut r, "testnet");
        } else {
            append_str(&mut r, "public");
        }
        append_str(&mut r, "/tx/");
        append_str(&mut r, tx_hash);
        r
    }

    /// The time of a ledger close as RFC 3339 text; without one, the current time.
    pub fn parse_timestamp(ledger_close_time: Option<i64>) -> (r: String)
        requires
            match ledger_close_time {
                Some(t) => 0 <= t <= MAX_RFC3339_SECONDS,
                None => true,
            },
        ensures
            ledger_close_time matches Some(t) ==> r@ == rfc3339_utc(t as u64, 0),
            ledger_close_time is None ==> is_utc_rfc3339_text(r@),
            utc_rfc3339_outline(r@),
    {
        match ledger_close_time {
            Some(t) => utc_rfc3339(t as u64),
            None => utc_now_rfc3339(),
        }
    }

    /// The kind of an event; events are not decoded yet, so every one is `Unknown`.
    pub fn classify_event(&self, contract_id: &str, event_data: &serde_json::Value) -> (r: EventType)
        ensures
            r == EventType::Unknown,
    {
        EventType::Unknown
    }

    /// The events found for a query; none yet.
    pub fn create_sample_events(&self, address: &str, limit: usize) -> (r: Vec<HistoryEvent>)
        ensures
            r@.len() == 0,
    {
        Vec::new()
    }

    /// The events of an address, at most `limit` of them.
    pub fn get_address_history(&self, address: &str, limit: usize) -> (r: Vec<HistoryEvent>)
        ensures
            r@.len() == 0,
    {
        self.create_sample_events(address, limit)
    }

    /// The events of a name, at most `limit` of them.
    pub fn get_name_history(&self, name: &str, limit: usize) -> (r: Vec<HistoryEvent>)
        ensures
            r@.len() == 0,
    {
        self.create_sample_events(name, limit)
    }
}

/// Why a history query is refused before anything is fetched.
#[derive(Clone, Copy, Debug, PartialEq, Eq, Structural)]
pub enum HistoryRequestError {
    /// The address is not a Stellar account address.
    InvalidAddress,
    /// Neither an address nor a name was given.
    NothingToQuery,
}

impl HistoryRequestError {
    /// The message shown to the user.
    pub fn message(&self) -> (r: String)
        ensures
            r@ == match self {
                HistoryRequestError::InvalidAddress => "Invalid Stellar address"@,
                HistoryRequestError::NothingToQuery => "Either <address> or --name must be provided"@,
            },
    {
        match self {
            HistoryRequestError::InvalidAddress => String::from_str("Invalid Stellar address"),
            HistoryRequestError::NothingToQuery => String::from_str(
                "Either <address> or --name must be provided",
            ),
        }
    }
}

/// Checks a history query: a given address must be an account address, and an address
/// or a name must be given.
pub fn check_history_request(address: Option<&str>, name: Option<&str>) -> (r: Result<(), HistoryRequestError>)
    ensures
        r == (match address {
            Some(a) if !valid_account_address(a@) => Err(HistoryRequestError::InvalidAddress),
            _ => if address is None && name is None {
                Err(HistoryRequestError::NothingToQuery)
            } else {
                Ok(())
            },
        }),
{
    match address {
        Some(a) => {
            if !validate_account_address(a) {
                return Err(HistoryRequestError::InvalidAddress);
            }
        },
        None => {},
    }
    if address.is_none() && name.is_none() {
        return Err(HistoryRequestError::NothingToQuery);
    }
    Ok(())
}

// ------------------------------------------------------------------
// Laws
// ------------------------------------------------------------------

/// Normalizing a limit always yields one in `1..=1000`, and normalizing again changes nothing.
pub proof fn law_normalized_limit_is_idempotent(limit: usize)
    ensures
        1 <= normalized_limit(limit) <= MAX_HISTORY_LIMIT,
        normalized_limit(normalized_limit(limit)) == normalized_limit(limit),
        1 <= limit <= MAX_HISTORY_LIMIT ==> normalized_limit(limit) == limit,
{
}

/// Making a key safe keeps its length, yields only alphanumerics, dashes and
/// underscores, and leaves an already safe key unchanged.
pub proof fn law_safe_key_is_idempotent(key: Seq<char>)
    ensures
        safe_key(key).len() == key.len(),
        forall|i: int|
            0 <= i < key.len() ==> unicode_alphanumeric(#[trigger] safe_key(key)[i]) || safe_key(key)[i]
                == '-' || safe_key(key)[i] == '_',
        safe_key(safe_key(key)) == safe_key(key),
{
    assert(safe_key(safe_key(key)) =~= safe_key(key));
}

} // verus!
