//! Shared naming, time and pricing rules of the name service.
use vstd::prelude::*;
use vstd::string::*;

verus! {

/// Seconds in one day.
pub const SECONDS_PER_DAY: u64 = 86_400;

/// Seconds in one registration year (365 days).
pub const SECONDS_PER_YEAR: u64 = 31_536_000;

/// Default length of the grace period that follows an expiry (30 days).
pub const GRACE_PERIOD_SECONDS: u64 = 2_592_000;

/// Default resolution time-to-live stored with new registry entries.
pub const DEFAULT_TTL_SECONDS: u64 = 3_600;

/// Longest metadata URI accepted by the registry, in bytes.
pub const MAX_METADATA_URI_LENGTH: usize = 256;

/// Most text records a resolution record may hold.
pub const MAX_TEXT_RECORDS: usize = 20;

/// Longest text-record value accepted by the resolver, in bytes.
pub const MAX_TEXT_RECORD_VALUE_LENGTH: usize = 256;

/// Longest label, in characters.
pub const MAX_LABEL_LENGTH: usize = 63;

/// Longest fully qualified name, in characters.
pub const MAX_NAME_LENGTH: usize = 253;

/// Longest chain identifier, in characters.
pub const MAX_CHAIN_NAME_LENGTH: usize = 32;

/// Longest registration or renewal term, in years.
pub const MAX_REGISTRATION_YEARS: u64 = 10;

/// Version of the label-length pricing table.
pub const PRICING_POLICY_VERSION: u32 = 1;

/// Longest text-record key, in bytes.
pub const MAX_TEXT_KEY_LENGTH: usize = 64;

// ------------------------------------------------------------------
// Arithmetic
// ------------------------------------------------------------------

/// `a + b`, capped at `u64::MAX`.
pub open spec fn sat_add(a: int, b: int) -> int {
    if a + b > u64::MAX {
        u64::MAX as int
    } else {
        a + b
    }
}

/// `a * b`, capped at `u64::MAX`.
pub open spec fn sat_mul(a: int, b: int) -> int {
    if a * b > u64::MAX {
        u64::MAX as int
    } else {
        a * b
    }
}

/// `a - b`, floored at zero.
pub open spec fn sat_sub(a: int, b: int) -> int {
    if a - b < 0 {
        0
    } else {
        a - b
    }
}

/// Saturating addition.
pub fn add_sat(a: u64, b: u64) -> (r: u64)
    ensures
        r == sat_add(a as int, b as int),
{
    a.saturating_add(b)
}

/// Saturating subtraction.
pub fn sub_sat(a: u64, b: u64) -> (r: u64)
    ensures
        r == sat_sub(a as int, b as int),
{
    a.saturating_sub(b)
}

/// Saturating multiplication.
pub fn mul_sat(a: u64, b: u64) -> (r: u64)
    ensures
        r == sat_mul(a as int, b as int),
{
    match a.checked_mul(b) {
        Some(p) => p,
        None => u64::MAX,
    }
}

// ------------------------------------------------------------------
// Lifecycle time rules
// ------------------------------------------------------------------

/// A name is active up to and including its expiry instant.
pub open spec fn spec_is_active_at(expires_at: int, now: int) -> bool {
    now <= expires_at
}

/// A name becomes claimable strictly after its grace period ends.
pub open spec fn spec_is_claimable_at(grace_period_ends_at: int, now: int) -> bool {
    now > grace_period_ends_at
}

/// Whether a name with this expiry is active at `now_unix`.
pub fn is_active_at(expires_at: u64, now_unix: u64) -> (r: bool)
    ensures
        r == spec_is_active_at(expires_at as int, now_unix as int),
{
    now_unix <= expires_at
}

/// Whether a name whose grace period ends at this instant is claimable at `now_unix`.
pub fn is_claimable_at(grace_period_ends_at: u64, now_unix: u64) -> (r: bool)
    ensures
        r == spec_is_claimable_at(grace_period_ends_at as int, now_unix as int),
{
    now_unix > grace_period_ends_at
}

/// End of the default grace period that follows an expiry.
pub fn grace_period_ends_at(expiry_unix: u64) -> (r: u64)
    ensures
        r == sat_add(expiry_unix as int, GRACE_PERIOD_SECONDS as int),
{
    add_sat(expiry_unix, GRACE_PERIOD_SECONDS)
}

/// Whether `now_unix` lies after the expiry and within the default grace period.
pub fn within_grace_period(expiry_unix: u64, now_unix: u64) -> (r: bool)
    ensures
        r == (now_unix > expiry_unix && now_unix <= sat_add(
            expiry_unix as int,
            GRACE_PERIOD_SECONDS as int,
        )),
{
    now_unix > expiry_unix && now_unix <= grace_period_ends_at(expiry_unix)
}

/// Whether a time window `[starts_at, ends_at]` is open at `now_unix` (both ends included).
pub fn is_time_window_open(now_unix: u64, starts_at: u64, ends_at: u64) -> (r: bool)
    ensures
        r == (starts_at <= now_unix && now_unix <= ends_at),
{
    starts_at <= now_unix && now_unix <= ends_at
}

/// Expiry of a term of `years` years starting at `now_unix`.
pub open spec fn spec_expiry_from_now(now: int, years: int) -> int {
    sat_add(now, sat_mul(years, SECONDS_PER_YEAR as int))
}

/// Expiry of a term of `years` years starting at `now_unix`, saturating.
pub fn expiry_from_now(now_unix: u64, years: u64) -> (r: u64)
    ensures
        r == spec_expiry_from_now(now_unix as int, years as int),
{
    add_sat(now_unix, mul_sat(years, SECONDS_PER_YEAR))
}

// ------------------------------------------------------------------
// Pricing
// ------------------------------------------------------------------

/// Annual fee in stroops for a label of `len` characters.
pub open spec fn spec_price_for_label_length(len: int) -> u64 {
    if len <= 3 {
        1_000_000_000
    } else if len == 4 {
        500_000_000
    } else if len == 5 {
        250_000_000
    } else {
        100_000_000
    }
}

/// Annual fee in stroops for a label of `len` characters: short labels cost more.
pub fn price_for_label_length(len: usize) -> (r: u64)
    ensures
        r == spec_price_for_label_length(len as int),
{
    if len <= 3 {
        1_000_000_000
    } else if len == 4 {
        500_000_000
    } else if len == 5 {
        250_000_000
    } else {
        100_000_000
    }
}

// ------------------------------------------------------------------
// Names
// ------------------------------------------------------------------

/// The top-level suffix of every name.
pub open spec fn xlm_suffix() -> Seq<char> {
    seq!['.', 'x', 'l', 'm']
}

/// A lowercase ASCII letter or a digit.
pub open spec fn is_alnum(c: char) -> bool {
    ('a' <= c && c <= 'z') || ('0' <= c && c <= '9')
}

/// A character allowed inside a label.
pub open spec fn is_label_char(c: char) -> bool {
    is_alnum(c) || c == '-'
}

/// A label: 1 to 63 lowercase letters, digits or hyphens, not starting or ending with a hyphen.
pub open spec fn valid_label(s: Seq<char>) -> bool {
    &&& 1 <= s.len() <= MAX_LABEL_LENGTH
    &&& forall|i: int| 0 <= i < s.len() ==> is_label_char(#[trigger] s[i])
    &&& s[0] != '-'
    &&& s[s.len() - 1] != '-'
}

/// A fully qualified name: dot-separated labels ending in `.xlm`, at most 253 characters,
/// where every dot stands between a letter or digit on each side.
pub open spec fn valid_fqdn(s: Seq<char>) -> bool {
    &&& 5 <= s.len() <= MAX_NAME_LENGTH
    &&& s.subrange(s.len() - 4, s.len() as int) == xlm_suffix()
    &&& forall|i: int| 0 <= i < s.len() ==> is_label_char(#[trigger] s[i]) || s[i] == '.'
    &&& is_alnum(s[0])
    &&& forall|i: int| 0 < i < s.len() && #[trigger] s[i] == '.' ==> is_alnum(s[i - 1])
    &&& forall|i: int| 0 < i < s.len() && #[trigger] s[i - 1] == '.' ==> is_alnum(s[i])
}

/// A second-level name `label.xlm`.
pub open spec fn valid_base_name(s: Seq<char>) -> bool {
    valid_fqdn(s) && valid_label(s.subrange(0, s.len() - 4))
}

/// A chain identifier: 1 to 32 lowercase letters, digits or hyphens.
pub open spec fn valid_chain_name(s: Seq<char>) -> bool {
    &&& 1 <= s.len() <= MAX_CHAIN_NAME_LENGTH
    &&& forall|i: int| 0 <= i < s.len() ==> is_label_char(#[trigger] s[i])
}

/// A registration term between 1 and 10 years.
pub open spec fn valid_registration_years(years: int) -> bool {
    1 <= years <= MAX_REGISTRATION_YEARS
}

/// Number of bytes of the UTF-8 encoding.
pub open spec fn byte_len(s: Seq<char>) -> nat {
    vstd::utf8::encode_utf8(s).len()
}

/// A string has at least as many bytes as characters.
pub proof fn lemma_byte_len_ge_char_len(s: Seq<char>)
    ensures
        byte_len(s) >= s.len(),
    decreases s.len(),
{
    if s.len() > 0 {
        lemma_byte_len_ge_char_len(s.drop_first());
        assert(vstd::utf8::encode_scalar(s[0] as u32).len() >= 1);
    }
}

/// Byte length of a string.
pub fn str_byte_len(s: &String) -> (r: usize)
    ensures
        r == byte_len(s@),
{
    let bytes = s.as_str().as_bytes();
    bytes.len()
}

/// Number of characters of a string.
pub fn char_len(s: &String) -> (r: usize)
    ensures
        r == s@.len(),
{
    s.as_str().unicode_len()
}

/// The character at a position.
pub fn char_at(s: &String, i: usize) -> (c: char)
    requires
        i < s@.len(),
    ensures
        c == s@[i as int],
{
    s.as_str().get_char(i)
}

fn char_is_alnum(c: char) -> (r: bool)
    ensures
        r == is_alnum(c),
{
    ('a' <= c && c <= 'z') || ('0' <= c && c <= '9')
}

fn char_is_label_char(c: char) -> (r: bool)
    ensures
        r == is_label_char(c),
{
    char_is_alnum(c) || c == '-'
}

/// Checks a label.
pub fn validate_label(label: &String) -> (r: bool)
    ensures
        r == valid_label(label@),
{
    let n = char_len(label);
    if n < 1 || n > MAX_LABEL_LENGTH {
        return false;
    }
    let mut i: usize = 0;
    while i < n
        invariant
            n == label@.len(),
            i <= n,
            forall|j: int| 0 <= j < i ==> is_label_char(#[trigger] label@[j]),
        decreases n - i,
    {
        if !char_is_label_char(char_at(label, i)) {
            return false;
        }
        i = i + 1;
    }
    char_at(label, 0) != '-' && char_at(label, n - 1) != '-'
}

/// Checks a fully qualified name.
pub fn validate_fqdn(name: &String) -> (r: bool)
    ensures
        r == valid_fqdn(name@),
{
    let n = char_len(name);
    if n < 5 || n > MAX_NAME_LENGTH {
        return false;
    }
    if !(char_at(name, n - 4) == '.' && char_at(name, n - 3) == 'x' && char_at(name, n - 2)
        == 'l' && char_at(name, n - 1) == 'm') {
        proof {
            let sub = name@.subrange(n - 4, n as int);
            if sub == xlm_suffix() {
                assert(sub[0] == name@[n - 4]);
                assert(sub[1] == name@[n - 3]);
                assert(sub[2] == name@[n - 2]);
                assert(sub[3] == name@[n - 1]);
            }
        }
        return false;
    }
    assert(name@.subrange(n - 4, n as int) =~= xlm_suffix());
    if !char_is_alnum(char_at(name, 0)) {
        return false;
    }
    let mut i: usize = 0;
    while i < n
        invariant
            n == name@.len(),
            i <= n,
            forall|j: int| 0 <= j < i ==> is_label_char(#[trigger] name@[j]) || name@[j] == '.',
            forall|j: int| 0 < j < i && #[trigger] name@[j] == '.' ==> is_alnum(name@[j - 1]),
            forall|j: int| 0 < j < i && #[trigger] name@[j - 1] == '.' ==> is_alnum(name@[j]),
        decreases n - i,
    {
        let c = char_at(name, i);
        if !(char_is_label_char(c) || c == '.') {
            return false;
        }
        if i > 0 {
            let p = char_at(name, i - 1);
            if c == '.' && !char_is_alnum(p) {
                return false;
            }
            if p == '.' && !char_is_alnum(c) {
                return false;
            }
        }
        i = i + 1;
    }
    true
}

/// Checks a second-level name `label.xlm`.
pub fn validate_base_name(name: &String) -> (r: bool)
    ensures
        r == valid_base_name(name@),
{
    if !validate_fqdn(name) {
        return false;
    }
    let n = char_len(name);
    let label_part = String::from_str(name.as_str().substring_char(0, n - 4));
    validate_label(&label_part)
}

/// Checks a chain identifier.
pub fn validate_chain_name(chain: &String) -> (r: bool)
    ensures
        r == valid_chain_name(chain@),
{
    let n = char_len(chain);
    if n < 1 || n > MAX_CHAIN_NAME_LENGTH {
        return false;
    }
    let mut i: usize = 0;
    while i < n
        invariant
            n == chain@.len(),
            i <= n,
            forall|j: int| 0 <= j < i ==> is_label_char(#[trigger] chain@[j]),
        decreases n - i,
    {
        if !char_is_label_char(char_at(chain, i)) {
            return false;
        }
        i = i + 1;
    }
    true
}

/// Checks a registration term.
pub fn validate_registration_years(years: u64) -> (r: bool)
    ensures
        r == valid_registration_years(years as int),
{
    1 <= years && years <= MAX_REGISTRATION_YEARS
}

/// A label followed by `.xlm` is a valid second-level name whose label part is the label.
pub proof fn lemma_label_builds_base_name(label: Seq<char>)
    requires
        valid_label(label),
    ensures
        valid_base_name(label + xlm_suffix()),
        (label + xlm_suffix()).subrange(0, label.len() as int) == label,
{
    let s = label + xlm_suffix();
    let n = s.len() as int;
    let l = label.len() as int;
    assert(s.subrange(n - 4, n) =~= xlm_suffix());
    assert(s.subrange(0, l) =~= label);
    assert(s.subrange(0, n - 4) =~= label);
    assert forall|i: int| 0 <= i < n implies is_label_char(#[trigger] s[i]) || s[i] == '.' by {
        if i < l {
            assert(s[i] == label[i]);
        }
    }
    assert(s[0] == label[0]);
    assert forall|i: int| 0 < i < n && #[trigger] s[i] == '.' implies is_alnum(s[i - 1]) by {
        if i < l {
            assert(s[i] == label[i]);
        } else {
            assert(i == l);
            assert(s[i - 1] == label[l - 1]);
        }
    }
    assert forall|i: int| 0 < i < n && #[trigger] s[i - 1] == '.' implies is_alnum(s[i]) by {
        if i - 1 < l {
            assert(s[i - 1] == label[i - 1]);
        }
    }
}

/// The name `label.xlm`, if the label is valid.
pub fn build_xlm_name(label: &String) -> (r: Option<String>)
    ensures
        r is Some == valid_label(label@),
        r matches Some(name) ==> name@ == label@ + xlm_suffix(),
{
    if !validate_label(label) {
        return None;
    }
    let mut name = label.clone();
    name.append(".xlm");
    proof {
        reveal_strlit(".xlm");
        assert(".xlm"@ =~= xlm_suffix());
    }
    Some(name)
}

/// The label of a second-level name `label.xlm`, if the name is one.
pub fn extract_label(name: &String) -> (r: Option<String>)
    ensures
        r is Some == valid_base_name(name@),
        r matches Some(label) ==> label@ == name@.subrange(0, name@.len() - 4) && valid_label(
            label@,
        ) && name@ == label@ + xlm_suffix(),
{
    if !validate_base_name(name) {
        return None;
    }
    let n = char_len(name);
    let label = String::from_str(name.as_str().substring_char(0, n - 4));
    proof {
        assert(name@ =~= label@ + name@.subrange(n - 4, n as int));
    }
    Some(label)
}

/// Text-record keys: 1 to 64 bytes of lowercase letters, digits, `.`, `-` or `_`.
pub open spec fn is_text_key_char(c: char) -> bool {
    ('a' <= c && c <= 'z') || ('0' <= c && c <= '9') || c == '.' || c == '-' || c == '_'
}

/// A valid text-record key.
pub open spec fn valid_text_record_key(s: Seq<char>) -> bool {
    &&& 1 <= s.len() <= MAX_TEXT_KEY_LENGTH
    &&& forall|i: int| 0 <= i < s.len() ==> is_text_key_char(#[trigger] s[i])
}

/// Checks a text-record key.
pub fn validate_text_record_key(key: &String) -> (r: bool)
    ensures
        r == valid_text_record_key(key@),
{
    let n = char_len(key);
    if n < 1 || n > MAX_TEXT_KEY_LENGTH {
        return false;
    }
    let mut i: usize = 0;
    while i < n
        invariant
            n == key@.len(),
            i <= n,
            forall|j: int| 0 <= j < i ==> is_text_key_char(#[trigger] key@[j]),
        decreases n - i,
    {
        let c = char_at(key, i);
        if !(('a' <= c && c <= 'z') || ('0' <= c && c <= '9') || c == '.' || c == '-' || c
            == '_') {
            return false;
        }
        i = i + 1;
    }
    true
}

/// A base-32 character of a Stellar key: `A`-`Z` or `2`-`7`.
pub open spec fn is_base32_char(c: char) -> bool {
    ('A' <= c && c <= 'Z') || ('2' <= c && c <= '7')
}

/// A Stellar account address: `G` followed by 55 base-32 characters.
pub open spec fn valid_account_address(s: Seq<char>) -> bool {
    &&& s.len() == 56
    &&& s[0] == 'G'
    &&& forall|i: int| 1 <= i < s.len() ==> is_base32_char(#[trigger] s[i])
}

/// Checks a Stellar account address.
pub fn validate_account_address(s: &str) -> (r: bool)
    ensures
        r == valid_account_address(s@),
{
    let n = s.unicode_len();
    if n != 56 {
        return false;
    }
    if s.get_char(0) != 'G' {
        return false;
    }
    let mut i: usize = 1;
    while i < n
        invariant
            n == s@.len(),
            n == 56,
            1 <= i <= n,
            s@[0] == 'G',
            forall|j: int| 1 <= j < i ==> is_base32_char(#[trigger] s@[j]),
        decreases n - i,
    {
        let c = s.get_char(i);
        if !(('A' <= c && c <= 'Z') || ('2' <= c && c <= '7')) {
            return false;
        }
        i = i + 1;
    }
    true
}

/// The name one level up: everything after the first dot, if that is not empty.
pub open spec fn spec_parent_name(s: Seq<char>) -> Option<Seq<char>> {
    if s.contains('.') {
        let d = s.index_of_first('.')->0;
        if d + 1 < s.len() {
            Some(s.subrange(d + 1, s.len() as int))
        } else {
            None
        }
    } else {
        None
    }
}

/// Strips the leftmost label of a name.
pub fn parent_name(name: &String) -> (r: Option<String>)
    ensures
        r is Some == spec_parent_name(name@) is Some,
        r matches Some(p) ==> p@ == spec_parent_name(name@)->0,
{
    proof {
        name@.index_of_first_ensures('.');
    }
    let n = char_len(name);
    let mut i: usize = 0;
    while i < n
        invariant
            n == name@.len(),
            i <= n,
            forall|j: int| 0 <= j < i ==> name@[j] != '.',
        decreases n - i,
    {
        if char_at(name, i) == '.' {
            proof {
                assert(name@.contains('.'));
                name@.index_of_first_ensures('.');
                let d = name@.index_of_first('.')->0;
                assert(name@[d] == '.');
                if d < i {
                    assert(name@[d] != '.');
                }
                if d > i {
                    assert(name@[i as int] == '.');
                }
            }
            if i + 1 < n {
                let p = String::from_str(name.as_str().substring_char(i + 1, n));
                return Some(p);
            } else {
                return None;
            }
        }
        i = i + 1;
    }
    None
}

// ------------------------------------------------------------------
// Upgrades
// ------------------------------------------------------------------

/// Version every contract starts at.
pub const CONTRACT_VERSION: u32 = 1;

/// The announcement of an upgrade (topics "<contract>", "upgraded").
#[derive(Clone, Debug, PartialEq, Eq)]
pub struct ContractUpgraded {
    pub old_version: u32,
    pub new_version: u32,
    pub admin: String,
}

/// The version an upgrade moves to: the big-endian `u32` in the first four bytes
/// of the migration data, or the next version when fewer than four bytes are given.
pub open spec fn spec_target_version(data: Seq<u8>) -> u32 {
    if data.len() < 4 {
        (CONTRACT_VERSION + 1) as u32
    } else {
        (data[0] * 16777216 + data[1] * 65536 + data[2] * 256 + data[3]) as u32
    }
}

/// Reads the target version of an upgrade from its migration data.
pub fn decode_target_version(data: &Vec<u8>) -> (r: u32)
    ensures
        r == spec_target_version(data@),
{
    if data.len() < 4 {
        return CONTRACT_VERSION + 1;
    }
    let b0 = data[0] as u32;
    let b1 = data[1] as u32;
    let b2 = data[2] as u32;
    let b3 = data[3] as u32;
    b0 * 16777216 + b1 * 65536 + b2 * 256 + b3
}

/// A copy of an optional string.
pub fn copy_opt_string(o: &Option<String>) -> (r: Option<String>)
    ensures
        r == *o,
{
    match o {
        Some(s) => Some(s.clone()),
        None => None,
    }
}

// ------------------------------------------------------------------
// Laws
// ------------------------------------------------------------------

/// Longer labels never cost more per year.
pub proof fn law_price_never_increases_with_length(shorter: int, longer: int)
    requires
        shorter <= longer,
    ensures
        spec_price_for_label_length(longer) <= spec_price_for_label_length(shorter),
{
}

/// A term expires no earlier than it starts, and a longer term never expires earlier.
pub proof fn law_expiry_is_monotone(now: u64, years: u64, more_years: u64)
    requires
        years <= more_years,
    ensures
        now <= spec_expiry_from_now(now as int, years as int) <= u64::MAX,
        spec_expiry_from_now(now as int, years as int) <= spec_expiry_from_now(now as int, more_years as int),
{
    assert(0 <= years * SECONDS_PER_YEAR <= more_years * SECONDS_PER_YEAR) by (nonlinear_arith)
        requires
            0 <= years <= more_years,
    ;
}

/// Building a name from a label and extracting the label again gives the label back.
pub proof fn law_build_then_extract_round_trips(label: Seq<char>)
    requires
        valid_label(label),
    ensures
        valid_base_name(label + xlm_suffix()),
        (label + xlm_suffix()).subrange(0, (label + xlm_suffix()).len() - 4) == label,
{
    lemma_label_builds_base_name(label);
    assert((label + xlm_suffix()).subrange(0, (label + xlm_suffix()).len() - 4) =~= label);
}

} // verus!
