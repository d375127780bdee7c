//! Renewal urgency of owned names, as the portfolio renewal check reports it.
use vstd::prelude::*;
use crate::common::{spec_is_active_at, spec_is_claimable_at};
use crate::history::{decimal, decimal_string};
use crate::strmap::same_str;

verus! {

/// Seconds in a day.
pub const SECONDS_PER_DAY: u64 = 86_400;

/// How urgently a name needs attention, most critical first.
#[derive(Clone, Copy, Debug, PartialEq, Eq, PartialOrd, Ord, Hash, Structural)]
pub enum Urgency {
    /// Past its grace period: anyone may claim it.
    Claimable,
    /// Expired but still renewable by its owner.
    GracePeriod,
    /// Active, expiring within the warning window.
    Warning,
    /// Active with time to spare.
    Healthy,
}

/// The urgency of a name at `now`: claimable after the grace period, in the grace period
/// after expiry, a warning when at most `warn_days` days remain, otherwise fine.
pub open spec fn classify_spec(expires_at: int, grace_period_ends_at: int, now: int, warn_days: int) -> Urgency {
    if now > grace_period_ends_at {
        Urgency::Claimable
    } else if now > expires_at {
        Urgency::GracePeriod
    } else if expires_at - now <= warn_days * SECONDS_PER_DAY {
        Urgency::Warning
    } else {
        Urgency::Healthy
    }
}

/// The position of an urgency in the report order.
pub open spec fn rank(u: Urgency) -> int {
    match u {
        Urgency::Claimable => 0,
        Urgency::GracePeriod => 1,
        Urgency::Warning => 2,
        Urgency::Healthy => 3,
    }
}

impl Urgency {
    /// Classifies a name; timestamps are seconds since the epoch within the signed range.
    pub fn classify(expires_at: u64, grace_period_ends_at: u64, now_unix: u64, warn_days: u32) -> (r: Self)
        requires
            expires_at <= i64::MAX,
            now_unix <= i64::MAX,
        ensures
            r == classify_spec(expires_at as int, grace_period_ends_at as int, now_unix as int, warn_days as int),
    {
        if now_unix > grace_period_ends_at {
            Urgency::Claimable
        } else if now_unix > expires_at {
            Urgency::GracePeriod
        } else {
            let warn_seconds = (warn_days as u64) * SECONDS_PER_DAY;
            let remaining = expires_at - now_unix;
            if remaining <= warn_seconds {
                Urgency::Warning
            } else {
                Urgency::Healthy
            }
        }
    }

    /// The machine-readable label.
    pub fn label(&self) -> (r: String)
        ensures
            r@ == match *self {
                Urgency::Claimable => "claimable"@,
                Urgency::GracePeriod => "grace_period"@,
                Urgency::Warning => "warning"@,
                Urgency::Healthy => "ok"@,
            },
    {
        let s = match self {
            Urgency::Claimable => "claimable",
            Urgency::GracePeriod => "grace_period",
            Urgency::Warning => "warning",
            Urgency::Healthy => "ok",
        };
        String::from_str(s)
    }

    /// The tag shown in the human report.
    pub fn human_tag(&self) -> (r: String)
        ensures
            r@ == match *self {
                Urgency::Claimable => "CLAIMABLE"@,
                Urgency::GracePeriod => "GRACE PERIOD"@,
                Urgency::Warning => "WARNING"@,
                Urgency::Healthy => "OK"@,
            },
    {
        let s = match self {
            Urgency::Claimable => "CLAIMABLE",
            Urgency::GracePeriod => "GRACE PERIOD",
            Urgency::Warning => "WARNING",
            Urgency::Healthy => "OK",
        };
        String::from_str(s)
    }

    /// The color of the human report line.
    pub fn color(&self) -> (r: String)
        ensures
            r@ == match *self {
                Urgency::Claimable | Urgency::GracePeriod => "red"@,
                Urgency::Warning => "yellow"@,
                Urgency::Healthy => "green"@,
            },
    {
        let s = match self {
            Urgency::Claimable | Urgency::GracePeriod => "red",
            Urgency::Warning => "yellow",
            Urgency::Healthy => "green",
        };
        String::from_str(s)
    }

    /// Whether an automatic renewal is attempted: only for names that are about to
    /// expire or in their grace period.
    pub fn auto_renew_eligible(&self) -> (r: bool)
        ensures
            r == (*self == Urgency::Warning || *self == Urgency::GracePeriod),
    {
        match self {
            Urgency::Warning | Urgency::GracePeriod => true,
            _ => false,
        }
    }

    /// The position in the report order, most critical first.
    pub fn rank(&self) -> (r: u8)
        ensures
            r == rank(*self),
    {
        match self {
            Urgency::Claimable => 0,
            Urgency::GracePeriod => 1,
            Urgency::Warning => 2,
            Urgency::Healthy => 3,
        }
    }
}

/// Whole days from `now` to `expires_at`, rounded away from zero.
pub open spec fn days_between_spec(now: int, expires_at: int) -> int {
    let diff = expires_at - now;
    if diff >= 0 {
        (diff + SECONDS_PER_DAY - 1) / (SECONDS_PER_DAY as int)
    } else {
        -((-diff + SECONDS_PER_DAY - 1) / (SECONDS_PER_DAY as int))
    }
}

/// Whole days until expiry (negative once expired), rounded away from zero; timestamps
/// are seconds since the epoch within the signed range, and their distance leaves room
/// for the rounding.
pub fn days_between(now_unix: u64, expires_at: u64) -> (r: i64)
    requires
        now_unix <= i64::MAX,
        expires_at <= i64::MAX,
        -(i64::MAX - (SECONDS_PER_DAY - 1)) <= expires_at - now_unix <= i64::MAX - (SECONDS_PER_DAY - 1),
    ensures
        r == days_between_spec(now_unix as int, expires_at as int),
{
    let day: i64 = 86_400;
    let diff = (expires_at as i64) - (now_unix as i64);
    assert(diff == expires_at - now_unix);
    if diff >= 0 {
        (diff + (day - 1)) / day
    } else {
        -((-diff + (day - 1)) / day)
    }
}

// ------------------------------------------------------------------
// Paged portfolio fetch
// ------------------------------------------------------------------

/// How a portfolio is fetched: page size, an optional cap on names, and an optional
/// single 1-based page.
#[derive(Clone, Copy, Debug)]
pub struct PortfolioOptions {
    pub batch_size: usize,
    pub limit: Option<usize>,
    pub page: Option<usize>,
}

/// The next thing the fetch loop does.
#[derive(Clone, Copy, Debug, PartialEq, Eq, Structural)]
pub enum PageStep {
    /// Ask for up to `count` names starting at `cursor`.
    Fetch { cursor: Option<usize>, count: usize },
    /// Stop: everything wanted has been fetched.
    Finished,
}

/// The state of a paged portfolio fetch: the host asks for each page the pager names,
/// reports what came back or that the call timed out, and stops when told to.
pub struct PortfolioPager {
    pub options: PortfolioOptions,
    pub cursor: Option<usize>,
    pub page_size: usize,
    pub fetched: usize,
    pub done: bool,
}

impl PortfolioPager {
    /// How many more names the cap allows, if there is a cap.
    pub open spec fn remaining(&self) -> Option<int> {
        match self.options.limit {
            Some(l) => Some(if l >= self.fetched {
                l - self.fetched
            } else {
                0
            }),
            None => None,
        }
    }

    /// The step the pager asks for.
    pub open spec fn step_spec(&self) -> PageStep {
        if self.done || self.remaining() == Some(0int) {
            PageStep::Finished
        } else {
            PageStep::Fetch {
                cursor: self.cursor,
                count: match self.remaining() {
                    Some(r) => if r < self.page_size {
                        r as usize
                    } else {
                        self.page_size
                    },
                    None => self.page_size,
                },
            }
        }
    }

    /// A fetch that starts at the requested page (or the beginning) with the configured
    /// batch size.
    pub fn new(options: PortfolioOptions) -> (r: Self)
        requires
            options.page matches Some(p) ==> (if p >= 1 {
                p - 1
            } else {
                0
            }) * options.batch_size <= usize::MAX,
        ensures
            r.options == options,
            r.cursor == match options.page {
                Some(p) => Some(
                    ((if p >= 1 {
                        p - 1
                    } else {
                        0
                    }) * options.batch_size) as usize,
                ),
                None => None::<usize>,
            },
            r.page_size == options.batch_size,
            r.fetched == 0,
            !r.done,
    {
        let cursor = match options.page {
            Some(p) => Some(p.saturating_sub(1) * options.batch_size),
            None => None,
        };
        PortfolioPager { options, cursor, page_size: options.batch_size, fetched: 0, done: false }
    }

    /// The next step: stop once done or once the cap is reached, otherwise fetch from the
    /// cursor as many names as the page size and the cap allow.
    pub fn next_step(&self) -> (r: PageStep)
        ensures
            r == self.step_spec(),
    {
        if self.done {
            return PageStep::Finished;
        }
        let remaining = match self.options.limit {
            Some(l) => Some(l.saturating_sub(self.fetched)),
            None => None,
        };
        match remaining {
            Some(0) => PageStep::Finished,
            Some(r) => PageStep::Fetch {
                cursor: self.cursor,
                count: if r < self.page_size {
                    r
                } else {
                    self.page_size
                },
            },
            None => PageStep::Fetch { cursor: self.cursor, count: self.page_size },
        }
    }

    /// A call timed out: halve the page size and retry, unless pages are already of one name.
    pub fn on_timeout(&mut self) -> (retry: bool)
        ensures
            retry == (old(self).page_size > 1),
            retry ==> final(self).page_size == old(self).page_size / 2,
            !retry ==> final(self).page_size == old(self).page_size,
            final(self).cursor == old(self).cursor,
            final(self).fetched == old(self).fetched,
            final(self).done == old(self).done,
            final(self).options == old(self).options,
    {
        if self.page_size > 1 {
            self.page_size = self.page_size / 2;
            true
        } else {
            false
        }
    }

    /// A page of `items` names came back with the given next cursor: count them, and stop
    /// after a single requested page, when the cursor does not move, or when there is no
    /// next page.
    pub fn on_page(&mut self, items: usize, next_cursor: Option<usize>)
        requires
            old(self).fetched + items <= usize::MAX,
        ensures
            final(self).fetched == old(self).fetched + items,
            final(self).done == (old(self).done || old(self).options.page is Some || old(self).cursor
                == next_cursor || next_cursor is None),
            final(self).cursor == if final(self).done && !old(self).done {
                old(self).cursor
            } else if old(self).done {
                old(self).cursor
            } else {
                next_cursor
            },
            final(self).page_size == old(self).page_size,
            final(self).options == old(self).options,
    {
        self.fetched = self.fetched + items;
        if self.done {
            return;
        }
        if self.options.page.is_some() || self.cursor == next_cursor || next_cursor.is_none() {
            self.done = true;
        } else {
            self.cursor = next_cursor;
        }
    }
}

// ------------------------------------------------------------------
// The renewal report
// ------------------------------------------------------------------

/// One row of the renewal report.
pub struct RenewalCheckRecord {
    pub name: String,
    pub owner: String,
    pub status: String,
    pub days_remaining: i64,
    pub expires_at: i64,
    pub grace_period_ends_at: i64,
    pub renewal_cost: Option<u64>,
    pub renewal_currency: Option<String>,
    pub auto_renew_status: Option<String>,
    pub auto_renew_tx_hash: Option<String>,
}

/// Checks that an automatic renewal can be submitted: it needs a registrar contract.
pub fn check_auto_renew_config(auto_renew: bool, has_registrar: bool) -> (r: Result<(), String>)
    ensures
        auto_renew && !has_registrar ==> (r matches Err(m) && m@
            == "`--auto-renew` requires a registrar contract ID. Set `--registrar-contract-id`, the config file value, or the network default."@),
        !(auto_renew && !has_registrar) ==> r is Ok,
{
    if auto_renew && !has_registrar {
        return Err(
            String::from_str(
                "`--auto-renew` requires a registrar contract ID. Set `--registrar-contract-id`, the config file value, or the network default.",
            ),
        );
    }
    Ok(())
}

/// Whether a renewal cost is estimated: only with a registrar, and never for a name that
/// is already claimable.
pub fn wants_renewal_cost(has_registrar: bool, urgency: Urgency) -> (r: bool)
    ensures
        r == (has_registrar && urgency != Urgency::Claimable),
{
    has_registrar && urgency != Urgency::Claimable
}

/// What the automatic renewal does for one name.
#[derive(Clone, Copy, Debug, PartialEq, Eq, Structural)]
pub enum AutoRenewAction {
    /// Nothing.
    Skip,
    /// Simulate the renewal only.
    Simulate,
    /// Submit the renewal.
    Submit,
}

/// The automatic renewal of one name: only when requested and the name is eligible;
/// simulated in a dry run, submitted otherwise.
pub fn auto_renew_action(auto_renew: bool, urgency: Urgency, dry_run: bool) -> (r: AutoRenewAction)
    ensures
        r == if auto_renew && (urgency == Urgency::Warning || urgency == Urgency::GracePeriod) {
            if dry_run {
                AutoRenewAction::Simulate
            } else {
                AutoRenewAction::Submit
            }
        } else {
            AutoRenewAction::Skip
        },
{
    if auto_renew && urgency.auto_renew_eligible() {
        if dry_run {
            AutoRenewAction::Simulate
        } else {
            AutoRenewAction::Submit
        }
    } else {
        AutoRenewAction::Skip
    }
}

/// The machine-readable label of an urgency.
pub open spec fn label_text(u: Urgency) -> Seq<char> {
    match u {
        Urgency::Claimable => "claimable"@,
        Urgency::GracePeriod => "grace_period"@,
        Urgency::Warning => "warning"@,
        Urgency::Healthy => "ok"@,
    }
}

/// A name of the portfolio with the expiry the registry reports for it.
pub struct NameExpiry {
    pub name: String,
    pub owner: String,
    pub expires_at: u64,
    pub grace_period_ends_at: u64,
}

/// What an automatic renewal attempt came back with.
pub enum AutoRenewOutcome {
    /// A dry run simulated the renewal with this fee estimate.
    Simulated { fee_estimate: u64 },
    /// A dry run could not simulate the renewal.
    SimulationFailed { error: String },
    /// The renewal was submitted; the submission's status and transaction hash.
    Submitted { status: String, tx_hash: String },
    /// The renewal could not be submitted.
    SubmitFailed { error: String },
}

/// The auto-renew status a report row shows for an attempt.
pub open spec fn auto_status_text(o: AutoRenewOutcome) -> Seq<char> {
    match o {
        AutoRenewOutcome::Simulated { fee_estimate } => "dry-run: would renew, estimated fee "@ + decimal(
            fee_estimate as nat,
        ) + " XLM"@,
        AutoRenewOutcome::SimulationFailed { error } => "dry-run simulation failed: "@ + error@,
        AutoRenewOutcome::Submitted { status, .. } => status@,
        AutoRenewOutcome::SubmitFailed { error } => "failed: "@ + error@,
    }
}

/// The transaction hash a report row shows for an attempt: only a submitted one has it.
pub open spec fn auto_tx_hash(o: AutoRenewOutcome) -> Option<Seq<char>> {
    match o {
        AutoRenewOutcome::Submitted { tx_hash, .. } => Some(tx_hash@),
        _ => None,
    }
}

/// Whether a name's timestamps fit the report's signed arithmetic.
pub open spec fn row_fits(e: NameExpiry, now: u64) -> bool {
    &&& e.expires_at <= i64::MAX
    &&& now <= i64::MAX
    &&& -(i64::MAX - (SECONDS_PER_DAY - 1)) <= e.expires_at - now <= i64::MAX - (SECONDS_PER_DAY - 1)
}

/// Whether `row` is the report row of the name `e` at `now`: its urgency and status
/// label, days left, expiry and grace end; the renewal cost given (none for a claimable
/// name), priced in XLM; and the automatic renewal attempt given, shown only for a name
/// eligible for one.
pub open spec fn row_is(
    row: (Urgency, RenewalCheckRecord),
    e: NameExpiry,
    now: u64,
    warn_days: u32,
    renewal_cost: Option<u64>,
    auto_renew: Option<AutoRenewOutcome>,
) -> bool {
    let u = classify_spec(e.expires_at as int, e.grace_period_ends_at as int, now as int, warn_days as int);
    let rec = row.1;
    &&& row.0 == u
    &&& rec.name@ == e.name@
    &&& rec.owner@ == e.owner@
    &&& rec.status@ == label_text(u)
    &&& rec.days_remaining == days_between_spec(now as int, e.expires_at as int)
    &&& rec.expires_at == e.expires_at as i64
    &&& rec.grace_period_ends_at == e.grace_period_ends_at as i64
    &&& rec.renewal_cost == (if u == Urgency::Claimable {
        None
    } else {
        renewal_cost
    })
    &&& (match rec.renewal_currency {
        Some(c) => rec.renewal_cost is Some && c@ == "XLM"@,
        None => rec.renewal_cost is None,
    })
    &&& (match auto_renew {
        Some(o) => if u == Urgency::Warning || u == Urgency::GracePeriod {
            &&& (rec.auto_renew_status matches Some(st) && st@ == auto_status_text(o))
            &&& (match rec.auto_renew_tx_hash {
                Some(h) => auto_tx_hash(o) == Some(h@),
                None => auto_tx_hash(o) is None,
            })
        } else {
            rec.auto_renew_status is None && rec.auto_renew_tx_hash is None
        },
        None => rec.auto_renew_status is None && rec.auto_renew_tx_hash is None,
    })
}

fn copy_string(s: &String) -> (r: String)
    ensures
        r@ == s@,
{
    let mut r = String::new();
    r.append(s.as_str());
    r
}

/// The auto-renew status and transaction hash a row shows for an attempt.
pub fn auto_renew_texts(o: &AutoRenewOutcome) -> (r: (String, Option<String>))
    ensures
        r.0@ == auto_status_text(*o),
        match r.1 {
            Some(h) => auto_tx_hash(*o) == Some(h@),
            None => auto_tx_hash(*o) is None,
        },
{
    match o {
        AutoRenewOutcome::Simulated { fee_estimate } => {
            let mut s = String::from_str("dry-run: would renew, estimated fee ");
            append_str(&mut s, decimal_string(*fee_estimate).as_str());
            append_str(&mut s, " XLM");
            (s, None)
        },
        AutoRenewOutcome::SimulationFailed { error } => {
            let mut s = String::from_str("dry-run simulation failed: ");
            append_str(&mut s, error.as_str());
            (s, None)
        },
        AutoRenewOutcome::Submitted { status, tx_hash } => (copy_string(status), Some(copy_string(tx_hash))),
        AutoRenewOutcome::SubmitFailed { error } => {
            let mut s = String::from_str("failed: ");
            append_str(&mut s, error.as_str());
            (s, None)
        },
    }
}

/// The report row of one name: its urgency at `now`, days left, the renewal cost that
/// was estimated for it (dropped for a claimable name) and the automatic renewal attempt
/// made for it (shown only for a name eligible for one).
pub fn report_row(
    entry: &NameExpiry,
    now_unix: u64,
    warn_days: u32,
    renewal_cost: Option<u64>,
    auto_renew: &Option<AutoRenewOutcome>,
) -> (r: (Urgency, RenewalCheckRecord))
    requires
        row_fits(*entry, now_unix),
    ensures
        row_is(r, *entry, now_unix, warn_days, renewal_cost, *auto_renew),
{
    let urgency = Urgency::classify(entry.expires_at, entry.grace_period_ends_at, now_unix, warn_days);
    let days_remaining = days_between(now_unix, entry.expires_at);
    let cost = if urgency == Urgency::Claimable {
        None
    } else {
        renewal_cost
    };
    let currency = match cost {
        Some(_) => Some(String::from_str("XLM")),
        None => None,
    };
    let (auto_renew_status, auto_renew_tx_hash) = match auto_renew {
        Some(o) => if urgency.auto_renew_eligible() {
            let (st, h) = auto_renew_texts(o);
            (Some(st), h)
        } else {
            (None, None)
        },
        None => (None, None),
    };
    let record = RenewalCheckRecord {
        name: copy_string(&entry.name),
        owner: copy_string(&entry.owner),
        status: urgency.label(),
        days_remaining,
        expires_at: entry.expires_at as i64,
        grace_period_ends_at: entry.grace_period_ends_at as i64,
        renewal_cost: cost,
        renewal_currency: currency,
        auto_renew_status,
        auto_renew_tx_hash,
    };
    (urgency, record)
}

/// One report row per name, in the order given, with the renewal cost and automatic
/// renewal attempt reported for each.
pub fn report_rows(
    entries: &Vec<NameExpiry>,
    now_unix: u64,
    warn_days: u32,
    costs: &Vec<Option<u64>>,
    attempts: &Vec<Option<AutoRenewOutcome>>,
) -> (r: Vec<(Urgency, RenewalCheckRecord)>)
    requires
        costs@.len() == entries@.len(),
        attempts@.len() == entries@.len(),
        forall|i: int| 0 <= i < entries@.len() ==> row_fits(#[trigger] entries@[i], now_unix),
    ensures
        r@.len() == entries@.len(),
        forall|i: int|
            0 <= i < entries@.len() ==> row_is(#[trigger] r@[i], entries@[i], now_unix, warn_days, costs@[i], attempts@[i]),
{
    let mut rows: Vec<(Urgency, RenewalCheckRecord)> = Vec::new();
    let mut i: usize = 0;
    while i < entries.len()
        invariant
            i <= entries@.len(),
            costs@.len() == entries@.len(),
            attempts@.len() == entries@.len(),
            forall|j: int| 0 <= j < entries@.len() ==> row_fits(#[trigger] entries@[j], now_unix),
            rows@.len() == i,
            forall|j: int|
                0 <= j < i ==> row_is(#[trigger] rows@[j], entries@[j], now_unix, warn_days, costs@[j], attempts@[j]),
        decreases entries@.len() - i,
    {
        let row = report_row(&entries[i], now_unix, warn_days, costs[i], &attempts[i]);
        rows.push(row);
        i = i + 1;
    }
    rows
}

/// The human report when the owner has no names.
pub fn no_names_text(owner: &str) -> (r: String)
    ensures
        r@ == "Renewal check for "@ + owner@ + ":\n  [no names found]"@,
{
    let mut s = String::from_str("Renewal check for ");
    append_str(&mut s, owner);
    append_str(&mut s, ":\n  [no names found]");
    s
}

/// The first line of the human report.
pub fn report_header(owner: &str, warn_days: u32) -> (r: String)
    ensures
        r@ == "Renewal check for "@ + owner@ + " (warn threshold: "@ + decimal(warn_days as nat)
            + " day(s)):"@,
{
    let mut s = String::from_str("Renewal check for ");
    append_str(&mut s, owner);
    append_str(&mut s, " (warn threshold: ");
    append_str(&mut s, decimal_string(warn_days as u64).as_str());
    append_str(&mut s, " day(s)):");
    s
}

fn append_str(s: &mut String, t: &str)
    ensures
        final(s)@ == old(s)@ + t@,
{
    s.append(t);
}

/// The tag and color of a report row, by its status label.
pub open spec fn tag_and_color(status: Seq<char>) -> (Seq<char>, Seq<char>) {
    if status == "claimable"@ {
        ("CLAIMABLE"@, "red"@)
    } else if status == "grace_period"@ {
        ("GRACE PERIOD"@, "red"@)
    } else if status == "warning"@ {
        ("WARNING"@, "yellow"@)
    } else {
        ("OK"@, "green"@)
    }
}

/// How long until, or since, a row's name expires, as a report shows it.
pub open spec fn report_timing(days_remaining: i64) -> Seq<char> {
    if days_remaining >= 0 {
        "expires in "@ + decimal(days_remaining as nat) + " day(s)"@
    } else {
        "expired "@ + decimal((-days_remaining) as nat) + " day(s) ago"@
    }
}

/// A row's renewal cost, as a report shows it (nothing when no cost was asked for).
pub open spec fn report_cost(r: RenewalCheckRecord) -> Seq<char> {
    match r.renewal_cost {
        Some(c) => ", renewal cost: "@ + decimal(c as nat) + " "@ + match r.renewal_currency {
            Some(cur) => cur@,
            None => "XLM"@,
        },
        None => Seq::empty(),
    }
}

/// A row's automatic renewal outcome, as a report shows it (nothing when none was tried).
pub open spec fn report_auto(r: RenewalCheckRecord) -> Seq<char> {
    match r.auto_renew_status {
        Some(st) => " | auto-renew: "@ + st@ + match r.auto_renew_tx_hash {
            Some(h) => " ("@ + h@ + ")"@,
            None => Seq::empty(),
        },
        None => Seq::empty(),
    }
}

/// The text of a report row.
pub open spec fn report_line_spec(r: RenewalCheckRecord) -> Seq<char> {
    "  ["@ + tag_and_color(r.status@).0 + "] "@ + r.name@ + " - "@ + report_timing(r.days_remaining)
        + report_cost(r) + report_auto(r)
}

/// The tag and color of a report row.
pub fn tag_and_color_of(status: &String) -> (r: (String, String))
    ensures
        r.0@ == tag_and_color(status@).0,
        r.1@ == tag_and_color(status@).1,
{
    if same_str(status, &String::from_str("claimable")) {
        (String::from_str("CLAIMABLE"), String::from_str("red"))
    } else if same_str(status, &String::from_str("grace_period")) {
        (String::from_str("GRACE PERIOD"), String::from_str("red"))
    } else if same_str(status, &String::from_str("warning")) {
        (String::from_str("WARNING"), String::from_str("yellow"))
    } else {
        (String::from_str("OK"), String::from_str("green"))
    }
}

fn append_timing(line: &mut String, days_remaining: i64)
    requires
        days_remaining > i64::MIN,
    ensures
        final(line)@ == old(line)@ + report_timing(days_remaining),
{
    if days_remaining >= 0 {
        append_str(line, "expires in ");
        append_str(line, decimal_string(days_remaining as u64).as_str());
        append_str(line, " day(s)");
    } else {
        append_str(line, "expired ");
        append_str(line, decimal_string((-days_remaining) as u64).as_str());
        append_str(line, " day(s) ago");
    }
    proof {
        assert(line@ =~= old(line)@ + report_timing(days_remaining));
    }
}

fn append_cost(line: &mut String, r: &RenewalCheckRecord)
    ensures
        final(line)@ == old(line)@ + report_cost(*r),
{
    match r.renewal_cost {
        Some(c) => {
            append_str(line, ", renewal cost: ");
            append_str(line, decimal_string(c).as_str());
            append_str(line, " ");
            match &r.renewal_currency {
                Some(cur) => append_str(line, cur.as_str()),
                None => append_str(line, "XLM"),
            }
        },
        None => {},
    }
    proof {
        assert(line@ =~= old(line)@ + report_cost(*r));
    }
}

fn append_auto(line: &mut String, r: &RenewalCheckRecord)
    ensures
        final(line)@ == old(line)@ + report_auto(*r),
{
    match &r.auto_renew_status {
        Some(st) => {
            append_str(line, " | auto-renew: ");
            append_str(line, st.as_str());
            match &r.auto_renew_tx_hash {
                Some(h) => {
                    append_str(line, " (");
                    append_str(line, h.as_str());
                    append_str(line, ")");
                },
                None => {},
            }
        },
        None => {},
    }
    proof {
        assert(line@ =~= old(line)@ + report_auto(*r));
    }
}

/// The text of a report row and the color it is printed in.
pub fn report_line(r: &RenewalCheckRecord) -> (out: (String, String))
    requires
        r.days_remaining > i64::MIN,
    ensures
        out.0@ == report_line_spec(*r),
        out.1@ == tag_and_color(r.status@).1,
{
    let (tag, color) = tag_and_color_of(&r.status);
    let mut line = String::from_str("  [");
    append_str(&mut line, tag.as_str());
    append_str(&mut line, "] ");
    append_str(&mut line, r.name.as_str());
    append_str(&mut line, " - ");
    append_timing(&mut line, r.days_remaining);
    append_cost(&mut line, r);
    append_auto(&mut line, r);
    proof {
        assert(line@ =~= report_line_spec(*r));
    }
    (line, color)
}

/// How many rows carry a status tag, by the report's four groups.
pub open spec fn count_group(rows: Seq<RenewalCheckRecord>, tag: Seq<char>) -> nat
    decreases rows.len(),
{
    if rows.len() == 0 {
        0
    } else {
        count_group(rows.drop_last(), tag) + if tag_and_color(rows.last().status@).0 == tag {
            1nat
        } else {
            0nat
        }
    }
}

/// Counts of the report's groups: claimable, grace period, warning and fine.
pub fn summary_counts(rows: &Vec<RenewalCheckRecord>) -> (r: (usize, usize, usize, usize))
    ensures
        r.0 == count_group(rows@, "CLAIMABLE"@),
        r.1 == count_group(rows@, "GRACE PERIOD"@),
        r.2 == count_group(rows@, "WARNING"@),
        r.3 == count_group(rows@, "OK"@),
{
    let mut c: usize = 0;
    let mut g: usize = 0;
    let mut w: usize = 0;
    let mut o: usize = 0;
    let mut i: usize = 0;
    proof {
        reveal_strlit("CLAIMABLE");
        reveal_strlit("GRACE PERIOD");
        reveal_strlit("WARNING");
        reveal_strlit("OK");
        assert("CLAIMABLE"@.len() == 9);
        assert("GRACE PERIOD"@.len() == 12);
        assert("WARNING"@.len() == 7);
        assert("OK"@.len() == 2);
    }
    while i < rows.len()
        invariant
            i <= rows@.len(),
            c == count_group(rows@.take(i as int), "CLAIMABLE"@),
            g == count_group(rows@.take(i as int), "GRACE PERIOD"@),
            w == count_group(rows@.take(i as int), "WARNING"@),
            o == count_group(rows@.take(i as int), "OK"@),
            c + g + w + o == i,
            "CLAIMABLE"@ != "GRACE PERIOD"@,
            "CLAIMABLE"@ != "WARNING"@,
            "CLAIMABLE"@ != "OK"@,
            "GRACE PERIOD"@ != "WARNING"@,
            "GRACE PERIOD"@ != "OK"@,
            "WARNING"@ != "OK"@,
        decreases rows@.len() - i,
    {
        proof {
            assert(rows@.take(i + 1).drop_last() =~= rows@.take(i as int));
            assert(rows@.take(i + 1).last() == rows@[i as int]);
        }
        let (tag, _) = tag_and_color_of(&rows[i].status);
        if same_str(&tag, &String::from_str("CLAIMABLE")) {
            c = c + 1;
        } else if same_str(&tag, &String::from_str("GRACE PERIOD")) {
            g = g + 1;
        } else if same_str(&tag, &String::from_str("WARNING")) {
            w = w + 1;
        } else {
            o = o + 1;
        }
        i = i + 1;
    }
    proof {
        assert(rows@.take(rows@.len() as int) =~= rows@);
    }
    (c, g, w, o)
}

/// The closing line of the human report: how many rows fall in each group.
pub fn report_summary(rows: &Vec<RenewalCheckRecord>) -> (r: String)
    ensures
        r@ == "\nSummary: "@ + decimal(count_group(rows@, "CLAIMABLE"@)) + " claimable, "@ + decimal(
            count_group(rows@, "GRACE PERIOD"@),
        ) + " grace period, "@ + decimal(count_group(rows@, "WARNING"@)) + " warning, "@ + decimal(
            count_group(rows@, "OK"@),
        ) + " ok"@,
{
    let (c, g, w, o) = summary_counts(rows);
    let mut s = String::from_str("\nSummary: ");
    append_str(&mut s, decimal_string(c as u64).as_str());
    append_str(&mut s, " claimable, ");
    append_str(&mut s, decimal_string(g as u64).as_str());
    append_str(&mut s, " grace period, ");
    append_str(&mut s, decimal_string(w as u64).as_str());
    append_str(&mut s, " warning, ");
    append_str(&mut s, decimal_string(o as u64).as_str());
    append_str(&mut s, " ok");
    s
}

/// Whether a row comes no later than another in the report: by urgency, then by days left.
pub open spec fn ranks_before(a: (Urgency, RenewalCheckRecord), b: (Urgency, RenewalCheckRecord)) -> bool {
    rank(a.0) < rank(b.0) || (rank(a.0) == rank(b.0) && a.1.days_remaining <= b.1.days_remaining)
}

/// Whether rows are in report order.
pub open spec fn in_report_order(s: Seq<(Urgency, RenewalCheckRecord)>) -> bool {
    forall|i: int, j: int| 0 <= i < j < s.len() ==> ranks_before(#[trigger] s[i], #[trigger] s[j])
}

fn ranks_before_exec(a: &(Urgency, RenewalCheckRecord), b: &(Urgency, RenewalCheckRecord)) -> (r: bool)
    ensures
        r == ranks_before(*a, *b),
{
    let ra = a.0.rank();
    let rb = b.0.rank();
    ra < rb || (ra == rb && a.1.days_remaining <= b.1.days_remaining)
}

/// Whether a row ranks exactly like the given urgency and days left.
pub open spec fn alike(u: Urgency, d: i64) -> spec_fn((Urgency, RenewalCheckRecord)) -> bool {
    |y: (Urgency, RenewalCheckRecord)| y.0 == u && y.1.days_remaining == d
}

proof fn lemma_insert_keeps_alike(
    before: Seq<(Urgency, RenewalCheckRecord)>,
    p: int,
    item: (Urgency, RenewalCheckRecord),
    u: Urgency,
    d: i64,
)
    requires
        0 <= p <= before.len(),
        forall|j: int| p <= j < before.len() ==> !ranks_before(#[trigger] before[j], item),
    ensures
        before.insert(p, item).filter(alike(u, d)) == if alike(u, d)(item) {
            before.filter(alike(u, d)).push(item)
        } else {
            before.filter(alike(u, d))
        },
{
    let pred = alike(u, d);
    let head = before.take(p);
    let tail = before.skip(p);
    assert(before.insert(p, item) =~= (head + seq![item]) + tail);
    assert(before =~= head + tail);
    Seq::filter_distributes_over_add(head + seq![item], tail, pred);
    Seq::filter_distributes_over_add(head, seq![item], pred);
    Seq::filter_distributes_over_add(head, tail, pred);
    assert(seq![item] =~= Seq::<(Urgency, RenewalCheckRecord)>::empty().push(item));
    Seq::<(Urgency, RenewalCheckRecord)>::empty().lemma_filter_push(item, pred);
    assert(Seq::<(Urgency, RenewalCheckRecord)>::empty().filter(pred) =~= Seq::empty()) by {
        reveal(Seq::filter);
    }
    if pred(item) {
        assert forall|i: int| 0 <= i < tail.len() implies !pred(#[trigger] tail[i]) by {
            assert(tail[i] == before[p + i]);
            assert(!ranks_before(before[p + i], item));
        }
        assert(tail.all(|x: (Urgency, RenewalCheckRecord)| !pred(x)));
        tail.lemma_all_neg_filter_empty(pred);
        assert(tail.filter(pred) =~= Seq::empty());
        assert(head.filter(pred) + seq![item] + tail.filter(pred) =~= (head.filter(pred) + tail.filter(
            pred,
        )).push(item));
    } else {
        assert(head.filter(pred) + Seq::empty() =~= head.filter(pred));
    }
}

proof fn lemma_insert_multiset<A>(s: Seq<A>, i: int, x: A)
    requires
        0 <= i <= s.len(),
    ensures
        s.insert(i, x).to_multiset() =~= s.to_multiset().insert(x),
{
    broadcast use vstd::seq_lib::group_to_multiset_ensures;

    let t = s.insert(i, x);
    assert(t.remove(i) =~= s);
    assert(t[i] == x);
    assert(t.to_multiset().count(x) > 0) by {
        assert(t.contains(x));
    }
}

/// Puts the rows in report order: most urgent first, then fewest days left; rows that
/// rank equally keep their order.
pub fn order_report(rows: Vec<(Urgency, RenewalCheckRecord)>) -> (r: Vec<(Urgency, RenewalCheckRecord)>)
    ensures
        in_report_order(r@),
        r@.to_multiset() == rows@.to_multiset(),
        r@.len() == rows@.len(),
        forall|u: Urgency, d: i64| #[trigger] r@.filter(alike(u, d)) == rows@.filter(alike(u, d)),
{
    broadcast use vstd::seq_lib::group_to_multiset_ensures;

    let mut out: Vec<(Urgency, RenewalCheckRecord)> = Vec::new();
    let mut pending = rows;
    let ghost orig = pending@;
    let ghost mut consumed: Seq<(Urgency, RenewalCheckRecord)> = Seq::empty();
    let mut rest: Vec<(Urgency, RenewalCheckRecord)> = Vec::new();
    proof {
        assert(orig =~= pending@ + rest@.reverse());
    }
    while pending.len() > 0
        invariant
            orig =~= pending@ + rest@.reverse(),
        decreases pending@.len(),
    {
        let ghost p0 = pending@;
        let ghost r0 = rest@;
        let item = pending.pop().unwrap();
        rest.push(item);
        proof {
            assert(p0 =~= pending@.push(item));
            assert(rest@.reverse() =~= seq![item] + r0.reverse());
            assert(orig =~= pending@ + rest@.reverse());
        }
    }
    proof {
        assert(pending@ =~= Seq::<(Urgency, RenewalCheckRecord)>::empty());
        assert(orig =~= rest@.reverse());
        assert(orig.len() == rest@.len());
        assert(orig =~= consumed + rest@.reverse());
        assert forall|u: Urgency, d: i64| #[trigger] out@.filter(alike(u, d)) == consumed.filter(
            alike(u, d),
        ) by {
            reveal(Seq::filter);
        }
    }
    while rest.len() > 0
        invariant
            in_report_order(out@),
            rest@.len() + out@.len() == orig.len(),
            orig =~= consumed + rest@.reverse(),
            out@.to_multiset() == consumed.to_multiset(),
            forall|u: Urgency, d: i64| #[trigger] out@.filter(alike(u, d)) == consumed.filter(alike(u, d)),
        decreases rest@.len(),
    {
        let ghost rest0 = rest@;
        let item = rest.pop().unwrap();
        proof {
            assert(rest0 =~= rest@.push(item));
            assert(rest0.reverse() =~= seq![item] + rest@.reverse());
            assert(orig =~= consumed.push(item) + rest@.reverse());
        }
        let mut pos: usize = out.len();
        while pos > 0 && !ranks_before_exec(&out[pos - 1], &item)
            invariant
                pos <= out@.len(),
                in_report_order(out@),
                forall|k: int| pos <= k < out@.len() ==> !ranks_before(#[trigger] out@[k], item),
            decreases pos,
        {
            pos = pos - 1;
        }
        let ghost before = out@;
        proof {
            lemma_insert_multiset(before, pos as int, item);
        }
        out.insert(pos, item);
        proof {
            assert(out@ =~= before.insert(pos as int, item));
            assert forall|i: int, j: int| 0 <= i < j < out@.len() implies ranks_before(
                #[trigger] out@[i],
                #[trigger] out@[j],
            ) by {
                let p = pos as int;
                if i < p && j < p {
                    assert(out@[i] == before[i] && out@[j] == before[j]);
                } else if i < p && j == p {
                    assert(out@[i] == before[i]);
                    assert(ranks_before(before[p - 1], item));
                    if i < p - 1 {
                        assert(ranks_before(before[i], before[p - 1]));
                    }
                } else if i < p && j > p {
                    assert(out@[i] == before[i] && out@[j] == before[j - 1]);
                } else if i == p && j > p {
                    assert(out@[j] == before[j - 1]);
                    assert(!ranks_before(before[j - 1], item));
                } else {
                    assert(out@[i] == before[i - 1] && out@[j] == before[j - 1]);
                }
            }
            lemma_insert_multiset(consumed, consumed.len() as int, item);
            assert(consumed.insert(consumed.len() as int, item) =~= consumed.push(item));
            assert forall|u: Urgency, d: i64| #[trigger] out@.filter(alike(u, d)) == consumed.push(
                item,
            ).filter(alike(u, d)) by {
                lemma_insert_keeps_alike(before, pos as int, item, u, d);
                consumed.lemma_filter_push(item, alike(u, d));
            }
            consumed = consumed.push(item);
        }
    }
    proof {
        assert(rest@.reverse() =~= Seq::<(Urgency, RenewalCheckRecord)>::empty());
        assert(orig =~= consumed);
    }
    out
}

// ------------------------------------------------------------------
// Laws
// ------------------------------------------------------------------

/// Urgency follows the registry's lifecycle: a name is claimable exactly when the
/// registry deems it claimable, it is a warning or fine exactly while it is active and
/// not claimable, and an automatic renewal is never attempted for a claimable name.
pub proof fn law_classify_follows_lifecycle(expires_at: int, grace_period_ends_at: int, now: int, warn_days: int)
    ensures
        (classify_spec(expires_at, grace_period_ends_at, now, warn_days) == Urgency::Claimable)
            == spec_is_claimable_at(grace_period_ends_at, now),
        (classify_spec(expires_at, grace_period_ends_at, now, warn_days) == Urgency::Warning
            || classify_spec(expires_at, grace_period_ends_at, now, warn_days) == Urgency::Healthy) == (
        !spec_is_claimable_at(grace_period_ends_at, now) && spec_is_active_at(expires_at, now)),
        (classify_spec(expires_at, grace_period_ends_at, now, warn_days) == Urgency::Warning
            || classify_spec(expires_at, grace_period_ends_at, now, warn_days) == Urgency::GracePeriod)
            ==> !spec_is_claimable_at(grace_period_ends_at, now),
{
}

/// Days are rounded away from zero: the count is negative exactly after expiry, and it
/// is the least number of whole days covering the distance to expiry.
pub proof fn law_days_between_rounds_away_from_zero(now: int, expires_at: int)
    ensures
        days_between_spec(now, expires_at) >= 0 <==> expires_at >= now,
        expires_at >= now ==> days_between_spec(now, expires_at) * 86_400 >= expires_at - now
            && (days_between_spec(now, expires_at) - 1) * 86_400 < expires_at - now,
        expires_at < now ==> -days_between_spec(now, expires_at) * 86_400 >= now - expires_at && (
        -days_between_spec(now, expires_at) - 1) * 86_400 < now - expires_at,
{
    let d = expires_at - now;
    if d >= 0 {
        let q = (d + 86_399) / 86_400;
        assert(q * 86_400 >= d && (q - 1) * 86_400 < d && q >= 0) by (nonlinear_arith)
            requires
                d >= 0,
                q == (d + 86_399) / 86_400,
        ;
    } else {
        let q = (-d + 86_399) / 86_400;
        assert(q * 86_400 >= -d && (q - 1) * 86_400 < -d && q >= 1) by (nonlinear_arith)
            requires
                d < 0,
                q == (-d + 86_399) / 86_400,
        ;
    }
}

/// A name is claimable once its grace period has ended and in its grace period after
/// expiry; while it is active, it is a warning exactly when at most `warn_days` whole
/// days of 86,400 seconds are left, and fine otherwise.
pub proof fn law_classify_warns_within_window(expires_at: u64, grace_period_ends_at: u64, now_unix: u64, warn_days: u32)
    ensures
        ({
            let u = classify_spec(expires_at as int, grace_period_ends_at as int, now_unix as int, warn_days as int);
            &&& now_unix > grace_period_ends_at ==> u == Urgency::Claimable
            &&& now_unix <= grace_period_ends_at && now_unix > expires_at ==> u == Urgency::GracePeriod
            &&& now_unix <= grace_period_ends_at && now_unix <= expires_at ==> (u == Urgency::Warning
                <==> expires_at - now_unix <= warn_days * 86_400)
            &&& now_unix <= grace_period_ends_at && now_unix <= expires_at ==> (u == Urgency::Healthy
                <==> expires_at - now_unix > warn_days * 86_400)
        }),
{
}

} // verus!
