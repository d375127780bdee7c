//! Sealed second-price (Vickrey) auctions of names.
//!
//! Bids are escrowed in the auction's asset: a bid is recorded here once the host has
//! moved `amount` from the bidder to the contract, and after settlement the host makes
//! the transfers listed by `payouts` (the winner's overpayment back to the winner, the
//! clearing price to the treasury, every other bid back to its bidder). A call that
//! fails leaves the contract unchanged.
use vstd::prelude::*;
use crate::common::{
    ContractUpgraded, decode_target_version, is_time_window_open, sat_sub, spec_target_version, valid_fqdn,
    validate_fqdn, CONTRACT_VERSION,
};
use crate::strmap::{copy_strings, strs, StrMap};

verus! {

/// Most names an unpaged discovery query returns.
pub const MAX_AUCTION_RESULTS: usize = 100;

/// Most names one page returns.
pub const MAX_PAGE_SIZE: u32 = 100;

/// One bid.
pub struct Bid {
    pub bidder: String,
    pub amount: u64,
    pub placed_at: u64,
}

impl Bid {
    /// A field-by-field copy.
    pub fn copy(&self) -> (r: Self)
        ensures
            r == *self,
    {
        Bid { bidder: self.bidder.clone(), amount: self.amount, placed_at: self.placed_at }
    }
}

/// The outcome of a settled auction.
pub struct Settlement {
    pub winner: Option<String>,
    pub clearing_price: u64,
    pub winning_bid: u64,
    pub settled_at: u64,
    pub sold: bool,
}

impl Settlement {
    /// A field-by-field copy.
    pub fn copy(&self) -> (r: Self)
        ensures
            r == *self,
    {
        Settlement {
            winner: match &self.winner {
                Some(w) => Some(w.clone()),
                None => None,
            },
            clearing_price: self.clearing_price,
            winning_bid: self.winning_bid,
            settled_at: self.settled_at,
            sold: self.sold,
        }
    }
}

/// An auction.
pub struct Auction {
    pub name: String,
    pub reserve_price: u64,
    pub starts_at: u64,
    pub ends_at: u64,
    pub bids: Vec<Bid>,
    pub asset: String,
    pub treasury: String,
}

/// An auction as mathematical values.
pub struct AuctionData {
    pub name: Seq<char>,
    pub reserve_price: u64,
    pub starts_at: u64,
    pub ends_at: u64,
    pub bids: Seq<Bid>,
    pub asset: Seq<char>,
    pub treasury: Seq<char>,
}

impl Auction {
    /// The auction as mathematical values.
    pub open spec fn data(&self) -> AuctionData {
        AuctionData {
            name: self.name@,
            reserve_price: self.reserve_price,
            starts_at: self.starts_at,
            ends_at: self.ends_at,
            bids: self.bids@,
            asset: self.asset@,
            treasury: self.treasury@,
        }
    }

    /// A copy.
    pub fn copy(&self) -> (r: Self)
        ensures
            r.data() == self.data(),
    {
        let mut bids: Vec<Bid> = Vec::new();
        let mut i: usize = 0;
        while i < self.bids.len()
            invariant
                i <= self.bids@.len(),
                bids@ == self.bids@.take(i as int),
            decreases self.bids@.len() - i,
        {
            bids.push(self.bids[i].copy());
            proof {
                assert(self.bids@.take(i + 1) =~= self.bids@.take(i as int).push(self.bids@[i as int]));
            }
            i = i + 1;
        }
        proof {
            assert(self.bids@.take(self.bids@.len() as int) =~= self.bids@);
        }
        Auction {
            name: self.name.clone(),
            reserve_price: self.reserve_price,
            starts_at: self.starts_at,
            ends_at: self.ends_at,
            bids,
            asset: self.asset.clone(),
            treasury: self.treasury.clone(),
        }
    }
}

/// A transfer the host makes out of escrow after settlement.
#[derive(Debug)]
pub struct Transfer {
    pub to: String,
    pub amount: u64,
}

/// Errors of the auction contract.
#[derive(Clone, Copy, Debug, PartialEq, Eq, Structural)]
pub enum AuctionError {
    Validation,
    AlreadyExists,
    NotFound,
    AuctionClosed,
    AuctionNotStarted,
    AuctionNotEnded,
    AlreadySettled,
    InvalidBid,
    UpgradeFailed,
}

// ------------------------------------------------------------------
// Vickrey settlement
// ------------------------------------------------------------------

/// The amounts of a sequence of bids.
pub open spec fn amounts(bids: Seq<Bid>) -> Seq<u64> {
    bids.map_values(|b: Bid| b.amount)
}

/// The largest value, or zero for an empty sequence.
pub open spec fn max_of(s: Seq<u64>) -> u64
    decreases s.len(),
{
    if s.len() == 0 {
        0
    } else if s.last() > max_of(s.drop_last()) {
        s.last()
    } else {
        max_of(s.drop_last())
    }
}

/// Whether `w` is the first position of a largest value.
pub open spec fn is_first_max(s: Seq<u64>, w: int) -> bool {
    &&& 0 <= w < s.len()
    &&& forall|j: int| 0 <= j < s.len() ==> #[trigger] s[j] <= s[w]
    &&& forall|j: int| 0 <= j < w ==> #[trigger] s[j] < s[w]
}

/// The position of the first highest bid.
pub open spec fn winner_index(s: Seq<u64>) -> int {
    choose|w: int| is_first_max(s, w)
}

/// A sequence that is not empty has exactly one first position of a largest value.
pub proof fn lemma_first_max_unique(s: Seq<u64>, w1: int, w2: int)
    requires
        is_first_max(s, w1),
        is_first_max(s, w2),
    ensures
        w1 == w2,
{
    if w1 < w2 {
        assert(s[w1] < s[w2]);
        assert(s[w2] <= s[w1]);
    } else if w2 < w1 {
        assert(s[w2] < s[w1]);
        assert(s[w1] <= s[w2]);
    }
}

/// The settlement of a sealed-bid second-price auction: the first highest bid wins if
/// it meets the reserve and pays the larger of the reserve and the highest other bid;
/// below the reserve nothing is sold. No bids, no settlement.
pub open spec fn vickrey(bids: Seq<Bid>, reserve: u64, settled_at: u64) -> Option<Settlement> {
    let a = amounts(bids);
    if bids.len() == 0 {
        None
    } else {
        let w = winner_index(a);
        let top = a[w];
        let second = max_of(a.remove(w));
        if top < reserve {
            Some(
                Settlement { winner: None, clearing_price: 0, winning_bid: top, settled_at, sold: false },
            )
        } else {
            Some(
                Settlement {
                    winner: Some(bids[w].bidder),
                    clearing_price: if second > reserve {
                        second
                    } else {
                        reserve
                    },
                    winning_bid: top,
                    settled_at,
                    sold: true,
                },
            )
        }
    }
}

/// Settles an auction's bids at `settled_at` and reports the winning position.
fn settle_vickrey(bids: &Vec<Bid>, reserve: u64, settled_at: u64) -> (r: (Option<Settlement>, usize))
    ensures
        r.0 == vickrey(bids@, reserve, settled_at),
        bids@.len() > 0 ==> r.1 == winner_index(amounts(bids@)),
{
    let ghost a = amounts(bids@);
    if bids.len() == 0 {
        return (None, 0);
    }
    let mut w: usize = 0;
    let mut second: u64 = 0;
    let mut i: usize = 1;
    proof {
        assert(a.take(1).remove(0) =~= Seq::<u64>::empty());
        assert(a.take(1).drop_last() =~= Seq::<u64>::empty());
    }
    while i < bids.len()
        invariant
            a == amounts(bids@),
            1 <= i <= bids@.len(),
            w < i,
            is_first_max(a.take(i as int), w as int),
            second == max_of(a.take(i as int).remove(w as int)),
        decreases bids@.len() - i,
    {
        let amount = bids[i].amount;
        let ghost p = a.take(i as int);
        let ghost q = a.take(i + 1);
        proof {
            assert(q.drop_last() =~= p);
            assert(q.last() == amount);
        }
        if amount > bids[w].amount {
            proof {
                assert(q.remove(i as int) =~= p);
                lemma_max_of_bounds(p);
                lemma_max_of_attained(p, w as int);
            }
            second = bids[w].amount;
            w = i;
        } else {
            proof {
                assert(q.remove(w as int).drop_last() =~= p.remove(w as int));
                assert(q.remove(w as int).last() == amount);
            }
            if amount > second {
                second = amount;
            }
        }
        i = i + 1;
    }
    proof {
        assert(a.take(bids@.len() as int) =~= a);
        lemma_first_max_unique(a, w as int, winner_index(a));
    }
    let top = bids[w].amount;
    if top < reserve {
        return (
            Some(
                Settlement { winner: None, clearing_price: 0, winning_bid: top, settled_at, sold: false },
            ),
            w,
        );
    }
    let clearing = if second > reserve {
        second
    } else {
        reserve
    };
    (
        Some(
            Settlement {
                winner: Some(bids[w].bidder.clone()),
                clearing_price: clearing,
                winning_bid: top,
                settled_at,
                sold: true,
            },
        ),
        w,
    )
}

/// The largest value bounds every value.
proof fn lemma_max_of_bounds(s: Seq<u64>)
    ensures
        forall|j: int| 0 <= j < s.len() ==> #[trigger] s[j] <= max_of(s),
    decreases s.len(),
{
    if s.len() > 0 {
        lemma_max_of_bounds(s.drop_last());
        assert forall|j: int| 0 <= j < s.len() implies #[trigger] s[j] <= max_of(s) by {
            if j < s.len() - 1 {
                assert(s.drop_last()[j] == s[j]);
            }
        }
    }
}

/// A sequence that is not empty holds its largest value.
proof fn lemma_max_of_in(s: Seq<u64>)
    requires
        s.len() > 0,
    ensures
        exists|j: int| 0 <= j < s.len() && s[j] == max_of(s),
    decreases s.len(),
{
    if s.last() > max_of(s.drop_last()) || s.len() == 1 {
        assert(s[s.len() - 1] == max_of(s) || s.len() == 1);
        if s.len() == 1 {
            assert(s.drop_last().len() == 0);
            assert(s[0] == max_of(s));
        }
    } else {
        lemma_max_of_in(s.drop_last());
        let j = choose|j: int| 0 <= j < s.drop_last().len() && s.drop_last()[j] == max_of(s.drop_last());
        assert(s[j] == max_of(s));
    }
}

/// The largest value is the value at a first maximal position.
proof fn lemma_max_of_attained(s: Seq<u64>, w: int)
    requires
        is_first_max(s, w),
    ensures
        max_of(s) == s[w],
    decreases s.len(),
{
    lemma_max_of_bounds(s);
    assert(s[s.len() - 1] <= s[w]);
    if s.len() == 1 {
        assert(s.drop_last().len() == 0);
        assert(max_of(s.drop_last()) == 0);
    } else {
        if w < s.len() - 1 {
            let d = s.drop_last();
            assert forall|j: int| 0 <= j < d.len() implies #[trigger] d[j] <= d[w] by {
                assert(d[j] == s[j]);
            }
            assert forall|j: int| 0 <= j < w implies #[trigger] d[j] < d[w] by {
                assert(d[j] == s[j]);
            }
            lemma_max_of_attained(d, w);
        } else {
            let d = s.drop_last();
            lemma_max_of_in(d);
            let j = choose|j: int| 0 <= j < d.len() && d[j] == max_of(d);
            assert(d[j] == s[j]);
            assert(s[j] < s[w]);
        }
    }
}

/// The transfers out of escrow for the bid at position `i` after settlement.
pub open spec fn payout_for(bids: Seq<Bid>, s: Settlement, w: int, treasury: Seq<char>, i: int) -> Seq<
    (Seq<char>, u64),
> {
    if s.sold && i == w {
        let over = sat_sub(bids[i].amount as int, s.clearing_price as int);
        (if over > 0 {
            seq![(bids[i].bidder@, over as u64)]
        } else {
            Seq::empty()
        }) + (if s.clearing_price > 0 {
            seq![(treasury, s.clearing_price)]
        } else {
            Seq::empty()
        })
    } else {
        seq![(bids[i].bidder@, bids[i].amount)]
    }
}

/// The transfers for the first `n` bids, in bid order.
pub open spec fn payouts_upto(bids: Seq<Bid>, s: Settlement, w: int, treasury: Seq<char>, n: int) -> Seq<
    (Seq<char>, u64),
>
    decreases n,
{
    if n <= 0 {
        Seq::empty()
    } else {
        payouts_upto(bids, s, w, treasury, n - 1) + payout_for(bids, s, w, treasury, n - 1)
    }
}

/// The transfers as (recipient, amount) pairs.
pub open spec fn transfers_view(t: Seq<Transfer>) -> Seq<(Seq<char>, u64)> {
    t.map_values(|x: Transfer| (x.to@, x.amount))
}

/// A nonempty sequence has a first position of its largest value.
pub proof fn lemma_first_max_exists(s: Seq<u64>)
    requires
        s.len() > 0,
    ensures
        is_first_max(s, winner_index(s)),
        s[winner_index(s)] == max_of(s),
    decreases s.len(),
{
    let w = first_max_witness(s);
    assert(is_first_max(s, w));
    lemma_max_of_attained(s, winner_index(s));
}

proof fn first_max_witness(s: Seq<u64>) -> (w: int)
    requires
        s.len() > 0,
    ensures
        is_first_max(s, w),
    decreases s.len(),
{
    if s.len() == 1 {
        0
    } else {
        let d = s.drop_last();
        let w0 = first_max_witness(d);
        assert forall|j: int| 0 <= j < d.len() implies #[trigger] s[j] == d[j] by {}
        if s.last() > d[w0] {
            let w = s.len() - 1;
            assert forall|j: int| 0 <= j < s.len() implies #[trigger] s[j] <= s[w] by {
                if j < w {
                    assert(d[j] <= d[w0]);
                }
            }
            assert forall|j: int| 0 <= j < w implies #[trigger] s[j] < s[w] by {
                assert(d[j] <= d[w0]);
            }
            w
        } else {
            assert forall|j: int| 0 <= j < s.len() implies #[trigger] s[j] <= s[w0] by {
                if j < s.len() - 1 {
                    assert(d[j] <= d[w0]);
                }
            }
            assert forall|j: int| 0 <= j < w0 implies #[trigger] s[j] < s[w0] by {
                assert(d[j] < d[w0]);
            }
            w0
        }
    }
}

/// Second-price rule: the settlement of bids goes to the first highest bid, which is
/// sold exactly when it meets the reserve; the price paid then lies between the
/// reserve and the winning bid, and no other bid exceeds it.
pub proof fn law_vickrey_second_price(bids: Seq<Bid>, reserve: u64, settled_at: u64)
    requires
        bids.len() > 0,
    ensures
        ({
            let a = amounts(bids);
            let w = winner_index(a);
            let s = vickrey(bids, reserve, settled_at)->0;
            &&& vickrey(bids, reserve, settled_at) is Some
            &&& s.winning_bid == max_of(a)
            &&& s.winning_bid == a[w]
            &&& forall|j: int| 0 <= j < w ==> #[trigger] a[j] < s.winning_bid
            &&& s.sold <==> s.winning_bid >= reserve
            &&& s.sold ==> s.winner == Some(bids[w].bidder)
            &&& s.sold ==> reserve <= s.clearing_price <= s.winning_bid
            &&& s.sold ==> forall|j: int| 0 <= j < a.len() && j != w ==> #[trigger] a[j] <= s.clearing_price
            &&& !s.sold ==> s.winner is None && s.clearing_price == 0
        }),
{
    let a = amounts(bids);
    lemma_first_max_exists(a);
    let w = winner_index(a);
    let rest = a.remove(w);
    lemma_max_of_bounds(rest);
    if rest.len() > 0 {
        lemma_max_of_in(rest);
        let k = choose|k: int| 0 <= k < rest.len() && rest[k] == max_of(rest);
        if k < w {
            assert(rest[k] == a[k]);
        } else {
            assert(rest[k] == a[k + 1]);
        }
    } else {
        assert(max_of(rest) == 0);
    }
    assert forall|j: int| 0 <= j < a.len() && j != w implies #[trigger] a[j] <= max_of(rest) by {
        if j < w {
            assert(rest[j] == a[j]);
        } else {
            assert(rest[j - 1] == a[j]);
        }
    }
}

/// The total amount of a list of transfers.
pub open spec fn total(t: Seq<(Seq<char>, u64)>) -> int
    decreases t.len(),
{
    if t.len() == 0 {
        0
    } else {
        total(t.drop_last()) + t.last().1
    }
}

/// The total of a list of bids.
pub open spec fn total_bids(a: Seq<u64>) -> int
    decreases a.len(),
{
    if a.len() == 0 {
        0
    } else {
        total_bids(a.drop_last()) + a.last()
    }
}

proof fn lemma_total_concat(x: Seq<(Seq<char>, u64)>, y: Seq<(Seq<char>, u64)>)
    ensures
        total(x + y) == total(x) + total(y),
    decreases y.len(),
{
    if y.len() == 0 {
        assert(x + y =~= x);
    } else {
        lemma_total_concat(x, y.drop_last());
        assert((x + y).drop_last() =~= x + y.drop_last());
    }
}

/// Escrow is conserved: after settlement, the transfers out of escrow add up to
/// exactly the bids that were paid in.
pub proof fn law_payouts_conserve_escrow(bids: Seq<Bid>, reserve: u64, settled_at: u64, treasury: Seq<char>)
    requires
        bids.len() > 0,
    ensures
        total(
            payouts_upto(
                bids,
                vickrey(bids, reserve, settled_at)->0,
                winner_index(amounts(bids)),
                treasury,
                bids.len() as int,
            ),
        ) == total_bids(amounts(bids)),
{
    law_vickrey_second_price(bids, reserve, settled_at);
    let s = vickrey(bids, reserve, settled_at)->0;
    let w = winner_index(amounts(bids));
    lemma_first_max_exists(amounts(bids));
    assert(amounts(bids)[w] == bids[w].amount);
    lemma_payouts_prefix(bids, s, w, treasury, bids.len() as int);
    assert(amounts(bids).take(bids.len() as int) =~= amounts(bids));
}

proof fn lemma_payouts_prefix(bids: Seq<Bid>, s: Settlement, w: int, treasury: Seq<char>, n: int)
    requires
        0 <= n <= bids.len(),
        s.sold && 0 <= w < bids.len() ==> s.clearing_price <= bids[w].amount,
    ensures
        total(payouts_upto(bids, s, w, treasury, n)) == total_bids(amounts(bids).take(n)),
    decreases n,
{
    let a = amounts(bids);
    if n == 0 {
        assert(a.take(0).len() == 0);
        assert(payouts_upto(bids, s, w, treasury, 0) == Seq::<(Seq<char>, u64)>::empty());
        assert(total(Seq::<(Seq<char>, u64)>::empty()) == 0);
    } else {
        lemma_payouts_prefix(bids, s, w, treasury, n - 1);
        let i = n - 1;
        let p = payout_for(bids, s, w, treasury, i);
        lemma_total_concat(payouts_upto(bids, s, w, treasury, n - 1), p);
        assert(a.take(n).drop_last() =~= a.take(n - 1));
        assert(a.take(n).last() == bids[i].amount);
        if s.sold && i == w {
            let over = sat_sub(bids[i].amount as int, s.clearing_price as int);
            let first: Seq<(Seq<char>, u64)> = if over > 0 {
                seq![(bids[i].bidder@, over as u64)]
            } else {
                Seq::empty()
            };
            let second: Seq<(Seq<char>, u64)> = if s.clearing_price > 0 {
                seq![(treasury, s.clearing_price)]
            } else {
                Seq::empty()
            };
            lemma_total_concat(first, second);
            assert(0 <= over <= bids[i].amount);
            assert(total(Seq::<(Seq<char>, u64)>::empty()) == 0);
            assert(total(first) == over) by {
                if over > 0 {
                    assert(first.drop_last() =~= Seq::<(Seq<char>, u64)>::empty());
                    assert(first.last().1 == over as u64);
                    assert((over as u64) as int == over);
                }
            }
            assert(total(second) == s.clearing_price) by {
                if s.clearing_price > 0 {
                    assert(second.drop_last() =~= Seq::<(Seq<char>, u64)>::empty());
                }
            }
            assert(total(p) == bids[i].amount);
        } else {
            assert(p.drop_last() =~= Seq::<(Seq<char>, u64)>::empty());
            assert(total(Seq::<(Seq<char>, u64)>::empty()) == 0);
            assert(total(p) == bids[i].amount);
        }
        assert(total(payouts_upto(bids, s, w, treasury, n)) == total(payouts_upto(bids, s, w, treasury, n - 1)) + total(p));
        assert(total_bids(a.take(n)) == total_bids(a.take(n - 1)) + a[i]);
    }
}

// ------------------------------------------------------------------
// Paging
// ------------------------------------------------------------------

/// The page of `s` starting at `offset` with at most `limit` items (capped at the page size).
pub open spec fn page(s: Seq<Seq<char>>, offset: u32, limit: u32) -> Seq<Seq<char>> {
    let cap = if limit > MAX_PAGE_SIZE {
        MAX_PAGE_SIZE
    } else {
        limit
    };
    if offset >= s.len() {
        Seq::empty()
    } else if offset + cap > s.len() {
        s.subrange(offset as int, s.len() as int)
    } else {
        s.subrange(offset as int, offset + cap)
    }
}

/// Copies the page of a list of names.
pub fn slice_index(index: &Vec<String>, offset: u32, limit: u32) -> (r: Vec<String>)
    ensures
        strs(r@) == page(strs(index@), offset, limit),
{
    let mut out: Vec<String> = Vec::new();
    let total = index.len();
    let ghost s = strs(index@);
    if offset as usize >= total {
        assert(strs(out@) =~= page(s, offset, limit));
        return out;
    }
    let cap = if limit > MAX_PAGE_SIZE {
        MAX_PAGE_SIZE
    } else {
        limit
    };
    let end: usize = if (cap as usize) > total - (offset as usize) {
        total
    } else {
        (offset as usize) + (cap as usize)
    };
    let mut i: usize = offset as usize;
    while i < end
        invariant
            s == strs(index@),
            offset <= i <= end <= index@.len(),
            strs(out@) == s.subrange(offset as int, i as int),
        decreases end - i,
    {
        let ghost before = out@;
        let x = index[i].clone();
        out.push(x);
        proof {
            assert(s[i as int] == index@[i as int]@);
            assert(out@ == before.push(x));
            assert(strs(out@) =~= strs(before).push(x@));
            assert(strs(out@) =~= s.subrange(offset as int, i + 1));
        }
        i = i + 1;
    }
    assert(strs(out@) =~= page(s, offset, limit));
    out
}

/// Which auctions a listing keeps.
pub enum ListFilter {
    /// Open at the given time and not settled.
    ActiveAt(u64),
    /// Settled.
    Settled,
}

/// Everything the contract holds, as mathematical values.
pub struct AuctionView {
    pub auctions: Map<Seq<char>, AuctionData>,
    pub settlements: Map<Seq<char>, Settlement>,
    /// Names of all auctions ever created, oldest first.
    pub names: Seq<Seq<char>>,
    pub admin: Option<Seq<char>>,
    pub version: Option<u32>,
    /// Every upgrade announced so far, oldest first.
    pub events: Seq<ContractUpgraded>,
}

impl AuctionView {
    /// Whether an auction is open for bids at `now` and not settled.
    pub open spec fn is_active(self, name: Seq<char>, now: u64) -> bool {
        !self.settlements.dom().contains(name) && self.auctions.dom().contains(name)
            && self.auctions[name].starts_at <= now && now <= self.auctions[name].ends_at
    }

    /// Whether a listing keeps a name.
    pub open spec fn keeps(self, f: ListFilter, name: Seq<char>) -> bool {
        match f {
            ListFilter::ActiveAt(now) => self.is_active(name, now),
            ListFilter::Settled => self.settlements.dom().contains(name),
        }
    }

    /// The names of the discovery window: the oldest `MAX_AUCTION_RESULTS`.
    pub open spec fn window(self) -> Seq<Seq<char>> {
        if self.names.len() > MAX_AUCTION_RESULTS {
            self.names.take(MAX_AUCTION_RESULTS as int)
        } else {
            self.names
        }
    }

    /// The verdict on a bid.
    pub open spec fn bid_check(self, name: Seq<char>, amount: u64, now: u64) -> Result<(), AuctionError> {
        if amount == 0 {
            Err(AuctionError::InvalidBid)
        } else if !self.auctions.dom().contains(name) {
            Err(AuctionError::NotFound)
        } else if self.settlements.dom().contains(name) {
            Err(AuctionError::AlreadySettled)
        } else if now < self.auctions[name].starts_at {
            Err(AuctionError::AuctionNotStarted)
        } else if now > self.auctions[name].ends_at {
            Err(AuctionError::AuctionClosed)
        } else {
            Ok(())
        }
    }
}

spec fn opt_seq(o: Option<String>) -> Option<Seq<char>> {
    match o {
        Some(s) => Some(s@),
        None => None,
    }
}

spec fn auctions_view(m: Map<Seq<char>, Auction>) -> Map<Seq<char>, AuctionData> {
    Map::new(|k: Seq<char>| m.dom().contains(k), |k: Seq<char>| m[k].data())
}

/// The auction contract's state.
pub struct AuctionContract {
    auctions: StrMap<Auction>,
    settlements: StrMap<Settlement>,
    names: Vec<String>,
    admin: Option<String>,
    version: Option<u32>,
    events: Vec<ContractUpgraded>,
}

impl View for AuctionContract {
    type V = AuctionView;

    closed spec fn view(&self) -> AuctionView {
        AuctionView {
            auctions: auctions_view(self.auctions@),
            settlements: self.settlements@,
            names: strs(self.names@),
            admin: opt_seq(self.admin),
            version: self.version,
            events: self.events@,
        }
    }
}

impl AuctionContract {
    /// A contract with no auctions.
    pub fn new() -> (r: Self)
        ensures
            r@.auctions == Map::<Seq<char>, AuctionData>::empty(),
            r@.settlements == Map::<Seq<char>, Settlement>::empty(),
            r@.names == Seq::<Seq<char>>::empty(),
            r@.admin is None,
            r@.version is None,
            r@.events == Seq::<ContractUpgraded>::empty(),
    {
        let r = AuctionContract {
            auctions: StrMap::new(),
            settlements: StrMap::new(),
            names: Vec::new(),
            admin: None,
            version: None,
            events: Vec::new(),
        };
        assert(r@.auctions =~= Map::<Seq<char>, AuctionData>::empty());
        assert(r@.names =~= Seq::<Seq<char>>::empty());
        r
    }

    /// The version this code implements.
    pub fn version(&self) -> (r: u32)
        ensures
            r == CONTRACT_VERSION,
    {
        CONTRACT_VERSION
    }

    /// Sets the admin once.
    pub fn initialize(&mut self, admin: String) -> (r: Result<(), AuctionError>)
        ensures
            old(self)@.admin is Some ==> r == Err::<(), AuctionError>(AuctionError::AlreadyExists)
                && final(self)@ == old(self)@,
            old(self)@.admin is None ==> r is Ok && final(self)@ == (AuctionView {
                admin: Some(admin@),
                version: Some(CONTRACT_VERSION),
                ..old(self)@
            }),
    {
        if self.admin.is_some() {
            return Err(AuctionError::AlreadyExists);
        }
        self.admin = Some(admin);
        self.version = Some(CONTRACT_VERSION);
        Ok(())
    }

    /// The stored version, or the code's version when none is stored.
    pub fn get_version(&self) -> (r: u32)
        ensures
            r == match self@.version {
                Some(v) => v,
                None => CONTRACT_VERSION,
            },
    {
        match self.version {
            Some(v) => v,
            None => CONTRACT_VERSION,
        }
    }

    /// Moves the stored version to the one named by the migration data (admin only).
    pub fn upgrade(&mut self, migration_data: &Vec<u8>) -> (r: Result<(), AuctionError>)
        ensures
            old(self)@.admin is None ==> r == Err::<(), AuctionError>(AuctionError::UpgradeFailed)
                && final(self)@ == old(self)@,
            old(self)@.admin is Some ==> r is Ok && final(self)@ == (AuctionView {
                version: Some(spec_target_version(migration_data@)),
                events: old(self)@.events.push(
                    ContractUpgraded {
                        old_version: match old(self)@.version {
                            Some(v) => v,
                            None => CONTRACT_VERSION,
                        },
                        new_version: spec_target_version(migration_data@),
                        admin: old(self).admin_account(),
                    },
                ),
                ..old(self)@
            }),
    {
        if self.admin.is_none() {
            return Err(AuctionError::UpgradeFailed);
        }
        let old_version = self.get_version();
        let new_version = decode_target_version(migration_data);
        let admin = self.admin.clone().unwrap();
        self.version = Some(new_version);
        self.events.push(ContractUpgraded { old_version, new_version, admin });
        Ok(())
    }

    /// The admin's account (meaningful once initialized).
    pub closed spec fn admin_account(&self) -> String {
        self.admin.unwrap()
    }

    /// Every upgrade announced so far, oldest first.
    pub fn events(&self) -> (r: &Vec<ContractUpgraded>)
        ensures
            r@ == self@.events,
    {
        &self.events
    }

    /// Opens an auction for a name, once per name.
    pub fn create_auction(
        &mut self,
        name: &String,
        asset: &String,
        treasury: &String,
        reserve_price: u64,
        starts_at: u64,
        ends_at: u64,
    ) -> (r: Result<(), AuctionError>)
        ensures
            !valid_fqdn(name@) ==> r == Err::<(), AuctionError>(AuctionError::Validation),
            valid_fqdn(name@) && old(self)@.auctions.dom().contains(name@) ==> r == Err::<
                (),
                AuctionError,
            >(AuctionError::AlreadyExists),
            r is Err ==> final(self)@ == old(self)@,
            valid_fqdn(name@) && !old(self)@.auctions.dom().contains(name@) ==> r is Ok && final(self)@
                == (AuctionView {
                auctions: old(self)@.auctions.insert(
                    name@,
                    AuctionData {
                        name: name@,
                        reserve_price,
                        starts_at,
                        ends_at,
                        bids: Seq::empty(),
                        asset: asset@,
                        treasury: treasury@,
                    },
                ),
                names: old(self)@.names.push(name@),
                ..old(self)@
            }),
    {
        let ghost v0 = self@;
        if !validate_fqdn(name) {
            return Err(AuctionError::Validation);
        }
        if self.auctions.contains_key(name) {
            return Err(AuctionError::AlreadyExists);
        }
        let auction = Auction {
            name: name.clone(),
            reserve_price,
            starts_at,
            ends_at,
            bids: Vec::new(),
            asset: asset.clone(),
            treasury: treasury.clone(),
        };
        let ghost d = auction.data();
        self.auctions.insert(name.clone(), auction);
        self.names.push(name.clone());
        assert(self@.auctions =~= v0.auctions.insert(name@, d));
        assert(self@.names =~= v0.names.push(name@));
        Ok(())
    }

    /// The oldest auction names, at most `MAX_AUCTION_RESULTS` of them.
    pub fn auction_names(&self) -> (r: Vec<String>)
        ensures
            strs(r@) == self@.window(),
    {
        let n = if self.names.len() > MAX_AUCTION_RESULTS {
            MAX_AUCTION_RESULTS
        } else {
            self.names.len()
        };
        let mut out: Vec<String> = Vec::new();
        let mut i: usize = 0;
        while i < n
            invariant
                n <= self.names@.len(),
                n == self@.window().len(),
                i <= n,
                strs(out@) == self@.names.take(i as int),
            decreases n - i,
        {
            let ghost before = out@;
            let x = self.names[i].clone();
            out.push(x);
            proof {
                assert(self@.names[i as int] == self.names@[i as int]@);
                assert(out@ == before.push(x));
                assert(strs(out@) =~= strs(before).push(x@));
                assert(strs(out@) =~= self@.names.take(i + 1));
            }
            i = i + 1;
        }
        assert(strs(out@) =~= self@.window());
        out
    }

    fn keeps(&self, f: &ListFilter, name: &String) -> (r: bool)
        ensures
            r == self@.keeps(*f, name@),
    {
        match f {
            ListFilter::ActiveAt(now) => {
                if self.settlements.contains_key(name) {
                    return false;
                }
                match self.auctions.get(name) {
                    Some(a) => is_time_window_open(*now, a.starts_at, a.ends_at),
                    None => false,
                }
            },
            ListFilter::Settled => self.settlements.contains_key(name),
        }
    }

    /// The auctions of the discovery window that a filter keeps, oldest first.
    fn window_auctions(&self, f: &ListFilter) -> (r: Vec<Auction>)
        ensures
            r@.map_values(|a: Auction| a.data()) == self@.window().filter(
                |n: Seq<char>| self@.keeps(*f, n) && self@.auctions.dom().contains(n),
            ).map_values(|n: Seq<char>| self@.auctions[n]),
    {
        let names = self.auction_names();
        let ghost w = self@.window();
        let ghost pred = |n: Seq<char>| self@.keeps(*f, n) && self@.auctions.dom().contains(n);
        let mut out: Vec<Auction> = Vec::new();
        let mut i: usize = 0;
        while i < names.len()
            invariant
                strs(names@) == w,
                w == self@.window(),
                pred == (|n: Seq<char>| self@.keeps(*f, n) && self@.auctions.dom().contains(n)),
                i <= names@.len(),
                out@.map_values(|a: Auction| a.data()) == w.take(i as int).filter(pred).map_values(
                    |n: Seq<char>| self@.auctions[n],
                ),
            decreases names@.len() - i,
        {
            let name = &names[i];
            proof {
                assert(w.take(i + 1) =~= w.take(i as int).push(w[i as int]));
                w.take(i as int).lemma_filter_push(w[i as int], pred);
                assert(w[i as int] == name@);
            }
            if self.keeps(f, name) {
                match self.auctions.get(name) {
                    Some(a) => {
                        let ghost before = out@.map_values(|a: Auction| a.data());
                        let c = a.copy();
                        out.push(c);
                        proof {
                            assert(out@.map_values(|a: Auction| a.data()) =~= before.push(c.data()));
                            assert(w.take(i as int).filter(pred).push(name@).map_values(
                                |n: Seq<char>| self@.auctions[n],
                            ) =~= w.take(i as int).filter(pred).map_values(
                                |n: Seq<char>| self@.auctions[n],
                            ).push(self@.auctions[name@]));
                        }
                    },
                    None => {},
                }
            }
            i = i + 1;
        }
        proof {
            assert(w.take(names@.len() as int) =~= w);
        }
        out
    }

    /// Auctions of the discovery window that are open at `now_unix` and not settled.
    pub fn active_auctions(&self, now_unix: u64) -> (r: Vec<Auction>)
        ensures
            r@.map_values(|a: Auction| a.data()) == self@.window().filter(
                |n: Seq<char>| self@.keeps(ListFilter::ActiveAt(now_unix), n) && self@.auctions.dom().contains(n),
            ).map_values(|n: Seq<char>| self@.auctions[n]),
    {
        self.window_auctions(&ListFilter::ActiveAt(now_unix))
    }

    /// Auctions of the discovery window that are settled.
    pub fn settled_auctions(&self) -> (r: Vec<Auction>)
        ensures
            r@.map_values(|a: Auction| a.data()) == self@.window().filter(
                |n: Seq<char>| self@.keeps(ListFilter::Settled, n) && self@.auctions.dom().contains(n),
            ).map_values(|n: Seq<char>| self@.auctions[n]),
    {
        self.window_auctions(&ListFilter::Settled)
    }

    /// Records a bid while the auction is open; the amount is already in escrow.
    pub fn place_bid(&mut self, name: &String, bidder: &String, amount: u64, now_unix: u64) -> (r: Result<
        (),
        AuctionError,
    >)
        ensures
            r == old(self)@.bid_check(name@, amount, now_unix),
            r is Err ==> final(self)@ == old(self)@,
            r is Ok ==> final(self)@ == (AuctionView {
                auctions: old(self)@.auctions.insert(
                    name@,
                    AuctionData {
                        bids: old(self)@.auctions[name@].bids.push(
                            Bid { bidder: *bidder, amount, placed_at: now_unix },
                        ),
                        ..old(self)@.auctions[name@]
                    },
                ),
                ..old(self)@
            }),
    {
        let ghost v0 = self@;
        if amount == 0 {
            return Err(AuctionError::InvalidBid);
        }
        if !self.auctions.contains_key(name) {
            return Err(AuctionError::NotFound);
        }
        if self.settlements.contains_key(name) {
            return Err(AuctionError::AlreadySettled);
        }
        let mut auction = self.auctions.remove(name).unwrap();
        if !is_time_window_open(now_unix, auction.starts_at, auction.ends_at) {
            let late = now_unix >= auction.starts_at;
            self.auctions.insert(name.clone(), auction);
            assert(self@.auctions =~= v0.auctions);
            if !late {
                return Err(AuctionError::AuctionNotStarted);
            }
            return Err(AuctionError::AuctionClosed);
        }
        auction.bids.push(Bid { bidder: bidder.clone(), amount, placed_at: now_unix });
        let ghost d = auction.data();
        self.auctions.insert(name.clone(), auction);
        assert(self@.auctions =~= v0.auctions.insert(name@, d));
        Ok(())
    }

    /// Settles an auction once it has ended; with no bids there is nothing to settle
    /// and `None` is returned.
    pub fn settle(&mut self, name: &String, now_unix: u64) -> (r: Result<Option<Settlement>, AuctionError>)
        ensures
            ({
                let v = old(self)@;
                let s = vickrey(v.auctions[name@].bids, v.auctions[name@].reserve_price, now_unix);
                &&& !v.auctions.dom().contains(name@) ==> r == Err::<Option<Settlement>, AuctionError>(
                    AuctionError::NotFound,
                )
                &&& v.auctions.dom().contains(name@) && v.settlements.dom().contains(name@) ==> r
                    == Err::<Option<Settlement>, AuctionError>(AuctionError::AlreadySettled)
                &&& v.auctions.dom().contains(name@) && !v.settlements.dom().contains(name@) && now_unix
                    < v.auctions[name@].ends_at ==> r == Err::<Option<Settlement>, AuctionError>(
                    AuctionError::AuctionNotEnded,
                )
                &&& r is Err ==> final(self)@ == v
                &&& v.auctions.dom().contains(name@) && !v.settlements.dom().contains(name@) && now_unix
                    >= v.auctions[name@].ends_at ==> r == Ok::<Option<Settlement>, AuctionError>(s)
                    && final(self)@ == match s {
                    Some(st) => AuctionView { settlements: v.settlements.insert(name@, st), ..v },
                    None => v,
                }
            }),
    {
        let ghost v0 = self@;
        let (result, ends_at) = match self.auctions.get(name) {
            None => {
                return Err(AuctionError::NotFound);
            },
            Some(a) => {
                if self.settlements.contains_key(name) {
                    return Err(AuctionError::AlreadySettled);
                }
                if now_unix < a.ends_at {
                    return Err(AuctionError::AuctionNotEnded);
                }
                (settle_vickrey(&a.bids, a.reserve_price, now_unix).0, a.ends_at)
            },
        };
        match &result {
            Some(st) => {
                self.settlements.insert(name.clone(), st.copy());
            },
            None => {},
        }
        Ok(result)
    }

    /// The transfers the host makes out of escrow for a settled auction, in bid order;
    /// none before settlement.
    pub fn payouts(&self, name: &String) -> (r: Vec<Transfer>)
        ensures
            ({
                let v = self@;
                if v.auctions.dom().contains(name@) && v.settlements.dom().contains(name@) {
                    let a = v.auctions[name@];
                    transfers_view(r@) == payouts_upto(
                        a.bids,
                        v.settlements[name@],
                        winner_index(amounts(a.bids)),
                        a.treasury,
                        a.bids.len() as int,
                    )
                } else {
                    r@.len() == 0
                }
            }),
    {
        let mut out: Vec<Transfer> = Vec::new();
        let a = match self.auctions.get(name) {
            Some(a) => a,
            None => {
                return out;
            },
        };
        let s = match self.settlements.get(name) {
            Some(s) => s,
            None => {
                return out;
            },
        };
        let w = settle_vickrey(&a.bids, a.reserve_price, 0).1;
        let ghost bids = a.bids@;
        let ghost wi = winner_index(amounts(bids));
        let mut i: usize = 0;
        while i < a.bids.len()
            invariant
                bids == a.bids@,
                i <= bids.len(),
                bids.len() > 0 ==> w == wi,
                transfers_view(out@) == payouts_upto(bids, *s, wi, a.treasury@, i as int),
            decreases bids.len() - i,
        {
            let bid = &a.bids[i];
            let ghost before = transfers_view(out@);
            if s.sold && i == w {
                let over = if bid.amount > s.clearing_price {
                    bid.amount - s.clearing_price
                } else {
                    0
                };
                if over > 0 {
                    out.push(Transfer { to: bid.bidder.clone(), amount: over });
                }
                let ghost mid = transfers_view(out@);
                if s.clearing_price > 0 {
                    out.push(Transfer { to: a.treasury.clone(), amount: s.clearing_price });
                }
                proof {
                    assert(mid =~= before + (if over > 0 {
                        seq![(bid.bidder@, over)]
                    } else {
                        Seq::empty()
                    }));
                    assert(transfers_view(out@) =~= before + payout_for(bids, *s, wi, a.treasury@, i as int));
                }
            } else {
                out.push(Transfer { to: bid.bidder.clone(), amount: bid.amount });
                proof {
                    assert(transfers_view(out@) =~= before + payout_for(bids, *s, wi, a.treasury@, i as int));
                }
            }
            i = i + 1;
        }
        out
    }

    /// An auction by name.
    pub fn auction(&self, name: &String) -> (r: Option<Auction>)
        ensures
            r is Some == self@.auctions.dom().contains(name@),
            r matches Some(a) ==> a.data() == self@.auctions[name@],
    {
        match self.auctions.get(name) {
            Some(a) => Some(a.copy()),
            None => None,
        }
    }

    /// Number of auctions ever created.
    pub fn auction_count(&self) -> (r: u32)
        requires
            self@.names.len() <= u32::MAX,
        ensures
            r == self@.names.len(),
    {
        self.names.len() as u32
    }

    /// A page of all auction names, oldest first.
    pub fn list_auctions(&self, offset: u32, limit: u32) -> (r: Vec<String>)
        ensures
            strs(r@) == page(self@.names, offset, limit),
    {
        slice_index(&self.names, offset, limit)
    }

    fn filter_index(&self, f: &ListFilter, offset: u32, limit: u32) -> (r: Vec<String>)
        ensures
            strs(r@) == page(self@.names.filter(|n: Seq<char>| self@.keeps(*f, n)), offset, limit),
    {
        let ghost pred = |n: Seq<char>| self@.keeps(*f, n);
        let ghost all = self@.names;
        let mut kept: Vec<String> = Vec::new();
        let mut i: usize = 0;
        while i < self.names.len()
            invariant
                all == self@.names,
                pred == (|n: Seq<char>| self@.keeps(*f, n)),
                i <= all.len(),
                strs(kept@) == all.take(i as int).filter(pred),
            decreases all.len() - i,
        {
            proof {
                assert(all.take(i + 1) =~= all.take(i as int).push(all[i as int]));
                all.take(i as int).lemma_filter_push(all[i as int], pred);
            }
            if self.keeps(f, &self.names[i]) {
                kept.push(self.names[i].clone());
                proof {
                    assert(strs(kept@) =~= strs(kept@).drop_last().push(all[i as int]));
                }
            }
            i = i + 1;
        }
        proof {
            assert(all.take(all.len() as int) =~= all);
        }
        slice_index(&kept, offset, limit)
    }

    /// A page of the names of auctions open at `now_unix` and not settled, oldest first.
    pub fn list_active_auctions(&self, now_unix: u64, offset: u32, limit: u32) -> (r: Vec<String>)
        ensures
            strs(r@) == page(
                self@.names.filter(|n: Seq<char>| self@.keeps(ListFilter::ActiveAt(now_unix), n)),
                offset,
                limit,
            ),
    {
        self.filter_index(&ListFilter::ActiveAt(now_unix), offset, limit)
    }

    /// A page of the names of settled auctions, oldest first.
    pub fn list_settled_auctions(&self, offset: u32, limit: u32) -> (r: Vec<String>)
        ensures
            strs(r@) == page(
                self@.names.filter(|n: Seq<char>| self@.keeps(ListFilter::Settled, n)),
                offset,
                limit,
            ),
    {
        self.filter_index(&ListFilter::Settled, offset, limit)
    }
}

} // verus!
