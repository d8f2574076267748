//! What a block tells about the chain's time and throughput.

use vstd::prelude::*;

use crate::scale::read_compact;
use crate::text::same;

verus! {

/// The block time that is taken for granted as long as the chain has not shown one.
pub const DEFAULT_BLOCK_TIME_MS: u64 = 6_000;

/// An extrinsic of a block. A name that could not be looked up is missing.
#[derive(Debug)]
pub struct Extrinsic {
    pub pallet: Option<String>,
    pub call: Option<String>,
    /// The encoded arguments.
    pub fields: Vec<u8>,
}

/// An event of a block.
#[derive(Debug)]
pub struct ChainEvent {
    pub pallet: String,
    pub name: String,
}

/// What was fetched of a block.
#[derive(Debug)]
pub struct BlockReport {
    pub extrinsics: Vec<Extrinsic>,
    /// The events, but for those that could not be decoded; none if they could not be fetched.
    pub events: Option<Vec<Option<ChainEvent>>>,
}

/// The extrinsic calls `call` of `pallet`.
pub open spec fn calls(x: Extrinsic, pallet: Seq<char>, call: Seq<char>) -> bool {
    &&& x.pallet matches Some(p)
    &&& p@ == pallet
    &&& x.call matches Some(c)
    &&& c@ == call
}

/// The timestamp that an extrinsic sets, if it is one that does.
pub open spec fn stamp_of(x: Extrinsic) -> Option<u64> {
    if calls(x, "Timestamp"@, "set"@) {
        crate::scale::compact_value(x.fields@)
    } else {
        None
    }
}

/// The timestamps that extrinsics set, in order.
pub open spec fn stamps_of(xs: Seq<Extrinsic>) -> Seq<u64>
    decreases xs.len(),
{
    if xs.len() == 0 {
        seq![]
    } else {
        match stamp_of(xs.last()) {
            Some(t) => stamps_of(xs.drop_last()).push(t),
            None => stamps_of(xs.drop_last()),
        }
    }
}

/// An extrinsic that counts as a transaction: the transfer of a token.
pub open spec fn is_counted_call(x: Extrinsic) -> bool {
    calls(x, "Nfts"@, "transfer"@)
}

/// An event that counts as a transaction: the transfer of a balance.
pub open spec fn is_counted_event(e: Option<ChainEvent>) -> bool {
    e matches Some(e) && e.pallet@ == "Balances"@ && e.name@ == "Transfer"@
}

/// How many of `xs` count as transactions.
pub open spec fn counted_calls(xs: Seq<Extrinsic>) -> nat {
    xs.filter(|x: Extrinsic| is_counted_call(x)).len()
}

/// How many of `es` count as transactions.
pub open spec fn counted_events(es: Seq<Option<ChainEvent>>) -> nat {
    es.filter(|e: Option<ChainEvent>| is_counted_event(e)).len()
}

impl BlockReport {
    /// The transactions of the block.
    pub open spec fn transactions(self) -> nat {
        counted_calls(self.extrinsics@) + match self.events {
            Some(es) => counted_events(es@),
            None => 0,
        }
    }

    /// The timestamps that the block sets, in order.
    pub open spec fn stamps(self) -> Seq<u64> {
        stamps_of(self.extrinsics@)
    }
}

fn is_call(x: &Extrinsic, pallet: &str, call: &str) -> (yes: bool)
    ensures
        yes == calls(*x, pallet@, call@),
{
    match (&x.pallet, &x.call) {
        (Some(p), Some(c)) => same(p.as_str(), pallet) && same(c.as_str(), call),
        _ => false,
    }
}

/// The timestamp that an extrinsic sets, if it is one that does.
pub fn timestamp(x: &Extrinsic) -> (t: Option<u64>)
    ensures
        t == stamp_of(*x),
{
    if is_call(x, "Timestamp", "set") {
        read_compact(x.fields.as_slice())
    } else {
        None
    }
}

/// The timestamps that extrinsics set, in order.
pub fn timestamps(xs: &Vec<Extrinsic>) -> (ts: Vec<u64>)
    ensures
        ts@ == stamps_of(xs@),
{
    let mut ts: Vec<u64> = Vec::new();
    for k in 0..xs.len()
        invariant
            ts@ == stamps_of(xs@.take(k as int)),
    {
        proof {
            assert(xs@.take(k + 1).drop_last() =~= xs@.take(k as int));
        }
        if let Some(t) = timestamp(&xs[k]) {
            ts.push(t);
        }
    }
    assert(xs@.take(xs@.len() as int) =~= xs@);
    ts
}

fn count_calls(xs: &Vec<Extrinsic>) -> (n: usize)
    ensures
        n == counted_calls(xs@),
{
    let ghost f = |x: Extrinsic| is_counted_call(x);
    let mut n: usize = 0;
    assert(xs@.take(0) =~= seq![]);
    reveal(Seq::filter);
    for k in 0..xs.len()
        invariant
            f == (|x: Extrinsic| is_counted_call(x)),
            n == xs@.take(k as int).filter(f).len(),
            n <= k,
    {
        reveal(Seq::filter);
        assert(xs@.take(k + 1).drop_last() =~= xs@.take(k as int));
        if is_call(&xs[k], "Nfts", "transfer") {
            n = n + 1;
        }
    }
    assert(xs@.take(xs@.len() as int) =~= xs@);
    n
}

fn is_balance_transfer(e: &Option<ChainEvent>) -> (yes: bool)
    ensures
        yes == is_counted_event(*e),
{
    match e {
        Some(e) => same(e.pallet.as_str(), "Balances") && same(e.name.as_str(), "Transfer"),
        None => false,
    }
}

fn count_events(es: &Vec<Option<ChainEvent>>) -> (n: usize)
    ensures
        n == counted_events(es@),
{
    let ghost f = |e: Option<ChainEvent>| is_counted_event(e);
    let mut n: usize = 0;
    assert(es@.take(0) =~= seq![]);
    reveal(Seq::filter);
    for k in 0..es.len()
        invariant
            f == (|e: Option<ChainEvent>| is_counted_event(e)),
            n == es@.take(k as int).filter(f).len(),
            n <= k,
    {
        reveal(Seq::filter);
        assert(es@.take(k + 1).drop_last() =~= es@.take(k as int));
        if is_balance_transfer(&es[k]) {
            n = n + 1;
        }
    }
    assert(es@.take(es@.len() as int) =~= es@);
    n
}

impl BlockReport {
    /// How many transactions the block holds: its token transfers, and its balance transfers as
    /// far as its events could be fetched and decoded.
    pub fn transaction_count(&self) -> (n: u128)
        ensures
            n == self.transactions(),
    {
        let called: usize = count_calls(&self.extrinsics);
        let happened: usize = match &self.events {
            Some(es) => count_events(es),
            None => 0,
        };
        called as u128 + happened as u128
    }
}

/// The chain's time, in milliseconds.
#[derive(Clone, Copy, Debug, PartialEq, Eq)]
pub struct BlockClock {
    /// The last timestamp that was set.
    pub timestamp_ms: u64,
    /// The time between the last two timestamps.
    pub block_time_ms: u64,
}

impl BlockClock {
    /// The timestamp before the `k`-th of `stamps`.
    pub open spec fn before(self, stamps: Seq<u64>, k: int) -> u64 {
        if k == 0 {
            self.timestamp_ms
        } else {
            stamps[k - 1]
        }
    }

    /// No timestamp is earlier than the one before it.
    pub open spec fn runs_forward(self, stamps: Seq<u64>) -> bool {
        forall|k: int| 0 <= k < stamps.len() ==> self.before(stamps, k) <= #[trigger] stamps[k]
    }

    /// The clock after `stamps` were set.
    pub open spec fn after(self, stamps: Seq<u64>) -> BlockClock {
        if stamps.len() == 0 {
            self
        } else {
            BlockClock {
                timestamp_ms: stamps.last(),
                block_time_ms: (stamps.last() - self.before(stamps, stamps.len() - 1)) as u64,
            }
        }
    }

    /// A clock that has seen no timestamp.
    pub fn new() -> (clock: BlockClock)
        ensures
            clock == (BlockClock { timestamp_ms: 0, block_time_ms: 0 }),
    {
        BlockClock { timestamp_ms: 0, block_time_ms: 0 }
    }

    /// Whether no timestamp is earlier than the one before it.
    pub fn admits(&self, stamps: &Vec<u64>) -> (yes: bool)
        ensures
            yes == self.runs_forward(stamps@),
    {
        let mut last: u64 = self.timestamp_ms;
        for k in 0..stamps.len()
            invariant
                last == self.before(stamps@, k as int),
                forall|j: int| 0 <= j < k ==> self.before(stamps@, j) <= #[trigger] stamps@[j],
        {
            if stamps[k] < last {
                assert(!(self.before(stamps@, k as int) <= stamps@[k as int]));
                return false;
            }
            last = stamps[k];
        }
        true
    }

    /// Sets the timestamps, one after the other.
    pub fn set_all(&mut self, stamps: &Vec<u64>)
        requires
            old(self).runs_forward(stamps@),
        ensures
            *final(self) == old(self).after(stamps@),
    {
        let ghost start = *self;
        for k in 0..stamps.len()
            invariant
                start.runs_forward(stamps@),
                *self == start.after(stamps@.take(k as int)),
        {
            let t: u64 = stamps[k];
            assert(self.timestamp_ms == start.before(stamps@, k as int));
            assert(start.before(stamps@, k as int) <= stamps@[k as int]);
            self.block_time_ms = t - self.timestamp_ms;
            self.timestamp_ms = t;
            assert(stamps@.take(k + 1).last() == t);
        }
        assert(stamps@.take(stamps@.len() as int) =~= stamps@);
    }
}

/// The transactions per second of a block with so many transactions.
pub open spec fn rate_of(transactions: int, block_time_ms: u64) -> int {
    transactions * 1000 / if block_time_ms == 0 {
        DEFAULT_BLOCK_TIME_MS as int
    } else {
        block_time_ms as int
    }
}

/// The transactions per second of a block with so many transactions.
pub fn rate(transactions: u64, block_time_ms: u64) -> (tps: u64)
    requires
        transactions * 1000 <= u64::MAX,
    ensures
        tps == rate_of(transactions as int, block_time_ms),
        block_time_ms > 0 ==> tps * block_time_ms <= transactions * 1000 < (tps + 1)
            * block_time_ms,
        block_time_ms == 0 ==> tps * 6000 <= transactions * 1000 < (tps + 1) * 6000,
{
    proof {
        law_rate_is_per_second(transactions as int, block_time_ms);
    }
    let divisor: u64 = if block_time_ms == 0 {
        DEFAULT_BLOCK_TIME_MS
    } else {
        block_time_ms
    };
    transactions * 1000 / divisor
}

/// Reading timestamps block by block comes to the same as reading them all at once, and as long
/// as they run forward the chain's time never goes back.
pub proof fn law_clock_is_cumulative(clock: BlockClock, first: Seq<u64>, second: Seq<u64>)
    requires
        clock.runs_forward(first + second),
    ensures
        clock.runs_forward(first),
        clock.after(first).runs_forward(second),
        clock.after(first).after(second) == clock.after(first + second),
        clock.timestamp_ms <= clock.after(first).timestamp_ms,
{
    let all = first + second;
    assert forall|k: int| 0 <= k < first.len() implies clock.before(first, k)
        <= #[trigger] first[k] by {
        assert(all[k] == first[k]);
        assert(clock.before(all, k) == clock.before(first, k));
    }
    assert forall|k: int| 0 <= k < second.len() implies clock.after(first).before(second, k)
        <= #[trigger] second[k] by {
        assert(all[first.len() + k] == second[k]);
        assert(clock.before(all, first.len() + k) == clock.after(first).before(second, k));
    }
    lemma_forward(clock, first);
    if second.len() > 0 {
        assert(all.last() == second.last());
        assert(clock.before(all, all.len() - 1) == clock.after(first).before(
            second,
            second.len() - 1,
        ));
    } else {
        assert(all =~= first);
    }
}

/// Timestamps that run forward, and more that run forward from there, run forward together.
pub proof fn lemma_runs_on(clock: BlockClock, first: Seq<u64>, second: Seq<u64>)
    requires
        clock.runs_forward(first),
        clock.after(first).runs_forward(second),
    ensures
        clock.runs_forward(first + second),
{
    let all = first + second;
    assert forall|k: int| 0 <= k < all.len() implies clock.before(all, k) <= #[trigger] all[k] by {
        if k < first.len() {
            assert(clock.before(first, k) <= first[k]);
        } else {
            let j = k - first.len();
            assert(clock.after(first).before(second, j) <= second[j]);
        }
    }
}

proof fn lemma_forward(clock: BlockClock, stamps: Seq<u64>)
    requires
        clock.runs_forward(stamps),
    ensures
        clock.timestamp_ms <= clock.after(stamps).timestamp_ms,
    decreases stamps.len(),
{
    if stamps.len() > 0 {
        let init = stamps.drop_last();
        assert forall|k: int| 0 <= k < init.len() implies clock.before(init, k)
            <= #[trigger] init[k] by {
            assert(stamps[k] == init[k]);
            assert(clock.before(stamps, k) == clock.before(init, k));
        }
        lemma_forward(clock, init);
        assert(clock.before(stamps, stamps.len() - 1) <= stamps[stamps.len() - 1]);
    }
}

/// The rate is that of the block's own time, rounded down: at this rate no more transactions come
/// up in the time of the block than it holds, and at the next higher rate more would. As long as
/// the chain has shown no block time, it is taken to be six seconds.
pub proof fn law_rate_is_per_second(transactions: int, block_time_ms: u64)
    ensures
        block_time_ms > 0 ==> rate_of(transactions, block_time_ms) * block_time_ms <= transactions
            * 1000 < (rate_of(transactions, block_time_ms) + 1) * block_time_ms,
        block_time_ms == 0 ==> rate_of(transactions, block_time_ms) * 6000 <= transactions * 1000
            < (rate_of(transactions, block_time_ms) + 1) * 6000,
{
    let d = if block_time_ms == 0 {
        6000
    } else {
        block_time_ms as int
    };
    let n = transactions * 1000;
    assert((n / d) * d <= n < (n / d + 1) * d) by (nonlinear_arith)
        requires
            d > 0,
    ;
}

/// A call of `set` in the pallet `Timestamp` sets the time whose compact encoding its arguments
/// begin with; nothing else sets a time.
pub proof fn law_only_timestamps_set_the_time(x: Extrinsic, t: u64)
    ensures
        stamp_of(x) == Some(t) <==> {
            &&& x.pallet matches Some(p)
            &&& x.call matches Some(c)
            &&& p@ == "Timestamp"@
            &&& c@ == "set"@
            &&& crate::scale::compact_bytes(t).is_prefix_of(x.fields@)
        },
{
    crate::scale::law_compact_value_is_what_is_encoded(x.fields@, t);
}

/// The timestamps of extrinsics are those of each of them, in order: an extrinsic that sets the
/// time adds its own at the end, and any other adds none.
pub proof fn law_timestamps_come_in_order(xs: Seq<Extrinsic>, x: Extrinsic)
    ensures
        stamps_of(Seq::<Extrinsic>::empty()).len() == 0,
        stamp_of(x) matches Some(t) ==> stamps_of(xs.push(x)) == stamps_of(xs) + seq![t],
        stamp_of(x) is None ==> stamps_of(xs.push(x)) == stamps_of(xs),
{
    assert(xs.push(x).drop_last() =~= xs);
}

/// Each call of `transfer` in the pallet `Nfts` counts as one transaction, and no other extrinsic
/// counts.
pub proof fn law_each_token_transfer_counts_once(xs: Seq<Extrinsic>, x: Extrinsic)
    ensures
        counted_calls(Seq::<Extrinsic>::empty()) == 0,
        counted_calls(xs.push(x)) == counted_calls(xs) + (if x.pallet is Some && x.call is Some
            && x.pallet->0@ == "Nfts"@ && x.call->0@ == "transfer"@ {
            1int
        } else {
            0
        }),
{
    reveal(Seq::filter);
    assert(xs.push(x).drop_last() =~= xs);
}

/// Each event `Transfer` of the pallet `Balances` counts as one transaction, and no other event
/// counts, nor one that could not be decoded.
pub proof fn law_each_balance_transfer_counts_once(
    es: Seq<Option<ChainEvent>>,
    e: Option<ChainEvent>,
)
    ensures
        counted_events(Seq::<Option<ChainEvent>>::empty()) == 0,
        counted_events(es.push(e)) == counted_events(es) + (if e is Some && e->0.pallet@
            == "Balances"@ && e->0.name@ == "Transfer"@ {
            1int
        } else {
            0
        }),
{
    reveal(Seq::filter);
    assert(es.push(e).drop_last() =~= es);
}

/// The transactions of a block are its token transfers and its balance transfers together, and
/// events that could not be fetched leave the token transfers.
pub proof fn law_both_kinds_of_transfer_count(report: BlockReport)
    ensures
        report.events is None ==> report.transactions() == counted_calls(report.extrinsics@),
        report.events is Some ==> report.transactions() == counted_calls(report.extrinsics@)
            + counted_events(report.events->0@),
        report.stamps() == stamps_of(report.extrinsics@),
{
}

/// A timestamp becomes the chain's time, and the block time is what has passed since the one
/// before it; it must not be earlier than that one.
pub proof fn law_clock_is_set_by_each_timestamp(clock: BlockClock, stamps: Seq<u64>, t: u64)
    ensures
        clock.after(Seq::<u64>::empty()) == clock,
        clock.runs_forward(Seq::<u64>::empty()),
        clock.runs_forward(stamps.push(t)) <==> clock.runs_forward(stamps) && clock.after(
            stamps,
        ).timestamp_ms <= t,
        clock.after(stamps.push(t)).timestamp_ms == t,
        clock.after(stamps).timestamp_ms <= t ==> clock.after(stamps).timestamp_ms + clock.after(
            stamps.push(t),
        ).block_time_ms == t,
{
    let all = stamps.push(t);
    if clock.runs_forward(all) {
        assert forall|k: int| 0 <= k < stamps.len() implies clock.before(stamps, k)
            <= #[trigger] stamps[k] by {
            assert(all[k] == stamps[k]);
            assert(clock.before(all, k) == clock.before(stamps, k));
        }
        assert(clock.before(all, stamps.len() as int) <= all[stamps.len() as int]);
    }
    if clock.runs_forward(stamps) && clock.after(stamps).timestamp_ms <= t {
        assert forall|k: int| 0 <= k < all.len() implies clock.before(all, k)
            <= #[trigger] all[k] by {
            if k < stamps.len() {
                assert(clock.before(stamps, k) <= stamps[k]);
            }
        }
    }
}

} // verus!
