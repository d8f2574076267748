//! The throughput over the last blocks, and when a round of sending is over.

use std::collections::VecDeque;

use vstd::prelude::*;

use crate::block::{rate, timestamps, BlockClock, BlockReport};
use crate::plan::Settings;

verus! {

/// How many blocks the throughput is summed over.
pub const WINDOW: usize = 12;

/// How long a round of sending lasts at most, in nanoseconds.
pub const ROUND_NANOS: u128 = 300_000_000_000;

/// The sum of `rates`.
pub open spec fn sum(rates: Seq<usize>) -> int
    decreases rates.len(),
{
    if rates.len() == 0 {
        0
    } else {
        sum(rates.drop_last()) + rates.last()
    }
}

/// The window after one more rate: the oldest one leaves if there is no room for it.
pub open spec fn slide(rates: Seq<usize>, rate: usize) -> Seq<usize> {
    if rates.len() < WINDOW {
        rates.push(rate)
    } else {
        rates.push(rate).drop_first()
    }
}

/// The model of a `Monitor`.
pub ghost struct MonitorView {
    /// The throughput to aim for.
    pub target_tps: usize,
    pub clock: BlockClock,
    /// The rates of the last blocks, the oldest first.
    pub rates: Seq<usize>,
}

impl MonitorView {
    pub open spec fn wf(self) -> bool {
        &&& self.rates.len() <= WINDOW
        &&& sum(self.rates) <= usize::MAX
    }

    /// The rate of a block.
    pub open spec fn rate(self, report: BlockReport) -> int {
        crate::block::rate_of(
            report.transactions() as int,
            self.clock.after(report.stamps()).block_time_ms,
        )
    }

    /// The monitor after a block.
    pub open spec fn next(self, report: BlockReport) -> MonitorView {
        MonitorView {
            clock: self.clock.after(report.stamps()),
            rates: slide(self.rates, self.rate(report) as usize),
            ..self
        }
    }

    /// The monitor at the start of a round of sending.
    pub open spec fn new_round(self) -> MonitorView {
        MonitorView { rates: seq![], ..self }
    }

    /// The average rate over the window.
    pub open spec fn average(self) -> int {
        sum(self.rates) / self.rates.len() as int
    }

    /// The block can be taken in: the chain's time does not go back, and the numbers fit.
    pub open spec fn admits(self, report: BlockReport) -> bool {
        &&& self.clock.runs_forward(report.stamps())
        &&& report.transactions() * 1000 <= u64::MAX
        &&& sum(self.next(report).rates) <= usize::MAX
    }

    /// The window was full before its last rate, and now adds up to less than a quarter of the
    /// target.
    pub open spec fn is_slow(self, report: BlockReport) -> bool {
        &&& self.rates.len() == WINDOW
        &&& sum(self.next(report).rates) < self.target_tps as int / 4
    }
}

/// A monitor that has seen no block.
pub open spec fn fresh(settings: Settings) -> MonitorView {
    MonitorView {
        target_tps: settings.tps,
        clock: BlockClock { timestamp_ms: 0, block_time_ms: 0 },
        rates: seq![],
    }
}

/// What a block comes to.
#[derive(Clone, Copy, Debug, PartialEq, Eq)]
pub struct BlockOutcome {
    /// The transactions of the block.
    pub transactions: u64,
    /// Its transactions per second.
    pub tps: u64,
    /// The throughput is too low to go on.
    pub slow: bool,
}

/// The throughput over the last blocks.
#[derive(Debug)]
pub struct Monitor {
    target_tps: usize,
    clock: BlockClock,
    rates: VecDeque<usize>,
}

impl View for Monitor {
    type V = MonitorView;

    closed spec fn view(&self) -> MonitorView {
        MonitorView { target_tps: self.target_tps, clock: self.clock, rates: self.rates@ }
    }
}

/// The sum of `rates`, which does not overflow.
fn wide_sum(rates: &VecDeque<usize>, from: usize) -> (total: u128)
    requires
        from <= rates@.len() <= WINDOW,
    ensures
        total == sum(rates@.skip(from as int)),
{
    let mut total: u128 = 0;
    assert(rates@.skip(from as int).take(0) =~= seq![]);
    for k in from..rates.len()
        invariant
            from <= rates@.len() <= WINDOW,
            total == sum(rates@.skip(from as int).take(k - from)),
            total <= (k - from) * usize::MAX,
    {
        let ghost tail = rates@.skip(from as int);
        assert(tail.take(k + 1 - from).drop_last() =~= tail.take(k - from));
        assert(total + usize::MAX <= (k + 1 - from) * usize::MAX) by (nonlinear_arith)
            requires
                total <= (k - from) * usize::MAX,
        ;
        assert((k + 1 - from) * usize::MAX <= 13 * u64::MAX) by (nonlinear_arith)
            requires
                0 <= k + 1 - from <= 13,
                usize::MAX <= u64::MAX,
        ;
        total = total + rates[k] as u128;
    }
    assert(rates@.skip(from as int).take(rates@.len() - from) =~= rates@.skip(from as int));
    total
}

impl Monitor {
    /// A monitor that has seen no block.
    pub fn new(settings: &Settings) -> (monitor: Monitor)
        ensures
            monitor@.wf(),
            monitor@ == (MonitorView {
                target_tps: settings.tps,
                clock: BlockClock { timestamp_ms: 0, block_time_ms: 0 },
                rates: seq![],
            }),
            monitor@ == fresh(*settings),
    {
        Monitor { target_tps: settings.tps, clock: BlockClock::new(), rates: VecDeque::new() }
    }

    /// Starts a round of sending: the window is emptied, the chain's time goes on.
    pub fn start_round(&mut self)
        ensures
            final(self)@.wf(),
            final(self)@ == (MonitorView { rates: seq![], ..old(self)@ }),
            final(self)@ == old(self)@.new_round(),
    {
        self.rates.clear();
    }

    /// The chain's time.
    pub fn clock(&self) -> (clock: BlockClock)
        ensures
            clock == self@.clock,
    {
        self.clock
    }

    /// Whether the block can be taken in.
    pub fn admits(&self, report: &BlockReport) -> (yes: bool)
        requires
            self@.wf(),
        ensures
            yes == self@.admits(*report),
    {
        let stamps = timestamps(&report.extrinsics);
        if !self.clock.admits(&stamps) {
            return false;
        }
        let transactions: u128 = report.transaction_count();
        if transactions > (u64::MAX / 1000) as u128 {
            return false;
        }
        let mut clock: BlockClock = self.clock;
        clock.set_all(&stamps);
        let tps: u64 = rate(transactions as u64, clock.block_time_ms);
        let newest: usize = #[verifier::truncate]
        (tps as usize);
        let from: usize = if self.rates.len() < WINDOW {
            0
        } else {
            1
        };
        let kept: u128 = wide_sum(&self.rates, from);
        proof {
            lemma_slide(self.rates@, newest);
            lemma_sum_bound(self.rates@.skip(from as int));
            assert(13 * usize::MAX <= 13 * u64::MAX);
        }
        kept + newest as u128 <= usize::MAX as u128
    }

    /// Takes in a block.
    pub fn record(&mut self, report: &BlockReport) -> (outcome: BlockOutcome)
        requires
            old(self)@.wf(),
            old(self)@.admits(*report),
        ensures
            final(self)@.wf(),
            final(self)@ == old(self)@.next(*report),
            outcome.transactions == report.transactions(),
            outcome.tps == old(self)@.rate(*report),
            outcome.slow == old(self)@.is_slow(*report),
    {
        let stamps = timestamps(&report.extrinsics);
        self.clock.set_all(&stamps);
        let transactions: u64 = report.transaction_count() as u64;
        let tps: u64 = rate(transactions, self.clock.block_time_ms);
        let newest: usize = #[verifier::truncate]
        (tps as usize);
        let ghost before = self.rates@;
        self.rates.push_back(newest);
        let mut slow: bool = false;
        if self.rates.len() > WINDOW {
            let _ = self.rates.pop_front();
            assert(self.rates@ =~= slide(before, newest));
            slow = wide_sum(&self.rates, 0) < (self.target_tps / 4) as u128;
            assert(self.rates@.skip(0) =~= self.rates@);
        }
        assert(self.rates@ =~= slide(before, newest));
        BlockOutcome { transactions, tps, slow }
    }

    /// The average rate over the window.
    pub fn average_tps(&self) -> (tps: usize)
        requires
            self@.wf(),
            self@.rates.len() > 0,
        ensures
            tps == sum(self@.rates) / self@.rates.len() as int,
            tps == self@.average(),
            tps * self@.rates.len() <= sum(self@.rates) < (tps + 1) * self@.rates.len(),
    {
        proof {
            law_average_is_over_the_window(self@);
        }
        let total: u128 = wide_sum(&self.rates, 0);
        assert(self.rates@.skip(0) =~= self.rates@);
        (total as usize) / self.rates.len()
    }
}

proof fn lemma_sum_bound(rates: Seq<usize>)
    ensures
        0 <= sum(rates) <= rates.len() * usize::MAX,
    decreases rates.len(),
{
    if rates.len() > 0 {
        lemma_sum_bound(rates.drop_last());
        let n = rates.len() as int;
        assert((n - 1) * usize::MAX + usize::MAX == n * usize::MAX) by (nonlinear_arith);
    } else {
        assert(rates.len() * usize::MAX == 0) by (nonlinear_arith)
            requires
                rates.len() == 0,
        ;
    }
}

/// The window after a slide is what is kept of it, and the new rate.
proof fn lemma_slide(rates: Seq<usize>, rate: usize)
    requires
        rates.len() <= WINDOW,
    ensures
        sum(slide(rates, rate)) == rate + sum(
            rates.skip(
                if rates.len() < WINDOW {
                    0
                } else {
                    1
                },
            ),
        ),
{
    if rates.len() < WINDOW {
        assert(slide(rates, rate).drop_last() =~= rates.skip(0));
    } else {
        assert(slide(rates, rate).drop_last() =~= rates.skip(1));
    }
}

/// How many of the sender tasks have not finished.
pub open spec fn alive_of(finished: Seq<bool>) -> nat {
    finished.filter(|f: bool| !f).len()
}

/// How many of the sender tasks have not finished.
pub fn alive(finished: &Vec<bool>) -> (n: usize)
    ensures
        n == alive_of(finished@),
{
    let ghost f = |f: bool| !f;
    let mut n: usize = 0;
    assert(finished@.take(0) =~= seq![]);
    reveal(Seq::filter);
    for k in 0..finished.len()
        invariant
            f == (|f: bool| !f),
            n == finished@.take(k as int).filter(f).len(),
            n <= k,
    {
        reveal(Seq::filter);
        assert(finished@.take(k + 1).drop_last() =~= finished@.take(k as int));
        if !finished[k] {
            n = n + 1;
        }
    }
    assert(finished@.take(finished@.len() as int) =~= finished@);
    n
}

/// Whether a round of sending goes on.
#[derive(Clone, Copy, Debug, PartialEq, Eq)]
pub enum Verdict {
    Continue,
    /// The throughput fell too low.
    TooSlow,
    /// Fewer than half of the sender tasks are left.
    TasksDied,
    /// The round has lasted long enough.
    TimeUp,
}

/// Whether a round of `tasks` sender tasks goes on, given what the last block came to, how many
/// of its tasks are alive and how long it has lasted.
pub open spec fn verdict_of(slow: bool, alive: int, tasks: int, elapsed_nanos: int) -> Verdict {
    if slow {
        Verdict::TooSlow
    } else if alive < tasks / 2 {
        Verdict::TasksDied
    } else if elapsed_nanos > ROUND_NANOS {
        Verdict::TimeUp
    } else {
        Verdict::Continue
    }
}

/// Whether a round of sending goes on.
pub fn verdict(slow: bool, alive: usize, tasks: usize, elapsed_nanos: u128) -> (v: Verdict)
    ensures
        v == verdict_of(slow, alive as int, tasks as int, elapsed_nanos as int),
        v == Verdict::TooSlow <==> slow,
        v == Verdict::TasksDied <==> !slow && 2 * alive + 2 <= tasks,
        v == Verdict::TimeUp <==> !slow && tasks < 2 * alive + 2 && elapsed_nanos
            > 300_000_000_000,
{
    if slow {
        Verdict::TooSlow
    } else if alive < tasks / 2 {
        Verdict::TasksDied
    } else if elapsed_nanos > ROUND_NANOS {
        Verdict::TimeUp
    } else {
        Verdict::Continue
    }
}

impl MonitorView {
    /// The monitor after all of `reports`.
    pub open spec fn run(self, reports: Seq<BlockReport>) -> MonitorView
        decreases reports.len(),
    {
        if reports.len() == 0 {
            self
        } else {
            self.run(reports.drop_last()).next(reports.last())
        }
    }

    /// The rates of `reports`, in order, as the monitor takes them in.
    pub open spec fn rates_of(self, reports: Seq<BlockReport>) -> Seq<usize>
        decreases reports.len(),
    {
        if reports.len() == 0 {
            seq![]
        } else {
            self.rates_of(reports.drop_last()).push(
                self.run(reports.drop_last()).rate(reports.last()) as usize,
            )
        }
    }

    /// The monitor could take in each of `reports` when it came.
    pub open spec fn admits_all(self, reports: Seq<BlockReport>) -> bool
        decreases reports.len(),
    {
        reports.len() == 0 || {
            &&& self.admits_all(reports.drop_last())
            &&& self.run(reports.drop_last()).admits(reports.last())
        }
    }
}

/// The timestamps that blocks set, in order.
pub open spec fn all_stamps(reports: Seq<BlockReport>) -> Seq<u64>
    decreases reports.len(),
{
    if reports.len() == 0 {
        seq![]
    } else {
        all_stamps(reports.drop_last()) + reports.last().stamps()
    }
}

/// The last `WINDOW` of `rates`, or all of them if there are no more.
pub open spec fn last_rates(rates: Seq<usize>) -> Seq<usize> {
    if rates.len() <= WINDOW {
        rates
    } else {
        rates.skip(rates.len() - WINDOW)
    }
}

/// After any blocks of a round, the window holds exactly the rates of the last `WINDOW` of them,
/// in order, or of all of them if there are no more.
pub proof fn law_window_holds_the_last_rates(monitor: MonitorView, reports: Seq<BlockReport>)
    requires
        monitor.rates == Seq::<usize>::empty(),
    ensures
        monitor.run(reports).rates == last_rates(monitor.rates_of(reports)),
        monitor.rates_of(reports).len() == reports.len(),
        monitor.run(reports).target_tps == monitor.target_tps,
    decreases reports.len(),
{
    if reports.len() > 0 {
        law_window_holds_the_last_rates(monitor, reports.drop_last());
        assert(monitor.run(reports).rates =~= last_rates(monitor.rates_of(reports)));
    }
}

/// A round is never ended for its throughput before more than `WINDOW` of its blocks were taken
/// in, whatever they hold; and then it is because the rates of the last `WINDOW` blocks add up to
/// less than a quarter of the target.
pub proof fn law_round_is_slow_by_its_last_blocks(
    monitor: MonitorView,
    reports: Seq<BlockReport>,
    report: BlockReport,
)
    requires
        monitor.rates == Seq::<usize>::empty(),
    ensures
        monitor.run(reports).is_slow(report) <==> {
            &&& reports.len() >= WINDOW
            &&& sum(last_rates(monitor.rates_of(reports.push(report)))) < monitor.target_tps as int
                / 4
        },
{
    let all = reports.push(report);
    assert(all.drop_last() =~= reports);
    law_window_holds_the_last_rates(monitor, reports);
    law_window_holds_the_last_rates(monitor, all);
}

/// Over the blocks of a round the chain's time is that of all their timestamps together, and it
/// never goes back.
pub proof fn law_time_runs_over_blocks(monitor: MonitorView, reports: Seq<BlockReport>)
    requires
        monitor.admits_all(reports),
    ensures
        monitor.clock.runs_forward(all_stamps(reports)),
        monitor.run(reports).clock == monitor.clock.after(all_stamps(reports)),
        monitor.clock.timestamp_ms <= monitor.run(reports).clock.timestamp_ms,
    decreases reports.len(),
{
    if reports.len() > 0 {
        let before = reports.drop_last();
        law_time_runs_over_blocks(monitor, before);
        let first = all_stamps(before);
        let second = reports.last().stamps();
        crate::block::lemma_runs_on(monitor.clock, first, second);
        crate::block::law_clock_is_cumulative(monitor.clock, first, second);
        crate::block::law_clock_is_cumulative(monitor.clock, first + second, seq![]);
        assert(first + second + Seq::<u64>::empty() =~= first + second);
    }
}

/// When a round ends. If it is slow, that is why. If it is not, it ends for want of tasks if and
/// only if fewer than half of them, rounded down, are alive. If neither is so, it ends if and only
/// if it has lasted for more than 300 seconds.
pub proof fn law_round_ends_for_a_reason(slow: bool, alive: int, tasks: int, elapsed_nanos: int)
    requires
        alive >= 0,
        tasks >= 0,
    ensures
        slow <==> verdict_of(slow, alive, tasks, elapsed_nanos) == Verdict::TooSlow,
        !slow && 2 * alive + 2 <= tasks <==> verdict_of(slow, alive, tasks, elapsed_nanos)
            == Verdict::TasksDied,
        !slow && tasks < 2 * alive + 2 && elapsed_nanos > 300_000_000_000 <==> verdict_of(
            slow,
            alive,
            tasks,
            elapsed_nanos,
        ) == Verdict::TimeUp,
        !slow && tasks < 2 * alive + 2 && elapsed_nanos <= 300_000_000_000 <==> verdict_of(
            slow,
            alive,
            tasks,
            elapsed_nanos,
        ) == Verdict::Continue,
        !slow && 2 * alive >= tasks && elapsed_nanos <= 300_000_000_000 ==> verdict_of(
            slow,
            alive,
            tasks,
            elapsed_nanos,
        ) == Verdict::Continue,
{
}

/// Each task that has not finished counts as alive once, and no other does.
pub proof fn law_each_unfinished_task_is_alive(finished: Seq<bool>, done: bool)
    ensures
        alive_of(Seq::<bool>::empty()) == 0,
        done ==> alive_of(finished.push(done)) == alive_of(finished),
        !done ==> alive_of(finished.push(done)) == alive_of(finished) + 1,
{
    reveal(Seq::filter);
    assert(finished.push(done).drop_last() =~= finished);
}

/// The sum of rates is what each of them adds.
pub proof fn law_sum_adds_each_rate(rates: Seq<usize>, rate: usize)
    ensures
        sum(Seq::<usize>::empty()) == 0,
        sum(rates.push(rate)) == sum(rates) + rate,
{
    assert(rates.push(rate).drop_last() =~= rates);
}

/// The average rate is the sum of the rates, divided among all of them and rounded down.
pub proof fn law_average_is_over_the_window(monitor: MonitorView)
    requires
        monitor.rates.len() > 0,
    ensures
        monitor.average() * monitor.rates.len() <= sum(monitor.rates) < (monitor.average() + 1)
            * monitor.rates.len(),
{
    let s = sum(monitor.rates);
    let n = monitor.rates.len() as int;
    assert((s / n) * n <= s < (s / n + 1) * n) by (nonlinear_arith)
        requires
            n > 0,
    ;
}

/// What a block adds to the monitor: its timestamps set the clock, and the rate of its
/// transactions over the block time that the clock then shows, or over six seconds if it shows
/// none, is the newest one of the window.
pub proof fn law_block_adds_its_rate(monitor: MonitorView, report: BlockReport)
    requires
        monitor.rates.len() <= 12,
    ensures
        ({
            let then = monitor.next(report);
            let time = then.clock.block_time_ms;
            let rate = monitor.rate(report);
            &&& then.clock == monitor.clock.after(report.stamps())
            &&& then.target_tps == monitor.target_tps
            &&& time > 0 ==> rate * time <= report.transactions() * 1000 < (rate + 1) * time
            &&& time == 0 ==> rate * 6000 <= report.transactions() * 1000 < (rate + 1) * 6000
            &&& then.rates.len() > 0
            &&& rate <= usize::MAX ==> then.rates.last() == rate
        }),
{
    let transactions = report.transactions() as int;
    let time = monitor.next(report).clock.block_time_ms;
    crate::block::law_rate_is_per_second(transactions, time);
    assert(monitor.rate(report) >= 0) by {
        let d = if time == 0 {
            6000
        } else {
            time as int
        };
        let n = transactions * 1000;
        assert(n / d >= 0) by (nonlinear_arith)
            requires
                n >= 0,
                d > 0,
        ;
    }
}

/// The window holds up to twelve rates. As long as it has room it loses none to a new one, and
/// when it is full it loses the oldest; the others stay in order.
pub proof fn law_window_loses_the_oldest_rate(monitor: MonitorView, report: BlockReport)
    ensures
        ({
            let old_rates = monitor.rates;
            let new_rates = monitor.next(report).rates;
            &&& old_rates.len() < 12 ==> new_rates.len() == old_rates.len() + 1
            &&& old_rates.len() < 12 ==> forall|k: int|
                0 <= k < old_rates.len() ==> #[trigger] new_rates[k] == old_rates[k]
            &&& old_rates.len() == 12 ==> new_rates.len() == 12
            &&& old_rates.len() == 12 ==> forall|k: int|
                0 <= k < 11 ==> #[trigger] new_rates[k] == old_rates[k + 1]
        }),
{
}

/// A round is slow if and only if twelve rates were in the window before the block, and with the
/// block's own they add up to so little that four times the sum, and four more, do not exceed the
/// target.
pub proof fn law_slow_is_below_a_quarter(monitor: MonitorView, report: BlockReport)
    requires
        monitor.rates.len() <= 12,
    ensures
        monitor.is_slow(report) <==> monitor.rates.len() == 12 && 4 * sum(
            monitor.next(report).rates,
        ) + 4 <= monitor.target_tps,
{
}

/// A round begins with an empty window, so that no block before it, and none of its first twelve,
/// ends it for its throughput; the target stays, and the chain's time goes on.
pub proof fn law_round_begins_afresh(
    monitor: MonitorView,
    reports: Seq<BlockReport>,
    report: BlockReport,
)
    ensures
        monitor.new_round().target_tps == monitor.target_tps,
        monitor.new_round().clock == monitor.clock,
        monitor.new_round().rates.len() == 0,
        reports.len() < 12 ==> !monitor.new_round().run(reports).is_slow(report),
{
    law_round_is_slow_by_its_last_blocks(monitor.new_round(), reports, report);
}

/// A block is refused only if the chain's time would go back or a number would not fit: if its
/// timestamps run forward and a thousand times its transactions leave room for the rates of the
/// window, it is taken in, and else as long as a thousand times its transactions and the sum of the
/// window with its rate fit. One whose time goes back is refused.
pub proof fn law_only_backward_time_or_overflow_is_refused(
    monitor: MonitorView,
    report: BlockReport,
)
    requires
        monitor.wf(),
    ensures
        monitor.clock.runs_forward(report.stamps()) && report.transactions() * 1000 + sum(
            monitor.rates,
        ) <= usize::MAX ==> monitor.admits(report),
        monitor.admits(report) ==> monitor.clock.runs_forward(report.stamps()),
        monitor.admits(report) ==> report.transactions() * 1000 <= u64::MAX,
        monitor.admits(report) ==> monitor.next(report).wf(),
        monitor.clock.runs_forward(report.stamps()) && report.transactions() * 1000 <= u64::MAX
            && monitor.next(report).wf() ==> monitor.admits(report),
{
    lemma_sum_bound(monitor.rates);
    let n = report.transactions() as int * 1000;
    let time = monitor.next(report).clock.block_time_ms;
    let d = if time == 0 {
        6000
    } else {
        time as int
    };
    assert(0 <= n / d <= n) by (nonlinear_arith)
        requires
            n >= 0,
            d > 0,
    ;
    let rate = monitor.rate(report) as usize;
    lemma_slide(monitor.rates, rate);
    lemma_sum_skip(monitor.rates);
    assert(monitor.rates.skip(0) =~= monitor.rates);
}

/// Without its first rate a window does not add up to more.
proof fn lemma_sum_skip(rates: Seq<usize>)
    ensures
        rates.len() > 0 ==> sum(rates.skip(1)) <= sum(rates),
    decreases rates.len(),
{
    if rates.len() > 1 {
        lemma_sum_skip(rates.drop_last());
        assert(rates.skip(1).drop_last() =~= rates.drop_last().skip(1));
    } else if rates.len() == 1 {
        assert(rates.skip(1) =~= seq![]);
        assert(sum(rates.drop_last()) == 0);
    }
}

/// A monitor aims for the target of the settings and begins with no rates. Its clock begins at
/// zero, so that it can take in any timestamp first, and the first one counts as the block time.
pub proof fn law_monitor_begins_at_zero(settings: Settings, t: u64)
    ensures
        fresh(settings).target_tps == settings.tps,
        fresh(settings).rates.len() == 0,
        fresh(settings).clock.block_time_ms == 0,
        fresh(settings).clock.runs_forward(seq![t]),
        fresh(settings).clock.after(seq![t]).timestamp_ms == t,
        fresh(settings).clock.after(seq![t]).block_time_ms == t,
{
}

} // verus!
