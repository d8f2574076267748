//! One sender task, as a state machine: it is told what happened and says what to do next.

use vstd::prelude::*;

use crate::account::BlockHash;
use crate::failure::{is_connection_issue, needs_restart};
use crate::payload::{send_payload, AccountKey, Payload};
use crate::plan::{ramp_delay_ms, receivers, Settings};

verus! {

/// How many transactions more than the chain has included may be under way before a sender
/// holds back.
pub const BACKLOG_LIMIT: u64 = 100_000;

/// How long a sender that holds back waits before it looks again.
pub const THROTTLE_MS: u64 = 10;

/// How long a sender waits before it asks for its first nonce again.
pub const FIRST_NONCE_RETRY_MS: u64 = 1_000;

/// How long a sender waits after a submission that failed for the sake of the connection.
pub const RECONNECT_MS: u64 = 2_000;

/// How long a sender waits after it could not refresh its nonce.
pub const REFRESH_RETRY_MS: u64 = 5_000;

/// What a sender is waiting for.
#[derive(Clone, Copy, Debug, PartialEq, Eq)]
pub enum Phase {
    /// The end of its ramp-up delay.
    Ramping,
    /// The best block, for its first nonce or a later one.
    Locating { first: bool },
    /// Its first nonce, as of this block.
    FirstNonce { block: BlockHash },
    /// The end of the pause before it asks for its first nonce again.
    FirstNonceBackoff { block: BlockHash },
    /// A reading of the backlog.
    Gate,
    /// The end of the pause because of the backlog.
    Throttled,
    /// The end of the pause that keeps its rate.
    Pacing,
    /// The outcome of a submission.
    Submitting,
    /// The end of the pause because of the connection.
    Reconnecting,
    /// A new nonce after a failed submission.
    Refreshing,
    /// The end of the pause after a nonce could not be refreshed.
    RefreshBackoff,
    /// The time that the submission took.
    Settling,
    /// Nothing: the task has ended.
    Stopped,
}

/// What happened.
#[derive(Debug, PartialEq, Eq)]
pub enum WorkerEvent {
    /// The pause that was asked for is over.
    Woke,
    /// The best block has this hash.
    Best(BlockHash),
    /// The nonce of the sender's account, or the text of the error.
    Nonce(Result<u64, String>),
    /// How many transfers were sent, and how many transactions the chain has included.
    Backlog { sent: u64, in_block: u64 },
    /// The node took the transaction.
    Accepted,
    /// The node did not take the transaction; the text of the error.
    Rejected(String),
    /// The milliseconds since the submission began.
    Elapsed(u128),
}

/// What to do next.
#[derive(Clone, Copy, Debug, PartialEq, Eq)]
pub enum WorkerAction {
    /// Pause for so many milliseconds.
    Sleep(u64),
    /// Tell the best block.
    ReadBest,
    /// Look up the account's nonce at this block.
    FetchNonce { block: BlockHash },
    /// Read the two counters of the backlog.
    ReadBacklog,
    /// Start the clock, then submit the sender's transaction with this nonce.
    Submit { nonce: u64 },
    /// Count so many transfers as sent, then read the clock.
    CountSent(u64),
    /// Read the clock.
    ReadClock,
    /// End the task.
    Exit,
}

/// The model of a `Worker`.
pub ghost struct WorkerView {
    /// The accounts that it sends to.
    pub receivers: Seq<AccountKey>,
    /// The batch size asked for.
    pub batch: usize,
    /// The time from one submission to the next.
    pub worker_sleep_ms: u64,
    pub phase: Phase,
    /// The nonce of the next submission.
    pub nonce: u64,
    /// What is left to wait before the next submission.
    pub sleep_ms: u64,
}

/// Whether a sender holds back.
pub open spec fn backlog_too_high(sent: u64, in_block: u64) -> bool {
    sent > in_block + BACKLOG_LIMIT
}

/// `a` less `b`, but not below zero.
pub open spec fn less(a: int, b: int) -> int {
    if a > b {
        a - b
    } else {
        0
    }
}

/// What is left of `worker_sleep_ms` after `elapsed_ms`, of which the low 64 bits count.
pub open spec fn rest_of(worker_sleep_ms: u64, elapsed_ms: u128) -> u64 {
    less(worker_sleep_ms as int, elapsed_ms as int % 0x1_0000_0000_0000_0000) as u64
}

impl WorkerView {
    pub open spec fn wf(self) -> bool {
        &&& 0 < self.receivers.len() <= u64::MAX
        &&& self.batch <= 1 ==> self.receivers.len() == 1
        &&& self.sleep_ms <= self.worker_sleep_ms
    }

    pub open spec fn at(self, phase: Phase) -> WorkerView {
        WorkerView { phase, ..self }
    }

    /// The transaction that the sender submits.
    pub open spec fn payload(self) -> crate::payload::PayloadView {
        crate::payload::send_payload_view(self.batch as int, self.receivers)
    }

    /// The sender can take in `event` now.
    pub open spec fn accepts(self, event: WorkerEvent) -> bool {
        match event {
            WorkerEvent::Woke => {
                ||| self.phase == Phase::Ramping
                ||| self.phase is FirstNonceBackoff
                ||| self.phase == Phase::Throttled
                ||| self.phase == Phase::Pacing
                ||| self.phase == Phase::Reconnecting
                ||| self.phase == Phase::RefreshBackoff
            },
            WorkerEvent::Best(_) => self.phase is Locating,
            WorkerEvent::Nonce(_) => self.phase is FirstNonce || self.phase == Phase::Refreshing,
            WorkerEvent::Backlog { sent, in_block } => self.phase == Phase::Gate && in_block
                + BACKLOG_LIMIT <= u64::MAX,
            WorkerEvent::Accepted => self.phase == Phase::Submitting && self.nonce < u64::MAX,
            WorkerEvent::Rejected(_) => self.phase == Phase::Submitting,
            WorkerEvent::Elapsed(_) => self.phase == Phase::Settling,
        }
    }

    /// The sender after a pause, and what it does then.
    pub open spec fn after_pause(self) -> (WorkerView, WorkerAction) {
        match self.phase {
            Phase::Throttled => (
                WorkerView {
                    sleep_ms: less(self.sleep_ms as int, THROTTLE_MS as int) as u64,
                    ..self.at(Phase::Gate)
                },
                WorkerAction::ReadBacklog,
            ),
            Phase::Pacing => (
                self.at(Phase::Submitting),
                WorkerAction::Submit { nonce: self.nonce },
            ),
            Phase::FirstNonceBackoff { block } => (
                self.at(Phase::FirstNonce { block }),
                WorkerAction::FetchNonce { block },
            ),
            Phase::Reconnecting => (
                self.at(Phase::Locating { first: false }),
                WorkerAction::ReadBest,
            ),
            Phase::RefreshBackoff => (
                WorkerView { nonce: 0, ..self.at(Phase::Settling) },
                WorkerAction::ReadClock,
            ),
            _ => (self.at(Phase::Locating { first: true }), WorkerAction::ReadBest),
        }
    }

    /// The sender after the best block was told, and what it does then: it looks up its nonce
    /// there, and remembers the block if it is its first nonce.
    pub open spec fn after_best(self, block: BlockHash) -> (WorkerView, WorkerAction) {
        (
            self.at(
                if self.phase == (Phase::Locating { first: true }) {
                    Phase::FirstNonce { block }
                } else {
                    Phase::Refreshing
                },
            ),
            WorkerAction::FetchNonce { block },
        )
    }

    /// The sender after a lookup of its nonce, and what it does then.
    pub open spec fn after_nonce(self, outcome: Result<u64, String>) -> (
        WorkerView,
        WorkerAction,
    ) {
        match outcome {
            Ok(nonce) => if self.phase is FirstNonce {
                (WorkerView { nonce, ..self.at(Phase::Gate) }, WorkerAction::ReadBacklog)
            } else {
                (WorkerView { nonce, ..self.at(Phase::Settling) }, WorkerAction::ReadClock)
            },
            Err(error) => if crate::failure::asks_for_restart(error@) {
                (self.at(Phase::Stopped), WorkerAction::Exit)
            } else {
                match self.phase {
                    Phase::FirstNonce { block } => (
                        self.at(Phase::FirstNonceBackoff { block }),
                        WorkerAction::Sleep(FIRST_NONCE_RETRY_MS),
                    ),
                    _ => (
                        self.at(Phase::RefreshBackoff),
                        WorkerAction::Sleep(REFRESH_RETRY_MS),
                    ),
                }
            },
        }
    }

    /// The sender after a failed submission, and what it does then.
    pub open spec fn after_rejection(self, error: Seq<char>) -> (WorkerView, WorkerAction) {
        if crate::failure::asks_for_restart(error) {
            (self.at(Phase::Stopped), WorkerAction::Exit)
        } else if crate::failure::blames_connection(error) {
            (self.at(Phase::Reconnecting), WorkerAction::Sleep(RECONNECT_MS))
        } else {
            (self.at(Phase::Locating { first: false }), WorkerAction::ReadBest)
        }
    }

    /// The sender after `event`, and what it does then.
    pub open spec fn next(self, event: WorkerEvent) -> (WorkerView, WorkerAction) {
        match event {
            WorkerEvent::Woke => self.after_pause(),
            WorkerEvent::Best(block) => self.after_best(block),
            WorkerEvent::Nonce(outcome) => self.after_nonce(outcome),
            WorkerEvent::Backlog { sent, in_block } => if backlog_too_high(sent, in_block) {
                (self.at(Phase::Throttled), WorkerAction::Sleep(THROTTLE_MS))
            } else {
                (self.at(Phase::Pacing), WorkerAction::Sleep(self.sleep_ms))
            },
            WorkerEvent::Accepted => (
                WorkerView { nonce: (self.nonce + 1) as u64, ..self.at(Phase::Settling) },
                WorkerAction::CountSent(self.receivers.len() as u64),
            ),
            WorkerEvent::Rejected(error) => self.after_rejection(error@),
            WorkerEvent::Elapsed(ms) => (
                WorkerView {
                    sleep_ms: rest_of(self.worker_sleep_ms, ms),
                    ..self.at(Phase::Gate)
                },
                WorkerAction::ReadBacklog,
            ),
        }
    }
}

/// Task `index` of those that `settings` asks for, as it begins.
pub open spec fn starting(
    settings: Settings,
    index: int,
    accounts: Seq<AccountKey>,
    worker_sleep_ms: u64,
) -> WorkerView {
    WorkerView {
        receivers: crate::plan::receivers_of(
            index,
            crate::plan::wanted_receivers(settings),
            accounts,
        ),
        batch: settings.batch,
        worker_sleep_ms,
        phase: Phase::Ramping,
        nonce: 0,
        sleep_ms: 0,
    }
}

/// A sender task.
#[derive(Debug)]
pub struct Worker {
    receivers: Vec<AccountKey>,
    batch: usize,
    worker_sleep_ms: u64,
    phase: Phase,
    nonce: u64,
    sleep_ms: u64,
}

impl View for Worker {
    type V = WorkerView;

    closed spec fn view(&self) -> WorkerView {
        WorkerView {
            receivers: self.receivers@,
            batch: self.batch,
            worker_sleep_ms: self.worker_sleep_ms,
            phase: self.phase,
            nonce: self.nonce,
            sleep_ms: self.sleep_ms,
        }
    }
}

impl Worker {
    /// Task `index` of those that `settings` asks for, with its share of the receiver accounts,
    /// and the pause with which it begins.
    pub fn new(
        settings: &Settings,
        index: usize,
        accounts: &Vec<AccountKey>,
        worker_sleep_ms: u64,
    ) -> (r: (Worker, WorkerAction))
        requires
            index < crate::plan::sender_tasks_of(*settings),
            accounts@.len() > 0,
            crate::plan::first_receiver(index as int, accounts@.len() as int)
                + crate::plan::wanted_receivers(*settings) <= usize::MAX,
        ensures
            r.0@.wf(),
            r.0@ == (WorkerView {
                receivers: crate::plan::receivers_of(
                    index as int,
                    crate::plan::wanted_receivers(*settings),
                    accounts@,
                ),
                batch: settings.batch,
                worker_sleep_ms,
                phase: Phase::Ramping,
                nonce: 0,
                sleep_ms: 0,
            }),
            r.1 == WorkerAction::Sleep(
                ((crate::plan::sender_tasks_of(*settings) - index) * crate::plan::RAMP_SLOT_MS) as u64,
            ),
            r.0@ == starting(*settings, index as int, accounts@, worker_sleep_ms),
            r.1 matches WorkerAction::Sleep(ms) && ms == crate::plan::ramp_delay_of(
                crate::plan::sender_tasks_of(*settings),
                index as int,
            ),
    {
        let tasks: usize = settings.sender_tasks();
        let delay: u64 = ramp_delay_ms(tasks, index);
        let wanted: usize = settings.receivers_per_task();
        let mine = receivers(index, wanted, accounts);
        proof {
            crate::plan::law_receivers_lie_within_accounts(
                index as int,
                wanted as int,
                accounts@,
            );
        }
        let w = Worker {
            receivers: mine,
            batch: settings.batch,
            worker_sleep_ms,
            phase: Phase::Ramping,
            nonce: 0,
            sleep_ms: 0,
        };
        (w, WorkerAction::Sleep(delay))
    }

    /// The transaction that this sender submits, each time the same but for the nonce.
    pub fn payload(&self) -> (p: Payload)
        requires
            self@.wf(),
        ensures
            p@ == crate::payload::send_payload_view(self@.batch as int, self@.receivers),
            p@ == self@.payload(),
    {
        send_payload(self.batch, &self.receivers)
    }

    /// Whether the sender can take in `event` now.
    pub fn accepts(&self, event: &WorkerEvent) -> (yes: bool)
        ensures
            yes == self@.accepts(*event),
    {
        match event {
            WorkerEvent::Woke => match self.phase {
                Phase::Ramping
                | Phase::FirstNonceBackoff { .. }
                | Phase::Throttled
                | Phase::Pacing
                | Phase::Reconnecting
                | Phase::RefreshBackoff => true,
                _ => false,
            },
            WorkerEvent::Best(_) => match self.phase {
                Phase::Locating { .. } => true,
                _ => false,
            },
            WorkerEvent::Nonce(_) => match self.phase {
                Phase::FirstNonce { .. } | Phase::Refreshing => true,
                _ => false,
            },
            WorkerEvent::Backlog { sent: _, in_block } => match self.phase {
                Phase::Gate => *in_block <= u64::MAX - BACKLOG_LIMIT,
                _ => false,
            },
            WorkerEvent::Accepted => match self.phase {
                Phase::Submitting => self.nonce < u64::MAX,
                _ => false,
            },
            WorkerEvent::Rejected(_) => match self.phase {
                Phase::Submitting => true,
                _ => false,
            },
            WorkerEvent::Elapsed(_) => match self.phase {
                Phase::Settling => true,
                _ => false,
            },
        }
    }

    fn after_pause(&mut self) -> (action: WorkerAction)
        ensures
            (final(self)@, action) == old(self)@.after_pause(),
    {
        match self.phase {
            Phase::Throttled => {
                self.sleep_ms = self.sleep_ms.saturating_sub(THROTTLE_MS);
                self.phase = Phase::Gate;
                WorkerAction::ReadBacklog
            },
            Phase::Pacing => {
                self.phase = Phase::Submitting;
                WorkerAction::Submit { nonce: self.nonce }
            },
            Phase::FirstNonceBackoff { block } => {
                self.phase = Phase::FirstNonce { block };
                WorkerAction::FetchNonce { block }
            },
            Phase::Reconnecting => {
                self.phase = Phase::Locating { first: false };
                WorkerAction::ReadBest
            },
            Phase::RefreshBackoff => {
                self.nonce = 0;
                self.phase = Phase::Settling;
                WorkerAction::ReadClock
            },
            _ => {
                self.phase = Phase::Locating { first: true };
                WorkerAction::ReadBest
            },
        }
    }

    fn after_best(&mut self, block: BlockHash) -> (action: WorkerAction)
        ensures
            (final(self)@, action) == old(self)@.after_best(block),
    {
        self.phase = match self.phase {
            Phase::Locating { first: true } => Phase::FirstNonce { block },
            _ => Phase::Refreshing,
        };
        WorkerAction::FetchNonce { block }
    }

    fn after_nonce(&mut self, outcome: &Result<u64, String>) -> (action: WorkerAction)
        ensures
            (final(self)@, action) == old(self)@.after_nonce(*outcome),
    {
        match outcome {
            Ok(nonce) => {
                self.nonce = *nonce;
                match self.phase {
                    Phase::FirstNonce { .. } => {
                        self.phase = Phase::Gate;
                        WorkerAction::ReadBacklog
                    },
                    _ => {
                        self.phase = Phase::Settling;
                        WorkerAction::ReadClock
                    },
                }
            },
            Err(error) => {
                if needs_restart(error.as_str()) {
                    self.phase = Phase::Stopped;
                    return WorkerAction::Exit;
                }
                match self.phase {
                    Phase::FirstNonce { block } => {
                        self.phase = Phase::FirstNonceBackoff { block };
                        WorkerAction::Sleep(FIRST_NONCE_RETRY_MS)
                    },
                    _ => {
                        self.phase = Phase::RefreshBackoff;
                        WorkerAction::Sleep(REFRESH_RETRY_MS)
                    },
                }
            },
        }
    }

    fn after_rejection(&mut self, error: &str) -> (action: WorkerAction)
        ensures
            (final(self)@, action) == old(self)@.after_rejection(error@),
    {
        if needs_restart(error) {
            self.phase = Phase::Stopped;
            WorkerAction::Exit
        } else if is_connection_issue(error) {
            self.phase = Phase::Reconnecting;
            WorkerAction::Sleep(RECONNECT_MS)
        } else {
            self.phase = Phase::Locating { first: false };
            WorkerAction::ReadBest
        }
    }

    /// Takes in what happened and says what to do next.
    pub fn step(&mut self, event: WorkerEvent) -> (action: WorkerAction)
        requires
            old(self)@.wf(),
            old(self)@.accepts(event),
        ensures
            final(self)@.wf(),
            (final(self)@, action) == old(self)@.next(event),
    {
        match event {
            WorkerEvent::Woke => self.after_pause(),
            WorkerEvent::Best(block) => self.after_best(block),
            WorkerEvent::Nonce(outcome) => self.after_nonce(&outcome),
            WorkerEvent::Backlog { sent, in_block } => {
                if sent > in_block + BACKLOG_LIMIT {
                    self.phase = Phase::Throttled;
                    WorkerAction::Sleep(THROTTLE_MS)
                } else {
                    self.phase = Phase::Pacing;
                    WorkerAction::Sleep(self.sleep_ms)
                }
            },
            WorkerEvent::Accepted => {
                self.nonce = self.nonce + 1;
                self.phase = Phase::Settling;
                WorkerAction::CountSent(self.receivers.len() as u64)
            },
            WorkerEvent::Rejected(error) => self.after_rejection(error.as_str()),
            WorkerEvent::Elapsed(ms) => {
                assert(ms as u64 == ms % 0x1_0000_0000_0000_0000) by (bit_vector);
                let taken: u64 = #[verifier::truncate]
                (ms as u64);
                self.sleep_ms = self.worker_sleep_ms.saturating_sub(taken);
                self.phase = Phase::Gate;
                WorkerAction::ReadBacklog
            },
        }
    }
}

impl WorkerView {
    /// The sender after all of `events`.
    pub open spec fn run(self, events: Seq<WorkerEvent>) -> WorkerView
        decreases events.len(),
    {
        if events.len() == 0 {
            self
        } else {
            self.run(events.drop_last()).next(events.last()).0
        }
    }

    /// The sender could take in each of `events` when it happened.
    pub open spec fn accepts_all(self, events: Seq<WorkerEvent>) -> bool
        decreases events.len(),
    {
        events.len() == 0 || {
            &&& self.accepts_all(events.drop_last())
            &&& self.run(events.drop_last()).accepts(events.last())
        }
    }

    /// How many transfers the sender had counted as sent in the course of `events`.
    pub open spec fn counted(self, events: Seq<WorkerEvent>) -> int
        decreases events.len(),
    {
        if events.len() == 0 {
            0
        } else {
            self.counted(events.drop_last()) + match self.run(events.drop_last()).next(
                events.last(),
            ).1 {
                WorkerAction::CountSent(n) => n as int,
                _ => 0,
            }
        }
    }
}

impl WorkerView {
    /// How long the sender was told to pause, in milliseconds, in the course of `events`.
    pub open spec fn slept(self, events: Seq<WorkerEvent>) -> int
        decreases events.len(),
    {
        if events.len() == 0 {
            0
        } else {
            self.slept(events.drop_last()) + match self.run(events.drop_last()).next(
                events.last(),
            ).1 {
                WorkerAction::Sleep(ms) => ms as int,
                _ => 0,
            }
        }
    }
}

/// How many of `events` say that the node took a transaction.
pub open spec fn accepted(events: Seq<WorkerEvent>) -> int
    decreases events.len(),
{
    if events.len() == 0 {
        0
    } else {
        accepted(events.drop_last()) + if events.last() is Accepted {
            1int
        } else {
            0
        }
    }
}

/// A lookup of the nonce has come back.
pub open spec fn lookups() -> spec_fn(WorkerEvent) -> bool {
    |event: WorkerEvent| event is Nonce
}

/// A lookup of the nonce has come back with a nonce.
pub open spec fn successful_lookups() -> spec_fn(WorkerEvent) -> bool {
    |event: WorkerEvent| event matches WorkerEvent::Nonce(outcome) && outcome is Ok
}

/// Whatever happens, a sender stays with its receivers and its rate, and what it still has to
/// wait never exceeds the time from one submission to the next.
pub proof fn law_worker_keeps_its_share(w: WorkerView, events: Seq<WorkerEvent>)
    requires
        w.wf(),
        w.accepts_all(events),
    ensures
        w.run(events).wf(),
        w.run(events).receivers == w.receivers,
        w.run(events).batch == w.batch,
        w.run(events).worker_sleep_ms == w.worker_sleep_ms,
    decreases events.len(),
{
    if events.len() > 0 {
        law_worker_keeps_its_share(w, events.drop_last());
    }
}

/// Until a sender looks its nonce up again, its submissions carry consecutive nonces: each carries
/// the nonce that the sender started from, plus the number of transactions that the node has
/// taken since.
pub proof fn law_nonces_are_consecutive(w: WorkerView, events: Seq<WorkerEvent>)
    requires
        w.phase != Phase::RefreshBackoff,
        w.accepts_all(events),
        crate::trace::none_is(events, lookups()),
    ensures
        w.run(events).nonce == w.nonce + accepted(events),
        w.run(events).phase == Phase::Pacing ==> w.run(events).next(WorkerEvent::Woke).1
            == (WorkerAction::Submit { nonce: (w.nonce + accepted(events)) as u64 }),
    decreases events.len(),
{
    lemma_no_backoff_without_lookup(w, events);
    if events.len() > 0 {
        let before = events.drop_last();
        crate::trace::lemma_none_is_before(events, lookups());
        law_nonces_are_consecutive(w, before);
        lemma_no_backoff_without_lookup(w, before);
    }
}

/// A nonce that was looked up is the one that the next submission carries, and the ones after it
/// count on from there.
pub proof fn law_looked_up_nonce_is_used(w: WorkerView, nonce: u64, events: Seq<WorkerEvent>)
    requires
        w.accepts(WorkerEvent::Nonce(Ok(nonce))),
        w.next(WorkerEvent::Nonce(Ok(nonce))).0.accepts_all(events),
        crate::trace::none_is(events, lookups()),
    ensures
        ({
            let later = w.next(WorkerEvent::Nonce(Ok(nonce))).0.run(events);
            later.phase == Phase::Pacing ==> later.next(WorkerEvent::Woke).1 == (
            WorkerAction::Submit { nonce: (nonce + accepted(events)) as u64 })
        }),
{
    law_nonces_are_consecutive(w.next(WorkerEvent::Nonce(Ok(nonce))).0, events);
}

proof fn lemma_no_backoff_without_lookup(w: WorkerView, events: Seq<WorkerEvent>)
    requires
        w.phase != Phase::RefreshBackoff,
        w.accepts_all(events),
        crate::trace::none_is(events, lookups()),
    ensures
        w.run(events).phase != Phase::RefreshBackoff,
    decreases events.len(),
{
    if events.len() > 0 {
        let before = events.drop_last();
        crate::trace::lemma_none_is_before(events, lookups());
        lemma_no_backoff_without_lookup(w, before);
    }
}

/// Until a sender has its first nonce, it asks for it at one block, however often it has to ask.
pub proof fn law_first_nonce_is_asked_for_at_one_block(
    w: WorkerView,
    block: BlockHash,
    events: Seq<WorkerEvent>,
)
    requires
        w.phase == (Phase::FirstNonce { block }),
        w.accepts_all(events),
        crate::trace::none_is(events, successful_lookups()),
    ensures
        ({
            let later = w.run(events);
            ||| later.phase == (Phase::FirstNonce { block })
            ||| later.phase == (Phase::FirstNonceBackoff { block }) && later.next(
                WorkerEvent::Woke,
            ).1 == (WorkerAction::FetchNonce { block })
            ||| later.phase == Phase::Stopped
        }),
    decreases events.len(),
{
    if events.len() > 0 {
        crate::trace::lemma_none_is_before(events, successful_lookups());
        law_first_nonce_is_asked_for_at_one_block(w, block, events.drop_last());
    }
}

/// A sender counts transfers as sent for the transactions that the node took and for no others,
/// and for each of those it counts one transfer per receiver.
pub proof fn law_only_accepted_transfers_count(w: WorkerView, events: Seq<WorkerEvent>)
    requires
        w.wf(),
        w.accepts_all(events),
    ensures
        w.counted(events) == accepted(events) * w.receivers.len(),
    decreases events.len(),
{
    if events.len() > 0 {
        let before = events.drop_last();
        law_only_accepted_transfers_count(w, before);
        law_worker_keeps_its_share(w, before);
        let n = w.receivers.len() as int;
        let a = accepted(before);
        assert((a + 1) * n == a * n + n) by (nonlinear_arith);
    }
}

/// What a sender counts as sent for an accepted transaction is the number of transfers that the
/// transaction makes.
pub proof fn law_count_is_what_is_sent(w: WorkerView)
    requires
        w.wf(),
    ensures
        w.next(WorkerEvent::Accepted).1 == WorkerAction::CountSent(
            crate::payload::send_payload_view(w.batch as int, w.receivers).transfers().len() as u64,
        ),
{
    crate::payload::law_send_payload_pays_a_prefix(w.batch as int, w.receivers);
}

/// The outcome of a submission.
pub open spec fn outcomes() -> spec_fn(WorkerEvent) -> bool {
    |event: WorkerEvent| event is Accepted || event is Rejected
}

/// A reading of the backlog that makes a sender hold back.
pub open spec fn holdups() -> spec_fn(WorkerEvent) -> bool {
    |event: WorkerEvent|
        event matches WorkerEvent::Backlog { sent, in_block } && sent > in_block + 100_000
}

/// From the reading of the clock after one submission to the next one, the pauses of a sender
/// make up for what the first submission left of the time that its rate asks for, and the pauses
/// because of the backlog count towards it: no two submissions begin closer to each other than
/// `worker_sleep_ms`.
pub proof fn law_submissions_keep_their_distance(
    w: WorkerView,
    ms: u128,
    events: Seq<WorkerEvent>,
)
    requires
        w.phase == Phase::Settling,
        ms <= u64::MAX,
        w.next(WorkerEvent::Elapsed(ms)).0.accepts_all(events),
        crate::trace::none_is(events, outcomes()),
        w.next(WorkerEvent::Elapsed(ms)).0.run(events).phase == Phase::Submitting,
    ensures
        ms + w.next(WorkerEvent::Elapsed(ms)).0.slept(events) >= w.worker_sleep_ms,
{
    lemma_pauses_make_up(w.next(WorkerEvent::Elapsed(ms)).0, events);
}

/// On its way to a submission, what a sender has paused and what it still has to wait never come
/// to less than what it had to wait.
proof fn lemma_pauses_make_up(w: WorkerView, events: Seq<WorkerEvent>)
    requires
        w.phase == Phase::Gate,
        w.accepts_all(events),
        crate::trace::none_is(events, outcomes()),
    ensures
        match w.run(events).phase {
            Phase::Gate => w.slept(events) + w.run(events).sleep_ms >= w.sleep_ms,
            Phase::Throttled => w.slept(events) + less(
                w.run(events).sleep_ms as int,
                THROTTLE_MS as int,
            ) >= w.sleep_ms,
            Phase::Pacing | Phase::Submitting => w.slept(events) >= w.sleep_ms,
            _ => false,
        },
    decreases events.len(),
{
    if events.len() > 0 {
        crate::trace::lemma_none_is_before(events, outcomes());
        lemma_pauses_make_up(w, events.drop_last());
    }
}

/// As long as the backlog does not make it hold back, a sender keeps its rate exactly: from one
/// submission to the next it pauses for just what the first one left of `worker_sleep_ms`.
pub proof fn law_free_sender_keeps_its_rate(w: WorkerView, ms: u128, events: Seq<WorkerEvent>)
    requires
        w.phase == Phase::Settling,
        ms <= u64::MAX,
        w.next(WorkerEvent::Elapsed(ms)).0.accepts_all(events),
        crate::trace::none_is(events, outcomes()),
        crate::trace::none_is(events, holdups()),
        w.next(WorkerEvent::Elapsed(ms)).0.run(events).phase == Phase::Submitting,
    ensures
        w.next(WorkerEvent::Elapsed(ms)).0.slept(events) == if ms < w.worker_sleep_ms {
            w.worker_sleep_ms - ms
        } else {
            0
        },
{
    lemma_free_pauses(w.next(WorkerEvent::Elapsed(ms)).0, events);
}

/// On its way to a submission without a holdup, a sender pauses once, for what it had to wait.
proof fn lemma_free_pauses(w: WorkerView, events: Seq<WorkerEvent>)
    requires
        w.phase == Phase::Gate,
        w.accepts_all(events),
        crate::trace::none_is(events, outcomes()),
        crate::trace::none_is(events, holdups()),
    ensures
        match w.run(events).phase {
            Phase::Gate => w.slept(events) == 0 && w.run(events).sleep_ms == w.sleep_ms,
            Phase::Pacing | Phase::Submitting => w.slept(events) == w.sleep_ms,
            _ => false,
        },
    decreases events.len(),
{
    if events.len() > 0 {
        crate::trace::lemma_none_is_before(events, outcomes());
        crate::trace::lemma_none_is_before(events, holdups());
        lemma_free_pauses(w, events.drop_last());
    }
}

/// A sender submits only right after a reading of the backlog that is within the limit: if it is
/// about to submit, the last thing that happened was such a reading.
pub proof fn law_no_submission_over_the_limit(w: WorkerView, events: Seq<WorkerEvent>)
    requires
        w.accepts_all(events),
        events.len() > 0,
        w.run(events).next(WorkerEvent::Woke).1 is Submit,
    ensures
        events.last() matches WorkerEvent::Backlog { sent, in_block } && sent <= in_block
            + 100_000,
{
    let before = w.run(events.drop_last());
    assert(before.accepts(events.last()));
}

/// After a failed submission a sender does not submit again before it has looked its nonce up:
/// as long as no lookup has come back, no submission is made.
pub proof fn law_rejection_forces_a_lookup(
    w: WorkerView,
    error: String,
    events: Seq<WorkerEvent>,
)
    requires
        w.accepts(WorkerEvent::Rejected(error)),
        w.next(WorkerEvent::Rejected(error)).0.accepts_all(events),
        crate::trace::none_is(events, lookups()),
    ensures
        ({
            let later = w.next(WorkerEvent::Rejected(error)).0.run(events);
            ||| later.phase == Phase::Reconnecting
            ||| later.phase == (Phase::Locating { first: false })
            ||| later.phase == Phase::Refreshing
            ||| later.phase == Phase::Stopped
        }),
    decreases events.len(),
{
    if events.len() > 0 {
        let before = events.drop_last();
        crate::trace::lemma_none_is_before(events, lookups());
        law_rejection_forces_a_lookup(w, error, before);
    }
}

/// An error that says that the connection is gone ends the task, wherever it comes up, and a task
/// that has ended takes in nothing more.
pub proof fn law_restart_error_ends_the_task(w: WorkerView, event: WorkerEvent, error: String)
    requires
        w.accepts(event),
        event == WorkerEvent::Rejected(error) || event == WorkerEvent::Nonce(Err(error)),
        crate::failure::asks_for_restart(error@),
    ensures
        w.next(event).1 == WorkerAction::Exit,
        forall|later: WorkerEvent| !(#[trigger] w.next(event).0.accepts(later)),
{
}

/// A sender ends only on an error that says that the connection is gone.
pub proof fn law_only_restart_errors_end_the_task(w: WorkerView, event: WorkerEvent)
    requires
        w.accepts(event),
        w.next(event).1 == WorkerAction::Exit,
    ensures
        event matches WorkerEvent::Rejected(error) ==> crate::failure::asks_for_restart(error@),
        event matches WorkerEvent::Nonce(outcome) ==> (outcome matches Err(error)
            && crate::failure::asks_for_restart(error@)),
        event is Rejected || event is Nonce,
{
}

/// A sender holds back while more than 100,000 of the transfers that were sent are not yet
/// included, and only then. If it does not hold back, it pauses for what is left to wait and then
/// submits; if it does, it looks again after 10 ms, which count towards what is left to wait.
pub proof fn law_only_the_backlog_holds_a_sender_back(w: WorkerView, sent: u64, in_block: u64)
    requires
        w.phase == Phase::Gate,
        in_block + 100_000 <= u64::MAX,
    ensures
        ({
            let reading = WorkerEvent::Backlog { sent, in_block };
            let then = w.next(reading).0;
            let later = then.next(WorkerEvent::Woke);
            &&& w.accepts(reading)
            &&& then.accepts(WorkerEvent::Woke)
            &&& sent <= in_block + 100_000 ==> {
                &&& then.phase == Phase::Pacing
                &&& w.next(reading).1 == WorkerAction::Sleep(w.sleep_ms)
                &&& later.0.phase == Phase::Submitting
                &&& later.1 == (WorkerAction::Submit { nonce: w.nonce })
                &&& later.0.nonce == w.nonce
            }
            &&& sent > in_block + 100_000 ==> {
                &&& then.phase == Phase::Throttled
                &&& w.next(reading).1 == WorkerAction::Sleep(10)
                &&& later.0.phase == Phase::Gate
                &&& later.1 == WorkerAction::ReadBacklog
                &&& later.0.nonce == w.nonce
                &&& w.sleep_ms >= 10 ==> later.0.sleep_ms + 10 == w.sleep_ms
                &&& w.sleep_ms < 10 ==> later.0.sleep_ms == 0
            }
        }),
{
}

/// A sender looks its nonce up at the very block that it was told, the first time and each time
/// after; and it keeps to that block as long as it waits for its first nonce.
pub proof fn law_nonce_is_looked_up_at_the_best_block(w: WorkerView, block: BlockHash, first: bool)
    requires
        w.phase == (Phase::Locating { first }),
    ensures
        w.accepts(WorkerEvent::Best(block)),
        w.next(WorkerEvent::Best(block)).1 is FetchNonce,
        w.next(WorkerEvent::Best(block)).1->FetchNonce_block == block,
        forall|k: int|
            0 <= k < 32 ==> #[trigger] w.next(
                WorkerEvent::Best(block),
            ).1->FetchNonce_block@[k] == block@[k],
        first ==> w.next(WorkerEvent::Best(block)).0.phase == (Phase::FirstNonce { block }),
        !first ==> w.next(WorkerEvent::Best(block)).0.phase == Phase::Refreshing,
        w.next(WorkerEvent::Best(block)).0.nonce == w.nonce,
        w.next(WorkerEvent::Best(block)).0.sleep_ms == w.sleep_ms,
{
}

/// What a lookup of the nonce leads to. A nonce is taken over as it is. With its first nonce a
/// sender goes on to send, and with a later one it first works out how long to wait. A failed
/// lookup of the first nonce is repeated at the same block after a second; after a failed lookup
/// of a later one a sender waits for five seconds and then counts from zero.
pub proof fn law_lookup_decides_the_nonce(w: WorkerView, nonce: u64, error: String)
    requires
        w.phase is FirstNonce || w.phase == Phase::Refreshing,
        !crate::failure::asks_for_restart(error@),
    ensures
        ({
            let found = w.next(WorkerEvent::Nonce(Ok(nonce)));
            let failed = w.next(WorkerEvent::Nonce(Err(error)));
            let later = failed.0.next(WorkerEvent::Woke);
            &&& found.0.nonce == nonce
            &&& found.0.sleep_ms == w.sleep_ms
            &&& later.0.sleep_ms == w.sleep_ms
            &&& failed.0.accepts(WorkerEvent::Woke)
            &&& w.phase matches Phase::FirstNonce { block } ==> {
                &&& found.0.phase == Phase::Gate
                &&& found.1 == WorkerAction::ReadBacklog
                &&& failed.1 == WorkerAction::Sleep(1_000)
                &&& later.0.phase == (Phase::FirstNonce { block })
                &&& later.1 == (WorkerAction::FetchNonce { block })
            }
            &&& w.phase == Phase::Refreshing ==> {
                &&& found.0.phase == Phase::Settling
                &&& found.1 == WorkerAction::ReadClock
                &&& failed.1 == WorkerAction::Sleep(5_000)
                &&& later.0.phase == Phase::Settling
                &&& later.1 == WorkerAction::ReadClock
                &&& later.0.nonce == 0
            }
        }),
{
}

/// What the outcome of a submission leads to. An accepted transaction uses up its nonce, and one
/// transfer for each receiver is counted as sent. After one that failed, the best block is asked
/// for, so that the nonce can be looked up there: after two seconds if the connection is to blame,
/// and else at once. Nothing is counted then, and the nonce is not used up.
pub proof fn law_outcome_of_a_submission(w: WorkerView, error: String)
    requires
        w.wf(),
        w.phase == Phase::Submitting,
        !crate::failure::asks_for_restart(error@),
    ensures
        ({
            let failed = w.next(WorkerEvent::Rejected(error));
            let later = failed.0.next(WorkerEvent::Woke);
            &&& w.nonce < u64::MAX ==> {
                let taken = w.next(WorkerEvent::Accepted);
                &&& taken.0.nonce == w.nonce + 1
                &&& taken.0.phase == Phase::Settling
                &&& taken.0.sleep_ms == w.sleep_ms
                &&& taken.1 matches WorkerAction::CountSent(n) && n == w.receivers.len()
            }
            &&& failed.0.nonce == w.nonce
            &&& !crate::failure::blames_connection(error@) ==> {
                &&& failed.1 == WorkerAction::ReadBest
                &&& failed.0.phase == (Phase::Locating { first: false })
            }
            &&& crate::failure::blames_connection(error@) ==> {
                &&& failed.1 == WorkerAction::Sleep(2_000)
                &&& failed.0.accepts(WorkerEvent::Woke)
                &&& later.1 == WorkerAction::ReadBest
                &&& later.0.phase == (Phase::Locating { first: false })
                &&& later.0.nonce == w.nonce
            }
        }),
{
}

/// What is left to wait, and the time that the submission took, make up the time from one
/// submission to the next, unless the submission alone took longer. Only the low 64 bits of the
/// time count.
pub proof fn law_rest_makes_up_the_time(w: WorkerView, ms: u128)
    requires
        w.phase == Phase::Settling,
    ensures
        ({
            let then = w.next(WorkerEvent::Elapsed(ms));
            &&& w.accepts(WorkerEvent::Elapsed(ms))
            &&& then.0.phase == Phase::Gate
            &&& then.1 == WorkerAction::ReadBacklog
            &&& then.0.nonce == w.nonce
            &&& ms <= w.worker_sleep_ms ==> then.0.sleep_ms + ms == w.worker_sleep_ms
            &&& w.worker_sleep_ms < ms <= u64::MAX ==> then.0.sleep_ms == 0
            &&& ms + 0x1_0000_0000_0000_0000 <= u128::MAX ==> w.next(
                WorkerEvent::Elapsed((ms + 0x1_0000_0000_0000_0000) as u128),
            ) == then
        }),
{
}

/// A sender takes in the answer to what it asked for, whatever the answer is, and nothing else;
/// and nothing at all once its task has ended. The two answers that it cannot take in are a count
/// of included transactions, or a nonce, that leaves no room to count on.
pub proof fn law_sender_takes_in_the_answer(w: WorkerView, event: WorkerEvent, answer: WorkerEvent)
    requires
        w.accepts(event),
    ensures
        w.next(event).0.accepts(answer) <==> match w.next(event).1 {
            WorkerAction::Sleep(_) => answer is Woke,
            WorkerAction::ReadBest => answer is Best,
            WorkerAction::FetchNonce { .. } => answer is Nonce,
            WorkerAction::ReadBacklog => answer matches WorkerEvent::Backlog { in_block, .. }
                && in_block + 100_000 <= u64::MAX,
            WorkerAction::Submit { nonce } => answer is Rejected || answer is Accepted && nonce
                < u64::MAX,
            WorkerAction::CountSent(_) => answer is Elapsed,
            WorkerAction::ReadClock => answer is Elapsed,
            WorkerAction::Exit => false,
        },
{
}

/// A step of a sender leaves its receivers, its batch size and its rate alone.
pub proof fn law_step_keeps_the_share(w: WorkerView, event: WorkerEvent)
    requires
        w.accepts(event),
    ensures
        w.next(event).0.receivers == w.receivers,
        w.next(event).0.batch == w.batch,
        w.next(event).0.worker_sleep_ms == w.worker_sleep_ms,
{
}

/// From its start, a sender asks for the best block, looks its nonce up there and, unless the
/// backlog holds it back, submits with that nonce at once.
pub proof fn law_sender_gets_to_submit(
    settings: Settings,
    index: int,
    accounts: Seq<AccountKey>,
    worker_sleep_ms: u64,
    block: BlockHash,
    nonce: u64,
    sent: u64,
    in_block: u64,
)
    requires
        sent <= in_block + 100_000 <= u64::MAX,
    ensures
        ({
            let ramping = starting(settings, index, accounts, worker_sleep_ms);
            let locating = ramping.next(WorkerEvent::Woke);
            let asking = locating.0.next(WorkerEvent::Best(block));
            let ready = asking.0.next(WorkerEvent::Nonce(Ok(nonce)));
            let pacing = ready.0.next(WorkerEvent::Backlog { sent, in_block });
            let submitting = pacing.0.next(WorkerEvent::Woke);
            &&& ramping.accepts(WorkerEvent::Woke)
            &&& forall|event: WorkerEvent| #[trigger] ramping.accepts(event) ==> event is Woke
            &&& locating.1 == WorkerAction::ReadBest
            &&& locating.0.phase == (Phase::Locating { first: true })
            &&& asking.1 == (WorkerAction::FetchNonce { block })
            &&& ready.1 == WorkerAction::ReadBacklog
            &&& pacing.1 == WorkerAction::Sleep(0)
            &&& submitting.1 == (WorkerAction::Submit { nonce })
        }),
{
}

/// A sender begins with the receivers of its task, the batch size of the settings and the rate
/// that it is given.
pub proof fn law_sender_starts_with_its_share(
    settings: Settings,
    index: int,
    accounts: Seq<AccountKey>,
    worker_sleep_ms: u64,
)
    ensures
        ({
            let w = starting(settings, index, accounts, worker_sleep_ms);
            &&& w.batch == settings.batch
            &&& w.worker_sleep_ms == worker_sleep_ms
            &&& settings.batch > 1 ==> w.receivers == crate::plan::receivers_of(
                index,
                settings.batch as int,
                accounts,
            )
            &&& settings.batch <= 1 ==> w.receivers == crate::plan::receivers_of(index, 1, accounts)
        }),
{
}

/// A sender's transaction pays 1,000,000,000,000 to each of its receivers, in order, and what is
/// counted as sent when the node takes it is the number of these transfers.
pub proof fn law_sender_pays_all_its_receivers(w: WorkerView)
    requires
        w.wf(),
    ensures
        w.receivers.len() == 1 ==> w.payload() is Single,
        w.receivers.len() > 1 ==> w.payload() is Batch,
        match w.payload() {
            crate::payload::PayloadView::Single(t) => t.dest == w.receivers[0] && t.amount
                == 1_000_000_000_000 && w.next(WorkerEvent::Accepted).1 == WorkerAction::CountSent(
                1,
            ),
            crate::payload::PayloadView::Batch(ts) => {
                &&& ts.len() == w.receivers.len()
                &&& forall|j: int|
                    0 <= j < ts.len() ==> (#[trigger] ts[j]).dest == w.receivers[j] && ts[j].amount
                        == 1_000_000_000_000
                &&& w.next(WorkerEvent::Accepted).1 matches WorkerAction::CountSent(n) && n
                    == ts.len()
            },
        },
{
    crate::payload::law_transaction_pays_the_receivers(w.batch as int, w.receivers);
}

} // verus!
