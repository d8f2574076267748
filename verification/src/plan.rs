//! How the load is spread over sender tasks and receivers.

use vstd::prelude::*;

use crate::payload::AccountKey;

verus! {

/// The most sender tasks that run at a time.
pub const MAX_CONCURRENT_TASKS: usize = 1000;

/// The slot, in milliseconds, that each sender task waits for the next while the load ramps up.
pub const RAMP_SLOT_MS: usize = 10;

/// What the user asks for.
#[derive(Clone, Copy, Debug, PartialEq, Eq)]
pub struct Settings {
    /// How many sender accounts there are, if not as many as transactions per second.
    pub total_senders: Option<usize>,
    /// The transactions per second to aim for.
    pub tps: usize,
    /// How many transfers go into one transaction; up to one means no batching.
    pub batch: usize,
}

pub open spec fn smaller(a: int, b: int) -> int {
    if a <= b {
        a
    } else {
        b
    }
}

/// The sender tasks that carry the load of `settings`.
pub open spec fn sender_tasks_of(settings: Settings) -> int {
    smaller(
        if settings.batch > 1 {
            settings.tps as int / settings.batch as int
        } else {
            settings.tps as int
        },
        MAX_CONCURRENT_TASKS as int,
    )
}

/// The receivers that a sender task asks for.
pub open spec fn wanted_receivers(settings: Settings) -> int {
    if settings.batch > 1 {
        settings.batch as int
    } else {
        1
    }
}

/// The sender accounts, and the receiver accounts, of `settings`.
pub open spec fn accounts_of(settings: Settings) -> int {
    match settings.total_senders {
        Some(total) => total as int,
        None => settings.tps as int,
    }
}

/// The sender tasks that start.
pub open spec fn started_of(tasks: int, accounts: int) -> int {
    smaller(tasks, accounts)
}

/// How long task `index` of `tasks` waits, in milliseconds, before it starts to send.
pub open spec fn ramp_delay_of(tasks: int, index: int) -> int {
    (tasks - index) * RAMP_SLOT_MS
}

fn min(a: usize, b: usize) -> (m: usize)
    ensures
        m == smaller(a as int, b as int),
{
    if a <= b {
        a
    } else {
        b
    }
}

impl Settings {
    /// How many sender tasks to run: one for each transaction of a second, but no more than
    /// `MAX_CONCURRENT_TASKS`.
    pub fn sender_tasks(&self) -> (n: usize)
        ensures
            n == sender_tasks_of(*self),
            n <= 1000,
            self.batch <= 1 && self.tps <= 1000 ==> n == self.tps,
            self.batch > 1 ==> n * self.batch <= self.tps,
            n < 1000 ==> self.tps < (n + 1) * wanted_receivers(*self),
    {
        proof {
            law_tasks_carry_the_target(*self);
        }
        let wanted: usize = if self.batch > 1 {
            self.tps / self.batch
        } else {
            self.tps
        };
        min(wanted, MAX_CONCURRENT_TASKS)
    }

    /// How many sender accounts, and how many receiver accounts, to derive.
    pub fn accounts(&self) -> (n: usize)
        ensures
            n == (match self.total_senders {
                Some(total) => total,
                None => self.tps,
            }),
            n == accounts_of(*self),
    {
        match self.total_senders {
            Some(total) => total,
            None => self.tps,
        }
    }

    /// How many receivers a sender task asks for.
    pub fn receivers_per_task(&self) -> (n: usize)
        ensures
            n == wanted_receivers(*self),
    {
        if self.batch > 1 {
            self.batch
        } else {
            1
        }
    }
}

/// How many of `tasks` sender tasks start: each needs a sender account of its own.
pub fn started_tasks(tasks: usize, accounts: usize) -> (n: usize)
    ensures
        n == smaller(tasks as int, accounts as int),
        n == started_of(tasks as int, accounts as int),
{
    min(tasks, accounts)
}

/// How long task `index` of `tasks` waits before it starts to send: the last one starts first.
pub fn ramp_delay_ms(tasks: usize, index: usize) -> (ms: u64)
    requires
        index <= tasks,
        (tasks - index) * RAMP_SLOT_MS <= usize::MAX,
    ensures
        ms == (tasks - index) * RAMP_SLOT_MS,
        ms == ramp_delay_of(tasks as int, index as int),
{
    ((tasks - index) * RAMP_SLOT_MS) as u64
}

/// The first receiver of task `index` among `len` receiver accounts.
pub open spec fn first_receiver(index: int, len: int) -> int {
    index % len
}

/// The end of the receivers of task `index` among `len` receiver accounts.
pub open spec fn end_receiver(index: int, wanted: int, len: int) -> int {
    smaller(first_receiver(index, len) + wanted, len)
}

/// The receivers of task `index`: `wanted` accounts in a row, starting at `index` modulo their
/// number, but none past the last account.
pub open spec fn receivers_of(index: int, wanted: int, accounts: Seq<AccountKey>) -> Seq<
    AccountKey,
> {
    accounts.subrange(
        first_receiver(index, accounts.len() as int),
        end_receiver(index, wanted, accounts.len() as int),
    )
}

/// The receivers of task `index`.
pub fn receivers(index: usize, wanted: usize, accounts: &Vec<AccountKey>) -> (r: Vec<AccountKey>)
    requires
        accounts@.len() > 0,
        first_receiver(index as int, accounts@.len() as int) + wanted <= usize::MAX,
    ensures
        r@ == receivers_of(index as int, wanted as int, accounts@),
{
    let start: usize = index % accounts.len();
    let end: usize = min(start + wanted, accounts.len());
    let mut r: Vec<AccountKey> = Vec::new();
    for k in start..end
        invariant
            start <= end <= accounts@.len(),
            r@ =~= accounts@.subrange(start as int, k as int),
    {
        r.push(accounts[k]);
    }
    r
}

/// The plan never runs more than `MAX_CONCURRENT_TASKS` tasks, and if every task sends one full
/// batch in a second, no more is sent in it than was asked for. So the time from one submission
/// of a task to its next, which is that of its share of the target, is one second at most.
pub proof fn law_plan_stays_within_target(settings: Settings)
    ensures
        0 <= sender_tasks_of(settings) <= MAX_CONCURRENT_TASKS,
        sender_tasks_of(settings) <= settings.tps,
        sender_tasks_of(settings) * settings.batch <= settings.tps,
{
    let t = settings.tps as int;
    let b = settings.batch as int;
    let n = sender_tasks_of(settings);
    if b > 1 {
        assert(0 <= t / b <= t && (t / b) * b <= t) by (nonlinear_arith)
            requires
                t >= 0,
                b > 1,
        ;
        assert(n * b <= (t / b) * b) by (nonlinear_arith)
            requires
                n <= t / b,
                b > 1,
        ;
    } else {
        assert(n * b <= n) by (nonlinear_arith)
            requires
                0 <= n,
                0 <= b <= 1,
        ;
    }
}

/// A task that asks for at least one receiver gets one, and all that it gets are receiver
/// accounts: the window lies within them and is no longer than asked for. A task whose number is
/// below that of the receiver accounts starts at the account of its own number.
pub proof fn law_receivers_lie_within_accounts(
    index: int,
    wanted: int,
    accounts: Seq<AccountKey>,
)
    requires
        index >= 0,
        wanted > 0,
        accounts.len() > 0,
    ensures
        ({
            let r = receivers_of(index, wanted, accounts);
            let start = first_receiver(index, accounts.len() as int);
            &&& 1 <= r.len() <= wanted
            &&& 0 <= start
            &&& start + r.len() <= accounts.len()
            &&& start + r.len() < accounts.len() ==> r.len() == wanted
            &&& forall|k: int| 0 <= k < r.len() ==> #[trigger] r[k] == accounts[start + k]
            &&& index < accounts.len() ==> r[0] == accounts[index]
        }),
{
    let len = accounts.len() as int;
    assert(0 <= index % len < len) by (nonlinear_arith)
        requires
            index >= 0,
            len > 0,
    ;
    if index < len {
        vstd::arithmetic::div_mod::lemma_small_mod(index as nat, len as nat);
    }
}

/// The tasks carry the whole target, as far as the cap of 1000 tasks allows: without batches there
/// is one task for each transaction of a second, and with them so many that one task more would
/// send more than was asked for.
pub proof fn law_tasks_carry_the_target(settings: Settings)
    ensures
        0 <= sender_tasks_of(settings) <= 1000,
        settings.batch <= 1 && settings.tps <= 1000 ==> sender_tasks_of(settings) == settings.tps,
        settings.batch <= 1 && settings.tps > 1000 ==> sender_tasks_of(settings) == 1000,
        settings.batch > 1 ==> sender_tasks_of(settings) * settings.batch <= settings.tps,
        settings.batch > 1 && sender_tasks_of(settings) < 1000 ==> settings.tps < (sender_tasks_of(
            settings,
        ) + 1) * settings.batch,
        settings.tps >= 1000 * settings.batch && settings.batch > 1 ==> sender_tasks_of(settings)
            == 1000,
{
    law_plan_stays_within_target(settings);
    let t = settings.tps as int;
    let b = settings.batch as int;
    if b > 1 {
        assert(t < (t / b + 1) * b) by (nonlinear_arith)
            requires
                b > 1,
        ;
        assert(t >= 1000 * b ==> t / b >= 1000) by (nonlinear_arith)
            requires
                b > 1,
        ;
    }
}

/// A task asks for as many receivers as go into one of its transactions: the batch size, or one
/// if that is less.
pub proof fn law_receivers_fill_a_batch(settings: Settings)
    ensures
        wanted_receivers(settings) >= 1,
        wanted_receivers(settings) >= settings.batch,
        wanted_receivers(settings) == 1 || wanted_receivers(settings) == settings.batch,
{
}

/// There are as many accounts as the user says. If the user does not say, there are enough for
/// every task to start: one for each transaction of a second.
pub proof fn law_accounts_are_those_asked_for(settings: Settings, total: usize)
    ensures
        settings.total_senders == Some(total) ==> accounts_of(settings) == total,
        settings.total_senders is None ==> accounts_of(settings) == settings.tps,
        settings.total_senders is None ==> started_of(
            sender_tasks_of(settings),
            accounts_of(settings),
        ) == sender_tasks_of(settings),
{
    law_plan_stays_within_target(settings);
}

/// All tasks start that have an account of their own, and no others.
pub proof fn law_each_started_task_has_an_account(tasks: int, accounts: int, index: int)
    ensures
        index < started_of(tasks, accounts) <==> index < tasks && index < accounts,
{
}

/// The tasks start 10 ms apart: the last one waits for one slot, and each of the others waits for
/// one slot more than the task after it.
pub proof fn law_tasks_start_in_slots(tasks: int, index: int)
    ensures
        ramp_delay_of(tasks, tasks) == 0,
        ramp_delay_of(tasks, index) == ramp_delay_of(tasks, index + 1) + 10,
        ramp_delay_of(tasks + 1, index + 1) == ramp_delay_of(tasks, index),
{
}

/// The receivers of a task, account by account: from the account of its own number on, as many as
/// it asks for, or as many as are left. The task numbers go round the accounts: a task whose number
/// is greater by the number of accounts has the same receivers.
pub proof fn law_receivers_follow_the_task_number(
    index: int,
    wanted: int,
    accounts: Seq<AccountKey>,
)
    requires
        index >= 0,
        wanted > 0,
        accounts.len() > 0,
    ensures
        receivers_of(index + accounts.len(), wanted, accounts) == receivers_of(
            index,
            wanted,
            accounts,
        ),
        index + wanted <= accounts.len() ==> receivers_of(index, wanted, accounts).len() == wanted,
        index < accounts.len() < index + wanted ==> receivers_of(index, wanted, accounts).len()
            == accounts.len() - index,
        index < accounts.len() ==> forall|k: int|
            0 <= k < receivers_of(index, wanted, accounts).len() ==> #[trigger] receivers_of(
                index,
                wanted,
                accounts,
            )[k] == accounts[index + k],
{
    let len = accounts.len() as int;
    vstd::arithmetic::div_mod::lemma_mod_add_multiples_vanish(index, len);
    law_receivers_lie_within_accounts(index, wanted, accounts);
    if index < len {
        vstd::arithmetic::div_mod::lemma_small_mod(index as nat, len as nat);
    }
}

} // verus!
