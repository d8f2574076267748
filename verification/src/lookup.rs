//! The lookup of a nonce, which is tried a few times.

use vstd::prelude::*;

use crate::account::AccountQuery;

verus! {

/// How often a nonce is asked for before the lookup fails.
pub const NONCE_ATTEMPTS: u32 = 3;

/// The pause after the first failed attempt; each later one is longer by as much.
pub const NONCE_RETRY_MS: u64 = 500;

/// What to do after an attempt.
#[derive(Debug, PartialEq, Eq)]
pub enum LookupStep {
    /// The attempt failed with this error: pause for so many milliseconds, then try again.
    Retry { error: String, delay_ms: u64 },
    /// The lookup is over.
    Done(Result<u64, String>),
}

/// The model of a `NonceLookup`.
pub ghost struct LookupView {
    /// What is asked for.
    pub query: AccountQuery,
    /// How many attempts have failed.
    pub attempt: int,
    /// How many attempts there are.
    pub max_retries: int,
}

impl LookupView {
    /// At least one attempt is left.
    pub open spec fn wf(self) -> bool {
        0 <= self.attempt < self.max_retries <= u32::MAX
    }

    /// The lookup after one more attempt, and what to do then: a success ends the lookup, and so
    /// does the failure of the last attempt.
    pub open spec fn next(self, outcome: Result<u64, String>) -> (LookupView, LookupStep) {
        match outcome {
            Err(error) if self.attempt < self.max_retries - 1 => (
                LookupView { attempt: self.attempt + 1, ..self },
                LookupStep::Retry {
                    error,
                    delay_ms: (NONCE_RETRY_MS * (self.attempt + 1)) as u64,
                },
            ),
            _ => (self, LookupStep::Done(outcome)),
        }
    }

    /// The lookup after as many attempts as there are in `outcomes`.
    pub open spec fn run(self, outcomes: Seq<Result<u64, String>>) -> LookupView
        decreases outcomes.len(),
    {
        if outcomes.len() == 0 {
            self
        } else {
            self.run(outcomes.drop_last()).next(outcomes.last()).0
        }
    }

    /// How many attempts the lookup makes if they turn out as in `outcomes`.
    pub open spec fn attempts(self, outcomes: Seq<Result<u64, String>>) -> int
        decreases outcomes.len(),
    {
        if outcomes.len() == 0 {
            0
        } else {
            1 + match self.next(outcomes[0]).1 {
                LookupStep::Done(_) => 0,
                LookupStep::Retry { .. } => self.next(outcomes[0]).0.attempts(
                    outcomes.drop_first(),
                ),
            }
        }
    }

    /// What the lookup comes to if its attempts turn out as in `outcomes`, if they decide it.
    pub open spec fn result(self, outcomes: Seq<Result<u64, String>>) -> Option<
        Result<u64, String>,
    >
        decreases outcomes.len(),
    {
        if outcomes.len() == 0 {
            None
        } else {
            match self.next(outcomes[0]).1 {
                LookupStep::Done(r) => Some(r),
                LookupStep::Retry { .. } => self.next(outcomes[0]).0.result(outcomes.drop_first()),
            }
        }
    }

    /// How long the lookup pauses, in milliseconds, if its attempts turn out as in `outcomes`.
    pub open spec fn pauses(self, outcomes: Seq<Result<u64, String>>) -> int
        decreases outcomes.len(),
    {
        if outcomes.len() == 0 {
            0
        } else {
            match self.next(outcomes[0]).1 {
                LookupStep::Done(_) => 0,
                LookupStep::Retry { delay_ms, .. } => delay_ms + self.next(outcomes[0]).0.pauses(
                    outcomes.drop_first(),
                ),
            }
        }
    }
}

/// A lookup with the usual number of attempts, before the first of them.
pub open spec fn usual(query: AccountQuery) -> LookupView {
    LookupView { query, attempt: 0, max_retries: NONCE_ATTEMPTS as int }
}

/// A lookup under way.
#[derive(Debug)]
pub struct NonceLookup {
    query: AccountQuery,
    attempt: u32,
    max_retries: u32,
}

impl View for NonceLookup {
    type V = LookupView;

    closed spec fn view(&self) -> LookupView {
        LookupView {
            query: self.query,
            attempt: self.attempt as int,
            max_retries: self.max_retries as int,
        }
    }
}

impl NonceLookup {
    /// A lookup with `max_retries` attempts.
    pub fn with_retry(query: AccountQuery, max_retries: u32) -> (lookup: NonceLookup)
        requires
            max_retries > 0,
        ensures
            lookup@.wf(),
            lookup@ == (LookupView { query, attempt: 0, max_retries: max_retries as int }),
    {
        NonceLookup { query, attempt: 0, max_retries }
    }

    /// A lookup with the usual number of attempts.
    pub fn new(query: AccountQuery) -> (lookup: NonceLookup)
        ensures
            lookup@.wf(),
            lookup@ == (LookupView { query, attempt: 0, max_retries: NONCE_ATTEMPTS as int }),
            lookup@ == usual(query),
    {
        NonceLookup::with_retry(query, NONCE_ATTEMPTS)
    }

    /// What the next attempt asks for.
    pub fn query(&self) -> (query: AccountQuery)
        ensures
            query == self@.query,
    {
        self.query
    }

    /// How many attempts have failed and were followed by another.
    pub fn failures(&self) -> (n: u32)
        ensures
            n == self@.attempt,
    {
        self.attempt
    }

    /// Takes in the outcome of an attempt and says what to do next.
    pub fn attempted(&mut self, outcome: Result<u64, String>) -> (step: LookupStep)
        requires
            old(self)@.wf(),
        ensures
            final(self)@.wf(),
            (final(self)@, step) == old(self)@.next(outcome),
    {
        match outcome {
            Ok(nonce) => LookupStep::Done(Ok(nonce)),
            Err(error) => {
                if self.attempt < self.max_retries - 1 {
                    self.attempt = self.attempt + 1;
                    LookupStep::Retry { error, delay_ms: NONCE_RETRY_MS * (self.attempt as u64) }
                } else {
                    LookupStep::Done(Err(error))
                }
            },
        }
    }
}

/// How often the first pause fits into `k` pauses in a row after `attempt` failures.
pub open spec fn pause_units(attempt: int, k: int) -> int {
    k * attempt + k * (k + 1) / 2
}

proof fn lemma_pause_units(attempt: int, k: int)
    ensures
        k == 0 ==> pause_units(attempt, k) == 0,
        pause_units(attempt, k) == attempt + 1 + pause_units(attempt + 1, k - 1),
{
    assert((k - 1) * (attempt + 1) == k * attempt - attempt + k - 1) by (nonlinear_arith);
    assert((k - 1) * (k - 1 + 1) == k * (k + 1) - 2 * k) by (nonlinear_arith);
    assert(k == 0 ==> k * attempt == 0 && k * (k + 1) == 0) by (nonlinear_arith);
}

/// The first `k` attempts fail.
pub open spec fn all_fail(outcomes: Seq<Result<u64, String>>, k: int) -> bool {
    forall|j: int| 0 <= j < k ==> #[trigger] outcomes[j] is Err
}

proof fn lemma_all_fail_after(outcomes: Seq<Result<u64, String>>, k: int)
    requires
        0 < k <= outcomes.len(),
        all_fail(outcomes, k),
    ensures
        outcomes[0] is Err,
        all_fail(outcomes.drop_first(), k - 1),
{
    let rest = outcomes.drop_first();
    assert forall|j: int| 0 <= j < k - 1 implies #[trigger] rest[j] is Err by {
        assert(rest[j] == outcomes[j + 1]);
    }
}

/// A lookup comes to the first success among its attempts, and makes no attempt after it.
pub proof fn law_first_success_is_the_result(
    lookup: LookupView,
    outcomes: Seq<Result<u64, String>>,
    k: int,
)
    requires
        lookup.wf(),
        0 <= k < outcomes.len(),
        lookup.attempt + k < lookup.max_retries,
        all_fail(outcomes, k),
        outcomes[k] is Ok,
    ensures
        lookup.result(outcomes) == Some(outcomes[k]),
        lookup.attempts(outcomes) == k + 1,
        lookup.pauses(outcomes) == NONCE_RETRY_MS * pause_units(lookup.attempt, k),
    decreases k,
{
    lemma_pause_units(lookup.attempt, k);
    if k > 0 {
        let rest = outcomes.drop_first();
        lemma_all_fail_after(outcomes, k);
        law_first_success_is_the_result(lookup.next(outcomes[0]).0, rest, k - 1);
    }
}

/// A lookup all of whose attempts fail makes every attempt that it has, with a pause between any
/// two of them, and comes to the error of the last one.
pub proof fn law_last_error_is_the_result(lookup: LookupView, outcomes: Seq<Result<u64, String>>)
    requires
        lookup.wf(),
        outcomes.len() >= lookup.max_retries - lookup.attempt,
        all_fail(outcomes, lookup.max_retries - lookup.attempt),
    ensures
        lookup.result(outcomes) == Some(outcomes[lookup.max_retries - lookup.attempt - 1]),
        lookup.attempts(outcomes) == lookup.max_retries - lookup.attempt,
        lookup.pauses(outcomes) == NONCE_RETRY_MS * pause_units(
            lookup.attempt,
            lookup.max_retries - lookup.attempt - 1,
        ),
    decreases lookup.max_retries - lookup.attempt,
{
    let k = lookup.max_retries - lookup.attempt - 1;
    lemma_pause_units(lookup.attempt, k);
    lemma_all_fail_after(outcomes, k + 1);
    if k > 0 {
        let rest = outcomes.drop_first();
        law_last_error_is_the_result(lookup.next(outcomes[0]).0, rest);
    }
}

/// Every attempt of a lookup asks for the same account at the same block.
pub proof fn law_attempts_ask_for_the_same(lookup: LookupView, outcomes: Seq<Result<u64, String>>)
    ensures
        lookup.run(outcomes).query == lookup.query,
        lookup.run(outcomes).max_retries == lookup.max_retries,
    decreases outcomes.len(),
{
    if outcomes.len() > 0 {
        law_attempts_ask_for_the_same(lookup, outcomes.drop_last());
    }
}

/// What an attempt leads to. A success ends the lookup with the nonce that was found. A failure
/// is followed by another attempt if there is one left, after half a second more than the failure
/// before it; and else it ends the lookup with its error.
pub proof fn law_attempt_ends_or_repeats_the_lookup(lookup: LookupView, nonce: u64, error: String)
    requires
        lookup.wf(),
    ensures
        ({
            let failed = lookup.next(Err(error));
            let left = lookup.max_retries - lookup.attempt - 1;
            &&& lookup.next(Ok(nonce)).1 == LookupStep::Done(Ok(nonce))
            &&& left == 0 ==> failed.1 == LookupStep::Done(Err(error))
            &&& left > 0 ==> {
                &&& failed.1 matches LookupStep::Retry { error: text, delay_ms } && text == error
                    && delay_ms == 500 * (lookup.attempt + 1)
                &&& failed.0.attempt == lookup.attempt + 1
                &&& failed.0.max_retries - failed.0.attempt - 1 == left - 1
                &&& failed.0.query == lookup.query
                &&& failed.0.wf()
            }
        }),
{
}

/// The usual lookup asks for its query up to three times, and comes to the first nonce that it
/// finds; it pauses for half a second after the first failure and for a second after the next, so
/// that it fails after a second and a half of pauses, with the last error.
pub proof fn law_usual_lookup_asks_three_times(
    query: AccountQuery,
    outcomes: Seq<Result<u64, String>>,
)
    requires
        outcomes.len() == 3,
    ensures
        ({
            let lookup = usual(query);
            let (a, b, c) = (outcomes[0], outcomes[1], outcomes[2]);
            &&& lookup.wf()
            &&& lookup.query == query
            &&& a is Ok ==> lookup.result(outcomes) == Some(a) && lookup.attempts(outcomes) == 1
                && lookup.pauses(outcomes) == 0
            &&& a is Err && b is Ok ==> lookup.result(outcomes) == Some(b) && lookup.attempts(
                outcomes,
            ) == 2 && lookup.pauses(outcomes) == 500
            &&& a is Err && b is Err ==> lookup.result(outcomes) == Some(c) && lookup.attempts(
                outcomes,
            ) == 3 && lookup.pauses(outcomes) == 1_500
        }),
{
    reveal_with_fuel(LookupView::result, 4);
    reveal_with_fuel(LookupView::attempts, 4);
    reveal_with_fuel(LookupView::pauses, 4);
    let rest = outcomes.drop_first();
    assert(rest[0] == outcomes[1] && rest.drop_first()[0] == outcomes[2]);
}

} // verus!
