//! Funding the sender accounts from the faucet account, one after the other.

use vstd::prelude::*;

use crate::payload::{seed_payload, AccountKey, Transfer};

verus! {

/// The model of a `Seeder`.
pub ghost struct SeederView {
    /// The accounts to fund, in order.
    pub accounts: Seq<AccountKey>,
    /// How many of them have had their turn.
    pub done: int,
    /// The faucet account's nonce for the next transaction.
    pub nonce: u64,
}

impl SeederView {
    pub open spec fn wf(self) -> bool {
        0 <= self.done <= self.accounts.len()
    }

    /// The seeder after the transaction for the next account was `accepted` or not: the account
    /// has had its turn, and a transaction that was accepted uses up its nonce.
    pub open spec fn next(self, accepted: bool) -> SeederView {
        SeederView {
            done: self.done + 1,
            nonce: if accepted {
                (self.nonce + 1) as u64
            } else {
                self.nonce
            },
            ..self
        }
    }

    /// The seeder after as many transactions as there are in `outcomes`.
    pub open spec fn run(self, outcomes: Seq<bool>) -> SeederView
        decreases outcomes.len(),
    {
        if outcomes.len() == 0 {
            self
        } else {
            self.run(outcomes.drop_last()).next(outcomes.last())
        }
    }

    /// What is submitted next, and with which nonce.
    pub open spec fn pending(self) -> Option<(Transfer, u64)> {
        if self.done < self.accounts.len() {
            Some(
                (
                    Transfer {
                        dest: self.accounts[self.done],
                        amount: crate::payload::SEED_AMOUNT,
                    },
                    self.nonce,
                ),
            )
        } else {
            None
        }
    }
}

/// A seeder before its first account.
pub open spec fn starting(accounts: Seq<AccountKey>, nonce: Result<u64, String>) -> SeederView {
    SeederView {
        accounts,
        done: 0,
        nonce: match nonce {
            Ok(n) => n,
            Err(_) => 0,
        },
    }
}

/// How many of `outcomes` are acceptances.
pub open spec fn acceptances(outcomes: Seq<bool>) -> int
    decreases outcomes.len(),
{
    if outcomes.len() == 0 {
        0
    } else {
        acceptances(outcomes.drop_last()) + if outcomes.last() {
            1int
        } else {
            0
        }
    }
}

/// The accounts that are being funded.
#[derive(Debug)]
pub struct Seeder {
    accounts: Vec<AccountKey>,
    done: usize,
    nonce: u64,
}

impl View for Seeder {
    type V = SeederView;

    closed spec fn view(&self) -> SeederView {
        SeederView { accounts: self.accounts@, done: self.done as int, nonce: self.nonce }
    }
}

impl Seeder {
    /// Starts with the faucet account's nonce, or from zero if it could not be looked up.
    pub fn new(accounts: Vec<AccountKey>, nonce: Result<u64, String>) -> (seeder: Seeder)
        ensures
            seeder@.wf(),
            seeder@ == (SeederView {
                accounts: accounts@,
                done: 0,
                nonce: match nonce {
                    Ok(n) => n,
                    Err(_) => 0,
                },
            }),
            seeder@ == starting(accounts@, nonce),
    {
        let first: u64 = match nonce {
            Ok(n) => n,
            Err(_) => 0,
        };
        Seeder { accounts, done: 0, nonce: first }
    }

    /// What to submit next, and with which nonce; nothing once all accounts have had their turn.
    pub fn pending(&self) -> (p: Option<(Transfer, u64)>)
        requires
            self@.wf(),
        ensures
            p == self@.pending(),
    {
        if self.done < self.accounts.len() {
            Some((seed_payload(self.accounts[self.done]), self.nonce))
        } else {
            None
        }
    }

    /// Takes in whether the pending transaction was accepted.
    pub fn submitted(&mut self, accepted: bool)
        requires
            old(self)@.wf(),
            old(self)@.pending() is Some,
            accepted ==> old(self)@.nonce < u64::MAX,
        ensures
            final(self)@.wf(),
            final(self)@ == old(self)@.next(accepted),
    {
        assert(self.done < self.accounts.len());
        self.done = self.done + 1;
        if accepted {
            self.nonce = self.nonce + 1;
        }
    }
}

/// Every account has exactly one turn, in order, whatever becomes of the transactions before it;
/// and the nonces of the transactions are consecutive: each carries the first nonce plus the
/// number of transactions that were accepted before it.
pub proof fn law_every_account_has_one_turn(seeder: SeederView, outcomes: Seq<bool>)
    requires
        seeder.wf(),
        seeder.done == 0,
        outcomes.len() <= seeder.accounts.len(),
        seeder.nonce + acceptances(outcomes) <= u64::MAX,
    ensures
        seeder.run(outcomes).wf(),
        seeder.run(outcomes).pending() == if outcomes.len() < seeder.accounts.len() {
            Some(
                (
                    Transfer {
                        dest: seeder.accounts[outcomes.len() as int],
                        amount: 100_000_000_000_000_000_000,
                    },
                    (seeder.nonce + acceptances(outcomes)) as u64,
                ),
            )
        } else {
            None
        },
{
    lemma_run(seeder, outcomes);
}

proof fn lemma_run(seeder: SeederView, outcomes: Seq<bool>)
    requires
        seeder.done == 0,
        seeder.nonce + acceptances(outcomes) <= u64::MAX,
    ensures
        seeder.run(outcomes).accounts == seeder.accounts,
        seeder.run(outcomes).done == outcomes.len(),
        seeder.run(outcomes).nonce == seeder.nonce + acceptances(outcomes),
        acceptances(outcomes) >= 0,
    decreases outcomes.len(),
{
    if outcomes.len() > 0 {
        lemma_run(seeder, outcomes.drop_last());
    }
}

/// No two accepted transactions carry the same nonce, and none carries a nonce that an earlier
/// accepted one has passed: if the transaction after `before` was accepted, every transaction
/// after the longer `later` carries a greater nonce.
pub proof fn law_accepted_nonces_are_not_reused(
    seeder: SeederView,
    before: Seq<bool>,
    later: Seq<bool>,
)
    requires
        seeder.done == 0,
        before.len() < later.len() <= seeder.accounts.len(),
        before == later.take(before.len() as int),
        later[before.len() as int],
        seeder.nonce + acceptances(later) <= u64::MAX,
    ensures
        seeder.run(before).nonce < seeder.run(later).nonce,
{
    lemma_acceptances_grow(later, before.len() as int + 1);
    let step = later.take(before.len() as int + 1);
    assert(step.drop_last() =~= before);
    lemma_run(seeder, later);
    lemma_run(seeder, before);
}

proof fn lemma_acceptances_grow(outcomes: Seq<bool>, k: int)
    requires
        0 <= k <= outcomes.len(),
    ensures
        0 <= acceptances(outcomes.take(k)) <= acceptances(outcomes),
    decreases outcomes.len(),
{
    if k < outcomes.len() {
        lemma_acceptances_grow(outcomes.drop_last(), k);
        assert(outcomes.drop_last().take(k) =~= outcomes.take(k));
    } else {
        assert(outcomes.take(k) =~= outcomes);
        if k > 0 {
            lemma_acceptances_grow(outcomes.drop_last(), k - 1);
            assert(outcomes.drop_last().take(k - 1) =~= outcomes.drop_last());
        }
    }
}

/// Whatever becomes of a transaction, it is the next account's turn; and the next transaction
/// carries the next nonce if it was accepted, and the same one if it was not.
pub proof fn law_only_an_acceptance_uses_up_a_nonce(seeder: SeederView, accepted: bool)
    requires
        seeder.wf(),
        seeder.pending() is Some,
        accepted ==> seeder.nonce < u64::MAX,
    ensures
        seeder.next(accepted).wf(),
        seeder.next(accepted).accounts == seeder.accounts,
        seeder.next(accepted).done == seeder.done + 1,
        seeder.pending() matches Some(p) && p.1 == seeder.nonce,
        accepted ==> seeder.next(accepted).nonce == seeder.nonce + 1,
        !accepted ==> seeder.next(accepted).nonce == seeder.nonce,
{
}

/// What is pending is 100,000,000,000,000,000,000 for the account whose turn it is, as long as
/// there is one.
pub proof fn law_account_in_turn_is_pending(seeder: SeederView)
    requires
        seeder.wf(),
    ensures
        seeder.pending() is None <==> seeder.done == seeder.accounts.len(),
        seeder.pending() matches Some(p) ==> p.0.dest == seeder.accounts[seeder.done] && p.0.amount
            == 100_000_000_000_000_000_000,
{
}

/// A seeder begins with the first account, and with the nonce that was looked up or else with
/// zero.
pub proof fn law_seeding_begins_with_the_first_account(
    accounts: Seq<AccountKey>,
    nonce: u64,
    error: String,
)
    requires
        accounts.len() > 0,
    ensures
        starting(accounts, Ok(nonce)).accounts == accounts,
        starting(accounts, Err(error)).accounts == accounts,
        starting(accounts, Ok(nonce)).pending() matches Some(p) && p.0.dest == accounts[0] && p.1
            == nonce,
        starting(accounts, Err(error)).pending() matches Some(p) && p.0.dest == accounts[0] && p.1
            == 0,
{
}

} // verus!
