//! The calls that are submitted to the chain.

use vstd::prelude::*;

verus! {

/// The pallet of a single transfer.
pub const BALANCES: &'static str = "Balances";

/// The call of a single transfer.
pub const TRANSFER_KEEP_ALIVE: &'static str = "transfer_keep_alive";

/// The pallet of a batch.
pub const UTILITY: &'static str = "Utility";

/// The call of a batch.
pub const BATCH: &'static str = "batch";

/// What a sender moves to a receiver with each transfer.
pub const SEND_AMOUNT: u128 = 1_000_000_000_000;

/// What the faucet account moves to each sender that it seeds.
pub const SEED_AMOUNT: u128 = 100_000_000_000_000_000_000;

/// An account's public key.
pub type AccountKey = [u8; 32];

/// One transfer that keeps its sender alive.
#[derive(Clone, Copy, Debug, PartialEq, Eq)]
pub struct Transfer {
    pub dest: AccountKey,
    pub amount: u128,
}

/// What one transaction carries.
#[derive(Debug, PartialEq, Eq)]
pub enum Payload {
    Single(Transfer),
    Batch(Vec<Transfer>),
}

/// The model of a `Payload`.
pub ghost enum PayloadView {
    Single(Transfer),
    Batch(Seq<Transfer>),
}

impl View for Payload {
    type V = PayloadView;

    open spec fn view(&self) -> PayloadView {
        match self {
            Payload::Single(t) => PayloadView::Single(*t),
            Payload::Batch(ts) => PayloadView::Batch(ts@),
        }
    }
}

impl PayloadView {
    /// The transfers that the transaction makes, in order.
    pub open spec fn transfers(self) -> Seq<Transfer> {
        match self {
            PayloadView::Single(t) => seq![t],
            PayloadView::Batch(ts) => ts,
        }
    }
}

impl PayloadView {
    /// The pallet that the transaction calls.
    pub open spec fn pallet(self) -> Seq<char> {
        match self {
            PayloadView::Single(_) => "Balances"@,
            PayloadView::Batch(_) => "Utility"@,
        }
    }

    /// The call within the pallet.
    pub open spec fn call(self) -> Seq<char> {
        match self {
            PayloadView::Single(_) => "transfer_keep_alive"@,
            PayloadView::Batch(_) => "batch"@,
        }
    }
}

/// What a sender submits, given the batch size asked for and its receivers: a batch with one
/// transfer for each receiver if both leave room for more than one, else a transfer to the first
/// receiver.
pub open spec fn send_payload_view(batch: int, receivers: Seq<AccountKey>) -> PayloadView {
    if batch > 1 && receivers.len() > 1 {
        PayloadView::Batch(
            Seq::new(
                receivers.len(),
                |j: int| Transfer { dest: receivers[j], amount: SEND_AMOUNT },
            ),
        )
    } else {
        PayloadView::Single(Transfer { dest: receivers[0], amount: SEND_AMOUNT })
    }
}

/// The transaction of a sender with these receivers.
pub fn send_payload(batch: usize, receivers: &Vec<AccountKey>) -> (p: Payload)
    requires
        receivers@.len() > 0,
    ensures
        p@ == send_payload_view(batch as int, receivers@),
{
    if batch > 1 && receivers.len() > 1 {
        let mut calls: Vec<Transfer> = Vec::new();
        for j in 0..receivers.len()
            invariant
                calls@.len() == j,
                forall|k: int|
                    0 <= k < j ==> #[trigger] calls@[k] == (Transfer {
                        dest: receivers@[k],
                        amount: SEND_AMOUNT,
                    }),
        {
            calls.push(Transfer { dest: receivers[j], amount: SEND_AMOUNT });
        }
        let p = Payload::Batch(calls);
        assert(p@->Batch_0 =~= send_payload_view(batch as int, receivers@)->Batch_0);
        p
    } else {
        Payload::Single(Transfer { dest: receivers[0], amount: SEND_AMOUNT })
    }
}

/// The transaction with which the faucet account funds a sender.
pub fn seed_payload(dest: AccountKey) -> (t: Transfer)
    ensures
        t == (Transfer { dest, amount: SEED_AMOUNT }),
        t.dest == dest,
        t.amount == 100_000_000_000_000_000_000,
{
    Transfer { dest, amount: SEED_AMOUNT }
}

impl Payload {
    /// The pallet that the transaction calls.
    pub fn pallet(&self) -> (name: &'static str)
        ensures
            name@ == (if self is Batch { "Utility"@ } else { "Balances"@ }),
            name@ == self@.pallet(),
    {
        match self {
            Payload::Single(_) => BALANCES,
            Payload::Batch(_) => UTILITY,
        }
    }

    /// The call within the pallet.
    pub fn call(&self) -> (name: &'static str)
        ensures
            name@ == (if self is Batch { "batch"@ } else { "transfer_keep_alive"@ }),
            name@ == self@.call(),
    {
        match self {
            Payload::Single(_) => TRANSFER_KEEP_ALIVE,
            Payload::Batch(_) => BATCH,
        }
    }
}

/// Whatever the batch size, a sender's transaction moves `SEND_AMOUNT` to each of its first
/// receivers, in order: to all of them if batches were asked for, and else to the first alone. It
/// pays nobody who is not a receiver.
pub proof fn law_send_payload_pays_a_prefix(batch: int, receivers: Seq<AccountKey>)
    requires
        receivers.len() > 0,
    ensures
        ({
            let ts = send_payload_view(batch, receivers).transfers();
            &&& 1 <= ts.len() <= receivers.len()
            &&& ts.len() == if batch > 1 { receivers.len() } else { 1 }
            &&& forall|j: int|
                0 <= j < ts.len() ==> #[trigger] ts[j] == (Transfer {
                    dest: receivers[j],
                    amount: SEND_AMOUNT,
                })
        }),
{
}

/// What a sender's transaction is: with batches and more than one receiver, a batch that holds one
/// transfer of 1,000,000,000,000 for each receiver, in order; and in all other cases one such
/// transfer to the first receiver, which is called directly.
pub proof fn law_transaction_pays_the_receivers(batch: int, receivers: Seq<AccountKey>)
    requires
        receivers.len() > 0,
    ensures
        batch > 1 && receivers.len() > 1 <==> send_payload_view(batch, receivers) is Batch,
        match send_payload_view(batch, receivers) {
            PayloadView::Single(t) => t.dest == receivers[0] && t.amount == 1_000_000_000_000,
            PayloadView::Batch(ts) => {
                &&& ts.len() == receivers.len()
                &&& forall|j: int|
                    0 <= j < ts.len() ==> (#[trigger] ts[j]).dest == receivers[j] && ts[j].amount
                        == 1_000_000_000_000
            },
        },
        batch > 1 && receivers.len() > 1 ==> send_payload_view(batch, receivers).pallet()
            == "Utility"@ && send_payload_view(batch, receivers).call() == "batch"@,
        batch <= 1 || receivers.len() == 1 ==> send_payload_view(batch, receivers).pallet()
            == "Balances"@ && send_payload_view(batch, receivers).call() == "transfer_keep_alive"@,
{
}

} // verus!
