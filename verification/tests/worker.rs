use sender::failure::{is_connection_issue, needs_restart};
use sender::payload::{Payload, Transfer};
use sender::plan::Settings;
use sender::text::{contains, same};
use sender::worker::{Worker, WorkerAction, WorkerEvent};

const SETTINGS: Settings = Settings { total_senders: None, tps: 40, batch: 4 };

fn keys(n: u8) -> Vec<[u8; 32]> {
    (0..n).map(|k| [k; 32]).collect()
}

const START: [u8; 32] = [0xaa; 32];
const LATER: [u8; 32] = [0xbb; 32];

fn calm() -> WorkerEvent {
    WorkerEvent::Backlog { sent: 0, in_block: 0 }
}

fn nonce(n: u64) -> WorkerEvent {
    WorkerEvent::Nonce(Ok(n))
}

fn no_nonce(text: &str) -> WorkerEvent {
    WorkerEvent::Nonce(Err(text.to_string()))
}

fn rejected(text: &str) -> WorkerEvent {
    WorkerEvent::Rejected(text.to_string())
}

fn step(w: &mut Worker, event: WorkerEvent) -> WorkerAction {
    assert!(w.accepts(&event));
    w.step(event)
}

/// A sender of four receivers that is about to submit with nonce `n`.
fn submitting(n: u64) -> Worker {
    let (mut w, first) = Worker::new(&SETTINGS, 0, &keys(10), 1000);
    assert_eq!(first, WorkerAction::Sleep(100));
    assert_eq!(step(&mut w, WorkerEvent::Woke), WorkerAction::ReadBest);
    let fetch = WorkerAction::FetchNonce { block: START };
    assert_eq!(step(&mut w, WorkerEvent::Best(START)), fetch);
    assert_eq!(step(&mut w, nonce(n)), WorkerAction::ReadBacklog);
    assert_eq!(step(&mut w, calm()), WorkerAction::Sleep(0));
    assert_eq!(step(&mut w, WorkerEvent::Woke), WorkerAction::Submit { nonce: n });
    w
}

#[test]
fn accepted_transactions_use_consecutive_nonces() {
    let mut w = submitting(7);
    for k in 0..5 {
        assert_eq!(step(&mut w, WorkerEvent::Accepted), WorkerAction::CountSent(4));
        assert_eq!(step(&mut w, WorkerEvent::Elapsed(300)), WorkerAction::ReadBacklog);
        assert_eq!(step(&mut w, calm()), WorkerAction::Sleep(700));
        assert_eq!(step(&mut w, WorkerEvent::Woke), WorkerAction::Submit { nonce: 8 + k });
    }
}

#[test]
fn slow_submissions_leave_nothing_to_wait() {
    let mut w = submitting(0);
    step(&mut w, WorkerEvent::Accepted);
    step(&mut w, WorkerEvent::Elapsed(1001));
    assert_eq!(step(&mut w, calm()), WorkerAction::Sleep(0));
}

#[test]
fn elapsed_time_counts_in_64_bits() {
    let mut w = submitting(0);
    step(&mut w, WorkerEvent::Accepted);
    step(&mut w, WorkerEvent::Elapsed((1u128 << 64) + 1));
    assert_eq!(step(&mut w, calm()), WorkerAction::Sleep(999));
}

#[test]
fn backlog_holds_the_sender_back() {
    let mut w = submitting(0);
    step(&mut w, WorkerEvent::Accepted);
    step(&mut w, WorkerEvent::Elapsed(985));
    let full = || WorkerEvent::Backlog { sent: 100_006, in_block: 5 };
    assert_eq!(step(&mut w, full()), WorkerAction::Sleep(10));
    assert_eq!(step(&mut w, WorkerEvent::Woke), WorkerAction::ReadBacklog);
    assert_eq!(step(&mut w, full()), WorkerAction::Sleep(10));
    assert_eq!(step(&mut w, WorkerEvent::Woke), WorkerAction::ReadBacklog);
    let edge = WorkerEvent::Backlog { sent: 100_005, in_block: 5 };
    assert_eq!(step(&mut w, edge), WorkerAction::Sleep(0));
}

#[test]
fn throttle_time_counts_as_waiting() {
    let mut w = submitting(0);
    step(&mut w, WorkerEvent::Accepted);
    step(&mut w, WorkerEvent::Elapsed(0));
    step(&mut w, WorkerEvent::Backlog { sent: u64::MAX, in_block: 0 });
    step(&mut w, WorkerEvent::Woke);
    assert_eq!(step(&mut w, calm()), WorkerAction::Sleep(990));
}

#[test]
fn submissions_keep_their_distance() {
    for (taken, holdups) in [(0u64, 0), (300, 0), (300, 3), (300, 80), (995, 1), (2000, 2)] {
        let mut w = submitting(0);
        step(&mut w, WorkerEvent::Accepted);
        step(&mut w, WorkerEvent::Elapsed(taken as u128));
        let mut slept = 0;
        for _ in 0..holdups {
            let full = WorkerEvent::Backlog { sent: 200_000, in_block: 0 };
            assert_eq!(step(&mut w, full), WorkerAction::Sleep(10));
            assert_eq!(step(&mut w, WorkerEvent::Woke), WorkerAction::ReadBacklog);
            slept += 10;
        }
        match step(&mut w, calm()) {
            WorkerAction::Sleep(ms) => slept += ms,
            other => panic!("{:?}", other),
        }
        assert_eq!(step(&mut w, WorkerEvent::Woke), WorkerAction::Submit { nonce: 1 });
        assert!(taken + slept >= 1000);
        if holdups == 0 {
            assert_eq!(slept, 1000 - taken);
        }
    }
}

#[test]
fn count_is_what_is_sent() {
    for batch in [0, 1, 2, 4] {
        let settings = Settings { total_senders: None, tps: 40, batch };
        let (mut w, _) = Worker::new(&settings, 7, &keys(10), 1000);
        step(&mut w, WorkerEvent::Woke);
        step(&mut w, WorkerEvent::Best(START));
        step(&mut w, nonce(0));
        step(&mut w, calm());
        step(&mut w, WorkerEvent::Woke);
        let transfers = match w.payload() {
            Payload::Single(_) => 1,
            Payload::Batch(ts) => ts.len() as u64,
        };
        assert_eq!(step(&mut w, WorkerEvent::Accepted), WorkerAction::CountSent(transfers));
    }
}

#[test]
fn first_nonce_is_asked_for_at_one_block_until_it_comes() {
    let (mut w, _) = Worker::new(&SETTINGS, 3, &keys(10), 1000);
    let fetch = WorkerAction::FetchNonce { block: START };
    assert_eq!(step(&mut w, WorkerEvent::Woke), WorkerAction::ReadBest);
    assert_eq!(step(&mut w, WorkerEvent::Best(START)), fetch);
    assert_eq!(step(&mut w, no_nonce("timeout")), WorkerAction::Sleep(1000));
    assert!(!w.accepts(&WorkerEvent::Best(LATER)));
    assert_eq!(step(&mut w, WorkerEvent::Woke), fetch);
    assert_eq!(step(&mut w, no_nonce("ClientError")), WorkerAction::Sleep(1000));
    assert_eq!(step(&mut w, WorkerEvent::Woke), fetch);
    assert_eq!(step(&mut w, nonce(3)), WorkerAction::ReadBacklog);
}

#[test]
fn rejected_transaction_refreshes_the_nonce() {
    let mut w = submitting(9);
    assert_eq!(step(&mut w, rejected("Invalid")), WorkerAction::ReadBest);
    assert!(!w.accepts(&WorkerEvent::Woke));
    let fetch = WorkerAction::FetchNonce { block: LATER };
    assert_eq!(step(&mut w, WorkerEvent::Best(LATER)), fetch);
    assert_eq!(step(&mut w, nonce(4)), WorkerAction::ReadClock);
    assert_eq!(step(&mut w, WorkerEvent::Elapsed(400)), WorkerAction::ReadBacklog);
    assert_eq!(step(&mut w, calm()), WorkerAction::Sleep(600));
    assert_eq!(step(&mut w, WorkerEvent::Woke), WorkerAction::Submit { nonce: 4 });
}

#[test]
fn connection_issue_pauses_first() {
    for text in ["Rpc(ClientError(x))", "RequestTimeout"] {
        let mut w = submitting(9);
        assert_eq!(step(&mut w, rejected(text)), WorkerAction::Sleep(2000));
        assert_eq!(step(&mut w, WorkerEvent::Woke), WorkerAction::ReadBest);
    }
}

#[test]
fn nonce_that_cannot_be_refreshed_starts_from_zero() {
    let mut w = submitting(9);
    step(&mut w, rejected("Invalid"));
    step(&mut w, WorkerEvent::Best(LATER));
    assert_eq!(step(&mut w, no_nonce("Nonce is not set")), WorkerAction::Sleep(5000));
    assert_eq!(step(&mut w, WorkerEvent::Woke), WorkerAction::ReadClock);
    step(&mut w, WorkerEvent::Elapsed(5001));
    assert_eq!(step(&mut w, calm()), WorkerAction::Sleep(0));
    assert_eq!(step(&mut w, WorkerEvent::Woke), WorkerAction::Submit { nonce: 0 });
}

#[test]
fn restart_error_ends_the_task() {
    let gone = "Rpc(ClientError(RestartNeeded(..)))";
    let mut w = submitting(9);
    assert_eq!(step(&mut w, rejected(gone)), WorkerAction::Exit);
    for event in [WorkerEvent::Woke, nonce(1), calm(), WorkerEvent::Accepted, rejected("x")] {
        assert!(!w.accepts(&event));
    }

    let mut w = submitting(9);
    step(&mut w, rejected("Invalid"));
    step(&mut w, WorkerEvent::Best(LATER));
    assert_eq!(step(&mut w, no_nonce(gone)), WorkerAction::Exit);

    let (mut w, _) = Worker::new(&SETTINGS, 0, &keys(10), 1000);
    step(&mut w, WorkerEvent::Woke);
    step(&mut w, WorkerEvent::Best(START));
    assert_eq!(step(&mut w, no_nonce(gone)), WorkerAction::Exit);
}

#[test]
fn events_that_do_not_fit_are_not_accepted() {
    let (w, _) = Worker::new(&SETTINGS, 0, &keys(10), 1000);
    assert!(w.accepts(&WorkerEvent::Woke));
    assert!(!w.accepts(&nonce(1)));
    assert!(!w.accepts(&WorkerEvent::Elapsed(1)));
    let mut w = submitting(u64::MAX);
    assert!(!w.accepts(&WorkerEvent::Accepted));
    step(&mut w, rejected("Invalid"));
    step(&mut w, WorkerEvent::Best(LATER));
    step(&mut w, nonce(1));
    step(&mut w, WorkerEvent::Elapsed(0));
    assert!(!w.accepts(&WorkerEvent::Backlog { sent: 0, in_block: u64::MAX - 99_999 }));
    assert!(w.accepts(&WorkerEvent::Backlog { sent: 0, in_block: u64::MAX - 100_000 }));
}

#[test]
fn sender_keeps_its_receivers() {
    let w = submitting(1);
    let four: Vec<Transfer> =
        keys(4).into_iter().map(|dest| Transfer { dest, amount: 1_000_000_000_000 }).collect();
    assert_eq!(w.payload(), Payload::Batch(four));
    let (w, delay) = Worker::new(&SETTINGS, 9, &keys(10), 1000);
    assert_eq!(delay, WorkerAction::Sleep(10));
    assert_eq!(
        w.payload(),
        Payload::Single(Transfer { dest: [9; 32], amount: 1_000_000_000_000 })
    );
}

#[test]
fn texts_are_searched() {
    assert!(contains("abcabd", "abd"));
    assert!(contains("abc", ""));
    assert!(contains("", ""));
    assert!(!contains("", "a"));
    assert!(!contains("abab", "abb"));
    assert!(contains("\u{fc}ber Restart", "Restart"));
    assert!(same("\u{fc}", "\u{fc}"));
    assert!(!same("ab", "abc"));
    assert!(!same("ab", "ac"));
}

#[test]
fn errors_are_told_apart() {
    assert!(needs_restart("Rpc(RestartNeeded)"));
    assert!(!needs_restart("restartneeded"));
    assert!(is_connection_issue("a ClientError b"));
    assert!(is_connection_issue("RequestTimeout"));
    assert!(!is_connection_issue("RestartNeeded"));
}
