use sender::payload::{seed_payload, send_payload, Payload, Transfer, SEED_AMOUNT, SEND_AMOUNT};
use sender::plan::{ramp_delay_ms, receivers, started_tasks, Settings};

fn settings(tps: usize, batch: usize) -> Settings {
    Settings { total_senders: None, tps, batch }
}

fn keys(n: u8) -> Vec<[u8; 32]> {
    (0..n).map(|k| [k; 32]).collect()
}

#[test]
fn one_task_per_transaction_without_batches() {
    assert_eq!(settings(50, 1).sender_tasks(), 50);
    assert_eq!(settings(50, 0).sender_tasks(), 50);
    assert_eq!(settings(0, 1).sender_tasks(), 0);
}

#[test]
fn batches_divide_the_tasks() {
    assert_eq!(settings(100, 10).sender_tasks(), 10);
    assert_eq!(settings(105, 10).sender_tasks(), 10);
    assert_eq!(settings(5, 10).sender_tasks(), 0);
}

#[test]
fn tasks_are_capped() {
    assert_eq!(settings(1000, 1).sender_tasks(), 1000);
    assert_eq!(settings(1001, 1).sender_tasks(), 1000);
    assert_eq!(settings(100_000, 2).sender_tasks(), 1000);
}

#[test]
fn plan_stays_within_target() {
    for tps in [0, 1, 7, 999, 1000, 12_345] {
        for batch in [0, 1, 2, 3, 100] {
            let s = settings(tps, batch);
            assert!(s.sender_tasks() * s.batch <= s.tps);
            assert!(s.sender_tasks() <= 1000);
        }
    }
}

#[test]
fn accounts_default_to_the_target() {
    assert_eq!(settings(77, 1).accounts(), 77);
    let s = Settings { total_senders: Some(5), tps: 77, batch: 1 };
    assert_eq!(s.accounts(), 5);
}

#[test]
fn receivers_asked_for_follow_the_batch() {
    assert_eq!(settings(1, 0).receivers_per_task(), 1);
    assert_eq!(settings(1, 1).receivers_per_task(), 1);
    assert_eq!(settings(1, 9).receivers_per_task(), 9);
}

#[test]
fn every_task_needs_an_account() {
    assert_eq!(started_tasks(10, 3), 3);
    assert_eq!(started_tasks(3, 10), 3);
    assert_eq!(started_tasks(3, 0), 0);
}

#[test]
fn last_task_starts_first() {
    assert_eq!(ramp_delay_ms(1000, 0), 10_000);
    assert_eq!(ramp_delay_ms(1000, 999), 10);
    assert_eq!(ramp_delay_ms(4, 4), 0);
}

#[test]
fn receivers_stop_at_the_last_account() {
    let all = keys(5);
    assert_eq!(receivers(0, 1, &all), vec![[0; 32]]);
    assert_eq!(receivers(1, 3, &all), vec![[1; 32], [2; 32], [3; 32]]);
    assert_eq!(receivers(3, 3, &all), vec![[3; 32], [4; 32]]);
    assert_eq!(receivers(4, 3, &all), vec![[4; 32]]);
}

#[test]
fn receivers_wrap_around() {
    let all = keys(5);
    assert_eq!(receivers(5, 2, &all), vec![[0; 32], [1; 32]]);
    assert_eq!(receivers(12, 2, &all), vec![[2; 32], [3; 32]]);
    assert_eq!(receivers(usize::MAX, 0, &all), Vec::<[u8; 32]>::new());
}

#[test]
fn batch_pays_every_receiver() {
    let p = send_payload(3, &keys(3));
    let expected: Vec<Transfer> =
        keys(3).into_iter().map(|dest| Transfer { dest, amount: 1_000_000_000_000 }).collect();
    assert_eq!(p, Payload::Batch(expected));
    assert_eq!((p.pallet(), p.call()), ("Utility", "batch"));
}

#[test]
fn single_transfer_pays_the_first_receiver() {
    let one = Payload::Single(Transfer { dest: [0; 32], amount: 1_000_000_000_000 });
    assert_eq!(send_payload(1, &keys(3)), one);
    assert_eq!(send_payload(0, &keys(1)), one);
    assert_eq!(send_payload(8, &keys(1)), one);
    assert_eq!((one.pallet(), one.call()), ("Balances", "transfer_keep_alive"));
    assert_eq!(SEND_AMOUNT, 1_000_000_000_000);
}

#[test]
fn seeding_moves_more() {
    let t = seed_payload([7; 32]);
    assert_eq!(t, Transfer { dest: [7; 32], amount: 100_000_000_000_000_000_000 });
    assert_eq!(SEED_AMOUNT, 100_000_000_000_000_000_000);
}
