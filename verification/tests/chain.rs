use frame_system::AccountInfo;
use pallet_balances::AccountData;
use parity_scale_codec::{Compact, Encode};
use sender::account::{nonce_of_decoded, nonce_of_fetch, nonce_of_state};
use sender::block::{rate, timestamp, timestamps, BlockClock, BlockReport, ChainEvent, Extrinsic};
use sender::monitor::{alive, verdict, Monitor, Verdict};
use sender::plan::Settings;
use sender::scale::read_compact;

fn account(nonce: u32) -> Vec<u8> {
    AccountInfo::<u32, AccountData<u128>> {
        nonce,
        consumers: 1,
        providers: 2,
        sufficients: 3,
        data: AccountData::default(),
    }
    .encode()
}

fn extrinsic(pallet: &str, call: &str, fields: Vec<u8>) -> Extrinsic {
    Extrinsic { pallet: Some(pallet.to_string()), call: Some(call.to_string()), fields }
}

fn set(ms: u64) -> Extrinsic {
    extrinsic("Timestamp", "set", Compact(ms).encode())
}

fn transfer() -> Option<ChainEvent> {
    Some(ChainEvent { pallet: "Balances".to_string(), name: "Transfer".to_string() })
}

fn transfers(n: usize) -> Option<Vec<Option<ChainEvent>>> {
    Some((0..n).map(|_| transfer()).collect())
}

fn settings(tps: usize) -> Settings {
    Settings { total_senders: None, tps, batch: 1 }
}

#[test]
fn nonce_is_read_from_an_account() {
    let bytes = account(0x01020304);
    assert_eq!(bytes.len(), 80);
    assert_eq!(nonce_of_state(Some(&bytes)), Ok(0x01020304));
    assert_eq!(nonce_of_state(Some(&account(u32::MAX))), Ok(u32::MAX as u64));
}

#[test]
fn bytes_past_the_account_are_left_alone() {
    let mut bytes = account(5);
    bytes.push(9);
    assert_eq!(nonce_of_state(Some(&bytes)), Ok(5));
}

#[test]
fn account_without_state_has_no_nonce() {
    assert_eq!(nonce_of_state(None), Err("Nonce is not set".to_string()));
}

#[test]
fn short_account_is_refused() {
    let text = "Failed to decode account state: Could not decode `AccountInfo::nonce`:\n\tNot enough data to fill buffer\n";
    assert_eq!(nonce_of_state(Some(&[])), Err(text.to_string()));
    assert!(nonce_of_state(Some(&account(5)[..79])).is_err());
}

#[test]
fn refusal_names_the_cause() {
    assert_eq!(nonce_of_decoded(Ok(3)), Ok(3));
    assert_eq!(
        nonce_of_decoded(Err("cause".to_string())),
        Err("Failed to decode account state: cause".to_string())
    );
}

#[test]
fn failed_fetch_is_passed_on() {
    assert_eq!(nonce_of_fetch(Err("Rpc(x)".to_string())), Err("Rpc(x)".to_string()));
    assert_eq!(nonce_of_fetch(Ok(None)), Err("Nonce is not set".to_string()));
    assert_eq!(nonce_of_fetch(Ok(Some(&account(17)))), Ok(17));
    assert!(nonce_of_fetch(Ok(Some(&account(17)[..4]))).is_err());
}

#[test]
fn compact_numbers_are_read_back() {
    let edges = [
        0,
        1,
        63,
        64,
        (1 << 14) - 1,
        1 << 14,
        (1 << 30) - 1,
        1 << 30,
        (1 << 32) - 1,
        1 << 32,
        (1 << 40) - 1,
        1 << 40,
        (1 << 48) - 1,
        1 << 48,
        (1 << 56) - 1,
        1 << 56,
        u64::MAX,
    ];
    for n in edges {
        let mut bytes = Compact(n).encode();
        assert_eq!(read_compact(&bytes), Some(n));
        bytes.push(0xff);
        assert_eq!(read_compact(&bytes), Some(n));
        bytes.pop();
        bytes.pop();
        assert_eq!(read_compact(&bytes), None);
    }
}

#[test]
fn compact_forms_have_these_bytes() {
    assert_eq!(read_compact(&[20]), Some(5));
    assert_eq!(read_compact(&[0x01, 0x01]), Some(64));
    assert_eq!(read_compact(&[0x02, 0x00, 0x01, 0x00]), Some(1 << 14));
    assert_eq!(read_compact(&[0x03, 0x00, 0x00, 0x00, 0x40]), Some(1 << 30));
    assert_eq!(read_compact(&[0x07, 0, 0, 0, 0, 1]), Some(1 << 32));
    assert_eq!(read_compact(&[0x13, 0, 0, 0, 0, 0, 0, 0, 1]), Some(1 << 56));
}

#[test]
fn longer_forms_than_needed_are_refused() {
    assert_eq!(read_compact(&[]), None);
    assert_eq!(read_compact(&[0x15, 0x00]), None);
    assert_eq!(read_compact(&[0x02, 0x01, 0x00, 0x00]), None);
    assert_eq!(read_compact(&[0x03, 0xff, 0xff, 0xff, 0x3f]), None);
    assert_eq!(read_compact(&[0x07, 0xff, 0xff, 0xff, 0xff, 0]), None);
    assert_eq!(read_compact(&[0x17, 0, 0, 0, 0, 0, 0, 0, 0, 1]), None);
}

#[test]
fn only_timestamp_set_sets_the_time() {
    assert_eq!(timestamp(&set(1_700_000_000_000)), Some(1_700_000_000_000));
    assert_eq!(timestamp(&extrinsic("Timestamp", "get", vec![4])), None);
    assert_eq!(timestamp(&extrinsic("Time", "set", vec![4])), None);
    assert_eq!(timestamp(&extrinsic("Timestamp", "set", vec![])), None);
    let unnamed = Extrinsic { pallet: None, call: Some("set".to_string()), fields: vec![4] };
    assert_eq!(timestamp(&unnamed), None);
    let unnamed = Extrinsic { pallet: Some("Timestamp".to_string()), call: None, fields: vec![4] };
    assert_eq!(timestamp(&unnamed), None);
    assert_eq!(timestamps(&vec![set(1), extrinsic("Nfts", "transfer", vec![]), set(2)]), vec![1, 2]);
}

#[test]
fn transfers_are_counted() {
    let other = Some(ChainEvent { pallet: "Balances".to_string(), name: "Deposit".to_string() });
    let report = BlockReport {
        extrinsics: vec![
            set(1),
            extrinsic("Nfts", "transfer", vec![]),
            extrinsic("Nfts", "mint", vec![]),
            extrinsic("Balances", "transfer", vec![]),
            extrinsic("Nfts", "transfer", vec![]),
        ],
        events: Some(vec![transfer(), None, other, transfer(), transfer()]),
    };
    assert_eq!(report.transaction_count(), 5);
    let report = BlockReport { events: None, ..report };
    assert_eq!(report.transaction_count(), 2);
}

#[test]
fn clock_measures_the_last_step() {
    let mut clock = BlockClock::new();
    clock.set_all(&vec![]);
    assert_eq!(clock, BlockClock { timestamp_ms: 0, block_time_ms: 0 });
    clock.set_all(&vec![1000, 7000]);
    assert_eq!(clock, BlockClock { timestamp_ms: 7000, block_time_ms: 6000 });
    assert!(clock.admits(&vec![7000, 7001]));
    assert!(!clock.admits(&vec![6999]));
    assert!(!clock.admits(&vec![8000, 7999]));
}

#[test]
fn clock_is_cumulative() {
    let mut once = BlockClock::new();
    once.set_all(&vec![3, 5, 9]);
    let mut twice = BlockClock::new();
    twice.set_all(&vec![3, 5]);
    twice.set_all(&vec![9]);
    assert_eq!(once, twice);
}

#[test]
fn rate_is_per_second() {
    assert_eq!(rate(12, 6000), 2);
    assert_eq!(rate(12, 0), 2);
    assert_eq!(rate(11, 6000), 1);
    assert_eq!(rate(5, 1), 5000);
}

#[test]
fn monitor_records_a_block() {
    let mut m = Monitor::new(&settings(100));
    m.start_round();
    let first = BlockReport { extrinsics: vec![set(60_000)], events: transfers(60) };
    assert!(m.admits(&first));
    let out = m.record(&first);
    assert_eq!((out.transactions, out.tps, out.slow), (60, 1, false));
    let second = BlockReport { extrinsics: vec![set(66_000)], events: transfers(60) };
    let out = m.record(&second);
    assert_eq!((out.transactions, out.tps, out.slow), (60, 10, false));
    assert_eq!(m.average_tps(), 5);
    assert_eq!(m.clock().block_time_ms, 6000);
}

#[test]
fn block_from_the_past_is_not_admitted() {
    let mut m = Monitor::new(&settings(100));
    m.record(&BlockReport { extrinsics: vec![set(60_000)], events: None });
    assert!(!m.admits(&BlockReport { extrinsics: vec![set(59_999)], events: None }));
    assert!(m.admits(&BlockReport { extrinsics: vec![set(60_000)], events: None }));
}

#[test]
fn round_is_slow_from_the_thirteenth_block_on() {
    // The sum of the window, twelve times one, is held against a quarter of the target.
    for (target, slow) in [(48, false), (51, false), (52, true)] {
        let mut m = Monitor::new(&settings(target));
        for _ in 0..12 {
            let out = m.record(&BlockReport { extrinsics: vec![], events: transfers(6) });
            assert_eq!((out.tps, out.slow), (1, false));
        }
        let out = m.record(&BlockReport { extrinsics: vec![], events: transfers(6) });
        assert_eq!(out.slow, slow);
    }
}

#[test]
fn window_holds_the_last_twelve() {
    let mut m = Monitor::new(&settings(0));
    for k in 0..20 {
        m.record(&BlockReport { extrinsics: vec![], events: transfers(6 * k) });
    }
    assert_eq!(m.average_tps(), (8..20).sum::<usize>() / 12);
}

#[test]
fn new_round_empties_the_window_but_keeps_the_time() {
    let mut m = Monitor::new(&settings(100));
    m.record(&BlockReport { extrinsics: vec![set(1000)], events: transfers(100) });
    m.start_round();
    assert_eq!(m.clock().block_time_ms, 1000);
    let out = m.record(&BlockReport { extrinsics: vec![set(3000)], events: transfers(10) });
    assert_eq!(out.tps, 5);
    assert_eq!(m.average_tps(), 5);
}

#[test]
fn living_tasks_are_counted() {
    assert_eq!(alive(&vec![]), 0);
    assert_eq!(alive(&vec![false, true, false]), 2);
}

#[test]
fn verdicts() {
    assert_eq!(verdict(false, 5, 10, 0), Verdict::Continue);
    assert_eq!(verdict(false, 4, 10, 0), Verdict::TasksDied);
    assert_eq!(verdict(false, 0, 1, 0), Verdict::Continue);
    assert_eq!(verdict(false, 10, 10, 300_000_000_000), Verdict::Continue);
    assert_eq!(verdict(false, 10, 10, 300_000_000_001), Verdict::TimeUp);
    assert_eq!(verdict(true, 0, 10, 300_000_000_001), Verdict::TooSlow);
    assert_eq!(verdict(false, 0, 10, 300_000_000_001), Verdict::TasksDied);
}
