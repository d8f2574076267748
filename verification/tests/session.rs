use sender::account::AccountQuery;
use sender::connect::{ConnectStep, Connector};
use sender::lookup::{LookupStep, NonceLookup};
use sender::monitor::Verdict;
use sender::payload::{Transfer, SEED_AMOUNT};
use sender::seeding::Seeder;
use sender::session::{Session, SessionAction, SessionEvent};

fn failed(text: &str) -> Result<u64, String> {
    Err(text.to_string())
}

const QUERY: AccountQuery = AccountQuery { block: [5; 32], key: [6; 32] };

#[test]
fn accounts_stand_in_the_system_pallet() {
    assert_eq!((QUERY.pallet(), QUERY.entry()), ("System", "Account"));
}

#[test]
fn nonce_is_asked_for_three_times() {
    let mut lookup = NonceLookup::new(QUERY);
    let retry = |text: &str, delay_ms| LookupStep::Retry { error: text.to_string(), delay_ms };
    assert_eq!(lookup.attempted(failed("a")), retry("a", 500));
    assert_eq!((lookup.failures(), lookup.query()), (1, QUERY));
    assert_eq!(lookup.attempted(failed("b")), retry("b", 1000));
    assert_eq!((lookup.failures(), lookup.query()), (2, QUERY));
    assert_eq!(lookup.attempted(failed("c")), LookupStep::Done(failed("c")));
}

#[test]
fn first_success_ends_the_lookup() {
    let mut lookup = NonceLookup::new(QUERY);
    lookup.attempted(failed("a"));
    assert_eq!(lookup.attempted(Ok(42)), LookupStep::Done(Ok(42)));
    let mut lookup = NonceLookup::with_retry(QUERY, 1);
    assert_eq!(lookup.attempted(failed("a")), LookupStep::Done(failed("a")));
}

#[test]
fn address_is_put_in_its_normal_form() {
    let c = Connector::new("ws://Localhost:9944").unwrap();
    assert_eq!(c.endpoint(), "ws://localhost:9944/");
    assert_eq!(c.failures(), 0);
}

#[test]
fn text_that_is_no_address_is_refused() {
    assert_eq!(Connector::new("localhost").unwrap_err(), "RelativeUrlWithoutBase");
    assert_eq!(Connector::new("ws://").unwrap_err(), "EmptyHost");
    assert_eq!(Connector::from_parsed(Err("bad".to_string())).unwrap_err(), "bad");
    assert_eq!(Connector::from_parsed(Ok("x".to_string())).unwrap().endpoint(), "x");
}

#[test]
fn connection_is_tried_five_times() {
    let mut c = Connector::new("ws://127.0.0.1:9944").unwrap();
    for delay_ms in [2000, 4000, 6000, 8000] {
        assert_eq!(c.failed(), ConnectStep::Retry { delay_ms });
    }
    let text = "Failed to create API connection after 5 attempts";
    assert_eq!(c.failed(), ConnectStep::GiveUp(text.to_string()));
    assert_eq!(c.failures(), 5);
}

#[test]
fn seeding_gives_every_account_one_turn() {
    let mut s = Seeder::new(vec![[1; 32], [2; 32], [3; 32]], Ok(10));
    let seed = |k: u8, nonce: u64| Some((Transfer { dest: [k; 32], amount: SEED_AMOUNT }, nonce));
    assert_eq!(s.pending(), seed(1, 10));
    s.submitted(true);
    assert_eq!(s.pending(), seed(2, 11));
    s.submitted(false);
    assert_eq!(s.pending(), seed(3, 11));
    s.submitted(true);
    assert_eq!(s.pending(), None);
}

#[test]
fn seeding_without_a_nonce_starts_from_zero() {
    let s = Seeder::new(vec![[1; 32]], failed("x"));
    assert_eq!(s.pending().unwrap().1, 0);
    assert_eq!(Seeder::new(vec![], Ok(1)).pending(), None);
}

fn step(s: &mut Session, event: SessionEvent) -> SessionAction {
    assert!(s.accepts(&event));
    s.step(event)
}

fn watching() -> Session {
    let (mut s, first) = Session::new();
    assert_eq!(first, SessionAction::Connect);
    assert_eq!(step(&mut s, SessionEvent::Connected(true)), SessionAction::Subscribe);
    assert_eq!(step(&mut s, SessionEvent::Subscribed(true)), SessionAction::AwaitFirstBlock);
    assert_eq!(
        step(&mut s, SessionEvent::GotFirstBlock(true)),
        SessionAction::StartRound { first: true }
    );
    assert_eq!(step(&mut s, SessionEvent::Started), SessionAction::AwaitBlock);
    s
}

#[test]
fn rounds_follow_each_other() {
    let mut s = watching();
    for verdict in [Verdict::TooSlow, Verdict::TasksDied, Verdict::TimeUp] {
        assert_eq!(step(&mut s, SessionEvent::GotBlock(true)), SessionAction::ReadBlock);
        assert_eq!(
            step(&mut s, SessionEvent::Read(Some(Verdict::Continue))),
            SessionAction::AwaitBlock
        );
        assert_eq!(step(&mut s, SessionEvent::GotBlock(true)), SessionAction::ReadBlock);
        assert_eq!(
            step(&mut s, SessionEvent::Read(Some(verdict))),
            SessionAction::AbortSenders
        );
        assert_eq!(
            step(&mut s, SessionEvent::Aborted),
            SessionAction::StartRound { first: false }
        );
        assert_eq!(step(&mut s, SessionEvent::Started), SessionAction::AwaitBlock);
    }
}

#[test]
fn block_that_cannot_be_fetched_is_skipped() {
    let mut s = watching();
    step(&mut s, SessionEvent::GotBlock(true));
    assert_eq!(step(&mut s, SessionEvent::Read(None)), SessionAction::AwaitBlock);
}

#[test]
fn lost_subscription_starts_the_session_over() {
    let mut s = watching();
    assert_eq!(step(&mut s, SessionEvent::GotBlock(false)), SessionAction::AbortSenders);
    assert_eq!(step(&mut s, SessionEvent::Aborted), SessionAction::Sleep(5000));
    assert_eq!(step(&mut s, SessionEvent::Woke), SessionAction::Connect);
    assert!(!s.accepts(&SessionEvent::Started));
}

#[test]
fn failures_before_the_first_round_start_the_session_over() {
    let (mut s, _) = Session::new();
    assert_eq!(step(&mut s, SessionEvent::Connected(false)), SessionAction::Sleep(5000));
    assert_eq!(step(&mut s, SessionEvent::Woke), SessionAction::Sleep(5000));
    assert_eq!(step(&mut s, SessionEvent::Woke), SessionAction::Connect);
    step(&mut s, SessionEvent::Connected(true));
    assert_eq!(step(&mut s, SessionEvent::Subscribed(false)), SessionAction::Sleep(5000));
    assert_eq!(step(&mut s, SessionEvent::Woke), SessionAction::Connect);
    step(&mut s, SessionEvent::Connected(true));
    step(&mut s, SessionEvent::Subscribed(true));
    assert_eq!(step(&mut s, SessionEvent::GotFirstBlock(false)), SessionAction::Sleep(5000));
    assert_eq!(step(&mut s, SessionEvent::Woke), SessionAction::Connect);
}
