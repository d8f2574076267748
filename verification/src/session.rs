//! A session with the node: connect, run rounds of sending, and start over when the connection is
//! lost.

use vstd::prelude::*;

use crate::monitor::Verdict;

verus! {

/// The pause before the session starts over.
pub const RESTART_MS: u64 = 5_000;

/// What the session is waiting for.
#[derive(Clone, Copy, Debug, PartialEq, Eq)]
pub enum Session {
    /// The connection to the node.
    Connecting,
    /// The end of the pause after the connection failed.
    ConnectBackoff,
    /// The subscription to the best blocks.
    Subscribing,
    /// The first block.
    FirstBlock,
    /// The start of the sender tasks of a round.
    Starting,
    /// The next block.
    Watching,
    /// What the block comes to.
    Reading,
    /// The end of the sender tasks, because the connection was lost or else the round is over.
    Aborting { lost: bool },
    /// The end of the pause before the session starts over.
    Backoff,
}

/// What happened.
#[derive(Clone, Copy, Debug, PartialEq, Eq)]
pub enum SessionEvent {
    /// The pause that was asked for is over.
    Woke,
    /// The node was connected to, or could not be.
    Connected(bool),
    /// The best blocks were subscribed to, or could not be.
    Subscribed(bool),
    /// The first block came, or did not.
    GotFirstBlock(bool),
    /// The sender tasks of the round run.
    Started,
    /// The next block came, or the subscription is lost.
    GotBlock(bool),
    /// What the block comes to, if its extrinsics could be fetched.
    Read(Option<Verdict>),
    /// The sender tasks were told to end.
    Aborted,
}

/// What to do next.
#[derive(Clone, Copy, Debug, PartialEq, Eq)]
pub enum SessionAction {
    /// Pause for so many milliseconds.
    Sleep(u64),
    Connect,
    Subscribe,
    AwaitFirstBlock,
    /// Reset the counters of the backlog and start the sender tasks of a round. With the first
    /// round of a connection, a new monitor begins as well.
    StartRound { first: bool },
    AwaitBlock,
    /// Fetch the block's extrinsics and events and judge the round by them.
    ReadBlock,
    AbortSenders,
}

/// A round that has this outcome for its last block is over.
pub open spec fn ends_round(outcome: Option<Verdict>) -> bool {
    outcome matches Some(v) && v != Verdict::Continue
}

impl Session {
    /// The session can take in `event` now.
    pub open spec fn expects(self, event: SessionEvent) -> bool {
        match event {
            SessionEvent::Woke => self == Session::ConnectBackoff || self == Session::Backoff,
            SessionEvent::Connected(_) => self == Session::Connecting,
            SessionEvent::Subscribed(_) => self == Session::Subscribing,
            SessionEvent::GotFirstBlock(_) => self == Session::FirstBlock,
            SessionEvent::Started => self == Session::Starting,
            SessionEvent::GotBlock(_) => self == Session::Watching,
            SessionEvent::Read(_) => self == Session::Reading,
            SessionEvent::Aborted => self is Aborting,
        }
    }

    /// The session after `event`, and what it does then.
    pub open spec fn next(self, event: SessionEvent) -> (Session, SessionAction) {
        let start_over = (Session::Backoff, SessionAction::Sleep(RESTART_MS));
        match event {
            SessionEvent::Woke => if self == Session::ConnectBackoff {
                start_over
            } else {
                (Session::Connecting, SessionAction::Connect)
            },
            SessionEvent::Connected(ok) => if ok {
                (Session::Subscribing, SessionAction::Subscribe)
            } else {
                (Session::ConnectBackoff, SessionAction::Sleep(RESTART_MS))
            },
            SessionEvent::Subscribed(ok) => if ok {
                (Session::FirstBlock, SessionAction::AwaitFirstBlock)
            } else {
                start_over
            },
            SessionEvent::GotFirstBlock(ok) => if ok {
                (Session::Starting, SessionAction::StartRound { first: true })
            } else {
                start_over
            },
            SessionEvent::Started => (Session::Watching, SessionAction::AwaitBlock),
            SessionEvent::GotBlock(ok) => if ok {
                (Session::Reading, SessionAction::ReadBlock)
            } else {
                (Session::Aborting { lost: true }, SessionAction::AbortSenders)
            },
            SessionEvent::Read(outcome) => if ends_round(outcome) {
                (Session::Aborting { lost: false }, SessionAction::AbortSenders)
            } else {
                (Session::Watching, SessionAction::AwaitBlock)
            },
            SessionEvent::Aborted => if self == (Session::Aborting { lost: true }) {
                start_over
            } else {
                (Session::Starting, SessionAction::StartRound { first: false })
            },
        }
    }

    /// The session after all of `events`.
    pub open spec fn run(self, events: Seq<SessionEvent>) -> Session
        decreases events.len(),
    {
        if events.len() == 0 {
            self
        } else {
            self.run(events.drop_last()).next(events.last()).0
        }
    }

    /// The session could take in each of `events` when it happened.
    pub open spec fn expects_all(self, events: Seq<SessionEvent>) -> bool
        decreases events.len(),
    {
        events.len() == 0 || {
            &&& self.expects_all(events.drop_last())
            &&& self.run(events.drop_last()).expects(events.last())
        }
    }

    /// The sender tasks run.
    pub open spec fn is_sending(self) -> bool {
        self == Session::Watching || self == Session::Reading || self is Aborting
    }

    /// A new session, and what it does first.
    pub fn new() -> (r: (Session, SessionAction))
        ensures
            r == (Session::Connecting, SessionAction::Connect),
    {
        (Session::Connecting, SessionAction::Connect)
    }

    /// Whether the session can take in `event` now.
    pub fn accepts(&self, event: &SessionEvent) -> (yes: bool)
        ensures
            yes == self.expects(*event),
    {
        match (self, event) {
            (Session::ConnectBackoff, SessionEvent::Woke) => true,
            (Session::Backoff, SessionEvent::Woke) => true,
            (Session::Connecting, SessionEvent::Connected(_)) => true,
            (Session::Subscribing, SessionEvent::Subscribed(_)) => true,
            (Session::FirstBlock, SessionEvent::GotFirstBlock(_)) => true,
            (Session::Starting, SessionEvent::Started) => true,
            (Session::Watching, SessionEvent::GotBlock(_)) => true,
            (Session::Reading, SessionEvent::Read(_)) => true,
            (Session::Aborting { .. }, SessionEvent::Aborted) => true,
            _ => false,
        }
    }

    /// Takes in what happened and says what to do next.
    pub fn step(&mut self, event: SessionEvent) -> (action: SessionAction)
        requires
            old(self).expects(event),
        ensures
            (*final(self), action) == old(self).next(event),
    {
        let (phase, action) = match event {
            SessionEvent::Woke => match self {
                Session::ConnectBackoff => (Session::Backoff, SessionAction::Sleep(RESTART_MS)),
                _ => (Session::Connecting, SessionAction::Connect),
            },
            SessionEvent::Connected(true) => (Session::Subscribing, SessionAction::Subscribe),
            SessionEvent::Connected(false) => (
                Session::ConnectBackoff,
                SessionAction::Sleep(RESTART_MS),
            ),
            SessionEvent::Subscribed(true) => (
                Session::FirstBlock,
                SessionAction::AwaitFirstBlock,
            ),
            SessionEvent::Subscribed(false) => (
                Session::Backoff,
                SessionAction::Sleep(RESTART_MS),
            ),
            SessionEvent::GotFirstBlock(true) => (
                Session::Starting,
                SessionAction::StartRound { first: true },
            ),
            SessionEvent::GotFirstBlock(false) => (
                Session::Backoff,
                SessionAction::Sleep(RESTART_MS),
            ),
            SessionEvent::Started => (Session::Watching, SessionAction::AwaitBlock),
            SessionEvent::GotBlock(true) => (Session::Reading, SessionAction::ReadBlock),
            SessionEvent::GotBlock(false) => (
                Session::Aborting { lost: true },
                SessionAction::AbortSenders,
            ),
            SessionEvent::Read(None) => (Session::Watching, SessionAction::AwaitBlock),
            SessionEvent::Read(Some(Verdict::Continue)) => (
                Session::Watching,
                SessionAction::AwaitBlock,
            ),
            SessionEvent::Read(Some(_)) => (
                Session::Aborting { lost: false },
                SessionAction::AbortSenders,
            ),
            SessionEvent::Aborted => match self {
                Session::Aborting { lost: true } => (
                    Session::Backoff,
                    SessionAction::Sleep(RESTART_MS),
                ),
                _ => (Session::Starting, SessionAction::StartRound { first: false }),
            },
        };
        *self = phase;
        action
    }
}

/// How many rounds were started, less how many were ended, in the course of `events`.
pub open spec fn open_rounds(events: Seq<SessionEvent>) -> int
    decreases events.len(),
{
    if events.len() == 0 {
        0
    } else {
        open_rounds(events.drop_last()) + match events.last() {
            SessionEvent::Started => 1int,
            SessionEvent::Aborted => -1int,
            _ => 0int,
        }
    }
}

/// The sender tasks of at most one round run at a time: whatever happens, every round that was
/// started was also ended, but for the one whose tasks run now.
pub proof fn law_rounds_do_not_overlap(events: Seq<SessionEvent>)
    requires
        Session::Connecting.expects_all(events),
    ensures
        open_rounds(events) == if Session::Connecting.run(events).is_sending() {
            1int
        } else {
            0
        },
    decreases events.len(),
{
    if events.len() > 0 {
        law_rounds_do_not_overlap(events.drop_last());
    }
}

/// The session connects and starts a round only while no sender tasks run, and ends the tasks of
/// a round only while they do.
pub proof fn law_actions_fit_the_tasks(session: Session, event: SessionEvent)
    requires
        session.expects(event),
    ensures
        session.next(event).1 == SessionAction::Connect ==> !session.is_sending(),
        session.next(event).1 is StartRound ==> !session.next(event).0.is_sending(),
        session.next(event).1 == SessionAction::AbortSenders ==> session.is_sending(),
        session.next(event).1 == SessionAction::Connect ==> session == Session::Backoff,
        session.next(event).0 == Session::Backoff ==> session.next(event).1
            == SessionAction::Sleep(RESTART_MS),
{
}

/// An attempt to connect has come back.
pub open spec fn connects() -> spec_fn(SessionEvent) -> bool {
    |event: SessionEvent| event is Connected
}

/// Once the subscription to the blocks is lost, no round starts before the node was connected to
/// anew: as long as no attempt to connect has come back, no sender tasks are started.
pub proof fn law_lost_connection_is_made_anew(events: Seq<SessionEvent>)
    requires
        Session::Watching.next(SessionEvent::GotBlock(false)).0.expects_all(events),
        crate::trace::none_is(events, connects()),
    ensures
        ({
            let later = Session::Watching.next(SessionEvent::GotBlock(false)).0.run(events);
            later == (Session::Aborting { lost: true }) || later == Session::Backoff || later
                == Session::Connecting
        }),
    decreases events.len(),
{
    if events.len() > 0 {
        crate::trace::lemma_none_is_before(events, connects());
        law_lost_connection_is_made_anew(events.drop_last());
    }
}

/// A session never ends: in every state there is something that it waits for.
pub proof fn law_session_never_ends(session: Session)
    ensures
        exists|event: SessionEvent| session.expects(event),
{
    let event = match session {
        Session::Connecting => SessionEvent::Connected(true),
        Session::ConnectBackoff => SessionEvent::Woke,
        Session::Subscribing => SessionEvent::Subscribed(true),
        Session::FirstBlock => SessionEvent::GotFirstBlock(true),
        Session::Starting => SessionEvent::Started,
        Session::Watching => SessionEvent::GotBlock(true),
        Session::Reading => SessionEvent::Read(None),
        Session::Aborting { .. } => SessionEvent::Aborted,
        Session::Backoff => SessionEvent::Woke,
    };
    assert(session.expects(event));
}

/// A session takes in the answer to what it asked for, whatever the answer is, and nothing else.
pub proof fn law_session_takes_in_the_answer(
    session: Session,
    event: SessionEvent,
    answer: SessionEvent,
)
    requires
        session.expects(event),
    ensures
        Session::Connecting.expects(answer) <==> answer is Connected,
        session.next(event).0.expects(answer) <==> match session.next(event).1 {
            SessionAction::Sleep(_) => answer is Woke,
            SessionAction::Connect => answer is Connected,
            SessionAction::Subscribe => answer is Subscribed,
            SessionAction::AwaitFirstBlock => answer is GotFirstBlock,
            SessionAction::StartRound { .. } => answer is Started,
            SessionAction::AwaitBlock => answer is GotBlock,
            SessionAction::ReadBlock => answer is Read,
            SessionAction::AbortSenders => answer is Aborted,
        },
{
}

/// As long as all goes well, a session connects, subscribes, waits for a first block, starts a
/// round and reads block after block.
pub proof fn law_session_gets_to_read_blocks(session: Session, event: SessionEvent)
    requires
        session.expects(event),
    ensures
        event == SessionEvent::Connected(true) ==> session.next(event).1
            == SessionAction::Subscribe,
        event == SessionEvent::Subscribed(true) ==> session.next(event).1
            == SessionAction::AwaitFirstBlock,
        event == SessionEvent::GotFirstBlock(true) ==> session.next(event).1 == (
        SessionAction::StartRound { first: true }),
        event == SessionEvent::Started ==> session.next(event).1 == SessionAction::AwaitBlock,
        event == SessionEvent::GotBlock(true) ==> session.next(event).1
            == SessionAction::ReadBlock,
        event == SessionEvent::Read(None) ==> session.next(event).1 == SessionAction::AwaitBlock,
        event == SessionEvent::Read(Some(Verdict::Continue)) ==> session.next(event).1
            == SessionAction::AwaitBlock,
{
}

/// Once a block has shown that a round is over, for whatever reason, its senders are ended and
/// another round starts on the same connection, without a pause and with the same monitor.
pub proof fn law_round_that_is_over_is_followed_by_another(verdict: Verdict)
    requires
        verdict != Verdict::Continue,
    ensures
        ({
            let ended = Session::Reading.next(SessionEvent::Read(Some(verdict)));
            let again = ended.0.next(SessionEvent::Aborted);
            &&& ended.1 == SessionAction::AbortSenders
            &&& again.1 == (SessionAction::StartRound { first: false })
            &&& again.0.next(SessionEvent::Started).1 == SessionAction::AwaitBlock
        }),
{
}

/// A session that loses the node, or cannot get as far as its blocks, connects anew after a pause
/// of five seconds, and after two of them if it could not connect; if senders run, it ends them
/// first.
pub proof fn law_failed_session_starts_over()
    ensures
        ({
            let pause = SessionAction::Sleep(5_000);
            let unconnected = Session::Connecting.next(SessionEvent::Connected(false));
            let unconnected_still = unconnected.0.next(SessionEvent::Woke);
            let unsubscribed = Session::Subscribing.next(SessionEvent::Subscribed(false));
            let blockless = Session::FirstBlock.next(SessionEvent::GotFirstBlock(false));
            let lost = Session::Watching.next(SessionEvent::GotBlock(false));
            let aborted = lost.0.next(SessionEvent::Aborted);
            &&& unconnected.1 == pause
            &&& unconnected_still.1 == pause
            &&& unconnected_still.0.next(SessionEvent::Woke).1 == SessionAction::Connect
            &&& unsubscribed.1 == pause
            &&& unsubscribed.0.next(SessionEvent::Woke).1 == SessionAction::Connect
            &&& blockless.1 == pause
            &&& blockless.0.next(SessionEvent::Woke).1 == SessionAction::Connect
            &&& lost.1 == SessionAction::AbortSenders
            &&& aborted.1 == pause
            &&& aborted.0.next(SessionEvent::Woke).1 == SessionAction::Connect
        }),
{
}

} // verus!
