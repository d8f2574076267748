//! The connection to the node, which is tried a few times.

use vstd::prelude::*;

verus! {

/// How often a connection is tried before it is given up.
pub const CONNECT_ATTEMPTS: u32 = 5;

/// The pause after the first failed attempt; each later one is longer by as much.
pub const CONNECT_RETRY_MS: u64 = 2_000;

/// What the text of a node's address means: the same address in its normal form, or what is wrong
/// with it.
pub uninterp spec fn parsed_address(address: Seq<char>) -> Result<Seq<char>, Seq<char>>;

/// The normal form of a node's address, or what is wrong with it.
///
/// Calls `url::Url::parse`. Trusted: that the outcome is a function of the text; which texts are
/// addresses, and what their normal form is, is left to the URL standard. The normal form is the
/// text of the parsed address; an error is rendered by its `Debug` form.
#[verifier::external_body]
fn parse_address(address: &str) -> (parsed: Result<String, String>)
    ensures
        parsed is Ok <==> parsed_address(address@) is Ok,
        parsed matches Ok(text) ==> text@ == parsed_address(address@)->Ok_0,
        parsed matches Err(text) ==> text@ == parsed_address(address@)->Err_0,
{
    match url::Url::parse(address) {
        Ok(url) => Ok(url.to_string()),
        Err(error) => Err(format!("{:?}", error)),
    }
}

/// What to do after a failed attempt.
#[derive(Debug, PartialEq, Eq)]
pub enum ConnectStep {
    /// Pause for so many milliseconds, then try again.
    Retry { delay_ms: u64 },
    /// Give up, with this error.
    GiveUp(String),
}

/// The model of a `ConnectStep`.
pub ghost enum ConnectStepView {
    Retry { delay_ms: int },
    GiveUp(Seq<char>),
}

impl View for ConnectStep {
    type V = ConnectStepView;

    open spec fn view(&self) -> ConnectStepView {
        match self {
            ConnectStep::Retry { delay_ms } => ConnectStepView::Retry {
                delay_ms: *delay_ms as int,
            },
            ConnectStep::GiveUp(text) => ConnectStepView::GiveUp(text@),
        }
    }
}

/// What to do after `failures` failed attempts.
pub open spec fn after_failures(failures: int) -> ConnectStepView {
    if failures < CONNECT_ATTEMPTS {
        ConnectStepView::Retry { delay_ms: CONNECT_RETRY_MS * failures }
    } else {
        ConnectStepView::GiveUp("Failed to create API connection after 5 attempts"@)
    }
}

/// The pauses, in milliseconds, of the first `failures` failed attempts.
pub open spec fn pauses(failures: int) -> int
    decreases failures,
{
    if failures <= 0 {
        0
    } else {
        pauses(failures - 1) + match after_failures(failures) {
            ConnectStepView::Retry { delay_ms } => delay_ms,
            ConnectStepView::GiveUp(_) => 0,
        }
    }
}

/// The model of a `Connector`.
pub ghost struct ConnectorView {
    /// The normal form of the node's address.
    pub endpoint: Seq<char>,
    /// How many attempts have failed.
    pub failures: int,
}

/// A connection that is being made.
#[derive(Debug)]
pub struct Connector {
    endpoint: String,
    failures: u32,
}

impl View for Connector {
    type V = ConnectorView;

    closed spec fn view(&self) -> ConnectorView {
        ConnectorView { endpoint: self.endpoint@, failures: self.failures as int }
    }
}

impl Connector {
    /// A connection to the node at `address`; an address that is none is refused at once.
    pub fn new(address: &str) -> (r: Result<Connector, String>)
        ensures
            match parsed_address(address@) {
                Ok(endpoint) => r matches Ok(c) && c@ == (ConnectorView { endpoint, failures: 0 }),
                Err(error) => r matches Err(text) && text@ == error,
            },
    {
        Connector::from_parsed(parse_address(address))
    }

    /// A connection to the node at an address that was parsed.
    pub fn from_parsed(parsed: Result<String, String>) -> (r: Result<Connector, String>)
        ensures
            match parsed {
                Ok(endpoint) => r matches Ok(c) && c@ == (ConnectorView {
                    endpoint: endpoint@,
                    failures: 0,
                }),
                Err(error) => r == Err::<Connector, String>(error),
            },
    {
        match parsed {
            Ok(endpoint) => Ok(Connector { endpoint, failures: 0 }),
            Err(error) => Err(error),
        }
    }

    /// The address to connect to.
    pub fn endpoint(&self) -> (text: &str)
        ensures
            text@ == self@.endpoint,
    {
        self.endpoint.as_str()
    }

    /// How many attempts have failed.
    pub fn failures(&self) -> (n: u32)
        ensures
            n == self@.failures,
    {
        self.failures
    }

    /// Takes in that an attempt failed and says what to do next.
    pub fn failed(&mut self) -> (step: ConnectStep)
        requires
            old(self)@.failures < CONNECT_ATTEMPTS,
        ensures
            final(self)@ == (ConnectorView { failures: old(self)@.failures + 1, ..old(self)@ }),
            step@ == after_failures(old(self)@.failures + 1),
    {
        self.failures = self.failures + 1;
        if self.failures < CONNECT_ATTEMPTS {
            ConnectStep::Retry { delay_ms: CONNECT_RETRY_MS * (self.failures as u64) }
        } else {
            ConnectStep::GiveUp("Failed to create API connection after 5 attempts".to_string())
        }
    }
}

/// A connection is given up after exactly as many failures as there are attempts, and not before;
/// each pause is longer than the one before it, and none follows the last failure.
pub proof fn law_connection_is_given_up_at_the_limit(failures: int)
    requires
        0 < failures <= CONNECT_ATTEMPTS,
    ensures
        after_failures(failures) is GiveUp <==> failures == CONNECT_ATTEMPTS,
        failures + 1 < CONNECT_ATTEMPTS ==> after_failures(failures)->delay_ms < after_failures(
            failures + 1,
        )->delay_ms,
        failures < CONNECT_ATTEMPTS ==> pauses(failures) == CONNECT_RETRY_MS * (failures * (failures
            + 1) / 2),
        pauses(CONNECT_ATTEMPTS as int) == pauses(CONNECT_ATTEMPTS - 1),
    decreases failures,
{
    if failures > 1 {
        law_connection_is_given_up_at_the_limit(failures - 1);
        assert(failures * (failures + 1) == (failures - 1) * failures + 2 * failures)
            by (nonlinear_arith);
    } else {
        reveal_with_fuel(pauses, 2);
    }
}

/// A connection is tried five times. The four pauses between the attempts last for two, four, six
/// and eight seconds, each for two seconds more than the one before it, so that it is given up
/// after twenty seconds of pauses, with an error that says so.
pub proof fn law_connection_is_tried_five_times(failures: int)
    requires
        1 <= failures <= 5,
    ensures
        failures < 5 ==> after_failures(failures) is Retry && after_failures(failures)->delay_ms
            == 2_000 * failures,
        failures < 4 ==> after_failures(failures + 1)->delay_ms == after_failures(
            failures,
        )->delay_ms + 2_000,
        failures == 5 ==> after_failures(failures) == ConnectStepView::GiveUp(
            "Failed to create API connection after 5 attempts"@,
        ),
        pauses(5) == 20_000,
{
    reveal_with_fuel(pauses, 6);
}

} // verus!
