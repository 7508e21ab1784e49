//! The decisions of a connection attempt.

use vstd::arithmetic::power::pow;
use vstd::prelude::*;

use crate::channel::Channel;
use crate::endpoint::{endpoint_of, texts_view, url_parsed, url_with_path, within_url_limit};
use crate::error::{CrosisError, ErrorView};
use crate::metadata::{
    fetch_result_view, FetchConnectionMetadataError, FetchConnectionMetadataResult, FetchErrorView,
    MetadataView,
};

verus! {

/// How often a failed fetch of the metadata is repeated at most.
pub const MAX_RETRIES: u32 = 3;

/// What happened last in a connection attempt.
#[derive(Debug)]
pub enum ConnectEvent<L, S> {
    /// Nothing yet.
    Start,
    /// A fetch of the metadata ended, after `retries` repetitions.
    Fetched { retries: u32, outcome: FetchConnectionMetadataResult },
    /// The websocket is open: `link` reaches it, and `inbox` is where the
    /// messages of channel 0 go.
    Dialed { link: L, inbox: S },
    /// The websocket could not be opened.
    DialFailed(tokio_tungstenite::tungstenite::Error),
    /// The session was started, and maybe waited for.
    Launched(Channel),
}

/// What to do next in a connection attempt.
#[derive(Debug)]
pub enum ConnectStep {
    /// Fetch the metadata for the first time.
    Fetch,
    /// Wait, then fetch again; `retries` is the new count of repetitions.
    Retry { after_millis: u64, retries: u32 },
    /// Dial this address.
    Dial(String),
    /// Start the session; the channel is the client's channel 0.
    Launch(Channel),
    /// Let the session go on for a moment.
    Wait(Channel),
    /// The client is connected.
    Ready(Channel),
    /// Give up.
    Fail(CrosisError),
}

/// The mathematical content of a [`ConnectStep`].
pub enum ConnectStepView {
    Fetch,
    Retry { after_millis: int, retries: u32 },
    Dial(Seq<char>),
    Launch(Channel),
    Wait(Channel),
    Ready(Channel),
    Fail(ErrorView),
}

impl View for ConnectStep {
    type V = ConnectStepView;

    open spec fn view(&self) -> ConnectStepView {
        match *self {
            ConnectStep::Fetch => ConnectStepView::Fetch,
            ConnectStep::Retry { after_millis, retries } => ConnectStepView::Retry {
                after_millis: after_millis as int,
                retries,
            },
            ConnectStep::Dial(address) => ConnectStepView::Dial(address@),
            ConnectStep::Launch(channel) => ConnectStepView::Launch(channel),
            ConnectStep::Wait(channel) => ConnectStepView::Wait(channel),
            ConnectStep::Ready(channel) => ConnectStepView::Ready(channel),
            ConnectStep::Fail(error) => ConnectStepView::Fail(error@),
        }
    }
}

/// How long to wait before the repetition that follows `retries` others: ten
/// milliseconds at first, ten times as long each time.
pub open spec fn retry_delay(retries: u32) -> int {
    10 * pow(10, retries as nat)
}

/// What follows a failed fetch, `retries` repetitions into the attempt.
pub open spec fn after_fetch_error(retries: u32, error: FetchErrorView) -> ConnectStepView {
    match error {
        FetchErrorView::Abort => ConnectStepView::Fail(ErrorView::ConnectionMetadataFetchError),
        FetchErrorView::Other(error) => ConnectStepView::Fail(error),
        FetchErrorView::Retriable => if retries >= MAX_RETRIES {
            ConnectStepView::Fail(ErrorView::ConnectionMetadataFetchError)
        } else {
            ConnectStepView::Retry {
                after_millis: retry_delay(retries),
                retries: (retries + 1) as u32,
            }
        },
    }
}

/// What follows the computation of the address.
pub open spec fn after_endpoint(endpoint: Result<Seq<char>, Seq<char>>) -> ConnectStepView {
    match endpoint {
        Ok(address) => ConnectStepView::Dial(address),
        Err(text) => ConnectStepView::Fail(ErrorView::ConnectionMetadataParseError(text)),
    }
}

/// What follows a fetch, `retries` repetitions into the attempt.
pub open spec fn after_fetch(
    retries: u32,
    outcome: Result<MetadataView, FetchErrorView>,
) -> ConnectStepView {
    match outcome {
        Ok(metadata) => after_endpoint(endpoint_of(metadata)),
        Err(error) => after_fetch_error(retries, error),
    }
}

/// Decides what follows a failed fetch.
pub fn fetch_error_step(retries: u32, error: FetchConnectionMetadataError) -> (step: ConnectStep)
    ensures
        step@ == after_fetch_error(retries, error@),
        match error {
            FetchConnectionMetadataError::Abort => step
                == ConnectStep::Fail(CrosisError::ConnectionMetadataFetchError),
            FetchConnectionMetadataError::Other(cause) => step == ConnectStep::Fail(cause),
            FetchConnectionMetadataError::Retriable => if retries >= 3 {
                step == ConnectStep::Fail(CrosisError::ConnectionMetadataFetchError)
            } else {
                step matches ConnectStep::Retry { after_millis, retries: next } && next == retries
                    + 1 && after_millis == (if retries == 0 {
                    10int
                } else if retries == 1 {
                    100
                } else {
                    1000
                })
            },
        },
{
    match error {
        FetchConnectionMetadataError::Abort => ConnectStep::Fail(
            CrosisError::ConnectionMetadataFetchError,
        ),
        FetchConnectionMetadataError::Other(error) => ConnectStep::Fail(error),
        FetchConnectionMetadataError::Retriable => {
            if retries >= MAX_RETRIES {
                return ConnectStep::Fail(CrosisError::ConnectionMetadataFetchError);
            }
            proof {
                reveal(pow);
                reveal_with_fuel(pow, 3);
            }
            let after_millis: u64 = if retries == 0 {
                10
            } else if retries == 1 {
                100
            } else {
                1000
            };
            ConnectStep::Retry { after_millis, retries: retries + 1 }
        },
    }
}

/// Decides what follows the computation of the address: `endpoint` holds the
/// address, or the text of the error if there is none.
pub fn endpoint_step(endpoint: Result<String, String>) -> (step: ConnectStep)
    ensures
        step@ == after_endpoint(texts_view(endpoint)),
        match endpoint {
            Ok(address) => step == ConnectStep::Dial(address),
            Err(text) => step
                == ConnectStep::Fail(CrosisError::ConnectionMetadataParseError(text)),
        },
{
    match endpoint {
        Ok(address) => ConnectStep::Dial(address),
        Err(text) => ConnectStep::Fail(CrosisError::ConnectionMetadataParseError(text)),
    }
}

/// Decides what follows a fetch.
pub fn fetch_step(retries: u32, outcome: FetchConnectionMetadataResult) -> (step: ConnectStep)
    requires
        outcome matches Ok(metadata) ==> within_url_limit(metadata@),
    ensures
        step@ == after_fetch(retries, fetch_result_view(outcome)),
        outcome matches Ok(metadata) ==> match url_parsed(metadata.gurl@) {
            Ok(_) => step matches ConnectStep::Dial(address) && address@ == url_with_path(
                metadata.gurl@,
                "/wsv2/"@ + metadata.token@,
            ),
            Err(cause) => step matches ConnectStep::Fail(
                CrosisError::ConnectionMetadataParseError(text),
            ) && text@ == cause,
        },
        outcome matches Err(FetchConnectionMetadataError::Abort) ==> step
            == ConnectStep::Fail(CrosisError::ConnectionMetadataFetchError),
        outcome matches Err(FetchConnectionMetadataError::Other(cause)) ==> step
            == ConnectStep::Fail(cause),
        outcome matches Err(FetchConnectionMetadataError::Retriable) ==> if retries >= 3 {
            step == ConnectStep::Fail(CrosisError::ConnectionMetadataFetchError)
        } else {
            step matches ConnectStep::Retry { after_millis, retries: next } && next == retries + 1
                && after_millis == (if retries == 0 {
                10int
            } else if retries == 1 {
                100
            } else {
                1000
            })
        },
{
    match outcome {
        Ok(metadata) => endpoint_step(metadata.endpoint()),
        Err(error) => fetch_error_step(retries, error),
    }
}

/// What becomes of an attempt in which the fetches end with `outcomes`, one
/// after the other: how many of them are made, how long it waits in between,
/// and what it decides in the end, if it does.
pub open spec fn attempt(
    retries: u32,
    outcomes: Seq<Result<MetadataView, FetchErrorView>>,
) -> (nat, int, Option<ConnectStepView>)
    decreases outcomes.len(),
{
    if outcomes.len() == 0 {
        (0, 0, None)
    } else {
        match after_fetch(retries, outcomes[0]) {
            ConnectStepView::Retry { after_millis, retries: next } => {
                let (fetches, waited, last) = attempt(next, outcomes.drop_first());
                (fetches + 1, waited + after_millis, last)
            },
            step => (1, 0, Some(step)),
        }
    }
}

/// An attempt fetches the metadata four times at most, waits 1110
/// milliseconds at most, and has come to its decision after four fetches.
pub proof fn law_attempt_is_bounded(outcomes: Seq<Result<MetadataView, FetchErrorView>>)
    ensures
        attempt(0, outcomes).0 <= MAX_RETRIES + 1,
        0 <= attempt(0, outcomes).1 <= 1110,
        outcomes.len() > MAX_RETRIES ==> attempt(0, outcomes).2 is Some,
        attempt(0, outcomes).2 is None ==> attempt(0, outcomes).0 == outcomes.len(),
{
    reveal(pow);
    reveal_with_fuel(pow, 4);
    reveal_with_fuel(attempt, 5);
}

/// Four fetches in a row that may work later end the attempt with a fetch
/// error, after waits of 10, 100 and 1000 milliseconds.
pub proof fn law_persistent_failure(outcomes: Seq<Result<MetadataView, FetchErrorView>>)
    requires
        outcomes.len() >= MAX_RETRIES + 1,
        forall|i: int|
            0 <= i <= MAX_RETRIES ==> #[trigger] outcomes[i] == Err::<MetadataView, _>(
                FetchErrorView::Retriable,
            ),
    ensures
        attempt(0, outcomes) == (
            (MAX_RETRIES + 1) as nat,
            retry_delay(0) + retry_delay(1) + retry_delay(2),
            Some(ConnectStepView::Fail(ErrorView::ConnectionMetadataFetchError)),
        ),
        retry_delay(0) == 10,
        retry_delay(1) == 100,
        retry_delay(2) == 1000,
{
    reveal(pow);
    reveal_with_fuel(pow, 4);
    reveal_with_fuel(attempt, 5);
    assert(outcomes.drop_first()[0] == outcomes[1]);
    assert(outcomes.drop_first().drop_first()[0] == outcomes[2]);
    assert(outcomes.drop_first().drop_first().drop_first()[0] == outcomes[3]);
}

} // verus!
