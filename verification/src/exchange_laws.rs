//! What holds of a connection attempt: what is asked for, and what becomes of
//! the answers.

use vstd::arithmetic::power::pow;
use vstd::prelude::*;

use crate::connect::{
    after_endpoint, after_fetch, after_fetch_error, retry_delay, ConnectStep, ConnectStepView,
};
use crate::default_connection_metadata::{
    metadata_request, DefaultConnectionMetadataFetcher, FetchAction, FetchActionView, FetchEvent,
    MetadataRequest,
};
use crate::endpoint::{endpoint_of, url_parsed, url_with_path, websocket_path, within_url_limit};
use crate::error::ErrorView;
use crate::metadata::{
    fetch_result_view, FetchConnectionMetadataError, FetchConnectionMetadataResult, FetchErrorView,
    GovalMetadata, MetadataView,
};

verus! {

/// The content of metadata is that of its fields.
pub proof fn law_metadata_content(metadata: GovalMetadata)
    ensures
        metadata@.conman_url == metadata.conman_url@,
        metadata@.gurl == metadata.gurl@,
        metadata@.token == metadata.token@,
{
}

/// The content of the outcome of a fetch is that of what it holds.
pub proof fn law_fetch_result_content(result: FetchConnectionMetadataResult)
    ensures
        match result {
            Ok(metadata) => fetch_result_view(result) matches Ok(content) && {
                &&& content.conman_url == metadata.conman_url@
                &&& content.gurl == metadata.gurl@
                &&& content.token == metadata.token@
            },
            Err(FetchConnectionMetadataError::Abort) => fetch_result_view(result)
                matches Err(FetchErrorView::Abort),
            Err(FetchConnectionMetadataError::Retriable) => fetch_result_view(result)
                matches Err(FetchErrorView::Retriable),
            Err(FetchConnectionMetadataError::Other(error)) => fetch_result_view(result)
                matches Err(FetchErrorView::Other(content)) && content == error@,
        },
{
}

/// The metadata that the response holds is what the exchange yields, each
/// field by itself.
pub proof fn law_exchange_yields_what_it_read(
    fetcher: DefaultConnectionMetadataFetcher,
    metadata: GovalMetadata,
)
    ensures
        fetcher.fetch_step(FetchEvent::BodyParsed(metadata)) matches FetchActionView::Finish(
            Ok(fetched),
        ) && {
            &&& fetched.conman_url == metadata.conman_url@
            &&& fetched.gurl == metadata.gurl@
            &&& fetched.token == metadata.token@
        },
{
}

/// Whatever metadata the response holds, the address that the attempt dials is
/// made of its address and its token; or, if its address is no URL, the attempt
/// fails with what the parser says of it.
pub proof fn law_read_metadata_is_dialed(
    fetcher: DefaultConnectionMetadataFetcher,
    metadata: GovalMetadata,
    retries: u32,
)
    ensures
        fetcher.fetch_step(FetchEvent::BodyParsed(metadata)) matches FetchActionView::Finish(
            outcome,
        ) && match url_parsed(metadata.gurl@) {
            Ok(_) => after_fetch(retries, outcome) matches ConnectStepView::Dial(address) && address
                == url_with_path(metadata.gurl@, "/wsv2/"@ + metadata.token@),
            Err(cause) => after_fetch(retries, outcome) matches ConnectStepView::Fail(
                ErrorView::ConnectionMetadataParseError(text),
            ) && text == cause,
        },
{
}

/// What follows a fetch that worked does not depend on how often it was
/// repeated, nor on the conman URL.
pub proof fn law_dial_rests_on_address_and_token(
    a: MetadataView,
    b: MetadataView,
    retries: u32,
    other_retries: u32,
)
    requires
        a.gurl == b.gurl,
        a.token == b.token,
    ensures
        after_fetch(retries, Ok(a)) == after_fetch(other_retries, Ok(b)),
{
}

/// The exchange asks the right server, for the right repl, in the name of the
/// right user, and says so in no other place.
pub proof fn law_request_names_repl_and_user(fetcher: DefaultConnectionMetadataFetcher)
    ensures
        fetcher.fetch_step(FetchEvent::Start) matches FetchActionView::Post(request) && {
            &&& request.url == "https://replit.com/data/repls/"@ + fetcher.replid@
                + "/get_connection_metadata"@
            &&& request.body == "{}"@
            &&& request.headers.len() == 4
            &&& request.headers[0] == ("X-Requested-With"@, "XMLHttpRequest"@)
            &&& request.headers[1] == ("Referer"@, "https://replit.com"@)
            &&& request.headers[2] == ("User-Agent"@, "Mozilla/5.0 (Rust Crosis)"@)
            &&& request.headers[3] == ("Cookie"@, "connect.sid="@ + fetcher.connect_sid@)
        },
{
}

/// The requests of two users, or for two repls, differ.
pub proof fn law_requests_differ(
    replid: Seq<char>,
    connect_sid: Seq<char>,
    other_replid: Seq<char>,
    other_sid: Seq<char>,
)
    requires
        metadata_request(replid, connect_sid) == metadata_request(other_replid, other_sid),
    ensures
        replid == other_replid,
        connect_sid == other_sid,
{
    let a = metadata_request(replid, connect_sid);
    let b = metadata_request(other_replid, other_sid);
    let front = "https://replit.com/data/repls/"@;
    let back = "/get_connection_metadata"@;
    assert(a.url.len() == front.len() + replid.len() + back.len());
    assert(b.url.len() == front.len() + other_replid.len() + back.len());
    assert(replid =~= a.url.subrange(front.len() as int, (front.len() + replid.len()) as int));
    assert(other_replid =~= b.url.subrange(
        front.len() as int,
        (front.len() + other_replid.len()) as int,
    ));
    let cookie = "connect.sid="@;
    assert(a.headers[3].1 == b.headers[3].1);
    assert(connect_sid =~= a.headers[3].1.skip(cookie.len() as int));
    assert(other_sid =~= b.headers[3].1.skip(cookie.len() as int));
}

/// The body of a response is read exactly if its status code is 200; one above
/// 500 may pass, every other ends the exchange.
pub proof fn law_status_codes(fetcher: DefaultConnectionMetadataFetcher, status: u16)
    ensures
        ({
            let action = fetcher.fetch_step(FetchEvent::Responded(status));
            &&& action is ReadBody <==> status == 200
            &&& action == FetchActionView::Finish(Err(FetchErrorView::Retriable)) <==> status > 500
            &&& action == FetchActionView::Finish(Err(FetchErrorView::Abort)) <==> status != 200
                && status <= 500
        }),
{
}

/// The exchange ends well only with metadata that was read, and is over as soon
/// as anything fails.
pub proof fn law_exchange_ends(fetcher: DefaultConnectionMetadataFetcher, event: FetchEvent)
    ensures
        fetcher.fetch_step(event) is Post <==> event is Start,
        fetcher.fetch_step(event) is ReadBody <==> event matches FetchEvent::Responded(200),
        (fetcher.fetch_step(event) matches FetchActionView::Finish(Ok(_))) <==> event is BodyParsed,
        event is SendFailed || event is BodyUnreadable ==> fetcher.fetch_step(event)
            == FetchActionView::Finish(Err(FetchErrorView::Abort)),
{
}

/// The content of what the exchange does is that of what it holds.
pub proof fn law_fetch_action_content(action: FetchAction, request: MetadataRequest)
    ensures
        action is Post <==> action@ is Post,
        action is ReadBody <==> action@ is ReadBody,
        action matches FetchAction::Post(sent) ==> action@ == FetchActionView::Post(sent@),
        action matches FetchAction::Finish(Ok(metadata)) ==> (action@
            matches FetchActionView::Finish(Ok(content)) && content.conman_url
            == metadata.conman_url@ && content.gurl == metadata.gurl@ && content.token
            == metadata.token@),
        action matches FetchAction::Finish(Err(error)) ==> action@ == FetchActionView::Finish(
            Err(error@),
        ),
        request@.url == request.url@,
        request@.body == request.body@,
        request@.headers.len() == request.headers@.len(),
        forall|i: int|
            0 <= i < request.headers@.len() ==> (#[trigger] request@.headers[i]).0
                == request.headers@[i].0@ && request@.headers[i].1 == request.headers@[i].1@,
{
}

/// A fetch is repeated exactly if it may work later and was repeated less than
/// three times; the count goes up by one.
pub proof fn law_fetch_is_repeated(retries: u32, error: FetchErrorView)
    ensures
        after_fetch_error(retries, error) is Retry <==> error is Retriable && retries < 3,
        after_fetch_error(retries, error) is Fail <==> !(error is Retriable && retries < 3),
        after_fetch_error(retries, error) matches ConnectStepView::Retry {
            after_millis,
            retries: next,
        } ==> next == retries + 1 && after_millis == retry_delay(retries),
        error is Abort || error is Retriable && retries >= 3 ==> after_fetch_error(retries, error)
            == ConnectStepView::Fail(ErrorView::ConnectionMetadataFetchError),
        error matches FetchErrorView::Other(cause) ==> after_fetch_error(retries, error)
            == ConnectStepView::Fail(cause),
        after_fetch(retries, Err(error)) == after_fetch_error(retries, error),
{
}

/// Each wait is ten times as long as the one before; the first takes ten
/// milliseconds.
pub proof fn law_waits_grow(retries: u32)
    requires
        retries < u32::MAX,
    ensures
        retry_delay(0) == 10,
        retry_delay((retries + 1) as u32) == 10 * retry_delay(retries),
{
    reveal(pow);
    reveal_with_fuel(pow, 2);
    assert(pow(10, (retries + 1) as nat) == 10 * pow(10, retries as nat));
}

/// What is dialed is the address, and what the parser says is the error.
pub proof fn law_address_is_dialed(endpoint: Result<Seq<char>, Seq<char>>)
    ensures
        endpoint matches Ok(address) ==> after_endpoint(endpoint) == ConnectStepView::Dial(address),
        endpoint matches Err(text) ==> after_endpoint(endpoint) == ConnectStepView::Fail(
            ErrorView::ConnectionMetadataParseError(text),
        ),
{
}

/// Different tokens have different paths, all under the same one.
pub proof fn law_paths_differ(token: Seq<char>, other: Seq<char>)
    ensures
        websocket_path(token) == "/wsv2/"@ + token,
        websocket_path(token) == websocket_path(other) ==> token == other,
{
    let front = "/wsv2/"@;
    assert(token =~= websocket_path(token).skip(front.len() as int));
    assert(other =~= websocket_path(other).skip(front.len() as int));
}

/// The address rests on the URL and the token as they are, and exists exactly
/// if the URL parses.
pub proof fn law_endpoint(metadata: GovalMetadata)
    ensures
        endpoint_of(metadata@) is Ok <==> url_parsed(metadata.gurl@) is Ok,
        endpoint_of(metadata@) matches Ok(address) ==> address == url_with_path(
            metadata.gurl@,
            "/wsv2/"@ + metadata.token@,
        ),
        endpoint_of(metadata@) matches Err(text) ==> url_parsed(metadata.gurl@) == Err::<
            Seq<char>,
            Seq<char>,
        >(text),
        within_url_limit(metadata@) <==> metadata.gurl@.len() + "/wsv2/"@.len()
            + metadata.token@.len() <= 0x100_0000,
{
}

/// The content of a step is that of what it holds.
pub proof fn law_connect_step_content(step: ConnectStep)
    ensures
        match step {
            ConnectStep::Fetch => step@ is Fetch,
            ConnectStep::Retry { after_millis, retries } => step@ matches ConnectStepView::Retry {
                after_millis: waited,
                retries: counted,
            } && waited == after_millis && counted == retries,
            ConnectStep::Dial(address) => step@ == ConnectStepView::Dial(address@),
            ConnectStep::Launch(channel) => step@ == ConnectStepView::Launch(channel),
            ConnectStep::Wait(channel) => step@ == ConnectStepView::Wait(channel),
            ConnectStep::Ready(channel) => step@ == ConnectStepView::Ready(channel),
            ConnectStep::Fail(error) => step@ == ConnectStepView::Fail(error@),
        },
{
}

} // verus!
