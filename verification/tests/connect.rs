use crosis::connect::{endpoint_step, fetch_error_step, ConnectEvent, ConnectStep};
use crosis::default_connection_metadata::{FetchAction, FetchEvent};
use crosis::{
    Client, ConnectionStatus, CrosisError, DefaultConnectionMetadataFetcher,
    FetchConnectionMetadataError, GovalMetadata,
};
use tokio_tungstenite::tungstenite;

type TestClient = Client<&'static str, u64, u64>;

fn metadata(gurl: &str, token: &str) -> GovalMetadata {
    GovalMetadata {
        conman_url: "https://conman.example".to_string(),
        gurl: gurl.to_string(),
        token: token.to_string(),
    }
}

fn fetched(client: &mut TestClient, retries: u32, error: FetchConnectionMetadataError) -> ConnectStep {
    client.connect(ConnectEvent::Fetched { retries, outcome: Err(error) })
}

#[test]
fn endpoint_replaces_the_path() {
    let m = metadata("wss://eval.global.replit.com", "v2.token");
    assert!(m.within_url_limit());
    assert_eq!(m.endpoint(), Ok("wss://eval.global.replit.com/wsv2/v2.token".to_string()));
}

#[test]
fn endpoint_drops_an_older_path_and_keeps_the_query() {
    let m = metadata("wss://eval.replit.com:8080/old/path?x=1", "t");
    assert_eq!(m.endpoint(), Ok("wss://eval.replit.com:8080/wsv2/t?x=1".to_string()));
}

#[test]
fn endpoint_encodes_the_token() {
    let m = metadata("wss://eval.replit.com", "a b?c#d");
    assert_eq!(m.endpoint(), Ok("wss://eval.replit.com/wsv2/a%20b%3Fc%23d".to_string()));
}

#[test]
fn endpoint_of_no_url_is_the_error_text() {
    let m = metadata("eval.replit.com", "t");
    assert_eq!(m.endpoint(), Err("relative URL without a base".to_string()));
}

#[test]
fn websocket_path_ends_with_the_token() {
    assert_eq!(metadata("x", "abc").websocket_path(), "/wsv2/abc");
}

#[test]
fn url_limit_counts_both_texts() {
    assert!(metadata("", "").within_url_limit());
    assert!(metadata(&"a".repeat(0x100_0000 - 6), "").within_url_limit());
    assert!(!metadata(&"a".repeat(0x100_0000 - 6), "b").within_url_limit());
    assert!(!metadata(&"a".repeat(0x100_0001), "").within_url_limit());
}

#[test]
fn attempt_starts_with_a_fetch() {
    let mut client = TestClient::new();
    assert!(matches!(client.connect(ConnectEvent::Start), ConnectStep::Fetch));
}

#[test]
fn fetched_metadata_is_dialed() {
    let mut client = TestClient::new();
    let outcome = Ok(metadata("wss://eval.replit.com", "tok"));
    match client.connect(ConnectEvent::Fetched { retries: 0, outcome }) {
        ConnectStep::Dial(address) => assert_eq!(address, "wss://eval.replit.com/wsv2/tok"),
        step => panic!("{:?}", step),
    }
}

#[test]
fn bad_url_is_a_parse_error() {
    let mut client = TestClient::new();
    let outcome = Ok(metadata("https://", "tok"));
    match client.connect(ConnectEvent::Fetched { retries: 0, outcome }) {
        ConnectStep::Fail(CrosisError::ConnectionMetadataParseError(text)) => {
            assert_eq!(text, "empty host")
        }
        step => panic!("{:?}", step),
    }
}

#[test]
fn endpoint_step_on_given_outcomes() {
    assert!(matches!(endpoint_step(Ok("wss://h/p".to_string())),
        ConnectStep::Dial(address) if address == "wss://h/p"));
    assert!(matches!(endpoint_step(Err("bad".to_string())),
        ConnectStep::Fail(CrosisError::ConnectionMetadataParseError(text)) if text == "bad"));
}

#[test]
fn retriable_failures_wait_ten_times_longer_each_time() {
    let mut client = TestClient::new();
    let mut retries: u32 = 0;
    let mut waits = vec![];
    let last = loop {
        match fetched(&mut client, retries, FetchConnectionMetadataError::Retriable) {
            ConnectStep::Retry { after_millis, retries: next } => {
                waits.push(after_millis);
                retries = next;
            }
            step => break step,
        }
    };
    assert_eq!(waits, vec![10, 100, 1000]);
    assert!(matches!(last, ConnectStep::Fail(CrosisError::ConnectionMetadataFetchError)));
}

#[test]
fn many_retries_are_too_many() {
    assert!(matches!(
        fetch_error_step(u32::MAX, FetchConnectionMetadataError::Retriable),
        ConnectStep::Fail(CrosisError::ConnectionMetadataFetchError)
    ));
}

#[test]
fn abort_ends_the_attempt_at_once() {
    let mut client = TestClient::new();
    assert!(matches!(
        fetched(&mut client, 0, FetchConnectionMetadataError::Abort),
        ConnectStep::Fail(CrosisError::ConnectionMetadataFetchError)
    ));
}

#[test]
fn other_error_is_passed_on() {
    let mut client = TestClient::new();
    let error = CrosisError::GenericError("boom".to_string());
    assert!(matches!(
        fetched(&mut client, 0, FetchConnectionMetadataError::Other(error)),
        ConnectStep::Fail(CrosisError::GenericError(text)) if text == "boom"
    ));
}

#[test]
fn failed_dial_is_a_connection_error() {
    let mut client = TestClient::new();
    let step = client.connect(ConnectEvent::DialFailed(tungstenite::Error::ConnectionClosed));
    assert!(matches!(
        step,
        ConnectStep::Fail(CrosisError::ConnectionError(tungstenite::Error::ConnectionClosed))
    ));
    assert_eq!(client.status(), ConnectionStatus::Disconnected);
    assert!(client.link().is_none());
}

#[test]
fn dialed_websocket_gets_channel_zero() {
    let mut client = TestClient::new();
    let channel = match client.connect(ConnectEvent::Dialed { link: "link", inbox: 7 }) {
        ConnectStep::Launch(channel) => channel,
        step => panic!("{:?}", step),
    };
    assert_eq!(channel.id, 0);
    assert_eq!(client.link(), Some(&"link"));
    assert_eq!(client.inbox(0), Some(&7));
    assert_eq!(client.status(), ConnectionStatus::Disconnected);
    client.begin_session();
    assert_eq!(client.status(), ConnectionStatus::Connecting);
    match client.connect(ConnectEvent::Launched(channel)) {
        ConnectStep::Wait(channel) => assert_eq!(channel.id, 0),
        step => panic!("{:?}", step),
    }
}

fn fetcher() -> DefaultConnectionMetadataFetcher {
    DefaultConnectionMetadataFetcher {
        connect_sid: "s%3Asecret".to_string(),
        replid: "1234-5678".to_string(),
    }
}

fn fetch_error(event: FetchEvent) -> FetchConnectionMetadataError {
    match fetcher().fetch(event) {
        FetchAction::Finish(Err(error)) => error,
        action => panic!("{:?}", action),
    }
}

#[test]
fn metadata_request_is_exact() {
    let request = match fetcher().fetch(FetchEvent::Start) {
        FetchAction::Post(request) => request,
        action => panic!("{:?}", action),
    };
    assert_eq!(
        request.url,
        "https://replit.com/data/repls/1234-5678/get_connection_metadata"
    );
    let headers: Vec<(&str, &str)> =
        request.headers.iter().map(|(k, v)| (k.as_str(), v.as_str())).collect();
    assert_eq!(
        headers,
        vec![
            ("X-Requested-With", "XMLHttpRequest"),
            ("Referer", "https://replit.com"),
            ("User-Agent", "Mozilla/5.0 (Rust Crosis)"),
            ("Cookie", "connect.sid=s%3Asecret"),
        ]
    );
    assert_eq!(request.body, "{}");
}

#[test]
fn ok_response_is_read() {
    assert!(matches!(fetcher().fetch(FetchEvent::Responded(200)), FetchAction::ReadBody));
    match fetcher().fetch(FetchEvent::BodyParsed(metadata("wss://g", "t"))) {
        FetchAction::Finish(Ok(m)) => assert_eq!(m.gurl, "wss://g"),
        action => panic!("{:?}", action),
    }
}

#[test]
fn status_codes_above_500_are_retriable() {
    for status in [501u16, 502, 503, 599] {
        assert!(matches!(
            fetch_error(FetchEvent::Responded(status)),
            FetchConnectionMetadataError::Retriable
        ));
    }
}

#[test]
fn other_status_codes_abort() {
    for status in [100u16, 199, 201, 204, 301, 403, 404, 500] {
        assert!(matches!(
            fetch_error(FetchEvent::Responded(status)),
            FetchConnectionMetadataError::Abort
        ));
    }
}

#[test]
fn failures_on_the_way_abort() {
    assert!(matches!(
        fetch_error(FetchEvent::SendFailed),
        FetchConnectionMetadataError::Abort
    ));
    assert!(matches!(
        fetch_error(FetchEvent::BodyUnreadable),
        FetchConnectionMetadataError::Abort
    ));
}
