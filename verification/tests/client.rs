use crosis::connect::{ConnectEvent, ConnectStep};
use crosis::goval::{
    Action, Body, BootStatus, Command, OpenChannel, OpenChannelRes, Stage, State,
};
use crosis::session::{
    ping, write_step, ReadAction, ReadEvent, Teardown, WriteAction, WriteEvent,
    PING_INTERVAL_MILLIS,
};
use crosis::{Channel, Client, ConnectionStatus, CrosisError};
use tokio_tungstenite::tungstenite;

type TestClient = Client<&'static str, u64, u64>;

fn command(channel: i32, cmd_ref: &str, body: Option<Body>) -> Command {
    Command { channel, cmd_ref: cmd_ref.to_string(), body, extra: vec![] }
}

fn boot(stage: Stage) -> Command {
    command(0, "", Some(Body::BootStatus(BootStatus { stage, extra: vec![] })))
}

fn open_reply(id: i32, state: State, error: &str) -> Command {
    let res = OpenChannelRes { id, state, error: error.to_string(), extra: vec![] };
    command(0, "r", Some(Body::OpenChanRes(res)))
}

fn dialed(client: &mut TestClient, link: &'static str, inbox: u64) -> Channel {
    match client.connect(ConnectEvent::Dialed { link, inbox }) {
        ConnectStep::Launch(channel) => channel,
        step => panic!("{:?}", step),
    }
}

fn connected() -> (TestClient, Channel) {
    let mut client = TestClient::new();
    let channel = dialed(&mut client, "link", 100);
    client.begin_session();
    let action = client.read_step(ReadEvent::Received(boot(Stage::Complete)));
    assert!(matches!(action, ReadAction::Deliver { reply: None, .. }));
    (client, channel)
}

fn opened(client: &mut TestClient, id: i32, inbox: u64) -> Channel {
    client.opened(open_reply(id, State::Numbered(0), ""), inbox).unwrap()
}

#[test]
fn new_client_is_disconnected() {
    let client = TestClient::new();
    assert_eq!(client.status(), ConnectionStatus::Disconnected);
    assert!(client.link().is_none());
    assert!(client.inbox(0).is_none());
    assert!(client.has_room());
}

#[test]
fn boot_report_connects() {
    let mut client = TestClient::new();
    let channel = dialed(&mut client, "link", 100);
    client.begin_session();
    client.read_step(ReadEvent::Received(boot(Stage::Numbered(1))));
    assert_eq!(client.status(), ConnectionStatus::Connecting);
    client.read_step(ReadEvent::Received(boot(Stage::Complete)));
    assert_eq!(client.status(), ConnectionStatus::Connected);
    match client.connect(ConnectEvent::Launched(channel)) {
        ConnectStep::Ready(channel) => assert_eq!(channel.id, 0),
        step => panic!("{:?}", step),
    }
}

#[test]
fn boot_report_on_an_unknown_channel_connects_too() {
    let mut client = TestClient::new();
    dialed(&mut client, "link", 100);
    client.begin_session();
    let mut report = boot(Stage::Complete);
    report.channel = 9;
    let action = client.read_step(ReadEvent::Received(report));
    assert!(matches!(action, ReadAction::Discard(_)));
    assert_eq!(client.status(), ConnectionStatus::Connected);
}

#[test]
fn disconnected_client_refuses() {
    let mut client = TestClient::new();
    assert!(matches!(client.close(), Err(CrosisError::Disconnected(a)) if a == "send message"));
    assert!(matches!(client.send(ping()), Err(CrosisError::Disconnected(a)) if a == "send message"));
    assert!(matches!(client.open("shell".to_string(), None, None, 1),
        Err(CrosisError::Disconnected(a)) if a == "open channel"));
    assert!(matches!(client.destroy(), Err(CrosisError::Disconnected(a)) if a == "send message"));
}

#[test]
fn connecting_client_sends_but_does_not_open() {
    let mut client = TestClient::new();
    dialed(&mut client, "link", 100);
    client.begin_session();
    assert_eq!(client.close().unwrap(), &"link");
    let (link, written) = client.send(command(3, "x", None)).unwrap();
    assert_eq!(link, &"link");
    assert_eq!(written, command(3, "x", None));
    assert!(matches!(client.open("shell".to_string(), None, None, 1),
        Err(CrosisError::Disconnected(a)) if a == "open channel"));
}

#[test]
fn destroy_yields_the_link() {
    let (client, _) = connected();
    assert_eq!(client.destroy().unwrap(), "link");
}

#[test]
fn open_message_has_its_defaults() {
    let (mut client, _) = connected();
    let msg = client
        .open_with_ref("shell".to_string(), None, None, 5, "abc".to_string())
        .unwrap();
    let body = OpenChannel {
        service: "shell".to_string(),
        name: "".to_string(),
        action: Action::AttachOrCreate,
        extra: vec![],
    };
    assert_eq!(msg, command(0, "abc", Some(Body::OpenChan(body))));
}

#[test]
fn open_message_has_what_was_asked_for() {
    let (mut client, _) = connected();
    let msg = client
        .open_with_ref(
            "fs".to_string(),
            Some("files".to_string()),
            Some(Action::Numbered(1)),
            5,
            "abc".to_string(),
        )
        .unwrap();
    let body = OpenChannel {
        service: "fs".to_string(),
        name: "files".to_string(),
        action: Action::Numbered(1),
        extra: vec![],
    };
    assert_eq!(msg, command(0, "abc", Some(Body::OpenChan(body))));
}

#[test]
fn begun_open_survives_the_end_of_the_session() {
    let (mut client, _) = connected();
    assert!(client.check_open().is_ok());
    client.end_session();
    assert!(matches!(client.check_open(),
        Err(CrosisError::Disconnected(a)) if a == "open channel"));
    let msg = client.begin_open("shell".to_string(), None, None, 5, "abc".to_string());
    assert_eq!(msg.channel, 0);
    assert_eq!(msg.cmd_ref, "abc");
    assert!(matches!(client.send(msg), Err(CrosisError::Disconnected(a)) if a == "send message"));
    let action = client.read_step(ReadEvent::Received(command(0, "abc", None)));
    assert!(matches!(action, ReadAction::Deliver { reply: Some((5, _)), .. }));
}

#[test]
fn opened_channel_gets_its_messages() {
    let (mut client, _) = connected();
    let msg = client.open("shell".to_string(), None, None, 5).unwrap();
    assert!(msg.cmd_ref.len() >= 11);

    let mut reply = open_reply(12, State::Numbered(0), "");
    reply.cmd_ref = msg.cmd_ref.clone();
    let answer = match client.read_step(ReadEvent::Received(reply)) {
        ReadAction::Deliver { reply: Some((5, answer)), .. } => answer,
        action => panic!("{:?}", action),
    };
    let channel = client.opened(answer, 77).unwrap();
    assert_eq!(channel.id, 12);
    assert_eq!(client.inbox(12), Some(&77));

    let msg = command(12, "", Some(Body::Other(vec![1, 2, 3])));
    assert_eq!(
        client.read_step(ReadEvent::Received(msg.clone())),
        ReadAction::Deliver { reply: None, msg }
    );
}

#[test]
fn refused_open_is_a_generic_error() {
    let (mut client, _) = connected();
    let result = client.opened(open_reply(12, State::Error, "no such service"), 77);
    assert!(matches!(result, Err(CrosisError::GenericError(text)) if text == "no such service"));
    assert!(client.inbox(12).is_none());
}

#[test]
fn other_reply_to_open_is_unexpected() {
    let (mut client, _) = connected();
    let result = client.opened(ping(), 77);
    assert!(matches!(result, Err(CrosisError::UnexpectedReply(reply)) if reply == ping()));
    let empty = command(0, "r", None);
    assert!(matches!(client.opened(empty.clone(), 77),
        Err(CrosisError::UnexpectedReply(reply)) if reply == empty));
}

#[test]
fn reply_answers_its_request_once() {
    let (mut client, _) = connected();
    let channel = opened(&mut client, 4, 40);
    let written = channel.request_with_ref(&mut client, command(0, "", None), 9, "r1".to_string());
    assert_eq!(written, command(4, "r1", None));

    let reply = command(4, "r1", Some(Body::Other(vec![8])));
    assert_eq!(
        client.read_step(ReadEvent::Received(reply.clone())),
        ReadAction::Deliver { reply: Some((9, reply.clone())), msg: reply.clone() }
    );
    assert_eq!(
        client.read_step(ReadEvent::Received(reply.clone())),
        ReadAction::Deliver { reply: None, msg: reply }
    );
}

#[test]
fn requests_get_fresh_refs() {
    let (mut client, _) = connected();
    let channel = opened(&mut client, 4, 40);
    let first = channel.request(&mut client, command(0, "", None), 1);
    assert_eq!(first.channel, 4);
    assert!(first.cmd_ref.len() >= 11);
    let action = client.read_step(ReadEvent::Received(command(4, &first.cmd_ref, None)));
    assert!(matches!(action, ReadAction::Deliver { reply: Some((1, _)), .. }));
}

#[test]
fn replies_do_not_cross_channels_or_refs() {
    let (mut client, _) = connected();
    let a = opened(&mut client, 4, 40);
    let b = opened(&mut client, 5, 50);
    a.request_with_ref(&mut client, command(0, "", None), 1, "x".to_string());
    a.request_with_ref(&mut client, command(0, "", None), 2, "y".to_string());
    b.request_with_ref(&mut client, command(0, "", None), 3, "x".to_string());
    let mut slot = |channel: i32, cmd_ref: &str| -> Option<u64> {
        match client.read_step(ReadEvent::Received(command(channel, cmd_ref, None))) {
            ReadAction::Deliver { reply, .. } => reply.map(|r| r.0),
            action => panic!("{:?}", action),
        }
    };
    assert_eq!(slot(5, "y"), None);
    assert_eq!(slot(4, "z"), None);
    assert_eq!(slot(5, "x"), Some(3));
    assert_eq!(slot(4, "y"), Some(2));
    assert_eq!(slot(4, "x"), Some(1));
    assert_eq!(slot(4, "x"), None);
}

#[test]
fn later_request_takes_over_a_ref() {
    let (mut client, _) = connected();
    let channel = opened(&mut client, 4, 40);
    channel.request_with_ref(&mut client, command(0, "", None), 1, "x".to_string());
    channel.request_with_ref(&mut client, command(0, "", None), 2, "x".to_string());
    let action = client.read_step(ReadEvent::Received(command(4, "x", None)));
    assert!(matches!(action, ReadAction::Deliver { reply: Some((2, _)), .. }));
    let action = client.read_step(ReadEvent::Received(command(4, "x", None)));
    assert!(matches!(action, ReadAction::Deliver { reply: None, .. }));
}

#[test]
fn empty_ref_answers_nothing() {
    let (mut client, _) = connected();
    let channel = opened(&mut client, 4, 40);
    channel.request_with_ref(&mut client, command(0, "", None), 1, "".to_string());
    let action = client.read_step(ReadEvent::Received(command(4, "", None)));
    assert!(matches!(action, ReadAction::Deliver { reply: None, .. }));
}

#[test]
fn unknown_channel_is_discarded() {
    let (mut client, _) = connected();
    let msg = command(31, "x", Some(Body::Ping));
    assert_eq!(
        client.read_step(ReadEvent::Received(msg.clone())),
        ReadAction::Discard(msg)
    );
}

#[test]
fn replaced_channel_gets_no_replies() {
    let (mut client, _) = connected();
    let older = opened(&mut client, 4, 40);
    let newer = opened(&mut client, 4, 41);
    assert_ne!(older, newer);
    assert_eq!(client.inbox(4), Some(&41));
    older.request_with_ref(&mut client, command(0, "", None), 1, "x".to_string());
    let action = client.read_step(ReadEvent::Received(command(4, "x", None)));
    assert!(matches!(action, ReadAction::Deliver { reply: None, .. }));
    newer.request_with_ref(&mut client, command(0, "", None), 2, "x".to_string());
    let action = client.read_step(ReadEvent::Received(command(4, "x", None)));
    assert!(matches!(action, ReadAction::Deliver { reply: Some((2, _)), .. }));
}

#[test]
fn reading_side_ends() {
    let (mut client, _) = connected();
    assert_eq!(client.read_step(ReadEvent::Aborted), ReadAction::Stop);
    assert_eq!(client.read_step(ReadEvent::Ended), ReadAction::AbortAndStop);
    assert_eq!(client.read_step(ReadEvent::Failed), ReadAction::AbortAndStop);
    assert_eq!(client.read_step(ReadEvent::NotBinary), ReadAction::AbortAndStop);
    assert_eq!(client.status(), ConnectionStatus::Connected);
}

#[test]
fn writing_side_writes_and_ends() {
    let encoded = vec![9u8, 8, 7];
    assert_eq!(write_step(WriteEvent::Aborted, &encoded), WriteAction::Stop);
    assert_eq!(write_step(WriteEvent::QueueClosed, &encoded), WriteAction::AbortAndStop);
    assert_eq!(write_step(WriteEvent::WriteFailed, &encoded), WriteAction::AbortAndStop);
    assert_eq!(write_step(WriteEvent::Written, &encoded), WriteAction::Wait);
    assert_eq!(
        write_step(WriteEvent::Queued(vec![1, 2]), &encoded),
        WriteAction::Write(vec![1, 2])
    );
    assert_eq!(
        write_step(WriteEvent::Idle, &encoded),
        WriteAction::Write(vec![9, 8, 7])
    );
}

#[test]
fn ping_is_a_bare_message_on_channel_zero() {
    assert_eq!(ping(), command(0, "", Some(Body::Ping)));
    assert_eq!(PING_INTERVAL_MILLIS, 500);
}

#[test]
fn session_end_disconnects_first() {
    let (mut client, _) = connected();
    let rest = client.end_session();
    assert_eq!(client.status(), ConnectionStatus::Disconnected);
    assert_eq!(rest, vec![Teardown::CloseSocket, Teardown::CloseQueue]);
    assert!(client.close().is_err());
    assert_eq!(client.link(), Some(&"link"));
}

#[test]
fn closing_ends_both_sides() {
    let (mut client, _) = connected();
    assert_eq!(client.close().unwrap(), &"link");
    assert_eq!(client.read_step(ReadEvent::Aborted), ReadAction::Stop);
    assert_eq!(write_step(WriteEvent::Aborted, &vec![]), WriteAction::Stop);
    client.end_session();
    assert_eq!(client.status(), ConnectionStatus::Disconnected);
    assert!(client.send(ping()).is_err());
    assert!(client.close().is_err());
    assert!(client.check_open().is_err());
}

#[test]
fn busy_writing_side_ends_after_its_message() {
    let ping_msg = vec![1u8];
    assert_eq!(
        write_step(WriteEvent::Queued(vec![2]), &ping_msg),
        WriteAction::Write(vec![2])
    );
    assert_eq!(write_step(WriteEvent::Written, &ping_msg), WriteAction::Wait);
    assert_eq!(write_step(WriteEvent::Aborted, &ping_msg), WriteAction::Stop);
}

#[test]
fn clients_know_their_own_channels() {
    let (mut client, zero) = connected();
    let channel = opened(&mut client, 4, 40);
    assert!(client.knows(&zero));
    assert!(client.knows(&channel));
    assert!(!TestClient::new().knows(&channel));
}

#[test]
fn client_connects_again() {
    let (mut client, _) = connected();
    opened(&mut client, 4, 40);
    client.end_session();
    let channel = dialed(&mut client, "second", 200);
    assert_eq!(channel.id, 0);
    client.begin_session();
    assert_eq!(client.close().unwrap(), &"second");
    assert_eq!(client.inbox(0), Some(&200));
    assert_eq!(client.inbox(4), Some(&40));
}

#[test]
fn channel_send_sets_the_number() {
    let (mut client, _) = connected();
    let channel = opened(&mut client, -3, 40);
    let mut msg = command(8, "keep", Some(Body::Other(vec![5])));
    msg.extra = vec![1];
    let mut expected = msg.clone();
    expected.channel = -3;
    assert_eq!(channel.send(msg), expected);
}

#[test]
fn channel_next_ends_with_an_error() {
    let (mut client, _) = connected();
    let mut channel = opened(&mut client, 4, 40);
    assert_eq!(channel.next(Some(ping())).unwrap(), ping());
    assert!(matches!(channel.next(None),
        Err(CrosisError::GenericError(text)) if text == "TODO: write better error"));
}

#[test]
fn error_texts() {
    let text = |error: CrosisError| error.text("<detail>");
    assert_eq!(
        text(CrosisError::ConnectionMetadataFetchError),
        "Failed to fetch connection metadata"
    );
    assert_eq!(
        text(CrosisError::ConnectionMetadataParseError("empty host".to_string())),
        "Failed to parse connection metadata: empty host"
    );
    assert_eq!(
        text(CrosisError::ConnectionError(tungstenite::Error::ConnectionClosed)),
        "Failed to connect to websocket: <detail>"
    );
    assert_eq!(
        text(CrosisError::Disconnected("send message".to_string())),
        "Client isn't connected, cannot send message"
    );
    assert_eq!(
        text(CrosisError::UnexpectedReply(ping())),
        "Client got unexpected reply <detail>"
    );
    assert_eq!(
        text(CrosisError::GenericError("boom".to_string())),
        "Client got error message boom"
    );
}

#[test]
fn copies_are_equal() {
    let open = OpenChannel {
        service: "shell".to_string(),
        name: "n".to_string(),
        action: Action::Numbered(2),
        extra: vec![7],
    };
    let bodies = vec![
        Body::OpenChan(open),
        Body::BootStatus(BootStatus { stage: Stage::Complete, extra: vec![1] }),
        Body::Ping,
        Body::Other(vec![1, 2]),
    ];
    for body in bodies {
        let msg = command(1, "r", Some(body));
        assert_eq!(msg.clone(), msg);
    }
    let reply = open_reply(3, State::Error, "e");
    assert_eq!(reply.clone(), reply);
}
