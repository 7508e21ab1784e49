//! The state of a client, and what its operations do to it.

use std::collections::HashMap;

use vstd::prelude::*;

use crate::channel::Channel;
use crate::connect::{after_fetch, fetch_step, ConnectEvent, ConnectStep, ConnectStepView};
use crate::endpoint::{url_parsed, url_with_path, within_url_limit};
use crate::error::{CrosisError, ErrorView};
use crate::goval::{Action, Body, BodyView, Command, CommandView, OpenChannel, State};
use crate::metadata::{fetch_result_view, FetchConnectionMetadataError};
use crate::refs::{generate_ref, is_generated_ref};
use crate::req_map::ReqMap;

verus! {

broadcast use vstd::std_specs::hash::group_hash_axioms;

/// Whether a client is connected.
#[derive(Clone, Copy, Debug, PartialEq, Eq, Structural)]
pub enum ConnectionStatus {
    /// The client is connecting and cannot open channels yet.
    Connecting,
    /// The client is connected: it can open channels and send messages.
    Connected,
    /// The client was not connected yet, or its session has ended.
    Disconnected,
}

/// What is known of an open channel.
pub struct ChannelEntry<S> {
    /// The serial number of the [`Channel`] that holds it.
    pub serial: u64,
    /// Where the messages of the channel go.
    pub inbox: S,
}

/// A client. It carries three kinds of handles that belong to the program
/// around it: `L` reaches the websocket (to write a message, or to close it),
/// `S` delivers messages to the holder of a channel, and `R` delivers the
/// reply to one request.
#[verifier::reject_recursive_types(S)]
#[verifier::reject_recursive_types(R)]
pub struct Client<L, S, R> {
    status: ConnectionStatus,
    link: Option<L>,
    channels: HashMap<i32, ChannelEntry<S>>,
    requests: HashMap<u64, ReqMap<R>>,
    next_serial: u64,
}

/// The mathematical content of a [`Client`].
#[verifier::ext_equal]
#[verifier::reject_recursive_types(S)]
#[verifier::reject_recursive_types(R)]
pub struct ClientView<L, S, R> {
    pub status: ConnectionStatus,
    /// How to reach the websocket that was opened last.
    pub link: Option<L>,
    /// The open channels, by number.
    pub channels: Map<i32, ChannelEntry<S>>,
    /// The pending requests of each channel, by its serial number and their
    /// reference.
    pub requests: Map<u64, Map<Seq<char>, R>>,
    /// Greater than all serial numbers in use.
    pub next_serial: u64,
}

impl<L, S, R> ClientView<L, S, R> {
    /// What every operation keeps. A client that is not disconnected has a
    /// link to its websocket; one that has a link has a channel 0; each open
    /// channel has its own pending requests.
    pub open spec fn wf(self) -> bool {
        &&& self.status != ConnectionStatus::Disconnected ==> self.link is Some
        &&& self.link is Some ==> self.channels.contains_key(0)
        &&& forall|id: i32| #[trigger]
            self.channels.contains_key(id) ==> self.requests.contains_key(self.channels[id].serial)
        &&& forall|a: i32, b: i32|
            #![trigger self.channels[a], self.channels[b]]
            self.channels.contains_key(a) && self.channels.contains_key(b) && a != b
                ==> self.channels[a].serial != self.channels[b].serial
        &&& forall|serial: u64| #[trigger]
            self.requests.contains_key(serial) ==> serial < self.next_serial
    }

    /// A client that was never connected.
    pub open spec fn initial() -> Self {
        ClientView {
            status: ConnectionStatus::Disconnected,
            link: None,
            channels: Map::empty(),
            requests: Map::empty(),
            next_serial: 0,
        }
    }

    /// Another channel can be registered.
    pub open spec fn has_room(self) -> bool {
        self.next_serial < u64::MAX
    }

    /// The client accepts messages and can be closed.
    pub open spec fn can_send(self) -> bool {
        self.status != ConnectionStatus::Disconnected
    }

    /// The client accepts requests to open a channel.
    pub open spec fn can_open(self) -> bool {
        self.status == ConnectionStatus::Connected
    }

    /// `channel` was registered with this client.
    pub open spec fn knows(self, channel: Channel) -> bool {
        self.requests.contains_key(channel.serial)
    }

    /// The client with another status.
    pub open spec fn with_status(self, status: ConnectionStatus) -> Self {
        ClientView { status, ..self }
    }

    /// The client with another link.
    pub open spec fn with_link(self, link: L) -> Self {
        ClientView { link: Some(link), ..self }
    }

    /// The channel that [`Self::registering`] makes.
    pub open spec fn next_channel(self, id: i32) -> Channel {
        Channel { id, serial: self.next_serial }
    }

    /// The client with a new channel `id`, which takes the place of an older
    /// one of that number and has no pending requests.
    pub open spec fn registering(self, id: i32, inbox: S) -> Self {
        ClientView {
            channels: self.channels.insert(id, ChannelEntry { serial: self.next_serial, inbox }),
            requests: self.requests.insert(self.next_serial, Map::empty()),
            next_serial: (self.next_serial + 1) as u64,
            ..self
        }
    }

    /// The client with a request that waits for a reply.
    pub open spec fn awaiting(self, serial: u64, cmd_ref: Seq<char>, slot: R) -> Self {
        ClientView {
            requests: self.requests.insert(serial, self.requests[serial].insert(cmd_ref, slot)),
            ..self
        }
    }

    /// `cmd` belongs to a channel that is open.
    pub open spec fn routes(self, cmd: CommandView) -> bool {
        self.channels.contains_key(cmd.channel)
    }

    /// The request that `cmd` answers, if there is one: it waits on the
    /// channel of `cmd`, under the reference of `cmd`, which is not empty.
    pub open spec fn answered(self, cmd: CommandView) -> Option<R> {
        if self.routes(cmd) && cmd.cmd_ref.len() > 0 {
            let pending = self.requests[self.channels[cmd.channel].serial];
            if pending.contains_key(cmd.cmd_ref) {
                Some(pending[cmd.cmd_ref])
            } else {
                None
            }
        } else {
            None
        }
    }

    /// The client once it has received `cmd`. The report that the container
    /// is up makes it connected; a request that was answered waits no more.
    pub open spec fn receiving(self, cmd: CommandView) -> Self {
        let status = if cmd.boot_complete() {
            ConnectionStatus::Connected
        } else {
            self.status
        };
        if self.routes(cmd) && cmd.cmd_ref.len() > 0 {
            let serial = self.channels[cmd.channel].serial;
            ClientView {
                status,
                requests: self.requests.insert(serial, self.requests[serial].remove(cmd.cmd_ref)),
                ..self
            }
        } else {
            ClientView { status, ..self }
        }
    }
}

/// The message that asks for a new channel.
pub open spec fn open_command(
    cmd_ref: Seq<char>,
    service: Seq<char>,
    name: Option<Seq<char>>,
    action: Option<Action>,
) -> CommandView {
    CommandView {
        channel: 0,
        cmd_ref,
        body: Some(
            BodyView::OpenChan {
                service,
                name: match name {
                    Some(name) => name,
                    None => Seq::empty(),
                },
                action: match action {
                    Some(action) => action,
                    None => Action::AttachOrCreate,
                },
                extra: Seq::empty(),
            },
        ),
        extra: Seq::empty(),
    }
}

/// The mathematical content of an optional name.
pub open spec fn name_view(name: Option<String>) -> Option<Seq<char>> {
    match name {
        Some(name) => Some(name@),
        None => None,
    }
}

impl<L, S, R> ClientView<L, S, R> {
    /// The client once `event` has happened in a connection attempt.
    pub open spec fn connecting(self, event: ConnectEvent<L, S>) -> Self {
        match event {
            ConnectEvent::Dialed { link, inbox } => self.with_link(link).registering(0, inbox),
            _ => self,
        }
    }

    /// What follows `event` in a connection attempt.
    pub open spec fn connect_step(self, event: ConnectEvent<L, S>) -> ConnectStepView {
        match event {
            ConnectEvent::Start => ConnectStepView::Fetch,
            ConnectEvent::Fetched { retries, outcome } => after_fetch(
                retries,
                fetch_result_view(outcome),
            ),
            ConnectEvent::Dialed { .. } => ConnectStepView::Launch(self.next_channel(0)),
            ConnectEvent::DialFailed(error) => ConnectStepView::Fail(
                ErrorView::ConnectionError(error),
            ),
            ConnectEvent::Launched(channel) => if self.status == ConnectionStatus::Connected {
                ConnectStepView::Ready(channel)
            } else {
                ConnectStepView::Wait(channel)
            },
        }
    }

    /// The client once the request to open a channel was answered with
    /// `reply`.
    pub open spec fn opening(self, reply: CommandView, inbox: S) -> Self {
        match reply.body {
            Some(BodyView::OpenChanRes { id, state: State::Numbered(_), .. }) => self.registering(
                id,
                inbox,
            ),
            _ => self,
        }
    }

    /// What the request to open a channel yields if it was answered with
    /// `reply`.
    pub open spec fn open_result(self, reply: CommandView) -> Result<Channel, ErrorView> {
        match reply.body {
            Some(BodyView::OpenChanRes { state: State::Error, error, .. }) => Err(
                ErrorView::GenericError(error),
            ),
            Some(BodyView::OpenChanRes { id, .. }) => Ok(self.next_channel(id)),
            _ => Err(ErrorView::UnexpectedReply(reply)),
        }
    }
}

impl<L, S, R> View for Client<L, S, R> {
    type V = ClientView<L, S, R>;

    closed spec fn view(&self) -> ClientView<L, S, R> {
        ClientView {
            status: self.status,
            link: self.link,
            channels: self.channels@,
            requests: self.requests@.map_values(|pending: ReqMap<R>| pending@),
            next_serial: self.next_serial,
        }
    }
}

impl<L, S, R> Client<L, S, R> {
    /// What every operation keeps.
    pub closed spec fn wf(&self) -> bool {
        &&& self@.wf()
        &&& forall|serial: u64| #[trigger]
            self.requests@.contains_key(serial) ==> self.requests@[serial].wf()
    }

    /// What every operation keeps of the content of a client.
    pub proof fn lemma_wf_view(&self)
        requires
            self.wf(),
        ensures
            self@.wf(),
    {
    }

    /// A client that is not connected.
    pub fn new() -> (client: Self)
        ensures
            client.wf(),
            client@ == ClientView::<L, S, R>::initial(),
            client@.status == ConnectionStatus::Disconnected,
            client@.link is None,
            client@.channels == Map::<i32, ChannelEntry<S>>::empty(),
            client@.requests == Map::<u64, Map<Seq<char>, R>>::empty(),
            client@.next_serial == 0,
    {
        let client = Client {
            status: ConnectionStatus::Disconnected,
            link: None,
            channels: HashMap::new(),
            requests: HashMap::new(),
            next_serial: 0,
        };
        assert(client@ =~= ClientView::<L, S, R>::initial());
        client
    }

    /// The current status.
    pub fn status(&self) -> (status: ConnectionStatus)
        ensures
            status == self@.status,
    {
        self.status
    }

    /// How to reach the websocket that was opened last, if one was.
    pub fn link(&self) -> (link: Option<&L>)
        ensures
            link == (match self@.link {
                Some(l) => Some(&l),
                None => None,
            }),
    {
        self.link.as_ref()
    }

    /// Where the messages of channel `id` go, if it is open.
    pub fn inbox(&self, id: i32) -> (inbox: Option<&S>)
        ensures
            inbox == (if self@.channels.contains_key(id) {
                Some(&self@.channels[id].inbox)
            } else {
                None
            }),
    {
        match self.channels.get(&id) {
            Some(entry) => Some(&entry.inbox),
            None => None,
        }
    }

    /// Whether another channel can be registered.
    pub fn has_room(&self) -> (room: bool)
        ensures
            room == self@.has_room(),
            room <==> self@.next_serial < u64::MAX,
    {
        self.next_serial < u64::MAX
    }

    /// Whether `channel` was registered with this client.
    pub fn knows(&self, channel: &Channel) -> (known: bool)
        ensures
            known == self@.knows(*channel),
            known <==> self@.requests.contains_key(channel.serial),
    {
        self.requests.contains_key(&channel.serial)
    }

    /// Registers a new channel `id`.
    fn register(&mut self, id: i32, inbox: S) -> (channel: Channel)
        requires
            old(self).wf(),
            old(self)@.has_room(),
        ensures
            final(self).wf(),
            final(self)@ == old(self)@.registering(id, inbox),
            channel == old(self)@.next_channel(id),
    {
        let serial: u64 = self.next_serial;
        let pending: ReqMap<R> = ReqMap::new();
        self.requests.insert(serial, pending);
        self.channels.insert(id, ChannelEntry { serial, inbox });
        self.next_serial = serial + 1;
        proof {
            assert(self@ =~= old(self)@.registering(id, inbox));
            assert(self@.wf());
        }
        Channel { id, serial }
    }

    /// Sets the status.
    pub(crate) fn set_status(&mut self, status: ConnectionStatus)
        requires
            old(self).wf(),
            status != ConnectionStatus::Disconnected ==> old(self)@.link is Some,
        ensures
            final(self).wf(),
            final(self)@ == old(self)@.with_status(status),
    {
        self.status = status;
        assert(self@ =~= old(self)@.with_status(status));
    }

    /// Takes the request out that waits on channel `id` under `cmd_ref`, if
    /// there is one.
    pub(crate) fn take_request(&mut self, id: i32, cmd_ref: &String) -> (slot: Option<R>)
        requires
            old(self).wf(),
            old(self)@.channels.contains_key(id),
        ensures
            final(self).wf(),
            ({
                let serial = old(self)@.channels[id].serial;
                let pending = old(self)@.requests[serial];
                &&& final(self)@ == (ClientView {
                    requests: old(self)@.requests.insert(serial, pending.remove(cmd_ref@)),
                    ..old(self)@
                })
                &&& slot == (if pending.contains_key(cmd_ref@) {
                    Some(pending[cmd_ref@])
                } else {
                    None
                })
            }),
    {
        let serial: u64 = self.channels.get(&id).unwrap().serial;
        let mut pending = self.requests.remove(&serial).unwrap();
        let slot = pending.remove(cmd_ref);
        self.requests.insert(serial, pending);
        proof {
            assert(self@ =~= (ClientView {
                requests: old(self)@.requests.insert(
                    serial,
                    old(self)@.requests[serial].remove(cmd_ref@),
                ),
                ..old(self)@
            }));
            assert(self@.wf());
        }
        slot
    }

    /// Lets the reply to `cmd_ref` on the channel of number `serial` go to
    /// `slot`.
    pub(crate) fn await_reply(&mut self, serial: u64, cmd_ref: String, slot: R)
        requires
            old(self).wf(),
            old(self)@.requests.contains_key(serial),
        ensures
            final(self).wf(),
            final(self)@ == old(self)@.awaiting(serial, cmd_ref@, slot),
    {
        let mut pending = self.requests.remove(&serial).unwrap();
        pending.insert(cmd_ref, slot);
        self.requests.insert(serial, pending);
        proof {
            assert(self@ =~= old(self)@.awaiting(serial, cmd_ref@, slot));
            assert(self@.wf());
        }
    }
}

impl<L, S, R> Client<L, S, R> {
    /// Decides what follows `event` in a connection attempt. An open
    /// websocket becomes the client's, with a new channel 0.
    pub fn connect(&mut self, event: ConnectEvent<L, S>) -> (step: ConnectStep)
        requires
            old(self).wf(),
            match event {
                ConnectEvent::Fetched { outcome: Ok(metadata), .. } => within_url_limit(metadata@),
                ConnectEvent::Dialed { .. } => old(self)@.has_room(),
                _ => true,
            },
        ensures
            final(self).wf(),
            final(self)@ == old(self)@.connecting(event),
            step@ == old(self)@.connect_step(event),
            !(event is Dialed) ==> final(self)@ == old(self)@,
            match event {
                ConnectEvent::Start => step is Fetch,
                ConnectEvent::Fetched { retries, outcome: Ok(metadata) } => match url_parsed(
                    metadata.gurl@,
                ) {
                    Ok(_) => step matches ConnectStep::Dial(address) && address@ == url_with_path(
                        metadata.gurl@,
                        "/wsv2/"@ + metadata.token@,
                    ),
                    Err(cause) => step matches ConnectStep::Fail(
                        CrosisError::ConnectionMetadataParseError(text),
                    ) && text@ == cause,
                },
                ConnectEvent::Fetched {
                    retries,
                    outcome: Err(FetchConnectionMetadataError::Abort),
                } => step matches ConnectStep::Fail(CrosisError::ConnectionMetadataFetchError),
                ConnectEvent::Fetched {
                    retries,
                    outcome: Err(FetchConnectionMetadataError::Other(cause)),
                } => step matches ConnectStep::Fail(error) && error@ == cause@,
                ConnectEvent::Fetched {
                    retries,
                    outcome: Err(FetchConnectionMetadataError::Retriable),
                } => if retries >= 3 {
                    step matches ConnectStep::Fail(CrosisError::ConnectionMetadataFetchError)
                } else {
                    step matches ConnectStep::Retry { after_millis, retries: next } && next
                        == retries + 1 && after_millis == (if retries == 0 {
                        10int
                    } else if retries == 1 {
                        100
                    } else {
                        1000
                    })
                },
                ConnectEvent::Dialed { link, inbox } => step matches ConnectStep::Launch(channel)
                    && {
                    &&& channel.id == 0
                    &&& final(self)@.link == Some(link)
                    &&& final(self)@.requests.contains_key(channel.serial)
                    &&& !old(self)@.requests.contains_key(channel.serial)
                    &&& final(self)@.requests == old(self)@.requests.insert(channel.serial, Map::empty())
                    &&& final(self)@.channels.contains_key(0)
                    &&& final(self)@.channels[0].serial == channel.serial
                    &&& final(self)@.channels[0].inbox == inbox
                    &&& final(self)@.channels.dom() == old(self)@.channels.dom().insert(0)
                    &&& forall|other: i32|
                        #![trigger final(self)@.channels[other]]
                        other != 0 ==> final(self)@.channels[other] == old(self)@.channels[other]
                    &&& final(self)@.status == old(self)@.status
                },
                ConnectEvent::DialFailed(cause) => step matches ConnectStep::Fail(
                    CrosisError::ConnectionError(error),
                ) && error == cause,
                ConnectEvent::Launched(channel) => if old(self)@.status
                    == ConnectionStatus::Connected {
                    step matches ConnectStep::Ready(ready) && ready == channel
                } else {
                    step matches ConnectStep::Wait(waiting) && waiting == channel
                },
            },
    {
        match event {
            ConnectEvent::Start => ConnectStep::Fetch,
            ConnectEvent::Fetched { retries, outcome } => fetch_step(retries, outcome),
            ConnectEvent::Dialed { link, inbox } => {
                let channel = self.register(0, inbox);
                self.link = Some(link);
                proof {
                    assert(self@ =~= old(self)@.with_link(link).registering(0, inbox));
                }
                ConnectStep::Launch(channel)
            },
            ConnectEvent::DialFailed(error) => ConnectStep::Fail(
                CrosisError::ConnectionError(error),
            ),
            ConnectEvent::Launched(channel) => {
                match self.status {
                    ConnectionStatus::Connected => ConnectStep::Ready(channel),
                    _ => ConnectStep::Wait(channel),
                }
            },
        }
    }

    /// The link on which to close the websocket.
    pub fn close(&self) -> (link: Result<&L, CrosisError>)
        requires
            self.wf(),
        ensures
            match link {
                Ok(link) => self@.can_send() && self@.link == Some(*link),
                Err(error) => !self@.can_send() && error@ == ErrorView::Disconnected(
                    "send message"@,
                ),
            },
            link is Ok <==> self@.status != ConnectionStatus::Disconnected,
            link matches Err(error) ==> (error matches CrosisError::Disconnected(attempt)
                && attempt@ == "send message"@),
    {
        match self.status {
            ConnectionStatus::Disconnected => Err(
                CrosisError::Disconnected("send message".to_string()),
            ),
            _ => Ok(self.link.as_ref().unwrap()),
        }
    }

    /// The link on which to write `msg`, and `msg`. It does not matter
    /// whether the client is still connecting.
    pub fn send(&self, msg: Command) -> (sent: Result<(&L, Command), CrosisError>)
        requires
            self.wf(),
        ensures
            match sent {
                Ok((link, written)) => self@.can_send() && self@.link == Some(*link) && written
                    == msg,
                Err(error) => !self@.can_send() && error@ == ErrorView::Disconnected(
                    "send message"@,
                ),
            },
            sent is Ok <==> self@.status != ConnectionStatus::Disconnected,
            sent matches Err(error) ==> (error matches CrosisError::Disconnected(attempt)
                && attempt@ == "send message"@),
    {
        match self.close() {
            Ok(link) => Ok((link, msg)),
            Err(error) => Err(error),
        }
    }

    /// Begins to open a channel: registers a request under a fresh reference
    /// and returns the message to send for it. The reply goes to `slot`.
    /// Without a `name` the channel has the empty one; `action` defaults to
    /// [`Action::AttachOrCreate`].
    pub fn open(
        &mut self,
        service: String,
        name: Option<String>,
        action: Option<Action>,
        slot: R,
    ) -> (msg: Result<Command, CrosisError>)
        requires
            old(self).wf(),
        ensures
            final(self).wf(),
            match msg {
                Ok(msg) => {
                    &&& old(self)@.can_open()
                    &&& is_generated_ref(msg@.cmd_ref)
                    &&& msg@ == open_command(msg@.cmd_ref, service@, name_view(name), action)
                    &&& final(self)@ == old(self)@.awaiting(
                        old(self)@.channels[0].serial,
                        msg@.cmd_ref,
                        slot,
                    )
                    &&& msg.channel == 0
                    &&& msg.extra@.len() == 0
                    &&& msg.body matches Some(Body::OpenChan(asked)) && {
                        &&& asked.service@ == service@
                        &&& asked.name@ == (match name {
                            Some(name) => name@,
                            None => Seq::<char>::empty(),
                        })
                        &&& asked.action == (match action {
                            Some(action) => action,
                            None => Action::AttachOrCreate,
                        })
                        &&& asked.extra@.len() == 0
                    }
                    &&& final(self)@.status == old(self)@.status
                    &&& final(self)@.link == old(self)@.link
                    &&& final(self)@.channels == old(self)@.channels
                    &&& final(self)@.next_serial == old(self)@.next_serial
                    &&& final(self)@.requests == old(self)@.requests.insert(
                        old(self)@.channels[0].serial,
                        old(self)@.requests[old(self)@.channels[0].serial].insert(msg.cmd_ref@, slot),
                    )
                },
                Err(error) => {
                    &&& !old(self)@.can_open()
                    &&& error@ == ErrorView::Disconnected("open channel"@)
                    &&& final(self)@ == old(self)@
                },
            },
            msg is Ok <==> old(self)@.status == ConnectionStatus::Connected,
            msg matches Err(error) ==> (error matches CrosisError::Disconnected(attempt)
                && attempt@ == "open channel"@),
    {
        match self.check_open() {
            Ok(_) => {
                let cmd_ref = generate_ref();
                Ok(self.begin_open(service, name, action, slot, cmd_ref))
            },
            Err(error) => Err(error),
        }
    }

    /// Begins to open a channel, like [`Self::open`], with `cmd_ref` as the
    /// reference.
    pub fn open_with_ref(
        &mut self,
        service: String,
        name: Option<String>,
        action: Option<Action>,
        slot: R,
        cmd_ref: String,
    ) -> (msg: Result<Command, CrosisError>)
        requires
            old(self).wf(),
        ensures
            final(self).wf(),
            match msg {
                Ok(msg) => {
                    &&& old(self)@.can_open()
                    &&& msg@ == open_command(cmd_ref@, service@, name_view(name), action)
                    &&& final(self)@ == old(self)@.awaiting(
                        old(self)@.channels[0].serial,
                        cmd_ref@,
                        slot,
                    )
                    &&& msg.channel == 0
                    &&& msg.extra@.len() == 0
                    &&& msg.body matches Some(Body::OpenChan(asked)) && {
                        &&& asked.service@ == service@
                        &&& asked.name@ == (match name {
                            Some(name) => name@,
                            None => Seq::<char>::empty(),
                        })
                        &&& asked.action == (match action {
                            Some(action) => action,
                            None => Action::AttachOrCreate,
                        })
                        &&& asked.extra@.len() == 0
                    }
                    &&& msg.cmd_ref@ == cmd_ref@
                    &&& final(self)@.status == old(self)@.status
                    &&& final(self)@.link == old(self)@.link
                    &&& final(self)@.channels == old(self)@.channels
                    &&& final(self)@.next_serial == old(self)@.next_serial
                    &&& final(self)@.requests == old(self)@.requests.insert(
                        old(self)@.channels[0].serial,
                        old(self)@.requests[old(self)@.channels[0].serial].insert(msg.cmd_ref@, slot),
                    )
                },
                Err(error) => {
                    &&& !old(self)@.can_open()
                    &&& error@ == ErrorView::Disconnected("open channel"@)
                    &&& final(self)@ == old(self)@
                },
            },
            msg is Ok <==> old(self)@.status == ConnectionStatus::Connected,
            msg matches Err(error) ==> (error matches CrosisError::Disconnected(attempt)
                && attempt@ == "open channel"@),
    {
        match self.check_open() {
            Ok(_) => Ok(self.begin_open(service, name, action, slot, cmd_ref)),
            Err(error) => Err(error),
        }
    }

    /// Tells whether the client accepts requests to open a channel.
    pub fn check_open(&self) -> (checked: Result<(), CrosisError>)
        ensures
            match checked {
                Ok(_) => self@.can_open(),
                Err(error) => !self@.can_open() && error@ == ErrorView::Disconnected(
                    "open channel"@,
                ),
            },
            checked is Ok <==> self@.status == ConnectionStatus::Connected,
            checked matches Err(error) ==> (error matches CrosisError::Disconnected(attempt)
                && attempt@ == "open channel"@),
    {
        match self.status {
            ConnectionStatus::Connected => Ok(()),
            _ => Err(CrosisError::Disconnected("open channel".to_string())),
        }
    }

    /// Begins to open a channel once [`Self::check_open`] has accepted it. The
    /// status may have changed since then.
    pub fn begin_open(
        &mut self,
        service: String,
        name: Option<String>,
        action: Option<Action>,
        slot: R,
        cmd_ref: String,
    ) -> (msg: Command)
        requires
            old(self).wf(),
            old(self)@.link is Some,
        ensures
            final(self).wf(),
            msg@ == open_command(cmd_ref@, service@, name_view(name), action),
            final(self)@ == old(self)@.awaiting(old(self)@.channels[0].serial, cmd_ref@, slot),
            msg.cmd_ref@ == cmd_ref@,
            ({
                    &&& msg.channel == 0
                    &&& msg.extra@.len() == 0
                    &&& msg.body matches Some(Body::OpenChan(asked)) && {
                        &&& asked.service@ == service@
                        &&& asked.name@ == (match name {
                            Some(name) => name@,
                            None => Seq::<char>::empty(),
                        })
                        &&& asked.action == (match action {
                            Some(action) => action,
                            None => Action::AttachOrCreate,
                        })
                        &&& asked.extra@.len() == 0
                    }
                    &&& final(self)@.status == old(self)@.status
                    &&& final(self)@.link == old(self)@.link
                    &&& final(self)@.channels == old(self)@.channels
                    &&& final(self)@.next_serial == old(self)@.next_serial
                    &&& final(self)@.requests == old(self)@.requests.insert(
                        old(self)@.channels[0].serial,
                        old(self)@.requests[old(self)@.channels[0].serial].insert(cmd_ref@, slot),
                    )
            }),
    {
        let action = match action {
            Some(action) => action,
            None => Action::AttachOrCreate,
        };
        let name = match name {
            Some(name) => name,
            None => String::new(),
        };
        let msg = Command {
            channel: 0,
            cmd_ref: cmd_ref.clone(),
            body: Some(Body::OpenChan(OpenChannel { service, name, action, extra: Vec::new() })),
            extra: Vec::new(),
        };
        let serial: u64 = self.channels.get(&0).unwrap().serial;
        self.await_reply(serial, cmd_ref, slot);
        msg
    }

    /// Ends to open a channel: the request was answered with `reply`. If the
    /// channel is open, its messages go to `inbox`.
    pub fn opened(&mut self, reply: Command, inbox: S) -> (channel: Result<Channel, CrosisError>)
        requires
            old(self).wf(),
            old(self)@.open_result(reply@) is Ok ==> old(self)@.link is Some && old(
                self,
            )@.has_room(),
        ensures
            final(self).wf(),
            final(self)@ == old(self)@.opening(reply@, inbox),
            match channel {
                Ok(channel) => old(self)@.open_result(reply@) == Ok::<Channel, ErrorView>(channel),
                Err(error) => old(self)@.open_result(reply@) == Err::<Channel, ErrorView>(error@),
            },
            match reply.body {
                Some(Body::OpenChanRes(res)) => if res.state == State::Error {
                    &&& channel matches Err(CrosisError::GenericError(text)) && text@ == res.error@
                    &&& final(self)@ == old(self)@
                } else {
                    &&& channel matches Ok(channel) && {
                        &&& channel.id == res.id
                        &&& final(self)@.requests.contains_key(channel.serial)
                        &&& !old(self)@.requests.contains_key(channel.serial)
                        &&& final(self)@.requests == old(self)@.requests.insert(channel.serial, Map::empty())
                        &&& final(self)@.channels.contains_key(res.id)
                        &&& final(self)@.channels[res.id].serial == channel.serial
                        &&& final(self)@.channels[res.id].inbox == inbox
                        &&& final(self)@.channels.dom() == old(self)@.channels.dom().insert(res.id)
                        &&& forall|other: i32|
                            #![trigger final(self)@.channels[other]]
                            other != res.id ==> final(self)@.channels[other] == old(self)@.channels[other]
                        &&& final(self)@.status == old(self)@.status
                    }
                    &&& final(self)@.link == old(self)@.link
                },
                _ => {
                    &&& channel matches Err(CrosisError::UnexpectedReply(unexpected)) && unexpected
                        == reply
                    &&& final(self)@ == old(self)@
                },
            },
    {
        let id: i32 = match &reply.body {
            Some(Body::OpenChanRes(res)) => match res.state {
                State::Error => {
                    return Err(CrosisError::GenericError(res.error.clone()));
                },
                State::Numbered(_) => res.id,
            },
            _ => {
                return Err(CrosisError::UnexpectedReply(reply));
            },
        };
        Ok(self.register(id, inbox))
    }

    /// Gives the client up. Yields the link on which to close the websocket.
    pub fn destroy(self) -> (link: Result<L, CrosisError>)
        requires
            self.wf(),
        ensures
            match link {
                Ok(link) => self@.can_send() && self@.link == Some(link),
                Err(error) => !self@.can_send() && error@ == ErrorView::Disconnected(
                    "send message"@,
                ),
            },
            link is Ok <==> self@.status != ConnectionStatus::Disconnected,
            link matches Err(error) ==> (error matches CrosisError::Disconnected(attempt)
                && attempt@ == "send message"@),
    {
        match self.close() {
            Ok(_) => {},
            Err(error) => {
                return Err(error);
            },
        }
        Ok(self.link.unwrap())
    }
}

} // verus!
