//! The life of a session: from the open websocket to its end.
//!
//! A session reads and writes at the same time. Either side ends when the
//! signal to close is given, and gives that signal itself if its own end of
//! the websocket fails, so that both sides end together.

use vstd::prelude::*;

use crate::client::{Client, ClientView, ConnectionStatus};
use crate::goval::{Body, BodyView, Command, CommandView, Stage};

verus! {

/// How long a session may write nothing before it writes a ping.
pub const PING_INTERVAL_MILLIS: u64 = 500;

/// What happened last on the reading side.
#[derive(Debug)]
pub enum ReadEvent {
    /// The signal to close was given.
    Aborted,
    /// The websocket has ended.
    Ended,
    /// The websocket has failed.
    Failed,
    /// A message came that is not binary.
    NotBinary,
    /// A binary message came, which holds this.
    Received(Command),
}

/// What to do next on the reading side.
#[derive(Debug, PartialEq, Eq)]
pub enum ReadAction<R> {
    /// Stop reading.
    Stop,
    /// Give the signal to close, then stop reading.
    AbortAndStop,
    /// Hand the reply, if there is one, to the request that it answers, and
    /// then the message to the inbox of its channel. Read on.
    Deliver { reply: Option<(R, Command)>, msg: Command },
    /// Nobody waits for the message. Read on.
    Discard(Command),
}

/// What happened last on the writing side.
#[derive(Debug)]
pub enum WriteEvent {
    /// The signal to close was given.
    Aborted,
    /// No more messages will be queued.
    QueueClosed,
    /// This encoded message was taken from the queue.
    Queued(Vec<u8>),
    /// Nothing was queued for [`PING_INTERVAL_MILLIS`].
    Idle,
    /// A message was written.
    Written,
    /// A message could not be written.
    WriteFailed,
}

/// What to do next on the writing side.
#[derive(Debug, PartialEq, Eq)]
pub enum WriteAction {
    /// Stop writing.
    Stop,
    /// Give the signal to close, then stop writing.
    AbortAndStop,
    /// Write this encoded message.
    Write(Vec<u8>),
    /// Wait for the next event.
    Wait,
}

/// What remains to be done when a session has ended, one after the other.
#[derive(Clone, Copy, Debug, PartialEq, Eq, Structural)]
pub enum Teardown {
    /// Close the websocket.
    CloseSocket,
    /// Accept no more messages for it.
    CloseQueue,
}

/// The mathematical content of a [`ReadAction`].
#[verifier::ext_equal]
pub enum ReadActionView<R> {
    Stop,
    AbortAndStop,
    Deliver { reply: Option<(R, CommandView)>, msg: CommandView },
    Discard(CommandView),
}

/// The mathematical content of a [`WriteAction`].
#[verifier::ext_equal]
pub enum WriteActionView {
    Stop,
    AbortAndStop,
    Write(Seq<u8>),
    Wait,
}

impl<R> View for ReadAction<R> {
    type V = ReadActionView<R>;

    open spec fn view(&self) -> ReadActionView<R> {
        match *self {
            ReadAction::Stop => ReadActionView::Stop,
            ReadAction::AbortAndStop => ReadActionView::AbortAndStop,
            ReadAction::Deliver { reply, msg } => ReadActionView::Deliver {
                reply: match reply {
                    Some((slot, reply)) => Some((slot, reply@)),
                    None => None,
                },
                msg: msg@,
            },
            ReadAction::Discard(msg) => ReadActionView::Discard(msg@),
        }
    }
}

impl View for WriteAction {
    type V = WriteActionView;

    open spec fn view(&self) -> WriteActionView {
        match *self {
            WriteAction::Stop => WriteActionView::Stop,
            WriteAction::AbortAndStop => WriteActionView::AbortAndStop,
            WriteAction::Write(encoded) => WriteActionView::Write(encoded@),
            WriteAction::Wait => WriteActionView::Wait,
        }
    }
}

/// The message that keeps an idle session alive.
pub open spec fn ping_command() -> CommandView {
    CommandView {
        channel: 0,
        cmd_ref: Seq::empty(),
        body: Some(BodyView::Ping),
        extra: Seq::empty(),
    }
}

/// What the writing side does after `event`; `ping` is the encoded ping.
pub open spec fn write_action(event: WriteEvent, ping: Seq<u8>) -> WriteActionView {
    match event {
        WriteEvent::Aborted => WriteActionView::Stop,
        WriteEvent::QueueClosed | WriteEvent::WriteFailed => WriteActionView::AbortAndStop,
        WriteEvent::Queued(encoded) => WriteActionView::Write(encoded@),
        WriteEvent::Idle => WriteActionView::Write(ping),
        WriteEvent::Written => WriteActionView::Wait,
    }
}

impl<L, S, R> ClientView<L, S, R> {
    /// The client once `event` has happened on the reading side.
    pub open spec fn reading(self, event: ReadEvent) -> Self {
        match event {
            ReadEvent::Received(cmd) => self.receiving(cmd@),
            _ => self,
        }
    }

    /// What the reading side does with `cmd`.
    pub open spec fn delivery(self, cmd: CommandView) -> ReadActionView<R> {
        if self.routes(cmd) {
            ReadActionView::Deliver {
                reply: match self.answered(cmd) {
                    Some(slot) => Some((slot, cmd)),
                    None => None,
                },
                msg: cmd,
            }
        } else {
            ReadActionView::Discard(cmd)
        }
    }

    /// What the reading side does after `event`.
    pub open spec fn read_action(self, event: ReadEvent) -> ReadActionView<R> {
        match event {
            ReadEvent::Aborted => ReadActionView::Stop,
            ReadEvent::Ended | ReadEvent::Failed | ReadEvent::NotBinary =>
                ReadActionView::AbortAndStop,
            ReadEvent::Received(cmd) => self.delivery(cmd@),
        }
    }
}

/// The message that keeps an idle session alive.
pub fn ping() -> (ping: Command)
    ensures
        ping@ == ping_command(),
        ping.channel == 0,
        ping.cmd_ref@.len() == 0,
        ping.body matches Some(Body::Ping),
        ping.extra@.len() == 0,
{
    Command { channel: 0, cmd_ref: String::new(), body: Some(Body::Ping), extra: Vec::new() }
}

/// Decides what the writing side does after `event`; `ping` is the encoded
/// ping.
pub fn write_step(event: WriteEvent, ping: &Vec<u8>) -> (action: WriteAction)
    ensures
        action@ == write_action(event, ping@),
        match event {
            WriteEvent::Aborted => action is Stop,
            WriteEvent::QueueClosed | WriteEvent::WriteFailed => action is AbortAndStop,
            WriteEvent::Queued(encoded) => action matches WriteAction::Write(bytes) && bytes@
                == encoded@,
            WriteEvent::Idle => action matches WriteAction::Write(bytes) && bytes@ == ping@,
            WriteEvent::Written => action is Wait,
        },
{
    match event {
        WriteEvent::Aborted => WriteAction::Stop,
        WriteEvent::QueueClosed => WriteAction::AbortAndStop,
        WriteEvent::Queued(encoded) => WriteAction::Write(encoded),
        WriteEvent::Idle => WriteAction::Write(ping.clone()),
        WriteEvent::Written => WriteAction::Wait,
        WriteEvent::WriteFailed => WriteAction::AbortAndStop,
    }
}

impl<L, S, R> Client<L, S, R> {
    /// Begins a session on the websocket that was opened last.
    pub fn begin_session(&mut self)
        requires
            old(self).wf(),
            old(self)@.link is Some,
        ensures
            final(self).wf(),
            final(self)@ == old(self)@.with_status(ConnectionStatus::Connecting),
            final(self)@.status == ConnectionStatus::Connecting,
            final(self)@.link == old(self)@.link,
            final(self)@.channels == old(self)@.channels,
            final(self)@.requests == old(self)@.requests,
            final(self)@.next_serial == old(self)@.next_serial,
    {
        self.set_status(ConnectionStatus::Connecting);
    }

    /// Decides what the reading side does after `event`.
    pub fn read_step(&mut self, event: ReadEvent) -> (action: ReadAction<R>)
        requires
            old(self).wf(),
            old(self)@.link is Some,
        ensures
            final(self).wf(),
            final(self)@ == old(self)@.reading(event),
            action@ == old(self)@.read_action(event),
            final(self)@.link == old(self)@.link,
            final(self)@.channels == old(self)@.channels,
            final(self)@.next_serial == old(self)@.next_serial,
            match event {
                ReadEvent::Aborted => action is Stop && final(self)@ == old(self)@,
                ReadEvent::Ended | ReadEvent::Failed | ReadEvent::NotBinary => action
                    is AbortAndStop && final(self)@ == old(self)@,
                ReadEvent::Received(cmd) => {
                    &&& final(self)@.status == (if cmd.body matches Some(Body::BootStatus(boot))
                        && boot.stage == Stage::Complete {
                        ConnectionStatus::Connected
                    } else {
                        old(self)@.status
                    })
                    &&& if old(self)@.channels.contains_key(cmd.channel) {
                        let serial = old(self)@.channels[cmd.channel].serial;
                        let pending = old(self)@.requests[serial];
                        &&& action matches ReadAction::Deliver { reply, msg } && {
                            &&& msg == cmd
                            &&& if cmd.cmd_ref@.len() > 0 && pending.contains_key(cmd.cmd_ref@) {
                                reply matches Some((slot, copy)) && {
                                    &&& slot == pending[cmd.cmd_ref@]
                                    &&& copy@ == cmd@
                                    &&& copy.channel == cmd.channel
                                    &&& copy.cmd_ref@ == cmd.cmd_ref@
                                    &&& copy.extra@ == cmd.extra@
                                    &&& copy.body is Some <==> cmd.body is Some
                                }
                            } else {
                                reply is None
                            }
                        }
                        &&& final(self)@.requests == (if cmd.cmd_ref@.len() > 0 {
                            old(self)@.requests.insert(serial, pending.remove(cmd.cmd_ref@))
                        } else {
                            old(self)@.requests
                        })
                    } else {
                        &&& action matches ReadAction::Discard(msg) && msg == cmd
                        &&& final(self)@.requests == old(self)@.requests
                    }
                },
            },
    {
        match event {
            ReadEvent::Aborted => ReadAction::Stop,
            ReadEvent::Ended => ReadAction::AbortAndStop,
            ReadEvent::Failed => ReadAction::AbortAndStop,
            ReadEvent::NotBinary => ReadAction::AbortAndStop,
            ReadEvent::Received(cmd) => {
                if cmd.is_boot_complete() {
                    self.set_status(ConnectionStatus::Connected);
                }
                if self.inbox(cmd.channel).is_none() {
                    return ReadAction::Discard(cmd);
                }
                let answered = if cmd.cmd_ref.as_str().is_empty() {
                    None
                } else {
                    self.take_request(cmd.channel, &cmd.cmd_ref)
                };
                let reply = match answered {
                    Some(slot) => Some((slot, cmd.clone())),
                    None => None,
                };
                ReadAction::Deliver { reply, msg: cmd }
            },
        }
    }

    /// Ends a session, both sides of which have stopped: first the client
    /// counts as disconnected, then the rest is done in the order given. So
    /// whoever finds the client not disconnected finds the queue open.
    pub fn end_session(&mut self) -> (rest: Vec<Teardown>)
        requires
            old(self).wf(),
        ensures
            final(self).wf(),
            final(self)@ == old(self)@.with_status(ConnectionStatus::Disconnected),
            final(self)@.status == ConnectionStatus::Disconnected,
            final(self)@.link == old(self)@.link,
            final(self)@.channels == old(self)@.channels,
            final(self)@.requests == old(self)@.requests,
            final(self)@.next_serial == old(self)@.next_serial,
            rest@ == seq![Teardown::CloseSocket, Teardown::CloseQueue],
    {
        self.set_status(ConnectionStatus::Disconnected);
        let mut rest: Vec<Teardown> = Vec::new();
        rest.push(Teardown::CloseSocket);
        rest.push(Teardown::CloseQueue);
        assert(rest@ =~= seq![Teardown::CloseSocket, Teardown::CloseQueue]);
        rest
    }
}

} // verus!
