//! What holds of a client over any number of operations.

use vstd::prelude::*;

use crate::channel::Channel;
use crate::client::{ClientView, ConnectionStatus};
use crate::connect::ConnectEvent;
use crate::goval::CommandView;
use crate::refs::{is_generated_ref, law_generated_ref_shape};
use crate::session::{ReadActionView, ReadEvent};

verus! {

/// The ways in which the operations of a client change it.
pub enum ClientOp<L, S, R> {
    /// A websocket was opened.
    Dial { link: L, inbox: S },
    /// A session began on it.
    Begin,
    /// A message was received.
    Receive(CommandView),
    /// A session ended.
    End,
    /// A channel was opened.
    Register { id: i32, inbox: S },
    /// A request was made.
    Await { serial: u64, cmd_ref: Seq<char>, slot: R },
}

impl<L, S, R> ClientView<L, S, R> {
    /// The operation may be done in this state.
    pub open spec fn allows(self, op: ClientOp<L, S, R>) -> bool {
        match op {
            ClientOp::Dial { .. } => self.has_room(),
            ClientOp::Begin => self.link is Some,
            ClientOp::Receive(_) => self.link is Some,
            ClientOp::End => true,
            ClientOp::Register { .. } => self.has_room(),
            ClientOp::Await { serial, .. } => self.requests.contains_key(serial),
        }
    }

    /// The client after the operation.
    pub open spec fn after(self, op: ClientOp<L, S, R>) -> Self {
        match op {
            ClientOp::Dial { link, inbox } => self.with_link(link).registering(0, inbox),
            ClientOp::Begin => self.with_status(ConnectionStatus::Connecting),
            ClientOp::Receive(cmd) => self.receiving(cmd),
            ClientOp::End => self.with_status(ConnectionStatus::Disconnected),
            ClientOp::Register { id, inbox } => self.registering(id, inbox),
            ClientOp::Await { serial, cmd_ref, slot } => self.awaiting(serial, cmd_ref, slot),
        }
    }

    /// The operations may be done one after the other.
    pub open spec fn allows_all(self, ops: Seq<ClientOp<L, S, R>>) -> bool
        decreases ops.len(),
    {
        ops.len() == 0 || (self.allows(ops[0]) && self.after(ops[0]).allows_all(ops.drop_first()))
    }

    /// The client after all the operations.
    pub open spec fn after_all(self, ops: Seq<ClientOp<L, S, R>>) -> Self
        decreases ops.len(),
    {
        if ops.len() == 0 {
            self
        } else {
            self.after(ops[0]).after_all(ops.drop_first())
        }
    }

    /// `channel` is the one that the messages of its number go to.
    pub open spec fn is_current(self, channel: Channel) -> bool {
        self.channels.contains_key(channel.id) && self.channels[channel.id].serial == channel.serial
    }
}

impl<L, S, R> ClientOp<L, S, R> {
    /// The operation opens a channel of number `id`.
    pub open spec fn opens(self, id: i32) -> bool {
        match self {
            ClientOp::Dial { .. } => id == 0,
            ClientOp::Register { id: opened, .. } => opened == id,
            _ => false,
        }
    }

    /// The operation makes or answers a request of `channel` under `cmd_ref`.
    pub open spec fn concerns(self, channel: Channel, cmd_ref: Seq<char>) -> bool {
        match self {
            ClientOp::Await { serial, cmd_ref: other, .. } => serial == channel.serial && other
                == cmd_ref,
            ClientOp::Receive(cmd) => cmd.channel == channel.id && cmd.cmd_ref == cmd_ref,
            _ => false,
        }
    }
}

/// An event of a connection attempt, an event on the reading side of a session
/// and a reply to an open request change a client by one of the operations
/// above, or not at all.
pub proof fn law_events_are_operations<L, S, R>(
    s: ClientView<L, S, R>,
    connect_event: ConnectEvent<L, S>,
    read_event: ReadEvent,
    reply: CommandView,
    inbox: S,
)
    ensures
        s.connecting(connect_event) == s || (connect_event matches ConnectEvent::Dialed {
            link,
            inbox,
        } && s.connecting(connect_event) == s.after(ClientOp::Dial { link, inbox })),
        s.reading(read_event) == s || (read_event matches ReadEvent::Received(cmd) && s.reading(
            read_event,
        ) == s.after(ClientOp::Receive(cmd@))),
        s.opening(reply, inbox) == s || (s.open_result(reply) matches Ok(channel) && s.opening(
            reply,
            inbox,
        ) == s.after(ClientOp::Register { id: channel.id, inbox })),
{
}

/// A connected client can open channels and send messages; one that is
/// connecting can send only; one that is disconnected can do neither. A client
/// that can send has a link to send on, and one that can open has a channel 0
/// on which the reply comes.
pub proof fn law_status_decides<L, S, R>(s: ClientView<L, S, R>)
    requires
        s.wf(),
    ensures
        s.status == ConnectionStatus::Connected ==> s.can_send() && s.can_open(),
        s.status == ConnectionStatus::Connecting ==> s.can_send() && !s.can_open(),
        s.status == ConnectionStatus::Disconnected ==> !s.can_send() && !s.can_open(),
        s.can_send() ==> s.link is Some,
        s.can_open() ==> s.channels.contains_key(0) && s.requests.contains_key(
            s.channels[0].serial,
        ),
{
}

/// Every operation keeps what a client promises: a client that is not
/// disconnected has a link, one with a link has a channel 0. It also forgets
/// neither its link nor a channel number, nor a channel that it registered.
pub proof fn law_operation_keeps<L, S, R>(s: ClientView<L, S, R>, op: ClientOp<L, S, R>)
    requires
        s.wf(),
        s.allows(op),
    ensures
        s.after(op).wf(),
        s.link is Some ==> s.after(op).link is Some,
        s.channels.dom().subset_of(s.after(op).channels.dom()),
        s.requests.dom().subset_of(s.after(op).requests.dom()),
{
}

/// [`law_operation_keeps`], for any number of operations.
pub proof fn law_operations_keep<L, S, R>(s: ClientView<L, S, R>, ops: Seq<ClientOp<L, S, R>>)
    requires
        s.wf(),
        s.allows_all(ops),
    ensures
        s.after_all(ops).wf(),
        s.link is Some ==> s.after_all(ops).link is Some,
        s.channels.dom().subset_of(s.after_all(ops).channels.dom()),
        s.requests.dom().subset_of(s.after_all(ops).requests.dom()),
    decreases ops.len(),
{
    if ops.len() > 0 {
        law_operation_keeps(s, ops[0]);
        law_operations_keep(s.after(ops[0]), ops.drop_first());
    }
}

/// Whatever is done with a client from the moment it is made, it keeps what
/// it promises.
pub proof fn law_reachable_clients_are_wf<L, S, R>(ops: Seq<ClientOp<L, S, R>>)
    requires
        ClientView::<L, S, R>::initial().allows_all(ops),
    ensures
        ClientView::<L, S, R>::initial().after_all(ops).wf(),
{
    law_operations_keep(ClientView::<L, S, R>::initial(), ops);
}

/// A client becomes connected by the report that its container is up, and by
/// nothing else.
pub proof fn law_only_boot_connects<L, S, R>(s: ClientView<L, S, R>, op: ClientOp<L, S, R>)
    requires
        s.status != ConnectionStatus::Connected,
    ensures
        s.after(op).status == ConnectionStatus::Connected <==> (op matches ClientOp::Receive(cmd)
            && cmd.boot_complete()),
{
}

/// A channel stays the current one of its number until another of that
/// number is opened; all that time its messages go to the inbox that it was
/// opened with.
pub proof fn law_channel_stays<L, S, R>(
    s: ClientView<L, S, R>,
    channel: Channel,
    ops: Seq<ClientOp<L, S, R>>,
)
    requires
        s.wf(),
        s.allows_all(ops),
        s.is_current(channel),
        forall|i: int| 0 <= i < ops.len() ==> !(#[trigger] ops[i]).opens(channel.id),
    ensures
        s.after_all(ops).is_current(channel),
        s.after_all(ops).channels[channel.id] == s.channels[channel.id],
    decreases ops.len(),
{
    if ops.len() > 0 {
        law_operation_keeps(s, ops[0]);
        assert(!ops[0].opens(channel.id));
        let rest = ops.drop_first();
        assert forall|i: int| 0 <= i < rest.len() implies !(#[trigger] rest[i]).opens(
            channel.id,
        ) by {
            assert(rest[i] == ops[i + 1]);
        }
        law_channel_stays(s.after(ops[0]), channel, rest);
    }
}

/// Once a channel is opened, each message of its number is delivered to its
/// inbox, whether or not it answers a request as well.
pub proof fn law_opened_channel_receives<L, S, R>(
    s: ClientView<L, S, R>,
    id: i32,
    inbox: S,
    ops: Seq<ClientOp<L, S, R>>,
    cmd: CommandView,
)
    requires
        s.wf(),
        s.has_room(),
        s.registering(id, inbox).allows_all(ops),
        forall|i: int| 0 <= i < ops.len() ==> !(#[trigger] ops[i]).opens(id),
        cmd.channel == id,
    ensures
        ({
            let t = s.registering(id, inbox).after_all(ops);
            &&& t.delivery(cmd) matches ReadActionView::Deliver { msg, .. } && msg == cmd
            &&& t.channels[id].inbox == inbox
        }),
{
    law_operation_keeps(s, ClientOp::<L, S, R>::Register { id, inbox });
    law_channel_stays(s.registering(id, inbox), s.next_channel(id), ops);
}

/// A message of a number that no channel has is discarded. It changes nothing
/// but the status, if it reports that the container is up.
pub proof fn law_unknown_channel_is_discarded<L, S, R>(s: ClientView<L, S, R>, cmd: CommandView)
    requires
        !s.channels.contains_key(cmd.channel),
    ensures
        s.delivery(cmd) == ReadActionView::<R>::Discard(cmd),
        s.receiving(cmd) == s.with_status(s.receiving(cmd).status),
        !cmd.boot_complete() ==> s.receiving(cmd) == s,
{
}

/// The request of `channel` under `cmd_ref` waits, with its reply to go to
/// `slot`.
pub open spec fn waits<L, S, R>(
    s: ClientView<L, S, R>,
    channel: Channel,
    cmd_ref: Seq<char>,
    slot: R,
) -> bool {
    &&& s.requests.contains_key(channel.serial)
    &&& s.requests[channel.serial].contains_key(cmd_ref)
    &&& s.requests[channel.serial][cmd_ref] == slot
}

/// Whatever else happens on a client, a request waits until its own reply
/// comes or another request takes its reference.
pub proof fn law_request_waits<L, S, R>(
    s: ClientView<L, S, R>,
    channel: Channel,
    cmd_ref: Seq<char>,
    slot: R,
    ops: Seq<ClientOp<L, S, R>>,
)
    requires
        s.wf(),
        s.allows_all(ops),
        s.is_current(channel),
        waits(s, channel, cmd_ref, slot),
        forall|i: int|
            0 <= i < ops.len() ==> !(#[trigger] ops[i]).opens(channel.id) && !ops[i].concerns(
                channel,
                cmd_ref,
            ),
    ensures
        waits(s.after_all(ops), channel, cmd_ref, slot),
    decreases ops.len(),
{
    if ops.len() > 0 {
        law_operation_keeps(s, ops[0]);
        assert(!ops[0].opens(channel.id) && !ops[0].concerns(channel, cmd_ref));
        let t = s.after(ops[0]);
        assert(waits(t, channel, cmd_ref, slot)) by {
            if let ClientOp::Receive(cmd) = ops[0] {
                if s.routes(cmd) && cmd.channel != channel.id {
                    assert(s.channels[cmd.channel].serial != s.channels[channel.id].serial);
                }
            }
        }
        assert(t.is_current(channel));
        let rest = ops.drop_first();
        assert forall|i: int| 0 <= i < rest.len() implies !(#[trigger] rest[i]).opens(channel.id)
            && !rest[i].concerns(channel, cmd_ref) by {
            assert(rest[i] == ops[i + 1]);
        }
        law_request_waits(t, channel, cmd_ref, slot, rest);
    }
}

/// The reply to a request, however much later it comes, goes to where the
/// request said, and to nobody twice: a second message of the same reference
/// answers nothing.
pub proof fn law_reply_answers_its_request<L, S, R>(
    s: ClientView<L, S, R>,
    channel: Channel,
    cmd_ref: Seq<char>,
    slot: R,
    ops: Seq<ClientOp<L, S, R>>,
    reply: CommandView,
)
    requires
        s.wf(),
        s.is_current(channel),
        cmd_ref.len() > 0,
        s.awaiting(channel.serial, cmd_ref, slot).allows_all(ops),
        forall|i: int|
            0 <= i < ops.len() ==> !(#[trigger] ops[i]).opens(channel.id) && !ops[i].concerns(
                channel,
                cmd_ref,
            ),
        reply.channel == channel.id,
        reply.cmd_ref == cmd_ref,
    ensures
        ({
            let t = s.awaiting(channel.serial, cmd_ref, slot).after_all(ops);
            &&& t.delivery(reply) == (ReadActionView::Deliver {
                reply: Some((slot, reply)),
                msg: reply,
            })
            &&& t.receiving(reply).delivery(reply) == (ReadActionView::<R>::Deliver {
                reply: None,
                msg: reply,
            })
        }),
{
    let a = s.awaiting(channel.serial, cmd_ref, slot);
    law_operation_keeps(s, ClientOp::<L, S, R>::Await { serial: channel.serial, cmd_ref, slot });
    law_channel_stays(a, channel, ops);
    law_request_waits(a, channel, cmd_ref, slot, ops);
    law_operations_keep(a, ops);
}

/// The reply to a request to open a channel goes to where the request said,
/// whatever happens in between, unless the client connects anew.
pub proof fn law_open_is_answered<L, S, R>(
    s: ClientView<L, S, R>,
    cmd_ref: Seq<char>,
    slot: R,
    ops: Seq<ClientOp<L, S, R>>,
    reply: CommandView,
)
    requires
        s.wf(),
        s.link is Some,
        is_generated_ref(cmd_ref),
        s.awaiting(s.channels[0].serial, cmd_ref, slot).allows_all(ops),
        forall|i: int|
            0 <= i < ops.len() ==> !(#[trigger] ops[i]).opens(0) && !ops[i].concerns(
                Channel { id: 0, serial: s.channels[0].serial },
                cmd_ref,
            ),
        reply.channel == 0,
        reply.cmd_ref == cmd_ref,
    ensures
        s.awaiting(s.channels[0].serial, cmd_ref, slot).after_all(ops).delivery(reply) == (
        ReadActionView::Deliver { reply: Some((slot, reply)), msg: reply }),
{
    let channel = Channel { id: 0, serial: s.channels[0].serial };
    law_generated_ref_shape(cmd_ref);
    law_reply_answers_its_request(s, channel, cmd_ref, slot, ops, reply);
}

/// A message takes no request out but the one that it answers.
pub proof fn law_other_requests_stay<L, S, R>(
    s: ClientView<L, S, R>,
    cmd: CommandView,
    serial: u64,
    cmd_ref: Seq<char>,
)
    requires
        s.wf(),
        s.requests.contains_key(serial),
        s.requests[serial].contains_key(cmd_ref),
        !(s.routes(cmd) && s.channels[cmd.channel].serial == serial && cmd.cmd_ref == cmd_ref),
    ensures
        s.receiving(cmd).requests[serial].contains_key(cmd_ref),
        s.receiving(cmd).requests[serial][cmd_ref] == s.requests[serial][cmd_ref],
{
}

/// A message without a reference answers no request.
pub proof fn law_empty_ref_answers_nothing<L, S, R>(s: ClientView<L, S, R>, cmd: CommandView)
    requires
        cmd.cmd_ref.len() == 0,
    ensures
        s.answered(cmd) is None,
        s.receiving(cmd).requests == s.requests,
{
}

/// A channel that was replaced by another of its number gets no replies any
/// more: what waits there waits on, whatever is received.
pub proof fn law_replaced_channel_is_silent<L, S, R>(
    s: ClientView<L, S, R>,
    channel: Channel,
    inbox: S,
    cmd: CommandView,
)
    requires
        s.wf(),
        s.has_room(),
        s.is_current(channel),
    ensures
        ({
            let t = s.registering(channel.id, inbox);
            &&& t.requests[channel.serial] == s.requests[channel.serial]
            &&& t.receiving(cmd).requests[channel.serial] == s.requests[channel.serial]
        }),
{
    let t = s.registering(channel.id, inbox);
    law_operation_keeps(s, ClientOp::<L, S, R>::Register { id: channel.id, inbox });
    if t.routes(cmd) {
        if cmd.channel != channel.id {
            assert(s.channels[cmd.channel].serial != s.channels[channel.id].serial);
        }
    }
}

} // verus!
