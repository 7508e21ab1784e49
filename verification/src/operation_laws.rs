//! What the operations of a client do, in terms of what goes in and what comes
//! out.

use vstd::prelude::*;

use crate::channel::Channel;
use crate::client::{ClientView, ConnectionStatus};
use crate::connect::{ConnectEvent, ConnectStepView};
use crate::error::ErrorView;
use crate::goval::{Body, Command, CommandView, Stage, State};
use crate::session::{ReadAction, ReadActionView, ReadEvent, WriteAction, WriteActionView};

verus! {

/// A received message is delivered exactly if a channel of its number is open,
/// and is then the message that was received; otherwise it is discarded. It
/// answers a request exactly if that waits on the channel of that number, under
/// the reference of the message, which is not empty; the reply is the message.
pub proof fn law_received_message_is_routed<L, S, R>(s: ClientView<L, S, R>, cmd: Command, slot: R)
    ensures
        ({
            let action = s.read_action(ReadEvent::Received(cmd));
            let serial = s.channels[cmd.channel].serial;
            &&& action is Deliver <==> s.channels.contains_key(cmd.channel)
            &&& action is Discard <==> !s.channels.contains_key(cmd.channel)
            &&& action matches ReadActionView::Discard(msg) ==> msg == cmd@
            &&& action matches ReadActionView::Deliver { reply, msg } ==> {
                &&& msg == cmd@
                &&& reply == Some((slot, cmd@)) <==> cmd.cmd_ref@.len() > 0
                    && s.requests[serial].contains_key(cmd.cmd_ref@)
                    && s.requests[serial][cmd.cmd_ref@] == slot
                &&& reply is None <==> cmd.cmd_ref@.len() == 0 || !s.requests[serial].contains_key(
                    cmd.cmd_ref@,
                )
            }
        }),
{
}

/// The reading side stops without a word only if it was told to, and gives the
/// signal to close exactly if the websocket ended, failed or sent what is not
/// binary. None of that changes the client.
pub proof fn law_reading_side_stops<L, S, R>(s: ClientView<L, S, R>, event: ReadEvent)
    ensures
        s.read_action(event) is Stop <==> event is Aborted,
        s.read_action(event) is AbortAndStop <==> event is Ended || event is Failed
            || event is NotBinary,
        !(event is Received) ==> s.reading(event) == s,
{
}

/// A received message makes the client connected exactly if it is a boot report
/// of the complete stage; of the pending requests it takes out the one that it
/// answers, and nothing else of the client changes.
pub proof fn law_received_message_changes<L, S, R>(s: ClientView<L, S, R>, cmd: Command)
    requires
        s.wf(),
    ensures
        ({
            let t = s.reading(ReadEvent::Received(cmd));
            &&& t.link == s.link
            &&& t.channels == s.channels
            &&& t.next_serial == s.next_serial
            &&& t.requests.dom() =~= s.requests.dom()
            &&& if cmd.body matches Some(Body::BootStatus(boot)) && boot.stage == Stage::Complete {
                t.status == ConnectionStatus::Connected
            } else {
                t.status == s.status
            }
            &&& forall|serial: u64, cmd_ref: Seq<char>|
                s.requests.contains_key(serial) ==> (
                #[trigger] t.requests[serial].contains_key(cmd_ref)
                    <==> s.requests[serial].contains_key(cmd_ref) && !(cmd_ref.len() > 0 && cmd_ref
                    == cmd.cmd_ref@ && s.channels.contains_key(cmd.channel)
                    && s.channels[cmd.channel].serial == serial))
            &&& forall|serial: u64, cmd_ref: Seq<char>|
                s.requests.contains_key(serial) && #[trigger] t.requests[serial].contains_key(
                    cmd_ref,
                ) ==> t.requests[serial][cmd_ref] == s.requests[serial][cmd_ref]
        }),
{
}

/// The same message received twice is delivered twice, and answers no request
/// the second time.
pub proof fn law_message_answers_once<L, S, R>(s: ClientView<L, S, R>, cmd: Command)
    requires
        s.channels.contains_key(cmd.channel),
    ensures
        ({
            let t = s.reading(ReadEvent::Received(cmd));
            t.read_action(ReadEvent::Received(cmd)) matches ReadActionView::Deliver { reply, msg }
                && reply is None && msg == cmd@
        }),
{
}

/// A connection attempt ends well, with the channel that was launched, exactly
/// when the client is connected, and so can open channels; as long as it is
/// connecting, or its session has not begun, the attempt waits. Asking changes
/// nothing.
pub proof fn law_ready_means_connected<L, S, R>(s: ClientView<L, S, R>, channel: Channel)
    ensures
        ({
            let step = s.connect_step(ConnectEvent::Launched(channel));
            &&& step is Ready <==> s.status == ConnectionStatus::Connected
            &&& step is Wait <==> s.status == ConnectionStatus::Connecting || s.status
                == ConnectionStatus::Disconnected
            &&& step is Ready ==> s.can_open() && s.can_send()
            &&& step matches ConnectStepView::Ready(ready) ==> ready == channel
            &&& step matches ConnectStepView::Wait(waiting) ==> waiting == channel
            &&& s.connecting(ConnectEvent::Launched(channel)) == s
        }),
{
}

/// No other event of an attempt ends it well.
pub proof fn law_only_launched_attempts_are_ready<L, S, R>(
    s: ClientView<L, S, R>,
    event: ConnectEvent<L, S>,
)
    requires
        s.connect_step(event) is Ready,
    ensures
        event is Launched,
        s.status == ConnectionStatus::Connected,
{
}

/// A client whose websocket was just opened is not ready, nor once its session
/// has begun; it is as soon as the report comes that the container is up.
pub proof fn law_attempt_waits_for_boot<L, S, R>(
    s: ClientView<L, S, R>,
    link: L,
    inbox: S,
    channel: Channel,
    cmd: Command,
)
    requires
        s.status == ConnectionStatus::Disconnected,
    ensures
        ({
            let dialed = s.connecting(ConnectEvent::Dialed { link, inbox });
            let begun = dialed.with_status(ConnectionStatus::Connecting);
            let received = begun.reading(ReadEvent::Received(cmd));
            &&& dialed.connect_step(ConnectEvent::Launched(channel)) is Wait
            &&& begun.connect_step(ConnectEvent::Launched(channel)) is Wait
            &&& received.connect_step(ConnectEvent::Launched(channel)) is Ready <==> (cmd.body
                matches Some(Body::BootStatus(boot)) && boot.stage == Stage::Complete)
        }),
{
}

/// An open websocket becomes the client's, with a new channel 0 that is handed
/// out: its number is 0, its messages go to the inbox given, and nothing waits
/// on it. The status and the other channels stay.
pub proof fn law_dialed_websocket<L, S, R>(
    s: ClientView<L, S, R>,
    link: L,
    inbox: S,
    other: i32,
)
    requires
        s.wf(),
        s.has_room(),
        other != 0,
    ensures
        ({
            let event = ConnectEvent::Dialed { link, inbox };
            let t = s.connecting(event);
            &&& t.link == Some(link)
            &&& t.status == s.status
            &&& t.channels.contains_key(0)
            &&& t.channels[0].inbox == inbox
            &&& t.channels.contains_key(other) <==> s.channels.contains_key(other)
            &&& t.channels[other] == s.channels[other]
            &&& s.connect_step(event) matches ConnectStepView::Launch(channel) && {
                &&& channel.id == 0
                &&& t.channels[0].serial == channel.serial
                &&& t.requests.contains_key(channel.serial)
                &&& t.requests[channel.serial] == Map::<Seq<char>, R>::empty()
                &&& !s.requests.contains_key(channel.serial)
                &&& forall|serial: u64|
                    serial != channel.serial ==> #[trigger] t.requests[serial]
                        == s.requests[serial]
            }
        }),
{
}

/// An attempt starts with a fetch, and fails with what the dial failed with.
/// Only an open websocket changes the client.
pub proof fn law_other_attempt_events<L, S, R>(
    s: ClientView<L, S, R>,
    event: ConnectEvent<L, S>,
)
    ensures
        s.connect_step(event) is Fetch <==> event is Start,
        s.connect_step(event) is Launch <==> event is Dialed,
        event matches ConnectEvent::DialFailed(cause) ==> s.connect_step(event)
            == ConnectStepView::Fail(ErrorView::ConnectionError(cause)),
        !(event is Dialed) ==> s.connecting(event) == s,
{
}

/// A request to open a channel that was answered with any state but an error,
/// whatever its number, yields a channel of the number in the reply. That is
/// then the current one of its number, its messages go to the inbox given, and
/// nothing waits on it.
pub proof fn law_opened_channel<L, S, R>(
    s: ClientView<L, S, R>,
    reply: Command,
    inbox: S,
    other: i32,
)
    requires
        s.wf(),
        s.has_room(),
        reply.body matches Some(Body::OpenChanRes(res)) && res.state != State::Error && other
            != res.id,
    ensures
        ({
            let t = s.opening(reply@, inbox);
            let id = reply.body->0->OpenChanRes_0.id;
            &&& s.open_result(reply@) matches Ok(channel) && {
                &&& channel.id == id
                &&& t.channels.contains_key(id)
                &&& t.channels[id].serial == channel.serial
                &&& t.channels[id].inbox == inbox
                &&& t.requests.contains_key(channel.serial)
                &&& t.requests[channel.serial] == Map::<Seq<char>, R>::empty()
                &&& !s.requests.contains_key(channel.serial)
                &&& forall|serial: u64|
                    serial != channel.serial ==> #[trigger] t.requests[serial]
                        == s.requests[serial]
            }
            &&& t.channels.contains_key(other) <==> s.channels.contains_key(other)
            &&& t.channels[other] == s.channels[other]
            &&& t.status == s.status
            &&& t.link == s.link
        }),
{
}

/// A request to open a channel yields an error exactly if the state of the
/// reply is one, with the text that the reply gives, or if the reply is of
/// another kind, with the reply. Then nothing changes.
pub proof fn law_refused_open<L, S, R>(s: ClientView<L, S, R>, reply: Command, inbox: S)
    ensures
        s.open_result(reply@) is Ok <==> (reply.body matches Some(Body::OpenChanRes(res))
            && res.state != State::Error),
        s.open_result(reply@) is Err ==> s.opening(reply@, inbox) == s,
        (reply.body matches Some(Body::OpenChanRes(res)) && res.state == State::Error) ==> (
        s.open_result(reply@) matches Err(ErrorView::GenericError(text)) && text
            == reply.body->0->OpenChanRes_0.error@),
        !(reply.body matches Some(Body::OpenChanRes(_))) ==> s.open_result(reply@) == Err::<
            Channel,
            ErrorView,
        >(ErrorView::UnexpectedReply(reply@)),
{
}

/// A message for a channel that was just opened is delivered, to the inbox that
/// it was opened with.
pub proof fn law_opened_channel_is_read<L, S, R>(
    s: ClientView<L, S, R>,
    reply: Command,
    inbox: S,
    cmd: Command,
)
    requires
        s.wf(),
        s.has_room(),
        reply.body matches Some(Body::OpenChanRes(res)) && res.state != State::Error && res.id
            == cmd.channel,
    ensures
        ({
            let t = s.opening(reply@, inbox);
            &&& t.read_action(ReadEvent::Received(cmd)) matches ReadActionView::Deliver {
                reply: answered,
                msg,
            } && msg == cmd@ && answered is None
            &&& t.channels[cmd.channel].inbox == inbox
        }),
{
}

/// A reply on the channel of a request, under the reference in the message that
/// was written for it, goes to where the request said.
pub proof fn law_request_gets_its_reply<L, S, R>(
    s: ClientView<L, S, R>,
    channel: Channel,
    msg: CommandView,
    cmd_ref: Seq<char>,
    slot: R,
    reply: Command,
)
    requires
        s.channels.contains_key(channel.id),
        s.channels[channel.id].serial == channel.serial,
        cmd_ref.len() > 0,
        ({
            let written = msg.on_channel(channel.id).with_ref(cmd_ref);
            reply.channel == written.channel && reply.cmd_ref@ == written.cmd_ref
        }),
    ensures
        s.awaiting(channel.serial, cmd_ref, slot).read_action(ReadEvent::Received(reply)) == (
        ReadActionView::Deliver { reply: Some((slot, reply@)), msg: reply@ }),
        reply.channel == channel.id,
        reply.cmd_ref@ == cmd_ref,
{
}

/// Making a request lets it wait under its reference, on its channel, and
/// changes nothing else.
pub proof fn law_request_is_made<L, S, R>(
    s: ClientView<L, S, R>,
    serial: u64,
    cmd_ref: Seq<char>,
    slot: R,
    other_serial: u64,
    other_ref: Seq<char>,
)
    requires
        s.requests.contains_key(serial),
        other_serial != serial || other_ref != cmd_ref,
    ensures
        ({
            let t = s.awaiting(serial, cmd_ref, slot);
            &&& t.status == s.status
            &&& t.link == s.link
            &&& t.channels == s.channels
            &&& t.next_serial == s.next_serial
            &&& t.requests.dom() =~= s.requests.dom()
            &&& t.requests[serial].contains_key(cmd_ref)
            &&& t.requests[serial][cmd_ref] == slot
            &&& t.requests[other_serial].contains_key(other_ref)
                <==> s.requests[other_serial].contains_key(other_ref)
            &&& t.requests[other_serial].contains_key(other_ref)
                ==> t.requests[other_serial][other_ref] == s.requests[other_serial][other_ref]
        }),
{
}

/// A new client is disconnected, has no link, no channel and no request, and
/// has room.
pub proof fn law_new_client<L, S, R>(id: i32, serial: u64)
    ensures
        ({
            let s = ClientView::<L, S, R>::initial();
            &&& s.status == ConnectionStatus::Disconnected
            &&& s.link is None
            &&& !s.channels.contains_key(id)
            &&& !s.requests.contains_key(serial)
            &&& s.has_room()
            &&& s.wf()
        }),
{
}

/// Setting the status changes nothing else.
pub proof fn law_status_is_set<L, S, R>(s: ClientView<L, S, R>, status: ConnectionStatus)
    ensures
        s.with_status(status).status == status,
        s.with_status(status).link == s.link,
        s.with_status(status).channels == s.channels,
        s.with_status(status).requests == s.requests,
        s.with_status(status).next_serial == s.next_serial,
{
}

/// The content of an action of the reading side is that of what it holds.
pub proof fn law_read_action_content<R>(action: ReadAction<R>)
    ensures
        match action {
            ReadAction::Stop => action@ is Stop,
            ReadAction::AbortAndStop => action@ is AbortAndStop,
            ReadAction::Deliver { reply, msg } => action@ matches ReadActionView::Deliver {
                reply: content,
                msg: delivered,
            } && {
                &&& delivered == msg@
                &&& reply is Some <==> content is Some
                &&& reply matches Some((slot, copy)) ==> content == Some((slot, copy@))
            },
            ReadAction::Discard(msg) => action@ == ReadActionView::<R>::Discard(msg@),
        },
{
}

/// The content of an action of the writing side is that of what it holds.
pub proof fn law_write_action_content(action: WriteAction)
    ensures
        match action {
            WriteAction::Stop => action@ is Stop,
            WriteAction::AbortAndStop => action@ is AbortAndStop,
            WriteAction::Write(bytes) => action@ == WriteActionView::Write(bytes@),
            WriteAction::Wait => action@ is Wait,
        },
{
}

} // verus!
