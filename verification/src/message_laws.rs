//! What holds of messages and errors: nothing of them is lost, and what is
//! sent is what was given.

use vstd::prelude::*;

use crate::client::{name_view, open_command};
use crate::error::{error_text, CrosisError, ErrorView};
use crate::goval::{Action, Body, BodyView, Command, CommandView, Stage};
use crate::session::{ping_command, write_action, WriteActionView, WriteEvent};

verus! {

/// The content of a message is that of its fields.
pub proof fn law_command_content(cmd: Command)
    ensures
        cmd@.channel == cmd.channel,
        cmd@.cmd_ref == cmd.cmd_ref@,
        cmd@.extra == cmd.extra@,
        cmd@.body is Some <==> cmd.body is Some,
        cmd.body matches Some(body) ==> cmd@.body == Some(body@),
{
}

/// The content of a body is that of its fields.
pub proof fn law_body_content(body: Body)
    ensures
        body is OpenChan <==> body@ is OpenChan,
        body is OpenChanRes <==> body@ is OpenChanRes,
        body is BootStatus <==> body@ is BootStatus,
        body is Ping <==> body@ is Ping,
        body is Other <==> body@ is Other,
        body matches Body::OpenChan(open) ==> (body@ matches BodyView::OpenChan {
            service,
            name,
            action,
            extra,
        } && service == open.service@ && name == open.name@ && action == open.action && extra
            == open.extra@),
        body matches Body::OpenChanRes(res) ==> (body@ matches BodyView::OpenChanRes {
            id,
            state,
            error,
            extra,
        } && id == res.id && state == res.state && error == res.error@ && extra == res.extra@),
        body matches Body::BootStatus(boot) ==> (body@ matches BodyView::BootStatus { stage, extra }
            && stage == boot.stage && extra == boot.extra@),
        body matches Body::Other(bytes) ==> (body@ matches BodyView::Other { encoded } && encoded
            == bytes@),
{
}

/// Two bodies of the same content have the same fields.
pub proof fn law_body_loses_nothing(a: Body, b: Body)
    requires
        a@ == b@,
    ensures
        match (a, b) {
            (Body::OpenChan(x), Body::OpenChan(y)) => {
                &&& x.service@ == y.service@
                &&& x.name@ == y.name@
                &&& x.action == y.action
                &&& x.extra@ == y.extra@
            },
            (Body::OpenChanRes(x), Body::OpenChanRes(y)) => {
                &&& x.id == y.id
                &&& x.state == y.state
                &&& x.error@ == y.error@
                &&& x.extra@ == y.extra@
            },
            (Body::BootStatus(x), Body::BootStatus(y)) => {
                &&& x.stage == y.stage
                &&& x.extra@ == y.extra@
            },
            (Body::Ping, Body::Ping) => true,
            (Body::Other(x), Body::Other(y)) => x@ == y@,
            _ => false,
        },
{
}

/// Two messages of the same content have the same fields.
pub proof fn law_command_loses_nothing(a: Command, b: Command)
    requires
        a@ == b@,
    ensures
        a.channel == b.channel,
        a.cmd_ref@ == b.cmd_ref@,
        a.extra@ == b.extra@,
        a.body is Some <==> b.body is Some,
        a.body is Some ==> a.body->0@ == b.body->0@,
{
}

/// A message reports that the container is up exactly if its body is a boot
/// report of the complete stage, whatever else it holds.
pub proof fn law_boot_report(cmd: Command)
    ensures
        cmd@.boot_complete() <==> (cmd.body matches Some(Body::BootStatus(boot)) && boot.stage
            == Stage::Complete),
{
}

/// Whether a message reports that the container is up rests on its body alone.
pub proof fn law_boot_report_rests_on_body(a: CommandView, b: CommandView)
    requires
        a.body == b.body,
    ensures
        a.boot_complete() == b.boot_complete(),
{
}

/// A message that is sent on a channel says what it said, on that channel.
pub proof fn law_sent_message(msg: CommandView, id: i32)
    ensures
        msg.on_channel(id).channel == id,
        msg.on_channel(id).cmd_ref == msg.cmd_ref,
        msg.on_channel(id).body == msg.body,
        msg.on_channel(id).extra == msg.extra,
{
}

/// The message of a request says what it said, on the channel of the request
/// and under its reference.
pub proof fn law_request_message(msg: CommandView, id: i32, cmd_ref: Seq<char>)
    ensures
        msg.on_channel(id).with_ref(cmd_ref).channel == id,
        msg.on_channel(id).with_ref(cmd_ref).cmd_ref == cmd_ref,
        msg.on_channel(id).with_ref(cmd_ref).body == msg.body,
        msg.on_channel(id).with_ref(cmd_ref).extra == msg.extra,
        msg.with_ref(cmd_ref).channel == msg.channel,
        msg.with_ref(cmd_ref).body == msg.body,
        msg.with_ref(cmd_ref).extra == msg.extra,
        msg.on_channel(id).with_ref(cmd_ref) == msg.with_ref(cmd_ref).on_channel(id),
{
}

/// Requests that say different things are different messages, whatever their
/// references and channels.
pub proof fn law_request_messages_differ(
    a: CommandView,
    b: CommandView,
    id: i32,
    other_id: i32,
    cmd_ref: Seq<char>,
    other_ref: Seq<char>,
)
    requires
        a.body != b.body || a.extra != b.extra || id != other_id || cmd_ref != other_ref,
    ensures
        a.on_channel(id).with_ref(cmd_ref) != b.on_channel(other_id).with_ref(other_ref),
{
}

/// The message that asks for a channel goes out on channel 0, under the
/// reference given, and asks for what was asked for: without a name for the
/// empty one, without an action to attach or create.
pub proof fn law_open_message(
    cmd_ref: Seq<char>,
    service: Seq<char>,
    name: Option<String>,
    action: Option<Action>,
)
    ensures
        ({
            let msg = open_command(cmd_ref, service, name_view(name), action);
            &&& msg.channel == 0
            &&& msg.cmd_ref == cmd_ref
            &&& msg.extra.len() == 0
            &&& !msg.boot_complete()
            &&& msg.body matches Some(
                BodyView::OpenChan { service: asked, name: asked_name, action: asked_action, extra },
            ) && {
                &&& asked == service
                &&& name matches Some(name) ==> asked_name == name@
                &&& name is None ==> asked_name.len() == 0
                &&& action matches Some(action) ==> asked_action == action
                &&& action is None ==> asked_action == Action::AttachOrCreate
                &&& extra.len() == 0
            }
        }),
{
}

/// A ping is a bare message on channel 0 that expects no reply.
pub proof fn law_ping_message()
    ensures
        ping_command().channel == 0,
        ping_command().cmd_ref.len() == 0,
        ping_command().extra.len() == 0,
        ping_command().body == Some(BodyView::Ping),
{
}

/// The writing side writes exactly what was queued, byte for byte, and the ping
/// when nothing was; it stops without a word only if it was told to, gives the
/// signal to close exactly if the queue or the websocket failed it, and
/// otherwise goes on.
pub proof fn law_writing_side(event: WriteEvent, ping: Seq<u8>)
    ensures
        write_action(event, ping) is Stop <==> event is Aborted,
        write_action(event, ping) is AbortAndStop <==> event is QueueClosed || event is WriteFailed,
        write_action(event, ping) is Wait <==> event is Written,
        write_action(event, ping) is Write <==> event is Queued || event is Idle,
        event matches WriteEvent::Queued(encoded) ==> (write_action(event, ping)
            matches WriteActionView::Write(bytes) && bytes == encoded@),
        event is Idle ==> (write_action(event, ping) matches WriteActionView::Write(bytes) && bytes
            == ping),
{
}

/// The content of an error is that of what it carries.
pub proof fn law_error_content(error: CrosisError)
    ensures
        match error {
            CrosisError::ConnectionMetadataFetchError => error@
                == ErrorView::ConnectionMetadataFetchError,
            CrosisError::ConnectionMetadataParseError(text) => error@
                == ErrorView::ConnectionMetadataParseError(text@),
            CrosisError::ConnectionError(cause) => error@ == ErrorView::ConnectionError(cause),
            CrosisError::Disconnected(attempt) => error@ == ErrorView::Disconnected(attempt@),
            CrosisError::UnexpectedReply(reply) => error@ == ErrorView::UnexpectedReply(reply@),
            CrosisError::GenericError(text) => error@ == ErrorView::GenericError(text@),
        },
{
}

/// The text of an error says what kind of error it is, and then what the error
/// carries or how that is rendered. Nothing else decides it.
pub proof fn law_error_text_tells(error: CrosisError, detail: Seq<char>)
    ensures
        match error {
            CrosisError::ConnectionMetadataFetchError => error_text(error@, detail)
                == "Failed to fetch connection metadata"@,
            CrosisError::ConnectionMetadataParseError(text) => error_text(error@, detail)
                == "Failed to parse connection metadata: "@ + text@,
            CrosisError::ConnectionError(_) => error_text(error@, detail)
                == "Failed to connect to websocket: "@ + detail,
            CrosisError::Disconnected(attempt) => error_text(error@, detail)
                == "Client isn't connected, cannot "@ + attempt@,
            CrosisError::UnexpectedReply(_) => error_text(error@, detail)
                == "Client got unexpected reply "@ + detail,
            CrosisError::GenericError(text) => error_text(error@, detail)
                == "Client got error message "@ + text@,
        },
{
}

/// Errors of one kind that carry different texts have different texts.
pub proof fn law_error_texts_differ(text: Seq<char>, other: Seq<char>, detail: Seq<char>)
    requires
        text != other,
    ensures
        error_text(ErrorView::ConnectionMetadataParseError(text), detail) != error_text(
            ErrorView::ConnectionMetadataParseError(other),
            detail,
        ),
        error_text(ErrorView::Disconnected(text), detail) != error_text(
            ErrorView::Disconnected(other),
            detail,
        ),
        error_text(ErrorView::GenericError(text), detail) != error_text(
            ErrorView::GenericError(other),
            detail,
        ),
{
    lemma_same_front("Failed to parse connection metadata: "@, text, other);
    lemma_same_front("Client isn't connected, cannot "@, text, other);
    lemma_same_front("Client got error message "@, text, other);
}

proof fn lemma_same_front(front: Seq<char>, a: Seq<char>, b: Seq<char>)
    requires
        a != b,
    ensures
        front + a != front + b,
{
    assert(a =~= (front + a).skip(front.len() as int));
    assert(b =~= (front + b).skip(front.len() as int));
}

} // verus!
