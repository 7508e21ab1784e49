//! The goval messages, with the fields that the client reads or fills.
//!
//! What the client does not look into is kept in encoded form (`extra`,
//! [`Body::Other`]), so that no message loses anything on its way through.

use vstd::prelude::*;

verus! {

/// What to do when a channel of the requested name is already open.
#[derive(Clone, Copy, Debug, PartialEq, Eq, Structural)]
pub enum Action {
    /// Attach to the channel of that name, or create it.
    AttachOrCreate,
    /// Any other action, by its number in the protocol.
    Numbered(i32),
}

/// The outcome of opening a channel.
#[derive(Clone, Copy, Debug, PartialEq, Eq, Structural)]
pub enum State {
    /// The channel was not opened.
    Error,
    /// Any other state, by its number in the protocol.
    Numbered(i32),
}

/// How far the container has booted.
#[derive(Clone, Copy, Debug, PartialEq, Eq, Structural)]
pub enum Stage {
    /// The container is up.
    Complete,
    /// Any other stage, by its number in the protocol.
    Numbered(i32),
}

/// A request to open a channel to a service.
#[derive(Debug, PartialEq, Eq)]
pub struct OpenChannel {
    pub service: String,
    pub name: String,
    pub action: Action,
    /// The remaining fields, encoded; empty if all have their default.
    pub extra: Vec<u8>,
}

/// The reply to an [`OpenChannel`].
#[derive(Debug, PartialEq, Eq)]
pub struct OpenChannelRes {
    pub id: i32,
    pub state: State,
    pub error: String,
    /// The remaining fields, encoded; empty if all have their default.
    pub extra: Vec<u8>,
}

/// A report on the boot of the container.
#[derive(Debug, PartialEq, Eq)]
pub struct BootStatus {
    pub stage: Stage,
    /// The remaining fields, encoded; empty if all have their default.
    pub extra: Vec<u8>,
}

/// What a [`Command`] says.
#[derive(Debug, PartialEq, Eq)]
pub enum Body {
    OpenChan(OpenChannel),
    OpenChanRes(OpenChannelRes),
    BootStatus(BootStatus),
    Ping,
    /// A body that the client passes on without reading it, encoded.
    Other(Vec<u8>),
}

/// One message, in either direction.
#[derive(Debug, PartialEq, Eq)]
pub struct Command {
    /// The channel that the message belongs to.
    pub channel: i32,
    /// Ties a reply to its request; empty if there is none.
    pub cmd_ref: String,
    pub body: Option<Body>,
    /// The remaining fields, encoded; empty if all have their default.
    pub extra: Vec<u8>,
}

/// The mathematical content of a [`Body`].
#[verifier::ext_equal]
pub enum BodyView {
    OpenChan { service: Seq<char>, name: Seq<char>, action: Action, extra: Seq<u8> },
    OpenChanRes { id: i32, state: State, error: Seq<char>, extra: Seq<u8> },
    BootStatus { stage: Stage, extra: Seq<u8> },
    Ping,
    Other { encoded: Seq<u8> },
}

/// The mathematical content of a [`Command`].
#[verifier::ext_equal]
pub struct CommandView {
    pub channel: i32,
    pub cmd_ref: Seq<char>,
    pub body: Option<BodyView>,
    pub extra: Seq<u8>,
}

impl View for Body {
    type V = BodyView;

    open spec fn view(&self) -> BodyView {
        match *self {
            Body::OpenChan(b) => BodyView::OpenChan {
                service: b.service@,
                name: b.name@,
                action: b.action,
                extra: b.extra@,
            },
            Body::OpenChanRes(b) => BodyView::OpenChanRes {
                id: b.id,
                state: b.state,
                error: b.error@,
                extra: b.extra@,
            },
            Body::BootStatus(b) => BodyView::BootStatus { stage: b.stage, extra: b.extra@ },
            Body::Ping => BodyView::Ping,
            Body::Other(encoded) => BodyView::Other { encoded: encoded@ },
        }
    }
}

impl View for Command {
    type V = CommandView;

    open spec fn view(&self) -> CommandView {
        CommandView {
            channel: self.channel,
            cmd_ref: self.cmd_ref@,
            body: match self.body {
                Some(body) => Some(body@),
                None => None,
            },
            extra: self.extra@,
        }
    }
}

impl CommandView {
    /// The message reports that the container is up.
    pub open spec fn boot_complete(self) -> bool {
        self.body matches Some(BodyView::BootStatus { stage: Stage::Complete, .. })
    }
}

impl Clone for Body {
    fn clone(&self) -> (copy: Self)
        ensures
            copy@ == self@,
            match (*self, copy) {
                (Body::OpenChan(a), Body::OpenChan(b)) => {
                    &&& a.service@ == b.service@
                    &&& a.name@ == b.name@
                    &&& a.action == b.action
                    &&& a.extra@ == b.extra@
                },
                (Body::OpenChanRes(a), Body::OpenChanRes(b)) => {
                    &&& a.id == b.id
                    &&& a.state == b.state
                    &&& a.error@ == b.error@
                    &&& a.extra@ == b.extra@
                },
                (Body::BootStatus(a), Body::BootStatus(b)) => {
                    &&& a.stage == b.stage
                    &&& a.extra@ == b.extra@
                },
                (Body::Ping, Body::Ping) => true,
                (Body::Other(a), Body::Other(b)) => a@ == b@,
                _ => false,
            },
    {
        match self {
            Body::OpenChan(b) => Body::OpenChan(
                OpenChannel {
                    service: b.service.clone(),
                    name: b.name.clone(),
                    action: b.action,
                    extra: b.extra.clone(),
                },
            ),
            Body::OpenChanRes(b) => Body::OpenChanRes(
                OpenChannelRes {
                    id: b.id,
                    state: b.state,
                    error: b.error.clone(),
                    extra: b.extra.clone(),
                },
            ),
            Body::BootStatus(b) => Body::BootStatus(
                BootStatus { stage: b.stage, extra: b.extra.clone() },
            ),
            Body::Ping => Body::Ping,
            Body::Other(encoded) => Body::Other(encoded.clone()),
        }
    }
}

impl Clone for Command {
    fn clone(&self) -> (copy: Self)
        ensures
            copy@ == self@,
            copy.channel == self.channel,
            copy.cmd_ref@ == self.cmd_ref@,
            copy.extra@ == self.extra@,
            match (self.body, copy.body) {
                (Some(a), Some(b)) => a@ == b@,
                (None, None) => true,
                _ => false,
            },
    {
        Command {
            channel: self.channel,
            cmd_ref: self.cmd_ref.clone(),
            body: match &self.body {
                Some(body) => Some(body.clone()),
                None => None,
            },
            extra: self.extra.clone(),
        }
    }
}

impl Command {
    /// Whether the message reports that the container is up.
    pub fn is_boot_complete(&self) -> (complete: bool)
        ensures
            complete == self@.boot_complete(),
            complete <==> (self.body matches Some(Body::BootStatus(status)) && status.stage
                == Stage::Complete),
    {
        match &self.body {
            Some(Body::BootStatus(status)) => match status.stage {
                Stage::Complete => true,
                _ => false,
            },
            _ => false,
        }
    }
}

} // verus!
