//! One channel of a client.

use vstd::prelude::*;

use crate::client::Client;
use crate::error::{CrosisError, ErrorView};
use crate::goval::{Command, CommandView};
use crate::refs::{generate_ref, is_generated_ref};

verus! {

/// A channel, as its holder sees it. Opening a channel whose number is in use
/// makes a new one; the older keeps its own pending requests.
#[derive(Debug, PartialEq, Eq)]
pub struct Channel {
    pub id: i32,
    /// Tells channels apart that share a number.
    pub serial: u64,
}

impl CommandView {
    /// The message, sent on channel `id`.
    pub open spec fn on_channel(self, id: i32) -> CommandView {
        CommandView { channel: id, ..self }
    }

    /// The message, with `cmd_ref` as its reference.
    pub open spec fn with_ref(self, cmd_ref: Seq<char>) -> CommandView {
        CommandView { cmd_ref, ..self }
    }
}

impl Channel {
    /// Turns what came out of the channel's inbox into the next message.
    /// `received` is `None` once the inbox is empty and nothing will follow.
    pub fn next(&mut self, received: Option<Command>) -> (next: Result<Command, CrosisError>)
        ensures
            *final(self) == *old(self),
            received matches Some(msg) ==> next == Ok::<Command, CrosisError>(msg),
            received is None ==> (next matches Err(error) && error@ == ErrorView::GenericError(
                "TODO: write better error"@,
            )),
            received is None ==> (next matches Err(CrosisError::GenericError(text)) && text@
                == "TODO: write better error"@),
    {
        match received {
            Some(msg) => Ok(msg),
            None => Err(CrosisError::GenericError("TODO: write better error".to_string())),
        }
    }

    /// The message to write for `msg`: the same, on this channel.
    pub fn send(&self, msg: Command) -> (written: Command)
        ensures
            written@ == msg@.on_channel(self.id),
            written.channel == self.id,
            written.cmd_ref == msg.cmd_ref,
            written.body == msg.body,
            written.extra == msg.extra,
    {
        let mut msg = msg;
        msg.channel = self.id;
        msg
    }

    /// Registers a request under a fresh reference and returns the message
    /// to write for it. The reply goes to `slot`.
    pub fn request<L, S, R>(
        &self,
        client: &mut Client<L, S, R>,
        msg: Command,
        slot: R,
    ) -> (written: Command)
        requires
            old(client).wf(),
            old(client)@.knows(*self),
        ensures
            final(client).wf(),
            is_generated_ref(written@.cmd_ref),
            written@ == msg@.on_channel(self.id).with_ref(written@.cmd_ref),
            final(client)@ == old(client)@.awaiting(self.serial, written@.cmd_ref, slot),
            written.channel == self.id,
            written.body == msg.body,
            written.extra == msg.extra,
            final(client)@.status == old(client)@.status,
            final(client)@.link == old(client)@.link,
            final(client)@.channels == old(client)@.channels,
            final(client)@.next_serial == old(client)@.next_serial,
            final(client)@.requests.dom() == old(client)@.requests.dom(),
            forall|serial: u64|
                #![trigger final(client)@.requests[serial]]
                serial != self.serial ==> final(client)@.requests[serial] == old(
                    client,
                )@.requests[serial],
            final(client)@.requests[self.serial] == old(client)@.requests[self.serial].insert(
                written.cmd_ref@,
                slot,
            ),
    {
        let cmd_ref = generate_ref();
        self.request_with_ref(client, msg, slot, cmd_ref)
    }

    /// Registers a request under `cmd_ref` and returns the message to write
    /// for it. The reply goes to `slot`.
    pub fn request_with_ref<L, S, R>(
        &self,
        client: &mut Client<L, S, R>,
        msg: Command,
        slot: R,
        cmd_ref: String,
    ) -> (written: Command)
        requires
            old(client).wf(),
            old(client)@.knows(*self),
        ensures
            final(client).wf(),
            written@ == msg@.on_channel(self.id).with_ref(cmd_ref@),
            final(client)@ == old(client)@.awaiting(self.serial, cmd_ref@, slot),
            written.channel == self.id,
            written.cmd_ref@ == cmd_ref@,
            written.body == msg.body,
            written.extra == msg.extra,
            final(client)@.status == old(client)@.status,
            final(client)@.link == old(client)@.link,
            final(client)@.channels == old(client)@.channels,
            final(client)@.next_serial == old(client)@.next_serial,
            final(client)@.requests.dom() == old(client)@.requests.dom(),
            forall|serial: u64|
                #![trigger final(client)@.requests[serial]]
                serial != self.serial ==> final(client)@.requests[serial] == old(
                    client,
                )@.requests[serial],
            final(client)@.requests[self.serial] == old(client)@.requests[self.serial].insert(
                cmd_ref@,
                slot,
            ),
    {
        let mut msg = msg;
        msg.cmd_ref = cmd_ref.clone();
        client.await_reply(self.serial, cmd_ref, slot);
        self.send(msg)
    }
}

} // verus!
