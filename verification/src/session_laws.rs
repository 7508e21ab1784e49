//! What holds of a client and its session taken together.

use vstd::prelude::*;

use crate::client::{ClientView, ConnectionStatus};
use crate::session::{write_action, ReadEvent, WriteEvent};

verus! {

/// How far a session has come.
pub enum Phase {
    /// There is none.
    Idle,
    /// Its websocket is open.
    Dialed,
    /// It reads and writes.
    Running,
    /// Both sides have stopped, and the client counts as disconnected.
    Ending,
}

/// A client and the session of the websocket that it opened last. Neither side
/// of the session panics.
#[verifier::reject_recursive_types(S)]
#[verifier::reject_recursive_types(R)]
pub struct ClientSession<L, S, R> {
    pub client: ClientView<L, S, R>,
    pub phase: Phase,
    /// The signal to close was given.
    pub aborted: bool,
    /// The reading side has not stopped.
    pub reads: bool,
    /// The writing side has not stopped.
    pub writes: bool,
    /// The writing side is writing a message.
    pub busy: bool,
    /// Messages can be queued for the websocket.
    pub queue_open: bool,
}

/// What may happen to a client and its session.
#[verifier::reject_recursive_types(R)]
pub enum SessionEvent<L, S, R> {
    /// A websocket was opened.
    Dial { link: L, inbox: S },
    /// The session began.
    Begin,
    /// The reading side took this event.
    Read(ReadEvent),
    /// The writing side took this event.
    Write { event: WriteEvent, ping: Seq<u8> },
    /// The holder of the client closed it.
    Close,
    /// Both sides have stopped.
    End,
    /// The queue was closed, as the last thing.
    CloseQueue,
    /// A channel was opened.
    Register { id: i32, inbox: S },
    /// A request was made.
    Await { serial: u64, cmd_ref: Seq<char>, slot: R },
}

impl<L, S, R> SessionEvent<L, S, R> {
    /// The session takes a step, as opposed to the holder of the client.
    pub open spec fn is_step(self) -> bool {
        self is Read || self is Write || self is End || self is CloseQueue
    }
}

impl<L, S, R> ClientSession<L, S, R> {
    /// `event` can happen. A side that waits hears of the signal to close
    /// before anything else, and only if it was given; a side that writes a
    /// message waits no earlier than that is done. A websocket is opened only
    /// when no session is left that could still change the client.
    pub open spec fn can(self, event: SessionEvent<L, S, R>) -> bool {
        match event {
            SessionEvent::Dial { .. } => {
                &&& self.phase is Idle || self.phase is Ending
                &&& self.client.has_room()
            },
            SessionEvent::Begin => self.phase is Dialed,
            SessionEvent::Read(event) => {
                &&& self.phase is Running
                &&& self.reads
                &&& self.aborted <==> event is Aborted
            },
            SessionEvent::Write { event, .. } => {
                &&& self.phase is Running
                &&& self.writes
                &&& self.busy <==> (event is Written || event is WriteFailed)
                &&& !self.busy ==> (self.aborted <==> event is Aborted)
            },
            SessionEvent::Close => self.client.can_send(),
            SessionEvent::End => self.phase is Running && !self.reads && !self.writes,
            SessionEvent::CloseQueue => self.phase is Ending,
            SessionEvent::Register { .. } => self.client.has_room(),
            SessionEvent::Await { serial, .. } => self.client.requests.contains_key(serial),
        }
    }

    /// What `event` makes of the client and its session.
    pub open spec fn after(self, event: SessionEvent<L, S, R>) -> Self {
        match event {
            SessionEvent::Dial { link, inbox } => ClientSession {
                client: self.client.with_link(link).registering(0, inbox),
                phase: Phase::Dialed,
                aborted: false,
                queue_open: true,
                ..self
            },
            SessionEvent::Begin => ClientSession {
                client: self.client.with_status(ConnectionStatus::Connecting),
                phase: Phase::Running,
                reads: true,
                writes: true,
                busy: false,
                ..self
            },
            SessionEvent::Read(event) => {
                let action = self.client.read_action(event);
                ClientSession {
                    client: self.client.reading(event),
                    aborted: self.aborted || action is AbortAndStop,
                    reads: !(action is Stop || action is AbortAndStop),
                    ..self
                }
            },
            SessionEvent::Write { event, ping } => {
                let action = write_action(event, ping);
                ClientSession {
                    aborted: self.aborted || action is AbortAndStop,
                    writes: !(action is Stop || action is AbortAndStop),
                    busy: action is Write,
                    ..self
                }
            },
            SessionEvent::Close => ClientSession { aborted: true, ..self },
            SessionEvent::End => ClientSession {
                client: self.client.with_status(ConnectionStatus::Disconnected),
                phase: Phase::Ending,
                ..self
            },
            SessionEvent::CloseQueue => ClientSession {
                phase: Phase::Idle,
                queue_open: false,
                ..self
            },
            SessionEvent::Register { id, inbox } => ClientSession {
                client: self.client.registering(id, inbox),
                ..self
            },
            SessionEvent::Await { serial, cmd_ref, slot } => ClientSession {
                client: self.client.awaiting(serial, cmd_ref, slot),
                ..self
            },
        }
    }

    /// The events can happen one after the other.
    pub open spec fn can_all(self, events: Seq<SessionEvent<L, S, R>>) -> bool
        decreases events.len(),
    {
        events.len() == 0 || (self.can(events[0]) && self.after(events[0]).can_all(
            events.drop_first(),
        ))
    }

    /// What all the events make of the client and its session.
    pub open spec fn after_all(self, events: Seq<SessionEvent<L, S, R>>) -> Self
        decreases events.len(),
    {
        if events.len() == 0 {
            self
        } else {
            self.after(events[0]).after_all(events.drop_first())
        }
    }

    /// What is kept. Messages can be queued whenever the client is not
    /// disconnected; and if one side of a session has stopped, the signal
    /// that stops the other was given.
    pub open spec fn wf(self) -> bool {
        &&& self.client.wf()
        &&& self.client.status != ConnectionStatus::Disconnected ==> self.phase is Running
            && self.queue_open
        &&& !(self.phase is Idle) ==> self.queue_open && self.client.link is Some
        &&& self.phase is Running && !(self.reads && self.writes) ==> self.aborted
    }

    /// A client that was never connected.
    pub open spec fn initial() -> Self {
        ClientSession {
            client: ClientView::initial(),
            phase: Phase::Idle,
            aborted: false,
            reads: false,
            writes: false,
            busy: false,
            queue_open: false,
        }
    }

    /// The session was told to end, or has ended, and no other was begun.
    pub open spec fn winds_down(self) -> bool {
        self.phase is Idle || self.phase is Ending || (self.phase is Running && self.aborted)
    }

    /// The most steps that a session which was told to end takes until its
    /// client is disconnected: the reading side takes one, the writing side
    /// one or, if it is writing a message, two; then both have stopped.
    pub open spec fn steps_to_end(self) -> nat {
        if self.phase is Running {
            let read_steps: nat = if self.reads {
                1
            } else {
                0
            };
            let write_steps: nat = if !self.writes {
                0
            } else if self.busy {
                2
            } else {
                1
            };
            read_steps + write_steps + 1
        } else {
            0
        }
    }

    /// A step that a session which was told to end can take.
    pub open spec fn due_step(self, ping: Seq<u8>) -> SessionEvent<L, S, R> {
        if self.reads {
            SessionEvent::Read(ReadEvent::Aborted)
        } else if self.writes && self.busy {
            SessionEvent::Write { event: WriteEvent::Written, ping }
        } else if self.writes {
            SessionEvent::Write { event: WriteEvent::Aborted, ping }
        } else {
            SessionEvent::End
        }
    }
}

/// How many of the events are steps of the session.
pub open spec fn steps<L, S, R>(events: Seq<SessionEvent<L, S, R>>) -> nat
    decreases events.len(),
{
    if events.len() == 0 {
        0
    } else if events[0].is_step() {
        steps(events.drop_first()) + 1
    } else {
        steps(events.drop_first())
    }
}

/// No websocket is opened.
pub open spec fn no_dial<L, S, R>(events: Seq<SessionEvent<L, S, R>>) -> bool {
    forall|i: int| 0 <= i < events.len() ==> !(#[trigger] events[i] is Dial)
}

/// Whatever happens, messages can be queued as long as the client is not
/// disconnected, and no side of a session stops without the other being told.
pub proof fn law_session_keeps<L, S, R>(s: ClientSession<L, S, R>, event: SessionEvent<L, S, R>)
    requires
        s.wf(),
        s.can(event),
    ensures
        s.after(event).wf(),
{
    match event {
        SessionEvent::Dial { link, inbox } => {
            assert(s.client.with_link(link).registering(0, inbox).wf());
        },
        SessionEvent::Read(ReadEvent::Received(cmd)) => {
            assert(s.client.receiving(cmd@).wf());
        },
        SessionEvent::Register { id, inbox } => {
            assert(s.client.registering(id, inbox).wf());
        },
        SessionEvent::Await { serial, cmd_ref, slot } => {
            assert(s.client.awaiting(serial, cmd_ref, slot).wf());
        },
        _ => {},
    }
}

/// [`law_session_keeps`], for any number of events from the moment a client is
/// made.
pub proof fn law_reachable_sessions_are_wf<L, S, R>(events: Seq<SessionEvent<L, S, R>>)
    requires
        ClientSession::<L, S, R>::initial().can_all(events),
    ensures
        ClientSession::<L, S, R>::initial().after_all(events).wf(),
{
    lemma_sessions_keep(ClientSession::<L, S, R>::initial(), events);
}

proof fn lemma_sessions_keep<L, S, R>(
    s: ClientSession<L, S, R>,
    events: Seq<SessionEvent<L, S, R>>,
)
    requires
        s.wf(),
        s.can_all(events),
    ensures
        s.after_all(events).wf(),
    decreases events.len(),
{
    if events.len() > 0 {
        law_session_keeps(s, events[0]);
        lemma_sessions_keep(s.after(events[0]), events.drop_first());
    }
}

/// Once the signal to close was given, a side that waits takes no other event,
/// and stops; a side that is writing a message first finishes that.
pub proof fn law_signal_goes_first<L, S, R>(
    s: ClientSession<L, S, R>,
    read: ReadEvent,
    write: WriteEvent,
    ping: Seq<u8>,
)
    requires
        s.aborted,
    ensures
        s.can(SessionEvent::Read(read)) ==> read is Aborted && !s.after(
            SessionEvent::Read(read),
        ).reads,
        s.can(SessionEvent::Write { event: write, ping }) && !s.busy ==> write is Aborted
            && !s.after(SessionEvent::Write { event: write, ping }).writes,
        s.can(SessionEvent::Write { event: write, ping }) && s.busy ==> !s.after(
            SessionEvent::Write { event: write, ping },
        ).busy,
{
}

/// Once one side of a session has stopped, the other stops as soon as it takes
/// its next event, or, if it is writing a message, the one after that. Then the
/// session can end.
pub proof fn law_sides_stop_together<L, S, R>(
    s: ClientSession<L, S, R>,
    read: ReadEvent,
    write: WriteEvent,
    ping: Seq<u8>,
)
    requires
        s.wf(),
        s.phase is Running,
    ensures
        !s.writes && s.reads ==> s.can(SessionEvent::Read(ReadEvent::Aborted)),
        !s.writes && s.can(SessionEvent::Read(read)) ==> s.after(SessionEvent::Read(read)).can(
            SessionEvent::End,
        ),
        !s.reads && s.writes && !s.busy ==> s.can(
            SessionEvent::Write { event: WriteEvent::Aborted, ping },
        ),
        !s.reads && s.can(SessionEvent::Write { event: write, ping }) ==> ({
            let t = s.after(SessionEvent::Write { event: write, ping });
            t.can(SessionEvent::End) || (s.busy && t.writes && !t.busy)
        }),
{
}

/// A session that was told to end, and whose client is not disconnected yet,
/// can take a step; and each step that it takes brings it nearer to its end.
/// What the holder of the client does meanwhile makes no difference to that.
pub proof fn law_session_winds_down<L, S, R>(
    s: ClientSession<L, S, R>,
    event: SessionEvent<L, S, R>,
    ping: Seq<u8>,
)
    requires
        s.wf(),
        s.winds_down(),
        s.can(event),
        !(event is Dial),
    ensures
        s.client.can_send() ==> s.can(s.due_step(ping)) && s.due_step(ping).is_step(),
        s.after(event).winds_down(),
        s.client.can_send() && event.is_step() ==> s.after(event).steps_to_end()
            < s.steps_to_end(),
        !event.is_step() ==> s.after(event).steps_to_end() == s.steps_to_end(),
{
}

proof fn lemma_wind_down<L, S, R>(s: ClientSession<L, S, R>, events: Seq<SessionEvent<L, S, R>>)
    requires
        s.wf(),
        s.winds_down(),
        s.can_all(events),
        no_dial(events),
    ensures
        s.after_all(events).wf(),
        s.after_all(events).winds_down(),
        steps(events) >= s.steps_to_end() ==> !(s.after_all(events).phase is Running),
        steps(events) <= s.steps_to_end() + 1,
        s.phase is Idle ==> steps(events) == 0,
    decreases events.len(),
{
    if events.len() > 0 {
        assert(!(events[0] is Dial));
        law_session_keeps(s, events[0]);
        let t = s.after(events[0]);
        let rest = events.drop_first();
        assert forall|i: int| 0 <= i < rest.len() implies !(#[trigger] rest[i] is Dial) by {
            assert(rest[i] == events[i + 1]);
        }
        lemma_wind_down(t, rest);
    }
}

/// Closing a client that is not disconnected ends its session, unless it
/// connects anew. Whatever the holder of the client does meanwhile, the session
/// takes five more steps at most, and after four of them at the latest the
/// client is disconnected; until then there is a step that it can take.
pub proof fn law_close_disconnects<L, S, R>(
    s: ClientSession<L, S, R>,
    events: Seq<SessionEvent<L, S, R>>,
    ping: Seq<u8>,
)
    requires
        s.wf(),
        s.can(SessionEvent::Close),
        s.after(SessionEvent::Close).can_all(events),
        no_dial(events),
    ensures
        ({
            let t = s.after(SessionEvent::Close).after_all(events);
            &&& steps(events) <= 5
            &&& steps(events) >= 4 ==> t.client.status == ConnectionStatus::Disconnected
            &&& t.client.status == ConnectionStatus::Disconnected || t.can(t.due_step(ping))
        }),
{
    let closed = s.after(SessionEvent::Close);
    law_session_keeps(s, SessionEvent::<L, S, R>::Close);
    lemma_wind_down(closed, events);
}

/// A client whose session has ended stays disconnected, and refuses to send, to
/// be closed and to open channels, until it connects anew.
pub proof fn law_ended_session_stays_ended<L, S, R>(
    s: ClientSession<L, S, R>,
    events: Seq<SessionEvent<L, S, R>>,
)
    requires
        s.wf(),
        s.phase is Ending || s.phase is Idle,
        s.can_all(events),
        no_dial(events),
    ensures
        s.after_all(events).client.status == ConnectionStatus::Disconnected,
        !s.after_all(events).client.can_send(),
        !s.after_all(events).client.can_open(),
{
    lemma_wind_down(s, events);
}

/// The end of a session leaves the client disconnected before the queue is
/// closed.
pub proof fn law_queue_closes_last<L, S, R>(s: ClientSession<L, S, R>)
    requires
        s.wf(),
        s.can(SessionEvent::End),
    ensures
        s.after(SessionEvent::End).client.status == ConnectionStatus::Disconnected,
        s.after(SessionEvent::End).queue_open,
        s.after(SessionEvent::End).can(SessionEvent::CloseQueue),
        !s.after(SessionEvent::End).after(SessionEvent::CloseQueue).queue_open,
{
}

} // verus!
