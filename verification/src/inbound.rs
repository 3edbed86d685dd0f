//! The reading half of a connection: what to do with each thing the
//! client's stream yields. A chat message is stored first and published
//! only once the store has confirmed it.

use vstd::prelude::*;
use crate::channel::Delivery;
use crate::machine::{lemma_run_at, run, state_at};
use crate::wire::{
    client_frame_content, server_frame_text, WsClientMessage, WsServerMessage, NIL_ID,
};

verus! {

/// The connection a reader works for: one user in one group.
#[derive(Debug, PartialEq, Eq)]
pub struct Session {
    pub group_id: u128,
    pub user_id: u128,
    pub username: String,
}

/// A `Session` as the contracts see it: text as a sequence of characters.
pub struct SessionView {
    pub group_id: u128,
    pub user_id: u128,
    pub username: Seq<char>,
}

impl View for Session {
    type V = SessionView;

    open spec fn view(&self) -> SessionView {
        SessionView { group_id: self.group_id, user_id: self.user_id, username: self.username@ }
    }
}

/// One frame as the transport hands it over. Only text carries a chat
/// message.
#[derive(Debug, PartialEq, Eq)]
pub enum ClientFrame {
    Text(String),
    Binary,
    Ping,
    Pong,
    Close,
}

/// What happened since the reader last said what to do.
#[derive(Debug, PartialEq, Eq)]
pub enum InboundEvent {
    /// A text frame that holds a chat message arrived.
    Chat { content: String },
    /// A text frame arrived that holds no chat message.
    Malformed,
    /// A binary frame arrived.
    Binary,
    /// A ping arrived.
    Ping,
    /// A pong arrived.
    Pong,
    /// The client closed the connection.
    Close,
    /// The stream ended without a close frame.
    Ended,
    /// Reading from the stream failed.
    Failed,
    /// The store has saved the message handed to it.
    Stored,
    /// The store could not save the message handed to it.
    StoreFailed,
    /// The payload handed out for publishing went to the channel.
    Published(Delivery),
}

/// An `InboundEvent` as the contracts see it: text as a sequence of characters.
pub enum InboundEventView {
    Chat { content: Seq<char> },
    Malformed,
    Binary,
    Ping,
    Pong,
    Close,
    Ended,
    Failed,
    Stored,
    StoreFailed,
    Published(Delivery),
}

impl View for InboundEvent {
    type V = InboundEventView;

    open spec fn view(&self) -> InboundEventView {
        match self {
            InboundEvent::Chat { content } => InboundEventView::Chat { content: content@ },
            InboundEvent::Malformed => InboundEventView::Malformed,
            InboundEvent::Binary => InboundEventView::Binary,
            InboundEvent::Ping => InboundEventView::Ping,
            InboundEvent::Pong => InboundEventView::Pong,
            InboundEvent::Close => InboundEventView::Close,
            InboundEvent::Ended => InboundEventView::Ended,
            InboundEvent::Failed => InboundEventView::Failed,
            InboundEvent::Stored => InboundEventView::Stored,
            InboundEvent::StoreFailed => InboundEventView::StoreFailed,
            InboundEvent::Published(delivery) => InboundEventView::Published(*delivery),
        }
    }
}

/// What the reader asks to be done next.
#[derive(Debug, PartialEq, Eq)]
pub enum InboundAction {
    /// Wait for the next frame.
    Read,
    /// Save the message; report `Stored` or `StoreFailed`.
    Store { group_id: u128, user_id: u128, content: String },
    /// Publish the payload on the group's channel; report `Published`.
    Publish { payload: String },
    /// Stop reading: the connection is over.
    Stop,
}

/// An `InboundAction` as the contracts see it: text as a sequence of characters.
pub enum InboundActionView {
    Read,
    Store { group_id: u128, user_id: u128, content: Seq<char> },
    Publish { payload: Seq<char> },
    Stop,
}

impl View for InboundAction {
    type V = InboundActionView;

    open spec fn view(&self) -> InboundActionView {
        match self {
            InboundAction::Read => InboundActionView::Read,
            InboundAction::Store { group_id, user_id, content } => InboundActionView::Store {
                group_id: *group_id,
                user_id: *user_id,
                content: content@,
            },
            InboundAction::Publish { payload } => InboundActionView::Publish { payload: payload@ },
            InboundAction::Stop => InboundActionView::Stop,
        }
    }
}

/// Where the reader stands.
#[derive(Debug, PartialEq, Eq)]
pub enum InboundState {
    /// Waiting for a frame.
    Reading,
    /// Waiting for the store to confirm the message with this content.
    Storing { content: String },
    /// Waiting for the channel to take the payload of the stored message.
    Publishing,
    /// Done; nothing is read any more.
    Stopped,
}

/// An `InboundState` as the contracts see it: text as a sequence of characters.
pub enum InboundStateView {
    Reading,
    Storing { content: Seq<char> },
    Publishing,
    Stopped,
}

impl View for InboundState {
    type V = InboundStateView;

    open spec fn view(&self) -> InboundStateView {
        match self {
            InboundState::Reading => InboundStateView::Reading,
            InboundState::Storing { content } => InboundStateView::Storing { content: content@ },
            InboundState::Publishing => InboundStateView::Publishing,
            InboundState::Stopped => InboundStateView::Stopped,
        }
    }
}

/// The event that a frame amounts to.
pub open spec fn frame_event(frame: ClientFrame) -> InboundEventView {
    match frame {
        ClientFrame::Text(text) => match client_frame_content(text@) {
            Some(content) => InboundEventView::Chat { content },
            None => InboundEventView::Malformed,
        },
        ClientFrame::Binary => InboundEventView::Binary,
        ClientFrame::Ping => InboundEventView::Ping,
        ClientFrame::Pong => InboundEventView::Pong,
        ClientFrame::Close => InboundEventView::Close,
    }
}

/// The event that the reading of a text frame amounts to.
pub open spec fn text_event(parsed: Option<WsClientMessage>) -> InboundEventView {
    match parsed {
        Some(message) => InboundEventView::Chat { content: message.content@ },
        None => InboundEventView::Malformed,
    }
}

/// The reader's next state and action.
///
/// While reading, a chat message goes to the store, a malformed text
/// frame is skipped, and anything else ends the reading. A stored message
/// is published as a frame in the session's name; one that could not be
/// stored is dropped and reading goes on. Reading goes on after a payload
/// reached the channel and ends if the channel had no subscriber left. An
/// event that does not answer the last action ends the reading.
pub open spec fn inbound_step(session: SessionView, state: InboundStateView, event: InboundEventView) -> (
    InboundStateView,
    InboundActionView,
) {
    match (state, event) {
        (InboundStateView::Reading, InboundEventView::Chat { content }) => (
            InboundStateView::Storing { content },
            InboundActionView::Store {
                group_id: session.group_id,
                user_id: session.user_id,
                content,
            },
        ),
        (InboundStateView::Reading, InboundEventView::Malformed) => (
            InboundStateView::Reading,
            InboundActionView::Read,
        ),
        (InboundStateView::Storing { content }, InboundEventView::Stored) => (
            InboundStateView::Publishing,
            InboundActionView::Publish {
                payload: server_frame_text(session.user_id, session.username, content),
            },
        ),
        (InboundStateView::Storing { content }, InboundEventView::StoreFailed) => (
            InboundStateView::Reading,
            InboundActionView::Read,
        ),
        (
            InboundStateView::Publishing,
            InboundEventView::Published(Delivery::Queued { receivers }),
        ) => (InboundStateView::Reading, InboundActionView::Read),
        _ => (InboundStateView::Stopped, InboundActionView::Stop),
    }
}

/// The reader of a session as a machine.
pub open spec fn inbound_machine(session: SessionView) -> spec_fn(
    InboundStateView,
    InboundEventView,
) -> (InboundStateView, InboundActionView) {
    |state: InboundStateView, event: InboundEventView| inbound_step(session, state, event)
}

/// The actions a reader asks for from its start, one per event.
pub open spec fn inbound_run(session: SessionView, events: Seq<InboundEventView>) -> Seq<InboundActionView> {
    run(inbound_machine(session), InboundStateView::Reading, events)
}

/// Nothing is published before it is stored: whatever arrives, in
/// whatever order, a reader asks for a payload to be published only in
/// answer to the store's confirmation, and the payload is the frame, in
/// the session's name, of the very message that it handed to the store
/// just before.
pub proof fn lemma_stored_before_published(session: SessionView, events: Seq<InboundEventView>, i: int)
    requires
        0 <= i < events.len(),
        inbound_run(session, events)[i] is Publish,
    ensures
        i > 0,
        events[i] == InboundEventView::Stored,
        events[i - 1] is Chat,
        inbound_run(session, events)[i - 1] == (InboundActionView::Store {
            group_id: session.group_id,
            user_id: session.user_id,
            content: events[i - 1]->Chat_content,
        }),
        inbound_run(session, events)[i] == (InboundActionView::Publish {
            payload: server_frame_text(
                session.user_id,
                session.username,
                events[i - 1]->Chat_content,
            ),
        }),
{
    let machine = inbound_machine(session);
    let start = InboundStateView::Reading;
    lemma_run_at(machine, start, events, i);
    let storing = state_at(machine, start, events, i);
    assert(storing is Storing);
    assert(i > 0);
    let reading = state_at(machine, start, events, i - 1);
    assert(storing == machine(reading, events[i - 1]).0);
    lemma_run_at(machine, start, events, i - 1);
}

/// A message as the store keeps it.
pub struct StoredMessage {
    pub group_id: u128,
    pub user_id: u128,
    pub content: Seq<char>,
}

/// The messages that the store has kept for a reader by the time the
/// reader has taken the first `n` events: one for every message that the
/// reader handed to the store and that the store, with the next event,
/// confirmed; in the order in which they were confirmed.
pub open spec fn messages_kept(session: SessionView, events: Seq<InboundEventView>, n: int) -> Seq<
    StoredMessage,
>
    decreases n,
{
    if n <= 0 {
        Seq::empty()
    } else {
        let before = messages_kept(session, events, n - 1);
        if n >= 2 && events[n - 1] == InboundEventView::Stored && inbound_run(session, events)[n
            - 2] is Store {
            before.push(
                StoredMessage {
                    group_id: inbound_run(session, events)[n - 2]->Store_group_id,
                    user_id: inbound_run(session, events)[n - 2]->Store_user_id,
                    content: inbound_run(session, events)[n - 2]->Store_content,
                },
            )
        } else {
            before
        }
    }
}

/// What a reader hands to the store is what its client sent, under the
/// session's own user and group: whatever arrives, in whatever order, a
/// reader asks the store to keep a message only in answer to a chat
/// frame, and the message is that frame's content.
pub proof fn lemma_reader_stores_what_was_sent(session: SessionView, events: Seq<InboundEventView>, i: int)
    requires
        0 <= i < events.len(),
        inbound_run(session, events)[i] is Store,
    ensures
        events[i] is Chat,
        inbound_run(session, events)[i] == (InboundActionView::Store {
            group_id: session.group_id,
            user_id: session.user_id,
            content: events[i]->Chat_content,
        }),
{
    lemma_run_at(inbound_machine(session), InboundStateView::Reading, events, i);
}

/// The store keeps no message of the server's own through a reader:
/// every message kept for a reader is under the session's user and group,
/// so unless the session is that of the identity reserved for the server,
/// none of them is a system message.
pub proof fn lemma_no_system_message_kept(
    session: SessionView,
    events: Seq<InboundEventView>,
    n: int,
    k: int,
)
    requires
        0 <= n <= events.len(),
        0 <= k < messages_kept(session, events, n).len(),
    ensures
        messages_kept(session, events, n)[k].group_id == session.group_id,
        messages_kept(session, events, n)[k].user_id == session.user_id,
        session.user_id != NIL_ID ==> messages_kept(session, events, n)[k].user_id != NIL_ID,
    decreases n,
{
    if n > 0 {
        let before = messages_kept(session, events, n - 1);
        if k < before.len() {
            lemma_no_system_message_kept(session, events, n - 1, k);
        } else {
            lemma_reader_stores_what_was_sent(session, events, n - 2);
        }
    }
}

/// A malformed frame costs nothing: a reader that is reading answers any
/// number of malformed frames by reading on, and asks neither the store
/// nor the channel for anything.
pub proof fn lemma_malformed_frames_skipped(session: SessionView, events: Seq<InboundEventView>, i: int)
    requires
        forall|j: int| 0 <= j < events.len() ==> events[j] is Malformed,
        0 <= i < events.len(),
    ensures
        inbound_run(session, events)[i] == InboundActionView::Read,
        state_at(inbound_machine(session), InboundStateView::Reading, events, i + 1)
            == InboundStateView::Reading,
    decreases i,
{
    let machine = inbound_machine(session);
    let start = InboundStateView::Reading;
    lemma_run_at(machine, start, events, i);
    if i > 0 {
        lemma_malformed_frames_skipped(session, events, i - 1);
    }
    assert(state_at(machine, start, events, i) == InboundStateView::Reading);
    assert(state_at(machine, start, events, i + 1) == machine(
        state_at(machine, start, events, i),
        events[i],
    ).0);
}

/// A reader that has stopped stays stopped: once it has asked to stop, it
/// answers whatever arrives later by asking to stop again, and neither
/// stores nor publishes anything.
pub proof fn lemma_stopped_reader_stays_stopped(
    session: SessionView,
    events: Seq<InboundEventView>,
    i: int,
    j: int,
)
    requires
        0 <= i <= j < events.len(),
        inbound_run(session, events)[i] == InboundActionView::Stop,
    ensures
        inbound_run(session, events)[j] == InboundActionView::Stop,
    decreases j - i,
{
    let machine = inbound_machine(session);
    let start = InboundStateView::Reading;
    lemma_run_at(machine, start, events, i);
    lemma_run_at(machine, start, events, j);
    if i < j {
        lemma_stopped_reader_stays_stopped(session, events, i, j - 1);
        lemma_run_at(machine, start, events, j - 1);
        assert(state_at(machine, start, events, j) == machine(
            state_at(machine, start, events, j - 1),
            events[j - 1],
        ).0);
    }
}

/// The name shown for a user whose name the store could not tell.
pub open spec fn unknown_username() -> Seq<char> {
    "Sconosciuto"@
}

impl Session {
    /// The session of `user_id` in `group_id`, under the name that the
    /// store resolved for the user, or under a stand-in if it could not.
    pub fn open(group_id: u128, user_id: u128, resolved: Option<String>) -> (session: Session)
        ensures
            session.group_id == group_id,
            session.user_id == user_id,
            session.username@ == (match resolved {
                Some(name) => name@,
                None => unknown_username(),
            }),
    {
        let username = match resolved {
            Some(name) => name,
            None => String::from_str("Sconosciuto"),
        };
        Session { group_id, user_id, username }
    }

    /// The broadcast frame for a message of this session's user.
    pub fn frame(&self, content: String) -> (message: WsServerMessage)
        ensures
            message.sender_id == self.user_id,
            message.sender_username@ == self.username@,
            message.content@ == content@,
    {
        WsServerMessage {
            sender_id: self.user_id,
            sender_username: self.username.clone(),
            content,
        }
    }
}

impl InboundEvent {
    /// The event that the reading of a text frame amounts to.
    pub fn of_text(parsed: Option<WsClientMessage>) -> (event: InboundEvent)
        ensures
            event@ == text_event(parsed),
    {
        match parsed {
            Some(message) => InboundEvent::Chat { content: message.content },
            None => InboundEvent::Malformed,
        }
    }

    /// The event that a frame amounts to. A text frame is read as a client
    /// message; text that is none is malformed.
    pub fn of_frame(frame: ClientFrame) -> (event: InboundEvent)
        ensures
            event@ == frame_event(frame),
    {
        match frame {
            ClientFrame::Text(text) => InboundEvent::of_text(WsClientMessage::parse(text.as_str())),
            ClientFrame::Binary => InboundEvent::Binary,
            ClientFrame::Ping => InboundEvent::Ping,
            ClientFrame::Pong => InboundEvent::Pong,
            ClientFrame::Close => InboundEvent::Close,
        }
    }
}

impl InboundState {
    /// The state a reader starts in.
    pub fn start() -> (state: InboundState)
        ensures
            state@ == InboundStateView::Reading,
    {
        InboundState::Reading
    }

    /// Takes an event and says what to do next.
    pub fn step(self, session: &Session, event: InboundEvent) -> (next: (InboundState, InboundAction))
        ensures
            (next.0@, next.1@) == inbound_step(session@, self@, event@),
    {
        match (self, event) {
            (InboundState::Reading, InboundEvent::Chat { content }) => {
                let pending = content.clone();
                (
                    InboundState::Storing { content: pending },
                    InboundAction::Store {
                        group_id: session.group_id,
                        user_id: session.user_id,
                        content,
                    },
                )
            },
            (InboundState::Reading, InboundEvent::Malformed) => (
                InboundState::Reading,
                InboundAction::Read,
            ),
            (InboundState::Storing { content }, InboundEvent::Stored) => {
                let payload = session.frame(content).encode();
                (InboundState::Publishing, InboundAction::Publish { payload })
            },
            (InboundState::Storing { content }, InboundEvent::StoreFailed) => (
                InboundState::Reading,
                InboundAction::Read,
            ),
            (InboundState::Publishing, InboundEvent::Published(Delivery::Queued { receivers })) => (
                InboundState::Reading,
                InboundAction::Read,
            ),
            _ => (InboundState::Stopped, InboundAction::Stop),
        }
    }
}

} // verus!
