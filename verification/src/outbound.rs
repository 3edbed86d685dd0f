//! The writing half of a connection: forwards what the group's channel
//! delivers to the client, in the order of delivery.

use vstd::prelude::*;
use crate::machine::{lemma_run_at, run, state_at};

verus! {

/// What happened since the writer last said what to do.
#[derive(Debug, PartialEq, Eq)]
pub enum OutboundEvent {
    /// The subscription delivered a payload.
    Message { payload: String },
    /// The subscription fell behind and missed this many payloads.
    Lagged { missed: u64 },
    /// The channel is gone: no sender is left.
    ChannelClosed,
    /// The payload handed out for writing reached the client's stream.
    Written,
    /// Writing to the client's stream failed.
    WriteFailed,
}

/// An `OutboundEvent` as the contracts see it: text as a sequence of characters.
pub enum OutboundEventView {
    Message { payload: Seq<char> },
    Lagged { missed: u64 },
    ChannelClosed,
    Written,
    WriteFailed,
}

impl View for OutboundEvent {
    type V = OutboundEventView;

    open spec fn view(&self) -> OutboundEventView {
        match self {
            OutboundEvent::Message { payload } => OutboundEventView::Message { payload: payload@ },
            OutboundEvent::Lagged { missed } => OutboundEventView::Lagged { missed: *missed },
            OutboundEvent::ChannelClosed => OutboundEventView::ChannelClosed,
            OutboundEvent::Written => OutboundEventView::Written,
            OutboundEvent::WriteFailed => OutboundEventView::WriteFailed,
        }
    }
}

/// What the writer asks to be done next.
#[derive(Debug, PartialEq, Eq)]
pub enum OutboundAction {
    /// Wait for the subscription's next delivery.
    Receive,
    /// Write the payload to the client as a text frame; report `Written`
    /// or `WriteFailed`.
    Write { payload: String },
    /// Stop writing: the connection is over.
    Stop,
}

/// An `OutboundAction` as the contracts see it: text as a sequence of characters.
pub enum OutboundActionView {
    Receive,
    Write { payload: Seq<char> },
    Stop,
}

impl View for OutboundAction {
    type V = OutboundActionView;

    open spec fn view(&self) -> OutboundActionView {
        match self {
            OutboundAction::Receive => OutboundActionView::Receive,
            OutboundAction::Write { payload } => OutboundActionView::Write { payload: payload@ },
            OutboundAction::Stop => OutboundActionView::Stop,
        }
    }
}

/// Where the writer stands.
#[derive(Clone, Copy, Debug, PartialEq, Eq, Structural)]
pub enum OutboundState {
    /// Waiting for the subscription to deliver.
    Waiting,
    /// Waiting for the client's stream to take a payload.
    Writing,
    /// Done; nothing is written any more.
    Stopped,
}

/// The writer's next state and action.
///
/// A delivered payload is written to the client as it is. A subscriber
/// that fell behind has missed payloads and goes on with the next one: it
/// is not disconnected. A closed channel and a failed write end the
/// writing, and so does an event that does not answer the last action.
pub open spec fn outbound_step(state: OutboundState, event: OutboundEventView) -> (
    OutboundState,
    OutboundActionView,
) {
    match (state, event) {
        (OutboundState::Waiting, OutboundEventView::Message { payload }) => (
            OutboundState::Writing,
            OutboundActionView::Write { payload },
        ),
        (OutboundState::Waiting, OutboundEventView::Lagged { missed }) => (
            OutboundState::Waiting,
            OutboundActionView::Receive,
        ),
        (OutboundState::Writing, OutboundEventView::Written) => (
            OutboundState::Waiting,
            OutboundActionView::Receive,
        ),
        _ => (OutboundState::Stopped, OutboundActionView::Stop),
    }
}

/// The writer as a machine.
pub open spec fn outbound_machine() -> spec_fn(OutboundState, OutboundEventView) -> (
    OutboundState,
    OutboundActionView,
) {
    |state: OutboundState, event: OutboundEventView| outbound_step(state, event)
}

/// The actions a writer asks for from its start, one per event.
pub open spec fn outbound_run(events: Seq<OutboundEventView>) -> Seq<OutboundActionView> {
    run(outbound_machine(), OutboundState::Waiting, events)
}

/// A writer forwards and never invents: whatever arrives, it answers
/// every event with one action, and a payload it asks to be written is
/// the one that the very same event delivered.
pub proof fn lemma_writes_what_was_delivered(events: Seq<OutboundEventView>, i: int)
    requires
        0 <= i < events.len(),
    ensures
        outbound_run(events).len() == events.len(),
        outbound_run(events)[i] matches OutboundActionView::Write { payload } ==> events[i] == (
        OutboundEventView::Message { payload }),
{
    lemma_run_at(outbound_machine(), OutboundState::Waiting, events, i);
}

/// Falling behind costs messages, not the connection: a writer that waits
/// still waits after any number of lag reports, and asks for the next
/// delivery each time.
pub proof fn lemma_lag_keeps_connection(events: Seq<OutboundEventView>, i: int)
    requires
        forall|j: int| 0 <= j < events.len() ==> events[j] is Lagged,
        0 <= i < events.len(),
    ensures
        outbound_run(events)[i] == OutboundActionView::Receive,
        state_at(outbound_machine(), OutboundState::Waiting, events, i + 1)
            == OutboundState::Waiting,
    decreases i,
{
    let machine = outbound_machine();
    let start = OutboundState::Waiting;
    lemma_run_at(machine, start, events, i);
    if i > 0 {
        lemma_lag_keeps_connection(events, i - 1);
    }
    assert(state_at(machine, start, events, i) == OutboundState::Waiting);
    assert(state_at(machine, start, events, i + 1) == machine(
        state_at(machine, start, events, i),
        events[i],
    ).0);
}

/// A writer that has stopped stays stopped: once it has asked to stop, it
/// answers whatever arrives later by asking to stop again, and writes
/// nothing more.
pub proof fn lemma_stopped_writer_stays_stopped(events: Seq<OutboundEventView>, i: int, j: int)
    requires
        0 <= i <= j < events.len(),
        outbound_run(events)[i] == OutboundActionView::Stop,
    ensures
        outbound_run(events)[j] == OutboundActionView::Stop,
    decreases j - i,
{
    let machine = outbound_machine();
    let start = OutboundState::Waiting;
    lemma_run_at(machine, start, events, i);
    lemma_run_at(machine, start, events, j);
    if i < j {
        lemma_stopped_writer_stays_stopped(events, i, j - 1);
        lemma_run_at(machine, start, events, j - 1);
        assert(state_at(machine, start, events, j) == machine(
            state_at(machine, start, events, j - 1),
            events[j - 1],
        ).0);
    }
}

impl OutboundState {
    /// The state a writer starts in.
    pub fn start() -> (state: OutboundState)
        ensures
            state == OutboundState::Waiting,
    {
        OutboundState::Waiting
    }

    /// Takes an event and says what to do next.
    pub fn step(self, event: OutboundEvent) -> (next: (OutboundState, OutboundAction))
        ensures
            (next.0, next.1@) == outbound_step(self, event@),
    {
        match (self, event) {
            (OutboundState::Waiting, OutboundEvent::Message { payload }) => (
                OutboundState::Writing,
                OutboundAction::Write { payload },
            ),
            (OutboundState::Waiting, OutboundEvent::Lagged { missed }) => (
                OutboundState::Waiting,
                OutboundAction::Receive,
            ),
            (OutboundState::Writing, OutboundEvent::Written) => (
                OutboundState::Waiting,
                OutboundAction::Receive,
            ),
            _ => (OutboundState::Stopped, OutboundAction::Stop),
        }
    }
}

} // verus!
