//! Leaving a group: the membership goes, the group goes with its last
//! member, and those still connected are told. The channel itself is left
//! to the connections: it is torn down when the last of them detaches.

use vstd::prelude::*;
use crate::channel::Delivery;
use crate::error::AppError;
use crate::registry::Registry;
use crate::machine::{lemma_run_at, run, state_at};
use crate::store::{store_error, Reply, StoreRequest, Success};
use crate::wire::{server_frame_text, WsServerMessage, NIL_ID};

verus! {

/// The name under which the server's own messages go out.
pub open spec fn system_username() -> Seq<char> {
    "system"@
}

/// What the server says when the user shown as `display_name` has left.
pub open spec fn departure_text(display_name: Seq<char>) -> Seq<char> {
    display_name + " ha lasciato il gruppo."@
}

/// The frame that tells a group that the user shown as `display_name` has
/// left: a message of the server itself, as JSON text.
pub open spec fn departure_frame(display_name: Seq<char>) -> Seq<char> {
    server_frame_text(NIL_ID, system_username(), departure_text(display_name))
}

/// The message that tells a group that a user has left. It comes from the
/// server itself and is never stored.
pub fn departure_notice(display_name: &str) -> (notice: WsServerMessage)
    ensures
        notice.sender_id == NIL_ID,
        notice.system(),
        notice.sender_username@ == system_username(),
        notice.content@ == departure_text(display_name@),
{
    let mut content = String::from_str(display_name);
    content.append(" ha lasciato il gruppo.");
    WsServerMessage { sender_id: NIL_ID, sender_username: String::from_str("system"), content }
}

/// The departure notice as the payload that goes to the group's channel.
pub fn departure_payload(display_name: &str) -> (payload: String)
    ensures
        payload@ == departure_frame(display_name@),
{
    departure_notice(display_name).encode()
}

/// What became of a departure notice.
#[derive(Clone, Copy, Debug, PartialEq, Eq, Structural)]
pub enum Announcement {
    /// The group has no channel: nobody is connected, nothing was sent.
    NoChannel,
    /// The notice went to the group's channel.
    Sent { delivery: Delivery },
}

/// Publishes `payload`, the departure notice that a leave has handed out,
/// to those connected to the group. A group without a channel gets none
/// for the occasion; that the notice reaches nobody is no failure.
pub fn notify_departure(registry: &Registry, group_id: u128, payload: String) -> (announcement:
    Announcement)
    ensures
        announcement is NoChannel <==> !registry.groups().contains(group_id),
        announcement matches Announcement::Sent { delivery: Delivery::Queued { receivers } }
            ==> receivers >= 1,
{
    match registry.get(group_id) {
        None => Announcement::NoChannel,
        Some(handle) => Announcement::Sent { delivery: handle.publish(payload) },
    }
}

/// What a leave wants next.
#[derive(Debug, PartialEq, Eq)]
pub enum LeaveStep {
    /// Ask the store; come back with its reply.
    Ask { request: StoreRequest },
    /// Publish the payload, the departure notice, on the group's channel
    /// if it has one; come back with `Announced`.
    Announce { group_id: u128, payload: String },
    /// The leave is over. Where it failed, the transaction that is still
    /// open is abandoned, and nothing it did remains.
    Finish { outcome: Result<Success, AppError> },
}

/// A `LeaveStep` as the contracts see it: text as a sequence of characters.
pub enum LeaveStepView {
    Ask { request: StoreRequest },
    Announce { group_id: u128, payload: Seq<char> },
    Finish { outcome: Result<Success, AppError> },
}

impl View for LeaveStep {
    type V = LeaveStepView;

    open spec fn view(&self) -> LeaveStepView {
        match self {
            LeaveStep::Ask { request } => LeaveStepView::Ask { request: *request },
            LeaveStep::Announce { group_id, payload } => LeaveStepView::Announce {
                group_id: *group_id,
                payload: payload@,
            },
            LeaveStep::Finish { outcome } => LeaveStepView::Finish { outcome: *outcome },
        }
    }
}

/// Where a leave stands.
#[derive(Clone, Copy, Debug, PartialEq, Eq, Structural)]
pub enum LeaveState {
    /// Not begun.
    Start,
    /// Waiting for the transaction to open.
    Beginning,
    /// Waiting for the membership to be deleted.
    Removing,
    /// Waiting for the count of the members that remain.
    Counting,
    /// Waiting for the commit; this many members remain.
    Committing { remaining: i64 },
    /// Waiting for the announcement; this many members remain.
    Announcing { remaining: i64 },
    /// Waiting for the memberless group to be deleted.
    Deleting,
    /// Over.
    Finished,
}

/// The next state and step of the leave of `user_id`, shown as
/// `display_name`, from `group_id`.
///
/// The membership is deleted in a transaction. Who is no member cannot
/// leave: if there was no membership to delete, the leave is refused for
/// want of permission, and nothing is announced. Otherwise the remaining
/// members are counted and the transaction is committed; only then is the
/// departure notice handed out for the group's channel, and after that a
/// group without members is deleted. A refusal by the store ends the
/// leave with a store error, and so does a reply that does not answer the
/// last step.
pub open spec fn leave_step(
    user_id: u128,
    group_id: u128,
    display_name: Seq<char>,
    state: LeaveState,
    reply: Reply,
) -> (LeaveState, LeaveStepView) {
    match (state, reply) {
        (LeaveState::Start, Reply::Start) => (
            LeaveState::Beginning,
            LeaveStepView::Ask { request: StoreRequest::Begin },
        ),
        (LeaveState::Beginning, Reply::Done) => (
            LeaveState::Removing,
            LeaveStepView::Ask { request: StoreRequest::RemoveMembership { user_id, group_id } },
        ),
        (LeaveState::Removing, Reply::Rows { affected }) => if affected == 0 {
            (
                LeaveState::Finished,
                LeaveStepView::Finish { outcome: Err(AppError::MissingPermissions) },
            )
        } else {
            (
                LeaveState::Counting,
                LeaveStepView::Ask { request: StoreRequest::CountMembers { group_id } },
            )
        },
        (LeaveState::Counting, Reply::Count { members }) => (
            LeaveState::Committing { remaining: members },
            LeaveStepView::Ask { request: StoreRequest::Commit },
        ),
        (LeaveState::Committing { remaining }, Reply::Done) => (
            LeaveState::Announcing { remaining },
            LeaveStepView::Announce { group_id, payload: departure_frame(display_name) },
        ),
        (LeaveState::Announcing { remaining }, Reply::Announced) => if remaining == 0 {
            (
                LeaveState::Deleting,
                LeaveStepView::Ask { request: StoreRequest::DeleteGroup { group_id } },
            )
        } else {
            (LeaveState::Finished, LeaveStepView::Finish { outcome: Ok(Success::NoContent) })
        },
        (LeaveState::Deleting, Reply::Done) => (
            LeaveState::Finished,
            LeaveStepView::Finish { outcome: Ok(Success::NoContent) },
        ),
        (LeaveState::Deleting, Reply::Rows { affected }) => (
            LeaveState::Finished,
            LeaveStepView::Finish { outcome: Ok(Success::NoContent) },
        ),
        _ => (LeaveState::Finished, LeaveStepView::Finish { outcome: store_error() }),
    }
}

/// The leave of `user_id`, shown as `display_name`, from `group_id` as a
/// machine.
pub open spec fn leave_machine(user_id: u128, group_id: u128, display_name: Seq<char>) -> spec_fn(
    LeaveState,
    Reply,
) -> (LeaveState, LeaveStepView) {
    |state: LeaveState, reply: Reply| leave_step(user_id, group_id, display_name, state, reply)
}

/// The steps of a leave from its start, one per reply.
pub open spec fn leave_run(
    user_id: u128,
    group_id: u128,
    display_name: Seq<char>,
    replies: Seq<Reply>,
) -> Seq<LeaveStepView> {
    run(leave_machine(user_id, group_id, display_name), LeaveState::Start, replies)
}

/// Whether a request is one that a leave makes of the store: it opens and
/// commits its transaction, deletes the membership, counts the members
/// and deletes the group. It never asks the store to keep a message.
pub open spec fn leave_request(user_id: u128, group_id: u128, request: StoreRequest) -> bool {
    ||| request == StoreRequest::Begin
    ||| request == StoreRequest::Commit
    ||| request == (StoreRequest::RemoveMembership { user_id, group_id })
    ||| request == (StoreRequest::CountMembers { group_id })
    ||| request == (StoreRequest::DeleteGroup { group_id })
}

/// A departure is announced only once it is a fact: whatever the store
/// replies, a leave hands out a notice only as its fifth step, after the
/// store deleted a membership, counted those that remain and confirmed
/// the commit; and what it hands out is the departure notice of the user
/// who left, for the group that was left.
pub proof fn lemma_announced_after_commit(
    user_id: u128,
    group_id: u128,
    display_name: Seq<char>,
    replies: Seq<Reply>,
    i: int,
)
    requires
        0 <= i < replies.len(),
        leave_run(user_id, group_id, display_name, replies)[i] is Announce,
    ensures
        i == 4,
        leave_run(user_id, group_id, display_name, replies)[i] == (LeaveStepView::Announce {
            group_id,
            payload: departure_frame(display_name),
        }),
        leave_run(user_id, group_id, display_name, replies)[1] == (LeaveStepView::Ask {
            request: StoreRequest::RemoveMembership { user_id, group_id },
        }),
        replies[2] matches Reply::Rows { affected } && affected != 0,
        replies[3] is Count,
        leave_run(user_id, group_id, display_name, replies)[3] == (LeaveStepView::Ask {
            request: StoreRequest::Commit,
        }),
        replies[4] == Reply::Done,
{
    let machine = leave_machine(user_id, group_id, display_name);
    let start = LeaveState::Start;
    lemma_run_at(machine, start, replies, i);
    let s4 = state_at(machine, start, replies, i);
    assert(s4 is Committing);
    assert(i > 0);
    let s3 = state_at(machine, start, replies, i - 1);
    assert(s4 == machine(s3, replies[i - 1]).0);
    lemma_run_at(machine, start, replies, i - 1);
    assert(s3 is Counting);
    assert(i > 1);
    let s2 = state_at(machine, start, replies, i - 2);
    assert(s3 == machine(s2, replies[i - 2]).0);
    lemma_run_at(machine, start, replies, i - 2);
    assert(s2 is Removing);
    assert(i > 2);
    let s1 = state_at(machine, start, replies, i - 3);
    assert(s2 == machine(s1, replies[i - 3]).0);
    lemma_run_at(machine, start, replies, i - 3);
    assert(s1 is Beginning);
    assert(i > 3);
    let s0 = state_at(machine, start, replies, i - 4);
    assert(s1 == machine(s0, replies[i - 4]).0);
    assert(s0 is Start);
    if i > 4 {
        let before = state_at(machine, start, replies, i - 5);
        assert(s0 == machine(before, replies[i - 5]).0);
    }
}

/// A group is deleted only when its last member has left: whatever the
/// store replies, a leave asks for the group to be deleted only after the
/// store counted no member and the departure was announced.
pub proof fn lemma_only_memberless_group_deleted(
    user_id: u128,
    group_id: u128,
    display_name: Seq<char>,
    replies: Seq<Reply>,
    i: int,
)
    requires
        0 <= i < replies.len(),
        leave_run(user_id, group_id, display_name, replies)[i] matches LeaveStepView::Ask {
            request: StoreRequest::DeleteGroup { group_id: deleted },
        },
    ensures
        i == 5,
        leave_run(user_id, group_id, display_name, replies)[i] == (LeaveStepView::Ask {
            request: StoreRequest::DeleteGroup { group_id },
        }),
        replies[3] == (Reply::Count { members: 0 }),
        leave_run(user_id, group_id, display_name, replies)[4] is Announce,
        replies[5] == Reply::Announced,
{
    let machine = leave_machine(user_id, group_id, display_name);
    let start = LeaveState::Start;
    lemma_run_at(machine, start, replies, i);
    let s5 = state_at(machine, start, replies, i);
    assert(s5 == (LeaveState::Announcing { remaining: 0 }));
    assert(i > 0);
    let s4 = state_at(machine, start, replies, i - 1);
    assert(s5 == machine(s4, replies[i - 1]).0);
    lemma_run_at(machine, start, replies, i - 1);
    assert(leave_run(user_id, group_id, display_name, replies)[i - 1] is Announce);
    lemma_announced_after_commit(user_id, group_id, display_name, replies, i - 1);
    let s3 = state_at(machine, start, replies, 3);
    assert(s4 == machine(s3, replies[3]).0);
}

/// Only a member leaves: whatever the store replies, a leave ends well
/// only after the store deleted a membership and the departure was
/// announced, as its sixth step or, where the group went with its last
/// member, as its seventh.
pub proof fn lemma_left_only_as_member(
    user_id: u128,
    group_id: u128,
    display_name: Seq<char>,
    replies: Seq<Reply>,
    i: int,
)
    requires
        0 <= i < replies.len(),
        leave_run(user_id, group_id, display_name, replies)[i] matches LeaveStepView::Finish {
            outcome: Ok(success),
        },
    ensures
        i == 5 || i == 6,
        replies[2] matches Reply::Rows { affected } && affected != 0,
        leave_run(user_id, group_id, display_name, replies)[4] == (LeaveStepView::Announce {
            group_id,
            payload: departure_frame(display_name),
        }),
        leave_run(user_id, group_id, display_name, replies)[i] == (LeaveStepView::Finish {
            outcome: Ok(Success::NoContent),
        }),
{
    let machine = leave_machine(user_id, group_id, display_name);
    let start = LeaveState::Start;
    lemma_run_at(machine, start, replies, i);
    let last = state_at(machine, start, replies, i);
    assert(last is Announcing || last is Deleting);
    assert(i > 0);
    let before = state_at(machine, start, replies, i - 1);
    assert(last == machine(before, replies[i - 1]).0);
    lemma_run_at(machine, start, replies, i - 1);
    if last is Announcing {
        lemma_announced_after_commit(user_id, group_id, display_name, replies, i - 1);
    } else {
        lemma_only_memberless_group_deleted(user_id, group_id, display_name, replies, i - 1);
        lemma_announced_after_commit(user_id, group_id, display_name, replies, 4);
    }
}

/// Who is no member cannot leave: where the store finds no membership to
/// delete, the leave is refused for want of permission as its third
/// step, the transaction is never committed, and nothing is announced,
/// whatever replies follow.
pub proof fn lemma_stranger_cannot_leave(
    user_id: u128,
    group_id: u128,
    display_name: Seq<char>,
    replies: Seq<Reply>,
    i: int,
)
    requires
        replies.len() >= 3,
        replies[0] == Reply::Start,
        replies[1] == Reply::Done,
        replies[2] == (Reply::Rows { affected: 0 }),
        0 <= i < replies.len(),
    ensures
        leave_run(user_id, group_id, display_name, replies)[2] == (LeaveStepView::Finish {
            outcome: Err(AppError::MissingPermissions),
        }),
        !(leave_run(user_id, group_id, display_name, replies)[i] is Announce),
        leave_run(user_id, group_id, display_name, replies)[i] != (LeaveStepView::Ask {
            request: StoreRequest::Commit,
        }),
        i >= 2 ==> leave_run(user_id, group_id, display_name, replies)[i] is Finish,
        !(leave_run(user_id, group_id, display_name, replies)[i] matches LeaveStepView::Finish {
            outcome: Ok(success),
        }),
    decreases i,
{
    let machine = leave_machine(user_id, group_id, display_name);
    let start = LeaveState::Start;
    lemma_run_at(machine, start, replies, 0);
    lemma_run_at(machine, start, replies, 1);
    lemma_run_at(machine, start, replies, 2);
    lemma_run_at(machine, start, replies, i);
    let s0 = state_at(machine, start, replies, 0);
    let s1 = state_at(machine, start, replies, 1);
    let s2 = state_at(machine, start, replies, 2);
    let s3 = state_at(machine, start, replies, 3);
    assert(s0 == start);
    assert(s1 == machine(s0, replies[0]).0);
    assert(s2 == machine(s1, replies[1]).0);
    assert(s3 == machine(s2, replies[2]).0);
    assert(s3 is Finished);
    if i > 2 {
        lemma_stranger_finished_from(user_id, group_id, display_name, replies, i);
    }
}

/// Once a leave has finished it stays finished.
proof fn lemma_stranger_finished_from(
    user_id: u128,
    group_id: u128,
    display_name: Seq<char>,
    replies: Seq<Reply>,
    i: int,
)
    requires
        3 <= i <= replies.len(),
        state_at(leave_machine(user_id, group_id, display_name), LeaveState::Start, replies, 3)
            is Finished,
    ensures
        state_at(leave_machine(user_id, group_id, display_name), LeaveState::Start, replies, i)
            is Finished,
    decreases i,
{
    let machine = leave_machine(user_id, group_id, display_name);
    let start = LeaveState::Start;
    if i > 3 {
        lemma_stranger_finished_from(user_id, group_id, display_name, replies, i - 1);
        assert(state_at(machine, start, replies, i) == machine(
            state_at(machine, start, replies, i - 1),
            replies[i - 1],
        ).0);
    }
}

/// A departure notice is announced, never stored: whatever the store
/// replies, everything a leave asks of the store is about its
/// transaction, the membership, the count of members or the group.
pub proof fn lemma_departure_never_stored(
    user_id: u128,
    group_id: u128,
    display_name: Seq<char>,
    replies: Seq<Reply>,
    i: int,
)
    requires
        0 <= i < replies.len(),
        leave_run(user_id, group_id, display_name, replies)[i] is Ask,
    ensures
        leave_request(
            user_id,
            group_id,
            leave_run(user_id, group_id, display_name, replies)[i]->Ask_request,
        ),
{
    lemma_run_at(leave_machine(user_id, group_id, display_name), LeaveState::Start, replies, i);
}

impl LeaveState {
    /// Takes a reply and says what to do next.
    pub fn step(self, user_id: u128, group_id: u128, display_name: &str, reply: Reply) -> (next: (
        LeaveState,
        LeaveStep,
    ))
        ensures
            (next.0, next.1@) == leave_step(user_id, group_id, display_name@, self, reply),
    {
        match (self, reply) {
            (LeaveState::Start, Reply::Start) => (
                LeaveState::Beginning,
                LeaveStep::Ask { request: StoreRequest::Begin },
            ),
            (LeaveState::Beginning, Reply::Done) => (
                LeaveState::Removing,
                LeaveStep::Ask { request: StoreRequest::RemoveMembership { user_id, group_id } },
            ),
            (LeaveState::Removing, Reply::Rows { affected }) => if affected == 0 {
                (
                    LeaveState::Finished,
                    LeaveStep::Finish { outcome: Err(AppError::MissingPermissions) },
                )
            } else {
                (
                    LeaveState::Counting,
                    LeaveStep::Ask { request: StoreRequest::CountMembers { group_id } },
                )
            },
            (LeaveState::Counting, Reply::Count { members }) => (
                LeaveState::Committing { remaining: members },
                LeaveStep::Ask { request: StoreRequest::Commit },
            ),
            (LeaveState::Committing { remaining }, Reply::Done) => (
                LeaveState::Announcing { remaining },
                LeaveStep::Announce { group_id, payload: departure_payload(display_name) },
            ),
            (LeaveState::Announcing { remaining }, Reply::Announced) => if remaining == 0 {
                (
                    LeaveState::Deleting,
                    LeaveStep::Ask { request: StoreRequest::DeleteGroup { group_id } },
                )
            } else {
                (LeaveState::Finished, LeaveStep::Finish { outcome: Ok(Success::NoContent) })
            },
            (LeaveState::Deleting, Reply::Done) => (
                LeaveState::Finished,
                LeaveStep::Finish { outcome: Ok(Success::NoContent) },
            ),
            (LeaveState::Deleting, Reply::Rows { affected }) => (
                LeaveState::Finished,
                LeaveStep::Finish { outcome: Ok(Success::NoContent) },
            ),
            _ => (
                LeaveState::Finished,
                LeaveStep::Finish { outcome: Err(AppError::DatabaseError) },
            ),
        }
    }
}

} // verus!
