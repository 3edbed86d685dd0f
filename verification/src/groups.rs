//! Groups: creating one, finding users and groups by name, and reading a
//! group's message history.

use vstd::prelude::*;
use crate::error::AppError;
use crate::inbound::{
    lemma_no_system_message_kept, messages_kept, InboundEventView, SessionView, StoredMessage,
};
use crate::models::{CreateGroupPayload, Group, User};
use crate::machine::{lemma_run_at, run, state_at};
use crate::store::{store_error, Reply, StoreRequest, Success};
use crate::wire::{WsServerMessage, NIL_ID};

verus! {

/// Where the creation of a group stands.
#[derive(Clone, Copy, Debug, PartialEq, Eq, Structural)]
pub enum CreateState {
    /// Not begun.
    Start,
    /// Waiting for the transaction to open.
    Beginning,
    /// Waiting for the group to be inserted.
    Inserting,
    /// Waiting for the creator to become this group's first member.
    Joining { group_id: u128 },
    /// Waiting for the commit; the answer will show this group.
    Committing { group_id: u128 },
    /// Over.
    Finished,
}

/// What the creation of a group wants next.
#[derive(Debug, PartialEq, Eq)]
pub enum CreateStep {
    /// Ask the store; come back with its reply.
    Ask { request: StoreRequest },
    /// Have the store insert a group under this name; come back with the
    /// group.
    InsertGroup { name: String },
    /// The creation is over. Where it failed, the transaction that is
    /// still open is abandoned, and nothing it did remains.
    Finish { outcome: Result<Success, AppError> },
}

/// A `CreateStep` as the contracts see it: text as a sequence of characters.
pub enum CreateStepView {
    Ask { request: StoreRequest },
    InsertGroup { name: Seq<char> },
    Finish { outcome: Result<Success, AppError> },
}

impl View for CreateStep {
    type V = CreateStepView;

    open spec fn view(&self) -> CreateStepView {
        match self {
            CreateStep::Ask { request } => CreateStepView::Ask { request: *request },
            CreateStep::InsertGroup { name } => CreateStepView::InsertGroup { name: name@ },
            CreateStep::Finish { outcome } => CreateStepView::Finish { outcome: *outcome },
        }
    }
}

/// The next state and step of the creation of a group named `name` by
/// `creator_id`.
///
/// In one transaction the group is inserted under the name that was asked
/// for and its creator becomes its first member; only the commit makes
/// both permanent. No channel is opened: that waits for the first
/// connection. A refusal by the store ends the creation with a store
/// error, and so does a reply that does not answer the last step.
pub open spec fn create_step(creator_id: u128, name: Seq<char>, state: CreateState, reply: Reply) -> (
    CreateState,
    CreateStepView,
) {
    match (state, reply) {
        (CreateState::Start, Reply::Start) => (
            CreateState::Beginning,
            CreateStepView::Ask { request: StoreRequest::Begin },
        ),
        (CreateState::Beginning, Reply::Done) => (
            CreateState::Inserting,
            CreateStepView::InsertGroup { name },
        ),
        (CreateState::Inserting, Reply::Group { group_id }) => (
            CreateState::Joining { group_id },
            CreateStepView::Ask {
                request: StoreRequest::AddMembership { user_id: creator_id, group_id },
            },
        ),
        (CreateState::Joining { group_id }, Reply::Done) => (
            CreateState::Committing { group_id },
            CreateStepView::Ask { request: StoreRequest::Commit },
        ),
        (CreateState::Joining { group_id }, Reply::Rows { affected }) => (
            CreateState::Committing { group_id },
            CreateStepView::Ask { request: StoreRequest::Commit },
        ),
        (CreateState::Committing { group_id }, Reply::Done) => (
            CreateState::Finished,
            CreateStepView::Finish { outcome: Ok(Success::Group { group_id }) },
        ),
        _ => (CreateState::Finished, CreateStepView::Finish { outcome: store_error() }),
    }
}

/// The creation of a group named `name` by `creator_id` as a machine.
pub open spec fn create_machine(creator_id: u128, name: Seq<char>) -> spec_fn(CreateState, Reply) -> (
    CreateState,
    CreateStepView,
) {
    |state: CreateState, reply: Reply| create_step(creator_id, name, state, reply)
}

/// The steps of a creation from its start, one per reply.
pub open spec fn create_run(creator_id: u128, name: Seq<char>, replies: Seq<Reply>) -> Seq<CreateStepView> {
    run(create_machine(creator_id, name), CreateState::Start, replies)
}

/// A group and its first member come into being together: whatever the
/// store replies, a creation ends well only as its fifth step, when the
/// store has inserted a group under the name asked for, made the creator
/// a member of that very group and confirmed the commit; and the answer
/// shows that group.
pub proof fn lemma_created_with_first_member(
    creator_id: u128,
    name: Seq<char>,
    replies: Seq<Reply>,
    i: int,
)
    requires
        0 <= i < replies.len(),
        create_run(creator_id, name, replies)[i] matches CreateStepView::Finish {
            outcome: Ok(success),
        },
    ensures
        i == 4,
        create_run(creator_id, name, replies)[1] == (CreateStepView::InsertGroup { name }),
        replies[2] is Group,
        create_run(creator_id, name, replies)[2] == (CreateStepView::Ask {
            request: StoreRequest::AddMembership {
                user_id: creator_id,
                group_id: replies[2]->Group_group_id,
            },
        }),
        replies[3] is Done || replies[3] is Rows,
        create_run(creator_id, name, replies)[3] == (CreateStepView::Ask {
            request: StoreRequest::Commit,
        }),
        replies[4] == Reply::Done,
        create_run(creator_id, name, replies)[4] == (CreateStepView::Finish {
            outcome: Ok(Success::Group { group_id: replies[2]->Group_group_id }),
        }),
{
    let machine = create_machine(creator_id, name);
    let start = CreateState::Start;
    lemma_run_at(machine, start, replies, i);
    let s4 = state_at(machine, start, replies, i);
    assert(s4 is Committing);
    assert(i > 0);
    let s3 = state_at(machine, start, replies, i - 1);
    assert(s4 == machine(s3, replies[i - 1]).0);
    lemma_run_at(machine, start, replies, i - 1);
    assert(s3 is Joining);
    assert(i > 1);
    let s2 = state_at(machine, start, replies, i - 2);
    assert(s3 == machine(s2, replies[i - 2]).0);
    lemma_run_at(machine, start, replies, i - 2);
    assert(s2 is Inserting);
    assert(i > 2);
    let s1 = state_at(machine, start, replies, i - 3);
    assert(s2 == machine(s1, replies[i - 3]).0);
    lemma_run_at(machine, start, replies, i - 3);
    assert(s1 is Beginning);
    assert(i > 3);
    let s0 = state_at(machine, start, replies, i - 4);
    assert(s1 == machine(s0, replies[i - 4]).0);
    assert(s0 is Start);
    if i > 4 {
        let before = state_at(machine, start, replies, i - 5);
        assert(s0 == machine(before, replies[i - 5]).0);
    }
}

impl CreateState {
    /// Takes a reply and says what to do next.
    pub fn step(self, creator_id: u128, payload: &CreateGroupPayload, reply: Reply) -> (next: (
        CreateState,
        CreateStep,
    ))
        ensures
            (next.0, next.1@) == create_step(creator_id, payload.name@, self, reply),
    {
        match (self, reply) {
            (CreateState::Start, Reply::Start) => (
                CreateState::Beginning,
                CreateStep::Ask { request: StoreRequest::Begin },
            ),
            (CreateState::Beginning, Reply::Done) => (
                CreateState::Inserting,
                CreateStep::InsertGroup { name: payload.name.clone() },
            ),
            (CreateState::Inserting, Reply::Group { group_id }) => (
                CreateState::Joining { group_id },
                CreateStep::Ask {
                    request: StoreRequest::AddMembership { user_id: creator_id, group_id },
                },
            ),
            (CreateState::Joining { group_id }, Reply::Done) => (
                CreateState::Committing { group_id },
                CreateStep::Ask { request: StoreRequest::Commit },
            ),
            (CreateState::Joining { group_id }, Reply::Rows { affected }) => (
                CreateState::Committing { group_id },
                CreateStep::Ask { request: StoreRequest::Commit },
            ),
            (CreateState::Committing { group_id }, Reply::Done) => (
                CreateState::Finished,
                CreateStep::Finish { outcome: Ok(Success::Group { group_id }) },
            ),
            _ => (
                CreateState::Finished,
                CreateStep::Finish { outcome: Err(AppError::DatabaseError) },
            ),
        }
    }
}

/// The user that a lookup by name found, or the refusal that answers a
/// lookup that found none.
pub fn user_or_not_found(found: Option<User>) -> (outcome: Result<User, AppError>)
    ensures
        found matches Some(user) ==> outcome == Ok::<User, AppError>(user),
        found is None ==> outcome == Err::<User, AppError>(AppError::UserNotFound),
{
    match found {
        Some(user) => Ok(user),
        None => Err(AppError::UserNotFound),
    }
}

/// The group that a lookup by name found, or the refusal that answers a
/// lookup that found none.
pub fn group_or_not_found(found: Option<Group>) -> (outcome: Result<Group, AppError>)
    ensures
        found matches Some(group) ==> outcome == Ok::<Group, AppError>(group),
        found is None ==> outcome == Err::<Group, AppError>(AppError::GroupNotFound),
{
    match found {
        Some(group) => Ok(group),
        None => Err(AppError::GroupNotFound),
    }
}

/// How many of a group's latest messages its history shows.
pub const HISTORY_LIMIT: usize = 100;

/// Whether a user may read a group's history: members only.
pub fn history_access(member: bool) -> (outcome: Result<(), AppError>)
    ensures
        member ==> outcome == Ok::<(), AppError>(()),
        !member ==> outcome == Err::<(), AppError>(AppError::MissingPermissions),
{
    if member {
        Ok(())
    } else {
        Err(AppError::MissingPermissions)
    }
}

/// Whether none of the messages is one of the server's own.
pub open spec fn user_messages_only(messages: Seq<WsServerMessage>) -> bool {
    forall|i: int| 0 <= i < messages.len() ==> !(#[trigger] messages[i]).system()
}

/// A history shows what the store holds and nothing else: every message
/// of it is one of the rows read, each row is shown once, and where no
/// row is a message of the server's own, the history holds none. The
/// server's own messages never become rows: a departure notice goes to
/// the group's channel and not to the store, and a reader stores under
/// its session's user.
pub proof fn lemma_history_shows_what_is_stored(rows: Seq<WsServerMessage>)
    ensures
        rows.reverse().len() == rows.len(),
        forall|i: int| 0 <= i < rows.len() ==> #[trigger] rows.reverse()[i] == rows[rows.len() - 1 - i],
        user_messages_only(rows) ==> user_messages_only(rows.reverse()),
{
    assert forall|i: int| 0 <= i < rows.len() implies #[trigger] rows.reverse()[i] == rows[rows.len()
        - 1 - i] by {}
    if user_messages_only(rows) {
        assert forall|i: int| 0 <= i < rows.reverse().len() implies !(#[trigger] rows.reverse()[i]).system() by {
            assert(rows.reverse()[i] == rows[rows.len() - 1 - i]);
        }
    }
}

/// Whether every row read for a history is one of the messages that the
/// store keeps: it has the sender and the content of one of them.
pub open spec fn read_from(kept: Seq<StoredMessage>, rows: Seq<WsServerMessage>) -> bool {
    forall|i: int|
        0 <= i < rows.len() ==> exists|k: int|
            0 <= k < kept.len() && (#[trigger] kept[k]).user_id == (#[trigger] rows[i]).sender_id
                && kept[k].content == rows[i].content@
}

/// No system message is found in a group's history: where the store
/// keeps only messages of users, as it does when readers of users'
/// sessions are all that hand it messages, a history read from it holds
/// no message of the server's own, in whatever order it is shown.
pub proof fn lemma_history_holds_no_system_message(kept: Seq<StoredMessage>, rows: Seq<WsServerMessage>)
    requires
        forall|k: int| 0 <= k < kept.len() ==> (#[trigger] kept[k]).user_id != NIL_ID,
        read_from(kept, rows),
    ensures
        user_messages_only(rows),
        user_messages_only(rows.reverse()),
{
    assert forall|i: int| 0 <= i < rows.len() implies !(#[trigger] rows[i]).system() by {
        let k = choose|k: int|
            0 <= k < kept.len() && (#[trigger] kept[k]).user_id == rows[i].sender_id && kept[k].content
                == rows[i].content@;
        assert(kept[k].user_id != NIL_ID);
    }
    lemma_history_shows_what_is_stored(rows);
}

/// Something the service does for a group's members that could bear on
/// what the store keeps of the group's messages.
pub enum Activity {
    /// A connection's reader takes these events for this session.
    Reading { session: SessionView, events: Seq<InboundEventView> },
    /// A user leaves a group and the departure is announced.
    Leaving { user_id: u128, group_id: u128, display_name: Seq<char>, replies: Seq<Reply> },
}

/// The messages that the store keeps after an activity, given those it
/// kept before: a store that does what it is asked and nothing else. A
/// reader adds the messages that the store confirmed to it. A leave adds
/// none: it asks the store about memberships and the group only, and its
/// notice goes to the channel.
pub open spec fn kept_after(kept: Seq<StoredMessage>, activity: Activity) -> Seq<StoredMessage> {
    match activity {
        Activity::Reading { session, events } => kept + messages_kept(
            session,
            events,
            events.len() as int,
        ),
        Activity::Leaving { user_id, group_id, display_name, replies } => kept,
    }
}

/// The messages that the store keeps after a run of activities, starting
/// from none.
pub open spec fn kept_after_all(activities: Seq<Activity>) -> Seq<StoredMessage>
    decreases activities.len(),
{
    if activities.len() == 0 {
        Seq::empty()
    } else {
        kept_after(kept_after_all(activities.drop_last()), activities.last())
    }
}

/// Whether every reader among the activities works for a user: none for
/// the identity that is reserved for the server.
pub open spec fn readers_are_users(activities: Seq<Activity>) -> bool {
    forall|i: int|
        0 <= i < activities.len() ==> ((#[trigger] activities[i]) matches Activity::Reading {
            session,
            events,
        } ==> session.user_id != NIL_ID)
}

/// Whatever users send and however many of them leave, the store keeps
/// messages of users only.
pub proof fn lemma_only_user_messages_kept(activities: Seq<Activity>, k: int)
    requires
        readers_are_users(activities),
        0 <= k < kept_after_all(activities).len(),
    ensures
        kept_after_all(activities)[k].user_id != NIL_ID,
    decreases activities.len(),
{
    if activities.len() > 0 {
        let before = activities.drop_last();
        let kept = kept_after_all(before);
        assert forall|i: int| 0 <= i < before.len() implies ((#[trigger] before[i]) matches Activity::Reading {
            session,
            events,
        } ==> session.user_id != NIL_ID) by {
            assert(before[i] == activities[i]);
        }
        assert(activities.last() == activities[activities.len() - 1]);
        if k < kept.len() {
            lemma_only_user_messages_kept(before, k);
        } else {
            match activities.last() {
                Activity::Reading { session, events } => {
                    lemma_no_system_message_kept(
                        session,
                        events,
                        events.len() as int,
                        k - kept.len(),
                    );
                },
                Activity::Leaving { user_id, group_id, display_name, replies } => {},
            }
        }
    }
}

/// No system message is found in the history, however many departures
/// were announced: whatever users have sent and however many of them have
/// left, a history read from what the store keeps holds no message of the
/// server's own, in whatever order it is shown.
pub proof fn lemma_history_free_of_departure_notices(activities: Seq<Activity>, rows: Seq<WsServerMessage>)
    requires
        readers_are_users(activities),
        read_from(kept_after_all(activities), rows),
    ensures
        user_messages_only(rows),
        user_messages_only(rows.reverse()),
{
    let kept = kept_after_all(activities);
    assert forall|k: int| 0 <= k < kept.len() implies (#[trigger] kept[k]).user_id != NIL_ID by {
        lemma_only_user_messages_kept(activities, k);
    }
    lemma_history_holds_no_system_message(kept, rows);
}

/// Puts messages that were read latest first into the order in which they
/// were sent. Nothing is added and nothing is left out: where the rows
/// hold no message of the server's own, the history holds none.
pub fn chronological(newest_first: Vec<WsServerMessage>) -> (oldest_first: Vec<WsServerMessage>)
    ensures
        oldest_first@ == newest_first@.reverse(),
        user_messages_only(newest_first@) ==> user_messages_only(oldest_first@),
{
    proof {
        lemma_history_shows_what_is_stored(newest_first@);
    }
    let ghost given = newest_first@;
    let mut rest = newest_first;
    let mut oldest_first: Vec<WsServerMessage> = Vec::new();
    while rest.len() > 0
        invariant
            rest@ == given.subrange(0, rest@.len() as int),
            rest@.len() <= given.len(),
            oldest_first@.len() == given.len() - rest@.len(),
            forall|i: int|
                0 <= i < oldest_first@.len() ==> oldest_first@[i] == given[given.len() - 1 - i],
        decreases rest.len(),
    {
        let last = rest.pop();
        match last {
            Some(message) => {
                oldest_first.push(message);
            },
            None => {},
        }
    }
    assert(oldest_first@ =~= given.reverse());
    oldest_first
}

} // verus!
