//! Invitations: a member invites a user into a group, and the invited
//! user accepts or declines. Accepting makes the user a member in the same
//! transaction that marks the invitation.

use vstd::prelude::*;
use crate::error::AppError;
use crate::models::{InvitationStatus, InviteToGroupPayload};
use crate::machine::{lemma_run_at, run, state_at};
use crate::store::{store_error, Reply, Step, StoreFailure, StoreRequest, Success};

verus! {

/// What is asked for when a member invites a user.
#[derive(Clone, Copy, Debug, PartialEq, Eq, Structural)]
pub struct Invite {
    pub group_id: u128,
    pub inviter_id: u128,
    pub invited_user_id: u128,
}

impl Invite {
    /// The invite that the member `inviter_id` asks for with `payload`,
    /// into the group `group_id`.
    pub fn new(group_id: u128, inviter_id: u128, payload: InviteToGroupPayload) -> (invite: Invite)
        ensures
            invite == (Invite {
                group_id,
                inviter_id,
                invited_user_id: payload.user_to_invite_id,
            }),
    {
        Invite { group_id, inviter_id, invited_user_id: payload.user_to_invite_id }
    }
}

/// Where an invite stands.
#[derive(Clone, Copy, Debug, PartialEq, Eq, Structural)]
pub enum InviteState {
    /// Not begun.
    Start,
    /// Waiting for the transaction to open.
    Beginning,
    /// Waiting to hear whether the inviter is a member.
    CheckingInviter,
    /// Waiting to hear whether the invited user is a member already.
    CheckingInvited,
    /// Waiting for the invitation to be inserted.
    Inserting,
    /// Waiting for the commit.
    Committing,
    /// Over.
    Finished,
}

/// How an invite ends when the store refuses to insert the invitation.
pub open spec fn insert_refusal(failure: StoreFailure) -> AppError {
    match failure {
        StoreFailure::UniqueViolation => AppError::InvitationAlreadyExists,
        StoreFailure::ForeignKeyViolation => AppError::UserOrGroupNotFound,
        StoreFailure::Other => AppError::DatabaseError,
    }
}

/// The next state and step of an invite.
///
/// Nobody invites themselves: such an invite ends before the store is
/// asked anything. Otherwise, in one transaction, the inviter must be a
/// member of the group and the invited user must not be one; then the
/// pending invitation is inserted and the transaction committed. An
/// invitation that exists already and a user or group that does not exist
/// are told apart from other refusals of the insert. Any other refusal by
/// the store ends the invite with a store error, and so does a reply that
/// does not answer the last step.
pub open spec fn invite_step(invite: Invite, state: InviteState, reply: Reply) -> (InviteState, Step) {
    match (state, reply) {
        (InviteState::Start, Reply::Start) => if invite.inviter_id == invite.invited_user_id {
            (InviteState::Finished, Step::Finish { outcome: Err(AppError::CannotInviteSelf) })
        } else {
            (InviteState::Beginning, Step::Ask { request: StoreRequest::Begin })
        },
        (InviteState::Beginning, Reply::Done) => (
            InviteState::CheckingInviter,
            Step::Ask {
                request: StoreRequest::IsMember {
                    user_id: invite.inviter_id,
                    group_id: invite.group_id,
                },
            },
        ),
        (InviteState::CheckingInviter, Reply::Flag { yes }) => if yes {
            (
                InviteState::CheckingInvited,
                Step::Ask {
                    request: StoreRequest::IsMember {
                        user_id: invite.invited_user_id,
                        group_id: invite.group_id,
                    },
                },
            )
        } else {
            (InviteState::Finished, Step::Finish { outcome: Err(AppError::MissingPermissions) })
        },
        (InviteState::CheckingInvited, Reply::Flag { yes }) => if yes {
            (InviteState::Finished, Step::Finish { outcome: Err(AppError::UserAlreadyInGroup) })
        } else {
            (
                InviteState::Inserting,
                Step::Ask {
                    request: StoreRequest::InsertInvitation {
                        group_id: invite.group_id,
                        inviter_id: invite.inviter_id,
                        invited_user_id: invite.invited_user_id,
                    },
                },
            )
        },
        (InviteState::Inserting, Reply::Done) => (
            InviteState::Committing,
            Step::Ask { request: StoreRequest::Commit },
        ),
        (InviteState::Inserting, Reply::Rows { affected }) => (
            InviteState::Committing,
            Step::Ask { request: StoreRequest::Commit },
        ),
        (InviteState::Inserting, Reply::Failed { failure }) => (
            InviteState::Finished,
            Step::Finish { outcome: Err(insert_refusal(failure)) },
        ),
        (InviteState::Committing, Reply::Done) => (
            InviteState::Finished,
            Step::Finish { outcome: Ok(Success::Created) },
        ),
        _ => (InviteState::Finished, Step::Finish { outcome: store_error() }),
    }
}

/// An invite as a machine.
pub open spec fn invite_machine(invite: Invite) -> spec_fn(InviteState, Reply) -> (InviteState, Step) {
    |state: InviteState, reply: Reply| invite_step(invite, state, reply)
}

/// The steps of an invite from its start, one per reply.
pub open spec fn invite_run(invite: Invite, replies: Seq<Reply>) -> Seq<Step> {
    run(invite_machine(invite), InviteState::Start, replies)
}

/// An invitation comes from a member and goes to someone who is none:
/// whatever the store replies, an invite ends well only as its sixth
/// step, when the inviter is not the invited user, the store has said
/// that the inviter is a member of the group and the invited user is not,
/// has inserted the invitation and has confirmed the commit.
pub proof fn lemma_invited_by_member_only(invite: Invite, replies: Seq<Reply>, i: int)
    requires
        0 <= i < replies.len(),
        invite_run(invite, replies)[i] matches Step::Finish { outcome: Ok(success) },
    ensures
        i == 5,
        invite.inviter_id != invite.invited_user_id,
        invite_run(invite, replies)[1] == (Step::Ask {
            request: StoreRequest::IsMember {
                user_id: invite.inviter_id,
                group_id: invite.group_id,
            },
        }),
        replies[2] == (Reply::Flag { yes: true }),
        invite_run(invite, replies)[2] == (Step::Ask {
            request: StoreRequest::IsMember {
                user_id: invite.invited_user_id,
                group_id: invite.group_id,
            },
        }),
        replies[3] == (Reply::Flag { yes: false }),
        invite_run(invite, replies)[3] == (Step::Ask {
            request: StoreRequest::InsertInvitation {
                group_id: invite.group_id,
                inviter_id: invite.inviter_id,
                invited_user_id: invite.invited_user_id,
            },
        }),
        replies[4] is Done || replies[4] is Rows,
        invite_run(invite, replies)[4] == (Step::Ask { request: StoreRequest::Commit }),
        replies[5] == Reply::Done,
        invite_run(invite, replies)[5] == (Step::Finish { outcome: Ok(Success::Created) }),
{
    let machine = invite_machine(invite);
    let start = InviteState::Start;
    lemma_run_at(machine, start, replies, i);
    let s5 = state_at(machine, start, replies, i);
    assert(s5 is Committing);
    assert(i > 0);
    let s4 = state_at(machine, start, replies, i - 1);
    assert(s5 == machine(s4, replies[i - 1]).0);
    lemma_run_at(machine, start, replies, i - 1);
    assert(s4 is Inserting);
    assert(i > 1);
    let s3 = state_at(machine, start, replies, i - 2);
    assert(s4 == machine(s3, replies[i - 2]).0);
    lemma_run_at(machine, start, replies, i - 2);
    assert(s3 is CheckingInvited);
    assert(i > 2);
    let s2 = state_at(machine, start, replies, i - 3);
    assert(s3 == machine(s2, replies[i - 3]).0);
    lemma_run_at(machine, start, replies, i - 3);
    assert(s2 is CheckingInviter);
    assert(i > 3);
    let s1 = state_at(machine, start, replies, i - 4);
    assert(s2 == machine(s1, replies[i - 4]).0);
    lemma_run_at(machine, start, replies, i - 4);
    assert(s1 is Beginning);
    assert(i > 4);
    let s0 = state_at(machine, start, replies, i - 5);
    assert(s1 == machine(s0, replies[i - 5]).0);
    assert(s0 is Start);
    if i > 5 {
        let before = state_at(machine, start, replies, i - 6);
        assert(s0 == machine(before, replies[i - 6]).0);
    }
}

/// How an invite ends when the store refuses to insert the invitation.
pub fn refused_insert(failure: StoreFailure) -> (error: AppError)
    ensures
        error == insert_refusal(failure),
{
    match failure {
        StoreFailure::UniqueViolation => AppError::InvitationAlreadyExists,
        StoreFailure::ForeignKeyViolation => AppError::UserOrGroupNotFound,
        StoreFailure::Other => AppError::DatabaseError,
    }
}

impl InviteState {
    /// Takes a reply and says what to do next.
    pub fn step(self, invite: Invite, reply: Reply) -> (next: (InviteState, Step))
        ensures
            next == invite_step(invite, self, reply),
    {
        match (self, reply) {
            (InviteState::Start, Reply::Start) => if invite.inviter_id == invite.invited_user_id {
                (InviteState::Finished, Step::Finish { outcome: Err(AppError::CannotInviteSelf) })
            } else {
                (InviteState::Beginning, Step::Ask { request: StoreRequest::Begin })
            },
            (InviteState::Beginning, Reply::Done) => (
                InviteState::CheckingInviter,
                Step::Ask {
                    request: StoreRequest::IsMember {
                        user_id: invite.inviter_id,
                        group_id: invite.group_id,
                    },
                },
            ),
            (InviteState::CheckingInviter, Reply::Flag { yes }) => if yes {
                (
                    InviteState::CheckingInvited,
                    Step::Ask {
                        request: StoreRequest::IsMember {
                            user_id: invite.invited_user_id,
                            group_id: invite.group_id,
                        },
                    },
                )
            } else {
                (
                    InviteState::Finished,
                    Step::Finish { outcome: Err(AppError::MissingPermissions) },
                )
            },
            (InviteState::CheckingInvited, Reply::Flag { yes }) => if yes {
                (
                    InviteState::Finished,
                    Step::Finish { outcome: Err(AppError::UserAlreadyInGroup) },
                )
            } else {
                (
                    InviteState::Inserting,
                    Step::Ask {
                        request: StoreRequest::InsertInvitation {
                            group_id: invite.group_id,
                            inviter_id: invite.inviter_id,
                            invited_user_id: invite.invited_user_id,
                        },
                    },
                )
            },
            (InviteState::Inserting, Reply::Done) => (
                InviteState::Committing,
                Step::Ask { request: StoreRequest::Commit },
            ),
            (InviteState::Inserting, Reply::Rows { affected }) => (
                InviteState::Committing,
                Step::Ask { request: StoreRequest::Commit },
            ),
            (InviteState::Inserting, Reply::Failed { failure }) => (
                InviteState::Finished,
                Step::Finish { outcome: Err(refused_insert(failure)) },
            ),
            (InviteState::Committing, Reply::Done) => (
                InviteState::Finished,
                Step::Finish { outcome: Ok(Success::Created) },
            ),
            _ => (InviteState::Finished, Step::Finish { outcome: Err(AppError::DatabaseError) }),
        }
    }
}

/// Where the acceptance of an invitation stands.
#[derive(Clone, Copy, Debug, PartialEq, Eq, Structural)]
pub enum AcceptState {
    /// Not begun.
    Start,
    /// Waiting for the transaction to open.
    Beginning,
    /// Waiting for the pending invitation to be found.
    Finding,
    /// Waiting for the invitation into this group to be marked accepted.
    Marking { group_id: u128 },
    /// Waiting for the membership in this group to be added.
    Joining { group_id: u128 },
    /// Waiting for this group to be read.
    Fetching { group_id: u128 },
    /// Waiting for the commit; the answer will show this group.
    Committing { group_id: u128 },
    /// Over.
    Finished,
}

/// The next state and step of the acceptance of the invitation
/// `invitation_id` by `user_id`.
///
/// In one transaction the invitation is looked up, which must be pending
/// and meant for this user; it is marked accepted, the user becomes a
/// member of its group, and the group is read for the answer. Only the
/// commit makes any of it permanent. A refusal by the store ends the
/// acceptance with a store error, and so does a reply that does not
/// answer the last step.
pub open spec fn accept_step(invitation_id: u128, user_id: u128, state: AcceptState, reply: Reply) -> (
    AcceptState,
    Step,
) {
    match (state, reply) {
        (AcceptState::Start, Reply::Start) => (
            AcceptState::Beginning,
            Step::Ask { request: StoreRequest::Begin },
        ),
        (AcceptState::Beginning, Reply::Done) => (
            AcceptState::Finding,
            Step::Ask { request: StoreRequest::FindPendingInvitation { invitation_id, user_id } },
        ),
        (AcceptState::Finding, Reply::Invitation { group: Some(group_id) }) => (
            AcceptState::Marking { group_id },
            Step::Ask {
                request: StoreRequest::SetInvitationStatus {
                    invitation_id,
                    status: InvitationStatus::Accepted,
                },
            },
        ),
        (AcceptState::Finding, Reply::Invitation { group: None }) => (
            AcceptState::Finished,
            Step::Finish { outcome: Err(AppError::InvitationNotFound) },
        ),
        (AcceptState::Marking { group_id }, Reply::Done) => (
            AcceptState::Joining { group_id },
            Step::Ask { request: StoreRequest::AddMembership { user_id, group_id } },
        ),
        (AcceptState::Marking { group_id }, Reply::Rows { affected }) => (
            AcceptState::Joining { group_id },
            Step::Ask { request: StoreRequest::AddMembership { user_id, group_id } },
        ),
        (AcceptState::Joining { group_id }, Reply::Done) => (
            AcceptState::Fetching { group_id },
            Step::Ask { request: StoreRequest::FetchGroup { group_id } },
        ),
        (AcceptState::Joining { group_id }, Reply::Rows { affected }) => (
            AcceptState::Fetching { group_id },
            Step::Ask { request: StoreRequest::FetchGroup { group_id } },
        ),
        (AcceptState::Fetching { group_id }, Reply::Group { group_id: fetched }) => (
            AcceptState::Committing { group_id: fetched },
            Step::Ask { request: StoreRequest::Commit },
        ),
        (AcceptState::Committing { group_id }, Reply::Done) => (
            AcceptState::Finished,
            Step::Finish { outcome: Ok(Success::Group { group_id }) },
        ),
        _ => (AcceptState::Finished, Step::Finish { outcome: store_error() }),
    }
}

/// The acceptance of the invitation `invitation_id` by `user_id` as a
/// machine.
pub open spec fn accept_machine(invitation_id: u128, user_id: u128) -> spec_fn(AcceptState, Reply) -> (
    AcceptState,
    Step,
) {
    |state: AcceptState, reply: Reply| accept_step(invitation_id, user_id, state, reply)
}

/// The steps of an acceptance from its start, one per reply.
pub open spec fn accept_run(invitation_id: u128, user_id: u128, replies: Seq<Reply>) -> Seq<Step> {
    run(accept_machine(invitation_id, user_id), AcceptState::Start, replies)
}

/// Accepting and joining are one: whatever the store replies, an
/// acceptance ends well only as its seventh step, when the store has
/// found the pending invitation, marked it accepted, made the user a
/// member of the invitation's group, read a group for the answer and
/// confirmed the commit.
pub proof fn lemma_accepted_means_joined(invitation_id: u128, user_id: u128, replies: Seq<Reply>, i: int)
    requires
        0 <= i < replies.len(),
        accept_run(invitation_id, user_id, replies)[i] matches Step::Finish { outcome: Ok(success) },
    ensures
        i == 6,
        replies[2] matches Reply::Invitation { group: Some(group_id) },
        accept_run(invitation_id, user_id, replies)[2] == (Step::Ask {
            request: StoreRequest::SetInvitationStatus {
                invitation_id,
                status: InvitationStatus::Accepted,
            },
        }),
        accept_run(invitation_id, user_id, replies)[3] == (Step::Ask {
            request: StoreRequest::AddMembership {
                user_id,
                group_id: replies[2]->Invitation_group->0,
            },
        }),
        replies[5] is Group,
        accept_run(invitation_id, user_id, replies)[5] == (Step::Ask {
            request: StoreRequest::Commit,
        }),
        replies[6] == Reply::Done,
        accept_run(invitation_id, user_id, replies)[6] == (Step::Finish {
            outcome: Ok(Success::Group { group_id: replies[5]->Group_group_id }),
        }),
{
    let machine = accept_machine(invitation_id, user_id);
    let start = AcceptState::Start;
    lemma_run_at(machine, start, replies, i);
    let s6 = state_at(machine, start, replies, i);
    assert(s6 is Committing);
    assert(i > 0);
    let s5 = state_at(machine, start, replies, i - 1);
    assert(s6 == machine(s5, replies[i - 1]).0);
    lemma_run_at(machine, start, replies, i - 1);
    assert(s5 is Fetching);
    assert(i > 1);
    let s4 = state_at(machine, start, replies, i - 2);
    assert(s5 == machine(s4, replies[i - 2]).0);
    lemma_run_at(machine, start, replies, i - 2);
    assert(s4 is Joining);
    assert(i > 2);
    let s3 = state_at(machine, start, replies, i - 3);
    assert(s4 == machine(s3, replies[i - 3]).0);
    lemma_run_at(machine, start, replies, i - 3);
    assert(s3 is Marking);
    assert(i > 3);
    let s2 = state_at(machine, start, replies, i - 4);
    assert(s3 == machine(s2, replies[i - 4]).0);
    lemma_run_at(machine, start, replies, i - 4);
    assert(s2 is Finding);
    assert(i > 4);
    let s1 = state_at(machine, start, replies, i - 5);
    assert(s2 == machine(s1, replies[i - 5]).0);
    assert(s1 is Beginning);
    assert(i > 5);
    let s0 = state_at(machine, start, replies, i - 6);
    assert(s1 == machine(s0, replies[i - 6]).0);
    assert(s0 is Start);
    if i > 6 {
        let before = state_at(machine, start, replies, i - 7);
        assert(s0 == machine(before, replies[i - 7]).0);
    }
}

impl AcceptState {
    /// Takes a reply and says what to do next.
    pub fn step(self, invitation_id: u128, user_id: u128, reply: Reply) -> (next: (AcceptState, Step))
        ensures
            next == accept_step(invitation_id, user_id, self, reply),
    {
        match (self, reply) {
            (AcceptState::Start, Reply::Start) => (
                AcceptState::Beginning,
                Step::Ask { request: StoreRequest::Begin },
            ),
            (AcceptState::Beginning, Reply::Done) => (
                AcceptState::Finding,
                Step::Ask {
                    request: StoreRequest::FindPendingInvitation { invitation_id, user_id },
                },
            ),
            (AcceptState::Finding, Reply::Invitation { group: Some(group_id) }) => (
                AcceptState::Marking { group_id },
                Step::Ask {
                    request: StoreRequest::SetInvitationStatus {
                        invitation_id,
                        status: InvitationStatus::Accepted,
                    },
                },
            ),
            (AcceptState::Finding, Reply::Invitation { group: None }) => (
                AcceptState::Finished,
                Step::Finish { outcome: Err(AppError::InvitationNotFound) },
            ),
            (AcceptState::Marking { group_id }, Reply::Done) => (
                AcceptState::Joining { group_id },
                Step::Ask { request: StoreRequest::AddMembership { user_id, group_id } },
            ),
            (AcceptState::Marking { group_id }, Reply::Rows { affected }) => (
                AcceptState::Joining { group_id },
                Step::Ask { request: StoreRequest::AddMembership { user_id, group_id } },
            ),
            (AcceptState::Joining { group_id }, Reply::Done) => (
                AcceptState::Fetching { group_id },
                Step::Ask { request: StoreRequest::FetchGroup { group_id } },
            ),
            (AcceptState::Joining { group_id }, Reply::Rows { affected }) => (
                AcceptState::Fetching { group_id },
                Step::Ask { request: StoreRequest::FetchGroup { group_id } },
            ),
            (AcceptState::Fetching { group_id }, Reply::Group { group_id: fetched }) => (
                AcceptState::Committing { group_id: fetched },
                Step::Ask { request: StoreRequest::Commit },
            ),
            (AcceptState::Committing { group_id }, Reply::Done) => (
                AcceptState::Finished,
                Step::Finish { outcome: Ok(Success::Group { group_id }) },
            ),
            _ => (AcceptState::Finished, Step::Finish { outcome: Err(AppError::DatabaseError) }),
        }
    }
}

/// Where the declining of an invitation stands.
#[derive(Clone, Copy, Debug, PartialEq, Eq, Structural)]
pub enum DeclineState {
    /// Not begun.
    Start,
    /// Waiting for the pending invitation to be marked declined.
    Marking,
    /// Over.
    Finished,
}

/// The next state and step of the declining of the invitation
/// `invitation_id` by `user_id`.
///
/// One statement marks the invitation declined if it is pending and meant
/// for this user. If it changed no row there was no such invitation. A
/// refusal by the store ends the declining with a store error, and so does
/// a reply that does not answer the last step.
pub open spec fn decline_step(invitation_id: u128, user_id: u128, state: DeclineState, reply: Reply) -> (
    DeclineState,
    Step,
) {
    match (state, reply) {
        (DeclineState::Start, Reply::Start) => (
            DeclineState::Marking,
            Step::Ask {
                request: StoreRequest::ResolvePendingInvitation {
                    invitation_id,
                    user_id,
                    status: InvitationStatus::Declined,
                },
            },
        ),
        (DeclineState::Marking, Reply::Rows { affected }) => (
            DeclineState::Finished,
            Step::Finish {
                outcome: if affected == 0 {
                    Err(AppError::InvitationNotFound)
                } else {
                    Ok(Success::NoContent)
                },
            },
        ),
        _ => (DeclineState::Finished, Step::Finish { outcome: store_error() }),
    }
}

impl DeclineState {
    /// Takes a reply and says what to do next.
    pub fn step(self, invitation_id: u128, user_id: u128, reply: Reply) -> (next: (DeclineState, Step))
        ensures
            next == decline_step(invitation_id, user_id, self, reply),
    {
        match (self, reply) {
            (DeclineState::Start, Reply::Start) => (
                DeclineState::Marking,
                Step::Ask {
                    request: StoreRequest::ResolvePendingInvitation {
                        invitation_id,
                        user_id,
                        status: InvitationStatus::Declined,
                    },
                },
            ),
            (DeclineState::Marking, Reply::Rows { affected }) => {
                if affected == 0 {
                    (
                        DeclineState::Finished,
                        Step::Finish { outcome: Err(AppError::InvitationNotFound) },
                    )
                } else {
                    (DeclineState::Finished, Step::Finish { outcome: Ok(Success::NoContent) })
                }
            },
            _ => (DeclineState::Finished, Step::Finish { outcome: Err(AppError::DatabaseError) }),
        }
    }
}

} // verus!
