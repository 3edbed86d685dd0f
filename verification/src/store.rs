//! The conversation with the relational store: what the lifecycle
//! operations ask of it and what it answers. The store itself is outside;
//! the operations only decide what to ask next.

use vstd::prelude::*;
use crate::error::AppError;
use crate::models::InvitationStatus;

verus! {

/// Why the store refused a statement, as far as the operations tell
/// refusals apart.
#[derive(Clone, Copy, Debug, PartialEq, Eq, Structural)]
pub enum StoreFailure {
    /// A row like the new one exists already.
    UniqueViolation,
    /// The new row points to a row that does not exist.
    ForeignKeyViolation,
    /// Anything else.
    Other,
}

/// One thing to ask of the store.
#[derive(Clone, Copy, Debug, PartialEq, Eq, Structural)]
pub enum StoreRequest {
    /// Open a transaction; what follows runs in it until `Commit`.
    Begin,
    /// Make what was done since `Begin` permanent.
    Commit,
    /// Delete the membership; answer with the rows deleted.
    RemoveMembership { user_id: u128, group_id: u128 },
    /// Count the members of the group.
    CountMembers { group_id: u128 },
    /// Say whether the user is a member of the group.
    IsMember { user_id: u128, group_id: u128 },
    /// Add the user to the group; a membership that exists stays.
    AddMembership { user_id: u128, group_id: u128 },
    /// Read the group; answer with it.
    FetchGroup { group_id: u128 },
    /// Delete the group and what hangs on it.
    DeleteGroup { group_id: u128 },
    /// Insert a pending invitation.
    InsertInvitation { group_id: u128, inviter_id: u128, invited_user_id: u128 },
    /// Find the pending invitation with this number for this user; answer
    /// with its group.
    FindPendingInvitation { invitation_id: u128, user_id: u128 },
    /// Set the status of the invitation with this number.
    SetInvitationStatus { invitation_id: u128, status: InvitationStatus },
    /// Set the status of the pending invitation with this number for this
    /// user; answer with the rows changed.
    ResolvePendingInvitation { invitation_id: u128, user_id: u128, status: InvitationStatus },
}

/// What came back since an operation last said what to do.
#[derive(Clone, Copy, Debug, PartialEq, Eq, Structural)]
pub enum Reply {
    /// Nothing yet: the operation starts.
    Start,
    /// The statement ran.
    Done,
    /// The statement ran and touched this many rows.
    Rows { affected: u64 },
    /// The count asked for.
    Count { members: i64 },
    /// The answer to a yes-or-no question.
    Flag { yes: bool },
    /// The group of the invitation asked for, if there is such an
    /// invitation.
    Invitation { group: Option<u128> },
    /// The group asked for or inserted.
    Group { group_id: u128 },
    /// The departure notice that a leave handed out went to the group's
    /// channel, if it has one.
    Announced,
    /// The store refused.
    Failed { failure: StoreFailure },
}

/// How an operation ends well.
#[derive(Clone, Copy, Debug, PartialEq, Eq, Structural)]
pub enum Success {
    /// Done, with nothing to show.
    NoContent,
    /// Done, something new exists.
    Created,
    /// Done; the answer shows this group.
    Group { group_id: u128 },
}

/// The HTTP status that answers an operation that ended well.
pub open spec fn success_status(success: Success) -> u16 {
    match success {
        Success::NoContent => 204,
        Success::Created => 201,
        Success::Group { group_id } => 200,
    }
}

impl Success {
    /// The HTTP status that answers the operation.
    pub fn status_code(self) -> (status: u16)
        ensures
            status == success_status(self),
    {
        match self {
            Success::NoContent => 204,
            Success::Created => 201,
            Success::Group { group_id } => 200,
        }
    }
}

/// What an operation wants next.
#[derive(Debug, PartialEq, Eq)]
pub enum Step {
    /// Ask the store; come back with its reply.
    Ask { request: StoreRequest },
    /// The operation is over. Where it failed, a transaction that is still
    /// open is abandoned, and nothing it did remains.
    Finish { outcome: Result<Success, AppError> },
}

/// The failure of a statement that hit no rule the operations know of.
pub open spec fn store_error() -> Result<Success, AppError> {
    Err(AppError::DatabaseError)
}

} // verus!
