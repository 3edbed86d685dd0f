//! The records that requests carry and the identity that a token vouches
//! for.

use vstd::prelude::*;

verus! {

/// What a new user sends to register.
#[derive(Debug, PartialEq, Eq)]
pub struct RegisterUserPayload {
    pub username: String,
    pub password: String,
}

/// What a user sends to log in.
#[derive(Debug, PartialEq, Eq)]
pub struct LoginPayload {
    pub username: String,
    pub password: String,
}

/// What a user sends to create a group: the name that the group is
/// stored under.
#[derive(Debug, PartialEq, Eq)]
pub struct CreateGroupPayload {
    pub name: String,
}

/// What a member sends to invite a user into a group.
#[derive(Clone, Copy, Debug, PartialEq, Eq, Structural)]
pub struct InviteToGroupPayload {
    pub user_to_invite_id: u128,
}

/// The identity that a token vouches for: the user, the name to show for
/// them, and the seconds since the epoch between which the token holds.
#[derive(Debug, PartialEq, Eq)]
pub struct Claims {
    pub sub: u128,
    pub exp: i64,
    pub iat: i64,
    pub username: String,
}

/// A registered user as the store holds it. `created_at` counts the
/// nanoseconds since the epoch.
#[derive(Debug, PartialEq, Eq)]
pub struct User {
    pub id: u128,
    pub username: String,
    pub password_hash: String,
    pub created_at: i128,
}

/// A group as the store holds it. `created_at` counts the nanoseconds
/// since the epoch.
#[derive(Debug, PartialEq, Eq)]
pub struct Group {
    pub id: u128,
    pub name: String,
    pub created_at: i128,
}

/// Where an invitation stands.
#[derive(Clone, Copy, Debug, PartialEq, Eq, Structural)]
pub enum InvitationStatus {
    Pending,
    Accepted,
    Declined,
}

/// For how many seconds a token holds after it was issued: one day.
pub const TOKEN_LIFETIME_SECONDS: i64 = 86_400;

/// Whether an invitation that stands at `from` may move to `to`: only a
/// pending one moves, and only to accepted or declined.
pub open spec fn may_become(from: InvitationStatus, to: InvitationStatus) -> bool {
    from == InvitationStatus::Pending && to != InvitationStatus::Pending
}

/// The word the store keeps for a status.
pub open spec fn status_label(status: InvitationStatus) -> Seq<char> {
    match status {
        InvitationStatus::Pending => "pending"@,
        InvitationStatus::Accepted => "accepted"@,
        InvitationStatus::Declined => "declined"@,
    }
}

impl InvitationStatus {
    /// Whether an invitation in this status may move to `to`.
    pub fn can_become(self, to: InvitationStatus) -> (yes: bool)
        ensures
            yes == may_become(self, to),
    {
        match (self, to) {
            (InvitationStatus::Pending, InvitationStatus::Accepted) => true,
            (InvitationStatus::Pending, InvitationStatus::Declined) => true,
            _ => false,
        }
    }

    /// The word the store keeps for the status.
    pub fn label(self) -> (word: &'static str)
        ensures
            word@ == status_label(self),
    {
        match self {
            InvitationStatus::Pending => "pending",
            InvitationStatus::Accepted => "accepted",
            InvitationStatus::Declined => "declined",
        }
    }
}

/// An invitation is handled once: from a status it has moved to, it moves
/// nowhere.
pub proof fn lemma_handled_invitation_is_final(
    from: InvitationStatus,
    to: InvitationStatus,
    again: InvitationStatus,
)
    requires
        may_become(from, to),
    ensures
        !may_become(to, again),
{
}

impl Claims {
    /// The claims of a token issued at `now` for the user `sub`: it holds
    /// for `TOKEN_LIFETIME_SECONDS` from then.
    pub fn issue(sub: u128, username: String, now: i64) -> (claims: Claims)
        requires
            now + TOKEN_LIFETIME_SECONDS <= i64::MAX,
        ensures
            claims.sub == sub,
            claims.username == username,
            claims.iat == now,
            claims.exp == now + TOKEN_LIFETIME_SECONDS,
    {
        Claims { sub, exp: now + TOKEN_LIFETIME_SECONDS, iat: now, username }
    }
}

} // verus!
