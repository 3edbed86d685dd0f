//! The life of one connection: who is let in, and in which order a
//! connection that ends is taken apart.

use vstd::prelude::*;
use crate::error::{message_of, status_of, AppError};
use crate::machine::{lemma_run_at, run, state_at};
use crate::models::Claims;

verus! {

/// Why a connection request is turned down.
#[derive(Clone, Copy, Debug, PartialEq, Eq, Structural)]
pub enum Rejection {
    /// The request carried no token.
    MissingToken,
    /// The authenticator did not accept the token.
    InvalidToken,
    /// The user is not a member of the group.
    NotAMember,
}

/// The HTTP status that answers a rejected request.
pub open spec fn rejection_status(rejection: Rejection) -> u16 {
    match rejection {
        Rejection::MissingToken => 401,
        Rejection::InvalidToken => 401,
        Rejection::NotAMember => status_of(AppError::MissingPermissions),
    }
}

/// The text that answers a rejected request.
pub open spec fn rejection_reason(rejection: Rejection) -> Seq<char> {
    match rejection {
        Rejection::MissingToken => "Missing token"@,
        Rejection::InvalidToken => "Invalid token"@,
        Rejection::NotAMember => message_of(AppError::MissingPermissions),
    }
}

impl Rejection {
    /// The HTTP status that answers the request.
    pub fn status_code(self) -> (status: u16)
        ensures
            status == rejection_status(self),
    {
        match self {
            Rejection::MissingToken => 401,
            Rejection::InvalidToken => 401,
            Rejection::NotAMember => AppError::MissingPermissions.status_code(),
        }
    }

    /// The text that answers the request.
    pub fn reason(self) -> (text: String)
        ensures
            text@ == rejection_reason(self),
    {
        match self {
            Rejection::MissingToken => String::from_str("Missing token"),
            Rejection::InvalidToken => String::from_str("Invalid token"),
            Rejection::NotAMember => AppError::MissingPermissions.message(),
        }
    }
}

/// `Claims` as the contracts see them: text as a sequence of characters.
pub struct ClaimsView {
    pub sub: u128,
    pub exp: i64,
    pub iat: i64,
    pub username: Seq<char>,
}

impl View for Claims {
    type V = ClaimsView;

    open spec fn view(&self) -> ClaimsView {
        ClaimsView { sub: self.sub, exp: self.exp, iat: self.iat, username: self.username@ }
    }
}

/// What happened since the handshake last said what to do.
#[derive(Debug, PartialEq, Eq)]
pub enum HandshakeEvent {
    /// The request arrived, with the token of its query if it has one.
    Request { token: Option<String> },
    /// The authenticator has looked at the token: the claims it vouches
    /// for, or nothing if it is invalid or expired.
    Verdict { claims: Option<Claims> },
    /// The store has said whether the user is a member of the group.
    Membership { member: bool },
}

/// A `HandshakeEvent` as the contracts see it: text as a sequence of characters.
pub enum HandshakeEventView {
    Request { token: Option<Seq<char>> },
    Verdict { claims: Option<ClaimsView> },
    Membership { member: bool },
}

impl View for HandshakeEvent {
    type V = HandshakeEventView;

    open spec fn view(&self) -> HandshakeEventView {
        match self {
            HandshakeEvent::Request { token } => HandshakeEventView::Request {
                token: match token {
                    Some(text) => Some(text@),
                    None => None,
                },
            },
            HandshakeEvent::Verdict { claims } => HandshakeEventView::Verdict {
                claims: match claims {
                    Some(claims) => Some(claims@),
                    None => None,
                },
            },
            HandshakeEvent::Membership { member } => HandshakeEventView::Membership {
                member: *member,
            },
        }
    }
}

/// What the handshake asks to be done next.
#[derive(Debug, PartialEq, Eq)]
pub enum HandshakeAction {
    /// Have the authenticator check the token; report its `Verdict`.
    Validate { token: String },
    /// Ask the store whether the user belongs to the group; report the
    /// `Membership`.
    CheckMembership { user_id: u128, group_id: u128 },
    /// Let the connection in, for the user that the claims name.
    Admit { claims: Claims },
    /// Turn the request down.
    Refuse { rejection: Rejection },
}

/// A `HandshakeAction` as the contracts see it: text as a sequence of characters.
pub enum HandshakeActionView {
    Validate { token: Seq<char> },
    CheckMembership { user_id: u128, group_id: u128 },
    Admit { claims: ClaimsView },
    Refuse { rejection: Rejection },
}

impl View for HandshakeAction {
    type V = HandshakeActionView;

    open spec fn view(&self) -> HandshakeActionView {
        match self {
            HandshakeAction::Validate { token } => HandshakeActionView::Validate { token: token@ },
            HandshakeAction::CheckMembership { user_id, group_id } => {
                HandshakeActionView::CheckMembership { user_id: *user_id, group_id: *group_id }
            },
            HandshakeAction::Admit { claims } => HandshakeActionView::Admit { claims: claims@ },
            HandshakeAction::Refuse { rejection } => HandshakeActionView::Refuse {
                rejection: *rejection,
            },
        }
    }
}

/// Where a handshake stands.
#[derive(Debug, PartialEq, Eq)]
pub enum HandshakeState {
    /// Nothing has been looked at yet.
    Arrived,
    /// The token is with the authenticator.
    Validating,
    /// The token holds; the store is asked about the membership.
    Admitting { claims: Claims },
    /// The handshake is over, one way or the other.
    Settled,
}

/// A `HandshakeState` as the contracts see it: text as a sequence of characters.
pub enum HandshakeStateView {
    Arrived,
    Validating,
    Admitting { claims: ClaimsView },
    Settled,
}

impl View for HandshakeState {
    type V = HandshakeStateView;

    open spec fn view(&self) -> HandshakeStateView {
        match self {
            HandshakeState::Arrived => HandshakeStateView::Arrived,
            HandshakeState::Validating => HandshakeStateView::Validating,
            HandshakeState::Admitting { claims } => HandshakeStateView::Admitting {
                claims: claims@,
            },
            HandshakeState::Settled => HandshakeStateView::Settled,
        }
    }
}

/// The next state and action of the handshake for a connection to
/// `group_id`.
///
/// A request without a token is refused; a token goes to the
/// authenticator. A token that does not hold is refused; for one that
/// holds the store is asked whether its user belongs to the group. A
/// member is admitted, anyone else refused. An event that does not answer
/// the last action is refused as an invalid token.
pub open spec fn handshake_step(group_id: u128, state: HandshakeStateView, event: HandshakeEventView) -> (
    HandshakeStateView,
    HandshakeActionView,
) {
    match (state, event) {
        (HandshakeStateView::Arrived, HandshakeEventView::Request { token: Some(token) }) => (
            HandshakeStateView::Validating,
            HandshakeActionView::Validate { token },
        ),
        (HandshakeStateView::Arrived, HandshakeEventView::Request { token: None }) => (
            HandshakeStateView::Settled,
            HandshakeActionView::Refuse { rejection: Rejection::MissingToken },
        ),
        (HandshakeStateView::Validating, HandshakeEventView::Verdict { claims: Some(claims) }) => (
            HandshakeStateView::Admitting { claims },
            HandshakeActionView::CheckMembership { user_id: claims.sub, group_id },
        ),
        (HandshakeStateView::Admitting { claims }, HandshakeEventView::Membership { member }) => (
            HandshakeStateView::Settled,
            if member {
                HandshakeActionView::Admit { claims }
            } else {
                HandshakeActionView::Refuse { rejection: Rejection::NotAMember }
            },
        ),
        _ => (
            HandshakeStateView::Settled,
            HandshakeActionView::Refuse { rejection: Rejection::InvalidToken },
        ),
    }
}

/// The handshake for a connection to `group_id` as a machine.
pub open spec fn handshake_machine(group_id: u128) -> spec_fn(
    HandshakeStateView,
    HandshakeEventView,
) -> (HandshakeStateView, HandshakeActionView) {
    |state: HandshakeStateView, event: HandshakeEventView| handshake_step(group_id, state, event)
}

/// The actions a handshake asks for from its start, one per event.
pub open spec fn handshake_run(group_id: u128, events: Seq<HandshakeEventView>) -> Seq<HandshakeActionView> {
    run(handshake_machine(group_id), HandshakeStateView::Arrived, events)
}

/// Nobody is let in unchecked: whatever arrives, in whatever order, a
/// handshake admits only as its third action, after the request carried
/// a token, the authenticator vouched for the claims it admits, and the
/// store confirmed that their user is a member of this group.
pub proof fn lemma_admitted_only_after_checks(group_id: u128, events: Seq<HandshakeEventView>, i: int)
    requires
        0 <= i < events.len(),
        handshake_run(group_id, events)[i] is Admit,
    ensures
        i == 2,
        events[0] is Request && events[0]->Request_token is Some,
        handshake_run(group_id, events)[0] == (HandshakeActionView::Validate {
            token: events[0]->Request_token->0,
        }),
        events[1] == (HandshakeEventView::Verdict {
            claims: Some(handshake_run(group_id, events)[2]->Admit_claims),
        }),
        handshake_run(group_id, events)[1] == (HandshakeActionView::CheckMembership {
            user_id: handshake_run(group_id, events)[2]->Admit_claims.sub,
            group_id,
        }),
        events[2] == (HandshakeEventView::Membership { member: true }),
{
    let machine = handshake_machine(group_id);
    let start = HandshakeStateView::Arrived;
    lemma_run_at(machine, start, events, i);
    let admitting = state_at(machine, start, events, i);
    assert(admitting is Admitting);
    assert(i > 0);
    let validating = state_at(machine, start, events, i - 1);
    assert(admitting == machine(validating, events[i - 1]).0);
    lemma_run_at(machine, start, events, i - 1);
    assert(validating is Validating);
    assert(i > 1);
    let arrived = state_at(machine, start, events, i - 2);
    assert(validating == machine(arrived, events[i - 2]).0);
    lemma_run_at(machine, start, events, i - 2);
    assert(arrived is Arrived);
    if i > 2 {
        let before = state_at(machine, start, events, i - 3);
        assert(arrived == machine(before, events[i - 3]).0);
    }
}

impl HandshakeState {
    /// The state a handshake starts in.
    pub fn start() -> (state: HandshakeState)
        ensures
            state@ == HandshakeStateView::Arrived,
    {
        HandshakeState::Arrived
    }

    /// Takes an event and says what to do next.
    pub fn step(self, group_id: u128, event: HandshakeEvent) -> (next: (HandshakeState, HandshakeAction))
        ensures
            (next.0@, next.1@) == handshake_step(group_id, self@, event@),
    {
        match (self, event) {
            (HandshakeState::Arrived, HandshakeEvent::Request { token: Some(token) }) => (
                HandshakeState::Validating,
                HandshakeAction::Validate { token },
            ),
            (HandshakeState::Arrived, HandshakeEvent::Request { token: None }) => (
                HandshakeState::Settled,
                HandshakeAction::Refuse { rejection: Rejection::MissingToken },
            ),
            (HandshakeState::Validating, HandshakeEvent::Verdict { claims: Some(claims) }) => {
                let user_id = claims.sub;
                (
                    HandshakeState::Admitting { claims },
                    HandshakeAction::CheckMembership { user_id, group_id },
                )
            },
            (HandshakeState::Admitting { claims }, HandshakeEvent::Membership { member }) => {
                if member {
                    (HandshakeState::Settled, HandshakeAction::Admit { claims })
                } else {
                    (
                        HandshakeState::Settled,
                        HandshakeAction::Refuse { rejection: Rejection::NotAMember },
                    )
                }
            },
            _ => (
                HandshakeState::Settled,
                HandshakeAction::Refuse { rejection: Rejection::InvalidToken },
            ),
        }
    }
}

} // verus!
