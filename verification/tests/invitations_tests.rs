use ruggine::error::AppError;
use ruggine::invitations::{refused_insert, AcceptState, DeclineState, Invite, InviteState};
use ruggine::models::{InvitationStatus, InviteToGroupPayload};
use ruggine::store::{Reply, Step, StoreFailure, StoreRequest, Success};

const GROUP: u128 = 77;
const INVITER: u128 = 5;
const INVITED: u128 = 6;
const INVITATION: u128 = 900;

fn invite() -> Invite {
    Invite { group_id: GROUP, inviter_id: INVITER, invited_user_id: INVITED }
}

fn ask(request: StoreRequest) -> Step {
    Step::Ask { request }
}

fn refused(error: AppError) -> Step {
    Step::Finish { outcome: Err(error) }
}

#[test]
fn invite_is_made_from_the_payload() {
    let payload = InviteToGroupPayload { user_to_invite_id: INVITED };
    assert_eq!(Invite::new(GROUP, INVITER, payload), invite());
}

#[test]
fn nobody_invites_themselves() {
    let own = Invite { group_id: GROUP, inviter_id: INVITER, invited_user_id: INVITER };
    let (state, step) = InviteState::Start.step(own, Reply::Start);
    assert_eq!(state, InviteState::Finished);
    assert_eq!(step, refused(AppError::CannotInviteSelf));
}

#[test]
fn invite_checks_inviter_then_invited() {
    let (state, step) = InviteState::Start.step(invite(), Reply::Start);
    assert_eq!((state, step), (InviteState::Beginning, ask(StoreRequest::Begin)));
    let (state, step) = state.step(invite(), Reply::Done);
    assert_eq!(
        (state, step),
        (InviteState::CheckingInviter, ask(StoreRequest::IsMember { user_id: INVITER, group_id: GROUP }))
    );
    let (state, step) = state.step(invite(), Reply::Flag { yes: true });
    assert_eq!(
        (state, step),
        (InviteState::CheckingInvited, ask(StoreRequest::IsMember { user_id: INVITED, group_id: GROUP }))
    );
    let (state, step) = state.step(invite(), Reply::Flag { yes: false });
    assert_eq!(
        (state, step),
        (
            InviteState::Inserting,
            ask(StoreRequest::InsertInvitation { group_id: GROUP, inviter_id: INVITER, invited_user_id: INVITED })
        )
    );
    let (state, step) = state.step(invite(), Reply::Done);
    assert_eq!((state, step), (InviteState::Committing, ask(StoreRequest::Commit)));
    let (state, step) = state.step(invite(), Reply::Done);
    assert_eq!((state, step), (InviteState::Finished, Step::Finish { outcome: Ok(Success::Created) }));
}

#[test]
fn only_members_invite() {
    let (state, step) = InviteState::CheckingInviter.step(invite(), Reply::Flag { yes: false });
    assert_eq!((state, step), (InviteState::Finished, refused(AppError::MissingPermissions)));
}

#[test]
fn members_are_not_invited_again() {
    let (state, step) = InviteState::CheckingInvited.step(invite(), Reply::Flag { yes: true });
    assert_eq!((state, step), (InviteState::Finished, refused(AppError::UserAlreadyInGroup)));
}

#[test]
fn refused_insert_is_told_apart() {
    assert_eq!(refused_insert(StoreFailure::UniqueViolation), AppError::InvitationAlreadyExists);
    assert_eq!(refused_insert(StoreFailure::ForeignKeyViolation), AppError::UserOrGroupNotFound);
    assert_eq!(refused_insert(StoreFailure::Other), AppError::DatabaseError);
    for (failure, error) in [
        (StoreFailure::UniqueViolation, AppError::InvitationAlreadyExists),
        (StoreFailure::ForeignKeyViolation, AppError::UserOrGroupNotFound),
        (StoreFailure::Other, AppError::DatabaseError),
    ] {
        let (state, step) = InviteState::Inserting.step(invite(), Reply::Failed { failure });
        assert_eq!((state, step), (InviteState::Finished, refused(error)));
    }
}

#[test]
fn invite_fails_when_the_store_fails_elsewhere() {
    let failure = Reply::Failed { failure: StoreFailure::UniqueViolation };
    for state in [
        InviteState::Beginning,
        InviteState::CheckingInviter,
        InviteState::CheckingInvited,
        InviteState::Committing,
    ] {
        let (state, step) = state.step(invite(), failure);
        assert_eq!((state, step), (InviteState::Finished, refused(AppError::DatabaseError)));
    }
}

#[test]
fn invite_reply_out_of_turn_is_a_store_error() {
    let (state, step) = InviteState::Start.step(invite(), Reply::Done);
    assert_eq!((state, step), (InviteState::Finished, refused(AppError::DatabaseError)));
    let (state, step) = InviteState::Finished.step(invite(), Reply::Start);
    assert_eq!((state, step), (InviteState::Finished, refused(AppError::DatabaseError)));
}

#[test]
fn accept_marks_joins_fetches_and_commits() {
    let (state, step) = AcceptState::Start.step(INVITATION, INVITED, Reply::Start);
    assert_eq!((state, step), (AcceptState::Beginning, ask(StoreRequest::Begin)));
    let (state, step) = state.step(INVITATION, INVITED, Reply::Done);
    assert_eq!(
        (state, step),
        (
            AcceptState::Finding,
            ask(StoreRequest::FindPendingInvitation { invitation_id: INVITATION, user_id: INVITED })
        )
    );
    let (state, step) = state.step(INVITATION, INVITED, Reply::Invitation { group: Some(GROUP) });
    assert_eq!(
        (state, step),
        (
            AcceptState::Marking { group_id: GROUP },
            ask(StoreRequest::SetInvitationStatus { invitation_id: INVITATION, status: InvitationStatus::Accepted })
        )
    );
    let (state, step) = state.step(INVITATION, INVITED, Reply::Rows { affected: 1 });
    assert_eq!(
        (state, step),
        (
            AcceptState::Joining { group_id: GROUP },
            ask(StoreRequest::AddMembership { user_id: INVITED, group_id: GROUP })
        )
    );
    let (state, step) = state.step(INVITATION, INVITED, Reply::Done);
    assert_eq!(
        (state, step),
        (AcceptState::Fetching { group_id: GROUP }, ask(StoreRequest::FetchGroup { group_id: GROUP }))
    );
    let (state, step) = state.step(INVITATION, INVITED, Reply::Group { group_id: GROUP });
    assert_eq!((state, step), (AcceptState::Committing { group_id: GROUP }, ask(StoreRequest::Commit)));
    let (state, step) = state.step(INVITATION, INVITED, Reply::Done);
    assert_eq!(
        (state, step),
        (AcceptState::Finished, Step::Finish { outcome: Ok(Success::Group { group_id: GROUP }) })
    );
}

#[test]
fn accept_needs_a_pending_invitation() {
    let (state, step) = AcceptState::Finding.step(INVITATION, INVITED, Reply::Invitation { group: None });
    assert_eq!((state, step), (AcceptState::Finished, refused(AppError::InvitationNotFound)));
}

#[test]
fn accept_fails_when_the_store_fails() {
    let failure = Reply::Failed { failure: StoreFailure::Other };
    for state in [
        AcceptState::Beginning,
        AcceptState::Finding,
        AcceptState::Marking { group_id: GROUP },
        AcceptState::Joining { group_id: GROUP },
        AcceptState::Fetching { group_id: GROUP },
        AcceptState::Committing { group_id: GROUP },
    ] {
        let (state, step) = state.step(INVITATION, INVITED, failure);
        assert_eq!((state, step), (AcceptState::Finished, refused(AppError::DatabaseError)));
    }
}

#[test]
fn decline_marks_the_pending_invitation() {
    let (state, step) = DeclineState::Start.step(INVITATION, INVITED, Reply::Start);
    assert_eq!(
        (state, step),
        (
            DeclineState::Marking,
            ask(StoreRequest::ResolvePendingInvitation {
                invitation_id: INVITATION,
                user_id: INVITED,
                status: InvitationStatus::Declined
            })
        )
    );
    let (state, step) = state.step(INVITATION, INVITED, Reply::Rows { affected: 1 });
    assert_eq!((state, step), (DeclineState::Finished, Step::Finish { outcome: Ok(Success::NoContent) }));
}

#[test]
fn decline_needs_a_pending_invitation() {
    let (state, step) = DeclineState::Marking.step(INVITATION, INVITED, Reply::Rows { affected: 0 });
    assert_eq!((state, step), (DeclineState::Finished, refused(AppError::InvitationNotFound)));
}

#[test]
fn decline_fails_when_the_store_fails() {
    let (state, step) =
        DeclineState::Marking.step(INVITATION, INVITED, Reply::Failed { failure: StoreFailure::Other });
    assert_eq!((state, step), (DeclineState::Finished, refused(AppError::DatabaseError)));
    let (state, step) = DeclineState::Start.step(INVITATION, INVITED, Reply::Done);
    assert_eq!((state, step), (DeclineState::Finished, refused(AppError::DatabaseError)));
}

#[test]
fn invitation_status_moves_once() {
    let pending = InvitationStatus::Pending;
    let accepted = InvitationStatus::Accepted;
    let declined = InvitationStatus::Declined;
    assert!(pending.can_become(accepted));
    assert!(pending.can_become(declined));
    assert!(!pending.can_become(pending));
    for handled in [accepted, declined] {
        for to in [pending, accepted, declined] {
            assert!(!handled.can_become(to));
        }
    }
}

#[test]
fn invitation_status_labels() {
    assert_eq!(InvitationStatus::Pending.label(), "pending");
    assert_eq!(InvitationStatus::Accepted.label(), "accepted");
    assert_eq!(InvitationStatus::Declined.label(), "declined");
}
