use ruggine::client::models::{AuthState, FromBackend, Group, Invitation, ToBackend, User};
use ruggine::client::state::{
    bubble_of, first_of, invitations_due, requests_for, without_group, without_invitation, Bubble, ClientState,
    INVITATION_POLL_SECONDS, REFRESH_RATE,
};
use ruggine::wire::{WsServerMessage, NIL_ID};

fn group(id: u128, name: &str) -> Group {
    Group { id, name: name.to_string() }
}

fn user(id: u128, name: &str) -> User {
    User { id, username: name.to_string() }
}

fn message(sender: u128, content: &str) -> WsServerMessage {
    WsServerMessage { sender_id: sender, sender_username: "s".to_string(), content: content.to_string() }
}

fn invitation(id: u128) -> Invitation {
    Invitation { id, group_name: "rust".to_string(), inviter_username: "alice".to_string() }
}

fn fetch(id: u128) -> Vec<ToBackend> {
    vec![ToBackend::FetchGroupMessages(id), ToBackend::FetchGroupMembers(id)]
}

fn logged_in() -> ClientState {
    let mut state = ClientState::new();
    let asked = state.apply(FromBackend::LoggedIn(
        user(1, "alice"),
        "tok".to_string(),
        vec![group(10, "rust"), group(20, "proofs")],
    ));
    assert_eq!(asked, fetch(10));
    state
}

#[test]
fn window_opens_on_the_login_form() {
    let state = ClientState::new();
    assert_eq!(state.auth_state, AuthState::Login);
    assert_eq!(state.current_user, None);
    assert_eq!(state.auth_token, None);
    assert!(state.user_groups.is_empty());
    assert_eq!(state.selected_group_id, None);
    assert_eq!(state.selected_group_members, None);
    assert!(state.messages.is_empty());
    assert!(state.pending_invitations.is_empty());
    assert_eq!(state.error_message, None);
    assert_eq!(state.info_message, None);
}

#[test]
fn login_brings_first_group_into_view() {
    let state = logged_in();
    assert_eq!(state.current_user, Some(user(1, "alice")));
    assert_eq!(state.auth_token, Some("tok".to_string()));
    assert_eq!(state.user_groups, vec![group(10, "rust"), group(20, "proofs")]);
    assert_eq!(state.selected_group_id, Some(10));
}

#[test]
fn login_without_groups_asks_nothing() {
    let mut state = ClientState::new();
    let asked = state.apply(FromBackend::LoggedIn(user(1, "alice"), "tok".to_string(), Vec::new()));
    assert!(asked.is_empty());
    assert_eq!(state.selected_group_id, None);
    assert_eq!(state.current_user, Some(user(1, "alice")));
}

#[test]
fn registration_leads_to_login_form() {
    let mut state = ClientState::new();
    state.auth_state = AuthState::Register;
    let asked = state.apply(FromBackend::Registered);
    assert!(asked.is_empty());
    assert_eq!(state.auth_state, AuthState::Login);
    assert_eq!(
        state.info_message,
        Some("Registrazione avvenuta! Ora puoi effettuare il login.".to_string())
    );
}

#[test]
fn every_report_wipes_earlier_lines() {
    let mut state = ClientState::new();
    state.apply(FromBackend::Error("boom".to_string()));
    assert_eq!(state.error_message, Some("boom".to_string()));
    assert_eq!(state.info_message, None);
    state.apply(FromBackend::Info("fine".to_string()));
    assert_eq!(state.error_message, None);
    assert_eq!(state.info_message, Some("fine".to_string()));
    state.apply(FromBackend::GroupMembersChanged);
    assert_eq!(state.error_message, None);
    assert_eq!(state.info_message, None);
}

#[test]
fn joined_group_comes_into_view_once() {
    let mut state = logged_in();
    let asked = state.apply(FromBackend::GroupJoined(group(20, "proofs renamed")));
    assert_eq!(asked, fetch(20));
    assert_eq!(state.user_groups, vec![group(10, "rust"), group(20, "proofs renamed")]);
    assert_eq!(state.selected_group_id, Some(20));
    assert_eq!(state.info_message, Some("Entrato in 'proofs renamed'".to_string()));
    let asked = state.apply(FromBackend::GroupJoined(group(30, "new")));
    assert_eq!(asked, fetch(30));
    assert_eq!(state.user_groups, vec![group(10, "rust"), group(20, "proofs renamed"), group(30, "new")]);
}

#[test]
fn created_group_starts_with_empty_history() {
    let mut state = logged_in();
    let asked = state.apply(FromBackend::GroupCreated(group(30, "new")));
    assert!(asked.is_empty());
    assert_eq!(state.selected_group_id, Some(30));
    assert_eq!(state.user_groups.len(), 3);
    assert_eq!(state.messages.get(&30), Some(&Vec::new()));
    assert_eq!(state.info_message, Some("Gruppo 'new' creato.".to_string()));
}

#[test]
fn leaving_the_group_in_view_shows_the_next() {
    let mut state = logged_in();
    state.apply(FromBackend::NewMessage(10, message(1, "hi")));
    let asked = state.apply(FromBackend::GroupLeft(10));
    assert_eq!(asked, fetch(20));
    assert_eq!(state.user_groups, vec![group(20, "proofs")]);
    assert_eq!(state.selected_group_id, Some(20));
    assert_eq!(state.messages.get(&10), None);
    assert_eq!(state.info_message, Some("Hai lasciato un gruppo.".to_string()));
    let asked = state.apply(FromBackend::GroupLeft(20));
    assert!(asked.is_empty());
    assert_eq!(state.selected_group_id, None);
    assert!(state.user_groups.is_empty());
}

#[test]
fn leaving_another_group_keeps_the_view() {
    let mut state = logged_in();
    let asked = state.apply(FromBackend::GroupLeft(20));
    assert!(asked.is_empty());
    assert_eq!(state.selected_group_id, Some(10));
    assert_eq!(state.user_groups, vec![group(10, "rust")]);
}

#[test]
fn messages_are_appended_per_group() {
    let mut state = logged_in();
    assert!(state.apply(FromBackend::NewMessage(10, message(1, "a"))).is_empty());
    assert!(state.apply(FromBackend::NewMessage(20, message(2, "b"))).is_empty());
    assert!(state.apply(FromBackend::NewMessage(10, message(3, "c"))).is_empty());
    assert_eq!(state.messages.get(&10), Some(&vec![message(1, "a"), message(3, "c")]));
    assert_eq!(state.messages.get(&20), Some(&vec![message(2, "b")]));
    assert_eq!(state.messages.len(), 2);
}

#[test]
fn fetched_history_replaces_what_was_shown() {
    let mut state = logged_in();
    state.apply(FromBackend::NewMessage(10, message(1, "a")));
    let asked = state.apply(FromBackend::GroupMessagesFetched(10, vec![message(5, "x"), message(6, "y")]));
    assert!(asked.is_empty());
    assert_eq!(state.messages.get(&10), Some(&vec![message(5, "x"), message(6, "y")]));
}

#[test]
fn fetched_members_are_shown() {
    let mut state = logged_in();
    let asked = state.apply(FromBackend::GroupMembersFetched(10, vec![user(1, "alice"), user(2, "bob")]));
    assert!(asked.is_empty());
    assert_eq!(state.selected_group_members, Some(vec![user(1, "alice"), user(2, "bob")]));
}

#[test]
fn changed_members_are_fetched_for_group_in_view() {
    let mut state = logged_in();
    assert_eq!(state.apply(FromBackend::GroupMembersChanged), fetch(10));
    let mut empty = ClientState::new();
    assert!(empty.apply(FromBackend::GroupMembersChanged).is_empty());
}

#[test]
fn invitations_are_shown_and_declined() {
    let mut state = logged_in();
    state.apply(FromBackend::InvitationsFetched(vec![invitation(1), invitation(2), invitation(3)]));
    assert_eq!(state.pending_invitations, vec![invitation(1), invitation(2), invitation(3)]);
    let asked = state.apply(FromBackend::InvitationDeclined(2));
    assert!(asked.is_empty());
    assert_eq!(state.pending_invitations, vec![invitation(1), invitation(3)]);
    assert_eq!(state.info_message, Some("Invito rifiutato.".to_string()));
    state.apply(FromBackend::InvitationDeclined(9));
    assert_eq!(state.pending_invitations, vec![invitation(1), invitation(3)]);
}

#[test]
fn logout_forgets_the_user() {
    let mut state = logged_in();
    state.apply(FromBackend::NewMessage(10, message(1, "a")));
    state.apply(FromBackend::InvitationsFetched(vec![invitation(1)]));
    state.apply(FromBackend::GroupMembersFetched(10, vec![user(1, "alice")]));
    state.apply(FromBackend::Info("kept".to_string()));
    state.logout();
    assert_eq!(state.current_user, None);
    assert_eq!(state.auth_token, None);
    assert!(state.user_groups.is_empty());
    assert_eq!(state.selected_group_id, None);
    assert!(state.messages.is_empty());
    assert!(state.pending_invitations.is_empty());
    assert_eq!(state.info_message, Some("kept".to_string()));
    assert_eq!(state.selected_group_members, Some(vec![user(1, "alice")]));
}

#[test]
fn filters_keep_order() {
    let groups = vec![group(1, "a"), group(2, "b"), group(1, "c"), group(3, "d")];
    assert_eq!(without_group(&groups, 1), vec![group(2, "b"), group(3, "d")]);
    assert_eq!(without_group(&groups, 9).len(), 4);
    assert_eq!(without_group(&Vec::new(), 1), Vec::new());
    let invitations = vec![invitation(1), invitation(2)];
    assert_eq!(without_invitation(&invitations, 1), vec![invitation(2)]);
    assert_eq!(first_of(&groups), Some(1));
    assert_eq!(first_of(&Vec::new()), None);
    assert_eq!(requests_for(Some(4)), fetch(4));
    assert_eq!(requests_for(None), Vec::new());
}

#[test]
fn bubbles() {
    assert_eq!(bubble_of(&message(NIL_ID, "x left"), 1), Bubble::System);
    assert_eq!(bubble_of(&message(NIL_ID, "x left"), NIL_ID), Bubble::System);
    assert_eq!(bubble_of(&message(1, "mine"), 1), Bubble::Mine);
    assert_eq!(bubble_of(&message(2, "theirs"), 1), Bubble::Theirs);
}

#[test]
fn invitations_are_polled_every_five_seconds() {
    assert_eq!(INVITATION_POLL_SECONDS, 5);
    assert_eq!(REFRESH_RATE, 50);
    assert!(!invitations_due(0));
    assert!(!invitations_due(5_000_000_000));
    assert!(invitations_due(5_000_000_001));
    assert!(invitations_due(std::time::Duration::from_millis(5500).as_nanos()));
    assert!(!invitations_due(std::time::Duration::from_secs(5).as_nanos()));
}

#[test]
fn copies_are_equal() {
    assert_eq!(group(1, "a").duplicate(), group(1, "a"));
    assert_eq!(user(1, "a").duplicate(), user(1, "a"));
}
