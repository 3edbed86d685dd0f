//! What the client's window shows, and how each report from the network
//! task changes it.

use vstd::prelude::*;
use std::collections::HashMap;
use crate::client::models::{AuthState, FromBackend, Group, Invitation, ToBackend, User};
use crate::client::replies::entered_text;
use crate::wire::{WsServerMessage, NIL_ID};

verus! {

broadcast use vstd::std_specs::hash::group_hash_axioms;

/// How often the window looks at what the network task has reported, in
/// milliseconds.
pub const REFRESH_RATE: u64 = 50;

/// After how many seconds the pending invitations are fetched anew.
pub const INVITATION_POLL_SECONDS: u64 = 5;

/// Everything the window shows.
pub struct ClientState {
    pub error_message: Option<String>,
    pub info_message: Option<String>,
    pub auth_state: AuthState,
    pub current_user: Option<User>,
    pub auth_token: Option<String>,
    pub user_groups: Vec<Group>,
    pub selected_group_id: Option<u128>,
    pub selected_group_members: Option<Vec<User>>,
    pub messages: HashMap<u128, Vec<WsServerMessage>>,
    pub pending_invitations: Vec<Invitation>,
}

/// A `ClientState` as the contracts see it: lists as sequences, the histories as a map.
pub struct ClientView {
    pub error_message: Option<Seq<char>>,
    pub info_message: Option<Seq<char>>,
    pub auth_state: AuthState,
    pub current_user: Option<User>,
    pub auth_token: Option<String>,
    pub user_groups: Seq<Group>,
    pub selected_group_id: Option<u128>,
    pub selected_group_members: Option<Vec<User>>,
    pub messages: Map<u128, Seq<WsServerMessage>>,
    pub pending_invitations: Seq<Invitation>,
}

/// The text of a line that the window shows, if it shows one.
pub open spec fn shown(line: Option<String>) -> Option<Seq<char>> {
    match line {
        Some(text) => Some(text@),
        None => None,
    }
}

impl View for ClientState {
    type V = ClientView;

    open spec fn view(&self) -> ClientView {
        ClientView {
            error_message: shown(self.error_message),
            info_message: shown(self.info_message),
            auth_state: self.auth_state,
            current_user: self.current_user,
            auth_token: self.auth_token,
            user_groups: self.user_groups@,
            selected_group_id: self.selected_group_id,
            selected_group_members: self.selected_group_members,
            messages: self.messages@.map_values(|list: Vec<WsServerMessage>| list@),
            pending_invitations: self.pending_invitations@,
        }
    }
}

/// Holds of every group but the one with this identifier.
pub open spec fn other_group(group_id: u128) -> spec_fn(Group) -> bool {
    |group: Group| group.id != group_id
}

/// Holds of every invitation but the one with this identifier.
pub open spec fn other_invitation(invitation_id: u128) -> spec_fn(Invitation) -> bool {
    |invitation: Invitation| invitation.id != invitation_id
}

/// What is asked of the network task when a group comes into view: its
/// history and its members.
pub open spec fn fetch_requests(group_id: u128) -> Seq<ToBackend> {
    seq![ToBackend::FetchGroupMessages(group_id), ToBackend::FetchGroupMembers(group_id)]
}

/// What is asked of the network task for the group in view, if there is
/// one.
pub open spec fn fetch_for(selected: Option<u128>) -> Seq<ToBackend> {
    match selected {
        Some(group_id) => fetch_requests(group_id),
        None => Seq::empty(),
    }
}

/// The first of the groups, if there is one.
pub open spec fn first_group(groups: Seq<Group>) -> Option<u128> {
    if groups.len() > 0 {
        Some(groups[0].id)
    } else {
        None
    }
}

/// The history of a group with one more message at its end; a group
/// without history gets one.
pub open spec fn with_message(
    messages: Map<u128, Seq<WsServerMessage>>,
    group_id: u128,
    message: WsServerMessage,
) -> Map<u128, Seq<WsServerMessage>> {
    let so_far = if messages.contains_key(group_id) {
        messages[group_id]
    } else {
        Seq::empty()
    };
    messages.insert(group_id, so_far.push(message))
}

/// What the window shows after a report, and what it asks of the network
/// task in turn.
///
/// Every report wipes the lines left by the one before. A login sets the
/// user, the token and the groups and brings the first group into view. A
/// registration leads back to the login form. A group that was joined or
/// created comes into view, at the end of the list, once; a created group
/// starts with an empty history. A group that was left goes with its
/// history, and if it was in view the first of the others takes its
/// place. A message goes to the end of its group's history. Fetched
/// invitations, histories and members replace what was shown, and a
/// declined invitation goes.
pub open spec fn applied(state: ClientView, report: FromBackend) -> (ClientView, Seq<ToBackend>) {
    let wiped = ClientView { error_message: None, info_message: None, ..state };
    match report {
        FromBackend::LoggedIn(user, token, groups) => {
            let selected = match first_group(groups@) {
                Some(group_id) => Some(group_id),
                None => wiped.selected_group_id,
            };
            (
                ClientView {
                    current_user: Some(user),
                    auth_token: Some(token),
                    user_groups: groups@,
                    selected_group_id: selected,
                    ..wiped
                },
                fetch_for(first_group(groups@)),
            )
        },
        FromBackend::Registered => (
            ClientView {
                info_message: Some("Registrazione avvenuta! Ora puoi effettuare il login."@),
                auth_state: AuthState::Login,
                ..wiped
            },
            Seq::empty(),
        ),
        FromBackend::GroupJoined(group) => (
            ClientView {
                info_message: Some(entered_text(group.name@)),
                selected_group_id: Some(group.id),
                user_groups: wiped.user_groups.filter(other_group(group.id)).push(group),
                ..wiped
            },
            fetch_requests(group.id),
        ),
        FromBackend::GroupCreated(group) => (
            ClientView {
                info_message: Some("Gruppo '"@ + group.name@ + "' creato."@),
                selected_group_id: Some(group.id),
                user_groups: wiped.user_groups.push(group),
                messages: wiped.messages.insert(group.id, Seq::empty()),
                ..wiped
            },
            Seq::empty(),
        ),
        FromBackend::GroupLeft(group_id) => {
            let remaining = wiped.user_groups.filter(other_group(group_id));
            let left = ClientView {
                info_message: Some("Hai lasciato un gruppo."@),
                user_groups: remaining,
                messages: wiped.messages.remove(group_id),
                ..wiped
            };
            if wiped.selected_group_id == Some(group_id) {
                (
                    ClientView { selected_group_id: first_group(remaining), ..left },
                    fetch_for(first_group(remaining)),
                )
            } else {
                (left, Seq::empty())
            }
        },
        FromBackend::NewMessage(group_id, message) => (
            ClientView { messages: with_message(wiped.messages, group_id, message), ..wiped },
            Seq::empty(),
        ),
        FromBackend::Error(text) => (
            ClientView { error_message: Some(text@), ..wiped },
            Seq::empty(),
        ),
        FromBackend::Info(text) => (ClientView { info_message: Some(text@), ..wiped }, Seq::empty()),
        FromBackend::InvitationsFetched(invitations) => (
            ClientView { pending_invitations: invitations@, ..wiped },
            Seq::empty(),
        ),
        FromBackend::InvitationDeclined(invitation_id) => (
            ClientView {
                info_message: Some("Invito rifiutato."@),
                pending_invitations: wiped.pending_invitations.filter(
                    other_invitation(invitation_id),
                ),
                ..wiped
            },
            Seq::empty(),
        ),
        FromBackend::GroupMessagesFetched(group_id, history) => (
            ClientView { messages: wiped.messages.insert(group_id, history@), ..wiped },
            Seq::empty(),
        ),
        FromBackend::GroupMembersFetched(group_id, members) => (
            ClientView { selected_group_members: Some(members), ..wiped },
            Seq::empty(),
        ),
        FromBackend::GroupMembersChanged => (wiped, fetch_for(wiped.selected_group_id)),
    }
}

/// What the window shows after a logout: nobody is logged in, and
/// nothing of the groups, histories and invitations remains.
pub open spec fn logged_out(state: ClientView) -> ClientView {
    ClientView {
        current_user: None,
        auth_token: None,
        user_groups: Seq::empty(),
        selected_group_id: None,
        messages: Map::empty(),
        pending_invitations: Seq::empty(),
        ..state
    }
}

/// The groups but the one with this identifier, in their order.
pub fn without_group(groups: &Vec<Group>, group_id: u128) -> (kept: Vec<Group>)
    ensures
        kept@ == groups@.filter(other_group(group_id)),
{
    let mut kept: Vec<Group> = Vec::new();
    let mut i: usize = 0;
    assert(groups@.take(0) == Seq::<Group>::empty());
    assert(groups@.take(0).filter(other_group(group_id)) == Seq::<Group>::empty()) by {
        reveal(Seq::filter);
    }
    while i < groups.len()
        invariant
            i <= groups.len(),
            kept@ == groups@.take(i as int).filter(other_group(group_id)),
        decreases groups.len() - i,
    {
        proof {
            reveal(Seq::filter);
            assert(groups@.take(i + 1).drop_last() == groups@.take(i as int));
            assert(groups@.take(i + 1).last() == groups@[i as int]);
        }
        if groups[i].id != group_id {
            kept.push(groups[i].duplicate());
        }
        i += 1;
    }
    assert(groups@.take(groups.len() as int) == groups@);
    kept
}

/// The invitations but the one with this identifier, in their order.
pub fn without_invitation(invitations: &Vec<Invitation>, invitation_id: u128) -> (kept: Vec<Invitation>)
    ensures
        kept@ == invitations@.filter(other_invitation(invitation_id)),
{
    let mut kept: Vec<Invitation> = Vec::new();
    let mut i: usize = 0;
    assert(invitations@.take(0) == Seq::<Invitation>::empty());
    assert(invitations@.take(0).filter(other_invitation(invitation_id)) == Seq::<
        Invitation,
    >::empty()) by {
        reveal(Seq::filter);
    }
    while i < invitations.len()
        invariant
            i <= invitations.len(),
            kept@ == invitations@.take(i as int).filter(other_invitation(invitation_id)),
        decreases invitations.len() - i,
    {
        proof {
            reveal(Seq::filter);
            assert(invitations@.take(i + 1).drop_last() == invitations@.take(i as int));
            assert(invitations@.take(i + 1).last() == invitations@[i as int]);
        }
        if invitations[i].id != invitation_id {
            let invitation = &invitations[i];
            kept.push(
                Invitation {
                    id: invitation.id,
                    group_name: invitation.group_name.clone(),
                    inviter_username: invitation.inviter_username.clone(),
                },
            );
        }
        i += 1;
    }
    assert(invitations@.take(invitations.len() as int) == invitations@);
    kept
}

/// What is asked of the network task when a group comes into view.
pub fn requests_for(selected: Option<u128>) -> (requests: Vec<ToBackend>)
    ensures
        requests@ == fetch_for(selected),
{
    let mut requests: Vec<ToBackend> = Vec::new();
    match selected {
        Some(group_id) => {
            requests.push(ToBackend::FetchGroupMessages(group_id));
            requests.push(ToBackend::FetchGroupMembers(group_id));
        },
        None => {},
    }
    requests
}

/// The first of the groups, if there is one.
pub fn first_of(groups: &Vec<Group>) -> (first: Option<u128>)
    ensures
        first == first_group(groups@),
{
    if groups.len() > 0 {
        Some(groups[0].id)
    } else {
        None
    }
}

/// How a message is drawn.
#[derive(Clone, Copy, Debug, PartialEq, Eq, Structural)]
pub enum Bubble {
    /// A notice from the server itself.
    System,
    /// A message of the user at the window.
    Mine,
    /// A message of somebody else.
    Theirs,
}

/// How a message is drawn for the user `me`.
pub open spec fn bubble(message: WsServerMessage, me: u128) -> Bubble {
    if message.sender_id == NIL_ID {
        Bubble::System
    } else if message.sender_id == me {
        Bubble::Mine
    } else {
        Bubble::Theirs
    }
}

/// How a message is drawn for the user `me`.
pub fn bubble_of(message: &WsServerMessage, me: u128) -> (kind: Bubble)
    ensures
        kind == bubble(*message, me),
{
    if message.sender_id == NIL_ID {
        Bubble::System
    } else if message.sender_id == me {
        Bubble::Mine
    } else {
        Bubble::Theirs
    }
}

/// Whether it is time to fetch the pending invitations anew, this many
/// nanoseconds after the last time: once more than
/// `INVITATION_POLL_SECONDS` have passed.
pub fn invitations_due(elapsed_nanos: u128) -> (due: bool)
    ensures
        due == (elapsed_nanos > INVITATION_POLL_SECONDS * 1_000_000_000),
{
    elapsed_nanos > 5_000_000_000
}

impl ClientState {
    /// What the window shows when it opens: the login form and nothing
    /// else.
    pub fn new() -> (state: ClientState)
        ensures
            state@ == (ClientView {
                error_message: None,
                info_message: None,
                auth_state: AuthState::Login,
                current_user: None,
                auth_token: None,
                user_groups: Seq::empty(),
                selected_group_id: None,
                selected_group_members: None,
                messages: Map::empty(),
                pending_invitations: Seq::empty(),
            }),
    {
        let state = ClientState {
            error_message: None,
            info_message: None,
            auth_state: AuthState::Login,
            current_user: None,
            auth_token: None,
            user_groups: Vec::new(),
            selected_group_id: None,
            selected_group_members: None,
            messages: HashMap::new(),
            pending_invitations: Vec::new(),
        };
        assert(state@.messages =~= Map::empty());
        state
    }

    /// Forgets the user and everything that was theirs.
    pub fn logout(&mut self)
        ensures
            final(self)@ == logged_out(old(self)@),
    {
        self.current_user = None;
        self.auth_token = None;
        self.user_groups = Vec::new();
        self.selected_group_id = None;
        self.messages = HashMap::new();
        self.pending_invitations = Vec::new();
        assert(self@.messages =~= Map::empty());
    }

    /// Takes a report from the network task; returns what to ask of the
    /// network task in turn.
    pub fn apply(&mut self, report: FromBackend) -> (requests: Vec<ToBackend>)
        ensures
            (final(self)@, requests@) == applied(old(self)@, report),
    {
        self.error_message = None;
        self.info_message = None;
        match report {
            FromBackend::LoggedIn(user, token, groups) => {
                let first = first_of(&groups);
                self.current_user = Some(user);
                self.auth_token = Some(token);
                self.user_groups = groups;
                match first {
                    Some(group_id) => {
                        self.selected_group_id = Some(group_id);
                    },
                    None => {},
                }
                requests_for(first)
            },
            FromBackend::Registered => {
                self.info_message = Some(
                    String::from_str("Registrazione avvenuta! Ora puoi effettuare il login."),
                );
                self.auth_state = AuthState::Login;
                Vec::new()
            },
            FromBackend::GroupJoined(group) => {
                let mut words = String::from_str("Entrato in '");
                words.append(group.name.as_str());
                words.append("'");
                self.info_message = Some(words);
                self.selected_group_id = Some(group.id);
                let group_id = group.id;
                let mut groups = without_group(&self.user_groups, group_id);
                groups.push(group);
                self.user_groups = groups;
                requests_for(Some(group_id))
            },
            FromBackend::GroupCreated(group) => {
                let mut words = String::from_str("Gruppo '");
                words.append(group.name.as_str());
                words.append("' creato.");
                self.info_message = Some(words);
                self.selected_group_id = Some(group.id);
                let group_id = group.id;
                self.user_groups.push(group);
                self.messages.insert(group_id, Vec::new());
                assert(self@.messages =~= old(self)@.messages.insert(group_id, Seq::empty()));
                Vec::new()
            },
            FromBackend::GroupLeft(group_id) => {
                self.info_message = Some(String::from_str("Hai lasciato un gruppo."));
                self.user_groups = without_group(&self.user_groups, group_id);
                self.messages.remove(&group_id);
                assert(self@.messages =~= old(self)@.messages.remove(group_id));
                let in_view = match self.selected_group_id {
                    Some(selected) => selected == group_id,
                    None => false,
                };
                if in_view {
                    self.selected_group_id = first_of(&self.user_groups);
                    requests_for(self.selected_group_id)
                } else {
                    Vec::new()
                }
            },
            FromBackend::NewMessage(group_id, message) => {
                let mut history = match self.messages.remove(&group_id) {
                    Some(so_far) => so_far,
                    None => Vec::new(),
                };
                history.push(message);
                self.messages.insert(group_id, history);
                assert(self@.messages =~= with_message(old(self)@.messages, group_id, message));
                Vec::new()
            },
            FromBackend::Error(text) => {
                self.error_message = Some(text);
                Vec::new()
            },
            FromBackend::Info(text) => {
                self.info_message = Some(text);
                Vec::new()
            },
            FromBackend::InvitationsFetched(invitations) => {
                self.pending_invitations = invitations;
                Vec::new()
            },
            FromBackend::InvitationDeclined(invitation_id) => {
                self.pending_invitations = without_invitation(
                    &self.pending_invitations,
                    invitation_id,
                );
                self.info_message = Some(String::from_str("Invito rifiutato."));
                Vec::new()
            },
            FromBackend::GroupMessagesFetched(group_id, history) => {
                self.messages.insert(group_id, history);
                assert(self@.messages =~= old(self)@.messages.insert(group_id, history@));
                Vec::new()
            },
            FromBackend::GroupMembersFetched(group_id, members) => {
                self.selected_group_members = Some(members);
                Vec::new()
            },
            FromBackend::GroupMembersChanged => requests_for(self.selected_group_id),
        }
    }
}

} // verus!
