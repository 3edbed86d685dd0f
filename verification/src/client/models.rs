//! What the client knows of users, groups and invitations, and the
//! messages that its window and its network task exchange.

use vstd::prelude::*;
use crate::wire::WsServerMessage;

verus! {

/// A user as the client sees it.
#[derive(Debug, PartialEq, Eq)]
pub struct User {
    pub id: u128,
    pub username: String,
}

/// A group as the client sees it.
#[derive(Debug, PartialEq, Eq)]
pub struct Group {
    pub id: u128,
    pub name: String,
}

/// A pending invitation as the client sees it.
#[derive(Debug, PartialEq, Eq)]
pub struct Invitation {
    pub id: u128,
    pub group_name: String,
    pub inviter_username: String,
}

/// What the server answers to a login.
#[derive(Debug, PartialEq, Eq)]
pub struct LoginResponse {
    pub token: String,
    pub user: User,
    pub groups: Vec<Group>,
}

/// Which of its two forms the sign-in view shows.
#[derive(Clone, Copy, Debug, PartialEq, Eq, Structural)]
pub enum AuthState {
    Login,
    Register,
}

/// What the window asks of the network task.
#[derive(Debug, PartialEq, Eq)]
pub enum ToBackend {
    Register(String, String),
    Login(String, String),
    Logout,
    CreateGroup(String),
    JoinGroup(Group),
    LeaveGroup(u128),
    InviteUser(u128, String),
    SendMessage(u128, String),
    FetchInvitations,
    AcceptInvitation(u128),
    DeclineInvitation(u128),
    FetchGroupMessages(u128),
    FetchGroupMembers(u128),
}

/// What the network task reports to the window.
#[derive(Debug, PartialEq, Eq)]
pub enum FromBackend {
    LoggedIn(User, String, Vec<Group>),
    Registered,
    GroupJoined(Group),
    GroupLeft(u128),
    NewMessage(u128, WsServerMessage),
    Info(String),
    Error(String),
    InvitationsFetched(Vec<Invitation>),
    InvitationDeclined(u128),
    GroupCreated(Group),
    GroupMessagesFetched(u128, Vec<WsServerMessage>),
    GroupMembersFetched(u128, Vec<User>),
    GroupMembersChanged,
}

impl Group {
    /// A copy of the group.
    pub fn duplicate(&self) -> (copy: Group)
        ensures
            copy == *self,
    {
        Group { id: self.id, name: self.name.clone() }
    }
}

impl User {
    /// A copy of the user.
    pub fn duplicate(&self) -> (copy: User)
        ensures
            copy == *self,
    {
        User { id: self.id, username: self.username.clone() }
    }
}

} // verus!
