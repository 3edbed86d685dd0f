//! What the client sends: where each request goes, what it carries, and
//! which inputs are turned back before anything is sent.

use vstd::prelude::*;
use crate::client::models::FromBackend;
use crate::wire::{json_quote, json_quoted, uuid_text, uuid_to_text};

verus! {

/// Where a request goes.
#[derive(Debug, PartialEq, Eq)]
pub enum Endpoint {
    Register,
    Login,
    Groups,
    Leave(u128),
    UserByName(String),
    Invite(u128),
    Invitations,
    Accept(u128),
    Decline(u128),
    Messages(u128),
    Members(u128),
}

/// The server's address for requests.
pub open spec fn api_base() -> Seq<char> {
    "http://127.0.0.1:3000"@
}

/// The path of an endpoint below the server's address.
pub open spec fn endpoint_path(endpoint: Endpoint) -> Seq<char> {
    match endpoint {
        Endpoint::Register => "/users/register"@,
        Endpoint::Login => "/users/login"@,
        Endpoint::Groups => "/groups"@,
        Endpoint::Leave(group_id) => "/groups/"@ + uuid_text(group_id) + "/leave"@,
        Endpoint::UserByName(name) => "/users/by_username/"@ + name@,
        Endpoint::Invite(group_id) => "/groups/"@ + uuid_text(group_id) + "/invite"@,
        Endpoint::Invitations => "/invitations"@,
        Endpoint::Accept(invitation_id) => "/invitations/"@ + uuid_text(invitation_id) + "/accept"@,
        Endpoint::Decline(invitation_id) => "/invitations/"@ + uuid_text(invitation_id)
            + "/decline"@,
        Endpoint::Messages(group_id) => "/groups/"@ + uuid_text(group_id) + "/messages"@,
        Endpoint::Members(group_id) => "/groups/"@ + uuid_text(group_id) + "/members"@,
    }
}

/// The address of a group's chat for the holder of `token`.
pub open spec fn chat_address(group_id: u128, token: Seq<char>) -> Seq<char> {
    "ws://127.0.0.1:3000/groups/"@ + uuid_text(group_id) + "/chat?token="@ + token
}

/// The value of the authorization header for the holder of `token`.
pub open spec fn bearer(token: Seq<char>) -> Seq<char> {
    "Bearer "@ + token
}

/// The body of a registration or a login.
pub open spec fn credentials_text(username: Seq<char>, password: Seq<char>) -> Seq<char> {
    "{\"password\":"@ + json_quoted(password) + ",\"username\":"@ + json_quoted(username) + "}"@
}

/// The body of the creation of a group.
pub open spec fn new_group_text(name: Seq<char>) -> Seq<char> {
    "{\"name\":"@ + json_quoted(name) + "}"@
}

/// The body of an invite.
pub open spec fn invite_text(user_to_invite_id: u128) -> Seq<char> {
    "{\"user_to_invite_id\":\""@ + uuid_text(user_to_invite_id) + "\"}"@
}

/// Joins a prefix, an identifier and a suffix.
fn around_id(prefix: &str, id: u128, suffix: &str) -> (text: String)
    ensures
        text@ == prefix@ + uuid_text(id) + suffix@,
{
    let mut text = String::from_str(prefix);
    let id_text = uuid_to_text(id);
    text.append(id_text.as_str());
    text.append(suffix);
    text
}

impl Endpoint {
    /// The path of the endpoint below the server's address.
    pub fn path(&self) -> (text: String)
        ensures
            text@ == endpoint_path(*self),
    {
        match self {
            Endpoint::Register => String::from_str("/users/register"),
            Endpoint::Login => String::from_str("/users/login"),
            Endpoint::Groups => String::from_str("/groups"),
            Endpoint::Leave(group_id) => around_id("/groups/", *group_id, "/leave"),
            Endpoint::UserByName(name) => {
                let mut text = String::from_str("/users/by_username/");
                text.append(name.as_str());
                text
            },
            Endpoint::Invite(group_id) => around_id("/groups/", *group_id, "/invite"),
            Endpoint::Invitations => String::from_str("/invitations"),
            Endpoint::Accept(invitation_id) => around_id("/invitations/", *invitation_id, "/accept"),
            Endpoint::Decline(invitation_id) => around_id(
                "/invitations/",
                *invitation_id,
                "/decline",
            ),
            Endpoint::Messages(group_id) => around_id("/groups/", *group_id, "/messages"),
            Endpoint::Members(group_id) => around_id("/groups/", *group_id, "/members"),
        }
    }

    /// The full address of the endpoint.
    pub fn url(&self) -> (text: String)
        ensures
            text@ == api_base() + endpoint_path(*self),
    {
        let mut text = String::from_str("http://127.0.0.1:3000");
        let path = self.path();
        text.append(path.as_str());
        text
    }
}

/// The address of a group's chat for the holder of `token`.
pub fn chat_url(group_id: u128, token: &str) -> (text: String)
    ensures
        text@ == chat_address(group_id, token@),
{
    let mut text = around_id("ws://127.0.0.1:3000/groups/", group_id, "/chat?token=");
    text.append(token);
    text
}

/// The value of the authorization header for the holder of `token`.
pub fn bearer_header(token: &str) -> (text: String)
    ensures
        text@ == bearer(token@),
{
    let mut text = String::from_str("Bearer ");
    text.append(token);
    text
}

/// The body of a registration or a login.
pub fn credentials_body(username: &str, password: &str) -> (text: String)
    ensures
        text@ == credentials_text(username@, password@),
{
    let mut text = String::from_str("{\"password\":");
    let quoted_password = json_quote(password);
    text.append(quoted_password.as_str());
    text.append(",\"username\":");
    let quoted_username = json_quote(username);
    text.append(quoted_username.as_str());
    text.append("}");
    text
}

/// The body of the creation of a group.
pub fn new_group_body(name: &str) -> (text: String)
    ensures
        text@ == new_group_text(name@),
{
    let mut text = String::from_str("{\"name\":");
    let quoted = json_quote(name);
    text.append(quoted.as_str());
    text.append("}");
    text
}

/// The body of an invite.
pub fn invite_body(user_to_invite_id: u128) -> (text: String)
    ensures
        text@ == invite_text(user_to_invite_id),
{
    around_id("{\"user_to_invite_id\":\"", user_to_invite_id, "\"}")
}

/// Whether `report` is the error with this text.
pub open spec fn is_error(report: FromBackend, text: Seq<char>) -> bool {
    report matches FromBackend::Error(shown) && shown@ == text
}

/// Whether `report` is the notice with this text.
pub open spec fn is_info(report: FromBackend, text: Seq<char>) -> bool {
    report matches FromBackend::Info(shown) && shown@ == text
}

/// Turns back a registration or login with an empty name or password.
pub fn check_credentials_input(username: &str, password: &str) -> (refusal: Option<FromBackend>)
    ensures
        (username@.len() == 0 || password@.len() == 0) <==> refusal is Some,
        refusal matches Some(report) ==> is_error(
            report,
            "Username e password non possono essere vuoti."@,
        ),
{
    if username.is_empty() || password.is_empty() {
        Some(FromBackend::Error(String::from_str("Username e password non possono essere vuoti.")))
    } else {
        None
    }
}

/// Turns back the creation of a group without a name.
pub fn check_group_name(name: &str) -> (refusal: Option<FromBackend>)
    ensures
        name@.len() == 0 <==> refusal is Some,
        refusal matches Some(report) ==> is_error(
            report,
            "Il nome del gruppo non può essere vuoto."@,
        ),
{
    if name.is_empty() {
        Some(FromBackend::Error(String::from_str("Il nome del gruppo non può essere vuoto.")))
    } else {
        None
    }
}

/// Turns back an invite that names nobody.
pub fn check_invited_name(username_to_invite: &str) -> (refusal: Option<FromBackend>)
    ensures
        username_to_invite@.len() == 0 <==> refusal is Some,
        refusal matches Some(report) ==> is_error(
            report,
            "Devi specificare un utente da invitare."@,
        ),
{
    if username_to_invite.is_empty() {
        Some(FromBackend::Error(String::from_str("Devi specificare un utente da invitare.")))
    } else {
        None
    }
}

} // verus!
