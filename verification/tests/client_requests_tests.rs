use ruggine::client::models::FromBackend;
use ruggine::client::requests::{
    bearer_header, chat_url, check_credentials_input, check_group_name, check_invited_name, credentials_body,
    invite_body, new_group_body, Endpoint,
};

const ID: u128 = 0x11111111_2222_3333_4444_555555555555;

fn error(text: &str) -> Option<FromBackend> {
    Some(FromBackend::Error(text.to_string()))
}

#[test]
fn endpoint_urls() {
    assert_eq!(Endpoint::Register.url(), "http://127.0.0.1:3000/users/register");
    assert_eq!(Endpoint::Login.url(), "http://127.0.0.1:3000/users/login");
    assert_eq!(Endpoint::Groups.url(), "http://127.0.0.1:3000/groups");
    assert_eq!(
        Endpoint::Leave(ID).url(),
        "http://127.0.0.1:3000/groups/11111111-2222-3333-4444-555555555555/leave"
    );
    assert_eq!(
        Endpoint::UserByName("alice".to_string()).url(),
        "http://127.0.0.1:3000/users/by_username/alice"
    );
    assert_eq!(
        Endpoint::Invite(ID).url(),
        "http://127.0.0.1:3000/groups/11111111-2222-3333-4444-555555555555/invite"
    );
    assert_eq!(Endpoint::Invitations.url(), "http://127.0.0.1:3000/invitations");
    assert_eq!(
        Endpoint::Accept(ID).url(),
        "http://127.0.0.1:3000/invitations/11111111-2222-3333-4444-555555555555/accept"
    );
    assert_eq!(
        Endpoint::Decline(ID).url(),
        "http://127.0.0.1:3000/invitations/11111111-2222-3333-4444-555555555555/decline"
    );
    assert_eq!(
        Endpoint::Messages(ID).url(),
        "http://127.0.0.1:3000/groups/11111111-2222-3333-4444-555555555555/messages"
    );
    assert_eq!(
        Endpoint::Members(ID).url(),
        "http://127.0.0.1:3000/groups/11111111-2222-3333-4444-555555555555/members"
    );
}

#[test]
fn endpoint_paths() {
    assert_eq!(Endpoint::Groups.path(), "/groups");
    assert_eq!(Endpoint::Leave(0).path(), "/groups/00000000-0000-0000-0000-000000000000/leave");
}

#[test]
fn chat_url_carries_group_and_token() {
    assert_eq!(
        chat_url(ID, "abc.def.ghi"),
        "ws://127.0.0.1:3000/groups/11111111-2222-3333-4444-555555555555/chat?token=abc.def.ghi"
    );
}

#[test]
fn bearer_header_value() {
    assert_eq!(bearer_header("abc"), "Bearer abc");
}

#[test]
fn request_bodies_are_json() {
    assert_eq!(credentials_body("alice", "pass\"word"), "{\"password\":\"pass\\\"word\",\"username\":\"alice\"}");
    assert_eq!(new_group_body("rust"), "{\"name\":\"rust\"}");
    assert_eq!(invite_body(ID), "{\"user_to_invite_id\":\"11111111-2222-3333-4444-555555555555\"}");
    let parsed: serde_json::Value =
        serde_json::from_str(&credentials_body("a\\b", "c\nd")).expect("valid JSON");
    assert_eq!(parsed["username"].as_str(), Some("a\\b"));
    assert_eq!(parsed["password"].as_str(), Some("c\nd"));
}

#[test]
fn empty_credentials_are_turned_back() {
    let refusal = error("Username e password non possono essere vuoti.");
    assert_eq!(check_credentials_input("", "secret"), refusal);
    assert_eq!(check_credentials_input("alice", ""), error("Username e password non possono essere vuoti."));
    assert_eq!(check_credentials_input("", ""), error("Username e password non possono essere vuoti."));
    assert_eq!(check_credentials_input("alice", "secret"), None);
}

#[test]
fn empty_group_name_is_turned_back() {
    assert_eq!(check_group_name(""), error("Il nome del gruppo non può essere vuoto."));
    assert_eq!(check_group_name("rust"), None);
}

#[test]
fn empty_invited_name_is_turned_back() {
    assert_eq!(check_invited_name(""), error("Devi specificare un utente da invitare."));
    assert_eq!(check_invited_name("bob"), None);
}
