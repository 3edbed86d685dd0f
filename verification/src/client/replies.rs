//! What the client makes of the server's answers: each answer becomes a
//! report to the window, with the words that the user gets to read.

use vstd::prelude::*;
use crate::client::models::{FromBackend, Group, Invitation, LoginResponse, User};
use crate::client::requests::{is_error, is_info};
use crate::wire::{server_frame_parts, WsServerMessage};

verus! {

/// What came back for a request.
#[derive(Debug, PartialEq, Eq)]
pub enum HttpReply {
    /// The server could not be reached.
    Unreachable,
    /// The server answered with this status; `text` is the body, read as
    /// text, if it could be read.
    Answered { status: u16, text: Option<String> },
}

/// Whether a status says that the request was carried out.
pub open spec fn success(status: u16) -> bool {
    200 <= status < 300
}

/// Whether a status says that the request was carried out.
pub fn is_success(status: u16) -> (yes: bool)
    ensures
        yes == success(status),
{
    200 <= status && status < 300
}

/// The text of an answer, or `fallback` where it could not be read.
pub open spec fn text_or(text: Option<String>, fallback: Seq<char>) -> Seq<char> {
    match text {
        Some(body) => body@,
        None => fallback,
    }
}

/// The error that shows the text of an answer, or `fallback` where it
/// could not be read.
fn error_from(text: Option<String>, fallback: &str) -> (report: FromBackend)
    ensures
        is_error(report, text_or(text, fallback@)),
{
    match text {
        Some(body) => FromBackend::Error(body),
        None => FromBackend::Error(String::from_str(fallback)),
    }
}

/// The error with this text.
fn error(text: &str) -> (report: FromBackend)
    ensures
        is_error(report, text@),
{
    FromBackend::Error(String::from_str(text))
}

/// What the window is told about a registration.
pub fn registration_report(reply: HttpReply) -> (report: FromBackend)
    ensures
        match reply {
            HttpReply::Unreachable => is_error(report, "Impossibile connettersi al server."@),
            HttpReply::Answered { status, text } => if success(status) {
                report == FromBackend::Registered
            } else if status == 400 {
                is_error(report, "La password è troppo corta."@)
            } else if status == 409 {
                is_error(report, "Nome utente già in uso."@)
            } else {
                is_error(report, text_or(text, "Errore sconosciuto."@))
            },
        },
{
    match reply {
        HttpReply::Unreachable => error("Impossibile connettersi al server."),
        HttpReply::Answered { status, text } => if is_success(status) {
            FromBackend::Registered
        } else if status == 400 {
            error("La password è troppo corta.")
        } else if status == 409 {
            error("Nome utente già in uso.")
        } else {
            error_from(text, "Errore sconosciuto.")
        },
    }
}

/// What the window is told about a login. `parsed` is the body of a
/// successful answer, if it could be read as a login response.
pub fn login_report(reply: HttpReply, parsed: Option<LoginResponse>) -> (report: FromBackend)
    ensures
        match reply {
            HttpReply::Unreachable => is_error(report, "Impossibile connettersi al server."@),
            HttpReply::Answered { status, text } => if success(status) {
                match parsed {
                    Some(login) => report == FromBackend::LoggedIn(
                        login.user,
                        login.token,
                        login.groups,
                    ),
                    None => is_error(report, "Errore risposta server."@),
                }
            } else if status == 401 {
                is_error(report, "Username e password errati."@)
            } else if status == 404 {
                is_error(report, "Utente non trovato."@)
            } else {
                is_error(report, text_or(text, "Errore sconosciuto."@))
            },
        },
{
    match reply {
        HttpReply::Unreachable => error("Impossibile connettersi al server."),
        HttpReply::Answered { status, text } => if is_success(status) {
            match parsed {
                Some(login) => FromBackend::LoggedIn(login.user, login.token, login.groups),
                None => error("Errore risposta server."),
            }
        } else if status == 401 {
            error("Username e password errati.")
        } else if status == 404 {
            error("Utente non trovato.")
        } else {
            error_from(text, "Errore sconosciuto.")
        },
    }
}

/// What became of the creation of a group: the group, or what the window
/// is told instead. `parsed` is the body of a successful answer, if it
/// could be read as a group.
pub fn created_group(reply: HttpReply, parsed: Option<Group>) -> (outcome: Result<Group, FromBackend>)
    ensures
        match reply {
            HttpReply::Unreachable => outcome matches Err(report) && is_error(
                report,
                "Errore di connessione."@,
            ),
            HttpReply::Answered { status, text } => if success(status) {
                match parsed {
                    Some(group) => outcome == Ok::<Group, FromBackend>(group),
                    None => outcome matches Err(report) && is_error(
                        report,
                        "Errore decodifica gruppo creato."@,
                    ),
                }
            } else {
                outcome matches Err(report) && is_error(report, text_or(text, ""@))
            },
        },
{
    match reply {
        HttpReply::Unreachable => Err(error("Errore di connessione.")),
        HttpReply::Answered { status, text } => if is_success(status) {
            match parsed {
                Some(group) => Ok(group),
                None => Err(error("Errore decodifica gruppo creato.")),
            }
        } else {
            Err(error_from(text, ""))
        },
    }
}

/// What the window is told about leaving the group `group_id`.
pub fn leave_report(reply: HttpReply, group_id: u128) -> (report: FromBackend)
    ensures
        match reply {
            HttpReply::Unreachable => is_error(report, "Errore di connessione."@),
            HttpReply::Answered { status, text } => if success(status) {
                report == FromBackend::GroupLeft(group_id)
            } else {
                is_error(report, text_or(text, "Errore durante l'uscita dal gruppo."@))
            },
        },
{
    match reply {
        HttpReply::Unreachable => error("Errore di connessione."),
        HttpReply::Answered { status, text } => if is_success(status) {
            FromBackend::GroupLeft(group_id)
        } else {
            error_from(text, "Errore durante l'uscita dal gruppo.")
        },
    }
}

/// The words for a user that was not found under `username`.
pub open spec fn user_not_found_text(username: Seq<char>) -> Seq<char> {
    "Utente '"@ + username + "' non trovato."@
}

/// The words for an invitation sent to `username`.
pub open spec fn invitation_sent_text(username: Seq<char>) -> Seq<char> {
    "Invito inviato a "@ + username + "."@
}

/// The user to invite, looked up under `username`, or what the window is
/// told if the lookup found none. `parsed` is the body of a successful
/// answer, if it could be read as a user.
pub fn invited_user(reply: HttpReply, parsed: Option<User>, username: &str) -> (outcome: Result<
    User,
    FromBackend,
>)
    ensures
        match (reply, parsed) {
            (HttpReply::Answered { status, text }, Some(user)) if success(status) => outcome
                == Ok::<User, FromBackend>(user),
            _ => outcome matches Err(report) && is_error(report, user_not_found_text(username@)),
        },
{
    match (reply, parsed) {
        (HttpReply::Answered { status, text }, Some(user)) if is_success(status) => Ok(user),
        _ => {
            let mut words = String::from_str("Utente '");
            words.append(username);
            words.append("' non trovato.");
            Err(FromBackend::Error(words))
        },
    }
}

/// What the window is told about an invite sent to `username`.
pub fn invite_report(reply: HttpReply, username: &str) -> (report: FromBackend)
    ensures
        match reply {
            HttpReply::Unreachable => is_error(report, "Errore di connessione durante l'invito."@),
            HttpReply::Answered { status, text } => if success(status) {
                is_info(report, invitation_sent_text(username@))
            } else if status == 403 {
                is_error(report, "Errore, l'utente che invita non è membro del gruppo."@)
            } else if status == 404 {
                is_error(report, "L'utente o il gruppo non esistono."@)
            } else if status == 409 {
                is_error(report, "L'utente è già membro del gruppo."@)
            } else {
                is_error(report, text_or(text, "Errore sconosciuto."@))
            },
        },
{
    match reply {
        HttpReply::Unreachable => error("Errore di connessione durante l'invito."),
        HttpReply::Answered { status, text } => if is_success(status) {
            let mut words = String::from_str("Invito inviato a ");
            words.append(username);
            words.append(".");
            FromBackend::Info(words)
        } else if status == 403 {
            error("Errore, l'utente che invita non è membro del gruppo.")
        } else if status == 404 {
            error("L'utente o il gruppo non esistono.")
        } else if status == 409 {
            error("L'utente è già membro del gruppo.")
        } else {
            error_from(text, "Errore sconosciuto.")
        },
    }
}

/// What the window is told about the pending invitations. `parsed` is the
/// body of a successful answer, if it could be read as invitations.
pub fn invitations_report(reply: HttpReply, parsed: Option<Vec<Invitation>>) -> (report: FromBackend)
    ensures
        match reply {
            HttpReply::Answered { status, text } if success(status) => match parsed {
                Some(invitations) => report == FromBackend::InvitationsFetched(invitations),
                None => is_error(report, "Errore nel decodificare gli inviti."@),
            },
            _ => is_error(report, "Impossibile recuperare gli inviti."@),
        },
{
    match reply {
        HttpReply::Answered { status, text } if is_success(status) => match parsed {
            Some(invitations) => FromBackend::InvitationsFetched(invitations),
            None => error("Errore nel decodificare gli inviti."),
        },
        _ => error("Impossibile recuperare gli inviti."),
    }
}

/// What became of accepting an invitation: the group joined, or what the
/// window is told instead. `parsed` is the body of a successful answer,
/// if it could be read as a group.
pub fn accepted_group(reply: HttpReply, parsed: Option<Group>) -> (outcome: Result<Group, FromBackend>)
    ensures
        match reply {
            HttpReply::Unreachable => outcome matches Err(report) && is_error(
                report,
                "Errore di connessione."@,
            ),
            HttpReply::Answered { status, text } => if success(status) {
                match parsed {
                    Some(group) => outcome == Ok::<Group, FromBackend>(group),
                    None => outcome matches Err(report) && is_error(
                        report,
                        "Errore decodifica gruppo."@,
                    ),
                }
            } else if status == 404 {
                outcome matches Err(report) && is_error(report, "Inviti non trovati."@)
            } else {
                outcome matches Err(report) && is_error(
                    report,
                    text_or(text, "Errore sconosciuto."@),
                )
            },
        },
{
    match reply {
        HttpReply::Unreachable => Err(error("Errore di connessione.")),
        HttpReply::Answered { status, text } => if is_success(status) {
            match parsed {
                Some(group) => Ok(group),
                None => Err(error("Errore decodifica gruppo.")),
            }
        } else if status == 404 {
            Err(error("Inviti non trovati."))
        } else {
            Err(error_from(text, "Errore sconosciuto."))
        },
    }
}

/// What the window is told about declining the invitation
/// `invitation_id`.
pub fn decline_report(reply: HttpReply, invitation_id: u128) -> (report: FromBackend)
    ensures
        match reply {
            HttpReply::Unreachable => is_error(report, "Errore di connessione."@),
            HttpReply::Answered { status, text } => if success(status) {
                report == FromBackend::InvitationDeclined(invitation_id)
            } else if status == 404 {
                is_error(report, "Inviti non trovati."@)
            } else {
                is_error(report, text_or(text, "Errore sconosciuto."@))
            },
        },
{
    match reply {
        HttpReply::Unreachable => error("Errore di connessione."),
        HttpReply::Answered { status, text } => if is_success(status) {
            FromBackend::InvitationDeclined(invitation_id)
        } else if status == 404 {
            error("Inviti non trovati.")
        } else {
            error_from(text, "Errore sconosciuto.")
        },
    }
}

/// What the window is told about the history of the group `group_id`.
/// `parsed` is the body of a successful answer, if it could be read as
/// messages.
pub fn history_report(reply: HttpReply, parsed: Option<Vec<WsServerMessage>>, group_id: u128) -> (report:
    FromBackend)
    ensures
        match reply {
            HttpReply::Unreachable => is_error(
                report,
                "Errore di connessione per la cronologia dei messaggi."@,
            ),
            HttpReply::Answered { status, text } => if success(status) {
                match parsed {
                    Some(messages) => report == FromBackend::GroupMessagesFetched(
                        group_id,
                        messages,
                    ),
                    None => is_error(
                        report,
                        "Errore nel decodificare la cronologia dei messaggi."@,
                    ),
                }
            } else if status == 403 {
                is_error(report, "Accesso negato, l'utente non è membro del gruppo."@)
            } else {
                is_error(report, text_or(text, "Errore sconosciuto."@))
            },
        },
{
    match reply {
        HttpReply::Unreachable => error("Errore di connessione per la cronologia dei messaggi."),
        HttpReply::Answered { status, text } => if is_success(status) {
            match parsed {
                Some(messages) => FromBackend::GroupMessagesFetched(group_id, messages),
                None => error("Errore nel decodificare la cronologia dei messaggi."),
            }
        } else if status == 403 {
            error("Accesso negato, l'utente non è membro del gruppo.")
        } else {
            error_from(text, "Errore sconosciuto.")
        },
    }
}

/// What the window is told about the members of the group `group_id`.
/// `parsed` is the body of a successful answer, if it could be read as
/// users.
pub fn members_report(reply: HttpReply, parsed: Option<Vec<User>>, group_id: u128) -> (report: FromBackend)
    ensures
        match reply {
            HttpReply::Unreachable => is_error(report, "Errore richiesta handle fetch"@),
            HttpReply::Answered { status, text } => if success(status) {
                match parsed {
                    Some(members) => report == FromBackend::GroupMembersFetched(group_id, members),
                    None => is_error(report, "Errore nel decodificare i membri del gruppo."@),
                }
            } else {
                is_error(report, text_or(text, "Errore sconosciuto."@))
            },
        },
{
    match reply {
        HttpReply::Unreachable => error("Errore richiesta handle fetch"),
        HttpReply::Answered { status, text } => if is_success(status) {
            match parsed {
                Some(members) => FromBackend::GroupMembersFetched(group_id, members),
                None => error("Errore nel decodificare i membri del gruppo."),
            }
        } else {
            error_from(text, "Errore sconosciuto.")
        },
    }
}

/// The words for a chat that could not be reached, for the given reason.
pub open spec fn chat_unreachable_text(reason: Seq<char>) -> Seq<char> {
    "Impossibile connettersi alla chat: "@ + reason
}

/// What the window is told when a group's chat could not be reached.
pub fn chat_unreachable(reason: &str) -> (report: FromBackend)
    ensures
        is_error(report, chat_unreachable_text(reason@)),
{
    let mut words = String::from_str("Impossibile connettersi alla chat: ");
    words.append(reason);
    FromBackend::Error(words)
}

/// The words for a group that was entered.
pub open spec fn entered_text(group_name: Seq<char>) -> Seq<char> {
    "Entrato in '"@ + group_name + "'"@
}

/// What the window is told when the group `group_name` was entered.
pub fn entered_notice(group_name: &str) -> (report: FromBackend)
    ensures
        is_info(report, entered_text(group_name@)),
{
    let mut words = String::from_str("Entrato in '");
    words.append(group_name);
    words.append("'");
    FromBackend::Info(words)
}

/// What the window is told after a logout.
pub fn logout_notice() -> (report: FromBackend)
    ensures
        is_info(report, "Logout effettuato."@),
{
    FromBackend::Info(String::from_str("Logout effettuato."))
}

/// What the window is told when a message could not be sent.
pub fn connection_lost() -> (report: FromBackend)
    ensures
        is_error(report, "Connessione persa."@),
{
    error("Connessione persa.")
}

/// What the window is told about a text frame that arrived on the chat of
/// the group `group_id`: the message it carries, or nothing for a frame
/// that carries none.
pub fn incoming_report(group_id: u128, text: &str) -> (report: Option<FromBackend>)
    ensures
        report is Some <==> server_frame_parts(text@) is Some,
        report matches Some(FromBackend::NewMessage(group, message)) ==> group == group_id
            && server_frame_parts(text@) == Some(
            (message.sender_id, message.sender_username@, message.content@),
        ),
        report matches Some(told) ==> told is NewMessage,
{
    match WsServerMessage::parse(text) {
        Some(message) => Some(FromBackend::NewMessage(group_id, message)),
        None => None,
    }
}

} // verus!
