//! The ways a request can fail, each with the HTTP status and the message
//! that the caller gets to see.

use vstd::prelude::*;
use crate::wire::{single_member_json, single_member_object};

verus! {

/// Why a request was turned down.
#[derive(Debug, PartialEq, Eq)]
pub enum AppError {
    /// The store failed.
    DatabaseError,
    /// A token could not be issued or read.
    JwtError,
    /// A password could not be hashed.
    PasswordHashError,
    /// The request's input breaks a rule; the text says which.
    InvalidInput(String),
    WrongCredentials,
    UsernameExists,
    UserNotFound,
    GroupNotFound,
    /// The store refused a reference to a user or group it does not hold.
    UserOrGroupNotFound,
    InvitationNotFound,
    InvitationAlreadyExists,
    UserAlreadyInGroup,
    MissingPermissions,
    CannotInviteSelf,
}

/// Why a request was not let in.
#[derive(Clone, Copy, Debug, PartialEq, Eq, Structural)]
pub enum AuthError {
    InvalidToken,
}

/// The HTTP status that answers a request that failed with `error`.
pub open spec fn status_of(error: AppError) -> u16 {
    match error {
        AppError::DatabaseError => 500,
        AppError::JwtError => 401,
        AppError::PasswordHashError => 500,
        AppError::InvalidInput(_) => 400,
        AppError::WrongCredentials => 401,
        AppError::UsernameExists => 409,
        AppError::UserNotFound => 404,
        AppError::GroupNotFound => 404,
        AppError::UserOrGroupNotFound => 404,
        AppError::InvitationNotFound => 404,
        AppError::InvitationAlreadyExists => 409,
        AppError::UserAlreadyInGroup => 409,
        AppError::MissingPermissions => 403,
        AppError::CannotInviteSelf => 400,
    }
}

/// The message that a request that failed with `error` is answered with.
pub open spec fn message_of(error: AppError) -> Seq<char> {
    match error {
        AppError::DatabaseError => "Si è verificato un errore interno del server"@,
        AppError::JwtError => "Token di autenticazione non valido"@,
        AppError::PasswordHashError => "Impossibile elaborare la richiesta"@,
        AppError::InvalidInput(text) => text@,
        AppError::WrongCredentials => "Nome utente o password non validi"@,
        AppError::UsernameExists => "Il nome utente esiste già"@,
        AppError::UserNotFound => "Utente non trovato"@,
        AppError::GroupNotFound => "Gruppo non trovato"@,
        AppError::UserOrGroupNotFound => "L'utente o il gruppo specificato non esiste"@,
        AppError::InvitationNotFound => "Invito non trovato o già gestito"@,
        AppError::InvitationAlreadyExists => "Esiste già un invito per questo utente in questo gruppo"@,
        AppError::UserAlreadyInGroup => "L'utente è già un membro di questo gruppo"@,
        AppError::MissingPermissions => "Non hai il permesso per eseguire questa azione"@,
        AppError::CannotInviteSelf => "Non puoi invitare te stesso in un gruppo"@,
    }
}

impl AppError {
    /// The HTTP status that answers the failed request.
    pub fn status_code(&self) -> (status: u16)
        ensures
            status == status_of(*self),
    {
        match self {
            AppError::DatabaseError => 500,
            AppError::JwtError => 401,
            AppError::PasswordHashError => 500,
            AppError::InvalidInput(_) => 400,
            AppError::WrongCredentials => 401,
            AppError::UsernameExists => 409,
            AppError::UserNotFound => 404,
            AppError::GroupNotFound => 404,
            AppError::UserOrGroupNotFound => 404,
            AppError::InvitationNotFound => 404,
            AppError::InvitationAlreadyExists => 409,
            AppError::UserAlreadyInGroup => 409,
            AppError::MissingPermissions => 403,
            AppError::CannotInviteSelf => 400,
        }
    }

    /// The message that the caller gets to see.
    pub fn message(&self) -> (text: String)
        ensures
            text@ == message_of(*self),
    {
        match self {
            AppError::DatabaseError => String::from_str(
                "Si è verificato un errore interno del server",
            ),
            AppError::JwtError => String::from_str("Token di autenticazione non valido"),
            AppError::PasswordHashError => String::from_str("Impossibile elaborare la richiesta"),
            AppError::InvalidInput(text) => text.clone(),
            AppError::WrongCredentials => String::from_str("Nome utente o password non validi"),
            AppError::UsernameExists => String::from_str("Il nome utente esiste già"),
            AppError::UserNotFound => String::from_str("Utente non trovato"),
            AppError::GroupNotFound => String::from_str("Gruppo non trovato"),
            AppError::UserOrGroupNotFound => String::from_str(
                "L'utente o il gruppo specificato non esiste",
            ),
            AppError::InvitationNotFound => String::from_str("Invito non trovato o già gestito"),
            AppError::InvitationAlreadyExists => String::from_str(
                "Esiste già un invito per questo utente in questo gruppo",
            ),
            AppError::UserAlreadyInGroup => String::from_str(
                "L'utente è già un membro di questo gruppo",
            ),
            AppError::MissingPermissions => String::from_str(
                "Non hai il permesso per eseguire questa azione",
            ),
            AppError::CannotInviteSelf => String::from_str("Non puoi invitare te stesso in un gruppo"),
        }
    }

    /// The body of the answer: a JSON object with the message under
    /// `error`.
    pub fn body(&self) -> (text: String)
        ensures
            text@ == single_member_object("error"@, message_of(*self)),
    {
        let message = self.message();
        single_member_json("error", message.as_str())
    }
}

impl AuthError {
    /// The HTTP status that answers the request: unauthorized.
    pub fn status_code(&self) -> (status: u16)
        ensures
            status == 401,
    {
        401
    }

    /// The message that the caller gets to see.
    pub fn message(&self) -> (text: String)
        ensures
            text@ == "Token di autenticazione non valido o mancante."@,
    {
        String::from_str("Token di autenticazione non valido o mancante.")
    }

    /// The body of the answer: a JSON object with the message under
    /// `message`.
    pub fn body(&self) -> (text: String)
        ensures
            text@ == single_member_object(
                "message"@,
                "Token di autenticazione non valido o mancante."@,
            ),
    {
        let message = self.message();
        single_member_json("message", message.as_str())
    }
}

} // verus!
