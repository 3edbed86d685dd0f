use ruggine::error::{AppError, AuthError};
use ruggine::wire::single_member_json;

#[test]
fn app_error_status_codes() {
    assert_eq!(AppError::DatabaseError.status_code(), 500);
    assert_eq!(AppError::JwtError.status_code(), 401);
    assert_eq!(AppError::PasswordHashError.status_code(), 500);
    assert_eq!(AppError::InvalidInput("x".to_string()).status_code(), 400);
    assert_eq!(AppError::WrongCredentials.status_code(), 401);
    assert_eq!(AppError::UsernameExists.status_code(), 409);
    assert_eq!(AppError::UserNotFound.status_code(), 404);
    assert_eq!(AppError::GroupNotFound.status_code(), 404);
    assert_eq!(AppError::UserOrGroupNotFound.status_code(), 404);
    assert_eq!(AppError::InvitationNotFound.status_code(), 404);
    assert_eq!(AppError::InvitationAlreadyExists.status_code(), 409);
    assert_eq!(AppError::UserAlreadyInGroup.status_code(), 409);
    assert_eq!(AppError::MissingPermissions.status_code(), 403);
    assert_eq!(AppError::CannotInviteSelf.status_code(), 400);
}

#[test]
fn app_error_messages() {
    assert_eq!(AppError::DatabaseError.message(), "Si è verificato un errore interno del server");
    assert_eq!(AppError::JwtError.message(), "Token di autenticazione non valido");
    assert_eq!(AppError::PasswordHashError.message(), "Impossibile elaborare la richiesta");
    assert_eq!(AppError::InvalidInput("troppo corto".to_string()).message(), "troppo corto");
    assert_eq!(AppError::WrongCredentials.message(), "Nome utente o password non validi");
    assert_eq!(AppError::UsernameExists.message(), "Il nome utente esiste già");
    assert_eq!(AppError::UserNotFound.message(), "Utente non trovato");
    assert_eq!(AppError::GroupNotFound.message(), "Gruppo non trovato");
    assert_eq!(AppError::UserOrGroupNotFound.message(), "L'utente o il gruppo specificato non esiste");
    assert_eq!(AppError::InvitationNotFound.message(), "Invito non trovato o già gestito");
    assert_eq!(
        AppError::InvitationAlreadyExists.message(),
        "Esiste già un invito per questo utente in questo gruppo"
    );
    assert_eq!(AppError::UserAlreadyInGroup.message(), "L'utente è già un membro di questo gruppo");
    assert_eq!(AppError::MissingPermissions.message(), "Non hai il permesso per eseguire questa azione");
    assert_eq!(AppError::CannotInviteSelf.message(), "Non puoi invitare te stesso in un gruppo");
}

#[test]
fn app_error_body_is_json() {
    assert_eq!(AppError::UserNotFound.body(), "{\"error\":\"Utente non trovato\"}");
    assert_eq!(
        AppError::InvalidInput("a \"quoted\" word".to_string()).body(),
        "{\"error\":\"a \\\"quoted\\\" word\"}"
    );
    let parsed: serde_json::Value =
        serde_json::from_str(&AppError::UsernameExists.body()).expect("valid JSON");
    assert_eq!(parsed["error"].as_str(), Some("Il nome utente esiste già"));
}

#[test]
fn auth_error_answer() {
    assert_eq!(AuthError::InvalidToken.status_code(), 401);
    assert_eq!(AuthError::InvalidToken.message(), "Token di autenticazione non valido o mancante.");
    assert_eq!(
        AuthError::InvalidToken.body(),
        "{\"message\":\"Token di autenticazione non valido o mancante.\"}"
    );
}

#[test]
fn single_member_json_quotes_key_and_value() {
    assert_eq!(single_member_json("k", "v"), "{\"k\":\"v\"}");
    assert_eq!(single_member_json("a\"b", "c\\d"), "{\"a\\\"b\":\"c\\\\d\"}");
}
