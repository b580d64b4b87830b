use account_api::error::{ErrorMessage, ErrorResponse, HttpError};

#[test]
fn catalog_statuses_are_fixed_over_all_variants() {
    let table = vec![
        (ErrorMessage::EmptyPassword, 400),
        (ErrorMessage::ExceededMaxPasswordLength(64), 400),
        (ErrorMessage::HashingError, 500),
        (ErrorMessage::InvalidToken, 401),
        (ErrorMessage::ServerError, 500),
        (ErrorMessage::WrongCredentials, 401),
        (ErrorMessage::EmailExist, 409),
        (ErrorMessage::UserNoLongerExist, 404),
        (ErrorMessage::TokenNotProvided, 401),
        (ErrorMessage::PermissionDenied, 403),
        (ErrorMessage::UserNotAuthenticated, 401),
        (ErrorMessage::InvalidHashFormat, 500),
    ];
    for (e, status) in table {
        assert_eq!(e.status_code(), status);
        let h = HttpError::from_message(e);
        assert_eq!(h.status, status);
        assert_eq!(h.message, e.message());
    }
}

#[test]
fn catalog_messages_are_fixed_and_stable() {
    let table = vec![
        (ErrorMessage::EmptyPassword, "Password cannot be empty"),
        (ErrorMessage::ExceededMaxPasswordLength(64), "Password exceeded max length of 64"),
        (ErrorMessage::HashingError, "Error hashing password"),
        (ErrorMessage::InvalidToken, "Invalid token"),
        (ErrorMessage::ServerError, "Internal server error"),
        (ErrorMessage::WrongCredentials, "Wrong credentials"),
        (ErrorMessage::EmailExist, "Email already exists"),
        (ErrorMessage::UserNoLongerExist, "User no longer exists"),
        (ErrorMessage::TokenNotProvided, "Token not provided"),
        (ErrorMessage::PermissionDenied, "Permission denied"),
        (ErrorMessage::UserNotAuthenticated, "User not authenticated"),
        (ErrorMessage::InvalidHashFormat, "Invalid password hash format"),
    ];
    for (e, message) in table {
        assert_eq!(e.message(), message);
        // Rendering twice yields the same text: referentially stable.
        assert_eq!(e.message(), e.message());
    }
}

#[test]
fn max_length_message_interpolates_the_limit() {
    assert_eq!(
        ErrorMessage::ExceededMaxPasswordLength(0).message(),
        "Password exceeded max length of 0"
    );
    assert_eq!(
        ErrorMessage::ExceededMaxPasswordLength(128).message(),
        "Password exceeded max length of 128"
    );
}

#[test]
fn factories_bind_their_canonical_status() {
    assert_eq!(HttpError::server_error("a".to_string()).status, 500);
    assert_eq!(HttpError::bad_request("b".to_string()).status, 400);
    assert_eq!(HttpError::unique_constraint_violation("c".to_string()).status, 409);
    assert_eq!(HttpError::unauthorized("d".to_string()).status, 401);
    let h = HttpError::new("e".to_string(), 404);
    assert_eq!(h.status, 404);
    assert_eq!(h.message, "e");
}

#[test]
fn factory_then_render_is_a_round_trip() {
    let (status, body) = HttpError::bad_request("X".to_string()).render();
    assert_eq!(status, 400);
    assert_eq!(body.status, "fail");
    assert_eq!(body.message, "X");
}

#[test]
fn envelope_json_has_exact_shape() {
    let body = ErrorResponse { status: "fail".to_string(), message: "X".to_string() };
    assert_eq!(body.to_json(), "{\"status\":\"fail\",\"message\":\"X\"}");
}

#[test]
fn envelope_escapes_controls_as_unicode_sequences() {
    let body = ErrorResponse { status: "fail".to_string(), message: "a\nb".to_string() };
    assert_eq!(body.to_json(), "{\"status\":\"fail\",\"message\":\"a\\u000ab\"}");
}

#[test]
fn rendering_never_fails_and_always_yields_valid_json() {
    let messages = vec![
        "".to_string(),
        "plain".to_string(),
        "with \"embedded\" quotes".to_string(),
        "back\\slash and more \\\" mixed".to_string(),
        "uñicode – ßtraße 目本".to_string(),
        "line\nbreak\ttab\rreturn".to_string(),
        "\u{1}\u{2}\u{1f}low controls".to_string(),
        "{\"status\":\"fail\"}".to_string(),
    ];
    for message in messages {
        let (status, body) = HttpError::server_error(message.clone()).render();
        assert_eq!(status, 500);
        assert_eq!(body.status, "fail");
        let text = body.to_json();
        let value: serde_json::Value = serde_json::from_str(&text).unwrap();
        assert_eq!(value.get("status").unwrap().as_str().unwrap(), "fail");
        assert_eq!(value.get("message").unwrap().as_str().unwrap(), message);
    }
}

#[test]
fn catalog_equality_is_structural() {
    assert_eq!(ErrorMessage::WrongCredentials, ErrorMessage::WrongCredentials);
    assert_eq!(
        ErrorMessage::ExceededMaxPasswordLength(64),
        ErrorMessage::ExceededMaxPasswordLength(64)
    );
    assert_ne!(
        ErrorMessage::ExceededMaxPasswordLength(64),
        ErrorMessage::ExceededMaxPasswordLength(65)
    );
    assert_ne!(ErrorMessage::ServerError, ErrorMessage::HashingError);
}

#[test]
fn display_line_names_message_and_status() {
    let h = HttpError::server_error("boom".to_string());
    assert_eq!(h.display(), "HttpError: message: boom, status: 500");
}
