//! The domain error catalog and the HTTP error mapper: a closed set of
//! business failure reasons, each with a fixed message; a uniform
//! message-plus-status error value with factories for the common statuses;
//! and a total, never-failing rendering into the one JSON error envelope
//! `{"status":"fail","message":...}`.

use vstd::prelude::*;
use vstd::string::StringExecFns;
use crate::text::{escape_json, spec_escape, spec_udec, u64_dec};

verus! {

/// The wire shape of every error body this layer emits. The `status` field
/// is the literal text "fail" whichever error occurred; success or failure
/// is told apart by the HTTP status code, not by this field.
#[derive(Debug)]
pub struct ErrorResponse {
    pub status: String,
    pub message: String,
}

/// The JSON object text for an envelope with the given `status` and
/// `message` field values.
pub open spec fn spec_envelope_json(status: Seq<char>, message: Seq<char>) -> Seq<char> {
    "{\"status\":\""@ + spec_escape(status) + "\",\"message\":\""@ + spec_escape(message) + "\"}"@
}

impl ErrorResponse {
    /// Serializes the envelope as JSON text. Total: it cannot fail, whatever
    /// the message holds (quotes, control characters, any Unicode).
    pub fn to_json(&self) -> (r: String)
        ensures
            r@ == spec_envelope_json(self.status@, self.message@),
    {
        let mut out = String::new();
        out.append("{\"status\":\"");
        let escaped_status = escape_json(self.status.as_str());
        out.append(escaped_status.as_str());
        out.append("\",\"message\":\"");
        let escaped_message = escape_json(self.message.as_str());
        out.append(escaped_message.as_str());
        out.append("\"}");
        proof {
            assert(out@ =~= spec_envelope_json(self.status@, self.message@));
        }
        out
    }
}

/// The closed catalog of business-level failure reasons. Every consumer
/// matches on it exhaustively, so no failure reason is ever dropped
/// silently.
#[derive(Clone, Copy, Debug, PartialEq, Eq, Structural)]
pub enum ErrorMessage {
    EmptyPassword,
    ExceededMaxPasswordLength(usize),
    HashingError,
    InvalidToken,
    ServerError,
    WrongCredentials,
    EmailExist,
    UserNoLongerExist,
    TokenNotProvided,
    PermissionDenied,
    UserNotAuthenticated,
    InvalidHashFormat,
}

/// The fixed message of each catalog entry. Only `ExceededMaxPasswordLength`
/// interpolates anything: the configured maximum length.
pub open spec fn spec_message(e: ErrorMessage) -> Seq<char> {
    match e {
        ErrorMessage::EmptyPassword => "Password cannot be empty"@,
        ErrorMessage::ExceededMaxPasswordLength(len) => "Password exceeded max length of "@
            + spec_udec(len as nat),
        ErrorMessage::HashingError => "Error hashing password"@,
        ErrorMessage::InvalidToken => "Invalid token"@,
        ErrorMessage::ServerError => "Internal server error"@,
        ErrorMessage::WrongCredentials => "Wrong credentials"@,
        ErrorMessage::EmailExist => "Email already exists"@,
        ErrorMessage::UserNoLongerExist => "User no longer exists"@,
        ErrorMessage::TokenNotProvided => "Token not provided"@,
        ErrorMessage::PermissionDenied => "Permission denied"@,
        ErrorMessage::UserNotAuthenticated => "User not authenticated"@,
        ErrorMessage::InvalidHashFormat => "Invalid password hash format"@,
    }
}

/// The fixed, total catalog-to-HTTP-status table: every catalog entry maps
/// to exactly one of the canonical statuses.
pub open spec fn spec_status(e: ErrorMessage) -> u16 {
    match e {
        ErrorMessage::EmptyPassword => 400,
        ErrorMessage::ExceededMaxPasswordLength(_) => 400,
        ErrorMessage::HashingError => 500,
        ErrorMessage::InvalidToken => 401,
        ErrorMessage::ServerError => 500,
        ErrorMessage::WrongCredentials => 401,
        ErrorMessage::EmailExist => 409,
        ErrorMessage::UserNoLongerExist => 404,
        ErrorMessage::TokenNotProvided => 401,
        ErrorMessage::PermissionDenied => 403,
        ErrorMessage::UserNotAuthenticated => 401,
        ErrorMessage::InvalidHashFormat => 500,
    }
}

impl ErrorMessage {
    /// Renders the entry's fixed message. Referentially stable: the same
    /// entry always yields the same text.
    pub fn message(&self) -> (r: String)
        ensures
            r@ == spec_message(*self),
    {
        match self {
            ErrorMessage::EmptyPassword => "Password cannot be empty".to_owned(),
            ErrorMessage::ExceededMaxPasswordLength(len) => {
                let mut r = "Password exceeded max length of ".to_owned();
                let digits = u64_dec(*len as u64);
                r.append(digits.as_str());
                r
            },
            ErrorMessage::HashingError => "Error hashing password".to_owned(),
            ErrorMessage::InvalidToken => "Invalid token".to_owned(),
            ErrorMessage::ServerError => "Internal server error".to_owned(),
            ErrorMessage::WrongCredentials => "Wrong credentials".to_owned(),
            ErrorMessage::EmailExist => "Email already exists".to_owned(),
            ErrorMessage::UserNoLongerExist => "User no longer exists".to_owned(),
            ErrorMessage::TokenNotProvided => "Token not provided".to_owned(),
            ErrorMessage::PermissionDenied => "Permission denied".to_owned(),
            ErrorMessage::UserNotAuthenticated => "User not authenticated".to_owned(),
            ErrorMessage::InvalidHashFormat => "Invalid password hash format".to_owned(),
        }
    }

    /// The entry's canonical HTTP status code.
    pub fn status_code(&self) -> (r: u16)
        ensures
            r == spec_status(*self),
    {
        match self {
            ErrorMessage::EmptyPassword => 400,
            ErrorMessage::ExceededMaxPasswordLength(_) => 400,
            ErrorMessage::HashingError => 500,
            ErrorMessage::InvalidToken => 401,
            ErrorMessage::ServerError => 500,
            ErrorMessage::WrongCredentials => 401,
            ErrorMessage::EmailExist => 409,
            ErrorMessage::UserNoLongerExist => 404,
            ErrorMessage::TokenNotProvided => 401,
            ErrorMessage::PermissionDenied => 403,
            ErrorMessage::UserNotAuthenticated => 401,
            ErrorMessage::InvalidHashFormat => 500,
        }
    }
}

/// Law: the catalog-to-status table is total over the closed catalog and
/// lands only on the canonical statuses this service uses, with the fixed
/// bindings for each kind of failure.
pub proof fn lemma_catalog_status_table(e: ErrorMessage)
    ensures
        spec_status(e) == 400 || spec_status(e) == 401 || spec_status(e) == 403 || spec_status(e)
            == 404 || spec_status(e) == 409 || spec_status(e) == 500,
        e is WrongCredentials ==> spec_status(e) == 401,
        e is EmailExist ==> spec_status(e) == 409,
        e is PermissionDenied ==> spec_status(e) == 403,
        e is UserNoLongerExist ==> spec_status(e) == 404,
        (e is ServerError || e is HashingError || e is InvalidHashFormat) ==> spec_status(e) == 500,
        (e is InvalidToken || e is TokenNotProvided || e is UserNotAuthenticated) ==> spec_status(e)
            == 401,
        (e is EmptyPassword || e is ExceededMaxPasswordLength) ==> spec_status(e) == 400,
{
}

/// An HTTP-level failure: a message and the status it travels under. Two
/// values with equal fields are interchangeable.
#[derive(Clone, Debug)]
pub struct HttpError {
    pub message: String,
    pub status: u16,
}

/// The rendering of an error: its status code beside the envelope's two
/// field values — `status` the literal "fail", `message` the error's own
/// message, untransformed.
pub open spec fn spec_render(h: HttpError) -> (u16, (Seq<char>, Seq<char>)) {
    (h.status, ("fail"@, h.message@))
}

impl HttpError {
    /// An error with the given message and status.
    pub fn new(message: String, status: u16) -> (r: HttpError)
        ensures
            r.message@ == message@,
            r.status == status,
    {
        HttpError { message, status }
    }

    /// A 500 Internal Server Error.
    pub fn server_error(message: String) -> (r: HttpError)
        ensures
            r.message@ == message@,
            r.status == 500,
    {
        HttpError { message, status: 500 }
    }

    /// A 400 Bad Request.
    pub fn bad_request(message: String) -> (r: HttpError)
        ensures
            r.message@ == message@,
            r.status == 400,
    {
        HttpError { message, status: 400 }
    }

    /// A 409 Conflict, for uniqueness violations.
    pub fn unique_constraint_violation(message: String) -> (r: HttpError)
        ensures
            r.message@ == message@,
            r.status == 409,
    {
        HttpError { message, status: 409 }
    }

    /// A 401 Unauthorized.
    pub fn unauthorized(message: String) -> (r: HttpError)
        ensures
            r.message@ == message@,
            r.status == 401,
    {
        HttpError { message, status: 401 }
    }

    /// Maps a catalog entry to its HTTP form: the entry's fixed message
    /// under its canonical status.
    pub fn from_message(e: ErrorMessage) -> (r: HttpError)
        ensures
            r.message@ == spec_message(e),
            r.status == spec_status(e),
    {
        HttpError { message: e.message(), status: e.status_code() }
    }

    /// Renders the error into its response parts: the status code and the
    /// one envelope shape, with `status` the literal "fail" and `message`
    /// the error's message exactly. Pure and total: it never fails.
    pub fn render(&self) -> (r: (u16, ErrorResponse))
        ensures
            (r.0, (r.1.status@, r.1.message@)) == spec_render(*self),
    {
        (self.status, ErrorResponse { status: "fail".to_owned(), message: self.message.clone() })
    }

    /// Renders the error for a log line.
    pub fn display(&self) -> (r: String)
        ensures
            r@ == "HttpError: message: "@ + self.message@ + ", status: "@ + spec_udec(
                self.status as nat,
            ),
    {
        let mut r = "HttpError: message: ".to_owned();
        r.append(self.message.as_str());
        r.append(", status: ");
        let digits = u64_dec(self.status as u64);
        r.append(digits.as_str());
        proof {
            assert(r@ =~= "HttpError: message: "@ + self.message@ + ", status: "@ + spec_udec(
                self.status as nat,
            ));
        }
        r
    }
}

/// Law: factory construction followed by rendering is a round trip. An
/// error built with status `s` and a message renders to exactly `s`, the
/// envelope status "fail", and the message character for character — no
/// transformation of the text.
pub proof fn lemma_factory_render_round_trip(h: HttpError)
    ensures
        spec_render(h).0 == h.status,
        spec_render(h).1.0 == "fail"@,
        spec_render(h).1.1 == h.message@,
{
}

} // verus!
