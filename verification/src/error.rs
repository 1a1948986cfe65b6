//! Errors that handlers return, and the problem-details body they are answered with.

use vstd::prelude::*;

verus! {

/// The class of an [`AppError`], which decides the HTTP status of the reply.
#[derive(PartialEq, Eq, Structural, Clone, Copy, Debug)]
pub enum ErrorKind {
    NotFound,
    BadRequest,
    Internal,
    Conflict,
    Unauthorized,
    Forbidden,
}

/// The messages that request validation reported for one field.
#[derive(Debug)]
pub struct FieldErrors {
    pub field: String,
    pub messages: Vec<String>,
}

impl View for FieldErrors {
    type V = (Seq<char>, Seq<Seq<char>>);

    open spec fn view(&self) -> (Seq<char>, Seq<Seq<char>>) {
        (self.field@, self.messages@.map_values(|m: String| m@))
    }
}

/// What an error carries for the client: a message, or the validation errors by field
/// (answered as `{"validation_errors": {field: [messages]}}`).
#[derive(Debug)]
pub enum ErrorDetail {
    Message(String),
    ValidationErrors(Vec<FieldErrors>),
}

/// Mathematical form of an [`ErrorDetail`].
pub enum DetailView {
    Message(Seq<char>),
    ValidationErrors(Seq<(Seq<char>, Seq<Seq<char>>)>),
}

impl View for ErrorDetail {
    type V = DetailView;

    open spec fn view(&self) -> DetailView {
        match self {
            ErrorDetail::Message(m) => DetailView::Message(m@),
            ErrorDetail::ValidationErrors(fields) => DetailView::ValidationErrors(
                fields@.map_values(|f: FieldErrors| f@),
            ),
        }
    }
}

/// The error of a request handler.
#[derive(Debug)]
pub enum AppError {
    NotFound(ErrorDetail),
    BadRequest(ErrorDetail),
    Internal(ErrorDetail),
    Conflict(ErrorDetail),
    Unauthorized(ErrorDetail),
    Forbidden(ErrorDetail),
}

impl AppError {
    pub open spec fn kind(self) -> ErrorKind {
        match self {
            AppError::NotFound(_) => ErrorKind::NotFound,
            AppError::BadRequest(_) => ErrorKind::BadRequest,
            AppError::Internal(_) => ErrorKind::Internal,
            AppError::Conflict(_) => ErrorKind::Conflict,
            AppError::Unauthorized(_) => ErrorKind::Unauthorized,
            AppError::Forbidden(_) => ErrorKind::Forbidden,
        }
    }

    pub open spec fn detail(self) -> ErrorDetail {
        match self {
            AppError::NotFound(d) => d,
            AppError::BadRequest(d) => d,
            AppError::Internal(d) => d,
            AppError::Conflict(d) => d,
            AppError::Unauthorized(d) => d,
            AppError::Forbidden(d) => d,
        }
    }
}

impl View for AppError {
    type V = (ErrorKind, DetailView);

    open spec fn view(&self) -> (ErrorKind, DetailView) {
        (self.kind(), self.detail()@)
    }
}

/// The view of an error of the given kind that carries the message `text`.
pub open spec fn message_error(kind: ErrorKind, text: Seq<char>) -> (ErrorKind, DetailView) {
    (kind, DetailView::Message(text))
}

/// Whether `r` is the error of kind `kind` carrying the message `message`.
pub open spec fn fails_with<T>(r: Result<T, AppError>, kind: ErrorKind, message: Seq<char>) -> bool {
    r matches Err(e) && e@ == message_error(kind, message)
}

/// An owned copy of a text.
pub fn text(s: &str) -> (r: String)
    ensures
        r@ == s@,
{
    s.to_owned()
}

/// The error of kind `kind` carrying `detail`.
pub fn error_with(kind: ErrorKind, detail: ErrorDetail) -> (e: AppError)
    ensures
        e.kind() == kind,
        e.detail() == detail,
{
    match kind {
        ErrorKind::NotFound => AppError::NotFound(detail),
        ErrorKind::BadRequest => AppError::BadRequest(detail),
        ErrorKind::Internal => AppError::Internal(detail),
        ErrorKind::Conflict => AppError::Conflict(detail),
        ErrorKind::Unauthorized => AppError::Unauthorized(detail),
        ErrorKind::Forbidden => AppError::Forbidden(detail),
    }
}

/// The error of kind `kind` carrying the message `message`.
pub fn app_error(kind: ErrorKind, message: &str) -> (e: AppError)
    ensures
        e@ == message_error(kind, message@),
{
    error_with(kind, ErrorDetail::Message(text(message)))
}

/// The `type` member of every problem-details body.
pub open spec fn problem_type_uri() -> Seq<char> {
    "https://tools.ietf.org/html/rfc9110#section-15.5.5"@
}

/// HTTP status of each kind of error.
pub open spec fn status_of(kind: ErrorKind) -> u16 {
    match kind {
        ErrorKind::NotFound => 404,
        ErrorKind::BadRequest => 400,
        ErrorKind::Internal => 500,
        ErrorKind::Conflict => 409,
        ErrorKind::Unauthorized => 401,
        ErrorKind::Forbidden => 403,
    }
}

/// Reason phrase of each kind of error.
pub open spec fn title_of(kind: ErrorKind) -> Seq<char> {
    match kind {
        ErrorKind::NotFound => "Not Found"@,
        ErrorKind::BadRequest => "Bad Request"@,
        ErrorKind::Internal => "Internal Server Error"@,
        ErrorKind::Conflict => "Conflict"@,
        ErrorKind::Unauthorized => "Unauthorized"@,
        ErrorKind::Forbidden => "Forbidden"@,
    }
}

/// The RFC 9457 body that an error is answered with.
#[derive(Debug)]
pub struct ProblemDetails {
    pub problem_type: String,
    pub title: String,
    pub status: u16,
    pub detail: Option<ErrorDetail>,
    pub instance: Option<String>,
}

impl AppError {
    /// The status and problem-details body of the reply to this error.
    pub fn into_problem_details(self) -> (p: ProblemDetails)
        ensures
            p.problem_type@ == problem_type_uri(),
            p.title@ == title_of(self.kind()),
            p.status == status_of(self.kind()),
            p.detail == Some(self.detail()),
            p.instance is None,
    {
        let (status, title, detail): (u16, &str, ErrorDetail) = match self {
            AppError::NotFound(detail) => (404, "Not Found", detail),
            AppError::BadRequest(detail) => (400, "Bad Request", detail),
            AppError::Internal(detail) => (500, "Internal Server Error", detail),
            AppError::Conflict(detail) => (409, "Conflict", detail),
            AppError::Unauthorized(detail) => (401, "Unauthorized", detail),
            AppError::Forbidden(detail) => (403, "Forbidden", detail),
        };
        proof {
            reveal_strlit("Not Found");
            reveal_strlit("Bad Request");
            reveal_strlit("Internal Server Error");
            reveal_strlit("Conflict");
            reveal_strlit("Unauthorized");
            reveal_strlit("Forbidden");
        }
        ProblemDetails {
            problem_type: text("https://tools.ietf.org/html/rfc9110#section-15.5.5"),
            title: text(title),
            status,
            detail: Some(detail),
            instance: None,
        }
    }
}

} // verus!

verus! {

/// `tower_sessions::session::Error`, the error of reading a session.
#[verifier::external_type_specification]
#[verifier::external_body]
pub struct ExSessionError(tower_sessions::session::Error);

/// Errors of the WebAuthn ceremonies kept in a session.
#[derive(Debug)]
pub enum WebauthnError {
    Unknown,
    CorruptSession,
    UserNotFound,
    UserHasNoCredentials,
    InvalidSessionState(tower_sessions::session::Error),
}

impl From<tower_sessions::session::Error> for WebauthnError {
    fn from(e: tower_sessions::session::Error) -> (r: Self) {
        WebauthnError::InvalidSessionState(e)
    }
}

impl vstd::std_specs::convert::FromSpecImpl<tower_sessions::session::Error> for WebauthnError {
    open spec fn obeys_from_spec() -> bool {
        true
    }

    open spec fn from_spec(e: tower_sessions::session::Error) -> Self {
        WebauthnError::InvalidSessionState(e)
    }
}

/// The body of the reply to each WebAuthn error.
pub open spec fn webauthn_error_body(e: WebauthnError) -> Seq<char> {
    match e {
        WebauthnError::CorruptSession => "Corrupt Session"@,
        WebauthnError::UserNotFound => "User Not Found"@,
        WebauthnError::Unknown => "Unknown Error"@,
        WebauthnError::UserHasNoCredentials => "User Has No Credentials"@,
        WebauthnError::InvalidSessionState(_) => "Deserialising Session failed"@,
    }
}

impl WebauthnError {
    /// The status (always 500) and text body of the reply to this error.
    pub fn into_reply(self) -> (r: (u16, &'static str))
        ensures
            r.0 == 500,
            r.1@ == webauthn_error_body(self),
    {
        let body = match self {
            WebauthnError::CorruptSession => "Corrupt Session",
            WebauthnError::UserNotFound => "User Not Found",
            WebauthnError::Unknown => "Unknown Error",
            WebauthnError::UserHasNoCredentials => "User Has No Credentials",
            WebauthnError::InvalidSessionState(_) => "Deserialising Session failed",
        };
        (500, body)
    }
}

} // verus!
