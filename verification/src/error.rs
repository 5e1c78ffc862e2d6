//! The one shape in which the REST surface reports errors.

use vstd::prelude::*;

use crate::protocol::api::{ErrorBody, ErrorCode, ErrorDetails, ErrorEnvelope};
use crate::text;

verus! {

/// An error: its HTTP status, its code and its message.
#[derive(Debug, PartialEq)]
pub struct ApiError {
    pub status: u16,
    pub code: ErrorCode,
    pub message: String,
    pub details: Option<ErrorDetails>,
}

/// Whether details name the field that failed validation.
pub open spec fn names_field(details: Option<ErrorDetails>, field: Seq<char>) -> bool {
    details matches Some(ErrorDetails::Field(f)) && f@ == field
}

impl ApiError {
    /// Whether the error is of a code, with the status that goes with it, and
    /// says a message.
    pub open spec fn says(self, code: ErrorCode, message: Seq<char>) -> bool {
        &&& self.code == code
        &&& self.message@ == message
        &&& self.status == status_of(code)
    }

    /// Whether the error says that something was not found.
    pub open spec fn is_not_found(self, what: Seq<char>) -> bool {
        self.says(ErrorCode::NotFound, what + " no encontrado"@) && self.details is None
    }

    /// Whether the error is the opaque internal one.
    pub open spec fn is_internal(self) -> bool {
        self.says(ErrorCode::Internal, "error interno"@) && self.details is None
    }

    /// Whether the error says that a field failed validation.
    pub open spec fn is_field_error(self, message: Seq<char>, field: Seq<char>) -> bool {
        self.says(ErrorCode::ValidationFailed, message) && names_field(self.details, field)
    }

    /// The caller did not identify itself.
    pub fn unauthorized() -> (r: Self)
        ensures
            r.says(ErrorCode::Unauthorized, "token ausente o inválido"@),
            r.details is None,
    {
        ApiError {
            status: 401,
            code: ErrorCode::Unauthorized,
            message: "token ausente o inválido".to_owned(),
            details: None,
        }
    }

    /// There is no such thing.
    pub fn not_found(what: &str) -> (r: Self)
        ensures
            r.is_not_found(what@),
    {
        ApiError {
            status: 404,
            code: ErrorCode::NotFound,
            message: text::join2(what, " no encontrado"),
            details: None,
        }
    }

    /// The request is not acceptable.
    pub fn validation(message: String, details: Option<ErrorDetails>) -> (r: Self)
        ensures
            r.says(ErrorCode::ValidationFailed, message@),
            r.details == details,
    {
        ApiError { status: 422, code: ErrorCode::ValidationFailed, message, details }
    }

    /// A field of the request is not acceptable.
    pub fn field(message: &str, field: &str) -> (r: Self)
        ensures
            r.is_field_error(message@, field@),
    {
        Self::validation(message.to_owned(), Some(ErrorDetails::Field(field.to_owned())))
    }

    /// The request contradicts what already stands.
    pub fn conflict(message: String, details: Option<ErrorDetails>) -> (r: Self)
        ensures
            r.says(ErrorCode::Conflict, message@),
            r.details == details,
    {
        ApiError { status: 409, code: ErrorCode::Conflict, message, details }
    }

    /// The session waits for a decision.
    pub fn session_busy(message: String) -> (r: Self)
        ensures
            r.says(ErrorCode::SessionBusy, message@),
            r.details is None,
    {
        ApiError { status: 409, code: ErrorCode::SessionBusy, message, details: None }
    }

    /// The body is larger than the limit.
    pub fn too_large(message: &str) -> (r: Self)
        ensures
            r.status == 413,
            r.code == ErrorCode::ValidationFailed,
            r.message@ == message@,
            r.details is None,
    {
        ApiError {
            status: 413,
            code: ErrorCode::ValidationFailed,
            message: message.to_owned(),
            details: None,
        }
    }

    /// The transcription failed upstream.
    pub fn asr_failed() -> (r: Self)
        ensures
            r.says(ErrorCode::AsrFailed, "falló la transcripción"@),
            r.details is None,
    {
        ApiError {
            status: 502,
            code: ErrorCode::AsrFailed,
            message: "falló la transcripción".to_owned(),
            details: None,
        }
    }

    /// Something broke. What it was goes to the log, never to the client.
    pub fn internal() -> (r: Self)
        ensures
            r.is_internal(),
    {
        ApiError {
            status: 500,
            code: ErrorCode::Internal,
            message: "error interno".to_owned(),
            details: None,
        }
    }

    /// The body of the response.
    pub fn into_envelope(self) -> (r: ErrorEnvelope)
        ensures
            r.error.code == self.code,
            r.error.message == self.message,
            r.error.details == self.details,
    {
        ErrorEnvelope {
            error: ErrorBody { code: self.code, message: self.message, details: self.details },
        }
    }
}

/// The HTTP status that goes with a code.
pub open spec fn status_of(code: ErrorCode) -> int {
    match code {
        ErrorCode::Unauthorized => 401,
        ErrorCode::NotFound => 404,
        ErrorCode::ValidationFailed => 422,
        ErrorCode::Conflict => 409,
        ErrorCode::SessionBusy => 409,
        ErrorCode::AsrFailed => 502,
        ErrorCode::Internal => 500,
    }
}

/// Law: an error of a code has the HTTP status of that code: 401 without
/// identification, 404 for what is not there, 422 for what is not acceptable,
/// 409 for a conflict and for a busy session, 502 for a failed transcription,
/// 500 for everything else.
pub proof fn law_status_goes_with_the_code(e: ApiError, code: ErrorCode, message: Seq<char>)
    requires
        e.says(code, message),
    ensures
        e.code == code,
        e.message@ == message,
        code is Unauthorized ==> e.status == 401,
        code is NotFound ==> e.status == 404,
        code is ValidationFailed ==> e.status == 422,
        code is Conflict || code is SessionBusy ==> e.status == 409,
        code is AsrFailed ==> e.status == 502,
        code is Internal ==> e.status == 500,
{
}

/// Law: what is not found is named, and nothing else is said of it; an internal
/// error says nothing of what broke; a failed validation names its field.
pub proof fn law_errors_say_no_more(e: ApiError, what: Seq<char>, field: Seq<char>)
    ensures
        e.is_not_found(what) ==> e.status == 404 && e.code == ErrorCode::NotFound
            && what.is_prefix_of(e.message@) && " no encontrado"@.is_suffix_of(e.message@)
            && e.message@.len() == what.len() + " no encontrado"@.len() && e.details is None,
        e.is_internal() ==> e.status == 500 && e.code == ErrorCode::Internal && e.message@
            == "error interno"@ && e.details is None,
        e.is_field_error(what, field) ==> e.status == 422 && e.code == ErrorCode::ValidationFailed
            && e.message@ == what && (e.details matches Some(ErrorDetails::Field(f)) && f@
            == field),
{
    if e.is_not_found(what) {
        assert(what.is_prefix_of(e.message@));
        assert(" no encontrado"@.is_suffix_of(e.message@));
    }
}

} // verus!
