//! The error taxonomy of the HTTP surface, and the mapper that turns every
//! failure into a stable client-facing response.
use crate::domain::ValidationError;
use crate::store::StoreError;
use vstd::prelude::*;
use vstd::string::StringExecFns;

verus! {

/// The failures a handler can surface, one kind per originating subsystem,
/// with a distinct catch-all for everything unclassified.
#[derive(Clone, Copy, Debug, PartialEq, Eq, Structural)]
pub enum HttpError {
    /// A submitted field failed validation.
    ValidationError(ValidationError),
    /// The storage layer refused a write.
    DatabaseError(StoreError),
    /// The caller presented no valid credential, such as an unknown token.
    AuthorizationError,
    /// Nothing matches the request.
    NotFound,
    /// The request conflicts with present state.
    Conflict,
    /// Anything else — the failed notification step included.
    UnexpectedError,
}

/// A finished HTTP answer: a status code and a JSON body.
#[derive(Debug)]
pub struct HttpResponse {
    pub status: u16,
    pub body: String,
}

/// The HTTP status of each error kind.
pub open spec fn spec_status(e: HttpError) -> u16 {
    match e {
        HttpError::ValidationError(_) => 400,
        HttpError::DatabaseError(_) => 500,
        HttpError::AuthorizationError => 401,
        HttpError::NotFound => 404,
        HttpError::Conflict => 409,
        HttpError::UnexpectedError => 500,
    }
}

/// The stable machine-readable code of each error kind. Storage failures
/// and unclassified failures share the generic service code, so no internal
/// detail leaks to the client.
pub open spec fn spec_code(e: HttpError) -> Seq<char> {
    match e {
        HttpError::ValidationError(_) => "VALIDATION_ERROR"@,
        HttpError::DatabaseError(_) => "SERVICE_ERROR"@,
        HttpError::AuthorizationError => "AUTHORIZATION_ERROR"@,
        HttpError::NotFound => "NOT_FOUND"@,
        HttpError::Conflict => "CONFLICT"@,
        HttpError::UnexpectedError => "SERVICE_ERROR"@,
    }
}

/// The JSON body wrapping an error code.
pub open spec fn spec_error_body(code: Seq<char>) -> Seq<char> {
    "{\"error\":{\"type\":\""@ + code + "\"}}"@
}

impl HttpError {
    /// The HTTP status this kind maps to.
    pub fn status(&self) -> (r: u16)
        ensures
            r == spec_status(*self),
    {
        match self {
            HttpError::ValidationError(_) => 400,
            HttpError::DatabaseError(_) => 500,
            HttpError::AuthorizationError => 401,
            HttpError::NotFound => 404,
            HttpError::Conflict => 409,
            HttpError::UnexpectedError => 500,
        }
    }

    /// The machine-readable code this kind maps to.
    pub fn code(&self) -> (r: &'static str)
        ensures
            r@ == spec_code(*self),
    {
        match self {
            HttpError::ValidationError(_) => "VALIDATION_ERROR",
            HttpError::DatabaseError(_) => "SERVICE_ERROR",
            HttpError::AuthorizationError => "AUTHORIZATION_ERROR",
            HttpError::NotFound => "NOT_FOUND",
            HttpError::Conflict => "CONFLICT",
            HttpError::UnexpectedError => "SERVICE_ERROR",
        }
    }

    /// The response boundary of the taxonomy: status and JSON error body.
    pub fn response(&self) -> (r: HttpResponse)
        ensures
            r.status == spec_status(*self),
            r.body@ == spec_error_body(spec_code(*self)),
    {
        let code = self.code();
        let body = error_body(code);
        HttpResponse { status: self.status(), body }
    }
}

/// Build the JSON error body around a code.
pub fn error_body(code: &str) -> (r: String)
    ensures
        r@ == spec_error_body(code@),
{
    let prefix = "{\"error\":{\"type\":\"";
    let suffix = "\"}}";
    let body = String::from_str(prefix).concat(code).concat(suffix);
    proof {
        assert((prefix@ + code@) + suffix@ =~= prefix@ + code@ + suffix@);
    }
    body
}

/// The response for a failure no kind classifies: the generic service
/// error, leaking nothing.
pub fn unclassified_response() -> (r: HttpResponse)
    ensures
        r.status == 500,
        r.body@ == spec_error_body("SERVICE_ERROR"@),
{
    let body = error_body("SERVICE_ERROR");
    HttpResponse { status: 500, body }
}

} // verus!
