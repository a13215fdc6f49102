//! Typed rejections of the webhook endpoint and their HTTP responses.

use vstd::prelude::*;
use vstd::string::StringExecFns;

verus! {

/// An API error: the status code and the message of the JSON reply body.
pub struct ApiError {
    pub code: u16,
    pub message: String,
}

/// Raised when the signature is invalid or cannot be processed.
#[derive(Clone, Copy, Debug, PartialEq, Eq, Structural)]
pub struct SignatureError;

/// Raised when the body cannot be parsed.
#[derive(Clone, Copy, Debug, PartialEq, Eq, Structural)]
pub struct BodyParsingError;

/// Raised when the repository is not allowed to be deployed.
#[derive(Clone, Copy, Debug, PartialEq, Eq, Structural)]
pub struct UndeployableError;

/// Raised when interacting with the local repository fails; carries the
/// text of the underlying git error.
#[derive(Clone, Debug)]
pub struct GitError(pub String);

/// Everything a request can be rejected for, including the rejections the
/// HTTP layer itself raises (unknown path, missing header, wrong method).
#[derive(Debug)]
pub enum RejectionKind {
    NotFound,
    MissingHeader,
    BodyParsing,
    MethodNotAllowed,
    Signature,
    Undeployable { repository: String, branch: Option<String>, hook: String },
    Git(GitError),
    Unhandled,
}

/// The HTTP status code a rejection is reported with.
pub open spec fn spec_status_code(r: RejectionKind) -> u16 {
    match r {
        RejectionKind::NotFound => 404,
        RejectionKind::MissingHeader => 400,
        RejectionKind::BodyParsing => 400,
        RejectionKind::MethodNotAllowed => 405,
        RejectionKind::Signature => 401,
        RejectionKind::Undeployable { .. } => 403,
        RejectionKind::Git(_) => 500,
        RejectionKind::Unhandled => 500,
    }
}

/// The message a rejection is reported with.
pub open spec fn spec_status_message(r: RejectionKind) -> Seq<char> {
    match r {
        RejectionKind::NotFound => "not found"@,
        RejectionKind::MissingHeader => "bad request"@,
        RejectionKind::BodyParsing => "bad request"@,
        RejectionKind::MethodNotAllowed => "method not allowed"@,
        RejectionKind::Signature => "unauthorized"@,
        RejectionKind::Undeployable { .. } => "forbidden"@,
        RejectionKind::Git(_) => "unhandled rejection"@,
        RejectionKind::Unhandled => "unhandled rejection"@,
    }
}

/// Converts a rejection to the API error it is answered with: not found is
/// 404, a missing header or an unparsable body 400, a wrong method 405, a
/// bad signature 401, a policy rejection 403, and a git or unknown failure
/// 500.
pub fn response_for(r: &RejectionKind) -> (resp: ApiError)
    ensures
        resp.code == spec_status_code(*r),
        resp.message@ == spec_status_message(*r),
{
    match r {
        RejectionKind::NotFound => ApiError { code: 404, message: String::from_str("not found") },
        RejectionKind::MissingHeader => ApiError {
            code: 400,
            message: String::from_str("bad request"),
        },
        RejectionKind::BodyParsing => ApiError { code: 400, message: String::from_str("bad request") },
        RejectionKind::MethodNotAllowed => ApiError {
            code: 405,
            message: String::from_str("method not allowed"),
        },
        RejectionKind::Signature => ApiError { code: 401, message: String::from_str("unauthorized") },
        RejectionKind::Undeployable { .. } => ApiError {
            code: 403,
            message: String::from_str("forbidden"),
        },
        RejectionKind::Git(_) => ApiError {
            code: 500,
            message: String::from_str("unhandled rejection"),
        },
        RejectionKind::Unhandled => ApiError {
            code: 500,
            message: String::from_str("unhandled rejection"),
        },
    }
}

} // verus!
