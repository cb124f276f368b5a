//! The errors the router answers with: an HTTP status and a message.

use vstd::prelude::*;
use crate::router::models::ApiErrorResponse;
use crate::rpc::{GrpcCode, RpcStatus};

verus! {

/// An HTTP error: its status code and message.
#[derive(Clone, Debug)]
pub struct AppError {
    pub status: u16,
    pub message: String,
}

/// The HTTP status that a failed RPC is answered with.
pub open spec fn http_status_of(code: GrpcCode) -> u16 {
    match code {
        GrpcCode::InvalidArgument => 400,
        GrpcCode::Unauthenticated => 401,
        GrpcCode::PermissionDenied => 403,
        GrpcCode::NotFound => 404,
        GrpcCode::AlreadyExists => 409,
        _ => 502,
    }
}

impl AppError {
    pub fn new(status: u16, message: String) -> (e: AppError)
        ensures
            e.status == status,
            e.message@ == message@,
    {
        AppError { status, message }
    }

    /// 401 Unauthorized with the given message.
    pub fn unauthorized(message: &str) -> (e: AppError)
        ensures
            e.status == 401,
            e.message@ == message@,
    {
        Self::new(401, String::from_str(message))
    }

    /// 403 Forbidden with the given message.
    pub fn forbidden(message: &str) -> (e: AppError)
        ensures
            e.status == 403,
            e.message@ == message@,
    {
        Self::new(403, String::from_str(message))
    }

    /// A failed RPC as an HTTP error: invalid argument as 400,
    /// unauthenticated as 401, permission denied as 403, not found as 404,
    /// already exists as 409, anything else as 502; the message is kept.
    pub fn from_status(status: RpcStatus) -> (e: AppError)
        ensures
            e.status == http_status_of(status.code),
            e.message@ == status.message@,
    {
        let http_status: u16 = match status.code {
            GrpcCode::InvalidArgument => 400,
            GrpcCode::Unauthenticated => 401,
            GrpcCode::PermissionDenied => 403,
            GrpcCode::NotFound => 404,
            GrpcCode::AlreadyExists => 409,
            _ => 502,
        };
        Self::new(http_status, status.message)
    }

    /// The HTTP response this error is sent as: its status, and a body whose
    /// `error` is the message.
    pub fn response_parts(self) -> (parts: (u16, ApiErrorResponse))
        ensures
            parts.0 == self.status,
            parts.1.error@ == self.message@,
    {
        (self.status, ApiErrorResponse { error: self.message })
    }
}

/// Law: an RPC failure is never answered as a success or redirect: the
/// status is always a client or server error, and it is a client error
/// exactly for the codes that blame the request.
pub proof fn law_rpc_failures_are_http_errors(code: GrpcCode)
    ensures
        400 <= http_status_of(code) < 600,
        http_status_of(code) < 500 <==> (code == GrpcCode::InvalidArgument || code
            == GrpcCode::Unauthenticated || code == GrpcCode::PermissionDenied || code
            == GrpcCode::NotFound || code == GrpcCode::AlreadyExists),
{
}

} // verus!
