//! What a caller over HTTP is told of how a call of the service ended.

use crate::dao::{Failure, FailureKind};
use crate::service::{ServiceError, ServiceResult};
use vstd::prelude::*;

verus! {

/// The status of a call that did what it was asked to.
pub const STATUS_OK: u16 = 200;

/// The status of a call that the caller's clock rules out.
pub const STATUS_BAD_REQUEST: u16 = 400;

/// The status of a call with the wrong secret.
pub const STATUS_UNAUTHORIZED: u16 = 401;

/// The status of a call for what is not there.
pub const STATUS_NOT_FOUND: u16 = 404;

/// The status of a call that would repeat what has to be unique.
pub const STATUS_CONFLICT: u16 = 409;

/// The status of a call that the server failed on.
pub const STATUS_INTERNAL_SERVER_ERROR: u16 = 500;

/// The status for `error`.
pub open spec fn status_of<E: Failure>(error: ServiceError<E>) -> u16 {
    match error {
        ServiceError::NotFound => STATUS_NOT_FOUND,
        ServiceError::VerificationFailed => STATUS_UNAUTHORIZED,
        ServiceError::ClockSkew => STATUS_BAD_REQUEST,
        ServiceError::InvariantViolation => STATUS_INTERNAL_SERVER_ERROR,
        ServiceError::StorageError(e) => match e.spec_kind() {
            FailureKind::NotFound => STATUS_NOT_FOUND,
            FailureKind::Conflict => STATUS_CONFLICT,
            FailureKind::MoreThanOne => STATUS_INTERNAL_SERVER_ERROR,
            FailureKind::Other => STATUS_INTERNAL_SERVER_ERROR,
        },
    }
}

/// The status for `error`.
pub fn error_status<E: Failure>(error: &ServiceError<E>) -> (code: u16)
    ensures
        code == status_of(*error),
{
    match error {
        ServiceError::NotFound => STATUS_NOT_FOUND,
        ServiceError::VerificationFailed => STATUS_UNAUTHORIZED,
        ServiceError::ClockSkew => STATUS_BAD_REQUEST,
        ServiceError::InvariantViolation => STATUS_INTERNAL_SERVER_ERROR,
        ServiceError::StorageError(e) => match e.kind() {
            FailureKind::NotFound => STATUS_NOT_FOUND,
            FailureKind::Conflict => STATUS_CONFLICT,
            FailureKind::MoreThanOne => STATUS_INTERNAL_SERVER_ERROR,
            FailureKind::Other => STATUS_INTERNAL_SERVER_ERROR,
        },
    }
}

/// The status for the result of a call.
pub fn status<R, E: Failure>(result: &ServiceResult<R, ServiceError<E>>) -> (code: u16)
    ensures
        code == match *result {
            Ok(_) => STATUS_OK,
            Err(error) => status_of(error),
        },
{
    match result {
        Ok(_) => STATUS_OK,
        Err(error) => error_status(error),
    }
}

} // verus!
