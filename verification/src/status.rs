//! Classification of platform status codes.

use vstd::prelude::*;

verus! {

/// The platform's success code.
pub const S_OK: i32 = 0;

/// General access-denied failure.
pub const E_ACCESSDENIED: i32 = -2147024891;

/// The call was made with invalid arguments or at an invalid time.
pub const DXGI_ERROR_INVALID_CALL: i32 = -2005270527;

/// The requested functionality is not supported by the device or driver.
pub const DXGI_ERROR_UNSUPPORTED: i32 = -2005270524;

/// The resource or request is momentarily unavailable.
pub const DXGI_ERROR_NOT_CURRENTLY_AVAILABLE: i32 = -2005270494;

/// The duplication session lost access to the desktop.
pub const DXGI_ERROR_ACCESS_LOST: i32 = -2005270490;

/// The wait elapsed before a new frame arrived.
pub const DXGI_ERROR_WAIT_TIMEOUT: i32 = -2005270489;

/// The remote session was disconnected.
pub const DXGI_ERROR_SESSION_DISCONNECTED: i32 = -2005270488;

/// Why a capture operation failed.
#[derive(Clone, Copy, Debug, PartialEq, Eq, Structural)]
pub enum CaptureError {
    /// The capture session is lost and must be rebuilt from a display.
    SessionInvalidated,
    /// No new frame arrived within the requested wait.
    TimedOut,
    /// The call or its arguments were malformed.
    InvalidRequest,
    /// The platform denied access.
    PermissionDenied,
    /// The requested configuration is not supported.
    Unsupported,
    /// A resource is momentarily busy.
    TemporarilyUnavailable,
    /// Any other failure.
    Unclassified,
}

/// The error kind that a status code stands for, `None` for success.
pub open spec fn classify(status: i32) -> Option<CaptureError> {
    if status == S_OK {
        None
    } else if status == DXGI_ERROR_ACCESS_LOST || status == DXGI_ERROR_SESSION_DISCONNECTED {
        Some(CaptureError::SessionInvalidated)
    } else if status == DXGI_ERROR_WAIT_TIMEOUT {
        Some(CaptureError::TimedOut)
    } else if status == DXGI_ERROR_INVALID_CALL {
        Some(CaptureError::InvalidRequest)
    } else if status == E_ACCESSDENIED {
        Some(CaptureError::PermissionDenied)
    } else if status == DXGI_ERROR_UNSUPPORTED {
        Some(CaptureError::Unsupported)
    } else if status == DXGI_ERROR_NOT_CURRENTLY_AVAILABLE {
        Some(CaptureError::TemporarilyUnavailable)
    } else {
        Some(CaptureError::Unclassified)
    }
}

/// Turns a platform status code into `Ok` or the error kind it stands for.
///
/// Only `S_OK` counts as success. Every code without a kind of its own,
/// informational success codes included, is `Unclassified`.
pub fn wrap_hresult(x: i32) -> (r: Result<(), CaptureError>)
    ensures
        r is Ok <==> x == S_OK,
        r is Ok ==> classify(x) is None,
        r is Err ==> classify(x) == Some(r->Err_0),
{
    if x == S_OK {
        Ok(())
    } else if x == DXGI_ERROR_ACCESS_LOST || x == DXGI_ERROR_SESSION_DISCONNECTED {
        Err(CaptureError::SessionInvalidated)
    } else if x == DXGI_ERROR_WAIT_TIMEOUT {
        Err(CaptureError::TimedOut)
    } else if x == DXGI_ERROR_INVALID_CALL {
        Err(CaptureError::InvalidRequest)
    } else if x == E_ACCESSDENIED {
        Err(CaptureError::PermissionDenied)
    } else if x == DXGI_ERROR_UNSUPPORTED {
        Err(CaptureError::Unsupported)
    } else if x == DXGI_ERROR_NOT_CURRENTLY_AVAILABLE {
        Err(CaptureError::TemporarilyUnavailable)
    } else {
        Err(CaptureError::Unclassified)
    }
}

} // verus!
