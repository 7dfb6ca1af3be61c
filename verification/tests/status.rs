use dxgi_capture::status::{
    wrap_hresult, CaptureError, DXGI_ERROR_ACCESS_LOST, DXGI_ERROR_INVALID_CALL,
    DXGI_ERROR_NOT_CURRENTLY_AVAILABLE, DXGI_ERROR_SESSION_DISCONNECTED, DXGI_ERROR_UNSUPPORTED,
    DXGI_ERROR_WAIT_TIMEOUT, E_ACCESSDENIED, S_OK,
};

#[test]
fn success_code_is_ok() {
    assert_eq!(wrap_hresult(S_OK), Ok(()));
    assert_eq!(wrap_hresult(0), Ok(()));
}

#[test]
fn status_constants_have_the_platform_values() {
    assert_eq!(E_ACCESSDENIED as u32, 0x8007_0005);
    assert_eq!(DXGI_ERROR_INVALID_CALL as u32, 0x887A_0001);
    assert_eq!(DXGI_ERROR_UNSUPPORTED as u32, 0x887A_0004);
    assert_eq!(DXGI_ERROR_NOT_CURRENTLY_AVAILABLE as u32, 0x887A_0022);
    assert_eq!(DXGI_ERROR_ACCESS_LOST as u32, 0x887A_0026);
    assert_eq!(DXGI_ERROR_WAIT_TIMEOUT as u32, 0x887A_0027);
    assert_eq!(DXGI_ERROR_SESSION_DISCONNECTED as u32, 0x887A_0028);
}

#[test]
fn access_lost_invalidates_the_session() {
    assert_eq!(wrap_hresult(DXGI_ERROR_ACCESS_LOST), Err(CaptureError::SessionInvalidated));
}

#[test]
fn session_disconnected_invalidates_the_session() {
    assert_eq!(
        wrap_hresult(DXGI_ERROR_SESSION_DISCONNECTED),
        Err(CaptureError::SessionInvalidated)
    );
}

#[test]
fn wait_timeout_is_timed_out() {
    assert_eq!(wrap_hresult(DXGI_ERROR_WAIT_TIMEOUT), Err(CaptureError::TimedOut));
}

#[test]
fn invalid_call_is_invalid_request() {
    assert_eq!(wrap_hresult(DXGI_ERROR_INVALID_CALL), Err(CaptureError::InvalidRequest));
}

#[test]
fn access_denied_is_permission_denied() {
    assert_eq!(wrap_hresult(E_ACCESSDENIED), Err(CaptureError::PermissionDenied));
}

#[test]
fn unsupported_is_unsupported() {
    assert_eq!(wrap_hresult(DXGI_ERROR_UNSUPPORTED), Err(CaptureError::Unsupported));
}

#[test]
fn not_currently_available_is_temporary() {
    assert_eq!(
        wrap_hresult(DXGI_ERROR_NOT_CURRENTLY_AVAILABLE),
        Err(CaptureError::TemporarilyUnavailable)
    );
}

#[test]
fn any_other_code_is_unclassified() {
    assert_eq!(wrap_hresult(1), Err(CaptureError::Unclassified));
    assert_eq!(wrap_hresult(-1), Err(CaptureError::Unclassified));
    assert_eq!(wrap_hresult(i32::MIN), Err(CaptureError::Unclassified));
    assert_eq!(wrap_hresult(i32::MAX), Err(CaptureError::Unclassified));
    assert_eq!(wrap_hresult(DXGI_ERROR_WAIT_TIMEOUT + 2), Err(CaptureError::Unclassified));
}
