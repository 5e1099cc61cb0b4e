use hu::jira::{
    callback_done, handle_callback, CallbackState, PAGE_AUTH_FAILED, PAGE_CODE_MISSING,
    PAGE_STATE_FAILED, PAGE_STATE_MISSING, PAGE_SUCCESS,
};

fn state() -> CallbackState {
    CallbackState { expected_state: "s3cr3t".to_string(), code: None, error: None }
}

#[test]
fn callback_accepts_code_with_matching_state() {
    let mut s = state();
    assert!(!callback_done(&s));
    assert_eq!(handle_callback(&mut s, None, Some("s3cr3t"), Some("abc")), PAGE_SUCCESS);
    assert_eq!(s.code, Some("abc".to_string()));
    assert_eq!(s.error, None);
    assert!(callback_done(&s));
}

#[test]
fn callback_rejects_mismatched_state() {
    let mut s = state();
    assert_eq!(handle_callback(&mut s, None, Some("other"), Some("abc")), PAGE_STATE_FAILED);
    assert_eq!(s.code, None);
    assert_eq!(s.error, Some("State mismatch - possible CSRF attack".to_string()));
}

#[test]
fn callback_errors() {
    let mut s = state();
    assert_eq!(handle_callback(&mut s, Some("access_denied"), Some("s3cr3t"), Some("abc")), PAGE_AUTH_FAILED);
    assert_eq!(s.error, Some("access_denied".to_string()));
    assert_eq!(s.code, None);
    let mut s = state();
    assert_eq!(handle_callback(&mut s, None, None, Some("abc")), PAGE_STATE_MISSING);
    assert_eq!(s.error, Some("Missing state parameter".to_string()));
    let mut s = state();
    assert_eq!(handle_callback(&mut s, None, Some("s3cr3t"), None), PAGE_CODE_MISSING);
    assert_eq!(s.error, Some("Missing authorization code".to_string()));
}
