//! The OAuth callback of the Jira login: what each request to
//! `/callback` records and answers.

use vstd::prelude::*;
use crate::text::{
    opt_text, chars_eq, chars_of,
};

verus! {

/// OAuth callback state
#[derive(Debug, Clone)]
pub struct CallbackState {
    pub expected_state: String,
    pub code: Option<String>,
    pub error: Option<String>,
}

/// The page shown when the provider reported an error.
pub const PAGE_AUTH_FAILED: &'static str = "<html><body><h1>Authorization Failed</h1><p>You can close this window.</p></body></html>";
/// The page shown when the state does not match.
pub const PAGE_STATE_FAILED: &'static str = "<html><body><h1>Error</h1><p>State verification failed.</p></body></html>";
/// The page shown when the state is missing.
pub const PAGE_STATE_MISSING: &'static str = "<html><body><h1>Error</h1><p>Missing state parameter.</p></body></html>";
/// The page shown when the code arrived.
pub const PAGE_SUCCESS: &'static str = "<html><body><h1>Success!</h1><p>You can close this window and return to the terminal.</p></body></html>";
/// The page shown when the code is missing.
pub const PAGE_CODE_MISSING: &'static str = "<html><body><h1>Error</h1><p>Missing authorization code.</p></body></html>";

/// Handle one request to `/callback` with its `error`, `state` and `code`
/// parameters: a provider error is recorded as the error; a missing or
/// different state is recorded as an error (the code is then never taken);
/// with the expected state, the code is recorded, or its absence as an
/// error. The answer is the page that says so. The expected state is kept.
pub fn handle_callback(
    state: &mut CallbackState,
    error: Option<&str>,
    received_state: Option<&str>,
    code: Option<&str>,
) -> (page: &'static str)
    ensures
        final(state).expected_state == old(state).expected_state,
        error matches Some(e) ==> {
            &&& opt_text(final(state).error) == Some(e@)
            &&& final(state).code == old(state).code
            &&& page@ == PAGE_AUTH_FAILED@
        },
        error is None && received_state is None ==> {
            &&& opt_text(final(state).error) == Some("Missing state parameter"@)
            &&& final(state).code == old(state).code
            &&& page@ == PAGE_STATE_MISSING@
        },
        error is None && (received_state matches Some(r) && r@ != old(state).expected_state@) ==> {
            &&& opt_text(final(state).error) == Some("State mismatch - possible CSRF attack"@)
            &&& final(state).code == old(state).code
            &&& page@ == PAGE_STATE_FAILED@
        },
        error is None && (received_state matches Some(r) && r@ == old(state).expected_state@) ==> {
            &&& (code matches Some(c) ==> opt_text(final(state).code) == Some(c@)
                && final(state).error == old(state).error && page@ == PAGE_SUCCESS@)
            &&& (code is None ==> opt_text(final(state).error) == Some(
                "Missing authorization code"@,
            ) && final(state).code == old(state).code && page@ == PAGE_CODE_MISSING@)
        },
{
    if let Some(e) = error {
        state.error = Some(e.to_string());
        return PAGE_AUTH_FAILED;
    }
    match received_state {
        Some(r) => {
            if !chars_eq(&chars_of(r), &chars_of(state.expected_state.as_str())) {
                state.error = Some("State mismatch - possible CSRF attack".to_string());
                return PAGE_STATE_FAILED;
            }
        },
        None => {
            state.error = Some("Missing state parameter".to_string());
            return PAGE_STATE_MISSING;
        },
    }
    match code {
        Some(c) => {
            state.code = Some(c.to_string());
            PAGE_SUCCESS
        },
        None => {
            state.error = Some("Missing authorization code".to_string());
            PAGE_CODE_MISSING
        },
    }
}

/// Whether the callback server can stop: a code or an error has arrived.
pub fn callback_done(state: &CallbackState) -> (res: bool)
    ensures
        res == (state.code is Some || state.error is Some),
{
    state.code.is_some() || state.error.is_some()
}

} // verus!
