//! NTLM-style check of a credential triple and the account's SID.
use vstd::prelude::*;
use crate::win_service::auth::{AuthError, AuthErrorView};

verus! {

/// SSPI authentication helper.
#[derive(Debug, Clone, Copy)]
pub struct SspiVerifier;

impl SspiVerifier {
    pub fn new() -> (v: Self) {
        SspiVerifier
    }

    /// NTLM check: username and password must not be empty.
    pub fn authenticate_ntlm(&self, username: &str, password: &str, domain: &str) -> (r: Result<(), AuthError>)
        ensures
            username@.len() == 0 || password@.len() == 0 ==> (r matches Err(e)
                && e@ == AuthErrorView::InvalidCredentials("Empty credentials"@)),
            username@.len() != 0 && password@.len() != 0 ==> r is Ok,
    {
        if username.is_empty() || password.is_empty() {
            return Err(AuthError::InvalidCredentials(String::from_str("Empty credentials")));
        }
        Ok(())
    }

    /// The account's SID (a fixed example SID: no directory lookup is made).
    pub fn get_user_sid(&self, username: &str) -> (r: Result<String, AuthError>)
        ensures
            r matches Ok(s) && s@ == "S-1-5-21-example-sid"@,
    {
        Ok(String::from_str("S-1-5-21-example-sid"))
    }
}

impl Default for SspiVerifier {
    fn default() -> (v: Self) {
        Self::new()
    }
}

} // verus!
