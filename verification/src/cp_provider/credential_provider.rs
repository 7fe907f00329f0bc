//! Submitting the dual-account credential to the service and reading its
//! verdict back into the credential.
use vstd::prelude::*;
use crate::text::lowercase;
use crate::cp_provider::com_types::{AuthMode, AuthRequest, AuthResponse, AuthResponseView};
use crate::cp_provider::credential_com::{locked_message, locked_text};
use crate::cp_provider::dual_auth_credential::{
    CredentialState, CredentialStateView, DualAuthCredential, DualAuthCredentialView, failed_message, missing_field,
};
use crate::cp_provider::pipe_client::{PipeClientError, pipe_error_text};

verus! {

/// The credential while its request is with the service.
pub open spec fn verifying(c: DualAuthCredentialView) -> DualAuthCredentialView {
    DualAuthCredentialView { state: CredentialStateView::Verifying, status_message: "Verifying credentials..."@, ..c }
}

/// Why the service's answer is a failure, or none for a success.
pub open spec fn failure_reason(r: AuthResponseView) -> Option<Seq<char>> {
    match r {
        AuthResponseView::Success { .. } => None,
        AuthResponseView::FailUserA(m) => Some("User A: "@ + m),
        AuthResponseView::FailUserB(m) => Some("User B: "@ + m),
        AuthResponseView::BothFailed(a, b) => Some("User A: "@ + a + " | User B: "@ + b),
        AuthResponseView::Timeout => Some("Verification timed out"@),
        AuthResponseView::NetworkUnavailable => Some("Domain controller unreachable"@),
        AuthResponseView::Locked { remaining_secs } => Some(locked_text(remaining_secs)),
        AuthResponseView::EmergencyDenied(m) => Some("应急登录被拒绝："@ + m),
        AuthResponseView::PasswordExpired(_) => Some("密码已过期或必须更改密码"@),
    }
}

/// The credential after the service answered `r`: verified or failed,
/// and both passwords cleared.
pub open spec fn answered(c: DualAuthCredentialView, r: AuthResponseView) -> DualAuthCredentialView {
    let marked = match failure_reason(r) {
        None => DualAuthCredentialView {
            state: CredentialStateView::Verified,
            status_message: "Authentication successful"@,
            ..c
        },
        Some(reason) => DualAuthCredentialView {
            state: CredentialStateView::Failed(reason),
            status_message: failed_message(reason),
            ..c
        },
    };
    DualAuthCredentialView { user_a_password: Seq::empty(), user_b_password: Seq::empty(), ..marked }
}

/// The request built from the credential's fields.
pub open spec fn request_for(req: AuthRequest, c: DualAuthCredentialView, logon_source: Seq<char>) -> bool {
    &&& req.mode == AuthMode::Dual
    &&& req.user_a_username@ == lowercase(c.user_a_username)
    &&& req.user_a_password@ == c.user_a_password
    &&& req.user_b_username@ == lowercase(c.user_b_username)
    &&& req.user_b_password@ == c.user_b_password
    &&& req.reason@ == Seq::<char>::empty()
    &&& req.logon_source@ == logon_source
}

fn reason_text(r: &AuthResponse) -> (s: Option<String>)
    ensures
        match s {
            Some(t) => failure_reason(r@) == Some(t@),
            None => failure_reason(r@) is None,
        },
{
    match r {
        AuthResponse::Success { .. } => None,
        AuthResponse::FailUserA(m) => Some(String::from_str("User A: ").concat(m.as_str())),
        AuthResponse::FailUserB(m) => Some(String::from_str("User B: ").concat(m.as_str())),
        AuthResponse::BothFailed(a, b) => Some(
            String::from_str("User A: ").concat(a.as_str()).concat(" | User B: ").concat(b.as_str()),
        ),
        AuthResponse::Timeout => Some(String::from_str("Verification timed out")),
        AuthResponse::NetworkUnavailable => Some(String::from_str("Domain controller unreachable")),
        AuthResponse::Locked { remaining_secs } => Some(locked_message(*remaining_secs)),
        AuthResponse::EmergencyDenied(m) => Some(String::from_str("应急登录被拒绝：").concat(m.as_str())),
        AuthResponse::PasswordExpired(_) => Some(String::from_str("密码已过期或必须更改密码")),
    }
}

/// Submits the credential to the service: checks that all four fields are
/// filled, marks it as verifying, sends the request through `send`, and
/// records the verdict (clearing both passwords). A missing field is
/// returned as the error and changes nothing; a failure to reach the
/// service is returned as "Service communication error: ...".
pub fn submit_credentials<S>(credential: &mut DualAuthCredential, logon_source: &str, send: &S) -> (r: Result<
    AuthResponse,
    String,
>) where S: Fn(&AuthRequest) -> Result<AuthResponse, PipeClientError>
    requires
        forall|req: &AuthRequest| send.requires((req,)),
    ensures
        match missing_field(old(credential)@) {
            Some(e) => r matches Err(m) && m@ == e && final(credential)@ == old(credential)@,
            None => exists|req: AuthRequest, reply: Result<AuthResponse, PipeClientError>|
                send.ensures((&req,), reply) && request_for(req, old(credential)@, logon_source@) && match reply {
                    Err(pe) => r matches Err(m) && m@ == "Service communication error: "@ + pipe_error_text(pe@)
                        && final(credential)@ == verifying(old(credential)@),
                    Ok(resp) => r matches Ok(x) && x@ == resp@ && final(credential)@ == answered(
                        verifying(old(credential)@),
                        resp@,
                    ),
                },
        },
{
    match credential.validate_fields() {
        Err(e) => {
            return Err(e);
        },
        Ok(()) => {},
    }
    credential.state = CredentialState::Verifying;
    credential.status_message = String::from_str("Verifying credentials...");
    let request = AuthRequest::new_dual(
        credential.user_a_username.as_str(),
        credential.user_a_password.as_str(),
        credential.user_b_username.as_str(),
        credential.user_b_password.as_str(),
        logon_source,
    );
    let reply = send(&request);
    let response = match reply {
        Err(e) => {
            return Err(String::from_str("Service communication error: ").concat(e.message().as_str()));
        },
        Ok(resp) => resp,
    };
    match reason_text(&response) {
        None => credential.mark_verified(),
        Some(reason) => credential.mark_failed(reason.as_str()),
    }
    credential.user_a_password = String::new();
    credential.user_b_password = String::new();
    Ok(response)
}

/// Whether the credential is ready for submission.
pub fn is_ready_to_submit(credential: &DualAuthCredential) -> (b: bool)
    ensures
        b == (credential@.state is ReadyToSubmit),
{
    match credential.state {
        CredentialState::ReadyToSubmit => true,
        _ => false,
    }
}

} // verus!
