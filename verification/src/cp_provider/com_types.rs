//! Messages between the credential provider and the service.
use vstd::prelude::*;
use crate::text::{lowercase, to_lowercase, uuid_v4_bits};

verus! {

/// Authentication mode requested by the Credential Provider
#[derive(Debug, Clone, Copy, PartialEq, Eq, Structural)]
pub enum AuthMode {
    /// Dual control login: primary account + approver
    Dual,
    /// Emergency override login: single authorized account with a reason
    Emergency,
}

/// Request sent from the credential provider to the service over the pipe.
///
/// Passwords travel as plaintext over the local named pipe between two
/// SYSTEM processes on the same machine.
#[derive(Debug, Clone)]
pub struct AuthRequest {
    /// Random (version 4) request identifier.
    pub request_id: u128,
    pub mode: AuthMode,
    /// Dual: primary account; Emergency: emergency account.
    pub user_a_username: String,
    pub user_a_password: String,
    /// Dual: approver; Emergency: empty.
    pub user_b_username: String,
    pub user_b_password: String,
    /// Emergency: reason for the override; Dual: empty.
    pub reason: String,
    /// Where the logon comes from: "console" or "rdp-session-N".
    pub logon_source: String,
    /// Creation time, milliseconds since the Unix epoch (UTC).
    pub timestamp_millis: i64,
}

/// Response sent from the service back to the credential provider.
#[derive(Debug, Clone, PartialEq, Eq)]
pub enum AuthResponse {
    /// Dual auth succeeded or emergency override approved; carries the
    /// logon name that the provider must serialize verbatim.
    Success { canonical_username: String },
    FailUserA(String),
    FailUserB(String),
    BothFailed(String, String),
    /// Account locked out after too many failed attempts.
    Locked { remaining_secs: u64 },
    /// Emergency override denied.
    EmergencyDenied(String),
    PasswordExpired(String),
    Timeout,
    NetworkUnavailable,
}

/// The value of an `AuthResponse`, with texts as character sequences.
pub enum AuthResponseView {
    Success { canonical_username: Seq<char> },
    FailUserA(Seq<char>),
    FailUserB(Seq<char>),
    BothFailed(Seq<char>, Seq<char>),
    Locked { remaining_secs: u64 },
    EmergencyDenied(Seq<char>),
    PasswordExpired(Seq<char>),
    Timeout,
    NetworkUnavailable,
}

impl View for AuthResponse {
    type V = AuthResponseView;

    open spec fn view(&self) -> AuthResponseView {
        match self {
            AuthResponse::Success { canonical_username } => AuthResponseView::Success { canonical_username: canonical_username@ },
            AuthResponse::FailUserA(m) => AuthResponseView::FailUserA(m@),
            AuthResponse::FailUserB(m) => AuthResponseView::FailUserB(m@),
            AuthResponse::BothFailed(a, b) => AuthResponseView::BothFailed(a@, b@),
            AuthResponse::Locked { remaining_secs } => AuthResponseView::Locked { remaining_secs: *remaining_secs },
            AuthResponse::EmergencyDenied(m) => AuthResponseView::EmergencyDenied(m@),
            AuthResponse::PasswordExpired(m) => AuthResponseView::PasswordExpired(m@),
            AuthResponse::Timeout => AuthResponseView::Timeout,
            AuthResponse::NetworkUnavailable => AuthResponseView::NetworkUnavailable,
        }
    }
}

/// A fresh random request identifier, `uuid::Uuid::new_v4().as_u128()`:
/// random bits with the version-4 and variant bits set. Which one is left open.
#[verifier::external_body]
fn new_request_id() -> (id: u128)
    ensures
        uuid_v4_bits(id),
{
    uuid::Uuid::new_v4().as_u128()
}

/// The current UTC time in milliseconds since the Unix epoch,
/// `chrono::Utc::now().timestamp_millis()`; `Utc::now` refuses a clock
/// before the epoch, so it is not negative. Which time is left open.
#[verifier::external_body]
fn utc_now_millis() -> (t: i64)
    ensures
        t >= 0,
{
    chrono::Utc::now().timestamp_millis()
}

impl AuthRequest {
    /// A dual-control request with the given identity and creation time.
    pub fn dual_with(
        request_id: u128,
        timestamp_millis: i64,
        user_a_username: &str,
        user_a_password: &str,
        user_b_username: &str,
        user_b_password: &str,
        logon_source: &str,
    ) -> (r: AuthRequest)
        ensures
            r.request_id == request_id,
            r.timestamp_millis == timestamp_millis,
            r.mode == AuthMode::Dual,
            r.user_a_username@ == lowercase(user_a_username@),
            r.user_a_password@ == user_a_password@,
            r.user_b_username@ == lowercase(user_b_username@),
            r.user_b_password@ == user_b_password@,
            r.reason@ == Seq::<char>::empty(),
            r.logon_source@ == logon_source@,
    {
        AuthRequest {
            request_id,
            mode: AuthMode::Dual,
            user_a_username: to_lowercase(user_a_username),
            user_a_password: String::from_str(user_a_password),
            user_b_username: to_lowercase(user_b_username),
            user_b_password: String::from_str(user_b_password),
            reason: String::new(),
            logon_source: String::from_str(logon_source),
            timestamp_millis,
        }
    }

    /// An emergency-override request with the given identity and creation time.
    pub fn emergency_with(
        request_id: u128,
        timestamp_millis: i64,
        username: &str,
        password: &str,
        reason: &str,
        logon_source: &str,
    ) -> (r: AuthRequest)
        ensures
            r.request_id == request_id,
            r.timestamp_millis == timestamp_millis,
            r.mode == AuthMode::Emergency,
            r.user_a_username@ == lowercase(username@),
            r.user_a_password@ == password@,
            r.user_b_username@ == Seq::<char>::empty(),
            r.user_b_password@ == Seq::<char>::empty(),
            r.reason@ == reason@,
            r.logon_source@ == logon_source@,
    {
        AuthRequest {
            request_id,
            mode: AuthMode::Emergency,
            user_a_username: to_lowercase(username),
            user_a_password: String::from_str(password),
            user_b_username: String::new(),
            user_b_password: String::new(),
            reason: String::from_str(reason),
            logon_source: String::from_str(logon_source),
            timestamp_millis,
        }
    }

    /// Create a dual-control authentication request (fresh id, current time).
    pub fn new_dual(
        user_a_username: &str,
        user_a_password: &str,
        user_b_username: &str,
        user_b_password: &str,
        logon_source: &str,
    ) -> (r: AuthRequest)
        ensures
            r.mode == AuthMode::Dual,
            r.user_a_username@ == lowercase(user_a_username@),
            r.user_a_password@ == user_a_password@,
            r.user_b_username@ == lowercase(user_b_username@),
            r.user_b_password@ == user_b_password@,
            r.reason@ == Seq::<char>::empty(),
            r.logon_source@ == logon_source@,
            uuid_v4_bits(r.request_id),
            r.timestamp_millis >= 0,
    {
        let id = new_request_id();
        let now = utc_now_millis();
        Self::dual_with(id, now, user_a_username, user_a_password, user_b_username, user_b_password, logon_source)
    }

    /// Create an emergency override authentication request (fresh id, current time).
    pub fn new_emergency(username: &str, password: &str, reason: &str, logon_source: &str) -> (r: AuthRequest)
        ensures
            r.mode == AuthMode::Emergency,
            r.user_a_username@ == lowercase(username@),
            r.user_a_password@ == password@,
            r.user_b_username@ == Seq::<char>::empty(),
            r.user_b_password@ == Seq::<char>::empty(),
            r.reason@ == reason@,
            r.logon_source@ == logon_source@,
            uuid_v4_bits(r.request_id),
            r.timestamp_millis >= 0,
    {
        let id = new_request_id();
        let now = utc_now_millis();
        Self::emergency_with(id, now, username, password, reason, logon_source)
    }
}

/// Outcome of one verification, as recorded for audit.
#[derive(Debug, Clone, Copy, PartialEq, Eq, Structural)]
pub enum VerificationResult {
    Success,
    FailUserA,
    FailUserB,
    BothFailed,
    Timeout,
    NetworkError,
}

/// Audit details of one verification.
#[derive(Debug, Clone)]
pub struct AuditData {
    pub user_a_sid: Option<String>,
    pub user_b_sid: Option<String>,
    /// Milliseconds since the Unix epoch (UTC).
    pub verification_timestamp_millis: i64,
    pub result: VerificationResult,
    pub client_hostname: Option<String>,
}

/// Result of one request, as recorded for audit.
#[derive(Debug, Clone)]
pub struct AuthResult {
    pub request_id: u128,
    pub success: bool,
    pub error_message: Option<String>,
    pub audit_data: Option<AuditData>,
}

} // verus!
