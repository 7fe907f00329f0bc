//! Authentication errors and the verifiers.
pub mod dual_validator;
pub mod emergency;
pub mod ldap_verifier;
pub mod sspi_verifier;
use vstd::prelude::*;

verus! {

/// Authentication error types
#[derive(Debug, Clone, PartialEq, Eq)]
pub enum AuthError {
    LdapConnection(String),
    SspiFailure(String),
    NetworkUnavailable,
    InvalidCredentials(String),
    Timeout,
    CommunicationError(String),
    BothFailed(String, String),
    ServiceError(String),
    PasswordExpired(String),
}

/// The value of an `AuthError`, with texts as character sequences.
pub enum AuthErrorView {
    LdapConnection(Seq<char>),
    SspiFailure(Seq<char>),
    NetworkUnavailable,
    InvalidCredentials(Seq<char>),
    Timeout,
    CommunicationError(Seq<char>),
    BothFailed(Seq<char>, Seq<char>),
    ServiceError(Seq<char>),
    PasswordExpired(Seq<char>),
}

impl View for AuthError {
    type V = AuthErrorView;

    open spec fn view(&self) -> AuthErrorView {
        match self {
            AuthError::LdapConnection(m) => AuthErrorView::LdapConnection(m@),
            AuthError::SspiFailure(m) => AuthErrorView::SspiFailure(m@),
            AuthError::NetworkUnavailable => AuthErrorView::NetworkUnavailable,
            AuthError::InvalidCredentials(m) => AuthErrorView::InvalidCredentials(m@),
            AuthError::Timeout => AuthErrorView::Timeout,
            AuthError::CommunicationError(m) => AuthErrorView::CommunicationError(m@),
            AuthError::BothFailed(a, b) => AuthErrorView::BothFailed(a@, b@),
            AuthError::ServiceError(m) => AuthErrorView::ServiceError(m@),
            AuthError::PasswordExpired(m) => AuthErrorView::PasswordExpired(m@),
        }
    }
}

/// The text that the error displays.
pub open spec fn auth_error_text(e: AuthError) -> Seq<char> {
    match e {
        AuthError::LdapConnection(m) => "LDAP connection failed: "@ + m@,
        AuthError::SspiFailure(m) => "SSPI authentication failed: "@ + m@,
        AuthError::NetworkUnavailable => "Network unavailable: DC unreachable"@,
        AuthError::InvalidCredentials(m) => "Invalid credentials for user: "@ + m@,
        AuthError::Timeout => "Timeout waiting for response"@,
        AuthError::CommunicationError(m) => "Service communication error: "@ + m@,
        AuthError::BothFailed(a, b) => "Both users failed: "@ + a@ + " and "@ + b@,
        AuthError::ServiceError(m) => "Internal service error: "@ + m@,
        AuthError::PasswordExpired(m) => "PASSWORD_EXPIRED: "@ + m@,
    }
}

impl AuthError {
    /// The text that the error displays.
    pub fn message(&self) -> (s: String)
        ensures
            s@ == auth_error_text(*self),
    {
        match self {
            AuthError::LdapConnection(m) => String::from_str("LDAP connection failed: ").concat(m.as_str()),
            AuthError::SspiFailure(m) => String::from_str("SSPI authentication failed: ").concat(m.as_str()),
            AuthError::NetworkUnavailable => String::from_str("Network unavailable: DC unreachable"),
            AuthError::InvalidCredentials(m) => String::from_str("Invalid credentials for user: ").concat(m.as_str()),
            AuthError::Timeout => String::from_str("Timeout waiting for response"),
            AuthError::CommunicationError(m) => String::from_str("Service communication error: ").concat(m.as_str()),
            AuthError::BothFailed(a, b) => String::from_str("Both users failed: ").concat(a.as_str()).concat(" and ").concat(b.as_str()),
            AuthError::ServiceError(m) => String::from_str("Internal service error: ").concat(m.as_str()),
            AuthError::PasswordExpired(m) => String::from_str("PASSWORD_EXPIRED: ").concat(m.as_str()),
        }
    }
}

/// Dual account verification result
#[derive(Debug, Clone)]
pub enum DualVerificationResult {
    Success,
    UserAFailed(String),
    UserBFailed(String),
    BothFailed(String, String),
    Timeout,
}

} // verus!
