//! Verifying credentials against Active Directory by LDAP simple bind:
//! which domain controllers are tried, the DN that is bound, and what a
//! bind's result code means. The network exchange itself (ldap3's
//! `LdapConn`) is made by the caller for each domain controller.
use vstd::prelude::*;
use crate::text::{decimal, split_on, split_char, u32_to_decimal};

verus! {

/// LDAP authentication errors.
#[derive(Debug, Clone, PartialEq, Eq)]
pub enum LdapAuthError {
    Connection(String),
    Authentication(String),
    InvalidCredentials(String),
    Config(String),
}

pub enum LdapAuthErrorView {
    Connection(Seq<char>),
    Authentication(Seq<char>),
    InvalidCredentials(Seq<char>),
    Config(Seq<char>),
}

impl View for LdapAuthError {
    type V = LdapAuthErrorView;

    open spec fn view(&self) -> LdapAuthErrorView {
        match self {
            LdapAuthError::Connection(s) => LdapAuthErrorView::Connection(s@),
            LdapAuthError::Authentication(s) => LdapAuthErrorView::Authentication(s@),
            LdapAuthError::InvalidCredentials(s) => LdapAuthErrorView::InvalidCredentials(s@),
            LdapAuthError::Config(s) => LdapAuthErrorView::Config(s@),
        }
    }
}

pub open spec fn ldap_error_text(e: LdapAuthErrorView) -> Seq<char> {
    match e {
        LdapAuthErrorView::Connection(s) => "LDAP connection failed: "@ + s,
        LdapAuthErrorView::Authentication(s) => "Authentication failed: "@ + s,
        LdapAuthErrorView::InvalidCredentials(s) => "Invalid credentials: "@ + s,
        LdapAuthErrorView::Config(s) => "Configuration error: "@ + s,
    }
}

impl LdapAuthError {
    /// The display text of the error.
    pub fn message(&self) -> (s: String)
        ensures
            s@ == ldap_error_text(self@),
    {
        match self {
            LdapAuthError::Connection(s) => String::from_str("LDAP connection failed: ").concat(s.as_str()),
            LdapAuthError::Authentication(s) => String::from_str("Authentication failed: ").concat(s.as_str()),
            LdapAuthError::InvalidCredentials(s) => String::from_str("Invalid credentials: ").concat(s.as_str()),
            LdapAuthError::Config(s) => String::from_str("Configuration error: ").concat(s.as_str()),
        }
    }
}

/// Domain controllers to try, and the base DN of the user accounts.
#[derive(Debug, Clone)]
pub struct LdapConfig {
    pub dc_addresses: Vec<String>,
    pub base_dn: String,
}

impl LdapConfig {
    pub fn new(dc_addresses: Vec<String>, base_dn: String) -> (c: LdapConfig)
        ensures
            c.dc_addresses == dc_addresses,
            c.base_dn == base_dn,
    {
        LdapConfig { dc_addresses, base_dn }
    }
}

/// LDAP authentication client for Active Directory.
pub struct LdapAuthClient {
    config: LdapConfig,
}

/// The account part of a logon name: after the last backslash of
/// `DOMAIN\user`, before the first `@` of a UPN, else the whole name.
pub open spec fn account_part(username: Seq<char>) -> Seq<char> {
    if username.contains('\\') {
        split_on(username, '\\').last()
    } else if username.contains('@') {
        split_on(username, '@')[0]
    } else {
        username
    }
}

/// `CN={account},{base_dn}`.
pub open spec fn user_dn(username: Seq<char>, base_dn: Seq<char>) -> Seq<char> {
    "CN="@ + account_part(username) + ","@ + base_dn
}

/// What one domain controller's attempt can have given.
pub open spec fn dc_attempt<F: Fn(&str, &str, &str) -> Result<(), LdapAuthError>>(
    f: F,
    dc: Seq<char>,
    username: Seq<char>,
    password: Seq<char>,
    outcome: Result<(), LdapAuthError>,
) -> bool {
    exists|d: &str, u: &str, p: &str| d@ == dc && u@ == username && p@ == password && #[trigger] f.ensures((d, u, p), outcome)
}

/// The verdict of a run of attempts, one per domain controller in order,
/// stopped by the first success: success if the last attempt succeeded,
/// else (all of them failed) the last one's error.
pub open spec fn attempts_verdict(
    dcs: Seq<Seq<char>>,
    outcomes: Seq<Result<(), LdapAuthError>>,
    r: Result<(), LdapAuthError>,
) -> bool {
    &&& 1 <= outcomes.len() <= dcs.len()
    &&& forall|j: int| 0 <= j < outcomes.len() - 1 ==> #[trigger] outcomes[j] is Err
    &&& outcomes.last() is Ok ==> r is Ok
    &&& outcomes.last() is Err ==> outcomes.len() == dcs.len() && r == outcomes.last()
}

/// What `LdapAuthClient::verify_credentials` promises of its result `r`.
pub open spec fn verify_credentials_ensures<F: Fn(&str, &str, &str) -> Result<(), LdapAuthError>>(
    client: LdapAuthClient,
    username: Seq<char>,
    password: Seq<char>,
    verify_dc: F,
    r: Result<(), LdapAuthError>,
) -> bool {
    let dcs = client.config_view().dc_addresses@.map_values(|s: String| s@);
    if dcs.len() == 0 {
        r matches Err(e) && e@ == LdapAuthErrorView::Config("No domain controllers configured"@)
    } else if username.len() == 0 || password.len() == 0 {
        r matches Err(e) && e@ == LdapAuthErrorView::InvalidCredentials("Username and password must not be empty"@)
    } else {
        exists|outcomes: Seq<Result<(), LdapAuthError>>|
            attempts_verdict(dcs, outcomes, r) && forall|j: int|
                0 <= j < outcomes.len() ==> dc_attempt(verify_dc, dcs[j], username, password, #[trigger] outcomes[j])
    }
}

impl LdapAuthClient {
    pub closed spec fn config_view(&self) -> LdapConfig {
        self.config
    }

    /// A client for the given configuration.
    pub fn new(config: LdapConfig) -> (c: LdapAuthClient)
        ensures
            c.config_view() == config,
    {
        LdapAuthClient { config }
    }

    /// Verifies credentials by LDAP simple bind, trying each configured
    /// domain controller in turn (`verify_dc(dc, username, password)`) until
    /// one accepts. No domain controller is a configuration error; an empty
    /// username or password is refused without trying any.
    pub fn verify_credentials<F: Fn(&str, &str, &str) -> Result<(), LdapAuthError>>(
        &self,
        username: &str,
        password: &str,
        verify_dc: &F,
    ) -> (r: Result<(), LdapAuthError>)
        requires
            forall|d: &str, u: &str, p: &str| #[trigger] verify_dc.requires((d, u, p)),
        ensures
            verify_credentials_ensures(*self, username@, password@, *verify_dc, r),
    {
        let dcs = &self.config.dc_addresses;
        let ghost dv = dcs@.map_values(|s: String| s@);
        assert(dv == self.config_view().dc_addresses@.map_values(|s: String| s@));
        if dcs.len() == 0 {
            return Err(LdapAuthError::Config(String::from_str("No domain controllers configured")));
        }
        if username.is_empty() || password.is_empty() {
            return Err(LdapAuthError::InvalidCredentials(String::from_str("Username and password must not be empty")));
        }
        let mut last: Result<(), LdapAuthError> = Ok(());
        let ghost mut outcomes: Seq<Result<(), LdapAuthError>> = seq![];
        let mut i: usize = 0;
        while i < dcs.len()
            invariant
                i <= dcs.len(),
                dcs.len() > 0,
                dv == dcs@.map_values(|s: String| s@),
                dv == self.config_view().dc_addresses@.map_values(|s: String| s@),
                username@.len() != 0,
                password@.len() != 0,
                outcomes.len() == i,
                forall|j: int| 0 <= j < i ==> #[trigger] outcomes[j] is Err,
                i > 0 ==> last == outcomes.last(),
                forall|j: int| 0 <= j < i ==> dc_attempt(*verify_dc, dv[j], username@, password@, #[trigger] outcomes[j]),
                forall|d: &str, u: &str, p: &str| #[trigger] verify_dc.requires((d, u, p)),
            decreases dcs.len() - i,
        {
            let dc = dcs[i].as_str();
            let outcome = verify_dc(dc, username, password);
            proof {
                assert(dv[i as int] == dcs@[i as int]@);
                assert(dc_attempt(*verify_dc, dv[i as int], username@, password@, outcome));
                outcomes = outcomes.push(outcome);
            }
            match outcome {
                Ok(()) => {
                    proof {
                        assert(attempts_verdict(dv, outcomes, Ok(())));
                        assert(forall|j: int|
                            0 <= j < outcomes.len() ==> dc_attempt(*verify_dc, dv[j], username@, password@, #[trigger] outcomes[j]));
                        assert(exists|o: Seq<Result<(), LdapAuthError>>|
                            attempts_verdict(dv, o, Ok(())) && forall|j: int|
                                0 <= j < o.len() ==> dc_attempt(*verify_dc, dv[j], username@, password@, #[trigger] o[j]));
                    }
                    return Ok(());
                },
                Err(e) => {
                    last = Err(e);
                },
            }
            i = i + 1;
        }
        proof {
            assert(attempts_verdict(dv, outcomes, last));
            assert(exists|o: Seq<Result<(), LdapAuthError>>|
                attempts_verdict(dv, o, last) && forall|j: int|
                    0 <= j < o.len() ==> dc_attempt(*verify_dc, dv[j], username@, password@, #[trigger] o[j]));
        }
        last
    }

    /// `CN={account},{base_dn}` for a logon name.
    fn build_user_dn(&self, username: &str) -> (dn: String)
        ensures
            dn@ == user_dn(username@, self.config_view().base_dn@),
    {
        let part = if crate::text::contains_char(username, '\\') {
            let pieces = split_char(username, '\\');
            let n = pieces.len();
            proof {
                assert(pieces@.map_values(|p: String| p@)[n - 1] == pieces@[n - 1]@);
            }
            pieces[n - 1].clone()
        } else if crate::text::contains_char(username, '@') {
            let pieces = split_char(username, '@');
            proof {
                assert(pieces@.map_values(|p: String| p@)[0] == pieces@[0]@);
            }
            pieces[0].clone()
        } else {
            String::from_str(username)
        };
        String::from_str("CN=").concat(part.as_str()).concat(",").concat(self.config.base_dn.as_str())
    }

    /// The distinguished name bound for a logon name.
    pub fn get_user_dn(&self, username: &str) -> (dn: String)
        ensures
            dn@ == user_dn(username@, self.config_view().base_dn@),
    {
        self.build_user_dn(username)
    }
}

/// The LDAP URL of a domain controller (plain LDAP, port 389).
pub fn ldap_url(dc_address: &str) -> (url: String)
    ensures
        url@ == "ldap://"@ + dc_address@,
{
    String::from_str("ldap://").concat(dc_address)
}

/// A connection to `dc_address` that could not be made.
pub fn connect_failure(dc_address: &str, err: &str) -> (e: LdapAuthError)
    ensures
        e@ == LdapAuthErrorView::Connection("Cannot connect to "@ + dc_address@ + ": "@ + err@),
{
    LdapAuthError::Connection(String::from_str("Cannot connect to ").concat(dc_address).concat(": ").concat(err))
}

/// A bind operation that failed before any result came back.
pub fn bind_failure(err: &str) -> (e: LdapAuthError)
    ensures
        e@ == LdapAuthErrorView::Connection("LDAP bind operation failed: "@ + err@),
{
    LdapAuthError::Connection(String::from_str("LDAP bind operation failed: ").concat(err))
}

/// `format!("{:?}", s)`: the text in double quotes, with escapes.
pub uninterp spec fn debug_quoted(s: Seq<char>) -> Seq<char>;

/// The `Debug` form of a string (`<str as Debug>::fmt`).
#[verifier::external_body]
fn debug_text(s: &str) -> (r: String)
    ensures
        r@ == debug_quoted(s@),
{
    format!("{:?}", s)
}

/// LDAP_SUCCESS.
pub const LDAP_SUCCESS: u32 = 0;

/// LDAP_INVALID_CREDENTIALS.
pub const LDAP_INVALID_CREDENTIALS: u32 = 49;

/// What a bind's result code (and diagnostic text) means for `username`.
pub fn bind_outcome(rc: u32, text: &str, username: &str) -> (r: Result<(), LdapAuthError>)
    ensures
        rc == LDAP_SUCCESS ==> r is Ok,
        rc == LDAP_INVALID_CREDENTIALS ==> (r matches Err(e) && e@ == LdapAuthErrorView::InvalidCredentials(
            "Invalid credentials for user: "@ + username@,
        )),
        rc != LDAP_SUCCESS && rc != LDAP_INVALID_CREDENTIALS ==> (r matches Err(e) && e@
            == LdapAuthErrorView::Authentication(
            "LDAP bind failed with code "@ + decimal(rc as nat) + ": "@ + debug_quoted(text@),
        )),
{
    if rc == LDAP_SUCCESS {
        Ok(())
    } else if rc == LDAP_INVALID_CREDENTIALS {
        Err(LdapAuthError::InvalidCredentials(String::from_str("Invalid credentials for user: ").concat(username)))
    } else {
        Err(
            LdapAuthError::Authentication(
                String::from_str("LDAP bind failed with code ").concat(u32_to_decimal(rc).as_str()).concat(": ").concat(
                    debug_text(text).as_str(),
                ),
            ),
        )
    }
}

/// Tries each domain controller until one succeeds or all fail: the
/// credentials are accepted exactly when some domain controller accepted
/// them, and refused only after every domain controller was tried and
/// refused (with the last one's error).
pub proof fn lemma_first_success_or_all_fail(
    dcs: Seq<Seq<char>>,
    outcomes: Seq<Result<(), LdapAuthError>>,
    r: Result<(), LdapAuthError>,
)
    requires
        attempts_verdict(dcs, outcomes, r),
    ensures
        r is Ok <==> exists|j: int| 0 <= j < outcomes.len() && (#[trigger] outcomes[j]) is Ok,
        r is Err ==> outcomes.len() == dcs.len() && forall|j: int| 0 <= j < outcomes.len() ==> (#[trigger] outcomes[j]) is Err,
        r is Err ==> r == outcomes[dcs.len() - 1],
{
    let n = outcomes.len();
    if outcomes.last() is Ok {
        assert(outcomes[n - 1] is Ok);
    } else {
        assert forall|j: int| 0 <= j < outcomes.len() implies (#[trigger] outcomes[j]) is Err by {
            if j < n - 1 {
                assert(outcomes[j] is Err);
            }
        }
    }
}

} // verus!
