//! The dual-account credential: four input fields, the state derived from
//! them, and the provider that hands the credential to LogonUI.
use vstd::prelude::*;
use crate::text::{to_wide, utf16_encode};

verus! {

/// Credential provider CLSID {E4D9F6E7-8A2B-4C3D-9E5F-1A2B3C4D5E6F}.
pub const CLSID_DUAL_AUTH_PROVIDER: u128 = 0xE4D9F6E7_8A2B_4C3D_9E5F_1A2B3C4D5E6Fu128;

/// Credential provider filter CLSID {E4D9F6E8-8A2B-4C3D-9E5F-1A2B3C4D5E6F}.
pub const CLSID_WINSLA_FILTER: u128 = 0xE4D9F6E8_8A2B_4C3D_9E5F_1A2B3C4D5E6Fu128;

/// Number of credentials this provider supplies.
pub const CREDENTIAL_COUNT: u32 = 1;

/// Field indices of the dual-account credential.
pub const FIELD_USER_A_NAME: usize = 0;
pub const FIELD_USER_A_PASS: usize = 1;
pub const FIELD_USER_B_NAME: usize = 2;
pub const FIELD_USER_B_PASS: usize = 3;
pub const FIELD_SUBMIT_BUTTON: usize = 4;
pub const FIELD_STATUS_TEXT: usize = 5;
pub const FIELD_COUNT: usize = 6;

/// Where the credential stands.
#[derive(Debug, Clone, PartialEq, Eq)]
pub enum CredentialState {
    /// No input yet
    Empty,
    /// Only User A has entered a username
    UserAOnly,
    /// Both usernames entered, waiting for passwords
    BothUsernames,
    /// All fields filled, ready to submit
    ReadyToSubmit,
    /// Currently verifying with the service
    Verifying,
    /// Verification succeeded
    Verified,
    /// Verification failed
    Failed(String),
}

pub enum CredentialStateView {
    Empty,
    UserAOnly,
    BothUsernames,
    ReadyToSubmit,
    Verifying,
    Verified,
    Failed(Seq<char>),
}

impl View for CredentialState {
    type V = CredentialStateView;

    open spec fn view(&self) -> CredentialStateView {
        match self {
            CredentialState::Empty => CredentialStateView::Empty,
            CredentialState::UserAOnly => CredentialStateView::UserAOnly,
            CredentialState::BothUsernames => CredentialStateView::BothUsernames,
            CredentialState::ReadyToSubmit => CredentialStateView::ReadyToSubmit,
            CredentialState::Verifying => CredentialStateView::Verifying,
            CredentialState::Verified => CredentialStateView::Verified,
            CredentialState::Failed(s) => CredentialStateView::Failed(s@),
        }
    }
}

/// The dual-account credential.
pub struct DualAuthCredential {
    pub user_a_username: String,
    pub user_a_password: String,
    pub user_b_username: String,
    pub user_b_password: String,
    /// Current state
    pub state: CredentialState,
    /// Status message displayed to the user
    pub status_message: String,
}

pub struct DualAuthCredentialView {
    pub user_a_username: Seq<char>,
    pub user_a_password: Seq<char>,
    pub user_b_username: Seq<char>,
    pub user_b_password: Seq<char>,
    pub state: CredentialStateView,
    pub status_message: Seq<char>,
}

impl View for DualAuthCredential {
    type V = DualAuthCredentialView;

    open spec fn view(&self) -> DualAuthCredentialView {
        DualAuthCredentialView {
            user_a_username: self.user_a_username@,
            user_a_password: self.user_a_password@,
            user_b_username: self.user_b_username@,
            user_b_password: self.user_b_password@,
            state: self.state@,
            status_message: self.status_message@,
        }
    }
}

pub open spec fn initial_prompt() -> Seq<char> {
    "请输入主账号和审批人的凭据以完成双因素认证"@
}

/// A fresh credential: every field empty, nothing entered yet.
pub open spec fn fresh_credential() -> DualAuthCredentialView {
    DualAuthCredentialView {
        user_a_username: Seq::empty(),
        user_a_password: Seq::empty(),
        user_b_username: Seq::empty(),
        user_b_password: Seq::empty(),
        state: CredentialStateView::Empty,
        status_message: initial_prompt(),
    }
}

/// The state that the four fields call for; where only the approver's name
/// is filled in, the state stays what it was.
pub open spec fn derived_state(c: DualAuthCredentialView) -> CredentialStateView {
    if c.user_a_username.len() == 0 && c.user_b_username.len() == 0 {
        CredentialStateView::Empty
    } else if c.user_a_username.len() != 0 && c.user_b_username.len() == 0 {
        CredentialStateView::UserAOnly
    } else if c.user_a_username.len() != 0 && c.user_b_username.len() != 0 {
        if c.user_a_password.len() != 0 && c.user_b_password.len() != 0 {
            CredentialStateView::ReadyToSubmit
        } else {
            CredentialStateView::BothUsernames
        }
    } else {
        c.state
    }
}

/// `c` with one input field replaced (other indices leave it as it is).
pub open spec fn with_field(c: DualAuthCredentialView, field: usize, value: Seq<char>) -> DualAuthCredentialView {
    if field == FIELD_USER_A_NAME {
        DualAuthCredentialView { user_a_username: value, ..c }
    } else if field == FIELD_USER_A_PASS {
        DualAuthCredentialView { user_a_password: value, ..c }
    } else if field == FIELD_USER_B_NAME {
        DualAuthCredentialView { user_b_username: value, ..c }
    } else if field == FIELD_USER_B_PASS {
        DualAuthCredentialView { user_b_password: value, ..c }
    } else {
        c
    }
}

pub open spec fn is_input_field(field: usize) -> bool {
    field == FIELD_USER_A_NAME || field == FIELD_USER_A_PASS || field == FIELD_USER_B_NAME || field == FIELD_USER_B_PASS
}

/// The credential after `set_field_value(field, value)`.
pub open spec fn after_set(c: DualAuthCredentialView, field: usize, value: Seq<char>) -> DualAuthCredentialView {
    if is_input_field(field) {
        let d = with_field(c, field, value);
        DualAuthCredentialView { state: derived_state(d), ..d }
    } else {
        c
    }
}

/// What `get_field_value(field)` reads.
pub open spec fn field_value(c: DualAuthCredentialView, field: usize) -> Option<Seq<char>> {
    if field == FIELD_USER_A_NAME {
        Some(c.user_a_username)
    } else if field == FIELD_USER_A_PASS {
        Some(c.user_a_password)
    } else if field == FIELD_USER_B_NAME {
        Some(c.user_b_username)
    } else if field == FIELD_USER_B_PASS {
        Some(c.user_b_password)
    } else if field == FIELD_STATUS_TEXT {
        Some(c.status_message)
    } else {
        None
    }
}

/// The first missing input, as `validate_fields` reports it.
pub open spec fn missing_field(c: DualAuthCredentialView) -> Option<Seq<char>> {
    if c.user_a_username.len() == 0 {
        Some("User A username is required"@)
    } else if c.user_a_password.len() == 0 {
        Some("User A password is required"@)
    } else if c.user_b_username.len() == 0 {
        Some("User B username is required"@)
    } else if c.user_b_password.len() == 0 {
        Some("User B password is required"@)
    } else {
        None
    }
}

pub open spec fn failed_message(reason: Seq<char>) -> Seq<char> {
    "身份验证失败："@ + reason
}

impl DualAuthCredential {
    /// A new credential with every field empty.
    pub fn new() -> (c: DualAuthCredential)
        ensures
            c@ == fresh_credential(),
    {
        DualAuthCredential {
            user_a_username: String::new(),
            user_a_password: String::new(),
            user_b_username: String::new(),
            user_b_password: String::new(),
            state: CredentialState::Empty,
            status_message: String::from_str("请输入主账号和审批人的凭据以完成双因素认证"),
        }
    }

    /// Sets an input field by index and recomputes the state; other
    /// indices are ignored.
    pub fn set_field_value(&mut self, field_index: usize, value: &str)
        ensures
            final(self)@ == after_set(old(self)@, field_index, value@),
    {
        if field_index == FIELD_USER_A_NAME {
            self.user_a_username = String::from_str(value);
            self.update_state();
        } else if field_index == FIELD_USER_A_PASS {
            self.user_a_password = String::from_str(value);
            self.update_state();
        } else if field_index == FIELD_USER_B_NAME {
            self.user_b_username = String::from_str(value);
            self.update_state();
        } else if field_index == FIELD_USER_B_PASS {
            self.user_b_password = String::from_str(value);
            self.update_state();
        }
    }

    /// The value of a field (the four inputs and the status text).
    pub fn get_field_value(&self, field_index: usize) -> (r: Option<&str>)
        ensures
            match r {
                Some(s) => field_value(self@, field_index) == Some(s@),
                None => field_value(self@, field_index) is None,
            },
    {
        if field_index == FIELD_USER_A_NAME {
            Some(self.user_a_username.as_str())
        } else if field_index == FIELD_USER_A_PASS {
            Some(self.user_a_password.as_str())
        } else if field_index == FIELD_USER_B_NAME {
            Some(self.user_b_username.as_str())
        } else if field_index == FIELD_USER_B_PASS {
            Some(self.user_b_password.as_str())
        } else if field_index == FIELD_STATUS_TEXT {
            Some(self.status_message.as_str())
        } else {
            None
        }
    }

    fn update_state(&mut self)
        ensures
            final(self)@ == (DualAuthCredentialView { state: derived_state(old(self)@), ..old(self)@ }),
    {
        let a_empty = self.user_a_username.as_str().is_empty();
        let b_empty = self.user_b_username.as_str().is_empty();
        if a_empty && b_empty {
            self.state = CredentialState::Empty;
        } else if !a_empty && b_empty {
            self.state = CredentialState::UserAOnly;
        } else if !a_empty && !b_empty {
            if !self.user_a_password.as_str().is_empty() && !self.user_b_password.as_str().is_empty() {
                self.state = CredentialState::ReadyToSubmit;
            } else {
                self.state = CredentialState::BothUsernames;
            }
        }
    }

    /// `Ok` when all four inputs are filled in, else the first missing one.
    pub fn validate_fields(&self) -> (r: Result<(), String>)
        ensures
            r is Ok <==> missing_field(self@) is None,
            r matches Err(e) ==> missing_field(self@) == Some(e@),
    {
        if self.user_a_username.as_str().is_empty() {
            return Err(String::from_str("User A username is required"));
        }
        if self.user_a_password.as_str().is_empty() {
            return Err(String::from_str("User A password is required"));
        }
        if self.user_b_username.as_str().is_empty() {
            return Err(String::from_str("User B username is required"));
        }
        if self.user_b_password.as_str().is_empty() {
            return Err(String::from_str("User B password is required"));
        }
        Ok(())
    }

    /// Clears every input and returns to the empty state.
    pub fn reset(&mut self)
        ensures
            final(self)@ == (DualAuthCredentialView {
                user_a_username: Seq::empty(),
                user_a_password: Seq::empty(),
                user_b_username: Seq::empty(),
                user_b_password: Seq::empty(),
                state: CredentialStateView::Empty,
                status_message: "Enter both user credentials"@,
            }),
    {
        self.user_a_username = String::new();
        self.user_a_password = String::new();
        self.user_b_username = String::new();
        self.user_b_password = String::new();
        self.state = CredentialState::Empty;
        self.status_message = String::from_str("Enter both user credentials");
    }

    /// Marks the credential as verified.
    pub fn mark_verified(&mut self)
        ensures
            final(self)@ == (DualAuthCredentialView {
                state: CredentialStateView::Verified,
                status_message: "Authentication successful"@,
                ..old(self)@
            }),
    {
        self.state = CredentialState::Verified;
        self.status_message = String::from_str("Authentication successful");
    }

    /// Marks the credential as failed with `reason`.
    pub fn mark_failed(&mut self, reason: &str)
        ensures
            final(self)@ == (DualAuthCredentialView {
                state: CredentialStateView::Failed(reason@),
                status_message: failed_message(reason@),
                ..old(self)@
            }),
    {
        self.state = CredentialState::Failed(String::from_str(reason));
        self.status_message = String::from_str("身份验证失败：").concat(reason);
    }
}

impl Default for DualAuthCredential {
    fn default() -> (c: Self)
        ensures
            c@ == fresh_credential(),
    {
        Self::new()
    }
}

/// The provider: the credentials it offers LogonUI and its name.
pub struct DualAuthProvider {
    pub credentials: Vec<DualAuthCredential>,
    pub provider_name: String,
}

pub open spec fn provider_title() -> Seq<char> {
    "WinSLA Dual-Account Authentication"@
}

impl DualAuthProvider {
    /// A provider with one fresh credential.
    pub fn new() -> (p: DualAuthProvider)
        ensures
            p.credentials.len() == 1,
            p.credentials@[0]@ == fresh_credential(),
            p.provider_name@ == provider_title(),
    {
        let mut credentials: Vec<DualAuthCredential> = Vec::new();
        credentials.push(DualAuthCredential::new());
        DualAuthProvider { credentials, provider_name: String::from_str("WinSLA Dual-Account Authentication") }
    }

    /// Number of credentials (as a `u32`, truncated).
    pub fn get_credential_count(&self) -> (n: u32)
        ensures
            n == self.credentials.len() as u32,
    {
        self.credentials.len() as u32
    }

    /// The credential at `index`, to be edited in place.
    pub fn get_credential_mut(&mut self, index: u32) -> (r: Option<&mut DualAuthCredential>)
        ensures
            (index as int) < old(self).credentials.len() <==> r is Some,
            r is None ==> *final(self) == *old(self),
            r matches Some(c) ==> *c == old(self).credentials@[index as int]
                && final(self).credentials@ == old(self).credentials@.update(index as int, *final(c))
                && final(self).provider_name == old(self).provider_name,
    {
        let i = index as usize;
        if i < self.credentials.len() {
            Some(&mut self.credentials[i])
        } else {
            None
        }
    }

    /// The provider name shown in LogonUI.
    pub fn get_provider_name(&self) -> (s: &str)
        ensures
            s@ == self.provider_name@,
    {
        self.provider_name.as_str()
    }
}

impl Default for DualAuthProvider {
    fn default() -> (p: Self)
        ensures
            p.credentials.len() == 1,
            p.credentials@[0]@ == fresh_credential(),
            p.provider_name@ == provider_title(),
    {
        Self::new()
    }
}

/// `s` as a null-terminated UTF-16 string.
pub fn string_to_wstring(s: &str) -> (w: Vec<u16>)
    ensures
        w@ == utf16_encode(s@).push(0u16),
{
    to_wide(s)
}

/// Reading a field gives back what was last written to it, and writing
/// one input field leaves every other field (and the status text) as it was.
pub proof fn lemma_set_then_get(c: DualAuthCredentialView, field: usize, other: usize, value: Seq<char>)
    requires
        is_input_field(field),
    ensures
        field_value(after_set(c, field, value), field) == Some(value),
        other != field ==> field_value(after_set(c, field, value), other) == field_value(c, other),
{
}

/// Whenever user A's name is filled in, or both names are empty, the
/// credential is ready to submit exactly when all four inputs are filled in.
/// (With only the approver's name filled in, the state is left as it was.)
pub proof fn lemma_ready_iff_complete(c: DualAuthCredentialView, field: usize, value: Seq<char>)
    requires
        is_input_field(field),
    ensures
        ({
            let d = after_set(c, field, value);
            !(d.user_a_username.len() == 0 && d.user_b_username.len() != 0) ==> ((d.state is ReadyToSubmit)
                <==> missing_field(d) is None)
        }),
{
}

} // verus!
