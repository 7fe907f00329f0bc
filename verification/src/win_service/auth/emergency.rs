//! Emergency override: designated accounts may log on alone in a crisis,
//! under a policy that can disable the override or demand a reason.
use vstd::prelude::*;
use crate::text::{eq_ignore_ascii_case, eq_ignore_ascii_case_str, is_blank, trim};

verus! {

/// An emergency override request.
#[derive(Debug, Clone)]
pub struct EmergencyOverrideRequest {
    pub username: String,
    pub password_hash: Vec<u8>,
    pub reason: String,
    /// Milliseconds since the Unix epoch (UTC).
    pub timestamp_millis: i64,
}

/// Outcome of an override check.
#[derive(Debug, Clone, PartialEq, Eq)]
pub enum EmergencyOverrideResult {
    /// Override approved: this single user may log on.
    Approved { username: String },
    /// Override denied.
    Denied { reason: String },
    /// Override expired.
    Expired,
}

pub enum EmergencyOverrideResultView {
    Approved { username: Seq<char> },
    Denied { reason: Seq<char> },
    Expired,
}

impl View for EmergencyOverrideResult {
    type V = EmergencyOverrideResultView;

    open spec fn view(&self) -> EmergencyOverrideResultView {
        match self {
            EmergencyOverrideResult::Approved { username } => EmergencyOverrideResultView::Approved { username: username@ },
            EmergencyOverrideResult::Denied { reason } => EmergencyOverrideResultView::Denied { reason: reason@ },
            EmergencyOverrideResult::Expired => EmergencyOverrideResultView::Expired,
        }
    }
}

/// Emergency override policy.
#[derive(Debug, Clone)]
pub struct EmergencyConfig {
    /// Whether emergency override is enabled
    pub enabled: bool,
    /// The authorized emergency accounts (empty: any account)
    pub authorized_sids: Vec<String>,
    /// Whether a reason must be provided
    pub require_reason: bool,
    /// Maximum time an override remains active (hours)
    pub max_active_hours: u32,
}

impl Default for EmergencyConfig {
    fn default() -> (c: Self)
        ensures
            c.enabled,
            c.authorized_sids@.len() == 0,
            c.require_reason,
            c.max_active_hours == 24,
    {
        EmergencyConfig { enabled: true, authorized_sids: Vec::new(), require_reason: true, max_active_hours: 24 }
    }
}

/// Emergency override manager.
pub struct EmergencyOverrideManager {
    config: EmergencyConfig,
}

/// The authorized accounts as texts.
pub open spec fn sid_texts(sids: Seq<String>) -> Seq<Seq<char>> {
    sids.map_values(|s: String| s@)
}

/// Some listed account equals `username`, ignoring ASCII case.
pub open spec fn listed(sids: Seq<Seq<char>>, username: Seq<char>) -> bool {
    exists|i: int| 0 <= i < sids.len() && eq_ignore_ascii_case(#[trigger] sids[i], username)
}

pub open spec fn not_authorized_text(username: Seq<char>) -> Seq<char> {
    "Account '"@ + username + "' is not authorized for emergency override"@
}

/// The verdict on an override request under a policy, in the order the
/// checks are made: policy on, reason given where required, a username,
/// and the account listed (an empty list admits every account).
pub open spec fn override_verdict(
    enabled: bool,
    require_reason: bool,
    sids: Seq<Seq<char>>,
    username: Seq<char>,
    reason: Seq<char>,
) -> EmergencyOverrideResultView {
    if !enabled {
        EmergencyOverrideResultView::Denied { reason: "Emergency override is disabled by policy"@ }
    } else if require_reason && trim(reason).len() == 0 {
        EmergencyOverrideResultView::Denied { reason: "A reason must be provided for emergency override"@ }
    } else if username.len() == 0 {
        EmergencyOverrideResultView::Denied { reason: "Username is required"@ }
    } else if !listed(sids, username) && sids.len() != 0 {
        EmergencyOverrideResultView::Denied { reason: not_authorized_text(username) }
    } else {
        EmergencyOverrideResultView::Approved { username }
    }
}

impl EmergencyOverrideManager {
    /// The manager's policy, for contracts.
    pub closed spec fn config_view(&self) -> EmergencyConfig {
        self.config
    }

    /// A manager with the given policy.
    pub fn new(config: EmergencyConfig) -> (m: EmergencyOverrideManager)
        ensures
            m.config_view() == config,
    {
        EmergencyOverrideManager { config }
    }

    /// Decides an override request under the current policy.
    pub fn check_override(&self, request: &EmergencyOverrideRequest) -> (r: EmergencyOverrideResult)
        ensures
            r@ == override_verdict(
                self.config_view().enabled,
                self.config_view().require_reason,
                sid_texts(self.config_view().authorized_sids@),
                request.username@,
                request.reason@,
            ),
    {
        if !self.config.enabled {
            return EmergencyOverrideResult::Denied { reason: String::from_str("Emergency override is disabled by policy") };
        }
        if self.config.require_reason && is_blank(request.reason.as_str()) {
            return EmergencyOverrideResult::Denied {
                reason: String::from_str("A reason must be provided for emergency override"),
            };
        }
        if request.username.as_str().is_empty() {
            return EmergencyOverrideResult::Denied { reason: String::from_str("Username is required") };
        }
        let sids = &self.config.authorized_sids;
        let mut is_authorized = false;
        let mut i: usize = 0;
        while i < sids.len()
            invariant
                i <= sids.len(),
                is_authorized <==> exists|j: int| 0 <= j < i && eq_ignore_ascii_case(#[trigger] sids@[j]@, request.username@),
            decreases sids.len() - i,
        {
            if eq_ignore_ascii_case_str(sids[i].as_str(), request.username.as_str()) {
                is_authorized = true;
            }
            i = i + 1;
        }
        proof {
            let t = sid_texts(sids@);
            assert forall|j: int| 0 <= j < sids.len() implies #[trigger] t[j] == sids@[j]@ by {}
            if is_authorized {
                let j = choose|j: int| 0 <= j < sids.len() && eq_ignore_ascii_case(#[trigger] sids@[j]@, request.username@);
                assert(t[j] == sids@[j]@);
            }
            if listed(t, request.username@) {
                let j = choose|j: int| 0 <= j < t.len() && eq_ignore_ascii_case(#[trigger] t[j], request.username@);
                assert(t[j] == sids@[j]@);
            }
        }
        if !is_authorized && sids.len() != 0 {
            return EmergencyOverrideResult::Denied {
                reason: String::from_str("Account '").concat(request.username.as_str()).concat(
                    "' is not authorized for emergency override",
                ),
            };
        }
        EmergencyOverrideResult::Approved { username: request.username.clone() }
    }

    /// Replaces the policy.
    pub fn update_config(&mut self, config: EmergencyConfig)
        ensures
            final(self).config_view() == config,
    {
        self.config = config;
    }

    /// Whether the override is enabled.
    pub fn is_enabled(&self) -> (b: bool)
        ensures
            b == self.config_view().enabled,
    {
        self.config.enabled
    }
}

impl Default for EmergencyOverrideManager {
    fn default() -> (m: Self)
        ensures
            m.config_view().enabled,
            m.config_view().authorized_sids@.len() == 0,
            m.config_view().require_reason,
            m.config_view().max_active_hours == 24,
    {
        Self::new(EmergencyConfig::default())
    }
}

/// An override is approved only while the policy enables it, with a reason
/// where the policy requires one, for a named account that is listed (or
/// when no account is listed), and then for exactly the requested account.
pub proof fn lemma_override_approval(
    enabled: bool,
    require_reason: bool,
    sids: Seq<Seq<char>>,
    username: Seq<char>,
    reason: Seq<char>,
)
    ensures
        override_verdict(enabled, require_reason, sids, username, reason) is Approved <==> (enabled && !(require_reason
            && trim(reason).len() == 0) && username.len() != 0 && (sids.len() == 0 || listed(sids, username))),
        override_verdict(enabled, require_reason, sids, username, reason) matches EmergencyOverrideResultView::Approved {
            username: u,
        } ==> u == username,
{
}

} // verus!
