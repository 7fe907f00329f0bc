//! The records the management application keeps in the shared database, and
//! how the policy is stored there as (key, value) rows. The SQL itself runs
//! outside the library.
use vstd::prelude::*;
use crate::text::{decimal, parse_decimal, rfc3339_utc_text, same_text, u32_to_decimal, u64_to_decimal, uuid_v4_text};
use crate::win_service::audit::{parse_u32_or, parse_u64_or, u32_or, u64_or};

verus! {

/// A dual-account pair.
#[derive(Debug, Clone)]
pub struct DualPairRecord {
    pub id: String,
    pub user_a_sid: String,
    pub user_b_sid: String,
    pub user_a_name: String,
    pub user_b_name: String,
    pub enabled: bool,
    pub created_at: String,
    pub updated_at: String,
}

/// An emergency override account.
#[derive(Debug, Clone)]
pub struct EmergencyAccount {
    pub id: String,
    pub sid: String,
    pub username: String,
    pub reason: String,
    pub approved_by: String,
    pub activated_at: String,
    pub expires_at: Option<String>,
}

/// An audit log entry.
#[derive(Debug, Clone)]
pub struct AuditLogEntry {
    pub id: i64,
    pub timestamp: String,
    pub user_a_sid: String,
    pub user_b_sid: String,
    pub result: String,
    pub error_message: Option<String>,
    pub client_hostname: Option<String>,
}

/// The policy the administrator configures.
#[derive(Debug, Clone, Copy, PartialEq, Eq, Structural)]
pub struct PolicyConfig {
    pub max_retry_count: u32,
    pub auth_timeout_secs: u64,
    pub allow_emergency_override: bool,
    pub emergency_requires_reason: bool,
    pub offline_cache_enabled: bool,
    /// Whether the other logon tiles (the built-in password tile) stay available.
    pub default_tile_enabled: bool,
}

pub open spec fn default_policy() -> PolicyConfig {
    PolicyConfig {
        max_retry_count: 3,
        auth_timeout_secs: 30,
        allow_emergency_override: true,
        emergency_requires_reason: true,
        offline_cache_enabled: true,
        default_tile_enabled: true,
    }
}

impl Default for PolicyConfig {
    fn default() -> (p: Self)
        ensures
            p == default_policy(),
    {
        PolicyConfig {
            max_retry_count: 3,
            auth_timeout_secs: 30,
            allow_emergency_override: true,
            emergency_requires_reason: true,
            offline_cache_enabled: true,
            default_tile_enabled: true,
        }
    }
}

/// The policy after reading one stored `(key, value)` row; unknown keys
/// change nothing and unreadable numbers fall back to the defaults.
pub open spec fn apply_policy_row(p: PolicyConfig, key: Seq<char>, value: Seq<char>) -> PolicyConfig {
    if key == "max_retry_count"@ {
        PolicyConfig { max_retry_count: u32_or(value, 3), ..p }
    } else if key == "auth_timeout_secs"@ {
        PolicyConfig { auth_timeout_secs: u64_or(value, 30), ..p }
    } else if key == "allow_emergency_override"@ {
        PolicyConfig { allow_emergency_override: value == "true"@, ..p }
    } else if key == "emergency_requires_reason"@ {
        PolicyConfig { emergency_requires_reason: value == "true"@, ..p }
    } else if key == "offline_cache_enabled"@ {
        PolicyConfig { offline_cache_enabled: value == "true"@, ..p }
    } else if key == "default_tile_enabled"@ {
        PolicyConfig { default_tile_enabled: value == "true"@, ..p }
    } else {
        p
    }
}

/// The policy stored as `rows`, read in order from the defaults.
pub open spec fn policy_of(rows: Seq<(Seq<char>, Seq<char>)>) -> PolicyConfig
    decreases rows.len(),
{
    if rows.len() == 0 {
        default_policy()
    } else {
        apply_policy_row(policy_of(rows.drop_last()), rows.last().0, rows.last().1)
    }
}

pub open spec fn rows_view(rows: Seq<(String, String)>) -> Seq<(Seq<char>, Seq<char>)> {
    rows.map_values(|r: (String, String)| (r.0@, r.1@))
}

pub open spec fn bool_text(b: bool) -> Seq<char> {
    if b {
        "true"@
    } else {
        "false"@
    }
}

/// The rows that store a policy.
pub open spec fn policy_rows_spec(c: PolicyConfig) -> Seq<(Seq<char>, Seq<char>)> {
    seq![
        ("max_retry_count"@, decimal(c.max_retry_count as nat)),
        ("auth_timeout_secs"@, decimal(c.auth_timeout_secs as nat)),
        ("allow_emergency_override"@, bool_text(c.allow_emergency_override)),
        ("emergency_requires_reason"@, bool_text(c.emergency_requires_reason)),
        ("offline_cache_enabled"@, bool_text(c.offline_cache_enabled)),
        ("default_tile_enabled"@, bool_text(c.default_tile_enabled)),
    ]
}

fn bool_string(b: bool) -> (s: String)
    ensures
        s@ == bool_text(b),
{
    if b {
        String::from_str("true")
    } else {
        String::from_str("false")
    }
}

impl PolicyConfig {
    /// Reads the stored `(key, value)` rows of the policy_config table.
    pub fn from_rows(rows: &Vec<(String, String)>) -> (p: PolicyConfig)
        ensures
            p == policy_of(rows_view(rows@)),
    {
        let mut p = PolicyConfig::default();
        let ghost rv = rows_view(rows@);
        let mut i: usize = 0;
        while i < rows.len()
            invariant
                i <= rows.len(),
                rv == rows_view(rows@),
                p == policy_of(rv.take(i as int)),
            decreases rows.len() - i,
        {
            let key = rows[i].0.as_str();
            let value = rows[i].1.as_str();
            proof {
                assert(rv.take(i + 1).drop_last() =~= rv.take(i as int));
                assert(rv.take(i + 1).last() == rv[i as int]);
                assert(rv[i as int] == (rows@[i as int].0@, rows@[i as int].1@));
            }
            if same_text(key, "max_retry_count") {
                p.max_retry_count = parse_u32_or(value, 3);
            } else if same_text(key, "auth_timeout_secs") {
                p.auth_timeout_secs = parse_u64_or(value, 30);
            } else if same_text(key, "allow_emergency_override") {
                p.allow_emergency_override = same_text(value, "true");
            } else if same_text(key, "emergency_requires_reason") {
                p.emergency_requires_reason = same_text(value, "true");
            } else if same_text(key, "offline_cache_enabled") {
                p.offline_cache_enabled = same_text(value, "true");
            } else if same_text(key, "default_tile_enabled") {
                p.default_tile_enabled = same_text(value, "true");
            }
            i = i + 1;
        }
        proof {
            assert(rv.take(rows.len() as int) =~= rv);
        }
        p
    }

    /// The `(key, value)` rows that store this policy.
    pub fn to_rows(&self) -> (rows: Vec<(String, String)>)
        ensures
            rows_view(rows@) == policy_rows_spec(*self),
    {
        let mut rows: Vec<(String, String)> = Vec::new();
        rows.push((String::from_str("max_retry_count"), u32_to_decimal(self.max_retry_count)));
        rows.push((String::from_str("auth_timeout_secs"), u64_to_decimal(self.auth_timeout_secs)));
        rows.push((String::from_str("allow_emergency_override"), bool_string(self.allow_emergency_override)));
        rows.push((String::from_str("emergency_requires_reason"), bool_string(self.emergency_requires_reason)));
        rows.push((String::from_str("offline_cache_enabled"), bool_string(self.offline_cache_enabled)));
        rows.push((String::from_str("default_tile_enabled"), bool_string(self.default_tile_enabled)));
        proof {
            assert(rows_view(rows@) =~= policy_rows_spec(*self));
        }
        rows
    }
}

proof fn lemma_policy_of_push(s: Seq<(Seq<char>, Seq<char>)>, k: Seq<char>, v: Seq<char>)
    ensures
        policy_of(s.push((k, v))) == apply_policy_row(policy_of(s), k, v),
{
    assert(s.push((k, v)).drop_last() =~= s);
}

/// A saved policy reads back as itself: the rows written for a policy, read
/// in order from the defaults, give that policy.
pub proof fn lemma_policy_roundtrip(c: PolicyConfig)
    ensures
        policy_of(policy_rows_spec(c)) == c,
{
    reveal_strlit("true");
    reveal_strlit("false");
    reveal_strlit("max_retry_count");
    reveal_strlit("auth_timeout_secs");
    reveal_strlit("allow_emergency_override");
    reveal_strlit("emergency_requires_reason");
    reveal_strlit("offline_cache_enabled");
    reveal_strlit("default_tile_enabled");
    crate::text::lemma_decimal_roundtrip(c.max_retry_count as nat);
    crate::text::lemma_decimal_roundtrip(c.auth_timeout_secs as nat);
    let k1 = "max_retry_count"@;
    let k2 = "auth_timeout_secs"@;
    let k3 = "allow_emergency_override"@;
    let k4 = "emergency_requires_reason"@;
    let k5 = "offline_cache_enabled"@;
    let k6 = "default_tile_enabled"@;
    let v1 = decimal(c.max_retry_count as nat);
    let v2 = decimal(c.auth_timeout_secs as nat);
    let v3 = bool_text(c.allow_emergency_override);
    let v4 = bool_text(c.emergency_requires_reason);
    let v5 = bool_text(c.offline_cache_enabled);
    let v6 = bool_text(c.default_tile_enabled);
    let e = Seq::<(Seq<char>, Seq<char>)>::empty();
    let s1 = e.push((k1, v1));
    let s2 = s1.push((k2, v2));
    let s3 = s2.push((k3, v3));
    let s4 = s3.push((k4, v4));
    let s5 = s4.push((k5, v5));
    let s6 = s5.push((k6, v6));
    assert(s6 =~= policy_rows_spec(c));
    lemma_policy_of_push(e, k1, v1);
    lemma_policy_of_push(s1, k2, v2);
    lemma_policy_of_push(s2, k3, v3);
    lemma_policy_of_push(s3, k4, v4);
    lemma_policy_of_push(s4, k5, v5);
    lemma_policy_of_push(s5, k6, v6);
    assert(policy_of(e) == default_policy());
    assert(k1.len() == 15 && k2.len() == 17 && k3.len() == 24 && k4.len() == 25 && k5.len() == 21 && k6.len() == 20);
    let d = default_policy();
    assert(policy_of(s1) == PolicyConfig { max_retry_count: c.max_retry_count, ..d });
    assert(policy_of(s2) == PolicyConfig { max_retry_count: c.max_retry_count, auth_timeout_secs: c.auth_timeout_secs, ..d });
    assert(policy_of(s3) == PolicyConfig {
        max_retry_count: c.max_retry_count,
        auth_timeout_secs: c.auth_timeout_secs,
        allow_emergency_override: c.allow_emergency_override,
        ..d
    });
    assert(policy_of(s4) == PolicyConfig { default_tile_enabled: d.default_tile_enabled, offline_cache_enabled: d.offline_cache_enabled, ..c });
    assert(policy_of(s5) == PolicyConfig { default_tile_enabled: d.default_tile_enabled, ..c });
    assert(policy_of(s6) == c);
    assert(u32_or(v1, 3) == c.max_retry_count);
    assert(u64_or(v2, 30) == c.auth_timeout_secs);
    assert((v3 == "true"@) == c.allow_emergency_override);
    assert((v4 == "true"@) == c.emergency_requires_reason);
    assert((v5 == "true"@) == c.offline_cache_enabled);
    assert((v6 == "true"@) == c.default_tile_enabled);
}

/// A fresh identifier: `uuid::Uuid::new_v4().to_string()`, the hyphenated
/// lower-case text of a random version-4 UUID. Which one is left open.
#[verifier::external_body]
fn new_record_id() -> (id: String)
    ensures
        uuid_v4_text(id@),
{
    uuid::Uuid::new_v4().to_string()
}

/// The current UTC time, `chrono::Utc::now().to_rfc3339()`: RFC 3339 text
/// with offset `+00:00`. Which time is left open.
#[verifier::external_body]
fn utc_now_rfc3339() -> (t: String)
    ensures
        rfc3339_utc_text(t@),
{
    chrono::Utc::now().to_rfc3339()
}

impl DualPairRecord {
    /// A new, enabled pair with a fresh id, created and updated now.
    pub fn create(user_a_sid: &str, user_b_sid: &str, user_a_name: &str, user_b_name: &str) -> (r: DualPairRecord)
        ensures
            r.user_a_sid@ == user_a_sid@,
            r.user_b_sid@ == user_b_sid@,
            r.user_a_name@ == user_a_name@,
            r.user_b_name@ == user_b_name@,
            r.enabled,
            r.created_at@ == r.updated_at@,
            uuid_v4_text(r.id@),
            rfc3339_utc_text(r.created_at@),
    {
        let id = new_record_id();
        let now = utc_now_rfc3339();
        DualPairRecord {
            id,
            user_a_sid: String::from_str(user_a_sid),
            user_b_sid: String::from_str(user_b_sid),
            user_a_name: String::from_str(user_a_name),
            user_b_name: String::from_str(user_b_name),
            enabled: true,
            created_at: now.clone(),
            updated_at: now,
        }
    }
}

impl EmergencyAccount {
    /// A new emergency account with a fresh id, activated now, without expiry.
    pub fn create(sid: &str, username: &str, reason: &str, approved_by: &str) -> (r: EmergencyAccount)
        ensures
            r.sid@ == sid@,
            r.username@ == username@,
            r.reason@ == reason@,
            r.approved_by@ == approved_by@,
            r.expires_at is None,
            uuid_v4_text(r.id@),
            rfc3339_utc_text(r.activated_at@),
    {
        let id = new_record_id();
        let now = utc_now_rfc3339();
        EmergencyAccount {
            id,
            sid: String::from_str(sid),
            username: String::from_str(username),
            reason: String::from_str(reason),
            approved_by: String::from_str(approved_by),
            activated_at: now,
            expires_at: None,
        }
    }
}

} // verus!
