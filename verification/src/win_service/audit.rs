//! Audit records, the service's view of the policy, and the failed-login
//! lockout that guards every account.
use vstd::prelude::*;
use crate::text::{parse_decimal, parse_u32, parse_u64, same_text, lowercase, to_lowercase};

verus! {

/// Audit event types
#[derive(Debug, Clone)]
pub enum AuditEvent {
    AuthSuccess { user_a: String, user_b: String, timestamp: String },
    AuthFailure { user_a: String, user_b: String, reason: String, timestamp: String },
    ServiceStarted,
    ServiceStopped,
    EmergencyOverride { username: String, reason: String, timestamp: String },
}

/// The line that the audit log holds for `event`, stamped `stamp`.
pub open spec fn audit_line(event: AuditEvent, stamp: Seq<char>) -> Seq<char> {
    let head = "["@ + stamp + "] "@;
    match event {
        AuditEvent::AuthSuccess { user_a, user_b, .. } =>
            head + "AUTH_SUCCESS: user_a="@ + user_a@ + ", user_b="@ + user_b@,
        AuditEvent::AuthFailure { user_a, user_b, reason, .. } =>
            head + "AUTH_FAILURE: user_a="@ + user_a@ + ", user_b="@ + user_b@ + ", reason="@ + reason@,
        AuditEvent::ServiceStarted => head + "SERVICE_STARTED"@,
        AuditEvent::ServiceStopped => head + "SERVICE_STOPPED"@,
        AuditEvent::EmergencyOverride { username, reason, .. } =>
            head + "EMERGENCY_OVERRIDE: user="@ + username@ + ", reason="@ + reason@,
    }
}

/// Audit logger that writes to the event log and a local file.
pub struct AuditLogger {
    pub log_file_path: String,
}

impl AuditLogger {
    /// The logger for the given `PROGRAMDATA` directory (`C:\ProgramData`
    /// when the variable is unset): it writes `<dir>\WinSLA\audit.log`.
    pub fn new(program_data: Option<&str>) -> (l: AuditLogger)
        ensures
            l.log_file_path@ == (match program_data {
                Some(d) => d@,
                None => "C:\\ProgramData"@,
            }) + "\\WinSLA\\audit.log"@,
    {
        let dir = match program_data {
            Some(d) => String::from_str(d),
            None => String::from_str("C:\\ProgramData"),
        };
        AuditLogger { log_file_path: dir.concat("\\WinSLA\\audit.log") }
    }

    /// The line that `log_event` writes for `event` at local time `stamp`
    /// (formatted `%Y-%m-%d %H:%M:%S`).
    pub fn log_line(&self, event: &AuditEvent, stamp: &str) -> (s: String)
        ensures
            s@ == audit_line(*event, stamp@),
    {
        let head = String::from_str("[").concat(stamp).concat("] ");
        match event {
            AuditEvent::AuthSuccess { user_a, user_b, .. } => head.concat("AUTH_SUCCESS: user_a=").concat(
                user_a.as_str(),
            ).concat(", user_b=").concat(user_b.as_str()),
            AuditEvent::AuthFailure { user_a, user_b, reason, .. } => head.concat(
                "AUTH_FAILURE: user_a=",
            ).concat(user_a.as_str()).concat(", user_b=").concat(user_b.as_str()).concat(
                ", reason=",
            ).concat(reason.as_str()),
            AuditEvent::ServiceStarted => head.concat("SERVICE_STARTED"),
            AuditEvent::ServiceStopped => head.concat("SERVICE_STOPPED"),
            AuditEvent::EmergencyOverride { username, reason, .. } => head.concat(
                "EMERGENCY_OVERRIDE: user=",
            ).concat(username.as_str()).concat(", reason=").concat(reason.as_str()),
        }
    }
}

/// Service-side view of the policy_config table written by the management app.
#[derive(Debug, Clone, Copy, PartialEq, Eq, Structural)]
pub struct ServicePolicy {
    pub max_retry_count: u32,
    pub auth_timeout_secs: u64,
    pub allow_emergency_override: bool,
    pub emergency_requires_reason: bool,
    pub offline_cache_enabled: bool,
    pub lockout_duration_minutes: u32,
    pub default_tile_enabled: bool,
}

pub open spec fn default_service_policy() -> ServicePolicy {
    ServicePolicy {
        max_retry_count: 3,
        auth_timeout_secs: 30,
        allow_emergency_override: true,
        emergency_requires_reason: true,
        offline_cache_enabled: true,
        lockout_duration_minutes: 10,
        default_tile_enabled: true,
    }
}

impl Default for ServicePolicy {
    fn default() -> (p: ServicePolicy)
        ensures
            p == default_service_policy(),
    {
        ServicePolicy {
            max_retry_count: 3,
            auth_timeout_secs: 30,
            allow_emergency_override: true,
            emergency_requires_reason: true,
            offline_cache_enabled: true,
            lockout_duration_minutes: 10,
            default_tile_enabled: true,
        }
    }
}

/// `value.parse::<u32>().unwrap_or(fallback)`.
pub open spec fn u32_or(value: Seq<char>, fallback: u32) -> u32 {
    match parse_decimal(value) {
        Some(v) => if v <= u32::MAX { v as u32 } else { fallback },
        None => fallback,
    }
}

/// `value.parse::<u64>().unwrap_or(fallback)`.
pub open spec fn u64_or(value: Seq<char>, fallback: u64) -> u64 {
    match parse_decimal(value) {
        Some(v) => if v <= u64::MAX { v as u64 } else { fallback },
        None => fallback,
    }
}

/// The policy after reading one `(key, value)` row.
pub open spec fn apply_service_row(p: ServicePolicy, key: Seq<char>, value: Seq<char>) -> ServicePolicy {
    if key == "max_retry_count"@ {
        ServicePolicy { max_retry_count: u32_or(value, 3), ..p }
    } else if key == "auth_timeout_secs"@ {
        ServicePolicy { auth_timeout_secs: u64_or(value, 30), ..p }
    } else if key == "allow_emergency_override"@ {
        ServicePolicy { allow_emergency_override: value == "true"@, ..p }
    } else if key == "emergency_requires_reason"@ {
        ServicePolicy { emergency_requires_reason: value == "true"@, ..p }
    } else if key == "offline_cache_enabled"@ {
        ServicePolicy { offline_cache_enabled: value == "true"@, ..p }
    } else if key == "lockout_duration_minutes"@ {
        ServicePolicy { lockout_duration_minutes: u32_or(value, 10), ..p }
    } else if key == "default_tile_enabled"@ {
        ServicePolicy { default_tile_enabled: value == "true"@, ..p }
    } else {
        p
    }
}

/// The policy that the rows give, read in order over the defaults.
pub open spec fn service_policy_of(rows: Seq<(String, String)>) -> ServicePolicy
    decreases rows.len(),
{
    if rows.len() == 0 {
        default_service_policy()
    } else {
        apply_service_row(service_policy_of(rows.drop_last()), rows.last().0@, rows.last().1@)
    }
}

pub fn parse_u32_or(value: &str, fallback: u32) -> (r: u32)
    ensures
        r == u32_or(value@, fallback),
{
    match parse_u32(value) {
        Some(v) => v,
        None => fallback,
    }
}

pub fn parse_u64_or(value: &str, fallback: u64) -> (r: u64)
    ensures
        r == u64_or(value@, fallback),
{
    match parse_u64(value) {
        Some(v) => v,
        None => fallback,
    }
}

impl ServicePolicy {
    /// Reads the `(key, value)` rows of the policy_config table; a missing
    /// or unreadable key keeps its default.
    pub fn from_rows(rows: &Vec<(String, String)>) -> (p: ServicePolicy)
        ensures
            p == service_policy_of(rows@),
    {
        let mut p = ServicePolicy::default();
        let mut i: usize = 0;
        while i < rows.len()
            invariant
                i <= rows.len(),
                p == service_policy_of(rows@.take(i as int)),
            decreases rows.len() - i,
        {
            let key = rows[i].0.as_str();
            let value = rows[i].1.as_str();
            proof {
                assert(rows@.take(i + 1).drop_last() =~= rows@.take(i as int));
                assert(rows@.take(i + 1).last() == rows@[i as int]);
            }
            if same_text(key, "max_retry_count") {
                p.max_retry_count = parse_u32_or(value, 3);
            } else if same_text(key, "auth_timeout_secs") {
                p.auth_timeout_secs = parse_u64_or(value, 30);
            } else if same_text(key, "allow_emergency_override") {
                p.allow_emergency_override = same_text(value, "true");
            } else if same_text(key, "emergency_requires_reason") {
                p.emergency_requires_reason = same_text(value, "true");
            } else if same_text(key, "offline_cache_enabled") {
                p.offline_cache_enabled = same_text(value, "true");
            } else if same_text(key, "lockout_duration_minutes") {
                p.lockout_duration_minutes = parse_u32_or(value, 10);
            } else if same_text(key, "default_tile_enabled") {
                p.default_tile_enabled = same_text(value, "true");
            }
            i = i + 1;
        }
        proof {
            assert(rows@.take(rows.len() as int) =~= rows@);
        }
        p
    }
}

// ─── Failed-login lockout ─────────────────────────────────────────

/// One row of the login_attempts table: consecutive failures since the last
/// lock or success, and the end of the current lock (local time, seconds).
#[derive(Debug, Clone, Copy, PartialEq, Eq, Structural)]
pub struct LoginAttempts {
    pub fail_count: u32,
    pub locked_until: Option<i64>,
}

/// Outcome of recording one failed login.
#[derive(Debug, Clone, Copy, PartialEq, Eq, Structural)]
pub struct FailureOutcome {
    /// The row to store for the account.
    pub stored: LoginAttempts,
    /// Attempts left before the account locks (0 when this failure locked it).
    pub remaining: u32,
    /// Length of the lock this failure started, in seconds.
    pub locked_secs: Option<u64>,
}

/// Seconds of lock left at `now`, if the account is locked.
pub open spec fn lock_remaining(row: Option<LoginAttempts>, now: i64) -> Option<u64> {
    match row {
        Some(r) => match r.locked_until {
            Some(until) => if until > now { Some((until - now) as u64) } else { None },
            None => None,
        },
        None => None,
    }
}

/// What recording a failed login does to the row of the account.
pub open spec fn failure_outcome(row: Option<LoginAttempts>, max_retry_count: u32, lockout_minutes: u32, now: i64) -> FailureOutcome {
    let current = match row { Some(r) => r.fail_count, None => 0 };
    let new_count = current + 1;
    if new_count >= max_retry_count {
        FailureOutcome {
            stored: LoginAttempts { fail_count: 0, locked_until: Some((now + lockout_minutes * 60) as i64) },
            remaining: 0,
            locked_secs: Some((lockout_minutes * 60) as u64),
        }
    } else {
        FailureOutcome {
            stored: LoginAttempts { fail_count: new_count as u32, locked_until: None },
            remaining: (max_retry_count - new_count) as u32,
            locked_secs: None,
        }
    }
}

/// Times that the lockout arithmetic can hold: `now` plus a lock of any length.
pub open spec fn valid_now(now: i64) -> bool {
    now <= i64::MAX - 0xFFFF_FFFF * 60
}

/// The key under which the login_attempts table holds `account`.
pub fn attempts_key(account: &str) -> (k: String)
    ensures
        k@ == lowercase(account@),
{
    to_lowercase(account)
}

/// If the account is locked at `now`, the remaining lock time in seconds
/// (the row is the one stored under `attempts_key(account)`).
pub fn get_lock_remaining_secs(row: Option<LoginAttempts>, now: i64) -> (r: Option<u64>)
    ensures
        r == lock_remaining(row, now),
        r matches Some(s) ==> s >= 1,
{
    match row {
        Some(r) => match r.locked_until {
            Some(until) => {
                if until > now {
                    Some((until as i128 - now as i128) as u64)
                } else {
                    None
                }
            },
            None => None,
        },
        None => None,
    }
}

/// Records a failed login against the policy. When the failure count reaches
/// `max_retry_count` the account is locked for `lockout_duration_minutes` and
/// the counter restarts; otherwise the count goes up by one.
pub fn record_login_failure(
    row: Option<LoginAttempts>,
    max_retry_count: u32,
    lockout_duration_minutes: u32,
    now: i64,
) -> (o: FailureOutcome)
    requires
        valid_now(now),
        match row { Some(r) => r.fail_count < u32::MAX, None => true },
    ensures
        o == failure_outcome(row, max_retry_count, lockout_duration_minutes, now),
{
    let current: u32 = match row {
        Some(r) => r.fail_count,
        None => 0,
    };
    let new_count = current + 1;
    if new_count >= max_retry_count {
        let secs: u64 = lockout_duration_minutes as u64 * 60;
        FailureOutcome {
            stored: LoginAttempts { fail_count: 0, locked_until: Some(now + secs as i64) },
            remaining: 0,
            locked_secs: Some(secs),
        }
    } else {
        FailureOutcome {
            stored: LoginAttempts { fail_count: new_count, locked_until: None },
            remaining: max_retry_count - new_count,
            locked_secs: None,
        }
    }
}

/// The row after a successful login: the failure counter is cleared.
pub fn reset_login_failures() -> (r: Option<LoginAttempts>)
    ensures
        r is None,
{
    None
}

} // verus!

verus! {

/// The row of an account after failed logins at the given times.
pub open spec fn after_failures(row: Option<LoginAttempts>, times: Seq<i64>, max_retry_count: u32, lockout_minutes: u32) -> Option<LoginAttempts>
    decreases times.len(),
{
    if times.len() == 0 {
        row
    } else {
        Some(failure_outcome(after_failures(row, times.drop_last(), max_retry_count, lockout_minutes), max_retry_count, lockout_minutes, times.last()).stored)
    }
}

/// Lockout threshold: from a clean record, each of the first `max_retry_count - 1`
/// failures only counts (leaving `max_retry_count - k` attempts), and the
/// `max_retry_count`-th failure locks the account for `lockout_minutes`
/// minutes and restarts the counter.
pub proof fn lemma_lockout_threshold(times: Seq<i64>, t: i64, max_retry_count: u32, lockout_minutes: u32)
    requires
        times.len() < max_retry_count,
    ensures
        after_failures(None, times, max_retry_count, lockout_minutes) == (if times.len() == 0 {
            None
        } else {
            Some(LoginAttempts { fail_count: times.len() as u32, locked_until: None })
        }),
        times.len() + 1 < max_retry_count ==> failure_outcome(after_failures(None, times, max_retry_count, lockout_minutes), max_retry_count, lockout_minutes, t)
            == (FailureOutcome {
                stored: LoginAttempts { fail_count: (times.len() + 1) as u32, locked_until: None },
                remaining: (max_retry_count - times.len() - 1) as u32,
                locked_secs: None,
            }),
        times.len() + 1 == max_retry_count ==> failure_outcome(after_failures(None, times, max_retry_count, lockout_minutes), max_retry_count, lockout_minutes, t)
            == (FailureOutcome {
                stored: LoginAttempts { fail_count: 0, locked_until: Some((t + lockout_minutes * 60) as i64) },
                remaining: 0,
                locked_secs: Some((lockout_minutes * 60) as u64),
            }),
    decreases times.len(),
{
    if times.len() > 0 {
        lemma_lockout_threshold(times.drop_last(), times.last(), max_retry_count, lockout_minutes);
    }
}

/// A locked account stays locked, with the remaining time counting down,
/// until the lock ends; from then on it is not locked.
pub proof fn lemma_lock_expires(row: LoginAttempts, until: i64, now: i64)
    requires
        row.locked_until == Some(until),
    ensures
        now < until ==> lock_remaining(Some(row), now) == Some((until - now) as u64),
        now >= until ==> lock_remaining(Some(row), now) is None,
{
}

/// The failure that locks an account leaves it locked for exactly the lock
/// length, and the next failure after the lock counts from one again.
pub proof fn lemma_lock_starts_full(row: Option<LoginAttempts>, max_retry_count: u32, lockout_minutes: u32, now: i64, later: i64)
    requires
        valid_now(now),
        lockout_minutes > 0,
        max_retry_count > 1,
        failure_outcome(row, max_retry_count, lockout_minutes, now).locked_secs is Some,
    ensures
        lock_remaining(Some(failure_outcome(row, max_retry_count, lockout_minutes, now).stored), now)
            == Some((lockout_minutes * 60) as u64),
        failure_outcome(Some(failure_outcome(row, max_retry_count, lockout_minutes, now).stored), max_retry_count, lockout_minutes, later).stored
            == (LoginAttempts { fail_count: 1, locked_until: None }),
{
}

/// After a successful login the account is neither locked nor counting failures.
pub proof fn lemma_reset_unlocks(max_retry_count: u32, lockout_minutes: u32, now: i64)
    requires
        max_retry_count > 1,
    ensures
        lock_remaining(None, now) is None,
        failure_outcome(None, max_retry_count, lockout_minutes, now)
            == (FailureOutcome {
                stored: LoginAttempts { fail_count: 1, locked_until: None },
                remaining: (max_retry_count - 1) as u32,
                locked_secs: None,
            }),
{
}


/// Only a lock end makes an account locked: a row without one (however many
/// failures it counts) and a missing row are never reported locked, and a
/// reported lock is the time left until the stored end. So while fewer than
/// `max_retry_count` failures were counted from a clean record, the account
/// is not locked.
pub proof fn lemma_only_a_lock_end_locks(r: LoginAttempts, now: i64, times: Seq<i64>, max_retry_count: u32, lockout_minutes: u32)
    ensures
        lock_remaining(None, now) is None,
        r.locked_until is None ==> lock_remaining(Some(r), now) is None,
        lock_remaining(Some(r), now) matches Some(s) ==> (r.locked_until matches Some(u) && u > now && s == u - now),
        times.len() < max_retry_count ==> lock_remaining(after_failures(None, times, max_retry_count, lockout_minutes), now) is None,
{
    if times.len() < max_retry_count {
        if times.len() > 0 {
            lemma_lockout_threshold(times.drop_last(), times.last(), max_retry_count, lockout_minutes);
        }
        lemma_lockout_threshold(times, now, max_retry_count, lockout_minutes);
    }
}

} // verus!
