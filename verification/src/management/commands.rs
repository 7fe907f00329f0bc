//! The management commands: service status, service control and the
//! pairing and audit queries that the front end calls.
use vstd::prelude::*;
use crate::text::{contains_text, rfc3339_text, uuid_v4_text};

verus! {

/// Service status information.
#[derive(Debug, Clone)]
pub struct ServiceStatus {
    pub running: bool,
    pub version: String,
    pub connections_accepted: u64,
    pub successful_auths: u64,
    pub failed_auths: u64,
}

/// A dual-account pair as the front end shows it.
#[derive(Debug, Clone)]
pub struct DualPair {
    pub id: String,
    /// Primary account SID.
    pub account_sid: String,
    /// Approver SID.
    pub approver_sid: String,
    pub account_username: String,
    pub approver_username: String,
    pub enabled: bool,
    pub created_at: String,
}

/// An audit log entry as the front end shows it.
#[derive(Debug, Clone)]
pub struct AuditEntry {
    pub id: u64,
    pub timestamp: String,
    pub user_a: String,
    pub user_b: String,
    pub result: String,
    pub error_message: Option<String>,
}

/// Whether `sc.exe query` output reports the service as running.
pub fn reports_running(sc_output: &str) -> (b: bool)
    ensures
        b == contains_text(sc_output@, "RUNNING"@),
{
    crate::text::contains_str(sc_output, "RUNNING")
}

/// Starts the service (acknowledged; the service manager does the work).
pub fn start_service() -> (r: Result<bool, String>)
    ensures
        r == Ok::<bool, String>(true),
{
    Ok(true)
}

/// Stops the service (acknowledged; the service manager does the work).
pub fn stop_service() -> (r: Result<bool, String>)
    ensures
        r == Ok::<bool, String>(true),
{
    Ok(true)
}

/// The configured dual-account pairs (none held here; the store lists them).
pub fn get_dual_pairs() -> (r: Result<Vec<DualPair>, String>)
    ensures
        r matches Ok(v) && v@.len() == 0,
{
    Ok(Vec::new())
}

/// A fresh identifier: `uuid::Uuid::new_v4().to_string()`, the hyphenated
/// lower-case text of a random version-4 UUID. Which one is left open.
#[verifier::external_body]
fn new_pair_id() -> (id: String)
    ensures
        uuid_v4_text(id@),
{
    uuid::Uuid::new_v4().to_string()
}

/// The current local time, `chrono::Local::now().to_rfc3339()`: RFC 3339
/// text with the local offset. Which time is left open.
#[verifier::external_body]
fn local_now_rfc3339() -> (t: String)
    ensures
        rfc3339_text(t@),
{
    chrono::Local::now().to_rfc3339()
}

/// A new, enabled pair of the two accounts, with a fresh id and the
/// current local time, and no usernames yet.
pub fn add_dual_pair(account_sid: &str, approver_sid: &str) -> (r: Result<DualPair, String>)
    ensures
        r matches Ok(p) && p.account_sid@ == account_sid@ && p.approver_sid@ == approver_sid@
            && p.account_username@ == Seq::<char>::empty() && p.approver_username@ == Seq::<char>::empty() && p.enabled
            && uuid_v4_text(p.id@) && rfc3339_text(p.created_at@),
{
    let pair = DualPair {
        id: new_pair_id(),
        account_sid: String::from_str(account_sid),
        approver_sid: String::from_str(approver_sid),
        account_username: String::new(),
        approver_username: String::new(),
        enabled: true,
        created_at: local_now_rfc3339(),
    };
    Ok(pair)
}

/// Removes a pair (acknowledged; the store does the work).
pub fn remove_dual_pair(pair_id: &str) -> (r: Result<bool, String>)
    ensures
        r == Ok::<bool, String>(true),
{
    Ok(true)
}

/// The audit log (none held here; the store lists it).
pub fn get_audit_log(limit: u32) -> (r: Result<Vec<AuditEntry>, String>)
    ensures
        r matches Ok(v) && v@.len() == 0,
{
    Ok(Vec::new())
}

} // verus!
