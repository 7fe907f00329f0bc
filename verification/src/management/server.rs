//! The decisions of the management REST API: the policy changes that come
//! with adding or removing pairs, how service-control output is read, what
//! an account validation answers, and which embedded file a request gets.
//! The HTTP plumbing, the store and the Windows calls run outside.
use vstd::prelude::*;
use crate::text::{contains_text, trim, trim_str};
use crate::management::database::PolicyConfig;

verus! {

/// The service as the service manager knows it.
pub const SERVICE_NAME: &'static str = "WinSLA Service";

/// Audit entries listed when the query gives no limit.
pub fn default_limit() -> (n: u32)
    ensures
        n == 50,
{
    50
}

/// What adding a pair changes besides the pair itself.
#[derive(Debug, Clone, Copy, PartialEq, Eq, Structural)]
pub struct PairAddedPlan {
    /// The policy after the addition.
    pub policy: PolicyConfig,
    /// The policy has to be saved.
    pub save_policy: bool,
    /// The policy has to be written to the registry.
    pub write_registry: bool,
    /// This was the first pair, so the default tile was switched off.
    pub auto_disabled_default_tile: bool,
    pub has_emergency_accounts: bool,
    /// The administrator should be asked to configure an emergency account.
    pub should_configure_emergency: bool,
}

/// Adding the first pair switches the default logon tile off (so that the
/// dual-control tile is the way in); the administrator is then prompted for
/// an emergency account if there is none.
pub open spec fn pair_added_plan(existing_pairs: nat, policy: PolicyConfig, has_emergency_accounts: bool) -> PairAddedPlan {
    let first = existing_pairs == 0;
    let disable = first && policy.default_tile_enabled;
    let after = if disable { PolicyConfig { default_tile_enabled: false, ..policy } } else { policy };
    PairAddedPlan {
        policy: after,
        save_policy: disable,
        write_registry: first && !after.default_tile_enabled,
        auto_disabled_default_tile: first,
        has_emergency_accounts,
        should_configure_emergency: first && !has_emergency_accounts,
    }
}

/// The plan after a pair was added to `existing_pairs` pairs.
pub fn plan_pair_added(existing_pairs: usize, policy: PolicyConfig, has_emergency_accounts: bool) -> (p: PairAddedPlan)
    ensures
        p == pair_added_plan(existing_pairs as nat, policy, has_emergency_accounts),
{
    let first = existing_pairs == 0;
    let disable = first && policy.default_tile_enabled;
    let mut after = policy;
    if disable {
        after.default_tile_enabled = false;
    }
    PairAddedPlan {
        policy: after,
        save_policy: disable,
        write_registry: first && !after.default_tile_enabled,
        auto_disabled_default_tile: first,
        has_emergency_accounts,
        should_configure_emergency: first && !has_emergency_accounts,
    }
}

/// How many pairs remain once the pair `id` is deleted.
pub fn remaining_after_delete(pair_ids: &Vec<String>, id: &str) -> (n: usize)
    ensures
        n == pair_ids@.filter(|p: String| p@ != id@).len(),
{
    let mut n: usize = 0;
    let mut i: usize = 0;
    while i < pair_ids.len()
        invariant
            i <= pair_ids.len(),
            n == pair_ids@.take(i as int).filter(|p: String| p@ != id@).len(),
            n <= i,
        decreases pair_ids.len() - i,
    {
        proof {
            assert(pair_ids@.take(i + 1).drop_last() =~= pair_ids@.take(i as int));
            reveal(Seq::filter);
            assert(pair_ids@.take(i + 1).last() == pair_ids@[i as int]);
            pair_ids@.take(i as int).lemma_filter_len(|p: String| p@ != id@);
        }
        if !crate::text::same_text(pair_ids[i].as_str(), id) {
            n = n + 1;
        }
        i = i + 1;
    }
    proof {
        assert(pair_ids@.take(pair_ids.len() as int) =~= pair_ids@);
    }
    n
}

/// Removing the last pair switches the default logon tile back on, so the
/// machine never stays without a usable logon tile. Returns the policy to
/// save (and write to the registry), if anything changes.
pub fn plan_pair_deleted(remaining_pairs: usize, policy: PolicyConfig) -> (r: Option<PolicyConfig>)
    ensures
        remaining_pairs == 0 && !policy.default_tile_enabled ==> r == Some(PolicyConfig { default_tile_enabled: true, ..policy }),
        !(remaining_pairs == 0 && !policy.default_tile_enabled) ==> r is None,
{
    if remaining_pairs == 0 && !policy.default_tile_enabled {
        let mut after = policy;
        after.default_tile_enabled = true;
        Some(after)
    } else {
        None
    }
}

/// The default tile follows the pairs: the first pair switches it off, and
/// with the last pair gone it is on again.
pub proof fn lemma_default_tile_follows_pairs(policy: PolicyConfig, has_emergency_accounts: bool)
    ensures
        !pair_added_plan(0, policy, has_emergency_accounts).policy.default_tile_enabled,
        ({
            let after_delete = if !policy.default_tile_enabled {
                PolicyConfig { default_tile_enabled: true, ..policy }
            } else {
                policy
            };
            after_delete.default_tile_enabled
        }),
        pair_added_plan(0, policy, has_emergency_accounts).should_configure_emergency == !has_emergency_accounts,
{
}

/// The answer to a service-control action.
#[derive(Debug, Clone, PartialEq, Eq)]
pub struct ServiceActionResult {
    pub success: bool,
    pub message: String,
}

/// `net start`: success with its trimmed output; "already started" counts
/// as success too.
pub open spec fn start_result(r: Result<Seq<char>, Seq<char>>) -> (bool, Seq<char>) {
    match r {
        Ok(msg) => (true, trim(msg)),
        Err(msg) => if contains_text(msg, "已经启动"@) || contains_text(msg, "already been started"@) {
            (true, "服务已在运行中"@)
        } else {
            (false, msg)
        },
    }
}

/// `net stop`: success with its trimmed output; "not started" counts as
/// success too.
pub open spec fn stop_result(r: Result<Seq<char>, Seq<char>>) -> (bool, Seq<char>) {
    match r {
        Ok(msg) => (true, trim(msg)),
        Err(msg) => if contains_text(msg, "尚未启动"@) || contains_text(msg, "not been started"@) {
            (true, "服务未在运行"@)
        } else {
            (false, msg)
        },
    }
}

pub open spec fn text_result(r: Result<String, String>) -> Result<Seq<char>, Seq<char>> {
    match r {
        Ok(s) => Ok(s@),
        Err(s) => Err(s@),
    }
}

/// Reads the outcome of `net start`.
pub fn service_start_result(net: Result<String, String>) -> (a: ServiceActionResult)
    ensures
        (a.success, a.message@) == start_result(text_result(net)),
{
    match net {
        Ok(msg) => ServiceActionResult { success: true, message: trim_str(msg.as_str()) },
        Err(msg) => {
            if crate::text::contains_str(msg.as_str(), "已经启动") || crate::text::contains_str(msg.as_str(), "already been started") {
                ServiceActionResult { success: true, message: String::from_str("服务已在运行中") }
            } else {
                ServiceActionResult { success: false, message: msg }
            }
        },
    }
}

/// Reads the outcome of `net stop`.
pub fn service_stop_result(net: Result<String, String>) -> (a: ServiceActionResult)
    ensures
        (a.success, a.message@) == stop_result(text_result(net)),
{
    match net {
        Ok(msg) => ServiceActionResult { success: true, message: trim_str(msg.as_str()) },
        Err(msg) => {
            if crate::text::contains_str(msg.as_str(), "尚未启动") || crate::text::contains_str(msg.as_str(), "not been started") {
                ServiceActionResult { success: true, message: String::from_str("服务未在运行") }
            } else {
                ServiceActionResult { success: false, message: msg }
            }
        },
    }
}

/// Reads the outcome of the `net start` that follows the stop of a restart.
pub fn service_restart_result(net: Result<String, String>) -> (a: ServiceActionResult)
    ensures
        match net {
            Ok(msg) => a.success && a.message@ == "服务已重启\n"@ + trim(msg@),
            Err(msg) => !a.success && a.message@ == msg@,
        },
{
    match net {
        Ok(msg) => ServiceActionResult {
            success: true,
            message: String::from_str("服务已重启\n").concat(trim_str(msg.as_str()).as_str()),
        },
        Err(msg) => ServiceActionResult { success: false, message: msg },
    }
}

/// Whether `sc qc` reports an automatic start.
pub fn auto_start_from_query(sc: Result<String, String>) -> (b: bool)
    ensures
        b == (match sc {
            Ok(out) => contains_text(out@, "AUTO_START"@),
            Err(_) => false,
        }),
{
    match sc {
        Ok(out) => crate::text::contains_str(out.as_str(), "AUTO_START"),
        Err(_) => false,
    }
}

/// The `start=` argument of `sc config` for the wanted start type.
pub fn start_type_argument(auto_start: bool) -> (s: String)
    ensures
        s@ == (if auto_start { "start= auto"@ } else { "start= demand"@ }),
{
    if auto_start {
        String::from_str("start= auto")
    } else {
        String::from_str("start= demand")
    }
}

/// Reads the outcome of `sc config`.
pub fn service_config_result(auto_start: bool, sc: Result<String, String>) -> (a: ServiceActionResult)
    ensures
        match sc {
            Ok(_) => a.success && a.message@ == (if auto_start { "已设置为开机自动启动"@ } else { "已设置为手动启动"@ }),
            Err(msg) => !a.success && a.message@ == msg@,
        },
{
    match sc {
        Ok(_) => ServiceActionResult {
            success: true,
            message: if auto_start {
                String::from_str("已设置为开机自动启动")
            } else {
                String::from_str("已设置为手动启动")
            },
        },
        Err(msg) => ServiceActionResult { success: false, message: msg },
    }
}

/// How an account validation ended.
#[derive(Debug, Clone, PartialEq, Eq)]
pub enum ValidationOutcome {
    /// Validated: (SID, display name).
    Resolved(String, String),
    /// Refused, with the reason.
    Refused(String),
    /// The validation task failed.
    TaskFailed,
    /// No answer within 30 seconds.
    TimedOut,
}

/// The answer to an account validation.
#[derive(Debug, Clone, PartialEq, Eq)]
pub struct ValidateAccountResponse {
    pub success: bool,
    pub sid: String,
    pub display_name: String,
    pub message: String,
}

/// The answer for a validation outcome.
pub fn validation_response(outcome: ValidationOutcome) -> (r: ValidateAccountResponse)
    ensures
        match outcome {
            ValidationOutcome::Resolved(sid, name) => r.success && r.sid@ == sid@ && r.display_name@ == name@
                && r.message@ == "验证成功: "@ + name@,
            ValidationOutcome::Refused(msg) => !r.success && r.sid@.len() == 0 && r.display_name@.len() == 0
                && r.message@ == msg@,
            ValidationOutcome::TaskFailed => !r.success && r.sid@.len() == 0 && r.display_name@.len() == 0
                && r.message@ == "验证线程异常"@,
            ValidationOutcome::TimedOut => !r.success && r.sid@.len() == 0 && r.display_name@.len() == 0
                && r.message@ == "验证超时：无法连接域控制器（30秒）"@,
        },
{
    match outcome {
        ValidationOutcome::Resolved(sid, name) => {
            let message = String::from_str("验证成功: ").concat(name.as_str());
            ValidateAccountResponse { success: true, sid, display_name: name, message }
        },
        ValidationOutcome::Refused(msg) => ValidateAccountResponse {
            success: false,
            sid: String::new(),
            display_name: String::new(),
            message: msg,
        },
        ValidationOutcome::TaskFailed => ValidateAccountResponse {
            success: false,
            sid: String::new(),
            display_name: String::new(),
            message: String::from_str("验证线程异常"),
        },
        ValidationOutcome::TimedOut => ValidateAccountResponse {
            success: false,
            sid: String::new(),
            display_name: String::new(),
            message: String::from_str("验证超时：无法连接域控制器（30秒）"),
        },
    }
}

} // verus!
