//! Request handling of the service: what each authentication request is
//! answered and what it records, as state machines that the pipe server
//! drives (it performs the database and logon work each step asks for).
use vstd::prelude::*;
use crate::text::{contains_str, contains_text, decimal, u32_to_decimal, u64_to_decimal};
use crate::cp_provider::com_types::{AuthResponse, AuthResponseView};
use crate::win_service::auth::{AuthError, AuthErrorView, auth_error_text};
use crate::win_service::audit::FailureOutcome;

verus! {

/// `msg（剩余尝试次数：remaining）`
pub open spec fn attempts_hint(msg: Seq<char>, remaining: u32) -> Seq<char> {
    msg + "（剩余尝试次数："@ + decimal(remaining as nat) + "）"@
}

pub fn with_attempts_hint(msg: String, remaining: u32) -> (s: String)
    ensures
        s@ == attempts_hint(msg@, remaining),
{
    let r = u32_to_decimal(remaining);
    msg.concat("（剩余尝试次数：").concat(r.as_str()).concat("）")
}

/// The answer to a failed attempt once the failure has been counted:
/// `Locked` when this failure locked the account, otherwise the failure with
/// a remaining-attempts hint on the credential messages.
pub open spec fn failure_response(outcome: Option<(u32, Option<u64>)>, base: AuthResponseView) -> AuthResponseView {
    match outcome {
        None => base,
        Some((remaining, locked)) => match locked {
            Some(secs) => AuthResponseView::Locked { remaining_secs: secs },
            None => match base {
                AuthResponseView::FailUserA(m) => AuthResponseView::FailUserA(attempts_hint(m, remaining)),
                AuthResponseView::FailUserB(m) => AuthResponseView::FailUserB(attempts_hint(m, remaining)),
                AuthResponseView::BothFailed(a, b) => AuthResponseView::BothFailed(attempts_hint(a, remaining), b),
                other => other,
            },
        },
    }
}

/// Builds the final answer to a failed dual-auth attempt from the counted
/// failure (`None` when the shared database is unavailable).
pub fn record_failure_and_build_response(outcome: Option<FailureOutcome>, base: AuthResponse) -> (r: AuthResponse)
    ensures
        r@ == failure_response(
            match outcome { Some(o) => Some((o.remaining, o.locked_secs)), None => None },
            base@,
        ),
{
    let o = match outcome {
        None => {
            return base;
        },
        Some(o) => o,
    };
    if let Some(secs) = o.locked_secs {
        return AuthResponse::Locked { remaining_secs: secs };
    }
    match base {
        AuthResponse::FailUserA(msg) => AuthResponse::FailUserA(with_attempts_hint(msg, o.remaining)),
        AuthResponse::FailUserB(msg) => AuthResponse::FailUserB(with_attempts_hint(msg, o.remaining)),
        AuthResponse::BothFailed(a, b) => AuthResponse::BothFailed(with_attempts_hint(a, o.remaining), b),
        other => other,
    }
}

/// The audit record of an answer: result tag and error message.
pub open spec fn describe(r: AuthResponseView) -> (Seq<char>, Option<Seq<char>>) {
    match r {
        AuthResponseView::Success { .. } => ("success"@, None),
        AuthResponseView::FailUserA(m) => ("fail_user_a"@, Some(m)),
        AuthResponseView::FailUserB(m) => ("fail_user_b"@, Some(m)),
        AuthResponseView::BothFailed(a, b) => ("fail_both"@, Some(a + "; "@ + b)),
        AuthResponseView::Locked { remaining_secs } =>
            ("locked"@, Some("账号已锁定，剩余 "@ + decimal(remaining_secs as nat) + " 秒"@)),
        AuthResponseView::EmergencyDenied(m) =>
            if contains_text(m, "已被策略禁用"@) || contains_text(m, "已被管理员禁用"@) {
                ("emergency_denied_policy"@, Some(m))
            } else if contains_text(m, "未被授权"@) {
                ("emergency_denied_unauthorized"@, Some(m))
            } else {
                ("emergency_denied"@, Some(m))
            },
        AuthResponseView::PasswordExpired(u) => ("password_expired"@, Some("密码已过期："@ + u)),
        AuthResponseView::NetworkUnavailable => ("network_unavailable"@, Some("Network unavailable"@)),
        AuthResponseView::Timeout => ("timeout"@, Some("Authentication timeout"@)),
    }
}

/// Map a response to (audit_result_str, error_message)
pub fn describe_response(response: &AuthResponse) -> (r: (&'static str, Option<String>))
    ensures
        r.0@ == describe(response@).0,
        match r.1 {
            Some(m) => describe(response@).1 == Some(m@),
            None => describe(response@).1 is None,
        },
{
    match response {
        AuthResponse::Success { .. } => ("success", None),
        AuthResponse::FailUserA(msg) => ("fail_user_a", Some(msg.clone())),
        AuthResponse::FailUserB(msg) => ("fail_user_b", Some(msg.clone())),
        AuthResponse::BothFailed(a, b) => ("fail_both", Some(a.clone().concat("; ").concat(b.as_str()))),
        AuthResponse::Locked { remaining_secs } => {
            let n = u64_to_decimal(*remaining_secs);
            ("locked", Some(String::from_str("账号已锁定，剩余 ").concat(n.as_str()).concat(" 秒")))
        },
        AuthResponse::EmergencyDenied(reason) => {
            if contains_str(reason.as_str(), "已被策略禁用") || contains_str(reason.as_str(), "已被管理员禁用") {
                ("emergency_denied_policy", Some(reason.clone()))
            } else if contains_str(reason.as_str(), "未被授权") {
                ("emergency_denied_unauthorized", Some(reason.clone()))
            } else {
                ("emergency_denied", Some(reason.clone()))
            }
        },
        AuthResponse::PasswordExpired(username) => {
            ("password_expired", Some(String::from_str("密码已过期：").concat(username.as_str())))
        },
        AuthResponse::NetworkUnavailable => ("network_unavailable", Some(String::from_str("Network unavailable"))),
        AuthResponse::Timeout => ("timeout", Some(String::from_str("Authentication timeout"))),
    }
}

} // verus!

verus! {

// ─── Dual-control login ───────────────────────────────────────────

/// Where a dual-control request stands.
#[derive(Debug, Clone, Copy, PartialEq, Eq, Structural)]
pub enum DualStage {
    /// Waiting for the shared database to be opened and the lock read.
    Start,
    /// Waiting for the pairing-rule check.
    AwaitPairing,
    /// Waiting for both credentials to be verified.
    AwaitVerification,
    /// Waiting for the failed attempt to be counted.
    AwaitFailureRecord,
    /// Answered.
    Finished,
}

/// What the pipe server reports to the dual-control flow.
#[derive(Debug)]
pub enum DualEvent {
    /// The shared database was opened (or not) and, if open, the lock of the
    /// primary account was read.
    Opened { db_available: bool, lock_remaining: Option<u64> },
    /// Result of `check_pairing_rule`.
    PairingChecked(Result<(), AuthError>),
    /// Result of verifying both accounts (user A's canonical name on success).
    Verified(Result<String, AuthError>),
    /// The failure was counted: attempts left and, if it locked, lock seconds.
    FailureRecorded { remaining: u32, locked_secs: Option<u64> },
}

/// What the dual-control flow asks the pipe server to do.
#[derive(Debug, Clone)]
pub enum DualAction {
    /// Write an audit record (account, approver and logon source are the request's).
    Audit { result: String, error: Option<String> },
    /// Check the pairing rule; report `PairingChecked`.
    CheckPairing,
    /// Verify both accounts; report `Verified`.
    VerifyCredentials,
    /// Count a failed attempt of the primary account; report `FailureRecorded`.
    RecordFailure,
    /// Clear the primary account's failure counter.
    ResetFailures,
    /// Send this answer to the credential provider.
    Reply(AuthResponse),
}

pub enum DualEventView {
    Opened { db_available: bool, lock_remaining: Option<u64> },
    PairingChecked(Result<(), AuthErrorView>),
    Verified(Result<Seq<char>, AuthErrorView>),
    FailureRecorded { remaining: u32, locked_secs: Option<u64> },
}

pub enum DualActionView {
    Audit { result: Seq<char>, error: Option<Seq<char>> },
    CheckPairing,
    VerifyCredentials,
    RecordFailure,
    ResetFailures,
    Reply(AuthResponseView),
}

pub open spec fn opt_text(o: Option<String>) -> Option<Seq<char>> {
    match o {
        Some(s) => Some(s@),
        None => None,
    }
}

impl View for DualEvent {
    type V = DualEventView;

    open spec fn view(&self) -> DualEventView {
        match self {
            DualEvent::Opened { db_available, lock_remaining } => DualEventView::Opened { db_available: *db_available, lock_remaining: *lock_remaining },
            DualEvent::PairingChecked(r) => DualEventView::PairingChecked(match r { Ok(()) => Ok(()), Err(e) => Err(e@) }),
            DualEvent::Verified(r) => DualEventView::Verified(match r { Ok(c) => Ok(c@), Err(e) => Err(e@) }),
            DualEvent::FailureRecorded { remaining, locked_secs } => DualEventView::FailureRecorded { remaining: *remaining, locked_secs: *locked_secs },
        }
    }
}

impl View for DualAction {
    type V = DualActionView;

    open spec fn view(&self) -> DualActionView {
        match self {
            DualAction::Audit { result, error } => DualActionView::Audit { result: result@, error: opt_text(*error) },
            DualAction::CheckPairing => DualActionView::CheckPairing,
            DualAction::VerifyCredentials => DualActionView::VerifyCredentials,
            DualAction::RecordFailure => DualActionView::RecordFailure,
            DualAction::ResetFailures => DualActionView::ResetFailures,
            DualAction::Reply(r) => DualActionView::Reply(r@),
        }
    }
}

/// The state of one dual-control request.
#[derive(Debug, Clone)]
pub struct DualAuthFlow {
    pub stage: DualStage,
    pub db_available: bool,
    /// The failure answer waiting for its attempt to be counted.
    pub pending: Option<AuthResponse>,
    /// Whether the final answer is audited once the failure is counted.
    pub audit_after: bool,
}

pub struct DualFlowView {
    pub stage: DualStage,
    pub db_available: bool,
    pub pending: Option<AuthResponseView>,
    pub audit_after: bool,
}

impl View for DualAuthFlow {
    type V = DualFlowView;

    open spec fn view(&self) -> DualFlowView {
        DualFlowView {
            stage: self.stage,
            db_available: self.db_available,
            pending: match self.pending { Some(r) => Some(r@), None => None },
            audit_after: self.audit_after,
        }
    }
}

pub open spec fn dual_start() -> DualFlowView {
    DualFlowView { stage: DualStage::Start, db_available: false, pending: None, audit_after: false }
}

pub open spec fn finished(f: DualFlowView) -> DualFlowView {
    DualFlowView { stage: DualStage::Finished, pending: None, audit_after: false, ..f }
}

/// The answer that a failed verification starts from.
pub open spec fn verification_failure(e: AuthErrorView) -> AuthResponseView {
    match e {
        AuthErrorView::InvalidCredentials(m) => AuthResponseView::FailUserA(m),
        AuthErrorView::BothFailed(a, b) => AuthResponseView::BothFailed(a, b),
        AuthErrorView::NetworkUnavailable => AuthResponseView::NetworkUnavailable,
        AuthErrorView::Timeout => AuthResponseView::Timeout,
        other => AuthResponseView::FailUserA(auth_error_view_text(other)),
    }
}

pub open spec fn auth_error_view_text(e: AuthErrorView) -> Seq<char> {
    match e {
        AuthErrorView::LdapConnection(m) => "LDAP connection failed: "@ + m,
        AuthErrorView::SspiFailure(m) => "SSPI authentication failed: "@ + m,
        AuthErrorView::NetworkUnavailable => "Network unavailable: DC unreachable"@,
        AuthErrorView::InvalidCredentials(m) => "Invalid credentials for user: "@ + m,
        AuthErrorView::Timeout => "Timeout waiting for response"@,
        AuthErrorView::CommunicationError(m) => "Service communication error: "@ + m,
        AuthErrorView::BothFailed(a, b) => "Both users failed: "@ + a + " and "@ + b,
        AuthErrorView::ServiceError(m) => "Internal service error: "@ + m,
        AuthErrorView::PasswordExpired(m) => "PASSWORD_EXPIRED: "@ + m,
    }
}

/// The audit record of an answer, as an action.
pub open spec fn audit_of(r: AuthResponseView) -> DualActionView {
    DualActionView::Audit { result: describe(r).0, error: describe(r).1 }
}

/// One step of a dual-control request: the next state and what to do.
pub open spec fn dual_next(f: DualFlowView, e: DualEventView) -> (DualFlowView, Seq<DualActionView>) {
    match (f.stage, e) {
        (DualStage::Start, DualEventView::Opened { db_available, lock_remaining }) => {
            let g = DualFlowView { db_available, ..f };
            if db_available && lock_remaining is Some {
                (finished(g), seq![
                    DualActionView::Audit { result: "locked_attempt"@, error: Some("账号处于锁定期，本次尝试被拒绝"@) },
                    DualActionView::Reply(AuthResponseView::Locked { remaining_secs: lock_remaining->0 }),
                ])
            } else {
                (DualFlowView { stage: DualStage::AwaitPairing, ..g }, seq![DualActionView::CheckPairing])
            }
        },
        (DualStage::AwaitPairing, DualEventView::PairingChecked(r)) => match r {
            Ok(()) => (DualFlowView { stage: DualStage::AwaitVerification, ..f }, seq![DualActionView::VerifyCredentials]),
            Err(AuthErrorView::InvalidCredentials(msg)) => if f.db_available {
                (DualFlowView { stage: DualStage::AwaitFailureRecord, pending: Some(AuthResponseView::FailUserA(msg)), audit_after: false, ..f }, seq![
                    DualActionView::Audit { result: "pairing_violation"@, error: Some(msg) },
                    DualActionView::RecordFailure,
                ])
            } else {
                (finished(f), seq![DualActionView::Reply(AuthResponseView::FailUserA(msg))])
            },
            Err(_) => (finished(f), seq![DualActionView::Reply(AuthResponseView::NetworkUnavailable)]),
        },
        (DualStage::AwaitVerification, DualEventView::Verified(r)) => match r {
            Ok(canonical) => {
                let resp = AuthResponseView::Success { canonical_username: canonical };
                if f.db_available {
                    (finished(f), seq![DualActionView::ResetFailures, audit_of(resp), DualActionView::Reply(resp)])
                } else {
                    (finished(f), seq![DualActionView::Reply(resp)])
                }
            },
            Err(AuthErrorView::PasswordExpired(u)) => {
                let resp = AuthResponseView::PasswordExpired(u);
                if f.db_available {
                    (finished(f), seq![
                        DualActionView::Audit { result: "password_expired"@, error: Some("密码已过期，需要通过 Windows 原生对话框修改密码"@) },
                        DualActionView::Reply(resp),
                    ])
                } else {
                    (finished(f), seq![DualActionView::Reply(resp)])
                }
            },
            Err(err) => {
                let base = verification_failure(err);
                if f.db_available {
                    (DualFlowView { stage: DualStage::AwaitFailureRecord, pending: Some(base), audit_after: true, ..f }, seq![DualActionView::RecordFailure])
                } else {
                    (finished(f), seq![DualActionView::Reply(base)])
                }
            },
        },
        (DualStage::AwaitFailureRecord, DualEventView::FailureRecorded { remaining, locked_secs }) => {
            let base = match f.pending { Some(b) => b, None => AuthResponseView::NetworkUnavailable };
            let resp = failure_response(Some((remaining, locked_secs)), base);
            if f.audit_after {
                (finished(f), seq![audit_of(resp), DualActionView::Reply(resp)])
            } else {
                (finished(f), seq![DualActionView::Reply(resp)])
            }
        },
        _ => (f, seq![]),
    }
}

pub open spec fn actions_view(v: Seq<DualAction>) -> Seq<DualActionView> {
    v.map_values(|a: DualAction| a@)
}

fn audit_action(resp: &AuthResponse) -> (a: DualAction)
    ensures
        a@ == audit_of(resp@),
{
    let (result, error) = describe_response(resp);
    DualAction::Audit { result: String::from_str(result), error }
}

fn failure_base(e: AuthError) -> (r: AuthResponse)
    requires
        !(e is PasswordExpired),
    ensures
        r@ == verification_failure(e@),
{
    match e {
        AuthError::InvalidCredentials(msg) => AuthResponse::FailUserA(msg),
        AuthError::BothFailed(a, b) => AuthResponse::BothFailed(a, b),
        AuthError::NetworkUnavailable => AuthResponse::NetworkUnavailable,
        AuthError::Timeout => AuthResponse::Timeout,
        other => AuthResponse::FailUserA(other.message()),
    }
}

impl DualAuthFlow {
    pub fn new() -> (f: DualAuthFlow)
        ensures
            f@ == dual_start(),
    {
        DualAuthFlow { stage: DualStage::Start, db_available: false, pending: None, audit_after: false }
    }

    fn finish(&mut self)
        ensures
            final(self)@ == finished(old(self)@),
    {
        self.stage = DualStage::Finished;
        self.pending = None;
        self.audit_after = false;
    }

    /// Advances the request by one event and returns what to do next.
    pub fn step(&mut self, event: DualEvent) -> (actions: Vec<DualAction>)
        ensures
            (final(self)@, actions_view(actions@)) == dual_next(old(self)@, event@),
    {
        let mut out: Vec<DualAction> = Vec::new();
        match (self.stage, event) {
            (DualStage::Start, DualEvent::Opened { db_available, lock_remaining }) => {
                self.db_available = db_available;
                if db_available && lock_remaining.is_some() {
                    let secs = lock_remaining.unwrap();
                    self.finish();
                    out.push(DualAction::Audit {
                        result: String::from_str("locked_attempt"),
                        error: Some(String::from_str("账号处于锁定期，本次尝试被拒绝")),
                    });
                    out.push(DualAction::Reply(AuthResponse::Locked { remaining_secs: secs }));
                } else {
                    self.stage = DualStage::AwaitPairing;
                    out.push(DualAction::CheckPairing);
                }
            },
            (DualStage::AwaitPairing, DualEvent::PairingChecked(r)) => {
                match r {
                    Ok(()) => {
                        self.stage = DualStage::AwaitVerification;
                        out.push(DualAction::VerifyCredentials);
                    },
                    Err(AuthError::InvalidCredentials(msg)) => {
                        if self.db_available {
                            self.stage = DualStage::AwaitFailureRecord;
                            self.pending = Some(AuthResponse::FailUserA(msg.clone()));
                            self.audit_after = false;
                            out.push(DualAction::Audit { result: String::from_str("pairing_violation"), error: Some(msg) });
                            out.push(DualAction::RecordFailure);
                        } else {
                            self.finish();
                            out.push(DualAction::Reply(AuthResponse::FailUserA(msg)));
                        }
                    },
                    Err(_) => {
                        self.finish();
                        out.push(DualAction::Reply(AuthResponse::NetworkUnavailable));
                    },
                }
            },
            (DualStage::AwaitVerification, DualEvent::Verified(r)) => {
                match r {
                    Ok(canonical) => {
                        let resp = AuthResponse::Success { canonical_username: canonical };
                        self.finish();
                        if self.db_available {
                            out.push(DualAction::ResetFailures);
                            out.push(audit_action(&resp));
                        }
                        out.push(DualAction::Reply(resp));
                    },
                    Err(AuthError::PasswordExpired(u)) => {
                        self.finish();
                        if self.db_available {
                            out.push(DualAction::Audit {
                                result: String::from_str("password_expired"),
                                error: Some(String::from_str("密码已过期，需要通过 Windows 原生对话框修改密码")),
                            });
                        }
                        out.push(DualAction::Reply(AuthResponse::PasswordExpired(u)));
                    },
                    Err(err) => {
                        let base = failure_base(err);
                        if self.db_available {
                            self.stage = DualStage::AwaitFailureRecord;
                            self.pending = Some(base);
                            self.audit_after = true;
                            out.push(DualAction::RecordFailure);
                        } else {
                            self.finish();
                            out.push(DualAction::Reply(base));
                        }
                    },
                }
            },
            (DualStage::AwaitFailureRecord, DualEvent::FailureRecorded { remaining, locked_secs }) => {
                let base = match self.pending.take() {
                    Some(b) => b,
                    None => AuthResponse::NetworkUnavailable,
                };
                let resp = record_failure_and_build_response(
                    Some(FailureOutcome { stored: crate::win_service::audit::LoginAttempts { fail_count: 0, locked_until: None }, remaining, locked_secs }),
                    base,
                );
                let audit = self.audit_after;
                self.finish();
                if audit {
                    out.push(audit_action(&resp));
                }
                out.push(DualAction::Reply(resp));
            },
            _ => {},
        }
        proof {
            assert(actions_view(out@) =~= dual_next(old(self)@, event@).1);
        }
        out
    }
}

} // verus!

verus! {

/// The state and all actions after a dual-control request saw `events`.
pub open spec fn dual_run(events: Seq<DualEventView>) -> (DualFlowView, Seq<DualActionView>)
    decreases events.len(),
{
    if events.len() == 0 {
        (dual_start(), seq![])
    } else {
        let (f, acts) = dual_run(events.drop_last());
        let (g, more) = dual_next(f, events.last());
        (g, acts + more)
    }
}

pub open spec fn is_reply(a: DualActionView) -> bool {
    a is Reply
}

/// Number of answers among `acts`.
pub open spec fn replies(acts: Seq<DualActionView>) -> nat
    decreases acts.len(),
{
    if acts.len() == 0 {
        0
    } else {
        replies(acts.drop_last()) + if is_reply(acts.last()) { 1nat } else { 0nat }
    }
}

proof fn lemma_replies_append(a: Seq<DualActionView>, b: Seq<DualActionView>)
    ensures
        replies(a + b) == replies(a) + replies(b),
    decreases b.len(),
{
    if b.len() == 0 {
        assert(a + b =~= a);
    } else {
        assert((a + b).drop_last() =~= a + b.drop_last());
        lemma_replies_append(a, b.drop_last());
    }
}

/// The request was opened and the primary account was not found locked.
pub open spec fn opened_unlocked(events: Seq<DualEventView>) -> bool {
    exists|i: int|
        0 <= i < events.len() && (#[trigger] events[i] matches DualEventView::Opened { db_available, lock_remaining }
            && !(db_available && lock_remaining is Some))
}

pub open spec fn pairing_passed(events: Seq<DualEventView>) -> bool {
    exists|i: int| 0 <= i < events.len() && (#[trigger] events[i] matches DualEventView::PairingChecked(r) && r is Ok)
}

pub open spec fn verified_as(events: Seq<DualEventView>, c: Seq<char>) -> bool {
    exists|i: int| 0 <= i < events.len() && #[trigger] events[i] == DualEventView::Verified(Ok(c))
}

pub open spec fn replied_success(acts: Seq<DualActionView>, c: Seq<char>) -> bool {
    acts.contains(DualActionView::Reply(AuthResponseView::Success { canonical_username: c }))
}

#[verifier::spinoff_prover]
#[verifier::rlimit(40)]
proof fn lemma_dual_run_invariant(events: Seq<DualEventView>)
    ensures
        ({
            let (f, acts) = dual_run(events);
            &&& replies(acts) == (if f.stage == DualStage::Finished { 1nat } else { 0nat })
            &&& (f.stage == DualStage::AwaitPairing || f.stage == DualStage::AwaitVerification) ==> opened_unlocked(events)
            &&& f.stage == DualStage::AwaitVerification ==> pairing_passed(events)
            &&& (f.pending matches Some(p) ==> !(p is Success))
            &&& forall|c: Seq<char>| #[trigger] replied_success(acts, c) ==> opened_unlocked(events) && pairing_passed(events) && verified_as(events, c)
        }),
    decreases events.len(),
{
    if events.len() > 0 {
        let prev = events.drop_last();
        let e = events.last();
        lemma_dual_run_invariant(prev);
        let (f, acts) = dual_run(prev);
        let (g, more) = dual_next(f, e);
        lemma_replies_append(acts, more);
        let n = events.len() - 1;
        assert(events[n] == e);
        assert forall|i: int| 0 <= i < prev.len() implies events[i] == prev[i] by {}
        if opened_unlocked(prev) {
            let i = choose|i: int| 0 <= i < prev.len() && (#[trigger] prev[i] matches DualEventView::Opened { db_available, lock_remaining }
                && !(db_available && lock_remaining is Some));
            assert(events[i] == prev[i]);
        }
        if pairing_passed(prev) {
            let i = choose|i: int| 0 <= i < prev.len() && (#[trigger] prev[i] matches DualEventView::PairingChecked(r) && r is Ok);
            assert(events[i] == prev[i]);
            assert(pairing_passed(events));
        }
        if e matches DualEventView::PairingChecked(r) && r is Ok {
            assert(events[n] == e);
            assert(pairing_passed(events));
        }
        if opened_unlocked(prev) {
            assert(opened_unlocked(events));
        }
        if e matches DualEventView::Opened { db_available, lock_remaining } && !(db_available && lock_remaining is Some) {
            assert(opened_unlocked(events));
        }
        assert forall|c: Seq<char>| #[trigger] replied_success(acts + more, c) implies opened_unlocked(events) && pairing_passed(events) && verified_as(events, c) by {
            if replied_success(acts, c) {
                let i = choose|i: int| 0 <= i < prev.len() && #[trigger] prev[i] == DualEventView::Verified(Ok(c));
                assert(events[i] == prev[i]);
            } else {
                let k = choose|k: int| 0 <= k < (acts + more).len() && (acts + more)[k] == DualActionView::Reply(AuthResponseView::Success { canonical_username: c });
                assert(k >= acts.len());
                assert(more.contains(DualActionView::Reply(AuthResponseView::Success { canonical_username: c }))) by {
                    assert(more[k - acts.len()] == (acts + more)[k]);
                }
                if e is FailureRecorded {
                    let base = match f.pending { Some(b) => b, None => AuthResponseView::NetworkUnavailable };
                    assert(!(base is Success));
                }
                assert(e == DualEventView::Verified(Ok(c)));
            }
        }
        // replies count
        match (f.stage, e) {
            (DualStage::Start, DualEventView::Opened { .. }) => {
                reveal_with_fuel(replies, 3);
            },
            (DualStage::AwaitPairing, DualEventView::PairingChecked(_)) => {
                reveal_with_fuel(replies, 3);
            },
            (DualStage::AwaitVerification, DualEventView::Verified(_)) => {
                reveal_with_fuel(replies, 4);
            },
            (DualStage::AwaitFailureRecord, DualEventView::FailureRecorded { .. }) => {
                reveal_with_fuel(replies, 3);
            },
            _ => {
                assert(more =~= Seq::<DualActionView>::empty());
            },
        }
    }
}

/// Two-person rule: the service answers a dual-control request with success
/// (and the logon name `c`) only after the primary account was found not
/// locked, the pairing rule accepted the account and approver, and both
/// credentials were verified with `c` as the canonical name. It answers
/// each request at most once.
pub proof fn lemma_dual_success_requires_both(events: Seq<DualEventView>, c: Seq<char>)
    ensures
        replied_success(dual_run(events).1, c) ==> opened_unlocked(events) && pairing_passed(events) && verified_as(events, c),
        replies(dual_run(events).1) <= 1,
{
    lemma_dual_run_invariant(events);
}

/// A locked account is answered `Locked` with its remaining time, the
/// attempt is audited, and nothing else happens: its credentials are never
/// verified, whatever else is reported.
pub proof fn lemma_locked_account_rejected(secs: u64, rest: Seq<DualEventView>)
    ensures
        dual_run(seq![DualEventView::Opened { db_available: true, lock_remaining: Some(secs) }] + rest).1 == seq![
            DualActionView::Audit { result: "locked_attempt"@, error: Some("账号处于锁定期，本次尝试被拒绝"@) },
            DualActionView::Reply(AuthResponseView::Locked { remaining_secs: secs }),
        ],
    decreases rest.len(),
{
    let first = seq![DualEventView::Opened { db_available: true, lock_remaining: Some(secs) }];
    if rest.len() == 0 {
        assert(first + rest =~= first);
        assert(first.drop_last() =~= Seq::<DualEventView>::empty());
        assert(dual_run(first.drop_last()) == (dual_start(), Seq::<DualActionView>::empty()));
        assert(first.last() == first[0]);
        assert(Seq::<DualActionView>::empty() + dual_next(dual_start(), first[0]).1 =~= dual_next(dual_start(), first[0]).1);
    } else {
        let evs = first + rest;
        lemma_locked_account_rejected(secs, rest.drop_last());
        assert(evs.drop_last() =~= first + rest.drop_last());
        assert((first + rest.drop_last())[0] == first[0]);
        lemma_finished_stays(first + rest.drop_last());
        assert(evs.last() == rest.last());
        let (f, acts) = dual_run(evs.drop_last());
        assert(dual_next(f, evs.last()).1 =~= Seq::<DualActionView>::empty());
        assert(acts + Seq::<DualActionView>::empty() =~= acts);
    }
}

proof fn lemma_finished_stays(events: Seq<DualEventView>)
    requires
        events.len() > 0,
        events[0] matches DualEventView::Opened { db_available, lock_remaining } && db_available && lock_remaining is Some,
    ensures
        dual_run(events).0.stage == DualStage::Finished,
    decreases events.len(),
{
    if events.len() > 1 {
        assert(events.drop_last()[0] == events[0]);
        lemma_finished_stays(events.drop_last());
    } else {
        assert(events.drop_last() =~= Seq::<DualEventView>::empty());
        assert(dual_run(events.drop_last()).0 == dual_start());
        assert(events.last() == events[0]);
    }
}


/// Failed verifications are counted: with the shared database available, a
/// verification that fails for any reason but an expired password asks for
/// the failure to be recorded, and nothing else, before any answer.
pub proof fn lemma_dual_failure_is_counted(f: DualFlowView, e: AuthErrorView)
    requires
        f.stage == DualStage::AwaitVerification,
        f.db_available,
        !(e is PasswordExpired),
    ensures
        dual_next(f, DualEventView::Verified(Err(e))).1 == seq![DualActionView::RecordFailure],
        dual_next(f, DualEventView::Verified(Err(e))).0.stage == DualStage::AwaitFailureRecord,
{
}

/// A refusal by the pairing rule counts as a failed attempt too: with the
/// shared database available it is audited and recorded, and not yet answered.
pub proof fn lemma_dual_pairing_refusal_is_counted(f: DualFlowView, msg: Seq<char>)
    requires
        f.stage == DualStage::AwaitPairing,
        f.db_available,
    ensures
        ({
            let (g, acts) = dual_next(f, DualEventView::PairingChecked(Err(AuthErrorView::InvalidCredentials(msg))));
            &&& g.stage == DualStage::AwaitFailureRecord
            &&& acts.len() == 2
            &&& acts[1] == DualActionView::RecordFailure
            &&& !(acts[0] is Reply)
        }),
{
}

/// A counted failure that locked the account is answered `Locked` with the
/// lock's length, as the last action and the only answer.
pub proof fn lemma_dual_lock_reported(f: DualFlowView, remaining: u32, secs: u64)
    requires
        f.stage == DualStage::AwaitFailureRecord,
    ensures
        ({
            let acts = dual_next(f, DualEventView::FailureRecorded { remaining, locked_secs: Some(secs) }).1;
            &&& acts.len() > 0
            &&& acts.last() == DualActionView::Reply(AuthResponseView::Locked { remaining_secs: secs })
            &&& forall|k: int| 0 <= k < acts.len() - 1 ==> !(#[trigger] acts[k] is Reply)
        }),
{
}

/// Lock-out over whole requests: from a clean record, after
/// `max_retry_count - 1` counted failures, the next request whose
/// verification fails (not for an expired password) is counted, and the
/// count, recorded as the policy says, locks the account: the request is
/// answered `Locked` for `lockout_minutes` minutes.
pub proof fn lemma_dual_lockout_after_max_failures(
    e: AuthErrorView,
    times: Seq<i64>,
    t: i64,
    max_retry_count: u32,
    lockout_minutes: u32,
)
    requires
        !(e is PasswordExpired),
        times.len() + 1 == max_retry_count,
    ensures
        ({
            let o = crate::win_service::audit::failure_outcome(
                crate::win_service::audit::after_failures(None, times, max_retry_count, lockout_minutes),
                max_retry_count,
                lockout_minutes,
                t,
            );
            let events = seq![
                DualEventView::Opened { db_available: true, lock_remaining: None },
                DualEventView::PairingChecked(Ok(())),
                DualEventView::Verified(Err(e)),
                DualEventView::FailureRecorded { remaining: o.remaining, locked_secs: o.locked_secs },
            ];
            let acts = dual_run(events).1;
            &&& acts.len() == 5
            &&& acts[2] == DualActionView::RecordFailure
            &&& acts[4] == DualActionView::Reply(AuthResponseView::Locked { remaining_secs: (lockout_minutes * 60) as u64 })
        }),
{
    crate::win_service::audit::lemma_lockout_threshold(times, t, max_retry_count, lockout_minutes);
    let o = crate::win_service::audit::failure_outcome(
        crate::win_service::audit::after_failures(None, times, max_retry_count, lockout_minutes),
        max_retry_count,
        lockout_minutes,
        t,
    );
    let e0 = DualEventView::Opened { db_available: true, lock_remaining: None };
    let e1 = DualEventView::PairingChecked(Ok(()));
    let e2 = DualEventView::Verified(Err(e));
    let e3 = DualEventView::FailureRecorded { remaining: o.remaining, locked_secs: o.locked_secs };
    let events = seq![e0, e1, e2, e3];
    assert(events.drop_last() =~= seq![e0, e1, e2]);
    assert(seq![e0, e1, e2].drop_last() =~= seq![e0, e1]);
    assert(seq![e0, e1].drop_last() =~= seq![e0]);
    assert(seq![e0].drop_last() =~= Seq::<DualEventView>::empty());
    assert(dual_run(Seq::<DualEventView>::empty()) == (dual_start(), Seq::<DualActionView>::empty()));
    assert(seq![e0].last() == e0);
    assert(seq![e0, e1].last() == e1);
    assert(seq![e0, e1, e2].last() == e2);
    assert(events.last() == e3);
    let n0 = dual_next(dual_start(), e0);
    assert(n0.1 =~= seq![DualActionView::CheckPairing]);
    assert(n0.0.stage == DualStage::AwaitPairing && n0.0.db_available);
    let (f0, a0) = dual_run(seq![e0]);
    assert(f0 == n0.0);
    assert(a0 =~= Seq::<DualActionView>::empty() + n0.1);
    assert(a0 =~= seq![DualActionView::CheckPairing]);
    let (f1, a1) = dual_run(seq![e0, e1]);
    assert(a1 =~= a0 + dual_next(f0, e1).1);
    assert(a1 =~= seq![DualActionView::CheckPairing, DualActionView::VerifyCredentials]);
    let (f2, a2) = dual_run(seq![e0, e1, e2]);
    assert(f1.stage == DualStage::AwaitVerification && f1.db_available);
    assert(a2 =~= a1 + dual_next(f1, e2).1);
    assert(f2.stage == DualStage::AwaitFailureRecord);
    assert(a2 =~= seq![DualActionView::CheckPairing, DualActionView::VerifyCredentials, DualActionView::RecordFailure]);
    let (f3, a3) = dual_run(events);
    assert(a3 == a2 + dual_next(f2, e3).1);
}
} // verus!

verus! {

// ─── Emergency override login ─────────────────────────────────────

#[derive(Debug, Clone, Copy, PartialEq, Eq, Structural)]
pub enum EmergencyStage {
    /// Waiting for the shared database and its policy.
    Start,
    /// Waiting for the account's lock to be read.
    AwaitLock,
    /// Waiting for the authorized emergency accounts.
    AwaitAccounts,
    /// Waiting for the password to be verified.
    AwaitVerification,
    /// Waiting for the failed attempt to be counted.
    AwaitFailureRecord,
    Finished,
}

/// What the pipe server reports to the emergency flow.
#[derive(Debug)]
pub enum EmergencyEvent {
    /// The shared database was opened and its policy read (`None`: it could not be opened).
    Opened(Option<crate::win_service::audit::ServicePolicy>),
    /// The account's remaining lock time, if locked.
    LockRead(Option<u64>),
    /// The active emergency accounts as (SID, username).
    AccountsRead(Vec<(String, String)>),
    /// Result of the password check (`Err`: the check itself failed, with its message).
    Verified(Result<Result<String, AuthError>, String>),
    /// The failure was counted.
    FailureRecorded { remaining: u32, locked_secs: Option<u64> },
}

/// What the emergency flow asks the pipe server to do.
#[derive(Debug, Clone)]
pub enum EmergencyAction {
    /// Write an audit record for the emergency account (no approver).
    Audit { result: String, error: Option<String> },
    ReadLock,
    ReadAccounts,
    VerifyPassword,
    RecordFailure,
    ResetFailures,
    Reply(AuthResponse),
}

pub enum EmergencyEventView {
    Opened(Option<crate::win_service::audit::ServicePolicy>),
    LockRead(Option<u64>),
    AccountsRead(Seq<(Seq<char>, Seq<char>)>),
    Verified(Result<Result<Seq<char>, AuthErrorView>, Seq<char>>),
    FailureRecorded { remaining: u32, locked_secs: Option<u64> },
}

pub enum EmergencyActionView {
    Audit { result: Seq<char>, error: Option<Seq<char>> },
    ReadLock,
    ReadAccounts,
    VerifyPassword,
    RecordFailure,
    ResetFailures,
    Reply(AuthResponseView),
}

impl View for EmergencyEvent {
    type V = EmergencyEventView;

    open spec fn view(&self) -> EmergencyEventView {
        match self {
            EmergencyEvent::Opened(p) => EmergencyEventView::Opened(*p),
            EmergencyEvent::LockRead(l) => EmergencyEventView::LockRead(*l),
            EmergencyEvent::AccountsRead(v) => EmergencyEventView::AccountsRead(v@.map_values(|a: (String, String)| (a.0@, a.1@))),
            EmergencyEvent::Verified(r) => EmergencyEventView::Verified(match r {
                Err(je) => Err(je@),
                Ok(Ok(c)) => Ok(Ok(c@)),
                Ok(Err(e)) => Ok(Err(e@)),
            }),
            EmergencyEvent::FailureRecorded { remaining, locked_secs } => EmergencyEventView::FailureRecorded { remaining: *remaining, locked_secs: *locked_secs },
        }
    }
}

impl View for EmergencyAction {
    type V = EmergencyActionView;

    open spec fn view(&self) -> EmergencyActionView {
        match self {
            EmergencyAction::Audit { result, error } => EmergencyActionView::Audit { result: result@, error: opt_text(*error) },
            EmergencyAction::ReadLock => EmergencyActionView::ReadLock,
            EmergencyAction::ReadAccounts => EmergencyActionView::ReadAccounts,
            EmergencyAction::VerifyPassword => EmergencyActionView::VerifyPassword,
            EmergencyAction::RecordFailure => EmergencyActionView::RecordFailure,
            EmergencyAction::ResetFailures => EmergencyActionView::ResetFailures,
            EmergencyAction::Reply(r) => EmergencyActionView::Reply(r@),
        }
    }
}

/// The state of one emergency-override request.
#[derive(Debug, Clone)]
pub struct EmergencyAuthFlow {
    pub stage: EmergencyStage,
    /// The emergency account as the request names it.
    pub username: String,
    /// The override reason, trimmed.
    pub reason: String,
    /// The text of the password failure waiting for its attempt to be counted.
    pub failure_text: String,
}

pub struct EmergencyFlowView {
    pub stage: EmergencyStage,
    pub username: Seq<char>,
    pub reason: Seq<char>,
    pub failure_text: Seq<char>,
}

impl View for EmergencyAuthFlow {
    type V = EmergencyFlowView;

    open spec fn view(&self) -> EmergencyFlowView {
        EmergencyFlowView { stage: self.stage, username: self.username@, reason: self.reason@, failure_text: self.failure_text@ }
    }
}

pub open spec fn emergency_start(username: Seq<char>, reason: Seq<char>) -> EmergencyFlowView {
    EmergencyFlowView { stage: EmergencyStage::Start, username, reason: crate::text::trim(reason), failure_text: Seq::empty() }
}

pub open spec fn em_finished(f: EmergencyFlowView) -> EmergencyFlowView {
    EmergencyFlowView { stage: EmergencyStage::Finished, ..f }
}

/// Some listed emergency account has the same bare name as `username`.
pub open spec fn emergency_authorized(accounts: Seq<(Seq<char>, Seq<char>)>, username: Seq<char>) -> bool {
    exists|i: int|
        0 <= i < accounts.len() && crate::win_service::auth::dual_validator::bare_username(#[trigger] accounts[i].1)
            == crate::win_service::auth::dual_validator::bare_username(username)
}

pub open spec fn unauthorized_text(username: Seq<char>) -> Seq<char> {
    "账号 '"@ + username + "' 未被授权应急登录"@
}

/// One step of an emergency-override request.
pub open spec fn emergency_next(f: EmergencyFlowView, e: EmergencyEventView) -> (EmergencyFlowView, Seq<EmergencyActionView>) {
    match (f.stage, e) {
        (EmergencyStage::Start, EmergencyEventView::Opened(p)) => match p {
            None => (em_finished(f), seq![EmergencyActionView::Reply(AuthResponseView::EmergencyDenied("应急服务不可用（数据库错误）"@))]),
            Some(policy) => if !policy.allow_emergency_override {
                (em_finished(f), seq![
                    EmergencyActionView::Audit { result: "emergency_denied"@, error: Some("应急覆盖已被策略禁用"@) },
                    EmergencyActionView::Reply(AuthResponseView::EmergencyDenied("应急覆盖已被管理员禁用"@)),
                ])
            } else if policy.emergency_requires_reason && f.reason.len() == 0 {
                (em_finished(f), seq![EmergencyActionView::Reply(AuthResponseView::EmergencyDenied("必须填写应急登录原因"@))])
            } else {
                (EmergencyFlowView { stage: EmergencyStage::AwaitLock, ..f }, seq![EmergencyActionView::ReadLock])
            },
        },
        (EmergencyStage::AwaitLock, EmergencyEventView::LockRead(l)) => match l {
            Some(secs) => (em_finished(f), seq![
                EmergencyActionView::Audit { result: "locked_attempt"@, error: Some("应急账号处于锁定期"@) },
                EmergencyActionView::Reply(AuthResponseView::Locked { remaining_secs: secs }),
            ]),
            None => (EmergencyFlowView { stage: EmergencyStage::AwaitAccounts, ..f }, seq![EmergencyActionView::ReadAccounts]),
        },
        (EmergencyStage::AwaitAccounts, EmergencyEventView::AccountsRead(accounts)) =>
            if emergency_authorized(accounts, f.username) {
                (EmergencyFlowView { stage: EmergencyStage::AwaitVerification, ..f }, seq![EmergencyActionView::VerifyPassword])
            } else {
                (em_finished(f), seq![
                    EmergencyActionView::Audit { result: "emergency_denied"@, error: Some(unauthorized_text(f.username)) },
                    EmergencyActionView::Reply(AuthResponseView::EmergencyDenied(unauthorized_text(f.username))),
                ])
            },
        (EmergencyStage::AwaitVerification, EmergencyEventView::Verified(r)) => match r {
            Ok(Ok(canonical)) => (em_finished(f), seq![
                EmergencyActionView::ResetFailures,
                EmergencyActionView::Audit { result: "emergency_override"@, error: Some("应急登录批准，原因："@ + f.reason) },
                EmergencyActionView::Reply(AuthResponseView::Success { canonical_username: canonical }),
            ]),
            Ok(Err(err)) => {
                let text = auth_error_view_text(err);
                if contains_text(text, "PASSWORD_EXPIRED"@) {
                    (em_finished(f), seq![
                        EmergencyActionView::Audit { result: "password_expired"@, error: Some("密码已过期，需要通过 Windows 原生对话框修改密码"@) },
                        EmergencyActionView::Reply(AuthResponseView::PasswordExpired(f.username)),
                    ])
                } else {
                    (EmergencyFlowView { stage: EmergencyStage::AwaitFailureRecord, failure_text: text, ..f }, seq![EmergencyActionView::RecordFailure])
                }
            },
            Err(je) => (em_finished(f), seq![EmergencyActionView::Reply(AuthResponseView::EmergencyDenied("验证任务异常："@ + je))]),
        },
        (EmergencyStage::AwaitFailureRecord, EmergencyEventView::FailureRecorded { remaining, locked_secs }) => {
            let audit = EmergencyActionView::Audit { result: "emergency_denied"@, error: Some("密码验证失败："@ + f.failure_text) };
            match locked_secs {
                Some(secs) => (em_finished(f), seq![audit, EmergencyActionView::Reply(AuthResponseView::Locked { remaining_secs: secs })]),
                None => (em_finished(f), seq![audit, EmergencyActionView::Reply(AuthResponseView::EmergencyDenied(attempts_hint(f.failure_text, remaining)))]),
            }
        },
        _ => (f, seq![]),
    }
}

pub open spec fn em_actions_view(v: Seq<EmergencyAction>) -> Seq<EmergencyActionView> {
    v.map_values(|a: EmergencyAction| a@)
}

impl EmergencyAuthFlow {
    /// The flow for an override of `username` with the given reason.
    pub fn new(username: &str, reason: &str) -> (f: EmergencyAuthFlow)
        ensures
            f@ == emergency_start(username@, reason@),
    {
        EmergencyAuthFlow {
            stage: EmergencyStage::Start,
            username: String::from_str(username),
            reason: crate::text::trim_str(reason),
            failure_text: String::new(),
        }
    }

    fn finish(&mut self)
        ensures
            final(self)@ == em_finished(old(self)@),
    {
        self.stage = EmergencyStage::Finished;
    }

    /// Advances the request by one event and returns what to do next.
    pub fn step(&mut self, event: EmergencyEvent) -> (actions: Vec<EmergencyAction>)
        ensures
            (final(self)@, em_actions_view(actions@)) == emergency_next(old(self)@, event@),
    {
        let mut out: Vec<EmergencyAction> = Vec::new();
        match (self.stage, event) {
            (EmergencyStage::Start, EmergencyEvent::Opened(p)) => match p {
                None => {
                    self.finish();
                    out.push(EmergencyAction::Reply(AuthResponse::EmergencyDenied(String::from_str("应急服务不可用（数据库错误）"))));
                },
                Some(policy) => {
                    if !policy.allow_emergency_override {
                        self.finish();
                        out.push(EmergencyAction::Audit { result: String::from_str("emergency_denied"), error: Some(String::from_str("应急覆盖已被策略禁用")) });
                        out.push(EmergencyAction::Reply(AuthResponse::EmergencyDenied(String::from_str("应急覆盖已被管理员禁用"))));
                    } else if policy.emergency_requires_reason && self.reason.as_str().is_empty() {
                        self.finish();
                        out.push(EmergencyAction::Reply(AuthResponse::EmergencyDenied(String::from_str("必须填写应急登录原因"))));
                    } else {
                        self.stage = EmergencyStage::AwaitLock;
                        out.push(EmergencyAction::ReadLock);
                    }
                },
            },
            (EmergencyStage::AwaitLock, EmergencyEvent::LockRead(l)) => match l {
                Some(secs) => {
                    self.finish();
                    out.push(EmergencyAction::Audit { result: String::from_str("locked_attempt"), error: Some(String::from_str("应急账号处于锁定期")) });
                    out.push(EmergencyAction::Reply(AuthResponse::Locked { remaining_secs: secs }));
                },
                None => {
                    self.stage = EmergencyStage::AwaitAccounts;
                    out.push(EmergencyAction::ReadAccounts);
                },
            },
            (EmergencyStage::AwaitAccounts, EmergencyEvent::AccountsRead(accounts)) => {
                let input_bare = crate::win_service::auth::dual_validator::extract_bare_username(self.username.as_str());
                let mut matched = false;
                let mut i: usize = 0;
                while i < accounts.len()
                    invariant
                        i <= accounts.len(),
                        input_bare@ == crate::win_service::auth::dual_validator::bare_username(self.username@),
                        matched <==> exists|j: int|
                            0 <= j < i && crate::win_service::auth::dual_validator::bare_username(#[trigger] accounts@[j].1@)
                                == crate::win_service::auth::dual_validator::bare_username(self.username@),
                    decreases accounts.len() - i,
                {
                    let b = crate::win_service::auth::dual_validator::extract_bare_username(accounts[i].1.as_str());
                    if crate::text::same_text(b.as_str(), input_bare.as_str()) {
                        matched = true;
                    }
                    i = i + 1;
                }
                proof {
                    let v = accounts@.map_values(|a: (String, String)| (a.0@, a.1@));
                    assert forall|j: int| 0 <= j < accounts.len() implies #[trigger] v[j].1 == accounts@[j].1@ by {}
                    if matched {
                        let j = choose|j: int|
                            0 <= j < accounts.len() && crate::win_service::auth::dual_validator::bare_username(#[trigger] accounts@[j].1@)
                                == crate::win_service::auth::dual_validator::bare_username(self.username@);
                        assert(v[j].1 == accounts@[j].1@);
                    }
                    if emergency_authorized(v, self.username@) {
                        let j = choose|j: int|
                            0 <= j < v.len() && crate::win_service::auth::dual_validator::bare_username(#[trigger] v[j].1)
                                == crate::win_service::auth::dual_validator::bare_username(self.username@);
                        assert(v[j].1 == accounts@[j].1@);
                    }
                }
                if matched {
                    self.stage = EmergencyStage::AwaitVerification;
                    out.push(EmergencyAction::VerifyPassword);
                } else {
                    let msg = String::from_str("账号 '").concat(self.username.as_str()).concat("' 未被授权应急登录");
                    self.finish();
                    out.push(EmergencyAction::Audit { result: String::from_str("emergency_denied"), error: Some(msg.clone()) });
                    out.push(EmergencyAction::Reply(AuthResponse::EmergencyDenied(msg)));
                }
            },
            (EmergencyStage::AwaitVerification, EmergencyEvent::Verified(r)) => match r {
                Ok(Ok(canonical)) => {
                    let audit_msg = String::from_str("应急登录批准，原因：").concat(self.reason.as_str());
                    self.finish();
                    out.push(EmergencyAction::ResetFailures);
                    out.push(EmergencyAction::Audit { result: String::from_str("emergency_override"), error: Some(audit_msg) });
                    out.push(EmergencyAction::Reply(AuthResponse::Success { canonical_username: canonical }));
                },
                Ok(Err(err)) => {
                    let text = err.message();
                    proof {
                        assert(auth_error_text(err) == auth_error_view_text(err@));
                    }
                    if contains_str(text.as_str(), "PASSWORD_EXPIRED") {
                        self.finish();
                        out.push(EmergencyAction::Audit {
                            result: String::from_str("password_expired"),
                            error: Some(String::from_str("密码已过期，需要通过 Windows 原生对话框修改密码")),
                        });
                        out.push(EmergencyAction::Reply(AuthResponse::PasswordExpired(self.username.clone())));
                    } else {
                        self.stage = EmergencyStage::AwaitFailureRecord;
                        self.failure_text = text;
                        out.push(EmergencyAction::RecordFailure);
                    }
                },
                Err(je) => {
                    self.finish();
                    out.push(EmergencyAction::Reply(AuthResponse::EmergencyDenied(String::from_str("验证任务异常：").concat(je.as_str()))));
                },
            },
            (EmergencyStage::AwaitFailureRecord, EmergencyEvent::FailureRecorded { remaining, locked_secs }) => {
                let audit_msg = String::from_str("密码验证失败：").concat(self.failure_text.as_str());
                self.finish();
                out.push(EmergencyAction::Audit { result: String::from_str("emergency_denied"), error: Some(audit_msg) });
                match locked_secs {
                    Some(secs) => {
                        out.push(EmergencyAction::Reply(AuthResponse::Locked { remaining_secs: secs }));
                    },
                    None => {
                        out.push(EmergencyAction::Reply(AuthResponse::EmergencyDenied(with_attempts_hint(self.failure_text.clone(), remaining))));
                    },
                }
            },
            _ => {},
        }
        proof {
            assert(em_actions_view(out@) =~= emergency_next(old(self)@, event@).1);
        }
        out
    }
}

} // verus!

verus! {

/// The state and all actions after an emergency request for `username`
/// with `reason` saw `events`.
pub open spec fn emergency_run(username: Seq<char>, reason: Seq<char>, events: Seq<EmergencyEventView>) -> (EmergencyFlowView, Seq<EmergencyActionView>)
    decreases events.len(),
{
    if events.len() == 0 {
        (emergency_start(username, reason), seq![])
    } else {
        let (f, acts) = emergency_run(username, reason, events.drop_last());
        let (g, more) = emergency_next(f, events.last());
        (g, acts + more)
    }
}

/// Number of answers among `acts`.
pub open spec fn em_replies(acts: Seq<EmergencyActionView>) -> nat
    decreases acts.len(),
{
    if acts.len() == 0 {
        0
    } else {
        em_replies(acts.drop_last()) + if acts.last() is Reply { 1nat } else { 0nat }
    }
}

proof fn lemma_em_replies_append(a: Seq<EmergencyActionView>, b: Seq<EmergencyActionView>)
    ensures
        em_replies(a + b) == em_replies(a) + em_replies(b),
    decreases b.len(),
{
    if b.len() == 0 {
        assert(a + b =~= a);
    } else {
        assert((a + b).drop_last() =~= a + b.drop_last());
        lemma_em_replies_append(a, b.drop_last());
    }
}

/// The policy that was read allows the override, and a reason was given
/// where the policy asks for one.
pub open spec fn policy_allowed(events: Seq<EmergencyEventView>, reason: Seq<char>) -> bool {
    exists|i: int|
        0 <= i < events.len() && (#[trigger] events[i] matches EmergencyEventView::Opened(Some(p))
            && p.allow_emergency_override && !(p.emergency_requires_reason && crate::text::trim(reason).len() == 0))
}

/// The account was found not locked.
pub open spec fn found_unlocked(events: Seq<EmergencyEventView>) -> bool {
    exists|i: int| 0 <= i < events.len() && #[trigger] events[i] == EmergencyEventView::LockRead(None)
}

/// The account was found among the authorized emergency accounts.
pub open spec fn found_authorized(events: Seq<EmergencyEventView>, username: Seq<char>) -> bool {
    exists|i: int|
        0 <= i < events.len() && (#[trigger] events[i] matches EmergencyEventView::AccountsRead(a) && emergency_authorized(a, username))
}

pub open spec fn password_verified_as(events: Seq<EmergencyEventView>, c: Seq<char>) -> bool {
    exists|i: int| 0 <= i < events.len() && #[trigger] events[i] == EmergencyEventView::Verified(Ok(Ok(c)))
}

pub open spec fn em_replied_success(acts: Seq<EmergencyActionView>, c: Seq<char>) -> bool {
    acts.contains(EmergencyActionView::Reply(AuthResponseView::Success { canonical_username: c }))
}

#[verifier::spinoff_prover]
#[verifier::rlimit(40)]
proof fn lemma_emergency_run_invariant(username: Seq<char>, reason: Seq<char>, events: Seq<EmergencyEventView>)
    ensures
        ({
            let (f, acts) = emergency_run(username, reason, events);
            &&& f.username == username
            &&& f.reason == crate::text::trim(reason)
            &&& em_replies(acts) == (if f.stage == EmergencyStage::Finished { 1nat } else { 0nat })
            &&& f.stage != EmergencyStage::Start && f.stage != EmergencyStage::Finished ==> policy_allowed(events, reason)
            &&& (f.stage == EmergencyStage::AwaitAccounts || f.stage == EmergencyStage::AwaitVerification
                || f.stage == EmergencyStage::AwaitFailureRecord) ==> found_unlocked(events)
            &&& (f.stage == EmergencyStage::AwaitVerification || f.stage == EmergencyStage::AwaitFailureRecord)
                ==> found_authorized(events, username)
            &&& forall|c: Seq<char>| #[trigger] em_replied_success(acts, c) ==> policy_allowed(events, reason) && found_unlocked(events)
                && found_authorized(events, username) && password_verified_as(events, c)
        }),
    decreases events.len(),
{
    if events.len() > 0 {
        let prev = events.drop_last();
        let e = events.last();
        lemma_emergency_run_invariant(username, reason, prev);
        let (f, acts) = emergency_run(username, reason, prev);
        let (g, more) = emergency_next(f, e);
        lemma_em_replies_append(acts, more);
        let n = events.len() - 1;
        assert(events[n] == e);
        assert(policy_allowed(prev, reason) ==> policy_allowed(events, reason)) by {
            if policy_allowed(prev, reason) {
                let i = choose|i: int|
                    0 <= i < prev.len() && (#[trigger] prev[i] matches EmergencyEventView::Opened(Some(p))
                        && p.allow_emergency_override && !(p.emergency_requires_reason && crate::text::trim(reason).len() == 0));
                assert(events[i] == prev[i]);
            }
        }
        assert(found_unlocked(prev) ==> found_unlocked(events)) by {
            if found_unlocked(prev) {
                let i = choose|i: int| 0 <= i < prev.len() && #[trigger] prev[i] == EmergencyEventView::LockRead(None);
                assert(events[i] == prev[i]);
            }
        }
        assert(found_authorized(prev, username) ==> found_authorized(events, username)) by {
            if found_authorized(prev, username) {
                let i = choose|i: int|
                    0 <= i < prev.len() && (#[trigger] prev[i] matches EmergencyEventView::AccountsRead(a) && emergency_authorized(a, username));
                assert(events[i] == prev[i]);
            }
        }
        if e matches EmergencyEventView::Opened(Some(p)) && p.allow_emergency_override
            && !(p.emergency_requires_reason && crate::text::trim(reason).len() == 0) {
            assert(policy_allowed(events, reason));
        }
        if e == EmergencyEventView::LockRead(None) {
            assert(found_unlocked(events));
        }
        if e matches EmergencyEventView::AccountsRead(a) && emergency_authorized(a, username) {
            assert(found_authorized(events, username));
        }
        assert forall|c: Seq<char>| #[trigger] em_replied_success(acts + more, c) implies policy_allowed(events, reason)
            && found_unlocked(events) && found_authorized(events, username) && password_verified_as(events, c) by {
            if em_replied_success(acts, c) {
                let i = choose|i: int| 0 <= i < prev.len() && #[trigger] prev[i] == EmergencyEventView::Verified(Ok(Ok(c)));
                assert(events[i] == prev[i]);
            } else {
                let k = choose|k: int|
                    0 <= k < (acts + more).len() && (acts + more)[k] == EmergencyActionView::Reply(AuthResponseView::Success { canonical_username: c });
                assert(k >= acts.len());
                assert(more[k - acts.len()] == (acts + more)[k]);
                assert(e == EmergencyEventView::Verified(Ok(Ok(c))));
                assert(f.stage == EmergencyStage::AwaitVerification);
                assert(policy_allowed(prev, reason) && found_unlocked(prev) && found_authorized(prev, username));
            }
        }
        match (f.stage, e) {
            (EmergencyStage::Start, EmergencyEventView::Opened(_)) => {
                reveal_with_fuel(em_replies, 3);
            },
            (EmergencyStage::AwaitLock, EmergencyEventView::LockRead(_)) => {
                reveal_with_fuel(em_replies, 3);
            },
            (EmergencyStage::AwaitAccounts, EmergencyEventView::AccountsRead(_)) => {
                reveal_with_fuel(em_replies, 3);
            },
            (EmergencyStage::AwaitVerification, EmergencyEventView::Verified(_)) => {
                reveal_with_fuel(em_replies, 4);
            },
            (EmergencyStage::AwaitFailureRecord, EmergencyEventView::FailureRecorded { .. }) => {
                reveal_with_fuel(em_replies, 3);
            },
            _ => {
                assert(more =~= Seq::<EmergencyActionView>::empty());
            },
        }
    }
}

/// An emergency override is granted (success with logon name `c`) only
/// after the policy was read and allows overrides, a reason was given where
/// the policy asks for one, the account was found not locked and among the
/// authorized emergency accounts, and its password was verified with `c` as
/// the canonical name. Each request is answered at most once.
pub proof fn lemma_emergency_success_requires_policy(
    username: Seq<char>,
    reason: Seq<char>,
    events: Seq<EmergencyEventView>,
    c: Seq<char>,
)
    ensures
        em_replied_success(emergency_run(username, reason, events).1, c) ==> policy_allowed(events, reason)
            && found_unlocked(events) && found_authorized(events, username) && password_verified_as(events, c),
        em_replies(emergency_run(username, reason, events).1) <= 1,
{
    lemma_emergency_run_invariant(username, reason, events);
}

} // verus!

verus! {

// ─── Framing on the service side ──────────────────────────────────

/// Path of the service's named pipe.
pub const PIPE_PATH: &'static str = "\\\\.\\pipe\\winsla-auth-pipe";

/// Largest request the service reads, in bytes.
pub const MAX_REQUEST_LEN: u32 = 10_000_000;

/// The length of a request announced by its four header bytes; a request
/// over 10,000,000 bytes is refused.
pub fn request_length(header: &[u8]) -> (r: Result<usize, String>)
    requires
        header.len() >= 4,
    ensures
        crate::wire::le_value(header@.take(4)) <= MAX_REQUEST_LEN ==> r == Ok::<usize, String>(
            crate::wire::le_value(header@.take(4)) as usize,
        ),
        crate::wire::le_value(header@.take(4)) > MAX_REQUEST_LEN ==> (r matches Err(e) && e@ == "Invalid message size"@),
{
    let n = crate::wire::u32_from_le_bytes(header);
    if n > MAX_REQUEST_LEN {
        Err(String::from_str("Invalid message size"))
    } else {
        Ok(n as usize)
    }
}

/// The bytes to write for a serialized response.
pub fn response_frame(response_bytes: &[u8]) -> (r: Vec<u8>)
    ensures
        r@ == crate::wire::framed(response_bytes@),
{
    crate::wire::frame_message(response_bytes)
}

/// A request that the provider frames is read by the service at exactly its
/// own length, whenever it is no longer than 10,000,000 bytes.
pub proof fn lemma_request_frame_accepted(payload: Seq<u8>)
    requires
        payload.len() <= MAX_REQUEST_LEN,
    ensures
        crate::wire::le_value(crate::wire::framed(payload).take(4)) == payload.len(),
        crate::wire::framed(payload).skip(4) == payload,
{
    crate::wire::lemma_frame_roundtrip(payload);
}


/// A wrong emergency password is counted: a verification that fails with an
/// error other than an expired password asks for the failure to be
/// recorded, and nothing else, before any answer.
pub proof fn lemma_emergency_failure_is_counted(f: EmergencyFlowView, err: AuthErrorView)
    requires
        f.stage == EmergencyStage::AwaitVerification,
        !contains_text(auth_error_view_text(err), "PASSWORD_EXPIRED"@),
    ensures
        emergency_next(f, EmergencyEventView::Verified(Ok(Err(err)))).1 == seq![EmergencyActionView::RecordFailure],
        emergency_next(f, EmergencyEventView::Verified(Ok(Err(err)))).0.stage == EmergencyStage::AwaitFailureRecord,
{
}

/// An emergency account found locked is answered `Locked` with the time
/// left, and its password is not checked.
pub proof fn lemma_emergency_locked_account_rejected(f: EmergencyFlowView, secs: u64)
    requires
        f.stage == EmergencyStage::AwaitLock,
    ensures
        ({
            let (g, acts) = emergency_next(f, EmergencyEventView::LockRead(Some(secs)));
            &&& g.stage == EmergencyStage::Finished
            &&& acts.len() == 2
            &&& acts[1] == EmergencyActionView::Reply(AuthResponseView::Locked { remaining_secs: secs })
        }),
{
}

/// A counted failure of an emergency request that locked the account is
/// answered `Locked` with the lock's length (after the audit record), and
/// that is the only answer.
pub proof fn lemma_emergency_lock_reported(f: EmergencyFlowView, remaining: u32, secs: u64)
    requires
        f.stage == EmergencyStage::AwaitFailureRecord,
    ensures
        ({
            let acts = emergency_next(f, EmergencyEventView::FailureRecorded { remaining, locked_secs: Some(secs) }).1;
            &&& acts.len() == 2
            &&& acts[0] is Audit
            &&& acts[1] == EmergencyActionView::Reply(AuthResponseView::Locked { remaining_secs: secs })
        }),
{
}

/// A counted failure that did not lock is answered as a refusal carrying the
/// attempts left, never `Locked` and never success.
pub proof fn lemma_emergency_unlocked_failure_refused(f: EmergencyFlowView, remaining: u32)
    requires
        f.stage == EmergencyStage::AwaitFailureRecord,
    ensures
        ({
            let acts = emergency_next(f, EmergencyEventView::FailureRecorded { remaining, locked_secs: None }).1;
            &&& acts.len() == 2
            &&& acts[1] matches EmergencyActionView::Reply(AuthResponseView::EmergencyDenied(m))
                && m == f.failure_text + "（剩余尝试次数："@ + decimal(remaining as nat) + "）"@
        }),
{
}

} // verus!
