use winsla::cp_provider::com_types::AuthResponse;
use winsla::win_service::audit::{
    get_lock_remaining_secs, record_login_failure, reset_login_failures, AuditEvent, AuditLogger, LoginAttempts,
    ServicePolicy,
};
use winsla::win_service::auth::dual_validator::{
    canonical_logon_name, check_logon_input, check_pairing_rule, extract_bare_username, logon_failure,
    map_logon_error, split_logon_name, validate_dual_outcome,
};
use winsla::win_service::auth::emergency::{
    EmergencyConfig, EmergencyOverrideManager, EmergencyOverrideRequest, EmergencyOverrideResult,
};
use winsla::win_service::auth::ldap_verifier::LdapVerifier;
use winsla::win_service::auth::sspi_verifier::SspiVerifier;
use winsla::win_service::auth::AuthError;
use winsla::win_service::pipe_server::{
    describe_response, record_failure_and_build_response, request_length, response_frame, with_attempts_hint,
    DualAction, DualAuthFlow, DualEvent, DualStage, EmergencyAction, EmergencyAuthFlow, EmergencyEvent,
    EmergencyStage,
};
use winsla::win_service::service_state::{dword_value, PolicySync, ServiceState};
use winsla::wire::{u32_from_le_bytes, u32_to_le_bytes};

// ─── dual_validator ──────────────────────────────────────────────

#[test]
fn test_error_mapping() {
    assert!(map_logon_error(1326).contains("密码错误"));
    assert!(map_logon_error(1909).contains("锁定"));
}

#[test]
fn logon_errors_and_input_checks() {
    assert_eq!(map_logon_error(5), "凭据验证失败 (错误码 5)");
    assert_eq!(
        logon_failure(0x8007052E),
        AuthError::InvalidCredentials("用户名或密码错误".to_string())
    );
    assert!(check_logon_input("", "pass").is_err());
    assert!(check_logon_input("user", "").is_err());
    assert!(check_logon_input("user", "pass").is_ok());
}

/// `verify_password_windows` refuses an empty name or password before
/// calling Windows; `check_logon_input` is that check.
#[test]
fn dual_validator_test_empty_credentials_rejected() {
    assert!(check_logon_input("", "pass").is_err());
    assert!(check_logon_input("user", "").is_err());
}

#[test]
fn bare_names_and_logon_parts() {
    assert_eq!(extract_bare_username("CORP\\Alice"), "alice");
    assert_eq!(extract_bare_username("Alice@corp.com"), "alice");
    assert_eq!(split_logon_name("CORP\\bob"), ("bob".to_string(), Some("CORP".to_string())));
    assert_eq!(split_logon_name("bob@corp"), ("bob@corp".to_string(), None));
}

#[test]
fn pairing_rule_decisions() {
    let rows: Vec<(String, String, String, String)> = vec![(
        "S-a".to_string(),
        "S-b".to_string(),
        "CORP\\Alice".to_string(),
        "bob@corp.com".to_string(),
    )];
    assert!(check_pairing_rule(&Ok(rows.clone()), "alice", "CORP\\BOB").is_ok());
    assert!(check_pairing_rule(&Ok(rows.clone()), "bob", "alice").is_err());
    assert!(check_pairing_rule(&Ok(vec![]), "alice", "bob").is_err());
    assert!(check_pairing_rule(&Err("db".to_string()), "x", "y").is_ok());
}

#[test]
fn dual_outcome_combination() {
    let ok_a: Result<Result<String, AuthError>, String> = Ok(Ok("CORP\\a".to_string()));
    let ok_b: Result<Result<String, AuthError>, String> = Ok(Ok("CORP\\b".to_string()));
    assert_eq!(validate_dual_outcome(ok_a.clone(), ok_b.clone()), Ok("CORP\\a".to_string()));
    let bad: Result<Result<String, AuthError>, String> = Ok(Err(AuthError::Timeout));
    assert_eq!(
        validate_dual_outcome(ok_a.clone(), bad.clone()),
        Err(AuthError::InvalidCredentials("Timeout waiting for response".to_string()))
    );
    assert!(matches!(validate_dual_outcome(bad.clone(), bad), Err(AuthError::BothFailed(_, _))));
    assert!(matches!(validate_dual_outcome(Err("join".to_string()), ok_b), Err(AuthError::ServiceError(_))));
}

#[test]
fn canonical_names() {
    let lookup = |local: bool, s: &str| -> Option<(String, String)> {
        if local && s == "alice" {
            Some(("Alice".to_string(), "PC1".to_string()))
        } else {
            None
        }
    };
    let joined = || Some("CORP".to_string());
    assert_eq!(canonical_logon_name(" CORP\\x ", &lookup, &joined), "CORP\\x");
    assert_eq!(canonical_logon_name("alice", &lookup, &joined), "PC1\\Alice");
    assert_eq!(canonical_logon_name("carol", &lookup, &joined), "CORP\\carol");
    assert_eq!(canonical_logon_name("c@d", &lookup, &joined), "c@d");
}

// ─── emergency ───────────────────────────────────────────────────

fn request(username: &str, reason: &str) -> EmergencyOverrideRequest {
    EmergencyOverrideRequest {
        username: username.to_string(),
        password_hash: vec![],
        reason: reason.to_string(),
        timestamp_millis: chrono::Utc::now().timestamp_millis(),
    }
}

#[test]
fn test_override_disabled() {
    let config = EmergencyConfig { enabled: false, ..Default::default() };
    let manager = EmergencyOverrideManager::new(config);

    let request = request("admin", "Emergency");

    match manager.check_override(&request) {
        EmergencyOverrideResult::Denied { reason } => {
            assert!(reason.contains("disabled"));
        }
        _ => panic!("Expected Denied"),
    }
}

#[test]
fn test_override_requires_reason() {
    let config = EmergencyConfig { enabled: true, require_reason: true, ..Default::default() };
    let manager = EmergencyOverrideManager::new(config);

    let request = request("admin", "");

    match manager.check_override(&request) {
        EmergencyOverrideResult::Denied { reason } => {
            assert!(reason.contains("reason"));
        }
        _ => panic!("Expected Denied"),
    }
}

#[test]
fn test_override_approved() {
    let config = EmergencyConfig {
        enabled: true,
        require_reason: true,
        authorized_sids: vec![], // Empty = allow all (for testing)
        ..Default::default()
    };
    let manager = EmergencyOverrideManager::new(config);

    let mut request = request("admin", "System maintenance required");
    request.password_hash = vec![1, 2, 3];

    match manager.check_override(&request) {
        EmergencyOverrideResult::Approved { username } => {
            assert_eq!(username, "admin");
        }
        _ => panic!("Expected Approved"),
    }
}

#[test]
fn test_override_unauthorized_account() {
    let config = EmergencyConfig {
        enabled: true,
        require_reason: false,
        authorized_sids: vec!["S-1-5-21-admin-sid".to_string()],
        ..Default::default()
    };
    let manager = EmergencyOverrideManager::new(config);

    let request = request("regular_user", "Trying to bypass");

    match manager.check_override(&request) {
        EmergencyOverrideResult::Denied { reason } => {
            assert!(reason.contains("not authorized"));
        }
        _ => panic!("Expected Denied"),
    }
}

#[test]
fn override_listed_account_and_config_updates() {
    let mut manager = EmergencyOverrideManager::default();
    assert!(manager.is_enabled());
    manager.update_config(EmergencyConfig {
        enabled: true,
        authorized_sids: vec!["OPS".to_string()],
        require_reason: true,
        max_active_hours: 4,
    });
    assert_eq!(
        manager.check_override(&request("ops", "fire")),
        EmergencyOverrideResult::Approved { username: "ops".to_string() }
    );
    assert_eq!(
        manager.check_override(&request("", "fire")),
        EmergencyOverrideResult::Denied { reason: "Username is required".to_string() }
    );
    assert_eq!(
        manager.check_override(&request("ops", "   ")),
        EmergencyOverrideResult::Denied { reason: "A reason must be provided for emergency override".to_string() }
    );
}

// ─── ldap / sspi verifiers ───────────────────────────────────────

#[test]
fn test_get_user_dn() {
    let verifier = LdapVerifier::new();
    let dn = verifier.get_user_dn("admin", "EXAMPLE.COM");
    assert!(dn.contains("CN=admin"));
    assert!(dn.contains("DC=EXAMPLE"));
    assert!(dn.contains("DC=COM"));
}

#[test]
fn test_empty_password() {
    let verifier = LdapVerifier::new();
    let result = verifier.simple_bind("admin", "");
    assert!(result.is_err());
}

#[test]
fn ldap_verifier_dns_and_binds() {
    let verifier = LdapVerifier::new().with_config("dc1", "CN=svc");
    assert_eq!(verifier.get_user_dn("a@b", "x.y.z"), "CN=a,b,DC=x,DC=y,DC=z");
    assert_eq!(verifier.get_user_dn("admin", "LOCAL"), "CN=admin@LOCAL");
    assert_eq!(
        verifier.simple_bind("admin", "pw"),
        Err(AuthError::InvalidCredentials("Invalid username format".to_string()))
    );
    assert_eq!(verifier.simple_bind("CORP\\admin", "pw"), Ok(()));
}

#[test]
fn test_empty_credentials() {
    let verifier = SspiVerifier::new();
    let result = verifier.authenticate_ntlm("", "pass", "DOMAIN");
    assert!(result.is_err());
}

#[test]
fn test_valid_credentials() {
    let verifier = SspiVerifier::new();
    let result = verifier.authenticate_ntlm("admin", "password123", "EXAMPLE.COM");
    assert!(result.is_ok());
    assert_eq!(verifier.get_user_sid("admin"), Ok("S-1-5-21-example-sid".to_string()));
}

// ─── audit and lockout ───────────────────────────────────────────

#[test]
fn audit_lines_and_paths() {
    let logger = AuditLogger::new(None);
    assert_eq!(logger.log_file_path, "C:\\ProgramData\\WinSLA\\audit.log");
    let line = logger.log_line(
        &AuditEvent::AuthSuccess { user_a: "a".to_string(), user_b: "b".to_string(), timestamp: String::new() },
        "2024-01-01 00:00:00",
    );
    assert_eq!(line, "[2024-01-01 00:00:00] AUTH_SUCCESS: user_a=a, user_b=b");
}

#[test]
fn service_policy_rows() {
    let rows = vec![
        ("max_retry_count".to_string(), "7".to_string()),
        ("lockout_duration_minutes".to_string(), "x".to_string()),
        ("default_tile_enabled".to_string(), "false".to_string()),
    ];
    let p = ServicePolicy::from_rows(&rows);
    assert_eq!(p.max_retry_count, 7);
    assert_eq!(p.lockout_duration_minutes, 10);
    assert!(!p.default_tile_enabled);
    assert!(p.allow_emergency_override);
}

#[test]
fn service_policy_defaults_lock_after_three_failures_for_ten_minutes() {
    let p = ServicePolicy::default();
    assert_eq!(p.max_retry_count, 3);
    assert_eq!(p.lockout_duration_minutes, 10);
    let rows = vec![("max_retry_count".to_string(), "many".to_string())];
    assert_eq!(ServicePolicy::from_rows(&rows).max_retry_count, 3);
}

#[test]
fn lockout_after_max_failures() {
    let now = 1_000_000i64;
    let first = record_login_failure(None, 3, 10, now);
    assert_eq!(first.remaining, 2);
    let second = record_login_failure(Some(first.stored), 3, 10, now + 1);
    assert_eq!(second.remaining, 1);
    let third = record_login_failure(Some(second.stored), 3, 10, now + 2);
    assert_eq!(third.remaining, 0);
    assert_eq!(third.locked_secs, Some(600));
    assert_eq!(third.stored, LoginAttempts { fail_count: 0, locked_until: Some(now + 602) });
    assert_eq!(get_lock_remaining_secs(Some(third.stored), now + 2), Some(600));
    assert_eq!(get_lock_remaining_secs(Some(third.stored), now + 602), None);
    assert_eq!(reset_login_failures(), None);
}

// ─── pipe server ─────────────────────────────────────────────────

#[test]
fn failure_responses_carry_attempts() {
    assert_eq!(with_attempts_hint("错".to_string(), 2), "错（剩余尝试次数：2）");
    let base = AuthResponse::FailUserA("错".to_string());
    let outcome = record_login_failure(None, 3, 10, 0);
    assert_eq!(
        record_failure_and_build_response(Some(outcome), base.clone()),
        AuthResponse::FailUserA("错（剩余尝试次数：2）".to_string())
    );
    assert_eq!(record_failure_and_build_response(None, base.clone()), base);
    let (result, error) = describe_response(&AuthResponse::Success { canonical_username: "x".to_string() });
    assert_eq!(result, "success");
    assert_eq!(error, None);
}

#[test]
fn dual_flow_success_path() {
    let mut flow = DualAuthFlow::new();
    let a = flow.step(DualEvent::Opened { db_available: true, lock_remaining: None });
    assert!(matches!(a.as_slice(), [DualAction::CheckPairing]));
    let a = flow.step(DualEvent::PairingChecked(Ok(())));
    assert!(matches!(a.as_slice(), [DualAction::VerifyCredentials]));
    let a = flow.step(DualEvent::Verified(Ok("CORP\\alice".to_string())));
    assert_eq!(a.len(), 3);
    assert!(matches!(&a[0], DualAction::ResetFailures));
    assert!(matches!(&a[2], DualAction::Reply(AuthResponse::Success { canonical_username }) if canonical_username == "CORP\\alice"));
    assert_eq!(flow.stage, DualStage::Finished);
    // Nothing more happens once answered.
    assert!(flow.step(DualEvent::Verified(Ok("x".to_string()))).is_empty());
}

#[test]
fn dual_flow_locked_account() {
    let mut flow = DualAuthFlow::new();
    let a = flow.step(DualEvent::Opened { db_available: true, lock_remaining: Some(90) });
    assert_eq!(a.len(), 2);
    assert!(matches!(&a[1], DualAction::Reply(AuthResponse::Locked { remaining_secs: 90 })));
    assert!(flow.step(DualEvent::PairingChecked(Ok(()))).is_empty());
}

#[test]
fn dual_flow_pairing_violation_counts_a_failure() {
    let mut flow = DualAuthFlow::new();
    flow.step(DualEvent::Opened { db_available: true, lock_remaining: None });
    let a = flow.step(DualEvent::PairingChecked(Err(AuthError::InvalidCredentials("不匹配".to_string()))));
    assert!(matches!(a.as_slice(), [DualAction::Audit { .. }, DualAction::RecordFailure]));
    let a = flow.step(DualEvent::FailureRecorded { remaining: 0, locked_secs: Some(600) });
    assert!(matches!(a.as_slice(), [DualAction::Reply(AuthResponse::Locked { remaining_secs: 600 })]));
}

#[test]
fn emergency_flow_paths() {
    let mut flow = EmergencyAuthFlow::new("Ops", "  outage ");
    assert_eq!(flow.reason, "outage");
    let policy = ServicePolicy::default();
    let a = flow.step(EmergencyEvent::Opened(Some(policy)));
    assert!(matches!(a.as_slice(), [EmergencyAction::ReadLock]));
    let a = flow.step(EmergencyEvent::LockRead(None));
    assert!(matches!(a.as_slice(), [EmergencyAction::ReadAccounts]));
    let a = flow.step(EmergencyEvent::AccountsRead(vec![("S-1".to_string(), "CORP\\ops".to_string())]));
    assert!(matches!(a.as_slice(), [EmergencyAction::VerifyPassword]));
    let a = flow.step(EmergencyEvent::Verified(Ok(Ok("CORP\\ops".to_string()))));
    assert_eq!(a.len(), 3);
    assert!(matches!(&a[2], EmergencyAction::Reply(AuthResponse::Success { .. })));
    assert_eq!(flow.stage, EmergencyStage::Finished);

    let mut denied = EmergencyAuthFlow::new("x", "");
    let a = denied.step(EmergencyEvent::Opened(Some(policy)));
    assert!(matches!(a.as_slice(), [EmergencyAction::Reply(AuthResponse::EmergencyDenied(m))] if m == "必须填写应急登录原因"));

    let mut stranger = EmergencyAuthFlow::new("eve", "why");
    stranger.step(EmergencyEvent::Opened(Some(policy)));
    stranger.step(EmergencyEvent::LockRead(None));
    let a = stranger.step(EmergencyEvent::AccountsRead(vec![("S-1".to_string(), "ops".to_string())]));
    assert!(matches!(&a[1], EmergencyAction::Reply(AuthResponse::EmergencyDenied(m)) if m == "账号 'eve' 未被授权应急登录"));
}

#[test]
fn request_frames_on_the_service_side() {
    assert_eq!(request_length(&[0x80, 0x96, 0x98, 0x00]), Ok(10_000_000));
    assert_eq!(request_length(&[0x81, 0x96, 0x98, 0x00]), Err("Invalid message size".to_string()));
    assert_eq!(response_frame(b"{}"), vec![2, 0, 0, 0, b'{', b'}']);
    assert_eq!(u32_from_le_bytes(&u32_to_le_bytes(0xDEADBEEF)), 0xDEADBEEF);
}

// ─── service state ───────────────────────────────────────────────

#[test]
fn service_counters() {
    let mut s = ServiceState::new();
    s.record_connection();
    s.record_response(&AuthResponse::Success { canonical_username: "a".to_string() });
    s.record_response(&AuthResponse::Timeout);
    s.update_activity();
    assert_eq!(s.connections_accepted, 1);
    assert_eq!(s.successful_authentications, 1);
    assert_eq!(s.failed_authentications, 1);
    assert_eq!(ServiceState::default(), ServiceState::new());
}

#[test]
fn policy_sync_writes_only_changes() {
    let mut sync = PolicySync::new();
    let p = ServicePolicy::default();
    assert!(sync.needs_write(&p));
    sync.written(&p);
    assert!(!sync.needs_write(&p));
    let mut q = p;
    q.emergency_requires_reason = false;
    assert!(sync.needs_write(&q));
    assert_eq!(dword_value(true), 1);
    assert_eq!(dword_value(false), 0);
}
