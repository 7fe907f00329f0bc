use winsla::cp_provider::com_types::{AuthMode, AuthRequest, AuthResponse};
use winsla::cp_provider::credential_com::{
    is_domain_account, is_interactive_user_sid, kerberos_package_choice, lockout_minutes, locked_message,
    logon_source_tag, map_ntstatus_logon_error, negotiate_package_choice, netbios_domain_choice, patch_logon_id,
    select_auth_package, fully_qualified_user, DualAuthCredentialCom, QueryAnswer, SerializationEnd,
    SerializationStart, TileType, CPFIS_FOCUSED, CPFIS_NONE, CPFS_DISPLAY_IN_BOTH, CPFS_HIDDEN, E_INVALIDARG,
    FIELD_REASON, FIELD_STATUS, FIELD_USER_A_NAME, FIELD_USER_A_PASS, FIELD_USER_B_NAME, FIELD_USER_B_PASS,
    IID_ICREDENTIAL_PROVIDER_CREDENTIAL, IID_ICREDENTIAL_PROVIDER_CREDENTIAL2, NO_PACKAGE, S_OK,
};
use winsla::cp_provider::credential_provider::{is_ready_to_submit, submit_credentials};
use winsla::cp_provider::dual_auth_credential::{
    string_to_wstring, CredentialState, DualAuthCredential, DualAuthProvider, FIELD_STATUS_TEXT,
    FIELD_USER_A_NAME as A_NAME, FIELD_USER_A_PASS as A_PASS, FIELD_USER_B_NAME as B_NAME,
    FIELD_USER_B_PASS as B_PASS,
};
use winsla::cp_provider::pipe_client::{
    after_failed_attempt, request_frame, response_length, ConnectStep, PipeClientError,
};
use winsla::cp_provider::provider_com::{
    can_unload_now, class_available, credential_tile, dll_can_unload_now, field_descriptor, filter_providers,
    requires_reason_from_registry, default_tile_from_registry, DualAuthProviderCom, ProviderAnswer, ServerLocks,
    CPUS_LOGON, IID_ICREDENTIAL_PROVIDER_SET_USER_ARRAY,
};
use winsla::cp_provider::dual_auth_credential::CLSID_DUAL_AUTH_PROVIDER;
use winsla::cp_provider::ui_controls::{DualAuthUi, TextFieldType};

fn wide(s: &str) -> Vec<u16> {
    s.encode_utf16().chain(std::iter::once(0)).collect()
}

// ─── dual_auth_credential ────────────────────────────────────────

#[test]
fn test_credential_creation() {
    let cred = DualAuthCredential::new();
    assert_eq!(cred.state, CredentialState::Empty);
}

#[test]
fn test_field_setting() {
    let mut cred = DualAuthCredential::new();
    cred.set_field_value(A_NAME, "user1@domain.com");
    assert_eq!(cred.state, CredentialState::UserAOnly);
    assert_eq!(cred.user_a_username, "user1@domain.com");
}

#[test]
fn test_validation() {
    let mut cred = DualAuthCredential::new();
    assert!(cred.validate_fields().is_err());

    cred.set_field_value(A_NAME, "user1");
    cred.set_field_value(A_PASS, "pass1");
    cred.set_field_value(B_NAME, "user2");
    cred.set_field_value(B_PASS, "pass2");
    assert!(cred.validate_fields().is_ok());
    assert_eq!(cred.state, CredentialState::ReadyToSubmit);
}

#[test]
fn dual_auth_credential_test_reset() {
    let mut cred = DualAuthCredential::new();
    cred.set_field_value(A_NAME, "user1");
    cred.reset();
    assert_eq!(cred.state, CredentialState::Empty);
    assert!(cred.user_a_username.is_empty());
}

#[test]
fn test_provider() {
    let provider = DualAuthProvider::new();
    assert_eq!(provider.get_credential_count(), 1);
    assert_eq!(provider.get_provider_name(), "WinSLA Dual-Account Authentication");
}

#[test]
fn test_is_ready_to_submit() {
    let mut cred = DualAuthCredential::new();
    assert!(!is_ready_to_submit(&cred));

    cred.set_field_value(A_NAME, "user1");
    cred.set_field_value(A_PASS, "pass1");
    cred.set_field_value(B_NAME, "user2");
    cred.set_field_value(B_PASS, "pass2");
    assert!(is_ready_to_submit(&cred));
}

#[test]
fn set_then_get_reads_back_and_keeps_other_fields() {
    let mut cred = DualAuthCredential::new();
    cred.set_field_value(B_NAME, "approver");
    cred.set_field_value(A_PASS, "secret");
    assert_eq!(cred.get_field_value(B_NAME), Some("approver"));
    assert_eq!(cred.get_field_value(A_PASS), Some("secret"));
    assert_eq!(cred.get_field_value(A_NAME), Some(""));
    assert_eq!(
        cred.get_field_value(FIELD_STATUS_TEXT),
        Some("请输入主账号和审批人的凭据以完成双因素认证")
    );
    assert_eq!(cred.get_field_value(4), None);
    // Only the approver's name: the state stays as it was.
    assert_eq!(cred.state, CredentialState::Empty);
}

#[test]
fn validation_names_the_first_missing_field() {
    let mut cred = DualAuthCredential::new();
    cred.set_field_value(A_NAME, "a");
    assert_eq!(cred.validate_fields(), Err("User A password is required".to_string()));
    cred.set_field_value(A_PASS, "p");
    assert_eq!(cred.validate_fields(), Err("User B username is required".to_string()));
    cred.set_field_value(B_NAME, "b");
    assert_eq!(cred.state, CredentialState::BothUsernames);
    assert_eq!(cred.validate_fields(), Err("User B password is required".to_string()));
}

#[test]
fn mark_failed_shows_reason() {
    let mut cred = DualAuthCredential::new();
    cred.mark_failed("bad");
    assert_eq!(cred.state, CredentialState::Failed("bad".to_string()));
    assert_eq!(cred.status_message, "身份验证失败：bad");
    cred.mark_verified();
    assert_eq!(cred.status_message, "Authentication successful");
}

#[test]
fn provider_credential_mut_edits_in_place() {
    let mut provider = DualAuthProvider::default();
    provider.get_credential_mut(0).unwrap().set_field_value(A_NAME, "x");
    assert_eq!(provider.credentials[0].user_a_username, "x");
    assert!(provider.get_credential_mut(1).is_none());
}

#[test]
fn wide_strings_are_nul_terminated() {
    assert_eq!(string_to_wstring("ab"), vec![97u16, 98, 0]);
    assert_eq!(string_to_wstring("😀"), vec![0xD83D, 0xDE00, 0]);
}

// ─── credential_provider ─────────────────────────────────────────

fn filled() -> DualAuthCredential {
    let mut cred = DualAuthCredential::new();
    cred.set_field_value(A_NAME, "Alice");
    cred.set_field_value(A_PASS, "pa");
    cred.set_field_value(B_NAME, "BOB");
    cred.set_field_value(B_PASS, "pb");
    cred
}

#[test]
fn submit_rejects_missing_fields_without_sending() {
    let mut cred = DualAuthCredential::new();
    let send = |_r: &AuthRequest| -> Result<AuthResponse, PipeClientError> { panic!("must not send") };
    let r = submit_credentials(&mut cred, "console", &send);
    assert_eq!(r, Err("User A username is required".to_string()));
    assert_eq!(cred.state, CredentialState::Empty);
}

#[test]
fn submit_success_marks_verified_and_clears_passwords() {
    let mut cred = filled();
    let send = |r: &AuthRequest| -> Result<AuthResponse, PipeClientError> {
        assert_eq!(r.mode, AuthMode::Dual);
        assert_eq!(r.user_a_username, "alice");
        assert_eq!(r.user_b_username, "bob");
        assert_eq!(r.user_a_password, "pa");
        assert_eq!(r.logon_source, "console");
        Ok(AuthResponse::Success { canonical_username: "CORP\\alice".to_string() })
    };
    let r = submit_credentials(&mut cred, "console", &send);
    assert_eq!(r, Ok(AuthResponse::Success { canonical_username: "CORP\\alice".to_string() }));
    assert_eq!(cred.state, CredentialState::Verified);
    assert!(cred.user_a_password.is_empty() && cred.user_b_password.is_empty());
}

#[test]
fn submit_failure_reasons() {
    let mut cred = filled();
    let send = |_r: &AuthRequest| Ok(AuthResponse::BothFailed("x".to_string(), "y".to_string()));
    submit_credentials(&mut cred, "console", &send).unwrap();
    assert_eq!(cred.state, CredentialState::Failed("User A: x | User B: y".to_string()));

    let mut cred = filled();
    let send = |_r: &AuthRequest| Ok(AuthResponse::Locked { remaining_secs: 61 });
    submit_credentials(&mut cred, "console", &send).unwrap();
    assert_eq!(
        cred.status_message,
        "身份验证失败：失败次数过多，账号已锁定，请约 2 分钟后重试"
    );
}

#[test]
fn submit_pipe_error_keeps_verifying() {
    let mut cred = filled();
    let send = |_r: &AuthRequest| Err(PipeClientError::Timeout);
    let r = submit_credentials(&mut cred, "console", &send);
    assert_eq!(r, Err("Service communication error: Timeout".to_string()));
    assert_eq!(cred.state, CredentialState::Verifying);
    assert_eq!(cred.user_a_password, "pa");
}

// ─── ui_controls ─────────────────────────────────────────────────

#[test]
fn test_dual_auth_ui_creation() {
    let ui = DualAuthUi::new();
    assert!(!ui.has_all_credentials());
}

#[test]
fn test_field_validation() {
    let mut ui = DualAuthUi::new();
    ui.user_a_username.set_value("user1");
    ui.user_b_username.set_value("user2");

    assert!(!ui.has_all_credentials()); // Missing passwords

    ui.user_a_password.set_value("pass1");
    ui.user_b_password.set_value("pass2");

    assert!(ui.has_all_credentials());
}

#[test]
fn ui_controls_test_reset() {
    let mut ui = DualAuthUi::new();
    ui.user_a_username.set_value("user1");
    ui.reset();
    assert!(ui.user_a_username.is_empty());
}

#[test]
fn requests_carry_a_version_4_id_and_the_time() {
    let r = AuthRequest::new_dual("CORP\\Alice", "pa", "Bob", "pb", "LOGON");
    assert_eq!(r.mode, AuthMode::Dual);
    assert_eq!(r.user_a_username, "corp\\alice");
    assert_eq!(r.user_b_username, "bob");
    assert_eq!((r.request_id >> 76) & 0xF, 4);
    assert_eq!((r.request_id >> 62) & 0x3, 2);
    assert!(r.timestamp_millis > 1_600_000_000_000);
    let e = AuthRequest::new_emergency("Ops", "p", "outage", "LOCK");
    assert_eq!(e.mode, AuthMode::Emergency);
    assert_eq!((e.request_id >> 76) & 0xF, 4);
    assert_ne!(e.request_id, r.request_id);
}

#[test]
fn ui_reset_keeps_field_kinds_and_labels() {
    let mut ui = DualAuthUi::new();
    ui.user_a_username.set_value("user1");
    ui.user_b_password.set_value("secret");
    ui.status_message = "Ready".to_string();
    ui.reset();
    assert!(ui.user_a_username.value.is_empty() && ui.user_b_password.value.is_empty());
    assert_eq!(ui.status_message, "Enter both users' credentials\0");
    assert_eq!(ui.user_a_username.field_type, TextFieldType::Username);
    assert_eq!(ui.user_a_password.field_type, TextFieldType::Password);
    assert_eq!(ui.user_b_username.field_type, TextFieldType::Username);
    assert_eq!(ui.user_b_password.field_type, TextFieldType::Password);
    assert!(ui.user_a_username.is_required && ui.user_a_password.is_required);
    assert!(ui.user_b_username.is_required && ui.user_b_password.is_required);
    assert_eq!(ui.user_b_password.label, "Second Password");
    assert_eq!(ui.submit_button_label, "Submit\0");
}

#[test]
fn ui_status_follows_usernames() {
    let mut ui = DualAuthUi::new();
    assert_eq!(ui.get_status(), "Enter both users' credentials\0");
    ui.user_a_username.set_value("  a ");
    assert_eq!(ui.get_status(), "Waiting for second user");
    ui.user_b_username.set_value("b");
    assert_eq!(ui.get_status(), "Ready to verify");
    ui.user_a_username.set_value("   ");
    assert!(ui.user_a_username.is_empty());
}

// ─── credential_com ──────────────────────────────────────────────

#[test]
fn tile_fields_read_back_what_was_written() {
    let mut c = DualAuthCredentialCom::new(TileType::Dual);
    assert_eq!(c.get_string_value(FIELD_STATUS), Ok(wide("双控登录")));
    assert_eq!(c.set_string_value(FIELD_USER_B_NAME, wide("bob")), S_OK);
    assert_eq!(c.get_string_value(FIELD_USER_B_NAME), Ok(wide("bob")));
    assert_eq!(c.get_string_value(FIELD_USER_A_NAME), Ok(vec![0u16]));
    assert_eq!(c.set_string_value(FIELD_STATUS, wide("x")), E_INVALIDARG);
    assert_eq!(c.get_string_value(9), Err(E_INVALIDARG));
}

#[test]
fn tile_field_visibility() {
    let d = DualAuthCredentialCom::new(TileType::Dual);
    assert_eq!(d.field_state(FIELD_REASON, true), Ok((CPFS_HIDDEN, CPFIS_NONE)));
    assert_eq!(d.field_state(FIELD_USER_A_NAME, false), Ok((CPFS_DISPLAY_IN_BOTH, CPFIS_FOCUSED)));
    let e = DualAuthCredentialCom::new(TileType::Emergency);
    assert_eq!(e.field_state(FIELD_USER_B_PASS, true), Ok((CPFS_HIDDEN, CPFIS_NONE)));
    assert_eq!(e.field_state(FIELD_REASON, true), Ok((CPFS_DISPLAY_IN_BOTH, CPFIS_NONE)));
    assert_eq!(e.field_state(FIELD_REASON, false), Ok((CPFS_HIDDEN, CPFIS_NONE)));
    assert_eq!(e.field_state(7, false), Err(E_INVALIDARG));
}

#[test]
fn credential2_only_while_unlocking() {
    let mut c = DualAuthCredentialCom::new(TileType::Dual);
    assert_eq!(c.query_interface(IID_ICREDENTIAL_PROVIDER_CREDENTIAL2), QueryAnswer::NoInterface);
    assert_eq!(c.ref_count, 1);
    c.usage_scenario = 2;
    assert_eq!(c.query_interface(IID_ICREDENTIAL_PROVIDER_CREDENTIAL2), QueryAnswer::Credential);
    assert_eq!(c.query_interface(IID_ICREDENTIAL_PROVIDER_CREDENTIAL), QueryAnswer::Credential);
    assert_eq!(c.ref_count, 3);
    assert_eq!(c.release(), 2);
    assert!(c.claims_session_user());
}

#[test]
fn dual_serialization_round() {
    let mut c = DualAuthCredentialCom::new(TileType::Dual);
    match c.begin_serialization(false, "console") {
        SerializationStart::Incomplete(m) => assert_eq!(m, "请填写主账号和审批人的完整凭据"),
        _ => panic!("expected incomplete"),
    }
    assert_eq!(c.status_text, wide("请填写主账号和审批人的完整凭据"));
    c.set_string_value(FIELD_USER_A_NAME, wide("Alice"));
    c.set_string_value(FIELD_USER_A_PASS, wide("pw"));
    c.set_string_value(FIELD_USER_B_NAME, wide("Bob"));
    c.set_string_value(FIELD_USER_B_PASS, wide("pb"));
    match c.begin_serialization(false, "rdp-session-3") {
        SerializationStart::Ask(req) => {
            assert_eq!(req.user_a_username, "alice");
            assert_eq!(req.user_b_password, "pb");
            assert_eq!(req.logon_source, "rdp-session-3");
        }
        _ => panic!("expected a request"),
    }
    let end = c.finish_serialization(Ok(AuthResponse::FailUserB("wrong".to_string())));
    match end {
        SerializationEnd::Retry(m) => assert_eq!(m, "审批人验证失败：wrong"),
        _ => panic!("expected retry"),
    }
    let end = c.finish_serialization(Ok(AuthResponse::Success { canonical_username: "CORP\\alice".to_string() }));
    match end {
        SerializationEnd::Finished { logon_name, password } => {
            assert_eq!(logon_name, "CORP\\alice");
            assert_eq!(password, "pw");
        }
        _ => panic!("expected finished"),
    }
    // The approval is replayed until a failed logon is reported.
    match c.begin_serialization(false, "console") {
        SerializationStart::Cached { user, password } => {
            assert_eq!(user, "CORP\\alice");
            assert_eq!(password, "pw");
        }
        _ => panic!("expected cached"),
    }
    assert_eq!(c.report_result(-1073741715), Some("Windows 登录失败 (0xC000006D)".to_string()));
    assert!(!c.auth_success);
    assert!(matches!(c.begin_serialization(false, "console"), SerializationStart::Ask(_)));
}

#[test]
fn emergency_serialization_needs_reason_when_required() {
    let mut c = DualAuthCredentialCom::new(TileType::Emergency);
    c.set_string_value(FIELD_USER_A_NAME, wide("ops"));
    c.set_string_value(FIELD_USER_A_PASS, wide("pw"));
    c.set_string_value(FIELD_REASON, wide("   "));
    match c.begin_serialization(true, "console") {
        SerializationStart::Incomplete(m) => assert_eq!(m, "请填写应急登录原因"),
        _ => panic!("expected incomplete"),
    }
    c.set_string_value(FIELD_REASON, wide("  disk full "));
    match c.begin_serialization(true, "console") {
        SerializationStart::Ask(req) => {
            assert_eq!(req.mode, AuthMode::Emergency);
            assert_eq!(req.reason, "disk full");
        }
        _ => panic!("expected a request"),
    }
    let end = c.finish_serialization(Ok(AuthResponse::EmergencyDenied("no".to_string())));
    assert!(matches!(end, SerializationEnd::Retry(ref m) if m == "应急登录被拒绝：no"));
    let end = c.finish_serialization(Err(PipeClientError::IoError("broken".to_string())));
    assert!(matches!(end, SerializationEnd::Retry(ref m) if m == "认证服务通信失败：I/O error: broken"));
    let end = c.finish_serialization(Ok(AuthResponse::Success { canonical_username: "  ".to_string() }));
    assert!(matches!(end, SerializationEnd::Finished { ref logon_name, .. } if logon_name == "ops"));
}

#[test]
fn ntstatus_messages() {
    assert_eq!(map_ntstatus_logon_error(0xC0000064), "账号不存在，请检查用户名格式（域名\\用户名）");
    assert_eq!(map_ntstatus_logon_error(0xC0000224), "密码已过期或必须更改密码");
    assert_eq!(map_ntstatus_logon_error(0xC000006D), "Windows 登录失败 (0xC000006D)");
}

#[test]
fn lockout_minutes_round_up() {
    assert_eq!(lockout_minutes(0), 0);
    assert_eq!(lockout_minutes(60), 1);
    assert_eq!(lockout_minutes(61), 2);
    assert_eq!(lockout_minutes(u64::MAX), u64::MAX / 60 + 1);
    assert_eq!(locked_message(600), "失败次数过多，账号已锁定，请约 10 分钟后重试");
}

#[test]
fn logon_source_tags() {
    assert_eq!(logon_source_tag(2, true), "rdp-session-2");
    assert_eq!(logon_source_tag(1, false), "console");
}

#[test]
fn packing_names_and_packages() {
    let domain = || "CORP".to_string();
    assert_eq!(fully_qualified_user("alice", &domain), "CORP\\alice");
    assert_eq!(fully_qualified_user("alice@corp.com", &|| -> String { panic!("not asked") }), "alice@corp.com");
    assert_eq!(fully_qualified_user("alice", &|| String::new()), "alice");
    assert!(is_domain_account("a@b", &|| -> String { panic!("not asked") }));
    assert!(!is_domain_account("PC1\\a", &|| "pc1".to_string()));
    assert!(is_domain_account("CORP\\a", &|| "pc1".to_string()));
    assert!(!is_domain_account("\\a", &|| -> String { panic!("not asked") }));
    assert_eq!(select_auth_package(2, true, &|| 7, &|| 9), 7);
    assert_eq!(select_auth_package(2, true, &|| NO_PACKAGE, &|| 9), 9);
    assert_eq!(select_auth_package(1, true, &|| -> u32 { panic!("not asked") }, &|| 9), 9);
    assert_eq!(negotiate_package_choice(1, (0, 5), (0, 6)), 2);
    assert_eq!(negotiate_package_choice(0, (0, 5), (0, 6)), 5);
    assert_eq!(negotiate_package_choice(0, (-1, 5), (0, 6)), 6);
    assert_eq!(negotiate_package_choice(0, (-1, 5), (0, NO_PACKAGE)), 0);
    assert_eq!(kerberos_package_choice(0, (0, 4)), 4);
    assert_eq!(kerberos_package_choice(0, (3, 4)), NO_PACKAGE);
    assert_eq!(netbios_domain_choice(0, Some("HOT".to_string()), 3), "HOT");
    assert_eq!(netbios_domain_choice(0, Some("WORKGROUP".to_string()), 2), "");
}

#[test]
fn logon_id_patch() {
    let mut buf = vec![0u8; 70];
    patch_logon_id(&mut buf, Some(0x0102030405060708));
    assert_eq!(&buf[56..64], &[8, 7, 6, 5, 4, 3, 2, 1]);
    assert_eq!(buf[55], 0);
    assert_eq!(buf[64], 0);
    let mut small = vec![0u8; 60];
    patch_logon_id(&mut small, Some(1));
    assert_eq!(small, vec![0u8; 60]);
}

#[test]
fn interactive_sids() {
    // S-1-5-21-...: revision 1, 4 sub-authorities, authority 5, first 21.
    let sid = [1u8, 4, 0, 0, 0, 0, 0, 5, 21, 0, 0, 0, 9, 9, 9, 9];
    assert!(is_interactive_user_sid(&sid));
    let system = [1u8, 1, 0, 0, 0, 0, 0, 5, 18, 0, 0, 0];
    assert!(!is_interactive_user_sid(&system));
    let service = [1u8, 2, 0, 0, 0, 0, 0, 5, 80, 0, 0, 0, 1, 0, 0, 0];
    assert!(!is_interactive_user_sid(&service));
}

// ─── pipe_client ─────────────────────────────────────────────────

#[test]
fn request_frames_and_reply_lengths() {
    let frame = request_frame(b"hello");
    assert_eq!(frame, vec![5, 0, 0, 0, b'h', b'e', b'l', b'l', b'o']);
    assert_eq!(response_length(&[0x40, 0x42, 0x0F, 0x00]), Ok(1_000_000));
    assert_eq!(
        response_length(&[0x41, 0x42, 0x0F, 0x00]),
        Err(PipeClientError::InvalidResponse("Response too large".to_string()))
    );
}

#[test]
fn connection_attempts() {
    assert_eq!(after_failed_attempt(0, "x"), ConnectStep::Retry);
    assert_eq!(after_failed_attempt(1, "x"), ConnectStep::Retry);
    assert_eq!(
        after_failed_attempt(2, "CreateFileW failed"),
        ConnectStep::GiveUp(PipeClientError::ConnectionError(
            "Failed to connect after 3 attempts: CreateFileW failed".to_string()
        ))
    );
    assert_eq!(PipeClientError::Timeout.message(), "Timeout");
}

// ─── provider_com ────────────────────────────────────────────────

#[test]
fn provider_scenarios_and_tiles() {
    let mut p = DualAuthProviderCom::new();
    assert_eq!(p.set_usage_scenario(3, false), -2147467263);
    assert_eq!(p.set_usage_scenario(CPUS_LOGON, true), S_OK);
    assert_eq!(p.credential_count(), (2, u32::MAX, 0));
    assert_eq!(p.set_usage_scenario(2, true), S_OK);
    assert_eq!(p.credential_count(), (0, u32::MAX, 0));
    assert_eq!(p.query_interface(IID_ICREDENTIAL_PROVIDER_SET_USER_ARRAY), ProviderAnswer::SetUserArray);
    assert_eq!(p.ref_count, 2);
    assert_eq!(field_descriptor(3), Ok((5, "审批人密码")));
    assert_eq!(field_descriptor(7), Err(E_INVALIDARG));
    assert_eq!(credential_tile(1), Ok(TileType::Emergency));
    assert_eq!(credential_tile(2), Err(E_INVALIDARG));
}

#[test]
fn filter_keeps_a_way_in() {
    let other = 0x60b78e88_ead8_445c_9cfd_0b87f74ea6cdu128;
    let ids = [other, CLSID_DUAL_AUTH_PROVIDER];
    assert_eq!(filter_providers(1, false, Ok(Some(false)), &ids), Ok(vec![false, true]));
    assert_eq!(filter_providers(1, false, Ok(Some(true)), &ids), Ok(vec![true, true]));
    assert_eq!(filter_providers(1, false, Ok(None), &ids), Ok(vec![true, true]));
    assert_eq!(filter_providers(1, false, Err("x".to_string()), &ids), Ok(vec![true, true]));
    assert_eq!(filter_providers(2, true, Ok(Some(false)), &ids), Ok(vec![true, true]));
    assert_eq!(filter_providers(4, false, Ok(Some(false)), &ids), Err(-2147467263));
    assert_eq!(default_tile_from_registry(true, Some(1)), Some(true));
    assert_eq!(default_tile_from_registry(false, Some(1)), None);
    assert!(requires_reason_from_registry(false, None));
    assert!(!requires_reason_from_registry(true, Some(0)));
}

#[test]
fn unload_only_after_every_lock_is_released() {
    let mut locks = ServerLocks::new();
    for _ in 0..3 {
        locks.lock_server(true);
    }
    locks.lock_server(false);
    locks.lock_server(false);
    assert!(!can_unload_now(&locks));
    locks.lock_server(false);
    assert!(can_unload_now(&locks));
    assert_eq!(locks.count, 0);
}

#[test]
fn server_locks_and_class_objects() {
    let mut locks = ServerLocks::new();
    assert!(can_unload_now(&locks));
    locks.lock_server(true);
    assert_eq!(dll_can_unload_now(&locks), 1);
    locks.lock_server(false);
    assert_eq!(dll_can_unload_now(&locks), 0);
    locks.lock_server(false);
    assert_eq!(locks.count, u32::MAX);
    assert_eq!(class_available(CLSID_DUAL_AUTH_PROVIDER), Ok(()));
    assert_eq!(class_available(1), Err(-2147467262));
}
