use winsla::management::commands::{
    add_dual_pair, get_audit_log, get_dual_pairs, remove_dual_pair, reports_running, start_service, stop_service,
};
use winsla::management::database::{DualPairRecord, EmergencyAccount, PolicyConfig};
use winsla::management::frontend::{frontend_path, frontend_reply, Assets, FrontendReply};
use winsla::management::server::{
    auto_start_from_query, default_limit, plan_pair_added, plan_pair_deleted, remaining_after_delete,
    service_config_result, service_restart_result, service_start_result, service_stop_result, start_type_argument,
    validation_response, ValidationOutcome,
};
use winsla::management::wincred::{account_full_name, display_name, logon_failure_message, parse_username};
use winsla::management::{menu_choice, AppConfig, MenuChoice};

#[test]
fn policy_defaults_and_round_trip() {
    let d = PolicyConfig::default();
    assert_eq!(d.max_retry_count, 3);
    assert_eq!(d.auth_timeout_secs, 30);
    assert!(d.default_tile_enabled);
    let config = PolicyConfig {
        max_retry_count: 5,
        auth_timeout_secs: 60,
        allow_emergency_override: false,
        emergency_requires_reason: true,
        offline_cache_enabled: false,
        default_tile_enabled: false,
    };
    let rows = config.to_rows();
    assert_eq!(rows[1], ("auth_timeout_secs".to_string(), "60".to_string()));
    let loaded = PolicyConfig::from_rows(&rows);
    assert_eq!(loaded, config);
}

#[test]
fn policy_rows_fall_back_to_defaults() {
    let rows = vec![
        ("max_retry_count".to_string(), "many".to_string()),
        ("auth_timeout_secs".to_string(), "+45".to_string()),
        ("offline_cache_enabled".to_string(), "TRUE".to_string()),
        ("unknown".to_string(), "1".to_string()),
    ];
    let p = PolicyConfig::from_rows(&rows);
    assert_eq!(p.max_retry_count, 3);
    assert_eq!(p.auth_timeout_secs, 45);
    assert!(!p.offline_cache_enabled);
}

#[test]
fn records_are_created_enabled() {
    let pair = DualPairRecord::create("S-1-5-21-user-a", "S-1-5-21-user-b", "Alice", "Bob");
    assert_eq!(pair.user_a_name, "Alice");
    assert_eq!(pair.user_b_name, "Bob");
    assert!(pair.enabled);
    assert_eq!(pair.id.len(), 36);
    assert_eq!(pair.created_at, pair.updated_at);
    let account = EmergencyAccount::create("S-1-5-admin", "admin", "System maintenance", "CTO");
    assert_eq!(account.username, "admin");
    assert_eq!(account.reason, "System maintenance");
    assert!(account.expires_at.is_none());
}

#[test]
fn ids_are_version_4_uuids_and_times_rfc3339() {
    let pair = DualPairRecord::create("S-a", "S-b", "a", "b");
    let id: Vec<char> = pair.id.chars().collect();
    assert_eq!(id.len(), 36);
    assert_eq!((id[8], id[13], id[18], id[23]), ('-', '-', '-', '-'));
    assert_eq!(id[14], '4');
    assert!(matches!(id[19], '8' | '9' | 'a' | 'b'));
    assert!(id.iter().all(|c| *c == '-' || c.is_ascii_digit() || ('a'..='f').contains(c)));
    assert!(pair.created_at.ends_with("+00:00"));
    let t: Vec<char> = pair.created_at.chars().collect();
    assert_eq!((t[4], t[7], t[10], t[13], t[16]), ('-', '-', 'T', ':', ':'));
    let account = EmergencyAccount::create("S-1", "ops", "why", "CTO");
    assert_eq!(account.id.len(), 36);
    assert_ne!(account.id, pair.id);
    assert!(account.activated_at.ends_with("+00:00"));
    let local = add_dual_pair("S-a", "S-b").unwrap();
    assert_eq!(local.id.chars().nth(14), Some('4'));
    let lt: Vec<char> = local.created_at.chars().collect();
    assert_eq!(lt[10], 'T');
    assert_eq!(lt[lt.len() - 3], ':');
    assert!(matches!(lt[lt.len() - 6], '+' | '-'));
}

#[test]
fn commands_acknowledge() {
    assert_eq!(start_service(), Ok(true));
    assert_eq!(stop_service(), Ok(true));
    assert!(get_dual_pairs().unwrap().is_empty());
    assert!(get_audit_log(20).unwrap().is_empty());
    assert_eq!(remove_dual_pair("x"), Ok(true));
    let pair = add_dual_pair("S-a", "S-b").unwrap();
    assert_eq!(pair.account_sid, "S-a");
    assert!(pair.account_username.is_empty() && pair.enabled);
    assert!(reports_running("STATE : 4 RUNNING"));
    assert!(!reports_running("STATE : 1 STOPPED"));
}

#[test]
fn first_pair_disables_default_tile_and_last_restores_it() {
    let policy = PolicyConfig::default();
    let plan = plan_pair_added(0, policy, false);
    assert!(plan.auto_disabled_default_tile);
    assert!(!plan.policy.default_tile_enabled);
    assert!(plan.save_policy && plan.write_registry && plan.should_configure_emergency);
    let later = plan_pair_added(1, policy, true);
    assert!(!later.save_policy && !later.write_registry && later.policy.default_tile_enabled);
    let ids = vec!["a".to_string(), "b".to_string()];
    assert_eq!(remaining_after_delete(&ids, "a"), 1);
    assert_eq!(remaining_after_delete(&ids, "z"), 2);
    let restored = plan_pair_deleted(0, plan.policy).unwrap();
    assert!(restored.default_tile_enabled);
    assert_eq!(plan_pair_deleted(1, plan.policy), None);
    assert_eq!(default_limit(), 50);
}

#[test]
fn service_control_outputs() {
    let r = service_start_result(Ok("  started \n".to_string()));
    assert!(r.success && r.message == "started");
    let r = service_start_result(Err("The requested service has already been started.".to_string()));
    assert!(r.success && r.message == "服务已在运行中");
    let r = service_stop_result(Err("服务尚未启动。".to_string()));
    assert!(r.success && r.message == "服务未在运行");
    let r = service_stop_result(Err("access denied".to_string()));
    assert!(!r.success && r.message == "access denied");
    let r = service_restart_result(Ok(" ok ".to_string()));
    assert_eq!(r.message, "服务已重启\nok");
    assert!(auto_start_from_query(Ok("START_TYPE : 2 AUTO_START".to_string())));
    assert!(!auto_start_from_query(Err("x".to_string())));
    assert_eq!(start_type_argument(false), "start= demand");
    assert_eq!(service_config_result(true, Ok(String::new())).message, "已设置为开机自动启动");
}

#[test]
fn validation_answers() {
    let r = validation_response(ValidationOutcome::Resolved("S-1".to_string(), "CORP\\a".to_string()));
    assert!(r.success);
    assert_eq!(r.message, "验证成功: CORP\\a");
    let r = validation_response(ValidationOutcome::TimedOut);
    assert!(!r.success && r.sid.is_empty());
    assert_eq!(r.message, "验证超时：无法连接域控制器（30秒）");
}

#[test]
fn account_names() {
    assert_eq!(parse_username("CORP\\alice"), ("CORP".to_string(), "alice".to_string()));
    assert_eq!(parse_username("alice@corp.com"), ("corp.com".to_string(), "alice".to_string()));
    assert_eq!(parse_username("alice"), (String::new(), "alice".to_string()));
    assert_eq!(logon_failure_message(1909), "Account is locked out");
    assert_eq!(logon_failure_message(5), "Logon failed (error 5)");
    assert_eq!(account_full_name("", "bob"), "bob");
    let buf: Vec<u16> = "CORP\0\0".encode_utf16().collect();
    assert_eq!(display_name(&buf, 5, "corp.com", "alice"), "CORP\\alice");
    assert_eq!(display_name(&buf, 0, "", "alice"), "alice");
}

#[test]
fn frontend_files() {
    assert_eq!(frontend_path("//"), "index.html");
    assert_eq!(frontend_path("/assets/app.js"), "assets/app.js");
    let assets = Assets {
        files: vec![
            ("index.html".to_string(), b"<html></html>".to_vec()),
            ("assets/app.js".to_string(), b"x".to_vec()),
        ],
    };
    assert_eq!(
        frontend_reply(&assets, "/assets/app.js"),
        FrontendReply::File { mime: "text/javascript".to_string(), data: b"x".to_vec() }
    );
    assert_eq!(frontend_reply(&assets, "/pairs"), FrontendReply::IndexHtml(b"<html></html>".to_vec()));
    assert_eq!(frontend_reply(&Assets { files: vec![] }, "/"), FrontendReply::NotFound);
}

#[test]
fn app_config_and_menu() {
    let c = AppConfig::default();
    assert_eq!(c.service_name, "WinSLA Service");
    assert_eq!(c.pipe_path, "\\\\.\\pipe\\winsla-auth-pipe");
    assert_eq!(menu_choice(" 3\n"), MenuChoice::AddPair);
    assert_eq!(menu_choice("q"), MenuChoice::Exit);
    assert_eq!(menu_choice("9"), MenuChoice::Invalid);
}
