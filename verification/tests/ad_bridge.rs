use std::cell::RefCell;

use winsla::ad_bridge::ldap::{
    bind_outcome, connect_failure, ldap_url, LdapAuthClient, LdapAuthError, LdapConfig,
};
use winsla::ad_bridge::{DomainAuthClient, DomainConfig};

fn never(_dc: &str, _u: &str, _p: &str) -> Result<(), LdapAuthError> {
    panic!("no domain controller should be contacted")
}

#[test]
fn test_build_user_dn_with_domain_backslash() {
    let config = LdapConfig::new(vec![], "DC=example,DC=com".to_string());
    let client = LdapAuthClient::new(config);

    let dn = client.get_user_dn("DOMAIN\\admin");
    assert_eq!(dn, "CN=admin,DC=example,DC=com");
}

#[test]
fn test_build_user_dn_with_email_format() {
    let config = LdapConfig::new(vec![], "DC=example,DC=com".to_string());
    let client = LdapAuthClient::new(config);

    let dn = client.get_user_dn("admin@example.com");
    assert_eq!(dn, "CN=admin,DC=example,DC=com");
}

#[test]
fn test_build_user_dn_simple_username() {
    let config = LdapConfig::new(vec![], "DC=test,DC=local".to_string());
    let client = LdapAuthClient::new(config);

    let dn = client.get_user_dn("johndoe");
    assert_eq!(dn, "CN=johndoe,DC=test,DC=local");
}

#[test]
fn ldap_test_empty_credentials_rejected() {
    let config = LdapConfig::new(vec!["dc1.example.com".to_string()], "DC=example,DC=com".to_string());
    let client = LdapAuthClient::new(config);

    let result = client.verify_credentials("", "password", &never);
    assert!(result.is_err());

    let result = client.verify_credentials("user", "", &never);
    assert!(result.is_err());
}

#[test]
fn test_no_dc_configured() {
    let config = LdapConfig::new(vec![], "DC=example,DC=com".to_string());
    let client = LdapAuthClient::new(config);

    let result = client.verify_credentials("user", "pass", &never);
    assert!(matches!(result, Err(LdapAuthError::Config(_))));
}

#[test]
fn test_domain_config_creation() {
    let config = DomainConfig {
        dc_addresses: vec!["dc1.example.com".to_string()],
        base_dn: "DC=example,DC=com".to_string(),
    };
    assert_eq!(config.dc_addresses.len(), 1);
}

#[test]
fn test_ldap_config_creation() {
    let config = LdapConfig::new(vec!["dc1.example.com".to_string()], "DC=example,DC=com".to_string());
    assert_eq!(config.dc_addresses.len(), 1);
    assert_eq!(config.base_dn, "DC=example,DC=com");
}

#[test]
fn tries_controllers_until_one_accepts() {
    let config = LdapConfig::new(
        vec!["dc1".to_string(), "dc2".to_string(), "dc3".to_string()],
        "DC=x".to_string(),
    );
    let client = LdapAuthClient::new(config);
    let tried = RefCell::new(Vec::new());
    let attempt = |dc: &str, u: &str, p: &str| -> Result<(), LdapAuthError> {
        assert_eq!((u, p), ("alice", "pw"));
        tried.borrow_mut().push(dc.to_string());
        if dc == "dc2" {
            Ok(())
        } else {
            Err(LdapAuthError::Connection(format!("down {}", dc)))
        }
    };
    assert_eq!(client.verify_credentials("alice", "pw", &attempt), Ok(()));
    assert_eq!(*tried.borrow(), vec!["dc1".to_string(), "dc2".to_string()]);
}

#[test]
fn all_controllers_failing_gives_the_last_error() {
    let config = LdapConfig::new(vec!["dc1".to_string(), "dc2".to_string()], "DC=x".to_string());
    let client = LdapAuthClient::new(config);
    let attempt = |dc: &str, _u: &str, _p: &str| -> Result<(), LdapAuthError> {
        Err(LdapAuthError::Connection(dc.to_string()))
    };
    assert_eq!(
        client.verify_credentials("alice", "pw", &attempt),
        Err(LdapAuthError::Connection("dc2".to_string()))
    );
}

#[test]
fn domain_client_maps_invalid_credentials_to_false() {
    let client = DomainAuthClient::new(DomainConfig {
        dc_addresses: vec!["dc1".to_string()],
        base_dn: "DC=example,DC=com".to_string(),
    });
    assert_eq!(client.get_base_dn(), "DC=example,DC=com");
    let ok = |_d: &str, _u: &str, _p: &str| -> Result<(), LdapAuthError> { Ok(()) };
    assert_eq!(client.verify_credentials("a", "b", &ok), Ok(true));
    let invalid = |_d: &str, _u: &str, _p: &str| -> Result<(), LdapAuthError> {
        Err(LdapAuthError::InvalidCredentials("x".to_string()))
    };
    assert_eq!(client.verify_credentials("a", "b", &invalid), Ok(false));
    let down = |_d: &str, _u: &str, _p: &str| -> Result<(), LdapAuthError> {
        Err(LdapAuthError::Connection("x".to_string()))
    };
    assert_eq!(client.verify_credentials("a", "b", &down), Err(LdapAuthError::Connection("x".to_string())));
    let empty = DomainAuthClient::new(DomainConfig::default());
    assert!(matches!(empty.verify_credentials("a", "b", &never), Err(LdapAuthError::Config(_))));
}

#[test]
fn bind_results() {
    assert_eq!(bind_outcome(0, "", "alice"), Ok(()));
    assert_eq!(
        bind_outcome(49, "", "alice"),
        Err(LdapAuthError::InvalidCredentials("Invalid credentials for user: alice".to_string()))
    );
    assert_eq!(
        bind_outcome(50, "no \"access\"", "alice"),
        Err(LdapAuthError::Authentication(
            "LDAP bind failed with code 50: \"no \\\"access\\\"\"".to_string()
        ))
    );
    assert_eq!(ldap_url("dc1.example.com"), "ldap://dc1.example.com");
    assert_eq!(
        connect_failure("dc1", "refused"),
        LdapAuthError::Connection("Cannot connect to dc1: refused".to_string())
    );
    assert_eq!(
        LdapAuthError::Config("No domain controllers configured".to_string()).message(),
        "Configuration error: No domain controllers configured"
    );
}
