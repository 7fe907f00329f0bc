//! Active Directory authentication over LDAP, shared by the service and
//! the management application.
use vstd::prelude::*;

pub mod ldap;

verus! {

} // verus!

verus! {

/// Configuration for domain connectivity.
#[derive(Debug, Clone)]
pub struct DomainConfig {
    pub dc_addresses: Vec<String>,
    pub base_dn: String,
}

impl Default for DomainConfig {
    fn default() -> (c: Self)
        ensures
            c.dc_addresses@.len() == 0,
            c.base_dn@ == Seq::<char>::empty(),
    {
        DomainConfig { dc_addresses: Vec::new(), base_dn: String::new() }
    }
}

/// High-level domain authentication client.
pub struct DomainAuthClient {
    config: DomainConfig,
    ldap_client: ldap::LdapAuthClient,
}

impl DomainAuthClient {
    pub closed spec fn config_view(&self) -> DomainConfig {
        self.config
    }

    pub closed spec fn ldap_view(&self) -> ldap::LdapAuthClient {
        self.ldap_client
    }

    /// A client whose LDAP side uses the same domain controllers and base DN.
    pub fn new(config: DomainConfig) -> (c: DomainAuthClient)
        ensures
            c.config_view() == config,
            c.ldap_view().config_view().dc_addresses@ == config.dc_addresses@,
            c.ldap_view().config_view().base_dn@ == config.base_dn@,
    {
        let ldap_config = ldap::LdapConfig::new(config.dc_addresses.clone(), config.base_dn.clone());
        proof {
            assert(ldap_config.dc_addresses@ =~= config.dc_addresses@);
        }
        let ldap_client = ldap::LdapAuthClient::new(ldap_config);
        DomainAuthClient { config, ldap_client }
    }

    /// Verifies credentials: `true` when accepted, `false` when the
    /// credentials are invalid, and any other LDAP error as the error.
    pub fn verify_credentials<F: Fn(&str, &str, &str) -> Result<(), ldap::LdapAuthError>>(
        &self,
        username: &str,
        password: &str,
        verify_dc: &F,
    ) -> (r: Result<bool, ldap::LdapAuthError>)
        requires
            forall|d: &str, u: &str, p: &str| #[trigger] verify_dc.requires((d, u, p)),
        ensures
            exists|v: Result<(), ldap::LdapAuthError>|
                ldap::verify_credentials_ensures(self.ldap_view(), username@, password@, *verify_dc, v) && match v {
                    Ok(()) => r == Ok::<bool, ldap::LdapAuthError>(true),
                    Err(ldap::LdapAuthError::InvalidCredentials(_)) => r == Ok::<bool, ldap::LdapAuthError>(false),
                    Err(e) => r == Err::<bool, ldap::LdapAuthError>(e),
                },
    {
        let v = self.ldap_client.verify_credentials(username, password, verify_dc);
        let ghost gv = v;
        assert(ldap::verify_credentials_ensures(self.ldap_view(), username@, password@, *verify_dc, gv));
        match v {
            Ok(()) => Ok(true),
            Err(ldap::LdapAuthError::InvalidCredentials(_)) => Ok(false),
            Err(e) => Err(e),
        }
    }

    /// The base DN.
    pub fn get_base_dn(&self) -> (s: &str)
        ensures
            s@ == self.config_view().base_dn@,
    {
        self.config.base_dn.as_str()
    }
}

} // verus!
