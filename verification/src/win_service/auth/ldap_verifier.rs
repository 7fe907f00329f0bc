//! LDAP-style checks of a logon name and password, and the distinguished
//! name of an account.
use vstd::prelude::*;
use crate::text::{contains_char, replace_char, replace_char_str, split_char, split_on};
use crate::win_service::auth::{AuthError, AuthErrorView};

verus! {

/// LDAP authentication helper.
#[derive(Debug, Clone)]
pub struct LdapVerifier {
    dc_address: Option<String>,
    admin_dn: Option<String>,
}

impl Default for LdapVerifier {
    fn default() -> (v: Self)
        ensures
            v.dc_address_view() is None,
            v.admin_dn_view() is None,
    {
        LdapVerifier { dc_address: None, admin_dn: None }
    }
}

/// `DC=a,DC=b,...` for the labels of a domain name.
pub open spec fn dc_components(parts: Seq<Seq<char>>) -> Seq<char>
    decreases parts.len(),
{
    if parts.len() == 0 {
        Seq::empty()
    } else if parts.len() == 1 {
        "DC="@ + parts[0]
    } else {
        dc_components(parts.drop_last()) + ",DC="@ + parts.last()
    }
}

/// The DN of `username` in `domain`: `CN={user},DC=..` for a dotted domain
/// (an `@` in the name becoming a comma), else `CN={user}@{domain}`.
pub open spec fn distinguished_name(username: Seq<char>, domain: Seq<char>) -> Seq<char> {
    let parts = split_on(domain, '.');
    if parts.len() > 1 {
        "CN="@ + replace_char(username, '@', ',') + ","@ + dc_components(parts)
    } else {
        "CN="@ + username + "@"@ + domain
    }
}

fn join_dc_components(parts: &Vec<String>) -> (s: String)
    ensures
        s@ == dc_components(parts@.map_values(|p: String| p@)),
{
    let ghost pv = parts@.map_values(|p: String| p@);
    let mut s = String::new();
    let mut i: usize = 0;
    while i < parts.len()
        invariant
            i <= parts.len(),
            pv == parts@.map_values(|p: String| p@),
            s@ == dc_components(pv.take(i as int)),
        decreases parts.len() - i,
    {
        proof {
            assert(pv.take(i + 1).drop_last() =~= pv.take(i as int));
            assert(pv.take(i + 1).last() == parts@[i as int]@);
            if i == 0 {
                assert(pv.take(1)[0] == parts@[0]@);
            }
        }
        if i == 0 {
            s = String::from_str("DC=").concat(parts[i].as_str());
        } else {
            s = s.concat(",DC=").concat(parts[i].as_str());
        }
        i = i + 1;
    }
    proof {
        assert(pv.take(parts.len() as int) =~= pv);
    }
    s
}

impl LdapVerifier {
    pub closed spec fn dc_address_view(&self) -> Option<String> {
        self.dc_address
    }

    pub closed spec fn admin_dn_view(&self) -> Option<String> {
        self.admin_dn
    }

    /// A verifier with no domain controller configured.
    pub fn new() -> (v: Self)
        ensures
            v.dc_address_view() is None,
            v.admin_dn_view() is None,
    {
        Self::default()
    }

    /// The verifier configured with a domain controller and admin DN.
    pub fn with_config(self, dc_address: &str, admin_dn: &str) -> (v: Self)
        ensures
            v.dc_address_view() matches Some(d) && d@ == dc_address@,
            v.admin_dn_view() matches Some(a) && a@ == admin_dn@,
    {
        let mut v = self;
        v.dc_address = Some(String::from_str(dc_address));
        v.admin_dn = Some(String::from_str(admin_dn));
        v
    }

    /// Simple bind check: the name must carry a domain (`@` or `\`) and the
    /// password must not be empty.
    pub fn simple_bind(&self, username: &str, password: &str) -> (r: Result<(), AuthError>)
        ensures
            !username@.contains('@') && !username@.contains('\\') ==> (r matches Err(e)
                && e@ == AuthErrorView::InvalidCredentials("Invalid username format"@)),
            (username@.contains('@') || username@.contains('\\')) && password@.len() == 0 ==> (r matches Err(e)
                && e@ == AuthErrorView::InvalidCredentials("Empty password"@)),
            (username@.contains('@') || username@.contains('\\')) && password@.len() != 0 ==> r is Ok,
    {
        if !contains_char(username, '@') && !contains_char(username, '\\') {
            return Err(AuthError::InvalidCredentials(String::from_str("Invalid username format")));
        }
        if password.is_empty() {
            return Err(AuthError::InvalidCredentials(String::from_str("Empty password")));
        }
        Ok(())
    }

    /// The distinguished name of `username` in `domain`.
    pub fn get_user_dn(&self, username: &str, domain: &str) -> (dn: String)
        ensures
            dn@ == distinguished_name(username@, domain@),
    {
        let parts = split_char(domain, '.');
        if parts.len() > 1 {
            let dcs = join_dc_components(&parts);
            String::from_str("CN=").concat(replace_char_str(username, '@', ',').as_str()).concat(",").concat(
                dcs.as_str(),
            )
        } else {
            String::from_str("CN=").concat(username).concat("@").concat(domain)
        }
    }
}

} // verus!
