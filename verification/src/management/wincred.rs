//! Validating an account's credentials and naming it: how the typed name is
//! split, what a logon failure says, and the names that are looked up and
//! shown. The Windows calls (LogonUserW, LookupAccountNameW) run outside.
use vstd::prelude::*;
use crate::text::{decimal, find_first, u32_to_decimal, utf16_decode_lossy};

verus! {

/// `(domain, user)` of a typed name: `DOMAIN\user` splits at the first
/// backslash, `user@domain` at the first `@`, a bare name has no domain.
pub open spec fn username_parts(input: Seq<char>) -> (Seq<char>, Seq<char>) {
    let b = find_first(input, '\\');
    let a = find_first(input, '@');
    if b >= 0 {
        (input.take(b), input.skip(b + 1))
    } else if a >= 0 {
        (input.skip(a + 1), input.take(a))
    } else {
        (Seq::empty(), input)
    }
}

/// Splits a typed name into `(domain, user)`.
pub fn parse_username(input: &str) -> (r: (String, String))
    ensures
        (r.0@, r.1@) == username_parts(input@),
{
    let v = crate::text::chars_of(input);
    proof {
        crate::text::lemma_find_first(v@, '\\');
        crate::text::lemma_find_first(v@, '@');
    }
    match crate::text::find_char(&v, '\\') {
        Some(pos) => {
            let domain = crate::text::slice_string(&v, 0, pos);
            let user = crate::text::slice_string(&v, pos + 1, v.len());
            proof {
                assert(v@.subrange(0, pos as int) =~= v@.take(pos as int));
                assert(v@.subrange(pos + 1, v.len() as int) =~= v@.skip(pos + 1));
            }
            (domain, user)
        },
        None => match crate::text::find_char(&v, '@') {
            Some(pos) => {
                let user = crate::text::slice_string(&v, 0, pos);
                let domain = crate::text::slice_string(&v, pos + 1, v.len());
                proof {
                    assert(v@.subrange(0, pos as int) =~= v@.take(pos as int));
                    assert(v@.subrange(pos + 1, v.len() as int) =~= v@.skip(pos + 1));
                }
                (domain, user)
            },
            None => (String::new(), String::from_str(input)),
        },
    }
}

/// The message for a LogonUserW failure code.
pub open spec fn logon_failure_text(code: u32) -> Seq<char> {
    if code == 1326 {
        "Logon failure: unknown user name or bad password"@
    } else if code == 1331 {
        "Account is disabled"@
    } else if code == 1909 {
        "Account is locked out"@
    } else if code == 1327 {
        "Account restriction prevents logon"@
    } else {
        "Logon failed (error "@ + decimal(code as nat) + ")"@
    }
}

/// The message for a LogonUserW failure code.
pub fn logon_failure_message(code: u32) -> (s: String)
    ensures
        s@ == logon_failure_text(code),
{
    if code == 1326 {
        String::from_str("Logon failure: unknown user name or bad password")
    } else if code == 1331 {
        String::from_str("Account is disabled")
    } else if code == 1909 {
        String::from_str("Account is locked out")
    } else if code == 1327 {
        String::from_str("Account restriction prevents logon")
    } else {
        String::from_str("Logon failed (error ").concat(u32_to_decimal(code).as_str()).concat(")")
    }
}

/// `domain\user`, or the bare user when there is no domain.
pub open spec fn qualified_name(domain: Seq<char>, user: Seq<char>) -> Seq<char> {
    if domain.len() == 0 {
        user
    } else {
        domain + "\\"@ + user
    }
}

/// The name whose SID is looked up.
pub fn account_full_name(domain: &str, user: &str) -> (s: String)
    ensures
        s@ == qualified_name(domain@, user@),
{
    if domain.is_empty() {
        String::from_str(user)
    } else {
        String::from_str(domain).concat("\\").concat(user)
    }
}

/// The domain LookupAccountNameW resolved (its buffer holds `domain_size`
/// units including the NUL), or the typed domain when none came back.
pub open spec fn resolved_domain(domain_buf: Seq<u16>, domain_size: u32, typed: Seq<char>) -> Seq<char> {
    if domain_size > 1 {
        utf16_decode_lossy(domain_buf.take(domain_size - 1))
    } else {
        typed
    }
}

/// The name shown for a validated account: the resolved domain and the user.
pub fn display_name(domain_buf: &[u16], domain_size: u32, typed_domain: &str, user: &str) -> (s: String)
    requires
        domain_size as int - 1 <= domain_buf.len(),
    ensures
        s@ == qualified_name(resolved_domain(domain_buf@, domain_size, typed_domain@), user@),
{
    let domain = if domain_size > 1 {
        crate::text::utf16_to_string_lossy(&domain_buf[0..(domain_size - 1) as usize])
    } else {
        String::from_str(typed_domain)
    };
    proof {
        if domain_size > 1 {
            assert(domain_buf@.subrange(0, domain_size - 1) =~= domain_buf@.take(domain_size - 1));
        }
    }
    account_full_name(domain.as_str(), user)
}

} // verus!
