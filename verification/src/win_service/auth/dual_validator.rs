//! Dual account verification: pairing rules, name forms and result mapping.
use vstd::prelude::*;
use crate::text::{
    chars_of, find_char, find_first, lemma_find_first, lowercase, to_lowercase, slice_string,
    same_text, string_of, trim, trim_str, is_blank, all_ws, decimal, u32_to_decimal, contains_char,
};
use crate::win_service::auth::{AuthError, AuthErrorView, auth_error_text};

verus! {

/// The account name without its domain part, lower-cased:
/// "HOT\ylw" / "ylw@hot.local" / "ylw" all give "ylw".
pub open spec fn bare_username(s: Seq<char>) -> Seq<char> {
    let b = find_first(s, '\\');
    let a = find_first(s, '@');
    if b >= 0 {
        lowercase(s.subrange(b + 1, s.len() as int))
    } else if a >= 0 {
        lowercase(s.take(a))
    } else {
        lowercase(s)
    }
}

/// Extract bare username from various formats: "HOT\ylw" / "ylw@hot.local" / "ylw" → "ylw"
pub fn extract_bare_username(input: &str) -> (r: String)
    ensures
        r@ == bare_username(input@),
{
    let v = chars_of(input);
    proof {
        lemma_find_first(v@, '\\');
        lemma_find_first(v@, '@');
    }
    match find_char(&v, '\\') {
        Some(pos) => {
            assert(pos < v.len());
            let rest = slice_string(&v, pos + 1, v.len());
            to_lowercase(rest.as_str())
        },
        None => match find_char(&v, '@') {
            Some(pos) => {
                let head = slice_string(&v, 0, pos);
                proof {
                    assert(v@.subrange(0, pos as int) =~= v@.take(pos as int));
                }
                to_lowercase(head.as_str())
            },
            None => to_lowercase(input),
        },
    }
}

/// The user-facing text for a Win32 logon error code.
pub open spec fn logon_error_text(code: u32) -> Seq<char> {
    if code == 1326 {
        "用户名或密码错误"@
    } else if code == 1327 {
        "账号受限：不允许空密码登录"@
    } else if code == 1331 {
        "账号已被禁用"@
    } else if code == 1907 {
        "密码已过期，必须先更改密码"@
    } else if code == 1909 {
        "账号已被域策略锁定"@
    } else if code == 1385 {
        "该账号没有网络登录权限"@
    } else if code == 1355 {
        "域控制器不可用或域名无效"@
    } else {
        "凭据验证失败 (错误码 "@ + decimal(code as nat) + ")"@
    }
}

/// Map common Win32 logon error codes to user-facing Chinese messages
pub fn map_logon_error(win32_code: u32) -> (s: String)
    ensures
        s@ == logon_error_text(win32_code),
{
    if win32_code == 1326 {
        String::from_str("用户名或密码错误")
    } else if win32_code == 1327 {
        String::from_str("账号受限：不允许空密码登录")
    } else if win32_code == 1331 {
        String::from_str("账号已被禁用")
    } else if win32_code == 1907 {
        String::from_str("密码已过期，必须先更改密码")
    } else if win32_code == 1909 {
        String::from_str("账号已被域策略锁定")
    } else if win32_code == 1385 {
        String::from_str("该账号没有网络登录权限")
    } else if win32_code == 1355 {
        String::from_str("域控制器不可用或域名无效")
    } else {
        let d = u32_to_decimal(win32_code);
        String::from_str("凭据验证失败 (错误码 ").concat(d.as_str()).concat(")")
    }
}

/// The error for a failed `LogonUserW` whose HRESULT is `hr`: the Win32
/// code is the low 16 bits.
pub fn logon_failure(hr: u32) -> (e: AuthError)
    ensures
        e matches AuthError::InvalidCredentials(m) && m@ == logon_error_text(hr % 65536),
{
    AuthError::InvalidCredentials(map_logon_error(hr % 65536))
}

/// `verify_password_windows` refuses an empty account name (after trimming)
/// or an empty password before calling Windows.
pub fn check_logon_input(username: &str, password: &str) -> (r: Result<(), AuthError>)
    ensures
        r is Err <==> (all_ws(username@) || password@.len() == 0),
        r matches Err(e) ==> (e matches AuthError::InvalidCredentials(m) && m@ == "用户名或密码为空"@),
{
    if is_blank(username) || password.is_empty() {
        Err(AuthError::InvalidCredentials(String::from_str("用户名或密码为空")))
    } else {
        Ok(())
    }
}

} // verus!

verus! {

/// An enabled pairing rule as the shared database holds it:
/// (account SID, approver SID, account username, approver username).
pub type PairRow = (String, String, String, String);

/// Some rule pairs `account` (as the account) with `approver` (as the
/// approver), comparing bare lower-case names.
pub open spec fn pair_matches(pairs: Seq<PairRow>, account: Seq<char>, approver: Seq<char>) -> bool {
    exists|i: int|
        0 <= i < pairs.len() && bare_username(#[trigger] pairs[i].2@) == bare_username(account)
            && bare_username(pairs[i].3@) == bare_username(approver)
}

/// The pairing decision for a login of `account` approved by `approver`,
/// given what reading the enabled rules gave.
pub open spec fn pairing_decision(rules: Result<Seq<PairRow>, ()>, account: Seq<char>, approver: Seq<char>) -> Result<(), Seq<char>> {
    match rules {
        Err(_) => Ok(()),
        Ok(pairs) => if pairs.len() == 0 {
            Err("系统未配置配对规则，请使用 Windows 默认登录方式"@)
        } else if pair_matches(pairs, account, approver) {
            Ok(())
        } else {
            Err("主账号与审批人不匹配：该组合不在有效配对列表中"@)
        },
    }
}

/// Check pairing rules (strict order: account + approver).
///
/// `rules` is what reading the enabled rules from the shared database gave;
/// when the database cannot be read the login is allowed (fail-open), when
/// no rule exists it is refused.
#[verifier::loop_isolation(false)]
pub fn check_pairing_rule(rules: &Result<Vec<PairRow>, String>, account_username: &str, approver_username: &str) -> (r: Result<(), AuthError>)
    ensures
        match pairing_decision(
            match rules { Ok(p) => Ok(p@), Err(_) => Err(()) },
            account_username@,
            approver_username@,
        ) {
            Ok(()) => r is Ok,
            Err(m) => r matches Err(AuthError::InvalidCredentials(msg)) && msg@ == m,
        },
{
    let pairs = match rules {
        Err(_) => {
            return Ok(());
        },
        Ok(p) => p,
    };
    if pairs.len() == 0 {
        return Err(AuthError::InvalidCredentials(String::from_str("系统未配置配对规则，请使用 Windows 默认登录方式")));
    }
    let account_bare = extract_bare_username(account_username);
    let approver_bare = extract_bare_username(approver_username);
    let mut i: usize = 0;
    while i < pairs.len()
        invariant
            i <= pairs.len(),
            account_bare@ == bare_username(account_username@),
            approver_bare@ == bare_username(approver_username@),
            forall|j: int|
                0 <= j < i ==> !(bare_username(#[trigger] pairs@[j].2@) == bare_username(account_username@)
                    && bare_username(pairs@[j].3@) == bare_username(approver_username@)),
        decreases pairs.len() - i,
    {
        let a = extract_bare_username(pairs[i].2.as_str());
        let b = extract_bare_username(pairs[i].3.as_str());
        if same_text(a.as_str(), account_bare.as_str()) && same_text(b.as_str(), approver_bare.as_str()) {
            proof {
                assert(bare_username(pairs@[i as int].2@) == bare_username(account_username@));
                assert(bare_username(pairs@[i as int].3@) == bare_username(approver_username@));
                assert(pair_matches(pairs@, account_username@, approver_username@));
            }
            return Ok(());
        }
        i = i + 1;
    }
    Err(AuthError::InvalidCredentials(String::from_str("主账号与审批人不匹配：该组合不在有效配对列表中")))
}

/// Strict pairing: when the rules could be read, a login of `account`
/// approved by `approver` is accepted exactly when one rule names both of
/// them (compared by bare lower-case names); an approver taken from another
/// rule of the account does not count. A rule list that cannot be read lets
/// the login through, and a refusal says which of the two refusals it is.
pub proof fn lemma_pairing_needs_one_rule_naming_both(pairs: Seq<PairRow>, account: Seq<char>, approver: Seq<char>)
    ensures
        pairing_decision(Ok(pairs), account, approver) is Ok <==> exists|i: int|
            0 <= i < pairs.len() && bare_username(#[trigger] pairs[i].2@) == bare_username(account)
                && bare_username(pairs[i].3@) == bare_username(approver),
        pairing_decision(Err(()), account, approver) is Ok,
        pairs.len() == 0 ==> pairing_decision(Ok(pairs), account, approver)
            == Err::<(), Seq<char>>("系统未配置配对规则，请使用 Windows 默认登录方式"@),
        pairs.len() > 0 && !(pairing_decision(Ok(pairs), account, approver) is Ok) ==> pairing_decision(Ok(pairs), account, approver)
            == Err::<(), Seq<char>>("主账号与审批人不匹配：该组合不在有效配对列表中"@),
{
}

/// Pairing ignores the form of the names: a domain prefix, a UPN suffix and
/// letter case do not change the decision.
pub proof fn lemma_pairing_ignores_name_form(
    rules: Result<Seq<PairRow>, ()>,
    a1: Seq<char>,
    a2: Seq<char>,
    b1: Seq<char>,
    b2: Seq<char>,
)
    requires
        bare_username(a1) == bare_username(a2),
        bare_username(b1) == bare_username(b2),
    ensures
        pairing_decision(rules, a1, b1) == pairing_decision(rules, a2, b2),
{
}

} // verus!

verus! {

/// The outcome of verifying both accounts, given what each verification task
/// gave (`Err` of the outer result: the task itself failed, with its message).
pub open spec fn dual_outcome(
    a: Result<Result<Seq<char>, AuthErrorView>, Seq<char>>,
    b: Result<Result<Seq<char>, AuthErrorView>, Seq<char>>,
    a_text: Seq<char>,
    b_text: Seq<char>,
) -> Result<Seq<char>, AuthErrorView> {
    match (a, b) {
        (Err(je), _) => Err(AuthErrorView::ServiceError("verify task failed: "@ + je)),
        (_, Err(je)) => Err(AuthErrorView::ServiceError("verify task failed: "@ + je)),
        (Ok(Ok(canonical)), Ok(Ok(_))) => Ok(canonical),
        (Ok(Err(_)), Ok(Ok(_))) => Err(AuthErrorView::InvalidCredentials(a_text)),
        (Ok(Ok(_)), Ok(Err(_))) => Err(AuthErrorView::InvalidCredentials(b_text)),
        (Ok(Err(_)), Ok(Err(_))) => Err(AuthErrorView::BothFailed(a_text, b_text)),
    }
}

pub open spec fn task_view(t: Result<Result<String, AuthError>, String>) -> Result<Result<Seq<char>, AuthErrorView>, Seq<char>> {
    match t {
        Err(je) => Err(je@),
        Ok(Ok(c)) => Ok(Ok(c@)),
        Ok(Err(e)) => Ok(Err(e@)),
    }
}

pub open spec fn error_text_of(t: Result<Result<String, AuthError>, String>) -> Seq<char> {
    match t {
        Ok(Err(e)) => auth_error_text(e),
        _ => Seq::empty(),
    }
}

fn task_error_text(t: &Result<Result<String, AuthError>, String>) -> (s: String)
    ensures
        s@ == error_text_of(*t),
{
    match t {
        Ok(Err(e)) => e.message(),
        _ => String::new(),
    }
}

/// Combines the two concurrent verifications of a dual login: user A's
/// canonical logon name when both pass, otherwise which side failed.
pub fn validate_dual_outcome(
    a: Result<Result<String, AuthError>, String>,
    b: Result<Result<String, AuthError>, String>,
) -> (r: Result<String, AuthError>)
    ensures
        match r {
            Ok(c) => dual_outcome(task_view(a), task_view(b), error_text_of(a), error_text_of(b)) == Ok::<Seq<char>, AuthErrorView>(c@),
            Err(e) => dual_outcome(task_view(a), task_view(b), error_text_of(a), error_text_of(b)) == Err::<Seq<char>, AuthErrorView>(e@),
        },
{
    let ta = task_error_text(&a);
    let tb = task_error_text(&b);
    match a {
        Err(je) => Err(AuthError::ServiceError(String::from_str("verify task failed: ").concat(je.as_str()))),
        Ok(ra) => match b {
            Err(je) => Err(AuthError::ServiceError(String::from_str("verify task failed: ").concat(je.as_str()))),
            Ok(rb) => match (ra, rb) {
                (Ok(canonical_a), Ok(_)) => Ok(canonical_a),
                (Err(_), Ok(_)) => Err(AuthError::InvalidCredentials(ta)),
                (Ok(_), Err(_)) => Err(AuthError::InvalidCredentials(tb)),
                (Err(_), Err(_)) => Err(AuthError::BothFailed(ta, tb)),
            },
        },
    }
}

/// How `LogonUserW` is called for a name: "DOMAIN\user" gives the user and
/// the domain (none when empty); any other form is passed whole, no domain.
pub open spec fn logon_parts(s: Seq<char>) -> (Seq<char>, Option<Seq<char>>) {
    let b = find_first(s, '\\');
    if b >= 0 {
        (s.subrange(b + 1, s.len() as int), if b == 0 { None } else { Some(s.take(b)) })
    } else {
        (s, None)
    }
}

/// Splits an account name for `LogonUserW` into user and optional domain.
pub fn split_logon_name(username: &str) -> (r: (String, Option<String>))
    ensures
        r.0@ == logon_parts(username@).0,
        match r.1 {
            Some(d) => logon_parts(username@).1 == Some(d@),
            None => logon_parts(username@).1 is None,
        },
{
    let v = chars_of(username);
    proof {
        lemma_find_first(v@, '\\');
    }
    match find_char(&v, '\\') {
        Some(pos) => {
            assert(pos < v.len());
            let user = slice_string(&v, pos + 1, v.len());
            if pos == 0 {
                (user, None)
            } else {
                let dom = slice_string(&v, 0, pos);
                proof {
                    assert(v@.subrange(0, pos as int) =~= v@.take(pos as int));
                }
                (user, Some(dom))
            }
        },
        None => (String::from_str(username), None),
    }
}

} // verus!

verus! {

/// `domain\name`.
pub open spec fn qualified(domain: Seq<char>, name: Seq<char>) -> Seq<char> {
    domain + "\\"@ + name
}

/// What a canonical name is, given the trimmed input and an account lookup
/// result (canonical name and domain, or none).
pub open spec fn from_lookup(t: Seq<char>, found: Option<(String, String)>) -> Seq<char> {
    match found {
        Some((n, d)) => qualified(d@, n@),
        None => t,
    }
}

/// Resolves the authoritative "DOMAIN\user" logon name for a verified
/// account, so the credential provider serializes exactly the account that
/// was validated:
///   "DOMAIN\user"  -> as given (trimmed);
///   "user@domain"  -> DOMAIN\sAMAccountName via `lookup(false, ..)`, else as given;
///   "user"         -> local account database first (`lookup(true, ..)`),
///                     then the joined domain (`joined()`), else as given.
pub fn canonical_logon_name<L, J>(input: &str, lookup: &L, joined: &J) -> (r: String) where
    L: Fn(bool, &str) -> Option<(String, String)>,
    J: Fn() -> Option<String>,

    requires
        forall|local: bool, s: &str| lookup.requires((local, s)),
        joined.requires(()),
    ensures
        ({
            let t = trim(input@);
            if t.contains('\\') {
                r@ == t
            } else if t.contains('@') {
                exists|s: &str, found: Option<(String, String)>|
                    s@ == t && lookup.ensures((false, s), found) && r@ == from_lookup(t, found)
            } else {
                exists|s: &str, found: Option<(String, String)>|
                    s@ == t && lookup.ensures((true, s), found) && (match found {
                        Some(_) => r@ == from_lookup(t, found),
                        None => exists|dom: Option<String>|
                            joined.ensures((), dom) && r@ == (match dom {
                                Some(d) => qualified(d@, t),
                                None => t,
                            }),
                    })
            }
        }),
{
    let trimmed = trim_str(input);
    let t = trimmed.as_str();
    if contains_char(t, '\\') {
        return trimmed;
    }
    if contains_char(t, '@') {
        let found = lookup(false, t);
        return match found {
            Some((name, domain)) => domain.concat("\\").concat(name.as_str()),
            None => trimmed,
        };
    }
    let found = lookup(true, t);
    match found {
        Some((name, domain)) => domain.concat("\\").concat(name.as_str()),
        None => {
            let dom = joined();
            match dom {
                Some(d) => d.concat("\\").concat(t),
                None => trimmed,
            }
        },
    }
}

} // verus!

verus! {

/// The canonical (name, domain) an account lookup gave, from the two
/// buffers LookupAccountSidW filled: each read up to its first NUL; none
/// when either is empty.
pub open spec fn looked_up_account(name_buf: Seq<u16>, domain_buf: Seq<u16>) -> Option<(Seq<char>, Seq<char>)> {
    let name = crate::text::wide_text(name_buf);
    let domain = crate::text::wide_text(domain_buf);
    if name.len() == 0 || domain.len() == 0 {
        None
    } else {
        Some((name, domain))
    }
}

/// Reads the result of an account lookup.
pub fn account_from_lookup(name_buf: &[u16], domain_buf: &[u16]) -> (r: Option<(String, String)>)
    ensures
        match r {
            Some((n, d)) => looked_up_account(name_buf@, domain_buf@) == Some((n@, d@)),
            None => looked_up_account(name_buf@, domain_buf@) is None,
        },
{
    let name = crate::text::wide_to_string(name_buf);
    let domain = crate::text::wide_to_string(domain_buf);
    if name.as_str().is_empty() || domain.as_str().is_empty() {
        None
    } else {
        Some((name, domain))
    }
}

/// The domain the machine is joined to, from NetGetJoinInformation's status,
/// name and buffer type: only a domain join (type 3) with a name counts; a
/// workgroup name is never a logon domain.
pub fn joined_domain_choice(status: u32, name: Option<String>, buffer_type: u32) -> (r: Option<String>)
    ensures
        match name {
            Some(n) => if status == 0 && buffer_type == 3 && n@.len() != 0 {
                r matches Some(d) && d@ == n@
            } else {
                r is None
            },
            None => r is None,
        },
{
    match name {
        Some(n) => {
            if status == 0 && buffer_type == 3 && !n.as_str().is_empty() {
                Some(n)
            } else {
                None
            }
        },
        None => None,
    }
}

} // verus!
