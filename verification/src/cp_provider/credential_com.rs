//! The logon tile that LogonUI shows: its input fields, their visibility,
//! the interfaces it answers, and what it does with the service's verdict.
//! The COM object itself (vtables, pointers, CoTaskMem buffers) wraps this
//! state outside the library.
use vstd::prelude::*;
use crate::text::{to_wide, utf16_encode, wide_text, wide_to_string, hex8, hex_digits, decimal, u64_to_decimal, trim, trim_str, is_blank, lowercase};
use crate::cp_provider::com_types::{AuthMode, AuthRequest, AuthResponse, AuthResponseView};
use crate::cp_provider::pipe_client::{PipeClientError, PipeClientErrorView, pipe_error_text};
use crate::text::{contains_char, find_first, eq_ignore_ascii_case, eq_ignore_ascii_case_str};
use crate::wire::{le_bytes_u64, le_value, u32_from_le_bytes, write_u64_le};

verus! {

/// IID of IUnknown {00000000-0000-0000-C000-000000000046}.
pub const IID_IUNKNOWN: u128 = 0x00000000_0000_0000_C000_000000000046u128;

/// IID of ICredentialProviderCredential {63913a93-40c1-481a-818d-4072ff8c70cc}.
pub const IID_ICREDENTIAL_PROVIDER_CREDENTIAL: u128 = 0x63913a93_40c1_481a_818d_4072ff8c70ccu128;

/// IID of ICredentialProviderCredentialWithFieldOptions {DBC6FB30-C843-49E3-A645-573E6F39446A}.
pub const IID_ICREDENTIAL_PROVIDER_CREDENTIAL_WITH_FIELD_OPTIONS: u128 = 0xDBC6FB30_C843_49E3_A645_573E6F39446Au128;

/// IID of ICredentialProviderCredentialWithSubmissionOptions {19844E8F-93E3-425A-9485-56A35726FE1C}.
pub const IID_ICREDENTIAL_PROVIDER_CREDENTIAL_WITH_SUBMISSION_OPTIONS: u128 = 0x19844E8F_93E3_425A_9485_56A35726FE1Cu128;

/// IID of ICredentialProviderCredential2 {FD672C54-40EA-4D6E-9B49-CFB1A7507BD7}.
pub const IID_ICREDENTIAL_PROVIDER_CREDENTIAL2: u128 = 0xFD672C54_40EA_4D6E_9B49_CFB1A7507BD7u128;

// Field indices (union of both tiles; visibility depends on the tile).
/// Dual: primary account; Emergency: emergency account.
pub const FIELD_USER_A_NAME: u32 = 0;
pub const FIELD_USER_A_PASS: u32 = 1;
/// Dual only: approver.
pub const FIELD_USER_B_NAME: u32 = 2;
pub const FIELD_USER_B_PASS: u32 = 3;
/// Emergency only: override reason.
pub const FIELD_REASON: u32 = 4;
pub const FIELD_SUBMIT: u32 = 5;
pub const FIELD_STATUS: u32 = 6;
pub const FIELD_COUNT: u32 = 7;

// Field states and interactive states.
pub const CPFS_HIDDEN: u32 = 0;
pub const CPFS_DISPLAY_IN_BOTH: u32 = 3;
pub const CPFIS_NONE: u32 = 0;
pub const CPFIS_FOCUSED: u32 = 3;

// GetSerialization responses (CREDENTIAL_PROVIDER_GET_SERIALIZATION_RESPONSE).
pub const CPGSR_NO_CREDENTIAL_NOT_FINISHED: u32 = 0;
pub const CPGSR_RETURN_CREDENTIAL_FINISHED: u32 = 2;

// Status icons.
pub const CPSI_NONE: u32 = 0;
pub const CPSI_ERROR: u32 = 3;

// HRESULTs.
pub const S_OK: i32 = 0;
pub const S_FALSE: i32 = 1;
pub const E_INVALIDARG: i32 = -2147024809;
pub const E_NOINTERFACE: i32 = -2147467262;

/// CPUS_UNLOCK_WORKSTATION.
pub const CPUS_UNLOCK_WORKSTATION: u32 = 2;

/// Which login tile a credential instance represents.
#[derive(Debug, Clone, Copy, PartialEq, Eq, Structural)]
pub enum TileType {
    /// Dual-control login (primary account + approver)
    Dual,
    /// Emergency override login (single authorized account + reason)
    Emergency,
}

/// The state of one logon tile. Texts are NUL-terminated UTF-16, as
/// LogonUI exchanges them.
#[derive(Debug, Clone)]
pub struct DualAuthCredentialCom {
    pub tile_type: TileType,
    pub user_a_name: Vec<u16>,
    pub user_a_pass: Vec<u16>,
    pub user_b_name: Vec<u16>,
    pub user_b_pass: Vec<u16>,
    pub emergency_reason: Vec<u16>,
    pub status_text: Vec<u16>,
    /// The service approved the last submission; its logon name and
    /// password are cached below until LogonUI reports a failed logon.
    pub auth_success: bool,
    pub serialized_user: Vec<u16>,
    pub serialized_pass: Vec<u16>,
    /// CREDENTIAL_PROVIDER_USAGE_SCENARIO the provider runs in.
    pub usage_scenario: u32,
    /// COM reference count.
    pub ref_count: u32,
}

pub open spec fn empty_wide() -> Seq<u16> {
    seq![0u16]
}

pub open spec fn initial_status(tile: TileType) -> Seq<char> {
    match tile {
        TileType::Dual => "双控登录"@,
        TileType::Emergency => "应急登录（需授权账号）"@,
    }
}

/// The value of an input field, or none for indices that have no stored text.
pub open spec fn stored_field(c: DualAuthCredentialCom, field: u32) -> Option<Seq<u16>> {
    if field == FIELD_USER_A_NAME {
        Some(c.user_a_name@)
    } else if field == FIELD_USER_A_PASS {
        Some(c.user_a_pass@)
    } else if field == FIELD_USER_B_NAME {
        Some(c.user_b_name@)
    } else if field == FIELD_USER_B_PASS {
        Some(c.user_b_pass@)
    } else if field == FIELD_REASON {
        Some(c.emergency_reason@)
    } else if field == FIELD_STATUS {
        Some(c.status_text@)
    } else {
        None
    }
}

/// The fields LogonUI may write.
pub open spec fn is_writable_field(field: u32) -> bool {
    field == FIELD_USER_A_NAME || field == FIELD_USER_A_PASS || field == FIELD_USER_B_NAME || field == FIELD_USER_B_PASS
        || field == FIELD_REASON
}

/// Everything of the tile but its input fields and status.
pub open spec fn same_besides_fields(a: DualAuthCredentialCom, b: DualAuthCredentialCom) -> bool {
    &&& a.tile_type == b.tile_type
    &&& a.auth_success == b.auth_success
    &&& a.serialized_user@ == b.serialized_user@
    &&& a.serialized_pass@ == b.serialized_pass@
    &&& a.usage_scenario == b.usage_scenario
    &&& a.ref_count == b.ref_count
}

/// Whether a field is shown: the dual tile hides the reason; the emergency
/// tile hides the approver fields, and the reason unless policy asks for one.
pub open spec fn field_visible(tile: TileType, field: u32, requires_reason: bool) -> bool {
    match tile {
        TileType::Dual => field != FIELD_REASON,
        TileType::Emergency => if field == FIELD_USER_B_NAME || field == FIELD_USER_B_PASS {
            false
        } else if field == FIELD_REASON && !requires_reason {
            false
        } else {
            true
        },
    }
}

/// The interface a query answers with.
#[derive(Debug, Clone, Copy, PartialEq, Eq, Structural)]
pub enum QueryAnswer {
    /// The credential object itself.
    Credential,
    /// Its field-options companion.
    FieldOptions,
    /// Its submission-options companion.
    SubmissionOptions,
    /// E_NOINTERFACE.
    NoInterface,
}

/// How the tile answers a query for `iid`. ICredentialProviderCredential2 is
/// answered only while unlocking a workstation.
pub open spec fn query_answer(iid: u128, usage_scenario: u32) -> QueryAnswer {
    if iid == IID_IUNKNOWN || iid == IID_ICREDENTIAL_PROVIDER_CREDENTIAL {
        QueryAnswer::Credential
    } else if iid == IID_ICREDENTIAL_PROVIDER_CREDENTIAL_WITH_FIELD_OPTIONS {
        QueryAnswer::FieldOptions
    } else if iid == IID_ICREDENTIAL_PROVIDER_CREDENTIAL_WITH_SUBMISSION_OPTIONS {
        QueryAnswer::SubmissionOptions
    } else if iid == IID_ICREDENTIAL_PROVIDER_CREDENTIAL2 && usage_scenario == CPUS_UNLOCK_WORKSTATION {
        QueryAnswer::Credential
    } else {
        QueryAnswer::NoInterface
    }
}

/// The user-facing text for an NTSTATUS of a failed logon.
pub open spec fn ntstatus_text(ntstatus: u32) -> Seq<char> {
    if ntstatus == 0xC0000064 {
        "账号不存在，请检查用户名格式（域名\\用户名）"@
    } else if ntstatus == 0xC000006A {
        "Windows 拒绝了该密码"@
    } else if ntstatus == 0xC0000070 {
        "该账号不允许从这台计算机登录（工作站限制）"@
    } else if ntstatus == 0xC0000071 || ntstatus == 0xC0000224 {
        "密码已过期或必须更改密码"@
    } else if ntstatus == 0xC000015B {
        "未授予此登录类型的权限"@
    } else {
        "Windows 登录失败 (0x"@ + hex_digits(ntstatus as nat, 8) + ")"@
    }
}

/// Maps a logon failure NTSTATUS to a message for the tile.
pub fn map_ntstatus_logon_error(ntstatus: u32) -> (s: String)
    ensures
        s@ == ntstatus_text(ntstatus),
{
    if ntstatus == 0xC0000064 {
        String::from_str("账号不存在，请检查用户名格式（域名\\用户名）")
    } else if ntstatus == 0xC000006A {
        String::from_str("Windows 拒绝了该密码")
    } else if ntstatus == 0xC0000070 {
        String::from_str("该账号不允许从这台计算机登录（工作站限制）")
    } else if ntstatus == 0xC0000071 || ntstatus == 0xC0000224 {
        String::from_str("密码已过期或必须更改密码")
    } else if ntstatus == 0xC000015B {
        String::from_str("未授予此登录类型的权限")
    } else {
        String::from_str("Windows 登录失败 (0x").concat(hex8(ntstatus).as_str()).concat(")")
    }
}

/// Audit tag for where the logon comes from: "console" or "rdp-session-N".
pub open spec fn logon_source(session_id: u32, is_remote: bool) -> Seq<char> {
    if is_remote {
        "rdp-session-"@ + crate::text::decimal(session_id as nat)
    } else {
        "console"@
    }
}

/// The audit tag for a logon in terminal session `session_id`.
pub fn logon_source_tag(session_id: u32, is_remote: bool) -> (s: String)
    ensures
        s@ == logon_source(session_id, is_remote),
{
    if is_remote {
        String::from_str("rdp-session-").concat(crate::text::u32_to_decimal(session_id).as_str())
    } else {
        String::from_str("console")
    }
}

impl DualAuthCredentialCom {
    /// A new tile of the given kind: empty fields, its greeting as status,
    /// one reference.
    pub fn new(tile_type: TileType) -> (c: DualAuthCredentialCom)
        ensures
            c.tile_type == tile_type,
            c.user_a_name@ == empty_wide(),
            c.user_a_pass@ == empty_wide(),
            c.user_b_name@ == empty_wide(),
            c.user_b_pass@ == empty_wide(),
            c.emergency_reason@ == empty_wide(),
            c.status_text@ == utf16_encode(initial_status(tile_type)).push(0u16),
            !c.auth_success,
            c.serialized_user@ == Seq::<u16>::empty(),
            c.serialized_pass@ == Seq::<u16>::empty(),
            c.usage_scenario == 0,
            c.ref_count == 1,
    {
        let status = match tile_type {
            TileType::Dual => to_wide("双控登录"),
            TileType::Emergency => to_wide("应急登录（需授权账号）"),
        };
        proof {
            assert(utf16_encode(Seq::<char>::empty()) =~= Seq::<u16>::empty());
        }
        let e = to_wide("");
        proof {
            reveal_strlit("");
            assert(e@ =~= empty_wide());
        }
        DualAuthCredentialCom {
            tile_type,
            user_a_name: e.clone(),
            user_a_pass: e.clone(),
            user_b_name: e.clone(),
            user_b_pass: e.clone(),
            emergency_reason: e,
            status_text: status,
            auth_success: false,
            serialized_user: Vec::new(),
            serialized_pass: Vec::new(),
            usage_scenario: 0,
            ref_count: 1,
        }
    }

    /// IUnknown::AddRef: one more reference; returns the new count.
    pub fn add_ref(&mut self) -> (n: u32)
        requires
            old(self).ref_count < u32::MAX,
        ensures
            n == old(self).ref_count + 1,
            *final(self) == (DualAuthCredentialCom { ref_count: n, ..*old(self) }),
    {
        self.ref_count = self.ref_count + 1;
        self.ref_count
    }

    /// IUnknown::Release: one reference less; returns the new count (the
    /// object is freed when it reaches zero).
    pub fn release(&mut self) -> (n: u32)
        requires
            old(self).ref_count > 0,
        ensures
            n == old(self).ref_count - 1,
            *final(self) == (DualAuthCredentialCom { ref_count: n, ..*old(self) }),
    {
        self.ref_count = self.ref_count - 1;
        self.ref_count
    }

    /// IUnknown::QueryInterface: which interface answers `iid`; a positive
    /// answer takes a reference.
    pub fn query_interface(&mut self, iid: u128) -> (a: QueryAnswer)
        requires
            old(self).ref_count < u32::MAX,
        ensures
            a == query_answer(iid, old(self).usage_scenario),
            a != QueryAnswer::NoInterface ==> *final(self) == (DualAuthCredentialCom {
                ref_count: (old(self).ref_count + 1) as u32,
                ..*old(self)
            }),
            a == QueryAnswer::NoInterface ==> *final(self) == *old(self),
    {
        let a = if iid == IID_IUNKNOWN || iid == IID_ICREDENTIAL_PROVIDER_CREDENTIAL {
            QueryAnswer::Credential
        } else if iid == IID_ICREDENTIAL_PROVIDER_CREDENTIAL_WITH_FIELD_OPTIONS {
            QueryAnswer::FieldOptions
        } else if iid == IID_ICREDENTIAL_PROVIDER_CREDENTIAL_WITH_SUBMISSION_OPTIONS {
            QueryAnswer::SubmissionOptions
        } else if iid == IID_ICREDENTIAL_PROVIDER_CREDENTIAL2 && self.usage_scenario == CPUS_UNLOCK_WORKSTATION {
            QueryAnswer::Credential
        } else {
            QueryAnswer::NoInterface
        };
        if a != QueryAnswer::NoInterface {
            self.add_ref();
        }
        a
    }

    /// GetFieldState: (state, interactive state) of a field, or E_INVALIDARG.
    pub fn field_state(&self, field: u32, requires_reason: bool) -> (r: Result<(u32, u32), i32>)
        ensures
            field >= FIELD_COUNT ==> r == Err::<(u32, u32), i32>(E_INVALIDARG),
            field < FIELD_COUNT ==> r == Ok::<(u32, u32), i32>((
                if field_visible(self.tile_type, field, requires_reason) { CPFS_DISPLAY_IN_BOTH } else { CPFS_HIDDEN },
                if field == FIELD_USER_A_NAME { CPFIS_FOCUSED } else { CPFIS_NONE },
            )),
    {
        if field >= FIELD_COUNT {
            return Err(E_INVALIDARG);
        }
        let visible = match self.tile_type {
            TileType::Dual => field != FIELD_REASON,
            TileType::Emergency => {
                if field == FIELD_USER_B_NAME || field == FIELD_USER_B_PASS {
                    false
                } else if field == FIELD_REASON && !requires_reason {
                    false
                } else {
                    true
                }
            },
        };
        let state = if visible { CPFS_DISPLAY_IN_BOTH } else { CPFS_HIDDEN };
        let interactive = if field == FIELD_USER_A_NAME { CPFIS_FOCUSED } else { CPFIS_NONE };
        Ok((state, interactive))
    }

    /// GetStringValue: a copy of a field's text, or E_INVALIDARG.
    pub fn get_string_value(&self, field: u32) -> (r: Result<Vec<u16>, i32>)
        ensures
            match stored_field(*self, field) {
                Some(v) => r matches Ok(w) && w@ == v,
                None => r == Err::<Vec<u16>, i32>(E_INVALIDARG),
            },
    {
        if field == FIELD_USER_A_NAME {
            Ok(self.user_a_name.clone())
        } else if field == FIELD_USER_A_PASS {
            Ok(self.user_a_pass.clone())
        } else if field == FIELD_USER_B_NAME {
            Ok(self.user_b_name.clone())
        } else if field == FIELD_USER_B_PASS {
            Ok(self.user_b_pass.clone())
        } else if field == FIELD_REASON {
            Ok(self.emergency_reason.clone())
        } else if field == FIELD_STATUS {
            Ok(self.status_text.clone())
        } else {
            Err(E_INVALIDARG)
        }
    }

    /// SetStringValue: stores `value` (the text LogonUI passed, with its NUL)
    /// in an input field; other fields give E_INVALIDARG and change nothing.
    pub fn set_string_value(&mut self, field: u32, value: Vec<u16>) -> (hr: i32)
        ensures
            is_writable_field(field) ==> hr == S_OK && stored_field(*final(self), field) == Some(value@),
            !is_writable_field(field) ==> hr == E_INVALIDARG && *final(self) == *old(self),
            forall|g: u32| g != field ==> #[trigger] stored_field(*final(self), g) == stored_field(*old(self), g),
            same_besides_fields(*final(self), *old(self)),
    {
        if field == FIELD_USER_A_NAME {
            self.user_a_name = value;
        } else if field == FIELD_USER_A_PASS {
            self.user_a_pass = value;
        } else if field == FIELD_USER_B_NAME {
            self.user_b_name = value;
        } else if field == FIELD_USER_B_PASS {
            self.user_b_pass = value;
        } else if field == FIELD_REASON {
            self.emergency_reason = value;
        } else {
            return E_INVALIDARG;
        }
        S_OK
    }

    /// GetUserSid: only the dual tile claims the locked user, and only
    /// while unlocking; otherwise the tile stays an "Other User" tile.
    pub fn claims_session_user(&self) -> (b: bool)
        ensures
            b == (self.usage_scenario == CPUS_UNLOCK_WORKSTATION && self.tile_type == TileType::Dual),
    {
        self.usage_scenario == CPUS_UNLOCK_WORKSTATION && self.tile_type == TileType::Dual
    }

    /// ReportResult: after a failed logon (negative NTSTATUS) the cached
    /// approval is dropped, so the next submission re-reads the fields and
    /// asks the service again, and the tile shows why Windows refused.
    /// Returns the message shown, if any.
    pub fn report_result(&mut self, ntstatus: i32) -> (msg: Option<String>)
        ensures
            ntstatus >= 0 ==> msg is None && *final(self) == *old(self),
            ntstatus < 0 ==> (msg matches Some(m) && m@ == ntstatus_text(ntstatus as u32)
                && !final(self).auth_success
                && final(self).serialized_pass@ == empty_wide()
                && final(self).status_text@ == utf16_encode(m@).push(0u16)
                && final(self).serialized_user@ == old(self).serialized_user@
                && final(self).tile_type == old(self).tile_type
                && final(self).usage_scenario == old(self).usage_scenario
                && final(self).ref_count == old(self).ref_count
                && forall|g: u32| g != FIELD_STATUS ==> #[trigger] stored_field(*final(self), g) == stored_field(*old(self), g)),
    {
        if ntstatus < 0 {
            self.auth_success = false;
            let e = to_wide("");
            proof {
                reveal_strlit("");
                assert(utf16_encode(Seq::<char>::empty()) =~= Seq::<u16>::empty());
                assert(e@ =~= empty_wide());
            }
            self.serialized_pass = e;
            let msg = map_ntstatus_logon_error(ntstatus as u32);
            self.status_text = to_wide(msg.as_str());
            Some(msg)
        } else {
            None
        }
    }
}

} // verus!

verus! {

/// Minutes shown for a lock of `secs` seconds: rounded up.
pub fn lockout_minutes(secs: u64) -> (m: u64)
    ensures
        m == (secs + 59) / 60,
{
    let q = secs / 60;
    if secs % 60 == 0 {
        q
    } else {
        q + 1
    }
}

pub open spec fn locked_text(secs: u64) -> Seq<char> {
    "失败次数过多，账号已锁定，请约 "@ + decimal(((secs + 59) / 60) as nat) + " 分钟后重试"@
}

/// The tile's message for a lock of `secs` seconds.
pub fn locked_message(secs: u64) -> (s: String)
    ensures
        s@ == locked_text(secs),
{
    let mins = lockout_minutes(secs);
    String::from_str("失败次数过多，账号已锁定，请约 ").concat(u64_to_decimal(mins).as_str()).concat(" 分钟后重试")
}

/// The texts of the four dual fields (user A, password A, user B, password B).
pub open spec fn dual_inputs(c: DualAuthCredentialCom) -> (Seq<char>, Seq<char>, Seq<char>, Seq<char>) {
    (wide_text(c.user_a_name@), wide_text(c.user_a_pass@), wide_text(c.user_b_name@), wide_text(c.user_b_pass@))
}

/// What the tile does when LogonUI asks for its serialization.
#[derive(Debug)]
pub enum SerializationStart {
    /// The service already approved: pack this logon name and password again.
    Cached { user: String, password: String },
    /// Something is missing; the tile shows this message and is not finished.
    Incomplete(String),
    /// Send this request to the service.
    Ask(AuthRequest),
}

/// What the tile does with the service's reply.
#[derive(Debug)]
pub enum SerializationEnd {
    /// Approved: pack this logon name and password for Windows.
    Finished { logon_name: String, password: String },
    /// Refused or failed: the tile shows this message and is not finished.
    Retry(String),
}

pub open spec fn dual_missing_text() -> Seq<char> {
    "请填写主账号和审批人的完整凭据"@
}

pub open spec fn emergency_missing_text() -> Seq<char> {
    "请输入应急账号和密码"@
}

pub open spec fn reason_missing_text() -> Seq<char> {
    "请填写应急登录原因"@
}

/// The message a tile shows when the service did not approve.
pub open spec fn refusal_text(tile: TileType, reply: Result<AuthResponseView, PipeClientErrorView>) -> Seq<char> {
    match reply {
        Err(e) => "认证服务通信失败："@ + pipe_error_text(e),
        Ok(r) => match r {
            AuthResponseView::Locked { remaining_secs } => locked_text(remaining_secs),
            AuthResponseView::FailUserA(m) => if tile == TileType::Dual { "验证失败："@ + m } else { "应急验证失败"@ },
            AuthResponseView::FailUserB(m) => if tile == TileType::Dual { "审批人验证失败："@ + m } else { "应急验证失败"@ },
            AuthResponseView::BothFailed(a, b) => if tile == TileType::Dual {
                "验证失败："@ + a + " | "@ + b
            } else {
                "应急验证失败"@
            },
            AuthResponseView::EmergencyDenied(m) => if tile == TileType::Emergency { "应急登录被拒绝："@ + m } else { "身份验证失败"@ },
            _ => if tile == TileType::Dual { "身份验证失败"@ } else { "应急验证失败"@ },
        },
    }
}

pub open spec fn reply_view(reply: Result<AuthResponse, PipeClientError>) -> Result<AuthResponseView, PipeClientErrorView> {
    match reply {
        Ok(r) => Ok(r@),
        Err(e) => Err(e@),
    }
}

/// The logon name to pack: the service's canonical name, or what the user
/// typed when the service sent none.
pub open spec fn chosen_logon_name(canonical: Seq<char>, typed: Seq<char>) -> Seq<char> {
    if trim(canonical).len() == 0 {
        typed
    } else {
        canonical
    }
}

/// The cached logon name and password the tile packs again while its
/// approval stands.
pub open spec fn cached_logon(c: DualAuthCredentialCom) -> (Seq<char>, Seq<char>) {
    (wide_text(c.serialized_user@), wide_text(c.serialized_pass@))
}

impl DualAuthCredentialCom {
    fn show_status(&mut self, msg: &str)
        ensures
            *final(self) == (DualAuthCredentialCom { status_text: final(self).status_text, ..*old(self) }),
            final(self).status_text@ == utf16_encode(msg@).push(0u16),
    {
        self.status_text = to_wide(msg);
    }

    /// GetSerialization, first half: replay a cached approval, report a
    /// missing input, or build the request for the service.
    pub fn begin_serialization(&mut self, requires_reason: bool, logon_source: &str) -> (s: SerializationStart)
        ensures
            old(self).auth_success ==> (s matches SerializationStart::Cached { user, password }
                && (user@, password@) == cached_logon(*old(self)) && *final(self) == *old(self)),
            !old(self).auth_success && old(self).tile_type == TileType::Dual ==> ({
                let (ua, pa, ub, pb) = dual_inputs(*old(self));
                if ua.len() == 0 || pa.len() == 0 || ub.len() == 0 || pb.len() == 0 {
                    s matches SerializationStart::Incomplete(m) && m@ == dual_missing_text()
                        && *final(self) == (DualAuthCredentialCom { status_text: final(self).status_text, ..*old(self) })
                        && final(self).status_text@ == utf16_encode(m@).push(0u16)
                } else {
                    s matches SerializationStart::Ask(req) && req.mode == AuthMode::Dual
                        && req.user_a_username@ == lowercase(ua) && req.user_a_password@ == pa
                        && req.user_b_username@ == lowercase(ub) && req.user_b_password@ == pb
                        && req.reason@ == Seq::<char>::empty() && req.logon_source@ == logon_source@
                        && *final(self) == *old(self)
                }
            }),
            !old(self).auth_success && old(self).tile_type == TileType::Emergency ==> ({
                let (u, p, _ub, _pb) = dual_inputs(*old(self));
                let reason = wide_text(old(self).emergency_reason@);
                if u.len() == 0 || p.len() == 0 {
                    s matches SerializationStart::Incomplete(m) && m@ == emergency_missing_text()
                        && *final(self) == (DualAuthCredentialCom { status_text: final(self).status_text, ..*old(self) })
                        && final(self).status_text@ == utf16_encode(m@).push(0u16)
                } else if requires_reason && trim(reason).len() == 0 {
                    s matches SerializationStart::Incomplete(m) && m@ == reason_missing_text()
                        && *final(self) == (DualAuthCredentialCom { status_text: final(self).status_text, ..*old(self) })
                        && final(self).status_text@ == utf16_encode(m@).push(0u16)
                } else {
                    s matches SerializationStart::Ask(req) && req.mode == AuthMode::Emergency
                        && req.user_a_username@ == lowercase(u) && req.user_a_password@ == p
                        && req.user_b_username@ == Seq::<char>::empty() && req.user_b_password@ == Seq::<char>::empty()
                        && req.reason@ == trim(reason) && req.logon_source@ == logon_source@
                        && *final(self) == *old(self)
                }
            }),
    {
        if self.auth_success {
            let user = wide_to_string(self.serialized_user.as_slice());
            let password = wide_to_string(self.serialized_pass.as_slice());
            return SerializationStart::Cached { user, password };
        }
        match self.tile_type {
            TileType::Dual => {
                let user_a = wide_to_string(self.user_a_name.as_slice());
                let pass_a = wide_to_string(self.user_a_pass.as_slice());
                let user_b = wide_to_string(self.user_b_name.as_slice());
                let pass_b = wide_to_string(self.user_b_pass.as_slice());
                if user_a.as_str().is_empty() || pass_a.as_str().is_empty() || user_b.as_str().is_empty()
                    || pass_b.as_str().is_empty() {
                    let msg = String::from_str("请填写主账号和审批人的完整凭据");
                    self.show_status(msg.as_str());
                    return SerializationStart::Incomplete(msg);
                }
                let req = AuthRequest::new_dual(
                    user_a.as_str(),
                    pass_a.as_str(),
                    user_b.as_str(),
                    pass_b.as_str(),
                    logon_source,
                );
                SerializationStart::Ask(req)
            },
            TileType::Emergency => {
                let user = wide_to_string(self.user_a_name.as_slice());
                let pass = wide_to_string(self.user_a_pass.as_slice());
                let reason = wide_to_string(self.emergency_reason.as_slice());
                if user.as_str().is_empty() || pass.as_str().is_empty() {
                    let msg = String::from_str("请输入应急账号和密码");
                    self.show_status(msg.as_str());
                    return SerializationStart::Incomplete(msg);
                }
                if requires_reason && is_blank(reason.as_str()) {
                    let msg = String::from_str("请填写应急登录原因");
                    self.show_status(msg.as_str());
                    return SerializationStart::Incomplete(msg);
                }
                let trimmed = trim_str(reason.as_str());
                let req = AuthRequest::new_emergency(user.as_str(), pass.as_str(), trimmed.as_str(), logon_source);
                SerializationStart::Ask(req)
            },
        }
    }

    /// GetSerialization, second half: on the service's approval, cache and
    /// return the logon name and password to pack; otherwise show why.
    pub fn finish_serialization(&mut self, reply: Result<AuthResponse, PipeClientError>) -> (e: SerializationEnd)
        ensures
            match reply {
                Ok(AuthResponse::Success { canonical_username }) => {
                    let (ua, pa, _ub, _pb) = dual_inputs(*old(self));
                    e matches SerializationEnd::Finished { logon_name, password }
                        && logon_name@ == chosen_logon_name(canonical_username@, ua) && password@ == pa
                        && final(self).auth_success
                        && final(self).serialized_user@ == utf16_encode(logon_name@).push(0u16)
                        && final(self).serialized_pass@ == utf16_encode(password@).push(0u16)
                        && final(self).status_text@ == old(self).status_text@
                        && forall|g: u32| #[trigger] stored_field(*final(self), g) == stored_field(*old(self), g)
                },
                _ => e matches SerializationEnd::Retry(m) && m@ == refusal_text(old(self).tile_type, reply_view(reply))
                    && *final(self) == (DualAuthCredentialCom { status_text: final(self).status_text, ..*old(self) })
                    && final(self).status_text@ == utf16_encode(m@).push(0u16),
            },
            final(self).tile_type == old(self).tile_type,
            final(self).usage_scenario == old(self).usage_scenario,
            final(self).ref_count == old(self).ref_count,
    {
        let typed = wide_to_string(self.user_a_name.as_slice());
        let pass = wide_to_string(self.user_a_pass.as_slice());
        let msg = match reply {
            Ok(AuthResponse::Success { canonical_username }) => {
                let logon_name = if is_blank(canonical_username.as_str()) {
                    typed
                } else {
                    canonical_username
                };
                self.auth_success = true;
                self.serialized_user = to_wide(logon_name.as_str());
                self.serialized_pass = to_wide(pass.as_str());
                return SerializationEnd::Finished { logon_name, password: pass };
            },
            Err(e) => String::from_str("认证服务通信失败：").concat(e.message().as_str()),
            Ok(AuthResponse::Locked { remaining_secs }) => locked_message(remaining_secs),
            Ok(AuthResponse::FailUserA(m)) => match self.tile_type {
                TileType::Dual => String::from_str("验证失败：").concat(m.as_str()),
                TileType::Emergency => String::from_str("应急验证失败"),
            },
            Ok(AuthResponse::FailUserB(m)) => match self.tile_type {
                TileType::Dual => String::from_str("审批人验证失败：").concat(m.as_str()),
                TileType::Emergency => String::from_str("应急验证失败"),
            },
            Ok(AuthResponse::BothFailed(a, b)) => match self.tile_type {
                TileType::Dual => String::from_str("验证失败：").concat(a.as_str()).concat(" | ").concat(b.as_str()),
                TileType::Emergency => String::from_str("应急验证失败"),
            },
            Ok(AuthResponse::EmergencyDenied(m)) => match self.tile_type {
                TileType::Dual => String::from_str("身份验证失败"),
                TileType::Emergency => String::from_str("应急登录被拒绝：").concat(m.as_str()),
            },
            Ok(_) => match self.tile_type {
                TileType::Dual => String::from_str("身份验证失败"),
                TileType::Emergency => String::from_str("应急验证失败"),
            },
        };
        self.show_status(msg.as_str());
        SerializationEnd::Retry(msg)
    }
}

/// Once the service approved a logon name and password (neither holding a
/// NUL), every later serialization packs exactly that name and password
/// again, until a failed logon is reported.
pub proof fn lemma_approval_replayed(c: DualAuthCredentialCom, logon_name: Seq<char>, password: Seq<char>)
    requires
        !logon_name.contains('\0'),
        !password.contains('\0'),
        c.serialized_user@ == utf16_encode(logon_name).push(0u16),
        c.serialized_pass@ == utf16_encode(password).push(0u16),
    ensures
        cached_logon(c) == (logon_name, password),
{
    crate::text::lemma_wide_roundtrip(logon_name);
    crate::text::lemma_wide_roundtrip(password);
}

} // verus!

verus! {

// ─── Packing the credential for Windows ───────────────────────────

/// The logon name that is packed: a name with a domain (`DOMAIN\user`) or
/// a UPN goes verbatim; a bare name gets the joined domain as prefix, and
/// stays bare on a machine that is not joined to a domain.
pub open spec fn packed_user_name(username: Seq<char>, domain: Seq<char>) -> Seq<char> {
    if username.contains('\\') || username.contains('@') {
        username
    } else if domain.len() == 0 {
        username
    } else {
        domain + "\\"@ + username
    }
}

/// The fully qualified logon name; `netbios_domain` is asked only for a bare name.
pub fn fully_qualified_user<D: Fn() -> String>(username: &str, netbios_domain: &D) -> (r: String)
    requires
        netbios_domain.requires(()),
    ensures
        username@.contains('\\') || username@.contains('@') ==> r@ == username@,
        !(username@.contains('\\') || username@.contains('@')) ==> exists|d: String|
            netbios_domain.ensures((), d) && r@ == packed_user_name(username@, d@),
{
    if contains_char(username, '\\') || contains_char(username, '@') {
        return String::from_str(username);
    }
    let domain = netbios_domain();
    if domain.as_str().is_empty() {
        String::from_str(username)
    } else {
        domain.concat("\\").concat(username)
    }
}

/// What `split('\\').next()` gives: the text before the first backslash,
/// or all of it.
pub open spec fn before_backslash(s: Seq<char>) -> Seq<char> {
    if find_first(s, '\\') < 0 {
        s
    } else {
        s.take(find_first(s, '\\'))
    }
}

/// A UPN, or a name whose domain part is not this machine's name
/// (compared ignoring ASCII case); `machine_name` is asked only when needed.
pub fn is_domain_account<M: Fn() -> String>(fq_user: &str, machine_name: &M) -> (b: bool)
    requires
        machine_name.requires(()),
    ensures
        fq_user@.contains('@') ==> b,
        !fq_user@.contains('@') && before_backslash(fq_user@).len() == 0 ==> !b,
        !fq_user@.contains('@') && before_backslash(fq_user@).len() != 0 ==> exists|m: String|
            machine_name.ensures((), m) && b == !eq_ignore_ascii_case(before_backslash(fq_user@), m@),
{
    if contains_char(fq_user, '@') {
        return true;
    }
    let v = crate::text::chars_of(fq_user);
    let end = match crate::text::find_char(&v, '\\') {
        Some(i) => i,
        None => v.len(),
    };
    proof {
        crate::text::lemma_find_first(v@, '\\');
    }
    let domain_part = crate::text::slice_string(&v, 0, end);
    proof {
        assert(before_backslash(fq_user@) =~= domain_part@);
    }
    if domain_part.as_str().is_empty() {
        return false;
    }
    let m = machine_name();
    !eq_ignore_ascii_case_str(domain_part.as_str(), m.as_str())
}

/// No package: what a failed LSA lookup leaves.
pub const NO_PACKAGE: u32 = 0xFFFFFFFF;

/// The authentication package for the packed buffer: unlocking a domain
/// account goes to Kerberos directly (when it can be found); everything
/// else goes to Negotiate. Each lookup is made only when it decides.
pub fn select_auth_package<K: Fn() -> u32, N: Fn() -> u32>(
    usage_scenario: u32,
    domain_account: bool,
    kerberos: &K,
    negotiate: &N,
) -> (pkg: u32)
    requires
        kerberos.requires(()),
        negotiate.requires(()),
    ensures
        usage_scenario == CPUS_UNLOCK_WORKSTATION && domain_account ==> exists|k: u32|
            kerberos.ensures((), k) && (k != NO_PACKAGE ==> pkg == k) && (k == NO_PACKAGE ==> negotiate.ensures((), pkg)),
        !(usage_scenario == CPUS_UNLOCK_WORKSTATION && domain_account) ==> negotiate.ensures((), pkg),
{
    if usage_scenario == CPUS_UNLOCK_WORKSTATION && domain_account {
        let k = kerberos();
        if k != NO_PACKAGE {
            k
        } else {
            negotiate()
        }
    } else {
        negotiate()
    }
}

/// Which package id the Negotiate lookup yields, from the LSA connection
/// status and the (status, id) of the Negotiate and Kerberos lookups:
/// Negotiate if found, else Kerberos if found, else 0; 2 when LSA could not
/// be reached at all.
pub fn negotiate_package_choice(connect_status: i32, negotiate: (i32, u32), kerberos: (i32, u32)) -> (pkg: u32)
    ensures
        pkg == (if connect_status != 0 {
            2u32
        } else if negotiate.0 == 0 && negotiate.1 != NO_PACKAGE {
            negotiate.1
        } else if kerberos.0 == 0 && kerberos.1 != NO_PACKAGE {
            kerberos.1
        } else {
            0u32
        }),
{
    if connect_status != 0 {
        return 2;
    }
    if negotiate.0 == 0 && negotiate.1 != NO_PACKAGE {
        return negotiate.1;
    }
    if kerberos.0 == 0 && kerberos.1 != NO_PACKAGE {
        return kerberos.1;
    }
    0
}

/// The Kerberos package id from the LSA connection status and the lookup's
/// (status, id); `NO_PACKAGE` on any failure.
pub fn kerberos_package_choice(connect_status: i32, lookup: (i32, u32)) -> (pkg: u32)
    ensures
        pkg == (if connect_status != 0 || lookup.0 != 0 { NO_PACKAGE } else { lookup.1 }),
{
    if connect_status != 0 || lookup.0 != 0 {
        NO_PACKAGE
    } else {
        lookup.1
    }
}

/// NETSETUP_JOIN_STATUS of a machine joined to a domain.
pub const NETSETUP_DOMAIN_NAME: u32 = 3;

/// The NetBIOS domain from NetGetJoinInformation's status, name and join
/// type: only a real domain join yields a name (a workgroup name never does).
pub fn netbios_domain_choice(status: u32, name: Option<String>, join_type: u32) -> (d: String)
    ensures
        d@ == (match name {
            Some(n) => if status == 0 && join_type == NETSETUP_DOMAIN_NAME { n@ } else { Seq::<char>::empty() },
            None => Seq::<char>::empty(),
        }),
{
    match name {
        Some(n) => {
            if status == 0 && join_type == NETSETUP_DOMAIN_NAME {
                n
            } else {
                String::new()
            }
        },
        None => String::new(),
    }
}

/// Offset of KERB_INTERACTIVE_UNLOCK_LOGON.LogonId in the packed buffer.
pub const LOGON_ID_OFFSET: usize = 56;

/// Writes the locked session's logon id into a packed unlock buffer of at
/// least 64 bytes; otherwise the buffer stays as it is.
pub fn patch_logon_id(buffer: &mut Vec<u8>, logon_id: Option<u64>)
    ensures
        match logon_id {
            Some(l) => if old(buffer).len() >= 64 {
                final(buffer)@ == old(buffer)@.take(56) + le_bytes_u64(l) + old(buffer)@.skip(64)
            } else {
                final(buffer)@ == old(buffer)@
            },
            None => final(buffer)@ == old(buffer)@,
        },
{
    if buffer.len() >= 64 {
        if let Some(l) = logon_id {
            write_u64_le(buffer, LOGON_ID_OFFSET, l);
        }
    }
}

/// A SID of a domain or local user account (S-1-5-21-...): revision 1, at
/// least two sub-authorities, identifier authority 5, first sub-authority 21.
pub open spec fn interactive_user_sid(sid: Seq<u8>) -> bool {
    &&& sid.len() >= 12
    &&& sid[0] == 1
    &&& sid[1] >= 2
    &&& sid.subrange(2, 8) == seq![0u8, 0u8, 0u8, 0u8, 0u8, 5u8]
    &&& le_value(sid.subrange(8, 12)) == 21
}

/// Whether a binary SID belongs to an interactive user account.
pub fn is_interactive_user_sid(sid: &[u8]) -> (b: bool)
    ensures
        b == interactive_user_sid(sid@),
{
    if sid.len() < 12 {
        return false;
    }
    if sid[0] != 1 || sid[1] < 2 {
        return false;
    }
    if sid[2] != 0 || sid[3] != 0 || sid[4] != 0 || sid[5] != 0 || sid[6] != 0 || sid[7] != 5 {
        proof {
            assert(sid@.subrange(2, 8)[0] == sid@[2]);
            assert(sid@.subrange(2, 8)[1] == sid@[3]);
            assert(sid@.subrange(2, 8)[2] == sid@[4]);
            assert(sid@.subrange(2, 8)[3] == sid@[5]);
            assert(sid@.subrange(2, 8)[4] == sid@[6]);
            assert(sid@.subrange(2, 8)[5] == sid@[7]);
        }
        return false;
    }
    proof {
        assert(sid@.subrange(2, 8) =~= seq![0u8, 0u8, 0u8, 0u8, 0u8, 5u8]);
        assert(sid@.subrange(8, 12) =~= sid@.skip(8).take(4));
    }
    let sub0 = u32_from_le_bytes(&sid[8..12]);
    proof {
        assert(sid@.subrange(8, 12).take(4) =~= sid@.subrange(8, 12));
    }
    sub0 == 21
}

} // verus!
