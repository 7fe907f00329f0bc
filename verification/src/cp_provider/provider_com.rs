//! The credential provider that LogonUI loads: the scenarios it serves, the
//! fields and tiles it offers, the interfaces it answers, which other
//! providers its filter lets through, and the class factory's server locks.
//! The COM objects themselves wrap this state outside the library.
use vstd::prelude::*;
use crate::cp_provider::credential_com::{
    CPUS_UNLOCK_WORKSTATION, E_INVALIDARG, E_NOINTERFACE, FIELD_COUNT, IID_IUNKNOWN, S_FALSE, S_OK, TileType,
};
use crate::cp_provider::dual_auth_credential::CLSID_DUAL_AUTH_PROVIDER;

verus! {

/// IID of ICredentialProvider {d27c3481-5a1c-45b2-8aaa-c20ebbe8229e}.
pub const IID_ICREDENTIAL_PROVIDER: u128 = 0xd27c3481_5a1c_45b2_8aaa_c20ebbe8229eu128;

/// IID of ICredentialProviderSetUserArray {095c1484-1c0c-4388-9c6d-500e61bf84bd}.
pub const IID_ICREDENTIAL_PROVIDER_SET_USER_ARRAY: u128 = 0x095c1484_1c0c_4388_9c6d_500e61bf84bdu128;

/// The provider's private marker IID {8DAE8B3E-5C7A-4F9B-B2E1-3AC4D5F6A7B8}.
pub const IID_WINSLA_PRIVATE_ID: u128 = 0x8DAE8B3E_5C7A_4F9B_B2E1_3AC4D5F6A7B8u128;

/// IID of ICredentialProviderFilter {a5da53f9-d475-4080-a120-910c4a739880}.
pub const IID_ICREDENTIAL_PROVIDER_FILTER: u128 = 0xa5da53f9_d475_4080_a120_910c4a739880u128;

/// IID of IClassFactory {00000001-0000-0000-C000-000000000046}.
pub const IID_ICLASS_FACTORY: u128 = 0x00000001_0000_0000_C000_000000000046u128;

/// Usage scenario: logon.
pub const CPUS_LOGON: u32 = 1;

/// Field types (CREDENTIAL_PROVIDER_FIELD_TYPE).
pub const CPFT_SMALL_TEXT: u32 = 2;
pub const CPFT_EDIT_TEXT: u32 = 4;
pub const CPFT_PASSWORD_TEXT: u32 = 5;
pub const CPFT_SUBMIT_BUTTON: u32 = 9;

/// E_NOTIMPL.
pub const E_NOTIMPL: i32 = -2147467263;

/// CLASS_E_CLASSNOTAVAILABLE as the provider returns it.
pub const CLASS_E_CLASSNOTAVAILABLE: i32 = -2147467262;

/// CLASS_E_NOAGGREGATION.
pub const CLASS_E_NOAGGREGATION: i32 = -2147467260;

/// CREDENTIAL_PROVIDER_NO_DEFAULT.
pub const NO_DEFAULT_TILE: u32 = 0xFFFFFFFF;

/// The provider's state.
#[derive(Debug, Clone, Copy, PartialEq, Eq, Structural)]
pub struct DualAuthProviderCom {
    pub ref_count: u32,
    pub usage_scenario: u32,
    /// LogonUI runs in a remote (RDP) session.
    pub remote_session: bool,
}

/// The interface a query on the provider answers with.
#[derive(Debug, Clone, Copy, PartialEq, Eq, Structural)]
pub enum ProviderAnswer {
    /// The provider object itself (also for the private marker IID).
    Provider,
    /// Its SetUserArray companion.
    SetUserArray,
    /// Its filter companion.
    Filter,
    /// E_NOINTERFACE.
    NoInterface,
}

pub open spec fn provider_answer(iid: u128) -> ProviderAnswer {
    if iid == IID_IUNKNOWN || iid == IID_ICREDENTIAL_PROVIDER || iid == IID_WINSLA_PRIVATE_ID {
        ProviderAnswer::Provider
    } else if iid == IID_ICREDENTIAL_PROVIDER_SET_USER_ARRAY {
        ProviderAnswer::SetUserArray
    } else if iid == IID_ICREDENTIAL_PROVIDER_FILTER {
        ProviderAnswer::Filter
    } else {
        ProviderAnswer::NoInterface
    }
}

/// Tiles are withheld only when unlocking a remote session (the built-in
/// password tile takes over there).
pub open spec fn tiles_offered(usage_scenario: u32, remote_session: bool) -> u32 {
    if usage_scenario == CPUS_UNLOCK_WORKSTATION && remote_session {
        0
    } else {
        2
    }
}

/// (type, label) of each field the provider describes.
pub open spec fn descriptor(index: u32) -> (u32, Seq<char>) {
    if index == 0 {
        (CPFT_EDIT_TEXT, "用户名"@)
    } else if index == 1 {
        (CPFT_PASSWORD_TEXT, "密码"@)
    } else if index == 2 {
        (CPFT_EDIT_TEXT, "审批人"@)
    } else if index == 3 {
        (CPFT_PASSWORD_TEXT, "审批人密码"@)
    } else if index == 4 {
        (CPFT_EDIT_TEXT, "应急原因"@)
    } else if index == 5 {
        (CPFT_SUBMIT_BUTTON, "验证并登录"@)
    } else {
        (CPFT_SMALL_TEXT, "状态"@)
    }
}

impl DualAuthProviderCom {
    /// A new provider: one reference, no scenario yet.
    pub fn new() -> (p: DualAuthProviderCom)
        ensures
            p == (DualAuthProviderCom { ref_count: 1, usage_scenario: 0, remote_session: false }),
    {
        DualAuthProviderCom { ref_count: 1, usage_scenario: 0, remote_session: false }
    }

    /// IUnknown::AddRef; returns the new count.
    pub fn add_ref(&mut self) -> (n: u32)
        requires
            old(self).ref_count < u32::MAX,
        ensures
            n == old(self).ref_count + 1,
            *final(self) == (DualAuthProviderCom { ref_count: n, ..*old(self) }),
    {
        self.ref_count = self.ref_count + 1;
        self.ref_count
    }

    /// IUnknown::Release; returns the new count (destroyed at zero).
    pub fn release(&mut self) -> (n: u32)
        requires
            old(self).ref_count > 0,
        ensures
            n == old(self).ref_count - 1,
            *final(self) == (DualAuthProviderCom { ref_count: n, ..*old(self) }),
    {
        self.ref_count = self.ref_count - 1;
        self.ref_count
    }

    /// IUnknown::QueryInterface; a positive answer takes a reference.
    pub fn query_interface(&mut self, iid: u128) -> (a: ProviderAnswer)
        requires
            old(self).ref_count < u32::MAX,
        ensures
            a == provider_answer(iid),
            a != ProviderAnswer::NoInterface ==> *final(self) == (DualAuthProviderCom {
                ref_count: (old(self).ref_count + 1) as u32,
                ..*old(self)
            }),
            a == ProviderAnswer::NoInterface ==> *final(self) == *old(self),
    {
        let a = if iid == IID_IUNKNOWN || iid == IID_ICREDENTIAL_PROVIDER || iid == IID_WINSLA_PRIVATE_ID {
            ProviderAnswer::Provider
        } else if iid == IID_ICREDENTIAL_PROVIDER_SET_USER_ARRAY {
            ProviderAnswer::SetUserArray
        } else if iid == IID_ICREDENTIAL_PROVIDER_FILTER {
            ProviderAnswer::Filter
        } else {
            ProviderAnswer::NoInterface
        };
        if a != ProviderAnswer::NoInterface {
            self.add_ref();
        }
        a
    }

    /// SetUsageScenario: logon and unlock are served (remembering whether
    /// the session is remote); every other scenario is E_NOTIMPL.
    pub fn set_usage_scenario(&mut self, cpus: u32, remote_session: bool) -> (hr: i32)
        ensures
            (cpus == CPUS_LOGON || cpus == CPUS_UNLOCK_WORKSTATION) ==> hr == S_OK && *final(self) == (
            DualAuthProviderCom { usage_scenario: cpus, remote_session, ..*old(self) }),
            !(cpus == CPUS_LOGON || cpus == CPUS_UNLOCK_WORKSTATION) ==> hr == E_NOTIMPL && *final(self) == *old(self),
    {
        if cpus == CPUS_LOGON || cpus == CPUS_UNLOCK_WORKSTATION {
            self.usage_scenario = cpus;
            self.remote_session = remote_session;
            S_OK
        } else {
            E_NOTIMPL
        }
    }

    /// GetCredentialCount: (count, default tile, auto-logon).
    pub fn credential_count(&self) -> (r: (u32, u32, i32))
        ensures
            r == (tiles_offered(self.usage_scenario, self.remote_session), NO_DEFAULT_TILE, 0i32),
    {
        if self.usage_scenario == CPUS_UNLOCK_WORKSTATION && self.remote_session {
            (0, NO_DEFAULT_TILE, 0)
        } else {
            (2, NO_DEFAULT_TILE, 0)
        }
    }
}

/// GetFieldDescriptorAt: the field's type and label, or E_INVALIDARG.
pub fn field_descriptor(index: u32) -> (r: Result<(u32, &'static str), i32>)
    ensures
        index >= FIELD_COUNT ==> r == Err::<(u32, &'static str), i32>(E_INVALIDARG),
        index < FIELD_COUNT ==> (r matches Ok((t, label)) && (t, label@) == descriptor(index)),
{
    if index >= FIELD_COUNT {
        return Err(E_INVALIDARG);
    }
    if index == 0 {
        Ok((CPFT_EDIT_TEXT, "用户名"))
    } else if index == 1 {
        Ok((CPFT_PASSWORD_TEXT, "密码"))
    } else if index == 2 {
        Ok((CPFT_EDIT_TEXT, "审批人"))
    } else if index == 3 {
        Ok((CPFT_PASSWORD_TEXT, "审批人密码"))
    } else if index == 4 {
        Ok((CPFT_EDIT_TEXT, "应急原因"))
    } else if index == 5 {
        Ok((CPFT_SUBMIT_BUTTON, "验证并登录"))
    } else {
        Ok((CPFT_SMALL_TEXT, "状态"))
    }
}

/// GetCredentialAt: tile 0 is the dual-control tile, tile 1 the emergency
/// tile; any other index is E_INVALIDARG.
pub fn credential_tile(index: u32) -> (r: Result<TileType, i32>)
    ensures
        index == 0 ==> r == Ok::<TileType, i32>(TileType::Dual),
        index == 1 ==> r == Ok::<TileType, i32>(TileType::Emergency),
        index > 1 ==> r == Err::<TileType, i32>(E_INVALIDARG),
{
    if index > 1 {
        Err(E_INVALIDARG)
    } else if index == 0 {
        Ok(TileType::Dual)
    } else {
        Ok(TileType::Emergency)
    }
}

/// Whether the filter hides the other providers: only when the policy
/// value was read and says the dual tile is not the default.
pub open spec fn hides_others(default_tile: Result<Option<bool>, String>) -> bool {
    default_tile matches Ok(Some(false))
}

/// Which providers the filter lets through, for the scenario, the remote
/// flag, the policy value and the providers' CLSIDs.
pub open spec fn filter_decision(cpus: u32, remote_session: bool, default_tile: Result<Option<bool>, String>, clsid: u128) -> bool {
    if cpus == CPUS_UNLOCK_WORKSTATION && remote_session {
        true
    } else if !hides_others(default_tile) {
        true
    } else {
        clsid == CLSID_DUAL_AUTH_PROVIDER
    }
}

/// ICredentialProviderFilter::Filter: E_NOTIMPL outside logon and unlock;
/// otherwise one allow flag per provider. Unlocking a remote session lets
/// every provider through, as does any policy other than an explicit
/// "dual tile is not the default" (fail-open); under that policy only this
/// provider remains.
pub fn filter_providers(cpus: u32, remote_session: bool, default_tile: Result<Option<bool>, String>, clsids: &[u128]) -> (r:
    Result<Vec<bool>, i32>)
    ensures
        !(cpus == CPUS_LOGON || cpus == CPUS_UNLOCK_WORKSTATION) ==> r == Err::<Vec<bool>, i32>(E_NOTIMPL),
        (cpus == CPUS_LOGON || cpus == CPUS_UNLOCK_WORKSTATION) ==> (r matches Ok(allow) && allow.len() == clsids.len()
            && forall|i: int| 0 <= i < clsids.len() ==> #[trigger] allow@[i] == filter_decision(cpus, remote_session, default_tile, clsids@[i])),
{
    if cpus != CPUS_LOGON && cpus != CPUS_UNLOCK_WORKSTATION {
        return Err(E_NOTIMPL);
    }
    let allow_all = (cpus == CPUS_UNLOCK_WORKSTATION && remote_session) || !matches!(default_tile, Ok(Some(false)));
    let mut allow: Vec<bool> = Vec::new();
    let mut i: usize = 0;
    while i < clsids.len()
        invariant
            i <= clsids.len(),
            allow.len() == i,
            allow_all == ((cpus == CPUS_UNLOCK_WORKSTATION && remote_session) || !hides_others(default_tile)),
            forall|j: int| 0 <= j < i ==> #[trigger] allow@[j] == filter_decision(cpus, remote_session, default_tile, clsids@[j]),
        decreases clsids.len() - i,
    {
        if allow_all {
            allow.push(true);
        } else {
            allow.push(clsids[i] == CLSID_DUAL_AUTH_PROVIDER);
        }
        i = i + 1;
    }
    Ok(allow)
}

/// The filter never hides this provider, and hides another provider only
/// under an explicit policy that the dual tile is not the default (never
/// while unlocking a remote session, never when the policy is missing or
/// unreadable).
pub proof fn lemma_filter_never_locks_out(cpus: u32, remote_session: bool, default_tile: Result<Option<bool>, String>, clsid: u128)
    ensures
        filter_decision(cpus, remote_session, default_tile, CLSID_DUAL_AUTH_PROVIDER),
        !filter_decision(cpus, remote_session, default_tile, clsid) ==> default_tile == Ok::<Option<bool>, String>(Some(false))
            && !(cpus == CPUS_UNLOCK_WORKSTATION && remote_session) && clsid != CLSID_DUAL_AUTH_PROVIDER,
{
}

/// DefaultTileEnabled as read from the registry: none when the key or value
/// is missing, else whether the DWORD is 1.
pub fn default_tile_from_registry(key_opened: bool, value: Option<u32>) -> (r: Option<bool>)
    ensures
        r == (if !key_opened {
            None::<bool>
        } else {
            match value {
                Some(v) => Some(v == 1),
                None => None,
            }
        }),
{
    if !key_opened {
        return None;
    }
    match value {
        Some(v) => Some(v == 1),
        None => None,
    }
}

/// EmergencyRequiresReason as read from the registry: a reason is required
/// unless the DWORD was read and is something other than 1 (fail-safe).
pub fn requires_reason_from_registry(key_opened: bool, value: Option<u32>) -> (r: bool)
    ensures
        r == (if !key_opened {
            true
        } else {
            match value {
                Some(v) => v == 1,
                None => true,
            }
        }),
{
    if !key_opened {
        return true;
    }
    match value {
        Some(v) => v == 1,
        None => true,
    }
}

// ─── Class factory and DLL exports ────────────────────────────────

/// One LockServer call on the count: up on lock, down on unlock, wrapping
/// around as the atomic counter does.
pub open spec fn lock_step(count: u32, lock: bool) -> u32 {
    if lock {
        if count == u32::MAX { 0 } else { (count + 1) as u32 }
    } else {
        if count == 0 { u32::MAX } else { (count - 1) as u32 }
    }
}

/// The count after the LockServer calls `calls` (`true`: lock, `false`:
/// unlock), in order, from `start`.
pub open spec fn lock_count_after(start: u32, calls: Seq<bool>) -> u32
    decreases calls.len(),
{
    if calls.len() == 0 {
        start
    } else {
        lock_step(lock_count_after(start, calls.drop_last()), calls.last())
    }
}

/// Locks taken minus locks released in `calls`.
pub open spec fn net_locks(calls: Seq<bool>) -> int
    decreases calls.len(),
{
    if calls.len() == 0 {
        0
    } else {
        net_locks(calls.drop_last()) + if calls.last() { 1int } else { -1int }
    }
}

/// The class factory's server lock count (IClassFactory::LockServer).
#[derive(Debug, Clone, Copy, PartialEq, Eq, Structural)]
pub struct ServerLocks {
    pub count: u32,
}

impl ServerLocks {
    /// No locks.
    pub fn new() -> (s: ServerLocks)
        ensures
            s.count == 0,
    {
        ServerLocks { count: 0 }
    }

    /// LockServer: counts up on lock, down on unlock (wrapping, as the
    /// atomic counter does).
    pub fn lock_server(&mut self, lock: bool) -> (hr: i32)
        ensures
            hr == S_OK,
            final(self).count == lock_step(old(self).count, lock),
    {
        if lock {
            self.count = self.count.wrapping_add(1);
        } else {
            self.count = self.count.wrapping_sub(1);
        }
        S_OK
    }
}

/// Whether the DLL may be unloaded: no server lock is held.
pub fn can_unload_now(locks: &ServerLocks) -> (b: bool)
    ensures
        b == (locks.count == 0),
{
    locks.count == 0
}

/// DllCanUnloadNow: S_OK when unloadable, else S_FALSE.
pub fn dll_can_unload_now(locks: &ServerLocks) -> (hr: i32)
    ensures
        hr == (if locks.count == 0 { S_OK } else { S_FALSE }),
{
    if can_unload_now(locks) {
        S_OK
    } else {
        S_FALSE
    }
}

/// Whether the class factory answers `iid` (IUnknown, IClassFactory).
pub fn class_factory_answers(iid: u128) -> (b: bool)
    ensures
        b == (iid == IID_IUNKNOWN || iid == IID_ICLASS_FACTORY),
{
    iid == IID_IUNKNOWN || iid == IID_ICLASS_FACTORY
}

/// DllGetClassObject's check of the requested class: only this provider's
/// CLSID is served.
pub fn class_available(clsid: u128) -> (r: Result<(), i32>)
    ensures
        clsid == CLSID_DUAL_AUTH_PROVIDER ==> r is Ok,
        clsid != CLSID_DUAL_AUTH_PROVIDER ==> r == Err::<(), i32>(CLASS_E_CLASSNOTAVAILABLE),
{
    if clsid == CLSID_DUAL_AUTH_PROVIDER {
        Ok(())
    } else {
        Err(CLASS_E_CLASSNOTAVAILABLE)
    }
}

/// Taking a server lock and releasing it again leaves the count as it was.
pub proof fn lemma_lock_unlock(count: u32)
    ensures
        ({
            let up: u32 = if count == u32::MAX { 0 } else { (count + 1) as u32 };
            let down: u32 = if up == 0 { u32::MAX } else { (up - 1) as u32 };
            down == count
        }),
{
}

/// The DLL may be unloaded exactly when every server lock taken has been
/// released: after any sequence of LockServer calls from a fresh factory, the
/// count is the number of locks minus the number of unlocks (modulo 2^32, as
/// the counter wraps), so while that difference is between 0 and `u32::MAX`
/// `can_unload_now` holds exactly when it is 0.
pub proof fn lemma_unload_iff_all_released(calls: Seq<bool>)
    ensures
        lock_count_after(0, calls) as int == net_locks(calls) % 0x1_0000_0000,
        0 <= net_locks(calls) <= u32::MAX ==> (lock_count_after(0, calls) == 0 <==> net_locks(calls) == 0),
    decreases calls.len(),
{
    if calls.len() > 0 {
        lemma_unload_iff_all_released(calls.drop_last());
        let n = net_locks(calls.drop_last());
        let c = lock_count_after(0, calls.drop_last());
        assert(c as int == n % 0x1_0000_0000);
        if calls.last() {
            assert(lock_count_after(0, calls) as int == (n + 1) % 0x1_0000_0000) by (nonlinear_arith)
                requires
                    c as int == n % 0x1_0000_0000,
                    lock_count_after(0, calls) == lock_step(c, true),
                    0 <= c <= u32::MAX,
            ;
        } else {
            assert(lock_count_after(0, calls) as int == (n - 1) % 0x1_0000_0000) by (nonlinear_arith)
                requires
                    c as int == n % 0x1_0000_0000,
                    lock_count_after(0, calls) == lock_step(c, false),
                    0 <= c <= u32::MAX,
            ;
        }
    }
}


/// Under the policy "the dual tile is not the default" the filter offers the
/// dual tile alone, at logon and at every unlock except that of a remote
/// session: every other provider is hidden there. In every other case each
/// provider is let through.
pub proof fn lemma_filter_policy_leaves_only_dual_tile(cpus: u32, remote_session: bool, default_tile: Result<Option<bool>, String>, clsid: u128)
    requires
        cpus == CPUS_LOGON || cpus == CPUS_UNLOCK_WORKSTATION,
    ensures
        filter_decision(cpus, remote_session, default_tile, clsid) <==> (clsid == CLSID_DUAL_AUTH_PROVIDER
            || (cpus == CPUS_UNLOCK_WORKSTATION && remote_session)
            || default_tile != Ok::<Option<bool>, String>(Some(false))),
        default_tile == Ok::<Option<bool>, String>(Some(false)) && !(cpus == CPUS_UNLOCK_WORKSTATION && remote_session)
            && clsid != CLSID_DUAL_AUTH_PROVIDER ==> !filter_decision(cpus, remote_session, default_tile, clsid),
{
}

} // verus!
