//! The service's counters, and which policy values still have to be copied
//! to the registry for the credential provider.
use vstd::prelude::*;
use crate::win_service::audit::ServicePolicy;
use crate::win_service::com_types::AuthResponse;

verus! {

/// Name under which the service is registered.
pub const SERVICE_NAME: &'static str = "WinSLA Service";

/// Runtime counters of the service.
#[derive(Debug, Clone, Copy, PartialEq, Eq, Structural)]
pub struct ServiceState {
    pub running: bool,
    pub connections_accepted: u64,
    pub successful_authentications: u64,
    pub failed_authentications: u64,
}

impl ServiceState {
    /// A running service with all counters at zero.
    pub fn new() -> (s: ServiceState)
        ensures
            s == (ServiceState {
                running: true,
                connections_accepted: 0,
                successful_authentications: 0,
                failed_authentications: 0,
            }),
    {
        ServiceState { running: true, connections_accepted: 0, successful_authentications: 0, failed_authentications: 0 }
    }

    /// Marks activity (nothing is tracked beyond the counters).
    pub fn update_activity(&mut self)
        ensures
            *final(self) == *old(self),
    {
    }

    /// Counts an accepted pipe connection.
    pub fn record_connection(&mut self)
        requires
            old(self).connections_accepted < u64::MAX,
        ensures
            *final(self) == (ServiceState { connections_accepted: (old(self).connections_accepted + 1) as u64, ..*old(self) }),
    {
        self.connections_accepted = self.connections_accepted + 1;
    }

    /// Counts a successful authentication.
    pub fn record_success(&mut self)
        requires
            old(self).successful_authentications < u64::MAX,
        ensures
            *final(self) == (ServiceState {
                successful_authentications: (old(self).successful_authentications + 1) as u64,
                ..*old(self)
            }),
    {
        self.successful_authentications = self.successful_authentications + 1;
    }

    /// Counts a failed authentication.
    pub fn record_failure(&mut self)
        requires
            old(self).failed_authentications < u64::MAX,
        ensures
            *final(self) == (ServiceState {
                failed_authentications: (old(self).failed_authentications + 1) as u64,
                ..*old(self)
            }),
    {
        self.failed_authentications = self.failed_authentications + 1;
    }

    /// Records the answer given to one request: a success or a failure.
    pub fn record_response(&mut self, response: &AuthResponse)
        requires
            old(self).successful_authentications < u64::MAX,
            old(self).failed_authentications < u64::MAX,
        ensures
            (*response is Success) ==> *final(self) == (ServiceState {
                successful_authentications: (old(self).successful_authentications + 1) as u64,
                ..*old(self)
            }),
            !(*response is Success) ==> *final(self) == (ServiceState {
                failed_authentications: (old(self).failed_authentications + 1) as u64,
                ..*old(self)
            }),
    {
        self.update_activity();
        if response.is_success() {
            self.record_success();
        } else {
            self.record_failure();
        }
    }
}

impl Default for ServiceState {
    fn default() -> (s: Self)
        ensures
            s == (ServiceState {
                running: true,
                connections_accepted: 0,
                successful_authentications: 0,
                failed_authentications: 0,
            }),
    {
        Self::new()
    }
}

/// Every answer is counted once: after any sequence of answers, the
/// successes and failures add up to the number of answers.
pub proof fn lemma_every_answer_counted(before: ServiceState, after: ServiceState, success: bool)
    requires
        success ==> after == (ServiceState {
            successful_authentications: (before.successful_authentications + 1) as u64,
            ..before
        }),
        !success ==> after == (ServiceState { failed_authentications: (before.failed_authentications + 1) as u64, ..before }),
        before.successful_authentications < u64::MAX,
        before.failed_authentications < u64::MAX,
    ensures
        after.successful_authentications + after.failed_authentications == before.successful_authentications
            + before.failed_authentications + 1,
        after.connections_accepted == before.connections_accepted,
{
}

/// Seconds between two policy synchronisations.
pub const SYNC_INTERVAL_SECS: u64 = 10;

/// Registry key that holds the policy values for the credential provider.
pub const REGISTRY_POLICY_KEY: &'static str = "SOFTWARE\\WinSLA\\Policy";

/// The policy values last written to the registry (none before the first write).
#[derive(Debug, Clone, Copy, PartialEq, Eq, Structural)]
pub struct PolicySync {
    pub last_default_tile: Option<bool>,
    pub last_emergency_reason: Option<bool>,
}

impl PolicySync {
    /// Nothing written yet.
    pub fn new() -> (p: PolicySync)
        ensures
            p.last_default_tile is None,
            p.last_emergency_reason is None,
    {
        PolicySync { last_default_tile: None, last_emergency_reason: None }
    }

    /// Whether `policy` has to be written: some value differs from what was
    /// last written (always, before the first write).
    pub fn needs_write(&self, policy: &ServicePolicy) -> (b: bool)
        ensures
            b == (self.last_default_tile != Some(policy.default_tile_enabled)
                || self.last_emergency_reason != Some(policy.emergency_requires_reason)),
    {
        let same_tile = match self.last_default_tile {
            Some(v) => v == policy.default_tile_enabled,
            None => false,
        };
        let same_reason = match self.last_emergency_reason {
            Some(v) => v == policy.emergency_requires_reason,
            None => false,
        };
        !(same_tile && same_reason)
    }

    /// Remembers what a successful write put in the registry.
    pub fn written(&mut self, policy: &ServicePolicy)
        ensures
            final(self).last_default_tile == Some(policy.default_tile_enabled),
            final(self).last_emergency_reason == Some(policy.emergency_requires_reason),
    {
        self.last_default_tile = Some(policy.default_tile_enabled);
        self.last_emergency_reason = Some(policy.emergency_requires_reason);
    }
}

/// The REG_DWORD value for a flag.
pub fn dword_value(flag: bool) -> (v: u32)
    ensures
        v == (if flag { 1u32 } else { 0u32 }),
{
    if flag {
        1
    } else {
        0
    }
}

/// The registry is written only when a value changed: right after a
/// successful write of `policy`, the same values are not written again,
/// and any change of either value is.
pub proof fn lemma_write_only_on_change(sync: PolicySync, policy: ServicePolicy, next: ServicePolicy)
    requires
        sync.last_default_tile == Some(policy.default_tile_enabled),
        sync.last_emergency_reason == Some(policy.emergency_requires_reason),
    ensures
        (sync.last_default_tile != Some(next.default_tile_enabled) || sync.last_emergency_reason != Some(
            next.emergency_requires_reason,
        )) <==> (next.default_tile_enabled != policy.default_tile_enabled || next.emergency_requires_reason
            != policy.emergency_requires_reason),
{
}

} // verus!
