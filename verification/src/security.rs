//! Security hardening: the monitor that records violations, policy, and
//! sandbox configuration.

use vstd::prelude::*;

verus! {

/// Kinds of security event.
#[derive(Clone, Copy, Debug, PartialEq, Eq, Structural)]
pub enum SecurityEvent {
    /// Capability violation
    CapabilityViolation,
    /// Invalid memory access
    MemoryViolation,
    /// Syscall violation
    SyscallViolation,
    /// Network violation
    NetworkViolation,
    /// Cryptographic failure
    CryptoFailure,
}

/// What the monitor enforces.
#[derive(Clone, Copy, Debug, PartialEq, Eq, Structural)]
pub struct SecurityPolicy {
    /// Enforce capability checks
    pub enforce_capabilities: bool,
    /// Enforce memory protection
    pub enforce_memory_protection: bool,
    /// Enforce syscall filtering
    pub enforce_syscall_filter: bool,
    /// Enforce network filtering
    pub enforce_network_filter: bool,
    /// Record every event
    pub audit_all: bool,
}

impl Default for SecurityPolicy {
    /// The default policy: everything enforced, everything audited.
    fn default() -> (r: Self)
        ensures
            r == (SecurityPolicy {
                enforce_capabilities: true,
                enforce_memory_protection: true,
                enforce_syscall_filter: true,
                enforce_network_filter: true,
                audit_all: true,
            }),
    {
        SecurityPolicy {
            enforce_capabilities: true,
            enforce_memory_protection: true,
            enforce_syscall_filter: true,
            enforce_network_filter: true,
            audit_all: true,
        }
    }
}

/// The security monitor: counts every event and, under an auditing
/// policy, keeps the log.
#[derive(Debug)]
pub struct SecurityMonitor {
    /// Current policy
    policy: SecurityPolicy,
    /// Recorded events, oldest first
    events: Vec<SecurityEvent>,
    /// Events seen, whether or not recorded
    total_events: u64,
}

impl SecurityMonitor {
    /// Spec view of the policy.
    pub closed spec fn spec_policy(&self) -> SecurityPolicy {
        self.policy
    }

    /// Spec view of the recorded events.
    pub closed spec fn spec_events(&self) -> Seq<SecurityEvent> {
        self.events@
    }

    /// Spec view of the total event count.
    pub closed spec fn spec_total(&self) -> u64 {
        self.total_events
    }

    /// A monitor with a policy and an empty log.
    pub fn new(policy: SecurityPolicy) -> (r: Self)
        ensures
            r.spec_policy() == policy,
            r.spec_events().len() == 0,
            r.spec_total() == 0,
    {
        SecurityMonitor { policy, events: Vec::new(), total_events: 0 }
    }

    /// Count an event, and record it when the policy audits. Alerting the
    /// operator belongs to the platform layer.
    pub fn log_event(&mut self, event: SecurityEvent)
        requires
            old(self).spec_total() < u64::MAX,
        ensures
            final(self).spec_policy() == old(self).spec_policy(),
            final(self).spec_total() == old(self).spec_total() + 1,
            final(self).spec_events() == (if old(self).spec_policy().audit_all {
                old(self).spec_events().push(event)
            } else {
                old(self).spec_events()
            }),
    {
        self.total_events = self.total_events + 1;
        if self.policy.audit_all {
            self.events.push(event);
        }
    }

    /// How many events the log holds.
    pub fn get_event_count(&self) -> (r: usize)
        ensures
            r == self.spec_events().len(),
    {
        self.events.len()
    }
}

/// Sandbox resource limits and permissions.
#[derive(Debug)]
pub struct SandboxConfig {
    /// Allowed syscall numbers
    pub allowed_syscalls: Vec<u32>,
    /// Memory limit in bytes
    pub memory_limit: usize,
    /// CPU time limit in seconds
    pub cpu_limit: u32,
    /// Network access allowed
    pub network_allowed: bool,
    /// Filesystem access allowed
    pub filesystem_allowed: bool,
}

impl Default for SandboxConfig {
    /// The default sandbox: no syscalls, 256 MB, 60 seconds, no network,
    /// no filesystem.
    fn default() -> (r: Self)
        ensures
            r.allowed_syscalls@.len() == 0,
            r.memory_limit == 256 * 1024 * 1024,
            r.cpu_limit == 60,
            !r.network_allowed,
            !r.filesystem_allowed,
    {
        SandboxConfig {
            allowed_syscalls: Vec::new(),
            memory_limit: 256 * 1024 * 1024,
            cpu_limit: 60,
            network_allowed: false,
            filesystem_allowed: false,
        }
    }
}

/// Sandbox errors.
#[derive(Clone, Copy, Debug, PartialEq, Eq, Structural)]
pub enum SandboxError {
    /// Creation failed
    CreationFailed,
    /// Invalid configuration
    InvalidConfig,
}

/// Secure-boot errors.
#[derive(Clone, Copy, Debug, PartialEq, Eq, Structural)]
pub enum BootError {
    /// A signature failed verification
    SignatureInvalid,
    /// The chain of trust is broken
    ChainBroken,
}

/// Create an isolated sandbox from a configuration. Namespace and filter
/// programming belongs to the platform layer; the id handed back names
/// the sandbox this core models.
pub fn create_sandbox(config: SandboxConfig) -> (r: Result<u32, SandboxError>)
    ensures
        r == Ok::<u32, SandboxError>(1u32),
{
    Ok(1)
}

} // verus!
