//! Capability tokens and the registry that owns them.
//!
//! A capability is an unforgeable token granting a permission set over one
//! resource. The registry is the sole authority: it mints capabilities with
//! monotonically increasing ids, tracks delegation edges through the
//! `parent` field, appends an audit entry for every operation, and is the
//! only place where revocation state lives. A held token is just a claim
//! ticket; `validate_capability` consults the registry, so a copy becomes
//! useless the instant the registry entry is revoked.
//!
//! The registry is one shared structure mutated by many callers; every
//! operation takes it `&mut`, so the platform wraps it in its
//! mutual-exclusion primitive and the contracts here hold under any such
//! discipline. Audit records carry actor process id 0 — the kernel — as
//! the sole caller of this core.

use vstd::prelude::*;

verus! {

/// Kinds of resource a capability can govern.
#[derive(Clone, Copy, Debug, Hash, PartialEq, Eq, Structural)]
pub enum CapabilityType {
    /// Memory access capability
    Memory,
    /// File system access capability
    FileSystem,
    /// Network access capability
    Network,
    /// Device access capability
    Device,
    /// IPC capability
    IPC,
    /// Process management capability
    Process,
    /// Cryptographic operations capability
    Crypto,
    /// Time access capability
    Time,
}

/// Identifies exactly which resource a capability grants.
#[derive(Debug, PartialEq, Eq)]
pub enum ResourceId {
    /// Memory region (start address, size)
    Memory { start: usize, size: usize },
    /// File path
    File { path: String },
    /// Network endpoint (IP, port)
    Network { ip: [u8; 4], port: u16 },
    /// Device (device ID)
    Device { device_id: u32 },
    /// IPC channel (channel ID)
    IPC { channel_id: u64 },
    /// Process (process ID)
    Process { pid: u32 },
    /// Cryptographic key (key ID)
    CryptoKey { key_id: u64 },
}

/// The five rights of the permission algebra.
#[derive(Clone, Copy, Debug, PartialEq, Eq, Structural)]
pub enum Permission {
    /// Right to read
    Read,
    /// Right to write
    Write,
    /// Right to execute
    Execute,
    /// Right to delete
    Delete,
    /// Right to delegate (create child capabilities)
    Delegate,
}

/// A set of rights, one boolean per right.
#[derive(Clone, Copy, Debug, PartialEq, Eq, Structural)]
pub struct PermissionSet {
    /// Read permission
    pub read: bool,
    /// Write permission
    pub write: bool,
    /// Execute permission
    pub execute: bool,
    /// Delete permission
    pub delete: bool,
    /// Delegate permission (can create child capabilities)
    pub delegate: bool,
}

impl PermissionSet {
    /// The subset-of relation of the permission algebra.
    pub open spec fn subset_of(self, other: Self) -> bool {
        &&& (self.read ==> other.read)
        &&& (self.write ==> other.write)
        &&& (self.execute ==> other.execute)
        &&& (self.delete ==> other.delete)
        &&& (self.delegate ==> other.delegate)
    }

    /// Whether `p` is among the granted rights.
    pub open spec fn grants(self, p: Permission) -> bool {
        match p {
            Permission::Read => self.read,
            Permission::Write => self.write,
            Permission::Execute => self.execute,
            Permission::Delete => self.delete,
            Permission::Delegate => self.delegate,
        }
    }

    /// Read-only permissions.
    pub fn read_only() -> (r: Self)
        ensures
            r == (PermissionSet {
                read: true,
                write: false,
                execute: false,
                delete: false,
                delegate: false,
            }),
    {
        PermissionSet { read: true, write: false, execute: false, delete: false, delegate: false }
    }

    /// Read-write permissions.
    pub fn read_write() -> (r: Self)
        ensures
            r == (PermissionSet {
                read: true,
                write: true,
                execute: false,
                delete: false,
                delegate: false,
            }),
    {
        PermissionSet { read: true, write: true, execute: false, delete: false, delegate: false }
    }

    /// Full permissions, every right granted.
    pub fn full() -> (r: Self)
        ensures
            r == (PermissionSet {
                read: true,
                write: true,
                execute: true,
                delete: true,
                delegate: true,
            }),
    {
        PermissionSet { read: true, write: true, execute: true, delete: true, delegate: true }
    }

    /// Check if this is a subset of another permission set.
    pub fn is_subset_of(&self, other: &Self) -> (r: bool)
        ensures
            r == self.subset_of(*other),
    {
        (!self.read || other.read) && (!self.write || other.write) && (!self.execute
            || other.execute) && (!self.delete || other.delete) && (!self.delegate
            || other.delegate)
    }
}

/// Unforgeable token that grants specific permissions to a resource.
///
/// Immutable except for the revocation flag, which only the registry flips.
#[derive(Debug)]
pub struct Capability {
    /// Unique capability ID (unforgeable)
    id: u64,
    /// Capability type
    cap_type: CapabilityType,
    /// Resource identifier
    resource_id: ResourceId,
    /// Permissions granted
    permissions: PermissionSet,
    /// Expiry timestamp (0 = never expires)
    expiry: u64,
    /// Parent capability ID (for delegation tracking)
    parent: Option<u64>,
    /// Delegation depth (prevents infinite delegation chains)
    depth: u8,
    /// Revocation status
    revoked: bool,
}

impl Capability {
    /// The token's unique id.
    pub fn id(&self) -> (r: u64)
        ensures
            r == self.spec_id(),
    {
        self.id
    }

    /// The kind of resource this token governs.
    pub fn cap_type(&self) -> (r: CapabilityType)
        ensures
            r == self.spec_cap_type(),
    {
        self.cap_type
    }

    /// The exact resource granted.
    pub fn resource_id(&self) -> (r: &ResourceId)
        ensures
            *r == self.spec_resource_id(),
    {
        &self.resource_id
    }

    /// The rights granted.
    pub fn permissions(&self) -> (r: PermissionSet)
        ensures
            r == self.spec_permissions(),
    {
        self.permissions
    }

    /// Expiry timestamp; 0 means the token never expires.
    pub fn expiry(&self) -> (r: u64)
        ensures
            r == self.spec_expiry(),
    {
        self.expiry
    }

    /// Id of the capability this one was delegated from, if any.
    pub fn parent(&self) -> (r: Option<u64>)
        ensures
            r == self.spec_parent(),
    {
        self.parent
    }

    /// Length of the delegation chain from the root.
    pub fn depth(&self) -> (r: u8)
        ensures
            r == self.spec_depth(),
    {
        self.depth
    }

    /// The token copy's own revocation flag. Stale the moment the registry
    /// revokes; authority always lies with `validate_capability`.
    pub fn revoked(&self) -> (r: bool)
        ensures
            r == self.spec_revoked(),
    {
        self.revoked
    }

    /// Spec view of the id field.
    pub closed spec fn spec_id(self) -> u64 {
        self.id
    }

    /// Spec view of the kind field.
    pub closed spec fn spec_cap_type(self) -> CapabilityType {
        self.cap_type
    }

    /// Spec view of the resource field.
    pub closed spec fn spec_resource_id(self) -> ResourceId {
        self.resource_id
    }

    /// Spec view of the permission set.
    pub closed spec fn spec_permissions(self) -> PermissionSet {
        self.permissions
    }

    /// Spec view of the expiry field.
    pub closed spec fn spec_expiry(self) -> u64 {
        self.expiry
    }

    /// Spec view of the parent field.
    pub closed spec fn spec_parent(self) -> Option<u64> {
        self.parent
    }

    /// Spec view of the depth field.
    pub closed spec fn spec_depth(self) -> u8 {
        self.depth
    }

    /// Spec view of the revocation flag.
    pub closed spec fn spec_revoked(self) -> bool {
        self.revoked
    }
}

impl Clone for ResourceId {
    /// An exact copy of the resource identifier.
    fn clone(&self) -> (r: Self)
        ensures
            r == *self,
    {
        match self {
            ResourceId::Memory { start, size } => ResourceId::Memory { start: *start, size: *size },
            ResourceId::File { path } => ResourceId::File { path: path.clone() },
            ResourceId::Network { ip, port } => ResourceId::Network { ip: *ip, port: *port },
            ResourceId::Device { device_id } => ResourceId::Device { device_id: *device_id },
            ResourceId::IPC { channel_id } => ResourceId::IPC { channel_id: *channel_id },
            ResourceId::Process { pid } => ResourceId::Process { pid: *pid },
            ResourceId::CryptoKey { key_id } => ResourceId::CryptoKey { key_id: *key_id },
        }
    }
}

impl Clone for Capability {
    /// An exact copy of the token. Copies carry no authority of their own:
    /// validation always consults the registry.
    fn clone(&self) -> (r: Self)
        ensures
            r == *self,
    {
        Capability {
            id: self.id,
            cap_type: self.cap_type,
            resource_id: self.resource_id.clone(),
            permissions: self.permissions,
            expiry: self.expiry,
            parent: self.parent,
            depth: self.depth,
            revoked: self.revoked,
        }
    }
}

/// Operations recorded in the audit log.
#[derive(Clone, Copy, Debug, PartialEq, Eq, Structural)]
pub enum AuditOperation {
    /// Capability created without a parent
    Created,
    /// Capability created by delegation
    Delegated,
    /// Capability validated successfully
    Used,
    /// Capability revoked
    Revoked,
    /// Capability found expired
    Expired,
}

/// One record of the append-only audit trail.
#[derive(Clone, Copy, Debug, PartialEq, Eq, Structural)]
pub struct AuditEntry {
    /// Registry clock at the time of the operation
    pub timestamp: u64,
    /// Operation type
    pub operation: AuditOperation,
    /// Capability the operation concerned
    pub capability_id: u64,
    /// Process that performed the operation
    pub process_id: u32,
}

/// Errors of the capability algebra.
#[derive(Clone, Copy, Debug, PartialEq, Eq, Structural)]
pub enum CapabilityError {
    /// Capability not found in the registry
    NotFound,
    /// Capability has been revoked
    Revoked,
    /// Capability has expired
    Expired,
    /// Requested right is not granted
    PermissionDenied,
    /// Parent capability is revoked
    ParentRevoked,
    /// Parent lacks the delegate right
    NoDelegatePermission,
    /// Requested rights exceed the parent's
    PermissionEscalation,
    /// Parent already at the maximum delegation depth
    DelegationDepthExceeded,
}

/// Read-only snapshot of registry counters.
#[derive(Clone, Copy, Debug, PartialEq, Eq, Structural)]
pub struct CapabilityStats {
    /// Total capabilities ever registered
    pub total_capabilities: usize,
    /// Active (non-revoked) capabilities
    pub active_capabilities: usize,
    /// Revoked capabilities
    pub revoked_capabilities: usize,
    /// Audit log entries
    pub audit_entries: usize,
}

/// Whether some entry of `caps` carries id `id`.
pub open spec fn contains_id(caps: Seq<Capability>, id: u64) -> bool {
    exists|i: int| 0 <= i < caps.len() && caps[i].spec_id() == id
}

/// Index of the entry carrying `id`; meaningful only when `contains_id`.
pub open spec fn idx_of(caps: Seq<Capability>, id: u64) -> int {
    choose|i: int| 0 <= i < caps.len() && caps[i].spec_id() == id
}

/// The registry entry carrying `id`; meaningful only when `contains_id`.
pub open spec fn entry_of(caps: Seq<Capability>, id: u64) -> Capability {
    caps[idx_of(caps, id)]
}

/// Whether the entry at index `j` descends (reflexively, through parent
/// edges) from the capability with id `root`.
pub open spec fn in_subtree(caps: Seq<Capability>, root: u64, j: int) -> bool
    decreases j,
{
    0 <= j < caps.len() && (caps[j].spec_id() == root || (match caps[j].spec_parent() {
        Some(p) => {
            let i = idx_of(caps, p);
            contains_id(caps, p) && 0 <= i < j && in_subtree(caps, root, i)
        },
        None => false,
    }))
}

/// How many entries of `caps` are revoked.
pub open spec fn count_revoked(caps: Seq<Capability>) -> int
    decreases caps.len(),
{
    if caps.len() == 0 {
        0
    } else {
        count_revoked(caps.drop_last()) + if caps.last().spec_revoked() {
            1int
        } else {
            0int
        }
    }
}

/// Whether the parent edge of the entry at index `j`, if any, points to an
/// earlier entry of `caps`.
pub open spec fn parent_linked(caps: Seq<Capability>, j: int) -> bool {
    match caps[j].spec_parent() {
        Some(p) => exists|i: int| 0 <= i < j && #[trigger] caps[i].spec_id() == p,
        None => true,
    }
}

/// Well-formedness of a capability sequence with respect to the next id to
/// mint: ids strictly increase with position (hence are unique and below
/// `next_id`), every parent edge points to an earlier entry, and revocation
/// is closed downward over parent edges.
pub open spec fn caps_wf(caps: Seq<Capability>, next_id: u64) -> bool {
    &&& forall|i: int| 0 <= i < caps.len() ==> #[trigger] caps[i].spec_id() < next_id
    &&& forall|i: int, j: int|
        0 <= i < j < caps.len() ==> #[trigger] caps[i].spec_id() < #[trigger] caps[j].spec_id()
    &&& forall|j: int| 0 <= j < caps.len() ==> #[trigger] parent_linked(caps, j)
    &&& forall|i: int, j: int|
        #![trigger caps[j].spec_parent(), caps[i].spec_revoked()]
        0 <= i < caps.len() && 0 <= j < caps.len() && caps[j].spec_parent() == Some(
            caps[i].spec_id(),
        ) && caps[i].spec_revoked() ==> caps[j].spec_revoked()
}

/// Central registry for all capabilities in the system.
///
/// Owns every live token's authoritative state and the audit trail. Created
/// once at boot and handed to every subsystem; "already initialized" is a
/// constructor precondition rather than a runtime flag.
pub struct CapabilityRegistry {
    /// All capabilities, in order of creation (ids strictly increasing)
    capabilities: Vec<Capability>,
    /// Append-only audit trail
    audit_log: Vec<AuditEntry>,
    /// Next capability id to mint; ids are never reused
    next_id: u64,
    /// Current time, as injected by the platform clock
    clock: u64,
    /// Whether the root capability has been minted
    root_created: bool,
}

impl CapabilityRegistry {
    /// Sequence of all registered capabilities, in creation order.
    pub closed spec fn caps(&self) -> Seq<Capability> {
        self.capabilities@
    }

    /// Sequence of all audit records, oldest first.
    pub closed spec fn audit(&self) -> Seq<AuditEntry> {
        self.audit_log@
    }

    /// The id the next minted capability will carry.
    pub closed spec fn spec_next_id(&self) -> u64 {
        self.next_id
    }

    /// The registry's current notion of time.
    pub closed spec fn spec_clock(&self) -> u64 {
        self.clock
    }

    /// Whether `create_root` has run.
    pub closed spec fn spec_root_created(&self) -> bool {
        self.root_created
    }

    /// Registry well-formedness: ids strictly increase with position (hence
    /// are unique and below `next_id`), every parent edge points to an
    /// earlier entry, and revocation is closed downward over parent edges.
    pub open spec fn wf(&self) -> bool {
        caps_wf(self.caps(), self.spec_next_id())
    }

    /// Create an empty registry. Done once at kernel bootstrap.
    pub fn new() -> (r: Self)
        ensures
            r.wf(),
            r.caps().len() == 0,
            r.audit().len() == 0,
            r.spec_next_id() == 1,
            r.spec_clock() == 0,
            !r.spec_root_created(),
    {
        CapabilityRegistry {
            capabilities: Vec::new(),
            audit_log: Vec::new(),
            next_id: 1,
            clock: 0,
            root_created: false,
        }
    }

    /// Inject the platform's current time; `validate_capability` measures
    /// expiry against this value.
    pub fn set_clock(&mut self, now: u64)
        requires
            old(self).wf(),
        ensures
            final(self).wf(),
            final(self).spec_clock() == now,
            final(self).caps() == old(self).caps(),
            final(self).audit() == old(self).audit(),
            final(self).spec_next_id() == old(self).spec_next_id(),
            final(self).spec_root_created() == old(self).spec_root_created(),
    {
        self.clock = now;
    }

    /// Whether the registry has minted its root capability.
    pub fn is_initialized(&self) -> (r: bool)
        ensures
            r == self.spec_root_created(),
    {
        self.root_created
    }

    /// Index of the entry with the given id, if registered.
    fn find_by_id(&self, id: u64) -> (r: Option<usize>)
        ensures
            match r {
                Some(i) => i < self.caps().len() && self.caps()[i as int].spec_id() == id,
                None => !contains_id(self.caps(), id),
            },
    {
        let mut i: usize = 0;
        while i < self.capabilities.len()
            invariant
                i <= self.caps().len(),
                forall|k: int| 0 <= k < i ==> #[trigger] self.caps()[k].spec_id() != id,
            decreases self.caps().len() - i,
        {
            if self.capabilities[i].id == id {
                return Some(i);
            }
            i = i + 1;
        }
        None
    }

    /// Mint the root capability: full permissions over the entire
    /// addressable resource space, no parent, depth 0, never expires.
    ///
    /// Called exactly once during kernel bootstrap; minting a second root
    /// is a programming error, excluded by precondition.
    pub fn create_root(&mut self) -> (r: Capability)
        requires
            old(self).wf(),
            !old(self).spec_root_created(),
            old(self).spec_next_id() < u64::MAX,
        ensures
            final(self).wf(),
            final(self).spec_root_created(),
            r.spec_id() == old(self).spec_next_id(),
            r.spec_cap_type() == CapabilityType::Memory,
            r.spec_resource_id() == (ResourceId::Memory { start: 0, size: usize::MAX }),
            r.spec_permissions() == (PermissionSet {
                read: true,
                write: true,
                execute: true,
                delete: true,
                delegate: true,
            }),
            r.spec_expiry() == 0,
            r.spec_parent() is None,
            r.spec_depth() == 0,
            !r.spec_revoked(),
            final(self).caps() == old(self).caps().push(r),
            final(self).audit() == old(self).audit().push(
                AuditEntry {
                    timestamp: old(self).spec_clock(),
                    operation: AuditOperation::Created,
                    capability_id: r.spec_id(),
                    process_id: 0,
                },
            ),
            final(self).spec_next_id() == old(self).spec_next_id() + 1,
            final(self).spec_clock() == old(self).spec_clock(),
    {
        let id = self.next_id;
        self.next_id = self.next_id + 1;
        let cap = Capability {
            id,
            cap_type: CapabilityType::Memory,
            resource_id: ResourceId::Memory { start: 0, size: usize::MAX },
            permissions: PermissionSet::full(),
            expiry: 0,
            parent: None,
            depth: 0,
            revoked: false,
        };
        self.capabilities.push(cap.clone());
        self.audit_log.push(
            AuditEntry {
                timestamp: self.clock,
                operation: AuditOperation::Created,
                capability_id: id,
                process_id: 0,
            },
        );
        self.root_created = true;
        proof {
            let caps = self.caps();
            let pre_caps = old(self).caps();
            assert(caps == pre_caps.push(cap));
            assert forall|j: int| 0 <= j < caps.len() implies #[trigger] parent_linked(caps, j) by {
                if j < pre_caps.len() {
                    assert(parent_linked(pre_caps, j));
                    assert(caps[j] == pre_caps[j]);
                    match pre_caps[j].spec_parent() {
                        Some(p) => {
                            let i = choose|i: int|
                                0 <= i < j && #[trigger] pre_caps[i].spec_id() == p;
                            assert(caps[i] == pre_caps[i]);
                            assert(caps[i].spec_id() == p);
                        },
                        None => {},
                    }
                } else {
                    assert(caps[j] == cap);
                    assert(cap.spec_parent() is None);
                }
            }
        }
        cap
    }

    /// Create a new capability, optionally by delegation from a parent.
    ///
    /// With a parent: fails with `NotFound` if the parent token is not
    /// registered; `ParentRevoked` if the registry holds the parent as
    /// revoked; `NoDelegatePermission` if the parent lacks the delegate
    /// right; `PermissionEscalation` if the requested rights are not a
    /// subset of the parent's; `DelegationDepthExceeded` if the parent's
    /// depth is already 255. On success the registry gains exactly one
    /// entry, one audit record is appended, and the caller owns a copy of
    /// the new token.
    pub fn create_capability(
        &mut self,
        cap_type: CapabilityType,
        resource_id: ResourceId,
        permissions: PermissionSet,
        parent: Option<&Capability>,
    ) -> (r: Result<Capability, CapabilityError>)
        requires
            old(self).wf(),
            old(self).spec_next_id() < u64::MAX,
        ensures
            final(self).wf(),
            create_post(*old(self), *final(self), cap_type, resource_id, permissions, opt_view(parent), 0, r),
    {
        self.create_with_expiry(cap_type, resource_id, permissions, parent, 0)
    }

    /// Like `create_capability`, with an absolute expiry timestamp
    /// (0 = never expires). `validate_capability` rejects the token once
    /// the registry clock passes the expiry.
    pub fn create_with_expiry(
        &mut self,
        cap_type: CapabilityType,
        resource_id: ResourceId,
        permissions: PermissionSet,
        parent: Option<&Capability>,
        expiry: u64,
    ) -> (r: Result<Capability, CapabilityError>)
        requires
            old(self).wf(),
            old(self).spec_next_id() < u64::MAX,
        ensures
            final(self).wf(),
            create_post(*old(self), *final(self), cap_type, resource_id, permissions, opt_view(parent), expiry, r),
    {
        let ghost pre = *self;
        let parent_info: Option<(u64, u8)> = match parent {
            Some(parent_cap) => {
                let idx = match self.find_by_id(parent_cap.id) {
                    Some(i) => i,
                    None => {
                        return Err(CapabilityError::NotFound);
                    },
                };
                let entry = &self.capabilities[idx];
                proof {
                    lemma_id_index_unique(self.caps(), idx as int);
                    assert(entry_of(self.caps(), parent_cap.id) == self.caps()[idx as int]);
                }
                if entry.revoked {
                    return Err(CapabilityError::ParentRevoked);
                }
                if !entry.permissions.delegate {
                    return Err(CapabilityError::NoDelegatePermission);
                }
                if !permissions.is_subset_of(&entry.permissions) {
                    return Err(CapabilityError::PermissionEscalation);
                }
                if entry.depth >= 255 {
                    return Err(CapabilityError::DelegationDepthExceeded);
                }
                Some((parent_cap.id, entry.depth))
            },
            None => None,
        };
        let id = self.next_id;
        self.next_id = self.next_id + 1;
        let cap = Capability {
            id,
            cap_type,
            resource_id,
            permissions,
            expiry,
            parent: match parent_info {
                Some((pid, _)) => Some(pid),
                None => None,
            },
            depth: match parent_info {
                Some((_, pdepth)) => pdepth + 1,
                None => 0,
            },
            revoked: false,
        };
        self.capabilities.push(cap.clone());
        self.audit_log.push(
            AuditEntry {
                timestamp: self.clock,
                operation: match parent_info {
                    Some(_) => AuditOperation::Delegated,
                    None => AuditOperation::Created,
                },
                capability_id: id,
                process_id: 0,
            },
        );
        proof {
            let caps = self.caps();
            let pre_caps = pre.caps();
            let n = pre_caps.len() as int;
            assert(caps == pre_caps.push(cap));
            assert forall|j: int| 0 <= j < caps.len() implies #[trigger] parent_linked(caps, j) by {
                if j < n {
                    assert(parent_linked(pre_caps, j));
                    assert(caps[j] == pre_caps[j]);
                    match pre_caps[j].spec_parent() {
                        Some(p) => {
                            let i = choose|i: int|
                                0 <= i < j && #[trigger] pre_caps[i].spec_id() == p;
                            assert(caps[i] == pre_caps[i]);
                            assert(caps[i].spec_id() == p);
                        },
                        None => {},
                    }
                } else {
                    assert(caps[j] == cap);
                    match cap.spec_parent() {
                        Some(p) => {
                            let i = idx_of(pre_caps, p);
                            assert(0 <= i < n);
                            assert(caps[i] == pre_caps[i]);
                            assert(caps[i].spec_id() == p);
                        },
                        None => {},
                    }
                }
            }
            assert forall|i: int, j: int|
                0 <= i < caps.len() && 0 <= j < caps.len() && #[trigger] caps[j].spec_parent()
                    == Some(caps[i].spec_id()) && #[trigger] caps[i].spec_revoked() implies caps[j].spec_revoked() by {
                if i < n {
                    assert(caps[i] == pre_caps[i]);
                    if j < n {
                        assert(caps[j] == pre_caps[j]);
                    } else {
                        // the new entry's parent was checked unrevoked, and
                        // ids are unique, so i cannot be a revoked entry
                        assert(caps[j] == cap);
                        let p = cap.spec_parent().unwrap();
                        lemma_id_index_unique(pre_caps, i);
                        assert(idx_of(pre_caps, p) == i);
                        assert(!pre_caps[i].spec_revoked());
                    }
                } else {
                    // i == n: the new entry's id is fresh, nothing points at it
                    assert(caps[i] == cap);
                    assert(cap.spec_id() == pre.spec_next_id());
                    if j < n {
                        assert(caps[j] == pre_caps[j]);
                        assert(parent_linked(pre_caps, j));
                        let k = choose|k: int|
                            0 <= k < j && #[trigger] pre_caps[k].spec_id()
                                == pre_caps[j].spec_parent().unwrap();
                        assert(pre_caps[k].spec_id() < pre.spec_next_id());
                    } else {
                        match cap.spec_parent() {
                            Some(p) => {
                                let k = idx_of(pre_caps, p);
                                assert(pre_caps[k].spec_id() < pre.spec_next_id());
                            },
                            None => {},
                        }
                    }
                }
            }
        }
        Ok(cap)
    }
}

/// The error `validate_capability` returns for this token and requested
/// right, if any. Authority lies with the registry entry, not the token
/// copy: a stale copy of a revoked capability still fails.
pub open spec fn validate_check(
    caps: Seq<Capability>,
    clock: u64,
    cap: Capability,
    permission: Permission,
) -> Option<CapabilityError> {
    if !contains_id(caps, cap.spec_id()) {
        Some(CapabilityError::NotFound)
    } else {
        let e = entry_of(caps, cap.spec_id());
        if e.spec_revoked() {
            Some(CapabilityError::Revoked)
        } else if e.spec_expiry() > 0 && clock > e.spec_expiry() {
            Some(CapabilityError::Expired)
        } else if !e.spec_permissions().grants(permission) {
            Some(CapabilityError::PermissionDenied)
        } else {
            None
        }
    }
}

impl CapabilityRegistry {
    /// Check that a token is currently good for the requested right.
    ///
    /// Fails with `NotFound` if the id was never minted here, `Revoked` if
    /// the registry entry is revoked (however the copy's own flag reads),
    /// `Expired` if the entry has an expiry the clock has passed, and
    /// `PermissionDenied` if the right is not granted. On success a `Used`
    /// audit record is appended; on failure the registry is unchanged.
    ///
    /// This is the sole security checkpoint: every consuming subsystem
    /// calls it before acting on a resource.
    pub fn validate_capability(
        &mut self,
        capability: &Capability,
        permission: Permission,
    ) -> (r: Result<(), CapabilityError>)
        requires
            old(self).wf(),
        ensures
            final(self).wf(),
            final(self).caps() == old(self).caps(),
            final(self).spec_next_id() == old(self).spec_next_id(),
            final(self).spec_clock() == old(self).spec_clock(),
            final(self).spec_root_created() == old(self).spec_root_created(),
            match r {
                Err(e) => {
                    &&& validate_check(old(self).caps(), old(self).spec_clock(), *capability, permission)
                        == Some(e)
                    &&& final(self).audit() == old(self).audit()
                },
                Ok(_) => {
                    &&& validate_check(old(self).caps(), old(self).spec_clock(), *capability, permission)
                        is None
                    &&& final(self).audit() == old(self).audit().push(
                        AuditEntry {
                            timestamp: old(self).spec_clock(),
                            operation: AuditOperation::Used,
                            capability_id: capability.spec_id(),
                            process_id: 0,
                        },
                    )
                },
            },
    {
        let idx = match self.find_by_id(capability.id) {
            Some(i) => i,
            None => {
                return Err(CapabilityError::NotFound);
            },
        };
        proof {
            lemma_id_index_unique(self.caps(), idx as int);
        }
        let entry = &self.capabilities[idx];
        if entry.revoked {
            return Err(CapabilityError::Revoked);
        }
        if entry.expiry > 0 && self.clock > entry.expiry {
            return Err(CapabilityError::Expired);
        }
        let has_permission = match permission {
            Permission::Read => entry.permissions.read,
            Permission::Write => entry.permissions.write,
            Permission::Execute => entry.permissions.execute,
            Permission::Delete => entry.permissions.delete,
            Permission::Delegate => entry.permissions.delegate,
        };
        if !has_permission {
            return Err(CapabilityError::PermissionDenied);
        }
        self.audit_log.push(
            AuditEntry {
                timestamp: self.clock,
                operation: AuditOperation::Used,
                capability_id: capability.id,
                process_id: 0,
            },
        );
        Ok(())
    }
}

/// `c` with its revocation flag also raised when `r` holds; everything
/// else untouched.
spec fn with_revoked(c: Capability, r: bool) -> Capability {
    Capability {
        revoked: c.spec_revoked() || r,
        ..c
    }
}

/// `post` is `pre` with its revocation flag also raised when `r` holds;
/// every other field untouched.
pub open spec fn same_but_revoked(pre: Capability, post: Capability, r: bool) -> bool {
    &&& post.spec_id() == pre.spec_id()
    &&& post.spec_cap_type() == pre.spec_cap_type()
    &&& post.spec_resource_id() == pre.spec_resource_id()
    &&& post.spec_permissions() == pre.spec_permissions()
    &&& post.spec_expiry() == pre.spec_expiry()
    &&& post.spec_parent() == pre.spec_parent()
    &&& post.spec_depth() == pre.spec_depth()
    &&& post.spec_revoked() == (pre.spec_revoked() || r)
}

impl CapabilityRegistry {
    /// Revoke a capability and its entire delegation subtree.
    ///
    /// Fails with `NotFound` when the id was never minted, leaving the
    /// registry unchanged. On success every registered capability that
    /// descends from the target through parent edges — the target itself
    /// included — has its revocation flag raised; no other field of any
    /// entry changes, and one `Revoked` audit record is appended for the
    /// root of the cascade.
    pub fn revoke_capability(&mut self, capability_id: u64) -> (r: Result<(), CapabilityError>)
        requires
            old(self).wf(),
        ensures
            final(self).wf(),
            revoke_post(*old(self), *final(self), capability_id, r),
    {
        if self.find_by_id(capability_id).is_none() {
            return Err(CapabilityError::NotFound);
        }
        let ghost pre = *self;
        let n = self.capabilities.len();
        let mut j: usize = 0;
        while j < n
            invariant
                pre.wf(),
                n == pre.caps().len(),
                j <= n,
                self.capabilities@.len() == n,
                self.audit_log@ == pre.audit(),
                self.next_id == pre.spec_next_id(),
                self.clock == pre.spec_clock(),
                self.root_created == pre.spec_root_created(),
                forall|k: int| j <= k < n ==> #[trigger] self.caps()[k] == pre.caps()[k],
                forall|k: int|
                    0 <= k < j ==> #[trigger] self.caps()[k] == with_revoked(
                        pre.caps()[k],
                        in_subtree(pre.caps(), capability_id, k),
                    ),
            decreases n - j,
        {
            proof {
                assert forall|k: int|
                    0 <= k < n implies #[trigger] self.caps()[k].spec_id()
                        == pre.caps()[k].spec_id() by {
                    if k < j {
                        assert(self.caps()[k] == with_revoked(
                            pre.caps()[k],
                            in_subtree(pre.caps(), capability_id, k),
                        ));
                    }
                }
            }
            let mut make_revoked: bool = false;
            if self.capabilities[j].id == capability_id {
                make_revoked = true;
                proof {
                    assert(in_subtree(pre.caps(), capability_id, j as int));
                }
            } else {
                let parent = self.capabilities[j].parent;
                match parent {
                    Some(p) => {
                        // the parent sits at an earlier index; if the pass
                        // has already revoked it, this entry follows
                        let pi = match self.find_by_id(p) {
                            Some(i) => i,
                            None => {
                                proof {
                                    assert(parent_linked(pre.caps(), j as int));
                                    let i0 = choose|i0: int|
                                        0 <= i0 < j && #[trigger] pre.caps()[i0].spec_id() == p;
                                    assert(self.caps()[i0].spec_id() == p);
                                    assert(false);
                                }
                                0
                            },
                        };
                        proof {
                            assert(parent_linked(pre.caps(), j as int));
                            let i0 = choose|i0: int|
                                0 <= i0 < j && #[trigger] pre.caps()[i0].spec_id() == p;
                            assert forall|a: int, b: int|
                                0 <= a < b < n implies #[trigger] self.caps()[a].spec_id()
                                    < #[trigger] self.caps()[b].spec_id() by {
                                assert(self.caps()[a].spec_id() == pre.caps()[a].spec_id());
                                assert(self.caps()[b].spec_id() == pre.caps()[b].spec_id());
                            }
                            lemma_id_index_unique(self.caps(), i0);
                            if pi as int != i0 {
                                lemma_id_index_unique(self.caps(), pi as int);
                            }
                            assert(pi as int == i0);
                            lemma_id_index_unique(pre.caps(), i0);
                            assert(idx_of(pre.caps(), p) == i0);
                        }
                        if self.capabilities[pi].revoked {
                            make_revoked = true;
                        }
                        proof {
                            let i0 = idx_of(pre.caps(), p);
                            assert(self.caps()[i0] == with_revoked(
                                pre.caps()[i0],
                                in_subtree(pre.caps(), capability_id, i0),
                            ));
                            // closure of the pre state absorbs the parent's
                            // own pre-existing revocation
                            assert(pre.caps()[i0].spec_revoked()
                                ==> pre.caps()[j as int].spec_revoked());
                        }
                    },
                    None => {
                        proof {
                            assert(!in_subtree(pre.caps(), capability_id, j as int));
                        }
                    },
                }
            }
            if make_revoked {
                self.capabilities[j].revoked = true;
            }
            proof {
                assert(self.caps()[j as int] == with_revoked(
                    pre.caps()[j as int],
                    in_subtree(pre.caps(), capability_id, j as int),
                ));
            }
            j = j + 1;
        }
        proof {
            lemma_revoke_preserves_wf(pre.caps(), self.caps(), capability_id, pre.spec_next_id());
            assert forall|k: int|
                0 <= k < n implies same_but_revoked(
                    pre.caps()[k],
                    #[trigger] self.caps()[k],
                    in_subtree(pre.caps(), capability_id, k),
                ) by {
                assert(self.caps()[k] == with_revoked(
                    pre.caps()[k],
                    in_subtree(pre.caps(), capability_id, k),
                ));
            }
        }
        let ghost mid = *self;
        self.audit_log.push(
            AuditEntry {
                timestamp: self.clock,
                operation: AuditOperation::Revoked,
                capability_id: capability_id,
                process_id: 0,
            },
        );
        proof {
            assert(self.caps() == mid.caps());
            assert forall|k: int|
                0 <= k < n implies same_but_revoked(
                    pre.caps()[k],
                    #[trigger] self.caps()[k],
                    in_subtree(pre.caps(), capability_id, k),
                ) by {
                assert(self.caps()[k] == mid.caps()[k]);
            }
        }
        Ok(())
    }
}

/// Everything `revoke_capability` promises, relating the registry before
/// and after the call to its result.
pub open spec fn revoke_post(
    pre: CapabilityRegistry,
    post: CapabilityRegistry,
    capability_id: u64,
    r: Result<(), CapabilityError>,
) -> bool {
    &&& post.spec_next_id() == pre.spec_next_id()
    &&& post.spec_clock() == pre.spec_clock()
    &&& post.spec_root_created() == pre.spec_root_created()
    &&& match r {
        Err(e) => {
            &&& e == CapabilityError::NotFound
            &&& !contains_id(pre.caps(), capability_id)
            &&& post.caps() == pre.caps()
            &&& post.audit() == pre.audit()
        },
        Ok(_) => {
            &&& contains_id(pre.caps(), capability_id)
            &&& post.caps().len() == pre.caps().len()
            &&& forall|j: int|
                0 <= j < pre.caps().len() ==> same_but_revoked(
                    pre.caps()[j],
                    #[trigger] post.caps()[j],
                    in_subtree(pre.caps(), capability_id, j),
                )
            &&& post.audit() == pre.audit().push(
                AuditEntry {
                    timestamp: pre.spec_clock(),
                    operation: AuditOperation::Revoked,
                    capability_id: capability_id,
                    process_id: 0,
                },
            )
        },
    }
}

/// Raising revocation flags along a delegation subtree preserves registry
/// well-formedness.
proof fn lemma_revoke_preserves_wf(
    pre_caps: Seq<Capability>,
    caps: Seq<Capability>,
    target: u64,
    next_id: u64,
)
    requires
        caps_wf(pre_caps, next_id),
        caps.len() == pre_caps.len(),
        forall|j: int|
            0 <= j < pre_caps.len() ==> caps[j] == with_revoked(
                pre_caps[j],
                in_subtree(pre_caps, target, j),
            ),
    ensures
        caps_wf(caps, next_id),
{
    assert forall|j: int| 0 <= j < caps.len() implies #[trigger] parent_linked(caps, j) by {
        assert(parent_linked(pre_caps, j));
        match pre_caps[j].spec_parent() {
            Some(p) => {
                let i = choose|i: int| 0 <= i < j && #[trigger] pre_caps[i].spec_id() == p;
                assert(caps[i].spec_id() == p);
            },
            None => {},
        }
    }
    assert forall|i: int, j: int|
        0 <= i < caps.len() && 0 <= j < caps.len() && #[trigger] caps[j].spec_parent() == Some(
            caps[i].spec_id(),
        ) && #[trigger] caps[i].spec_revoked() implies caps[j].spec_revoked() by {
        assert(pre_caps[j].spec_parent() == Some(pre_caps[i].spec_id()));
        if pre_caps[i].spec_revoked() {
            assert(pre_caps[j].spec_revoked());
        } else {
            // the parent is revoked because it is in the subtree; then so
            // is the child, by definition of the subtree
            assert(in_subtree(pre_caps, target, i));
            assert(parent_linked(pre_caps, j));
            let i0 = choose|i0: int|
                0 <= i0 < j && #[trigger] pre_caps[i0].spec_id() == pre_caps[i].spec_id();
            lemma_id_index_unique(pre_caps, i);
            lemma_id_index_unique(pre_caps, i0);
            assert(i0 == i);
            assert(idx_of(pre_caps, pre_caps[i].spec_id()) == i);
            assert(contains_id(pre_caps, pre_caps[i].spec_id()));
            assert(in_subtree(pre_caps, target, j));
        }
    }
}

/// The view of an optional borrowed capability as an optional value.
pub open spec fn opt_view(parent: Option<&Capability>) -> Option<Capability> {
    match parent {
        Some(p) => Some(*p),
        None => None,
    }
}

/// The error `create_capability` returns for this parent and permission
/// request, if any: the checks in their order.
pub open spec fn create_check(
    caps: Seq<Capability>,
    parent: Option<Capability>,
    permissions: PermissionSet,
) -> Option<CapabilityError> {
    match parent {
        None => None,
        Some(p) => if !contains_id(caps, p.spec_id()) {
            Some(CapabilityError::NotFound)
        } else {
            let e = entry_of(caps, p.spec_id());
            if e.spec_revoked() {
                Some(CapabilityError::ParentRevoked)
            } else if !e.spec_permissions().delegate {
                Some(CapabilityError::NoDelegatePermission)
            } else if !permissions.subset_of(e.spec_permissions()) {
                Some(CapabilityError::PermissionEscalation)
            } else if e.spec_depth() >= 255 {
                Some(CapabilityError::DelegationDepthExceeded)
            } else {
                None
            }
        },
    }
}

/// Everything `create_with_expiry` promises, relating the registry before
/// and after the call to its result.
pub open spec fn create_post(
    pre: CapabilityRegistry,
    post: CapabilityRegistry,
    cap_type: CapabilityType,
    resource_id: ResourceId,
    permissions: PermissionSet,
    parent: Option<Capability>,
    expiry: u64,
    r: Result<Capability, CapabilityError>,
) -> bool {
    &&& post.spec_clock() == pre.spec_clock()
    &&& post.spec_root_created() == pre.spec_root_created()
    &&& match r {
        Err(e) => {
            &&& create_check(pre.caps(), parent, permissions) == Some(e)
            &&& post.caps() == pre.caps()
            &&& post.audit() == pre.audit()
            &&& post.spec_next_id() == pre.spec_next_id()
        },
        Ok(cap) => {
            &&& create_check(pre.caps(), parent, permissions) is None
            &&& cap.spec_id() == pre.spec_next_id()
            &&& cap.spec_cap_type() == cap_type
            &&& cap.spec_resource_id() == resource_id
            &&& cap.spec_permissions() == permissions
            &&& cap.spec_expiry() == expiry
            &&& cap.spec_parent() == (match parent {
                Some(p) => Some(p.spec_id()),
                None => None::<u64>,
            })
            &&& cap.spec_depth() == (match parent {
                Some(p) => entry_of(pre.caps(), p.spec_id()).spec_depth() + 1,
                None => 0,
            })
            &&& !cap.spec_revoked()
            &&& post.caps() == pre.caps().push(cap)
            &&& post.audit() == pre.audit().push(
                AuditEntry {
                    timestamp: pre.spec_clock(),
                    operation: match parent {
                        Some(_) => AuditOperation::Delegated,
                        None => AuditOperation::Created,
                    },
                    capability_id: cap.spec_id(),
                    process_id: 0,
                },
            )
            &&& post.spec_next_id() == pre.spec_next_id() + 1
        },
    }
}

impl CapabilityRegistry {
    /// The audit trail, oldest record first.
    pub fn audit_log(&self) -> (r: &Vec<AuditEntry>)
        ensures
            r@ == self.audit(),
    {
        &self.audit_log
    }

    /// Registry counters: total, active and revoked capabilities, and the
    /// length of the audit trail.
    pub fn get_stats(&self) -> (r: CapabilityStats)
        ensures
            r.total_capabilities == self.caps().len(),
            r.revoked_capabilities == count_revoked(self.caps()),
            r.active_capabilities == self.caps().len() - count_revoked(self.caps()),
            r.audit_entries == self.audit().len(),
    {
        let n = self.capabilities.len();
        let mut revoked: usize = 0;
        let mut i: usize = 0;
        while i < n
            invariant
                i <= n,
                n == self.caps().len(),
                revoked == count_revoked(self.caps().subrange(0, i as int)),
                revoked <= i,
            decreases n - i,
        {
            proof {
                lemma_count_revoked_step(self.caps(), i as int);
            }
            if self.capabilities[i].revoked {
                revoked = revoked + 1;
            }
            i = i + 1;
        }
        proof {
            assert(self.caps().subrange(0, n as int) =~= self.caps());
        }
        CapabilityStats {
            total_capabilities: n,
            active_capabilities: n - revoked,
            revoked_capabilities: revoked,
            audit_entries: self.audit_log.len(),
        }
    }
}

/// Counting revoked entries over a prefix, one step at a time.
proof fn lemma_count_revoked_step(caps: Seq<Capability>, i: int)
    requires
        0 <= i < caps.len(),
    ensures
        count_revoked(caps.subrange(0, i + 1)) == count_revoked(caps.subrange(0, i)) + if caps[i].spec_revoked() {
            1int
        } else {
            0int
        },
{
    let s = caps.subrange(0, i + 1);
    assert(s.drop_last() =~= caps.subrange(0, i));
    assert(s.last() == caps[i]);
}

/// Subset invariant: whenever delegation succeeds, the child's permission
/// set is a subset of the parent's registry entry, and its depth is exactly
/// the parent's depth plus one.
pub proof fn lemma_subset_invariant(
    pre: CapabilityRegistry,
    post: CapabilityRegistry,
    cap_type: CapabilityType,
    resource_id: ResourceId,
    permissions: PermissionSet,
    parent: Capability,
    expiry: u64,
    r: Result<Capability, CapabilityError>,
)
    requires
        create_post(pre, post, cap_type, resource_id, permissions, Some(parent), expiry, r),
        r is Ok,
    ensures
        r matches Ok(cap) ==> {
            &&& cap.spec_permissions().subset_of(
                entry_of(pre.caps(), parent.spec_id()).spec_permissions(),
            )
            &&& cap.spec_depth() == entry_of(pre.caps(), parent.spec_id()).spec_depth() + 1
        },
{
}

/// No escalation: when the requested rights are not a subset of the
/// parent's (and the earlier checks pass), creation fails with
/// `PermissionEscalation` and the registry is untouched — same
/// capabilities, same audit trail, same next id.
pub proof fn lemma_no_escalation(
    pre: CapabilityRegistry,
    post: CapabilityRegistry,
    cap_type: CapabilityType,
    resource_id: ResourceId,
    permissions: PermissionSet,
    parent: Capability,
    expiry: u64,
    r: Result<Capability, CapabilityError>,
)
    requires
        create_post(pre, post, cap_type, resource_id, permissions, Some(parent), expiry, r),
        contains_id(pre.caps(), parent.spec_id()),
        !entry_of(pre.caps(), parent.spec_id()).spec_revoked(),
        entry_of(pre.caps(), parent.spec_id()).spec_permissions().delegate,
        !permissions.subset_of(entry_of(pre.caps(), parent.spec_id()).spec_permissions()),
    ensures
        r == Err::<Capability, CapabilityError>(CapabilityError::PermissionEscalation),
        post.caps() == pre.caps(),
        post.audit() == pre.audit(),
        post.spec_next_id() == pre.spec_next_id(),
{
}

/// Depth bound: delegating from a capability whose registry entry already
/// sits at depth 255 always fails with `DelegationDepthExceeded`.
pub proof fn lemma_depth_bound(
    pre: CapabilityRegistry,
    post: CapabilityRegistry,
    cap_type: CapabilityType,
    resource_id: ResourceId,
    permissions: PermissionSet,
    parent: Capability,
    expiry: u64,
    r: Result<Capability, CapabilityError>,
)
    requires
        create_post(pre, post, cap_type, resource_id, permissions, Some(parent), expiry, r),
        contains_id(pre.caps(), parent.spec_id()),
        !entry_of(pre.caps(), parent.spec_id()).spec_revoked(),
        entry_of(pre.caps(), parent.spec_id()).spec_permissions().delegate,
        permissions.subset_of(entry_of(pre.caps(), parent.spec_id()).spec_permissions()),
        entry_of(pre.caps(), parent.spec_id()).spec_depth() == 255,
    ensures
        r == Err::<Capability, CapabilityError>(CapabilityError::DelegationDepthExceeded),
        post.caps() == pre.caps(),
        post.audit() == pre.audit(),
{
}

/// Revocation cascade: after a successful revoke of `target`, any token
/// whose registry entry descends from the target — the target included —
/// fails validation with `Revoked`, whatever right is asked and whatever
/// the token copy's own flag reads; an entry outside the subtree keeps
/// exactly the revocation state it had before.
pub proof fn lemma_revocation_cascade(
    pre: CapabilityRegistry,
    post: CapabilityRegistry,
    target: u64,
    r: Result<(), CapabilityError>,
    cap: Capability,
    permission: Permission,
    j: int,
)
    requires
        pre.wf(),
        revoke_post(pre, post, target, r),
        r is Ok,
        0 <= j < pre.caps().len(),
        cap.spec_id() == pre.caps()[j].spec_id(),
    ensures
        in_subtree(pre.caps(), target, j) ==> validate_check(
            post.caps(),
            post.spec_clock(),
            cap,
            permission,
        ) == Some(CapabilityError::Revoked),
        !in_subtree(pre.caps(), target, j) ==> post.caps()[j].spec_revoked()
            == pre.caps()[j].spec_revoked(),
{
    assert(same_but_revoked(pre.caps()[j], post.caps()[j], in_subtree(pre.caps(), target, j)));
    if in_subtree(pre.caps(), target, j) {
        assert forall|a: int, b: int|
            0 <= a < b < post.caps().len() implies #[trigger] post.caps()[a].spec_id()
                < #[trigger] post.caps()[b].spec_id() by {
            assert(same_but_revoked(pre.caps()[a], post.caps()[a], in_subtree(pre.caps(), target, a)));
            assert(same_but_revoked(pre.caps()[b], post.caps()[b], in_subtree(pre.caps(), target, b)));
        }
        lemma_id_index_unique(post.caps(), j);
        assert(entry_of(post.caps(), cap.spec_id()) == post.caps()[j]);
        assert(post.caps()[j].spec_revoked());
    }
}

/// In a sequence with strictly increasing ids, an id determines its index:
/// `idx_of` returns exactly `i` for the id stored at `i`.
pub proof fn lemma_id_index_unique(caps: Seq<Capability>, i: int)
    requires
        forall|a: int, b: int|
            0 <= a < b < caps.len() ==> #[trigger] caps[a].spec_id() < #[trigger] caps[b].spec_id(),
        0 <= i < caps.len(),
    ensures
        contains_id(caps, caps[i].spec_id()),
        idx_of(caps, caps[i].spec_id()) == i,
{
    let id = caps[i].spec_id();
    assert(contains_id(caps, id));
    let j = idx_of(caps, id);
    if j < i {
        assert(caps[j].spec_id() < caps[i].spec_id());
    } else if j > i {
        assert(caps[i].spec_id() < caps[j].spec_id());
    }
}

} // verus!
