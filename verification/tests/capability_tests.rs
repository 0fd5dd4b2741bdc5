//! Capability registry behavior: delegation, validation, revocation
//! cascades, and the audit trail.

use suraksha_core::capability::{
    AuditOperation, CapabilityError, CapabilityRegistry, CapabilityType, Permission,
    PermissionSet, ResourceId,
};

fn fresh_registry_with_root() -> (CapabilityRegistry, suraksha_core::capability::Capability) {
    let mut reg = CapabilityRegistry::new();
    let root = reg.create_root();
    (reg, root)
}

#[test]
fn root_capability_shape() {
    let (reg, root) = fresh_registry_with_root();
    assert_eq!(root.depth(), 0);
    assert_eq!(root.parent(), None);
    assert_eq!(root.expiry(), 0);
    assert!(!root.revoked());
    assert!(root.permissions().delegate);
    assert!(reg.is_initialized());
}

#[test]
fn subset_relation() {
    let ro = PermissionSet::read_only();
    let rw = PermissionSet::read_write();
    let full = PermissionSet::full();
    assert!(ro.is_subset_of(&rw));
    assert!(rw.is_subset_of(&full));
    assert!(!rw.is_subset_of(&ro));
    assert!(!full.is_subset_of(&rw));
    assert!(ro.is_subset_of(&ro));
}

#[test]
fn delegation_subset_and_depth() {
    // subset invariant: a successful delegation's permissions are a
    // subset of the parent's and its depth is the parent's plus one
    let (mut reg, root) = fresh_registry_with_root();
    let child = reg
        .create_capability(
            CapabilityType::FileSystem,
            ResourceId::File { path: String::from("/etc/config") },
            PermissionSet::read_only(),
            Some(&root),
        )
        .expect("delegation within the parent's rights succeeds");
    assert_eq!(child.depth(), 1);
    assert_eq!(child.parent(), Some(root.id()));
    assert!(child.permissions().is_subset_of(&root.permissions()));
    assert_ne!(child.id(), root.id());
}

#[test]
fn no_escalation_rejected_and_registry_unchanged() {
    // delegating more rights than the parent holds must fail with
    // PermissionEscalation and leave the registry untouched
    let (mut reg, root) = fresh_registry_with_root();
    let limited = reg
        .create_capability(
            CapabilityType::Memory,
            ResourceId::Memory { start: 0x1000, size: 0x1000 },
            PermissionSet {
                read: true,
                write: false,
                execute: false,
                delete: false,
                delegate: true,
            },
            Some(&root),
        )
        .unwrap();
    let before = reg.get_stats();
    let attempt = reg.create_capability(
        CapabilityType::Memory,
        ResourceId::Memory { start: 0x1000, size: 0x1000 },
        PermissionSet::read_write(),
        Some(&limited),
    );
    assert!(matches!(attempt, Err(CapabilityError::PermissionEscalation)));
    let after = reg.get_stats();
    assert_eq!(before.total_capabilities, after.total_capabilities);
    assert_eq!(before.audit_entries, after.audit_entries);
}

#[test]
fn delegation_depth_bound() {
    // delegating from a capability at depth 255 always fails with
    // DelegationDepthExceeded
    let (mut reg, root) = fresh_registry_with_root();
    let mut cap = root;
    for _ in 0..255 {
        cap = reg
            .create_capability(
                CapabilityType::Memory,
                ResourceId::Memory { start: 0, size: 4096 },
                PermissionSet::full(),
                Some(&cap),
            )
            .unwrap();
    }
    assert_eq!(cap.depth(), 255);
    let attempt = reg.create_capability(
        CapabilityType::Memory,
        ResourceId::Memory { start: 0, size: 4096 },
        PermissionSet::read_only(),
        Some(&cap),
    );
    assert!(matches!(attempt, Err(CapabilityError::DelegationDepthExceeded)));
}

#[test]
fn parent_checks() {
    let (mut reg, root) = fresh_registry_with_root();
    let no_delegate = reg
        .create_capability(
            CapabilityType::Network,
            ResourceId::Network { ip: [10, 0, 0, 1], port: 443 },
            PermissionSet::read_write(),
            Some(&root),
        )
        .unwrap();
    let attempt = reg.create_capability(
        CapabilityType::Network,
        ResourceId::Network { ip: [10, 0, 0, 1], port: 443 },
        PermissionSet::read_only(),
        Some(&no_delegate),
    );
    assert!(matches!(attempt, Err(CapabilityError::NoDelegatePermission)));

    let revoked_parent = reg
        .create_capability(
            CapabilityType::Device,
            ResourceId::Device { device_id: 3 },
            PermissionSet::full(),
            Some(&root),
        )
        .unwrap();
    reg.revoke_capability(revoked_parent.id()).unwrap();
    let attempt = reg.create_capability(
        CapabilityType::Device,
        ResourceId::Device { device_id: 3 },
        PermissionSet::read_only(),
        Some(&revoked_parent),
    );
    assert!(matches!(attempt, Err(CapabilityError::ParentRevoked)));
}

#[test]
fn revocation_cascade() {
    // a chain root -> a -> b -> c: revoking a kills a, b and c, while a
    // sibling of a stays valid
    let (mut reg, root) = fresh_registry_with_root();
    let mem = ResourceId::Memory { start: 0, size: 4096 };
    let a = reg
        .create_capability(CapabilityType::Memory, mem.clone(), PermissionSet::full(), Some(&root))
        .unwrap();
    let b = reg
        .create_capability(CapabilityType::Memory, mem.clone(), PermissionSet::full(), Some(&a))
        .unwrap();
    let c = reg
        .create_capability(CapabilityType::Memory, mem.clone(), PermissionSet::full(), Some(&b))
        .unwrap();
    let sibling = reg
        .create_capability(CapabilityType::Memory, mem.clone(), PermissionSet::full(), Some(&root))
        .unwrap();

    reg.revoke_capability(a.id()).unwrap();

    assert!(matches!(
        reg.validate_capability(&a, Permission::Read),
        Err(CapabilityError::Revoked)
    ));
    assert!(matches!(
        reg.validate_capability(&b, Permission::Read),
        Err(CapabilityError::Revoked)
    ));
    assert!(matches!(
        reg.validate_capability(&c, Permission::Read),
        Err(CapabilityError::Revoked)
    ));
    assert!(reg.validate_capability(&sibling, Permission::Read).is_ok());
    assert!(reg.validate_capability(&root, Permission::Read).is_ok());
}

#[test]
fn revoke_unknown_id() {
    let (mut reg, _root) = fresh_registry_with_root();
    assert!(matches!(reg.revoke_capability(999), Err(CapabilityError::NotFound)));
}

#[test]
fn validate_checks_permission_and_identity() {
    let (mut reg, root) = fresh_registry_with_root();
    let ro = reg
        .create_capability(
            CapabilityType::FileSystem,
            ResourceId::File { path: String::from("/data") },
            PermissionSet::read_only(),
            Some(&root),
        )
        .unwrap();
    assert!(reg.validate_capability(&ro, Permission::Read).is_ok());
    assert!(matches!(
        reg.validate_capability(&ro, Permission::Write),
        Err(CapabilityError::PermissionDenied)
    ));
    assert!(matches!(
        reg.validate_capability(&ro, Permission::Delete),
        Err(CapabilityError::PermissionDenied)
    ));
}

#[test]
fn expiry_is_checked_against_the_clock() {
    let (mut reg, root) = fresh_registry_with_root();
    let short_lived = reg
        .create_with_expiry(
            CapabilityType::Time,
            ResourceId::CryptoKey { key_id: 9 },
            PermissionSet::read_only(),
            Some(&root),
            100,
        )
        .unwrap();
    assert!(reg.validate_capability(&short_lived, Permission::Read).is_ok());
    reg.set_clock(101);
    assert!(matches!(
        reg.validate_capability(&short_lived, Permission::Read),
        Err(CapabilityError::Expired)
    ));
}

#[test]
fn audit_trail_of_a_lifecycle() {
    // create_root, one delegation, one validation, one revocation:
    // exactly [Created, Delegated, Used, Revoked]
    let mut reg = CapabilityRegistry::new();
    let root = reg.create_root();
    let child = reg
        .create_capability(
            CapabilityType::Memory,
            ResourceId::Memory { start: 0x2000, size: 4096 },
            PermissionSet::read_only(),
            Some(&root),
        )
        .unwrap();
    reg.validate_capability(&child, Permission::Read).unwrap();
    reg.revoke_capability(child.id()).unwrap();

    let log = reg.audit_log();
    assert_eq!(log.len(), 4);
    assert_eq!(log[0].operation, AuditOperation::Created);
    assert_eq!(log[0].capability_id, root.id());
    assert_eq!(log[1].operation, AuditOperation::Delegated);
    assert_eq!(log[1].capability_id, child.id());
    assert_eq!(log[2].operation, AuditOperation::Used);
    assert_eq!(log[2].capability_id, child.id());
    assert_eq!(log[3].operation, AuditOperation::Revoked);
    assert_eq!(log[3].capability_id, child.id());
}

#[test]
fn stats_count_totals_active_and_revoked() {
    let (mut reg, root) = fresh_registry_with_root();
    let a = reg
        .create_capability(
            CapabilityType::Memory,
            ResourceId::Memory { start: 0, size: 4096 },
            PermissionSet::full(),
            Some(&root),
        )
        .unwrap();
    let _b = reg
        .create_capability(
            CapabilityType::Memory,
            ResourceId::Memory { start: 4096, size: 4096 },
            PermissionSet::full(),
            Some(&root),
        )
        .unwrap();
    reg.revoke_capability(a.id()).unwrap();
    let stats = reg.get_stats();
    assert_eq!(stats.total_capabilities, 3);
    assert_eq!(stats.revoked_capabilities, 1);
    assert_eq!(stats.active_capabilities, 2);
    // root creation, two delegations, one revocation
    assert_eq!(stats.audit_entries, 4);
}
