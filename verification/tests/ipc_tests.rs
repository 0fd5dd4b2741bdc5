//! IPC channel behavior: the wire format, inline and zero-copy message
//! round trips, and the capability gate in front of both directions.

use suraksha_core::capability::{CapabilityRegistry, CapabilityType, Permission, ResourceId};
use suraksha_core::ipc::{
    close_channel, msg_type_to_tag, receive_message, receive_reply, send_message, send_reply, tag_to_msg_type,
    IpcError, IpcMessage, IpcSystem, MessageData, MessageType, HEADER_SIZE, INLINE_PAYLOAD_SIZE,
    RING_BUFFER_SIZE,
};
use suraksha_core::wire::{push_u32_le, push_u64_le, read_u32_le, read_u64_le};

fn setup() -> (IpcSystem, CapabilityRegistry) {
    let mut registry = CapabilityRegistry::new();
    let _root = registry.create_root();
    (IpcSystem::new(), registry)
}

#[test]
fn wire_round_trips() {
    let mut bytes: Vec<u8> = Vec::new();
    push_u64_le(&mut bytes, 0x0123_4567_89AB_CDEF);
    push_u32_le(&mut bytes, 0xDEAD_BEEF);
    assert_eq!(bytes.len(), 12);
    assert_eq!(bytes[0], 0xEF);
    assert_eq!(bytes[7], 0x01);
    assert_eq!(read_u64_le(&bytes, 0), 0x0123_4567_89AB_CDEF);
    assert_eq!(read_u32_le(&bytes, 8), 0xDEAD_BEEF);
}

#[test]
fn channel_creation_mints_a_gating_capability() {
    let (mut sys, mut registry) = setup();
    let before = registry.get_stats();
    let channel = sys.create_channel(&mut registry, 10, 20).unwrap();
    assert_eq!(channel.sender_pid(), 10);
    assert_eq!(channel.receiver_pid(), 20);
    let cap = channel.capability();
    assert_eq!(cap.cap_type(), CapabilityType::IPC);
    assert_eq!(
        *cap.resource_id(),
        ResourceId::IPC { channel_id: channel.id() }
    );
    assert!(cap.permissions().read);
    assert!(cap.permissions().write);
    assert!(cap.permissions().delegate);
    let after = registry.get_stats();
    assert_eq!(after.total_capabilities, before.total_capabilities + 1);
}

#[test]
fn inline_message_round_trip() {
    let (mut sys, mut registry) = setup();
    let mut channel = sys.create_channel(&mut registry, 1, 2).unwrap();
    let payload = MessageData::inline_from(b"hello across the channel");
    let message = IpcMessage {
        id: 42,
        sender: 1,
        msg_type: MessageType::Request,
        data: payload,
        capabilities: Vec::new(),
    };
    send_message(&mut sys, &mut registry, &mut channel, message).unwrap();

    let received = receive_message(&mut sys, &mut registry, &mut channel).unwrap();
    assert_eq!(received.id, 42);
    assert_eq!(received.sender, 1);
    assert_eq!(received.msg_type, MessageType::Request);
    match received.data {
        MessageData::Inline(d) => {
            assert_eq!(d.len(), INLINE_PAYLOAD_SIZE);
            assert_eq!(&d[..24], b"hello across the channel");
            assert!(d[24..].iter().all(|&b| b == 0));
        },
        MessageData::SharedMemory { .. } => panic!("expected an inline payload"),
    }
    assert!(received.capabilities.is_empty());

    let stats = sys.get_stats();
    assert_eq!(stats.messages_sent, 1);
    assert_eq!(stats.messages_received, 1);
    assert_eq!(stats.zero_copy_transfers, 0);
}

#[test]
fn zero_copy_message_mints_a_derived_capability() {
    // the receiver of a shared-memory message gets a fresh read-only
    // capability, derived from the channel capability, scoped to exactly
    // the referenced range
    let (mut sys, mut registry) = setup();
    let mut channel = sys.create_channel(&mut registry, 1, 2).unwrap();
    let channel_cap_id = channel.capability().id();
    let message = IpcMessage {
        id: 7,
        sender: 1,
        msg_type: MessageType::Notification,
        data: MessageData::SharedMemory {
            addr: 0x2000,
            size: 4096,
            capability: channel.capability().clone(),
        },
        capabilities: Vec::new(),
    };
    send_message(&mut sys, &mut registry, &mut channel, message).unwrap();

    let received = receive_message(&mut sys, &mut registry, &mut channel).unwrap();
    match received.data {
        MessageData::SharedMemory { addr, size, capability } => {
            assert_eq!(addr, 0x2000);
            assert_eq!(size, 4096);
            assert_ne!(capability.id(), channel_cap_id);
            assert_eq!(capability.parent(), Some(channel_cap_id));
            assert_eq!(capability.cap_type(), CapabilityType::Memory);
            assert_eq!(
                *capability.resource_id(),
                ResourceId::Memory { start: 0x2000, size: 4096 }
            );
            assert!(capability.permissions().read);
            assert!(!capability.permissions().write);
            assert!(!capability.permissions().execute);
            // the derived grant is usable on its own
            assert!(registry.validate_capability(&capability, Permission::Read).is_ok());
        },
        MessageData::Inline(_) => panic!("expected a shared-memory payload"),
    }
    assert_eq!(sys.get_stats().zero_copy_transfers, 1);
}

#[test]
fn receive_on_empty_channel() {
    let (mut sys, mut registry) = setup();
    let mut channel = sys.create_channel(&mut registry, 1, 2).unwrap();
    let outcome = receive_message(&mut sys, &mut registry, &mut channel);
    assert!(matches!(outcome, Err(IpcError::BufferEmpty)));
}

#[test]
fn revoked_channel_refuses_both_directions() {
    let (mut sys, mut registry) = setup();
    let mut channel = sys.create_channel(&mut registry, 1, 2).unwrap();
    let cap_id = channel.capability().id();
    registry.revoke_capability(cap_id).unwrap();

    let message = IpcMessage {
        id: 1,
        sender: 1,
        msg_type: MessageType::Request,
        data: MessageData::inline_from(&[1, 2, 3]),
        capabilities: Vec::new(),
    };
    assert!(matches!(
        send_message(&mut sys, &mut registry, &mut channel, message),
        Err(IpcError::PermissionDenied)
    ));
    assert!(matches!(
        receive_message(&mut sys, &mut registry, &mut channel),
        Err(IpcError::PermissionDenied)
    ));
    assert_eq!(sys.get_stats().messages_sent, 0);
}

#[test]
fn messages_that_overfill_the_transport_are_rejected() {
    let (mut sys, mut registry) = setup();
    let mut channel = sys.create_channel(&mut registry, 1, 2).unwrap();
    let frame = HEADER_SIZE + INLINE_PAYLOAD_SIZE;
    let fitting = RING_BUFFER_SIZE / frame;
    for i in 0..fitting {
        let message = IpcMessage {
            id: i as u64,
            sender: 1,
            msg_type: MessageType::Notification,
            data: MessageData::inline_from(&[i as u8]),
            capabilities: Vec::new(),
        };
        send_message(&mut sys, &mut registry, &mut channel, message).unwrap();
    }
    let overflow = IpcMessage {
        id: 999,
        sender: 1,
        msg_type: MessageType::Notification,
        data: MessageData::inline_from(&[1]),
        capabilities: Vec::new(),
    };
    assert!(matches!(
        send_message(&mut sys, &mut registry, &mut channel, overflow),
        Err(IpcError::BufferFull)
    ));
    // draining one frame makes room again
    let first = receive_message(&mut sys, &mut registry, &mut channel).unwrap();
    assert_eq!(first.id, 0);
    let retry = IpcMessage {
        id: 999,
        sender: 1,
        msg_type: MessageType::Notification,
        data: MessageData::inline_from(&[1]),
        capabilities: Vec::new(),
    };
    send_message(&mut sys, &mut registry, &mut channel, retry).unwrap();
}

#[test]
fn messages_queue_in_order() {
    let (mut sys, mut registry) = setup();
    let mut channel = sys.create_channel(&mut registry, 1, 2).unwrap();
    for id in [5u64, 6, 7] {
        let message = IpcMessage {
            id,
            sender: 1,
            msg_type: MessageType::Reply,
            data: MessageData::inline_from(&[id as u8]),
            capabilities: Vec::new(),
        };
        send_message(&mut sys, &mut registry, &mut channel, message).unwrap();
    }
    for id in [5u64, 6, 7] {
        let received = receive_message(&mut sys, &mut registry, &mut channel).unwrap();
        assert_eq!(received.id, id);
    }
}

#[test]
fn message_type_tags_cover_all_kinds() {
    for t in [
        MessageType::Request,
        MessageType::Reply,
        MessageType::Notification,
        MessageType::Error,
    ] {
        assert_eq!(tag_to_msg_type(msg_type_to_tag(t)), t);
    }
    // unknown tags read as Error
    assert_eq!(tag_to_msg_type(250), MessageType::Error);
}

#[test]
fn reply_direction_round_trip() {
    let (mut sys, mut registry) = setup();
    let mut channel = sys.create_channel(&mut registry, 1, 2).unwrap();
    let reply = IpcMessage {
        id: 77,
        sender: 2,
        msg_type: MessageType::Reply,
        data: MessageData::inline_from(b"done"),
        capabilities: Vec::new(),
    };
    send_reply(&mut sys, &mut registry, &mut channel, reply).unwrap();
    let received = receive_reply(&mut sys, &mut registry, &mut channel).unwrap();
    assert_eq!(received.id, 77);
    assert_eq!(received.sender, 2);
    assert_eq!(received.msg_type, MessageType::Reply);
}

#[test]
fn closing_a_channel_revokes_its_capability() {
    let (mut sys, mut registry) = setup();
    let mut channel = sys.create_channel(&mut registry, 1, 2).unwrap();
    // a derived grant delegated from the channel capability
    let derived = registry
        .create_capability(
            CapabilityType::Memory,
            ResourceId::Memory { start: 0x3000, size: 4096 },
            suraksha_core::capability::PermissionSet::read_only(),
            Some(channel.capability()),
        )
        .unwrap();
    let shared = IpcMessage {
        id: 3,
        sender: 1,
        msg_type: MessageType::Notification,
        data: MessageData::inline_from(&[9]),
        capabilities: Vec::new(),
    };
    send_message(&mut sys, &mut registry, &mut channel, shared).unwrap();
    close_channel(&mut registry, channel).unwrap();
    // the cascade reaches the derived grant too
    assert!(registry
        .validate_capability(&derived, Permission::Read)
        .is_err());
}
