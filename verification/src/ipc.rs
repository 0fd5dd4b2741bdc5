//! Zero-copy inter-process communication.
//!
//! A channel pairs two ring-buffer transports (one per direction) with a
//! capability that gates it. Messages cross a transport in a fixed wire
//! format: a 14-byte header (8-byte message id, 4-byte sender pid, 1-byte
//! message-type tag, 1-byte data-type tag) followed by either 64 inline
//! payload bytes or an 8-byte address and 8-byte size naming a shared
//! memory region. For shared memory only the reference crosses the buffer
//! — the payload itself is never copied; the receiver is handed a freshly
//! minted, read-only memory capability, derived from the channel
//! capability and scoped to exactly that range, which it must use for any
//! access to the region.
//!
//! A frame is consumed only whole: a transport holding fewer bytes than a
//! complete message is treated as empty by the receiver, and a message
//! that does not fit is rejected whole by the sender.

use vstd::prelude::*;
use crate::capability::{
    Capability, CapabilityError, CapabilityRegistry, CapabilityType, Permission, PermissionSet,
    ResourceId, AuditEntry, AuditOperation, create_check, revoke_post, validate_check,
};
use crate::ring_buffer::RingBufferTransport;
use crate::wire::{
    push_u32_le, push_u64_le, read_u32_le, read_u64_le, u32_le, u32_of_le, u64_le, u64_of_le,
};

verus! {

/// Capacity of each transport direction, in bytes.
pub const RING_BUFFER_SIZE: usize = 4096;

/// Bytes of the fixed message header.
pub const HEADER_SIZE: usize = 14;

/// Bytes of an inline payload.
pub const INLINE_PAYLOAD_SIZE: usize = 64;

/// Bytes of a shared-memory reference: address and size.
pub const SHARED_REF_SIZE: usize = 16;

/// IPC errors.
#[derive(Clone, Copy, Debug, PartialEq, Eq, Structural)]
pub enum IpcError {
    /// Transport buffer is full
    BufferFull,
    /// Transport buffer is empty, or holds less than one whole frame
    BufferEmpty,
    /// Message too large for the transport
    MessageTooLarge,
    /// Channel capability refused the operation
    PermissionDenied,
    /// Capability operation failed
    CapabilityError,
    /// Channel not found
    ChannelNotFound,
}

/// System-wide IPC counters.
#[derive(Clone, Copy, Debug, PartialEq, Eq, Structural)]
pub struct IpcStats {
    /// Total messages sent
    pub messages_sent: u64,
    /// Total messages received
    pub messages_received: u64,
    /// Total payload bytes moved through transports
    pub bytes_transferred: u64,
    /// Messages whose payload crossed by reference only
    pub zero_copy_transfers: u64,
}

/// Message kinds.
#[derive(Clone, Copy, Debug, PartialEq, Eq, Structural)]
pub enum MessageType {
    /// Request (expects reply)
    Request,
    /// Reply to request
    Reply,
    /// One-way notification
    Notification,
    /// Error response
    Error,
}

/// The wire tag of a message type.
pub open spec fn msg_type_tag(t: MessageType) -> u8 {
    match t {
        MessageType::Request => 0,
        MessageType::Reply => 1,
        MessageType::Notification => 2,
        MessageType::Error => 3,
    }
}

/// The message type a wire tag names; unknown tags read as `Error`.
pub open spec fn msg_type_of_tag(b: u8) -> MessageType {
    if b == 0 {
        MessageType::Request
    } else if b == 1 {
        MessageType::Reply
    } else if b == 2 {
        MessageType::Notification
    } else {
        MessageType::Error
    }
}

/// The wire tag of a message type.
pub fn msg_type_to_tag(t: MessageType) -> (r: u8)
    ensures
        r == msg_type_tag(t),
{
    match t {
        MessageType::Request => 0,
        MessageType::Reply => 1,
        MessageType::Notification => 2,
        MessageType::Error => 3,
    }
}

/// The message type a wire tag names; unknown tags read as `Error`.
pub fn tag_to_msg_type(b: u8) -> (r: MessageType)
    ensures
        r == msg_type_of_tag(b),
{
    if b == 0 {
        MessageType::Request
    } else if b == 1 {
        MessageType::Reply
    } else if b == 2 {
        MessageType::Notification
    } else {
        MessageType::Error
    }
}

/// Message payload: small data carried by value, large data by reference.
#[derive(Debug)]
pub enum MessageData {
    /// Exactly 64 inline payload bytes
    Inline(Vec<u8>),
    /// Shared memory reference: the payload is never copied
    SharedMemory {
        /// Start address of the shared region
        addr: usize,
        /// Size of the shared region in bytes
        size: usize,
        /// Capability scoping access to exactly that region
        capability: Capability,
    },
}

impl MessageData {
    /// Payload well-formedness: inline data is exactly 64 bytes.
    pub open spec fn wf(&self) -> bool {
        match self {
            MessageData::Inline(d) => d@.len() == INLINE_PAYLOAD_SIZE as int,
            MessageData::SharedMemory { .. } => true,
        }
    }

    /// The wire data-type tag: 0 inline, 1 shared memory.
    pub open spec fn tag(&self) -> u8 {
        match self {
            MessageData::Inline(_) => 0,
            MessageData::SharedMemory { .. } => 1,
        }
    }

    /// An inline payload holding `bytes` padded with zeros to 64 bytes.
    pub fn inline_from(bytes: &[u8]) -> (r: MessageData)
        requires
            bytes@.len() <= INLINE_PAYLOAD_SIZE as int,
        ensures
            r matches MessageData::Inline(d) && d@ == bytes@ + Seq::new(
                (INLINE_PAYLOAD_SIZE as nat - bytes@.len()) as nat,
                |i: int| 0u8,
            ),
            r.wf(),
    {
        let mut d: Vec<u8> = Vec::new();
        let n = bytes.len();
        let mut i: usize = 0;
        while i < n
            invariant
                i <= n,
                n == bytes@.len(),
                d@ == bytes@.take(i as int),
            decreases n - i,
        {
            let b = bytes[i];
            d.push(b);
            proof {
                assert(d@ =~= bytes@.take(i + 1));
            }
            i = i + 1;
        }
        proof {
            assert(d@ =~= bytes@);
        }
        while i < INLINE_PAYLOAD_SIZE
            invariant
                n <= i <= INLINE_PAYLOAD_SIZE,
                n == bytes@.len(),
                d@ == bytes@ + Seq::new((i - n) as nat, |q: int| 0u8),
            decreases INLINE_PAYLOAD_SIZE - i,
        {
            d.push(0);
            proof {
                assert(d@ =~= bytes@ + Seq::new((i + 1 - n) as nat, |q: int| 0u8));
            }
            i = i + 1;
        }
        MessageData::Inline(d)
    }
}

/// One message crossing a channel.
#[derive(Debug)]
pub struct IpcMessage {
    /// Message id
    pub id: u64,
    /// Sender process id
    pub sender: u32,
    /// Message type
    pub msg_type: MessageType,
    /// Payload, by value or by reference
    pub data: MessageData,
    /// Capabilities transferred alongside the message
    pub capabilities: Vec<Capability>,
}

impl IpcMessage {
    /// Message well-formedness: the payload is well-formed.
    pub open spec fn wf(&self) -> bool {
        self.data.wf()
    }
}

/// The 14 header bytes of a message: id, sender, type tag, data tag.
pub open spec fn header_bytes(id: u64, sender: u32, t: MessageType, dtag: u8) -> Seq<u8> {
    u64_le(id) + u32_le(sender) + seq![msg_type_tag(t), dtag]
}

/// The payload bytes of a message: inline data itself, or the 16-byte
/// address-and-size reference for shared memory.
pub open spec fn payload_bytes(data: MessageData) -> Seq<u8> {
    match data {
        MessageData::Inline(d) => d@,
        MessageData::SharedMemory { addr, size, .. } => u64_le(addr as u64) + u64_le(size as u64),
    }
}

/// The full wire frame of a message.
pub open spec fn message_bytes(m: IpcMessage) -> Seq<u8> {
    header_bytes(m.id, m.sender, m.msg_type, m.data.tag()) + payload_bytes(m.data)
}

/// The length of the frame at the front of `s`; meaningful once 14 header
/// bytes are present.
pub open spec fn frame_size(s: Seq<u8>) -> int {
    HEADER_SIZE as int + if s[HEADER_SIZE as int - 1] == 0 {
        INLINE_PAYLOAD_SIZE as int
    } else {
        SHARED_REF_SIZE as int
    }
}

/// Whether `s` starts with one complete frame.
pub open spec fn frame_ready(s: Seq<u8>) -> bool {
    s.len() >= HEADER_SIZE as int && s.len() >= frame_size(s)
}

/// A channel between two processes: one transport per direction, gated by
/// one capability.
///
/// The kernel holds a single channel object per communicating pair. The
/// send ring carries the sender-to-receiver direction — `send_message`
/// enqueues there and `receive_message` dequeues from there — and the
/// receive ring carries replies back, via `send_reply` and
/// `receive_reply`.
#[derive(Debug)]
pub struct IpcChannel {
    /// Unique channel id
    id: u64,
    /// Sender process id
    sender_pid: u32,
    /// Receiver process id
    receiver_pid: u32,
    /// Sender-to-receiver transport
    send_ring: RingBufferTransport,
    /// Receiver-to-sender transport
    recv_ring: RingBufferTransport,
    /// Capability gating the channel
    capability: Capability,
}

impl IpcChannel {
    /// Spec view of the channel id.
    pub closed spec fn spec_id(&self) -> u64 {
        self.id
    }

    /// Spec view of the sender pid.
    pub closed spec fn spec_sender_pid(&self) -> u32 {
        self.sender_pid
    }

    /// Spec view of the receiver pid.
    pub closed spec fn spec_receiver_pid(&self) -> u32 {
        self.receiver_pid
    }

    /// Spec view of the gating capability.
    pub closed spec fn spec_capability(&self) -> Capability {
        self.capability
    }

    /// Bytes queued in the sender-to-receiver direction.
    pub closed spec fn send_contents(&self) -> Seq<u8> {
        self.send_ring.contents()
    }

    /// Bytes queued in the receiver-to-sender direction.
    pub closed spec fn recv_contents(&self) -> Seq<u8> {
        self.recv_ring.contents()
    }

    /// Capacity of the sender-to-receiver transport.
    pub closed spec fn send_capacity(&self) -> int {
        self.send_ring.capacity()
    }

    /// Capacity of the receiver-to-sender transport.
    pub closed spec fn recv_capacity(&self) -> int {
        self.recv_ring.capacity()
    }

    /// Channel well-formedness: both transports are well-formed.
    pub closed spec fn wf(&self) -> bool {
        self.send_ring.wf() && self.recv_ring.wf()
    }

    /// The channel id.
    pub fn id(&self) -> (r: u64)
        ensures
            r == self.spec_id(),
    {
        self.id
    }

    /// The sender process id.
    pub fn sender_pid(&self) -> (r: u32)
        ensures
            r == self.spec_sender_pid(),
    {
        self.sender_pid
    }

    /// The receiver process id.
    pub fn receiver_pid(&self) -> (r: u32)
        ensures
            r == self.spec_receiver_pid(),
    {
        self.receiver_pid
    }

    /// The capability gating this channel.
    pub fn capability(&self) -> (r: &Capability)
        ensures
            *r == self.spec_capability(),
    {
        &self.capability
    }
}

/// What a channel keeps across an operation on its send ring: identity,
/// capability, and the untouched reply direction.
pub open spec fn channel_frame(pre: IpcChannel, post: IpcChannel) -> bool {
    &&& post.spec_id() == pre.spec_id()
    &&& post.spec_sender_pid() == pre.spec_sender_pid()
    &&& post.spec_receiver_pid() == pre.spec_receiver_pid()
    &&& post.spec_capability() == pre.spec_capability()
    &&& post.send_capacity() == pre.send_capacity()
    &&& post.recv_capacity() == pre.recv_capacity()
    &&& post.recv_contents() == pre.recv_contents()
}

/// Saturating increment for a statistics counter.
pub open spec fn bumped(x: u64) -> u64 {
    if x < u64::MAX {
        (x + 1) as u64
    } else {
        x
    }
}

/// Saturating increment for a statistics counter.
fn bump(x: u64) -> (r: u64)
    ensures
        r == bumped(x),
{
    if x < u64::MAX {
        x + 1
    } else {
        x
    }
}

/// The zero-copy IPC subsystem: channel id allocation and counters.
///
/// Created once at boot, next to the capability registry; an `IpcSystem`
/// value in hand is an initialized subsystem.
pub struct IpcSystem {
    /// Next channel id to allocate
    next_channel_id: u64,
    /// System-wide counters
    stats: IpcStats,
}

impl IpcSystem {
    /// Spec view of the counters.
    pub closed spec fn spec_stats(&self) -> IpcStats {
        self.stats
    }

    /// Spec view of the next channel id.
    pub closed spec fn spec_next_channel_id(&self) -> u64 {
        self.next_channel_id
    }

    /// A fresh IPC subsystem with zeroed counters.
    pub fn new() -> (r: Self)
        ensures
            r.spec_next_channel_id() == 1,
            r.spec_stats() == (IpcStats {
                messages_sent: 0,
                messages_received: 0,
                bytes_transferred: 0,
                zero_copy_transfers: 0,
            }),
    {
        IpcSystem {
            next_channel_id: 1,
            stats: IpcStats {
                messages_sent: 0,
                messages_received: 0,
                bytes_transferred: 0,
                zero_copy_transfers: 0,
            },
        }
    }

    /// Whether the IPC subsystem is ready; an existing value always is.
    pub fn is_initialized(&self) -> (r: bool)
        ensures
            r,
    {
        true
    }

    /// The system-wide IPC counters.
    pub fn get_stats(&self) -> (r: IpcStats)
        ensures
            r == self.spec_stats(),
    {
        self.stats
    }

    /// Create a channel between two processes.
    ///
    /// Allocates a fresh channel id and two empty transports, and has the
    /// registry mint the gating capability: kind IPC, scoped to the new
    /// channel id, no parent, granting read, write and delegate. The
    /// delegate right is what later lets the receiver of a shared-memory
    /// message be handed a derived capability for the referenced region.
    pub fn create_channel(
        &mut self,
        registry: &mut CapabilityRegistry,
        sender_pid: u32,
        receiver_pid: u32,
    ) -> (r: Result<IpcChannel, IpcError>)
        requires
            old(registry).wf(),
            old(registry).spec_next_id() < u64::MAX,
            old(self).spec_next_channel_id() < u64::MAX,
        ensures
            final(registry).wf(),
            final(self).spec_stats() == old(self).spec_stats(),
            final(self).spec_next_channel_id() == old(self).spec_next_channel_id() + 1,
            final(registry).spec_clock() == old(registry).spec_clock(),
            r matches Ok(ch) && {
                &&& ch.wf()
                &&& ch.spec_id() == old(self).spec_next_channel_id()
                &&& ch.spec_sender_pid() == sender_pid
                &&& ch.spec_receiver_pid() == receiver_pid
                &&& ch.send_contents() == Seq::<u8>::empty()
                &&& ch.recv_contents() == Seq::<u8>::empty()
                &&& ch.send_capacity() == RING_BUFFER_SIZE as int
                &&& ch.recv_capacity() == RING_BUFFER_SIZE as int
                &&& ch.spec_capability().spec_id() == old(registry).spec_next_id()
                &&& ch.spec_capability().spec_cap_type() == CapabilityType::IPC
                &&& ch.spec_capability().spec_resource_id() == (ResourceId::IPC {
                    channel_id: ch.spec_id(),
                })
                &&& ch.spec_capability().spec_permissions() == (PermissionSet {
                    read: true,
                    write: true,
                    execute: false,
                    delete: false,
                    delegate: true,
                })
                &&& ch.spec_capability().spec_expiry() == 0
                &&& ch.spec_capability().spec_parent() is None
                &&& ch.spec_capability().spec_depth() == 0
                &&& !ch.spec_capability().spec_revoked()
                &&& final(registry).caps() == old(registry).caps().push(ch.spec_capability())
                &&& final(registry).audit() == old(registry).audit().push(
                    AuditEntry {
                        timestamp: old(registry).spec_clock(),
                        operation: AuditOperation::Created,
                        capability_id: ch.spec_capability().spec_id(),
                        process_id: 0,
                    },
                )
                &&& final(registry).spec_next_id() == old(registry).spec_next_id() + 1
            },
    {
        let id = self.next_channel_id;
        self.next_channel_id = self.next_channel_id + 1;
        let send_ring = RingBufferTransport::new(RING_BUFFER_SIZE);
        let recv_ring = RingBufferTransport::new(RING_BUFFER_SIZE);
        let perms = PermissionSet {
            read: true,
            write: true,
            execute: false,
            delete: false,
            delegate: true,
        };
        let capability = match registry.create_capability(
            CapabilityType::IPC,
            ResourceId::IPC { channel_id: id },
            perms,
            None,
        ) {
            Ok(c) => c,
            Err(_) => {
                // creation without a parent performs no checks and cannot
                // fail
                proof {
                    assert(false);
                }
                return Err(IpcError::CapabilityError);
            },
        };
        Ok(
            IpcChannel {
                id,
                sender_pid,
                receiver_pid,
                send_ring,
                recv_ring,
                capability,
            },
        )
    }
}

/// Build the wire frame of a message: header, then payload.
fn build_frame(message: &IpcMessage) -> (r: Vec<u8>)
    requires
        message.wf(),
    ensures
        r@ == message_bytes(*message),
{
    let mut frame: Vec<u8> = Vec::new();
    push_u64_le(&mut frame, message.id);
    push_u32_le(&mut frame, message.sender);
    frame.push(msg_type_to_tag(message.msg_type));
    match &message.data {
        MessageData::Inline(d) => {
            frame.push(0);
            proof {
                assert(frame@ =~= header_bytes(
                    message.id,
                    message.sender,
                    message.msg_type,
                    message.data.tag(),
                ));
            }
            let ghost head = frame@;
            let n = d.len();
            let mut i: usize = 0;
            while i < n
                invariant
                    i <= n,
                    n == d@.len(),
                    frame@ == head + d@.take(i as int),
                decreases n - i,
            {
                let b = d[i];
                frame.push(b);
                proof {
                    assert(frame@ =~= head + d@.take(i + 1));
                }
                i = i + 1;
            }
            proof {
                assert(frame@ =~= head + d@);
            }
        },
        MessageData::SharedMemory { addr, size, .. } => {
            frame.push(1);
            proof {
                assert(frame@ =~= header_bytes(
                    message.id,
                    message.sender,
                    message.msg_type,
                    message.data.tag(),
                ));
            }
            push_u64_le(&mut frame, *addr as u64);
            push_u64_le(&mut frame, *size as u64);
            proof {
                assert(frame@ =~= message_bytes(*message));
            }
        },
    }
    frame
}

/// Enqueue one whole frame, or nothing.
fn write_frame(ring: &mut RingBufferTransport, message: &IpcMessage) -> (r: Result<(), IpcError>)
    requires
        old(ring).wf(),
        message.wf(),
    ensures
        final(ring).wf(),
        final(ring).capacity() == old(ring).capacity(),
        if message_bytes(*message).len() + old(ring).contents().len() <= old(ring).capacity() {
            r is Ok && final(ring).contents() == old(ring).contents() + message_bytes(*message)
        } else {
            r == Err::<(), IpcError>(IpcError::BufferFull) && final(ring).contents() == old(ring).contents()
        },
{
    let frame = build_frame(message);
    match ring.write(frame.as_slice()) {
        Ok(_) => Ok(()),
        Err(_) => Err(IpcError::BufferFull),
    }
}

/// Dequeue one whole frame, or nothing.
fn read_frame(ring: &mut RingBufferTransport) -> (r: Result<Vec<u8>, IpcError>)
    requires
        old(ring).wf(),
    ensures
        final(ring).wf(),
        final(ring).capacity() == old(ring).capacity(),
        if frame_ready(old(ring).contents()) {
            r matches Ok(frame) && frame@ == old(ring).contents().take(
                frame_size(old(ring).contents()),
            ) && final(ring).contents() == old(ring).contents().skip(
                frame_size(old(ring).contents()),
            )
        } else {
            r == Err::<Vec<u8>, IpcError>(IpcError::BufferEmpty) && final(ring).contents() == old(ring).contents()
        },
{
    let queued = ring.occupied();
    if queued < HEADER_SIZE {
        return Err(IpcError::BufferEmpty);
    }
    let dtag = ring.peek(HEADER_SIZE - 1);
    let need = if dtag == 0 {
        HEADER_SIZE + INLINE_PAYLOAD_SIZE
    } else {
        HEADER_SIZE + SHARED_REF_SIZE
    };
    if queued < need {
        return Err(IpcError::BufferEmpty);
    }
    let mut frame: Vec<u8> = Vec::new();
    let mut i: usize = 0;
    while i < need
        invariant
            i <= need,
            frame@.len() == i,
            forall|q: int| 0 <= q < i ==> frame@[q] == 0u8,
        decreases need - i,
    {
        frame.push(0);
        i = i + 1;
    }
    let ghost pre = *ring;
    match ring.read(&mut frame) {
        Ok(_) => {
            proof {
                assert(frame@ =~= pre.contents().take(need as int));
            }
            Ok(frame)
        },
        Err(_) => {
            // the transport held at least `need` bytes, so the read cannot
            // come back empty
            proof {
                assert(false);
            }
            Err(IpcError::BufferEmpty)
        },
    }
}

/// Send a message over a channel (zero-copy for shared memory).
///
/// The channel capability is validated for the write right against the
/// registry; on refusal nothing is enqueued. A message whose frame does
/// not fit in the free space of the send transport is rejected whole with
/// `BufferFull` — the transport is untouched, though the successful
/// validation has already left its `Used` audit record. On success the
/// frame — header plus inline payload, or header plus the 16-byte
/// reference for shared memory — sits queued behind the earlier bytes,
/// and the counters record the send.
pub fn send_message(
    system: &mut IpcSystem,
    registry: &mut CapabilityRegistry,
    channel: &mut IpcChannel,
    message: IpcMessage,
) -> (r: Result<(), IpcError>)
    requires
        old(registry).wf(),
        old(channel).wf(),
        message.wf(),
    ensures
        final(registry).wf(),
        final(channel).wf(),
        channel_frame(*old(channel), *final(channel)),
        final(system).spec_next_channel_id() == old(system).spec_next_channel_id(),
        final(registry).caps() == old(registry).caps(),
        final(registry).spec_next_id() == old(registry).spec_next_id(),
        final(registry).spec_clock() == old(registry).spec_clock(),
        ({
            let v = validate_check(
                old(registry).caps(),
                old(registry).spec_clock(),
                old(channel).spec_capability(),
                Permission::Write,
            );
            if v is Some {
                &&& r == Err::<(), IpcError>(IpcError::PermissionDenied)
                &&& final(registry).audit() == old(registry).audit()
                &&& final(channel).send_contents() == old(channel).send_contents()
                &&& final(system).spec_stats() == old(system).spec_stats()
            } else {
                &&& final(registry).audit() == old(registry).audit().push(
                    AuditEntry {
                        timestamp: old(registry).spec_clock(),
                        operation: AuditOperation::Used,
                        capability_id: old(channel).spec_capability().spec_id(),
                        process_id: 0,
                    },
                )
                &&& if message_bytes(message).len() + old(channel).send_contents().len() <= old(channel).send_capacity() {
                    &&& r is Ok
                    &&& final(channel).send_contents() == old(channel).send_contents()
                        + message_bytes(message)
                    &&& final(system).spec_stats() == (IpcStats {
                        messages_sent: bumped(old(system).spec_stats().messages_sent),
                        zero_copy_transfers: if message.data is SharedMemory {
                            bumped(old(system).spec_stats().zero_copy_transfers)
                        } else {
                            old(system).spec_stats().zero_copy_transfers
                        },
                        ..old(system).spec_stats()
                    })
                } else {
                    &&& r == Err::<(), IpcError>(IpcError::BufferFull)
                    &&& final(channel).send_contents() == old(channel).send_contents()
                    &&& final(system).spec_stats() == old(system).spec_stats()
                }
            }
        }),
{
    match registry.validate_capability(&channel.capability, Permission::Write) {
        Ok(_) => {},
        Err(_) => {
            return Err(IpcError::PermissionDenied);
        },
    }
    match write_frame(&mut channel.send_ring, &message) {
        Ok(_) => {},
        Err(e) => {
            return Err(e);
        },
    }
    system.stats.messages_sent = bump(system.stats.messages_sent);
    match &message.data {
        MessageData::SharedMemory { .. } => {
            system.stats.zero_copy_transfers = bump(system.stats.zero_copy_transfers);
        },
        MessageData::Inline(_) => {},
    }
    Ok(())
}

/// Receive a message from a channel.
///
/// The channel capability is validated for the read right against the
/// registry; on refusal nothing is dequeued. A transport holding less
/// than one whole frame reads as `BufferEmpty` and is left untouched. A
/// complete inline frame comes back as the message it encodes. For a
/// shared-memory frame the receiver is not implicitly granted access to
/// the region: the registry mints a new, derived, read-only memory
/// capability — parent: the channel capability, resource: exactly the
/// referenced range — through the normal delegation path, and the message
/// carries it. Should delegation from the channel capability fail, the
/// frame is consumed and `CapabilityError` returned.
pub fn receive_message(
    system: &mut IpcSystem,
    registry: &mut CapabilityRegistry,
    channel: &mut IpcChannel,
) -> (r: Result<IpcMessage, IpcError>)
    requires
        old(registry).wf(),
        old(channel).wf(),
        old(registry).spec_next_id() < u64::MAX,
    ensures
        final(registry).wf(),
        final(channel).wf(),
        channel_frame(*old(channel), *final(channel)),
        final(system).spec_next_channel_id() == old(system).spec_next_channel_id(),
        final(registry).spec_clock() == old(registry).spec_clock(),
        ({
            let v = validate_check(
                old(registry).caps(),
                old(registry).spec_clock(),
                old(channel).spec_capability(),
                Permission::Read,
            );
            let s = old(channel).send_contents();
            let used = AuditEntry {
                timestamp: old(registry).spec_clock(),
                operation: AuditOperation::Used,
                capability_id: old(channel).spec_capability().spec_id(),
                process_id: 0,
            };
            if v is Some {
                &&& r == Err::<IpcMessage, IpcError>(IpcError::PermissionDenied)
                &&& final(registry).caps() == old(registry).caps()
                &&& final(registry).audit() == old(registry).audit()
                &&& final(channel).send_contents() == s
                &&& final(system).spec_stats() == old(system).spec_stats()
            } else if !frame_ready(s) {
                &&& r == Err::<IpcMessage, IpcError>(IpcError::BufferEmpty)
                &&& final(registry).caps() == old(registry).caps()
                &&& final(registry).audit() == old(registry).audit().push(used)
                &&& final(channel).send_contents() == s
                &&& final(system).spec_stats() == old(system).spec_stats()
            } else if s[HEADER_SIZE as int - 1] == 0 {
                &&& r matches Ok(m) && {
                    &&& m.id == u64_of_le(s, 0)
                    &&& m.sender == u32_of_le(s, 8)
                    &&& m.msg_type == msg_type_of_tag(s[12])
                    &&& m.data matches MessageData::Inline(d) && d@ == s.subrange(
                        HEADER_SIZE as int,
                        frame_size(s),
                    )
                    &&& m.capabilities@.len() == 0
                }
                &&& final(registry).caps() == old(registry).caps()
                &&& final(registry).audit() == old(registry).audit().push(used)
                &&& final(channel).send_contents() == s.skip(frame_size(s))
                &&& final(system).spec_stats() == (IpcStats {
                    messages_received: bumped(old(system).spec_stats().messages_received),
                    ..old(system).spec_stats()
                })
            } else {
                let cc = create_check(
                    old(registry).caps(),
                    Some(old(channel).spec_capability()),
                    PermissionSet { read: true, write: false, execute: false, delete: false, delegate: false },
                );
                let addr = u64_of_le(s, HEADER_SIZE as int) as usize;
                let size = u64_of_le(s, HEADER_SIZE as int + 8) as usize;
                &&& final(channel).send_contents() == s.skip(frame_size(s))
                &&& match cc {
                    Some(_) => {
                        &&& r == Err::<IpcMessage, IpcError>(IpcError::CapabilityError)
                        &&& final(registry).caps() == old(registry).caps()
                        &&& final(registry).audit() == old(registry).audit().push(used)
                        &&& final(system).spec_stats() == old(system).spec_stats()
                    },
                    None => {
                        &&& r matches Ok(m) && {
                            &&& m.id == u64_of_le(s, 0)
                            &&& m.sender == u32_of_le(s, 8)
                            &&& m.msg_type == msg_type_of_tag(s[12])
                            &&& m.data matches MessageData::SharedMemory {
                                addr: a,
                                size: z,
                                capability: c,
                            } && {
                                &&& a == addr
                                &&& z == size
                                &&& c.spec_id() == old(registry).spec_next_id()
                                &&& c.spec_cap_type() == CapabilityType::Memory
                                &&& c.spec_resource_id() == (ResourceId::Memory {
                                    start: addr,
                                    size: size,
                                })
                                &&& c.spec_permissions() == (PermissionSet {
                                    read: true,
                                    write: false,
                                    execute: false,
                                    delete: false,
                                    delegate: false,
                                })
                                &&& c.spec_parent() == Some(
                                    old(channel).spec_capability().spec_id(),
                                )
                                &&& !c.spec_revoked()
                                &&& final(registry).caps() == old(registry).caps().push(c)
                            }
                            &&& m.capabilities@.len() == 0
                        }
                        &&& final(registry).audit().len() == old(registry).audit().len() + 2
                        &&& final(registry).audit()[final(registry).audit().len() - 2] == used
                        &&& final(registry).spec_next_id() == old(registry).spec_next_id() + 1
                        &&& final(system).spec_stats() == (IpcStats {
                            messages_received: bumped(old(system).spec_stats().messages_received),
                            ..old(system).spec_stats()
                        })
                    },
                }
            }
        }),
{
    match registry.validate_capability(&channel.capability, Permission::Read) {
        Ok(_) => {},
        Err(_) => {
            return Err(IpcError::PermissionDenied);
        },
    }
    let frame = match read_frame(&mut channel.send_ring) {
        Ok(f) => f,
        Err(e) => {
            return Err(e);
        },
    };
    let id = read_u64_le(&frame, 0);
    let sender = read_u32_le(&frame, 8);
    let msg_type = tag_to_msg_type(frame[12]);
    let dtag = frame[13];
    let ghost s = old(channel).send_contents();
    let data = if dtag == 0 {
        let mut d: Vec<u8> = Vec::new();
        let mut i: usize = HEADER_SIZE;
        while i < HEADER_SIZE + INLINE_PAYLOAD_SIZE
            invariant
                HEADER_SIZE <= i <= HEADER_SIZE + INLINE_PAYLOAD_SIZE,
                frame@.len() == HEADER_SIZE + INLINE_PAYLOAD_SIZE,
                d@ == frame@.subrange(HEADER_SIZE as int, i as int),
            decreases HEADER_SIZE + INLINE_PAYLOAD_SIZE - i,
        {
            let b = frame[i];
            d.push(b);
            proof {
                assert(d@ =~= frame@.subrange(HEADER_SIZE as int, i + 1));
            }
            i = i + 1;
        }
        MessageData::Inline(d)
    } else {
        let addr64 = read_u64_le(&frame, HEADER_SIZE);
        let size64 = read_u64_le(&frame, HEADER_SIZE + 8);
        let addr = addr64 as usize;
        let size = size64 as usize;
        let capability = match registry.create_capability(
            CapabilityType::Memory,
            ResourceId::Memory { start: addr, size },
            PermissionSet::read_only(),
            Some(&channel.capability),
        ) {
            Ok(c) => c,
            Err(_) => {
                return Err(IpcError::CapabilityError);
            },
        };
        MessageData::SharedMemory { addr, size, capability }
    };
    system.stats.messages_received = bump(system.stats.messages_received);
    Ok(
        IpcMessage {
            id,
            sender,
            msg_type,
            data,
            capabilities: Vec::new(),
        },
    )
}

/// Receive a reply from the channel's reverse direction.
///
/// The same contract as `receive_message`, on the receiver-to-sender
/// transport: the capability is validated for the read right, a partial
/// frame reads as empty, and a shared-memory reply mints the same kind of
/// derived, read-only, channel-parented memory capability.
pub fn receive_reply(
    system: &mut IpcSystem,
    registry: &mut CapabilityRegistry,
    channel: &mut IpcChannel,
) -> (r: Result<IpcMessage, IpcError>)
    requires
        old(registry).wf(),
        old(channel).wf(),
        old(registry).spec_next_id() < u64::MAX,
    ensures
        final(registry).wf(),
        final(channel).wf(),
        final(channel).spec_id() == old(channel).spec_id(),
        final(channel).spec_sender_pid() == old(channel).spec_sender_pid(),
        final(channel).spec_receiver_pid() == old(channel).spec_receiver_pid(),
        final(channel).spec_capability() == old(channel).spec_capability(),
        final(channel).send_capacity() == old(channel).send_capacity(),
        final(channel).recv_capacity() == old(channel).recv_capacity(),
        final(channel).send_contents() == old(channel).send_contents(),
        final(system).spec_next_channel_id() == old(system).spec_next_channel_id(),
        final(registry).spec_clock() == old(registry).spec_clock(),
        ({
            let v = validate_check(
                old(registry).caps(),
                old(registry).spec_clock(),
                old(channel).spec_capability(),
                Permission::Read,
            );
            let s = old(channel).recv_contents();
            let used = AuditEntry {
                timestamp: old(registry).spec_clock(),
                operation: AuditOperation::Used,
                capability_id: old(channel).spec_capability().spec_id(),
                process_id: 0,
            };
            if v is Some {
                &&& r == Err::<IpcMessage, IpcError>(IpcError::PermissionDenied)
                &&& final(registry).caps() == old(registry).caps()
                &&& final(registry).audit() == old(registry).audit()
                &&& final(channel).recv_contents() == s
                &&& final(system).spec_stats() == old(system).spec_stats()
            } else if !frame_ready(s) {
                &&& r == Err::<IpcMessage, IpcError>(IpcError::BufferEmpty)
                &&& final(registry).caps() == old(registry).caps()
                &&& final(registry).audit() == old(registry).audit().push(used)
                &&& final(channel).recv_contents() == s
                &&& final(system).spec_stats() == old(system).spec_stats()
            } else if s[HEADER_SIZE as int - 1] == 0 {
                &&& r matches Ok(m) && {
                    &&& m.id == u64_of_le(s, 0)
                    &&& m.sender == u32_of_le(s, 8)
                    &&& m.msg_type == msg_type_of_tag(s[12])
                    &&& m.data matches MessageData::Inline(d) && d@ == s.subrange(
                        HEADER_SIZE as int,
                        frame_size(s),
                    )
                    &&& m.capabilities@.len() == 0
                }
                &&& final(registry).caps() == old(registry).caps()
                &&& final(registry).audit() == old(registry).audit().push(used)
                &&& final(channel).recv_contents() == s.skip(frame_size(s))
                &&& final(system).spec_stats() == (IpcStats {
                    messages_received: bumped(old(system).spec_stats().messages_received),
                    ..old(system).spec_stats()
                })
            } else {
                let cc = create_check(
                    old(registry).caps(),
                    Some(old(channel).spec_capability()),
                    PermissionSet { read: true, write: false, execute: false, delete: false, delegate: false },
                );
                let addr = u64_of_le(s, HEADER_SIZE as int) as usize;
                let size = u64_of_le(s, HEADER_SIZE as int + 8) as usize;
                &&& final(channel).recv_contents() == s.skip(frame_size(s))
                &&& match cc {
                    Some(_) => {
                        &&& r == Err::<IpcMessage, IpcError>(IpcError::CapabilityError)
                        &&& final(registry).caps() == old(registry).caps()
                        &&& final(registry).audit() == old(registry).audit().push(used)
                        &&& final(system).spec_stats() == old(system).spec_stats()
                    },
                    None => {
                        &&& r matches Ok(m) && {
                            &&& m.id == u64_of_le(s, 0)
                            &&& m.sender == u32_of_le(s, 8)
                            &&& m.msg_type == msg_type_of_tag(s[12])
                            &&& m.data matches MessageData::SharedMemory {
                                addr: a,
                                size: z,
                                capability: c,
                            } && {
                                &&& a == addr
                                &&& z == size
                                &&& c.spec_id() == old(registry).spec_next_id()
                                &&& c.spec_cap_type() == CapabilityType::Memory
                                &&& c.spec_resource_id() == (ResourceId::Memory {
                                    start: addr,
                                    size: size,
                                })
                                &&& c.spec_permissions() == (PermissionSet {
                                    read: true,
                                    write: false,
                                    execute: false,
                                    delete: false,
                                    delegate: false,
                                })
                                &&& c.spec_parent() == Some(
                                    old(channel).spec_capability().spec_id(),
                                )
                                &&& !c.spec_revoked()
                                &&& final(registry).caps() == old(registry).caps().push(c)
                            }
                            &&& m.capabilities@.len() == 0
                        }
                        &&& final(registry).audit().len() == old(registry).audit().len() + 2
                        &&& final(registry).audit()[final(registry).audit().len() - 2] == used
                        &&& final(registry).spec_next_id() == old(registry).spec_next_id() + 1
                        &&& final(system).spec_stats() == (IpcStats {
                            messages_received: bumped(old(system).spec_stats().messages_received),
                            ..old(system).spec_stats()
                        })
                    },
                }
            }
        }),
{
    match registry.validate_capability(&channel.capability, Permission::Read) {
        Ok(_) => {},
        Err(_) => {
            return Err(IpcError::PermissionDenied);
        },
    }
    let frame = match read_frame(&mut channel.recv_ring) {
        Ok(f) => f,
        Err(e) => {
            return Err(e);
        },
    };
    let id = read_u64_le(&frame, 0);
    let sender = read_u32_le(&frame, 8);
    let msg_type = tag_to_msg_type(frame[12]);
    let dtag = frame[13];
    let ghost s = old(channel).recv_contents();
    let data = if dtag == 0 {
        let mut d: Vec<u8> = Vec::new();
        let mut i: usize = HEADER_SIZE;
        while i < HEADER_SIZE + INLINE_PAYLOAD_SIZE
            invariant
                HEADER_SIZE <= i <= HEADER_SIZE + INLINE_PAYLOAD_SIZE,
                frame@.len() == HEADER_SIZE + INLINE_PAYLOAD_SIZE,
                d@ == frame@.subrange(HEADER_SIZE as int, i as int),
            decreases HEADER_SIZE + INLINE_PAYLOAD_SIZE - i,
        {
            let b = frame[i];
            d.push(b);
            proof {
                assert(d@ =~= frame@.subrange(HEADER_SIZE as int, i + 1));
            }
            i = i + 1;
        }
        MessageData::Inline(d)
    } else {
        let addr64 = read_u64_le(&frame, HEADER_SIZE);
        let size64 = read_u64_le(&frame, HEADER_SIZE + 8);
        let addr = addr64 as usize;
        let size = size64 as usize;
        let capability = match registry.create_capability(
            CapabilityType::Memory,
            ResourceId::Memory { start: addr, size },
            PermissionSet::read_only(),
            Some(&channel.capability),
        ) {
            Ok(c) => c,
            Err(_) => {
                return Err(IpcError::CapabilityError);
            },
        };
        MessageData::SharedMemory { addr, size, capability }
    };
    system.stats.messages_received = bump(system.stats.messages_received);
    Ok(
        IpcMessage {
            id,
            sender,
            msg_type,
            data,
            capabilities: Vec::new(),
        },
    )
}

/// Send a reply back over the channel's reverse direction.
///
/// The same contract as `send_message`, on the receiver-to-sender
/// transport; the counters record the send the same way.
pub fn send_reply(
    system: &mut IpcSystem,
    registry: &mut CapabilityRegistry,
    channel: &mut IpcChannel,
    message: IpcMessage,
) -> (r: Result<(), IpcError>)
    requires
        old(registry).wf(),
        old(channel).wf(),
        message.wf(),
    ensures
        final(registry).wf(),
        final(channel).wf(),
        final(channel).spec_id() == old(channel).spec_id(),
        final(channel).spec_sender_pid() == old(channel).spec_sender_pid(),
        final(channel).spec_receiver_pid() == old(channel).spec_receiver_pid(),
        final(channel).spec_capability() == old(channel).spec_capability(),
        final(channel).send_capacity() == old(channel).send_capacity(),
        final(channel).recv_capacity() == old(channel).recv_capacity(),
        final(channel).send_contents() == old(channel).send_contents(),
        final(registry).caps() == old(registry).caps(),
        final(registry).spec_next_id() == old(registry).spec_next_id(),
        final(registry).spec_clock() == old(registry).spec_clock(),
        final(system).spec_next_channel_id() == old(system).spec_next_channel_id(),
        ({
            let v = validate_check(
                old(registry).caps(),
                old(registry).spec_clock(),
                old(channel).spec_capability(),
                Permission::Write,
            );
            if v is Some {
                &&& r == Err::<(), IpcError>(IpcError::PermissionDenied)
                &&& final(registry).audit() == old(registry).audit()
                &&& final(channel).recv_contents() == old(channel).recv_contents()
                &&& final(system).spec_stats() == old(system).spec_stats()
            } else {
                &&& final(registry).audit() == old(registry).audit().push(
                    AuditEntry {
                        timestamp: old(registry).spec_clock(),
                        operation: AuditOperation::Used,
                        capability_id: old(channel).spec_capability().spec_id(),
                        process_id: 0,
                    },
                )
                &&& if message_bytes(message).len() + old(channel).recv_contents().len() <= old(channel).recv_capacity() {
                    &&& r is Ok
                    &&& final(channel).recv_contents() == old(channel).recv_contents()
                        + message_bytes(message)
                    &&& final(system).spec_stats() == (IpcStats {
                        messages_sent: bumped(old(system).spec_stats().messages_sent),
                        zero_copy_transfers: if message.data is SharedMemory {
                            bumped(old(system).spec_stats().zero_copy_transfers)
                        } else {
                            old(system).spec_stats().zero_copy_transfers
                        },
                        ..old(system).spec_stats()
                    })
                } else {
                    &&& r == Err::<(), IpcError>(IpcError::BufferFull)
                    &&& final(channel).recv_contents() == old(channel).recv_contents()
                    &&& final(system).spec_stats() == old(system).spec_stats()
                }
            }
        }),
{
    match registry.validate_capability(&channel.capability, Permission::Write) {
        Ok(_) => {},
        Err(_) => {
            return Err(IpcError::PermissionDenied);
        },
    }
    match write_frame(&mut channel.recv_ring, &message) {
        Ok(_) => {},
        Err(e) => {
            return Err(e);
        },
    }
    system.stats.messages_sent = bump(system.stats.messages_sent);
    match &message.data {
        MessageData::SharedMemory { .. } => {
            system.stats.zero_copy_transfers = bump(system.stats.zero_copy_transfers);
        },
        MessageData::Inline(_) => {},
    }
    Ok(())
}

/// Close a channel: the channel object is consumed and its gating
/// capability revoked, which cascades over everything delegated from it
/// — the derived shared-memory grants included. Further operation on
/// either direction of a reconstructed channel fails validation.
pub fn close_channel(
    registry: &mut CapabilityRegistry,
    channel: IpcChannel,
) -> (r: Result<(), IpcError>)
    requires
        old(registry).wf(),
    ensures
        final(registry).wf(),
        match r {
            Ok(_) => revoke_post(
                *old(registry),
                *final(registry),
                channel.spec_capability().spec_id(),
                Ok(()),
            ),
            Err(e) => e == IpcError::CapabilityError && revoke_post(
                *old(registry),
                *final(registry),
                channel.spec_capability().spec_id(),
                Err(crate::capability::CapabilityError::NotFound),
            ),
        },
{
    match registry.revoke_capability(channel.capability.id()) {
        Ok(_) => Ok(()),
        Err(_) => Err(IpcError::CapabilityError),
    }
}

} // verus!
