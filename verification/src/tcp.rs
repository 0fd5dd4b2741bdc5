//! TCP connection state machine and header layout.
//!
//! Header multi-byte fields are kept in network byte order; this core
//! targets little-endian machines, so storing means byte-swapping.

use vstd::prelude::*;

verus! {

/// TCP connection states.
#[derive(Clone, Copy, Debug, PartialEq, Eq, Structural)]
pub enum TcpState {
    /// No connection
    Closed,
    /// Waiting for an incoming connection
    Listen,
    /// SYN sent, waiting for SYN-ACK
    SynSent,
    /// SYN received, waiting for ACK
    SynReceived,
    /// Connection established
    Established,
    /// FIN sent, waiting for ACK
    FinWait1,
    /// Waiting for the peer's FIN
    FinWait2,
    /// Peer closed, waiting for local close
    CloseWait,
    /// Both sides closing
    Closing,
    /// Waiting for the last ACK
    LastAck,
    /// Waiting out stray segments
    TimeWait,
}

/// TCP header flag bits.
#[derive(Clone, Copy, Debug, PartialEq, Eq, Structural)]
pub struct TcpFlags;

impl TcpFlags {
    /// Finish flag.
    pub const FIN: u8 = 1;

    /// Synchronize flag.
    pub const SYN: u8 = 2;

    /// Reset flag.
    pub const RST: u8 = 4;

    /// Push flag.
    pub const PSH: u8 = 8;

    /// Acknowledge flag.
    pub const ACK: u8 = 16;

    /// Urgent flag.
    pub const URG: u8 = 32;
}

/// A 16-bit value with its bytes swapped: host to network order on a
/// little-endian machine.
pub open spec fn swap16(x: u16) -> u16 {
    (((x & 0xFF) << 8) | (x >> 8)) as u16
}

/// Swap the two bytes of a 16-bit value.
pub fn swap_u16(x: u16) -> (r: u16)
    ensures
        r == swap16(x),
{
    ((x & 0xFF) << 8) | (x >> 8)
}

/// TCP header.
#[derive(Clone, Copy, Debug, PartialEq, Eq, Structural)]
pub struct TcpHeader {
    /// Source port, network order
    pub src_port: u16,
    /// Destination port, network order
    pub dst_port: u16,
    /// Sequence number
    pub seq_num: u32,
    /// Acknowledgement number
    pub ack_num: u32,
    /// Data offset and flags, network order
    pub data_offset_flags: u16,
    /// Window size, network order
    pub window: u16,
    /// Checksum
    pub checksum: u16,
    /// Urgent pointer
    pub urgent_ptr: u16,
}

impl TcpHeader {
    /// A header for the given ports: five data words, no flags, maximum
    /// window.
    pub fn new(src_port: u16, dst_port: u16) -> (r: Self)
        ensures
            r.src_port == swap16(src_port),
            r.dst_port == swap16(dst_port),
            r.seq_num == 0,
            r.ack_num == 0,
            r.data_offset_flags == swap16(5u16 << 12),
            r.window == swap16(65535u16),
            r.checksum == 0,
            r.urgent_ptr == 0,
    {
        TcpHeader {
            src_port: swap_u16(src_port),
            dst_port: swap_u16(dst_port),
            seq_num: 0,
            ack_num: 0,
            data_offset_flags: swap_u16(5u16 << 12),
            window: swap_u16(65535),
            checksum: 0,
            urgent_ptr: 0,
        }
    }

    /// Replace the flag bits, keeping the data offset.
    pub fn set_flags(&mut self, flags: u8)
        ensures
            final(self).data_offset_flags == swap16(
                ((swap16(old(self).data_offset_flags) & 0xF000) | flags as u16) as u16,
            ),
            final(self).src_port == old(self).src_port,
            final(self).dst_port == old(self).dst_port,
            final(self).seq_num == old(self).seq_num,
            final(self).ack_num == old(self).ack_num,
            final(self).window == old(self).window,
            final(self).checksum == old(self).checksum,
            final(self).urgent_ptr == old(self).urgent_ptr,
    {
        let offset = swap_u16(self.data_offset_flags) & 0xF000;
        self.data_offset_flags = swap_u16(offset | flags as u16);
    }

    /// The flag bits.
    pub fn get_flags(&self) -> (r: u8)
        ensures
            r == (swap16(self.data_offset_flags) & 0xFF) as u8,
    {
        (swap_u16(self.data_offset_flags) & 0xFF) as u8
    }
}

/// TCP errors.
#[derive(Clone, Copy, Debug, PartialEq, Eq, Structural)]
pub enum TcpError {
    /// Operation not valid in the current state
    InvalidState,
    /// Connection not established
    NotConnected,
    /// Connection refused by peer
    ConnectionRefused,
    /// Operation timed out
    Timeout,
}

/// One TCP connection: state, ports, sequence numbers and buffers.
#[derive(Debug)]
pub struct TcpConnection {
    /// Connection state
    pub state: TcpState,
    /// Local port
    pub local_port: u16,
    /// Remote port
    pub remote_port: u16,
    /// Next sequence number to send
    pub seq_num: u32,
    /// Next sequence number expected
    pub ack_num: u32,
    /// Bytes queued for sending, oldest first
    pub send_buffer: Vec<u8>,
    /// Bytes received and not yet taken, oldest first
    pub recv_buffer: Vec<u8>,
}

impl TcpConnection {
    /// A closed connection between two ports.
    pub fn new(local_port: u16, remote_port: u16) -> (r: Self)
        ensures
            r.state == TcpState::Closed,
            r.local_port == local_port,
            r.remote_port == remote_port,
            r.seq_num == 0,
            r.ack_num == 0,
            r.send_buffer@ == Seq::<u8>::empty(),
            r.recv_buffer@ == Seq::<u8>::empty(),
    {
        TcpConnection {
            state: TcpState::Closed,
            local_port,
            remote_port,
            seq_num: 0,
            ack_num: 0,
            send_buffer: Vec::new(),
            recv_buffer: Vec::new(),
        }
    }

    /// Open actively: send SYN and move `Closed` to `SynSent`; any other
    /// starting state is refused.
    pub fn connect(&mut self) -> (r: Result<(), TcpError>)
        ensures
            if old(self).state == TcpState::Closed {
                r is Ok && final(self).state == TcpState::SynSent && final(self).seq_num == 1000
                    && final(self).ack_num == old(self).ack_num && final(self).send_buffer@ == old(self).send_buffer@ && final(self).recv_buffer@ == old(self).recv_buffer@ && final(self).local_port == old(self).local_port && final(self).remote_port == old(self).remote_port
            } else {
                r == Err::<(), TcpError>(TcpError::InvalidState) && *final(self) == *old(self)
            },
    {
        match self.state {
            TcpState::Closed => {},
            _ => {
                return Err(TcpError::InvalidState);
            },
        }
        self.seq_num = 1000;
        self.state = TcpState::SynSent;
        Ok(())
    }

    /// Open passively: move `Closed` to `Listen`; any other starting
    /// state is refused.
    pub fn listen(&mut self) -> (r: Result<(), TcpError>)
        ensures
            if old(self).state == TcpState::Closed {
                r is Ok && final(self).state == TcpState::Listen && final(self).seq_num == old(self).seq_num && final(self).send_buffer@ == old(self).send_buffer@ && final(self).recv_buffer@ == old(self).recv_buffer@
            } else {
                r == Err::<(), TcpError>(TcpError::InvalidState) && *final(self) == *old(self)
            },
    {
        match self.state {
            TcpState::Closed => {},
            _ => {
                return Err(TcpError::InvalidState);
            },
        }
        self.state = TcpState::Listen;
        Ok(())
    }

    /// Queue data for sending; refused unless established.
    pub fn send(&mut self, data: &[u8]) -> (r: Result<usize, TcpError>)
        ensures
            if old(self).state == TcpState::Established {
                r == Ok::<usize, TcpError>(data@.len() as usize) && final(self).send_buffer@ == old(self).send_buffer@ + data@ && final(self).recv_buffer@ == old(self).recv_buffer@
                    && final(self).state == old(self).state
            } else {
                r == Err::<usize, TcpError>(TcpError::NotConnected) && *final(self) == *old(self)
            },
    {
        match self.state {
            TcpState::Established => {},
            _ => {
                return Err(TcpError::NotConnected);
            },
        }
        let n = data.len();
        let mut i: usize = 0;
        while i < n
            invariant
                i <= n,
                n == data@.len(),
                self.send_buffer@ == old(self).send_buffer@ + data@.take(i as int),
                self.recv_buffer@ == old(self).recv_buffer@,
                self.state == old(self).state,
                self.local_port == old(self).local_port,
                self.remote_port == old(self).remote_port,
                self.seq_num == old(self).seq_num,
                self.ack_num == old(self).ack_num,
            decreases n - i,
        {
            let b = data[i];
            self.send_buffer.push(b);
            proof {
                assert(self.send_buffer@ =~= old(self).send_buffer@ + data@.take(i + 1));
            }
            i = i + 1;
        }
        proof {
            assert(self.send_buffer@ =~= old(self).send_buffer@ + data@);
        }
        Ok(n)
    }

    /// Take received bytes, oldest first, into the front of `buf`;
    /// refused unless established.
    pub fn recv(&mut self, buf: &mut Vec<u8>) -> (r: Result<usize, TcpError>)
        ensures
            final(buf)@.len() == old(buf)@.len(),
            if old(self).state == TcpState::Established {
                ({
                    let n = if old(buf)@.len() < old(self).recv_buffer@.len() {
                        old(buf)@.len() as int
                    } else {
                        old(self).recv_buffer@.len() as int
                    };
                    &&& r == Ok::<usize, TcpError>(n as usize)
                    &&& final(buf)@ == old(self).recv_buffer@.take(n) + old(buf)@.skip(n)
                    &&& final(self).recv_buffer@ == old(self).recv_buffer@.skip(n)
                    &&& final(self).send_buffer@ == old(self).send_buffer@
                    &&& final(self).state == old(self).state
                })
            } else {
                r == Err::<usize, TcpError>(TcpError::NotConnected) && *final(self) == *old(self)
                    && final(buf)@ == old(buf)@
            },
    {
        match self.state {
            TcpState::Established => {},
            _ => {
                return Err(TcpError::NotConnected);
            },
        }
        let n = if buf.len() < self.recv_buffer.len() {
            buf.len()
        } else {
            self.recv_buffer.len()
        };
        let mut i: usize = 0;
        while i < n
            invariant
                i <= n,
                n <= old(buf)@.len(),
                n <= self.recv_buffer@.len(),
                buf@.len() == old(buf)@.len(),
                *self == *old(self),
                forall|q: int| 0 <= q < i ==> buf@[q] == old(self).recv_buffer@[q],
                forall|q: int| i <= q < old(buf)@.len() ==> buf@[q] == old(buf)@[q],
            decreases n - i,
        {
            let b = self.recv_buffer[i];
            buf[i] = b;
            i = i + 1;
        }
        let rest = self.recv_buffer.split_off(n);
        self.recv_buffer = rest;
        proof {
            assert(buf@ =~= old(self).recv_buffer@.take(n as int) + old(buf)@.skip(n as int));
            assert(self.recv_buffer@ =~= old(self).recv_buffer@.skip(n as int));
        }
        Ok(n)
    }

    /// Close: established connections send FIN and wait; a connection the
    /// peer already closed sends its FIN last; anything else is refused.
    pub fn close(&mut self) -> (r: Result<(), TcpError>)
        ensures
            final(self).send_buffer@ == old(self).send_buffer@,
            final(self).recv_buffer@ == old(self).recv_buffer@,
            match old(self).state {
                TcpState::Established => r is Ok && final(self).state == TcpState::FinWait1,
                TcpState::CloseWait => r is Ok && final(self).state == TcpState::LastAck,
                _ => r == Err::<(), TcpError>(TcpError::InvalidState) && final(self).state == old(self).state,
            },
    {
        match self.state {
            TcpState::Established => {
                self.state = TcpState::FinWait1;
                Ok(())
            },
            TcpState::CloseWait => {
                self.state = TcpState::LastAck;
                Ok(())
            },
            _ => Err(TcpError::InvalidState),
        }
    }
}

/// The TCP stack: every connection, addressed by index.
#[derive(Debug)]
pub struct TcpStack {
    /// All connections, in creation order
    connections: Vec<TcpConnection>,
}

impl TcpStack {
    /// The connections as a sequence.
    pub closed spec fn spec_connections(&self) -> Seq<TcpConnection> {
        self.connections@
    }

    /// An empty stack.
    pub fn new() -> (r: Self)
        ensures
            r.spec_connections().len() == 0,
    {
        TcpStack { connections: Vec::new() }
    }

    /// Add a closed connection between two ports; its index is its
    /// handle.
    pub fn create_connection(&mut self, local_port: u16, remote_port: u16) -> (r: usize)
        ensures
            r == old(self).spec_connections().len(),
            final(self).spec_connections().len() == old(self).spec_connections().len() + 1,
            final(self).spec_connections()[r as int].state == TcpState::Closed,
            final(self).spec_connections()[r as int].local_port == local_port,
            final(self).spec_connections()[r as int].remote_port == remote_port,
            forall|i: int|
                0 <= i < old(self).spec_connections().len() ==> final(self).spec_connections()[i]
                    == old(self).spec_connections()[i],
    {
        let conn = TcpConnection::new(local_port, remote_port);
        let r = self.connections.len();
        self.connections.push(conn);
        r
    }

    /// A mutable handle to a connection.
    pub fn connection_mut(&mut self, index: usize) -> (r: &mut TcpConnection)
        requires
            index < old(self).spec_connections().len(),
        ensures
            *r == old(self).spec_connections()[index as int],
            final(self).spec_connections() == old(self).spec_connections().update(
                index as int,
                *final(r),
            ),
    {
        &mut self.connections[index]
    }
}

} // verus!
