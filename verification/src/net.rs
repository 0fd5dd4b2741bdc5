//! Capability-based networking: sockets gated by capabilities, a DNS
//! resolver, and VPN connection state.
//!
//! Socket creation is the checkpoint: it validates the supplied network
//! capability against the registry before any socket exists. The data
//! path below the socket (interface binding, wire transmission) belongs
//! to the platform layer; here lives the connection state machine that
//! every operation consults.

use vstd::prelude::*;
use crate::capability::{Capability, CapabilityRegistry, Permission, validate_check};

verus! {

/// IP address.
#[derive(Clone, Copy, Debug, PartialEq, Eq)]
pub enum IpAddr {
    /// IPv4 address
    V4([u8; 4]),
    /// IPv6 address
    V6([u8; 16]),
}

impl IpAddr {
    /// An IPv4 address from its four octets.
    pub fn v4(a: u8, b: u8, c: u8, d: u8) -> (r: Self)
        ensures
            r matches IpAddr::V4(o) && o[0] == a && o[1] == b && o[2] == c && o[3] == d,
    {
        IpAddr::V4([a, b, c, d])
    }

    /// An IPv6 address from its sixteen octets.
    pub fn v6(addr: [u8; 16]) -> (r: Self)
        ensures
            r == IpAddr::V6(addr),
    {
        IpAddr::V6(addr)
    }
}

/// Socket address: IP address and port.
#[derive(Clone, Copy, Debug, PartialEq, Eq)]
pub struct SocketAddr {
    /// IP address
    pub ip: IpAddr,
    /// Port number
    pub port: u16,
}

/// Socket type.
#[derive(Clone, Copy, Debug, PartialEq, Eq, Structural)]
pub enum SocketType {
    /// TCP stream socket
    Stream,
    /// UDP datagram socket
    Datagram,
    /// Raw socket
    Raw,
}

/// Transport protocol.
#[derive(Clone, Copy, Debug, PartialEq, Eq, Structural)]
pub enum Protocol {
    /// TCP
    Tcp,
    /// UDP
    Udp,
    /// ICMP
    Icmp,
}

/// Network errors.
#[derive(Clone, Copy, Debug, PartialEq, Eq, Structural)]
pub enum NetError {
    /// Capability refused network access
    PermissionDenied,
    /// Socket already bound
    AlreadyBound,
    /// Socket already connected
    AlreadyConnected,
    /// Socket not connected
    NotConnected,
    /// Operation not valid for this socket type
    InvalidOperation,
    /// No data or connection available yet
    WouldBlock,
    /// Connection refused by peer
    ConnectionRefused,
    /// Connection reset by peer
    ConnectionReset,
    /// Operation timed out
    Timeout,
}

/// A network socket, created only through a validated capability.
#[derive(Debug)]
pub struct Socket {
    /// Socket type
    socket_type: SocketType,
    /// Protocol
    protocol: Protocol,
    /// Local address, once bound
    local_addr: Option<SocketAddr>,
    /// Remote address, once connected
    remote_addr: Option<SocketAddr>,
    /// Capability for network access
    capability: Capability,
    /// Connected flag
    connected: bool,
}

impl Socket {
    /// Spec view of the socket type.
    pub closed spec fn spec_socket_type(&self) -> SocketType {
        self.socket_type
    }

    /// Spec view of the protocol.
    pub closed spec fn spec_protocol(&self) -> Protocol {
        self.protocol
    }

    /// Spec view of the local address.
    pub closed spec fn spec_local_addr(&self) -> Option<SocketAddr> {
        self.local_addr
    }

    /// Spec view of the remote address.
    pub closed spec fn spec_remote_addr(&self) -> Option<SocketAddr> {
        self.remote_addr
    }

    /// Spec view of the connected flag.
    pub closed spec fn spec_connected(&self) -> bool {
        self.connected
    }

    /// Spec view of the gating capability.
    pub closed spec fn spec_capability(&self) -> Capability {
        self.capability
    }

    /// Create a socket after validating the capability for the write
    /// right against the registry; refusal means no socket.
    pub fn new(
        socket_type: SocketType,
        protocol: Protocol,
        capability: Capability,
        registry: &mut CapabilityRegistry,
    ) -> (r: Result<Self, NetError>)
        requires
            old(registry).wf(),
        ensures
            final(registry).wf(),
            final(registry).caps() == old(registry).caps(),
            if validate_check(
                old(registry).caps(),
                old(registry).spec_clock(),
                capability,
                Permission::Write,
            ) is Some {
                r == Err::<Socket, NetError>(NetError::PermissionDenied) && final(registry).audit()
                    == old(registry).audit()
            } else {
                r matches Ok(s) && ({
                    &&& s.spec_socket_type() == socket_type
                    &&& s.spec_protocol() == protocol
                    &&& s.spec_local_addr() is None
                    &&& s.spec_remote_addr() is None
                    &&& s.spec_capability() == capability
                    &&& !s.spec_connected()
                    &&& final(registry).audit().len() == old(registry).audit().len() + 1
                })
            },
    {
        match registry.validate_capability(&capability, Permission::Write) {
            Ok(_) => {},
            Err(_) => {
                return Err(NetError::PermissionDenied);
            },
        }
        Ok(
            Socket {
                socket_type,
                protocol,
                local_addr: None,
                remote_addr: None,
                capability,
                connected: false,
            },
        )
    }

    /// Bind the socket to a local address; a second bind is refused.
    pub fn bind(&mut self, addr: SocketAddr) -> (r: Result<(), NetError>)
        ensures
            if old(self).spec_local_addr() is Some {
                r == Err::<(), NetError>(NetError::AlreadyBound) && *final(self) == *old(self)
            } else {
                r is Ok && final(self).spec_local_addr() == Some(addr) && final(self).spec_connected()
                    == old(self).spec_connected() && final(self).spec_remote_addr() == old(self).spec_remote_addr() && final(self).spec_socket_type() == old(self).spec_socket_type()
            },
    {
        if self.local_addr.is_some() {
            return Err(NetError::AlreadyBound);
        }
        self.local_addr = Some(addr);
        Ok(())
    }

    /// Connect to a remote address; a second connect is refused.
    pub fn connect(&mut self, addr: SocketAddr) -> (r: Result<(), NetError>)
        ensures
            if old(self).spec_connected() {
                r == Err::<(), NetError>(NetError::AlreadyConnected) && *final(self) == *old(self)
            } else {
                r is Ok && final(self).spec_remote_addr() == Some(addr) && final(self).spec_connected() && final(self).spec_local_addr() == old(self).spec_local_addr()
                    && final(self).spec_socket_type() == old(self).spec_socket_type()
            },
    {
        if self.connected {
            return Err(NetError::AlreadyConnected);
        }
        self.remote_addr = Some(addr);
        self.connected = true;
        Ok(())
    }

    /// Start listening; only stream sockets listen.
    pub fn listen(&mut self, backlog: u32) -> (r: Result<(), NetError>)
        ensures
            *final(self) == *old(self),
            r == (if old(self).spec_socket_type() == SocketType::Stream {
                Ok::<(), NetError>(())
            } else {
                Err::<(), NetError>(NetError::InvalidOperation)
            }),
    {
        match self.socket_type {
            SocketType::Stream => Ok(()),
            _ => Err(NetError::InvalidOperation),
        }
    }

    /// Accept a connection; only stream sockets accept, and none is
    /// pending in this core, so a valid accept would block.
    pub fn accept(&self) -> (r: Result<Socket, NetError>)
        ensures
            r == (if self.spec_socket_type() == SocketType::Stream {
                Err::<Socket, NetError>(NetError::WouldBlock)
            } else {
                Err::<Socket, NetError>(NetError::InvalidOperation)
            }),
    {
        match self.socket_type {
            SocketType::Stream => Err(NetError::WouldBlock),
            _ => Err(NetError::InvalidOperation),
        }
    }

    /// Hand data to the transmit path; refused while not connected.
    pub fn send(&self, data: &[u8]) -> (r: Result<usize, NetError>)
        ensures
            r == (if self.spec_connected() {
                Ok::<usize, NetError>(data@.len() as usize)
            } else {
                Err::<usize, NetError>(NetError::NotConnected)
            }),
    {
        if !self.connected {
            return Err(NetError::NotConnected);
        }
        Ok(data.len())
    }

    /// Take received data; refused while not connected, and nothing is
    /// pending in this core.
    pub fn recv(&self, buffer: &mut Vec<u8>) -> (r: Result<usize, NetError>)
        ensures
            final(buffer)@ == old(buffer)@,
            r == (if self.spec_connected() {
                Ok::<usize, NetError>(0)
            } else {
                Err::<usize, NetError>(NetError::NotConnected)
            }),
    {
        if !self.connected {
            return Err(NetError::NotConnected);
        }
        Ok(0)
    }

    /// Send a datagram to an address; only datagram sockets may.
    pub fn send_to(&self, data: &[u8], addr: SocketAddr) -> (r: Result<usize, NetError>)
        ensures
            r == (if self.spec_socket_type() == SocketType::Datagram {
                Ok::<usize, NetError>(data@.len() as usize)
            } else {
                Err::<usize, NetError>(NetError::InvalidOperation)
            }),
    {
        match self.socket_type {
            SocketType::Datagram => Ok(data.len()),
            _ => Err(NetError::InvalidOperation),
        }
    }

    /// Receive a datagram; only datagram sockets may, and none is pending
    /// in this core.
    pub fn recv_from(&self, buffer: &mut Vec<u8>) -> (r: Result<(usize, SocketAddr), NetError>)
        ensures
            final(buffer)@ == old(buffer)@,
            r == (if self.spec_socket_type() == SocketType::Datagram {
                Err::<(usize, SocketAddr), NetError>(NetError::WouldBlock)
            } else {
                Err::<(usize, SocketAddr), NetError>(NetError::InvalidOperation)
            }),
    {
        match self.socket_type {
            SocketType::Datagram => Err(NetError::WouldBlock),
            _ => Err(NetError::InvalidOperation),
        }
    }

    /// Close the socket, consuming it.
    pub fn close(self) -> (r: Result<(), NetError>)
        ensures
            r is Ok,
    {
        Ok(())
    }
}

/// DNS resolver preferring DNS-over-HTTPS.
#[derive(Debug)]
pub struct DnsResolver {
    /// DNS servers, in preference order
    servers: Vec<IpAddr>,
    /// Use DNS-over-HTTPS
    use_doh: bool,
}

impl DnsResolver {
    /// Spec view of the configured servers.
    pub closed spec fn spec_servers(&self) -> Seq<IpAddr> {
        self.servers@
    }

    /// Spec view of the DNS-over-HTTPS flag.
    pub closed spec fn spec_use_doh(&self) -> bool {
        self.use_doh
    }

    /// A resolver with the default public servers, DNS-over-HTTPS on.
    pub fn new() -> (r: Self)
        ensures
            r.spec_servers().len() == 2,
            r.spec_use_doh(),
    {
        let mut servers: Vec<IpAddr> = Vec::new();
        servers.push(IpAddr::v4(1, 1, 1, 1));
        servers.push(IpAddr::v4(8, 8, 8, 8));
        DnsResolver { servers, use_doh: true }
    }

    /// Resolve a hostname. The lookup itself is the platform layer's
    /// business; this core answers with the placeholder address.
    pub fn resolve(&self, hostname: &str) -> (r: Result<Vec<IpAddr>, NetError>)
        ensures
            r matches Ok(v) && v@.len() == 1 && (v@[0] matches IpAddr::V4(o) && o[0] == 93 && o[1]
                == 184 && o[2] == 216 && o[3] == 34),
    {
        let mut v: Vec<IpAddr> = Vec::new();
        v.push(IpAddr::v4(93, 184, 216, 34));
        Ok(v)
    }
}

/// Credentials for a VPN connection.
#[derive(Debug)]
pub struct VpnCredentials {
    /// Account name
    pub username: String,
    /// Account secret
    pub password: String,
}

/// VPN connection state.
#[derive(Debug)]
pub struct VpnConnection {
    /// VPN server address
    server: SocketAddr,
    /// Connected flag
    connected: bool,
    /// Tunnel interface id, once connected
    tunnel_if: Option<u32>,
}

impl VpnConnection {
    /// Spec view of the server address.
    pub closed spec fn spec_server(&self) -> SocketAddr {
        self.server
    }

    /// Spec view of the connected flag.
    pub closed spec fn spec_connected(&self) -> bool {
        self.connected
    }

    /// Spec view of the tunnel interface id.
    pub closed spec fn spec_tunnel_if(&self) -> Option<u32> {
        self.tunnel_if
    }

    /// A disconnected VPN aimed at a server.
    pub fn new(server: SocketAddr) -> (r: Self)
        ensures
            r.spec_server() == server,
            !r.spec_connected(),
            r.spec_tunnel_if() is None,
    {
        VpnConnection { server, connected: false, tunnel_if: None }
    }

    /// Establish the tunnel; authentication against the server is the
    /// platform layer's business.
    pub fn connect(&mut self, credentials: &VpnCredentials) -> (r: Result<(), NetError>)
        ensures
            r is Ok,
            final(self).spec_connected(),
            final(self).spec_tunnel_if() == Some(1u32),
            final(self).spec_server() == old(self).spec_server(),
    {
        self.connected = true;
        self.tunnel_if = Some(1);
        Ok(())
    }

    /// Tear the tunnel down.
    pub fn disconnect(&mut self) -> (r: Result<(), NetError>)
        ensures
            r is Ok,
            !final(self).spec_connected(),
            final(self).spec_tunnel_if() is None,
            final(self).spec_server() == old(self).spec_server(),
    {
        self.connected = false;
        self.tunnel_if = None;
        Ok(())
    }
}

} // verus!
