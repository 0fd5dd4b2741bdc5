//! Wi-Fi network driver: association state and capability-gated packets.

use vstd::prelude::*;
use crate::capability::{Capability, CapabilityRegistry, Permission, validate_check};
use crate::drivers::DriverError;

verus! {

/// Network interface generations.
#[derive(Clone, Copy, Debug, PartialEq, Eq, Structural)]
pub enum NetworkType {
    /// Wi-Fi 6E
    WiFi6E,
    /// Wi-Fi 7
    WiFi7,
    /// 5G cellular
    Cellular5G,
}

/// Wireless security modes.
#[derive(Clone, Copy, Debug, PartialEq, Eq, Structural)]
pub enum SecurityType {
    /// Open network
    Open,
    /// WPA2
    WPA2,
    /// WPA3
    WPA3,
}

/// One frame handed to or received from the radio.
#[derive(Debug)]
pub struct NetworkPacket {
    /// Source MAC address
    pub src: [u8; 6],
    /// Destination MAC address
    pub dst: [u8; 6],
    /// Frame payload
    pub data: Vec<u8>,
    /// Capability authorizing network access
    pub capability: Capability,
}

/// One network found by a scan.
#[derive(Debug)]
pub struct ScanResult {
    /// Network name
    pub ssid: Vec<u8>,
    /// Access point MAC address
    pub bssid: [u8; 6],
    /// Signal strength in dBm
    pub rssi: i8,
    /// Channel
    pub channel: u8,
    /// Security mode
    pub security: SecurityType,
}

/// The link speed a connected interface of a generation reports, in
/// megabits per second.
pub open spec fn link_speed_of(version: NetworkType) -> u32 {
    match version {
        NetworkType::WiFi6E => 9600,
        NetworkType::WiFi7 => 46000,
        NetworkType::Cellular5G => 0,
    }
}

/// The Wi-Fi driver.
#[derive(Debug)]
pub struct WiFiDriver {
    /// Interface generation
    version: NetworkType,
    /// MAC address
    mac_address: [u8; 6],
    /// Network associated with, if any
    ssid: Option<Vec<u8>>,
    /// Link speed in Mbps; 0 while disconnected
    link_speed: u32,
}

impl WiFiDriver {
    /// Spec view of the generation.
    pub closed spec fn spec_version(&self) -> NetworkType {
        self.version
    }

    /// Spec view of the MAC address.
    pub closed spec fn spec_mac(&self) -> [u8; 6] {
        self.mac_address
    }

    /// Spec view of the associated network name.
    pub closed spec fn spec_ssid(&self) -> Option<Vec<u8>> {
        self.ssid
    }

    /// Spec view of the link speed.
    pub closed spec fn spec_link_speed(&self) -> u32 {
        self.link_speed
    }

    /// A powered-down driver: zero MAC, not associated.
    pub fn new(version: NetworkType) -> (r: Self)
        ensures
            r.spec_version() == version,
            r.spec_ssid() is None,
            r.spec_link_speed() == 0,
    {
        WiFiDriver { version, mac_address: [0, 0, 0, 0, 0, 0], ssid: None, link_speed: 0 }
    }

    /// Bring the chipset up: it reports the locally administered MAC.
    /// Firmware loading and radio programming belong to the platform
    /// layer.
    pub fn configure(&mut self) -> (r: Result<(), DriverError>)
        ensures
            r is Ok,
            final(self).spec_mac() == [2u8, 0u8, 0u8, 0u8, 0u8, 1u8],
            final(self).spec_version() == old(self).spec_version(),
            final(self).spec_ssid() == old(self).spec_ssid(),
            final(self).spec_link_speed() == old(self).spec_link_speed(),
    {
        self.mac_address = [0x02, 0x00, 0x00, 0x00, 0x00, 0x01];
        Ok(())
    }

    /// Scan for networks. Radio time belongs to the platform layer; no
    /// network answers through this core.
    pub fn scan(&self) -> (r: Result<Vec<ScanResult>, DriverError>)
        ensures
            r matches Ok(v) && v@.len() == 0,
    {
        Ok(Vec::new())
    }

    /// Associate with a network: record its name and report the
    /// generation's link speed.
    pub fn connect(&mut self, ssid: &[u8], password: &[u8]) -> (r: Result<(), DriverError>)
        ensures
            r is Ok,
            final(self).spec_ssid() matches Some(s) && s@ == ssid@,
            final(self).spec_link_speed() == link_speed_of(old(self).spec_version()),
            final(self).spec_version() == old(self).spec_version(),
            final(self).spec_mac() == old(self).spec_mac(),
    {
        let mut stored: Vec<u8> = Vec::new();
        let n = ssid.len();
        let mut i: usize = 0;
        while i < n
            invariant
                i <= n,
                n == ssid@.len(),
                stored@ == ssid@.take(i as int),
            decreases n - i,
        {
            let b = ssid[i];
            stored.push(b);
            proof {
                assert(stored@ =~= ssid@.take(i + 1));
            }
            i = i + 1;
        }
        proof {
            assert(stored@ =~= ssid@);
        }
        self.ssid = Some(stored);
        self.link_speed = match self.version {
            NetworkType::WiFi6E => 9600,
            NetworkType::WiFi7 => 46000,
            NetworkType::Cellular5G => 0,
        };
        Ok(())
    }

    /// Drop the association.
    pub fn disconnect(&mut self) -> (r: Result<(), DriverError>)
        ensures
            r is Ok,
            final(self).spec_ssid() is None,
            final(self).spec_link_speed() == 0,
            final(self).spec_version() == old(self).spec_version(),
            final(self).spec_mac() == old(self).spec_mac(),
    {
        self.ssid = None;
        self.link_speed = 0;
        Ok(())
    }

    /// Hand a frame to the radio after validating its capability for the
    /// write right; transmission belongs to the platform layer.
    pub fn send_packet(
        &self,
        registry: &mut CapabilityRegistry,
        packet: &NetworkPacket,
    ) -> (r: Result<(), DriverError>)
        requires
            old(registry).wf(),
        ensures
            final(registry).wf(),
            final(registry).caps() == old(registry).caps(),
            if validate_check(
                old(registry).caps(),
                old(registry).spec_clock(),
                packet.capability,
                Permission::Write,
            ) is Some {
                r == Err::<(), DriverError>(DriverError::PermissionDenied) && final(registry).audit() == old(registry).audit()
            } else {
                r is Ok && final(registry).audit().len() == old(registry).audit().len() + 1
            },
    {
        match registry.validate_capability(&packet.capability, Permission::Write) {
            Ok(_) => Ok(()),
            Err(_) => Err(DriverError::PermissionDenied),
        }
    }

    /// Take a received frame; none arrives through this core.
    pub fn receive_packet(&self) -> (r: Result<Option<NetworkPacket>, DriverError>)
        ensures
            r matches Ok(p) && p is None,
    {
        Ok(None)
    }
}

} // verus!
