//! Device driver framework: device descriptors, the driver interface,
//! and the device registry.

pub mod framebuffer;
pub mod input;
pub mod keyboard;
pub mod mouse;
pub mod display;
pub mod storage;
pub mod network;

use vstd::prelude::*;
use crate::capability::Capability;

verus! {

/// Device classes.
#[derive(Clone, Copy, Debug, PartialEq, Eq, Structural)]
pub enum DeviceType {
    /// Display device
    Display,
    /// Input device (touch, keyboard, mouse)
    Input,
    /// Storage device
    Storage,
    /// Network device
    Network,
    /// Audio device
    Audio,
    /// Camera device
    Camera,
    /// Sensor device
    Sensor,
}

/// Driver errors.
#[derive(Clone, Copy, Debug, PartialEq, Eq, Structural)]
pub enum DriverError {
    /// Device not found
    DeviceNotFound,
    /// Driver not found
    DriverNotFound,
    /// Capability refused the operation
    PermissionDenied,
    /// Device busy
    DeviceBusy,
    /// I/O error
    IoError,
    /// Invalid argument
    InvalidArgument,
}

/// A device descriptor.
#[derive(Debug)]
pub struct Device {
    /// Device id
    pub id: u32,
    /// Device class
    pub device_type: DeviceType,
    /// Device name
    pub name: String,
    /// Driver name
    pub driver: String,
    /// Capability gating access to this device
    pub capability: Capability,
}

impl Clone for Device {
    /// An exact copy of the descriptor.
    fn clone(&self) -> (r: Self)
        ensures
            r == *self,
    {
        Device {
            id: self.id,
            device_type: self.device_type,
            name: self.name.clone(),
            driver: self.driver.clone(),
            capability: self.capability.clone(),
        }
    }
}

/// The interface every driver offers the framework.
pub trait Driver {
    /// Initialize the driver.
    fn init(&mut self) -> Result<(), DriverError>;

    /// Whether this driver can serve the device.
    fn probe(&self, device: &Device) -> bool;

    /// Start serving the device.
    fn start(&mut self, device: &Device) -> Result<(), DriverError>;

    /// Stop serving the device.
    fn stop(&mut self, device: &Device) -> Result<(), DriverError>;

    /// Read from the device.
    fn read(&self, device: &Device, buffer: &mut Vec<u8>) -> Result<usize, DriverError>;

    /// Write to the device.
    fn write(&mut self, device: &Device, data: &[u8]) -> Result<usize, DriverError>;

    /// Device-specific control operation.
    fn ioctl(&mut self, device: &Device, cmd: u32, arg: usize) -> Result<usize, DriverError>;
}

/// The device registry: every device the framework knows.
#[derive(Debug)]
pub struct DeviceManager {
    /// Registered devices, in registration order
    devices: Vec<Device>,
}

impl DeviceManager {
    /// The registered devices as a sequence.
    pub closed spec fn spec_devices(&self) -> Seq<Device> {
        self.devices@
    }

    /// An empty registry.
    pub fn new() -> (r: Self)
        ensures
            r.spec_devices().len() == 0,
    {
        DeviceManager { devices: Vec::new() }
    }

    /// Whether the framework is ready; an existing registry always is.
    pub fn is_initialized(&self) -> (r: bool)
        ensures
            r,
    {
        true
    }

    /// Add a device to the registry.
    pub fn register_device(&mut self, device: Device) -> (r: Result<(), DriverError>)
        ensures
            r is Ok,
            final(self).spec_devices() == old(self).spec_devices().push(device),
    {
        self.devices.push(device);
        Ok(())
    }

    /// Remove every device with the given id from the registry, keeping
    /// the others in order.
    pub fn unregister_device(&mut self, device_id: u32) -> (r: Result<(), DriverError>)
        ensures
            r is Ok,
            final(self).spec_devices() == old(self).spec_devices().filter(
                |d: Device| d.id != device_id,
            ),
    {
        let ghost pre = self.devices@;
        let ghost pred = |d: Device| d.id != device_id;
        let mut kept: Vec<Device> = Vec::new();
        let n = self.devices.len();
        let mut i: usize = 0;
        while i < n
            invariant
                i <= n,
                n == pre.len(),
                self.devices@ == pre,
                kept@ == pre.take(i as int).filter(pred),
                pred == (|d: Device| d.id != device_id),
            decreases n - i,
        {
            proof {
                reveal(Seq::filter);
                assert(pre.take(i + 1).drop_last() =~= pre.take(i as int));
                assert(pre.take(i + 1).last() == pre[i as int]);
            }
            if self.devices[i].id != device_id {
                let d = self.devices[i].clone();
                kept.push(d);
            }
            i = i + 1;
        }
        proof {
            assert(pre.take(n as int) =~= pre);
        }
        self.devices = kept;
        Ok(())
    }
}

} // verus!
