//! Host-side access to the kernel's virtual USB host controller (VHCI):
//! parsing its port status table, choosing a free port for a device, and
//! issuing attach and detach requests.
pub mod controller;
pub mod device_port_status;
pub mod error;
pub mod imported_device;
pub mod text;
pub mod usb_device;
pub mod usb_speed;

pub use device_port_status::DevicePortStatus;
pub use error::VhciError;
pub use imported_device::{ImportedDevice, StatusLine};
pub use usb_device::{DeviceAttributes, UsbDevice};
pub use usb_speed::UsbSpeed;

use vstd::prelude::*;

verus! {

/// A port number on the virtual hub.
pub type Port = u8;

/// A composite device id: bus number in the high half, device number in the low half.
pub type DevId = u32;

pub type BusNum = u32;

pub type DevNum = u32;

} // verus!
