//! Discovery and hotplug monitoring of known keyboard-firmware USB devices.
//!
//! The library identifies devices in bootloader mode by their vendor/product
//! identifiers, builds descriptive records from their string descriptors, and
//! drives the lifecycle of a single hotplug-monitoring session.

pub mod device;
pub mod errors;
pub mod ids;
pub mod monitor;
pub mod scan;
pub mod text;
pub mod usb;

pub use device::UsbDevice;
pub use errors::UsbError;
pub use monitor::{MonitorSession, StartPlan, StopCheck};
pub use scan::{detect_zmk_devices, get_zmk_devices, hotplug_rescan};
