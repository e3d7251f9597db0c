//! The trusted boundary to the native USB stack and to the stop-signal
//! channel. Every item here either declares an outside type or wraps one
//! outside call; nothing else in the crate touches the native stack.

use vstd::prelude::*;

use crate::monitor::StopCheck;

verus! {

// ---------------------------------------------------------------------------
// Declarations of the outside types that run through the scan and the
// monitoring lifecycle. All of them are opaque to the verifier.
// ---------------------------------------------------------------------------

/// rusb's `Context`: a handle on the native USB stack.
#[verifier::external_type_specification]
#[verifier::external_body]
pub struct ExContext(rusb::Context);

/// Holds rusb's `Device`, a reference to one attached USB device. The
/// verifier refuses a declaration of the generic type itself (its parameter
/// is bound by rusb's `UsbContext` trait), so the value is carried opaquely
/// in a struct of the library.
#[verifier::external_body]
pub struct UsbDeviceRef {
    inner: rusb::Device<rusb::Context>,
}

/// rusb's `DeviceDescriptor`: the basic descriptor of a device.
#[verifier::external_type_specification]
#[verifier::external_body]
pub struct ExDeviceDescriptor(rusb::DeviceDescriptor);

/// Holds rusb's `DeviceHandle`, an open handle on a device, opaquely, for
/// the same reason as `UsbDeviceRef`.
#[verifier::external_body]
pub struct UsbHandle {
    inner: rusb::DeviceHandle<rusb::Context>,
}

/// rusb's `Language`: a language supported by a device's string descriptors.
#[verifier::external_type_specification]
#[verifier::external_body]
pub struct ExLanguage(rusb::Language);

/// rusb's `Error`: the error codes of the native USB stack.
#[verifier::external_type_specification]
#[verifier::external_body]
pub struct ExError(rusb::Error);

/// std's mpsc `Sender`: the sending half of the stop-signal channel.
#[verifier::external_type_specification]
#[verifier::external_body]
#[verifier::reject_recursive_types(T)]
pub struct ExSender<T>(std::sync::mpsc::Sender<T>);

/// std's mpsc `Receiver`: the receiving half of the stop-signal channel.
#[verifier::external_type_specification]
#[verifier::external_body]
#[verifier::reject_recursive_types(T)]
pub struct ExReceiver<T>(std::sync::mpsc::Receiver<T>);

// ---------------------------------------------------------------------------
// Wrapped calls. Results that depend on the machine's device set carry no
// contract: the verified callers state what holds whatever came back.
// ---------------------------------------------------------------------------

/// Relies on `rusb::Context::new`: opens a fresh native USB context.
#[verifier::external_body]
pub(crate) fn new_context() -> Result<rusb::Context, rusb::Error> {
    rusb::Context::new()
}

/// Relies on `rusb::UsbContext::devices` and `rusb::DeviceList::iter`:
/// enumerates the devices attached at the time of the call.
#[verifier::external_body]
pub(crate) fn list_devices(ctx: &rusb::Context) -> Result<Vec<UsbDeviceRef>, rusb::Error> {
    match rusb::UsbContext::devices(ctx) {
        Ok(list) => Ok(list.iter().map(|device| UsbDeviceRef { inner: device }).collect()),
        Err(e) => Err(e),
    }
}

/// Relies on `rusb::Device::device_descriptor`: reads the device's basic
/// descriptor.
#[verifier::external_body]
pub(crate) fn device_descriptor(
    device: &UsbDeviceRef,
) -> Result<rusb::DeviceDescriptor, rusb::Error> {
    device.inner.device_descriptor()
}

/// Relies on `rusb::DeviceDescriptor::vendor_id`.
#[verifier::external_body]
pub(crate) fn vendor_id(descriptor: &rusb::DeviceDescriptor) -> u16 {
    descriptor.vendor_id()
}

/// Relies on `rusb::DeviceDescriptor::product_id`.
#[verifier::external_body]
pub(crate) fn product_id(descriptor: &rusb::DeviceDescriptor) -> u16 {
    descriptor.product_id()
}

/// Relies on `rusb::Device::open`: opens a handle on the device.
#[verifier::external_body]
pub(crate) fn open_device(device: &UsbDeviceRef) -> Result<UsbHandle, rusb::Error> {
    match device.inner.open() {
        Ok(handle) => Ok(UsbHandle { inner: handle }),
        Err(e) => Err(e),
    }
}

/// Relies on `rusb::DeviceHandle::read_languages`, with a one-second timeout.
#[verifier::external_body]
pub(crate) fn read_languages(handle: &UsbHandle) -> Result<Vec<rusb::Language>, rusb::Error> {
    handle.inner.read_languages(std::time::Duration::from_secs(1))
}

/// Relies on `rusb::DeviceHandle::read_manufacturer_string`, with a
/// one-second timeout.
#[verifier::external_body]
pub(crate) fn read_manufacturer(
    handle: &UsbHandle,
    language: &rusb::Language,
    descriptor: &rusb::DeviceDescriptor,
) -> Result<String, rusb::Error> {
    handle.inner.read_manufacturer_string(*language, descriptor, std::time::Duration::from_secs(1))
}

/// Relies on `rusb::DeviceHandle::read_product_string`, with a one-second
/// timeout.
#[verifier::external_body]
pub(crate) fn read_product(
    handle: &UsbHandle,
    language: &rusb::Language,
    descriptor: &rusb::DeviceDescriptor,
) -> Result<String, rusb::Error> {
    handle.inner.read_product_string(*language, descriptor, std::time::Duration::from_secs(1))
}

/// Relies on `rusb::DeviceHandle::read_serial_number_string`, with a
/// one-second timeout.
#[verifier::external_body]
pub(crate) fn read_serial(
    handle: &UsbHandle,
    language: &rusb::Language,
    descriptor: &rusb::DeviceDescriptor,
) -> Result<String, rusb::Error> {
    handle.inner.read_serial_number_string(*language, descriptor, std::time::Duration::from_secs(1))
}

/// Relies on `rusb::has_hotplug`: whether the native stack supports hotplug
/// notification on this host.
#[verifier::external_body]
pub(crate) fn has_hotplug() -> bool {
    rusb::has_hotplug()
}

/// Relies on the `Display` rendering of `rusb::Error`: a short fixed phrase
/// for each error code.
#[verifier::external_body]
pub(crate) fn error_message(e: &rusb::Error) -> String {
    format!("{}", e)
}

/// Relies on `rusb::UsbContext::handle_events`, with a 100 ms bounded wait:
/// services pending USB events; reports whether servicing succeeded.
#[verifier::external_body]
pub(crate) fn handle_usb_events(ctx: &rusb::Context) -> bool {
    rusb::UsbContext::handle_events(ctx, Some(std::time::Duration::from_millis(100))).is_ok()
}

/// Relies on `std::sync::mpsc::Sender::send`: reports whether the stop
/// signal could be delivered.
#[verifier::external_body]
pub(crate) fn send_stop(tx: &std::sync::mpsc::Sender<()>) -> bool {
    tx.send(()).is_ok()
}

/// Relies on `std::sync::mpsc::Receiver::try_recv`: a non-blocking check of
/// the stop-signal channel, one arm per outcome.
#[verifier::external_body]
pub(crate) fn check_stop(rx: &std::sync::mpsc::Receiver<()>) -> StopCheck {
    match rx.try_recv() {
        Ok(()) => StopCheck::StopRequested,
        Err(std::sync::mpsc::TryRecvError::Disconnected) => StopCheck::ChannelClosed,
        Err(std::sync::mpsc::TryRecvError::Empty) => StopCheck::NoSignal,
    }
}

} // verus!
