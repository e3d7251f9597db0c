//! The error taxonomy of the subsystem. All fatal conditions are return
//! values; the command boundary renders them as human-readable messages.

use vstd::prelude::*;
use vstd::string::*;

verus! {

/// A fatal condition of a detection pass or of the monitoring lifecycle.
/// Degraded per-device reads are never errors: they only leave optional
/// record fields absent.
#[derive(Debug, Clone)]
pub enum UsbError {
    /// Enumerating the device set or reading a basic descriptor failed; the
    /// payload is the native stack's description of the cause.
    Scan(String),
    /// The host USB stack lacks hotplug support.
    HotplugUnsupported,
    /// Creating the USB context or registering the hotplug callback failed;
    /// the payload is the native stack's description of the cause.
    Registration(String),
    /// The stop signal could not be delivered, implying the polling thread
    /// already exited; state is still cleared.
    ShutdownSignal,
}

/// The message each error renders to at the command boundary.
pub open spec fn message_spec(e: UsbError) -> Seq<char> {
    match e {
        UsbError::Scan(cause) => "device detection error: "@ + cause@,
        UsbError::HotplugUnsupported => "USB hotplug is not supported on this system"@,
        UsbError::Registration(cause) => "USB hotplug registration error: "@ + cause@,
        UsbError::ShutdownSignal => "failed to send the stop request to the USB monitor"@,
    }
}

impl UsbError {
    /// Renders the error as its human-readable message.
    pub fn message(&self) -> (m: String)
        ensures
            m@ == message_spec(*self),
    {
        match self {
            UsbError::Scan(cause) => {
                let mut s = String::from_str("device detection error: ");
                s.append(cause.as_str());
                s
            },
            UsbError::HotplugUnsupported => String::from_str(
                "USB hotplug is not supported on this system",
            ),
            UsbError::Registration(cause) => {
                let mut s = String::from_str("USB hotplug registration error: ");
                s.append(cause.as_str());
                s
            },
            UsbError::ShutdownSignal => String::from_str(
                "failed to send the stop request to the USB monitor",
            ),
        }
    }
}

} // verus!
