//! Tests of the monitoring session lifecycle: idempotent start, no-op stop,
//! the unsupported-host path, and the polling-loop decision.

use zmk_usb_monitor::errors::UsbError;
use zmk_usb_monitor::monitor::{poll_decision, MonitorSession, StartPlan, StopCheck};

#[test]
fn new_session_is_idle() {
    let session = MonitorSession::new();
    assert!(!session.is_active());
}

#[test]
fn stop_without_session_is_noop_success() {
    let mut session = MonitorSession::new();
    assert!(session.stop_usb_monitoring().is_ok());
    assert!(!session.is_active());
    // And again: still a success, still idle.
    assert!(session.stop_usb_monitoring().is_ok());
    assert!(!session.is_active());
}

#[test]
fn start_without_hotplug_support_fails_cleanly() {
    // A host without hotplug support refuses the start before any session
    // state is created, and a later stop stays a safe no-op.
    let mut session = MonitorSession::new();
    let plan = session.prepare_start(false);
    assert!(matches!(plan, Err(UsbError::HotplugUnsupported)));
    assert!(!session.is_active());
    assert!(session.stop_usb_monitoring().is_ok());
    assert!(!session.is_active());
}

#[test]
fn start_twice_registers_once() {
    // Two starts in a row without an intervening stop: the first is told to
    // register, the second is a no-op success, and both leave exactly one
    // session.
    let mut session = MonitorSession::new();
    let first = session.prepare_start(true);
    assert!(matches!(first, Ok(StartPlan::Register)));
    let (tx, _rx) = std::sync::mpsc::channel::<()>();
    session.activate(tx);
    assert!(session.is_active());
    let second = session.prepare_start(true);
    assert!(matches!(second, Ok(StartPlan::AlreadyRunning)));
    assert!(session.is_active());
    assert!(session.stop_usb_monitoring().is_ok());
    assert!(!session.is_active());
}

#[test]
fn stop_surfaces_failed_signal_but_clears_state() {
    let mut session = MonitorSession::new();
    let (tx, rx) = std::sync::mpsc::channel::<()>();
    session.activate(tx);
    drop(rx);
    let stopped = session.stop_usb_monitoring();
    assert!(matches!(stopped, Err(UsbError::ShutdownSignal)));
    assert!(!session.is_active());
}

#[test]
fn stop_delivers_signal_to_live_receiver() {
    let mut session = MonitorSession::new();
    let (tx, rx) = std::sync::mpsc::channel::<()>();
    session.activate(tx);
    assert!(session.stop_usb_monitoring().is_ok());
    assert!(rx.try_recv().is_ok());
}

#[test]
fn polling_decision() {
    assert!(!poll_decision(true, StopCheck::NoSignal));
    assert!(poll_decision(true, StopCheck::StopRequested));
    assert!(poll_decision(true, StopCheck::ChannelClosed));
    assert!(poll_decision(false, StopCheck::NoSignal));
}
