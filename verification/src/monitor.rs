//! The monitor controller: the lifecycle of the single hotplug-monitoring
//! session. The session owns the sender of the stop-signal channel, paired
//! with the caller's hotplug registration; start is idempotent, stop is a
//! safe no-op when nothing is active, and shutdown is cooperative through
//! the stop signal polled by the event loop.

use vstd::prelude::*;

use crate::errors::UsbError;
use crate::usb;

verus! {

/// What a non-blocking check of the stop-signal channel found.
#[derive(Clone, Copy, Debug, PartialEq, Eq, Structural)]
pub enum StopCheck {
    /// A stop request was delivered.
    StopRequested,
    /// The sending half is gone; the session it belonged to is over.
    ChannelClosed,
    /// No signal is pending.
    NoSignal,
}

/// What a start attempt asks its caller to do.
#[derive(Clone, Copy, Debug, PartialEq, Eq, Structural)]
pub enum StartPlan {
    /// A session is already active: do nothing, the start is a no-op success.
    AlreadyRunning,
    /// No session is active: register the hotplug callback and spawn the
    /// polling thread, then hand the handles to `activate`.
    Register,
}

/// The outcome a start attempt owes for each session state and hotplug
/// capability: an unsupported host fails before anything else is looked at;
/// an active session makes the start a no-op; otherwise a registration is
/// called for.
pub open spec fn start_plan_spec(active: bool, hotplug_supported: bool) -> Result<
    StartPlan,
    UsbError,
> {
    if !hotplug_supported {
        Err(UsbError::HotplugUnsupported)
    } else if active {
        Ok(StartPlan::AlreadyRunning)
    } else {
        Ok(StartPlan::Register)
    }
}

/// The single-instance monitoring session: at most one stop-signal sender
/// exists at a time, held here, paired with the caller's hotplug
/// registration for the same session.
pub struct MonitorSession {
    state: Option<std::sync::mpsc::Sender<()>>,
}

impl MonitorSession {
    /// Whether a monitoring session is active.
    pub closed spec fn active(&self) -> bool {
        self.state is Some
    }

    /// A fresh controller with no active session.
    pub fn new() -> (s: Self)
        ensures
            !s.active(),
    {
        MonitorSession { state: None }
    }

    /// Reports whether a session is active.
    pub fn is_active(&self) -> (b: bool)
        ensures
            b == self.active(),
    {
        self.state.is_some()
    }

    /// Decides a start attempt for a given hotplug capability, without
    /// touching the session: the caller registers only when told to.
    pub fn prepare_start(&self, hotplug_supported: bool) -> (r: Result<StartPlan, UsbError>)
        ensures
            r == start_plan_spec(self.active(), hotplug_supported),
    {
        if !hotplug_supported {
            Err(UsbError::HotplugUnsupported)
        } else if self.is_active() {
            Ok(StartPlan::AlreadyRunning)
        } else {
            Ok(StartPlan::Register)
        }
    }

    /// Decides a start attempt against the host's actual hotplug capability.
    /// Whatever the native stack reported, an error is only ever the missing
    /// capability, and a successful plan is a no-op exactly when a session
    /// is already active.
    pub fn start_plan(&self) -> (r: Result<StartPlan, UsbError>)
        ensures
            r matches Ok(p) ==> ((p == StartPlan::AlreadyRunning) <==> self.active()),
            r matches Err(e) ==> e is HotplugUnsupported,
    {
        let supported = usb::has_hotplug();
        self.prepare_start(supported)
    }

    /// Stores the stop-signal sender of a freshly registered session. Only
    /// a start that was told to register may call this, so two concurrent
    /// sessions can never be stored.
    pub fn activate(&mut self, tx_stop: std::sync::mpsc::Sender<()>)
        requires
            !old(self).active(),
        ensures
            final(self).active(),
    {
        self.state = Some(tx_stop);
    }

    /// Ends the active session, if any: clears the session state and
    /// delivers the stop signal; the caller then drops its hotplug
    /// registration for the session. With no active session this is a no-op
    /// success that performs no native call. A failed signal delivery is
    /// surfaced, but the state is cleared regardless.
    pub fn stop_usb_monitoring(&mut self) -> (r: Result<(), UsbError>)
        ensures
            !final(self).active(),
            !old(self).active() ==> r is Ok && *final(self) == *old(self),
            r matches Err(e) ==> old(self).active() && e is ShutdownSignal,
    {
        match self.state.take() {
            None => Ok(()),
            Some(tx_stop) => {
                if !usb::send_stop(&tx_stop) {
                    return Err(UsbError::ShutdownSignal);
                }
                Ok(())
            },
        }
    }
}

/// The polling loop's decision for one iteration: keep going only when event
/// servicing succeeded and no stop signal is pending — a stop request and a
/// closed channel both end the loop.
pub fn poll_decision(events_ok: bool, signal: StopCheck) -> (stop: bool)
    ensures
        stop == (!events_ok || signal != StopCheck::NoSignal),
{
    if !events_ok {
        true
    } else {
        match signal {
            StopCheck::StopRequested => true,
            StopCheck::ChannelClosed => true,
            StopCheck::NoSignal => false,
        }
    }
}

/// One iteration of the polling loop: services pending USB events with a
/// bounded wait, then checks the stop-signal channel without blocking, so a
/// stop is observed within about one wait interval. Reports whether the
/// loop should end; the decision is `poll_decision` over what the native
/// calls observed.
pub fn poll_usb_events_once(
    ctx: &rusb::Context,
    rx: &std::sync::mpsc::Receiver<()>,
) -> (stop: bool) {
    let events_ok = usb::handle_usb_events(ctx);
    let signal = usb::check_stop(rx);
    poll_decision(events_ok, signal)
}

/// Law: monitoring is single-instance and start is idempotent. On a host
/// with hotplug support, a start from the idle state is told to register,
/// and a start while a session is active is a no-op success — so two starts
/// in succession without an intervening stop yield exactly one registration
/// and exactly one polling thread. Without hotplug support a start fails
/// the same way from either state, before any session state is created.
pub proof fn lemma_start_idempotent()
    ensures
        start_plan_spec(false, true) == Ok::<StartPlan, UsbError>(StartPlan::Register),
        start_plan_spec(true, true) == Ok::<StartPlan, UsbError>(StartPlan::AlreadyRunning),
        start_plan_spec(false, false) == Err::<StartPlan, UsbError>(UsbError::HotplugUnsupported),
        start_plan_spec(true, false) == Err::<StartPlan, UsbError>(UsbError::HotplugUnsupported),
{
}

} // verus!
