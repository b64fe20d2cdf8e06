//! What can go wrong while a terminal is bridged, and how far each fault
//! reaches. No fault reaches beyond the session in which it occurs.

use crate::launcher::{Startup, StartupView};
use crate::session::{Event, EventView};
use crate::terminal::{Relay, RelayFault, RelayView};
use vstd::prelude::*;

verus! {

/// A fault of one of the operations that a session depends on.
#[derive(Clone, Copy, Debug, PartialEq, Eq)]
pub enum Fault {
    /// The pty or its child could not be created.
    PtyCreation,
    /// The transport delivered a malformed frame or saw a protocol violation.
    TransportReceive,
    /// The network sink refused a frame.
    TransportSend,
    /// Input could not be written to the pty.
    PtyWrite { pty_gone: bool },
    /// The pty master could not be read.
    PtyRead,
    /// The child could not be signalled.
    ChildSignal,
    /// The network sink could not be closed.
    SinkClose,
}

/// How far a fault reaches.
#[derive(Clone, Copy, Debug, PartialEq, Eq)]
pub enum Severity {
    /// The fault is reported and the session goes on as it would have.
    NonFatal,
    /// The session is torn down.
    FatalForSession,
    /// The connection attempt is given up before any relay starts.
    FatalForConnection,
}

/// The severity of each fault. A failed write is fatal only if the pty is
/// gone; faults of the teardown itself never stop the teardown.
pub open spec fn severity_of(fault: Fault) -> Severity {
    match fault {
        Fault::PtyCreation => Severity::FatalForConnection,
        Fault::TransportReceive => Severity::NonFatal,
        Fault::TransportSend => Severity::FatalForSession,
        Fault::PtyWrite { pty_gone } => if pty_gone {
            Severity::FatalForSession
        } else {
            Severity::NonFatal
        },
        Fault::PtyRead => Severity::FatalForSession,
        Fault::ChildSignal => Severity::NonFatal,
        Fault::SinkClose => Severity::NonFatal,
    }
}

/// The severity of a fault.
pub fn severity(fault: Fault) -> (severity: Severity)
    ensures
        severity == severity_of(fault),
{
    match fault {
        Fault::PtyCreation => Severity::FatalForConnection,
        Fault::TransportReceive => Severity::NonFatal,
        Fault::TransportSend => Severity::FatalForSession,
        Fault::PtyWrite { pty_gone } => if pty_gone {
            Severity::FatalForSession
        } else {
            Severity::NonFatal
        },
        Fault::PtyRead => Severity::FatalForSession,
        Fault::ChildSignal => Severity::NonFatal,
        Fault::SinkClose => Severity::NonFatal,
    }
}

/// The fault that an event reports, if it reports one.
pub open spec fn fault_in(event: EventView) -> Option<Fault> {
    match event {
        EventView::ReceiveFailed => Some(Fault::TransportReceive),
        EventView::PtyWritten(Err(error)) => Some(Fault::PtyWrite { pty_gone: error.pty_gone }),
        EventView::ChildSignalled { delivered } => if delivered {
            None
        } else {
            Some(Fault::ChildSignal)
        },
        EventView::SinkClosed { clean } => if clean {
            None
        } else {
            Some(Fault::SinkClose)
        },
        _ => None,
    }
}

/// The event that would have been reported had nothing gone wrong: no
/// message in place of a receive error, and success in place of a failure.
pub open spec fn without_fault(event: EventView) -> EventView {
    match event {
        EventView::ReceiveFailed => EventView::Quiet,
        EventView::PtyWritten(Err(_)) => EventView::PtyWritten(Ok(true)),
        EventView::ChildSignalled { .. } => EventView::ChildSignalled { delivered: true },
        EventView::SinkClosed { .. } => EventView::SinkClosed { clean: true },
        _ => event,
    }
}

/// The fault on which a relay stopped, if it has stopped.
pub open spec fn fault_of(relay: RelayView) -> Option<Fault> {
    match relay {
        RelayView::Stopped(RelayFault::PtyRead) => Some(Fault::PtyRead),
        RelayView::Stopped(RelayFault::TransportSend) => Some(Fault::TransportSend),
        _ => None,
    }
}

/// The fault that kept a session from starting, if one did.
pub open spec fn fault_at(startup: StartupView) -> Option<Fault> {
    match startup {
        StartupView::Refused { .. } => Some(Fault::PtyCreation),
        _ => None,
    }
}

impl Startup {
    /// The fault that kept the session from starting, if one did.
    pub fn fault(&self) -> (fault: Option<Fault>)
        ensures
            fault == fault_at(self@),
    {
        match self {
            Startup::Refused { .. } => Some(Fault::PtyCreation),
            _ => None,
        }
    }
}

impl Event {
    /// The fault that this event reports, if it reports one.
    pub fn fault(&self) -> (fault: Option<Fault>)
        ensures
            fault == fault_in(self@),
    {
        match self {
            Event::ReceiveFailed => Some(Fault::TransportReceive),
            Event::PtyWritten(Err(error)) => Some(Fault::PtyWrite { pty_gone: error.pty_gone }),
            Event::ChildSignalled { delivered } => if *delivered {
                None
            } else {
                Some(Fault::ChildSignal)
            },
            Event::SinkClosed { clean } => if *clean {
                None
            } else {
                Some(Fault::SinkClose)
            },
            _ => None,
        }
    }
}

impl Relay {
    /// The fault on which this relay stopped, if it has stopped.
    pub fn fault(&self) -> (fault: Option<Fault>)
        ensures
            fault == fault_of(self@),
    {
        match self {
            Relay::Stopped(RelayFault::PtyRead) => Some(Fault::PtyRead),
            Relay::Stopped(RelayFault::TransportSend) => Some(Fault::TransportSend),
            _ => None,
        }
    }
}

} // verus!
