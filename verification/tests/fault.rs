use web_terminal::fault::{severity, Fault, Severity};
use web_terminal::launcher::{start, Spawned};
use web_terminal::session::Event;
use web_terminal::terminal::{Completed, PtyWriteError, Relay, RelayFault, Terminal};
use web_terminal::wire::Inbound;

#[test]
fn severity_of_each_fault() {
    assert_eq!(severity(Fault::PtyCreation), Severity::FatalForConnection);
    assert_eq!(severity(Fault::TransportReceive), Severity::NonFatal);
    assert_eq!(severity(Fault::TransportSend), Severity::FatalForSession);
    assert_eq!(severity(Fault::PtyWrite { pty_gone: false }), Severity::NonFatal);
    assert_eq!(severity(Fault::PtyWrite { pty_gone: true }), Severity::FatalForSession);
    assert_eq!(severity(Fault::PtyRead), Severity::FatalForSession);
    assert_eq!(severity(Fault::ChildSignal), Severity::NonFatal);
    assert_eq!(severity(Fault::SinkClose), Severity::NonFatal);
}

#[test]
fn events_that_report_a_fault() {
    assert_eq!(Event::ReceiveFailed.fault(), Some(Fault::TransportReceive));
    assert_eq!(
        Event::PtyWritten(Err(PtyWriteError { pty_gone: false })).fault(),
        Some(Fault::PtyWrite { pty_gone: false })
    );
    assert_eq!(
        Event::PtyWritten(Err(PtyWriteError { pty_gone: true })).fault(),
        Some(Fault::PtyWrite { pty_gone: true })
    );
    assert_eq!(Event::ChildSignalled { delivered: false }.fault(), Some(Fault::ChildSignal));
    assert_eq!(Event::SinkClosed { clean: false }.fault(), Some(Fault::SinkClose));
}

#[test]
fn events_that_report_no_fault() {
    assert_eq!(Event::Quiet.fault(), None);
    assert_eq!(Event::Received(Inbound::Close).fault(), None);
    assert_eq!(Event::Received(Inbound::Payload(vec![1, 2])).fault(), None);
    assert_eq!(Event::PtyWritten(Ok(true)).fault(), None);
    assert_eq!(Event::RelayStopped.fault(), None);
    assert_eq!(Event::ChildSignalled { delivered: true }.fault(), None);
    assert_eq!(Event::SinkClosed { clean: true }.fault(), None);
}

#[test]
fn fault_of_a_stopped_relay() {
    assert_eq!(Relay::Read.fault(), None);
    assert_eq!(Relay::Sleep.fault(), None);
    assert_eq!(Relay::Send(vec![1]).fault(), None);
    assert_eq!(Relay::Stopped(RelayFault::PtyRead).fault(), Some(Fault::PtyRead));
    assert_eq!(Relay::Stopped(RelayFault::TransportSend).fault(), Some(Fault::TransportSend));
    let stopped = Terminal::reader(Relay::Read, Completed::ReadFailed);
    assert_eq!(stopped.fault().map(severity), Some(Severity::FatalForSession));
    let stopped = Terminal::reader(Relay::Send(vec![1]), Completed::SendFailed);
    assert_eq!(stopped.fault().map(severity), Some(Severity::FatalForSession));
}

#[test]
fn fault_of_a_refused_start() {
    let refused = start(Spawned::Failed { os_error: 12 }, 30, 0);
    assert_eq!(refused.fault(), Some(Fault::PtyCreation));
    assert_eq!(refused.fault().map(severity), Some(Severity::FatalForConnection));
    assert_eq!(start(Spawned::Parent { master: 3, child: 4 }, 30, 0).fault(), None);
    assert_eq!(start(Spawned::ChildExecFailed, 30, 0).fault(), None);
}
