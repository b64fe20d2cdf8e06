//! The session orchestrator: the inbound loop, the liveness check and the
//! ordered teardown, as one transition function. The caller carries out the
//! action that a step returns and reports what happened as the next event.

use crate::liveness::{is_unreachable, peer_unreachable};
use crate::terminal::PtyWriteError;
use crate::wire::{heartbeat_token, is_heartbeat, Inbound, InboundView};
use vstd::prelude::*;

verus! {

/// Longest wait for the next message from the client, in milliseconds. It
/// bounds the time between two liveness checks while the peer is silent.
pub const POLL_TIMEOUT_MS: u64 = 100;

/// The lifecycle of a session. It only moves forward: `Active`, then
/// `Closing`, then `Closed`.
#[derive(Clone, Copy, Debug, PartialEq, Eq)]
pub enum State {
    /// The pty is launched and both relays run.
    Active,
    /// The teardown sequence is under way; no byte is forwarded any more.
    Closing,
    /// Every resource is released.
    Closed,
}

/// Where a session stands, teardown steps included. Each stage of the
/// teardown names the step whose completion the session waits for.
#[derive(Clone, Copy, Debug, PartialEq, Eq)]
pub enum Stage {
    /// The inbound loop runs.
    Active,
    /// The outbound relay was told to stop and has not stopped yet.
    StoppingRelay,
    /// The relay has stopped; the child was sent its signal.
    SignallingChild,
    /// The child was signalled; the network sink is being closed.
    ClosingSink,
    /// The sink was closed and released.
    Closed,
}

impl Stage {
    /// The lifecycle state that a stage belongs to.
    pub open spec fn state(self) -> State {
        match self {
            Stage::Active => State::Active,
            Stage::Closed => State::Closed,
            _ => State::Closing,
        }
    }

    /// How far a stage lies along the one path that a session takes.
    pub open spec fn rank(self) -> nat {
        match self {
            Stage::Active => 0,
            Stage::StoppingRelay => 1,
            Stage::SignallingChild => 2,
            Stage::ClosingSink => 3,
            Stage::Closed => 4,
        }
    }
}

/// Why a session left the `Active` state.
#[derive(Clone, Copy, Debug, PartialEq, Eq)]
pub enum CloseCause {
    /// The peer sent a close indication.
    PeerClosed,
    /// Nothing was heard from the peer for the whole heartbeat interval.
    PeerSilent,
    /// The outbound relay stopped by itself: a read or a send failed.
    RelayStopped,
    /// Input could not be written because the pty is gone.
    PtyGone,
}

/// A signal for the child process.
#[derive(Clone, Copy, Debug, PartialEq, Eq)]
pub enum Signal {
    /// Ask the process to quit; it may clean up first.
    Quit,
    /// Ask the process to terminate; it may clean up first.
    Terminate,
    /// End the process by force.
    Kill,
}

/// What the caller reports to the session.
#[derive(Debug, PartialEq, Eq)]
pub enum Event {
    /// The wait for a message ended with none.
    Quiet,
    /// A message arrived.
    Received(Inbound),
    /// The transport reported a malformed frame or a protocol violation.
    ReceiveFailed,
    /// A write of input to the pty ended with this result.
    PtyWritten(Result<bool, PtyWriteError>),
    /// The outbound relay is known to have stopped.
    RelayStopped,
    /// The signal to the child was attempted.
    ChildSignalled { delivered: bool },
    /// The close of the network sink was attempted.
    SinkClosed { clean: bool },
}

/// The mathematical content of an [`Event`].
pub enum EventView {
    Quiet,
    Received(InboundView),
    ReceiveFailed,
    PtyWritten(Result<bool, PtyWriteError>),
    RelayStopped,
    ChildSignalled { delivered: bool },
    SinkClosed { clean: bool },
}

impl View for Event {
    type V = EventView;

    open spec fn view(&self) -> EventView {
        match self {
            Event::Quiet => EventView::Quiet,
            Event::Received(message) => EventView::Received(message@),
            Event::ReceiveFailed => EventView::ReceiveFailed,
            Event::PtyWritten(result) => EventView::PtyWritten(*result),
            Event::RelayStopped => EventView::RelayStopped,
            Event::ChildSignalled { delivered } => EventView::ChildSignalled {
                delivered: *delivered,
            },
            Event::SinkClosed { clean } => EventView::SinkClosed { clean: *clean },
        }
    }
}

/// What the session asks the caller to do.
#[derive(Debug, PartialEq, Eq)]
pub enum Action {
    /// Wait for the next message from the client, for at most `timeout_ms`
    /// milliseconds, and report it, or `Quiet`.
    Poll { timeout_ms: u64 },
    /// Write these bytes to the pty master and flush; report `PtyWritten`.
    WritePty { bytes: Vec<u8> },
    /// Cancel the outbound relay and wait until it has stopped; report
    /// `RelayStopped`.
    AbortRelay { cause: CloseCause },
    /// Send `signal` to the process `pid`; report `ChildSignalled`.
    SignalChild { pid: i32, signal: Signal },
    /// Close the network sink; report `SinkClosed`.
    CloseSink,
    /// Release the handle of the network sink. The session is over.
    ReleaseSink,
    /// Nothing to do: the teardown step under way has not ended, or the
    /// session is closed.
    Idle,
}

/// The mathematical content of an [`Action`].
pub enum ActionView {
    Poll { timeout_ms: u64 },
    WritePty { bytes: Seq<u8> },
    AbortRelay { cause: CloseCause },
    SignalChild { pid: i32, signal: Signal },
    CloseSink,
    ReleaseSink,
    Idle,
}

impl View for Action {
    type V = ActionView;

    open spec fn view(&self) -> ActionView {
        match self {
            Action::Poll { timeout_ms } => ActionView::Poll { timeout_ms: *timeout_ms },
            Action::WritePty { bytes } => ActionView::WritePty { bytes: bytes@ },
            Action::AbortRelay { cause } => ActionView::AbortRelay { cause: *cause },
            Action::SignalChild { pid, signal } => ActionView::SignalChild {
                pid: *pid,
                signal: *signal,
            },
            Action::CloseSink => ActionView::CloseSink,
            Action::ReleaseSink => ActionView::ReleaseSink,
            Action::Idle => ActionView::Idle,
        }
    }
}

/// One bridged terminal, from the launch of its pty to the release of its
/// last resource.
#[derive(Clone, Copy, Debug, PartialEq, Eq)]
pub struct Session {
    /// Where the session stands.
    pub stage: Stage,
    /// Clock reading, in milliseconds, at which the peer was last heard.
    pub last_seen_ms: u64,
    /// Silence after which the peer counts as unreachable, in seconds.
    pub heartbeat_interval_secs: u64,
    /// Descriptor of the pty master.
    pub master: i32,
    /// Identifier of the child process.
    pub child: i32,
}

impl Session {
    /// This session at another stage.
    pub open spec fn at_stage(self, stage: Stage) -> Session {
        Session { stage, ..self }
    }

    /// This session with the peer heard at `now_ms`.
    pub open spec fn heard_at(self, now_ms: u64) -> Session {
        Session { last_seen_ms: now_ms, ..self }
    }

    /// The lifecycle state of the session.
    pub fn state(&self) -> (state: State)
        ensures
            state == self.stage.state(),
    {
        match self.stage {
            Stage::Active => State::Active,
            Stage::Closed => State::Closed,
            _ => State::Closing,
        }
    }
}

/// The session leaves `Active`: the relay is told to stop, which is the first
/// step of every teardown.
pub open spec fn begin_teardown(session: Session, cause: CloseCause) -> (Session, ActionView) {
    (session.at_stage(Stage::StoppingRelay), ActionView::AbortRelay { cause })
}

/// The start of a pass of the inbound loop: the liveness check, and then,
/// if the peer is still reachable, the wait for the next message.
pub open spec fn next_pass(session: Session, now_ms: u64) -> (Session, ActionView) {
    if peer_unreachable(session.last_seen_ms, now_ms, session.heartbeat_interval_secs) {
        begin_teardown(session, CloseCause::PeerSilent)
    } else {
        (session, ActionView::Poll { timeout_ms: POLL_TIMEOUT_MS })
    }
}

/// What an active session does with an event.
///
/// A close indication starts the teardown. Every payload counts as a sign of
/// life; the heartbeat token is consumed, any other payload is written to
/// the pty unchanged. A receive error and a failed write are passed over,
/// unless the write failed because the pty is gone. A relay that stopped
/// starts the teardown. Whenever the loop goes on, it does so with the
/// liveness check.
pub open spec fn when_active(session: Session, event: EventView, now_ms: u64) -> (
    Session,
    ActionView,
) {
    match event {
        EventView::Received(InboundView::Close) => begin_teardown(session, CloseCause::PeerClosed),
        EventView::Received(InboundView::Payload(bytes)) => if bytes == heartbeat_token() {
            next_pass(session.heard_at(now_ms), now_ms)
        } else {
            (session.heard_at(now_ms), ActionView::WritePty { bytes })
        },
        EventView::PtyWritten(Err(error)) => if error.pty_gone {
            begin_teardown(session, CloseCause::PtyGone)
        } else {
            next_pass(session, now_ms)
        },
        EventView::RelayStopped => begin_teardown(session, CloseCause::RelayStopped),
        _ => next_pass(session, now_ms),
    }
}

/// The transition function of a session: its next value and the action that
/// it asks for, given an event and the clock reading at which it is handled.
///
/// The teardown runs in one order: stop the relay, signal the child with
/// `Quit`, close the sink, release the sink. Each step waits for the report
/// of the one before and goes on whether or not that one succeeded. Events
/// that do not end the step under way are passed over, and a closed session
/// passes over everything.
pub open spec fn transition(session: Session, event: EventView, now_ms: u64) -> (
    Session,
    ActionView,
) {
    match session.stage {
        Stage::Active => when_active(session, event, now_ms),
        Stage::StoppingRelay => match event {
            EventView::RelayStopped => (
                session.at_stage(Stage::SignallingChild),
                ActionView::SignalChild { pid: session.child, signal: Signal::Quit },
            ),
            _ => (session, ActionView::Idle),
        },
        Stage::SignallingChild => match event {
            EventView::ChildSignalled { .. } => (
                session.at_stage(Stage::ClosingSink),
                ActionView::CloseSink,
            ),
            _ => (session, ActionView::Idle),
        },
        Stage::ClosingSink => match event {
            EventView::SinkClosed { .. } => (
                session.at_stage(Stage::Closed),
                ActionView::ReleaseSink,
            ),
            _ => (session, ActionView::Idle),
        },
        Stage::Closed => (session, ActionView::Idle),
    }
}

/// A session whose pty was launched at `now_ms`, before its first pass.
pub open spec fn fresh(
    master: i32,
    child: i32,
    heartbeat_interval_secs: u64,
    now_ms: u64,
) -> Session {
    Session { stage: Stage::Active, last_seen_ms: now_ms, heartbeat_interval_secs, master, child }
}

impl Session {
    /// Opens the session of a pty that was just launched and starts its
    /// first pass: the peer counts as heard at `now_ms`.
    pub fn open(master: i32, child: i32, heartbeat_interval_secs: u64, now_ms: u64) -> (opened: (
        Session,
        Action,
    ))
        ensures
            (opened.0, opened.1@) == next_pass(
                fresh(master, child, heartbeat_interval_secs, now_ms),
                now_ms,
            ),
    {
        let mut session = Session {
            stage: Stage::Active,
            last_seen_ms: now_ms,
            heartbeat_interval_secs,
            master,
            child,
        };
        let action = session.pass(now_ms);
        (session, action)
    }

    fn teardown(&mut self, cause: CloseCause) -> (action: Action)
        ensures
            (*final(self), action@) == begin_teardown(*old(self), cause),
    {
        self.stage = Stage::StoppingRelay;
        Action::AbortRelay { cause }
    }

    fn pass(&mut self, now_ms: u64) -> (action: Action)
        ensures
            (*final(self), action@) == next_pass(*old(self), now_ms),
    {
        if is_unreachable(self.last_seen_ms, now_ms, self.heartbeat_interval_secs) {
            self.teardown(CloseCause::PeerSilent)
        } else {
            Action::Poll { timeout_ms: POLL_TIMEOUT_MS }
        }
    }

    fn active_step(&mut self, event: Event, now_ms: u64) -> (action: Action)
        ensures
            (*final(self), action@) == when_active(*old(self), event@, now_ms),
    {
        match event {
            Event::Received(Inbound::Close) => self.teardown(CloseCause::PeerClosed),
            Event::Received(Inbound::Payload(bytes)) => {
                self.last_seen_ms = now_ms;
                if is_heartbeat(bytes.as_slice()) {
                    self.pass(now_ms)
                } else {
                    Action::WritePty { bytes }
                }
            },
            Event::PtyWritten(Err(error)) => if error.pty_gone {
                self.teardown(CloseCause::PtyGone)
            } else {
                self.pass(now_ms)
            },
            Event::RelayStopped => self.teardown(CloseCause::RelayStopped),
            _ => self.pass(now_ms),
        }
    }

    /// Handles one event at the clock reading `now_ms` and returns the
    /// action to carry out next.
    pub fn step(&mut self, event: Event, now_ms: u64) -> (action: Action)
        ensures
            (*final(self), action@) == transition(*old(self), event@, now_ms),
    {
        match self.stage {
            Stage::Active => self.active_step(event, now_ms),
            Stage::StoppingRelay => match event {
                Event::RelayStopped => {
                    self.stage = Stage::SignallingChild;
                    Action::SignalChild { pid: self.child, signal: Signal::Quit }
                },
                _ => Action::Idle,
            },
            Stage::SignallingChild => match event {
                Event::ChildSignalled { .. } => {
                    self.stage = Stage::ClosingSink;
                    Action::CloseSink
                },
                _ => Action::Idle,
            },
            Stage::ClosingSink => match event {
                Event::SinkClosed { .. } => {
                    self.stage = Stage::Closed;
                    Action::ReleaseSink
                },
                _ => Action::Idle,
            },
            Stage::Closed => Action::Idle,
        }
    }
}

} // verus!
