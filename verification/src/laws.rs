//! What holds of every run of a session and of the outbound relay: the
//! transition functions applied to any sequence of reports.

use crate::fault::{fault_at, fault_in, fault_of, severity_of, without_fault, Severity};
use crate::launcher::{startup_of, PtyCreationError, Spawned, StartupView};
use crate::liveness::{peer_unreachable, MILLIS_PER_SECOND};
use crate::session::{
    begin_teardown, next_pass, transition, ActionView, CloseCause, EventView, Session, Signal,
    Stage, State, POLL_TIMEOUT_MS,
};
use crate::terminal::{
    relay_next, write_next, CompletedView, PtyWrite, PtyWriteError, RelayFault, RelayView,
};
use crate::wire::{heartbeat_token, InboundView};
use vstd::prelude::*;

verus! {

/// An event together with the clock reading at which the session handles it.
pub struct Input {
    pub event: EventView,
    pub at_ms: u64,
}

/// The session after the first `n` of `inputs`.
pub open spec fn session_after(start: Session, inputs: Seq<Input>, n: nat) -> Session
    decreases n,
{
    if n == 0 {
        start
    } else {
        let before = session_after(start, inputs, (n - 1) as nat);
        transition(before, inputs[n - 1].event, inputs[n - 1].at_ms).0
    }
}

/// The action with which the session answers `inputs[i]`.
pub open spec fn action_at(start: Session, inputs: Seq<Input>, i: nat) -> ActionView {
    transition(session_after(start, inputs, i), inputs[i as int].event, inputs[i as int].at_ms).1
}

/// The bytes that an action writes to the pty.
pub open spec fn written_by(action: ActionView) -> Seq<u8> {
    match action {
        ActionView::WritePty { bytes } => bytes,
        _ => Seq::empty(),
    }
}

/// The terminal input that an event brings to a session: the payload of a
/// message that is not the heartbeat token, as long as the session is active.
pub open spec fn input_in(session: Session, event: EventView) -> Seq<u8> {
    match event {
        EventView::Received(InboundView::Payload(bytes)) => if session.stage == Stage::Active
            && bytes != heartbeat_token() {
            bytes
        } else {
            Seq::empty()
        },
        _ => Seq::empty(),
    }
}

/// Everything that the first `n` actions of a run hand to the pty, in order.
pub open spec fn pty_input(start: Session, inputs: Seq<Input>, n: nat) -> Seq<u8>
    decreases n,
{
    if n == 0 {
        Seq::empty()
    } else {
        pty_input(start, inputs, (n - 1) as nat) + written_by(
            action_at(start, inputs, (n - 1) as nat),
        )
    }
}

/// Everything that the client sent as terminal input in the first `n` events
/// of a run, in order.
pub open spec fn client_input(start: Session, inputs: Seq<Input>, n: nat) -> Seq<u8>
    decreases n,
{
    if n == 0 {
        Seq::empty()
    } else {
        client_input(start, inputs, (n - 1) as nat) + input_in(
            session_after(start, inputs, (n - 1) as nat),
            inputs[n - 1].event,
        )
    }
}

/// The place of an action in the teardown sequence, 0 for an action that is
/// no part of it.
pub open spec fn teardown_step(action: ActionView) -> nat {
    match action {
        ActionView::AbortRelay { .. } => 1,
        ActionView::SignalChild { .. } => 2,
        ActionView::CloseSink => 3,
        ActionView::ReleaseSink => 4,
        _ => 0,
    }
}

/// The bytes handed to the pty are the terminal input that the client sent
/// while the session was active, byte for byte and in order.
/// Nothing is lost, doubled, reordered or added; the heartbeat token is never
/// written; after the session has left `Active` nothing is written.
pub proof fn law_input_round_trip(start: Session, inputs: Seq<Input>, n: nat)
    requires
        n <= inputs.len(),
    ensures
        pty_input(start, inputs, n) == client_input(start, inputs, n),
    decreases n,
{
    if n > 0 {
        law_input_round_trip(start, inputs, (n - 1) as nat);
    }
}

/// An active session that receives the exact heartbeat token writes nothing
/// to the pty and counts the peer as heard; any other
/// payload, of the same length or not, is written to the pty unchanged, and
/// counts as a sign of life too.
pub proof fn law_heartbeat_suppressed(session: Session, payload: Seq<u8>, now_ms: u64)
    requires
        session.stage == Stage::Active,
    ensures
        ({
            let (next, action) = transition(
                session,
                EventView::Received(InboundView::Payload(payload)),
                now_ms,
            );
            &&& next.last_seen_ms == now_ms
            &&& payload == heartbeat_token() ==> !(action is WritePty) && written_by(action)
                == Seq::<u8>::empty()
            &&& payload != heartbeat_token() ==> action == (ActionView::WritePty { bytes: payload })
                && next.stage == Stage::Active
        }),
{
}

/// When the loop comes round with no message and the peer has been silent
/// for the heartbeat interval, the session begins its teardown, and the step
/// after the relay has stopped signals the child with `Quit`. If the pass
/// before, at `checked_ms`, still found the peer reachable and the wait took
/// no longer than the poll timeout, this happens less than one poll timeout
/// after the interval ran out.
pub proof fn law_silence_ends_session(
    session: Session,
    checked_ms: u64,
    now_ms: u64,
    later_ms: u64,
)
    requires
        session.stage == Stage::Active,
        !peer_unreachable(session.last_seen_ms, checked_ms, session.heartbeat_interval_secs),
        checked_ms <= now_ms <= checked_ms + POLL_TIMEOUT_MS,
        peer_unreachable(session.last_seen_ms, now_ms, session.heartbeat_interval_secs),
    ensures
        transition(session, EventView::Quiet, now_ms) == begin_teardown(
            session,
            CloseCause::PeerSilent,
        ),
        transition(session, EventView::Quiet, now_ms).0.stage.state() == State::Closing,
        transition(
            transition(session, EventView::Quiet, now_ms).0,
            EventView::RelayStopped,
            later_ms,
        ).1 == (ActionView::SignalChild { pid: session.child, signal: Signal::Quit }),
        now_ms - session.last_seen_ms < session.heartbeat_interval_secs * MILLIS_PER_SECOND
            + POLL_TIMEOUT_MS,
{
}

/// Once the peer has been silent for the heartbeat interval, only a payload
/// from the peer keeps the session active: whatever else is reported, the
/// session begins its teardown.
pub proof fn law_only_the_peer_ends_silence(session: Session, event: EventView, now_ms: u64)
    requires
        session.stage == Stage::Active,
        peer_unreachable(session.last_seen_ms, now_ms, session.heartbeat_interval_secs),
        !(event matches EventView::Received(InboundView::Payload(_))),
    ensures
        transition(session, event, now_ms).0 == session.at_stage(Stage::StoppingRelay),
        transition(session, event, now_ms).1 is AbortRelay,
{
}

/// The record of when the peer was last heard changes only when a payload
/// reaches an active session, and then to the clock reading of that event.
pub proof fn law_peer_heard_only_in_payloads(session: Session, event: EventView, now_ms: u64)
    ensures
        ({
            let next = transition(session, event, now_ms).0;
            next.last_seen_ms != session.last_seen_ms ==> {
                &&& session.stage == Stage::Active
                &&& event matches EventView::Received(InboundView::Payload(_))
                &&& next.last_seen_ms == now_ms
            }
        }),
{
}

/// A session keeps what it was opened with: along any run the pty master,
/// the child and the heartbeat interval stay the same.
pub proof fn law_handles_are_kept(start: Session, inputs: Seq<Input>, n: nat)
    requires
        n <= inputs.len(),
    ensures
        session_after(start, inputs, n).master == start.master,
        session_after(start, inputs, n).child == start.child,
        session_after(start, inputs, n).heartbeat_interval_secs == start.heartbeat_interval_secs,
    decreases n,
{
    if n > 0 {
        law_handles_are_kept(start, inputs, (n - 1) as nat);
    }
}

/// The only signal that a session ever asks for is `Quit`, and only for its
/// own child.
pub proof fn law_only_own_child_is_signalled(start: Session, inputs: Seq<Input>, i: nat)
    requires
        i < inputs.len(),
        action_at(start, inputs, i) is SignalChild,
    ensures
        action_at(start, inputs, i) == (ActionView::SignalChild {
            pid: start.child,
            signal: Signal::Quit,
        }),
{
    law_handles_are_kept(start, inputs, i);
}

/// A session that has left `Active` never comes back to it, forwards nothing
/// and waits for no message: whatever it is told, it asks neither for a write
/// to the pty nor for a poll, and its record of the peer stays as it was.
pub proof fn law_inactive_session_forwards_nothing(
    session: Session,
    event: EventView,
    now_ms: u64,
)
    requires
        session.stage != Stage::Active,
    ensures
        ({
            let (next, action) = transition(session, event, now_ms);
            &&& !(action is WritePty)
            &&& !(action is Poll)
            &&& next.stage != Stage::Active
            &&& next.last_seen_ms == session.last_seen_ms
        }),
{
}

/// A session never goes back: along any run the stage moves forward by at
/// most one place per event.
pub proof fn law_stage_moves_forward(start: Session, inputs: Seq<Input>, m: nat, n: nat)
    requires
        m <= n <= inputs.len(),
    ensures
        session_after(start, inputs, m).stage.rank() <= session_after(start, inputs, n).stage.rank()
            <= session_after(start, inputs, m).stage.rank() + (n - m),
    decreases n,
{
    if m < n {
        law_stage_moves_forward(start, inputs, m, (n - 1) as nat);
    }
}

/// A teardown action is issued exactly when the session moves on to the
/// stage of that action: step `k` of the teardown takes the session from
/// place `k - 1` to place `k`, and nothing else moves it.
pub proof fn law_teardown_step_by_step(start: Session, inputs: Seq<Input>, i: nat)
    requires
        i < inputs.len(),
    ensures
        ({
            let before = session_after(start, inputs, i).stage.rank();
            let after = session_after(start, inputs, i + 1).stage.rank();
            let k = teardown_step(action_at(start, inputs, i));
            if k == 0 {
                after == before
            } else {
                before == k - 1 && after == k
            }
        }),
{
    assert(session_after(start, inputs, i + 1) == transition(
        session_after(start, inputs, i),
        inputs[i as int].event,
        inputs[i as int].at_ms,
    ).0);
}

/// In any run the teardown actions come in their one order, each at most
/// once: an action at a later place never comes before one at an earlier
/// place, and no action comes twice.
pub proof fn law_teardown_in_order(start: Session, inputs: Seq<Input>, i: nat, j: nat)
    requires
        i < j < inputs.len(),
        teardown_step(action_at(start, inputs, i)) > 0,
        teardown_step(action_at(start, inputs, j)) > 0,
    ensures
        teardown_step(action_at(start, inputs, i)) < teardown_step(action_at(start, inputs, j)),
{
    law_teardown_step_by_step(start, inputs, i);
    law_teardown_step_by_step(start, inputs, j);
    law_stage_moves_forward(start, inputs, i + 1, j);
}

/// Whenever a session that started active is told to close the sink, it was
/// told before that the outbound relay has stopped, in answer to its own
/// request to stop it; and it has signalled the child in between. So nothing
/// writes to the sink any more when it is closed.
pub proof fn law_relay_stops_before_sink_closes(start: Session, inputs: Seq<Input>, i: nat)
    requires
        start.stage == Stage::Active,
        i < inputs.len(),
        action_at(start, inputs, i) == ActionView::CloseSink,
    ensures
        exists|a: nat, s: nat|
            a < s < i && #[trigger] teardown_step(action_at(start, inputs, a)) == 1
                && inputs[s as int].event == EventView::RelayStopped
                && #[trigger] teardown_step(action_at(start, inputs, s)) == 2,
{
    law_teardown_step_by_step(start, inputs, i);
    let s = entered_before(start, inputs, i, 2);
    let a = entered_before(start, inputs, s, 1);
    assert(a < s < i && teardown_step(action_at(start, inputs, a)) == 1
        && inputs[s as int].event == EventView::RelayStopped
        && teardown_step(action_at(start, inputs, s)) == 2);
}

/// The event at which a run reached the place `k` that it holds after `n`
/// events.
proof fn entered_before(start: Session, inputs: Seq<Input>, n: nat, k: nat) -> (at: nat)
    requires
        n <= inputs.len(),
        start.stage.rank() < k <= 4,
        session_after(start, inputs, n).stage.rank() == k,
    ensures
        at < n,
        teardown_step(action_at(start, inputs, at)) == k,
        session_after(start, inputs, at).stage.rank() == k - 1,
        k == 2 ==> inputs[at as int].event == EventView::RelayStopped,
    decreases n,
{
    let prev = (n - 1) as nat;
    law_teardown_step_by_step(start, inputs, prev);
    if session_after(start, inputs, prev).stage.rank() == k {
        entered_before(start, inputs, prev, k)
    } else {
        prev
    }
}

/// A session that waits for its sink to be closed goes on to release it and
/// is closed, whether the close succeeded or failed, as it does on a sink
/// that was closed already.
pub proof fn law_close_failure_not_fatal(session: Session, clean: bool, now_ms: u64)
    requires
        session.stage == Stage::ClosingSink,
    ensures
        transition(session, EventView::SinkClosed { clean }, now_ms) == (
            session.at_stage(Stage::Closed),
            ActionView::ReleaseSink,
        ),
{
}

/// Every teardown completes: once the relay is told to stop, the reports of
/// the three steps bring the session to `Closed`, whatever the signal and the
/// close report, and the actions are the signal, the close and the release.
pub proof fn law_teardown_completes(
    session: Session,
    cause: CloseCause,
    delivered: bool,
    clean: bool,
    t1: u64,
    t2: u64,
    t3: u64,
)
    ensures
        ({
            let stopping = begin_teardown(session, cause).0;
            let (signalling, first) = transition(stopping, EventView::RelayStopped, t1);
            let (closing, second) = transition(
                signalling,
                EventView::ChildSignalled { delivered },
                t2,
            );
            let (closed, third) = transition(closing, EventView::SinkClosed { clean }, t3);
            &&& first == (ActionView::SignalChild { pid: session.child, signal: Signal::Quit })
            &&& second == ActionView::CloseSink
            &&& third == ActionView::ReleaseSink
            &&& closed == session.at_stage(Stage::Closed)
        }),
{
}

/// An event that reports a fault which is not fatal is answered exactly as
/// the event that would have come had nothing gone wrong, at every stage; and
/// an active session that meets a fault which is fatal for it begins its
/// teardown.
pub proof fn law_session_faults_contained(session: Session, event: EventView, now_ms: u64)
    requires
        fault_in(event) is Some,
    ensures
        severity_of(fault_in(event).unwrap()) != Severity::FatalForConnection,
        severity_of(fault_in(event).unwrap()) == Severity::NonFatal ==> transition(
            session,
            event,
            now_ms,
        ) == transition(session, without_fault(event), now_ms),
        severity_of(fault_in(event).unwrap()) == Severity::FatalForSession && session.stage
            == Stage::Active ==> transition(session, event, now_ms) == begin_teardown(
            session,
            CloseCause::PtyGone,
        ),
{
}

/// The relay stops exactly on the faults that are fatal for the session, a
/// failed read and a refused frame, and on nothing else.
pub proof fn law_relay_stops_on_fatal_faults(pending: RelayView, done: CompletedView)
    requires
        !(pending is Stopped),
    ensures
        relay_next(pending, done) is Stopped <==> (pending is Read && done is ReadFailed) || (
        pending is Send && done is SendFailed),
        relay_next(pending, done) is Stopped ==> fault_of(relay_next(pending, done)) is Some
            && severity_of(fault_of(relay_next(pending, done)).unwrap())
            == Severity::FatalForSession,
{
}

/// A failed launch is fatal for its connection and for nothing more: the
/// start is refused with the error of the operating system, no session comes
/// to be, and every other answer to a launch carries no fault.
pub proof fn law_launch_failure_refused(
    spawned: Spawned,
    heartbeat_interval_secs: u64,
    now_ms: u64,
)
    ensures
        ({
            let startup = startup_of(spawned, heartbeat_interval_secs, now_ms);
            &&& spawned matches Spawned::Failed { os_error } ==> startup == (StartupView::Refused {
                error: PtyCreationError { os_error },
            }) && severity_of(fault_at(startup).unwrap()) == Severity::FatalForConnection
            &&& !(spawned is Failed) ==> fault_at(startup) is None
            &&& startup is Running <==> spawned is Parent
        }),
{
}

/// The sessions that a server bridges at one time.
pub type Fleet = Seq<Session>;

/// The fleet after its session `i` has handled an event.
pub open spec fn fleet_step(fleet: Fleet, i: int, event: EventView, now_ms: u64) -> Fleet {
    fleet.update(i, transition(fleet[i], event, now_ms).0)
}

/// Whatever one session of a fleet handles, every other session is left as
/// it was, and answers whatever comes next as if nothing had happened. In
/// particular a failed write to the pty of one session touches neither the
/// liveness nor the data flow of another. The session whose write failed
/// keeps its own record of when the peer was last heard, and unless its pty
/// is gone it goes on with the next pass of its loop.
pub proof fn law_sessions_isolated(
    fleet: Fleet,
    busy: int,
    event: EventView,
    now_ms: u64,
    other: int,
    next: EventView,
    later_ms: u64,
)
    requires
        0 <= busy < fleet.len(),
        0 <= other < fleet.len(),
        other != busy,
    ensures
        ({
            let after = fleet_step(fleet, busy, event, now_ms);
            &&& after.len() == fleet.len()
            &&& after[other] == fleet[other]
            &&& transition(after[other], next, later_ms) == transition(
                fleet[other],
                next,
                later_ms,
            )
            &&& event matches EventView::PtyWritten(Err(error)) ==> {
                &&& after[busy].last_seen_ms == fleet[busy].last_seen_ms
                &&& fleet[busy].stage == Stage::Active && !error.pty_gone ==> after[busy]
                    == next_pass(fleet[busy], now_ms).0
            }
        }),
{
}

/// A write of input ends with `Ok(true)` exactly when the write and the
/// flush both succeeded, and otherwise with the error of the first of them
/// that failed; the flush is asked for exactly when the write succeeded.
pub proof fn law_write_ends_with_first_failure(
    written: Result<(), PtyWriteError>,
    flushed: Result<(), PtyWriteError>,
)
    ensures
        ({
            let after_write = write_next(PtyWrite::Write, written);
            let after_flush = write_next(after_write, flushed);
            &&& after_write == PtyWrite::Flush <==> written is Ok
            &&& after_flush == (match (written, flushed) {
                (Err(error), _) => PtyWrite::Done(Err(error)),
                (Ok(_), Err(error)) => PtyWrite::Done(Err(error)),
                (Ok(_), Ok(_)) => PtyWrite::Done(Ok(true)),
            })
        }),
{
}

/// The outbound relay after the first `n` of `reports`.
pub open spec fn relay_after(start: RelayView, reports: Seq<CompletedView>, n: nat) -> RelayView
    decreases n,
{
    if n == 0 {
        start
    } else {
        relay_next(relay_after(start, reports, (n - 1) as nat), reports[n - 1])
    }
}

/// The bytes that the relay holds to be sent.
pub open spec fn in_flight(relay: RelayView) -> Seq<u8> {
    match relay {
        RelayView::Send(bytes) => bytes,
        _ => Seq::empty(),
    }
}

/// The bytes that a report brings from the pty: those of a read that the
/// relay had asked for.
pub open spec fn read_in(relay: RelayView, report: CompletedView) -> Seq<u8> {
    match (relay, report) {
        (RelayView::Read, CompletedView::Read(bytes)) => bytes,
        _ => Seq::empty(),
    }
}

/// The bytes that a report says have reached the sink.
pub open spec fn sent_in(relay: RelayView, report: CompletedView) -> Seq<u8> {
    match (relay, report) {
        (RelayView::Send(bytes), CompletedView::Sent) => bytes,
        _ => Seq::empty(),
    }
}

/// The bytes that a report says the sink refused.
pub open spec fn refused_in(relay: RelayView, report: CompletedView) -> Seq<u8> {
    match (relay, report) {
        (RelayView::Send(bytes), CompletedView::SendFailed) => bytes,
        _ => Seq::empty(),
    }
}

/// Everything that the relay read from the pty in the first `n` reports.
pub open spec fn relay_read(start: RelayView, reports: Seq<CompletedView>, n: nat) -> Seq<u8>
    decreases n,
{
    if n == 0 {
        Seq::empty()
    } else {
        relay_read(start, reports, (n - 1) as nat) + read_in(
            relay_after(start, reports, (n - 1) as nat),
            reports[n - 1],
        )
    }
}

/// Everything that reached the sink in the first `n` reports, frame after
/// frame.
pub open spec fn relay_sent(start: RelayView, reports: Seq<CompletedView>, n: nat) -> Seq<u8>
    decreases n,
{
    if n == 0 {
        Seq::empty()
    } else {
        relay_sent(start, reports, (n - 1) as nat) + sent_in(
            relay_after(start, reports, (n - 1) as nat),
            reports[n - 1],
        )
    }
}

/// Everything that the sink refused in the first `n` reports.
pub open spec fn relay_refused(start: RelayView, reports: Seq<CompletedView>, n: nat) -> Seq<u8>
    decreases n,
{
    if n == 0 {
        Seq::empty()
    } else {
        relay_refused(start, reports, (n - 1) as nat) + refused_in(
            relay_after(start, reports, (n - 1) as nat),
            reports[n - 1],
        )
    }
}

/// What the relay has read from the pty is, byte for byte and in order, what
/// has reached the sink, followed by the frame that it holds to be sent,
/// followed by the frame that the sink refused. Nothing is lost, doubled or
/// reordered; and as long as the relay has not stopped on a refused frame,
/// nothing was refused.
pub proof fn law_byte_fidelity(start: RelayView, reports: Seq<CompletedView>, n: nat)
    requires
        n <= reports.len(),
    ensures
        in_flight(start) + relay_read(start, reports, n) == relay_sent(start, reports, n)
            + in_flight(relay_after(start, reports, n)) + relay_refused(start, reports, n),
        relay_after(start, reports, n) != RelayView::Stopped(RelayFault::TransportSend)
            ==> relay_refused(start, reports, n) == Seq::<u8>::empty(),
    decreases n,
{
    if n == 0 {
        assert(in_flight(start) + Seq::<u8>::empty() =~= Seq::<u8>::empty() + in_flight(start)
            + Seq::<u8>::empty());
    } else {
        let m = (n - 1) as nat;
        law_byte_fidelity(start, reports, m);
        let relay = relay_after(start, reports, m);
        let report = reports[n - 1];
        let read = relay_read(start, reports, m);
        let sent = relay_sent(start, reports, m);
        let refused = relay_refused(start, reports, m);
        assert(in_flight(start) + (read + read_in(relay, report)) =~= (in_flight(start) + read)
            + read_in(relay, report));
        assert((sent + in_flight(relay) + refused) + read_in(relay, report) =~= (sent + sent_in(
            relay,
            report,
        )) + in_flight(relay_next(relay, report)) + (refused + refused_in(relay, report)));
    }
}

/// A relay that is idle has delivered everything: if it started by reading
/// and now reads or sleeps, the sink has received exactly what was read.
pub proof fn law_idle_relay_has_delivered(reports: Seq<CompletedView>, n: nat)
    requires
        n <= reports.len(),
        relay_after(RelayView::Read, reports, n) is Read || relay_after(
            RelayView::Read,
            reports,
            n,
        ) is Sleep,
    ensures
        relay_sent(RelayView::Read, reports, n) == relay_read(RelayView::Read, reports, n),
{
    law_byte_fidelity(RelayView::Read, reports, n);
    let read = relay_read(RelayView::Read, reports, n);
    let sent = relay_sent(RelayView::Read, reports, n);
    assert(Seq::<u8>::empty() + read =~= read);
    assert(sent + Seq::<u8>::empty() + Seq::<u8>::empty() =~= sent);
}

/// A relay that has stopped stays stopped: it asks for nothing more, and
/// nothing more reaches the sink through it.
pub proof fn law_stopped_relay_is_silent(
    start: RelayView,
    reports: Seq<CompletedView>,
    m: nat,
    n: nat,
)
    requires
        m <= n <= reports.len(),
        relay_after(start, reports, m) is Stopped,
    ensures
        relay_after(start, reports, n) == relay_after(start, reports, m),
        relay_sent(start, reports, n) == relay_sent(start, reports, m),
    decreases n,
{
    if m < n {
        law_stopped_relay_is_silent(start, reports, m, (n - 1) as nat);
        assert(relay_sent(start, reports, (n - 1) as nat) + Seq::<u8>::empty() =~= relay_sent(
            start,
            reports,
            (n - 1) as nat,
        ));
    }
}

} // verus!
