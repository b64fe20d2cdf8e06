//! The launch of the pty and its child: what to ask of the operating system
//! for a session request, and what to make of the answer.

use crate::session::{fresh, next_pass, Action, ActionView, Session};
use vstd::prelude::*;

verus! {

/// Width of the terminal window in pixels, as reported to the child.
pub const WINDOW_WIDTH_PX: u16 = 12;

/// Height of the terminal window in pixels, as reported to the child.
pub const WINDOW_HEIGHT_PX: u16 = 12;

/// The size of a terminal window. Rows and columns are fixed when the
/// session is created; there is no resize.
#[derive(Clone, Copy, Debug, PartialEq, Eq)]
pub struct WindowSize {
    pub rows: u16,
    pub cols: u16,
    pub width_px: u16,
    pub height_px: u16,
}

/// The window of a terminal with the given rows and columns.
pub open spec fn window_of(rows: u16, cols: u16) -> WindowSize {
    WindowSize { rows, cols, width_px: WINDOW_WIDTH_PX, height_px: WINDOW_HEIGHT_PX }
}

/// The window of a terminal with the given rows and columns.
pub fn window(rows: u16, cols: u16) -> (size: WindowSize)
    ensures
        size == window_of(rows, cols),
{
    WindowSize { rows, cols, width_px: WINDOW_WIDTH_PX, height_px: WINDOW_HEIGHT_PX }
}

/// The shell that runs when a request names none.
pub open spec fn default_shell() -> Seq<char> {
    "/bin/bash"@
}

/// The shell to run for a request: the one it names, or the default if it
/// names none.
pub open spec fn shell_for(requested: Seq<char>) -> Seq<char> {
    if requested.len() == 0 {
        default_shell()
    } else {
        requested
    }
}

/// Chooses the shell to run for a request.
pub fn resolve_shell(requested: String) -> (shell: String)
    ensures
        shell@ == shell_for(requested@),
{
    if requested.as_str().is_empty() {
        "/bin/bash".to_owned()
    } else {
        requested
    }
}

/// What a client asks for when it connects.
#[derive(Debug, PartialEq, Eq)]
pub struct SessionRequest {
    /// Name of the terminal, for display only.
    pub name: String,
    /// Path of the shell; empty if the client named none.
    pub shell: String,
    pub rows: u16,
    pub cols: u16,
}

/// What to launch for a request: the command of the child and the window of
/// its terminal.
#[derive(Debug, PartialEq, Eq)]
pub struct Launch {
    pub name: String,
    pub shell: String,
    pub window: WindowSize,
}

/// Turns a request into what is to be launched: the name is kept, the shell
/// defaults, and the window has the rows and columns asked for.
pub fn plan(request: SessionRequest) -> (launch: Launch)
    ensures
        launch.name@ == request.name@,
        launch.shell@ == shell_for(request.shell@),
        launch.window == window_of(request.rows, request.cols),
{
    let size = window(request.rows, request.cols);
    Launch { name: request.name, shell: resolve_shell(request.shell), window: size }
}

/// How the attempt to create the pty and its child ended.
#[derive(Clone, Copy, Debug, PartialEq, Eq)]
pub enum Spawned {
    /// This is the parent: the pty exists and the child runs.
    Parent { master: i32, child: i32 },
    /// This is the child, and the shell could not be started in it.
    ChildExecFailed,
    /// No pty or no process could be had; `os_error` says why.
    Failed { os_error: i32 },
}

/// The pty could not be created. This is fatal for the connection that asked
/// for it, and for nothing else.
#[derive(Clone, Copy, Debug, PartialEq, Eq)]
pub struct PtyCreationError {
    /// The error of the operating system.
    pub os_error: i32,
}

/// How a session starts, or fails to.
#[derive(Debug, PartialEq, Eq)]
pub enum Startup {
    /// The session runs: start the outbound relay and carry out `action`.
    Running { session: Session, action: Action },
    /// There is no session. Close the connection that was accepted, and only
    /// then fail with `error`; the launch is not tried again.
    Refused { error: PtyCreationError },
    /// There is no session, and nothing to close: this process is the child
    /// that could not start its shell.
    Abandoned,
}

/// The mathematical content of a [`Startup`].
pub enum StartupView {
    Running { session: Session, action: ActionView },
    Refused { error: PtyCreationError },
    Abandoned,
}

impl View for Startup {
    type V = StartupView;

    open spec fn view(&self) -> StartupView {
        match self {
            Startup::Running { session, action } => StartupView::Running {
                session: *session,
                action: action@,
            },
            Startup::Refused { error } => StartupView::Refused { error: *error },
            Startup::Abandoned => StartupView::Abandoned,
        }
    }
}

/// What becomes of a launch: in the parent, a session that is active from
/// `now_ms` on and makes its first pass; a refusal that carries the error of
/// the operating system if nothing could be created; and nothing in a child
/// without a shell.
pub open spec fn startup_of(
    spawned: Spawned,
    heartbeat_interval_secs: u64,
    now_ms: u64,
) -> StartupView {
    match spawned {
        Spawned::Parent { master, child } => {
            let (session, action) = next_pass(
                fresh(master, child, heartbeat_interval_secs, now_ms),
                now_ms,
            );
            StartupView::Running { session, action }
        },
        Spawned::ChildExecFailed => StartupView::Abandoned,
        Spawned::Failed { os_error } => StartupView::Refused {
            error: PtyCreationError { os_error },
        },
    }
}

/// Decides how the session starts once the launch has been attempted.
pub fn start(
    spawned: Spawned,
    heartbeat_interval_secs: u64,
    now_ms: u64,
) -> (startup: Startup)
    ensures
        startup@ == startup_of(spawned, heartbeat_interval_secs, now_ms),
{
    match spawned {
        Spawned::Parent { master, child } => {
            let (session, action) = Session::open(master, child, heartbeat_interval_secs, now_ms);
            Startup::Running { session, action }
        },
        Spawned::ChildExecFailed => Startup::Abandoned,
        Spawned::Failed { os_error } => Startup::Refused { error: PtyCreationError { os_error } },
    }
}

} // verus!
