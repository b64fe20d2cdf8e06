//! The two sides of the pseudo-terminal master: the outbound relay, which
//! drains it towards the network sink, and the write of client input into
//! it. Both are given as steps: the caller carries out one device operation
//! and reports how it ended; the step says which operation comes next.

use vstd::prelude::*;

verus! {

/// Largest number of bytes that one read of the pty master asks for.
pub const READ_CAPACITY: usize = 1024;

/// Pause of the outbound relay after a read that found nothing, in
/// milliseconds.
pub const IDLE_BACKOFF_MS: u64 = 100;

/// Why the outbound relay stopped for good.
#[derive(Clone, Copy, Debug, PartialEq, Eq)]
pub enum RelayFault {
    /// Reading the pty master failed with something other than "would block".
    PtyRead,
    /// The network sink refused a frame: it is closed or broken.
    TransportSend,
}

/// The operation that the outbound relay is to carry out next.
#[derive(Debug, PartialEq, Eq)]
pub enum Relay {
    /// Read at most [`READ_CAPACITY`] bytes from the pty master.
    Read,
    /// Take exclusive access to the sink, send these bytes as one binary
    /// frame, and release the sink.
    Send(Vec<u8>),
    /// Sleep for [`IDLE_BACKOFF_MS`] milliseconds.
    Sleep,
    /// The relay has stopped and asks for nothing more.
    Stopped(RelayFault),
}

/// The mathematical content of a [`Relay`].
pub enum RelayView {
    Read,
    Send(Seq<u8>),
    Sleep,
    Stopped(RelayFault),
}

impl View for Relay {
    type V = RelayView;

    open spec fn view(&self) -> RelayView {
        match self {
            Relay::Read => RelayView::Read,
            Relay::Send(bytes) => RelayView::Send(bytes@),
            Relay::Sleep => RelayView::Sleep,
            Relay::Stopped(fault) => RelayView::Stopped(*fault),
        }
    }
}

/// How an operation of the outbound relay ended.
#[derive(Debug, PartialEq, Eq)]
pub enum Completed {
    /// The read put `count` bytes at the front of `buffer`, possibly none.
    Read { buffer: Vec<u8>, count: usize },
    /// The read found no data available.
    WouldBlock,
    /// The read failed.
    ReadFailed,
    /// The frame was handed to the sink.
    Sent,
    /// The sink refused the frame.
    SendFailed,
    /// The pause is over.
    Slept,
}

/// The bytes that a read has brought: the first `count` of its buffer, and
/// never more than the buffer holds.
pub open spec fn bytes_read(buffer: Seq<u8>, count: usize) -> Seq<u8> {
    if count <= buffer.len() {
        buffer.subrange(0, count as int)
    } else {
        buffer
    }
}

/// The mathematical content of a [`Completed`]. Of a read it keeps the bytes
/// that were read, and nothing of the rest of the buffer.
pub enum CompletedView {
    Read(Seq<u8>),
    WouldBlock,
    ReadFailed,
    Sent,
    SendFailed,
    Slept,
}

impl View for Completed {
    type V = CompletedView;

    open spec fn view(&self) -> CompletedView {
        match self {
            Completed::Read { buffer, count } => CompletedView::Read(bytes_read(buffer@, *count)),
            Completed::WouldBlock => CompletedView::WouldBlock,
            Completed::ReadFailed => CompletedView::ReadFailed,
            Completed::Sent => CompletedView::Sent,
            Completed::SendFailed => CompletedView::SendFailed,
            Completed::Slept => CompletedView::Slept,
        }
    }
}

/// The operation that follows `pending` once it has ended as `done`.
///
/// Bytes that were read are sent unchanged as one frame; a read that found
/// nothing is followed by a pause; a failed read or a failed send stops the
/// relay, and a stopped relay stays stopped. A report that does not answer
/// the pending operation changes nothing.
pub open spec fn relay_next(pending: RelayView, done: CompletedView) -> RelayView {
    match pending {
        RelayView::Read => match done {
            CompletedView::Read(bytes) => if bytes.len() > 0 {
                RelayView::Send(bytes)
            } else {
                RelayView::Sleep
            },
            CompletedView::WouldBlock => RelayView::Sleep,
            CompletedView::ReadFailed => RelayView::Stopped(RelayFault::PtyRead),
            _ => pending,
        },
        RelayView::Send(_) => match done {
            CompletedView::Sent => RelayView::Read,
            CompletedView::SendFailed => RelayView::Stopped(RelayFault::TransportSend),
            _ => pending,
        },
        RelayView::Sleep => match done {
            CompletedView::Slept => RelayView::Read,
            _ => pending,
        },
        RelayView::Stopped(_) => pending,
    }
}

/// The error number with which the operating system answers a write to a
/// pty master whose other side is closed: an input/output error.
pub const OS_ERROR_IO: i32 = 5;

/// A failed write to the pty master.
#[derive(Clone, Copy, Debug, PartialEq, Eq)]
pub struct PtyWriteError {
    /// The pty itself is gone; no later write can succeed.
    pub pty_gone: bool,
}

impl PtyWriteError {
    /// The failure that an error of the operating system stands for: the pty
    /// is gone if the error number is [`OS_ERROR_IO`], and not otherwise, nor
    /// when the error has no number.
    pub open spec fn of(os_error: Option<i32>) -> PtyWriteError {
        PtyWriteError { pty_gone: os_error == Some(OS_ERROR_IO) }
    }

    /// Tells from the error number of a failed write whether the pty is gone.
    pub fn from_os_error(os_error: Option<i32>) -> (error: PtyWriteError)
        ensures
            error == PtyWriteError::of(os_error),
    {
        match os_error {
            Some(number) => PtyWriteError { pty_gone: number == OS_ERROR_IO },
            None => PtyWriteError { pty_gone: false },
        }
    }
}

/// The operation that a write of client input is to carry out next.
#[derive(Clone, Copy, Debug, PartialEq, Eq)]
pub enum PtyWrite {
    /// Write all the bytes to the pty master.
    Write,
    /// Flush the pty master, so that the input reaches the child at once.
    Flush,
    /// The write is over, with this result.
    Done(Result<bool, PtyWriteError>),
}

/// The operation that follows `pending` once it has ended as `outcome`.
///
/// The bytes are written, then flushed; the first failure ends the write
/// with that error, and a write that was flushed ends with `Ok(true)`.
pub open spec fn write_next(pending: PtyWrite, outcome: Result<(), PtyWriteError>) -> PtyWrite {
    match pending {
        PtyWrite::Write => match outcome {
            Ok(_) => PtyWrite::Flush,
            Err(error) => PtyWrite::Done(Err(error)),
        },
        PtyWrite::Flush => match outcome {
            Ok(_) => PtyWrite::Done(Ok(true)),
            Err(error) => PtyWrite::Done(Err(error)),
        },
        PtyWrite::Done(_) => pending,
    }
}

/// The pseudo-terminal master as the bridge sees it.
#[derive(Debug)]
pub struct Terminal;

impl Terminal {
    /// One step of the outbound relay, which starts at [`Relay::Read`]: given
    /// the operation that was pending and how it ended, the operation to
    /// carry out next.
    pub fn reader(pending: Relay, done: Completed) -> (next: Relay)
        ensures
            next@ == relay_next(pending@, done@),
    {
        match pending {
            Relay::Read => match done {
                Completed::Read { buffer, count } => {
                    let mut bytes = buffer;
                    bytes.truncate(count);
                    if bytes.len() > 0 {
                        Relay::Send(bytes)
                    } else {
                        Relay::Sleep
                    }
                },
                Completed::WouldBlock => Relay::Sleep,
                Completed::ReadFailed => Relay::Stopped(RelayFault::PtyRead),
                _ => Relay::Read,
            },
            Relay::Send(bytes) => match done {
                Completed::Sent => Relay::Read,
                Completed::SendFailed => Relay::Stopped(RelayFault::TransportSend),
                _ => Relay::Send(bytes),
            },
            Relay::Sleep => match done {
                Completed::Slept => Relay::Read,
                _ => Relay::Sleep,
            },
            Relay::Stopped(fault) => Relay::Stopped(fault),
        }
    }

    /// One step of a write of client input, which starts at
    /// [`PtyWrite::Write`]: given the operation that was pending and how it
    /// ended, the operation to carry out next.
    pub fn writer(pending: PtyWrite, outcome: Result<(), PtyWriteError>) -> (next: PtyWrite)
        ensures
            next == write_next(pending, outcome),
    {
        match pending {
            PtyWrite::Write => match outcome {
                Ok(_) => PtyWrite::Flush,
                Err(error) => PtyWrite::Done(Err(error)),
            },
            PtyWrite::Flush => match outcome {
                Ok(_) => PtyWrite::Done(Ok(true)),
                Err(error) => PtyWrite::Done(Err(error)),
            },
            PtyWrite::Done(result) => PtyWrite::Done(result),
        }
    }
}

} // verus!
