use web_terminal::terminal::{
    Completed, PtyWrite, PtyWriteError, Relay, RelayFault, Terminal, IDLE_BACKOFF_MS, OS_ERROR_IO,
    READ_CAPACITY,
};

#[test]
fn relay_limits() {
    assert_eq!(READ_CAPACITY, 1024);
    assert_eq!(IDLE_BACKOFF_MS, 100);
}

fn read(bytes: &[u8]) -> Completed {
    Completed::Read { buffer: bytes.to_vec(), count: bytes.len() }
}

#[test]
fn reader_sends_what_was_read_as_one_frame() {
    let next = Terminal::reader(Relay::Read, read(b"hi\n"));
    assert_eq!(next, Relay::Send(b"hi\n".to_vec()));
}

#[test]
fn reader_sends_only_the_bytes_that_were_read() {
    let mut buffer = vec![0u8; READ_CAPACITY];
    buffer[..3].copy_from_slice(b"hi\n");
    buffer[3..8].copy_from_slice(b"stale");
    let next = Terminal::reader(Relay::Read, Completed::Read { buffer, count: 3 });
    assert_eq!(next, Relay::Send(b"hi\n".to_vec()));
    let full = vec![65u8; READ_CAPACITY];
    let next = Terminal::reader(Relay::Read, Completed::Read { buffer: full.clone(), count: 1024 });
    assert_eq!(next, Relay::Send(full));
}

#[test]
fn reader_never_sends_more_than_the_buffer_holds() {
    let next = Terminal::reader(Relay::Read, Completed::Read { buffer: vec![1, 2], count: 9 });
    assert_eq!(next, Relay::Send(vec![1, 2]));
    let next = Terminal::reader(Relay::Read, Completed::Read { buffer: Vec::new(), count: 9 });
    assert_eq!(next, Relay::Sleep);
}

#[test]
fn reader_keeps_nul_bytes() {
    let bytes = vec![0u8, 104, 0, 105, 0, 0];
    let next = Terminal::reader(Relay::Read, read(&bytes));
    assert_eq!(next, Relay::Send(bytes));
    let next = Terminal::reader(Relay::Read, Completed::Read { buffer: vec![0u8; 16], count: 2 });
    assert_eq!(next, Relay::Send(vec![0, 0]));
}

#[test]
fn reader_sleeps_after_an_empty_read() {
    assert_eq!(Terminal::reader(Relay::Read, read(b"")), Relay::Sleep);
    assert_eq!(
        Terminal::reader(Relay::Read, Completed::Read { buffer: vec![7u8; 1024], count: 0 }),
        Relay::Sleep
    );
    assert_eq!(Terminal::reader(Relay::Read, Completed::WouldBlock), Relay::Sleep);
    assert_eq!(Terminal::reader(Relay::Sleep, Completed::Slept), Relay::Read);
}

#[test]
fn reader_stops_on_a_failed_read() {
    assert_eq!(
        Terminal::reader(Relay::Read, Completed::ReadFailed),
        Relay::Stopped(RelayFault::PtyRead)
    );
}

#[test]
fn reader_reads_again_after_a_send_and_stops_on_a_refused_one() {
    assert_eq!(Terminal::reader(Relay::Send(vec![1, 2, 3]), Completed::Sent), Relay::Read);
    assert_eq!(
        Terminal::reader(Relay::Send(vec![1, 2, 3]), Completed::SendFailed),
        Relay::Stopped(RelayFault::TransportSend)
    );
}

#[test]
fn reader_stays_stopped() {
    for fault in [RelayFault::PtyRead, RelayFault::TransportSend] {
        assert_eq!(
            Terminal::reader(Relay::Stopped(fault), read(&[7])),
            Relay::Stopped(fault)
        );
        assert_eq!(Terminal::reader(Relay::Stopped(fault), Completed::Sent), Relay::Stopped(fault));
        assert_eq!(
            Terminal::reader(Relay::Stopped(fault), Completed::Slept),
            Relay::Stopped(fault)
        );
        assert_eq!(
            Terminal::reader(Relay::Stopped(fault), Completed::WouldBlock),
            Relay::Stopped(fault)
        );
    }
}

#[test]
fn reader_passes_over_reports_that_answer_nothing() {
    assert_eq!(Terminal::reader(Relay::Read, Completed::Sent), Relay::Read);
    assert_eq!(Terminal::reader(Relay::Read, Completed::SendFailed), Relay::Read);
    assert_eq!(Terminal::reader(Relay::Read, Completed::Slept), Relay::Read);
    assert_eq!(Terminal::reader(Relay::Send(vec![9]), read(&[1])), Relay::Send(vec![9]));
    assert_eq!(Terminal::reader(Relay::Send(vec![9]), Completed::ReadFailed), Relay::Send(vec![9]));
    assert_eq!(Terminal::reader(Relay::Sleep, read(&[1])), Relay::Sleep);
    assert_eq!(Terminal::reader(Relay::Sleep, Completed::SendFailed), Relay::Sleep);
}

#[test]
fn relay_delivers_every_byte_in_order() {
    let chunks: Vec<Vec<u8>> = vec![
        b"total 0\r\n".to_vec(),
        Vec::new(),
        vec![0, 27, 91, 48, 109],
        b"$ ".to_vec(),
    ];
    let mut read: Vec<u8> = Vec::new();
    let mut sent: Vec<u8> = Vec::new();
    let mut frames = 0;
    let mut relay = Relay::Read;
    for chunk in chunks {
        assert_eq!(relay, Relay::Read);
        read.extend_from_slice(&chunk);
        let mut buffer = chunk.clone();
        buffer.resize(READ_CAPACITY, 0xAA);
        relay = Terminal::reader(relay, Completed::Read { buffer, count: chunk.len() });
        relay = match relay {
            Relay::Send(bytes) => {
                sent.extend_from_slice(&bytes);
                frames += 1;
                Terminal::reader(Relay::Send(bytes), Completed::Sent)
            }
            Relay::Sleep => Terminal::reader(Relay::Sleep, Completed::Slept),
            other => panic!("unexpected {:?}", other),
        };
    }
    assert_eq!(relay, Relay::Read);
    assert_eq!(sent, read);
    assert_eq!(frames, 3);
}

#[test]
fn writer_writes_then_flushes_then_succeeds() {
    assert_eq!(Terminal::writer(PtyWrite::Write, Ok(())), PtyWrite::Flush);
    assert_eq!(Terminal::writer(PtyWrite::Flush, Ok(())), PtyWrite::Done(Ok(true)));
}

#[test]
fn writer_ends_with_the_first_failure() {
    let transient = PtyWriteError { pty_gone: false };
    let gone = PtyWriteError { pty_gone: true };
    assert_eq!(Terminal::writer(PtyWrite::Write, Err(transient)), PtyWrite::Done(Err(transient)));
    assert_eq!(Terminal::writer(PtyWrite::Write, Err(gone)), PtyWrite::Done(Err(gone)));
    assert_eq!(Terminal::writer(PtyWrite::Flush, Err(transient)), PtyWrite::Done(Err(transient)));
    assert_eq!(Terminal::writer(PtyWrite::Flush, Err(gone)), PtyWrite::Done(Err(gone)));
}

#[test]
fn writer_keeps_its_result() {
    let gone = PtyWriteError { pty_gone: true };
    assert_eq!(Terminal::writer(PtyWrite::Done(Ok(true)), Err(gone)), PtyWrite::Done(Ok(true)));
    assert_eq!(Terminal::writer(PtyWrite::Done(Ok(true)), Ok(())), PtyWrite::Done(Ok(true)));
    assert_eq!(Terminal::writer(PtyWrite::Done(Err(gone)), Ok(())), PtyWrite::Done(Err(gone)));
}

#[test]
fn terminal_can_be_shown() {
    assert_eq!(format!("{:?}", Terminal), "Terminal");
}

#[test]
fn input_output_error_means_the_pty_is_gone() {
    assert_eq!(OS_ERROR_IO, 5);
    assert_eq!(PtyWriteError::from_os_error(Some(5)), PtyWriteError { pty_gone: true });
}

#[test]
fn other_write_errors_leave_the_pty() {
    assert_eq!(PtyWriteError::from_os_error(None), PtyWriteError { pty_gone: false });
    assert_eq!(PtyWriteError::from_os_error(Some(0)), PtyWriteError { pty_gone: false });
    assert_eq!(PtyWriteError::from_os_error(Some(4)), PtyWriteError { pty_gone: false });
    assert_eq!(PtyWriteError::from_os_error(Some(11)), PtyWriteError { pty_gone: false });
    assert_eq!(PtyWriteError::from_os_error(Some(-5)), PtyWriteError { pty_gone: false });
    assert_eq!(PtyWriteError::from_os_error(Some(i32::MAX)), PtyWriteError { pty_gone: false });
}
