use clientserver::echo::{EchoAction, EchoNote, EchoSession};
use clientserver::event::{CloseReason, IoEvent, BUFFER_SIZE};

#[test]
fn open_announces_and_reads() {
    let (session, first) = EchoSession::open(7);
    assert_eq!(first.notes, vec![EchoNote::ConnectionOpen, EchoNote::Receiving]);
    assert_eq!(first.action, EchoAction::Read);
    assert_eq!(session.index(), 7);
    assert!(!session.is_closed());
}

#[test]
fn echoes_each_read_back() {
    let (mut session, _) = EchoSession::open(0);
    let mut written = Vec::new();
    for n in [6usize, 1, BUFFER_SIZE, 3] {
        let s = session.step(IoEvent::Read(n));
        assert_eq!(s.notes, vec![EchoNote::Received(n), EchoNote::Sending]);
        match s.action {
            EchoAction::Write { len } => written.push(len),
            other => panic!("unexpected {:?}", other),
        }
        let s = session.step(IoEvent::Wrote(n));
        assert_eq!(s.notes, vec![EchoNote::Sent(n)]);
        assert_eq!(s.action, EchoAction::Flush);
        let s = session.step(IoEvent::Flushed);
        assert_eq!(s.notes, vec![EchoNote::Receiving]);
        assert_eq!(s.action, EchoAction::Read);
    }
    assert_eq!(written, vec![6, 1, BUFFER_SIZE, 3]);
}

#[test]
fn end_of_stream_closes_with_eof_line() {
    let (mut session, _) = EchoSession::open(3);
    let s = session.step(IoEvent::Read(0));
    assert_eq!(s.notes, vec![EchoNote::Eof, EchoNote::ConnectionClosed]);
    assert_eq!(s.action, EchoAction::Close(CloseReason::PeerClosed));
    assert!(session.is_closed());
    assert_eq!(session.index(), 3);
}

#[test]
fn partial_write_reports_what_was_sent() {
    let (mut session, _) = EchoSession::open(1);
    session.step(IoEvent::Read(10));
    let s = session.step(IoEvent::Wrote(4));
    assert_eq!(s.notes, vec![EchoNote::Sent(4)]);
    assert_eq!(s.action, EchoAction::Flush);
}

#[test]
fn zero_write_closes() {
    let (mut session, _) = EchoSession::open(1);
    session.step(IoEvent::Read(10));
    let s = session.step(IoEvent::Wrote(0));
    assert_eq!(s.notes, vec![EchoNote::ConnectionClosed]);
    assert_eq!(s.action, EchoAction::Close(CloseReason::WriteZero));
}

#[test]
fn echo_failures_close_without_closing_line() {
    let (mut a, _) = EchoSession::open(0);
    let s = a.step(IoEvent::ReadFailed);
    assert_eq!(s.notes, vec![EchoNote::Failed]);
    assert_eq!(s.action, EchoAction::Close(CloseReason::ReadError));

    let (mut b, _) = EchoSession::open(0);
    b.step(IoEvent::Read(2));
    let s = b.step(IoEvent::WriteFailed);
    assert_eq!(s.notes, vec![EchoNote::Failed]);
    assert_eq!(s.action, EchoAction::Close(CloseReason::WriteError));

    let (mut c, _) = EchoSession::open(0);
    c.step(IoEvent::Read(2));
    c.step(IoEvent::Wrote(2));
    let s = c.step(IoEvent::FlushFailed);
    assert_eq!(s.notes, vec![EchoNote::Failed]);
    assert_eq!(s.action, EchoAction::Close(CloseReason::FlushError));
    assert!(c.is_closed());
}
