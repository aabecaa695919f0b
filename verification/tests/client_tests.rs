use clientserver::client::{ClientAction, ClientNote, ClientSession, NUM_ITER};
use clientserver::event::{CloseReason, IoEvent};

fn expect_write(action: &ClientAction) -> Vec<u8> {
    match action {
        ClientAction::Write(bytes) => bytes.clone(),
        other => panic!("expected a write, got {:?}", other),
    }
}

#[test]
fn full_session_sends_five_greetings_then_finishes() {
    let (mut session, first) = ClientSession::open();
    assert_eq!(first.notes, vec![ClientNote::Sending]);
    let mut sent = vec![expect_write(&first.action)];
    let mut outcomes = 0;
    loop {
        let msg = sent.last().unwrap().clone();
        let s = session.step(IoEvent::Wrote(msg.len()));
        outcomes += 1;
        assert_eq!(s.notes, vec![ClientNote::Sent]);
        assert_eq!(s.action, ClientAction::Flush);
        let s = session.step(IoEvent::Flushed);
        outcomes += 1;
        assert_eq!(s.notes, vec![ClientNote::Receiving]);
        assert_eq!(s.action, ClientAction::Read);
        let s = session.step(IoEvent::Read(msg.len()));
        outcomes += 1;
        match s.action {
            ClientAction::Write(bytes) => {
                assert_eq!(s.notes, vec![ClientNote::Received(msg.len()), ClientNote::Sending]);
                sent.push(bytes);
            }
            ClientAction::Close(reason) => {
                assert_eq!(reason, CloseReason::Finished);
                assert_eq!(
                    s.notes,
                    vec![ClientNote::Received(msg.len()), ClientNote::ConnectionClosed]
                );
                break;
            }
            other => panic!("unexpected {:?}", other),
        }
    }
    assert!(session.is_closed());
    assert_eq!(outcomes, 3 * NUM_ITER);
    let expected: Vec<Vec<u8>> = ["hello0", "hello1", "hello2", "hello3", "hello4"]
        .iter()
        .map(|s| s.as_bytes().to_vec())
        .collect();
    assert_eq!(sent, expected);
    assert_eq!(session.iteration(), 4);
}

#[test]
fn zero_byte_write_closes() {
    let (mut session, _) = ClientSession::open();
    let s = session.step(IoEvent::Wrote(0));
    assert_eq!(s.action, ClientAction::Close(CloseReason::WriteZero));
    assert_eq!(s.notes, vec![ClientNote::ConnectionClosed]);
    assert!(session.is_closed());
}

#[test]
fn partial_write_still_flushes() {
    let (mut session, _) = ClientSession::open();
    let s = session.step(IoEvent::Wrote(2));
    assert_eq!(s.action, ClientAction::Flush);
}

#[test]
fn client_failures_close_without_closing_line() {
    let (mut a, _) = ClientSession::open();
    let s = a.step(IoEvent::WriteFailed);
    assert_eq!(s.action, ClientAction::Close(CloseReason::WriteError));
    assert_eq!(s.notes, vec![ClientNote::Failed]);

    let (mut b, _) = ClientSession::open();
    b.step(IoEvent::Wrote(6));
    let s = b.step(IoEvent::FlushFailed);
    assert_eq!(s.action, ClientAction::Close(CloseReason::FlushError));
    assert_eq!(s.notes, vec![ClientNote::Failed]);

    let (mut c, _) = ClientSession::open();
    c.step(IoEvent::Wrote(6));
    c.step(IoEvent::Flushed);
    let s = c.step(IoEvent::ReadFailed);
    assert_eq!(s.action, ClientAction::Close(CloseReason::ReadError));
    assert_eq!(s.notes, vec![ClientNote::Failed]);
    assert!(c.is_closed());
}

#[test]
fn server_closing_ends_session() {
    let (mut session, _) = ClientSession::open();
    session.step(IoEvent::Wrote(6));
    session.step(IoEvent::Flushed);
    let s = session.step(IoEvent::Read(0));
    assert_eq!(s.action, ClientAction::Close(CloseReason::PeerClosed));
    assert_eq!(s.notes, vec![ClientNote::ConnectionClosed]);
    assert_eq!(session.iteration(), 0);
}

#[test]
fn second_round_sends_hello1() {
    let (mut session, _) = ClientSession::open();
    session.step(IoEvent::Wrote(6));
    session.step(IoEvent::Flushed);
    let s = session.step(IoEvent::Read(1024));
    assert_eq!(s.action, ClientAction::Write(b"hello1".to_vec()));
    assert_eq!(session.iteration(), 1);
    assert!(!session.is_closed());
}
