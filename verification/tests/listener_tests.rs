use clientserver::listener::{AcceptEvent, AcceptPolicy, Listener, ListenerAction};

#[test]
fn connections_are_numbered_from_zero() {
    let mut listener = Listener::new(AcceptPolicy::WarnAndContinue);
    assert_eq!(listener.next_index(), 0);
    let mut served = Vec::new();
    for e in [
        AcceptEvent::Accepted,
        AcceptEvent::Failed,
        AcceptEvent::Accepted,
        AcceptEvent::Accepted,
    ] {
        match listener.on_accept(e) {
            ListenerAction::Serve { index } => served.push(index),
            ListenerAction::Warn => assert_eq!(e, AcceptEvent::Failed),
            other => panic!("unexpected {:?}", other),
        }
    }
    assert_eq!(served, vec![0, 1, 2]);
    assert_eq!(listener.next_index(), 3);
    assert!(!listener.is_stopped());
}

#[test]
fn stopping_listener_stops_at_first_failure() {
    let mut listener = Listener::new(AcceptPolicy::Stop);
    assert_eq!(listener.on_accept(AcceptEvent::Accepted), ListenerAction::Serve { index: 0 });
    assert_eq!(listener.on_accept(AcceptEvent::Failed), ListenerAction::Stop);
    assert!(listener.is_stopped());
    assert_eq!(listener.next_index(), 1);
}
