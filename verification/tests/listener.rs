use niege::listener::{serve, Attempt, Dispatch, Listener};

#[test]
fn listener_accepts_once_bound() {
    assert_eq!(serve(Listener::Starting, Attempt::Succeeded), (Listener::Accepting, Dispatch::Accept));
}

#[test]
fn listener_aborts_when_it_cannot_bind() {
    assert_eq!(serve(Listener::Starting, Attempt::Failed), (Listener::Aborted, Dispatch::Abort));
    assert_eq!(serve(Listener::Aborted, Attempt::Succeeded), (Listener::Aborted, Dispatch::Abort));
    assert_eq!(serve(Listener::Aborted, Attempt::Failed), (Listener::Aborted, Dispatch::Abort));
}

#[test]
fn listener_spawns_a_handler_for_each_connection() {
    assert_eq!(serve(Listener::Accepting, Attempt::Succeeded), (Listener::Accepting, Dispatch::Spawn));
}

#[test]
fn listener_survives_a_failed_accept() {
    let mut state = serve(Listener::Starting, Attempt::Succeeded).0;
    let mut spawned = 0;
    let mut reported = 0;
    for attempt in [Attempt::Failed, Attempt::Succeeded, Attempt::Failed, Attempt::Failed, Attempt::Succeeded] {
        let (next, dispatch) = serve(state, attempt);
        assert_eq!(next, Listener::Accepting);
        match dispatch {
            Dispatch::Spawn => spawned += 1,
            Dispatch::Report => reported += 1,
            _ => panic!("the listener stopped"),
        }
        state = next;
    }
    assert_eq!((spawned, reported), (2, 3));
}
