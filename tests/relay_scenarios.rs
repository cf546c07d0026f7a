use tsuna::credentials::Credentials;
use tsuna::error::TsunaLoopError;
use tsuna::message::Message;
use tsuna::relay::{Action, Event, Phase, Relay};

fn creds() -> Credentials {
    Credentials { secret: "s3".to_string(), device_id: "dev1".to_string() }
}

fn msg(id: i64, priority: i64) -> Message {
    Message {
        id,
        title: format!("t{id}"),
        body: format!("b{id}"),
        icon: "bell".to_string(),
        priority,
    }
}

fn step(r: &mut Relay, e: Event) -> Action {
    assert!(r.expects(&e));
    r.step(e)
}

fn connected_and_reading(r: &mut Relay) {
    match step(r, Event::Connected) {
        Action::SendLogin(f) => assert_eq!(f, "login:dev1:s3\n"),
        other => panic!("unexpected {other:?}"),
    }
    assert!(matches!(step(r, Event::Authenticated), Action::ReadFrame));
}

#[test]
fn connect_failures_back_off_then_reset_on_auth() {
    let mut r = Relay::new(creds());
    let mut waits = Vec::new();
    for _ in 0..3 {
        match step(&mut r, Event::Failed(TsunaLoopError::Transport)) {
            Action::WaitThenConnect(d) => waits.push(d),
            other => panic!("unexpected {other:?}"),
        }
        assert_eq!(r.phase, Phase::Connecting);
    }
    assert_eq!(waits, vec![10, 20, 30]);
    assert_eq!(r.backoff.current_secs(), 40);
    // Connecting alone does not reset the delay.
    assert!(matches!(step(&mut r, Event::Connected), Action::SendLogin(_)));
    assert_eq!(r.backoff.current_secs(), 40);
    assert!(matches!(step(&mut r, Event::Authenticated), Action::ReadFrame));
    assert_eq!(r.backoff.current_secs(), 10);
    assert_eq!(r.phase, Phase::Reading);
    assert!(matches!(step(&mut r, Event::Received("#".to_string())), Action::ReadFrame));
}

#[test]
fn keepalives_drain_then_abort() {
    let mut r = Relay::new(creds());
    connected_and_reading(&mut r);
    assert!(matches!(step(&mut r, Event::Received("#".to_string())), Action::ReadFrame));
    assert!(matches!(step(&mut r, Event::Received("#".to_string())), Action::ReadFrame));
    assert!(matches!(step(&mut r, Event::Received("!".to_string())), Action::FetchMessages));
    match step(&mut r, Event::Fetched(Some(vec![msg(42, 0), msg(17, -1)]))) {
        Action::Show(b) => assert_eq!(b.iter().map(|m| m.id).collect::<Vec<_>>(), vec![42, 17]),
        other => panic!("unexpected {other:?}"),
    }
    assert!(matches!(step(&mut r, Event::Shown), Action::Acknowledge(42)));
    assert!(matches!(step(&mut r, Event::Acknowledged), Action::FetchMessages));
    assert!(matches!(step(&mut r, Event::Fetched(None)), Action::ReadFrame));
    assert!(matches!(
        step(&mut r, Event::Received("A".to_string())),
        Action::Stop(TsunaLoopError::Abort)
    ));
    assert!(r.is_stopped());
    assert!(!r.expects(&Event::Failed(TsunaLoopError::Transport)));
    assert!(!r.expects(&Event::Connected));
}

#[test]
fn drain_acknowledges_max_of_each_batch() {
    let mut r = Relay::new(creds());
    connected_and_reading(&mut r);
    assert!(matches!(step(&mut r, Event::Received("!".to_string())), Action::FetchMessages));
    let mut acks = Vec::new();
    let batches = vec![vec![msg(5, 0), msg(7, 0)], vec![msg(9, 0)]];
    for b in batches {
        assert!(matches!(step(&mut r, Event::Fetched(Some(b))), Action::Show(_)));
        match step(&mut r, Event::Shown) {
            Action::Acknowledge(m) => acks.push(m),
            other => panic!("unexpected {other:?}"),
        }
        assert!(matches!(step(&mut r, Event::Acknowledged), Action::FetchMessages));
    }
    assert!(matches!(step(&mut r, Event::Fetched(None)), Action::ReadFrame));
    assert_eq!(acks, vec![7, 9]);
    assert_eq!(r.phase, Phase::Reading);
}

#[test]
fn drain_on_empty_fetch_acknowledges_nothing() {
    let mut r = Relay::new(creds());
    connected_and_reading(&mut r);
    for _ in 0..2 {
        assert!(matches!(step(&mut r, Event::Received("!".to_string())), Action::FetchMessages));
        assert!(matches!(step(&mut r, Event::Fetched(None)), Action::ReadFrame));
        assert_eq!(r.phase, Phase::Reading);
    }
    assert!(matches!(step(&mut r, Event::Received("!".to_string())), Action::FetchMessages));
    assert!(matches!(step(&mut r, Event::Fetched(Some(Vec::new()))), Action::ReadFrame));
}

#[test]
fn batch_max_id_not_last_and_negative_ids() {
    let mut r = Relay::new(creds());
    connected_and_reading(&mut r);
    step(&mut r, Event::Received("!".to_string()));
    step(&mut r, Event::Fetched(Some(vec![msg(-3, 0), msg(-8, 0)])));
    assert!(matches!(step(&mut r, Event::Shown), Action::Acknowledge(-3)));
}

#[test]
fn timeouts_and_upstream_errors_keep_delay() {
    let mut r = Relay::new(creds());
    step(&mut r, Event::Failed(TsunaLoopError::Other));
    step(&mut r, Event::Failed(TsunaLoopError::Api));
    assert_eq!(r.backoff.current_secs(), 30);
    assert!(matches!(step(&mut r, Event::Failed(TsunaLoopError::ReadTimeout)), Action::Connect));
    assert_eq!(r.backoff.current_secs(), 30);
    assert!(matches!(step(&mut r, Event::Failed(TsunaLoopError::Error)), Action::Connect));
    assert_eq!(r.backoff.current_secs(), 30);
    step(&mut r, Event::Connected);
    assert_eq!(r.backoff.current_secs(), 30);
    // An `E` frame arrives only after authentication, which resets the delay.
    step(&mut r, Event::Authenticated);
    step(&mut r, Event::Failed(TsunaLoopError::CacheWrite));
    assert_eq!(r.backoff.current_secs(), 20);
    step(&mut r, Event::Connected);
    step(&mut r, Event::Authenticated);
    assert_eq!(r.backoff.current_secs(), 10);
    assert!(matches!(step(&mut r, Event::Received("E".to_string())), Action::Connect));
    assert_eq!(r.backoff.current_secs(), 10);
    assert_eq!(r.phase, Phase::Connecting);
}

#[test]
fn only_abort_stops_the_relay() {
    let kinds = [
        TsunaLoopError::ReadTimeout,
        TsunaLoopError::Transport,
        TsunaLoopError::Error,
        TsunaLoopError::Api,
        TsunaLoopError::CacheWrite,
        TsunaLoopError::Other,
    ];
    let mut r = Relay::new(creds());
    for _ in 0..10 {
        for k in kinds {
            let a = step(&mut r, Event::Failed(k));
            assert!(matches!(a, Action::Connect | Action::WaitThenConnect(_)));
            assert!(!r.is_stopped());
        }
    }
    assert_eq!(r.backoff.current_secs(), 60);
    assert!(matches!(
        step(&mut r, Event::Failed(TsunaLoopError::Abort)),
        Action::Stop(TsunaLoopError::Abort)
    ));
    assert!(r.is_stopped());
}

#[test]
fn unknown_frames_are_ignored_and_close_reconnects() {
    let mut r = Relay::new(creds());
    connected_and_reading(&mut r);
    for f in ["", "!!", "x", "login", "a", "e"] {
        assert!(matches!(step(&mut r, Event::Received(f.to_string())), Action::ReadFrame));
        assert_eq!(r.phase, Phase::Reading);
    }
    assert!(matches!(step(&mut r, Event::Closed), Action::WaitThenConnect(10)));
    assert!(!r.is_stopped());
    assert_eq!(r.phase, Phase::Connecting);
    assert_eq!(r.backoff.current_secs(), 20);
    connected_and_reading(&mut r);
    assert!(matches!(step(&mut r, Event::Closed), Action::WaitThenConnect(10)));
}

#[test]
fn events_out_of_phase_are_not_expected() {
    let r = Relay::new(creds());
    assert!(r.expects(&Event::Connected));
    assert!(!r.expects(&Event::Authenticated));
    assert!(!r.expects(&Event::Received("!".to_string())));
    assert!(!r.expects(&Event::Shown));
    assert!(!r.expects(&Event::Acknowledged));
    assert!(!r.expects(&Event::Fetched(None)));
    assert!(!r.expects(&Event::Closed));
    assert!(r.expects(&Event::Failed(TsunaLoopError::Transport)));
}
