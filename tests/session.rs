use wsalive::codec::{CloseReason, Event, Frame};
use wsalive::session::{Outcome, SessionState, WebSocket};

fn quiet() -> Outcome {
    Outcome { reply: None, stop: false }
}

#[test]
fn new_session_is_open_and_fresh() {
    let s = WebSocket::new(42);
    assert_eq!(s.state(), SessionState::Open);
    assert_eq!(s.last_activity(), 42);
    assert_eq!(s.unanswered_probes(), 0);
}

#[test]
fn ping_at_start_gets_pong() {
    let mut s = WebSocket::new(0);
    let out = s.handle(Event::Ping(b"".to_vec()), 0, "t");
    assert_eq!(out, Outcome { reply: Some(Event::Pong(b"".to_vec())), stop: false });
    assert_eq!(s.last_activity(), 0);
    assert_eq!(s.unanswered_probes(), 0);
    assert_eq!(s.state(), SessionState::Open);
}

#[test]
fn ping_payload_is_echoed_in_pong() {
    let mut s = WebSocket::new(0);
    let out = s.handle(Event::Ping(vec![1, 2, 3]), 5, "t");
    assert_eq!(out.reply, Some(Event::Pong(vec![1, 2, 3])));
    assert_eq!(s.last_activity(), 5);
}

#[test]
fn pong_resets_probes_and_advances_activity() {
    let mut s = WebSocket::new(0);
    for t in [5000u64, 10000] {
        let out = s.hb(t, true);
        assert_eq!(out.reply, Some(Event::Ping(vec![])));
    }
    assert_eq!(s.unanswered_probes(), 2);
    let out = s.handle(Event::Pong(vec![]), 10500, "t");
    assert_eq!(out, quiet());
    assert_eq!(s.unanswered_probes(), 0);
    assert_eq!(s.last_activity(), 10500);
}

#[test]
fn activity_never_goes_backwards() {
    let mut s = WebSocket::new(1000);
    s.handle(Event::Pong(vec![]), 400, "t");
    assert_eq!(s.last_activity(), 1000);
    assert_eq!(s.unanswered_probes(), 0);
}

#[test]
fn text_is_echoed_with_timestamp() {
    let mut s = WebSocket::new(0);
    let out = s.handle(Event::Text("hello".to_string()), 0, "2024-01-01 00:00:00");
    assert_eq!(out.reply, Some(Event::Text("[2024-01-01 00:00:00]: hello".to_string())));
    assert!(!out.stop);
    assert_eq!(s.last_activity(), 0);
    s.handle(Event::Text("again".to_string()), 700, "x");
    assert_eq!(s.last_activity(), 700);
}

#[test]
fn received_text_carries_the_local_time() {
    let mut s = WebSocket::new(0);
    let out = s.receive(Event::Text("hello".to_string()), 3);
    match out.reply {
        Some(Event::Text(t)) => {
            assert!(t.starts_with('['));
            assert!(t.ends_with("]: hello"));
            assert!(t.len() > "[]: hello".len());
        }
        other => panic!("unexpected reply {:?}", other),
    }
    assert_eq!(s.last_activity(), 3);
}

#[test]
fn binary_is_echoed_unchanged() {
    let mut s = WebSocket::new(0);
    let out = s.handle(Event::Binary(vec![0, 1, 254]), 9, "t");
    assert_eq!(out, Outcome { reply: Some(Event::Binary(vec![0, 1, 254])), stop: false });
    assert_eq!(s.last_activity(), 9);
}

#[test]
fn silence_closes_by_eleven_seconds() {
    let mut s = WebSocket::new(0);
    let mut closed_at = None;
    for t in 1..=11u64 {
        let out = s.tick(t * 1000);
        if out.stop {
            closed_at = Some(t * 1000);
            break;
        }
    }
    assert_eq!(closed_at, Some(11000));
    assert_eq!(s.state(), SessionState::Closing);
}

#[test]
fn ticks_probe_on_the_heartbeat() {
    let mut s = WebSocket::new(0);
    assert!(!s.probe_due(4999));
    assert!(s.probe_due(5000));
    assert_eq!(s.tick(1000), quiet());
    assert_eq!(s.tick(5000).reply, Some(Event::Ping(vec![])));
    assert_eq!(s.unanswered_probes(), 1);
    assert_eq!(s.tick(6000), quiet());
    assert!(!s.probe_due(9999));
}

#[test]
fn probe_budget_closes_after_37_unanswered() {
    let mut s = WebSocket::new(0);
    for i in 0..37u32 {
        assert_eq!(s.unanswered_probes(), i);
        let out = s.hb(0, true);
        assert_eq!(out, Outcome { reply: Some(Event::Ping(vec![])), stop: false });
        assert_eq!(s.state(), SessionState::Open);
    }
    assert_eq!(s.unanswered_probes(), 37);
    let out = s.hb(0, true);
    assert_eq!(out, Outcome { reply: None, stop: true });
    assert_eq!(s.state(), SessionState::Closing);
}

#[test]
fn close_frame_closes_at_once() {
    let mut s = WebSocket::new(0);
    s.hb(5000, true);
    let reason = Some(CloseReason { code: 1000, description: None });
    let out = s.handle(Event::Close(reason.clone()), 6000, "t");
    assert_eq!(out, Outcome { reply: Some(Event::Close(reason)), stop: true });
    assert_eq!(s.state(), SessionState::Closing);
    assert_eq!(s.tick(10000), quiet());
    assert_eq!(s.hb(10000, true), quiet());
    assert_eq!(s.unanswered_probes(), 1);
}

#[test]
fn protocol_error_closes_without_reply() {
    let mut s = WebSocket::new(0);
    let out = s.handle(Event::ProtocolError, 1, "t");
    assert_eq!(out, Outcome { reply: None, stop: true });
    assert_eq!(s.state(), SessionState::Closing);
}

#[test]
fn closed_session_ignores_everything() {
    let mut s = WebSocket::new(0);
    s.finish();
    assert_eq!(s.state(), SessionState::Open);
    s.handle(Event::Close(None), 100, "t");
    s.finish();
    assert_eq!(s.state(), SessionState::Closed);
    let events = vec![
        Event::Ping(vec![1]),
        Event::Pong(vec![]),
        Event::Text("x".to_string()),
        Event::Binary(vec![2]),
        Event::Close(None),
        Event::ProtocolError,
    ];
    for e in events {
        assert_eq!(s.handle(e, 20000, "t"), quiet());
        assert_eq!(s.state(), SessionState::Closed);
        assert_eq!(s.last_activity(), 0);
    }
    assert_eq!(s.tick(50000), quiet());
    assert_eq!(s.hb(50000, true), quiet());
    s.finish();
    assert_eq!(s.state(), SessionState::Closed);
    assert_eq!(s.unanswered_probes(), 0);
}

#[test]
fn dispatch_runs_frames_through_the_session() {
    let mut s = WebSocket::new(0);
    assert_eq!(s.dispatch(Frame::Ping(vec![7]), 10), (Some(Frame::Pong(vec![7])), false));
    assert_eq!(s.dispatch(Frame::Binary(vec![1]), 20), (Some(Frame::Binary(vec![1])), false));
    assert_eq!(s.last_activity(), 20);
    assert_eq!(s.dispatch(Frame::Nop, 30), (None, true));
    assert_eq!(s.state(), SessionState::Closing);
    assert_eq!(s.dispatch(Frame::Ping(vec![]), 40), (None, false));
}
