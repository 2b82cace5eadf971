use kronos_server::session::{response_for, Incoming, Reply, Session, SessionState, RESPONSE_PREFIX};

fn text(s: &str) -> Incoming {
    Incoming::Text(s.to_string())
}

#[test]
fn response_is_prefix_then_payload() {
    assert_eq!(response_for("ping"), "Message reçu : ping");
    assert_eq!(response_for(""), "Message reçu : ");
    assert_eq!(response_for("héllo wörld"), "Message reçu : héllo wörld");
    assert_eq!(RESPONSE_PREFIX, "Message reçu : ");
}

#[test]
fn ping_then_close_in_dev() {
    let mut s = Session::new();
    assert_eq!(s.state(), SessionState::AwaitingMessage);
    assert_eq!(s.handle(text("ping")), Reply::Send("Message reçu : ping".to_string()));
    assert_eq!(s.on_sent(true), Reply::Wait);
    assert_eq!(s.handle(Incoming::Close), Reply::Stop);
    assert!(s.is_closed());
    assert_eq!(s.handle(text("late")), Reply::Stop);
    assert!(s.is_closed());
}

#[test]
fn n_messages_give_n_answers_in_order() {
    let mut s = Session::new();
    let payloads = ["a", "bb", "", "ccc", "zz top"];
    let mut answers: Vec<String> = Vec::new();
    for p in payloads.iter() {
        match s.handle(text(p)) {
            Reply::Send(t) => answers.push(t),
            other => panic!("unexpected {:?}", other),
        }
        assert_eq!(s.on_sent(true), Reply::Wait);
    }
    assert_eq!(answers.len(), payloads.len());
    for (a, p) in answers.iter().zip(payloads.iter()) {
        assert_eq!(*a, format!("Message reçu : {}", p));
    }
    assert_eq!(s.state(), SessionState::AwaitingMessage);
}

#[test]
fn error_ends_session() {
    let mut s = Session::new();
    assert_eq!(s.handle(Incoming::Error), Reply::Stop);
    assert!(s.is_closed());
    assert_eq!(s.handle(Incoming::Other), Reply::Stop);
}

#[test]
fn other_frames_are_ignored() {
    let mut s = Session::new();
    assert_eq!(s.handle(Incoming::Other), Reply::Wait);
    assert_eq!(s.state(), SessionState::AwaitingMessage);
    assert_eq!(s.handle(text("x")), Reply::Send("Message reçu : x".to_string()));
}

#[test]
fn failed_send_ends_session() {
    let mut s = Session::new();
    assert_eq!(s.handle(text("x")), Reply::Send("Message reçu : x".to_string()));
    assert_eq!(s.on_sent(false), Reply::Stop);
    assert!(s.is_closed());
    assert_eq!(s.handle(text("y")), Reply::Stop);
}

#[test]
fn two_clients_interleaved_keep_their_own_order() {
    let mut a = Session::new();
    let mut b = Session::new();
    let mut got_a: Vec<String> = Vec::new();
    let mut got_b: Vec<String> = Vec::new();
    let schedule = [(0, "a1"), (1, "b1"), (1, "b2"), (0, "a2"), (1, "b3"), (0, "a3")];
    for (who, p) in schedule.iter() {
        let (sess, got) = if *who == 0 { (&mut a, &mut got_a) } else { (&mut b, &mut got_b) };
        if let Reply::Send(t) = sess.handle(text(p)) {
            got.push(t);
        }
    }
    assert_eq!(got_a, vec!["Message reçu : a1", "Message reçu : a2", "Message reçu : a3"]);
    assert_eq!(got_b, vec!["Message reçu : b1", "Message reçu : b2", "Message reçu : b3"]);
    assert_eq!(a.handle(Incoming::Close), Reply::Stop);
    assert_eq!(b.handle(text("b4")), Reply::Send("Message reçu : b4".to_string()));
}
