use session_client::actor::{Actor, Event, Note, Phase};
use session_client::invocation::Request;
use session_client::rendezvous::Rendezvous;

/// Outcomes that a scripted client returns for each operation.
struct Script {
    join: bool,
    send: bool,
    close: bool,
}

/// Runs one actor's script once released, answering each request from the
/// script; returns the argument vectors it issued and the lines it logged.
fn run(actor: &Actor, script: &Script) -> (Vec<Vec<String>>, Vec<String>) {
    let mut calls = Vec::new();
    let mut lines = Vec::new();
    let mut step = actor.step(Phase::Start, Event::Released);
    loop {
        for n in &step.notes {
            lines.push(n.line(&actor.label));
        }
        let request = match step.request {
            Some(r) => r,
            None => break,
        };
        calls.push(request.arguments());
        let success = match request {
            Request::JoinSession { .. } => script.join,
            Request::Send { .. } => script.send,
            Request::Close => script.close,
        };
        step = actor.step(step.phase, Event::Completed { success });
    }
    assert_eq!(step.phase, Phase::Terminated);
    (calls, lines)
}

fn both(script: &Script) -> Vec<(Vec<Vec<String>>, Vec<String>)> {
    let mut rendezvous = Rendezvous::pair();
    assert!(!rendezvous.arrive());
    assert!(rendezvous.arrive());
    assert!(rendezvous.is_released());
    let actors = [Actor::user_1("test_session_123"), Actor::user_2("test_session_123")];
    actors.iter().map(|a| run(a, script)).collect()
}

fn strings(v: &[&str]) -> Vec<String> {
    v.iter().map(|s| s.to_string()).collect()
}

#[test]
fn all_succeed() {
    let runs = both(&Script { join: true, send: true, close: true });
    assert_eq!(
        runs[0].1,
        strings(&[
            "User 1: Joining session...",
            "User 1: Successfully joined session.",
            "User 1: Sending message...",
            "User 1: Message sent.",
            "User 1: Closing session...",
            "User 1: Session closed.",
        ])
    );
    assert_eq!(
        runs[1].1,
        strings(&[
            "User 2: Joining session...",
            "User 2: Successfully joined session.",
            "User 2: Sending response message...",
            "User 2: Message sent.",
            "User 2: Closing session...",
            "User 2: Session closed.",
        ])
    );
    assert_eq!(
        runs[0].0,
        vec![
            strings(&["join_session", "test_session_123"]),
            strings(&["send", "user_2_id", "Hello from User 1"]),
            strings(&["close"]),
        ]
    );
    assert_eq!(
        runs[1].0,
        vec![
            strings(&["join_session", "test_session_123"]),
            strings(&["send", "user_1_id", "Hello from User 2"]),
            strings(&["close"]),
        ]
    );
}

#[test]
fn join_fails() {
    let runs = both(&Script { join: false, send: true, close: true });
    for (i, label) in ["User 1", "User 2"].iter().enumerate() {
        assert_eq!(
            runs[i].1,
            vec![format!("{}: Joining session...", label), format!("{}: Failed to join session.", label)]
        );
        assert_eq!(runs[i].0, vec![strings(&["join_session", "test_session_123"])]);
    }
}

#[test]
fn send_fails() {
    let runs = both(&Script { join: true, send: false, close: true });
    assert_eq!(
        runs[0].1,
        strings(&[
            "User 1: Joining session...",
            "User 1: Successfully joined session.",
            "User 1: Sending message...",
            "User 1: Failed to send message.",
            "User 1: Closing session...",
            "User 1: Session closed.",
        ])
    );
    assert_eq!(runs[1].1[3], "User 2: Failed to send message.");
    assert_eq!(runs[1].1[5], "User 2: Session closed.");
    assert_eq!(runs[0].0.len(), 3);
}

#[test]
fn close_fails() {
    let runs = both(&Script { join: true, send: true, close: false });
    assert_eq!(runs[0].1[5], "User 1: Failed to close session.");
    assert_eq!(runs[1].1[5], "User 2: Failed to close session.");
}

#[test]
fn joined_actor_sends_and_closes_once_whatever_the_outcomes() {
    for send in [false, true] {
        for close in [false, true] {
            let actor = Actor::user_1("s");
            let (calls, _) = run(&actor, &Script { join: true, send, close });
            assert_eq!(calls.iter().filter(|c| c[0] == "send").count(), 1);
            assert_eq!(calls.iter().filter(|c| c[0] == "close").count(), 1);
        }
    }
}

#[test]
fn actor_waits_for_release() {
    let actor = Actor::user_1("s");
    let step = actor.step(Phase::Start, Event::Completed { success: true });
    assert_eq!(step.phase, Phase::Start);
    assert!(step.notes.is_empty());
    assert!(step.request.is_none());
}

#[test]
fn terminated_actor_ignores_events() {
    let actor = Actor::user_2("s");
    for e in [Event::Released, Event::Completed { success: true }, Event::Completed { success: false }] {
        let step = actor.step(Phase::Terminated, e);
        assert_eq!(step.phase, Phase::Terminated);
        assert!(step.notes.is_empty());
        assert!(step.request.is_none());
    }
}

#[test]
fn note_line_prefixes_label() {
    assert_eq!(Note::Sent.line("User 1"), "User 1: Message sent.");
    assert_eq!(Note::SendingResponse.text(), "Sending response message...");
}

#[test]
fn actors_carry_their_identifiers() {
    let a = Actor::user_2("room 7");
    assert_eq!(a.label, "User 2");
    assert_eq!(a.session_id, "room 7");
    assert_eq!(a.target_id, "user_1_id");
    assert_eq!(a.message, "Hello from User 2");
    assert!(a.responds);
}
