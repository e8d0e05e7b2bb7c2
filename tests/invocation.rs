use session_client::invocation::{close_request, join_session_request, send_request, Outcome};

fn strings(v: &[&str]) -> Vec<String> {
    v.iter().map(|s| s.to_string()).collect()
}

#[test]
fn join_arguments() {
    let r = join_session_request("test_session_123");
    assert_eq!(r.arguments(), strings(&["join_session", "test_session_123"]));
}

#[test]
fn send_arguments() {
    let r = send_request("user_2_id", "Hello from User 1");
    assert_eq!(r.arguments(), strings(&["send", "user_2_id", "Hello from User 1"]));
}

#[test]
fn close_arguments() {
    assert_eq!(close_request().arguments(), strings(&["close"]));
}

#[test]
fn identifier_with_spaces_stays_one_argument() {
    let id = "my session\twith \"quotes\" & $pecial; chars";
    let args = join_session_request(id).arguments();
    assert_eq!(args.len(), 2);
    assert_eq!(args[0], "join_session");
    assert_eq!(args[1], id);
}

#[test]
fn message_with_spaces_stays_one_argument() {
    let args = send_request("peer id", "  hello,  world  ").arguments();
    assert_eq!(args, strings(&["send", "peer id", "  hello,  world  "]));
}

#[test]
fn zero_exit_is_success() {
    let o = Outcome::from_exit(Some(0));
    assert_eq!(o, Outcome::Success);
    assert!(o.succeeded());
}

#[test]
fn nonzero_exit_is_failure() {
    let o = Outcome::from_exit(Some(1));
    assert_eq!(o, Outcome::NonSuccessExit { code: Some(1) });
    assert!(!o.succeeded());
    assert!(!Outcome::from_exit(Some(-1)).succeeded());
    assert!(!Outcome::from_exit(Some(255)).succeeded());
}

#[test]
fn exit_without_code_is_failure() {
    let o = Outcome::from_exit(None);
    assert_eq!(o, Outcome::NonSuccessExit { code: None });
    assert!(!o.succeeded());
}

#[test]
fn launch_failure_is_failure() {
    assert!(!Outcome::ProcessError.succeeded());
}
