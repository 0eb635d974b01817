use ccx::{
    agent_command, cmd_attach, cmd_send, cmd_start, cmd_stop, decimal_string, require_session,
    SessionError, TmuxOp,
};

fn args(op: &TmuxOp) -> Vec<String> {
    op.args()
}

#[test]
fn stop_of_missing_session_is_not_found_and_kills_nothing() {
    match cmd_stop("ccx-nothere", false) {
        Err(SessionError::NotFound(name)) => assert_eq!(name, "ccx-nothere"),
        other => panic!("unexpected {:?}", other),
    }
}

#[test]
fn stop_of_existing_session_kills_it() {
    let op = cmd_stop("ccx-1", true).unwrap();
    assert_eq!(args(&op), vec!["kill-session", "-t", "ccx-1"]);
}

#[test]
fn attach_and_send_need_the_session() {
    assert!(matches!(cmd_attach("ccx-1", false), Err(SessionError::NotFound(_))));
    assert!(matches!(cmd_send("ccx-1", "hi", false), Err(SessionError::NotFound(_))));
    assert_eq!(
        args(&cmd_attach("ccx-1", true).unwrap()),
        vec!["attach-session", "-t", "ccx-1"]
    );
    let (text, enter) = cmd_send("ccx-1", "do it", true).unwrap();
    assert_eq!(args(&text), vec!["send-keys", "-t", "ccx-1", "-l", "do it"]);
    assert_eq!(args(&enter), vec!["send-keys", "-t", "ccx-1", "Enter"]);
}

#[test]
fn not_found_message() {
    let e = require_session("ccx-9", false).unwrap_err();
    assert_eq!(e.message(), "Session 'ccx-9' does not exist");
    assert!(require_session("ccx-9", true).is_ok());
    assert_eq!(SessionError::Gateway("boom".to_string()).message(), "boom");
    assert_eq!(
        SessionError::Capture("gone".to_string()).message(),
        "Could not capture output: gone"
    );
}

#[test]
fn prompt_quotes_are_escaped() {
    assert_eq!(
        agent_command("agent", "say \"hi\""),
        "agent --dangerously-skip-permissions \"say \\\"hi\\\"\""
    );
    assert_eq!(agent_command("agent", ""), "agent --dangerously-skip-permissions \"\"");
}

#[test]
fn start_builds_create_and_rename() {
    let plan = cmd_start("ccx-00000001", "agent", "fix it", Some("/tmp/w"));
    assert_eq!(
        args(&plan.create),
        vec![
            "new-session",
            "-d",
            "-s",
            "ccx-00000001",
            "-c",
            "/tmp/w",
            "agent --dangerously-skip-permissions \"fix it\""
        ]
    );
    assert_eq!(
        args(&plan.allow_rename),
        vec!["set-option", "-t", "ccx-00000001", "allow-rename", "on"]
    );
    let plan = cmd_start("ccx-2", "agent", "x", None);
    assert_eq!(
        args(&plan.create),
        vec!["new-session", "-d", "-s", "ccx-2", "agent --dangerously-skip-permissions \"x\""]
    );
}

#[test]
fn gateway_argument_lists() {
    assert_eq!(
        args(&TmuxOp::ListSessions),
        vec!["list-sessions", "-F", "#{session_name}:#{session_attached}"]
    );
    assert_eq!(
        args(&TmuxOp::CapturePane { name: "ccx-1".to_string(), lines: 20 }),
        vec!["capture-pane", "-t", "ccx-1", "-p", "-S", "-20"]
    );
    assert_eq!(
        args(&TmuxOp::PaneTitle { name: "s".to_string() }),
        vec!["display-message", "-t", "s", "-p", "#{pane_title}"]
    );
    assert_eq!(
        args(&TmuxOp::HasSession { name: "s".to_string() }),
        vec!["has-session", "-t", "s"]
    );
}

#[test]
fn decimal_formatting() {
    assert_eq!(decimal_string(0), "0");
    assert_eq!(decimal_string(7), "7");
    assert_eq!(decimal_string(1234567890), "1234567890");
    assert_eq!(decimal_string(-45), "-45");
    assert_eq!(decimal_string(i64::MAX), "9223372036854775807");
}
