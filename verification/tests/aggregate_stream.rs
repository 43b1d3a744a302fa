//! Scenario tests for the stream aggregator and the verdict resolver.

use droid_mcp_rs::aggregate::AggregationState;
use droid_mcp_rs::verdict::finalize;

fn drain(lines: &[&str]) -> AggregationState {
    let mut state = AggregationState::new();
    for line in lines {
        state.absorb_line(line);
    }
    state
}

#[test]
fn clean_stream_with_completion_succeeds() {
    let state = drain(&[
        r#"{"session_id":"abc123","type":"start"}"#,
        r#"{"type":"completion","finalText":"Hello"}"#,
    ]);
    let result = finalize(state, true, Some(0), &String::new(), None, None);
    assert!(result.success);
    assert_eq!(result.session_id, "abc123");
    assert_eq!(result.agent_messages, "Hello");
    assert!(result.error.is_none());
    assert!(!result.agent_messages_truncated);
    assert!(!result.all_messages_truncated);
}

#[test]
fn error_event_forces_failure_despite_clean_exit() {
    let state = drain(&[
        r#"{"session_id":"abc123"}"#,
        r#"{"type":"error","message":"boom"}"#,
        r#"{"type":"completion","finalText":"text anyway"}"#,
    ]);
    let result = finalize(state, true, Some(0), &String::new(), None, None);
    assert!(!result.success);
    assert_eq!(result.error.as_deref(), Some("droid error: boom"));
}

#[test]
fn first_error_message_wins() {
    let state = drain(&[
        r#"{"type":"error","message":"first"}"#,
        r#"{"type":"error","message":"second"}"#,
    ]);
    assert!(!state.success);
    assert_eq!(state.error.as_deref(), Some("droid error: first"));
}

#[test]
fn message_less_error_event_still_records_a_reason() {
    let state = drain(&[
        r#"{"session_id":"abc"}"#,
        r#"{"type":"error"}"#,
        r#"{"type":"completion","finalText":"text anyway"}"#,
    ]);
    let result = finalize(state, true, Some(0), &String::new(), None, None);
    assert!(!result.success);
    assert_eq!(result.error.as_deref(), Some("droid error: (no message)"));
}

#[test]
fn message_less_error_does_not_hide_a_later_message() {
    let state = drain(&[
        r#"{"type":"error"}"#,
        r#"{"type":"error","message":"late detail"}"#,
    ]);
    assert_eq!(state.error.as_deref(), Some("droid error: (no message)"));
}

#[test]
fn first_session_id_wins() {
    let state = drain(&[
        r#"{"session_id":"first"}"#,
        r#"{"session_id":"second"}"#,
    ]);
    assert_eq!(state.session_id, "first");
}

#[test]
fn empty_session_id_is_ignored() {
    let state = drain(&[
        r#"{"session_id":""}"#,
        r#"{"session_id":"real"}"#,
    ]);
    assert_eq!(state.session_id, "real");
}

#[test]
fn malformed_line_is_skipped() {
    let good = drain(&[
        r#"{"session_id":"abc"}"#,
        r#"{"type":"completion","finalText":"Hi"}"#,
    ]);
    let with_bad = drain(&[
        r#"{"session_id":"abc"}"#,
        r#"this is not json"#,
        r#"{"type":"completion","finalText":"Hi"}"#,
    ]);
    assert_eq!(with_bad.session_id, good.session_id);
    assert_eq!(with_bad.agent_messages, good.agent_messages);
    assert_eq!(with_bad.all_messages, good.all_messages);
    let result = finalize(with_bad, true, Some(0), &String::new(), None, None);
    assert!(result.success);
}

#[test]
fn blank_lines_are_skipped() {
    let state = drain(&["", "   ", r#"{"session_id":"s"}"#]);
    assert_eq!(state.session_id, "s");
    assert_eq!(state.all_messages.len(), 1);
}

#[test]
fn assistant_messages_are_concatenated_with_newline() {
    let state = drain(&[
        r#"{"type":"message","role":"assistant","text":"one"}"#,
        r#"{"type":"message","role":"assistant","text":"two"}"#,
        r#"{"type":"message","role":"user","text":"ignored"}"#,
        r#"{"type":"completion","finalText":"three"}"#,
    ]);
    assert_eq!(state.agent_messages, "one\ntwo\nthree");
}

#[test]
fn every_parsed_event_is_archived_reserialized() {
    let state = drain(&[
        "{ \"b\" : 1 ,  \"a\" : 2 }",
        r#"{"type":"weird","x":true}"#,
    ]);
    assert_eq!(state.all_messages.len(), 2);
    assert_eq!(state.all_messages[0], r#"{"b":1,"a":2}"#);
    assert_eq!(state.all_messages[1], r#"{"type":"weird","x":true}"#);
}

#[test]
fn silent_clean_exit_reports_missing_messages() {
    let state = drain(&[r#"{"session_id":"abc"}"#]);
    let result = finalize(state, true, Some(0), &String::new(), None, None);
    assert!(!result.success);
    assert_eq!(
        result.error.as_deref(),
        Some("No agent messages received from droid")
    );
}

#[test]
fn missing_session_id_reports_failure() {
    let state = drain(&[r#"{"type":"completion","finalText":"Hi"}"#]);
    let result = finalize(state, true, Some(0), &String::new(), None, None);
    assert!(!result.success);
    assert_eq!(
        result.error.as_deref(),
        Some("No session_id received from droid")
    );
}

#[test]
fn bad_exit_overrides_completion() {
    let state = drain(&[
        r#"{"session_id":"abc"}"#,
        r#"{"type":"completion","finalText":"done"}"#,
    ]);
    let result = finalize(state, false, Some(3), &String::new(), None, None);
    assert!(!result.success);
    assert_eq!(result.agent_messages, "done");
    assert_eq!(result.error.as_deref(), Some("droid exited with code Some(3)"));
}

#[test]
fn bad_exit_appends_nonempty_stderr() {
    let state = drain(&[
        r#"{"session_id":"abc"}"#,
        r#"{"type":"completion","finalText":"done"}"#,
    ]);
    let stderr = String::from("bad stuff happened");
    let result = finalize(state, false, Some(1), &stderr, None, None);
    assert_eq!(
        result.error.as_deref(),
        Some("droid exited with code Some(1). stderr: bad stuff happened")
    );
}

#[test]
fn signal_exit_without_code_is_reported() {
    let state = drain(&[
        r#"{"session_id":"abc"}"#,
        r#"{"type":"completion","finalText":"done"}"#,
    ]);
    let result = finalize(state, false, None, &String::new(), None, None);
    assert_eq!(result.error.as_deref(), Some("droid exited with code None"));
}

#[test]
fn in_stream_error_is_not_overwritten_by_exit_status() {
    let state = drain(&[
        r#"{"session_id":"abc"}"#,
        r#"{"type":"error","message":"the real reason"}"#,
    ]);
    let result = finalize(state, false, Some(7), &String::from("noise"), None, None);
    assert!(!result.success);
    assert_eq!(result.error.as_deref(), Some("droid error: the real reason"));
}

#[test]
fn warnings_and_model_info_pass_through() {
    let state = drain(&[
        r#"{"session_id":"abc"}"#,
        r#"{"type":"completion","finalText":"ok"}"#,
    ]);
    let result = finalize(
        state,
        true,
        Some(0),
        &String::new(),
        Some(String::from("careful")),
        Some(String::from("Model: m")),
    );
    assert!(result.success);
    assert_eq!(result.warnings.as_deref(), Some("careful"));
    assert_eq!(result.model_info.as_deref(), Some("Model: m"));
}
