use calc::app::{FrameEvents, MyApp};

fn quiet() -> FrameEvents {
    FrameEvents {
        up: false,
        down: false,
        escape: false,
        submitted: false,
    }
}

fn submit() -> FrameEvents {
    FrameEvents {
        up: false,
        down: false,
        escape: false,
        submitted: true,
    }
}

#[test]
fn fresh_session_is_empty_and_editing() {
    let mut app = MyApp::new();
    assert_eq!(app.input_text().as_str(), "");
    assert_eq!(app.response_text().as_str(), "");
    assert_eq!(app.history_len(), 0);
    assert_eq!(app.current_selection(), None);
    assert!(!app.output_dimmed());
    assert!(app.take_autofocus());
    assert!(!app.take_autofocus());
}

#[test]
fn committing_empty_buffer_changes_nothing() {
    let mut app = MyApp::new();
    let out = app.process_frame("".to_string(), submit());
    assert!(!out.terminate);
    assert_eq!(out.accepted, None);
    assert_eq!(app.history_len(), 0);
    assert_eq!(app.current_selection(), None);
}

#[test]
fn committing_whitespace_buffer_changes_nothing() {
    let mut app = MyApp::new();
    let out = app.process_frame("   ".to_string(), submit());
    assert!(!out.terminate);
    assert_eq!(out.accepted, None);
    assert_eq!(app.history_len(), 0);
    assert_eq!(app.current_selection(), None);
}

#[test]
fn committing_appends_and_shows_result() {
    let mut app = MyApp::new();
    let out = app.process_frame("2+2".to_string(), submit());
    assert!(!out.terminate);
    assert_eq!(out.accepted, Some("2+2".to_string()));
    assert_eq!(app.history_len(), 1);
    assert_eq!(app.history_entry(0).as_str(), "2+2");
    assert_eq!(app.response_text().as_str(), "4");
    assert!(!app.output_dimmed());
    assert_eq!(app.input_text().as_str(), "");
    assert_eq!(app.current_selection(), None);
}

#[test]
fn committed_entry_is_stored_trimmed() {
    let mut app = MyApp::new();
    let out = app.process_frame("  2+2  ".to_string(), submit());
    assert_eq!(out.accepted, Some("2+2".to_string()));
    assert_eq!(app.history_entry(0).as_str(), "2+2");
}

#[test]
fn whitespace_only_preview_is_not_evaluated() {
    let mut app = MyApp::new();
    app.process_frame("2+2".to_string(), submit());
    let out = app.process_frame("   ".to_string(), quiet());
    assert!(!out.terminate);
    assert_eq!(app.response_text().as_str(), "4");
    assert!(!app.output_dimmed());
}

#[test]
fn committing_unicode_whitespace_changes_nothing() {
    let mut app = MyApp::new();
    let out = app.process_frame("\u{A0}\u{2003}\u{3000}".to_string(), submit());
    assert!(!out.terminate);
    assert_eq!(out.accepted, None);
    assert_eq!(app.history_len(), 0);
}

#[test]
fn exit_padded_with_unicode_whitespace_terminates() {
    let mut app = MyApp::new();
    let out = app.process_frame("\u{3000}exit\u{A0}".to_string(), submit());
    assert!(out.terminate);
    assert_eq!(out.accepted, None);
    assert_eq!(app.history_len(), 0);
}

#[test]
fn invalid_live_preview_keeps_last_valid_output() {
    let mut app = MyApp::new();
    app.process_frame("2+2".to_string(), submit());
    let out = app.process_frame("2+".to_string(), quiet());
    assert!(!out.terminate);
    assert_eq!(app.response_text().as_str(), "4");
    assert!(app.output_dimmed());
}

#[test]
fn invalid_commit_shows_fallback_message() {
    let mut app = MyApp::new();
    app.process_frame("2+2".to_string(), submit());
    app.process_frame("2+".to_string(), quiet());
    let out = app.process_frame("2+".to_string(), submit());
    assert!(!out.terminate);
    assert_eq!(out.accepted, Some("2+".to_string()));
    assert_eq!(app.response_text().as_str(), "Invalid input");
    assert!(app.output_dimmed());
    assert_eq!(app.history_len(), 2);
    assert_eq!(app.history_entry(1).as_str(), "2+");
}

#[test]
fn valid_live_preview_updates_output() {
    let mut app = MyApp::new();
    let out = app.process_frame("5*5".to_string(), quiet());
    assert!(!out.terminate);
    assert_eq!(out.accepted, None);
    assert_eq!(app.response_text().as_str(), "25");
    assert!(!app.output_dimmed());
    assert_eq!(app.history_len(), 0);
}

#[test]
fn update_response_in_commit_mode_reports_fallback() {
    let mut app = MyApp::new();
    app.process_frame("3/4".to_string(), quiet());
    app.update_response(true);
    assert_eq!(app.response_text().as_str(), "0.75");
    app.process_frame("3/".to_string(), quiet());
    app.update_response(true);
    assert_eq!(app.response_text().as_str(), "Invalid input");
    assert!(app.output_dimmed());
}

#[test]
fn committing_exit_uppercase_terminates_without_recording() {
    let mut app = MyApp::new();
    let out = app.process_frame("EXIT".to_string(), submit());
    assert!(out.terminate);
    assert_eq!(out.accepted, None);
    assert_eq!(app.history_len(), 0);
}

#[test]
fn committing_exit_lowercase_terminates_without_recording() {
    let mut app = MyApp::new();
    let out = app.process_frame("exit".to_string(), submit());
    assert!(out.terminate);
    assert_eq!(out.accepted, None);
    assert_eq!(app.history_len(), 0);
}

#[test]
fn committing_exit_padded_mixed_case_terminates_without_recording() {
    let mut app = MyApp::new();
    let out = app.process_frame("  Exit  ".to_string(), submit());
    assert!(out.terminate);
    assert_eq!(out.accepted, None);
    assert_eq!(app.history_len(), 0);
}

#[test]
fn exit_with_other_text_is_committed_normally() {
    let mut app = MyApp::new();
    let out = app.process_frame("exits".to_string(), submit());
    assert!(!out.terminate);
    assert_eq!(app.history_len(), 1);
}

#[test]
fn escape_terminates_immediately() {
    let mut app = MyApp::new();
    let esc = FrameEvents {
        up: false,
        down: false,
        escape: true,
        submitted: false,
    };
    let out = app.process_frame("anything".to_string(), esc);
    assert!(out.terminate);
    assert_eq!(out.accepted, None);
    assert_eq!(app.history_len(), 0);
}
