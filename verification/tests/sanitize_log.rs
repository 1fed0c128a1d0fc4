use oom_guard::sanitize_for_log;

#[test]
fn test_sanitize_for_log_normal_string() {
    assert_eq!(sanitize_for_log("firefox"), "firefox");
    assert_eq!(sanitize_for_log("my-process"), "my-process");
}

#[test]
fn test_sanitize_for_log_with_control_chars() {
    assert_eq!(sanitize_for_log("evil\x00process"), "evil?process");
    assert_eq!(
        sanitize_for_log("process\rFake: log entry"),
        "process?Fake: log entry"
    );
    assert_eq!(sanitize_for_log("process\x1b[31mred"), "process?[31mred");
}

#[test]
fn test_sanitize_for_log_preserves_newlines_and_tabs() {
    assert_eq!(sanitize_for_log("line1\nline2"), "line1\nline2");
    assert_eq!(sanitize_for_log("col1\tcol2"), "col1\tcol2");
}

#[test]
fn test_sanitize_for_log_empty_string() {
    assert_eq!(sanitize_for_log(""), "");
}

#[test]
fn sanitize_for_log_replaces_every_control_code_but_newline_and_tab() {
    assert_eq!(sanitize_for_log("a\u{7f}b"), "a?b");
    assert_eq!(sanitize_for_log("a\u{9f}b"), "a?b");
    assert_eq!(sanitize_for_log("a\u{80}b"), "a?b");
    assert_eq!(sanitize_for_log("a\u{1f}b"), "a?b");
    assert_eq!(sanitize_for_log("a\u{a0}b"), "a\u{a0}b");
    assert_eq!(sanitize_for_log("a b"), "a b");
    assert_eq!(sanitize_for_log("\n\t\r"), "\n\t?");
}

#[test]
fn sanitize_for_log_keeps_non_ascii_text() {
    assert_eq!(sanitize_for_log("größe-日本語"), "größe-日本語");
}
