use memory_session::audit::{audit_entry, audit_entry_now, log_line, log_line_now, sanitize};

#[test]
fn audit_block_with_injection() {
    assert_eq!(
        audit_entry("2024-01-02T03:04:05.678Z", "find it", Some("  line 1\nline 2 \n")),
        "[2024-01-02T03:04:05.678Z] query: find it\ninjected:\nline 1\nline 2\n\n"
    );
}

#[test]
fn audit_block_without_injection() {
    assert_eq!(
        audit_entry("T", "q", None),
        "[T] query: q\ninjected: <none>\n\n"
    );
}

#[test]
fn audited_injection_is_capped_at_2000_chars() {
    let text = "w".repeat(2500);
    let r = audit_entry("T", "q", Some(&text));
    assert_eq!(
        r,
        format!("[T] query: q\ninjected:\n{}...\n\n", "w".repeat(2000))
    );
}

#[test]
fn audit_blocks_stay_distinct_when_appended() {
    let a = audit_entry_now("first", None).unwrap();
    let b = audit_entry_now("second", Some("x")).unwrap();
    assert!(a.starts_with('['));
    assert!(a.ends_with("] query: first\ninjected: <none>\n\n"));
    assert!(b.ends_with("] query: second\ninjected:\nx\n\n"));
    let log = format!("{a}{b}");
    assert_eq!(log.matches("\n\n[").count(), 1);
}

#[test]
fn sanitize_escapes_newlines() {
    assert_eq!(sanitize("a\nb\n"), "a\\nb\\n");
    assert_eq!(sanitize("plain"), "plain");
    assert_eq!(sanitize(""), "");
}

#[test]
fn log_line_layout() {
    assert_eq!(
        log_line("2024-01-02T03:04:05.678Z", "start", "two\nlines"),
        "2024-01-02T03:04:05.678Z | start | two\\nlines"
    );
}

#[test]
fn log_line_now_has_one_line() {
    let l = log_line_now("ev", "a\nb").unwrap();
    assert!(!l.contains('\n'));
    assert!(l.ends_with(" | ev | a\\nb"));
    assert!(l.ends_with("Z | ev | a\\nb"));
}
