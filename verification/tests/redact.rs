use omarec::redact::{contains_sensitive, redact_text};

#[test]
fn home_and_runtime_are_replaced() {
    let redacted = redact_text(
        "/home/alice/Videos/out.mp4 /run/user/1000/omarec/control.sock",
        "/home/alice",
        "/run/user/1000",
    );
    assert!(!redacted.contains("/home/alice"));
    assert!(redacted.contains("$HOME/Videos/out.mp4"));
    assert!(redacted.contains("$XDG_RUNTIME_DIR/omarec/control.sock"));
}

#[test]
fn empty_home_does_not_false_positive() {
    assert!(!contains_sensitive("ok", ""));
    assert!(contains_sensitive("/home/alice/secret", "/home/alice"));
}

#[test]
fn empty_markers_leave_text_unchanged() {
    assert_eq!(redact_text("/home/alice/x", "", ""), "/home/alice/x");
}

#[test]
fn redacted_text_holds_neither_directory() {
    let redacted = redact_text(
        "/home/bob/a /home/bob/home/bob /run/user/1000/x /run/user/1000",
        "/home/bob",
        "/run/user/1000",
    );
    assert!(!contains_sensitive(&redacted, "/home/bob"));
    assert!(!redacted.contains("/run/user/1000"));
    assert_eq!(redacted, "$HOME/a $HOME$HOME $XDG_RUNTIME_DIR/x $XDG_RUNTIME_DIR");
}
