use p2d_core::clipboard::ClipboardGuard;

#[test]
fn startup_change_is_detected_once() {
    let mut guard = ClipboardGuard::new();
    let emit = guard.observe(Some("X".to_string()));
    assert_eq!(emit, Some("X".to_string()));
}

#[test]
fn unchanged_clipboard_emits_nothing() {
    let mut guard = ClipboardGuard::new();
    guard.observe(Some("steady".to_string()));
    for _ in 0..5 {
        assert_eq!(guard.observe(Some("steady".to_string())), None);
    }
}

#[test]
fn failed_read_skips_the_cycle_silently() {
    let mut guard = ClipboardGuard::new();
    guard.observe(Some("A".to_string()));
    // A transient read failure emits nothing and leaves the state as
    // it was: the following read of the same text is still silent.
    assert_eq!(guard.observe(None), None);
    assert_eq!(guard.observe(Some("A".to_string())), None);
}

#[test]
fn external_change_emits_the_new_text() {
    let mut guard = ClipboardGuard::new();
    guard.observe(Some("A".to_string()));
    let emit = guard.observe(Some("B".to_string()));
    assert_eq!(emit, Some("B".to_string()));
}

#[test]
fn successful_write_suppresses_its_own_loopback() {
    let mut guard = ClipboardGuard::new();
    let r = guard.finish_write("copied locally", Ok(()));
    assert_eq!(r, Ok(()));
    // The next poll cycle reads back the text this process wrote:
    // no notification fires.
    assert_eq!(guard.observe(Some("copied locally".to_string())), None);
}

#[test]
fn failed_write_propagates_and_leaves_the_guard_alone() {
    let mut guard = ClipboardGuard::new();
    guard.observe(Some("before".to_string()));
    let r = guard.finish_write("after", Err("clipboard is locked".to_string()));
    assert_eq!(r, Err("clipboard is locked".to_string()));
    // The failed write seeded nothing: the old text is still the
    // last-observed one, and the unwritten text would count as an
    // external change.
    assert_eq!(guard.observe(Some("before".to_string())), None);
    assert_eq!(
        guard.observe(Some("after".to_string())),
        Some("after".to_string())
    );
}

#[test]
fn write_then_external_change_still_emits() {
    let mut guard = ClipboardGuard::new();
    guard.finish_write("mine", Ok(())).unwrap();
    assert_eq!(guard.observe(Some("mine".to_string())), None);
    assert_eq!(
        guard.observe(Some("theirs".to_string())),
        Some("theirs".to_string())
    );
}
