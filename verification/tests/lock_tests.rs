use spell_framework::lock::{
    lock_layout, lock_outputs, username_from_last, LockState, LockWindows, UnlockOutcome,
};

#[test]
fn outputs_get_names_and_sizes() {
    let infos = vec![(Some("DP-1".to_string()), (1920, 1080)), (None, (1280, 1024))];
    let outs = lock_outputs(&infos);
    assert_eq!(outs, vec![("DP-1".to_string(), (1920, 1080)), ("SomeOutput".to_string(), (1280, 1024))]);
}

#[test]
fn lock_memory_is_sized_for_first_output() {
    let l = lock_layout(&vec![(100, 50), (20, 10)]);
    assert_eq!(l.pool_len, 100 * 50 * 4);
    assert_eq!(l.shapes.len(), 2);
    assert_eq!(l.shapes[0].stride, 400);
    assert_eq!(l.shapes[1].width, 20);
    assert_eq!(l.shapes[1].height, 10);
    assert_eq!(l.shapes[1].stride, 80);
}

#[test]
fn lock_windows_are_handed_out_in_order() {
    let mut w = LockWindows::new_lock(vec![("a".to_string(), (1, 1)), ("b".to_string(), (2, 2))]);
    assert_eq!(w.value_given, 0);
    assert_eq!(w.request_new_lock(2), 0);
    assert_eq!(w.request_new_lock(2), 1);
    assert_eq!(w.value_given, 2);
    assert_eq!(w.windows.len(), 2);
}

#[test]
fn username_is_second_word_of_first_line() {
    let out = "      12 alice\n       3 bob\n";
    assert_eq!(username_from_last(out), Some("alice".to_string()));
}

#[test]
fn username_missing() {
    assert_eq!(username_from_last(""), None);
    assert_eq!(username_from_last("   7   \nbob x"), None);
}

#[test]
fn authentication_unlocks_once() {
    let mut s = LockState::new();
    assert!(s.is_locked && s.session_held);
    assert_eq!(s.finish_authentication(false), UnlockOutcome::Rejected);
    assert!(s.is_locked && s.session_held);
    assert_eq!(s.finish_authentication(true), UnlockOutcome::Unlocked { session_released: true });
    assert!(!s.is_locked && !s.session_held);
    assert_eq!(s.finish_authentication(true), UnlockOutcome::Unlocked { session_released: false });
    assert_eq!(s.finish_authentication(false), UnlockOutcome::Rejected);
    assert!(!s.is_locked);
}
