use crosskey::listener::{window_from_hwnd, ListenerError};

#[test]
fn window_from_hwnd_keeps_a_win32_window() {
    assert_eq!(window_from_hwnd(Some(12)).unwrap(), 12);
    assert_eq!(window_from_hwnd(Some(0x4242)).unwrap(), 0x4242);
}

#[test]
fn window_from_hwnd_refuses_other_kinds() {
    assert!(matches!(window_from_hwnd(None), Err(ListenerError::InvalidHandle)));
}
