use crosskey::keys::{Event, Key, KeyEvent, Modifiers, RawKeyEventData, SHIFT};
use crosskey::registry::{
    handle_key_message, is_key_message, AttachError, DetachError, Hook, HookRegistry, KeyInput,
    Message, ERROR_INVALID_WINDOW_HANDLE, WM_KEYDOWN, WM_KEYUP, WM_SYSKEYDOWN, WM_SYSKEYUP,
};
use crosskey::repeat::RepeatTracker;

const WINDOW: isize = 0x1234;
const OLD_PROC: isize = 0x7000;

fn input(decoded: Option<u16>, scan_code: u32) -> KeyInput {
    KeyInput { key_state: [0u8; 256], scan_code, decoded }
}

fn message(msg: u32, wparam: usize) -> Message {
    Message { msg, wparam, lparam: 0x1C0001 }
}

fn plain(key: Key, vk: u32, scan: u32) -> KeyEvent {
    KeyEvent {
        key,
        modifiers: Modifiers::empty(),
        raw: RawKeyEventData { virtual_key_code: vk, virtual_scan_code: scan },
    }
}

#[test]
fn enter_press_repeat_release_scenario() {
    let mut registry = HookRegistry::new();
    let rx = registry.attach(WINDOW, OLD_PROC, 0).unwrap();
    let enter = input(Some(0x0D), 0x1C);

    let d1 = registry.trampoline(WINDOW, message(WM_KEYDOWN, 0x0D), Some(enter));
    let d2 = registry.trampoline(WINDOW, message(WM_KEYDOWN, 0x0D), Some(enter));
    let d3 = registry.trampoline(WINDOW, message(WM_KEYUP, 0x0D), Some(enter));
    for d in [d1, d2, d3] {
        assert_eq!(d.forward.procedure, Some(OLD_PROC));
    }

    let key = plain(Key::Enter, 0x0D, 0x1C);
    let first = Event::Press { key, repeat_count: 0 };
    let second = Event::Press { key, repeat_count: 1 };
    let third = Event::Release(key);
    assert_eq!(d1.event, Some(first));
    assert_eq!(d2.event, Some(second));
    assert_eq!(d3.event, Some(third));
    assert_eq!(rx.try_recv().unwrap(), Some(first));
    assert_eq!(rx.try_recv().unwrap(), Some(second));
    assert_eq!(rx.try_recv().unwrap(), Some(third));
    assert_eq!(rx.try_recv().unwrap(), None);
}

#[test]
fn events_arrive_in_the_order_sent() {
    let mut registry = HookRegistry::new();
    let rx = registry.attach(WINDOW, OLD_PROC, 0).unwrap();
    let a = input(Some(0x61), 0x1E);
    let b = input(Some(0x62), 0x30);
    registry.trampoline(WINDOW, message(WM_KEYDOWN, 0x41), Some(a));
    registry.trampoline(WINDOW, message(WM_KEYDOWN, 0x42), Some(b));
    registry.trampoline(WINDOW, message(WM_KEYUP, 0x41), Some(a));

    let key_a = plain(Key::Character('a'), 0x41, 0x1E);
    let key_b = plain(Key::Character('b'), 0x42, 0x30);
    assert_eq!(rx.recv().unwrap(), Event::Press { key: key_a, repeat_count: 0 });
    assert_eq!(rx.recv().unwrap(), Event::Press { key: key_b, repeat_count: 0 });
    assert_eq!(rx.recv().unwrap(), Event::Release(key_a));
    assert!(rx.is_empty());
}

#[test]
fn other_messages_pass_through_unchanged() {
    let mut registry = HookRegistry::new();
    let rx = registry.attach(WINDOW, OLD_PROC, 0).unwrap();
    let messages = [
        Message { msg: 0x000F, wparam: 0, lparam: 0 },
        Message { msg: 0x0102, wparam: 0x61, lparam: 0x1E0001 },
        Message { msg: 0x0200, wparam: 1, lparam: -5 },
        Message { msg: 0x0010, wparam: usize::MAX, lparam: isize::MIN },
    ];
    for m in messages {
        let d = registry.trampoline(WINDOW, m, Some(input(Some(0x61), 0x1E)));
        assert_eq!(d.forward.procedure, Some(OLD_PROC));
        assert_eq!(d.forward.message, m);
        assert_eq!(d.event, None);
    }
    assert!(rx.is_empty());
}

#[test]
fn messages_to_an_unhooked_window_go_to_the_default() {
    let mut registry = HookRegistry::new();
    let d = registry.trampoline(WINDOW, message(WM_KEYDOWN, 0x0D), Some(input(None, 0x1C)));
    assert_eq!(d.forward.procedure, None);
    assert_eq!(d.forward.message, message(WM_KEYDOWN, 0x0D));
    assert_eq!(d.event, None);
}

#[test]
fn key_message_without_input_raises_no_event() {
    let mut registry = HookRegistry::new();
    let rx = registry.attach(WINDOW, OLD_PROC, 0).unwrap();
    let d = registry.trampoline(WINDOW, message(WM_KEYDOWN, 0x0D), None);
    assert_eq!(d.forward.procedure, Some(OLD_PROC));
    assert_eq!(d.event, None);
    assert!(rx.is_empty());
}

#[test]
fn system_key_messages_count_as_key_messages() {
    assert!(is_key_message(WM_KEYDOWN));
    assert!(is_key_message(WM_KEYUP));
    assert!(is_key_message(WM_SYSKEYDOWN));
    assert!(is_key_message(WM_SYSKEYUP));
    assert!(!is_key_message(0x0102));

    let mut registry = HookRegistry::new();
    let _rx = registry.attach(WINDOW, OLD_PROC, 0).unwrap();
    let f10 = input(None, 0x44);
    let d1 = registry.trampoline(WINDOW, message(WM_SYSKEYDOWN, 0x79), Some(f10));
    let d2 = registry.trampoline(WINDOW, message(WM_SYSKEYUP, 0x79), Some(f10));
    let key = plain(Key::F10, 0x79, 0x44);
    assert_eq!(d1.event, Some(Event::Press { key, repeat_count: 0 }));
    assert_eq!(d2.event, Some(Event::Release(key)));
}

#[test]
fn events_carry_the_modifiers_held() {
    let mut registry = HookRegistry::new();
    let _rx = registry.attach(WINDOW, OLD_PROC, 0).unwrap();
    let mut state = [0u8; 256];
    state[0xA0] = 0x80;
    let shifted = KeyInput { key_state: state, scan_code: 0x1E, decoded: Some(0x61) };
    let d = registry.trampoline(WINDOW, message(WM_KEYDOWN, 0x41), Some(shifted));
    match d.event {
        Some(Event::Press { key, repeat_count }) => {
            assert_eq!(key.modifiers, Modifiers::from_bits(SHIFT));
            assert_eq!(key.key, Key::Character('a'));
            assert_eq!(repeat_count, 0);
        },
        other => panic!("expected a press, got {:?}", other),
    }
}

#[test]
fn repeat_counts_are_kept_per_key_and_per_window() {
    let mut registry = HookRegistry::new();
    let _rx1 = registry.attach(1, OLD_PROC, 0).unwrap();
    let _rx2 = registry.attach(2, OLD_PROC + 1, 0).unwrap();
    let a = input(Some(0x61), 0x1E);
    let b = input(Some(0x62), 0x30);
    let count = |d: crosskey::registry::Dispatch| match d.event {
        Some(Event::Press { repeat_count, .. }) => repeat_count,
        other => panic!("expected a press, got {:?}", other),
    };
    assert_eq!(count(registry.trampoline(1, message(WM_KEYDOWN, 0x41), Some(a))), 0);
    assert_eq!(count(registry.trampoline(1, message(WM_KEYDOWN, 0x41), Some(a))), 1);
    assert_eq!(count(registry.trampoline(1, message(WM_KEYDOWN, 0x42), Some(b))), 0);
    assert_eq!(count(registry.trampoline(2, message(WM_KEYDOWN, 0x41), Some(a))), 0);
    assert_eq!(count(registry.trampoline(1, message(WM_KEYDOWN, 0x41), Some(a))), 2);
    registry.trampoline(1, message(WM_KEYUP, 0x42), Some(b));
    assert_eq!(count(registry.trampoline(1, message(WM_KEYDOWN, 0x41), Some(a))), 3);
    registry.trampoline(1, message(WM_KEYUP, 0x41), Some(a));
    assert_eq!(count(registry.trampoline(1, message(WM_KEYDOWN, 0x41), Some(a))), 0);
}

#[test]
fn press_press_press_release_press_counts() {
    let mut tracker = RepeatTracker::new();
    assert_eq!(tracker.press(0x41), 0);
    assert_eq!(tracker.press(0x41), 1);
    assert_eq!(tracker.press(0x41), 2);
    assert_eq!(tracker.count(0x41), 3);
    tracker.release(0x41);
    assert_eq!(tracker.count(0x41), 0);
    assert_eq!(tracker.press(0x41), 0);
}

#[test]
fn handle_key_message_counts_and_sends() {
    let (tx, rx) = kanal::unbounded();
    let mut hook = Hook::new(OLD_PROC, tx);
    let esc = input(Some(0x1B), 0x01);
    let e1 = handle_key_message(&mut hook, WM_KEYDOWN, 0x1B, &esc);
    let e2 = handle_key_message(&mut hook, WM_KEYDOWN, 0x1B, &esc);
    let e3 = handle_key_message(&mut hook, WM_KEYUP, 0x1B, &esc);
    let key = plain(Key::Escape, 0x1B, 0x01);
    assert_eq!(e1, Event::Press { key, repeat_count: 0 });
    assert_eq!(e2, Event::Press { key, repeat_count: 1 });
    assert_eq!(e3, Event::Release(key));
    assert_eq!(rx.recv().unwrap(), e1);
    assert_eq!(rx.recv().unwrap(), e2);
    assert_eq!(rx.recv().unwrap(), e3);
    assert_eq!(hook.previous_procedure(), OLD_PROC);
}

#[test]
fn attach_registers_one_entry_and_detach_removes_it() {
    let mut registry = HookRegistry::new();
    assert!(!registry.is_attached(WINDOW));
    let _rx = registry.attach(WINDOW, OLD_PROC, 0).unwrap();
    assert!(registry.is_attached(WINDOW));
    assert!(!registry.is_attached(WINDOW + 1));
    assert_eq!(registry.detach(WINDOW), Some(OLD_PROC));
    assert!(!registry.is_attached(WINDOW));
    assert_eq!(registry.detach(WINDOW), None);
}

#[test]
fn second_attach_is_refused_and_keeps_the_first() {
    let mut registry = HookRegistry::new();
    let rx = registry.attach(WINDOW, OLD_PROC, 0).unwrap();
    match registry.attach(WINDOW, 0x9999, 0) {
        Err(e) => assert_eq!(e, AttachError::AlreadyAttached),
        Ok(_) => panic!("second attach accepted"),
    }
    assert_eq!(registry.detach(WINDOW), Some(OLD_PROC));
    assert!(rx.recv().is_err());
}

#[test]
fn failed_install_reports_the_system_error() {
    let mut registry = HookRegistry::new();
    match registry.attach(WINDOW, 0, 5) {
        Err(e) => assert_eq!(e, AttachError::AttachFailed(5)),
        Ok(_) => panic!("attach accepted a failed install"),
    }
    assert!(!registry.is_attached(WINDOW));
}

#[test]
fn detach_closes_the_channel() {
    let mut registry = HookRegistry::new();
    let rx = registry.attach(WINDOW, OLD_PROC, 0).unwrap();
    registry.trampoline(WINDOW, message(WM_KEYDOWN, 0x0D), Some(input(None, 0x1C)));
    registry.detach(WINDOW);
    assert!(rx.recv().is_ok());
    assert!(rx.recv().is_err());
}

#[test]
fn restoring_on_a_destroyed_window_is_no_error() {
    assert_eq!(HookRegistry::restore_result(0, ERROR_INVALID_WINDOW_HANDLE), Ok(()));
    assert_eq!(HookRegistry::restore_result(OLD_PROC, 0), Ok(()));
    assert_eq!(HookRegistry::restore_result(OLD_PROC, 87), Ok(()));
}

#[test]
fn restoring_that_fails_otherwise_is_an_error() {
    assert_eq!(HookRegistry::restore_result(0, 5), Err(DetachError::RestoreFailed(5)));
    assert_eq!(HookRegistry::restore_result(0, 0), Err(DetachError::RestoreFailed(0)));
}

#[test]
fn check_attach_refuses_an_attached_window() {
    let mut registry = HookRegistry::new();
    assert_eq!(registry.check_attach(WINDOW), Ok(()));
    let _rx = registry.attach(WINDOW, OLD_PROC, 0).unwrap();
    assert_eq!(registry.check_attach(WINDOW), Err(AttachError::AlreadyAttached));
    assert_eq!(registry.check_attach(WINDOW + 1), Ok(()));
    registry.detach(WINDOW);
    assert_eq!(registry.check_attach(WINDOW), Ok(()));
}

#[test]
fn forward_reads_the_previous_procedure() {
    let mut registry = HookRegistry::new();
    let m = Message { msg: 0x000F, wparam: 3, lparam: -2 };
    assert_eq!(registry.forward(WINDOW, m).procedure, None);
    let _rx = registry.attach(WINDOW, OLD_PROC, 0).unwrap();
    let f = registry.forward(WINDOW, m);
    assert_eq!(f.procedure, Some(OLD_PROC));
    assert_eq!(f.message, m);
}
