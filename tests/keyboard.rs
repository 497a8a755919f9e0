use webrender_backend::keyboard::{
    winit_keycode_emacs_key_name, EventKind, KeyboardProcessor, Modifiers, CTRL_MODIFIER,
    KEY_BACK, KEY_ESCAPE, KEY_RETURN, META_MODIFIER, SHIFT_MODIFIER, SUPER_MODIFIER,
};

#[test]
fn control_a_is_letter_a() {
    let kp = KeyboardProcessor::new();
    let e = kp.receive_char('\u{1}', 7u64).unwrap();
    assert_eq!(e.kind, EventKind::AsciiKeystroke);
    assert_eq!(e.code, 'a' as u32);
    assert_eq!(e.frame_or_window, 7u64);
}

#[test]
fn escape_code_follows_plus_64() {
    let kp = KeyboardProcessor::new();
    assert_eq!(kp.receive_char('\u{1b}', 0u64).unwrap().code, '[' as u32);
    assert_eq!(kp.receive_char('\u{0}', 0u64).unwrap().code, '@' as u32);
    assert_eq!(kp.receive_char('\u{1a}', 0u64).unwrap().code, 'z' as u32);
    assert_eq!(kp.receive_char('\u{1f}', 0u64).unwrap().code, '_' as u32);
}

#[test]
fn printable_chars_unchanged() {
    let kp = KeyboardProcessor::new();
    assert_eq!(kp.receive_char('A', 0u64).unwrap().code, 'A' as u32);
    assert_eq!(kp.receive_char(' ', 0u64).unwrap().code, ' ' as u32);
    assert_eq!(kp.receive_char('é', 0u64).unwrap().code, 'é' as u32);
}

#[test]
fn modifiers_map_to_host_bits() {
    let mut kp = KeyboardProcessor::new();
    assert_eq!(kp.receive_char('x', 0u64).unwrap().modifiers, 0);
    kp.change_modifiers(Modifiers { alt: true, shift: false, ctrl: true, logo: false });
    assert_eq!(kp.receive_char('x', 0u64).unwrap().modifiers, META_MODIFIER | CTRL_MODIFIER);
    kp.change_modifiers(Modifiers { alt: false, shift: true, ctrl: false, logo: true });
    assert_eq!(kp.receive_char('x', 0u64).unwrap().modifiers, SHIFT_MODIFIER | SUPER_MODIFIER);
    assert_eq!(META_MODIFIER, 0x0800_0000);
}

#[test]
fn special_key_suppresses_chars_until_release() {
    let mut kp = KeyboardProcessor::new();
    let e = kp.key_pressed(KEY_RETURN, 3u64).unwrap();
    assert_eq!(e.kind, EventKind::NonAsciiKeystroke);
    assert_eq!(e.code, KEY_RETURN);
    assert!(kp.suppress_chars);
    assert!(kp.receive_char('\r', 3u64).is_none());
    kp.key_released();
    assert!(kp.receive_char('a', 3u64).is_some());
}

#[test]
fn unnamed_key_gives_nothing() {
    let mut kp = KeyboardProcessor::new();
    assert!(kp.key_pressed(10, 0u64).is_none());
    assert!(!kp.suppress_chars);
}

#[test]
fn key_names() {
    assert_eq!(winit_keycode_emacs_key_name(KEY_ESCAPE), Some("escape"));
    assert_eq!(winit_keycode_emacs_key_name(KEY_BACK), Some("backspace"));
    assert_eq!(winit_keycode_emacs_key_name(KEY_RETURN), Some("return"));
    assert_eq!(winit_keycode_emacs_key_name(0), None);
}
