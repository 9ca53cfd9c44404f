use egui_sfml::driver::FrameDriver;
use egui_sfml::input::{
    handle_event, make_raw_input, needs_clipboard, GuiEvent, ModifierKeys, NativeEvent,
    PendingInput, ScreenRect,
};
use egui_sfml::keys::{button_conv, key_conv, modifier, GuiKey, Modifiers, MouseButton, NativeKey, PointerButton};
use egui_sfml::output::Cursors;

fn empty_input() -> PendingInput {
    let mut raw = make_raw_input(800, 600);
    let _ = raw.take();
    raw
}

fn press(code: NativeKey, ctrl: bool) -> NativeEvent {
    NativeEvent::KeyPressed { code, alt: false, ctrl, shift: false, system: false }
}

fn no_text() -> String {
    String::new()
}

#[test]
fn recognized_key_press_maps_through_table() {
    let cases = [
        (NativeKey::Down, GuiKey::ArrowDown),
        (NativeKey::LBracket, GuiKey::OpenBracket),
        (NativeKey::RBracket, GuiKey::CloseBracket),
        (NativeKey::Num7, GuiKey::Num7),
        (NativeKey::Q, GuiKey::Q),
        (NativeKey::F12, GuiKey::F12),
        (NativeKey::Equal, GuiKey::Equals),
        (NativeKey::Hyphen, GuiKey::Minus),
        (NativeKey::Tilde, GuiKey::Backtick),
    ];
    for (code, key) in cases {
        assert_eq!(key_conv(code), Some(key));
        let mut raw = empty_input();
        handle_event(&mut raw, &press(code, false), &no_text(), false);
        assert_eq!(
            raw.events,
            vec![GuiEvent::Key {
                key,
                modifiers: modifier(false, false, false),
                pressed: true,
                repeat: false,
            }]
        );
    }
}

#[test]
fn unrecognized_key_yields_no_key_event() {
    for code in [NativeKey::LControl, NativeKey::F13, NativeKey::Numpad3, NativeKey::Unknown, NativeKey::Pause] {
        assert_eq!(key_conv(code), None);
        let mut raw = empty_input();
        handle_event(&mut raw, &press(code, false), &no_text(), false);
        handle_event(
            &mut raw,
            &NativeEvent::KeyReleased { code, alt: true, ctrl: false, shift: false, system: false },
            &no_text(),
            false,
        );
        assert!(raw.events.is_empty());
    }
}

#[test]
fn key_release_carries_modifiers() {
    let mut raw = empty_input();
    let ev = NativeEvent::KeyReleased { code: NativeKey::A, alt: true, ctrl: true, shift: true, system: false };
    handle_event(&mut raw, &ev, &no_text(), false);
    assert_eq!(
        raw.events,
        vec![GuiEvent::Key {
            key: GuiKey::A,
            modifiers: Modifiers { alt: true, ctrl: true, shift: true, command: true, mac_cmd: false },
            pressed: false,
            repeat: false,
        }]
    );
}

#[test]
fn ctrl_v_pastes_clipboard_before_key_event() {
    let ev = press(NativeKey::V, true);
    assert!(needs_clipboard(&ev));
    let mut raw = empty_input();
    handle_event(&mut raw, &ev, &"hello".to_string(), false);
    assert_eq!(
        raw.events,
        vec![
            GuiEvent::Text("hello".to_string()),
            GuiEvent::Key { key: GuiKey::V, modifiers: modifier(false, true, false), pressed: true, repeat: false },
        ]
    );
}

#[test]
fn plain_v_reads_no_clipboard() {
    let ev = press(NativeKey::V, false);
    assert!(!needs_clipboard(&ev));
    let mut raw = empty_input();
    handle_event(&mut raw, &ev, &"hello".to_string(), false);
    assert_eq!(raw.events.len(), 1);
    assert!(matches!(raw.events[0], GuiEvent::Key { key: GuiKey::V, .. }));
}

#[test]
fn ctrl_c_and_ctrl_x_request_copy_and_cut() {
    let mut raw = empty_input();
    handle_event(&mut raw, &press(NativeKey::C, true), &no_text(), false);
    handle_event(&mut raw, &press(NativeKey::X, true), &no_text(), false);
    let ctrl = modifier(false, true, false);
    assert_eq!(
        raw.events,
        vec![
            GuiEvent::Copy,
            GuiEvent::Key { key: GuiKey::C, modifiers: ctrl, pressed: true, repeat: false },
            GuiEvent::Cut,
            GuiEvent::Key { key: GuiKey::X, modifiers: ctrl, pressed: true, repeat: false },
        ]
    );
}

#[test]
fn pointer_events_translate() {
    let mut raw = empty_input();
    handle_event(&mut raw, &NativeEvent::MouseMoved { x: 12, y: -3 }, &no_text(), false);
    handle_event(&mut raw, &NativeEvent::MouseButtonPressed { button: MouseButton::Left, x: 5, y: 6 }, &no_text(), false);
    handle_event(&mut raw, &NativeEvent::MouseButtonReleased { button: MouseButton::Right, x: 7, y: 8 }, &no_text(), false);
    handle_event(&mut raw, &NativeEvent::MouseButtonPressed { button: MouseButton::XButton1, x: 1, y: 1 }, &no_text(), false);
    let none = modifier(false, false, false);
    assert_eq!(
        raw.events,
        vec![
            GuiEvent::PointerMoved { x: 12, y: -3 },
            GuiEvent::PointerButton { x: 5, y: 6, button: PointerButton::Primary, pressed: true, modifiers: none },
            GuiEvent::PointerButton { x: 7, y: 8, button: PointerButton::Secondary, pressed: false, modifiers: none },
        ]
    );
    assert_eq!(button_conv(MouseButton::Middle), Some(PointerButton::Middle));
    assert_eq!(button_conv(MouseButton::XButton2), None);
}

#[test]
fn text_entered_skips_control_characters() {
    let mut raw = empty_input();
    handle_event(&mut raw, &NativeEvent::TextEntered { unicode: 'a' }, &no_text(), false);
    handle_event(&mut raw, &NativeEvent::TextEntered { unicode: '\u{8}' }, &no_text(), false);
    handle_event(&mut raw, &NativeEvent::TextEntered { unicode: '\u{7f}' }, &no_text(), false);
    handle_event(&mut raw, &NativeEvent::TextEntered { unicode: '\u{9f}' }, &no_text(), false);
    handle_event(&mut raw, &NativeEvent::TextEntered { unicode: 'é' }, &no_text(), false);
    assert_eq!(raw.events, vec![GuiEvent::Text("a".to_string()), GuiEvent::Text("é".to_string())]);
}

#[test]
fn wheel_zooms_only_with_left_ctrl() {
    let mut raw = empty_input();
    handle_event(&mut raw, &NativeEvent::MouseWheelScrolled { positive: true }, &no_text(), false);
    assert!(raw.events.is_empty());
    handle_event(&mut raw, &NativeEvent::MouseWheelScrolled { positive: true }, &no_text(), true);
    handle_event(&mut raw, &NativeEvent::MouseWheelScrolled { positive: false }, &no_text(), true);
    assert_eq!(raw.events, vec![GuiEvent::Zoom { tenths: 11 }, GuiEvent::Zoom { tenths: 9 }]);
}

#[test]
fn resize_updates_screen_rect_for_next_frame() {
    let mut raw = empty_input();
    assert_eq!(raw.screen_rect, None);
    handle_event(&mut raw, &NativeEvent::Resized { width: 1024, height: 768 }, &no_text(), false);
    let expected = ScreenRect { min_x: 0, min_y: 0, max_x: 1024, max_y: 768 };
    assert_eq!(raw.screen_rect, Some(expected));
    assert!(raw.events.is_empty());
    let frame = raw.take();
    assert_eq!(frame.screen_rect, Some(expected));
    assert_eq!(raw.screen_rect, None);
}

#[test]
fn other_events_are_ignored() {
    let mut raw = empty_input();
    handle_event(&mut raw, &NativeEvent::Other, &no_text(), true);
    assert!(raw.events.is_empty());
    assert_eq!(raw.screen_rect, None);
}

#[test]
fn new_input_spans_window() {
    let raw = make_raw_input(640, 480);
    assert!(raw.events.is_empty());
    assert_eq!(raw.screen_rect, Some(ScreenRect { min_x: 0, min_y: 0, max_x: 640, max_y: 480 }));
    assert_eq!(raw.time_micros, None);
}

#[test]
fn frame_input_is_delivered_once_in_order() {
    let cursors = Cursors { arrow: 0u8, horizontal: 1, vertical: 2, hand: 3, cross: 4, text: 5 };
    let mut driver = FrameDriver::new(800, 600, cursors);
    driver.add_event(&NativeEvent::MouseMoved { x: 1, y: 2 }, &no_text(), false);
    driver.add_event(&NativeEvent::TextEntered { unicode: 'z' }, &no_text(), false);
    let keys = ModifierKeys { lalt: false, ralt: true, lcontrol: false, rcontrol: false, lshift: true, rshift: false };
    let frame = driver.prepare_raw_input(2_500_000, keys);
    assert_eq!(frame.events, vec![GuiEvent::PointerMoved { x: 1, y: 2 }, GuiEvent::Text("z".to_string())]);
    assert_eq!(frame.screen_rect, Some(ScreenRect { min_x: 0, min_y: 0, max_x: 800, max_y: 600 }));
    assert_eq!(frame.time_micros, Some(2_500_000));
    assert!(frame.modifiers.alt && !frame.modifiers.ctrl && frame.modifiers.shift);
    let next = driver.prepare_raw_input(3_000_000, keys);
    assert!(next.events.is_empty());
    assert_eq!(next.screen_rect, None);
    assert_eq!(next.time_micros, Some(3_000_000));
}
