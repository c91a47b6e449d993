use uni_app::events::{
    CursorPosition, DeviceId, ElementState, Event, KeyboardInput, ModifiersState, MouseButton,
    VirtualKeyCode,
};
use uni_app::sink::EventSink;

fn key_event(code: u32) -> Event {
    Event::KeyboardInput {
        device: DeviceId,
        input: KeyboardInput::from_keyboard_event(code, false, false, false, ElementState::Pressed),
    }
}

#[test]
fn drain_returns_pushes_in_arrival_order() {
    let mut sink = EventSink::new();
    let e1 = key_event(65);
    let e2 = Event::CursorMoved {
        device: DeviceId,
        position: CursorPosition { x: 12, y: 34 },
        modifiers: ModifiersState::default(),
    };
    let e3 = Event::Resized(640, 480);
    sink.push(e1);
    sink.push(e2);
    sink.push(e3);
    assert_eq!(sink.len(), 3);
    let drained = sink.drain_and_clear();
    assert_eq!(drained, vec![e1, e2, e3]);
    assert_eq!(sink.len(), 0);
}

#[test]
fn drain_of_empty_sink_returns_empty() {
    let mut sink = EventSink::new();
    let drained = sink.drain_and_clear();
    assert!(drained.is_empty());
}

#[test]
fn drain_after_drain_with_no_pushes_is_empty() {
    let mut sink = EventSink::new();
    sink.push(Event::Closed);
    let first = sink.drain_and_clear();
    assert_eq!(first, vec![Event::Closed]);
    let second = sink.drain_and_clear();
    assert!(second.is_empty());
}

#[test]
fn pushes_after_a_drain_accumulate_afresh() {
    let mut sink = EventSink::new();
    sink.push(key_event(13));
    sink.drain_and_clear();
    let e = key_event(27);
    sink.push(e);
    assert_eq!(sink.drain_and_clear(), vec![e]);
}

#[test]
fn key_codes_translate_to_named_keys() {
    assert_eq!(VirtualKeyCode::from_key_code(8), VirtualKeyCode::Back);
    assert_eq!(VirtualKeyCode::from_key_code(13), VirtualKeyCode::Return);
    assert_eq!(VirtualKeyCode::from_key_code(27), VirtualKeyCode::Escape);
    assert_eq!(VirtualKeyCode::from_key_code(32), VirtualKeyCode::Space);
    assert_eq!(VirtualKeyCode::from_key_code(37), VirtualKeyCode::Left);
    assert_eq!(VirtualKeyCode::from_key_code(38), VirtualKeyCode::Up);
    assert_eq!(VirtualKeyCode::from_key_code(39), VirtualKeyCode::Right);
    assert_eq!(VirtualKeyCode::from_key_code(40), VirtualKeyCode::Down);
    assert_eq!(VirtualKeyCode::from_key_code(48), VirtualKeyCode::Key0);
    assert_eq!(VirtualKeyCode::from_key_code(57), VirtualKeyCode::Key9);
    assert_eq!(VirtualKeyCode::from_key_code(65), VirtualKeyCode::A);
    assert_eq!(VirtualKeyCode::from_key_code(90), VirtualKeyCode::Z);
}

#[test]
fn unmapped_key_codes_translate_to_unknown_not_an_error() {
    assert_eq!(VirtualKeyCode::from_key_code(7), VirtualKeyCode::Unknown);
    assert_eq!(VirtualKeyCode::from_key_code(91), VirtualKeyCode::Unknown);
    assert_eq!(VirtualKeyCode::from_key_code(u32::MAX), VirtualKeyCode::Unknown);
}

#[test]
fn mouse_buttons_translate_and_keep_unknown_codes() {
    assert_eq!(MouseButton::from_mouse_button(0), MouseButton::Left);
    assert_eq!(MouseButton::from_mouse_button(1), MouseButton::Middle);
    assert_eq!(MouseButton::from_mouse_button(2), MouseButton::Right);
    assert_eq!(MouseButton::from_mouse_button(3), MouseButton::Other(3));
    assert_eq!(MouseButton::from_mouse_button(-1), MouseButton::Other(-1));
}

#[test]
fn keyboard_event_normalization_fills_every_field() {
    let input = KeyboardInput::from_keyboard_event(65, true, false, true, ElementState::Released);
    assert_eq!(input.scancode, 0);
    assert_eq!(input.state, ElementState::Released);
    assert_eq!(input.virtual_keycode, VirtualKeyCode::A);
    assert_eq!(
        input.modifiers,
        ModifiersState { shift: true, ctrl: false, alt: true, logo: false }
    );
}

#[test]
fn default_modifiers_hold_nothing() {
    let m = ModifiersState::default();
    assert!(!m.shift && !m.ctrl && !m.alt && !m.logo);
}
