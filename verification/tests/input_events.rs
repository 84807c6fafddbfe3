//! Tests of the input/event translation layer: the key and mouse
//! mappings, event translation, and the frame-scoped key state.

use loop_kit::input::{
    convert_key_code, convert_mouse_button, translate_event, Event, InputState, KeyCode,
    MouseButton, NativeButton, NativeEvent, NativeKey, Point, Size,
};

#[test]
fn every_letter_digit_and_function_key_maps_to_its_name() {
    assert_eq!(convert_key_code(NativeKey::KeyA), KeyCode::A);
    assert_eq!(convert_key_code(NativeKey::KeyB), KeyCode::B);
    assert_eq!(convert_key_code(NativeKey::KeyC), KeyCode::C);
    assert_eq!(convert_key_code(NativeKey::KeyD), KeyCode::D);
    assert_eq!(convert_key_code(NativeKey::KeyE), KeyCode::E);
    assert_eq!(convert_key_code(NativeKey::KeyF), KeyCode::F);
    assert_eq!(convert_key_code(NativeKey::KeyG), KeyCode::G);
    assert_eq!(convert_key_code(NativeKey::KeyH), KeyCode::H);
    assert_eq!(convert_key_code(NativeKey::KeyI), KeyCode::I);
    assert_eq!(convert_key_code(NativeKey::KeyJ), KeyCode::J);
    assert_eq!(convert_key_code(NativeKey::KeyK), KeyCode::K);
    assert_eq!(convert_key_code(NativeKey::KeyL), KeyCode::L);
    assert_eq!(convert_key_code(NativeKey::KeyM), KeyCode::M);
    assert_eq!(convert_key_code(NativeKey::KeyN), KeyCode::N);
    assert_eq!(convert_key_code(NativeKey::KeyO), KeyCode::O);
    assert_eq!(convert_key_code(NativeKey::KeyP), KeyCode::P);
    assert_eq!(convert_key_code(NativeKey::KeyQ), KeyCode::Q);
    assert_eq!(convert_key_code(NativeKey::KeyR), KeyCode::R);
    assert_eq!(convert_key_code(NativeKey::KeyS), KeyCode::S);
    assert_eq!(convert_key_code(NativeKey::KeyT), KeyCode::T);
    assert_eq!(convert_key_code(NativeKey::KeyU), KeyCode::U);
    assert_eq!(convert_key_code(NativeKey::KeyV), KeyCode::V);
    assert_eq!(convert_key_code(NativeKey::KeyW), KeyCode::W);
    assert_eq!(convert_key_code(NativeKey::KeyX), KeyCode::X);
    assert_eq!(convert_key_code(NativeKey::KeyY), KeyCode::Y);
    assert_eq!(convert_key_code(NativeKey::KeyZ), KeyCode::Z);
    assert_eq!(convert_key_code(NativeKey::Digit0), KeyCode::Num0);
    assert_eq!(convert_key_code(NativeKey::Digit1), KeyCode::Num1);
    assert_eq!(convert_key_code(NativeKey::Digit2), KeyCode::Num2);
    assert_eq!(convert_key_code(NativeKey::Digit3), KeyCode::Num3);
    assert_eq!(convert_key_code(NativeKey::Digit4), KeyCode::Num4);
    assert_eq!(convert_key_code(NativeKey::Digit5), KeyCode::Num5);
    assert_eq!(convert_key_code(NativeKey::Digit6), KeyCode::Num6);
    assert_eq!(convert_key_code(NativeKey::Digit7), KeyCode::Num7);
    assert_eq!(convert_key_code(NativeKey::Digit8), KeyCode::Num8);
    assert_eq!(convert_key_code(NativeKey::Digit9), KeyCode::Num9);
    assert_eq!(convert_key_code(NativeKey::F1), KeyCode::F1);
    assert_eq!(convert_key_code(NativeKey::F2), KeyCode::F2);
    assert_eq!(convert_key_code(NativeKey::F3), KeyCode::F3);
    assert_eq!(convert_key_code(NativeKey::F4), KeyCode::F4);
    assert_eq!(convert_key_code(NativeKey::F5), KeyCode::F5);
    assert_eq!(convert_key_code(NativeKey::F6), KeyCode::F6);
    assert_eq!(convert_key_code(NativeKey::F7), KeyCode::F7);
    assert_eq!(convert_key_code(NativeKey::F8), KeyCode::F8);
    assert_eq!(convert_key_code(NativeKey::F9), KeyCode::F9);
    assert_eq!(convert_key_code(NativeKey::F10), KeyCode::F10);
    assert_eq!(convert_key_code(NativeKey::F11), KeyCode::F11);
    assert_eq!(convert_key_code(NativeKey::F12), KeyCode::F12);
}

#[test]
fn unmapped_keys_map_to_unknown() {
    assert_eq!(convert_key_code(NativeKey::Other), KeyCode::Unknown);
}

#[test]
fn modifier_pairs_collapse() {
    assert_eq!(convert_key_code(NativeKey::ShiftLeft), KeyCode::Shift);
    assert_eq!(convert_key_code(NativeKey::ShiftRight), KeyCode::Shift);
    assert_eq!(convert_key_code(NativeKey::ControlLeft), KeyCode::Ctrl);
    assert_eq!(convert_key_code(NativeKey::ControlRight), KeyCode::Ctrl);
    assert_eq!(convert_key_code(NativeKey::AltLeft), KeyCode::Alt);
    assert_eq!(convert_key_code(NativeKey::AltRight), KeyCode::Alt);
    assert_eq!(convert_key_code(NativeKey::SuperLeft), KeyCode::Super);
    assert_eq!(convert_key_code(NativeKey::SuperRight), KeyCode::Super);
}

#[test]
fn named_editing_and_arrow_keys_keep_their_names() {
    assert_eq!(convert_key_code(NativeKey::Escape), KeyCode::Escape);
    assert_eq!(convert_key_code(NativeKey::Enter), KeyCode::Enter);
    assert_eq!(convert_key_code(NativeKey::Space), KeyCode::Space);
    assert_eq!(convert_key_code(NativeKey::Tab), KeyCode::Tab);
    assert_eq!(convert_key_code(NativeKey::Backspace), KeyCode::Backspace);
    assert_eq!(convert_key_code(NativeKey::Delete), KeyCode::Delete);
    assert_eq!(convert_key_code(NativeKey::ArrowLeft), KeyCode::Left);
    assert_eq!(convert_key_code(NativeKey::ArrowRight), KeyCode::Right);
    assert_eq!(convert_key_code(NativeKey::ArrowUp), KeyCode::Up);
    assert_eq!(convert_key_code(NativeKey::ArrowDown), KeyCode::Down);
    assert_eq!(convert_key_code(NativeKey::Home), KeyCode::Home);
    assert_eq!(convert_key_code(NativeKey::End), KeyCode::End);
    assert_eq!(convert_key_code(NativeKey::PageUp), KeyCode::PageUp);
    assert_eq!(convert_key_code(NativeKey::PageDown), KeyCode::PageDown);
}

#[test]
fn unrecognised_mouse_buttons_are_dropped() {
    assert_eq!(convert_mouse_button(NativeButton::Other(7)), None);
    assert_eq!(convert_mouse_button(NativeButton::Other(0)), None);
    let ev = NativeEvent::MouseInput { button: NativeButton::Other(9), pressed: true };
    assert_eq!(translate_event(&ev), None);
    let ev = NativeEvent::MouseInput { button: NativeButton::Other(9), pressed: false };
    assert_eq!(translate_event(&ev), None);
}

#[test]
fn recognised_mouse_buttons_produce_exactly_one_event() {
    assert_eq!(convert_mouse_button(NativeButton::Left), Some(MouseButton::Left));
    assert_eq!(convert_mouse_button(NativeButton::Right), Some(MouseButton::Right));
    assert_eq!(convert_mouse_button(NativeButton::Middle), Some(MouseButton::Middle));
    assert_eq!(convert_mouse_button(NativeButton::Back), Some(MouseButton::Back));
    assert_eq!(convert_mouse_button(NativeButton::Forward), Some(MouseButton::Forward));
    let ev = NativeEvent::MouseInput { button: NativeButton::Left, pressed: true };
    assert_eq!(translate_event(&ev), Some(Event::MousePressed(MouseButton::Left)));
    let ev = NativeEvent::MouseInput { button: NativeButton::Forward, pressed: false };
    assert_eq!(translate_event(&ev), Some(Event::MouseReleased(MouseButton::Forward)));
}

#[test]
fn window_events_translate_one_to_one() {
    assert_eq!(
        translate_event(&NativeEvent::CloseRequested),
        Some(Event::CloseRequested)
    );
    assert_eq!(
        translate_event(&NativeEvent::Resized(Size { width: 640, height: 480 })),
        Some(Event::Resized(Size { width: 640, height: 480 }))
    );
    assert_eq!(
        translate_event(&NativeEvent::Focused(true)),
        Some(Event::Focused(true))
    );
    assert_eq!(
        translate_event(&NativeEvent::Key { key: NativeKey::KeyA, pressed: true }),
        Some(Event::KeyPressed(KeyCode::A))
    );
    assert_eq!(
        translate_event(&NativeEvent::Key { key: NativeKey::KeyA, pressed: false }),
        Some(Event::KeyReleased(KeyCode::A))
    );
    assert_eq!(
        translate_event(&NativeEvent::CursorMoved(Point { x: 10, y: 20 })),
        Some(Event::MouseMoved(Point { x: 10, y: 20 }))
    );
    assert_eq!(translate_event(&NativeEvent::CursorEntered), Some(Event::MouseEntered));
    assert_eq!(translate_event(&NativeEvent::CursorLeft), Some(Event::MouseLeft));
    assert_eq!(
        translate_event(&NativeEvent::MouseWheel(0, -3)),
        Some(Event::MouseScroll(0, -3))
    );
    assert_eq!(translate_event(&NativeEvent::RedrawRequested), None);
    assert_eq!(translate_event(&NativeEvent::Other), None);
}

#[test]
fn pressed_clears_each_tick_and_down_tracks_held_keys() {
    let mut st = InputState::new();
    st.note_key(KeyCode::A, true);
    st.note_key(KeyCode::B, true);
    assert!(st.is_key_pressed(KeyCode::A));
    assert!(st.is_key_down(KeyCode::A));
    assert!(st.is_key_pressed(KeyCode::B));
    st.begin_update();
    assert!(!st.is_key_pressed(KeyCode::A));
    assert!(st.is_key_down(KeyCode::A));
    assert!(st.is_key_down(KeyCode::B));
    st.note_key(KeyCode::A, false);
    assert!(!st.is_key_down(KeyCode::A));
    assert!(st.is_key_down(KeyCode::B));
}
