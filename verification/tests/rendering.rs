use tauri_runtime_cef::osr::{
    present_frame, CefRect, OsrState, OsrSurface, PaintElementType,
};
use tauri_runtime_cef::runtime::input::{
    host_inputs, ElementState, HostInput, InputEvent, KeyEventType, MouseButton, MouseButtonType,
    MouseScrollDelta,
};
use tauri_runtime_cef::runtime::keyboard::{tao_key_to_windows_vk, Key};

#[test]
fn a_new_surface_is_black_and_has_at_least_one_pixel() {
    let state = OsrState::new(2, 3, 1.5f32.to_bits());
    assert_eq!(state.pixels, vec![0; 6]);
    assert!(!state.dirty);
    assert_eq!(state.view_rect(), CefRect { x: 0, y: 0, width: 2, height: 3 });
    assert_eq!(OsrState::new(0, -4, 0).pixels.len(), 1);
    let info = state.screen_info();
    assert_eq!((info.depth, info.depth_per_component, info.is_monochrome), (32, 8, 0));
    assert_eq!(f32::from_bits(info.device_scale_factor), 1.5);
}

#[test]
fn painted_pixels_lose_their_alpha_channel() {
    let mut state = OsrState::new(1, 1, 0);
    let bgra = [0x11, 0x22, 0x33, 0x44, 0x55, 0x66, 0x77, 0x00];
    assert!(state.on_paint(PaintElementType::View, Some(&bgra), 2, 1));
    assert_eq!(state.pixels, vec![0x0033_2211, 0x0077_6655]);
    assert_eq!(state.size, (2, 1));
    assert!(state.dirty);
}

#[test]
fn popups_and_empty_frames_are_not_painted() {
    let mut state = OsrState::new(1, 1, 0);
    assert!(!state.on_paint(PaintElementType::Popup, Some(&[1, 2, 3, 4]), 1, 1));
    assert!(!state.on_paint(PaintElementType::View, None, 1, 1));
    assert!(!state.on_paint(PaintElementType::View, Some(&[]), 0, 1));
    assert!(!state.dirty);
}

#[test]
fn a_frame_is_shown_once() {
    let mut state = OsrState::new(1, 1, 0);
    let mut surface = OsrSurface::new();
    assert!(!present_frame(&mut surface, &mut state));
    assert!(state.on_paint(PaintElementType::View, Some(&[1, 2, 3, 4]), 1, 1));
    assert!(present_frame(&mut surface, &mut state));
    assert_eq!((surface.width, surface.height), (1, 1));
    assert_eq!(surface.buffer, vec![0x0003_0201]);
    assert!(!state.dirty);
    assert!(!present_frame(&mut surface, &mut state));
}

#[test]
fn what_a_frame_lacks_is_black() {
    let mut surface = OsrSurface::new();
    surface.present(&[7, 8], 3, 1);
    assert_eq!(surface.buffer, vec![7, 8, 0]);
    surface.present(&[7, 8], 1, 1);
    assert_eq!(surface.buffer, vec![7]);
}

#[test]
fn a_size_is_new_only_once() {
    let mut state = OsrState::new(4, 4, 0);
    assert!(state.resize_if_changed(5, 4, 1));
    assert!(!state.resize_if_changed(5, 4, 2));
    assert_eq!(state.scale_factor, 1);
    assert_eq!(state.pixels.len(), 20);
    state.resize(0, 2, 3);
    assert_eq!(state.size, (1, 2));
}

#[test]
fn a_frame_does_not_make_a_size_new() {
    let mut state = OsrState::new(1, 1, 0);
    assert!(state.resize_if_changed(2, 1, 0));
    // CEF paints in physical pixels.
    assert!(state.on_paint(PaintElementType::View, Some(&[9; 32]), 4, 2));
    assert_eq!((state.size, state.logical_size), ((4, 2), (2, 1)));
    assert_eq!(state.view_rect(), CefRect { x: 0, y: 0, width: 2, height: 1 });
    assert_eq!(state.screen_info().rect, state.view_rect());
    assert!(!state.resize_if_changed(2, 1, 0));
    assert!(state.dirty);
    assert!(state.resize_if_changed(4, 2, 0));
}

fn code(key: Key) -> i32 {
    tao_key_to_windows_vk(&key)
}

#[test]
fn keys_have_their_windows_codes() {
    assert_eq!(code(Key::Character("a".to_string())), 0x41);
    assert_eq!(code(Key::Character("A".to_string())), 0x41);
    assert_eq!(code(Key::Character("7".to_string())), 0x37);
    assert_eq!(code(Key::Character("ß".to_string())), 0);
    assert_eq!(code(Key::Character(String::new())), 0);
    assert_eq!(code(Key::Enter), 0x0D);
    assert_eq!(code(Key::Backspace), 0x08);
    assert_eq!(code(Key::Tab), 0x09);
    assert_eq!(code(Key::Escape), 0x1B);
    assert_eq!(code(Key::Space), 0x20);
    assert_eq!(code(Key::ArrowLeft), 0x25);
    assert_eq!(code(Key::ArrowUp), 0x26);
    assert_eq!(code(Key::ArrowRight), 0x27);
    assert_eq!(code(Key::ArrowDown), 0x28);
    assert_eq!(code(Key::Home), 0x24);
    assert_eq!(code(Key::End), 0x23);
    assert_eq!(code(Key::PageUp), 0x21);
    assert_eq!(code(Key::PageDown), 0x22);
    assert_eq!(code(Key::Delete), 0x2E);
    assert_eq!(code(Key::Insert), 0x2D);
    assert_eq!(code(Key::F1), 0x70);
    assert_eq!(code(Key::F12), 0x7B);
    assert_eq!(code(Key::Control), 0x11);
    assert_eq!(code(Key::Alt), 0x12);
    assert_eq!(code(Key::Shift), 0x10);
    assert_eq!(code(Key::Super), 0x5B);
    assert_eq!(code(Key::CapsLock), 0x14);
    assert_eq!(code(Key::Other), 0);
}

#[test]
fn the_cursor_moves_and_leaves() {
    let cursor = (3, 4);
    assert_eq!(
        host_inputs(&InputEvent::CursorMoved { x: 3, y: 4 }, cursor),
        vec![HostInput::MouseMove { x: 3, y: 4, mouse_leave: 0 }]
    );
    assert_eq!(
        host_inputs(&InputEvent::CursorLeft, cursor),
        vec![HostInput::MouseMove { x: 3, y: 4, mouse_leave: 1 }]
    );
}

#[test]
fn buttons_click_at_the_cursor() {
    let click = |state: ElementState, button: MouseButton| {
        host_inputs(&InputEvent::MouseInput { state, button }, (1, 2))
    };
    let expected = |button: MouseButtonType, mouse_up: i32| {
        vec![HostInput::MouseClick { x: 1, y: 2, button, mouse_up, click_count: 1 }]
    };
    assert_eq!(
        click(ElementState::Pressed, MouseButton::Left),
        expected(MouseButtonType::Left, 0)
    );
    assert_eq!(
        click(ElementState::Released, MouseButton::Right),
        expected(MouseButtonType::Right, 1)
    );
    assert_eq!(
        click(ElementState::Other, MouseButton::Middle),
        expected(MouseButtonType::Middle, 0)
    );
    assert_eq!(
        click(ElementState::Pressed, MouseButton::Other),
        expected(MouseButtonType::Left, 0)
    );
}

#[test]
fn a_line_of_the_wheel_has_fixed_units() {
    let wheel = |delta: MouseScrollDelta| host_inputs(&InputEvent::MouseWheel(delta), (0, 0));
    let expected = |delta_x: i32, delta_y: i32| {
        vec![HostInput::MouseWheel { x: 0, y: 0, delta_x, delta_y }]
    };
    assert_eq!(wheel(MouseScrollDelta::Lines(1, -2)), expected(120, -240));
    assert_eq!(wheel(MouseScrollDelta::Pixels(7, -9)), expected(7, -9));
    assert_eq!(wheel(MouseScrollDelta::Other), expected(0, 0));
}

#[test]
fn text_is_typed_when_its_key_is_pressed() {
    let key = |state: ElementState, text: &str| {
        let key = Key::Character(text.to_string());
        host_inputs(&InputEvent::KeyboardInput { state, key }, (0, 0))
    };
    let raw = |kind: KeyEventType, windows_key_code: i32, character: u16| HostInput::Key {
        kind,
        windows_key_code,
        character,
    };
    assert_eq!(
        key(ElementState::Pressed, "aé"),
        vec![
            raw(KeyEventType::RawKeyDown, 0x41, 0),
            raw(KeyEventType::Char, 0x61, 0x61),
            raw(KeyEventType::Char, 0xe9, 0xe9),
        ]
    );
    assert_eq!(key(ElementState::Released, "a"), vec![raw(KeyEventType::KeyUp, 0x41, 0)]);
    // Characters beyond sixteen bits are cut.
    assert_eq!(
        key(ElementState::Pressed, "😀")[1],
        raw(KeyEventType::Char, 0x1f600, 0xf600)
    );
    assert_eq!(host_inputs(&InputEvent::Focused(true), (0, 0)), vec![HostInput::Focus(1)]);
    assert_eq!(host_inputs(&InputEvent::Focused(false), (0, 0)), vec![HostInput::Focus(0)]);
}
