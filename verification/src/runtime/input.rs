//! Input for browsers that render off screen.
//!
//! A browser with a window of its own gets its input from the window system. One that
//! renders off screen has none, so the event loop hands it what its window gets.

use crate::runtime::keyboard;
use crate::runtime::keyboard::{tao_key_to_windows_vk, Key};
use vstd::prelude::*;

verus! {

/// A button or a key is pressed or released.
#[derive(Debug, Clone, Copy, PartialEq, Eq, Structural)]
pub enum ElementState {
    Pressed,
    Released,
    /// A state that this library does not know.
    Other,
}

/// A button of the mouse.
#[derive(Debug, Clone, Copy, PartialEq, Eq, Structural)]
pub enum MouseButton {
    Left,
    Right,
    Middle,
    /// Another button.
    Other,
}

/// How far a wheel was turned. Fractions are cut off.
#[derive(Debug, Clone, Copy, PartialEq, Eq, Structural)]
pub enum MouseScrollDelta {
    Lines(i32, i32),
    Pixels(i32, i32),
    /// A unit that this library does not know.
    Other,
}

/// Input that a window gets.
#[derive(Debug)]
pub enum InputEvent {
    /// The cursor is at a position, in physical pixels.
    CursorMoved { x: i32, y: i32 },
    CursorLeft,
    MouseInput { state: ElementState, button: MouseButton },
    MouseWheel(MouseScrollDelta),
    KeyboardInput { state: ElementState, key: Key },
    Focused(bool),
}

/// A button of the mouse, as CEF knows it.
#[derive(Debug, Clone, Copy, PartialEq, Eq, Structural)]
pub enum MouseButtonType {
    Left,
    Middle,
    Right,
}

/// What a key does, as CEF knows it.
#[derive(Debug, Clone, Copy, PartialEq, Eq, Structural)]
pub enum KeyEventType {
    RawKeyDown,
    KeyUp,
    Char,
}

/// An event that is sent to the host of a browser.
#[derive(Debug, Clone, Copy, PartialEq, Eq, Structural)]
pub enum HostInput {
    MouseMove { x: i32, y: i32, mouse_leave: i32 },
    MouseClick { x: i32, y: i32, button: MouseButtonType, mouse_up: i32, click_count: i32 },
    MouseWheel { x: i32, y: i32, delta_x: i32, delta_y: i32 },
    /// The modified and the unmodified character are the same.
    Key { kind: KeyEventType, windows_key_code: i32, character: u16 },
    Focus(i32),
}

/// The units of CEF in a line that a wheel turns.
pub const WHEEL_UNITS_PER_LINE: i32 = 120;

/// The lines that a wheel turned fit the units of CEF.
pub open spec fn fits_units(input: InputEvent) -> bool {
    input matches InputEvent::MouseWheel(MouseScrollDelta::Lines(x, y)) ==> {
        &&& i32::MIN <= x * WHEEL_UNITS_PER_LINE <= i32::MAX
        &&& i32::MIN <= y * WHEEL_UNITS_PER_LINE <= i32::MAX
    }
}

/// A button of the mouse as CEF knows it. Any other button counts as the left one.
pub open spec fn button_type(button: MouseButton) -> MouseButtonType {
    match button {
        MouseButton::Right => MouseButtonType::Right,
        MouseButton::Middle => MouseButtonType::Middle,
        _ => MouseButtonType::Left,
    }
}

/// How far a wheel was turned, in the units of CEF.
pub open spec fn wheel_units(delta: MouseScrollDelta) -> (int, int) {
    match delta {
        MouseScrollDelta::Lines(x, y) => (x * WHEEL_UNITS_PER_LINE, y * WHEEL_UNITS_PER_LINE),
        MouseScrollDelta::Pixels(x, y) => (x as int, y as int),
        MouseScrollDelta::Other => (0, 0),
    }
}

/// The event by which a browser learns of a character that was typed.
pub open spec fn typed(c: char) -> HostInput {
    HostInput::Key {
        kind: KeyEventType::Char,
        windows_key_code: c as i32,
        character: #[verifier::truncate]
        (c as u16),
    }
}

/// The events by which a browser learns of text that was typed.
pub open spec fn typed_text(text: Seq<char>) -> Seq<HostInput> {
    text.map_values(|c: char| typed(c))
}

/// The text that a key types when it is pressed.
pub open spec fn text_of_key(state: ElementState, key: Key) -> Seq<char> {
    match key {
        Key::Character(text) => if state == ElementState::Pressed {
            text@
        } else {
            Seq::empty()
        },
        _ => Seq::empty(),
    }
}

/// The events that input of a window becomes, with the cursor at a position.
pub open spec fn events_of(input: InputEvent, cursor: (i32, i32)) -> Seq<HostInput> {
    let (x, y) = cursor;
    match input {
        InputEvent::CursorMoved { .. } => seq![HostInput::MouseMove { x, y, mouse_leave: 0 }],
        InputEvent::CursorLeft => seq![HostInput::MouseMove { x, y, mouse_leave: 1 }],
        InputEvent::MouseInput { state, button } => seq![
            HostInput::MouseClick {
                x,
                y,
                button: button_type(button),
                mouse_up: if state == ElementState::Released {
                    1
                } else {
                    0
                },
                click_count: 1,
            },
        ],
        InputEvent::MouseWheel(delta) => seq![
            HostInput::MouseWheel {
                x,
                y,
                delta_x: wheel_units(delta).0 as i32,
                delta_y: wheel_units(delta).1 as i32,
            },
        ],
        InputEvent::KeyboardInput { state, key } => seq![
            HostInput::Key {
                kind: if state == ElementState::Pressed {
                    KeyEventType::RawKeyDown
                } else {
                    KeyEventType::KeyUp
                },
                windows_key_code: keyboard::windows_vk(key) as i32,
                character: 0,
            },
        ] + typed_text(text_of_key(state, key)),
        InputEvent::Focused(focused) => seq![
            HostInput::Focus(
                if focused {
                    1
                } else {
                    0
                },
            ),
        ],
    }
}

fn push_typed(events: &mut Vec<HostInput>, text: &str)
    ensures
        final(events)@ == old(events)@ + typed_text(text@),
{
    let len: usize = text.unicode_len();
    let mut index: usize = 0;
    assert(events@ =~= old(events)@ + typed_text(text@.take(0)));
    while index < len
        invariant
            index <= len,
            len == text@.len(),
            events@ == old(events)@ + typed_text(text@.take(index as int)),
        decreases len - index,
    {
        let c = text.get_char(index);
        events.push(
            HostInput::Key {
                kind: KeyEventType::Char,
                windows_key_code: c as i32,
                character: #[verifier::truncate]
                (c as u16),
            },
        );
        index = index + 1;
        assert(text@.take(index as int) =~= text@.take(index - 1).push(c));
        assert(typed_text(text@.take(index as int)) =~= typed_text(text@.take(index - 1)).push(
            typed(c),
        ));
        assert(events@ =~= old(events)@ + typed_text(text@.take(index as int)));
    }
    assert(text@.take(len as int) =~= text@);
}

/// The events that input of a window becomes, with the cursor at a position.
pub fn host_inputs(input: &InputEvent, cursor: (i32, i32)) -> (events: Vec<HostInput>)
    requires
        fits_units(*input),
    ensures
        events@ == events_of(*input, cursor),
{
    let (x, y) = cursor;
    match input {
        InputEvent::CursorMoved { .. } => vec![HostInput::MouseMove { x, y, mouse_leave: 0 }],
        InputEvent::CursorLeft => vec![HostInput::MouseMove { x, y, mouse_leave: 1 }],
        InputEvent::MouseInput { state, button } => {
            let button = match button {
                MouseButton::Left => MouseButtonType::Left,
                MouseButton::Right => MouseButtonType::Right,
                MouseButton::Middle => MouseButtonType::Middle,
                MouseButton::Other => MouseButtonType::Left,
            };
            let mouse_up: i32 = match state {
                ElementState::Released => 1,
                _ => 0,
            };
            vec![HostInput::MouseClick { x, y, button, mouse_up, click_count: 1 }]
        },
        InputEvent::MouseWheel(delta) => {
            let (delta_x, delta_y): (i32, i32) = match delta {
                MouseScrollDelta::Lines(x, y) => (
                    *x * WHEEL_UNITS_PER_LINE,
                    *y * WHEEL_UNITS_PER_LINE,
                ),
                MouseScrollDelta::Pixels(x, y) => (*x, *y),
                MouseScrollDelta::Other => (0, 0),
            };
            vec![HostInput::MouseWheel { x, y, delta_x, delta_y }]
        },
        InputEvent::KeyboardInput { state, key } => {
            let pressed = *state == ElementState::Pressed;
            let windows_key_code: i32 = tao_key_to_windows_vk(key);
            let kind = if pressed {
                KeyEventType::RawKeyDown
            } else {
                KeyEventType::KeyUp
            };
            let mut events: Vec<HostInput> = vec![
                HostInput::Key { kind, windows_key_code, character: 0 },
            ];
            let ghost down = events@;
            if pressed {
                if let Key::Character(text) = key {
                    push_typed(&mut events, text.as_str());
                } else {
                    assert(events@ =~= down + typed_text(Seq::empty()));
                }
            } else {
                assert(events@ =~= down + typed_text(Seq::empty()));
            }
            events
        },
        InputEvent::Focused(focused) => {
            let focus: i32 = if *focused {
                1
            } else {
                0
            };
            vec![HostInput::Focus(focus)]
        },
    }
}

/// A key that is released types nothing; one that is pressed types each of its
/// characters, after the press itself.
pub proof fn lemma_text_is_typed_on_press(text: String, state: ElementState, cursor: (i32, i32))
    ensures
        ({
            let events = events_of(
                InputEvent::KeyboardInput { state, key: Key::Character(text) },
                cursor,
            );
            &&& state == ElementState::Pressed ==> {
                &&& events.len() == 1 + text@.len()
                &&& forall|i: int| 0 <= i < text@.len() ==> events[1 + i] == typed(#[trigger] text@[i])
            }
            &&& state != ElementState::Pressed ==> events.len() == 1
        }),
{
    let key = Key::Character(text);
    let events = events_of(InputEvent::KeyboardInput { state, key }, cursor);
    assert(state == ElementState::Pressed ==> text_of_key(state, key) == text@);
}

/// The mouse is where the cursor is: when it moves, when it leaves, when a button is pressed
/// or released, and when the wheel turns. Only a release lets a button go, and a button that
/// CEF does not know counts as the left one.
pub proof fn lemma_mouse_is_where_the_cursor_is(
    input: &InputEvent,
    cursor: (i32, i32),
    events: Vec<HostInput>,
)
    requires
        fits_units(*input),
        call_ensures(host_inputs, (input, cursor), events),
    ensures
        *input is CursorMoved ==> events@ == seq![
            HostInput::MouseMove { x: cursor.0, y: cursor.1, mouse_leave: 0 },
        ],
        *input is CursorLeft ==> events@ == seq![
            HostInput::MouseMove { x: cursor.0, y: cursor.1, mouse_leave: 1 },
        ],
        *input matches InputEvent::MouseInput { state, button } ==> {
            &&& events@.len() == 1
            &&& events@[0] matches HostInput::MouseClick {
                x,
                y,
                button: pressed,
                mouse_up,
                click_count,
            } && {
                &&& (x, y) == cursor
                &&& click_count == 1
                &&& mouse_up == 1 <==> state == ElementState::Released
                &&& mouse_up == 0 || mouse_up == 1
                &&& pressed == MouseButtonType::Right <==> button == MouseButton::Right
                &&& pressed == MouseButtonType::Middle <==> button == MouseButton::Middle
                &&& pressed == MouseButtonType::Left <==> button == MouseButton::Left || button
                    == MouseButton::Other
            }
        },
{
}

/// A line that the wheel turns is 120 units of CEF, each way, and a pixel is one.
pub proof fn lemma_wheel_turns_as_far(
    delta: MouseScrollDelta,
    cursor: (i32, i32),
    events: Vec<HostInput>,
)
    requires
        fits_units(InputEvent::MouseWheel(delta)),
        call_ensures(host_inputs, (&InputEvent::MouseWheel(delta), cursor), events),
    ensures
        events@.len() == 1,
        events@[0] matches HostInput::MouseWheel { x, y, delta_x, delta_y } && {
            &&& (x, y) == cursor
            &&& delta matches MouseScrollDelta::Lines(right, down) ==> delta_x == 120 * right
                && delta_y == 120 * down
            &&& delta matches MouseScrollDelta::Pixels(right, down) ==> delta_x == right
                && delta_y == down
            &&& delta is Other ==> delta_x == 0 && delta_y == 0
        },
{
}

proof fn lemma_small_characters_are_kept(c: char)
    ensures
        (c as u32) < 0x10000 ==> (c as u16) as u32 == c as u32,
{
}

/// A key that is pressed goes down, and then each of its characters is typed, by its own
/// number; a key that is released goes up and types nothing. The focus is passed on.
pub proof fn lemma_keys_go_down_and_up(
    state: ElementState,
    key: Key,
    cursor: (i32, i32),
    focused: bool,
    events: Vec<HostInput>,
    focus: Vec<HostInput>,
    i: int,
)
    requires
        call_ensures(
            host_inputs,
            (&(InputEvent::KeyboardInput { state, key }), cursor),
            events,
        ),
        call_ensures(host_inputs, (&InputEvent::Focused(focused), cursor), focus),
    ensures
        events@.len() >= 1,
        events@[0] == (HostInput::Key {
            kind: if state == ElementState::Pressed {
                KeyEventType::RawKeyDown
            } else {
                KeyEventType::KeyUp
            },
            windows_key_code: keyboard::windows_vk(key) as i32,
            character: 0,
        }),
        state != ElementState::Pressed || !(key is Character) ==> events@.len() == 1,
        state == ElementState::Pressed && key is Character ==> {
            let text = key->Character_0@;
            &&& events@.len() == 1 + text.len()
            &&& 0 <= i < text.len() ==> {
                &&& events@[1 + i] matches HostInput::Key { kind, windows_key_code, character } && {
                    &&& kind == KeyEventType::Char
                    &&& windows_key_code == text[i] as i32
                    &&& (text[i] as u32) < 0x10000 ==> character == text[i] as u32
                }
            }
        },
        focus@ == seq![
            HostInput::Focus(
                if focused {
                    1
                } else {
                    0
                },
            ),
        ],
{
    if state == ElementState::Pressed && key is Character {
        let text = key->Character_0@;
        assert(text_of_key(state, key) == text);
        if 0 <= i < text.len() {
            assert(events@[1 + i] == typed(text[i]));
            lemma_small_characters_are_kept(text[i]);
        }
    }
}

} // verus!
