//! Keys, and the codes by which CEF knows them.

use vstd::prelude::*;

verus! {

/// A key of the keyboard, by its meaning in the current layout.
#[derive(Debug)]
pub enum Key {
    /// A key that types text.
    Character(String),
    Enter,
    Backspace,
    Tab,
    Escape,
    Space,
    ArrowLeft,
    ArrowUp,
    ArrowRight,
    ArrowDown,
    Home,
    End,
    PageUp,
    PageDown,
    Delete,
    Insert,
    F1,
    F2,
    F3,
    F4,
    F5,
    F6,
    F7,
    F8,
    F9,
    F10,
    F11,
    F12,
    Control,
    Alt,
    Shift,
    Super,
    CapsLock,
    /// A key that CEF is told no code of.
    Other,
}

/// An ASCII character.
pub open spec fn is_ascii(c: char) -> bool {
    (c as int) < 0x80
}

/// The code of an ASCII character as a capital.
pub open spec fn capital(c: char) -> int {
    if 'a' <= c && c <= 'z' {
        c as int - 32
    } else {
        c as int
    }
}

/// The virtual-key code of a key that types text: its first character as a capital,
/// if that is an ASCII character.
pub open spec fn character_vk(text: Seq<char>) -> int {
    if text.len() > 0 && is_ascii(text[0]) {
        capital(text[0])
    } else {
        0
    }
}

/// The Windows virtual-key code of a key, or zero if it has none here.
pub open spec fn windows_vk(key: Key) -> int {
    match key {
        Key::Character(text) => character_vk(text@),
        Key::Enter => 0x0D,
        Key::Backspace => 0x08,
        Key::Tab => 0x09,
        Key::Escape => 0x1B,
        Key::Space => 0x20,
        Key::ArrowLeft => 0x25,
        Key::ArrowUp => 0x26,
        Key::ArrowRight => 0x27,
        Key::ArrowDown => 0x28,
        Key::Home => 0x24,
        Key::End => 0x23,
        Key::PageUp => 0x21,
        Key::PageDown => 0x22,
        Key::Delete => 0x2E,
        Key::Insert => 0x2D,
        Key::F1 => 0x70,
        Key::F2 => 0x71,
        Key::F3 => 0x72,
        Key::F4 => 0x73,
        Key::F5 => 0x74,
        Key::F6 => 0x75,
        Key::F7 => 0x76,
        Key::F8 => 0x77,
        Key::F9 => 0x78,
        Key::F10 => 0x79,
        Key::F11 => 0x7A,
        Key::F12 => 0x7B,
        Key::Control => 0x11,
        Key::Alt => 0x12,
        Key::Shift => 0x10,
        Key::Super => 0x5B,
        Key::CapsLock => 0x14,
        Key::Other => 0,
    }
}

/// Maps a key to a Windows virtual-key code for input events of CEF.
///
/// This is a best-effort mapping for browsers that render off screen.
pub fn tao_key_to_windows_vk(key: &Key) -> (code: i32)
    ensures
        code == windows_vk(*key),
{
    match key {
        Key::Character(text) => {
            let text = text.as_str();
            if text.unicode_len() == 0 {
                return 0;
            }
            let first = text.get_char(0);
            if (first as u32) < 0x80 {
                let code: i32 = first as i32;
                if 'a' <= first && first <= 'z' {
                    code - 32
                } else {
                    code
                }
            } else {
                0
            }
        },
        Key::Enter => 0x0D,
        Key::Backspace => 0x08,
        Key::Tab => 0x09,
        Key::Escape => 0x1B,
        Key::Space => 0x20,
        Key::ArrowLeft => 0x25,
        Key::ArrowUp => 0x26,
        Key::ArrowRight => 0x27,
        Key::ArrowDown => 0x28,
        Key::Home => 0x24,
        Key::End => 0x23,
        Key::PageUp => 0x21,
        Key::PageDown => 0x22,
        Key::Delete => 0x2E,
        Key::Insert => 0x2D,
        Key::F1 => 0x70,
        Key::F2 => 0x71,
        Key::F3 => 0x72,
        Key::F4 => 0x73,
        Key::F5 => 0x74,
        Key::F6 => 0x75,
        Key::F7 => 0x76,
        Key::F8 => 0x77,
        Key::F9 => 0x78,
        Key::F10 => 0x79,
        Key::F11 => 0x7A,
        Key::F12 => 0x7B,
        Key::Control => 0x11,
        Key::Alt => 0x12,
        Key::Shift => 0x10,
        Key::Super => 0x5B,
        Key::CapsLock => 0x14,
        Key::Other => 0,
    }
}

/// A small letter has the code of its capital.
pub proof fn lemma_case_does_not_count(small: char, capital_letter: char)
    requires
        'a' <= small && small <= 'z',
        capital_letter as int == small as int - 32,
    ensures
        character_vk(seq![small]) == character_vk(seq![capital_letter]),
        character_vk(seq![small]) == capital_letter as int,
{
}

/// A character is no negative number. Of one out of a sequence that is not known by itself.
proof fn lemma_capital_is_a_code(c: char)
    ensures
        0 <= capital(c),
{
}

/// Every code is one of the first 128.
pub proof fn lemma_codes_are_bytes(key: Key)
    ensures
        0 <= windows_vk(key) < 0x80,
{
    if let Key::Character(text) = key {
        lemma_capital_is_a_code(text@[0]);
    }
}

/// Each key has the code that Windows gives it; the function keys are numbered one after the
/// other. A key that types a letter has the code of the capital, whatever follows it, and one
/// that types another ASCII character the number of that; other text has no code.
pub proof fn lemma_keys_have_their_codes(key: &Key, code: i32)
    requires
        call_ensures(tao_key_to_windows_vk, (key,), code),
    ensures
        *key is Enter ==> code == 13,
        *key is Backspace ==> code == 8,
        *key is Tab ==> code == 9,
        *key is Escape ==> code == 27,
        *key is Space ==> code == 32,
        *key is ArrowLeft ==> code == 37,
        *key is ArrowUp ==> code == 38,
        *key is ArrowRight ==> code == 39,
        *key is ArrowDown ==> code == 40,
        *key is Home ==> code == 36,
        *key is End ==> code == 35,
        *key is PageUp ==> code == 33,
        *key is PageDown ==> code == 34,
        *key is Delete ==> code == 46,
        *key is Insert ==> code == 45,
        *key is Control ==> code == 17,
        *key is Alt ==> code == 18,
        *key is Shift ==> code == 16,
        *key is Super ==> code == 91,
        *key is CapsLock ==> code == 20,
        *key is F1 ==> code == 111 + 1,
        *key is F2 ==> code == 111 + 2,
        *key is F3 ==> code == 111 + 3,
        *key is F4 ==> code == 111 + 4,
        *key is F5 ==> code == 111 + 5,
        *key is F6 ==> code == 111 + 6,
        *key is F7 ==> code == 111 + 7,
        *key is F8 ==> code == 111 + 8,
        *key is F9 ==> code == 111 + 9,
        *key is F10 ==> code == 111 + 10,
        *key is F11 ==> code == 111 + 11,
        *key is F12 ==> code == 111 + 12,
        *key is Other ==> code == 0,
        *key matches Key::Character(text) ==> {
            let first = text@[0] as int;
            &&& text@.len() == 0 ==> code == 0
            &&& text@.len() > 0 && 97 <= first <= 122 ==> code == first - 32
            &&& text@.len() > 0 && first < 128 && !(97 <= first <= 122) ==> code == first
            &&& text@.len() > 0 && first >= 128 ==> code == 0
        },
{
    if let Key::Character(text) = *key {
        lemma_letters(text@[0]);
    }
}

proof fn lemma_letters(c: char)
    ensures
        ('a' <= c && c <= 'z') <==> 97 <= c as int <= 122,
{
}

/// No two keys that are known by name have the same code.
pub proof fn lemma_named_keys_are_distinct(first: Key, second: Key)
    requires
        !(first is Character) && !(first is Other),
        !(second is Character) && !(second is Other),
        windows_vk(first) == windows_vk(second),
    ensures
        first == second,
{
}

} // verus!
