//! Classification of physical key presses into buffer-relevant actions.

use vstd::prelude::*;

verus! {

/// Identifier of a physical key, as delivered by the platform's global
/// key-press stream. Only the keys the expansion engine distinguishes are
/// named; every other key is reported as `Other`.
#[derive(Clone, Copy, PartialEq, Eq, Structural, Debug)]
pub enum KeyId {
    KeyA,
    KeyB,
    KeyC,
    KeyD,
    KeyE,
    KeyF,
    KeyG,
    KeyH,
    KeyI,
    KeyJ,
    KeyK,
    KeyL,
    KeyM,
    KeyN,
    KeyO,
    KeyP,
    KeyQ,
    KeyR,
    KeyS,
    KeyT,
    KeyU,
    KeyV,
    KeyW,
    KeyX,
    KeyY,
    KeyZ,
    Num0,
    Num1,
    Num2,
    Num3,
    Num4,
    Num5,
    Num6,
    Num7,
    Num8,
    Num9,
    Minus,
    Equal,
    Space,
    Return,
    Tab,
    Backspace,
    /// Any key outside the categories above: modifiers, navigation keys,
    /// punctuation other than `-` and `=`, function keys, and so on.
    Other,
}

/// The action a key press maps to: append a character to the typed buffer,
/// end the current word and attempt an expansion, erase the last buffered
/// character, or leave the buffer untouched.
#[derive(Clone, Copy, PartialEq, Eq, Structural, Debug)]
pub enum KeyAction {
    Character(char),
    WordBoundary,
    EraseLast,
    Ignore,
}

/// The character a key contributes to the typed buffer, if any: lowercase
/// letters, digits, `-` and `=`. Shift state is never inspected, so shifted
/// variants are not distinguished from the base key.
pub open spec fn key_char(key: KeyId) -> Option<char> {
    match key {
        KeyId::KeyA => Some('a'),
        KeyId::KeyB => Some('b'),
        KeyId::KeyC => Some('c'),
        KeyId::KeyD => Some('d'),
        KeyId::KeyE => Some('e'),
        KeyId::KeyF => Some('f'),
        KeyId::KeyG => Some('g'),
        KeyId::KeyH => Some('h'),
        KeyId::KeyI => Some('i'),
        KeyId::KeyJ => Some('j'),
        KeyId::KeyK => Some('k'),
        KeyId::KeyL => Some('l'),
        KeyId::KeyM => Some('m'),
        KeyId::KeyN => Some('n'),
        KeyId::KeyO => Some('o'),
        KeyId::KeyP => Some('p'),
        KeyId::KeyQ => Some('q'),
        KeyId::KeyR => Some('r'),
        KeyId::KeyS => Some('s'),
        KeyId::KeyT => Some('t'),
        KeyId::KeyU => Some('u'),
        KeyId::KeyV => Some('v'),
        KeyId::KeyW => Some('w'),
        KeyId::KeyX => Some('x'),
        KeyId::KeyY => Some('y'),
        KeyId::KeyZ => Some('z'),
        KeyId::Num0 => Some('0'),
        KeyId::Num1 => Some('1'),
        KeyId::Num2 => Some('2'),
        KeyId::Num3 => Some('3'),
        KeyId::Num4 => Some('4'),
        KeyId::Num5 => Some('5'),
        KeyId::Num6 => Some('6'),
        KeyId::Num7 => Some('7'),
        KeyId::Num8 => Some('8'),
        KeyId::Num9 => Some('9'),
        KeyId::Minus => Some('-'),
        KeyId::Equal => Some('='),
        _ => None,
    }
}

/// Total classification of a key press. Space, enter and tab end a word;
/// backspace erases the last buffered character; keys with a `key_char`
/// append it; everything else is ignored.
pub open spec fn action_of(key: KeyId) -> KeyAction {
    if key is Space || key is Return || key is Tab {
        KeyAction::WordBoundary
    } else if key is Backspace {
        KeyAction::EraseLast
    } else {
        match key_char(key) {
            Some(c) => KeyAction::Character(c),
            None => KeyAction::Ignore,
        }
    }
}

/// The character a key would append to the typed buffer, or `None` for keys
/// that never contribute a character.
pub fn key_to_char(key: KeyId) -> (r: Option<char>)
    ensures
        r == key_char(key),
{
    match key {
        KeyId::KeyA => Some('a'),
        KeyId::KeyB => Some('b'),
        KeyId::KeyC => Some('c'),
        KeyId::KeyD => Some('d'),
        KeyId::KeyE => Some('e'),
        KeyId::KeyF => Some('f'),
        KeyId::KeyG => Some('g'),
        KeyId::KeyH => Some('h'),
        KeyId::KeyI => Some('i'),
        KeyId::KeyJ => Some('j'),
        KeyId::KeyK => Some('k'),
        KeyId::KeyL => Some('l'),
        KeyId::KeyM => Some('m'),
        KeyId::KeyN => Some('n'),
        KeyId::KeyO => Some('o'),
        KeyId::KeyP => Some('p'),
        KeyId::KeyQ => Some('q'),
        KeyId::KeyR => Some('r'),
        KeyId::KeyS => Some('s'),
        KeyId::KeyT => Some('t'),
        KeyId::KeyU => Some('u'),
        KeyId::KeyV => Some('v'),
        KeyId::KeyW => Some('w'),
        KeyId::KeyX => Some('x'),
        KeyId::KeyY => Some('y'),
        KeyId::KeyZ => Some('z'),
        KeyId::Num0 => Some('0'),
        KeyId::Num1 => Some('1'),
        KeyId::Num2 => Some('2'),
        KeyId::Num3 => Some('3'),
        KeyId::Num4 => Some('4'),
        KeyId::Num5 => Some('5'),
        KeyId::Num6 => Some('6'),
        KeyId::Num7 => Some('7'),
        KeyId::Num8 => Some('8'),
        KeyId::Num9 => Some('9'),
        KeyId::Minus => Some('-'),
        KeyId::Equal => Some('='),
        _ => None,
    }
}

/// Classify a key press. The mapping is exhaustive: every key resolves to
/// exactly one action.
pub fn classify_key(key: KeyId) -> (a: KeyAction)
    ensures
        a == action_of(key),
{
    match key {
        KeyId::Space | KeyId::Return | KeyId::Tab => KeyAction::WordBoundary,
        KeyId::Backspace => KeyAction::EraseLast,
        _ => match key_to_char(key) {
            Some(c) => KeyAction::Character(c),
            None => KeyAction::Ignore,
        },
    }
}

} // verus!
