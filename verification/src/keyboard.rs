//! Keys and what pressing them amounts to.
use vstd::prelude::*;

use crate::event::{DeviceId, ElementState};
use smol_str::SmolStr;

verus! {

/// The code of a key. Those of the volume keys are told apart from all others.
#[derive(Clone, Copy, Debug, PartialEq, Eq, Structural)]
pub enum Keycode {
    VolumeUp,
    VolumeDown,
    VolumeMute,
    Other(u32),
}

#[derive(Clone, Copy, Debug, PartialEq, Eq, Structural)]
pub enum KeyAction {
    Down,
    Up,
    Other,
}

/// What the keyboard's character map has for a key.
#[derive(Clone, Copy, Debug, PartialEq, Eq, Structural)]
pub enum KeyMapChar {
    Nothing,
    Unicode(char),
    CombiningAccent(char),
}

#[derive(Clone, Copy, Debug, PartialEq, Eq, Structural)]
pub enum NamedKey {
    Enter,
    Tab,
}

/// The meaning of a key.
#[derive(Clone, Copy, Debug, PartialEq, Eq, Structural)]
pub enum Key {
    Named(NamedKey),
    /// The key that the key tables have for a code and the character that it types.
    Mapped { key_char: Option<KeyMapChar>, keycode: Keycode },
}

#[derive(Clone, Copy, Debug, PartialEq, Eq, Structural)]
pub enum KeyCode {
    Enter,
    Tab,
}

/// The place of a key on the keyboard.
#[derive(Clone, Copy, Debug, PartialEq, Eq, Structural)]
pub enum PhysicalKey {
    Code(KeyCode),
    /// The place that the key tables have for a code.
    Mapped(Keycode),
}

#[derive(Clone, Copy, Debug, PartialEq, Eq, Structural)]
pub enum KeyLocation {
    Standard,
    /// The location that the key tables have for a code.
    Mapped(Keycode),
}

/// A key goes down or up. `T` is the type of text.
#[derive(Clone, Debug, PartialEq, Eq)]
pub struct KeyEvent<T> {
    pub state: ElementState,
    pub physical_key: PhysicalKey,
    pub logical_key: Key,
    pub location: KeyLocation,
    pub repeat: bool,
    pub text: Option<T>,
    pub text_with_all_modifiers: Option<T>,
    pub key_without_modifiers: Key,
}

/// A key event together with the device that it comes from.
#[derive(Clone, Debug, PartialEq, Eq)]
pub struct KeyboardInput<T> {
    pub device_id: Option<DeviceId>,
    pub event: KeyEvent<T>,
    pub is_synthetic: bool,
}

/// The characters that a text of type `SmolStr` holds.
pub uninterp spec fn smol_text(text: SmolStr) -> Seq<char>;

/// A string of the crate `smol_str`, which keeps short ones in place.
#[verifier::external_type_specification]
#[verifier::external_body]
pub struct ExSmolStr(SmolStr);

/// `SmolStr::new`: a copy of a string. It holds the characters of the string.
#[verifier::external_body]
fn smol_str_new(text: &str) -> (copy: SmolStr)
    ensures
        smol_text(copy) == text@,
{
    SmolStr::new(text)
}

/// `SmolStr::clone`: a copy that holds the same characters.
#[verifier::external_body]
fn smol_str_clone(text: &SmolStr) -> (copy: SmolStr)
    ensures
        smol_text(copy) == smol_text(*text),
{
    text.clone()
}

/// The characters of a text, if there is one.
pub open spec fn characters(text: Option<SmolStr>) -> Option<Seq<char>> {
    match text {
        Some(text) => Some(smol_text(text)),
        None => None,
    }
}

impl View for KeyboardInput<SmolStr> {
    type V = KeyboardInput<Seq<char>>;

    open spec fn view(&self) -> KeyboardInput<Seq<char>> {
        KeyboardInput {
            device_id: self.device_id,
            event: KeyEvent {
                state: self.event.state,
                physical_key: self.event.physical_key,
                logical_key: self.event.logical_key,
                location: self.event.location,
                repeat: self.event.repeat,
                text: characters(self.event.text),
                text_with_all_modifiers: characters(self.event.text_with_all_modifiers),
                key_without_modifiers: self.event.key_without_modifiers,
            },
            is_synthetic: self.is_synthetic,
        }
    }
}

/// A key of the keyboard was used.
#[derive(Clone, Debug, PartialEq, Eq)]
pub struct KeyInput {
    pub device_id: i32,
    pub keycode: Keycode,
    pub action: KeyAction,
    pub repeat_count: i32,
    /// What the character map has for the key, combined with an accent typed before.
    pub key_char: Option<KeyMapChar>,
    /// The accent that the next character is to be combined with.
    pub combining_accent: Option<char>,
    /// The text that the key's meaning stands for.
    pub logical_text: Option<String>,
}

impl Keycode {
    pub open spec fn changes_volume(self) -> bool {
        self == Keycode::VolumeUp || self == Keycode::VolumeDown || self == Keycode::VolumeMute
    }

    pub fn is_volume(&self) -> (result: bool)
        ensures
            result == self.changes_volume(),
    {
        match self {
            Keycode::VolumeUp | Keycode::VolumeDown | Keycode::VolumeMute => true,
            Keycode::Other(_) => false,
        }
    }
}

/// Whether a key is held down after an action; only going down makes it so.
pub open spec fn state_after(action: KeyAction) -> ElementState {
    if action == KeyAction::Down {
        ElementState::Pressed
    } else {
        ElementState::Released
    }
}

/// The text that a key types: only a key that goes down types any.
pub open spec fn typed_text(key: KeyInput) -> Option<Seq<char>> {
    match key.logical_text {
        Some(text) => if state_after(key.action) == ElementState::Pressed {
            Some(text@)
        } else {
            None
        },
        None => None,
    }
}

/// What a key reports when it is used.
pub open spec fn keyboard_input_of(key: KeyInput) -> KeyboardInput<Seq<char>> {
    KeyboardInput {
        device_id: crate::android::device_of(key.device_id),
        event: KeyEvent {
            state: state_after(key.action),
            physical_key: PhysicalKey::Mapped(key.keycode),
            logical_key: Key::Mapped { key_char: key.key_char, keycode: key.keycode },
            location: KeyLocation::Mapped(key.keycode),
            repeat: key.repeat_count > 0,
            text: typed_text(key),
            text_with_all_modifiers: typed_text(key),
            key_without_modifiers: Key::Mapped { key_char: key.key_char, keycode: key.keycode },
        },
        is_synthetic: false,
    }
}

pub fn keyboard_input(key: &KeyInput) -> (input: KeyboardInput<SmolStr>)
    ensures
        input@ == keyboard_input_of(*key),
{
    let state = match key.action {
        KeyAction::Down => ElementState::Pressed,
        KeyAction::Up => ElementState::Released,
        KeyAction::Other => ElementState::Released,
    };
    let text = if state == ElementState::Pressed {
        match &key.logical_text {
            Some(text) => Some(smol_str_new(text.as_str())),
            None => None,
        }
    } else {
        None
    };
    let text_copy = match &text {
        Some(text) => Some(smol_str_clone(text)),
        None => None,
    };
    let logical_key = Key::Mapped { key_char: key.key_char, keycode: key.keycode };
    KeyboardInput {
        device_id: Some(DeviceId::from_raw(key.device_id as i64)),
        event: KeyEvent {
            state,
            physical_key: PhysicalKey::Mapped(key.keycode),
            logical_key,
            location: KeyLocation::Mapped(key.keycode),
            repeat: key.repeat_count > 0,
            text: text_copy,
            text_with_all_modifiers: text,
            key_without_modifiers: logical_key,
        },
        is_synthetic: false,
    }
}

/// A key is pressed exactly if it went down, and types its text only then. It repeats if it was
/// reported before, and is reported with its device and for what its code and its character stand
/// for, with and without modifiers alike.
pub proof fn law_keys_are_reported_as_they_are_used(key: KeyInput)
    ensures
        ({
            let input = keyboard_input_of(key);
            &&& input.device_id == Some(DeviceId(key.device_id as i64))
            &&& !input.is_synthetic
            &&& input.event.state == ElementState::Pressed <==> key.action is Down
            &&& input.event.repeat <==> key.repeat_count > 0
            &&& match input.event.text {
                Some(text) => key.action is Down && key.logical_text is Some && text
                    == key.logical_text->0@,
                None => !(key.action is Down) || key.logical_text is None,
            }
            &&& input.event.text_with_all_modifiers == input.event.text
            &&& input.event.physical_key matches PhysicalKey::Mapped(place)
            &&& place == key.keycode
            &&& input.event.location matches KeyLocation::Mapped(location)
            &&& location == key.keycode
            &&& input.event.logical_key matches Key::Mapped { key_char, keycode }
            &&& key_char == key.key_char && keycode == key.keycode
            &&& input.event.key_without_modifiers == input.event.logical_key
        }),
{
}

/// The keys that change the volume are those that turn it up, turn it down or mute it.
pub proof fn law_volume_keys_are_three(keycode: Keycode)
    ensures
        keycode.changes_volume() <==> keycode is VolumeUp || keycode is VolumeDown
            || keycode is VolumeMute,
{
}

/// What contracts say of a key event is what it holds, its texts by their characters.
pub proof fn law_key_events_are_seen_as_they_are(input: KeyboardInput<SmolStr>)
    ensures
        input@.device_id == input.device_id,
        input@.is_synthetic == input.is_synthetic,
        input@.event.state == input.event.state,
        input@.event.physical_key == input.event.physical_key,
        input@.event.logical_key == input.event.logical_key,
        input@.event.location == input.event.location,
        input@.event.repeat == input.event.repeat,
        input@.event.key_without_modifiers == input.event.key_without_modifiers,
        match (input@.event.text, input.event.text) {
            (Some(seen), Some(held)) => seen == smol_text(held),
            (None, None) => true,
            _ => false,
        },
        match (input@.event.text_with_all_modifiers, input.event.text_with_all_modifiers) {
            (Some(seen), Some(held)) => seen == smol_text(held),
            (None, None) => true,
            _ => false,
        },
{
}

} // verus!
