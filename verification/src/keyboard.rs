//! Key events: a fixed table from physical-key names to key codes, and a
//! character-by-character fallback for names that the table does not hold.

use vstd::prelude::*;
use crate::protocol::{KeyboardEvent, KeyboardEventType};
use crate::text::same_text;

verus! {

/// A key that is toggled by its code, whatever the keyboard layout.
#[derive(Clone, Copy, Debug, PartialEq, Eq)]
pub enum KeyCode {
    Escape,
    Return,
    Backspace,
    Tab,
    Space,
    CapsLock,
    F1,
    F2,
    F3,
    F4,
    F5,
    F6,
    F7,
    F8,
    F9,
    F10,
    F11,
    F12,
    F13,
    F14,
    F15,
    F16,
    F17,
    F18,
    F19,
    F20,
    F21,
    F22,
    F23,
    F24,
    Home,
    UpArrow,
    PageUp,
    LeftArrow,
    RightArrow,
    End,
    DownArrow,
    PageDown,
    Delete,
    Control,
    Alt,
    Meta,
    Shift,
}

/// A modifier that is held while a key is toggled.
#[derive(Clone, Copy, Debug, PartialEq, Eq)]
pub enum Flag {
    Control,
    Alt,
    Meta,
    Shift,
}

/// The modifier flags of one key event.
#[derive(Clone, Copy, Debug, PartialEq, Eq)]
pub struct Modifiers {
    pub ctrl: bool,
    pub alt: bool,
    pub meta: bool,
    pub shift: bool,
}

/// What a toggle acts on: a key of the table, or a character that the
/// platform resolves against the current layout.
#[derive(Clone, Copy, Debug, PartialEq, Eq)]
pub enum KeyTarget {
    Code(KeyCode),
    Character(char),
}

/// One key-toggle call: press (`down`) or release the target while the
/// modifiers are held.
#[derive(Clone, Copy, Debug, PartialEq, Eq)]
pub struct KeyToggle {
    pub target: KeyTarget,
    pub down: bool,
    pub modifiers: Modifiers,
}

/// Delay between the modifier keys and the key itself, in milliseconds.
pub const MODIFIER_DELAY_MS: u64 = 0;

/// The table's control keys.
pub open spec fn control_key(code: Seq<char>) -> Option<KeyCode> {
    if code == "Escape"@ {
        Some(KeyCode::Escape)
    } else if code == "Enter"@ {
        Some(KeyCode::Return)
    } else if code == "Backspace"@ {
        Some(KeyCode::Backspace)
    } else if code == "Tab"@ {
        Some(KeyCode::Tab)
    } else if code == "Space"@ {
        Some(KeyCode::Space)
    } else if code == "CapsLock"@ {
        Some(KeyCode::CapsLock)
    } else {
        None
    }
}

/// The table's function keys, F1 to F24.
pub open spec fn function_key(code: Seq<char>) -> Option<KeyCode> {
    if code == "F1"@ {
        Some(KeyCode::F1)
    } else if code == "F2"@ {
        Some(KeyCode::F2)
    } else if code == "F3"@ {
        Some(KeyCode::F3)
    } else if code == "F4"@ {
        Some(KeyCode::F4)
    } else if code == "F5"@ {
        Some(KeyCode::F5)
    } else if code == "F6"@ {
        Some(KeyCode::F6)
    } else if code == "F7"@ {
        Some(KeyCode::F7)
    } else if code == "F8"@ {
        Some(KeyCode::F8)
    } else if code == "F9"@ {
        Some(KeyCode::F9)
    } else if code == "F10"@ {
        Some(KeyCode::F10)
    } else if code == "F11"@ {
        Some(KeyCode::F11)
    } else if code == "F12"@ {
        Some(KeyCode::F12)
    } else if code == "F13"@ {
        Some(KeyCode::F13)
    } else if code == "F14"@ {
        Some(KeyCode::F14)
    } else if code == "F15"@ {
        Some(KeyCode::F15)
    } else if code == "F16"@ {
        Some(KeyCode::F16)
    } else if code == "F17"@ {
        Some(KeyCode::F17)
    } else if code == "F18"@ {
        Some(KeyCode::F18)
    } else if code == "F19"@ {
        Some(KeyCode::F19)
    } else if code == "F20"@ {
        Some(KeyCode::F20)
    } else if code == "F21"@ {
        Some(KeyCode::F21)
    } else if code == "F22"@ {
        Some(KeyCode::F22)
    } else if code == "F23"@ {
        Some(KeyCode::F23)
    } else if code == "F24"@ {
        Some(KeyCode::F24)
    } else {
        None
    }
}

/// The table's navigation keys.
pub open spec fn navigation_key(code: Seq<char>) -> Option<KeyCode> {
    if code == "Home"@ {
        Some(KeyCode::Home)
    } else if code == "ArrowUp"@ {
        Some(KeyCode::UpArrow)
    } else if code == "PageUp"@ {
        Some(KeyCode::PageUp)
    } else if code == "ArrowLeft"@ {
        Some(KeyCode::LeftArrow)
    } else if code == "ArrowRight"@ {
        Some(KeyCode::RightArrow)
    } else if code == "End"@ {
        Some(KeyCode::End)
    } else if code == "ArrowDown"@ {
        Some(KeyCode::DownArrow)
    } else if code == "PageDown"@ {
        Some(KeyCode::PageDown)
    } else if code == "Delete"@ {
        Some(KeyCode::Delete)
    } else {
        None
    }
}

/// The table's modifier keys. The left and the right key of a pair give the
/// same code: the side is not told apart.
pub open spec fn modifier_key(code: Seq<char>) -> Option<KeyCode> {
    if code == "ControlLeft"@ || code == "ControlRight"@ {
        Some(KeyCode::Control)
    } else if code == "AltLeft"@ || code == "AltRight"@ {
        Some(KeyCode::Alt)
    } else if code == "MetaLeft"@ || code == "MetaRight"@ {
        Some(KeyCode::Meta)
    } else if code == "ShiftLeft"@ || code == "ShiftRight"@ {
        Some(KeyCode::Shift)
    } else {
        None
    }
}

/// The whole table: the key code of a physical-key name, or `None` for a
/// name that the table does not hold.
pub open spec fn key_for_code(code: Seq<char>) -> Option<KeyCode> {
    if control_key(code) is Some {
        control_key(code)
    } else if function_key(code) is Some {
        function_key(code)
    } else if navigation_key(code) is Some {
        navigation_key(code)
    } else {
        modifier_key(code)
    }
}

/// Whether a key event presses (`Some(true)`) or releases (`Some(false)`);
/// a repeat does neither.
pub open spec fn key_state(event_type: KeyboardEventType) -> Option<bool> {
    match event_type {
        KeyboardEventType::Down => Some(true),
        KeyboardEventType::Up => Some(false),
        KeyboardEventType::Repeat => None,
    }
}

/// The modifier flags that an event carries.
pub open spec fn modifiers_of(event: KeyboardEvent) -> Modifiers {
    Modifiers { ctrl: event.ctrl, alt: event.alt, meta: event.meta, shift: event.shift }
}

/// The toggle of one character of the fallback path.
pub open spec fn character_toggle(c: char, down: bool, modifiers: Modifiers) -> KeyToggle {
    KeyToggle { target: KeyTarget::Character(c), down, modifiers }
}

/// The key-toggle calls that replay a key event, in order.
///
/// A repeat gives none. A name of the table gives one toggle of its key
/// code. Any other name falls back on the event's text: one toggle per
/// character, in the order of the text, each with the event's state and
/// modifiers.
pub open spec fn toggles_of(event: KeyboardEvent) -> Seq<KeyToggle> {
    match key_state(event.event_type) {
        None => Seq::empty(),
        Some(down) => match key_for_code(event.code@) {
            Some(key) => seq![
                KeyToggle { target: KeyTarget::Code(key), down, modifiers: modifiers_of(event) },
            ],
            None => Seq::new(
                event.key@.len(),
                |i: int| character_toggle(event.key@[i], down, modifiers_of(event)),
            ),
        },
    }
}

impl Modifiers {
    /// The flags that are set, in the order control, alt, meta, shift.
    pub open spec fn flag_seq(self) -> Seq<Flag> {
        (if self.ctrl { seq![Flag::Control] } else { Seq::empty() })
            + (if self.alt { seq![Flag::Alt] } else { Seq::empty() })
            + (if self.meta { seq![Flag::Meta] } else { Seq::empty() })
            + (if self.shift { seq![Flag::Shift] } else { Seq::empty() })
    }

    /// Lists the flags that are set, as a toggle call takes them.
    pub fn flags(&self) -> (flags: Vec<Flag>)
        ensures
            flags@ == self.flag_seq(),
    {
        let mut flags: Vec<Flag> = Vec::new();
        if self.ctrl {
            flags.push(Flag::Control);
        }
        if self.alt {
            flags.push(Flag::Alt);
        }
        if self.meta {
            flags.push(Flag::Meta);
        }
        if self.shift {
            flags.push(Flag::Shift);
        }
        assert(flags@ =~= self.flag_seq());
        flags
    }
}

fn map_control_key(code: &str) -> (key: Option<KeyCode>)
    ensures
        key == control_key(code@),
{
    if same_text(code, "Escape") {
        Some(KeyCode::Escape)
    } else if same_text(code, "Enter") {
        Some(KeyCode::Return)
    } else if same_text(code, "Backspace") {
        Some(KeyCode::Backspace)
    } else if same_text(code, "Tab") {
        Some(KeyCode::Tab)
    } else if same_text(code, "Space") {
        Some(KeyCode::Space)
    } else if same_text(code, "CapsLock") {
        Some(KeyCode::CapsLock)
    } else {
        None
    }
}

fn map_function_key(code: &str) -> (key: Option<KeyCode>)
    ensures
        key == function_key(code@),
{
    if same_text(code, "F1") {
        Some(KeyCode::F1)
    } else if same_text(code, "F2") {
        Some(KeyCode::F2)
    } else if same_text(code, "F3") {
        Some(KeyCode::F3)
    } else if same_text(code, "F4") {
        Some(KeyCode::F4)
    } else if same_text(code, "F5") {
        Some(KeyCode::F5)
    } else if same_text(code, "F6") {
        Some(KeyCode::F6)
    } else if same_text(code, "F7") {
        Some(KeyCode::F7)
    } else if same_text(code, "F8") {
        Some(KeyCode::F8)
    } else if same_text(code, "F9") {
        Some(KeyCode::F9)
    } else if same_text(code, "F10") {
        Some(KeyCode::F10)
    } else if same_text(code, "F11") {
        Some(KeyCode::F11)
    } else if same_text(code, "F12") {
        Some(KeyCode::F12)
    } else if same_text(code, "F13") {
        Some(KeyCode::F13)
    } else if same_text(code, "F14") {
        Some(KeyCode::F14)
    } else if same_text(code, "F15") {
        Some(KeyCode::F15)
    } else if same_text(code, "F16") {
        Some(KeyCode::F16)
    } else if same_text(code, "F17") {
        Some(KeyCode::F17)
    } else if same_text(code, "F18") {
        Some(KeyCode::F18)
    } else if same_text(code, "F19") {
        Some(KeyCode::F19)
    } else if same_text(code, "F20") {
        Some(KeyCode::F20)
    } else if same_text(code, "F21") {
        Some(KeyCode::F21)
    } else if same_text(code, "F22") {
        Some(KeyCode::F22)
    } else if same_text(code, "F23") {
        Some(KeyCode::F23)
    } else if same_text(code, "F24") {
        Some(KeyCode::F24)
    } else {
        None
    }
}

fn map_navigation_key(code: &str) -> (key: Option<KeyCode>)
    ensures
        key == navigation_key(code@),
{
    if same_text(code, "Home") {
        Some(KeyCode::Home)
    } else if same_text(code, "ArrowUp") {
        Some(KeyCode::UpArrow)
    } else if same_text(code, "PageUp") {
        Some(KeyCode::PageUp)
    } else if same_text(code, "ArrowLeft") {
        Some(KeyCode::LeftArrow)
    } else if same_text(code, "ArrowRight") {
        Some(KeyCode::RightArrow)
    } else if same_text(code, "End") {
        Some(KeyCode::End)
    } else if same_text(code, "ArrowDown") {
        Some(KeyCode::DownArrow)
    } else if same_text(code, "PageDown") {
        Some(KeyCode::PageDown)
    } else if same_text(code, "Delete") {
        Some(KeyCode::Delete)
    } else {
        None
    }
}

fn map_modifier_key(code: &str) -> (key: Option<KeyCode>)
    ensures
        key == modifier_key(code@),
{
    if same_text(code, "ControlLeft") || same_text(code, "ControlRight") {
        Some(KeyCode::Control)
    } else if same_text(code, "AltLeft") || same_text(code, "AltRight") {
        Some(KeyCode::Alt)
    } else if same_text(code, "MetaLeft") || same_text(code, "MetaRight") {
        Some(KeyCode::Meta)
    } else if same_text(code, "ShiftLeft") || same_text(code, "ShiftRight") {
        Some(KeyCode::Shift)
    } else {
        None
    }
}

/// Looks a physical-key name up in the table.
pub fn map_key(code: &str) -> (key: Option<KeyCode>)
    ensures
        key == key_for_code(code@),
{
    let control = map_control_key(code);
    if control.is_some() {
        return control;
    }
    let function = map_function_key(code);
    if function.is_some() {
        return function;
    }
    let navigation = map_navigation_key(code);
    if navigation.is_some() {
        return navigation;
    }
    map_modifier_key(code)
}

/// The fallback path: one character toggle per character of `text`, in order,
/// each with the same state and modifiers.
pub fn character_toggles(text: &str, down: bool, modifiers: Modifiers) -> (toggles: Vec<KeyToggle>)
    ensures
        toggles@ == Seq::new(text@.len(), |i: int| character_toggle(text@[i], down, modifiers)),
{
    let mut toggles: Vec<KeyToggle> = Vec::new();
    for c in it: text.chars()
        invariant
            it.seq() == text@,
            toggles@ == Seq::new(
                it.index() as nat,
                |i: int| character_toggle(text@[i], down, modifiers),
            ),
    {
        let ghost before = toggles@;
        toggles.push(KeyToggle { target: KeyTarget::Character(c), down, modifiers });
        assert(toggles@ == before.push(character_toggle(text@[it.index()], down, modifiers)));
    }
    toggles
}

/// Decides the key-toggle calls that replay a key event.
pub fn key_toggles(event: &KeyboardEvent) -> (toggles: Vec<KeyToggle>)
    ensures
        toggles@ == toggles_of(*event),
        event.event_type is Repeat ==> toggles@.len() == 0,
{
    let down = match event.event_type {
        KeyboardEventType::Up => false,
        KeyboardEventType::Down => true,
        KeyboardEventType::Repeat => {
            return Vec::new();
        },
    };
    let modifiers = Modifiers {
        ctrl: event.ctrl,
        alt: event.alt,
        meta: event.meta,
        shift: event.shift,
    };
    match map_key(event.code.as_str()) {
        Some(key) => {
            let mut toggles: Vec<KeyToggle> = Vec::new();
            toggles.push(KeyToggle { target: KeyTarget::Code(key), down, modifiers });
            assert(toggles@ =~= toggles_of(*event));
            toggles
        },
        None => character_toggles(event.key.as_str(), down, modifiers),
    }
}

/// Every toggle of an event carries the event's state and its modifiers.
pub proof fn lemma_toggles_share_state_and_modifiers(event: KeyboardEvent, i: int)
    requires
        0 <= i < toggles_of(event).len(),
    ensures
        Some(toggles_of(event)[i].down) == key_state(event.event_type),
        toggles_of(event)[i].modifiers == modifiers_of(event),
{
}

/// A name of the table is replayed as one toggle of its key code, whatever
/// the event's text. Any other name is replayed through its text alone: one
/// character toggle for each character, in the order of the text.
pub proof fn lemma_table_or_fallback(event: KeyboardEvent)
    requires
        !(event.event_type is Repeat),
    ensures
        key_for_code(event.code@) matches Some(key) ==> toggles_of(event).len() == 1
            && toggles_of(event)[0].target == KeyTarget::Code(key),
        key_for_code(event.code@) is None ==> toggles_of(event).len() == event.key@.len()
            && forall|i: int|
            0 <= i < event.key@.len() ==> (#[trigger] toggles_of(event)[i]).target
                == KeyTarget::Character(event.key@[i]),
{
}

} // verus!
