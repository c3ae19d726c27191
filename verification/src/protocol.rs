//! The normalized events that the device consumes.

use vstd::prelude::*;

verus! {

/// What happened to a pointer.
#[derive(Clone, Copy, Debug, PartialEq, Eq)]
pub enum PointerEventType {
    Down,
    Up,
    Cancel,
    Move,
    Over,
    Enter,
    Leave,
    Out,
}

/// The part of a pointer event that decides which primitives are emitted.
///
/// Position and pressure travel beside it: they are handed to the emitted
/// primitives unchanged and never steer a decision.
#[derive(Clone, Copy, Debug, PartialEq, Eq)]
pub struct PointerEvent {
    pub event_type: PointerEventType,
    pub is_primary: bool,
}

/// A wheel movement. Only the sign of `dy` is consumed.
#[derive(Clone, Copy, Debug, PartialEq, Eq)]
pub struct WheelEvent {
    pub dy: i32,
}

/// What happened to a key.
#[derive(Clone, Copy, Debug, PartialEq, Eq)]
pub enum KeyboardEventType {
    Down,
    Up,
    Repeat,
}

/// A key event: `code` names the physical key, `key` is the text it produces.
#[derive(Clone, Debug, PartialEq, Eq)]
pub struct KeyboardEvent {
    pub code: String,
    pub key: String,
    pub event_type: KeyboardEventType,
    pub ctrl: bool,
    pub alt: bool,
    pub meta: bool,
    pub shift: bool,
}

} // verus!
