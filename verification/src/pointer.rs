//! The pointer state machine: which primitives an accepted pointer event
//! emits, and how it moves the button and proximity flags.

use vstd::prelude::*;
use crate::protocol::PointerEventType;

verus! {

/// The set of primitives that the platform offers. It is chosen once, when
/// the device is made, and never changes afterwards.
#[derive(Clone, Copy, Debug, PartialEq, Eq)]
pub enum EmitterVariant {
    /// Absolute-position move and button toggles. No pressure, no drag, no
    /// proximity.
    Baseline,
    /// Pen emulation: proximity enter and leave, pressure-bearing button
    /// and drag events, and a pressure-less move.
    PressureTablet,
}

/// A native input-injection primitive for the pointer.
#[derive(Clone, Copy, Debug, PartialEq, Eq)]
pub enum PointerPrimitive {
    /// The pen comes into range.
    ProximityEnter,
    /// The pen goes out of range.
    ProximityLeave,
    /// The left button goes down at the event's position.
    ButtonDown,
    /// The left button goes up at the event's position.
    ButtonUp,
    /// The pointer moves with the button held.
    Drag,
    /// The pointer moves.
    Move,
}

/// The flags that the state machine owns.
#[derive(Clone, Copy, Debug, PartialEq, Eq)]
pub struct DeviceState {
    pub left_button_down: bool,
    pub in_proximity: bool,
}

/// The state of a fresh device: button up, pen out of range.
pub open spec fn idle() -> DeviceState {
    DeviceState { left_button_down: false, in_proximity: false }
}

/// Event types that press the button.
pub open spec fn is_press(event_type: PointerEventType) -> bool {
    event_type is Down
}

/// Event types that release the button.
pub open spec fn is_release(event_type: PointerEventType) -> bool {
    event_type is Up || event_type is Cancel || event_type is Leave || event_type is Out
}

/// Event types that only move the pointer.
pub open spec fn is_motion(event_type: PointerEventType) -> bool {
    event_type is Move || event_type is Over || event_type is Enter
}

/// The states that a device can be in between two events.
///
/// The baseline variant never enters proximity. The pen emulation is in
/// proximity exactly while the button is down.
pub open spec fn consistent(variant: EmitterVariant, state: DeviceState) -> bool {
    match variant {
        EmitterVariant::Baseline => !state.in_proximity,
        EmitterVariant::PressureTablet => state.in_proximity == state.left_button_down,
    }
}

/// What a press does.
pub open spec fn press(variant: EmitterVariant, state: DeviceState) -> (
    DeviceState,
    Seq<PointerPrimitive>,
) {
    if state.left_button_down {
        (state, Seq::empty())
    } else {
        match variant {
            EmitterVariant::Baseline => (
                DeviceState { left_button_down: true, in_proximity: state.in_proximity },
                seq![PointerPrimitive::Move, PointerPrimitive::ButtonDown],
            ),
            EmitterVariant::PressureTablet => (
                DeviceState { left_button_down: true, in_proximity: true },
                if state.in_proximity {
                    seq![PointerPrimitive::ButtonDown]
                } else {
                    seq![PointerPrimitive::ProximityEnter, PointerPrimitive::ButtonDown]
                },
            ),
        }
    }
}

/// What a release does.
pub open spec fn release(variant: EmitterVariant, state: DeviceState) -> (
    DeviceState,
    Seq<PointerPrimitive>,
) {
    if !state.left_button_down {
        (state, Seq::empty())
    } else {
        match variant {
            EmitterVariant::Baseline => (
                DeviceState { left_button_down: false, in_proximity: state.in_proximity },
                seq![PointerPrimitive::Move, PointerPrimitive::ButtonUp],
            ),
            EmitterVariant::PressureTablet => (
                DeviceState { left_button_down: false, in_proximity: false },
                if state.in_proximity {
                    seq![PointerPrimitive::ButtonUp, PointerPrimitive::ProximityLeave]
                } else {
                    seq![PointerPrimitive::ButtonUp]
                },
            ),
        }
    }
}

/// What a motion does: the flags stay, and one primitive moves the pointer.
/// Only the pen emulation tells a drag from a move.
pub open spec fn motion(variant: EmitterVariant, state: DeviceState) -> (
    DeviceState,
    Seq<PointerPrimitive>,
) {
    if state.left_button_down && variant is PressureTablet {
        (state, seq![PointerPrimitive::Drag])
    } else {
        (state, seq![PointerPrimitive::Move])
    }
}

/// The transition table: the next state and the primitives emitted, in
/// order, when an accepted event of the given type arrives.
///
/// A press while the button is down and a release while it is up change
/// nothing and emit nothing.
pub open spec fn transition(
    variant: EmitterVariant,
    state: DeviceState,
    event_type: PointerEventType,
) -> (DeviceState, Seq<PointerPrimitive>) {
    match event_type {
        PointerEventType::Down => press(variant, state),
        PointerEventType::Up
        | PointerEventType::Cancel
        | PointerEventType::Leave
        | PointerEventType::Out => release(variant, state),
        PointerEventType::Move
        | PointerEventType::Over
        | PointerEventType::Enter => motion(variant, state),
    }
}

/// The state machine of one device.
#[derive(Clone, Copy, Debug, PartialEq, Eq)]
pub struct PointerStateMachine {
    variant: EmitterVariant,
    left_button_down: bool,
    in_proximity: bool,
}

impl PointerStateMachine {
    /// The variant that the machine was made for.
    pub closed spec fn spec_variant(&self) -> EmitterVariant {
        self.variant
    }

    /// The flags as they stand.
    pub closed spec fn spec_state(&self) -> DeviceState {
        DeviceState { left_button_down: self.left_button_down, in_proximity: self.in_proximity }
    }

    /// A machine in the idle state.
    pub fn new(variant: EmitterVariant) -> (machine: Self)
        ensures
            machine.spec_variant() == variant,
            machine.spec_state() == idle(),
            consistent(machine.spec_variant(), machine.spec_state()),
    {
        PointerStateMachine { variant, left_button_down: false, in_proximity: false }
    }

    /// The variant that the machine was made for.
    #[verifier::when_used_as_spec(spec_variant)]
    pub fn variant(&self) -> (variant: EmitterVariant)
        ensures
            variant == self.spec_variant(),
    {
        self.variant
    }

    /// The flags as they stand.
    #[verifier::when_used_as_spec(spec_state)]
    pub fn state(&self) -> (state: DeviceState)
        ensures
            state == self.spec_state(),
    {
        DeviceState { left_button_down: self.left_button_down, in_proximity: self.in_proximity }
    }

    /// Applies the transition table to an accepted event: moves the flags and
    /// returns the primitives to emit, in order.
    pub fn handle(&mut self, event_type: PointerEventType) -> (emitted: Vec<PointerPrimitive>)
        ensures
            final(self).spec_variant() == old(self).spec_variant(),
            (final(self).spec_state(), emitted@) == transition(
                old(self).spec_variant(),
                old(self).spec_state(),
                event_type,
            ),
    {
        let mut emitted: Vec<PointerPrimitive> = Vec::new();
        let tablet = match self.variant {
            EmitterVariant::Baseline => false,
            EmitterVariant::PressureTablet => true,
        };
        match event_type {
            PointerEventType::Down => {
                if !self.left_button_down {
                    if tablet {
                        if !self.in_proximity {
                            self.in_proximity = true;
                            emitted.push(PointerPrimitive::ProximityEnter);
                        }
                    } else {
                        emitted.push(PointerPrimitive::Move);
                    }
                    self.left_button_down = true;
                    emitted.push(PointerPrimitive::ButtonDown);
                }
            },
            PointerEventType::Up
            | PointerEventType::Cancel
            | PointerEventType::Leave
            | PointerEventType::Out => {
                if self.left_button_down {
                    if !tablet {
                        emitted.push(PointerPrimitive::Move);
                    }
                    self.left_button_down = false;
                    emitted.push(PointerPrimitive::ButtonUp);
                    if tablet && self.in_proximity {
                        self.in_proximity = false;
                        emitted.push(PointerPrimitive::ProximityLeave);
                    }
                }
            },
            PointerEventType::Move | PointerEventType::Over | PointerEventType::Enter => {
                if tablet && self.left_button_down {
                    emitted.push(PointerPrimitive::Drag);
                } else {
                    emitted.push(PointerPrimitive::Move);
                }
            },
        }
        assert(emitted@ =~= transition(
            old(self).spec_variant(),
            old(self).spec_state(),
            event_type,
        ).1);
        emitted
    }
}

} // verus!
