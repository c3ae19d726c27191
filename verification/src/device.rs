//! The device: composition of the key-code mapper, the pointer state machine
//! and the event emitter behind one contract.
//!
//! The device decides; it performs nothing. A caller hands it an event and
//! carries out what comes back. For a pointer event that takes a few turns:
//! the device asks for the capture target to be activated and located, the
//! caller reports how that went, and only when everything succeeded does the
//! device move its state and name the primitives to emit.
//!
//! The device holds the current capture target for its caller, but never
//! calls it: what a capture target is, is the caller's business.

use vstd::prelude::*;
use crate::capture::{CaptureProgress, CaptureQuery};
use crate::emitter::{native_call, native_call_of, virtual_pen, NativeCall, VirtualDeviceIdentity};
use crate::keyboard::{key_toggles, toggles_of, KeyToggle};
use crate::pointer::{
    consistent,
    idle,
    transition,
    DeviceState,
    EmitterVariant,
    PointerPrimitive,
    PointerStateMachine,
};
use crate::protocol::{KeyboardEvent, PointerEvent, WheelEvent};
use crate::wheel::{scroll_of, wheel_scroll, Scroll};

verus! {

/// The tag of a device: which variant of the emitter is active.
#[derive(Clone, Copy, Debug, PartialEq, Eq)]
pub enum InputDeviceType {
    /// Position and button toggles; pressure is not honored.
    AutoPilotDevice,
    /// Pen emulation; pressure is honored.
    AutoPilotTabletDevice,
}

/// The tag of a variant.
pub open spec fn device_type_of(variant: EmitterVariant) -> InputDeviceType {
    match variant {
        EmitterVariant::Baseline => InputDeviceType::AutoPilotDevice,
        EmitterVariant::PressureTablet => InputDeviceType::AutoPilotTabletDevice,
    }
}

impl InputDeviceType {
    /// Whether a device with this tag passes stylus pressure on.
    pub open spec fn spec_honors_pressure(self) -> bool {
        self is AutoPilotTabletDevice
    }

    /// Whether a device with this tag passes stylus pressure on.
    #[verifier::when_used_as_spec(spec_honors_pressure)]
    pub fn honors_pressure(self) -> (honored: bool)
        ensures
            honored == self.spec_honors_pressure(),
    {
        match self {
            InputDeviceType::AutoPilotDevice => false,
            InputDeviceType::AutoPilotTabletDevice => true,
        }
    }
}

/// What the device says to one turn of a pointer event.
#[derive(Clone, Debug, PartialEq, Eq)]
pub enum PointerDecision {
    /// The event is not from the primary pointer: it is passed over in
    /// silence, and nothing may be asked of the capture target for it.
    Discard,
    /// Make this query, record its answer in the progress, and come back.
    Ask(CaptureQuery),
    /// This query failed: the event is dropped, which is worth a warning.
    Drop(CaptureQuery),
    /// Emit these primitives, in order. The state has moved accordingly.
    Emit(Vec<PointerPrimitive>),
}

/// A decision with its primitives as a sequence.
pub enum PointerDecisionView {
    Discard,
    Ask(CaptureQuery),
    Drop(CaptureQuery),
    Emit(Seq<PointerPrimitive>),
}

impl View for PointerDecision {
    type V = PointerDecisionView;

    open spec fn view(&self) -> PointerDecisionView {
        match *self {
            PointerDecision::Discard => PointerDecisionView::Discard,
            PointerDecision::Ask(query) => PointerDecisionView::Ask(query),
            PointerDecision::Drop(query) => PointerDecisionView::Drop(query),
            PointerDecision::Emit(primitives) => PointerDecisionView::Emit(primitives@),
        }
    }
}

/// The decision on one turn of a pointer event, and the state after it.
///
/// An event that is not primary is discarded whatever the progress. A primary
/// event asks for the next query while one is awaited, is dropped once one
/// has failed, and goes through the transition table when all succeeded.
/// The state moves in the last case only.
pub open spec fn pointer_outcome(
    variant: EmitterVariant,
    state: DeviceState,
    event: PointerEvent,
    progress: CaptureProgress,
) -> (DeviceState, PointerDecisionView) {
    if !event.is_primary {
        (state, PointerDecisionView::Discard)
    } else {
        match progress {
            CaptureProgress::Awaiting(query) => (state, PointerDecisionView::Ask(query)),
            CaptureProgress::Failed(query) => (state, PointerDecisionView::Drop(query)),
            CaptureProgress::Ready => {
                let (next, emitted) = transition(variant, state, event.event_type);
                (next, PointerDecisionView::Emit(emitted))
            },
        }
    }
}

/// The primitives that a decision emits: those of `Emit`, none otherwise.
pub open spec fn emitted_by(decision: PointerDecisionView) -> Seq<PointerPrimitive> {
    match decision {
        PointerDecisionView::Emit(primitives) => primitives,
        _ => Seq::empty(),
    }
}

/// An input device that replays pointer, wheel and keyboard events on a
/// capture target of type `C`.
#[derive(Clone, Debug, PartialEq, Eq)]
pub struct AutoPilotDevice<C> {
    capturable: C,
    machine: PointerStateMachine,
    identity: VirtualDeviceIdentity,
}

impl<C> AutoPilotDevice<C> {
    /// The current capture target.
    pub closed spec fn spec_capturable(&self) -> C {
        self.capturable
    }

    /// The variant of the emitter that the device was made for.
    pub closed spec fn spec_variant(&self) -> EmitterVariant {
        self.machine.spec_variant()
    }

    /// The button and proximity flags as they stand.
    pub closed spec fn spec_state(&self) -> DeviceState {
        self.machine.spec_state()
    }

    /// The identity that the device gives its tablet events.
    pub closed spec fn spec_identity(&self) -> VirtualDeviceIdentity {
        self.identity
    }

    /// A device for the given capture target and variant: button up, pen out
    /// of range.
    pub fn new(capturable: C, variant: EmitterVariant) -> (device: Self)
        ensures
            device.spec_capturable() == capturable,
            device.spec_variant() == variant,
            device.spec_state() == idle(),
            device.spec_identity() == virtual_pen(),
            consistent(device.spec_variant(), device.spec_state()),
    {
        AutoPilotDevice {
            capturable,
            machine: PointerStateMachine::new(variant),
            identity: VirtualDeviceIdentity::pen(),
        }
    }

    /// Replaces the capture target. The queries of the next event go to the
    /// new target; the button and proximity flags stay as they are.
    pub fn set_capturable(&mut self, capturable: C)
        ensures
            final(self).spec_capturable() == capturable,
            final(self).spec_variant() == old(self).spec_variant(),
            final(self).spec_state() == old(self).spec_state(),
            final(self).spec_identity() == old(self).spec_identity(),
    {
        self.capturable = capturable;
    }

    /// The current capture target. The caller makes the queries on it that
    /// the device asks for.
    pub fn capturable(&self) -> (capturable: &C)
        ensures
            *capturable == self.spec_capturable(),
    {
        &self.capturable
    }

    /// The current capture target, for queries that change it. Whatever the
    /// caller does to the target, the rest of the device stays as it is.
    pub fn capturable_mut(&mut self) -> (capturable: &mut C)
        ensures
            *capturable == old(self).spec_capturable(),
            final(self).spec_capturable() == *final(capturable),
            final(self).spec_variant() == old(self).spec_variant(),
            final(self).spec_state() == old(self).spec_state(),
            final(self).spec_identity() == old(self).spec_identity(),
    {
        &mut self.capturable
    }

    /// The variant of the emitter that the device was made for.
    #[verifier::when_used_as_spec(spec_variant)]
    pub fn variant(&self) -> (variant: EmitterVariant)
        ensures
            variant == self.spec_variant(),
    {
        self.machine.variant()
    }

    /// The button and proximity flags as they stand.
    #[verifier::when_used_as_spec(spec_state)]
    pub fn state(&self) -> (state: DeviceState)
        ensures
            state == self.spec_state(),
    {
        self.machine.state()
    }

    /// The identity that the device gives its tablet events.
    #[verifier::when_used_as_spec(spec_identity)]
    pub fn identity(&self) -> (identity: VirtualDeviceIdentity)
        ensures
            identity == self.spec_identity(),
    {
        self.identity
    }

    /// The tag that tells which variant is active.
    pub fn device_type(&self) -> (tag: InputDeviceType)
        ensures
            tag == device_type_of(self.spec_variant()),
            tag.honors_pressure() <==> self.spec_variant() is PressureTablet,
    {
        match self.machine.variant() {
            EmitterVariant::Baseline => InputDeviceType::AutoPilotDevice,
            EmitterVariant::PressureTablet => InputDeviceType::AutoPilotTabletDevice,
        }
    }

    /// Describes the native call that this device makes for a primitive.
    pub fn native_call(&self, primitive: PointerPrimitive) -> (call: Option<NativeCall>)
        ensures
            call is Some == native_call_of(
                self.spec_variant(),
                self.spec_identity(),
                primitive,
            ) is Some,
            call matches Some(described) ==> Some(described@) == native_call_of(
                self.spec_variant(),
                self.spec_identity(),
                primitive,
            ),
    {
        native_call(self.machine.variant(), &self.identity, primitive)
    }

    /// Takes one turn on a pointer event.
    ///
    /// `progress` tells how far the queries for this event have come; the
    /// first turn starts with `CaptureProgress::start()`. The state moves
    /// only when the decision is `Emit`.
    pub fn send_pointer_event(&mut self, event: &PointerEvent, progress: CaptureProgress) -> (decision:
        PointerDecision)
        ensures
            final(self).spec_capturable() == old(self).spec_capturable(),
            final(self).spec_variant() == old(self).spec_variant(),
            final(self).spec_identity() == old(self).spec_identity(),
            (final(self).spec_state(), decision@) == pointer_outcome(
                old(self).spec_variant(),
                old(self).spec_state(),
                *event,
                progress,
            ),
            !event.is_primary ==> decision@ is Discard && *final(self) == *old(self),
            !(decision@ is Emit) ==> *final(self) == *old(self),
            consistent(old(self).spec_variant(), old(self).spec_state()) ==> consistent(
                final(self).spec_variant(),
                final(self).spec_state(),
            ),
    {
        if !event.is_primary {
            return PointerDecision::Discard;
        }
        match progress {
            CaptureProgress::Awaiting(query) => PointerDecision::Ask(query),
            CaptureProgress::Failed(query) => PointerDecision::Drop(query),
            CaptureProgress::Ready => {
                let emitted = self.machine.handle(event.event_type);
                PointerDecision::Emit(emitted)
            },
        }
    }

    /// Decides the scroll call for a wheel event: one unit up for a positive
    /// delta, one unit down for a negative one, none for zero. The device
    /// stays as it is.
    pub fn send_wheel_event(&mut self, event: &WheelEvent) -> (scroll: Option<Scroll>)
        ensures
            scroll == scroll_of(event.dy as int),
            *final(self) == *old(self),
    {
        wheel_scroll(event)
    }

    /// Decides the key-toggle calls that replay a key event, in order. The
    /// device stays as it is.
    pub fn send_keyboard_event(&mut self, event: &KeyboardEvent) -> (toggles: Vec<KeyToggle>)
        ensures
            toggles@ == toggles_of(*event),
            event.event_type is Repeat ==> toggles@.len() == 0,
            *final(self) == *old(self),
    {
        key_toggles(event)
    }
}

} // verus!
