//! The platform event emitter: what each pointer primitive looks like as a
//! native call, for the baseline variant and for the pen emulation.
//!
//! Every description is built afresh when it is asked for; nothing is cached.

use vstd::prelude::*;
use crate::pointer::{EmitterVariant, PointerPrimitive};

verus! {

/// The identity of the virtual pen. Every synthesized tablet event carries
/// it, so that the platform sees one device for the whole session.
#[derive(Clone, Copy, Debug, PartialEq, Eq)]
pub struct VirtualDeviceIdentity {
    pub vendor_id: i64,
    pub tablet_id: i64,
    pub device_id: i64,
    pub pointer_id: i64,
}

/// The virtual device reports an absolute X position.
pub const CAPABILITY_ABSOLUTE_X: i64 = 0x0002;

/// The virtual device reports an absolute Y position.
pub const CAPABILITY_ABSOLUTE_Y: i64 = 0x0004;

/// The virtual device reports pressure.
pub const CAPABILITY_PRESSURE: i64 = 0x0400;

/// The capability mask that the virtual device advertises: absolute X,
/// absolute Y and pressure.
pub const TABLET_CAPABILITY_MASK: i64 = 0x0406;

/// The pointer type of a pen.
pub const TABLET_POINTER_TYPE_PEN: i64 = 1;

/// The subtype of a mouse event that carries a tablet point.
pub const MOUSE_EVENT_SUBTYPE_TABLET_POINT: i64 = 1;

/// The identity that the device uses.
pub open spec fn virtual_pen() -> VirtualDeviceIdentity {
    VirtualDeviceIdentity { vendor_id: 0x1234, tablet_id: 0x0001, device_id: 1, pointer_id: 1 }
}

/// A field of a native event.
#[derive(Clone, Copy, Debug, PartialEq, Eq)]
pub enum EventField {
    MouseEventSubType,
    MouseEventPressure,
    TabletEventPointPressure,
    TabletEventDeviceId,
    TabletProximityEventEnterProximity,
    TabletProximityEventVendorId,
    TabletProximityEventTabletId,
    TabletProximityEventDeviceId,
    TabletProximityEventSystemTabletId,
    TabletProximityEventPointerId,
    TabletProximityEventPointerType,
    TabletProximityEventVendorPointerType,
    TabletProximityEventCapabilityMask,
}

/// Where the pressure of a native event comes from.
#[derive(Clone, Copy, Debug, PartialEq, Eq)]
pub enum Pressure {
    /// No pressure.
    Zero,
    /// The stylus pressure of the pointer event that is being replayed.
    OfEvent,
}

/// What a field is set to.
#[derive(Clone, Copy, Debug, PartialEq, Eq)]
pub enum Setting {
    /// An integer.
    Integer(i64),
    /// A pressure, as a real number from 0 to 1.
    Pressure(Pressure),
}

/// A field and what it is set to.
#[derive(Clone, Copy, Debug, PartialEq, Eq)]
pub struct FieldValue {
    pub field: EventField,
    pub value: Setting,
}

/// The type of a native mouse event.
#[derive(Clone, Copy, Debug, PartialEq, Eq)]
pub enum MouseEventKind {
    LeftMouseDown,
    LeftMouseUp,
    LeftMouseDragged,
    MouseMoved,
}

/// A call of the baseline variant.
#[derive(Clone, Copy, Debug, PartialEq, Eq)]
pub enum BaselineCall {
    /// Move the cursor to the event's position.
    MoveTo,
    /// Press (`down`) or release the left button where the cursor is.
    ToggleLeftButton { down: bool },
}

/// A native event of the pen emulation, with its fields in the order in
/// which they are set. Each event is posted on its own.
#[derive(Clone, Debug, PartialEq, Eq)]
pub enum TabletEvent {
    /// A tablet proximity event.
    Proximity { fields: Vec<FieldValue> },
    /// A left-button mouse event at the pointer event's position.
    Pointer { kind: MouseEventKind, fields: Vec<FieldValue> },
}

/// A pen-emulation event with its fields as a sequence.
pub enum TabletEventView {
    Proximity { fields: Seq<FieldValue> },
    Pointer { kind: MouseEventKind, fields: Seq<FieldValue> },
}

impl View for TabletEvent {
    type V = TabletEventView;

    open spec fn view(&self) -> TabletEventView {
        match *self {
            TabletEvent::Proximity { fields } => TabletEventView::Proximity { fields: fields@ },
            TabletEvent::Pointer { kind, fields } => TabletEventView::Pointer {
                kind,
                fields: fields@,
            },
        }
    }
}

/// A native call of either variant.
#[derive(Clone, Debug, PartialEq, Eq)]
pub enum NativeCall {
    Baseline(BaselineCall),
    Tablet(TabletEvent),
}

/// A native call with its fields as a sequence.
pub enum NativeCallView {
    Baseline(BaselineCall),
    Tablet(TabletEventView),
}

impl View for NativeCall {
    type V = NativeCallView;

    open spec fn view(&self) -> NativeCallView {
        match *self {
            NativeCall::Baseline(call) => NativeCallView::Baseline(call),
            NativeCall::Tablet(event) => NativeCallView::Tablet(event@),
        }
    }
}

/// An integer setting of a field.
pub open spec fn integer(field: EventField, value: i64) -> FieldValue {
    FieldValue { field, value: Setting::Integer(value) }
}

/// A pressure setting of a field.
pub open spec fn pressure(field: EventField, pressure: Pressure) -> FieldValue {
    FieldValue { field, value: Setting::Pressure(pressure) }
}

/// The fields of a proximity event: whether the pen enters (1) or leaves
/// (0), the identity of the virtual device, the pen as pointer type, and the
/// capability mask.
pub open spec fn proximity_field_seq(identity: VirtualDeviceIdentity, entering: bool) -> Seq<
    FieldValue,
> {
    seq![
        integer(
            EventField::TabletProximityEventEnterProximity,
            if entering { 1i64 } else { 0i64 },
        ),
        integer(EventField::TabletProximityEventVendorId, identity.vendor_id),
        integer(EventField::TabletProximityEventTabletId, identity.tablet_id),
        integer(EventField::TabletProximityEventDeviceId, identity.device_id),
        integer(EventField::TabletProximityEventSystemTabletId, identity.device_id),
        integer(EventField::TabletProximityEventPointerId, identity.pointer_id),
        integer(EventField::TabletProximityEventPointerType, TABLET_POINTER_TYPE_PEN),
        integer(EventField::TabletProximityEventVendorPointerType, TABLET_POINTER_TYPE_PEN),
        integer(EventField::TabletProximityEventCapabilityMask, TABLET_CAPABILITY_MASK),
    ]
}

/// The fields of a mouse event of the pen emulation: the tablet-point
/// subtype, the pressure, once as the mouse event's and once as the tablet
/// point's, and the virtual device that the point belongs to.
pub open spec fn pointer_field_seq(identity: VirtualDeviceIdentity, applied: Pressure) -> Seq<
    FieldValue,
> {
    seq![
        integer(EventField::MouseEventSubType, MOUSE_EVENT_SUBTYPE_TABLET_POINT),
        pressure(EventField::MouseEventPressure, applied),
        pressure(EventField::TabletEventPointPressure, applied),
        integer(EventField::TabletEventDeviceId, identity.device_id),
    ]
}

/// The mouse event of a primitive: its type and where its pressure comes
/// from. Button-down and drag bear the event's pressure, button-up and move
/// bear none. The proximity primitives are no mouse events.
pub open spec fn mouse_event_of(primitive: PointerPrimitive) -> Option<(MouseEventKind, Pressure)> {
    match primitive {
        PointerPrimitive::ButtonDown => Some((MouseEventKind::LeftMouseDown, Pressure::OfEvent)),
        PointerPrimitive::ButtonUp => Some((MouseEventKind::LeftMouseUp, Pressure::Zero)),
        PointerPrimitive::Drag => Some((MouseEventKind::LeftMouseDragged, Pressure::OfEvent)),
        PointerPrimitive::Move => Some((MouseEventKind::MouseMoved, Pressure::Zero)),
        PointerPrimitive::ProximityEnter => None,
        PointerPrimitive::ProximityLeave => None,
    }
}

/// The native event that the pen emulation posts for a primitive.
pub open spec fn tablet_event_of(
    identity: VirtualDeviceIdentity,
    primitive: PointerPrimitive,
) -> TabletEventView {
    match mouse_event_of(primitive) {
        Some((kind, applied)) => TabletEventView::Pointer {
            kind,
            fields: pointer_field_seq(identity, applied),
        },
        None => TabletEventView::Proximity {
            fields: proximity_field_seq(identity, primitive is ProximityEnter),
        },
    }
}

/// The call that the baseline variant makes for a primitive. It has none
/// for a proximity primitive, and a drag is the same move as any other.
pub open spec fn baseline_call_of(primitive: PointerPrimitive) -> Option<BaselineCall> {
    match primitive {
        PointerPrimitive::Move => Some(BaselineCall::MoveTo),
        PointerPrimitive::Drag => Some(BaselineCall::MoveTo),
        PointerPrimitive::ButtonDown => Some(BaselineCall::ToggleLeftButton { down: true }),
        PointerPrimitive::ButtonUp => Some(BaselineCall::ToggleLeftButton { down: false }),
        PointerPrimitive::ProximityEnter => None,
        PointerPrimitive::ProximityLeave => None,
    }
}

/// The native call that a variant makes for a primitive. Only the baseline
/// variant has none for some: the proximity primitives, which it never emits.
pub open spec fn native_call_of(
    variant: EmitterVariant,
    identity: VirtualDeviceIdentity,
    primitive: PointerPrimitive,
) -> Option<NativeCallView> {
    match variant {
        EmitterVariant::Baseline => match baseline_call_of(primitive) {
            Some(call) => Some(NativeCallView::Baseline(call)),
            None => None,
        },
        EmitterVariant::PressureTablet => Some(
            NativeCallView::Tablet(tablet_event_of(identity, primitive)),
        ),
    }
}

impl VirtualDeviceIdentity {
    /// The identity that the device uses.
    pub fn pen() -> (identity: Self)
        ensures
            identity == virtual_pen(),
    {
        VirtualDeviceIdentity { vendor_id: 0x1234, tablet_id: 0x0001, device_id: 1, pointer_id: 1 }
    }
}

/// The capability mask holds the three capabilities and nothing else.
pub proof fn lemma_capability_mask_bits()
    ensures
        TABLET_CAPABILITY_MASK == CAPABILITY_ABSOLUTE_X | CAPABILITY_ABSOLUTE_Y
            | CAPABILITY_PRESSURE,
        TABLET_CAPABILITY_MASK & CAPABILITY_ABSOLUTE_X == CAPABILITY_ABSOLUTE_X,
        TABLET_CAPABILITY_MASK & CAPABILITY_ABSOLUTE_Y == CAPABILITY_ABSOLUTE_Y,
        TABLET_CAPABILITY_MASK & CAPABILITY_PRESSURE == CAPABILITY_PRESSURE,
{
    assert(0x0406i64 == 0x0002i64 | 0x0004i64 | 0x0400i64) by (bit_vector);
    assert(0x0406i64 & 0x0002i64 == 0x0002i64) by (bit_vector);
    assert(0x0406i64 & 0x0004i64 == 0x0004i64) by (bit_vector);
    assert(0x0406i64 & 0x0400i64 == 0x0400i64) by (bit_vector);
}

/// Every tablet event is tagged with the virtual device: a proximity event
/// names its vendor, tablet, device and pointer and advertises the
/// capability mask, and a mouse event names the device.
pub proof fn lemma_tablet_events_carry_identity(
    identity: VirtualDeviceIdentity,
    primitive: PointerPrimitive,
)
    ensures
        match tablet_event_of(identity, primitive) {
            TabletEventView::Proximity { fields } => {
                &&& fields.contains(
                    integer(EventField::TabletProximityEventVendorId, identity.vendor_id),
                )
                &&& fields.contains(
                    integer(EventField::TabletProximityEventTabletId, identity.tablet_id),
                )
                &&& fields.contains(
                    integer(EventField::TabletProximityEventDeviceId, identity.device_id),
                )
                &&& fields.contains(
                    integer(EventField::TabletProximityEventPointerId, identity.pointer_id),
                )
                &&& fields.contains(
                    integer(EventField::TabletProximityEventCapabilityMask, TABLET_CAPABILITY_MASK),
                )
            },
            TabletEventView::Pointer { kind, fields } => fields.contains(
                integer(EventField::TabletEventDeviceId, identity.device_id),
            ),
        },
{
    match tablet_event_of(identity, primitive) {
        TabletEventView::Proximity { fields } => {
            assert(fields[1] == integer(
                EventField::TabletProximityEventVendorId,
                identity.vendor_id,
            ));
            assert(fields[2] == integer(
                EventField::TabletProximityEventTabletId,
                identity.tablet_id,
            ));
            assert(fields[3] == integer(
                EventField::TabletProximityEventDeviceId,
                identity.device_id,
            ));
            assert(fields[5] == integer(
                EventField::TabletProximityEventPointerId,
                identity.pointer_id,
            ));
            assert(fields[8] == integer(
                EventField::TabletProximityEventCapabilityMask,
                TABLET_CAPABILITY_MASK,
            ));
        },
        TabletEventView::Pointer { kind, fields } => {
            assert(fields[3] == integer(EventField::TabletEventDeviceId, identity.device_id));
        },
    }
}

/// Builds the fields of a proximity event.
pub fn proximity_fields(identity: &VirtualDeviceIdentity, entering: bool) -> (fields: Vec<
    FieldValue,
>)
    ensures
        fields@ == proximity_field_seq(*identity, entering),
{
    let mut fields: Vec<FieldValue> = Vec::new();
    fields.push(
        FieldValue {
            field: EventField::TabletProximityEventEnterProximity,
            value: Setting::Integer(if entering { 1 } else { 0 }),
        },
    );
    fields.push(
        FieldValue {
            field: EventField::TabletProximityEventVendorId,
            value: Setting::Integer(identity.vendor_id),
        },
    );
    fields.push(
        FieldValue {
            field: EventField::TabletProximityEventTabletId,
            value: Setting::Integer(identity.tablet_id),
        },
    );
    fields.push(
        FieldValue {
            field: EventField::TabletProximityEventDeviceId,
            value: Setting::Integer(identity.device_id),
        },
    );
    fields.push(
        FieldValue {
            field: EventField::TabletProximityEventSystemTabletId,
            value: Setting::Integer(identity.device_id),
        },
    );
    fields.push(
        FieldValue {
            field: EventField::TabletProximityEventPointerId,
            value: Setting::Integer(identity.pointer_id),
        },
    );
    fields.push(
        FieldValue {
            field: EventField::TabletProximityEventPointerType,
            value: Setting::Integer(TABLET_POINTER_TYPE_PEN),
        },
    );
    fields.push(
        FieldValue {
            field: EventField::TabletProximityEventVendorPointerType,
            value: Setting::Integer(TABLET_POINTER_TYPE_PEN),
        },
    );
    fields.push(
        FieldValue {
            field: EventField::TabletProximityEventCapabilityMask,
            value: Setting::Integer(TABLET_CAPABILITY_MASK),
        },
    );
    assert(fields@ =~= proximity_field_seq(*identity, entering));
    fields
}

/// Builds the fields of a mouse event of the pen emulation.
pub fn pointer_fields(identity: &VirtualDeviceIdentity, applied: Pressure) -> (fields: Vec<
    FieldValue,
>)
    ensures
        fields@ == pointer_field_seq(*identity, applied),
{
    let mut fields: Vec<FieldValue> = Vec::new();
    fields.push(
        FieldValue {
            field: EventField::MouseEventSubType,
            value: Setting::Integer(MOUSE_EVENT_SUBTYPE_TABLET_POINT),
        },
    );
    fields.push(
        FieldValue { field: EventField::MouseEventPressure, value: Setting::Pressure(applied) },
    );
    fields.push(
        FieldValue {
            field: EventField::TabletEventPointPressure,
            value: Setting::Pressure(applied),
        },
    );
    fields.push(
        FieldValue {
            field: EventField::TabletEventDeviceId,
            value: Setting::Integer(identity.device_id),
        },
    );
    assert(fields@ =~= pointer_field_seq(*identity, applied));
    fields
}

/// Describes the native event that the pen emulation posts for a primitive.
pub fn tablet_event(identity: &VirtualDeviceIdentity, primitive: PointerPrimitive) -> (event:
    TabletEvent)
    ensures
        event@ == tablet_event_of(*identity, primitive),
{
    match primitive {
        PointerPrimitive::ProximityEnter => TabletEvent::Proximity {
            fields: proximity_fields(identity, true),
        },
        PointerPrimitive::ProximityLeave => TabletEvent::Proximity {
            fields: proximity_fields(identity, false),
        },
        PointerPrimitive::ButtonDown => TabletEvent::Pointer {
            kind: MouseEventKind::LeftMouseDown,
            fields: pointer_fields(identity, Pressure::OfEvent),
        },
        PointerPrimitive::ButtonUp => TabletEvent::Pointer {
            kind: MouseEventKind::LeftMouseUp,
            fields: pointer_fields(identity, Pressure::Zero),
        },
        PointerPrimitive::Drag => TabletEvent::Pointer {
            kind: MouseEventKind::LeftMouseDragged,
            fields: pointer_fields(identity, Pressure::OfEvent),
        },
        PointerPrimitive::Move => TabletEvent::Pointer {
            kind: MouseEventKind::MouseMoved,
            fields: pointer_fields(identity, Pressure::Zero),
        },
    }
}

/// Decides the call that the baseline variant makes for a primitive.
pub fn baseline_call(primitive: PointerPrimitive) -> (call: Option<BaselineCall>)
    ensures
        call == baseline_call_of(primitive),
{
    match primitive {
        PointerPrimitive::Move | PointerPrimitive::Drag => Some(BaselineCall::MoveTo),
        PointerPrimitive::ButtonDown => Some(BaselineCall::ToggleLeftButton { down: true }),
        PointerPrimitive::ButtonUp => Some(BaselineCall::ToggleLeftButton { down: false }),
        PointerPrimitive::ProximityEnter | PointerPrimitive::ProximityLeave => None,
    }
}

/// Describes the native call that a variant makes for a primitive.
pub fn native_call(
    variant: EmitterVariant,
    identity: &VirtualDeviceIdentity,
    primitive: PointerPrimitive,
) -> (call: Option<NativeCall>)
    ensures
        call is Some == native_call_of(variant, *identity, primitive) is Some,
        call matches Some(described) ==> Some(described@) == native_call_of(
            variant,
            *identity,
            primitive,
        ),
{
    match variant {
        EmitterVariant::Baseline => match baseline_call(primitive) {
            Some(call) => Some(NativeCall::Baseline(call)),
            None => None,
        },
        EmitterVariant::PressureTablet => Some(
            NativeCall::Tablet(tablet_event(identity, primitive)),
        ),
    }
}

} // verus!
