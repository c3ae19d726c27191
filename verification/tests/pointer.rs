use input_injection::capture::{CaptureProgress, CaptureQuery};
use input_injection::device::{AutoPilotDevice, InputDeviceType, PointerDecision};
use input_injection::pointer::{
    DeviceState, EmitterVariant, PointerPrimitive, PointerStateMachine,
};
use input_injection::protocol::{PointerEvent, PointerEventType};

fn primary(event_type: PointerEventType) -> PointerEvent {
    PointerEvent { event_type, is_primary: true }
}

fn secondary(event_type: PointerEventType) -> PointerEvent {
    PointerEvent { event_type, is_primary: false }
}

fn all_types() -> [PointerEventType; 8] {
    [
        PointerEventType::Down,
        PointerEventType::Up,
        PointerEventType::Cancel,
        PointerEventType::Move,
        PointerEventType::Over,
        PointerEventType::Enter,
        PointerEventType::Leave,
        PointerEventType::Out,
    ]
}

fn both_variants() -> [EmitterVariant; 2] {
    [EmitterVariant::Baseline, EmitterVariant::PressureTablet]
}

fn idle() -> DeviceState {
    DeviceState { left_button_down: false, in_proximity: false }
}

/// Runs the turns of one event the way a caller does, with the given answers
/// to the queries, and returns the queries made and the last decision.
fn replay(
    device: &mut AutoPilotDevice<()>,
    event: &PointerEvent,
    answers: &[bool],
) -> (Vec<CaptureQuery>, PointerDecision) {
    let mut asked = Vec::new();
    let mut progress = CaptureProgress::start();
    loop {
        match device.send_pointer_event(event, progress) {
            PointerDecision::Ask(query) => {
                let answer = answers[asked.len()];
                asked.push(query);
                progress = progress.record(answer);
            }
            decision => return (asked, decision),
        }
    }
}

/// Replays an event whose capture target is available and returns what is
/// emitted.
fn emit(device: &mut AutoPilotDevice<()>, event_type: PointerEventType) -> Vec<PointerPrimitive> {
    match replay(device, &primary(event_type), &[true, true, true]) {
        (_, PointerDecision::Emit(primitives)) => primitives,
        (_, decision) => panic!("expected primitives, got {:?}", decision),
    }
}

fn count(stream: &[PointerPrimitive], primitive: PointerPrimitive) -> usize {
    stream.iter().filter(|p| **p == primitive).count()
}

#[test]
fn new_device_is_idle() {
    for variant in both_variants() {
        let device = AutoPilotDevice::new((), variant);
        assert_eq!(device.variant(), variant);
        assert_eq!(device.state(), idle());
    }
}

#[test]
fn repeated_down_emits_one_button_down() {
    for variant in both_variants() {
        let mut device = AutoPilotDevice::new((), variant);
        let mut stream = Vec::new();
        for _ in 0..5 {
            stream.extend(emit(&mut device, PointerEventType::Down));
        }
        assert_eq!(count(&stream, PointerPrimitive::ButtonDown), 1);
        assert_eq!(count(&stream, PointerPrimitive::ButtonUp), 0);
        assert!(device.state().left_button_down);
    }
}

#[test]
fn repeated_down_emits_nothing_after_the_first() {
    for variant in both_variants() {
        let mut device = AutoPilotDevice::new((), variant);
        assert!(!emit(&mut device, PointerEventType::Down).is_empty());
        let held = device.clone();
        for _ in 0..3 {
            assert_eq!(emit(&mut device, PointerEventType::Down), vec![]);
            assert_eq!(device, held);
        }
    }
}

#[test]
fn down_then_up_on_the_baseline() {
    let mut device = AutoPilotDevice::new((), EmitterVariant::Baseline);
    assert_eq!(
        emit(&mut device, PointerEventType::Down),
        vec![PointerPrimitive::Move, PointerPrimitive::ButtonDown]
    );
    assert_eq!(device.state(), DeviceState { left_button_down: true, in_proximity: false });
    assert_eq!(
        emit(&mut device, PointerEventType::Up),
        vec![PointerPrimitive::Move, PointerPrimitive::ButtonUp]
    );
    assert_eq!(device.state(), idle());
    assert_eq!(emit(&mut device, PointerEventType::Up), vec![]);
    assert_eq!(device.state(), idle());
}

#[test]
fn down_then_up_on_the_tablet() {
    let mut device = AutoPilotDevice::new((), EmitterVariant::PressureTablet);
    assert_eq!(
        emit(&mut device, PointerEventType::Down),
        vec![PointerPrimitive::ProximityEnter, PointerPrimitive::ButtonDown]
    );
    assert_eq!(device.state(), DeviceState { left_button_down: true, in_proximity: true });
    assert_eq!(
        emit(&mut device, PointerEventType::Up),
        vec![PointerPrimitive::ButtonUp, PointerPrimitive::ProximityLeave]
    );
    assert_eq!(device.state(), idle());
    assert_eq!(emit(&mut device, PointerEventType::Up), vec![]);
    assert_eq!(device.state(), idle());
}

#[test]
fn down_then_up_emits_down_before_up() {
    for variant in both_variants() {
        let mut device = AutoPilotDevice::new((), variant);
        let mut stream = emit(&mut device, PointerEventType::Down);
        stream.extend(emit(&mut device, PointerEventType::Up));
        assert_eq!(count(&stream, PointerPrimitive::ButtonDown), 1);
        assert_eq!(count(&stream, PointerPrimitive::ButtonUp), 1);
        let down = stream.iter().position(|p| *p == PointerPrimitive::ButtonDown).unwrap();
        let up = stream.iter().position(|p| *p == PointerPrimitive::ButtonUp).unwrap();
        assert!(down < up);
        assert_eq!(emit(&mut device, PointerEventType::Up), vec![]);
    }
}

#[test]
fn every_release_type_releases() {
    for variant in both_variants() {
        for release in [
            PointerEventType::Up,
            PointerEventType::Cancel,
            PointerEventType::Leave,
            PointerEventType::Out,
        ] {
            let mut device = AutoPilotDevice::new((), variant);
            assert_eq!(emit(&mut device, release), vec![]);
            emit(&mut device, PointerEventType::Down);
            let stream = emit(&mut device, release);
            assert_eq!(count(&stream, PointerPrimitive::ButtonUp), 1);
            assert_eq!(device.state(), idle());
            for again in [
                PointerEventType::Up,
                PointerEventType::Cancel,
                PointerEventType::Leave,
                PointerEventType::Out,
            ] {
                assert_eq!(emit(&mut device, again), vec![]);
                assert_eq!(device.state(), idle());
            }
        }
    }
}

#[test]
fn tablet_cycle_is_bracketed_by_proximity() {
    let mut device = AutoPilotDevice::new((), EmitterVariant::PressureTablet);
    let mut stream = Vec::new();
    for event_type in [
        PointerEventType::Down,
        PointerEventType::Move,
        PointerEventType::Down,
        PointerEventType::Enter,
        PointerEventType::Over,
        PointerEventType::Up,
    ] {
        stream.extend(emit(&mut device, event_type));
    }
    assert_eq!(
        stream,
        vec![
            PointerPrimitive::ProximityEnter,
            PointerPrimitive::ButtonDown,
            PointerPrimitive::Drag,
            PointerPrimitive::Drag,
            PointerPrimitive::Drag,
            PointerPrimitive::ButtonUp,
            PointerPrimitive::ProximityLeave,
        ]
    );
    assert_eq!(device.state(), idle());
}

#[test]
fn tablet_enters_proximity_again_on_the_next_cycle() {
    let mut device = AutoPilotDevice::new((), EmitterVariant::PressureTablet);
    let mut stream = Vec::new();
    for _ in 0..3 {
        stream.extend(emit(&mut device, PointerEventType::Down));
        stream.extend(emit(&mut device, PointerEventType::Cancel));
    }
    assert_eq!(count(&stream, PointerPrimitive::ProximityEnter), 3);
    assert_eq!(count(&stream, PointerPrimitive::ProximityLeave), 3);
    assert_eq!(count(&stream, PointerPrimitive::ButtonDown), 3);
    assert_eq!(count(&stream, PointerPrimitive::ButtonUp), 3);
}

#[test]
fn baseline_never_emits_tablet_primitives() {
    let mut device = AutoPilotDevice::new((), EmitterVariant::Baseline);
    let mut stream = Vec::new();
    for _ in 0..2 {
        for event_type in all_types() {
            stream.extend(emit(&mut device, event_type));
            assert!(!device.state().in_proximity);
        }
    }
    assert_eq!(count(&stream, PointerPrimitive::ProximityEnter), 0);
    assert_eq!(count(&stream, PointerPrimitive::ProximityLeave), 0);
    assert_eq!(count(&stream, PointerPrimitive::Drag), 0);
}

#[test]
fn motion_moves_while_up_and_drags_while_down() {
    for motion in [PointerEventType::Move, PointerEventType::Over, PointerEventType::Enter] {
        let mut tablet = AutoPilotDevice::new((), EmitterVariant::PressureTablet);
        assert_eq!(emit(&mut tablet, motion), vec![PointerPrimitive::Move]);
        assert_eq!(tablet.state(), idle());
        emit(&mut tablet, PointerEventType::Down);
        let held = tablet.clone();
        assert_eq!(emit(&mut tablet, motion), vec![PointerPrimitive::Drag]);
        assert_eq!(tablet, held);

        let mut baseline = AutoPilotDevice::new((), EmitterVariant::Baseline);
        assert_eq!(emit(&mut baseline, motion), vec![PointerPrimitive::Move]);
        emit(&mut baseline, PointerEventType::Down);
        let held = baseline.clone();
        assert_eq!(emit(&mut baseline, motion), vec![PointerPrimitive::Move]);
        assert_eq!(baseline, held);
    }
}

#[test]
fn secondary_pointer_is_discarded() {
    for variant in both_variants() {
        for pressed in [false, true] {
            for event_type in all_types() {
                let mut device = AutoPilotDevice::new((), variant);
                if pressed {
                    emit(&mut device, PointerEventType::Down);
                }
                let before = device.clone();
                for progress in [
                    CaptureProgress::start(),
                    CaptureProgress::Awaiting(CaptureQuery::Geometry),
                    CaptureProgress::Awaiting(CaptureQuery::ScreenBounds),
                    CaptureProgress::Failed(CaptureQuery::Activation),
                    CaptureProgress::Ready,
                ] {
                    let decision = device.send_pointer_event(&secondary(event_type), progress);
                    assert_eq!(decision, PointerDecision::Discard);
                    assert_eq!(device, before);
                }
            }
        }
    }
}

#[test]
fn secondary_pointer_asks_nothing_of_the_capture_target() {
    let mut device = AutoPilotDevice::new((), EmitterVariant::PressureTablet);
    let (asked, decision) = replay(&mut device, &secondary(PointerEventType::Down), &[]);
    assert_eq!(asked, vec![]);
    assert_eq!(decision, PointerDecision::Discard);
    assert_eq!(device.state(), idle());
}

#[test]
fn queries_come_in_order() {
    for variant in both_variants() {
        let mut device = AutoPilotDevice::new((), variant);
        let (asked, decision) =
            replay(&mut device, &primary(PointerEventType::Move), &[true, true, true]);
        assert_eq!(
            asked,
            vec![CaptureQuery::Activation, CaptureQuery::Geometry, CaptureQuery::ScreenBounds]
        );
        assert_eq!(decision, PointerDecision::Emit(vec![PointerPrimitive::Move]));
    }
}

#[test]
fn failed_activation_drops_the_event() {
    for variant in both_variants() {
        for event_type in all_types() {
            let mut device = AutoPilotDevice::new((), variant);
            let before = device.clone();
            let (asked, decision) = replay(&mut device, &primary(event_type), &[false]);
            assert_eq!(asked, vec![CaptureQuery::Activation]);
            assert_eq!(decision, PointerDecision::Drop(CaptureQuery::Activation));
            assert_eq!(device, before);
        }
    }
}

#[test]
fn failed_geometry_drops_the_event() {
    for variant in both_variants() {
        let mut device = AutoPilotDevice::new((), variant);
        emit(&mut device, PointerEventType::Down);
        let before = device.clone();
        let (asked, decision) =
            replay(&mut device, &primary(PointerEventType::Up), &[true, false]);
        assert_eq!(asked, vec![CaptureQuery::Activation, CaptureQuery::Geometry]);
        assert_eq!(decision, PointerDecision::Drop(CaptureQuery::Geometry));
        assert_eq!(device, before);
        assert!(device.state().left_button_down);
    }
}

#[test]
fn failed_screen_bounds_drop_the_event() {
    for variant in both_variants() {
        let mut device = AutoPilotDevice::new((), variant);
        let before = device.clone();
        let (asked, decision) =
            replay(&mut device, &primary(PointerEventType::Down), &[true, true, false]);
        assert_eq!(
            asked,
            vec![CaptureQuery::Activation, CaptureQuery::Geometry, CaptureQuery::ScreenBounds]
        );
        assert_eq!(decision, PointerDecision::Drop(CaptureQuery::ScreenBounds));
        assert_eq!(device, before);
    }
}

#[test]
fn dropped_down_does_not_count_as_a_press() {
    let mut device = AutoPilotDevice::new((), EmitterVariant::PressureTablet);
    let (_, decision) = replay(&mut device, &primary(PointerEventType::Down), &[false]);
    assert_eq!(decision, PointerDecision::Drop(CaptureQuery::Activation));
    assert_eq!(
        emit(&mut device, PointerEventType::Down),
        vec![PointerPrimitive::ProximityEnter, PointerPrimitive::ButtonDown]
    );
}

#[test]
fn progress_records_answers() {
    let start = CaptureProgress::start();
    assert_eq!(start, CaptureProgress::Awaiting(CaptureQuery::Activation));
    assert_eq!(start.record(false), CaptureProgress::Failed(CaptureQuery::Activation));
    let activated = start.record(true);
    assert_eq!(activated, CaptureProgress::Awaiting(CaptureQuery::Geometry));
    assert_eq!(activated.record(false), CaptureProgress::Failed(CaptureQuery::Geometry));
    let located = activated.record(true);
    assert_eq!(located, CaptureProgress::Awaiting(CaptureQuery::ScreenBounds));
    assert_eq!(located.record(false), CaptureProgress::Failed(CaptureQuery::ScreenBounds));
    let ready = located.record(true);
    assert_eq!(ready, CaptureProgress::Ready);
    for answer in [false, true] {
        assert_eq!(ready.record(answer), CaptureProgress::Ready);
        for query in [CaptureQuery::Activation, CaptureQuery::Geometry, CaptureQuery::ScreenBounds]
        {
            assert_eq!(
                CaptureProgress::Failed(query).record(answer),
                CaptureProgress::Failed(query)
            );
        }
    }
}

#[test]
fn state_machine_follows_the_table() {
    let mut machine = PointerStateMachine::new(EmitterVariant::PressureTablet);
    assert_eq!(machine.variant(), EmitterVariant::PressureTablet);
    assert_eq!(machine.state(), idle());
    assert_eq!(machine.handle(PointerEventType::Up), vec![]);
    assert_eq!(machine.handle(PointerEventType::Over), vec![PointerPrimitive::Move]);
    assert_eq!(
        machine.handle(PointerEventType::Down),
        vec![PointerPrimitive::ProximityEnter, PointerPrimitive::ButtonDown]
    );
    assert_eq!(machine.state(), DeviceState { left_button_down: true, in_proximity: true });
    assert_eq!(machine.handle(PointerEventType::Down), vec![]);
    assert_eq!(machine.handle(PointerEventType::Enter), vec![PointerPrimitive::Drag]);
    assert_eq!(
        machine.handle(PointerEventType::Out),
        vec![PointerPrimitive::ButtonUp, PointerPrimitive::ProximityLeave]
    );
    assert_eq!(machine.state(), idle());

    let mut machine = PointerStateMachine::new(EmitterVariant::Baseline);
    assert_eq!(machine.variant(), EmitterVariant::Baseline);
    assert_eq!(machine.handle(PointerEventType::Leave), vec![]);
    assert_eq!(
        machine.handle(PointerEventType::Down),
        vec![PointerPrimitive::Move, PointerPrimitive::ButtonDown]
    );
    assert_eq!(machine.state(), DeviceState { left_button_down: true, in_proximity: false });
    assert_eq!(machine.handle(PointerEventType::Move), vec![PointerPrimitive::Move]);
    assert_eq!(
        machine.handle(PointerEventType::Leave),
        vec![PointerPrimitive::Move, PointerPrimitive::ButtonUp]
    );
    assert_eq!(machine.state(), idle());
}

#[test]
fn devices_are_independent() {
    let mut first = AutoPilotDevice::new((), EmitterVariant::PressureTablet);
    let mut second = AutoPilotDevice::new((), EmitterVariant::PressureTablet);
    emit(&mut first, PointerEventType::Down);
    assert!(first.state().left_button_down);
    assert_eq!(second.state(), idle());
    assert_eq!(
        emit(&mut second, PointerEventType::Down),
        vec![PointerPrimitive::ProximityEnter, PointerPrimitive::ButtonDown]
    );
}

#[test]
fn device_type_tells_the_variant() {
    let baseline = AutoPilotDevice::new((), EmitterVariant::Baseline);
    assert_eq!(baseline.device_type(), InputDeviceType::AutoPilotDevice);
    assert!(!baseline.device_type().honors_pressure());
    let tablet = AutoPilotDevice::new((), EmitterVariant::PressureTablet);
    assert_eq!(tablet.device_type(), InputDeviceType::AutoPilotTabletDevice);
    assert!(tablet.device_type().honors_pressure());
}

#[test]
fn new_device_holds_its_capture_target() {
    let device = AutoPilotDevice::new(String::from("window"), EmitterVariant::Baseline);
    assert_eq!(device.capturable(), "window");
}

#[test]
fn set_capturable_replaces_the_target_only() {
    for variant in both_variants() {
        let mut device = AutoPilotDevice::new(1u32, variant);
        match device.send_pointer_event(&primary(PointerEventType::Down), CaptureProgress::Ready)
        {
            PointerDecision::Emit(_) => {}
            decision => panic!("expected primitives, got {:?}", decision),
        }
        let state = device.state();
        device.set_capturable(2);
        assert_eq!(*device.capturable(), 2);
        assert_eq!(device.state(), state);
        assert_eq!(device.variant(), variant);
        assert!(device.state().left_button_down);
    }
}

#[test]
fn capture_target_can_be_changed_in_place() {
    let mut device = AutoPilotDevice::new(vec![1u8], EmitterVariant::PressureTablet);
    device.capturable_mut().push(2);
    assert_eq!(*device.capturable(), vec![1, 2]);
    assert_eq!(device.state(), idle());
    assert_eq!(device.variant(), EmitterVariant::PressureTablet);
}

#[test]
fn pointer_events_leave_the_capture_target_alone() {
    let mut device = AutoPilotDevice::new(7u32, EmitterVariant::PressureTablet);
    for event_type in all_types() {
        device.send_pointer_event(&primary(event_type), CaptureProgress::Ready);
        device.send_pointer_event(&secondary(event_type), CaptureProgress::Ready);
        device.send_pointer_event(&primary(event_type), CaptureProgress::start());
        assert_eq!(*device.capturable(), 7);
    }
}
