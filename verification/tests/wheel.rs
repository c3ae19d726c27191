use input_injection::device::AutoPilotDevice;
use input_injection::pointer::EmitterVariant;
use input_injection::protocol::WheelEvent;
use input_injection::wheel::{wheel_scroll, Scroll, ScrollDirection, SCROLL_UNIT};

#[test]
fn positive_delta_scrolls_up_once() {
    let scroll = wheel_scroll(&WheelEvent { dy: 7 });
    assert_eq!(scroll, Some(Scroll { direction: ScrollDirection::Up, clicks: 1 }));
}

#[test]
fn negative_delta_scrolls_down_once() {
    let scroll = wheel_scroll(&WheelEvent { dy: -2 });
    assert_eq!(scroll, Some(Scroll { direction: ScrollDirection::Down, clicks: 1 }));
}

#[test]
fn zero_delta_scrolls_nothing() {
    assert_eq!(wheel_scroll(&WheelEvent { dy: 0 }), None);
}

#[test]
fn magnitude_collapses_to_one_unit() {
    assert_eq!(SCROLL_UNIT, 1);
    for dy in [1, 2, 120, 100_000, i32::MAX] {
        assert_eq!(
            wheel_scroll(&WheelEvent { dy }),
            Some(Scroll { direction: ScrollDirection::Up, clicks: 1 })
        );
    }
    for dy in [-1, -3, -120, -100_000, i32::MIN] {
        assert_eq!(
            wheel_scroll(&WheelEvent { dy }),
            Some(Scroll { direction: ScrollDirection::Down, clicks: 1 })
        );
    }
}

#[test]
fn device_wheel_event_leaves_the_device_alone() {
    for variant in [EmitterVariant::Baseline, EmitterVariant::PressureTablet] {
        let mut device = AutoPilotDevice::new((), variant);
        let before = device.clone();
        assert_eq!(
            device.send_wheel_event(&WheelEvent { dy: 7 }),
            Some(Scroll { direction: ScrollDirection::Up, clicks: 1 })
        );
        assert_eq!(
            device.send_wheel_event(&WheelEvent { dy: -2 }),
            Some(Scroll { direction: ScrollDirection::Down, clicks: 1 })
        );
        assert_eq!(device.send_wheel_event(&WheelEvent { dy: 0 }), None);
        assert_eq!(device, before);
    }
}
