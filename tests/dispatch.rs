use winit_input::dispatch::{
    EVENT_KEY_UP, EVENT_LEFT_MOUSE_DOWN, EVENT_LEFT_MOUSE_DRAGGED, EVENT_LEFT_MOUSE_UP,
    EVENT_MOUSE_MOVED, EVENT_OTHER_MOUSE_DOWN, EVENT_OTHER_MOUSE_DRAGGED, EVENT_OTHER_MOUSE_UP,
    EVENT_RIGHT_MOUSE_DOWN, EVENT_RIGHT_MOUSE_DRAGGED, EVENT_RIGHT_MOUSE_UP,
    MODIFIER_FLAG_COMMAND,
};
use winit_input::dispatch::{classify_event_type, device_event, route_event};
use winit_input::{DeviceEventKind, ElementState, EventRoute, Interceptor, NativeEventClass};

fn moved(delta_x: f64, delta_y: f64) -> bool {
    delta_x != 0.0 || delta_y != 0.0
}

#[test]
fn test_override() {
    let mut slot: Interceptor<&str> = Interceptor::new();
    assert_eq!(slot.original(), None);
    assert!(slot.install("original", false));
    // Calling twice works: the second call finds the wrapper and keeps the original.
    assert!(!slot.install("wrapper", true));
    assert_eq!(slot.original(), Some("original"));
}

#[test]
fn test_custom_class() {
    let mut slot: Interceptor<&str> = Interceptor::new();
    assert!(slot.install("TestApplication", false));
    assert_eq!(slot.original(), Some("TestApplication"));
}

#[test]
fn key_up_with_command_goes_to_key_window() {
    assert_eq!(route_event(EVENT_KEY_UP, MODIFIER_FLAG_COMMAND), EventRoute::KeyWindow);
    assert_eq!(route_event(EVENT_KEY_UP, MODIFIER_FLAG_COMMAND | 0x2_0000), EventRoute::KeyWindow);
}

#[test]
fn key_up_without_command_is_forwarded() {
    assert_eq!(
        route_event(EVENT_KEY_UP, 0x2_0000),
        EventRoute::Forward(NativeEventClass::NotApplicable)
    );
    assert_eq!(
        route_event(EVENT_MOUSE_MOVED, MODIFIER_FLAG_COMMAND),
        EventRoute::Forward(NativeEventClass::PointerMotion)
    );
}

#[test]
fn zero_motion_enqueues_nothing() {
    let route = route_event(EVENT_MOUSE_MOVED, 0);
    assert_eq!(route, EventRoute::Forward(NativeEventClass::PointerMotion));
    assert_eq!(device_event(NativeEventClass::PointerMotion, moved(0.0, 0.0), 0), None);
}

#[test]
fn nonzero_motion_enqueues_pointer_motion() {
    let route = route_event(EVENT_MOUSE_MOVED, 0);
    assert_eq!(route, EventRoute::Forward(NativeEventClass::PointerMotion));
    assert_eq!(
        device_event(NativeEventClass::PointerMotion, moved(3.5, -1.0), 0),
        Some(DeviceEventKind::PointerMotion)
    );
    assert_eq!(
        device_event(NativeEventClass::PointerMotion, moved(0.0, -1.0), 0),
        Some(DeviceEventKind::PointerMotion)
    );
}

#[test]
fn left_button_down_enqueues_pressed() {
    let route = route_event(EVENT_LEFT_MOUSE_DOWN, 0);
    assert_eq!(route, EventRoute::Forward(NativeEventClass::ButtonPressed));
    assert_eq!(
        device_event(NativeEventClass::ButtonPressed, false, 0),
        Some(DeviceEventKind::Button { button: 0, state: ElementState::Pressed })
    );
}

#[test]
fn button_release_enqueues_released() {
    assert_eq!(
        device_event(NativeEventClass::ButtonReleased, false, 4),
        Some(DeviceEventKind::Button { button: 4, state: ElementState::Released })
    );
    assert_eq!(device_event(NativeEventClass::NotApplicable, true, 4), None);
}

#[test]
fn event_types_are_classified() {
    for t in [
        EVENT_MOUSE_MOVED,
        EVENT_LEFT_MOUSE_DRAGGED,
        EVENT_RIGHT_MOUSE_DRAGGED,
        EVENT_OTHER_MOUSE_DRAGGED,
    ] {
        assert_eq!(classify_event_type(t), NativeEventClass::PointerMotion);
    }
    for t in [EVENT_LEFT_MOUSE_DOWN, EVENT_RIGHT_MOUSE_DOWN, EVENT_OTHER_MOUSE_DOWN] {
        assert_eq!(classify_event_type(t), NativeEventClass::ButtonPressed);
    }
    for t in [EVENT_LEFT_MOUSE_UP, EVENT_RIGHT_MOUSE_UP, EVENT_OTHER_MOUSE_UP] {
        assert_eq!(classify_event_type(t), NativeEventClass::ButtonReleased);
    }
    for t in [0, EVENT_KEY_UP, 10, 22, 28, usize::MAX] {
        assert_eq!(classify_event_type(t), NativeEventClass::NotApplicable);
    }
}
