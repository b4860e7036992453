use weylus::keys::{map_key, KEY_1, KEY_9, KEY_A, KEY_E, KEY_ESC, KEY_KP1, KEY_LEFTCTRL, KEY_LEFTSHIFT, KEY_U, KEY_UNKNOWN};
use weylus::protocol::{
    Button, KeyboardEvent, KeyboardEventType, KeyboardLocation, PointerEventType, PointerType,
    WheelEvent,
};
use weylus::uinput::{
    device_name, devices_in_creation_order, direction, keyboard_event, wheel_event, Device, PointerInput, UInputEvent, UInputState,
    EC_ABSOLUTE_X, EC_ABS_MT_SLOT, EC_ABS_MT_TRACKING_ID, EC_KEY_MOUSE_LEFT, EC_KEY_TOOL_FINGER,
    EC_KEY_TOOL_PEN, EC_KEY_TOOL_RUBBER, EC_KEY_TOUCH, EC_MSC_TIMESTAMP, EC_REL_HWHEEL,
    EC_REL_HWHEEL_HI_RES, EC_REL_WHEEL, EC_REL_WHEEL_HI_RES, EC_SYNC_REPORT, ET_ABSOLUTE, ET_KEY,
    ET_MSC, ET_RELATIVE, ET_SYNC, MAX_SCREEN_MAPPING_TRIES,
};

fn ev(device: Device, typ: i32, code: i32, value: i32) -> UInputEvent {
    UInputEvent {
        device,
        typ,
        code,
        value,
    }
}

fn pointer(event_type: PointerEventType, pointer_type: PointerType, pointer_id: i64) -> PointerInput {
    PointerInput {
        event_type,
        pointer_type,
        pointer_id,
        timestamp: 1000,
        button: Button::none(),
        buttons: Button::none(),
        x: 100,
        y: 200,
        pressure: 300,
        width: 4,
        height: 5,
        height_ge_width: true,
        tilt_x: 0,
        tilt_y: 0,
    }
}

#[test]
fn wheel_sends_one_notch_and_high_resolution_steps() {
    let v = wheel_event(&WheelEvent {
        dx: 7,
        dy: -120,
        timestamp: 0x8000_0005,
    });
    let d = Device::Mouse;
    assert_eq!(
        v,
        vec![
            ev(d, ET_RELATIVE, EC_REL_WHEEL, -1),
            ev(d, ET_RELATIVE, EC_REL_HWHEEL, -1),
            ev(d, ET_RELATIVE, EC_REL_WHEEL_HI_RES, 7),
            ev(d, ET_RELATIVE, EC_REL_HWHEEL_HI_RES, 7),
            ev(d, ET_MSC, EC_MSC_TIMESTAMP, 5),
            ev(d, ET_SYNC, EC_SYNC_REPORT, 0),
        ]
    );
    assert_eq!(direction(0), 0);
    assert_eq!(direction(9), 1);
}

#[test]
fn touch_down_takes_a_slot_and_up_frees_it() {
    let mut s = UInputState::new();
    let down = s.pointer_event(&pointer(PointerEventType::DOWN, PointerType::Touch, 17));
    assert_eq!(down.map_device, Some(Device::Touch));
    let t = Device::Touch;
    assert_eq!(down.events[0], ev(t, ET_ABSOLUTE, EC_ABS_MT_SLOT, 0));
    assert_eq!(down.events[1], ev(t, ET_ABSOLUTE, EC_ABS_MT_TRACKING_ID, 0));
    assert_eq!(down.events[2], ev(t, ET_KEY, EC_KEY_TOUCH, 1));
    assert_eq!(down.events[4], ev(t, ET_KEY, EC_KEY_TOOL_FINGER, 1));
    assert_eq!(down.events.len(), 15);
    assert_eq!(s.find_slot(17), Some(0));

    let second = s.pointer_event(&pointer(PointerEventType::DOWN, PointerType::Touch, 18));
    assert_eq!(second.events[0], ev(t, ET_ABSOLUTE, EC_ABS_MT_SLOT, 1));
    assert_eq!(s.find_slot(18), Some(1));

    let up = s.pointer_event(&pointer(PointerEventType::UP, PointerType::Touch, 17));
    assert_eq!(up.events[0], ev(t, ET_ABSOLUTE, EC_ABS_MT_SLOT, 0));
    assert_eq!(up.events[1], ev(t, ET_ABSOLUTE, EC_ABS_MT_TRACKING_ID, -1));
    assert_eq!(s.find_slot(17), None);
    assert_eq!(s.find_slot(18), Some(1));

    let stray = s.pointer_event(&pointer(PointerEventType::UP, PointerType::Touch, 99));
    assert!(stray.events.is_empty());
}

#[test]
fn sixth_touch_finds_no_slot() {
    let mut s = UInputState::new();
    for id in 0..5 {
        s.pointer_event(&pointer(PointerEventType::DOWN, PointerType::Touch, id));
    }
    let r = s.pointer_event(&pointer(PointerEventType::DOWN, PointerType::Touch, 5));
    assert!(r.events.is_empty());
    assert_eq!(s.find_slot(5), None);
}

#[test]
fn pen_selects_pen_tool_then_releases_everything() {
    let mut s = UInputState::new();
    let d = Device::Stylus;
    let down = s.pointer_event(&pointer(PointerEventType::DOWN, PointerType::Pen, 1));
    assert_eq!(down.map_device, Some(Device::Stylus));
    assert_eq!(down.events[0], ev(d, ET_KEY, EC_KEY_TOUCH, 1));
    assert_eq!(down.events[1], ev(d, ET_KEY, EC_KEY_TOOL_PEN, 1));
    assert_eq!(down.events[2], ev(d, ET_KEY, EC_KEY_TOOL_RUBBER, 0));
    assert_eq!(down.events[3], ev(d, ET_ABSOLUTE, EC_ABSOLUTE_X, 100));
    let moved = s.pointer_event(&pointer(PointerEventType::MOVE, PointerType::Pen, 1));
    assert_eq!(moved.events[0], ev(d, ET_ABSOLUTE, EC_ABSOLUTE_X, 100));
    let up = s.pointer_event(&pointer(PointerEventType::UP, PointerType::Pen, 1));
    assert_eq!(up.events[0], ev(d, ET_KEY, EC_KEY_TOUCH, 0));
    assert_eq!(up.events[1], ev(d, ET_KEY, EC_KEY_TOOL_PEN, 0));
    assert_eq!(up.events.len(), 6);
}

#[test]
fn eraser_button_switches_to_rubber() {
    let mut s = UInputState::new();
    let mut p = pointer(PointerEventType::DOWN, PointerType::Pen, 1);
    p.button = Button::eraser();
    p.buttons = Button::eraser();
    let r = s.pointer_event(&p);
    let d = Device::Stylus;
    assert_eq!(r.events[1], ev(d, ET_KEY, EC_KEY_TOOL_PEN, 0));
    assert_eq!(r.events[2], ev(d, ET_KEY, EC_KEY_TOOL_RUBBER, 1));
}

#[test]
fn mouse_press_and_release() {
    let mut s = UInputState::new();
    let mut p = pointer(PointerEventType::DOWN, PointerType::Mouse, 1);
    p.button = Button::primary();
    let r = s.pointer_event(&p);
    let d = Device::Mouse;
    assert_eq!(r.map_device, Some(Device::Mouse));
    assert_eq!(r.events[0], ev(d, ET_KEY, EC_KEY_MOUSE_LEFT, 1));
    assert_eq!(r.events.len(), 5);
    p.event_type = PointerEventType::UP;
    let r = s.pointer_event(&p);
    assert_eq!(r.events[0], ev(d, ET_KEY, EC_KEY_MOUSE_LEFT, 0));
    assert_eq!(r.events.len(), 3);
}

#[test]
fn screen_mapping_is_tried_a_bounded_number_of_times() {
    let mut s = UInputState::new();
    for _ in 0..MAX_SCREEN_MAPPING_TRIES {
        let r = s.pointer_event(&pointer(PointerEventType::MOVE, PointerType::Touch, 1));
        assert_eq!(r.map_device, Some(Device::Touch));
    }
    let r = s.pointer_event(&pointer(PointerEventType::MOVE, PointerType::Touch, 1));
    assert_eq!(r.map_device, None);
    assert_eq!(s.touch_mapping_tries(), MAX_SCREEN_MAPPING_TRIES);
}

fn key(event_type: KeyboardEventType, code: &str, key: &str, location: KeyboardLocation) -> KeyboardEvent {
    KeyboardEvent {
        event_type,
        code: code.to_string(),
        key: key.to_string(),
        location,
        alt: false,
        ctrl: false,
        shift: false,
        meta: false,
    }
}

#[test]
fn keys_map_by_code_and_location() {
    assert_eq!(map_key("Escape", KeyboardLocation::LEFT), KEY_ESC);
    assert_eq!(map_key("KeyA", KeyboardLocation::STANDARD), KEY_A);
    assert_eq!(map_key("Digit1", KeyboardLocation::STANDARD), KEY_1);
    assert_eq!(map_key("Digit1", KeyboardLocation::NUMPAD), KEY_KP1);
    assert_eq!(map_key("NoSuchKey", KeyboardLocation::STANDARD), KEY_UNKNOWN);
}

#[test]
fn known_key_with_modifier() {
    let mut e = key(KeyboardEventType::DOWN, "KeyA", "a", KeyboardLocation::STANDARD);
    e.shift = true;
    let k = Device::Keyboard;
    assert_eq!(
        keyboard_event(&e),
        vec![
            ev(k, ET_KEY, KEY_LEFTSHIFT, 1),
            ev(k, ET_SYNC, EC_SYNC_REPORT, 0),
            ev(k, ET_KEY, KEY_A, 1),
            ev(k, ET_SYNC, EC_SYNC_REPORT, 0),
        ]
    );
    let r = keyboard_event(&key(KeyboardEventType::REPEAT, "KeyA", "a", KeyboardLocation::STANDARD));
    assert_eq!(r[0], ev(k, ET_KEY, KEY_A, 2));
}

#[test]
fn unknown_key_is_typed_as_unicode() {
    let k = Device::Keyboard;
    let v = keyboard_event(&key(KeyboardEventType::DOWN, "", "é", KeyboardLocation::STANDARD));
    let sync = ev(k, ET_SYNC, EC_SYNC_REPORT, 0);
    assert_eq!(
        v,
        vec![
            ev(k, ET_KEY, KEY_LEFTCTRL, 1),
            ev(k, ET_KEY, KEY_LEFTSHIFT, 1),
            ev(k, ET_KEY, KEY_U, 1),
            sync,
            ev(k, ET_KEY, KEY_E, 1),
            sync,
            ev(k, ET_KEY, KEY_E, 0),
            sync,
            ev(k, ET_KEY, KEY_9, 1),
            sync,
            ev(k, ET_KEY, KEY_9, 0),
            sync,
            ev(k, ET_KEY, KEY_LEFTCTRL, 0),
            ev(k, ET_KEY, KEY_LEFTSHIFT, 0),
            ev(k, ET_KEY, KEY_U, 0),
            sync,
        ]
    );
    assert!(keyboard_event(&key(KeyboardEventType::UP, "", "é", KeyboardLocation::STANDARD)).is_empty());
    assert!(keyboard_event(&key(KeyboardEventType::DOWN, "", "", KeyboardLocation::STANDARD)).is_empty());
}

#[test]
fn device_names_carry_the_client_name() {
    assert_eq!(device_name(Device::Stylus, None), "Weylus Stylus");
    assert_eq!(device_name(Device::Touch, Some("Tab S7")), "Weylus Touch - Tab S7");
    assert_eq!(
        devices_in_creation_order(),
        vec![Device::Stylus, Device::Mouse, Device::Touch, Device::Keyboard]
    );
}

#[test]
fn location_only_matters_on_the_numpad() {
    for loc in [KeyboardLocation::STANDARD, KeyboardLocation::LEFT, KeyboardLocation::RIGHT, KeyboardLocation::NUMPAD] {
        assert_eq!(map_key("KeyA", loc), KEY_A);
        assert_eq!(map_key("Escape", loc), KEY_ESC);
    }
    for loc in [KeyboardLocation::STANDARD, KeyboardLocation::LEFT, KeyboardLocation::RIGHT] {
        assert_eq!(map_key("Digit1", loc), KEY_1);
    }
}

#[test]
fn each_device_counts_its_own_mapping_attempts() {
    let mut s = UInputState::new();
    for _ in 0..MAX_SCREEN_MAPPING_TRIES {
        s.pointer_event(&pointer(PointerEventType::MOVE, PointerType::Touch, 1));
    }
    assert_eq!(s.touch_mapping_tries(), MAX_SCREEN_MAPPING_TRIES);
    assert_eq!(s.stylus_mapping_tries(), 0);
    let r = s.pointer_event(&pointer(PointerEventType::MOVE, PointerType::Pen, 2));
    assert_eq!(r.map_device, Some(Device::Stylus));
    assert_eq!(s.stylus_mapping_tries(), 1);
    assert_eq!(s.touch_mapping_tries(), MAX_SCREEN_MAPPING_TRIES);
    for _ in 1..MAX_SCREEN_MAPPING_TRIES {
        let r = s.pointer_event(&pointer(PointerEventType::MOVE, PointerType::Pen, 2));
        assert_eq!(r.map_device, Some(Device::Stylus));
    }
    let r = s.pointer_event(&pointer(PointerEventType::MOVE, PointerType::Pen, 2));
    assert_eq!(r.map_device, None);
    let r = s.pointer_event(&pointer(PointerEventType::MOVE, PointerType::Mouse, 3));
    assert_eq!(r.map_device, Some(Device::Mouse));
    assert_eq!(s.mouse_mapping_tries(), 1);
    assert_eq!(s.stylus_mapping_tries(), MAX_SCREEN_MAPPING_TRIES);
}

#[test]
fn no_input_is_sent_when_the_window_is_not_ready() {
    let mut s = UInputState::new();
    let r = s.pointer_event_if_ready(false, &pointer(PointerEventType::DOWN, PointerType::Touch, 1));
    assert_eq!(r.map_device, None);
    assert!(r.events.is_empty());
    assert_eq!(s.touch_mapping_tries(), 0);
    let r = s.pointer_event_if_ready(true, &pointer(PointerEventType::DOWN, PointerType::Touch, 1));
    assert_eq!(r.map_device, Some(Device::Touch));
    assert!(!r.events.is_empty());
    assert_eq!(s.touch_mapping_tries(), 1);
}
