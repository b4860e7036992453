use weylus::macos_tablet::{
    populate_tablet_point_event, populate_tablet_proximity_event, tablet_event_kind,
    MacEventKind, MacosPenEventType, PointField, ProximityField, MOCK_DEVICE_ID,
};
use weylus::pointer_device::{
    button_change, mouse_action, mouse_device_toggles, pointer_flags, ButtonChange, MouseButton,
    MouseEnable,
};
use weylus::protocol::{Button, PointerEventType, PointerType};

#[test]
fn proximity_fields_describe_the_pen() {
    let v = populate_tablet_proximity_event(true, false);
    assert_eq!(v.len(), 11);
    assert_eq!(v[0], (ProximityField::EnterProximity, 1));
    assert_eq!(v[1], (ProximityField::PointerType, 1));
    assert_eq!(v[4], (ProximityField::DeviceId, MOCK_DEVICE_ID));
    assert_eq!(v[9], (ProximityField::VendorUniqueId, 0xdeadbeef));
    assert_eq!(v[10], (ProximityField::CapabilityMask, 0x05C7));
    let v = populate_tablet_proximity_event(false, true);
    assert_eq!(v[0], (ProximityField::EnterProximity, 0));
    assert_eq!(v[1], (ProximityField::PointerType, 3));
}

#[test]
fn point_fields() {
    let v = populate_tablet_point_event(1, 10, 20);
    assert_eq!(
        v,
        vec![
            (PointField::PointX, 10),
            (PointField::PointY, 20),
            (PointField::Buttons, 1),
            (PointField::DeviceId, 0x81),
            (PointField::PointZ, 0),
        ]
    );
}

#[test]
fn macos_event_kinds() {
    assert_eq!(tablet_event_kind(MacosPenEventType::Enter, 0, 0), MacEventKind::TabletProximity);
    assert_eq!(tablet_event_kind(MacosPenEventType::Leave, 1, 1), MacEventKind::TabletProximity);
    assert_eq!(tablet_event_kind(MacosPenEventType::Down, 1, 1), MacEventKind::LeftMouseDown);
    assert_eq!(tablet_event_kind(MacosPenEventType::Down, 2, 2), MacEventKind::RightMouseDown);
    assert_eq!(tablet_event_kind(MacosPenEventType::Down, 32, 32), MacEventKind::OtherMouseDown);
    assert_eq!(tablet_event_kind(MacosPenEventType::Up, 1, 0), MacEventKind::LeftMouseUp);
    assert_eq!(tablet_event_kind(MacosPenEventType::Up, 4, 0), MacEventKind::OtherMouseUp);
    assert_eq!(tablet_event_kind(MacosPenEventType::Move, 0, 0), MacEventKind::MouseMoved);
    assert_eq!(tablet_event_kind(MacosPenEventType::Move, 0, 1), MacEventKind::LeftMouseDragged);
    assert_eq!(tablet_event_kind(MacosPenEventType::Move, 0, 2), MacEventKind::RightMouseDragged);
    assert_eq!(tablet_event_kind(MacosPenEventType::Move, 0, 3), MacEventKind::OtherMouseDragged);
}

#[test]
fn windows_pointer_flags() {
    let f = pointer_flags(PointerEventType::DOWN, true);
    assert!(f.in_range && f.in_contact && f.down && f.primary && !f.update && !f.up);
    let f = pointer_flags(PointerEventType::MOVE, false);
    assert!(f.in_range && f.in_contact && f.update && !f.primary && !f.down);
    let f = pointer_flags(PointerEventType::UP, false);
    assert!(f.up && !f.in_range && !f.in_contact);
    let f = pointer_flags(PointerEventType::CANCEL, false);
    assert!(f.in_range && f.update && f.canceled && !f.in_contact);
}

#[test]
fn windows_button_changes() {
    assert_eq!(button_change(Button::primary()), ButtonChange::FirstButtonDown);
    assert_eq!(button_change(Button::secondary()), ButtonChange::SecondButtonDown);
    assert_eq!(button_change(Button::auxilary()), ButtonChange::ThirdButtonDown);
    assert_eq!(button_change(Button::none()), ButtonChange::NoChange);
    assert_eq!(button_change(Button::from_bits(3).unwrap()), ButtonChange::NoChange);
}

#[test]
fn windows_mouse_actions() {
    let a = mouse_action(PointerEventType::DOWN, Button::none(), Button::secondary());
    assert!(a.flags.right_down && !a.flags.left_down && !a.move_cursor);
    let a = mouse_action(PointerEventType::UP, Button::auxilary(), Button::none());
    assert!(a.flags.middle_up && !a.flags.left_up);
    let a = mouse_action(PointerEventType::MOVE, Button::none(), Button::none());
    assert!(a.move_cursor);
    let a = mouse_action(PointerEventType::CANCEL, Button::none(), Button::none());
    assert!(a.flags.left_up && !a.move_cursor);
}

#[test]
fn plain_mouse_follows_enabled_primary_pointers() {
    let en = MouseEnable {
        enable_mouse: true,
        enable_stylus: false,
        enable_touch: true,
    };
    assert_eq!(
        mouse_device_toggles(en, PointerType::Mouse, true, PointerEventType::DOWN, Button::auxilary()),
        Some(vec![(MouseButton::Middle, true)])
    );
    assert_eq!(
        mouse_device_toggles(en, PointerType::Touch, true, PointerEventType::UP, Button::primary()),
        Some(vec![
            (MouseButton::Left, false),
            (MouseButton::Middle, false),
            (MouseButton::Right, false)
        ])
    );
    assert_eq!(
        mouse_device_toggles(en, PointerType::Touch, true, PointerEventType::MOVE, Button::none()),
        Some(vec![])
    );
    assert_eq!(
        mouse_device_toggles(en, PointerType::Pen, true, PointerEventType::DOWN, Button::primary()),
        None
    );
    assert_eq!(
        mouse_device_toggles(en, PointerType::Mouse, false, PointerEventType::DOWN, Button::primary()),
        None
    );
}
