use weylus::protocol::{button_from, location_from, Button, KeyboardLocation, ProtocolError};

#[test]
fn keyboard_locations() {
    assert_eq!(location_from(0), Ok(KeyboardLocation::STANDARD));
    assert_eq!(location_from(1), Ok(KeyboardLocation::LEFT));
    assert_eq!(location_from(2), Ok(KeyboardLocation::RIGHT));
    assert_eq!(location_from(3), Ok(KeyboardLocation::NUMPAD));
    assert_eq!(location_from(4), Err(ProtocolError::KeyboardLocation));
}

#[test]
fn buttons() {
    assert_eq!(button_from(0), Ok(Button::none()));
    assert_eq!(button_from(0b100001).map(|b| b.bits()), Ok(0b100001));
    assert_eq!(button_from(0b0100_0000), Err(ProtocolError::ButtonBits));
    let both = Button::from_bits(3).unwrap();
    assert!(both.contains(Button::primary()));
    assert!(both.contains(Button::secondary()));
    assert!(!both.contains(Button::eraser()));
    for b in [
        Button::none(),
        Button::primary(),
        Button::secondary(),
        Button::auxilary(),
        Button::fourth(),
        Button::fifth(),
        Button::eraser(),
    ] {
        assert_eq!(Button::from_bits(b.bits()), Some(b));
    }
}
