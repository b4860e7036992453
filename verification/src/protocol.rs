//! Messages exchanged with the browser client, as plain values.

use vstd::prelude::*;

verus! {

/// Kind of pointing device a browser pointer event comes from.
#[derive(Debug, Clone, Copy, PartialEq, Eq, Structural)]
pub enum PointerType {
    Unknown,
    Mouse,
    Pen,
    Touch,
}

/// Browser pointer event type.
#[derive(Debug, Clone, Copy, PartialEq, Eq, Structural)]
#[allow(non_camel_case_types, clippy::upper_case_acronyms)]
pub enum PointerEventType {
    DOWN,
    UP,
    CANCEL,
    MOVE,
    OVER,
    ENTER,
    LEAVE,
    OUT,
}

/// Browser keyboard event type.
#[derive(Debug, Clone, Copy, PartialEq, Eq, Structural)]
#[allow(clippy::upper_case_acronyms)]
pub enum KeyboardEventType {
    DOWN,
    UP,
    REPEAT,
}

/// Location of a key on the keyboard.
#[derive(Debug, Clone, Copy, PartialEq, Eq, Structural)]
#[allow(clippy::upper_case_acronyms)]
pub enum KeyboardLocation {
    STANDARD,
    LEFT,
    RIGHT,
    NUMPAD,
}

/// A wire value that does not decode to a protocol value.
#[derive(Debug, Clone, Copy, PartialEq, Eq, Structural)]
pub enum ProtocolError {
    /// A keyboard location code other than 0 to 3.
    KeyboardLocation,
    /// Button bits with a bit set that names no button.
    ButtonBits,
}

/// The location a wire code names: 0 standard, 1 left, 2 right, 3 numpad.
pub open spec fn spec_location(code: u8) -> Option<KeyboardLocation> {
    if code == 0 {
        Some(KeyboardLocation::STANDARD)
    } else if code == 1 {
        Some(KeyboardLocation::LEFT)
    } else if code == 2 {
        Some(KeyboardLocation::RIGHT)
    } else if code == 3 {
        Some(KeyboardLocation::NUMPAD)
    } else {
        None
    }
}

/// Decodes a keyboard location code; codes above 3 are refused.
pub fn location_from(code: u8) -> (r: Result<KeyboardLocation, ProtocolError>)
    ensures
        spec_location(code) matches Some(l) ==> r == Ok::<KeyboardLocation, ProtocolError>(l),
        spec_location(code) is None ==> r == Err::<KeyboardLocation, ProtocolError>(
            ProtocolError::KeyboardLocation,
        ),
{
    match code {
        0 => Ok(KeyboardLocation::STANDARD),
        1 => Ok(KeyboardLocation::LEFT),
        2 => Ok(KeyboardLocation::RIGHT),
        3 => Ok(KeyboardLocation::NUMPAD),
        _ => Err(ProtocolError::KeyboardLocation),
    }
}

/// A set of mouse/pen buttons, one bit per button.
#[derive(Debug, Clone, Copy, PartialEq, Eq, Structural)]
pub struct Button {
    bits: u8,
}

/// Bits that name a button.
pub const BUTTON_ALL_BITS: u8 = 0b0011_1111;

impl Button {
    pub fn none() -> (b: Button)
        ensures
            b.spec_bits() == 0b0000_0000,
    {
        Button { bits: 0b0000_0000 }
    }

    pub fn primary() -> (b: Button)
        ensures
            b.spec_bits() == 0b0000_0001,
    {
        Button { bits: 0b0000_0001 }
    }

    pub fn secondary() -> (b: Button)
        ensures
            b.spec_bits() == 0b0000_0010,
    {
        Button { bits: 0b0000_0010 }
    }

    pub fn auxilary() -> (b: Button)
        ensures
            b.spec_bits() == 0b0000_0100,
    {
        Button { bits: 0b0000_0100 }
    }

    pub fn fourth() -> (b: Button)
        ensures
            b.spec_bits() == 0b0000_1000,
    {
        Button { bits: 0b0000_1000 }
    }

    pub fn fifth() -> (b: Button)
        ensures
            b.spec_bits() == 0b0001_0000,
    {
        Button { bits: 0b0001_0000 }
    }

    pub fn eraser() -> (b: Button)
        ensures
            b.spec_bits() == 0b0010_0000,
    {
        Button { bits: 0b0010_0000 }
    }

    pub closed spec fn spec_bits(self) -> u8 {
        self.bits
    }

    /// The raw bits.
    pub fn bits(&self) -> (b: u8)
        ensures
            b == self.spec_bits(),
    {
        self.bits
    }

    /// The set with exactly the given bits, `None` if a bit names no button.
    pub closed spec fn spec_from_bits(bits: u8) -> Option<Button> {
        if bits & !BUTTON_ALL_BITS == 0 {
            Some(Button { bits })
        } else {
            None
        }
    }

    /// The set with exactly the given bits, `None` if a bit names no button.
    pub fn from_bits(bits: u8) -> (r: Option<Button>)
        ensures
            r == Button::spec_from_bits(bits),
            r is Some <==> bits & !BUTTON_ALL_BITS == 0,
            r matches Some(b) ==> b.spec_bits() == bits,
    {
        if bits & !BUTTON_ALL_BITS == 0 {
            Some(Button { bits })
        } else {
            None
        }
    }

    /// Whether every button of `other` is in `self`.
    pub fn contains(&self, other: Button) -> (r: bool)
        ensures
            r == (self.spec_bits() & other.spec_bits() == other.spec_bits()),
    {
        self.bits & other.bits == other.bits
    }
}

/// Decoding the bits of a set of buttons gives the same set back, and
/// encoding a decoded set gives the bits back.
pub proof fn button_bits_round_trip(b: Button, bits: u8)
    ensures
        b.spec_bits() & !BUTTON_ALL_BITS == 0 ==> Button::spec_from_bits(b.spec_bits()) == Some(b),
        Button::spec_from_bits(bits) matches Some(d) ==> d.spec_bits() == bits,
{
}

/// Decodes button bits; bits that name no button are refused.
pub fn button_from(bits: u8) -> (r: Result<Button, ProtocolError>)
    ensures
        r is Ok <==> bits & !BUTTON_ALL_BITS == 0,
        r matches Ok(b) ==> b.spec_bits() == bits,
        r matches Err(e) ==> e == ProtocolError::ButtonBits,
{
    match Button::from_bits(bits) {
        Some(b) => Ok(b),
        None => Err(ProtocolError::ButtonBits),
    }
}

/// A keyboard event from the browser.
#[derive(Debug)]
pub struct KeyboardEvent {
    pub event_type: KeyboardEventType,
    pub code: String,
    pub key: String,
    pub location: KeyboardLocation,
    pub alt: bool,
    pub ctrl: bool,
    pub shift: bool,
    pub meta: bool,
}

/// A wheel event from the browser.
#[derive(Debug, Clone, Copy, PartialEq, Eq, Structural)]
pub struct WheelEvent {
    pub dx: i32,
    pub dy: i32,
    pub timestamp: u64,
}

} // verus!
