//! How pointer events drive the Windows synthetic pointer devices and the
//! plain mouse device: flags, button changes and button toggles.

use vstd::prelude::*;
use crate::protocol::{Button, PointerEventType, PointerType};

verus! {

/// Pointer flags of an injected pen or touch frame.
#[derive(Debug, Clone, Copy, PartialEq, Eq, Structural)]
pub struct PointerFlags {
    pub in_range: bool,
    pub in_contact: bool,
    pub down: bool,
    pub update: bool,
    pub up: bool,
    pub canceled: bool,
    pub primary: bool,
}

pub open spec fn is_contact_event(t: PointerEventType) -> bool {
    t == PointerEventType::DOWN || t == PointerEventType::MOVE || t == PointerEventType::UP
        || t == PointerEventType::CANCEL
}

pub open spec fn spec_pointer_flags(t: PointerEventType, is_primary: bool) -> PointerFlags {
    PointerFlags {
        in_range: t == PointerEventType::DOWN || t == PointerEventType::MOVE || t
            == PointerEventType::CANCEL,
        in_contact: t == PointerEventType::DOWN || t == PointerEventType::MOVE,
        down: t == PointerEventType::DOWN,
        update: t == PointerEventType::MOVE || t == PointerEventType::CANCEL,
        up: t == PointerEventType::UP,
        canceled: t == PointerEventType::CANCEL,
        primary: is_primary,
    }
}

/// A press is in range, in contact and down; a move in range, in contact and
/// an update; a release up; a cancel in range, an update and canceled. The
/// primary pointer is flagged as such.
pub fn pointer_flags(t: PointerEventType, is_primary: bool) -> (f: PointerFlags)
    requires
        is_contact_event(t),
    ensures
        f == spec_pointer_flags(t, is_primary),
{
    let none = PointerFlags {
        in_range: false,
        in_contact: false,
        down: false,
        update: false,
        up: false,
        canceled: false,
        primary: is_primary,
    };
    match t {
        PointerEventType::DOWN => PointerFlags { in_range: true, in_contact: true, down: true, ..none },
        PointerEventType::MOVE => PointerFlags {
            in_range: true,
            in_contact: true,
            update: true,
            ..none
        },
        PointerEventType::UP => PointerFlags { up: true, ..none },
        _ => PointerFlags { in_range: true, update: true, canceled: true, ..none },
    }
}

/// Which button of an injected pointer frame changes.
#[derive(Debug, Clone, Copy, PartialEq, Eq, Structural)]
pub enum ButtonChange {
    NoChange,
    FirstButtonDown,
    SecondButtonDown,
    ThirdButtonDown,
}

pub open spec fn spec_button_change(buttons: Button) -> ButtonChange {
    if buttons.spec_bits() == 1 {
        ButtonChange::FirstButtonDown
    } else if buttons.spec_bits() == 2 {
        ButtonChange::SecondButtonDown
    } else if buttons.spec_bits() == 4 {
        ButtonChange::ThirdButtonDown
    } else {
        ButtonChange::NoChange
    }
}

/// Exactly the primary, secondary or auxiliary button pressed is the first,
/// second or third button down; any other set is no change.
pub fn button_change(buttons: Button) -> (c: ButtonChange)
    ensures
        c == spec_button_change(buttons),
{
    let b = buttons.bits();
    if b == 1 {
        ButtonChange::FirstButtonDown
    } else if b == 2 {
        ButtonChange::SecondButtonDown
    } else if b == 4 {
        ButtonChange::ThirdButtonDown
    } else {
        ButtonChange::NoChange
    }
}

/// Mouse flags of a synthetic Windows mouse event.
#[derive(Debug, Clone, Copy, PartialEq, Eq, Structural)]
pub struct MouseEventFlags {
    pub left_down: bool,
    pub right_down: bool,
    pub middle_down: bool,
    pub left_up: bool,
    pub right_up: bool,
    pub middle_up: bool,
}

/// What a mouse pointer event does on Windows.
#[derive(Debug, Clone, Copy, PartialEq, Eq, Structural)]
pub struct MouseAction {
    /// Move the cursor to the event's position first.
    pub move_cursor: bool,
    pub flags: MouseEventFlags,
}

pub open spec fn no_mouse_flags() -> MouseEventFlags {
    MouseEventFlags {
        left_down: false,
        right_down: false,
        middle_down: false,
        left_up: false,
        right_up: false,
        middle_up: false,
    }
}

pub open spec fn spec_mouse_action(t: PointerEventType, button: Button, buttons: Button) -> MouseAction {
    let none = no_mouse_flags();
    if t == PointerEventType::DOWN {
        MouseAction {
            move_cursor: false,
            flags: MouseEventFlags {
                left_down: buttons.spec_bits() == 1,
                right_down: buttons.spec_bits() == 2,
                middle_down: buttons.spec_bits() == 4,
                ..none
            },
        }
    } else if t == PointerEventType::MOVE {
        MouseAction { move_cursor: true, flags: none }
    } else if t == PointerEventType::UP {
        MouseAction {
            move_cursor: false,
            flags: MouseEventFlags {
                left_up: button.spec_bits() == 1,
                right_up: button.spec_bits() == 2,
                middle_up: button.spec_bits() == 4,
                ..none
            },
        }
    } else if t == PointerEventType::CANCEL {
        MouseAction { move_cursor: false, flags: MouseEventFlags { left_up: true, ..none } }
    } else {
        MouseAction { move_cursor: false, flags: none }
    }
}

/// A press goes down with the single button pressed (`buttons`), a release
/// goes up with the button released (`button`), a cancel releases the left
/// button and a move only moves the cursor.
pub fn mouse_action(t: PointerEventType, button: Button, buttons: Button) -> (a: MouseAction)
    ensures
        a == spec_mouse_action(t, button, buttons),
{
    let none = MouseEventFlags {
        left_down: false,
        right_down: false,
        middle_down: false,
        left_up: false,
        right_up: false,
        middle_up: false,
    };
    match t {
        PointerEventType::DOWN => {
            let b = buttons.bits();
            MouseAction {
                move_cursor: false,
                flags: MouseEventFlags {
                    left_down: b == 1,
                    right_down: b == 2,
                    middle_down: b == 4,
                    ..none
                },
            }
        },
        PointerEventType::MOVE => MouseAction { move_cursor: true, flags: none },
        PointerEventType::UP => {
            let b = button.bits();
            MouseAction {
                move_cursor: false,
                flags: MouseEventFlags { left_up: b == 1, right_up: b == 2, middle_up: b == 4, ..none },
            }
        },
        PointerEventType::CANCEL => MouseAction {
            move_cursor: false,
            flags: MouseEventFlags { left_up: true, ..none },
        },
        _ => MouseAction { move_cursor: false, flags: none },
    }
}

/// Which kinds of pointers the plain mouse device follows.
#[derive(Debug, Clone, Copy, PartialEq, Eq, Structural)]
pub struct MouseEnable {
    pub enable_mouse: bool,
    pub enable_stylus: bool,
    pub enable_touch: bool,
}

/// Buttons of the plain mouse device.
#[derive(Debug, Clone, Copy, PartialEq, Eq, Structural)]
pub enum MouseButton {
    Left,
    Middle,
    Right,
}

pub open spec fn follows(en: MouseEnable, t: PointerType) -> bool {
    match t {
        PointerType::Mouse | PointerType::Unknown => en.enable_mouse,
        PointerType::Pen => en.enable_stylus,
        PointerType::Touch => en.enable_touch,
    }
}

pub open spec fn spec_toggles(t: PointerEventType, button: Button) -> Seq<(MouseButton, bool)> {
    if t == PointerEventType::DOWN {
        if button.spec_bits() == 1 {
            seq![(MouseButton::Left, true)]
        } else if button.spec_bits() == 4 {
            seq![(MouseButton::Middle, true)]
        } else if button.spec_bits() == 2 {
            seq![(MouseButton::Right, true)]
        } else {
            Seq::empty()
        }
    } else if t == PointerEventType::UP {
        seq![(MouseButton::Left, false), (MouseButton::Middle, false), (MouseButton::Right, false)]
    } else {
        Seq::empty()
    }
}

/// What the plain mouse device does with a pointer event: nothing (`None`)
/// for a kind of pointer it does not follow or a pointer that is not the
/// primary one; otherwise it moves the cursor and then toggles the listed
/// buttons: a press presses the changed button, a release releases all three.
pub fn mouse_device_toggles(
    en: MouseEnable,
    pointer_type: PointerType,
    is_primary: bool,
    t: PointerEventType,
    button: Button,
) -> (r: Option<Vec<(MouseButton, bool)>>)
    ensures
        !follows(en, pointer_type) || !is_primary ==> r is None,
        follows(en, pointer_type) && is_primary ==> r is Some && r->0@ == spec_toggles(t, button),
{
    let enabled = match pointer_type {
        PointerType::Mouse | PointerType::Unknown => en.enable_mouse,
        PointerType::Pen => en.enable_stylus,
        PointerType::Touch => en.enable_touch,
    };
    if !enabled || !is_primary {
        return None;
    }
    let mut v: Vec<(MouseButton, bool)> = Vec::new();
    match t {
        PointerEventType::DOWN => {
            let b = button.bits();
            if b == 1 {
                v.push((MouseButton::Left, true));
            } else if b == 4 {
                v.push((MouseButton::Middle, true));
            } else if b == 2 {
                v.push((MouseButton::Right, true));
            }
        },
        PointerEventType::UP => {
            v.push((MouseButton::Left, false));
            v.push((MouseButton::Middle, false));
            v.push((MouseButton::Right, false));
        },
        _ => {},
    }
    assert(v@ =~= spec_toggles(t, button));
    Some(v)
}

} // verus!
