//! Tablet events for macOS: which mouse event a pen event becomes and the
//! proximity fields that describe the (single, made-up) tablet pen.

use vstd::prelude::*;

verus! {

/// Pen events as macOS distinguishes them.
#[derive(Debug, Clone, Copy, PartialEq, Eq, Structural)]
pub enum MacosPenEventType {
    Move,
    Down,
    Up,
    /// Proximity enter.
    Enter,
    /// Proximity leave.
    Leave,
}

/// Mouse event subtype of a tablet point event.
pub const NX_SUBTYPE_TABLET_POINT: i64 = 1;
/// Mouse event subtype of a tablet proximity event.
pub const NX_SUBTYPE_TABLET_PROXIMITY: i64 = 2;

pub const NX_TABLET_POINTER_PEN: i64 = 1;
pub const NX_TABLET_POINTER_ERASER: i64 = 3;

pub const NX_TABLET_CAPABILITY_DEVICEIDMASK: i64 = 0x0001;
pub const NX_TABLET_CAPABILITY_ABSXMASK: i64 = 0x0002;
pub const NX_TABLET_CAPABILITY_ABSYMASK: i64 = 0x0004;
pub const NX_TABLET_CAPABILITY_BUTTONSMASK: i64 = 0x0040;
pub const NX_TABLET_CAPABILITY_TILTXMASK: i64 = 0x0080;
pub const NX_TABLET_CAPABILITY_TILTYMASK: i64 = 0x0100;
pub const NX_TABLET_CAPABILITY_PRESSUREMASK: i64 = 0x0400;

/// Vendor-unique id of the pen.
pub const MOCK_VENDOR_UNIQUE_ID: i64 = 0xdeadbeef;
/// Device id of the one tablet.
pub const MOCK_DEVICE_ID: i64 = 0x81;
/// Made-up vendor id.
pub const MOCK_VENDOR_ID: i64 = 0xbeef;
/// Vendor pointer type of a basic stylus.
pub const BASIC_STYLUS: i64 = 0x0802;

/// Integer fields of a tablet proximity event.
#[derive(Debug, Clone, Copy, PartialEq, Eq, Structural)]
pub enum ProximityField {
    EnterProximity,
    PointerType,
    VendorId,
    TabletId,
    DeviceId,
    PointerId,
    SystemTabletId,
    VendorPointerType,
    VendorPointerSerialNumber,
    VendorUniqueId,
    CapabilityMask,
}

/// Which fields of a point event hold valid data: device id, absolute x and
/// y, buttons, tilt in x and y, and pressure.
pub open spec fn capability_mask() -> i64 {
    NX_TABLET_CAPABILITY_DEVICEIDMASK | NX_TABLET_CAPABILITY_ABSXMASK
        | NX_TABLET_CAPABILITY_ABSYMASK | NX_TABLET_CAPABILITY_BUTTONSMASK
        | NX_TABLET_CAPABILITY_TILTXMASK | NX_TABLET_CAPABILITY_TILTYMASK
        | NX_TABLET_CAPABILITY_PRESSUREMASK
}

/// The proximity fields, in the order they are set.
pub open spec fn proximity_fields(enter_tablet: bool, is_enter_eraser: bool) -> Seq<
    (ProximityField, i64),
> {
    seq![
        (ProximityField::EnterProximity, if enter_tablet { 1i64 } else { 0i64 }),
        (ProximityField::PointerType, if is_enter_eraser {
            NX_TABLET_POINTER_ERASER
        } else {
            NX_TABLET_POINTER_PEN
        }),
        (ProximityField::VendorId, MOCK_VENDOR_ID),
        (ProximityField::TabletId, 1i64),
        (ProximityField::DeviceId, MOCK_DEVICE_ID),
        (ProximityField::PointerId, 0i64),
        (ProximityField::SystemTabletId, 0i64),
        (ProximityField::VendorPointerType, BASIC_STYLUS),
        (ProximityField::VendorPointerSerialNumber, 1i64),
        (ProximityField::VendorUniqueId, MOCK_VENDOR_UNIQUE_ID),
        (ProximityField::CapabilityMask, capability_mask()),
    ]
}

/// The integer fields to set on a tablet proximity event: whether the pen
/// enters or leaves, pen or eraser, and the fixed description of the tablet.
pub fn populate_tablet_proximity_event(enter_tablet: bool, is_enter_eraser: bool) -> (v: Vec<
    (ProximityField, i64),
>)
    ensures
        v@ == proximity_fields(enter_tablet, is_enter_eraser),
{
    let capability_mask = NX_TABLET_CAPABILITY_DEVICEIDMASK | NX_TABLET_CAPABILITY_ABSXMASK
        | NX_TABLET_CAPABILITY_ABSYMASK | NX_TABLET_CAPABILITY_BUTTONSMASK
        | NX_TABLET_CAPABILITY_TILTXMASK | NX_TABLET_CAPABILITY_TILTYMASK
        | NX_TABLET_CAPABILITY_PRESSUREMASK;
    let v = vec![
        (ProximityField::EnterProximity, if enter_tablet { 1i64 } else { 0i64 }),
        (ProximityField::PointerType, if is_enter_eraser {
            NX_TABLET_POINTER_ERASER
        } else {
            NX_TABLET_POINTER_PEN
        }),
        (ProximityField::VendorId, MOCK_VENDOR_ID),
        (ProximityField::TabletId, 1i64),
        (ProximityField::DeviceId, MOCK_DEVICE_ID),
        (ProximityField::PointerId, 0i64),
        (ProximityField::SystemTabletId, 0i64),
        (ProximityField::VendorPointerType, BASIC_STYLUS),
        (ProximityField::VendorPointerSerialNumber, 1i64),
        (ProximityField::VendorUniqueId, MOCK_VENDOR_UNIQUE_ID),
        (ProximityField::CapabilityMask, capability_mask),
    ];
    assert(v@ =~= proximity_fields(enter_tablet, is_enter_eraser));
    v
}

/// The capability mask has the value of the seven capabilities it names.
pub proof fn capability_mask_value()
    ensures
        capability_mask() == 0x05C7,
{
    assert(capability_mask() == 0x05C7) by (bit_vector);
}

/// Integer fields of a tablet point event.
#[derive(Debug, Clone, Copy, PartialEq, Eq, Structural)]
pub enum PointField {
    PointX,
    PointY,
    Buttons,
    DeviceId,
    PointZ,
}

/// The integer fields to set on a tablet point event at `(x, y)`.
pub fn populate_tablet_point_event(buttons: i64, x: i64, y: i64) -> (v: Vec<(PointField, i64)>)
    ensures
        v@ == seq![
            (PointField::PointX, x),
            (PointField::PointY, y),
            (PointField::Buttons, buttons),
            (PointField::DeviceId, MOCK_DEVICE_ID),
            (PointField::PointZ, 0i64),
        ],
{
    let v = vec![
        (PointField::PointX, x),
        (PointField::PointY, y),
        (PointField::Buttons, buttons),
        (PointField::DeviceId, MOCK_DEVICE_ID),
        (PointField::PointZ, 0i64),
    ];
    assert(v@ =~= seq![
        (PointField::PointX, x),
        (PointField::PointY, y),
        (PointField::Buttons, buttons),
        (PointField::DeviceId, MOCK_DEVICE_ID),
        (PointField::PointZ, 0i64),
    ]);
    v
}

/// The macOS event a pen event is posted as.
#[derive(Debug, Clone, Copy, PartialEq, Eq, Structural)]
pub enum MacEventKind {
    TabletProximity,
    LeftMouseDown,
    RightMouseDown,
    OtherMouseDown,
    LeftMouseUp,
    RightMouseUp,
    OtherMouseUp,
    MouseMoved,
    LeftMouseDragged,
    RightMouseDragged,
    OtherMouseDragged,
}

pub open spec fn spec_event_kind(pe_type: MacosPenEventType, button: i64, buttons: i64) -> MacEventKind {
    match pe_type {
        MacosPenEventType::Enter | MacosPenEventType::Leave => MacEventKind::TabletProximity,
        MacosPenEventType::Down => if button == 1 {
            MacEventKind::LeftMouseDown
        } else if button == 2 {
            MacEventKind::RightMouseDown
        } else {
            MacEventKind::OtherMouseDown
        },
        MacosPenEventType::Up => if button == 1 {
            MacEventKind::LeftMouseUp
        } else if button == 2 {
            MacEventKind::RightMouseUp
        } else {
            MacEventKind::OtherMouseUp
        },
        MacosPenEventType::Move => if buttons == 0 {
            MacEventKind::MouseMoved
        } else if buttons == 1 {
            MacEventKind::LeftMouseDragged
        } else if buttons == 2 {
            MacEventKind::RightMouseDragged
        } else {
            MacEventKind::OtherMouseDragged
        },
    }
}

/// Entering and leaving become proximity events; a press or release of the
/// changed `button` a down or up of the left, right or an other button; a
/// move with the pressed `buttons` a move or a drag.
pub fn tablet_event_kind(pe_type: MacosPenEventType, button: i64, buttons: i64) -> (k: MacEventKind)
    ensures
        k == spec_event_kind(pe_type, button, buttons),
{
    match pe_type {
        MacosPenEventType::Enter | MacosPenEventType::Leave => MacEventKind::TabletProximity,
        MacosPenEventType::Down => match button {
            1 => MacEventKind::LeftMouseDown,
            2 => MacEventKind::RightMouseDown,
            _ => MacEventKind::OtherMouseDown,
        },
        MacosPenEventType::Up => match button {
            1 => MacEventKind::LeftMouseUp,
            2 => MacEventKind::RightMouseUp,
            _ => MacEventKind::OtherMouseUp,
        },
        MacosPenEventType::Move => match buttons {
            0 => MacEventKind::MouseMoved,
            1 => MacEventKind::LeftMouseDragged,
            2 => MacEventKind::RightMouseDragged,
            _ => MacEventKind::OtherMouseDragged,
        },
    }
}

} // verus!
