//! Decisions of the Linux `uinput` backend: which evdev events a browser
//! pointer or wheel event becomes, and the multi-touch slot bookkeeping that
//! spans events.

use vstd::prelude::*;
use crate::keys::{
    key_code_of, map_key, KEY_LEFTALT, KEY_LEFTCTRL, KEY_LEFTMETA, KEY_LEFTSHIFT, KEY_U,
    KEY_UNKNOWN,
};
use crate::protocol::{
    Button, KeyboardEvent, KeyboardEventType, KeyboardLocation, PointerEventType, PointerType,
    WheelEvent,
};
use crate::text::chars_of;

verus! {

// Event types.
pub const ET_SYNC: i32 = 0x00;
pub const ET_KEY: i32 = 0x01;
pub const ET_RELATIVE: i32 = 0x02;
pub const ET_ABSOLUTE: i32 = 0x03;
pub const ET_MSC: i32 = 0x04;

// Event codes.
pub const EC_SYNC_REPORT: i32 = 0;
pub const EC_KEY_MOUSE_LEFT: i32 = 0x110;
pub const EC_KEY_MOUSE_RIGHT: i32 = 0x111;
pub const EC_KEY_MOUSE_MIDDLE: i32 = 0x112;
pub const EC_KEY_TOOL_PEN: i32 = 0x140;
pub const EC_KEY_TOOL_RUBBER: i32 = 0x141;
pub const EC_KEY_TOUCH: i32 = 0x14a;
pub const EC_KEY_TOOL_FINGER: i32 = 0x145;
pub const EC_KEY_TOOL_DOUBLETAP: i32 = 0x14d;
pub const EC_KEY_TOOL_TRIPLETAP: i32 = 0x14e;
pub const EC_KEY_TOOL_QUADTAP: i32 = 0x14f;
pub const EC_KEY_TOOL_QUINTTAP: i32 = 0x148;
pub const EC_REL_HWHEEL: i32 = 0x06;
pub const EC_REL_WHEEL: i32 = 0x08;
pub const EC_REL_WHEEL_HI_RES: i32 = 0x0b;
pub const EC_REL_HWHEEL_HI_RES: i32 = 0x0c;
pub const EC_ABSOLUTE_X: i32 = 0x00;
pub const EC_ABSOLUTE_Y: i32 = 0x01;
pub const EC_ABSOLUTE_PRESSURE: i32 = 0x18;
pub const EC_ABSOLUTE_TILT_X: i32 = 0x1a;
pub const EC_ABSOLUTE_TILT_Y: i32 = 0x1b;
pub const EC_ABS_MT_SLOT: i32 = 0x2f;
pub const EC_ABS_MT_TOUCH_MAJOR: i32 = 0x30;
pub const EC_ABS_MT_TOUCH_MINOR: i32 = 0x31;
pub const EC_ABS_MT_ORIENTATION: i32 = 0x34;
pub const EC_ABS_MT_POSITION_X: i32 = 0x35;
pub const EC_ABS_MT_POSITION_Y: i32 = 0x36;
pub const EC_ABS_MT_TRACKING_ID: i32 = 0x39;
pub const EC_ABS_MT_PRESSURE: i32 = 0x3a;
pub const EC_MSC_TIMESTAMP: i32 = 0x05;

/// How many input events may still trigger mapping a device to the whole screen.
pub const MAX_SCREEN_MAPPING_TRIES: usize = 100;

/// Number of multi-touch slots.
pub const TOUCH_SLOTS: usize = 5;

/// The virtual input devices the backend creates.
#[derive(Debug, Clone, Copy, PartialEq, Eq, Structural)]
pub enum Device {
    Keyboard,
    Stylus,
    Mouse,
    Touch,
}

/// One evdev event to write to a device.
#[derive(Debug, Clone, Copy, PartialEq, Eq, Structural)]
pub struct UInputEvent {
    pub device: Device,
    pub typ: i32,
    pub code: i32,
    pub value: i32,
}

/// A browser pointer event with its coordinates already scaled to the
/// device's absolute axis range.
#[derive(Debug, Clone, Copy)]
pub struct PointerInput {
    pub event_type: PointerEventType,
    pub pointer_type: PointerType,
    pub pointer_id: i64,
    pub timestamp: u64,
    pub button: Button,
    pub buttons: Button,
    /// Absolute x and y position.
    pub x: i32,
    pub y: i32,
    /// Scaled pressure.
    pub pressure: i32,
    /// Scaled contact width and height.
    pub width: i32,
    pub height: i32,
    /// Whether the contact is at least as high as it is wide.
    pub height_ge_width: bool,
    pub tilt_x: i32,
    pub tilt_y: i32,
}

/// What one pointer event asks of the devices: a device to map to the whole
/// screen first, if any, then the events to write, in order.
pub struct PointerActions {
    pub map_device: Option<Device>,
    pub events: Vec<UInputEvent>,
}

/// Per-client state of the backend.
pub struct UInputState {
    touches: Vec<Option<i64>>,
    tool_pen_active: bool,
    num_mouse_mapping_tries: usize,
    num_stylus_mapping_tries: usize,
    num_touch_mapping_tries: usize,
}

/// Abstract state: the pointer id held by each touch slot, whether the pen
/// (rather than the eraser) tool is active, and the mapping attempt counters.
pub struct UInputModel {
    pub touches: Seq<Option<i64>>,
    pub tool_pen_active: bool,
    pub mouse_tries: int,
    pub stylus_tries: int,
    pub touch_tries: int,
}

impl View for UInputState {
    type V = UInputModel;

    closed spec fn view(&self) -> UInputModel {
        UInputModel {
            touches: self.touches@,
            tool_pen_active: self.tool_pen_active,
            mouse_tries: self.num_mouse_mapping_tries as int,
            stylus_tries: self.num_stylus_mapping_tries as int,
            touch_tries: self.num_touch_mapping_tries as int,
        }
    }
}

pub open spec fn event(device: Device, typ: i32, code: i32, value: i32) -> UInputEvent {
    UInputEvent { device, typ, code, value }
}

/// The timestamp as the `MSC_TIMESTAMP` value: reduced modulo `2^31`.
pub open spec fn timestamp_value(ts: u64) -> i32 {
    (ts as int % 0x8000_0000) as i32
}

/// The timestamp and report that close every packet.
pub open spec fn packet_end(device: Device, ts: u64) -> Seq<UInputEvent> {
    seq![
        event(device, ET_MSC, EC_MSC_TIMESTAMP, timestamp_value(ts)),
        event(device, ET_SYNC, EC_SYNC_REPORT, 0),
    ]
}

/// First index at or after `from` where `s` holds `target`.
pub open spec fn first_index(s: Seq<Option<i64>>, target: Option<i64>, from: int) -> Option<int>
    decreases s.len() - from,
{
    if from < 0 || from >= s.len() {
        None
    } else if s[from] == target {
        Some(from)
    } else {
        first_index(s, target, from + 1)
    }
}

/// Slot held by pointer `id`.
pub open spec fn slot_of(touches: Seq<Option<i64>>, id: i64) -> Option<int> {
    first_index(touches, Some(id), 0)
}

/// First free slot.
pub open spec fn free_slot(touches: Seq<Option<i64>>) -> Option<int> {
    first_index(touches, None, 0)
}

/// No two slots hold the same pointer.
pub open spec fn slots_distinct(touches: Seq<Option<i64>>) -> bool {
    forall|i: int, j: int|
        0 <= i < touches.len() && 0 <= j < touches.len() && i != j && touches[i] is Some
            ==> touches[i] != touches[j]
}

/// Tool key released when a contact lands in `slot`.
pub open spec fn tool_released(slot: int) -> i32 {
    if slot == 1 {
        EC_KEY_TOOL_FINGER
    } else if slot == 2 {
        EC_KEY_TOOL_DOUBLETAP
    } else if slot == 3 {
        EC_KEY_TOOL_TRIPLETAP
    } else if slot == 4 {
        EC_KEY_TOOL_QUADTAP
    } else {
        EC_KEY_TOOL_QUINTTAP
    }
}

/// Tool key pressed when a contact lands in `slot`: the tool for `slot + 1` fingers.
pub open spec fn tool_pressed(slot: int) -> i32 {
    if slot == 1 {
        EC_KEY_TOOL_DOUBLETAP
    } else if slot == 2 {
        EC_KEY_TOOL_TRIPLETAP
    } else if slot == 3 {
        EC_KEY_TOOL_QUADTAP
    } else if slot == 4 {
        EC_KEY_TOOL_QUINTTAP
    } else {
        EC_KEY_TOOL_FINGER
    }
}

/// Events of a touch contact that is down or moving in `slot`.
pub open spec fn touch_contact_events(slot: int, ev: PointerInput) -> Seq<UInputEvent> {
    let d = Device::Touch;
    let (major, minor, orientation) = if ev.height_ge_width {
        (ev.height, ev.width, 0i32)
    } else {
        (ev.width, ev.height, 1i32)
    };
    seq![
        event(d, ET_ABSOLUTE, EC_ABS_MT_SLOT, slot as i32),
        event(d, ET_ABSOLUTE, EC_ABS_MT_TRACKING_ID, slot as i32),
    ] + (if ev.event_type == PointerEventType::DOWN {
        seq![
            event(d, ET_KEY, EC_KEY_TOUCH, 1),
            event(d, ET_KEY, tool_released(slot), 0),
            event(d, ET_KEY, tool_pressed(slot), 1),
        ]
    } else {
        Seq::empty()
    }) + seq![
        event(d, ET_ABSOLUTE, EC_ABS_MT_PRESSURE, ev.pressure),
        event(d, ET_ABSOLUTE, EC_ABS_MT_TOUCH_MAJOR, major),
        event(d, ET_ABSOLUTE, EC_ABS_MT_TOUCH_MINOR, minor),
        event(d, ET_ABSOLUTE, EC_ABS_MT_ORIENTATION, orientation),
        event(d, ET_ABSOLUTE, EC_ABS_MT_POSITION_X, ev.x),
        event(d, ET_ABSOLUTE, EC_ABS_MT_POSITION_Y, ev.y),
        event(d, ET_ABSOLUTE, EC_ABSOLUTE_X, ev.x),
        event(d, ET_ABSOLUTE, EC_ABSOLUTE_Y, ev.y),
    ] + packet_end(d, ev.timestamp)
}

/// Events of a touch contact in `slot` that ends.
pub open spec fn touch_lift_events(slot: int, ts: u64) -> Seq<UInputEvent> {
    let d = Device::Touch;
    seq![
        event(d, ET_ABSOLUTE, EC_ABS_MT_SLOT, slot as i32),
        event(d, ET_ABSOLUTE, EC_ABS_MT_TRACKING_ID, -1i32),
        event(d, ET_KEY, EC_KEY_TOUCH, 0),
        event(d, ET_KEY, EC_KEY_TOOL_FINGER, 0),
    ] + (if 1 <= slot <= 4 {
        seq![event(d, ET_KEY, tool_pressed(slot), 0)]
    } else {
        Seq::empty()
    }) + packet_end(d, ts)
}

pub open spec fn is_down_or_move(t: PointerEventType) -> bool {
    t == PointerEventType::DOWN || t == PointerEventType::MOVE
}

pub open spec fn is_up_or_cancel(t: PointerEventType) -> bool {
    t == PointerEventType::UP || t == PointerEventType::CANCEL
}

/// Mouse key code of a single button (`None` for anything else).
pub open spec fn mouse_key(b: Button) -> Option<i32> {
    if b.spec_bits() == 1 {
        Some(EC_KEY_MOUSE_LEFT)
    } else if b.spec_bits() == 2 {
        Some(EC_KEY_MOUSE_RIGHT)
    } else if b.spec_bits() == 4 {
        Some(EC_KEY_MOUSE_MIDDLE)
    } else {
        None
    }
}

pub open spec fn mouse_key_events(b: Button, value: i32) -> Seq<UInputEvent> {
    match mouse_key(b) {
        Some(code) => seq![event(Device::Mouse, ET_KEY, code, value)],
        None => Seq::empty(),
    }
}

/// The state after a touch event and the events it sends.
pub open spec fn touch_step(s: UInputModel, ev: PointerInput) -> (Seq<Option<i64>>, Seq<UInputEvent>) {
    if is_down_or_move(ev.event_type) {
        match slot_of(s.touches, ev.pointer_id) {
            Some(k) => (s.touches, touch_contact_events(k, ev)),
            None => match free_slot(s.touches) {
                Some(k) => (
                    s.touches.update(k, Some(ev.pointer_id)),
                    touch_contact_events(k, ev),
                ),
                None => (s.touches, Seq::empty()),
            },
        }
    } else if is_up_or_cancel(ev.event_type) {
        match slot_of(s.touches, ev.pointer_id) {
            Some(k) => (s.touches.update(k, None), touch_lift_events(k, ev.timestamp)),
            None => (s.touches, Seq::empty()),
        }
    } else {
        (s.touches, Seq::empty())
    }
}

/// Whether the pen tool is active after a pen event, and the events it sends.
pub open spec fn pen_step(active: bool, ev: PointerInput) -> (bool, Seq<UInputEvent>) {
    let d = Device::Stylus;
    if is_down_or_move(ev.event_type) {
        let touch = if ev.event_type == PointerEventType::DOWN {
            seq![event(d, ET_KEY, EC_KEY_TOUCH, 1)]
        } else {
            Seq::empty()
        };
        let select_pen = !active && ev.buttons.spec_bits() & 0b0010_0000 == 0;
        let pen = if select_pen {
            seq![event(d, ET_KEY, EC_KEY_TOOL_PEN, 1), event(d, ET_KEY, EC_KEY_TOOL_RUBBER, 0)]
        } else {
            Seq::empty()
        };
        let eraser = ev.button.spec_bits() == 0b0010_0000;
        let rubber = if eraser {
            seq![event(d, ET_KEY, EC_KEY_TOOL_PEN, 0), event(d, ET_KEY, EC_KEY_TOOL_RUBBER, 1)]
        } else {
            Seq::empty()
        };
        let new_active = if eraser {
            false
        } else {
            active || select_pen
        };
        (
            new_active,
            touch + pen + rubber + seq![
                event(d, ET_ABSOLUTE, EC_ABSOLUTE_X, ev.x),
                event(d, ET_ABSOLUTE, EC_ABSOLUTE_Y, ev.y),
                event(d, ET_ABSOLUTE, EC_ABSOLUTE_PRESSURE, ev.pressure),
                event(d, ET_ABSOLUTE, EC_ABSOLUTE_TILT_X, ev.tilt_x),
                event(d, ET_ABSOLUTE, EC_ABSOLUTE_TILT_Y, ev.tilt_y),
            ] + packet_end(d, ev.timestamp),
        )
    } else if is_up_or_cancel(ev.event_type) {
        (
            false,
            seq![
                event(d, ET_KEY, EC_KEY_TOUCH, 0),
                event(d, ET_KEY, EC_KEY_TOOL_PEN, 0),
                event(d, ET_KEY, EC_KEY_TOOL_RUBBER, 0),
                event(d, ET_ABSOLUTE, EC_ABSOLUTE_PRESSURE, 0),
            ] + packet_end(d, ev.timestamp),
        )
    } else {
        (active, packet_end(d, ev.timestamp))
    }
}

/// Events of a mouse (or unknown pointer type) event.
pub open spec fn mouse_events(ev: PointerInput) -> Seq<UInputEvent> {
    let d = Device::Mouse;
    if is_down_or_move(ev.event_type) {
        (if ev.event_type == PointerEventType::DOWN {
            mouse_key_events(ev.button, 1)
        } else {
            Seq::empty()
        }) + seq![
            event(d, ET_ABSOLUTE, EC_ABSOLUTE_X, ev.x),
            event(d, ET_ABSOLUTE, EC_ABSOLUTE_Y, ev.y),
        ] + packet_end(d, ev.timestamp)
    } else if is_up_or_cancel(ev.event_type) {
        mouse_key_events(ev.button, 0) + packet_end(d, ev.timestamp)
    } else {
        packet_end(d, ev.timestamp)
    }
}

/// The device whose screen mapping a pointer type's events may trigger.
pub open spec fn mapped_device(t: PointerType) -> Device {
    match t {
        PointerType::Touch => Device::Touch,
        PointerType::Pen => Device::Stylus,
        _ => Device::Mouse,
    }
}

/// Whether another screen mapping is attempted for a pointer type. Touch
/// events are limited by the touch counter, pen events by the stylus counter
/// and mouse events by the mouse counter.
pub open spec fn mapping_due(s: UInputModel, t: PointerType) -> bool {
    match t {
        PointerType::Touch => s.touch_tries < MAX_SCREEN_MAPPING_TRIES,
        PointerType::Pen => s.stylus_tries < MAX_SCREEN_MAPPING_TRIES,
        _ => s.mouse_tries < MAX_SCREEN_MAPPING_TRIES,
    }
}

/// The mapping attempt counter of a device.
pub open spec fn tries_of(s: UInputModel, d: Device) -> int {
    match d {
        Device::Touch => s.touch_tries,
        Device::Stylus => s.stylus_tries,
        Device::Mouse => s.mouse_tries,
        Device::Keyboard => 0,
    }
}

/// The counter of device `d` after an event of pointer type `t`: each pointer
/// type counts its attempts on the counter of its own device, and only while
/// attempts are due.
pub open spec fn tries_after(s: UInputModel, t: PointerType, d: Device) -> int {
    if mapped_device(t) == d && mapping_due(s, t) {
        tries_of(s, d) + 1
    } else {
        tries_of(s, d)
    }
}

/// What one pointer event does, from state `s` to state `t`, asking for the
/// screen mapping `map` and writing `events`: the device of its pointer type
/// is mapped while attempts are due, each counter counts the attempts of its
/// own device, and touch, pen and mouse events step the touch slots, the pen
/// tool and nothing respectively.
pub open spec fn pointer_outcome(
    s: UInputModel,
    ev: PointerInput,
    t: UInputModel,
    map: Option<Device>,
    events: Seq<UInputEvent>,
) -> bool {
    &&& map == (if mapping_due(s, ev.pointer_type) {
        Some(mapped_device(ev.pointer_type))
    } else {
        None
    })
    &&& t.touch_tries == tries_after(s, ev.pointer_type, Device::Touch)
    &&& t.stylus_tries == tries_after(s, ev.pointer_type, Device::Stylus)
    &&& t.mouse_tries == tries_after(s, ev.pointer_type, Device::Mouse)
    &&& ev.pointer_type == PointerType::Touch ==> t.tool_pen_active == s.tool_pen_active && (
        t.touches,
        events,
    ) == touch_step(s, ev)
    &&& ev.pointer_type == PointerType::Pen ==> t.touches == s.touches && (
        t.tool_pen_active,
        events,
    ) == pen_step(s.tool_pen_active, ev)
    &&& (ev.pointer_type == PointerType::Mouse || ev.pointer_type == PointerType::Unknown)
        ==> t.touches == s.touches && t.tool_pen_active == s.tool_pen_active && events
        == mouse_events(ev)
}

pub open spec fn wf_model(s: UInputModel) -> bool {
    &&& s.touches.len() == TOUCH_SLOTS
    &&& slots_distinct(s.touches)
    &&& 0 <= s.mouse_tries <= MAX_SCREEN_MAPPING_TRIES
    &&& 0 <= s.stylus_tries <= MAX_SCREEN_MAPPING_TRIES
    &&& 0 <= s.touch_tries <= MAX_SCREEN_MAPPING_TRIES
}

proof fn lemma_first_index(s: Seq<Option<i64>>, target: Option<i64>, from: int, k: int)
    requires
        0 <= from <= k <= s.len(),
        forall|j: int| from <= j < k ==> s[j] != target,
        k == s.len() || s[k] == target,
    ensures
        first_index(s, target, from) == (if k < s.len() {
            Some(k)
        } else {
            None::<int>
        }),
    decreases k - from,
{
    if from < k {
        lemma_first_index(s, target, from + 1, k);
    }
}

proof fn lemma_first_index_found(s: Seq<Option<i64>>, target: Option<i64>, from: int)
    requires
        0 <= from,
    ensures
        first_index(s, target, from) matches Some(k) ==> from <= k < s.len() && s[k] == target,
        first_index(s, target, from) is None ==> forall|j: int|
            from <= j < s.len() ==> s[j] != target,
    decreases s.len() - from,
{
    if from < s.len() && s[from] != target {
        lemma_first_index_found(s, target, from + 1);
    }
}

impl UInputState {
    pub closed spec fn wf(&self) -> bool {
        wf_model(self@)
    }

    /// No touches, the pen tool inactive, no mapping attempts yet.
    pub fn new() -> (s: Self)
        ensures
            s.wf(),
            s@.touches == Seq::new(TOUCH_SLOTS as nat, |i: int| None::<i64>),
            !s@.tool_pen_active,
            s@.mouse_tries == 0,
            s@.stylus_tries == 0,
            s@.touch_tries == 0,
    {
        let touches: Vec<Option<i64>> = vec![None, None, None, None, None];
        let s = UInputState {
            touches,
            tool_pen_active: false,
            num_mouse_mapping_tries: 0,
            num_stylus_mapping_tries: 0,
            num_touch_mapping_tries: 0,
        };
        assert(s@.touches =~= Seq::new(TOUCH_SLOTS as nat, |i: int| None::<i64>));
        s
    }

    /// The slot holding pointer `id`.
    pub fn find_slot(&self, id: i64) -> (r: Option<usize>)
        ensures
            r matches Some(k) ==> slot_of(self@.touches, id) == Some(k as int),
            r is None ==> slot_of(self@.touches, id) is None,
    {
        let mut i: usize = 0;
        while i < self.touches.len()
            invariant
                i <= self.touches@.len(),
                forall|j: int| 0 <= j < i ==> self.touches@[j] != Some(id),
            decreases self.touches@.len() - i,
        {
            if self.touches[i] == Some(id) {
                proof {
                    lemma_first_index(self.touches@, Some(id), 0, i as int);
                }
                return Some(i);
            }
            i = i + 1;
        }
        proof {
            lemma_first_index(self.touches@, Some(id), 0, i as int);
        }
        None
    }

    fn find_free_slot(&self) -> (r: Option<usize>)
        ensures
            r matches Some(k) ==> free_slot(self@.touches) == Some(k as int),
            r is None ==> free_slot(self@.touches) is None,
    {
        let mut i: usize = 0;
        while i < self.touches.len()
            invariant
                i <= self.touches@.len(),
                forall|j: int| 0 <= j < i ==> self.touches@[j] != None::<i64>,
            decreases self.touches@.len() - i,
        {
            if self.touches[i].is_none() {
                proof {
                    lemma_first_index(self.touches@, None, 0, i as int);
                }
                return Some(i);
            }
            i = i + 1;
        }
        proof {
            lemma_first_index(self.touches@, None, 0, i as int);
        }
        None
    }
}

fn push_event(v: &mut Vec<UInputEvent>, device: Device, typ: i32, code: i32, value: i32)
    ensures
        final(v)@ == old(v)@.push(event(device, typ, code, value)),
{
    v.push(UInputEvent { device, typ, code, value });
}

fn timestamp_of(ts: u64) -> (r: i32)
    ensures
        r == timestamp_value(ts),
{
    (ts % 0x8000_0000) as i32
}

fn push_packet_end(v: &mut Vec<UInputEvent>, d: Device, ts: u64)
    ensures
        final(v)@ == old(v)@ + packet_end(d, ts),
{
    let t = timestamp_of(ts);
    push_event(v, d, ET_MSC, EC_MSC_TIMESTAMP, t);
    push_event(v, d, ET_SYNC, EC_SYNC_REPORT, 0);
    assert(v@ =~= old(v)@ + packet_end(d, ts));
}

fn tool_released_code(slot: usize) -> (c: i32)
    ensures
        c == tool_released(slot as int),
{
    match slot {
        1 => EC_KEY_TOOL_FINGER,
        2 => EC_KEY_TOOL_DOUBLETAP,
        3 => EC_KEY_TOOL_TRIPLETAP,
        4 => EC_KEY_TOOL_QUADTAP,
        _ => EC_KEY_TOOL_QUINTTAP,
    }
}

fn tool_pressed_code(slot: usize) -> (c: i32)
    ensures
        c == tool_pressed(slot as int),
{
    match slot {
        1 => EC_KEY_TOOL_DOUBLETAP,
        2 => EC_KEY_TOOL_TRIPLETAP,
        3 => EC_KEY_TOOL_QUADTAP,
        4 => EC_KEY_TOOL_QUINTTAP,
        _ => EC_KEY_TOOL_FINGER,
    }
}

fn touch_contact(slot: usize, ev: &PointerInput) -> (v: Vec<UInputEvent>)
    requires
        slot < TOUCH_SLOTS,
    ensures
        v@ == touch_contact_events(slot as int, *ev),
{
    let d = Device::Touch;
    let mut v: Vec<UInputEvent> = Vec::new();
    push_event(&mut v, d, ET_ABSOLUTE, EC_ABS_MT_SLOT, slot as i32);
    push_event(&mut v, d, ET_ABSOLUTE, EC_ABS_MT_TRACKING_ID, slot as i32);
    let ghost head = v@;
    if ev.event_type == PointerEventType::DOWN {
        push_event(&mut v, d, ET_KEY, EC_KEY_TOUCH, 1);
        push_event(&mut v, d, ET_KEY, tool_released_code(slot), 0);
        push_event(&mut v, d, ET_KEY, tool_pressed_code(slot), 1);
    }
    let ghost with_keys = v@;
    let (major, minor, orientation) = if ev.height_ge_width {
        (ev.height, ev.width, 0i32)
    } else {
        (ev.width, ev.height, 1i32)
    };
    push_event(&mut v, d, ET_ABSOLUTE, EC_ABS_MT_PRESSURE, ev.pressure);
    push_event(&mut v, d, ET_ABSOLUTE, EC_ABS_MT_TOUCH_MAJOR, major);
    push_event(&mut v, d, ET_ABSOLUTE, EC_ABS_MT_TOUCH_MINOR, minor);
    push_event(&mut v, d, ET_ABSOLUTE, EC_ABS_MT_ORIENTATION, orientation);
    push_event(&mut v, d, ET_ABSOLUTE, EC_ABS_MT_POSITION_X, ev.x);
    push_event(&mut v, d, ET_ABSOLUTE, EC_ABS_MT_POSITION_Y, ev.y);
    push_event(&mut v, d, ET_ABSOLUTE, EC_ABSOLUTE_X, ev.x);
    push_event(&mut v, d, ET_ABSOLUTE, EC_ABSOLUTE_Y, ev.y);
    push_packet_end(&mut v, d, ev.timestamp);
    assert(v@ =~= touch_contact_events(slot as int, *ev));
    v
}

fn touch_lift(slot: usize, ts: u64) -> (v: Vec<UInputEvent>)
    requires
        slot < TOUCH_SLOTS,
    ensures
        v@ == touch_lift_events(slot as int, ts),
{
    let d = Device::Touch;
    let mut v: Vec<UInputEvent> = Vec::new();
    push_event(&mut v, d, ET_ABSOLUTE, EC_ABS_MT_SLOT, slot as i32);
    push_event(&mut v, d, ET_ABSOLUTE, EC_ABS_MT_TRACKING_ID, -1);
    push_event(&mut v, d, ET_KEY, EC_KEY_TOUCH, 0);
    push_event(&mut v, d, ET_KEY, EC_KEY_TOOL_FINGER, 0);
    if 1 <= slot && slot <= 4 {
        push_event(&mut v, d, ET_KEY, tool_pressed_code(slot), 0);
    }
    push_packet_end(&mut v, d, ts);
    assert(v@ =~= touch_lift_events(slot as int, ts));
    v
}

fn push_mouse_key(v: &mut Vec<UInputEvent>, b: Button, value: i32)
    ensures
        final(v)@ == old(v)@ + mouse_key_events(b, value),
{
    let bits = b.bits();
    if bits == 1 {
        push_event(v, Device::Mouse, ET_KEY, EC_KEY_MOUSE_LEFT, value);
    } else if bits == 2 {
        push_event(v, Device::Mouse, ET_KEY, EC_KEY_MOUSE_RIGHT, value);
    } else if bits == 4 {
        push_event(v, Device::Mouse, ET_KEY, EC_KEY_MOUSE_MIDDLE, value);
    }
    assert(v@ =~= old(v)@ + mouse_key_events(b, value));
}

fn mouse_pointer(ev: &PointerInput) -> (v: Vec<UInputEvent>)
    ensures
        v@ == mouse_events(*ev),
{
    let d = Device::Mouse;
    let mut v: Vec<UInputEvent> = Vec::new();
    match ev.event_type {
        PointerEventType::DOWN | PointerEventType::MOVE => {
            if ev.event_type == PointerEventType::DOWN {
                push_mouse_key(&mut v, ev.button, 1);
            }
            push_event(&mut v, d, ET_ABSOLUTE, EC_ABSOLUTE_X, ev.x);
            push_event(&mut v, d, ET_ABSOLUTE, EC_ABSOLUTE_Y, ev.y);
        },
        PointerEventType::UP | PointerEventType::CANCEL => {
            push_mouse_key(&mut v, ev.button, 0);
        },
        _ => {},
    }
    push_packet_end(&mut v, d, ev.timestamp);
    assert(v@ =~= mouse_events(*ev));
    v
}

/// The wheel events a browser wheel event becomes: one notch in the sign of
/// `dy` on both wheels, then `dx` on both high-resolution wheels.
pub open spec fn wheel_events(ev: WheelEvent) -> Seq<UInputEvent> {
    let d = Device::Mouse;
    let dir: i32 = if ev.dy < 0 {
        -1i32
    } else if ev.dy > 0 {
        1i32
    } else {
        0i32
    };
    seq![
        event(d, ET_RELATIVE, EC_REL_WHEEL, dir),
        event(d, ET_RELATIVE, EC_REL_HWHEEL, dir),
        event(d, ET_RELATIVE, EC_REL_WHEEL_HI_RES, ev.dx),
        event(d, ET_RELATIVE, EC_REL_HWHEEL_HI_RES, ev.dx),
    ] + packet_end(d, ev.timestamp)
}

/// Sign of `d`: -1, 0 or 1.
pub fn direction(d: i32) -> (r: i32)
    ensures
        r == (if d < 0 {
            -1i32
        } else if d > 0 {
            1i32
        } else {
            0i32
        }),
{
    if d < 0 {
        -1
    } else if d > 0 {
        1
    } else {
        0
    }
}

/// The events a wheel event becomes.
pub fn wheel_event(ev: &WheelEvent) -> (v: Vec<UInputEvent>)
    ensures
        v@ == wheel_events(*ev),
{
    let d = Device::Mouse;
    let mut v: Vec<UInputEvent> = Vec::new();
    let dir = direction(ev.dy);
    push_event(&mut v, d, ET_RELATIVE, EC_REL_WHEEL, dir);
    push_event(&mut v, d, ET_RELATIVE, EC_REL_HWHEEL, dir);
    push_event(&mut v, d, ET_RELATIVE, EC_REL_WHEEL_HI_RES, ev.dx);
    push_event(&mut v, d, ET_RELATIVE, EC_REL_HWHEEL_HI_RES, ev.dx);
    push_packet_end(&mut v, d, ev.timestamp);
    assert(v@ =~= wheel_events(*ev));
    v
}

impl UInputState {
    /// Number of screen mapping attempts made for the touch device.
    pub fn touch_mapping_tries(&self) -> (n: usize)
        ensures
            n == self@.touch_tries,
    {
        self.num_touch_mapping_tries
    }

    /// Number of screen mapping attempts made for the stylus device.
    pub fn stylus_mapping_tries(&self) -> (n: usize)
        ensures
            n == self@.stylus_tries,
    {
        self.num_stylus_mapping_tries
    }

    /// Number of screen mapping attempts made for the mouse device.
    pub fn mouse_mapping_tries(&self) -> (n: usize)
        ensures
            n == self@.mouse_tries,
    {
        self.num_mouse_mapping_tries
    }

    /// What every well-formed state keeps: five slots, no pointer held by two
    /// of them, and no counter past the number of mapping attempts allowed.
    pub proof fn lemma_wf(&self)
        requires
            self.wf(),
        ensures
            self@.touches.len() == TOUCH_SLOTS,
            slots_distinct(self@.touches),
            0 <= self@.touch_tries <= MAX_SCREEN_MAPPING_TRIES,
            0 <= self@.stylus_tries <= MAX_SCREEN_MAPPING_TRIES,
            0 <= self@.mouse_tries <= MAX_SCREEN_MAPPING_TRIES,
    {
    }

    fn pen_pointer(&mut self, ev: &PointerInput) -> (v: Vec<UInputEvent>)
        ensures
            final(self)@.touches == old(self)@.touches,
            final(self)@.mouse_tries == old(self)@.mouse_tries,
            final(self)@.stylus_tries == old(self)@.stylus_tries,
            final(self)@.touch_tries == old(self)@.touch_tries,
            (final(self)@.tool_pen_active, v@) == pen_step(old(self)@.tool_pen_active, *ev),
    {
        let d = Device::Stylus;
        let mut v: Vec<UInputEvent> = Vec::new();
        let ghost active = self.tool_pen_active;
        match ev.event_type {
            PointerEventType::DOWN | PointerEventType::MOVE => {
                if ev.event_type == PointerEventType::DOWN {
                    push_event(&mut v, d, ET_KEY, EC_KEY_TOUCH, 1);
                }
                let ghost v1 = v@;
                let ghost bb = ev.buttons.spec_bits();
                assert((bb & 32u8 == 32u8) == !(bb & 32u8 == 0u8)) by (bit_vector);
                if !self.tool_pen_active && !ev.buttons.contains(Button::eraser()) {
                    push_event(&mut v, d, ET_KEY, EC_KEY_TOOL_PEN, 1);
                    push_event(&mut v, d, ET_KEY, EC_KEY_TOOL_RUBBER, 0);
                    self.tool_pen_active = true;
                }
                let ghost v2 = v@;
                if ev.button.bits() == 0b0010_0000 {
                    push_event(&mut v, d, ET_KEY, EC_KEY_TOOL_PEN, 0);
                    push_event(&mut v, d, ET_KEY, EC_KEY_TOOL_RUBBER, 1);
                    self.tool_pen_active = false;
                }
                push_event(&mut v, d, ET_ABSOLUTE, EC_ABSOLUTE_X, ev.x);
                push_event(&mut v, d, ET_ABSOLUTE, EC_ABSOLUTE_Y, ev.y);
                push_event(&mut v, d, ET_ABSOLUTE, EC_ABSOLUTE_PRESSURE, ev.pressure);
                push_event(&mut v, d, ET_ABSOLUTE, EC_ABSOLUTE_TILT_X, ev.tilt_x);
                push_event(&mut v, d, ET_ABSOLUTE, EC_ABSOLUTE_TILT_Y, ev.tilt_y);
            },
            PointerEventType::UP | PointerEventType::CANCEL => {
                push_event(&mut v, d, ET_KEY, EC_KEY_TOUCH, 0);
                push_event(&mut v, d, ET_KEY, EC_KEY_TOOL_PEN, 0);
                push_event(&mut v, d, ET_KEY, EC_KEY_TOOL_RUBBER, 0);
                push_event(&mut v, d, ET_ABSOLUTE, EC_ABSOLUTE_PRESSURE, 0);
                self.tool_pen_active = false;
            },
            _ => {},
        }
        push_packet_end(&mut v, d, ev.timestamp);
        assert(v@ =~= pen_step(active, *ev).1);
        v
    }

    fn touch_pointer(&mut self, ev: &PointerInput) -> (v: Vec<UInputEvent>)
        requires
            old(self).wf(),
        ensures
            final(self).wf(),
            final(self)@.tool_pen_active == old(self)@.tool_pen_active,
            final(self)@.mouse_tries == old(self)@.mouse_tries,
            final(self)@.stylus_tries == old(self)@.stylus_tries,
            final(self)@.touch_tries == old(self)@.touch_tries,
            (final(self)@.touches, v@) == touch_step(old(self)@, *ev),
    {
        let ghost t0 = self.touches@;
        proof {
            lemma_first_index_found(t0, Some(ev.pointer_id), 0);
            lemma_first_index_found(t0, None, 0);
        }
        match ev.event_type {
            PointerEventType::DOWN | PointerEventType::MOVE => {
                let slot = match self.find_slot(ev.pointer_id) {
                    Some(s) => s,
                    None => match self.find_free_slot() {
                        Some(s) => {
                            self.touches.set(s, Some(ev.pointer_id));
                            proof {
                                let t1 = self.touches@;
                                assert forall|i: int, j: int|
                                    0 <= i < t1.len() && 0 <= j < t1.len() && i != j
                                        && t1[i] is Some implies t1[i] != t1[j] by {
                                    if i != s && j != s {
                                        assert(t0[i] != t0[j]);
                                    }
                                }
                            }
                            s
                        },
                        None => {
                            return Vec::new();
                        },
                    },
                };
                touch_contact(slot, ev)
            },
            PointerEventType::UP | PointerEventType::CANCEL => {
                match self.find_slot(ev.pointer_id) {
                    Some(slot) => {
                        let v = touch_lift(slot, ev.timestamp);
                        self.touches.set(slot, None);
                        proof {
                            let t1 = self.touches@;
                            assert forall|i: int, j: int|
                                0 <= i < t1.len() && 0 <= j < t1.len() && i != j
                                    && t1[i] is Some implies t1[i] != t1[j] by {
                                if i != slot && j != slot {
                                    assert(t0[i] != t0[j]);
                                }
                            }
                        }
                        v
                    },
                    None => Vec::new(),
                }
            },
            _ => Vec::new(),
        }
    }

    /// Handles one pointer event: decides whether the device of its pointer
    /// type should be mapped to the whole screen first, updates the touch slots
    /// and the pen tool, and returns the events to write.
    pub fn pointer_event(&mut self, ev: &PointerInput) -> (r: PointerActions)
        requires
            old(self).wf(),
        ensures
            final(self).wf(),
            final(self)@.touches.len() == TOUCH_SLOTS,
            slots_distinct(final(self)@.touches),
            pointer_outcome(old(self)@, *ev, final(self)@, r.map_device, r.events@),
    {
        match ev.pointer_type {
            PointerType::Touch => {
                let map_device = if self.num_touch_mapping_tries < MAX_SCREEN_MAPPING_TRIES {
                    self.num_touch_mapping_tries = self.num_touch_mapping_tries + 1;
                    Some(Device::Touch)
                } else {
                    None
                };
                let events = self.touch_pointer(ev);
                PointerActions { map_device, events }
            },
            PointerType::Pen => {
                let map_device = if self.num_stylus_mapping_tries < MAX_SCREEN_MAPPING_TRIES {
                    self.num_stylus_mapping_tries = self.num_stylus_mapping_tries + 1;
                    Some(Device::Stylus)
                } else {
                    None
                };
                let events = self.pen_pointer(ev);
                PointerActions { map_device, events }
            },
            PointerType::Mouse | PointerType::Unknown => {
                let map_device = if self.num_mouse_mapping_tries < MAX_SCREEN_MAPPING_TRIES {
                    self.num_mouse_mapping_tries = self.num_mouse_mapping_tries + 1;
                    Some(Device::Mouse)
                } else {
                    None
                };
                let events = mouse_pointer(ev);
                PointerActions { map_device, events }
            },
        }
    }
}

impl UInputState {
    /// Handles a pointer event once the capturable was asked to take input:
    /// when activating its window or reading its geometry failed
    /// (`ready` false), no input is sent and nothing changes; otherwise the
    /// event is handled as `pointer_event` does.
    pub fn pointer_event_if_ready(&mut self, ready: bool, ev: &PointerInput) -> (r: PointerActions)
        requires
            old(self).wf(),
        ensures
            final(self).wf(),
            !ready ==> final(self)@ == old(self)@ && r.map_device is None && r.events@.len() == 0,
            ready ==> pointer_outcome(old(self)@, *ev, final(self)@, r.map_device, r.events@),
    {
        if ready {
            self.pointer_event(ev)
        } else {
            PointerActions { map_device: None, events: Vec::new() }
        }
    }
}

/// Every touch event keeps five slots, no two holding the same pointer.
pub proof fn touch_step_keeps_slots_distinct(s: UInputModel, ev: PointerInput)
    requires
        wf_model(s),
    ensures
        touch_step(s, ev).0.len() == TOUCH_SLOTS,
        slots_distinct(touch_step(s, ev).0),
{
    let t0 = s.touches;
    lemma_first_index_found(t0, Some(ev.pointer_id), 0);
    lemma_first_index_found(t0, None, 0);
    let t1 = touch_step(s, ev).0;
    assert forall|i: int, j: int|
        0 <= i < t1.len() && 0 <= j < t1.len() && i != j && t1[i] is Some implies t1[i]
        != t1[j] by {
        if t1[i] != t0[i] || t1[j] != t0[j] {
        } else {
            assert(t0[i] != t0[j]);
        }
    }
}

/// A touch contact that goes down or moves, while it already holds a slot or
/// a slot is free, holds exactly one slot afterwards.
pub proof fn touch_contact_holds_one_slot(s: UInputModel, ev: PointerInput)
    requires
        wf_model(s),
        is_down_or_move(ev.event_type),
        slot_of(s.touches, ev.pointer_id) is Some || free_slot(s.touches) is Some,
    ensures
        ({
            let t = touch_step(s, ev).0;
            exists|k: int|
                0 <= k < t.len() && t[k] == Some(ev.pointer_id) && forall|j: int|
                    0 <= j < t.len() && j != k ==> t[j] != Some(ev.pointer_id)
        }),
{
    let t0 = s.touches;
    let id = ev.pointer_id;
    lemma_first_index_found(t0, Some(id), 0);
    lemma_first_index_found(t0, None, 0);
    touch_step_keeps_slots_distinct(s, ev);
    let t = touch_step(s, ev).0;
    let k = match slot_of(t0, id) {
        Some(k) => k,
        None => free_slot(t0)->0,
    };
    assert(t[k] == Some(id));
    assert forall|j: int| 0 <= j < t.len() && j != k implies t[j] != Some(id) by {
        assert(t[k] != t[j]);
    }
}

/// When a touch contact ends, no slot holds its pointer any more and every
/// other slot keeps its pointer.
pub proof fn touch_lift_frees_slot(s: UInputModel, ev: PointerInput)
    requires
        wf_model(s),
        is_up_or_cancel(ev.event_type),
    ensures
        ({
            let t = touch_step(s, ev).0;
            &&& t.len() == s.touches.len()
            &&& forall|j: int| 0 <= j < t.len() ==> t[j] != Some(ev.pointer_id)
            &&& forall|j: int|
                0 <= j < t.len() && s.touches[j] != Some(ev.pointer_id) ==> t[j] == s.touches[j]
        }),
{
    let t0 = s.touches;
    let id = ev.pointer_id;
    lemma_first_index_found(t0, Some(id), 0);
    let t = touch_step(s, ev).0;
    match slot_of(t0, id) {
        Some(k) => {
            assert forall|j: int| 0 <= j < t.len() implies t[j] != Some(id) by {
                if j != k {
                    assert(t0[k] != t0[j]);
                }
            }
        },
        None => {},
    }
}

/// A new touch contact that goes down and then up leaves the slots as they were.
pub proof fn touch_down_then_up_restores_slots(s: UInputModel, down: PointerInput, up: PointerInput)
    requires
        wf_model(s),
        down.event_type == PointerEventType::DOWN,
        is_up_or_cancel(up.event_type),
        up.pointer_id == down.pointer_id,
        slot_of(s.touches, down.pointer_id) is None,
        free_slot(s.touches) is Some,
    ensures
        touch_step(UInputModel { touches: touch_step(s, down).0, ..s }, up).0 == s.touches,
{
    let t0 = s.touches;
    let id = down.pointer_id;
    lemma_first_index_found(t0, Some(id), 0);
    lemma_first_index_found(t0, None, 0);
    let k = free_slot(t0)->0;
    let t1 = touch_step(s, down).0;
    assert(t1 == t0.update(k, Some(id)));
    assert forall|j: int| 0 <= j < k implies t1[j] != Some(id) by {}
    lemma_first_index(t1, Some(id), 0, k);
    let t2 = touch_step(UInputModel { touches: t1, ..s }, up).0;
    assert(t2 =~= t0);
}

/// Lifting or cancelling the pen always leaves the pen tool inactive.
pub proof fn pen_lift_deactivates_tool(active: bool, ev: PointerInput)
    requires
        is_up_or_cancel(ev.event_type),
    ensures
        !pen_step(active, ev).0,
{
}

/// Uppercase hexadecimal digit for `d` below 16.
pub open spec fn hex_char(d: int) -> char {
    if d < 10 {
        ('0' as int + d) as char
    } else {
        ('A' as int + d - 10) as char
    }
}

/// `n` in uppercase hexadecimal, without leading zeros.
pub open spec fn hex_upper(n: nat) -> Seq<char>
    decreases n,
{
    if n < 16 {
        seq![hex_char(n as int)]
    } else {
        hex_upper(n / 16) + seq![hex_char((n % 16) as int)]
    }
}

/// The UTF-16 code units of a character.
pub open spec fn utf16_units(c: char) -> Seq<nat> {
    let cp = c as nat;
    if cp < 0x10000 {
        seq![cp]
    } else {
        seq![(0xD800 + (cp - 0x10000) / 0x400) as nat, (0xDC00 + (cp - 0x10000) % 0x400) as nat]
    }
}

/// Code units in uppercase hexadecimal, one after the other.
pub open spec fn units_hex(u: Seq<nat>) -> Seq<char>
    decreases u.len(),
{
    if u.len() == 0 {
        Seq::empty()
    } else {
        units_hex(u.drop_last()) + hex_upper(u.last())
    }
}

/// The text's UTF-16 code units, each in uppercase hexadecimal, concatenated.
pub open spec fn unicode_hex(s: Seq<char>) -> Seq<char>
    decreases s.len(),
{
    if s.len() == 0 {
        Seq::empty()
    } else {
        unicode_hex(s.drop_last()) + units_hex(utf16_units(s.last()))
    }
}

/// The characters `hex_char` produces: the digits and the letters `A` to `F`.
pub open spec fn is_hex_char(c: char) -> bool {
    ('0' <= c && c <= '9') || ('A' <= c && c <= 'F')
}

pub open spec fn all_hex_chars(s: Seq<char>) -> bool {
    forall|i: int| 0 <= i < s.len() ==> is_hex_char(#[trigger] s[i])
}

proof fn lemma_hex_upper_chars(n: nat)
    ensures
        all_hex_chars(hex_upper(n)),
    decreases n,
{
    if n >= 16 {
        lemma_hex_upper_chars(n / 16);
    }
}

proof fn lemma_units_hex_chars(u: Seq<nat>)
    ensures
        all_hex_chars(units_hex(u)),
    decreases u.len(),
{
    if u.len() > 0 {
        lemma_units_hex_chars(u.drop_last());
        lemma_hex_upper_chars(u.last());
    }
}

proof fn lemma_unicode_hex_chars(s: Seq<char>)
    ensures
        all_hex_chars(unicode_hex(s)),
    decreases s.len(),
{
    if s.len() > 0 {
        lemma_unicode_hex_chars(s.drop_last());
        lemma_units_hex_chars(utf16_units(s.last()));
    }
}

/// The browser key code a hexadecimal digit is typed with: `Key` and the
/// letter for a letter, `Digit` and the digit otherwise.
pub open spec fn digit_key_name(c: char) -> Seq<char> {
    if 'A' <= c && c <= 'Z' {
        "Key"@.push(c)
    } else {
        "Digit"@.push(c)
    }
}

/// The key a hexadecimal digit is typed with: the key of its key code on the
/// standard keyboard.
pub open spec fn hex_digit_key(c: char) -> i32 {
    key_code_of(digit_key_name(c), KeyboardLocation::STANDARD)
}

pub open spec fn key_event(code: i32, value: i32) -> UInputEvent {
    event(Device::Keyboard, ET_KEY, code, value)
}

pub open spec fn keyboard_sync() -> UInputEvent {
    event(Device::Keyboard, ET_SYNC, EC_SYNC_REPORT, 0)
}

/// Press and release of the key of each hexadecimal digit.
pub open spec fn typed_digits(h: Seq<char>) -> Seq<UInputEvent>
    decreases h.len(),
{
    if h.len() == 0 {
        Seq::empty()
    } else {
        let k = hex_digit_key(h.last());
        typed_digits(h.drop_last()) + seq![
            key_event(k, 1),
            keyboard_sync(),
            key_event(k, 0),
            keyboard_sync(),
        ]
    }
}

/// Unicode input: Ctrl+Shift+U held, the hexadecimal digits typed, then released.
pub open spec fn unicode_input_events(h: Seq<char>) -> Seq<UInputEvent> {
    seq![
        key_event(KEY_LEFTCTRL, 1),
        key_event(KEY_LEFTSHIFT, 1),
        key_event(KEY_U, 1),
        keyboard_sync(),
    ] + typed_digits(h) + seq![
        key_event(KEY_LEFTCTRL, 0),
        key_event(KEY_LEFTSHIFT, 0),
        key_event(KEY_U, 0),
        keyboard_sync(),
    ]
}

pub open spec fn key_state(t: KeyboardEventType) -> i32 {
    match t {
        KeyboardEventType::UP => 0,
        KeyboardEventType::DOWN => 1,
        KeyboardEventType::REPEAT => 2,
    }
}

pub open spec fn modifier_events(on: bool, code: i32, state: i32) -> Seq<UInputEvent> {
    if on {
        seq![key_event(code, state), keyboard_sync()]
    } else {
        Seq::empty()
    }
}

/// The events of a keyboard event. A known key is sent with the held
/// modifiers (Ctrl, Alt, Meta, Shift) in its state; an unknown key that goes
/// down with a non-empty text is typed as Unicode input of that text; any
/// other unknown key sends nothing.
pub open spec fn keyboard_events(
    code: Seq<char>,
    key: Seq<char>,
    ev: KeyboardEvent,
) -> Seq<UInputEvent> {
    let key_code = key_code_of(code, ev.location);
    let state = key_state(ev.event_type);
    if key_code == KEY_UNKNOWN {
        if ev.event_type == KeyboardEventType::DOWN && key.len() > 0 {
            unicode_input_events(unicode_hex(key))
        } else {
            Seq::empty()
        }
    } else {
        modifier_events(ev.ctrl, KEY_LEFTCTRL, state) + modifier_events(ev.alt, KEY_LEFTALT, state)
            + modifier_events(ev.meta, KEY_LEFTMETA, state) + modifier_events(
            ev.shift,
            KEY_LEFTSHIFT,
            state,
        ) + seq![key_event(key_code, state), keyboard_sync()]
    }
}

fn hex_char_of(d: u32) -> (c: char)
    requires
        d < 16,
    ensures
        c == hex_char(d as int),
{
    match d {
        0 => '0',
        1 => '1',
        2 => '2',
        3 => '3',
        4 => '4',
        5 => '5',
        6 => '6',
        7 => '7',
        8 => '8',
        9 => '9',
        10 => 'A',
        11 => 'B',
        12 => 'C',
        13 => 'D',
        14 => 'E',
        _ => 'F',
    }
}

fn push_hex(v: &mut Vec<char>, n: u32)
    ensures
        final(v)@ == old(v)@ + hex_upper(n as nat),
    decreases n,
{
    if n >= 16 {
        push_hex(v, n / 16);
        v.push(hex_char_of(n % 16));
    } else {
        v.push(hex_char_of(n));
    }
    assert(v@ =~= old(v)@ + hex_upper(n as nat));
}

fn push_unicode_hex(v: &mut Vec<char>, c: char)
    ensures
        final(v)@ == old(v)@ + units_hex(utf16_units(c)),
{
    let cp = c as u32;
    let ghost u = utf16_units(c);
    if cp < 0x10000 {
        push_hex(v, cp);
        assert(u.drop_last() =~= Seq::<nat>::empty());
        assert(units_hex(u.drop_last()) =~= Seq::<char>::empty());
        assert(units_hex(u) == units_hex(u.drop_last()) + hex_upper(u.last()));
    } else {
        let hi = 0xD800 + (cp - 0x10000) / 0x400;
        let lo = 0xDC00 + (cp - 0x10000) % 0x400;
        push_hex(v, hi);
        push_hex(v, lo);
        assert(u.drop_last().drop_last() =~= Seq::<nat>::empty());
        assert(u.drop_last() =~= seq![hi as nat]);
        assert(units_hex(u.drop_last().drop_last()) =~= Seq::<char>::empty());
        assert(units_hex(u.drop_last()) == units_hex(u.drop_last().drop_last()) + hex_upper(
            hi as nat,
        ));
        assert(units_hex(u) == units_hex(u.drop_last()) + hex_upper(lo as nat));
    }
    assert(v@ =~= old(v)@ + units_hex(u));
}

fn hex_digit_key_of(c: char) -> (k: i32)
    requires
        is_hex_char(c),
    ensures
        k == hex_digit_key(c),
{
    proof {
        reveal_strlit("Key");
        reveal_strlit("Digit");
        reveal_strlit("Digit0");
        reveal_strlit("Digit1");
        reveal_strlit("Digit2");
        reveal_strlit("Digit3");
        reveal_strlit("Digit4");
        reveal_strlit("Digit5");
        reveal_strlit("Digit6");
        reveal_strlit("Digit7");
        reveal_strlit("Digit8");
        reveal_strlit("Digit9");
        reveal_strlit("KeyA");
        reveal_strlit("KeyB");
        reveal_strlit("KeyC");
        reveal_strlit("KeyD");
        reveal_strlit("KeyE");
        reveal_strlit("KeyF");
    }
    let name: &str = match c {
        '0' => "Digit0",
        '1' => "Digit1",
        '2' => "Digit2",
        '3' => "Digit3",
        '4' => "Digit4",
        '5' => "Digit5",
        '6' => "Digit6",
        '7' => "Digit7",
        '8' => "Digit8",
        '9' => "Digit9",
        'A' => "KeyA",
        'B' => "KeyB",
        'C' => "KeyC",
        'D' => "KeyD",
        'E' => "KeyE",
        _ => "KeyF",
    };
    assert(name@ =~= digit_key_name(c));
    map_key(name, KeyboardLocation::STANDARD)
}

fn push_modifier(v: &mut Vec<UInputEvent>, on: bool, code: i32, state: i32)
    ensures
        final(v)@ == old(v)@ + modifier_events(on, code, state),
{
    if on {
        push_event(v, Device::Keyboard, ET_KEY, code, state);
        push_event(v, Device::Keyboard, ET_SYNC, EC_SYNC_REPORT, 0);
    }
    assert(v@ =~= old(v)@ + modifier_events(on, code, state));
}

/// The events a keyboard event becomes.
pub fn keyboard_event(ev: &KeyboardEvent) -> (v: Vec<UInputEvent>)
    ensures
        v@ == keyboard_events(ev.code@, ev.key@, *ev),
{
    let d = Device::Keyboard;
    let key_code = map_key(ev.code.as_str(), ev.location);
    let state: i32 = match ev.event_type {
        KeyboardEventType::UP => 0,
        KeyboardEventType::DOWN => 1,
        KeyboardEventType::REPEAT => 2,
    };
    let mut v: Vec<UInputEvent> = Vec::new();
    if key_code == KEY_UNKNOWN {
        let key = ev.key.as_str();
        if ev.event_type == KeyboardEventType::DOWN && !key.is_empty() {
            let chars = chars_of(key);
            let mut hex: Vec<char> = Vec::new();
            let mut i: usize = 0;
            while i < chars.len()
                invariant
                    i <= chars@.len(),
                    chars@ == ev.key@,
                    hex@ == unicode_hex(chars@.take(i as int)),
                decreases chars@.len() - i,
            {
                push_unicode_hex(&mut hex, chars[i]);
                assert(chars@.take(i + 1).drop_last() =~= chars@.take(i as int));
                i = i + 1;
            }
            assert(chars@.take(i as int) =~= chars@);
            proof {
                lemma_unicode_hex_chars(chars@);
            }
            push_event(&mut v, d, ET_KEY, KEY_LEFTCTRL, 1);
            push_event(&mut v, d, ET_KEY, KEY_LEFTSHIFT, 1);
            push_event(&mut v, d, ET_KEY, KEY_U, 1);
            push_event(&mut v, d, ET_SYNC, EC_SYNC_REPORT, 0);
            let ghost head = v@;
            let mut j: usize = 0;
            while j < hex.len()
                invariant
                    j <= hex@.len(),
                    v@ == head + typed_digits(hex@.take(j as int)),
                    all_hex_chars(hex@),
                    d == Device::Keyboard,
                decreases hex@.len() - j,
            {
                let k = hex_digit_key_of(hex[j]);
                let ghost prev = v@;
                push_event(&mut v, d, ET_KEY, k, 1);
                push_event(&mut v, d, ET_SYNC, EC_SYNC_REPORT, 0);
                push_event(&mut v, d, ET_KEY, k, 0);
                push_event(&mut v, d, ET_SYNC, EC_SYNC_REPORT, 0);
                assert(hex@.take(j + 1).drop_last() =~= hex@.take(j as int));
                assert(hex@.take(j + 1).last() == hex@[j as int]);
                assert(typed_digits(hex@.take(j + 1)) == typed_digits(hex@.take(j as int)) + seq![
                    key_event(k, 1),
                    keyboard_sync(),
                    key_event(k, 0),
                    keyboard_sync(),
                ]);
                assert(v@ =~= prev + seq![
                    key_event(k, 1),
                    keyboard_sync(),
                    key_event(k, 0),
                    keyboard_sync(),
                ]);
                assert(v@ =~= head + typed_digits(hex@.take(j + 1)));
                j = j + 1;
            }
            assert(hex@.take(j as int) =~= hex@);
            push_event(&mut v, d, ET_KEY, KEY_LEFTCTRL, 0);
            push_event(&mut v, d, ET_KEY, KEY_LEFTSHIFT, 0);
            push_event(&mut v, d, ET_KEY, KEY_U, 0);
            push_event(&mut v, d, ET_SYNC, EC_SYNC_REPORT, 0);
            assert(v@ =~= unicode_input_events(unicode_hex(ev.key@)));
        }
        return v;
    }
    push_modifier(&mut v, ev.ctrl, KEY_LEFTCTRL, state);
    push_modifier(&mut v, ev.alt, KEY_LEFTALT, state);
    push_modifier(&mut v, ev.meta, KEY_LEFTMETA, state);
    push_modifier(&mut v, ev.shift, KEY_LEFTSHIFT, state);
    push_event(&mut v, d, ET_KEY, key_code, state);
    push_event(&mut v, d, ET_SYNC, EC_SYNC_REPORT, 0);
    assert(v@ =~= keyboard_events(ev.code@, ev.key@, *ev));
    v
}

pub open spec fn device_label(d: Device) -> Seq<char> {
    match d {
        Device::Keyboard => "Weylus Keyboard"@,
        Device::Stylus => "Weylus Stylus"@,
        Device::Mouse => "Weylus Mouse"@,
        Device::Touch => "Weylus Touch"@,
    }
}

/// The name a virtual device is created with: `Weylus <Kind>`, followed by
/// ` - <client name>` when the client gave a name, so that devices of
/// different clients can be told apart.
pub fn device_name(d: Device, client_name: Option<&str>) -> (s: String)
    ensures
        s@ == device_label(d) + match client_name {
            Some(n) => " - "@ + n@,
            None => Seq::<char>::empty(),
        },
{
    let mut s = match d {
        Device::Keyboard => String::from_str("Weylus Keyboard"),
        Device::Stylus => String::from_str("Weylus Stylus"),
        Device::Mouse => String::from_str("Weylus Mouse"),
        Device::Touch => String::from_str("Weylus Touch"),
    };
    match client_name {
        Some(n) => {
            s.append(" - ");
            s.append(n);
            assert(s@ =~= device_label(d) + (" - "@ + n@));
        },
        None => {
            assert(s@ =~= device_label(d) + Seq::<char>::empty());
        },
    }
    s
}

/// The devices of a client, in the order they are created; when one cannot
/// be created, the ones before it are destroyed again.
pub open spec fn creation_order() -> Seq<Device> {
    seq![Device::Stylus, Device::Mouse, Device::Touch, Device::Keyboard]
}

/// The devices a client's backend creates, in order.
pub fn devices_in_creation_order() -> (v: Vec<Device>)
    ensures
        v@ == creation_order(),
{
    let v = vec![Device::Stylus, Device::Mouse, Device::Touch, Device::Keyboard];
    assert(v@ =~= creation_order());
    v
}

/// `events` report `value` on absolute axis `code` (event type `EV_ABS`, 3)
/// of `device`: such an event is among them, and every event for that axis
/// carries that device and value.
pub open spec fn reports_axis(events: Seq<UInputEvent>, device: Device, code: i32, value: i32) -> bool {
    &&& events.contains(UInputEvent { device, typ: 3, code, value })
    &&& forall|i: int|
        0 <= i < events.len() && (#[trigger] events[i]).typ == 3 && events[i].code == code
            ==> events[i].device == device && events[i].value == value
}

/// A touch contact that goes down or moves, and already holds a slot or finds
/// a free one, is reported on the touch device in that slot (`ABS_MT_SLOT`,
/// 0x2f, with the slot as tracking id, 0x39), at its own `x` and `y` (on the
/// multi-touch axes `ABS_MT_POSITION_X`/`_Y`, 0x35/0x36, and on
/// `ABS_X`/`ABS_Y`, 0/1), with its own pressure (`ABS_MT_PRESSURE`, 0x3a),
/// and with the longer of its width and height as major axis (0x30), the
/// shorter as minor axis (0x31) and orientation (0x34) 0 when it is taller
/// than wide, 1 otherwise; a contact going down also presses `BTN_TOUCH`
/// (0x14a).
pub proof fn touch_contact_reports_its_position(s: UInputModel, ev: PointerInput)
    requires
        is_down_or_move(ev.event_type),
        slot_of(s.touches, ev.pointer_id) is Some || free_slot(s.touches) is Some,
    ensures
        ({
            let events = touch_step(s, ev).1;
            let k = match slot_of(s.touches, ev.pointer_id) {
                Some(k) => k,
                None => free_slot(s.touches)->0,
            };
            &&& reports_axis(events, Device::Touch, 0x2f, k as i32)
            &&& reports_axis(events, Device::Touch, 0x39, k as i32)
            &&& reports_axis(
                events,
                Device::Touch,
                0x30,
                if ev.height_ge_width {
                    ev.height
                } else {
                    ev.width
                },
            )
            &&& reports_axis(
                events,
                Device::Touch,
                0x31,
                if ev.height_ge_width {
                    ev.width
                } else {
                    ev.height
                },
            )
            &&& reports_axis(
                events,
                Device::Touch,
                0x34,
                if ev.height_ge_width {
                    0
                } else {
                    1
                },
            )
            &&& reports_axis(events, Device::Touch, 0x35, ev.x)
            &&& reports_axis(events, Device::Touch, 0x36, ev.y)
            &&& reports_axis(events, Device::Touch, 0x00, ev.x)
            &&& reports_axis(events, Device::Touch, 0x01, ev.y)
            &&& reports_axis(events, Device::Touch, 0x3a, ev.pressure)
            &&& ev.event_type == PointerEventType::DOWN ==> events.contains(
                UInputEvent { device: Device::Touch, typ: 1, code: 0x14a, value: 1 },
            )
        }),
{
    let k = match slot_of(s.touches, ev.pointer_id) {
        Some(k) => k,
        None => free_slot(s.touches)->0,
    };
    let events = touch_step(s, ev).1;
    assert(events == touch_contact_events(k, ev));
    let d = Device::Touch;
    let (major, minor, orientation) = if ev.height_ge_width {
        (ev.height, ev.width, 0i32)
    } else {
        (ev.width, ev.height, 1i32)
    };
    let tail = seq![
        event(d, 3, 0x3a, ev.pressure),
        event(d, 3, 0x30, major),
        event(d, 3, 0x31, minor),
        event(d, 3, 0x34, orientation),
        event(d, 3, 0x35, ev.x),
        event(d, 3, 0x36, ev.y),
        event(d, 3, 0x00, ev.x),
        event(d, 3, 0x01, ev.y),
    ] + packet_end(d, ev.timestamp);
    let head = seq![
        event(d, ET_ABSOLUTE, EC_ABS_MT_SLOT, k as i32),
        event(d, ET_ABSOLUTE, EC_ABS_MT_TRACKING_ID, k as i32),
    ];
    if ev.event_type == PointerEventType::DOWN {
        let mid = seq![
            event(d, ET_KEY, EC_KEY_TOUCH, 1),
            event(d, ET_KEY, tool_released(k), 0),
            event(d, ET_KEY, tool_pressed(k), 1),
        ];
        assert(events =~= head + mid + tail);
        assert(events[2] == UInputEvent { device: Device::Touch, typ: 1, code: 0x14a, value: 1 });
        assert(events[0] == UInputEvent { device: Device::Touch, typ: 3, code: 0x2f, value: k as i32 });
        assert(events[1] == UInputEvent { device: Device::Touch, typ: 3, code: 0x39, value: k as i32 });
        assert(events[6int] == UInputEvent { device: Device::Touch, typ: 3, code: 0x30, value: major });
        assert(events[7int] == UInputEvent { device: Device::Touch, typ: 3, code: 0x31, value: minor });
        assert(events[8int] == UInputEvent { device: Device::Touch, typ: 3, code: 0x34, value: orientation });
        assert(events[5int] == UInputEvent { device: Device::Touch, typ: 3, code: 0x3a, value: ev.pressure });
        assert(events[9int] == UInputEvent { device: Device::Touch, typ: 3, code: 0x35, value: ev.x });
        assert(events[10int] == UInputEvent { device: Device::Touch, typ: 3, code: 0x36, value: ev.y });
        assert(events[11int] == UInputEvent { device: Device::Touch, typ: 3, code: 0x00, value: ev.x });
        assert(events[12int] == UInputEvent { device: Device::Touch, typ: 3, code: 0x01, value: ev.y });
    } else {
        assert(events =~= head + tail);
        assert(events[0] == UInputEvent { device: Device::Touch, typ: 3, code: 0x2f, value: k as i32 });
        assert(events[1] == UInputEvent { device: Device::Touch, typ: 3, code: 0x39, value: k as i32 });
        assert(events[3] == UInputEvent { device: Device::Touch, typ: 3, code: 0x30, value: major });
        assert(events[4] == UInputEvent { device: Device::Touch, typ: 3, code: 0x31, value: minor });
        assert(events[5] == UInputEvent { device: Device::Touch, typ: 3, code: 0x34, value: orientation });
        assert(events[2] == UInputEvent { device: Device::Touch, typ: 3, code: 0x3a, value: ev.pressure });
        assert(events[6int] == UInputEvent { device: Device::Touch, typ: 3, code: 0x35, value: ev.x });
        assert(events[7int] == UInputEvent { device: Device::Touch, typ: 3, code: 0x36, value: ev.y });
        assert(events[8int] == UInputEvent { device: Device::Touch, typ: 3, code: 0x00, value: ev.x });
        assert(events[9int] == UInputEvent { device: Device::Touch, typ: 3, code: 0x01, value: ev.y });
    }
}

/// A pen that touches down or moves is reported on the stylus at its own
/// position (`ABS_X`/`ABS_Y`, 0/1), pressure (`ABS_PRESSURE`, 0x18) and tilt
/// (`ABS_TILT_X`/`_Y`, 0x1a/0x1b), whether or not the pen or eraser tool
/// changes; touching down presses `BTN_TOUCH` (0x14a). A pen that is lifted
/// releases `BTN_TOUCH` and reports pressure 0.
pub proof fn pen_reports_position_pressure_and_tilt(active: bool, ev: PointerInput)
    ensures
        ({
            let events = pen_step(active, ev).1;
            &&& is_down_or_move(ev.event_type) ==> {
                &&& reports_axis(events, Device::Stylus, 0x00, ev.x)
                &&& reports_axis(events, Device::Stylus, 0x01, ev.y)
                &&& reports_axis(events, Device::Stylus, 0x18, ev.pressure)
                &&& reports_axis(events, Device::Stylus, 0x1a, ev.tilt_x)
                &&& reports_axis(events, Device::Stylus, 0x1b, ev.tilt_y)
            }
            &&& ev.event_type == PointerEventType::DOWN ==> events.contains(
                UInputEvent { device: Device::Stylus, typ: 1, code: 0x14a, value: 1 },
            )
            &&& is_up_or_cancel(ev.event_type) ==> {
                &&& reports_axis(events, Device::Stylus, 0x18, 0)
                &&& events.contains(
                    UInputEvent { device: Device::Stylus, typ: 1, code: 0x14a, value: 0 },
                )
            }
        }),
{
    let d = Device::Stylus;
    let events = pen_step(active, ev).1;
    if is_down_or_move(ev.event_type) {
        let touch = if ev.event_type == PointerEventType::DOWN {
            seq![event(d, ET_KEY, EC_KEY_TOUCH, 1)]
        } else {
            Seq::empty()
        };
        let select_pen = !active && ev.buttons.spec_bits() & 0b0010_0000 == 0;
        let pen = if select_pen {
            seq![event(d, ET_KEY, EC_KEY_TOOL_PEN, 1), event(d, ET_KEY, EC_KEY_TOOL_RUBBER, 0)]
        } else {
            Seq::empty()
        };
        let eraser = ev.button.spec_bits() == 0b0010_0000;
        let rubber = if eraser {
            seq![event(d, ET_KEY, EC_KEY_TOOL_PEN, 0), event(d, ET_KEY, EC_KEY_TOOL_RUBBER, 1)]
        } else {
            Seq::empty()
        };
        let keys = touch + pen + rubber;
        let axes = seq![
            event(d, 3, 0x00, ev.x),
            event(d, 3, 0x01, ev.y),
            event(d, 3, 0x18, ev.pressure),
            event(d, 3, 0x1a, ev.tilt_x),
            event(d, 3, 0x1b, ev.tilt_y),
        ];
        let end = packet_end(d, ev.timestamp);
        assert(events =~= keys + axes + end);
        assert forall|i: int| 0 <= i < keys.len() implies (#[trigger] keys[i]).typ == 1 by {
            if i < touch.len() {
                assert(keys[i] == touch[i]);
            } else if i < touch.len() + pen.len() {
                assert(keys[i] == pen[i - touch.len()]);
            } else {
                assert(keys[i] == rubber[i - touch.len() - pen.len()]);
            }
        }
        let n = keys.len() as int;
        assert forall|i: int| 0 <= i < events.len() && (#[trigger] events[i]).typ == 3 implies n
            <= i < n + 5 && events[i] == axes[i - n] by {
            if i < n {
                assert(events[i] == keys[i]);
            } else if i >= n + 5 {
                assert(events[i] == end[i - n - 5]);
            }
        }
        assert(events[n] == UInputEvent { device: d, typ: 3, code: 0x00, value: ev.x });
        assert(events[n + 1] == UInputEvent { device: d, typ: 3, code: 0x01, value: ev.y });
        assert(events[n + 2] == UInputEvent { device: d, typ: 3, code: 0x18, value: ev.pressure });
        assert(events[n + 3] == UInputEvent { device: d, typ: 3, code: 0x1a, value: ev.tilt_x });
        assert(events[n + 4] == UInputEvent { device: d, typ: 3, code: 0x1b, value: ev.tilt_y });
        if ev.event_type == PointerEventType::DOWN {
            assert(events[0] == UInputEvent { device: d, typ: 1, code: 0x14a, value: 1 });
        }
    } else if is_up_or_cancel(ev.event_type) {
        assert(events[0] == UInputEvent { device: d, typ: 1, code: 0x14a, value: 0 });
        assert(events[3] == UInputEvent { device: d, typ: 3, code: 0x18, value: 0 });
    }
}

/// The evdev key of a single mouse button: `BTN_LEFT` (0x110) for the primary
/// button (bits 1), `BTN_RIGHT` (0x111) for the secondary one (bits 2) and
/// `BTN_MIDDLE` (0x112) for the auxiliary one (bits 4).
pub open spec fn evdev_mouse_button(bits: u8) -> int {
    if bits == 1 {
        0x110
    } else if bits == 2 {
        0x111
    } else {
        0x112
    }
}

/// A mouse button going down presses (value 1), and going up or being
/// cancelled releases (value 0), the evdev key of that very button, as the
/// first event; any other button value sends no key at all. A mouse that goes
/// down or moves is reported at its own position (`ABS_X`/`ABS_Y`, 0/1).
pub proof fn mouse_buttons_press_their_own_key(ev: PointerInput)
    ensures
        ({
            let events = mouse_events(ev);
            let bits = ev.button.spec_bits();
            let single = bits == 1 || bits == 2 || bits == 4;
            &&& single && ev.event_type == PointerEventType::DOWN ==> events[0] == UInputEvent {
                device: Device::Mouse,
                typ: 1,
                code: evdev_mouse_button(bits) as i32,
                value: 1,
            }
            &&& single && is_up_or_cancel(ev.event_type) ==> events[0] == UInputEvent {
                device: Device::Mouse,
                typ: 1,
                code: evdev_mouse_button(bits) as i32,
                value: 0,
            }
            &&& !single ==> forall|i: int| 0 <= i < events.len() ==> (#[trigger] events[i]).typ != 1
            &&& is_down_or_move(ev.event_type) ==> {
                &&& reports_axis(events, Device::Mouse, 0x00, ev.x)
                &&& reports_axis(events, Device::Mouse, 0x01, ev.y)
            }
        }),
{
    let d = Device::Mouse;
    let events = mouse_events(ev);
    let end = packet_end(d, ev.timestamp);
    if is_down_or_move(ev.event_type) {
        let keys = if ev.event_type == PointerEventType::DOWN {
            mouse_key_events(ev.button, 1)
        } else {
            Seq::empty()
        };
        let axes = seq![event(d, ET_ABSOLUTE, EC_ABSOLUTE_X, ev.x), event(d, ET_ABSOLUTE, EC_ABSOLUTE_Y, ev.y)];
        assert(events =~= keys + axes + end);
        let n = keys.len() as int;
        assert(n <= 1);
        assert forall|i: int| 0 <= i < events.len() && (#[trigger] events[i]).typ == 3 implies n
            <= i < n + 2 && events[i] == axes[i - n] by {
            if i < n {
                assert(events[i] == keys[i]);
            } else if i >= n + 2 {
                assert(events[i] == end[i - n - 2]);
            }
        }
        assert(events[n] == UInputEvent { device: d, typ: 3, code: 0x00, value: ev.x });
        assert(events[n + 1] == UInputEvent { device: d, typ: 3, code: 0x01, value: ev.y });
        assert forall|i: int| 0 <= i < events.len() && mouse_key(ev.button) is None implies (
        #[trigger] events[i]).typ != 1 by {
            if i >= n + 2 {
                assert(events[i] == end[i - n - 2]);
            }
        }
    } else if is_up_or_cancel(ev.event_type) {
        let keys = mouse_key_events(ev.button, 0);
        assert(events =~= keys + end);
        assert forall|i: int| 0 <= i < events.len() && mouse_key(ev.button) is None implies (
        #[trigger] events[i]).typ != 1 by {
            assert(events[i] == end[i]);
        }
    } else {
        assert forall|i: int| 0 <= i < events.len() implies (#[trigger] events[i]).typ != 1 by {
            assert(events[i] == end[i]);
        }
    }
}

/// The evdev value of a key event: 0 when released, 1 when pressed, 2 when
/// repeated.
pub open spec fn evdev_key_value(t: KeyboardEventType) -> i32 {
    if t == KeyboardEventType::UP {
        0
    } else if t == KeyboardEventType::DOWN {
        1
    } else {
        2
    }
}

/// A key event of the keyboard device (`EV_KEY`, 1).
pub open spec fn keyboard_key(code: i32, value: i32) -> UInputEvent {
    UInputEvent { device: Device::Keyboard, typ: 1, code, value }
}

/// A known key is sent with each held modifier on its own key: Ctrl on
/// `KEY_LEFTCTRL` (29), Alt on `KEY_LEFTALT` (56), Meta on `KEY_LEFTMETA`
/// (125) and Shift on `KEY_LEFTSHIFT` (42), all in the key's state; a held
/// Ctrl comes first. No modifier key is sent that is not held (unless it is
/// the key itself), and the key itself comes last before the closing report.
pub proof fn keyboard_modifiers_press_their_own_keys(
    code: Seq<char>,
    key: Seq<char>,
    ev: KeyboardEvent,
)
    requires
        key_code_of(code, ev.location) != KEY_UNKNOWN,
    ensures
        ({
            let events = keyboard_events(code, key, ev);
            let k = key_code_of(code, ev.location);
            let state = evdev_key_value(ev.event_type);
            &&& events.len() >= 2
            &&& events[events.len() - 2] == keyboard_key(k, state)
            &&& events[events.len() - 1] == UInputEvent {
                device: Device::Keyboard,
                typ: 0,
                code: 0,
                value: 0,
            }
            &&& ev.ctrl ==> events[0] == keyboard_key(29, state)
            &&& ev.alt ==> events.contains(keyboard_key(56, state))
            &&& ev.meta ==> events.contains(keyboard_key(125, state))
            &&& ev.shift ==> events.contains(keyboard_key(42, state))
            &&& forall|i: int|
                0 <= i < events.len() && (#[trigger] events[i]).typ == 1 ==> events[i].device
                    == Device::Keyboard && events[i].value == state && (events[i].code == 29
                    ==> ev.ctrl || k == 29) && (events[i].code == 56 ==> ev.alt || k == 56) && (
                events[i].code == 125 ==> ev.meta || k == 125) && (events[i].code == 42
                    ==> ev.shift || k == 42)
        }),
{
    let events = keyboard_events(code, key, ev);
    let k = key_code_of(code, ev.location);
    let state = key_state(ev.event_type);
    assert(state == evdev_key_value(ev.event_type));
    let m1 = modifier_events(ev.ctrl, KEY_LEFTCTRL, state);
    let m2 = modifier_events(ev.alt, KEY_LEFTALT, state);
    let m3 = modifier_events(ev.meta, KEY_LEFTMETA, state);
    let m4 = modifier_events(ev.shift, KEY_LEFTSHIFT, state);
    let tail = seq![key_event(k, state), keyboard_sync()];
    assert(events == m1 + m2 + m3 + m4 + tail);
    let a = m1.len() as int;
    let b = a + m2.len();
    let c = b + m3.len();
    let e = c + m4.len();
    assert(events.len() == e + 2);
    assert(events[e] == tail[0]);
    assert(events[e + 1] == tail[1]);
    if ev.ctrl {
        assert(events[0] == m1[0]);
    }
    if ev.alt {
        assert(events[a] == m2[0]);
    }
    if ev.meta {
        assert(events[b] == m3[0]);
    }
    if ev.shift {
        assert(events[c] == m4[0]);
    }
    assert forall|i: int| 0 <= i < events.len() && (#[trigger] events[i]).typ == 1 implies events[i].device
        == Device::Keyboard && events[i].value == state && (events[i].code == 29 ==> ev.ctrl || k
        == 29) && (events[i].code == 56 ==> ev.alt || k == 56) && (events[i].code == 125
        ==> ev.meta || k == 125) && (events[i].code == 42 ==> ev.shift || k == 42) by {
        if i < a {
            assert(events[i] == m1[i]);
        } else if i < b {
            assert(events[i] == m2[i - a]);
        } else if i < c {
            assert(events[i] == m3[i - b]);
        } else if i < e {
            assert(events[i] == m4[i - c]);
        } else {
            assert(events[i] == tail[i - e]);
        }
    }
}

/// A touch contact that is lifted or cancelled while it holds a slot is
/// reported in that slot (`ABS_MT_SLOT`, 0x2f) with tracking id -1 (0x39) and
/// releases `BTN_TOUCH` (0x14a); one that holds no slot sends nothing.
pub proof fn touch_lift_reports_its_slot(s: UInputModel, ev: PointerInput)
    requires
        is_up_or_cancel(ev.event_type),
    ensures
        ({
            let events = touch_step(s, ev).1;
            &&& slot_of(s.touches, ev.pointer_id) matches Some(k) ==> {
                &&& reports_axis(events, Device::Touch, 0x2f, k as i32)
                &&& reports_axis(events, Device::Touch, 0x39, -1i32)
                &&& events.contains(
                    UInputEvent { device: Device::Touch, typ: 1, code: 0x14a, value: 0 },
                )
            }
            &&& slot_of(s.touches, ev.pointer_id) is None ==> events.len() == 0
        }),
{
    let events = touch_step(s, ev).1;
    match slot_of(s.touches, ev.pointer_id) {
        Some(k) => {
            let d = Device::Touch;
            let head = seq![
                event(d, ET_ABSOLUTE, EC_ABS_MT_SLOT, k as i32),
                event(d, ET_ABSOLUTE, EC_ABS_MT_TRACKING_ID, -1i32),
                event(d, ET_KEY, EC_KEY_TOUCH, 0),
                event(d, ET_KEY, EC_KEY_TOOL_FINGER, 0),
            ];
            let mid = if 1 <= k <= 4 {
                seq![event(d, ET_KEY, tool_pressed(k), 0)]
            } else {
                Seq::<UInputEvent>::empty()
            };
            let end = packet_end(d, ev.timestamp);
            assert(events =~= head + mid + end);
            let n = 4 + mid.len();
            assert forall|i: int| 0 <= i < events.len() && (#[trigger] events[i]).typ == 3 implies i
                < 2 by {
                if 4 <= i < n {
                    assert(events[i] == mid[i - 4]);
                } else if i >= n {
                    assert(events[i] == end[i - n]);
                }
            }
            assert(events[0] == UInputEvent { device: d, typ: 3, code: 0x2f, value: k as i32 });
            assert(events[1] == UInputEvent { device: d, typ: 3, code: 0x39, value: -1i32 });
            assert(events[2] == UInputEvent { device: d, typ: 1, code: 0x14a, value: 0 });
        },
        None => {},
    }
}

/// The sign of a number: -1, 0 or 1.
pub open spec fn sign_of(v: i32) -> i32 {
    if v < 0 {
        -1i32
    } else if v > 0 {
        1i32
    } else {
        0i32
    }
}

/// A wheel event moves the wheels (`EV_REL`, 2) one notch in the direction of
/// its vertical movement (`REL_WHEEL` 8 and `REL_HWHEEL` 6) and by its
/// horizontal movement in high resolution (`REL_WHEEL_HI_RES` 0x0b and
/// `REL_HWHEEL_HI_RES` 0x0c), on the mouse, then closes the packet.
pub proof fn wheel_moves_by_the_event(ev: WheelEvent)
    ensures
        ({
            let events = wheel_events(ev);
            &&& events.len() == 6
            &&& events[0] == UInputEvent { device: Device::Mouse, typ: 2, code: 8, value: sign_of(ev.dy) }
            &&& events[1] == UInputEvent { device: Device::Mouse, typ: 2, code: 6, value: sign_of(ev.dy) }
            &&& events[2] == UInputEvent { device: Device::Mouse, typ: 2, code: 0x0b, value: ev.dx }
            &&& events[3] == UInputEvent { device: Device::Mouse, typ: 2, code: 0x0c, value: ev.dx }
            &&& events[5] == UInputEvent { device: Device::Mouse, typ: 0, code: 0, value: 0 }
        }),
{
}

/// Pen tools: a pen event with the eraser button (bits 0x20) selects the
/// rubber (`BTN_TOOL_RUBBER` 0x141 pressed, `BTN_TOOL_PEN` 0x140 released)
/// and leaves the pen tool inactive; a pen event without it, while the pen
/// tool is not active and the eraser is not among the held buttons, selects
/// the pen (0x140 pressed, 0x141 released) and makes the pen tool active.
pub proof fn pen_selects_its_tool(active: bool, ev: PointerInput)
    requires
        is_down_or_move(ev.event_type),
    ensures
        ({
            let (now_active, events) = pen_step(active, ev);
            &&& ev.button.spec_bits() == 0x20 ==> {
                &&& !now_active
                &&& events.contains(UInputEvent { device: Device::Stylus, typ: 1, code: 0x141, value: 1 })
                &&& events.contains(UInputEvent { device: Device::Stylus, typ: 1, code: 0x140, value: 0 })
            }
            &&& ev.button.spec_bits() != 0x20 && !active && ev.buttons.spec_bits() & 0x20 == 0 ==> {
                &&& now_active
                &&& events.contains(UInputEvent { device: Device::Stylus, typ: 1, code: 0x140, value: 1 })
                &&& events.contains(UInputEvent { device: Device::Stylus, typ: 1, code: 0x141, value: 0 })
            }
        }),
{
    let d = Device::Stylus;
    let events = pen_step(active, ev).1;
    let touch = if ev.event_type == PointerEventType::DOWN {
        seq![event(d, ET_KEY, EC_KEY_TOUCH, 1)]
    } else {
        Seq::empty()
    };
    let select_pen = !active && ev.buttons.spec_bits() & 0b0010_0000 == 0;
    let pen = if select_pen {
        seq![event(d, ET_KEY, EC_KEY_TOOL_PEN, 1), event(d, ET_KEY, EC_KEY_TOOL_RUBBER, 0)]
    } else {
        Seq::empty()
    };
    let eraser = ev.button.spec_bits() == 0b0010_0000;
    let rubber = if eraser {
        seq![event(d, ET_KEY, EC_KEY_TOOL_PEN, 0), event(d, ET_KEY, EC_KEY_TOOL_RUBBER, 1)]
    } else {
        Seq::empty()
    };
    let rest = seq![
        event(d, 3, 0x00, ev.x),
        event(d, 3, 0x01, ev.y),
        event(d, 3, 0x18, ev.pressure),
        event(d, 3, 0x1a, ev.tilt_x),
        event(d, 3, 0x1b, ev.tilt_y),
    ] + packet_end(d, ev.timestamp);
    assert(events =~= touch + pen + rubber + rest);
    let t = touch.len() as int;
    let p = pen.len() as int;
    if eraser {
        assert(events[t + p] == rubber[0]);
        assert(events[t + p + 1] == rubber[1]);
    }
    if !eraser && select_pen {
        assert(events[t] == pen[0]);
        assert(events[t + 1] == pen[1]);
    }
}

/// An unknown key that goes down with some text is typed as Unicode input:
/// Ctrl, Shift and U (29, 42, 22) are pressed first and released last, with
/// four events per hexadecimal digit of the text in between. An unknown key
/// that does not go down, or carries no text, sends nothing.
pub proof fn unknown_keys_are_typed_as_unicode(code: Seq<char>, key: Seq<char>, ev: KeyboardEvent)
    requires
        key_code_of(code, ev.location) == KEY_UNKNOWN,
    ensures
        ({
            let events = keyboard_events(code, key, ev);
            let sync = UInputEvent { device: Device::Keyboard, typ: 0, code: 0, value: 0 };
            &&& ev.event_type == KeyboardEventType::DOWN && key.len() > 0 ==> {
                &&& events.len() == 8 + 4 * unicode_hex(key).len()
                &&& events.take(4) == seq![
                    keyboard_key(29, 1),
                    keyboard_key(42, 1),
                    keyboard_key(22, 1),
                    sync,
                ]
                &&& events.skip(events.len() - 4) == seq![
                    keyboard_key(29, 0),
                    keyboard_key(42, 0),
                    keyboard_key(22, 0),
                    sync,
                ]
            }
            &&& !(ev.event_type == KeyboardEventType::DOWN && key.len() > 0) ==> events.len() == 0
        }),
{
    if ev.event_type == KeyboardEventType::DOWN && key.len() > 0 {
        let h = unicode_hex(key);
        let events = keyboard_events(code, key, ev);
        lemma_typed_digits_len(h);
        let head = seq![
            key_event(KEY_LEFTCTRL, 1),
            key_event(KEY_LEFTSHIFT, 1),
            key_event(KEY_U, 1),
            keyboard_sync(),
        ];
        let tail = seq![
            key_event(KEY_LEFTCTRL, 0),
            key_event(KEY_LEFTSHIFT, 0),
            key_event(KEY_U, 0),
            keyboard_sync(),
        ];
        assert(events == head + typed_digits(h) + tail);
        assert(events.take(4) =~= head);
        assert(events.skip(events.len() - 4) =~= tail);
    }
}

proof fn lemma_typed_digits_len(h: Seq<char>)
    ensures
        typed_digits(h).len() == 4 * h.len(),
    decreases h.len(),
{
    if h.len() > 0 {
        lemma_typed_digits_len(h.drop_last());
    }
}

} // verus!
