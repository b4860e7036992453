//! Linux key codes and the map from browser `KeyboardEvent.code` values to them.

use vstd::prelude::*;
use crate::protocol::KeyboardLocation;
use crate::text::str_equal;

verus! {

pub const KEY_ESC: i32 = 1;
pub const KEY_1: i32 = 2;
pub const KEY_2: i32 = 3;
pub const KEY_3: i32 = 4;
pub const KEY_4: i32 = 5;
pub const KEY_5: i32 = 6;
pub const KEY_6: i32 = 7;
pub const KEY_7: i32 = 8;
pub const KEY_8: i32 = 9;
pub const KEY_9: i32 = 10;
pub const KEY_0: i32 = 11;
pub const KEY_MINUS: i32 = 12;
pub const KEY_EQUAL: i32 = 13;
pub const KEY_BACKSPACE: i32 = 14;
pub const KEY_TAB: i32 = 15;
pub const KEY_Q: i32 = 16;
pub const KEY_W: i32 = 17;
pub const KEY_E: i32 = 18;
pub const KEY_R: i32 = 19;
pub const KEY_T: i32 = 20;
pub const KEY_Y: i32 = 21;
pub const KEY_U: i32 = 22;
pub const KEY_I: i32 = 23;
pub const KEY_O: i32 = 24;
pub const KEY_P: i32 = 25;
pub const KEY_LEFTBRACE: i32 = 26;
pub const KEY_RIGHTBRACE: i32 = 27;
pub const KEY_ENTER: i32 = 28;
pub const KEY_LEFTCTRL: i32 = 29;
pub const KEY_A: i32 = 30;
pub const KEY_S: i32 = 31;
pub const KEY_D: i32 = 32;
pub const KEY_F: i32 = 33;
pub const KEY_G: i32 = 34;
pub const KEY_H: i32 = 35;
pub const KEY_J: i32 = 36;
pub const KEY_K: i32 = 37;
pub const KEY_L: i32 = 38;
pub const KEY_SEMICOLON: i32 = 39;
pub const KEY_APOSTROPHE: i32 = 40;
pub const KEY_GRAVE: i32 = 41;
pub const KEY_LEFTSHIFT: i32 = 42;
pub const KEY_BACKSLASH: i32 = 43;
pub const KEY_Z: i32 = 44;
pub const KEY_X: i32 = 45;
pub const KEY_C: i32 = 46;
pub const KEY_V: i32 = 47;
pub const KEY_B: i32 = 48;
pub const KEY_N: i32 = 49;
pub const KEY_M: i32 = 50;
pub const KEY_COMMA: i32 = 51;
pub const KEY_DOT: i32 = 52;
pub const KEY_SLASH: i32 = 53;
pub const KEY_RIGHTSHIFT: i32 = 54;
pub const KEY_KPASTERISK: i32 = 55;
pub const KEY_LEFTALT: i32 = 56;
pub const KEY_SPACE: i32 = 57;
pub const KEY_CAPSLOCK: i32 = 58;
pub const KEY_F1: i32 = 59;
pub const KEY_F2: i32 = 60;
pub const KEY_F3: i32 = 61;
pub const KEY_F4: i32 = 62;
pub const KEY_F5: i32 = 63;
pub const KEY_F6: i32 = 64;
pub const KEY_F7: i32 = 65;
pub const KEY_F8: i32 = 66;
pub const KEY_F9: i32 = 67;
pub const KEY_F10: i32 = 68;
pub const KEY_NUMLOCK: i32 = 69;
pub const KEY_SCROLLLOCK: i32 = 70;
pub const KEY_KP7: i32 = 71;
pub const KEY_KP8: i32 = 72;
pub const KEY_KP9: i32 = 73;
pub const KEY_KPMINUS: i32 = 74;
pub const KEY_KP4: i32 = 75;
pub const KEY_KP5: i32 = 76;
pub const KEY_KP6: i32 = 77;
pub const KEY_KPPLUS: i32 = 78;
pub const KEY_KP1: i32 = 79;
pub const KEY_KP2: i32 = 80;
pub const KEY_KP3: i32 = 81;
pub const KEY_KP0: i32 = 82;
pub const KEY_102ND: i32 = 86;
pub const KEY_F11: i32 = 87;
pub const KEY_F12: i32 = 88;
pub const KEY_RO: i32 = 89;
pub const KEY_KATAKANA: i32 = 90;
pub const KEY_KPENTER: i32 = 96;
pub const KEY_RIGHTCTRL: i32 = 97;
pub const KEY_KPSLASH: i32 = 98;
pub const KEY_SYSRQ: i32 = 99;
pub const KEY_RIGHTALT: i32 = 100;
pub const KEY_HOME: i32 = 102;
pub const KEY_UP: i32 = 103;
pub const KEY_PAGEUP: i32 = 104;
pub const KEY_LEFT: i32 = 105;
pub const KEY_RIGHT: i32 = 106;
pub const KEY_END: i32 = 107;
pub const KEY_DOWN: i32 = 108;
pub const KEY_PAGEDOWN: i32 = 109;
pub const KEY_INSERT: i32 = 110;
pub const KEY_DELETE: i32 = 111;
pub const KEY_MUTE: i32 = 113;
pub const KEY_VOLUMEDOWN: i32 = 114;
pub const KEY_VOLUMEUP: i32 = 115;
pub const KEY_POWER: i32 = 116;
pub const KEY_KPEQUAL: i32 = 117;
pub const KEY_PAUSE: i32 = 119;
pub const KEY_KPCOMMA: i32 = 121;
pub const KEY_HANGUEL: i32 = 122;
pub const KEY_HANJA: i32 = 123;
pub const KEY_YEN: i32 = 124;
pub const KEY_LEFTMETA: i32 = 125;
pub const KEY_RIGHTMETA: i32 = 126;
pub const KEY_AGAIN: i32 = 129;
pub const KEY_PROPS: i32 = 130;
pub const KEY_UNDO: i32 = 131;
pub const KEY_COPY: i32 = 133;
pub const KEY_OPEN: i32 = 134;
pub const KEY_PASTE: i32 = 135;
pub const KEY_FIND: i32 = 136;
pub const KEY_CUT: i32 = 137;
pub const KEY_HELP: i32 = 138;
pub const KEY_MENU: i32 = 139;
pub const KEY_SLEEP: i32 = 142;
pub const KEY_WAKEUP: i32 = 143;
pub const KEY_MAIL: i32 = 155;
pub const KEY_EJECTCD: i32 = 161;
pub const KEY_NEXTSONG: i32 = 163;
pub const KEY_PLAYPAUSE: i32 = 164;
pub const KEY_PREVIOUSSONG: i32 = 165;
pub const KEY_STOPCD: i32 = 166;
pub const KEY_KPLEFTPAREN: i32 = 179;
pub const KEY_KPRIGHTPAREN: i32 = 180;
pub const KEY_F13: i32 = 183;
pub const KEY_F14: i32 = 184;
pub const KEY_F15: i32 = 185;
pub const KEY_F16: i32 = 186;
pub const KEY_F17: i32 = 187;
pub const KEY_F18: i32 = 188;
pub const KEY_F19: i32 = 189;
pub const KEY_F20: i32 = 190;
pub const KEY_F21: i32 = 191;
pub const KEY_F22: i32 = 192;
pub const KEY_F23: i32 = 193;
pub const KEY_F24: i32 = 194;
pub const KEY_CANCEL: i32 = 223;
pub const KEY_MEDIA: i32 = 226;
pub const KEY_UNKNOWN: i32 = 240;

/// The key code a browser key code names at a keyboard location; digits,
/// minus, equal and enter on the numeric pad map to the keypad keys.
pub open spec fn key_code_of(code: Seq<char>, location: KeyboardLocation) -> i32 {
    if code == "Escape"@ {
        KEY_ESC
    } else if code == "Digit0"@ && location == KeyboardLocation::NUMPAD {
        KEY_KP0
    } else if code == "Digit1"@ && location == KeyboardLocation::NUMPAD {
        KEY_KP1
    } else if code == "Digit2"@ && location == KeyboardLocation::NUMPAD {
        KEY_KP2
    } else if code == "Digit3"@ && location == KeyboardLocation::NUMPAD {
        KEY_KP3
    } else if code == "Digit4"@ && location == KeyboardLocation::NUMPAD {
        KEY_KP4
    } else if code == "Digit5"@ && location == KeyboardLocation::NUMPAD {
        KEY_KP5
    } else if code == "Digit6"@ && location == KeyboardLocation::NUMPAD {
        KEY_KP6
    } else if code == "Digit7"@ && location == KeyboardLocation::NUMPAD {
        KEY_KP7
    } else if code == "Digit8"@ && location == KeyboardLocation::NUMPAD {
        KEY_KP8
    } else if code == "Digit9"@ && location == KeyboardLocation::NUMPAD {
        KEY_KP9
    } else if code == "Minus"@ && location == KeyboardLocation::NUMPAD {
        KEY_KPMINUS
    } else if code == "Equal"@ && location == KeyboardLocation::NUMPAD {
        KEY_KPEQUAL
    } else if code == "Enter"@ && location == KeyboardLocation::NUMPAD {
        KEY_KPENTER
    } else if code == "Digit0"@ {
        KEY_0
    } else if code == "Digit1"@ {
        KEY_1
    } else if code == "Digit2"@ {
        KEY_2
    } else if code == "Digit3"@ {
        KEY_3
    } else if code == "Digit4"@ {
        KEY_4
    } else if code == "Digit5"@ {
        KEY_5
    } else if code == "Digit6"@ {
        KEY_6
    } else if code == "Digit7"@ {
        KEY_7
    } else if code == "Digit8"@ {
        KEY_8
    } else if code == "Digit9"@ {
        KEY_9
    } else if code == "Minus"@ {
        KEY_MINUS
    } else if code == "Equal"@ {
        KEY_EQUAL
    } else if code == "Enter"@ {
        KEY_ENTER
    } else if code == "Backspace"@ {
        KEY_BACKSPACE
    } else if code == "Tab"@ {
        KEY_TAB
    } else if code == "KeyA"@ {
        KEY_A
    } else if code == "KeyB"@ {
        KEY_B
    } else if code == "KeyC"@ {
        KEY_C
    } else if code == "KeyD"@ {
        KEY_D
    } else if code == "KeyE"@ {
        KEY_E
    } else if code == "KeyF"@ {
        KEY_F
    } else if code == "KeyG"@ {
        KEY_G
    } else if code == "KeyH"@ {
        KEY_H
    } else if code == "KeyI"@ {
        KEY_I
    } else if code == "KeyJ"@ {
        KEY_J
    } else if code == "KeyK"@ {
        KEY_K
    } else if code == "KeyL"@ {
        KEY_L
    } else if code == "KeyM"@ {
        KEY_M
    } else if code == "KeyN"@ {
        KEY_N
    } else if code == "KeyO"@ {
        KEY_O
    } else if code == "KeyP"@ {
        KEY_P
    } else if code == "KeyQ"@ {
        KEY_Q
    } else if code == "KeyR"@ {
        KEY_R
    } else if code == "KeyS"@ {
        KEY_S
    } else if code == "KeyT"@ {
        KEY_T
    } else if code == "KeyU"@ {
        KEY_U
    } else if code == "KeyV"@ {
        KEY_V
    } else if code == "KeyW"@ {
        KEY_W
    } else if code == "KeyX"@ {
        KEY_X
    } else if code == "KeyY"@ {
        KEY_Y
    } else if code == "KeyZ"@ {
        KEY_Z
    } else if code == "BracketLeft"@ {
        KEY_LEFTBRACE
    } else if code == "BracketRight"@ {
        KEY_RIGHTBRACE
    } else if code == "Semicolon"@ {
        KEY_SEMICOLON
    } else if code == "Quote"@ {
        KEY_APOSTROPHE
    } else if code == "Backquote"@ {
        KEY_GRAVE
    } else if code == "Backslash"@ {
        KEY_BACKSLASH
    } else if code == "Comma"@ {
        KEY_COMMA
    } else if code == "Period"@ {
        KEY_DOT
    } else if code == "Slash"@ {
        KEY_SLASH
    } else if code == "Space"@ {
        KEY_SPACE
    } else if code == "CapsLock"@ {
        KEY_CAPSLOCK
    } else if code == "NumpadMultiply"@ {
        KEY_KPASTERISK
    } else if code == "F1"@ {
        KEY_F1
    } else if code == "F2"@ {
        KEY_F2
    } else if code == "F3"@ {
        KEY_F3
    } else if code == "F4"@ {
        KEY_F4
    } else if code == "F5"@ {
        KEY_F5
    } else if code == "F6"@ {
        KEY_F6
    } else if code == "F7"@ {
        KEY_F7
    } else if code == "F8"@ {
        KEY_F8
    } else if code == "F9"@ {
        KEY_F9
    } else if code == "F10"@ {
        KEY_F10
    } else if code == "F11"@ {
        KEY_F11
    } else if code == "F12"@ {
        KEY_F12
    } else if code == "F13"@ {
        KEY_F13
    } else if code == "F14"@ {
        KEY_F14
    } else if code == "F15"@ {
        KEY_F15
    } else if code == "F16"@ {
        KEY_F16
    } else if code == "F17"@ {
        KEY_F17
    } else if code == "F18"@ {
        KEY_F18
    } else if code == "F19"@ {
        KEY_F19
    } else if code == "F20"@ {
        KEY_F20
    } else if code == "F21"@ {
        KEY_F21
    } else if code == "F22"@ {
        KEY_F22
    } else if code == "F23"@ {
        KEY_F23
    } else if code == "F24"@ {
        KEY_F24
    } else if code == "NumLock"@ {
        KEY_NUMLOCK
    } else if code == "ScrollLock"@ {
        KEY_SCROLLLOCK
    } else if code == "Numpad0"@ {
        KEY_KP0
    } else if code == "Numpad1"@ {
        KEY_KP1
    } else if code == "Numpad2"@ {
        KEY_KP2
    } else if code == "Numpad3"@ {
        KEY_KP3
    } else if code == "Numpad4"@ {
        KEY_KP4
    } else if code == "Numpad5"@ {
        KEY_KP5
    } else if code == "Numpad6"@ {
        KEY_KP6
    } else if code == "Numpad7"@ {
        KEY_KP7
    } else if code == "Numpad8"@ {
        KEY_KP8
    } else if code == "Numpad9"@ {
        KEY_KP9
    } else if code == "NumpadSubtract"@ {
        KEY_KPMINUS
    } else if code == "NumpadAdd"@ {
        KEY_KPPLUS
    } else if code == "IntlBackslash"@ {
        KEY_102ND
    } else if code == "IntlRo"@ {
        KEY_RO
    } else if code == "NumpadEnter"@ {
        KEY_KPENTER
    } else if code == "NumpadDivide"@ {
        KEY_KPSLASH
    } else if code == "NumpadEqual"@ {
        KEY_KPEQUAL
    } else if code == "NumpadComma"@ {
        KEY_KPCOMMA
    } else if code == "NumpadParenLeft"@ {
        KEY_KPLEFTPAREN
    } else if code == "NumpadParenRight"@ {
        KEY_KPRIGHTPAREN
    } else if code == "KanaMode"@ {
        KEY_KATAKANA
    } else if code == "PrintScreen"@ {
        KEY_SYSRQ
    } else if code == "Home"@ {
        KEY_HOME
    } else if code == "ArrowUp"@ {
        KEY_UP
    } else if code == "PageUp"@ {
        KEY_PAGEUP
    } else if code == "ArrowLeft"@ {
        KEY_LEFT
    } else if code == "ArrowRight"@ {
        KEY_RIGHT
    } else if code == "End"@ {
        KEY_END
    } else if code == "ArrowDown"@ {
        KEY_DOWN
    } else if code == "PageDown"@ {
        KEY_PAGEDOWN
    } else if code == "Insert"@ {
        KEY_INSERT
    } else if code == "Delete"@ {
        KEY_DELETE
    } else if code == "VolumeMute"@ {
        KEY_MUTE
    } else if code == "AudioVolumeMute"@ {
        KEY_MUTE
    } else if code == "VolumeDown"@ {
        KEY_VOLUMEDOWN
    } else if code == "AudioVolumeDown"@ {
        KEY_VOLUMEDOWN
    } else if code == "VolumeUp"@ {
        KEY_VOLUMEUP
    } else if code == "AudioVolumeUp"@ {
        KEY_VOLUMEUP
    } else if code == "Pause"@ {
        KEY_PAUSE
    } else if code == "Lang1"@ {
        KEY_HANGUEL
    } else if code == "Lang2"@ {
        KEY_HANJA
    } else if code == "IntlYen"@ {
        KEY_YEN
    } else if code == "OSLeft"@ {
        KEY_LEFTMETA
    } else if code == "OSRight"@ {
        KEY_RIGHTMETA
    } else if code == "ContextMenu"@ {
        KEY_MENU
    } else if code == "Cancel"@ {
        KEY_CANCEL
    } else if code == "Again"@ {
        KEY_AGAIN
    } else if code == "Props"@ {
        KEY_PROPS
    } else if code == "Undo"@ {
        KEY_UNDO
    } else if code == "Copy"@ {
        KEY_COPY
    } else if code == "Open"@ {
        KEY_OPEN
    } else if code == "Paste"@ {
        KEY_PASTE
    } else if code == "Find"@ {
        KEY_FIND
    } else if code == "Cut"@ {
        KEY_CUT
    } else if code == "Help"@ {
        KEY_HELP
    } else if code == "LaunchMail"@ {
        KEY_MAIL
    } else if code == "Eject"@ {
        KEY_EJECTCD
    } else if code == "MediaTrackNext"@ {
        KEY_NEXTSONG
    } else if code == "MediaPlayPause"@ {
        KEY_PLAYPAUSE
    } else if code == "MediaTrackPrevious"@ {
        KEY_PREVIOUSSONG
    } else if code == "MediaStop"@ {
        KEY_STOPCD
    } else if code == "MediaSelect"@ {
        KEY_MEDIA
    } else if code == "LaunchMediaPlayer"@ {
        KEY_MEDIA
    } else if code == "Power"@ {
        KEY_POWER
    } else if code == "Sleep"@ {
        KEY_SLEEP
    } else if code == "WakeUp"@ {
        KEY_WAKEUP
    } else if code == "ControlLeft"@ {
        KEY_LEFTCTRL
    } else if code == "ControlRight"@ {
        KEY_RIGHTCTRL
    } else if code == "AltLeft"@ {
        KEY_LEFTALT
    } else if code == "AltRight"@ {
        KEY_RIGHTALT
    } else if code == "MetaLeft"@ {
        KEY_LEFTMETA
    } else if code == "MetaRight"@ {
        KEY_RIGHTMETA
    } else if code == "ShiftLeft"@ {
        KEY_LEFTSHIFT
    } else if code == "ShiftRight"@ {
        KEY_RIGHTSHIFT
    } else {
        KEY_UNKNOWN
    }
}

/// The key code for a browser key code at a keyboard location.
pub fn map_key(code: &str, location: KeyboardLocation) -> (k: i32)
    ensures
        k == key_code_of(code@, location),
{
    if str_equal(code, "Escape") {
        KEY_ESC
    } else if str_equal(code, "Digit0") && location == KeyboardLocation::NUMPAD {
        KEY_KP0
    } else if str_equal(code, "Digit1") && location == KeyboardLocation::NUMPAD {
        KEY_KP1
    } else if str_equal(code, "Digit2") && location == KeyboardLocation::NUMPAD {
        KEY_KP2
    } else if str_equal(code, "Digit3") && location == KeyboardLocation::NUMPAD {
        KEY_KP3
    } else if str_equal(code, "Digit4") && location == KeyboardLocation::NUMPAD {
        KEY_KP4
    } else if str_equal(code, "Digit5") && location == KeyboardLocation::NUMPAD {
        KEY_KP5
    } else if str_equal(code, "Digit6") && location == KeyboardLocation::NUMPAD {
        KEY_KP6
    } else if str_equal(code, "Digit7") && location == KeyboardLocation::NUMPAD {
        KEY_KP7
    } else if str_equal(code, "Digit8") && location == KeyboardLocation::NUMPAD {
        KEY_KP8
    } else if str_equal(code, "Digit9") && location == KeyboardLocation::NUMPAD {
        KEY_KP9
    } else if str_equal(code, "Minus") && location == KeyboardLocation::NUMPAD {
        KEY_KPMINUS
    } else if str_equal(code, "Equal") && location == KeyboardLocation::NUMPAD {
        KEY_KPEQUAL
    } else if str_equal(code, "Enter") && location == KeyboardLocation::NUMPAD {
        KEY_KPENTER
    } else if str_equal(code, "Digit0") {
        KEY_0
    } else if str_equal(code, "Digit1") {
        KEY_1
    } else if str_equal(code, "Digit2") {
        KEY_2
    } else if str_equal(code, "Digit3") {
        KEY_3
    } else if str_equal(code, "Digit4") {
        KEY_4
    } else if str_equal(code, "Digit5") {
        KEY_5
    } else if str_equal(code, "Digit6") {
        KEY_6
    } else if str_equal(code, "Digit7") {
        KEY_7
    } else if str_equal(code, "Digit8") {
        KEY_8
    } else if str_equal(code, "Digit9") {
        KEY_9
    } else if str_equal(code, "Minus") {
        KEY_MINUS
    } else if str_equal(code, "Equal") {
        KEY_EQUAL
    } else if str_equal(code, "Enter") {
        KEY_ENTER
    } else if str_equal(code, "Backspace") {
        KEY_BACKSPACE
    } else if str_equal(code, "Tab") {
        KEY_TAB
    } else if str_equal(code, "KeyA") {
        KEY_A
    } else if str_equal(code, "KeyB") {
        KEY_B
    } else if str_equal(code, "KeyC") {
        KEY_C
    } else if str_equal(code, "KeyD") {
        KEY_D
    } else if str_equal(code, "KeyE") {
        KEY_E
    } else if str_equal(code, "KeyF") {
        KEY_F
    } else if str_equal(code, "KeyG") {
        KEY_G
    } else if str_equal(code, "KeyH") {
        KEY_H
    } else if str_equal(code, "KeyI") {
        KEY_I
    } else if str_equal(code, "KeyJ") {
        KEY_J
    } else if str_equal(code, "KeyK") {
        KEY_K
    } else if str_equal(code, "KeyL") {
        KEY_L
    } else if str_equal(code, "KeyM") {
        KEY_M
    } else if str_equal(code, "KeyN") {
        KEY_N
    } else if str_equal(code, "KeyO") {
        KEY_O
    } else if str_equal(code, "KeyP") {
        KEY_P
    } else if str_equal(code, "KeyQ") {
        KEY_Q
    } else if str_equal(code, "KeyR") {
        KEY_R
    } else if str_equal(code, "KeyS") {
        KEY_S
    } else if str_equal(code, "KeyT") {
        KEY_T
    } else if str_equal(code, "KeyU") {
        KEY_U
    } else if str_equal(code, "KeyV") {
        KEY_V
    } else if str_equal(code, "KeyW") {
        KEY_W
    } else if str_equal(code, "KeyX") {
        KEY_X
    } else if str_equal(code, "KeyY") {
        KEY_Y
    } else if str_equal(code, "KeyZ") {
        KEY_Z
    } else if str_equal(code, "BracketLeft") {
        KEY_LEFTBRACE
    } else if str_equal(code, "BracketRight") {
        KEY_RIGHTBRACE
    } else if str_equal(code, "Semicolon") {
        KEY_SEMICOLON
    } else if str_equal(code, "Quote") {
        KEY_APOSTROPHE
    } else if str_equal(code, "Backquote") {
        KEY_GRAVE
    } else if str_equal(code, "Backslash") {
        KEY_BACKSLASH
    } else if str_equal(code, "Comma") {
        KEY_COMMA
    } else if str_equal(code, "Period") {
        KEY_DOT
    } else if str_equal(code, "Slash") {
        KEY_SLASH
    } else if str_equal(code, "Space") {
        KEY_SPACE
    } else if str_equal(code, "CapsLock") {
        KEY_CAPSLOCK
    } else if str_equal(code, "NumpadMultiply") {
        KEY_KPASTERISK
    } else if str_equal(code, "F1") {
        KEY_F1
    } else if str_equal(code, "F2") {
        KEY_F2
    } else if str_equal(code, "F3") {
        KEY_F3
    } else if str_equal(code, "F4") {
        KEY_F4
    } else if str_equal(code, "F5") {
        KEY_F5
    } else if str_equal(code, "F6") {
        KEY_F6
    } else if str_equal(code, "F7") {
        KEY_F7
    } else if str_equal(code, "F8") {
        KEY_F8
    } else if str_equal(code, "F9") {
        KEY_F9
    } else if str_equal(code, "F10") {
        KEY_F10
    } else if str_equal(code, "F11") {
        KEY_F11
    } else if str_equal(code, "F12") {
        KEY_F12
    } else if str_equal(code, "F13") {
        KEY_F13
    } else if str_equal(code, "F14") {
        KEY_F14
    } else if str_equal(code, "F15") {
        KEY_F15
    } else if str_equal(code, "F16") {
        KEY_F16
    } else if str_equal(code, "F17") {
        KEY_F17
    } else if str_equal(code, "F18") {
        KEY_F18
    } else if str_equal(code, "F19") {
        KEY_F19
    } else if str_equal(code, "F20") {
        KEY_F20
    } else if str_equal(code, "F21") {
        KEY_F21
    } else if str_equal(code, "F22") {
        KEY_F22
    } else if str_equal(code, "F23") {
        KEY_F23
    } else if str_equal(code, "F24") {
        KEY_F24
    } else if str_equal(code, "NumLock") {
        KEY_NUMLOCK
    } else if str_equal(code, "ScrollLock") {
        KEY_SCROLLLOCK
    } else if str_equal(code, "Numpad0") {
        KEY_KP0
    } else if str_equal(code, "Numpad1") {
        KEY_KP1
    } else if str_equal(code, "Numpad2") {
        KEY_KP2
    } else if str_equal(code, "Numpad3") {
        KEY_KP3
    } else if str_equal(code, "Numpad4") {
        KEY_KP4
    } else if str_equal(code, "Numpad5") {
        KEY_KP5
    } else if str_equal(code, "Numpad6") {
        KEY_KP6
    } else if str_equal(code, "Numpad7") {
        KEY_KP7
    } else if str_equal(code, "Numpad8") {
        KEY_KP8
    } else if str_equal(code, "Numpad9") {
        KEY_KP9
    } else if str_equal(code, "NumpadSubtract") {
        KEY_KPMINUS
    } else if str_equal(code, "NumpadAdd") {
        KEY_KPPLUS
    } else if str_equal(code, "IntlBackslash") {
        KEY_102ND
    } else if str_equal(code, "IntlRo") {
        KEY_RO
    } else if str_equal(code, "NumpadEnter") {
        KEY_KPENTER
    } else if str_equal(code, "NumpadDivide") {
        KEY_KPSLASH
    } else if str_equal(code, "NumpadEqual") {
        KEY_KPEQUAL
    } else if str_equal(code, "NumpadComma") {
        KEY_KPCOMMA
    } else if str_equal(code, "NumpadParenLeft") {
        KEY_KPLEFTPAREN
    } else if str_equal(code, "NumpadParenRight") {
        KEY_KPRIGHTPAREN
    } else if str_equal(code, "KanaMode") {
        KEY_KATAKANA
    } else if str_equal(code, "PrintScreen") {
        KEY_SYSRQ
    } else if str_equal(code, "Home") {
        KEY_HOME
    } else if str_equal(code, "ArrowUp") {
        KEY_UP
    } else if str_equal(code, "PageUp") {
        KEY_PAGEUP
    } else if str_equal(code, "ArrowLeft") {
        KEY_LEFT
    } else if str_equal(code, "ArrowRight") {
        KEY_RIGHT
    } else if str_equal(code, "End") {
        KEY_END
    } else if str_equal(code, "ArrowDown") {
        KEY_DOWN
    } else if str_equal(code, "PageDown") {
        KEY_PAGEDOWN
    } else if str_equal(code, "Insert") {
        KEY_INSERT
    } else if str_equal(code, "Delete") {
        KEY_DELETE
    } else if str_equal(code, "VolumeMute") {
        KEY_MUTE
    } else if str_equal(code, "AudioVolumeMute") {
        KEY_MUTE
    } else if str_equal(code, "VolumeDown") {
        KEY_VOLUMEDOWN
    } else if str_equal(code, "AudioVolumeDown") {
        KEY_VOLUMEDOWN
    } else if str_equal(code, "VolumeUp") {
        KEY_VOLUMEUP
    } else if str_equal(code, "AudioVolumeUp") {
        KEY_VOLUMEUP
    } else if str_equal(code, "Pause") {
        KEY_PAUSE
    } else if str_equal(code, "Lang1") {
        KEY_HANGUEL
    } else if str_equal(code, "Lang2") {
        KEY_HANJA
    } else if str_equal(code, "IntlYen") {
        KEY_YEN
    } else if str_equal(code, "OSLeft") {
        KEY_LEFTMETA
    } else if str_equal(code, "OSRight") {
        KEY_RIGHTMETA
    } else if str_equal(code, "ContextMenu") {
        KEY_MENU
    } else if str_equal(code, "Cancel") {
        KEY_CANCEL
    } else if str_equal(code, "Again") {
        KEY_AGAIN
    } else if str_equal(code, "Props") {
        KEY_PROPS
    } else if str_equal(code, "Undo") {
        KEY_UNDO
    } else if str_equal(code, "Copy") {
        KEY_COPY
    } else if str_equal(code, "Open") {
        KEY_OPEN
    } else if str_equal(code, "Paste") {
        KEY_PASTE
    } else if str_equal(code, "Find") {
        KEY_FIND
    } else if str_equal(code, "Cut") {
        KEY_CUT
    } else if str_equal(code, "Help") {
        KEY_HELP
    } else if str_equal(code, "LaunchMail") {
        KEY_MAIL
    } else if str_equal(code, "Eject") {
        KEY_EJECTCD
    } else if str_equal(code, "MediaTrackNext") {
        KEY_NEXTSONG
    } else if str_equal(code, "MediaPlayPause") {
        KEY_PLAYPAUSE
    } else if str_equal(code, "MediaTrackPrevious") {
        KEY_PREVIOUSSONG
    } else if str_equal(code, "MediaStop") {
        KEY_STOPCD
    } else if str_equal(code, "MediaSelect") {
        KEY_MEDIA
    } else if str_equal(code, "LaunchMediaPlayer") {
        KEY_MEDIA
    } else if str_equal(code, "Power") {
        KEY_POWER
    } else if str_equal(code, "Sleep") {
        KEY_SLEEP
    } else if str_equal(code, "WakeUp") {
        KEY_WAKEUP
    } else if str_equal(code, "ControlLeft") {
        KEY_LEFTCTRL
    } else if str_equal(code, "ControlRight") {
        KEY_RIGHTCTRL
    } else if str_equal(code, "AltLeft") {
        KEY_LEFTALT
    } else if str_equal(code, "AltRight") {
        KEY_RIGHTALT
    } else if str_equal(code, "MetaLeft") {
        KEY_LEFTMETA
    } else if str_equal(code, "MetaRight") {
        KEY_RIGHTMETA
    } else if str_equal(code, "ShiftLeft") {
        KEY_LEFTSHIFT
    } else if str_equal(code, "ShiftRight") {
        KEY_RIGHTSHIFT
    } else {
        KEY_UNKNOWN
    }
}

/// Codes of the keys the numeric pad repeats.
pub open spec fn is_numpad_code(code: Seq<char>) -> bool {
    ||| code == "Digit0"@
    ||| code == "Digit1"@
    ||| code == "Digit2"@
    ||| code == "Digit3"@
    ||| code == "Digit4"@
    ||| code == "Digit5"@
    ||| code == "Digit6"@
    ||| code == "Digit7"@
    ||| code == "Digit8"@
    ||| code == "Digit9"@
    ||| code == "Minus"@
    ||| code == "Equal"@
    ||| code == "Enter"@
}

/// The keyboard location only matters for the keys the numeric pad repeats
/// (digits, minus, equal and enter): every other code names the same key
/// wherever it is pressed.
pub proof fn location_matters_only_on_the_numpad(
    code: Seq<char>,
    a: KeyboardLocation,
    b: KeyboardLocation,
)
    requires
        !is_numpad_code(code),
    ensures
        key_code_of(code, a) == key_code_of(code, b),
{
}

/// Any two locations other than the numeric pad (standard, left, right)
/// give every code the same key.
pub proof fn non_numpad_locations_agree(code: Seq<char>, a: KeyboardLocation, b: KeyboardLocation)
    requires
        a != KeyboardLocation::NUMPAD,
        b != KeyboardLocation::NUMPAD,
    ensures
        key_code_of(code, a) == key_code_of(code, b),
{
}

} // verus!
