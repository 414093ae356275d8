//! Keystrokes, the keyboard state they are read with, and the translation of HID usages through
//! a keyboard layout into queued keystrokes.
use crate::efi_key::EfiKey;
use crate::layout::{
    HiiKey, HiiKeyDescriptor, HiiKeyboardLayout, HiiNsKeyDescriptor, KeyModel, LayoutModel,
    NsKeyModel,
};
use crate::modifiers::{
    AFFECTED_BY_CAPS_LOCK,
    AFFECTED_BY_NUM_LOCK,
    AFFECTED_BY_STANDARD_SHIFT,
    ALT_GR_MODIFIER,
    CAPS_LOCK_MODIFIER,
    DELETE_MODIFIER,
    DOWN_ARROW_MODIFIER,
    END_MODIFIER,
    FUNCTION_KEY_EIGHT_MODIFIER,
    FUNCTION_KEY_ELEVEN_MODIFIER,
    FUNCTION_KEY_FIVE_MODIFIER,
    FUNCTION_KEY_FOUR_MODIFIER,
    FUNCTION_KEY_NINE_MODIFIER,
    FUNCTION_KEY_ONE_MODIFIER,
    FUNCTION_KEY_SEVEN_MODIFIER,
    FUNCTION_KEY_SIX_MODIFIER,
    FUNCTION_KEY_TEN_MODIFIER,
    FUNCTION_KEY_THREE_MODIFIER,
    FUNCTION_KEY_TWELVE_MODIFIER,
    FUNCTION_KEY_TWO_MODIFIER,
    HOME_MODIFIER,
    INSERT_MODIFIER,
    LEFT_ALT_MODIFIER,
    LEFT_ARROW_MODIFIER,
    LEFT_CONTROL_MODIFIER,
    LEFT_LOGO_MODIFIER,
    LEFT_SHIFT_MODIFIER,
    MENU_MODIFIER,
    NUM_LOCK_MODIFIER,
    PAGE_DOWN_MODIFIER,
    PAGE_UP_MODIFIER,
    PAUSE_MODIFIER,
    PRINT_MODIFIER,
    RIGHT_ALT_MODIFIER,
    RIGHT_ARROW_MODIFIER,
    RIGHT_CONTROL_MODIFIER,
    RIGHT_LOGO_MODIFIER,
    RIGHT_SHIFT_MODIFIER,
    SCROLL_LOCK_MODIFIER,
    SYS_REQUEST_MODIFIER,
    UP_ARROW_MODIFIER,
};
use std::collections::{BTreeSet, VecDeque};
use vstd::prelude::*;

verus! {

/// The shift state of a key state is valid.
pub const SHIFT_STATE_VALID: u32 = 0x8000_0000;

pub const RIGHT_SHIFT_PRESSED: u32 = 0x0000_0001;

pub const LEFT_SHIFT_PRESSED: u32 = 0x0000_0002;

pub const RIGHT_CONTROL_PRESSED: u32 = 0x0000_0004;

pub const LEFT_CONTROL_PRESSED: u32 = 0x0000_0008;

pub const RIGHT_ALT_PRESSED: u32 = 0x0000_0010;

pub const LEFT_ALT_PRESSED: u32 = 0x0000_0020;

pub const RIGHT_LOGO_PRESSED: u32 = 0x0000_0040;

pub const LEFT_LOGO_PRESSED: u32 = 0x0000_0080;

pub const MENU_KEY_PRESSED: u32 = 0x0000_0100;

pub const SYS_REQ_PRESSED: u32 = 0x0000_0200;

/// The toggle state of a key state is valid.
pub const TOGGLE_STATE_VALID: u8 = 0x80;

/// Partial keystrokes (a key state without a key) are reported.
pub const KEY_STATE_EXPOSED: u8 = 0x40;

pub const SCROLL_LOCK_ACTIVE: u8 = 0x01;

pub const NUM_LOCK_ACTIVE: u8 = 0x02;

pub const CAPS_LOCK_ACTIVE: u8 = 0x04;

pub const SCAN_NULL: u16 = 0x0000;

pub const SCAN_UP: u16 = 0x0001;

pub const SCAN_DOWN: u16 = 0x0002;

pub const SCAN_RIGHT: u16 = 0x0003;

pub const SCAN_LEFT: u16 = 0x0004;

pub const SCAN_HOME: u16 = 0x0005;

pub const SCAN_END: u16 = 0x0006;

pub const SCAN_INSERT: u16 = 0x0007;

pub const SCAN_DELETE: u16 = 0x0008;

pub const SCAN_PAGE_UP: u16 = 0x0009;

pub const SCAN_PAGE_DOWN: u16 = 0x000A;

pub const SCAN_F1: u16 = 0x000B;

pub const SCAN_F2: u16 = 0x000C;

pub const SCAN_F3: u16 = 0x000D;

pub const SCAN_F4: u16 = 0x000E;

pub const SCAN_F5: u16 = 0x000F;

pub const SCAN_F6: u16 = 0x0010;

pub const SCAN_F7: u16 = 0x0011;

pub const SCAN_F8: u16 = 0x0012;

pub const SCAN_F9: u16 = 0x0013;

pub const SCAN_F10: u16 = 0x0014;

pub const SCAN_F11: u16 = 0x0015;

pub const SCAN_F12: u16 = 0x0016;

pub const SCAN_ESC: u16 = 0x0017;

pub const SCAN_PAUSE: u16 = 0x0048;

/// LED usage of num lock.
pub const LED_NUM_LOCK_USAGE: u32 = 0x0008_0001;

/// LED usage of caps lock.
pub const LED_CAPS_LOCK_USAGE: u32 = 0x0008_0002;

/// LED usage of scroll lock.
pub const LED_SCROLL_LOCK_USAGE: u32 = 0x0008_0003;

/// A key: a scan code for keys without a character, and a UCS-2 character.
#[derive(Debug, Clone, Copy, PartialEq, Eq, Structural)]
pub struct InputKey {
    pub scan_code: u16,
    pub unicode_char: u16,
}

/// The state of the shift and toggle keys that a key was read with.
#[derive(Debug, Clone, Copy, PartialEq, Eq, Structural)]
pub struct KeyState {
    pub key_shift_state: u32,
    pub key_toggle_state: u8,
}

/// A key and the key state it was read with.
#[derive(Debug, Clone, Copy, PartialEq, Eq, Structural)]
pub struct KeyData {
    pub key: InputKey,
    pub key_state: KeyState,
}

impl KeyData {
    /// A key data with every field zero.
    pub fn zeroed() -> (r: KeyData)
        ensures
            r == (KeyData {
                key: InputKey { scan_code: 0, unicode_char: 0 },
                key_state: KeyState { key_shift_state: 0, key_toggle_state: 0 },
            }),
    {
        KeyData {
            key: InputKey { scan_code: 0, unicode_char: 0 },
            key_state: KeyState { key_shift_state: 0, key_toggle_state: 0 },
        }
    }
}

/// Whether a keystroke presses or releases a key.
#[derive(Debug, Clone, Copy, PartialEq, Eq, Structural)]
pub enum KeyAction {
    /// The key is released.
    KeyUp,
    /// The key is pressed.
    KeyDown,
}

/// A key notification registration, in the order registrations are sorted by: character, scan
/// code, shift state, toggle state.
pub open spec fn registration_of(k: KeyData) -> (u16, u16, u32, u8) {
    (k.key.unicode_char, k.key.scan_code, k.key_state.key_shift_state, k.key_state.key_toggle_state)
}

/// The key data a registration stands for.
pub open spec fn key_of_registration(r: (u16, u16, u32, u8)) -> KeyData {
    KeyData {
        key: InputKey { scan_code: r.1, unicode_char: r.0 },
        key_state: KeyState { key_shift_state: r.2, key_toggle_state: r.3 },
    }
}

/// A key matches a registration when character and scan code are equal, and the shift and toggle
/// states of the registration are zero or equal to those of the key.
pub open spec fn matches_registration(k: KeyData, r: KeyData) -> bool {
    &&& r.key.unicode_char == k.key.unicode_char
    &&& r.key.scan_code == k.key.scan_code
    &&& (r.key_state.key_shift_state == 0 || r.key_state.key_shift_state == k.key_state.key_shift_state)
    &&& (r.key_state.key_toggle_state == 0 || r.key_state.key_toggle_state
        == k.key_state.key_toggle_state)
}

/// Key data that is compared and ordered by its fields, as key notification registrations are.
#[derive(Debug, Clone, Copy, PartialEq, Eq, Structural)]
pub struct OrdKeyData(pub KeyData);

impl OrdKeyData {
    /// Whether this key matches the given registration: character and scan code must be equal;
    /// the shift and toggle states of the registration must be zero or equal to those of this key.
    pub fn matches_registered_key(&self, registration: &OrdKeyData) -> (r: bool)
        ensures
            r == matches_registration(self.0, registration.0),
    {
        let k = self.0;
        let reg = registration.0;
        if !(reg.key.unicode_char == k.key.unicode_char && reg.key.scan_code == k.key.scan_code) {
            return false;
        }
        if !(reg.key_state.key_shift_state == 0 || reg.key_state.key_shift_state
            == k.key_state.key_shift_state) {
            return false;
        }
        if !(reg.key_state.key_toggle_state == 0 || reg.key_state.key_toggle_state
            == k.key_state.key_toggle_state) {
            return false;
        }
        true
    }

    /// The tuple this key is sorted and compared by.
    pub fn sort_key(&self) -> (r: (u16, u16, u32, u8))
        ensures
            r == registration_of(self.0),
    {
        (
            self.0.key.unicode_char,
            self.0.key.scan_code,
            self.0.key_state.key_shift_state,
            self.0.key_state.key_toggle_state,
        )
    }
}

/// The physical key that a keyboard-page HID usage stands for, if any.
pub open spec fn spec_usage_to_efi_key(usage: u32) -> Option<EfiKey> {
    match usage {
        0x00070004 => Some(EfiKey::EfiKeyC1),
        0x00070005 => Some(EfiKey::EfiKeyB5),
        0x00070006 => Some(EfiKey::EfiKeyB3),
        0x00070007 => Some(EfiKey::EfiKeyC3),
        0x00070008 => Some(EfiKey::EfiKeyD3),
        0x00070009 => Some(EfiKey::EfiKeyC4),
        0x0007000A => Some(EfiKey::EfiKeyC5),
        0x0007000B => Some(EfiKey::EfiKeyC6),
        0x0007000C => Some(EfiKey::EfiKeyD8),
        0x0007000D => Some(EfiKey::EfiKeyC7),
        0x0007000E => Some(EfiKey::EfiKeyC8),
        0x0007000F => Some(EfiKey::EfiKeyC9),
        0x00070010 => Some(EfiKey::EfiKeyB7),
        0x00070011 => Some(EfiKey::EfiKeyB6),
        0x00070012 => Some(EfiKey::EfiKeyD9),
        0x00070013 => Some(EfiKey::EfiKeyD10),
        0x00070014 => Some(EfiKey::EfiKeyD1),
        0x00070015 => Some(EfiKey::EfiKeyD4),
        0x00070016 => Some(EfiKey::EfiKeyC2),
        0x00070017 => Some(EfiKey::EfiKeyD5),
        0x00070018 => Some(EfiKey::EfiKeyD7),
        0x00070019 => Some(EfiKey::EfiKeyB4),
        0x0007001A => Some(EfiKey::EfiKeyD2),
        0x0007001B => Some(EfiKey::EfiKeyB2),
        0x0007001C => Some(EfiKey::EfiKeyD6),
        0x0007001D => Some(EfiKey::EfiKeyB1),
        0x0007001E => Some(EfiKey::EfiKeyE1),
        0x0007001F => Some(EfiKey::EfiKeyE2),
        0x00070020 => Some(EfiKey::EfiKeyE3),
        0x00070021 => Some(EfiKey::EfiKeyE4),
        0x00070022 => Some(EfiKey::EfiKeyE5),
        0x00070023 => Some(EfiKey::EfiKeyE6),
        0x00070024 => Some(EfiKey::EfiKeyE7),
        0x00070025 => Some(EfiKey::EfiKeyE8),
        0x00070026 => Some(EfiKey::EfiKeyE9),
        0x00070027 => Some(EfiKey::EfiKeyE10),
        0x00070028 => Some(EfiKey::EfiKeyEnter),
        0x00070029 => Some(EfiKey::EfiKeyEsc),
        0x0007002A => Some(EfiKey::EfiKeyBackSpace),
        0x0007002B => Some(EfiKey::EfiKeyTab),
        0x0007002C => Some(EfiKey::EfiKeySpaceBar),
        0x0007002D => Some(EfiKey::EfiKeyE11),
        0x0007002E => Some(EfiKey::EfiKeyE12),
        0x0007002F => Some(EfiKey::EfiKeyD11),
        0x00070030 => Some(EfiKey::EfiKeyD12),
        0x00070031 => Some(EfiKey::EfiKeyD13),
        0x00070032 => Some(EfiKey::EfiKeyC12),
        0x00070033 => Some(EfiKey::EfiKeyC10),
        0x00070034 => Some(EfiKey::EfiKeyC11),
        0x00070035 => Some(EfiKey::EfiKeyE0),
        0x00070036 => Some(EfiKey::EfiKeyB8),
        0x00070037 => Some(EfiKey::EfiKeyB9),
        0x00070038 => Some(EfiKey::EfiKeyB10),
        0x00070039 => Some(EfiKey::EfiKeyCapsLock),
        0x0007003A => Some(EfiKey::EfiKeyF1),
        0x0007003B => Some(EfiKey::EfiKeyF2),
        0x0007003C => Some(EfiKey::EfiKeyF3),
        0x0007003D => Some(EfiKey::EfiKeyF4),
        0x0007003E => Some(EfiKey::EfiKeyF5),
        0x0007003F => Some(EfiKey::EfiKeyF6),
        0x00070040 => Some(EfiKey::EfiKeyF7),
        0x00070041 => Some(EfiKey::EfiKeyF8),
        0x00070042 => Some(EfiKey::EfiKeyF9),
        0x00070043 => Some(EfiKey::EfiKeyF10),
        0x00070044 => Some(EfiKey::EfiKeyF11),
        0x00070045 => Some(EfiKey::EfiKeyF12),
        0x00070046 => Some(EfiKey::EfiKeyPrint),
        0x00070047 => Some(EfiKey::EfiKeySLck),
        0x00070048 => Some(EfiKey::EfiKeyPause),
        0x00070049 => Some(EfiKey::EfiKeyIns),
        0x0007004A => Some(EfiKey::EfiKeyHome),
        0x0007004B => Some(EfiKey::EfiKeyPgUp),
        0x0007004C => Some(EfiKey::EfiKeyDel),
        0x0007004D => Some(EfiKey::EfiKeyEnd),
        0x0007004E => Some(EfiKey::EfiKeyPgDn),
        0x0007004F => Some(EfiKey::EfiKeyRightArrow),
        0x00070050 => Some(EfiKey::EfiKeyLeftArrow),
        0x00070051 => Some(EfiKey::EfiKeyDownArrow),
        0x00070052 => Some(EfiKey::EfiKeyUpArrow),
        0x00070053 => Some(EfiKey::EfiKeyNLck),
        0x00070054 => Some(EfiKey::EfiKeySlash),
        0x00070055 => Some(EfiKey::EfiKeyAsterisk),
        0x00070056 => Some(EfiKey::EfiKeyMinus),
        0x00070057 => Some(EfiKey::EfiKeyPlus),
        0x00070058 => Some(EfiKey::EfiKeyEnter),
        0x00070059 => Some(EfiKey::EfiKeyOne),
        0x0007005A => Some(EfiKey::EfiKeyTwo),
        0x0007005B => Some(EfiKey::EfiKeyThree),
        0x0007005C => Some(EfiKey::EfiKeyFour),
        0x0007005D => Some(EfiKey::EfiKeyFive),
        0x0007005E => Some(EfiKey::EfiKeySix),
        0x0007005F => Some(EfiKey::EfiKeySeven),
        0x00070060 => Some(EfiKey::EfiKeyEight),
        0x00070061 => Some(EfiKey::EfiKeyNine),
        0x00070062 => Some(EfiKey::EfiKeyZero),
        0x00070063 => Some(EfiKey::EfiKeyPeriod),
        0x00070064 => Some(EfiKey::EfiKeyB0),
        0x00070065 => Some(EfiKey::EfiKeyA4),
        0x000700E0 => Some(EfiKey::EfiKeyLCtrl),
        0x000700E1 => Some(EfiKey::EfiKeyLShift),
        0x000700E2 => Some(EfiKey::EfiKeyLAlt),
        0x000700E3 => Some(EfiKey::EfiKeyA0),
        0x000700E4 => Some(EfiKey::EfiKeyRCtrl),
        0x000700E5 => Some(EfiKey::EfiKeyRShift),
        0x000700E6 => Some(EfiKey::EfiKeyA2),
        0x000700E7 => Some(EfiKey::EfiKeyA3),
        _ => None,
    }
}

/// Converts a HID usage to the physical key it stands for; usages that no key of a keyboard
/// layout stands for give `None`.
pub fn usage_to_efi_key(usage: u32) -> (r: Option<EfiKey>)
    ensures
        r == spec_usage_to_efi_key(usage),
{
    match usage {
        0x00070004 => Some(EfiKey::EfiKeyC1),
        0x00070005 => Some(EfiKey::EfiKeyB5),
        0x00070006 => Some(EfiKey::EfiKeyB3),
        0x00070007 => Some(EfiKey::EfiKeyC3),
        0x00070008 => Some(EfiKey::EfiKeyD3),
        0x00070009 => Some(EfiKey::EfiKeyC4),
        0x0007000A => Some(EfiKey::EfiKeyC5),
        0x0007000B => Some(EfiKey::EfiKeyC6),
        0x0007000C => Some(EfiKey::EfiKeyD8),
        0x0007000D => Some(EfiKey::EfiKeyC7),
        0x0007000E => Some(EfiKey::EfiKeyC8),
        0x0007000F => Some(EfiKey::EfiKeyC9),
        0x00070010 => Some(EfiKey::EfiKeyB7),
        0x00070011 => Some(EfiKey::EfiKeyB6),
        0x00070012 => Some(EfiKey::EfiKeyD9),
        0x00070013 => Some(EfiKey::EfiKeyD10),
        0x00070014 => Some(EfiKey::EfiKeyD1),
        0x00070015 => Some(EfiKey::EfiKeyD4),
        0x00070016 => Some(EfiKey::EfiKeyC2),
        0x00070017 => Some(EfiKey::EfiKeyD5),
        0x00070018 => Some(EfiKey::EfiKeyD7),
        0x00070019 => Some(EfiKey::EfiKeyB4),
        0x0007001A => Some(EfiKey::EfiKeyD2),
        0x0007001B => Some(EfiKey::EfiKeyB2),
        0x0007001C => Some(EfiKey::EfiKeyD6),
        0x0007001D => Some(EfiKey::EfiKeyB1),
        0x0007001E => Some(EfiKey::EfiKeyE1),
        0x0007001F => Some(EfiKey::EfiKeyE2),
        0x00070020 => Some(EfiKey::EfiKeyE3),
        0x00070021 => Some(EfiKey::EfiKeyE4),
        0x00070022 => Some(EfiKey::EfiKeyE5),
        0x00070023 => Some(EfiKey::EfiKeyE6),
        0x00070024 => Some(EfiKey::EfiKeyE7),
        0x00070025 => Some(EfiKey::EfiKeyE8),
        0x00070026 => Some(EfiKey::EfiKeyE9),
        0x00070027 => Some(EfiKey::EfiKeyE10),
        0x00070028 => Some(EfiKey::EfiKeyEnter),
        0x00070029 => Some(EfiKey::EfiKeyEsc),
        0x0007002A => Some(EfiKey::EfiKeyBackSpace),
        0x0007002B => Some(EfiKey::EfiKeyTab),
        0x0007002C => Some(EfiKey::EfiKeySpaceBar),
        0x0007002D => Some(EfiKey::EfiKeyE11),
        0x0007002E => Some(EfiKey::EfiKeyE12),
        0x0007002F => Some(EfiKey::EfiKeyD11),
        0x00070030 => Some(EfiKey::EfiKeyD12),
        0x00070031 => Some(EfiKey::EfiKeyD13),
        0x00070032 => Some(EfiKey::EfiKeyC12),
        0x00070033 => Some(EfiKey::EfiKeyC10),
        0x00070034 => Some(EfiKey::EfiKeyC11),
        0x00070035 => Some(EfiKey::EfiKeyE0),
        0x00070036 => Some(EfiKey::EfiKeyB8),
        0x00070037 => Some(EfiKey::EfiKeyB9),
        0x00070038 => Some(EfiKey::EfiKeyB10),
        0x00070039 => Some(EfiKey::EfiKeyCapsLock),
        0x0007003A => Some(EfiKey::EfiKeyF1),
        0x0007003B => Some(EfiKey::EfiKeyF2),
        0x0007003C => Some(EfiKey::EfiKeyF3),
        0x0007003D => Some(EfiKey::EfiKeyF4),
        0x0007003E => Some(EfiKey::EfiKeyF5),
        0x0007003F => Some(EfiKey::EfiKeyF6),
        0x00070040 => Some(EfiKey::EfiKeyF7),
        0x00070041 => Some(EfiKey::EfiKeyF8),
        0x00070042 => Some(EfiKey::EfiKeyF9),
        0x00070043 => Some(EfiKey::EfiKeyF10),
        0x00070044 => Some(EfiKey::EfiKeyF11),
        0x00070045 => Some(EfiKey::EfiKeyF12),
        0x00070046 => Some(EfiKey::EfiKeyPrint),
        0x00070047 => Some(EfiKey::EfiKeySLck),
        0x00070048 => Some(EfiKey::EfiKeyPause),
        0x00070049 => Some(EfiKey::EfiKeyIns),
        0x0007004A => Some(EfiKey::EfiKeyHome),
        0x0007004B => Some(EfiKey::EfiKeyPgUp),
        0x0007004C => Some(EfiKey::EfiKeyDel),
        0x0007004D => Some(EfiKey::EfiKeyEnd),
        0x0007004E => Some(EfiKey::EfiKeyPgDn),
        0x0007004F => Some(EfiKey::EfiKeyRightArrow),
        0x00070050 => Some(EfiKey::EfiKeyLeftArrow),
        0x00070051 => Some(EfiKey::EfiKeyDownArrow),
        0x00070052 => Some(EfiKey::EfiKeyUpArrow),
        0x00070053 => Some(EfiKey::EfiKeyNLck),
        0x00070054 => Some(EfiKey::EfiKeySlash),
        0x00070055 => Some(EfiKey::EfiKeyAsterisk),
        0x00070056 => Some(EfiKey::EfiKeyMinus),
        0x00070057 => Some(EfiKey::EfiKeyPlus),
        0x00070058 => Some(EfiKey::EfiKeyEnter),
        0x00070059 => Some(EfiKey::EfiKeyOne),
        0x0007005A => Some(EfiKey::EfiKeyTwo),
        0x0007005B => Some(EfiKey::EfiKeyThree),
        0x0007005C => Some(EfiKey::EfiKeyFour),
        0x0007005D => Some(EfiKey::EfiKeyFive),
        0x0007005E => Some(EfiKey::EfiKeySix),
        0x0007005F => Some(EfiKey::EfiKeySeven),
        0x00070060 => Some(EfiKey::EfiKeyEight),
        0x00070061 => Some(EfiKey::EfiKeyNine),
        0x00070062 => Some(EfiKey::EfiKeyZero),
        0x00070063 => Some(EfiKey::EfiKeyPeriod),
        0x00070064 => Some(EfiKey::EfiKeyB0),
        0x00070065 => Some(EfiKey::EfiKeyA4),
        0x000700E0 => Some(EfiKey::EfiKeyLCtrl),
        0x000700E1 => Some(EfiKey::EfiKeyLShift),
        0x000700E2 => Some(EfiKey::EfiKeyLAlt),
        0x000700E3 => Some(EfiKey::EfiKeyA0),
        0x000700E4 => Some(EfiKey::EfiKeyRCtrl),
        0x000700E5 => Some(EfiKey::EfiKeyRShift),
        0x000700E6 => Some(EfiKey::EfiKeyA2),
        0x000700E7 => Some(EfiKey::EfiKeyA3),
        _ => None,
    }
}

/// The scan code a key with the given modifier produces.
pub open spec fn spec_modifier_to_scan(modifier: u16) -> u16 {
    if modifier == INSERT_MODIFIER {
        SCAN_INSERT
    } else if modifier == DELETE_MODIFIER {
        SCAN_DELETE
    } else if modifier == PAGE_DOWN_MODIFIER {
        SCAN_PAGE_DOWN
    } else if modifier == PAGE_UP_MODIFIER {
        SCAN_PAGE_UP
    } else if modifier == HOME_MODIFIER {
        SCAN_HOME
    } else if modifier == END_MODIFIER {
        SCAN_END
    } else if modifier == LEFT_ARROW_MODIFIER {
        SCAN_LEFT
    } else if modifier == RIGHT_ARROW_MODIFIER {
        SCAN_RIGHT
    } else if modifier == DOWN_ARROW_MODIFIER {
        SCAN_DOWN
    } else if modifier == UP_ARROW_MODIFIER {
        SCAN_UP
    } else if modifier == FUNCTION_KEY_ONE_MODIFIER {
        SCAN_F1
    } else if modifier == FUNCTION_KEY_TWO_MODIFIER {
        SCAN_F2
    } else if modifier == FUNCTION_KEY_THREE_MODIFIER {
        SCAN_F3
    } else if modifier == FUNCTION_KEY_FOUR_MODIFIER {
        SCAN_F4
    } else if modifier == FUNCTION_KEY_FIVE_MODIFIER {
        SCAN_F5
    } else if modifier == FUNCTION_KEY_SIX_MODIFIER {
        SCAN_F6
    } else if modifier == FUNCTION_KEY_SEVEN_MODIFIER {
        SCAN_F7
    } else if modifier == FUNCTION_KEY_EIGHT_MODIFIER {
        SCAN_F8
    } else if modifier == FUNCTION_KEY_NINE_MODIFIER {
        SCAN_F9
    } else if modifier == FUNCTION_KEY_TEN_MODIFIER {
        SCAN_F10
    } else if modifier == FUNCTION_KEY_ELEVEN_MODIFIER {
        SCAN_F11
    } else if modifier == FUNCTION_KEY_TWELVE_MODIFIER {
        SCAN_F12
    } else if modifier == PAUSE_MODIFIER {
        SCAN_PAUSE
    } else {
        SCAN_NULL
    }
}

/// Converts a modifier to the scan code a key with that modifier produces.
pub fn modifier_to_scan(modifier: u16) -> (r: u16)
    ensures
        r == spec_modifier_to_scan(modifier),
{
    if modifier == INSERT_MODIFIER {
        SCAN_INSERT
    } else if modifier == DELETE_MODIFIER {
        SCAN_DELETE
    } else if modifier == PAGE_DOWN_MODIFIER {
        SCAN_PAGE_DOWN
    } else if modifier == PAGE_UP_MODIFIER {
        SCAN_PAGE_UP
    } else if modifier == HOME_MODIFIER {
        SCAN_HOME
    } else if modifier == END_MODIFIER {
        SCAN_END
    } else if modifier == LEFT_ARROW_MODIFIER {
        SCAN_LEFT
    } else if modifier == RIGHT_ARROW_MODIFIER {
        SCAN_RIGHT
    } else if modifier == DOWN_ARROW_MODIFIER {
        SCAN_DOWN
    } else if modifier == UP_ARROW_MODIFIER {
        SCAN_UP
    } else if modifier == FUNCTION_KEY_ONE_MODIFIER {
        SCAN_F1
    } else if modifier == FUNCTION_KEY_TWO_MODIFIER {
        SCAN_F2
    } else if modifier == FUNCTION_KEY_THREE_MODIFIER {
        SCAN_F3
    } else if modifier == FUNCTION_KEY_FOUR_MODIFIER {
        SCAN_F4
    } else if modifier == FUNCTION_KEY_FIVE_MODIFIER {
        SCAN_F5
    } else if modifier == FUNCTION_KEY_SIX_MODIFIER {
        SCAN_F6
    } else if modifier == FUNCTION_KEY_SEVEN_MODIFIER {
        SCAN_F7
    } else if modifier == FUNCTION_KEY_EIGHT_MODIFIER {
        SCAN_F8
    } else if modifier == FUNCTION_KEY_NINE_MODIFIER {
        SCAN_F9
    } else if modifier == FUNCTION_KEY_TEN_MODIFIER {
        SCAN_F10
    } else if modifier == FUNCTION_KEY_ELEVEN_MODIFIER {
        SCAN_F11
    } else if modifier == FUNCTION_KEY_TWELVE_MODIFIER {
        SCAN_F12
    } else if modifier == PAUSE_MODIFIER {
        SCAN_PAUSE
    } else {
        SCAN_NULL
    }
}

/// The LED usage that shows a toggle modifier, if any.
pub open spec fn spec_modifier_to_led_usage(modifier: u16) -> Option<u32> {
    if modifier == NUM_LOCK_MODIFIER {
        Some(LED_NUM_LOCK_USAGE)
    } else if modifier == CAPS_LOCK_MODIFIER {
        Some(LED_CAPS_LOCK_USAGE)
    } else if modifier == SCROLL_LOCK_MODIFIER {
        Some(LED_SCROLL_LOCK_USAGE)
    } else {
        None
    }
}

/// Converts a modifier to the LED usage that shows it, if any.
pub fn modifier_to_led_usage(modifier: u16) -> (r: Option<u32>)
    ensures
        r == spec_modifier_to_led_usage(modifier),
{
    if modifier == NUM_LOCK_MODIFIER {
        Some(LED_NUM_LOCK_USAGE)
    } else if modifier == CAPS_LOCK_MODIFIER {
        Some(LED_CAPS_LOCK_USAGE)
    } else if modifier == SCROLL_LOCK_MODIFIER {
        Some(LED_SCROLL_LOCK_USAGE)
    } else {
        None
    }
}

// ---------------------------------------------------------------------------------------------
// The keyboard state and what a keystroke does to it.
/// Modifiers that are active while their key is held.
pub open spec fn is_held_modifier(m: u16) -> bool {
    m == LEFT_CONTROL_MODIFIER || m == RIGHT_CONTROL_MODIFIER || m == LEFT_SHIFT_MODIFIER || m
        == RIGHT_SHIFT_MODIFIER || m == LEFT_ALT_MODIFIER || m == RIGHT_ALT_MODIFIER || m
        == LEFT_LOGO_MODIFIER || m == RIGHT_LOGO_MODIFIER || m == MENU_MODIFIER || m
        == PRINT_MODIFIER || m == SYS_REQUEST_MODIFIER || m == ALT_GR_MODIFIER
}

/// Modifiers that toggle each time their key is pressed.
pub open spec fn is_toggle_modifier(m: u16) -> bool {
    m == NUM_LOCK_MODIFIER || m == CAPS_LOCK_MODIFIER || m == SCROLL_LOCK_MODIFIER
}

/// A control key is held.
pub open spec fn ctrl_active(mods: Set<u16>) -> bool {
    mods.contains(LEFT_CONTROL_MODIFIER) || mods.contains(RIGHT_CONTROL_MODIFIER)
}

/// An alt key is held.
pub open spec fn alt_active(mods: Set<u16>) -> bool {
    mods.contains(LEFT_ALT_MODIFIER) || mods.contains(RIGHT_ALT_MODIFIER)
}

/// A shift key is held.
pub open spec fn shift_active(mods: Set<u16>) -> bool {
    mods.contains(LEFT_SHIFT_MODIFIER) || mods.contains(RIGHT_SHIFT_MODIFIER)
}

/// The active modifiers after a key with modifier `m` goes up or down: a held modifier is active
/// while down; a toggle modifier flips when pressed.
pub open spec fn modifiers_after(mods: Set<u16>, m: u16, action: KeyAction) -> Set<u16> {
    let held = if is_held_modifier(m) {
        match action {
            KeyAction::KeyUp => mods.remove(m),
            KeyAction::KeyDown => mods.insert(m),
        }
    } else {
        mods
    };
    if is_toggle_modifier(m) && action == KeyAction::KeyDown {
        if held.contains(m) {
            held.remove(m)
        } else {
            held.insert(m)
        }
    } else {
        held
    }
}

/// `bit` where `b` holds, else zero.
pub open spec fn flag_u32(b: bool, bit: u32) -> u32 {
    if b {
        bit
    } else {
        0
    }
}

/// `bit` where `b` holds, else zero.
pub open spec fn flag_u8(b: bool, bit: u8) -> u8 {
    if b {
        bit
    } else {
        0
    }
}

/// The shift state that the active modifiers give.
pub open spec fn shift_state_of(mods: Set<u16>) -> u32 {
    SHIFT_STATE_VALID | flag_u32(mods.contains(LEFT_CONTROL_MODIFIER), LEFT_CONTROL_PRESSED)
        | flag_u32(mods.contains(RIGHT_CONTROL_MODIFIER), RIGHT_CONTROL_PRESSED) | flag_u32(
        mods.contains(LEFT_ALT_MODIFIER),
        LEFT_ALT_PRESSED,
    ) | flag_u32(mods.contains(RIGHT_ALT_MODIFIER), RIGHT_ALT_PRESSED) | flag_u32(
        mods.contains(LEFT_SHIFT_MODIFIER),
        LEFT_SHIFT_PRESSED,
    ) | flag_u32(mods.contains(RIGHT_SHIFT_MODIFIER), RIGHT_SHIFT_PRESSED) | flag_u32(
        mods.contains(LEFT_LOGO_MODIFIER),
        LEFT_LOGO_PRESSED,
    ) | flag_u32(mods.contains(RIGHT_LOGO_MODIFIER), RIGHT_LOGO_PRESSED) | flag_u32(
        mods.contains(MENU_MODIFIER),
        MENU_KEY_PRESSED,
    ) | flag_u32(
        mods.contains(SYS_REQUEST_MODIFIER) || mods.contains(PRINT_MODIFIER),
        SYS_REQ_PRESSED,
    )
}

/// The toggle state that the active modifiers give: valid and exposed, with the active locks.
pub open spec fn toggle_state_of(mods: Set<u16>) -> u8 {
    TOGGLE_STATE_VALID | KEY_STATE_EXPOSED | flag_u8(
        mods.contains(SCROLL_LOCK_MODIFIER),
        SCROLL_LOCK_ACTIVE,
    ) | flag_u8(mods.contains(NUM_LOCK_MODIFIER), NUM_LOCK_ACTIVE) | flag_u8(
        mods.contains(CAPS_LOCK_MODIFIER),
        CAPS_LOCK_ACTIVE,
    )
}

/// The key state that the active modifiers give.
pub open spec fn key_state_of(mods: Set<u16>) -> KeyState {
    KeyState { key_shift_state: shift_state_of(mods), key_toggle_state: toggle_state_of(mods) }
}

/// The shift keys select the shifted character of a key affected by shift.
pub open spec fn applies_shift(d: HiiKeyDescriptor, mods: Set<u16>) -> bool {
    (d.affected_attribute & AFFECTED_BY_STANDARD_SHIFT) != 0 && shift_active(mods)
}

/// The character of a key under shift and Alt-GR.
pub open spec fn char_after_shift(d: HiiKeyDescriptor, mods: Set<u16>) -> u16 {
    if (d.affected_attribute & AFFECTED_BY_STANDARD_SHIFT) != 0 {
        if shift_active(mods) {
            if mods.contains(ALT_GR_MODIFIER) {
                d.shifted_alt_gr_unicode
            } else {
                d.shifted_unicode
            }
        } else if mods.contains(ALT_GR_MODIFIER) {
            d.alt_gr_unicode
        } else {
            d.unicode
        }
    } else {
        d.unicode
    }
}

/// Caps lock swaps the plain and shifted characters of a key affected by it.
pub open spec fn char_after_caps_lock(d: HiiKeyDescriptor, mods: Set<u16>, c: u16) -> u16 {
    if (d.affected_attribute & AFFECTED_BY_CAPS_LOCK) != 0 && mods.contains(CAPS_LOCK_MODIFIER) {
        if c == d.unicode {
            d.shifted_unicode
        } else if c == d.shifted_unicode {
            d.unicode
        } else {
            c
        }
    } else {
        c
    }
}

/// The key a descriptor produces under the active modifiers: shift, Alt-GR and caps lock select the
/// character; on keys affected by num lock, num lock without shift keeps the character and drops
/// the scan code, otherwise the scan code is kept and the character dropped; the escape character
/// becomes the escape scan code.
pub open spec fn translated_key(d: HiiKeyDescriptor, mods: Set<u16>) -> InputKey {
    let c = char_after_caps_lock(d, mods, char_after_shift(d, mods));
    let scan = spec_modifier_to_scan(d.modifier);
    let k = if (d.affected_attribute & AFFECTED_BY_NUM_LOCK) != 0 {
        if mods.contains(NUM_LOCK_MODIFIER) && !shift_active(mods) {
            InputKey { scan_code: SCAN_NULL, unicode_char: c }
        } else {
            InputKey { scan_code: scan, unicode_char: 0 }
        }
    } else {
        InputKey { scan_code: scan, unicode_char: c }
    };
    if k.unicode_char == 0x1B && k.scan_code == SCAN_NULL {
        InputKey { scan_code: SCAN_ESC, unicode_char: 0 }
    } else {
        k
    }
}

/// The key state queued with a key: the state of the active modifiers, without the shift keys
/// where shift already selected the character.
pub open spec fn queued_key_state(d: HiiKeyDescriptor, mods: Set<u16>) -> KeyState {
    let s = key_state_of(mods);
    if applies_shift(d, mods) {
        KeyState {
            key_shift_state: s.key_shift_state & !(LEFT_SHIFT_PRESSED | RIGHT_SHIFT_PRESSED),
            key_toggle_state: s.key_toggle_state,
        }
    } else {
        s
    }
}

/// Some registration matches the key.
pub open spec fn is_registered(regs: Set<(u16, u16, u32, u8)>, k: KeyData) -> bool {
    exists|r: (u16, u16, u32, u8)|
        regs.contains(r) && #[trigger] matches_registration(k, key_of_registration(r))
}

/// Model of the key queue.
pub struct KeyQueueModel {
    /// The layout keys are translated with.
    pub layout: Option<LayoutModel>,
    /// The modifiers that are active.
    pub active_modifiers: Set<u16>,
    /// The non-spacing key pressed last, whose dependent keys are looked up first.
    pub active_ns_key: Option<NsKeyModel>,
    /// Keystrokes without a key are queued too.
    pub partial_key_support_active: bool,
    /// The keys read so far, oldest first.
    pub key_queue: Seq<KeyData>,
    /// The registrations for key notifications.
    pub registered_keys: Set<(u16, u16, u32, u8)>,
    /// The keys that matched a registration, oldest first.
    pub notified_key_queue: Seq<KeyData>,
}

/// The queue after a keystroke of a key with descriptor `d`, and whether ctrl-alt-del asks for a
/// system reset.
pub open spec fn apply_descriptor(q: KeyQueueModel, d: HiiKeyDescriptor, action: KeyAction) -> (
    KeyQueueModel,
    bool,
) {
    let mods = modifiers_after(q.active_modifiers, d.modifier, action);
    let q1 = KeyQueueModel { active_modifiers: mods, ..q };
    if ctrl_active(mods) && alt_active(mods) && d.modifier == DELETE_MODIFIER {
        (q1, true)
    } else if action == KeyAction::KeyUp {
        (q1, false)
    } else {
        let key = translated_key(d, mods);
        if !q.partial_key_support_active && key.unicode_char == 0 && key.scan_code == SCAN_NULL {
            (q1, false)
        } else {
            let data = KeyData { key, key_state: queued_key_state(d, mods) };
            let notified = if is_registered(q.registered_keys, data) {
                q.notified_key_queue.push(data)
            } else {
                q.notified_key_queue
            };
            (KeyQueueModel { key_queue: q.key_queue.push(data), notified_key_queue: notified, ..q1 }, false)
        }
    }
}

/// `i` is the first index of `deps` whose key is `k`.
pub open spec fn is_first_dependent(deps: Seq<HiiKeyDescriptor>, k: EfiKey, i: int) -> bool {
    0 <= i < deps.len() && deps[i].key == k && forall|j: int| 0 <= j < i ==> deps[j].key != k
}

/// The first descriptor of `deps` for key `k`.
pub open spec fn first_dependent(deps: Seq<HiiKeyDescriptor>, k: EfiKey) -> Option<HiiKeyDescriptor> {
    if exists|i: int| is_first_dependent(deps, k, i) {
        Some(deps[choose|i: int| is_first_dependent(deps, k, i)])
    } else {
        None
    }
}

/// The physical key of a layout key.
pub open spec fn key_of(k: KeyModel) -> EfiKey {
    match k {
        KeyModel::Key(d) => d.key,
        KeyModel::NsKey(n) => n.descriptor.key,
    }
}

/// `i` is the first index of `keys` whose physical key is `k`.
pub open spec fn is_first_layout_key(keys: Seq<KeyModel>, k: EfiKey, i: int) -> bool {
    0 <= i < keys.len() && key_of(keys[i]) == k && forall|j: int| 0 <= j < i ==> key_of(keys[j]) != k
}

/// The first key of `keys` for physical key `k`.
pub open spec fn first_layout_key(keys: Seq<KeyModel>, k: EfiKey) -> Option<KeyModel> {
    if exists|i: int| is_first_layout_key(keys, k, i) {
        Some(keys[choose|i: int| is_first_layout_key(keys, k, i)])
    } else {
        None
    }
}

/// The queue after a keystroke of the key with the given usage, and whether ctrl-alt-del asks for
/// a system reset. Without a layout, or for a usage of no key, nothing changes. A key that depends
/// on the active non-spacing key is looked up there first, and ends it; otherwise the key is looked
/// up in the layout, where a non-spacing key becomes the active one.
pub open spec fn keystroke_spec(q: KeyQueueModel, usage: u32, action: KeyAction) -> (
    KeyQueueModel,
    bool,
) {
    match q.layout {
        None => (q, false),
        Some(layout) => match spec_usage_to_efi_key(usage) {
            None => (q, false),
            Some(k) => {
                let dep = match q.active_ns_key {
                    Some(ns) => first_dependent(ns.dependent_keys, k),
                    None => None,
                };
                match dep {
                    Some(d) => apply_descriptor(KeyQueueModel { active_ns_key: None, ..q }, d, action),
                    None => match first_layout_key(layout.keys, k) {
                        None => (q, false),
                        Some(KeyModel::NsKey(n)) => (KeyQueueModel { active_ns_key: Some(n), ..q }, false),
                        Some(KeyModel::Key(d)) => apply_descriptor(q, d, action),
                    },
                }
            },
        },
    }
}

/// The LED usages of the active toggle modifiers, in the order of the modifiers' codes.
pub open spec fn active_leds(mods: Set<u16>) -> Seq<u32> {
    let caps = if mods.contains(CAPS_LOCK_MODIFIER) {
        seq![LED_CAPS_LOCK_USAGE]
    } else {
        Seq::empty()
    };
    let num = if mods.contains(NUM_LOCK_MODIFIER) {
        seq![LED_NUM_LOCK_USAGE]
    } else {
        Seq::empty()
    };
    let scroll = if mods.contains(SCROLL_LOCK_MODIFIER) {
        seq![LED_SCROLL_LOCK_USAGE]
    } else {
        Seq::empty()
    };
    caps + num + scroll
}

/// The active modifiers after a key toggle state is set: each lock as its bit gives.
pub open spec fn modifiers_with_toggle_state(mods: Set<u16>, t: u8) -> Set<u16> {
    let a = if (t & SCROLL_LOCK_ACTIVE) != 0 {
        mods.insert(SCROLL_LOCK_MODIFIER)
    } else {
        mods.remove(SCROLL_LOCK_MODIFIER)
    };
    let b = if (t & NUM_LOCK_ACTIVE) != 0 {
        a.insert(NUM_LOCK_MODIFIER)
    } else {
        a.remove(NUM_LOCK_MODIFIER)
    };
    if (t & CAPS_LOCK_ACTIVE) != 0 {
        b.insert(CAPS_LOCK_MODIFIER)
    } else {
        b.remove(CAPS_LOCK_MODIFIER)
    }
}

/// Setting the toggle state and then reading the key state gives back the locks that were set,
/// with the toggle state marked valid and partial keystrokes exposed.
pub proof fn law_toggle_state_read_back(mods: Set<u16>, t: u8)
    ensures
        key_state_of(modifiers_with_toggle_state(mods, t)).key_toggle_state == (TOGGLE_STATE_VALID
            | KEY_STATE_EXPOSED | (t & (SCROLL_LOCK_ACTIVE | NUM_LOCK_ACTIVE | CAPS_LOCK_ACTIVE))),
{
    let m = modifiers_with_toggle_state(mods, t);
    let s: bool = m.contains(SCROLL_LOCK_MODIFIER);
    let n: bool = m.contains(NUM_LOCK_MODIFIER);
    let c: bool = m.contains(CAPS_LOCK_MODIFIER);
    assert(s == ((t & 1u8) != 0));
    assert(n == ((t & 2u8) != 0));
    assert(c == ((t & 4u8) != 0));
    let fs: u8 = flag_u8(s, 1u8);
    let fn_: u8 = flag_u8(n, 2u8);
    let fc: u8 = flag_u8(c, 4u8);
    assert(0x80u8 | 0x40u8 | fs | fn_ | fc == 0x80u8 | 0x40u8 | (t & (1u8 | 2u8 | 4u8))) by (bit_vector)
        requires
            fs == (if (t & 1u8) != 0 { 1u8 } else { 0u8 }),
            fn_ == (if (t & 2u8) != 0 { 2u8 } else { 0u8 }),
            fc == (if (t & 4u8) != 0 { 4u8 } else { 0u8 }),
    ;
}

// ---------------------------------------------------------------------------------------------
// The key queue.
/// The queue of pending keystrokes and the keyboard state they are translated with.
pub struct KeyQueue {
    layout: Option<HiiKeyboardLayout>,
    active_modifiers: BTreeSet<u16>,
    active_ns_key: Option<HiiNsKeyDescriptor>,
    partial_key_support_active: bool,
    key_queue: VecDeque<KeyData>,
    registered_keys: BTreeSet<(u16, u16, u32, u8)>,
    notified_key_queue: VecDeque<KeyData>,
}

impl View for KeyQueue {
    type V = KeyQueueModel;

    closed spec fn view(&self) -> KeyQueueModel {
        KeyQueueModel {
            layout: match self.layout {
                Some(l) => Some(l@),
                None => None,
            },
            active_modifiers: self.active_modifiers@,
            active_ns_key: match self.active_ns_key {
                Some(n) => Some(n@),
                None => None,
            },
            partial_key_support_active: self.partial_key_support_active,
            key_queue: self.key_queue@,
            registered_keys: self.registered_keys@,
            notified_key_queue: self.notified_key_queue@,
        }
    }
}

/// A model of an empty queue without a layout.
pub open spec fn empty_key_queue() -> KeyQueueModel {
    KeyQueueModel {
        layout: None,
        active_modifiers: Set::empty(),
        active_ns_key: None,
        partial_key_support_active: false,
        key_queue: Seq::empty(),
        registered_keys: Set::empty(),
        notified_key_queue: Seq::empty(),
    }
}

/// The index of the first descriptor of `deps` for key `k`.
fn find_dependent(deps: &Vec<HiiKeyDescriptor>, k: EfiKey) -> (r: Option<usize>)
    ensures
        match r {
            Some(i) => is_first_dependent(deps@, k, i as int) && first_dependent(deps@, k) == Some(
                deps@[i as int],
            ),
            None => first_dependent(deps@, k) is None,
        },
{
    let mut i: usize = 0;
    while i < deps.len()
        invariant
            0 <= i <= deps@.len(),
            forall|j: int| 0 <= j < i ==> deps@[j].key != k,
        decreases deps@.len() - i,
    {
        if deps[i].key == k {
            proof {
                assert(is_first_dependent(deps@, k, i as int));
                let c = choose|c: int| is_first_dependent(deps@, k, c);
                assert(c == i) by {
                    if c < i {
                        assert(deps@[c].key != k);
                    }
                    if c > i {
                        assert(deps@[i as int].key != k);
                    }
                }
            }
            return Some(i);
        }
        i = i + 1;
    }
    proof {
        if exists|c: int| is_first_dependent(deps@, k, c) {
            let c = choose|c: int| is_first_dependent(deps@, k, c);
            assert(deps@[c].key != k);
        }
    }
    None
}

/// The index of the first key of `keys` for physical key `k`.
fn find_layout_key(keys: &Vec<HiiKey>, k: EfiKey) -> (r: Option<usize>)
    ensures
        match r {
            Some(i) => i < keys@.len() && first_layout_key(keys@.map_values(|x: HiiKey| x@), k)
                == Some(keys@[i as int]@),
            None => first_layout_key(keys@.map_values(|x: HiiKey| x@), k) is None,
        },
{
    let ghost km = keys@.map_values(|x: HiiKey| x@);
    let mut i: usize = 0;
    while i < keys.len()
        invariant
            0 <= i <= keys@.len(),
            km == keys@.map_values(|x: HiiKey| x@),
            forall|j: int| 0 <= j < i ==> key_of(km[j]) != k,
        decreases keys@.len() - i,
    {
        let found = match &keys[i] {
            HiiKey::Key(d) => d.key == k,
            HiiKey::NsKey(n) => n.descriptor.key == k,
        };
        if found {
            proof {
                assert(km[i as int] == keys@[i as int]@);
                assert(is_first_layout_key(km, k, i as int));
                let c = choose|c: int| is_first_layout_key(km, k, c);
                assert(c == i) by {
                    if c < i {
                        assert(key_of(km[c]) != k);
                    }
                    if c > i {
                        assert(key_of(km[i as int]) != k);
                    }
                }
            }
            return Some(i);
        }
        proof {
            assert(km[i as int] == keys@[i as int]@);
        }
        i = i + 1;
    }
    proof {
        if exists|c: int| is_first_layout_key(km, k, c) {
            let c = choose|c: int| is_first_layout_key(km, k, c);
            assert(key_of(km[c]) != k);
        }
    }
    None
}

/// `bit` where `b` holds, else zero.
fn flag32(b: bool, bit: u32) -> (r: u32)
    ensures
        r == flag_u32(b, bit),
{
    if b {
        bit
    } else {
        0
    }
}

/// `bit` where `b` holds, else zero.
fn flag8(b: bool, bit: u8) -> (r: u8)
    ensures
        r == flag_u8(b, bit),
{
    if b {
        bit
    } else {
        0
    }
}

impl KeyQueue {
    /// An empty queue without a layout.
    pub fn new() -> (q: KeyQueue)
        ensures
            q@ == empty_key_queue(),
    {
        KeyQueue {
            layout: None,
            active_modifiers: BTreeSet::new(),
            active_ns_key: None,
            partial_key_support_active: false,
            key_queue: VecDeque::new(),
            registered_keys: BTreeSet::new(),
            notified_key_queue: VecDeque::new(),
        }
    }

    /// Resets the keyboard state: no active modifiers or non-spacing key, no partial keystrokes and
    /// no queued keys. The layout, the registrations and the notification queue stay.
    pub fn reset(&mut self)
        ensures
            final(self)@ == (KeyQueueModel {
                active_modifiers: Set::empty(),
                active_ns_key: None,
                partial_key_support_active: false,
                key_queue: Seq::empty(),
                ..old(self)@
            }),
    {
        self.active_modifiers.clear();
        self.active_ns_key = None;
        self.partial_key_support_active = false;
        self.key_queue.clear();
    }

    /// Whether a key matches a registration for key notifications. A matching registration has the
    /// key's character and scan code, and a zero or equal shift state and toggle state: one of four
    /// registrations.
    fn is_registered_key(&self, current_key: KeyData) -> (r: bool)
        ensures
            r == is_registered(self@.registered_keys, current_key),
    {
        let c = current_key.key.unicode_char;
        let s = current_key.key.scan_code;
        let sh = current_key.key_state.key_shift_state;
        let t = current_key.key_state.key_toggle_state;
        let regs = &self.registered_keys;
        let r = regs.contains(&(c, s, 0u32, 0u8)) || regs.contains(&(c, s, 0u32, t)) || regs.contains(
            &(c, s, sh, 0u8),
        ) || regs.contains(&(c, s, sh, t));
        proof {
            if r {
                if regs@.contains((c, s, 0u32, 0u8)) {
                    assert(matches_registration(current_key, key_of_registration((c, s, 0u32, 0u8))));
                } else if regs@.contains((c, s, 0u32, t)) {
                    assert(matches_registration(current_key, key_of_registration((c, s, 0u32, t))));
                } else if regs@.contains((c, s, sh, 0u8)) {
                    assert(matches_registration(current_key, key_of_registration((c, s, sh, 0u8))));
                } else {
                    assert(matches_registration(current_key, key_of_registration((c, s, sh, t))));
                }
            }
            if is_registered(regs@, current_key) {
                let x = choose|x: (u16, u16, u32, u8)|
                    regs@.contains(x) && #[trigger] matches_registration(
                        current_key,
                        key_of_registration(x),
                    );
                assert(x == (c, s, 0u32, 0u8) || x == (c, s, 0u32, t) || x == (c, s, sh, 0u8) || x == (
                c, s, sh, t));
            }
        }
        r
    }

    /// The key state that the active modifiers give.
    pub fn init_key_state(&self) -> (s: KeyState)
        ensures
            s == key_state_of(self@.active_modifiers),
    {
        let mods = &self.active_modifiers;
        let mut shift: u32 = SHIFT_STATE_VALID;
        shift = shift | flag32(mods.contains(&LEFT_CONTROL_MODIFIER), LEFT_CONTROL_PRESSED);
        shift = shift | flag32(mods.contains(&RIGHT_CONTROL_MODIFIER), RIGHT_CONTROL_PRESSED);
        shift = shift | flag32(mods.contains(&LEFT_ALT_MODIFIER), LEFT_ALT_PRESSED);
        shift = shift | flag32(mods.contains(&RIGHT_ALT_MODIFIER), RIGHT_ALT_PRESSED);
        shift = shift | flag32(mods.contains(&LEFT_SHIFT_MODIFIER), LEFT_SHIFT_PRESSED);
        shift = shift | flag32(mods.contains(&RIGHT_SHIFT_MODIFIER), RIGHT_SHIFT_PRESSED);
        shift = shift | flag32(mods.contains(&LEFT_LOGO_MODIFIER), LEFT_LOGO_PRESSED);
        shift = shift | flag32(mods.contains(&RIGHT_LOGO_MODIFIER), RIGHT_LOGO_PRESSED);
        shift = shift | flag32(mods.contains(&MENU_MODIFIER), MENU_KEY_PRESSED);
        let sys_req = mods.contains(&SYS_REQUEST_MODIFIER) || mods.contains(&PRINT_MODIFIER);
        shift = shift | flag32(sys_req, SYS_REQ_PRESSED);
        let mut toggle: u8 = TOGGLE_STATE_VALID | KEY_STATE_EXPOSED;
        toggle = toggle | flag8(mods.contains(&SCROLL_LOCK_MODIFIER), SCROLL_LOCK_ACTIVE);
        toggle = toggle | flag8(mods.contains(&NUM_LOCK_MODIFIER), NUM_LOCK_ACTIVE);
        toggle = toggle | flag8(mods.contains(&CAPS_LOCK_MODIFIER), CAPS_LOCK_ACTIVE);
        KeyState { key_shift_state: shift, key_toggle_state: toggle }
    }
}

/// Whether `m` is a modifier that is active while its key is held.
fn is_held_modifier_exec(m: u16) -> (r: bool)
    ensures
        r == is_held_modifier(m),
{
    m == LEFT_CONTROL_MODIFIER || m == RIGHT_CONTROL_MODIFIER || m == LEFT_SHIFT_MODIFIER || m
        == RIGHT_SHIFT_MODIFIER || m == LEFT_ALT_MODIFIER || m == RIGHT_ALT_MODIFIER || m
        == LEFT_LOGO_MODIFIER || m == RIGHT_LOGO_MODIFIER || m == MENU_MODIFIER || m
        == PRINT_MODIFIER || m == SYS_REQUEST_MODIFIER || m == ALT_GR_MODIFIER
}

/// Whether `m` is a modifier that toggles each time its key is pressed.
fn is_toggle_modifier_exec(m: u16) -> (r: bool)
    ensures
        r == is_toggle_modifier(m),
{
    m == NUM_LOCK_MODIFIER || m == CAPS_LOCK_MODIFIER || m == SCROLL_LOCK_MODIFIER
}

impl KeyQueue {
    /// Applies a keystroke of a key with descriptor `d`; returns whether ctrl-alt-del asks for a
    /// system reset.
    fn apply_descriptor(&mut self, d: HiiKeyDescriptor, action: KeyAction) -> (reset: bool)
        ensures
            (final(self)@, reset) == apply_descriptor(old(self)@, d, action),
    {
        let m = d.modifier;
        if is_held_modifier_exec(m) {
            match action {
                KeyAction::KeyUp => {
                    self.active_modifiers.remove(&m);
                },
                KeyAction::KeyDown => {
                    self.active_modifiers.insert(m);
                },
            }
        }
        let key_down = match action {
            KeyAction::KeyUp => false,
            KeyAction::KeyDown => true,
        };
        if is_toggle_modifier_exec(m) && key_down {
            if self.active_modifiers.contains(&m) {
                self.active_modifiers.remove(&m);
            } else {
                self.active_modifiers.insert(m);
            }
        }
        let ghost mods = self.active_modifiers@;
        assert(mods == modifiers_after(old(self)@.active_modifiers, m, action));
        let ctrl = self.active_modifiers.contains(&LEFT_CONTROL_MODIFIER)
            || self.active_modifiers.contains(&RIGHT_CONTROL_MODIFIER);
        let alt = self.active_modifiers.contains(&LEFT_ALT_MODIFIER) || self.active_modifiers.contains(
            &RIGHT_ALT_MODIFIER,
        );
        if ctrl && alt && m == DELETE_MODIFIER {
            return true;
        }
        if !key_down {
            return false;
        }
        let mut key = InputKey { scan_code: modifier_to_scan(m), unicode_char: d.unicode };
        let shift = self.active_modifiers.contains(&LEFT_SHIFT_MODIFIER)
            || self.active_modifiers.contains(&RIGHT_SHIFT_MODIFIER);
        let alt_gr = self.active_modifiers.contains(&ALT_GR_MODIFIER);
        let caps_lock = self.active_modifiers.contains(&CAPS_LOCK_MODIFIER);
        let num_lock = self.active_modifiers.contains(&NUM_LOCK_MODIFIER);
        let mut shift_applied = false;
        if (d.affected_attribute & AFFECTED_BY_STANDARD_SHIFT) != 0 {
            if shift {
                if alt_gr {
                    key.unicode_char = d.shifted_alt_gr_unicode;
                } else {
                    key.unicode_char = d.shifted_unicode;
                }
                shift_applied = true;
            } else if alt_gr {
                key.unicode_char = d.alt_gr_unicode;
            }
        }
        if (d.affected_attribute & AFFECTED_BY_CAPS_LOCK) != 0 && caps_lock {
            if key.unicode_char == d.unicode {
                key.unicode_char = d.shifted_unicode;
            } else if key.unicode_char == d.shifted_unicode {
                key.unicode_char = d.unicode;
            }
        }
        if (d.affected_attribute & AFFECTED_BY_NUM_LOCK) != 0 {
            if num_lock && !shift {
                key.scan_code = SCAN_NULL;
            } else {
                key.unicode_char = 0;
            }
        }
        if key.unicode_char == 0x1B && key.scan_code == SCAN_NULL {
            key.scan_code = SCAN_ESC;
            key.unicode_char = 0;
        }
        assert(key == translated_key(d, mods));
        if !self.partial_key_support_active && key.unicode_char == 0 && key.scan_code == SCAN_NULL {
            return false;
        }
        let mut key_state = self.init_key_state();
        if shift_applied {
            key_state.key_shift_state = key_state.key_shift_state & !(LEFT_SHIFT_PRESSED
                | RIGHT_SHIFT_PRESSED);
        }
        let key_data = KeyData { key, key_state };
        assert(key_data.key_state == queued_key_state(d, mods));
        if self.is_registered_key(key_data) {
            self.notified_key_queue.push_back(key_data);
        }
        self.key_queue.push_back(key_data);
        false
    }

    /// Processes a keystroke of the key with the given HID usage, and returns whether ctrl-alt-del
    /// asks for a system reset.
    pub fn keystroke(&mut self, key: u32, action: KeyAction) -> (reset: bool)
        ensures
            (final(self)@, reset) == keystroke_spec(old(self)@, key, action),
    {
        if self.layout.is_none() {
            return false;
        }
        let efi_key = match usage_to_efi_key(key) {
            Some(k) => k,
            None => {
                return false;
            },
        };
        let mut dependent: Option<HiiKeyDescriptor> = None;
        match &self.active_ns_key {
            Some(ns) => match find_dependent(&ns.dependent_keys, efi_key) {
                Some(i) => {
                    dependent = Some(ns.dependent_keys[i]);
                },
                None => {},
            },
            None => {},
        }
        match dependent {
            Some(d) => {
                self.active_ns_key = None;
                self.apply_descriptor(d, action)
            },
            None => {
                let descriptor = match &self.layout {
                    Some(layout) => match find_layout_key(&layout.keys, efi_key) {
                        None => {
                            return false;
                        },
                        Some(i) => match &layout.keys[i] {
                            HiiKey::Key(d) => *d,
                            HiiKey::NsKey(n) => {
                                let active = n.duplicate();
                                self.active_ns_key = Some(active);
                                return false;
                            },
                        },
                    },
                    None => {
                        return false;
                    },
                };
                self.apply_descriptor(descriptor, action)
            },
        }
    }

    /// Removes and returns the oldest queued key.
    pub fn pop_key(&mut self) -> (r: Option<KeyData>)
        ensures
            old(self)@.key_queue.len() == 0 ==> r is None && final(self)@ == old(self)@,
            old(self)@.key_queue.len() > 0 ==> r == Some(old(self)@.key_queue[0]) && final(self)@ == (
            KeyQueueModel { key_queue: old(self)@.key_queue.drop_first(), ..old(self)@ }),
    {
        self.key_queue.pop_front()
    }

    /// The oldest queued key, which stays queued.
    pub fn peek_key(&self) -> (r: Option<KeyData>)
        ensures
            self@.key_queue.len() == 0 ==> r is None,
            self@.key_queue.len() > 0 ==> r == Some(self@.key_queue[0]),
    {
        if self.key_queue.len() > 0 {
            Some(self.key_queue[0])
        } else {
            None
        }
    }

    /// Removes and returns the oldest key waiting for its notifications.
    pub fn pop_notifiy_key(&mut self) -> (r: Option<KeyData>)
        ensures
            old(self)@.notified_key_queue.len() == 0 ==> r is None && final(self)@ == old(self)@,
            old(self)@.notified_key_queue.len() > 0 ==> r == Some(old(self)@.notified_key_queue[0])
                && final(self)@ == (KeyQueueModel {
                notified_key_queue: old(self)@.notified_key_queue.drop_first(),
                ..old(self)@
            }),
    {
        self.notified_key_queue.pop_front()
    }

    /// The oldest key waiting for its notifications, which stays queued.
    pub fn peek_notify_key(&self) -> (r: Option<KeyData>)
        ensures
            self@.notified_key_queue.len() == 0 ==> r is None,
            self@.notified_key_queue.len() > 0 ==> r == Some(self@.notified_key_queue[0]),
    {
        if self.notified_key_queue.len() > 0 {
            Some(self.notified_key_queue[0])
        } else {
            None
        }
    }

    /// Sets the scroll, num and caps locks from a key toggle state, and whether partial keystrokes
    /// are queued.
    pub fn set_key_toggle_state(&mut self, toggle_state: u8)
        ensures
            final(self)@ == (KeyQueueModel {
                active_modifiers: modifiers_with_toggle_state(old(self)@.active_modifiers, toggle_state),
                partial_key_support_active: (toggle_state & KEY_STATE_EXPOSED) != 0,
                ..old(self)@
            }),
    {
        if (toggle_state & SCROLL_LOCK_ACTIVE) != 0 {
            self.active_modifiers.insert(SCROLL_LOCK_MODIFIER);
        } else {
            self.active_modifiers.remove(&SCROLL_LOCK_MODIFIER);
        }
        if (toggle_state & NUM_LOCK_ACTIVE) != 0 {
            self.active_modifiers.insert(NUM_LOCK_MODIFIER);
        } else {
            self.active_modifiers.remove(&NUM_LOCK_MODIFIER);
        }
        if (toggle_state & CAPS_LOCK_ACTIVE) != 0 {
            self.active_modifiers.insert(CAPS_LOCK_MODIFIER);
        } else {
            self.active_modifiers.remove(&CAPS_LOCK_MODIFIER);
        }
        self.partial_key_support_active = (toggle_state & KEY_STATE_EXPOSED) != 0;
    }

    /// The LED usages of the active toggle modifiers, in the order of the modifiers' codes (caps
    /// lock, num lock, scroll lock).
    pub fn get_active_leds(&self) -> (r: Vec<u32>)
        ensures
            r@ == active_leds(self@.active_modifiers),
    {
        let mut leds: Vec<u32> = Vec::new();
        if self.active_modifiers.contains(&CAPS_LOCK_MODIFIER) {
            leds.push(LED_CAPS_LOCK_USAGE);
        }
        if self.active_modifiers.contains(&NUM_LOCK_MODIFIER) {
            leds.push(LED_NUM_LOCK_USAGE);
        }
        if self.active_modifiers.contains(&SCROLL_LOCK_MODIFIER) {
            leds.push(LED_SCROLL_LOCK_USAGE);
        }
        assert(leds@ =~= active_leds(self@.active_modifiers));
        leds
    }

    /// A copy of the layout keys are translated with.
    pub fn get_layout(&self) -> (r: Option<HiiKeyboardLayout>)
        ensures
            match r {
                Some(l) => self@.layout == Some(l@),
                None => self@.layout is None,
            },
    {
        match &self.layout {
            Some(l) => Some(l.duplicate()),
            None => None,
        }
    }

    /// Sets the layout keys are translated with.
    pub fn set_layout(&mut self, new_layout: Option<HiiKeyboardLayout>)
        ensures
            final(self)@ == (KeyQueueModel {
                layout: match new_layout {
                    Some(l) => Some(l@),
                    None => None,
                },
                ..old(self)@
            }),
    {
        self.layout = new_layout;
    }

    /// Registers a key for notifications: keys that match it are queued for notification too.
    pub fn add_notify_key(&mut self, key_data: OrdKeyData)
        ensures
            final(self)@ == (KeyQueueModel {
                registered_keys: old(self)@.registered_keys.insert(registration_of(key_data.0)),
                ..old(self)@
            }),
    {
        let k = key_data.sort_key();
        self.registered_keys.insert(k);
    }

    /// Removes a registration for key notifications.
    pub fn remove_notify_key(&mut self, key_data: &OrdKeyData)
        ensures
            final(self)@ == (KeyQueueModel {
                registered_keys: old(self)@.registered_keys.remove(registration_of(key_data.0)),
                ..old(self)@
            }),
    {
        let k = key_data.sort_key();
        self.registered_keys.remove(&k);
    }
}
/// Registration matching takes character and scan code exactly and the two states as wildcards,
/// each on its own: a key is registered exactly when some registration has the key's character and
/// scan code, a shift state that is zero or the key's, and a toggle state that is zero or the
/// key's.
pub proof fn law_registration_states_are_wildcards(regs: Set<(u16, u16, u32, u8)>, k: KeyData)
    ensures
        is_registered(regs, k) <==> exists|r: (u16, u16, u32, u8)|
            #[trigger] regs.contains(r) && r.0 == k.key.unicode_char && r.1 == k.key.scan_code && (r.2 == 0
                || r.2 == k.key_state.key_shift_state) && (r.3 == 0 || r.3 == k.key_state.key_toggle_state),
{
    if is_registered(regs, k) {
        let r = choose|r: (u16, u16, u32, u8)|
            regs.contains(r) && #[trigger] matches_registration(k, key_of_registration(r));
        assert(regs.contains(r));
    }
    if exists|r: (u16, u16, u32, u8)|
        #[trigger] regs.contains(r) && r.0 == k.key.unicode_char && r.1 == k.key.scan_code && (r.2 == 0
            || r.2 == k.key_state.key_shift_state) && (r.3 == 0 || r.3 == k.key_state.key_toggle_state) {
        let r = choose|r: (u16, u16, u32, u8)|
            #[trigger] regs.contains(r) && r.0 == k.key.unicode_char && r.1 == k.key.scan_code && (r.2 == 0
                || r.2 == k.key_state.key_shift_state) && (r.3 == 0 || r.3 == k.key_state.key_toggle_state);
        assert(matches_registration(k, key_of_registration(r)));
    }
}
/// Pressing a key whose descriptor carries a modifier that is held (left or right control, shift,
/// alt or logo, menu, print, sys request, Alt-GR) makes it active, and releasing the key makes it
/// inactive; pressing a lock key (num, caps or scroll lock) flips its lock, and releasing it does
/// nothing. No other modifier changes, and a key with no such modifier changes none.
pub proof fn law_modifier_keys(mods: Set<u16>, m: u16, action: KeyAction, x: u16)
    ensures
        (m == LEFT_CONTROL_MODIFIER || m == RIGHT_CONTROL_MODIFIER || m == LEFT_SHIFT_MODIFIER || m
            == RIGHT_SHIFT_MODIFIER || m == LEFT_ALT_MODIFIER || m == RIGHT_ALT_MODIFIER || m
            == LEFT_LOGO_MODIFIER || m == RIGHT_LOGO_MODIFIER || m == MENU_MODIFIER || m == PRINT_MODIFIER
            || m == SYS_REQUEST_MODIFIER || m == ALT_GR_MODIFIER) ==> modifiers_after(
            mods,
            m,
            KeyAction::KeyDown,
        ).contains(m) && !modifiers_after(mods, m, KeyAction::KeyUp).contains(m),
        (m == NUM_LOCK_MODIFIER || m == CAPS_LOCK_MODIFIER || m == SCROLL_LOCK_MODIFIER) ==> (modifiers_after(
            mods,
            m,
            KeyAction::KeyDown,
        ).contains(m) <==> !mods.contains(m)) && modifiers_after(mods, m, KeyAction::KeyUp) == mods,
        x != m ==> (modifiers_after(mods, m, action).contains(x) <==> mods.contains(x)),
        !(m == LEFT_CONTROL_MODIFIER || m == RIGHT_CONTROL_MODIFIER || m == LEFT_SHIFT_MODIFIER || m
            == RIGHT_SHIFT_MODIFIER || m == LEFT_ALT_MODIFIER || m == RIGHT_ALT_MODIFIER || m
            == LEFT_LOGO_MODIFIER || m == RIGHT_LOGO_MODIFIER || m == MENU_MODIFIER || m == PRINT_MODIFIER
            || m == SYS_REQUEST_MODIFIER || m == ALT_GR_MODIFIER || m == NUM_LOCK_MODIFIER || m
            == CAPS_LOCK_MODIFIER || m == SCROLL_LOCK_MODIFIER) ==> modifiers_after(mods, m, action)
            == mods,
{
}

/// The shift state queued with a key has the valid bit, and the bit of each held modifier exactly
/// where that modifier is active: left and right control, alt, shift and logo, the menu key, and
/// sys request for either sys request or print.
pub proof fn law_shift_state_bits(mods: Set<u16>)
    ensures
        ({
            let s = key_state_of(mods).key_shift_state;
            &&& (s & SHIFT_STATE_VALID) != 0
            &&& (s & LEFT_CONTROL_PRESSED) != 0 <==> mods.contains(LEFT_CONTROL_MODIFIER)
            &&& (s & RIGHT_CONTROL_PRESSED) != 0 <==> mods.contains(RIGHT_CONTROL_MODIFIER)
            &&& (s & LEFT_ALT_PRESSED) != 0 <==> mods.contains(LEFT_ALT_MODIFIER)
            &&& (s & RIGHT_ALT_PRESSED) != 0 <==> mods.contains(RIGHT_ALT_MODIFIER)
            &&& (s & LEFT_SHIFT_PRESSED) != 0 <==> mods.contains(LEFT_SHIFT_MODIFIER)
            &&& (s & RIGHT_SHIFT_PRESSED) != 0 <==> mods.contains(RIGHT_SHIFT_MODIFIER)
            &&& (s & LEFT_LOGO_PRESSED) != 0 <==> mods.contains(LEFT_LOGO_MODIFIER)
            &&& (s & RIGHT_LOGO_PRESSED) != 0 <==> mods.contains(RIGHT_LOGO_MODIFIER)
            &&& (s & MENU_KEY_PRESSED) != 0 <==> mods.contains(MENU_MODIFIER)
            &&& (s & SYS_REQ_PRESSED) != 0 <==> mods.contains(SYS_REQUEST_MODIFIER) || mods.contains(
                PRINT_MODIFIER,
            )
        }),
{
    let b1 = mods.contains(LEFT_CONTROL_MODIFIER);
    let b2 = mods.contains(RIGHT_CONTROL_MODIFIER);
    let b3 = mods.contains(LEFT_ALT_MODIFIER);
    let b4 = mods.contains(RIGHT_ALT_MODIFIER);
    let b5 = mods.contains(LEFT_SHIFT_MODIFIER);
    let b6 = mods.contains(RIGHT_SHIFT_MODIFIER);
    let b7 = mods.contains(LEFT_LOGO_MODIFIER);
    let b8 = mods.contains(RIGHT_LOGO_MODIFIER);
    let b9 = mods.contains(MENU_MODIFIER);
    let b10 = mods.contains(SYS_REQUEST_MODIFIER) || mods.contains(PRINT_MODIFIER);
    let s = shift_state_of(mods);
    assert(s == 0x8000_0000u32 | (if b1 { 8u32 } else { 0u32 }) | (if b2 { 4u32 } else { 0u32 }) | (if b3 {
        0x20u32
    } else {
        0u32
    }) | (if b4 { 0x10u32 } else { 0u32 }) | (if b5 { 2u32 } else { 0u32 }) | (if b6 { 1u32 } else { 0u32 })
        | (if b7 { 0x80u32 } else { 0u32 }) | (if b8 { 0x40u32 } else { 0u32 }) | (if b9 {
        0x100u32
    } else {
        0u32
    }) | (if b10 { 0x200u32 } else { 0u32 }));
    assert({
        &&& (s & 0x8000_0000u32) != 0
        &&& (s & 8u32) != 0 <==> b1
        &&& (s & 4u32) != 0 <==> b2
        &&& (s & 0x20u32) != 0 <==> b3
        &&& (s & 0x10u32) != 0 <==> b4
        &&& (s & 2u32) != 0 <==> b5
        &&& (s & 1u32) != 0 <==> b6
        &&& (s & 0x80u32) != 0 <==> b7
        &&& (s & 0x40u32) != 0 <==> b8
        &&& (s & 0x100u32) != 0 <==> b9
        &&& (s & 0x200u32) != 0 <==> b10
    }) by (bit_vector)
        requires
            s == 0x8000_0000u32 | (if b1 { 8u32 } else { 0u32 }) | (if b2 { 4u32 } else { 0u32 }) | (if b3 {
                0x20u32
            } else {
                0u32
            }) | (if b4 { 0x10u32 } else { 0u32 }) | (if b5 { 2u32 } else { 0u32 }) | (if b6 {
                1u32
            } else {
                0u32
            }) | (if b7 { 0x80u32 } else { 0u32 }) | (if b8 { 0x40u32 } else { 0u32 }) | (if b9 {
                0x100u32
            } else {
                0u32
            }) | (if b10 { 0x200u32 } else { 0u32 }),
    ;
}

/// Delete pressed or released while a control key (left or right) and an alt key (left or right)
/// are held asks for a system reset, and nothing else does.
pub proof fn law_ctrl_alt_del(q: KeyQueueModel, d: HiiKeyDescriptor, action: KeyAction)
    ensures
        apply_descriptor(q, d, action).1 <==> d.modifier == DELETE_MODIFIER && (q.active_modifiers.contains(
            LEFT_CONTROL_MODIFIER,
        ) || q.active_modifiers.contains(RIGHT_CONTROL_MODIFIER)) && (q.active_modifiers.contains(
            LEFT_ALT_MODIFIER,
        ) || q.active_modifiers.contains(RIGHT_ALT_MODIFIER)),
{
}

/// The character a letter key types (one affected by shift and caps lock, with distinct plain and
/// shifted characters, neither of them escape): the shifted one exactly when one shift key (left or
/// right) is held or caps lock is on, but not both; Alt-GR not held and num lock not affecting the
/// key. A key affected by shift but not by caps lock types its shifted character exactly when a
/// shift key is held.
pub proof fn law_shift_and_caps_lock_select_the_character(d: HiiKeyDescriptor, mods: Set<u16>)
    requires
        (d.affected_attribute & AFFECTED_BY_STANDARD_SHIFT) != 0,
        (d.affected_attribute & AFFECTED_BY_NUM_LOCK) == 0,
        !mods.contains(ALT_GR_MODIFIER),
        d.unicode != d.shifted_unicode,
        d.unicode != 0x1B,
        d.shifted_unicode != 0x1B,
    ensures
        ({
            let shift = mods.contains(LEFT_SHIFT_MODIFIER) || mods.contains(RIGHT_SHIFT_MODIFIER);
            let caps = mods.contains(CAPS_LOCK_MODIFIER);
            &&& (d.affected_attribute & AFFECTED_BY_CAPS_LOCK) != 0 ==> translated_key(d, mods).unicode_char
                == if shift != caps {
                d.shifted_unicode
            } else {
                d.unicode
            }
            &&& (d.affected_attribute & AFFECTED_BY_CAPS_LOCK) == 0 ==> translated_key(d, mods).unicode_char
                == if shift {
                d.shifted_unicode
            } else {
                d.unicode
            }
        }),
{
}

} // verus!
