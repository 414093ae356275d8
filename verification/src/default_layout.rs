//! The default keyboard layout (a standard US-104 layout), its package and package list.
use crate::efi_key::EfiKey;
use crate::key_queue::{key_of, spec_usage_to_efi_key};
use crate::layout::{
    description_bytes, description_units, descriptions_bytes, keys_bytes, layout_bytes,
    layouts_bytes, pkg_bytes, pkg_list_bytes, DescriptionModel, Guid, HiiKey, HiiKeyDescriptor, HiiKeyboardDescription,
    HiiKeyboardLayout, HiiKeyboardPkg, HiiKeyboardPkgList, KeyModel, LayoutModel, PkgListModel,
    PkgModel,
};
use crate::modifiers::{
    CAPS_LOCK_MODIFIER, DELETE_MODIFIER, DOWN_ARROW_MODIFIER, END_MODIFIER, FUNCTION_KEY_EIGHT_MODIFIER, FUNCTION_KEY_ELEVEN_MODIFIER, FUNCTION_KEY_FIVE_MODIFIER, FUNCTION_KEY_FOUR_MODIFIER, FUNCTION_KEY_NINE_MODIFIER, FUNCTION_KEY_ONE_MODIFIER, FUNCTION_KEY_SEVEN_MODIFIER, FUNCTION_KEY_SIX_MODIFIER, FUNCTION_KEY_TEN_MODIFIER, FUNCTION_KEY_THREE_MODIFIER, FUNCTION_KEY_TWELVE_MODIFIER, FUNCTION_KEY_TWO_MODIFIER, HOME_MODIFIER, INSERT_MODIFIER, LEFT_ALT_MODIFIER, LEFT_ARROW_MODIFIER, LEFT_CONTROL_MODIFIER, LEFT_LOGO_MODIFIER, LEFT_SHIFT_MODIFIER, MENU_MODIFIER, NULL_MODIFIER, NUM_LOCK_MODIFIER, PAGE_DOWN_MODIFIER, PAGE_UP_MODIFIER, PAUSE_MODIFIER, PRINT_MODIFIER, RIGHT_ALT_MODIFIER, RIGHT_ARROW_MODIFIER, RIGHT_CONTROL_MODIFIER, RIGHT_LOGO_MODIFIER, RIGHT_SHIFT_MODIFIER, SCROLL_LOCK_MODIFIER, UP_ARROW_MODIFIER,
    AFFECTED_BY_CAPS_LOCK, AFFECTED_BY_NUM_LOCK, AFFECTED_BY_STANDARD_SHIFT,
};
use crate::layout_laws::{
    key_wf, law_pkg_write_read, layout_wf, pkg_wf, layouts_lookahead_ok, lemma_flatten_first,
    lemma_plain_keys_bytes_len, lemma_units_bytes_len, may_follow,
};
use crate::layout_read::{parse_pkg, ParseError};
use crate::utf16::lemma_utf16_encode_len_bmp;
use vstd::prelude::*;
use vstd::string::StringExecFns;

verus! {

/// The GUID of the default keyboard layout, {3a4d7a7c-018a-4b42-81b3-dc10e3b591bd}.
pub open spec fn spec_default_keyboard_layout_guid() -> Guid {
    Guid {
        time_low: 0x3a4d7a7c,
        time_mid: 0x018a,
        time_hi_and_version: 0x4b42,
        clk_seq_hi_res: 0x81,
        clk_seq_low: 0xb3,
        node: [0xdc, 0x10, 0xe3, 0xb5, 0x91, 0xbd],
    }
}

/// The GUID of the default keyboard layout package list, {0c0f3b43-44de-4907-b478-225f6f6289dc}.
pub open spec fn spec_default_pkg_list_guid() -> Guid {
    Guid {
        time_low: 0x0c0f3b43,
        time_mid: 0x44de,
        time_hi_and_version: 0x4907,
        clk_seq_hi_res: 0xb4,
        clk_seq_low: 0x78,
        node: [0x22, 0x5f, 0x6f, 0x62, 0x89, 0xdc],
    }
}

/// A plain key with the given descriptor fields.
pub open spec fn key_model(
    key: EfiKey,
    unicode: u16,
    shifted_unicode: u16,
    alt_gr_unicode: u16,
    shifted_alt_gr_unicode: u16,
    modifier: u16,
    affected_attribute: u16,
) -> KeyModel {
    KeyModel::Key(
        HiiKeyDescriptor {
            key,
            unicode,
            shifted_unicode,
            alt_gr_unicode,
            shifted_alt_gr_unicode,
            modifier,
            affected_attribute,
        },
    )
}

/// The keys of the default layout, in order.
#[verifier::opaque]
pub open spec fn default_keys() -> Seq<KeyModel> {
    seq![
        key_model(EfiKey::EfiKeyC1, 'a' as u16, 'A' as u16, 0, 0, NULL_MODIFIER, AFFECTED_BY_STANDARD_SHIFT | AFFECTED_BY_CAPS_LOCK),
        key_model(EfiKey::EfiKeyB5, 'b' as u16, 'B' as u16, 0, 0, NULL_MODIFIER, AFFECTED_BY_STANDARD_SHIFT | AFFECTED_BY_CAPS_LOCK),
        key_model(EfiKey::EfiKeyB3, 'c' as u16, 'C' as u16, 0, 0, NULL_MODIFIER, AFFECTED_BY_STANDARD_SHIFT | AFFECTED_BY_CAPS_LOCK),
        key_model(EfiKey::EfiKeyC3, 'd' as u16, 'D' as u16, 0, 0, NULL_MODIFIER, AFFECTED_BY_STANDARD_SHIFT | AFFECTED_BY_CAPS_LOCK),
        key_model(EfiKey::EfiKeyD3, 'e' as u16, 'E' as u16, 0, 0, NULL_MODIFIER, AFFECTED_BY_STANDARD_SHIFT | AFFECTED_BY_CAPS_LOCK),
        key_model(EfiKey::EfiKeyC4, 'f' as u16, 'F' as u16, 0, 0, NULL_MODIFIER, AFFECTED_BY_STANDARD_SHIFT | AFFECTED_BY_CAPS_LOCK),
        key_model(EfiKey::EfiKeyC5, 'g' as u16, 'G' as u16, 0, 0, NULL_MODIFIER, AFFECTED_BY_STANDARD_SHIFT | AFFECTED_BY_CAPS_LOCK),
        key_model(EfiKey::EfiKeyC6, 'h' as u16, 'H' as u16, 0, 0, NULL_MODIFIER, AFFECTED_BY_STANDARD_SHIFT | AFFECTED_BY_CAPS_LOCK),
        key_model(EfiKey::EfiKeyD8, 'i' as u16, 'I' as u16, 0, 0, NULL_MODIFIER, AFFECTED_BY_STANDARD_SHIFT | AFFECTED_BY_CAPS_LOCK),
        key_model(EfiKey::EfiKeyC7, 'j' as u16, 'J' as u16, 0, 0, NULL_MODIFIER, AFFECTED_BY_STANDARD_SHIFT | AFFECTED_BY_CAPS_LOCK),
        key_model(EfiKey::EfiKeyC8, 'k' as u16, 'K' as u16, 0, 0, NULL_MODIFIER, AFFECTED_BY_STANDARD_SHIFT | AFFECTED_BY_CAPS_LOCK),
        key_model(EfiKey::EfiKeyC9, 'l' as u16, 'L' as u16, 0, 0, NULL_MODIFIER, AFFECTED_BY_STANDARD_SHIFT | AFFECTED_BY_CAPS_LOCK),
        key_model(EfiKey::EfiKeyB7, 'm' as u16, 'M' as u16, 0, 0, NULL_MODIFIER, AFFECTED_BY_STANDARD_SHIFT | AFFECTED_BY_CAPS_LOCK),
        key_model(EfiKey::EfiKeyB6, 'n' as u16, 'N' as u16, 0, 0, NULL_MODIFIER, AFFECTED_BY_STANDARD_SHIFT | AFFECTED_BY_CAPS_LOCK),
        key_model(EfiKey::EfiKeyD9, 'o' as u16, 'O' as u16, 0, 0, NULL_MODIFIER, AFFECTED_BY_STANDARD_SHIFT | AFFECTED_BY_CAPS_LOCK),
        key_model(EfiKey::EfiKeyD10, 'p' as u16, 'P' as u16, 0, 0, NULL_MODIFIER, AFFECTED_BY_STANDARD_SHIFT | AFFECTED_BY_CAPS_LOCK),
        key_model(EfiKey::EfiKeyD1, 'q' as u16, 'Q' as u16, 0, 0, NULL_MODIFIER, AFFECTED_BY_STANDARD_SHIFT | AFFECTED_BY_CAPS_LOCK),
        key_model(EfiKey::EfiKeyD4, 'r' as u16, 'R' as u16, 0, 0, NULL_MODIFIER, AFFECTED_BY_STANDARD_SHIFT | AFFECTED_BY_CAPS_LOCK),
        key_model(EfiKey::EfiKeyC2, 's' as u16, 'S' as u16, 0, 0, NULL_MODIFIER, AFFECTED_BY_STANDARD_SHIFT | AFFECTED_BY_CAPS_LOCK),
        key_model(EfiKey::EfiKeyD5, 't' as u16, 'T' as u16, 0, 0, NULL_MODIFIER, AFFECTED_BY_STANDARD_SHIFT | AFFECTED_BY_CAPS_LOCK),
        key_model(EfiKey::EfiKeyD7, 'u' as u16, 'U' as u16, 0, 0, NULL_MODIFIER, AFFECTED_BY_STANDARD_SHIFT | AFFECTED_BY_CAPS_LOCK),
        key_model(EfiKey::EfiKeyB4, 'v' as u16, 'V' as u16, 0, 0, NULL_MODIFIER, AFFECTED_BY_STANDARD_SHIFT | AFFECTED_BY_CAPS_LOCK),
        key_model(EfiKey::EfiKeyD2, 'w' as u16, 'W' as u16, 0, 0, NULL_MODIFIER, AFFECTED_BY_STANDARD_SHIFT | AFFECTED_BY_CAPS_LOCK),
        key_model(EfiKey::EfiKeyB2, 'x' as u16, 'X' as u16, 0, 0, NULL_MODIFIER, AFFECTED_BY_STANDARD_SHIFT | AFFECTED_BY_CAPS_LOCK),
        key_model(EfiKey::EfiKeyD6, 'y' as u16, 'Y' as u16, 0, 0, NULL_MODIFIER, AFFECTED_BY_STANDARD_SHIFT | AFFECTED_BY_CAPS_LOCK),
        key_model(EfiKey::EfiKeyB1, 'z' as u16, 'Z' as u16, 0, 0, NULL_MODIFIER, AFFECTED_BY_STANDARD_SHIFT | AFFECTED_BY_CAPS_LOCK),
        key_model(EfiKey::EfiKeyE1, '1' as u16, '!' as u16, 0, 0, NULL_MODIFIER, AFFECTED_BY_STANDARD_SHIFT),
        key_model(EfiKey::EfiKeyE2, '2' as u16, '@' as u16, 0, 0, NULL_MODIFIER, AFFECTED_BY_STANDARD_SHIFT),
        key_model(EfiKey::EfiKeyE3, '3' as u16, '#' as u16, 0, 0, NULL_MODIFIER, AFFECTED_BY_STANDARD_SHIFT),
        key_model(EfiKey::EfiKeyE4, '4' as u16, '$' as u16, 0, 0, NULL_MODIFIER, AFFECTED_BY_STANDARD_SHIFT),
        key_model(EfiKey::EfiKeyE5, '5' as u16, '%' as u16, 0, 0, NULL_MODIFIER, AFFECTED_BY_STANDARD_SHIFT),
        key_model(EfiKey::EfiKeyE6, '6' as u16, '^' as u16, 0, 0, NULL_MODIFIER, AFFECTED_BY_STANDARD_SHIFT),
        key_model(EfiKey::EfiKeyE7, '7' as u16, '&' as u16, 0, 0, NULL_MODIFIER, AFFECTED_BY_STANDARD_SHIFT),
        key_model(EfiKey::EfiKeyE8, '8' as u16, '*' as u16, 0, 0, NULL_MODIFIER, AFFECTED_BY_STANDARD_SHIFT),
        key_model(EfiKey::EfiKeyE9, '9' as u16, '(' as u16, 0, 0, NULL_MODIFIER, AFFECTED_BY_STANDARD_SHIFT),
        key_model(EfiKey::EfiKeyE10, '0' as u16, ')' as u16, 0, 0, NULL_MODIFIER, AFFECTED_BY_STANDARD_SHIFT),
        key_model(EfiKey::EfiKeyEnter, '\x0d' as u16, '\x0d' as u16, 0, 0, NULL_MODIFIER, 0),
        key_model(EfiKey::EfiKeyEsc, '\x1b' as u16, '\x1b' as u16, 0, 0, NULL_MODIFIER, 0),
        key_model(EfiKey::EfiKeyBackSpace, '\x08' as u16, '\x08' as u16, 0, 0, NULL_MODIFIER, 0),
        key_model(EfiKey::EfiKeyTab, '\x09' as u16, '\x09' as u16, 0, 0, NULL_MODIFIER, 0),
        key_model(EfiKey::EfiKeySpaceBar, ' ' as u16, ' ' as u16, 0, 0, NULL_MODIFIER, 0),
        key_model(EfiKey::EfiKeyE11, '-' as u16, '_' as u16, 0, 0, NULL_MODIFIER, AFFECTED_BY_STANDARD_SHIFT),
        key_model(EfiKey::EfiKeyE12, '=' as u16, '+' as u16, 0, 0, NULL_MODIFIER, AFFECTED_BY_STANDARD_SHIFT),
        key_model(EfiKey::EfiKeyD11, '[' as u16, '{' as u16, 0, 0, NULL_MODIFIER, AFFECTED_BY_STANDARD_SHIFT),
        key_model(EfiKey::EfiKeyD12, ']' as u16, '}' as u16, 0, 0, NULL_MODIFIER, AFFECTED_BY_STANDARD_SHIFT),
        key_model(EfiKey::EfiKeyD13, '\\' as u16, '|' as u16, 0, 0, NULL_MODIFIER, AFFECTED_BY_STANDARD_SHIFT),
        key_model(EfiKey::EfiKeyC12, '\\' as u16, '|' as u16, 0, 0, NULL_MODIFIER, AFFECTED_BY_STANDARD_SHIFT),
        key_model(EfiKey::EfiKeyC10, ';' as u16, ':' as u16, 0, 0, NULL_MODIFIER, AFFECTED_BY_STANDARD_SHIFT),
        key_model(EfiKey::EfiKeyC11, '\'' as u16, '"' as u16, 0, 0, NULL_MODIFIER, AFFECTED_BY_STANDARD_SHIFT),
        key_model(EfiKey::EfiKeyE0, '`' as u16, '~' as u16, 0, 0, NULL_MODIFIER, AFFECTED_BY_STANDARD_SHIFT),
        key_model(EfiKey::EfiKeyB8, ',' as u16, '<' as u16, 0, 0, NULL_MODIFIER, AFFECTED_BY_STANDARD_SHIFT),
        key_model(EfiKey::EfiKeyB9, '.' as u16, '>' as u16, 0, 0, NULL_MODIFIER, AFFECTED_BY_STANDARD_SHIFT),
        key_model(EfiKey::EfiKeyB10, '/' as u16, '?' as u16, 0, 0, NULL_MODIFIER, AFFECTED_BY_STANDARD_SHIFT),
        key_model(EfiKey::EfiKeyCapsLock, 0, 0, 0, 0, CAPS_LOCK_MODIFIER, 0),
        key_model(EfiKey::EfiKeyF1, 0, 0, 0, 0, FUNCTION_KEY_ONE_MODIFIER, 0),
        key_model(EfiKey::EfiKeyF2, 0, 0, 0, 0, FUNCTION_KEY_TWO_MODIFIER, 0),
        key_model(EfiKey::EfiKeyF3, 0, 0, 0, 0, FUNCTION_KEY_THREE_MODIFIER, 0),
        key_model(EfiKey::EfiKeyF4, 0, 0, 0, 0, FUNCTION_KEY_FOUR_MODIFIER, 0),
        key_model(EfiKey::EfiKeyF5, 0, 0, 0, 0, FUNCTION_KEY_FIVE_MODIFIER, 0),
        key_model(EfiKey::EfiKeyF6, 0, 0, 0, 0, FUNCTION_KEY_SIX_MODIFIER, 0),
        key_model(EfiKey::EfiKeyF7, 0, 0, 0, 0, FUNCTION_KEY_SEVEN_MODIFIER, 0),
        key_model(EfiKey::EfiKeyF8, 0, 0, 0, 0, FUNCTION_KEY_EIGHT_MODIFIER, 0),
        key_model(EfiKey::EfiKeyF9, 0, 0, 0, 0, FUNCTION_KEY_NINE_MODIFIER, 0),
        key_model(EfiKey::EfiKeyF10, 0, 0, 0, 0, FUNCTION_KEY_TEN_MODIFIER, 0),
        key_model(EfiKey::EfiKeyF11, 0, 0, 0, 0, FUNCTION_KEY_ELEVEN_MODIFIER, 0),
        key_model(EfiKey::EfiKeyF12, 0, 0, 0, 0, FUNCTION_KEY_TWELVE_MODIFIER, 0),
        key_model(EfiKey::EfiKeyPrint, 0, 0, 0, 0, PRINT_MODIFIER, 0),
        key_model(EfiKey::EfiKeySLck, 0, 0, 0, 0, SCROLL_LOCK_MODIFIER, 0),
        key_model(EfiKey::EfiKeyPause, 0, 0, 0, 0, PAUSE_MODIFIER, 0),
        key_model(EfiKey::EfiKeyIns, 0, 0, 0, 0, INSERT_MODIFIER, 0),
        key_model(EfiKey::EfiKeyHome, 0, 0, 0, 0, HOME_MODIFIER, 0),
        key_model(EfiKey::EfiKeyPgUp, 0, 0, 0, 0, PAGE_UP_MODIFIER, 0),
        key_model(EfiKey::EfiKeyDel, 0, 0, 0, 0, DELETE_MODIFIER, 0),
        key_model(EfiKey::EfiKeyEnd, 0, 0, 0, 0, END_MODIFIER, 0),
        key_model(EfiKey::EfiKeyPgDn, 0, 0, 0, 0, PAGE_DOWN_MODIFIER, 0),
        key_model(EfiKey::EfiKeyRightArrow, 0, 0, 0, 0, RIGHT_ARROW_MODIFIER, 0),
        key_model(EfiKey::EfiKeyLeftArrow, 0, 0, 0, 0, LEFT_ARROW_MODIFIER, 0),
        key_model(EfiKey::EfiKeyDownArrow, 0, 0, 0, 0, DOWN_ARROW_MODIFIER, 0),
        key_model(EfiKey::EfiKeyUpArrow, 0, 0, 0, 0, UP_ARROW_MODIFIER, 0),
        key_model(EfiKey::EfiKeyNLck, 0, 0, 0, 0, NUM_LOCK_MODIFIER, 0),
        key_model(EfiKey::EfiKeySlash, '/' as u16, '/' as u16, 0, 0, NULL_MODIFIER, 0),
        key_model(EfiKey::EfiKeyAsterisk, '*' as u16, '*' as u16, 0, 0, NULL_MODIFIER, 0),
        key_model(EfiKey::EfiKeyMinus, '-' as u16, '-' as u16, 0, 0, NULL_MODIFIER, 0),
        key_model(EfiKey::EfiKeyPlus, '+' as u16, '+' as u16, 0, 0, NULL_MODIFIER, 0),
        key_model(EfiKey::EfiKeyEnter, '\x0d' as u16, '\x0d' as u16, 0, 0, NULL_MODIFIER, 0),
        key_model(EfiKey::EfiKeyOne, '1' as u16, '1' as u16, 0, 0, END_MODIFIER, AFFECTED_BY_STANDARD_SHIFT | AFFECTED_BY_NUM_LOCK),
        key_model(EfiKey::EfiKeyTwo, '2' as u16, '2' as u16, 0, 0, DOWN_ARROW_MODIFIER, AFFECTED_BY_STANDARD_SHIFT | AFFECTED_BY_NUM_LOCK),
        key_model(EfiKey::EfiKeyThree, '3' as u16, '3' as u16, 0, 0, PAGE_DOWN_MODIFIER, AFFECTED_BY_STANDARD_SHIFT | AFFECTED_BY_NUM_LOCK),
        key_model(EfiKey::EfiKeyFour, '4' as u16, '4' as u16, 0, 0, LEFT_ARROW_MODIFIER, AFFECTED_BY_STANDARD_SHIFT | AFFECTED_BY_NUM_LOCK),
        key_model(EfiKey::EfiKeyFive, '5' as u16, '5' as u16, 0, 0, NULL_MODIFIER, AFFECTED_BY_STANDARD_SHIFT | AFFECTED_BY_NUM_LOCK),
        key_model(EfiKey::EfiKeySix, '6' as u16, '6' as u16, 0, 0, RIGHT_ARROW_MODIFIER, AFFECTED_BY_STANDARD_SHIFT | AFFECTED_BY_NUM_LOCK),
        key_model(EfiKey::EfiKeySeven, '7' as u16, '7' as u16, 0, 0, HOME_MODIFIER, AFFECTED_BY_STANDARD_SHIFT | AFFECTED_BY_NUM_LOCK),
        key_model(EfiKey::EfiKeyEight, '8' as u16, '8' as u16, 0, 0, UP_ARROW_MODIFIER, AFFECTED_BY_STANDARD_SHIFT | AFFECTED_BY_NUM_LOCK),
        key_model(EfiKey::EfiKeyNine, '9' as u16, '9' as u16, 0, 0, PAGE_UP_MODIFIER, AFFECTED_BY_STANDARD_SHIFT | AFFECTED_BY_NUM_LOCK),
        key_model(EfiKey::EfiKeyZero, '0' as u16, '0' as u16, 0, 0, INSERT_MODIFIER, AFFECTED_BY_STANDARD_SHIFT | AFFECTED_BY_NUM_LOCK),
        key_model(EfiKey::EfiKeyPeriod, '.' as u16, '.' as u16, 0, 0, DELETE_MODIFIER, AFFECTED_BY_STANDARD_SHIFT | AFFECTED_BY_NUM_LOCK),
        key_model(EfiKey::EfiKeyA4, 0, 0, 0, 0, MENU_MODIFIER, 0),
        key_model(EfiKey::EfiKeyLCtrl, 0, 0, 0, 0, LEFT_CONTROL_MODIFIER, 0),
        key_model(EfiKey::EfiKeyLShift, 0, 0, 0, 0, LEFT_SHIFT_MODIFIER, 0),
        key_model(EfiKey::EfiKeyLAlt, 0, 0, 0, 0, LEFT_ALT_MODIFIER, 0),
        key_model(EfiKey::EfiKeyA0, 0, 0, 0, 0, LEFT_LOGO_MODIFIER, 0),
        key_model(EfiKey::EfiKeyRCtrl, 0, 0, 0, 0, RIGHT_CONTROL_MODIFIER, 0),
        key_model(EfiKey::EfiKeyRShift, 0, 0, 0, 0, RIGHT_SHIFT_MODIFIER, 0),
        key_model(EfiKey::EfiKeyA2, 0, 0, 0, 0, RIGHT_ALT_MODIFIER, 0),
        key_model(EfiKey::EfiKeyA3, 0, 0, 0, 0, RIGHT_LOGO_MODIFIER, 0),
    ]
}

/// The description of the default layout.
pub open spec fn default_description() -> DescriptionModel {
    DescriptionModel { language: "en-US"@, description: "English Keyboard"@ }
}

/// The default keyboard layout.
pub open spec fn default_layout_model() -> LayoutModel {
    LayoutModel {
        guid: spec_default_keyboard_layout_guid(),
        keys: default_keys(),
        descriptions: seq![default_description()],
    }
}

/// The default keyboard package: the default layout alone.
pub open spec fn default_pkg_model() -> PkgModel {
    PkgModel { layouts: seq![default_layout_model()] }
}

/// The default keyboard package list.
pub open spec fn default_pkg_list_model() -> PkgListModel {
    PkgListModel { guid: spec_default_pkg_list_guid(), package: default_pkg_model() }
}

/// The GUID of the default keyboard layout.
pub fn default_keyboard_layout_guid() -> (g: Guid)
    ensures
        g == spec_default_keyboard_layout_guid(),
{
    Guid::from_fields(0x3a4d7a7c, 0x018a, 0x4b42, 0x81, 0xb3, &[0xdc, 0x10, 0xe3, 0xb5, 0x91, 0xbd])
}

fn plain_key(
    key: EfiKey,
    unicode: u16,
    shifted_unicode: u16,
    alt_gr_unicode: u16,
    shifted_alt_gr_unicode: u16,
    modifier: u16,
    affected_attribute: u16,
) -> (k: HiiKey)
    ensures
        k@ == key_model(
            key,
            unicode,
            shifted_unicode,
            alt_gr_unicode,
            shifted_alt_gr_unicode,
            modifier,
            affected_attribute,
        ),
{
    HiiKey::Key(
        HiiKeyDescriptor {
            key,
            unicode,
            shifted_unicode,
            alt_gr_unicode,
            shifted_alt_gr_unicode,
            modifier,
            affected_attribute,
        },
    )
}

/// Returns the default keyboard layout (a standard US-104 layout).
pub fn get_default_keyboard_layout() -> (l: HiiKeyboardLayout)
    ensures
        l@ == default_layout_model(),
{
    let keys = vec![
        plain_key(EfiKey::EfiKeyC1, 'a' as u16, 'A' as u16, 0, 0, NULL_MODIFIER, AFFECTED_BY_STANDARD_SHIFT | AFFECTED_BY_CAPS_LOCK),
        plain_key(EfiKey::EfiKeyB5, 'b' as u16, 'B' as u16, 0, 0, NULL_MODIFIER, AFFECTED_BY_STANDARD_SHIFT | AFFECTED_BY_CAPS_LOCK),
        plain_key(EfiKey::EfiKeyB3, 'c' as u16, 'C' as u16, 0, 0, NULL_MODIFIER, AFFECTED_BY_STANDARD_SHIFT | AFFECTED_BY_CAPS_LOCK),
        plain_key(EfiKey::EfiKeyC3, 'd' as u16, 'D' as u16, 0, 0, NULL_MODIFIER, AFFECTED_BY_STANDARD_SHIFT | AFFECTED_BY_CAPS_LOCK),
        plain_key(EfiKey::EfiKeyD3, 'e' as u16, 'E' as u16, 0, 0, NULL_MODIFIER, AFFECTED_BY_STANDARD_SHIFT | AFFECTED_BY_CAPS_LOCK),
        plain_key(EfiKey::EfiKeyC4, 'f' as u16, 'F' as u16, 0, 0, NULL_MODIFIER, AFFECTED_BY_STANDARD_SHIFT | AFFECTED_BY_CAPS_LOCK),
        plain_key(EfiKey::EfiKeyC5, 'g' as u16, 'G' as u16, 0, 0, NULL_MODIFIER, AFFECTED_BY_STANDARD_SHIFT | AFFECTED_BY_CAPS_LOCK),
        plain_key(EfiKey::EfiKeyC6, 'h' as u16, 'H' as u16, 0, 0, NULL_MODIFIER, AFFECTED_BY_STANDARD_SHIFT | AFFECTED_BY_CAPS_LOCK),
        plain_key(EfiKey::EfiKeyD8, 'i' as u16, 'I' as u16, 0, 0, NULL_MODIFIER, AFFECTED_BY_STANDARD_SHIFT | AFFECTED_BY_CAPS_LOCK),
        plain_key(EfiKey::EfiKeyC7, 'j' as u16, 'J' as u16, 0, 0, NULL_MODIFIER, AFFECTED_BY_STANDARD_SHIFT | AFFECTED_BY_CAPS_LOCK),
        plain_key(EfiKey::EfiKeyC8, 'k' as u16, 'K' as u16, 0, 0, NULL_MODIFIER, AFFECTED_BY_STANDARD_SHIFT | AFFECTED_BY_CAPS_LOCK),
        plain_key(EfiKey::EfiKeyC9, 'l' as u16, 'L' as u16, 0, 0, NULL_MODIFIER, AFFECTED_BY_STANDARD_SHIFT | AFFECTED_BY_CAPS_LOCK),
        plain_key(EfiKey::EfiKeyB7, 'm' as u16, 'M' as u16, 0, 0, NULL_MODIFIER, AFFECTED_BY_STANDARD_SHIFT | AFFECTED_BY_CAPS_LOCK),
        plain_key(EfiKey::EfiKeyB6, 'n' as u16, 'N' as u16, 0, 0, NULL_MODIFIER, AFFECTED_BY_STANDARD_SHIFT | AFFECTED_BY_CAPS_LOCK),
        plain_key(EfiKey::EfiKeyD9, 'o' as u16, 'O' as u16, 0, 0, NULL_MODIFIER, AFFECTED_BY_STANDARD_SHIFT | AFFECTED_BY_CAPS_LOCK),
        plain_key(EfiKey::EfiKeyD10, 'p' as u16, 'P' as u16, 0, 0, NULL_MODIFIER, AFFECTED_BY_STANDARD_SHIFT | AFFECTED_BY_CAPS_LOCK),
        plain_key(EfiKey::EfiKeyD1, 'q' as u16, 'Q' as u16, 0, 0, NULL_MODIFIER, AFFECTED_BY_STANDARD_SHIFT | AFFECTED_BY_CAPS_LOCK),
        plain_key(EfiKey::EfiKeyD4, 'r' as u16, 'R' as u16, 0, 0, NULL_MODIFIER, AFFECTED_BY_STANDARD_SHIFT | AFFECTED_BY_CAPS_LOCK),
        plain_key(EfiKey::EfiKeyC2, 's' as u16, 'S' as u16, 0, 0, NULL_MODIFIER, AFFECTED_BY_STANDARD_SHIFT | AFFECTED_BY_CAPS_LOCK),
        plain_key(EfiKey::EfiKeyD5, 't' as u16, 'T' as u16, 0, 0, NULL_MODIFIER, AFFECTED_BY_STANDARD_SHIFT | AFFECTED_BY_CAPS_LOCK),
        plain_key(EfiKey::EfiKeyD7, 'u' as u16, 'U' as u16, 0, 0, NULL_MODIFIER, AFFECTED_BY_STANDARD_SHIFT | AFFECTED_BY_CAPS_LOCK),
        plain_key(EfiKey::EfiKeyB4, 'v' as u16, 'V' as u16, 0, 0, NULL_MODIFIER, AFFECTED_BY_STANDARD_SHIFT | AFFECTED_BY_CAPS_LOCK),
        plain_key(EfiKey::EfiKeyD2, 'w' as u16, 'W' as u16, 0, 0, NULL_MODIFIER, AFFECTED_BY_STANDARD_SHIFT | AFFECTED_BY_CAPS_LOCK),
        plain_key(EfiKey::EfiKeyB2, 'x' as u16, 'X' as u16, 0, 0, NULL_MODIFIER, AFFECTED_BY_STANDARD_SHIFT | AFFECTED_BY_CAPS_LOCK),
        plain_key(EfiKey::EfiKeyD6, 'y' as u16, 'Y' as u16, 0, 0, NULL_MODIFIER, AFFECTED_BY_STANDARD_SHIFT | AFFECTED_BY_CAPS_LOCK),
        plain_key(EfiKey::EfiKeyB1, 'z' as u16, 'Z' as u16, 0, 0, NULL_MODIFIER, AFFECTED_BY_STANDARD_SHIFT | AFFECTED_BY_CAPS_LOCK),
        plain_key(EfiKey::EfiKeyE1, '1' as u16, '!' as u16, 0, 0, NULL_MODIFIER, AFFECTED_BY_STANDARD_SHIFT),
        plain_key(EfiKey::EfiKeyE2, '2' as u16, '@' as u16, 0, 0, NULL_MODIFIER, AFFECTED_BY_STANDARD_SHIFT),
        plain_key(EfiKey::EfiKeyE3, '3' as u16, '#' as u16, 0, 0, NULL_MODIFIER, AFFECTED_BY_STANDARD_SHIFT),
        plain_key(EfiKey::EfiKeyE4, '4' as u16, '$' as u16, 0, 0, NULL_MODIFIER, AFFECTED_BY_STANDARD_SHIFT),
        plain_key(EfiKey::EfiKeyE5, '5' as u16, '%' as u16, 0, 0, NULL_MODIFIER, AFFECTED_BY_STANDARD_SHIFT),
        plain_key(EfiKey::EfiKeyE6, '6' as u16, '^' as u16, 0, 0, NULL_MODIFIER, AFFECTED_BY_STANDARD_SHIFT),
        plain_key(EfiKey::EfiKeyE7, '7' as u16, '&' as u16, 0, 0, NULL_MODIFIER, AFFECTED_BY_STANDARD_SHIFT),
        plain_key(EfiKey::EfiKeyE8, '8' as u16, '*' as u16, 0, 0, NULL_MODIFIER, AFFECTED_BY_STANDARD_SHIFT),
        plain_key(EfiKey::EfiKeyE9, '9' as u16, '(' as u16, 0, 0, NULL_MODIFIER, AFFECTED_BY_STANDARD_SHIFT),
        plain_key(EfiKey::EfiKeyE10, '0' as u16, ')' as u16, 0, 0, NULL_MODIFIER, AFFECTED_BY_STANDARD_SHIFT),
        plain_key(EfiKey::EfiKeyEnter, '\x0d' as u16, '\x0d' as u16, 0, 0, NULL_MODIFIER, 0),
        plain_key(EfiKey::EfiKeyEsc, '\x1b' as u16, '\x1b' as u16, 0, 0, NULL_MODIFIER, 0),
        plain_key(EfiKey::EfiKeyBackSpace, '\x08' as u16, '\x08' as u16, 0, 0, NULL_MODIFIER, 0),
        plain_key(EfiKey::EfiKeyTab, '\x09' as u16, '\x09' as u16, 0, 0, NULL_MODIFIER, 0),
        plain_key(EfiKey::EfiKeySpaceBar, ' ' as u16, ' ' as u16, 0, 0, NULL_MODIFIER, 0),
        plain_key(EfiKey::EfiKeyE11, '-' as u16, '_' as u16, 0, 0, NULL_MODIFIER, AFFECTED_BY_STANDARD_SHIFT),
        plain_key(EfiKey::EfiKeyE12, '=' as u16, '+' as u16, 0, 0, NULL_MODIFIER, AFFECTED_BY_STANDARD_SHIFT),
        plain_key(EfiKey::EfiKeyD11, '[' as u16, '{' as u16, 0, 0, NULL_MODIFIER, AFFECTED_BY_STANDARD_SHIFT),
        plain_key(EfiKey::EfiKeyD12, ']' as u16, '}' as u16, 0, 0, NULL_MODIFIER, AFFECTED_BY_STANDARD_SHIFT),
        plain_key(EfiKey::EfiKeyD13, '\\' as u16, '|' as u16, 0, 0, NULL_MODIFIER, AFFECTED_BY_STANDARD_SHIFT),
        plain_key(EfiKey::EfiKeyC12, '\\' as u16, '|' as u16, 0, 0, NULL_MODIFIER, AFFECTED_BY_STANDARD_SHIFT),
        plain_key(EfiKey::EfiKeyC10, ';' as u16, ':' as u16, 0, 0, NULL_MODIFIER, AFFECTED_BY_STANDARD_SHIFT),
        plain_key(EfiKey::EfiKeyC11, '\'' as u16, '"' as u16, 0, 0, NULL_MODIFIER, AFFECTED_BY_STANDARD_SHIFT),
        plain_key(EfiKey::EfiKeyE0, '`' as u16, '~' as u16, 0, 0, NULL_MODIFIER, AFFECTED_BY_STANDARD_SHIFT),
        plain_key(EfiKey::EfiKeyB8, ',' as u16, '<' as u16, 0, 0, NULL_MODIFIER, AFFECTED_BY_STANDARD_SHIFT),
        plain_key(EfiKey::EfiKeyB9, '.' as u16, '>' as u16, 0, 0, NULL_MODIFIER, AFFECTED_BY_STANDARD_SHIFT),
        plain_key(EfiKey::EfiKeyB10, '/' as u16, '?' as u16, 0, 0, NULL_MODIFIER, AFFECTED_BY_STANDARD_SHIFT),
        plain_key(EfiKey::EfiKeyCapsLock, 0, 0, 0, 0, CAPS_LOCK_MODIFIER, 0),
        plain_key(EfiKey::EfiKeyF1, 0, 0, 0, 0, FUNCTION_KEY_ONE_MODIFIER, 0),
        plain_key(EfiKey::EfiKeyF2, 0, 0, 0, 0, FUNCTION_KEY_TWO_MODIFIER, 0),
        plain_key(EfiKey::EfiKeyF3, 0, 0, 0, 0, FUNCTION_KEY_THREE_MODIFIER, 0),
        plain_key(EfiKey::EfiKeyF4, 0, 0, 0, 0, FUNCTION_KEY_FOUR_MODIFIER, 0),
        plain_key(EfiKey::EfiKeyF5, 0, 0, 0, 0, FUNCTION_KEY_FIVE_MODIFIER, 0),
        plain_key(EfiKey::EfiKeyF6, 0, 0, 0, 0, FUNCTION_KEY_SIX_MODIFIER, 0),
        plain_key(EfiKey::EfiKeyF7, 0, 0, 0, 0, FUNCTION_KEY_SEVEN_MODIFIER, 0),
        plain_key(EfiKey::EfiKeyF8, 0, 0, 0, 0, FUNCTION_KEY_EIGHT_MODIFIER, 0),
        plain_key(EfiKey::EfiKeyF9, 0, 0, 0, 0, FUNCTION_KEY_NINE_MODIFIER, 0),
        plain_key(EfiKey::EfiKeyF10, 0, 0, 0, 0, FUNCTION_KEY_TEN_MODIFIER, 0),
        plain_key(EfiKey::EfiKeyF11, 0, 0, 0, 0, FUNCTION_KEY_ELEVEN_MODIFIER, 0),
        plain_key(EfiKey::EfiKeyF12, 0, 0, 0, 0, FUNCTION_KEY_TWELVE_MODIFIER, 0),
        plain_key(EfiKey::EfiKeyPrint, 0, 0, 0, 0, PRINT_MODIFIER, 0),
        plain_key(EfiKey::EfiKeySLck, 0, 0, 0, 0, SCROLL_LOCK_MODIFIER, 0),
        plain_key(EfiKey::EfiKeyPause, 0, 0, 0, 0, PAUSE_MODIFIER, 0),
        plain_key(EfiKey::EfiKeyIns, 0, 0, 0, 0, INSERT_MODIFIER, 0),
        plain_key(EfiKey::EfiKeyHome, 0, 0, 0, 0, HOME_MODIFIER, 0),
        plain_key(EfiKey::EfiKeyPgUp, 0, 0, 0, 0, PAGE_UP_MODIFIER, 0),
        plain_key(EfiKey::EfiKeyDel, 0, 0, 0, 0, DELETE_MODIFIER, 0),
        plain_key(EfiKey::EfiKeyEnd, 0, 0, 0, 0, END_MODIFIER, 0),
        plain_key(EfiKey::EfiKeyPgDn, 0, 0, 0, 0, PAGE_DOWN_MODIFIER, 0),
        plain_key(EfiKey::EfiKeyRightArrow, 0, 0, 0, 0, RIGHT_ARROW_MODIFIER, 0),
        plain_key(EfiKey::EfiKeyLeftArrow, 0, 0, 0, 0, LEFT_ARROW_MODIFIER, 0),
        plain_key(EfiKey::EfiKeyDownArrow, 0, 0, 0, 0, DOWN_ARROW_MODIFIER, 0),
        plain_key(EfiKey::EfiKeyUpArrow, 0, 0, 0, 0, UP_ARROW_MODIFIER, 0),
        plain_key(EfiKey::EfiKeyNLck, 0, 0, 0, 0, NUM_LOCK_MODIFIER, 0),
        plain_key(EfiKey::EfiKeySlash, '/' as u16, '/' as u16, 0, 0, NULL_MODIFIER, 0),
        plain_key(EfiKey::EfiKeyAsterisk, '*' as u16, '*' as u16, 0, 0, NULL_MODIFIER, 0),
        plain_key(EfiKey::EfiKeyMinus, '-' as u16, '-' as u16, 0, 0, NULL_MODIFIER, 0),
        plain_key(EfiKey::EfiKeyPlus, '+' as u16, '+' as u16, 0, 0, NULL_MODIFIER, 0),
        plain_key(EfiKey::EfiKeyEnter, '\x0d' as u16, '\x0d' as u16, 0, 0, NULL_MODIFIER, 0),
        plain_key(EfiKey::EfiKeyOne, '1' as u16, '1' as u16, 0, 0, END_MODIFIER, AFFECTED_BY_STANDARD_SHIFT | AFFECTED_BY_NUM_LOCK),
        plain_key(EfiKey::EfiKeyTwo, '2' as u16, '2' as u16, 0, 0, DOWN_ARROW_MODIFIER, AFFECTED_BY_STANDARD_SHIFT | AFFECTED_BY_NUM_LOCK),
        plain_key(EfiKey::EfiKeyThree, '3' as u16, '3' as u16, 0, 0, PAGE_DOWN_MODIFIER, AFFECTED_BY_STANDARD_SHIFT | AFFECTED_BY_NUM_LOCK),
        plain_key(EfiKey::EfiKeyFour, '4' as u16, '4' as u16, 0, 0, LEFT_ARROW_MODIFIER, AFFECTED_BY_STANDARD_SHIFT | AFFECTED_BY_NUM_LOCK),
        plain_key(EfiKey::EfiKeyFive, '5' as u16, '5' as u16, 0, 0, NULL_MODIFIER, AFFECTED_BY_STANDARD_SHIFT | AFFECTED_BY_NUM_LOCK),
        plain_key(EfiKey::EfiKeySix, '6' as u16, '6' as u16, 0, 0, RIGHT_ARROW_MODIFIER, AFFECTED_BY_STANDARD_SHIFT | AFFECTED_BY_NUM_LOCK),
        plain_key(EfiKey::EfiKeySeven, '7' as u16, '7' as u16, 0, 0, HOME_MODIFIER, AFFECTED_BY_STANDARD_SHIFT | AFFECTED_BY_NUM_LOCK),
        plain_key(EfiKey::EfiKeyEight, '8' as u16, '8' as u16, 0, 0, UP_ARROW_MODIFIER, AFFECTED_BY_STANDARD_SHIFT | AFFECTED_BY_NUM_LOCK),
        plain_key(EfiKey::EfiKeyNine, '9' as u16, '9' as u16, 0, 0, PAGE_UP_MODIFIER, AFFECTED_BY_STANDARD_SHIFT | AFFECTED_BY_NUM_LOCK),
        plain_key(EfiKey::EfiKeyZero, '0' as u16, '0' as u16, 0, 0, INSERT_MODIFIER, AFFECTED_BY_STANDARD_SHIFT | AFFECTED_BY_NUM_LOCK),
        plain_key(EfiKey::EfiKeyPeriod, '.' as u16, '.' as u16, 0, 0, DELETE_MODIFIER, AFFECTED_BY_STANDARD_SHIFT | AFFECTED_BY_NUM_LOCK),
        plain_key(EfiKey::EfiKeyA4, 0, 0, 0, 0, MENU_MODIFIER, 0),
        plain_key(EfiKey::EfiKeyLCtrl, 0, 0, 0, 0, LEFT_CONTROL_MODIFIER, 0),
        plain_key(EfiKey::EfiKeyLShift, 0, 0, 0, 0, LEFT_SHIFT_MODIFIER, 0),
        plain_key(EfiKey::EfiKeyLAlt, 0, 0, 0, 0, LEFT_ALT_MODIFIER, 0),
        plain_key(EfiKey::EfiKeyA0, 0, 0, 0, 0, LEFT_LOGO_MODIFIER, 0),
        plain_key(EfiKey::EfiKeyRCtrl, 0, 0, 0, 0, RIGHT_CONTROL_MODIFIER, 0),
        plain_key(EfiKey::EfiKeyRShift, 0, 0, 0, 0, RIGHT_SHIFT_MODIFIER, 0),
        plain_key(EfiKey::EfiKeyA2, 0, 0, 0, 0, RIGHT_ALT_MODIFIER, 0),
        plain_key(EfiKey::EfiKeyA3, 0, 0, 0, 0, RIGHT_LOGO_MODIFIER, 0),
    ];
    let language = String::from_str("en-US");
    let description = String::from_str("English Keyboard");
    let descriptions = vec![HiiKeyboardDescription { language, description }];
    let l = HiiKeyboardLayout { guid: default_keyboard_layout_guid(), keys, descriptions };
    reveal(default_keys);
    assert(l@.keys =~= default_keys());
    assert(l@.descriptions =~= seq![default_description()]);
    l
}

/// Returns the default keyboard layout package.
pub fn get_default_keyboard_pkg() -> (p: HiiKeyboardPkg)
    ensures
        p@ == default_pkg_model(),
{
    let p = HiiKeyboardPkg { layouts: vec![get_default_keyboard_layout()] };
    assert(p@.layouts =~= seq![default_layout_model()]);
    p
}

/// Returns the default keyboard layout package list.
pub fn get_default_keyboard_pkg_list() -> (pl: HiiKeyboardPkgList)
    ensures
        pl@ == default_pkg_list_model(),
{
    let guid = Guid::from_fields(0x0c0f3b43, 0x44de, 0x4907, 0xb4, 0x78, &[0x22, 0x5f, 0x6f, 0x62, 0x89, 0xdc]);
    HiiKeyboardPkgList { package_list_guid: guid, package: get_default_keyboard_pkg() }
}

/// The default layout is well formed: its keys are plain keys whose modifiers are not the
/// non-spacing ones, and its description language holds no space and no part holds a NUL.
pub proof fn lemma_default_layout_wf()
    ensures
        layout_wf(default_layout_model()),
        default_keys().last() is Key,
        keys_bytes(default_keys()).len() == 1680,
        description_bytes(default_description()).len() == 46,
{
    reveal(default_keys);
    let ks = default_keys();
    assert forall|i: int| 0 <= i < ks.len() implies #[trigger] ks[i] is Key && key_wf(ks[i]) by {}
    lemma_plain_keys_bytes_len(ks);
    assert forall|i: int| 0 <= i < ks.len() - 1 implies #[trigger] may_follow(ks[i], ks[i + 1]) by {
        assert(ks[i] is Key);
    }
    reveal_strlit("en-US");
    reveal_strlit("English Keyboard");
    let d = default_description();
    assert(!d.language.contains(' ')) by {
        assert forall|i: int| 0 <= i < d.language.len() implies d.language[i] != ' ' by {}
    }
    assert(!d.language.contains('\0')) by {
        assert forall|i: int| 0 <= i < d.language.len() implies d.language[i] != '\0' by {}
    }
    assert(!d.description.contains('\0')) by {
        assert forall|i: int| 0 <= i < d.description.len() implies d.description[i] != '\0' by {}
    }
    let cs = d.language + seq![' '] + d.description;
    assert forall|i: int| 0 <= i < cs.len() implies (#[trigger] cs[i] as u32) < 0x10000 by {}
    lemma_utf16_encode_len_bmp(cs);
    lemma_units_bytes_len(description_units(d));
}

/// The default package is well formed, and reading it back never looks past its last key.
pub proof fn lemma_default_pkg_wf()
    ensures
        pkg_wf(default_pkg_model()),
        forall|s: Seq<u8>, pos: int| #[trigger] layouts_lookahead_ok(default_pkg_model().layouts, s, pos),
{
    lemma_default_layout_wf();
    let p = default_pkg_model();
    assert(p.layouts.drop_first() =~= Seq::<LayoutModel>::empty());
    assert forall|s: Seq<u8>, pos: int| #[trigger] layouts_lookahead_ok(p.layouts, s, pos) by {
        assert(layouts_lookahead_ok(p.layouts.drop_first(), s, pos + layout_bytes(p.layouts[0]).len()));
    }
}

/// The default package list takes 1781 bytes.
pub proof fn lemma_default_pkg_list_len()
    ensures
        pkg_list_bytes(default_pkg_list_model()).len() == 1781,
{
    lemma_default_layout_wf();
    let l = default_layout_model();
    lemma_flatten_first(seq![default_description()], |d: DescriptionModel| description_bytes(d));
    assert(seq![default_description()].drop_first() =~= Seq::<DescriptionModel>::empty());
    assert(descriptions_bytes(l.descriptions).len() == 46);
    assert(layout_bytes(l).len() == 1751);
    lemma_flatten_first(seq![l], |m: LayoutModel| layout_bytes(m));
    assert(seq![l].drop_first() =~= Seq::<LayoutModel>::empty());
    assert(layouts_bytes(seq![l]).len() == 1751);
}

/// The default keyboard package, written and followed by any bytes, reads back as itself and the
/// number of bytes written.
pub proof fn law_default_pkg_write_read(rest: Seq<u8>)
    ensures
        parse_pkg(pkg_bytes(default_pkg_model()) + rest, 0) == Ok::<(PkgModel, int), ParseError>(
            (default_pkg_model(), pkg_bytes(default_pkg_model()).len() as int),
        ),
{
    lemma_default_pkg_wf();
    law_pkg_write_read(default_pkg_model(), rest);
}

/// Returns the default keyboard layout package list as the bytes it is written as, which fit in the
/// 4096-byte buffer it is written into.
pub fn get_default_keyboard_pkg_list_buffer() -> (r: Vec<u8>)
    ensures
        r@ == pkg_list_bytes(default_pkg_list_model()),
        r@.len() == 1781,
{
    let mut buffer: Vec<u8> = vec![0u8; 4096];
    let pkg_list = get_default_keyboard_pkg_list();
    proof {
        lemma_default_pkg_list_len();
    }
    match pkg_list.write_into(buffer.as_mut_slice()) {
        Ok(size) => {
            buffer.truncate(size);
            assert(buffer@ =~= pkg_list_bytes(default_pkg_list_model()));
            buffer
        },
        Err(_) => {
            assert(false);
            Vec::new()
        },
    }
}

/// The character a US keyboard types, without shift, for a HID keyboard usage from 0x04 to 0x2C,
/// by the names of the HID usage tables: the letters a to z (0x04 to 0x1D), the digits 1 to 9 and 0
/// (0x1E to 0x27), then enter, escape, backspace, tab and space.
pub open spec fn us_usage_character(usage: u32) -> u16 {
    let id = usage - 0x0007_0000;
    if 0x04 <= id <= 0x1D {
        (0x61 + (id - 0x04)) as u16
    } else if 0x1E <= id <= 0x26 {
        (0x31 + (id - 0x1E)) as u16
    } else if id == 0x27 {
        0x30
    } else if id == 0x28 {
        0x0D
    } else if id == 0x29 {
        0x1B
    } else if id == 0x2A {
        0x08
    } else if id == 0x2B {
        0x09
    } else {
        0x20
    }
}

/// The HID keyboard usages name the keys of the default layout in its order: usage 0x04 + `i` (the
/// letters, digits, punctuation, locks, function, editing and keypad keys up to keypad period,
/// 0x63) names the physical key of the layout's `i`-th key, the application key (0x65) the next one,
/// and the modifiers from left control to right logo (0xE0 to 0xE7) the eight after it. Usage 0x64
/// names the key left of Z, which the default layout leaves out; no other usage names a key.
pub proof fn law_usages_name_default_layout_keys(u: u32)
    ensures
        default_keys().len() == 105,
        0x0007_0004 <= u <= 0x0007_0063 ==> spec_usage_to_efi_key(u) == Some(
            key_of(default_keys()[u - 0x0007_0004]),
        ),
        u == 0x0007_0064 ==> spec_usage_to_efi_key(u) == Some(EfiKey::EfiKeyB0),
        u == 0x0007_0065 ==> spec_usage_to_efi_key(u) == Some(key_of(default_keys()[96])),
        0x0007_00E0 <= u <= 0x0007_00E7 ==> spec_usage_to_efi_key(u) == Some(
            key_of(default_keys()[u - 0x0007_00E0 + 97]),
        ),
        !(0x0007_0004 <= u <= 0x0007_0065 || 0x0007_00E0 <= u <= 0x0007_00E7) ==> spec_usage_to_efi_key(u)
            is None,
{
    reveal(default_keys);
}

/// Each usage from 0x04 to 0x2C types, with the default layout, the character the HID usage
/// tables name it by: the layout's key for the usage's physical key is a plain key with that
/// character, and for the letters the capital letter with shift.
pub proof fn law_usages_type_us_characters(u: u32)
    requires
        0x0007_0004 <= u <= 0x0007_002C,
    ensures
        default_keys()[u - 0x0007_0004] matches KeyModel::Key(d) && spec_usage_to_efi_key(u) == Some(d.key)
            && d.unicode == us_usage_character(u) && (u <= 0x0007_001D ==> d.shifted_unicode
            == us_usage_character(u) - 0x20),
{
    reveal(default_keys);
}

} // verus!
