use vstd::prelude::*;

verus! {

/// The physical keys of a keyboard, in the order that gives each key its numeric code.
#[derive(Debug, Clone, Copy, PartialEq, Eq, Structural)]
pub enum EfiKey {
    EfiKeyLCtrl,
    EfiKeyA0,
    EfiKeyLAlt,
    EfiKeySpaceBar,
    EfiKeyA2,
    EfiKeyA3,
    EfiKeyA4,
    EfiKeyRCtrl,
    EfiKeyLeftArrow,
    EfiKeyDownArrow,
    EfiKeyRightArrow,
    EfiKeyZero,
    EfiKeyPeriod,
    EfiKeyEnter,
    EfiKeyLShift,
    EfiKeyB0,
    EfiKeyB1,
    EfiKeyB2,
    EfiKeyB3,
    EfiKeyB4,
    EfiKeyB5,
    EfiKeyB6,
    EfiKeyB7,
    EfiKeyB8,
    EfiKeyB9,
    EfiKeyB10,
    EfiKeyRShift,
    EfiKeyUpArrow,
    EfiKeyOne,
    EfiKeyTwo,
    EfiKeyThree,
    EfiKeyCapsLock,
    EfiKeyC1,
    EfiKeyC2,
    EfiKeyC3,
    EfiKeyC4,
    EfiKeyC5,
    EfiKeyC6,
    EfiKeyC7,
    EfiKeyC8,
    EfiKeyC9,
    EfiKeyC10,
    EfiKeyC11,
    EfiKeyC12,
    EfiKeyFour,
    EfiKeyFive,
    EfiKeySix,
    EfiKeyPlus,
    EfiKeyTab,
    EfiKeyD1,
    EfiKeyD2,
    EfiKeyD3,
    EfiKeyD4,
    EfiKeyD5,
    EfiKeyD6,
    EfiKeyD7,
    EfiKeyD8,
    EfiKeyD9,
    EfiKeyD10,
    EfiKeyD11,
    EfiKeyD12,
    EfiKeyD13,
    EfiKeyDel,
    EfiKeyEnd,
    EfiKeyPgDn,
    EfiKeySeven,
    EfiKeyEight,
    EfiKeyNine,
    EfiKeyE0,
    EfiKeyE1,
    EfiKeyE2,
    EfiKeyE3,
    EfiKeyE4,
    EfiKeyE5,
    EfiKeyE6,
    EfiKeyE7,
    EfiKeyE8,
    EfiKeyE9,
    EfiKeyE10,
    EfiKeyE11,
    EfiKeyE12,
    EfiKeyBackSpace,
    EfiKeyIns,
    EfiKeyHome,
    EfiKeyPgUp,
    EfiKeyNLck,
    EfiKeySlash,
    EfiKeyAsterisk,
    EfiKeyMinus,
    EfiKeyEsc,
    EfiKeyF1,
    EfiKeyF2,
    EfiKeyF3,
    EfiKeyF4,
    EfiKeyF5,
    EfiKeyF6,
    EfiKeyF7,
    EfiKeyF8,
    EfiKeyF9,
    EfiKeyF10,
    EfiKeyF11,
    EfiKeyF12,
    EfiKeyPrint,
    EfiKeySLck,
    EfiKeyPause,
    EfiKeyIntl0,
    EfiKeyIntl1,
    EfiKeyIntl2,
    EfiKeyIntl3,
    EfiKeyIntl4,
    EfiKeyIntl5,
    EfiKeyIntl6,
    EfiKeyIntl7,
    EfiKeyIntl8,
    EfiKeyIntl9,
}

/// Largest numeric code of a physical key.
pub const EFI_KEY_MAX_CODE: u32 = 114;

impl EfiKey {
    /// The numeric code of the key: its position in the declaration order.
    pub open spec fn spec_code(self) -> u32 {
        match self {
            EfiKey::EfiKeyLCtrl => 0,
            EfiKey::EfiKeyA0 => 1,
            EfiKey::EfiKeyLAlt => 2,
            EfiKey::EfiKeySpaceBar => 3,
            EfiKey::EfiKeyA2 => 4,
            EfiKey::EfiKeyA3 => 5,
            EfiKey::EfiKeyA4 => 6,
            EfiKey::EfiKeyRCtrl => 7,
            EfiKey::EfiKeyLeftArrow => 8,
            EfiKey::EfiKeyDownArrow => 9,
            EfiKey::EfiKeyRightArrow => 10,
            EfiKey::EfiKeyZero => 11,
            EfiKey::EfiKeyPeriod => 12,
            EfiKey::EfiKeyEnter => 13,
            EfiKey::EfiKeyLShift => 14,
            EfiKey::EfiKeyB0 => 15,
            EfiKey::EfiKeyB1 => 16,
            EfiKey::EfiKeyB2 => 17,
            EfiKey::EfiKeyB3 => 18,
            EfiKey::EfiKeyB4 => 19,
            EfiKey::EfiKeyB5 => 20,
            EfiKey::EfiKeyB6 => 21,
            EfiKey::EfiKeyB7 => 22,
            EfiKey::EfiKeyB8 => 23,
            EfiKey::EfiKeyB9 => 24,
            EfiKey::EfiKeyB10 => 25,
            EfiKey::EfiKeyRShift => 26,
            EfiKey::EfiKeyUpArrow => 27,
            EfiKey::EfiKeyOne => 28,
            EfiKey::EfiKeyTwo => 29,
            EfiKey::EfiKeyThree => 30,
            EfiKey::EfiKeyCapsLock => 31,
            EfiKey::EfiKeyC1 => 32,
            EfiKey::EfiKeyC2 => 33,
            EfiKey::EfiKeyC3 => 34,
            EfiKey::EfiKeyC4 => 35,
            EfiKey::EfiKeyC5 => 36,
            EfiKey::EfiKeyC6 => 37,
            EfiKey::EfiKeyC7 => 38,
            EfiKey::EfiKeyC8 => 39,
            EfiKey::EfiKeyC9 => 40,
            EfiKey::EfiKeyC10 => 41,
            EfiKey::EfiKeyC11 => 42,
            EfiKey::EfiKeyC12 => 43,
            EfiKey::EfiKeyFour => 44,
            EfiKey::EfiKeyFive => 45,
            EfiKey::EfiKeySix => 46,
            EfiKey::EfiKeyPlus => 47,
            EfiKey::EfiKeyTab => 48,
            EfiKey::EfiKeyD1 => 49,
            EfiKey::EfiKeyD2 => 50,
            EfiKey::EfiKeyD3 => 51,
            EfiKey::EfiKeyD4 => 52,
            EfiKey::EfiKeyD5 => 53,
            EfiKey::EfiKeyD6 => 54,
            EfiKey::EfiKeyD7 => 55,
            EfiKey::EfiKeyD8 => 56,
            EfiKey::EfiKeyD9 => 57,
            EfiKey::EfiKeyD10 => 58,
            EfiKey::EfiKeyD11 => 59,
            EfiKey::EfiKeyD12 => 60,
            EfiKey::EfiKeyD13 => 61,
            EfiKey::EfiKeyDel => 62,
            EfiKey::EfiKeyEnd => 63,
            EfiKey::EfiKeyPgDn => 64,
            EfiKey::EfiKeySeven => 65,
            EfiKey::EfiKeyEight => 66,
            EfiKey::EfiKeyNine => 67,
            EfiKey::EfiKeyE0 => 68,
            EfiKey::EfiKeyE1 => 69,
            EfiKey::EfiKeyE2 => 70,
            EfiKey::EfiKeyE3 => 71,
            EfiKey::EfiKeyE4 => 72,
            EfiKey::EfiKeyE5 => 73,
            EfiKey::EfiKeyE6 => 74,
            EfiKey::EfiKeyE7 => 75,
            EfiKey::EfiKeyE8 => 76,
            EfiKey::EfiKeyE9 => 77,
            EfiKey::EfiKeyE10 => 78,
            EfiKey::EfiKeyE11 => 79,
            EfiKey::EfiKeyE12 => 80,
            EfiKey::EfiKeyBackSpace => 81,
            EfiKey::EfiKeyIns => 82,
            EfiKey::EfiKeyHome => 83,
            EfiKey::EfiKeyPgUp => 84,
            EfiKey::EfiKeyNLck => 85,
            EfiKey::EfiKeySlash => 86,
            EfiKey::EfiKeyAsterisk => 87,
            EfiKey::EfiKeyMinus => 88,
            EfiKey::EfiKeyEsc => 89,
            EfiKey::EfiKeyF1 => 90,
            EfiKey::EfiKeyF2 => 91,
            EfiKey::EfiKeyF3 => 92,
            EfiKey::EfiKeyF4 => 93,
            EfiKey::EfiKeyF5 => 94,
            EfiKey::EfiKeyF6 => 95,
            EfiKey::EfiKeyF7 => 96,
            EfiKey::EfiKeyF8 => 97,
            EfiKey::EfiKeyF9 => 98,
            EfiKey::EfiKeyF10 => 99,
            EfiKey::EfiKeyF11 => 100,
            EfiKey::EfiKeyF12 => 101,
            EfiKey::EfiKeyPrint => 102,
            EfiKey::EfiKeySLck => 103,
            EfiKey::EfiKeyPause => 104,
            EfiKey::EfiKeyIntl0 => 105,
            EfiKey::EfiKeyIntl1 => 106,
            EfiKey::EfiKeyIntl2 => 107,
            EfiKey::EfiKeyIntl3 => 108,
            EfiKey::EfiKeyIntl4 => 109,
            EfiKey::EfiKeyIntl5 => 110,
            EfiKey::EfiKeyIntl6 => 111,
            EfiKey::EfiKeyIntl7 => 112,
            EfiKey::EfiKeyIntl8 => 113,
            EfiKey::EfiKeyIntl9 => 114,
        }
    }

    /// The key with the given numeric code, if there is one.
    pub open spec fn spec_from_code(v: u32) -> Option<EfiKey> {
        match v {
            0 => Some(EfiKey::EfiKeyLCtrl),
            1 => Some(EfiKey::EfiKeyA0),
            2 => Some(EfiKey::EfiKeyLAlt),
            3 => Some(EfiKey::EfiKeySpaceBar),
            4 => Some(EfiKey::EfiKeyA2),
            5 => Some(EfiKey::EfiKeyA3),
            6 => Some(EfiKey::EfiKeyA4),
            7 => Some(EfiKey::EfiKeyRCtrl),
            8 => Some(EfiKey::EfiKeyLeftArrow),
            9 => Some(EfiKey::EfiKeyDownArrow),
            10 => Some(EfiKey::EfiKeyRightArrow),
            11 => Some(EfiKey::EfiKeyZero),
            12 => Some(EfiKey::EfiKeyPeriod),
            13 => Some(EfiKey::EfiKeyEnter),
            14 => Some(EfiKey::EfiKeyLShift),
            15 => Some(EfiKey::EfiKeyB0),
            16 => Some(EfiKey::EfiKeyB1),
            17 => Some(EfiKey::EfiKeyB2),
            18 => Some(EfiKey::EfiKeyB3),
            19 => Some(EfiKey::EfiKeyB4),
            20 => Some(EfiKey::EfiKeyB5),
            21 => Some(EfiKey::EfiKeyB6),
            22 => Some(EfiKey::EfiKeyB7),
            23 => Some(EfiKey::EfiKeyB8),
            24 => Some(EfiKey::EfiKeyB9),
            25 => Some(EfiKey::EfiKeyB10),
            26 => Some(EfiKey::EfiKeyRShift),
            27 => Some(EfiKey::EfiKeyUpArrow),
            28 => Some(EfiKey::EfiKeyOne),
            29 => Some(EfiKey::EfiKeyTwo),
            30 => Some(EfiKey::EfiKeyThree),
            31 => Some(EfiKey::EfiKeyCapsLock),
            32 => Some(EfiKey::EfiKeyC1),
            33 => Some(EfiKey::EfiKeyC2),
            34 => Some(EfiKey::EfiKeyC3),
            35 => Some(EfiKey::EfiKeyC4),
            36 => Some(EfiKey::EfiKeyC5),
            37 => Some(EfiKey::EfiKeyC6),
            38 => Some(EfiKey::EfiKeyC7),
            39 => Some(EfiKey::EfiKeyC8),
            40 => Some(EfiKey::EfiKeyC9),
            41 => Some(EfiKey::EfiKeyC10),
            42 => Some(EfiKey::EfiKeyC11),
            43 => Some(EfiKey::EfiKeyC12),
            44 => Some(EfiKey::EfiKeyFour),
            45 => Some(EfiKey::EfiKeyFive),
            46 => Some(EfiKey::EfiKeySix),
            47 => Some(EfiKey::EfiKeyPlus),
            48 => Some(EfiKey::EfiKeyTab),
            49 => Some(EfiKey::EfiKeyD1),
            50 => Some(EfiKey::EfiKeyD2),
            51 => Some(EfiKey::EfiKeyD3),
            52 => Some(EfiKey::EfiKeyD4),
            53 => Some(EfiKey::EfiKeyD5),
            54 => Some(EfiKey::EfiKeyD6),
            55 => Some(EfiKey::EfiKeyD7),
            56 => Some(EfiKey::EfiKeyD8),
            57 => Some(EfiKey::EfiKeyD9),
            58 => Some(EfiKey::EfiKeyD10),
            59 => Some(EfiKey::EfiKeyD11),
            60 => Some(EfiKey::EfiKeyD12),
            61 => Some(EfiKey::EfiKeyD13),
            62 => Some(EfiKey::EfiKeyDel),
            63 => Some(EfiKey::EfiKeyEnd),
            64 => Some(EfiKey::EfiKeyPgDn),
            65 => Some(EfiKey::EfiKeySeven),
            66 => Some(EfiKey::EfiKeyEight),
            67 => Some(EfiKey::EfiKeyNine),
            68 => Some(EfiKey::EfiKeyE0),
            69 => Some(EfiKey::EfiKeyE1),
            70 => Some(EfiKey::EfiKeyE2),
            71 => Some(EfiKey::EfiKeyE3),
            72 => Some(EfiKey::EfiKeyE4),
            73 => Some(EfiKey::EfiKeyE5),
            74 => Some(EfiKey::EfiKeyE6),
            75 => Some(EfiKey::EfiKeyE7),
            76 => Some(EfiKey::EfiKeyE8),
            77 => Some(EfiKey::EfiKeyE9),
            78 => Some(EfiKey::EfiKeyE10),
            79 => Some(EfiKey::EfiKeyE11),
            80 => Some(EfiKey::EfiKeyE12),
            81 => Some(EfiKey::EfiKeyBackSpace),
            82 => Some(EfiKey::EfiKeyIns),
            83 => Some(EfiKey::EfiKeyHome),
            84 => Some(EfiKey::EfiKeyPgUp),
            85 => Some(EfiKey::EfiKeyNLck),
            86 => Some(EfiKey::EfiKeySlash),
            87 => Some(EfiKey::EfiKeyAsterisk),
            88 => Some(EfiKey::EfiKeyMinus),
            89 => Some(EfiKey::EfiKeyEsc),
            90 => Some(EfiKey::EfiKeyF1),
            91 => Some(EfiKey::EfiKeyF2),
            92 => Some(EfiKey::EfiKeyF3),
            93 => Some(EfiKey::EfiKeyF4),
            94 => Some(EfiKey::EfiKeyF5),
            95 => Some(EfiKey::EfiKeyF6),
            96 => Some(EfiKey::EfiKeyF7),
            97 => Some(EfiKey::EfiKeyF8),
            98 => Some(EfiKey::EfiKeyF9),
            99 => Some(EfiKey::EfiKeyF10),
            100 => Some(EfiKey::EfiKeyF11),
            101 => Some(EfiKey::EfiKeyF12),
            102 => Some(EfiKey::EfiKeyPrint),
            103 => Some(EfiKey::EfiKeySLck),
            104 => Some(EfiKey::EfiKeyPause),
            105 => Some(EfiKey::EfiKeyIntl0),
            106 => Some(EfiKey::EfiKeyIntl1),
            107 => Some(EfiKey::EfiKeyIntl2),
            108 => Some(EfiKey::EfiKeyIntl3),
            109 => Some(EfiKey::EfiKeyIntl4),
            110 => Some(EfiKey::EfiKeyIntl5),
            111 => Some(EfiKey::EfiKeyIntl6),
            112 => Some(EfiKey::EfiKeyIntl7),
            113 => Some(EfiKey::EfiKeyIntl8),
            114 => Some(EfiKey::EfiKeyIntl9),
            _ => None,
        }
    }

    /// Returns the numeric code of this key.
    pub fn code(&self) -> (r: u32)
        ensures
            r == self.spec_code(),
    {
        match self {
            EfiKey::EfiKeyLCtrl => 0,
            EfiKey::EfiKeyA0 => 1,
            EfiKey::EfiKeyLAlt => 2,
            EfiKey::EfiKeySpaceBar => 3,
            EfiKey::EfiKeyA2 => 4,
            EfiKey::EfiKeyA3 => 5,
            EfiKey::EfiKeyA4 => 6,
            EfiKey::EfiKeyRCtrl => 7,
            EfiKey::EfiKeyLeftArrow => 8,
            EfiKey::EfiKeyDownArrow => 9,
            EfiKey::EfiKeyRightArrow => 10,
            EfiKey::EfiKeyZero => 11,
            EfiKey::EfiKeyPeriod => 12,
            EfiKey::EfiKeyEnter => 13,
            EfiKey::EfiKeyLShift => 14,
            EfiKey::EfiKeyB0 => 15,
            EfiKey::EfiKeyB1 => 16,
            EfiKey::EfiKeyB2 => 17,
            EfiKey::EfiKeyB3 => 18,
            EfiKey::EfiKeyB4 => 19,
            EfiKey::EfiKeyB5 => 20,
            EfiKey::EfiKeyB6 => 21,
            EfiKey::EfiKeyB7 => 22,
            EfiKey::EfiKeyB8 => 23,
            EfiKey::EfiKeyB9 => 24,
            EfiKey::EfiKeyB10 => 25,
            EfiKey::EfiKeyRShift => 26,
            EfiKey::EfiKeyUpArrow => 27,
            EfiKey::EfiKeyOne => 28,
            EfiKey::EfiKeyTwo => 29,
            EfiKey::EfiKeyThree => 30,
            EfiKey::EfiKeyCapsLock => 31,
            EfiKey::EfiKeyC1 => 32,
            EfiKey::EfiKeyC2 => 33,
            EfiKey::EfiKeyC3 => 34,
            EfiKey::EfiKeyC4 => 35,
            EfiKey::EfiKeyC5 => 36,
            EfiKey::EfiKeyC6 => 37,
            EfiKey::EfiKeyC7 => 38,
            EfiKey::EfiKeyC8 => 39,
            EfiKey::EfiKeyC9 => 40,
            EfiKey::EfiKeyC10 => 41,
            EfiKey::EfiKeyC11 => 42,
            EfiKey::EfiKeyC12 => 43,
            EfiKey::EfiKeyFour => 44,
            EfiKey::EfiKeyFive => 45,
            EfiKey::EfiKeySix => 46,
            EfiKey::EfiKeyPlus => 47,
            EfiKey::EfiKeyTab => 48,
            EfiKey::EfiKeyD1 => 49,
            EfiKey::EfiKeyD2 => 50,
            EfiKey::EfiKeyD3 => 51,
            EfiKey::EfiKeyD4 => 52,
            EfiKey::EfiKeyD5 => 53,
            EfiKey::EfiKeyD6 => 54,
            EfiKey::EfiKeyD7 => 55,
            EfiKey::EfiKeyD8 => 56,
            EfiKey::EfiKeyD9 => 57,
            EfiKey::EfiKeyD10 => 58,
            EfiKey::EfiKeyD11 => 59,
            EfiKey::EfiKeyD12 => 60,
            EfiKey::EfiKeyD13 => 61,
            EfiKey::EfiKeyDel => 62,
            EfiKey::EfiKeyEnd => 63,
            EfiKey::EfiKeyPgDn => 64,
            EfiKey::EfiKeySeven => 65,
            EfiKey::EfiKeyEight => 66,
            EfiKey::EfiKeyNine => 67,
            EfiKey::EfiKeyE0 => 68,
            EfiKey::EfiKeyE1 => 69,
            EfiKey::EfiKeyE2 => 70,
            EfiKey::EfiKeyE3 => 71,
            EfiKey::EfiKeyE4 => 72,
            EfiKey::EfiKeyE5 => 73,
            EfiKey::EfiKeyE6 => 74,
            EfiKey::EfiKeyE7 => 75,
            EfiKey::EfiKeyE8 => 76,
            EfiKey::EfiKeyE9 => 77,
            EfiKey::EfiKeyE10 => 78,
            EfiKey::EfiKeyE11 => 79,
            EfiKey::EfiKeyE12 => 80,
            EfiKey::EfiKeyBackSpace => 81,
            EfiKey::EfiKeyIns => 82,
            EfiKey::EfiKeyHome => 83,
            EfiKey::EfiKeyPgUp => 84,
            EfiKey::EfiKeyNLck => 85,
            EfiKey::EfiKeySlash => 86,
            EfiKey::EfiKeyAsterisk => 87,
            EfiKey::EfiKeyMinus => 88,
            EfiKey::EfiKeyEsc => 89,
            EfiKey::EfiKeyF1 => 90,
            EfiKey::EfiKeyF2 => 91,
            EfiKey::EfiKeyF3 => 92,
            EfiKey::EfiKeyF4 => 93,
            EfiKey::EfiKeyF5 => 94,
            EfiKey::EfiKeyF6 => 95,
            EfiKey::EfiKeyF7 => 96,
            EfiKey::EfiKeyF8 => 97,
            EfiKey::EfiKeyF9 => 98,
            EfiKey::EfiKeyF10 => 99,
            EfiKey::EfiKeyF11 => 100,
            EfiKey::EfiKeyF12 => 101,
            EfiKey::EfiKeyPrint => 102,
            EfiKey::EfiKeySLck => 103,
            EfiKey::EfiKeyPause => 104,
            EfiKey::EfiKeyIntl0 => 105,
            EfiKey::EfiKeyIntl1 => 106,
            EfiKey::EfiKeyIntl2 => 107,
            EfiKey::EfiKeyIntl3 => 108,
            EfiKey::EfiKeyIntl4 => 109,
            EfiKey::EfiKeyIntl5 => 110,
            EfiKey::EfiKeyIntl6 => 111,
            EfiKey::EfiKeyIntl7 => 112,
            EfiKey::EfiKeyIntl8 => 113,
            EfiKey::EfiKeyIntl9 => 114,
        }
    }

    /// Converts a numeric code into a key; codes past the last key are refused.
    pub fn try_from(value: u32) -> (r: Result<EfiKey, &'static str>)
        ensures
            r is Ok <==> value <= EFI_KEY_MAX_CODE,
            r matches Ok(k) ==> k.spec_code() == value && Self::spec_from_code(value) == Some(k),
            r is Err <==> Self::spec_from_code(value) is None,
    {
        match value {
            0 => Ok(EfiKey::EfiKeyLCtrl),
            1 => Ok(EfiKey::EfiKeyA0),
            2 => Ok(EfiKey::EfiKeyLAlt),
            3 => Ok(EfiKey::EfiKeySpaceBar),
            4 => Ok(EfiKey::EfiKeyA2),
            5 => Ok(EfiKey::EfiKeyA3),
            6 => Ok(EfiKey::EfiKeyA4),
            7 => Ok(EfiKey::EfiKeyRCtrl),
            8 => Ok(EfiKey::EfiKeyLeftArrow),
            9 => Ok(EfiKey::EfiKeyDownArrow),
            10 => Ok(EfiKey::EfiKeyRightArrow),
            11 => Ok(EfiKey::EfiKeyZero),
            12 => Ok(EfiKey::EfiKeyPeriod),
            13 => Ok(EfiKey::EfiKeyEnter),
            14 => Ok(EfiKey::EfiKeyLShift),
            15 => Ok(EfiKey::EfiKeyB0),
            16 => Ok(EfiKey::EfiKeyB1),
            17 => Ok(EfiKey::EfiKeyB2),
            18 => Ok(EfiKey::EfiKeyB3),
            19 => Ok(EfiKey::EfiKeyB4),
            20 => Ok(EfiKey::EfiKeyB5),
            21 => Ok(EfiKey::EfiKeyB6),
            22 => Ok(EfiKey::EfiKeyB7),
            23 => Ok(EfiKey::EfiKeyB8),
            24 => Ok(EfiKey::EfiKeyB9),
            25 => Ok(EfiKey::EfiKeyB10),
            26 => Ok(EfiKey::EfiKeyRShift),
            27 => Ok(EfiKey::EfiKeyUpArrow),
            28 => Ok(EfiKey::EfiKeyOne),
            29 => Ok(EfiKey::EfiKeyTwo),
            30 => Ok(EfiKey::EfiKeyThree),
            31 => Ok(EfiKey::EfiKeyCapsLock),
            32 => Ok(EfiKey::EfiKeyC1),
            33 => Ok(EfiKey::EfiKeyC2),
            34 => Ok(EfiKey::EfiKeyC3),
            35 => Ok(EfiKey::EfiKeyC4),
            36 => Ok(EfiKey::EfiKeyC5),
            37 => Ok(EfiKey::EfiKeyC6),
            38 => Ok(EfiKey::EfiKeyC7),
            39 => Ok(EfiKey::EfiKeyC8),
            40 => Ok(EfiKey::EfiKeyC9),
            41 => Ok(EfiKey::EfiKeyC10),
            42 => Ok(EfiKey::EfiKeyC11),
            43 => Ok(EfiKey::EfiKeyC12),
            44 => Ok(EfiKey::EfiKeyFour),
            45 => Ok(EfiKey::EfiKeyFive),
            46 => Ok(EfiKey::EfiKeySix),
            47 => Ok(EfiKey::EfiKeyPlus),
            48 => Ok(EfiKey::EfiKeyTab),
            49 => Ok(EfiKey::EfiKeyD1),
            50 => Ok(EfiKey::EfiKeyD2),
            51 => Ok(EfiKey::EfiKeyD3),
            52 => Ok(EfiKey::EfiKeyD4),
            53 => Ok(EfiKey::EfiKeyD5),
            54 => Ok(EfiKey::EfiKeyD6),
            55 => Ok(EfiKey::EfiKeyD7),
            56 => Ok(EfiKey::EfiKeyD8),
            57 => Ok(EfiKey::EfiKeyD9),
            58 => Ok(EfiKey::EfiKeyD10),
            59 => Ok(EfiKey::EfiKeyD11),
            60 => Ok(EfiKey::EfiKeyD12),
            61 => Ok(EfiKey::EfiKeyD13),
            62 => Ok(EfiKey::EfiKeyDel),
            63 => Ok(EfiKey::EfiKeyEnd),
            64 => Ok(EfiKey::EfiKeyPgDn),
            65 => Ok(EfiKey::EfiKeySeven),
            66 => Ok(EfiKey::EfiKeyEight),
            67 => Ok(EfiKey::EfiKeyNine),
            68 => Ok(EfiKey::EfiKeyE0),
            69 => Ok(EfiKey::EfiKeyE1),
            70 => Ok(EfiKey::EfiKeyE2),
            71 => Ok(EfiKey::EfiKeyE3),
            72 => Ok(EfiKey::EfiKeyE4),
            73 => Ok(EfiKey::EfiKeyE5),
            74 => Ok(EfiKey::EfiKeyE6),
            75 => Ok(EfiKey::EfiKeyE7),
            76 => Ok(EfiKey::EfiKeyE8),
            77 => Ok(EfiKey::EfiKeyE9),
            78 => Ok(EfiKey::EfiKeyE10),
            79 => Ok(EfiKey::EfiKeyE11),
            80 => Ok(EfiKey::EfiKeyE12),
            81 => Ok(EfiKey::EfiKeyBackSpace),
            82 => Ok(EfiKey::EfiKeyIns),
            83 => Ok(EfiKey::EfiKeyHome),
            84 => Ok(EfiKey::EfiKeyPgUp),
            85 => Ok(EfiKey::EfiKeyNLck),
            86 => Ok(EfiKey::EfiKeySlash),
            87 => Ok(EfiKey::EfiKeyAsterisk),
            88 => Ok(EfiKey::EfiKeyMinus),
            89 => Ok(EfiKey::EfiKeyEsc),
            90 => Ok(EfiKey::EfiKeyF1),
            91 => Ok(EfiKey::EfiKeyF2),
            92 => Ok(EfiKey::EfiKeyF3),
            93 => Ok(EfiKey::EfiKeyF4),
            94 => Ok(EfiKey::EfiKeyF5),
            95 => Ok(EfiKey::EfiKeyF6),
            96 => Ok(EfiKey::EfiKeyF7),
            97 => Ok(EfiKey::EfiKeyF8),
            98 => Ok(EfiKey::EfiKeyF9),
            99 => Ok(EfiKey::EfiKeyF10),
            100 => Ok(EfiKey::EfiKeyF11),
            101 => Ok(EfiKey::EfiKeyF12),
            102 => Ok(EfiKey::EfiKeyPrint),
            103 => Ok(EfiKey::EfiKeySLck),
            104 => Ok(EfiKey::EfiKeyPause),
            105 => Ok(EfiKey::EfiKeyIntl0),
            106 => Ok(EfiKey::EfiKeyIntl1),
            107 => Ok(EfiKey::EfiKeyIntl2),
            108 => Ok(EfiKey::EfiKeyIntl3),
            109 => Ok(EfiKey::EfiKeyIntl4),
            110 => Ok(EfiKey::EfiKeyIntl5),
            111 => Ok(EfiKey::EfiKeyIntl6),
            112 => Ok(EfiKey::EfiKeyIntl7),
            113 => Ok(EfiKey::EfiKeyIntl8),
            114 => Ok(EfiKey::EfiKeyIntl9),
            _ => Err("Invalid EfiKey enum value"),
        }
    }
}

/// Every key's code is at most the largest code, and decoding the code gives back the key.
pub proof fn law_efi_key_code_decodes(k: EfiKey)
    ensures
        k.spec_code() <= EFI_KEY_MAX_CODE,
        EfiKey::spec_from_code(k.spec_code()) == Some(k),
{
}

/// A code decodes to a key exactly when it is at most the largest code, and that key has the code.
pub proof fn law_efi_key_decoded_code(v: u32)
    ensures
        EfiKey::spec_from_code(v) is Some <==> v <= EFI_KEY_MAX_CODE,
        EfiKey::spec_from_code(v) matches Some(k) ==> k.spec_code() == v,
{
}

/// The physical keys in the order of the UEFI `EFI_KEY` enumeration, from the bottom row of the
/// keyboard (left control, left logo, left alt, space bar, ...) up to the function keys, print
/// screen, scroll lock, pause and the international keys.
pub open spec fn efi_key_enumeration() -> Seq<EfiKey> {
    seq![
        EfiKey::EfiKeyLCtrl,
        EfiKey::EfiKeyA0,
        EfiKey::EfiKeyLAlt,
        EfiKey::EfiKeySpaceBar,
        EfiKey::EfiKeyA2,
        EfiKey::EfiKeyA3,
        EfiKey::EfiKeyA4,
        EfiKey::EfiKeyRCtrl,
        EfiKey::EfiKeyLeftArrow,
        EfiKey::EfiKeyDownArrow,
        EfiKey::EfiKeyRightArrow,
        EfiKey::EfiKeyZero,
        EfiKey::EfiKeyPeriod,
        EfiKey::EfiKeyEnter,
        EfiKey::EfiKeyLShift,
        EfiKey::EfiKeyB0,
        EfiKey::EfiKeyB1,
        EfiKey::EfiKeyB2,
        EfiKey::EfiKeyB3,
        EfiKey::EfiKeyB4,
        EfiKey::EfiKeyB5,
        EfiKey::EfiKeyB6,
        EfiKey::EfiKeyB7,
        EfiKey::EfiKeyB8,
        EfiKey::EfiKeyB9,
        EfiKey::EfiKeyB10,
        EfiKey::EfiKeyRShift,
        EfiKey::EfiKeyUpArrow,
        EfiKey::EfiKeyOne,
        EfiKey::EfiKeyTwo,
        EfiKey::EfiKeyThree,
        EfiKey::EfiKeyCapsLock,
        EfiKey::EfiKeyC1,
        EfiKey::EfiKeyC2,
        EfiKey::EfiKeyC3,
        EfiKey::EfiKeyC4,
        EfiKey::EfiKeyC5,
        EfiKey::EfiKeyC6,
        EfiKey::EfiKeyC7,
        EfiKey::EfiKeyC8,
        EfiKey::EfiKeyC9,
        EfiKey::EfiKeyC10,
        EfiKey::EfiKeyC11,
        EfiKey::EfiKeyC12,
        EfiKey::EfiKeyFour,
        EfiKey::EfiKeyFive,
        EfiKey::EfiKeySix,
        EfiKey::EfiKeyPlus,
        EfiKey::EfiKeyTab,
        EfiKey::EfiKeyD1,
        EfiKey::EfiKeyD2,
        EfiKey::EfiKeyD3,
        EfiKey::EfiKeyD4,
        EfiKey::EfiKeyD5,
        EfiKey::EfiKeyD6,
        EfiKey::EfiKeyD7,
        EfiKey::EfiKeyD8,
        EfiKey::EfiKeyD9,
        EfiKey::EfiKeyD10,
        EfiKey::EfiKeyD11,
        EfiKey::EfiKeyD12,
        EfiKey::EfiKeyD13,
        EfiKey::EfiKeyDel,
        EfiKey::EfiKeyEnd,
        EfiKey::EfiKeyPgDn,
        EfiKey::EfiKeySeven,
        EfiKey::EfiKeyEight,
        EfiKey::EfiKeyNine,
        EfiKey::EfiKeyE0,
        EfiKey::EfiKeyE1,
        EfiKey::EfiKeyE2,
        EfiKey::EfiKeyE3,
        EfiKey::EfiKeyE4,
        EfiKey::EfiKeyE5,
        EfiKey::EfiKeyE6,
        EfiKey::EfiKeyE7,
        EfiKey::EfiKeyE8,
        EfiKey::EfiKeyE9,
        EfiKey::EfiKeyE10,
        EfiKey::EfiKeyE11,
        EfiKey::EfiKeyE12,
        EfiKey::EfiKeyBackSpace,
        EfiKey::EfiKeyIns,
        EfiKey::EfiKeyHome,
        EfiKey::EfiKeyPgUp,
        EfiKey::EfiKeyNLck,
        EfiKey::EfiKeySlash,
        EfiKey::EfiKeyAsterisk,
        EfiKey::EfiKeyMinus,
        EfiKey::EfiKeyEsc,
        EfiKey::EfiKeyF1,
        EfiKey::EfiKeyF2,
        EfiKey::EfiKeyF3,
        EfiKey::EfiKeyF4,
        EfiKey::EfiKeyF5,
        EfiKey::EfiKeyF6,
        EfiKey::EfiKeyF7,
        EfiKey::EfiKeyF8,
        EfiKey::EfiKeyF9,
        EfiKey::EfiKeyF10,
        EfiKey::EfiKeyF11,
        EfiKey::EfiKeyF12,
        EfiKey::EfiKeyPrint,
        EfiKey::EfiKeySLck,
        EfiKey::EfiKeyPause,
        EfiKey::EfiKeyIntl0,
        EfiKey::EfiKeyIntl1,
        EfiKey::EfiKeyIntl2,
        EfiKey::EfiKeyIntl3,
        EfiKey::EfiKeyIntl4,
        EfiKey::EfiKeyIntl5,
        EfiKey::EfiKeyIntl6,
        EfiKey::EfiKeyIntl7,
        EfiKey::EfiKeyIntl8,
        EfiKey::EfiKeyIntl9
    ]
}

/// A key's code is its position in the UEFI `EFI_KEY` enumeration: the key at position `i` has
/// code `i`, and code `i` decodes to it. Codes past the enumeration decode to nothing.
pub proof fn law_efi_key_code_is_enumeration_position(i: int)
    ensures
        efi_key_enumeration().len() == EFI_KEY_MAX_CODE + 1,
        0 <= i < efi_key_enumeration().len() ==> efi_key_enumeration()[i].spec_code() == i
            && EfiKey::spec_from_code(i as u32) == Some(efi_key_enumeration()[i]),
        i >= efi_key_enumeration().len() && i <= u32::MAX ==> EfiKey::spec_from_code(i as u32) is None,
{
}

} // verus!
