//! UTF-16 encoding and decoding of strings.
use vstd::prelude::*;

verus! {

/// The UTF-16 code units of one character: one unit below 0x10000, else a surrogate pair.
pub open spec fn utf16_encode_char(c: char) -> Seq<u16> {
    let v = c as u32;
    if v < 0x10000 {
        seq![v as u16]
    } else {
        let w = v - 0x10000;
        seq![(0xD800 + w / 0x400) as u16, (0xDC00 + w % 0x400) as u16]
    }
}

/// The UTF-16 code units of a string.
pub open spec fn utf16_encode(s: Seq<char>) -> Seq<u16>
    decreases s.len(),
{
    if s.len() == 0 {
        Seq::empty()
    } else {
        utf16_encode_char(s[0]) + utf16_encode(s.drop_first())
    }
}

/// The string that a sequence of UTF-16 code units encodes, or `None` where a surrogate is unpaired.
pub open spec fn utf16_decode(units: Seq<u16>) -> Option<Seq<char>>
    decreases units.len(),
{
    if units.len() == 0 {
        Some(Seq::empty())
    } else {
        let u = units[0];
        if u < 0xD800 || u > 0xDFFF {
            match utf16_decode(units.drop_first()) {
                Some(rest) => Some(seq![u as char] + rest),
                None => None,
            }
        } else if u <= 0xDBFF && units.len() >= 2 && 0xDC00 <= units[1] && units[1] <= 0xDFFF {
            let c = (0x10000 + (u - 0xD800) * 0x400 + (units[1] - 0xDC00)) as char;
            match utf16_decode(units.subrange(2, units.len() as int)) {
                Some(rest) => Some(seq![c] + rest),
                None => None,
            }
        } else {
            None
        }
    }
}

/// Encoding a string and decoding the units gives the string back.
pub proof fn lemma_utf16_decode_encode(s: Seq<char>)
    ensures
        utf16_decode(utf16_encode(s)) == Some(s),
    decreases s.len(),
{
    if s.len() > 0 {
        let c = s[0];
        let rest = s.drop_first();
        lemma_utf16_decode_encode(rest);
        let units = utf16_encode(s);
        let e = utf16_encode_char(c);
        assert(units == e + utf16_encode(rest));
        let v = c as u32;
        vstd::utf8::char_is_scalar(c);
        vstd::utf8::char_u32_cast(c, v);
        if v < 0x10000 {
            assert(units.drop_first() =~= utf16_encode(rest));
            assert((v as u16) as int == v as int);
            assert((v as u16) as char == c);
        } else {
            let w = v - 0x10000;
            assert(v <= 0x10FFFF);
            assert(w / 0x400 < 0x400);
            assert(w == (w / 0x400) * 0x400 + w % 0x400) by (nonlinear_arith);
            assert(units.subrange(2, units.len() as int) =~= utf16_encode(rest));
        }
        assert(seq![c] + rest =~= s);
    }
}

/// A string without NUL characters encodes to units without a zero unit.
pub proof fn lemma_utf16_encode_no_zero(s: Seq<char>)
    requires
        !s.contains('\0'),
    ensures
        !utf16_encode(s).contains(0u16),
    decreases s.len(),
{
    if s.len() > 0 {
        assert(s[0] != '\0');
        assert(!s.drop_first().contains('\0')) by {
            if s.drop_first().contains('\0') {
                let i = choose|i: int| 0 <= i < s.drop_first().len() && s.drop_first()[i] == '\0';
                assert(s[i + 1] == '\0');
            }
        }
        lemma_utf16_encode_no_zero(s.drop_first());
        let e = utf16_encode_char(s[0]);
        vstd::utf8::char_u32_cast(s[0], s[0] as u32);
        vstd::utf8::char_u32_cast('\0', 0u32);
        assert((s[0] as u32) != 0);
        assert(!e.contains(0u16));
        let all = e + utf16_encode(s.drop_first());
        if all.contains(0u16) {
            let i = choose|i: int| 0 <= i < all.len() && all[i] == 0u16;
            if i < e.len() {
                assert(e[i] == 0u16);
            } else {
                assert(utf16_encode(s.drop_first())[i - e.len()] == 0u16);
            }
        }
    }
}

/// A string of characters below 0x10000 encodes to one unit per character.
pub proof fn lemma_utf16_encode_len_bmp(s: Seq<char>)
    requires
        forall|i: int| 0 <= i < s.len() ==> (#[trigger] s[i] as u32) < 0x10000,
    ensures
        utf16_encode(s).len() == s.len(),
    decreases s.len(),
{
    if s.len() > 0 {
        assert((s[0] as u32) < 0x10000);
        assert forall|i: int| 0 <= i < s.drop_first().len() implies (#[trigger] s.drop_first()[i] as u32)
            < 0x10000 by {
            assert(s.drop_first()[i] == s[i + 1]);
        }
        lemma_utf16_encode_len_bmp(s.drop_first());
    }
}

/// Encoding distributes over concatenation.
pub proof fn lemma_utf16_encode_concat(a: Seq<char>, b: Seq<char>)
    ensures
        utf16_encode(a + b) == utf16_encode(a) + utf16_encode(b),
    decreases a.len(),
{
    if a.len() == 0 {
        assert(a + b =~= b);
        assert(utf16_encode(a) + utf16_encode(b) =~= utf16_encode(b));
    } else {
        assert((a + b).drop_first() =~= a.drop_first() + b);
        assert((a + b)[0] == a[0]);
        lemma_utf16_encode_concat(a.drop_first(), b);
        assert(utf16_encode(a + b) =~= utf16_encode(a) + utf16_encode(b));
    }
}

/// Decodes UTF-16 code units into a `String` with `String::from_utf16`.
/// Claimed of it: it succeeds exactly when every surrogate is paired, and the string it
/// returns is the UTF-16 decoding of the units.
#[verifier::external_body]
pub(crate) fn string_from_utf16(units: &[u16]) -> (r: Option<String>)
    ensures
        r is Some <==> utf16_decode(units@) is Some,
        r matches Some(s) ==> s@ == utf16_decode(units@).unwrap(),
{
    String::from_utf16(units).ok()
}

/// Collects the UTF-16 code units of a string with `str::encode_utf16`.
/// Claimed of it: the units are the UTF-16 encoding of the string's characters, in order.
#[verifier::external_body]
pub(crate) fn str_encode_utf16(s: &str) -> (r: Vec<u16>)
    ensures
        r@ == utf16_encode(s@),
{
    s.encode_utf16().collect()
}

} // verus!
