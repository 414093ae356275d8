//! Reading HII keyboard layout structures from bytes.
use crate::bytes::{le_u16, le_u32, read_u16, read_u32, read_u8};
use crate::efi_key::EfiKey;
use crate::layout::{
    DescriptionModel, Guid, HiiKey, HiiKeyDescriptor, HiiKeyboardDescription, HiiKeyboardLayout,
    HiiKeyboardPkg, HiiKeyboardPkgList, HiiNsKeyDescriptor, KeyModel, LayoutModel, NsKeyModel,
    PkgListModel, PkgModel, NS_KEY_DEPENDENCY_MODIFIER, NS_KEY_MODIFIER, PACKAGE_KEYBOARD_LAYOUT,
};
use crate::utf16::{string_from_utf16, utf16_decode};
use vstd::prelude::*;
use vstd::string::{StrSliceExecFns, StringExecFns};

verus! {

/// Why bytes could not be read as a structure.
#[derive(Debug, Clone, Copy, PartialEq, Eq, Structural)]
pub enum ParseError {
    /// A field reaches past the end of the buffer.
    OutOfBounds,
    /// A key descriptor names no physical key.
    InvalidKey,
    /// A package header gives another type than a keyboard layout package.
    UnsupportedPackageType,
    /// A description is not valid UTF-16.
    InvalidDescription,
    /// A description has no space between its language and its text.
    DescriptionWithoutSpace,
}

/// A non-negative distance, zero where `a` is negative.
pub open spec fn distance(a: int) -> nat {
    if a > 0 {
        a as nat
    } else {
        0
    }
}

/// The GUID whose sixteen bytes start at `pos`.
pub open spec fn guid_at(s: Seq<u8>, pos: int) -> Guid {
    Guid {
        time_low: le_u32(s, pos),
        time_mid: le_u16(s, pos + 4),
        time_hi_and_version: le_u16(s, pos + 6),
        clk_seq_hi_res: s[pos + 8],
        clk_seq_low: s[pos + 9],
        node: [s[pos + 10], s[pos + 11], s[pos + 12], s[pos + 13], s[pos + 14], s[pos + 15]],
    }
}

/// The key descriptor at `pos` and the position after it.
pub open spec fn parse_descriptor(s: Seq<u8>, pos: int) -> Result<(HiiKeyDescriptor, int), ParseError> {
    if pos < 0 || pos + 4 > s.len() {
        Err(ParseError::OutOfBounds)
    } else {
        match EfiKey::spec_from_code(le_u32(s, pos)) {
            None => Err(ParseError::InvalidKey),
            Some(k) => if pos + 16 > s.len() {
                Err(ParseError::OutOfBounds)
            } else {
                Ok(
                    (
                        HiiKeyDescriptor {
                            key: k,
                            unicode: le_u16(s, pos + 4),
                            shifted_unicode: le_u16(s, pos + 6),
                            alt_gr_unicode: le_u16(s, pos + 8),
                            shifted_alt_gr_unicode: le_u16(s, pos + 10),
                            modifier: le_u16(s, pos + 12),
                            affected_attribute: le_u16(s, pos + 14),
                        },
                        pos + 16,
                    ),
                )
            },
        }
    }
}

/// Whether a descriptor that depends on a non-spacing key can be read at `pos`.
pub open spec fn is_dependent_descriptor_at(s: Seq<u8>, pos: int) -> bool {
    match parse_descriptor(s, pos) {
        Ok((d, _)) => d.modifier == NS_KEY_DEPENDENCY_MODIFIER,
        Err(_) => false,
    }
}

/// The dependent descriptors read from `pos` on, as long as there are any, and the position after.
pub open spec fn parse_dependents(s: Seq<u8>, pos: int) -> (Seq<HiiKeyDescriptor>, int)
    decreases distance(s.len() - pos),
{
    if is_dependent_descriptor_at(s, pos) {
        match parse_descriptor(s, pos) {
            Ok((d, next)) => {
                let (rest, end) = parse_dependents(s, next);
                (seq![d] + rest, end)
            },
            Err(_) => (Seq::empty(), pos),
        }
    } else {
        (Seq::empty(), pos)
    }
}

/// The key at `pos`: a descriptor, followed for a non-spacing key by its dependent descriptors.
pub open spec fn parse_key(s: Seq<u8>, pos: int) -> Result<(KeyModel, int), ParseError> {
    match parse_descriptor(s, pos) {
        Err(e) => Err(e),
        Ok((d, next)) => if d.modifier == NS_KEY_MODIFIER {
            let (deps, end) = parse_dependents(s, next);
            Ok((KeyModel::NsKey(NsKeyModel { descriptor: d, dependent_keys: deps }), end))
        } else {
            Ok((KeyModel::Key(d), next))
        },
    }
}

/// Keys read from `pos` on while the position, counted from `base`, is below `limit`.
pub open spec fn parse_keys(s: Seq<u8>, base: int, pos: int, limit: int) -> Result<
    (Seq<KeyModel>, int),
    ParseError,
>
    decreases distance(limit - (pos - base)),
{
    if pos - base < limit {
        match parse_key(s, pos) {
            Err(e) => Err(e),
            Ok((k, next)) => if next > pos {
                match parse_keys(s, base, next, limit) {
                    Ok((ks, end)) => Ok((seq![k] + ks, end)),
                    Err(e) => Err(e),
                }
            } else {
                Err(ParseError::OutOfBounds)
            },
        }
    } else {
        Ok((Seq::empty(), pos))
    }
}

/// The 16-bit units from `pos` up to a zero unit, and the position after that zero.
pub open spec fn parse_units(s: Seq<u8>, pos: int) -> Result<(Seq<u16>, int), ParseError>
    decreases distance(s.len() - pos),
{
    if pos < 0 || pos + 2 > s.len() {
        Err(ParseError::OutOfBounds)
    } else if le_u16(s, pos) == 0 {
        Ok((Seq::empty(), pos + 2))
    } else {
        match parse_units(s, pos + 2) {
            Ok((rest, end)) => Ok((seq![le_u16(s, pos)] + rest, end)),
            Err(e) => Err(e),
        }
    }
}

/// Whether `i` is the index of the first space of `cs`.
pub open spec fn is_first_space(cs: Seq<char>, i: int) -> bool {
    0 <= i < cs.len() && cs[i] == ' ' && forall|j: int| 0 <= j < i ==> cs[j] != ' '
}

/// The characters before and after the first space, if there is one.
pub open spec fn split_at_first_space(cs: Seq<char>) -> Option<(Seq<char>, Seq<char>)> {
    if exists|i: int| is_first_space(cs, i) {
        let i = choose|i: int| is_first_space(cs, i);
        Some((cs.take(i), cs.skip(i + 1)))
    } else {
        None
    }
}

/// The description at `pos`: UTF-16 text up to a zero unit, split at its first space.
pub open spec fn parse_description(s: Seq<u8>, pos: int) -> Result<(DescriptionModel, int), ParseError> {
    match parse_units(s, pos) {
        Err(e) => Err(e),
        Ok((units, end)) => match utf16_decode(units) {
            None => Err(ParseError::InvalidDescription),
            Some(cs) => match split_at_first_space(cs) {
                None => Err(ParseError::DescriptionWithoutSpace),
                Some((l, d)) => Ok((DescriptionModel { language: l, description: d }, end)),
            },
        },
    }
}

/// `n` descriptions read one after the other from `pos`.
pub open spec fn parse_descriptions(s: Seq<u8>, pos: int, n: nat) -> Result<
    (Seq<DescriptionModel>, int),
    ParseError,
>
    decreases n,
{
    if n == 0 {
        Ok((Seq::empty(), pos))
    } else {
        match parse_description(s, pos) {
            Err(e) => Err(e),
            Ok((d, next)) => match parse_descriptions(s, next, (n - 1) as nat) {
                Ok((ds, end)) => Ok((seq![d] + ds, end)),
                Err(e) => Err(e),
            },
        }
    }
}

/// The layout at `pos`. Its length and descriptor count fields are not used: keys are read up to
/// the description offset, then as many descriptions as the description count gives.
pub open spec fn parse_layout(s: Seq<u8>, pos: int) -> Result<(LayoutModel, int), ParseError> {
    if pos < 0 || pos + 23 > s.len() {
        Err(ParseError::OutOfBounds)
    } else {
        let guid = guid_at(s, pos + 2);
        let string_offset = le_u32(s, pos + 18);
        match parse_keys(s, pos, pos + 23, string_offset as int) {
            Err(e) => Err(e),
            Ok((keys, kend)) => if kend + 2 > s.len() {
                Err(ParseError::OutOfBounds)
            } else {
                match parse_descriptions(s, kend + 2, le_u16(s, kend) as nat) {
                    Err(e) => Err(e),
                    Ok((ds, end)) => Ok(
                        (LayoutModel { guid, keys, descriptions: ds }, end),
                    ),
                }
            },
        }
    }
}

/// `n` layouts read one after the other from `pos`.
pub open spec fn parse_layouts(s: Seq<u8>, pos: int, n: nat) -> Result<(Seq<LayoutModel>, int), ParseError>
    decreases n,
{
    if n == 0 {
        Ok((Seq::empty(), pos))
    } else {
        match parse_layout(s, pos) {
            Err(e) => Err(e),
            Ok((l, next)) => match parse_layouts(s, next, (n - 1) as nat) {
                Ok((ls, end)) => Ok((seq![l] + ls, end)),
                Err(e) => Err(e),
            },
        }
    }
}

/// The keyboard package at `pos`: its header must give the keyboard layout package type.
pub open spec fn parse_pkg(s: Seq<u8>, pos: int) -> Result<(PkgModel, int), ParseError> {
    if pos < 0 || pos + 4 > s.len() {
        Err(ParseError::OutOfBounds)
    } else if le_u32(s, pos) / 0x0100_0000 != PACKAGE_KEYBOARD_LAYOUT as u32 {
        Err(ParseError::UnsupportedPackageType)
    } else if pos + 6 > s.len() {
        Err(ParseError::OutOfBounds)
    } else {
        match parse_layouts(s, pos + 6, le_u16(s, pos + 4) as nat) {
            Err(e) => Err(e),
            Ok((ls, end)) => Ok((PkgModel { layouts: ls }, end)),
        }
    }
}

/// The package list at `pos`: a GUID, a length (not used), a keyboard package and an end package
/// header (not checked).
pub open spec fn parse_pkg_list(s: Seq<u8>, pos: int) -> Result<(PkgListModel, int), ParseError> {
    if pos < 0 || pos + 20 > s.len() {
        Err(ParseError::OutOfBounds)
    } else {
        match parse_pkg(s, pos + 20) {
            Err(e) => Err(e),
            Ok((p, pend)) => if pend + 4 > s.len() {
                Err(ParseError::OutOfBounds)
            } else {
                Ok((PkgListModel { guid: guid_at(s, pos), package: p }, pend + 4))
            },
        }
    }
}

// ---------------------------------------------------------------------------------------------
// Readers.
fn read_guid(buf: &[u8], pos: usize) -> (g: Guid)
    requires
        pos + 16 <= buf@.len(),
    ensures
        g == guid_at(buf@, pos as int),
{
    let len = buf.len();
    let time_low = match read_u32(buf, pos) {
        Some(v) => v,
        None => 0,
    };
    let time_mid = match read_u16(buf, pos + 4) {
        Some(v) => v,
        None => 0,
    };
    let time_hi = match read_u16(buf, pos + 6) {
        Some(v) => v,
        None => 0,
    };
    let node: [u8; 6] = [
        buf[pos + 10],
        buf[pos + 11],
        buf[pos + 12],
        buf[pos + 13],
        buf[pos + 14],
        buf[pos + 15],
    ];
    let g = Guid::from_fields(time_low, time_mid, time_hi, buf[pos + 8], buf[pos + 9], &node);
    assert(g.node@ =~= guid_at(buf@, pos as int).node@);
    g
}

fn read_descriptor(buf: &[u8], pos: usize) -> (r: Result<(HiiKeyDescriptor, usize), ParseError>)
    ensures
        r matches Ok((d, p)) ==> parse_descriptor(buf@, pos as int) == Ok::<
            (HiiKeyDescriptor, int),
            ParseError,
        >((d, p as int)),
        r matches Err(e) ==> parse_descriptor(buf@, pos as int) == Err::<
            (HiiKeyDescriptor, int),
            ParseError,
        >(e),
{
    let code = match read_u32(buf, pos) {
        Some(v) => v,
        None => {
            return Err(ParseError::OutOfBounds);
        },
    };
    let key = match EfiKey::try_from(code) {
        Ok(k) => k,
        Err(_) => {
            return Err(ParseError::InvalidKey);
        },
    };
    if buf.len() - pos < 16 {
        return Err(ParseError::OutOfBounds);
    }
    let d = HiiKeyDescriptor {
        key,
        unicode: match read_u16(buf, pos + 4) {
            Some(v) => v,
            None => 0,
        },
        shifted_unicode: match read_u16(buf, pos + 6) {
            Some(v) => v,
            None => 0,
        },
        alt_gr_unicode: match read_u16(buf, pos + 8) {
            Some(v) => v,
            None => 0,
        },
        shifted_alt_gr_unicode: match read_u16(buf, pos + 10) {
            Some(v) => v,
            None => 0,
        },
        modifier: match read_u16(buf, pos + 12) {
            Some(v) => v,
            None => 0,
        },
        affected_attribute: match read_u16(buf, pos + 14) {
            Some(v) => v,
            None => 0,
        },
    };
    Ok((d, pos + 16))
}

fn read_dependents(buf: &[u8], pos: usize) -> (r: (Vec<HiiKeyDescriptor>, usize))
    ensures
        parse_dependents(buf@, pos as int) == (r.0@, r.1 as int),
{
    let mut deps: Vec<HiiKeyDescriptor> = Vec::new();
    let mut p: usize = pos;
    loop
        invariant
            pos <= p,
            p <= buf@.len() || p == pos,
            parse_dependents(buf@, pos as int) == (
                deps@ + parse_dependents(buf@, p as int).0,
                parse_dependents(buf@, p as int).1,
            ),
        ensures
            parse_dependents(buf@, pos as int) == (deps@, p as int),
        decreases buf@.len() - p,
    {
        match read_descriptor(buf, p) {
            Ok((d, q)) => {
                if d.modifier == NS_KEY_DEPENDENCY_MODIFIER {
                    let ghost old_deps = deps@;
                    let ghost rest = parse_dependents(buf@, q as int);
                    deps.push(d);
                    assert(old_deps + (seq![d] + rest.0) =~= deps@ + rest.0);
                    p = q;
                } else {
                    assert(deps@ + Seq::<HiiKeyDescriptor>::empty() =~= deps@);
                    break;
                }
            },
            Err(_) => {
                assert(deps@ + Seq::<HiiKeyDescriptor>::empty() =~= deps@);
                break;
            },
        }
    }
    (deps, p)
}

fn read_key(buf: &[u8], pos: usize) -> (r: Result<(HiiKey, usize), ParseError>)
    ensures
        r matches Ok((k, p)) ==> parse_key(buf@, pos as int) == Ok::<(KeyModel, int), ParseError>(
            (k@, p as int),
        ),
        r matches Err(e) ==> parse_key(buf@, pos as int) == Err::<(KeyModel, int), ParseError>(e),
{
    match read_descriptor(buf, pos) {
        Err(e) => Err(e),
        Ok((d, next)) => {
            if d.modifier == NS_KEY_MODIFIER {
                let (deps, end) = read_dependents(buf, next);
                Ok((HiiKey::NsKey(HiiNsKeyDescriptor { descriptor: d, dependent_keys: deps }), end))
            } else {
                Ok((HiiKey::Key(d), next))
            }
        },
    }
}

/// Prepends `prefix` to the items of a successful result.
pub open spec fn prepend_items<T>(prefix: Seq<T>, r: Result<(Seq<T>, int), ParseError>) -> Result<
    (Seq<T>, int),
    ParseError,
> {
    match r {
        Ok((rest, end)) => Ok((prefix + rest, end)),
        Err(e) => Err(e),
    }
}

fn read_keys(buf: &[u8], base: usize, pos: usize, limit: u32) -> (r: Result<(Vec<HiiKey>, usize), ParseError>)
    requires
        base <= pos,
    ensures
        r matches Ok((ks, p)) ==> parse_keys(buf@, base as int, pos as int, limit as int) == Ok::<
            (Seq<KeyModel>, int),
            ParseError,
        >((ks@.map_values(|k: HiiKey| k@), p as int)),
        r matches Err(e) ==> parse_keys(buf@, base as int, pos as int, limit as int) == Err::<
            (Seq<KeyModel>, int),
            ParseError,
        >(e),
{
    let mut keys: Vec<HiiKey> = Vec::new();
    let mut p: usize = pos;
    while p - base < limit as usize
        invariant
            base <= pos <= p,
            parse_keys(buf@, base as int, pos as int, limit as int) == prepend_items(
                keys@.map_values(|k: HiiKey| k@),
                parse_keys(buf@, base as int, p as int, limit as int),
            ),
        decreases distance(limit - (p - base)),
    {
        match read_key(buf, p) {
            Err(e) => {
                return Err(e);
            },
            Ok((k, next)) => {
                if next <= p {
                    return Err(ParseError::OutOfBounds);
                }
                let ghost old_km = keys@.map_values(|k: HiiKey| k@);
                let ghost rest = parse_keys(buf@, base as int, next as int, limit as int);
                keys.push(k);
                proof {
                    assert(keys@.map_values(|k: HiiKey| k@) =~= old_km.push(k@));
                    match rest {
                        Ok((ks, end)) => {
                            assert(old_km + (seq![k@] + ks) =~= old_km.push(k@) + ks);
                        },
                        Err(_) => {},
                    }
                }
                p = next;
            },
        }
    }
    assert(keys@.map_values(|k: HiiKey| k@) + Seq::<KeyModel>::empty() =~= keys@.map_values(
        |k: HiiKey| k@,
    ));
    Ok((keys, p))
}

fn read_units(buf: &[u8], pos: usize) -> (r: Result<(Vec<u16>, usize), ParseError>)
    ensures
        r matches Ok((us, p)) ==> parse_units(buf@, pos as int) == Ok::<(Seq<u16>, int), ParseError>(
            (us@, p as int),
        ),
        r matches Err(e) ==> parse_units(buf@, pos as int) == Err::<(Seq<u16>, int), ParseError>(e),
{
    let mut units: Vec<u16> = Vec::new();
    let mut p: usize = pos;
    loop
        invariant
            pos <= p,
            p <= buf@.len() || p == pos,
            parse_units(buf@, pos as int) == prepend_items(units@, parse_units(buf@, p as int)),
        decreases buf@.len() - p,
    {
        let len = buf.len();
        let u = match read_u16(buf, p) {
            Some(v) => v,
            None => {
                return Err(ParseError::OutOfBounds);
            },
        };
        if u == 0 {
            assert(units@ + Seq::<u16>::empty() =~= units@);
            return Ok((units, p + 2));
        }
        let ghost old_units = units@;
        units.push(u);
        proof {
            match parse_units(buf@, p + 2) {
                Ok((us, e)) => {
                    assert(old_units + (seq![u] + us) =~= units@ + us);
                },
                Err(_) => {},
            }
        }
        p = p + 2;
    }
}

/// Splits a string at its first space, if it has one.
fn split_first_space(text: &str) -> (r: Option<(String, String)>)
    ensures
        r is Some <==> split_at_first_space(text@) is Some,
        r matches Some((a, b)) ==> split_at_first_space(text@) == Some((a@, b@)),
{
    let n = text.unicode_len();
    let mut i: usize = 0;
    while i < n
        invariant
            n == text@.len(),
            0 <= i <= n,
            forall|j: int| 0 <= j < i ==> text@[j] != ' ',
        decreases n - i,
    {
        if text.get_char(i) == ' ' {
            proof {
                assert(is_first_space(text@, i as int));
                let k = choose|k: int| is_first_space(text@, k);
                if k < i {
                    assert(text@[k] != ' ');
                }
                if k > i {
                    assert(text@[i as int] != ' ');
                }
            }
            let a = String::from_str(text.substring_char(0, i));
            let b = String::from_str(text.substring_char(i + 1, n));
            assert(a@ =~= text@.take(i as int));
            assert(b@ =~= text@.skip(i + 1));
            return Some((a, b));
        }
        i = i + 1;
    }
    proof {
        if exists|k: int| is_first_space(text@, k) {
            let k = choose|k: int| is_first_space(text@, k);
            assert(text@[k] != ' ');
        }
    }
    None
}

fn read_description(buf: &[u8], pos: usize) -> (r: Result<(HiiKeyboardDescription, usize), ParseError>)
    ensures
        r matches Ok((d, p)) ==> parse_description(buf@, pos as int) == Ok::<
            (DescriptionModel, int),
            ParseError,
        >((d@, p as int)),
        r matches Err(e) ==> parse_description(buf@, pos as int) == Err::<
            (DescriptionModel, int),
            ParseError,
        >(e),
{
    let (units, end) = match read_units(buf, pos) {
        Ok(x) => x,
        Err(e) => {
            return Err(e);
        },
    };
    let text = match string_from_utf16(units.as_slice()) {
        Some(t) => t,
        None => {
            return Err(ParseError::InvalidDescription);
        },
    };
    match split_first_space(text.as_str()) {
        None => Err(ParseError::DescriptionWithoutSpace),
        Some((language, description)) => Ok(
            (HiiKeyboardDescription { language, description }, end),
        ),
    }
}

fn read_descriptions(buf: &[u8], pos: usize, n: u16) -> (r: Result<
    (Vec<HiiKeyboardDescription>, usize),
    ParseError,
>)
    ensures
        r matches Ok((ds, p)) ==> parse_descriptions(buf@, pos as int, n as nat) == Ok::<
            (Seq<DescriptionModel>, int),
            ParseError,
        >((ds@.map_values(|d: HiiKeyboardDescription| d@), p as int)),
        r matches Err(e) ==> parse_descriptions(buf@, pos as int, n as nat) == Err::<
            (Seq<DescriptionModel>, int),
            ParseError,
        >(e),
{
    let mut descs: Vec<HiiKeyboardDescription> = Vec::new();
    let mut p: usize = pos;
    let mut i: u16 = 0;
    while i < n
        invariant
            0 <= i <= n,
            parse_descriptions(buf@, pos as int, n as nat) == prepend_items(
                descs@.map_values(|d: HiiKeyboardDescription| d@),
                parse_descriptions(buf@, p as int, (n - i) as nat),
            ),
        decreases n - i,
    {
        let (d, next) = match read_description(buf, p) {
            Ok(x) => x,
            Err(e) => {
                return Err(e);
            },
        };
        let ghost old_dm = descs@.map_values(|d: HiiKeyboardDescription| d@);
        descs.push(d);
        proof {
            assert(descs@.map_values(|d: HiiKeyboardDescription| d@) =~= old_dm.push(d@));
            match parse_descriptions(buf@, next as int, (n - i - 1) as nat) {
                Ok((ds, e)) => {
                    assert(old_dm + (seq![d@] + ds) =~= old_dm.push(d@) + ds);
                },
                Err(_) => {},
            }
        }
        p = next;
        i = i + 1;
    }
    assert(descs@.map_values(|d: HiiKeyboardDescription| d@) + Seq::<DescriptionModel>::empty()
        =~= descs@.map_values(|d: HiiKeyboardDescription| d@));
    Ok((descs, p))
}

fn read_layout(buf: &[u8], pos: usize) -> (r: Result<(HiiKeyboardLayout, usize), ParseError>)
    ensures
        r matches Ok((l, p)) ==> parse_layout(buf@, pos as int) == Ok::<(LayoutModel, int), ParseError>(
            (l@, p as int),
        ),
        r matches Err(e) ==> parse_layout(buf@, pos as int) == Err::<(LayoutModel, int), ParseError>(
            e,
        ),
{
    if pos >= buf.len() || buf.len() - pos < 23 {
        return Err(ParseError::OutOfBounds);
    }
    let guid = read_guid(buf, pos + 2);
    let string_offset = match read_u32(buf, pos + 18) {
        Some(v) => v,
        None => 0,
    };
    let (keys, kend) = match read_keys(buf, pos, pos + 23, string_offset) {
        Ok(x) => x,
        Err(e) => {
            return Err(e);
        },
    };
    let count = match read_u16(buf, kend) {
        Some(v) => v,
        None => {
            return Err(ParseError::OutOfBounds);
        },
    };
    let (descriptions, end) = match read_descriptions(buf, kend + 2, count) {
        Ok(x) => x,
        Err(e) => {
            return Err(e);
        },
    };
    Ok((HiiKeyboardLayout { guid, keys, descriptions }, end))
}

fn read_pkg(buf: &[u8], pos: usize) -> (r: Result<(HiiKeyboardPkg, usize), ParseError>)
    ensures
        r matches Ok((pk, p)) ==> parse_pkg(buf@, pos as int) == Ok::<(PkgModel, int), ParseError>(
            (pk@, p as int),
        ),
        r matches Err(e) ==> parse_pkg(buf@, pos as int) == Err::<(PkgModel, int), ParseError>(e),
{
    let len = buf.len();
    let header = match read_u32(buf, pos) {
        Some(v) => v,
        None => {
            return Err(ParseError::OutOfBounds);
        },
    };
    if header / 0x0100_0000 != PACKAGE_KEYBOARD_LAYOUT as u32 {
        return Err(ParseError::UnsupportedPackageType);
    }
    let count = match read_u16(buf, pos + 4) {
        Some(v) => v,
        None => {
            return Err(ParseError::OutOfBounds);
        },
    };
    let mut layouts: Vec<HiiKeyboardLayout> = Vec::new();
    let mut p: usize = pos + 6;
    let mut i: u16 = 0;
    while i < count
        invariant
            0 <= i <= count,
            pos + 6 <= buf@.len(),
            le_u32(buf@, pos as int) / 0x0100_0000 == PACKAGE_KEYBOARD_LAYOUT as u32,
            count == le_u16(buf@, pos + 4),
            parse_layouts(buf@, pos + 6, count as nat) == prepend_items(
                layouts@.map_values(|l: HiiKeyboardLayout| l@),
                parse_layouts(buf@, p as int, (count - i) as nat),
            ),
        decreases count - i,
    {
        let (l, next) = match read_layout(buf, p) {
            Ok(x) => x,
            Err(e) => {
                return Err(e);
            },
        };
        let ghost old_lm = layouts@.map_values(|l: HiiKeyboardLayout| l@);
        layouts.push(l);
        proof {
            assert(layouts@.map_values(|l: HiiKeyboardLayout| l@) =~= old_lm.push(l@));
            match parse_layouts(buf@, next as int, (count - i - 1) as nat) {
                Ok((ls, e)) => {
                    assert(old_lm + (seq![l@] + ls) =~= old_lm.push(l@) + ls);
                },
                Err(_) => {},
            }
        }
        p = next;
        i = i + 1;
    }
    assert(layouts@.map_values(|l: HiiKeyboardLayout| l@) + Seq::<LayoutModel>::empty()
        =~= layouts@.map_values(|l: HiiKeyboardLayout| l@));
    Ok((HiiKeyboardPkg { layouts }, p))
}

fn read_pkg_list(buf: &[u8], pos: usize) -> (r: Result<(HiiKeyboardPkgList, usize), ParseError>)
    ensures
        r matches Ok((pl, p)) ==> parse_pkg_list(buf@, pos as int) == Ok::<
            (PkgListModel, int),
            ParseError,
        >((pl@, p as int)),
        r matches Err(e) ==> parse_pkg_list(buf@, pos as int) == Err::<(PkgListModel, int), ParseError>(
            e,
        ),
{
    if pos >= buf.len() || buf.len() - pos < 20 {
        return Err(ParseError::OutOfBounds);
    }
    let guid = read_guid(buf, pos);
    let (package, pend) = match read_pkg(buf, pos + 20) {
        Ok(x) => x,
        Err(e) => {
            return Err(e);
        },
    };
    if pend >= buf.len() || buf.len() - pend < 4 {
        return Err(ParseError::OutOfBounds);
    }
    Ok((HiiKeyboardPkgList { package_list_guid: guid, package }, pend + 4))
}

impl HiiKeyDescriptor {
    /// Reads a key descriptor from the start of `src`; returns it and the number of bytes read.
    pub fn try_from_bytes(src: &[u8]) -> (r: Result<(HiiKeyDescriptor, usize), ParseError>)
        ensures
            r matches Ok((d, n)) ==> parse_descriptor(src@, 0) == Ok::<
                (HiiKeyDescriptor, int),
                ParseError,
            >((d, n as int)),
            r matches Err(e) ==> parse_descriptor(src@, 0) == Err::<(HiiKeyDescriptor, int), ParseError>(
                e,
            ),
    {
        read_descriptor(src, 0)
    }
}

impl HiiKey {
    /// Reads a key from the start of `src`; returns it and the number of bytes read. A non-spacing
    /// key takes the dependent descriptors that follow it.
    pub fn try_from_bytes(src: &[u8]) -> (r: Result<(HiiKey, usize), ParseError>)
        ensures
            r matches Ok((k, n)) ==> parse_key(src@, 0) == Ok::<(KeyModel, int), ParseError>(
                (k@, n as int),
            ),
            r matches Err(e) ==> parse_key(src@, 0) == Err::<(KeyModel, int), ParseError>(e),
    {
        read_key(src, 0)
    }
}

impl HiiKeyboardDescription {
    /// Reads a description from the start of `src`; returns it and the number of bytes read.
    pub fn try_from_bytes(src: &[u8]) -> (r: Result<(HiiKeyboardDescription, usize), ParseError>)
        ensures
            r matches Ok((d, n)) ==> parse_description(src@, 0) == Ok::<
                (DescriptionModel, int),
                ParseError,
            >((d@, n as int)),
            r matches Err(e) ==> parse_description(src@, 0) == Err::<
                (DescriptionModel, int),
                ParseError,
            >(e),
    {
        read_description(src, 0)
    }
}

impl HiiKeyboardLayout {
    /// Reads a layout from the start of `src`; returns it and the number of bytes read.
    pub fn try_from_bytes(src: &[u8]) -> (r: Result<(HiiKeyboardLayout, usize), ParseError>)
        ensures
            r matches Ok((l, n)) ==> parse_layout(src@, 0) == Ok::<(LayoutModel, int), ParseError>(
                (l@, n as int),
            ),
            r matches Err(e) ==> parse_layout(src@, 0) == Err::<(LayoutModel, int), ParseError>(e),
    {
        read_layout(src, 0)
    }
}

impl HiiKeyboardPkg {
    /// Reads a keyboard package from the start of `src`; returns it and the number of bytes read.
    pub fn try_from_bytes(src: &[u8]) -> (r: Result<(HiiKeyboardPkg, usize), ParseError>)
        ensures
            r matches Ok((p, n)) ==> parse_pkg(src@, 0) == Ok::<(PkgModel, int), ParseError>(
                (p@, n as int),
            ),
            r matches Err(e) ==> parse_pkg(src@, 0) == Err::<(PkgModel, int), ParseError>(e),
    {
        read_pkg(src, 0)
    }
}

impl HiiKeyboardPkgList {
    /// Reads a package list from the start of `src`; returns it and the number of bytes read.
    pub fn try_from_bytes(src: &[u8]) -> (r: Result<(HiiKeyboardPkgList, usize), ParseError>)
        ensures
            r matches Ok((p, n)) ==> parse_pkg_list(src@, 0) == Ok::<(PkgListModel, int), ParseError>(
                (p@, n as int),
            ),
            r matches Err(e) ==> parse_pkg_list(src@, 0) == Err::<(PkgListModel, int), ParseError>(e),
    {
        read_pkg_list(src, 0)
    }
}

/// Why a keyboard layout could not be obtained from a buffer.
#[derive(Debug, Clone, Copy, PartialEq, Eq)]
pub enum LayoutError {
    /// The buffer does not hold a well-formed layout.
    ParseError(ParseError),
}

/// Reads the keyboard layout at the start of `buffer`.
pub fn keyboard_layout_from_buffer(buffer: &[u8]) -> (r: Result<HiiKeyboardLayout, LayoutError>)
    ensures
        r is Ok <==> parse_layout(buffer@, 0) is Ok,
        r matches Ok(l) ==> parse_layout(buffer@, 0) matches Ok((m, _)) && l@ == m,
        r matches Err(LayoutError::ParseError(e)) ==> parse_layout(buffer@, 0) == Err::<
            (LayoutModel, int),
            ParseError,
        >(e),
{
    match read_layout(buffer, 0) {
        Ok((l, _)) => Ok(l),
        Err(e) => Err(LayoutError::ParseError(e)),
    }
}

} // verus!
