//! HII keyboard layout structures and their byte format.
//!
//! A keyboard package holds layouts; a layout holds key descriptors and descriptions. Each structure
//! has a mathematical model (its view), the bytes it is written as, and what reading bytes yields.
use crate::bytes::{le_u16, le_u32, push_u16, push_u32, u16_bytes, u32_bytes, units_bytes};
use crate::efi_key::EfiKey;
pub use crate::modifiers::{NS_KEY_DEPENDENCY_MODIFIER, NS_KEY_MODIFIER};
use crate::utf16::{str_encode_utf16, utf16_encode};
use vstd::prelude::*;

verus! {

/// Package type of a keyboard layout package.
pub const PACKAGE_KEYBOARD_LAYOUT: u8 = 0x09;

/// Package type of the package that ends a package list.
pub const PACKAGE_END: u8 = 0xDF;

/// Number of bytes of one key descriptor.
pub const KEY_DESCRIPTOR_SIZE: usize = 16;

/// A 128-bit globally unique identifier, kept as its fields.
#[derive(Debug, Clone, Copy, PartialEq, Eq)]
pub struct Guid {
    pub time_low: u32,
    pub time_mid: u16,
    pub time_hi_and_version: u16,
    pub clk_seq_hi_res: u8,
    pub clk_seq_low: u8,
    pub node: [u8; 6],
}

impl Guid {
    /// Builds a GUID from its fields.
    pub fn from_fields(
        time_low: u32,
        time_mid: u16,
        time_hi_and_version: u16,
        clk_seq_hi_res: u8,
        clk_seq_low: u8,
        node: &[u8; 6],
    ) -> (g: Guid)
        ensures
            g == (Guid {
                time_low,
                time_mid,
                time_hi_and_version,
                clk_seq_hi_res,
                clk_seq_low,
                node: *node,
            }),
    {
        Guid { time_low, time_mid, time_hi_and_version, clk_seq_hi_res, clk_seq_low, node: *node }
    }

    /// The sixteen bytes of the GUID: the three first fields little-endian, then the others.
    pub fn as_bytes(&self) -> (r: Vec<u8>)
        ensures
            r@ == guid_bytes(*self),
    {
        let mut out: Vec<u8> = Vec::new();
        write_guid(&mut out, self);
        out
    }
}

/// A key descriptor: a physical key, the characters it produces, and its modifier behaviour.
#[derive(Debug, Clone, Copy, PartialEq, Eq)]
pub struct HiiKeyDescriptor {
    /// The physical key.
    pub key: EfiKey,
    /// Character of the key (UCS-2).
    pub unicode: u16,
    /// Character with shift held.
    pub shifted_unicode: u16,
    /// Character with Alt-GR held.
    pub alt_gr_unicode: u16,
    /// Character with shift and Alt-GR held.
    pub shifted_alt_gr_unicode: u16,
    /// Modifier function of the key.
    pub modifier: u16,
    /// Which modifiers affect the key.
    pub affected_attribute: u16,
}

/// A non-spacing key and the descriptors that are active after it was pressed.
#[derive(Debug, PartialEq, Eq, Clone)]
pub struct HiiNsKeyDescriptor {
    pub descriptor: HiiKeyDescriptor,
    pub dependent_keys: Vec<HiiKeyDescriptor>,
}

/// A key of a layout: a normal key or a non-spacing key.
#[derive(Debug, Clone, PartialEq, Eq)]
pub enum HiiKey {
    Key(HiiKeyDescriptor),
    NsKey(HiiNsKeyDescriptor),
}

/// Description of a layout in a language, such as "en-US" and "English Keyboard".
#[derive(Debug, Clone, PartialEq, Eq)]
pub struct HiiKeyboardDescription {
    pub language: String,
    pub description: String,
}

/// A keyboard layout.
#[derive(Debug, Clone, PartialEq, Eq)]
pub struct HiiKeyboardLayout {
    pub guid: Guid,
    pub keys: Vec<HiiKey>,
    pub descriptions: Vec<HiiKeyboardDescription>,
}

/// A keyboard layout package.
#[derive(Debug, PartialEq, Eq)]
pub struct HiiKeyboardPkg {
    pub layouts: Vec<HiiKeyboardLayout>,
}

/// A package list that holds one keyboard layout package.
#[derive(Debug, PartialEq, Eq)]
pub struct HiiKeyboardPkgList {
    pub package_list_guid: Guid,
    pub package: HiiKeyboardPkg,
}

/// Model of a non-spacing key.
pub struct NsKeyModel {
    pub descriptor: HiiKeyDescriptor,
    pub dependent_keys: Seq<HiiKeyDescriptor>,
}

/// Model of a key.
pub enum KeyModel {
    Key(HiiKeyDescriptor),
    NsKey(NsKeyModel),
}

/// Model of a description.
pub struct DescriptionModel {
    pub language: Seq<char>,
    pub description: Seq<char>,
}

/// Model of a layout.
pub struct LayoutModel {
    pub guid: Guid,
    pub keys: Seq<KeyModel>,
    pub descriptions: Seq<DescriptionModel>,
}

/// Model of a keyboard package.
pub struct PkgModel {
    pub layouts: Seq<LayoutModel>,
}

/// Model of a package list.
pub struct PkgListModel {
    pub guid: Guid,
    pub package: PkgModel,
}

impl View for HiiNsKeyDescriptor {
    type V = NsKeyModel;

    open spec fn view(&self) -> NsKeyModel {
        NsKeyModel { descriptor: self.descriptor, dependent_keys: self.dependent_keys@ }
    }
}

impl View for HiiKey {
    type V = KeyModel;

    open spec fn view(&self) -> KeyModel {
        match self {
            HiiKey::Key(d) => KeyModel::Key(*d),
            HiiKey::NsKey(n) => KeyModel::NsKey(n@),
        }
    }
}

impl View for HiiKeyboardDescription {
    type V = DescriptionModel;

    open spec fn view(&self) -> DescriptionModel {
        DescriptionModel { language: self.language@, description: self.description@ }
    }
}

impl View for HiiKeyboardLayout {
    type V = LayoutModel;

    open spec fn view(&self) -> LayoutModel {
        LayoutModel {
            guid: self.guid,
            keys: self.keys@.map_values(|k: HiiKey| k@),
            descriptions: self.descriptions@.map_values(|d: HiiKeyboardDescription| d@),
        }
    }
}

impl View for HiiKeyboardPkg {
    type V = PkgModel;

    open spec fn view(&self) -> PkgModel {
        PkgModel { layouts: self.layouts@.map_values(|l: HiiKeyboardLayout| l@) }
    }
}

impl View for HiiKeyboardPkgList {
    type V = PkgListModel;

    open spec fn view(&self) -> PkgListModel {
        PkgListModel { guid: self.package_list_guid, package: self.package@ }
    }
}

// ---------------------------------------------------------------------------------------------
// The bytes that each structure is written as.
/// The sixteen bytes of a GUID.
pub open spec fn guid_bytes(g: Guid) -> Seq<u8> {
    u32_bytes(g.time_low) + u16_bytes(g.time_mid) + u16_bytes(g.time_hi_and_version) + seq![
        g.clk_seq_hi_res,
        g.clk_seq_low,
    ] + g.node@
}

/// The sixteen bytes of a key descriptor.
pub open spec fn descriptor_bytes(d: HiiKeyDescriptor) -> Seq<u8> {
    u32_bytes(d.key.spec_code()) + u16_bytes(d.unicode) + u16_bytes(d.shifted_unicode) + u16_bytes(
        d.alt_gr_unicode,
    ) + u16_bytes(d.shifted_alt_gr_unicode) + u16_bytes(d.modifier) + u16_bytes(
        d.affected_attribute,
    )
}

/// The bytes of a sequence of key descriptors.
pub open spec fn descriptors_bytes(ds: Seq<HiiKeyDescriptor>) -> Seq<u8> {
    ds.map_values(|d: HiiKeyDescriptor| descriptor_bytes(d)).flatten()
}

/// The bytes of a key: its descriptor, then for a non-spacing key its dependent descriptors.
pub open spec fn key_bytes(k: KeyModel) -> Seq<u8> {
    match k {
        KeyModel::Key(d) => descriptor_bytes(d),
        KeyModel::NsKey(n) => descriptor_bytes(n.descriptor) + descriptors_bytes(n.dependent_keys),
    }
}

/// The bytes of a sequence of keys.
pub open spec fn keys_bytes(ks: Seq<KeyModel>) -> Seq<u8> {
    ks.map_values(|k: KeyModel| key_bytes(k)).flatten()
}

/// The UTF-16 units of a description: language, a space, description, and a terminating zero.
pub open spec fn description_units(d: DescriptionModel) -> Seq<u16> {
    utf16_encode(d.language + seq![' '] + d.description).push(0u16)
}

/// The bytes of a description.
pub open spec fn description_bytes(d: DescriptionModel) -> Seq<u8> {
    units_bytes(description_units(d))
}

/// The bytes of a sequence of descriptions.
pub open spec fn descriptions_bytes(ds: Seq<DescriptionModel>) -> Seq<u8> {
    ds.map_values(|d: DescriptionModel| description_bytes(d)).flatten()
}

/// The bytes of a layout: its length, GUID, the offset of its descriptions, the number of key
/// descriptors, the keys, the number of descriptions and the descriptions. Counts and lengths are
/// written truncated to the width of their field.
pub open spec fn layout_bytes(l: LayoutModel) -> Seq<u8> {
    let kb = keys_bytes(l.keys);
    let db = descriptions_bytes(l.descriptions);
    let total = 23 + kb.len() + 2 + db.len();
    u16_bytes((total % 0x10000) as u16) + guid_bytes(l.guid) + u32_bytes(
        ((23 + kb.len()) % 0x1_0000_0000) as u32,
    ) + seq![((kb.len() / 16) % 256) as u8] + kb + u16_bytes(
        (l.descriptions.len() % 0x10000) as u16,
    ) + db
}

/// The bytes of a sequence of layouts.
pub open spec fn layouts_bytes(ls: Seq<LayoutModel>) -> Seq<u8> {
    ls.map_values(|l: LayoutModel| layout_bytes(l)).flatten()
}

/// The bytes of a keyboard package: its header (type and length), the number of layouts, the layouts.
pub open spec fn pkg_bytes(p: PkgModel) -> Seq<u8> {
    let lb = layouts_bytes(p.layouts);
    let total = 6 + lb.len();
    u32_bytes((0x0900_0000 + total % 0x0100_0000) as u32) + u16_bytes(
        (p.layouts.len() % 0x10000) as u16,
    ) + lb
}

/// The header of the package that ends a package list.
pub open spec fn end_package_header() -> u32 {
    0xDF00_0004
}

/// The bytes of a package list: GUID, total length, the keyboard package, and an end package.
pub open spec fn pkg_list_bytes(pl: PkgListModel) -> Seq<u8> {
    let pb = pkg_bytes(pl.package);
    let total = 24 + pb.len();
    guid_bytes(pl.guid) + u32_bytes((total % 0x1_0000_0000) as u32) + pb + u32_bytes(
        end_package_header(),
    )
}

// ---------------------------------------------------------------------------------------------
// Writers.
pub(crate) fn write_guid(out: &mut Vec<u8>, g: &Guid)
    ensures
        final(out)@ == old(out)@ + guid_bytes(*g),
{
    push_u32(out, g.time_low);
    push_u16(out, g.time_mid);
    push_u16(out, g.time_hi_and_version);
    out.push(g.clk_seq_hi_res);
    out.push(g.clk_seq_low);
    let mut i: usize = 0;
    let ghost start = out@;
    while i < 6
        invariant
            0 <= i <= 6,
            out@ == start + g.node@.take(i as int),
        decreases 6 - i,
    {
        out.push(g.node[i]);
        i = i + 1;
        assert(g.node@.take(i as int) == g.node@.take(i - 1).push(g.node@[i - 1]));
    }
    assert(g.node@.take(6) == g.node@);
    assert(old(out)@ + guid_bytes(*g) =~= start + g.node@);
}

pub(crate) fn write_descriptor(out: &mut Vec<u8>, d: &HiiKeyDescriptor)
    ensures
        final(out)@ == old(out)@ + descriptor_bytes(*d),
{
    push_u32(out, d.key.code());
    push_u16(out, d.unicode);
    push_u16(out, d.shifted_unicode);
    push_u16(out, d.alt_gr_unicode);
    push_u16(out, d.shifted_alt_gr_unicode);
    push_u16(out, d.modifier);
    push_u16(out, d.affected_attribute);
    assert(old(out)@ + descriptor_bytes(*d) =~= out@);
}

pub(crate) fn write_key(out: &mut Vec<u8>, k: &HiiKey)
    ensures
        final(out)@ == old(out)@ + key_bytes(k@),
{
    match k {
        HiiKey::Key(d) => {
            write_descriptor(out, d);
        },
        HiiKey::NsKey(n) => {
            write_descriptor(out, &n.descriptor);
            let ghost mid = out@;
            let mut i: usize = 0;
            while i < n.dependent_keys.len()
                invariant
                    0 <= i <= n.dependent_keys@.len(),
                    out@ == mid + descriptors_bytes(n.dependent_keys@.take(i as int)),
                decreases n.dependent_keys@.len() - i,
            {
                write_descriptor(out, &n.dependent_keys[i]);
                proof {
                    let f = |d: HiiKeyDescriptor| descriptor_bytes(d);
                    let t = n.dependent_keys@.take(i as int);
                    assert(n.dependent_keys@.take(i + 1) == t.push(n.dependent_keys@[i as int]));
                    assert(t.push(n.dependent_keys@[i as int]).map_values(f) == t.map_values(
                        f,
                    ).push(f(n.dependent_keys@[i as int])));
                    t.map_values(f).lemma_flatten_push(f(n.dependent_keys@[i as int]));
                }
                i = i + 1;
            }
            assert(n.dependent_keys@.take(n.dependent_keys@.len() as int) == n.dependent_keys@);
            assert(old(out)@ + key_bytes(k@) =~= out@);
        },
    }
}

pub(crate) fn write_description(out: &mut Vec<u8>, d: &HiiKeyboardDescription)
    ensures
        final(out)@ == old(out)@ + description_bytes(d@),
{
    let mut text = d.language.clone();
    let space = " ";
    proof {
        reveal_strlit(" ");
    }
    text.append(space);
    text.append(d.description.as_str());
    assert(text@ == d.language@ + seq![' '] + d.description@);
    let mut units = str_encode_utf16(text.as_str());
    units.push(0u16);
    assert(units@ == description_units(d@));
    let ghost start = out@;
    let mut i: usize = 0;
    while i < units.len()
        invariant
            0 <= i <= units@.len(),
            units@ == description_units(d@),
            out@ == start + units_bytes(units@.take(i as int)),
        decreases units@.len() - i,
    {
        push_u16(out, units[i]);
        proof {
            let f = |u: u16| u16_bytes(u);
            let t = units@.take(i as int);
            assert(units@.take(i + 1) == t.push(units@[i as int]));
            assert(t.push(units@[i as int]).map_values(f) == t.map_values(f).push(f(units@[i as int])));
            t.map_values(f).lemma_flatten_push(f(units@[i as int]));
        }
        i = i + 1;
    }
    assert(units@.take(units@.len() as int) == units@);
}

/// The bytes of a sequence of keys, one after the other.
pub(crate) fn write_keys(out: &mut Vec<u8>, keys: &Vec<HiiKey>)
    ensures
        final(out)@ == old(out)@ + keys_bytes(keys@.map_values(|k: HiiKey| k@)),
{
    let ghost start = out@;
    let ghost km = keys@.map_values(|k: HiiKey| k@);
    let mut i: usize = 0;
    while i < keys.len()
        invariant
            0 <= i <= keys@.len(),
            km == keys@.map_values(|k: HiiKey| k@),
            out@ == start + keys_bytes(km.take(i as int)),
        decreases keys@.len() - i,
    {
        write_key(out, &keys[i]);
        proof {
            let f = |k: KeyModel| key_bytes(k);
            let t = km.take(i as int);
            assert(km.take(i + 1) == t.push(km[i as int]));
            assert(t.push(km[i as int]).map_values(f) == t.map_values(f).push(f(km[i as int])));
            t.map_values(f).lemma_flatten_push(f(km[i as int]));
        }
        i = i + 1;
    }
    assert(km.take(km.len() as int) == km);
}

/// The bytes of a sequence of descriptions, one after the other.
pub(crate) fn write_descriptions(out: &mut Vec<u8>, descs: &Vec<HiiKeyboardDescription>)
    ensures
        final(out)@ == old(out)@ + descriptions_bytes(
            descs@.map_values(|d: HiiKeyboardDescription| d@),
        ),
{
    let ghost start = out@;
    let ghost dm = descs@.map_values(|d: HiiKeyboardDescription| d@);
    let mut i: usize = 0;
    while i < descs.len()
        invariant
            0 <= i <= descs@.len(),
            dm == descs@.map_values(|d: HiiKeyboardDescription| d@),
            out@ == start + descriptions_bytes(dm.take(i as int)),
        decreases descs@.len() - i,
    {
        write_description(out, &descs[i]);
        proof {
            let f = |d: DescriptionModel| description_bytes(d);
            let t = dm.take(i as int);
            assert(dm.take(i + 1) == t.push(dm[i as int]));
            assert(t.push(dm[i as int]).map_values(f) == t.map_values(f).push(f(dm[i as int])));
            t.map_values(f).lemma_flatten_push(f(dm[i as int]));
        }
        i = i + 1;
    }
    assert(dm.take(dm.len() as int) == dm);
}

impl HiiKeyboardLayout {
    /// The bytes this layout is written as.
    pub fn to_bytes(&self) -> (r: Vec<u8>)
        ensures
            r@ == layout_bytes(self@),
    {
        let mut kb: Vec<u8> = Vec::new();
        write_keys(&mut kb, &self.keys);
        let mut db: Vec<u8> = Vec::new();
        write_descriptions(&mut db, &self.descriptions);
        let kl: u64 = (kb.len() as u64) % 0x1_0000_0000;
        let dl: u64 = (db.len() as u64) % 0x1_0000_0000;
        let total: u64 = (25 + kl + dl) % 0x10000;
        let string_offset: u64 = (23 + kl) % 0x1_0000_0000;
        let count: u8 = ((kb.len() / 16) % 256) as u8;
        let ndesc: u16 = (self.descriptions.len() % 0x10000) as u16;
        let mut out: Vec<u8> = Vec::new();
        push_u16(&mut out, total as u16);
        write_guid(&mut out, &self.guid);
        push_u32(&mut out, string_offset as u32);
        out.push(count);
        out.append(&mut kb);
        push_u16(&mut out, ndesc);
        out.append(&mut db);
        proof {
            let k = keys_bytes(self@.keys).len() as int;
            let d = descriptions_bytes(self@.descriptions).len() as int;
            assert((25 + k % 0x1_0000_0000 + d % 0x1_0000_0000) % 0x10000 == (23 + k + 2 + d)
                % 0x10000) by (nonlinear_arith)
                requires
                    k >= 0,
                    d >= 0,
            ;
            assert((23 + k % 0x1_0000_0000) % 0x1_0000_0000 == (23 + k) % 0x1_0000_0000) by (
            nonlinear_arith)
                requires
                    k >= 0,
            ;
        }
        assert(out@ =~= layout_bytes(self@));
        out
    }
}

impl HiiKeyboardPkg {
    /// The bytes this package is written as.
    pub fn to_bytes(&self) -> (r: Vec<u8>)
        ensures
            r@ == pkg_bytes(self@),
    {
        let ghost lm = self.layouts@.map_values(|l: HiiKeyboardLayout| l@);
        let mut lb: Vec<u8> = Vec::new();
        let mut i: usize = 0;
        while i < self.layouts.len()
            invariant
                0 <= i <= self.layouts@.len(),
                lm == self.layouts@.map_values(|l: HiiKeyboardLayout| l@),
                lb@ == layouts_bytes(lm.take(i as int)),
            decreases self.layouts@.len() - i,
        {
            let mut one = self.layouts[i].to_bytes();
            lb.append(&mut one);
            proof {
                let f = |l: LayoutModel| layout_bytes(l);
                let t = lm.take(i as int);
                assert(lm.take(i + 1) == t.push(lm[i as int]));
                assert(t.push(lm[i as int]).map_values(f) == t.map_values(f).push(f(lm[i as int])));
                t.map_values(f).lemma_flatten_push(f(lm[i as int]));
            }
            i = i + 1;
        }
        assert(lm.take(lm.len() as int) == lm);
        let ll: u64 = (lb.len() as u64) % 0x0100_0000;
        let header: u64 = 0x0900_0000 + (6 + ll) % 0x0100_0000;
        let count: u16 = (self.layouts.len() % 0x10000) as u16;
        let mut out: Vec<u8> = Vec::new();
        push_u32(&mut out, header as u32);
        push_u16(&mut out, count);
        out.append(&mut lb);
        proof {
            let l = layouts_bytes(self@.layouts).len() as int;
            assert((6 + l % 0x0100_0000) % 0x0100_0000 == (6 + l) % 0x0100_0000) by (nonlinear_arith)
                requires
                    l >= 0,
            ;
        }
        assert(out@ =~= pkg_bytes(self@));
        out
    }
}

impl HiiKeyboardPkgList {
    /// The bytes this package list is written as.
    pub fn to_bytes(&self) -> (r: Vec<u8>)
        ensures
            r@ == pkg_list_bytes(self@),
    {
        let mut pb = self.package.to_bytes();
        let pl: u64 = (pb.len() as u64) % 0x1_0000_0000;
        let total: u64 = (24 + pl) % 0x1_0000_0000;
        let mut out: Vec<u8> = Vec::new();
        write_guid(&mut out, &self.package_list_guid);
        push_u32(&mut out, total as u32);
        out.append(&mut pb);
        push_u32(&mut out, 0xDF00_0004);
        proof {
            let p = pkg_bytes(self@.package).len() as int;
            assert((24 + p % 0x1_0000_0000) % 0x1_0000_0000 == (24 + p) % 0x1_0000_0000) by (
            nonlinear_arith)
                requires
                    p >= 0,
            ;
        }
        assert(out@ =~= pkg_list_bytes(self@));
        out
    }
}

/// Error of writing a structure into a buffer.
#[derive(Debug, Clone, Copy, PartialEq, Eq)]
pub enum WriteError {
    /// The buffer is shorter than the bytes to write.
    BufferTooSmall,
}

/// Copies `bytes` to the start of `dest` when they fit, and returns their number.
pub(crate) fn copy_into(bytes: &Vec<u8>, dest: &mut [u8]) -> (r: Result<usize, WriteError>)
    ensures
        r is Ok <==> bytes@.len() <= old(dest)@.len(),
        r matches Ok(n) ==> n == bytes@.len() && final(dest)@ == bytes@ + old(dest)@.skip(n as int),
        r is Err ==> final(dest)@ == old(dest)@,
{
    if bytes.len() > dest.len() {
        return Err(WriteError::BufferTooSmall);
    }
    let mut i: usize = 0;
    while i < bytes.len()
        invariant
            0 <= i <= bytes@.len(),
            bytes@.len() <= dest@.len(),
            dest@.len() == old(dest)@.len(),
            forall|j: int| 0 <= j < i ==> dest@[j] == bytes@[j],
            forall|j: int| i <= j < dest@.len() ==> dest@[j] == old(dest)@[j],
        decreases bytes@.len() - i,
    {
        dest[i] = bytes[i];
        i = i + 1;
    }
    assert(dest@ =~= bytes@ + old(dest)@.skip(bytes@.len() as int));
    Ok(bytes.len())
}

impl HiiKeyboardPkg {
    /// Writes this package at the start of `dest`; fails, leaving `dest` unchanged, when it does
    /// not fit. Returns the number of bytes written.
    pub fn write_into(&self, dest: &mut [u8]) -> (r: Result<usize, WriteError>)
        ensures
            r is Ok <==> pkg_bytes(self@).len() <= old(dest)@.len(),
            r matches Ok(n) ==> n == pkg_bytes(self@).len() && final(dest)@ == pkg_bytes(self@)
                + old(dest)@.skip(n as int),
            r is Err ==> final(dest)@ == old(dest)@,
    {
        let bytes = self.to_bytes();
        copy_into(&bytes, dest)
    }
}

impl HiiKeyboardPkgList {
    /// Writes this package list at the start of `dest`; fails, leaving `dest` unchanged, when it
    /// does not fit. Returns the number of bytes written.
    pub fn write_into(&self, dest: &mut [u8]) -> (r: Result<usize, WriteError>)
        ensures
            r is Ok <==> pkg_list_bytes(self@).len() <= old(dest)@.len(),
            r matches Ok(n) ==> n == pkg_list_bytes(self@).len() && final(dest)@ == pkg_list_bytes(
                self@,
            ) + old(dest)@.skip(n as int),
            r is Err ==> final(dest)@ == old(dest)@,
    {
        let bytes = self.to_bytes();
        copy_into(&bytes, dest)
    }
}

impl HiiKeyboardLayout {
    /// Writes this layout at the start of `dest`; fails, leaving `dest` unchanged, when it does
    /// not fit. Returns the number of bytes written.
    pub fn write_into(&self, dest: &mut [u8]) -> (r: Result<usize, WriteError>)
        ensures
            r is Ok <==> layout_bytes(self@).len() <= old(dest)@.len(),
            r matches Ok(n) ==> n == layout_bytes(self@).len() && final(dest)@ == layout_bytes(
                self@,
            ) + old(dest)@.skip(n as int),
            r is Err ==> final(dest)@ == old(dest)@,
    {
        let bytes = self.to_bytes();
        copy_into(&bytes, dest)
    }
}

// ---------------------------------------------------------------------------------------------
// Copies.
impl HiiNsKeyDescriptor {
    /// A copy of this non-spacing key.
    pub fn duplicate(&self) -> (r: HiiNsKeyDescriptor)
        ensures
            r@ == self@,
    {
        let mut deps: Vec<HiiKeyDescriptor> = Vec::new();
        let mut i: usize = 0;
        while i < self.dependent_keys.len()
            invariant
                0 <= i <= self.dependent_keys@.len(),
                deps@ == self.dependent_keys@.take(i as int),
            decreases self.dependent_keys@.len() - i,
        {
            deps.push(self.dependent_keys[i]);
            i = i + 1;
            assert(deps@ =~= self.dependent_keys@.take(i as int));
        }
        assert(deps@ =~= self.dependent_keys@);
        HiiNsKeyDescriptor { descriptor: self.descriptor, dependent_keys: deps }
    }
}

impl HiiKey {
    /// A copy of this key.
    pub fn duplicate(&self) -> (r: HiiKey)
        ensures
            r@ == self@,
    {
        match self {
            HiiKey::Key(d) => HiiKey::Key(*d),
            HiiKey::NsKey(n) => HiiKey::NsKey(n.duplicate()),
        }
    }
}

impl HiiKeyboardDescription {
    /// A copy of this description.
    pub fn duplicate(&self) -> (r: HiiKeyboardDescription)
        ensures
            r@ == self@,
    {
        HiiKeyboardDescription { language: self.language.clone(), description: self.description.clone() }
    }
}

impl HiiKeyboardLayout {
    /// A copy of this layout.
    pub fn duplicate(&self) -> (r: HiiKeyboardLayout)
        ensures
            r@ == self@,
    {
        let mut keys: Vec<HiiKey> = Vec::new();
        let mut i: usize = 0;
        while i < self.keys.len()
            invariant
                0 <= i <= self.keys@.len(),
                keys@.len() == i,
                forall|t: int| 0 <= t < i ==> (#[trigger] keys@[t])@ == self.keys@[t]@,
            decreases self.keys@.len() - i,
        {
            let k = self.keys[i].duplicate();
            keys.push(k);
            i = i + 1;
        }
        let mut descriptions: Vec<HiiKeyboardDescription> = Vec::new();
        let mut j: usize = 0;
        while j < self.descriptions.len()
            invariant
                0 <= j <= self.descriptions@.len(),
                descriptions@.len() == j,
                forall|t: int| 0 <= t < j ==> (#[trigger] descriptions@[t])@ == self.descriptions@[t]@,
            decreases self.descriptions@.len() - j,
        {
            let d = self.descriptions[j].duplicate();
            descriptions.push(d);
            j = j + 1;
        }
        assert(keys@.map_values(|k: HiiKey| k@) =~= self.keys@.map_values(|k: HiiKey| k@));
        assert(descriptions@.map_values(|d: HiiKeyboardDescription| d@) =~= self.descriptions@.map_values(
            |d: HiiKeyboardDescription| d@,
        ));
        HiiKeyboardLayout { guid: self.guid, keys, descriptions }
    }
}

} // verus!
