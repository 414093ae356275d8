//! HID report descriptors as the handlers read them, and the field accessors of `hidparser` that
//! read values from reports and write them into reports, with what those values and reports are.
use hidparser::report_data_types::{LogicalMaximum, LogicalMinimum, ReportId};
use hidparser::ReportField as ParsedField;
use crate::bytes::{le_u16, le_u32, read_u16, read_u32};
use crate::hid::HidError;
use vstd::arithmetic::power2::pow2;
use vstd::prelude::*;

verus! {

/// A variable field of a report: one value of one usage.
#[derive(Debug, Clone, Copy, PartialEq, Eq, Structural)]
pub struct VariableField {
    /// First bit of the field in the report.
    pub bits_start: u32,
    /// Bit after the last bit of the field.
    pub bits_end: u32,
    /// The usage of the field.
    pub usage: u32,
    /// Logical minimum of the field's value; a negative minimum makes the value signed.
    pub logical_minimum: i32,
    /// Logical maximum of the field's value.
    pub logical_maximum: i32,
    /// The value is relative to the previous one.
    pub relative: bool,
}

/// An array field of a report: an index into a list of usage ranges.
#[derive(Debug, Clone, PartialEq, Eq)]
pub struct ArrayField {
    /// First bit of the field in the report.
    pub bits_start: u32,
    /// Bit after the last bit of the field.
    pub bits_end: u32,
    /// The usage ranges, each given by its first and last usage.
    pub usage_list: Vec<(u32, u32)>,
    /// Logical minimum of the field's value; a negative minimum makes the value signed.
    pub logical_minimum: i32,
    /// Logical maximum of the field's value.
    pub logical_maximum: i32,
}

/// A field of a report.
#[derive(Debug, Clone, PartialEq, Eq)]
pub enum ReportField {
    Variable(VariableField),
    Array(ArrayField),
    /// Bits without usage.
    Padding,
}

/// A report of a report descriptor.
#[derive(Debug, Clone, PartialEq, Eq)]
pub struct Report {
    /// The report id, which reports carry in their first byte when it is present.
    pub report_id: Option<u32>,
    /// The size of the report in bits.
    pub size_in_bits: usize,
    /// The fields of the report.
    pub fields: Vec<ReportField>,
}

/// The input, output and feature reports that a report descriptor describes.
#[derive(Debug, Clone, PartialEq, Eq)]
pub struct ReportDescriptor {
    pub input_reports: Vec<Report>,
    pub output_reports: Vec<Report>,
    pub features: Vec<Report>,
}

/// Model of an array field.
pub struct ArrayFieldModel {
    pub bits_start: u32,
    pub bits_end: u32,
    pub usage_list: Seq<(u32, u32)>,
    pub logical_minimum: i32,
    pub logical_maximum: i32,
}

impl View for ArrayField {
    type V = ArrayFieldModel;

    open spec fn view(&self) -> ArrayFieldModel {
        ArrayFieldModel {
            bits_start: self.bits_start,
            bits_end: self.bits_end,
            usage_list: self.usage_list@,
            logical_minimum: self.logical_minimum,
            logical_maximum: self.logical_maximum,
        }
    }
}

impl ArrayField {
    /// A copy of this field.
    pub fn duplicate(&self) -> (r: ArrayField)
        ensures
            r@ == self@,
    {
        let mut usage_list: Vec<(u32, u32)> = Vec::new();
        let mut i: usize = 0;
        while i < self.usage_list.len()
            invariant
                0 <= i <= self.usage_list@.len(),
                usage_list@ == self.usage_list@.take(i as int),
            decreases self.usage_list@.len() - i,
        {
            usage_list.push(self.usage_list[i]);
            i = i + 1;
            assert(usage_list@ =~= self.usage_list@.take(i as int));
        }
        assert(usage_list@ =~= self.usage_list@);
        ArrayField {
            bits_start: self.bits_start,
            bits_end: self.bits_end,
            usage_list,
            logical_minimum: self.logical_minimum,
            logical_maximum: self.logical_maximum,
        }
    }
}

/// Model of a report field.
pub enum ReportFieldModel {
    Variable(VariableField),
    Array(ArrayFieldModel),
    Padding,
}

impl View for ReportField {
    type V = ReportFieldModel;

    open spec fn view(&self) -> ReportFieldModel {
        match self {
            ReportField::Variable(v) => ReportFieldModel::Variable(*v),
            ReportField::Array(a) => ReportFieldModel::Array(a@),
            ReportField::Padding => ReportFieldModel::Padding,
        }
    }
}

/// Model of a report.
pub struct ReportModel {
    pub report_id: Option<u32>,
    pub size_in_bits: usize,
    pub fields: Seq<ReportFieldModel>,
}

impl View for Report {
    type V = ReportModel;

    open spec fn view(&self) -> ReportModel {
        ReportModel {
            report_id: self.report_id,
            size_in_bits: self.size_in_bits,
            fields: self.fields@.map_values(|f: ReportField| f@),
        }
    }
}

/// Model of a report descriptor.
pub struct ReportDescriptorModel {
    pub input_reports: Seq<ReportModel>,
    pub output_reports: Seq<ReportModel>,
    pub features: Seq<ReportModel>,
}

impl View for ReportDescriptor {
    type V = ReportDescriptorModel;

    open spec fn view(&self) -> ReportDescriptorModel {
        ReportDescriptorModel {
            input_reports: self.input_reports@.map_values(|r: Report| r@),
            output_reports: self.output_reports@.map_values(|r: Report| r@),
            features: self.features@.map_values(|r: Report| r@),
        }
    }
}

/// The number of data bytes of a short descriptor item with header `h`: 0, 1, 2, or 4 where the two
/// low bits are 3.
pub open spec fn item_size(h: u8) -> int {
    if h % 4 == 3 {
        4
    } else {
        (h % 4) as int
    }
}

/// The value of the data of a short descriptor item, `size` bytes at `pos`: little-endian, and zero
/// where there is no data.
pub open spec fn item_data_value(bytes: Seq<u8>, pos: int, size: int) -> nat {
    if size == 1 {
        bytes[pos] as nat
    } else if size == 2 {
        le_u16(bytes, pos) as nat
    } else if size == 4 {
        le_u32(bytes, pos) as nat
    } else {
        0
    }
}

/// The data of a short descriptor item read as a signed number: little-endian, sign-extended from
/// its last byte, and zero where there is no data.
pub open spec fn item_signed_value(bytes: Seq<u8>, pos: int, size: int) -> int {
    if size == 1 {
        if bytes[pos] >= 0x80 {
            bytes[pos] - 0x100
        } else {
            bytes[pos] as int
        }
    } else if size == 2 {
        if le_u16(bytes, pos) >= 0x8000 {
            le_u16(bytes, pos) - 0x1_0000
        } else {
            le_u16(bytes, pos) as int
        }
    } else if size == 4 {
        if le_u32(bytes, pos) >= 0x8000_0000 {
            le_u32(bytes, pos) - 0x1_0000_0000
        } else {
            le_u32(bytes, pos) as int
        }
    } else {
        0
    }
}

/// What the items read so far of a report descriptor have set that decides how many bits a data
/// item adds to its report: the report size, count and id and the logical range of the global
/// items, and of the local items whether there are usages, whether one of their ranges is not
/// empty, and a usage minimum or maximum that waits for the other end of its range.
#[derive(Debug, Clone, Copy)]
pub struct ItemState {
    pub report_size: Option<u32>,
    pub report_count: Option<u32>,
    pub report_id: Option<u32>,
    pub logical_minimum: Option<i32>,
    pub logical_maximum: Option<i32>,
    pub has_usages: bool,
    pub has_usage_range: bool,
    pub usage_minimum: Option<u32>,
    pub usage_maximum: Option<u32>,
}

/// The state before the first item: nothing set.
pub open spec fn initial_item_state() -> ItemState {
    ItemState {
        report_size: None,
        report_count: None,
        report_id: None,
        logical_minimum: None,
        logical_maximum: None,
        has_usages: false,
        has_usage_range: false,
        usage_minimum: None,
        usage_maximum: None,
    }
}

/// The state after an item of the given type (0 main, 1 global, 2 local) and tag, with the data
/// read unsigned (`v`) and signed (`sv`). A global item sets the logical minimum (tag 1) or
/// maximum (2), the report size (7), id (8) or count (9); push and pop keep the state the parse
/// reads. A local usage (tag 0) adds a one-usage range; a usage minimum (1) or maximum (2) closes
/// the range whose other end waits, or waits itself. A main item clears the local items.
pub open spec fn next_item_state(st: ItemState, item_type: u8, tag: u8, v: u32, sv: i32) -> ItemState {
    if item_type == 0 {
        ItemState { has_usages: false, has_usage_range: false, usage_minimum: None, usage_maximum: None, ..st }
    } else if item_type == 1 {
        if tag == 1 {
            ItemState { logical_minimum: Some(sv), ..st }
        } else if tag == 2 {
            ItemState { logical_maximum: Some(sv), ..st }
        } else if tag == 7 {
            ItemState { report_size: Some(v), ..st }
        } else if tag == 8 {
            ItemState { report_id: Some(v), ..st }
        } else if tag == 9 {
            ItemState { report_count: Some(v), ..st }
        } else {
            st
        }
    } else if item_type == 2 {
        if tag == 0 {
            ItemState { has_usages: true, has_usage_range: true, ..st }
        } else if tag == 1 {
            match st.usage_maximum {
                Some(max) => ItemState {
                    has_usages: true,
                    has_usage_range: st.has_usage_range || v <= max,
                    usage_maximum: None,
                    ..st
                },
                None => ItemState { usage_minimum: Some(v), ..st },
            }
        } else if tag == 2 {
            match st.usage_minimum {
                Some(min) => ItemState {
                    has_usages: true,
                    has_usage_range: st.has_usage_range || min <= v,
                    usage_minimum: None,
                    ..st
                },
                None => ItemState { usage_maximum: Some(v), ..st },
            }
        } else {
            st
        }
    } else {
        st
    }
}

/// A logical range the parse accepts: a negative minimum below the maximum, or a minimum below the
/// maximum read unsigned.
pub open spec fn logical_range_valid(min: i32, max: i32) -> bool {
    if min < 0 {
        min < max
    } else if max < 0 {
        true
    } else {
        min < max
    }
}

/// A data item of a report descriptor as the bit positions of its report see it: the kind of its
/// report, the report id, and the report count and size of its fields, or nothing where the parse
/// stops laying out that report at it.
pub type DataItem = (ReportKind, Option<u32>, Option<(u32, u32)>);

/// The report count and size of a data item read in state `st` with attribute data `v`; nothing
/// where the parse stops at it: no count or size, or, with usages, no logical minimum or maximum,
/// a logical range it refuses, or a variable item (attribute bit 1) whose usage ranges are all
/// empty.
pub open spec fn data_item_layout(st: ItemState, v: u32) -> Option<(u32, u32)> {
    match (st.report_count, st.report_size) {
        (Some(count), Some(size)) => {
            if !st.has_usages {
                Some((count, size))
            } else {
                match (st.logical_minimum, st.logical_maximum) {
                    (Some(min), Some(max)) => {
                        if !logical_range_valid(min, max) || ((v / 2) % 2 == 1 && !st.has_usage_range) {
                            None
                        } else {
                            Some((count, size))
                        }
                    },
                    _ => None,
                }
            }
        },
        _ => None,
    }
}

/// The report kind of a main item tag: input (8), output (9) or feature (11).
pub open spec fn data_item_kind(tag: u8) -> Option<ReportKind> {
    if tag == 8 {
        Some(ReportKind::Input)
    } else if tag == 9 {
        Some(ReportKind::Output)
    } else if tag == 11 {
        Some(ReportKind::Feature)
    } else {
        None
    }
}

/// The data items of the descriptor bytes from `pos` on, read in state `st` and added to `acc`, in
/// the order of the bytes, the items split as `hidparser`'s tokenizer splits them: a header byte
/// whose two low bits give the data size, the next two the type and the high four the tag. The
/// scan ends at the end of the bytes, at an item whose data reaches past them, and at an item of
/// the reserved type (long items among them): the parse refuses the bytes there.
pub open spec fn descriptor_data_items(bytes: Seq<u8>, pos: int, st: ItemState, acc: Seq<DataItem>) -> Seq<DataItem>
    decreases bytes.len() - pos,
{
    if pos < 0 || pos >= bytes.len() {
        acc
    } else {
        let h = bytes[pos];
        let size = item_size(h);
        let item_type = ((h / 4) % 4) as u8;
        let tag = (h / 16) as u8;
        if item_type == 3 || pos + 1 + size > bytes.len() {
            acc
        } else {
            let v = item_data_value(bytes, pos + 1, size) as u32;
            let sv = item_signed_value(bytes, pos + 1, size) as i32;
            let acc2 = if item_type == 0 && data_item_kind(tag) is Some {
                acc.push((data_item_kind(tag)->0, st.report_id, data_item_layout(st, v)))
            } else {
                acc
            };
            descriptor_data_items(bytes, pos + 1 + size, next_item_state(st, item_type, tag, v, sv), acc2)
        }
    }
}

/// The bits the data items lay out in the report of the given kind and id, counted as the parse
/// counts them, item by item in order up to the first at which it stops; and whether it stopped.
pub open spec fn report_bits(items: Seq<DataItem>, kind: ReportKind, id: Option<u32>) -> (nat, bool)
    decreases items.len(),
{
    if items.len() == 0 {
        (0, false)
    } else {
        let (total, stopped) = report_bits(items.drop_last(), kind, id);
        let it = items.last();
        if stopped || it.0 != kind || it.1 != id {
            (total, stopped)
        } else {
            match it.2 {
                Some((count, size)) => (total + (count as nat) * (size as nat), false),
                None => (total, true),
            }
        }
    }
}

/// The bit positions `hidparser` computes for the reports of these descriptor bytes stay within
/// 32 bits: the bits of each report, summed item by item as its parse lays them out, fit in a
/// `u32`. Where the bytes parse, its running bit positions overflow exactly where this fails.
pub open spec fn report_sizes_bounded(bytes: Seq<u8>) -> bool {
    let items = descriptor_data_items(bytes, 0, initial_item_state(), Seq::empty());
    forall|i: int| 0 <= i < items.len() ==> #[trigger] report_bits(items, items[i].0, items[i].1).0 <= u32::MAX
}

/// The state after one item: see `next_item_state`.
fn step_item_state(st: ItemState, item_type: u8, tag: u8, v: u32, sv: i32) -> (r: ItemState)
    ensures
        r == next_item_state(st, item_type, tag, v, sv),
{
    let mut r = st;
    if item_type == 0 {
        r.has_usages = false;
        r.has_usage_range = false;
        r.usage_minimum = None;
        r.usage_maximum = None;
    } else if item_type == 1 {
        if tag == 1 {
            r.logical_minimum = Some(sv);
        } else if tag == 2 {
            r.logical_maximum = Some(sv);
        } else if tag == 7 {
            r.report_size = Some(v);
        } else if tag == 8 {
            r.report_id = Some(v);
        } else if tag == 9 {
            r.report_count = Some(v);
        }
    } else if item_type == 2 {
        if tag == 0 {
            r.has_usages = true;
            r.has_usage_range = true;
        } else if tag == 1 {
            match st.usage_maximum {
                Some(max) => {
                    r.has_usages = true;
                    r.has_usage_range = st.has_usage_range || v <= max;
                    r.usage_maximum = None;
                },
                None => {
                    r.usage_minimum = Some(v);
                },
            }
        } else if tag == 2 {
            match st.usage_minimum {
                Some(min) => {
                    r.has_usages = true;
                    r.has_usage_range = st.has_usage_range || min <= v;
                    r.usage_minimum = None;
                },
                None => {
                    r.usage_maximum = Some(v);
                },
            }
        }
    }
    r
}

/// The layout of a data item: see `data_item_layout`.
fn item_layout(st: ItemState, v: u32) -> (r: Option<(u32, u32)>)
    ensures
        r == data_item_layout(st, v),
{
    match (st.report_count, st.report_size) {
        (Some(count), Some(size)) => {
            if !st.has_usages {
                return Some((count, size));
            }
            match (st.logical_minimum, st.logical_maximum) {
                (Some(min), Some(max)) => {
                    let valid = if min < 0 {
                        min < max
                    } else if max < 0 {
                        true
                    } else {
                        min < max
                    };
                    if !valid || ((v / 2) % 2 == 1 && !st.has_usage_range) {
                        None
                    } else {
                        Some((count, size))
                    }
                },
                _ => None,
            }
        },
        _ => None,
    }
}

/// The data of the item at `pos` of `size` bytes, read unsigned and signed.
fn item_values(bytes: &[u8], pos: usize, size: usize) -> (r: (u32, i32))
    requires
        size == 0 || size == 1 || size == 2 || size == 4,
        pos + size <= bytes@.len(),
    ensures
        r.0 == item_data_value(bytes@, pos as int, size as int),
        r.1 == item_signed_value(bytes@, pos as int, size as int),
{
    if size == 1 {
        let b = bytes[pos];
        let s: i32 = if b >= 0x80 {
            b as i32 - 0x100
        } else {
            b as i32
        };
        (b as u32, s)
    } else if size == 2 {
        let x: u16 = match read_u16(bytes, pos) {
            Some(x) => x,
            None => 0,
        };
        let s: i32 = if x >= 0x8000 {
            x as i32 - 0x1_0000
        } else {
            x as i32
        };
        (x as u32, s)
    } else if size == 4 {
        let x: u32 = match read_u32(bytes, pos) {
            Some(x) => x,
            None => 0,
        };
        let s: i32 = if x >= 0x8000_0000 {
            (x as i64 - 0x1_0000_0000i64) as i32
        } else {
            x as i32
        };
        (x, s)
    } else {
        (0, 0)
    }
}

/// The data items of the descriptor bytes: see `descriptor_data_items`.
fn data_items(bytes: &[u8]) -> (r: Vec<DataItem>)
    ensures
        r@ == descriptor_data_items(bytes@, 0, initial_item_state(), Seq::empty()),
{
    let mut items: Vec<DataItem> = Vec::new();
    let mut st = ItemState {
        report_size: None,
        report_count: None,
        report_id: None,
        logical_minimum: None,
        logical_maximum: None,
        has_usages: false,
        has_usage_range: false,
        usage_minimum: None,
        usage_maximum: None,
    };
    let mut pos: usize = 0;
    while pos < bytes.len()
        invariant
            pos <= bytes@.len(),
            descriptor_data_items(bytes@, 0, initial_item_state(), Seq::empty())
                == descriptor_data_items(bytes@, pos as int, st, items@),
        decreases bytes@.len() - pos,
    {
        let h = bytes[pos];
        let size: usize = if h % 4 == 3 {
            4
        } else {
            (h % 4) as usize
        };
        let item_type: u8 = (h / 4) % 4;
        let tag: u8 = h / 16;
        if item_type == 3 || bytes.len() - pos - 1 < size {
            return items;
        }
        let (v, sv) = item_values(bytes, pos + 1, size);
        if item_type == 0 {
            let kind = if tag == 8 {
                Some(ReportKind::Input)
            } else if tag == 9 {
                Some(ReportKind::Output)
            } else if tag == 11 {
                Some(ReportKind::Feature)
            } else {
                None
            };
            assert(kind == data_item_kind(tag));
            if let Some(k) = kind {
                items.push((k, st.report_id, item_layout(st, v)));
            }
        }
        st = step_item_state(st, item_type, tag, v, sv);
        pos = pos + 1 + size;
    }
    items
}

/// The bits the data items lay out in the report of the given kind and id, or 2^32 where that is
/// more: see `report_bits`.
fn report_bits_capped(items: &Vec<DataItem>, kind: ReportKind, id: Option<u32>) -> (r: u64)
    ensures
        r == (if report_bits(items@, kind, id).0 > u32::MAX {
            0x1_0000_0000
        } else {
            report_bits(items@, kind, id).0
        }),
{
    let cap: u64 = 0x1_0000_0000;
    let mut total: u64 = 0;
    let mut stopped = false;
    let mut j: usize = 0;
    while j < items.len()
        invariant
            j <= items@.len(),
            cap == 0x1_0000_0000,
            stopped == report_bits(items@.take(j as int), kind, id).1,
            total == (if report_bits(items@.take(j as int), kind, id).0 > u32::MAX {
                0x1_0000_0000
            } else {
                report_bits(items@.take(j as int), kind, id).0
            }),
        decreases items@.len() - j,
    {
        let it = items[j];
        assert(items@.take(j + 1).drop_last() =~= items@.take(j as int));
        assert(items@.take(j + 1).last() == items@[j as int]);
        if !stopped && it.0 == kind && it.1 == id {
            match it.2 {
                Some((count, size)) => {
                    assert(count * size <= 0xFFFF_FFFF * 0xFFFF_FFFF) by (nonlinear_arith)
                        requires
                            count <= 0xFFFF_FFFF,
                            size <= 0xFFFF_FFFF,
                    ;
                    let bits: u64 = count as u64 * size as u64;
                    if bits >= cap - total {
                        total = cap;
                    } else {
                        total = total + bits;
                    }
                },
                None => {
                    stopped = true;
                },
            }
        }
        j = j + 1;
    }
    assert(items@.take(items@.len() as int) =~= items@);
    total
}

/// Whether the report sizes of these descriptor bytes stay within 32 bits: see
/// `report_sizes_bounded`.
pub fn report_sizes_fit(bytes: &[u8]) -> (r: bool)
    ensures
        r == report_sizes_bounded(bytes@),
{
    let items = data_items(bytes);
    let mut i: usize = 0;
    while i < items.len()
        invariant
            i <= items@.len(),
            items@ == descriptor_data_items(bytes@, 0, initial_item_state(), Seq::empty()),
            forall|k: int| 0 <= k < i ==> #[trigger] report_bits(items@, items@[k].0, items@[k].1).0 <= u32::MAX,
        decreases items@.len() - i,
    {
        let it = items[i];
        if report_bits_capped(&items, it.0, it.1) > 0xFFFF_FFFF {
            return false;
        }
        i = i + 1;
    }
    true
}

/// The three kinds of reports a descriptor describes.
#[derive(Debug, Clone, Copy, PartialEq, Eq, Structural)]
pub enum ReportKind {
    Input,
    Output,
    Feature,
}

/// The reports of one kind of a descriptor.
pub open spec fn reports_of_kind(d: ReportDescriptorModel, kind: ReportKind) -> Seq<ReportModel> {
    match kind {
        ReportKind::Input => d.input_reports,
        ReportKind::Output => d.output_reports,
        ReportKind::Feature => d.features,
    }
}

/// What `hidparser::parse_report_descriptor` reads from the bytes of a report descriptor: its
/// reports, and of their fields the bits, usages, logical ranges and whether values are relative;
/// nothing where it rejects the bytes.
pub uninterp spec fn parsed_descriptor(bytes: Seq<u8>) -> Option<ReportDescriptorModel>;

/// The model of an optional array field.
pub open spec fn array_view(a: Option<ArrayField>) -> Option<ArrayFieldModel> {
    match a {
        Some(x) => Some(x@),
        None => None,
    }
}

/// The variable field a report field is, if it is one.
pub open spec fn variable_of(f: ReportFieldModel) -> Option<VariableField> {
    match f {
        ReportFieldModel::Variable(v) => Some(v),
        _ => None,
    }
}

/// The array field a report field is, if it is one.
pub open spec fn array_of(f: ReportFieldModel) -> Option<ArrayFieldModel> {
    match f {
        ReportFieldModel::Array(a) => Some(a),
        _ => None,
    }
}

/// A report's id and size, and its variable fields in the positions of its fields.
pub open spec fn report_variables(m: ReportModel) -> (Option<u32>, usize, Seq<Option<VariableField>>) {
    (m.report_id, m.size_in_bits, m.fields.map_values(|f: ReportFieldModel| variable_of(f)))
}

/// A report's array fields in the positions of its fields.
pub open spec fn report_arrays(m: ReportModel) -> Seq<Option<ArrayFieldModel>> {
    m.fields.map_values(|f: ReportFieldModel| array_of(f))
}

/// The reports of one kind with `hidparser::parse_report_descriptor`: of each, its id, its size
/// and its variable fields, each in the position of its field. Claimed of it: there are none
/// exactly where it rejects the bytes, and they are those of the reports of `parsed_descriptor` of
/// the bytes. The bytes are required to keep the report sizes within 32 bits, where `hidparser`
/// computes the bit positions of fields without overflow checks.
#[verifier::external_body]
fn parsed_report_variables(bytes: &[u8], kind: ReportKind) -> (r: Option<Vec<(Option<u32>, usize, Vec<Option<VariableField>>)>>)
    requires
        report_sizes_bounded(bytes@),
    ensures
        r is None <==> parsed_descriptor(bytes@) is None,
        r matches Some(v) ==> v@.map_values(|t: (Option<u32>, usize, Vec<Option<VariableField>>)| (t.0, t.1, t.2@))
            == reports_of_kind(parsed_descriptor(bytes@)->0, kind).map_values(|m: ReportModel| report_variables(m)),
{
    let d = hidparser::parse_report_descriptor(bytes).ok()?;
    let reports = match kind { ReportKind::Input => d.input_reports, ReportKind::Output => d.output_reports, ReportKind::Feature => d.features };
    Some(reports.iter().map(|r| (r.report_id.map(u32::from), r.size_in_bits, r.fields.iter().map(|f| match f {
        ParsedField::Variable(v) => Some(VariableField { bits_start: v.bits.start, bits_end: v.bits.end, usage: v.usage.into(), logical_minimum: v.logical_minimum.into(), logical_maximum: v.logical_maximum.into(), relative: v.attributes.relative }),
        _ => None,
    }).collect())).collect())
}

/// The array fields of the reports of one kind with `hidparser::parse_report_descriptor`, each in
/// the position of its field. Claimed of it: there are none exactly where it rejects the bytes,
/// and they are those of the reports of `parsed_descriptor` of the bytes. The bytes are required to
/// keep the report sizes within 32 bits, as for `parsed_report_variables`.
#[verifier::external_body]
fn parsed_report_arrays(bytes: &[u8], kind: ReportKind) -> (r: Option<Vec<Vec<Option<ArrayField>>>>)
    requires
        report_sizes_bounded(bytes@),
    ensures
        r is None <==> parsed_descriptor(bytes@) is None,
        r matches Some(v) ==> v@.map_values(|a: Vec<Option<ArrayField>>| a@.map_values(|x: Option<ArrayField>| array_view(x)))
            == reports_of_kind(parsed_descriptor(bytes@)->0, kind).map_values(|m: ReportModel| report_arrays(m)),
{
    let d = hidparser::parse_report_descriptor(bytes).ok()?;
    let reports = match kind { ReportKind::Input => d.input_reports, ReportKind::Output => d.output_reports, ReportKind::Feature => d.features };
    Some(reports.iter().map(|r| r.fields.iter().map(|f| match f {
        ParsedField::Array(a) => Some(ArrayField { bits_start: a.bits.start, bits_end: a.bits.end, usage_list: a.usage_list.iter().map(|u| (u.start(), u.end())).collect(), logical_minimum: a.logical_minimum.into(), logical_maximum: a.logical_maximum.into() }),
        _ => None,
    }).collect()).collect())
}

/// The fields of a report, from its variable fields and its array fields given in the positions of
/// its fields; a position with neither is padding.
fn merge_fields(vars: Vec<Option<VariableField>>, arrays: Vec<Option<ArrayField>>, Ghost(want): Ghost<Seq<ReportFieldModel>>) -> (r: Vec<ReportField>)
    requires
        vars@ == want.map_values(|f: ReportFieldModel| variable_of(f)),
        arrays@.map_values(|a: Option<ArrayField>| array_view(a)) == want.map_values(|f: ReportFieldModel| array_of(f)),
    ensures
        r@.map_values(|f: ReportField| f@) == want,
{
    let mut arrays = arrays;
    proof {
        let views = arrays@.map_values(|a: Option<ArrayField>| array_view(a));
        assert(views.len() == arrays@.len());
        assert(want.map_values(|f: ReportFieldModel| array_of(f)).len() == want.len());
        assert forall|t: int| 0 <= t < arrays@.len() implies array_view(#[trigger] arrays@[t]) == array_of(want[t]) by {
            assert(views[t] == array_view(arrays@[t]));
            assert(want.map_values(|f: ReportFieldModel| array_of(f))[t] == array_of(want[t]));
        }
    }
    let mut fields: Vec<ReportField> = Vec::new();
    let mut j: usize = 0;
    while j < vars.len()
        invariant
            0 <= j <= vars@.len(),
            vars@ == want.map_values(|f: ReportFieldModel| variable_of(f)),
            arrays@.len() == vars@.len(),
            forall|t: int| j <= t < arrays@.len() ==> array_view(#[trigger] arrays@[t]) == array_of(want[t]),
            fields@.len() == j,
            forall|t: int| 0 <= t < j ==> (#[trigger] fields@[t])@ == want[t],
        decreases vars@.len() - j,
    {
        proof {
            assert(vars@[j as int] == variable_of(want[j as int]));
        }
        let mut taken: Option<ArrayField> = None;
        std::mem::swap(&mut taken, &mut arrays[j]);
        let f = match vars[j] {
            Some(v) => ReportField::Variable(v),
            None => match taken {
                Some(a) => ReportField::Array(a),
                None => ReportField::Padding,
            },
        };
        fields.push(f);
        j = j + 1;
    }
    assert(fields@.map_values(|f: ReportField| f@) =~= want);
    fields
}

/// The reports of one kind that `hidparser` reads from the bytes of a report descriptor.
fn parsed_reports(bytes: &[u8], kind: ReportKind) -> (r: Option<Vec<Report>>)
    requires
        report_sizes_bounded(bytes@),
    ensures
        r is None <==> parsed_descriptor(bytes@) is None,
        r matches Some(v) ==> v@.map_values(|x: Report| x@) == reports_of_kind(parsed_descriptor(bytes@)->0, kind),
{
    let mut variables = match parsed_report_variables(bytes, kind) {
        Some(v) => v,
        None => return None,
    };
    let mut arrays = match parsed_report_arrays(bytes, kind) {
        Some(a) => a,
        None => return None,
    };
    let ghost want = reports_of_kind(parsed_descriptor(bytes@)->0, kind);
    let ghost vs = variables@.map_values(|t: (Option<u32>, usize, Vec<Option<VariableField>>)| (t.0, t.1, t.2@));
    let ghost avs = arrays@.map_values(|a: Vec<Option<ArrayField>>| a@.map_values(|x: Option<ArrayField>| array_view(x)));
    proof {
        assert(vs.len() == variables@.len());
        assert(avs.len() == arrays@.len());
        assert(want.map_values(|m: ReportModel| report_variables(m)).len() == want.len());
        assert(want.map_values(|m: ReportModel| report_arrays(m)).len() == want.len());
        assert forall|t: int| 0 <= t < variables@.len() implies (#[trigger] variables@[t]).0 == want[t].report_id
            && variables@[t].1 == want[t].size_in_bits
            && variables@[t].2@ == want[t].fields.map_values(|f: ReportFieldModel| variable_of(f)) by {
            assert(vs[t] == want.map_values(|m: ReportModel| report_variables(m))[t]);
        }
        assert forall|t: int| 0 <= t < arrays@.len() implies (#[trigger] arrays@[t])@.map_values(
            |x: Option<ArrayField>| array_view(x),
        ) == want[t].fields.map_values(|f: ReportFieldModel| array_of(f)) by {
            assert(avs[t] == want.map_values(|m: ReportModel| report_arrays(m))[t]);
        }
    }
    let n = variables.len();
    let mut reports: Vec<Report> = Vec::new();
    let mut i: usize = 0;
    while i < n
        invariant
            0 <= i <= n,
            n == want.len(),
            variables@.len() == n - i,
            arrays@.len() == n - i,
            forall|t: int| 0 <= t < n - i ==> (#[trigger] variables@[t]).0 == want[t + i].report_id
                && variables@[t].1 == want[t + i].size_in_bits
                && variables@[t].2@ == want[t + i].fields.map_values(|f: ReportFieldModel| variable_of(f)),
            forall|t: int| 0 <= t < n - i ==> (#[trigger] arrays@[t])@.map_values(|x: Option<ArrayField>| array_view(x))
                == want[t + i].fields.map_values(|f: ReportFieldModel| array_of(f)),
            reports@.len() == i,
            forall|j: int| 0 <= j < i ==> (#[trigger] reports@[j])@ == want[j],
        decreases n - i,
    {
        let (report_id, size_in_bits, vars) = variables.remove(0);
        let arr = arrays.remove(0);
        let fields = merge_fields(vars, arr, Ghost(want[i as int].fields));
        reports.push(Report { report_id, size_in_bits, fields });
        i = i + 1;
    }
    assert(reports@.map_values(|x: Report| x@) =~= want);
    Some(reports)
}

/// Reads a report descriptor from its bytes with `hidparser`: its input, output and feature reports.
/// Fails with a device error where the report sizes the bytes describe overflow the 32-bit bit
/// positions `hidparser` computes (see `report_sizes_bounded`), and where `hidparser` rejects the
/// bytes.
pub fn parse_report_descriptor(bytes: &[u8]) -> (r: Result<ReportDescriptor, HidError>)
    ensures
        r is Ok <==> report_sizes_bounded(bytes@) && parsed_descriptor(bytes@) is Some,
        r matches Ok(d) ==> parsed_descriptor(bytes@) == Some(d@),
        r matches Err(e) ==> e == HidError::DeviceError,
{
    if !report_sizes_fit(bytes) {
        return Err(HidError::DeviceError);
    }
    let input_reports = match parsed_reports(bytes, ReportKind::Input) {
        Some(v) => v,
        None => return Err(HidError::DeviceError),
    };
    let output_reports = match parsed_reports(bytes, ReportKind::Output) {
        Some(v) => v,
        None => return Err(HidError::DeviceError),
    };
    let features = match parsed_reports(bytes, ReportKind::Feature) {
        Some(v) => v,
        None => return Err(HidError::DeviceError),
    };
    let d = ReportDescriptor { input_reports, output_reports, features };
    assert(d@ =~= parsed_descriptor(bytes@)->0);
    Ok(d)
}

/// The number of bytes of a report of the given number of bits.
pub open spec fn bytes_of_bits(bits: usize) -> usize {
    (bits / 8 + if bits % 8 != 0 {
        1usize
    } else {
        0usize
    }) as usize
}

/// The number of bytes of a report of the given number of bits.
pub fn report_bytes(bits: usize) -> (r: usize)
    ensures
        r == bytes_of_bits(bits),
{
    if bits % 8 != 0 {
        bits / 8 + 1
    } else {
        bits / 8
    }
}

/// The number of bits of a field with the given bit range.
pub open spec fn bit_len(bits_start: u32, bits_end: u32) -> int {
    if bits_start < bits_end {
        bits_end - bits_start
    } else {
        0
    }
}

/// A field whose value can be read: at most 64 bits, and at least one where the value is signed.
pub open spec fn readable_bits(bits_start: u32, bits_end: u32, logical_minimum: i32) -> bool {
    bit_len(bits_start, bits_end) <= 64 && (logical_minimum >= 0 || bits_start < bits_end)
}

/// A field whose value can be written: at most 32 bits.
pub open spec fn writable_bits(bits_start: u32, bits_end: u32) -> bool {
    bit_len(bits_start, bits_end) <= 32
}

/// Whether a field with the given bits and logical minimum can be read.
pub fn bits_readable(bits_start: u32, bits_end: u32, logical_minimum: i32) -> (r: bool)
    ensures
        r == readable_bits(bits_start, bits_end, logical_minimum),
{
    let len: u32 = if bits_start < bits_end {
        bits_end - bits_start
    } else {
        0
    };
    len <= 64 && (logical_minimum >= 0 || bits_start < bits_end)
}

/// Whether a field with the given bits can be written.
pub fn bits_writable(bits_start: u32, bits_end: u32) -> (r: bool)
    ensures
        r == writable_bits(bits_start, bits_end),
{
    let len: u32 = if bits_start < bits_end {
        bits_end - bits_start
    } else {
        0
    };
    len <= 32
}

/// The number of bytes a report needs to hold the bits up to `bits_end`.
pub open spec fn bytes_needed(bits_end: u32) -> int {
    (bits_end + 7) / 8
}

/// The largest value a field's logical maximum admits: the maximum itself for a signed field, and
/// the maximum read as unsigned otherwise.
pub open spec fn adjusted_maximum(logical_minimum: i32, logical_maximum: i32) -> int {
    if logical_minimum < 0 {
        logical_maximum as int
    } else if logical_maximum >= 0 {
        logical_maximum as int
    } else {
        logical_maximum + 0x1_0000_0000
    }
}

/// Bit `k` of a non-negative integer.
pub open spec fn bit_of(x: int, k: nat) -> int {
    (x / pow2(k) as int) % 2
}

/// Bit `p` of a report, counting from the lowest bit of its first byte.
pub open spec fn report_bit(report: Seq<u8>, p: int) -> int {
    bit_of(report[p / 8] as int, (p % 8) as nat)
}

/// The `len` bits of a report from bit `start` on, read as an unsigned number, lowest bit first.
pub open spec fn bits_value(report: Seq<u8>, start: int, len: nat) -> int
    decreases len,
{
    if len == 0 {
        0
    } else {
        bits_value(report, start, (len - 1) as nat) + report_bit(report, start + len - 1) * pow2(
            (len - 1) as nat,
        ) as int
    }
}

/// The number a field's bits hold: unsigned, or in two's complement where the logical minimum is
/// negative.
pub open spec fn field_raw_value(bits_start: u32, bits_end: u32, logical_minimum: i32, report: Seq<u8>) -> int {
    let len = bit_len(bits_start, bits_end) as nat;
    let raw = bits_value(report, bits_start as int, len);
    if logical_minimum < 0 && len > 0 && report_bit(report, bits_start + len - 1) == 1 {
        raw - pow2(len) as int
    } else {
        raw
    }
}

/// The value of a field in a report: none where the report is too short for the field's bits or
/// the number they hold lies outside the field's logical range.
#[verifier::opaque]
pub open spec fn field_value_of(
    bits_start: u32,
    bits_end: u32,
    logical_minimum: i32,
    logical_maximum: i32,
    report: Seq<u8>,
) -> Option<i64> {
    let v = field_raw_value(bits_start, bits_end, logical_minimum, report);
    if bytes_needed(bits_end) > report.len() {
        None
    } else if logical_minimum <= v && v <= adjusted_maximum(logical_minimum, logical_maximum) {
        Some(v as i64)
    } else {
        None
    }
}

/// Bit `p` of a report after a value is written into the bits from `bits_start` to `bits_end`:
/// there, the bits of the value's low 32 bits in two's complement, lowest first; elsewhere the
/// report's own.
pub open spec fn written_bit(bits_start: u32, bits_end: u32, data: i64, report: Seq<u8>, p: int) -> int {
    if bits_start <= p < bits_end {
        bit_of((data as int) % 0x1_0000_0000, (p - bits_start) as nat)
    } else {
        report_bit(report, p)
    }
}

/// The lowest `b` bits of byte `i` of a report after a value is written into a field.
pub open spec fn written_byte(bits_start: u32, bits_end: u32, data: i64, report: Seq<u8>, i: int, b: nat) -> int
    decreases b,
{
    if b == 0 {
        0
    } else {
        written_byte(bits_start, bits_end, data, report, i, (b - 1) as nat) + written_bit(
            bits_start,
            bits_end,
            data,
            report,
            8 * i + b - 1,
        ) * pow2((b - 1) as nat) as int
    }
}

/// The report after a value is written into the field with the given bits.
#[verifier::opaque]
pub open spec fn field_with_value(bits_start: u32, bits_end: u32, data: i64, report: Seq<u8>) -> Seq<u8> {
    Seq::new(report.len(), |i: int| written_byte(bits_start, bits_end, data, report, i, 8) as u8)
}

/// Reads the value of a field from a report with `hidparser::VariableField::field_value` (the
/// value reading that `hidparser::ArrayField::field_value` shares). Claimed of it: the value is
/// `field_value_of` the field's bits, logical range and the report: the field's bits read lowest
/// first, in two's complement where the logical minimum is negative; absent where the report is
/// too short for the field or the number lies outside the field's logical range.
#[verifier::external_body]
pub(crate) fn field_value(
    bits_start: u32,
    bits_end: u32,
    logical_minimum: i32,
    logical_maximum: i32,
    report: &[u8],
) -> (r: Option<i64>)
    requires
        readable_bits(bits_start, bits_end, logical_minimum),
    ensures
        r == field_value_of(bits_start, bits_end, logical_minimum, logical_maximum, report@),
        bytes_needed(bits_end) > report@.len() ==> r is None,
        r matches Some(v) ==> logical_minimum <= v && v <= adjusted_maximum(logical_minimum, logical_maximum),
{
    let f = hidparser::VariableField {
        bits: bits_start..bits_end,
        logical_minimum: LogicalMinimum::from(logical_minimum),
        logical_maximum: LogicalMaximum::from(logical_maximum),
        ..Default::default()
    };
    f.field_value(report)
}

/// Whether `hidparser::VariableField::set_field_value` accepts a value for a field: the value lies
/// in the field's logical range and the report holds the field's bits.
pub open spec fn can_set_field_value(field: VariableField, data: i64, report_len: int) -> bool {
    field.logical_minimum <= data && data <= field.logical_maximum && bytes_needed(field.bits_end)
        <= report_len
}

/// Writes a value into a variable field of a report with `hidparser::VariableField::set_field_value`.
/// Claimed of it: it succeeds exactly when the value lies in the field's logical range and the
/// report holds the field's bits; then the report becomes `field_with_value` of the field's bits,
/// the value and the report (the field's bits take the bits of the value's low 32 bits, lowest
/// first, and the other bits stay), else it is left as it was.
#[verifier::external_body]
pub(crate) fn set_variable_field_value(field: &VariableField, data: i64, report: &mut [u8]) -> (ok: bool)
    requires
        writable_bits(field.bits_start, field.bits_end),
    ensures
        ok == can_set_field_value(*field, data, old(report)@.len() as int),
        ok ==> final(report)@ == field_with_value(field.bits_start, field.bits_end, data, old(report)@),
        !ok ==> final(report)@ == old(report)@,
{
    let f = hidparser::VariableField {
        bits: field.bits_start..field.bits_end,
        logical_minimum: LogicalMinimum::from(field.logical_minimum),
        logical_maximum: LogicalMaximum::from(field.logical_maximum),
        ..Default::default()
    };
    f.set_field_value(data, report).is_ok()
}

/// The logical range of a field: the maximum less the minimum where that is positive and
/// representable, read as unsigned where the minimum is not negative.
pub open spec fn spec_field_range(logical_minimum: i32, logical_maximum: i32) -> Option<u32> {
    if logical_minimum < 0 {
        let f = logical_maximum - logical_minimum;
        if f > 0 && f <= 0x7fff_ffff {
            Some(f as u32)
        } else {
            None
        }
    } else {
        let max = if logical_maximum >= 0 {
            logical_maximum as int
        } else {
            logical_maximum + 0x1_0000_0000
        };
        let f = max - logical_minimum;
        if f > 0 {
            Some(f as u32)
        } else {
            None
        }
    }
}

/// The logical range of a variable field with `hidparser::VariableField::field_range`.
/// Claimed of it: it is `spec_field_range` of the field's logical minimum and maximum.
#[verifier::external_body]
pub(crate) fn variable_field_range(field: &VariableField) -> (r: Option<u32>)
    ensures
        r == spec_field_range(field.logical_minimum, field.logical_maximum),
{
    let f = hidparser::VariableField {
        logical_minimum: LogicalMinimum::from(field.logical_minimum),
        logical_maximum: LogicalMaximum::from(field.logical_maximum),
        ..Default::default()
    };
    f.field_range()
}

/// The report id that the first byte of a report gives, with `hidparser`'s conversion of bytes to a
/// `ReportId`. Claimed of it: the id of one byte is that byte.
#[verifier::external_body]
pub(crate) fn report_id_from_byte(first: &[u8]) -> (r: u32)
    requires
        first@.len() == 1,
    ensures
        r == first@[0],
{
    u32::from(ReportId::from(first))
}

} // verus!
