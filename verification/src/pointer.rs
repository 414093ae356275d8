//! The pointer handler: which fields of a pointing device's reports it reads, and the absolute
//! pointer state (three axes from 0 to 1024 and up to 32 buttons) that its reports set.
use crate::hid::{HidError, HidReportReciever};
use crate::report::{
    adjusted_maximum, bits_readable, bytes_needed, bytes_of_bits, field_raw_value, field_value_of, readable_bits, report_bytes, spec_field_range,
    variable_field_range, field_value, Report, ReportDescriptor, ReportDescriptorModel,
    ReportField, ReportFieldModel, ReportModel, VariableField,
};
use crate::usage_set::sorted_elements;
use std::collections::{BTreeMap, BTreeSet};
use vstd::prelude::*;

verus! {

pub const GENERIC_DESKTOP_X: u32 = 0x00010030;

pub const GENERIC_DESKTOP_Y: u32 = 0x00010031;

pub const GENERIC_DESKTOP_Z: u32 = 0x00010032;

pub const GENERIC_DESKTOP_WHEEL: u32 = 0x00010038;

/// The usage page of buttons.
pub const BUTTON_PAGE: u32 = 0x0009;

/// Usage of the first button.
pub const BUTTON_MIN: u32 = 0x00090001;

/// Usage of the last button: the absolute pointer state has 32 button bits.
pub const BUTTON_MAX: u32 = 0x00090020;

/// Number of points on each axis.
pub const AXIS_RESOLUTION: u64 = 1024;

/// The middle of each axis.
pub const CENTER: u64 = 512;

/// The mode of an absolute pointer: the range of each axis, and its attributes.
#[derive(Debug, Clone, Copy, PartialEq, Eq, Structural)]
pub struct PointerMode {
    pub absolute_min_x: u64,
    pub absolute_min_y: u64,
    pub absolute_min_z: u64,
    pub absolute_max_x: u64,
    pub absolute_max_y: u64,
    pub absolute_max_z: u64,
    pub attributes: u32,
}

/// The state of an absolute pointer: the position on each axis, and the buttons held.
#[derive(Debug, Clone, Copy, PartialEq, Eq, Structural)]
pub struct PointerState {
    pub current_x: u64,
    pub current_y: u64,
    pub current_z: u64,
    pub active_buttons: u32,
}

/// A usage of a field the pointer handler reads.
pub open spec fn is_pointer_usage(u: u32) -> bool {
    u == GENERIC_DESKTOP_X || u == GENERIC_DESKTOP_Y || u == GENERIC_DESKTOP_Z || u
        == GENERIC_DESKTOP_WHEEL || (BUTTON_MIN <= u && u <= BUTTON_MAX)
}

/// The variable fields of pointer usages among `fields`, in order.
pub open spec fn pointer_fields(fields: Seq<ReportFieldModel>) -> Seq<VariableField>
    decreases fields.len(),
{
    if fields.len() == 0 {
        Seq::empty()
    } else {
        let rest = pointer_fields(fields.drop_first());
        match fields[0] {
            ReportFieldModel::Variable(v) => if is_pointer_usage(v.usage) {
                seq![v] + rest
            } else {
                rest
            },
            _ => rest,
        }
    }
}

/// Model of an input report the handler reads.
pub struct PointerReportModel {
    pub report_id: Option<u32>,
    /// The size of the report in bytes, without the report id.
    pub report_size: usize,
    /// The fields of axes and buttons.
    pub fields: Seq<VariableField>,
}

/// What the handler reads of an input report.
pub open spec fn pointer_report(r: ReportModel) -> PointerReportModel {
    PointerReportModel {
        report_id: r.report_id,
        report_size: bytes_of_bits(r.size_in_bits),
        fields: pointer_fields(r.fields),
    }
}

/// The fields of an input report can be read.
pub open spec fn readable_pointer_report(d: PointerReportModel) -> bool {
    forall|i: int|
        0 <= i < d.fields.len() ==> readable_bits(
            #[trigger] d.fields[i].bits_start,
            d.fields[i].bits_end,
            d.fields[i].logical_minimum,
        )
}

/// The fields a pointer handler reads of a descriptor stay within what `hidparser` reads: at most
/// 64 bits, and at least one where signed.
pub open spec fn pointer_descriptor_ok(d: ReportDescriptorModel) -> bool {
    forall|i: int| 0 <= i < d.input_reports.len() ==> readable_pointer_report(pointer_report(#[trigger] d.input_reports[i]))
}

/// Model of the pointer handler.
pub struct PointerModel {
    /// The input reports read, by report id.
    pub input_reports: Map<Option<u32>, PointerReportModel>,
    /// The usages of the fields read.
    pub supported_usages: Set<u32>,
    /// Reports start with a report id.
    pub report_id_present: bool,
    /// The state changed since it was last read.
    pub state_changed: bool,
    /// The pointer state.
    pub current_state: PointerState,
}

/// The reports can be read, and the position on each axis is within the axis.
pub open spec fn pointer_wf(m: PointerModel) -> bool {
    &&& forall|id: Option<u32>| #[trigger] m.input_reports.contains_key(id) ==> readable_pointer_report(m.input_reports[id])
    &&& m.current_state.current_x <= AXIS_RESOLUTION
    &&& m.current_state.current_y <= AXIS_RESOLUTION
    &&& m.current_state.current_z <= AXIS_RESOLUTION
}

/// The state of a pointer at the centre, with no button held.
pub open spec fn centered_state() -> PointerState {
    PointerState { current_x: CENTER, current_y: CENTER, current_z: 0, active_buttons: 0 }
}

/// The handler after reading the input reports `reports`, and whether each had a report id where
/// the descriptor has several reports.
pub open spec fn with_pointer_reports(m: PointerModel, reports: Seq<ReportModel>, multiple: bool) -> (
    PointerModel,
    bool,
)
    decreases reports.len(),
{
    if reports.len() == 0 {
        (m, true)
    } else {
        let r = reports[0];
        let m1 = PointerModel { report_id_present: r.report_id is Some, ..m };
        if multiple && r.report_id is None {
            (m1, false)
        } else {
            let d = pointer_report(r);
            let usages = Set::new(|u: u32| exists|i: int| 0 <= i < d.fields.len() && #[trigger] d.fields[i].usage == u);
            let m2 = PointerModel { supported_usages: m1.supported_usages.union(usages), ..m1 };
            let m3 = if d.fields.len() > 0 {
                PointerModel { input_reports: m2.input_reports.insert(r.report_id, d), ..m2 }
            } else {
                m2
            };
            with_pointer_reports(m3, reports.drop_first(), multiple)
        }
    }
}

/// The handler after reading a report descriptor, and the result: a device error where several
/// input reports are described and one has no report id, unsupported where none has axis or button
/// fields.
pub open spec fn pointer_process_descriptor_spec(m: PointerModel, d: ReportDescriptorModel) -> (
    PointerModel,
    Result<(), HidError>,
) {
    let (m1, ok) = with_pointer_reports(m, d.input_reports, d.input_reports.len() > 1);
    if !ok {
        (m1, Err(HidError::DeviceError))
    } else if m1.input_reports.len() > 0 {
        (m1, Ok(()))
    } else {
        (m1, Err(HidError::Unsupported))
    }
}

/// A position clamped to the axis.
pub open spec fn clamp_axis(v: int) -> u64 {
    if v < 0 {
        0
    } else if v > AXIS_RESOLUTION {
        AXIS_RESOLUTION
    } else {
        v as u64
    }
}

/// The position on an axis after a field's value: a relative value moves the position; an
/// absolute value, less the field's logical minimum, is scaled from the field's logical range onto
/// the axis. Either is clamped to the axis.
pub open spec fn axis_position(
    current: u64,
    relative: bool,
    logical_minimum: i32,
    value: Option<i64>,
    range: Option<u32>,
) -> Option<u64> {
    match value {
        None => None,
        Some(v) => if relative {
            Some(clamp_axis(current + v))
        } else {
            match range {
                None => None,
                Some(r) => Some(clamp_axis(((v - logical_minimum) * 1024 * 1000) / (r * 1000))),
            }
        },
    }
}

/// The buttons after a button field's value: the button's bit is replaced by the value shifted
/// to it.
pub open spec fn buttons_after(active: u32, usage: u32, value: i64) -> u32 {
    let shift = (usage - BUTTON_MIN) as u32;
    (active & !(1u32 << shift)) | ((value as u32) << shift)
}

/// The handler after a field of a report is read.
pub open spec fn apply_pointer_field(m: PointerModel, f: VariableField, body: Seq<u8>) -> PointerModel {
    let value = field_value_of(f.bits_start, f.bits_end, f.logical_minimum, f.logical_maximum, body);
    let range = spec_field_range(f.logical_minimum, f.logical_maximum);
    let s = m.current_state;
    if f.usage == GENERIC_DESKTOP_X {
        match axis_position(s.current_x, f.relative, f.logical_minimum, value, range) {
            Some(x) => if x != s.current_x {
                PointerModel { current_state: PointerState { current_x: x, ..s }, state_changed: true, ..m }
            } else {
                m
            },
            None => m,
        }
    } else if f.usage == GENERIC_DESKTOP_Y {
        match axis_position(s.current_y, f.relative, f.logical_minimum, value, range) {
            Some(y) => if y != s.current_y {
                PointerModel { current_state: PointerState { current_y: y, ..s }, state_changed: true, ..m }
            } else {
                m
            },
            None => m,
        }
    } else if f.usage == GENERIC_DESKTOP_Z || f.usage == GENERIC_DESKTOP_WHEEL {
        match axis_position(s.current_z, f.relative, f.logical_minimum, value, range) {
            Some(z) => if z != s.current_z {
                PointerModel { current_state: PointerState { current_z: z, ..s }, state_changed: true, ..m }
            } else {
                m
            },
            None => m,
        }
    } else if BUTTON_MIN <= f.usage && f.usage <= BUTTON_MAX {
        match value {
            Some(v) => {
                let b = buttons_after(s.active_buttons, f.usage, v);
                if b != s.active_buttons {
                    PointerModel {
                        current_state: PointerState { active_buttons: b, ..s },
                        state_changed: true,
                        ..m
                    }
                } else {
                    m
                }
            },
            None => m,
        }
    } else {
        m
    }
}

/// The handler after the fields of a report are read in turn.
pub open spec fn apply_pointer_fields(m: PointerModel, fields: Seq<VariableField>, body: Seq<u8>) -> PointerModel
    decreases fields.len(),
{
    if fields.len() == 0 {
        m
    } else {
        apply_pointer_fields(apply_pointer_field(m, fields[0], body), fields.drop_first(), body)
    }
}

/// Reading one field keeps the pointer on its axes.
proof fn lemma_apply_pointer_field_wf(m: PointerModel, f: VariableField, body: Seq<u8>)
    requires
        pointer_wf(m),
    ensures
        pointer_wf(apply_pointer_field(m, f, body)),
{
}

/// Reading fields in turn keeps the pointer on its axes.
proof fn lemma_apply_pointer_fields_wf(m: PointerModel, fields: Seq<VariableField>, body: Seq<u8>)
    requires
        pointer_wf(m),
    ensures
        pointer_wf(apply_pointer_fields(m, fields, body)),
    decreases fields.len(),
{
    if fields.len() > 0 {
        lemma_apply_pointer_field_wf(m, fields[0], body);
        lemma_apply_pointer_fields_wf(apply_pointer_field(m, fields[0], body), fields.drop_first(), body);
    }
}

/// A field that the report is too short for, or whose bits hold a number outside the field's
/// logical range, changes nothing: neither the axis or button it stands for nor whether the state
/// changed.
pub proof fn law_unreadable_field_changes_nothing(m: PointerModel, f: VariableField, body: Seq<u8>)
    requires
        bytes_needed(f.bits_end) > body.len() || !(f.logical_minimum <= field_raw_value(
            f.bits_start,
            f.bits_end,
            f.logical_minimum,
            body,
        ) <= adjusted_maximum(f.logical_minimum, f.logical_maximum)),
    ensures
        apply_pointer_field(m, f, body) == m,
{
    reveal(field_value_of);
}

/// Whatever report a pointer handler receives, its position stays on the axes, from 0 to
/// `AXIS_RESOLUTION`.
pub proof fn law_pointer_stays_on_axes(m: PointerModel, report: Seq<u8>)
    requires
        pointer_wf(m),
    ensures
        pointer_wf(pointer_receive_report_spec(m, report)),
        pointer_receive_report_spec(m, report).current_state.current_x <= AXIS_RESOLUTION,
        pointer_receive_report_spec(m, report).current_state.current_y <= AXIS_RESOLUTION,
        pointer_receive_report_spec(m, report).current_state.current_z <= AXIS_RESOLUTION,
{
    if report.len() > 0 {
        let id = if m.report_id_present {
            Some(report[0] as u32)
        } else {
            None
        };
        let body = if m.report_id_present {
            report.skip(1)
        } else {
            report
        };
        if m.input_reports.contains_key(id) {
            lemma_apply_pointer_fields_wf(m, m.input_reports[id].fields, body);
        }
    }
}

/// Reading one field marks every change it makes to the pointer state, and keeps a mark already
/// made.
proof fn lemma_apply_pointer_field_flags_changes(m: PointerModel, f: VariableField, body: Seq<u8>)
    ensures
        apply_pointer_field(m, f, body).current_state != m.current_state ==> apply_pointer_field(
            m,
            f,
            body,
        ).state_changed,
        m.state_changed ==> apply_pointer_field(m, f, body).state_changed,
{
}

/// Reading fields in turn marks every change they make to the pointer state, and keeps a mark
/// already made.
proof fn lemma_apply_pointer_fields_flags_changes(m: PointerModel, fields: Seq<VariableField>, body: Seq<u8>)
    ensures
        apply_pointer_fields(m, fields, body).current_state != m.current_state ==> apply_pointer_fields(
            m,
            fields,
            body,
        ).state_changed,
        m.state_changed ==> apply_pointer_fields(m, fields, body).state_changed,
    decreases fields.len(),
{
    if fields.len() > 0 {
        let m1 = apply_pointer_field(m, fields[0], body);
        lemma_apply_pointer_field_flags_changes(m, fields[0], body);
        lemma_apply_pointer_fields_flags_changes(m1, fields.drop_first(), body);
    }
}

/// Whenever a report moves the pointer on an axis or changes its buttons, the handler marks its
/// state changed, so that the next request for the state reports it; a change already marked stays
/// marked until the state is read.
pub proof fn law_pointer_changes_are_marked(m: PointerModel, report: Seq<u8>)
    ensures
        pointer_receive_report_spec(m, report).current_state != m.current_state
            ==> pointer_receive_report_spec(m, report).state_changed,
        m.state_changed ==> pointer_receive_report_spec(m, report).state_changed,
{
    if report.len() > 0 {
        let id = if m.report_id_present {
            Some(report[0] as u32)
        } else {
            None
        };
        let body = if m.report_id_present {
            report.skip(1)
        } else {
            report
        };
        if m.input_reports.contains_key(id) {
            lemma_apply_pointer_fields_flags_changes(m, m.input_reports[id].fields, body);
        }
    }
}

/// A relative value moves the position on an axis by the value, stopping at the ends of the axis.
/// An absolute value within the field's range maps the range onto the axis in proportion, rounded
/// down: the position `p` has `p * range <= (value - minimum) * AXIS_RESOLUTION < (p + 1) * range`,
/// so the minimum is at 0 and the minimum plus the range at `AXIS_RESOLUTION`.
pub proof fn law_axis_positions(current: u64, logical_minimum: i32, value: i64, range: u32)
    ensures
        axis_position(current, true, logical_minimum, Some(value), Some(range)) == Some(
            if current + value < 0 {
                0
            } else if current + value > AXIS_RESOLUTION {
                AXIS_RESOLUTION
            } else {
                (current + value) as u64
            },
        ),
        range > 0 && logical_minimum <= value <= logical_minimum + range ==> ({
            let x = value - logical_minimum;
            axis_position(current, false, logical_minimum, Some(value), Some(range)) matches Some(p) && p
                * range <= x * AXIS_RESOLUTION < (p + 1) * range
        }),
{
    if range > 0 && logical_minimum <= value <= logical_minimum + range {
        let x: int = value - logical_minimum;
        let r: int = range as int;
        let n = x * 1024 * 1000;
        let dd = r * 1000;
        let q = n / dd;
        assert(q * dd <= n < (q + 1) * dd && 0 <= q <= 1024) by (nonlinear_arith)
            requires
                0 <= x <= r,
                r > 0,
                n == x * 1024 * 1000,
                dd == r * 1000,
                q == n / dd,
        ;
        assert(q * r <= x * 1024 < (q + 1) * r) by (nonlinear_arith)
            requires
                q * dd <= n < (q + 1) * dd,
                n == x * 1024 * 1000,
                dd == r * 1000,
        ;
        assert(((value - logical_minimum) * 1024 * 1000) / (range * 1000) == q);
    }
}

/// A button field's value of 0 or 1 sets the bit of its button, bit `usage - BUTTON_MIN` (button 1
/// in bit 0), to the value, and leaves the bits of the other buttons as they were.
pub proof fn law_button_value_sets_its_bit(active: u32, usage: u32, value: i64, j: u32)
    requires
        BUTTON_MIN <= usage <= BUTTON_MAX,
        value == 0 || value == 1,
        j < 32,
    ensures
        (buttons_after(active, usage, value) >> j) & 1 == if j == usage - BUTTON_MIN {
            value as u32
        } else {
            (active >> j) & 1
        },
{
    let sh = (usage - BUTTON_MIN) as u32;
    let v = value as u32;
    assert(v == 0 || v == 1);
    assert(sh < 32);
    assert((((active & !(1u32 << sh)) | (v << sh)) >> j) & 1 == if j == sh {
        v
    } else {
        (active >> j) & 1
    }) by (bit_vector)
        requires
            sh < 32,
            j < 32,
            v == 0 || v == 1,
    ;
}

/// The handler after an input report: a report of a known id and size has each of its fields read.
pub open spec fn pointer_receive_report_spec(m: PointerModel, report: Seq<u8>) -> PointerModel {
    if report.len() == 0 {
        m
    } else {
        let id = if m.report_id_present {
            Some(report[0] as u32)
        } else {
            None
        };
        let body = if m.report_id_present {
            report.skip(1)
        } else {
            report
        };
        if body.len() == 0 || !m.input_reports.contains_key(id) || body.len()
            != m.input_reports[id].report_size {
            m
        } else {
            apply_pointer_fields(m, m.input_reports[id].fields, body)
        }
    }
}

/// The usage page of a usage.
pub open spec fn usage_page(u: u32) -> u32 {
    u / 0x10000
}

/// More than one of the usages is a button.
pub open spec fn has_alternate_button(usages: Set<u32>) -> bool {
    exists|a: u32, b: u32|
        a != b && usages.contains(a) && usages.contains(b) && usage_page(a) == BUTTON_PAGE
            && usage_page(b) == BUTTON_PAGE
}

/// The mode the supported usages give: an axis from 0 to 1024 for each of x, y and z (z from a z or
/// wheel usage, reported as pressure), and an alternate button where more than one button is read.
pub open spec fn mode_of(usages: Set<u32>) -> PointerMode {
    let has_x = usages.contains(GENERIC_DESKTOP_X);
    let has_y = usages.contains(GENERIC_DESKTOP_Y);
    let has_z = usages.contains(GENERIC_DESKTOP_Z) || usages.contains(GENERIC_DESKTOP_WHEEL);
    PointerMode {
        absolute_min_x: 0,
        absolute_min_y: 0,
        absolute_min_z: 0,
        absolute_max_x: if has_x {
            AXIS_RESOLUTION
        } else {
            0
        },
        absolute_max_y: if has_y {
            AXIS_RESOLUTION
        } else {
            0
        },
        absolute_max_z: if has_z {
            AXIS_RESOLUTION
        } else {
            0
        },
        attributes: ((if has_z {
            2u32
        } else {
            0u32
        }) + (if has_alternate_button(usages) {
            1u32
        } else {
            0u32
        })) as u32,
    }
}

// ---------------------------------------------------------------------------------------------
// The handler.
/// An input report the handler reads, and its fields of axes and buttons.
pub struct PointerReportData {
    pub report_id: Option<u32>,
    pub report_size: usize,
    pub relevant_fields: Vec<VariableField>,
}

impl View for PointerReportData {
    type V = PointerReportModel;

    open spec fn view(&self) -> PointerReportModel {
        PointerReportModel {
            report_id: self.report_id,
            report_size: self.report_size,
            fields: self.relevant_fields@,
        }
    }
}

impl PointerReportData {
    /// A copy of this report data.
    pub fn duplicate(&self) -> (r: PointerReportData)
        ensures
            r@ == self@,
    {
        let mut fields: Vec<VariableField> = Vec::new();
        let mut i: usize = 0;
        while i < self.relevant_fields.len()
            invariant
                0 <= i <= self.relevant_fields@.len(),
                fields@ == self.relevant_fields@.take(i as int),
            decreases self.relevant_fields@.len() - i,
        {
            fields.push(self.relevant_fields[i]);
            i = i + 1;
            assert(fields@ =~= self.relevant_fields@.take(i as int));
        }
        assert(fields@ =~= self.relevant_fields@);
        PointerReportData {
            report_id: self.report_id,
            report_size: self.report_size,
            relevant_fields: fields,
        }
    }
}

/// The pointer handler of a HID device.
pub struct PointerHidHandler {
    input_reports: BTreeMap<Option<u32>, PointerReportData>,
    supported_usages: BTreeSet<u32>,
    report_id_present: bool,
    state_changed: bool,
    current_state: PointerState,
    received: Ghost<Seq<Seq<u8>>>,
}

impl View for PointerHidHandler {
    type V = PointerModel;

    closed spec fn view(&self) -> PointerModel {
        PointerModel {
            input_reports: self.input_reports@.map_values(|d: PointerReportData| d@),
            supported_usages: self.supported_usages@,
            report_id_present: self.report_id_present,
            state_changed: self.state_changed,
            current_state: self.current_state,
        }
    }
}

/// A handler without reports, with the pointer at the centre.
pub open spec fn new_pointer() -> PointerModel {
    PointerModel {
        input_reports: Map::empty(),
        supported_usages: Set::empty(),
        report_id_present: false,
        state_changed: false,
        current_state: centered_state(),
    }
}

/// The fields of axes and buttons of an input report.
fn pointer_report_data(report: &Report) -> (d: PointerReportData)
    ensures
        d@ == pointer_report(report@),
{
    let ghost fields = report@.fields;
    assert(fields.skip(0) =~= fields);
    let mut relevant: Vec<VariableField> = Vec::new();
    let mut i: usize = 0;
    while i < report.fields.len()
        invariant
            0 <= i <= report.fields@.len(),
            fields == report@.fields,
            pointer_fields(fields) == relevant@ + pointer_fields(fields.skip(i as int)),
        decreases report.fields@.len() - i,
    {
        let ghost old_relevant = relevant@;
        proof {
            assert(fields.skip(i as int).drop_first() =~= fields.skip(i + 1));
            assert(fields.skip(i as int)[0] == report.fields@[i as int]@);
        }
        match &report.fields[i] {
            ReportField::Variable(f) => {
                let u = f.usage;
                if u == GENERIC_DESKTOP_X || u == GENERIC_DESKTOP_Y || u == GENERIC_DESKTOP_Z || u
                    == GENERIC_DESKTOP_WHEEL || (BUTTON_MIN <= u && u <= BUTTON_MAX) {
                    relevant.push(*f);
                    assert(old_relevant + (seq![*f] + pointer_fields(fields.skip(i + 1))) =~= relevant@
                        + pointer_fields(fields.skip(i + 1)));
                }
            },
            _ => {},
        }
        i = i + 1;
    }
    assert(fields.skip(i as int) =~= Seq::<ReportFieldModel>::empty());
    assert(relevant@ + Seq::<VariableField>::empty() =~= relevant@);
    PointerReportData {
        report_id: report.report_id,
        report_size: report_bytes(report.size_in_bits),
        relevant_fields: relevant,
    }
}

/// Whether the fields of axes and buttons of a report can be read.
fn pointer_data_readable(d: &PointerReportData) -> (r: bool)
    ensures
        r == readable_pointer_report(d@),
{
    let mut i: usize = 0;
    while i < d.relevant_fields.len()
        invariant
            0 <= i <= d.relevant_fields@.len(),
            forall|j: int|
                0 <= j < i ==> readable_bits(
                    #[trigger] d@.fields[j].bits_start,
                    d@.fields[j].bits_end,
                    d@.fields[j].logical_minimum,
                ),
        decreases d.relevant_fields@.len() - i,
    {
        let f = &d.relevant_fields[i];
        if !bits_readable(f.bits_start, f.bits_end, f.logical_minimum) {
            assert(d@.fields[i as int].bits_start == f.bits_start);
            return false;
        }
        i = i + 1;
    }
    true
}

/// The position on an axis after the value read of a field and the field's logical range: see
/// `axis_position`.
pub fn resolve_axis_value(current: u64, field: &VariableField, value: Option<i64>, range: Option<u32>) -> (r: Option<u64>)
    requires
        current <= AXIS_RESOLUTION,
        value matches Some(v) ==> field.logical_minimum <= v && v <= adjusted_maximum(
            field.logical_minimum,
            field.logical_maximum,
        ),
        range matches Some(n) ==> n > 0,
    ensures
        r == axis_position(current, field.relative, field.logical_minimum, value, range),
        r matches Some(p) ==> p <= AXIS_RESOLUTION,
{
    let v = match value {
        Some(v) => v,
        None => {
            return None;
        },
    };
    if field.relative {
        let new_value: i64 = current as i64 + v;
        let clamped: u64 = if new_value < 0 {
            0
        } else if new_value > AXIS_RESOLUTION as i64 {
            AXIS_RESOLUTION
        } else {
            new_value as u64
        };
        Some(clamped)
    } else {
        let translated: i64 = match v.checked_sub(field.logical_minimum as i64) {
            Some(t) => t,
            None => {
                return None;
            },
        };
        let r = match range {
            Some(r) => r,
            None => {
                return None;
            },
        };
        assert(0 <= translated <= 0x2_0000_0000);
        let t: u64 = translated as u64;
        assert(t * 1024 * 1000 <= 0x2_0000_0000 * 1024 * 1000) by (nonlinear_arith)
            requires
                t <= 0x2_0000_0000,
        ;
        let scaled: u64 = (t * AXIS_RESOLUTION * 1000) / (r as u64 * 1000);
        let clamped: u64 = if scaled > AXIS_RESOLUTION {
            AXIS_RESOLUTION
        } else {
            scaled
        };
        Some(clamped)
    }
}

/// The position on an axis after a field of a report is read.
fn resolve_axis(current: u64, field: &VariableField, report: &[u8]) -> (r: Option<u64>)
    requires
        current <= AXIS_RESOLUTION,
        readable_bits(field.bits_start, field.bits_end, field.logical_minimum),
    ensures
        r == axis_position(
            current,
            field.relative,
            field.logical_minimum,
            field_value_of(
                field.bits_start,
                field.bits_end,
                field.logical_minimum,
                field.logical_maximum,
                report@,
            ),
            spec_field_range(field.logical_minimum, field.logical_maximum),
        ),
        r matches Some(p) ==> p <= AXIS_RESOLUTION,
{
    let value = field_value(field.bits_start, field.bits_end, field.logical_minimum, field.logical_maximum, report);
    if field.relative || value.is_none() {
        resolve_axis_value(current, field, value, None)
    } else {
        let range = variable_field_range(field);
        resolve_axis_value(current, field, value, range)
    }
}

/// Whether more than one of the increasing usages `v` is a button.
fn has_alternate_button_exec(v: &Vec<u32>) -> (r: bool)
    requires
        crate::usage_set::strictly_increasing(v@),
    ensures
        r == has_alternate_button(v@.to_set()),
{
    let mut first: Option<u32> = None;
    let mut i: usize = 0;
    while i < v.len()
        invariant
            0 <= i <= v@.len(),
            crate::usage_set::strictly_increasing(v@),
            first is None ==> forall|j: int| 0 <= j < i ==> usage_page(#[trigger] v@[j]) != BUTTON_PAGE,
            first matches Some(a) ==> (exists|j: int| 0 <= j < i && v@[j] == a),
            first matches Some(a) ==> usage_page(a) == BUTTON_PAGE && v@.contains(a) && forall|j: int|
                0 <= j < i && usage_page(#[trigger] v@[j]) == BUTTON_PAGE ==> v@[j] == a,
        decreases v@.len() - i,
    {
        let u = v[i];
        if u / 0x10000 == BUTTON_PAGE {
            match first {
                Some(a) => {
                    proof {
                        let k = choose|k: int| 0 <= k < i && v@[k] == a;
                        assert(v@[k] < v@[i as int]);
                        assert(v@.to_set().contains(a));
                        assert(v@.to_set().contains(u));
                        assert(usage_page(u) == BUTTON_PAGE);
                        assert(a != u && v@.to_set().contains(a) && v@.to_set().contains(u) && usage_page(a)
                            == BUTTON_PAGE && usage_page(u) == BUTTON_PAGE);
                        assert(has_alternate_button(v@.to_set()));
                    }
                    return true;
                },
                None => {
                    first = Some(u);
                },
            }
        }
        i = i + 1;
    }
    proof {
        if has_alternate_button(v@.to_set()) {
            let (a, b) = choose|a: u32, b: u32|
                a != b && v@.to_set().contains(a) && v@.to_set().contains(b) && usage_page(a)
                    == BUTTON_PAGE && usage_page(b) == BUTTON_PAGE;
            let ja = choose|j: int| 0 <= j < v@.len() && v@[j] == a;
            let jb = choose|j: int| 0 <= j < v@.len() && v@[j] == b;
            assert(usage_page(v@[ja]) == BUTTON_PAGE);
            assert(usage_page(v@[jb]) == BUTTON_PAGE);
        }
    }
    false
}

impl PointerHidHandler {
    /// Whether the handler can read the fields of axes and buttons of a report descriptor: what
    /// keeps a handler that reads it able to receive reports.
    pub fn descriptor_readable(descriptor: &ReportDescriptor) -> (r: bool)
        ensures
            r == pointer_descriptor_ok(descriptor@),
    {
        let mut i: usize = 0;
        while i < descriptor.input_reports.len()
            invariant
                0 <= i <= descriptor.input_reports@.len(),
                forall|j: int|
                    0 <= j < i ==> readable_pointer_report(
                        pointer_report(#[trigger] descriptor@.input_reports[j]),
                    ),
            decreases descriptor.input_reports@.len() - i,
        {
            let d = pointer_report_data(&descriptor.input_reports[i]);
            assert(descriptor@.input_reports[i as int] == descriptor.input_reports@[i as int]@);
            if !pointer_data_readable(&d) {
                return false;
            }
            i = i + 1;
        }
        true
    }
}

impl PointerHidHandler {
    /// A handler without reports, with the pointer at the centre.
    pub fn new() -> (h: PointerHidHandler)
        ensures
            h@ == new_pointer(),
            pointer_wf(h@),
    {
        let mut h = PointerHidHandler {
            input_reports: BTreeMap::new(),
            supported_usages: BTreeSet::new(),
            report_id_present: false,
            state_changed: false,
            current_state: PointerState { current_x: 0, current_y: 0, current_z: 0, active_buttons: 0 },
            received: Ghost(Seq::empty()),
        };
        h.reset_state();
        assert(h@.input_reports =~= Map::empty());
        h
    }

    /// Reads a report descriptor: the input reports with axis or button fields. Fails with a device
    /// error where several input reports are described and one has no report id, and as
    /// unsupported where none has such fields.
    #[verifier::loop_isolation(false)]
    pub fn process_descriptor(&mut self, descriptor: &ReportDescriptor) -> (r: Result<(), HidError>)
        ensures
            (final(self)@, r) == pointer_process_descriptor_spec(old(self)@, descriptor@),
            pointer_wf(old(self)@) && pointer_descriptor_ok(descriptor@) ==> pointer_wf(final(self)@),
    {
        let ghost readable = pointer_wf(old(self)@) && pointer_descriptor_ok(descriptor@);
        let ghost d = descriptor@;
        assert(d.input_reports.skip(0) =~= d.input_reports);
        let multiple = descriptor.input_reports.len() > 1;
        let mut i: usize = 0;
        while i < descriptor.input_reports.len()
            invariant
                0 <= i <= d.input_reports.len(),
                d == descriptor@,
                readable == (pointer_wf(old(self)@) && pointer_descriptor_ok(d)),
                readable ==> pointer_wf(self@),
                with_pointer_reports(old(self)@, d.input_reports, multiple) == with_pointer_reports(
                    self@,
                    d.input_reports.skip(i as int),
                    multiple,
                ),
            decreases d.input_reports.len() - i,
        {
            let report = &descriptor.input_reports[i];
            proof {
                assert(d.input_reports.skip(i as int)[0] == report@);
                assert(d.input_reports.skip(i as int).drop_first() =~= d.input_reports.skip(i + 1));
                if readable {
                    assert(readable_pointer_report(pointer_report(d.input_reports[i as int])));
                }
            }
            self.report_id_present = report.report_id.is_some();
            if multiple && !self.report_id_present {
                return Err(HidError::DeviceError);
            }
            let data = pointer_report_data(report);
            let ghost dm = data@;
            let ghost usages = Set::new(
                |u: u32| exists|k: int| 0 <= k < dm.fields.len() && #[trigger] dm.fields[k].usage == u,
            );
            let ghost start = self@.supported_usages;
            let ghost m_before = self@;
            let mut k: usize = 0;
            while k < data.relevant_fields.len()
                invariant
                    0 <= k <= dm.fields.len(),
                    dm == data@,
                    self@ == (PointerModel { supported_usages: self@.supported_usages, ..m_before }),
                    forall|u: u32|
                        #[trigger] self@.supported_usages.contains(u) <==> start.contains(u) || exists|t: int|
                            0 <= t < k && dm.fields[t].usage == u,
                decreases dm.fields.len() - k,
            {
                self.supported_usages.insert(data.relevant_fields[k].usage);
                proof {
                    assert forall|u: u32| #[trigger] self@.supported_usages.contains(u) <==> start.contains(u)
                        || exists|t: int| 0 <= t < k + 1 && dm.fields[t].usage == u by {
                        if u == dm.fields[k as int].usage {
                            assert(0 <= k < k + 1 && dm.fields[k as int].usage == u);
                        }
                    }
                }
                k = k + 1;
            }
            assert(self@.supported_usages =~= start.union(usages));
            if data.relevant_fields.len() > 0 {
                let id = data.report_id;
                let ghost before = self@;
                self.input_reports.insert(id, data);
                assert(self@.input_reports =~= before.input_reports.insert(id, dm));
            }
            i = i + 1;
        }
        assert(d.input_reports.skip(i as int) =~= Seq::<ReportModel>::empty());
        assert(self@.input_reports.dom() =~= self.input_reports@.dom());
        if self.input_reports.len() > 0 {
            Ok(())
        } else {
            Err(HidError::Unsupported)
        }
    }

    /// Records the value read of a button field: the button's bit is replaced by the value.
    pub fn record_button_value(&mut self, usage: u32, value: Option<i64>)
        requires
            BUTTON_MIN <= usage <= BUTTON_MAX,
        ensures
            final(self)@ == (match value {
                Some(v) => {
                    let b = buttons_after(old(self)@.current_state.active_buttons, usage, v);
                    if b != old(self)@.current_state.active_buttons {
                        PointerModel {
                            current_state: PointerState { active_buttons: b, ..old(self)@.current_state },
                            state_changed: true,
                            ..old(self)@
                        }
                    } else {
                        old(self)@
                    }
                },
                None => old(self)@,
            }),
    {
        if let Some(button_value) = value {
            let button_value = button_value as u32;
            let shift = usage - BUTTON_MIN;
            let button_value = button_value << shift;
            let new_buttons = self.current_state.active_buttons & !(1u32 << shift) | button_value;
            if new_buttons != self.current_state.active_buttons {
                self.current_state.active_buttons = new_buttons;
                self.state_changed = true;
            }
        }
    }

    /// Reads a button field of a report.
    fn button_handler(&mut self, field: &VariableField, report: &[u8])
        requires
            readable_bits(field.bits_start, field.bits_end, field.logical_minimum),
        ensures
            final(self)@ == (if BUTTON_MIN <= field.usage && field.usage <= BUTTON_MAX {
                apply_pointer_field(old(self)@, *field, report@)
            } else {
                old(self)@
            }),
    {
        let shift = field.usage;
        if shift < BUTTON_MIN || shift > BUTTON_MAX {
            return;
        }
        let value = field_value(field.bits_start, field.bits_end, field.logical_minimum, field.logical_maximum, report);
        self.record_button_value(field.usage, value);
    }

    /// Reads an axis field of a report into the position of the given axis (0 for x, 1 for y, 2 for
    /// z).
    fn axis_handler(&mut self, axis: u8, field: &VariableField, report: &[u8])
        requires
            pointer_wf(old(self)@),
            readable_bits(field.bits_start, field.bits_end, field.logical_minimum),
            axis == 0 ==> field.usage == GENERIC_DESKTOP_X,
            axis == 1 ==> field.usage == GENERIC_DESKTOP_Y,
            axis == 2 ==> field.usage == GENERIC_DESKTOP_Z || field.usage == GENERIC_DESKTOP_WHEEL,
            axis <= 2,
        ensures
            final(self)@ == apply_pointer_field(old(self)@, *field, report@),
            pointer_wf(final(self)@),
    {
        if axis == 0 {
            if let Some(x) = resolve_axis(self.current_state.current_x, field, report) {
                if self.current_state.current_x != x {
                    self.current_state.current_x = x;
                    self.state_changed = true;
                }
            }
        } else if axis == 1 {
            if let Some(y) = resolve_axis(self.current_state.current_y, field, report) {
                if self.current_state.current_y != y {
                    self.current_state.current_y = y;
                    self.state_changed = true;
                }
            }
        } else {
            if let Some(z) = resolve_axis(self.current_state.current_z, field, report) {
                if self.current_state.current_z != z {
                    self.current_state.current_z = z;
                    self.state_changed = true;
                }
            }
        }
    }

    /// The mode of the absolute pointer: see `mode_of`.
    pub fn initialize_mode(&self) -> (mode: PointerMode)
        ensures
            mode == mode_of(self@.supported_usages),
    {
        let has_x = self.supported_usages.contains(&GENERIC_DESKTOP_X);
        let has_y = self.supported_usages.contains(&GENERIC_DESKTOP_Y);
        let has_z = self.supported_usages.contains(&GENERIC_DESKTOP_Z) || self.supported_usages.contains(
            &GENERIC_DESKTOP_WHEEL,
        );
        let mut mode = PointerMode {
            absolute_min_x: 0,
            absolute_min_y: 0,
            absolute_min_z: 0,
            absolute_max_x: 0,
            absolute_max_y: 0,
            absolute_max_z: 0,
            attributes: 0,
        };
        if has_x {
            mode.absolute_max_x = AXIS_RESOLUTION;
            mode.absolute_min_x = 0;
        }
        if has_y {
            mode.absolute_max_y = AXIS_RESOLUTION;
            mode.absolute_min_y = 0;
        }
        if has_z {
            mode.absolute_max_z = AXIS_RESOLUTION;
            mode.absolute_min_z = 0;
            mode.attributes = mode.attributes + 0x02;
        }
        let usages = sorted_elements(&self.supported_usages);
        if has_alternate_button_exec(&usages) {
            mode.attributes = mode.attributes + 0x01;
        }
        mode
    }

    /// Puts the pointer at the centre with no button held, and marks the state unchanged.
    pub fn reset_state(&mut self)
        ensures
            final(self)@ == (PointerModel {
                current_state: centered_state(),
                state_changed: false,
                ..old(self)@
            }),
    {
        self.current_state = PointerState {
            current_x: CENTER,
            current_y: CENTER,
            current_z: 0,
            active_buttons: 0,
        };
        self.state_changed = false;
    }

    /// The pointer state where it changed since it was last read, which marks it read; nothing
    /// otherwise.
    pub fn get_state(&mut self) -> (r: Option<PointerState>)
        ensures
            old(self)@.state_changed ==> r == Some(old(self)@.current_state) && final(self)@ == (
            PointerModel { state_changed: false, ..old(self)@ }),
            !old(self)@.state_changed ==> r is None && final(self)@ == old(self)@,
    {
        if self.state_changed {
            self.state_changed = false;
            Some(self.current_state)
        } else {
            None
        }
    }

    /// The pointer state, read or not.
    pub fn current_state(&self) -> (r: PointerState)
        ensures
            r == self@.current_state,
    {
        self.current_state
    }

    /// Whether the state changed since it was last read.
    pub fn state_changed(&self) -> (r: bool)
        ensures
            r == self@.state_changed,
    {
        self.state_changed
    }
}

impl PointerHidHandler {
    /// Processes an input report: see `pointer_receive_report_spec`.
    #[verifier::loop_isolation(false)]
    fn process_report(&mut self, report: &[u8])
        requires
            old(self).well_formed(),
        ensures
            final(self).well_formed(),
            final(self)@ == pointer_receive_report_spec(old(self)@, report@),
    {
        if report.len() == 0 {
            return;
        }
        let (report_id, body): (Option<u32>, &[u8]) = if self.report_id_present {
            let (first, rest) = report.split_at(1);
            (Some(crate::report::report_id_from_byte(first)), rest)
        } else {
            (None, report)
        };
        if body.len() == 0 {
            return;
        }
        let data = match self.input_reports.get(&report_id) {
            Some(d) => d.duplicate(),
            None => {
                return;
            },
        };
        assert(old(self)@.input_reports.contains_key(report_id));
        assert(data@ == old(self)@.input_reports[report_id]);
        if body.len() != data.report_size {
            return;
        }
        let ghost fields = data@.fields;
        assert(fields.skip(0) =~= fields);
        assert(readable_pointer_report(data@));
        let mut i: usize = 0;
        while i < data.relevant_fields.len()
            invariant
                0 <= i <= fields.len(),
                fields == data@.fields,
                readable_pointer_report(data@),
                pointer_wf(self@),
                apply_pointer_fields(old(self)@, fields, body@) == apply_pointer_fields(
                    self@,
                    fields.skip(i as int),
                    body@,
                ),
            decreases fields.len() - i,
        {
            let field = &data.relevant_fields[i];
            proof {
                assert(fields.skip(i as int)[0] == *field);
                assert(fields.skip(i as int).drop_first() =~= fields.skip(i + 1));
                assert(readable_bits(fields[i as int].bits_start, fields[i as int].bits_end, fields[i as int].logical_minimum));
            }
            let u = field.usage;
            if u == GENERIC_DESKTOP_X {
                self.axis_handler(0, field, body);
            } else if u == GENERIC_DESKTOP_Y {
                self.axis_handler(1, field, body);
            } else if u == GENERIC_DESKTOP_Z || u == GENERIC_DESKTOP_WHEEL {
                self.axis_handler(2, field, body);
            } else if BUTTON_MIN <= u && u <= BUTTON_MAX {
                self.button_handler(field, body);
            }
            i = i + 1;
        }
        assert(fields.skip(i as int) =~= Seq::<VariableField>::empty());
    }
}

impl HidReportReciever for PointerHidHandler {
    open spec fn well_formed(&self) -> bool {
        pointer_wf(self@)
    }

    closed spec fn received_reports(&self) -> Seq<Seq<u8>> {
        self.received@
    }

    /// Processes an input report: see `pointer_receive_report_spec`.
    fn receive_report(&mut self, report: &[u8])
        ensures
            final(self)@ == pointer_receive_report_spec(old(self)@, report@),
    {
        let ghost before = self.received@;
        self.process_report(report);
        self.received = Ghost(before.push(report@));
    }
}
} // verus!
