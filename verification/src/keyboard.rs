//! The keyboard handler: which fields of a keyboard's reports it reads, the keys each report holds,
//! the keystrokes that changes of them make, the LED reports it sends back, and the requests of the
//! text input protocols it answers.
use crate::hid::{HidError, HidReportReciever};
use crate::key_queue::{
    active_leds, key_state_of, keystroke_spec, matches_registration, modifiers_with_toggle_state,
    registration_of, InputKey, KeyAction, KeyData, KeyQueue, KeyQueueModel, OrdKeyData,
    KEY_STATE_EXPOSED, LEFT_CONTROL_PRESSED, RIGHT_CONTROL_PRESSED,
};
use crate::layout_read::{keyboard_layout_from_buffer, parse_layout};
use crate::report::{
    bits_readable, bits_writable, bytes_of_bits, can_set_field_value, set_variable_field_value, field_value, field_value_of, field_with_value, readable_bits, report_bytes, writable_bits,
    ArrayField, ArrayFieldModel, Report, ReportDescriptor, ReportDescriptorModel, ReportField,
    ReportFieldModel, ReportModel, VariableField,
};
use crate::usage_set::{descending, entries_by_key, map_entries};
use std::collections::{BTreeMap, BTreeSet};
use vstd::prelude::*;

verus! {

/// Lowest usage of a modifier key.
pub const KEYBOARD_MODIFIER_USAGE_MIN: u32 = 0x000700E0;

/// Highest usage of a modifier key.
pub const KEYBOARD_MODIFIER_USAGE_MAX: u32 = 0x000700E7;

/// Lowest usage of a key.
pub const KEYBOARD_USAGE_MIN: u32 = 0x00070001;

/// Highest usage of a key.
pub const KEYBOARD_USAGE_MAX: u32 = 0x00070065;

/// Lowest usage of an LED.
pub const LED_USAGE_MIN: u32 = 0x00080001;

/// Highest usage of an LED.
pub const LED_USAGE_MAX: u32 = 0x00080005;

// ---------------------------------------------------------------------------------------------
// Which fields the handler reads.
/// A usage range holds the lowest or the highest key usage.
pub open spec fn range_has_keys(r: (u32, u32)) -> bool {
    (r.0 <= KEYBOARD_USAGE_MIN && KEYBOARD_USAGE_MIN <= r.1) || (r.0 <= KEYBOARD_USAGE_MAX
        && KEYBOARD_USAGE_MAX <= r.1)
}

/// An array field whose usages hold the keys.
pub open spec fn is_key_array(a: ArrayFieldModel) -> bool {
    exists|i: int| 0 <= i < a.usage_list.len() && range_has_keys(#[trigger] a.usage_list[i])
}

/// The variable fields of modifier keys among `fields`, in order.
pub open spec fn modifier_fields(fields: Seq<ReportFieldModel>) -> Seq<VariableField>
    decreases fields.len(),
{
    if fields.len() == 0 {
        Seq::empty()
    } else {
        let rest = modifier_fields(fields.drop_first());
        match fields[0] {
            ReportFieldModel::Variable(v) => if KEYBOARD_MODIFIER_USAGE_MIN <= v.usage && v.usage
                <= KEYBOARD_MODIFIER_USAGE_MAX {
                seq![v] + rest
            } else {
                rest
            },
            _ => rest,
        }
    }
}

/// The array fields of keys among `fields`, in order.
pub open spec fn key_array_fields(fields: Seq<ReportFieldModel>) -> Seq<ArrayFieldModel>
    decreases fields.len(),
{
    if fields.len() == 0 {
        Seq::empty()
    } else {
        let rest = key_array_fields(fields.drop_first());
        match fields[0] {
            ReportFieldModel::Array(a) => if is_key_array(a) {
                seq![a] + rest
            } else {
                rest
            },
            _ => rest,
        }
    }
}

/// The variable fields of LEDs among `fields`, in order.
pub open spec fn led_fields(fields: Seq<ReportFieldModel>) -> Seq<VariableField>
    decreases fields.len(),
{
    if fields.len() == 0 {
        Seq::empty()
    } else {
        let rest = led_fields(fields.drop_first());
        match fields[0] {
            ReportFieldModel::Variable(v) => if LED_USAGE_MIN <= v.usage && v.usage <= LED_USAGE_MAX {
                seq![v] + rest
            } else {
                rest
            },
            _ => rest,
        }
    }
}

/// Model of an input report the handler reads.
pub struct KeyboardReportModel {
    pub report_id: Option<u32>,
    /// The size of the report in bytes, without the report id.
    pub report_size: usize,
    /// The fields of modifier keys.
    pub variable_fields: Seq<VariableField>,
    /// The fields of keys.
    pub array_fields: Seq<ArrayFieldModel>,
}

/// Model of an output report the handler builds.
pub struct OutputBuilderModel {
    pub report_id: Option<u32>,
    /// The size of the report in bytes, without the report id.
    pub report_size: usize,
    /// The fields of LEDs.
    pub fields: Seq<VariableField>,
}

/// What the handler reads of an input report.
pub open spec fn keyboard_report(r: ReportModel) -> KeyboardReportModel {
    KeyboardReportModel {
        report_id: r.report_id,
        report_size: bytes_of_bits(r.size_in_bits),
        variable_fields: modifier_fields(r.fields),
        array_fields: key_array_fields(r.fields),
    }
}

/// What the handler writes of an output report.
pub open spec fn output_builder(r: ReportModel) -> OutputBuilderModel {
    OutputBuilderModel {
        report_id: r.report_id,
        report_size: bytes_of_bits(r.size_in_bits),
        fields: led_fields(r.fields),
    }
}

/// The fields of an input report can be read.
pub open spec fn readable_report(d: KeyboardReportModel) -> bool {
    &&& forall|i: int|
        0 <= i < d.variable_fields.len() ==> readable_bits(
            #[trigger] d.variable_fields[i].bits_start,
            d.variable_fields[i].bits_end,
            d.variable_fields[i].logical_minimum,
        )
    &&& forall|i: int|
        0 <= i < d.array_fields.len() ==> readable_bits(
            #[trigger] d.array_fields[i].bits_start,
            d.array_fields[i].bits_end,
            d.array_fields[i].logical_minimum,
        )
}

/// The fields of an output report can be written.
pub open spec fn writable_builder(b: OutputBuilderModel) -> bool {
    forall|i: int| 0 <= i < b.fields.len() ==> writable_bits(#[trigger] b.fields[i].bits_start, b.fields[i].bits_end)
}

/// The fields a keyboard handler reads of a descriptor stay within what `hidparser`'s accessors
/// read and write: at most 64 bits (and at least one where signed) for the fields of keys, at most
/// 32 bits for the fields of LEDs.
pub open spec fn keyboard_descriptor_ok(d: ReportDescriptorModel) -> bool {
    &&& forall|i: int| 0 <= i < d.input_reports.len() ==> readable_report(keyboard_report(#[trigger] d.input_reports[i]))
    &&& forall|i: int| 0 <= i < d.output_reports.len() ==> writable_builder(output_builder(#[trigger] d.output_reports[i]))
}

// ---------------------------------------------------------------------------------------------
// The handler's state.
/// Model of the keyboard handler.
pub struct KeyboardModel {
    /// The input reports read, by report id.
    pub input_reports: Map<Option<u32>, KeyboardReportModel>,
    /// The output reports of LEDs.
    pub output_builders: Seq<OutputBuilderModel>,
    /// Reports start with a report id.
    pub report_id_present: bool,
    /// The keys held at the previous report.
    pub last_keys: Set<u32>,
    /// The keys held at the current report.
    pub current_keys: Set<u32>,
    /// The LEDs that are lit.
    pub led_state: Set<u32>,
    /// The key queue.
    pub key_queue: KeyQueueModel,
    /// The key notification callbacks by handle: the key registered and the callback.
    pub notification_callbacks: Map<usize, (KeyData, usize)>,
    /// The last handle given to a key notification.
    pub next_notify_handle: usize,
    /// The output reports to send, oldest first.
    pub pending_output_reports: Seq<(Option<u32>, Seq<u8>)>,
    /// A keystroke asked for a system reset.
    pub reset_requested: bool,
    /// Keys wait for their notifications.
    pub key_notify_pending: bool,
}

/// Every report the handler reads and builds has fields it can read and write.
pub open spec fn keyboard_wf(m: KeyboardModel) -> bool {
    &&& forall|id: Option<u32>| #[trigger] m.input_reports.contains_key(id) ==> readable_report(m.input_reports[id])
    &&& forall|i: int| 0 <= i < m.output_builders.len() ==> writable_builder(#[trigger] m.output_builders[i])
}

/// The handler after reading the input reports `reports`, and whether each had a report id where
/// the descriptor has several reports.
pub open spec fn with_input_reports(m: KeyboardModel, reports: Seq<ReportModel>, multiple: bool) -> (
    KeyboardModel,
    bool,
)
    decreases reports.len(),
{
    if reports.len() == 0 {
        (m, true)
    } else {
        let r = reports[0];
        let m1 = KeyboardModel { report_id_present: r.report_id is Some, ..m };
        if multiple && r.report_id is None {
            (m1, false)
        } else {
            let d = keyboard_report(r);
            let m2 = if d.variable_fields.len() > 0 || d.array_fields.len() > 0 {
                KeyboardModel { input_reports: m1.input_reports.insert(r.report_id, d), ..m1 }
            } else {
                m1
            };
            with_input_reports(m2, reports.drop_first(), multiple)
        }
    }
}

/// The handler after reading the output reports `reports`, and whether each had a report id where
/// the descriptor has several reports.
pub open spec fn with_output_reports(m: KeyboardModel, reports: Seq<ReportModel>, multiple: bool) -> (
    KeyboardModel,
    bool,
)
    decreases reports.len(),
{
    if reports.len() == 0 {
        (m, true)
    } else {
        let r = reports[0];
        let m1 = KeyboardModel { report_id_present: r.report_id is Some, ..m };
        if multiple && r.report_id is None {
            (m1, false)
        } else {
            let b = output_builder(r);
            let m2 = if b.fields.len() > 0 {
                KeyboardModel { output_builders: m1.output_builders.push(b), ..m1 }
            } else {
                m1
            };
            with_output_reports(m2, reports.drop_first(), multiple)
        }
    }
}

/// The handler after reading a report descriptor, and the result: a device error where several
/// reports are described and one has no report id, unsupported where no report holds keys or
/// LEDs.
pub open spec fn process_descriptor_spec(m: KeyboardModel, d: ReportDescriptorModel) -> (
    KeyboardModel,
    Result<(), HidError>,
) {
    let multiple = d.input_reports.len() > 1 || d.output_reports.len() > 1 || d.features.len() > 1;
    let (m1, ok1) = with_input_reports(m, d.input_reports, multiple);
    if !ok1 {
        (m1, Err(HidError::DeviceError))
    } else {
        let (m2, ok2) = with_output_reports(m1, d.output_reports, multiple);
        if !ok2 {
            (m2, Err(HidError::DeviceError))
        } else if m2.input_reports.len() > 0 || m2.output_builders.len() > 0 {
            (m2, Ok(()))
        } else {
            (m2, Err(HidError::Unsupported))
        }
    }
}

// ---------------------------------------------------------------------------------------------
// The keys a report holds, and the LED reports.
/// A variable field of a modifier key reads a non-zero value: the key is held.
pub open spec fn variable_field_pressed(f: VariableField, body: Seq<u8>) -> bool {
    match field_value_of(f.bits_start, f.bits_end, f.logical_minimum, f.logical_maximum, body) {
        Some(x) => x != 0,
        None => false,
    }
}

/// `a - b` as wrapping subtraction of 32-bit values computes it.
pub open spec fn wrapping_diff(a: u32, b: u32) -> int {
    if a >= b {
        a - b
    } else {
        a - b + 0x1_0000_0000
    }
}

/// The usage that an index selects in a list of usage ranges: the ranges are taken in turn; where
/// the index is at most the range's size, the range gives its usage at the index if it has one, and
/// the next range is taken with the same index otherwise; where the index is larger, it is reduced
/// by the range's size and the next range taken.
pub open spec fn usage_at_index(ranges: Seq<(u32, u32)>, index: int) -> Option<u32>
    decreases ranges.len(),
{
    if ranges.len() == 0 {
        None
    } else {
        let start = ranges[0].0;
        let end = ranges[0].1;
        let size = wrapping_diff(end, start);
        if index <= size {
            if start + index <= end {
                Some((start + index) as u32)
            } else {
                usage_at_index(ranges.drop_first(), index)
            }
        } else {
            usage_at_index(ranges.drop_first(), index - size)
        }
    }
}

/// The usage an array field of keys holds: its non-zero value, less the logical minimum, indexes
/// the field's usage ranges.
pub open spec fn array_value_usage(a: ArrayFieldModel, value: Option<i64>) -> Option<u32> {
    match value {
        Some(x) => if x != 0 {
            usage_at_index(a.usage_list, wrapping_diff(x as u32, a.logical_minimum as u32))
        } else {
            None
        },
        None => None,
    }
}

/// The usage an array field of keys holds in a report.
pub open spec fn array_field_usage(a: ArrayFieldModel, body: Seq<u8>) -> Option<u32> {
    array_value_usage(
        a,
        field_value_of(a.bits_start, a.bits_end, a.logical_minimum, a.logical_maximum, body),
    )
}

/// The modifier keys that variable fields show held in a report.
pub open spec fn variable_keys(fields: Seq<VariableField>, body: Seq<u8>) -> Set<u32> {
    Set::new(
        |u: u32|
            exists|i: int|
                0 <= i < fields.len() && #[trigger] fields[i].usage == u && variable_field_pressed(
                    fields[i],
                    body,
                ),
    )
}

/// The keys that array fields show held in a report.
pub open spec fn array_keys(fields: Seq<ArrayFieldModel>, body: Seq<u8>) -> Set<u32> {
    Set::new(
        |u: u32| exists|i: int| 0 <= i < fields.len() && array_field_usage(#[trigger] fields[i], body) == Some(u),
    )
}

/// The keys an input report shows held.
pub open spec fn pressed_usages(d: KeyboardReportModel, body: Seq<u8>) -> Set<u32> {
    variable_keys(d.variable_fields, body).union(array_keys(d.array_fields, body))
}

/// The queue after keystrokes of the given usages in turn, and whether one asked for a system
/// reset (the keystrokes after it are not made).
pub open spec fn keystrokes(q: KeyQueueModel, usages: Seq<u32>, action: KeyAction) -> (
    KeyQueueModel,
    bool,
)
    decreases usages.len(),
{
    if usages.len() == 0 {
        (q, false)
    } else {
        let (q1, reset) = keystroke_spec(q, usages[0], action);
        if reset {
            (q1, true)
        } else {
            keystrokes(q1, usages.drop_first(), action)
        }
    }
}

/// The value an LED field is set to: one where the LED is lit.
pub open spec fn led_value(leds: Set<u32>, usage: u32) -> i64 {
    if leds.contains(usage) {
        1
    } else {
        0
    }
}

/// A report after each LED field in turn is set to its LED's state, where `hidparser` accepts the
/// value.
pub open spec fn led_report(fields: Seq<VariableField>, leds: Set<u32>, report: Seq<u8>) -> Seq<u8>
    decreases fields.len(),
{
    if fields.len() == 0 {
        report
    } else {
        let f = fields[0];
        let v = led_value(leds, f.usage);
        let next = if can_set_field_value(f, v, report.len() as int) {
            field_with_value(f.bits_start, f.bits_end, v, report)
        } else {
            report
        };
        led_report(fields.drop_first(), leds, next)
    }
}

/// A zeroed report of `n` bytes.
pub open spec fn zeroed(n: usize) -> Seq<u8> {
    Seq::new(n as nat, |i: int| 0u8)
}

/// The LED reports of the output reports: each starts zeroed and has its LED fields set.
pub open spec fn led_reports(builders: Seq<OutputBuilderModel>, leds: Set<u32>) -> Seq<(Option<u32>, Seq<u8>)> {
    builders.map_values(
        |b: OutputBuilderModel| (b.report_id, led_report(b.fields, leds, zeroed(b.report_size))),
    )
}

/// The handler after the LEDs the key queue shows are compared with those lit, and the reports to
/// send: where they differ, the LEDs are lit anew and each output report is built.
pub open spec fn update_leds_spec(m: KeyboardModel) -> (KeyboardModel, Seq<(Option<u32>, Seq<u8>)>) {
    let leds = active_leds(m.key_queue.active_modifiers).to_set();
    if leds == m.led_state {
        (m, Seq::empty())
    } else {
        (KeyboardModel { led_state: leds, ..m }, led_reports(m.output_builders, leds))
    }
}

/// The report id and the rest of a report: the id is its first byte where reports carry one.
pub open spec fn split_report(m: KeyboardModel, report: Seq<u8>) -> (Option<u32>, Seq<u8>) {
    if m.report_id_present {
        (Some(report[0] as u32), report.skip(1))
    } else {
        (None, report)
    }
}

/// The handler after an input report. A report of a known id and size sets the keys held; where
/// they changed, the released keys, then the pressed keys, each from the highest usage down, are
/// keystrokes; then keys waiting for notifications are signalled and the LEDs updated, and the held
/// keys kept for the next report. A keystroke that asks for a system reset ends the processing.
pub open spec fn receive_report_spec(m: KeyboardModel, report: Seq<u8>) -> KeyboardModel {
    if report.len() == 0 {
        m
    } else {
        let (id, body) = split_report(m, report);
        if body.len() == 0 || !m.input_reports.contains_key(id) || body.len()
            != m.input_reports[id].report_size {
            m
        } else {
            let current = pressed_usages(m.input_reports[id], body);
            let m1 = KeyboardModel { current_keys: current, ..m };
            if current == m.last_keys {
                KeyboardModel { last_keys: current, ..m1 }
            } else {
                let (q1, r1) = keystrokes(
                    m.key_queue,
                    descending(m.last_keys.difference(current)),
                    KeyAction::KeyUp,
                );
                if r1 {
                    KeyboardModel { key_queue: q1, reset_requested: true, ..m1 }
                } else {
                    let (q2, r2) = keystrokes(
                        q1,
                        descending(current.difference(m.last_keys)),
                        KeyAction::KeyDown,
                    );
                    if r2 {
                        KeyboardModel { key_queue: q2, reset_requested: true, ..m1 }
                    } else {
                        let m2 = KeyboardModel {
                            key_queue: q2,
                            key_notify_pending: m.key_notify_pending || q2.notified_key_queue.len()
                                > 0,
                            ..m1
                        };
                        let (m3, outputs) = update_leds_spec(m2);
                        KeyboardModel {
                            last_keys: current,
                            pending_output_reports: m.pending_output_reports + outputs,
                            ..m3
                        }
                    }
                }
            }
        }
    }
}

/// A report received again right after itself makes no keystroke: keys held down do not repeat,
/// and the queue of keys is left as the first report left it.
pub proof fn law_repeated_report_makes_no_keystroke(m: KeyboardModel, report: Seq<u8>)
    requires
        !receive_report_spec(m, report).reset_requested,
    ensures
        receive_report_spec(receive_report_spec(m, report), report).key_queue == receive_report_spec(
            m,
            report,
        ).key_queue,
        receive_report_spec(receive_report_spec(m, report), report).pending_output_reports
            == receive_report_spec(m, report).pending_output_reports,
{
    let m1 = receive_report_spec(m, report);
    if report.len() > 0 {
        let (id, body) = split_report(m, report);
        assert(split_report(m1, report) == (id, body));
        if !(body.len() == 0 || !m.input_reports.contains_key(id) || body.len()
            != m.input_reports[id].report_size) {
            assert(m1.input_reports == m.input_reports);
            assert(m1.last_keys == pressed_usages(m.input_reports[id], body));
        }
    }
}

// ---------------------------------------------------------------------------------------------
// The handler.
/// An input report the handler reads, and its fields of interest.
pub struct KeyboardReportData {
    pub report_id: Option<u32>,
    pub report_size: usize,
    pub relevant_variable_fields: Vec<VariableField>,
    pub relevant_array_fields: Vec<ArrayField>,
}

impl View for KeyboardReportData {
    type V = KeyboardReportModel;

    open spec fn view(&self) -> KeyboardReportModel {
        KeyboardReportModel {
            report_id: self.report_id,
            report_size: self.report_size,
            variable_fields: self.relevant_variable_fields@,
            array_fields: self.relevant_array_fields@.map_values(|a: ArrayField| a@),
        }
    }
}

impl KeyboardReportData {
    /// A copy of this report data.
    pub fn duplicate(&self) -> (r: KeyboardReportData)
        ensures
            r@ == self@,
    {
        let mut vars: Vec<VariableField> = Vec::new();
        let mut i: usize = 0;
        while i < self.relevant_variable_fields.len()
            invariant
                0 <= i <= self.relevant_variable_fields@.len(),
                vars@ == self.relevant_variable_fields@.take(i as int),
            decreases self.relevant_variable_fields@.len() - i,
        {
            vars.push(self.relevant_variable_fields[i]);
            i = i + 1;
            assert(vars@ =~= self.relevant_variable_fields@.take(i as int));
        }
        let mut arrays: Vec<ArrayField> = Vec::new();
        let mut j: usize = 0;
        while j < self.relevant_array_fields.len()
            invariant
                0 <= j <= self.relevant_array_fields@.len(),
                arrays@.len() == j,
                forall|t: int| 0 <= t < j ==> (#[trigger] arrays@[t])@ == self.relevant_array_fields@[t]@,
            decreases self.relevant_array_fields@.len() - j,
        {
            arrays.push(self.relevant_array_fields[j].duplicate());
            j = j + 1;
        }
        assert(vars@ =~= self.relevant_variable_fields@);
        assert(arrays@.map_values(|a: ArrayField| a@) =~= self.relevant_array_fields@.map_values(
            |a: ArrayField| a@,
        ));
        KeyboardReportData {
            report_id: self.report_id,
            report_size: self.report_size,
            relevant_variable_fields: vars,
            relevant_array_fields: arrays,
        }
    }
}

/// An output report the handler builds, and its LED fields.
pub struct KeyboardOutputReportBuilder {
    pub report_id: Option<u32>,
    pub report_size: usize,
    pub relevant_variable_fields: Vec<VariableField>,
}

impl View for KeyboardOutputReportBuilder {
    type V = OutputBuilderModel;

    open spec fn view(&self) -> OutputBuilderModel {
        OutputBuilderModel {
            report_id: self.report_id,
            report_size: self.report_size,
            fields: self.relevant_variable_fields@,
        }
    }
}

/// The keyboard handler of a HID device.
pub struct KeyboardHidHandler {
    input_reports: BTreeMap<Option<u32>, KeyboardReportData>,
    output_builders: Vec<KeyboardOutputReportBuilder>,
    report_id_present: bool,
    last_keys: BTreeSet<u32>,
    current_keys: BTreeSet<u32>,
    led_state: BTreeSet<u32>,
    key_queue: KeyQueue,
    notification_callbacks: BTreeMap<usize, (KeyData, usize)>,
    next_notify_handle: usize,
    pending_output_reports: Vec<(Option<u32>, Vec<u8>)>,
    reset_requested: bool,
    key_notify_pending: bool,
    received: Ghost<Seq<Seq<u8>>>,
}

impl View for KeyboardHidHandler {
    type V = KeyboardModel;

    closed spec fn view(&self) -> KeyboardModel {
        KeyboardModel {
            input_reports: self.input_reports@.map_values(|d: KeyboardReportData| d@),
            output_builders: self.output_builders@.map_values(|b: KeyboardOutputReportBuilder| b@),
            report_id_present: self.report_id_present,
            last_keys: self.last_keys@,
            current_keys: self.current_keys@,
            led_state: self.led_state@,
            key_queue: self.key_queue@,
            notification_callbacks: self.notification_callbacks@,
            next_notify_handle: self.next_notify_handle,
            pending_output_reports: self.pending_output_reports@.map_values(
                |o: (Option<u32>, Vec<u8>)| (o.0, o.1@),
            ),
            reset_requested: self.reset_requested,
            key_notify_pending: self.key_notify_pending,
        }
    }
}

impl KeyboardHidHandler {
    /// The handler's queue of keystrokes.
    pub fn key_queue(&self) -> (r: &KeyQueue)
        ensures
            r@ == self@.key_queue,
    {
        &self.key_queue
    }

    /// The handler's queue of keystrokes, to work on: whatever is done to it is all that changes
    /// of the handler.
    pub fn key_queue_mut(&mut self) -> (r: &mut KeyQueue)
        ensures
            r@ == old(self)@.key_queue,
            final(self)@ == (KeyboardModel { key_queue: final(r)@, ..old(self)@ }),
    {
        &mut self.key_queue
    }
}

/// The fields of interest of an input report.
fn keyboard_report_data(report: &Report) -> (d: KeyboardReportData)
    ensures
        d@ == keyboard_report(report@),
{
    let ghost fields = report@.fields;
    assert(fields.skip(0) =~= fields);
    let mut vars: Vec<VariableField> = Vec::new();
    let mut arrays: Vec<ArrayField> = Vec::new();
    let mut i: usize = 0;
    while i < report.fields.len()
        invariant
            0 <= i <= report.fields@.len(),
            fields == report@.fields,
            modifier_fields(fields) == vars@ + modifier_fields(fields.skip(i as int)),
            key_array_fields(fields) == arrays@.map_values(|a: ArrayField| a@) + key_array_fields(
                fields.skip(i as int),
            ),
        decreases report.fields@.len() - i,
    {
        let ghost rest = fields.skip(i as int);
        let ghost old_vars = vars@;
        let ghost old_arrays = arrays@.map_values(|a: ArrayField| a@);
        proof {
            assert(rest.drop_first() =~= fields.skip(i + 1));
            assert(rest[0] == report.fields@[i as int]@);
        }
        match &report.fields[i] {
            ReportField::Variable(f) => {
                if KEYBOARD_MODIFIER_USAGE_MIN <= f.usage && f.usage <= KEYBOARD_MODIFIER_USAGE_MAX {
                    vars.push(*f);
                    assert(old_vars + (seq![*f] + modifier_fields(fields.skip(i + 1))) =~= vars@
                        + modifier_fields(fields.skip(i + 1)));
                }
            },
            ReportField::Array(a) => {
                if array_has_keys(a) {
                    arrays.push(a.duplicate());
                    assert(arrays@.map_values(|a: ArrayField| a@) =~= old_arrays.push(a@));
                    assert(old_arrays + (seq![a@] + key_array_fields(fields.skip(i + 1))) =~= arrays@.map_values(
                        |a: ArrayField| a@,
                    ) + key_array_fields(fields.skip(i + 1)));
                }
            },
            ReportField::Padding => {},
        }
        i = i + 1;
    }
    proof {
        assert(fields.skip(i as int) =~= Seq::<ReportFieldModel>::empty());
        assert(vars@ + Seq::<VariableField>::empty() =~= vars@);
        assert(arrays@.map_values(|a: ArrayField| a@) + Seq::<ArrayFieldModel>::empty() =~= arrays@.map_values(
            |a: ArrayField| a@,
        ));
    }
    KeyboardReportData {
        report_id: report.report_id,
        report_size: report_bytes(report.size_in_bits),
        relevant_variable_fields: vars,
        relevant_array_fields: arrays,
    }
}

/// Whether an array field's usage ranges hold a key.
fn array_has_keys(a: &ArrayField) -> (r: bool)
    ensures
        r == is_key_array(a@),
{
    let mut i: usize = 0;
    while i < a.usage_list.len()
        invariant
            0 <= i <= a.usage_list@.len(),
            forall|j: int| 0 <= j < i ==> !range_has_keys(#[trigger] a.usage_list@[j]),
        decreases a.usage_list@.len() - i,
    {
        let (start, end) = a.usage_list[i];
        if (start <= KEYBOARD_USAGE_MIN && KEYBOARD_USAGE_MIN <= end) || (start <= KEYBOARD_USAGE_MAX
            && KEYBOARD_USAGE_MAX <= end) {
            assert(range_has_keys(a@.usage_list[i as int]));
            return true;
        }
        i = i + 1;
    }
    false
}

/// The LED fields of an output report.
fn output_report_builder(report: &Report) -> (b: KeyboardOutputReportBuilder)
    ensures
        b@ == output_builder(report@),
{
    let ghost fields = report@.fields;
    assert(fields.skip(0) =~= fields);
    let mut leds: Vec<VariableField> = Vec::new();
    let mut i: usize = 0;
    while i < report.fields.len()
        invariant
            0 <= i <= report.fields@.len(),
            fields == report@.fields,
            led_fields(fields) == leds@ + led_fields(fields.skip(i as int)),
        decreases report.fields@.len() - i,
    {
        let ghost rest = fields.skip(i as int);
        let ghost old_leds = leds@;
        proof {
            assert(rest.drop_first() =~= fields.skip(i + 1));
            assert(rest[0] == report.fields@[i as int]@);
        }
        match &report.fields[i] {
            ReportField::Variable(f) => {
                if LED_USAGE_MIN <= f.usage && f.usage <= LED_USAGE_MAX {
                    leds.push(*f);
                    assert(old_leds + (seq![*f] + led_fields(fields.skip(i + 1))) =~= leds@
                        + led_fields(fields.skip(i + 1)));
                }
            },
            _ => {},
        }
        i = i + 1;
    }
    proof {
        assert(fields.skip(i as int) =~= Seq::<ReportFieldModel>::empty());
        assert(leds@ + Seq::<VariableField>::empty() =~= leds@);
    }
    KeyboardOutputReportBuilder {
        report_id: report.report_id,
        report_size: report_bytes(report.size_in_bits),
        relevant_variable_fields: leds,
    }
}

/// Whether the fields of interest of an input report can be read.
fn report_data_readable(d: &KeyboardReportData) -> (r: bool)
    ensures
        r == readable_report(d@),
{
    let mut i: usize = 0;
    while i < d.relevant_variable_fields.len()
        invariant
            0 <= i <= d.relevant_variable_fields@.len(),
            forall|j: int|
                0 <= j < i ==> readable_bits(
                    #[trigger] d@.variable_fields[j].bits_start,
                    d@.variable_fields[j].bits_end,
                    d@.variable_fields[j].logical_minimum,
                ),
        decreases d.relevant_variable_fields@.len() - i,
    {
        let f = &d.relevant_variable_fields[i];
        if !bits_readable(f.bits_start, f.bits_end, f.logical_minimum) {
            assert(d@.variable_fields[i as int].bits_start == f.bits_start);
            return false;
        }
        i = i + 1;
    }
    let mut k: usize = 0;
    while k < d.relevant_array_fields.len()
        invariant
            0 <= k <= d.relevant_array_fields@.len(),
            forall|j: int|
                0 <= j < d@.variable_fields.len() ==> readable_bits(
                    #[trigger] d@.variable_fields[j].bits_start,
                    d@.variable_fields[j].bits_end,
                    d@.variable_fields[j].logical_minimum,
                ),
            forall|j: int|
                0 <= j < k ==> readable_bits(
                    #[trigger] d@.array_fields[j].bits_start,
                    d@.array_fields[j].bits_end,
                    d@.array_fields[j].logical_minimum,
                ),
        decreases d.relevant_array_fields@.len() - k,
    {
        let a = &d.relevant_array_fields[k];
        assert(d@.array_fields[k as int] == a@);
        if !bits_readable(a.bits_start, a.bits_end, a.logical_minimum) {
            assert(d@.array_fields[k as int].bits_start == a.bits_start);
            return false;
        }
        k = k + 1;
    }
    true
}

/// Whether the LED fields of an output report can be written.
fn builder_writable(b: &KeyboardOutputReportBuilder) -> (r: bool)
    ensures
        r == writable_builder(b@),
{
    let mut i: usize = 0;
    while i < b.relevant_variable_fields.len()
        invariant
            0 <= i <= b.relevant_variable_fields@.len(),
            forall|j: int|
                0 <= j < i ==> writable_bits(#[trigger] b@.fields[j].bits_start, b@.fields[j].bits_end),
        decreases b.relevant_variable_fields@.len() - i,
    {
        let f = &b.relevant_variable_fields[i];
        if !bits_writable(f.bits_start, f.bits_end) {
            assert(b@.fields[i as int].bits_start == f.bits_start);
            return false;
        }
        i = i + 1;
    }
    true
}

/// A handler without reports, keys or notifications.
pub open spec fn new_keyboard() -> KeyboardModel {
    KeyboardModel {
        input_reports: Map::empty(),
        output_builders: Seq::empty(),
        report_id_present: false,
        last_keys: Set::empty(),
        current_keys: Set::empty(),
        led_state: Set::empty(),
        key_queue: crate::key_queue::empty_key_queue(),
        notification_callbacks: Map::empty(),
        next_notify_handle: 0,
        pending_output_reports: Seq::empty(),
        reset_requested: false,
        key_notify_pending: false,
    }
}

impl KeyboardHidHandler {
    /// Whether the handler can read and write the fields of interest of a report descriptor: what
    /// keeps a handler that reads it able to receive reports and build LED reports.
    pub fn descriptor_readable(descriptor: &ReportDescriptor) -> (r: bool)
        ensures
            r == keyboard_descriptor_ok(descriptor@),
    {
        let mut i: usize = 0;
        while i < descriptor.input_reports.len()
            invariant
                0 <= i <= descriptor.input_reports@.len(),
                forall|j: int|
                    0 <= j < i ==> readable_report(
                        keyboard_report(#[trigger] descriptor@.input_reports[j]),
                    ),
            decreases descriptor.input_reports@.len() - i,
        {
            let d = keyboard_report_data(&descriptor.input_reports[i]);
            assert(descriptor@.input_reports[i as int] == descriptor.input_reports@[i as int]@);
            if !report_data_readable(&d) {
                return false;
            }
            i = i + 1;
        }
        let mut k: usize = 0;
        while k < descriptor.output_reports.len()
            invariant
                0 <= k <= descriptor.output_reports@.len(),
                forall|j: int|
                    0 <= j < descriptor@.input_reports.len() ==> readable_report(
                        keyboard_report(#[trigger] descriptor@.input_reports[j]),
                    ),
                forall|j: int|
                    0 <= j < k ==> writable_builder(
                        output_builder(#[trigger] descriptor@.output_reports[j]),
                    ),
            decreases descriptor.output_reports@.len() - k,
        {
            let b = output_report_builder(&descriptor.output_reports[k]);
            assert(descriptor@.output_reports[k as int] == descriptor.output_reports@[k as int]@);
            if !builder_writable(&b) {
                return false;
            }
            k = k + 1;
        }
        true
    }
}

impl KeyboardHidHandler {
    /// A handler without reports, keys or notifications.
    pub fn new() -> (h: KeyboardHidHandler)
        ensures
            h@ == new_keyboard(),
            h.well_formed(),
    {
        let h = KeyboardHidHandler {
            input_reports: BTreeMap::new(),
            output_builders: Vec::new(),
            report_id_present: false,
            last_keys: BTreeSet::new(),
            current_keys: BTreeSet::new(),
            led_state: BTreeSet::new(),
            key_queue: KeyQueue::new(),
            notification_callbacks: BTreeMap::new(),
            next_notify_handle: 0,
            pending_output_reports: Vec::new(),
            reset_requested: false,
            key_notify_pending: false,
            received: Ghost(Seq::empty()),
        };
        assert(h@.input_reports =~= Map::empty());
        assert(h@.output_builders =~= Seq::empty());
        assert(h@.pending_output_reports =~= Seq::empty());
        h
    }

    /// Reads a report descriptor: the input reports with modifier or key fields, and the output
    /// reports with LED fields. Fails with a device error where several reports are described and
    /// one has no report id, and as unsupported where no report has such fields.
    #[verifier::loop_isolation(false)]
    pub fn process_descriptor(&mut self, descriptor: &ReportDescriptor) -> (r: Result<(), HidError>)
        ensures
            (final(self)@, r) == process_descriptor_spec(old(self)@, descriptor@),
            old(self).well_formed() && keyboard_descriptor_ok(descriptor@) ==> final(self).well_formed(),
    {
        let ghost readable = old(self).well_formed() && keyboard_descriptor_ok(descriptor@);
        let ghost d = descriptor@;
        assert(d.input_reports.skip(0) =~= d.input_reports);
        assert(d.output_reports.skip(0) =~= d.output_reports);
        let multiple = descriptor.input_reports.len() > 1 || descriptor.output_reports.len() > 1
            || descriptor.features.len() > 1;
        let mut i: usize = 0;
        while i < descriptor.input_reports.len()
            invariant
                0 <= i <= d.input_reports.len(),
                d == descriptor@,
                readable == (keyboard_wf(old(self)@) && keyboard_descriptor_ok(d)),
                readable ==> self.well_formed(),
                with_input_reports(old(self)@, d.input_reports, multiple) == with_input_reports(
                    self@,
                    d.input_reports.skip(i as int),
                    multiple,
                ),
            decreases d.input_reports.len() - i,
        {
            let report = &descriptor.input_reports[i];
            proof {
                assert(d.input_reports.skip(i as int)[0] == report@);
                assert(d.input_reports.skip(i as int).drop_first() =~= d.input_reports.skip(i + 1));
                if readable {
                    assert(readable_report(keyboard_report(d.input_reports[i as int])));
                }
            }
            self.report_id_present = report.report_id.is_some();
            if multiple && !self.report_id_present {
                return Err(HidError::DeviceError);
            }
            let data = keyboard_report_data(report);
            if data.relevant_variable_fields.len() > 0 || data.relevant_array_fields.len() > 0 {
                let id = data.report_id;
                let ghost dm = data@;
                let ghost before = self@;
                self.input_reports.insert(id, data);
                assert(self@.input_reports =~= before.input_reports.insert(id, dm));
            }
            i = i + 1;
        }
        assert(d.input_reports.skip(i as int) =~= Seq::<ReportModel>::empty());
        let mut j: usize = 0;
        while j < descriptor.output_reports.len()
            invariant
                0 <= j <= d.output_reports.len(),
                d == descriptor@,
                readable == (keyboard_wf(old(self)@) && keyboard_descriptor_ok(d)),
                readable ==> self.well_formed(),
                with_output_reports(with_input_reports(old(self)@, d.input_reports, multiple).0, d.output_reports, multiple)
                    == with_output_reports(self@, d.output_reports.skip(j as int), multiple),
            decreases d.output_reports.len() - j,
        {
            let report = &descriptor.output_reports[j];
            proof {
                assert(d.output_reports.skip(j as int)[0] == report@);
                assert(d.output_reports.skip(j as int).drop_first() =~= d.output_reports.skip(j + 1));
                if readable {
                    assert(writable_builder(output_builder(d.output_reports[j as int])));
                }
            }
            self.report_id_present = report.report_id.is_some();
            if multiple && !self.report_id_present {
                return Err(HidError::DeviceError);
            }
            let builder = output_report_builder(report);
            if builder.relevant_variable_fields.len() > 0 {
                let ghost before = self@;
                let ghost bm = builder@;
                self.output_builders.push(builder);
                assert(self@.output_builders =~= before.output_builders.push(bm));
            }
            j = j + 1;
        }
        assert(d.output_reports.skip(j as int) =~= Seq::<ReportModel>::empty());
        assert(self@.input_reports.dom() =~= self.input_reports@.dom());
        if self.input_reports.len() > 0 || self.output_builders.len() > 0 {
            Ok(())
        } else {
            Err(HidError::Unsupported)
        }
    }
}

/// The LED fields of an output report set to the state of the LEDs lit.
fn build_led_report(field: &VariableField, led_state: &BTreeSet<u32>, report: &mut [u8])
    requires
        writable_bits(field.bits_start, field.bits_end),
    ensures
        final(report)@ == (if can_set_field_value(
            *field,
            led_value(led_state@, field.usage),
            old(report)@.len() as int,
        ) {
            field_with_value(
                field.bits_start,
                field.bits_end,
                led_value(led_state@, field.usage),
                old(report)@,
            )
        } else {
            old(report)@
        }),
{
    let value: i64 = if led_state.contains(&field.usage) {
        1
    } else {
        0
    };
    let _ = set_variable_field_value(field, value, report);
}

/// A buffer of `n` zero bytes.
fn zeroed_buffer(n: usize) -> (v: Vec<u8>)
    ensures
        v@ == zeroed(n),
{
    let mut v: Vec<u8> = Vec::new();
    let mut i: usize = 0;
    while i < n
        invariant
            0 <= i <= n,
            v@ == zeroed(i),
        decreases n - i,
    {
        v.push(0u8);
        i = i + 1;
        assert(v@ =~= zeroed(i));
    }
    v
}

/// A report of `size` zero bytes with each LED field set in turn.
fn build_output_report(builder: &KeyboardOutputReportBuilder, led_state: &BTreeSet<u32>) -> (r: Vec<u8>)
    requires
        writable_builder(builder@),
    ensures
        r@ == led_report(builder@.fields, led_state@, zeroed(builder.report_size)),
{
    let mut buffer: Vec<u8> = zeroed_buffer(builder.report_size);
    let ghost fields = builder@.fields;
    assert(fields.skip(0) =~= fields);
    let mut i: usize = 0;
    while i < builder.relevant_variable_fields.len()
        invariant
            0 <= i <= fields.len(),
            fields == builder@.fields,
            writable_builder(builder@),
            led_report(fields, led_state@, zeroed(builder.report_size)) == led_report(
                fields.skip(i as int),
                led_state@,
                buffer@,
            ),
        decreases fields.len() - i,
    {
        proof {
            assert(fields.skip(i as int)[0] == fields[i as int]);
            assert(fields.skip(i as int).drop_first() =~= fields.skip(i + 1));
            assert(writable_bits(fields[i as int].bits_start, fields[i as int].bits_end));
        }
        build_led_report(&builder.relevant_variable_fields[i], led_state, buffer.as_mut_slice());
        i = i + 1;
    }
    assert(fields.skip(i as int) =~= Seq::<VariableField>::empty());
    buffer
}

/// Whether `v` holds a value.
fn vec_contains(v: &Vec<u32>, x: u32) -> (r: bool)
    ensures
        r == v@.contains(x),
{
    let mut i: usize = 0;
    while i < v.len()
        invariant
            0 <= i <= v@.len(),
            forall|j: int| 0 <= j < i ==> v@[j] != x,
        decreases v@.len() - i,
    {
        if v[i] == x {
            assert(v@[i as int] == x);
            return true;
        }
        i = i + 1;
    }
    false
}

/// The usage that a non-zero value of an array field selects in its usage ranges.
#[verifier::loop_isolation(false)]
fn array_index_usage(field: &ArrayField, x: i64) -> (r: Option<u32>)
    requires
        x != 0,
    ensures
        r == array_value_usage(field@, Some(x)),
{
    let ghost ranges = field@.usage_list;
    let start_index: u32 = (x as u32).wrapping_sub(field.logical_minimum as u32);
    assert(start_index as int == wrapping_diff(x as u32, field.logical_minimum as u32));
    assert(ranges.skip(0) =~= ranges);
    let mut index: u32 = start_index;
    let mut i: usize = 0;
    while i < field.usage_list.len()
        invariant
            0 <= i <= ranges.len(),
            ranges == field@.usage_list,
            start_index as int == wrapping_diff(x as u32, field.logical_minimum as u32),
            usage_at_index(ranges, start_index as int) == usage_at_index(
                ranges.skip(i as int),
                index as int,
            ),
        decreases ranges.len() - i,
    {
        let (start, end) = field.usage_list[i];
        proof {
            assert(ranges.skip(i as int)[0] == (start, end));
            assert(ranges.skip(i as int).drop_first() =~= ranges.skip(i + 1));
        }
        let range_size: u32 = end.wrapping_sub(start);
        assert(range_size as int == wrapping_diff(end, start));
        if index <= range_size {
            if (start as u64) + (index as u64) <= (end as u64) {
                return Some(start + index);
            }
        } else {
            index = index - range_size;
        }
        i = i + 1;
    }
    assert(ranges.skip(i as int) =~= Seq::<(u32, u32)>::empty());
    None
}

impl KeyboardHidHandler {
    /// Whether the LEDs lit are those of `leds`.
    fn led_state_is(&self, leds: &Vec<u32>) -> (r: bool)
        ensures
            r == (leds@.to_set() == self@.led_state),
    {
        let lit = crate::usage_set::sorted_elements(&self.led_state);
        let mut i: usize = 0;
        while i < leds.len()
            invariant
                0 <= i <= leds@.len(),
                forall|j: int| 0 <= j < i ==> self.led_state@.contains(#[trigger] leds@[j]),
            decreases leds@.len() - i,
        {
            if !self.led_state.contains(&leds[i]) {
                proof {
                    assert(leds@.to_set().contains(leds@[i as int]));
                }
                return false;
            }
            i = i + 1;
        }
        let mut k: usize = 0;
        while k < lit.len()
            invariant
                0 <= k <= lit@.len(),
                lit@.to_set() == self@.led_state,
                forall|j: int| 0 <= j < k ==> leds@.contains(#[trigger] lit@[j]),
            decreases lit@.len() - k,
        {
            if !vec_contains(leds, lit[k]) {
                proof {
                    assert(lit@.to_set().contains(lit@[k as int]));
                    assert(!leds@.to_set().contains(lit@[k as int]));
                }
                return false;
            }
            k = k + 1;
        }
        proof {
            assert(leds@.to_set() =~= self@.led_state) by {
                assert forall|x: u32| self@.led_state.contains(x) implies leds@.to_set().contains(x) by {
                    assert(lit@.to_set().contains(x));
                    let j = choose|j: int| 0 <= j < lit@.len() && lit@[j] == x;
                    assert(leds@.contains(lit@[j]));
                }
                assert forall|x: u32| leds@.to_set().contains(x) implies self@.led_state.contains(x) by {
                    let j = choose|j: int| 0 <= j < leds@.len() && leds@[j] == x;
                    assert(self.led_state@.contains(leds@[j]));
                }
            }
        }
        true
    }

    /// Compares the LEDs the key queue shows with those lit; where they differ, lights them anew and
    /// returns a report for each output report.
    pub fn generate_led_output_reports(&mut self) -> (r: Vec<(Option<u32>, Vec<u8>)>)
        requires
            keyboard_wf(old(self)@),
        ensures
            final(self)@ == update_leds_spec(old(self)@).0,
            r@.map_values(|o: (Option<u32>, Vec<u8>)| (o.0, o.1@)) == update_leds_spec(old(self)@).1,
            keyboard_wf(final(self)@),
    {
        let leds = self.key_queue.get_active_leds();
        if self.led_state_is(&leds) {
            let r: Vec<(Option<u32>, Vec<u8>)> = Vec::new();
            assert(r@.map_values(|o: (Option<u32>, Vec<u8>)| (o.0, o.1@)) =~= Seq::empty());
            return r;
        }
        let mut state: BTreeSet<u32> = BTreeSet::new();
        let mut i: usize = 0;
        while i < leds.len()
            invariant
                0 <= i <= leds@.len(),
                forall|x: u32|
                    #[trigger] state@.contains(x) <==> exists|j: int| 0 <= j < i && leds@[j] == x,
            decreases leds@.len() - i,
        {
            state.insert(leds[i]);
            proof {
                assert forall|x: u32| #[trigger] state@.contains(x) <==> exists|j: int|
                    0 <= j < i + 1 && leds@[j] == x by {
                    if x == leds@[i as int] {
                        assert(0 <= i < i + 1 && leds@[i as int] == x);
                    }
                }
            }
            i = i + 1;
        }
        assert(state@ =~= leds@.to_set());
        self.led_state = state;
        assert(self@.input_reports == old(self)@.input_reports);
        assert(self@.output_builders == old(self)@.output_builders);
        let ghost builders = self@.output_builders;
        let mut out: Vec<(Option<u32>, Vec<u8>)> = Vec::new();
        let mut k: usize = 0;
        while k < self.output_builders.len()
            invariant
                0 <= k <= builders.len(),
                builders == self@.output_builders,
                keyboard_wf(self@),
                out@.len() == k,
                forall|t: int| 0 <= t < k ==> (#[trigger] out@[t]).0 == builders[t].report_id && out@[t].1@ == led_report(
                    builders[t].fields,
                    self@.led_state,
                    zeroed(builders[t].report_size),
                ),
            decreases builders.len() - k,
        {
            let builder = &self.output_builders[k];
            proof {
                assert(builders[k as int] == builder@);
                assert(writable_builder(builders[k as int]));
            }
            let report = build_output_report(builder, &self.led_state);
            out.push((builder.report_id, report));
            k = k + 1;
        }
        assert(out@.map_values(|o: (Option<u32>, Vec<u8>)| (o.0, o.1@)) =~= led_reports(
            builders,
            self@.led_state,
        ));
        out
    }

    /// Records the key of a variable field whose value was read: a non-zero value shows it held.
    pub fn record_variable_key(&mut self, usage: u32, value: Option<i64>)
        ensures
            final(self)@ == (KeyboardModel {
                current_keys: if value matches Some(x) && x != 0 {
                    old(self)@.current_keys.insert(usage)
                } else {
                    old(self)@.current_keys
                },
                ..old(self)@
            }),
    {
        match value {
            Some(x) => {
                if x != 0 {
                    self.current_keys.insert(usage);
                }
            },
            None => {},
        }
    }

    /// Records the key that the value read of an array field selects, if any.
    pub fn record_array_key(&mut self, field: &ArrayField, value: Option<i64>)
        ensures
            final(self)@ == (KeyboardModel {
                current_keys: match array_value_usage(field@, value) {
                    Some(u) => old(self)@.current_keys.insert(u),
                    None => old(self)@.current_keys,
                },
                ..old(self)@
            }),
    {
        match value {
            Some(x) => {
                if x != 0 {
                    match array_index_usage(field, x) {
                        Some(usage) => {
                            self.current_keys.insert(usage);
                        },
                        None => {},
                    }
                }
            },
            None => {},
        }
    }

    /// Reads a variable field of a report and records its key.
    fn handle_variable_key(&mut self, field: &VariableField, report: &[u8])
        requires
            readable_bits(field.bits_start, field.bits_end, field.logical_minimum),
        ensures
            final(self)@ == (KeyboardModel {
                current_keys: if variable_field_pressed(*field, report@) {
                    old(self)@.current_keys.insert(field.usage)
                } else {
                    old(self)@.current_keys
                },
                ..old(self)@
            }),
    {
        let value = field_value(field.bits_start, field.bits_end, field.logical_minimum, field.logical_maximum, report);
        self.record_variable_key(field.usage, value);
    }

    /// Reads an array field of a report and records its key.
    fn handle_array_key(&mut self, field: &ArrayField, report: &[u8])
        requires
            readable_bits(field.bits_start, field.bits_end, field.logical_minimum),
        ensures
            final(self)@ == (KeyboardModel {
                current_keys: match array_field_usage(field@, report@) {
                    Some(u) => old(self)@.current_keys.insert(u),
                    None => old(self)@.current_keys,
                },
                ..old(self)@
            }),
    {
        let value = field_value(field.bits_start, field.bits_end, field.logical_minimum, field.logical_maximum, report);
        self.record_array_key(field, value);
    }
}

/// The variable fields of `fields` before `n` show the keys of `variable_keys` of that prefix.
proof fn lemma_variable_keys_step(fields: Seq<VariableField>, body: Seq<u8>, n: int)
    requires
        0 <= n < fields.len(),
    ensures
        variable_keys(fields.take(n + 1), body) == (if variable_field_pressed(fields[n], body) {
            variable_keys(fields.take(n), body).insert(fields[n].usage)
        } else {
            variable_keys(fields.take(n), body)
        }),
{
    let a = fields.take(n);
    let b = fields.take(n + 1);
    let expected = if variable_field_pressed(fields[n], body) {
        variable_keys(a, body).insert(fields[n].usage)
    } else {
        variable_keys(a, body)
    };
    assert forall|u: u32| variable_keys(b, body).contains(u) implies expected.contains(u) by {
        let i = choose|i: int| 0 <= i < b.len() && #[trigger] b[i].usage == u && variable_field_pressed(b[i], body);
        if i < n {
            assert(a[i] == b[i]);
        }
    }
    assert forall|u: u32| expected.contains(u) implies variable_keys(b, body).contains(u) by {
        if variable_keys(a, body).contains(u) {
            let i = choose|i: int| 0 <= i < a.len() && #[trigger] a[i].usage == u && variable_field_pressed(a[i], body);
            assert(b[i] == a[i]);
        } else {
            assert(b[n] == fields[n]);
        }
    }
    assert(variable_keys(b, body) =~= expected);
}

/// The array fields of `fields` before `n` show the keys of `array_keys` of that prefix.
proof fn lemma_array_keys_step(fields: Seq<ArrayFieldModel>, body: Seq<u8>, n: int)
    requires
        0 <= n < fields.len(),
    ensures
        array_keys(fields.take(n + 1), body) == (match array_field_usage(fields[n], body) {
            Some(u) => array_keys(fields.take(n), body).insert(u),
            None => array_keys(fields.take(n), body),
        }),
{
    let a = fields.take(n);
    let b = fields.take(n + 1);
    let expected = match array_field_usage(fields[n], body) {
        Some(u) => array_keys(a, body).insert(u),
        None => array_keys(a, body),
    };
    assert forall|u: u32| array_keys(b, body).contains(u) implies expected.contains(u) by {
        let i = choose|i: int| 0 <= i < b.len() && array_field_usage(#[trigger] b[i], body) == Some(u);
        if i < n {
            assert(a[i] == b[i]);
        }
    }
    assert forall|u: u32| expected.contains(u) implies array_keys(b, body).contains(u) by {
        if array_keys(a, body).contains(u) {
            let i = choose|i: int| 0 <= i < a.len() && array_field_usage(#[trigger] a[i], body) == Some(u);
            assert(b[i] == a[i]);
        } else {
            assert(b[n] == fields[n]);
        }
    }
    assert(array_keys(b, body) =~= expected);
}

impl KeyboardHidHandler {
    /// Processes an input report: see `receive_report_spec`.
    #[verifier::loop_isolation(false)]
    #[verifier::spinoff_prover]
    #[verifier::rlimit(30)]
    fn process_report(&mut self, report: &[u8])
        requires
            old(self).well_formed(),
        ensures
            final(self).well_formed(),
            final(self)@ == receive_report_spec(old(self)@, report@),
    {
        if report.len() == 0 {
            return;
        }
        let (report_id, body): (Option<u32>, &[u8]) = if self.report_id_present {
            let (first, rest) = report.split_at(1);
            (Some(crate::report::report_id_from_byte(first)), rest)
        } else {
            (None, report)
        };
        assert(body@ == split_report(old(self)@, report@).1);
        if body.len() == 0 {
            return;
        }
        let data = match self.input_reports.get(&report_id) {
            Some(d) => d.duplicate(),
            None => {
                return;
            },
        };
        assert(data@ == old(self)@.input_reports[report_id]);
        if body.len() != data.report_size {
            return;
        }
        proof {
            assert(readable_report(data@));
        }
        let ghost m0 = self@;
        self.current_keys.clear();
        assert(variable_keys(data@.variable_fields.take(0), body@) =~= Set::<u32>::empty());
        assert(self@ == (KeyboardModel { current_keys: Set::empty(), ..m0 }));
        let ghost vars = data@.variable_fields;
        let ghost arrays = data@.array_fields;
        let mut i: usize = 0;
        while i < data.relevant_variable_fields.len()
            invariant
                0 <= i <= vars.len(),
                vars == data@.variable_fields,
                readable_report(data@),
                self@ == (KeyboardModel { current_keys: variable_keys(vars.take(i as int), body@), ..m0 }),
            decreases vars.len() - i,
        {
            proof {
                lemma_variable_keys_step(vars, body@, i as int);
                assert(readable_bits(vars[i as int].bits_start, vars[i as int].bits_end, vars[i as int].logical_minimum));
            }
            self.handle_variable_key(&data.relevant_variable_fields[i], body);
            i = i + 1;
        }
        assert(vars.take(i as int) =~= vars);
        assert(array_keys(arrays.take(0), body@) =~= Set::<u32>::empty());
        assert(variable_keys(vars, body@).union(array_keys(arrays.take(0), body@)) =~= variable_keys(vars, body@));
        let mut j: usize = 0;
        while j < data.relevant_array_fields.len()
            invariant
                0 <= j <= arrays.len(),
                arrays == data@.array_fields,
                readable_report(data@),
                self@ == (KeyboardModel {
                    current_keys: variable_keys(vars, body@).union(array_keys(arrays.take(j as int), body@)),
                    ..m0
                }),
            decreases arrays.len() - j,
        {
            proof {
                lemma_array_keys_step(arrays, body@, j as int);
                assert(arrays[j as int] == data.relevant_array_fields@[j as int]@);
                assert(readable_bits(arrays[j as int].bits_start, arrays[j as int].bits_end, arrays[j as int].logical_minimum));
            }
            let ghost before = self@.current_keys;
            self.handle_array_key(&data.relevant_array_fields[j], body);
            proof {
                match array_field_usage(arrays[j as int], body@) {
                    Some(u) => {
                        assert(self@.current_keys =~= variable_keys(vars, body@).union(array_keys(arrays.take(j + 1), body@)));
                    },
                    None => {
                        assert(self@.current_keys =~= variable_keys(vars, body@).union(array_keys(arrays.take(j + 1), body@)));
                    },
                }
            }
            j = j + 1;
        }
        assert(arrays.take(j as int) =~= arrays);
        let ghost current = self@.current_keys;
        assert(current == pressed_usages(data@, body@));
        let last_sorted = crate::usage_set::sorted_elements(&self.last_keys);
        let current_sorted = crate::usage_set::sorted_elements(&self.current_keys);
        let released = crate::usage_set::descending_not_in(&last_sorted, &self.current_keys);
        let pressed = crate::usage_set::descending_not_in(&current_sorted, &self.last_keys);
        proof {
            if released@.len() == 0 && pressed@.len() == 0 {
                assert forall|u: u32| m0.last_keys.contains(u) implies current.contains(u) by {
                    if !current.contains(u) {
                        assert(released@.to_set().contains(u));
                        assert(released@.contains(u));
                    }
                }
                assert forall|u: u32| current.contains(u) implies m0.last_keys.contains(u) by {
                    if !m0.last_keys.contains(u) {
                        assert(pressed@.to_set().contains(u));
                        assert(pressed@.contains(u));
                    }
                }
                assert(current =~= m0.last_keys);
            } else {
                if current == m0.last_keys {
                    if released@.len() > 0 {
                        assert(released@.to_set().contains(released@[0]));
                    } else {
                        assert(pressed@.to_set().contains(pressed@[0]));
                    }
                }
            }
        }
        assert(released@ == descending(m0.last_keys.difference(current)));
        assert(pressed@ == descending(current.difference(m0.last_keys)));
        if released.len() > 0 || pressed.len() > 0 {
            let ghost m1 = self@;
            assert(released@.skip(0) =~= released@);
            let mut k: usize = 0;
            while k < released.len()
                invariant
                    0 <= k <= released@.len(),
                    self@ == (KeyboardModel { key_queue: self@.key_queue, ..m1 }),
                    keystrokes(m1.key_queue, released@, KeyAction::KeyUp) == keystrokes(
                        self@.key_queue,
                        released@.skip(k as int),
                        KeyAction::KeyUp,
                    ),
                decreases released@.len() - k,
            {
                proof {
                    assert(released@.skip(k as int)[0] == released@[k as int]);
                    assert(released@.skip(k as int).drop_first() =~= released@.skip(k + 1));
                }
                if self.key_queue.keystroke(released[k], KeyAction::KeyUp) {
                    self.reset_requested = true;
                    return;
                }
                k = k + 1;
            }
            assert(released@.skip(k as int) =~= Seq::<u32>::empty());
            let ghost m2 = self@;
            assert(pressed@.skip(0) =~= pressed@);
            let mut n: usize = 0;
            while n < pressed.len()
                invariant
                    0 <= n <= pressed@.len(),
                    self@ == (KeyboardModel { key_queue: self@.key_queue, ..m2 }),
                    keystrokes(m2.key_queue, pressed@, KeyAction::KeyDown) == keystrokes(
                        self@.key_queue,
                        pressed@.skip(n as int),
                        KeyAction::KeyDown,
                    ),
                decreases pressed@.len() - n,
            {
                proof {
                    assert(pressed@.skip(n as int)[0] == pressed@[n as int]);
                    assert(pressed@.skip(n as int).drop_first() =~= pressed@.skip(n + 1));
                }
                if self.key_queue.keystroke(pressed[n], KeyAction::KeyDown) {
                    self.reset_requested = true;
                    return;
                }
                n = n + 1;
            }
            assert(pressed@.skip(n as int) =~= Seq::<u32>::empty());
            if self.key_queue.peek_notify_key().is_some() {
                self.key_notify_pending = true;
            }
            let ghost pending = self@.pending_output_reports;
            let mut outputs = self.generate_led_output_reports();
            let ghost outs = outputs@.map_values(|o: (Option<u32>, Vec<u8>)| (o.0, o.1@));
            let ghost raw = self.pending_output_reports@;
            let ghost raw_outs = outputs@;
            self.pending_output_reports.append(&mut outputs);
            assert(self.pending_output_reports@ == raw + raw_outs);
            assert(self@.pending_output_reports =~= pending + outs);
        }
        self.last_keys = self.current_keys.clone();
    }
}

impl HidReportReciever for KeyboardHidHandler {
    open spec fn well_formed(&self) -> bool {
        keyboard_wf(self@)
    }

    closed spec fn received_reports(&self) -> Seq<Seq<u8>> {
        self.received@
    }

    /// Processes an input report: see `receive_report_spec`.
    fn receive_report(&mut self, report: &[u8])
        ensures
            final(self)@ == receive_report_spec(old(self)@, report@),
    {
        let ghost before = self.received@;
        self.process_report(report);
        self.received = Ghost(before.push(report@));
    }
}
// ---------------------------------------------------------------------------------------------
// Requests of the text input protocols.
/// A partial keystroke: a key state without a character or scan code.
pub open spec fn is_partial(k: KeyData) -> bool {
    k.key.unicode_char == 0 && k.key.scan_code == 0
}

/// `i` is the index of the first key of `q` that is not partial.
pub open spec fn is_first_full_key(q: Seq<KeyData>, i: int) -> bool {
    0 <= i < q.len() && !is_partial(q[i]) && forall|j: int| 0 <= j < i ==> is_partial(q[j])
}

/// The control character a letter gives with a control key held: ctrl-a to ctrl-z and ctrl-A to
/// ctrl-Z are 1 to 26.
pub open spec fn control_char(c: u16) -> u16 {
    let c1 = if 0x61 <= c && c <= 0x7a {
        (c - 0x61 + 1) as u16
    } else {
        c
    };
    if 0x41 <= c1 && c1 <= 0x5a {
        (c1 - 0x41 + 1) as u16
    } else {
        c1
    }
}

/// The key the simple text input protocol reads for queued key data: letters typed with a control
/// key held become control characters.
pub open spec fn key_as_read(k: KeyData) -> InputKey {
    if (k.key_state.key_shift_state & (RIGHT_CONTROL_PRESSED | LEFT_CONTROL_PRESSED)) != 0 {
        InputKey { scan_code: k.key.scan_code, unicode_char: control_char(k.key.unicode_char) }
    } else {
        k.key
    }
}

/// The key queue after its first keys are dropped.
pub open spec fn with_queue(q: KeyQueueModel, keys: Seq<KeyData>) -> KeyQueueModel {
    KeyQueueModel { key_queue: keys, ..q }
}

/// The key queue after a reset.
pub open spec fn key_queue_reset(q: KeyQueueModel) -> KeyQueueModel {
    KeyQueueModel {
        active_modifiers: Set::empty(),
        active_ns_key: None,
        partial_key_support_active: false,
        key_queue: Seq::empty(),
        ..q
    }
}

/// `i` is the index of the first entry of `es` that registers key `k` with callback `cb`.
pub open spec fn is_first_registration(es: Seq<(usize, (KeyData, usize))>, k: KeyData, cb: usize, i: int) -> bool {
    0 <= i < es.len() && es[i].1 == (k, cb) && forall|j: int| 0 <= j < i ==> es[j].1 != (k, cb)
}

/// The handle of the registration of key `k` with callback `cb` that has the smallest handle, if any.
pub open spec fn registered_handle(cbs: Map<usize, (KeyData, usize)>, k: KeyData, cb: usize) -> Option<usize> {
    let es = entries_by_key(cbs);
    if exists|i: int| is_first_registration(es, k, cb, i) {
        Some(es[choose|i: int| is_first_registration(es, k, cb, i)].0)
    } else {
        None
    }
}

/// The callbacks of the registrations that key `k` matches, by increasing handle.
pub open spec fn matching_callbacks(es: Seq<(usize, (KeyData, usize))>, k: KeyData) -> Seq<usize>
    decreases es.len(),
{
    if es.len() == 0 {
        Seq::empty()
    } else {
        let rest = matching_callbacks(es.drop_first(), k);
        if matches_registration(k, es[0].1.0) {
            seq![es[0].1.1] + rest
        } else {
            rest
        }
    }
}

impl KeyboardHidHandler {
    /// Resets the keyboard: no keys held, an empty key queue without active modifiers. With
    /// extended verification the LEDs are updated too, and their reports returned.
    pub fn reset(&mut self, extended_verification: bool) -> (r: Vec<(Option<u32>, Vec<u8>)>)
        requires
            keyboard_wf(old(self)@),
        ensures
            ({
                let m1 = KeyboardModel {
                    last_keys: Set::empty(),
                    current_keys: Set::empty(),
                    key_queue: key_queue_reset(old(self)@.key_queue),
                    ..old(self)@
                };
                if extended_verification {
                    final(self)@ == update_leds_spec(m1).0 && r@.map_values(
                        |o: (Option<u32>, Vec<u8>)| (o.0, o.1@),
                    ) == update_leds_spec(m1).1
                } else {
                    final(self)@ == m1 && r@.len() == 0
                }
            }),
            keyboard_wf(final(self)@),
    {
        self.last_keys.clear();
        self.current_keys.clear();
        self.key_queue.reset();
        if extended_verification {
            self.generate_led_output_reports()
        } else {
            Vec::new()
        }
    }

    /// Reads a key for the simple text input protocol: partial keystrokes are dropped, and the
    /// first full key is removed and returned, with a letter typed with a control key held as its
    /// control character. Without a full key, the queue is emptied and nothing is returned.
    pub fn read_key_stroke(&mut self) -> (r: Option<InputKey>)
        ensures
            ({
                let q = old(self)@.key_queue.key_queue;
                if exists|i: int| is_first_full_key(q, i) {
                    let i = choose|i: int| is_first_full_key(q, i);
                    r == Some(key_as_read(q[i])) && final(self)@ == (KeyboardModel {
                        key_queue: with_queue(old(self)@.key_queue, q.skip(i + 1)),
                        ..old(self)@
                    })
                } else {
                    r is None && final(self)@ == (KeyboardModel {
                        key_queue: with_queue(old(self)@.key_queue, Seq::empty()),
                        ..old(self)@
                    })
                }
            }),
    {
        let ghost q = old(self)@.key_queue.key_queue;
        let ghost mut n: int = 0;
        assert(q.skip(0) =~= q);
        assert(with_queue(old(self)@.key_queue, q) == old(self)@.key_queue);
        loop
            invariant
                q == old(self)@.key_queue.key_queue,
                0 <= n <= q.len(),
                forall|j: int| 0 <= j < n ==> is_partial(q[j]),
                self@ == (KeyboardModel {
                    key_queue: with_queue(old(self)@.key_queue, q.skip(n)),
                    ..old(self)@
                }),
            decreases q.len() - n,
        {
            let ghost before = self@.key_queue;
            match self.key_queue.pop_key() {
                Some(k) => {
                    proof {
                        assert(k == q[n]);
                        assert(q.skip(n).drop_first() =~= q.skip(n + 1));
                        n = n + 1;
                    }
                    if k.key.unicode_char == 0 && k.key.scan_code == 0 {
                        continue;
                    }
                    let mut key = k.key;
                    if (k.key_state.key_shift_state & (RIGHT_CONTROL_PRESSED | LEFT_CONTROL_PRESSED))
                        != 0 {
                        if key.unicode_char >= 0x0061 && key.unicode_char <= 0x007a {
                            key.unicode_char = (key.unicode_char - 0x0061) + 1;
                        }
                        if key.unicode_char >= 0x0041 && key.unicode_char <= 0x005a {
                            key.unicode_char = (key.unicode_char - 0x0041) + 1;
                        }
                    }
                    proof {
                        assert(is_first_full_key(q, n - 1));
                        let c = choose|i: int| is_first_full_key(q, i);
                        assert(c == n - 1) by {
                            if c < n - 1 {
                                assert(is_partial(q[c]));
                            }
                            if c > n - 1 {
                                assert(is_partial(q[n - 1]));
                            }
                        }
                    }
                    return Some(key);
                },
                None => {
                    proof {
                        assert(q.skip(n).len() == 0);
                        assert(q.skip(n) =~= Seq::<KeyData>::empty());
                        if exists|i: int| is_first_full_key(q, i) {
                            let c = choose|i: int| is_first_full_key(q, i);
                            assert(is_partial(q[c]));
                        }
                    }
                    return None;
                },
            }
        }
    }

    /// Drops the partial keystrokes at the front of the queue, and returns whether a full key is
    /// then queued.
    pub fn wait_for_key(&mut self) -> (r: bool)
        ensures
            ({
                let q = old(self)@.key_queue.key_queue;
                if exists|i: int| is_first_full_key(q, i) {
                    let i = choose|i: int| is_first_full_key(q, i);
                    r && final(self)@ == (KeyboardModel {
                        key_queue: with_queue(old(self)@.key_queue, q.skip(i)),
                        ..old(self)@
                    })
                } else {
                    !r && final(self)@ == (KeyboardModel {
                        key_queue: with_queue(old(self)@.key_queue, Seq::empty()),
                        ..old(self)@
                    })
                }
            }),
    {
        let ghost q = old(self)@.key_queue.key_queue;
        let ghost mut n: int = 0;
        assert(q.skip(0) =~= q);
        assert(with_queue(old(self)@.key_queue, q) == old(self)@.key_queue);
        loop
            invariant
                q == old(self)@.key_queue.key_queue,
                0 <= n <= q.len(),
                forall|j: int| 0 <= j < n ==> is_partial(q[j]),
                self@ == (KeyboardModel {
                    key_queue: with_queue(old(self)@.key_queue, q.skip(n)),
                    ..old(self)@
                }),
            decreases q.len() - n,
        {
            match self.key_queue.peek_key() {
                Some(k) => {
                    assert(k == q[n]);
                    if k.key.unicode_char == 0 && k.key.scan_code == 0 {
                        let _ = self.key_queue.pop_key();
                        proof {
                            assert(q.skip(n).drop_first() =~= q.skip(n + 1));
                            n = n + 1;
                        }
                    } else {
                        proof {
                            assert(is_first_full_key(q, n));
                            let c = choose|i: int| is_first_full_key(q, i);
                            assert(c == n) by {
                                if c < n {
                                    assert(is_partial(q[c]));
                                }
                                if c > n {
                                    assert(is_partial(q[n]));
                                }
                            }
                        }
                        return true;
                    }
                },
                None => {
                    proof {
                        assert(q.skip(n) =~= Seq::<KeyData>::empty());
                        if exists|i: int| is_first_full_key(q, i) {
                            let c = choose|i: int| is_first_full_key(q, i);
                            assert(is_partial(q[c]));
                        }
                    }
                    return false;
                },
            }
        }
    }

    /// Reads a key for the extended simple text input protocol: the first queued key, removed from
    /// the queue; without one, `Err` carries key data without a key and with the current key state.
    pub fn read_key_stroke_ex(&mut self) -> (r: Result<KeyData, KeyData>)
        ensures
            ({
                let q = old(self)@.key_queue.key_queue;
                if q.len() > 0 {
                    r == Ok::<KeyData, KeyData>(q[0]) && final(self)@ == (KeyboardModel {
                        key_queue: with_queue(old(self)@.key_queue, q.drop_first()),
                        ..old(self)@
                    })
                } else {
                    r == Err::<KeyData, KeyData>(
                        KeyData {
                            key: InputKey { scan_code: 0, unicode_char: 0 },
                            key_state: key_state_of(old(self)@.key_queue.active_modifiers),
                        },
                    ) && final(self)@ == old(self)@
                }
            }),
    {
        match self.key_queue.pop_key() {
            Some(k) => Ok(k),
            None => {
                let state = self.key_queue.init_key_state();
                Err(KeyData { key: InputKey { scan_code: 0, unicode_char: 0 }, key_state: state })
            },
        }
    }

    /// Sets the key toggle state (the locks, and whether partial keystrokes are queued), updates
    /// the LEDs and returns their reports.
    pub fn set_state(&mut self, toggle_state: u8) -> (r: Vec<(Option<u32>, Vec<u8>)>)
        requires
            keyboard_wf(old(self)@),
        ensures
            ({
                let m1 = KeyboardModel {
                    key_queue: KeyQueueModel {
                        active_modifiers: modifiers_with_toggle_state(
                            old(self)@.key_queue.active_modifiers,
                            toggle_state,
                        ),
                        partial_key_support_active: (toggle_state & KEY_STATE_EXPOSED) != 0,
                        ..old(self)@.key_queue
                    },
                    ..old(self)@
                };
                final(self)@ == update_leds_spec(m1).0 && r@.map_values(
                    |o: (Option<u32>, Vec<u8>)| (o.0, o.1@),
                ) == update_leds_spec(m1).1
            }),
            keyboard_wf(final(self)@),
    {
        self.key_queue.set_key_toggle_state(toggle_state);
        self.generate_led_output_reports()
    }

    /// Takes a keyboard layout from the bytes of one: where they hold a well-formed layout, keys
    /// are translated with it from now on.
    pub fn on_layout_update(&mut self, buffer: &[u8]) -> (r: bool)
        ensures
            r == parse_layout(buffer@, 0) is Ok,
            r ==> (parse_layout(buffer@, 0) matches Ok((l, _)) && final(self)@ == (KeyboardModel {
                key_queue: KeyQueueModel { layout: Some(l), ..old(self)@.key_queue },
                ..old(self)@
            })),
            !r ==> final(self)@ == old(self)@,
    {
        match keyboard_layout_from_buffer(buffer) {
            Ok(layout) => {
                self.key_queue.set_layout(Some(layout));
                true
            },
            Err(_) => false,
        }
    }

    /// The handle of the latest registration for key notifications; zero before any.
    pub fn last_notify_handle(&self) -> (r: usize)
        ensures
            r == self@.next_notify_handle,
    {
        self.next_notify_handle
    }

    /// The handle of the registration of a key with a callback, if there is one: the lowest
    /// handle among its registrations.
    pub fn registered_notify_handle(&self, key_data: KeyData, callback: usize) -> (r: Option<usize>)
        ensures
            r == registered_handle(self@.notification_callbacks, key_data, callback),
    {
        let entries = map_entries(&self.notification_callbacks);
        let ghost es = entries@;
        let mut i: usize = 0;
        while i < entries.len()
            invariant
                0 <= i <= es.len(),
                es == entries@,
                es == entries_by_key(self@.notification_callbacks),
                forall|j: int| 0 <= j < i ==> es[j].1 != (key_data, callback),
            decreases es.len() - i,
        {
            let (h, entry) = entries[i];
            if entry.0 == key_data && entry.1 == callback {
                proof {
                    assert(is_first_registration(es, key_data, callback, i as int));
                    let c = choose|c: int| is_first_registration(es, key_data, callback, c);
                    assert(c == i) by {
                        if c < i {
                            assert(es[c].1 != (key_data, callback));
                        }
                        if c > i {
                            assert(es[i as int].1 == (key_data, callback));
                        }
                    }
                }
                return Some(h);
            }
            i = i + 1;
        }
        proof {
            if exists|c: int| is_first_registration(es, key_data, callback, c) {
                let c = choose|c: int| is_first_registration(es, key_data, callback, c);
                assert(es[c].1 != (key_data, callback));
            }
        }
        None
    }

    /// Registers a callback for notifications of a key, and returns the registration's handle. A
    /// key already registered with the callback keeps its handle; otherwise the next handle is
    /// taken and the key is registered with the key queue.
    pub fn register_key_notify(&mut self, key_data: KeyData, callback: usize) -> (handle: usize)
        requires
            registered_handle(old(self)@.notification_callbacks, key_data, callback) is None
                ==> old(self)@.next_notify_handle < usize::MAX,
        ensures
            match registered_handle(old(self)@.notification_callbacks, key_data, callback) {
                Some(h) => handle == h && final(self)@ == old(self)@,
                None => handle == old(self)@.next_notify_handle + 1 && final(self)@ == (KeyboardModel {
                    notification_callbacks: old(self)@.notification_callbacks.insert(
                        handle,
                        (key_data, callback),
                    ),
                    next_notify_handle: handle,
                    key_queue: KeyQueueModel {
                        registered_keys: old(self)@.key_queue.registered_keys.insert(
                            registration_of(key_data),
                        ),
                        ..old(self)@.key_queue
                    },
                    ..old(self)@
                }),
            },
    {
        if let Some(h) = self.registered_notify_handle(key_data, callback) {
            return h;
        }
        self.next_notify_handle = self.next_notify_handle + 1;
        let handle = self.next_notify_handle;
        self.notification_callbacks.insert(handle, (key_data, callback));
        self.key_queue.add_notify_key(OrdKeyData(key_data));
        handle
    }

    /// Takes the oldest key waiting for its notifications, with the callbacks of the registrations
    /// it matches, by increasing handle.
    pub fn next_key_notification(&mut self) -> (r: Option<(KeyData, Vec<usize>)>)
        ensures
            ({
                let nq = old(self)@.key_queue.notified_key_queue;
                if nq.len() > 0 {
                    r matches Some((k, cbs)) && k == nq[0] && cbs@ == matching_callbacks(
                        entries_by_key(old(self)@.notification_callbacks),
                        k,
                    ) && final(self)@ == (KeyboardModel {
                        key_queue: KeyQueueModel { notified_key_queue: nq.drop_first(), ..old(self)@.key_queue },
                        ..old(self)@
                    })
                } else {
                    r is None && final(self)@ == old(self)@
                }
            }),
    {
        let k = match self.key_queue.pop_notifiy_key() {
            Some(k) => k,
            None => {
                return None;
            },
        };
        let entries = map_entries(&self.notification_callbacks);
        let ghost es = entries@;
        let pending = OrdKeyData(k);
        let mut callbacks: Vec<usize> = Vec::new();
        let mut i: usize = 0;
        assert(es.skip(0) =~= es);
        while i < entries.len()
            invariant
                0 <= i <= es.len(),
                es == entries@,
                pending.0 == k,
                matching_callbacks(es, k) == callbacks@ + matching_callbacks(es.skip(i as int), k),
            decreases es.len() - i,
        {
            let (h, entry) = entries[i];
            proof {
                assert(es.skip(i as int)[0] == entries@[i as int]);
                assert(es.skip(i as int).drop_first() =~= es.skip(i + 1));
            }
            let ghost before = callbacks@;
            if pending.matches_registered_key(&OrdKeyData(entry.0)) {
                callbacks.push(entry.1);
                assert(before + (seq![entry.1] + matching_callbacks(es.skip(i + 1), k)) =~= callbacks@
                    + matching_callbacks(es.skip(i + 1), k));
            }
            i = i + 1;
        }
        assert(es.skip(i as int) =~= Seq::<(usize, (KeyData, usize))>::empty());
        assert(callbacks@ + Seq::<usize>::empty() =~= callbacks@);
        Some((k, callbacks))
    }

    /// Takes the output reports waiting to be sent, oldest first.
    pub fn take_output_reports(&mut self) -> (r: Vec<(Option<u32>, Vec<u8>)>)
        ensures
            r@.map_values(|o: (Option<u32>, Vec<u8>)| (o.0, o.1@)) == old(self)@.pending_output_reports,
            final(self)@ == (KeyboardModel { pending_output_reports: Seq::empty(), ..old(self)@ }),
    {
        let mut r: Vec<(Option<u32>, Vec<u8>)> = Vec::new();
        std::mem::swap(&mut r, &mut self.pending_output_reports);
        assert(self@.pending_output_reports =~= Seq::empty());
        r
    }

    /// Whether a keystroke asked for a system reset.
    pub fn reset_requested(&self) -> (r: bool)
        ensures
            r == self@.reset_requested,
    {
        self.reset_requested
    }

    /// Whether keys wait for their notifications; the indication is cleared.
    pub fn take_key_notify_pending(&mut self) -> (r: bool)
        ensures
            r == old(self)@.key_notify_pending,
            final(self)@ == (KeyboardModel { key_notify_pending: false, ..old(self)@ }),
    {
        let r = self.key_notify_pending;
        self.key_notify_pending = false;
        r
    }
}

/// A key typed with either control key held reads as a control character where it is a letter:
/// 'a' to 'z' and 'A' to 'Z' read as 1 to 26, with the scan code kept. Any other key, and any key
/// typed without a control key, reads as it was queued.
pub proof fn law_control_letters_read_as_control_characters(k: KeyData)
    ensures
        ({
            let shift = k.key_state.key_shift_state;
            let c = k.key.unicode_char;
            let ctrl = (shift & RIGHT_CONTROL_PRESSED) != 0 || (shift & LEFT_CONTROL_PRESSED) != 0;
            &&& ctrl && 0x61 <= c <= 0x7a ==> key_as_read(k) == InputKey {
                scan_code: k.key.scan_code,
                unicode_char: (c - 0x60) as u16,
            }
            &&& ctrl && 0x41 <= c <= 0x5a ==> key_as_read(k) == InputKey {
                scan_code: k.key.scan_code,
                unicode_char: (c - 0x40) as u16,
            }
            &&& !(ctrl && (0x61 <= c <= 0x7a || 0x41 <= c <= 0x5a)) ==> key_as_read(k) == k.key
        }),
{
    let shift = k.key_state.key_shift_state;
    assert(((shift & 4u32) != 0 || (shift & 8u32) != 0) <==> (shift & (4u32 | 8u32)) != 0) by (bit_vector);
}

/// The callbacks that a key is delivered to are those of the registrations with the key's
/// character and scan code, a shift state that is zero or the key's, and a toggle state that is
/// zero or the key's: each such registration's callback is among them, and each of them is the
/// callback of such a registration.
pub proof fn law_matching_callbacks_take_wildcard_states(es: Seq<(usize, (KeyData, usize))>, k: KeyData)
    ensures
        forall|i: int|
            0 <= i < es.len() && explicit_match(k, #[trigger] es[i].1.0) ==> matching_callbacks(es, k).contains(
                es[i].1.1,
            ),
        forall|c: usize|
            #[trigger] matching_callbacks(es, k).contains(c) ==> exists|i: int|
                0 <= i < es.len() && explicit_match(k, #[trigger] es[i].1.0) && es[i].1.1 == c,
    decreases es.len(),
{
    if es.len() > 0 {
        let rest = es.drop_first();
        law_matching_callbacks_take_wildcard_states(rest, k);
        assert forall|i: int|
            0 <= i < es.len() && explicit_match(k, #[trigger] es[i].1.0) implies matching_callbacks(es, k).contains(
                es[i].1.1,
            ) by {
            if i == 0 {
                assert((seq![es[0].1.1] + matching_callbacks(rest, k))[0] == es[0].1.1);
            } else {
                assert(rest[i - 1] == es[i]);
                assert(explicit_match(k, rest[i - 1].1.0));
                let j = choose|j: int| 0 <= j < matching_callbacks(rest, k).len() && matching_callbacks(rest, k)[j] == es[i].1.1;
                if matches_registration(k, es[0].1.0) {
                    assert((seq![es[0].1.1] + matching_callbacks(rest, k))[j + 1] == es[i].1.1);
                }
            }
        }
        assert forall|c: usize| #[trigger] matching_callbacks(es, k).contains(c) implies exists|i: int|
            0 <= i < es.len() && explicit_match(k, #[trigger] es[i].1.0) && es[i].1.1 == c by {
            let m = matching_callbacks(es, k);
            let j = choose|j: int| 0 <= j < m.len() && m[j] == c;
            if matches_registration(k, es[0].1.0) && j == 0 {
                assert(explicit_match(k, es[0].1.0));
            } else {
                let r = matching_callbacks(rest, k);
                let jr = if matches_registration(k, es[0].1.0) { j - 1 } else { j };
                assert(r[jr] == c);
                assert(r.contains(c));
                let i = choose|i: int| 0 <= i < rest.len() && explicit_match(k, #[trigger] rest[i].1.0) && rest[i].1.1 == c;
                assert(es[i + 1] == rest[i]);
            }
        }
    }
}

/// A registration, written out field by field: character and scan code equal, shift and toggle
/// states each zero or equal.
pub open spec fn explicit_match(k: KeyData, r: KeyData) -> bool {
    r.key.unicode_char == k.key.unicode_char && r.key.scan_code == k.key.scan_code && (
    r.key_state.key_shift_state == 0 || r.key_state.key_shift_state == k.key_state.key_shift_state) && (
    r.key_state.key_toggle_state == 0 || r.key_state.key_toggle_state == k.key_state.key_toggle_state)
}

} // verus!
