use uefi_hid::default_layout::{get_default_keyboard_layout, get_default_keyboard_pkg_list_buffer};
use uefi_hid::hid::{HidError, HidReportReciever};
use uefi_hid::key_queue::{
    InputKey, KeyData, KeyState, CAPS_LOCK_ACTIVE, KEY_STATE_EXPOSED, LEFT_ALT_PRESSED, LEFT_CONTROL_PRESSED,
    NUM_LOCK_ACTIVE, RIGHT_LOGO_PRESSED, SHIFT_STATE_VALID, TOGGLE_STATE_VALID,
};
use uefi_hid::keyboard::KeyboardHidHandler;
use uefi_hid::report::{parse_report_descriptor, report_sizes_fit, ReportDescriptor, ReportField};

static BOOT_KEYBOARD_REPORT_DESCRIPTOR: &[u8] = &[
    0x05, 0x01, // USAGE_PAGE (Generic Desktop)
    0x09, 0x06, // USAGE (Keyboard)
    0xa1, 0x01, // COLLECTION (Application)
    0x75, 0x01, //    REPORT_SIZE (1)
    0x95, 0x08, //    REPORT_COUNT (8)
    0x05, 0x07, //    USAGE_PAGE (Key Codes)
    0x19, 0xE0, //    USAGE_MINIMUM (224)
    0x29, 0xE7, //    USAGE_MAXIMUM (231)
    0x15, 0x00, //    LOGICAL_MAXIMUM (0)
    0x25, 0x01, //    LOGICAL_MINIMUM (1)
    0x81, 0x02, //    INPUT (Data, Var, Abs) (Modifier Byte)
    0x95, 0x01, //    REPORT_COUNT (1)
    0x75, 0x08, //    REPORT_SIZE (8)
    0x81, 0x03, //    INPUT (Const) (Reserved Byte)
    0x95, 0x05, //    REPORT_COUNT (5)
    0x75, 0x01, //    REPORT_SIZE (1)
    0x05, 0x08, //    USAGE_PAGE (LEDs)
    0x19, 0x01, //    USAGE_MINIMUM (1)
    0x29, 0x05, //    USAGE_MAXIMUM (5)
    0x91, 0x02, //    OUTPUT (Data, Var, Abs) (LED report)
    0x95, 0x01, //    REPORT_COUNT (1)
    0x75, 0x03, //    REPORT_SIZE (3)
    0x91, 0x02, //    OUTPUT (Constant) (LED report padding)
    0x95, 0x06, //    REPORT_COUNT (6)
    0x75, 0x08, //    REPORT_SIZE (8)
    0x15, 0x00, //    LOGICAL_MINIMUM (0)
    0x26, 0xff, 00, //    LOGICAL_MAXIMUM (255)
    0x05, 0x07, //    USAGE_PAGE (Key Codes)
    0x19, 0x00, //    USAGE_MINIMUM (0)
    0x2a, 0xff, 00, //    USAGE_MAXIMUM (255)
    0x81, 0x00, //    INPUT (Data, Array)
    0xc0, // END_COLLECTION
];

static MOUSE_REPORT_DESCRIPTOR: &[u8] = &[
    0x05, 0x01, // USAGE_PAGE (Generic Desktop)
    0x09, 0x02, // USAGE (Mouse)
    0xa1, 0x01, // COLLECTION (Application)
    0x09, 0x01, //   USAGE(Pointer)
    0xa1, 0x00, //   COLLECTION (Physical)
    0x05, 0x09, //     USAGE_PAGE (Button)
    0x19, 0x01, //     USAGE_MINIMUM(1)
    0x29, 0x05, //     USAGE_MAXIMUM(5)
    0x15, 0x00, //     LOGICAL_MINIMUM(0)
    0x25, 0x01, //     LOGICAL_MAXIMUM(1)
    0x95, 0x05, //     REPORT_COUNT(5)
    0x75, 0x01, //     REPORT_SIZE(1)
    0x81, 0x02, //     INPUT(Data, Variable, Absolute)
    0x95, 0x01, //     REPORT_COUNT(1)
    0x75, 0x03, //     REPORT_SIZE(3)
    0x81, 0x01, //     INPUT(Constant, Array, Absolute)
    0x05, 0x01, //     USAGE_PAGE (Generic Desktop)
    0x09, 0x30, //     USAGE (X)
    0x09, 0x31, //     USAGE (Y)
    0x09, 0x38, //     USAGE (Wheel)
    0x15, 0x81, //     LOGICAL_MINIMUM (-127)
    0x25, 0x7f, //     LOGICAL_MAXIMUM (127)
    0x75, 0x08, //     REPORT_SIZE (8)
    0x95, 0x03, //     REPORT_COUNT (3)
    0x81, 0x06, //     INPUT(Data, Variable, Relative)
    0xc0, //   END_COLLECTION
    0xc0, // END_COLLECTION
];

fn parse(bytes: &[u8]) -> ReportDescriptor {
    parse_report_descriptor(bytes).unwrap()
}

fn boot_keyboard() -> KeyboardHidHandler {
    let mut keyboard_handler = KeyboardHidHandler::new();
    let descriptor = parse(BOOT_KEYBOARD_REPORT_DESCRIPTOR);
    assert!(KeyboardHidHandler::descriptor_readable(&descriptor));
    keyboard_handler.process_descriptor(&descriptor).unwrap();
    keyboard_handler.key_queue_mut().set_layout(Some(get_default_keyboard_layout()));
    keyboard_handler
}

#[test]
fn keyboard_initialize_should_fail_if_report_descriptor_not_supported() {
    let mut keyboard_handler = KeyboardHidHandler::new();
    let descriptor = parse(MOUSE_REPORT_DESCRIPTOR);
    assert!(KeyboardHidHandler::descriptor_readable(&descriptor));
    assert_eq!(keyboard_handler.process_descriptor(&descriptor), Err(HidError::Unsupported));
}

#[test]
fn keyhandler_should_handle_key_report() {
    let mut keyboard_handler = boot_keyboard();

    // press the 'a' key.
    let report: &[u8] = &[0x00, 0x00, 0x04, 0x00, 0x00, 0x00, 0x00, 0x00];
    keyboard_handler.receive_report(report);

    assert_eq!(keyboard_handler.key_queue_mut().pop_key().unwrap().key.unicode_char, 'a' as u16);
    assert!(keyboard_handler.key_queue().peek_key().is_none());

    // press the 'shift' key while 'a' remains pressed.
    let report: &[u8] = &[0x02, 0x00, 0x04, 0x00, 0x00, 0x00, 0x00, 0x00];
    keyboard_handler.receive_report(report);
    assert!(keyboard_handler.key_queue().peek_key().is_none());

    // holding the 'shift' key while releasing 'a'.
    let report: &[u8] = &[0x02, 0x00, 0x00, 0x00, 0x00, 0x00, 0x00, 0x00];
    keyboard_handler.receive_report(report);
    assert!(keyboard_handler.key_queue().peek_key().is_none());

    // holding the 'shift' key while pressing 'a' again.
    let report: &[u8] = &[0x02, 0x00, 0x04, 0x00, 0x00, 0x00, 0x00, 0x00];
    keyboard_handler.receive_report(report);

    assert_eq!(keyboard_handler.key_queue_mut().pop_key().unwrap().key.unicode_char, 'A' as u16);
    assert!(keyboard_handler.key_queue().peek_key().is_none());

    // release the 'shift' key, press the 'ctrl' key, continue pressing 'a', and press 'b'
    let report: &[u8] = &[0x01, 0x00, 0x04, 0x05, 0x00, 0x00, 0x00, 0x00];
    keyboard_handler.receive_report(report);
    let key_data = keyboard_handler.key_queue_mut().pop_key().unwrap();
    assert_eq!(key_data.key.unicode_char, 'b' as u16);
    assert_eq!(key_data.key_state.key_shift_state, SHIFT_STATE_VALID | LEFT_CONTROL_PRESSED);
    assert!(keyboard_handler.key_queue().peek_key().is_none());

    // enable partial keystrokes
    keyboard_handler.key_queue_mut().set_key_toggle_state(KEY_STATE_EXPOSED);

    // release the 'ctrl' key, press 'alt', continue pressing 'a' and 'b'
    let report: &[u8] = &[0x04, 0x00, 0x04, 0x05, 0x00, 0x00, 0x00, 0x00];
    keyboard_handler.receive_report(report);

    let key_data = keyboard_handler.key_queue_mut().pop_key().unwrap();
    assert_eq!(key_data.key.unicode_char, 0);
    assert_eq!(key_data.key_state.key_shift_state, SHIFT_STATE_VALID | LEFT_ALT_PRESSED);
    assert!(keyboard_handler.key_queue().peek_key().is_none());

    // release all the keys
    let report: &[u8] = &[0x00, 0x00, 0x00, 0x00, 0x00, 0x00, 0x00, 0x00];
    keyboard_handler.receive_report(report);
    assert!(keyboard_handler.key_queue().peek_key().is_none());

    // press the right logo key
    let report: &[u8] = &[0x80, 0x00, 0x00, 0x00, 0x00, 0x00, 0x00, 0x00];
    keyboard_handler.receive_report(report);

    let key_data = keyboard_handler.key_queue_mut().pop_key().unwrap();
    assert_eq!(key_data.key.unicode_char, 0);
    assert_eq!(key_data.key_state.key_shift_state, SHIFT_STATE_VALID | RIGHT_LOGO_PRESSED);
    assert!(keyboard_handler.key_queue().peek_key().is_none());

    // simulate rollover
    let report: &[u8] = &[0x00, 0x00, 0x01, 0x01, 0x01, 0x01, 0x01, 0x01];
    keyboard_handler.receive_report(report);
    assert!(keyboard_handler.key_queue().peek_key().is_none());

    // pass some unsupported keys
    let report: &[u8] = &[0x00, 0x00, 0xF0, 0xF0, 0xF0, 0xF0, 0xF0, 0xF0];
    keyboard_handler.receive_report(report);
    assert!(keyboard_handler.key_queue().peek_key().is_none());

    // try all possible modifers and all possible keys and make sure it doesn't panic.
    // some of these may generate LED reports
    for i in 0..0xff {
        // avoid sending "Delete" keys as it will cause reset if CTRL-ALT are pressed.
        if (i == 0x4C) || (i == 0x63) {
            continue;
        }
        let report: &[u8] = &[i, 0x00, i, 0x00, 0x00, 0x00, 0x00, 0x00];
        keyboard_handler.receive_report(report);
    }
    assert!(!keyboard_handler.reset_requested());
}

#[test]
fn keyhandler_should_send_led_updates() {
    let mut keyboard_handler = boot_keyboard();
    keyboard_handler.take_output_reports();

    // press the 'caps lock' key.
    let report: &[u8] = &[0x00, 0x00, 0x39, 0x00, 0x00, 0x00, 0x00, 0x00];
    keyboard_handler.receive_report(report);
    assert_eq!(keyboard_handler.take_output_reports(), vec![(None, vec![0x02])]);

    // release 'caps lock' and press the 'num lock' key.
    let report: &[u8] = &[0x00, 0x00, 0x53, 0x00, 0x00, 0x00, 0x00, 0x00];
    keyboard_handler.receive_report(report);
    assert_eq!(keyboard_handler.take_output_reports(), vec![(None, vec![0x03])]);

    // press 'caps lock' again
    let report: &[u8] = &[0x00, 0x00, 0x39, 0x00, 0x00, 0x00, 0x00, 0x00];
    keyboard_handler.receive_report(report);
    assert_eq!(keyboard_handler.take_output_reports(), vec![(None, vec![0x01])]);

    // press 'scroll lock'
    let report: &[u8] = &[0x00, 0x00, 0x47, 0x00, 0x00, 0x00, 0x00, 0x00];
    keyboard_handler.receive_report(report);
    assert_eq!(keyboard_handler.take_output_reports(), vec![(None, vec![0x05])]);

    //release scroll lock
    let report: &[u8] = &[0x00, 0x00, 0x00, 0x00, 0x00, 0x00, 0x00, 0x00];
    keyboard_handler.receive_report(report);
    for (id, report) in keyboard_handler.take_output_reports() {
        assert_eq!(id, None);
        assert_eq!(report, vec![0x05]);
    }

    // press 'scroll lock' and 'num lock' again
    let report: &[u8] = &[0x00, 0x00, 0x47, 0x53, 0x00, 0x00, 0x00, 0x00];
    keyboard_handler.receive_report(report);
    assert_eq!(keyboard_handler.take_output_reports(), vec![(None, vec![0x00])]);
}

#[test]
fn read_key_stroke_should_return_key_data() {
    let mut keyboard_handler = boot_keyboard();

    // enable partial keystrokes
    keyboard_handler.key_queue_mut().set_key_toggle_state(KEY_STATE_EXPOSED);

    //send 'a', 'b', 'c'. Simultaneous key stroke ordering is not defined by spec, but this implementation processes
    //them in descending usage code order, so 'c', 'b', 'a'.
    let report: &[u8] = &[0x00, 0x00, 0x04, 0x05, 0x06, 0x00, 0x00, 0x00];
    keyboard_handler.receive_report(report);
    //release keys and push ctrl
    let report: &[u8] = &[0x01, 0x00, 0x00, 0x00, 0x00, 0x00, 0x00, 0x00];
    keyboard_handler.receive_report(report);

    //read with simple_text_in
    let key_data = keyboard_handler.read_key_stroke().unwrap();
    assert_eq!(key_data.unicode_char, 'c' as u16);
    assert_eq!(key_data.scan_code, 0);

    //read with simple_text_in_ex
    let key_data_ex = keyboard_handler.read_key_stroke_ex().unwrap();
    assert_eq!(key_data_ex.key.unicode_char, 'b' as u16);
    assert_eq!(key_data_ex.key.scan_code, 0);
    assert_eq!(key_data_ex.key_state.key_shift_state, SHIFT_STATE_VALID);
    assert_eq!(key_data_ex.key_state.key_toggle_state, TOGGLE_STATE_VALID | KEY_STATE_EXPOSED);

    //read again with simple_text_in
    let key_data = keyboard_handler.read_key_stroke().unwrap();
    assert_eq!(key_data.unicode_char, 'a' as u16);
    assert_eq!(key_data.scan_code, 0);

    //read with empty queue with simple_text_in
    assert!(keyboard_handler.read_key_stroke().is_none());

    //read with empty queue with simple_text_in_ex
    let key_data_ex = keyboard_handler.read_key_stroke_ex().unwrap_err();
    assert_eq!(key_data_ex.key.unicode_char, 0);
    assert_eq!(key_data_ex.key.scan_code, 0);
    assert_eq!(key_data_ex.key_state.key_shift_state, SHIFT_STATE_VALID | LEFT_CONTROL_PRESSED);
    assert_eq!(key_data_ex.key_state.key_toggle_state, TOGGLE_STATE_VALID | KEY_STATE_EXPOSED);

    //send ctrl-a - expect it to be switched to control-character 0x01
    let report: &[u8] = &[0x01, 0x00, 0x04, 0x00, 0x00, 0x00, 0x00, 0x00];
    keyboard_handler.receive_report(report);
    //release keys
    let report: &[u8] = &[0x00, 0x00, 0x00, 0x00, 0x00, 0x00, 0x00, 0x00];
    keyboard_handler.receive_report(report);
    let key_data = keyboard_handler.read_key_stroke().unwrap();
    assert_eq!(key_data.unicode_char, 0x1);
    assert_eq!(key_data.scan_code, 0);

    //send ctrl-shift-Z - expect it to be switched to control-character 0x1A
    let report: &[u8] = &[0x03, 0x00, 0x1D, 0x00, 0x00, 0x00, 0x00, 0x00];
    keyboard_handler.receive_report(report);
    //release keys
    let report: &[u8] = &[0x00, 0x00, 0x00, 0x00, 0x00, 0x00, 0x00, 0x00];
    keyboard_handler.receive_report(report);
    let key_data = keyboard_handler.read_key_stroke().unwrap();
    assert_eq!(key_data.unicode_char, 0x1a);
    assert_eq!(key_data.scan_code, 0);

    // press the right logo key
    let report: &[u8] = &[0x80, 0x00, 0x00, 0x00, 0x00, 0x00, 0x00, 0x00];
    keyboard_handler.receive_report(report);

    //release keys
    let report: &[u8] = &[0x00, 0x00, 0x00, 0x00, 0x00, 0x00, 0x00, 0x00];
    keyboard_handler.receive_report(report);

    //make sure there is a partial key stroke in the queue
    assert_eq!(keyboard_handler.key_queue().peek_key().unwrap().key.unicode_char, 0);
    assert_eq!(keyboard_handler.key_queue().peek_key().unwrap().key.scan_code, 0);

    // press the a key
    let report: &[u8] = &[0x00, 0x00, 0x04, 0x00, 0x00, 0x00, 0x00, 0x00];
    keyboard_handler.receive_report(report);

    //release keys
    let report: &[u8] = &[0x00, 0x00, 0x00, 0x00, 0x00, 0x00, 0x00, 0x00];
    keyboard_handler.receive_report(report);

    // should get only the 'a', partial keystroke should be dropped.
    let key_data = keyboard_handler.read_key_stroke().unwrap();
    assert_eq!(key_data.unicode_char, 'a' as u16);
    assert_eq!(key_data.scan_code, 0);

    assert!(keyboard_handler.read_key_stroke().is_none());
}

#[test]
fn ctrl_alt_del_should_request_a_reset() {
    let mut keyboard_handler = boot_keyboard();
    assert!(!keyboard_handler.reset_requested());

    //send ctrl-alt-del
    let report: &[u8] = &[0x05, 0x00, 0x4C, 0x00, 0x00, 0x00, 0x00, 0x00];
    keyboard_handler.receive_report(report);
    assert!(keyboard_handler.reset_requested());
}

#[test]
fn reports_of_the_wrong_size_are_ignored() {
    let mut keyboard_handler = boot_keyboard();
    let report: &[u8] = &[0x00, 0x00, 0x04, 0x00, 0x00, 0x00, 0x00];
    keyboard_handler.receive_report(report);
    assert!(keyboard_handler.key_queue().peek_key().is_none());
    let report: &[u8] = &[0x00, 0x00, 0x04, 0x00, 0x00, 0x00, 0x00, 0x00, 0x00];
    keyboard_handler.receive_report(report);
    assert!(keyboard_handler.key_queue().peek_key().is_none());
}

#[test]
fn set_state_should_set_the_locks_and_leds() {
    let mut keyboard_handler = boot_keyboard();
    keyboard_handler.take_output_reports();
    let reports = keyboard_handler.set_state(TOGGLE_STATE_VALID | CAPS_LOCK_ACTIVE | NUM_LOCK_ACTIVE);
    assert_eq!(reports, vec![(None, vec![0x03])]);

    // the caps lock now shifts letters.
    let report: &[u8] = &[0x00, 0x00, 0x04, 0x00, 0x00, 0x00, 0x00, 0x00];
    keyboard_handler.receive_report(report);
    let key = keyboard_handler.read_key_stroke_ex().unwrap();
    assert_eq!(key.key.unicode_char, 'A' as u16);
    assert_eq!(
        key.key_state.key_toggle_state,
        TOGGLE_STATE_VALID | KEY_STATE_EXPOSED | CAPS_LOCK_ACTIVE | NUM_LOCK_ACTIVE
    );
}

#[test]
fn reset_should_clear_the_queue_and_the_locks() {
    let mut keyboard_handler = boot_keyboard();
    keyboard_handler.set_state(TOGGLE_STATE_VALID | CAPS_LOCK_ACTIVE);
    let report: &[u8] = &[0x00, 0x00, 0x04, 0x00, 0x00, 0x00, 0x00, 0x00];
    keyboard_handler.receive_report(report);
    assert!(keyboard_handler.key_queue().peek_key().is_some());

    let reports = keyboard_handler.reset(true);
    assert_eq!(reports, vec![(None, vec![0x00])]);
    assert!(keyboard_handler.reset(false).is_empty());
    assert!(keyboard_handler.key_queue().peek_key().is_none());
    let state = keyboard_handler.read_key_stroke_ex().unwrap_err();
    assert_eq!(state.key_state.key_toggle_state, TOGGLE_STATE_VALID | KEY_STATE_EXPOSED);
}

#[test]
fn register_key_notify_should_report_matching_keys() {
    let mut keyboard_handler = boot_keyboard();
    let a_key = KeyData {
        key: InputKey { scan_code: 0, unicode_char: 'a' as u16 },
        key_state: KeyState { key_shift_state: 0, key_toggle_state: 0 },
    };
    let b_key = KeyData {
        key: InputKey { scan_code: 0, unicode_char: 'b' as u16 },
        key_state: KeyState { key_shift_state: 0, key_toggle_state: 0 },
    };
    let first = keyboard_handler.register_key_notify(a_key, 10);
    let second = keyboard_handler.register_key_notify(b_key, 20);
    let third = keyboard_handler.register_key_notify(a_key, 30);
    assert_ne!(first, second);
    assert_ne!(second, third);

    let report: &[u8] = &[0x00, 0x00, 0x04, 0x00, 0x00, 0x00, 0x00, 0x00];
    keyboard_handler.receive_report(report);
    assert!(keyboard_handler.take_key_notify_pending());
    let (key, callbacks) = keyboard_handler.next_key_notification().unwrap();
    assert_eq!(key.key.unicode_char, 'a' as u16);
    let mut callbacks = callbacks;
    callbacks.sort();
    assert_eq!(callbacks, vec![10, 30]);
    assert!(keyboard_handler.next_key_notification().is_none());
}

#[test]
fn layout_update_should_take_a_valid_layout_only() {
    let mut keyboard_handler = boot_keyboard();
    let buffer = get_default_keyboard_pkg_list_buffer();
    // The layout starts after the package list header (20 bytes) and the package header (6 bytes).
    assert!(keyboard_handler.on_layout_update(&buffer[26..]));
    assert!(!keyboard_handler.on_layout_update(&buffer[26..40]));
    assert_eq!(keyboard_handler.key_queue().get_layout(), Some(get_default_keyboard_layout()));
}

#[test]
fn report_descriptor_bytes_are_read_into_reports() {
    let d = parse(BOOT_KEYBOARD_REPORT_DESCRIPTOR);
    assert_eq!(d.input_reports.len(), 1);
    assert_eq!(d.output_reports.len(), 1);
    assert_eq!(d.features.len(), 0);
    let input = &d.input_reports[0];
    assert_eq!(input.report_id, None);
    assert_eq!(input.size_in_bits, 64);
    match &input.fields[0] {
        ReportField::Variable(v) => {
            assert_eq!((v.bits_start, v.bits_end), (0, 1));
            assert_eq!(v.usage, 0x000700E0);
            assert_eq!((v.logical_minimum, v.logical_maximum), (0, 1));
            assert!(!v.relative);
        }
        other => panic!("unexpected field {:?}", other),
    }
    match input.fields.last().unwrap() {
        ReportField::Array(a) => {
            assert_eq!((a.bits_start, a.bits_end), (56, 64));
            assert_eq!(a.usage_list, vec![(0x00070000, 0x000700FF)]);
            assert_eq!((a.logical_minimum, a.logical_maximum), (0, 255));
        }
        other => panic!("unexpected field {:?}", other),
    }
    // a POP item without a PUSH is rejected.
    assert_eq!(parse_report_descriptor(&[0xB4]), Err(HidError::DeviceError));
}

#[test]
fn a_repeated_report_makes_no_keystroke() {
    let mut keyboard_handler = boot_keyboard();
    let report: &[u8] = &[0x00, 0x00, 0x04, 0x00, 0x00, 0x00, 0x00, 0x00];
    keyboard_handler.receive_report(report);
    keyboard_handler.receive_report(report);
    assert_eq!(keyboard_handler.key_queue_mut().pop_key().unwrap().key.unicode_char, 'a' as u16);
    assert!(keyboard_handler.key_queue().peek_key().is_none());
}

#[test]
fn descriptors_whose_report_sizes_overflow_are_refused() {
    // report size 0xFFFFFFFF, report count 2, one constant input item.
    let overflowing: &[u8] = &[0x77, 0xFF, 0xFF, 0xFF, 0xFF, 0x95, 0x02, 0x81, 0x03];
    assert!(!report_sizes_fit(overflowing));
    assert_eq!(parse_report_descriptor(overflowing), Err(HidError::DeviceError));

    // report size 0x7FFFFFFF, report count 1: the bits fit in 32 bits.
    let large: &[u8] = &[0x77, 0xFF, 0xFF, 0xFF, 0x7F, 0x95, 0x01, 0x81, 0x03];
    assert!(report_sizes_fit(large));
    let d = parse_report_descriptor(large).unwrap();
    assert_eq!(d.input_reports[0].size_in_bits, 0x7FFF_FFFF);

    assert!(report_sizes_fit(BOOT_KEYBOARD_REPORT_DESCRIPTOR));
}

#[test]
fn large_report_sizes_in_different_items_are_accepted() {
    // A collection holding two constant input items: report size 0xFFFF with report count 1, then
    // report size 1 with report count 0xFFFF. The report takes 131070 bits.
    let split: &[u8] = &[
        0xA1, 0x01, // COLLECTION (Application)
        0x76, 0xFF, 0xFF, // REPORT_SIZE (0xFFFF)
        0x95, 0x01, // REPORT_COUNT (1)
        0x81, 0x03, // INPUT (Cnst)
        0x75, 0x01, // REPORT_SIZE (1)
        0x96, 0xFF, 0xFF, // REPORT_COUNT (0xFFFF)
        0x81, 0x03, // INPUT (Cnst)
        0xC0, // END_COLLECTION
    ];
    assert!(report_sizes_fit(split));
    let d = parse_report_descriptor(split).unwrap();
    assert_eq!(d.input_reports.len(), 1);
    assert_eq!(d.input_reports[0].size_in_bits, 131070);

    // The same report laid out twice over in one more item overflows.
    let twice: &[u8] = &[
        0x77, 0xFF, 0xFF, 0xFF, 0x7F, // REPORT_SIZE (0x7FFFFFFF)
        0x95, 0x01, // REPORT_COUNT (1)
        0x81, 0x03, // INPUT (Cnst)
        0x81, 0x03, // INPUT (Cnst)
        0x81, 0x03, // INPUT (Cnst)
    ];
    assert!(!report_sizes_fit(twice));
    assert_eq!(parse_report_descriptor(twice), Err(HidError::DeviceError));

    // Items of different reports do not add up: two report ids, each one item of 0x7FFFFFFF bits
    // twice over would overflow, once each does not.
    let two_ids: &[u8] = &[
        0x77, 0xFF, 0xFF, 0xFF, 0x7F, // REPORT_SIZE (0x7FFFFFFF)
        0x95, 0x01, // REPORT_COUNT (1)
        0x85, 0x01, // REPORT_ID (1)
        0x81, 0x03, // INPUT (Cnst)
        0x85, 0x02, // REPORT_ID (2)
        0x81, 0x03, // INPUT (Cnst)
        0x85, 0x01, // REPORT_ID (1)
        0x91, 0x03, // OUTPUT (Cnst)
    ];
    assert!(report_sizes_fit(two_ids));
    let d = parse_report_descriptor(two_ids).unwrap();
    assert_eq!(d.input_reports.len(), 2);
    assert_eq!(d.output_reports.len(), 1);
}

#[test]
fn descriptors_with_wide_key_fields_are_taken() {
    // One modifier field of 65 bits: wider than a field value reads, but the descriptor is taken.
    let wide: &[u8] = &[
        0x05, 0x07, // USAGE_PAGE (Key Codes)
        0x19, 0xE0, // USAGE_MINIMUM (224)
        0x29, 0xE0, // USAGE_MAXIMUM (224)
        0x15, 0x00, // LOGICAL_MINIMUM (0)
        0x25, 0x01, // LOGICAL_MAXIMUM (1)
        0x75, 0x41, // REPORT_SIZE (65)
        0x95, 0x01, // REPORT_COUNT (1)
        0x81, 0x02, // INPUT (Data, Var, Abs)
    ];
    let descriptor = parse_report_descriptor(wide).unwrap();
    assert!(!KeyboardHidHandler::descriptor_readable(&descriptor));
    let mut keyboard_handler = KeyboardHidHandler::new();
    assert_eq!(keyboard_handler.process_descriptor(&descriptor), Ok(()));
}

#[test]
fn a_registration_already_made_keeps_its_handle() {
    let mut keyboard_handler = KeyboardHidHandler::new();
    let key_data = KeyData {
        key: InputKey { scan_code: 0, unicode_char: 'a' as u16 },
        key_state: KeyState { key_shift_state: 0, key_toggle_state: 0 },
    };
    assert_eq!(keyboard_handler.registered_notify_handle(key_data, 7), None);
    let handle = keyboard_handler.register_key_notify(key_data, 7);
    assert_eq!(handle, 1);
    assert_eq!(keyboard_handler.registered_notify_handle(key_data, 7), Some(1));
    assert_eq!(keyboard_handler.register_key_notify(key_data, 7), 1);
    assert_eq!(keyboard_handler.last_notify_handle(), 1);
    assert_eq!(keyboard_handler.register_key_notify(key_data, 8), 2);
}
