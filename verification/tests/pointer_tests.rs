use uefi_hid::hid::{HidError, HidReportReciever};
use uefi_hid::pointer::{PointerHidHandler, AXIS_RESOLUTION, CENTER};
use uefi_hid::report::{parse_report_descriptor, ReportDescriptor};

static MINIMAL_BOOT_KEYBOARD_REPORT_DESCRIPTOR: &[u8] = &[
    0x05, 0x01, // USAGE_PAGE (Generic Desktop)
    0x09, 0x06, // USAGE (Keyboard)
    0xa1, 0x01, // COLLECTION (Application)
    0x75, 0x01, //    REPORT_SIZE (1)
    0x95, 0x08, //    REPORT_COUNT (8)
    0x05, 0x07, //    USAGE_PAGE (Key Codes)
    0x19, 0xE0, //    USAGE_MINIMUM (224)
    0x29, 0xE7, //    USAGE_MAXIMUM (231)
    0x15, 0x00, //    LOGICAL_MINIMUM (0)
    0x25, 0x01, //    LOGICAL_MAXIMUM (1)
    0x81, 0x02, //    INPUT (Data, Var, Abs) (Modifier Byte)
    0xc0, // END_COLLECTION
];

static MOUSE_REPORT_DESCRIPTOR: &[u8] = &[
    0x05, 0x01, // USAGE_PAGE (Generic Desktop)
    0x09, 0x02, // USAGE (Mouse)
    0xa1, 0x01, // COLLECTION (Application)
    0x09, 0x01, //   USAGE(Pointer)
    0xa1, 0x00, //   COLLECTION (Physical)
    0x05, 0x09, //     USAGE_PAGE (Button)
    0x19, 0x01, //     USAGE_MINIMUM(1)
    0x29, 0x05, //     USAGE_MAXIMUM(5)
    0x15, 0x00, //     LOGICAL_MINIMUM(0)
    0x25, 0x01, //     LOGICAL_MAXIMUM(1)
    0x95, 0x05, //     REPORT_COUNT(5)
    0x75, 0x01, //     REPORT_SIZE(1)
    0x81, 0x02, //     INPUT(Data, Variable, Absolute)
    0x95, 0x01, //     REPORT_COUNT(1)
    0x75, 0x03, //     REPORT_SIZE(3)
    0x81, 0x01, //     INPUT(Constant, Array, Absolute)
    0x05, 0x01, //     USAGE_PAGE (Generic Desktop)
    0x09, 0x30, //     USAGE (X)
    0x09, 0x31, //     USAGE (Y)
    0x09, 0x38, //     USAGE (Wheel)
    0x15, 0x81, //     LOGICAL_MINIMUM (-127)
    0x25, 0x7f, //     LOGICAL_MAXIMUM (127)
    0x75, 0x08, //     REPORT_SIZE (8)
    0x95, 0x03, //     REPORT_COUNT (3)
    0x81, 0x06, //     INPUT(Data, Variable, Relative)
    0xc0, //   END_COLLECTION
    0xc0, // END_COLLECTION
];

static ABS_POINTER_REPORT_DESCRIPTOR: &[u8] = &[
    0x05, 0x01, // USAGE_PAGE (Generic Desktop)
    0x09, 0x02, // USAGE (Mouse)
    0xa1, 0x01, // COLLECTION (Application)
    0x09, 0x01, //   USAGE(Pointer)
    0xa1, 0x00, //   COLLECTION (Physical)
    0x05, 0x09, //     USAGE_PAGE (Button)
    0x19, 0x01, //     USAGE_MINIMUM(1)
    0x29, 0x05, //     USAGE_MAXIMUM(5)
    0x15, 0x00, //     LOGICAL_MINIMUM(0)
    0x25, 0x01, //     LOGICAL_MAXIMUM(1)
    0x95, 0x05, //     REPORT_COUNT(5)
    0x75, 0x01, //     REPORT_SIZE(1)
    0x81, 0x02, //     INPUT(Data, Variable, Absolute)
    0x95, 0x01, //     REPORT_COUNT(1)
    0x75, 0x03, //     REPORT_SIZE(3)
    0x81, 0x01, //     INPUT(Constant, Array, Absolute)
    0x05, 0x01, //     USAGE_PAGE (Generic Desktop)
    0x09, 0x30, //     USAGE (X)
    0x09, 0x31, //     USAGE (Y)
    0x09, 0x38, //     USAGE (Wheel)
    0x15, 0x00, //     LOGICAL_MINIMUM (0)
    0x26, 0xff, 0x0f, // LOGICAL_MAXIMUM (4095)
    0x75, 0x10, //     REPORT_SIZE (16)
    0x95, 0x03, //     REPORT_COUNT (3)
    0x81, 0x02, //     INPUT(Data, Variable, Absolute)
    0xc0, //   END_COLLECTION
    0xc0, // END_COLLECTION
];

fn parse(bytes: &[u8]) -> ReportDescriptor {
    parse_report_descriptor(bytes).unwrap()
}

fn pointer_for(bytes: &[u8]) -> PointerHidHandler {
    let mut pointer_handler = PointerHidHandler::new();
    let descriptor = parse(bytes);
    assert!(PointerHidHandler::descriptor_readable(&descriptor));
    assert_eq!(pointer_handler.process_descriptor(&descriptor), Ok(()));
    pointer_handler
}

fn assert_centered(pointer_handler: &PointerHidHandler) {
    let state = pointer_handler.current_state();
    assert_eq!(state.active_buttons, 0);
    assert_eq!(state.current_x, CENTER);
    assert_eq!(state.current_y, CENTER);
    assert_eq!(state.current_z, 0);
    assert_eq!(pointer_handler.state_changed(), false);
}

#[test]
fn pointer_initialize_should_fail_if_report_descriptor_not_supported() {
    let mut pointer_handler = PointerHidHandler::new();
    let descriptor = parse(MINIMAL_BOOT_KEYBOARD_REPORT_DESCRIPTOR);
    assert!(PointerHidHandler::descriptor_readable(&descriptor));
    assert_eq!(pointer_handler.process_descriptor(&descriptor), Err(HidError::Unsupported));
}

#[test]
fn successful_pointer_initialize_should_describe_the_axes() {
    let pointer_handler = pointer_for(MOUSE_REPORT_DESCRIPTOR);
    let mode = pointer_handler.initialize_mode();
    assert_eq!(mode.absolute_max_x, AXIS_RESOLUTION);
    assert_eq!(mode.absolute_max_y, AXIS_RESOLUTION);
    assert_eq!(mode.absolute_max_z, AXIS_RESOLUTION);
    assert_eq!(mode.absolute_min_x, 0);
    // the wheel is a z axis, and the buttons past the first two are alternate buttons.
    assert_eq!(mode.attributes, 0x03);
    assert_centered(&pointer_handler);
}

#[test]
fn receive_report_should_process_relative_reports() {
    let mut pointer_handler = pointer_for(MOUSE_REPORT_DESCRIPTOR);
    assert_centered(&pointer_handler);

    //click two buttons and move the cursor (+32,+32)
    let report: &[u8] = &[0x05, 0x20, 0x20, 0];
    pointer_handler.receive_report(report);

    let state = pointer_handler.current_state();
    assert_eq!(state.active_buttons, 0x05);
    assert_eq!(state.current_x, CENTER + 32);
    assert_eq!(state.current_y, CENTER + 32);
    assert_eq!(state.current_z, 0);
    assert_eq!(pointer_handler.state_changed(), true);

    //unclick and move the cursor (+32,-16) and wheel(+32).
    let report: &[u8] = &[0x00, 0x20, 0xF0, 0x20]; //0xF0 = -16.
    pointer_handler.receive_report(report);

    let state = pointer_handler.current_state();
    assert_eq!(state.active_buttons, 0);
    assert_eq!(state.current_x, CENTER + 64);
    assert_eq!(state.current_y, CENTER + 16);
    assert_eq!(state.current_z, 32);

    //unclick and move the cursor (+32,-32) and wheel(+32).
    let report: &[u8] = &[0x00, 0x20, 0xE0, 0x20]; //0xE0 = -32.
    pointer_handler.receive_report(report);

    let state = pointer_handler.current_state();
    assert_eq!(state.active_buttons, 0);
    assert_eq!(state.current_x, CENTER + 96);
    assert_eq!(state.current_y, CENTER - 16);
    assert_eq!(state.current_z, 64);

    //move the cursor (0,127) until is past saturation, and check the value each time
    let report: &[u8] = &[0x00, 0x00, 0x7F, 0x0]; //0x7F = +127.
    let starting_y = pointer_handler.current_state().current_y;
    for i in 0..AXIS_RESOLUTION {
        //starts near the center, so moving it well past saturation point
        pointer_handler.receive_report(report);
        let expected_y = AXIS_RESOLUTION.min(starting_y.saturating_add((i + 1) * 127));
        assert_eq!(pointer_handler.current_state().current_y, expected_y);
    }

    //move the cursor(0,-127) until it saturates at zero, and check the value each time.
    let report: &[u8] = &[0x00, 0x00, 0x81, 0x0]; //0x81 = -127.
    let starting_y = pointer_handler.current_state().current_y;
    for i in 0..AXIS_RESOLUTION {
        // starts at max, but moving 127 each time, so well past saturation point.
        pointer_handler.receive_report(report);
        let expected_y = starting_y.saturating_sub((i + 1) * 127);
        assert_eq!(pointer_handler.current_state().current_y, expected_y);
    }
}

#[test]
fn receive_report_should_process_absolute_reports() {
    let mut pointer_handler = pointer_for(ABS_POINTER_REPORT_DESCRIPTOR);
    assert_centered(&pointer_handler);

    //click two buttons and move the cursor (1024, 1024).
    let report: &[u8] = &[0x05, 0x00, 0x04, 0x00, 0x04, 0x00, 0x00];
    pointer_handler.receive_report(report);

    let state = pointer_handler.current_state();
    assert_eq!(state.active_buttons, 0x05);
    // input x from range 0-4095 projected on to 0-1024 axis is (x/4095) * 1024. For x=1024, result is 256.
    assert_eq!(state.current_x, 256);
    assert_eq!(state.current_y, 256);
    assert_eq!(state.current_z, 0);
    assert_eq!(pointer_handler.state_changed(), true);
}

#[test]
fn bad_reports_should_be_ignored() {
    let mut pointer_handler = pointer_for(ABS_POINTER_REPORT_DESCRIPTOR);
    assert_centered(&pointer_handler);

    //move the cursor (4096, 4096, 0) - changed fields are out of range
    let report: &[u8] = &[0x00, 0x00, 0x10, 0x00, 0x10, 0x00, 0x00];
    pointer_handler.receive_report(report);
    assert_centered(&pointer_handler);

    //report too long
    let report: &[u8] = &[0x00, 0x00, 0x00, 0x10, 0x00, 0x10, 0x00, 0x10];
    pointer_handler.receive_report(report);
    assert_centered(&pointer_handler);

    //report too short
    let report: &[u8] = &[0x00, 0x10, 0x00, 0x10, 0x00, 0x10];
    pointer_handler.receive_report(report);
    assert_centered(&pointer_handler);

    //empty report
    pointer_handler.receive_report(&[]);
    assert_centered(&pointer_handler);
}

#[test]
fn absolute_pointer_reset_should_reset_pointer_state() {
    let mut pointer_handler = pointer_for(MOUSE_REPORT_DESCRIPTOR);
    assert_centered(&pointer_handler);

    //click two buttons and move the cursor (+32,+32,+32)
    let report: &[u8] = &[0x05, 0x20, 0x20, 0x20];
    pointer_handler.receive_report(report);

    let state = pointer_handler.current_state();
    assert_eq!(state.active_buttons, 0x5);
    assert_eq!(state.current_x, CENTER + 0x20);
    assert_eq!(state.current_y, CENTER + 0x20);
    assert_eq!(state.current_z, 0x20);
    assert_eq!(pointer_handler.state_changed(), true);

    //reset state
    pointer_handler.reset_state();
    assert_centered(&pointer_handler);
}

#[test]
fn absolute_pointer_get_state_should_return_current_state_and_clear_changed_flag() {
    let mut pointer_handler = pointer_for(MOUSE_REPORT_DESCRIPTOR);
    assert_centered(&pointer_handler);

    //click two buttons and move the cursor (+32,+32,+32)
    let report: &[u8] = &[0x05, 0x20, 0x20, 0x20];
    pointer_handler.receive_report(report);
    assert_eq!(pointer_handler.state_changed(), true);

    let state = pointer_handler.get_state().unwrap();
    assert_eq!(state, pointer_handler.current_state());
    assert_eq!(state.active_buttons, 0x5);
    assert_eq!(state.current_x, CENTER + 0x20);
    assert_eq!(state.current_y, CENTER + 0x20);
    assert_eq!(state.current_z, 0x20);
    assert_eq!(pointer_handler.state_changed(), false);

    //if get_state is attempted when there are no changes to state, nothing is returned.
    assert!(pointer_handler.get_state().is_none());
}

static MOUSE_WITH_REPORT_ID_DESCRIPTOR: &[u8] = &[
    0x05, 0x01, // USAGE_PAGE (Generic Desktop)
    0x09, 0x02, // USAGE (Mouse)
    0xa1, 0x01, // COLLECTION (Application)
    0x85, 0x05, //   REPORT_ID (5)
    0x09, 0x01, //   USAGE(Pointer)
    0xa1, 0x00, //   COLLECTION (Physical)
    0x05, 0x09, //     USAGE_PAGE (Button)
    0x19, 0x01, //     USAGE_MINIMUM(1)
    0x29, 0x05, //     USAGE_MAXIMUM(5)
    0x15, 0x00, //     LOGICAL_MINIMUM(0)
    0x25, 0x01, //     LOGICAL_MAXIMUM(1)
    0x95, 0x05, //     REPORT_COUNT(5)
    0x75, 0x01, //     REPORT_SIZE(1)
    0x81, 0x02, //     INPUT(Data, Variable, Absolute)
    0x95, 0x01, //     REPORT_COUNT(1)
    0x75, 0x03, //     REPORT_SIZE(3)
    0x81, 0x01, //     INPUT(Constant, Array, Absolute)
    0x05, 0x01, //     USAGE_PAGE (Generic Desktop)
    0x09, 0x30, //     USAGE (X)
    0x09, 0x31, //     USAGE (Y)
    0x09, 0x38, //     USAGE (Wheel)
    0x15, 0x81, //     LOGICAL_MINIMUM (-127)
    0x25, 0x7f, //     LOGICAL_MAXIMUM (127)
    0x75, 0x08, //     REPORT_SIZE (8)
    0x95, 0x03, //     REPORT_COUNT (3)
    0x81, 0x06, //     INPUT(Data, Variable, Relative)
    0xc0, //   END_COLLECTION
    0xc0, // END_COLLECTION
];

#[test]
fn reports_are_found_by_their_report_id() {
    let descriptor = parse(MOUSE_WITH_REPORT_ID_DESCRIPTOR);
    assert_eq!(descriptor.input_reports[0].report_id, Some(5));
    let mut pointer_handler = pointer_for(MOUSE_WITH_REPORT_ID_DESCRIPTOR);

    // a report of another id is ignored.
    pointer_handler.receive_report(&[0x06, 0x01, 0x10, 0x10, 0x00]);
    assert_centered(&pointer_handler);

    // the report of id 5: first button, and (+16, -16).
    pointer_handler.receive_report(&[0x05, 0x01, 0x10, 0xF0, 0x00]);
    let state = pointer_handler.current_state();
    assert_eq!(state.active_buttons, 0x01);
    assert_eq!(state.current_x, CENTER + 16);
    assert_eq!(state.current_y, CENTER - 16);
    assert_eq!(state.current_z, 0);
}

#[test]
fn descriptors_with_wide_axis_fields_are_taken() {
    // One X axis field of 65 bits: wider than a field value reads, but the descriptor is taken.
    let wide: &[u8] = &[
        0x05, 0x01, // USAGE_PAGE (Generic Desktop)
        0x09, 0x30, // USAGE (X)
        0x15, 0x00, // LOGICAL_MINIMUM (0)
        0x25, 0x7F, // LOGICAL_MAXIMUM (127)
        0x75, 0x41, // REPORT_SIZE (65)
        0x95, 0x01, // REPORT_COUNT (1)
        0x81, 0x02, // INPUT (Data, Var, Abs)
    ];
    let descriptor = parse_report_descriptor(wide).unwrap();
    assert!(!PointerHidHandler::descriptor_readable(&descriptor));
    let mut pointer_handler = PointerHidHandler::new();
    assert_eq!(pointer_handler.process_descriptor(&descriptor), Ok(()));
}
