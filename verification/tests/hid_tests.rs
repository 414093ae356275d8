use uefi_hid::hid::{select_initialized, DefaultReceiverFactory, HidError, HidReportReciever, HidSplitter};
use uefi_hid::keyboard::KeyboardHidHandler;
use uefi_hid::pointer::PointerHidHandler;

#[test]
fn default_receiver_factory_makes_no_receivers() {
    let factory = DefaultReceiverFactory {};
    assert!(factory.new_hid_receiver_list(2).unwrap().is_empty());
}

#[test]
fn only_the_receivers_that_took_the_device_are_kept_in_order() {
    assert_eq!(select_initialized(vec![(1, false), (2, true), (3, true)]), Ok(vec![2, 3]));
    assert_eq!(select_initialized(vec![(1, false), (2, false)]), Err(HidError::Unsupported));
    assert_eq!(select_initialized::<u8>(vec![]), Err(HidError::Unsupported));
}

#[test]
fn splitter_hands_reports_to_its_receivers() {
    let keyboard: Box<dyn HidReportReciever> = Box::new(KeyboardHidHandler::new());
    let pointer: Box<dyn HidReportReciever> = Box::new(PointerHidHandler::new());
    let mut splitter = HidSplitter::from_initialized(vec![(keyboard, true), (pointer, false)]).unwrap();
    assert_eq!(splitter.receivers.len(), 1);
    splitter.receive_report(&[0x00, 0x00, 0x04, 0x00, 0x00, 0x00, 0x00, 0x00]);

    let keyboard: Box<dyn HidReportReciever> = Box::new(KeyboardHidHandler::new());
    assert!(matches!(HidSplitter::from_initialized(vec![(keyboard, false)]), Err(HidError::Unsupported)));
}
