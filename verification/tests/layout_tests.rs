use uefi_hid::default_layout::{
    default_keyboard_layout_guid, get_default_keyboard_layout, get_default_keyboard_pkg,
    get_default_keyboard_pkg_list, get_default_keyboard_pkg_list_buffer,
};
use uefi_hid::efi_key::EFI_KEY_MAX_CODE;
use uefi_hid::layout::{
    Guid, HiiKey, HiiKeyDescriptor, HiiKeyboardPkg, HiiKeyboardPkgList, HiiNsKeyDescriptor, WriteError,
    NS_KEY_DEPENDENCY_MODIFIER, NS_KEY_MODIFIER,
};
use uefi_hid::layout_read::{keyboard_layout_from_buffer, LayoutError, ParseError};
use uefi_hid::modifiers::{AFFECTED_BY_CAPS_LOCK, AFFECTED_BY_STANDARD_SHIFT};
use uefi_hid::EfiKey;

fn descriptor(key: EfiKey, unicode: u16, shifted: u16, modifier: u16, affected: u16) -> HiiKeyDescriptor {
    HiiKeyDescriptor {
        key,
        unicode,
        shifted_unicode: shifted,
        alt_gr_unicode: 0,
        shifted_alt_gr_unicode: 0,
        modifier,
        affected_attribute: affected,
    }
}

#[test]
fn hii_keyboard_package_serialize_deserialize_should_produce_consistent_results() {
    let mut buffer = [0u8; 4096];

    let package = get_default_keyboard_pkg();
    package.write_into(&mut buffer).unwrap();

    let (package2, _) = HiiKeyboardPkg::try_from_bytes(&buffer).unwrap();
    assert_eq!(package, package2);
}

#[test]
fn default_layout_has_the_us_keys_and_description() {
    let layout = get_default_keyboard_layout();
    assert_eq!(layout.keys.len(), 105);
    assert_eq!(layout.descriptions.len(), 1);
    assert_eq!(layout.descriptions[0].language, "en-US");
    assert_eq!(layout.descriptions[0].description, "English Keyboard");
    assert_eq!(layout.guid, default_keyboard_layout_guid());
    let a_key = layout
        .keys
        .iter()
        .find(|k| matches!(k, HiiKey::Key(d) if d.key == EfiKey::EfiKeyC1))
        .unwrap();
    match a_key {
        HiiKey::Key(d) => {
            assert_eq!(d.unicode, 'a' as u16);
            assert_eq!(d.shifted_unicode, 'A' as u16);
            assert_eq!(d.affected_attribute, AFFECTED_BY_STANDARD_SHIFT | AFFECTED_BY_CAPS_LOCK);
        }
        HiiKey::NsKey(_) => panic!("the 'a' key is no non-spacing key"),
    }
}

#[test]
fn default_package_list_buffer_holds_the_package_list() {
    let buffer = get_default_keyboard_pkg_list_buffer();
    assert_eq!(buffer.len(), 1781);
    let list = get_default_keyboard_pkg_list();
    assert_eq!(&buffer[0..16], &list.package_list_guid.as_bytes()[..]);
    assert_eq!(&buffer[16..20], &1781u32.to_le_bytes());
    assert_eq!(&buffer[1777..1781], &0xDF000004u32.to_le_bytes());
    let (read, used) = HiiKeyboardPkgList::try_from_bytes(&buffer).unwrap();
    assert_eq!(used, 1781);
    assert_eq!(read, list);
}

#[test]
fn package_list_bytes_frame_the_package() {
    let pkg = get_default_keyboard_pkg();
    let pkg_bytes = pkg.to_bytes();
    let pkg_list = HiiKeyboardPkgList {
        package_list_guid: Guid::from_fields(0xc0f3b43, 0x44de, 0x4907, 0xb4, 0x78, &[0x22, 0x5f, 0x6f, 0x62, 0x89, 0xdc]),
        package: get_default_keyboard_pkg(),
    };
    let mut buffer = [0u8; 4096];
    let size = pkg_list.write_into(&mut buffer).unwrap();
    assert_eq!(&buffer[0..16], &pkg_list.package_list_guid.as_bytes()[..]);
    assert_eq!(&buffer[16..20], &(size as u32).to_le_bytes());
    assert_eq!(&buffer[20..20 + pkg_bytes.len()], &pkg_bytes[..]);
    assert_eq!(&buffer[20 + pkg_bytes.len()..size], &0xDF000004u32.to_le_bytes());
    let (read, _) = HiiKeyboardPkgList::try_from_bytes(&buffer).unwrap();
    assert_eq!(read, pkg_list);
}

#[test]
fn guid_bytes_are_little_endian_fields() {
    let g = Guid::from_fields(0x01020304, 0x0506, 0x0708, 0x09, 0x0a, &[0x0b, 0x0c, 0x0d, 0x0e, 0x0f, 0x10]);
    assert_eq!(
        g.as_bytes(),
        vec![0x04, 0x03, 0x02, 0x01, 0x06, 0x05, 0x08, 0x07, 0x09, 0x0a, 0x0b, 0x0c, 0x0d, 0x0e, 0x0f, 0x10]
    );
}

#[test]
fn non_spacing_keys_survive_a_write_and_a_read() {
    let mut pkg = get_default_keyboard_pkg();
    let keys = &mut pkg.layouts[0].keys;
    let index = keys
        .iter()
        .position(|k| matches!(k, HiiKey::Key(d) if d.key == EfiKey::EfiKeyE0))
        .unwrap();
    let affected = AFFECTED_BY_STANDARD_SHIFT | AFFECTED_BY_CAPS_LOCK;
    keys[index] = HiiKey::NsKey(HiiNsKeyDescriptor {
        descriptor: descriptor(EfiKey::EfiKeyE0, 0, 0, NS_KEY_MODIFIER, 0),
        dependent_keys: vec![
            descriptor(EfiKey::EfiKeyC1, 0x00E2, 0x00C2, NS_KEY_DEPENDENCY_MODIFIER, affected),
            descriptor(EfiKey::EfiKeyD3, 0x00EA, 0x00CA, NS_KEY_DEPENDENCY_MODIFIER, affected),
            descriptor(EfiKey::EfiKeyD8, 0x00EC, 0x00CC, NS_KEY_DEPENDENCY_MODIFIER, affected),
            descriptor(EfiKey::EfiKeyD9, 0x00F4, 0x00D4, NS_KEY_DEPENDENCY_MODIFIER, affected),
            descriptor(EfiKey::EfiKeyD7, 0x00FB, 0x00CB, NS_KEY_DEPENDENCY_MODIFIER, affected),
        ],
    });
    let bytes = pkg.to_bytes();
    // The non-spacing key adds the five dependent descriptors of 16 bytes each.
    assert_eq!(bytes.len(), get_default_keyboard_pkg().to_bytes().len() + 5 * 16);
    let (read, used) = HiiKeyboardPkg::try_from_bytes(&bytes).unwrap();
    assert_eq!(used, bytes.len());
    assert_eq!(read, pkg);
}

#[test]
fn writing_into_a_short_buffer_fails_and_leaves_it_unchanged() {
    let pkg = get_default_keyboard_pkg();
    let mut buffer = [0xAAu8; 100];
    assert_eq!(pkg.write_into(&mut buffer), Err(WriteError::BufferTooSmall));
    assert!(buffer.iter().all(|b| *b == 0xAA));
}

#[test]
fn reading_a_truncated_package_fails() {
    let bytes = get_default_keyboard_pkg().to_bytes();
    assert_eq!(HiiKeyboardPkg::try_from_bytes(&bytes[..bytes.len() - 1]), Err(ParseError::OutOfBounds));
    assert_eq!(HiiKeyboardPkg::try_from_bytes(&bytes[..2]), Err(ParseError::OutOfBounds));
}

#[test]
fn reading_another_package_type_fails() {
    let mut bytes = get_default_keyboard_pkg().to_bytes();
    bytes[3] = 0x04;
    assert_eq!(HiiKeyboardPkg::try_from_bytes(&bytes), Err(ParseError::UnsupportedPackageType));
}

#[test]
fn reading_an_unknown_key_fails() {
    let mut bytes = get_default_keyboard_layout().to_bytes();
    // The first key descriptor starts after the layout header of 23 bytes; its key is a u32.
    bytes[23..27].copy_from_slice(&500u32.to_le_bytes());
    assert_eq!(keyboard_layout_from_buffer(&bytes), Err(LayoutError::ParseError(ParseError::InvalidKey)));
}

#[test]
fn layout_from_buffer_reads_the_default_layout() {
    let layout = get_default_keyboard_layout();
    let bytes = layout.to_bytes();
    assert_eq!(keyboard_layout_from_buffer(&bytes).unwrap(), layout);
    assert!(keyboard_layout_from_buffer(&[]).is_err());
}

#[test]
fn efi_key_codes_round_trip() {
    for code in 0..=EFI_KEY_MAX_CODE {
        let key = EfiKey::try_from(code).unwrap();
        assert_eq!(key.code(), code);
    }
    assert!(EfiKey::try_from(EFI_KEY_MAX_CODE + 1).is_err());
    assert_eq!(EfiKey::try_from(0).unwrap(), EfiKey::EfiKeyLCtrl);
}
