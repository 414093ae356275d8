# uefi_hid

Keyboard layouts in the UEFI HII format, and the keyboard and pointer logic of a UEFI HID input
driver, verified with Verus.

- `src/` is the verified library:
  - `layout`, `layout_read`, `layout_laws`, `default_layout`, `efi_key`, `bytes`, `utf16`: the HII
    keyboard layout structures, the bytes they are written as, reading them back, and the proofs
    that what is written reads back as itself; the default US layout.
  - `report`: report descriptors as the handlers read them, and the field accessors of `hidparser`.
  - `key_queue`, `keyboard`: keystrokes and their translation through a layout, and the keyboard
    handler behind the simple text input protocols.
  - `pointer`: the pointer handler behind the absolute pointer protocol.
  - `hid`, `usage_set`: the receivers of a device's reports, and ordered views of sets and maps.
- `tests/` runs the library on concrete devices and layouts.
- `app/` is the driver around the library: boot services, the driver binding, the HID I/O
  protocol, and the protocol interfaces the firmware calls.
