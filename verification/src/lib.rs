//! Keyboard layouts in the UEFI HII format, and the keyboard and pointer logic of a HID input driver.

pub mod efi_key;
pub mod modifiers;

pub use efi_key::EfiKey;
pub mod bytes;
pub mod utf16;
pub mod layout;
pub mod layout_read;
pub mod layout_laws;
pub mod pointer;
pub mod default_layout;
pub mod key_queue;
pub mod keyboard;
pub mod hid;
pub mod report;
pub mod usage_set;
