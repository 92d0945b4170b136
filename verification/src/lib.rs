//! Core of an analog keyboard runtime: the result and error model, keycode
//! translation between key-identifier namespaces, and the rules by which
//! readings from several plugins are combined.

pub mod aggregate;
pub mod analog;
pub mod buffer;
pub mod device;
pub mod device_table;
pub mod hardware;
pub mod hid_codes;
pub mod keyboard;
pub mod keycode;
pub mod listing;
pub mod loader;
pub mod plugin;
pub mod result;
pub mod scancode;
pub mod sdk;
pub mod seat;
pub mod start;
pub mod virtual_key;
pub mod wire;
