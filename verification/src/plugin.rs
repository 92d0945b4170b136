//! What a plugin offers to the runtime.

use crate::analog::Analog;
use crate::device::{DeviceID, DeviceInfo};
use crate::result::SDKResult;
use std::collections::HashMap;
use vstd::prelude::*;

verus! {

/// A call that the runtime makes to a plugin.
pub ghost enum Query {
    /// The plugin is started.
    Initialise,
    /// The plugin is asked whether it is initialised.
    IsInitialised,
    /// The plugin is stopped.
    Unload,
    /// The plugin is asked for its devices.
    DeviceInfo,
    /// The plugin is asked for the level of a key.
    ReadAnalog {
        /// The HID usage code of the key.
        code: u16,
        /// The device, or `0` for any.
        device: DeviceID,
    },
    /// The plugin is asked for its pressed keys.
    ReadFullBuffer {
        /// The most keys that are taken.
        max_length: usize,
        /// The device, or `0` for all.
        device: DeviceID,
    },
}

/// The capabilities of a plugin. A plugin drives devices of its own and
/// speaks HID usage codes.
///
/// What a plugin answers depends on its devices at the time of the call, so
/// nothing is claimed here of any answer: the runtime is verified for every
/// answer that a plugin can give.
pub trait Plugin {
    /// A name that describes the plugin.
    fn name(&mut self) -> SDKResult<&'static str>;

    /// Starts the plugin. A success carries the number of devices found.
    fn initialise(&mut self) -> SDKResult<u32>;

    /// Whether the plugin has been started and not unloaded since.
    fn is_initialised(&mut self) -> bool;

    /// Stops the plugin. It is called before the plugin is let go of.
    fn unload(&mut self);

    /// The devices that the plugin drives at present.
    fn device_info(&mut self) -> SDKResult<Vec<DeviceInfo>>;

    /// The level of the key with HID usage code `code` on the device
    /// `device`; `0` asks for the greatest level over all devices of the
    /// plugin.
    fn read_analog(&mut self, code: u16, device: DeviceID) -> SDKResult<Analog>;

    /// The keys of the device `device` that are pressed, by HID usage code,
    /// at most `max_length` of them; `0` asks for the keys of all devices
    /// of the plugin. A key that has been released since the last call is
    /// reported once more, with level zero.
    fn read_full_buffer(&mut self, max_length: usize, device: DeviceID) -> SDKResult<
        HashMap<u16, Analog>,
    >;
}

} // verus!
