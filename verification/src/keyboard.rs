//! The devices that a hardware plugin drives, and the reads it serves from
//! them.
//!
//! Each device has a snapshot of its pressed keys, which the reader of its
//! reports replaces as reports come in. A whole-buffer read hands out the
//! snapshot and, with level zero, every key that was in the snapshot of the
//! read before and has left it since: a consumer sees each release once.

use crate::analog::Analog;
use crate::buffer::{buffer_of, keys_of, Buffer};
use crate::device::{DeviceID, DeviceInfo, DeviceType};
use crate::result::{SDKResult, WootingAnalogResult};
use std::collections::HashMap;
use vstd::prelude::*;

verus! {

/// The name given to a device that does not tell its manufacturer or its
/// product.
pub const UNKNOWN_NAME: &'static str = "ERR COULD NOT BE FOUND";

/// What a device is at a given moment.
pub ghost struct DeviceState {
    /// The record that describes the device.
    pub info: DeviceInfo,
    /// The snapshot of its pressed keys.
    pub buffer: Buffer,
    /// Whether its reports still come in.
    pub connected: bool,
    /// The keys that the last whole-buffer read found pressed.
    pub pressed: Set<u16>,
}

/// The level of `code` in a snapshot: a key that is not in it is not pressed.
pub open spec fn level_in(buffer: Buffer, code: u16) -> Analog {
    if buffer.contains_key(code) {
        buffer[code]
    } else {
        Analog::with_pattern(0)
    }
}

/// What a whole-buffer read hands out: the snapshot, and with level zero the
/// keys in `pressed` that are not in it.
pub open spec fn sticky_frame(pressed: Set<u16>, buffer: Buffer) -> Buffer {
    Map::new(
        |code: u16| buffer.contains_key(code) || pressed.contains(code),
        |code: u16| level_in(buffer, code),
    )
}

/// What a device answers to a single-key read: the level in its snapshot, and
/// `DeviceDisconnected` once its reports have stopped.
pub open spec fn device_analog(device: DeviceState, code: u16) -> Result<Analog, WootingAnalogResult> {
    if device.connected {
        Ok(level_in(device.buffer, code))
    } else {
        Err(WootingAnalogResult::DeviceDisconnected)
    }
}

/// What a device answers to a whole-buffer read: its frame, and
/// `DeviceDisconnected` once its reports have stopped.
pub open spec fn device_frame(device: DeviceState) -> Result<Buffer, WootingAnalogResult> {
    if device.connected {
        Ok(sticky_frame(device.pressed, device.buffer))
    } else {
        Err(WootingAnalogResult::DeviceDisconnected)
    }
}

/// The device after a whole-buffer read: a device that handed out a frame
/// remembers the keys of its snapshot.
pub open spec fn after_frame(device: DeviceState) -> DeviceState {
    if device.connected {
        DeviceState { pressed: device.buffer.dom(), ..device }
    } else {
        device
    }
}

/// A device of a hardware plugin.
pub struct Device {
    device_info: DeviceInfo,
    buffer: HashMap<u16, Analog>,
    connected: bool,
    pressed_keys: Vec<u16>,
}

impl View for Device {
    type V = DeviceState;

    closed spec fn view(&self) -> DeviceState {
        DeviceState {
            info: self.device_info,
            buffer: self.buffer@,
            connected: self.connected,
            pressed: self.pressed_keys@.to_set(),
        }
    }
}

/// The name under which a device goes of which the host tells `name`: the
/// name told, and the placeholder where none is told or the name is empty.
pub open spec fn name_or_placeholder(name: Option<Seq<char>>) -> Seq<char> {
    match name {
        Some(told) => if told.len() > 0 {
            told
        } else {
            UNKNOWN_NAME@
        },
        None => UNKNOWN_NAME@,
    }
}

/// The name under which a device goes of which the host tells `name`.
fn name_of(name: Option<&str>) -> (owned: String)
    ensures
        owned@ == name_or_placeholder(
            match name {
                Some(told) => Some(told@),
                None => None,
            },
        ),
        owned@.len() > 0,
{
    proof {
        reveal_strlit("ERR COULD NOT BE FOUND");
    }
    match name {
        Some(told) => if told.is_empty() {
            UNKNOWN_NAME.to_owned()
        } else {
            told.to_owned()
        },
        None => UNKNOWN_NAME.to_owned(),
    }
}

/// The record for a device of which the host tells the given parts. A device
/// of a hardware plugin is a keyboard. A name that the host does not tell is
/// filled in, so that the record has both names.
pub fn describe_device(
    vendor_id: u16,
    product_id: u16,
    manufacturer: Option<&str>,
    product: Option<&str>,
    device_id: DeviceID,
) -> (info: DeviceInfo)
    ensures
        info.vendor_id == vendor_id,
        info.product_id == product_id,
        info.manufacturer_name@ == name_or_placeholder(
            match manufacturer {
                Some(name) => Some(name@),
                None => None,
            },
        ),
        info.device_name@ == name_or_placeholder(
            match product {
                Some(name) => Some(name@),
                None => None,
            },
        ),
        info.device_id == device_id,
        info.device_type == DeviceType::Keyboard,
        device_id != 0 ==> info.describes_a_device(),
{
    DeviceInfo::new_with_id(
        vendor_id,
        product_id,
        name_of(manufacturer),
        name_of(product),
        device_id,
        DeviceType::Keyboard,
    )
}

/// A copy of a record.
pub fn copy_info(info: &DeviceInfo) -> (copy: DeviceInfo)
    ensures
        copy == *info,
{
    DeviceInfo {
        vendor_id: info.vendor_id,
        product_id: info.product_id,
        manufacturer_name: info.manufacturer_name.clone(),
        device_name: info.device_name.clone(),
        device_id: info.device_id,
        device_type: info.device_type,
    }
}

impl Device {
    /// A device that has just been opened: connected, with no key pressed.
    pub fn new(device_info: DeviceInfo) -> (device: Device)
        ensures
            device@ == (DeviceState {
                info: device_info,
                buffer: Map::empty(),
                connected: true,
                pressed: Set::empty(),
            }),
    {
        let device = Device {
            device_info,
            buffer: HashMap::new(),
            connected: true,
            pressed_keys: Vec::new(),
        };
        assert(device.pressed_keys@.to_set() =~= Set::<u16>::empty());
        device
    }

    /// The identifier of the device.
    pub fn id(&self) -> (id: DeviceID)
        ensures
            id == self@.info.device_id,
    {
        self.device_info.device_id
    }

    /// The record that describes the device.
    pub fn info(&self) -> (info: &DeviceInfo)
        ensures
            *info == self@.info,
    {
        &self.device_info
    }

    /// Lets go of the device and keeps its record.
    pub fn into_info(self) -> (info: DeviceInfo)
        ensures
            info == self@.info,
    {
        self.device_info
    }

    /// Whether the reports of the device still come in.
    pub fn is_connected(&self) -> (b: bool)
        ensures
            b == self@.connected,
    {
        self.connected
    }

    /// Replaces the snapshot by what the latest report holds.
    pub fn publish(&mut self, snapshot: HashMap<u16, Analog>)
        ensures
            final(self)@ == (DeviceState { buffer: snapshot@, ..old(self)@ }),
    {
        self.buffer = snapshot;
    }

    /// Notes that the reports of the device have stopped.
    pub fn disconnect(&mut self)
        ensures
            final(self)@ == (DeviceState { connected: false, ..old(self)@ }),
    {
        self.connected = false;
    }

    /// The level of the key with HID usage code `code` in the snapshot. A
    /// device whose reports have stopped answers `DeviceDisconnected`.
    pub fn read_analog(&mut self, code: u16) -> (result: SDKResult<Analog>)
        ensures
            final(self)@ == old(self)@,
            result.0 == device_analog(old(self)@, code),
    {
        self.level(code)
    }

    /// The level of the key with HID usage code `code` in the snapshot, as
    /// [`Device::read_analog`] gives it.
    pub fn level(&self, code: u16) -> (result: SDKResult<Analog>)
        ensures
            result.0 == device_analog(self@, code),
    {
        broadcast use vstd::std_specs::hash::group_hash_axioms;

        if !self.connected {
            return SDKResult(Err(WootingAnalogResult::DeviceDisconnected));
        }
        match self.buffer.get(&code) {
            Some(level) => SDKResult(Ok(*level)),
            None => SDKResult(Ok(Analog::zero())),
        }
    }

    /// The snapshot, together with the keys released since the read before,
    /// which come with level zero. The keys of the snapshot are remembered
    /// for the next read. A device whose reports have stopped answers
    /// `DeviceDisconnected`.
    pub fn read_full_buffer(&mut self, _max_length: usize) -> (result: SDKResult<HashMap<u16, Analog>>)
        ensures
            buffer_of(result) == device_frame(old(self)@),
            final(self)@ == after_frame(old(self)@),
    {
        broadcast use vstd::std_specs::hash::group_hash_axioms;

        if !self.connected {
            return SDKResult(Err(WootingAnalogResult::DeviceDisconnected));
        }
        let mut frame = self.buffer.clone();
        //Collect the new pressed keys
        let new_pressed_keys = keys_of(&self.buffer);
        //Put the old pressed keys into the frame
        let mut i: usize = 0;
        assert(frame@ =~= sticky_frame(self.pressed_keys@.take(0).to_set(), self.buffer@));
        while i < self.pressed_keys.len()
            invariant
                i <= self.pressed_keys.len(),
                *self == *old(self),
                frame@ == sticky_frame(self.pressed_keys@.take(i as int).to_set(), self.buffer@),
            decreases self.pressed_keys.len() - i,
        {
            let key = self.pressed_keys[i];
            proof {
                assert(self.pressed_keys@.take(i + 1) =~= self.pressed_keys@.take(i as int).push(
                    key,
                ));
                self.pressed_keys@.take(i as int).lemma_push_to_set_commute(key);
            }
            if !frame.contains_key(&key) {
                frame.insert(key, Analog::zero());
            }
            assert(frame@ =~= sticky_frame(
                self.pressed_keys@.take(i + 1).to_set(),
                self.buffer@,
            ));
            i += 1;
        }
        assert(self.pressed_keys@.take(self.pressed_keys@.len() as int) =~= self.pressed_keys@);
        //Store the new pressed keys for the next call
        self.pressed_keys = new_pressed_keys;
        SDKResult(Ok(frame))
    }
}

/// A key that has left the snapshot comes with level zero in the next
/// whole-buffer read, and in the read after that it does not come at all;
/// while it is in the snapshot it comes with its level.
pub proof fn lemma_a_release_is_seen_once(
    pressed: Set<u16>,
    first: Buffer,
    second: Buffer,
    third: Buffer,
    code: u16,
)
    requires
        first.contains_key(code),
        !second.contains_key(code),
        !third.contains_key(code),
    ensures
        sticky_frame(pressed, first).contains_key(code),
        sticky_frame(pressed, first)[code] == first[code],
        sticky_frame(first.dom(), second).contains_key(code),
        sticky_frame(first.dom(), second)[code] == Analog::with_pattern(0),
        !sticky_frame(second.dom(), third).contains_key(code),
{
}

/// A whole-buffer read hands out every key of the snapshot with its level,
/// and no key that is neither in the snapshot nor was in the one before.
pub proof fn lemma_frame_holds_the_snapshot(pressed: Set<u16>, buffer: Buffer, code: u16)
    ensures
        buffer.contains_key(code) ==> sticky_frame(pressed, buffer).contains_key(code)
            && sticky_frame(pressed, buffer)[code] == buffer[code],
        !buffer.contains_key(code) && !pressed.contains(code) ==> !sticky_frame(
            pressed,
            buffer,
        ).contains_key(code),
{
}

} // verus!
