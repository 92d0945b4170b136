//! Devices: their identifiers and the record that describes one.

use std::collections::hash_map::DefaultHasher;
use std::hash::Hasher;
use vstd::prelude::*;
use vstd::std_specs::hash::DefaultHasherAdditionalSpecFns;
use vstd::string::StringSliceAdditionalSpecFns;

verus! {

/// Identifies a device. `0` identifies none: in a read it stands for "any
/// device".
pub type DeviceID = u64;

/// The serial under which a device without a serial number is hashed.
pub const PLACEHOLDER_SERIAL: &'static str = "NO SERIAL";

/// The hardware type of a device.
#[derive(Debug, Clone, Copy, PartialEq, Eq, Hash, Structural)]
pub enum DeviceType {
    /// A keyboard.
    Keyboard,
    /// A keypad.
    Keypad,
    /// Anything else.
    Other,
}

impl DeviceType {
    /// The number that stands for the type on the wire.
    pub open spec fn value(self) -> int {
        match self {
            DeviceType::Keyboard => 1,
            DeviceType::Keypad => 2,
            DeviceType::Other => 3,
        }
    }

    /// The type that `n` stands for; `None` where it stands for none.
    pub fn from_u32(n: u32) -> (kind: Option<DeviceType>)
        ensures
            kind matches Some(k) ==> k.value() == n,
            kind is None <==> (n < 1 || n > 3),
    {
        if n == 1 {
            Some(DeviceType::Keyboard)
        } else if n == 2 {
            Some(DeviceType::Keypad)
        } else if n == 3 {
            Some(DeviceType::Other)
        } else {
            None
        }
    }

    /// The number that stands for this type on the wire.
    pub fn to_u32(&self) -> (n: u32)
        ensures
            n == self.value(),
    {
        match self {
            DeviceType::Keyboard => 1,
            DeviceType::Keypad => 2,
            DeviceType::Other => 3,
        }
    }
}

/// What happened to a device.
#[derive(Debug, Clone, Copy, PartialEq, Eq, Hash, Structural)]
pub enum DeviceEventType {
    /// The device has been connected.
    Connected,
    /// The device has been disconnected.
    Disconnected,
}

impl DeviceEventType {
    /// The number that stands for the event on the wire.
    pub open spec fn value(self) -> int {
        match self {
            DeviceEventType::Connected => 1,
            DeviceEventType::Disconnected => 2,
        }
    }

    /// The event that `n` stands for; `None` where it stands for none.
    pub fn from_u32(n: u32) -> (event: Option<DeviceEventType>)
        ensures
            event matches Some(e) ==> e.value() == n,
            event is None <==> (n < 1 || n > 2),
    {
        if n == 1 {
            Some(DeviceEventType::Connected)
        } else if n == 2 {
            Some(DeviceEventType::Disconnected)
        } else {
            None
        }
    }

    /// The number that stands for this event on the wire.
    pub fn to_u32(&self) -> (n: u32)
        ensures
            n == self.value(),
    {
        match self {
            DeviceEventType::Connected => 1,
            DeviceEventType::Disconnected => 2,
        }
    }
}

/// Describes one device, with strings of its own.
#[derive(Debug, Clone)]
pub struct DeviceInfo {
    /// Vendor identifier.
    pub vendor_id: u16,
    /// Product identifier.
    pub product_id: u16,
    /// Name of the manufacturer.
    pub manufacturer_name: String,
    /// Name of the device.
    pub device_name: String,
    /// Identifier of the device, as [`generate_device_id`] makes it.
    pub device_id: DeviceID,
    /// Hardware type.
    pub device_type: DeviceType,
}

impl DeviceInfo {
    /// A record describes a device when both names are there and the
    /// identifier is not the reserved one.
    pub open spec fn describes_a_device(&self) -> bool {
        &&& self.manufacturer_name@.len() > 0
        &&& self.device_name@.len() > 0
        &&& self.device_id != 0
    }

    /// A record of the given parts.
    pub fn new_with_id(
        vendor_id: u16,
        product_id: u16,
        manufacturer_name: String,
        device_name: String,
        device_id: DeviceID,
        device_type: DeviceType,
    ) -> (info: DeviceInfo)
        ensures
            info.vendor_id == vendor_id,
            info.product_id == product_id,
            info.manufacturer_name == manufacturer_name,
            info.device_name == device_name,
            info.device_id == device_id,
            info.device_type == device_type,
    {
        DeviceInfo {
            vendor_id,
            product_id,
            manufacturer_name,
            device_name,
            device_id,
            device_type,
        }
    }

    /// A record of the given parts for the device with serial number
    /// `serial_number`, from which its identifier is made.
    pub fn new(
        vendor_id: u16,
        product_id: u16,
        manufacturer_name: String,
        device_name: String,
        serial_number: &str,
        device_type: DeviceType,
    ) -> (info: DeviceInfo)
        ensures
            info.vendor_id == vendor_id,
            info.product_id == product_id,
            info.manufacturer_name == manufacturer_name,
            info.device_name == device_name,
            info.device_id == device_id_of(serial_number.spec_bytes(), vendor_id, product_id),
            info.device_type == device_type,
    {
        DeviceInfo {
            vendor_id,
            product_id,
            manufacturer_name,
            device_name,
            device_id: generate_device_id(serial_number, vendor_id, product_id),
            device_type,
        }
    }

    /// Whether the record describes a device.
    pub fn is_complete(&self) -> (b: bool)
        ensures
            b == self.describes_a_device(),
    {
        !self.manufacturer_name.as_str().is_empty() && !self.device_name.as_str().is_empty()
            && self.device_id != 0
    }
}

/// The two bytes of `v`, the low one first.
pub open spec fn low_high(v: u16) -> Seq<u8> {
    seq![(v % 256) as u8, (v / 256) as u8]
}

/// The identifier of the device with the given serial number, vendor and
/// product: the hash of the vendor, the product and the bytes of the serial
/// number, written in this order.
pub open spec fn device_id_of(serial: Seq<u8>, vendor_id: u16, product_id: u16) -> DeviceID {
    DefaultHasher::spec_finish(seq![low_high(vendor_id), low_high(product_id), serial])
}

/// The two bytes of `v`, the low one first.
fn low_high_bytes(v: u16) -> (bytes: [u8; 2])
    ensures
        bytes@ == low_high(v),
{
    assert(v & 0xFF == v % 256) by (bit_vector);
    assert(v >> 8 == v / 256) by (bit_vector);
    let bytes: [u8; 2] = [(v & 0xFF) as u8, (v >> 8) as u8];
    assert(bytes@ =~= low_high(v));
    bytes
}

/// Makes the identifier of a device from its serial number, vendor and
/// product. The same three always give the same identifier.
pub fn generate_device_id(serial_number: &str, vendor_id: u16, product_id: u16) -> (id: DeviceID)
    ensures
        id == device_id_of(serial_number.spec_bytes(), vendor_id, product_id),
{
    let vendor = low_high_bytes(vendor_id);
    let product = low_high_bytes(product_id);
    let mut s = DefaultHasher::new();
    s.write(vendor.as_slice());
    s.write(product.as_slice());
    s.write(serial_number.as_bytes());
    proof {
        assert(s@ =~= seq![low_high(vendor_id), low_high(product_id), serial_number.spec_bytes()]);
    }
    s.finish()
}

/// The identifier of a device that may lack a serial number: such a device is
/// hashed under [`PLACEHOLDER_SERIAL`].
pub fn device_id_for(serial_number: Option<&str>, vendor_id: u16, product_id: u16) -> (id: DeviceID)
    ensures
        serial_number matches Some(serial) ==> id == device_id_of(
            serial.spec_bytes(),
            vendor_id,
            product_id,
        ),
        serial_number is None ==> id == device_id_of(
            PLACEHOLDER_SERIAL.spec_bytes(),
            vendor_id,
            product_id,
        ),
{
    match serial_number {
        Some(serial) => generate_device_id(serial, vendor_id, product_id),
        None => generate_device_id(PLACEHOLDER_SERIAL, vendor_id, product_id),
    }
}

} // verus!
