use std::collections::hash_map::DefaultHasher;
use std::hash::Hasher;
use wooting_analog_sdk::device::{
    device_id_for, generate_device_id, DeviceEventType, DeviceInfo, DeviceType, PLACEHOLDER_SERIAL,
};
use wooting_analog_sdk::keyboard::{copy_info, describe_device, UNKNOWN_NAME};

fn hashed(serial_number: &str, vendor_id: u16, product_id: u16) -> u64 {
    let mut s = DefaultHasher::new();
    s.write_u16(vendor_id);
    s.write_u16(product_id);
    s.write(serial_number.as_bytes());
    s.finish()
}

#[test]
fn device_id_is_the_hash_of_vendor_product_and_serial() {
    for (serial, vendor, product) in [
        ("A02B1234567", 0x03EBu16, 0xFF01u16),
        ("", 0, 0),
        ("NO SERIAL", 0x31e3, 0x1210),
        ("WOOT_001_A02B", 0xFFFF, 0x0001),
        ("\u{00e4}\u{00f6}\u{00fc}", 0x1234, 0xabcd),
    ]
    .iter()
    {
        assert_eq!(generate_device_id(serial, *vendor, *product), hashed(serial, *vendor, *product));
    }
}

#[test]
fn device_id_is_the_same_for_the_same_parts() {
    let first = generate_device_id("A02B1234567", 0x03EB, 0xFF01);
    let second = generate_device_id("A02B1234567", 0x03EB, 0xFF01);
    assert_eq!(first, second);
    assert_ne!(first, generate_device_id("A02B1234568", 0x03EB, 0xFF01));
    assert_ne!(first, generate_device_id("A02B1234567", 0x03EC, 0xFF01));
    assert_ne!(first, generate_device_id("A02B1234567", 0x03EB, 0xFF02));
    assert_ne!(first, generate_device_id("A02B1234567", 0xFF01, 0x03EB));
    assert_ne!(first, 0);
}

#[test]
fn a_device_without_serial_is_hashed_under_the_placeholder() {
    assert_eq!(PLACEHOLDER_SERIAL, "NO SERIAL");
    assert_eq!(device_id_for(None, 0x31e3, 0x1220), generate_device_id("NO SERIAL", 0x31e3, 0x1220));
    assert_eq!(device_id_for(Some("X1"), 0x31e3, 0x1220), generate_device_id("X1", 0x31e3, 0x1220));
    assert_ne!(device_id_for(None, 0x31e3, 0x1220), 0);
}

#[test]
fn device_types_have_their_numbers() {
    assert_eq!(DeviceType::Keyboard.to_u32(), 1);
    assert_eq!(DeviceType::Keypad.to_u32(), 2);
    assert_eq!(DeviceType::Other.to_u32(), 3);
    assert_eq!(DeviceType::from_u32(0), None);
    assert_eq!(DeviceType::from_u32(1), Some(DeviceType::Keyboard));
    assert_eq!(DeviceType::from_u32(2), Some(DeviceType::Keypad));
    assert_eq!(DeviceType::from_u32(3), Some(DeviceType::Other));
    assert_eq!(DeviceType::from_u32(4), None);
}

#[test]
fn device_events_have_their_numbers() {
    assert_eq!(DeviceEventType::Connected.to_u32(), 1);
    assert_eq!(DeviceEventType::Disconnected.to_u32(), 2);
    assert_eq!(DeviceEventType::from_u32(0), None);
    assert_eq!(DeviceEventType::from_u32(1), Some(DeviceEventType::Connected));
    assert_eq!(DeviceEventType::from_u32(2), Some(DeviceEventType::Disconnected));
    assert_eq!(DeviceEventType::from_u32(3), None);
}

#[test]
fn a_record_holds_its_parts() {
    let info = DeviceInfo::new_with_id(
        0x03EB,
        0xFFFF,
        "Wooting".to_owned(),
        "Test Device".to_owned(),
        1,
        DeviceType::Keyboard,
    );
    assert_eq!(info.vendor_id, 0x03EB);
    assert_eq!(info.product_id, 0xFFFF);
    assert_eq!(info.manufacturer_name, "Wooting");
    assert_eq!(info.device_name, "Test Device");
    assert_eq!(info.device_id, 1);
    assert_eq!(info.device_type, DeviceType::Keyboard);
    assert!(info.is_complete());
    let copy = copy_info(&info);
    assert_eq!(copy.vendor_id, 0x03EB);
    assert_eq!(copy.product_id, 0xFFFF);
    assert_eq!(copy.manufacturer_name, "Wooting");
    assert_eq!(copy.device_name, "Test Device");
    assert_eq!(copy.device_id, 1);
    assert_eq!(copy.device_type, DeviceType::Keyboard);
}

#[test]
fn a_record_gets_its_identifier_from_the_serial_number() {
    let info = DeviceInfo::new(
        0x03EB,
        0xFF01,
        "Wooting".to_owned(),
        "Wooting One".to_owned(),
        "A01B1234",
        DeviceType::Keyboard,
    );
    assert_eq!(info.device_id, generate_device_id("A01B1234", 0x03EB, 0xFF01));
    assert_eq!(info.device_id, hashed("A01B1234", 0x03EB, 0xFF01));
    assert_eq!(info.vendor_id, 0x03EB);
    assert_eq!(info.product_id, 0xFF01);
    assert_eq!(info.manufacturer_name, "Wooting");
    assert_eq!(info.device_name, "Wooting One");
    assert_eq!(info.device_type, DeviceType::Keyboard);
}

#[test]
fn a_record_without_name_or_id_describes_no_device() {
    let make = |manufacturer: &str, name: &str, id: u64| {
        DeviceInfo::new_with_id(1, 2, manufacturer.to_owned(), name.to_owned(), id, DeviceType::Other)
    };
    assert!(make("m", "n", 1).is_complete());
    assert!(!make("", "n", 1).is_complete());
    assert!(!make("m", "", 1).is_complete());
    assert!(!make("m", "n", 0).is_complete());
}

#[test]
fn a_keyboard_is_described_with_placeholders_for_missing_names() {
    let info = describe_device(0x31e3, 0x1210, Some("Wooting"), Some("Lekker"), 77);
    assert_eq!(info.vendor_id, 0x31e3);
    assert_eq!(info.product_id, 0x1210);
    assert_eq!(info.manufacturer_name, "Wooting");
    assert_eq!(info.device_name, "Lekker");
    assert_eq!(info.device_id, 77);
    assert_eq!(info.device_type, DeviceType::Keyboard);
    let info = describe_device(1, 2, None, None, 3);
    assert_eq!(UNKNOWN_NAME, "ERR COULD NOT BE FOUND");
    assert_eq!(info.manufacturer_name, "ERR COULD NOT BE FOUND");
    assert_eq!(info.device_name, "ERR COULD NOT BE FOUND");
    assert!(info.is_complete());
    let info = describe_device(1, 2, Some(""), Some("Two"), 3);
    assert_eq!(info.manufacturer_name, "ERR COULD NOT BE FOUND");
    assert_eq!(info.device_name, "Two");
    assert!(info.is_complete());
    assert!(!describe_device(1, 2, Some("Wooting"), Some("Two"), 0).is_complete());
}
