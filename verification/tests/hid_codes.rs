use wooting_analog_sdk::hid_codes::HIDCodes;
use wooting_analog_sdk::keycode::{hid_to_code, KeycodeType};
use wooting_analog_sdk::scancode::ScancodeMap;

#[test]
fn keys_have_their_usage_codes() {
    assert_eq!(HIDCodes::A.to_u16(), 0x04);
    assert_eq!(HIDCodes::B.to_u16(), 0x05);
    assert_eq!(HIDCodes::Z.to_u16(), 0x1d);
    assert_eq!(HIDCodes::N1.to_u16(), 0x1e);
    assert_eq!(HIDCodes::N0.to_u16(), 0x27);
    assert_eq!(HIDCodes::Enter.to_u16(), 0x28);
    assert_eq!(HIDCodes::Escape.to_u16(), 0x29);
    assert_eq!(HIDCodes::Space.to_u16(), 0x2c);
    assert_eq!(HIDCodes::F12.to_u16(), 0x45);
    assert_eq!(HIDCodes::PrintScreen.to_u16(), 0x46);
    assert_eq!(HIDCodes::ArrowUp.to_u16(), 0x52);
    assert_eq!(HIDCodes::Numpad0.to_u16(), 0x62);
    assert_eq!(HIDCodes::F24.to_u16(), 0x73);
    assert_eq!(HIDCodes::Lang4.to_u16(), 0x93);
    assert_eq!(HIDCodes::LeftCtrl.to_u16(), 0xe0);
    assert_eq!(HIDCodes::RightMeta.to_u16(), 0xe7);
}

#[test]
fn keys_are_found_by_their_usage_codes() {
    let mut found = 0;
    for code in 0..=0xFFFFu16 {
        if let Some(key) = HIDCodes::from_u16(code) {
            found += 1;
            assert_eq!(key.to_u16(), code);
        }
    }
    assert_eq!(found, 140);
    assert_eq!(HIDCodes::from_u16(0x04), Some(HIDCodes::A));
    assert_eq!(HIDCodes::from_u16(0xe7), Some(HIDCodes::RightMeta));
    assert_eq!(HIDCodes::from_u16(0x00), None);
    assert_eq!(HIDCodes::from_u16(0x32), None);
    assert_eq!(HIDCodes::from_u16(0x77), None);
    assert_eq!(HIDCodes::from_u16(0x0104), None);
}

#[test]
fn all_keys_but_two_have_a_scan_code() {
    let table = ScancodeMap::new();
    for code in 0..=0xFFu16 {
        if let Some(key) = HIDCodes::from_u16(code) {
            let scancode = table.hid_to_scancode(key.to_u16());
            if key == HIDCodes::Open || key == HIDCodes::Again {
                assert_eq!(scancode, None);
            } else {
                assert!(scancode.is_some());
            }
        } else {
            assert_eq!(table.hid_to_scancode(code), None);
        }
    }
    assert_eq!(hid_to_code(HIDCodes::B.to_u16(), &KeycodeType::ScanCode1), Some(0x30));
}
