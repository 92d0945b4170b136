use std::collections::HashMap;
use wooting_analog_sdk::analog::Analog;
use wooting_analog_sdk::device::{DeviceInfo, DeviceType};
use wooting_analog_sdk::result::{SDKResult, WootingAnalogResult};
use wooting_analog_sdk::wire::{buffer_from_wire, buffer_to_wire, cut_to_room};

fn level(value: f32) -> Analog {
    Analog::from_bits(value.to_bits()).unwrap()
}

fn read(codes: &[u16], values: &[f32], returned: i32) -> Result<HashMap<u16, f32>, WootingAnalogResult> {
    let patterns: Vec<u32> = values.iter().map(|v| v.to_bits()).collect();
    buffer_from_wire(codes, &patterns, returned)
        .0
        .map(|data| data.into_iter().map(|(c, l)| (c, f32::from_bits(l.to_bits()))).collect())
}

fn plain(pairs: &[(u16, f32)]) -> HashMap<u16, f32> {
    pairs.iter().cloned().collect()
}

#[test]
fn the_count_says_how_many_places_are_filled() {
    let codes = [5u16, 6, 7, 0, 0];
    let values = [0.4f32, 0.5, 0.6, 0.0, 0.0];
    assert_eq!(read(&codes, &values, 0), Ok(plain(&[])));
    assert_eq!(read(&codes, &values, 1), Ok(plain(&[(5, 0.4)])));
    assert_eq!(read(&codes, &values, 3), Ok(plain(&[(5, 0.4), (6, 0.5), (7, 0.6)])));
    assert_eq!(read(&codes, &values, 4), Ok(plain(&[(5, 0.4), (6, 0.5), (7, 0.6), (0, 0.0)])));
}

#[test]
fn no_more_places_are_read_than_there_are() {
    let codes = [5u16, 6, 7];
    let values = [0.4f32, 0.5, 0.6];
    assert_eq!(read(&codes, &values, 30), Ok(plain(&[(5, 0.4), (6, 0.5), (7, 0.6)])));
    assert_eq!(read(&codes, &values, i32::MAX), Ok(plain(&[(5, 0.4), (6, 0.5), (7, 0.6)])));
    assert_eq!(read(&codes, &values[..2], 3), Ok(plain(&[(5, 0.4), (6, 0.5)])));
    assert_eq!(read(&codes[..1], &values, 3), Ok(plain(&[(5, 0.4)])));
    assert_eq!(read(&[], &[], 3), Ok(plain(&[])));
}

#[test]
fn a_negative_count_is_a_failure() {
    let codes = [5u16, 6, 7];
    let values = [0.4f32, 0.5, 0.6];
    assert_eq!(read(&codes, &values, -1999), Err(WootingAnalogResult::NoDevices));
    assert_eq!(read(&codes, &values, -2000), Err(WootingAnalogResult::UnInitialized));
    assert_eq!(read(&codes, &values, -1), Err(WootingAnalogResult::Failure));
    assert_eq!(read(&codes, &values, i32::MIN), Err(WootingAnalogResult::Failure));
}

#[test]
fn a_later_place_replaces_an_earlier_one() {
    assert_eq!(read(&[5, 6, 5], &[0.4, 0.5, 0.1], 3), Ok(plain(&[(5, 0.1), (6, 0.5)])));
}

#[test]
fn a_place_that_holds_no_level_is_passed_over() {
    assert_eq!(
        read(&[5, 6, 7, 8], &[-1.0, 0.5, f32::NAN, -0.0], 4),
        Ok(plain(&[(6, 0.5), (8, 0.0)]))
    );
}

fn written(data: &[(u16, f32)], len: usize) -> Vec<(u16, f32)> {
    let data: HashMap<u16, Analog> = data.iter().map(|(c, v)| (*c, level(*v))).collect();
    let (codes, patterns) = buffer_to_wire(&data, len);
    assert_eq!(codes.len(), patterns.len());
    let mut pairs: Vec<(u16, f32)> = codes
        .into_iter()
        .zip(patterns.into_iter().map(f32::from_bits))
        .collect();
    pairs.sort_by(|a, b| a.0.cmp(&b.0));
    pairs
}

#[test]
fn a_buffer_is_written_key_by_key() {
    assert_eq!(written(&[], 5), vec![]);
    assert_eq!(written(&[(5, 0.4)], 5), vec![(5, 0.4)]);
    assert_eq!(written(&[(5, 0.4), (6, 0.0), (0x0400, 1.0)], 5), vec![(5, 0.4), (6, 0.0), (0x0400, 1.0)]);
    assert_eq!(written(&[(5, 0.4), (6, 0.0), (0x0400, 1.0)], 3), vec![(5, 0.4), (6, 0.0), (0x0400, 1.0)]);
}

#[test]
fn a_buffer_is_written_as_far_as_there_is_room() {
    let data = [(5u16, 0.4f32), (6, 0.5), (7, 0.6), (8, 0.7)];
    assert_eq!(written(&data, 0), vec![]);
    for len in 1..4 {
        let pairs = written(&data, len);
        assert_eq!(pairs.len(), len);
        for pair in pairs.iter() {
            assert!(data.contains(pair));
        }
        for i in 1..pairs.len() {
            assert!(pairs[i - 1].0 < pairs[i].0);
        }
    }
}

#[test]
fn what_is_written_is_read_back() {
    let data = [(5u16, 0.4f32), (6, 0.0), (7, 0.6), (0xe037, 1.0)];
    let map: HashMap<u16, Analog> = data.iter().map(|(c, v)| (*c, level(*v))).collect();
    let (codes, patterns) = buffer_to_wire(&map, 10);
    let count = SDKResult::<u32>::ok(codes.len() as u32).into_int();
    assert_eq!(count, 4);
    assert_eq!(buffer_from_wire(&codes, &patterns, count).0, Ok(map));
}

fn info(id: u64) -> DeviceInfo {
    DeviceInfo::new_with_id(1, 2, "m".to_owned(), "n".to_owned(), id, DeviceType::Keyboard)
}

fn cut(ids: &[u64], len: u32) -> Vec<u64> {
    cut_to_room(ids.iter().map(|id| info(*id)).collect(), len).iter().map(|d| d.device_id).collect()
}

#[test]
fn devices_are_handed_out_as_far_as_there_is_room() {
    assert_eq!(cut(&[1, 2, 3], 0), vec![]);
    assert_eq!(cut(&[1, 2, 3], 1), vec![1]);
    assert_eq!(cut(&[1, 2, 3], 2), vec![1, 2]);
    assert_eq!(cut(&[1, 2, 3], 3), vec![1, 2, 3]);
    assert_eq!(cut(&[1, 2, 3], 4), vec![1, 2, 3]);
    assert_eq!(cut(&[1, 2, 3], u32::MAX), vec![1, 2, 3]);
    assert_eq!(cut(&[], 2), vec![]);
}
