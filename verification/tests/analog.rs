use wooting_analog_sdk::analog::{kind_to_bits, Analog};
use wooting_analog_sdk::result::{SDKResult, WootingAnalogResult};

const FAILURES: [WootingAnalogResult; 11] = [
    WootingAnalogResult::UnInitialized,
    WootingAnalogResult::NoDevices,
    WootingAnalogResult::DeviceDisconnected,
    WootingAnalogResult::Failure,
    WootingAnalogResult::InvalidArgument,
    WootingAnalogResult::NoPlugins,
    WootingAnalogResult::FunctionNotFound,
    WootingAnalogResult::NoMapping,
    WootingAnalogResult::NotAvailable,
    WootingAnalogResult::IncompatibleVersion,
    WootingAnalogResult::DLLNotFound,
];

fn read(value: f32) -> Result<f32, WootingAnalogResult> {
    SDKResult::<Analog>::from_bits(value.to_bits())
        .0
        .map(|level| f32::from_bits(level.to_bits()))
}

#[test]
fn levels_are_the_numbers_that_are_not_negative() {
    for value in [0.0f32, 0.25, 0.5, 0.9568627, 1.0, 1.5, 255.0, f32::MAX, f32::INFINITY].iter() {
        let level = Analog::from_bits(value.to_bits()).unwrap();
        assert_eq!(f32::from_bits(level.to_bits()), *value);
    }
    for value in [-0.000001f32, -0.5, -1.0, -2000.0, f32::MIN, f32::NEG_INFINITY, f32::NAN].iter() {
        assert!(Analog::from_bits(value.to_bits()).is_none());
    }
    assert!(Analog::from_bits((-f32::NAN).to_bits()).is_none());
}

#[test]
fn negative_zero_is_kept_as_zero() {
    let level = Analog::from_bits((-0.0f32).to_bits()).unwrap();
    assert_eq!(level.to_bits(), 0);
    assert_eq!(level, Analog::zero());
    assert!(level.is_zero());
    assert_eq!(read(-0.0), Ok(0.0));
}

#[test]
fn zero_and_full() {
    assert_eq!(f32::from_bits(Analog::zero().to_bits()), 0.0);
    assert_eq!(f32::from_bits(Analog::full().to_bits()), 1.0);
    assert!(Analog::zero().is_zero());
    assert!(!Analog::full().is_zero());
}

#[test]
fn max_is_the_greater_number() {
    let values = [0.0f32, 0.001, 0.4, 0.56, 0.9568627, 1.0, 3.0];
    for a in values.iter() {
        for b in values.iter() {
            let x = Analog::from_bits(a.to_bits()).unwrap();
            let y = Analog::from_bits(b.to_bits()).unwrap();
            assert_eq!(f32::from_bits(x.max(y).to_bits()), a.max(*b));
        }
    }
}

#[test]
fn failures_go_out_as_their_values() {
    for kind in FAILURES.iter() {
        let bits = SDKResult::<Analog>::err(*kind).into_bits();
        assert_eq!(f32::from_bits(bits), kind.to_i32() as f32);
        assert_eq!(kind_to_bits(*kind), bits);
    }
    assert_eq!(f32::from_bits(kind_to_bits(WootingAnalogResult::UnInitialized)), -2000.0);
    assert_eq!(f32::from_bits(kind_to_bits(WootingAnalogResult::NoDevices)), -1999.0);
    assert_eq!(f32::from_bits(kind_to_bits(WootingAnalogResult::DLLNotFound)), -1990.0);
    assert_eq!(f32::from_bits(kind_to_bits(WootingAnalogResult::OK)), 1.0);
}

#[test]
fn levels_go_out_as_they_are() {
    for value in [0.0f32, 0.4, 0.56, 0.9568627, 1.0].iter() {
        let level = Analog::from_bits(value.to_bits()).unwrap();
        assert_eq!(f32::from_bits(SDKResult::ok(level).into_bits()), *value);
    }
}

#[test]
fn numbers_below_zero_read_as_failures() {
    assert_eq!(read(-2000.0), Err(WootingAnalogResult::UnInitialized));
    assert_eq!(read(-1999.0), Err(WootingAnalogResult::NoDevices));
    assert_eq!(read(-1998.0), Err(WootingAnalogResult::DeviceDisconnected));
    assert_eq!(read(-1997.0), Err(WootingAnalogResult::Failure));
    assert_eq!(read(-1996.0), Err(WootingAnalogResult::InvalidArgument));
    assert_eq!(read(-1995.0), Err(WootingAnalogResult::NoPlugins));
    assert_eq!(read(-1994.0), Err(WootingAnalogResult::FunctionNotFound));
    assert_eq!(read(-1993.0), Err(WootingAnalogResult::NoMapping));
    assert_eq!(read(-1992.0), Err(WootingAnalogResult::NotAvailable));
    assert_eq!(read(-1991.0), Err(WootingAnalogResult::IncompatibleVersion));
    assert_eq!(read(-1990.0), Err(WootingAnalogResult::DLLNotFound));
}

#[test]
fn a_number_is_cut_to_a_whole_before_it_is_decoded() {
    assert_eq!(read(-1999.5), Err(WootingAnalogResult::NoDevices));
    assert_eq!(read(-1999.999), Err(WootingAnalogResult::NoDevices));
    assert_eq!(read(-2000.5), Err(WootingAnalogResult::UnInitialized));
    assert_eq!(read(-1990.9), Err(WootingAnalogResult::DLLNotFound));
    assert_eq!(read(-1989.9), Err(WootingAnalogResult::Failure));
    assert_eq!(read(-2001.0), Err(WootingAnalogResult::Failure));
}

#[test]
fn numbers_of_no_kind_read_as_failure() {
    for value in [-0.5f32, -1.0, -1.5, -1023.0, -1024.0, -1989.0, -2047.9, -2048.0, -4000.0, -1.0e30]
        .iter()
    {
        assert_eq!(read(*value), Err(WootingAnalogResult::Failure));
    }
    assert_eq!(read(f32::NEG_INFINITY), Err(WootingAnalogResult::Failure));
    assert_eq!(read(f32::NAN), Err(WootingAnalogResult::Failure));
    assert_eq!(read(-f32::NAN), Err(WootingAnalogResult::Failure));
    assert_eq!(read(f32::from_bits(0x7F80_0001)), Err(WootingAnalogResult::Failure));
    assert_eq!(read(f32::from_bits(0xFFFF_FFFF)), Err(WootingAnalogResult::Failure));
}

#[test]
fn numbers_that_are_not_negative_read_as_levels() {
    for value in [0.0f32, 0.1, 0.56, 1.0, 2.0, 2000.0, f32::INFINITY].iter() {
        assert_eq!(read(*value), Ok(*value));
    }
}

#[test]
fn the_channel_agrees_with_the_numbers_over_the_binade_of_the_failures() {
    // every number from -2048 to -1024 in steps of a sixteenth
    for sixteenths in (1024 * 16)..(2048 * 16) {
        let value = -(sixteenths as f32) / 16.0;
        let whole = value as i32;
        let expected = WootingAnalogResult::from_i32(whole).unwrap_or(WootingAnalogResult::Failure);
        assert_eq!(read(value), Err(expected));
    }
}

#[test]
fn failures_survive_the_channel() {
    for kind in FAILURES.iter() {
        let bits = SDKResult::<Analog>::err(*kind).into_bits();
        assert_eq!(SDKResult::<Analog>::from_bits(bits).0, Err(*kind));
    }
}
