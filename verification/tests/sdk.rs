use std::cell::RefCell;
use std::collections::HashMap;
use std::rc::Rc;
use wooting_analog_sdk::analog::Analog;
use wooting_analog_sdk::device::{DeviceEventType, DeviceID, DeviceInfo, DeviceType};
use wooting_analog_sdk::device_table::DeviceTable;
use wooting_analog_sdk::keycode::{code_to_hid, hid_to_code, KeycodeType};
use wooting_analog_sdk::plugin::Plugin;
use wooting_analog_sdk::result::{SDKResult, WootingAnalogResult};
use wooting_analog_sdk::sdk::AnalogSDK;

fn level(value: f32) -> Analog {
    Analog::from_bits(value.to_bits()).unwrap()
}

fn number(level: Analog) -> f32 {
    f32::from_bits(level.to_bits())
}

fn numbers(result: SDKResult<HashMap<u16, Analog>>) -> Result<HashMap<u16, f32>, WootingAnalogResult> {
    result.0.map(|data| data.into_iter().map(|(code, level)| (code, number(level))).collect())
}

fn info(id: DeviceID) -> DeviceInfo {
    DeviceInfo::new_with_id(
        0x03EB,
        0xFFFF,
        "Wooting".to_owned(),
        "Test Device".to_owned(),
        id,
        DeviceType::Keyboard,
    )
}

#[derive(Debug, Clone, PartialEq)]
enum Call {
    Name,
    Initialise,
    Unload,
    DeviceInfo,
    ReadAnalog(u16, DeviceID),
    ReadFullBuffer(usize, DeviceID),
}

type Calls = Rc<RefCell<Vec<(usize, Call)>>>;

/// A plugin that answers what it was told to answer and notes what it was asked.
struct ScriptedPlugin {
    seat: usize,
    calls: Calls,
    start: Result<u32, WootingAnalogResult>,
    started: bool,
    analog: Result<f32, WootingAnalogResult>,
    buffer: Result<Vec<(u16, f32)>, WootingAnalogResult>,
    devices: Result<Vec<DeviceID>, WootingAnalogResult>,
}

impl ScriptedPlugin {
    fn new(seat: usize, calls: &Calls) -> ScriptedPlugin {
        ScriptedPlugin {
            seat,
            calls: calls.clone(),
            start: Ok(0),
            started: false,
            analog: Err(WootingAnalogResult::NoDevices),
            buffer: Err(WootingAnalogResult::NoDevices),
            devices: Ok(vec![]),
        }
    }

    fn failing_start(mut self, kind: WootingAnalogResult) -> ScriptedPlugin {
        self.start = Err(kind);
        self
    }

    fn finding(mut self, devices: u32) -> ScriptedPlugin {
        self.start = Ok(devices);
        self
    }

    fn answering(mut self, analog: Result<f32, WootingAnalogResult>) -> ScriptedPlugin {
        self.analog = analog;
        self
    }

    fn holding(mut self, buffer: Result<Vec<(u16, f32)>, WootingAnalogResult>) -> ScriptedPlugin {
        self.buffer = buffer;
        self
    }

    fn listing(mut self, devices: Result<Vec<DeviceID>, WootingAnalogResult>) -> ScriptedPlugin {
        self.devices = devices;
        self
    }

    fn note(&self, call: Call) {
        self.calls.borrow_mut().push((self.seat, call));
    }
}

impl Plugin for ScriptedPlugin {
    fn name(&mut self) -> SDKResult<&'static str> {
        self.note(Call::Name);
        SDKResult::ok("Scripted Plugin")
    }

    fn initialise(&mut self) -> SDKResult<u32> {
        self.note(Call::Initialise);
        self.started = self.start.is_ok();
        SDKResult(self.start.clone())
    }

    fn is_initialised(&mut self) -> bool {
        self.started
    }

    fn unload(&mut self) {
        self.note(Call::Unload);
        self.started = false;
    }

    fn device_info(&mut self) -> SDKResult<Vec<DeviceInfo>> {
        self.note(Call::DeviceInfo);
        SDKResult(self.devices.clone().map(|ids| ids.into_iter().map(info).collect()))
    }

    fn read_analog(&mut self, code: u16, device: DeviceID) -> SDKResult<Analog> {
        self.note(Call::ReadAnalog(code, device));
        SDKResult(self.analog.clone().map(level))
    }

    fn read_full_buffer(&mut self, max_length: usize, device: DeviceID) -> SDKResult<HashMap<u16, Analog>> {
        self.note(Call::ReadFullBuffer(max_length, device));
        SDKResult(
            self.buffer
                .clone()
                .map(|pairs| pairs.into_iter().map(|(code, value)| (code, level(value))).collect()),
        )
    }
}

type Callback = fn(DeviceEventType, DeviceInfo);
type Sdk = AnalogSDK<ScriptedPlugin, Callback, &'static str>;

fn cb(_event: DeviceEventType, _device: DeviceInfo) {}

fn other_cb(_event: DeviceEventType, _device: DeviceInfo) {}

fn calls() -> Calls {
    Rc::new(RefCell::new(vec![]))
}

fn uninitialised_sdk_functions(sdk: &mut Sdk) {
    assert_eq!(sdk.initialised, false);
    assert_eq!(sdk.set_device_event_cb(cb).0, Err(WootingAnalogResult::UnInitialized));
    assert_eq!(sdk.clear_device_event_cb().0, Err(WootingAnalogResult::UnInitialized));
    assert_eq!(sdk.read_analog(0, 0).0, Err(WootingAnalogResult::UnInitialized));
    assert_eq!(sdk.get_device_info().0.err(), Some(WootingAnalogResult::UnInitialized));

    assert_eq!(sdk.read_full_buffer(0, 0).0, Err(WootingAnalogResult::UnInitialized));
}

#[test]
fn an_uninitialised_runtime_reads_no_hid_code_either() {
    let log = calls();
    let mut sdk = Sdk::new();
    let plugin = ScriptedPlugin::new(0, &log).failing_start(WootingAnalogResult::Failure).answering(Ok(0.5));
    assert_eq!(sdk.initialise_with(vec![plugin]).0, Err(WootingAnalogResult::NoPlugins));
    log.borrow_mut().clear();
    assert_eq!(sdk.read_analog_hid(5, 0).0, Err(WootingAnalogResult::UnInitialized));
    assert_eq!(sdk.read_analog_hid(5, 1).0, Err(WootingAnalogResult::UnInitialized));
    assert!(log.borrow().is_empty());
    let fresh: Sdk = Default::default();
    assert!(!fresh.is_initialised());
    assert_eq!(fresh.plugin_count(), 0);
}

#[test]
fn unitialised_sdk_functions_new() {
    let mut sdk = Sdk::new();
    uninitialised_sdk_functions(&mut sdk);
}

#[test]
fn sdk_unitialised_sdk_functions_new() {
    let mut sdk: Sdk = AnalogSDK::new();
    uninitialised_sdk_functions(&mut sdk);
    assert_eq!(sdk.set_keycode_mode(1, true), WootingAnalogResult::UnInitialized);
    assert_eq!(sdk.keycode_mode, KeycodeType::HID);
}

#[test]
fn uninitialised_after_a_failed_start() {
    let log = calls();
    let mut sdk = Sdk::new();
    let plugin = ScriptedPlugin::new(0, &log)
        .failing_start(WootingAnalogResult::Failure)
        .answering(Ok(0.5));
    assert_eq!(sdk.initialise_with(vec![plugin]).0, Err(WootingAnalogResult::NoPlugins));
    assert!(!sdk.is_initialised());
    assert_eq!(sdk.plugin_count(), 1);
    uninitialised_sdk_functions(&mut sdk);
    // nothing but the start went to the plugin
    assert_eq!(*log.borrow(), vec![(0, Call::Initialise)]);
}

#[test]
fn a_new_runtime_is_empty() {
    let sdk = Sdk::new();
    assert!(!sdk.initialised);
    assert!(!sdk.is_initialised());
    assert_eq!(sdk.keycode_mode, KeycodeType::HID);
    assert_eq!(sdk.keycode_mode(), KeycodeType::HID);
    assert_eq!(sdk.plugin_count(), 0);
    assert_eq!(sdk.library_count(), 0);
    assert!(sdk.device_event_cb().is_none());
}

#[test]
fn starting_without_plugins_is_no_plugins() {
    let mut sdk = Sdk::new();
    assert_eq!(sdk.initialise_with(vec![]).0, Err(WootingAnalogResult::NoPlugins));
    assert!(!sdk.initialised);
}

#[test]
fn starting_with_a_plugin_without_devices_is_zero() {
    let log = calls();
    let mut sdk = Sdk::new();
    assert!(!sdk.initialised);
    assert_eq!(sdk.initialise_with(vec![ScriptedPlugin::new(0, &log)]).0, Ok(0));
    assert!(sdk.initialised);
}

#[test]
fn a_start_counts_the_devices_of_the_plugins_that_started() {
    let log = calls();
    let mut sdk = Sdk::new();
    let plugins = vec![
        ScriptedPlugin::new(0, &log).finding(2),
        ScriptedPlugin::new(1, &log).failing_start(WootingAnalogResult::NoDevices),
        ScriptedPlugin::new(2, &log).finding(5),
    ];
    assert_eq!(sdk.initialise_with(plugins).0, Ok(7));
    assert!(sdk.is_initialised());
    assert_eq!(sdk.plugin_count(), 3);
    assert_eq!(
        *log.borrow(),
        vec![(0, Call::Initialise), (1, Call::Initialise), (2, Call::Initialise)]
    );
}

#[test]
fn a_start_caps_the_device_count() {
    let log = calls();
    let mut sdk = Sdk::new();
    let plugins = vec![
        ScriptedPlugin::new(0, &log).finding(u32::MAX - 1),
        ScriptedPlugin::new(1, &log).finding(5),
    ];
    assert_eq!(sdk.initialise_with(plugins).0, Ok(u32::MAX));
}

#[test]
fn a_start_fails_when_every_plugin_fails() {
    let log = calls();
    let mut sdk = Sdk::new();
    let plugins = vec![
        ScriptedPlugin::new(0, &log).failing_start(WootingAnalogResult::Failure),
        ScriptedPlugin::new(1, &log).failing_start(WootingAnalogResult::NoDevices),
    ];
    assert_eq!(sdk.initialise_with(plugins).0, Err(WootingAnalogResult::NoPlugins));
    assert!(!sdk.is_initialised());
    assert_eq!(sdk.plugin_count(), 2);
}

#[test]
fn unloading_leaves_nothing_behind() {
    let log = calls();
    let mut sdk = Sdk::new();
    sdk.retain_library("first");
    sdk.retain_library("second");
    let plugins = vec![ScriptedPlugin::new(0, &log), ScriptedPlugin::new(1, &log)];
    assert_eq!(sdk.initialise_with(plugins).0, Ok(0));
    assert_eq!(sdk.set_keycode_mode(1, false), WootingAnalogResult::OK);
    assert_eq!(sdk.set_device_event_cb(cb).0, Ok(()));
    assert_eq!(sdk.library_count(), 2);
    log.borrow_mut().clear();

    sdk.unload();
    assert!(!sdk.is_initialised());
    assert_eq!(sdk.plugin_count(), 0);
    assert_eq!(sdk.library_count(), 0);
    assert!(sdk.device_event_cb().is_none());
    assert_eq!(sdk.keycode_mode(), KeycodeType::ScanCode1);
    assert_eq!(*log.borrow(), vec![(0, Call::Unload), (1, Call::Unload)]);
}

#[test]
fn unloading_twice_is_unloading_once() {
    let log = calls();
    let mut sdk = Sdk::new();
    assert_eq!(sdk.initialise_with(vec![ScriptedPlugin::new(0, &log)]).0, Ok(0));
    sdk.unload();
    log.borrow_mut().clear();
    sdk.unload();
    assert!(!sdk.is_initialised());
    assert_eq!(sdk.plugin_count(), 0);
    assert_eq!(sdk.library_count(), 0);
    assert!(sdk.device_event_cb().is_none());
    assert!(log.borrow().is_empty());
    uninitialised_sdk_functions(&mut sdk);
}

#[test]
fn starting_again_begins_afresh() {
    let log = calls();
    let mut sdk = Sdk::new();
    sdk.retain_library("old");
    assert_eq!(sdk.initialise_with(vec![ScriptedPlugin::new(0, &log).finding(1)]).0, Ok(1));
    assert_eq!(sdk.set_device_event_cb(cb).0, Ok(()));
    log.borrow_mut().clear();

    sdk.prepare_start();
    assert!(!sdk.is_initialised());
    assert_eq!(sdk.plugin_count(), 0);
    assert_eq!(sdk.library_count(), 0);
    sdk.retain_library("new");
    assert_eq!(sdk.initialise_with(vec![ScriptedPlugin::new(1, &log).finding(3)]).0, Ok(3));
    assert!(sdk.is_initialised());
    assert_eq!(sdk.plugin_count(), 1);
    assert_eq!(sdk.library_count(), 1);
    assert!(sdk.device_event_cb().is_none());
    assert_eq!(*log.borrow(), vec![(0, Call::Unload), (1, Call::Initialise)]);
}

#[test]
fn starting_an_initialised_runtime_unloads_it_first() {
    let log = calls();
    let mut sdk = Sdk::new();
    assert_eq!(sdk.initialise_with(vec![ScriptedPlugin::new(0, &log).finding(1)]).0, Ok(1));
    log.borrow_mut().clear();
    assert_eq!(sdk.initialise_with(vec![ScriptedPlugin::new(1, &log).finding(3)]).0, Ok(3));
    assert_eq!(sdk.plugin_count(), 1);
    assert_eq!(*log.borrow(), vec![(0, Call::Unload), (1, Call::Initialise)]);
}

#[test]
fn plugins_that_did_not_start_stay_for_the_next_start() {
    let log = calls();
    let mut sdk = Sdk::new();
    let failing = ScriptedPlugin::new(0, &log).failing_start(WootingAnalogResult::Failure);
    assert_eq!(sdk.initialise_with(vec![failing]).0, Err(WootingAnalogResult::NoPlugins));
    log.borrow_mut().clear();
    assert_eq!(sdk.initialise_with(vec![ScriptedPlugin::new(1, &log).finding(2)]).0, Ok(2));
    assert_eq!(sdk.plugin_count(), 2);
    assert_eq!(*log.borrow(), vec![(0, Call::Initialise), (1, Call::Initialise)]);
}

#[test]
fn libraries_are_kept_and_handed_back() {
    let mut sdk = Sdk::new();
    assert_eq!(sdk.release_library(), None);
    sdk.retain_library("a");
    sdk.retain_library("b");
    assert_eq!(sdk.library_count(), 2);
    assert_eq!(sdk.release_library(), Some("b"));
    assert_eq!(sdk.library_count(), 1);
    assert_eq!(sdk.release_library(), Some("a"));
    assert_eq!(sdk.release_library(), None);
    assert_eq!(sdk.library_count(), 0);
}

#[test]
fn the_callback_slot_is_set_replaced_and_cleared() {
    let log = calls();
    let mut sdk = Sdk::new();
    assert_eq!(sdk.initialise_with(vec![ScriptedPlugin::new(0, &log)]).0, Ok(0));
    assert!(sdk.device_event_cb().is_none());
    assert_eq!(sdk.clear_device_event_cb().0, Ok(()));
    assert_eq!(sdk.set_device_event_cb(cb).0, Ok(()));
    assert!(*sdk.device_event_cb().unwrap() as usize == cb as usize);
    assert_eq!(sdk.set_device_event_cb(other_cb).0, Ok(()));
    assert!(*sdk.device_event_cb().unwrap() as usize == other_cb as usize);
    assert_eq!(sdk.clear_device_event_cb().0, Ok(()));
    assert!(sdk.device_event_cb().is_none());
}

#[test]
fn keycode_mode_is_selected_by_number() {
    let log = calls();
    let mut sdk = Sdk::new();
    assert_eq!(sdk.initialise_with(vec![ScriptedPlugin::new(0, &log)]).0, Ok(0));
    assert_eq!(sdk.set_keycode_mode(1, false), WootingAnalogResult::OK);
    assert_eq!(sdk.keycode_mode, KeycodeType::ScanCode1);
    assert_eq!(sdk.set_keycode_mode(0, false), WootingAnalogResult::OK);
    assert_eq!(sdk.keycode_mode, KeycodeType::HID);
    assert_eq!(sdk.set_keycode_mode(2, false), WootingAnalogResult::NotAvailable);
    assert_eq!(sdk.set_keycode_mode(3, false), WootingAnalogResult::NotAvailable);
    assert_eq!(sdk.keycode_mode, KeycodeType::HID);
    assert_eq!(sdk.set_keycode_mode(4, false), WootingAnalogResult::InvalidArgument);
    assert_eq!(sdk.set_keycode_mode(4, true), WootingAnalogResult::InvalidArgument);
    assert_eq!(sdk.set_keycode_mode(u32::MAX, true), WootingAnalogResult::InvalidArgument);
    assert_eq!(sdk.keycode_mode, KeycodeType::HID);
    assert_eq!(sdk.set_keycode_mode(2, true), WootingAnalogResult::OK);
    assert_eq!(sdk.keycode_mode, KeycodeType::VirtualKey);
    assert_eq!(sdk.set_keycode_mode(3, true), WootingAnalogResult::OK);
    assert_eq!(sdk.keycode_mode, KeycodeType::VirtualKeyTranslate);
}

fn started(plugins: Vec<ScriptedPlugin>) -> Sdk {
    let mut sdk = Sdk::new();
    assert!(sdk.initialise_with(plugins).0.is_ok());
    sdk
}

#[test]
fn a_read_for_any_device_takes_the_greatest_level() {
    let log = calls();
    let mut sdk = started(vec![
        ScriptedPlugin::new(0, &log).answering(Ok(0.25)),
        ScriptedPlugin::new(1, &log).answering(Err(WootingAnalogResult::NoDevices)),
        ScriptedPlugin::new(2, &log).answering(Ok(0.75)),
        ScriptedPlugin::new(3, &log).answering(Ok(0.5)),
    ]);
    log.borrow_mut().clear();
    assert_eq!(sdk.read_analog(5, 0).0.map(number), Ok(0.75));
    assert_eq!(
        *log.borrow(),
        vec![
            (0, Call::ReadAnalog(5, 0)),
            (1, Call::ReadAnalog(5, 0)),
            (2, Call::ReadAnalog(5, 0)),
            (3, Call::ReadAnalog(5, 0)),
        ]
    );
}

#[test]
fn a_read_for_one_device_stops_at_the_first_success() {
    let log = calls();
    let mut sdk = started(vec![
        ScriptedPlugin::new(0, &log).answering(Err(WootingAnalogResult::NoDevices)),
        ScriptedPlugin::new(1, &log).answering(Ok(0.25)),
        ScriptedPlugin::new(2, &log).answering(Ok(0.75)),
    ]);
    log.borrow_mut().clear();
    assert_eq!(sdk.read_analog(5, 17).0.map(number), Ok(0.25));
    assert_eq!(*log.borrow(), vec![(0, Call::ReadAnalog(5, 17)), (1, Call::ReadAnalog(5, 17))]);
}

#[test]
fn a_read_that_hears_only_failures_returns_the_last() {
    let log = calls();
    let mut sdk = started(vec![
        ScriptedPlugin::new(0, &log).answering(Err(WootingAnalogResult::DeviceDisconnected)),
        ScriptedPlugin::new(1, &log).answering(Err(WootingAnalogResult::NoDevices)),
    ]);
    assert_eq!(sdk.read_analog(5, 0).0, Err(WootingAnalogResult::NoDevices));
    assert_eq!(sdk.read_analog(5, 3).0, Err(WootingAnalogResult::NoDevices));
}

#[test]
fn a_level_of_zero_is_a_value() {
    let log = calls();
    let mut sdk = started(vec![
        ScriptedPlugin::new(0, &log).answering(Err(WootingAnalogResult::NoDevices)),
        ScriptedPlugin::new(1, &log).answering(Ok(0.0)),
    ]);
    assert_eq!(sdk.read_analog(5, 0).0.map(number), Ok(0.0));
}

#[test]
fn a_code_without_mapping_asks_no_plugin() {
    let log = calls();
    let mut sdk = started(vec![ScriptedPlugin::new(0, &log).answering(Ok(0.5))]);
    log.borrow_mut().clear();
    assert_eq!(sdk.read_analog(0x0105, 0).0, Err(WootingAnalogResult::NoMapping));
    assert_eq!(sdk.read_analog(0xE005, 0).0, Err(WootingAnalogResult::NoMapping));
    assert_eq!(sdk.set_keycode_mode(1, false), WootingAnalogResult::OK);
    assert_eq!(sdk.read_analog(0x00FF, 0).0, Err(WootingAnalogResult::NoMapping));
    assert!(log.borrow().is_empty());
}

#[test]
fn plugins_are_asked_for_the_hid_code() {
    let log = calls();
    let mut sdk = started(vec![ScriptedPlugin::new(0, &log).answering(Ok(0.5))]);
    assert_eq!(sdk.set_keycode_mode(1, false), WootingAnalogResult::OK);
    log.borrow_mut().clear();
    // scan code 0x30 is the key B, HID usage code 5
    assert_eq!(sdk.read_analog(0x30, 0).0.map(number), Ok(0.5));
    assert_eq!(sdk.read_analog(0x0400, 9).0.map(number), Ok(0.5));
    assert_eq!(sdk.read_analog_hid(5, 0).0.map(number), Ok(0.5));
    assert_eq!(
        *log.borrow(),
        vec![
            (0, Call::ReadAnalog(5, 0)),
            (0, Call::ReadAnalog(0x0400, 9)),
            (0, Call::ReadAnalog(5, 0)),
        ]
    );
}

#[test]
fn a_read_in_a_mode_is_the_read_of_the_translated_code_in_hid_mode() {
    let log = calls();
    let mut sdk = started(vec![ScriptedPlugin::new(0, &log).answering(Ok(0.3))]);
    for mode in [KeycodeType::HID, KeycodeType::ScanCode1].iter() {
        for code in [0x04u16, 0x1e, 0x30, 0x0137, 0xe037, 0x0400, 0xfffe].iter() {
            if let Some(hid) = code_to_hid(*code, mode) {
                log.borrow_mut().clear();
                sdk.keycode_mode = *mode;
                let in_mode = sdk.read_analog(*code, 0).0;
                sdk.keycode_mode = KeycodeType::HID;
                let in_hid = sdk.read_analog(hid, 0).0;
                assert_eq!(in_mode, in_hid);
                let asked = log.borrow().clone();
                assert_eq!(asked.len(), 2);
                assert_eq!(asked[0], asked[1]);
            }
        }
    }
}

#[test]
fn buffers_are_gathered_under_the_greatest_level() {
    let log = calls();
    let mut sdk = started(vec![
        ScriptedPlugin::new(0, &log).holding(Ok(vec![(4, 0.2), (5, 0.9)])),
        ScriptedPlugin::new(1, &log).holding(Err(WootingAnalogResult::NoDevices)),
        ScriptedPlugin::new(2, &log).holding(Ok(vec![(5, 0.4), (6, 0.0), (4, 0.6)])),
    ]);
    log.borrow_mut().clear();
    let data = numbers(sdk.read_full_buffer(10, 0)).unwrap();
    let mut expected = HashMap::new();
    expected.insert(4, 0.6);
    expected.insert(5, 0.9);
    expected.insert(6, 0.0);
    assert_eq!(data, expected);
    assert_eq!(
        *log.borrow(),
        vec![
            (0, Call::ReadFullBuffer(10, 0)),
            (1, Call::ReadFullBuffer(8, 0)),
            (2, Call::ReadFullBuffer(8, 0)),
        ]
    );
}

#[test]
fn every_plugin_is_asked_for_the_room_that_is_left() {
    let log = calls();
    let mut sdk = started(vec![
        ScriptedPlugin::new(0, &log).holding(Ok(vec![(4, 0.2), (5, 0.9), (6, 0.3)])),
        ScriptedPlugin::new(1, &log).holding(Ok(vec![(7, 0.2)])),
        ScriptedPlugin::new(2, &log).holding(Ok(vec![])),
    ]);
    log.borrow_mut().clear();
    let data = numbers(sdk.read_full_buffer(2, 0)).unwrap();
    assert_eq!(data.len(), 4);
    assert_eq!(
        *log.borrow(),
        vec![
            (0, Call::ReadFullBuffer(2, 0)),
            (1, Call::ReadFullBuffer(0, 0)),
            (2, Call::ReadFullBuffer(0, 0)),
        ]
    );
}

#[test]
fn a_buffer_read_for_one_device_stops_at_the_first_success() {
    let log = calls();
    let mut sdk = started(vec![
        ScriptedPlugin::new(0, &log).holding(Err(WootingAnalogResult::NoDevices)),
        ScriptedPlugin::new(1, &log).holding(Ok(vec![(5, 0.4)])),
        ScriptedPlugin::new(2, &log).holding(Ok(vec![(5, 0.9)])),
    ]);
    log.borrow_mut().clear();
    let data = numbers(sdk.read_full_buffer(10, 7)).unwrap();
    let mut expected = HashMap::new();
    expected.insert(5, 0.4);
    assert_eq!(data, expected);
    assert_eq!(
        *log.borrow(),
        vec![(0, Call::ReadFullBuffer(10, 7)), (1, Call::ReadFullBuffer(10, 7))]
    );
}

#[test]
fn a_buffer_read_that_hears_only_failures_returns_the_last() {
    let log = calls();
    let mut sdk = started(vec![
        ScriptedPlugin::new(0, &log).holding(Err(WootingAnalogResult::DeviceDisconnected)),
        ScriptedPlugin::new(1, &log).holding(Err(WootingAnalogResult::NoDevices)),
    ]);
    assert_eq!(numbers(sdk.read_full_buffer(10, 0)), Err(WootingAnalogResult::NoDevices));
    assert_eq!(numbers(sdk.read_full_buffer(10, 1)), Err(WootingAnalogResult::NoDevices));
}

#[test]
fn an_empty_buffer_is_a_success() {
    let log = calls();
    let mut sdk = started(vec![
        ScriptedPlugin::new(0, &log).holding(Err(WootingAnalogResult::NoDevices)),
        ScriptedPlugin::new(1, &log).holding(Ok(vec![])),
    ]);
    assert_eq!(numbers(sdk.read_full_buffer(10, 0)), Ok(HashMap::new()));
}

#[test]
fn buffers_come_in_the_selected_namespace() {
    let log = calls();
    let mut sdk = started(vec![ScriptedPlugin::new(0, &log).holding(Ok(vec![
        (5, 0.4),
        (0x46, 0.5),
        (0x32, 0.6),
        (0x0400, 0.7),
        (0x0105, 0.8),
    ]))]);
    assert_eq!(sdk.set_keycode_mode(1, false), WootingAnalogResult::OK);
    let data = numbers(sdk.read_full_buffer(10, 0)).unwrap();
    let mut expected = HashMap::new();
    expected.insert(hid_to_code(5, &KeycodeType::ScanCode1).unwrap(), 0.4);
    expected.insert(0xe037, 0.5);
    expected.insert(0x0400, 0.7);
    assert_eq!(data, expected);
    assert_eq!(hid_to_code(5, &KeycodeType::ScanCode1), Some(0x30));
}

#[test]
fn devices_are_listed_in_the_order_of_the_plugins() {
    let log = calls();
    let mut sdk = started(vec![
        ScriptedPlugin::new(0, &log).listing(Ok(vec![3, 4])),
        ScriptedPlugin::new(1, &log).listing(Err(WootingAnalogResult::Failure)),
        ScriptedPlugin::new(2, &log).failing_start(WootingAnalogResult::Failure).listing(Ok(vec![9])),
        ScriptedPlugin::new(3, &log).listing(Ok(vec![7])),
    ]);
    log.borrow_mut().clear();
    let devices = sdk.get_device_info().0.unwrap();
    let ids: Vec<DeviceID> = devices.iter().map(|d| d.device_id).collect();
    assert_eq!(ids, vec![3, 4, 7]);
    // the plugin that did not start is not asked
    assert_eq!(
        *log.borrow(),
        vec![(0, Call::DeviceInfo), (1, Call::DeviceInfo), (3, Call::DeviceInfo)]
    );
}

#[test]
fn a_listing_fails_only_where_nothing_is_listed() {
    let log = calls();
    let mut sdk = started(vec![
        ScriptedPlugin::new(0, &log).listing(Err(WootingAnalogResult::Failure)),
        ScriptedPlugin::new(1, &log).listing(Ok(vec![])),
        ScriptedPlugin::new(2, &log).listing(Err(WootingAnalogResult::DeviceDisconnected)),
    ]);
    assert_eq!(sdk.get_device_info().0.err(), Some(WootingAnalogResult::DeviceDisconnected));
    let mut sdk = started(vec![ScriptedPlugin::new(0, &log).listing(Ok(vec![]))]);
    assert_eq!(sdk.get_device_info().0.map(|d| d.len()), Ok(0));
}

/// A plugin with one virtual keyboard, served from a device table.
struct VirtualKeyboard {
    table: DeviceTable,
    plugged: bool,
}

impl VirtualKeyboard {
    fn new() -> VirtualKeyboard {
        VirtualKeyboard { table: DeviceTable::new(), plugged: false }
    }

    fn plug(&mut self) {
        assert!(self.table.connect(info(1)));
        self.plugged = true;
    }

    fn unplug(&mut self) -> Vec<DeviceInfo> {
        assert!(self.table.mark_disconnected(1));
        self.plugged = false;
        self.table.sweep()
    }

    fn set(&mut self, raw: &[(u16, u8)]) {
        let snapshot: HashMap<u16, Analog> = raw
            .iter()
            .filter(|(_, value)| *value > 0)
            .map(|(code, value)| (*code, level(f32::from(*value) / 255_f32)))
            .collect();
        assert!(self.table.publish(1, snapshot));
    }
}

impl Plugin for VirtualKeyboard {
    fn name(&mut self) -> SDKResult<&'static str> {
        SDKResult::ok("Virtual Keyboard")
    }

    fn initialise(&mut self) -> SDKResult<u32> {
        self.table.conclude_start(true)
    }

    fn is_initialised(&mut self) -> bool {
        self.table.is_initialised()
    }

    fn unload(&mut self) {
        self.table.unload()
    }

    fn device_info(&mut self) -> SDKResult<Vec<DeviceInfo>> {
        self.table.device_info()
    }

    fn read_analog(&mut self, code: u16, device: DeviceID) -> SDKResult<Analog> {
        self.table.read_analog(code, device)
    }

    fn read_full_buffer(&mut self, max_length: usize, device: DeviceID) -> SDKResult<HashMap<u16, Analog>> {
        self.table.read_full_buffer(max_length, device)
    }
}

/// The keyboard as the runtime holds it, while the test keeps a hand on it.
struct Shared(Rc<RefCell<VirtualKeyboard>>);

type KeyboardSdk = AnalogSDK<Shared, Callback, ()>;

impl Plugin for Shared {
    fn name(&mut self) -> SDKResult<&'static str> {
        self.0.borrow_mut().name()
    }

    fn initialise(&mut self) -> SDKResult<u32> {
        self.0.borrow_mut().initialise()
    }

    fn is_initialised(&mut self) -> bool {
        self.0.borrow_mut().is_initialised()
    }

    fn unload(&mut self) {
        self.0.borrow_mut().unload()
    }

    fn device_info(&mut self) -> SDKResult<Vec<DeviceInfo>> {
        self.0.borrow_mut().device_info()
    }

    fn read_analog(&mut self, code: u16, device: DeviceID) -> SDKResult<Analog> {
        self.0.borrow_mut().read_analog(code, device)
    }

    fn read_full_buffer(&mut self, max_length: usize, device: DeviceID) -> SDKResult<HashMap<u16, Analog>> {
        self.0.borrow_mut().read_full_buffer(max_length, device)
    }
}

fn keyboard_sdk() -> (KeyboardSdk, Rc<RefCell<VirtualKeyboard>>) {
    let keyboard = Rc::new(RefCell::new(VirtualKeyboard::new()));
    let mut sdk = KeyboardSdk::new();
    assert_eq!(sdk.initialise_with(vec![Shared(keyboard.clone())]).0, Ok(0));
    assert!(sdk.initialised);
    (sdk, keyboard)
}

#[test]
fn a_pressed_key_is_read_at_its_level() {
    let (mut sdk, keyboard) = keyboard_sdk();
    let analog_val = 0xF4;
    let f_analog_val = f32::from(analog_val) / 255_f32;
    let analog_key = 5;
    let device_id = 1;

    // no device yet
    assert_eq!(sdk.get_device_info().0.map(|dev| dev.len()), Ok(0));
    assert_eq!(sdk.read_analog(analog_key, 0).0, Err(WootingAnalogResult::NoDevices));

    keyboard.borrow_mut().plug();
    assert_eq!(sdk.read_analog(1, 0).0.map(number), Ok(0.0));
    assert_eq!(sdk.get_device_info().0.map(|dev| dev.len()), Ok(1));

    keyboard.borrow_mut().set(&[(analog_key, analog_val)]);
    //Check we get the val with no id specified
    assert_eq!(sdk.read_analog(analog_key, 0).0.map(number), Ok(f_analog_val));
    //Check we get the val with the device_id we use
    assert_eq!(sdk.read_analog(analog_key, device_id).0.map(number), Ok(f_analog_val));
    //Check we don't get a val with invalid device id
    assert_eq!(sdk.read_analog(analog_key, device_id + 1).0, Err(WootingAnalogResult::NoDevices));
    assert_eq!(sdk.read_analog(analog_key, 999).0, Err(WootingAnalogResult::NoDevices));
    //Check if the next value is 0
    assert_eq!(sdk.read_analog(analog_key + 1, device_id).0.map(number), Ok(0.0));

    //Check that it does code mapping
    sdk.keycode_mode = KeycodeType::ScanCode1;
    assert_eq!(
        sdk.read_analog(hid_to_code(analog_key, &KeycodeType::ScanCode1).unwrap(), device_id)
            .0
            .map(number),
        Ok(f_analog_val)
    );
    assert_eq!(sdk.read_analog(0x30, 0).0.map(number), Ok(f_analog_val));
    sdk.keycode_mode = KeycodeType::HID;
}

#[test]
fn a_released_key_is_reported_once_with_level_zero() {
    let (mut sdk, keyboard) = keyboard_sdk();
    let analog_val = 0xF4;
    let f_analog_val = f32::from(analog_val) / 255_f32;
    let analog_key: u16 = 5;
    let device_id = 1;
    keyboard.borrow_mut().plug();
    keyboard.borrow_mut().set(&[(analog_key, analog_val)]);

    let buffer_len = 5;
    let analog_data = numbers(sdk.read_full_buffer(buffer_len, 0)).unwrap();
    //Check it reads buffer properly with no device id
    assert_eq!(analog_data.len(), 1);
    assert_eq!(analog_data.iter().next(), Some((&analog_key, &f_analog_val)));

    let analog_data = numbers(sdk.read_full_buffer(buffer_len, device_id)).unwrap();
    //Check it reads buffer properly with proper device_id
    assert_eq!(analog_data.len(), 1);
    assert_eq!(analog_data.iter().next(), Some((&analog_key, &f_analog_val)));

    //Check it errors on read buffer with invalid device_id
    assert_eq!(
        numbers(sdk.read_full_buffer(buffer_len, device_id + 1)),
        Err(WootingAnalogResult::NoDevices)
    );

    //Check that it does code mapping
    sdk.keycode_mode = KeycodeType::ScanCode1;
    let analog_data = numbers(sdk.read_full_buffer(buffer_len, device_id)).unwrap();
    assert_eq!(analog_data.len(), 1);
    assert_eq!(
        analog_data.iter().next(),
        Some((&hid_to_code(analog_key, &KeycodeType::ScanCode1).unwrap(), &f_analog_val))
    );
    sdk.keycode_mode = KeycodeType::HID;

    keyboard.borrow_mut().set(&[(analog_key, 0)]);
    let analog_data = numbers(sdk.read_full_buffer(buffer_len, device_id)).unwrap();
    //Check that it is returning the released key in the next call
    assert_eq!(analog_data.len(), 1);
    assert_eq!(analog_data[&analog_key], 0.0);

    assert_eq!(sdk.read_analog(analog_key, 0).0.map(number), Ok(0.0));

    let analog_data = numbers(sdk.read_full_buffer(buffer_len, device_id));
    assert_eq!(analog_data.unwrap().len(), 0);
    let analog_data = numbers(sdk.read_full_buffer(10, 0));
    assert_eq!(analog_data.unwrap().len(), 0);
}

#[test]
fn an_unplugged_device_is_gone_from_the_reads() {
    let (mut sdk, keyboard) = keyboard_sdk();
    keyboard.borrow_mut().plug();
    keyboard.borrow_mut().set(&[(5, 0xF4)]);
    assert!(sdk.read_analog(5, 0).0.is_ok());

    let gone = keyboard.borrow_mut().unplug();
    assert_eq!(gone.len(), 1);
    assert_eq!(gone[0].device_id, 1);
    assert_eq!(sdk.read_analog(5, 0).0, Err(WootingAnalogResult::NoDevices));
    assert_eq!(sdk.read_analog(5, 1).0, Err(WootingAnalogResult::NoDevices));
    assert_eq!(numbers(sdk.read_full_buffer(10, 0)), Err(WootingAnalogResult::NoDevices));
    assert_eq!(sdk.get_device_info().0.map(|dev| dev.len()), Ok(0));

    sdk.unload();
    assert!(!sdk.initialised);
    assert!(!keyboard.borrow_mut().is_initialised());
}

#[test]
fn a_buffer_read_under_hid_codes_ignores_the_namespace() {
    let log = calls();
    let mut sdk = started(vec![
        ScriptedPlugin::new(0, &log).holding(Ok(vec![(5, 0.4), (0x46, 0.5), (0x0400, 0.7), (0x0105, 0.8)])),
        ScriptedPlugin::new(1, &log).holding(Ok(vec![(5, 0.9)])),
    ]);
    assert_eq!(sdk.set_keycode_mode(1, false), WootingAnalogResult::OK);
    log.borrow_mut().clear();
    let data = numbers(sdk.read_full_buffer_hid(10, 0)).unwrap();
    let mut expected = HashMap::new();
    expected.insert(5, 0.9);
    expected.insert(0x46, 0.5);
    expected.insert(0x0400, 0.7);
    assert_eq!(data, expected);
    assert_eq!(*log.borrow(), vec![(0, Call::ReadFullBuffer(10, 0)), (1, Call::ReadFullBuffer(7, 0))]);
    // the namespace stays as it was selected
    assert_eq!(sdk.keycode_mode(), KeycodeType::ScanCode1);
    let data = numbers(sdk.read_full_buffer(10, 0)).unwrap();
    let mut expected = HashMap::new();
    expected.insert(0x30, 0.9);
    expected.insert(0xe037, 0.5);
    expected.insert(0x0400, 0.7);
    assert_eq!(data, expected);
}

#[test]
fn an_uninitialised_runtime_reads_no_buffer_under_hid_codes() {
    let log = calls();
    let mut sdk = Sdk::new();
    assert_eq!(numbers(sdk.read_full_buffer_hid(10, 0)), Err(WootingAnalogResult::UnInitialized));
    assert!(log.borrow().is_empty());
}

#[test]
fn an_unload_stops_every_plugin_once_in_order() {
    let log = calls();
    let mut sdk = started(vec![
        ScriptedPlugin::new(0, &log),
        ScriptedPlugin::new(1, &log).failing_start(WootingAnalogResult::Failure),
        ScriptedPlugin::new(2, &log),
    ]);
    log.borrow_mut().clear();
    sdk.unload();
    assert_eq!(*log.borrow(), vec![(0, Call::Unload), (1, Call::Unload), (2, Call::Unload)]);
    sdk.unload();
    assert_eq!(log.borrow().len(), 3);
    assert_eq!(sdk.plugin_count(), 0);
}

#[test]
fn a_read_in_a_virtual_key_namespace_goes_by_the_answer_of_the_host() {
    let log = calls();
    let mut sdk = started(vec![ScriptedPlugin::new(0, &log).answering(Ok(0.6))]);
    assert_eq!(sdk.set_keycode_mode(2, true), WootingAnalogResult::OK);
    log.borrow_mut().clear();
    // the host says that the virtual key of A has the scan code 0x1e
    assert_eq!(sdk.read_analog_on_host(0x41, 0, Some(0x1e)).0.map(number), Ok(0.6));
    assert_eq!(*log.borrow(), vec![(0, Call::ReadAnalog(0x04, 0))]);
    log.borrow_mut().clear();
    // a host that names no scan code, and one that does not answer
    assert_eq!(sdk.read_analog_on_host(0x41, 0, Some(0)).0.map(number), Err(WootingAnalogResult::NoMapping));
    assert_eq!(sdk.read_analog_on_host(0x41, 0, None).0.map(number), Err(WootingAnalogResult::NoMapping));
    assert_eq!(sdk.read_analog(0x41, 0).0.map(number), Err(WootingAnalogResult::NoMapping));
    assert!(log.borrow().is_empty());
    // a custom code needs no host
    assert_eq!(sdk.read_analog_on_host(0x0400, 7, None).0.map(number), Ok(0.6));
    assert_eq!(*log.borrow(), vec![(0, Call::ReadAnalog(0x0400, 7))]);
}

#[test]
fn the_answer_of_the_host_is_not_read_in_the_other_namespaces() {
    let log = calls();
    let mut sdk = started(vec![ScriptedPlugin::new(0, &log).answering(Ok(0.6))]);
    log.borrow_mut().clear();
    assert_eq!(sdk.read_analog_on_host(0x41, 0, Some(0x1e)).0.map(number), Ok(0.6));
    assert_eq!(sdk.set_keycode_mode(1, false), WootingAnalogResult::OK);
    assert_eq!(sdk.read_analog_on_host(0x1e, 0, Some(0x30)).0.map(number), Ok(0.6));
    assert_eq!(*log.borrow(), vec![(0, Call::ReadAnalog(0x41, 0)), (0, Call::ReadAnalog(0x04, 0))]);
    let mut idle = Sdk::new();
    assert_eq!(idle.read_analog_on_host(0x41, 0, Some(0x1e)).0.map(number), Err(WootingAnalogResult::UnInitialized));
}
