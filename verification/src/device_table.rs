//! The state of a hardware plugin: the devices it has open, each under its
//! identifier, and the reads across them.
//!
//! Finding and opening devices, and reading their reports, is the business of
//! whoever owns the table. The table decides which device is wanted, takes
//! what the reports hold, and answers the reads. The devices are kept in a
//! hash map, so a read across all of them meets them in no order that could
//! be told beforehand; what such a read returns is stated for whatever order
//! it meets them in.

use crate::aggregate::{
    analog_verdict, collate_analog, first_success, highest, last_failure,
    lemma_first_success, lemma_highest_is_the_greatest_heard, lemma_last_failure_is_the_last,
    plain, AnalogAnswer,
};
use crate::analog::Analog;
use crate::buffer::{buffer_of, buffers_of, keys_of, merged, Buffer, BufferAnswer};
use crate::device::{DeviceID, DeviceInfo};
use crate::hardware::{find_model, model_of, DeviceModel};
use crate::keyboard::{after_frame, copy_info, device_analog, device_frame, Device, DeviceState};
use crate::result::{SDKResult, WootingAnalogResult};
use std::collections::HashMap;
use vstd::prelude::*;
use vstd::std_specs::iter::IteratorSpec;

verus! {

/// The open devices, each under its identifier.
pub type Devices = Map<DeviceID, DeviceState>;

/// What a table is at a given moment.
pub ghost struct TableState {
    /// Whether the plugin has been started.
    pub initialised: bool,
    /// The open devices.
    pub devices: Devices,
}

/// Whether every device is kept under its own identifier.
pub open spec fn keyed_by_id(devices: Devices) -> bool {
    forall|id: DeviceID|
        devices.contains_key(id) ==> (#[trigger] devices[id]).info.device_id == id
}

/// Whether `ids` names each of `among` once and nothing else: an order in
/// which a read may meet the devices.
pub open spec fn is_an_order(ids: Seq<DeviceID>, among: Set<DeviceID>) -> bool {
    ids.no_duplicates() && ids.to_set() == among
}

/// What the devices answer to a single-key read when they are met in the
/// order `ids`.
pub open spec fn analog_answers(devices: Devices, ids: Seq<DeviceID>, code: u16) -> Seq<AnalogAnswer> {
    ids.map_values(|id: DeviceID| device_analog(devices[id], code))
}

/// What the devices answer to a whole-buffer read when they are met in the
/// order `ids`.
pub open spec fn frame_answers(devices: Devices, ids: Seq<DeviceID>) -> Seq<BufferAnswer> {
    ids.map_values(|id: DeviceID| device_frame(devices[id]))
}

/// The frames among `answers` laid over one another in order, so that of two
/// devices that hand out the same key the later one is heard.
pub open spec fn laid_over(answers: Seq<BufferAnswer>) -> Buffer
    decreases answers.len(),
{
    if answers.len() == 0 {
        Map::empty()
    } else {
        match answers.last() {
            Ok(frame) => merged(laid_over(answers.drop_last()), frame, false),
            Err(_) => laid_over(answers.drop_last()),
        }
    }
}

/// The outcome of the whole-buffer reads of devices that answered `answers`:
/// their frames laid over one another, or, where none handed out a frame,
/// the last failure.
pub open spec fn frames_verdict(answers: Seq<BufferAnswer>) -> BufferAnswer {
    if first_success(answers) is Some {
        Ok(laid_over(answers))
    } else {
        Err(last_failure(answers))
    }
}

/// The identifiers of the devices whose reports have stopped.
pub open spec fn unplugged(devices: Devices) -> Set<DeviceID> {
    Set::new(|id: DeviceID| devices.contains_key(id) && !devices[id].connected)
}

/// The devices that are still connected.
pub open spec fn connected_of(devices: Devices) -> Devices {
    Map::new(|id: DeviceID| devices.contains_key(id) && devices[id].connected, |id: DeviceID| devices[id])
}

/// The devices after each of them has been read for its whole buffer.
pub open spec fn all_after_frame(devices: Devices) -> Devices {
    Map::new(|id: DeviceID| devices.contains_key(id), |id: DeviceID| after_frame(devices[id]))
}

/// The outcome of a single-key read on a table that meets its devices in the
/// order `ids`. A read for "any device" takes the greatest level among the
/// devices that are connected; where none is, the failure of the last device
/// stands for all.
pub open spec fn table_analog(
    state: TableState,
    code: u16,
    device_id: DeviceID,
    ids: Seq<DeviceID>,
) -> AnalogAnswer {
    if !state.initialised {
        Err(WootingAnalogResult::UnInitialized)
    } else if state.devices.len() == 0 {
        Err(WootingAnalogResult::NoDevices)
    } else if device_id == 0 {
        analog_verdict(analog_answers(state.devices, ids, code), 0)
    } else if state.devices.contains_key(device_id) {
        device_analog(state.devices[device_id], code)
    } else {
        Err(WootingAnalogResult::NoDevices)
    }
}

/// The outcome of a whole-buffer read on a table that meets its devices in
/// the order `ids`. A read for "any device" lays the frames of the connected
/// devices over one another; where no device is connected, the failure of
/// the last device stands for all.
pub open spec fn table_buffer(state: TableState, device_id: DeviceID, ids: Seq<DeviceID>) -> BufferAnswer {
    if !state.initialised {
        Err(WootingAnalogResult::UnInitialized)
    } else if state.devices.len() == 0 {
        Err(WootingAnalogResult::NoDevices)
    } else if device_id == 0 {
        frames_verdict(frame_answers(state.devices, ids))
    } else if state.devices.contains_key(device_id) {
        device_frame(state.devices[device_id])
    } else {
        Err(WootingAnalogResult::NoDevices)
    }
}

/// The devices after a whole-buffer read on a table: every device that was
/// read remembers the keys of its snapshot.
pub open spec fn devices_after_buffer(state: TableState, device_id: DeviceID) -> Devices {
    if !state.initialised || state.devices.len() == 0 {
        state.devices
    } else if device_id == 0 {
        all_after_frame(state.devices)
    } else if state.devices.contains_key(device_id) {
        state.devices.insert(device_id, after_frame(state.devices[device_id]))
    } else {
        state.devices
    }
}

/// The devices of a hardware plugin.
pub struct DeviceTable {
    initialised: bool,
    devices: HashMap<DeviceID, Device>,
}

impl View for DeviceTable {
    type V = TableState;

    closed spec fn view(&self) -> TableState {
        TableState {
            initialised: self.initialised,
            devices: self.devices@.map_values(|device: Device| device@),
        }
    }
}

/// The identifiers under which devices are kept, each once.
fn ids_of(devices: &HashMap<DeviceID, Device>) -> (ids: Vec<DeviceID>)
    ensures
        is_an_order(ids@, devices@.dom()),
        ids@.len() == devices@.dom().len(),
{
    broadcast use vstd::std_specs::hash::group_hash_axioms;

    let mut ids: Vec<DeviceID> = Vec::new();
    for id in it: devices.keys()
        invariant
            it.seq() == devices.keys().remaining(),
            ids@ == it.seq().take(it.index() as int).unref(),
    {
        ids.push(*id);
    }
    assert(ids@ == devices.keys().remaining().unref());
    ids
}

impl DeviceTable {
    /// A table without devices, of a plugin that has not been started.
    pub fn new() -> (table: DeviceTable)
        ensures
            table@ == (TableState { initialised: false, devices: Map::empty() }),
            keyed_by_id(table@.devices),
    {
        let table = DeviceTable { initialised: false, devices: HashMap::new() };
        assert(table@.devices =~= Map::<DeviceID, DeviceState>::empty());
        table
    }

    /// Whether the plugin has been started.
    pub fn is_initialised(&self) -> (b: bool)
        ensures
            b == self@.initialised,
    {
        self.initialised
    }

    /// How many devices are open.
    pub fn device_count(&self) -> (n: usize)
        ensures
            n == self@.devices.len(),
    {
        broadcast use vstd::std_specs::hash::group_hash_axioms;

        proof {
            assert(self@.devices.dom() =~= self.devices@.dom());
        }
        self.devices.len()
    }

    /// Whether a device with identifier `id` is open.
    pub fn contains(&self, id: DeviceID) -> (b: bool)
        ensures
            b == self@.devices.contains_key(id),
    {
        broadcast use vstd::std_specs::hash::group_hash_axioms;

        self.devices.contains_key(&id)
    }

    /// Ends the start of the plugin. `host_ready` says whether the host's
    /// device layer could be reached: if not, the start has failed. A start
    /// that succeeded reports the number of devices that are open.
    pub fn conclude_start(&mut self, host_ready: bool) -> (result: SDKResult<u32>)
        ensures
            final(self)@ == (TableState { initialised: host_ready, ..old(self)@ }),
            !host_ready ==> result.0 == Err::<u32, WootingAnalogResult>(WootingAnalogResult::Failure),
            host_ready ==> result.0 == Ok::<u32, WootingAnalogResult>(
                (old(self)@.devices.len() % 0x1_0000_0000) as u32,
            ),
    {
        self.initialised = host_ready;
        if !host_ready {
            return SDKResult(Err(WootingAnalogResult::Failure));
        }
        let n: u64 = self.device_count() as u64;
        assert(n as u32 == n % 0x1_0000_0000) by (bit_vector);
        SDKResult(Ok(
            #[verifier::truncate]
            (n as u32),
        ))
    }

    /// The model as which a device that the host lists is to be opened:
    /// `None` where it is of no known model, or is open already.
    pub fn wants(&self, vendor_id: u16, product_id: u16, usage_page: u16, device_id: DeviceID) -> (model:
        Option<DeviceModel>)
        ensures
            model == if !self@.devices.contains_key(device_id) {
                model_of(vendor_id, product_id, usage_page)
            } else {
                None
            },
    {
        match find_model(vendor_id, product_id, usage_page) {
            Some(model) => if self.contains(device_id) {
                None
            } else {
                Some(model)
            },
            None => None,
        }
    }

    /// Takes a device that has been opened, under its identifier. A device
    /// whose identifier is in the table already is not taken; the answer
    /// says whether it was.
    pub fn connect(&mut self, device_info: DeviceInfo) -> (taken: bool)
        ensures
            taken == !old(self)@.devices.contains_key(device_info.device_id),
            taken ==> final(self)@ == (TableState {
                devices: old(self)@.devices.insert(
                    device_info.device_id,
                    DeviceState {
                        info: device_info,
                        buffer: Map::empty(),
                        connected: true,
                        pressed: Set::empty(),
                    },
                ),
                ..old(self)@
            }),
            !taken ==> final(self)@ == old(self)@,
            keyed_by_id(old(self)@.devices) ==> keyed_by_id(final(self)@.devices),
    {
        broadcast use vstd::std_specs::hash::group_hash_axioms;

        let id = device_info.device_id;
        if self.contains(id) {
            return false;
        }
        let device = Device::new(device_info);
        let ghost opened = device@;
        self.devices.insert(id, device);
        assert(self@.devices =~= old(self)@.devices.insert(id, opened));
        true
    }

    /// Takes the device `id` out of the map, for a change to be made to it.
    fn take_out(&mut self, id: DeviceID) -> (device: Option<Device>)
        ensures
            device is Some == old(self)@.devices.contains_key(id),
            device matches Some(d) ==> d@ == old(self)@.devices[id],
            final(self)@ == (TableState { devices: old(self)@.devices.remove(id), ..old(self)@ }),
    {
        broadcast use vstd::std_specs::hash::group_hash_axioms;

        let device = self.devices.remove(&id);
        assert(self@.devices =~= old(self)@.devices.remove(id));
        device
    }

    /// Puts a device back under the identifier `id`.
    fn put_back(&mut self, id: DeviceID, device: Device)
        ensures
            final(self)@ == (TableState {
                devices: old(self)@.devices.insert(id, device@),
                ..old(self)@
            }),
    {
        broadcast use vstd::std_specs::hash::group_hash_axioms;

        self.devices.insert(id, device);
        assert(self@.devices =~= old(self)@.devices.insert(id, device@));
    }

    /// Replaces the snapshot of the device `id` by what its latest report
    /// holds. The answer says whether the device is in the table.
    pub fn publish(&mut self, id: DeviceID, snapshot: HashMap<u16, Analog>) -> (found: bool)
        ensures
            found == old(self)@.devices.contains_key(id),
            found ==> final(self)@ == (TableState {
                devices: old(self)@.devices.insert(
                    id,
                    DeviceState { buffer: snapshot@, ..old(self)@.devices[id] },
                ),
                ..old(self)@
            }),
            !found ==> final(self)@ == old(self)@,
            keyed_by_id(old(self)@.devices) ==> keyed_by_id(final(self)@.devices),
    {
        match self.take_out(id) {
            Some(mut device) => {
                device.publish(snapshot);
                self.put_back(id, device);
                assert(self@.devices =~= old(self)@.devices.insert(
                    id,
                    DeviceState { buffer: snapshot@, ..old(self)@.devices[id] },
                ));
                true
            },
            None => {
                assert(self@.devices =~= old(self)@.devices);
                false
            },
        }
    }

    /// Notes that the reports of the device `id` have stopped. The device
    /// stays in the table until the next sweep. The answer says whether the
    /// device is in the table.
    pub fn mark_disconnected(&mut self, id: DeviceID) -> (found: bool)
        ensures
            found == old(self)@.devices.contains_key(id),
            found ==> final(self)@ == (TableState {
                devices: old(self)@.devices.insert(
                    id,
                    DeviceState { connected: false, ..old(self)@.devices[id] },
                ),
                ..old(self)@
            }),
            !found ==> final(self)@ == old(self)@,
            keyed_by_id(old(self)@.devices) ==> keyed_by_id(final(self)@.devices),
    {
        match self.take_out(id) {
            Some(mut device) => {
                device.disconnect();
                self.put_back(id, device);
                assert(self@.devices =~= old(self)@.devices.insert(
                    id,
                    DeviceState { connected: false, ..old(self)@.devices[id] },
                ));
                true
            },
            None => {
                assert(self@.devices =~= old(self)@.devices);
                false
            },
        }
    }

    /// Whether the reports of the device `id` still come in; `false` for a
    /// device that is not in the table.
    pub fn is_connected(&self, id: DeviceID) -> (b: bool)
        ensures
            b == (self@.devices.contains_key(id) && self@.devices[id].connected),
    {
        broadcast use vstd::std_specs::hash::group_hash_axioms;

        match self.devices.get(&id) {
            Some(device) => device.is_connected(),
            None => false,
        }
    }

    /// Takes the devices whose reports have stopped out of the table and
    /// hands back their records, each once, for the events that tell of
    /// their going.
    pub fn sweep(&mut self) -> (gone: Vec<DeviceInfo>)
        ensures
            final(self)@ == (TableState {
                devices: connected_of(old(self)@.devices),
                ..old(self)@
            }),
            exists|ids: Seq<DeviceID>|
                is_an_order(ids, unplugged(old(self)@.devices)) && gone@ == ids.map_values(
                    |id: DeviceID| old(self)@.devices[id].info,
                ),
            keyed_by_id(old(self)@.devices) ==> keyed_by_id(final(self)@.devices),
    {
        let ghost before = self@.devices;
        let ids = ids_of(&self.devices);
        let mut gone: Vec<DeviceInfo> = Vec::new();
        let ghost mut gone_ids: Seq<DeviceID> = Seq::empty();
        let mut i: usize = 0;
        proof {
            assert(before.dom() =~= self.devices@.dom());
            assert(gone@ =~= gone_ids.map_values(|id: DeviceID| before[id].info));
            assert(gone_ids.to_set() =~= Set::<DeviceID>::empty());
        }
        while i < ids.len()
            invariant
                i <= ids.len(),
                is_an_order(ids@, before.dom()),
                self.initialised == old(self).initialised,
                self@.devices == Map::new(
                    |id: DeviceID|
                        before.contains_key(id) && (before[id].connected || !ids@.take(
                            i as int,
                        ).to_set().contains(id)),
                    |id: DeviceID| before[id],
                ),
                gone_ids.no_duplicates(),
                gone_ids.to_set() == Set::new(
                    |id: DeviceID|
                        ids@.take(i as int).to_set().contains(id) && !before[id].connected,
                ),
                gone@ == gone_ids.map_values(|id: DeviceID| before[id].info),
            decreases ids.len() - i,
        {
            let id = ids[i];
            let ghost seen = ids@.take(i as int).to_set();
            proof {
                assert(ids@.to_set().contains(id));
                assert(!seen.contains(id)) by {
                    if seen.contains(id) {
                        let j = choose|j: int| 0 <= j < i && ids@.take(i as int)[j] == id;
                        assert(ids@[j] == ids@[i as int]);
                    }
                }
                assert(ids@.take(i + 1) =~= ids@.take(i as int).push(id));
                ids@.take(i as int).lemma_push_to_set_commute(id);
            }
            if !self.is_connected(id) {
                match self.take_out(id) {
                    Some(device) => {
                        gone.push(device.into_info());
                        proof {
                            assert(!gone_ids.to_set().contains(id));
                            gone_ids.lemma_push_to_set_commute(id);
                            assert(gone_ids.push(id).no_duplicates()) by {
                                assert forall|a: int, b: int|
                                    0 <= a < gone_ids.len() + 1 && 0 <= b < gone_ids.len() + 1 && a
                                        != b implies gone_ids.push(id)[a] != gone_ids.push(id)[b] by {
                                    if a < gone_ids.len() {
                                        assert(gone_ids.to_set().contains(gone_ids[a]));
                                    }
                                    if b < gone_ids.len() {
                                        assert(gone_ids.to_set().contains(gone_ids[b]));
                                    }
                                }
                            }
                            assert(gone@ =~= gone_ids.push(id).map_values(
                                |id: DeviceID| before[id].info,
                            ));
                            gone_ids = gone_ids.push(id);
                        }
                    },
                    None => {},
                }
            }
            proof {
                assert(self@.devices =~= Map::new(
                    |k: DeviceID|
                        before.contains_key(k) && (before[k].connected || !ids@.take(
                            i + 1,
                        ).to_set().contains(k)),
                    |k: DeviceID| before[k],
                ));
                assert(gone_ids.to_set() =~= Set::new(
                    |k: DeviceID| ids@.take(i + 1).to_set().contains(k) && !before[k].connected,
                ));
            }
            i += 1;
        }
        proof {
            assert(ids@.take(i as int) =~= ids@);
            assert(self@.devices =~= connected_of(before));
            assert(gone_ids.to_set() =~= unplugged(before));
            assert(is_an_order(gone_ids, unplugged(before)));
        }
        gone
    }

    /// Lets go of all devices and leaves the plugin stopped.
    pub fn unload(&mut self)
        ensures
            final(self)@ == (TableState { initialised: false, devices: Map::empty() }),
            keyed_by_id(final(self)@.devices),
    {
        broadcast use vstd::std_specs::hash::group_hash_axioms;

        self.devices.clear();
        self.initialised = false;
        assert(self@.devices =~= Map::<DeviceID, DeviceState>::empty());
    }

    /// The records of the open devices, each once.
    pub fn device_info(&mut self) -> (result: SDKResult<Vec<DeviceInfo>>)
        ensures
            final(self)@ == old(self)@,
            !old(self)@.initialised ==> result.0 matches Err(WootingAnalogResult::UnInitialized),
            old(self)@.initialised ==> (result.0 matches Ok(devices) && exists|ids: Seq<DeviceID>|
                is_an_order(ids, old(self)@.devices.dom()) && devices@ == ids.map_values(
                    |id: DeviceID| old(self)@.devices[id].info,
                )),
    {
        broadcast use vstd::std_specs::hash::group_hash_axioms;

        if !self.initialised {
            return SDKResult(Err(WootingAnalogResult::UnInitialized));
        }
        let ids = ids_of(&self.devices);
        let mut devices: Vec<DeviceInfo> = Vec::new();
        let mut i: usize = 0;
        proof {
            assert(self@.devices.dom() =~= self.devices@.dom());
            assert(devices@ =~= ids@.take(0).map_values(|id: DeviceID| self@.devices[id].info));
        }
        while i < ids.len()
            invariant
                i <= ids.len(),
                is_an_order(ids@, self@.devices.dom()),
                self@ == old(self)@,
                devices@ == ids@.take(i as int).map_values(|id: DeviceID| self@.devices[id].info),
            decreases ids.len() - i,
        {
            let id = ids[i];
            assert(ids@.to_set().contains(id));
            if let Some(device) = self.devices.get(&id) {
                devices.push(copy_info(device.info()));
            }
            i += 1;
            assert(devices@ =~= ids@.take(i as int).map_values(
                |id: DeviceID| self@.devices[id].info,
            ));
        }
        assert(ids@.take(i as int) =~= ids@);
        SDKResult(Ok(devices))
    }

    /// The level of the key with HID usage code `code`: on the device
    /// `device_id`, or for `0` the greatest level over all devices.
    pub fn read_analog(&mut self, code: u16, device_id: DeviceID) -> (result: SDKResult<Analog>)
        ensures
            final(self)@ == old(self)@,
            exists|ids: Seq<DeviceID>|
                is_an_order(ids, old(self)@.devices.dom()) && result.0 == table_analog(
                    old(self)@,
                    code,
                    device_id,
                    ids,
                ),
    {
        broadcast use vstd::std_specs::hash::group_hash_axioms;

        let ids = ids_of(&self.devices);
        proof {
            assert(self@.devices.dom() =~= self.devices@.dom());
        }
        if !self.initialised {
            return SDKResult(Err(WootingAnalogResult::UnInitialized));
        }
        if self.device_count() == 0 {
            return SDKResult(Err(WootingAnalogResult::NoDevices));
        }
        //If the Device ID is 0 we want to go through all the connected devices
        //and combine the analog values
        if device_id == 0 {
            let mut answers: Vec<SDKResult<Analog>> = Vec::new();
            let mut i: usize = 0;
            assert(plain(answers@) =~= analog_answers(self@.devices, ids@.take(0), code));
            while i < ids.len()
                invariant
                    i <= ids.len(),
                    is_an_order(ids@, self@.devices.dom()),
                    self@ == old(self)@,
                    answers@.len() == i,
                    plain(answers@) == analog_answers(self@.devices, ids@.take(i as int), code),
                decreases ids.len() - i,
            {
                let id = ids[i];
                assert(ids@.to_set().contains(id));
                let ghost heard = answers@;
                let answer = match self.devices.get(&id) {
                    Some(device) => device.level(code),
                    None => SDKResult(Err(WootingAnalogResult::NoDevices)),
                };
                let ghost told = answer.0;
                answers.push(answer);
                i += 1;
                proof {
                    let now = plain(answers@);
                    let due = analog_answers(self@.devices, ids@.take(i as int), code);
                    assert(now.len() == due.len());
                    assert forall|j: int| 0 <= j < now.len() implies now[j] == due[j] by {
                        if j < i - 1 {
                            assert(now[j] == plain(heard)[j]);
                            assert(due[j] == analog_answers(
                                self@.devices,
                                ids@.take(i - 1),
                                code,
                            )[j]);
                        } else {
                            assert(now[j] == told);
                        }
                    }
                    assert(now =~= due);
                }
            }
            assert(ids@.take(i as int) =~= ids@);
            collate_analog(&answers, 0)
        } else {
            //If the device id is not 0, we try and find a connected device with that ID and read from it
            match self.devices.get(&device_id) {
                Some(device) => device.level(code),
                None => SDKResult(Err(WootingAnalogResult::NoDevices)),
            }
        }
    }

    /// The pressed keys of the device `device_id`, or for `0` of all devices,
    /// with the keys released since the read before at level zero.
    pub fn read_full_buffer(&mut self, max_length: usize, device_id: DeviceID) -> (result: SDKResult<
        HashMap<u16, Analog>,
    >)
        ensures
            exists|ids: Seq<DeviceID>|
                is_an_order(ids, old(self)@.devices.dom()) && buffer_of(result) == table_buffer(
                    old(self)@,
                    device_id,
                    ids,
                ),
            final(self)@ == (TableState {
                devices: devices_after_buffer(old(self)@, device_id),
                ..old(self)@
            }),
            keyed_by_id(old(self)@.devices) ==> keyed_by_id(final(self)@.devices),
    {
        let ghost before = self@.devices;
        let ids = ids_of(&self.devices);
        proof {
            assert(before.dom() =~= self.devices@.dom());
        }
        if !self.initialised {
            let result = SDKResult(Err(WootingAnalogResult::UnInitialized));
            assert(buffer_of(result) == table_buffer(old(self)@, device_id, ids@));
            return result;
        }
        if self.device_count() == 0 {
            let result = SDKResult(Err(WootingAnalogResult::NoDevices));
            assert(buffer_of(result) == table_buffer(old(self)@, device_id, ids@));
            return result;
        }
        if device_id == 0 {
            let mut answers: Vec<SDKResult<HashMap<u16, Analog>>> = Vec::new();
            let mut i: usize = 0;
            proof {
                assert(self@.devices =~= Map::new(
                    |k: DeviceID| before.contains_key(k),
                    |k: DeviceID|
                        if ids@.take(0).to_set().contains(k) {
                            after_frame(before[k])
                        } else {
                            before[k]
                        },
                ));
                assert(buffers_of(answers@) =~= frame_answers(before, ids@.take(0)));
            }
            while i < ids.len()
                invariant
                    i <= ids.len(),
                    is_an_order(ids@, before.dom()),
                    self.initialised == old(self).initialised,
                    self@.devices == Map::new(
                        |k: DeviceID| before.contains_key(k),
                        |k: DeviceID|
                            if ids@.take(i as int).to_set().contains(k) {
                                after_frame(before[k])
                            } else {
                                before[k]
                            },
                    ),
                    answers@.len() == i,
                    buffers_of(answers@) == frame_answers(before, ids@.take(i as int)),
                decreases ids.len() - i,
            {
                let id = ids[i];
                let ghost seen = ids@.take(i as int).to_set();
                let ghost heard = answers@;
                proof {
                    assert(ids@.to_set().contains(id));
                    assert(!seen.contains(id)) by {
                        if seen.contains(id) {
                            let j = choose|j: int| 0 <= j < i && ids@.take(i as int)[j] == id;
                            assert(ids@[j] == ids@[i as int]);
                        }
                    }
                    assert(ids@.take(i + 1) =~= ids@.take(i as int).push(id));
                    ids@.take(i as int).lemma_push_to_set_commute(id);
                }
                let answer = match self.take_out(id) {
                    Some(mut device) => {
                        let answer = device.read_full_buffer(max_length);
                        self.put_back(id, device);
                        answer
                    },
                    None => SDKResult(Err(WootingAnalogResult::NoDevices)),
                };
                let ghost told = buffer_of(answer);
                answers.push(answer);
                proof {
                    assert(told == device_frame(before[id]));
                    assert(self@.devices =~= Map::new(
                        |k: DeviceID| before.contains_key(k),
                        |k: DeviceID|
                            if ids@.take(i + 1).to_set().contains(k) {
                                after_frame(before[k])
                            } else {
                                before[k]
                            },
                    ));
                    let now = buffers_of(answers@);
                    let due = frame_answers(before, ids@.take(i + 1));
                    assert(now.len() == due.len());
                    assert forall|j: int| 0 <= j < now.len() implies now[j] == due[j] by {
                        if j < i {
                            assert(now[j] == buffers_of(heard)[j]);
                            assert(due[j] == frame_answers(before, ids@.take(i as int))[j]);
                        } else {
                            assert(now[j] == told);
                        }
                    }
                    assert(now =~= due);
                }
                i += 1;
            }
            proof {
                assert(ids@.take(i as int) =~= ids@);
                assert(self@.devices =~= all_after_frame(before));
            }
            let result = collate_frames(&answers);
            assert(buffer_of(result) == table_buffer(old(self)@, device_id, ids@));
            result
        } else {
            match self.take_out(device_id) {
                Some(mut device) => {
                    let answer = device.read_full_buffer(max_length);
                    self.put_back(device_id, device);
                    proof {
                        assert(self@.devices =~= before.insert(
                            device_id,
                            after_frame(before[device_id]),
                        ));
                        assert(buffer_of(answer) == table_buffer(old(self)@, device_id, ids@));
                    }
                    answer
                },
                None => {
                    let result = SDKResult(Err(WootingAnalogResult::NoDevices));
                    assert(self@.devices =~= before);
                    assert(buffer_of(result) == table_buffer(old(self)@, device_id, ids@));
                    result
                },
            }
        }
    }
}

/// Every device that is met in one order is met in every other.
proof fn lemma_orders_meet_the_same(among: Set<DeviceID>, first: Seq<DeviceID>, second: Seq<DeviceID>, j: int)
    requires
        is_an_order(first, among),
        is_an_order(second, among),
        0 <= j < first.len(),
    ensures
        exists|k: int| 0 <= k < second.len() && second[k] == first[j],
{
    assert(first.to_set().contains(first[j]));
    assert(second.to_set().contains(first[j]));
}

/// Whether every answer among `a` is also among `b`.
spec fn all_among(a: Seq<AnalogAnswer>, b: Seq<AnalogAnswer>) -> bool {
    forall|j: int| 0 <= j < a.len() ==> b.contains(#[trigger] a[j])
}

/// What the devices answer in one order they answer in every other.
proof fn lemma_orders_hear_the_same(devices: Devices, first: Seq<DeviceID>, second: Seq<DeviceID>, code: u16)
    requires
        is_an_order(first, devices.dom()),
        is_an_order(second, devices.dom()),
    ensures
        all_among(analog_answers(devices, first, code), analog_answers(devices, second, code)),
{
    let a = analog_answers(devices, first, code);
    let b = analog_answers(devices, second, code);
    assert forall|j: int| 0 <= j < a.len() implies b.contains(#[trigger] a[j]) by {
        lemma_orders_meet_the_same(devices.dom(), first, second, j);
        let k = choose|k: int| 0 <= k < second.len() && second[k] == first[j];
        assert(b[k] == a[j]);
    }
}

/// The greatest level among answers is not above the greatest among answers
/// that hold them all.
proof fn lemma_highest_grows_with_the_answers(a: Seq<AnalogAnswer>, b: Seq<AnalogAnswer>)
    requires
        all_among(a, b),
    ensures
        highest(a) matches Some(x) ==> (highest(b) matches Some(y) && x.pattern() <= y.pattern()),
{
    lemma_highest_is_the_greatest_heard(a);
    lemma_highest_is_the_greatest_heard(b);
    if let Some(x) = highest(a) {
        let j = choose|j: int| 0 <= j < a.len() && a[j] == Ok::<Analog, WootingAnalogResult>(x);
        assert(b.contains(a[j]));
        let k = choose|k: int| 0 <= k < b.len() && b[k] == a[j];
        assert(b[k] is Ok);
        assert(highest(b) is Some);
        assert(b[k] matches Ok(other) && other.pattern() <= highest(b)->0.pattern());
    }
}

/// Where no device is connected, a single-key read for "any device" says so.
proof fn lemma_no_level_means_disconnected(devices: Devices, ids: Seq<DeviceID>, code: u16)
    requires
        ids.len() > 0,
        highest(analog_answers(devices, ids, code)) is None,
    ensures
        last_failure(analog_answers(devices, ids, code)) == WootingAnalogResult::DeviceDisconnected,
{
    let a = analog_answers(devices, ids, code);
    lemma_highest_is_the_greatest_heard(a);
    lemma_last_failure_is_the_last(a);
    assert(a.last() == device_analog(devices[ids.last()], code));
}

/// A single-key read returns the same whatever the order in which the table
/// meets its devices.
pub proof fn lemma_analog_reads_need_no_order(
    state: TableState,
    code: u16,
    device_id: DeviceID,
    first: Seq<DeviceID>,
    second: Seq<DeviceID>,
)
    requires
        is_an_order(first, state.devices.dom()),
        is_an_order(second, state.devices.dom()),
    ensures
        table_analog(state, code, device_id, first) == table_analog(state, code, device_id, second),
{
    if state.initialised && state.devices.len() != 0 && device_id == 0 {
        let a = analog_answers(state.devices, first, code);
        let b = analog_answers(state.devices, second, code);
        lemma_orders_hear_the_same(state.devices, first, second, code);
        lemma_orders_hear_the_same(state.devices, second, first, code);
        lemma_highest_grows_with_the_answers(a, b);
        lemma_highest_grows_with_the_answers(b, a);
        assert(first.len() > 0) by {
            if first.len() == 0 {
                assert(first.to_set() =~= Set::<DeviceID>::empty());
            }
        }
        assert(second.len() > 0) by {
            if second.len() == 0 {
                assert(second.to_set() =~= Set::<DeviceID>::empty());
            }
        }
        match highest(a) {
            Some(x) => {
                let y = highest(b)->0;
                Analog::lemma_level_of_its_pattern(x);
                Analog::lemma_level_of_its_pattern(y);
                assert(x == y);
            },
            None => {
                assert(highest(b) is None);
                lemma_no_level_means_disconnected(state.devices, first, code);
                lemma_no_level_means_disconnected(state.devices, second, code);
            },
        }
    }
}

/// Whether a device hands out the key `key` in a whole-buffer read.
pub open spec fn hands_out(device: DeviceState, key: u16) -> bool {
    device_frame(device) matches Ok(frame) && frame.contains_key(key)
}

/// Whatever the order in which the devices are met: a key stands in what a
/// whole-buffer read for "any device" returns exactly when one of the devices
/// hands it out, and its level is that at which one of them hands it out.
pub proof fn lemma_frames_hold_what_the_devices_hand_out(devices: Devices, ids: Seq<DeviceID>, key: u16)
    ensures
        laid_over(frame_answers(devices, ids)).contains_key(key) <==> exists|i: int|
            0 <= i < ids.len() && hands_out(devices[#[trigger] ids[i]], key),
        laid_over(frame_answers(devices, ids)).contains_key(key) ==> exists|i: int|
            0 <= i < ids.len() && hands_out(devices[#[trigger] ids[i]], key) && laid_over(
                frame_answers(devices, ids),
            )[key] == device_frame(devices[ids[i]])->Ok_0[key],
    decreases ids.len(),
{
    if ids.len() > 0 {
        let front = ids.drop_last();
        let last = ids.len() - 1;
        lemma_frames_hold_what_the_devices_hand_out(devices, front, key);
        let answers = frame_answers(devices, ids);
        assert(answers.drop_last() =~= frame_answers(devices, front));
        assert(answers.last() == device_frame(devices[ids[last]]));
        let before = laid_over(frame_answers(devices, front));
        let all = laid_over(answers);
        assert forall|i: int| 0 <= i < front.len() implies front[i] == ids[i] by {}
        if hands_out(devices[ids[last]], key) {
            assert(all.contains_key(key));
            assert(all[key] == device_frame(devices[ids[last]])->Ok_0[key]);
        } else if all.contains_key(key) {
            assert(before.contains_key(key) && all[key] == before[key]);
            let i = choose|i: int|
                0 <= i < front.len() && hands_out(devices[#[trigger] front[i]], key) && before[key]
                    == device_frame(devices[front[i]])->Ok_0[key];
            assert(hands_out(devices[ids[i]], key));
        } else {
            assert(!before.contains_key(key));
            assert forall|i: int| 0 <= i < ids.len() implies !hands_out(
                devices[#[trigger] ids[i]],
                key,
            ) by {
                if i < front.len() {
                    assert(front[i] == ids[i]);
                }
            }
        }
    }
}

/// Whatever the order in which the devices are met: a whole-buffer read for
/// "any device" returns a buffer exactly when one of the devices is
/// connected, and else says that the devices are disconnected.
pub proof fn lemma_frames_come_of_connected_devices(devices: Devices, ids: Seq<DeviceID>)
    requires
        ids.len() > 0,
    ensures
        frames_verdict(frame_answers(devices, ids)) is Ok <==> exists|i: int|
            0 <= i < ids.len() && devices[#[trigger] ids[i]].connected,
        frames_verdict(frame_answers(devices, ids)) matches Err(kind) ==> kind
            == WootingAnalogResult::DeviceDisconnected,
{
    let answers = frame_answers(devices, ids);
    lemma_first_success(answers);
    if first_success(answers) is None {
        assert forall|i: int| 0 <= i < ids.len() implies !devices[#[trigger] ids[i]].connected by {
            assert(answers[i] is Err);
        }
        assert(answers.last() == device_frame(devices[ids.last()]));
    } else {
        let i = first_success(answers)->0;
        assert(answers[i] is Ok);
        assert(devices[ids[i]].connected);
    }
}

/// A table with one device answers every read for "any device" as that
/// device does.
pub proof fn lemma_one_device_answers_for_all(state: TableState, code: u16, ids: Seq<DeviceID>, id: DeviceID)
    requires
        state.initialised,
        state.devices.dom() == set![id],
        is_an_order(ids, state.devices.dom()),
    ensures
        ids == seq![id],
        table_analog(state, code, 0, ids) == device_analog(state.devices[id], code),
        table_buffer(state, 0, ids) == match device_frame(state.devices[id]) {
            Ok(frame) => Ok::<Buffer, WootingAnalogResult>(merged(Map::empty(), frame, false)),
            Err(kind) => Err(kind),
        },
{
    ids.unique_seq_to_set();
    assert(ids.len() == 1) by {
        assert(set![id].len() == 1);
    }
    assert(ids.to_set().contains(ids[0]));
    assert(ids =~= seq![id]);
    assert(state.devices.len() == 1);
    let answers = analog_answers(state.devices, ids, code);
    assert(answers.drop_last() =~= Seq::<AnalogAnswer>::empty());
    assert(answers.last() == device_analog(state.devices[id], code));
    reveal_with_fuel(highest, 2);
    let frames = frame_answers(state.devices, ids);
    assert(frames.drop_last() =~= Seq::<BufferAnswer>::empty());
    assert(frames.last() == device_frame(state.devices[id]));
    reveal_with_fuel(laid_over, 2);
    reveal_with_fuel(first_success, 2);
    reveal_with_fuel(last_failure, 2);
}

/// Combines what the devices of a table answered to a whole-buffer read:
/// their frames laid over one another in order, or, where none handed out a
/// frame, the last failure.
pub fn collate_frames(answers: &Vec<SDKResult<HashMap<u16, Analog>>>) -> (result: SDKResult<
    HashMap<u16, Analog>,
>)
    ensures
        buffer_of(result) == frames_verdict(buffers_of(answers@)),
{
    let ghost all = buffers_of(answers@);
    let mut analog: HashMap<u16, Analog> = HashMap::new();
    let mut any_read = false;
    let mut error = WootingAnalogResult::OK;
    let mut i: usize = 0;
    assert(analog@ =~= laid_over(all.take(0)));
    while i < answers.len()
        invariant
            i <= answers.len(),
            all == buffers_of(answers@),
            analog@ == laid_over(all.take(i as int)),
            any_read == first_success(all.take(i as int)) is Some,
            error == last_failure(all.take(i as int)),
        decreases answers.len() - i,
    {
        proof {
            assert(all.take(i + 1).drop_last() =~= all.take(i as int));
            assert(all.take(i + 1).last() == buffer_of(answers@[i as int]));
        }
        match &answers[i].0 {
            Ok(frame) => {
                any_read = true;
                absorb(&mut analog, frame);
            },
            Err(kind) => {
                error = *kind;
            },
        }
        i += 1;
    }
    assert(all.take(i as int) =~= all);
    if !any_read {
        SDKResult(Err(error))
    } else {
        SDKResult(Ok(analog))
    }
}

/// Lays `data` over `held`: of a key that both hold, the level in `data`
/// stays.
pub fn absorb(held: &mut HashMap<u16, Analog>, data: &HashMap<u16, Analog>)
    ensures
        final(held)@ == merged(old(held)@, data@, false),
{
    broadcast use vstd::std_specs::hash::group_hash_axioms;

    let keys = keys_of(data);
    let ghost before = held@;
    let mut i: usize = 0;
    assert(merged(before, data@.restrict(keys@.take(0).to_set()), false) =~= before);
    while i < keys.len()
        invariant
            i <= keys.len(),
            keys@.to_set() == data@.dom(),
            held@ == merged(before, data@.restrict(keys@.take(i as int).to_set()), false),
        decreases keys.len() - i,
    {
        let key = keys[i];
        proof {
            assert(keys@.to_set().contains(key));
            assert(keys@.take(i + 1) =~= keys@.take(i as int).push(key));
            keys@.take(i as int).lemma_push_to_set_commute(key);
        }
        if let Some(level) = data.get(&key) {
            held.insert(key, *level);
        }
        assert(held@ =~= merged(before, data@.restrict(keys@.take(i + 1).to_set()), false));
        i += 1;
    }
    proof {
        assert(keys@.take(keys@.len() as int) =~= keys@);
        assert(data@.restrict(keys@.to_set()) =~= data@);
    }
}

} // verus!
