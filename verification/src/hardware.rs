//! The known keyboards and the reports they send.
//!
//! A keyboard is recognised by its vendor, its product and the usage page of
//! its analog interface. It reports the pressed keys in triples of bytes: the
//! code of the key, high byte first, and the raw level.

use vstd::prelude::*;

verus! {

/// The size of a report in bytes.
pub const ANALOG_BUFFER_SIZE: usize = 48;

/// The most keys that are read from one report.
pub const ANALOG_MAX_SIZE: usize = 40;

/// The vendor identifier of the later models.
pub const WOOTING_VID: u16 = 0x31e3;

/// The vendor identifier of the first two models.
pub const LEGACY_VID: u16 = 0x03EB;

/// The usage page of the analog interface.
pub const ANALOG_USAGE_PAGE: u16 = 0xFF54;

/// What tells a device and its analog interface apart from others.
#[derive(Debug, Clone, Copy, PartialEq, Eq, Hash, Structural)]
pub struct DeviceHardwareID {
    /// Vendor identifier.
    pub vid: u16,
    /// Product identifier.
    pub pid: u16,
    /// Usage page of the interface.
    pub usage_page: u16,
}

/// The models that are known.
#[derive(Debug, Clone, Copy, PartialEq, Eq, Hash, Structural)]
pub enum DeviceModel {
    /// The first model.
    WootingOne,
    /// The second model.
    WootingTwo,
    /// The Lekker edition.
    WootingLekker,
    /// The second model with Hall-effect switches.
    WootingTwoHE,
}

impl DeviceModel {
    /// What tells this model apart.
    pub open spec fn hardware_id(self) -> DeviceHardwareID {
        match self {
            DeviceModel::WootingOne => DeviceHardwareID {
                vid: LEGACY_VID,
                pid: 0xFF01,
                usage_page: ANALOG_USAGE_PAGE,
            },
            DeviceModel::WootingTwo => DeviceHardwareID {
                vid: LEGACY_VID,
                pid: 0xFF02,
                usage_page: ANALOG_USAGE_PAGE,
            },
            DeviceModel::WootingLekker => DeviceHardwareID {
                vid: WOOTING_VID,
                pid: 0x1210,
                usage_page: ANALOG_USAGE_PAGE,
            },
            DeviceModel::WootingTwoHE => DeviceHardwareID {
                vid: WOOTING_VID,
                pid: 0x1220,
                usage_page: ANALOG_USAGE_PAGE,
            },
        }
    }

    /// Whether the raw levels of this model are raised by a fifth before they
    /// are cut off at a full press: the switches of the first two models do
    /// not reach the top of the raw range.
    pub open spec fn is_raised(self) -> bool {
        self == DeviceModel::WootingOne || self == DeviceModel::WootingTwo
    }

    /// What tells this model apart.
    pub fn device_hardware_id(&self) -> (id: DeviceHardwareID)
        ensures
            id == self.hardware_id(),
    {
        match self {
            DeviceModel::WootingOne => DeviceHardwareID {
                vid: LEGACY_VID,
                pid: 0xFF01,
                usage_page: ANALOG_USAGE_PAGE,
            },
            DeviceModel::WootingTwo => DeviceHardwareID {
                vid: LEGACY_VID,
                pid: 0xFF02,
                usage_page: ANALOG_USAGE_PAGE,
            },
            DeviceModel::WootingLekker => DeviceHardwareID {
                vid: WOOTING_VID,
                pid: 0x1210,
                usage_page: ANALOG_USAGE_PAGE,
            },
            DeviceModel::WootingTwoHE => DeviceHardwareID {
                vid: WOOTING_VID,
                pid: 0x1220,
                usage_page: ANALOG_USAGE_PAGE,
            },
        }
    }

    /// Whether a device with the given vendor, product and usage page is of
    /// this model.
    pub fn matches(&self, vendor_id: u16, product_id: u16, usage_page: u16) -> (b: bool)
        ensures
            b == (self.hardware_id() == DeviceHardwareID {
                vid: vendor_id,
                pid: product_id,
                usage_page,
            }),
    {
        let id = self.device_hardware_id();
        product_id == id.pid && vendor_id == id.vid && usage_page == id.usage_page
    }

    /// Whether the raw levels of this model are raised by a fifth.
    pub fn raises_levels(&self) -> (b: bool)
        ensures
            b == self.is_raised(),
    {
        match self {
            DeviceModel::WootingOne | DeviceModel::WootingTwo => true,
            _ => false,
        }
    }
}

/// The model of a device with the given vendor, product and usage page.
pub open spec fn model_of(vendor_id: u16, product_id: u16, usage_page: u16) -> Option<DeviceModel> {
    let id = DeviceHardwareID { vid: vendor_id, pid: product_id, usage_page };
    if DeviceModel::WootingOne.hardware_id() == id {
        Some(DeviceModel::WootingOne)
    } else if DeviceModel::WootingTwo.hardware_id() == id {
        Some(DeviceModel::WootingTwo)
    } else if DeviceModel::WootingLekker.hardware_id() == id {
        Some(DeviceModel::WootingLekker)
    } else if DeviceModel::WootingTwoHE.hardware_id() == id {
        Some(DeviceModel::WootingTwoHE)
    } else {
        None
    }
}

/// A device is of the model found for it and of no other; where none is
/// found, it is of no known model.
pub proof fn lemma_model_of_is_the_match(
    vendor_id: u16,
    product_id: u16,
    usage_page: u16,
    model: DeviceModel,
)
    ensures
        model_of(vendor_id, product_id, usage_page) == Some(model) <==> model.hardware_id() == (
        DeviceHardwareID { vid: vendor_id, pid: product_id, usage_page }),
{
}

/// The models that are known, in the order in which a device is held against
/// them.
pub fn known_models() -> (models: Vec<DeviceModel>)
    ensures
        models@ == seq![
            DeviceModel::WootingOne,
            DeviceModel::WootingTwo,
            DeviceModel::WootingLekker,
            DeviceModel::WootingTwoHE,
        ],
{
    let mut models: Vec<DeviceModel> = Vec::new();
    models.push(DeviceModel::WootingOne);
    models.push(DeviceModel::WootingTwo);
    models.push(DeviceModel::WootingLekker);
    models.push(DeviceModel::WootingTwoHE);
    assert(models@ =~= seq![
        DeviceModel::WootingOne,
        DeviceModel::WootingTwo,
        DeviceModel::WootingLekker,
        DeviceModel::WootingTwoHE,
    ]);
    models
}

/// Finds the model of a device with the given vendor, product and usage page.
pub fn find_model(vendor_id: u16, product_id: u16, usage_page: u16) -> (model: Option<DeviceModel>)
    ensures
        model == model_of(vendor_id, product_id, usage_page),
{
    let models = known_models();
    let mut i: usize = 0;
    while i < models.len()
        invariant
            i <= models.len(),
            models@ == seq![
                DeviceModel::WootingOne,
                DeviceModel::WootingTwo,
                DeviceModel::WootingLekker,
                DeviceModel::WootingTwoHE,
            ],
            forall|j: int|
                0 <= j < i ==> (#[trigger] models@[j]).hardware_id() != (DeviceHardwareID {
                    vid: vendor_id,
                    pid: product_id,
                    usage_page,
                }),
        decreases models.len() - i,
    {
        if models[i].matches(vendor_id, product_id, usage_page) {
            return Some(models[i]);
        }
        i += 1;
    }
    proof {
        assert(models@[0] == DeviceModel::WootingOne);
        assert(models@[1] == DeviceModel::WootingTwo);
        assert(models@[2] == DeviceModel::WootingLekker);
        assert(models@[3] == DeviceModel::WootingTwoHE);
    }
    None
}

/// The code of the key in the triple that starts at `at`.
pub open spec fn triple_code(report: Seq<u8>, at: int) -> u16 {
    (report[at] * 256 + report[at + 1]) as u16
}

/// The pressed keys among the first `triples` triples of `report`, in order,
/// each with its raw level. A triple with level zero is no pressed key.
pub open spec fn pressed_in(report: Seq<u8>, triples: nat) -> Seq<(u16, u8)>
    decreases triples,
{
    if triples == 0 {
        Seq::empty()
    } else {
        let at = 3 * (triples - 1);
        let before = pressed_in(report, (triples - 1) as nat);
        if report[at + 2] != 0 {
            before.push((triple_code(report, at), report[at + 2]))
        } else {
            before
        }
    }
}

/// How many triples of a report of `len` bytes are read when at most
/// `max_length` keys are asked for: the whole triples, up to `max_length`.
pub open spec fn triples_read(len: nat, max_length: nat) -> nat {
    if len / 3 <= max_length {
        len / 3
    } else {
        max_length
    }
}

/// The pressed keys that `report` holds, where at most `max_length` triples
/// are read.
pub open spec fn report_entries(report: Seq<u8>, max_length: nat) -> Seq<(u16, u8)> {
    pressed_in(report, triples_read(report.len(), max_length))
}

/// Reads the pressed keys from a report: the first `max_length` whole triples
/// are read, and those with a raw level above zero are handed back.
pub fn parse_report(report: &[u8], max_length: usize) -> (entries: Vec<(u16, u8)>)
    ensures
        entries@ == report_entries(report@, max_length as nat),
{
    let len: usize = report.len();
    let whole: usize = len / 3;
    let triples: usize = if whole <= max_length {
        whole
    } else {
        max_length
    };
    let mut entries: Vec<(u16, u8)> = Vec::new();
    let mut i: usize = 0;
    while i < triples
        invariant
            i <= triples,
            len == report@.len(),
            triples <= len / 3,
            entries@ == pressed_in(report@, i as nat),
        decreases triples - i,
    {
        let at: usize = 3 * i;
        let high: u8 = report[at];
        let low: u8 = report[at + 1];
        let level: u8 = report[at + 2];
        if level != 0 {
            assert(((high as u16) << 8) | (low as u16) == high * 256 + low) by (bit_vector);
            let code: u16 = ((high as u16) << 8) | (low as u16);
            entries.push((code, level));
        }
        i += 1;
    }
    entries
}

/// A key is among the entries of a report exactly when one of the triples
/// read names it with a level above zero; no entry has level zero.
pub proof fn lemma_entries_are_the_pressed_triples(report: Seq<u8>, triples: nat)
    ensures
        forall|k: int|
            0 <= k < pressed_in(report, triples).len() ==> (#[trigger] pressed_in(report, triples)[k]).1
                != 0,
        forall|t: int|
            0 <= t < triples && report[3 * t + 2] != 0 ==> pressed_in(report, triples).contains(
                (#[trigger] triple_code(report, 3 * t), report[3 * t + 2]),
            ),
        pressed_in(report, triples).len() <= triples,
    decreases triples,
{
    if triples > 0 {
        let before = pressed_in(report, (triples - 1) as nat);
        let now = pressed_in(report, triples);
        lemma_entries_are_the_pressed_triples(report, (triples - 1) as nat);
        let at = 3 * (triples - 1);
        assert forall|t: int| 0 <= t < triples && report[3 * t + 2] != 0 implies now.contains(
            (#[trigger] triple_code(report, 3 * t), report[3 * t + 2]),
        ) by {
            if t < triples - 1 {
                let entry = (triple_code(report, 3 * t), report[3 * t + 2]);
                assert(before.contains(entry));
                let k = choose|k: int| 0 <= k < before.len() && before[k] == entry;
                assert(now[k] == entry);
            } else {
                assert(now[now.len() - 1] == (triple_code(report, at), report[at + 2]));
            }
        }
    }
}

/// The pressed keys among the first `n` places of a run of raw levels, in
/// which the place of a level is the code of its key.
pub open spec fn pressed_among(levels: Seq<u8>, n: nat) -> Seq<(u16, u8)>
    decreases n,
{
    if n == 0 {
        Seq::empty()
    } else {
        let before = pressed_among(levels, (n - 1) as nat);
        if levels[n - 1] != 0 {
            before.push(((n - 1) as u16, levels[n - 1]))
        } else {
            before
        }
    }
}

/// How many places of a run of raw levels can be read: a code has sixteen
/// bits.
pub open spec fn places_with_a_code(len: nat) -> nat {
    if len <= 0x1_0000 {
        len
    } else {
        0x1_0000
    }
}

/// Reads the pressed keys from a run of raw levels in which the place of a
/// level is the code of its key: those with a level above zero are handed
/// back, in order.
pub fn raw_snapshot(levels: &[u8]) -> (entries: Vec<(u16, u8)>)
    ensures
        entries@ == pressed_among(levels@, places_with_a_code(levels@.len())),
{
    let places: usize = if levels.len() <= 0x1_0000 {
        levels.len()
    } else {
        0x1_0000
    };
    let mut entries: Vec<(u16, u8)> = Vec::new();
    let mut i: usize = 0;
    while i < places
        invariant
            i <= places,
            places <= levels@.len(),
            places <= 0x1_0000,
            entries@ == pressed_among(levels@, i as nat),
        decreases places - i,
    {
        let level: u8 = levels[i];
        if level > 0 {
            entries.push((i as u16, level));
        }
        i += 1;
    }
    entries
}

/// The length of the text at the start of `bytes`: the place of the first
/// zero byte.
pub open spec fn text_len(bytes: Seq<u8>) -> Option<int>
    decreases bytes.len(),
{
    if bytes.len() == 0 {
        None
    } else if bytes[0] == 0 {
        Some(0)
    } else {
        match text_len(bytes.drop_first()) {
            Some(n) => Some(n + 1),
            None => None,
        }
    }
}

/// The text ends at the first zero byte; where no length is found, no byte is
/// zero.
pub proof fn lemma_text_len(bytes: Seq<u8>)
    ensures
        text_len(bytes) matches Some(n) ==> {
            &&& 0 <= n < bytes.len()
            &&& bytes[n] == 0
            &&& forall|j: int| 0 <= j < n ==> bytes[j] != 0
        },
        text_len(bytes) is None ==> forall|j: int| 0 <= j < bytes.len() ==> bytes[j] != 0,
    decreases bytes.len(),
{
    if bytes.len() > 0 && bytes[0] != 0 {
        let rest = bytes.drop_first();
        lemma_text_len(rest);
        match text_len(rest) {
            Some(n) => {
                assert(bytes[n + 1] == rest[n]);
                assert forall|j: int| 0 <= j < n + 1 implies bytes[j] != 0 by {
                    if j > 0 {
                        assert(bytes[j] == rest[j - 1]);
                    }
                }
            },
            None => {
                assert forall|j: int| 0 <= j < bytes.len() implies bytes[j] != 0 by {
                    if j > 0 {
                        assert(bytes[j] == rest[j - 1]);
                    }
                }
            },
        }
    }
}

/// Finds where the text at the start of `bytes` ends: at the first zero byte.
/// `None` where the bytes hold no zero byte.
pub fn text_before_nul(bytes: &[u8]) -> (len: Option<usize>)
    ensures
        len matches Some(n) ==> text_len(bytes@) == Some(n as int),
        len is None ==> text_len(bytes@) is None,
{
    let mut i: usize = 0;
    while i < bytes.len()
        invariant
            i <= bytes.len(),
            forall|j: int| 0 <= j < i ==> bytes@[j] != 0,
        decreases bytes.len() - i,
    {
        if bytes[i] == 0 {
            proof {
                lemma_text_len(bytes@);
                let n = text_len(bytes@)->0;
                if n < i {
                    assert(bytes@[n] != 0);
                }
            }
            return Some(i);
        }
        i += 1;
    }
    proof {
        lemma_text_len(bytes@);
    }
    None
}

} // verus!
