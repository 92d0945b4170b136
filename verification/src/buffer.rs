//! Whole-buffer reads: how the buffers of several plugins become one.
//!
//! A plugin hands over its pressed keys under their HID usage codes. Each
//! entry is put under the code that names the key in the consumer's
//! namespace; a key that the namespace cannot name is left out. In a read for
//! "any device" a key that several plugins report keeps its greatest level.

use crate::aggregate::{
    first_success, heard, last_failure, lemma_first_success, lemma_first_success_of_a_prefix,
    lemma_heard_in_full,
};
use crate::analog::Analog;
use crate::device::DeviceID;
use crate::keycode::{hid_code, hid_to_code_on_host, is_custom_code, KeycodeType};
use crate::result::{SDKResult, WootingAnalogResult};
use crate::scancode::{
    lemma_scancode_table_is_two_way, lemma_scancodes_are_plain_or_extended, scancode_hid,
    ScancodeMap,
};
use std::collections::HashMap;
use vstd::prelude::*;
use vstd::std_specs::iter::IteratorSpec;

verus! {

/// The keys of a buffer with their levels.
pub type Buffer = Map<u16, Analog>;

/// The answer of one plugin to a whole-buffer read.
pub type BufferAnswer = Result<Buffer, WootingAnalogResult>;

/// The HID usage code of the key that `code` names in `mode`, on a host without
/// a virtual-key layer: the one code that [`hid_code`] turns into `code`.
pub open spec fn hid_named_by(code: u16, mode: KeycodeType) -> Option<u16> {
    if is_custom_code(code) {
        Some(code)
    } else {
        match mode {
            KeycodeType::HID => if code < 0x100 {
                Some(code)
            } else {
                None
            },
            KeycodeType::ScanCode1 => match scancode_hid(code) {
                Some(hid) => Some(hid as u16),
                None => None,
            },
            _ => None,
        }
    }
}

/// No two keys share a name: `code` names the key with HID usage code `hid`
/// exactly when `hid` is what [`hid_named_by`] gives for `code`.
pub proof fn lemma_names_are_unique(hid: u16, code: u16, mode: KeycodeType)
    ensures
        hid_code(hid, mode, None) == Some(code) <==> hid_named_by(code, mode) == Some(hid),
{
    if hid < 0x100 {
        lemma_scancode_table_is_two_way((hid % 256) as u8, code);
        lemma_scancodes_are_plain_or_extended((hid % 256) as u8);
    }
    if let Some(h) = scancode_hid(code) {
        lemma_scancode_table_is_two_way(h, code);
        lemma_scancodes_are_plain_or_extended(h);
    }
}

/// The buffer `data` with every key under the code that names it in `mode`.
pub open spec fn translated(data: Buffer, mode: KeycodeType) -> Buffer {
    Map::new(
        |code: u16| hid_named_by(code, mode) matches Some(hid) && data.contains_key(hid),
        |code: u16| data[hid_named_by(code, mode)->0],
    )
}

/// The buffer that holds `held` and `fresh`. Where both hold a key, the fresh
/// level replaces the held one, or, if `combine` is set, the greater of the
/// two stays.
pub open spec fn merged(held: Buffer, fresh: Buffer, combine: bool) -> Buffer {
    Map::new(
        |code: u16| held.contains_key(code) || fresh.contains_key(code),
        |code: u16|
            if !fresh.contains_key(code) {
                held[code]
            } else if combine && held.contains_key(code) {
                fresh[code].higher(held[code])
            } else {
                fresh[code]
            },
    )
}

/// The buffer `held` with one more entry, by the rule of [`merged`].
pub open spec fn with_entry(held: Buffer, code: u16, level: Analog, combine: bool) -> Buffer {
    held.insert(
        code,
        if combine && held.contains_key(code) {
            level.higher(held[code])
        } else {
            level
        },
    )
}

/// Putting one entry into a buffer is merging the buffer that holds nothing
/// but that entry.
pub proof fn lemma_with_entry_is_merged(held: Buffer, code: u16, level: Analog, combine: bool)
    ensures
        with_entry(held, code, level, combine) == merged(
            held,
            Map::<u16, Analog>::empty().insert(code, level),
            combine,
        ),
{
    assert(with_entry(held, code, level, combine) =~= merged(
        held,
        Map::<u16, Analog>::empty().insert(code, level),
        combine,
    ));
}

/// The buffer that the successes among `answers` add up to.
pub open spec fn gathered(answers: Seq<BufferAnswer>, mode: KeycodeType, combine: bool) -> Buffer
    decreases answers.len(),
{
    if answers.len() == 0 {
        Map::empty()
    } else {
        match answers.last() {
            Ok(data) => merged(gathered(answers.drop_last(), mode, combine), translated(data, mode), combine),
            Err(_) => gathered(answers.drop_last(), mode, combine),
        }
    }
}

/// The outcome of a whole-buffer read to which the plugins gave `answers`: the
/// buffer gathered from what was heard, or, where no success was heard, the
/// last failure.
pub open spec fn buffer_verdict(
    answers: Seq<BufferAnswer>,
    mode: KeycodeType,
    device_id: DeviceID,
) -> BufferAnswer {
    let counted = heard(answers, device_id);
    if first_success(counted) is Some {
        Ok(gathered(counted, mode, device_id == 0))
    } else {
        Err(last_failure(counted))
    }
}

/// A buffer answer as the rules above speak of it.
pub open spec fn buffer_of(answer: SDKResult<HashMap<u16, Analog>>) -> BufferAnswer {
    match answer.0 {
        Ok(data) => Ok(data@),
        Err(kind) => Err(kind),
    }
}

/// The buffer answers as the rules above speak of them.
pub open spec fn buffers_of(answers: Seq<SDKResult<HashMap<u16, Analog>>>) -> Seq<BufferAnswer> {
    answers.map_values(|answer: SDKResult<HashMap<u16, Analog>>| buffer_of(answer))
}

/// Every entry of a translated buffer comes from the one key that its code
/// names, and every key that has a name is in the translated buffer under it.
pub proof fn lemma_translated_entries(data: Buffer, mode: KeycodeType, hid: u16, code: u16)
    requires
        hid_code(hid, mode, None) == Some(code),
    ensures
        translated(data, mode).contains_key(code) <==> data.contains_key(hid),
        data.contains_key(hid) ==> translated(data, mode)[code] == data[hid],
{
    lemma_names_are_unique(hid, code, mode);
}

/// A level of zero is an entry like any other: it is neither dropped in
/// translation nor in merging.
pub proof fn lemma_zero_levels_are_kept(
    held: Buffer,
    data: Buffer,
    mode: KeycodeType,
    combine: bool,
    hid: u16,
    code: u16,
)
    requires
        hid_code(hid, mode, None) == Some(code),
        data.contains_key(hid),
        data[hid].pattern() == 0,
    ensures
        merged(held, translated(data, mode), combine).contains_key(code),
        !held.contains_key(code) || !combine ==> merged(held, translated(data, mode), combine)[code]
            == data[hid],
{
    lemma_names_are_unique(hid, code, mode);
}

/// The room that is left for keys where `held` of at most `max_length` are
/// gathered already.
pub open spec fn room_left(max_length: nat, held: nat) -> nat {
    if held >= max_length {
        0
    } else {
        (max_length - held) as nat
    }
}

/// How many keys the next plugin is asked for in a whole-buffer read for at
/// most `max_length` keys, of which `held` are gathered already.
pub fn room_for(max_length: usize, held: usize) -> (room: usize)
    ensures
        room == room_left(max_length as nat, held as nat),
{
    if held >= max_length {
        0
    } else {
        max_length - held
    }
}

/// The keys of a buffer, each once.
pub fn keys_of(data: &HashMap<u16, Analog>) -> (keys: Vec<u16>)
    ensures
        keys@.to_set() == data@.dom(),
        keys@.no_duplicates(),
        keys@.len() == data@.dom().len(),
{
    broadcast use vstd::std_specs::hash::group_hash_axioms;

    let mut keys: Vec<u16> = Vec::new();
    for key in it: data.keys()
        invariant
            it.seq() == data.keys().remaining(),
            keys@ == it.seq().take(it.index() as int).unref(),
    {
        keys.push(*key);
    }
    assert(keys@ == data.keys().remaining().unref());
    keys
}

/// Puts one entry into `held`. Where `held` has the key already, the new level
/// replaces the held one, or, if `combine` is set, the greater of the two
/// stays.
pub fn merge_entry(held: &mut HashMap<u16, Analog>, code: u16, level: Analog, combine: bool)
    ensures
        final(held)@ == with_entry(old(held)@, code, level, combine),
{
    broadcast use vstd::std_specs::hash::group_hash_axioms;

    let mut total = level;
    //No point in checking if the value is already present if we are only looking for data from one device
    if combine {
        if let Some(val) = held.get(&code) {
            total = total.max(*val);
        }
    }
    held.insert(code, total);
}

/// Puts the entries of `data` into `held`, each under the code that names its
/// key in `mode`.
pub fn merge_into(
    held: &mut HashMap<u16, Analog>,
    data: &HashMap<u16, Analog>,
    mode: &KeycodeType,
    combine: bool,
    table: &ScancodeMap,
)
    ensures
        final(held)@ == merged(old(held)@, translated(data@, *mode), combine),
{
    broadcast use vstd::std_specs::hash::group_hash_axioms;

    let keys = keys_of(data);
    let ghost before = held@;
    let mut i: usize = 0;
    assert(merged(before, translated(data@.restrict(keys@.take(0).to_set()), *mode), combine)
        =~= before);
    while i < keys.len()
        invariant
            i <= keys.len(),
            keys@.to_set() == data@.dom(),
            keys@.no_duplicates(),
            held@ == merged(
                before,
                translated(data@.restrict(keys@.take(i as int).to_set()), *mode),
                combine,
            ),
        decreases keys.len() - i,
    {
        let hid = keys[i];
        let ghost seen = keys@.take(i as int).to_set();
        let ghost seen_now = keys@.take(i + 1).to_set();
        let ghost part = data@.restrict(seen);
        let ghost part_now = data@.restrict(seen_now);
        proof {
            assert(keys@.to_set().contains(hid));
            assert(!seen.contains(hid)) by {
                if seen.contains(hid) {
                    let j = choose|j: int| 0 <= j < i && keys@.take(i as int)[j] == hid;
                    assert(keys@[j] == keys@[i as int]);
                }
            }
            assert(keys@.take(i + 1) =~= keys@.take(i as int).push(hid));
            keys@.take(i as int).lemma_push_to_set_commute(hid);
            assert(seen_now =~= seen.insert(hid));
            assert(part_now =~= part.insert(hid, data@[hid]));
        }
        match data.get(&hid) {
            Some(level) => {
                match table.hid_to_code(hid, mode, None) {
                    Some(code) => {
                        proof {
                            lemma_names_are_unique(hid, code, *mode);
                            assert forall|other: u16|
                                hid_named_by(other, *mode) == Some(hid) implies other == code by {
                                lemma_names_are_unique(hid, other, *mode);
                            }
                            assert(!translated(part, *mode).contains_key(code));
                            assert(translated(part_now, *mode) =~= translated(part, *mode).insert(
                                code,
                                data@[hid],
                            ));
                        }
                        merge_entry(held, code, *level, combine);
                        assert(held@ =~= merged(before, translated(part_now, *mode), combine));
                    },
                    None => {
                        proof {
                            assert forall|code: u16|
                                hid_named_by(code, *mode) != Some(hid) by {
                                lemma_names_are_unique(hid, code, *mode);
                            }
                            assert(translated(part_now, *mode) =~= translated(part, *mode));
                        }
                    },
                }
            },
            None => {
                assert(false);
            },
        }
        i += 1;
    }
    proof {
        assert(keys@.take(keys@.len() as int) =~= keys@);
        assert(data@.restrict(keys@.to_set()) =~= data@);
    }
}

/// What a whole-buffer read has gathered from the answers taken so far.
pub ghost struct GatherState {
    /// The buffer gathered from the successes.
    pub held: Buffer,
    /// Whether a success was among the answers.
    pub heard_success: bool,
    /// The kind of the last failure among the answers, `OK` where there was
    /// none.
    pub last_failure: WootingAnalogResult,
}

/// The state before any answer is taken.
pub open spec fn nothing_gathered() -> GatherState {
    GatherState { held: Map::empty(), heard_success: false, last_failure: WootingAnalogResult::OK }
}

/// The state after one more answer: a success is merged into the buffer, a
/// failure is remembered as the last.
pub open spec fn with_answer(
    state: GatherState,
    answer: BufferAnswer,
    mode: KeycodeType,
    combine: bool,
) -> GatherState {
    match answer {
        Ok(data) => GatherState {
            held: merged(state.held, translated(data, mode), combine),
            heard_success: true,
            ..state
        },
        Err(kind) => GatherState { last_failure: kind, ..state },
    }
}

/// The state after `answers` have been taken.
pub open spec fn gathered_state(answers: Seq<BufferAnswer>, mode: KeycodeType, combine: bool) -> GatherState {
    GatherState {
        held: gathered(answers, mode, combine),
        heard_success: first_success(answers) is Some,
        last_failure: last_failure(answers),
    }
}

/// What the read returns for what it has gathered: the buffer where a success
/// was heard, else the last failure.
pub open spec fn gather_outcome(state: GatherState) -> BufferAnswer {
    if state.heard_success {
        Ok(state.held)
    } else {
        Err(state.last_failure)
    }
}

/// Taking the answers one by one leads to the state after all of them.
pub proof fn lemma_gathering_takes_answers_in_turn(
    answers: Seq<BufferAnswer>,
    answer: BufferAnswer,
    mode: KeycodeType,
    combine: bool,
)
    ensures
        gathered_state(answers.push(answer), mode, combine) == with_answer(
            gathered_state(answers, mode, combine),
            answer,
            mode,
            combine,
        ),
        gathered_state(Seq::<BufferAnswer>::empty(), mode, combine) == nothing_gathered(),
{
    assert(answers.push(answer).drop_last() =~= answers);
}

/// The verdict of a whole-buffer read is the outcome of gathering what was
/// heard.
pub proof fn lemma_verdict_is_the_outcome_of_gathering(
    answers: Seq<BufferAnswer>,
    mode: KeycodeType,
    device_id: DeviceID,
)
    ensures
        buffer_verdict(answers, mode, device_id) == gather_outcome(
            gathered_state(heard(answers, device_id), mode, device_id == 0),
        ),
{
}

/// The buffer that a whole-buffer read gathers, answer by answer.
pub struct Gathering {
    held: HashMap<u16, Analog>,
    any_success: bool,
    err: WootingAnalogResult,
}

impl View for Gathering {
    type V = GatherState;

    closed spec fn view(&self) -> GatherState {
        GatherState { held: self.held@, heard_success: self.any_success, last_failure: self.err }
    }
}

impl Gathering {
    /// A read that has taken no answer yet.
    pub fn new() -> (gathering: Gathering)
        ensures
            gathering@ == nothing_gathered(),
    {
        Gathering { held: HashMap::new(), any_success: false, err: WootingAnalogResult::OK }
    }

    /// How many keys the next plugin is asked for where at most `max_length`
    /// are wanted in all: as many as there is room left.
    pub fn room(&self, max_length: usize) -> (room: usize)
        ensures
            room == room_left(max_length as nat, self@.held.len()),
    {
        broadcast use vstd::std_specs::hash::group_hash_axioms;

        room_for(max_length, self.held.len())
    }

    /// Takes the answer of the next plugin. The keys of a success come under
    /// the codes that name them in `mode`.
    pub fn take(
        &mut self,
        answer: &SDKResult<HashMap<u16, Analog>>,
        mode: &KeycodeType,
        combine: bool,
        table: &ScancodeMap,
    )
        ensures
            final(self)@ == with_answer(old(self)@, buffer_of(*answer), *mode, combine),
    {
        match &answer.0 {
            Ok(data) => {
                merge_into(&mut self.held, data, mode, combine, table);
                self.any_success = true;
            },
            Err(kind) => {
                self.err = *kind;
            },
        }
    }

    /// What the read returns.
    pub fn finish(self) -> (result: SDKResult<HashMap<u16, Analog>>)
        ensures
            buffer_of(result) == gather_outcome(self@),
    {
        if !self.any_success {
            SDKResult(Err(self.err))
        } else {
            SDKResult(Ok(self.held))
        }
    }
}

/// Combines the answers of the plugins to a whole-buffer read, in the
/// namespace `mode`.
pub fn collate_buffers(
    answers: &Vec<SDKResult<HashMap<u16, Analog>>>,
    mode: &KeycodeType,
    device_id: DeviceID,
) -> (result: SDKResult<HashMap<u16, Analog>>)
    ensures
        buffer_of(result) == buffer_verdict(buffers_of(answers@), *mode, device_id),
{
    let ghost all = buffers_of(answers@);
    let table = ScancodeMap::new();
    let mut gathering = Gathering::new();
    let mut i: usize = 0;
    let mut stopped = false;
    proof {
        lemma_gathering_takes_answers_in_turn(
            all.take(0),
            Err(WootingAnalogResult::OK),
            *mode,
            device_id == 0,
        );
        assert(all.take(0) =~= Seq::<BufferAnswer>::empty());
    }
    while i < answers.len() && !stopped
        invariant
            i <= answers.len(),
            all == buffers_of(answers@),
            gathering@ == gathered_state(all.take(i as int), *mode, device_id == 0),
            heard(all.take(i as int), device_id) == all.take(i as int),
            stopped ==> device_id != 0 && first_success(all) == Some(i - 1),
            !stopped ==> first_success(all.take(i as int)) is None || device_id == 0,
        decreases answers.len() - i + if stopped { 0int } else { 1int },
    {
        let ghost before = all.take(i as int);
        let ghost now = all.take(i + 1);
        proof {
            assert(now =~= before.push(buffer_of(answers@[i as int])));
            lemma_gathering_takes_answers_in_turn(
                before,
                buffer_of(answers@[i as int]),
                *mode,
                device_id == 0,
            );
            lemma_first_success(before);
            lemma_first_success(now);
        }
        gathering.take(&answers[i], mode, device_id == 0, &table);
        //If we are looking for a specific device, just break out when we find one that returns good
        if device_id != 0 && answers[i].0.is_ok() {
            stopped = true;
        }
        i += 1;
        proof {
            if device_id != 0 {
                assert forall|j: int| 0 <= j < now.len() - 1 implies now[j] is Err by {
                    assert(now[j] == before[j]);
                }
                lemma_heard_in_full(now, device_id);
            }
            if stopped {
                lemma_first_success_of_a_prefix(all, i as int);
            }
        }
    }
    proof {
        if stopped {
            assert(heard(all, device_id) == all.take(i as int));
        } else {
            assert(all.take(i as int) =~= all);
        }
    }
    gathering.finish()
}

/// What the host's keyboard layer answered for the key with HID usage code
/// `hid`, where `host` holds its answers under the keys they are for.
pub open spec fn host_answer(host: Map<u16, u32>, hid: u16) -> Option<u32> {
    if host.contains_key(hid) {
        Some(host[hid])
    } else {
        None
    }
}

/// The buffer in which the keys `keys` of `data`, taken in turn, stand under
/// the codes that name them in `mode` on a host that answered `host`. A key
/// that the namespace cannot name is left out; of two keys that go by one
/// name the later one is heard, or, if `combine` is set, the one with the
/// greater level.
pub open spec fn named_in_turn(
    data: Buffer,
    keys: Seq<u16>,
    mode: KeycodeType,
    host: Map<u16, u32>,
    combine: bool,
) -> Buffer
    decreases keys.len(),
{
    if keys.len() == 0 {
        Map::empty()
    } else {
        let before = named_in_turn(data, keys.drop_last(), mode, host, combine);
        match hid_code(keys.last(), mode, host_answer(host, keys.last())) {
            Some(code) => with_entry(before, code, data[keys.last()], combine),
            None => before,
        }
    }
}

/// Whatever the turn in which the keys are taken: a code stands in the named
/// buffer exactly when it names one of the keys, and its level there is the
/// level of a key that it names.
pub proof fn lemma_named_levels_are_levels_of_named_keys(
    data: Buffer,
    keys: Seq<u16>,
    mode: KeycodeType,
    host: Map<u16, u32>,
    combine: bool,
    code: u16,
)
    ensures
        named_in_turn(data, keys, mode, host, combine).contains_key(code) <==> exists|i: int|
            0 <= i < keys.len() && #[trigger] hid_code(keys[i], mode, host_answer(host, keys[i]))
                == Some(code),
        named_in_turn(data, keys, mode, host, combine).contains_key(code) ==> exists|i: int|
            0 <= i < keys.len() && #[trigger] hid_code(keys[i], mode, host_answer(host, keys[i]))
                == Some(code) && named_in_turn(data, keys, mode, host, combine)[code]
                == data[keys[i]],
    decreases keys.len(),
{
    if keys.len() > 0 {
        let front = keys.drop_last();
        let last = keys.len() - 1;
        lemma_named_levels_are_levels_of_named_keys(data, front, mode, host, combine, code);
        let before = named_in_turn(data, front, mode, host, combine);
        let named = named_in_turn(data, keys, mode, host, combine);
        assert forall|i: int| 0 <= i < front.len() implies front[i] == keys[i] by {}
        if hid_code(keys[last], mode, host_answer(host, keys[last])) == Some(code) {
            assert(named.contains_key(code));
            if named[code] != data[keys[last]] {
                assert(before.contains_key(code) && named[code] == before[code]);
                let i = choose|i: int|
                    0 <= i < front.len() && #[trigger] hid_code(
                        front[i],
                        mode,
                        host_answer(host, front[i]),
                    ) == Some(code) && before[code] == data[front[i]];
                assert(hid_code(keys[i], mode, host_answer(host, keys[i])) == Some(code)
                    && named[code] == data[keys[i]]);
            }
        } else if named.contains_key(code) {
            assert(before.contains_key(code) && named[code] == before[code]);
            let i = choose|i: int|
                0 <= i < front.len() && #[trigger] hid_code(
                    front[i],
                    mode,
                    host_answer(host, front[i]),
                ) == Some(code) && before[code] == data[front[i]];
            assert(hid_code(keys[i], mode, host_answer(host, keys[i])) == Some(code) && named[code]
                == data[keys[i]]);
        } else {
            assert(!before.contains_key(code));
            assert forall|i: int| 0 <= i < keys.len() implies #[trigger] hid_code(
                keys[i],
                mode,
                host_answer(host, keys[i]),
            ) != Some(code) by {
                if i < front.len() {
                    assert(front[i] == keys[i]);
                }
            }
        }
    }
}

/// Puts every key of `data`, which holds the keys under their HID usage
/// codes, under the code that names it in `mode` on a host whose keyboard
/// layer gave the answers `host`, each under the key that it is for. The keys
/// are taken in the turn in which the buffer hands them out.
pub fn name_on_host(
    data: &HashMap<u16, Analog>,
    mode: &KeycodeType,
    host: &HashMap<u16, u32>,
    combine: bool,
) -> (named: HashMap<u16, Analog>)
    ensures
        exists|keys: Seq<u16>|
            keys.no_duplicates() && keys.to_set() == data@.dom() && named@ == named_in_turn(
                data@,
                keys,
                *mode,
                host@,
                combine,
            ),
{
    broadcast use vstd::std_specs::hash::group_hash_axioms;

    let keys = keys_of(data);
    let mut named: HashMap<u16, Analog> = HashMap::new();
    let mut i: usize = 0;
    assert(named@ =~= named_in_turn(data@, keys@.take(0), *mode, host@, combine));
    while i < keys.len()
        invariant
            i <= keys.len(),
            keys@.to_set() == data@.dom(),
            named@ == named_in_turn(data@, keys@.take(i as int), *mode, host@, combine),
        decreases keys.len() - i,
    {
        let hid = keys[i];
        proof {
            assert(keys@.to_set().contains(hid));
            assert(keys@.take(i + 1).drop_last() =~= keys@.take(i as int));
            assert(keys@.take(i + 1).last() == hid);
        }
        let answer = match host.get(&hid) {
            Some(told) => Some(*told),
            None => None,
        };
        if let Some(level) = data.get(&hid) {
            if let Some(code) = hid_to_code_on_host(hid, mode, answer) {
                merge_entry(&mut named, code, *level, combine);
            }
        }
        i += 1;
    }
    assert(keys@.take(i as int) =~= keys@);
    named
}

} // verus!
