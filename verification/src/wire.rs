//! Buffers and device lists in the form in which they cross the boundary to
//! plain functions: a buffer as a run of codes beside a run of numbers, given
//! as their patterns, and a count that says how many places are filled.

use crate::analog::{is_level_pattern, kept_pattern, Analog};
use crate::buffer::{buffer_of, keys_of, Buffer};
use crate::device::DeviceInfo;
use crate::result::{SDKResult, WootingAnalogResult};
use std::collections::HashMap;
use vstd::prelude::*;

verus! {

/// The buffer that the first `n` places of two runs hold. A later place
/// replaces an earlier one with the same code. A place whose number is no
/// level is passed over.
pub open spec fn paired(codes: Seq<u16>, patterns: Seq<u32>, n: nat) -> Buffer
    decreases n,
{
    if n == 0 {
        Map::empty()
    } else {
        let before = paired(codes, patterns, (n - 1) as nat);
        if is_level_pattern(patterns[n - 1]) {
            before.insert(codes[n - 1], Analog::with_pattern(kept_pattern(patterns[n - 1])))
        } else {
            before
        }
    }
}

/// How many places are read when `returned` places are said to be filled:
/// no more than either run has.
pub open spec fn places_read(codes: nat, patterns: nat, returned: int) -> nat {
    if returned <= 0 {
        0
    } else if returned <= codes && returned <= patterns {
        returned as nat
    } else if codes <= patterns {
        codes
    } else {
        patterns
    }
}

/// What two runs and the count returned with them stand for: a negative count
/// is a failure, any other says how many places are filled.
pub open spec fn wire_buffer(codes: Seq<u16>, patterns: Seq<u32>, returned: int) -> Result<
    Buffer,
    WootingAnalogResult,
> {
    if returned < 0 {
        Err(WootingAnalogResult::of_error_value(returned))
    } else {
        Ok(paired(codes, patterns, places_read(codes.len(), patterns.len(), returned)))
    }
}

/// Reads a buffer from two runs and the count returned with them.
pub fn buffer_from_wire(codes: &[u16], patterns: &[u32], returned: i32) -> (result: SDKResult<
    HashMap<u16, Analog>,
>)
    ensures
        buffer_of(result) == wire_buffer(codes@, patterns@, returned as int),
{
    broadcast use vstd::std_specs::hash::group_hash_axioms;

    let count: usize = match SDKResult::<u32>::from_int(returned).0 {
        Ok(count) => count as usize,
        Err(kind) => {
            return SDKResult(Err(kind));
        },
    };
    let mut places: usize = count;
    if codes.len() < places {
        places = codes.len();
    }
    if patterns.len() < places {
        places = patterns.len();
    }
    let mut data: HashMap<u16, Analog> = HashMap::new();
    let mut i: usize = 0;
    while i < places
        invariant
            i <= places,
            places <= codes@.len(),
            places <= patterns@.len(),
            data@ == paired(codes@, patterns@, i as nat),
        decreases places - i,
    {
        if let Some(level) = Analog::from_bits(patterns[i]) {
            data.insert(codes[i], level);
        }
        i += 1;
    }
    SDKResult(Ok(data))
}

/// Writes a buffer into two runs of at most `len` places. The places hold
/// keys of the buffer, each at most once and each beside its level; where the
/// buffer has more keys than there are places, which of them are written is
/// not fixed.
pub fn buffer_to_wire(data: &HashMap<u16, Analog>, len: usize) -> (runs: (Vec<u16>, Vec<u32>))
    ensures
        runs.0@.len() == runs.1@.len(),
        runs.0@.len() == if data@.dom().len() <= len {
            data@.dom().len()
        } else {
            len as nat
        },
        runs.0@.no_duplicates(),
        forall|i: int|
            0 <= i < runs.0@.len() ==> data@.contains_key(#[trigger] runs.0@[i]) && runs.1@[i]
                == data@[runs.0@[i]].pattern(),
        data@.dom().len() <= len ==> runs.0@.to_set() == data@.dom(),
{
    broadcast use vstd::std_specs::hash::group_hash_axioms;

    let keys = keys_of(data);
    let mut codes: Vec<u16> = Vec::new();
    let mut patterns: Vec<u32> = Vec::new();
    let mut count: usize = 0;
    while count < keys.len() && count < len
        invariant
            count <= keys.len(),
            count <= len,
            keys@.to_set() == data@.dom(),
            keys@.no_duplicates(),
            keys@.len() == data@.dom().len(),
            codes@ == keys@.take(count as int),
            patterns@.len() == count,
            forall|i: int|
                0 <= i < count ==> data@.contains_key(#[trigger] codes@[i]) && patterns@[i]
                    == data@[codes@[i]].pattern(),
        decreases keys.len() - count,
    {
        let code = keys[count];
        assert(keys@.to_set().contains(code));
        let pattern: u32 = match data.get(&code) {
            Some(level) => level.to_bits(),
            None => 0,
        };
        codes.push(code);
        patterns.push(pattern);
        count += 1;
        assert(codes@ =~= keys@.take(count as int));
    }
    proof {
        assert(codes@.no_duplicates()) by {
            assert forall|i: int, j: int|
                0 <= i < codes@.len() && 0 <= j < codes@.len() && i != j implies codes@[i]
                != codes@[j] by {
                assert(codes@[i] == keys@[i]);
                assert(codes@[j] == keys@[j]);
            }
        }
        if data@.dom().len() <= len {
            assert(keys@.take(count as int) =~= keys@);
        }
    }
    (codes, patterns)
}

/// The devices that are handed out where there is room for `len`: the first
/// `len` of them, or all where there are no more.
pub fn cut_to_room(devices: Vec<DeviceInfo>, len: u32) -> (handed: Vec<DeviceInfo>)
    ensures
        handed@ == devices@.take(
            if len <= devices@.len() {
                len as int
            } else {
                devices@.len() as int
            },
        ),
{
    let mut devices = devices;
    let device_no: usize = if (len as usize) < devices.len() {
        len as usize
    } else {
        devices.len()
    };
    devices.truncate(device_no);
    devices
}

} // verus!
