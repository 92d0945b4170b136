//! Analog levels and the return channel they share with failures.
//!
//! A level says how far a key is pressed, from not at all to fully. It
//! travels as a single-precision number; a failure travels on the same channel
//! as the value of its kind, which is negative. This module works on the bit
//! pattern of that number: for the numbers that are not negative, the order of
//! the patterns is the order of the numbers.

use crate::result::{SDKResult, WootingAnalogResult};
use vstd::prelude::*;

verus! {

/// The pattern of positive infinity, the greatest pattern of a number that is
/// not negative.
pub const LEVEL_PATTERN_MAX: u32 = 0x7F80_0000;

/// The pattern of negative zero.
pub const NEGATIVE_ZERO_PATTERN: u32 = 0x8000_0000;

/// The pattern of `1.0`, a fully pressed key.
pub const FULL_PATTERN: u32 = 0x3F80_0000;

/// The pattern of `-1024.0`, the first of the binade in which the values of
/// all failure kinds lie.
pub const FAILURE_BINADE_PATTERN: u32 = 0xC480_0000;

/// The distance between the patterns of two neighbouring whole numbers in that
/// binade.
pub const WHOLE_STEP: u32 = 0x2000;

/// How far a key is pressed.
#[derive(Debug, Clone, Copy, PartialEq, Eq, Hash)]
pub struct Analog {
    bits: u32,
}

/// Whether `bits` is the pattern of a number that reads as a level: one that
/// is not below zero. Negative zero is such a number; nothing that is not a
/// number is.
pub open spec fn is_level_pattern(bits: u32) -> bool {
    bits <= LEVEL_PATTERN_MAX || bits == NEGATIVE_ZERO_PATTERN
}

/// The pattern under which a level is kept: negative zero is kept as zero.
pub open spec fn kept_pattern(bits: u32) -> u32 {
    if bits == NEGATIVE_ZERO_PATTERN {
        0
    } else {
        bits
    }
}

/// The pattern of the value of a failure kind, and of `1.0` for `OK`.
pub open spec fn kind_pattern(kind: WootingAnalogResult) -> u32 {
    if kind == WootingAnalogResult::OK {
        FULL_PATTERN
    } else {
        (FAILURE_BINADE_PATTERN + (-kind.value() - 1024) * WHOLE_STEP) as u32
    }
}

/// The whole number that the negative number with pattern `bits` gives when
/// everything behind the point is cut off, for a number with magnitude from
/// 1024 up to, not including, 2048.
pub open spec fn truncated(bits: u32) -> int
    recommends
        FAILURE_BINADE_PATTERN <= bits < FAILURE_BINADE_PATTERN + 1024 * WHOLE_STEP,
{
    -(1024 + (bits - FAILURE_BINADE_PATTERN) / (WHOLE_STEP as int))
}

/// The failure kind that the pattern of a number which is no level stands
/// for: the kind whose value the number is once cut to a whole number, and
/// `Failure` where there is no such kind.
pub open spec fn pattern_kind(bits: u32) -> WootingAnalogResult {
    if FAILURE_BINADE_PATTERN <= bits < FAILURE_BINADE_PATTERN + 1024 * WHOLE_STEP {
        WootingAnalogResult::of_error_value(truncated(bits))
    } else {
        WootingAnalogResult::Failure
    }
}

impl Analog {
    #[verifier::type_invariant]
    spec fn is_not_negative(self) -> bool {
        self.bits <= LEVEL_PATTERN_MAX
    }

    /// The pattern of the number that stands for this level.
    pub closed spec fn pattern(self) -> u32 {
        self.bits
    }

    /// The level whose pattern is `bits`.
    pub closed spec fn with_pattern(bits: u32) -> Analog {
        Analog { bits }
    }

    /// The greater of two levels.
    pub open spec fn higher(self, other: Analog) -> Analog {
        if self.pattern() >= other.pattern() {
            self
        } else {
            other
        }
    }

    /// A level is its pattern and nothing more.
    pub broadcast proof fn lemma_pattern_identifies(bits: u32)
        ensures
            #[trigger] Analog::with_pattern(bits).pattern() == bits,
    {
    }

    /// Two levels with the same pattern are the same level.
    pub broadcast proof fn lemma_level_of_its_pattern(level: Analog)
        ensures
            Analog::with_pattern(#[trigger] level.pattern()) == level,
    {
    }

    /// The level of a key that is not pressed.
    pub fn zero() -> (level: Analog)
        ensures
            level == Analog::with_pattern(0),
    {
        Analog { bits: 0 }
    }

    /// The level of a fully pressed key.
    pub fn full() -> (level: Analog)
        ensures
            level == Analog::with_pattern(FULL_PATTERN),
    {
        Analog { bits: FULL_PATTERN }
    }

    /// The level that the number with pattern `bits` stands for; `None`
    /// where the number is negative or `bits` is the pattern of no number.
    pub fn from_bits(bits: u32) -> (level: Option<Analog>)
        ensures
            level is Some <==> is_level_pattern(bits),
            level matches Some(l) ==> l == Analog::with_pattern(kept_pattern(bits)),
    {
        if bits <= LEVEL_PATTERN_MAX {
            Some(Analog { bits })
        } else if bits == NEGATIVE_ZERO_PATTERN {
            Some(Analog { bits: 0 })
        } else {
            None
        }
    }

    /// The pattern of the number that stands for this level.
    pub fn to_bits(&self) -> (bits: u32)
        ensures
            bits == self.pattern(),
            bits <= LEVEL_PATTERN_MAX,
    {
        proof {
            use_type_invariant(self);
        }
        self.bits
    }

    /// Whether the key is not pressed at all.
    pub fn is_zero(&self) -> (b: bool)
        ensures
            b == (self.pattern() == 0),
    {
        self.bits == 0
    }

    /// The greater of the two levels.
    pub fn max(self, other: Analog) -> (level: Analog)
        ensures
            level == self.higher(other),
    {
        if self.bits >= other.bits {
            self
        } else {
            other
        }
    }
}

/// What a number on the return channel stands for: a level, or else a
/// failure.
pub open spec fn analog_outcome(bits: u32) -> Result<Analog, WootingAnalogResult> {
    if is_level_pattern(bits) {
        Ok(Analog::with_pattern(kept_pattern(bits)))
    } else {
        Err(pattern_kind(bits))
    }
}

impl SDKResult<Analog> {
    /// Reads a number from the return channel, given as its pattern. A
    /// number that is not below zero is a level. Any other is a failure,
    /// the one whose value it is once cut to a whole number, and `Failure`
    /// where no kind has that value.
    pub fn from_bits(bits: u32) -> (result: SDKResult<Analog>)
        ensures
            result.0 == analog_outcome(bits),
    {
        match Analog::from_bits(bits) {
            Some(level) => SDKResult(Ok(level)),
            None => {
                if FAILURE_BINADE_PATTERN <= bits && bits < FAILURE_BINADE_PATTERN + 1024
                    * WHOLE_STEP {
                    let steps: u32 = (bits - FAILURE_BINADE_PATTERN) / WHOLE_STEP;
                    let n: i32 = -(1024 + steps as i32);
                    match WootingAnalogResult::from_i32(n) {
                        Some(kind) => SDKResult(Err(kind)),
                        None => SDKResult(Err(WootingAnalogResult::Failure)),
                    }
                } else {
                    SDKResult(Err(WootingAnalogResult::Failure))
                }
            },
        }
    }

    /// The pattern of the number that goes on the return channel for this
    /// outcome: the level, or the value of the failure's kind.
    pub fn into_bits(self) -> (bits: u32)
        ensures
            self.0 matches Ok(level) ==> bits == level.pattern(),
            self.0 matches Err(kind) ==> bits == kind_pattern(kind),
    {
        match self.0 {
            Ok(level) => level.to_bits(),
            Err(kind) => kind_to_bits(kind),
        }
    }
}

/// The pattern of the number that stands for a bare kind on the return
/// channel: its value, which for `OK` is `1.0`.
pub fn kind_to_bits(kind: WootingAnalogResult) -> (bits: u32)
    ensures
        bits == kind_pattern(kind),
{
    let n: i32 = kind.to_i32();
    if n >= 0 {
        FULL_PATTERN
    } else {
        let magnitude: u32 = (-n) as u32;
        FAILURE_BINADE_PATTERN + (magnitude - 1024) * WHOLE_STEP
    }
}

/// No failure kind has a value that reads as a level: what is written for a
/// failure is read back as that failure.
pub proof fn lemma_failures_are_no_levels(kind: WootingAnalogResult)
    requires
        kind != WootingAnalogResult::OK,
    ensures
        !is_level_pattern(kind_pattern(kind)),
        analog_outcome(kind_pattern(kind)) == Err::<Analog, WootingAnalogResult>(kind),
{
}

/// What is written for a level is read back as that level.
pub proof fn lemma_levels_survive_the_channel(level: Analog)
    requires
        level.pattern() <= LEVEL_PATTERN_MAX,
    ensures
        analog_outcome(level.pattern()) == Ok::<Analog, WootingAnalogResult>(level),
{
    Analog::lemma_level_of_its_pattern(level);
}

/// The greater of two levels is one of them and is not below either.
pub proof fn lemma_higher_is_an_upper_bound(a: Analog, b: Analog)
    ensures
        a.higher(b) == a || a.higher(b) == b,
        a.higher(b).pattern() >= a.pattern(),
        a.higher(b).pattern() >= b.pattern(),
{
}

} // verus!
