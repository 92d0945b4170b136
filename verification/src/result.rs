//! The closed set of result kinds and the integer return channel.
//!
//! Every kind has a stable signed value. Success values travel as
//! non-negative integers, failures as the (negative) value of their kind.

use vstd::prelude::*;

verus! {

/// Outcome kinds shared by the runtime and its plugins.
#[derive(Debug, Clone, Copy, PartialEq, Eq, Hash, Structural)]
pub enum WootingAnalogResult {
    /// Success of a call that returns nothing else.
    OK,
    /// The runtime has not been initialised.
    UnInitialized,
    /// No device matches the query.
    NoDevices,
    /// The targeted device is no longer present.
    DeviceDisconnected,
    /// Generic or unknown failure.
    Failure,
    /// A given parameter was invalid.
    InvalidArgument,
    /// The load phase produced no usable plugin.
    NoPlugins,
    /// A plugin lacks an expected entry point.
    FunctionNotFound,
    /// The keycode has no mapping in the current mode.
    NoMapping,
    /// The feature is unsupported on this platform.
    NotAvailable,
    /// Plugin interface or major version mismatch.
    IncompatibleVersion,
    /// Reserved for the layer that locates the runtime library.
    DLLNotFound,
}

impl WootingAnalogResult {
    /// The stable signed value of this kind.
    pub open spec fn value(self) -> int {
        match self {
            WootingAnalogResult::OK => 1,
            WootingAnalogResult::UnInitialized => -2000,
            WootingAnalogResult::NoDevices => -1999,
            WootingAnalogResult::DeviceDisconnected => -1998,
            WootingAnalogResult::Failure => -1997,
            WootingAnalogResult::InvalidArgument => -1996,
            WootingAnalogResult::NoPlugins => -1995,
            WootingAnalogResult::FunctionNotFound => -1994,
            WootingAnalogResult::NoMapping => -1993,
            WootingAnalogResult::NotAvailable => -1992,
            WootingAnalogResult::IncompatibleVersion => -1991,
            WootingAnalogResult::DLLNotFound => -1990,
        }
    }

    /// The kind whose value is `n`, if there is one.
    pub open spec fn with_value(n: int) -> Option<WootingAnalogResult> {
        if n == 1 {
            Some(WootingAnalogResult::OK)
        } else if n == -2000 {
            Some(WootingAnalogResult::UnInitialized)
        } else if n == -1999 {
            Some(WootingAnalogResult::NoDevices)
        } else if n == -1998 {
            Some(WootingAnalogResult::DeviceDisconnected)
        } else if n == -1997 {
            Some(WootingAnalogResult::Failure)
        } else if n == -1996 {
            Some(WootingAnalogResult::InvalidArgument)
        } else if n == -1995 {
            Some(WootingAnalogResult::NoPlugins)
        } else if n == -1994 {
            Some(WootingAnalogResult::FunctionNotFound)
        } else if n == -1993 {
            Some(WootingAnalogResult::NoMapping)
        } else if n == -1992 {
            Some(WootingAnalogResult::NotAvailable)
        } else if n == -1991 {
            Some(WootingAnalogResult::IncompatibleVersion)
        } else if n == -1990 {
            Some(WootingAnalogResult::DLLNotFound)
        } else {
            None
        }
    }

    /// The kind a negative return value stands for: the kind with that
    /// value, or `Failure` when no kind has it.
    pub open spec fn of_error_value(n: int) -> WootingAnalogResult {
        match Self::with_value(n) {
            Some(kind) => kind,
            None => WootingAnalogResult::Failure,
        }
    }

    /// The value of this kind as a C `int`.
    pub fn to_i32(&self) -> (n: i32)
        ensures
            n == self.value(),
    {
        match self {
            WootingAnalogResult::OK => 1,
            WootingAnalogResult::UnInitialized => -2000,
            WootingAnalogResult::NoDevices => -1999,
            WootingAnalogResult::DeviceDisconnected => -1998,
            WootingAnalogResult::Failure => -1997,
            WootingAnalogResult::InvalidArgument => -1996,
            WootingAnalogResult::NoPlugins => -1995,
            WootingAnalogResult::FunctionNotFound => -1994,
            WootingAnalogResult::NoMapping => -1993,
            WootingAnalogResult::NotAvailable => -1992,
            WootingAnalogResult::IncompatibleVersion => -1991,
            WootingAnalogResult::DLLNotFound => -1990,
        }
    }

    /// The kind whose value is `n`; `None` when no kind has that value.
    pub fn from_i32(n: i32) -> (kind: Option<WootingAnalogResult>)
        ensures
            kind == Self::with_value(n as int),
            kind matches Some(k) ==> k.value() == n,
            kind is None ==> forall|k: WootingAnalogResult| k.value() != n,
    {
        if n == 1 {
            Some(WootingAnalogResult::OK)
        } else if n < -2000 || n > -1990 {
            None
        } else if n == -2000 {
            Some(WootingAnalogResult::UnInitialized)
        } else if n == -1999 {
            Some(WootingAnalogResult::NoDevices)
        } else if n == -1998 {
            Some(WootingAnalogResult::DeviceDisconnected)
        } else if n == -1997 {
            Some(WootingAnalogResult::Failure)
        } else if n == -1996 {
            Some(WootingAnalogResult::InvalidArgument)
        } else if n == -1995 {
            Some(WootingAnalogResult::NoPlugins)
        } else if n == -1994 {
            Some(WootingAnalogResult::FunctionNotFound)
        } else if n == -1993 {
            Some(WootingAnalogResult::NoMapping)
        } else if n == -1992 {
            Some(WootingAnalogResult::NotAvailable)
        } else if n == -1991 {
            Some(WootingAnalogResult::IncompatibleVersion)
        } else {
            Some(WootingAnalogResult::DLLNotFound)
        }
    }

    /// What the kind says in words.
    pub open spec fn text(self) -> &'static str {
        match self {
            WootingAnalogResult::OK => "All OK",
            WootingAnalogResult::UnInitialized => "SDK has not been initialized",
            WootingAnalogResult::NoDevices => "No Devices are connected",
            WootingAnalogResult::DeviceDisconnected => "Device has been disconnected",
            WootingAnalogResult::Failure => "Generic Failure",
            WootingAnalogResult::InvalidArgument => "A given parameter was invalid",
            WootingAnalogResult::NoPlugins => "No Plugins were found",
            WootingAnalogResult::FunctionNotFound => "The specified function was not found in the library",
            WootingAnalogResult::NoMapping => "No Keycode mapping to HID was found for the given Keycode",
            WootingAnalogResult::NotAvailable => "Unavailable on this platform",
            WootingAnalogResult::IncompatibleVersion => "Incompatible SDK Version",
            WootingAnalogResult::DLLNotFound => "The Wooting Analog SDK could not be found on the system",
        }
    }

    /// What the kind says in words.
    pub fn message(&self) -> (words: &'static str)
        ensures
            words == self.text(),
    {
        match self {
            WootingAnalogResult::OK => "All OK",
            WootingAnalogResult::UnInitialized => "SDK has not been initialized",
            WootingAnalogResult::NoDevices => "No Devices are connected",
            WootingAnalogResult::DeviceDisconnected => "Device has been disconnected",
            WootingAnalogResult::Failure => "Generic Failure",
            WootingAnalogResult::InvalidArgument => "A given parameter was invalid",
            WootingAnalogResult::NoPlugins => "No Plugins were found",
            WootingAnalogResult::FunctionNotFound => "The specified function was not found in the library",
            WootingAnalogResult::NoMapping => "No Keycode mapping to HID was found for the given Keycode",
            WootingAnalogResult::NotAvailable => "Unavailable on this platform",
            WootingAnalogResult::IncompatibleVersion => "Incompatible SDK Version",
            WootingAnalogResult::DLLNotFound => "The Wooting Analog SDK could not be found on the system",
        }
    }

    /// Whether this is the success kind.
    pub fn is_ok(&self) -> (b: bool)
        ensures
            b == (*self == WootingAnalogResult::OK),
    {
        *self == WootingAnalogResult::OK
    }

    /// Whether this is success or the absence of devices.
    pub fn is_ok_or_no_device(&self) -> (b: bool)
        ensures
            b == (*self == WootingAnalogResult::OK || *self == WootingAnalogResult::NoDevices),
    {
        *self == WootingAnalogResult::OK || *self == WootingAnalogResult::NoDevices
    }
}

impl Default for WootingAnalogResult {
    /// `FunctionNotFound`, so that a dispatch path nobody filled in reads
    /// as a missing entry point.
    fn default() -> (kind: WootingAnalogResult)
        ensures
            kind == WootingAnalogResult::FunctionNotFound,
    {
        WootingAnalogResult::FunctionNotFound
    }
}

/// The outcome of a call: a value, or the kind of failure.
#[derive(Debug)]
pub struct SDKResult<T>(pub Result<T, WootingAnalogResult>);

impl<T> Default for SDKResult<T> {
    /// A failure of the default kind, `FunctionNotFound`.
    fn default() -> (result: SDKResult<T>)
        ensures
            result.0 == Err::<T, WootingAnalogResult>(WootingAnalogResult::FunctionNotFound),
    {
        SDKResult(Err(WootingAnalogResult::FunctionNotFound))
    }
}

impl<T> std::ops::Deref for SDKResult<T> {
    type Target = Result<T, WootingAnalogResult>;

    /// The plain `Result` inside.
    fn deref(&self) -> (result: &Result<T, WootingAnalogResult>)
        ensures
            *result == self.0,
    {
        &self.0
    }
}

impl<T> SDKResult<T> {
    /// Success with `value`.
    pub fn ok(value: T) -> (result: SDKResult<T>)
        ensures
            result.0 == Ok::<T, WootingAnalogResult>(value),
    {
        SDKResult(Ok(value))
    }

    /// Failure of the given kind.
    pub fn err(kind: WootingAnalogResult) -> (result: SDKResult<T>)
        ensures
            result.0 == Err::<T, WootingAnalogResult>(kind),
    {
        SDKResult(Err(kind))
    }

    /// Whether this is a success.
    pub fn is_ok(&self) -> (b: bool)
        ensures
            b == self.0 is Ok,
    {
        self.0.is_ok()
    }

    /// Whether this is a failure.
    pub fn is_err(&self) -> (b: bool)
        ensures
            b == self.0 is Err,
    {
        self.0.is_err()
    }

    /// The plain `Result` inside.
    pub fn into_result(self) -> (result: Result<T, WootingAnalogResult>)
        ensures
            result == self.0,
    {
        self.0
    }
}

/// What an `int` return value stands for when the success value is a signed
/// count.
pub open spec fn int_outcome(n: int) -> Result<i32, WootingAnalogResult> {
    if n >= 0 {
        Ok(n as i32)
    } else {
        Err(WootingAnalogResult::of_error_value(n))
    }
}

/// What an `int` return value stands for when the success value is an unsigned
/// count.
pub open spec fn count_outcome(n: int) -> Result<u32, WootingAnalogResult> {
    if n >= 0 {
        Ok(n as u32)
    } else {
        Err(WootingAnalogResult::of_error_value(n))
    }
}

/// An unsigned count read as a two's-complement `int` of the same width.
pub open spec fn as_signed(v: u32) -> int {
    if v <= i32::MAX {
        v as int
    } else {
        v - 0x1_0000_0000
    }
}

impl SDKResult<i32> {
    /// Reads an `int` return value: non-negative is the success value,
    /// negative the kind with that value, or `Failure` where no kind has it.
    pub fn from_int(n: i32) -> (result: SDKResult<i32>)
        ensures
            result.0 == int_outcome(n as int),
    {
        if n >= 0 {
            SDKResult(Ok(n))
        } else {
            match WootingAnalogResult::from_i32(n) {
                Some(kind) => SDKResult(Err(kind)),
                None => SDKResult(Err(WootingAnalogResult::Failure)),
            }
        }
    }

    /// The `int` return value for this outcome: the success value, or the
    /// value of the failure's kind.
    pub fn into_int(self) -> (n: i32)
        ensures
            self.0 matches Ok(v) ==> n == v,
            self.0 matches Err(kind) ==> n == kind.value(),
    {
        match self.0 {
            Ok(v) => v,
            Err(kind) => kind.to_i32(),
        }
    }
}

impl SDKResult<u32> {
    /// Reads an `int` return value as a count or a failure.
    pub fn from_int(n: i32) -> (result: SDKResult<u32>)
        ensures
            result.0 == count_outcome(n as int),
    {
        if n >= 0 {
            SDKResult(Ok(n as u32))
        } else {
            match WootingAnalogResult::from_i32(n) {
                Some(kind) => SDKResult(Err(kind)),
                None => SDKResult(Err(WootingAnalogResult::Failure)),
            }
        }
    }

    /// The `int` return value for this outcome. A count is handed over in
    /// two's complement, so one above `i32::MAX` comes out negative.
    pub fn into_int(self) -> (n: i32)
        ensures
            self.0 matches Ok(v) ==> n == as_signed(v),
            self.0 matches Err(kind) ==> n == kind.value(),
    {
        match self.0 {
            Ok(v) => {
                assert(v as i32 == as_signed(v)) by (bit_vector);
                #[verifier::truncate]
                (v as i32)
            },
            Err(kind) => kind.to_i32(),
        }
    }
}

impl SDKResult<()> {
    /// Reads a bare kind as an outcome: `OK` is success, every other kind the
    /// failure of that kind.
    pub fn from_kind(kind: WootingAnalogResult) -> (result: SDKResult<()>)
        ensures
            kind == WootingAnalogResult::OK ==> result.0 == Ok::<(), WootingAnalogResult>(()),
            kind != WootingAnalogResult::OK ==> result.0 == Err::<(), WootingAnalogResult>(kind),
    {
        if kind.is_ok() {
            SDKResult(Ok(()))
        } else {
            SDKResult(Err(kind))
        }
    }

    /// The bare kind for this outcome: `OK` for success, else the failure's
    /// kind.
    pub fn into_kind(self) -> (kind: WootingAnalogResult)
        ensures
            self.0 is Ok ==> kind == WootingAnalogResult::OK,
            self.0 matches Err(e) ==> kind == e,
    {
        match self.0 {
            Ok(_) => WootingAnalogResult::OK,
            Err(kind) => kind,
        }
    }
}

impl<T> From<Result<T, WootingAnalogResult>> for SDKResult<T> {
    fn from(result: Result<T, WootingAnalogResult>) -> (outcome: SDKResult<T>) {
        SDKResult(result)
    }
}

impl<T> vstd::std_specs::convert::FromSpecImpl<Result<T, WootingAnalogResult>> for SDKResult<T> {
    open spec fn obeys_from_spec() -> bool {
        true
    }

    open spec fn from_spec(result: Result<T, WootingAnalogResult>) -> SDKResult<T> {
        SDKResult(result)
    }
}

impl From<i32> for SDKResult<i32> {
    fn from(n: i32) -> (outcome: SDKResult<i32>) {
        SDKResult::<i32>::from_int(n)
    }
}

impl vstd::std_specs::convert::FromSpecImpl<i32> for SDKResult<i32> {
    open spec fn obeys_from_spec() -> bool {
        true
    }

    open spec fn from_spec(n: i32) -> SDKResult<i32> {
        SDKResult(int_outcome(n as int))
    }
}

impl From<i32> for SDKResult<u32> {
    fn from(n: i32) -> (outcome: SDKResult<u32>) {
        SDKResult::<u32>::from_int(n)
    }
}

impl vstd::std_specs::convert::FromSpecImpl<i32> for SDKResult<u32> {
    open spec fn obeys_from_spec() -> bool {
        true
    }

    open spec fn from_spec(n: i32) -> SDKResult<u32> {
        SDKResult(count_outcome(n as int))
    }
}

impl From<u32> for SDKResult<u32> {
    fn from(count: u32) -> (outcome: SDKResult<u32>) {
        SDKResult(Ok(count))
    }
}

impl vstd::std_specs::convert::FromSpecImpl<u32> for SDKResult<u32> {
    open spec fn obeys_from_spec() -> bool {
        true
    }

    open spec fn from_spec(count: u32) -> SDKResult<u32> {
        SDKResult(Ok(count))
    }
}

impl From<WootingAnalogResult> for SDKResult<()> {
    fn from(kind: WootingAnalogResult) -> (outcome: SDKResult<()>) {
        SDKResult::from_kind(kind)
    }
}

impl vstd::std_specs::convert::FromSpecImpl<WootingAnalogResult> for SDKResult<()> {
    open spec fn obeys_from_spec() -> bool {
        true
    }

    open spec fn from_spec(kind: WootingAnalogResult) -> SDKResult<()> {
        if kind == WootingAnalogResult::OK {
            SDKResult(Ok(()))
        } else {
            SDKResult(Err(kind))
        }
    }
}

impl From<WootingAnalogResult> for i32 {
    fn from(kind: WootingAnalogResult) -> (n: i32) {
        kind.to_i32()
    }
}

impl vstd::std_specs::convert::FromSpecImpl<WootingAnalogResult> for i32 {
    open spec fn obeys_from_spec() -> bool {
        true
    }

    open spec fn from_spec(kind: WootingAnalogResult) -> i32 {
        kind.value() as i32
    }
}

impl From<SDKResult<i32>> for i32 {
    fn from(outcome: SDKResult<i32>) -> (n: i32) {
        outcome.into_int()
    }
}

impl vstd::std_specs::convert::FromSpecImpl<SDKResult<i32>> for i32 {
    open spec fn obeys_from_spec() -> bool {
        true
    }

    open spec fn from_spec(outcome: SDKResult<i32>) -> i32 {
        match outcome.0 {
            Ok(v) => v,
            Err(kind) => kind.value() as i32,
        }
    }
}

impl From<SDKResult<u32>> for i32 {
    fn from(outcome: SDKResult<u32>) -> (n: i32) {
        outcome.into_int()
    }
}

impl vstd::std_specs::convert::FromSpecImpl<SDKResult<u32>> for i32 {
    open spec fn obeys_from_spec() -> bool {
        true
    }

    open spec fn from_spec(outcome: SDKResult<u32>) -> i32 {
        match outcome.0 {
            Ok(v) => as_signed(v) as i32,
            Err(kind) => kind.value() as i32,
        }
    }
}

impl From<SDKResult<()>> for WootingAnalogResult {
    fn from(outcome: SDKResult<()>) -> (kind: WootingAnalogResult) {
        outcome.into_kind()
    }
}

impl vstd::std_specs::convert::FromSpecImpl<SDKResult<()>> for WootingAnalogResult {
    open spec fn obeys_from_spec() -> bool {
        true
    }

    open spec fn from_spec(outcome: SDKResult<()>) -> WootingAnalogResult {
        match outcome.0 {
            Ok(_) => WootingAnalogResult::OK,
            Err(kind) => kind,
        }
    }
}

impl From<WootingAnalogResult> for bool {
    fn from(kind: WootingAnalogResult) -> (ok: bool) {
        kind.is_ok()
    }
}

impl vstd::std_specs::convert::FromSpecImpl<WootingAnalogResult> for bool {
    open spec fn obeys_from_spec() -> bool {
        true
    }

    open spec fn from_spec(kind: WootingAnalogResult) -> bool {
        kind == WootingAnalogResult::OK
    }
}

/// Every kind but `OK` has a negative value, so no failure can be taken for a
/// success value on the `int` channel.
pub proof fn lemma_error_values_are_negative(kind: WootingAnalogResult)
    requires
        kind != WootingAnalogResult::OK,
    ensures
        kind.value() < 0,
        WootingAnalogResult::of_error_value(kind.value()) == kind,
{
}

/// A signed outcome survives the `int` channel: what is read back from the
/// value that was written is the outcome itself.
pub proof fn lemma_int_channel_round_trip(outcome: Result<i32, WootingAnalogResult>)
    requires
        outcome matches Ok(v) ==> v >= 0,
        outcome matches Err(kind) ==> kind != WootingAnalogResult::OK,
    ensures
        outcome matches Ok(v) ==> int_outcome(v as int) == outcome,
        outcome matches Err(kind) ==> int_outcome(kind.value()) == outcome,
{
}

/// A count that fits a signed `int` survives the `int` channel.
pub proof fn lemma_count_channel_round_trip(outcome: Result<u32, WootingAnalogResult>)
    requires
        outcome matches Ok(v) ==> v <= i32::MAX,
        outcome matches Err(kind) ==> kind != WootingAnalogResult::OK,
    ensures
        outcome matches Ok(v) ==> count_outcome(as_signed(v)) == outcome,
        outcome matches Err(kind) ==> count_outcome(kind.value()) == outcome,
{
}

} // verus!
