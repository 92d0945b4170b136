//! The decisions of the plugin loader.
//!
//! A plugin is a dynamic library. Opening the library and looking symbols up
//! in it is the business of whoever owns the loader; what is found is handed
//! in here, and what to do with it is decided here.

use crate::result::{SDKResult, WootingAnalogResult};
use vstd::prelude::*;
use vstd::string::StringSliceAdditionalSpecFns;

verus! {

/// The version of the plugin interface for plugins that hand over an object
/// with the capabilities.
pub const ANALOG_SDK_PLUGIN_ABI_VERSION: u32 = 1;

/// The version of the plugin interface for plugins that offer their
/// capabilities as plain functions.
pub const CPLUGIN_ABI_VERSION: u32 = 0;

/// The byte that parts the components of a version.
pub const DOT: u8 = 0x2E;

/// The host systems whose dynamic libraries are known.
#[derive(Debug, Clone, Copy, PartialEq, Eq, Hash, Structural)]
pub enum HostSystem {
    /// Linux.
    Linux,
    /// macOS.
    MacOs,
    /// Windows.
    Windows,
}

impl HostSystem {
    /// The suffix of the name of a dynamic library on this system.
    pub open spec fn extension(self) -> &'static str {
        match self {
            HostSystem::Linux => "so",
            HostSystem::MacOs => "dylib",
            HostSystem::Windows => "dll",
        }
    }

    /// The suffix of the name of a dynamic library on this system.
    pub fn library_extension(&self) -> (extension: &'static str)
        ensures
            extension == self.extension(),
    {
        match self {
            HostSystem::Linux => "so",
            HostSystem::MacOs => "dylib",
            HostSystem::Windows => "dll",
        }
    }

    /// The directory in which plugins are looked for unless another is
    /// given.
    pub fn default_plugin_dir(&self) -> (dir: &'static str)
        ensures
            dir@ == match self {
                HostSystem::Linux => "/usr/local/share/WootingAnalogPlugins"@,
                HostSystem::MacOs => "/usr/local/share/WootingAnalogPlugins"@,
                HostSystem::Windows => "C:\\Program Files\\WootingAnalogPlugins"@,
            },
    {
        match self {
            HostSystem::Linux => "/usr/local/share/WootingAnalogPlugins",
            HostSystem::MacOs => "/usr/local/share/WootingAnalogPlugins",
            HostSystem::Windows => "C:\\Program Files\\WootingAnalogPlugins",
        }
    }

    /// Whether a file with the given extension is a candidate for a plugin:
    /// its extension is that of a dynamic library on this system. A file
    /// without extension is none.
    pub fn is_plugin_file(&self, extension: Option<&str>) -> (b: bool)
        ensures
            b == (extension matches Some(e) && e.spec_bytes() == self.extension().spec_bytes()),
    {
        match extension {
            Some(e) => same_bytes(e.as_bytes(), self.library_extension().as_bytes()),
            None => false,
        }
    }
}

/// Whether two slices hold the same bytes.
pub fn same_bytes(a: &[u8], b: &[u8]) -> (same: bool)
    ensures
        same == (a@ == b@),
{
    if a.len() != b.len() {
        return false;
    }
    let mut i: usize = 0;
    while i < a.len()
        invariant
            i <= a.len(),
            a.len() == b.len(),
            a@.take(i as int) == b@.take(i as int),
        decreases a.len() - i,
    {
        if a[i] != b[i] {
            return false;
        }
        i += 1;
        assert(a@.take(i as int) =~= a@.take(i - 1).push(a@[i - 1]));
        assert(b@.take(i as int) =~= b@.take(i - 1).push(b@[i - 1]));
    }
    assert(a@.take(i as int) =~= a@);
    assert(b@.take(i as int) =~= b@);
    true
}

/// The length of the first component of a version: the place of the first
/// dot, or the length of the whole where there is no dot.
pub open spec fn major_len(version: Seq<u8>) -> int
    decreases version.len(),
{
    if version.len() == 0 || version[0] == DOT {
        0
    } else {
        1 + major_len(version.drop_first())
    }
}

/// The first component of a version.
pub open spec fn major_of(version: Seq<u8>) -> Seq<u8> {
    version.take(major_len(version))
}

/// The first component ends at the first dot: no byte of it is a dot, and
/// behind it comes a dot or nothing.
pub proof fn lemma_major_len(version: Seq<u8>)
    ensures
        0 <= major_len(version) <= version.len(),
        forall|j: int| 0 <= j < major_len(version) ==> version[j] != DOT,
        major_len(version) < version.len() ==> version[major_len(version)] == DOT,
    decreases version.len(),
{
    if version.len() > 0 && version[0] != DOT {
        let rest = version.drop_first();
        lemma_major_len(rest);
        assert forall|j: int| 0 <= j < major_len(version) implies version[j] != DOT by {
            if j > 0 {
                assert(version[j] == rest[j - 1]);
            }
        }
        if major_len(version) < version.len() {
            assert(version[major_len(version)] == rest[major_len(rest)]);
        }
    }
}

/// A place before which there is no dot, and at which there is one or the
/// version ends, is where the first component ends.
pub proof fn lemma_major_len_is(version: Seq<u8>, n: int)
    requires
        0 <= n <= version.len(),
        forall|j: int| 0 <= j < n ==> version[j] != DOT,
        n < version.len() ==> version[n] == DOT,
    ensures
        major_len(version) == n,
{
    lemma_major_len(version);
    if major_len(version) < n {
        assert(version[major_len(version)] == DOT);
    } else if major_len(version) > n {
        assert(version[n] != DOT);
    }
}

/// The length of the first component of `version`.
pub fn major_length(version: &[u8]) -> (n: usize)
    ensures
        n == major_len(version@),
        n <= version@.len(),
{
    let mut i: usize = 0;
    while i < version.len() && version[i] != DOT
        invariant
            i <= version.len(),
            forall|j: int| 0 <= j < i ==> version@[j] != DOT,
        decreases version.len() - i,
    {
        i += 1;
    }
    proof {
        lemma_major_len_is(version@, i as int);
    }
    i
}

/// Whether two versions have the same first component, byte for byte.
pub open spec fn majors_agree(a: Seq<u8>, b: Seq<u8>) -> bool {
    major_of(a) == major_of(b)
}

/// Whether a plugin of version `plugin` can be used by a loader of version
/// `sdk`: their first components are the same.
pub fn same_major(sdk: &str, plugin: &str) -> (same: bool)
    ensures
        same == majors_agree(sdk.spec_bytes(), plugin.spec_bytes()),
{
    let a = sdk.as_bytes();
    let b = plugin.as_bytes();
    let n = major_length(a);
    let m = major_length(b);
    if n != m {
        proof {
            assert(major_of(a@).len() != major_of(b@).len());
        }
        return false;
    }
    let mut i: usize = 0;
    while i < n
        invariant
            i <= n,
            n == m,
            n <= a@.len(),
            m <= b@.len(),
            n == major_len(a@),
            m == major_len(b@),
            a@ == sdk.spec_bytes(),
            b@ == plugin.spec_bytes(),
            a@.take(i as int) == b@.take(i as int),
        decreases n - i,
    {
        if a[i] != b[i] {
            proof {
                assert(major_of(a@)[i as int] != major_of(b@)[i as int]);
            }
            return false;
        }
        i += 1;
        assert(a@.take(i as int) =~= a@.take(i - 1).push(a@[i - 1]));
        assert(b@.take(i as int) =~= b@.take(i - 1).push(b@[i - 1]));
    }
    true
}

/// Whether every byte of `bytes` is a decimal digit.
pub open spec fn all_digits(bytes: Seq<u8>) -> bool {
    forall|j: int| 0 <= j < bytes.len() ==> 0x30 <= #[trigger] bytes[j] <= 0x39
}

/// The number that the decimal digits `digits` write.
pub open spec fn decimal_value(digits: Seq<u8>) -> nat
    decreases digits.len(),
{
    if digits.len() == 0 {
        0
    } else {
        decimal_value(digits.drop_last()) * 10 + (digits.last() - 0x30) as nat
    }
}

/// The number of the first component of a version: `None` where the
/// component is empty, holds anything but decimal digits, or writes a number
/// above `i32::MAX`.
pub open spec fn major_number(version: Seq<u8>) -> Option<i32> {
    let major = major_of(version);
    if major.len() > 0 && all_digits(major) && decimal_value(major) <= i32::MAX {
        Some(decimal_value(major) as i32)
    } else {
        None
    }
}

/// A number grows with every digit that is written behind it.
proof fn lemma_decimal_value_grows(digits: Seq<u8>, n: int)
    requires
        0 <= n <= digits.len(),
        all_digits(digits),
    ensures
        decimal_value(digits.take(n)) <= decimal_value(digits),
    decreases digits.len() - n,
{
    if n < digits.len() {
        let before = digits.drop_last();
        assert(all_digits(before)) by {
            assert forall|j: int| 0 <= j < before.len() implies 0x30 <= #[trigger] before[j]
                <= 0x39 by {
                assert(before[j] == digits[j]);
            }
        }
        assert(before.take(n) =~= digits.take(n));
        lemma_decimal_value_grows(before, n);
        assert(0x30 <= digits[digits.len() - 1] <= 0x39);
    } else {
        assert(digits.take(n) =~= digits);
    }
}

/// The number of the first component of `version`.
pub fn sdk_version_major(version: &str) -> (number: Option<i32>)
    ensures
        number == major_number(version.spec_bytes()),
{
    let bytes = version.as_bytes();
    let n = major_length(bytes);
    if n == 0 {
        return None;
    }
    let ghost major = major_of(bytes@);
    let mut value: i32 = 0;
    let mut i: usize = 0;
    while i < n
        invariant
            i <= n,
            0 < n <= bytes@.len(),
            n == major_len(bytes@),
            bytes@ == version.spec_bytes(),
            major == bytes@.take(n as int),
            all_digits(major.take(i as int)),
            value == decimal_value(major.take(i as int)),
        decreases n - i,
    {
        let byte = bytes[i];
        proof {
            assert(major.take(i + 1).drop_last() =~= major.take(i as int));
            assert(major.take(i + 1).last() == byte);
        }
        if byte < 0x30 || byte > 0x39 {
            proof {
                assert(major[i as int] == byte);
            }
            return None;
        }
        let digit: i32 = (byte - 0x30) as i32;
        if value > (i32::MAX - digit) / 10 {
            proof {
                if all_digits(major) {
                    lemma_decimal_value_grows(major, i + 1);
                }
            }
            return None;
        }
        value = value * 10 + digit;
        i += 1;
        proof {
            assert forall|j: int| 0 <= j < i implies 0x30 <= #[trigger] major.take(i as int)[j]
                <= 0x39 by {
                if j < i - 1 {
                    assert(major.take(i as int)[j] == major.take(i - 1)[j]);
                }
            }
        }
    }
    proof {
        assert(major.take(n as int) =~= major);
    }
    Some(value)
}

/// The two ways in which a plugin offers its capabilities.
#[derive(Debug, Clone, Copy, PartialEq, Eq, Hash, Structural)]
pub enum PluginFlavor {
    /// The library has a factory that hands over an object with the
    /// capabilities.
    Native,
    /// The library offers the capabilities as plain functions, which an
    /// adapter presents as such an object.
    Foreign,
}

/// Why a library that could be opened was not taken as a plugin.
#[derive(Debug, Clone, Copy, PartialEq, Eq, Hash, Structural)]
pub enum LoadError {
    /// The plugin tells a version whose first component is not the loader's.
    IncompatibleMajor,
    /// The library has a factory but tells no version.
    VersionUnknown,
    /// The plain functions are of another version of the interface.
    IncompatibleInterface,
    /// The library is no plugin of either flavor.
    NotAPlugin,
    /// The plugin has no function that tells its name.
    NameNotFound,
    /// The plugin failed to tell its name.
    NameFailed(WootingAnalogResult),
}

/// The flavor as which a library is loaded.
///
/// `plugin_version` is what the library tells as its version, if it tells
/// one, and `has_factory` says whether it has a factory. A version that is
/// told must agree with `sdk_version` in its first component. A library with
/// a factory is native, and then it must tell a version; one without is taken
/// for foreign.
pub open spec fn flavor_of(sdk_version: Seq<u8>, plugin_version: Option<Seq<u8>>, has_factory: bool) -> Result<
    PluginFlavor,
    LoadError,
> {
    match plugin_version {
        Some(version) => if !majors_agree(sdk_version, version) {
            Err(LoadError::IncompatibleMajor)
        } else if has_factory {
            Ok(PluginFlavor::Native)
        } else {
            Ok(PluginFlavor::Foreign)
        },
        None => if has_factory {
            Err(LoadError::VersionUnknown)
        } else {
            Ok(PluginFlavor::Foreign)
        },
    }
}

/// Decides the flavor as which a library is loaded.
pub fn choose_flavor(sdk_version: &str, plugin_version: Option<&str>, has_factory: bool) -> (flavor:
    Result<PluginFlavor, LoadError>)
    ensures
        flavor == flavor_of(
            sdk_version.spec_bytes(),
            match plugin_version {
                Some(version) => Some(version.spec_bytes()),
                None => None,
            },
            has_factory,
        ),
{
    let mut got_ver = false;
    if let Some(version) = plugin_version {
        got_ver = true;
        if !same_major(sdk_version, version) {
            return Err(LoadError::IncompatibleMajor);
        }
    }
    if has_factory {
        if !got_ver {
            return Err(LoadError::VersionUnknown);
        }
        Ok(PluginFlavor::Native)
    } else {
        Ok(PluginFlavor::Foreign)
    }
}

impl PluginFlavor {
    /// The version of the plugin interface that a plugin of this flavor
    /// speaks.
    pub open spec fn interface_version(self) -> u32 {
        match self {
            PluginFlavor::Native => ANALOG_SDK_PLUGIN_ABI_VERSION,
            PluginFlavor::Foreign => CPLUGIN_ABI_VERSION,
        }
    }

    /// The version of the plugin interface that a plugin of this flavor
    /// speaks.
    pub fn abi_version(&self) -> (version: u32)
        ensures
            version == self.interface_version(),
    {
        match self {
            PluginFlavor::Native => ANALOG_SDK_PLUGIN_ABI_VERSION,
            PluginFlavor::Foreign => CPLUGIN_ABI_VERSION,
        }
    }
}

/// Whether a library that tells `abi_version` as the version of its interface
/// can be used as a plugin of the given flavor: the version must be the one
/// that the flavor speaks. A library that tells none is taken to be of the
/// right version.
pub fn check_abi(flavor: PluginFlavor, abi_version: Option<u32>) -> (result: SDKResult<()>)
    ensures
        result.0 is Ok <==> (abi_version matches Some(v) ==> v == flavor.interface_version()),
        result.0 matches Err(kind) ==> kind == WootingAnalogResult::IncompatibleVersion,
{
    match abi_version {
        Some(v) => if v != flavor.abi_version() {
            SDKResult(Err(WootingAnalogResult::IncompatibleVersion))
        } else {
            SDKResult(Ok(()))
        },
        None => SDKResult(Ok(())),
    }
}

/// Whether a library of plain functions that tells `abi_version` as the
/// version of its interface can be adapted.
pub fn check_foreign_abi(abi_version: Option<u32>) -> (result: SDKResult<()>)
    ensures
        result.0 is Ok <==> (abi_version matches Some(v) ==> v == CPLUGIN_ABI_VERSION),
        result.0 matches Err(kind) ==> kind == WootingAnalogResult::IncompatibleVersion,
{
    check_abi(PluginFlavor::Foreign, abi_version)
}

/// What the failure to take a library into use means for the loader.
pub fn adapter_failure(kind: WootingAnalogResult) -> (error: LoadError)
    ensures
        error == if kind == WootingAnalogResult::IncompatibleVersion {
            LoadError::IncompatibleInterface
        } else {
            LoadError::NotAPlugin
        },
{
    match kind {
        WootingAnalogResult::IncompatibleVersion => LoadError::IncompatibleInterface,
        _ => LoadError::NotAPlugin,
    }
}

/// Whether a plugin that answered `name` when asked for its name is taken: it
/// is if it told one.
pub fn accept_name(name: &SDKResult<&'static str>) -> (verdict: Result<(), LoadError>)
    ensures
        name.0 is Ok ==> verdict is Ok,
        name.0 matches Err(kind) ==> verdict == Err::<(), LoadError>(
            if kind == WootingAnalogResult::FunctionNotFound {
                LoadError::NameNotFound
            } else {
                LoadError::NameFailed(kind)
            },
        ),
{
    match &name.0 {
        Ok(_) => Ok(()),
        Err(WootingAnalogResult::FunctionNotFound) => Err(LoadError::NameNotFound),
        Err(kind) => Err(LoadError::NameFailed(*kind)),
    }
}

} // verus!
