use wooting_analog_sdk::loader::{
    accept_name, adapter_failure, check_abi, check_foreign_abi, choose_flavor, major_length, same_bytes,
    same_major, sdk_version_major, HostSystem, LoadError, PluginFlavor, ANALOG_SDK_PLUGIN_ABI_VERSION,
    CPLUGIN_ABI_VERSION,
};
use wooting_analog_sdk::result::{SDKResult, WootingAnalogResult};

#[test]
fn library_extensions_by_host() {
    assert_eq!(HostSystem::Linux.library_extension(), "so");
    assert_eq!(HostSystem::MacOs.library_extension(), "dylib");
    assert_eq!(HostSystem::Windows.library_extension(), "dll");
}

#[test]
fn default_plugin_dirs_by_host() {
    assert_eq!(HostSystem::Linux.default_plugin_dir(), "/usr/local/share/WootingAnalogPlugins");
    assert_eq!(HostSystem::MacOs.default_plugin_dir(), "/usr/local/share/WootingAnalogPlugins");
    assert_eq!(HostSystem::Windows.default_plugin_dir(), "C:\\Program Files\\WootingAnalogPlugins");
}

#[test]
fn plugin_files_are_told_by_their_extension() {
    assert!(HostSystem::Linux.is_plugin_file(Some("so")));
    assert!(!HostSystem::Linux.is_plugin_file(Some("dll")));
    assert!(!HostSystem::Linux.is_plugin_file(Some("dylib")));
    assert!(!HostSystem::Linux.is_plugin_file(Some("SO")));
    assert!(!HostSystem::Linux.is_plugin_file(Some("so1")));
    assert!(!HostSystem::Linux.is_plugin_file(Some("s")));
    assert!(!HostSystem::Linux.is_plugin_file(Some("")));
    assert!(!HostSystem::Linux.is_plugin_file(None));
    assert!(HostSystem::MacOs.is_plugin_file(Some("dylib")));
    assert!(!HostSystem::MacOs.is_plugin_file(Some("so")));
    assert!(HostSystem::Windows.is_plugin_file(Some("dll")));
    assert!(!HostSystem::Windows.is_plugin_file(Some("so")));
}

#[test]
fn bytes_are_compared_one_by_one() {
    assert!(same_bytes(b"", b""));
    assert!(same_bytes(b"abc", b"abc"));
    assert!(!same_bytes(b"abc", b"abd"));
    assert!(!same_bytes(b"abc", b"ab"));
    assert!(!same_bytes(b"", b"a"));
}

#[test]
fn the_first_component_ends_at_the_first_dot() {
    assert_eq!(major_length(b"0.7.5"), 1);
    assert_eq!(major_length(b"12.0.1"), 2);
    assert_eq!(major_length(b"12"), 2);
    assert_eq!(major_length(b""), 0);
    assert_eq!(major_length(b".1"), 0);
    assert_eq!(major_length(b"1..2"), 1);
}

#[test]
fn versions_agree_in_their_first_component() {
    assert!(same_major("0.5.0", "0.4.1"));
    assert!(same_major("0.5.0", "0"));
    assert!(same_major("1.2.3", "1.9"));
    assert!(same_major("10.0.0", "10.1.0"));
    assert!(same_major("", ""));
    assert!(same_major("", ".5"));
    assert!(!same_major("0.5.0", "1.5.0"));
    assert!(!same_major("1.0.0", "10.0.0"));
    assert!(!same_major("10.0.0", "1.0.0"));
    assert!(!same_major("1.0.0", "01.0.0"));
    assert!(!same_major("1.0.0", ""));
    assert!(!same_major("1.0.0", "v1.0.0"));
}

#[test]
fn the_major_version_is_a_number() {
    assert_eq!(sdk_version_major("0.7.5"), Some(0));
    assert_eq!(sdk_version_major("1.0.0"), Some(1));
    assert_eq!(sdk_version_major("12.34.56"), Some(12));
    assert_eq!(sdk_version_major("007.1"), Some(7));
    assert_eq!(sdk_version_major("2147483647.0"), Some(i32::MAX));
    assert_eq!(sdk_version_major("2147483648.0"), None);
    assert_eq!(sdk_version_major("99999999999999999999.0"), None);
    assert_eq!(sdk_version_major(""), None);
    assert_eq!(sdk_version_major(".1"), None);
    assert_eq!(sdk_version_major("v1.0"), None);
    assert_eq!(sdk_version_major("1a.0"), None);
    assert_eq!(sdk_version_major("-1.0"), None);
    assert_eq!(sdk_version_major("3"), Some(3));
}

#[test]
fn a_library_with_factory_and_version_is_native() {
    assert_eq!(choose_flavor("0.5.0", Some("0.5.0"), true), Ok(PluginFlavor::Native));
    assert_eq!(choose_flavor("0.5.0", Some("0.1"), true), Ok(PluginFlavor::Native));
}

#[test]
fn a_library_without_factory_is_taken_for_foreign() {
    assert_eq!(choose_flavor("0.5.0", None, false), Ok(PluginFlavor::Foreign));
    assert_eq!(choose_flavor("0.5.0", Some("0.2.0"), false), Ok(PluginFlavor::Foreign));
}

#[test]
fn a_library_of_another_major_version_is_refused() {
    assert_eq!(choose_flavor("0.5.0", Some("1.5.0"), true), Err(LoadError::IncompatibleMajor));
    assert_eq!(choose_flavor("0.5.0", Some("1.5.0"), false), Err(LoadError::IncompatibleMajor));
    assert_eq!(choose_flavor("1.0.0", Some("0.9.9"), true), Err(LoadError::IncompatibleMajor));
}

#[test]
fn a_factory_without_version_is_refused() {
    assert_eq!(choose_flavor("0.5.0", None, true), Err(LoadError::VersionUnknown));
}

#[test]
fn the_interface_versions() {
    assert_eq!(ANALOG_SDK_PLUGIN_ABI_VERSION, 1);
    assert_eq!(CPLUGIN_ABI_VERSION, 0);
}

#[test]
fn a_foreign_library_of_another_interface_version_is_refused() {
    assert_eq!(check_foreign_abi(None).0, Ok(()));
    assert_eq!(check_foreign_abi(Some(0)).0, Ok(()));
    assert_eq!(check_foreign_abi(Some(1)).0, Err(WootingAnalogResult::IncompatibleVersion));
    assert_eq!(check_foreign_abi(Some(u32::MAX)).0, Err(WootingAnalogResult::IncompatibleVersion));
    assert_eq!(adapter_failure(WootingAnalogResult::IncompatibleVersion), LoadError::IncompatibleInterface);
    assert_eq!(adapter_failure(WootingAnalogResult::Failure), LoadError::NotAPlugin);
    assert_eq!(adapter_failure(WootingAnalogResult::FunctionNotFound), LoadError::NotAPlugin);
}

#[test]
fn every_flavor_speaks_its_own_interface_version() {
    assert_eq!(PluginFlavor::Native.abi_version(), 1);
    assert_eq!(PluginFlavor::Foreign.abi_version(), 0);
    assert_eq!(check_abi(PluginFlavor::Native, Some(1)).0, Ok(()));
    assert_eq!(check_abi(PluginFlavor::Native, None).0, Ok(()));
    assert_eq!(check_abi(PluginFlavor::Native, Some(0)).0, Err(WootingAnalogResult::IncompatibleVersion));
    assert_eq!(check_abi(PluginFlavor::Native, Some(2)).0, Err(WootingAnalogResult::IncompatibleVersion));
    assert_eq!(check_abi(PluginFlavor::Foreign, Some(0)).0, Ok(()));
    assert_eq!(check_abi(PluginFlavor::Foreign, None).0, Ok(()));
    assert_eq!(check_abi(PluginFlavor::Foreign, Some(1)).0, Err(WootingAnalogResult::IncompatibleVersion));
}

#[test]
fn a_plugin_is_taken_when_it_tells_its_name() {
    assert_eq!(accept_name(&SDKResult::ok("Wooting Official Plugin")), Ok(()));
    assert_eq!(accept_name(&SDKResult::ok("")), Ok(()));
    assert_eq!(
        accept_name(&SDKResult::err(WootingAnalogResult::FunctionNotFound)),
        Err(LoadError::NameNotFound)
    );
    assert_eq!(
        accept_name(&SDKResult::err(WootingAnalogResult::Failure)),
        Err(LoadError::NameFailed(WootingAnalogResult::Failure))
    );
    assert_eq!(
        accept_name(&SDKResult::default()),
        Err(LoadError::NameNotFound)
    );
}
