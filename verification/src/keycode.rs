//! Translation between the keycode namespaces.
//!
//! A consumer names keys in the namespace it selected; plugins always speak HID
//! usage codes. Codes from `0x200` on that do not carry the `0xE0` prefix are
//! reserved for custom keys and mean the same key in every namespace.

use crate::scancode::{
    hid_scancode, lemma_scancode_table_is_two_way, lemma_scancodes_are_plain_or_extended,
    scancode_hid, ScancodeMap,
};
use crate::virtual_key::{scancode_to_vk, scancode_virtual_key, virtual_key_scancode, vk_to_scancode};
use vstd::prelude::*;

verus! {

/// The namespace in which a consumer names keys.
#[derive(Debug, Clone, Copy, PartialEq, Eq, Hash, Structural)]
pub enum KeycodeType {
    /// USB HID usage codes of the keyboard page.
    HID,
    /// Scan-Code Set 1.
    ScanCode1,
    /// Virtual-Key codes, read by the layout-independent mapping.
    VirtualKey,
    /// Virtual-Key codes, read by the layout of the window in front.
    VirtualKeyTranslate,
}

impl KeycodeType {
    /// The number by which the namespace is selected.
    pub open spec fn value(self) -> int {
        match self {
            KeycodeType::HID => 0,
            KeycodeType::ScanCode1 => 1,
            KeycodeType::VirtualKey => 2,
            KeycodeType::VirtualKeyTranslate => 3,
        }
    }

    /// Whether the namespace is one of the two that need the host's
    /// virtual-key layer.
    pub open spec fn is_virtual_key(self) -> bool {
        self == KeycodeType::VirtualKey || self == KeycodeType::VirtualKeyTranslate
    }

    /// The namespace selected by `n`; `None` where `n` selects none.
    pub fn from_u32(n: u32) -> (mode: Option<KeycodeType>)
        ensures
            mode matches Some(m) ==> m.value() == n,
            mode is None <==> n > 3,
    {
        if n == 0 {
            Some(KeycodeType::HID)
        } else if n == 1 {
            Some(KeycodeType::ScanCode1)
        } else if n == 2 {
            Some(KeycodeType::VirtualKey)
        } else if n == 3 {
            Some(KeycodeType::VirtualKeyTranslate)
        } else {
            None
        }
    }

    /// The number by which this namespace is selected.
    pub fn to_u32(&self) -> (n: u32)
        ensures
            n == self.value(),
    {
        match self {
            KeycodeType::HID => 0,
            KeycodeType::ScanCode1 => 1,
            KeycodeType::VirtualKey => 2,
            KeycodeType::VirtualKeyTranslate => 3,
        }
    }

    /// Whether `host` is needed to translate in this namespace.
    pub fn needs_host(&self) -> (b: bool)
        ensures
            b == self.is_virtual_key(),
    {
        match self {
            KeycodeType::VirtualKey | KeycodeType::VirtualKeyTranslate => true,
            _ => false,
        }
    }
}

/// The high byte of a code.
pub open spec fn prefix_of(code: u16) -> int {
    code as int / 256
}

/// Whether `code` lies in the range reserved for custom keys.
pub open spec fn is_custom_code(code: u16) -> bool {
    code >= 0x200 && prefix_of(code) != 0xE0
}

/// Whether `code` carries one of the two prefixes that mark an extended scan
/// code.
pub open spec fn has_scancode_prefix(code: u16) -> bool {
    prefix_of(code) == 0x01 || prefix_of(code) == 0xE0
}

/// A scan code with the prefix `0x01` rewritten to `0xE0`, the form in which
/// the table holds the extended codes.
pub open spec fn extended_form(code: u16) -> u16 {
    if prefix_of(code) == 0x01 {
        (0xE000 + code % 256) as u16
    } else {
        code
    }
}

/// The scan code of HID usage code `code`; only the low byte of `code` counts.
pub open spec fn scancode_of_hid(code: u16) -> Option<u16> {
    hid_scancode((code % 256) as u8)
}

/// The HID usage code of scan code `code`.
pub open spec fn hid_of_scancode(code: u16) -> Option<u16> {
    match scancode_hid(extended_form(code)) {
        Some(hid) => Some(hid as u16),
        None => None,
    }
}

/// The HID usage code that `code` names in namespace `mode`.
///
/// `host` is the answer of the host's keyboard layer for `code`, as
/// [`virtual_key_scancode`] takes it; it is only read in the two virtual-key
/// namespaces.
pub open spec fn code_hid(code: u16, mode: KeycodeType, host: Option<u32>) -> Option<u16> {
    if is_custom_code(code) {
        Some(code)
    } else if mode == KeycodeType::ScanCode1 {
        hid_of_scancode(code)
    } else if has_scancode_prefix(code) {
        None
    } else if mode == KeycodeType::HID {
        Some(code)
    } else {
        match virtual_key_scancode(code, host) {
            Some(scancode) => hid_of_scancode(scancode),
            None => None,
        }
    }
}

/// The code that names the key with HID usage code `code` in namespace `mode`.
///
/// `host` is the answer of the host's keyboard layer for the scan code of the
/// key, as [`scancode_virtual_key`] takes it; it is only read in the two
/// virtual-key namespaces.
pub open spec fn hid_code(code: u16, mode: KeycodeType, host: Option<u32>) -> Option<u16> {
    if is_custom_code(code) {
        Some(code)
    } else if has_scancode_prefix(code) {
        None
    } else if mode == KeycodeType::HID {
        Some(code)
    } else if mode == KeycodeType::ScanCode1 {
        scancode_of_hid(code)
    } else {
        match scancode_of_hid(code) {
            Some(scancode) => scancode_virtual_key(scancode, host),
            None => None,
        }
    }
}

impl ScancodeMap {
    /// The scan code of HID usage code `code`; only the low byte of `code`
    /// counts.
    pub fn hid_to_scancode(&self, code: u16) -> (scancode: Option<u16>)
        ensures
            scancode == scancode_of_hid(code),
    {
        assert(code & 0xFF == code % 256) by (bit_vector);
        self.scancode_of((code & 0xFF) as u8)
    }

    /// The HID usage code of scan code `code`. The prefix `0x01` is read as
    /// `0xE0`.
    pub fn scancode_to_hid(&self, code: u16) -> (hid: Option<u16>)
        ensures
            hid == hid_of_scancode(code),
    {
        assert((code & 0xFF00) == 0x100 <==> code / 256 == 1) by (bit_vector);
        assert(0xE000u16 | (code & 0xFF) == 0xE000 + code % 256) by (bit_vector);
        let extended: u16 = if (code & 0xFF00) == 0x100 {
            0xE000 | (code & 0xFF)
        } else {
            code
        };
        match self.hid_of(extended) {
            Some(hid) => Some(hid as u16),
            None => None,
        }
    }

    /// The HID usage code that `code` names in namespace `mode`, with the
    /// host's answer for `code` in `host`.
    pub fn code_to_hid(&self, code: u16, mode: &KeycodeType, host: Option<u32>) -> (hid: Option<u16>)
        ensures
            hid == code_hid(code, *mode, host),
    {
        code_to_hid_in(Some(self), code, mode, host)
    }

    /// The code that names the key with HID usage code `code` in namespace
    /// `mode`, with the host's answer for the key's scan code in `host`.
    pub fn hid_to_code(&self, code: u16, mode: &KeycodeType, host: Option<u32>) -> (out: Option<u16>)
        ensures
            out == hid_code(code, *mode, host),
    {
        hid_to_code_in(Some(self), code, mode, host)
    }
}

/// Looks a HID usage code up in `table`, or in a table built for the
/// occasion.
fn hid_to_scancode_in(table: Option<&ScancodeMap>, code: u16) -> (scancode: Option<u16>)
    ensures
        scancode == scancode_of_hid(code),
{
    match table {
        Some(table) => table.hid_to_scancode(code),
        None => ScancodeMap::new().hid_to_scancode(code),
    }
}

/// Looks a scan code up in `table`, or in a table built for the occasion.
fn scancode_to_hid_in(table: Option<&ScancodeMap>, code: u16) -> (hid: Option<u16>)
    ensures
        hid == hid_of_scancode(code),
{
    match table {
        Some(table) => table.scancode_to_hid(code),
        None => ScancodeMap::new().scancode_to_hid(code),
    }
}

/// Translates towards HID usage codes; the table is only touched where the
/// namespace needs it.
fn code_to_hid_in(table: Option<&ScancodeMap>, code: u16, mode: &KeycodeType, host: Option<u32>) -> (hid:
    Option<u16>)
    ensures
        hid == code_hid(code, *mode, host),
{
    assert((code & 0xFF00) >> 8 == code / 256) by (bit_vector);
    let prefix: u16 = (code & 0xFF00) >> 8;
    //A custom key is returned as it is, unless it carries the escape prefix of the scan codes
    if code >= 0x200 && prefix != 0xE0 {
        return Some(code);
    }
    match mode {
        KeycodeType::ScanCode1 => scancode_to_hid_in(table, code),
        _ if prefix != 0 => None,
        KeycodeType::HID => Some(code),
        _ => match vk_to_scancode(code, host) {
            Some(scancode) => scancode_to_hid_in(table, scancode),
            None => None,
        },
    }
}

/// Translates away from HID usage codes; the table is only touched where
/// the namespace needs it.
fn hid_to_code_in(table: Option<&ScancodeMap>, code: u16, mode: &KeycodeType, host: Option<u32>) -> (out:
    Option<u16>)
    ensures
        out == hid_code(code, *mode, host),
{
    assert((code & 0xFF00) >> 8 == code / 256) by (bit_vector);
    let prefix: u16 = (code & 0xFF00) >> 8;
    if code >= 0x200 && prefix != 0xE0 {
        return Some(code);
    } else if prefix != 0 {
        return None;
    }
    match mode {
        KeycodeType::HID => Some(code),
        KeycodeType::ScanCode1 => hid_to_scancode_in(table, code),
        _ => match hid_to_scancode_in(table, code) {
            Some(scancode) => scancode_to_vk(scancode, host),
            None => None,
        },
    }
}

/// The scan code of HID usage code `code`; only the low byte of `code` counts.
pub fn hid_to_scancode(code: u16) -> (scancode: Option<u16>)
    ensures
        scancode == scancode_of_hid(code),
{
    hid_to_scancode_in(None, code)
}

/// The HID usage code of scan code `code`. The prefix `0x01` is read as `0xE0`.
pub fn scancode_to_hid(code: u16) -> (hid: Option<u16>)
    ensures
        hid == hid_of_scancode(code),
{
    scancode_to_hid_in(None, code)
}

/// The HID usage code that `code` names in namespace `mode`, on a host without
/// a virtual-key layer.
///
/// A custom code is returned as it is. A code with the prefix `0x01` or `0xE0`
/// names a key only as a scan code. With no virtual-key layer the two
/// virtual-key namespaces name no key.
pub fn code_to_hid(code: u16, mode: &KeycodeType) -> (hid: Option<u16>)
    ensures
        hid == code_hid(code, *mode, None),
{
    code_to_hid_in(None, code, mode, None)
}

/// The HID usage code that `code` names in namespace `mode`, where the host's
/// keyboard layer answered `host` for `code`.
pub fn code_to_hid_on_host(code: u16, mode: &KeycodeType, host: Option<u32>) -> (hid: Option<u16>)
    ensures
        hid == code_hid(code, *mode, host),
{
    code_to_hid_in(None, code, mode, host)
}

/// The code that names the key with HID usage code `code` in namespace `mode`,
/// on a host without a virtual-key layer.
///
/// A custom code is returned as it is. No HID usage code carries the prefix
/// `0x01` or `0xE0`.
pub fn hid_to_code(code: u16, mode: &KeycodeType) -> (out: Option<u16>)
    ensures
        out == hid_code(code, *mode, None),
{
    hid_to_code_in(None, code, mode, None)
}

/// The code that names the key with HID usage code `code` in namespace `mode`,
/// where the host's keyboard layer answered `host` for the key's scan code.
pub fn hid_to_code_on_host(code: u16, mode: &KeycodeType, host: Option<u32>) -> (out: Option<u16>)
    ensures
        out == hid_code(code, *mode, host),
{
    hid_to_code_in(None, code, mode, host)
}

/// A custom code names the same key in every namespace, in both directions and
/// whatever the host answers.
pub proof fn lemma_custom_codes_pass_through(code: u16, mode: KeycodeType, host: Option<u32>)
    requires
        code >= 0x200,
        code / 256 != 0xE0,
    ensures
        code_hid(code, mode, host) == Some(code),
        hid_code(code, mode, host) == Some(code),
{
}

/// Outside Scan-Code Set 1, a code with the prefix `0x01` or `0xE0` names no
/// key, in either direction and whatever the host answers.
pub proof fn lemma_prefixed_codes_name_no_key(code: u16, mode: KeycodeType, host: Option<u32>)
    requires
        mode != KeycodeType::ScanCode1,
        code / 256 == 0x01 || code / 256 == 0xE0,
    ensures
        code_hid(code, mode, host) is None,
        hid_code(code, mode, host) is None,
{
}

/// Going from a scan code to its HID usage code and back gives the scan code
/// again, for every scan code that is not written with the prefix `0x01`: that
/// spelling comes back in its `0xE0` form.
pub proof fn lemma_scancode_round_trip(code: u16, hid: u16)
    requires
        code / 256 != 0x01,
        hid_of_scancode(code) == Some(hid),
    ensures
        scancode_of_hid(hid) == Some(code),
{
    let h = scancode_hid(code)->0;
    lemma_scancode_table_is_two_way(h, code);
    assert(hid == h as u16);
    assert((hid % 256) as u8 == h);
}

/// A scan code in its `0x01` spelling comes back from the round trip in the
/// `0xE0` spelling of the same key.
pub proof fn lemma_scancode_round_trip_extended(code: u16, hid: u16)
    requires
        hid_of_scancode(code) == Some(hid),
    ensures
        scancode_of_hid(hid) == Some(extended_form(code)),
{
    let h = scancode_hid(extended_form(code))->0;
    lemma_scancode_table_is_two_way(h, extended_form(code));
    assert((hid % 256) as u8 == h);
}

/// Going from a HID usage code below `0x100` to its scan code and back gives
/// the HID usage code again.
pub proof fn lemma_hid_round_trip(hid: u16, code: u16)
    requires
        hid < 0x100,
        scancode_of_hid(hid) == Some(code),
    ensures
        hid_of_scancode(code) == Some(hid),
{
    let h = (hid % 256) as u8;
    lemma_scancode_table_is_two_way(h, code);
    lemma_no_scancode_is_spelled_with_01(h);
}

/// No scan code in the table carries the prefix `0x01`.
proof fn lemma_no_scancode_is_spelled_with_01(hid: u8)
    ensures
        hid_scancode(hid) matches Some(code) ==> code / 256 != 0x01,
{
    lemma_scancodes_are_plain_or_extended(hid);
}

/// In Scan-Code Set 1, a scan code without prefix that names a key is the
/// code under which that key is named again.
pub proof fn lemma_scancode_names_its_key(code: u16, hid: u16)
    requires
        code / 256 == 0,
        code_hid(code, KeycodeType::ScanCode1, None) == Some(hid),
    ensures
        hid_code(hid, KeycodeType::ScanCode1, None) == Some(code),
{
    lemma_scancode_round_trip(code, hid);
    assert(hid < 0x100);
}

/// A code and the HID usage code it translates to name the same key: read as a
/// HID usage code, the translation stands for itself.
pub proof fn lemma_translation_is_a_hid_code(code: u16, mode: KeycodeType, host: Option<u32>, hid: u16)
    requires
        code_hid(code, mode, host) == Some(hid),
    ensures
        code_hid(hid, KeycodeType::HID, None) == Some(hid),
{
}

} // verus!
