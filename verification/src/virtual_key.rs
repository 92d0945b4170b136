//! Virtual-Key codes and their relation to Scan-Code Set 1.
//!
//! The mapping between the two belongs to the host's keyboard layer. This
//! module owns what is not left to the host: the fixed table that tells the
//! number-pad keys apart, and the rule by which the host's answer is read. The
//! query itself is made by the caller, who hands the answer in.

use crate::scancode::{bimap_get_by_left, bimap_get_by_right, bimap_insert, bimap_new, bimap_pairs};
use bimap::BiHashMap;
use vstd::prelude::*;

verus! {

/// The scan code that the number-pad key with virtual-key code `vk` is
/// pinned to.
pub open spec fn numpad_scancode(vk: u8) -> Option<u16> {
    match vk {
        0x60 => Some(0x0052),  // numpad0
        0x61 => Some(0x004f),  // numpad1
        0x62 => Some(0x0050),  // numpad2
        0x63 => Some(0x0051),  // numpad3
        0x64 => Some(0x004b),  // numpad4
        0x65 => Some(0x004c),  // numpad5
        0x66 => Some(0x004d),  // numpad6
        0x67 => Some(0x0047),  // numpad7
        0x68 => Some(0x0048),  // numpad8
        0x69 => Some(0x0049),  // numpad9
        0x6e => Some(0x0053),  // numpad decimal
        _ => None,
    }
}

/// The virtual-key code that the number-pad scan code `scancode` is pinned
/// to.
pub open spec fn numpad_virtual_key(scancode: u16) -> Option<u8> {
    match scancode {
        0x0047 => Some(0x67),  // numpad7
        0x0048 => Some(0x68),  // numpad8
        0x0049 => Some(0x69),  // numpad9
        0x004b => Some(0x64),  // numpad4
        0x004c => Some(0x65),  // numpad5
        0x004d => Some(0x66),  // numpad6
        0x004f => Some(0x61),  // numpad1
        0x0050 => Some(0x62),  // numpad2
        0x0051 => Some(0x63),  // numpad3
        0x0052 => Some(0x60),  // numpad0
        0x0053 => Some(0x6e),  // numpad decimal
        _ => None,
    }
}

/// The pairs of the number-pad table.
pub open spec fn numpad_pairs() -> Set<(u8, u16)> {
    Set::new(|p: (u8, u16)| numpad_scancode(p.0) == Some(p.1))
}

/// The number-pad table reads the same in both directions.
pub proof fn lemma_numpad_table_is_two_way(vk: u8, scancode: u16)
    ensures
        numpad_scancode(vk) == Some(scancode) <==> numpad_virtual_key(scancode) == Some(vk),
{
}

/// The scan code for virtual-key code `code`, given the host's answer.
///
/// `host` is `None` on a host without a virtual-key layer, and else the raw
/// value the host returned for `code`, where `0` means that it knows no
/// mapping. The number-pad table is consulted before the host's answer.
pub open spec fn virtual_key_scancode(code: u16, host: Option<u32>) -> Option<u16> {
    match host {
        None => None,
        Some(raw) => match numpad_scancode((code % 256) as u8) {
            Some(scancode) => Some(scancode),
            None => if raw == 0 {
                None
            } else {
                Some((raw % 0x1_0000) as u16)
            },
        },
    }
}

/// The virtual-key code for scan code `code`, given the host's answer; see
/// [`virtual_key_scancode`] for `host`.
pub open spec fn scancode_virtual_key(code: u16, host: Option<u32>) -> Option<u16> {
    match host {
        None => None,
        Some(raw) => match numpad_virtual_key(code) {
            Some(vk) => Some(vk as u16),
            None => if raw == 0 {
                None
            } else {
                Some((raw % 0x1_0000) as u16)
            },
        },
    }
}

/// The table that pins the number-pad keys.
pub struct NumpadOverrides {
    map: BiHashMap<u8, u16>,
}

impl View for NumpadOverrides {
    type V = Set<(u8, u16)>;

    closed spec fn view(&self) -> Set<(u8, u16)> {
        bimap_pairs(self.map)
    }
}

impl NumpadOverrides {
    #[verifier::type_invariant]
    spec fn holds_the_table(&self) -> bool {
        bimap_pairs(self.map) == numpad_pairs()
    }

    /// Builds the table.
    pub fn new() -> (table: NumpadOverrides)
        ensures
            table@ == numpad_pairs(),
    {
        let mut map = bimap_new();
        bimap_insert(&mut map, 0x60, 0x0052);  // numpad0
        bimap_insert(&mut map, 0x61, 0x004f);  // numpad1
        bimap_insert(&mut map, 0x62, 0x0050);  // numpad2
        bimap_insert(&mut map, 0x63, 0x0051);  // numpad3
        bimap_insert(&mut map, 0x64, 0x004b);  // numpad4
        bimap_insert(&mut map, 0x65, 0x004c);  // numpad5
        bimap_insert(&mut map, 0x66, 0x004d);  // numpad6
        bimap_insert(&mut map, 0x67, 0x0047);  // numpad7
        bimap_insert(&mut map, 0x68, 0x0048);  // numpad8
        bimap_insert(&mut map, 0x69, 0x0049);  // numpad9
        bimap_insert(&mut map, 0x6e, 0x0053);  // numpad decimal
        assert(bimap_pairs(map) =~= numpad_pairs());
        NumpadOverrides { map }
    }

    /// The scan code that virtual-key code `vk` is pinned to.
    pub fn scancode_of(&self, vk: u8) -> (scancode: Option<u16>)
        ensures
            scancode == numpad_scancode(vk),
    {
        proof {
            use_type_invariant(self);
        }
        let scancode = bimap_get_by_left(&self.map, vk);
        proof {
            if let Some(s) = numpad_scancode(vk) {
                assert(numpad_pairs().contains((vk, s)));
            }
        }
        scancode
    }

    /// The virtual-key code that scan code `scancode` is pinned to.
    pub fn virtual_key_of(&self, scancode: u16) -> (vk: Option<u8>)
        ensures
            vk == numpad_virtual_key(scancode),
    {
        proof {
            use_type_invariant(self);
        }
        let vk = bimap_get_by_right(&self.map, scancode);
        proof {
            match vk {
                Some(v) => {
                    lemma_numpad_table_is_two_way(v, scancode);
                },
                None => {
                    if let Some(v) = numpad_virtual_key(scancode) {
                        lemma_numpad_table_is_two_way(v, scancode);
                        assert(numpad_pairs().contains((v, scancode)));
                    }
                },
            }
        }
        vk
    }
}

/// Translates a virtual-key code to a scan code.
///
/// `host` carries what the host's keyboard layer answered for `code`: `None`
/// where the host has no such layer, else its raw value, `0` standing for "no
/// mapping". Without a layer there is no translation at all.
pub fn vk_to_scancode(code: u16, host: Option<u32>) -> (scancode: Option<u16>)
    ensures
        scancode == virtual_key_scancode(code, host),
{
    match host {
        None => None,
        Some(raw) => {
            assert(code & 0xFF == code % 256) by (bit_vector);
            assert(raw & 0xFFFF == raw % 0x1_0000) by (bit_vector);
            match NumpadOverrides::new().scancode_of((code & 0xFF) as u8) {
                Some(scancode) => Some(scancode),
                None => if raw == 0 {
                    None
                } else {
                    Some((raw & 0xFFFF) as u16)
                },
            }
        },
    }
}

/// Translates a scan code to a virtual-key code; `host` as in
/// [`vk_to_scancode`], here the answer for the scan code.
pub fn scancode_to_vk(code: u16, host: Option<u32>) -> (vk: Option<u16>)
    ensures
        vk == scancode_virtual_key(code, host),
{
    match host {
        None => None,
        Some(raw) => {
            assert(raw & 0xFFFF == raw % 0x1_0000) by (bit_vector);
            match NumpadOverrides::new().virtual_key_of(code) {
                Some(vk) => Some(vk as u16),
                None => if raw == 0 {
                    None
                } else {
                    Some((raw & 0xFFFF) as u16)
                },
            }
        },
    }
}

} // verus!
