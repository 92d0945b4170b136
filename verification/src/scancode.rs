//! The table between HID usage codes and Scan-Code Set 1, held in a two-way
//! map.
//!
//! A scan code is a single 16-bit value; the extended codes, which the
//! keyboard sends behind an `0xE0` prefix byte, are written `0xE0xx`.

use bimap::BiHashMap;
use vstd::prelude::*;

verus! {

/// `bimap::BiHashMap`, the two-way map that the tables are kept in. Nothing
/// is known of what is inside a map but through [`bimap_pairs`].
#[verifier::external_type_specification]
#[verifier::external_body]
#[verifier::reject_recursive_types(L)]
#[verifier::reject_recursive_types(R)]
#[verifier::reject_recursive_types(LS)]
#[verifier::reject_recursive_types(RS)]
pub struct ExBiHashMap<L, R, LS, RS>(BiHashMap<L, R, LS, RS>);

/// The left-right pairs that a two-way map holds.
pub uninterp spec fn bimap_pairs(m: BiHashMap<u8, u16>) -> Set<(u8, u16)>;

/// What a set of pairs becomes when `(left, right)` is put in: every pair
/// that shares its left or its right value gives way.
pub open spec fn pairs_with(pairs: Set<(u8, u16)>, left: u8, right: u16) -> Set<(u8, u16)> {
    Set::new(
        |p: (u8, u16)| p == (left, right) || (pairs.contains(p) && p.0 != left && p.1 != right),
    )
}

/// `BiHashMap::new`, which makes a map that holds no pair.
#[verifier::external_body]
pub(crate) fn bimap_new() -> (m: BiHashMap<u8, u16>)
    ensures
        bimap_pairs(m) == Set::<(u8, u16)>::empty(),
{
    BiHashMap::new()
}

/// `BiHashMap::insert`, which puts the pair in; the pair that `left` was in
/// and the pair that `right` was in leave the map.
#[verifier::external_body]
pub(crate) fn bimap_insert(m: &mut BiHashMap<u8, u16>, left: u8, right: u16)
    ensures
        bimap_pairs(*final(m)) == pairs_with(bimap_pairs(*old(m)), left, right),
{
    m.insert(left, right);
}

/// `BiHashMap::get_by_left`, which gives the right value that `left` is
/// paired with, and `None` where `left` is in no pair.
#[verifier::external_body]
pub(crate) fn bimap_get_by_left(m: &BiHashMap<u8, u16>, left: u8) -> (right: Option<u16>)
    ensures
        right matches Some(r) ==> bimap_pairs(*m).contains((left, r)),
        right is None ==> forall|r: u16| !bimap_pairs(*m).contains((left, r)),
{
    m.get_by_left(&left).copied()
}

/// `BiHashMap::get_by_right`, which gives the left value that `right` is
/// paired with, and `None` where `right` is in no pair.
#[verifier::external_body]
pub(crate) fn bimap_get_by_right(m: &BiHashMap<u8, u16>, right: u16) -> (left: Option<u8>)
    ensures
        left matches Some(l) ==> bimap_pairs(*m).contains((l, right)),
        left is None ==> forall|l: u8| !bimap_pairs(*m).contains((l, right)),
{
    m.get_by_right(&right).copied()
}

/// The scan code of the key with HID usage code `hid`.
#[verifier::opaque]
pub open spec fn hid_scancode(hid: u8) -> Option<u16> {
    match hid {
        0x04 => Some(0x001e),  // us a
        0x05 => Some(0x0030),  // us b
        0x06 => Some(0x002e),  // us c
        0x07 => Some(0x0020),  // us d
        0x08 => Some(0x0012),  // us e
        0x09 => Some(0x0021),  // us f
        0x0a => Some(0x0022),  // us g
        0x0b => Some(0x0023),  // us h
        0x0c => Some(0x0017),  // us i
        0x0d => Some(0x0024),  // us j
        0x0e => Some(0x0025),  // us k
        0x0f => Some(0x0026),  // us l
        0x10 => Some(0x0032),  // us m
        0x11 => Some(0x0031),  // us n
        0x12 => Some(0x0018),  // us o
        0x13 => Some(0x0019),  // us p
        0x14 => Some(0x0010),  // us q
        0x15 => Some(0x0013),  // us r
        0x16 => Some(0x001f),  // us s
        0x17 => Some(0x0014),  // us t
        0x18 => Some(0x0016),  // us u
        0x19 => Some(0x002f),  // us v
        0x1a => Some(0x0011),  // us w
        0x1b => Some(0x002d),  // us x
        0x1c => Some(0x0015),  // us y
        0x1d => Some(0x002c),  // us z
        0x1e => Some(0x0002),  // digit1
        0x1f => Some(0x0003),  // digit2
        0x20 => Some(0x0004),  // digit3
        0x21 => Some(0x0005),  // digit4
        0x22 => Some(0x0006),  // digit5
        0x23 => Some(0x0007),  // digit6
        0x24 => Some(0x0008),  // digit7
        0x25 => Some(0x0009),  // digit8
        0x26 => Some(0x000a),  // digit9
        0x27 => Some(0x000b),  // digit0
        0x28 => Some(0x001c),  // enter
        0x29 => Some(0x0001),  // escape
        0x2a => Some(0x000e),  // backspace
        0x2b => Some(0x000f),  // tab
        0x2c => Some(0x0039),  // space
        0x2d => Some(0x000c),  // minus
        0x2e => Some(0x000d),  // equal
        0x2f => Some(0x001a),  // bracket left
        0x30 => Some(0x001b),  // bracket right
        0x31 => Some(0x002b),  // backslash
        0x33 => Some(0x0027),  // semicolon
        0x34 => Some(0x0028),  // quote
        0x35 => Some(0x0029),  // backquote
        0x36 => Some(0x0033),  // comma
        0x37 => Some(0x0034),  // period
        0x38 => Some(0x0035),  // slash
        0x39 => Some(0x003a),  // caps lock
        0x3a => Some(0x003b),  // f1
        0x3b => Some(0x003c),  // f2
        0x3c => Some(0x003d),  // f3
        0x3d => Some(0x003e),  // f4
        0x3e => Some(0x003f),  // f5
        0x3f => Some(0x0040),  // f6
        0x40 => Some(0x0041),  // f7
        0x41 => Some(0x0042),  // f8
        0x42 => Some(0x0043),  // f9
        0x43 => Some(0x0044),  // f10
        0x44 => Some(0x0057),  // f11
        0x45 => Some(0x0058),  // f12
        0x46 => Some(0xe037),  // print screen
        0x47 => Some(0x0046),  // scroll lock
        0x48 => Some(0x0045),  // pause
        0x49 => Some(0xe052),  // insert
        0x4a => Some(0xe047),  // home
        0x4b => Some(0xe049),  // page up
        0x4c => Some(0xe053),  // del
        0x4d => Some(0xe04f),  // end
        0x4e => Some(0xe051),  // page down
        0x4f => Some(0xe04d),  // arrow right
        0x50 => Some(0xe04b),  // arrow left
        0x51 => Some(0xe050),  // arrow down
        0x52 => Some(0xe048),  // arrow up
        0x53 => Some(0xe045),  // num lock
        0x54 => Some(0xe035),  // numpad divide
        0x55 => Some(0x0037),  // numpad multiply
        0x56 => Some(0x004a),  // numpad subtract
        0x57 => Some(0x004e),  // numpad add
        0x58 => Some(0xe01c),  // numpad enter
        0x59 => Some(0x004f),  // numpad1
        0x5a => Some(0x0050),  // numpad2
        0x5b => Some(0x0051),  // numpad3
        0x5c => Some(0x004b),  // numpad4
        0x5d => Some(0x004c),  // numpad5
        0x5e => Some(0x004d),  // numpad6
        0x5f => Some(0x0047),  // numpad7
        0x60 => Some(0x0048),  // numpad8
        0x61 => Some(0x0049),  // numpad9
        0x62 => Some(0x0052),  // numpad0
        0x63 => Some(0x0053),  // numpad decimal
        0x64 => Some(0x0056),  // intl backslash
        0x65 => Some(0xe05d),  // context menu
        0x66 => Some(0xe05e),  // power
        0x67 => Some(0x0059),  // numpad equal
        0x68 => Some(0x0064),  // f13
        0x69 => Some(0x0065),  // f14
        0x6a => Some(0x0066),  // f15
        0x6b => Some(0x0067),  // f16
        0x6c => Some(0x0068),  // f17
        0x6d => Some(0x0069),  // f18
        0x6e => Some(0x006a),  // f19
        0x6f => Some(0x006b),  // f20
        0x70 => Some(0x006c),  // f21
        0x71 => Some(0x006d),  // f22
        0x72 => Some(0x006e),  // f23
        0x73 => Some(0x0076),  // f24
        0x75 => Some(0xe03b),  // help
        0x7a => Some(0xe008),  // undo
        0x7b => Some(0xe017),  // cut
        0x7c => Some(0xe018),  // copy
        0x7d => Some(0xe00a),  // paste
        0x7e => Some(0x0000),  // find
        0x7f => Some(0xe020),  // volume mute
        0x80 => Some(0xe030),  // volume up
        0x81 => Some(0xe02e),  // volume down
        0x85 => Some(0x007e),  // numpad comma
        0x87 => Some(0x0073),  // intl ro
        0x88 => Some(0x0070),  // kana mode
        0x89 => Some(0x007d),  // intl yen
        0x8a => Some(0x0079),  // convert
        0x8b => Some(0x007b),  // non convert
        0x90 => Some(0x0072),  // lang1
        0x91 => Some(0x0071),  // lang2
        0x92 => Some(0x0078),  // lang3
        0x93 => Some(0x0077),  // lang4
        0xe0 => Some(0x001d),  // control left
        0xe1 => Some(0x002a),  // shift left
        0xe2 => Some(0x0038),  // alt left
        0xe3 => Some(0xe05b),  // meta left
        0xe4 => Some(0xe01d),  // control right
        0xe5 => Some(0x0036),  // shift right
        0xe6 => Some(0xe038),  // alt right
        0xe7 => Some(0xe05c),  // meta right
        _ => None,
    }
}

/// The HID usage code of the key with scan code `scancode`.
#[verifier::opaque]
pub open spec fn scancode_hid(scancode: u16) -> Option<u8> {
    match scancode {
        0x0000 => Some(0x7e),  // find
        0x0001 => Some(0x29),  // escape
        0x0002 => Some(0x1e),  // digit1
        0x0003 => Some(0x1f),  // digit2
        0x0004 => Some(0x20),  // digit3
        0x0005 => Some(0x21),  // digit4
        0x0006 => Some(0x22),  // digit5
        0x0007 => Some(0x23),  // digit6
        0x0008 => Some(0x24),  // digit7
        0x0009 => Some(0x25),  // digit8
        0x000a => Some(0x26),  // digit9
        0x000b => Some(0x27),  // digit0
        0x000c => Some(0x2d),  // minus
        0x000d => Some(0x2e),  // equal
        0x000e => Some(0x2a),  // backspace
        0x000f => Some(0x2b),  // tab
        0x0010 => Some(0x14),  // us q
        0x0011 => Some(0x1a),  // us w
        0x0012 => Some(0x08),  // us e
        0x0013 => Some(0x15),  // us r
        0x0014 => Some(0x17),  // us t
        0x0015 => Some(0x1c),  // us y
        0x0016 => Some(0x18),  // us u
        0x0017 => Some(0x0c),  // us i
        0x0018 => Some(0x12),  // us o
        0x0019 => Some(0x13),  // us p
        0x001a => Some(0x2f),  // bracket left
        0x001b => Some(0x30),  // bracket right
        0x001c => Some(0x28),  // enter
        0x001d => Some(0xe0),  // control left
        0x001e => Some(0x04),  // us a
        0x001f => Some(0x16),  // us s
        0x0020 => Some(0x07),  // us d
        0x0021 => Some(0x09),  // us f
        0x0022 => Some(0x0a),  // us g
        0x0023 => Some(0x0b),  // us h
        0x0024 => Some(0x0d),  // us j
        0x0025 => Some(0x0e),  // us k
        0x0026 => Some(0x0f),  // us l
        0x0027 => Some(0x33),  // semicolon
        0x0028 => Some(0x34),  // quote
        0x0029 => Some(0x35),  // backquote
        0x002a => Some(0xe1),  // shift left
        0x002b => Some(0x31),  // backslash
        0x002c => Some(0x1d),  // us z
        0x002d => Some(0x1b),  // us x
        0x002e => Some(0x06),  // us c
        0x002f => Some(0x19),  // us v
        0x0030 => Some(0x05),  // us b
        0x0031 => Some(0x11),  // us n
        0x0032 => Some(0x10),  // us m
        0x0033 => Some(0x36),  // comma
        0x0034 => Some(0x37),  // period
        0x0035 => Some(0x38),  // slash
        0x0036 => Some(0xe5),  // shift right
        0x0037 => Some(0x55),  // numpad multiply
        0x0038 => Some(0xe2),  // alt left
        0x0039 => Some(0x2c),  // space
        0x003a => Some(0x39),  // caps lock
        0x003b => Some(0x3a),  // f1
        0x003c => Some(0x3b),  // f2
        0x003d => Some(0x3c),  // f3
        0x003e => Some(0x3d),  // f4
        0x003f => Some(0x3e),  // f5
        0x0040 => Some(0x3f),  // f6
        0x0041 => Some(0x40),  // f7
        0x0042 => Some(0x41),  // f8
        0x0043 => Some(0x42),  // f9
        0x0044 => Some(0x43),  // f10
        0x0045 => Some(0x48),  // pause
        0x0046 => Some(0x47),  // scroll lock
        0x0047 => Some(0x5f),  // numpad7
        0x0048 => Some(0x60),  // numpad8
        0x0049 => Some(0x61),  // numpad9
        0x004a => Some(0x56),  // numpad subtract
        0x004b => Some(0x5c),  // numpad4
        0x004c => Some(0x5d),  // numpad5
        0x004d => Some(0x5e),  // numpad6
        0x004e => Some(0x57),  // numpad add
        0x004f => Some(0x59),  // numpad1
        0x0050 => Some(0x5a),  // numpad2
        0x0051 => Some(0x5b),  // numpad3
        0x0052 => Some(0x62),  // numpad0
        0x0053 => Some(0x63),  // numpad decimal
        0x0056 => Some(0x64),  // intl backslash
        0x0057 => Some(0x44),  // f11
        0x0058 => Some(0x45),  // f12
        0x0059 => Some(0x67),  // numpad equal
        0x0064 => Some(0x68),  // f13
        0x0065 => Some(0x69),  // f14
        0x0066 => Some(0x6a),  // f15
        0x0067 => Some(0x6b),  // f16
        0x0068 => Some(0x6c),  // f17
        0x0069 => Some(0x6d),  // f18
        0x006a => Some(0x6e),  // f19
        0x006b => Some(0x6f),  // f20
        0x006c => Some(0x70),  // f21
        0x006d => Some(0x71),  // f22
        0x006e => Some(0x72),  // f23
        0x0070 => Some(0x88),  // kana mode
        0x0071 => Some(0x91),  // lang2
        0x0072 => Some(0x90),  // lang1
        0x0073 => Some(0x87),  // intl ro
        0x0076 => Some(0x73),  // f24
        0x0077 => Some(0x93),  // lang4
        0x0078 => Some(0x92),  // lang3
        0x0079 => Some(0x8a),  // convert
        0x007b => Some(0x8b),  // non convert
        0x007d => Some(0x89),  // intl yen
        0x007e => Some(0x85),  // numpad comma
        0xe008 => Some(0x7a),  // undo
        0xe00a => Some(0x7d),  // paste
        0xe017 => Some(0x7b),  // cut
        0xe018 => Some(0x7c),  // copy
        0xe01c => Some(0x58),  // numpad enter
        0xe01d => Some(0xe4),  // control right
        0xe020 => Some(0x7f),  // volume mute
        0xe02e => Some(0x81),  // volume down
        0xe030 => Some(0x80),  // volume up
        0xe035 => Some(0x54),  // numpad divide
        0xe037 => Some(0x46),  // print screen
        0xe038 => Some(0xe6),  // alt right
        0xe03b => Some(0x75),  // help
        0xe045 => Some(0x53),  // num lock
        0xe047 => Some(0x4a),  // home
        0xe048 => Some(0x52),  // arrow up
        0xe049 => Some(0x4b),  // page up
        0xe04b => Some(0x50),  // arrow left
        0xe04d => Some(0x4f),  // arrow right
        0xe04f => Some(0x4d),  // end
        0xe050 => Some(0x51),  // arrow down
        0xe051 => Some(0x4e),  // page down
        0xe052 => Some(0x49),  // insert
        0xe053 => Some(0x4c),  // del
        0xe05b => Some(0xe3),  // meta left
        0xe05c => Some(0xe7),  // meta right
        0xe05d => Some(0x65),  // context menu
        0xe05e => Some(0x66),  // power
        _ => None,
    }
}

/// The pairs of the table.
pub open spec fn scancode_pairs() -> Set<(u8, u16)> {
    Set::new(|p: (u8, u16)| hid_scancode(p.0) == Some(p.1))
}

/// The pairs of the table whose HID code lies below `bound`.
spec fn pairs_below(bound: int) -> Set<(u8, u16)> {
    Set::new(|p: (u8, u16)| p.0 < bound && hid_scancode(p.0) == Some(p.1))
}

/// The two tables are inverse to each other: a HID code maps to a scan code
/// exactly when that scan code maps back to it.
pub proof fn lemma_scancode_table_is_two_way(hid: u8, scancode: u16)
    ensures
        hid_scancode(hid) == Some(scancode) <==> scancode_hid(scancode) == Some(hid),
{
    reveal(hid_scancode);
    reveal(scancode_hid);
}

/// Every scan code of the table is below `0x100` or carries the prefix
/// `0xE0`.
pub proof fn lemma_scancodes_are_plain_or_extended(hid: u8)
    ensures
        hid_scancode(hid) matches Some(scancode) ==> scancode < 0x100 || scancode / 256 == 0xE0,
{
    reveal(hid_scancode);
}

/// Puts in the rows of the HID codes `0x00` to `0x0f`.
fn insert_rows_00(m: &mut BiHashMap<u8, u16>)
    requires
        bimap_pairs(*old(m)) == pairs_below(0x00),
    ensures
        bimap_pairs(*final(m)) == pairs_below(0x10),
{
    bimap_insert(m, 0x04, 0x001e);  // us a
    bimap_insert(m, 0x05, 0x0030);  // us b
    bimap_insert(m, 0x06, 0x002e);  // us c
    bimap_insert(m, 0x07, 0x0020);  // us d
    bimap_insert(m, 0x08, 0x0012);  // us e
    bimap_insert(m, 0x09, 0x0021);  // us f
    bimap_insert(m, 0x0a, 0x0022);  // us g
    bimap_insert(m, 0x0b, 0x0023);  // us h
    bimap_insert(m, 0x0c, 0x0017);  // us i
    bimap_insert(m, 0x0d, 0x0024);  // us j
    bimap_insert(m, 0x0e, 0x0025);  // us k
    bimap_insert(m, 0x0f, 0x0026);  // us l
    proof {
        reveal(hid_scancode);
    }
    assert(bimap_pairs(*m) =~= pairs_below(0x10));
}

/// Puts in the rows of the HID codes `0x10` to `0x1f`.
fn insert_rows_10(m: &mut BiHashMap<u8, u16>)
    requires
        bimap_pairs(*old(m)) == pairs_below(0x10),
    ensures
        bimap_pairs(*final(m)) == pairs_below(0x20),
{
    bimap_insert(m, 0x10, 0x0032);  // us m
    bimap_insert(m, 0x11, 0x0031);  // us n
    bimap_insert(m, 0x12, 0x0018);  // us o
    bimap_insert(m, 0x13, 0x0019);  // us p
    bimap_insert(m, 0x14, 0x0010);  // us q
    bimap_insert(m, 0x15, 0x0013);  // us r
    bimap_insert(m, 0x16, 0x001f);  // us s
    bimap_insert(m, 0x17, 0x0014);  // us t
    bimap_insert(m, 0x18, 0x0016);  // us u
    bimap_insert(m, 0x19, 0x002f);  // us v
    bimap_insert(m, 0x1a, 0x0011);  // us w
    bimap_insert(m, 0x1b, 0x002d);  // us x
    bimap_insert(m, 0x1c, 0x0015);  // us y
    bimap_insert(m, 0x1d, 0x002c);  // us z
    bimap_insert(m, 0x1e, 0x0002);  // digit1
    bimap_insert(m, 0x1f, 0x0003);  // digit2
    proof {
        reveal(hid_scancode);
    }
    assert(bimap_pairs(*m) =~= pairs_below(0x20));
}

/// Puts in the rows of the HID codes `0x20` to `0x2f`.
fn insert_rows_20(m: &mut BiHashMap<u8, u16>)
    requires
        bimap_pairs(*old(m)) == pairs_below(0x20),
    ensures
        bimap_pairs(*final(m)) == pairs_below(0x30),
{
    bimap_insert(m, 0x20, 0x0004);  // digit3
    bimap_insert(m, 0x21, 0x0005);  // digit4
    bimap_insert(m, 0x22, 0x0006);  // digit5
    bimap_insert(m, 0x23, 0x0007);  // digit6
    bimap_insert(m, 0x24, 0x0008);  // digit7
    bimap_insert(m, 0x25, 0x0009);  // digit8
    bimap_insert(m, 0x26, 0x000a);  // digit9
    bimap_insert(m, 0x27, 0x000b);  // digit0
    bimap_insert(m, 0x28, 0x001c);  // enter
    bimap_insert(m, 0x29, 0x0001);  // escape
    bimap_insert(m, 0x2a, 0x000e);  // backspace
    bimap_insert(m, 0x2b, 0x000f);  // tab
    bimap_insert(m, 0x2c, 0x0039);  // space
    bimap_insert(m, 0x2d, 0x000c);  // minus
    bimap_insert(m, 0x2e, 0x000d);  // equal
    bimap_insert(m, 0x2f, 0x001a);  // bracket left
    proof {
        reveal(hid_scancode);
    }
    assert(bimap_pairs(*m) =~= pairs_below(0x30));
}

/// Puts in the rows of the HID codes `0x30` to `0x3f`.
fn insert_rows_30(m: &mut BiHashMap<u8, u16>)
    requires
        bimap_pairs(*old(m)) == pairs_below(0x30),
    ensures
        bimap_pairs(*final(m)) == pairs_below(0x40),
{
    bimap_insert(m, 0x30, 0x001b);  // bracket right
    bimap_insert(m, 0x31, 0x002b);  // backslash
    bimap_insert(m, 0x33, 0x0027);  // semicolon
    bimap_insert(m, 0x34, 0x0028);  // quote
    bimap_insert(m, 0x35, 0x0029);  // backquote
    bimap_insert(m, 0x36, 0x0033);  // comma
    bimap_insert(m, 0x37, 0x0034);  // period
    bimap_insert(m, 0x38, 0x0035);  // slash
    bimap_insert(m, 0x39, 0x003a);  // caps lock
    bimap_insert(m, 0x3a, 0x003b);  // f1
    bimap_insert(m, 0x3b, 0x003c);  // f2
    bimap_insert(m, 0x3c, 0x003d);  // f3
    bimap_insert(m, 0x3d, 0x003e);  // f4
    bimap_insert(m, 0x3e, 0x003f);  // f5
    bimap_insert(m, 0x3f, 0x0040);  // f6
    proof {
        reveal(hid_scancode);
    }
    assert(bimap_pairs(*m) =~= pairs_below(0x40));
}

/// Puts in the rows of the HID codes `0x40` to `0x4f`.
fn insert_rows_40(m: &mut BiHashMap<u8, u16>)
    requires
        bimap_pairs(*old(m)) == pairs_below(0x40),
    ensures
        bimap_pairs(*final(m)) == pairs_below(0x50),
{
    bimap_insert(m, 0x40, 0x0041);  // f7
    bimap_insert(m, 0x41, 0x0042);  // f8
    bimap_insert(m, 0x42, 0x0043);  // f9
    bimap_insert(m, 0x43, 0x0044);  // f10
    bimap_insert(m, 0x44, 0x0057);  // f11
    bimap_insert(m, 0x45, 0x0058);  // f12
    bimap_insert(m, 0x46, 0xe037);  // print screen
    bimap_insert(m, 0x47, 0x0046);  // scroll lock
    bimap_insert(m, 0x48, 0x0045);  // pause
    bimap_insert(m, 0x49, 0xe052);  // insert
    bimap_insert(m, 0x4a, 0xe047);  // home
    bimap_insert(m, 0x4b, 0xe049);  // page up
    bimap_insert(m, 0x4c, 0xe053);  // del
    bimap_insert(m, 0x4d, 0xe04f);  // end
    bimap_insert(m, 0x4e, 0xe051);  // page down
    bimap_insert(m, 0x4f, 0xe04d);  // arrow right
    proof {
        reveal(hid_scancode);
    }
    assert(bimap_pairs(*m) =~= pairs_below(0x50));
}

/// Puts in the rows of the HID codes `0x50` to `0x5f`.
fn insert_rows_50(m: &mut BiHashMap<u8, u16>)
    requires
        bimap_pairs(*old(m)) == pairs_below(0x50),
    ensures
        bimap_pairs(*final(m)) == pairs_below(0x60),
{
    bimap_insert(m, 0x50, 0xe04b);  // arrow left
    bimap_insert(m, 0x51, 0xe050);  // arrow down
    bimap_insert(m, 0x52, 0xe048);  // arrow up
    bimap_insert(m, 0x53, 0xe045);  // num lock
    bimap_insert(m, 0x54, 0xe035);  // numpad divide
    bimap_insert(m, 0x55, 0x0037);  // numpad multiply
    bimap_insert(m, 0x56, 0x004a);  // numpad subtract
    bimap_insert(m, 0x57, 0x004e);  // numpad add
    bimap_insert(m, 0x58, 0xe01c);  // numpad enter
    bimap_insert(m, 0x59, 0x004f);  // numpad1
    bimap_insert(m, 0x5a, 0x0050);  // numpad2
    bimap_insert(m, 0x5b, 0x0051);  // numpad3
    bimap_insert(m, 0x5c, 0x004b);  // numpad4
    bimap_insert(m, 0x5d, 0x004c);  // numpad5
    bimap_insert(m, 0x5e, 0x004d);  // numpad6
    bimap_insert(m, 0x5f, 0x0047);  // numpad7
    proof {
        reveal(hid_scancode);
    }
    assert(bimap_pairs(*m) =~= pairs_below(0x60));
}

/// Puts in the rows of the HID codes `0x60` to `0x6f`.
fn insert_rows_60(m: &mut BiHashMap<u8, u16>)
    requires
        bimap_pairs(*old(m)) == pairs_below(0x60),
    ensures
        bimap_pairs(*final(m)) == pairs_below(0x70),
{
    bimap_insert(m, 0x60, 0x0048);  // numpad8
    bimap_insert(m, 0x61, 0x0049);  // numpad9
    bimap_insert(m, 0x62, 0x0052);  // numpad0
    bimap_insert(m, 0x63, 0x0053);  // numpad decimal
    bimap_insert(m, 0x64, 0x0056);  // intl backslash
    bimap_insert(m, 0x65, 0xe05d);  // context menu
    bimap_insert(m, 0x66, 0xe05e);  // power
    bimap_insert(m, 0x67, 0x0059);  // numpad equal
    bimap_insert(m, 0x68, 0x0064);  // f13
    bimap_insert(m, 0x69, 0x0065);  // f14
    bimap_insert(m, 0x6a, 0x0066);  // f15
    bimap_insert(m, 0x6b, 0x0067);  // f16
    bimap_insert(m, 0x6c, 0x0068);  // f17
    bimap_insert(m, 0x6d, 0x0069);  // f18
    bimap_insert(m, 0x6e, 0x006a);  // f19
    bimap_insert(m, 0x6f, 0x006b);  // f20
    proof {
        reveal(hid_scancode);
    }
    assert(bimap_pairs(*m) =~= pairs_below(0x70));
}

/// Puts in the rows of the HID codes `0x70` to `0x7f`.
fn insert_rows_70(m: &mut BiHashMap<u8, u16>)
    requires
        bimap_pairs(*old(m)) == pairs_below(0x70),
    ensures
        bimap_pairs(*final(m)) == pairs_below(0x80),
{
    bimap_insert(m, 0x70, 0x006c);  // f21
    bimap_insert(m, 0x71, 0x006d);  // f22
    bimap_insert(m, 0x72, 0x006e);  // f23
    bimap_insert(m, 0x73, 0x0076);  // f24
    bimap_insert(m, 0x74, 0x0000);  // open
    bimap_insert(m, 0x75, 0xe03b);  // help
    bimap_insert(m, 0x79, 0x0000);  // again
    bimap_insert(m, 0x7a, 0xe008);  // undo
    bimap_insert(m, 0x7b, 0xe017);  // cut
    bimap_insert(m, 0x7c, 0xe018);  // copy
    bimap_insert(m, 0x7d, 0xe00a);  // paste
    bimap_insert(m, 0x7e, 0x0000);  // find
    bimap_insert(m, 0x7f, 0xe020);  // volume mute
    proof {
        reveal(hid_scancode);
    }
    assert(bimap_pairs(*m) =~= pairs_below(0x80));
}

/// Puts in the rows of the HID codes `0x80` to `0x8f`.
fn insert_rows_80(m: &mut BiHashMap<u8, u16>)
    requires
        bimap_pairs(*old(m)) == pairs_below(0x80),
    ensures
        bimap_pairs(*final(m)) == pairs_below(0x90),
{
    bimap_insert(m, 0x80, 0xe030);  // volume up
    bimap_insert(m, 0x81, 0xe02e);  // volume down
    bimap_insert(m, 0x85, 0x007e);  // numpad comma
    bimap_insert(m, 0x87, 0x0073);  // intl ro
    bimap_insert(m, 0x88, 0x0070);  // kana mode
    bimap_insert(m, 0x89, 0x007d);  // intl yen
    bimap_insert(m, 0x8a, 0x0079);  // convert
    bimap_insert(m, 0x8b, 0x007b);  // non convert
    proof {
        reveal(hid_scancode);
    }
    assert(bimap_pairs(*m) =~= pairs_below(0x90));
}

/// Puts in the rows of the HID codes `0x90` to `0x9f`.
fn insert_rows_90(m: &mut BiHashMap<u8, u16>)
    requires
        bimap_pairs(*old(m)) == pairs_below(0x90),
    ensures
        bimap_pairs(*final(m)) == pairs_below(0xa0),
{
    bimap_insert(m, 0x90, 0x0072);  // lang1
    bimap_insert(m, 0x91, 0x0071);  // lang2
    bimap_insert(m, 0x92, 0x0078);  // lang3
    bimap_insert(m, 0x93, 0x0077);  // lang4
    proof {
        reveal(hid_scancode);
    }
    assert(bimap_pairs(*m) =~= pairs_below(0xa0));
}

/// Puts in the rows of the HID codes `0xe0` to `0xef`.
fn insert_rows_e0(m: &mut BiHashMap<u8, u16>)
    requires
        bimap_pairs(*old(m)) == pairs_below(0xa0),
    ensures
        bimap_pairs(*final(m)) == pairs_below(0xf0),
{
    bimap_insert(m, 0xe0, 0x001d);  // control left
    bimap_insert(m, 0xe1, 0x002a);  // shift left
    bimap_insert(m, 0xe2, 0x0038);  // alt left
    bimap_insert(m, 0xe3, 0xe05b);  // meta left
    bimap_insert(m, 0xe4, 0xe01d);  // control right
    bimap_insert(m, 0xe5, 0x0036);  // shift right
    bimap_insert(m, 0xe6, 0xe038);  // alt right
    bimap_insert(m, 0xe7, 0xe05c);  // meta right
    proof {
        reveal(hid_scancode);
    }
    assert(bimap_pairs(*m) =~= pairs_below(0xf0));
}

/// The table between HID usage codes and scan codes.
pub struct ScancodeMap {
    map: BiHashMap<u8, u16>,
}

impl View for ScancodeMap {
    type V = Set<(u8, u16)>;

    closed spec fn view(&self) -> Set<(u8, u16)> {
        bimap_pairs(self.map)
    }
}

impl ScancodeMap {
    #[verifier::type_invariant]
    spec fn holds_the_table(&self) -> bool {
        bimap_pairs(self.map) == scancode_pairs()
    }

    /// Builds the table.
    pub fn new() -> (table: ScancodeMap)
        ensures
            table@ == scancode_pairs(),
    {
        let mut map = bimap_new();
        assert(bimap_pairs(map) =~= pairs_below(0));
        insert_rows_00(&mut map);
        insert_rows_10(&mut map);
        insert_rows_20(&mut map);
        insert_rows_30(&mut map);
        insert_rows_40(&mut map);
        insert_rows_50(&mut map);
        insert_rows_60(&mut map);
        insert_rows_70(&mut map);
        insert_rows_80(&mut map);
        insert_rows_90(&mut map);
        insert_rows_e0(&mut map);
        proof {
            reveal(hid_scancode);
        }
        assert(bimap_pairs(map) =~= scancode_pairs());
        ScancodeMap { map }
    }

    /// The scan code of HID usage code `hid`.
    pub fn scancode_of(&self, hid: u8) -> (scancode: Option<u16>)
        ensures
            scancode == hid_scancode(hid),
    {
        proof {
            use_type_invariant(self);
        }
        let scancode = bimap_get_by_left(&self.map, hid);
        proof {
            if let Some(s) = hid_scancode(hid) {
                assert(scancode_pairs().contains((hid, s)));
            }
        }
        scancode
    }

    /// The HID usage code of scan code `scancode`.
    pub fn hid_of(&self, scancode: u16) -> (hid: Option<u8>)
        ensures
            hid == scancode_hid(scancode),
    {
        proof {
            use_type_invariant(self);
        }
        let hid = bimap_get_by_right(&self.map, scancode);
        proof {
            match hid {
                Some(h) => {
                    lemma_scancode_table_is_two_way(h, scancode);
                },
                None => {
                    if let Some(h) = scancode_hid(scancode) {
                        lemma_scancode_table_is_two_way(h, scancode);
                        assert(scancode_pairs().contains((h, scancode)));
                    }
                },
            }
        }
        hid
    }
}

} // verus!
