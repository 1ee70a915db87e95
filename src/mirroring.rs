use vstd::prelude::*;

verus! {

/// How the four logical 1 KiB nametables of the PPU map onto physical VRAM.
#[derive(Clone, Copy, Debug, PartialEq, Eq, Structural)]
pub enum Mirroring {
    Horizontal,
    Vertical,
    SingleScreenA,
    SingleScreenB,
    FourScreen,
}

/// The display name of a mirroring mode.
pub open spec fn mode_name(mode: Mirroring) -> Seq<char> {
    match mode {
        Mirroring::Horizontal => "Horizontal"@,
        Mirroring::Vertical => "Vertical"@,
        Mirroring::SingleScreenA => "Single Screen A"@,
        Mirroring::SingleScreenB => "Single Screen B"@,
        Mirroring::FourScreen => "Four Screen"@,
    }
}

pub fn mirroring_mode_name(mode: Mirroring) -> (r: String)
    ensures
        r@ == mode_name(mode),
{
    match mode {
        Mirroring::Horizontal => String::from_str("Horizontal"),
        Mirroring::Vertical => String::from_str("Vertical"),
        Mirroring::SingleScreenA => String::from_str("Single Screen A"),
        Mirroring::SingleScreenB => String::from_str("Single Screen B"),
        Mirroring::FourScreen => String::from_str("Four Screen"),
    }
}

/// Which of the four logical nametables an address falls in.
pub open spec fn logical_table(address: int) -> int {
    (address / 0x400) % 4
}

/// Which physical 1 KiB table a logical table lands on under `mode`.
pub open spec fn physical_table(mode: Mirroring, table: int) -> int {
    match mode {
        Mirroring::Horizontal => table / 2,
        Mirroring::Vertical => table % 2,
        Mirroring::SingleScreenA => 0,
        Mirroring::SingleScreenB => 1,
        Mirroring::FourScreen => table,
    }
}

/// The physical VRAM offset of a nametable address under `mode`.
pub open spec fn nametable_offset(mode: Mirroring, address: int) -> int {
    physical_table(mode, logical_table(address)) * 0x400 + address % 0x400
}

/// Horizontal mirroring: tables 0 and 1 share the first physical table,
/// tables 2 and 3 the second.
pub fn horizontal_mirroring(address: u16) -> (r: u16)
    ensures
        r == nametable_offset(Mirroring::Horizontal, address as int),
        r < 0x800,
{
    let r = ((address & 0x800) >> 1) | (address & 0x3FF);
    assert(((address & 0x800) >> 1) | (address & 0x3FF) == ((address / 0x400) % 4) / 2 * 0x400
        + address % 0x400) by (bit_vector);
    assert(((address & 0x800) >> 1) | (address & 0x3FF) < 0x800) by (bit_vector);
    r
}

/// Vertical mirroring: tables 0 and 2 share the first physical table,
/// tables 1 and 3 the second.
pub fn vertical_mirroring(address: u16) -> (r: u16)
    ensures
        r == nametable_offset(Mirroring::Vertical, address as int),
        r < 0x800,
{
    assert(address & 0x7FF == ((address / 0x400) % 4) % 2 * 0x400 + address % 0x400)
        by (bit_vector);
    assert(address & 0x7FF < 0x800) by (bit_vector);
    address & 0x7FF
}

/// Single-screen mirroring on the first physical table.
pub fn single_screen_a(address: u16) -> (r: u16)
    ensures
        r == nametable_offset(Mirroring::SingleScreenA, address as int),
        r < 0x400,
{
    assert(address & 0x3FF == address % 0x400) by (bit_vector);
    address & 0x3FF
}

/// Single-screen mirroring on the second physical table.
pub fn single_screen_b(address: u16) -> (r: u16)
    ensures
        r == nametable_offset(Mirroring::SingleScreenB, address as int),
        r < 0x800,
{
    assert((address & 0x3FF) | 0x400 == 0x400 + address % 0x400) by (bit_vector);
    (address & 0x3FF) | 0x400
}

/// Four-screen layout: each logical table has its own physical table.
pub fn four_banks(address: u16) -> (r: u16)
    ensures
        r == nametable_offset(Mirroring::FourScreen, address as int),
        r < 0x1000,
{
    assert(address & 0xFFF == ((address / 0x400) % 4) * 0x400 + address % 0x400)
        by (bit_vector);
    assert(address & 0xFFF < 0x1000) by (bit_vector);
    address & 0xFFF
}

/// The resolver for `mode`, applied to `address`.
pub fn resolve(mode: Mirroring, address: u16) -> (r: u16)
    ensures
        r == nametable_offset(mode, address as int),
        r < 0x1000,
{
    match mode {
        Mirroring::Horizontal => horizontal_mirroring(address),
        Mirroring::Vertical => vertical_mirroring(address),
        Mirroring::SingleScreenA => single_screen_a(address),
        Mirroring::SingleScreenB => single_screen_b(address),
        Mirroring::FourScreen => four_banks(address),
    }
}

/// Horizontal mirroring ignores the bit that selects between tables 0 and 1
/// (and 2 and 3); vertical mirroring ignores the bit that selects between
/// tables 0 and 2 (and 1 and 3); four-screen mirroring maps distinct
/// addresses of one 4 KiB window to distinct offsets.
pub proof fn lemma_mirroring_aliases(a: u16, b: u16)
    ensures
        a | 0x400 == b | 0x400 ==> nametable_offset(Mirroring::Horizontal, a as int)
            == nametable_offset(Mirroring::Horizontal, b as int),
        a | 0x800 == b | 0x800 ==> nametable_offset(Mirroring::Vertical, a as int)
            == nametable_offset(Mirroring::Vertical, b as int),
        a / 0x1000 == b / 0x1000 && a != b ==> nametable_offset(Mirroring::FourScreen, a as int)
            != nametable_offset(Mirroring::FourScreen, b as int),
{
    assert(a | 0x400 == b | 0x400 ==> ((a & 0x800) >> 1) | (a & 0x3FF) == ((b & 0x800) >> 1) | (
    b & 0x3FF)) by (bit_vector);
    assert(((a & 0x800) >> 1) | (a & 0x3FF) == ((a / 0x400) % 4) / 2 * 0x400 + a % 0x400)
        by (bit_vector);
    assert(((b & 0x800) >> 1) | (b & 0x3FF) == ((b / 0x400) % 4) / 2 * 0x400 + b % 0x400)
        by (bit_vector);
    assert(a | 0x800 == b | 0x800 ==> a & 0x7FF == b & 0x7FF) by (bit_vector);
    assert(a & 0x7FF == ((a / 0x400) % 4) % 2 * 0x400 + a % 0x400) by (bit_vector);
    assert(b & 0x7FF == ((b / 0x400) % 4) % 2 * 0x400 + b % 0x400) by (bit_vector);
    assert(a / 0x1000 == b / 0x1000 && a != b ==> a & 0xFFF != b & 0xFFF) by (bit_vector);
    assert(a & 0xFFF == ((a / 0x400) % 4) * 0x400 + a % 0x400) by (bit_vector);
    assert(b & 0xFFF == ((b / 0x400) % 4) * 0x400 + b % 0x400) by (bit_vector);
}

} // verus!
