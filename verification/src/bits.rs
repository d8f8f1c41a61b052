//! Facts about the bit operations that the machine's formats are made of.
use vstd::prelude::*;

verus! {

/// The two nibbles of a byte are below sixteen.
pub proof fn lemma_nibbles(b: u8)
    by (bit_vector)
    ensures
        b & 0xF < 16,
        b >> 4 < 16,
{
}

/// The fields of a character code that select its glyph are in range.
pub proof fn lemma_glyph_fields(c: u8)
    by (bit_vector)
    ensures
        c & 0x7 <= 7,
        (c & 0x78) >> 3 <= 15,
        c >> 6 <= 3,
{
}

/// Three pairs of bits packed into one value stay below sixty-four.
pub proof fn lemma_pack_pairs(a: u8, b: u8, c: u8)
    by (bit_vector)
    ensures
        (a & 3) | (b & 3) << 2 | (c & 3) << 4 < 64,
{
}

/// The top six bits of a byte, taken as a number, are below sixty-four.
pub proof fn lemma_top_six(v: u8)
    by (bit_vector)
    ensures
        v >> 2 < 64,
{
}

/// Switching magnet `j` on or off changes the bit of magnet `j` in the
/// bitmap and no other.
pub proof fn lemma_magnet_bit(magnets: u32, j: u32, k: u32)
    by (bit_vector)
    requires
        j < 4,
        k < 4,
    ensures
        ((magnets | (1u32 << j)) & (1u32 << k) != 0) <==> (k == j || magnets & (1u32 << k) != 0),
        ((magnets & !(1u32 << j)) & (1u32 << k) != 0) <==> (k != j && magnets & (1u32 << k) != 0),
{
}

/// An empty bitmap has no magnet on.
pub proof fn lemma_no_magnet(k: u32)
    by (bit_vector)
    ensures
        0u32 & (1u32 << k) == 0,
{
}

/// A phase switch names its magnet in its upper bits and says in its
/// lowest bit whether the magnet goes on.
pub proof fn lemma_phase_switch(switch: u16)
    by (bit_vector)
    ensures
        switch >> 1 == switch / 2u16,
        (switch & 1 != 0) <==> (switch % 2u16 == 1),
{
}

/// The three bits of a soft-switch address that a Language Card reads.
pub proof fn lemma_language_switch(switch: u16)
    by (bit_vector)
    ensures
        (switch & 0x0001 != 0) <==> (switch % 2u16 == 1),
        (switch & 0x0002 != 0) <==> (switch / 2u16 % 2u16 == 1),
        (switch & 0x0008 != 0) <==> (switch / 8u16 % 2u16 == 1),
{
}

/// The low byte of an address is below 256.
pub proof fn lemma_low_byte(addr: u16)
    by (bit_vector)
    ensures
        addr & 0xFF == addr % 256u16,
{
}

/// The slot whose soft-switches hold an address of `$C080` to `$C0FF`.
pub proof fn lemma_switch_slot(addr: u16)
    by (bit_vector)
    requires
        0xC080 <= addr <= 0xC0FF,
    ensures
        8 <= ((addr - 0xC000) as u16) >> 4 <= 15,
        (((addr - 0xC000) as u16) >> 4) - 8 == (addr - 0xC080) / 16,
{
}

/// The number of a soft-switch among the sixteen of its slot.
pub proof fn lemma_switch_number(addr: u16)
    by (bit_vector)
    ensures
        addr & 0xF == addr % 16u16,
{
}

/// The slot whose ROM page holds an address of `$C100` to `$C7FF`.
pub proof fn lemma_rom_slot(addr: u16)
    by (bit_vector)
    requires
        0xC100 <= addr <= 0xC7FF,
    ensures
        ((addr - 0xC000) as u16) >> 8 == (addr - 0xC000) / 256,
{
}

/// Clearing the top bit of a byte leaves its low seven bits.
pub proof fn lemma_strobe(key: u8)
    by (bit_vector)
    ensures
        key & 0x7F == key % 128u8,
        (key & 0x7F) & 0x80 == 0,
{
}

} // verus!
