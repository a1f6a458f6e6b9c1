//! Arithmetic on ring indices.
//!
//! A ring's head and tail are 32-bit counters that only ever grow and wrap
//! at 2^32. The number of entries between them is their wrapping difference;
//! the slot of an index is the index masked by `entries - 1`, doubled when
//! the wide entry layout is in use.

use vstd::prelude::*;

verus! {

/// The largest entry count a ring can have: the doubled slot index of a wide
/// ring must still fit in 32 bits.
pub const MAX_ENTRIES: u32 = 0x4000_0000;

/// `entries` is a power of two no larger than `MAX_ENTRIES`, and `mask` is
/// `entries - 1`.
pub open spec fn geometry(entries: u32, mask: u32) -> bool {
    &&& 0 < entries <= MAX_ENTRIES
    &&& mask == entries - 1
    &&& entries & mask == 0
}

/// The number of entries from `head` up to `tail`, modulo 2^32.
pub open spec fn spec_distance(tail: u32, head: u32) -> u32 {
    tail.wrapping_sub(head)
}

/// The slot that holds the entry with the given index.
pub open spec fn spec_slot(index: u32, mask: u32, wide: bool) -> int {
    if wide {
        2 * (index & mask)
    } else {
        (index & mask) as int
    }
}

/// The number of slots behind a ring of `entries` entries.
pub open spec fn slot_count(entries: u32, wide: bool) -> int {
    if wide {
        2 * entries
    } else {
        entries as int
    }
}

/// The 32-bit index that a counter shows after `steps` steps from zero.
pub open spec fn index_after(steps: nat) -> u32 {
    (steps % 0x1_0000_0000) as u32
}

/// Whether `entries` and `mask` describe a ring.
pub fn check_geometry(entries: u32, mask: u32) -> (r: bool)
    ensures
        r == geometry(entries, mask),
{
    entries > 0 && entries <= MAX_ENTRIES && mask == entries - 1 && entries & mask == 0
}

/// The number of entries from `head` up to `tail`.
pub fn distance(tail: u32, head: u32) -> (r: u32)
    ensures
        r == spec_distance(tail, head),
{
    tail.wrapping_sub(head)
}

/// The slot of `index` in a ring with the given mask and layout.
pub fn slot(index: u32, mask: u32, wide: bool) -> (r: usize)
    requires
        mask < MAX_ENTRIES,
    ensures
        r == spec_slot(index, mask, wide),
        r < slot_count((mask + 1) as u32, wide),
{
    let masked: u32 = index & mask;
    assert(masked <= mask) by (bit_vector)
        requires
            masked == index & mask,
    ;
    if wide {
        let doubled: u32 = masked << 1;
        assert(doubled == 2 * masked) by (bit_vector)
            requires
                doubled == masked << 1,
                masked < 0x4000_0000,
        ;
        doubled as usize
    } else {
        masked as usize
    }
}

/// A slot lies inside the slot array.
pub proof fn lemma_slot_in_range(index: u32, entries: u32, mask: u32, wide: bool)
    requires
        geometry(entries, mask),
    ensures
        0 <= spec_slot(index, mask, wide) < slot_count(entries, wide),
{
    assert(index & mask <= mask) by (bit_vector);
}

/// Two indices less than `entries` apart never share a slot.
pub proof fn lemma_window_slots_differ(a: u32, d: u32, entries: u32, mask: u32, wide: bool)
    requires
        geometry(entries, mask),
        0 < d < entries,
    ensures
        spec_slot(a, mask, wide) != spec_slot(a.wrapping_add(d), mask, wide),
{
    let b = a.wrapping_add(d);
    assert((a & mask) != (b & mask)) by (bit_vector)
        requires
            entries > 0,
            mask == entries - 1,
            entries & mask == 0,
            0 < d < entries,
            b == a + d || b == a + d - 0x1_0000_0000,
    ;
}

} // verus!
