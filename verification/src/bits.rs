//! Single-bit views of the button words used throughout the project.

use vstd::prelude::*;

verus! {

/// Bit `i` of a 16-bit word (bits past the word are clear).
pub open spec fn bit16(w: u16, i: int) -> bool {
    0 <= i < 16 && (w >> (i as u16)) & 1u16 == 1u16
}

/// Bit `i` of a 32-bit word (bits past the word are clear).
pub open spec fn bit32(w: u32, i: int) -> bool {
    0 <= i < 32 && (w >> (i as u32)) & 1u32 == 1u32
}

/// The zero word has no bit set.
pub proof fn lemma_bit32_zero()
    ensures
        forall|v: int| !#[trigger] bit32(0u32, v),
{
    assert forall|v: int| !#[trigger] bit32(0u32, v) by {
        if 0 <= v < 32 {
            let vv = v as u32;
            assert((0u32 >> vv) & 1u32 == 0u32) by (bit_vector);
        }
    }
}

/// Read bit `i` of a 16-bit word.
pub fn u16_bit(w: u16, i: u8) -> (b: bool)
    requires
        i < 16,
    ensures
        b == bit16(w, i as int),
{
    (w >> (i as u16)) & 1 == 1
}

/// Set bit `i` of a 32-bit word, leaving every other bit as it was.
pub fn set_bit32(w: u32, i: u32) -> (r: u32)
    requires
        i < 32,
    ensures
        forall|j: int| #[trigger] bit32(r, j) == (j == i || bit32(w, j)),
{
    let r = w | (1u32 << i);
    assert forall|j: int| #[trigger] bit32(r, j) == (j == i || bit32(w, j)) by {
        if 0 <= j < 32 {
            let jj = j as u32;
            assert(((w | (1u32 << i)) >> jj) & 1u32 == 1u32 <==> (jj == i || (w >> jj) & 1u32
                == 1u32)) by (bit_vector)
                requires
                    i < 32,
                    jj < 32,
            ;
        }
    }
    r
}

} // verus!
