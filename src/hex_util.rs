use vstd::prelude::*;

verus! {

/// The `n`-th four-bit digit of `instruction`, counting from 1 at the least
/// significant end; positions outside `1..=4` have no digit and give 0.
pub open spec fn nibble(instruction: u16, n: int) -> int {
    if n == 1 {
        instruction as int % 16
    } else if n == 2 {
        (instruction as int / 16) % 16
    } else if n == 3 {
        (instruction as int / 256) % 16
    } else if n == 4 {
        instruction as int / 4096
    } else {
        0
    }
}

/// Isolates the `n`-th nibble of `instruction` (1 = lowest four bits).
pub fn get_nth_nibble(instruction: u16, n: usize) -> (r: usize)
    ensures
        r == nibble(instruction, n as int),
        r < 16,
{
    if n > 4 || n == 0 {
        return 0;
    }
    let shift: u16 = ((n - 1) * 4) as u16;
    let r = ((instruction & (0xFu16 << shift)) >> shift) as usize;
    proof {
        if n == 1 {
            assert((instruction & (0xFu16 << 0u16)) >> 0u16 == instruction % 16) by (bit_vector);
        } else if n == 2 {
            assert((instruction & (0xFu16 << 4u16)) >> 4u16 == (instruction / 16) % 16) by (bit_vector);
        } else if n == 3 {
            assert((instruction & (0xFu16 << 8u16)) >> 8u16 == (instruction / 256) % 16) by (bit_vector);
        } else {
            assert((instruction & (0xFu16 << 12u16)) >> 12u16 == instruction / 4096) by (bit_vector);
        }
    }
    r
}

} // verus!
