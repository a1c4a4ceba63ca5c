//! Bit-level helpers on bytes: viewing a byte as eight bits and back.

use vstd::prelude::*;

verus! {

/// True iff bit `idx` (counting from the least significant bit) of `v` is set.
pub open spec fn spec_bit(v: u8, idx: u8) -> bool {
    (v >> idx) & 0x01 == 1
}

/// The byte whose bit `i` (from the least significant end) is `bits[7 - i]`:
/// the first array element is the highest-order bit.
pub open spec fn spec_from_bits(bits: [bool; 8]) -> u8 {
    (if bits[0] { 0x80u8 } else { 0u8 }) | (if bits[1] { 0x40u8 } else { 0u8 })
        | (if bits[2] { 0x20u8 } else { 0u8 }) | (if bits[3] { 0x10u8 } else { 0u8 })
        | (if bits[4] { 0x08u8 } else { 0u8 }) | (if bits[5] { 0x04u8 } else { 0u8 })
        | (if bits[6] { 0x02u8 } else { 0u8 }) | (if bits[7] { 0x01u8 } else { 0u8 })
}

pub trait U8Ext: Sized {
    /// Construct a byte from its bits in big-endian order: the highest-order
    /// bit appears first (at index 0) in the array.
    fn from_bits(bits: [bool; 8]) -> (r: u8)
        ensures
            r == spec_from_bits(bits),
    ;

    /// View the bits of the byte as an array of bools; the first element of
    /// the returned array is the highest-order bit.
    fn bits(self) -> (r: [bool; 8]);

    /// `bit(0)` gets the lowest-order (right-most) bit.
    fn bit(self, idx: u8) -> (r: bool)
        requires
            idx < 8,
    ;

    /// Return the byte with bit `idx` (from the least significant end) set.
    fn set(self, idx: u8) -> (r: u8)
        requires
            idx < 8,
    ;
}

impl U8Ext for u8 {
    fn from_bits(bits: [bool; 8]) -> (r: u8) {
        let b0: u8 = if bits[0] { 0x80 } else { 0 };
        let b1: u8 = if bits[1] { 0x40 } else { 0 };
        let b2: u8 = if bits[2] { 0x20 } else { 0 };
        let b3: u8 = if bits[3] { 0x10 } else { 0 };
        let b4: u8 = if bits[4] { 0x08 } else { 0 };
        let b5: u8 = if bits[5] { 0x04 } else { 0 };
        let b6: u8 = if bits[6] { 0x02 } else { 0 };
        let b7: u8 = if bits[7] { 0x01 } else { 0 };
        b0 | b1 | b2 | b3 | b4 | b5 | b6 | b7
    }

    fn bits(self) -> (r: [bool; 8])
        ensures
            forall|i: int| 0 <= i < 8 ==> r[i] == spec_bit(self, (7 - i) as u8),
    {
        let mut r: [bool; 8] = [false; 8];
        let mut i: usize = 0;
        while i < 8
            invariant
                i <= 8,
                forall|j: int| 0 <= j < i ==> r[j] == spec_bit(self, (7 - j) as u8),
            decreases 8 - i,
        {
            r[i] = ((self >> ((7 - i) as u8)) & 0x01) == 1;
            i += 1;
        }
        r
    }

    fn bit(self, idx: u8) -> (r: bool)
        ensures
            r == spec_bit(self, idx),
    {
        ((self >> idx) & 0x01) == 1
    }

    fn set(self, idx: u8) -> (r: u8)
        ensures
            forall|j: u8| j < 8 ==> spec_bit(r, j) == (j == idx || spec_bit(self, j)),
    {
        proof {
            lemma_set_bit(self, idx);
        }
        self | (1u8 << idx)
    }
}

proof fn lemma_set_bit(v: u8, idx: u8)
    by (bit_vector)
    requires
        idx < 8,
    ensures
        forall|j: u8| j < 8 ==> #[trigger] spec_bit(v | (1u8 << idx), j) == (j == idx || spec_bit(
            v,
            j,
        )),
{
}

/// Reading the bits of a byte and reassembling them gives the byte back.
pub proof fn lemma_bits_round_trip(v: u8, bits: [bool; 8])
    requires
        forall|i: int| 0 <= i < 8 ==> bits[i] == spec_bit(v, (7 - i) as u8),
    ensures
        spec_from_bits(bits) == v,
{
    assert((if spec_bit(v, 7) {
        0x80u8
    } else {
        0u8
    }) | (if spec_bit(v, 6) {
        0x40u8
    } else {
        0u8
    }) | (if spec_bit(v, 5) {
        0x20u8
    } else {
        0u8
    }) | (if spec_bit(v, 4) {
        0x10u8
    } else {
        0u8
    }) | (if spec_bit(v, 3) {
        0x08u8
    } else {
        0u8
    }) | (if spec_bit(v, 2) {
        0x04u8
    } else {
        0u8
    }) | (if spec_bit(v, 1) {
        0x02u8
    } else {
        0u8
    }) | (if spec_bit(v, 0) {
        0x01u8
    } else {
        0u8
    }) == v) by (bit_vector);
}

} // verus!
