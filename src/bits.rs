//! Single-bit reads and edits of a byte.
use vstd::prelude::*;

verus! {

/// Whether bit `i` of `b` is set.
pub open spec fn bit_of(b: u8, i: u8) -> bool {
    (b >> i) & 1u8 == 1u8
}

/// `b` with bit `i` cleared and then set to the negation of `shown`, the
/// value that the bit's control displayed when it was pressed.
pub open spec fn edited(b: u8, i: u8, shown: bool) -> u8 {
    (b & !(1u8 << i)) | ((if shown { 0u8 } else { 1u8 }) << i)
}

/// Reads bit `i` of `b`.
pub fn read_bit(b: u8, i: u8) -> (r: bool)
    requires
        i < 8,
    ensures
        r == bit_of(b, i),
{
    (b >> i) & 1u8 == 1u8
}

/// Flips bit `bit` of `byte` by its displayed value: the bit becomes
/// `!shown`, every other bit stays as it was.
pub fn edit_bit(byte: u8, bit: u8, shown: bool) -> (r: u8)
    requires
        bit < 8,
    ensures
        r == edited(byte, bit, shown),
        bit_of(r, bit) == !shown,
        forall|j: u8| j < 8 && j != bit ==> bit_of(r, j) == bit_of(byte, j),
{
    let v: u8 = if shown { 0 } else { 1 };
    let r = (byte & !(1u8 << bit)) | (v << bit);
    proof {
        lemma_edit_sets_bit(byte, bit, shown);
        assert forall|j: u8| j < 8 && j != bit implies bit_of(r, j) == bit_of(byte, j) by {
            lemma_edit_keeps_bit(byte, bit, shown, j);
        }
    }
    r
}

proof fn lemma_edit_sets_bit(b: u8, i: u8, shown: bool)
    requires
        i < 8,
    ensures
        bit_of(edited(b, i, shown), i) == !shown,
{
    if shown {
        assert(((b & !(1u8 << i)) | (0u8 << i)) >> i & 1u8 == 0u8) by (bit_vector)
            requires
                i < 8,
        ;
    } else {
        assert(((b & !(1u8 << i)) | (1u8 << i)) >> i & 1u8 == 1u8) by (bit_vector)
            requires
                i < 8,
        ;
    }
}

proof fn lemma_edit_keeps_bit(b: u8, i: u8, shown: bool, j: u8)
    requires
        i < 8,
        j < 8,
        j != i,
    ensures
        bit_of(edited(b, i, shown), j) == bit_of(b, j),
{
    let v: u8 = if shown { 0u8 } else { 1u8 };
    assert(((b & !(1u8 << i)) | (v << i)) >> j & 1u8 == b >> j & 1u8) by (bit_vector)
        requires
            i < 8,
            j < 8,
            j != i,
            v <= 1,
    ;
}

/// Pressing a bit's control twice, each time with the value that it then
/// displayed, gives back the byte it started from.
pub proof fn lemma_toggle_twice(b: u8, i: u8)
    requires
        i < 8,
    ensures
        edited(edited(b, i, bit_of(b, i)), i, bit_of(edited(b, i, bit_of(b, i)), i)) == b,
{
    lemma_edit_sets_bit(b, i, bit_of(b, i));
    let once = edited(b, i, bit_of(b, i));
    let v1: u8 = if bit_of(b, i) { 0u8 } else { 1u8 };
    let v2: u8 = if bit_of(once, i) { 0u8 } else { 1u8 };
    assert(v2 == (b >> i) & 1u8) by (bit_vector)
        requires
            i < 8,
            v1 == (if (b >> i) & 1u8 == 1u8 { 0u8 } else { 1u8 }),
            v2 == (if (((b & !(1u8 << i)) | (v1 << i)) >> i) & 1u8 == 1u8 { 0u8 } else { 1u8 }),
    ;
    assert((((b & !(1u8 << i)) | (v1 << i)) & !(1u8 << i)) | (((b >> i) & 1u8) << i) == b)
        by (bit_vector)
        requires
            i < 8,
            v1 <= 1,
    ;
}

/// Editing bit `i` of a byte leaves every other bit of it as it was.
pub proof fn lemma_edit_keeps_other_bits(b: u8, i: u8, shown: bool)
    requires
        i < 8,
    ensures
        edited(b, i, shown) & !(1u8 << i) == b & !(1u8 << i),
{
    let v: u8 = if shown { 0u8 } else { 1u8 };
    assert(((b & !(1u8 << i)) | (v << i)) & !(1u8 << i) == b & !(1u8 << i)) by (bit_vector)
        requires
            i < 8,
            v <= 1,
    ;
}

} // verus!
