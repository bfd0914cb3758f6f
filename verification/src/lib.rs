use vstd::prelude::*;

verus! {

/// The sum of `a` and `b` under two's-complement 32-bit wraparound:
/// the exact sum, brought back into the signed 32-bit range by adding
/// or subtracting 2^32 when it falls outside.
pub open spec fn wrapped_sum(a: int, b: int) -> int {
    if a + b > i32::MAX {
        a + b - 0x1_0000_0000
    } else if a + b < i32::MIN {
        a + b + 0x1_0000_0000
    } else {
        a + b
    }
}

/// Adds two signed 32-bit integers with wraparound on overflow:
/// no check, no saturation, no error.
pub fn add(a: i32, b: i32) -> (r: i32)
    ensures
        r == wrapped_sum(a as int, b as int),
{
    a.wrapping_add(b)
}

/// Tells whether a signed 32-bit integer is exactly 42.
pub fn is_answer_forty_two(x: i32) -> (r: bool)
    ensures
        r == (x == 42),
{
    x == 42
}

/// A wrapped sum is the exact sum reduced modulo 2^32, read back as a
/// signed two's-complement value: residues at or above 2^31 stand for
/// negative numbers.
pub proof fn lemma_wrapped_sum_is_mod(a: i32, b: i32)
    ensures
        wrapped_sum(a as int, b as int) == (if (a + b) % 0x1_0000_0000 >= 0x8000_0000 {
            (a + b) % 0x1_0000_0000 - 0x1_0000_0000
        } else {
            (a + b) % 0x1_0000_0000
        }),
{
}

/// Addition with wraparound is commutative.
pub proof fn lemma_add_commutative(a: i32, b: i32)
    ensures
        wrapped_sum(a as int, b as int) == wrapped_sum(b as int, a as int),
{
}

/// Zero is the identity of addition with wraparound.
pub proof fn lemma_add_identity(a: i32)
    ensures
        wrapped_sum(a as int, 0) == a as int,
{
}

} // verus!
