//! Changes between integer types that keep the bits and not the number.

use vstd::prelude::*;

verus! {

/// The signed number with the same 32 bits.
pub open spec fn signed_32(number: u32) -> int {
    if number < 0x8000_0000 {
        number as int
    } else {
        number - 0x1_0000_0000
    }
}

/// The unsigned number with the same 32 bits.
pub open spec fn unsigned_32(number: i32) -> int {
    if number >= 0 {
        number as int
    } else {
        number + 0x1_0000_0000
    }
}

/// The signed number with the same 64 bits.
pub open spec fn signed_64(number: u64) -> int {
    if number < 0x8000_0000_0000_0000 {
        number as int
    } else {
        number - 0x1_0000_0000_0000_0000
    }
}

/// The unsigned number with the same 64 bits.
pub open spec fn unsigned_64(number: i64) -> int {
    if number >= 0 {
        number as int
    } else {
        number + 0x1_0000_0000_0000_0000
    }
}

/// Numbers with the same bits differ by a multiple of what the bits can count,
/// lie in the range of their type, and are the same number where it is in both.
pub proof fn same_bits_differ_by_a_multiple(short: u32, signed_short: i32, long: u64, signed_long: i64)
    ensures
        i32::MIN <= signed_32(short) <= i32::MAX,
        (signed_32(short) - short) % 0x1_0000_0000 == 0,
        short <= i32::MAX ==> signed_32(short) == short,
        0 <= unsigned_32(signed_short) <= u32::MAX,
        (unsigned_32(signed_short) - signed_short) % 0x1_0000_0000 == 0,
        signed_short >= 0 ==> unsigned_32(signed_short) == signed_short,
        i64::MIN <= signed_64(long) <= i64::MAX,
        (signed_64(long) - long) % 0x1_0000_0000_0000_0000 == 0,
        long <= i64::MAX ==> signed_64(long) == long,
        0 <= unsigned_64(signed_long) <= u64::MAX,
        (unsigned_64(signed_long) - signed_long) % 0x1_0000_0000_0000_0000 == 0,
        signed_long >= 0 ==> unsigned_64(signed_long) == signed_long,
{
}

/// Computes [`signed_32`].
pub(crate) fn to_signed_32(number: u32) -> (result: i32)
    ensures
        result == signed_32(number),
{
    assert(number < 0x8000_0000u32 ==> (number as i32) as int == number as int) by (bit_vector);
    assert(number >= 0x8000_0000u32 ==> (number as i32) as int == number - 0x1_0000_0000)
        by (bit_vector);
    number as i32
}

/// Computes [`unsigned_32`].
pub(crate) fn to_unsigned_32(number: i32) -> (result: u32)
    ensures
        result == unsigned_32(number),
{
    assert(number >= 0i32 ==> (number as u32) as int == number as int) by (bit_vector);
    assert(number < 0i32 ==> (number as u32) as int == number + 0x1_0000_0000) by (bit_vector);
    number as u32
}

/// Computes [`signed_64`].
pub(crate) fn to_signed_64(number: u64) -> (result: i64)
    ensures
        result == signed_64(number),
{
    assert(number < 0x8000_0000_0000_0000u64 ==> (number as i64) as int == number as int)
        by (bit_vector);
    assert(number >= 0x8000_0000_0000_0000u64 ==> (number as i64) as int == number
        - 0x1_0000_0000_0000_0000) by (bit_vector);
    number as i64
}

/// The number that the low 32 bits stand for.
pub(crate) fn low_32(number: u64) -> (result: u32)
    ensures
        result == number % 0x1_0000_0000,
{
    assert(number as u32 == number % 0x1_0000_0000u64) by (bit_vector);
    number as u32
}

} // verus!
