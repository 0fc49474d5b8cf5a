use vstd::prelude::*;

verus! {

/// `value` held within the range of `i32`.
pub open spec fn clamp_i32(value: int) -> int {
    if value < i32::MIN {
        i32::MIN as int
    } else if value > i32::MAX {
        i32::MAX as int
    } else {
        value
    }
}

/// `value` held within the range of `i64`.
pub open spec fn clamp_i64(value: int) -> int {
    if value < i64::MIN {
        i64::MIN as int
    } else if value > i64::MAX {
        i64::MAX as int
    } else {
        value
    }
}

/// Half of `value`, rounded towards zero.
pub open spec fn half_toward_zero(value: int) -> int {
    if value >= 0 {
        value / 2
    } else {
        -((-value) / 2)
    }
}

/// Half of `value`, rounded towards zero.
pub fn halve(value: i32) -> (half: i32)
    ensures
        half == half_toward_zero(value as int),
{
    if value >= 0 {
        value / 2
    } else {
        let size: i64 = -(value as i64);
        let half: i64 = size / 2;
        (-half) as i32
    }
}

/// `value` as an `i32`, held at the bounds of the type.
pub fn to_i32_clamped(value: i64) -> (r: i32)
    ensures
        r == clamp_i32(value as int),
{
    if value < i32::MIN as i64 {
        i32::MIN
    } else if value > i32::MAX as i64 {
        i32::MAX
    } else {
        value as i32
    }
}

/// The sum of two numbers, held at the bounds of `i32`.
pub fn add_clamped(a: i32, b: i32) -> (r: i32)
    ensures
        r == clamp_i32(a + b),
{
    to_i32_clamped(a as i64 + b as i64)
}

/// The difference of two numbers, held at the bounds of `i32`.
pub fn sub_clamped(a: i32, b: i32) -> (r: i32)
    ensures
        r == clamp_i32(a - b),
{
    to_i32_clamped(a as i64 - b as i64)
}

/// The sum of two numbers, held at the bounds of `i64`.
pub fn add_clamped_i64(a: i64, b: i64) -> (r: i64)
    ensures
        r == clamp_i64(a + b),
{
    let sum: i128 = a as i128 + b as i128;
    if sum < i64::MIN as i128 {
        i64::MIN
    } else if sum > i64::MAX as i128 {
        i64::MAX
    } else {
        sum as i64
    }
}

} // verus!
