use vstd::prelude::*;

verus! {

/// One whole unit of any simulated quantity, in the fixed-point steps that the
/// engine counts in: amounts are whole numbers of thousandths.
pub const UNIT: i64 = 1000;

/// `x`, held to at most `limit`.
pub open spec fn at_most(x: int, limit: int) -> int {
    if x > limit {
        limit
    } else {
        x
    }
}

/// `x` without its sign.
pub open spec fn magnitude(x: int) -> int {
    if x < 0 {
        -x
    } else {
        x
    }
}

/// `x`, held to the range of the amounts that the state can store.
pub open spec fn stored(x: int) -> int {
    if x > i64::MAX {
        i64::MAX as int
    } else if x < i64::MIN {
        i64::MIN as int
    } else {
        x
    }
}

/// The sum of two amounts. A sum beyond what the state can store stays at the
/// end of the range that it left by.
pub fn add_stored(a: i64, b: i64) -> (sum: i64)
    ensures
        sum == stored(a + b),
{
    let wide: i128 = (a as i128) + (b as i128);
    if wide > i64::MAX as i128 {
        i64::MAX
    } else if wide < i64::MIN as i128 {
        i64::MIN
    } else {
        wide as i64
    }
}

/// What remains of one amount when another is taken from it, held to the
/// range that the state can store.
pub fn sub_stored(a: i64, b: i64) -> (rest: i64)
    ensures
        rest == stored(a - b),
{
    let wide: i128 = (a as i128) - (b as i128);
    if wide > i64::MAX as i128 {
        i64::MAX
    } else if wide < i64::MIN as i128 {
        i64::MIN
    } else {
        wide as i64
    }
}

} // verus!
