//! Arithmetic on integer literals.

use crate::decimal::{decimal, labelled};
use vstd::prelude::*;

verus! {

/// The sum of the literals 5 and 5, in signed 32-bit arithmetic.
pub fn integer_sum() -> (sum: i32)
    ensures
        sum == 5 + 5,
        sum == 10,
{
    let sum: i32 = 5 + 5;
    sum
}

/// The sum of [`integer_sum`] behind its label, as it opens a line of
/// results.
pub fn sum_field() -> (field: String)
    ensures
        field@ == "Sum : 10"@,
{
    let field = labelled("Sum : ", integer_sum());
    proof {
        reveal_with_fuel(decimal, 2);
        reveal_strlit("Sum : ");
        reveal_strlit("Sum : 10");
        assert(field@ =~= "Sum : 10"@);
    }
    field
}

} // verus!
