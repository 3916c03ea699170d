use vstd::prelude::*;

verus! {

use crate::errors::MathError;

/// The quotient of `a` by `b`, rounded up.
pub open spec fn div_ceil_spec(a: int, b: int) -> int
    recommends
        b >= 1,
{
    if a % b == 0 {
        a / b
    } else {
        a / b + 1
    }
}

/// Ceiling division.
pub fn div_ceil(a: usize, b: usize) -> (r: usize)
    requires
        b >= 1,
    ensures
        r == div_ceil_spec(a as int, b as int),
{
    let q = a / b;
    let rem = a % b;
    if rem > 0 {
        proof {
            assert(b >= 2);
            assert(q * b + rem == a) by (nonlinear_arith)
                requires
                    b >= 1,
                    q == a as int / b as int,
                    rem == a as int % b as int,
            ;
            assert(q * b >= 2 * q) by (nonlinear_arith)
                requires
                    b >= 2,
                    q >= 0,
            ;
        }
        q + 1
    } else {
        q
    }
}

/// Exact division: the quotient when `b` divides `a`, an error otherwise.
pub fn safe_div_usize(a: usize, b: usize) -> (r: Result<usize, MathError>)
    ensures
        match r {
            Ok(q) => b >= 1 && a as int % b as int == 0 && q == a as int / b as int,
            Err(e) => if b == 0 {
                e == MathError::DividedByZero
            } else {
                a as int % b as int != 0 && e == MathError::SafeDivFailUsize(a, b)
            },
        },
{
    if b == 0 {
        return Err(MathError::DividedByZero);
    }
    if a % b != 0 {
        return Err(MathError::SafeDivFailUsize(a, b));
    }
    Ok(a / b)
}

} // verus!
