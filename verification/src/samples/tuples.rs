//! Functions that hand back several values at once.

use vstd::prelude::*;

verus! {

/// The absolute value of `value`.
pub open spec fn magnitude(value: int) -> int {
    if value < 0 {
        -value
    } else {
        value
    }
}

/// `quotient` and `remainder` are what dividing `dividend` by `divisor`
/// gives when the quotient is rounded toward zero: they make up the
/// dividend, and the remainder is smaller than the divisor and never of the
/// opposite sign to the dividend.
pub open spec fn divides_toward_zero(
    dividend: int,
    divisor: int,
    quotient: int,
    remainder: int,
) -> bool {
    &&& quotient * divisor + remainder == dividend
    &&& magnitude(remainder) < magnitude(divisor)
    &&& dividend >= 0 ==> remainder >= 0
    &&& dividend <= 0 ==> remainder <= 0
}

/// Sum and product of two numbers.
pub fn calculate(a: i32, b: i32) -> (result: (i32, i32))
    requires
        i32::MIN <= a + b <= i32::MAX,
        i32::MIN <= a * b <= i32::MAX,
    ensures
        result.0 == a + b,
        result.1 == a * b,
{
    (a + b, a * b)
}

/// Name, age and activity flag of the sample user.
pub fn get_user_info() -> (user: (String, u32, bool))
    ensures
        user.0@ == "Bob"@,
        user.1 == 25,
        user.2,
{
    ("Bob".to_owned(), 25, true)
}

/// Quotient and remainder of a division that rounds toward zero.
pub fn divide_with_remainder(dividend: i32, divisor: i32) -> (result: (i32, i32))
    requires
        divisor != 0,
        !(dividend == i32::MIN && divisor == -1),
    ensures
        divides_toward_zero(dividend as int, divisor as int, result.0 as int, result.1 as int),
{
    let quotient = dividend / divisor;
    let remainder = dividend % divisor;
    proof {
        lemma_rounds_toward_zero(dividend as int, divisor as int);
        lemma_quotient_no_larger(dividend as int, divisor as int);
    }
    (quotient, remainder)
}

/// Dividing the magnitude of the dividend and giving the result the
/// dividend's sign is division that rounds toward zero.
proof fn lemma_rounds_toward_zero(dividend: int, divisor: int)
    requires
        divisor != 0,
    ensures
        dividend >= 0 ==> divides_toward_zero(
            dividend,
            divisor,
            dividend / divisor,
            dividend % divisor,
        ),
        dividend < 0 ==> divides_toward_zero(
            dividend,
            divisor,
            -((-dividend) / divisor),
            -((-dividend) % divisor),
        ),
{
    let size = magnitude(dividend);
    let quotient = size / divisor;
    let remainder = size % divisor;
    assert(quotient * divisor + remainder == size && 0 <= remainder && (divisor > 0 ==> remainder
        < divisor) && (divisor < 0 ==> remainder < -divisor)) by (nonlinear_arith)
        requires
            divisor != 0,
            quotient == size / divisor,
            remainder == size % divisor,
    ;
    assert((-quotient) * divisor == -(quotient * divisor)) by (nonlinear_arith);
    assert(0int % divisor == 0) by (nonlinear_arith)
        requires
            divisor != 0,
    ;
}

/// A quotient is no larger in magnitude than the dividend, and no larger than
/// half of it unless the divisor is 1 or -1; its sign follows from the signs
/// of dividend and divisor.
proof fn lemma_quotient_no_larger(dividend: int, divisor: int)
    requires
        divisor != 0,
    ensures
        magnitude(magnitude(dividend) / divisor) <= magnitude(dividend),
        divisor > 0 ==> magnitude(dividend) / divisor >= 0,
        divisor < 0 ==> magnitude(dividend) / divisor <= 0,
        divisor < -1 ==> 2 * magnitude(magnitude(dividend) / divisor) <= magnitude(dividend),
{
    let size = magnitude(dividend);
    let quotient = size / divisor;
    assert((divisor > 0 ==> 0 <= quotient <= size) && (divisor < 0 ==> -size <= quotient <= 0) && (
    divisor < -1 ==> -size <= 2 * quotient)) by (nonlinear_arith)
        requires
            divisor != 0,
            size >= 0,
            quotient == size / divisor,
    ;
}

} // verus!
