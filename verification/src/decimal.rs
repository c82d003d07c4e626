//! Exact decimal arithmetic on money, carried out by `rust_decimal`.
//!
//! A decimal number is written here as a pair of a mantissa and a scale and
//! stands for `mantissa / 10^scale`.

use rust_decimal::Decimal;
use vstd::arithmetic::power::pow;
use vstd::prelude::*;

verus! {

/// The largest scale that a decimal number can have.
pub const MAX_SCALE: u32 = 28;

/// The largest absolute value that a mantissa can have: `2^96 - 1`.
pub const MAX_MANTISSA: i128 = 0xFFFF_FFFF_FFFF_FFFF_FFFF_FFFF;

/// Can `rust_decimal` hold `mantissa / 10^scale`?
pub open spec fn representable(mantissa: i128, scale: u32) -> bool {
    -MAX_MANTISSA <= mantissa <= MAX_MANTISSA && scale <= MAX_SCALE
}

/// `m / d` rounded to the nearest integer, a tie going to the even neighbour.
pub open spec fn round_half_even(m: int, d: int) -> int
    recommends
        d > 0,
{
    let a = if m < 0 {
        -m
    } else {
        m
    };
    let q = a / d;
    let r = a % d;
    let v = if 2 * r > d || (2 * r == d && q % 2 == 1) {
        q + 1
    } else {
        q
    };
    if m < 0 {
        -v
    } else {
        v
    }
}

/// The product that `rust_decimal` computes for two decimal numbers, as mantissa
/// and scale, or `None` where it reports an overflow. Where the exact product
/// needs more than 96 bits the crate rounds it to fewer decimal places.
pub uninterp spec fn decimal_product(am: i128, asc: u32, bm: i128, bsc: u32) -> Option<(i128, u32)>;

/// Calls `Decimal::checked_mul` on `am / 10^asc` and `bm / 10^bsc`.
/// A product with a zero factor is the plain zero. A product of non-zero
/// factors that fits in 96 bits, with no more than 28 decimal places, is exact.
#[verifier::external_body]
pub(crate) fn decimal_mul(am: i128, asc: u32, bm: i128, bsc: u32) -> (r: Option<(i128, u32)>)
    requires
        representable(am, asc),
        representable(bm, bsc),
    ensures
        r == decimal_product(am, asc, bm, bsc),
        r matches Some(p) ==> representable(p.0, p.1),
        am == 0 || bm == 0 ==> r == Some((0i128, 0u32)),
        am != 0 && bm != 0 && asc + bsc <= MAX_SCALE && -MAX_MANTISSA <= am * bm <= MAX_MANTISSA
            ==> r == Some(((am * bm) as i128, (asc + bsc) as u32)),
{
    let a = Decimal::from_i128_with_scale(am, asc);
    let b = Decimal::from_i128_with_scale(bm, bsc);
    match a.checked_mul(b) {
        Some(d) => Some((d.mantissa(), d.scale())),
        None => None,
    }
}

/// Calls `Decimal::round` on `m / 10^s`: the nearest whole number, by banker's
/// rounding (a tie goes to the even neighbour), returned as an integer.
#[verifier::external_body]
pub(crate) fn decimal_round(m: i128, s: u32) -> (r: i128)
    requires
        representable(m, s),
    ensures
        r == round_half_even(m as int, pow(10, s as nat)),
{
    Decimal::from_i128_with_scale(m, s).round().mantissa()
}

/// A whole number as an amount of money: `None` if it does not fit in 64 bits.
pub open spec fn whole_amount(whole: int) -> Option<i64> {
    if i64::MIN <= whole <= i64::MAX {
        Some(whole as i64)
    } else {
        None
    }
}

/// The whole amount that a product stands for: the product rounded to the
/// nearest integer, if there is a product and the integer fits in 64 bits.
pub open spec fn rounded_amount(product: Option<(i128, u32)>) -> Option<i64> {
    match product {
        None => None,
        Some(p) => whole_amount(round_half_even(p.0 as int, pow(10, p.1 as nat))),
    }
}

/// Rounds a product to a whole amount of money.
pub fn amount_from_product(product: Option<(i128, u32)>) -> (r: Option<i64>)
    requires
        product matches Some(p) ==> representable(p.0, p.1),
    ensures
        r == rounded_amount(product),
{
    match product {
        None => None,
        Some(p) => {
            let whole = decimal_round(p.0, p.1);
            if whole < -0x8000_0000_0000_0000i128 || whole > 0x7FFF_FFFF_FFFF_FFFFi128 {
                None
            } else {
                Some(whole as i64)
            }
        },
    }
}

/// Is the product of `amount` and `mantissa / 10^scale` computed exactly?
/// It is where the product of `amount` and the mantissa fits in 96 bits.
pub open spec fn is_exact(amount: i64, mantissa: i128, scale: u32) -> bool {
    -MAX_MANTISSA <= amount * mantissa <= MAX_MANTISSA
}

/// The part `mantissa / 10^scale` of `amount`, as a whole amount of money:
/// `amount * mantissa / 10^scale`, rounded to the nearest integer with a tie
/// going to the even neighbour, where the product is computed exactly; what
/// `rust_decimal` makes of the product where it is not. `None` if the product
/// overflows or the result does not fit in 64 bits.
pub open spec fn share_of(amount: i64, mantissa: i128, scale: u32) -> Option<i64> {
    if is_exact(amount, mantissa, scale) {
        whole_amount(round_half_even(amount * mantissa, pow(10, scale as nat)))
    } else {
        rounded_amount(decimal_product(amount as i128, 0, mantissa, scale))
    }
}

/// Computes the part `mantissa / 10^scale` of `amount`, rounded to a whole amount.
pub fn share_amount(amount: i64, mantissa: i128, scale: u32) -> (r: Option<i64>)
    requires
        representable(mantissa, scale),
    ensures
        r == share_of(amount, mantissa, scale),
{
    proof {
        vstd::arithmetic::power::lemma_pow_positive(10, scale as nat);
        vstd::arithmetic::power::lemma_pow0(10);
        if amount == 0 || mantissa == 0 {
            assert(amount * mantissa == 0) by (nonlinear_arith)
                requires
                    amount == 0 || mantissa == 0,
            ;
        } else {
            assert(amount * mantissa != 0) by (nonlinear_arith)
                requires
                    amount != 0,
                    mantissa != 0,
            ;
        }
    }
    amount_from_product(decimal_mul(amount as i128, 0, mantissa, scale))
}

} // verus!
