//! Sum and product of two machine integers.

use vstd::prelude::*;

verus! {

/// Whether the mathematical integer `v` is representable as an `i32`.
pub open spec fn fits_i32(v: int) -> bool {
    i32::MIN <= v <= i32::MAX
}

/// Calculate the sum of two numbers.
///
/// The sum has to be representable; the result is then the exact sum.
pub fn add(a: i32, b: i32) -> (sum: i32)
    requires
        fits_i32(a + b),
    ensures
        sum == a + b,
{
    a + b
}

/// Calculate the product of two numbers.
///
/// The product has to be representable; the result is then the exact product.
pub fn multiply(a: i32, b: i32) -> (product: i32)
    requires
        fits_i32(a * b),
    ensures
        product == a * b,
{
    a * b
}

} // verus!
