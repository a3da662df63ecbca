//! The executable bitwise primitives of the compression function: the
//! four round functions and the left rotation, each proved equal to its
//! counterpart in the model.
use vstd::prelude::*;

use crate::model;

verus! {

/// Circular left rotation of a 32-bit word by `n` bits, `0 < n < 32`.
pub fn rotate_u32_left(x: u32, n: u32) -> (r: u32)
    requires
        0 < n < 32,
    ensures
        r == model::rotl(x, n),
{
    (x << n) | (x >> (32 - n))
}

/// The first round function, `(x & y) | (!x & z)`.
pub fn f(x: u32, y: u32, z: u32) -> (r: u32)
    ensures
        r == model::f_spec(x, y, z),
{
    (x & y) | (!x & z)
}

/// The second round function, `(x & z) | (y & !z)`.
pub fn g(x: u32, y: u32, z: u32) -> (r: u32)
    ensures
        r == model::g_spec(x, y, z),
{
    (x & z) | (y & !z)
}

/// The third round function, `x ^ y ^ z`.
pub fn h(x: u32, y: u32, z: u32) -> (r: u32)
    ensures
        r == model::h_spec(x, y, z),
{
    x ^ y ^ z
}

/// The fourth round function, `y ^ (x | !z)`.
pub fn i(x: u32, y: u32, z: u32) -> (r: u32)
    ensures
        r == model::i_spec(x, y, z),
{
    y ^ (x | !z)
}

} // verus!
