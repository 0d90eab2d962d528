//! Exact fractions as the media library hands them out.

use vstd::prelude::*;

verus! {

/// An exact fraction: a numerator and a denominator, both signed.
///
/// No invariant is attached: the denominator may be zero and the pair is
/// never reduced.
#[derive(Clone, Copy, Debug, PartialEq, Eq, Structural)]
pub struct Rational {
    pub num: i32,
    pub den: i32,
}

} // verus!
