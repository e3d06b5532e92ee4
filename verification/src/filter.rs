//! The kernels of resampling, and the clamp.

use core::cmp::Ordering;
use vstd::prelude::*;
use vstd::std_specs::cmp::PartialOrdSpec;

verus! {

/// The kernels that an image can be resampled with.
#[derive(Clone, Copy, Debug, PartialEq, Eq, Structural)]
pub enum FilterType {
    /// Nearest neighbour: the box kernel, which weighs every sample alike.
    Nearest,
    /// The Lanczos kernel with a window of three samples to each side.
    Lanczos3,
}

impl FilterType {
    /// How far the kernel reaches to each side of a sample, in samples of
    /// the coarser of the two images.
    pub open spec fn reach(self) -> u32 {
        match self {
            FilterType::Nearest => 0,
            FilterType::Lanczos3 => 3,
        }
    }

    /// How far the kernel reaches to each side of a sample.
    pub fn support(self) -> (reach: u32)
        ensures
            reach == self.reach(),
    {
        match self {
            FilterType::Nearest => 0,
            FilterType::Lanczos3 => 3,
        }
    }
}

/// `a`, or the nearer bound where `a` lies below `min` or above `max`. A
/// value that compares with neither bound, as a number that is none does,
/// is handed back as it is.
pub open spec fn clamped<N: PartialOrd>(a: N, min: N, max: N) -> N {
    if a.partial_cmp_spec(&min) == Some(Ordering::Less) {
        min
    } else if a.partial_cmp_spec(&max) == Some(Ordering::Greater) {
        max
    } else {
        a
    }
}

/// Holds `a` between `min` and `max`.
pub fn clamp<N>(a: N, min: N, max: N) -> (held: N) where N: PartialOrd
    ensures
        N::obeys_partial_cmp_spec() ==> held == clamped(a, min, max),
        held == a || held == min || held == max,
{
    if a < min {
        min
    } else if a > max {
        max
    } else {
        a
    }
}

} // verus!
