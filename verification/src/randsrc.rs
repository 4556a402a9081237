//! The random source. Entry synthesis draws raw machine words from
//! rand's thread-local generator; everything done with a draw is
//! verified for every value it may take.

use vstd::prelude::*;

verus! {

/// Relies on `rand::random`: a draw from the thread-local generator.
/// Nothing can be promised of a random value.
pub assume_specification<T>[ rand::random::<T> ]() -> (r: T)
    where
        rand::distr::StandardUniform: rand::distr::Distribution<T>,
;

} // verus!
