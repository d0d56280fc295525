//! Real-valued parameters and scores.
use vstd::prelude::*;

verus! {

/// A binary64 number of IEEE 754, held by its bit pattern.
///
/// The crate never computes with such a number: it carries sampling
/// parameters, scores and log-probabilities between a skill and its host, so
/// the sixty-four bits are all it needs to keep.
#[derive(Clone, Copy, Debug, PartialEq, Eq)]
pub struct Number {
    pub bits: u64,
}

impl Number {
    /// The number with the given bit pattern.
    pub fn from_bits(bits: u64) -> (number: Number)
        ensures
            number.bits == bits,
    {
        Number { bits }
    }

    /// The bit pattern of this number.
    pub fn to_bits(&self) -> (bits: u64)
        ensures
            bits == self.bits,
    {
        self.bits
    }
}

} // verus!
