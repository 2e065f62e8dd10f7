//! The security parameters of a proof and their bounds.

use crate::errors::ProofError;
use crate::power_of_two::{is_power_of_two, power_of_two};
use vstd::prelude::*;

verus! {

/// The number of queries must stay below this.
pub const MAX_NUM_QUERIES: usize = 255;

/// The smallest blowup factor.
pub const MIN_BLOWUP_FACTOR: usize = 2;

/// The largest blowup factor.
pub const MAX_BLOWUP_FACTOR: usize = 128;

/// The largest grinding factor.
pub const MAX_GRINDING_FACTOR: u32 = 32;

/// The smallest FRI folding factor.
pub const FRI_MIN_FOLDING_FACTOR: usize = 2;

/// The largest FRI folding factor.
pub const FRI_MAX_FOLDING_FACTOR: usize = 16;

/// The largest degree of the FRI remainder polynomial.
pub const FRI_MAX_REMAINDER_DEGREE: usize = 255;

/// A bundle of protocol parameters. Any combination of numbers can be
/// written down; [`ProofOptions::validate`] tells whether it is usable.
#[derive(Clone, Copy, Debug, PartialEq, Eq, Structural)]
pub struct ProofOptions {
    /// How many queries the verifier makes.
    pub num_queries: usize,
    /// By how much the trace is extended before it is committed to.
    pub blowup_factor: usize,
    /// The proof-of-work difficulty, in bits.
    pub grinding_factor: u32,
    /// By how much each FRI round reduces the degree.
    pub fri_folding_factor: usize,
    /// The largest degree of the polynomial that FRI checks directly.
    pub fri_remainder_max_degree: usize,
}

impl ProofOptions {
    /// More than zero queries, and fewer than the limit.
    pub open spec fn num_queries_in_bounds(self) -> bool {
        0 < self.num_queries < MAX_NUM_QUERIES
    }

    /// The blowup factor is a power of two within its range.
    pub open spec fn blowup_factor_in_bounds(self) -> bool {
        &&& power_of_two(self.blowup_factor as int)
        &&& MIN_BLOWUP_FACTOR <= self.blowup_factor <= MAX_BLOWUP_FACTOR
    }

    /// The grinding factor is no more than its limit.
    pub open spec fn grinding_factor_in_bounds(self) -> bool {
        self.grinding_factor <= MAX_GRINDING_FACTOR
    }

    /// The FRI folding factor is a power of two within its range.
    pub open spec fn fri_folding_factor_in_bounds(self) -> bool {
        &&& power_of_two(self.fri_folding_factor as int)
        &&& FRI_MIN_FOLDING_FACTOR <= self.fri_folding_factor <= FRI_MAX_FOLDING_FACTOR
    }

    /// The FRI remainder degree is `2^k - 1` for some `k` and no more than
    /// its limit.
    pub open spec fn fri_remainder_max_degree_in_bounds(self) -> bool {
        &&& power_of_two(self.fri_remainder_max_degree + 1)
        &&& self.fri_remainder_max_degree <= FRI_MAX_REMAINDER_DEGREE
    }

    /// All five parameters are within their bounds.
    pub open spec fn is_valid(self) -> bool {
        &&& self.num_queries_in_bounds()
        &&& self.blowup_factor_in_bounds()
        &&& self.grinding_factor_in_bounds()
        &&& self.fri_folding_factor_in_bounds()
        &&& self.fri_remainder_max_degree_in_bounds()
    }

    /// The error that stands for the first parameter out of bounds, taking
    /// the parameters in the order of the fields; `None` if there is none.
    pub open spec fn first_violation(self) -> Option<ProofError> {
        if !self.num_queries_in_bounds() {
            Some(ProofError::QueriesNumber(self.num_queries))
        } else if !self.blowup_factor_in_bounds() {
            Some(ProofError::BlowupFactor(self.blowup_factor))
        } else if !self.grinding_factor_in_bounds() {
            Some(ProofError::GrindingFactor(self.grinding_factor))
        } else if !self.fri_folding_factor_in_bounds() {
            Some(ProofError::FoldingFactor(self.fri_folding_factor))
        } else if !self.fri_remainder_max_degree_in_bounds() {
            Some(ProofError::FriRemainder(self.fri_remainder_max_degree))
        } else {
            None
        }
    }

    /// Checks the parameters in the order of the fields and reports the
    /// first one out of bounds with its value. Nothing is clamped or
    /// corrected.
    pub fn validate(&self) -> (outcome: Result<(), ProofError>)
        ensures
            outcome is Ok <==> self.is_valid(),
            outcome is Err <==> self.first_violation() is Some,
            outcome is Err ==> self.first_violation() == Some(outcome->Err_0),
            !self.num_queries_in_bounds() ==> outcome == Err::<(), ProofError>(
                ProofError::QueriesNumber(self.num_queries),
            ),
            self.num_queries_in_bounds() && !self.blowup_factor_in_bounds() ==> outcome == Err::<
                (),
                ProofError,
            >(ProofError::BlowupFactor(self.blowup_factor)),
            self.num_queries_in_bounds() && self.blowup_factor_in_bounds()
                && !self.grinding_factor_in_bounds() ==> outcome == Err::<(), ProofError>(
                ProofError::GrindingFactor(self.grinding_factor),
            ),
            self.num_queries_in_bounds() && self.blowup_factor_in_bounds()
                && self.grinding_factor_in_bounds() && !self.fri_folding_factor_in_bounds()
                ==> outcome == Err::<(), ProofError>(
                ProofError::FoldingFactor(self.fri_folding_factor),
            ),
            self.num_queries_in_bounds() && self.blowup_factor_in_bounds()
                && self.grinding_factor_in_bounds() && self.fri_folding_factor_in_bounds()
                && !self.fri_remainder_max_degree_in_bounds() ==> outcome == Err::<(), ProofError>(
                ProofError::FriRemainder(self.fri_remainder_max_degree),
            ),
    {
        if self.num_queries == 0 || self.num_queries >= MAX_NUM_QUERIES {
            return Err(ProofError::QueriesNumber(self.num_queries));
        }
        if !is_power_of_two(self.blowup_factor) || self.blowup_factor < MIN_BLOWUP_FACTOR
            || self.blowup_factor > MAX_BLOWUP_FACTOR {
            return Err(ProofError::BlowupFactor(self.blowup_factor));
        }
        if self.grinding_factor > MAX_GRINDING_FACTOR {
            return Err(ProofError::GrindingFactor(self.grinding_factor));
        }
        if !is_power_of_two(self.fri_folding_factor) || self.fri_folding_factor
            < FRI_MIN_FOLDING_FACTOR || self.fri_folding_factor > FRI_MAX_FOLDING_FACTOR {
            return Err(ProofError::FoldingFactor(self.fri_folding_factor));
        }
        if self.fri_remainder_max_degree > FRI_MAX_REMAINDER_DEGREE || !is_power_of_two(
            self.fri_remainder_max_degree + 1,
        ) {
            return Err(ProofError::FriRemainder(self.fri_remainder_max_degree));
        }
        Ok(())
    }
}

} // verus!
