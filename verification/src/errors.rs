//! The two closed families of validation errors and their messages.

use crate::decimal::{decimal, push_decimal};
use crate::options::{
    FRI_MAX_FOLDING_FACTOR, FRI_MAX_REMAINDER_DEGREE, FRI_MIN_FOLDING_FACTOR, MAX_BLOWUP_FACTOR,
    MAX_GRINDING_FACTOR, MAX_NUM_QUERIES, MIN_BLOWUP_FACTOR,
};
use vstd::prelude::*;

verus! {

/// A mismatch between an assertion and the shape of the execution trace it
/// is placed against. Where two numbers are carried, the first is what the
/// assertion needs and the second is what the trace has.
#[derive(Debug, PartialEq, Eq, Structural)]
pub enum AssertionError {
    /// The assertion names a column that the trace does not have.
    TraceWidthTooShort(usize, usize),
    /// The number of rows of the trace is not a power of two.
    TraceLengthNotPowerOfTwo(usize),
    /// The assertion names a step that the trace does not reach.
    TraceLengthTooShort(usize, usize),
    /// The assertion spans a whole trace of one length, and the trace has
    /// another.
    TraceLengthNotExact(usize, usize),
}

impl AssertionError {
    /// The text of the diagnostic.
    pub open spec fn message(self) -> Seq<char> {
        match self {
            AssertionError::TraceWidthTooShort(expected, actual) => {
                "expected trace width to be at least "@ + decimal(expected as nat)
                    + ", but was "@ + decimal(actual as nat)
            },
            AssertionError::TraceLengthNotPowerOfTwo(actual) => {
                "expected trace length to be a power of two, but was "@ + decimal(actual as nat)
            },
            AssertionError::TraceLengthTooShort(expected, actual) => {
                "expected trace length to be at least "@ + decimal(expected as nat)
                    + ", but was "@ + decimal(actual as nat)
            },
            AssertionError::TraceLengthNotExact(expected, actual) => {
                "expected trace length to be exactly "@ + decimal(expected as nat)
                    + ", but was "@ + decimal(actual as nat)
            },
        }
    }

    /// Writes the diagnostic out.
    pub fn to_string(&self) -> (text: String)
        ensures
            text@ == self.message(),
    {
        match self {
            AssertionError::TraceWidthTooShort(expected, actual) => {
                expected_but_was("expected trace width to be at least ", *expected, *actual)
            },
            AssertionError::TraceLengthNotPowerOfTwo(actual) => {
                let mut text = String::from_str(
                    "expected trace length to be a power of two, but was ",
                );
                push_decimal(&mut text, *actual as u64);
                text
            },
            AssertionError::TraceLengthTooShort(expected, actual) => {
                expected_but_was("expected trace length to be at least ", *expected, *actual)
            },
            AssertionError::TraceLengthNotExact(expected, actual) => {
                expected_but_was("expected trace length to be exactly ", *expected, *actual)
            },
        }
    }
}

/// `lead`, the number expected, `", but was "` and the number found.
fn expected_but_was(lead: &str, expected: usize, actual: usize) -> (text: String)
    ensures
        text@ == lead@ + decimal(expected as nat) + ", but was "@ + decimal(actual as nat),
{
    let mut text = String::from_str(lead);
    push_decimal(&mut text, expected as u64);
    text.append(", but was ");
    push_decimal(&mut text, actual as u64);
    text
}

/// A proof parameter outside its bounds, with the offending value.
#[derive(Clone, Copy, Debug, PartialEq, Eq, Structural)]
pub enum ProofError {
    /// The number of queries is zero or not below its limit.
    QueriesNumber(usize),
    /// The blowup factor is not a power of two or outside its range.
    BlowupFactor(usize),
    /// The grinding factor is above its limit.
    GrindingFactor(u32),
    /// The FRI folding factor is not a power of two or outside its range.
    FoldingFactor(usize),
    /// The FRI remainder degree is not one less than a power of two or is
    /// above its limit.
    FriRemainder(usize),
}

impl ProofError {
    /// The text of the diagnostic.
    pub open spec fn message(self) -> Seq<char> {
        match self {
            ProofError::QueriesNumber(num_queries) => {
                "Number of queries must be greater than 0 and smaller than "@ + decimal(
                    MAX_NUM_QUERIES as nat,
                ) + ", but "@ + decimal(num_queries as nat) + " was found."@
            },
            ProofError::BlowupFactor(blowup_factor) => {
                "Blowup factor must be a power of 2, cannot be smaller than "@ + decimal(
                    MIN_BLOWUP_FACTOR as nat,
                ) + " and greater than "@ + decimal(MAX_BLOWUP_FACTOR as nat) + ", but "@
                    + decimal(blowup_factor as nat) + " was found."@
            },
            ProofError::GrindingFactor(grinding_factor) => {
                "Grinding factor cannot be greater than "@ + decimal(MAX_GRINDING_FACTOR as nat)
                    + ", but "@ + decimal(grinding_factor as nat) + " was found."@
            },
            ProofError::FoldingFactor(fri_folding_factor) => {
                "FRI folding factor must be a power of 2, cannot be smaller than "@ + decimal(
                    FRI_MIN_FOLDING_FACTOR as nat,
                ) + " and greater than "@ + decimal(FRI_MAX_FOLDING_FACTOR as nat) + ", but "@
                    + decimal(fri_folding_factor as nat) + " was found."@
            },
            ProofError::FriRemainder(fri_remainder_max_degree) => {
                "FRI polynomial remainder degree must be one less than a power of two and cannot be greater than "@
                    + decimal(FRI_MAX_REMAINDER_DEGREE as nat) + ", but "@ + decimal(
                    fri_remainder_max_degree as nat,
                ) + " was found."@
            },
        }
    }

    /// Writes the diagnostic out.
    pub fn to_string(&self) -> (text: String)
        ensures
            text@ == self.message(),
    {
        match self {
            ProofError::QueriesNumber(num_queries) => {
                let mut text = String::from_str(
                    "Number of queries must be greater than 0 and smaller than ",
                );
                push_decimal(&mut text, MAX_NUM_QUERIES as u64);
                but_was_found(text, *num_queries as u64)
            },
            ProofError::BlowupFactor(blowup_factor) => {
                let mut text = String::from_str(
                    "Blowup factor must be a power of 2, cannot be smaller than ",
                );
                push_decimal(&mut text, MIN_BLOWUP_FACTOR as u64);
                text.append(" and greater than ");
                push_decimal(&mut text, MAX_BLOWUP_FACTOR as u64);
                but_was_found(text, *blowup_factor as u64)
            },
            ProofError::GrindingFactor(grinding_factor) => {
                let mut text = String::from_str("Grinding factor cannot be greater than ");
                push_decimal(&mut text, MAX_GRINDING_FACTOR as u64);
                but_was_found(text, *grinding_factor as u64)
            },
            ProofError::FoldingFactor(fri_folding_factor) => {
                let mut text = String::from_str(
                    "FRI folding factor must be a power of 2, cannot be smaller than ",
                );
                push_decimal(&mut text, FRI_MIN_FOLDING_FACTOR as u64);
                text.append(" and greater than ");
                push_decimal(&mut text, FRI_MAX_FOLDING_FACTOR as u64);
                but_was_found(text, *fri_folding_factor as u64)
            },
            ProofError::FriRemainder(fri_remainder_max_degree) => {
                let mut text = String::from_str(
                    "FRI polynomial remainder degree must be one less than a power of two and cannot be greater than ",
                );
                push_decimal(&mut text, FRI_MAX_REMAINDER_DEGREE as u64);
                but_was_found(text, *fri_remainder_max_degree as u64)
            },
        }
    }
}

/// `lead`, then `", but "`, the value found and `" was found."`.
fn but_was_found(lead: String, found: u64) -> (text: String)
    ensures
        text@ == lead@ + ", but "@ + decimal(found as nat) + " was found."@,
{
    let mut text = lead;
    text.append(", but ");
    push_decimal(&mut text, found);
    text.append(" was found.");
    text
}

} // verus!
