//! Validation of STARK proof parameters and trace shapes, and the
//! decision logic of a prove-then-verify example run.
//!
//! - [`options`]: the security parameters of a proof and their validation.
//! - [`assertions`]: assertions against an execution trace and the shape of
//!   trace that each needs.
//! - [`errors`]: what the two validations report.
//! - [`example`]: an example computation set up for a proving engine.
//! - [`run`]: the course of a run that sets the example up, has it proved
//!   and has the proof verified.
//! - [`power_of_two`], [`decimal`]: the arithmetic underneath.

pub mod assertions;
pub mod decimal;
pub mod errors;
pub mod example;
pub mod options;
pub mod power_of_two;
pub mod run;

pub use assertions::{check, Assertion, AssertionView, MIN_STRIDE_LENGTH};
pub use errors::{AssertionError, ProofError};
pub use example::{
    get_example, ExampleError, ExampleView, HashFunction, MulFib2Example, ProvingTask,
    VerificationTask,
};
pub use options::{
    ProofOptions, FRI_MAX_FOLDING_FACTOR, FRI_MAX_REMAINDER_DEGREE, FRI_MIN_FOLDING_FACTOR,
    MAX_BLOWUP_FACTOR, MAX_GRINDING_FACTOR, MAX_NUM_QUERIES, MIN_BLOWUP_FACTOR,
};
pub use power_of_two::is_power_of_two;
pub use run::{judge, step, Action, Event, Inputs, Setup, Stage, Verdict};
