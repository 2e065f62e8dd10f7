//! The example: the claim that a multiplicative Fibonacci sequence ends in
//! a given term, set up for a proving engine.
//!
//! The engine is not part of this crate. The example says what the engine
//! is asked to prove and against what it is asked to verify the proof;
//! whoever holds the engine carries the questions to it.

use crate::errors::ProofError;
use crate::options::ProofOptions;
use crate::power_of_two::power_of_two;
use vstd::prelude::*;

verus! {

/// The hash functions that an engine may offer. An example hands the
/// choice on to the engine; [`get_example`] makes no example for one that
/// the example cannot be run with.
#[allow(non_camel_case_types)]
#[derive(Clone, Copy, Debug, PartialEq, Eq, Structural)]
pub enum HashFunction {
    /// BLAKE3 with 192 bits of output.
    Blake3_192,
    /// BLAKE3 with 256 bits of output.
    Blake3_256,
    /// SHA-3 with 256 bits of output.
    Sha3_256,
    /// Rescue Prime over a 64-bit field, with 256 bits of output.
    Rp64_256,
    /// Rescue Prime Jive over a 64-bit field, with 256 bits of output.
    RpJive64_256,
}

impl HashFunction {
    /// The example can be run with this hash function.
    pub open spec fn spec_suits_example(self) -> bool {
        self is Blake3_192 || self is Blake3_256 || self is Sha3_256
    }

    /// Whether the example can be run with this hash function.
    #[verifier::when_used_as_spec(spec_suits_example)]
    pub fn suits_example(self) -> (yes: bool)
        ensures
            yes == self.spec_suits_example(),
    {
        match self {
            HashFunction::Blake3_192 | HashFunction::Blake3_256 | HashFunction::Sha3_256 => true,
            _ => false,
        }
    }
}

/// Why no example was made.
#[derive(Clone, Copy, Debug, PartialEq, Eq, Structural)]
pub enum ExampleError {
    /// The example cannot be run with the hash function chosen.
    UnsupportedHashFunction,
    /// A proof parameter is out of bounds.
    InvalidOptions(ProofError),
}

impl ExampleError {
    /// The text of the diagnostic.
    pub open spec fn message(self) -> Seq<char> {
        match self {
            ExampleError::UnsupportedHashFunction => {
                "The specified hash function cannot be used with this example."@
            },
            ExampleError::InvalidOptions(error) => error.message(),
        }
    }

    /// Writes the diagnostic out.
    pub fn to_string(&self) -> (text: String)
        ensures
            text@ == self.message(),
    {
        match self {
            ExampleError::UnsupportedHashFunction => {
                String::from_str("The specified hash function cannot be used with this example.")
            },
            ExampleError::InvalidOptions(error) => error.to_string(),
        }
    }
}

/// The public input next to `result`: one more, and zero after the largest.
/// It is never `result` itself.
pub open spec fn perturbed(result: u128) -> u128 {
    if result == u128::MAX {
        0
    } else {
        (result + 1) as u128
    }
}

/// What the engine is asked to prove.
#[derive(Clone, Copy, Debug, PartialEq, Eq, Structural)]
pub struct ProvingTask {
    /// The number of terms; the engine builds the trace from it.
    pub sequence_length: usize,
    /// The parameters of the proof. They are within their bounds.
    pub options: ProofOptions,
    /// The hash function to prove with.
    pub hash_fn: HashFunction,
}

/// What the engine is asked to verify a proof against.
#[derive(Debug, PartialEq, Eq)]
pub struct VerificationTask {
    /// The claimed last term of the sequence.
    pub public_input: u128,
    /// The parameter sets that the verifier takes.
    pub acceptable_options: Vec<ProofOptions>,
    /// The hash function to verify with.
    pub hash_fn: HashFunction,
}

/// What an example holds.
pub struct ExampleView {
    /// The parameters of the proof.
    pub options: ProofOptions,
    /// The number of terms of the sequence.
    pub sequence_length: nat,
    /// The last term of the sequence: the public input of the proof.
    pub result: u128,
    /// The hash function chosen.
    pub hash_fn: HashFunction,
}

impl ExampleView {
    /// The parameters are within their bounds and the number of terms is a
    /// power of two.
    pub open spec fn wf(self) -> bool {
        &&& self.options.is_valid()
        &&& power_of_two(self.sequence_length as int)
    }
}

/// The claim that `result` is the last of the first `sequence_length`
/// terms of the multiplicative Fibonacci sequence, set up to be proved with
/// given parameters and a given hash function. Nothing in it changes once
/// it is made.
#[derive(Clone, Copy, Debug, PartialEq, Eq, Structural)]
pub struct MulFib2Example {
    options: ProofOptions,
    sequence_length: usize,
    result: u128,
    hash_fn: HashFunction,
}

impl View for MulFib2Example {
    type V = ExampleView;

    closed spec fn view(&self) -> ExampleView {
        ExampleView {
            options: self.options,
            sequence_length: self.sequence_length as nat,
            result: self.result,
            hash_fn: self.hash_fn,
        }
    }
}

impl MulFib2Example {
    #[verifier::type_invariant]
    spec fn well_formed(self) -> bool {
        self@.wf()
    }

    /// Sets the example up. `sequence_length` must be a power of two: that
    /// is not an error to recover from but a condition of the call. The
    /// parameters are validated, and the first one out of bounds is
    /// reported. `result` is the last term of the sequence, as whoever owns
    /// the arithmetic has computed it.
    pub fn new(
        sequence_length: usize,
        options: ProofOptions,
        hash_fn: HashFunction,
        result: u128,
    ) -> (made: Result<MulFib2Example, ProofError>)
        requires
            power_of_two(sequence_length as int),
        ensures
            made is Ok <==> options.is_valid(),
            made is Err ==> options.first_violation() == Some(made->Err_0),
            made is Ok ==> made->Ok_0@ == (ExampleView {
                options,
                sequence_length: sequence_length as nat,
                result,
                hash_fn,
            }),
    {
        match options.validate() {
            Err(error) => Err(error),
            Ok(()) => Ok(MulFib2Example { options, sequence_length, result, hash_fn }),
        }
    }

    /// The parameters of the proof.
    pub fn options(&self) -> (options: ProofOptions)
        ensures
            options == self@.options,
            options.is_valid(),
    {
        proof {
            use_type_invariant(self);
        }
        self.options
    }

    /// The number of terms of the sequence.
    pub fn sequence_length(&self) -> (sequence_length: usize)
        ensures
            sequence_length == self@.sequence_length,
            power_of_two(sequence_length as int),
    {
        proof {
            use_type_invariant(self);
        }
        self.sequence_length
    }

    /// The last term of the sequence.
    pub fn result(&self) -> (result: u128)
        ensures
            result == self@.result,
    {
        self.result
    }

    /// The hash function chosen.
    pub fn hash_fn(&self) -> (hash_fn: HashFunction)
        ensures
            hash_fn == self@.hash_fn,
    {
        self.hash_fn
    }

    /// What the engine is asked to prove: the trace is built from the
    /// number of terms, and the proof is made with the parameters that were
    /// validated when the example was set up.
    pub fn prove(&self) -> (task: ProvingTask)
        ensures
            self@.wf(),
            task == (ProvingTask {
                sequence_length: self@.sequence_length as usize,
                options: self@.options,
                hash_fn: self@.hash_fn,
            }),
            task.options.is_valid(),
            power_of_two(task.sequence_length as int),
    {
        proof {
            use_type_invariant(self);
        }
        ProvingTask {
            sequence_length: self.sequence_length,
            options: self.options,
            hash_fn: self.hash_fn,
        }
    }

    /// What the engine is asked to verify a proof against: the result, and
    /// as the one acceptable parameter set the one that the proof itself
    /// declares, `proof_options`, whoever made the proof.
    pub fn verify(&self, proof_options: ProofOptions) -> (task: VerificationTask)
        ensures
            task.public_input == self@.result,
            task.acceptable_options@ == seq![proof_options],
            task.hash_fn == self@.hash_fn,
    {
        VerificationTask {
            public_input: self.result,
            acceptable_options: only(proof_options),
            hash_fn: self.hash_fn,
        }
    }

    /// As [`MulFib2Example::verify`], but against the public input next to
    /// the result. A sound engine accepts no proof against it.
    pub fn verify_with_wrong_inputs(&self, proof_options: ProofOptions) -> (task: VerificationTask)
        ensures
            task.public_input == perturbed(self@.result),
            task.public_input != self@.result,
            task.acceptable_options@ == seq![proof_options],
            task.hash_fn == self@.hash_fn,
    {
        VerificationTask {
            public_input: self.result.wrapping_add(1),
            acceptable_options: only(proof_options),
            hash_fn: self.hash_fn,
        }
    }
}

/// The set of acceptable parameters that holds `options` and nothing else.
fn only(options: ProofOptions) -> (set: Vec<ProofOptions>)
    ensures
        set@ == seq![options],
{
    let mut set: Vec<ProofOptions> = Vec::new();
    set.push(options);
    assert(set@ =~= seq![options]);
    set
}

/// Makes the example for the hash function chosen. Three hash functions
/// suit it; with another, no example is made, whatever the other arguments
/// are. With one that suits, `sequence_length` must be a power of two, and
/// the parameters are validated as in [`MulFib2Example::new`].
pub fn get_example(
    options: ProofOptions,
    hash_fn: HashFunction,
    sequence_length: usize,
    result: u128,
) -> (made: Result<MulFib2Example, ExampleError>)
    requires
        hash_fn.suits_example() ==> power_of_two(sequence_length as int),
    ensures
        made is Ok <==> hash_fn.suits_example() && options.is_valid(),
        !hash_fn.suits_example() ==> made == Err::<MulFib2Example, ExampleError>(
            ExampleError::UnsupportedHashFunction,
        ),
        hash_fn.suits_example() && !options.is_valid() ==> options.first_violation() is Some
            && made == Err::<MulFib2Example, ExampleError>(
            ExampleError::InvalidOptions(options.first_violation()->Some_0),
        ),
        made is Ok ==> made->Ok_0@ == (ExampleView {
            options,
            sequence_length: sequence_length as nat,
            result,
            hash_fn,
        }),
{
    if !hash_fn.suits_example() {
        return Err(ExampleError::UnsupportedHashFunction);
    }
    match MulFib2Example::new(sequence_length, options, hash_fn, result) {
        Ok(example) => Ok(example),
        Err(error) => Err(ExampleError::InvalidOptions(error)),
    }
}

} // verus!
