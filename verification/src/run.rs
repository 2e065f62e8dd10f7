//! The course of a run: one example is set up, proved and verified once,
//! against the right public input or against a wrong one.
//!
//! A run is a state machine. Its driver tells it what has happened outside
//! and is told what to do next: to compute the last term, to have the
//! engine prove or verify, or to report. The run decides; the driver and
//! the engine do the work.

use crate::example::{
    get_example, perturbed, ExampleError, ExampleView, HashFunction, MulFib2Example, ProvingTask,
    VerificationTask,
};
use crate::options::ProofOptions;
use crate::power_of_two::{is_power_of_two, power_of_two};
use vstd::prelude::*;

verus! {

/// Which public input a run verifies its proof against.
#[derive(Clone, Copy, Debug, PartialEq, Eq, Structural)]
pub enum Inputs {
    /// The result of the computation.
    Correct,
    /// The public input next to the result.
    Wrong,
}

/// What the answer of the engine to a verification says about the engine.
#[derive(Clone, Copy, Debug, PartialEq, Eq, Structural)]
pub enum Verdict {
    /// The proof was accepted against the correct input, or refused
    /// against the wrong one.
    AsExpected,
    /// The proof was refused against the correct input: the engine is not
    /// complete.
    CompletenessViolated,
    /// The proof was accepted against the wrong input: the engine is not
    /// sound.
    SoundnessViolated,
}

/// What it means that a proof was `accepted`, or not, against `inputs`.
pub open spec fn verdict(inputs: Inputs, accepted: bool) -> Verdict {
    match inputs {
        Inputs::Correct => if accepted {
            Verdict::AsExpected
        } else {
            Verdict::CompletenessViolated
        },
        Inputs::Wrong => if accepted {
            Verdict::SoundnessViolated
        } else {
            Verdict::AsExpected
        },
    }
}

/// Judges the answer of the engine to a verification against `inputs`.
pub fn judge(inputs: Inputs, accepted: bool) -> (judged: Verdict)
    ensures
        judged == verdict(inputs, accepted),
        judged is AsExpected <==> (accepted <==> inputs is Correct),
{
    match inputs {
        Inputs::Correct => if accepted {
            Verdict::AsExpected
        } else {
            Verdict::CompletenessViolated
        },
        Inputs::Wrong => if accepted {
            Verdict::SoundnessViolated
        } else {
            Verdict::AsExpected
        },
    }
}

/// What a run is asked for.
#[derive(Clone, Copy, Debug, PartialEq, Eq, Structural)]
pub struct Setup {
    /// The parameters of the proof.
    pub options: ProofOptions,
    /// The hash function to prove and verify with.
    pub hash_fn: HashFunction,
    /// The number of terms of the sequence.
    pub sequence_length: usize,
    /// The public input to verify against.
    pub inputs: Inputs,
}

/// Where a run stands.
#[derive(Clone, Copy, Debug, PartialEq, Eq, Structural)]
pub enum Stage {
    /// No example has been set up. Once a setup has been taken, it waits
    /// here for the last term of its sequence.
    Unconstructed { pending: Option<Setup> },
    /// The example is set up and the engine has been asked for a proof.
    Constructed { example: MulFib2Example, inputs: Inputs },
    /// The proof is there and the engine has been asked to verify it.
    Proved { example: MulFib2Example, inputs: Inputs },
    /// The engine has accepted the proof. The run is over.
    Verified { example: MulFib2Example, inputs: Inputs },
    /// The engine has refused the proof. The run is over.
    Rejected { example: MulFib2Example, inputs: Inputs },
}

impl Stage {
    /// How far the run has come: both ends of a run count the same.
    pub open spec fn progress(self) -> nat {
        match self {
            Stage::Unconstructed { pending: None } => 0,
            Stage::Unconstructed { pending: Some(_) } => 1,
            Stage::Constructed { .. } => 2,
            Stage::Proved { .. } => 3,
            Stage::Verified { .. } => 4,
            Stage::Rejected { .. } => 4,
        }
    }

    /// The run is over.
    pub open spec fn is_terminal(self) -> bool {
        self is Verified || self is Rejected
    }

    /// The stage at which every run begins.
    pub fn initial() -> (stage: Stage)
        ensures
            stage == (Stage::Unconstructed { pending: None }),
    {
        Stage::Unconstructed { pending: None }
    }
}

/// What has happened outside the run.
#[derive(Clone, Copy, Debug, PartialEq, Eq, Structural)]
pub enum Event {
    /// A run is asked for.
    Start { setup: Setup },
    /// The last term of the sequence has been computed.
    ResultComputed { result: u128 },
    /// The engine has made a proof, which declares these parameters.
    ProofProduced { options: ProofOptions },
    /// The engine has verified the proof and accepted it.
    ProofAccepted,
    /// The engine has verified the proof and refused it.
    ProofRefused,
}

/// What the driver of a run is to do next.
#[derive(Debug, PartialEq, Eq)]
pub enum Action {
    /// Give the run up as a programming error: the number of terms asked
    /// for is no power of two.
    Abort,
    /// Report that no example was made.
    Fail(ExampleError),
    /// Compute the last of this many terms of the sequence.
    ComputeResult { sequence_length: usize },
    /// Have the engine build the trace and prove it.
    Prove(ProvingTask),
    /// Have the engine verify the proof.
    Verify(VerificationTask),
    /// Report what the verification says about the engine.
    Report(Verdict),
    /// Nothing: the event does not belong to this stage.
    Ignore,
}

/// Why a run with this setup goes no further, if it does not. The hash
/// function is looked at first, then the number of terms, then the
/// parameters, which are looked at in the order of their fields.
pub open spec fn refusal(setup: Setup) -> Option<Action> {
    if !setup.hash_fn.suits_example() {
        Some(Action::Fail(ExampleError::UnsupportedHashFunction))
    } else if !power_of_two(setup.sequence_length as int) {
        Some(Action::Abort)
    } else if setup.options.first_violation() is Some {
        Some(Action::Fail(ExampleError::InvalidOptions(setup.options.first_violation()->Some_0)))
    } else {
        None
    }
}

/// The steps of a run: from `stage`, on `event`, the run goes to `next` and
/// the driver is handed `action`.
///
/// A setup that is refused leaves the run where it was. One that is taken
/// waits for the last term of its sequence; with that the example is made
/// and the engine is asked to prove. The proof is verified against the
/// parameters that it declares, and against the public input that the
/// setup chose. An event out of turn changes nothing.
pub open spec fn transition(stage: Stage, event: Event, next: Stage, action: Action) -> bool {
    match (stage, event) {
        (Stage::Unconstructed { pending: None }, Event::Start { setup }) => {
            if refusal(setup) is Some {
                next == stage && action == refusal(setup)->Some_0
            } else {
                &&& next == (Stage::Unconstructed { pending: Some(setup) })
                &&& action == (Action::ComputeResult { sequence_length: setup.sequence_length })
            }
        },
        (Stage::Unconstructed { pending: Some(setup) }, Event::ResultComputed { result }) => {
            if refusal(setup) is Some {
                next == stage && action == refusal(setup)->Some_0
            } else {
                &&& next matches Stage::Constructed { example, inputs }
                &&& inputs == setup.inputs
                &&& example@ == (ExampleView {
                    options: setup.options,
                    sequence_length: setup.sequence_length as nat,
                    result,
                    hash_fn: setup.hash_fn,
                })
                &&& action == Action::Prove(
                    ProvingTask {
                        sequence_length: setup.sequence_length,
                        options: setup.options,
                        hash_fn: setup.hash_fn,
                    },
                )
            }
        },
        (Stage::Constructed { example, inputs }, Event::ProofProduced { options }) => {
            &&& next == (Stage::Proved { example, inputs })
            &&& action matches Action::Verify(task)
            &&& task.public_input == match inputs {
                Inputs::Correct => example@.result,
                Inputs::Wrong => perturbed(example@.result),
            }
            &&& task.acceptable_options@ == seq![options]
            &&& task.hash_fn == example@.hash_fn
        },
        (Stage::Proved { example, inputs }, Event::ProofAccepted) => {
            &&& next == (Stage::Verified { example, inputs })
            &&& action == Action::Report(verdict(inputs, true))
        },
        (Stage::Proved { example, inputs }, Event::ProofRefused) => {
            &&& next == (Stage::Rejected { example, inputs })
            &&& action == Action::Report(verdict(inputs, false))
        },
        _ => next == stage && action == Action::Ignore,
    }
}

/// Tests a setup.
fn refuse(setup: &Setup) -> (refused: Option<Action>)
    ensures
        refused == refusal(*setup),
{
    if !setup.hash_fn.suits_example() {
        return Some(Action::Fail(ExampleError::UnsupportedHashFunction));
    }
    if !is_power_of_two(setup.sequence_length) {
        return Some(Action::Abort);
    }
    match setup.options.validate() {
        Err(error) => Some(Action::Fail(ExampleError::InvalidOptions(error))),
        Ok(()) => None,
    }
}

/// Takes one step of a run.
pub fn step(stage: Stage, event: Event) -> (taken: (Stage, Action))
    ensures
        transition(stage, event, taken.0, taken.1),
{
    match (stage, event) {
        (Stage::Unconstructed { pending: None }, Event::Start { setup }) => {
            match refuse(&setup) {
                Some(action) => (stage, action),
                None => (
                    Stage::Unconstructed { pending: Some(setup) },
                    Action::ComputeResult { sequence_length: setup.sequence_length },
                ),
            }
        },
        (Stage::Unconstructed { pending: Some(setup) }, Event::ResultComputed { result }) => {
            match refuse(&setup) {
                Some(action) => (stage, action),
                None => {
                    match get_example(setup.options, setup.hash_fn, setup.sequence_length, result) {
                        Err(error) => (stage, Action::Fail(error)),
                        Ok(example) => {
                            let task = example.prove();
                            (
                                Stage::Constructed { example, inputs: setup.inputs },
                                Action::Prove(task),
                            )
                        },
                    }
                },
            }
        },
        (Stage::Constructed { example, inputs }, Event::ProofProduced { options }) => {
            let task = match inputs {
                Inputs::Correct => example.verify(options),
                Inputs::Wrong => example.verify_with_wrong_inputs(options),
            };
            (Stage::Proved { example, inputs }, Action::Verify(task))
        },
        (Stage::Proved { example, inputs }, Event::ProofAccepted) => {
            (Stage::Verified { example, inputs }, Action::Report(judge(inputs, true)))
        },
        (Stage::Proved { example, inputs }, Event::ProofRefused) => {
            (Stage::Rejected { example, inputs }, Action::Report(judge(inputs, false)))
        },
        _ => (stage, Action::Ignore),
    }
}

/// A run never goes back, and once it is over nothing moves it.
pub proof fn lemma_run_only_advances(stage: Stage, event: Event, next: Stage, action: Action)
    requires
        transition(stage, event, next, action),
    ensures
        stage.progress() <= next.progress() <= stage.progress() + 1,
        stage.is_terminal() ==> next == stage && action == Action::Ignore,
{
}

/// The last term is only ever asked for, and the engine is only ever asked
/// to prove, with a hash function that suits the example, a number of
/// terms that is a power of two and parameters within their bounds.
pub proof fn lemma_work_is_asked_for_valid_setups_only(
    stage: Stage,
    event: Event,
    next: Stage,
    action: Action,
)
    requires
        transition(stage, event, next, action),
    ensures
        action is ComputeResult ==> {
            &&& event is Start
            &&& event->setup.hash_fn.suits_example()
            &&& event->setup.options.is_valid()
            &&& power_of_two(event->setup.sequence_length as int)
            &&& action->sequence_length == event->setup.sequence_length
        },
        action is Prove ==> {
            &&& action->Prove_0.hash_fn.suits_example()
            &&& action->Prove_0.options.is_valid()
            &&& power_of_two(action->Prove_0.sequence_length as int)
        },
{
}

/// A run ends refused only when the engine has refused its proof; that is
/// as expected of a run against the wrong input and of no other.
pub proof fn lemma_refusal_is_expected_of_wrong_inputs_only(
    stage: Stage,
    event: Event,
    next: Stage,
    action: Action,
)
    requires
        transition(stage, event, next, action),
        next is Rejected,
        !(stage is Rejected),
    ensures
        stage is Proved,
        event is ProofRefused,
        action is Report,
        action->Report_0 is AsExpected <==> next->Rejected_inputs is Wrong,
{
}

/// The engine answers a verification as a complete and sound engine does
/// for a proof that `result` is the last term and that declares
/// `proof_options`: it accepts the proof exactly against that result and
/// a set of parameters that holds the declared ones.
pub open spec fn answers_faithfully(
    result: u128,
    proof_options: ProofOptions,
    task: VerificationTask,
    answer: Event,
) -> bool {
    if task.public_input == result && task.acceptable_options@.contains(proof_options) {
        answer == Event::ProofAccepted
    } else {
        answer == Event::ProofRefused
    }
}

/// With an engine that makes its proof with the parameters it is handed
/// and answers the verification faithfully, a run whose setup is taken
/// ends as expected: verified against the correct input, and rejected
/// against the wrong one.
pub proof fn lemma_run_with_faithful_engine(
    setup: Setup,
    result: u128,
    pending: Stage,
    first: Action,
    constructed: Stage,
    second: Action,
    proved: Stage,
    third: Action,
    answer: Event,
    last: Stage,
    report: Action,
)
    requires
        transition(Stage::Unconstructed { pending: None }, Event::Start { setup }, pending, first),
        first is ComputeResult,
        transition(pending, Event::ResultComputed { result }, constructed, second),
        second is Prove ==> transition(
            constructed,
            Event::ProofProduced { options: second->Prove_0.options },
            proved,
            third,
        ),
        second is Prove && third is Verify ==> answers_faithfully(
            result,
            second->Prove_0.options,
            third->Verify_0,
            answer,
        ),
        transition(proved, answer, last, report),
    ensures
        second is Prove,
        third is Verify,
        report == Action::Report(Verdict::AsExpected),
        setup.inputs is Correct ==> last is Verified,
        setup.inputs is Wrong ==> last is Rejected,
{
    assert(seq![setup.options][0] == setup.options);
}

} // verus!
