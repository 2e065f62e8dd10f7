//! Assertions against an execution trace, and the test of whether a trace
//! has the shape that an assertion needs.
//!
//! An assertion pins cells of one column. It comes in three forms: a single
//! cell; one value repeated at every `stride`-th step of the trace, whatever
//! the length of the trace; or a sequence of values laid out at a fixed
//! stride over the whole trace. Only the places matter here, not the
//! values, so an assertion carries the number of its values and no more.

use crate::errors::AssertionError;
use crate::power_of_two::{is_power_of_two, power_of_two};
use vstd::prelude::*;

verus! {

/// The smallest stride of a repeated or sequenced assertion.
pub const MIN_STRIDE_LENGTH: usize = 2;

/// Where an assertion applies.
pub struct AssertionView {
    /// The column of the cells.
    pub column: nat,
    /// The first step at which a cell is pinned.
    pub first_step: nat,
    /// The distance between two pinned steps; zero for a single cell.
    pub stride: nat,
    /// How many values the assertion lays out.
    pub num_values: nat,
}

impl AssertionView {
    /// One cell.
    pub open spec fn is_single(self) -> bool {
        self.stride == 0
    }

    /// One value, repeated along the trace.
    pub open spec fn is_periodic(self) -> bool {
        self.stride != 0 && self.num_values == 1
    }

    /// Several values, spanning the whole trace.
    pub open spec fn is_sequence(self) -> bool {
        self.num_values > 1
    }

    /// The numbers describe one of the three forms, and what the assertion
    /// needs of a trace can be written in a `usize`.
    pub open spec fn wf(self) -> bool {
        &&& self.column < usize::MAX
        &&& if self.stride == 0 {
            &&& self.num_values == 1
            &&& self.first_step < usize::MAX
        } else {
            &&& power_of_two(self.stride as int)
            &&& self.stride >= MIN_STRIDE_LENGTH
            &&& self.first_step < self.stride
            &&& power_of_two(self.num_values as int)
            &&& self.num_values * self.stride <= usize::MAX
        }
    }

    /// The least number of columns of a trace that has the column.
    pub open spec fn required_width(self) -> nat {
        self.column + 1
    }

    /// The least number of rows of a trace that has the first step.
    pub open spec fn required_length(self) -> nat {
        self.first_step + 1
    }

    /// The number of rows that a sequence covers.
    pub open spec fn implied_length(self) -> nat {
        self.num_values * self.stride
    }

    /// How many cells are pinned in a trace of `trace_length` rows.
    pub open spec fn num_steps(self, trace_length: nat) -> nat {
        if self.is_single() {
            1
        } else if self.is_periodic() {
            trace_length / self.stride
        } else {
            self.num_values
        }
    }

    /// The step of the `i`-th pinned cell, counting from zero.
    pub open spec fn step(self, i: nat) -> nat {
        self.first_step + i * self.stride
    }

    /// The length of the trace is what the assertion needs: exactly the
    /// length that a sequence covers, or else enough to reach the first
    /// step.
    pub open spec fn length_suits(self, trace_length: nat) -> bool {
        if self.is_sequence() {
            self.implied_length() == trace_length
        } else {
            self.first_step < trace_length
        }
    }

    /// A trace of this width and length can take the assertion.
    pub open spec fn suits(self, trace_width: nat, trace_length: nat) -> bool {
        &&& self.column < trace_width
        &&& power_of_two(trace_length as int)
        &&& self.length_suits(trace_length)
    }

    /// The error for the length of a trace, if there is one: first that it
    /// is no power of two; then, for a sequence, that it is not the length
    /// covered, and for the other forms, that it does not reach the first
    /// step.
    pub open spec fn length_error(self, trace_length: usize) -> Option<AssertionError> {
        if !power_of_two(trace_length as int) {
            Some(AssertionError::TraceLengthNotPowerOfTwo(trace_length))
        } else if self.is_sequence() {
            if self.implied_length() != trace_length {
                Some(
                    AssertionError::TraceLengthNotExact(
                        self.implied_length() as usize,
                        trace_length,
                    ),
                )
            } else {
                None
            }
        } else if self.first_step >= trace_length {
            Some(AssertionError::TraceLengthTooShort(self.required_length() as usize, trace_length))
        } else {
            None
        }
    }

    /// The error for the width of a trace, if there is one.
    pub open spec fn width_error(self, trace_width: usize) -> Option<AssertionError> {
        if self.column >= trace_width {
            Some(AssertionError::TraceWidthTooShort(self.required_width() as usize, trace_width))
        } else {
            None
        }
    }

    /// The one error reported for a trace: that of its width if there is
    /// one, else that of its length.
    pub open spec fn shape_error(self, trace_width: usize, trace_length: usize) -> Option<
        AssertionError,
    > {
        if self.width_error(trace_width) is Some {
            self.width_error(trace_width)
        } else {
            self.length_error(trace_length)
        }
    }
}

/// An assertion against an execution trace, reduced to the places it pins.
#[derive(Clone, Copy, Debug, PartialEq, Eq, Structural)]
pub struct Assertion {
    column: usize,
    first_step: usize,
    stride: usize,
    num_values: usize,
}

impl View for Assertion {
    type V = AssertionView;

    closed spec fn view(&self) -> AssertionView {
        AssertionView {
            column: self.column as nat,
            first_step: self.first_step as nat,
            stride: self.stride as nat,
            num_values: self.num_values as nat,
        }
    }
}

impl Assertion {
    #[verifier::type_invariant]
    spec fn well_formed(self) -> bool {
        self@.wf()
    }

    /// An assertion on the cell of `column` at `step`. Both numbers must be
    /// below `usize::MAX`, so that the width and the length needed can be
    /// written down.
    pub fn single(column: usize, step: usize) -> (made: Option<Assertion>)
        ensures
            made is Some <==> column < usize::MAX && step < usize::MAX,
            made is Some ==> made->Some_0@ == (AssertionView {
                column: column as nat,
                first_step: step as nat,
                stride: 0,
                num_values: 1,
            }),
            made is Some ==> made->Some_0@.wf(),
    {
        if column < usize::MAX && step < usize::MAX {
            Some(Assertion { column, first_step: step, stride: 0, num_values: 1 })
        } else {
            None
        }
    }

    /// An assertion on the cells of `column` at `first_step` and at every
    /// `stride`-th step after it. The stride must be a power of two, at
    /// least [`MIN_STRIDE_LENGTH`] and above `first_step`.
    pub fn periodic(column: usize, first_step: usize, stride: usize) -> (made: Option<Assertion>)
        ensures
            made is Some <==> column < usize::MAX && power_of_two(stride as int) && stride
                >= MIN_STRIDE_LENGTH && first_step < stride,
            made is Some ==> made->Some_0@ == (AssertionView {
                column: column as nat,
                first_step: first_step as nat,
                stride: stride as nat,
                num_values: 1,
            }),
            made is Some ==> made->Some_0@.wf(),
    {
        if column < usize::MAX && is_power_of_two(stride) && stride >= MIN_STRIDE_LENGTH
            && first_step < stride {
            proof {
                crate::power_of_two::lemma_one_is_power_of_two();
            }
            Some(Assertion { column, first_step, stride, num_values: 1 })
        } else {
            None
        }
    }

    /// An assertion on `num_values` cells of `column`, at `first_step` and
    /// then `stride` steps apart, which together span a trace of
    /// `num_values * stride` rows. The stride must be a power of two, at
    /// least [`MIN_STRIDE_LENGTH`] and above `first_step`; the number of
    /// values must be a power of two; and the length spanned must fit in a
    /// `usize`. A sequence of one value is the single cell at `first_step`.
    pub fn sequence(column: usize, first_step: usize, stride: usize, num_values: usize) -> (made:
        Option<Assertion>)
        ensures
            made is Some <==> column < usize::MAX && power_of_two(stride as int) && stride
                >= MIN_STRIDE_LENGTH && first_step < stride && power_of_two(num_values as int)
                && num_values * stride <= usize::MAX,
            made is Some ==> made->Some_0@ == (AssertionView {
                column: column as nat,
                first_step: first_step as nat,
                stride: if num_values == 1 {
                    0
                } else {
                    stride as nat
                },
                num_values: num_values as nat,
            }),
            made is Some ==> made->Some_0@.wf(),
    {
        if !(column < usize::MAX && is_power_of_two(stride) && stride >= MIN_STRIDE_LENGTH
            && first_step < stride && is_power_of_two(num_values)) {
            return None;
        }
        if num_values.checked_mul(stride).is_none() {
            return None;
        }
        if num_values == 1 {
            Some(Assertion { column, first_step, stride: 0, num_values })
        } else {
            Some(Assertion { column, first_step, stride, num_values })
        }
    }

    /// The column of the cells.
    pub fn column(&self) -> (column: usize)
        ensures
            column == self@.column,
    {
        self.column
    }

    /// The first step at which a cell is pinned.
    pub fn first_step(&self) -> (first_step: usize)
        ensures
            first_step == self@.first_step,
    {
        self.first_step
    }

    /// The distance between two pinned steps; zero for a single cell.
    pub fn stride(&self) -> (stride: usize)
        ensures
            stride == self@.stride,
    {
        self.stride
    }

    /// How many values the assertion lays out.
    pub fn num_values(&self) -> (num_values: usize)
        ensures
            num_values == self@.num_values,
    {
        self.num_values
    }

    /// Whether the assertion pins one cell.
    pub fn is_single(&self) -> (yes: bool)
        ensures
            yes == self@.is_single(),
    {
        self.stride == 0
    }

    /// Whether the assertion repeats one value along the trace.
    pub fn is_periodic(&self) -> (yes: bool)
        ensures
            yes == self@.is_periodic(),
    {
        self.stride != 0 && self.num_values == 1
    }

    /// Whether the assertion lays several values over the whole trace.
    pub fn is_sequence(&self) -> (yes: bool)
        ensures
            yes == self@.is_sequence(),
    {
        self.num_values > 1
    }

    /// How many cells the assertion pins in a trace of `trace_length` rows.
    pub fn get_num_steps(&self, trace_length: usize) -> (count: usize)
        ensures
            count == self@.num_steps(trace_length as nat),
    {
        proof {
            use_type_invariant(self);
        }
        if self.is_single() {
            1
        } else if self.is_periodic() {
            trace_length / self.stride
        } else {
            self.num_values
        }
    }

    /// Tests that a trace of `trace_width` columns has the column of the
    /// assertion.
    pub fn validate_trace_width(&self, trace_width: usize) -> (outcome: Result<(), AssertionError>)
        ensures
            self@.wf(),
            outcome is Ok <==> self@.column < trace_width,
            outcome is Err ==> self@.width_error(trace_width) == Some(outcome->Err_0),
            self@.column >= trace_width ==> outcome == Err::<(), AssertionError>(
                AssertionError::TraceWidthTooShort((self@.column + 1) as usize, trace_width),
            ),
    {
        proof {
            use_type_invariant(self);
        }
        if self.column >= trace_width {
            return Err(AssertionError::TraceWidthTooShort(self.column + 1, trace_width));
        }
        Ok(())
    }

    /// Tests that the number of rows of a trace is a power of two and is
    /// what the assertion needs. That it is a power of two is tested first
    /// and is a matter of the trace alone.
    pub fn validate_trace_length(&self, trace_length: usize) -> (outcome: Result<
        (),
        AssertionError,
    >)
        ensures
            self@.wf(),
            outcome is Ok <==> power_of_two(trace_length as int) && self@.length_suits(
                trace_length as nat,
            ),
            outcome is Err ==> self@.length_error(trace_length) == Some(outcome->Err_0),
            !power_of_two(trace_length as int) ==> outcome == Err::<(), AssertionError>(
                AssertionError::TraceLengthNotPowerOfTwo(trace_length),
            ),
            power_of_two(trace_length as int) && self@.is_sequence() && self@.implied_length()
                != trace_length ==> outcome == Err::<(), AssertionError>(
                AssertionError::TraceLengthNotExact(self@.implied_length() as usize, trace_length),
            ),
            power_of_two(trace_length as int) && !self@.is_sequence() && self@.first_step
                >= trace_length ==> outcome == Err::<(), AssertionError>(
                AssertionError::TraceLengthTooShort((self@.first_step + 1) as usize, trace_length),
            ),
    {
        proof {
            use_type_invariant(self);
        }
        if !is_power_of_two(trace_length) {
            return Err(AssertionError::TraceLengthNotPowerOfTwo(trace_length));
        }
        if self.is_sequence() {
            let expected_length: usize = self.num_values * self.stride;
            if expected_length != trace_length {
                return Err(AssertionError::TraceLengthNotExact(expected_length, trace_length));
            }
        } else if self.first_step >= trace_length {
            return Err(AssertionError::TraceLengthTooShort(self.first_step + 1, trace_length));
        }
        Ok(())
    }
}

/// Tests that a trace of `trace_width` columns and `trace_length` rows can
/// take the assertion. Of several faults one is reported: the width comes
/// first, then whether the length is a power of two, then whether the
/// length is what the assertion needs.
pub fn check(assertion: &Assertion, trace_width: usize, trace_length: usize) -> (outcome: Result<
    (),
    AssertionError,
>)
    ensures
        assertion@.wf(),
        outcome is Ok <==> assertion@.suits(trace_width as nat, trace_length as nat),
        outcome is Err ==> assertion@.shape_error(trace_width, trace_length) == Some(
            outcome->Err_0,
        ),
        assertion@.column >= trace_width ==> outcome == Err::<(), AssertionError>(
            AssertionError::TraceWidthTooShort((assertion@.column + 1) as usize, trace_width),
        ),
        assertion@.column < trace_width && !power_of_two(trace_length as int) ==> outcome == Err::<
            (),
            AssertionError,
        >(AssertionError::TraceLengthNotPowerOfTwo(trace_length)),
        assertion@.column < trace_width && power_of_two(trace_length as int)
            && assertion@.is_sequence() && assertion@.implied_length() != trace_length ==> outcome
            == Err::<(), AssertionError>(
            AssertionError::TraceLengthNotExact(
                assertion@.implied_length() as usize,
                trace_length,
            ),
        ),
        assertion@.column < trace_width && power_of_two(trace_length as int)
            && !assertion@.is_sequence() && assertion@.first_step >= trace_length ==> outcome
            == Err::<(), AssertionError>(
            AssertionError::TraceLengthTooShort(
                (assertion@.first_step + 1) as usize,
                trace_length,
            ),
        ),
{
    match assertion.validate_trace_width(trace_width) {
        Err(error) => Err(error),
        Ok(()) => assertion.validate_trace_length(trace_length),
    }
}

/// In a trace that suits an assertion, every cell that the assertion pins
/// exists: its column is one of the trace's columns and each of its steps
/// is one of the trace's rows.
pub proof fn lemma_suited_trace_has_every_cell(
    assertion: AssertionView,
    trace_width: nat,
    trace_length: nat,
)
    requires
        assertion.wf(),
        assertion.suits(trace_width, trace_length),
    ensures
        assertion.column < trace_width,
        forall|i: nat|
            i < assertion.num_steps(trace_length) ==> #[trigger] assertion.step(i) < trace_length,
{
    assert forall|i: nat| i < assertion.num_steps(trace_length) implies #[trigger] assertion.step(
        i,
    ) < trace_length by {
        let stride = assertion.stride;
        if assertion.is_single() {
            assert(i * stride == 0) by (nonlinear_arith)
                requires
                    stride == 0,
            ;
        } else {
            let count = assertion.num_steps(trace_length);
            assert(count * stride <= trace_length) by (nonlinear_arith)
                requires
                    stride > 0,
                    count == trace_length / stride || count * stride == trace_length,
            ;
            assert(i * stride + stride <= count * stride) by (nonlinear_arith)
                requires
                    i < count,
                    stride > 0,
            ;
        }
    }
}

} // verus!
