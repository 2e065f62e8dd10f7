use stark_harness::{check, Assertion, AssertionError, MIN_STRIDE_LENGTH};

fn single(column: usize, step: usize) -> Assertion {
    Assertion::single(column, step).unwrap()
}

fn periodic(column: usize, first_step: usize, stride: usize) -> Assertion {
    Assertion::periodic(column, first_step, stride).unwrap()
}

fn sequence(column: usize, first_step: usize, stride: usize, num_values: usize) -> Assertion {
    Assertion::sequence(column, first_step, stride, num_values).unwrap()
}

#[test]
fn a_single_assertion_holds_its_place() {
    let assertion = single(2, 5);
    assert_eq!(assertion.column(), 2);
    assert_eq!(assertion.first_step(), 5);
    assert_eq!(assertion.stride(), 0);
    assert_eq!(assertion.num_values(), 1);
    assert!(assertion.is_single());
    assert!(!assertion.is_periodic());
    assert!(!assertion.is_sequence());
}

#[test]
fn a_single_assertion_needs_numbers_below_the_largest() {
    assert!(Assertion::single(usize::MAX, 0).is_none());
    assert!(Assertion::single(0, usize::MAX).is_none());
    assert!(Assertion::single(usize::MAX - 1, usize::MAX - 1).is_some());
}

#[test]
fn a_periodic_assertion_holds_its_place() {
    let assertion = periodic(1, 3, 8);
    assert_eq!(assertion.column(), 1);
    assert_eq!(assertion.first_step(), 3);
    assert_eq!(assertion.stride(), 8);
    assert_eq!(assertion.num_values(), 1);
    assert!(!assertion.is_single());
    assert!(assertion.is_periodic());
    assert!(!assertion.is_sequence());
}

#[test]
fn a_periodic_assertion_needs_a_proper_stride() {
    assert_eq!(MIN_STRIDE_LENGTH, 2);
    assert!(Assertion::periodic(0, 0, 0).is_none());
    assert!(Assertion::periodic(0, 0, 1).is_none());
    assert!(Assertion::periodic(0, 0, 3).is_none());
    assert!(Assertion::periodic(0, 0, 6).is_none());
    assert!(Assertion::periodic(0, 0, 2).is_some());
    assert!(Assertion::periodic(0, 1, 2).is_some());
    assert!(Assertion::periodic(0, 2, 2).is_none());
    assert!(Assertion::periodic(0, 9, 8).is_none());
    assert!(Assertion::periodic(usize::MAX, 0, 2).is_none());
}

#[test]
fn a_sequence_assertion_holds_its_place() {
    let assertion = sequence(0, 1, 4, 4);
    assert_eq!(assertion.column(), 0);
    assert_eq!(assertion.first_step(), 1);
    assert_eq!(assertion.stride(), 4);
    assert_eq!(assertion.num_values(), 4);
    assert!(!assertion.is_single());
    assert!(!assertion.is_periodic());
    assert!(assertion.is_sequence());
}

#[test]
fn a_sequence_of_one_value_is_a_single_assertion() {
    let assertion = sequence(3, 1, 4, 1);
    assert_eq!(assertion, single(3, 1));
    assert!(assertion.is_single());
    assert_eq!(assertion.stride(), 0);
}

#[test]
fn a_sequence_assertion_needs_proper_numbers() {
    assert!(Assertion::sequence(0, 0, 4, 0).is_none());
    assert!(Assertion::sequence(0, 0, 4, 3).is_none());
    assert!(Assertion::sequence(0, 0, 3, 4).is_none());
    assert!(Assertion::sequence(0, 0, 1, 4).is_none());
    assert!(Assertion::sequence(0, 4, 4, 4).is_none());
    assert!(Assertion::sequence(usize::MAX, 0, 4, 4).is_none());
    assert!(Assertion::sequence(0, 3, 4, 4).is_some());
}

#[test]
fn a_sequence_assertion_spans_a_length_that_can_be_written() {
    let half: usize = 1usize << (usize::BITS - 1);
    assert!(Assertion::sequence(0, 0, half, 2).is_none());
    assert!(Assertion::sequence(0, 0, 2, half).is_none());
    assert!(Assertion::sequence(0, 0, half, 1).is_some());
    assert!(Assertion::sequence(0, 0, half / 2, 2).is_some());
}

#[test]
fn a_column_beyond_the_width_is_reported() {
    assert_eq!(check(&single(4, 0), 4, 8), Err(AssertionError::TraceWidthTooShort(5, 4)));
    assert_eq!(check(&single(4, 0), 2, 8), Err(AssertionError::TraceWidthTooShort(5, 2)));
    assert_eq!(check(&single(0, 0), 0, 8), Err(AssertionError::TraceWidthTooShort(1, 0)));
    assert_eq!(check(&periodic(7, 0, 2), 7, 8), Err(AssertionError::TraceWidthTooShort(8, 7)));
    assert_eq!(
        check(&sequence(9, 0, 2, 4), 3, 8),
        Err(AssertionError::TraceWidthTooShort(10, 3))
    );
}

#[test]
fn a_column_within_the_width_is_accepted() {
    assert_eq!(check(&single(4, 0), 5, 8), Ok(()));
    assert_eq!(single(4, 0).validate_trace_width(5), Ok(()));
    assert_eq!(
        single(4, 0).validate_trace_width(4),
        Err(AssertionError::TraceWidthTooShort(5, 4))
    );
}

#[test]
fn a_length_of_seven_is_no_power_of_two() {
    assert_eq!(check(&single(0, 0), 1, 7), Err(AssertionError::TraceLengthNotPowerOfTwo(7)));
    assert_eq!(check(&single(0, 100), 1, 7), Err(AssertionError::TraceLengthNotPowerOfTwo(7)));
    assert_eq!(check(&periodic(0, 1, 4), 1, 7), Err(AssertionError::TraceLengthNotPowerOfTwo(7)));
    assert_eq!(
        check(&sequence(0, 0, 4, 4), 1, 7),
        Err(AssertionError::TraceLengthNotPowerOfTwo(7))
    );
}

#[test]
fn the_length_alone_decides_whether_it_is_a_power_of_two() {
    assert_eq!(
        single(9, 100).validate_trace_length(7),
        Err(AssertionError::TraceLengthNotPowerOfTwo(7))
    );
    assert_eq!(
        sequence(9, 0, 4, 4).validate_trace_length(0),
        Err(AssertionError::TraceLengthNotPowerOfTwo(0))
    );
    assert_eq!(
        periodic(9, 0, 4).validate_trace_length(12),
        Err(AssertionError::TraceLengthNotPowerOfTwo(12))
    );
}

#[test]
fn a_sequence_of_sixteen_does_not_fit_a_trace_of_thirty_two() {
    assert_eq!(
        check(&sequence(0, 0, 4, 4), 1, 32),
        Err(AssertionError::TraceLengthNotExact(16, 32))
    );
}

#[test]
fn a_sequence_needs_the_exact_length() {
    let assertion = sequence(0, 1, 4, 4);
    assert_eq!(check(&assertion, 1, 16), Ok(()));
    assert_eq!(check(&assertion, 1, 8), Err(AssertionError::TraceLengthNotExact(16, 8)));
    assert_eq!(check(&assertion, 1, 1), Err(AssertionError::TraceLengthNotExact(16, 1)));
    assert_eq!(check(&assertion, 1, 64), Err(AssertionError::TraceLengthNotExact(16, 64)));
}

#[test]
fn a_step_beyond_the_length_is_reported() {
    assert_eq!(check(&single(0, 8), 1, 8), Err(AssertionError::TraceLengthTooShort(9, 8)));
    assert_eq!(check(&single(0, 20), 1, 8), Err(AssertionError::TraceLengthTooShort(21, 8)));
    assert_eq!(check(&single(0, 7), 1, 8), Ok(()));
    assert_eq!(check(&periodic(0, 3, 4), 1, 2), Err(AssertionError::TraceLengthTooShort(4, 2)));
    assert_eq!(check(&periodic(0, 3, 4), 1, 4), Ok(()));
    assert_eq!(check(&periodic(0, 3, 4), 1, 64), Ok(()));
}

#[test]
fn the_width_is_reported_before_the_length() {
    assert_eq!(check(&single(5, 100), 3, 7), Err(AssertionError::TraceWidthTooShort(6, 3)));
    assert_eq!(check(&single(5, 100), 3, 8), Err(AssertionError::TraceWidthTooShort(6, 3)));
    assert_eq!(
        check(&sequence(5, 0, 4, 4), 3, 32),
        Err(AssertionError::TraceWidthTooShort(6, 3))
    );
}

#[test]
fn the_power_of_two_is_reported_before_the_fit_of_the_length() {
    assert_eq!(check(&single(0, 100), 1, 6), Err(AssertionError::TraceLengthNotPowerOfTwo(6)));
    assert_eq!(
        check(&sequence(0, 0, 4, 4), 1, 24),
        Err(AssertionError::TraceLengthNotPowerOfTwo(24))
    );
}

#[test]
fn the_number_of_steps_follows_the_form() {
    assert_eq!(single(0, 3).get_num_steps(16), 1);
    assert_eq!(periodic(0, 1, 4).get_num_steps(16), 4);
    assert_eq!(periodic(0, 1, 4).get_num_steps(2), 0);
    assert_eq!(sequence(0, 1, 4, 8).get_num_steps(32), 8);
}

#[test]
fn an_accepted_trace_has_every_cell_of_the_assertion() {
    let width: usize = 3;
    let length: usize = 32;
    let assertions = [single(2, 31), periodic(0, 3, 4), periodic(1, 0, 32), sequence(2, 7, 8, 4)];
    for assertion in assertions {
        assert_eq!(check(&assertion, width, length), Ok(()));
        assert!(assertion.column() < width);
        let mut i: usize = 0;
        while i < assertion.get_num_steps(length) {
            assert!(assertion.first_step() + i * assertion.stride() < length);
            i += 1;
        }
    }
}

#[test]
fn checking_does_not_change_the_assertion() {
    let assertion = sequence(0, 1, 4, 4);
    let before = assertion;
    assert_eq!(check(&assertion, 1, 32), Err(AssertionError::TraceLengthNotExact(16, 32)));
    assert_eq!(assertion, before);
    assert_eq!(check(&assertion, 1, 32), Err(AssertionError::TraceLengthNotExact(16, 32)));
}
