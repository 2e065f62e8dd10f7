use stark_harness::{AssertionError, ExampleError, ProofError};

#[test]
fn trace_width_too_short_message() {
    assert_eq!(
        AssertionError::TraceWidthTooShort(3, 2).to_string(),
        "expected trace width to be at least 3, but was 2"
    );
}

#[test]
fn trace_length_not_power_of_two_message() {
    assert_eq!(
        AssertionError::TraceLengthNotPowerOfTwo(7).to_string(),
        "expected trace length to be a power of two, but was 7"
    );
}

#[test]
fn trace_length_too_short_message() {
    assert_eq!(
        AssertionError::TraceLengthTooShort(17, 16).to_string(),
        "expected trace length to be at least 17, but was 16"
    );
}

#[test]
fn trace_length_not_exact_message() {
    assert_eq!(
        AssertionError::TraceLengthNotExact(16, 32).to_string(),
        "expected trace length to be exactly 16, but was 32"
    );
}

#[test]
fn assertion_errors_compare_by_variant_and_numbers() {
    assert_eq!(AssertionError::TraceWidthTooShort(3, 2), AssertionError::TraceWidthTooShort(3, 2));
    assert_ne!(AssertionError::TraceWidthTooShort(3, 2), AssertionError::TraceWidthTooShort(2, 3));
    assert_ne!(
        AssertionError::TraceLengthTooShort(16, 32),
        AssertionError::TraceLengthNotExact(16, 32)
    );
}

#[test]
fn queries_number_message() {
    assert_eq!(
        ProofError::QueriesNumber(0).to_string(),
        "Number of queries must be greater than 0 and smaller than 255, but 0 was found."
    );
}

#[test]
fn blowup_factor_message() {
    assert_eq!(
        ProofError::BlowupFactor(3).to_string(),
        "Blowup factor must be a power of 2, cannot be smaller than 2 and greater than 128, but 3 was found."
    );
}

#[test]
fn grinding_factor_message() {
    assert_eq!(
        ProofError::GrindingFactor(33).to_string(),
        "Grinding factor cannot be greater than 32, but 33 was found."
    );
}

#[test]
fn folding_factor_message() {
    assert_eq!(
        ProofError::FoldingFactor(3).to_string(),
        "FRI folding factor must be a power of 2, cannot be smaller than 2 and greater than 16, but 3 was found."
    );
}

#[test]
fn fri_remainder_message() {
    assert_eq!(
        ProofError::FriRemainder(30).to_string(),
        "FRI polynomial remainder degree must be one less than a power of two and cannot be greater than 255, but 30 was found."
    );
}

#[test]
fn messages_carry_large_values_in_full() {
    assert_eq!(
        ProofError::GrindingFactor(u32::MAX).to_string(),
        "Grinding factor cannot be greater than 32, but 4294967295 was found."
    );
    assert_eq!(
        AssertionError::TraceLengthNotPowerOfTwo(1_000_000).to_string(),
        "expected trace length to be a power of two, but was 1000000"
    );
}

#[test]
fn proof_errors_can_be_cloned_and_compared() {
    let error = ProofError::FoldingFactor(3);
    let copy = error.clone();
    assert_eq!(error, copy);
    assert_ne!(error, ProofError::BlowupFactor(3));
}

#[test]
fn unsupported_hash_function_message() {
    assert_eq!(
        ExampleError::UnsupportedHashFunction.to_string(),
        "The specified hash function cannot be used with this example."
    );
}

#[test]
fn invalid_options_message_is_that_of_the_parameter() {
    assert_eq!(
        ExampleError::InvalidOptions(ProofError::QueriesNumber(300)).to_string(),
        "Number of queries must be greater than 0 and smaller than 255, but 300 was found."
    );
}
