use stark_harness::{
    get_example, ExampleError, HashFunction, MulFib2Example, ProofError, ProofOptions,
    ProvingTask, VerificationTask,
};

fn usable_options() -> ProofOptions {
    ProofOptions {
        num_queries: 28,
        blowup_factor: 8,
        grinding_factor: 0,
        fri_folding_factor: 4,
        fri_remainder_max_degree: 31,
    }
}

fn unusable_options() -> ProofOptions {
    ProofOptions { blowup_factor: 3, grinding_factor: 40, ..usable_options() }
}

fn declared_options() -> ProofOptions {
    ProofOptions { num_queries: 50, blowup_factor: 16, ..usable_options() }
}

fn example_with_result(result: u128) -> MulFib2Example {
    MulFib2Example::new(8, usable_options(), HashFunction::Blake3_256, result).unwrap()
}

#[test]
fn construction_with_size_eight_succeeds() {
    let made = MulFib2Example::new(8, usable_options(), HashFunction::Blake3_192, 77);
    let example = made.unwrap();
    assert_eq!(example.sequence_length(), 8);
    assert_eq!(example.options(), usable_options());
    assert_eq!(example.hash_fn(), HashFunction::Blake3_192);
    assert_eq!(example.result(), 77);
}

#[test]
fn construction_reports_the_first_parameter_out_of_bounds() {
    let made = MulFib2Example::new(8, unusable_options(), HashFunction::Blake3_192, 77);
    assert_eq!(made, Err(ProofError::BlowupFactor(3)));
}

#[test]
fn the_three_hash_functions_of_the_example_are_known() {
    assert!(HashFunction::Blake3_192.suits_example());
    assert!(HashFunction::Blake3_256.suits_example());
    assert!(HashFunction::Sha3_256.suits_example());
    assert!(!HashFunction::Rp64_256.suits_example());
    assert!(!HashFunction::RpJive64_256.suits_example());
}

#[test]
fn get_example_makes_the_example_for_a_hash_function_that_suits() {
    for hash_fn in [HashFunction::Blake3_192, HashFunction::Blake3_256, HashFunction::Sha3_256] {
        let example = get_example(usable_options(), hash_fn, 16, 5).unwrap();
        assert_eq!(example.hash_fn(), hash_fn);
        assert_eq!(example.sequence_length(), 16);
        assert_eq!(example.options(), usable_options());
        assert_eq!(example.result(), 5);
    }
}

#[test]
fn get_example_refuses_the_other_hash_functions() {
    for hash_fn in [HashFunction::Rp64_256, HashFunction::RpJive64_256] {
        assert_eq!(
            get_example(usable_options(), hash_fn, 16, 5),
            Err(ExampleError::UnsupportedHashFunction)
        );
        assert_eq!(
            get_example(unusable_options(), hash_fn, 7, 5),
            Err(ExampleError::UnsupportedHashFunction)
        );
    }
}

#[test]
fn get_example_reports_parameters_out_of_bounds() {
    assert_eq!(
        get_example(unusable_options(), HashFunction::Sha3_256, 16, 5),
        Err(ExampleError::InvalidOptions(ProofError::BlowupFactor(3)))
    );
}

#[test]
fn proving_is_asked_with_what_the_example_holds() {
    let made = MulFib2Example::new(64, declared_options(), HashFunction::Sha3_256, 9).unwrap();
    assert_eq!(
        made.prove(),
        ProvingTask {
            sequence_length: 64,
            options: declared_options(),
            hash_fn: HashFunction::Sha3_256
        }
    );
    assert_eq!(made.prove().options.validate(), Ok(()));
}

#[test]
fn verification_is_asked_against_the_result_and_the_options_of_the_proof() {
    let task = example_with_result(1234).verify(declared_options());
    assert_eq!(
        task,
        VerificationTask {
            public_input: 1234,
            acceptable_options: vec![declared_options()],
            hash_fn: HashFunction::Blake3_256
        }
    );
}

#[test]
fn verification_with_wrong_inputs_is_asked_against_the_next_input() {
    let task = example_with_result(1234).verify_with_wrong_inputs(declared_options());
    assert_eq!(
        task,
        VerificationTask {
            public_input: 1235,
            acceptable_options: vec![declared_options()],
            hash_fn: HashFunction::Blake3_256
        }
    );
}

#[test]
fn the_wrong_input_is_never_the_result() {
    for result in [0u128, 1, 1234, u128::MAX - 1, u128::MAX] {
        let made = example_with_result(result);
        let right = made.verify(usable_options());
        let wrong = made.verify_with_wrong_inputs(usable_options());
        assert_eq!(right.public_input, result);
        assert_ne!(wrong.public_input, result);
        assert_eq!(right.acceptable_options, wrong.acceptable_options);
        assert_eq!(right.hash_fn, wrong.hash_fn);
    }
}

#[test]
fn the_wrong_input_after_the_largest_is_zero() {
    let task = example_with_result(u128::MAX).verify_with_wrong_inputs(usable_options());
    assert_eq!(task.public_input, 0);
}

#[test]
fn the_options_of_the_proof_are_taken_even_if_the_example_has_others() {
    let task = example_with_result(3).verify(unusable_options());
    assert_eq!(task.acceptable_options, vec![unusable_options()]);
}

#[test]
fn the_example_is_the_same_after_its_tasks_were_made() {
    let made = example_with_result(10);
    let before = made;
    let _ = made.prove();
    let _ = made.verify(declared_options());
    let _ = made.verify_with_wrong_inputs(declared_options());
    assert_eq!(made, before);
    assert_eq!(made.options(), usable_options());
}
