use lookup_tables::{
    check_independent_variable, check_lengths, check_repeat_entries, Error,
    IndependentVariableOrdering,
};

#[test]
fn length_same() {
    // a single shared point cannot form an interpolation interval, so equal
    // lengths below two are still rejected
    let output = check_lengths(1, 1);
    assert!(matches!(output, Err(Error::IndependentVariableTooShort)));
}

#[test]
fn length_different() {
    let output = check_lengths(1, 2);
    assert!(output.is_err());
}

#[test]
fn check_repeat_entries_unique() {
    let entries = vec![1, 2, 3, 4, 5];
    let output = check_repeat_entries(&entries);
    assert!(output.is_ok());
}

#[test]
fn check_repeat_entries_nonunique() {
    let entries = vec![1, 2, 4, 4, 5];
    let output = check_repeat_entries(&entries);
    assert!(output.is_err());
}

#[test]
fn monotonically_increasing() {
    let entries = vec![1, 2, 3, 4, 5];
    let output = check_independent_variable(&entries);
    assert!(output.is_ok());
}

#[test]
fn monotonically_decreasing() {
    let entries = vec![5, 4, 3, 2, 1];
    let output = check_repeat_entries(&entries);
    assert!(output.is_ok());
}

#[test]
fn monotonically_increasing_repeated() {
    let entries = vec![1, 2, 3, 4, 4, 5];
    let output = check_independent_variable(&entries);
    assert!(output.is_err());
}

#[test]
fn monotonically_decreasing_repeated() {
    let entries = vec![5, 4, 3, 2, 2, 1];
    let output = check_repeat_entries(&entries);
    assert!(output.is_err());
}

#[test]
fn classification_reports_direction() {
    let increasing = vec![1, 2, 3];
    let decreasing = vec![3, 2, 1];
    assert_eq!(
        check_independent_variable(&increasing),
        Ok(IndependentVariableOrdering::MonotonicallyIncreasing)
    );
    assert_eq!(
        check_independent_variable(&decreasing),
        Ok(IndependentVariableOrdering::MonotonicallyDecreasing)
    );
}

#[test]
fn classification_error_variants() {
    let repeated = vec![0.0, 0.0, 2.0, 3.0];
    assert!(matches!(
        check_independent_variable(&repeated),
        Err(Error::DuplicateEntry)
    ));
    let unsorted = vec![0.0, 1.0, 0.5, 3.0];
    assert!(matches!(
        check_independent_variable(&unsorted),
        Err(Error::NonMonotonicSorting)
    ));
}

#[test]
fn length_error_variants() {
    assert!(matches!(
        check_lengths(3, 4),
        Err(Error::IndependentDependentLength)
    ));
    assert!(matches!(
        check_lengths(1, 1),
        Err(Error::IndependentVariableTooShort)
    ));
    assert!(check_lengths(2, 2).is_ok());
    assert!(check_lengths(4, 4).is_ok());
}
