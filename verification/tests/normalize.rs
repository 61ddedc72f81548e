use spatium::distance::Distance;
use spatium::error::SpatiumError;
use spatium::normalize::{normalize, report};

#[test]
fn normalize_zero_distance_over_empty_inputs_is_zero() {
    let distance = normalize(0, 0, 0).unwrap();
    assert_eq!(distance.numerator(), 0);
    assert_eq!(distance.denominator(), 1);
    assert_eq!(distance.numerator() as f64 / distance.denominator() as f64, 0.0);
}

#[test]
fn normalize_zero_distance_is_zero_whatever_the_lengths() {
    let distance = normalize(0, 5, 9).unwrap();
    assert_eq!(distance.numerator(), 0);
    assert_eq!(distance.denominator(), 1);
}

#[test]
fn normalize_nonzero_distance_over_empty_inputs_fails() {
    let error = normalize(1, 0, 0).unwrap_err();
    assert!(matches!(error, SpatiumError::NormalizationError));
    assert_eq!(error.to_string(), "NormalizationError");
}

#[test]
fn normalize_divides_by_the_greater_length() {
    let distance = normalize(3, 3, 4).unwrap();
    assert_eq!(distance.numerator(), 3);
    assert_eq!(distance.denominator(), 4);
    assert_eq!(distance.numerator() as f64 / distance.denominator() as f64, 3.0 / 4.0);
    let swapped = normalize(3, 4, 3).unwrap();
    assert_eq!(swapped.numerator(), 3);
    assert_eq!(swapped.denominator(), 4);
}

#[test]
fn normalize_keeps_the_fraction_unreduced() {
    let distance = normalize(2, 4, 1).unwrap();
    assert_eq!(distance.numerator(), 2);
    assert_eq!(distance.denominator(), 4);
}

#[test]
fn report_leaves_the_count_alone_unless_asked() {
    let raw = report(3, false, 3, 4).unwrap();
    assert_eq!(raw.numerator(), 3);
    assert_eq!(raw.denominator(), 1);
    let normalized = report(3, true, 3, 4).unwrap();
    assert_eq!(normalized.numerator(), 3);
    assert_eq!(normalized.denominator(), 4);
    assert!(report(1, false, 0, 0).is_ok());
    assert!(matches!(report(1, true, 0, 0), Err(SpatiumError::NormalizationError)));
}

#[test]
fn distance_constructors_keep_their_parts() {
    let raw = Distance::raw(7);
    assert_eq!(raw.numerator(), 7);
    assert_eq!(raw.denominator(), 1);
    let fraction = Distance::over(1, 3);
    assert_eq!(fraction.numerator(), 1);
    assert_eq!(fraction.denominator(), 3);
}

#[test]
fn value_error_text_names_its_reason() {
    let error = SpatiumError::ValueError(String::from("reason"));
    assert_eq!(error.to_string(), "ValueError: reason");
}
