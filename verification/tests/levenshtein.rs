use spatium::edit_based::levenshtein::recursive::Recursive;
use spatium::edit_based::levenshtein::wagner_fisher::WagnerFisher;
use spatium::types::source::decode;
use spatium::edit_based::levenshtein::{
    levenshtein_recursive, levenshtein_wagner_fisher, AlgorithmType, Levenshtein,
};

#[test]
fn recursive_eq() {
    assert_eq!(0.0, levenshtein_recursive(&[1], &[1]).unwrap() as f64);
}

#[test]
fn recursive_deletion() {
    let empty: [i32; 0] = [];
    assert_eq!(1.0, levenshtein_recursive(&[1], &empty).unwrap() as f64);
}

#[test]
fn recursive_insertion() {
    assert_eq!(1.0, levenshtein_recursive(&[0], &[1]).unwrap() as f64);
}

#[test]
fn recursive_substitution() {
    assert_eq!(1.0, levenshtein_recursive(&[1], &[2]).unwrap() as f64);
}

#[test]
fn recursive_case1() {
    assert_eq!(3.0, levenshtein_recursive(&[1, 5, 3], &[4, 5, 6, 7]).unwrap() as f64);
}

#[test]
fn wagner_fisher_eq() {
    assert_eq!(0.0, levenshtein_wagner_fisher(&[1], &[1]).unwrap() as f64);
}

#[test]
fn wagner_fisher_deletion() {
    let empty: [i32; 0] = [];
    assert_eq!(1.0, levenshtein_wagner_fisher(&[1], &empty).unwrap() as f64);
}

#[test]
fn wagner_fisher_insertion() {
    assert_eq!(1.0, levenshtein_wagner_fisher(&[0], &[1]).unwrap() as f64);
}

#[test]
fn wagner_fisher_substitution() {
    assert_eq!(1.0, levenshtein_wagner_fisher(&[1], &[2]).unwrap() as f64);
}

#[test]
fn wagner_fisher_case1() {
    assert_eq!(3.0, levenshtein_wagner_fisher(&[1, 5, 3], &[4, 5, 6, 7]).unwrap() as f64);
}

#[test]
fn levenshtein_default() {
    let alg = Levenshtein::default();
    let x = [1, 5, 3];
    let y = [4, 5, 6, 7];
    let distance = alg.distance(&x, &y).unwrap();
    assert_eq!(distance.numerator() as f64 / distance.denominator() as f64, 3.0);
}

#[test]
fn levenshtein_normalize_result() {
    let alg = Levenshtein::default().normalize_result(true);
    let x = [1, 5, 3];
    let y = [4, 5, 6, 7];
    let distance = alg.distance(&x, &y).unwrap();
    assert_eq!(distance.numerator() as f64 / distance.denominator() as f64, 3.0 / 4.0);
}

#[test]
fn recusive() {
    let alg = Levenshtein::new(AlgorithmType::Recursive);
    let x = [1, 5, 3];
    let y = [4, 5, 6, 7];
    let distance = alg.distance(&x, &y).unwrap();
    assert_eq!(distance.numerator() as f64 / distance.denominator() as f64, 3.0);
}

#[test]
fn wagner_fisher() {
    let alg = Levenshtein::new(AlgorithmType::WagnerFisher);
    let x = [1, 5, 3];
    let y = [4, 5, 6, 7];
    let distance = alg.distance(&x, &y).unwrap();
    assert_eq!(distance.numerator() as f64 / distance.denominator() as f64, 3.0);
}

#[test]
fn recursive_strategy_eq() {
    let distance = Recursive::default().distance(&[1], &[1]).unwrap();
    assert_eq!(0.0, distance.numerator() as f64 / distance.denominator() as f64);
}

#[test]
fn recursive_strategy_deletion() {
    let empty: [i32; 0] = [];
    let distance = Recursive::default().distance(&[1], &empty).unwrap();
    assert_eq!(1.0, distance.numerator() as f64 / distance.denominator() as f64);
}

#[test]
fn recursive_strategy_insertion() {
    let distance = Recursive::default().distance(&[0], &[1]).unwrap();
    assert_eq!(1.0, distance.numerator() as f64 / distance.denominator() as f64);
}

#[test]
fn recursive_strategy_substitution() {
    let distance = Recursive::default().distance(&[1], &[2]).unwrap();
    assert_eq!(1.0, distance.numerator() as f64 / distance.denominator() as f64);
}

#[test]
fn recursive_strategy_case1() {
    let distance = Recursive::default().distance(&[1, 5, 3], &[4, 5, 6, 7]).unwrap();
    assert_eq!(3.0, distance.numerator() as f64 / distance.denominator() as f64);
}

#[test]
fn recursive_normalize_result() {
    let x = [1, 5, 3];
    let y = [4, 5, 6, 7];

    let distance = Recursive::default().normalize_result(true).distance(&x, &y).unwrap();
    assert_eq!(distance.numerator() as f64 / distance.denominator() as f64, 3.0 / 4.0);
}

#[test]
fn wagner_fisher_strategy_eq() {
    assert_eq!(0.0, WagnerFisher::default().distance(&[1], &[1]).unwrap() as f64);
}

#[test]
fn wagner_fisher_strategy_deletion() {
    let empty: [i32; 0] = [];
    assert_eq!(1.0, WagnerFisher::default().distance(&[1], &empty).unwrap() as f64);
}

#[test]
fn wagner_fisher_strategy_insertion() {
    assert_eq!(1.0, WagnerFisher::default().distance(&[0], &[1]).unwrap() as f64);
}

#[test]
fn wagner_fisher_strategy_substitution() {
    assert_eq!(1.0, WagnerFisher::default().distance(&[1], &[2]).unwrap() as f64);
}

#[test]
fn wagner_fisher_strategy_case1() {
    assert_eq!(3.0, WagnerFisher::default().distance(&[1, 5, 3], &[4, 5, 6, 7]).unwrap() as f64);
}

#[test]
fn wagner_fisher_normalize_result() {
    let x = [1, 5, 3];
    let y = [4, 5, 6, 7];

    let distance = WagnerFisher::default().normalized_distance(&x, &y).unwrap();
    assert_eq!(distance.numerator() as f64 / distance.denominator() as f64, 3.0 / 4.0);
}

#[test]
fn levenshtein_between_empty_sequences() {
    let empty: [u8; 0] = [];
    assert_eq!(levenshtein_recursive(&empty, &empty).unwrap(), 0);
    assert_eq!(levenshtein_wagner_fisher(&empty, &empty).unwrap(), 0);
    let normalized = Levenshtein::default().normalize_result(true).distance(&empty, &empty).unwrap();
    assert_eq!(normalized.numerator(), 0);
    assert_eq!(normalized.denominator(), 1);
}

#[test]
fn levenshtein_from_and_to_the_empty_sequence_counts_elements() {
    let empty: [u8; 0] = [];
    let x = [1u8, 2, 3, 4];
    assert_eq!(levenshtein_recursive(&empty, &x).unwrap(), 4);
    assert_eq!(levenshtein_recursive(&x, &empty).unwrap(), 4);
    assert_eq!(levenshtein_wagner_fisher(&empty, &x).unwrap(), 4);
    assert_eq!(levenshtein_wagner_fisher(&x, &empty).unwrap(), 4);
    let normalized = Levenshtein::default().normalize_result(true).distance(&x, &empty).unwrap();
    assert_eq!(normalized.numerator(), 4);
    assert_eq!(normalized.denominator(), 4);
}

#[test]
fn levenshtein_kitten_sitting() {
    let x: Vec<char> = "kitten".chars().collect();
    let y: Vec<char> = "sitting".chars().collect();
    assert_eq!(levenshtein_wagner_fisher(&x, &y).unwrap(), 3);
    assert_eq!(levenshtein_recursive(&x, &y).unwrap(), 3);
}

#[test]
fn levenshtein_counts_a_swap_as_two_edits() {
    assert_eq!(levenshtein_wagner_fisher(&[1, 2, 3], &[1, 3, 2]).unwrap(), 2);
    assert_eq!(levenshtein_recursive(&[1, 2, 3], &[1, 3, 2]).unwrap(), 2);
}

#[test]
fn levenshtein_on_multibyte_text() {
    let x: Vec<char> = "Hello-МИР".chars().collect();
    let y: Vec<char> = "Hello-ПИР".chars().collect();
    assert_eq!(levenshtein_wagner_fisher(&x, &y).unwrap() as f64, 1.0);
    assert_eq!(levenshtein_recursive(&x[6..], &y[6..]).unwrap() as f64, 1.0);
    let distance = Levenshtein::default().distance(&x, &y).unwrap();
    assert_eq!(distance.numerator() as f64 / distance.denominator() as f64, 1.0);
}

#[test]
fn levenshtein_on_text_decoded_by_the_library() {
    let x = decode("Hello-МИР");
    let y = decode("Hello-ПИР");
    assert_eq!(x.len(), 9);
    assert_eq!(levenshtein_wagner_fisher(&x, &y).unwrap(), 1);
}

#[test]
fn levenshtein_is_zero_on_equal_arguments() {
    let s = [3, 1, 4, 1, 5, 9];
    assert_eq!(levenshtein_recursive(&s, &s).unwrap(), 0);
    assert_eq!(levenshtein_wagner_fisher(&s, &s).unwrap(), 0);
}

#[test]
fn levenshtein_is_symmetric() {
    let x = [1, 5, 3];
    let y = [4, 5, 6, 7];
    assert_eq!(levenshtein_wagner_fisher(&x, &y).unwrap(), levenshtein_wagner_fisher(&y, &x).unwrap());
    assert_eq!(levenshtein_recursive(&x, &y).unwrap(), levenshtein_recursive(&y, &x).unwrap());
}

#[test]
fn levenshtein_strategies_agree() {
    let inputs: [&[u8]; 6] = [&[], &[1], &[1, 2], &[2, 1, 2], &[3, 1, 2, 2], &[1, 1, 1, 1, 1]];
    for x in inputs {
        for y in inputs {
            let recursive = levenshtein_recursive(x, y).unwrap();
            let table = levenshtein_wagner_fisher(x, y).unwrap();
            assert_eq!(recursive, table);
            let by_option = Levenshtein::new(AlgorithmType::Recursive).distance(x, y).unwrap();
            assert_eq!(by_option.numerator(), table);
            assert_eq!(by_option.denominator(), 1);
        }
    }
}

#[test]
fn levenshtein_normalized_lies_between_zero_and_one() {
    let inputs: [&[u8]; 5] = [&[], &[1], &[1, 2], &[2, 1, 2], &[9, 9, 9, 9]];
    for x in inputs {
        for y in inputs {
            let distance = Levenshtein::default().normalize_result(true).distance(x, y).unwrap();
            assert!(distance.denominator() > 0);
            assert!(distance.numerator() <= distance.denominator());
        }
    }
}

#[test]
fn levenshtein_default_options() {
    assert!(matches!(AlgorithmType::default(), AlgorithmType::WagnerFisher));
    let distance = Levenshtein::default().distance(&[1, 2], &[3, 4]).unwrap();
    assert_eq!(distance.numerator(), 2);
    assert_eq!(distance.denominator(), 1);
    let distance = Levenshtein::default()
        .normalize_result(true)
        .normalize_result(false)
        .distance(&[1, 2], &[3, 4])
        .unwrap();
    assert_eq!(distance.denominator(), 1);
}

#[test]
fn levenshtein_on_a_sequence_of_references() {
    let a = 1;
    let b = 2;
    let c = 3;
    let x = [&a, &b, &c];
    let y = [&a, &c];
    assert_eq!(levenshtein_wagner_fisher(&x, &y).unwrap(), 1);
}
