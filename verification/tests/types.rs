use spatium::types::element::Element;
use spatium::types::exact_size_iterator::SpatiumExactSizeIterator;
use spatium::types::iterator::SpatiumIterator;

#[test]
fn spatium_iterator_from_array() {
    let x = [1, 2, 3];
    let mut y = SpatiumIterator::from(&x);
    let mut yielded = Vec::new();
    while let Some(element) = y.next() {
        yielded.push(*element);
    }
    assert_eq!(x.iter().eq(yielded.iter()), true);
}

#[test]
fn spatium_iterator_from_slice() {
    let x = [1, 2, 3];
    let mut y = SpatiumIterator::from(&x[..]);
    let mut yielded = Vec::new();
    while let Some(element) = y.next() {
        yielded.push(*element);
    }
    assert_eq!(x.iter().eq(yielded.iter()), true);
}

#[test]
fn spatium_iterator_from_vec() {
    let x = vec![1, 2, 3];
    let mut y = SpatiumIterator::from(&x);
    let mut yielded = Vec::new();
    while let Some(element) = y.next() {
        yielded.push(*element);
    }
    assert_eq!(x.iter().eq(yielded.iter()), true);
}

#[test]
fn spatium_iterator_from_str() {
    let x = "Hello";
    let mut y = SpatiumIterator::from(x);
    let mut yielded = Vec::new();
    while let Some(element) = y.next() {
        yielded.push(*element);
    }
    assert_eq!(x.chars().eq(yielded.into_iter()), true);
}

#[test]
fn spatium_iterator_from_string() {
    let x = String::from("Hello");
    let mut y = SpatiumIterator::from(&x);
    let mut yielded = Vec::new();
    while let Some(element) = y.next() {
        yielded.push(*element);
    }
    assert_eq!(x.chars().eq(yielded.into_iter()), true);
}

#[test]
fn spatium_exact_size_iterator_from_array() {
    let x = [1, 2, 3];
    let mut y = SpatiumExactSizeIterator::from(&x);
    let mut yielded = Vec::new();
    while let Some(element) = y.next() {
        yielded.push(*element);
    }
    assert_eq!(x.iter().eq(yielded.iter()), true);
}

#[test]
fn spatium_exact_size_iterator_from_slice() {
    let x = [1, 2, 3];
    let mut y = SpatiumExactSizeIterator::from(&x[..]);
    let mut yielded = Vec::new();
    while let Some(element) = y.next() {
        yielded.push(*element);
    }
    assert_eq!(x.iter().eq(yielded.iter()), true);
}

#[test]
fn spatium_exact_size_iterator_from_vec() {
    let x = vec![1, 2, 3];
    let mut y = SpatiumExactSizeIterator::from(&x);
    let mut yielded = Vec::new();
    while let Some(element) = y.next() {
        yielded.push(*element);
    }
    assert_eq!(x.iter().eq(yielded.iter()), true);
}

#[test]
fn spatium_exact_size_iterator_from_str() {
    let x = "Hello";
    let mut y = SpatiumExactSizeIterator::from(x);
    let mut yielded = Vec::new();
    while let Some(element) = y.next() {
        yielded.push(*element);
    }
    assert_eq!(x.chars().eq(yielded.into_iter()), true);
}

#[test]
fn spatium_exact_soze_iterator_from_string() {
    let x = String::from("Hello");
    let mut y = SpatiumExactSizeIterator::from(&x);
    let mut yielded = Vec::new();
    while let Some(element) = y.next() {
        yielded.push(*element);
    }
    assert_eq!(x.chars().eq(yielded.into_iter()), true);
}

#[test]
fn view_yields_none_once_exhausted_and_stays_exhausted() {
    let x = [7];
    let mut y = SpatiumIterator::from(&x);
    assert_eq!(y.next(), Some(&7));
    assert_eq!(y.next(), None);
    assert_eq!(y.next(), None);
}

#[test]
fn view_over_nothing_yields_nothing() {
    let x: [u8; 0] = [];
    let mut y = SpatiumIterator::from(&x);
    assert_eq!(y.next(), None);
    let mut z = SpatiumExactSizeIterator::from(&x);
    assert_eq!(z.len(), 0);
    assert_eq!(z.next(), None);
}

#[test]
fn length_of_a_view_counts_elements_and_does_not_change() {
    let x = vec![4, 5, 6];
    let mut y = SpatiumExactSizeIterator::from(&x);
    assert_eq!(y.len(), 3);
    assert_eq!(y.next(), Some(&4));
    assert_eq!(y.len(), 3);
    assert_eq!(y.next(), Some(&5));
    assert_eq!(y.next(), Some(&6));
    assert_eq!(y.next(), None);
    assert_eq!(y.len(), 3);
}

#[test]
fn length_of_a_text_view_counts_characters_not_bytes() {
    let x = "Hello-МИР";
    assert_eq!(x.len(), 12);
    let y = SpatiumExactSizeIterator::from(x);
    assert_eq!(y.len(), 9);
    let owned = String::from("Привет");
    let z = SpatiumExactSizeIterator::from(&owned);
    assert_eq!(z.len(), 6);
}

#[test]
fn text_view_yields_decoded_characters() {
    let mut y = SpatiumIterator::from("aМ");
    assert_eq!(y.next(), Some(&'a'));
    assert_eq!(y.next(), Some(&'М'));
    assert_eq!(y.next(), None);
}

#[test]
fn elements_compare_by_value() {
    assert!('a'.same_as(&'a'));
    assert!(!'a'.same_as(&'b'));
    assert!('И'.same_as(&'И'));
    assert!(!'е'.same_as(&'ё'));
    assert!(true.same_as(&true));
    assert!(!true.same_as(&false));
    assert!(7u8.same_as(&7));
    assert!(!7u8.same_as(&8));
    assert!((-3i64).same_as(&-3));
    assert!(!(-3i64).same_as(&3));
    assert!(usize::MAX.same_as(&usize::MAX));
    assert!(!0u128.same_as(&u128::MAX));
}

#[test]
fn references_to_elements_compare_by_what_they_point_to() {
    let one = 1;
    let another_one = 1;
    let two = 2;
    assert!((&one).same_as(&&another_one));
    assert!(!(&one).same_as(&&two));
}
