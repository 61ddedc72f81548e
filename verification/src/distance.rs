use crate::error::SpatiumError;
use crate::normalize::{is_normalized, normalization_undefined, normalize};
use crate::types::element::Element;
use crate::types::exact_size_iterator::SpatiumExactSizeIterator;
use crate::types::iterator::SpatiumIterator;
use vstd::prelude::*;

verus! {

/// A distance that reads its two arguments as one-pass views.
pub trait IteratorsDistance<T: Element> {
    /// The distance between `x` and `y`, or `None` where the two cannot be
    /// compared.
    spec fn spec_distance(&self, x: Seq<T>, y: Seq<T>) -> Option<nat>;

    /// The distance between what two views have yet to yield.
    fn iterators_distance<'a>(&self, x: SpatiumIterator<'a, T>, y: SpatiumIterator<'a, T>) -> (result:
        Result<usize, SpatiumError>)
        ensures
            match self.spec_distance(x@, y@) {
                Some(distance) => result matches Ok(d) && d == distance,
                None => result is Err,
            },
    ;

    /// The distance between two sequences, each given as anything that
    /// converts into a view.
    fn distance<'a, U: Into<SpatiumIterator<'a, T>>>(&self, x: U, y: U) -> (result: Result<
        usize,
        SpatiumError,
    >) where T: 'a
        ensures
            exists|x_view: SpatiumIterator<'a, T>, y_view: SpatiumIterator<'a, T>|
                {
                    &&& #[trigger] call_ensures(U::into, (x,), x_view)
                    &&& #[trigger] call_ensures(U::into, (y,), y_view)
                    &&& match self.spec_distance(x_view@, y_view@) {
                        Some(distance) => result matches Ok(d) && d == distance,
                        None => result is Err,
                    }
                },
    {
        let x = x.into();
        let y = y.into();
        self.iterators_distance(x, y)
    }
}

/// A distance that reads its two arguments as one-pass views that know
/// their length.
pub trait ExactSizeIteratorsDistance<T: Element> {
    /// The distance between `x` and `y`, or `None` where the two cannot be
    /// compared.
    spec fn spec_distance(&self, x: Seq<T>, y: Seq<T>) -> Option<nat>;

    /// The distance between two views from which nothing was taken yet.
    fn exact_size_iterators_distance<'a>(
        &self,
        x: SpatiumExactSizeIterator<'a, T>,
        y: SpatiumExactSizeIterator<'a, T>,
    ) -> (result: Result<usize, SpatiumError>)
        ensures
            x.is_fresh() && y.is_fresh() ==> match self.spec_distance(
                x@,
                y@,
            ) {
                Some(distance) => result matches Ok(d) && d == distance,
                None => result is Err,
            },
    ;

    /// The distance between two sequences, each given as anything that
    /// converts into a view.
    fn distance<'a, U: Into<SpatiumExactSizeIterator<'a, T>>>(&self, x: U, y: U) -> (result: Result<
        usize,
        SpatiumError,
    >) where T: 'a
        ensures
            exists|
                x_view: SpatiumExactSizeIterator<'a, T>,
                y_view: SpatiumExactSizeIterator<'a, T>,
            |
                {
                    &&& #[trigger] call_ensures(U::into, (x,), x_view)
                    &&& #[trigger] call_ensures(U::into, (y,), y_view)
                    &&& x_view.is_fresh() && y_view.is_fresh() ==> match self.spec_distance(
                        x_view@,
                        y_view@,
                    ) {
                        Some(distance) => result matches Ok(d) && d == distance,
                        None => result is Err,
                    }
                },
    {
        let x = x.into();
        let y = y.into();
        self.exact_size_iterators_distance(x, y)
    }

    /// The distance between two sequences, divided by the length of the
    /// longer of the two.
    fn normalized_distance<'a, U: Into<SpatiumExactSizeIterator<'a, T>>>(&self, x: U, y: U) -> (result:
        Result<Distance, SpatiumError>) where T: 'a
        ensures
            exists|
                x_view: SpatiumExactSizeIterator<'a, T>,
                y_view: SpatiumExactSizeIterator<'a, T>,
            |
                {
                    &&& #[trigger] call_ensures(U::into, (x,), x_view)
                    &&& #[trigger] call_ensures(U::into, (y,), y_view)
                    &&& x_view.is_fresh() && y_view.is_fresh() ==> match self.spec_distance(
                        x_view@,
                        y_view@,
                    ) {
                        Some(distance) => if normalization_undefined(
                            distance,
                            x_view@.len(),
                            y_view@.len(),
                        ) {
                            result == Err::<Distance, SpatiumError>(
                                SpatiumError::NormalizationError,
                            )
                        } else {
                            result is Ok && is_normalized(
                                result->Ok_0,
                                distance,
                                x_view@.len(),
                                y_view@.len(),
                            )
                        },
                        None => result is Err,
                    }
                },
    {
        let x = x.into();
        let y = y.into();

        let x_len: usize = x.len();
        let y_len: usize = y.len();

        match self.exact_size_iterators_distance(x, y) {
            Ok(distance) => normalize(distance, x_len, y_len),
            Err(error) => Err(error),
        }
    }
}

/// An exact distance value: the fraction `numerator / denominator`.
///
/// A raw distance has denominator 1. A normalized distance keeps the raw
/// distance as numerator and the length it was divided by as denominator,
/// unreduced.
#[derive(Debug, Clone, Copy)]
pub struct Distance {
    numerator: usize,
    denominator: usize,
}

impl Distance {
    #[verifier::type_invariant]
    spec fn positive_denominator(self) -> bool {
        self.denominator > 0
    }

    /// The numerator of the fraction.
    pub closed spec fn spec_numerator(&self) -> usize {
        self.numerator
    }

    /// The denominator of the fraction.
    pub closed spec fn spec_denominator(&self) -> usize {
        self.denominator
    }

    /// The fraction is `numerator / denominator`.
    pub open spec fn is_fraction(&self, numerator: nat, denominator: nat) -> bool {
        self.spec_numerator() == numerator && self.spec_denominator() == denominator
    }

    /// The whole number `count`, as the fraction `count / 1`.
    pub fn raw(count: usize) -> (distance: Self)
        ensures
            distance.is_fraction(count as nat, 1),
    {
        Distance { numerator: count, denominator: 1 }
    }

    /// The fraction `count / length`.
    pub fn over(count: usize, length: usize) -> (distance: Self)
        requires
            length > 0,
        ensures
            distance.is_fraction(count as nat, length as nat),
    {
        Distance { numerator: count, denominator: length }
    }

    /// The numerator of the fraction.
    #[verifier::when_used_as_spec(spec_numerator)]
    pub fn numerator(&self) -> (numerator: usize)
        ensures
            numerator == self.spec_numerator(),
    {
        self.numerator
    }

    /// The denominator of the fraction; it is never zero.
    #[verifier::when_used_as_spec(spec_denominator)]
    pub fn denominator(&self) -> (denominator: usize)
        ensures
            denominator == self.spec_denominator(),
            denominator > 0,
    {
        proof {
            use_type_invariant(self);
        }
        self.denominator
    }
}

} // verus!
