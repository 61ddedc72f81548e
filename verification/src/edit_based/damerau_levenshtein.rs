//! The Damerau-Levenshtein distance in its optimal-string-alignment form:
//! the Levenshtein distance with one more edit, the swap of two neighbouring
//! elements. No element takes part in more than one edit.

use crate::distance::Distance;
use crate::edit_based::{
    bordered_table, cost_of_substitution, has_shape, min, min3, substitution_cost,
};
use crate::error::SpatiumError;
use crate::normalize::{
    is_normalized, is_reported, lemma_normalized_in_unit_interval, max_len, report,
};
use crate::types::element::Element;
use vstd::prelude::*;

pub mod damerau_levenshtein1;

verus! {

/// The Damerau-Levenshtein distance with its option: whether the distance
/// is reported normalized.
pub struct DamerauLevenshtein {
    normalized: bool,
}

impl Default for DamerauLevenshtein {
    fn default() -> (algorithm: Self)
        ensures
            !algorithm.normalized(),
    {
        DamerauLevenshtein { normalized: false }
    }
}

impl DamerauLevenshtein {
    /// Whether `distance` reports the distance normalized.
    pub closed spec fn normalized(&self) -> bool {
        self.normalized
    }

    /// The distance, not normalized.
    pub fn new() -> (algorithm: Self)
        ensures
            !algorithm.normalized(),
    {
        DamerauLevenshtein { normalized: false }
    }

    /// Sets whether the distance is reported normalized: divided by the
    /// length of the longer sequence.
    pub fn normalize_result(self, normalized: bool) -> (algorithm: Self)
        ensures
            algorithm.normalized() == normalized,
    {
        DamerauLevenshtein { normalized }
    }

    /// The Damerau-Levenshtein distance between `x` and `y`, normalized
    /// where that was asked for.
    pub fn distance<T: Element>(&self, x: &[T], y: &[T]) -> (result: Result<Distance, SpatiumError>)
        requires
            x@.len() < usize::MAX,
            y@.len() < usize::MAX,
        ensures
            result is Ok,
            is_reported(
                result->Ok_0,
                damerau_levenshtein_distance(x@, y@),
                self.normalized(),
                x@.len(),
                y@.len(),
            ),
            self.normalized() ==> result->Ok_0.spec_numerator() <= result->Ok_0.spec_denominator(),
    {
        match damerau_levenshtein(x, y) {
            Ok(distance) => {
                proof {
                    lemma_damerau_levenshtein_bounded(x@, y@);
                }
                report(distance, self.normalized, x.len(), y.len())
            },
            Err(error) => Err(error),
        }
    }
}

/// The last two elements of `x` are the last two elements of `y`, swapped.
pub open spec fn ends_transposed<T>(x: Seq<T>, y: Seq<T>) -> bool {
    &&& x.len() > 1
    &&& y.len() > 1
    &&& x[x.len() - 1] == y[y.len() - 2]
    &&& x[x.len() - 2] == y[y.len() - 1]
}

/// The Damerau-Levenshtein distance between `x` and `y`.
///
/// It is the Levenshtein recurrence, relaxed where the two sequences end in
/// a swapped pair: there the last edit may also be the swap, one edit after
/// the distance between what precedes the two pairs.
pub open spec fn damerau_levenshtein_distance<T>(x: Seq<T>, y: Seq<T>) -> nat
    decreases x.len() + y.len(),
{
    if x.len() == 0 {
        y.len()
    } else if y.len() == 0 {
        x.len()
    } else {
        let edited = min3(
            damerau_levenshtein_distance(x.drop_last(), y) + 1,
            damerau_levenshtein_distance(x, y.drop_last()) + 1,
            damerau_levenshtein_distance(x.drop_last(), y.drop_last()) + substitution_cost(
                x.last(),
                y.last(),
            ),
        );
        if ends_transposed(x, y) {
            let swapped = damerau_levenshtein_distance(
                x.take(x.len() - 2),
                y.take(y.len() - 2),
            ) + 1;
            if swapped < edited {
                swapped
            } else {
                edited
            }
        } else {
            edited
        }
    }
}

/// The distance is at most the length of the longer sequence.
pub proof fn lemma_damerau_levenshtein_bounded<T>(x: Seq<T>, y: Seq<T>)
    ensures
        damerau_levenshtein_distance(x, y) <= max_len(x.len(), y.len()),
    decreases x.len() + y.len(),
{
    if x.len() > 0 && y.len() > 0 {
        lemma_damerau_levenshtein_bounded(x.drop_last(), y.drop_last());
    }
}

/// A sequence is at distance zero from itself.
pub proof fn lemma_damerau_levenshtein_identity<T>(s: Seq<T>)
    ensures
        damerau_levenshtein_distance(s, s) == 0,
    decreases s.len(),
{
    if s.len() > 0 {
        lemma_damerau_levenshtein_identity(s.drop_last());
    }
}

/// The distance does not depend on the order of its arguments.
pub proof fn lemma_damerau_levenshtein_symmetry<T>(x: Seq<T>, y: Seq<T>)
    ensures
        damerau_levenshtein_distance(x, y) == damerau_levenshtein_distance(y, x),
    decreases x.len() + y.len(),
{
    if x.len() > 0 && y.len() > 0 {
        lemma_damerau_levenshtein_symmetry(x.drop_last(), y);
        lemma_damerau_levenshtein_symmetry(x, y.drop_last());
        lemma_damerau_levenshtein_symmetry(x.drop_last(), y.drop_last());
        if ends_transposed(x, y) {
            lemma_damerau_levenshtein_symmetry(x.take(x.len() - 2), y.take(y.len() - 2));
        }
    }
}

/// The normalized distance between any two sequences lies between zero
/// and one.
pub proof fn lemma_damerau_levenshtein_normalized_bounded<T>(
    x: Seq<T>,
    y: Seq<T>,
    normalized: Distance,
)
    requires
        is_normalized(normalized, damerau_levenshtein_distance(x, y), x.len(), y.len()),
    ensures
        0 <= normalized.spec_numerator() <= normalized.spec_denominator(),
        normalized.spec_denominator() > 0,
{
    lemma_damerau_levenshtein_bounded(x, y);
    lemma_normalized_in_unit_interval(
        normalized,
        damerau_levenshtein_distance(x, y),
        x.len(),
        y.len(),
    );
}

/// Cell `(i, j)` of the table holds the distance between the first `i`
/// elements of `x` and the first `j` elements of `y`, which is no more than
/// the greater of `i` and `j`.
pub open spec fn cell_holds_distance<T>(
    table: Seq<Vec<usize>>,
    x: Seq<T>,
    y: Seq<T>,
    i: int,
    j: int,
) -> bool {
    &&& table[i]@[j] <= max_len(i as nat, j as nat)
    &&& table[i]@[j] == damerau_levenshtein_distance(
        x.take(i),
        y.take(j),
    )
}

/// The first `i` elements of `x` and the first `j` of `y` end in a swapped
/// pair.
pub open spec fn transposed_at<T>(x: Seq<T>, y: Seq<T>, i: int, j: int) -> bool {
    i > 1 && j > 1 && x[i - 1] == y[j - 2] && x[i - 2] == y[j - 1]
}

/// The recurrence read on prefixes: the distance between the first `i`
/// elements of `x` and the first `j` of `y`, from the distances that the
/// cell's neighbours hold.
pub proof fn lemma_damerau_levenshtein_step<T>(x: Seq<T>, y: Seq<T>, i: int, j: int)
    requires
        0 < i <= x.len(),
        0 < j <= y.len(),
    ensures
        ({
            let edited = min3(
                damerau_levenshtein_distance(x.take(i - 1), y.take(j)) + 1,
                damerau_levenshtein_distance(x.take(i), y.take(j - 1)) + 1,
                damerau_levenshtein_distance(x.take(i - 1), y.take(j - 1)) + substitution_cost(
                    x[i - 1],
                    y[j - 1],
                ),
            );
            let swapped = damerau_levenshtein_distance(x.take(i - 2), y.take(j - 2)) + 1;
            damerau_levenshtein_distance(x.take(i), y.take(j)) == if transposed_at(x, y, i, j)
                && swapped < edited {
                swapped
            } else {
                edited
            }
        }),
{
    assert(x.take(i).drop_last() == x.take(i - 1));
    assert(y.take(j).drop_last() == y.take(j - 1));
    assert(ends_transposed(x.take(i), y.take(j)) == transposed_at(x, y, i, j));
    if transposed_at(x, y, i, j) {
        assert(x.take(i).take(i - 2) == x.take(i - 2));
        assert(y.take(j).take(j - 2) == y.take(j - 2));
    }
}

/// The Damerau-Levenshtein distance between `x` and `y`: a table of the
/// distances between all prefixes of `x` and all prefixes of `y`, filled
/// row by row. Time and memory grow with the product of the two lengths.
pub fn damerau_levenshtein<T: Element>(x: &[T], y: &[T]) -> (result: Result<usize, SpatiumError>)
    requires
        x@.len() < usize::MAX,
        y@.len() < usize::MAX,
    ensures
        result is Ok,
        result->Ok_0 <= max_len(x@.len(), y@.len()),
        result->Ok_0 == damerau_levenshtein_distance(x@, y@),
{
    let x_len: usize = x.len();
    let y_len: usize = y.len();

    let mut table: Vec<Vec<usize>> = bordered_table(x_len, y_len);

    assert forall|b: int| 0 <= b <= y_len implies #[trigger] cell_holds_distance(
        table@,
        x@,
        y@,
        0,
        b,
    ) by {}

    let mut i: usize = 1;
    while i <= x_len
        invariant
            1 <= i <= x_len + 1,
            x_len == x@.len(),
            y_len == y@.len(),
            x_len < usize::MAX,
            y_len < usize::MAX,
            has_shape(table@, (x_len + 1) as nat, (y_len + 1) as nat),
            forall|a: int| 0 <= a <= x_len ==> (#[trigger] table@[a])@[0] == a,
            forall|a: int, b: int|
                0 <= a < i && 0 <= b <= y_len ==> #[trigger] cell_holds_distance(
                    table@,
                    x@,
                    y@,
                    a,
                    b,
                ),
        decreases x_len + 1 - i,
    {
        assert(cell_holds_distance(table@, x@, y@, i as int, 0));
        let mut j: usize = 1;
        while j <= y_len
            invariant
                1 <= i <= x_len,
                1 <= j <= y_len + 1,
                x_len == x@.len(),
                y_len == y@.len(),
                x_len < usize::MAX,
                y_len < usize::MAX,
                has_shape(table@, (x_len + 1) as nat, (y_len + 1) as nat),
                forall|a: int| 0 <= a <= x_len ==> (#[trigger] table@[a])@[0] == a,
                forall|a: int, b: int|
                    0 <= a < i && 0 <= b <= y_len ==> #[trigger] cell_holds_distance(
                        table@,
                        x@,
                        y@,
                        a,
                        b,
                    ),
                forall|b: int|
                    0 <= b < j ==> #[trigger] cell_holds_distance(table@, x@, y@, i as int, b),
            decreases y_len + 1 - j,
        {
            let cost: usize = cost_of_substitution(&x[i - 1], &y[j - 1]);
            assert(cell_holds_distance(table@, x@, y@, i - 1, j as int));
            assert(cell_holds_distance(table@, x@, y@, i as int, j - 1));
            assert(cell_holds_distance(table@, x@, y@, i - 1, j - 1));
            let mut cell: usize = min(
                min(
                    table[i - 1][j] + 1,  // deletion
                    table[i][j - 1] + 1,  // insertion
                ),
                table[i - 1][j - 1] + cost,  // substitution
            );
            proof {
                lemma_damerau_levenshtein_step(x@, y@, i as int, j as int);
            }
            if i > 1 && j > 1 && x[i - 1].same_as(&y[j - 2]) && x[i - 2].same_as(&y[j - 1]) {
                assert(cell_holds_distance(table@, x@, y@, i - 2, j - 2));
                cell = min(cell, table[i - 2][j - 2] + 1);  // transposition
            }
            let ghost before = table@;
            table[i][j] = cell;
            assert forall|a: int, b: int| 0 <= a < i && 0 <= b <= y_len implies #[trigger] cell_holds_distance(
                table@,
                x@,
                y@,
                a,
                b,
            ) by {
                assert(cell_holds_distance(before, x@, y@, a, b));
            }
            assert forall|b: int| 0 <= b < j + 1 implies #[trigger] cell_holds_distance(
                table@,
                x@,
                y@,
                i as int,
                b,
            ) by {
                if b < j {
                    assert(cell_holds_distance(before, x@, y@, i as int, b));
                }
            }
            j += 1;
        }
        i += 1;
    }
    proof {
        assert(cell_holds_distance(table@, x@, y@, x_len as int, y_len as int));
        assert(x@.take(x_len as int) == x@);
        assert(y@.take(y_len as int) == y@);
    }
    Ok(table[x_len][y_len])
}

} // verus!
