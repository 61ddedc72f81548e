//! The Levenshtein distance: the least number of insertions, deletions and
//! substitutions of single elements that turn one sequence into another.

use crate::distance::Distance;
use crate::edit_based::{
    bordered_table, cost_of_substitution, has_shape, min, min3, substitution_cost,
};
use crate::error::SpatiumError;
use crate::normalize::{
    is_normalized, is_reported, lemma_normalized_in_unit_interval, max_len, report,
};
use crate::types::element::Element;
use vstd::prelude::*;

pub mod recursive;
pub mod wagner_fisher;

verus! {

/// The strategy by which the Levenshtein distance is computed. The
/// strategies differ in cost, never in the distance they give.
#[derive(Debug, Clone, Copy)]
pub enum AlgorithmType {
    /// The recursive definition taken literally, in exponential time: a
    /// reference, not for inputs of any size.
    Recursive,
    /// The Wagner-Fischer table, in time and memory that grow with the
    /// product of the two lengths.
    WagnerFisher,
}

impl Default for AlgorithmType {
    fn default() -> (algorithm_type: Self)
        ensures
            algorithm_type == AlgorithmType::WagnerFisher,
    {
        AlgorithmType::WagnerFisher
    }
}

/// The Levenshtein distance with its options: the strategy, and whether the
/// distance is reported normalized.
pub struct Levenshtein {
    algorithm_type: AlgorithmType,
    normalized: bool,
}

impl Default for Levenshtein {
    fn default() -> (algorithm: Self)
        ensures
            algorithm.algorithm_type() == AlgorithmType::WagnerFisher,
            !algorithm.normalized(),
    {
        Levenshtein { algorithm_type: AlgorithmType::WagnerFisher, normalized: false }
    }
}

impl Levenshtein {
    /// The strategy that `distance` uses.
    pub closed spec fn algorithm_type(&self) -> AlgorithmType {
        self.algorithm_type
    }

    /// Whether `distance` reports the distance normalized.
    pub closed spec fn normalized(&self) -> bool {
        self.normalized
    }

    /// The distance by the strategy `alg_type`, not normalized.
    pub fn new(alg_type: AlgorithmType) -> (algorithm: Self)
        ensures
            algorithm.algorithm_type() == alg_type,
            !algorithm.normalized(),
    {
        Levenshtein { algorithm_type: alg_type, normalized: false }
    }

    /// Sets whether the distance is reported normalized: divided by the
    /// length of the longer sequence.
    pub fn normalize_result(self, normalized: bool) -> (algorithm: Self)
        ensures
            algorithm.algorithm_type() == self.algorithm_type(),
            algorithm.normalized() == normalized,
    {
        Levenshtein { algorithm_type: self.algorithm_type, normalized }
    }

    /// The Levenshtein distance between `x` and `y`, normalized where that
    /// was asked for. What is returned does not depend on the strategy.
    pub fn distance<T: Element>(&self, x: &[T], y: &[T]) -> (result: Result<Distance, SpatiumError>)
        requires
            x@.len() < usize::MAX,
            y@.len() < usize::MAX,
        ensures
            result is Ok,
            is_reported(
                result->Ok_0,
                levenshtein_distance(x@, y@),
                self.normalized(),
                x@.len(),
                y@.len(),
            ),
            self.normalized() ==> result->Ok_0.spec_numerator() <= result->Ok_0.spec_denominator(),
    {
        let distance = match self.algorithm_type {
            AlgorithmType::Recursive => levenshtein_recursive(x, y),
            AlgorithmType::WagnerFisher => levenshtein_wagner_fisher(x, y),
        };
        match distance {
            Ok(distance) => {
                proof {
                    lemma_levenshtein_bounded(x@, y@);
                }
                report(distance, self.normalized, x.len(), y.len())
            },
            Err(error) => Err(error),
        }
    }
}

/// The Levenshtein distance between `x` and `y`.
///
/// Turning a sequence into the empty one, or the empty one into a sequence,
/// takes one edit for each element. Otherwise the last edit is a deletion
/// from `x`, an insertion of the last element of `y`, or a substitution of
/// the last element of `x` by that of `y`, which is free where the two are
/// equal.
pub open spec fn levenshtein_distance<T>(x: Seq<T>, y: Seq<T>) -> nat
    decreases x.len() + y.len(),
{
    if x.len() == 0 {
        y.len()
    } else if y.len() == 0 {
        x.len()
    } else {
        min3(
            levenshtein_distance(x.drop_last(), y) + 1,
            levenshtein_distance(x, y.drop_last()) + 1,
            levenshtein_distance(x.drop_last(), y.drop_last()) + substitution_cost(
                x.last(),
                y.last(),
            ),
        )
    }
}

/// The distance is at most the length of the longer sequence.
pub proof fn lemma_levenshtein_bounded<T>(x: Seq<T>, y: Seq<T>)
    ensures
        levenshtein_distance(x, y) <= max_len(x.len(), y.len()),
    decreases x.len() + y.len(),
{
    if x.len() > 0 && y.len() > 0 {
        lemma_levenshtein_bounded(x.drop_last(), y.drop_last());
    }
}

/// A sequence is at distance zero from itself.
pub proof fn lemma_levenshtein_identity<T>(s: Seq<T>)
    ensures
        levenshtein_distance(s, s) == 0,
    decreases s.len(),
{
    if s.len() > 0 {
        lemma_levenshtein_identity(s.drop_last());
    }
}

/// The distance does not depend on the order of its arguments.
pub proof fn lemma_levenshtein_symmetry<T>(x: Seq<T>, y: Seq<T>)
    ensures
        levenshtein_distance(x, y) == levenshtein_distance(y, x),
    decreases x.len() + y.len(),
{
    if x.len() > 0 && y.len() > 0 {
        lemma_levenshtein_symmetry(x.drop_last(), y);
        lemma_levenshtein_symmetry(x, y.drop_last());
        lemma_levenshtein_symmetry(x.drop_last(), y.drop_last());
    }
}

/// The normalized distance between any two sequences lies between zero
/// and one.
pub proof fn lemma_levenshtein_normalized_bounded<T>(x: Seq<T>, y: Seq<T>, normalized: Distance)
    requires
        is_normalized(normalized, levenshtein_distance(x, y), x.len(), y.len()),
    ensures
        0 <= normalized.spec_numerator() <= normalized.spec_denominator(),
        normalized.spec_denominator() > 0,
{
    lemma_levenshtein_bounded(x, y);
    lemma_normalized_in_unit_interval(normalized, levenshtein_distance(x, y), x.len(), y.len());
}

/// Cell `(i, j)` of the Wagner-Fischer table for `x` and `y`: the first
/// row and the first column count up from zero, and every other cell is
/// one more than the cell above or the cell to the left, or the cell above
/// and to the left plus the cost of substituting element `i` of `x` by
/// element `j` of `y`, whichever is least.
pub open spec fn wagner_fisher_cell<T>(x: Seq<T>, y: Seq<T>, i: nat, j: nat) -> nat
    decreases i + j,
{
    if i == 0 {
        j
    } else if j == 0 {
        i
    } else {
        min3(
            wagner_fisher_cell(x, y, (i - 1) as nat, j) + 1,
            wagner_fisher_cell(x, y, i, (j - 1) as nat) + 1,
            wagner_fisher_cell(x, y, (i - 1) as nat, (j - 1) as nat) + substitution_cost(
                x[i - 1],
                y[j - 1],
            ),
        )
    }
}

/// Cell `(i, j)` of an executable table holds what the Wagner-Fischer
/// table holds there, which is no more than the greater of `i` and `j`.
pub open spec fn cell_holds_distance<T>(
    table: Seq<Vec<usize>>,
    x: Seq<T>,
    y: Seq<T>,
    i: int,
    j: int,
) -> bool {
    &&& table[i]@[j] <= max_len(i as nat, j as nat)
    &&& table[i]@[j] == wagner_fisher_cell(x, y, i as nat, j as nat)
}

/// The recurrence read on prefixes: the distance between the first `i`
/// elements of `x` and the first `j` of `y`, from the three distances that
/// the cell's neighbours hold.
pub proof fn lemma_levenshtein_step<T>(x: Seq<T>, y: Seq<T>, i: int, j: int)
    requires
        0 < i <= x.len(),
        0 < j <= y.len(),
    ensures
        levenshtein_distance(x.take(i), y.take(j)) == min3(
            levenshtein_distance(x.take(i - 1), y.take(j)) + 1,
            levenshtein_distance(x.take(i), y.take(j - 1)) + 1,
            levenshtein_distance(x.take(i - 1), y.take(j - 1)) + substitution_cost(
                x[i - 1],
                y[j - 1],
            ),
        ),
{
    assert(x.take(i).drop_last() == x.take(i - 1));
    assert(y.take(j).drop_last() == y.take(j - 1));
}

/// Every cell of the Wagner-Fischer table is the distance between two
/// prefixes: cell `(i, j)` is the distance between the first `i` elements
/// of `x` and the first `j` elements of `y`.
pub proof fn lemma_cell_is_prefix_distance<T>(x: Seq<T>, y: Seq<T>, i: nat, j: nat)
    requires
        i <= x.len(),
        j <= y.len(),
    ensures
        wagner_fisher_cell(x, y, i, j) == levenshtein_distance(x.take(i as int), y.take(j as int)),
    decreases i + j,
{
    if i > 0 && j > 0 {
        lemma_cell_is_prefix_distance(x, y, (i - 1) as nat, j);
        lemma_cell_is_prefix_distance(x, y, i, (j - 1) as nat);
        lemma_cell_is_prefix_distance(x, y, (i - 1) as nat, (j - 1) as nat);
        lemma_levenshtein_step(x, y, i as int, j as int);
    }
}

/// The two strategies agree: the last cell of the Wagner-Fischer table is
/// the distance that the recursive definition gives.
pub proof fn lemma_strategies_agree<T>(x: Seq<T>, y: Seq<T>)
    ensures
        wagner_fisher_cell(x, y, x.len(), y.len()) == levenshtein_distance(x, y),
{
    lemma_cell_is_prefix_distance(x, y, x.len(), y.len());
    assert(x.take(x.len() as int) == x);
    assert(y.take(y.len() as int) == y);
}

/// The Levenshtein distance between `x` and `y`, by the Wagner-Fischer
/// algorithm: a table of the distances between all prefixes of `x` and all
/// prefixes of `y`, filled row by row. Time and memory grow with the
/// product of the two lengths.
pub fn levenshtein_wagner_fisher<T: Element>(x: &[T], y: &[T]) -> (result: Result<usize, SpatiumError>)
    requires
        x@.len() < usize::MAX,
        y@.len() < usize::MAX,
    ensures
        result is Ok,
        result->Ok_0 <= max_len(x@.len(), y@.len()),
        result->Ok_0 == levenshtein_distance(x@, y@),
{
    let x_len: usize = x.len();
    let y_len: usize = y.len();

    let mut table: Vec<Vec<usize>> = bordered_table(x_len, y_len);

    assert forall|b: int| 0 <= b <= y_len implies #[trigger] cell_holds_distance(
        table@,
        x@,
        y@,
        0,
        b,
    ) by {}

    let mut i: usize = 1;
    while i <= x_len
        invariant
            1 <= i <= x_len + 1,
            x_len == x@.len(),
            y_len == y@.len(),
            x_len < usize::MAX,
            y_len < usize::MAX,
            has_shape(table@, (x_len + 1) as nat, (y_len + 1) as nat),
            forall|a: int| 0 <= a <= x_len ==> (#[trigger] table@[a])@[0] == a,
            forall|a: int, b: int|
                0 <= a < i && 0 <= b <= y_len ==> #[trigger] cell_holds_distance(
                    table@,
                    x@,
                    y@,
                    a,
                    b,
                ),
        decreases x_len + 1 - i,
    {
        assert(cell_holds_distance(table@, x@, y@, i as int, 0));
        let mut j: usize = 1;
        while j <= y_len
            invariant
                1 <= i <= x_len,
                1 <= j <= y_len + 1,
                x_len == x@.len(),
                y_len == y@.len(),
                x_len < usize::MAX,
                y_len < usize::MAX,
                has_shape(table@, (x_len + 1) as nat, (y_len + 1) as nat),
                forall|a: int| 0 <= a <= x_len ==> (#[trigger] table@[a])@[0] == a,
                forall|a: int, b: int|
                    0 <= a < i && 0 <= b <= y_len ==> #[trigger] cell_holds_distance(
                        table@,
                        x@,
                        y@,
                        a,
                        b,
                    ),
                forall|b: int|
                    0 <= b < j ==> #[trigger] cell_holds_distance(table@, x@, y@, i as int, b),
            decreases y_len + 1 - j,
        {
            let cost: usize = cost_of_substitution(&x[i - 1], &y[j - 1]);
            assert(cell_holds_distance(table@, x@, y@, i - 1, j as int));
            assert(cell_holds_distance(table@, x@, y@, i as int, j - 1));
            assert(cell_holds_distance(table@, x@, y@, i - 1, j - 1));
            let cell: usize = min(
                min(
                    table[i - 1][j] + 1,  // deletion
                    table[i][j - 1] + 1,  // insertion
                ),
                table[i - 1][j - 1] + cost,  // substitution
            );
            let ghost before = table@;
            table[i][j] = cell;
            assert forall|a: int, b: int| 0 <= a < i && 0 <= b <= y_len implies #[trigger] cell_holds_distance(
                table@,
                x@,
                y@,
                a,
                b,
            ) by {
                assert(cell_holds_distance(before, x@, y@, a, b));
            }
            assert forall|b: int| 0 <= b < j + 1 implies #[trigger] cell_holds_distance(
                table@,
                x@,
                y@,
                i as int,
                b,
            ) by {
                if b < j {
                    assert(cell_holds_distance(before, x@, y@, i as int, b));
                }
            }
            j += 1;
        }
        i += 1;
    }
    proof {
        assert(cell_holds_distance(table@, x@, y@, x_len as int, y_len as int));
        lemma_strategies_agree(x@, y@);
    }
    Ok(table[x_len][y_len])
}

/// The Levenshtein distance between `x` and `y`, by the recursive
/// definition taken literally. The time this takes grows exponentially with
/// the lengths, and the depth of the recursion with their sum: it is a
/// reference to hold other strategies against, not for inputs of any size.
pub fn levenshtein_recursive<T: Element>(x: &[T], y: &[T]) -> (result: Result<usize, SpatiumError>)
    requires
        x@.len() < usize::MAX,
        y@.len() < usize::MAX,
    ensures
        result is Ok,
        result->Ok_0 <= max_len(x@.len(), y@.len()),
        result->Ok_0 == levenshtein_distance(x@, y@),
    decreases x@.len() + y@.len(),
{
    let x_len: usize = x.len();
    let y_len: usize = y.len();
    if x_len == 0 {
        return Ok(y_len);
    }
    if y_len == 0 {
        return Ok(x_len);
    }
    let cost: usize = cost_of_substitution(&x[x_len - 1], &y[y_len - 1]);
    let x_front: &[T] = &x[0..x_len - 1];
    let y_front: &[T] = &y[0..y_len - 1];
    assert(x_front@ == x@.drop_last());
    assert(y_front@ == y@.drop_last());

    Ok(
        min(
            min(
                levenshtein_recursive(x_front, y).unwrap() + 1,
                levenshtein_recursive(x, y_front).unwrap() + 1,
            ),
            levenshtein_recursive(x_front, y_front).unwrap() + cost,
        ),
    )
}

} // verus!
