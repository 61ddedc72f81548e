//! Distances that count edit operations.

use crate::types::element::Element;
use vstd::prelude::*;

pub mod damerau_levenshtein;
pub mod hamming;
pub mod levenshtein;

verus! {

/// What it costs to put `b` in the place of `a`: nothing where the two are
/// equal, one edit otherwise.
pub open spec fn substitution_cost<T>(a: T, b: T) -> nat {
    if a == b {
        0
    } else {
        1
    }
}

/// The least of three numbers.
pub open spec fn min3(a: nat, b: nat, c: nat) -> nat {
    if a <= b && a <= c {
        a
    } else if b <= c {
        b
    } else {
        c
    }
}

/// The table has `rows` rows of `columns` cells each.
pub open spec fn has_shape(table: Seq<Vec<usize>>, rows: nat, columns: nat) -> bool {
    &&& table.len() == rows
    &&& forall|i: int| 0 <= i < rows ==> (#[trigger] table[i])@.len() == columns
}

/// A table of `x_len + 1` rows and `y_len + 1` columns, with its borders
/// filled in: row `i` starts with `i`, the cost of dropping `i` elements,
/// and the first row holds `j` in column `j`, the cost of inserting `j`
/// elements. The other cells are yet to be filled.
pub(crate) fn bordered_table(x_len: usize, y_len: usize) -> (table: Vec<Vec<usize>>)
    requires
        x_len < usize::MAX,
        y_len < usize::MAX,
    ensures
        has_shape(table@, (x_len + 1) as nat, (y_len + 1) as nat),
        forall|i: int| 0 <= i <= x_len ==> (#[trigger] table@[i])@[0] == i,
        forall|j: int| 0 <= j <= y_len ==> #[trigger] table@[0]@[j] == j,
{
    let mut table: Vec<Vec<usize>> = vec![vec![0; y_len + 1]; x_len + 1];

    // a prefix of `x` turns into the empty sequence by dropping its elements
    let mut i: usize = 1;
    while i <= x_len
        invariant
            1 <= i <= x_len + 1,
            x_len < usize::MAX,
            has_shape(table@, (x_len + 1) as nat, (y_len + 1) as nat),
            table@[0]@[0] == 0,
            forall|a: int| 1 <= a < i ==> (#[trigger] table@[a])@[0] == a,
        decreases x_len + 1 - i,
    {
        table[i][0] = i;
        i += 1;
    }

    // the empty sequence turns into a prefix of `y` by inserting its elements
    let mut j: usize = 1;
    while j <= y_len
        invariant
            1 <= j <= y_len + 1,
            y_len < usize::MAX,
            has_shape(table@, (x_len + 1) as nat, (y_len + 1) as nat),
            forall|a: int| 0 <= a <= x_len ==> (#[trigger] table@[a])@[0] == a,
            forall|b: int| 0 <= b < j ==> #[trigger] table@[0]@[b] == b,
        decreases y_len + 1 - j,
    {
        table[0][j] = j;
        j += 1;
    }
    table
}

/// The lesser of two numbers.
pub fn min(a: usize, b: usize) -> (least: usize)
    ensures
        least <= a,
        least <= b,
        least == a || least == b,
{
    if a <= b {
        a
    } else {
        b
    }
}

/// Compares two elements and gives the cost of substituting one for the
/// other.
pub fn cost_of_substitution<T: Element>(a: &T, b: &T) -> (cost: usize)
    ensures
        cost == substitution_cost(*a, *b),
{
    if a.same_as(b) {
        0
    } else {
        1
    }
}

} // verus!
