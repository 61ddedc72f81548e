use crate::distance::Distance;
use crate::error::SpatiumError;
use vstd::prelude::*;

verus! {

/// The greater of two lengths.
pub open spec fn max_len(x_len: nat, y_len: nat) -> nat {
    if x_len >= y_len {
        x_len
    } else {
        y_len
    }
}

/// A nonzero distance over two empty sequences has no normalized value.
pub open spec fn normalization_undefined(distance: nat, x_len: nat, y_len: nat) -> bool {
    distance != 0 && max_len(x_len, y_len) == 0
}

/// `normalized` is `distance` divided by the greater of the two lengths, and
/// `0 / 1` where `distance` is zero, whatever the lengths.
pub open spec fn is_normalized(normalized: Distance, distance: nat, x_len: nat, y_len: nat) -> bool {
    if distance == 0 {
        normalized.is_fraction(0, 1)
    } else {
        normalized.is_fraction(distance, max_len(x_len, y_len))
    }
}

/// A normalized distance lies between zero and one, wherever the distance
/// is no more than the greater of the two lengths, and it is zero exactly
/// where the distance is.
pub proof fn lemma_normalized_in_unit_interval(
    normalized: Distance,
    distance: nat,
    x_len: nat,
    y_len: nat,
)
    requires
        is_normalized(normalized, distance, x_len, y_len),
        distance <= max_len(x_len, y_len),
    ensures
        0 <= normalized.spec_numerator() <= normalized.spec_denominator(),
        normalized.spec_denominator() > 0,
        normalized.spec_numerator() == 0 <==> distance == 0,
{
}

/// Normalizes a distance by the lengths of the two sequences it was computed
/// on: divides it by the greater of `x_len` and `y_len`.
pub fn normalize(distance: usize, x_len: usize, y_len: usize) -> (result: Result<
    Distance,
    SpatiumError,
>)
    ensures
        normalization_undefined(distance as nat, x_len as nat, y_len as nat) ==> result
            == Err::<Distance, SpatiumError>(SpatiumError::NormalizationError),
        !normalization_undefined(distance as nat, x_len as nat, y_len as nat) ==> result is Ok
            && is_normalized(result->Ok_0, distance as nat, x_len as nat, y_len as nat),
{
    let max_len: usize = if x_len >= y_len {
        x_len
    } else {
        y_len
    };
    if distance != 0 && max_len == 0 {
        return Err(SpatiumError::NormalizationError);
    }
    if distance == 0 {
        return Ok(Distance::raw(0));
    }
    Ok(Distance::over(distance, max_len))
}

/// `value` is `distance` as it is reported: normalized by the two lengths
/// where `normalized` is set, the plain count otherwise.
pub open spec fn is_reported(
    value: Distance,
    distance: nat,
    normalized: bool,
    x_len: nat,
    y_len: nat,
) -> bool {
    if normalized {
        is_normalized(value, distance, x_len, y_len)
    } else {
        value.is_fraction(distance, 1)
    }
}

/// Reports a distance computed on sequences of the given lengths:
/// normalized where `normalized` is set, as the plain count otherwise.
pub fn report(distance: usize, normalized: bool, x_len: usize, y_len: usize) -> (result: Result<
    Distance,
    SpatiumError,
>)
    ensures
        normalized && normalization_undefined(distance as nat, x_len as nat, y_len as nat)
            ==> result == Err::<Distance, SpatiumError>(SpatiumError::NormalizationError),
        !(normalized && normalization_undefined(distance as nat, x_len as nat, y_len as nat))
            ==> result is Ok && is_reported(
            result->Ok_0,
            distance as nat,
            normalized,
            x_len as nat,
            y_len as nat,
        ),
{
    if normalized {
        normalize(distance, x_len, y_len)
    } else {
        Ok(Distance::raw(distance))
    }
}

} // verus!
