//! Saturation of a value into a closed range.

use core::cmp::Ordering;
use vstd::laws_cmp::{obeys_cmp, obeys_cmp_ord, obeys_partial_cmp_spec_properties};
use vstd::laws_eq::obeys_eq_spec_properties;
use vstd::prelude::*;
use vstd::std_specs::cmp::{PartialOrdIs, PartialOrdSpec};

verus! {

/// What [`limit_range`] returns, over the mathematical integers: `max` where
/// `value` lies above it, else `min` where `value` lies below it, else
/// `value` itself. The upper bound is tested first, so for `min > max` the
/// result is `max` above `max` and `min` everywhere else.
pub open spec fn clamp(min: int, max: int, value: int) -> int {
    if value > max {
        max
    } else if value < min {
        min
    } else {
        value
    }
}

/// The same selection for any type, by the order that the type's
/// `partial_cmp` specifies. A value that compares as neither greater than
/// `max` nor less than `min` passes through unchanged, which includes one
/// that is not comparable at all.
pub open spec fn clamp_by_order<T: PartialOrd>(min: T, max: T, value: T) -> T {
    if value.partial_cmp_spec(&max) == Some(Ordering::Greater) {
        max
    } else if value.partial_cmp_spec(&min) == Some(Ordering::Less) {
        min
    } else {
        value
    }
}

/// Saturates `value` into `[min, max]`.
///
/// The caller is expected to pass `min <= max`; for other bounds the result
/// is still the one that `clamp_by_order` gives. For a type whose order
/// has no specification, the result is the one that the type's own `>` and
/// `<` select: `max` where `value > max` holds, else `min` where
/// `value < min` holds, else `value`.
pub fn limit_range<T: PartialOrd>(min: T, max: T, value: T) -> (r: T)
    ensures
        T::obeys_partial_cmp_spec() ==> r == clamp_by_order(min, max, value),
        exists|above: bool|
            {
                &&& #[trigger] call_ensures(T::gt, (&value, &max), above)
                &&& above ==> r == max
                &&& !above ==> exists|below: bool|
                    {
                        &&& #[trigger] call_ensures(T::lt, (&value, &min), below)
                        &&& below ==> r == min
                        &&& !below ==> r == value
                    }
            },
{
    if value > max {
        max
    } else if value < min {
        min
    } else {
        value
    }
}

/// A value saturated into a non-empty range of integers lies in that range,
/// and a value that was in the range already is returned as it is.
pub proof fn lemma_clamp_within(min: int, max: int, value: int)
    requires
        min <= max,
    ensures
        min <= clamp(min, max, value) <= max,
        min <= value <= max ==> clamp(min, max, value) == value,
{
}

/// Saturating into a non-empty range twice gives what saturating once gives.
pub proof fn lemma_clamp_idempotent(min: int, max: int, value: int)
    requires
        min <= max,
    ensures
        clamp(min, max, clamp(min, max, value)) == clamp(min, max, value),
{
}

/// For every type whose order is a lawful total order: a value saturated
/// into `[min, max]` with `min <= max` lies in that range, and a value that
/// was in the range already is returned as it is.
pub proof fn lemma_limit_range_within<T: Ord>(min: T, max: T, value: T)
    requires
        obeys_cmp::<T>(),
        min.is_le(&max),
    ensures
        min.is_le(&clamp_by_order(min, max, value)),
        clamp_by_order(min, max, value).is_le(&max),
        min.is_le(&value) && value.is_le(&max) ==> clamp_by_order(min, max, value) == value,
{
    reveal(obeys_eq_spec_properties);
    reveal(obeys_partial_cmp_spec_properties);
    reveal(obeys_cmp_ord);
}

/// For every type whose order is a lawful total order, saturating into
/// `[min, max]` with `min <= max` twice gives what saturating once gives.
pub proof fn lemma_limit_range_idempotent<T: Ord>(min: T, max: T, value: T)
    requires
        obeys_cmp::<T>(),
        min.is_le(&max),
    ensures
        clamp_by_order(min, max, clamp_by_order(min, max, value)) == clamp_by_order(
            min,
            max,
            value,
        ),
{
    lemma_limit_range_within(min, max, value);
    lemma_limit_range_within(min, max, clamp_by_order(min, max, value));
}

} // verus!
