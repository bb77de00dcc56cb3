//! Contracts for the functions of other crates that this library calls.

use vstd::prelude::*;
use vstd::std_specs::cmp::PartialOrdIs;
use vstd::std_specs::cmp::PartialOrdSpec;
use itertools::Itertools;

verus! {

/// `num_traits::clamp`: returns `min` when `input` is below it, `max` when
/// `input` is above it, and `input` itself otherwise. The bounds must be
/// ordered, since the crate asserts `min <= max` in debug builds.
pub assume_specification<T: PartialOrd>[ num_traits::clamp::<T> ](input: T, min: T, max: T) -> (r: T)
    requires
        T::obeys_partial_cmp_spec(),
        min.is_le(&max),
    ensures
        r == if input.is_lt(&min) {
            min
        } else if input.is_gt(&max) {
            max
        } else {
            input
        },
;

/// `Itertools::sorted` on the items of a vector: the result holds the same
/// items, each as often as before, in ascending order.
#[verifier::external_body]
pub(crate) fn sorted_u16(items: Vec<u16>) -> (r: Vec<u16>)
    ensures
        r@.to_multiset() == items@.to_multiset(),
        forall|i: int, j: int| 0 <= i <= j < r@.len() ==> r@[i] <= r@[j],
{
    items.into_iter().sorted().collect()
}

/// `String::from_utf8` on bytes below 128: the text has one character for
/// each byte, the one with the byte's code.
#[verifier::external_body]
pub(crate) fn string_from_ascii(bytes: Vec<u8>) -> (r: String)
    requires
        forall|i: int| 0 <= i < bytes@.len() ==> bytes@[i] < 128,
    ensures
        r@ == Seq::new(bytes@.len(), |i: int| bytes@[i] as char),
{
    match String::from_utf8(bytes) {
        Ok(text) => text,
        Err(_) => String::new(),
    }
}

} // verus!
