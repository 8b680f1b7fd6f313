//! The conversions into text that the standard library has.

use vstd::prelude::*;

verus! {

/// `String::from` of a string slice: a string with the same characters.
pub assume_specification<'_0>[ <String as From<&str>>::from ](slice: &str) -> (result: String)
    ensures
        result@ == slice@,
;

/// The conversion of a value into its own type: the value itself.
pub assume_specification<T>[ <T as From<T>>::from ](value: T) -> (result: T)
    ensures
        result == value,
;

} // verus!
