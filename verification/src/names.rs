//! The traits a deriving record implements: each exposes the generated,
//! fixed-size constant of output field names that the engine computed for
//! the record at build time.

use vstd::prelude::*;

verus! {

/// Exposes the `FIELD_NAMES_AS_ARRAY` constant.
pub trait FieldNamesAsArray<const N: usize> {
    /// The generated array of output field names, in declaration order.
    const FIELD_NAMES_AS_ARRAY: [&'static str; N];
}

/// Exposes the `FIELD_NAMES_AS_SLICE` constant.
pub trait FieldNamesAsSlice {
    /// The generated slice of output field names, in declaration order.
    const FIELD_NAMES_AS_SLICE: &'static [&'static str];
}

} // verus!
