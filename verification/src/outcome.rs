//! Results, as contracts speak of them.

use vstd::prelude::*;

verus! {

/// A result, seen through what its two sides stand for: a record as its four
/// texts, a list of records as the sequence of theirs, an error as its view.
pub open spec fn seen<T: DeepView, E: DeepView>(result: Result<T, E>) -> Result<T::V, E::V> {
    match result {
        Ok(value) => Ok(value.deep_view()),
        Err(error) => Err(error.deep_view()),
    }
}

} // verus!
