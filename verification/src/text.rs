//! Text of values for error messages.
use vstd::prelude::*;

verus! {

/// `format!("{:?}", v)`: the text that the `Debug` impl of `T` writes for `v`.
/// Nothing is stated of it: it is whatever that impl writes.
#[verifier::external_body]
pub(crate) fn debug_text<T: core::fmt::Debug>(v: &T) -> (r: String) {
    format!("{:?}", v)
}

} // verus!
