//! The outcome of polling an asynchronous operation once.
use vstd::prelude::*;

verus! {

/// The outcome of polling an asynchronous operation once: it has finished with
/// a value, or it has not finished yet.
pub enum Poll<T> {
    Ready(T),
    Pending,
}

impl<T> Poll<T> {
    pub fn is_ready(&self) -> (r: bool)
        ensures
            r == (self is Ready),
    {
        match self {
            Poll::Ready(_) => true,
            Poll::Pending => false,
        }
    }
}

} // verus!
