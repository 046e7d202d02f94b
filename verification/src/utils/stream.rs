//! A service that dispatches the items of a stream to services made by a
//! factory.
use vstd::prelude::*;

use std::marker::PhantomData;
use std::rc::Rc;

verus! {

/// A factory shared by the dispatchers it serves, with the configuration its
/// services are made with.
pub struct StreamService<S, T, C, E> {
    factory: Rc<T>,
    config: C,
    _t: PhantomData<(S, E)>,
}

} // verus!
