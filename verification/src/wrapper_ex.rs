//! The bare wrapper the host runtime registers native values under.

use vstd::prelude::*;

verus! {

/// One native value, wrapped for registration with the host runtime.
pub struct WrapperEx<T> {
    pub item: T,
}

impl<T> WrapperEx<T> {
    pub fn new(item: T) -> (w: WrapperEx<T>)
        ensures
            w.item == item,
    {
        WrapperEx { item }
    }
}

} // verus!
