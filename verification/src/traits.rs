//! Small traits shared across the library's wrapper types.

use vstd::prelude::*;

verus! {

/// A wrapper exposing the native value it carries.
pub trait NativeWrapper<T> {
    fn native(&self) -> &T;
}

/// A wrapper exposing the low-level value it carries.
pub trait LowLevelWrapper<T> {
    fn low_level(&self) -> &T;
}

/// A host-facing enumeration that a bitfield of flags decomposes into.
pub trait BitflagEx<F>: Sized {
    fn list_from_bitflag(flag: F) -> Vec<Self>;
}

} // verus!
