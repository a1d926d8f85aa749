//! The host-facing shape of a device status-code error: the numeric status
//! code, its description, and the marker field the host runtime expects on
//! an exception record.

use vstd::prelude::*;

verus! {

/// The marker the host runtime expects on an exception record.
#[derive(Clone, Copy, Debug, Hash, PartialEq, Eq, Structural)]
pub enum OnlyTrue {
    True,
}

/// A device status-code error as handed to the host: the raw status code and
/// its description.
#[derive(Debug)]
pub struct StatusCodeErrorEx {
    pub status_code: i32,
    pub description: String,
    pub exception: OnlyTrue,
}

impl StatusCodeErrorEx {
    /// An exception record for one status code.
    pub fn new(status_code: i32, description: String) -> (e: StatusCodeErrorEx)
        ensures
            e.status_code == status_code,
            e.description == description,
            e.exception == OnlyTrue::True,
    {
        StatusCodeErrorEx { status_code, description, exception: OnlyTrue::True }
    }
}

} // verus!
