//! What the host hands over to run a kernel: the work extent and the
//! command-queue options, each field optional where the device layer has a
//! default.

use vstd::prelude::*;

use crate::dims_ex::DimsEx;

verus! {

/// The work extent of one kernel run: the global size, and optionally a
/// global offset and a local size.
#[derive(Clone, Copy, Debug, Hash, PartialEq, Eq, Structural)]
pub struct WorkEx {
    pub global_work_size: DimsEx,
    pub global_work_offset: Option<DimsEx>,
    pub local_work_size: Option<DimsEx>,
}

/// Options for enqueueing one command, each unset field left to the queue's
/// default.
#[derive(Clone, Copy, Debug, Hash, PartialEq, Eq, Structural)]
pub struct CommandQueueOptionsEx {
    pub is_blocking: Option<bool>,
    pub offset: Option<usize>,
}

impl CommandQueueOptionsEx {
    /// The options with every field set: each chosen field as chosen, each
    /// unset field from the given defaults.
    pub fn or_defaults(self, default_is_blocking: bool, default_offset: usize) -> (r: (
        bool,
        usize,
    ))
        ensures
            r.0 == (match self.is_blocking {
                Some(b) => b,
                None => default_is_blocking,
            }),
            r.1 == (match self.offset {
                Some(o) => o,
                None => default_offset,
            }),
    {
        let is_blocking = match self.is_blocking {
            Some(b) => b,
            None => default_is_blocking,
        };
        let offset = match self.offset {
            Some(o) => o,
            None => default_offset,
        };
        (is_blocking, offset)
    }
}

} // verus!
