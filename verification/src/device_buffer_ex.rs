//! The host's access choice for a device buffer, and its translation to the
//! OpenCL memory-flag bits.

use vstd::prelude::*;

verus! {

/// The OpenCL memory-flag bits, as the OpenCL headers define them.
pub const MEM_READ_WRITE: u64 = 1;

pub const MEM_WRITE_ONLY: u64 = 2;

pub const MEM_READ_ONLY: u64 = 4;

pub const MEM_ALLOC_HOST_PTR: u64 = 16;

/// How the host intends a device buffer to be accessed.
#[derive(Clone, Copy, Debug, Hash, PartialEq, Eq, Structural)]
pub enum BufferAccess {
    ReadOnly,
    WriteOnly,
    ReadWrite,
}

impl BufferAccess {
    /// The OpenCL memory flags of this access choice: the access bit together
    /// with host-pointer allocation.
    pub fn mem_flags(self) -> (r: u64)
        ensures
            r == (match self {
                BufferAccess::ReadOnly => MEM_READ_ONLY | MEM_ALLOC_HOST_PTR,
                BufferAccess::WriteOnly => MEM_WRITE_ONLY | MEM_ALLOC_HOST_PTR,
                BufferAccess::ReadWrite => MEM_READ_WRITE | MEM_ALLOC_HOST_PTR,
            }),
    {
        match self {
            BufferAccess::ReadOnly => MEM_READ_ONLY | MEM_ALLOC_HOST_PTR,
            BufferAccess::WriteOnly => MEM_WRITE_ONLY | MEM_ALLOC_HOST_PTR,
            BufferAccess::ReadWrite => MEM_READ_WRITE | MEM_ALLOC_HOST_PTR,
        }
    }
}

} // verus!
