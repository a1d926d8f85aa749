//! Memory configuration for device buffers: the three access/allocation
//! choices, a complete configuration, and the builder the host fills in
//! piecemeal. Unset builder fields fall back to the defaults of a complete
//! configuration.

use vstd::prelude::*;

verus! {

/// How a kernel may access a buffer.
#[derive(Clone, Copy, Debug, Hash, PartialEq, Eq, Structural)]
pub enum KernelAccessEx {
    ReadOnly,
    WriteOnly,
    ReadWrite,
}

/// How the host may access a buffer.
#[derive(Clone, Copy, Debug, Hash, PartialEq, Eq, Structural)]
pub enum HostAccessEx {
    ReadOnly,
    WriteOnly,
    NoAccess,
    ReadWrite,
}

/// Where a buffer's memory lives and how it is filled.
#[derive(Clone, Copy, Debug, Hash, PartialEq, Eq, Structural)]
pub enum MemAllocationEx {
    KeepInPlace,
    AllocOnDevice,
    CopyToDevice,
    ForceCopyToDevice,
}

/// A complete memory configuration: every choice made.
#[derive(Clone, Copy, Debug, Hash, PartialEq, Eq, Structural)]
pub struct MemConfig {
    pub kernel_access: KernelAccessEx,
    pub host_access: HostAccessEx,
    pub mem_allocation: MemAllocationEx,
}

impl Default for MemConfig {
    /// The configuration used where the host chose nothing: full access for
    /// kernel and host, memory allocated on the device.
    fn default() -> (c: MemConfig)
        ensures
            c.kernel_access == KernelAccessEx::ReadWrite,
            c.host_access == HostAccessEx::ReadWrite,
            c.mem_allocation == MemAllocationEx::AllocOnDevice,
    {
        MemConfig {
            kernel_access: KernelAccessEx::ReadWrite,
            host_access: HostAccessEx::ReadWrite,
            mem_allocation: MemAllocationEx::AllocOnDevice,
        }
    }
}

/// A memory configuration under construction: each field the host has not
/// set yet is `None`.
#[derive(Clone, Copy, Debug, Hash, PartialEq, Eq, Structural)]
pub struct MemConfigBuilderEx {
    pub kernel_access: Option<KernelAccessEx>,
    pub host_access: Option<HostAccessEx>,
    pub mem_allocation: Option<MemAllocationEx>,
}

impl Default for MemConfigBuilderEx {
    /// The empty builder: nothing chosen yet.
    fn default() -> (b: MemConfigBuilderEx)
        ensures
            b.kernel_access is None,
            b.host_access is None,
            b.mem_allocation is None,
    {
        MemConfigBuilderEx { kernel_access: None, host_access: None, mem_allocation: None }
    }
}

impl MemConfigBuilderEx {
    /// A builder with every field set from a complete configuration.
    pub fn from_mem_config(mem_config: MemConfig) -> (b: MemConfigBuilderEx)
        ensures
            b.kernel_access == Some(mem_config.kernel_access),
            b.host_access == Some(mem_config.host_access),
            b.mem_allocation == Some(mem_config.mem_allocation),
    {
        MemConfigBuilderEx {
            kernel_access: Some(mem_config.kernel_access),
            host_access: Some(mem_config.host_access),
            mem_allocation: Some(mem_config.mem_allocation),
        }
    }

    /// Fills the allocation choice, if still unset, with the given default.
    pub fn with_mem_allocation(self, default: MemAllocationEx) -> (b: MemConfigBuilderEx)
        ensures
            b.kernel_access == self.kernel_access,
            b.host_access == self.host_access,
            b.mem_allocation == Some(
                match self.mem_allocation {
                    Some(m) => m,
                    None => default,
                },
            ),
    {
        let mem_allocation = match self.mem_allocation {
            Some(m) => m,
            None => default,
        };
        MemConfigBuilderEx {
            kernel_access: self.kernel_access,
            host_access: self.host_access,
            mem_allocation: Some(mem_allocation),
        }
    }

    /// The complete configuration: each chosen field as chosen, each unset
    /// field at its default.
    pub fn build(self) -> (c: MemConfig)
        ensures
            c.kernel_access == (match self.kernel_access {
                Some(k) => k,
                None => KernelAccessEx::ReadWrite,
            }),
            c.host_access == (match self.host_access {
                Some(h) => h,
                None => HostAccessEx::ReadWrite,
            }),
            c.mem_allocation == (match self.mem_allocation {
                Some(m) => m,
                None => MemAllocationEx::AllocOnDevice,
            }),
    {
        let mut c = MemConfig::default();
        if let Some(ka) = self.kernel_access {
            c.kernel_access = ka;
        }
        if let Some(ha) = self.host_access {
            c.host_access = ha;
        }
        if let Some(ma) = self.mem_allocation {
            c.mem_allocation = ma;
        }
        c
    }
}

/// The host's spelling of "no configuration".
#[derive(Clone, Copy, Debug, Hash, PartialEq, Eq, Structural)]
pub enum NilOnly {
    Nil,
}

/// What the host hands over for a buffer's memory configuration: nothing, or
/// a partially filled builder.
#[derive(Clone, Copy, Debug, Hash, PartialEq, Eq, Structural)]
pub enum MemConfigEx {
    Nil(NilOnly),
    Builder(MemConfigBuilderEx),
}

impl MemConfigEx {
    /// The builder this choice stands for: the empty builder where the host
    /// chose nothing, otherwise the builder as handed over.
    pub fn into_builder(self) -> (b: MemConfigBuilderEx)
        ensures
            b == (match self {
                MemConfigEx::Nil(_) => MemConfigBuilderEx {
                    kernel_access: None,
                    host_access: None,
                    mem_allocation: None,
                },
                MemConfigEx::Builder(inner) => inner,
            }),
    {
        match self {
            MemConfigEx::Nil(_) => MemConfigBuilderEx::default(),
            MemConfigEx::Builder(b) => b,
        }
    }

    /// A choice carrying every field of a complete configuration.
    pub fn from_mem_config(mem_config: MemConfig) -> (r: MemConfigEx)
        ensures
            r == MemConfigEx::Builder(
                MemConfigBuilderEx {
                    kernel_access: Some(mem_config.kernel_access),
                    host_access: Some(mem_config.host_access),
                    mem_allocation: Some(mem_config.mem_allocation),
                },
            ),
    {
        MemConfigEx::Builder(MemConfigBuilderEx::from_mem_config(mem_config))
    }
}

} // verus!
