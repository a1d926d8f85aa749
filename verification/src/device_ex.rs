//! Device partition affinity domains: the host-facing names of the OpenCL
//! affinity-domain bits, and the decomposition of a device's bitfield into
//! the list of domains it contains.

use vstd::prelude::*;

use crate::traits::BitflagEx;

verus! {

/// The OpenCL device affinity-domain bits, as the OpenCL headers define them.
pub const NUMA: u64 = 1;

pub const L4_CACHE: u64 = 2;

pub const L3_CACHE: u64 = 4;

pub const L2_CACHE: u64 = 8;

pub const L1_CACHE: u64 = 16;

pub const NEXT_PARTITIONABLE: u64 = 32;

/// One device partition affinity domain, as the host names it.
#[derive(Clone, Copy, Debug, Hash, PartialEq, Eq, Structural)]
pub enum DeviceAffinityDomainEx {
    Numa,
    L4Cache,
    L3Cache,
    L2Cache,
    L1Cache,
    NextPartitionable,
}

/// The domains a bitfield contains, in the fixed order of the bits.
pub open spec fn affinity_list_spec(aff: u64) -> Seq<DeviceAffinityDomainEx> {
    (if aff & NUMA == NUMA {
        seq![DeviceAffinityDomainEx::Numa]
    } else {
        Seq::empty()
    }) + (if aff & L4_CACHE == L4_CACHE {
        seq![DeviceAffinityDomainEx::L4Cache]
    } else {
        Seq::empty()
    }) + (if aff & L3_CACHE == L3_CACHE {
        seq![DeviceAffinityDomainEx::L3Cache]
    } else {
        Seq::empty()
    }) + (if aff & L2_CACHE == L2_CACHE {
        seq![DeviceAffinityDomainEx::L2Cache]
    } else {
        Seq::empty()
    }) + (if aff & L1_CACHE == L1_CACHE {
        seq![DeviceAffinityDomainEx::L1Cache]
    } else {
        Seq::empty()
    }) + (if aff & NEXT_PARTITIONABLE == NEXT_PARTITIONABLE {
        seq![DeviceAffinityDomainEx::NextPartitionable]
    } else {
        Seq::empty()
    })
}

impl DeviceAffinityDomainEx {
    /// The domains an OpenCL affinity bitfield contains, one per set bit, in
    /// the fixed order of the bits.
    pub fn list(aff: u64) -> (r: Vec<DeviceAffinityDomainEx>)
        ensures
            r@ == affinity_list_spec(aff),
    {
        let mut output: Vec<DeviceAffinityDomainEx> = Vec::new();
        if aff & NUMA == NUMA {
            output.push(DeviceAffinityDomainEx::Numa);
        }
        if aff & L4_CACHE == L4_CACHE {
            output.push(DeviceAffinityDomainEx::L4Cache);
        }
        if aff & L3_CACHE == L3_CACHE {
            output.push(DeviceAffinityDomainEx::L3Cache);
        }
        if aff & L2_CACHE == L2_CACHE {
            output.push(DeviceAffinityDomainEx::L2Cache);
        }
        if aff & L1_CACHE == L1_CACHE {
            output.push(DeviceAffinityDomainEx::L1Cache);
        }
        if aff & NEXT_PARTITIONABLE == NEXT_PARTITIONABLE {
            output.push(DeviceAffinityDomainEx::NextPartitionable);
        }
        proof {
            assert(output@ =~= affinity_list_spec(aff));
        }
        output
    }
}

impl BitflagEx<u64> for DeviceAffinityDomainEx {
    fn list_from_bitflag(flag: u64) -> Vec<DeviceAffinityDomainEx> {
        DeviceAffinityDomainEx::list(flag)
    }
}

} // verus!
