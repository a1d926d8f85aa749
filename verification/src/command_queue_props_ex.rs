//! Command-queue properties as the host names them, and their translation to
//! the OpenCL property bitfield.

use vstd::prelude::*;

verus! {

/// The OpenCL command-queue property bits, as the OpenCL headers define them.
pub const OUT_OF_ORDER_EXEC_MODE_ENABLE: u64 = 1;

pub const PROFILING_ENABLE: u64 = 2;

pub const ON_DEVICE: u64 = 4;

pub const ON_DEVICE_DEFAULT: u64 = 8;

/// One command-queue property, as the host names it.
#[derive(Clone, Copy, Debug, Hash, PartialEq, Eq, Structural)]
pub enum CommandQueuePropEx {
    OutOfOrderExecution,
    ProfilingEnabled,
    OnDevice,
    OnDeviceDefault,
}

/// The OpenCL bit of one property.
pub open spec fn prop_bits(p: CommandQueuePropEx) -> u64 {
    match p {
        CommandQueuePropEx::OutOfOrderExecution => OUT_OF_ORDER_EXEC_MODE_ENABLE,
        CommandQueuePropEx::ProfilingEnabled => PROFILING_ENABLE,
        CommandQueuePropEx::OnDevice => ON_DEVICE,
        CommandQueuePropEx::OnDeviceDefault => ON_DEVICE_DEFAULT,
    }
}

/// The bitfield of a whole list of properties: each property's bit set, over
/// an empty default.
pub open spec fn props_bitfield(props: Seq<CommandQueuePropEx>) -> u64
    decreases props.len(),
{
    if props.len() == 0 {
        0u64
    } else {
        props_bitfield(props.drop_last()) | prop_bits(props.last())
    }
}

impl CommandQueuePropEx {
    /// The OpenCL bit of this property.
    pub fn into_cl_type(p: CommandQueuePropEx) -> (r: u64)
        ensures
            r == prop_bits(p),
    {
        match p {
            CommandQueuePropEx::OutOfOrderExecution => OUT_OF_ORDER_EXEC_MODE_ENABLE,
            CommandQueuePropEx::ProfilingEnabled => PROFILING_ENABLE,
            CommandQueuePropEx::OnDevice => ON_DEVICE,
            CommandQueuePropEx::OnDeviceDefault => ON_DEVICE_DEFAULT,
        }
    }

    /// The OpenCL bitfield of a whole list of properties: every named
    /// property's bit set, and nothing else.
    pub fn vec_into_cl_type(props: Vec<CommandQueuePropEx>) -> (r: u64)
        ensures
            r == props_bitfield(props@),
    {
        let mut cl_p: u64 = 0;
        let mut i: usize = 0;
        while i < props.len()
            invariant
                i <= props@.len(),
                cl_p == props_bitfield(props@.subrange(0, i as int)),
            decreases props@.len() - i,
        {
            cl_p = cl_p | CommandQueuePropEx::into_cl_type(props[i]);
            proof {
                let sub = props@.subrange(0, i + 1 as int);
                assert(sub.drop_last() =~= props@.subrange(0, i as int));
                assert(sub.last() == props@[i as int]);
            }
            i = i + 1;
        }
        proof {
            assert(props@.subrange(0, props@.len() as int) =~= props@);
        }
        cl_p
    }
}

} // verus!
