use open_cl_native::NumberType;
use open_cl_native::NumTypeEx;
use open_cl_native::command_queue_props_ex::CommandQueuePropEx;
use open_cl_native::device_buffer_ex::BufferAccess;
use open_cl_native::device_ex::DeviceAffinityDomainEx;
use open_cl_native::dims_ex::Dimension;
use open_cl_native::dims_ex::DimsEx;
use open_cl_native::dims_ex::OneDim;
use open_cl_native::dims_ex::ThreeDims;
use open_cl_native::dims_ex::TwoDims;
use open_cl_native::mem_config_ex::HostAccessEx;
use open_cl_native::mem_config_ex::KernelAccessEx;
use open_cl_native::mem_config_ex::MemAllocationEx;
use open_cl_native::mem_config_ex::MemConfig;
use open_cl_native::mem_config_ex::MemConfigBuilderEx;
use open_cl_native::mem_config_ex::MemConfigEx;
use open_cl_native::mem_config_ex::NilOnly;
use open_cl_native::status_code_error_ex::OnlyTrue;
use open_cl_native::status_code_error_ex::StatusCodeErrorEx;
use open_cl_native::traits::BitflagEx;
use open_cl_native::wrapper_ex::WrapperEx;

#[test]
fn tag_spellings_round_trip() {
    let all = [
        NumTypeEx::Char,
        NumTypeEx::Uchar,
        NumTypeEx::Short,
        NumTypeEx::Ushort,
        NumTypeEx::Int,
        NumTypeEx::Uint,
        NumTypeEx::Long,
        NumTypeEx::Ulong,
        NumTypeEx::Float,
        NumTypeEx::Double,
        NumTypeEx::SizeT,
    ];
    for ex in all {
        assert_eq!(NumTypeEx::from(ex.number_type()), ex);
    }
    assert_eq!(NumTypeEx::from(NumberType::I8), NumTypeEx::Char);
    assert_eq!(NumTypeEx::Uchar.number_type(), NumberType::U8);
    assert_eq!(NumTypeEx::SizeT.number_type(), NumberType::Usize);
    assert_eq!(NumTypeEx::from(NumberType::F32), NumTypeEx::Float);
}

#[test]
fn type_check_reports_both_tags() {
    assert!(NumberType::I32.type_check(&NumberType::I32).is_ok());
    assert_eq!(
        NumberType::F32.type_check(&NumberType::I64),
        Err(open_cl_native::NumberTypeError::Mismatch(
            NumberType::F32,
            NumberType::I64
        ))
    );
}

#[test]
fn dims_products() {
    assert_eq!(OneDim(7).product(), 7);
    assert_eq!(TwoDims(3, 4).product(), 12);
    assert_eq!(ThreeDims(2, 3, 4).product(), 24);
    assert_eq!(DimsEx::LoneNum(5).product(), 5);
    assert_eq!(DimsEx::Three(ThreeDims(2, 0, 9)).product(), 0);
}

#[test]
fn dims_match_lengths() {
    assert!(OneDim(3).matches_length(3));
    assert!(!OneDim(3).matches_length(4));
    assert!(TwoDims(2, 3).matches_length(6));
    assert!(DimsEx::Two(TwoDims(0, 9)).matches_length(0));
    assert!(ThreeDims(1, 2, 3).matches_length(6));
}

#[test]
fn mem_config_builder_defaults_and_overrides() {
    let b = MemConfigBuilderEx::default();
    let c = b.build();
    assert_eq!(c.kernel_access, KernelAccessEx::ReadWrite);
    assert_eq!(c.host_access, HostAccessEx::ReadWrite);
    assert_eq!(c.mem_allocation, MemAllocationEx::AllocOnDevice);

    let b2 = MemConfigBuilderEx {
        kernel_access: Some(KernelAccessEx::ReadOnly),
        host_access: None,
        mem_allocation: Some(MemAllocationEx::CopyToDevice),
    };
    let c2 = b2.build();
    assert_eq!(c2.kernel_access, KernelAccessEx::ReadOnly);
    assert_eq!(c2.host_access, HostAccessEx::ReadWrite);
    assert_eq!(c2.mem_allocation, MemAllocationEx::CopyToDevice);
}

#[test]
fn mem_config_into_builder() {
    let nil = MemConfigEx::Nil(NilOnly::Nil);
    assert_eq!(nil.into_builder(), MemConfigBuilderEx::default());

    let c = MemConfig {
        kernel_access: KernelAccessEx::WriteOnly,
        host_access: HostAccessEx::NoAccess,
        mem_allocation: MemAllocationEx::KeepInPlace,
    };
    let b = MemConfigEx::from_mem_config(c).into_builder();
    assert_eq!(b.kernel_access, Some(KernelAccessEx::WriteOnly));
    assert_eq!(b.host_access, Some(HostAccessEx::NoAccess));
    assert_eq!(b.mem_allocation, Some(MemAllocationEx::KeepInPlace));
    assert_eq!(b.build(), c);
}

#[test]
fn mem_config_with_mem_allocation() {
    let b = MemConfigBuilderEx::default().with_mem_allocation(MemAllocationEx::CopyToDevice);
    assert_eq!(b.mem_allocation, Some(MemAllocationEx::CopyToDevice));
    let kept = b.with_mem_allocation(MemAllocationEx::KeepInPlace);
    assert_eq!(kept.mem_allocation, Some(MemAllocationEx::CopyToDevice));
}

#[test]
fn command_queue_props_bits() {
    assert_eq!(
        CommandQueuePropEx::into_cl_type(CommandQueuePropEx::OutOfOrderExecution),
        1
    );
    assert_eq!(
        CommandQueuePropEx::into_cl_type(CommandQueuePropEx::ProfilingEnabled),
        2
    );
    assert_eq!(CommandQueuePropEx::into_cl_type(CommandQueuePropEx::OnDevice), 4);
    assert_eq!(
        CommandQueuePropEx::into_cl_type(CommandQueuePropEx::OnDeviceDefault),
        8
    );
    assert_eq!(CommandQueuePropEx::vec_into_cl_type(Vec::new()), 0);
    assert_eq!(
        CommandQueuePropEx::vec_into_cl_type(vec![
            CommandQueuePropEx::ProfilingEnabled,
            CommandQueuePropEx::OnDevice,
            CommandQueuePropEx::ProfilingEnabled,
        ]),
        6
    );
}

#[test]
fn affinity_domains_from_bitfield() {
    assert_eq!(DeviceAffinityDomainEx::list(0), Vec::new());
    assert_eq!(
        DeviceAffinityDomainEx::list(1 | 16),
        vec![DeviceAffinityDomainEx::Numa, DeviceAffinityDomainEx::L1Cache]
    );
    assert_eq!(
        DeviceAffinityDomainEx::list(63),
        vec![
            DeviceAffinityDomainEx::Numa,
            DeviceAffinityDomainEx::L4Cache,
            DeviceAffinityDomainEx::L3Cache,
            DeviceAffinityDomainEx::L2Cache,
            DeviceAffinityDomainEx::L1Cache,
            DeviceAffinityDomainEx::NextPartitionable,
        ]
    );
    assert_eq!(
        DeviceAffinityDomainEx::list_from_bitflag(32),
        vec![DeviceAffinityDomainEx::NextPartitionable]
    );
}

#[test]
fn buffer_access_mem_flags() {
    assert_eq!(BufferAccess::ReadOnly.mem_flags(), 4 | 16);
    assert_eq!(BufferAccess::WriteOnly.mem_flags(), 2 | 16);
    assert_eq!(BufferAccess::ReadWrite.mem_flags(), 1 | 16);
}

#[test]
fn status_code_error_shape() {
    let e = StatusCodeErrorEx::new(-54, String::from("invalid work group size"));
    assert_eq!(e.status_code, -54);
    assert_eq!(e.description, "invalid work group size");
    assert_eq!(e.exception, OnlyTrue::True);
}

#[test]
fn wrapper_carries_its_item() {
    let w = WrapperEx::new(17u64);
    assert_eq!(w.item, 17);
}
