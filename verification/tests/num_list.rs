use open_cl_native::NumberType;
use open_cl_native::NumberTypeError;
use open_cl_native::NumEx;
use open_cl_native::NumList;
use open_cl_native::NumListEx;

#[test]
fn round_trip_u8() {
    let v: Vec<u8> = vec![0, 1, 2, 254, 255];
    let l = NumList::from_vec(v.clone());
    assert_eq!(l.number_type(), NumberType::U8);
    assert_eq!(l.into_inner::<u8>().unwrap(), v);
}

#[test]
fn round_trip_i8() {
    let v: Vec<i8> = vec![-128, -1, 0, 1, 127];
    assert_eq!(NumList::from_vec(v.clone()).into_inner::<i8>().unwrap(), v);
}

#[test]
fn round_trip_u16() {
    let v: Vec<u16> = vec![0, 1, 65535];
    assert_eq!(NumList::from_vec(v.clone()).into_inner::<u16>().unwrap(), v);
}

#[test]
fn round_trip_i16() {
    let v: Vec<i16> = vec![-32768, 0, 32767];
    assert_eq!(NumList::from_vec(v.clone()).into_inner::<i16>().unwrap(), v);
}

#[test]
fn round_trip_u32() {
    let v: Vec<u32> = vec![0, 7, 4294967295];
    assert_eq!(NumList::from_vec(v.clone()).into_inner::<u32>().unwrap(), v);
}

#[test]
fn round_trip_i32() {
    let v: Vec<i32> = vec![-2147483648, -300, 300, 2147483647];
    assert_eq!(NumList::from_vec(v.clone()).into_inner::<i32>().unwrap(), v);
}

#[test]
fn round_trip_u64() {
    let v: Vec<u64> = vec![0, 1, u64::MAX];
    assert_eq!(NumList::from_vec(v.clone()).into_inner::<u64>().unwrap(), v);
}

#[test]
fn round_trip_i64() {
    let v: Vec<i64> = vec![i64::MIN, -1, 0, i64::MAX];
    assert_eq!(NumList::from_vec(v.clone()).into_inner::<i64>().unwrap(), v);
}

#[test]
fn round_trip_usize() {
    let v: Vec<usize> = vec![0, 42, usize::MAX];
    assert_eq!(NumList::from_vec(v.clone()).into_inner::<usize>().unwrap(), v);
}

#[test]
fn round_trip_empty() {
    let v: Vec<i32> = Vec::new();
    assert_eq!(NumList::from_vec(v.clone()).into_inner::<i32>().unwrap(), v);
}

#[test]
fn round_trip_f32_bits() {
    let floats: Vec<f32> = vec![0.0, 1.5, -2.25, f32::INFINITY];
    let bits: Vec<u32> = floats.iter().map(|x| x.to_bits()).collect();
    let l = NumListEx::Float(bits.clone()).into_num_list();
    assert_eq!(l.number_type(), NumberType::F32);
    // the typed integer accessors refuse a float buffer: its payload leaves
    // only as bit patterns
    let back = l.into_inner::<u32>();
    assert_eq!(
        back,
        Err(NumberTypeError::Mismatch(NumberType::F32, NumberType::U32))
    );
    let l2 = NumList::from_f32_bits(bits.clone());
    let back2: Vec<f32> = l2.into_f32_bits().unwrap().into_iter().map(f32::from_bits).collect();
    assert_eq!(back2, floats);
}

#[test]
fn round_trip_f64_bits() {
    let floats: Vec<f64> = vec![0.0, 1.5, -2.25];
    let bits: Vec<u64> = floats.iter().map(|x| x.to_bits()).collect();
    let l = NumListEx::Double(bits.clone()).into_num_list();
    assert_eq!(l.number_type(), NumberType::F64);
    assert_eq!(l.len(), 3);
    let copy = l.cast_number(NumberType::F64).unwrap();
    let back: Vec<f64> = copy.into_f64_bits().unwrap().into_iter().map(f64::from_bits).collect();
    assert_eq!(back, floats);
    assert_eq!(l.into_f64_bits().unwrap(), bits);
}

#[test]
fn type_check_rejects_every_other_tag() {
    let l = NumList::from_vec(vec![1i32, 2, 3]);
    assert_eq!(
        l.clone_inner::<u8>(),
        Err(NumberTypeError::Mismatch(NumberType::I32, NumberType::U8))
    );
    assert_eq!(
        l.clone_inner::<i8>(),
        Err(NumberTypeError::Mismatch(NumberType::I32, NumberType::I8))
    );
    assert_eq!(
        l.clone_inner::<u16>(),
        Err(NumberTypeError::Mismatch(NumberType::I32, NumberType::U16))
    );
    assert_eq!(
        l.clone_inner::<i16>(),
        Err(NumberTypeError::Mismatch(NumberType::I32, NumberType::I16))
    );
    assert_eq!(
        l.clone_inner::<u32>(),
        Err(NumberTypeError::Mismatch(NumberType::I32, NumberType::U32))
    );
    assert_eq!(
        l.clone_inner::<u64>(),
        Err(NumberTypeError::Mismatch(NumberType::I32, NumberType::U64))
    );
    assert_eq!(
        l.clone_inner::<i64>(),
        Err(NumberTypeError::Mismatch(NumberType::I32, NumberType::I64))
    );
    assert_eq!(
        l.clone_inner::<usize>(),
        Err(NumberTypeError::Mismatch(NumberType::I32, NumberType::Usize))
    );
    // the buffer is intact after every rejection
    assert_eq!(l.into_inner::<i32>().unwrap(), vec![1, 2, 3]);
}

#[test]
fn as_slice_type_checked() {
    let l = NumList::from_vec(vec![5u16, 6]);
    assert_eq!(l.as_slice::<u16>().unwrap(), &[5u16, 6][..]);
    assert_eq!(
        l.as_slice::<u8>().err().unwrap(),
        NumberTypeError::Mismatch(NumberType::U16, NumberType::U8)
    );
}

#[test]
fn extend_length_and_prefix() {
    let mut l = NumList::from_vec(vec![10u8, 20]);
    l.extend_from_slice(&[30u8, 40, 50]).unwrap();
    assert_eq!(l.len(), 5);
    assert_eq!(l.into_inner::<u8>().unwrap(), vec![10, 20, 30, 40, 50]);
}

#[test]
fn extend_with_empty_slice() {
    let mut l = NumList::from_vec(vec![1i64]);
    l.extend_from_slice::<i64>(&[]).unwrap();
    assert_eq!(l.into_inner::<i64>().unwrap(), vec![1]);
}

#[test]
fn extend_wrong_type_leaves_buffer() {
    let mut l = NumList::from_vec(vec![1u8, 2]);
    assert_eq!(
        l.extend_from_slice(&[3i32]),
        Err(NumberTypeError::Mismatch(NumberType::U8, NumberType::I32))
    );
    assert_eq!(l.into_inner::<u8>().unwrap(), vec![1, 2]);
}

#[test]
fn extend_vec_moves_elements() {
    let mut l = NumList::from_vec(vec![1u32]);
    l.extend(vec![2u32, 3]).unwrap();
    assert_eq!(l.into_inner::<u32>().unwrap(), vec![1, 2, 3]);
}

#[test]
fn push_typed_and_tagged() {
    let mut l = NumList::from_vec(vec![1i16]);
    l.push(2i16).unwrap();
    l.push_num(NumEx::Short(3)).unwrap();
    assert_eq!(
        l.push_num(NumEx::Int(4)),
        Err(NumberTypeError::Mismatch(NumberType::I16, NumberType::I32))
    );
    assert_eq!(
        l.push(4u8),
        Err(NumberTypeError::Mismatch(NumberType::I16, NumberType::U8))
    );
    assert_eq!(l.into_inner::<i16>().unwrap(), vec![1, 2, 3]);
}

#[test]
fn extend_from_list_same_tag() {
    let mut a = NumList::from_vec(vec![1u8, 2]);
    let b = NumList::from_vec(vec![3u8, 4]);
    a.extend_from_list(&b).unwrap();
    assert_eq!(a.into_inner::<u8>().unwrap(), vec![1, 2, 3, 4]);
    assert_eq!(b.into_inner::<u8>().unwrap(), vec![3, 4]);
}

#[test]
fn extend_from_list_mismatched_tags() {
    let mut a = NumListEx::Float(vec![1.0f32.to_bits()]).into_num_list();
    let b = NumList::from_vec(vec![1i32]);
    assert_eq!(
        a.extend_from_list(&b),
        Err(NumberTypeError::Mismatch(NumberType::F32, NumberType::I32))
    );
    assert_eq!(a.len(), 1);
    assert_eq!(b.into_inner::<i32>().unwrap(), vec![1]);
}

#[test]
fn extend_from_self_doubles() {
    let mut l = NumList::from_vec(vec![1i32, 2, 3]);
    l.extend_from_self();
    assert_eq!(l.into_inner::<i32>().unwrap(), vec![1, 2, 3, 1, 2, 3]);
}

#[test]
fn extend_from_self_empty() {
    let mut l = NumList::from_vec(Vec::<u64>::new());
    l.extend_from_self();
    assert_eq!(l.len(), 0);
}

#[test]
fn cast_truncates_like_the_as_operator() {
    // 300 does not fit u8: the cast truncates to 300 mod 256 = 44,
    // exactly as `300i32 as u8` does
    let l = NumList::from_vec(vec![300i32]);
    let c = l.cast_number(NumberType::U8).unwrap();
    assert_eq!(c.number_type(), NumberType::U8);
    assert_eq!(c.into_inner::<u8>().unwrap(), vec![44]);
    assert_eq!(300i32 as u8, 44);
    // the source buffer is untouched
    assert_eq!(l.into_inner::<i32>().unwrap(), vec![300]);
}

#[test]
fn cast_negative_to_unsigned_wraps() {
    let l = NumList::from_vec(vec![-1i32, -2]);
    assert_eq!(
        l.cast_number(NumberType::U8).unwrap().into_inner::<u8>().unwrap(),
        vec![255, 254]
    );
    assert_eq!(
        l.cast_number(NumberType::U64).unwrap().into_inner::<u64>().unwrap(),
        vec![u64::MAX, u64::MAX - 1]
    );
}

#[test]
fn cast_widening_preserves_values() {
    let l = NumList::from_vec(vec![-7i8, 100]);
    assert_eq!(
        l.cast_number(NumberType::I64).unwrap().into_inner::<i64>().unwrap(),
        vec![-7, 100]
    );
}

#[test]
fn cast_to_own_tag_copies() {
    let l = NumList::from_vec(vec![9u16]);
    let c = l.cast_number(NumberType::U16).unwrap();
    assert_eq!(c.into_inner::<u16>().unwrap(), vec![9]);
    assert_eq!(l.into_inner::<u16>().unwrap(), vec![9]);
}

#[test]
fn cast_crossing_floats_is_refused() {
    let l = NumList::from_vec(vec![1i32]);
    assert_eq!(
        l.cast_number(NumberType::F32).err().unwrap(),
        NumberTypeError::Mismatch(NumberType::I32, NumberType::F32)
    );
    let f = NumListEx::Float(vec![1.0f32.to_bits()]).into_num_list();
    assert_eq!(
        f.cast_number(NumberType::I32).err().unwrap(),
        NumberTypeError::Mismatch(NumberType::F32, NumberType::I32)
    );
    // a float buffer can still be copied to its own kind
    assert!(f.cast_number(NumberType::F32).is_ok());
}

#[test]
fn scalar_cast_matrix() {
    assert_eq!(
        NumEx::Int(300).num_cast(NumberType::U8).unwrap(),
        NumEx::Uchar(44)
    );
    assert_eq!(
        NumEx::Char(-1).num_cast(NumberType::U64).unwrap(),
        NumEx::Ulong(u64::MAX)
    );
    assert_eq!(
        NumEx::Ulong(u64::MAX).num_cast(NumberType::I32).unwrap(),
        NumEx::Int(-1)
    );
    assert_eq!(
        NumEx::Float(7).num_cast(NumberType::F32).unwrap(),
        NumEx::Float(7)
    );
    assert_eq!(
        NumEx::Float(7).num_cast(NumberType::F64),
        Err(NumberTypeError::Mismatch(NumberType::F32, NumberType::F64))
    );
    assert_eq!(
        NumEx::SizeT(usize::MAX).num_cast(NumberType::U8).unwrap(),
        NumEx::Uchar(255)
    );
}

#[test]
fn clone_is_deep() {
    let mut a = NumList::from_vec(vec![1u8]);
    let b = a.clone();
    a.push(2u8).unwrap();
    assert_eq!(a.into_inner::<u8>().unwrap(), vec![1, 2]);
    assert_eq!(b.into_inner::<u8>().unwrap(), vec![1]);
}

#[test]
fn new_empty_has_tag_and_no_elements() {
    let l = NumList::new_empty(NumberType::F64);
    assert_eq!(l.number_type(), NumberType::F64);
    assert!(l.is_empty());
    assert!(l.capacity() >= l.len());
}

#[test]
fn from_nums_builds_a_tagged_buffer() {
    let nums = vec![NumEx::Uint(1), NumEx::Uint(2), NumEx::Uint(3)];
    let l = NumList::from_nums(NumberType::U32, &nums).unwrap();
    assert_eq!(l.into_inner::<u32>().unwrap(), vec![1, 2, 3]);
    assert!(NumList::from_nums(NumberType::F64, &Vec::new()).is_ok());
}

#[test]
fn from_nums_rejects_a_foreign_scalar() {
    let nums = vec![NumEx::Uint(1), NumEx::Long(2)];
    assert_eq!(
        NumList::from_nums(NumberType::U32, &nums).err().unwrap(),
        NumberTypeError::Mismatch(NumberType::U32, NumberType::I64)
    );
}

#[test]
fn host_list_round_trip() {
    let l = NumListEx::Short(vec![-3i16, 9]).into_num_list();
    assert_eq!(l.number_type(), NumberType::I16);
    let back = NumListEx::from_num_list(l);
    assert_eq!(back.number_type(), NumberType::I16);
    match back {
        NumListEx::Short(v) => assert_eq!(v, vec![-3i16, 9]),
        _ => panic!("the kind survives the round trip"),
    }
}

#[test]
fn get_num_reads_elements() {
    let l = NumList::from_vec(vec![-5i64, 6]);
    assert_eq!(l.get_num(0), NumEx::Long(-5));
    assert_eq!(l.get_num(1), NumEx::Long(6));
}
