use open_cl_native::NumberType;
use open_cl_native::NumberTypeError;
use open_cl_native::NumEx;
use open_cl_native::NumList;
use open_cl_native::NumListEx;
use open_cl_native::ArrayEx;

fn contents<T: open_cl_native::NumExT>(a: &ArrayEx) -> Vec<T> {
    a.try_cloned_vec::<T>().unwrap()
}

#[test]
fn array_round_trip() {
    let a = ArrayEx::new(NumList::from_vec(vec![1u32, 2, 3]));
    assert_eq!(a.number_type(), NumberType::U32);
    assert_eq!(a.len(), 3);
    assert!(!a.is_empty());
    assert_eq!(contents::<u32>(&a), vec![1, 2, 3]);
}

#[test]
fn self_extend_doubles() {
    let a = ArrayEx::new(NumList::from_vec(vec![1i32, 2, 3]));
    a.extend_from_array(&a).unwrap();
    assert_eq!(contents::<i32>(&a), vec![1, 2, 3, 1, 2, 3]);
}

#[test]
fn self_extend_through_second_handle() {
    let a = ArrayEx::new(NumList::from_vec(vec![1i32, 2, 3]));
    let b = a.clone();
    assert!(a.is_same_array(&b));
    a.extend_from_array(&b).unwrap();
    assert_eq!(contents::<i32>(&a), vec![1, 2, 3, 1, 2, 3]);
    assert_eq!(contents::<i32>(&b), vec![1, 2, 3, 1, 2, 3]);
}

#[test]
fn cross_array_extend() {
    let a = ArrayEx::new(NumList::from_vec(vec![1u8, 2]));
    let b = ArrayEx::new(NumList::from_vec(vec![3u8, 4]));
    assert!(!a.is_same_array(&b));
    a.extend_from_array(&b).unwrap();
    assert_eq!(contents::<u8>(&a), vec![1, 2, 3, 4]);
    assert_eq!(contents::<u8>(&b), vec![3, 4]);
}

#[test]
fn mismatched_tag_extend_leaves_both() {
    let a = ArrayEx::new(NumListEx::Float(vec![1.5f32.to_bits()]).into_num_list());
    let b = ArrayEx::new(NumList::from_vec(vec![7i32]));
    assert_eq!(
        a.extend_from_array(&b),
        Err(NumberTypeError::Mismatch(NumberType::F32, NumberType::I32))
    );
    assert_eq!(contents::<i32>(&b), vec![7]);
    assert_eq!(a.len(), 1);
    let bits = {
        let h = a.read_lock();
        let v = h.borrow().clone_inner::<u32>();
        h.release_read();
        v
    };
    assert_eq!(
        bits.err().unwrap(),
        NumberTypeError::Mismatch(NumberType::F32, NumberType::U32)
    );
}

#[test]
fn equal_contents_are_not_the_same_array() {
    let a = ArrayEx::new(NumList::from_vec(vec![1u8]));
    let b = ArrayEx::new(NumList::from_vec(vec![1u8]));
    assert!(!a.is_same_array(&b));
    assert!(a.is_same_array(&a));
}

#[test]
fn push_through_shared_handle_is_seen_by_all() {
    let a = ArrayEx::new(NumList::from_vec(vec![1u16]));
    let b = a.clone();
    a.push_num(NumEx::Ushort(2)).unwrap();
    b.push_num(NumEx::Ushort(3)).unwrap();
    assert_eq!(
        a.push_num(NumEx::Uchar(4)),
        Err(NumberTypeError::Mismatch(NumberType::U16, NumberType::U8))
    );
    assert_eq!(contents::<u16>(&a), vec![1, 2, 3]);
    assert_eq!(contents::<u16>(&b), vec![1, 2, 3]);
}

#[test]
fn extend_from_slice_and_vec() {
    let a = ArrayEx::new(NumList::from_vec(vec![1u64]));
    a.extend_from_slice(&[2u64, 3]).unwrap();
    a.extend(vec![4u64]).unwrap();
    assert_eq!(
        a.extend_from_slice(&[5i8]),
        Err(NumberTypeError::Mismatch(NumberType::U64, NumberType::I8))
    );
    assert_eq!(contents::<u64>(&a), vec![1, 2, 3, 4]);
}

#[test]
fn filled_with_repeats_the_scalar() {
    let a = ArrayEx::filled_with(9i8, 4);
    assert_eq!(a.number_type(), NumberType::I8);
    assert_eq!(contents::<i8>(&a), vec![9, 9, 9, 9]);
    let empty = ArrayEx::filled_with(1u32, 0);
    assert!(empty.is_empty());
}

#[test]
fn array_cast_is_a_new_array() {
    let a = ArrayEx::new(NumList::from_vec(vec![300i32, -1]));
    let c = a.cast(NumberType::U8).unwrap();
    assert_eq!(c.number_type(), NumberType::U8);
    assert!(!a.is_same_array(&c));
    assert_eq!(contents::<u8>(&c), vec![44, 255]);
    assert_eq!(contents::<i32>(&a), vec![300, -1]);
    assert_eq!(
        a.cast(NumberType::F64).err().unwrap(),
        NumberTypeError::Mismatch(NumberType::I32, NumberType::F64)
    );
}

#[test]
fn concurrent_readers_observe_one_snapshot() {
    let a = ArrayEx::new(NumList::from_vec(vec![1i32, 2, 3]));
    let (n1, n2) = a.observe_with_two_readers();
    assert_eq!(n1, n2);
    assert_eq!(n1, 3);
    // two handles, two read locks held at once: one snapshot
    let b = a.clone();
    let h1 = a.read_lock();
    let h2 = b.read_lock();
    let v1 = h1.borrow().clone_inner::<i32>().unwrap();
    let v2 = h2.borrow().clone_inner::<i32>().unwrap();
    h1.release_read();
    h2.release_read();
    assert_eq!(v1, v2);
}

#[test]
fn write_lock_hands_the_buffer_out_and_back() {
    let a = ArrayEx::new(NumList::from_vec(vec![2u8]));
    let (mut list, wh) = a.write_lock();
    list.push(3u8).unwrap();
    wh.release_write(list);
    assert_eq!(contents::<u8>(&a), vec![2, 3]);
}

#[test]
fn clone_list_is_a_snapshot() {
    let a = ArrayEx::new(NumList::from_vec(vec![5usize]));
    let snap = a.clone_list();
    a.push_num(NumEx::SizeT(6)).unwrap();
    assert_eq!(snap.into_inner::<usize>().unwrap(), vec![5]);
    assert_eq!(contents::<usize>(&a), vec![5, 6]);
}

#[test]
fn try_cloned_vec_type_checks() {
    let a = ArrayEx::new(NumList::from_vec(vec![1i64]));
    assert_eq!(
        a.try_cloned_vec::<u8>().err().unwrap(),
        NumberTypeError::Mismatch(NumberType::I64, NumberType::U8)
    );
}
