//! The type-erased numeric buffer: a growable array whose element type is
//! known only through its runtime tag, as one variant per supported kind.
//!
//! The variant is the tag, so the tag can never drift from the layout of the
//! elements, and dropping or cloning the buffer needs no dispatch of its own.
//! Every operation that is generic over the element type goes through an
//! exhaustive match: a missing arm is a compile error, not a silent
//! type-confusion bug. The two floating-point variants hold IEEE-754 bit
//! patterns; the embedding layer converts floats at the boundary.

use vstd::prelude::*;

use crate::number_ex::ints_of;
use crate::number_ex::lemma_ints_of_injective;
use crate::number_ex::lemma_ints_of_push;
use crate::number_ex::NumEx;
use crate::number_ex::NumExT;
use crate::number_type::NumberType;
use crate::number_type::NumberTypeError;

verus! {

/// A growable, homogeneous buffer of primitive numbers, tagged at runtime.
///
/// Its view is the sequence of element values read as mathematical integers
/// (for the float kinds: the bit patterns); `number_type_spec` is the tag.
#[derive(Debug)]
pub enum NumList {
    U8(Vec<u8>),
    I8(Vec<i8>),
    U16(Vec<u16>),
    I16(Vec<i16>),
    U32(Vec<u32>),
    I32(Vec<i32>),
    F32(Vec<u32>),
    U64(Vec<u64>),
    I64(Vec<i64>),
    F64(Vec<u64>),
    Usize(Vec<usize>),
}

impl View for NumList {
    type V = Seq<int>;

    open spec fn view(&self) -> Seq<int> {
        match self {
            NumList::U8(v) => v@.map_values(|x: u8| x as int),
            NumList::I8(v) => v@.map_values(|x: i8| x as int),
            NumList::U16(v) => v@.map_values(|x: u16| x as int),
            NumList::I16(v) => v@.map_values(|x: i16| x as int),
            NumList::U32(v) => v@.map_values(|x: u32| x as int),
            NumList::I32(v) => v@.map_values(|x: i32| x as int),
            NumList::F32(v) => v@.map_values(|x: u32| x as int),
            NumList::U64(v) => v@.map_values(|x: u64| x as int),
            NumList::I64(v) => v@.map_values(|x: i64| x as int),
            NumList::F64(v) => v@.map_values(|x: u64| x as int),
            NumList::Usize(v) => v@.map_values(|x: usize| x as int),
        }
    }
}

impl NumList {
    /// The tag of this buffer's elements.
    pub open spec fn number_type_spec(self) -> NumberType {
        match self {
            NumList::U8(_) => NumberType::U8,
            NumList::I8(_) => NumberType::I8,
            NumList::U16(_) => NumberType::U16,
            NumList::I16(_) => NumberType::I16,
            NumList::U32(_) => NumberType::U32,
            NumList::I32(_) => NumberType::I32,
            NumList::F32(_) => NumberType::F32,
            NumList::U64(_) => NumberType::U64,
            NumList::I64(_) => NumberType::I64,
            NumList::F64(_) => NumberType::F64,
            NumList::Usize(_) => NumberType::Usize,
        }
    }

    /// Every element of the buffer lies in the range of the buffer's tag.
    pub proof fn lemma_elements_in_range(self)
        ensures
            forall|i: int|
                0 <= i < self@.len() ==> self.number_type_spec().in_range(#[trigger] self@[i]),
    {
        match self {
            NumList::U8(v) => crate::number_ex::lemma_ints_of_in_range::<u8>(v@),
            NumList::I8(v) => crate::number_ex::lemma_ints_of_in_range::<i8>(v@),
            NumList::U16(v) => crate::number_ex::lemma_ints_of_in_range::<u16>(v@),
            NumList::I16(v) => crate::number_ex::lemma_ints_of_in_range::<i16>(v@),
            NumList::U32(v) => crate::number_ex::lemma_ints_of_in_range::<u32>(v@),
            NumList::I32(v) => crate::number_ex::lemma_ints_of_in_range::<i32>(v@),
            NumList::F32(v) => crate::number_ex::lemma_ints_of_in_range::<u32>(v@),
            NumList::U64(v) => crate::number_ex::lemma_ints_of_in_range::<u64>(v@),
            NumList::I64(v) => crate::number_ex::lemma_ints_of_in_range::<i64>(v@),
            NumList::F64(v) => crate::number_ex::lemma_ints_of_in_range::<u64>(v@),
            NumList::Usize(v) => crate::number_ex::lemma_ints_of_in_range::<usize>(v@),
        }
    }

    /// The tag, as a runtime value.
    pub fn number_type(&self) -> (t: NumberType)
        ensures
            t == self.number_type_spec(),
    {
        match self {
            NumList::U8(_) => NumberType::U8,
            NumList::I8(_) => NumberType::I8,
            NumList::U16(_) => NumberType::U16,
            NumList::I16(_) => NumberType::I16,
            NumList::U32(_) => NumberType::U32,
            NumList::I32(_) => NumberType::I32,
            NumList::F32(_) => NumberType::F32,
            NumList::U64(_) => NumberType::U64,
            NumList::I64(_) => NumberType::I64,
            NumList::F64(_) => NumberType::F64,
            NumList::Usize(_) => NumberType::Usize,
        }
    }

    /// How many elements the buffer holds.
    pub fn len(&self) -> (n: usize)
        ensures
            n == self@.len(),
    {
        match self {
            NumList::U8(v) => v.len(),
            NumList::I8(v) => v.len(),
            NumList::U16(v) => v.len(),
            NumList::I16(v) => v.len(),
            NumList::U32(v) => v.len(),
            NumList::I32(v) => v.len(),
            NumList::F32(v) => v.len(),
            NumList::U64(v) => v.len(),
            NumList::I64(v) => v.len(),
            NumList::F64(v) => v.len(),
            NumList::Usize(v) => v.len(),
        }
    }

    pub fn is_empty(&self) -> (r: bool)
        ensures
            r == (self@.len() == 0),
    {
        self.len() == 0
    }

    /// An empty buffer of the given tag.
    pub fn new_empty(t: NumberType) -> (l: NumList)
        ensures
            l.number_type_spec() == t,
            l@ == Seq::<int>::empty(),
    {
        let l = match t {
            NumberType::U8 => NumList::U8(Vec::new()),
            NumberType::I8 => NumList::I8(Vec::new()),
            NumberType::U16 => NumList::U16(Vec::new()),
            NumberType::I16 => NumList::I16(Vec::new()),
            NumberType::U32 => NumList::U32(Vec::new()),
            NumberType::I32 => NumList::I32(Vec::new()),
            NumberType::F32 => NumList::F32(Vec::new()),
            NumberType::U64 => NumList::U64(Vec::new()),
            NumberType::I64 => NumList::I64(Vec::new()),
            NumberType::F64 => NumList::F64(Vec::new()),
            NumberType::Usize => NumList::Usize(Vec::new()),
        };
        proof {
            assert(l@ =~= Seq::<int>::empty());
        }
        l
    }

    /// Consumes a typed vector into a buffer tagged with the vector's element
    /// type. The allocation moves in whole; no element is copied.
    pub fn from_vec<T: NumExT>(v: Vec<T>) -> (l: NumList)
        ensures
            l.number_type_spec() == T::number_type_spec(),
            l@ == ints_of(v@),
    {
        T::wrap_vec(v)
    }

    /// A buffer of the kind `t` names, filled from runtime-tagged scalars, as
    /// when the host hands a list over whose kind is known only at run time.
    /// Succeeds exactly when every scalar carries `t`; otherwise the error
    /// holds `t` and the tag of a scalar that does not.
    pub fn from_nums(t: NumberType, nums: &Vec<NumEx>) -> (r: Result<NumList, NumberTypeError>)
        ensures
            r is Ok <==> (forall|j: int|
                0 <= j < nums@.len() ==> (#[trigger] nums@[j]).number_type_spec() == t),
            r matches Ok(l) ==> l.number_type_spec() == t && l@ == nums@.map_values(
                |n: NumEx| n.to_int(),
            ),
            r matches Err(e) ==> exists|j: int|
                0 <= j < nums@.len() && (#[trigger] nums@[j]).number_type_spec() != t && e
                    == NumberTypeError::Mismatch(t, nums@[j].number_type_spec()),
    {
        let mut out = NumList::new_empty(t);
        let mut i: usize = 0;
        while i < nums.len()
            invariant
                i <= nums@.len(),
                out.number_type_spec() == t,
                forall|j: int| 0 <= j < i ==> (#[trigger] nums@[j]).number_type_spec() == t,
                out@ == nums@.subrange(0, i as int).map_values(|n: NumEx| n.to_int()),
            decreases nums@.len() - i,
        {
            match out.push_num(nums[i]) {
                Ok(_) => {
                    proof {
                        assert(out@ =~= nums@.subrange(0, i + 1 as int).map_values(
                            |n: NumEx| n.to_int(),
                        ));
                    }
                },
                Err(e) => {
                    return Err(e);
                },
            }
            i = i + 1;
        }
        proof {
            assert(nums@.subrange(0, nums@.len() as int) =~= nums@);
        }
        Ok(out)
    }

    /// A single-precision float buffer from the IEEE-754 bit patterns of its
    /// elements. The embedding layer converts floats to bits at the boundary.
    pub fn from_f32_bits(bits: Vec<u32>) -> (l: NumList)
        ensures
            l.number_type_spec() == NumberType::F32,
            l@ == bits@.map_values(|x: u32| x as int),
    {
        NumList::F32(bits)
    }

    /// A double-precision float buffer from the IEEE-754 bit patterns of its
    /// elements.
    pub fn from_f64_bits(bits: Vec<u64>) -> (l: NumList)
        ensures
            l.number_type_spec() == NumberType::F64,
            l@ == bits@.map_values(|x: u64| x as int),
    {
        NumList::F64(bits)
    }

    /// Consumes a single-precision float buffer into the bit patterns of its
    /// elements; fails with both tags on any other kind.
    pub fn into_f32_bits(self) -> (r: Result<Vec<u32>, NumberTypeError>)
        ensures
            r is Ok <==> self.number_type_spec() == NumberType::F32,
            r matches Ok(bits) ==> bits@.map_values(|x: u32| x as int) == self@,
            r is Err ==> r == Err::<Vec<u32>, NumberTypeError>(
                NumberTypeError::Mismatch(self.number_type_spec(), NumberType::F32),
            ),
    {
        let own = self.number_type();
        match self {
            NumList::F32(bits) => Ok(bits),
            _ => Err(NumberTypeError::Mismatch(own, NumberType::F32)),
        }
    }

    /// Consumes a double-precision float buffer into the bit patterns of its
    /// elements; fails with both tags on any other kind.
    pub fn into_f64_bits(self) -> (r: Result<Vec<u64>, NumberTypeError>)
        ensures
            r is Ok <==> self.number_type_spec() == NumberType::F64,
            r matches Ok(bits) ==> bits@.map_values(|x: u64| x as int) == self@,
            r is Err ==> r == Err::<Vec<u64>, NumberTypeError>(
                NumberTypeError::Mismatch(self.number_type_spec(), NumberType::F64),
            ),
    {
        let own = self.number_type();
        match self {
            NumList::F64(bits) => Ok(bits),
            _ => Err(NumberTypeError::Mismatch(own, NumberType::F64)),
        }
    }

    /// Succeeds exactly when the buffer's tag is the tag of `T`.
    pub fn type_check_t<T: NumExT>(&self) -> (r: Result<(), NumberTypeError>)
        ensures
            r is Ok <==> self.number_type_spec() == T::number_type_spec(),
            r is Err ==> r == Err::<(), NumberTypeError>(
                NumberTypeError::Mismatch(self.number_type_spec(), T::number_type_spec()),
            ),
    {
        let own = self.number_type();
        own.type_check(&T::number_type())
    }

    /// Consumes the buffer and hands its allocation back as the typed vector
    /// it was built from, when `T` is the buffer's own kind; fails with the
    /// two tags otherwise.
    pub fn into_inner<T: NumExT>(self) -> (r: Result<Vec<T>, NumberTypeError>)
        ensures
            r is Ok <==> self.number_type_spec() == T::number_type_spec(),
            r matches Ok(v) ==> ints_of(v@) == self@,
            r is Err ==> r == Err::<Vec<T>, NumberTypeError>(
                NumberTypeError::Mismatch(self.number_type_spec(), T::number_type_spec()),
            ),
    {
        match self.type_check_t::<T>() {
            Ok(_) => Ok(T::take_vec(self)),
            Err(e) => Err(e),
        }
    }

    /// Copies the buffer's elements out as a typed vector, when `T` is the
    /// buffer's own kind; the buffer itself is untouched.
    pub fn clone_inner<T: NumExT>(&self) -> (r: Result<Vec<T>, NumberTypeError>)
        ensures
            r is Ok <==> self.number_type_spec() == T::number_type_spec(),
            r matches Ok(v) ==> ints_of(v@) == self@,
            r is Err ==> r == Err::<Vec<T>, NumberTypeError>(
                NumberTypeError::Mismatch(self.number_type_spec(), T::number_type_spec()),
            ),
    {
        match self.type_check_t::<T>() {
            Ok(_) => Ok(copy_vec(T::borrow_vec(self))),
            Err(e) => Err(e),
        }
    }

    /// Borrows the buffer's elements as a typed slice, when `T` is the
    /// buffer's own kind.
    pub fn as_slice<T: NumExT>(&self) -> (r: Result<&[T], NumberTypeError>)
        ensures
            r is Ok <==> self.number_type_spec() == T::number_type_spec(),
            r matches Ok(s) ==> ints_of(s@) == self@,
            r is Err ==> r == Err::<&[T], NumberTypeError>(
                NumberTypeError::Mismatch(self.number_type_spec(), T::number_type_spec()),
            ),
    {
        match self.type_check_t::<T>() {
            Ok(_) => Ok(T::borrow_vec(self).as_slice()),
            Err(e) => Err(e),
        }
    }
}

impl NumList {
    /// Appends one runtime-tagged scalar, when its tag is the buffer's own;
    /// on a mismatch the buffer is unchanged and the error carries the
    /// buffer's tag first. The dispatch is one exhaustive match: every
    /// matching pair of tags has its arm, everything else is a mismatch.
    pub fn push_num(&mut self, n: NumEx) -> (r: Result<(), NumberTypeError>)
        ensures
            final(self).number_type_spec() == old(self).number_type_spec(),
            r is Ok <==> n.number_type_spec() == old(self).number_type_spec(),
            r is Ok ==> final(self)@ == old(self)@.push(n.to_int()),
            r is Err ==> final(self)@ == old(self)@ && r == Err::<(), NumberTypeError>(
                NumberTypeError::Mismatch(old(self).number_type_spec(), n.number_type_spec()),
            ),
    {
        let own = self.number_type();
        match (&mut *self, n) {
            (NumList::U8(v), NumEx::Uchar(x)) => {
                v.push(x);
                proof {
                    assert(v@.map_values(|y: u8| y as int) =~= old(self)@.push(n.to_int()));
                }
                Ok(())
            },
            (NumList::I8(v), NumEx::Char(x)) => {
                v.push(x);
                proof {
                    assert(v@.map_values(|y: i8| y as int) =~= old(self)@.push(n.to_int()));
                }
                Ok(())
            },
            (NumList::U16(v), NumEx::Ushort(x)) => {
                v.push(x);
                proof {
                    assert(v@.map_values(|y: u16| y as int) =~= old(self)@.push(n.to_int()));
                }
                Ok(())
            },
            (NumList::I16(v), NumEx::Short(x)) => {
                v.push(x);
                proof {
                    assert(v@.map_values(|y: i16| y as int) =~= old(self)@.push(n.to_int()));
                }
                Ok(())
            },
            (NumList::U32(v), NumEx::Uint(x)) => {
                v.push(x);
                proof {
                    assert(v@.map_values(|y: u32| y as int) =~= old(self)@.push(n.to_int()));
                }
                Ok(())
            },
            (NumList::I32(v), NumEx::Int(x)) => {
                v.push(x);
                proof {
                    assert(v@.map_values(|y: i32| y as int) =~= old(self)@.push(n.to_int()));
                }
                Ok(())
            },
            (NumList::F32(v), NumEx::Float(x)) => {
                v.push(x);
                proof {
                    assert(v@.map_values(|y: u32| y as int) =~= old(self)@.push(n.to_int()));
                }
                Ok(())
            },
            (NumList::U64(v), NumEx::Ulong(x)) => {
                v.push(x);
                proof {
                    assert(v@.map_values(|y: u64| y as int) =~= old(self)@.push(n.to_int()));
                }
                Ok(())
            },
            (NumList::I64(v), NumEx::Long(x)) => {
                v.push(x);
                proof {
                    assert(v@.map_values(|y: i64| y as int) =~= old(self)@.push(n.to_int()));
                }
                Ok(())
            },
            (NumList::F64(v), NumEx::Double(x)) => {
                v.push(x);
                proof {
                    assert(v@.map_values(|y: u64| y as int) =~= old(self)@.push(n.to_int()));
                }
                Ok(())
            },
            (NumList::Usize(v), NumEx::SizeT(x)) => {
                v.push(x);
                proof {
                    assert(v@.map_values(|y: usize| y as int) =~= old(self)@.push(n.to_int()));
                }
                Ok(())
            },
            _ => Err(NumberTypeError::Mismatch(own, n.number_type())),
        }
    }

    /// The element at `i` as a runtime-tagged scalar.
    pub fn get_num(&self, i: usize) -> (n: NumEx)
        requires
            i < self@.len(),
        ensures
            n.number_type_spec() == self.number_type_spec(),
            n.to_int() == self@[i as int],
    {
        match self {
            NumList::U8(v) => NumEx::Uchar(v[i]),
            NumList::I8(v) => NumEx::Char(v[i]),
            NumList::U16(v) => NumEx::Ushort(v[i]),
            NumList::I16(v) => NumEx::Short(v[i]),
            NumList::U32(v) => NumEx::Uint(v[i]),
            NumList::I32(v) => NumEx::Int(v[i]),
            NumList::F32(v) => NumEx::Float(v[i]),
            NumList::U64(v) => NumEx::Ulong(v[i]),
            NumList::I64(v) => NumEx::Long(v[i]),
            NumList::F64(v) => NumEx::Double(v[i]),
            NumList::Usize(v) => NumEx::SizeT(v[i]),
        }
    }

    /// Appends one typed scalar: `push_num` with the tag drawn from `T`.
    pub fn push<T: NumExT>(&mut self, num: T) -> (r: Result<(), NumberTypeError>)
        ensures
            final(self).number_type_spec() == old(self).number_type_spec(),
            r is Ok <==> T::number_type_spec() == old(self).number_type_spec(),
            r is Ok ==> final(self)@ == old(self)@.push(num.to_int()),
            r is Err ==> final(self)@ == old(self)@ && r == Err::<(), NumberTypeError>(
                NumberTypeError::Mismatch(old(self).number_type_spec(), T::number_type_spec()),
            ),
    {
        self.push_num(num.to_num_ex())
    }

    /// Appends every element of a typed slice, when `T` is the buffer's own
    /// kind: afterwards the first `m` elements are the old contents and the
    /// slice's elements follow them. On a mismatch the buffer is unchanged.
    pub fn extend_from_slice<T: NumExT>(&mut self, other: &[T]) -> (r: Result<
        (),
        NumberTypeError,
    >)
        ensures
            final(self).number_type_spec() == old(self).number_type_spec(),
            r is Ok <==> T::number_type_spec() == old(self).number_type_spec(),
            r is Ok ==> final(self)@ == old(self)@ + ints_of(other@),
            r is Err ==> final(self)@ == old(self)@ && r == Err::<(), NumberTypeError>(
                NumberTypeError::Mismatch(old(self).number_type_spec(), T::number_type_spec()),
            ),
    {
        match self.type_check_t::<T>() {
            Err(e) => Err(e),
            Ok(_) => {
                let mut i: usize = 0;
                while i < other.len()
                    invariant
                        i <= other@.len(),
                        self.number_type_spec() == T::number_type_spec(),
                        self@ == old(self)@ + ints_of(other@.subrange(0, i as int)),
                    decreases other@.len() - i,
                {
                    let x = other[i];
                    let res = self.push_num(x.to_num_ex());
                    proof {
                        assert(res is Ok);
                        assert(other@.subrange(0, i + 1 as int) =~= other@.subrange(
                            0,
                            i as int,
                        ).push(x));
                        lemma_ints_of_push(other@.subrange(0, i as int), x);
                    }
                    i = i + 1;
                }
                proof {
                    assert(other@.subrange(0, other@.len() as int) =~= other@);
                }
                Ok(())
            },
        }
    }

    /// Appends every element of a typed vector; `extend_from_slice` on the
    /// vector's contents.
    pub fn extend<T: NumExT>(&mut self, other: Vec<T>) -> (r: Result<(), NumberTypeError>)
        ensures
            final(self).number_type_spec() == old(self).number_type_spec(),
            r is Ok <==> T::number_type_spec() == old(self).number_type_spec(),
            r is Ok ==> final(self)@ == old(self)@ + ints_of(other@),
            r is Err ==> final(self)@ == old(self)@ && r == Err::<(), NumberTypeError>(
                NumberTypeError::Mismatch(old(self).number_type_spec(), T::number_type_spec()),
            ),
    {
        self.extend_from_slice(other.as_slice())
    }

    /// Appends the contents of another buffer, when the tags agree; on a
    /// mismatch both buffers are unchanged and the error carries this
    /// buffer's tag first, the other's second.
    pub fn extend_from_list(&mut self, other: &NumList) -> (r: Result<(), NumberTypeError>)
        ensures
            final(self).number_type_spec() == old(self).number_type_spec(),
            r is Ok <==> old(self).number_type_spec() == other.number_type_spec(),
            r is Ok ==> final(self)@ == old(self)@ + other@,
            r is Err ==> final(self)@ == old(self)@ && r == Err::<(), NumberTypeError>(
                NumberTypeError::Mismatch(old(self).number_type_spec(), other.number_type_spec()),
            ),
    {
        let own = self.number_type();
        match (&mut *self, other) {
            (NumList::U8(v), NumList::U8(w)) => {
                append_vec(v, w);
                proof {
                    assert(v@.map_values(|y: u8| y as int) =~= old(self)@ + other@);
                }
                Ok(())
            },
            (NumList::I8(v), NumList::I8(w)) => {
                append_vec(v, w);
                proof {
                    assert(v@.map_values(|y: i8| y as int) =~= old(self)@ + other@);
                }
                Ok(())
            },
            (NumList::U16(v), NumList::U16(w)) => {
                append_vec(v, w);
                proof {
                    assert(v@.map_values(|y: u16| y as int) =~= old(self)@ + other@);
                }
                Ok(())
            },
            (NumList::I16(v), NumList::I16(w)) => {
                append_vec(v, w);
                proof {
                    assert(v@.map_values(|y: i16| y as int) =~= old(self)@ + other@);
                }
                Ok(())
            },
            (NumList::U32(v), NumList::U32(w)) => {
                append_vec(v, w);
                proof {
                    assert(v@.map_values(|y: u32| y as int) =~= old(self)@ + other@);
                }
                Ok(())
            },
            (NumList::I32(v), NumList::I32(w)) => {
                append_vec(v, w);
                proof {
                    assert(v@.map_values(|y: i32| y as int) =~= old(self)@ + other@);
                }
                Ok(())
            },
            (NumList::F32(v), NumList::F32(w)) => {
                append_vec(v, w);
                proof {
                    assert(v@.map_values(|y: u32| y as int) =~= old(self)@ + other@);
                }
                Ok(())
            },
            (NumList::U64(v), NumList::U64(w)) => {
                append_vec(v, w);
                proof {
                    assert(v@.map_values(|y: u64| y as int) =~= old(self)@ + other@);
                }
                Ok(())
            },
            (NumList::I64(v), NumList::I64(w)) => {
                append_vec(v, w);
                proof {
                    assert(v@.map_values(|y: i64| y as int) =~= old(self)@ + other@);
                }
                Ok(())
            },
            (NumList::F64(v), NumList::F64(w)) => {
                append_vec(v, w);
                proof {
                    assert(v@.map_values(|y: u64| y as int) =~= old(self)@ + other@);
                }
                Ok(())
            },
            (NumList::Usize(v), NumList::Usize(w)) => {
                append_vec(v, w);
                proof {
                    assert(v@.map_values(|y: usize| y as int) =~= old(self)@ + other@);
                }
                Ok(())
            },
            _ => Err(NumberTypeError::Mismatch(own, other.number_type())),
        }
    }

    /// Appends the buffer's own contents to itself, doubling it. The copy to
    /// append is snapshotted before the buffer is touched, so the one
    /// self-aliasing operation of this library reads no memory it is writing.
    pub fn extend_from_self(&mut self)
        ensures
            final(self).number_type_spec() == old(self).number_type_spec(),
            final(self)@ == old(self)@ + old(self)@,
    {
        match &mut *self {
            NumList::U8(v) => {
                let snapshot = copy_vec(v);
                append_vec(v, &snapshot);
                proof {
                    assert(v@.map_values(|y: u8| y as int) =~= old(self)@ + old(self)@);
                }
            },
            NumList::I8(v) => {
                let snapshot = copy_vec(v);
                append_vec(v, &snapshot);
                proof {
                    assert(v@.map_values(|y: i8| y as int) =~= old(self)@ + old(self)@);
                }
            },
            NumList::U16(v) => {
                let snapshot = copy_vec(v);
                append_vec(v, &snapshot);
                proof {
                    assert(v@.map_values(|y: u16| y as int) =~= old(self)@ + old(self)@);
                }
            },
            NumList::I16(v) => {
                let snapshot = copy_vec(v);
                append_vec(v, &snapshot);
                proof {
                    assert(v@.map_values(|y: i16| y as int) =~= old(self)@ + old(self)@);
                }
            },
            NumList::U32(v) => {
                let snapshot = copy_vec(v);
                append_vec(v, &snapshot);
                proof {
                    assert(v@.map_values(|y: u32| y as int) =~= old(self)@ + old(self)@);
                }
            },
            NumList::I32(v) => {
                let snapshot = copy_vec(v);
                append_vec(v, &snapshot);
                proof {
                    assert(v@.map_values(|y: i32| y as int) =~= old(self)@ + old(self)@);
                }
            },
            NumList::F32(v) => {
                let snapshot = copy_vec(v);
                append_vec(v, &snapshot);
                proof {
                    assert(v@.map_values(|y: u32| y as int) =~= old(self)@ + old(self)@);
                }
            },
            NumList::U64(v) => {
                let snapshot = copy_vec(v);
                append_vec(v, &snapshot);
                proof {
                    assert(v@.map_values(|y: u64| y as int) =~= old(self)@ + old(self)@);
                }
            },
            NumList::I64(v) => {
                let snapshot = copy_vec(v);
                append_vec(v, &snapshot);
                proof {
                    assert(v@.map_values(|y: i64| y as int) =~= old(self)@ + old(self)@);
                }
            },
            NumList::F64(v) => {
                let snapshot = copy_vec(v);
                append_vec(v, &snapshot);
                proof {
                    assert(v@.map_values(|y: u64| y as int) =~= old(self)@ + old(self)@);
                }
            },
            NumList::Usize(v) => {
                let snapshot = copy_vec(v);
                append_vec(v, &snapshot);
                proof {
                    assert(v@.map_values(|y: usize| y as int) =~= old(self)@ + old(self)@);
                }
            },
        }
    }

    /// A new buffer of the kind `target` names, holding this buffer's
    /// elements converted one by one: between integer kinds by the truncating
    /// cast of Rust's `as` operator, to the buffer's own kind by copying.
    /// A conversion that crosses a floating-point representation is refused
    /// with both tags; the embedding layer performs those.
    pub fn cast_number(&self, target: NumberType) -> (r: Result<NumList, NumberTypeError>)
        ensures
            r is Ok <==> self.number_type_spec().castable_to(target),
            r matches Ok(l) ==> l.number_type_spec() == target && l@ == self@.map_values(
                |v: int| target.wrap(v),
            ),
            r is Err ==> r == Err::<NumList, NumberTypeError>(
                NumberTypeError::Mismatch(self.number_type_spec(), target),
            ),
    {
        let own = self.number_type();
        if own == target {
            let l = self.clone();
            proof {
                self.lemma_elements_in_range();
                assert forall|i: int| 0 <= i < self@.len() implies self@[i] == target.wrap(
                    #[trigger] self@[i],
                ) by {
                    target.lemma_wrap_identity(self@[i]);
                }
                assert(l@ =~= self@.map_values(|v: int| target.wrap(v)));
            }
            Ok(l)
        } else if own.is_float_kind() || target.is_float_kind() {
            Err(NumberTypeError::Mismatch(own, target))
        } else {
            let n = self.len();
            let mut out = NumList::new_empty(target);
            let mut i: usize = 0;
            while i < n
                invariant
                    i <= n,
                    n == self@.len(),
                    !self.number_type_spec().is_float(),
                    !target.is_float(),
                    out.number_type_spec() == target,
                    out@ == self@.subrange(0, i as int).map_values(|v: int| target.wrap(v)),
                decreases n - i,
            {
                let s = self.get_num(i);
                let c = match s.num_cast(target) {
                    Ok(c) => c,
                    Err(_) => vstd::pervasive::unreached(),
                };
                let res = out.push_num(c);
                proof {
                    assert(res is Ok);
                    assert(out@ =~= self@.subrange(0, i + 1 as int).map_values(
                        |v: int| target.wrap(v),
                    ));
                }
                i = i + 1;
            }
            proof {
                assert(self@.subrange(0, n as int) =~= self@);
            }
            Ok(out)
        }
    }
}

impl Clone for NumList {
    /// A deep copy: a fresh allocation with the same tag and the same
    /// elements.
    fn clone(&self) -> (r: Self)
        ensures
            r.number_type_spec() == self.number_type_spec(),
            r@ == self@,
    {
        match self {
            NumList::U8(v) => NumList::U8(copy_vec(v)),
            NumList::I8(v) => NumList::I8(copy_vec(v)),
            NumList::U16(v) => NumList::U16(copy_vec(v)),
            NumList::I16(v) => NumList::I16(copy_vec(v)),
            NumList::U32(v) => NumList::U32(copy_vec(v)),
            NumList::I32(v) => NumList::I32(copy_vec(v)),
            NumList::F32(v) => NumList::F32(copy_vec(v)),
            NumList::U64(v) => NumList::U64(copy_vec(v)),
            NumList::I64(v) => NumList::I64(copy_vec(v)),
            NumList::F64(v) => NumList::F64(copy_vec(v)),
            NumList::Usize(v) => NumList::Usize(copy_vec(v)),
        }
    }
}

/// Mutating vector operations over one element type, as the host layer calls
/// them. The contracts live on `NumList`'s inherent methods of the same
/// names, which these delegate to.
pub trait VecOps<T: NumExT> {
    fn push(&mut self, num: T) -> Result<(), NumberTypeError>;

    fn extend(&mut self, other: Vec<T>) -> Result<(), NumberTypeError>;

    fn extend_from_slice(&mut self, other: &[T]) -> Result<(), NumberTypeError>;
}

/// Size of a growable buffer.
pub trait VecProps {
    fn len(&self) -> usize;

    fn capacity(&self) -> usize;

    fn is_empty(&self) -> bool;
}

impl<T: NumExT> VecOps<T> for NumList {
    fn push(&mut self, num: T) -> Result<(), NumberTypeError> {
        NumList::push(self, num)
    }

    fn extend(&mut self, other: Vec<T>) -> Result<(), NumberTypeError> {
        NumList::extend(self, other)
    }

    fn extend_from_slice(&mut self, other: &[T]) -> Result<(), NumberTypeError> {
        NumList::extend_from_slice(self, other)
    }
}

impl VecProps for NumList {
    fn len(&self) -> usize {
        NumList::len(self)
    }

    fn capacity(&self) -> usize {
        NumList::capacity(self)
    }

    fn is_empty(&self) -> bool {
        NumList::is_empty(self)
    }
}

impl NumList {
    /// How many elements the buffer can hold without reallocating: at least
    /// its length.
    pub fn capacity(&self) -> (c: usize)
        ensures
            c >= self@.len(),
    {
        match self {
            NumList::U8(v) => vec_capacity(v),
            NumList::I8(v) => vec_capacity(v),
            NumList::U16(v) => vec_capacity(v),
            NumList::I16(v) => vec_capacity(v),
            NumList::U32(v) => vec_capacity(v),
            NumList::I32(v) => vec_capacity(v),
            NumList::F32(v) => vec_capacity(v),
            NumList::U64(v) => vec_capacity(v),
            NumList::I64(v) => vec_capacity(v),
            NumList::F64(v) => vec_capacity(v),
            NumList::Usize(v) => vec_capacity(v),
        }
    }
}

/// Relies on std's `Vec::capacity`: a vector's capacity is at least its
/// length.
#[verifier::external_body]
fn vec_capacity<T>(v: &Vec<T>) -> (c: usize)
    ensures
        c >= v@.len(),
{
    v.capacity()
}

/// Round trip: building a buffer from a typed vector and taking the typed
/// vector back out yields the vector unchanged, for every supported element
/// type. `v` is a vector handed to `from_vec`, `l` the view of the buffer it
/// returns, and `w` the vector `into_inner` hands back for a buffer of that
/// view: the two contracts force `w` to be `v` itself.
pub proof fn lemma_round_trip<T: NumExT>(v: Seq<T>, l: Seq<int>, w: Seq<T>)
    requires
        l == ints_of(v),
        ints_of(w) == l,
    ensures
        w == v,
{
    lemma_ints_of_injective(w, v);
}

/// Extend length law: a buffer of length `m` extended by `n` elements has
/// length `m + n`; its first `m` elements are unchanged and the appended
/// elements follow them in order.
pub proof fn lemma_extend_length(before: Seq<int>, appended: Seq<int>, after: Seq<int>)
    requires
        after == before + appended,
    ensures
        after.len() == before.len() + appended.len(),
        forall|i: int| 0 <= i < before.len() ==> after[i] == before[i],
        forall|i: int| 0 <= i < appended.len() ==> after[before.len() + i] == appended[i],
{
}

/// A fresh vector holding the same elements as `v`.
fn copy_vec<T: Copy>(v: &Vec<T>) -> (r: Vec<T>)
    ensures
        r@ == v@,
{
    let mut r: Vec<T> = Vec::new();
    let mut i: usize = 0;
    while i < v.len()
        invariant
            i <= v.len(),
            r@ == v@.subrange(0, i as int),
        decreases v.len() - i,
    {
        r.push(v[i]);
        proof {
            assert(r@ =~= v@.subrange(0, i + 1 as int));
        }
        i = i + 1;
    }
    proof {
        assert(r@ =~= v@);
    }
    r
}

/// Appends every element of `src` to `dst`.
fn append_vec<T: Copy>(dst: &mut Vec<T>, src: &Vec<T>)
    ensures
        final(dst)@ == old(dst)@ + src@,
{
    let mut i: usize = 0;
    while i < src.len()
        invariant
            i <= src@.len(),
            dst@ == old(dst)@ + src@.subrange(0, i as int),
        decreases src@.len() - i,
    {
        dst.push(src[i]);
        proof {
            assert(dst@ =~= old(dst)@ + src@.subrange(0, i + 1 as int));
        }
        i = i + 1;
    }
    proof {
        assert(old(dst)@ + src@.subrange(0, src@.len() as int) =~= old(dst)@ + src@);
    }
}

} // verus!
