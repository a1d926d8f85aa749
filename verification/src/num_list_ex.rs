//! The tagged list as the host hands it over: one variant per numeric kind,
//! each holding a plain vector. Floating-point payloads arrive as IEEE-754
//! bit patterns, converted by the embedding layer.

use vstd::prelude::*;

use crate::num_list::NumList;
use crate::number_type::NumberType;

verus! {

/// A host-supplied typed list together with its kind. Unlike `NumList` this
/// type exists only at the boundary: it is consumed into a buffer by
/// `into_num_list` and never mutated.
#[derive(Debug)]
pub enum NumListEx {
    Char(Vec<i8>),
    Uchar(Vec<u8>),
    Short(Vec<i16>),
    Ushort(Vec<u16>),
    Int(Vec<i32>),
    Uint(Vec<u32>),
    Long(Vec<i64>),
    Ulong(Vec<u64>),
    SizeT(Vec<usize>),
    Float(Vec<u32>),
    Double(Vec<u64>),
}

impl View for NumListEx {
    type V = Seq<int>;

    open spec fn view(&self) -> Seq<int> {
        match self {
            NumListEx::Char(v) => v@.map_values(|x: i8| x as int),
            NumListEx::Uchar(v) => v@.map_values(|x: u8| x as int),
            NumListEx::Short(v) => v@.map_values(|x: i16| x as int),
            NumListEx::Ushort(v) => v@.map_values(|x: u16| x as int),
            NumListEx::Int(v) => v@.map_values(|x: i32| x as int),
            NumListEx::Uint(v) => v@.map_values(|x: u32| x as int),
            NumListEx::Long(v) => v@.map_values(|x: i64| x as int),
            NumListEx::Ulong(v) => v@.map_values(|x: u64| x as int),
            NumListEx::SizeT(v) => v@.map_values(|x: usize| x as int),
            NumListEx::Float(v) => v@.map_values(|x: u32| x as int),
            NumListEx::Double(v) => v@.map_values(|x: u64| x as int),
        }
    }
}

impl NumListEx {
    /// The tag of the list's elements.
    pub open spec fn number_type_spec(self) -> NumberType {
        match self {
            NumListEx::Char(_) => NumberType::I8,
            NumListEx::Uchar(_) => NumberType::U8,
            NumListEx::Short(_) => NumberType::I16,
            NumListEx::Ushort(_) => NumberType::U16,
            NumListEx::Int(_) => NumberType::I32,
            NumListEx::Uint(_) => NumberType::U32,
            NumListEx::Long(_) => NumberType::I64,
            NumListEx::Ulong(_) => NumberType::U64,
            NumListEx::SizeT(_) => NumberType::Usize,
            NumListEx::Float(_) => NumberType::F32,
            NumListEx::Double(_) => NumberType::F64,
        }
    }

    /// The tag of the list's elements, as a runtime value.
    pub fn number_type(&self) -> (t: NumberType)
        ensures
            t == self.number_type_spec(),
    {
        match self {
            NumListEx::Char(_) => NumberType::I8,
            NumListEx::Uchar(_) => NumberType::U8,
            NumListEx::Short(_) => NumberType::I16,
            NumListEx::Ushort(_) => NumberType::U16,
            NumListEx::Int(_) => NumberType::I32,
            NumListEx::Uint(_) => NumberType::U32,
            NumListEx::Long(_) => NumberType::I64,
            NumListEx::Ulong(_) => NumberType::U64,
            NumListEx::SizeT(_) => NumberType::Usize,
            NumListEx::Float(_) => NumberType::F32,
            NumListEx::Double(_) => NumberType::F64,
        }
    }

    /// Consumes a type-erased buffer into the host list of its own kind, for
    /// handing the contents back to the host when the tag is known only at
    /// run time. The inverse of `into_num_list`; nothing is copied.
    pub fn from_num_list(l: NumList) -> (r: NumListEx)
        ensures
            r.number_type_spec() == l.number_type_spec(),
            r@ == l@,
    {
        match l {
            NumList::U8(v) => NumListEx::Uchar(v),
            NumList::I8(v) => NumListEx::Char(v),
            NumList::U16(v) => NumListEx::Ushort(v),
            NumList::I16(v) => NumListEx::Short(v),
            NumList::U32(v) => NumListEx::Uint(v),
            NumList::I32(v) => NumListEx::Int(v),
            NumList::F32(v) => NumListEx::Float(v),
            NumList::U64(v) => NumListEx::Ulong(v),
            NumList::I64(v) => NumListEx::Long(v),
            NumList::F64(v) => NumListEx::Double(v),
            NumList::Usize(v) => NumListEx::SizeT(v),
        }
    }

    /// Consumes the host list into a type-erased buffer of the same kind and
    /// the same elements. The vector moves in whole; nothing is copied.
    pub fn into_num_list(self) -> (l: NumList)
        ensures
            l.number_type_spec() == self.number_type_spec(),
            l@ == self@,
    {
        match self {
            NumListEx::Char(v) => NumList::from_vec(v),
            NumListEx::Uchar(v) => NumList::from_vec(v),
            NumListEx::Short(v) => NumList::from_vec(v),
            NumListEx::Ushort(v) => NumList::from_vec(v),
            NumListEx::Int(v) => NumList::from_vec(v),
            NumListEx::Uint(v) => NumList::from_vec(v),
            NumListEx::Long(v) => NumList::from_vec(v),
            NumListEx::Ulong(v) => NumList::from_vec(v),
            NumListEx::SizeT(v) => NumList::from_vec(v),
            NumListEx::Float(v) => NumList::F32(v),
            NumListEx::Double(v) => NumList::F64(v),
        }
    }
}

} // verus!
