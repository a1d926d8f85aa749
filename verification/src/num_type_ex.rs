//! The host-facing spelling of the numeric tag, named after the OpenCL
//! scalar types, and its lossless conversions to and from `NumberType`.

use vstd::prelude::*;

use crate::number_type::NumberType;

verus! {

/// The eleven numeric kinds under their OpenCL names: `Char` is `I8`,
/// `Uchar` is `U8`, and so on; `SizeT` is the pointer-sized integer.
#[derive(Clone, Copy, Debug, Hash, PartialEq, Eq, Structural)]
pub enum NumTypeEx {
    Char,
    Uchar,
    Short,
    Ushort,
    Int,
    Uint,
    Long,
    Ulong,
    Float,
    Double,
    SizeT,
}

impl NumTypeEx {
    /// The tag this spelling names.
    pub open spec fn number_type_spec(self) -> NumberType {
        match self {
            NumTypeEx::Char => NumberType::I8,
            NumTypeEx::Uchar => NumberType::U8,
            NumTypeEx::Short => NumberType::I16,
            NumTypeEx::Ushort => NumberType::U16,
            NumTypeEx::Int => NumberType::I32,
            NumTypeEx::Uint => NumberType::U32,
            NumTypeEx::Long => NumberType::I64,
            NumTypeEx::Ulong => NumberType::U64,
            NumTypeEx::Float => NumberType::F32,
            NumTypeEx::Double => NumberType::F64,
            NumTypeEx::SizeT => NumberType::Usize,
        }
    }

    /// The tag this spelling names, as a runtime value.
    pub fn number_type(&self) -> (t: NumberType)
        ensures
            t == self.number_type_spec(),
    {
        match self {
            NumTypeEx::Char => NumberType::I8,
            NumTypeEx::Uchar => NumberType::U8,
            NumTypeEx::Short => NumberType::I16,
            NumTypeEx::Ushort => NumberType::U16,
            NumTypeEx::Int => NumberType::I32,
            NumTypeEx::Uint => NumberType::U32,
            NumTypeEx::Long => NumberType::I64,
            NumTypeEx::Ulong => NumberType::U64,
            NumTypeEx::Float => NumberType::F32,
            NumTypeEx::Double => NumberType::F64,
            NumTypeEx::SizeT => NumberType::Usize,
        }
    }
}

/// The host spelling of each tag: the inverse of `NumTypeEx::number_type_spec`.
pub open spec fn spelling_of(t: NumberType) -> NumTypeEx {
    match t {
        NumberType::I8 => NumTypeEx::Char,
        NumberType::U8 => NumTypeEx::Uchar,
        NumberType::I16 => NumTypeEx::Short,
        NumberType::U16 => NumTypeEx::Ushort,
        NumberType::I32 => NumTypeEx::Int,
        NumberType::U32 => NumTypeEx::Uint,
        NumberType::I64 => NumTypeEx::Long,
        NumberType::U64 => NumTypeEx::Ulong,
        NumberType::F32 => NumTypeEx::Float,
        NumberType::F64 => NumTypeEx::Double,
        NumberType::Usize => NumTypeEx::SizeT,
    }
}

impl From<NumberType> for NumTypeEx {
    /// The host spelling of a tag: the inverse of `number_type`. Every tag
    /// has a spelling, so no arm is missing and nothing can fall through.
    fn from(t: NumberType) -> (r: NumTypeEx) {
        match t {
            NumberType::I8 => NumTypeEx::Char,
            NumberType::U8 => NumTypeEx::Uchar,
            NumberType::I16 => NumTypeEx::Short,
            NumberType::U16 => NumTypeEx::Ushort,
            NumberType::I32 => NumTypeEx::Int,
            NumberType::U32 => NumTypeEx::Uint,
            NumberType::I64 => NumTypeEx::Long,
            NumberType::U64 => NumTypeEx::Ulong,
            NumberType::F32 => NumTypeEx::Float,
            NumberType::F64 => NumTypeEx::Double,
            NumberType::Usize => NumTypeEx::SizeT,
        }
    }
}

impl vstd::std_specs::convert::FromSpecImpl<NumberType> for NumTypeEx {
    open spec fn obeys_from_spec() -> bool {
        true
    }

    open spec fn from_spec(t: NumberType) -> NumTypeEx {
        spelling_of(t)
    }
}

/// The two spellings of the tags name the same eleven kinds: converting a
/// spelling to its tag and back, or a tag to its spelling and back, changes
/// nothing.
pub proof fn lemma_spellings_correspond(ex: NumTypeEx, t: NumberType)
    ensures
        spelling_of(ex.number_type_spec()) == ex,
        spelling_of(t).number_type_spec() == t,
{
}

} // verus!
