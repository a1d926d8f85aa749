//! The runtime tag naming which of the eleven primitive numeric kinds a
//! buffer or scalar holds, and the single error kind of this library: a
//! mismatch between an expected and an actual tag.

use vstd::prelude::*;

verus! {

/// Runtime discriminator for the eleven supported primitive numeric kinds.
///
/// `F32` and `F64` tag values whose payloads this library carries as IEEE-754
/// bit patterns (`u32` and `u64` respectively); `Usize` tags pointer-sized
/// integers.
#[derive(Clone, Copy, Debug, Hash, PartialEq, Eq, Structural)]
pub enum NumberType {
    U8,
    I8,
    U16,
    I16,
    U32,
    I32,
    F32,
    U64,
    I64,
    F64,
    Usize,
}

/// The sole error this library produces: an expected-vs-actual tag
/// disagreement. The first field is the tag of the value or buffer at hand,
/// the second the tag the caller assumed.
#[derive(Clone, Copy, Debug, Hash, PartialEq, Eq, Structural)]
pub enum NumberTypeError {
    Mismatch(NumberType, NumberType),
}

impl NumberType {
    /// The two floating-point kinds, whose payloads are opaque bit patterns
    /// to this library.
    pub open spec fn is_float(self) -> bool {
        self == NumberType::F32 || self == NumberType::F64
    }

    /// Whether a buffer or scalar tagged `self` can be converted to `target`
    /// inside this library: always to the same tag, and between any two
    /// integer tags. Conversions that cross a floating-point representation
    /// need float arithmetic and are left to the embedding layer.
    pub open spec fn castable_to(self, target: NumberType) -> bool {
        self == target || (!self.is_float() && !target.is_float())
    }

    /// The value Rust's `as` operator yields when an integer of mathematical
    /// value `v` is cast to the type `self` tags: truncation to the target
    /// width, reinterpreted with the target's signedness. On a float tag the
    /// payload is a bit pattern and passes through unchanged (such a cast is
    /// only ever the identity conversion between equal tags).
    pub open spec fn wrap(self, v: int) -> int {
        match self {
            NumberType::U8 => (v as u8) as int,
            NumberType::I8 => (v as i8) as int,
            NumberType::U16 => (v as u16) as int,
            NumberType::I16 => (v as i16) as int,
            NumberType::U32 => (v as u32) as int,
            NumberType::I32 => (v as i32) as int,
            NumberType::U64 => (v as u64) as int,
            NumberType::I64 => (v as i64) as int,
            NumberType::Usize => (v as usize) as int,
            NumberType::F32 => v,
            NumberType::F64 => v,
        }
    }

    /// The values a scalar tagged `self` can hold: the type's own range for
    /// the integer kinds, the bit-pattern range for the float kinds.
    pub open spec fn in_range(self, v: int) -> bool {
        match self {
            NumberType::U8 => 0 <= v <= u8::MAX,
            NumberType::I8 => i8::MIN <= v <= i8::MAX,
            NumberType::U16 => 0 <= v <= u16::MAX,
            NumberType::I16 => i16::MIN <= v <= i16::MAX,
            NumberType::U32 => 0 <= v <= u32::MAX,
            NumberType::I32 => i32::MIN <= v <= i32::MAX,
            NumberType::U64 => 0 <= v <= u64::MAX,
            NumberType::I64 => i64::MIN <= v <= i64::MAX,
            NumberType::Usize => 0 <= v <= usize::MAX,
            NumberType::F32 => 0 <= v <= u32::MAX,
            NumberType::F64 => 0 <= v <= u64::MAX,
        }
    }

    /// Casting a value already in range is the identity.
    pub proof fn lemma_wrap_identity(self, v: int)
        requires
            self.in_range(v),
        ensures
            self.wrap(v) == v,
    {
    }

    /// Whether this tag names one of the floating-point kinds.
    pub fn is_float_kind(&self) -> (r: bool)
        ensures
            r == self.is_float(),
    {
        match self {
            NumberType::F32 => true,
            NumberType::F64 => true,
            _ => false,
        }
    }

    /// Succeeds exactly when the two tags are equal; the error carries
    /// `self` first and the tag the caller assumed second.
    pub fn type_check(&self, t: &NumberType) -> (r: Result<(), NumberTypeError>)
        ensures
            r is Ok <==> *self == *t,
            r is Err ==> r == Err::<(), NumberTypeError>(NumberTypeError::Mismatch(*self, *t)),
    {
        if *self == *t {
            Ok(())
        } else {
            Err(NumberTypeError::Mismatch(*self, *t))
        }
    }
}

} // verus!
