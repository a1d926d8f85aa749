//! A single scalar carrying its runtime tag, and the trait tying each
//! supported Rust integer type to its tag. A scalar of a floating-point kind
//! is carried as its IEEE-754 bit pattern.

use vstd::prelude::*;

use crate::num_list::NumList;
use crate::number_type::NumberType;
use crate::number_type::NumberTypeError;

verus! {

/// The mathematical values of a typed sequence: each element read as an
/// integer by `NumExT::to_int`. Every view and contract of the type-erased
/// buffer speaks of sequences in this form.
pub open spec fn ints_of<T: NumExT>(s: Seq<T>) -> Seq<int> {
    s.map_values(|x: T| x.to_int())
}

/// Reading a sequence as integers commutes with appending one element.
pub proof fn lemma_ints_of_push<T: NumExT>(s: Seq<T>, x: T)
    ensures
        ints_of(s.push(x)) == ints_of(s).push(x.to_int()),
{
    assert(ints_of(s.push(x)) =~= ints_of(s).push(x.to_int()));
}

/// Two typed sequences that read as the same integers are the same sequence:
/// handing a buffer's contents out as a typed vector loses nothing.
pub proof fn lemma_ints_of_injective<T: NumExT>(a: Seq<T>, b: Seq<T>)
    requires
        ints_of(a) == ints_of(b),
    ensures
        a == b,
{
    assert(ints_of(a).len() == a.len());
    assert(ints_of(b).len() == b.len());
    assert forall|i: int| 0 <= i < a.len() implies a[i] == b[i] by {
        assert(ints_of(a)[i] == a[i].to_int());
        assert(ints_of(b)[i] == b[i].to_int());
        T::lemma_to_int_injective(a[i], b[i]);
    }
    assert(a =~= b);
}

/// Every element of a typed sequence, read as an integer, lies in the range
/// of the type's tag.
pub proof fn lemma_ints_of_in_range<T: NumExT>(s: Seq<T>)
    ensures
        forall|i: int|
            0 <= i < s.len() ==> T::number_type_spec().in_range(#[trigger] ints_of(s)[i]),
{
    assert forall|i: int|
        0 <= i < s.len() implies T::number_type_spec().in_range(#[trigger] ints_of(s)[i]) by {
        T::lemma_to_int_in_range(s[i]);
    }
}

/// A Rust integer type this library can tag: the trait carries the type's
/// tag, its reading as a mathematical integer, and the dispatch between a
/// typed vector and the type-erased buffer.
///
/// The floating-point kinds have no implementor here: their payloads enter
/// and leave the library as bit patterns (`u32` / `u64` vectors built by the
/// embedding layer), never as `f32` / `f64` values.
pub trait NumExT: Sized + Copy {
    /// The tag of this type.
    spec fn number_type_spec() -> NumberType;

    /// The value of a scalar of this type as a mathematical integer.
    spec fn to_int(self) -> int;

    /// Reading a scalar as an integer loses nothing.
    proof fn lemma_to_int_injective(x: Self, y: Self)
        ensures
            x.to_int() == y.to_int() ==> x == y,
    ;

    /// A scalar's value lies in its tag's range, and the tag is an integer
    /// kind.
    proof fn lemma_to_int_in_range(x: Self)
        ensures
            Self::number_type_spec().in_range(x.to_int()),
            !Self::number_type_spec().is_float(),
    ;

    /// The tag of this type, as a runtime value.
    fn number_type() -> (t: NumberType)
        ensures
            t == Self::number_type_spec(),
    ;

    /// This scalar as a runtime-tagged value.
    fn to_num_ex(self) -> (n: NumEx)
        ensures
            n.number_type_spec() == Self::number_type_spec(),
            n.to_int() == self.to_int(),
    ;

    /// Erases a typed vector into a buffer of this type's tag. The vector
    /// moves in whole; nothing is copied.
    fn wrap_vec(v: Vec<Self>) -> (l: NumList)
        ensures
            l.number_type_spec() == Self::number_type_spec(),
            l@.len() == v@.len(),
            forall|i: int| 0 <= i < v@.len() ==> l@[i] == v@[i].to_int(),
    ;

    /// Takes the typed vector back out of a buffer of this type's tag.
    /// The inverse of `wrap_vec`; nothing is copied.
    fn take_vec(l: NumList) -> (v: Vec<Self>)
        requires
            l.number_type_spec() == Self::number_type_spec(),
        ensures
            v@.len() == l@.len(),
            forall|i: int| 0 <= i < v@.len() ==> v@[i].to_int() == l@[i],
    ;

    /// Borrows the typed vector inside a buffer of this type's tag.
    fn borrow_vec(l: &NumList) -> (v: &Vec<Self>)
        requires
            l.number_type_spec() == Self::number_type_spec(),
        ensures
            v@.len() == l@.len(),
            forall|i: int| 0 <= i < v@.len() ==> v@[i].to_int() == l@[i],
    ;
}

/// One scalar value together with its runtime tag: the boundary type for
/// pushing a value into a type-erased buffer and for casting a value between
/// numeric kinds one element at a time.
///
/// `Float` holds the IEEE-754 bit pattern of a single-precision value,
/// `Double` that of a double-precision value; the embedding layer converts
/// between floats and bit patterns.
#[derive(Clone, Copy, Debug, Hash, PartialEq, Eq, Structural)]
pub enum NumEx {
    Char(i8),
    Uchar(u8),
    Short(i16),
    Ushort(u16),
    Int(i32),
    Uint(u32),
    Long(i64),
    Ulong(u64),
    SizeT(usize),
    Float(u32),
    Double(u64),
}

impl NumEx {
    /// The tag this scalar carries.
    pub open spec fn number_type_spec(self) -> NumberType {
        match self {
            NumEx::Char(_) => NumberType::I8,
            NumEx::Uchar(_) => NumberType::U8,
            NumEx::Short(_) => NumberType::I16,
            NumEx::Ushort(_) => NumberType::U16,
            NumEx::Int(_) => NumberType::I32,
            NumEx::Uint(_) => NumberType::U32,
            NumEx::Long(_) => NumberType::I64,
            NumEx::Ulong(_) => NumberType::U64,
            NumEx::SizeT(_) => NumberType::Usize,
            NumEx::Float(_) => NumberType::F32,
            NumEx::Double(_) => NumberType::F64,
        }
    }

    /// The mathematical value of the scalar: the integer itself for the
    /// integer kinds, the bit pattern read as an integer for the float kinds.
    pub open spec fn to_int(self) -> int {
        match self {
            NumEx::Char(x) => x as int,
            NumEx::Uchar(x) => x as int,
            NumEx::Short(x) => x as int,
            NumEx::Ushort(x) => x as int,
            NumEx::Int(x) => x as int,
            NumEx::Uint(x) => x as int,
            NumEx::Long(x) => x as int,
            NumEx::Ulong(x) => x as int,
            NumEx::SizeT(x) => x as int,
            NumEx::Float(x) => x as int,
            NumEx::Double(x) => x as int,
        }
    }

    /// A scalar's value always lies in the range of its own tag.
    pub proof fn lemma_to_int_in_range(self)
        ensures
            self.number_type_spec().in_range(self.to_int()),
    {
    }

    pub fn number_type(&self) -> (t: NumberType)
        ensures
            t == self.number_type_spec(),
    {
        match self {
            NumEx::Char(_) => NumberType::I8,
            NumEx::Uchar(_) => NumberType::U8,
            NumEx::Short(_) => NumberType::I16,
            NumEx::Ushort(_) => NumberType::U16,
            NumEx::Int(_) => NumberType::I32,
            NumEx::Uint(_) => NumberType::U32,
            NumEx::Long(_) => NumberType::I64,
            NumEx::Ulong(_) => NumberType::U64,
            NumEx::SizeT(_) => NumberType::Usize,
            NumEx::Float(_) => NumberType::F32,
            NumEx::Double(_) => NumberType::F64,
        }
    }

    /// The scalar's value widened to `i128`, which holds the full range of
    /// every integer kind. Not defined for the float kinds: their payloads
    /// are bit patterns, not integers to convert.
    fn to_i128(self) -> (r: i128)
        requires
            !self.number_type_spec().is_float(),
        ensures
            r as int == self.to_int(),
    {
        match self {
            NumEx::Char(x) => x as i128,
            NumEx::Uchar(x) => x as i128,
            NumEx::Short(x) => x as i128,
            NumEx::Ushort(x) => x as i128,
            NumEx::Int(x) => x as i128,
            NumEx::Uint(x) => x as i128,
            NumEx::Long(x) => x as i128,
            NumEx::Ulong(x) => x as i128,
            NumEx::SizeT(x) => x as i128,
            NumEx::Float(_) => vstd::pervasive::unreached(),
            NumEx::Double(_) => vstd::pervasive::unreached(),
        }
    }

    /// The scalar of integer kind `target` holding `x` truncated to the
    /// target's width, exactly as Rust's `as` operator truncates.
    fn from_i128(target: NumberType, x: i128) -> (r: NumEx)
        requires
            !target.is_float(),
        ensures
            r.number_type_spec() == target,
            r.to_int() == target.wrap(x as int),
    {
        match target {
            NumberType::U8 => NumEx::Uchar(#[verifier::truncate] (x as u8)),
            NumberType::I8 => NumEx::Char(#[verifier::truncate] (x as i8)),
            NumberType::U16 => NumEx::Ushort(#[verifier::truncate] (x as u16)),
            NumberType::I16 => NumEx::Short(#[verifier::truncate] (x as i16)),
            NumberType::U32 => NumEx::Uint(#[verifier::truncate] (x as u32)),
            NumberType::I32 => NumEx::Int(#[verifier::truncate] (x as i32)),
            NumberType::U64 => NumEx::Ulong(#[verifier::truncate] (x as u64)),
            NumberType::I64 => NumEx::Long(#[verifier::truncate] (x as i64)),
            NumberType::Usize => NumEx::SizeT(#[verifier::truncate] (x as usize)),
            NumberType::F32 => vstd::pervasive::unreached(),
            NumberType::F64 => vstd::pervasive::unreached(),
        }
    }

    /// Converts this scalar to the kind `target` names, when this library
    /// can: between integer kinds the result is the truncating cast of Rust's
    /// `as` operator; a cast to the scalar's own kind is the identity. A
    /// conversion that crosses a floating-point representation needs float
    /// arithmetic and is refused; the embedding layer performs those.
    pub fn num_cast(self, target: NumberType) -> (r: Result<NumEx, NumberTypeError>)
        ensures
            r is Ok <==> self.number_type_spec().castable_to(target),
            r matches Ok(n) ==> n.number_type_spec() == target && n.to_int() == target.wrap(
                self.to_int(),
            ),
            r is Err ==> r == Err::<NumEx, _>(
                NumberTypeError::Mismatch(self.number_type_spec(), target),
            ),
    {
        let own = self.number_type();
        if own == target {
            proof {
                self.lemma_to_int_in_range();
                target.lemma_wrap_identity(self.to_int());
            }
            Ok(self)
        } else if own.is_float_kind() || target.is_float_kind() {
            Err(NumberTypeError::Mismatch(own, target))
        } else {
            Ok(NumEx::from_i128(target, self.to_i128()))
        }
    }
}

impl NumExT for i8 {
    open spec fn number_type_spec() -> NumberType {
        NumberType::I8
    }

    open spec fn to_int(self) -> int {
        self as int
    }

    proof fn lemma_to_int_injective(x: i8, y: i8) {
    }

    proof fn lemma_to_int_in_range(x: i8) {
    }

    fn number_type() -> NumberType {
        NumberType::I8
    }

    fn to_num_ex(self) -> NumEx {
        NumEx::Char(self)
    }

    fn wrap_vec(v: Vec<i8>) -> NumList {
        NumList::I8(v)
    }

    fn take_vec(l: NumList) -> Vec<i8> {
        match l {
            NumList::I8(v) => v,
            _ => vstd::pervasive::unreached(),
        }
    }

    fn borrow_vec(l: &NumList) -> &Vec<i8> {
        match l {
            NumList::I8(v) => v,
            _ => vstd::pervasive::unreached(),
        }
    }
}

impl NumExT for u8 {
    open spec fn number_type_spec() -> NumberType {
        NumberType::U8
    }

    open spec fn to_int(self) -> int {
        self as int
    }

    proof fn lemma_to_int_injective(x: u8, y: u8) {
    }

    proof fn lemma_to_int_in_range(x: u8) {
    }

    fn number_type() -> NumberType {
        NumberType::U8
    }

    fn to_num_ex(self) -> NumEx {
        NumEx::Uchar(self)
    }

    fn wrap_vec(v: Vec<u8>) -> NumList {
        NumList::U8(v)
    }

    fn take_vec(l: NumList) -> Vec<u8> {
        match l {
            NumList::U8(v) => v,
            _ => vstd::pervasive::unreached(),
        }
    }

    fn borrow_vec(l: &NumList) -> &Vec<u8> {
        match l {
            NumList::U8(v) => v,
            _ => vstd::pervasive::unreached(),
        }
    }
}

impl NumExT for i16 {
    open spec fn number_type_spec() -> NumberType {
        NumberType::I16
    }

    open spec fn to_int(self) -> int {
        self as int
    }

    proof fn lemma_to_int_injective(x: i16, y: i16) {
    }

    proof fn lemma_to_int_in_range(x: i16) {
    }

    fn number_type() -> NumberType {
        NumberType::I16
    }

    fn to_num_ex(self) -> NumEx {
        NumEx::Short(self)
    }

    fn wrap_vec(v: Vec<i16>) -> NumList {
        NumList::I16(v)
    }

    fn take_vec(l: NumList) -> Vec<i16> {
        match l {
            NumList::I16(v) => v,
            _ => vstd::pervasive::unreached(),
        }
    }

    fn borrow_vec(l: &NumList) -> &Vec<i16> {
        match l {
            NumList::I16(v) => v,
            _ => vstd::pervasive::unreached(),
        }
    }
}

impl NumExT for u16 {
    open spec fn number_type_spec() -> NumberType {
        NumberType::U16
    }

    open spec fn to_int(self) -> int {
        self as int
    }

    proof fn lemma_to_int_injective(x: u16, y: u16) {
    }

    proof fn lemma_to_int_in_range(x: u16) {
    }

    fn number_type() -> NumberType {
        NumberType::U16
    }

    fn to_num_ex(self) -> NumEx {
        NumEx::Ushort(self)
    }

    fn wrap_vec(v: Vec<u16>) -> NumList {
        NumList::U16(v)
    }

    fn take_vec(l: NumList) -> Vec<u16> {
        match l {
            NumList::U16(v) => v,
            _ => vstd::pervasive::unreached(),
        }
    }

    fn borrow_vec(l: &NumList) -> &Vec<u16> {
        match l {
            NumList::U16(v) => v,
            _ => vstd::pervasive::unreached(),
        }
    }
}

impl NumExT for i32 {
    open spec fn number_type_spec() -> NumberType {
        NumberType::I32
    }

    open spec fn to_int(self) -> int {
        self as int
    }

    proof fn lemma_to_int_injective(x: i32, y: i32) {
    }

    proof fn lemma_to_int_in_range(x: i32) {
    }

    fn number_type() -> NumberType {
        NumberType::I32
    }

    fn to_num_ex(self) -> NumEx {
        NumEx::Int(self)
    }

    fn wrap_vec(v: Vec<i32>) -> NumList {
        NumList::I32(v)
    }

    fn take_vec(l: NumList) -> Vec<i32> {
        match l {
            NumList::I32(v) => v,
            _ => vstd::pervasive::unreached(),
        }
    }

    fn borrow_vec(l: &NumList) -> &Vec<i32> {
        match l {
            NumList::I32(v) => v,
            _ => vstd::pervasive::unreached(),
        }
    }
}

impl NumExT for u32 {
    open spec fn number_type_spec() -> NumberType {
        NumberType::U32
    }

    open spec fn to_int(self) -> int {
        self as int
    }

    proof fn lemma_to_int_injective(x: u32, y: u32) {
    }

    proof fn lemma_to_int_in_range(x: u32) {
    }

    fn number_type() -> NumberType {
        NumberType::U32
    }

    fn to_num_ex(self) -> NumEx {
        NumEx::Uint(self)
    }

    fn wrap_vec(v: Vec<u32>) -> NumList {
        NumList::U32(v)
    }

    fn take_vec(l: NumList) -> Vec<u32> {
        match l {
            NumList::U32(v) => v,
            _ => vstd::pervasive::unreached(),
        }
    }

    fn borrow_vec(l: &NumList) -> &Vec<u32> {
        match l {
            NumList::U32(v) => v,
            _ => vstd::pervasive::unreached(),
        }
    }
}

impl NumExT for i64 {
    open spec fn number_type_spec() -> NumberType {
        NumberType::I64
    }

    open spec fn to_int(self) -> int {
        self as int
    }

    proof fn lemma_to_int_injective(x: i64, y: i64) {
    }

    proof fn lemma_to_int_in_range(x: i64) {
    }

    fn number_type() -> NumberType {
        NumberType::I64
    }

    fn to_num_ex(self) -> NumEx {
        NumEx::Long(self)
    }

    fn wrap_vec(v: Vec<i64>) -> NumList {
        NumList::I64(v)
    }

    fn take_vec(l: NumList) -> Vec<i64> {
        match l {
            NumList::I64(v) => v,
            _ => vstd::pervasive::unreached(),
        }
    }

    fn borrow_vec(l: &NumList) -> &Vec<i64> {
        match l {
            NumList::I64(v) => v,
            _ => vstd::pervasive::unreached(),
        }
    }
}

impl NumExT for u64 {
    open spec fn number_type_spec() -> NumberType {
        NumberType::U64
    }

    open spec fn to_int(self) -> int {
        self as int
    }

    proof fn lemma_to_int_injective(x: u64, y: u64) {
    }

    proof fn lemma_to_int_in_range(x: u64) {
    }

    fn number_type() -> NumberType {
        NumberType::U64
    }

    fn to_num_ex(self) -> NumEx {
        NumEx::Ulong(self)
    }

    fn wrap_vec(v: Vec<u64>) -> NumList {
        NumList::U64(v)
    }

    fn take_vec(l: NumList) -> Vec<u64> {
        match l {
            NumList::U64(v) => v,
            _ => vstd::pervasive::unreached(),
        }
    }

    fn borrow_vec(l: &NumList) -> &Vec<u64> {
        match l {
            NumList::U64(v) => v,
            _ => vstd::pervasive::unreached(),
        }
    }
}

impl NumExT for usize {
    open spec fn number_type_spec() -> NumberType {
        NumberType::Usize
    }

    open spec fn to_int(self) -> int {
        self as int
    }

    proof fn lemma_to_int_injective(x: usize, y: usize) {
    }

    proof fn lemma_to_int_in_range(x: usize) {
    }

    fn number_type() -> NumberType {
        NumberType::Usize
    }

    fn to_num_ex(self) -> NumEx {
        NumEx::SizeT(self)
    }

    fn wrap_vec(v: Vec<usize>) -> NumList {
        NumList::Usize(v)
    }

    fn take_vec(l: NumList) -> Vec<usize> {
        match l {
            NumList::Usize(v) => v,
            _ => vstd::pervasive::unreached(),
        }
    }

    fn borrow_vec(l: &NumList) -> &Vec<usize> {
        match l {
            NumList::Usize(v) => v,
            _ => vstd::pervasive::unreached(),
        }
    }
}

} // verus!
