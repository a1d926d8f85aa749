//! The shared, lock-guarded array: one type-erased buffer behind a verified
//! multi-reader / single-writer lock, handed around through a reference-
//! counted handle.
//!
//! The lock's invariant fixes the buffer's tag when the array is created, so
//! every reader and writer sees a buffer of that tag: the tag can never
//! change underneath a holder of the handle. The one self-aliasing operation,
//! extending an array from itself, is detected by allocation identity and
//! served from a snapshot under a single write lock, never by taking two
//! locks on one allocation.

use std::sync::Arc;

use vstd::prelude::*;
use vstd::rwlock::ReadHandle;
use vstd::rwlock::RwLock;
use vstd::rwlock::RwLockPredicate;
use vstd::rwlock::WriteHandle;

use crate::num_list::NumList;
use crate::number_ex::NumEx;
use crate::number_ex::NumExT;
use crate::number_type::NumberType;
use crate::number_type::NumberTypeError;

verus! {

/// The lock invariant of a shared array: every value the lock ever holds is
/// a buffer of the tag fixed at creation.
pub struct FixedNumberType {
    pub t: NumberType,
}

impl RwLockPredicate<NumList> for FixedNumberType {
    open spec fn inv(self, l: NumList) -> bool {
        l.number_type_spec() == self.t
    }
}

/// One type-erased buffer behind a multi-reader / single-writer lock. All
/// access to the buffer goes through the lock.
pub struct Array {
    inner: RwLock<NumList, FixedNumberType>,
}

impl Array {
    /// The tag fixed when the array was created; every value the lock ever
    /// holds carries it.
    pub closed spec fn number_type_spec(&self) -> NumberType {
        self.inner.pred().t
    }

    /// The lock itself, as a specification value: two handles with equal
    /// `lock_spec` read and write one array.
    pub closed spec fn lock_spec(&self) -> RwLock<NumList, FixedNumberType> {
        self.inner
    }

    pub fn new(list: NumList) -> (a: Array)
        ensures
            a.number_type_spec() == list.number_type_spec(),
    {
        let t = list.number_type();
        Array { inner: RwLock::new(list, Ghost(FixedNumberType { t })) }
    }

    pub fn rw_lock(&self) -> (l: &RwLock<NumList, FixedNumberType>)
        ensures
            *l == self.lock_spec(),
    {
        &self.inner
    }

    /// Blocks until a shared read lock is held. The snapshot it exposes has
    /// the array's tag. The handle must be released with `release_read`.
    pub fn read_lock(&self) -> (h: ReadHandle<'_, NumList, FixedNumberType>)
        ensures
            h.rwlock() == self.lock_spec(),
            h.view().number_type_spec() == self.number_type_spec(),
    {
        self.inner.acquire_read()
    }

    /// Blocks until the exclusive write lock is held, handing the buffer out.
    /// The handle's `release_write` takes the new buffer back and requires it
    /// to carry the array's tag.
    pub fn write_lock(&self) -> (r: (NumList, WriteHandle<'_, NumList, FixedNumberType>))
        ensures
            r.1.rwlock() == self.lock_spec(),
            r.0.number_type_spec() == self.number_type_spec(),
            forall|l: NumList|
                r.1.rwlock().inv(l) <==> l.number_type_spec() == self.number_type_spec(),
    {
        self.inner.acquire_write()
    }

    /// Consumes the array and hands the buffer back.
    pub fn into_inner(self) -> (l: NumList)
        ensures
            l.number_type_spec() == self.number_type_spec(),
    {
        self.inner.into_inner()
    }
}

/// Relies on std's `Arc::ptr_eq`: true only when the two handles share one
/// allocation, in which case they necessarily hold the same value.
#[verifier::external_body]
fn same_allocation(a: &Arc<Array>, b: &Arc<Array>) -> (r: bool)
    ensures
        r ==> a == b,
{
    Arc::ptr_eq(a, b)
}

/// Relies on std's `Arc::clone`: the new handle shares the allocation, so it
/// carries the same value.
#[verifier::external_body]
fn clone_handle(a: &Arc<Array>) -> (r: Arc<Array>)
    ensures
        r == *a,
{
    Arc::clone(a)
}

/// A multi-owner handle to one shared array: cloning the handle shares the
/// array, and `is_same_array` tells two handles to one allocation apart from
/// handles to equal but distinct arrays.
pub struct ArrayEx {
    native: Arc<Array>,
}

impl ArrayEx {
    /// The tag of the shared buffer, fixed for the array's whole life.
    pub closed spec fn number_type_spec(&self) -> NumberType {
        self.native.number_type_spec()
    }

    /// The shared lock, for tying read and write handles to this array.
    pub closed spec fn lock_spec(&self) -> RwLock<NumList, FixedNumberType> {
        self.native.lock_spec()
    }

    pub fn new(list: NumList) -> (a: ArrayEx)
        ensures
            a.number_type_spec() == list.number_type_spec(),
    {
        ArrayEx { native: Arc::new(Array::new(list)) }
    }

    /// A fresh array of `count` copies of one typed scalar.
    pub fn filled_with<T: NumExT>(number: T, count: usize) -> (a: ArrayEx)
        ensures
            a.number_type_spec() == T::number_type_spec(),
    {
        let mut v: Vec<T> = Vec::new();
        let mut i: usize = 0;
        while i < count
            invariant
                i <= count,
                v@.len() == i,
            decreases count - i,
        {
            v.push(number);
            i = i + 1;
        }
        ArrayEx::new(NumList::from_vec(v))
    }

    pub fn read_lock(&self) -> (h: ReadHandle<'_, NumList, FixedNumberType>)
        ensures
            h.rwlock() == self.lock_spec(),
            h.view().number_type_spec() == self.number_type_spec(),
    {
        self.native.read_lock()
    }

    pub fn write_lock(&self) -> (r: (NumList, WriteHandle<'_, NumList, FixedNumberType>))
        ensures
            r.1.rwlock() == self.lock_spec(),
            r.0.number_type_spec() == self.number_type_spec(),
            forall|l: NumList|
                r.1.rwlock().inv(l) <==> l.number_type_spec() == self.number_type_spec(),
    {
        self.native.write_lock()
    }

    /// The tag of the shared buffer, read under a brief read lock. The lock's
    /// invariant fixes the tag, so every snapshot would show the same one.
    pub fn number_type(&self) -> (t: NumberType)
        ensures
            t == self.number_type_spec(),
    {
        let h = self.read_lock();
        let t = h.borrow().number_type();
        h.release_read();
        t
    }

    /// How many elements the array holds at the moment of the call; another
    /// owner of the handle may change it as soon as the lock is released.
    pub fn len(&self) -> usize {
        let h = self.read_lock();
        let n = h.borrow().len();
        h.release_read();
        n
    }

    pub fn is_empty(&self) -> bool {
        self.len() == 0
    }

    /// How many elements the shared buffer can hold without reallocating, at
    /// the moment of the call.
    pub fn capacity(&self) -> usize {
        let h = self.read_lock();
        let c = h.borrow().capacity();
        h.release_read();
        c
    }

    /// Whether the two handles own one allocation: identity, not value,
    /// comparison. An extend of an array from itself must be recognized here,
    /// so that no two locks are taken on one allocation.
    pub fn is_same_array(&self, other: &ArrayEx) -> (r: bool)
        ensures
            r ==> self.number_type_spec() == other.number_type_spec(),
    {
        same_allocation(&self.native, &other.native)
    }

    /// A deep copy of the current contents, as a buffer of the array's tag.
    pub fn clone_list(&self) -> (l: NumList)
        ensures
            l.number_type_spec() == self.number_type_spec(),
    {
        let h = self.read_lock();
        let l = h.borrow().clone();
        h.release_read();
        l
    }

    /// Copies the contents out as a typed vector, when `T` is the array's own
    /// kind; fails with the array's tag first otherwise.
    pub fn try_cloned_vec<T: NumExT>(&self) -> (r: Result<Vec<T>, NumberTypeError>)
        ensures
            r is Ok <==> T::number_type_spec() == self.number_type_spec(),
            r is Err ==> r == Err::<Vec<T>, NumberTypeError>(
                NumberTypeError::Mismatch(self.number_type_spec(), T::number_type_spec()),
            ),
    {
        let h = self.read_lock();
        let r = h.borrow().clone_inner::<T>();
        h.release_read();
        r
    }

    /// Appends one runtime-tagged scalar under the write lock. Succeeds
    /// exactly when the scalar's tag is the array's; on a mismatch the array
    /// is unchanged and the error carries the array's tag first.
    pub fn push_num(&self, n: NumEx) -> (r: Result<(), NumberTypeError>)
        ensures
            r is Ok <==> n.number_type_spec() == self.number_type_spec(),
            r is Err ==> r == Err::<(), NumberTypeError>(
                NumberTypeError::Mismatch(self.number_type_spec(), n.number_type_spec()),
            ),
    {
        let (mut list, wh) = self.write_lock();
        let r = list.push_num(n);
        wh.release_write(list);
        r
    }

    /// Appends every element of a typed slice under the write lock. Succeeds
    /// exactly when `T` is the array's own kind.
    pub fn extend_from_slice<T: NumExT>(&self, other: &[T]) -> (r: Result<(), NumberTypeError>)
        ensures
            r is Ok <==> T::number_type_spec() == self.number_type_spec(),
            r is Err ==> r == Err::<(), NumberTypeError>(
                NumberTypeError::Mismatch(self.number_type_spec(), T::number_type_spec()),
            ),
    {
        let (mut list, wh) = self.write_lock();
        let r = list.extend_from_slice(other);
        wh.release_write(list);
        r
    }

    /// Appends every element of a typed vector under the write lock.
    pub fn extend<T: NumExT>(&self, other: Vec<T>) -> (r: Result<(), NumberTypeError>)
        ensures
            r is Ok <==> T::number_type_spec() == self.number_type_spec(),
            r is Err ==> r == Err::<(), NumberTypeError>(
                NumberTypeError::Mismatch(self.number_type_spec(), T::number_type_spec()),
            ),
    {
        self.extend_from_slice(other.as_slice())
    }

    /// Appends the contents of another shared array to this one. Succeeds
    /// exactly when the tags agree; on a mismatch both arrays are unchanged
    /// and the error carries this array's tag first.
    ///
    /// When the two handles own one allocation the append is served from a
    /// snapshot under a single write lock: taking this array's write lock and
    /// then the other's read lock would deadlock on one allocation, and no
    /// appended element may be read from memory that is being written.
    /// Distinct allocations are two locks, taken in a fixed order: this
    /// array's write lock, then the other's read lock.
    pub fn extend_from_array(&self, other: &ArrayEx) -> (r: Result<(), NumberTypeError>)
        ensures
            r is Ok <==> self.number_type_spec() == other.number_type_spec(),
            r is Err ==> r == Err::<(), NumberTypeError>(
                NumberTypeError::Mismatch(self.number_type_spec(), other.number_type_spec()),
            ),
    {
        let t1 = self.number_type();
        let t2 = other.number_type();
        if t1 != t2 {
            return Err(NumberTypeError::Mismatch(t1, t2));
        }
        let (mut list, wh) = self.write_lock();
        if self.is_same_array(other) {
            list.extend_from_self();
            wh.release_write(list);
            Ok(())
        } else {
            let rh = other.read_lock();
            let r = list.extend_from_list(rh.borrow());
            rh.release_read();
            proof {
                assert(r is Ok);
            }
            wh.release_write(list);
            Ok(())
        }
    }

    /// A new shared array holding this one's elements converted to the kind
    /// `target` names, by the truncating cast of Rust's `as` operator between
    /// integer kinds; this array is untouched. Conversions that cross a
    /// floating-point representation are refused with both tags.
    pub fn cast(&self, target: NumberType) -> (r: Result<ArrayEx, NumberTypeError>)
        ensures
            r is Ok <==> self.number_type_spec().castable_to(target),
            r matches Ok(a) ==> a.number_type_spec() == target,
            r is Err ==> r == Err::<ArrayEx, NumberTypeError>(
                NumberTypeError::Mismatch(self.number_type_spec(), target),
            ),
    {
        let h = self.read_lock();
        let r = h.borrow().cast_number(target);
        h.release_read();
        match r {
            Ok(l) => Ok(ArrayEx::new(l)),
            Err(e) => Err(e),
        }
    }

    /// Two read locks held on one array at once expose one and the same
    /// snapshot: readers never see diverging values while no writer runs.
    /// Returned are the lengths the two readers observed, equal by the
    /// lock's own reader-matching argument.
    pub fn observe_with_two_readers(&self) -> (r: (usize, usize))
        ensures
            r.0 == r.1,
    {
        let h1 = self.read_lock();
        let h2 = self.read_lock();
        proof {
            ReadHandle::lemma_readers_match(&h1, &h2);
        }
        let n1 = h1.borrow().len();
        let n2 = h2.borrow().len();
        h1.release_read();
        h2.release_read();
        (n1, n2)
    }
}

impl Clone for ArrayEx {
    /// Another handle to the same shared array, not a copy of the contents.
    fn clone(&self) -> (r: Self)
        ensures
            r.number_type_spec() == self.number_type_spec(),
            r.lock_spec() == self.lock_spec(),
    {
        ArrayEx { native: clone_handle(&self.native) }
    }
}

} // verus!
