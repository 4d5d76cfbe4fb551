use vstd::prelude::*;

use crate::error::SoaError;

verus! {

use vstd::layout::size_of;

/// Whether `capacity` elements of `T` stay within the platform's
/// representable allocation limit: the total byte size of the region must
/// not exceed `isize::MAX` (half the address space).
pub open spec fn spec_capacity_fits<T>(capacity: nat) -> bool {
    capacity * size_of::<T>() <= isize::MAX as int
}

/// Decides `spec_capacity_fits` without allocating anything.
pub fn capacity_fits<T>(capacity: usize) -> (r: bool)
    ensures
        r == spec_capacity_fits::<T>(capacity as nat),
{
    let size: usize = core::mem::size_of::<T>();
    if size == 0 || capacity == 0 {
        true
    } else {
        let limit: usize = isize::MAX as usize;
        let r = capacity <= limit / size;
        proof {
            vstd::arithmetic::div_mod::lemma_fundamental_div_mod(limit as int, size as int);
            if capacity <= limit / size {
                assert(capacity * size <= ((limit as int) / (size as int)) * (size as int) + (
                limit as int) % (size as int)) by (nonlinear_arith)
                    requires
                        capacity <= (limit as int) / (size as int),
                        size > 0,
                        ((limit as int) % (size as int)) >= 0,
                ;
            } else {
                assert(capacity * size > ((limit as int) / (size as int)) * (size as int) + (
                limit as int) % (size as int)) by (nonlinear_arith)
                    requires
                        capacity > (limit as int) / (size as int),
                        size > 0,
                        ((limit as int) % (size as int)) < (size as int),
                ;
            }
        }
        r
    }
}

/// The storage handle for one column: room for `spec_capacity` elements of
/// `T`, of which the valid ones form a prefix. The handle never reads or
/// drops a slot outside that prefix, and for a zero-sized `T`, or a zero
/// capacity, it occupies no memory at all.
pub struct RawDataPtr<T> {
    data: Vec<T>,
    cap: usize,
}

impl<T> View for RawDataPtr<T> {
    type V = Seq<T>;

    /// The sequence of valid elements.
    closed spec fn view(&self) -> Seq<T> {
        self.data@
    }
}

impl<T> RawDataPtr<T> {
    /// How many slots the handle has room for.
    pub closed spec fn spec_capacity(&self) -> nat {
        self.cap as nat
    }

    /// The valid elements always fit within the allocated slots.
    pub open spec fn wf(&self) -> bool {
        self@.len() <= self.spec_capacity()
    }

    /// How many bytes of memory the handle occupies: none at all for a
    /// zero-sized element type or a zero capacity.
    pub open spec fn spec_bytes_allocated(&self) -> nat {
        if size_of::<T>() == 0 || self.spec_capacity() == 0 {
            0
        } else {
            self.spec_capacity() * size_of::<T>()
        }
    }

    /// Allocates room for `capacity` elements, all slots initially invalid.
    /// Fails with `AllocationTooLarge`, before any allocation is attempted,
    /// when the requested region would exceed the platform limit.
    pub fn with_capacity(capacity: usize) -> (r: Result<Self, SoaError>)
        ensures
            r is Ok <==> spec_capacity_fits::<T>(capacity as nat),
            r is Ok ==> r->Ok_0.wf() && r->Ok_0@ == Seq::<T>::empty() && r->Ok_0.spec_capacity()
                == capacity,
            r is Err ==> r->Err_0 == SoaError::AllocationTooLarge,
    {
        if capacity_fits::<T>(capacity) {
            Ok(RawDataPtr { data: Vec::with_capacity(capacity), cap: capacity })
        } else {
            Err(SoaError::AllocationTooLarge)
        }
    }

    /// Regrows the handle from exactly `old_capacity` slots to `capacity`
    /// slots, preserving every valid element. Fails with
    /// `AllocationTooLarge`, leaving the handle untouched, when the new
    /// region would exceed the platform limit.
    pub fn grow(&mut self, old_capacity: usize, capacity: usize) -> (r: Result<(), SoaError>)
        requires
            old(self).wf(),
            old(self).spec_capacity() == old_capacity,
            old_capacity <= capacity,
        ensures
            r is Ok <==> spec_capacity_fits::<T>(capacity as nat),
            r is Ok ==> final(self)@ == old(self)@ && final(self).spec_capacity() == capacity,
            r is Err ==> *final(self) == *old(self) && r->Err_0 == SoaError::AllocationTooLarge,
            final(self).wf(),
    {
        if capacity_fits::<T>(capacity) {
            self.data.reserve(capacity - self.data.len());
            self.cap = capacity;
            Ok(())
        } else {
            Err(SoaError::AllocationTooLarge)
        }
    }

    /// Releases the region, which must hold exactly `capacity` slots and no
    /// valid element any more; the handle keeps no room afterwards.
    pub fn dealloc(&mut self, capacity: usize)
        requires
            old(self).spec_capacity() == capacity,
            old(self)@.len() == 0,
        ensures
            final(self)@ == Seq::<T>::empty(),
            final(self).spec_capacity() == 0,
    {
        self.data = Vec::new();
        self.cap = 0;
    }

    /// Writes a value into slot `index`, which must be the first invalid
    /// slot and within capacity; the slot becomes valid.
    pub fn write(&mut self, index: usize, val: T)
        requires
            old(self).wf(),
            index == old(self)@.len(),
            index < old(self).spec_capacity(),
        ensures
            final(self)@ == old(self)@.push(val),
            final(self).spec_capacity() == old(self).spec_capacity(),
            final(self).wf(),
    {
        self.data.push(val);
    }

    /// A reference to the valid element in slot `index`.
    pub fn data_at(&self, index: usize) -> (r: &T)
        requires
            index < self@.len(),
        ensures
            *r == self@[index as int],
    {
        &self.data[index]
    }

    /// A mutable reference to the valid element in slot `index`.
    pub fn data_mut_at(&mut self, index: usize) -> (r: &mut T)
        requires
            old(self).wf(),
            index < old(self)@.len(),
        ensures
            *r == old(self)@[index as int],
            final(self)@ == old(self)@.update(index as int, *final(r)),
            final(self).spec_capacity() == old(self).spec_capacity(),
            final(self).wf(),
    {
        &mut self.data[index]
    }

    /// The valid elements in slots `start..start + len`, as one slice.
    pub fn slice(&self, start: usize, len: usize) -> (r: &[T])
        requires
            start + len <= self@.len(),
        ensures
            r@ == self@.subrange(start as int, start as int + len as int),
    {
        let n = self.data.len();
        assert(start + len <= n);
        vstd::slice::slice_subrange(self.data.as_slice(), start, start + len)
    }

    /// A mutable slice over the valid elements in slots `start..start + len`.
    /// Writing through it changes those elements in place. A slice cannot
    /// change how many elements it covers, but the contract must say so
    /// rather than assume it, so what the handle guarantees afterwards is
    /// stated against the slice's final contents.
    pub fn slice_mut(&mut self, start: usize, len: usize) -> (r: &mut [T])
        requires
            old(self).wf(),
            start + len <= old(self)@.len(),
        ensures
            r@ == old(self)@.subrange(start as int, start as int + len as int),
            final(self)@ == old(self)@.subrange(0, start as int) + final(r)@ + old(
                self,
            )@.subrange(start as int + len as int, old(self)@.len() as int),
            final(self).spec_capacity() == old(self).spec_capacity(),
            final(r)@.len() == len ==> final(self).wf() && final(self)@.len() == old(self)@.len(),
    {
        let n = self.data.len();
        assert(start + len <= n);
        let s = self.data.as_mut_slice();
        let (_left, rest) = s.split_at_mut(start);
        let (mid, _right) = rest.split_at_mut(len);
        mid
    }

    /// All `len` valid elements as one mutable slice. Writing through it
    /// changes the elements in place; as with `slice_mut`, what the handle
    /// guarantees afterwards is stated against the slice's final contents.
    pub fn raw_data(&mut self, len: usize) -> (r: &mut [T])
        requires
            old(self).wf(),
            len == old(self)@.len(),
        ensures
            r@ == old(self)@,
            final(self)@ == final(r)@,
            final(self).spec_capacity() == old(self).spec_capacity(),
            final(r)@.len() == len ==> final(self).wf(),
    {
        self.data.as_mut_slice()
    }

    /// Moves the valid element out of slot `index`, relocates the last valid
    /// element (slot `len - 1`) into its place, and marks slot `len - 1`
    /// invalid. The relative order of the survivors is not preserved.
    pub fn swap_remove(&mut self, index: usize, len: usize) -> (r: T)
        requires
            old(self).wf(),
            len == old(self)@.len(),
            0 < len,
            index < len,
        ensures
            r == old(self)@[index as int],
            final(self)@ == old(self)@.update(index as int, old(self)@.last()).drop_last(),
            final(self).spec_capacity() == old(self).spec_capacity(),
            final(self).wf(),
    {
        self.data.swap_remove(index)
    }

    /// Drops all `len` valid elements, leaving every slot invalid; the
    /// capacity is untouched.
    pub fn drop_to(&mut self, len: usize)
        requires
            old(self).wf(),
            len == old(self)@.len(),
        ensures
            final(self)@ == Seq::<T>::empty(),
            final(self).spec_capacity() == old(self).spec_capacity(),
            final(self).wf(),
    {
        self.data.clear();
    }
}

impl<T: Copy> RawDataPtr<T> {
    /// A handle with the same valid elements and the same capacity,
    /// duplicated element by element.
    pub fn shallow_copy(&self) -> (r: Self)
        requires
            self.wf(),
        ensures
            r@ == self@,
            r.spec_capacity() == self.spec_capacity(),
            r.wf(),
    {
        let mut data: Vec<T> = Vec::with_capacity(self.cap);
        let mut i: usize = 0;
        while i < self.data.len()
            invariant
                i <= self.data@.len(),
                data@ == self.data@.subrange(0, i as int),
            decreases self.data@.len() - i,
        {
            let x: T = self.data[i];
            data.push(x);
            i += 1;
        }
        proof {
            assert(data@ =~= self.data@);
        }
        RawDataPtr { data, cap: self.cap }
    }
}

} // verus!
