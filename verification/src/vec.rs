use vstd::prelude::*;

use crate::data::RawDataPtr;
use crate::data::spec_capacity_fits;
use crate::data::capacity_fits;
use crate::error::SoaError;

verus! {

use vstd::layout::size_of;

/// The capacity a container grows to when it must hold at least `need`
/// elements: double the current capacity, or the exact need where doubling
/// is not enough. Doubling saturates at the index type's maximum, which can
/// only matter for columns that occupy no memory.
pub open spec fn spec_grown_capacity(capacity: nat, need: nat) -> nat {
    if capacity * 2 > usize::MAX {
        usize::MAX as nat
    } else if capacity * 2 >= need {
        capacity * 2
    } else {
        need
    }
}

/// A three-column struct-of-arrays container: three independently typed
/// parallel columns under one logical length and one shared capacity. All
/// columns are grown, written and shrunk in lockstep, so the element at
/// index `i` is always the tuple of the three columns' entries at `i`.
pub struct VecSoa3<T0, T1, T2> {
    len: usize,
    capacity: usize,
    data: (RawDataPtr<T0>, RawDataPtr<T1>, RawDataPtr<T2>),
}

impl<T0, T1, T2> View for VecSoa3<T0, T1, T2> {
    type V = Seq<(T0, T1, T2)>;

    /// The elements the container holds, front to back, as column tuples.
    closed spec fn view(&self) -> Seq<(T0, T1, T2)> {
        Seq::new(
            self.len as nat,
            |i: int| (self.data.0@[i], self.data.1@[i], self.data.2@[i]),
        )
    }
}

impl<T0, T1, T2> VecSoa3<T0, T1, T2> {
    /// How many elements the container has room for before it must grow.
    pub closed spec fn spec_capacity(&self) -> nat {
        self.capacity as nat
    }

    /// Every column holds exactly the container's `len` valid elements and
    /// has room for exactly the shared capacity.
    pub closed spec fn wf(&self) -> bool {
        &&& self.data.0.wf()
        &&& self.data.1.wf()
        &&& self.data.2.wf()
        &&& self.data.0@.len() == self.len
        &&& self.data.1@.len() == self.len
        &&& self.data.2@.len() == self.len
        &&& self.data.0.spec_capacity() == self.capacity
        &&& self.data.1.spec_capacity() == self.capacity
        &&& self.data.2.spec_capacity() == self.capacity
    }

    /// How many bytes of memory the first column occupies.
    pub closed spec fn spec_bytes_column0(&self) -> nat {
        self.data.0.spec_bytes_allocated()
    }

    /// How many bytes of memory the second column occupies.
    pub closed spec fn spec_bytes_column1(&self) -> nat {
        self.data.1.spec_bytes_allocated()
    }

    /// How many bytes of memory the third column occupies.
    pub closed spec fn spec_bytes_column2(&self) -> nat {
        self.data.2.spec_bytes_allocated()
    }

    /// How many bytes of memory the container's columns occupy together.
    pub open spec fn spec_bytes_allocated(&self) -> nat {
        self.spec_bytes_column0() + self.spec_bytes_column1() + self.spec_bytes_column2()
    }

    /// Whether a request for room for `additional` more elements can be met:
    /// either there is room already, or the grown capacity stays within
    /// every column's allocation limit.
    pub open spec fn spec_can_reserve(&self, additional: nat) -> bool {
        ||| self@.len() + additional <= self.spec_capacity()
        ||| {
            let grown = spec_grown_capacity(self.spec_capacity(), self@.len() + additional);
            &&& self@.len() + additional <= usize::MAX
            &&& spec_capacity_fits::<T0>(grown)
            &&& spec_capacity_fits::<T1>(grown)
            &&& spec_capacity_fits::<T2>(grown)
        }
    }

    /// An empty container with no room allocated.
    pub fn new() -> (v: Self)
        ensures
            v.wf(),
            v@ == Seq::<(T0, T1, T2)>::empty(),
            v.spec_capacity() == 0,
    {
        proof {
            assert(spec_capacity_fits::<T0>(0));
            assert(spec_capacity_fits::<T1>(0));
            assert(spec_capacity_fits::<T2>(0));
        }
        let d0 = RawDataPtr::<T0>::with_capacity(0).unwrap();
        let d1 = RawDataPtr::<T1>::with_capacity(0).unwrap();
        let d2 = RawDataPtr::<T2>::with_capacity(0).unwrap();
        let v = VecSoa3 { len: 0, capacity: 0, data: (d0, d1, d2) };
        proof {
            assert(v@ =~= Seq::<(T0, T1, T2)>::empty());
        }
        v
    }

    /// An empty container with room for `capacity` elements in every column.
    /// Fails with `AllocationTooLarge`, before any allocation is attempted,
    /// when any column's region would exceed the platform limit.
    pub fn with_capacity(capacity: usize) -> (r: Result<Self, SoaError>)
        ensures
            r is Ok <==> spec_capacity_fits::<T0>(capacity as nat) && spec_capacity_fits::<T1>(
                capacity as nat,
            ) && spec_capacity_fits::<T2>(capacity as nat),
            r is Ok ==> r->Ok_0.wf() && r->Ok_0@ == Seq::<(T0, T1, T2)>::empty()
                && r->Ok_0.spec_capacity() == capacity,
            r is Err ==> r->Err_0 == SoaError::AllocationTooLarge,
    {
        if !(capacity_fits::<T0>(capacity) && capacity_fits::<T1>(capacity) && capacity_fits::<
            T2,
        >(capacity)) {
            return Err(SoaError::AllocationTooLarge);
        }
        let d0 = RawDataPtr::<T0>::with_capacity(capacity).unwrap();
        let d1 = RawDataPtr::<T1>::with_capacity(capacity).unwrap();
        let d2 = RawDataPtr::<T2>::with_capacity(capacity).unwrap();
        let v = VecSoa3 { len: 0, capacity, data: (d0, d1, d2) };
        proof {
            assert(v@ =~= Seq::<(T0, T1, T2)>::empty());
        }
        Ok(v)
    }

    /// How many elements the container holds.
    pub fn len(&self) -> (n: usize)
        requires
            self.wf(),
        ensures
            n == self@.len(),
    {
        self.len
    }

    /// How many elements the container has room for before it must grow.
    pub fn capacity(&self) -> (n: usize)
        requires
            self.wf(),
        ensures
            n == self.spec_capacity(),
    {
        self.capacity
    }

    /// Whether the container holds no element.
    pub fn is_empty(&self) -> (r: bool)
        requires
            self.wf(),
        ensures
            r <==> self@.len() == 0,
    {
        self.len == 0
    }

    /// Makes room for at least `additional` more elements, growing every
    /// column to the same new capacity and preserving every element. Fails
    /// with `AllocationTooLarge`, leaving the container untouched, when the
    /// grown capacity would exceed any column's allocation limit; the growth
    /// either succeeds for every column or happens for none.
    pub fn reserve(&mut self, additional: usize) -> (r: Result<(), SoaError>)
        requires
            old(self).wf(),
        ensures
            final(self).wf(),
            r is Ok <==> old(self).spec_can_reserve(additional as nat),
            r is Ok ==> final(self)@ == old(self)@
                && old(self)@.len() + additional <= final(self).spec_capacity(),
            r is Ok ==> final(self).spec_capacity() == if old(self)@.len() + additional
                <= old(self).spec_capacity() {
                old(self).spec_capacity()
            } else {
                spec_grown_capacity(old(self).spec_capacity(), old(self)@.len() + additional as nat)
            },
            r is Err ==> *final(self) == *old(self) && r->Err_0 == SoaError::AllocationTooLarge,
    {
        let need = match self.len.checked_add(additional) {
            Some(n) => n,
            None => {
                return Err(SoaError::AllocationTooLarge);
            },
        };
        if need <= self.capacity {
            return Ok(());
        }
        let new_capacity = match self.capacity.checked_mul(2) {
            Some(d) => if d >= need {
                d
            } else {
                need
            },
            None => usize::MAX,
        };
        if !(capacity_fits::<T0>(new_capacity) && capacity_fits::<T1>(new_capacity)
            && capacity_fits::<T2>(new_capacity)) {
            return Err(SoaError::AllocationTooLarge);
        }
        let g0 = self.data.0.grow(self.capacity, new_capacity);
        let g1 = self.data.1.grow(self.capacity, new_capacity);
        let g2 = self.data.2.grow(self.capacity, new_capacity);
        assert(g0 is Ok && g1 is Ok && g2 is Ok);
        self.capacity = new_capacity;
        proof {
            assert(self@ =~= old(self)@);
        }
        Ok(())
    }

    /// Appends one element: writes one value into slot `len` of every column
    /// and increments the length. Fails only through `reserve`, with
    /// `AllocationTooLarge`, leaving the container untouched.
    pub fn push(&mut self, values: (T0, T1, T2)) -> (r: Result<(), SoaError>)
        requires
            old(self).wf(),
        ensures
            final(self).wf(),
            r is Ok <==> old(self).spec_can_reserve(1),
            r is Ok ==> final(self)@ == old(self)@.push(values),
            r is Ok ==> final(self).spec_capacity() == if old(self)@.len() + 1
                <= old(self).spec_capacity() {
                old(self).spec_capacity()
            } else {
                spec_grown_capacity(old(self).spec_capacity(), old(self)@.len() + 1)
            },
            r is Err ==> *final(self) == *old(self) && r->Err_0 == SoaError::AllocationTooLarge,
    {
        match self.reserve(1) {
            Ok(()) => {},
            Err(e) => {
                return Err(e);
            },
        }
        let (v0, v1, v2) = values;
        self.data.0.write(self.len, v0);
        self.data.1.write(self.len, v1);
        self.data.2.write(self.len, v2);
        self.len = self.len + 1;
        proof {
            assert(self@ =~= old(self)@.push(values));
        }
        Ok(())
    }

    /// Destroys every element in every column and sets the length to zero;
    /// the capacity is retained.
    pub fn clear(&mut self)
        requires
            old(self).wf(),
        ensures
            final(self).wf(),
            final(self)@ == Seq::<(T0, T1, T2)>::empty(),
            final(self).spec_capacity() == old(self).spec_capacity(),
    {
        self.data.0.drop_to(self.len);
        self.data.1.drop_to(self.len);
        self.data.2.drop_to(self.len);
        self.len = 0;
        proof {
            assert(self@ =~= Seq::<(T0, T1, T2)>::empty());
        }
    }

    /// Removes and returns the element at `index`, moving the last element
    /// into its place: O(1), but the relative order of the survivors is not
    /// preserved. Fails with `IndexOutOfBounds`, leaving the container
    /// untouched, when `index` is not below the length.
    pub fn swap_remove(&mut self, index: usize) -> (r: Result<(T0, T1, T2), SoaError>)
        requires
            old(self).wf(),
        ensures
            final(self).wf(),
            r is Ok <==> index < old(self)@.len(),
            r is Ok ==> r->Ok_0 == old(self)@[index as int] && final(self)@ == old(self)@.update(
                index as int,
                old(self)@.last(),
            ).drop_last() && final(self).spec_capacity() == old(self).spec_capacity(),
            r is Err ==> *final(self) == *old(self) && r->Err_0 == SoaError::IndexOutOfBounds,
    {
        if index >= self.len {
            return Err(SoaError::IndexOutOfBounds);
        }
        let v0 = self.data.0.swap_remove(index, self.len);
        let v1 = self.data.1.swap_remove(index, self.len);
        let v2 = self.data.2.swap_remove(index, self.len);
        self.len = self.len - 1;
        proof {
            assert(self@ =~= old(self)@.update(index as int, old(self)@.last()).drop_last());
        }
        Ok((v0, v1, v2))
    }

    /// References to the element at `index`, one per column. Fails with
    /// `IndexOutOfBounds` when `index` is not below the length.
    pub fn index(&self, index: usize) -> (r: Result<(&T0, &T1, &T2), SoaError>)
        requires
            self.wf(),
        ensures
            r is Ok <==> index < self@.len(),
            r is Ok ==> (*r->Ok_0.0, *r->Ok_0.1, *r->Ok_0.2) == self@[index as int],
            r is Err ==> r->Err_0 == SoaError::IndexOutOfBounds,
    {
        if index >= self.len {
            Err(SoaError::IndexOutOfBounds)
        } else {
            Ok(self.get_unchecked(index))
        }
    }

    /// References to the element at `index`, or nothing when `index` is not
    /// below the length.
    pub fn get(&self, index: usize) -> (r: Option<(&T0, &T1, &T2)>)
        requires
            self.wf(),
        ensures
            r is Some <==> index < self@.len(),
            r is Some ==> (*r->Some_0.0, *r->Some_0.1, *r->Some_0.2) == self@[index as int],
    {
        if index >= self.len {
            None
        } else {
            Some(self.get_unchecked(index))
        }
    }

    /// References to the element at `index`, without a runtime bounds check:
    /// the caller must establish that `index` is below the length.
    pub fn get_unchecked(&self, index: usize) -> (r: (&T0, &T1, &T2))
        requires
            self.wf(),
            index < self@.len(),
        ensures
            (*r.0, *r.1, *r.2) == self@[index as int],
    {
        (self.data.0.data_at(index), self.data.1.data_at(index), self.data.2.data_at(index))
    }

    /// Mutable references to the element at `index`, without a runtime
    /// bounds check: the caller must establish that `index` is below the
    /// length. Writing through them changes the stored element in place.
    pub fn get_unchecked_mut(&mut self, index: usize) -> (r: (&mut T0, &mut T1, &mut T2))
        requires
            old(self).wf(),
            index < old(self)@.len(),
        ensures
            (*r.0, *r.1, *r.2) == old(self)@[index as int],
            final(self)@ == old(self)@.update(
                index as int,
                (*final(r.0), *final(r.1), *final(r.2)),
            ),
            final(self).wf(),
            final(self).spec_capacity() == old(self).spec_capacity(),
    {
        let r0 = self.data.0.data_mut_at(index);
        let r1 = self.data.1.data_mut_at(index);
        let r2 = self.data.2.data_mut_at(index);
        (r0, r1, r2)
    }

    /// Replaces the element at `index` with `values` and returns the element
    /// it replaced. Fails with `IndexOutOfBounds`, leaving the container
    /// untouched, when `index` is not below the length.
    pub fn replace(&mut self, index: usize, values: (T0, T1, T2)) -> (r: Result<
        (T0, T1, T2),
        SoaError,
    >)
        requires
            old(self).wf(),
        ensures
            final(self).wf(),
            r is Ok <==> index < old(self)@.len(),
            r is Ok ==> r->Ok_0 == old(self)@[index as int] && final(self)@ == old(self)@.update(
                index as int,
                values,
            ) && final(self).spec_capacity() == old(self).spec_capacity(),
            r is Err ==> *final(self) == *old(self) && r->Err_0 == SoaError::IndexOutOfBounds,
    {
        if index >= self.len {
            return Err(SoaError::IndexOutOfBounds);
        }
        let (v0, v1, v2) = values;
        let mut o0 = v0;
        let mut o1 = v1;
        let mut o2 = v2;
        core::mem::swap(self.data.0.data_mut_at(index), &mut o0);
        core::mem::swap(self.data.1.data_mut_at(index), &mut o1);
        core::mem::swap(self.data.2.data_mut_at(index), &mut o2);
        proof {
            assert(self@ =~= old(self)@.update(index as int, values));
        }
        Ok((o0, o1, o2))
    }

    /// One mutable slice per column, each over all `len` valid elements.
    /// Writing through them changes the stored elements in place. A slice
    /// cannot change how many elements it covers, but the contract must say
    /// so rather than assume it, so what the container guarantees afterwards
    /// is stated against the slices' final contents.
    pub fn slices_mut(&mut self) -> (r: (&mut [T0], &mut [T1], &mut [T2]))
        requires
            old(self).wf(),
        ensures
            r.0@.len() == old(self)@.len() && r.1@.len() == old(self)@.len() && r.2@.len() == old(
                self,
            )@.len(),
            forall|i: int|
                0 <= i < old(self)@.len() ==> (r.0@[i], r.1@[i], r.2@[i]) == #[trigger] old(
                    self,
                )@[i],
            final(self).spec_capacity() == old(self).spec_capacity(),
            (final(r.0)@.len() == old(self)@.len() && final(r.1)@.len() == old(self)@.len()
                && final(r.2)@.len() == old(self)@.len()) ==> {
                &&& final(self).wf()
                &&& final(self)@.len() == old(self)@.len()
                &&& forall|i: int|
                    0 <= i < old(self)@.len() ==> #[trigger] final(self)@[i] == (
                    final(r.0)@[i],
                    final(r.1)@[i],
                    final(r.2)@[i],
                    )
            },
    {
        let n = self.len;
        let r0 = self.data.0.raw_data(n);
        let r1 = self.data.1.raw_data(n);
        let r2 = self.data.2.raw_data(n);
        (r0, r1, r2)
    }

    /// One mutable slice per column over the elements at positions
    /// `start .. end`: the mutable form of a sub-view, without a runtime
    /// check — the caller must establish that the range is ordered and
    /// within bounds. Writing through the slices changes the container's
    /// elements at those positions and no others.
    pub fn range_slices_mut(&mut self, start: usize, end: usize) -> (r: (
        &mut [T0],
        &mut [T1],
        &mut [T2],
    ))
        requires
            old(self).wf(),
            start <= end <= old(self)@.len(),
        ensures
            r.0@.len() == end - start && r.1@.len() == end - start && r.2@.len() == end - start,
            forall|i: int|
                0 <= i < end - start ==> (r.0@[i], r.1@[i], r.2@[i]) == #[trigger] old(
                    self,
                )@[start + i],
            final(self).spec_capacity() == old(self).spec_capacity(),
            (final(r.0)@.len() == end - start && final(r.1)@.len() == end - start
                && final(r.2)@.len() == end - start) ==> {
                &&& final(self).wf()
                &&& final(self)@.len() == old(self)@.len()
                &&& forall|i: int|
                    start <= i < end ==> #[trigger] final(self)@[i] == (
                    final(r.0)@[i - start],
                    final(r.1)@[i - start],
                    final(r.2)@[i - start],
                    )
                &&& forall|i: int|
                    0 <= i < old(self)@.len() && !(start <= i < end)
                        ==> #[trigger] final(self)@[i] == old(self)@[i]
            },
    {
        let n = end - start;
        let r0 = self.data.0.slice_mut(start, n);
        let r1 = self.data.1.slice_mut(start, n);
        let r2 = self.data.2.slice_mut(start, n);
        (r0, r1, r2)
    }

    /// One slice per column, each over all `len` valid elements.
    pub fn slices(&self) -> (r: (&[T0], &[T1], &[T2]))
        requires
            self.wf(),
        ensures
            r.0@.len() == self@.len() && r.1@.len() == self@.len() && r.2@.len() == self@.len(),
            forall|i: int|
                0 <= i < self@.len() ==> (r.0@[i], r.1@[i], r.2@[i]) == #[trigger] self@[i],
    {
        (self.data.0.slice(0, self.len), self.data.1.slice(0, self.len), self.data.2.slice(
            0,
            self.len,
        ))
    }
}

/// The elements a container holds after the tuples of `ts` have been pushed
/// onto it, front to back, when it held `s` before.
pub open spec fn spec_push_all<A>(s: Seq<A>, ts: Seq<A>) -> Seq<A>
    decreases ts.len(),
{
    if ts.len() == 0 {
        s
    } else {
        spec_push_all(s.push(ts[0]), ts.drop_first())
    }
}

/// Pushing appends: after the tuples of `ts` are pushed one by one onto a
/// container holding `s`, it holds `s` followed by `ts`.
pub proof fn lemma_push_all_appends<A>(s: Seq<A>, ts: Seq<A>)
    ensures
        spec_push_all(s, ts) == s + ts,
    decreases ts.len(),
{
    if ts.len() == 0 {
        assert(s + ts =~= s);
    } else {
        lemma_push_all_appends(s.push(ts[0]), ts.drop_first());
        assert(s.push(ts[0]) + ts.drop_first() =~= s + ts);
    }
}

/// Push/read round trip: pushing the tuples of `ts`, in order, onto an empty
/// container leaves exactly `ts` as the container's elements — which
/// iteration then yields front to back, as the iterator's contract states.
pub proof fn lemma_push_iterate_round_trip<A>(ts: Seq<A>)
    ensures
        spec_push_all(Seq::<A>::empty(), ts) == ts,
{
    lemma_push_all_appends(Seq::<A>::empty(), ts);
    assert(Seq::<A>::empty() + ts =~= ts);
}

/// Order-agnostic removal, pointwise: removing index `i` from elements `s`
/// shortens them by one and keeps every surviving element in place, except
/// that slot `i` now holds what the last slot held (unless `i` was the last
/// slot, which simply disappears).
pub proof fn lemma_swap_remove_pointwise<A>(s: Seq<A>, i: int)
    requires
        0 <= i < s.len(),
    ensures
        s.update(i, s.last()).drop_last().len() == s.len() - 1,
        forall|j: int|
            0 <= j < s.len() - 1 && j != i ==> #[trigger] s.update(i, s.last()).drop_last()[j]
                == s[j],
        i < s.len() - 1 ==> s.update(i, s.last()).drop_last()[i] == s[s.len() - 1],
{
}

/// Growth preserves data: appending one element leaves every element below
/// the old length unchanged. (Growth inside `reserve` keeps the elements
/// entirely, as its contract states.)
pub proof fn lemma_push_preserves_prefix<A>(s: Seq<A>, x: A)
    ensures
        s.push(x).len() == s.len() + 1,
        forall|j: int| 0 <= j < s.len() ==> #[trigger] s.push(x)[j] == s[j],
{
}

/// Zero-sized columns never occupy memory, while the container's contracts —
/// length, push, removal, indexing, iteration — never depend on a column's
/// element size at all.
pub proof fn lemma_zero_sized_columns_allocate_nothing<T0, T1, T2>(v: &VecSoa3<T0, T1, T2>)
    requires
        v.wf(),
    ensures
        size_of::<T0>() == 0 ==> v.spec_bytes_column0() == 0,
        size_of::<T1>() == 0 ==> v.spec_bytes_column1() == 0,
        size_of::<T2>() == 0 ==> v.spec_bytes_column2() == 0,
        size_of::<T0>() > 0 && v.spec_capacity() > 0 ==> v.spec_bytes_column0()
            == v.spec_capacity() * size_of::<T0>(),
        size_of::<T1>() > 0 && v.spec_capacity() > 0 ==> v.spec_bytes_column1()
            == v.spec_capacity() * size_of::<T1>(),
        size_of::<T2>() > 0 && v.spec_capacity() > 0 ==> v.spec_bytes_column2()
            == v.spec_capacity() * size_of::<T2>(),
        v.spec_bytes_allocated() == v.spec_bytes_column0() + v.spec_bytes_column1()
            + v.spec_bytes_column2(),
{
}

} // verus!
