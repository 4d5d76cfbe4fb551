use vstd::prelude::*;

use crate::error::SoaError;
use crate::index::SoaBound;
use crate::index::into_range;
use crate::index::spec_lower;
use crate::index::spec_lower_overflows;
use crate::index::spec_upper;
use crate::index::spec_upper_overflows;
use crate::vec::VecSoa3;

verus! {

/// A non-owning window over a contiguous index range of a container's three
/// columns: one borrowed slice per column, all of the same length. A view
/// never allocates and never copies elements; narrowing it is O(1).
pub struct SliceSoaRef3<'a, T0, T1, T2> {
    len: usize,
    data: (&'a [T0], &'a [T1], &'a [T2]),
}

impl<'a, T0, T1, T2> View for SliceSoaRef3<'a, T0, T1, T2> {
    type V = Seq<(T0, T1, T2)>;

    /// The elements the view ranges over, front to back, as column tuples.
    closed spec fn view(&self) -> Seq<(T0, T1, T2)> {
        Seq::new(self.len as nat, |i: int| (self.data.0@[i], self.data.1@[i], self.data.2@[i]))
    }
}

impl<'a, T0, T1, T2> SliceSoaRef3<'a, T0, T1, T2> {
    /// Every column slice covers exactly the view's `len` elements.
    pub closed spec fn wf(&self) -> bool {
        &&& self.data.0@.len() == self.len
        &&& self.data.1@.len() == self.len
        &&& self.data.2@.len() == self.len
    }

    /// How many elements the view ranges over.
    pub fn len(&self) -> (n: usize)
        requires
            self.wf(),
        ensures
            n == self@.len(),
    {
        self.len
    }

    /// Whether the view ranges over no element.
    pub fn is_empty(&self) -> (r: bool)
        requires
            self.wf(),
        ensures
            r <==> self@.len() == 0,
    {
        self.len == 0
    }

    /// A second handle onto the same window: it shares the borrowed columns
    /// and copies no element.
    pub fn shallow_copy(&self) -> (r: SliceSoaRef3<'a, T0, T1, T2>)
        requires
            self.wf(),
        ensures
            r.wf(),
            r@ == self@,
    {
        SliceSoaRef3 { len: self.len, data: self.data }
    }

    /// One slice per column, each over all the view's elements.
    pub fn soa_slices(&self) -> (r: (&'a [T0], &'a [T1], &'a [T2]))
        requires
            self.wf(),
        ensures
            r.0@.len() == self@.len() && r.1@.len() == self@.len() && r.2@.len() == self@.len(),
            forall|i: int|
                0 <= i < self@.len() ==> (r.0@[i], r.1@[i], r.2@[i]) == #[trigger] self@[i],
    {
        self.data
    }

    /// References to the element at `index`, one per column. Fails with
    /// `IndexOutOfBounds` when `index` is not below the view's length.
    pub fn index(&self, index: usize) -> (r: Result<(&'a T0, &'a T1, &'a T2), SoaError>)
        requires
            self.wf(),
        ensures
            r is Ok <==> index < self@.len(),
            r is Ok ==> (*r->Ok_0.0, *r->Ok_0.1, *r->Ok_0.2) == self@[index as int],
            r is Err ==> r->Err_0 == SoaError::IndexOutOfBounds,
    {
        if index >= self.len {
            Err(SoaError::IndexOutOfBounds)
        } else {
            Ok(self.get_unchecked(index))
        }
    }

    /// References to the element at `index`, or nothing when `index` is not
    /// below the view's length.
    pub fn get(&self, index: usize) -> (r: Option<(&'a T0, &'a T1, &'a T2)>)
        requires
            self.wf(),
        ensures
            r is Some <==> index < self@.len(),
            r is Some ==> (*r->Some_0.0, *r->Some_0.1, *r->Some_0.2) == self@[index as int],
    {
        if index >= self.len {
            None
        } else {
            Some(self.get_unchecked(index))
        }
    }

    /// References to the element at `index`, without a runtime bounds check:
    /// the caller must establish that `index` is below the view's length.
    pub fn get_unchecked(&self, index: usize) -> (r: (&'a T0, &'a T1, &'a T2))
        requires
            self.wf(),
            index < self@.len(),
        ensures
            (*r.0, *r.1, *r.2) == self@[index as int],
    {
        (
            vstd::slice::slice_index_get(self.data.0, index),
            vstd::slice::slice_index_get(self.data.1, index),
            vstd::slice::slice_index_get(self.data.2, index),
        )
    }

    /// The sub-view for the half-open range `start .. end`: same memory,
    /// narrower window. Fails with `InvalidRange` when `start > end`, and
    /// with `IndexOutOfBounds` when `end` exceeds the view's length.
    pub fn index_range(&self, start: usize, end: usize) -> (r: Result<
        SliceSoaRef3<'a, T0, T1, T2>,
        SoaError,
    >)
        requires
            self.wf(),
        ensures
            r is Ok <==> start <= end <= self@.len(),
            r is Ok ==> r->Ok_0.wf() && r->Ok_0@ == self@.subrange(start as int, end as int),
            r is Err ==> r->Err_0 == if start > end {
                SoaError::InvalidRange
            } else {
                SoaError::IndexOutOfBounds
            },
    {
        if start > end {
            Err(SoaError::InvalidRange)
        } else if end > self.len {
            Err(SoaError::IndexOutOfBounds)
        } else {
            Ok(self.index_range_unchecked(start, end))
        }
    }

    /// The sub-view for `start .. end`, or nothing on the same conditions
    /// under which `index_range` fails.
    pub fn get_range(&self, start: usize, end: usize) -> (r: Option<SliceSoaRef3<'a, T0, T1, T2>>)
        requires
            self.wf(),
        ensures
            r is Some <==> start <= end <= self@.len(),
            r is Some ==> r->Some_0.wf() && r->Some_0@ == self@.subrange(start as int, end as int),
    {
        if start > end || end > self.len {
            None
        } else {
            Some(self.index_range_unchecked(start, end))
        }
    }

    /// The sub-view for `start .. end`, without runtime validation: the
    /// caller must establish that the range is ordered and within bounds.
    pub fn index_range_unchecked(&self, start: usize, end: usize) -> (r: SliceSoaRef3<
        'a,
        T0,
        T1,
        T2,
    >)
        requires
            self.wf(),
            start <= end <= self@.len(),
        ensures
            r.wf(),
            r@ == self@.subrange(start as int, end as int),
    {
        let r = SliceSoaRef3 {
            len: end - start,
            data: (
                vstd::slice::slice_subrange(self.data.0, start, end),
                vstd::slice::slice_subrange(self.data.1, start, end),
                vstd::slice::slice_subrange(self.data.2, start, end),
            ),
        };
        proof {
            assert(r@ =~= self@.subrange(start as int, end as int));
        }
        r
    }

    /// The sub-view that a pair of range bounds resolves to, as laid out in
    /// the normalization rules: `RangeOverflow` when a bound has no
    /// representable successor, then `InvalidRange` when the resolved start
    /// exceeds the resolved end, then `IndexOutOfBounds` when the resolved
    /// end exceeds the view's length.
    pub fn index_bounds(&self, lower: SoaBound, upper: SoaBound) -> (r: Result<
        SliceSoaRef3<'a, T0, T1, T2>,
        SoaError,
    >)
        requires
            self.wf(),
        ensures
            r is Ok <==> !spec_lower_overflows(lower) && !spec_upper_overflows(upper)
                && spec_lower(lower) <= spec_upper(upper, self@.len()) <= self@.len(),
            r is Ok ==> r->Ok_0.wf() && r->Ok_0@ == self@.subrange(
                spec_lower(lower) as int,
                spec_upper(upper, self@.len()) as int,
            ),
            r is Err ==> r->Err_0 == if spec_lower_overflows(lower) || spec_upper_overflows(
                upper,
            ) {
                SoaError::RangeOverflow
            } else if spec_lower(lower) > spec_upper(upper, self@.len()) {
                SoaError::InvalidRange
            } else {
                SoaError::IndexOutOfBounds
            },
    {
        match into_range(self.len, (lower, upper)) {
            None => Err(SoaError::RangeOverflow),
            Some(range) => self.index_range(range.start, range.end),
        }
    }

    /// The sub-view that a pair of range bounds resolves to, or nothing on
    /// the same conditions under which `index_bounds` fails.
    pub fn get_bounds(&self, lower: SoaBound, upper: SoaBound) -> (r: Option<
        SliceSoaRef3<'a, T0, T1, T2>,
    >)
        requires
            self.wf(),
        ensures
            r is Some <==> !spec_lower_overflows(lower) && !spec_upper_overflows(upper)
                && spec_lower(lower) <= spec_upper(upper, self@.len()) <= self@.len(),
            r is Some ==> r->Some_0.wf() && r->Some_0@ == self@.subrange(
                spec_lower(lower) as int,
                spec_upper(upper, self@.len()) as int,
            ),
    {
        match self.index_bounds(lower, upper) {
            Ok(v) => Some(v),
            Err(_) => None,
        }
    }

    /// The sub-view for the closed range `start ..= end`. Fails with
    /// `RangeOverflow` when `end` has no representable successor, and
    /// otherwise as `index_range` does on `start .. end + 1`.
    pub fn index_range_inclusive(&self, start: usize, end: usize) -> (r: Result<
        SliceSoaRef3<'a, T0, T1, T2>,
        SoaError,
    >)
        requires
            self.wf(),
        ensures
            r is Ok <==> end < usize::MAX && start <= end + 1 <= self@.len(),
            r is Ok ==> r->Ok_0.wf() && r->Ok_0@ == self@.subrange(start as int, end + 1),
            r is Err ==> r->Err_0 == if end == usize::MAX {
                SoaError::RangeOverflow
            } else if start > end + 1 {
                SoaError::InvalidRange
            } else {
                SoaError::IndexOutOfBounds
            },
    {
        self.index_bounds(SoaBound::Included(start), SoaBound::Included(end))
    }

    /// The sub-view for `0 .. end`, as `index_range` gives it.
    pub fn index_range_to(&self, end: usize) -> (r: Result<
        SliceSoaRef3<'a, T0, T1, T2>,
        SoaError,
    >)
        requires
            self.wf(),
        ensures
            r is Ok <==> end <= self@.len(),
            r is Ok ==> r->Ok_0.wf() && r->Ok_0@ == self@.subrange(0, end as int),
            r is Err ==> r->Err_0 == SoaError::IndexOutOfBounds,
    {
        self.index_range(0, end)
    }

    /// The sub-view for `0 ..= end`, as `index_range_inclusive` gives it.
    pub fn index_range_to_inclusive(&self, end: usize) -> (r: Result<
        SliceSoaRef3<'a, T0, T1, T2>,
        SoaError,
    >)
        requires
            self.wf(),
        ensures
            r is Ok <==> end < usize::MAX && end + 1 <= self@.len(),
            r is Ok ==> r->Ok_0.wf() && r->Ok_0@ == self@.subrange(0, end + 1),
            r is Err ==> r->Err_0 == if end == usize::MAX {
                SoaError::RangeOverflow
            } else {
                SoaError::IndexOutOfBounds
            },
    {
        self.index_bounds(SoaBound::Unbounded, SoaBound::Included(end))
    }

    /// The sub-view for `start .. len`, as `index_range` gives it.
    pub fn index_range_from(&self, start: usize) -> (r: Result<
        SliceSoaRef3<'a, T0, T1, T2>,
        SoaError,
    >)
        requires
            self.wf(),
        ensures
            r is Ok <==> start <= self@.len(),
            r is Ok ==> r->Ok_0.wf() && r->Ok_0@ == self@.subrange(start as int, self@.len() as int),
            r is Err ==> r->Err_0 == SoaError::InvalidRange,
    {
        self.index_range(start, self.len)
    }

    /// The full-extent sub-view, equal to this view itself.
    pub fn index_full(&self) -> (r: SliceSoaRef3<'a, T0, T1, T2>)
        requires
            self.wf(),
        ensures
            r.wf(),
            r@ == self@,
    {
        let r = self.index_range_unchecked(0, self.len);
        proof {
            assert(self@.subrange(0, self@.len() as int) =~= self@);
        }
        r
    }
}

impl<T0, T1, T2> VecSoa3<T0, T1, T2> {
    /// The full-extent view over all the container's elements: it borrows
    /// the columns and copies nothing.
    pub fn as_slice(&self) -> (r: SliceSoaRef3<'_, T0, T1, T2>)
        requires
            self.wf(),
        ensures
            r.wf(),
            r@ == self@,
    {
        let n = self.len();
        let (c0, c1, c2) = self.slices();
        let r = SliceSoaRef3 { len: n, data: (c0, c1, c2) };
        proof {
            assert(r@ =~= self@);
        }
        r
    }

    /// The view for the half-open range `start .. end` of the container, as
    /// `SliceSoaRef3::index_range` gives it.
    pub fn index_range(&self, start: usize, end: usize) -> (r: Result<
        SliceSoaRef3<'_, T0, T1, T2>,
        SoaError,
    >)
        requires
            self.wf(),
        ensures
            r is Ok <==> start <= end <= self@.len(),
            r is Ok ==> r->Ok_0.wf() && r->Ok_0@ == self@.subrange(start as int, end as int),
            r is Err ==> r->Err_0 == if start > end {
                SoaError::InvalidRange
            } else {
                SoaError::IndexOutOfBounds
            },
    {
        self.as_slice().index_range(start, end)
    }

    /// The view for `start .. end` of the container, or nothing on the same
    /// conditions under which `index_range` fails.
    pub fn get_range(&self, start: usize, end: usize) -> (r: Option<SliceSoaRef3<'_, T0, T1, T2>>)
        requires
            self.wf(),
        ensures
            r is Some <==> start <= end <= self@.len(),
            r is Some ==> r->Some_0.wf() && r->Some_0@ == self@.subrange(start as int, end as int),
    {
        self.as_slice().get_range(start, end)
    }

    /// The view that a pair of range bounds resolves to against the
    /// container, as `SliceSoaRef3::index_bounds` gives it.
    pub fn index_bounds(&self, lower: SoaBound, upper: SoaBound) -> (r: Result<
        SliceSoaRef3<'_, T0, T1, T2>,
        SoaError,
    >)
        requires
            self.wf(),
        ensures
            r is Ok <==> !spec_lower_overflows(lower) && !spec_upper_overflows(upper)
                && spec_lower(lower) <= spec_upper(upper, self@.len()) <= self@.len(),
            r is Ok ==> r->Ok_0.wf() && r->Ok_0@ == self@.subrange(
                spec_lower(lower) as int,
                spec_upper(upper, self@.len()) as int,
            ),
            r is Err ==> r->Err_0 == if spec_lower_overflows(lower) || spec_upper_overflows(
                upper,
            ) {
                SoaError::RangeOverflow
            } else if spec_lower(lower) > spec_upper(upper, self@.len()) {
                SoaError::InvalidRange
            } else {
                SoaError::IndexOutOfBounds
            },
    {
        self.as_slice().index_bounds(lower, upper)
    }

    /// The view that a pair of range bounds resolves to against the
    /// container, or nothing on the same conditions under which
    /// `index_bounds` fails.
    pub fn get_bounds(&self, lower: SoaBound, upper: SoaBound) -> (r: Option<
        SliceSoaRef3<'_, T0, T1, T2>,
    >)
        requires
            self.wf(),
        ensures
            r is Some <==> !spec_lower_overflows(lower) && !spec_upper_overflows(upper)
                && spec_lower(lower) <= spec_upper(upper, self@.len()) <= self@.len(),
            r is Some ==> r->Some_0.wf() && r->Some_0@ == self@.subrange(
                spec_lower(lower) as int,
                spec_upper(upper, self@.len()) as int,
            ),
    {
        self.as_slice().get_bounds(lower, upper)
    }
}

} // verus!
