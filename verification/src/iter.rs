use vstd::prelude::*;

use crate::slice::SliceSoaRef3;
use crate::vec::VecSoa3;

verus! {

/// A forward cursor over a view: it starts at position zero and yields the
/// per-column reference tuple at each position in turn, ending — finite and
/// non-restartable — once the position reaches the view's length.
pub struct IterSoa3<'a, T0, T1, T2> {
    pos: usize,
    slice: SliceSoaRef3<'a, T0, T1, T2>,
}

impl<'a, T0, T1, T2> IterSoa3<'a, T0, T1, T2> {
    /// The cursor's view is well formed and its position never passes the
    /// view's length.
    pub closed spec fn wf(&self) -> bool {
        &&& self.slice.wf()
        &&& self.pos <= self.slice@.len()
    }

    /// The elements the cursor ranges over, front to back.
    pub closed spec fn spec_elements(&self) -> Seq<(T0, T1, T2)> {
        self.slice@
    }

    /// The position of the next element to yield.
    pub closed spec fn spec_pos(&self) -> nat {
        self.pos as nat
    }

    /// Yields references to the element at the current position and moves
    /// one position forward, or nothing once every element has been yielded.
    pub fn next(&mut self) -> (r: Option<(&'a T0, &'a T1, &'a T2)>)
        requires
            old(self).wf(),
        ensures
            final(self).wf(),
            final(self).spec_elements() == old(self).spec_elements(),
            r is Some <==> old(self).spec_pos() < old(self).spec_elements().len(),
            r is Some ==> {
                &&& (*r->Some_0.0, *r->Some_0.1, *r->Some_0.2) == old(self).spec_elements()[old(
                    self,
                ).spec_pos() as int]
                &&& final(self).spec_pos() == old(self).spec_pos() + 1
            },
            r is None ==> final(self).spec_pos() == old(self).spec_pos(),
    {
        if self.pos >= self.slice.len() {
            None
        } else {
            let items = self.slice.get_unchecked(self.pos);
            self.pos = self.pos + 1;
            Some(items)
        }
    }
}

impl<'a, T0, T1, T2> SliceSoaRef3<'a, T0, T1, T2> {
    /// A cursor over this view, starting at position zero.
    pub fn iter(&self) -> (it: IterSoa3<'a, T0, T1, T2>)
        requires
            self.wf(),
        ensures
            it.wf(),
            it.spec_elements() == self@,
            it.spec_pos() == 0,
    {
        IterSoa3 { pos: 0, slice: self.shallow_copy() }
    }
}

impl<T0, T1, T2> VecSoa3<T0, T1, T2> {
    /// A cursor over the container's full extent at call time, starting at
    /// position zero.
    pub fn iter(&self) -> (it: IterSoa3<'_, T0, T1, T2>)
        requires
            self.wf(),
        ensures
            it.wf(),
            it.spec_elements() == self@,
            it.spec_pos() == 0,
    {
        let s = self.as_slice();
        s.iter()
    }
}

} // verus!
