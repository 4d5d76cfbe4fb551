use vstd::prelude::*;

verus! {

/// One end of a range expression over container indices: every range flavor
/// (half-open, closed, from, to, full) resolves to a pair of these.
#[derive(Clone, Copy, Debug, PartialEq, Eq, Structural)]
pub enum SoaBound {
    /// The bound itself belongs to the range.
    Included(usize),
    /// The bound lies just outside the range.
    Excluded(usize),
    /// The range runs to the container's edge on this side.
    Unbounded,
}

/// Whether resolving `b` as a lower bound overflows the index type: an
/// excluded lower bound at the largest index has no representable successor.
pub open spec fn spec_lower_overflows(b: SoaBound) -> bool {
    b matches SoaBound::Excluded(s) && s == usize::MAX
}

/// The half-open start index that lower bound `b` resolves to.
pub open spec fn spec_lower(b: SoaBound) -> nat {
    match b {
        SoaBound::Included(s) => s as nat,
        SoaBound::Excluded(s) => s as nat + 1,
        SoaBound::Unbounded => 0,
    }
}

/// Whether resolving `b` as an upper bound overflows the index type: an
/// included upper bound at the largest index has no representable successor.
pub open spec fn spec_upper_overflows(b: SoaBound) -> bool {
    b matches SoaBound::Included(e) && e == usize::MAX
}

/// The half-open end index that upper bound `b` resolves to, against a
/// container of length `len`.
pub open spec fn spec_upper(b: SoaBound, len: nat) -> nat {
    match b {
        SoaBound::Included(e) => e as nat + 1,
        SoaBound::Excluded(e) => e as nat,
        SoaBound::Unbounded => len,
    }
}

/// Resolves a pair of bounds against a container of length `len` into a
/// half-open range, or nothing when either bound overflows the index type.
/// Whether the range is ordered and within bounds is left to the caller.
pub fn into_range(len: usize, bounds: (SoaBound, SoaBound)) -> (r: Option<core::ops::Range<usize>>)
    ensures
        r is Some <==> !spec_lower_overflows(bounds.0) && !spec_upper_overflows(bounds.1),
        r is Some ==> r->Some_0.start == spec_lower(bounds.0) && r->Some_0.end == spec_upper(
            bounds.1,
            len as nat,
        ),
{
    let start: usize = match bounds.0 {
        SoaBound::Included(s) => s,
        SoaBound::Excluded(s) => match s.checked_add(1) {
            Some(t) => t,
            None => {
                return None;
            },
        },
        SoaBound::Unbounded => 0,
    };
    let end: usize = match bounds.1 {
        SoaBound::Included(e) => match e.checked_add(1) {
            Some(t) => t,
            None => {
                return None;
            },
        },
        SoaBound::Excluded(e) => e,
        SoaBound::Unbounded => len,
    };
    Some(start..end)
}

/// Resolves a pair of bounds against a container of length `len` into a
/// half-open range, without the overflow check: the caller must establish
/// that neither bound overflows the index type.
pub fn into_range_unchecked(len: usize, bounds: (SoaBound, SoaBound)) -> (r: core::ops::Range<
    usize,
>)
    requires
        !spec_lower_overflows(bounds.0),
        !spec_upper_overflows(bounds.1),
    ensures
        r.start == spec_lower(bounds.0),
        r.end == spec_upper(bounds.1, len as nat),
{
    let start: usize = match bounds.0 {
        SoaBound::Included(s) => s,
        SoaBound::Excluded(s) => s + 1,
        SoaBound::Unbounded => 0,
    };
    let end: usize = match bounds.1 {
        SoaBound::Included(e) => e + 1,
        SoaBound::Excluded(e) => e,
        SoaBound::Unbounded => len,
    };
    start..end
}

/// Full-range indexing yields the whole: the sub-view for `0 .. len` has
/// exactly the elements of the view it was taken from.
pub proof fn lemma_full_range_is_whole<A>(s: Seq<A>)
    ensures
        s.subrange(0, s.len() as int) == s,
{
    assert(s.subrange(0, s.len() as int) =~= s);
}

} // verus!
