use vec_soa::data::RawDataPtr;
use vec_soa::error::SoaError;
use vec_soa::index::into_range;
use vec_soa::index::into_range_unchecked;
use vec_soa::index::SoaBound;
use vec_soa::vec::VecSoa3;

fn sample_five() -> VecSoa3<u16, u32, u64> {
    let mut vec = VecSoa3::<u16, u32, u64>::new();
    for i in 0..5 {
        vec.push((i as u16, 10 + i as u32, 100 + i as u64)).unwrap();
    }
    vec
}

#[test]
fn prop_round_trip_in_push_order() {
    let pushed: Vec<(u16, u32, u64)> = vec![(3, 30, 300), (1, 10, 100), (2, 20, 200), (9, 90, 900)];
    let mut vec = VecSoa3::<u16, u32, u64>::new();
    for t in &pushed {
        vec.push(*t).unwrap();
    }
    assert_eq!(vec.len(), pushed.len());

    let mut seen: Vec<(u16, u32, u64)> = Vec::new();
    let mut it = vec.iter();
    while let Some((a, b, c)) = it.next() {
        seen.push((*a, *b, *c));
    }
    assert_eq!(seen, pushed);
}

#[test]
fn prop_swap_remove_moves_last_into_hole() {
    let mut vec = sample_five();
    let removed = vec.swap_remove(1).unwrap();
    assert_eq!(removed, (1, 11, 101));
    assert_eq!(vec.len(), 4);

    // The hole now holds what the last slot held; everything else is in place.
    let (a, b, c) = vec.index(1).unwrap();
    assert_eq!((*a, *b, *c), (4, 14, 104));
    let (a, b, c) = vec.index(0).unwrap();
    assert_eq!((*a, *b, *c), (0, 10, 100));
    let (a, b, c) = vec.index(2).unwrap();
    assert_eq!((*a, *b, *c), (2, 12, 102));
    let (a, b, c) = vec.index(3).unwrap();
    assert_eq!((*a, *b, *c), (3, 13, 103));
}

#[test]
fn prop_swap_remove_at_last_index() {
    let mut vec = sample_five();
    let removed = vec.swap_remove(4).unwrap();
    assert_eq!(removed, (4, 14, 104));
    assert_eq!(vec.len(), 4);
    for i in 0..4 {
        let (a, b, c) = vec.index(i).unwrap();
        assert_eq!((*a, *b, *c), (i as u16, 10 + i as u32, 100 + i as u64));
    }
}

#[test]
fn prop_clear_then_repush_leaves_no_residue() {
    let mut vec = VecSoa3::<u16, u32, u64>::new();
    vec.push((1, 2, 3)).unwrap();
    vec.push((4, 5, 6)).unwrap();
    vec.push((7, 8, 9)).unwrap();
    let old_capacity = vec.capacity();
    vec.clear();
    assert_eq!(vec.len(), 0);
    assert_eq!(vec.capacity(), old_capacity);

    vec.push((21, 22, 23)).unwrap();
    vec.push((24, 25, 26)).unwrap();
    let mut seen: Vec<(u16, u32, u64)> = Vec::new();
    let mut it = vec.iter();
    while let Some((a, b, c)) = it.next() {
        seen.push((*a, *b, *c));
    }
    assert_eq!(seen, vec![(21, 22, 23), (24, 25, 26)]);
}

#[test]
fn prop_growth_preserves_elements() {
    let mut vec = VecSoa3::<u16, u32, u64>::with_capacity(2).unwrap();
    vec.push((1, 10, 100)).unwrap();
    vec.push((2, 20, 200)).unwrap();
    assert_eq!(vec.capacity(), 2);

    // This push grows every column: capacity doubles to 4.
    vec.push((3, 30, 300)).unwrap();
    assert_eq!(vec.capacity(), 4);
    for i in 0..3 {
        let (a, b, c) = vec.index(i).unwrap();
        assert_eq!(
            (*a, *b, *c),
            (1 + i as u16, 10 + 10 * i as u32, 100 + 100 * i as u64)
        );
    }
}

#[test]
fn prop_capacity_doubles_or_takes_exact_need() {
    let mut vec = VecSoa3::<u8, u8, u8>::new();
    assert_eq!(vec.capacity(), 0);
    vec.push((1, 1, 1)).unwrap();
    assert_eq!(vec.capacity(), 1);
    vec.push((2, 2, 2)).unwrap();
    assert_eq!(vec.capacity(), 2);
    vec.push((3, 3, 3)).unwrap();
    assert_eq!(vec.capacity(), 4);
    vec.push((4, 4, 4)).unwrap();
    assert_eq!(vec.capacity(), 4);
    vec.push((5, 5, 5)).unwrap();
    assert_eq!(vec.capacity(), 8);

    let mut vec = VecSoa3::<u8, u8, u8>::with_capacity(10).unwrap();
    vec.push((1, 1, 1)).unwrap();
    vec.reserve(5).unwrap();
    assert_eq!(vec.capacity(), 10);
    // Doubling 10 is not enough for 1 + 20 elements: the exact need wins.
    vec.reserve(20).unwrap();
    assert_eq!(vec.capacity(), 21);
}

#[test]
fn prop_range_normalization() {
    let vec = sample_five();

    let full = vec.index_range(0, 5).unwrap();
    assert_eq!(full.len(), 5);
    for i in 0..5 {
        let (a, b, c) = full.index(i).unwrap();
        let (x, y, z) = vec.index(i).unwrap();
        assert_eq!((*a, *b, *c), (*x, *y, *z));
    }

    let r = vec.index_range(3, 2);
    assert!(matches!(r, Err(SoaError::InvalidRange)));
    let r = vec.index_range(1, 7);
    assert!(matches!(r, Err(SoaError::IndexOutOfBounds)));
}

#[test]
fn scenario_three_column_sum() {
    let mut vec = VecSoa3::<u16, u32, u64>::new();
    vec.push((1, 2, 3)).unwrap();
    vec.push((4, 5, 6)).unwrap();
    assert_eq!(vec.len(), 2);
    let mut sum: u64 = 0;
    let mut it = vec.iter();
    while let Some((a, b, c)) = it.next() {
        sum += *a as u64 + *b as u64 + *c;
    }
    assert_eq!(sum, 21);
}

#[test]
fn scenario_swap_remove_first_of_two() {
    let mut vec = VecSoa3::<u16, u32, u64>::new();
    vec.push((1, 2, 3)).unwrap();
    vec.push((4, 5, 6)).unwrap();
    let removed = vec.swap_remove(0).unwrap();
    assert_eq!(removed, (1, 2, 3));
    assert_eq!(vec.len(), 1);
    let (a, b, c) = vec.index(0).unwrap();
    assert_eq!((*a, *b, *c), (4, 5, 6));
}

#[test]
fn scenario_oversized_capacity_is_rejected_as_value() {
    let r = VecSoa3::<u16, u32, u64>::with_capacity(isize::MAX as usize + 1);
    assert!(matches!(r, Err(SoaError::AllocationTooLarge)));
}

#[test]
fn scenario_unit_column_behaves_like_any_other() {
    let mut vec = VecSoa3::<u16, u32, ()>::new();
    for i in 0..10 {
        vec.push((i as u16, i as u32, ())).unwrap();
    }
    assert_eq!(vec.len(), 10);
    let mut count = 0;
    let mut it = vec.iter();
    while let Some((a, b, _)) = it.next() {
        assert_eq!(*a as u32, *b);
        count += 1;
    }
    assert_eq!(count, 10);
}

#[test]
fn scenario_zero_sized_columns_ignore_the_allocation_limit() {
    // No column occupies memory, so even an enormous capacity is fine.
    let vec = VecSoa3::<(), (), ()>::with_capacity(isize::MAX as usize + 1).unwrap();
    assert_eq!(vec.capacity(), isize::MAX as usize + 1);
    assert_eq!(vec.len(), 0);
}

#[test]
fn scenario_interior_view_and_writes_at_its_positions() {
    let mut vec = sample_five();
    {
        let view = vec.index_range(1, 4).unwrap();
        assert_eq!(view.len(), 3);
        for j in 0..3 {
            let (a, b, c) = view.index(j).unwrap();
            let i = 1 + j;
            assert_eq!((*a, *b, *c), (i as u16, 10 + i as u32, 100 + i as u64));
        }
        assert!(matches!(view.index(3), Err(SoaError::IndexOutOfBounds)));
    }
    // Writing through the mutable form of the view changes the container's
    // elements at those positions.
    {
        let (c0, c1, c2) = vec.range_slices_mut(1, 4);
        for j in 0..3 {
            c0[j] += 100;
            c1[j] += 100;
            c2[j] += 100;
        }
    }
    let (a, b, c) = vec.index(0).unwrap();
    assert_eq!((*a, *b, *c), (0, 10, 100));
    let (a, b, c) = vec.index(2).unwrap();
    assert_eq!((*a, *b, *c), (102, 112, 202));
    let (a, b, c) = vec.index(4).unwrap();
    assert_eq!((*a, *b, *c), (4, 14, 104));
}

#[test]
fn prop_mutable_column_slices_write_through() {
    let mut vec = sample_five();
    {
        let (c0, c1, c2) = vec.slices_mut();
        c0[0] = 50;
        c1[1] = 51;
        c2[2] = 52;
    }
    let (a, _, _) = vec.index(0).unwrap();
    assert_eq!(*a, 50);
    let (_, b, _) = vec.index(1).unwrap();
    assert_eq!(*b, 51);
    let (_, _, c) = vec.index(2).unwrap();
    assert_eq!(*c, 52);
    assert_eq!(vec.len(), 5);

    // A point-wise mutable lookup serves single elements the same way.
    {
        let (a, b, c) = vec.get_unchecked_mut(4);
        *a = 90;
        *b = 91;
        *c = 92;
    }
    let (a, b, c) = vec.index(4).unwrap();
    assert_eq!((*a, *b, *c), (90, 91, 92));
}

#[test]
fn prop_replace_swaps_out_the_old_element() {
    let mut vec = sample_five();
    let old = vec.replace(2, (77, 78, 79)).unwrap();
    assert_eq!(old, (2, 12, 102));
    let (a, b, c) = vec.index(2).unwrap();
    assert_eq!((*a, *b, *c), (77, 78, 79));
    assert_eq!(vec.len(), 5);
    assert!(matches!(vec.replace(5, (0, 0, 0)), Err(SoaError::IndexOutOfBounds)));
}

#[test]
fn prop_get_is_the_optional_form() {
    let vec = sample_five();
    assert!(vec.get(7).is_none());
    let (a, b, c) = vec.get(3).unwrap();
    assert_eq!((*a, *b, *c), (3, 13, 103));
    assert!(vec.get_range(3, 2).is_none());
    assert!(vec.get_range(1, 7).is_none());
    let view = vec.get_range(2, 4).unwrap();
    assert_eq!(view.len(), 2);
}

#[test]
fn prop_bound_pairs_resolve_as_documented() {
    assert_eq!(into_range(10, (SoaBound::Excluded(2), SoaBound::Included(5))), Some(3..6));
    assert_eq!(into_range(10, (SoaBound::Unbounded, SoaBound::Unbounded)), Some(0..10));
    assert_eq!(into_range(10, (SoaBound::Excluded(usize::MAX), SoaBound::Unbounded)), None);
    assert_eq!(into_range(10, (SoaBound::Unbounded, SoaBound::Included(usize::MAX))), None);
    assert_eq!(into_range_unchecked(7, (SoaBound::Unbounded, SoaBound::Unbounded)), 0..7);
    assert_eq!(
        into_range_unchecked(7, (SoaBound::Included(2), SoaBound::Excluded(6))),
        2..6
    );
}

#[test]
fn prop_every_range_flavor_narrows_the_view() {
    let vec = sample_five();
    let slice = vec.as_slice();

    let v = slice.index_range_inclusive(1, 3).unwrap();
    assert_eq!(v.len(), 3);
    let (a, _, _) = v.index(0).unwrap();
    assert_eq!(*a, 1);

    let v = slice.index_range_to(2).unwrap();
    assert_eq!(v.len(), 2);

    let v = slice.index_range_to_inclusive(2).unwrap();
    assert_eq!(v.len(), 3);

    let v = slice.index_range_from(2).unwrap();
    assert_eq!(v.len(), 3);
    let (a, _, _) = v.index(0).unwrap();
    assert_eq!(*a, 2);

    let v = slice.index_full();
    assert_eq!(v.len(), 5);

    // A narrower view can be narrowed again.
    let inner = slice.index_range(1, 4).unwrap().index_range(1, 2).unwrap();
    assert_eq!(inner.len(), 1);
    let (a, b, c) = inner.index(0).unwrap();
    assert_eq!((*a, *b, *c), (2, 12, 102));

    assert!(matches!(
        slice.index_range_inclusive(0, usize::MAX),
        Err(SoaError::RangeOverflow)
    ));
    assert!(matches!(
        vec.index_bounds(SoaBound::Excluded(usize::MAX), SoaBound::Unbounded),
        Err(SoaError::RangeOverflow)
    ));
    assert!(vec.get_bounds(SoaBound::Unbounded, SoaBound::Included(usize::MAX)).is_none());
    let v = vec.index_bounds(SoaBound::Included(1), SoaBound::Excluded(4)).unwrap();
    assert_eq!(v.len(), 3);
}

#[test]
fn prop_empty_container_edges() {
    let vec = VecSoa3::<u16, u32, u64>::new();
    assert_eq!(vec.capacity(), 0);
    let view = vec.index_range(0, 0).unwrap();
    assert_eq!(view.len(), 0);
    assert!(view.is_empty());
    let mut it = vec.iter();
    assert!(it.next().is_none());
    assert!(matches!(vec.index_range(0, 1), Err(SoaError::IndexOutOfBounds)));
}

#[test]
fn prop_column_slices_expose_the_valid_runs() {
    let vec = sample_five();
    let (c0, c1, c2) = vec.slices();
    assert_eq!(c0, &[0u16, 1, 2, 3, 4]);
    assert_eq!(c1, &[10u32, 11, 12, 13, 14]);
    assert_eq!(c2, &[100u64, 101, 102, 103, 104]);

    let view = vec.index_range(1, 4).unwrap();
    let (c0, c1, c2) = view.soa_slices();
    assert_eq!(c0, &[1u16, 2, 3]);
    assert_eq!(c1, &[11u32, 12, 13]);
    assert_eq!(c2, &[101u64, 102, 103]);
}

#[test]
fn prop_iterating_a_sub_view() {
    let vec = sample_five();
    let view = vec.index_range(1, 4).unwrap();
    let mut seen: Vec<u16> = Vec::new();
    let mut it = view.iter();
    while let Some((a, _, _)) = it.next() {
        seen.push(*a);
    }
    assert_eq!(seen, vec![1, 2, 3]);
}

#[test]
fn prop_buffer_handle_basics() {
    let mut buf = RawDataPtr::<u64>::with_capacity(4).unwrap();
    buf.write(0, 40);
    buf.write(1, 41);
    buf.write(2, 42);
    assert_eq!(*buf.data_at(0), 40);
    assert_eq!(buf.slice(1, 2), &[41u64, 42]);

    let copy = buf.shallow_copy();
    assert_eq!(*copy.data_at(2), 42);

    let removed = buf.swap_remove(0, 3);
    assert_eq!(removed, 40);
    assert_eq!(buf.slice(0, 2), &[42u64, 41]);

    *buf.data_mut_at(1) = 7;
    assert_eq!(*buf.data_at(1), 7);

    {
        let m = buf.slice_mut(1, 1);
        m[0] = 8;
    }
    assert_eq!(*buf.data_at(1), 8);

    {
        let m = buf.raw_data(2);
        m[0] = 9;
    }
    assert_eq!(*buf.data_at(0), 9);

    buf.drop_to(2);
    buf.dealloc(4);

    let r = RawDataPtr::<u64>::with_capacity(isize::MAX as usize / 4);
    assert!(matches!(r, Err(SoaError::AllocationTooLarge)));
    let grown = buf.grow(0, 8);
    assert!(grown.is_ok());
}
