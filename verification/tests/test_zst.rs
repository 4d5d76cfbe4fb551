use vec_soa::vec::VecSoa3;

#[test]
pub fn test_zst_test_basic() {
    let mut vec = VecSoa3::<u16, u32, ()>::new();

    assert!(vec.is_empty());
    assert_eq!(vec.len(), 0);

    vec.push((1, 2, ())).unwrap();
    vec.push((4, 5, ())).unwrap();

    assert!(!vec.is_empty());
    assert_eq!(vec.len(), 2);

    let mut sum = 0;

    let mut it = vec.iter();
    while let Some((a, b, _)) = it.next() {
        sum += *a as u64 + *b as u64;
    }

    assert_eq!(sum, 1 + 2 + 4 + 5);
}

#[test]
pub fn test_zst_test_swap_remove_one() {
    let mut vec = VecSoa3::<u16, u32, ()>::new();

    assert!(vec.is_empty());
    assert_eq!(vec.len(), 0);

    vec.push((1, 2, ())).unwrap();

    assert!(!vec.is_empty());
    assert_eq!(vec.len(), 1);

    vec.swap_remove(0).unwrap();

    assert!(vec.is_empty());
    assert_eq!(vec.len(), 0);
}

#[test]
pub fn test_zst_test_clear() {
    let mut vec = VecSoa3::<u16, u32, ()>::new();

    assert!(vec.is_empty());
    assert_eq!(vec.len(), 0);

    vec.push((1, 2, ())).unwrap();

    assert!(!vec.is_empty());
    assert_eq!(vec.len(), 1);

    vec.clear();

    assert!(vec.is_empty());
    assert_eq!(vec.len(), 0);
}

#[test]
pub fn test_zst_test_remove_repush() {
    let mut vec = VecSoa3::<u16, u32, ()>::new();

    assert!(vec.is_empty());
    assert_eq!(vec.len(), 0);

    vec.push((1, 2, ())).unwrap();
    vec.push((4, 5, ())).unwrap();

    assert!(!vec.is_empty());
    assert_eq!(vec.len(), 2);

    vec.swap_remove(1).unwrap();

    assert!(!vec.is_empty());
    assert_eq!(vec.len(), 1);

    vec.push((7, 8, ())).unwrap();

    assert!(!vec.is_empty());
    assert_eq!(vec.len(), 2);

    let mut sum = 0;

    let mut it = vec.iter();
    while let Some((a, b, _)) = it.next() {
        sum += *a as u64 + *b as u64;
    }

    assert_eq!(sum, 1 + 2 + 7 + 8);
}

#[test]
pub fn test_zst_test_clear_repush() {
    let mut vec = VecSoa3::<u16, u32, ()>::new();

    assert!(vec.is_empty());
    assert_eq!(vec.len(), 0);

    vec.push((1, 2, ())).unwrap();
    vec.push((4, 5, ())).unwrap();

    assert!(!vec.is_empty());
    assert_eq!(vec.len(), 2);

    vec.clear();

    assert!(vec.is_empty());
    assert_eq!(vec.len(), 0);

    vec.push((7, 8, ())).unwrap();
    vec.push((10, 11, ())).unwrap();

    assert!(!vec.is_empty());
    assert_eq!(vec.len(), 2);

    let mut sum = 0;

    let mut it = vec.iter();
    while let Some((a, b, _)) = it.next() {
        sum += *a as u64 + *b as u64;
    }

    assert_eq!(sum, 7 + 8 + 10 + 11);
}

#[test]
#[should_panic]
pub fn test_zst_test_empty() {
    let vec = VecSoa3::<u16, u32, ()>::new();
    vec.index(0).unwrap();
}

#[test]
#[should_panic]
pub fn test_zst_test_one() {
    let mut vec = VecSoa3::<u16, u32, ()>::new();
    vec.push((1, 2, ())).unwrap();
    vec.index(1).unwrap();
}

#[test]
#[should_panic]
pub fn test_zst_test_swap_remove_empty() {
    let mut vec = VecSoa3::<u16, u32, ()>::new();
    vec.swap_remove(0).unwrap();
}

#[test]
#[should_panic]
pub fn test_zst_test_reserve_massive() {
    let mut vec = VecSoa3::<u16, u32, ()>::new();
    vec.reserve(isize::MAX as usize + 1).unwrap();
}

#[test]
#[should_panic]
pub fn test_zst_test_with_capacity_massive() {
    let _ = VecSoa3::<u16, u32, ()>::with_capacity(isize::MAX as usize + 1).unwrap();
}

#[test]
pub fn test_iter_zst() {
    let mut vec = VecSoa3::<(), (), ()>::with_capacity(3).unwrap();

    assert!(vec.is_empty());
    assert_eq!(vec.len(), 0);

    for _ in 0..10 {
        vec.push(((), (), ())).unwrap();
    }

    assert!(!vec.is_empty());
    assert_eq!(vec.len(), 10);

    let mut sum = 0;

    let mut it = vec.iter();
    while let Some(_) = it.next() {
        sum += 1;
    }

    assert_eq!(sum, 10);
}
