use fallible_containers::allocator::AllocError;
use fallible_containers::allocator::FaultAlloc;
use fallible_containers::vec::InsertError;
use fallible_containers::vec::TryVec;

#[test]
fn new_is_empty_with_no_capacity() {
    let v: TryVec<u32> = TryVec::new();
    assert_eq!(v.len(), 0);
    assert_eq!(v.capacity(), 0);
    assert!(v.is_empty());
}

#[test]
fn default_is_empty() {
    let v: TryVec<u32> = Default::default();
    assert!(v.is_empty());
    assert_eq!(v.capacity(), 0);
}

#[test]
fn push_and_pop_roundtrip() {
    let mut v: TryVec<u32> = TryVec::new();
    v.push(1).unwrap();
    v.push(2).unwrap();
    v.push(3).unwrap();
    assert_eq!(v.len(), 3);
    assert_eq!(v.as_slice(), &[1, 2, 3]);
    assert_eq!(v.pop(), Some(3));
    assert_eq!(v.pop(), Some(2));
    assert_eq!(v.pop(), Some(1));
    assert_eq!(v.pop(), None);
    assert!(v.is_empty());
}

#[test]
fn with_capacity_reserves_exactly() {
    let v: TryVec<u64> = TryVec::with_capacity(5).unwrap();
    assert_eq!(v.len(), 0);
    assert_eq!(v.capacity(), 5);
}

#[test]
fn with_capacity_zero_allocates_nothing() {
    let v = TryVec::<u8, FaultAlloc>::with_capacity_in(0, FaultAlloc::new(0)).unwrap();
    assert_eq!(v.capacity(), 0);
    assert_eq!(v.allocator().remaining(), 0);
}

#[test]
fn failed_push_returns_value_and_leaves_container_unchanged() {
    let mut v = TryVec::with_capacity_in(2, FaultAlloc::new(1)).unwrap();
    v.push(1u32).unwrap();
    v.push(2).unwrap();
    let before_len = v.len();
    let before_cap = v.capacity();
    assert_eq!(v.push(3), Err((3, AllocError)));
    assert_eq!(v.len(), before_len);
    assert_eq!(v.capacity(), before_cap);
    assert_eq!(v.as_slice(), &[1, 2]);
}

#[test]
fn reserve_then_pushes_perform_no_further_allocation() {
    let mut v = TryVec::new_in(FaultAlloc::new(5));
    v.try_reserve(3).unwrap();
    assert_eq!(v.capacity(), 3);
    let after_reserve = v.allocator().remaining();
    v.push(1u8).unwrap();
    v.push(2).unwrap();
    v.push(3).unwrap();
    assert_eq!(v.allocator().remaining(), after_reserve);
    assert_eq!(v.capacity(), 3);
    assert_eq!(v.as_slice(), &[1, 2, 3]);
}

#[test]
fn try_reserve_is_a_noop_when_capacity_suffices() {
    let mut v: TryVec<u8, FaultAlloc> = TryVec::with_capacity_in(4, FaultAlloc::new(1)).unwrap();
    assert_eq!(v.allocator().remaining(), 0);
    v.try_reserve(2).unwrap();
    assert_eq!(v.capacity(), 4);
}

#[test]
fn failed_reserve_leaves_container_unchanged() {
    let mut v = TryVec::with_capacity_in(2, FaultAlloc::new(1)).unwrap();
    v.push(8u32).unwrap();
    assert_eq!(v.try_reserve(5), Err(AllocError));
    assert_eq!(v.len(), 1);
    assert_eq!(v.capacity(), 2);
    assert_eq!(v.as_slice(), &[8]);
}

#[test]
fn remove_returns_element_and_preserves_order() {
    let original = [10u32, 20, 30, 40];
    for i in 0..original.len() {
        let mut v: TryVec<u32> = TryVec::new();
        for x in original {
            v.push(x).unwrap();
        }
        assert_eq!(v.remove(i), Some(original[i]));
        assert_eq!(v.len(), original.len() - 1);
        let mut expected: Vec<u32> = original.to_vec();
        expected.remove(i);
        assert_eq!(v.as_slice(), expected.as_slice());
    }
}

#[test]
fn remove_out_of_range_returns_none() {
    let mut v: TryVec<u32> = TryVec::new();
    v.push(1).unwrap();
    assert_eq!(v.remove(1), None);
    assert_eq!(v.as_slice(), &[1]);
}

#[test]
fn swap_remove_moves_last_into_hole() {
    let mut v: TryVec<u32> = TryVec::new();
    for x in [1u32, 2, 3, 4] {
        v.push(x).unwrap();
    }
    assert_eq!(v.swap_remove(1), Some(2));
    assert_eq!(v.as_slice(), &[1, 4, 3]);
}

#[test]
fn swap_remove_at_last_index_just_shrinks() {
    let mut v: TryVec<u32> = TryVec::new();
    for x in [1u32, 2, 3] {
        v.push(x).unwrap();
    }
    assert_eq!(v.swap_remove(2), Some(3));
    assert_eq!(v.as_slice(), &[1, 2]);
    assert_eq!(v.swap_remove(5), None);
}

#[test]
fn clear_then_push_yields_one_element() {
    let mut v: TryVec<u32> = TryVec::new();
    for x in [5u32, 6, 7] {
        v.push(x).unwrap();
    }
    let cap = v.capacity();
    v.clear();
    assert_eq!(v.len(), 0);
    assert_eq!(v.capacity(), cap);
    v.push(9).unwrap();
    assert_eq!(v.as_slice(), &[9]);
}

#[test]
fn reserve_three_push_four_scenario() {
    let mut v = TryVec::new_in(FaultAlloc::new(1));
    assert_eq!(v.len(), 0);
    assert_eq!(v.capacity(), 0);
    v.try_reserve(3).unwrap();
    assert_eq!(v.len(), 0);
    assert_eq!(v.capacity(), 3);
    let after_reserve = v.allocator().remaining();
    v.push(1u32).unwrap();
    v.push(2).unwrap();
    v.push(3).unwrap();
    assert_eq!(v.allocator().remaining(), after_reserve);
    assert_eq!(v.push(4), Err((4, AllocError)));
    assert_eq!(v.as_slice(), &[1, 2, 3]);
    assert_eq!(v.len(), 3);
    assert_eq!(v.capacity(), 3);
}

#[test]
fn insert_shifts_elements_right() {
    let mut v: TryVec<u32> = TryVec::new();
    for x in [1u32, 3, 4] {
        v.push(x).unwrap();
    }
    v.insert(1, 2).unwrap();
    assert_eq!(v.as_slice(), &[1, 2, 3, 4]);
    v.insert(0, 0).unwrap();
    assert_eq!(v.as_slice(), &[0, 1, 2, 3, 4]);
    v.insert(5, 5).unwrap();
    assert_eq!(v.as_slice(), &[0, 1, 2, 3, 4, 5]);
}

#[test]
fn insert_beyond_length_is_a_structured_error() {
    let mut v: TryVec<u32> = TryVec::new();
    v.push(1).unwrap();
    v.push(2).unwrap();
    assert_eq!(v.insert(5, 9), Err((9, InsertError::OutOfBounds)));
    assert_eq!(v.as_slice(), &[1, 2]);
}

#[test]
fn insert_with_refusing_allocator_returns_value() {
    let mut v = TryVec::with_capacity_in(1, FaultAlloc::new(1)).unwrap();
    v.push(1u32).unwrap();
    assert_eq!(v.insert(0, 2), Err((2, InsertError::Alloc)));
    assert_eq!(v.as_slice(), &[1]);
    assert_eq!(v.capacity(), 1);
}

#[test]
fn as_mut_slice_allows_in_place_updates() {
    let mut v: TryVec<u32> = TryVec::new();
    for x in [1u32, 2, 3] {
        v.push(x).unwrap();
    }
    let s = v.as_mut_slice();
    s[0] = 10;
    s[2] = 30;
    assert_eq!(v.as_slice(), &[10, 2, 30]);
}

#[test]
fn iter_visits_elements_in_order() {
    let mut v: TryVec<u32> = TryVec::new();
    for x in [7u32, 8, 9] {
        v.push(x).unwrap();
    }
    let collected: Vec<u32> = v.iter().copied().collect();
    assert_eq!(collected, vec![7, 8, 9]);
}

#[test]
fn into_vec_hands_elements_over() {
    let mut v: TryVec<u8> = TryVec::new();
    for x in [4u8, 5, 6] {
        v.push(x).unwrap();
    }
    let plain: Vec<u8> = v.into_vec();
    assert_eq!(plain, vec![4, 5, 6]);
}

#[test]
fn oversized_reservation_is_an_error_not_a_wraparound() {
    let r: Result<TryVec<u64>, AllocError> = TryVec::with_capacity(usize::MAX);
    assert_eq!(r.err(), Some(AllocError));
    let mut v: TryVec<u64> = TryVec::new();
    v.push(1).unwrap();
    assert_eq!(v.try_reserve(usize::MAX), Err(AllocError));
    assert_eq!(v.as_slice(), &[1]);
}

#[test]
fn operations_on_empty_container() {
    let mut v: TryVec<u32> = TryVec::new();
    assert_eq!(v.pop(), None);
    assert_eq!(v.remove(0), None);
    assert_eq!(v.swap_remove(0), None);
    v.clear();
    assert!(v.is_empty());
}

#[test]
fn try_reserve_one_grows_by_a_single_slot() {
    let mut v = TryVec::new_in(FaultAlloc::new(2));
    v.try_reserve_one().unwrap();
    assert_eq!(v.capacity(), 1);
    v.push(1u16).unwrap();
    v.try_reserve_one().unwrap();
    assert_eq!(v.capacity(), 2);
}
