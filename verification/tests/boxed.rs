use fallible_containers::allocator::AllocError;
use fallible_containers::allocator::FaultAlloc;
use fallible_containers::allocator::Global;
use fallible_containers::boxed::TryBox;
use fallible_containers::boxed::TryBoxSlice;

#[test]
fn new_then_get_yields_value() {
    let b = TryBox::new(42u32).unwrap();
    assert_eq!(*b.get(), 42);
}

#[test]
fn new_in_with_refusing_allocator_loses_value() {
    let r = TryBox::new_in(String::from("gone"), FaultAlloc::new(0));
    assert!(matches!(r, Err(AllocError)));
}

#[test]
fn get_mut_updates_value() {
    let mut b = TryBox::new(1i64).unwrap();
    *b.get_mut() = -7;
    assert_eq!(*b.get(), -7);
}

#[test]
fn leak_hands_value_out() {
    let b = TryBox::new(String::from("kept")).unwrap();
    let s = TryBox::leak(b);
    assert_eq!(s, "kept");
}

#[test]
fn uninit_write_then_assume_init() {
    let mut raw = TryBox::<u16>::new_uninit().unwrap();
    raw.write(7);
    let b = TryBox::assume_init(raw);
    assert_eq!(*b.get(), 7);
}

#[test]
fn uninit_in_with_refusing_allocator_fails() {
    let r = TryBox::<u8, FaultAlloc>::new_uninit_in(FaultAlloc::new(0));
    assert!(r.is_err());
}

#[test]
fn slice_written_slots_exposed_in_order() {
    let mut raw = TryBox::<u32, Global>::new_uninit_slice_in(3, Global::new()).unwrap();
    assert_eq!(raw.len(), 3);
    raw.write_at(0, 10);
    raw.write_at(1, 11);
    raw.write_at(2, 12);
    let s = TryBoxSlice::assume_init(raw);
    assert_eq!(s.len(), 3);
    assert_eq!(s.as_slice(), &[10, 11, 12]);
}

#[test]
fn slice_rewrite_keeps_last_written_value() {
    let mut raw = TryBox::<u8, Global>::new_uninit_slice_in(2, Global::new()).unwrap();
    raw.write_at(0, 1);
    raw.write_at(1, 2);
    raw.write_at(0, 3);
    let s = TryBoxSlice::assume_init(raw);
    assert_eq!(s.as_slice(), &[3, 2]);
}

#[test]
fn new_slice_fills_every_slot() {
    let s = TryBox::new_slice(4, 9u8).unwrap();
    assert_eq!(s.as_slice(), &[9, 9, 9, 9]);
}

#[test]
fn slice_get_and_set() {
    let mut s = TryBox::new_slice(3, 0i32).unwrap();
    s.set(2, 5);
    assert_eq!(*s.get(2), 5);
    assert_eq!(s.as_slice(), &[0, 0, 5]);
}

#[test]
fn new_slice_in_with_refusing_allocator_fails() {
    let r = TryBox::new_slice_in(3, 1u8, FaultAlloc::new(0));
    assert!(r.is_err());
}

#[test]
fn oversized_slice_is_an_error_not_a_wraparound() {
    let r = TryBox::new_slice(usize::MAX, 0u64);
    assert_eq!(r.err(), Some(AllocError));
}

#[test]
fn empty_slice_is_allowed() {
    let s = TryBox::new_slice(0, 1u8).unwrap();
    assert_eq!(s.len(), 0);
    assert_eq!(s.as_slice(), &[] as &[u8]);
}
