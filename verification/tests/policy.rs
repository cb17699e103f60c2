use fallible_containers::allocator::AllocError;
use fallible_containers::Panic;
use fallible_containers::PanicStrategy;
use fallible_containers::Recover;

#[test]
fn recover_passes_failure_through() {
    let out = <Recover as PanicStrategy<AllocError>>::handle(Err(AllocError));
    assert_eq!(out, Err(AllocError));
}

#[test]
fn recover_passes_success_through() {
    let out = <Recover as PanicStrategy<AllocError>>::handle(Ok(()));
    assert_eq!(out, Ok(()));
    assert_eq!(<Recover as PanicStrategy<AllocError>>::ok(), Ok(()));
}

#[test]
fn panic_strategy_admits_success() {
    let out = <Panic as PanicStrategy<AllocError>>::handle(Ok(()));
    assert_eq!(out, ());
    assert_eq!(<Panic as PanicStrategy<AllocError>>::ok(), ());
}
