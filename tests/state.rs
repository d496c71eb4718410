use loongfang::state::{AlreadyInitialized, Slot};

#[test]
fn slot_is_write_once() {
    let mut slot: Slot<u32> = Slot::new();
    assert!(!slot.is_set());
    assert!(slot.try_get().is_none());
    assert_eq!(slot.set(7), Ok(()));
    assert!(slot.is_set());
    assert_eq!(*slot.get(), 7);
    assert_eq!(slot.set(9), Err(AlreadyInitialized));
    assert_eq!(*slot.get(), 7);
    assert_eq!(slot.try_get(), Some(&7));
}
