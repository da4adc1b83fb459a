use sui::form::{focus_handler, FocusCommand, Store, UniqueId};

#[test]
fn test_store() {
    let mut store = Store::new("HI!!!!");

    store.with_borrow(|a| assert_eq!(*a, "HI!!!!"));
    store.with_mut_borrow(|a| *a = "sum else");
    store.with_borrow(|a| assert_eq!(*a, "sum else"));
}

#[test]
fn test_store_with_i32() {
    let mut store = Store::new(16);

    let num = store.get();
    assert_eq!(num, 16);

    store.with_mut_borrow(|a| *a = 13);
    let num = store.get();
    assert_eq!(num, 13);
}

#[test]
fn store_set_returns_previous() {
    let mut store = Store::new(5);
    assert_eq!(store.set(9), 5);
    assert_eq!(store.get(), 9);
}

#[test]
fn focus_request_and_drop() {
    let mut fh = focus_handler();
    assert_eq!(fh.get(), UniqueId::null());
    FocusCommand::Request(UniqueId(42)).apply(&mut fh);
    assert_eq!(fh.get(), UniqueId(42));
    FocusCommand::Drop.apply(&mut fh);
    assert_eq!(fh.get(), UniqueId(0));
}
