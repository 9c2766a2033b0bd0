use owncore::boxed::Box;

#[test]
fn should_contain_value() {
    let result = Box::new(5);

    assert_eq!(*result.get(), 5);
}

#[test]
fn should_equal() {
    let first = Box::new(5);
    let second = Box::new(5);

    assert_eq!(first, second);
}

#[test]
fn should_not_equal() {
    let first = Box::new(6);
    let second = Box::new(5);

    assert_ne!(first, second);
}

#[test]
fn should_dereference_mutable() {
    let mut uat = Box::new(5);

    uat.set(7);

    assert_eq!(*uat.get(), 7);
}
