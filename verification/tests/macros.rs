use owncore::boxed::Box;
use owncore::vec::Vec;

fn func() -> String {
    String::from("Hello")
}

#[test]
fn should_call_created_function() {
    let result = func();

    assert_eq!(result, String::from("Hello"));
}

#[test]
fn should_create_vector_of_specified_type() {
    let mut result: Vec<Box<i32>> = Vec::with_capacity(8);

    result.push(Box::new(7));

    assert_eq!(*result.get(0).get(), 7);
}
