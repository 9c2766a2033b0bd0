use owncore::vec::Vec;

#[test]
fn should_return_empty() {
    let vec: Vec<i32> = Vec::new();

    assert_eq!(vec.len(), 0);
}

#[test]
fn should_return_value_at_index() {
    let mut vec: Vec<i32> = Vec::new();
    vec.push(1);
    vec.push(2);

    assert_eq!(*vec.get(0), 1);
    assert_eq!(*vec.get(1), 2);
}

#[test]
fn should_mutate_value_at_index() {
    let mut vec: Vec<i32> = Vec::new();
    vec.push(1);
    vec.push(2);

    vec.set(1, 17);

    assert_eq!(*vec.get(0), 1);
    assert_eq!(*vec.get(1), 17);
}

#[test]
fn should_construct_vector() {
    let mut vec: Vec<i32> = Vec::with_capacity(3);
    vec.push(1);
    vec.push(2);
    vec.push(3);

    assert_eq!(vec.allocated(), 3);
    assert_eq!(*vec.get(0), 1);
    assert_eq!(*vec.get(1), 2);
    assert_eq!(*vec.get(2), 3);
}

#[test]
fn should_return_range_slice() {
    let mut vec: Vec<i32> = Vec::with_capacity(4);
    vec.push(1);
    vec.push(2);
    vec.push(3);
    vec.push(4);

    let slice = vec.slice(1, 3);

    assert_eq!(slice.len(), 2);
    assert_eq!(slice[0], 2);
    assert_eq!(slice[1], 3);
}

#[test]
fn should_support_empty_vec_macro() {
    let vec: Vec<i32> = Vec::new();

    assert_eq!(vec.len(), 0);
}

#[test]
fn should_allocate_with_macro() {
    let vec: Vec<i32> = Vec::from_elem(5, 7);

    assert_eq!(vec.len(), 7);
    assert_eq!(vec.len(), 7);
}

#[test]
fn should_filter_out_values() {
    let mut vec: Vec<i32> = Vec::with_capacity(5);
    vec.push(1);
    vec.push(2);
    vec.push(3);
    vec.push(4);
    vec.push(5);

    let mut iterator = vec.iter();
    let mut result: usize = 0;
    while let Some(x) = iterator.next() {
        if *x > 3 {
            result += 1;
        }
    }

    assert_eq!(result, 2);
}

#[test]
fn should_map_values() {
    let mut vec: Vec<i32> = Vec::with_capacity(2);
    vec.push(1);
    vec.push(2);

    let mut result: Vec<i32> = Vec::new();
    let mut iterator = vec.iter();
    while let Some(x) = iterator.next() {
        result.push(x * 2);
    }

    assert_eq!(result.len(), 2);
    assert_eq!(*result.get(0), 2);
    assert_eq!(*result.get(1), 4);
}

#[test]
fn push_follows_allocation_policy() {
    let mut vec: Vec<i32> = Vec::new();
    vec.push(1);

    assert_eq!(vec.allocated(), 4);

    vec.push(2);
    vec.push(3);
    vec.push(4);

    assert_eq!(vec.allocated(), 4);

    vec.push(5);

    assert_eq!(vec.allocated(), 16);
    assert_eq!(vec.len(), 5);
}

#[test]
fn from_elem_of_zero_is_empty() {
    let vec: Vec<i32> = Vec::from_elem(9, 0);

    assert_eq!(vec.len(), 0);
    assert_eq!(vec.allocated(), 0);
}
