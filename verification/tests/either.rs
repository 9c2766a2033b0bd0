use owncore::either::Either;

#[test]
fn should_exit_on_left() {
    let func = || -> Either<i32, String> {
        let _ = match Either::<i32, String>::left(15) {
            Either::Right(value) => value,
            Either::Left(error) => return Either::left(error),
        };
        Either::right(String::from("Hello"))
    };

    let result = func();

    assert_eq!(result.is_left(), true)
}

#[test]
fn should_continue_on_right() {
    let func = || -> Either<String, i32> {
        let value = match Either::<String, i32>::right(10) {
            Either::Right(value) => value,
            Either::Left(error) => return Either::left(error),
        };
        Either::right(value + 10)
    };

    let result = func();

    assert_eq!(result.is_right(), true);
    assert_eq!(result.unwrap(), 20);
}

#[test]
fn should_map_inner_value() {
    let value: Either<String, i32> = Either::right(10);

    let mut iterator = value.iter();
    let mapped = iterator.next().map(|&x| x * 2);
    let result: Either<(), i32> = Either::from_first(mapped);

    assert_eq!(result.is_right(), true);
    assert_eq!(result.unwrap(), 20);
}

#[test]
fn should_filter_inner_value() {
    let value: Either<String, i32> = Either::right(10);

    let mut iterator = value.iter();
    let filtered = iterator.next().filter(|&&x| x > 10).copied();
    let result: Either<(), i32> = Either::from_first(filtered);

    assert_eq!(result.is_left(), true);
}
