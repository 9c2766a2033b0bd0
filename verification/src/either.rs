use vstd::prelude::*;

verus! {

/// A two-variant sum type. By convention `Left` carries an error and `Right`
/// the correct value.
pub enum Either<L, R> {
    Left(L),
    Right(R),
}

impl<L, R> Either<L, R> {
    /// Wraps a value in the `Left` variant.
    pub fn left(value: L) -> (result: Self)
        ensures
            result == Either::<L, R>::Left(value),
    {
        Either::Left(value)
    }

    /// Wraps a value in the `Right` variant.
    pub fn right(value: R) -> (result: Self)
        ensures
            result == Either::<L, R>::Right(value),
    {
        Either::Right(value)
    }

    /// Whether this is the `Left` variant.
    pub fn is_left(&self) -> (result: bool)
        ensures
            result == (self is Left),
    {
        match self {
            Either::Left(_) => true,
            Either::Right(_) => false,
        }
    }

    /// Whether this is the `Right` variant.
    pub fn is_right(&self) -> (result: bool)
        ensures
            result == (self is Right),
    {
        match self {
            Either::Left(_) => false,
            Either::Right(_) => true,
        }
    }

    /// Takes ownership and yields the `Right` value. A `Left` value is
    /// rejected fatally, so only `Right` values may be unwrapped.
    pub fn unwrap(self) -> (value: R)
        requires
            self is Right,
        ensures
            value == self->Right_0,
    {
        match self {
            Either::Left(_) => vstd::pervasive::unreached(),
            Either::Right(value) => value,
        }
    }

    /// Iteration over a sum type yields the `Right` value once, by
    /// reference, and nothing for a `Left` value.
    pub fn iter(&self) -> (it: EitherIterator<'_, R>)
        ensures
            *self matches Either::Right(value) ==> (it matches EitherIterator::Ref(r) && *r
                == value),
            *self is Left ==> it is Empty,
    {
        match self {
            Either::Left(_) => EitherIterator::Empty,
            Either::Right(value) => EitherIterator::Ref(value),
        }
    }
}

impl<R> Either<(), R> {
    /// Collects from a source that yields at most one value: no value at all
    /// becomes `Left(())`, a first value becomes `Right` of it.
    pub fn from_first(first: Option<R>) -> (result: Self)
        ensures
            first matches Some(value) ==> result == Either::<(), R>::Right(value),
            first is None ==> result == Either::<(), R>::Left(()),
    {
        match first {
            None => Either::Left(()),
            Some(value) => Either::Right(value),
        }
    }
}

/// Yields a borrowed `Right` value at most once.
pub enum EitherIterator<'a, R> {
    Ref(&'a R),
    Empty,
}

impl<'a, R> EitherIterator<'a, R> {
    /// Hands out the remaining value, if any, and leaves the iterator empty.
    pub fn next(&mut self) -> (item: Option<&'a R>)
        ensures
            *old(self) matches EitherIterator::Ref(value) ==> (item matches Some(r) && r == value),
            *old(self) is Empty ==> item is None,
            *final(self) is Empty,
    {
        match self {
            EitherIterator::Ref(value) => {
                let result: &'a R = *value;
                *self = EitherIterator::Empty;
                Some(result)
            },
            EitherIterator::Empty => None,
        }
    }
}

} // verus!
