use vstd::prelude::*;

verus! {

/// Number of slots the first push allocates.
pub const INIT_SIZE: usize = 4;

/// The allocation policy of one push: a first push on an unallocated array
/// reserves `INIT_SIZE` slots, a push on a full array grows the
/// allocation fourfold, and any other push leaves it alone.
pub open spec fn grown_capacity(allocated: nat, len: nat) -> nat {
    if allocated == 0 {
        INIT_SIZE as nat
    } else if len == allocated {
        allocated * 4
    } else {
        allocated
    }
}

/// A growable array: a contiguous buffer together with the number of slots
/// allocated for it, tracked explicitly so the allocation policy of the
/// design is part of the type's contract.
pub struct Vec<T> {
    buf: std::vec::Vec<T>,
    allocated: usize,
}

impl<T> View for Vec<T> {
    type V = Seq<T>;

    closed spec fn view(&self) -> Seq<T> {
        self.buf@
    }
}

impl<T> Vec<T> {
    /// How many slots are allocated.
    pub closed spec fn capacity(self) -> nat {
        self.allocated as nat
    }

    /// The elements never outgrow the allocation.
    pub open spec fn wf(self) -> bool {
        self@.len() <= self.capacity()
    }

    /// An empty array with no allocation at all.
    pub fn new() -> (v: Self)
        ensures
            v@ =~= Seq::<T>::empty(),
            v.capacity() == 0,
            v.wf(),
    {
        Vec { buf: std::vec::Vec::new(), allocated: 0 }
    }

    /// The number of elements held.
    pub fn len(&self) -> (count: usize)
        ensures
            count == self@.len(),
    {
        self.buf.len()
    }

    /// The number of slots allocated.
    pub fn allocated(&self) -> (count: usize)
        ensures
            count == self.capacity(),
    {
        self.allocated
    }

    /// An empty array over exactly `capacity` allocated slots.
    pub fn with_capacity(capacity: usize) -> (v: Self)
        ensures
            v@ =~= Seq::<T>::empty(),
            v.capacity() == capacity,
            v.wf(),
    {
        Vec { buf: std::vec::Vec::with_capacity(capacity), allocated: capacity }
    }

    /// Appends one element, growing the allocation as the policy says.
    pub fn push(&mut self, value: T)
        requires
            old(self).wf(),
            old(self).capacity() * 4 <= usize::MAX,
        ensures
            final(self).wf(),
            final(self)@ =~= old(self)@.push(value),
            final(self).capacity() == grown_capacity(old(self).capacity(), old(self)@.len()),
    {
        if self.allocated == 0 {
            self.allocated = INIT_SIZE;
        } else if self.buf.len() == self.allocated {
            self.allocated = self.allocated * 4;
        }
        self.buf.push(value);
    }

    /// An array of `count` clones of `elem`, over exactly `count` slots.
    pub fn from_elem(elem: T, count: usize) -> (v: Self) where T: Clone
        ensures
            v@.len() == count,
            forall|j: int|
                0 <= j < count ==> vstd::pervasive::cloned::<T>(elem, #[trigger] v@[j]),
            v.capacity() == count,
            v.wf(),
    {
        let mut v: Vec<T> = Vec::with_capacity(count);
        let mut i: usize = 0;
        while i < count
            invariant
                i <= count,
                v@.len() == i,
                v.capacity() == count,
                forall|j: int|
                    0 <= j < i ==> vstd::pervasive::cloned::<T>(elem, #[trigger] v@[j]),
            decreases count - i,
        {
            v.buf.push(elem.clone());
            i = i + 1;
        }
        v
    }

    /// Read access to the element at `index`.
    pub fn get(&self, index: usize) -> (element: &T)
        requires
            index < self@.len(),
        ensures
            *element == self@[index as int],
    {
        &self.buf[index]
    }

    /// Replaces the element at `index`.
    pub fn set(&mut self, index: usize, value: T)
        requires
            index < old(self)@.len(),
        ensures
            final(self)@ =~= old(self)@.update(index as int, value),
            final(self).capacity() == old(self).capacity(),
    {
        let slot = &mut self.buf[index];
        *slot = value;
    }

    /// The elements from `start` (inclusive) to `end` (exclusive), as a
    /// borrowed slice.
    pub fn slice(&self, start: usize, end: usize) -> (out: &[T])
        requires
            start <= end,
            end <= self@.len(),
        ensures
            out@ =~= self@.subrange(start as int, end as int),
    {
        vstd::slice::slice_subrange(self.buf.as_slice(), start, end)
    }

    /// Walks the array front to back.
    pub fn iter(&self) -> (it: VecIterator<'_, T>)
        ensures
            it.src() == self@,
            it.pos() == 0,
    {
        VecIterator { vec: self, offset: 0 }
    }
}

/// Yields each element of a growable array in order, by reference.
pub struct VecIterator<'a, T> {
    vec: &'a Vec<T>,
    offset: usize,
}

impl<'a, T> VecIterator<'a, T> {
    /// The elements walked over.
    pub closed spec fn src(self) -> Seq<T> {
        self.vec@
    }

    /// How many elements have been yielded so far.
    pub closed spec fn pos(self) -> int {
        self.offset as int
    }

    /// The next element, or nothing once the end is reached.
    pub fn next(&mut self) -> (item: Option<&'a T>)
        ensures
            final(self).src() == old(self).src(),
            old(self).pos() < old(self).src().len() ==> {
                &&& item matches Some(r) && *r == old(self).src()[old(self).pos()]
                &&& final(self).pos() == old(self).pos() + 1
            },
            old(self).pos() >= old(self).src().len() ==> {
                &&& item is None
                &&& final(self).pos() == old(self).pos()
            },
    {
        if self.offset < self.vec.len() {
            let result = Some(self.vec.get(self.offset));
            self.offset = self.offset + 1;
            result
        } else {
            None
        }
    }
}

} // verus!
