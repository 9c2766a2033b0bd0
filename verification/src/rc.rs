use vstd::prelude::*;

verus! {

// A reference-counted shared pointer with weak references, built over an
// explicit heap model. Raw pointers cannot be verified, so the allocator's
// memory is a value of its own: a `Heap` owns every counter-cell pair and
// payload slot ever handed out, and the handles `Rc` and `Weak` address
// pairs inside it. Every handle addressing one pair reads and writes the
// same two cells, which is exactly the sharing discipline of the design.
//
// The counters are plain read-modify-write cells with no synchronization:
// the design is single-threaded by assumption. Here that boundary is
// enforced structurally, since every mutation takes the one heap value
// exclusively, and destruction is an explicit operation (`release`) that
// consumes the handle, playing the part a destructor would otherwise play.

/// The state of one allocation as the specification sees it: the two
/// counter cells, the payload slot they guard, and whether the cells
/// themselves are still allocated.
pub ghost struct PairView<T> {
    pub strong: nat,
    pub weak: nat,
    pub payload: Option<T>,
    pub cells_live: bool,
}

impl<T> PairView<T> {
    /// The payload lives exactly while shared handles do, and the two cells
    /// are reclaimed only once both counters have fallen to zero.
    pub open spec fn wf(self) -> bool {
        &&& (self.strong > 0 <==> self.payload is Some)
        &&& (!self.cells_live ==> self.strong == 0 && self.weak == 0)
    }
}

/// A fresh pair: one shared handle, no weak handles, payload in place.
pub open spec fn fresh_pair<T>(value: T) -> PairView<T> {
    PairView { strong: 1, weak: 0, payload: Some(value), cells_live: true }
}

/// The heap after a fresh allocation.
pub open spec fn alloc_pair<T>(h: Seq<PairView<T>>, value: T) -> Seq<PairView<T>> {
    h.push(fresh_pair(value))
}

/// The heap after the strong counter of pair `i` is raised: what a clone of
/// a shared handle, or a successful upgrade, does.
pub open spec fn strong_raised<T>(h: Seq<PairView<T>>, i: int) -> Seq<PairView<T>> {
    h.update(
        i,
        PairView {
            strong: h[i].strong + 1,
            weak: h[i].weak,
            payload: h[i].payload,
            cells_live: h[i].cells_live,
        },
    )
}

/// The heap after the weak counter of pair `i` is raised: what a downgrade,
/// or a clone of a weak handle, does.
pub open spec fn weak_raised<T>(h: Seq<PairView<T>>, i: int) -> Seq<PairView<T>> {
    h.update(
        i,
        PairView {
            strong: h[i].strong,
            weak: h[i].weak + 1,
            payload: h[i].payload,
            cells_live: h[i].cells_live,
        },
    )
}

/// One pair after a strong reference is gone: the payload is freed exactly
/// when the strong count falls to zero, and the cells are reclaimed once
/// both counters read zero.
pub open spec fn strong_dropped_pair<T>(p: PairView<T>) -> PairView<T> {
    PairView {
        strong: (p.strong - 1) as nat,
        weak: p.weak,
        payload: if p.strong == 1 {
            None
        } else {
            p.payload
        },
        cells_live: p.cells_live && !(p.strong == 1 && p.weak == 0),
    }
}

/// The heap after the release of a shared handle of pair `i`.
pub open spec fn strong_dropped<T>(h: Seq<PairView<T>>, i: int) -> Seq<PairView<T>> {
    h.update(i, strong_dropped_pair(h[i]))
}

/// One pair after a weak reference is gone: the payload is untouched, and
/// the cells are reclaimed once both counters read zero.
pub open spec fn weak_dropped_pair<T>(p: PairView<T>) -> PairView<T> {
    PairView {
        strong: p.strong,
        weak: (p.weak - 1) as nat,
        payload: p.payload,
        cells_live: p.cells_live && !(p.strong == 0 && p.weak == 1),
    }
}

/// The heap after the release of a weak handle of pair `i`.
pub open spec fn weak_dropped<T>(h: Seq<PairView<T>>, i: int) -> Seq<PairView<T>> {
    h.update(i, weak_dropped_pair(h[i]))
}

/// One pair after the check-then-free step that every handle runs on its
/// own destruction: the cells go exactly when both counters read zero.
pub open spec fn reclaimed_pair<T>(p: PairView<T>) -> PairView<T> {
    PairView {
        strong: p.strong,
        weak: p.weak,
        payload: p.payload,
        cells_live: p.cells_live && !(p.strong == 0 && p.weak == 0),
    }
}

/// What a weak handle reports for the strong counter: zero for the empty
/// sentinel, the shared cell's value otherwise.
pub open spec fn observed_strong<T>(h: Seq<PairView<T>>, target: Option<int>) -> nat {
    match target {
        Some(i) => h[i].strong,
        None => 0,
    }
}

/// What a weak handle reports for the weak counter.
pub open spec fn observed_weak<T>(h: Seq<PairView<T>>, target: Option<int>) -> nat {
    match target {
        Some(i) => h[i].weak,
        None => 0,
    }
}

/// Whether an upgrade succeeds: never for the empty sentinel, and otherwise
/// exactly while the strong counter is positive. The decision reads the
/// counter alone, never the payload.
pub open spec fn can_upgrade<T>(h: Seq<PairView<T>>, target: Option<int>) -> bool {
    target matches Some(i) && 0 <= i < h.len() && h[i].strong > 0
}

/// Constructing a shared handle from a value and dereferencing it yields
/// that value: a fresh allocation holds exactly the constructed payload,
/// with one strong and no weak reference, and `Rc::get` returns the
/// payload of the addressed pair.
pub proof fn lemma_new_pair_holds_value<T>(h: Seq<PairView<T>>, value: T)
    ensures
        alloc_pair(h, value)[h.len() as int].payload == Some(value),
        alloc_pair(h, value)[h.len() as int].strong == 1,
        alloc_pair(h, value)[h.len() as int].weak == 0,
        alloc_pair(h, value)[h.len() as int].wf(),
{
}

/// Cloning a shared handle raises the strong count of its pair by exactly
/// one and touches nothing else. The source and the copy address the same
/// pair, so both observe the raised count.
pub proof fn lemma_clone_raises_strong<T>(h: Seq<PairView<T>>, i: int)
    requires
        0 <= i < h.len(),
    ensures
        strong_raised(h, i)[i].strong == h[i].strong + 1,
        strong_raised(h, i)[i].weak == h[i].weak,
        strong_raised(h, i)[i].payload == h[i].payload,
        forall|j: int| 0 <= j < h.len() && j != i ==> strong_raised(h, i)[j] == h[j],
{
}

/// Releasing a clone undoes it: when a live pair's strong counter is
/// raised and then one strong reference is released, the heap is back
/// where it started, so the surviving handles observe a strong count lower
/// by exactly one than while the clone lived.
pub proof fn lemma_release_undoes_clone<T>(h: Seq<PairView<T>>, i: int)
    requires
        0 <= i < h.len(),
        h[i].wf(),
        h[i].strong >= 1,
    ensures
        strong_dropped(strong_raised(h, i), i) =~= h,
{
}

/// Downgrading raises the weak count of the pair by exactly one and leaves
/// the strong count and the payload untouched. The weak handle returned
/// addresses the same pair as the source, so both report the same counts.
pub proof fn lemma_downgrade_counts<T>(h: Seq<PairView<T>>, i: int)
    requires
        0 <= i < h.len(),
    ensures
        weak_raised(h, i)[i].weak == h[i].weak + 1,
        weak_raised(h, i)[i].strong == h[i].strong,
        weak_raised(h, i)[i].payload == h[i].payload,
        observed_strong(weak_raised(h, i), Some(i)) == h[i].strong,
        observed_weak(weak_raised(h, i), Some(i)) == h[i].weak + 1,
        forall|j: int| 0 <= j < h.len() && j != i ==> weak_raised(h, i)[j] == h[j],
{
}

/// Releasing a weak handle lowers the weak count by exactly one and never
/// touches the strong count or the payload; in particular, when the last
/// weak handle goes the weak count reaches zero with the payload intact.
pub proof fn lemma_weak_release_leaves_payload<T>(h: Seq<PairView<T>>, i: int)
    requires
        0 <= i < h.len(),
        h[i].weak >= 1,
    ensures
        weak_dropped(h, i)[i].weak == h[i].weak - 1,
        weak_dropped(h, i)[i].strong == h[i].strong,
        weak_dropped(h, i)[i].payload == h[i].payload,
        h[i].weak == 1 ==> weak_dropped(h, i)[i].weak == 0,
        forall|j: int| 0 <= j < h.len() && j != i ==> weak_dropped(h, i)[j] == h[j],
{
}

/// When the last shared handle of a pair is released, the strong count
/// reaches zero, the weak count stays as tracked, the payload is freed,
/// and an upgrade of any weak handle of that pair now yields nothing.
pub proof fn lemma_last_strong_release_kills_upgrade<T>(h: Seq<PairView<T>>, i: int)
    requires
        0 <= i < h.len(),
        h[i].strong == 1,
    ensures
        strong_dropped(h, i)[i].strong == 0,
        strong_dropped(h, i)[i].weak == h[i].weak,
        strong_dropped(h, i)[i].payload is None,
        !can_upgrade(strong_dropped(h, i), Some(i)),
{
}

/// The empty weak handle is inert, whatever the heap holds: it reports
/// zero for both counters and an upgrade never succeeds.
pub proof fn lemma_empty_weak_inert<T>(h: Seq<PairView<T>>)
    ensures
        observed_strong(h, None::<int>) == 0,
        observed_weak(h, None::<int>) == 0,
        !can_upgrade(h, None::<int>),
{
}

/// Upgrading succeeds exactly while the strong count is positive; it then
/// raises the strong count by one and leaves the payload as it was, so the
/// promoted handle dereferences to the original payload value.
pub proof fn lemma_upgrade_preserves_value<T>(h: Seq<PairView<T>>, i: int)
    requires
        0 <= i < h.len(),
        h[i].wf(),
        h[i].strong > 0,
    ensures
        can_upgrade(h, Some(i)),
        strong_raised(h, i)[i].strong == h[i].strong + 1,
        strong_raised(h, i)[i].payload == h[i].payload,
        h[i].payload is Some,
{
}

/// One strong/weak counter-cell pair, with a flag standing for whether the
/// two cells are still allocated.
#[derive(Clone, Copy)]
struct Cells {
    strong: usize,
    weak: usize,
    live: bool,
}

/// The allocator's memory for this module: every counter pair and payload
/// slot handed out so far. Addresses are never reused; a freed slot stays
/// behind as `None` with its `live` flag cleared.
pub struct Heap<T> {
    cells: Vec<Cells>,
    payloads: Vec<Option<T>>,
}

impl<T> View for Heap<T> {
    type V = Seq<PairView<T>>;

    closed spec fn view(&self) -> Seq<PairView<T>> {
        Seq::new(
            self.cells@.len(),
            |i: int|
                PairView {
                    strong: self.cells@[i].strong as nat,
                    weak: self.cells@[i].weak as nat,
                    payload: self.payloads@[i],
                    cells_live: self.cells@[i].live,
                },
        )
    }
}

impl<T> Heap<T> {
    /// Both backing tables cover the same pairs, and every pair is
    /// well-formed.
    pub closed spec fn wf(self) -> bool {
        &&& self.cells@.len() == self.payloads@.len()
        &&& forall|i: int| 0 <= i < self@.len() ==> (#[trigger] self@[i]).wf()
    }

    /// A well-formed heap holds only well-formed pairs.
    pub proof fn lemma_wf_pairs(&self)
        requires
            self.wf(),
        ensures
            forall|i: int| 0 <= i < self@.len() ==> (#[trigger] self@[i]).wf(),
    {
    }

    /// A heap with nothing allocated yet.
    pub fn new() -> (heap: Self)
        ensures
            heap.wf(),
            heap@ =~= Seq::<PairView<T>>::empty(),
    {
        Heap { cells: Vec::new(), payloads: Vec::new() }
    }

    /// The sole gate for payload freeing and for weak upgrades: whether the
    /// strong cell of pair `i` still reads positive.
    fn is_strong_positive(&self, i: usize) -> (pos: bool)
        requires
            i < self@.len(),
        ensures
            pos == (self@[i as int].strong > 0),
    {
        self.cells[i].strong > 0
    }

    /// The destruction rule of the counter pair: the two cells are freed
    /// exactly when both counters read zero. Every handle runs this check on
    /// its own destruction; the last one out frees the cells.
    fn reclaim_cells(&mut self, i: usize)
        requires
            old(self).wf(),
            i < old(self)@.len(),
        ensures
            final(self).wf(),
            final(self)@ =~= old(self)@.update(i as int, reclaimed_pair(old(self)@[i as int])),
    {
        let cell = &mut self.cells[i];
        if cell.strong == 0 && cell.weak == 0 {
            cell.live = false;
        }
        proof {
            assert(self@ =~= old(self)@.update(i as int, reclaimed_pair(old(self)@[i as int])));
        }
    }
}

/// A shared (strong) handle: the address of the pair whose payload it may
/// read. A live handle is counted by the strong cell of that pair.
pub struct Rc<T> {
    id: usize,
    _t: core::marker::PhantomData<T>,
}

impl<T> Rc<T> {
    /// The pair this handle addresses.
    pub closed spec fn addr(self) -> int {
        self.id as int
    }

    /// A live shared handle addresses a pair whose strong counter carries
    /// it.
    pub open spec fn valid(self, h: Seq<PairView<T>>) -> bool {
        0 <= self.addr() < h.len() && h[self.addr()].strong >= 1
    }

    /// Allocates a payload slot holding `value` and a fresh counter pair
    /// with strong count one.
    pub fn new(heap: &mut Heap<T>, value: T) -> (this: Self)
        requires
            old(heap).wf(),
        ensures
            final(heap).wf(),
            final(heap)@ =~= alloc_pair(old(heap)@, value),
            this.addr() == old(heap)@.len(),
            this.valid(final(heap)@),
    {
        let id: usize = heap.cells.len();
        heap.cells.push(Cells { strong: 1, weak: 0, live: true });
        heap.payloads.push(Some(value));
        proof {
            assert(heap@ =~= alloc_pair(old(heap)@, value));
        }
        Rc { id, _t: core::marker::PhantomData }
    }

    /// The number of live shared handles of the pair this handle shares.
    pub fn strong_count(this: &Self, heap: &Heap<T>) -> (count: usize)
        requires
            heap.wf(),
            this.valid(heap@),
        ensures
            count == heap@[this.addr()].strong,
    {
        heap.cells[this.id].strong
    }

    /// The number of live weak handles of the pair this handle shares.
    pub fn weak_count(this: &Self, heap: &Heap<T>) -> (count: usize)
        requires
            heap.wf(),
            this.valid(heap@),
        ensures
            count == heap@[this.addr()].weak,
    {
        heap.cells[this.id].weak
    }

    /// A new shared handle of the same pair: the strong counter rises by
    /// one, and both handles observe it, since both address the same cell.
    pub fn clone(this: &Self, heap: &mut Heap<T>) -> (copy: Self)
        requires
            old(heap).wf(),
            this.valid(old(heap)@),
            old(heap)@[this.addr()].strong < usize::MAX,
        ensures
            final(heap).wf(),
            final(heap)@ =~= strong_raised(old(heap)@, this.addr()),
            copy.addr() == this.addr(),
            copy.valid(final(heap)@),
            this.valid(final(heap)@),
    {
        let cell = &mut heap.cells[this.id];
        cell.strong = cell.strong + 1;
        proof {
            assert(heap@ =~= strong_raised(old(heap)@, this.addr()));
        }
        Rc { id: this.id, _t: core::marker::PhantomData }
    }

    /// A weak handle over the same pair: the weak counter rises by one and
    /// the strong counter is untouched.
    pub fn downgrade(this: &Self, heap: &mut Heap<T>) -> (weak: Weak<T>)
        requires
            old(heap).wf(),
            this.valid(old(heap)@),
            old(heap)@[this.addr()].weak < usize::MAX,
        ensures
            final(heap).wf(),
            final(heap)@ =~= weak_raised(old(heap)@, this.addr()),
            weak.target() == Some(this.addr()),
            weak.valid(final(heap)@),
            this.valid(final(heap)@),
    {
        let cell = &mut heap.cells[this.id];
        cell.weak = cell.weak + 1;
        proof {
            assert(heap@ =~= weak_raised(old(heap)@, this.addr()));
        }
        Weak { target: Some(this.id), _t: core::marker::PhantomData }
    }

    /// Read access to the payload: sound because a live shared handle,
    /// `this` among them, keeps the strong count positive, and the payload
    /// is freed only at strong count zero.
    pub fn get<'a>(this: &Self, heap: &'a Heap<T>) -> (value: &'a T)
        requires
            heap.wf(),
            this.valid(heap@),
        ensures
            heap@[this.addr()].payload == Some(*value),
    {
        heap.payloads[this.id].as_ref().unwrap()
    }

    /// Destruction of a shared handle: the strong counter falls by one; the
    /// handle whose decrement makes it cross to zero frees the payload, and
    /// the counter cells themselves go once both counters read zero.
    pub fn release(this: Self, heap: &mut Heap<T>)
        requires
            old(heap).wf(),
            this.valid(old(heap)@),
        ensures
            final(heap).wf(),
            final(heap)@ =~= strong_dropped(old(heap)@, this.addr()),
    {
        let i: usize = this.id;
        let cell = &mut heap.cells[i];
        cell.strong = cell.strong - 1;
        if !heap.is_strong_positive(i) {
            let slot = &mut heap.payloads[i];
            *slot = None;
        }
        proof {
            assert forall|j: int| 0 <= j < heap@.len() implies (#[trigger] heap@[j]).wf() by {
                assert(old(heap)@[j].wf());
            }
            assert(heap.wf());
        }
        heap.reclaim_cells(i);
        proof {
            assert(heap@ =~= strong_dropped(old(heap)@, this.addr()));
        }
    }
}

/// A weak handle: either the empty no-referent sentinel or the address of a
/// pair. It tracks liveness of the payload without extending its lifetime
/// and must never read the payload itself.
pub struct Weak<T> {
    target: Option<usize>,
    _t: core::marker::PhantomData<T>,
}

impl<T> Weak<T> {
    /// The pair this handle addresses, or nothing for the empty sentinel.
    pub closed spec fn target(self) -> Option<int> {
        match self.target {
            Some(i) => Some(i as int),
            None => None,
        }
    }

    /// The empty sentinel is always valid; a live weak handle addresses a
    /// pair whose weak counter carries it.
    pub open spec fn valid(self, h: Seq<PairView<T>>) -> bool {
        self.target() matches Some(i) ==> 0 <= i < h.len() && h[i].weak >= 1
    }

    /// The no-referent constructor: a handle over the empty sentinel pair.
    /// It allocates nothing, reports zero for both counters, and never
    /// upgrades.
    pub fn new() -> (weak: Self)
        ensures
            weak.target() is None,
    {
        Weak { target: None, _t: core::marker::PhantomData }
    }

    /// The strong count of the addressed pair; zero for the sentinel.
    pub fn strong_count(&self, heap: &Heap<T>) -> (count: usize)
        requires
            heap.wf(),
            self.valid(heap@),
        ensures
            count == observed_strong(heap@, self.target()),
    {
        match self.target {
            Some(i) => heap.cells[i].strong,
            None => 0,
        }
    }

    /// The weak count of the addressed pair; zero for the sentinel.
    pub fn weak_count(&self, heap: &Heap<T>) -> (count: usize)
        requires
            heap.wf(),
            self.valid(heap@),
        ensures
            count == observed_weak(heap@, self.target()),
    {
        match self.target {
            Some(i) => heap.cells[i].weak,
            None => 0,
        }
    }

    /// Fallible promotion, the only path from a weak handle to the payload:
    /// if the strong counter is still positive it rises by one and a new
    /// shared handle of the same pair comes back; otherwise nothing does.
    /// The decision reads the counter alone, never the payload.
    pub fn upgrade(&self, heap: &mut Heap<T>) -> (promoted: Option<Rc<T>>)
        requires
            old(heap).wf(),
            self.valid(old(heap)@),
            observed_strong(old(heap)@, self.target()) < usize::MAX,
        ensures
            final(heap).wf(),
            promoted is Some <==> can_upgrade(old(heap)@, self.target()),
            promoted matches Some(rc) ==> {
                &&& Some(rc.addr()) == self.target()
                &&& final(heap)@ =~= strong_raised(old(heap)@, rc.addr())
                &&& rc.valid(final(heap)@)
            },
            promoted is None ==> final(heap)@ =~= old(heap)@,
            self.valid(final(heap)@),
    {
        match self.target {
            Some(i) => {
                if heap.is_strong_positive(i) {
                    let cell = &mut heap.cells[i];
                    cell.strong = cell.strong + 1;
                    proof {
                        assert(heap@ =~= strong_raised(old(heap)@, i as int));
                    }
                    Some(Rc { id: i, _t: core::marker::PhantomData })
                } else {
                    None
                }
            },
            None => None,
        }
    }

    /// A new weak handle of the same pair: the weak counter rises by one.
    /// Cloning the empty sentinel touches no counter at all.
    pub fn clone(&self, heap: &mut Heap<T>) -> (copy: Self)
        requires
            old(heap).wf(),
            self.valid(old(heap)@),
            observed_weak(old(heap)@, self.target()) < usize::MAX,
        ensures
            final(heap).wf(),
            copy.target() == self.target(),
            self.target() matches Some(i) ==> final(heap)@ =~= weak_raised(old(heap)@, i),
            self.target() is None ==> final(heap)@ =~= old(heap)@,
            copy.valid(final(heap)@),
            self.valid(final(heap)@),
    {
        match self.target {
            Some(i) => {
                let cell = &mut heap.cells[i];
                cell.weak = cell.weak + 1;
                proof {
                    assert(heap@ =~= weak_raised(old(heap)@, i as int));
                }
                Weak { target: Some(i), _t: core::marker::PhantomData }
            },
            None => Weak { target: None, _t: core::marker::PhantomData },
        }
    }

    /// Destruction of a weak handle: the weak counter falls by one, and the
    /// counter cells go once both counters read zero. The sentinel is a
    /// no-op.
    pub fn release(this: Self, heap: &mut Heap<T>)
        requires
            old(heap).wf(),
            this.valid(old(heap)@),
        ensures
            final(heap).wf(),
            this.target() matches Some(i) ==> final(heap)@ =~= weak_dropped(old(heap)@, i),
            this.target() is None ==> final(heap)@ =~= old(heap)@,
    {
        match this.target {
            Some(i) => {
                let cell = &mut heap.cells[i];
                cell.weak = cell.weak - 1;
                proof {
                    assert forall|j: int| 0 <= j < heap@.len() implies (
                    #[trigger] heap@[j]).wf() by {
                        assert(old(heap)@[j].wf());
                    }
                    assert(heap.wf());
                }
                heap.reclaim_cells(i);
                proof {
                    assert(heap@ =~= weak_dropped(old(heap)@, i as int));
                }
            },
            None => {},
        }
    }
}

} // verus!
