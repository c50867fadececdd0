//! The registry of connected workers and its round-robin rotation.

use vstd::multiset::Multiset;
use vstd::prelude::*;

verus! {

/// Names one connected worker. A connection gets its handle when it is accepted
/// and keeps it until it ends; two handles are the same worker exactly when
/// their numbers are equal.
#[derive(Clone, Copy, Debug, PartialEq, Eq, Structural, Hash)]
pub struct WorkerHandle(pub u64);

/// Why no worker could be selected.
#[derive(Clone, Copy, Debug, PartialEq, Eq, Structural)]
pub enum PoolError {
    /// No worker is registered.
    EmptyPool,
}

/// One operation on a pool.
pub enum PoolOp {
    Register(WorkerHandle),
    Deregister(WorkerHandle),
    SelectNext,
}

/// The mathematical content of a pool: the registered handles in the order of
/// their registration, and the rotation cursor.
pub struct PoolView {
    pub workers: Seq<WorkerHandle>,
    pub cursor: nat,
}

impl PoolView {
    /// The pool with nothing registered.
    pub open spec fn empty() -> PoolView {
        PoolView { workers: Seq::empty(), cursor: 0 }
    }

    /// The pool after `handle` joined at the end.
    pub open spec fn register(self, handle: WorkerHandle) -> PoolView {
        PoolView { workers: self.workers.push(handle), cursor: self.cursor }
    }

    /// The pool after the first occurrence of `handle` left; the same pool if
    /// `handle` is not in it.
    pub open spec fn deregister(self, handle: WorkerHandle) -> PoolView {
        PoolView { workers: self.workers.remove_value(handle), cursor: self.cursor }
    }

    /// The position that the next selection reads: the cursor, folded into the
    /// current length.
    pub open spec fn slot(self) -> int
        recommends
            self.workers.len() > 0,
    {
        (self.cursor as int) % (self.workers.len() as int)
    }

    /// The handle that the next selection returns, if there is one.
    pub open spec fn selected(self) -> Option<WorkerHandle> {
        if self.workers.len() == 0 {
            None
        } else {
            Some(self.workers[self.slot()])
        }
    }

    /// The pool after one selection: the cursor moved one position on, folded
    /// into the current length. An empty pool stays as it is.
    pub open spec fn advance(self) -> PoolView {
        if self.workers.len() == 0 {
            self
        } else {
            PoolView {
                workers: self.workers,
                cursor: ((self.cursor as int + 1) % (self.workers.len() as int)) as nat,
            }
        }
    }

    /// The pool after one operation.
    pub open spec fn apply(self, op: PoolOp) -> PoolView {
        match op {
            PoolOp::Register(handle) => self.register(handle),
            PoolOp::Deregister(handle) => self.deregister(handle),
            PoolOp::SelectNext => self.advance(),
        }
    }

    /// The pool after the operations `ops`, the first of them first.
    pub open spec fn run(self, ops: Seq<PoolOp>) -> PoolView
        decreases ops.len(),
    {
        if ops.len() == 0 {
            self
        } else {
            self.run(ops.drop_last()).apply(ops.last())
        }
    }

    /// The handles that `n` selections in a row return, first selection first.
    pub open spec fn selections(self, n: nat) -> Seq<WorkerHandle>
        recommends
            self.workers.len() > 0,
        decreases n,
    {
        if n == 0 || self.workers.len() == 0 {
            Seq::empty()
        } else {
            seq![self.workers[self.slot()]] + self.advance().selections((n - 1) as nat)
        }
    }
}

/// The connected workers, in the order in which they registered, and the cursor
/// of the rotation.
pub struct WorkerPool {
    workers: Vec<WorkerHandle>,
    cursor: usize,
}

impl View for WorkerPool {
    type V = PoolView;

    closed spec fn view(&self) -> PoolView {
        PoolView { workers: self.workers@, cursor: self.cursor as nat }
    }
}

impl WorkerPool {
    /// A pool without workers.
    pub fn new() -> (pool: WorkerPool)
        ensures
            pool@ == PoolView::empty(),
    {
        WorkerPool { workers: Vec::new(), cursor: 0 }
    }

    /// How many workers are registered.
    pub fn len(&self) -> (n: usize)
        ensures
            n == self@.workers.len(),
    {
        self.workers.len()
    }

    /// Whether `handle` is registered.
    pub fn contains(&self, handle: WorkerHandle) -> (found: bool)
        ensures
            found == self@.workers.contains(handle),
    {
        self.position(handle).is_some()
    }

    /// The index of the first occurrence of `handle`.
    fn position(&self, handle: WorkerHandle) -> (at: Option<usize>)
        ensures
            match at {
                Some(i) => i < self@.workers.len() && self@.workers.index_of_first(handle) == Some(
                    i as int,
                ),
                None => self@.workers.index_of_first(handle) is None,
            },
            at is Some == self@.workers.contains(handle),
    {
        let mut i: usize = 0;
        while i < self.workers.len()
            invariant
                i <= self.workers.len(),
                forall|j: int| 0 <= j < i ==> self.workers@[j] != handle,
            decreases self.workers.len() - i,
        {
            if self.workers[i] == handle {
                proof {
                    self.workers@.index_of_first_ensures(handle);
                }
                return Some(i);
            }
            i += 1;
        }
        proof {
            self.workers@.index_of_first_ensures(handle);
        }
        None
    }

    /// Adds `handle` at the end of the pool. Always succeeds; a handle that is
    /// registered twice is in the pool twice.
    pub fn register(&mut self, handle: WorkerHandle)
        ensures
            final(self)@ == old(self)@.register(handle),
    {
        self.workers.push(handle);
    }

    /// Takes the first occurrence of `handle` out of the pool. Does nothing if
    /// `handle` is not registered, so a connection may deregister twice.
    pub fn deregister(&mut self, handle: WorkerHandle)
        ensures
            final(self)@ == old(self)@.deregister(handle),
    {
        match self.position(handle) {
            Some(i) => {
                self.workers.remove(i);
            },
            None => {},
        }
    }

    /// Picks the next worker in rotation and moves the cursor on, in one step.
    /// Fails only if the pool is empty.
    pub fn select_next(&mut self) -> (selected: Result<WorkerHandle, PoolError>)
        ensures
            selected == match old(self)@.selected() {
                Some(handle) => Ok::<WorkerHandle, PoolError>(handle),
                None => Err(PoolError::EmptyPool),
            },
            final(self)@ == old(self)@.advance(),
    {
        let len = self.workers.len();
        if len == 0 {
            return Err(PoolError::EmptyPool);
        }
        let slot = self.cursor % len;
        let handle = self.workers[slot];
        proof {
            lemma_step_folded(self.cursor as int, len as int);
        }
        self.cursor = (slot + 1) % len;
        Ok(handle)
    }
}

/// Moving on from the folded cursor lands where moving on from the cursor does.
proof fn lemma_step_folded(cursor: int, len: int)
    requires
        0 <= cursor,
        0 < len,
    ensures
        (cursor % len + 1) % len == (cursor + 1) % len,
{
    vstd::arithmetic::div_mod::lemma_add_mod_noop(cursor, 1, len);
    vstd::arithmetic::div_mod::lemma_mod_twice(cursor, len);
    vstd::arithmetic::div_mod::lemma_add_mod_noop(cursor % len, 1, len);
}

/// The handles that are registered after `ops`, counted from the operations
/// alone: each registration adds one occurrence of its handle, and each
/// deregistration takes one away if there is one.
pub open spec fn registered(ops: Seq<PoolOp>) -> Multiset<WorkerHandle>
    decreases ops.len(),
{
    if ops.len() == 0 {
        Multiset::empty()
    } else {
        let before = registered(ops.drop_last());
        match ops.last() {
            PoolOp::Register(handle) => before.insert(handle),
            PoolOp::Deregister(handle) => before.remove(handle),
            PoolOp::SelectNext => before,
        }
    }
}

/// Whatever registrations, deregistrations and selections came before, the
/// pool holds exactly the handles that are registered at that moment, a
/// selection returns one of them, and it finds none only if none is registered.
pub proof fn law_selection_is_registered(ops: Seq<PoolOp>)
    ensures
        PoolView::empty().run(ops).workers.to_multiset() == registered(ops),
        match PoolView::empty().run(ops).selected() {
            Some(handle) => registered(ops).count(handle) > 0,
            None => registered(ops).len() == 0,
        },
    decreases ops.len(),
{
    broadcast use vstd::seq_lib::group_to_multiset_ensures;
    broadcast use vstd::multiset::group_multiset_axioms;

    let pool = PoolView::empty().run(ops);
    if ops.len() == 0 {
        assert(pool.workers.to_multiset() =~= registered(ops));
    } else {
        let before = PoolView::empty().run(ops.drop_last());
        law_selection_is_registered(ops.drop_last());
        match ops.last() {
            PoolOp::Register(handle) => {
                assert(pool.workers.to_multiset() =~= registered(ops));
            },
            PoolOp::Deregister(handle) => {
                before.workers.index_of_first_ensures(handle);
                match before.workers.index_of_first(handle) {
                    Some(i) => {
                        assert(pool.workers == before.workers.remove(i));
                    },
                    None => {
                        assert(before.workers.to_multiset().count(handle) == 0);
                        assert(before.workers.to_multiset().remove(handle)
                            =~= before.workers.to_multiset());
                    },
                }
                assert(pool.workers.to_multiset() =~= registered(ops));
            },
            PoolOp::SelectNext => {
                assert(pool.workers == before.workers);
            },
        }
    }
    if pool.workers.len() > 0 {
        let slot = pool.slot();
        vstd::arithmetic::div_mod::lemma_mod_pos_bound(pool.cursor as int, pool.workers.len() as int);
        assert(pool.workers.contains(pool.workers[slot]));
    }
}

/// Deregistering a handle that is in the pool once leaves a pool without it,
/// and a pool without repetitions stays without.
pub proof fn lemma_deregister_removes(pool: PoolView, handle: WorkerHandle)
    requires
        pool.workers.no_duplicates(),
    ensures
        !pool.deregister(handle).workers.contains(handle),
        pool.deregister(handle).workers.no_duplicates(),
{
    let before = pool.workers;
    let after = pool.deregister(handle).workers;
    before.index_of_first_ensures(handle);
    match before.index_of_first(handle) {
        Some(i) => {
            assert(after == before.remove(i));
            assert forall|k: int| 0 <= k < after.len() implies after[k] != handle by {
                if k < i {
                    assert(after[k] == before[k]);
                } else {
                    assert(after[k] == before[k + 1]);
                }
            }
            assert forall|j: int, k: int| 0 <= j < after.len() && 0 <= k < after.len() && j
                != k implies after[j] != after[k] by {
                let from_j = if j < i {
                    j
                } else {
                    j + 1
                };
                let from_k = if k < i {
                    k
                } else {
                    k + 1
                };
                assert(after[j] == before[from_j]);
                assert(after[k] == before[from_k]);
            }
        },
        None => {},
    }
}

/// The `i`-th of `n` selections in a row reads the position `i` steps after
/// the cursor, counted round the pool.
proof fn lemma_selection_at(pool: PoolView, n: nat, i: int)
    requires
        pool.workers.len() > 0,
        0 <= i < n,
    ensures
        pool.selections(n).len() == n,
        pool.selections(n)[i] == pool.workers[(pool.cursor as int + i) % (pool.workers.len() as int)],
    decreases n,
{
    let len = pool.workers.len() as int;
    let c = pool.cursor as int;
    let rest = pool.advance().selections((n - 1) as nat);
    lemma_selections_len(pool.advance(), (n - 1) as nat);
    if i > 0 {
        lemma_selection_at(pool.advance(), (n - 1) as nat, i - 1);
        vstd::arithmetic::div_mod::lemma_add_mod_noop(c + 1, i - 1, len);
        vstd::arithmetic::div_mod::lemma_add_mod_noop(
            (c + 1) % len,
            i - 1,
            len,
        );
        vstd::arithmetic::div_mod::lemma_mod_twice(c + 1, len);
        assert(pool.selections(n)[i] == rest[i - 1]);
    }
}

/// `n` selections return `n` handles.
proof fn lemma_selections_len(pool: PoolView, n: nat)
    requires
        pool.workers.len() > 0,
    ensures
        pool.selections(n).len() == n,
    decreases n,
{
    if n > 0 {
        lemma_selections_len(pool.advance(), (n - 1) as nat);
    }
}

/// Two positions of one round that fold onto the same slot are the same
/// position.
proof fn lemma_rotation_injective(cursor: int, i: int, j: int, len: int)
    requires
        0 < len,
        0 <= i < len,
        0 <= j < len,
        (cursor + i) % len == (cursor + j) % len,
    ensures
        i == j,
{
    vstd::arithmetic::div_mod::lemma_mod_equivalence(cursor + i, cursor + j, len);
    vstd::arithmetic::div_mod::lemma_mod_equivalence(cursor + j, cursor + i, len);
    if i > j {
        vstd::arithmetic::div_mod::lemma_small_mod((i - j) as nat, len as nat);
    } else if j > i {
        vstd::arithmetic::div_mod::lemma_small_mod((j - i) as nat, len as nat);
    }
}

/// Round robin is fair. In a pool of `n` distinct handles, `n` selections in a
/// row go round the pool once from the cursor: they return every handle, none
/// of them twice. The round after it returns the same handles in the same
/// order.
pub proof fn law_round_robin_is_fair(pool: PoolView)
    requires
        pool.workers.len() > 0,
        pool.workers.no_duplicates(),
    ensures
        pool.selections(pool.workers.len()).len() == pool.workers.len(),
        forall|i: int|
            0 <= i < pool.workers.len() ==> #[trigger] pool.selections(pool.workers.len())[i]
                == pool.workers[(pool.cursor as int + i) % (pool.workers.len() as int)],
        pool.selections(pool.workers.len()).no_duplicates(),
        forall|handle: WorkerHandle|
            pool.workers.contains(handle) ==> #[trigger] pool.selections(
                pool.workers.len(),
            ).contains(handle),
        pool.run(Seq::new(pool.workers.len(), |i: int| PoolOp::SelectNext)).selections(
            pool.workers.len(),
        ) == pool.selections(pool.workers.len()),
{
    let n = pool.workers.len();
    let len = n as int;
    let c = pool.cursor as int;
    let picks = pool.selections(n);
    lemma_selections_len(pool, n);
    assert forall|i: int| 0 <= i < n implies #[trigger] picks[i] == pool.workers[(c + i) % len] by {
        lemma_selection_at(pool, n, i);
    }
    assert forall|i: int, j: int| 0 <= i < n && 0 <= j < n && i != j implies picks[i]
        != picks[j] by {
        vstd::arithmetic::div_mod::lemma_mod_pos_bound(c + i, len);
        vstd::arithmetic::div_mod::lemma_mod_pos_bound(c + j, len);
        if (c + i) % len == (c + j) % len {
            lemma_rotation_injective(c, i, j, len);
        }
    }
    assert forall|handle: WorkerHandle| pool.workers.contains(handle) implies picks.contains(
        handle,
    ) by {
        let k = choose|k: int| 0 <= k < pool.workers.len() && pool.workers[k] == handle;
        let i = (k - c) % len;
        vstd::arithmetic::div_mod::lemma_mod_bound(k - c, len);
        vstd::arithmetic::div_mod::lemma_add_mod_noop_right(c, k - c, len);
        vstd::arithmetic::div_mod::lemma_small_mod(k as nat, n);
        assert((c + i) % len == k);
        assert(picks[i] == handle);
    }
    let round = pool.run(Seq::new(n, |i: int| PoolOp::SelectNext));
    let again = round.selections(n);
    lemma_round_returns(pool, n);
    lemma_selections_len(round, n);
    vstd::arithmetic::div_mod::lemma_add_mod_noop_right(c, len, len);
    vstd::arithmetic::div_mod::lemma_mod_self_0(len);
    assert(round.cursor as int % len == c % len);
    assert forall|i: int| 0 <= i < n implies again[i] == picks[i] by {
        lemma_selection_at(round, n, i);
        vstd::arithmetic::div_mod::lemma_add_mod_noop(round.cursor as int, i, len);
        vstd::arithmetic::div_mod::lemma_add_mod_noop(c, i, len);
    }
    assert(again =~= picks);
}

/// After `k` selections the pool holds the same handles, and the cursor stands
/// `k` steps on, counted round the pool.
proof fn lemma_round_returns(pool: PoolView, k: nat)
    requires
        pool.workers.len() > 0,
    ensures
        pool.run(Seq::new(k, |i: int| PoolOp::SelectNext)).workers == pool.workers,
        pool.run(Seq::new(k, |i: int| PoolOp::SelectNext)).cursor as int % (
        pool.workers.len() as int) == (pool.cursor as int + k) % (pool.workers.len() as int),
    decreases k,
{
    let len = pool.workers.len() as int;
    let c = pool.cursor as int;
    let ops = Seq::new(k, |i: int| PoolOp::SelectNext);
    if k > 0 {
        let shorter = Seq::new((k - 1) as nat, |i: int| PoolOp::SelectNext);
        assert(ops.drop_last() =~= shorter);
        lemma_round_returns(pool, (k - 1) as nat);
        let before = pool.run(shorter);
        let b = before.cursor as int;
        assert(pool.run(ops) == before.advance());
        vstd::arithmetic::div_mod::lemma_mod_twice(b + 1, len);
        vstd::arithmetic::div_mod::lemma_add_mod_noop(b, 1, len);
        vstd::arithmetic::div_mod::lemma_add_mod_noop(c + k - 1, 1, len);
        vstd::arithmetic::div_mod::lemma_mod_pos_bound(b + 1, len);
    }
}

} // verus!
