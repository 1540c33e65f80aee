use vstd::prelude::*;
use crate::error::RuntimeError;
use crate::state::{ContainerState, StateView};

verus! {

/// What the store holds: the committed record of each container ID, and at most one
/// record written to its side location and not yet swapped into place.
pub struct StoreView {
    pub records: Map<Seq<char>, StateView>,
    pub staged: Option<StateView>,
}

/// Result of `create`: exclusive, so an ID that has a live record is refused.
pub open spec fn create_result(s: StoreView, v: StateView) -> (Result<(), RuntimeError>, StoreView) {
    if s.records.contains_key(v.id) {
        (Err(RuntimeError::StateConflict), s)
    } else {
        (Ok(()), StoreView { records: s.records.insert(v.id, v), ..s })
    }
}

/// Result of `load`: the committed record, never a staged one.
pub open spec fn load_result(s: StoreView, id: Seq<char>) -> Result<StateView, RuntimeError> {
    if s.records.contains_key(id) {
        Ok(s.records[id])
    } else {
        Err(RuntimeError::StateNotFound)
    }
}

/// Result of writing a record to its side location.
pub open spec fn stage_result(s: StoreView, v: StateView) -> StoreView {
    StoreView { staged: Some(v), ..s }
}

/// Result of the atomic swap: the staged record, if any, replaces the committed one.
pub open spec fn swap_result(s: StoreView) -> StoreView {
    match s.staged {
        Some(v) => StoreView { records: s.records.insert(v.id, v), staged: None },
        None => s,
    }
}

/// Result of a crash, or of a failed write: whatever was staged is lost.
pub open spec fn discard_result(s: StoreView) -> StoreView {
    StoreView { staged: None, ..s }
}

/// Result of `save`: the record is staged, then swapped into place.
pub open spec fn save_result(s: StoreView, v: StateView) -> StoreView {
    swap_result(stage_result(s, v))
}

/// Result of `delete`: the record is removed, or the ID is reported absent.
pub open spec fn delete_result(s: StoreView, id: Seq<char>) -> (Result<(), RuntimeError>, StoreView) {
    if s.records.contains_key(id) {
        (Ok(()), StoreView { records: s.records.remove(id), ..s })
    } else {
        (Err(RuntimeError::StateNotFound), s)
    }
}

pub open spec fn has_id(recs: Seq<ContainerState>, k: Seq<char>) -> bool {
    exists|i: int| 0 <= i < recs.len() && #[trigger] recs[i]@.id == k
}

pub open spec fn ids_unique(recs: Seq<ContainerState>) -> bool {
    forall|i: int, j: int|
        0 <= i < recs.len() && 0 <= j < recs.len() && i != j ==> #[trigger] recs[i]@.id != #[trigger] recs[j]@.id
}

/// The records of a sequence, keyed by ID.
pub open spec fn records_map(recs: Seq<ContainerState>) -> Map<Seq<char>, StateView> {
    Map::new(
        |k: Seq<char>| has_id(recs, k),
        |k: Seq<char>| recs[choose|i: int| 0 <= i < recs.len() && #[trigger] recs[i]@.id == k]@,
    )
}

proof fn lemma_records_map_at(recs: Seq<ContainerState>, i: int)
    requires
        ids_unique(recs),
        0 <= i < recs.len(),
    ensures
        records_map(recs).contains_key(recs[i]@.id),
        records_map(recs)[recs[i]@.id] == recs[i]@,
{
    let k = recs[i]@.id;
    assert(has_id(recs, k));
    let j = choose|j: int| 0 <= j < recs.len() && #[trigger] recs[j]@.id == k;
    assert(recs[j]@.id == k);
}

proof fn lemma_records_push(recs: Seq<ContainerState>, r: ContainerState)
    requires
        ids_unique(recs),
        !has_id(recs, r@.id),
    ensures
        ids_unique(recs.push(r)),
        records_map(recs.push(r)) == records_map(recs).insert(r@.id, r@),
{
    let n = recs.push(r);
    assert forall|i: int, j: int|
        0 <= i < n.len() && 0 <= j < n.len() && i != j implies #[trigger] n[i]@.id != #[trigger] n[j]@.id by {
        if i < recs.len() && j < recs.len() {
            assert(recs[i] == n[i] && recs[j] == n[j]);
        } else if i < recs.len() {
            assert(recs[i] == n[i]);
        } else if j < recs.len() {
            assert(recs[j] == n[j]);
        }
    }
    let m = records_map(recs).insert(r@.id, r@);
    assert forall|k: Seq<char>| #[trigger] records_map(n).contains_key(k) == m.contains_key(k) by {
        if has_id(n, k) {
            let i = choose|i: int| 0 <= i < n.len() && #[trigger] n[i]@.id == k;
            if i < recs.len() {
                assert(recs[i] == n[i]);
                assert(has_id(recs, k));
            }
        }
        if has_id(recs, k) {
            let i = choose|i: int| 0 <= i < recs.len() && #[trigger] recs[i]@.id == k;
            assert(n[i] == recs[i]);
            assert(has_id(n, k));
        }
        if k == r@.id {
            assert(n[recs.len() as int] == r);
            assert(has_id(n, k));
        }
    }
    assert forall|k: Seq<char>| #[trigger] records_map(n).contains_key(k) implies records_map(n)[k] == m[k] by {
        let i = choose|i: int| 0 <= i < n.len() && #[trigger] n[i]@.id == k;
        lemma_records_map_at(n, i);
        if i < recs.len() {
            assert(recs[i] == n[i]);
            lemma_records_map_at(recs, i);
        }
    }
    assert(records_map(n) =~= m);
}

proof fn lemma_records_update(recs: Seq<ContainerState>, i: int, r: ContainerState)
    requires
        ids_unique(recs),
        0 <= i < recs.len(),
        r@.id == recs[i]@.id,
    ensures
        ids_unique(recs.update(i, r)),
        records_map(recs.update(i, r)) == records_map(recs).insert(r@.id, r@),
{
    let n = recs.update(i, r);
    assert forall|a: int, b: int|
        0 <= a < n.len() && 0 <= b < n.len() && a != b implies #[trigger] n[a]@.id != #[trigger] n[b]@.id by {
        assert(n[a]@.id == recs[a]@.id && n[b]@.id == recs[b]@.id);
    }
    let m = records_map(recs).insert(r@.id, r@);
    assert forall|k: Seq<char>| #[trigger] records_map(n).contains_key(k) == m.contains_key(k) by {
        if has_id(n, k) {
            let a = choose|a: int| 0 <= a < n.len() && #[trigger] n[a]@.id == k;
            assert(recs[a]@.id == k);
        }
        if has_id(recs, k) {
            let a = choose|a: int| 0 <= a < recs.len() && #[trigger] recs[a]@.id == k;
            assert(n[a]@.id == k);
        }
        if k == r@.id {
            assert(n[i]@.id == k);
        }
    }
    assert forall|k: Seq<char>| #[trigger] records_map(n).contains_key(k) implies records_map(n)[k] == m[k] by {
        let a = choose|a: int| 0 <= a < n.len() && #[trigger] n[a]@.id == k;
        lemma_records_map_at(n, a);
        if a != i {
            assert(recs[a] == n[a]);
            lemma_records_map_at(recs, a);
        }
    }
    assert(records_map(n) =~= m);
}

proof fn lemma_records_remove(recs: Seq<ContainerState>, i: int)
    requires
        ids_unique(recs),
        0 <= i < recs.len(),
    ensures
        ids_unique(recs.remove(i)),
        records_map(recs.remove(i)) == records_map(recs).remove(recs[i]@.id),
{
    let n = recs.remove(i);
    let id = recs[i]@.id;
    assert forall|a: int| 0 <= a < n.len() implies #[trigger] n[a] == recs[if a < i { a } else { a + 1 }] by {}
    assert forall|a: int, b: int|
        0 <= a < n.len() && 0 <= b < n.len() && a != b implies #[trigger] n[a]@.id != #[trigger] n[b]@.id by {
        assert(n[a] == recs[if a < i { a } else { a + 1 }]);
        assert(n[b] == recs[if b < i { b } else { b + 1 }]);
    }
    let m = records_map(recs).remove(id);
    assert forall|k: Seq<char>| #[trigger] records_map(n).contains_key(k) == m.contains_key(k) by {
        if has_id(n, k) {
            let a = choose|a: int| 0 <= a < n.len() && #[trigger] n[a]@.id == k;
            let o = if a < i { a } else { a + 1 };
            assert(n[a] == recs[o]);
            assert(has_id(recs, k));
        }
        if has_id(recs, k) && k != id {
            let a = choose|a: int| 0 <= a < recs.len() && #[trigger] recs[a]@.id == k;
            let o = if a < i { a } else { a - 1 };
            assert(n[o] == recs[a]);
            assert(has_id(n, k));
        }
    }
    assert forall|k: Seq<char>| #[trigger] records_map(n).contains_key(k) implies records_map(n)[k] == m[k] by {
        let a = choose|a: int| 0 <= a < n.len() && #[trigger] n[a]@.id == k;
        let o = if a < i { a } else { a + 1 };
        assert(n[a] == recs[o]);
        lemma_records_map_at(n, a);
        lemma_records_map_at(recs, o);
    }
    assert(records_map(n) =~= m);
}

/// Saving a record and then loading its ID returns that record unchanged.
pub proof fn lemma_save_then_load(s: StoreView, v: StateView)
    ensures
        load_result(save_result(s, v), v.id) == Ok::<StateView, RuntimeError>(v),
{
}

/// Of two creates with the same ID, on an ID with no live record, exactly one
/// succeeds, the other fails with `StateConflict`, and the stored record is the one
/// the successful caller gave.
pub proof fn lemma_create_exclusive(s: StoreView, a: StateView, b: StateView)
    requires
        a.id == b.id,
        !s.records.contains_key(a.id),
    ensures
        create_result(s, a).0 is Ok,
        create_result(create_result(s, a).1, b).0 == Err::<(), RuntimeError>(RuntimeError::StateConflict),
        load_result(create_result(create_result(s, a).1, b).1, a.id) == Ok::<StateView, RuntimeError>(a),
{
}

/// A crash after a record is written to its side location and before the swap
/// leaves every load as it was: the prior record, or `StateNotFound`.
pub proof fn lemma_crash_before_swap(s: StoreView, v: StateView, id: Seq<char>)
    ensures
        load_result(discard_result(stage_result(s, v)), id) == load_result(s, id),
        load_result(stage_result(s, v), id) == load_result(s, id),
{
}

/// Keyed storage of container records with an exclusive create and a write
/// discipline that stages a record and swaps it into place in one step.
pub struct StateStore {
    records: Vec<ContainerState>,
    staged: Option<ContainerState>,
}

impl View for StateStore {
    type V = StoreView;

    closed spec fn view(&self) -> StoreView {
        StoreView {
            records: records_map(self.records@),
            staged: match self.staged {
                Some(r) => Some(r@),
                None => None,
            },
        }
    }
}

impl StateStore {
    /// The store's internal invariant: one record per ID.
    pub closed spec fn wf(&self) -> bool {
        ids_unique(self.records@)
    }

    /// Each committed record is filed under its own ID.
    pub proof fn lemma_keys_match(&self)
        ensures
            forall|k: Seq<char>| #[trigger] self@.records.contains_key(k) ==> self@.records[k].id == k,
    {
        assert forall|k: Seq<char>| #[trigger] self@.records.contains_key(k) implies self@.records[k].id == k by {
            let i = choose|i: int| 0 <= i < self.records@.len() && #[trigger] self.records@[i]@.id == k;
        }
    }

    /// An empty store.
    pub fn new() -> (r: Self)
        ensures
            r.wf(),
            r@.records == Map::<Seq<char>, StateView>::empty(),
            r@.staged is None,
    {
        let r = StateStore { records: Vec::new(), staged: None };
        assert(records_map(r.records@) =~= Map::<Seq<char>, StateView>::empty());
        r
    }

    fn find(&self, id: &String) -> (r: Option<usize>)
        ensures
            match r {
                Some(i) => i < self.records@.len() && self.records@[i as int]@.id == id@,
                None => !has_id(self.records@, id@),
            },
    {
        let mut i: usize = 0;
        while i < self.records.len()
            invariant
                i <= self.records@.len(),
                forall|j: int| 0 <= j < i ==> #[trigger] self.records@[j]@.id != id@,
            decreases self.records@.len() - i,
        {
            if self.records[i].id().eq(id) {
                return Some(i);
            }
            i = i + 1;
        }
        None
    }

    /// Persists a record for a new ID, refusing an ID that already has a live record.
    pub fn create(&mut self, state: ContainerState) -> (r: Result<(), RuntimeError>)
        requires
            old(self).wf(),
        ensures
            final(self).wf(),
            (r, final(self)@) == create_result(old(self)@, state@),
    {
        match self.find(state.id()) {
            Some(i) => {
                proof { lemma_records_map_at(self.records@, i as int); }
                Err(RuntimeError::StateConflict)
            },
            None => {
                proof { lemma_records_push(self.records@, state); }
                self.records.push(state);
                Ok(())
            },
        }
    }

    /// The committed record for `id`.
    pub fn load(&self, id: &String) -> (r: Result<ContainerState, RuntimeError>)
        requires
            self.wf(),
        ensures
            match (r, load_result(self@, id@)) {
                (Ok(c), Ok(v)) => c@ == v,
                (Err(e), Err(f)) => e == f,
                _ => false,
            },
    {
        match self.find(id) {
            Some(i) => {
                proof { lemma_records_map_at(self.records@, i as int); }
                Ok(self.records[i].copy())
            },
            None => Err(RuntimeError::StateNotFound),
        }
    }

    /// Writes a record to its side location; committed records are untouched.
    pub fn stage(&mut self, state: ContainerState)
        requires
            old(self).wf(),
        ensures
            final(self).wf(),
            final(self)@ == stage_result(old(self)@, state@),
    {
        self.staged = Some(state);
    }

    /// Drops the staged record, as a crash or a failed write does.
    pub fn discard(&mut self)
        requires
            old(self).wf(),
        ensures
            final(self).wf(),
            final(self)@ == discard_result(old(self)@),
    {
        self.staged = None;
    }

    /// Swaps the staged record, if any, into place as a whole.
    pub fn swap(&mut self)
        requires
            old(self).wf(),
        ensures
            final(self).wf(),
            final(self)@ == swap_result(old(self)@),
    {
        let staged = self.staged.take();
        match staged {
            Some(state) => {
                match self.find(state.id()) {
                    Some(i) => {
                        proof { lemma_records_update(self.records@, i as int, state); }
                        self.records[i] = state;
                    },
                    None => {
                        proof { lemma_records_push(self.records@, state); }
                        self.records.push(state);
                    },
                }
            },
            None => {},
        }
    }

    /// Replaces the record for the state's ID as a whole: staged, then swapped.
    pub fn save(&mut self, state: ContainerState)
        requires
            old(self).wf(),
        ensures
            final(self).wf(),
            final(self)@ == save_result(old(self)@, state@),
    {
        self.stage(state);
        self.swap();
    }

    /// The IDs of all committed records.
    pub fn list(&self) -> (r: Vec<String>)
        requires
            self.wf(),
        ensures
            forall|i: int| 0 <= i < r@.len() ==> self@.records.contains_key(#[trigger] r@[i]@),
            forall|k: Seq<char>| #[trigger] self@.records.contains_key(k) ==> exists|i: int| 0 <= i < r@.len() && #[trigger] r@[i]@ == k,
    {
        let mut r: Vec<String> = Vec::new();
        let mut i: usize = 0;
        while i < self.records.len()
            invariant
                i <= self.records@.len(),
                r@.len() == i,
                forall|j: int| 0 <= j < i ==> #[trigger] r@[j]@ == self.records@[j]@.id,
            decreases self.records@.len() - i,
        {
            r.push(self.records[i].id().clone());
            i = i + 1;
        }
        proof {
            assert forall|j: int| 0 <= j < r@.len() implies self@.records.contains_key(#[trigger] r@[j]@) by {
                assert(self.records@[j]@.id == r@[j]@);
            }
            assert forall|k: Seq<char>| #[trigger] self@.records.contains_key(k) implies exists|j: int| 0 <= j < r@.len() && #[trigger] r@[j]@ == k by {
                let j = choose|j: int| 0 <= j < self.records@.len() && #[trigger] self.records@[j]@.id == k;
                assert(r@[j]@ == k);
            }
        }
        r
    }

    /// Removes the record for `id`. Deleting an absent ID is reported as
    /// `StateNotFound`, not ignored.
    pub fn delete(&mut self, id: &String) -> (r: Result<(), RuntimeError>)
        requires
            old(self).wf(),
        ensures
            final(self).wf(),
            (r, final(self)@) == delete_result(old(self)@, id@),
    {
        match self.find(id) {
            Some(i) => {
                proof { lemma_records_remove(self.records@, i as int); }
                self.records.remove(i);
                Ok(())
            },
            None => Err(RuntimeError::StateNotFound),
        }
    }
}

} // verus!
