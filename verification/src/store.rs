//! Ownership-scoped storage pattern.
//!
//! Every protected resource carries an immutable owner set at creation time
//! from the caller's verified identity.  All reads, updates and deletions
//! filter by resource id *and* owner in one atomic operation, so a record
//! that exists but belongs to another tenant is indistinguishable from one
//! that does not exist.  Partial updates merge: only fields present in the
//! patch change.  The pattern is expressed once, generically, so that no
//! resource type can forget the owner filter.

use vstd::prelude::*;
use crate::errors::AppError;

verus! {

/// A partial update over payloads of type `T`: only the fields present in
/// the patch change when it is applied.
pub trait Patch<T: View>: Sized {
    /// The payload after applying this patch.
    spec fn spec_apply(&self, cur: T::V) -> T::V;

    /// Whether the patch sets no field at all.
    spec fn spec_is_empty(&self) -> bool;

    /// Apply the patch to a payload.
    fn apply(&self, cur: &T) -> (r: T)
        ensures
            r@ == self.spec_apply(cur@),
    ;

    /// Whether the patch sets no field.
    fn is_empty(&self) -> (b: bool)
        ensures
            b == self.spec_is_empty(),
    ;

    /// An empty patch changes nothing.
    proof fn empty_patch_is_identity(&self, cur: T::V)
        requires
            self.spec_is_empty(),
        ensures
            self.spec_apply(cur) == cur,
    ;
}

/// One stored record: an owned payload with its ownership link and
/// timestamps.
pub struct OwnedRecord<T> {
    /// Unique record identifier.
    pub id: u64,
    /// The subject that owns the record; set at creation, never mutated.
    pub owner: u64,
    /// Creation time (Unix seconds).
    pub created_at: u64,
    /// Time of the last update (Unix seconds).
    pub updated_at: u64,
    /// The resource payload.
    pub data: T,
}

/// Mathematical view of a stored record.
pub struct RecordView<V> {
    /// Unique record identifier.
    pub id: u64,
    /// The owning subject.
    pub owner: u64,
    /// Creation time (Unix seconds).
    pub created_at: u64,
    /// Time of the last update (Unix seconds).
    pub updated_at: u64,
    /// View of the payload.
    pub data: V,
}

impl<T: View> View for OwnedRecord<T> {
    type V = RecordView<T::V>;

    open spec fn view(&self) -> RecordView<T::V> {
        RecordView {
            id: self.id,
            owner: self.owner,
            created_at: self.created_at,
            updated_at: self.updated_at,
            data: self.data@,
        }
    }
}

/// Whether some record in `s` has this id under this owner.
pub open spec fn has_match<V>(s: Seq<RecordView<V>>, id: u64, owner: u64) -> bool {
    exists|i: int| 0 <= i < s.len() && (#[trigger] s[i]).id == id && s[i].owner == owner
}

/// The index of the record with this id under this owner (meaningful only
/// when `has_match` holds and ids are distinct).
pub open spec fn match_idx<V>(s: Seq<RecordView<V>>, id: u64, owner: u64) -> int {
    choose|i: int| 0 <= i < s.len() && (#[trigger] s[i]).id == id && s[i].owner == owner
}

/// Whether all record ids in `s` are distinct.
pub open spec fn ids_distinct<V>(s: Seq<RecordView<V>>) -> bool {
    forall|i: int, j: int| 0 <= i < j < s.len()
        ==> (#[trigger] s[i]).id != (#[trigger] s[j]).id
}

/// `rec` with its payload replaced and its update time set.
pub open spec fn patched_rec<V>(rec: RecordView<V>, data: V, now: u64) -> RecordView<V> {
    RecordView { id: rec.id, owner: rec.owner, created_at: rec.created_at, updated_at: now, data }
}

/// The stable listing order: creation time descending, ties broken by id
/// ascending.  A strict total order on records with distinct ids.
pub open spec fn act_before<V>(x: RecordView<V>, y: RecordView<V>) -> bool {
    x.created_at > y.created_at || (x.created_at == y.created_at && x.id < y.id)
}

/// Law: ownership scoping.  A record whose owner is not `other` is
/// invisible under `other`'s identity: no (id, owner) match exists, so by
/// the store's contracts a read returns nothing, and an update or a delete
/// under `other` leaves the store unchanged and reports a missing record.
pub proof fn lemma_cross_tenant_isolation<V>(s: Seq<RecordView<V>>, i: int, other: u64)
    requires
        ids_distinct(s),
        0 <= i < s.len(),
        s[i].owner != other,
    ensures
        !has_match(s, s[i].id, other),
{
    assert forall|j: int| 0 <= j < s.len() && (#[trigger] s[j]).id == s[i].id
        implies s[j].owner != other by {
        if j != i {
            assert(s[i].id != s[j].id);
        }
    }
}

/// Law: the listing order is deterministic.  Two listings that hold the
/// same records and are both sorted by the stable key (creation time
/// descending, ties by id ascending) are equal, element for element.
pub proof fn lemma_listing_deterministic<V>(a: Seq<RecordView<V>>, b: Seq<RecordView<V>>)
    requires
        forall|i: int, j: int| 0 <= i < j < a.len()
            ==> act_before(#[trigger] a[i], #[trigger] a[j]),
        forall|i: int, j: int| 0 <= i < j < b.len()
            ==> act_before(#[trigger] b[i], #[trigger] b[j]),
        forall|x: RecordView<V>| a.contains(x) <==> b.contains(x),
    ensures
        a == b,
    decreases a.len(),
{
    if a.len() == 0 {
        if b.len() > 0 {
            assert(b.contains(b[0]));
            assert(a.contains(b[0]));
        }
        assert(a =~= b);
    } else {
        assert(a.contains(a[0]));
        assert(b.contains(a[0]));
        let k = choose|k: int| 0 <= k < b.len() && b[k] == a[0];
        if k > 0 {
            assert(b.contains(b[0]));
            assert(a.contains(b[0]));
            let m = choose|m: int| 0 <= m < a.len() && a[m] == b[0];
            assert(act_before(b[0], b[k]));
            if m == 0 {
                assert(act_before(a[0], a[0]));
            } else {
                assert(act_before(a[0], a[m]));
            }
            assert(false);
        }
        assert(b.len() > 0 && b[0] == a[0]);
        let at = a.drop_first();
        let bt = b.drop_first();
        assert(forall|i: int| 0 <= i < at.len() ==> #[trigger] at[i] == a[i + 1]);
        assert(forall|i: int| 0 <= i < bt.len() ==> #[trigger] bt[i] == b[i + 1]);
        assert forall|x: RecordView<V>| at.contains(x) <==> bt.contains(x) by {
            if at.contains(x) {
                let i = choose|i: int| 0 <= i < at.len() && at[i] == x;
                assert(a[i + 1] == x);
                assert(act_before(a[0], x));
                assert(a.contains(x));
                assert(b.contains(x));
                let n = choose|n: int| 0 <= n < b.len() && b[n] == x;
                if n == 0 {
                    assert(act_before(a[0], a[0]));
                    assert(false);
                }
                assert(bt[n - 1] == x);
                assert(bt.contains(x));
            }
            if bt.contains(x) {
                let i = choose|i: int| 0 <= i < bt.len() && bt[i] == x;
                assert(b[i + 1] == x);
                assert(act_before(b[0], x));
                assert(b.contains(x));
                assert(a.contains(x));
                let n = choose|n: int| 0 <= n < a.len() && a[n] == x;
                if n == 0 {
                    assert(act_before(b[0], b[0]));
                    assert(false);
                }
                assert(at[n - 1] == x);
                assert(at.contains(x));
            }
        }
        lemma_listing_deterministic(at, bt);
        assert forall|i: int| 0 <= i < a.len() implies a[i] == b[i] by {
            if i > 0 {
                assert(at[i - 1] == a[i]);
                assert(bt[i - 1] == b[i]);
                assert(at[i - 1] == bt[i - 1]);
            }
        }
        assert(a.len() == b.len());
        assert(a =~= b);
    }
}

proof fn lemma_match_unique<V>(s: Seq<RecordView<V>>, id: u64, owner: u64, i: int)
    requires
        ids_distinct(s),
        0 <= i < s.len(),
        s[i].id == id,
        s[i].owner == owner,
    ensures
        has_match(s, id, owner),
        match_idx(s, id, owner) == i,
{
    assert(has_match(s, id, owner));
    let j = match_idx(s, id, owner);
    assert(0 <= j < s.len() && s[j].id == id && s[j].owner == owner);
    if i != j {
        if i < j {
            assert(s[i].id != s[j].id);
        } else {
            assert(s[j].id != s[i].id);
        }
    }
}

/// Records already listed come from store positions before `idx`, so their
/// ids differ from the id at `idx`.
proof fn lemma_out_ids_differ<T: View>(
    prev: Seq<&OwnedRecord<T>>,
    s: Seq<RecordView<T::V>>,
    idx: int,
    owner: u64,
    cand: &OwnedRecord<T>,
)
    requires
        ids_distinct(s),
        0 <= idx < s.len(),
        cand@ == s[idx],
        forall|i: int| 0 <= i < prev.len() ==> (#[trigger] prev[i])@.owner == owner
            && exists|j: int| 0 <= j < idx && prev[i]@ == #[trigger] s[j],
    ensures
        forall|q: int| 0 <= q < prev.len() ==> (#[trigger] prev[q])@.id != cand@.id,
{
    assert forall|q: int| 0 <= q < prev.len()
        implies (#[trigger] prev[q])@.id != cand@.id by {
        let j = choose|j: int| 0 <= j < idx && prev[q]@ == #[trigger] s[j];
        assert(s[j].id != s[idx].id);
    }
}

proof fn lemma_insert_keeps_membership<T: View>(
    prev: Seq<&OwnedRecord<T>>,
    newout: Seq<&OwnedRecord<T>>,
    cand: &OwnedRecord<T>,
    s: Seq<RecordView<T::V>>,
    idx: int,
    owner: u64,
    p: int,
)
    requires
        0 <= p <= prev.len(),
        newout == prev.insert(p, cand),
        0 <= idx < s.len(),
        cand@ == s[idx],
        cand@.owner == owner,
        forall|i: int| 0 <= i < prev.len() ==> (#[trigger] prev[i])@.owner == owner
            && exists|j: int| 0 <= j < idx && prev[i]@ == #[trigger] s[j],
        forall|j: int| 0 <= j < idx && (#[trigger] s[j]).owner == owner
            ==> exists|i: int| 0 <= i < prev.len() && (#[trigger] prev[i])@ == s[j],
    ensures
        forall|i: int| 0 <= i < newout.len() ==> (#[trigger] newout[i])@.owner == owner
            && exists|j: int| 0 <= j < idx + 1 && newout[i]@ == #[trigger] s[j],
        forall|j: int| 0 <= j < idx + 1 && (#[trigger] s[j]).owner == owner
            ==> exists|i: int| 0 <= i < newout.len() && (#[trigger] newout[i])@ == s[j],
{
    prev.insert_ensures(p, cand);
    assert forall|i: int| 0 <= i < newout.len()
        implies ((#[trigger] newout[i])@.owner == owner
            && exists|j: int| 0 <= j < idx + 1 && newout[i]@ == s[j]) by {
        if i < p {
            assert(newout[i] == prev[i]);
            let j = choose|j: int| 0 <= j < idx && prev[i]@ == #[trigger] s[j];
            assert(0 <= j < idx + 1 && newout[i]@ == s[j]);
        } else if i == p {
            assert(newout[i] == cand);
            assert(0 <= idx < idx + 1 && newout[i]@ == s[idx]);
        } else {
            assert(newout[i] == prev[i - 1]);
            let j = choose|j: int| 0 <= j < idx && prev[i - 1]@ == #[trigger] s[j];
            assert(0 <= j < idx + 1 && newout[i]@ == s[j]);
        }
    }
    assert forall|j: int| 0 <= j < idx + 1 && (#[trigger] s[j]).owner == owner
        implies exists|i: int| 0 <= i < newout.len()
            && (#[trigger] newout[i])@ == s[j] by {
        if j < idx {
            let i = choose|i: int| 0 <= i < prev.len() && (#[trigger] prev[i])@ == s[j];
            if i < p {
                assert(newout[i]@ == s[j]);
            } else {
                assert(newout[i + 1]@ == s[j]);
            }
        } else {
            assert(newout[p]@ == s[j]);
        }
    }
}

/// A collection of owned records with unique ids, the single generic
/// carrier of the ownership-scoped access pattern.
pub struct OwnedStore<T> {
    records: Vec<OwnedRecord<T>>,
    next_id: u64,
}

impl<T: View> View for OwnedStore<T> {
    type V = Seq<RecordView<T::V>>;

    closed spec fn view(&self) -> Seq<RecordView<T::V>> {
        Seq::new(self.records@.len(), |i: int| self.records@[i]@)
    }
}

impl<T: View> OwnedStore<T> {
    /// The next id the store will assign.
    pub closed spec fn spec_next_id(&self) -> u64 {
        self.next_id
    }

    /// Well-formedness: record ids are distinct and below the next id.
    pub open spec fn wf(&self) -> bool {
        &&& ids_distinct(self@)
        &&& forall|i: int| 0 <= i < self@.len() ==> (#[trigger] self@[i]).id < self.spec_next_id()
    }

    /// An empty store.
    pub fn new() -> (s: Self)
        ensures
            s.wf(),
            s@ =~= Seq::<RecordView<T::V>>::empty(),
            s.spec_next_id() == 0,
    {
        OwnedStore { records: Vec::new(), next_id: 0 }
    }

    /// Number of records held.
    pub fn len(&self) -> (n: usize)
        ensures
            n == self@.len(),
    {
        self.records.len()
    }

    /// Create a record owned by `owner`: the owner is taken from the
    /// caller's verified identity unconditionally, never from the payload.
    pub fn create_owned(&mut self, owner: u64, data: T, now: u64) -> (r: Result<u64, AppError>)
        requires
            old(self).wf(),
        ensures
            final(self).wf(),
            r matches Ok(id) ==> ({
                &&& id == old(self).spec_next_id()
                &&& final(self)@ =~= old(self)@.push(
                    (RecordView {
                        id,
                        owner,
                        created_at: now,
                        updated_at: now,
                        data: data@,
                    }))
                &&& final(self).spec_next_id() == old(self).spec_next_id() + 1
            }),
            r is Err ==> final(self)@ == old(self)@,
            r matches Err(e) ==> e is Internal,
            r is Err <==> old(self).spec_next_id() == u64::MAX,
    {
        if self.next_id == u64::MAX {
            return Err(AppError::Internal("Record id space exhausted".to_owned()));
        }
        let id = self.next_id;
        let rec = OwnedRecord { id, owner, created_at: now, updated_at: now, data };
        self.records.push(rec);
        self.next_id = id + 1;
        proof {
            assert(self@ =~= old(self)@.push(
                (RecordView { id, owner, created_at: now, updated_at: now, data: data@ })));
        }
        Ok(id)
    }

    /// Index of the record with this id under this owner, if any.
    fn find_index(&self, id: u64, owner: u64) -> (r: Option<usize>)
        requires
            self.wf(),
        ensures
            r matches Some(i) ==> i < self@.len()
                && self@[i as int].id == id && self@[i as int].owner == owner
                && match_idx(self@, id, owner) == i && has_match(self@, id, owner),
            r is None ==> !has_match(self@, id, owner),
    {
        let n = self.records.len();
        let mut i: usize = 0;
        while i < n
            invariant
                0 <= i <= n == self@.len(),
                self.wf(),
                forall|j: int| 0 <= j < i
                    ==> !((#[trigger] self@[j]).id == id && self@[j].owner == owner),
            decreases n - i,
        {
            if self.records[i].id == id && self.records[i].owner == owner {
                proof {
                    lemma_match_unique(self@, id, owner, i as int);
                }
                return Some(i);
            }
            i = i + 1;
        }
        None
    }

    /// Read the record with this id under this owner.  A record owned by
    /// another subject and an absent record give the same answer.
    pub fn find_owned(&self, id: u64, owner: u64) -> (r: Option<&OwnedRecord<T>>)
        requires
            self.wf(),
        ensures
            r matches Some(rec) ==> has_match(self@, id, owner)
                && rec@ == self@[match_idx(self@, id, owner)]
                && rec@.id == id && rec@.owner == owner,
            r is None ==> !has_match(self@, id, owner),
    {
        match self.find_index(id, owner) {
            Some(i) => Some(&self.records[i]),
            None => None,
        }
    }

    /// Apply a partial update to the record with this id under this owner.
    /// Only fields present in the patch change; an empty patch reads the
    /// current record back without touching the store; a missing or
    /// foreign-owned record leaves the store unchanged.
    pub fn update_owned<P: Patch<T>>(
        &mut self,
        id: u64,
        owner: u64,
        patch: &P,
        now: u64,
    ) -> (r: Option<&OwnedRecord<T>>)
        requires
            old(self).wf(),
        ensures
            final(self).wf(),
            final(self).spec_next_id() == old(self).spec_next_id(),
            !has_match(old(self)@, id, owner) ==> r is None && final(self)@ == old(self)@,
            has_match(old(self)@, id, owner) ==> r is Some,
            patch.spec_is_empty() ==> final(self)@ == old(self)@,
            (has_match(old(self)@, id, owner) && !patch.spec_is_empty()) ==> final(self)@
                =~= old(self)@.update(
                    match_idx(old(self)@, id, owner),
                    patched_rec(
                        old(self)@[match_idx(old(self)@, id, owner)],
                        patch.spec_apply(old(self)@[match_idx(old(self)@, id, owner)].data),
                        now,
                    ),
                ),
            r matches Some(rec) ==> has_match(old(self)@, id, owner)
                && rec@ == final(self)@[match_idx(old(self)@, id, owner)],
    {
        let i = match self.find_index(id, owner) {
            Some(i) => i,
            None => {
                return None;
            },
        };
        if patch.is_empty() {
            return Some(&self.records[i]);
        }
        let rec = self.records.remove(i);
        let new_rec = OwnedRecord {
            id: rec.id,
            owner: rec.owner,
            created_at: rec.created_at,
            updated_at: now,
            data: patch.apply(&rec.data),
        };
        self.records.insert(i, new_rec);
        proof {
            assert(final(self)@ =~= old(self)@.update(
                i as int,
                patched_rec(
                    old(self)@[i as int],
                    patch.spec_apply(old(self)@[i as int].data),
                    now,
                ),
            ));
            assert(forall|j: int| 0 <= j < final(self)@.len()
                ==> (#[trigger] final(self)@[j]).id == old(self)@[j].id);
        }
        Some(&self.records[i])
    }

    /// Delete the record with this id under this owner; report whether a
    /// record was removed.  Nothing is mutated when no such record exists
    /// under this owner.
    pub fn delete_owned(&mut self, id: u64, owner: u64) -> (r: bool)
        requires
            old(self).wf(),
        ensures
            final(self).wf(),
            final(self).spec_next_id() == old(self).spec_next_id(),
            r == has_match(old(self)@, id, owner),
            !r ==> final(self)@ == old(self)@,
            r ==> final(self)@ =~= old(self)@.remove(match_idx(old(self)@, id, owner)),
    {
        match self.find_index(id, owner) {
            Some(i) => {
                self.records.remove(i);
                proof {
                    assert(final(self)@ =~= old(self)@.remove(i as int));
                }
                true
            },
            None => false,
        }
    }

    /// All records of `owner`, in the stable listing order: creation time
    /// descending, ties broken by id ascending.
    #[verifier::rlimit(100)]
    pub fn list_owned(&self, owner: u64) -> (r: Vec<&OwnedRecord<T>>)
        requires
            self.wf(),
        ensures
            forall|i: int| 0 <= i < r@.len() ==> (#[trigger] r@[i])@.owner == owner
                && exists|j: int| 0 <= j < self@.len() && r@[i]@ == #[trigger] self@[j],
            forall|j: int| 0 <= j < self@.len() && (#[trigger] self@[j]).owner == owner
                ==> exists|i: int| 0 <= i < r@.len() && (#[trigger] r@[i])@ == self@[j],
            forall|i: int, j: int| 0 <= i < j < r@.len()
                ==> act_before((#[trigger] r@[i])@, (#[trigger] r@[j])@),
    {
        let n = self.records.len();
        let mut out: Vec<&OwnedRecord<T>> = Vec::new();
        let mut idx: usize = 0;
        while idx < n
            invariant
                0 <= idx <= n,
                n == self@.len(),
                self.wf(),
                forall|i: int| 0 <= i < out@.len() ==> (#[trigger] out@[i])@.owner == owner
                    && exists|j: int| 0 <= j < idx && out@[i]@ == #[trigger] self@[j],
                forall|j: int| 0 <= j < idx && (#[trigger] self@[j]).owner == owner
                    ==> exists|i: int| 0 <= i < out@.len() && (#[trigger] out@[i])@ == self@[j],
                forall|i: int, j: int| 0 <= i < j < out@.len()
                    ==> act_before((#[trigger] out@[i])@, (#[trigger] out@[j])@),
            decreases n - idx,
        {
            let cand: &OwnedRecord<T> = &self.records[idx];
            if cand.owner == owner {
                let ghost prev = out@;
                proof {
                    assert(cand@ == self@[idx as int]);
                    lemma_out_ids_differ(prev, self@, idx as int, owner, cand);
                }
                let p = insert_in_order(&mut out, cand);
                proof {
                    lemma_insert_keeps_membership(
                        prev, out@, cand, self@, idx as int, owner, p as int);
                }
            } else {
                // nothing was listed: the records listed so far keep their
                // witnesses, which also lie before the new idx
                proof {
                    assert forall|i: int| 0 <= i < out@.len()
                        implies ((#[trigger] out@[i])@.owner == owner
                            && exists|j: int| 0 <= j < idx + 1
                                && out@[i]@ == #[trigger] self@[j]) by {
                        let j = choose|j: int| 0 <= j < idx && out@[i]@ == #[trigger] self@[j];
                        assert(0 <= j < idx + 1 && out@[i]@ == self@[j]);
                    }
                }
            }
            proof {
                assert(forall|i: int| 0 <= i < out@.len()
                    ==> (#[trigger] out@[i])@.owner == owner
                        && exists|j: int| 0 <= j < idx + 1 && out@[i]@ == #[trigger] self@[j]);
            }
            idx = idx + 1;
        }
        out
    }
}

/// Insert `cand` into a list that is sorted by the stable listing order,
/// keeping it sorted; `cand`'s id must not already occur in the list.
#[verifier::loop_isolation(false)]
#[verifier::rlimit(30)]
fn insert_in_order<'a, T: View>(
    out: &mut Vec<&'a OwnedRecord<T>>,
    cand: &'a OwnedRecord<T>,
) -> (p: usize)
    requires
        forall|i: int, j: int| 0 <= i < j < old(out)@.len()
            ==> act_before((#[trigger] old(out)@[i])@, (#[trigger] old(out)@[j])@),
        forall|q: int| 0 <= q < old(out)@.len() ==> (#[trigger] old(out)@[q])@.id != cand@.id,
    ensures
        p <= old(out)@.len(),
        final(out)@ == old(out)@.insert(p as int, cand),
        forall|i: int, j: int| 0 <= i < j < final(out)@.len()
            ==> act_before((#[trigger] final(out)@[i])@, (#[trigger] final(out)@[j])@),
{
    let ghost prev = out@;
    let mut p: usize = 0;
    while p < out.len() && rec_before(out[p], cand)
        invariant
            0 <= p <= out@.len(),
            out@ == prev,
            forall|i: int| 0 <= i < p ==> act_before((#[trigger] out@[i])@, cand@),
        decreases out@.len() - p,
    {
        p = p + 1;
    }
    proof {
        assert forall|q: int| p <= q < out@.len()
            implies act_before(cand@, (#[trigger] out@[q])@) by {
            if p < out@.len() {
                assert(!act_before(out@[p as int]@, cand@));
                assert(act_before(cand@, out@[p as int]@));
                if q > p {
                    assert(act_before(out@[p as int]@, out@[q]@));
                }
            }
        }
    }
    out.insert(p, cand);
    proof {
        prev.insert_ensures(p as int, cand);
        assert forall|i: int, j: int| 0 <= i < j < out@.len()
            implies act_before((#[trigger] out@[i])@, (#[trigger] out@[j])@) by {
            if j < p {
                assert(out@[i] == prev[i] && out@[j] == prev[j]);
            } else if j == p {
                assert(out@[i] == prev[i] && out@[j] == cand);
            } else if i < p {
                assert(out@[i] == prev[i] && out@[j] == prev[j - 1]);
            } else if i == p {
                assert(out@[i] == cand && out@[j] == prev[j - 1]);
            } else {
                assert(out@[i] == prev[i - 1] && out@[j] == prev[j - 1]);
            }
        }
    }
    p
}

/// Whether `x` comes before `y` in the stable listing order.
fn rec_before<T: View>(x: &OwnedRecord<T>, y: &OwnedRecord<T>) -> (b: bool)
    ensures
        b == act_before(x@, y@),
{
    x.created_at > y.created_at || (x.created_at == y.created_at && x.id < y.id)
}

} // verus!
