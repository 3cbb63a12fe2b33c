//! The metadata ledger: a mapping from file id to record, held as a vector
//! with pairwise-distinct ids.

use vstd::prelude::*;
use crate::record::{FileRecord, mark_deleted, mark_restored};

verus! {

/// Ids are pairwise distinct.
pub open spec fn ids_unique(s: Seq<FileRecord>) -> bool {
    forall|i: int, j: int| 0 <= i < j < s.len() ==> s[i].id@ != s[j].id@
}

/// Some record in `s` carries the id.
pub open spec fn contains_id(s: Seq<FileRecord>, id: Seq<char>) -> bool {
    exists|i: int| 0 <= i < s.len() && s[i].id@ == id
}

/// The index of the record carrying `id`; meaningful only when the id is
/// present and ids are unique.
pub open spec fn idx_of(s: Seq<FileRecord>, id: Seq<char>) -> int {
    choose|i: int| 0 <= i < s.len() && s[i].id@ == id
}

/// Every record is well formed and ids are pairwise distinct.
pub open spec fn records_wf(s: Seq<FileRecord>) -> bool {
    &&& ids_unique(s)
    &&& forall|i: int| 0 <= i < s.len() ==> (#[trigger] s[i]).wf()
}

/// Map semantics of an insert keyed by `rec.id`: replace the record that
/// carries the same id, or append the record when the id is fresh.
pub open spec fn spec_insert(s: Seq<FileRecord>, rec: FileRecord) -> Seq<FileRecord> {
    if contains_id(s, rec.id@) {
        s.update(idx_of(s, rec.id@), rec)
    } else {
        s.push(rec)
    }
}

/// The ledger after a soft delete of `id` at time `now`; meaningful only when
/// the id is present.
pub open spec fn spec_delete(s: Seq<FileRecord>, id: Seq<char>, now: String) -> Seq<FileRecord> {
    s.update(idx_of(s, id), mark_deleted(s[idx_of(s, id)], now))
}

/// The ledger after a restore of `id`; meaningful only when the id is present.
pub open spec fn spec_restore(s: Seq<FileRecord>, id: Seq<char>) -> Seq<FileRecord> {
    s.update(idx_of(s, id), mark_restored(s[idx_of(s, id)]))
}

/// The records of `owner` whose soft-delete flag equals `deleted`, in ledger
/// order.
pub open spec fn spec_list(s: Seq<FileRecord>, owner: Seq<char>, deleted: bool) -> Seq<FileRecord>
    decreases s.len(),
{
    if s.len() == 0 {
        Seq::empty()
    } else {
        let rest = spec_list(s.drop_last(), owner, deleted);
        if s.last().owner@ == owner && s.last().is_deleted == deleted {
            rest.push(s.last())
        } else {
            rest
        }
    }
}

/// The ledger after `owner`'s recycle bin is emptied: every soft-deleted
/// record of that owner is removed, everything else is kept in order.
pub open spec fn spec_purge(s: Seq<FileRecord>, owner: Seq<char>) -> Seq<FileRecord>
    decreases s.len(),
{
    if s.len() == 0 {
        Seq::empty()
    } else {
        let rest = spec_purge(s.drop_last(), owner);
        if s.last().owner@ == owner && s.last().is_deleted {
            rest
        } else {
            rest.push(s.last())
        }
    }
}

/// The durable record set. Every command loads one, mutates or queries it,
/// and saves it back when it mutated.
pub struct Ledger {
    pub records: Vec<FileRecord>,
}

impl View for Ledger {
    type V = Seq<FileRecord>;

    open spec fn view(&self) -> Seq<FileRecord> {
        self.records@
    }
}

impl Ledger {
    /// Ids are pairwise distinct and every record's flags agree.
    pub open spec fn wf(self) -> bool {
        records_wf(self@)
    }

    /// The empty ledger, used when no durable copy exists.
    pub fn new() -> (l: Ledger)
        ensures
            l.wf(),
            l@ == Seq::<FileRecord>::empty(),
    {
        Ledger { records: Vec::new() }
    }

    /// Adopts a loaded record set when it is well formed; a malformed set is
    /// replaced by the empty ledger.
    pub fn from_records(records: Vec<FileRecord>) -> (l: Ledger)
        ensures
            l.wf(),
            records_wf(records@) ==> l@ == records@,
            !records_wf(records@) ==> l@ == Seq::<FileRecord>::empty(),
    {
        let n = records.len();
        let mut i: usize = 0;
        while i < n
            invariant
                n == records@.len(),
                i <= n,
                forall|k: int| 0 <= k < i ==> (#[trigger] records@[k]).wf(),
                forall|k: int, j: int| 0 <= k < i && k < j < n ==> records@[k].id@ != records@[j].id@,
            decreases n - i,
        {
            let r = &records[i];
            if r.is_deleted != r.deleted_at.is_some() {
                return Ledger { records: Vec::new() };
            }
            let mut j: usize = i + 1;
            while j < n
                invariant
                    n == records@.len(),
                    i < j <= n,
                    i < n,
                    forall|k: int| i < k < j ==> records@[i as int].id@ != (#[trigger] records@[k]).id@,
                decreases n - j,
            {
                if records[i].id == records[j].id {
                    return Ledger { records: Vec::new() };
                }
                j += 1;
            }
            i += 1;
        }
        Ledger { records }
    }

    /// The number of records, deleted ones included.
    pub fn len(&self) -> (n: usize)
        ensures
            n == self@.len(),
    {
        self.records.len()
    }

    /// The index of the record carrying `id`, when one exists.
    fn find(&self, id: &String) -> (r: Option<usize>)
        ensures
            match r {
                Some(i) => i < self@.len() && self@[i as int].id@ == id@,
                None => !contains_id(self@, id@),
            },
    {
        let n = self.records.len();
        let mut i: usize = 0;
        while i < n
            invariant
                n == self@.len(),
                i <= n,
                forall|k: int| 0 <= k < i ==> (#[trigger] self@[k]).id@ != id@,
            decreases n - i,
        {
            if self.records[i].id == *id {
                return Some(i);
            }
            i += 1;
        }
        None
    }

    /// Whether a record with this id exists, deleted or not.
    pub fn contains(&self, id: &String) -> (b: bool)
        ensures
            b == contains_id(self@, id@),
    {
        self.find(id).is_some()
    }

    /// Inserts the record under its own id: an existing record with the same
    /// id is replaced, otherwise the record is appended.
    pub fn insert(&mut self, rec: FileRecord)
        requires
            old(self).wf(),
            rec.wf(),
        ensures
            final(self).wf(),
            final(self)@ == spec_insert(old(self)@, rec),
    {
        let idx = self.find(&rec.id);
        match idx {
            Some(i) => {
                proof {
                    lemma_idx_of_unique(self@, rec.id@, i as int);
                }
                self.records[i] = rec;
                proof {
                    assert forall|p: int, q: int| 0 <= p < q < self@.len()
                        implies self@[p].id@ != self@[q].id@ by {
                        assert(old(self)@[p].id@ != old(self)@[q].id@);
                    }
                }
            },
            None => {
                self.records.push(rec);
                proof {
                    assert forall|p: int, q: int| 0 <= p < q < self@.len()
                        implies self@[p].id@ != self@[q].id@ by {
                        if q < self@.len() - 1 {
                            assert(old(self)@[p].id@ != old(self)@[q].id@);
                        } else {
                            assert(!contains_id(old(self)@, rec.id@));
                            assert(old(self)@[p].id@ != rec.id@);
                        }
                    }
                }
            },
        }
    }

    /// Soft-deletes the record carrying `id`, stamping `now` as its deletion
    /// time; reports whether the id was found. An absent id changes nothing.
    pub fn delete(&mut self, id: &String, now: String) -> (found: bool)
        requires
            old(self).wf(),
        ensures
            final(self).wf(),
            found == contains_id(old(self)@, id@),
            found ==> final(self)@ == spec_delete(old(self)@, id@, now),
            !found ==> final(self)@ == old(self)@,
    {
        let idx = self.find(id);
        match idx {
            Some(i) => {
                proof {
                    lemma_idx_of_unique(self@, id@, i as int);
                }
                let mut r = self.records[i].clone();
                r.is_deleted = true;
                r.deleted_at = Some(now);
                self.records[i] = r;
                proof {
                    lemma_update_same_id_wf(old(self)@, self@, i as int);
                }
                true
            },
            None => false,
        }
    }

    /// Restores the record carrying `id`, clearing its deletion time; reports
    /// whether the id was found. An absent id changes nothing.
    pub fn restore(&mut self, id: &String) -> (found: bool)
        requires
            old(self).wf(),
        ensures
            final(self).wf(),
            found == contains_id(old(self)@, id@),
            found ==> final(self)@ == spec_restore(old(self)@, id@),
            !found ==> final(self)@ == old(self)@,
    {
        let idx = self.find(id);
        match idx {
            Some(i) => {
                proof {
                    lemma_idx_of_unique(self@, id@, i as int);
                }
                let mut r = self.records[i].clone();
                r.is_deleted = false;
                r.deleted_at = None;
                self.records[i] = r;
                proof {
                    lemma_update_same_id_wf(old(self)@, self@, i as int);
                }
                true
            },
            None => false,
        }
    }

    /// The visible records of `owner`: same owner, not soft-deleted.
    pub fn list(&self, owner: &String) -> (out: Vec<FileRecord>)
        ensures
            out@ == spec_list(self@, owner@, false),
    {
        self.select(owner, false)
    }

    /// The soft-deleted records of `owner`.
    pub fn list_deleted(&self, owner: &String) -> (out: Vec<FileRecord>)
        ensures
            out@ == spec_list(self@, owner@, true),
    {
        self.select(owner, true)
    }

    fn select(&self, owner: &String, deleted: bool) -> (out: Vec<FileRecord>)
        ensures
            out@ == spec_list(self@, owner@, deleted),
    {
        let n = self.records.len();
        let mut out: Vec<FileRecord> = Vec::new();
        let mut i: usize = 0;
        while i < n
            invariant
                n == self@.len(),
                i <= n,
                out@ == spec_list(self@.take(i as int), owner@, deleted),
            decreases n - i,
        {
            let r = &self.records[i];
            if r.owner == *owner && r.is_deleted == deleted {
                out.push(r.clone());
            }
            proof {
                assert(self@.take(i + 1).drop_last() =~= self@.take(i as int));
                assert(self@.take(i + 1).last() == self@[i as int]);
            }
            i += 1;
        }
        proof {
            assert(self@.take(n as int) =~= self@);
        }
        out
    }

    /// Removes every soft-deleted record of `owner` and reports how many were
    /// removed.
    pub fn empty_recycle_bin(&mut self, owner: &String) -> (removed: usize)
        requires
            old(self).wf(),
        ensures
            final(self).wf(),
            final(self)@ == spec_purge(old(self)@, owner@),
            removed == old(self)@.len() - final(self)@.len(),
    {
        let n = self.records.len();
        let mut kept: Vec<FileRecord> = Vec::new();
        let mut i: usize = 0;
        while i < n
            invariant
                n == self@.len(),
                i <= n,
                kept@ == spec_purge(self@.take(i as int), owner@),
                kept@.len() <= i,
            decreases n - i,
        {
            let r = &self.records[i];
            if !(r.owner == *owner && r.is_deleted) {
                kept.push(r.clone());
            }
            proof {
                assert(self@.take(i + 1).drop_last() =~= self@.take(i as int));
                assert(self@.take(i + 1).last() == self@[i as int]);
            }
            i += 1;
        }
        proof {
            assert(self@.take(n as int) =~= self@);
            lemma_purge_wf(old(self)@, owner@);
        }
        self.records = kept;
        n - self.records.len()
    }
}

/// Under unique ids, the chosen index of an id equals any index that carries
/// it.
pub proof fn lemma_idx_of_unique(s: Seq<FileRecord>, id: Seq<char>, i: int)
    requires
        ids_unique(s),
        0 <= i < s.len(),
        s[i].id@ == id,
    ensures
        contains_id(s, id),
        idx_of(s, id) == i,
{
    assert(contains_id(s, id));
    let k = idx_of(s, id);
    assert(0 <= k < s.len() && s[k].id@ == id);
    if k != i {
        if k < i {
            assert(s[k].id@ != s[i].id@);
        } else {
            assert(s[i].id@ != s[k].id@);
        }
    }
}

/// An update that keeps the record's id preserves well-formedness of the
/// record set, provided the new record is well formed.
proof fn lemma_update_same_id_wf(pre: Seq<FileRecord>, post: Seq<FileRecord>, i: int)
    requires
        records_wf(pre),
        0 <= i < pre.len(),
        post.len() == pre.len(),
        post[i].id@ == pre[i].id@,
        post[i].wf(),
        forall|k: int| 0 <= k < pre.len() && k != i ==> post[k] == pre[k],
    ensures
        records_wf(post),
{
    assert forall|p: int, q: int| 0 <= p < q < post.len()
        implies post[p].id@ != post[q].id@ by {
        assert(pre[p].id@ != pre[q].id@);
    }
    assert forall|k: int| 0 <= k < post.len() implies (#[trigger] post[k]).wf() by {
        if k != i {
            assert(post[k] == pre[k]);
        }
    }
}

/// Every id of the purged ledger already stood in the ledger before.
proof fn lemma_purge_ids(s: Seq<FileRecord>, owner: Seq<char>)
    ensures
        forall|id: Seq<char>| contains_id(spec_purge(s, owner), id) ==> contains_id(s, id),
    decreases s.len(),
{
    if s.len() > 0 {
        lemma_purge_ids(s.drop_last(), owner);
        let front = s.drop_last();
        assert forall|id: Seq<char>| contains_id(spec_purge(s, owner), id)
            implies contains_id(s, id) by {
            let p = spec_purge(s, owner);
            let i = choose|i: int| 0 <= i < p.len() && p[i].id@ == id;
            if s.last().owner@ == owner && s.last().is_deleted {
                assert(p == spec_purge(front, owner));
                assert(contains_id(front, id));
                let j = choose|j: int| 0 <= j < front.len() && front[j].id@ == id;
                assert(s[j].id@ == id);
            } else {
                assert(p == spec_purge(front, owner).push(s.last()));
                if i == p.len() - 1 {
                    assert(s[s.len() - 1].id@ == id);
                } else {
                    assert(contains_id(spec_purge(front, owner), id));
                    assert(contains_id(front, id));
                    let j = choose|j: int| 0 <= j < front.len() && front[j].id@ == id;
                    assert(s[j].id@ == id);
                }
            }
        }
    }
}

/// Purging preserves well-formedness and never grows the ledger.
pub proof fn lemma_purge_wf(s: Seq<FileRecord>, owner: Seq<char>)
    requires
        records_wf(s),
    ensures
        records_wf(spec_purge(s, owner)),
        spec_purge(s, owner).len() <= s.len(),
    decreases s.len(),
{
    if s.len() > 0 {
        let front = s.drop_last();
        assert(records_wf(front)) by {
            assert forall|i: int| 0 <= i < front.len() implies (#[trigger] front[i]).wf() by {
                assert(front[i] == s[i]);
            }
        }
        lemma_purge_wf(front, owner);
        lemma_purge_ids(front, owner);
        let p = spec_purge(s, owner);
        if !(s.last().owner@ == owner && s.last().is_deleted) {
            let q = spec_purge(front, owner);
            assert(p == q.push(s.last()));
            assert(!contains_id(front, s.last().id@)) by {
                if contains_id(front, s.last().id@) {
                    let j = choose|j: int| 0 <= j < front.len() && front[j].id@ == s.last().id@;
                    assert(s[j].id@ != s[s.len() - 1].id@);
                }
            }
            assert(!contains_id(q, s.last().id@));
            assert forall|i: int, j: int| 0 <= i < j < p.len()
                implies p[i].id@ != p[j].id@ by {
                if j < p.len() - 1 {
                    assert(q[i].id@ != q[j].id@);
                } else {
                    if p[i].id@ == p[j].id@ {
                        assert(0 <= i < q.len() && q[i].id@ == s.last().id@);
                        assert(contains_id(q, s.last().id@));
                    }
                }
            }
            assert forall|i: int| 0 <= i < p.len() implies (#[trigger] p[i]).wf() by {
                if i < p.len() - 1 {
                    assert(q[i].wf());
                }
            }
        }
    }
}

} // verus!
