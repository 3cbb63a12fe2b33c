//! Laws of the ledger: properties that relate several commands, stated over
//! the same spec functions the commands' own contracts use.

use vstd::prelude::*;
use crate::record::{FileRecord, mark_deleted, mark_restored};
use crate::ledger::{Ledger, records_wf, ids_unique, contains_id, idx_of, spec_insert,
    spec_delete, spec_restore, spec_list, spec_purge, lemma_idx_of_unique};
use crate::encoding::payload_of;
use crate::clock::Stamp;
use crate::commands::upload_record_ok;

verus! {

/// Law: with no intervening mutation, List and ListDeleted are idempotent:
/// the listing is a function of the ledger and the normalized owner alone,
/// so two calls return identical results.
pub proof fn lemma_list_idempotent(
    l: Ledger,
    owner: Seq<char>,
    deleted: bool,
    r1: Seq<FileRecord>,
    r2: Seq<FileRecord>,
)
    requires
        r1 == spec_list(l@, owner, deleted),
        r2 == spec_list(l@, owner, deleted),
    ensures
        r1 == r2,
{
}

/// Law: a record stands in an owner's listing exactly when the ledger holds
/// it, its owner equals the normalized requester, and its soft-delete flag
/// matches the query.
pub proof fn lemma_owner_scoping(s: Seq<FileRecord>, owner: Seq<char>, deleted: bool)
    ensures
        forall|r: FileRecord|
            #[trigger] spec_list(s, owner, deleted).contains(r) <==> (s.contains(r)
                && r.owner@ == owner && r.is_deleted == deleted),
    decreases s.len(),
{
    if s.len() > 0 {
        let front = s.drop_last();
        lemma_owner_scoping(front, owner, deleted);
        let sel = spec_list(s, owner, deleted);
        let fsel = spec_list(front, owner, deleted);
        assert forall|r: FileRecord| #[trigger] sel.contains(r) implies (s.contains(r)
            && r.owner@ == owner && r.is_deleted == deleted) by {
            let i = choose|i: int| 0 <= i < sel.len() && sel[i] == r;
            if s.last().owner@ == owner && s.last().is_deleted == deleted {
                if i == sel.len() - 1 {
                    assert(s[s.len() - 1] == r);
                } else {
                    assert(fsel.contains(r));
                    let j = choose|j: int| 0 <= j < front.len() && front[j] == r;
                    assert(s[j] == r);
                }
            } else {
                assert(fsel.contains(r));
                let j = choose|j: int| 0 <= j < front.len() && front[j] == r;
                assert(s[j] == r);
            }
        }
        assert forall|r: FileRecord| (s.contains(r) && r.owner@ == owner && r.is_deleted
            == deleted) implies #[trigger] sel.contains(r) by {
            let i = choose|i: int| 0 <= i < s.len() && s[i] == r;
            if i == s.len() - 1 {
                assert(sel[sel.len() - 1] == r);
            } else {
                assert(front[i] == r);
                assert(front.contains(r));
                assert(fsel.contains(r));
                let j = choose|j: int| 0 <= j < fsel.len() && fsel[j] == r;
                if s.last().owner@ == owner && s.last().is_deleted == deleted {
                    assert(sel[j] == r);
                } else {
                    assert(sel[j] == r);
                }
            }
        }
    }
}

/// Law: uploading a fresh record, soft-deleting it and restoring it leaves
/// the record equal to the original — the transient soft-delete state is
/// cleared — and it stands in the owner's visible listing again.
pub proof fn lemma_soft_delete_round_trip(s: Seq<FileRecord>, rec: FileRecord, now: String)
    requires
        records_wf(s),
        rec.wf(),
        !rec.is_deleted,
        !contains_id(s, rec.id@),
    ensures
        ({
            let s3 = spec_restore(spec_delete(spec_insert(s, rec), rec.id@, now), rec.id@);
            &&& contains_id(s3, rec.id@)
            &&& s3[idx_of(s3, rec.id@)] == rec
            &&& spec_list(s3, rec.owner@, false).contains(rec)
        }),
{
    let n = s.len() as int;
    let s1 = spec_insert(s, rec);
    assert(s1 == s.push(rec));
    assert(ids_unique(s1)) by {
        assert forall|i: int, j: int| 0 <= i < j < s1.len() implies s1[i].id@ != s1[j].id@ by {
            if j < n {
                assert(s[i].id@ != s[j].id@);
            } else {
                assert(s1[i] == s[i]);
                assert(!contains_id(s, rec.id@));
            }
        }
    }
    lemma_idx_of_unique(s1, rec.id@, n);
    let d = mark_deleted(rec, now);
    let s2 = spec_delete(s1, rec.id@, now);
    assert(s2 == s1.update(n, d));
    assert(ids_unique(s2)) by {
        assert forall|i: int, j: int| 0 <= i < j < s2.len() implies s2[i].id@ != s2[j].id@ by {
            assert(s1[i].id@ != s1[j].id@);
        }
    }
    assert(s2[n].id@ == rec.id@);
    lemma_idx_of_unique(s2, rec.id@, n);
    let s3 = spec_restore(s2, rec.id@);
    assert(s3 == s2.update(n, mark_restored(d)));
    assert(mark_restored(d) == rec);
    assert(ids_unique(s3)) by {
        assert forall|i: int, j: int| 0 <= i < j < s3.len() implies s3[i].id@ != s3[j].id@ by {
            assert(s2[i].id@ != s2[j].id@);
        }
    }
    assert(s3[n] == rec);
    lemma_idx_of_unique(s3, rec.id@, n);
    assert(s3.contains(rec));
    lemma_owner_scoping(s3, rec.owner@, false);
}

/// Purging an owner whose recycle bin is empty removes nothing.
proof fn lemma_purge_of_clean(s: Seq<FileRecord>, owner: Seq<char>)
    requires
        spec_list(s, owner, true).len() == 0,
    ensures
        spec_purge(s, owner) == s,
    decreases s.len(),
{
    if s.len() > 0 {
        let front = s.drop_last();
        assert(!(s.last().owner@ == owner && s.last().is_deleted));
        lemma_purge_of_clean(front, owner);
        assert(spec_purge(front, owner).push(s.last()) =~= s);
    }
}

/// Law: after two fresh uploads by one owner and a soft delete of the first,
/// emptying that owner's recycle bin — the bin having held nothing else —
/// removes exactly one record: the first is gone from both listings, the
/// second remains visible.
pub proof fn lemma_recycle_bin_purge(
    s: Seq<FileRecord>,
    f1: FileRecord,
    f2: FileRecord,
    owner: Seq<char>,
    now: String,
)
    requires
        records_wf(s),
        f1.wf(),
        f2.wf(),
        !f1.is_deleted,
        !f2.is_deleted,
        f1.owner@ == owner,
        f2.owner@ == owner,
        f1.id@ != f2.id@,
        !contains_id(s, f1.id@),
        !contains_id(s, f2.id@),
        spec_list(s, owner, true).len() == 0,
    ensures
        ({
            let s3 = spec_delete(spec_insert(spec_insert(s, f1), f2), f1.id@, now);
            let s4 = spec_purge(s3, owner);
            &&& !contains_id(s4, f1.id@)
            &&& forall|r: FileRecord|
                spec_list(s4, owner, false).contains(r) ==> r.id@ != f1.id@
            &&& forall|r: FileRecord|
                spec_list(s4, owner, true).contains(r) ==> r.id@ != f1.id@
            &&& spec_list(s4, owner, false).contains(f2)
            &&& s3.len() - s4.len() == 1
        }),
{
    let n = s.len() as int;
    let s1 = spec_insert(s, f1);
    assert(s1 == s.push(f1));
    assert(ids_unique(s1)) by {
        assert forall|i: int, j: int| 0 <= i < j < s1.len() implies s1[i].id@ != s1[j].id@ by {
            if j < n {
                assert(s[i].id@ != s[j].id@);
            } else {
                assert(s1[i] == s[i]);
                assert(!contains_id(s, f1.id@));
            }
        }
    }
    assert(!contains_id(s1, f2.id@)) by {
        if contains_id(s1, f2.id@) {
            let i = choose|i: int| 0 <= i < s1.len() && s1[i].id@ == f2.id@;
            if i < n {
                assert(s[i].id@ == f2.id@);
                assert(contains_id(s, f2.id@));
            }
        }
    }
    let s2 = spec_insert(s1, f2);
    assert(s2 == s1.push(f2));
    assert(ids_unique(s2)) by {
        assert forall|i: int, j: int| 0 <= i < j < s2.len() implies s2[i].id@ != s2[j].id@ by {
            if j < n + 1 {
                assert(s1[i].id@ != s1[j].id@);
            } else {
                assert(s2[i] == s1[i]);
                assert(!contains_id(s1, f2.id@));
            }
        }
    }
    assert(s2[n].id@ == f1.id@);
    lemma_idx_of_unique(s2, f1.id@, n);
    let d1 = mark_deleted(f1, now);
    let s3 = spec_delete(s2, f1.id@, now);
    assert(s3 == s2.update(n, d1));

    // Peel the purge off the two pushed records.
    let pure = spec_purge(s, owner);
    assert(s3 =~= s.push(d1).push(f2));
    let t1 = s.push(d1);
    assert(s3.drop_last() =~= t1);
    assert(s3.last() == f2);
    assert(spec_purge(s3, owner) == spec_purge(t1, owner).push(f2));
    assert(t1.drop_last() =~= s);
    assert(t1.last() == d1);
    assert(d1.owner@ == owner && d1.is_deleted);
    assert(spec_purge(t1, owner) == pure);
    lemma_purge_of_clean(s, owner);
    let s4 = spec_purge(s3, owner);
    assert(s4 == s.push(f2));

    assert(!contains_id(s4, f1.id@)) by {
        if contains_id(s4, f1.id@) {
            let i = choose|i: int| 0 <= i < s4.len() && s4[i].id@ == f1.id@;
            if i < n {
                assert(s[i].id@ == f1.id@);
                assert(contains_id(s, f1.id@));
            }
        }
    }
    lemma_owner_scoping(s4, owner, false);
    lemma_owner_scoping(s4, owner, true);
    assert forall|r: FileRecord| spec_list(s4, owner, false).contains(r) implies r.id@
        != f1.id@ by {
        if r.id@ == f1.id@ {
            let i = choose|i: int| 0 <= i < s4.len() && s4[i] == r;
            assert(contains_id(s4, f1.id@));
        }
    }
    assert forall|r: FileRecord| spec_list(s4, owner, true).contains(r) implies r.id@
        != f1.id@ by {
        if r.id@ == f1.id@ {
            let i = choose|i: int| 0 <= i < s4.len() && s4[i] == r;
            assert(contains_id(s4, f1.id@));
        }
    }
    assert(s4[s4.len() - 1] == f2);
    assert(s4.contains(f2));
    assert(spec_list(s4, owner, false).contains(f2));
    assert(s3.len() - s4.len() == 1);
}

/// Law: the stored hash depends on the payload alone: two uploaded records
/// whose base64 texts decode to equal payloads carry equal hashes, whatever
/// their filenames, projects, owners, sizes or clock readings.
pub proof fn lemma_hash_determinism(
    fa: FileRecord,
    filename_a: Seq<char>,
    size_a: usize,
    b64_a: Seq<char>,
    project_a: Option<String>,
    cid_a: Seq<char>,
    owner_a: Seq<char>,
    stamp_a: Stamp,
    fb: FileRecord,
    filename_b: Seq<char>,
    size_b: usize,
    b64_b: Seq<char>,
    project_b: Option<String>,
    cid_b: Seq<char>,
    owner_b: Seq<char>,
    stamp_b: Stamp,
)
    requires
        upload_record_ok(fa, filename_a, size_a, b64_a, project_a, cid_a, owner_a, stamp_a),
        upload_record_ok(fb, filename_b, size_b, b64_b, project_b, cid_b, owner_b, stamp_b),
        payload_of(b64_a) == payload_of(b64_b),
    ensures
        fa.hash@ == fb.hash@,
{
}

/// Law: a Delete or Restore that names an absent id reports the not-found
/// error and leaves the ledger exactly as it was; in particular the record
/// count is unchanged. This restates what the delete and restore contracts
/// already pin down, as a single fact.
pub proof fn lemma_unknown_id_safety(
    pre: Seq<FileRecord>,
    post: Seq<FileRecord>,
    id: Seq<char>,
    now: String,
    found: bool,
)
    requires
        !contains_id(pre, id),
        found == contains_id(pre, id),
        found ==> post == spec_delete(pre, id, now) || post == spec_restore(pre, id),
        !found ==> post == pre,
    ensures
        !found,
        post == pre,
        post.len() == pre.len(),
{
}

} // verus!
