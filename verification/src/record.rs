//! The metadata record kept for each uploaded file.

use vstd::prelude::*;

verus! {

/// One ledger entry. `id` is minted at upload and never changes; `owner` is
/// stored in its normalized (lowercased) form; `is_deleted` and `deleted_at`
/// together carry the soft-delete state.
pub struct FileRecord {
    pub id: String,
    pub filename: String,
    pub size: usize,
    pub hash: String,
    pub project: Option<String>,
    pub content_id: String,
    pub owner: String,
    pub created_at: String,
    pub deleted_at: Option<String>,
    pub is_deleted: bool,
}

impl FileRecord {
    /// A record is well formed when its soft-delete flag and its deletion
    /// timestamp agree.
    pub open spec fn wf(self) -> bool {
        self.is_deleted <==> self.deleted_at is Some
    }
}

impl Clone for FileRecord {
    fn clone(&self) -> (r: Self)
        ensures
            r == *self,
    {
        FileRecord {
            id: self.id.clone(),
            filename: self.filename.clone(),
            size: self.size,
            hash: self.hash.clone(),
            project: match &self.project {
                Some(p) => Some(p.clone()),
                None => None,
            },
            content_id: self.content_id.clone(),
            owner: self.owner.clone(),
            created_at: self.created_at.clone(),
            deleted_at: match &self.deleted_at {
                Some(t) => Some(t.clone()),
                None => None,
            },
            is_deleted: self.is_deleted,
        }
    }
}

/// The record as it stands after a soft delete at time `now`.
pub open spec fn mark_deleted(r: FileRecord, now: String) -> FileRecord {
    FileRecord { is_deleted: true, deleted_at: Some(now), ..r }
}

/// The record as it stands after a restore.
pub open spec fn mark_restored(r: FileRecord) -> FileRecord {
    FileRecord { is_deleted: false, deleted_at: None, ..r }
}

} // verus!
