//! The command surface of the ledger: one typed command in, one typed result
//! out, with the full effect on the record set pinned down.

use vstd::prelude::*;
use crate::record::FileRecord;
use crate::ledger::{Ledger, contains_id, spec_insert, spec_delete, spec_restore, spec_list,
    spec_purge};
use crate::hashing::{hash_bytes, hex_of, sha256_of};
use crate::encoding::{decode_payload, payload_of};
use crate::ident::{mint_id, file_id_of};
use crate::clock::{Stamp, now_stamp};
use crate::text::{lower_of, lowercase};

verus! {

/// One command envelope, already stripped of its transport encoding. The
/// requesting owner travels beside it, since every command carries one.
pub enum Command {
    Upload { filename: String, size: usize, base64: String, project: Option<String>, cid: String },
    List,
    ListDeleted,
    Delete { id: String },
    Restore { id: String },
    EmptyRecycleBin,
    /// Any action name outside the six above.
    Unknown,
}

/// The result of one command.
pub enum Response {
    /// The record as inserted, echoed back.
    Uploaded { file: FileRecord },
    /// The records a List or ListDeleted query selected, in ledger order.
    Listing { files: Vec<FileRecord> },
    Deleted { id: String },
    Restored { id: String },
    RecycleBinEmptied { removed: usize },
    /// Delete or Restore named an id no record carries.
    FileNotFound,
    /// The action name was not one of the six commands.
    InvalidAction,
}

impl Response {
    /// Whether the command that produced this response mutated the ledger,
    /// so that the caller must save it. Mirrors which outcomes are persisted:
    /// uploads, found deletes and restores, and recycle-bin purges.
    pub fn mutated(&self) -> (b: bool)
        ensures
            b == (self is Uploaded || self is Deleted || self is Restored
                || self is RecycleBinEmptied),
    {
        match self {
            Response::Uploaded { .. } => true,
            Response::Deleted { .. } => true,
            Response::Restored { .. } => true,
            Response::RecycleBinEmptied { .. } => true,
            _ => false,
        }
    }
}

/// What the record built by an upload holds: the minted id and the stamped
/// creation time, the caller's fields as given, the payload's hash, the
/// normalized owner, and a clear soft-delete state.
pub open spec fn upload_record_ok(
    file: FileRecord,
    filename: Seq<char>,
    size: usize,
    base64: Seq<char>,
    project: Option<String>,
    cid: Seq<char>,
    owner: Seq<char>,
    stamp: Stamp,
) -> bool {
    &&& file.id@ == file_id_of(stamp.millis)
    &&& file.filename@ == filename
    &&& file.size == size
    &&& file.hash@ == hex_of(sha256_of(payload_of(base64)))
    &&& file.project == project
    &&& file.content_id@ == cid
    &&& file.owner@ == owner
    &&& file.created_at@ == stamp.rfc3339@
    &&& file.deleted_at is None
    &&& !file.is_deleted
}

/// The full effect of one command on the record set, for a given normalized
/// owner and clock reading: how `post` follows from `pre`, and what the
/// response holds.
pub open spec fn command_post(
    pre: Seq<FileRecord>,
    post: Seq<FileRecord>,
    owner: Seq<char>,
    cmd: Command,
    stamp: Stamp,
    r: Response,
) -> bool {
    match cmd {
        Command::Upload { filename, size, base64, project, cid } => {
            &&& r matches Response::Uploaded { file }
                && upload_record_ok(file, filename@, size, base64@, project, cid@, owner, stamp)
                && post == spec_insert(pre, file)
        },
        Command::List => {
            &&& post == pre
            &&& r matches Response::Listing { files } && files@ == spec_list(pre, owner, false)
        },
        Command::ListDeleted => {
            &&& post == pre
            &&& r matches Response::Listing { files } && files@ == spec_list(pre, owner, true)
        },
        Command::Delete { id } => {
            if contains_id(pre, id@) {
                &&& post == spec_delete(pre, id@, stamp.rfc3339)
                &&& r matches Response::Deleted { id: rid } && rid@ == id@
            } else {
                &&& post == pre
                &&& r is FileNotFound
            }
        },
        Command::Restore { id } => {
            if contains_id(pre, id@) {
                &&& post == spec_restore(pre, id@)
                &&& r matches Response::Restored { id: rid } && rid@ == id@
            } else {
                &&& post == pre
                &&& r is FileNotFound
            }
        },
        Command::EmptyRecycleBin => {
            &&& post == spec_purge(pre, owner)
            &&& r matches Response::RecycleBinEmptied { removed }
                && removed == pre.len() - post.len()
        },
        Command::Unknown => {
            &&& post == pre
            &&& r is InvalidAction
        },
    }
}

/// Applies one command for an already-normalized owner at a fixed clock
/// reading. Deterministic: the whole effect is stated by `command_post`.
pub fn apply_command(ledger: &mut Ledger, owner: &String, cmd: Command, stamp: Stamp) -> (r:
    Response)
    requires
        old(ledger).wf(),
    ensures
        final(ledger).wf(),
        command_post(old(ledger)@, final(ledger)@, owner@, cmd, stamp, r),
{
    match cmd {
        Command::Upload { filename, size, base64, project, cid } => {
            let bytes = decode_payload(base64.as_str());
            let hash = hash_bytes(bytes.as_slice());
            let id = mint_id(stamp.millis);
            let file = FileRecord {
                id,
                filename,
                size,
                hash,
                project,
                content_id: cid,
                owner: owner.clone(),
                created_at: stamp.rfc3339,
                deleted_at: None,
                is_deleted: false,
            };
            let echoed = file.clone();
            ledger.insert(file);
            Response::Uploaded { file: echoed }
        },
        Command::List => {
            let files = ledger.list(owner);
            Response::Listing { files }
        },
        Command::ListDeleted => {
            let files = ledger.list_deleted(owner);
            Response::Listing { files }
        },
        Command::Delete { id } => {
            let found = ledger.delete(&id, stamp.rfc3339);
            if found {
                Response::Deleted { id }
            } else {
                Response::FileNotFound
            }
        },
        Command::Restore { id } => {
            let found = ledger.restore(&id);
            if found {
                Response::Restored { id }
            } else {
                Response::FileNotFound
            }
        },
        Command::EmptyRecycleBin => {
            let removed = ledger.empty_recycle_bin(owner);
            Response::RecycleBinEmptied { removed }
        },
        Command::Unknown => Response::InvalidAction,
    }
}

/// The single entry point: normalizes the owner, reads the clock once, and
/// applies the command. The effect is `command_post` for the lowercased
/// owner and whatever instant the clock returned.
pub fn handle_action(ledger: &mut Ledger, owner: &str, cmd: Command) -> (r: Response)
    requires
        old(ledger).wf(),
    ensures
        final(ledger).wf(),
        exists|stamp: Stamp|
            #[trigger] command_post(old(ledger)@, final(ledger)@, lower_of(owner@), cmd, stamp, r),
{
    let owner_norm = lowercase(owner);
    let stamp = now_stamp();
    let ghost witness = stamp;
    let r = apply_command(ledger, &owner_norm, cmd, stamp);
    proof {
        assert(command_post(old(ledger)@, ledger@, lower_of(owner@), cmd, witness, r));
    }
    r
}

} // verus!
