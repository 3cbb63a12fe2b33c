use file_ledger::clock::Stamp;
use file_ledger::commands::{apply_command, handle_action, Command, Response};
use file_ledger::ledger::Ledger;

const HELLO_HASH: &str = "2cf24dba5fb0a30e26e83b2ac5b9e29e1b161e5c1fa7425e73043362938b9824";
const EMPTY_HASH: &str = "e3b0c44298fc1c149afbf4c8996fb92427ae41e4649b934ca495991b7852b855";

fn stamp(millis: u64) -> Stamp {
    Stamp { millis, rfc3339: format!("2024-01-01T00:00:0{}+00:00", millis % 10) }
}

#[test]
fn upload_then_list_mixed_case_owner() {
    let mut ledger = Ledger::new();
    let cmd = Command::Upload {
        filename: "a.txt".to_string(),
        size: 5,
        base64: "aGVsbG8=".to_string(),
        project: None,
        cid: String::new(),
    };
    let r = handle_action(&mut ledger, "alice", cmd);
    let file_id;
    match r {
        Response::Uploaded { file } => {
            assert_eq!(file.hash, HELLO_HASH);
            assert_eq!(file.owner, "alice");
            assert_eq!(file.filename, "a.txt");
            assert_eq!(file.size, 5);
            assert!(!file.is_deleted);
            assert!(file.deleted_at.is_none());
            assert!(file.id.starts_with("file_"));
            file_id = file.id;
        },
        _ => panic!("upload did not succeed"),
    }
    // Owner normalization: a mixed-case requester sees the same record.
    let r = handle_action(&mut ledger, "ALICE", Command::List);
    match r {
        Response::Listing { files } => {
            assert_eq!(files.len(), 1);
            assert_eq!(files[0].id, file_id);
            assert_eq!(files[0].owner, "alice");
        },
        _ => panic!("list did not return a listing"),
    }
}

#[test]
fn upload_hash_is_payload_only() {
    let mut ledger = Ledger::new();
    let c1 = Command::Upload {
        filename: "one.bin".to_string(),
        size: 5,
        base64: "aGVsbG8=".to_string(),
        project: Some("p1".to_string()),
        cid: "cid1".to_string(),
    };
    let c2 = Command::Upload {
        filename: "two.bin".to_string(),
        size: 99,
        base64: "aGVsbG8=".to_string(),
        project: None,
        cid: "cid2".to_string(),
    };
    let alice = "alice".to_string();
    let bob = "bob".to_string();
    let r1 = apply_command(&mut ledger, &alice, c1, stamp(1));
    let r2 = apply_command(&mut ledger, &bob, c2, stamp(2));
    match (r1, r2) {
        (Response::Uploaded { file: f1 }, Response::Uploaded { file: f2 }) => {
            assert_eq!(f1.hash, f2.hash);
            assert_eq!(f1.hash, HELLO_HASH);
        },
        _ => panic!("uploads did not succeed"),
    }
}

#[test]
fn invalid_base64_stores_empty_payload_hash() {
    let mut ledger = Ledger::new();
    let owner = "alice".to_string();
    let cmd = Command::Upload {
        filename: "bad.bin".to_string(),
        size: 3,
        base64: "!!!not-base64!!!".to_string(),
        project: None,
        cid: String::new(),
    };
    let r = apply_command(&mut ledger, &owner, cmd, stamp(1));
    match r {
        Response::Uploaded { file } => assert_eq!(file.hash, EMPTY_HASH),
        _ => panic!("upload did not succeed"),
    }
}

#[test]
fn list_is_idempotent() {
    let mut ledger = Ledger::new();
    let owner = "alice".to_string();
    let cmd = Command::Upload {
        filename: "a.txt".to_string(),
        size: 5,
        base64: "aGVsbG8=".to_string(),
        project: None,
        cid: String::new(),
    };
    apply_command(&mut ledger, &owner, cmd, stamp(1));
    let r1 = apply_command(&mut ledger, &owner, Command::List, stamp(2));
    let r2 = apply_command(&mut ledger, &owner, Command::List, stamp(3));
    match (r1, r2) {
        (Response::Listing { files: a }, Response::Listing { files: b }) => {
            assert_eq!(a.len(), b.len());
            for (x, y) in a.iter().zip(b.iter()) {
                assert_eq!(x.id, y.id);
                assert_eq!(x.filename, y.filename);
                assert_eq!(x.hash, y.hash);
                assert_eq!(x.owner, y.owner);
                assert_eq!(x.is_deleted, y.is_deleted);
            }
        },
        _ => panic!("list did not return a listing"),
    }
}

#[test]
fn soft_delete_round_trip() {
    let mut ledger = Ledger::new();
    let owner = "alice".to_string();
    let cmd = Command::Upload {
        filename: "a.txt".to_string(),
        size: 5,
        base64: "aGVsbG8=".to_string(),
        project: Some("proj".to_string()),
        cid: "cid".to_string(),
    };
    let original = match apply_command(&mut ledger, &owner, cmd, stamp(1)) {
        Response::Uploaded { file } => file,
        _ => panic!("upload did not succeed"),
    };
    let id = original.id.clone();

    let r = apply_command(&mut ledger, &owner, Command::Delete { id: id.clone() }, stamp(2));
    assert!(matches!(r, Response::Deleted { .. }));
    // Hidden from List, visible in ListDeleted.
    match apply_command(&mut ledger, &owner, Command::List, stamp(3)) {
        Response::Listing { files } => assert!(files.is_empty()),
        _ => panic!("list did not return a listing"),
    }
    match apply_command(&mut ledger, &owner, Command::ListDeleted, stamp(4)) {
        Response::Listing { files } => {
            assert_eq!(files.len(), 1);
            assert!(files[0].is_deleted);
            assert!(files[0].deleted_at.is_some());
        },
        _ => panic!("list did not return a listing"),
    }

    let r = apply_command(&mut ledger, &owner, Command::Restore { id: id.clone() }, stamp(5));
    assert!(matches!(r, Response::Restored { .. }));
    match apply_command(&mut ledger, &owner, Command::List, stamp(6)) {
        Response::Listing { files } => {
            assert_eq!(files.len(), 1);
            let f = &files[0];
            assert_eq!(f.id, original.id);
            assert_eq!(f.filename, original.filename);
            assert_eq!(f.size, original.size);
            assert_eq!(f.hash, original.hash);
            assert_eq!(f.project, original.project);
            assert_eq!(f.content_id, original.content_id);
            assert_eq!(f.owner, original.owner);
            assert_eq!(f.created_at, original.created_at);
            assert!(f.deleted_at.is_none());
            assert!(!f.is_deleted);
        },
        _ => panic!("list did not return a listing"),
    }
}

#[test]
fn recycle_bin_purge_removes_exactly_the_deleted_record() {
    let mut ledger = Ledger::new();
    let owner = "alice".to_string();
    let mk = |name: &str| Command::Upload {
        filename: name.to_string(),
        size: 1,
        base64: "aGVsbG8=".to_string(),
        project: None,
        cid: String::new(),
    };
    let f1 = match apply_command(&mut ledger, &owner, mk("f1"), stamp(1)) {
        Response::Uploaded { file } => file,
        _ => panic!("upload did not succeed"),
    };
    let f2 = match apply_command(&mut ledger, &owner, mk("f2"), stamp(2)) {
        Response::Uploaded { file } => file,
        _ => panic!("upload did not succeed"),
    };
    assert_ne!(f1.id, f2.id);
    apply_command(&mut ledger, &owner, Command::Delete { id: f1.id.clone() }, stamp(3));
    let removed = match apply_command(&mut ledger, &owner, Command::EmptyRecycleBin, stamp(4)) {
        Response::RecycleBinEmptied { removed } => removed,
        _ => panic!("purge did not succeed"),
    };
    assert_eq!(removed, 1);
    match apply_command(&mut ledger, &owner, Command::List, stamp(5)) {
        Response::Listing { files } => {
            assert_eq!(files.len(), 1);
            assert_eq!(files[0].id, f2.id);
        },
        _ => panic!("list did not return a listing"),
    }
    match apply_command(&mut ledger, &owner, Command::ListDeleted, stamp(6)) {
        Response::Listing { files } => assert!(files.is_empty()),
        _ => panic!("list did not return a listing"),
    }
}

#[test]
fn purge_is_scoped_to_the_requesting_owner() {
    let mut ledger = Ledger::new();
    let alice = "alice".to_string();
    let bob = "bob".to_string();
    let mk = |name: &str| Command::Upload {
        filename: name.to_string(),
        size: 1,
        base64: "aGVsbG8=".to_string(),
        project: None,
        cid: String::new(),
    };
    apply_command(&mut ledger, &alice, mk("a.txt"), stamp(1));
    let fb = match apply_command(&mut ledger, &bob, mk("b.txt"), stamp(2)) {
        Response::Uploaded { file } => file,
        _ => panic!("upload did not succeed"),
    };
    // Alice sees only her record.
    match apply_command(&mut ledger, &alice, Command::List, stamp(3)) {
        Response::Listing { files } => {
            assert_eq!(files.len(), 1);
            assert_eq!(files[0].owner, "alice");
        },
        _ => panic!("list did not return a listing"),
    }
    apply_command(&mut ledger, &bob, Command::Delete { id: fb.id.clone() }, stamp(4));
    // Alice's purge does not touch bob's recycle bin.
    let removed = match apply_command(&mut ledger, &alice, Command::EmptyRecycleBin, stamp(5)) {
        Response::RecycleBinEmptied { removed } => removed,
        _ => panic!("purge did not succeed"),
    };
    assert_eq!(removed, 0);
    match apply_command(&mut ledger, &bob, Command::ListDeleted, stamp(6)) {
        Response::Listing { files } => {
            assert_eq!(files.len(), 1);
            assert_eq!(files[0].id, fb.id);
        },
        _ => panic!("list did not return a listing"),
    }
}

#[test]
fn delete_unknown_id_reports_not_found() {
    let mut ledger = Ledger::new();
    let owner = "alice".to_string();
    let cmd = Command::Upload {
        filename: "a.txt".to_string(),
        size: 5,
        base64: "aGVsbG8=".to_string(),
        project: None,
        cid: String::new(),
    };
    apply_command(&mut ledger, &owner, cmd, stamp(1));
    let before = ledger.len();
    let r = apply_command(
        &mut ledger,
        &owner,
        Command::Delete { id: "file_does_not_exist".to_string() },
        stamp(2),
    );
    assert!(matches!(r, Response::FileNotFound));
    assert_eq!(ledger.len(), before);
}

#[test]
fn restore_unknown_id_reports_not_found() {
    let mut ledger = Ledger::new();
    let owner = "alice".to_string();
    let before = ledger.len();
    let r = apply_command(
        &mut ledger,
        &owner,
        Command::Restore { id: "file_does_not_exist".to_string() },
        stamp(1),
    );
    assert!(matches!(r, Response::FileNotFound));
    assert_eq!(ledger.len(), before);
}

#[test]
fn delete_is_not_owner_scoped() {
    // Mutation is keyed by id alone: a requester who knows a valid id can
    // soft-delete another owner's record. Only the listings are owner-scoped.
    let mut ledger = Ledger::new();
    let alice = "alice".to_string();
    let bob = "bob".to_string();
    let cmd = Command::Upload {
        filename: "a.txt".to_string(),
        size: 5,
        base64: "aGVsbG8=".to_string(),
        project: None,
        cid: String::new(),
    };
    let fa = match apply_command(&mut ledger, &alice, cmd, stamp(1)) {
        Response::Uploaded { file } => file,
        _ => panic!("upload did not succeed"),
    };
    let r = apply_command(&mut ledger, &bob, Command::Delete { id: fa.id.clone() }, stamp(2));
    assert!(matches!(r, Response::Deleted { .. }));
    match apply_command(&mut ledger, &alice, Command::ListDeleted, stamp(3)) {
        Response::Listing { files } => {
            assert_eq!(files.len(), 1);
            assert_eq!(files[0].id, fa.id);
        },
        _ => panic!("list did not return a listing"),
    }
}

#[test]
fn unknown_action_is_invalid() {
    let mut ledger = Ledger::new();
    let owner = "alice".to_string();
    let r = apply_command(&mut ledger, &owner, Command::Unknown, stamp(1));
    assert!(matches!(r, Response::InvalidAction));
    assert_eq!(ledger.len(), 0);
}

#[test]
fn mutated_marks_persisting_responses() {
    let uploaded = {
        let mut ledger = Ledger::new();
        let owner = "alice".to_string();
        let cmd = Command::Upload {
            filename: "a.txt".to_string(),
            size: 5,
            base64: "aGVsbG8=".to_string(),
            project: None,
            cid: String::new(),
        };
        apply_command(&mut ledger, &owner, cmd, stamp(1))
    };
    assert!(uploaded.mutated());
    assert!(!Response::FileNotFound.mutated());
    assert!(!Response::InvalidAction.mutated());
    assert!(!Response::Listing { files: Vec::new() }.mutated());
    assert!(Response::RecycleBinEmptied { removed: 0 }.mutated());
}
