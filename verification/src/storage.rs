//! The storage-backend abstraction: a content-addressed store that persists
//! payload bytes under a logical id and hands back the bytes later.
//!
//! Two interchangeable implementations exist, one driving the daemon's
//! command line and one its HTTP API. Both share one side-file convention:
//! the content identifier returned by the store is kept in a small text file
//! named after the logical id, and read back verbatim on retrieval. The
//! daemon and file-system interaction itself is plain I/O and lives with the
//! caller that runs a backend; the path and request-shaping rules stand here.

use vstd::prelude::*;
use vstd::string::StringExecFns;

verus! {

/// A content-addressed byte store.
///
/// `store` persists `data` under the logical `id` and durably records the
/// mapping from `id` to the store's content identifier; any failure of the
/// underlying store is reported as an error, and no mapping is recorded for
/// a content identifier that was never produced. `retrieve` looks up the
/// content identifier recorded for `id` and fetches the bytes back, failing
/// when no mapping exists or the fetch fails.
pub trait StorageBackend {
    fn store(&self, id: &str, data: &[u8]) -> Result<(), String>;

    fn retrieve(&self, id: &str) -> Result<Vec<u8>, String>;
}

/// The command-line implementation: it writes the payload to a scratch file,
/// has the daemon's tool add and pin it, and keeps the printed content
/// identifier under the side-file convention.
pub struct IpfsCliStorage;

/// The HTTP implementation: it posts the payload to the daemon's add
/// endpoint, picks the content identifier out of the response, and keeps it
/// under the same side-file convention; retrieval goes through the gateway.
pub struct IpfsHttpStorage;

/// The side file that records the content identifier for a logical id; both
/// implementations share it, which makes them drop-in substitutable.
pub fn cid_file_path(id: &str) -> (r: String)
    ensures
        r@ == "/data/ipfs_cid_"@ + id@ + ".txt"@,
{
    let mut out = String::new();
    out.append("/data/ipfs_cid_");
    out.append(id);
    out.append(".txt");
    proof {
        assert(out@ =~= "/data/ipfs_cid_"@ + id@ + ".txt"@);
    }
    out
}

impl IpfsCliStorage {
    /// The scratch file the payload is written to before the daemon's tool
    /// adds it.
    pub fn scratch_path(id: &str) -> (r: String)
        ensures
            r@ == "/tmp/"@ + id@ + ".bin"@,
    {
        let mut out = String::new();
        out.append("/tmp/");
        out.append(id);
        out.append(".bin");
        proof {
            assert(out@ =~= "/tmp/"@ + id@ + ".bin"@);
        }
        out
    }
}

impl IpfsHttpStorage {
    /// The gateway address that serves the bytes stored under a content
    /// identifier.
    pub fn gateway_url(cid: &str) -> (r: String)
        ensures
            r@ == "http://127.0.0.1:5000/ipfs/"@ + cid@,
    {
        let mut out = String::new();
        out.append("http://127.0.0.1:5000/ipfs/");
        out.append(cid);
        proof {
            assert(out@ =~= "http://127.0.0.1:5000/ipfs/"@ + cid@);
        }
        out
    }
}

} // verus!
