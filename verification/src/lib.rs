//! A minimal file-metadata ledger with content-addressed storage backends.
//!
//! The ledger maps file identifiers to metadata records and applies six
//! commands: upload, list, list-deleted, soft-delete, restore, and
//! empty-recycle-bin. Byte storage is delegated to a pluggable backend.

pub mod record;
pub mod ledger;
pub mod hashing;
pub mod encoding;
pub mod ident;
pub mod clock;
pub mod text;
pub mod commands;
pub mod laws;
pub mod storage;
pub mod response;
