//! A virtual file system surface for non-blocking directory listings.
//!
//! The crate has four parts. `entry` describes one file-system object as seen
//! by a caller. `listing` is the one-shot handle through which the outcome of a
//! listing that runs elsewhere is delivered, polled and taken. `backend` is the
//! capability set that a storage backend offers. `selection` is the rule by
//! which the children of a directory enter a listing.
pub mod backend;
pub mod entry;
pub mod listing;
pub mod selection;

pub use backend::{AcceptAll, Filter, Vfs};
pub use selection::{admits, is_hidden, select_entries};
pub use entry::{duplicate_with_selection, EntryKind, PlainEntry, VfsFile};
pub use listing::{ListingState, PromiseResult, ReadDirResult, ReadDirReturnType};
