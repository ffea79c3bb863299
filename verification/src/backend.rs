//! The capability set of a storage backend.
use crate::listing::PromiseResult;
use std::io::Error;
use std::path::Path;
use vstd::prelude::*;

verus! {

/// A rule of the caller that says which items a listing may include. It has
/// no effect of its own and gives the same answer for the same item each time.
pub trait Filter<T: ?Sized> {
    /// Whether the rule includes `item`.
    spec fn includes(&self, item: &T) -> bool;

    /// Asks the rule about one item.
    fn matches(&self, item: &T) -> (r: bool)
        ensures
            r == self.includes(item),
    ;
}

/// The filter that includes every path.
#[derive(Clone, Copy, Debug)]
pub struct AcceptAll;

impl Filter<Path> for AcceptAll {
    open spec fn includes(&self, item: &Path) -> bool {
        true
    }

    fn matches(&self, item: &Path) -> (r: bool) {
        true
    }
}

/// What a backend offers: it makes a directory, renames a path, and starts
/// the listing of a directory without waiting for it.
pub trait Vfs {
    /// The handle through which a listing of this backend is polled and taken.
    type Listing: PromiseResult;

    /// Makes a directory at `path`. A failure comes back as the I/O error of
    /// the storage, unchanged.
    fn create_dir(&self, path: &Path) -> (r: Result<(), Error>);

    /// Renames or moves `from` to `to`. A failure comes back as the I/O error
    /// of the storage, unchanged.
    fn rename(&self, from: &Path, to: &Path) -> (r: Result<(), Error>);

    /// Starts the listing of the immediate children of `path` and returns its
    /// handle at once. With `show_system_files` unset, what the backend holds
    /// for system entries is left out. `show_files_filter` is asked about each
    /// candidate before it is included. `platform_option` is the one switch of
    /// the target platform: where paths are POSIX-like, whether dot-prefixed
    /// entries are included; where drives exist, whether the drive roots are
    /// listed. The handle comes back pending. If `path` is no readable
    /// directory, the outcome that it later holds is an error.
    fn read_folder<P: Filter<Path>>(
        &self,
        path: &Path,
        show_system_files: bool,
        show_files_filter: &P,
        platform_option: bool,
    ) -> (r: Self::Listing)
        ensures
            r.state() is Pending,
    ;
}

} // verus!
