use std::io::{Error, ErrorKind};
use std::path::{Path, PathBuf};
use vfs_listing::entry::{duplicate_with_selection, EntryKind, VfsFile};
use vfs_listing::listing::{PromiseResult, ReadDirResult};

#[derive(Debug, Clone, PartialEq)]
struct Item {
    path: PathBuf,
    name: String,
    dir: bool,
    selected: bool,
}

fn item(path: &str, dir: bool) -> Item {
    let path = PathBuf::from(path);
    let name = path.file_name().unwrap().to_str().unwrap().to_string();
    Item { path, name, dir, selected: false }
}

impl VfsFile for Item {
    fn kind(&self) -> EntryKind {
        if self.dir {
            EntryKind::Directory
        } else {
            EntryKind::File
        }
    }

    fn path_model(&self) -> &Path {
        &self.path
    }

    fn file_name_model(&self) -> &str {
        &self.name
    }

    fn selected_model(&self) -> bool {
        self.selected
    }

    fn is_file(&self) -> bool {
        !self.dir
    }

    fn is_dir(&self) -> bool {
        self.dir
    }

    fn path(&self) -> &Path {
        &self.path
    }

    fn selected(&self) -> bool {
        self.selected
    }

    fn set_selected(&mut self, selected: bool) {
        self.selected = selected;
    }

    fn get_file_name(&self) -> &str {
        &self.name
    }

    fn duplicate(&self) -> Self {
        self.clone()
    }
}

#[test]
fn pending_listing_is_not_ready() {
    let listing: ReadDirResult<Item> = ReadDirResult::pending();
    assert!(!listing.is_ready());
}

#[test]
fn pending_listing_yields_nothing() {
    let mut listing: ReadDirResult<Item> = ReadDirResult::pending();
    assert!(listing.try_take().is_none());
    assert!(!listing.is_ready());
    // The attempt left it pending: an outcome is still accepted.
    assert!(listing.complete(Ok(vec![item("/d/a.txt", false)])));
    assert!(listing.is_ready());
}

#[test]
fn completed_listing_is_ready_and_taken() {
    let mut listing: ReadDirResult<Item> = ReadDirResult::pending();
    assert!(listing.complete(Ok(vec![item("/d/a.txt", false), item("/d/b", true)])));
    assert!(listing.is_ready());
    let entries = listing.take().unwrap();
    assert_eq!(entries, vec![item("/d/a.txt", false), item("/d/b", true)]);
    assert!(!listing.is_ready());
}

#[test]
fn outcome_is_taken_at_most_once() {
    let mut listing: ReadDirResult<Item> = ReadDirResult::pending();
    listing.complete(Ok(vec![item("/d/a.txt", false)]));
    let first = listing.try_take();
    assert!(matches!(first, Some(Ok(ref entries)) if entries.len() == 1));
    assert!(listing.try_take().is_none());
    assert!(listing.try_take().is_none());
    assert!(!listing.is_ready());
}

#[test]
fn consumed_listing_refuses_a_late_outcome() {
    let mut listing: ReadDirResult<Item> = ReadDirResult::from_ready(Ok(vec![]));
    assert!(listing.take().unwrap().is_empty());
    assert!(!listing.complete(Ok(vec![item("/d/late", false)])));
    assert!(!listing.is_ready());
    assert!(listing.try_take().is_none());
}

#[test]
fn first_outcome_stands() {
    let mut listing: ReadDirResult<Item> = ReadDirResult::pending();
    assert!(listing.complete(Ok(vec![item("/d/first", false)])));
    assert!(!listing.complete(Ok(vec![item("/d/second", false)])));
    let entries = listing.take().unwrap();
    assert_eq!(entries.len(), 1);
    assert_eq!(entries[0].get_file_name(), "first");
}

#[test]
fn ready_from_the_start() {
    let mut listing: ReadDirResult<Item> = ReadDirResult::from_ready(Ok(vec![item("/d/x", true)]));
    assert!(listing.is_ready());
    let entries = listing.take().unwrap();
    assert_eq!(entries.len(), 1);
    assert!(entries[0].is_dir());
}

#[test]
fn failed_listing_carries_its_error() {
    let mut listing: ReadDirResult<Item> = ReadDirResult::pending();
    listing.complete(Err(Error::new(ErrorKind::PermissionDenied, "no access")));
    assert!(listing.is_ready());
    let outcome = listing.take();
    assert_eq!(outcome.unwrap_err().kind(), ErrorKind::PermissionDenied);
    assert!(!listing.is_ready());
}

#[test]
fn empty_directory_is_an_empty_success() {
    let mut listing: ReadDirResult<Item> = ReadDirResult::pending();
    listing.complete(Ok(vec![]));
    let outcome = listing.take();
    assert!(matches!(outcome, Ok(ref entries) if entries.is_empty()));
}

#[test]
fn handle_works_through_the_trait() {
    fn drain<L: PromiseResult>(listing: &mut L) -> Option<usize> {
        if listing.is_ready() {
            Some(listing.take().unwrap().len())
        } else {
            None
        }
    }
    let mut listing: ReadDirResult<Item> = ReadDirResult::pending();
    assert_eq!(drain(&mut listing), None);
    listing.complete(Ok(vec![item("/d/a", false), item("/d/b", false), item("/d/c", true)]));
    assert_eq!(drain(&mut listing), Some(3));
    assert_eq!(drain(&mut listing), None);
}

#[test]
fn duplicate_stands_for_the_same_object() {
    let mut source = item("/home/user/notes.txt", false);
    source.set_selected(true);
    let copy = source.duplicate();
    assert_eq!(copy.path(), source.path());
    assert_eq!(copy.is_file(), source.is_file());
    assert_eq!(copy.is_dir(), source.is_dir());
    assert_eq!(copy.get_file_name(), "notes.txt");
    assert!(copy.selected());
}

#[test]
fn selecting_the_duplicate_leaves_the_source() {
    let source = item("/home/user/music", true);
    let copy = duplicate_with_selection(&source, true);
    assert!(copy.selected());
    assert!(!source.selected());
    assert_eq!(copy.path(), Path::new("/home/user/music"));
    assert_eq!(copy.get_file_name(), "music");
    assert!(copy.is_dir());
    assert!(!copy.is_file());

    let mut selected = item("/home/user/a.txt", false);
    selected.set_selected(true);
    let cleared = duplicate_with_selection(&selected, false);
    assert!(!cleared.selected());
    assert!(selected.selected());
}

#[test]
fn entry_is_file_or_directory_not_both() {
    for entry in [item("/d/a.txt", false), item("/d/b", true)] {
        assert_ne!(entry.is_file(), entry.is_dir());
    }
}

#[test]
fn set_selected_changes_the_flag_only() {
    let mut entry = item("/d/a.txt", false);
    entry.set_selected(true);
    assert!(entry.selected());
    assert_eq!(entry.path(), Path::new("/d/a.txt"));
    assert_eq!(entry.get_file_name(), "a.txt");
    assert!(entry.is_file());
    entry.set_selected(false);
    assert!(!entry.selected());
}
