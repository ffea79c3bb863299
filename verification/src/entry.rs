//! The file entry model: one child of a directory, either a regular file or a
//! directory, with a selection flag that the holder may change.
use std::path::Path;
use vstd::prelude::*;

verus! {

/// `std::path::Path`, carried through as an opaque value.
#[verifier::external_type_specification]
#[verifier::external_body]
pub struct ExPath(std::path::Path);

/// What an entry is. An entry is exactly one of the two.
#[derive(Clone, Copy, Debug, PartialEq, Eq, Structural)]
pub enum EntryKind {
    File,
    Directory,
}

/// The capability set of a file entry. A backend realises it with a
/// representation of its own; callers work through these methods only.
///
/// The model of an entry is its kind, its path, its display name and its
/// selection flag. Only the flag ever changes.
pub trait VfsFile: Sized + std::fmt::Debug + Send + Sync {
    /// Whether the entry is a regular file or a directory.
    spec fn kind(&self) -> EntryKind;

    /// The path of the entry.
    spec fn path_model(&self) -> &Path;

    /// The display name: the final component of the path.
    spec fn file_name_model(&self) -> &str;

    /// The selection flag.
    spec fn selected_model(&self) -> bool;

    /// True exactly for a regular file.
    fn is_file(&self) -> (r: bool)
        ensures
            r == (self.kind() is File),
    ;

    /// True exactly for a directory.
    fn is_dir(&self) -> (r: bool)
        ensures
            r == (self.kind() is Directory),
    ;

    /// The path of the entry, the same for as long as the entry lives.
    fn path(&self) -> (r: &Path)
        ensures
            r == self.path_model(),
    ;

    /// The current selection flag.
    fn selected(&self) -> (r: bool)
        ensures
            r == self.selected_model(),
    ;

    /// Sets the selection flag and leaves the rest of the entry as it was.
    fn set_selected(&mut self, selected: bool)
        ensures
            final(self).selected_model() == selected,
            final(self).kind() == old(self).kind(),
            final(self).path_model() == old(self).path_model(),
            final(self).file_name_model()@ == old(self).file_name_model()@,
    ;

    /// The display name of the entry, which is never empty.
    fn get_file_name(&self) -> (r: &str)
        ensures
            r@ == self.file_name_model()@,
            r@.len() > 0,
    ;

    /// An independent copy with the same kind, path, display name and
    /// selection flag.
    fn duplicate(&self) -> (r: Self)
        ensures
            r.kind() == self.kind(),
            r.path_model() == self.path_model(),
            r.file_name_model()@ == self.file_name_model()@,
            r.selected_model() == self.selected_model(),
    ;
}

/// An entry that borrows its path and its display name from whoever made it.
#[derive(Debug)]
pub struct PlainEntry<'a> {
    path: &'a Path,
    name: &'a str,
    kind: EntryKind,
    selected: bool,
}

impl<'a> PlainEntry<'a> {
    /// The display name is never empty.
    #[verifier::type_invariant]
    closed spec fn named(self) -> bool {
        self.name@.len() > 0
    }

    /// An entry of the given kind, not selected. There is none for an empty
    /// display name.
    pub fn new(path: &'a Path, name: &'a str, kind: EntryKind) -> (r: Option<Self>)
        ensures
            r is Some <==> name@.len() > 0,
            r is Some ==> {
                &&& r.unwrap().kind() == kind
                &&& r.unwrap().path_model() == path
                &&& r.unwrap().file_name_model()@ == name@
                &&& !r.unwrap().selected_model()
            },
    {
        if name.unicode_len() == 0 {
            None
        } else {
            Some(PlainEntry { path, name, kind, selected: false })
        }
    }
}

impl<'a> VfsFile for PlainEntry<'a> {
    closed spec fn kind(&self) -> EntryKind {
        self.kind
    }

    closed spec fn path_model(&self) -> &Path {
        self.path
    }

    closed spec fn file_name_model(&self) -> &str {
        self.name
    }

    closed spec fn selected_model(&self) -> bool {
        self.selected
    }

    fn is_file(&self) -> (r: bool) {
        match self.kind {
            EntryKind::File => true,
            EntryKind::Directory => false,
        }
    }

    fn is_dir(&self) -> (r: bool) {
        match self.kind {
            EntryKind::File => false,
            EntryKind::Directory => true,
        }
    }

    fn path(&self) -> (r: &Path) {
        self.path
    }

    fn selected(&self) -> (r: bool) {
        self.selected
    }

    fn set_selected(&mut self, selected: bool) {
        proof {
            use_type_invariant(&*self);
        }
        self.selected = selected;
    }

    fn get_file_name(&self) -> (r: &str) {
        proof {
            use_type_invariant(self);
        }
        self.name
    }

    fn duplicate(&self) -> (r: Self) {
        proof {
            use_type_invariant(self);
        }
        PlainEntry { path: self.path, name: self.name, kind: self.kind, selected: self.selected }
    }
}

/// Two entries that stand for the same file-system object: equal in kind,
/// path and display name. The selection flag is left out, as each holder
/// sets its own.
pub open spec fn same_object<F: VfsFile>(a: &F, b: &F) -> bool {
    &&& a.kind() == b.kind()
    &&& a.path_model() == b.path_model()
    &&& a.file_name_model()@ == b.file_name_model()@
}

/// An entry is a file or a directory, never both and never neither.
pub proof fn lemma_file_xor_directory<F: VfsFile>(entry: &F)
    ensures
        (entry.kind() is File) != (entry.kind() is Directory),
{
}

/// A copy of `entry` for a second holder, with the selection flag that this
/// holder wants. The copy stands for the same object, and `entry` keeps the
/// flag it had.
pub fn duplicate_with_selection<F: VfsFile>(entry: &F, selected: bool) -> (copy: F)
    ensures
        same_object(&copy, entry),
        copy.selected_model() == selected,
{
    let mut copy = entry.duplicate();
    copy.set_selected(selected);
    copy
}

} // verus!
