//! In-memory overrides of a file's on-disk content.

use vstd::prelude::*;

verus! {

/// An in-memory override of a file's on-disk content, supplied under a
/// virtual file name. The value owns copies of both strings for its
/// whole lifetime, and a caller must keep it alive for the duration of
/// any parse it hands it to.
#[derive(Clone, Debug)]
pub struct UnsavedFile {
    pub name: String,
    pub contents: String,
}

impl UnsavedFile {
    /// An override that owns copies of the given virtual file name and
    /// content. Neither string may hold an interior NUL character: the
    /// native boundary carries both as NUL-terminated buffers and has
    /// no representation for such input.
    pub fn new(name: &str, contents: &str) -> (r: UnsavedFile)
        requires
            forall|i: int| 0 <= i < name@.len() ==> #[trigger] name@[i] != '\0',
            forall|i: int| 0 <= i < contents@.len() ==> #[trigger] contents@[i] != '\0',
        ensures
            r.name@ == name@,
            r.contents@ == contents@,
    {
        UnsavedFile { name: name.to_owned(), contents: contents.to_owned() }
    }
}

} // verus!
