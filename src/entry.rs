use vstd::prelude::*;

verus! {

/// The file type of a visited entry, as the directory walk reports it
/// (symbolic links are not followed).
#[derive(Copy, Clone, Debug, PartialEq, Eq, Structural)]
pub enum EntryKind {
    Directory,
    File,
    SymLink,
    /// Anything else: a socket, a pipe, a device.
    Other,
}

/// Best-effort metadata, read once while walking.
#[derive(Copy, Clone, Debug, PartialEq, Eq, Structural)]
pub struct Metadata {
    /// Size in bytes.
    pub size: u64,
    /// Last modification, in seconds since the Unix epoch, where known.
    pub modified: Option<u64>,
    /// Creation, in seconds since the Unix epoch, where known.
    pub created: Option<u64>,
}

/// One filesystem object met by a directory walk.
pub struct Entry {
    /// The path as text (lossy where the path is not UTF-8).
    pub path: String,
    /// The base name as text (lossy where the name is not UTF-8).
    pub name: String,
    /// Whether the base name was valid UTF-8; an invalid one matches no name predicate.
    pub name_is_utf8: bool,
    pub kind: EntryKind,
    /// Levels below the root of its walk; the root itself is at depth 0.
    pub depth: usize,
    pub metadata: Option<Metadata>,
    /// The whole contents as text, where they were read and could be: `None`
    /// for anything unreadable, non-text, not a regular file, or with a
    /// non-UTF-8 path.
    pub content: Option<String>,
}

} // verus!
