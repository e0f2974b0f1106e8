use vstd::prelude::*;

verus! {

/// Identity of a filesystem object: device number and inode number.
#[derive(Clone, Copy, Debug, PartialEq, Eq, Structural)]
pub struct FileId {
    pub dev: u64,
    pub ino: u64,
}

/// The kind of a filesystem entry, as a metadata query reports it.
#[derive(Clone, Copy, Debug, PartialEq, Eq, Structural)]
pub enum FileType {
    Regular,
    Directory,
    Symlink,
    Fifo,
    Socket,
    CharacterDevice,
    BlockDevice,
}

/// One reason why a copy into a directory would copy a directory into itself,
/// or why that could not be ruled out. Sources and ancestors are given by
/// their index.
#[derive(Clone, Copy, Debug, PartialEq, Eq, Structural)]
pub enum GuardIssue {
    /// The source is the same filesystem object as the ancestor of the destination.
    SelfCopy { source: usize, ancestor: usize },
    /// The identity of the source could not be read.
    SourceUnreadable { source: usize },
    /// The identity of the ancestor of the destination could not be read.
    AncestorUnreadable { ancestor: usize },
}

} // verus!
