use vstd::prelude::*;

use crate::guard::{all_guard_issues, reject_self_copies};
use crate::model::{FileId, FileType, GuardIssue};
use crate::names::{all_collisions, all_named, file_names, final_names, first_unnamed, group_views, NameError};
use crate::path::{join, joined, views};

verus! {

/// Why a whole invocation is refused before anything is copied, or why one
/// entry cannot be copied.
#[derive(Debug, PartialEq, Eq)]
pub enum CopyError {
    /// Fewer than two paths were given.
    TooFewArguments,
    /// The identity of the one source could not be read.
    SourceUnreadable,
    /// The one source and the destination are the same filesystem object.
    OverwriteSelf,
    /// The metadata of the destination directory could not be read.
    DestUnreadable,
    /// The destination of several sources is not a directory.
    NotADirectory,
    /// A source is the destination directory or one of its ancestors.
    SelfCopy(Vec<GuardIssue>),
    /// The sources cannot be placed side by side in one directory.
    Names(NameError),
    /// The entry is a socket, which cannot be copied.
    Socket,
}

/// What to do with one entry, given its type.
#[derive(Clone, Copy, Debug, PartialEq, Eq, Structural)]
pub enum CopyAction {
    /// Copy the bytes and the permission bits.
    CopyBytes,
    /// Create the directory and copy each of its children.
    Recurse,
    /// Create a symlink with the same target text.
    Relink,
    /// Create a FIFO with the same permission bits.
    MakeFifo,
    /// Copy the bytes read through the device into a new file with the same
    /// permission bits.
    CopyDevice,
}

/// One source to copy and the path it is copied to.
#[derive(Debug)]
pub struct CopyTask {
    pub source: String,
    pub dest: String,
}

/// How the paths of an invocation are read.
#[derive(Debug)]
pub enum Invocation {
    /// One source and its destination, which may be a file or a directory.
    Single { source: String, dest: String },
    /// Several sources, all copied into the directory `dest`.
    Into { sources: Vec<String>, dest: String },
}

/// How a single source is copied.
#[derive(Clone, Copy, Debug, PartialEq, Eq, Structural)]
pub enum SingleMode {
    /// The destination is a directory: the source is copied into it.
    IntoDirectory,
    /// The source is copied to the destination path itself, replacing what is there.
    CopyFile,
}

/// The action for an entry of type `t`; none for a socket.
pub open spec fn action_for(t: FileType) -> Option<CopyAction> {
    match t {
        FileType::Regular => Some(CopyAction::CopyBytes),
        FileType::Directory => Some(CopyAction::Recurse),
        FileType::Symlink => Some(CopyAction::Relink),
        FileType::Fifo => Some(CopyAction::MakeFifo),
        FileType::Socket => None,
        FileType::CharacterDevice => Some(CopyAction::CopyDevice),
        FileType::BlockDevice => Some(CopyAction::CopyDevice),
    }
}

/// Chooses how an entry of type `source_type` is copied.
pub fn copy_file(source_type: FileType) -> (r: Result<CopyAction, CopyError>)
    ensures
        match action_for(source_type) {
            Some(a) => r == Ok::<CopyAction, CopyError>(a),
            None => r is Err && r->Err_0 == CopyError::Socket,
        },
{
    match source_type {
        FileType::Regular => Ok(CopyAction::CopyBytes),
        FileType::Directory => Ok(CopyAction::Recurse),
        FileType::Symlink => Ok(CopyAction::Relink),
        FileType::Fifo => Ok(CopyAction::MakeFifo),
        FileType::Socket => Err(CopyError::Socket),
        FileType::CharacterDevice => Ok(CopyAction::CopyDevice),
        FileType::BlockDevice => Ok(CopyAction::CopyDevice),
    }
}

/// The tasks for the children of the directory `source`, whose names are
/// `children`, when it is copied to `dest`: each child goes to the entry of
/// the same name under `dest`.
pub fn copy_directory(source: &String, dest: &String, children: &Vec<String>) -> (r: Vec<CopyTask>)
    ensures
        r@.len() == children@.len(),
        forall|i: int|
            0 <= i < children@.len() ==> r@[i].source@ == joined(source@, children@[i]@)
                && r@[i].dest@ == joined(dest@, children@[i]@),
{
    let mut tasks: Vec<CopyTask> = Vec::new();
    let mut i: usize = 0;
    while i < children.len()
        invariant
            i <= children@.len(),
            tasks@.len() == i,
            forall|j: int|
                0 <= j < i ==> tasks@[j].source@ == joined(source@, children@[j]@)
                    && tasks@[j].dest@ == joined(dest@, children@[j]@),
        decreases children@.len() - i,
    {
        let task = CopyTask { source: join(source, &children[i]), dest: join(dest, &children[i]) };
        tasks.push(task);
        i = i + 1;
    }
    tasks
}

/// Whether anything failed: a failure while listing, or in any of the tasks.
pub fn any_failed(listing_failed: bool, results: &Vec<bool>) -> (r: bool)
    ensures
        r == (listing_failed || exists|i: int| 0 <= i < results@.len() && results@[i]),
{
    let mut failed = listing_failed;
    let mut i: usize = 0;
    while i < results.len()
        invariant
            i <= results@.len(),
            failed == (listing_failed || exists|j: int| 0 <= j < i && results@[j]),
        decreases results@.len() - i,
    {
        if results[i] {
            failed = true;
        }
        i = i + 1;
    }
    failed
}

/// The pre-flight checks of a copy of `sources` into the directory `dest` all pass.
pub open spec fn into_accepted(
    sources: Seq<Seq<char>>,
    dest_is_dir: Option<bool>,
    source_ids: Seq<Option<FileId>>,
    ancestor_ids: Seq<Option<FileId>>,
) -> bool {
    &&& dest_is_dir == Some(true)
    &&& all_guard_issues(source_ids, ancestor_ids).len() == 0
    &&& all_named(sources)
    &&& all_collisions(final_names(sources)).len() == 0
}

/// Checks a copy of each of `sources` into the directory `dest` and gives the
/// task of each source, in order. `dest_is_dir` tells whether `dest`, followed
/// through symlinks, is a directory (none where its metadata could not be
/// read); `source_ids` holds the identity of each source, and `ancestor_ids`
/// that of the absolute destination and of each of its parents, as
/// `reject_self_copies` takes them.
pub fn copy_into(
    sources: &Vec<String>,
    dest: &String,
    dest_is_dir: Option<bool>,
    source_ids: &Vec<Option<FileId>>,
    ancestor_ids: &Vec<Option<FileId>>,
) -> (r: Result<Vec<CopyTask>, CopyError>)
    ensures
        match r {
            Ok(tasks) => into_accepted(views(sources@), dest_is_dir, source_ids@, ancestor_ids@)
                && tasks@.len() == sources@.len() && forall|i: int|
                0 <= i < sources@.len() ==> tasks@[i].source@ == sources@[i]@
                    && tasks@[i].dest@ == joined(dest@, final_names(views(sources@))[i]),
            Err(CopyError::DestUnreadable) => dest_is_dir is None,
            Err(CopyError::NotADirectory) => dest_is_dir == Some(false),
            Err(CopyError::SelfCopy(v)) => dest_is_dir == Some(true) && v@ == all_guard_issues(
                source_ids@,
                ancestor_ids@,
            ) && v@.len() > 0,
            Err(CopyError::Names(NameError::Unnamed(i))) => dest_is_dir == Some(true)
                && all_guard_issues(source_ids@, ancestor_ids@).len() == 0 && first_unnamed(
                views(sources@),
                i as int,
            ),
            Err(CopyError::Names(NameError::Collisions(g))) => dest_is_dir == Some(true)
                && all_guard_issues(source_ids@, ancestor_ids@).len() == 0 && all_named(
                views(sources@),
            ) && group_views(g@) == all_collisions(final_names(views(sources@))) && g@.len() > 0,
            Err(_) => false,
        },
{
    match dest_is_dir {
        None => {
            return Err(CopyError::DestUnreadable);
        },
        Some(false) => {
            return Err(CopyError::NotADirectory);
        },
        Some(true) => {},
    }
    match reject_self_copies(source_ids, ancestor_ids) {
        Ok(()) => {},
        Err(v) => {
            return Err(CopyError::SelfCopy(v));
        },
    }
    let names = match file_names(sources) {
        Ok(names) => names,
        Err(e) => {
            return Err(CopyError::Names(e));
        },
    };
    let ghost fnames = final_names(views(sources@));
    let mut tasks: Vec<CopyTask> = Vec::new();
    let mut i: usize = 0;
    while i < sources.len()
        invariant
            into_accepted(views(sources@), dest_is_dir, source_ids@, ancestor_ids@),
            names@.len() == sources@.len(),
            fnames == final_names(views(sources@)),
            views(names@) == fnames,
            i <= sources@.len(),
            tasks@.len() == i,
            forall|j: int|
                0 <= j < i ==> (#[trigger] tasks@[j]).source@ == sources@[j]@
                    && tasks@[j].dest@ == joined(dest@, fnames[j]),
        decreases sources@.len() - i,
    {
        assert(views(names@)[i as int] == names@[i as int]@);
        let task = CopyTask { source: sources[i].clone(), dest: join(dest, &names[i]) };
        tasks.push(task);
        i = i + 1;
    }
    Ok(tasks)
}

/// Chooses how one source is copied to `dest`. `source_id` is the identity of
/// the source, read without following a final symlink; `dest_is_dir` tells
/// whether `dest`, followed through symlinks, is a directory; `dest_id` is the
/// identity of `dest` itself (each none where it could not be read).
pub fn copy_single(source_id: Option<FileId>, dest_is_dir: Option<bool>, dest_id: Option<FileId>) -> (r: Result<
    SingleMode,
    CopyError,
>)
    ensures
        match r {
            Ok(SingleMode::IntoDirectory) => source_id is Some && dest_is_dir == Some(true),
            Ok(SingleMode::CopyFile) => source_id is Some && dest_is_dir != Some(true) && dest_id
                != source_id,
            Err(CopyError::SourceUnreadable) => source_id is None,
            Err(CopyError::OverwriteSelf) => source_id is Some && dest_is_dir != Some(true)
                && dest_id == source_id,
            Err(_) => false,
        },
{
    let sid = match source_id {
        Some(id) => id,
        None => {
            return Err(CopyError::SourceUnreadable);
        },
    };
    if let Some(true) = dest_is_dir {
        return Ok(SingleMode::IntoDirectory);
    }
    match dest_id {
        Some(id) => {
            if id == sid {
                Err(CopyError::OverwriteSelf)
            } else {
                Ok(SingleMode::CopyFile)
            }
        },
        None => Ok(SingleMode::CopyFile),
    }
}

/// Reads the paths of an invocation: the last one is the destination, the
/// others the sources. With exactly one source it is a single copy; with
/// more, a copy into a directory.
pub fn fcp(args: &Vec<String>) -> (r: Result<Invocation, CopyError>)
    ensures
        match r {
            Ok(Invocation::Single { source, dest }) => args@.len() == 2 && source@ == args@[0]@
                && dest@ == args@[1]@,
            Ok(Invocation::Into { sources, dest }) => args@.len() > 2 && views(sources@) == views(
                args@,
            ).drop_last() && dest@ == args@.last()@,
            Err(CopyError::TooFewArguments) => args@.len() < 2,
            Err(_) => false,
        },
{
    let n = args.len();
    if n < 2 {
        return Err(CopyError::TooFewArguments);
    }
    if n == 2 {
        return Ok(Invocation::Single { source: args[0].clone(), dest: args[1].clone() });
    }
    let mut sources: Vec<String> = Vec::new();
    let mut i: usize = 0;
    while i < n - 1
        invariant
            n == args@.len(),
            n > 2,
            i <= n - 1,
            views(sources@) == views(args@).subrange(0, i as int),
        decreases n - 1 - i,
    {
        let ghost before = sources@;
        sources.push(args[i].clone());
        assert(views(sources@) =~= views(before).push(args@[i as int]@));
        assert(views(sources@) =~= views(args@).subrange(0, i + 1));
        i = i + 1;
    }
    assert(views(sources@) =~= views(args@).drop_last());
    Ok(Invocation::Into { sources, dest: args[n - 1].clone() })
}

} // verus!
