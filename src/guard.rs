use vstd::prelude::*;

use crate::model::{FileId, GuardIssue};

verus! {

/// What the sources `0..n` contribute at the ancestor `k` whose identity is `aid`.
pub open spec fn source_issues(
    source_ids: Seq<Option<FileId>>,
    aid: FileId,
    k: int,
    n: int,
) -> Seq<GuardIssue>
    decreases n,
{
    if n <= 0 {
        seq![]
    } else {
        source_issues(source_ids, aid, k, n - 1) + match source_ids[n - 1] {
            Some(id) => if id == aid {
                seq![GuardIssue::SelfCopy { source: (n - 1) as usize, ancestor: k as usize }]
            } else {
                seq![]
            },
            None => seq![GuardIssue::SourceUnreadable { source: (n - 1) as usize }],
        }
    }
}

/// What the ancestor `k` contributes.
pub open spec fn ancestor_issues(
    source_ids: Seq<Option<FileId>>,
    ancestor_ids: Seq<Option<FileId>>,
    k: int,
) -> Seq<GuardIssue> {
    match ancestor_ids[k] {
        Some(aid) => source_issues(source_ids, aid, k, source_ids.len() as int),
        None => seq![GuardIssue::AncestorUnreadable { ancestor: k as usize }],
    }
}

/// Every issue of the ancestors `0..m`, ancestor by ancestor, source by source.
pub open spec fn guard_issues(
    source_ids: Seq<Option<FileId>>,
    ancestor_ids: Seq<Option<FileId>>,
    m: int,
) -> Seq<GuardIssue>
    decreases m,
{
    if m <= 0 {
        seq![]
    } else {
        guard_issues(source_ids, ancestor_ids, m - 1) + ancestor_issues(
            source_ids,
            ancestor_ids,
            m - 1,
        )
    }
}

/// All issues for the given identities of the sources and of the destination's ancestors.
pub open spec fn all_guard_issues(
    source_ids: Seq<Option<FileId>>,
    ancestor_ids: Seq<Option<FileId>>,
) -> Seq<GuardIssue> {
    guard_issues(source_ids, ancestor_ids, ancestor_ids.len() as int)
}

/// Refuses a copy in which a source is the destination or one of its
/// ancestors. `source_ids` holds the identity of each source, read without
/// following a final symlink (none where it could not be read);
/// `ancestor_ids` holds that of the absolute destination and of each of its
/// parents, read through symlinks. Every issue is collected, none stops the
/// search.
pub fn reject_self_copies(
    source_ids: &Vec<Option<FileId>>,
    ancestor_ids: &Vec<Option<FileId>>,
) -> (r: Result<(), Vec<GuardIssue>>)
    ensures
        match r {
            Ok(()) => all_guard_issues(source_ids@, ancestor_ids@).len() == 0,
            Err(v) => v@ == all_guard_issues(source_ids@, ancestor_ids@) && v@.len() > 0,
        },
{
    let mut issues: Vec<GuardIssue> = Vec::new();
    let mut k: usize = 0;
    while k < ancestor_ids.len()
        invariant
            k <= ancestor_ids@.len(),
            issues@ == guard_issues(source_ids@, ancestor_ids@, k as int),
        decreases ancestor_ids@.len() - k,
    {
        match ancestor_ids[k] {
            None => {
                issues.push(GuardIssue::AncestorUnreadable { ancestor: k });
            },
            Some(aid) => {
                let mut i: usize = 0;
                while i < source_ids.len()
                    invariant
                        k < ancestor_ids@.len(),
                        ancestor_ids@[k as int] == Some(aid),
                        i <= source_ids@.len(),
                        issues@ == guard_issues(source_ids@, ancestor_ids@, k as int)
                            + source_issues(source_ids@, aid, k as int, i as int),
                    decreases source_ids@.len() - i,
                {
                    match source_ids[i] {
                        Some(id) => {
                            if id == aid {
                                issues.push(GuardIssue::SelfCopy { source: i, ancestor: k });
                            }
                        },
                        None => {
                            issues.push(GuardIssue::SourceUnreadable { source: i });
                        },
                    }
                    i = i + 1;
                }
            },
        }
        k = k + 1;
    }
    if issues.len() == 0 {
        Ok(())
    } else {
        Err(issues)
    }
}

} // verus!
