use vstd::prelude::*;

use crate::guard::{all_guard_issues, ancestor_issues, guard_issues, source_issues};
use crate::model::{FileId, GuardIssue};
use crate::names::{
    all_collisions, all_named, collision_groups, final_names, first_of_name,
    group_of, indices_named,
};
use crate::path::{file_name_of, is_absolute, joined};

verus! {

proof fn lemma_source_issue_kept(
    source_ids: Seq<Option<FileId>>,
    aid: FileId,
    k: int,
    n: int,
    i: int,
)
    requires
        0 <= i < n <= source_ids.len(),
        0 <= k,
        k <= usize::MAX,
        source_ids[i] == Some(aid),
    ensures
        source_issues(source_ids, aid, k, n).contains(
            GuardIssue::SelfCopy { source: i as usize, ancestor: k as usize },
        ),
    decreases n,
{
    let x = GuardIssue::SelfCopy { source: i as usize, ancestor: k as usize };
    let prefix = source_issues(source_ids, aid, k, n - 1);
    let whole = source_issues(source_ids, aid, k, n);
    if i == n - 1 {
        assert(whole[prefix.len() as int] == x);
    } else {
        lemma_source_issue_kept(source_ids, aid, k, n - 1, i);
        let w = choose|w: int| 0 <= w < prefix.len() && prefix[w] == x;
        assert(whole[w] == x);
    }
}

proof fn lemma_ancestor_issue_kept(
    source_ids: Seq<Option<FileId>>,
    ancestor_ids: Seq<Option<FileId>>,
    m: int,
    k: int,
    x: GuardIssue,
)
    requires
        0 <= k < m <= ancestor_ids.len(),
        ancestor_issues(source_ids, ancestor_ids, k).contains(x),
    ensures
        guard_issues(source_ids, ancestor_ids, m).contains(x),
    decreases m,
{
    let prefix = guard_issues(source_ids, ancestor_ids, m - 1);
    let whole = guard_issues(source_ids, ancestor_ids, m);
    if k == m - 1 {
        let last = ancestor_issues(source_ids, ancestor_ids, k);
        let w = choose|w: int| 0 <= w < last.len() && last[w] == x;
        assert(whole[prefix.len() + w] == x);
    } else {
        lemma_ancestor_issue_kept(source_ids, ancestor_ids, m - 1, k, x);
        let w = choose|w: int| 0 <= w < prefix.len() && prefix[w] == x;
        assert(whole[w] == x);
    }
}

/// A source that is the same filesystem object as the destination or as one of
/// its ancestors is always reported, so a copy into that destination is refused.
pub proof fn law_self_copy_refused(
    source_ids: Seq<Option<FileId>>,
    ancestor_ids: Seq<Option<FileId>>,
    i: int,
    k: int,
)
    requires
        0 <= i < source_ids.len(),
        0 <= k < ancestor_ids.len() <= usize::MAX,
        source_ids[i] is Some,
        source_ids[i] == ancestor_ids[k],
    ensures
        all_guard_issues(source_ids, ancestor_ids).contains(
            GuardIssue::SelfCopy { source: i as usize, ancestor: k as usize },
        ),
        all_guard_issues(source_ids, ancestor_ids).len() > 0,
{
    let aid = ancestor_ids[k]->Some_0;
    lemma_source_issue_kept(source_ids, aid, k, source_ids.len() as int, i);
    lemma_ancestor_issue_kept(
        source_ids,
        ancestor_ids,
        ancestor_ids.len() as int,
        k,
        GuardIssue::SelfCopy { source: i as usize, ancestor: k as usize },
    );
}

proof fn lemma_indices_grow(names: Seq<Seq<char>>, x: Seq<char>, m: int, n: int)
    requires
        0 <= m <= n,
    ensures
        indices_named(names, x, m).len() <= indices_named(names, x, n).len(),
    decreases n - m,
{
    if m < n {
        lemma_indices_grow(names, x, m, n - 1);
    }
}

proof fn lemma_groups_grow(names: Seq<Seq<char>>, m: int, n: int)
    requires
        0 <= m <= n,
    ensures
        collision_groups(names, m).len() <= collision_groups(names, n).len(),
    decreases n - m,
{
    if m < n {
        lemma_groups_grow(names, m, n - 1);
    }
}

proof fn lemma_first_index(names: Seq<Seq<char>>, i: int) -> (f: int)
    requires
        0 <= i < names.len(),
    ensures
        0 <= f <= i,
        names[f] == names[i],
        first_of_name(names, f),
    decreases i,
{
    if first_of_name(names, i) {
        i
    } else {
        let j = choose|j: int| 0 <= j < i && names[j] == names[i];
        lemma_first_index(names, j)
    }
}

/// Two different indices that hold the same name always give at least one
/// collision group.
pub proof fn law_shared_name_collides(names: Seq<Seq<char>>, i: int, j: int)
    requires
        0 <= i < j < names.len() <= usize::MAX,
        names[i] == names[j],
    ensures
        all_collisions(names).len() > 0,
{
    let x = names[i];
    let n = names.len() as int;
    lemma_indices_grow(names, x, i + 1, j);
    lemma_indices_grow(names, x, 0, i);
    lemma_indices_grow(names, x, j + 1, n);
    let f = lemma_first_index(names, i);
    assert(group_of(names, f).len() > 1);
    lemma_groups_grow(names, f + 1, n);
}

/// Sources whose final components are equal would be copied to one place; a
/// copy of them into a directory is always refused.
pub proof fn law_shared_name_refused(sources: Seq<Seq<char>>, i: int, j: int)
    requires
        0 <= i < sources.len() <= usize::MAX,
        0 <= j < sources.len(),
        i != j,
        all_named(sources),
        file_name_of(sources[i]) == file_name_of(sources[j]),
    ensures
        all_collisions(final_names(sources)).len() > 0,
{
    if i < j {
        law_shared_name_collides(final_names(sources), i, j);
    } else {
        law_shared_name_collides(final_names(sources), j, i);
    }
}

/// Two different relative names joined onto one directory give two different
/// paths, so the children of a directory never share a destination.
pub proof fn law_join_keeps_names_apart(dir: Seq<char>, x: Seq<char>, y: Seq<char>)
    requires
        !is_absolute(x),
        !is_absolute(y),
        x != y,
    ensures
        joined(dir, x) != joined(dir, y),
{
    let p = if dir.len() == 0 || dir.last() == '/' {
        dir
    } else {
        dir + seq!['/']
    };
    assert(joined(dir, x) =~= p + x);
    assert(joined(dir, y) =~= p + y);
    if p + x == p + y {
        assert(x =~= (p + x).subrange(p.len() as int, (p + x).len() as int));
        assert(y =~= (p + y).subrange(p.len() as int, (p + y).len() as int));
    }
}

} // verus!
