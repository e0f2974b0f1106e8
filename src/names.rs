use vstd::prelude::*;

use crate::path::{file_name_of, path_file_name, views};

verus! {

/// The indices below `n` at which `names` holds `x`, in increasing order.
pub open spec fn indices_named(names: Seq<Seq<char>>, x: Seq<char>, n: int) -> Seq<usize>
    decreases n,
{
    if n <= 0 {
        seq![]
    } else {
        indices_named(names, x, n - 1) + if names[n - 1] == x {
            seq![(n - 1) as usize]
        } else {
            seq![]
        }
    }
}

/// No index before `i` holds the name at `i`.
pub open spec fn first_of_name(names: Seq<Seq<char>>, i: int) -> bool {
    forall|j: int| 0 <= j < i ==> names[j] != names[i]
}

/// Every index that holds the name at `i`.
pub open spec fn group_of(names: Seq<Seq<char>>, i: int) -> Seq<usize> {
    indices_named(names, names[i], names.len() as int)
}

/// The groups of indices that share a name, for the names first seen below `m`:
/// one group per name held at two or more indices, in the order in which the
/// names first occur.
pub open spec fn collision_groups(names: Seq<Seq<char>>, m: int) -> Seq<Seq<usize>>
    decreases m,
{
    if m <= 0 {
        seq![]
    } else {
        collision_groups(names, m - 1) + if first_of_name(names, m - 1) && group_of(
            names,
            m - 1,
        ).len() > 1 {
            seq![group_of(names, m - 1)]
        } else {
            seq![]
        }
    }
}

/// All groups of indices that share a name.
pub open spec fn all_collisions(names: Seq<Seq<char>>) -> Seq<Seq<usize>> {
    collision_groups(names, names.len() as int)
}

pub open spec fn group_views(v: Seq<Vec<usize>>) -> Seq<Seq<usize>> {
    v.map_values(|g: Vec<usize>| g@)
}

/// Every path has a final component.
pub open spec fn all_named(sources: Seq<Seq<char>>) -> bool {
    forall|i: int| 0 <= i < sources.len() ==> file_name_of(sources[i]) is Some
}

/// `i` is the first path without a final component.
pub open spec fn first_unnamed(sources: Seq<Seq<char>>, i: int) -> bool {
    &&& 0 <= i < sources.len()
    &&& file_name_of(sources[i]) is None
    &&& forall|j: int| 0 <= j < i ==> file_name_of(sources[j]) is Some
}

/// The final component of each path.
pub open spec fn final_names(sources: Seq<Seq<char>>) -> Seq<Seq<char>> {
    sources.map_values(|s: Seq<char>| file_name_of(s)->Some_0)
}

/// Why a set of paths cannot be copied side by side into one directory.
#[derive(Debug, PartialEq, Eq)]
pub enum NameError {
    /// The path at this index has no final component.
    Unnamed(usize),
    /// Each group holds the indices of paths with one final component.
    Collisions(Vec<Vec<usize>>),
}

/// The groups of indices at which `names` holds one name.
pub fn find_collisions(names: &Vec<String>) -> (r: Vec<Vec<usize>>)
    ensures
        group_views(r@) == all_collisions(views(names@)),
{
    let ghost ns = views(names@);
    let n = names.len();
    let mut groups: Vec<Vec<usize>> = Vec::new();
    assert(forall|k: int| 0 <= k < n ==> ns[k] == names@[k]@);
    let mut i: usize = 0;
    while i < n
        invariant
            n == names@.len(),
            ns == views(names@),
            forall|k: int| 0 <= k < n ==> ns[k] == names@[k]@,
            i <= n,
            group_views(groups@) == collision_groups(ns, i as int),
        decreases n - i,
    {
        let mut first = true;
        let mut j: usize = 0;
        while j < i
            invariant
                n == names@.len(),
                ns == views(names@),
                forall|k: int| 0 <= k < n ==> ns[k] == names@[k]@,
                j <= i < n,
                first == (forall|jj: int| 0 <= jj < j ==> ns[jj] != ns[i as int]),
            decreases i - j,
        {
            if names[j] == names[i] {
                first = false;
            }
            assert(first == (forall|jj: int| 0 <= jj < j + 1 ==> ns[jj] != ns[i as int])) by {
                if names@[j as int]@ == names@[i as int]@ {
                    assert(ns[j as int] == ns[i as int]);
                }
            }
            j = j + 1;
        }
        if first {
            let mut g: Vec<usize> = Vec::new();
            let mut j: usize = 0;
            while j < n
                invariant
                    n == names@.len(),
                    ns == views(names@),
                    forall|k: int| 0 <= k < n ==> ns[k] == names@[k]@,
                    j <= n,
                    i < n,
                    g@ == indices_named(ns, ns[i as int], j as int),
                decreases n - j,
            {
                if names[j] == names[i] {
                    g.push(j);
                }
                j = j + 1;
            }
            if g.len() > 1 {
                groups.push(g);
            }
        }
        assert(group_views(groups@) =~= collision_groups(ns, i + 1));
        i = i + 1;
    }
    groups
}

/// The final component of each path in `sources`, refused where one has none
/// or where two share one, since they would be copied to the same place.
pub fn file_names(sources: &Vec<String>) -> (r: Result<Vec<String>, NameError>)
    ensures
        match r {
            Ok(names) => all_named(views(sources@)) && views(names@) == final_names(
                views(sources@),
            ) && all_collisions(final_names(views(sources@))).len() == 0,
            Err(NameError::Unnamed(i)) => first_unnamed(views(sources@), i as int),
            Err(NameError::Collisions(g)) => all_named(views(sources@)) && group_views(g@)
                == all_collisions(final_names(views(sources@))) && g@.len() > 0,
        },
{
    let ghost ss = views(sources@);
    assert(forall|k: int| 0 <= k < ss.len() ==> ss[k] == sources@[k]@);
    let mut names: Vec<String> = Vec::new();
    let mut i: usize = 0;
    while i < sources.len()
        invariant
            ss == views(sources@),
            ss.len() == sources@.len(),
            forall|k: int| 0 <= k < ss.len() ==> ss[k] == sources@[k]@,
            i <= sources@.len(),
            forall|j: int| 0 <= j < i ==> file_name_of(ss[j]) is Some,
            views(names@) == final_names(ss).subrange(0, i as int),
        decreases sources@.len() - i,
    {
        match path_file_name(&sources[i]) {
            Some(name) => {
                let ghost before = names@;
                names.push(name);
                assert(names@ == before.push(name));
                assert(ss[i as int] == sources@[i as int]@);
                assert(name@ == final_names(ss)[i as int]);
                assert(views(names@) =~= views(before).push(name@));
            },
            None => {
                return Err(NameError::Unnamed(i));
            },
        }
        assert(views(names@) =~= final_names(ss).subrange(0, i + 1));
        i = i + 1;
    }
    assert(views(names@) =~= final_names(ss));
    let groups = find_collisions(&names);
    if groups.len() == 0 {
        Ok(names)
    } else {
        Err(NameError::Collisions(groups))
    }
}

} // verus!
