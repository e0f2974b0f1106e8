use vstd::prelude::*;
use vstd::string::StrSliceExecFns;
use vstd::string::StringExecFns;

verus! {

/// A path is absolute when it starts at the root directory.
pub open spec fn is_absolute(p: Seq<char>) -> bool {
    p.len() > 0 && p[0] == '/'
}

/// `dir` extended by `name`: an absolute `name` replaces `dir`; otherwise a
/// separator is put between them unless `dir` is empty or already ends in one.
pub open spec fn joined(dir: Seq<char>, name: Seq<char>) -> Seq<char> {
    if is_absolute(name) {
        name
    } else if dir.len() == 0 || dir.last() == '/' {
        dir + name
    } else {
        dir + seq!['/'] + name
    }
}

/// `p` made absolute against the working directory `cwd`.
pub open spec fn absolute(cwd: Seq<char>, p: Seq<char>) -> Seq<char> {
    if is_absolute(p) {
        p
    } else {
        joined(cwd, p)
    }
}

/// The final component of a path, as the standard library's path type sees it.
pub uninterp spec fn file_name_of(p: Seq<char>) -> Option<Seq<char>>;

/// A path followed by each of its parents in turn, as the standard library's
/// path type walks them.
pub uninterp spec fn ancestors_of(p: Seq<char>) -> Seq<Seq<char>>;

/// The views of a sequence of strings.
pub open spec fn views(v: Seq<String>) -> Seq<Seq<char>> {
    v.map_values(|s: String| s@)
}

pub fn path_is_absolute(p: &String) -> (r: bool)
    ensures
        r == is_absolute(p@),
{
    let s = p.as_str();
    s.unicode_len() > 0 && s.get_char(0) == '/'
}

/// Joins `name` onto `dir`.
pub fn join(dir: &String, name: &String) -> (r: String)
    ensures
        r@ == joined(dir@, name@),
{
    if path_is_absolute(name) {
        return name.clone();
    }
    let d = dir.as_str();
    let n = d.unicode_len();
    if n == 0 || d.get_char(n - 1) == '/' {
        dir.clone().concat(name.as_str())
    } else {
        proof {
            reveal_strlit("/");
        }
        dir.clone().concat("/").concat(name.as_str())
    }
}

/// Makes `p` absolute against the working directory `cwd`.
pub fn make_absolute(cwd: &String, p: &String) -> (r: String)
    ensures
        r@ == absolute(cwd@, p@),
{
    if path_is_absolute(p) {
        p.clone()
    } else {
        join(cwd, p)
    }
}

/// Relies on `std::path::Path::file_name`: the final component of the path,
/// or none where the path ends in `..` or is a root.
#[verifier::external_body]
pub(crate) fn path_file_name(p: &String) -> (r: Option<String>)
    ensures
        match r {
            Some(n) => file_name_of(p@) == Some(n@),
            None => file_name_of(p@) is None,
        },
{
    std::path::Path::new(p).file_name().map(|n| n.to_string_lossy().into_owned())
}

/// Relies on `std::path::Path::ancestors`: the path itself, then each parent.
#[verifier::external_body]
pub(crate) fn path_ancestors(p: &String) -> (r: Vec<String>)
    ensures
        views(r@) == ancestors_of(p@),
{
    std::path::Path::new(p).ancestors().map(|a| a.to_string_lossy().into_owned()).collect()
}

/// The paths whose identities decide whether a copy into `dest` would copy a
/// directory into itself: `dest` made absolute, then each of its parents.
pub fn dest_ancestors(cwd: &String, dest: &String) -> (r: Vec<String>)
    ensures
        views(r@) == ancestors_of(absolute(cwd@, dest@)),
{
    let full = make_absolute(cwd, dest);
    path_ancestors(&full)
}

} // verus!
