use fcp::guard::reject_self_copies;
use fcp::model::{FileId, FileType, GuardIssue};
use fcp::names::{file_names, find_collisions, NameError};
use fcp::path::{dest_ancestors, join, make_absolute, path_is_absolute};
use fcp::plan::{
    any_failed, copy_directory, copy_file, copy_into, copy_single, fcp, CopyAction, CopyError,
    CopyTask, Invocation, SingleMode,
};

fn strings(v: &[&str]) -> Vec<String> {
    v.iter().map(|s| s.to_string()).collect()
}

fn id(dev: u64, ino: u64) -> Option<FileId> {
    Some(FileId { dev, ino })
}

fn pairs(tasks: &[CopyTask]) -> Vec<(String, String)> {
    tasks.iter().map(|t| (t.source.clone(), t.dest.clone())).collect()
}

#[test]
fn too_few_arguments_are_refused() {
    assert_eq!(fcp(&strings(&[])).unwrap_err(), CopyError::TooFewArguments);
    assert_eq!(fcp(&strings(&["a.txt"])).unwrap_err(), CopyError::TooFewArguments);
}

#[test]
fn two_arguments_make_a_single_copy() {
    match fcp(&strings(&["a.txt", "b.txt"])).unwrap() {
        Invocation::Single { source, dest } => {
            assert_eq!(source, "a.txt");
            assert_eq!(dest, "b.txt");
        }
        other => panic!("unexpected {:?}", other),
    }
}

#[test]
fn more_arguments_copy_into_the_last() {
    match fcp(&strings(&["dir1", "dir2", "dest/"])).unwrap() {
        Invocation::Into { sources, dest } => {
            assert_eq!(sources, strings(&["dir1", "dir2"]));
            assert_eq!(dest, "dest/");
        }
        other => panic!("unexpected {:?}", other),
    }
}

#[test]
fn file_to_missing_path_is_a_plain_copy() {
    // a.txt exists, b.txt does not
    assert_eq!(copy_single(id(1, 10), None, None), Ok(SingleMode::CopyFile));
}

#[test]
fn file_to_existing_directory_goes_inside() {
    assert_eq!(copy_single(id(1, 10), Some(true), id(1, 20)), Ok(SingleMode::IntoDirectory));
    let tasks = copy_into(&strings(&["a.txt"]), &"dir/".to_string(), Some(true), &vec![id(1, 10)], &vec![
        id(1, 20),
        id(1, 2),
        id(1, 1),
    ])
    .unwrap();
    assert_eq!(pairs(&tasks), vec![("a.txt".to_string(), "dir/a.txt".to_string())]);
}

#[test]
fn file_onto_itself_is_refused() {
    assert_eq!(copy_single(id(3, 7), Some(false), id(3, 7)), Err(CopyError::OverwriteSelf));
    assert_eq!(copy_single(id(3, 7), None, id(3, 7)), Err(CopyError::OverwriteSelf));
}

#[test]
fn same_inode_on_another_device_is_overwritten() {
    assert_eq!(copy_single(id(3, 7), Some(false), id(4, 7)), Ok(SingleMode::CopyFile));
}

#[test]
fn existing_regular_file_is_overwritten_every_time() {
    for _ in 0..2 {
        assert_eq!(copy_single(id(1, 10), Some(false), id(1, 11)), Ok(SingleMode::CopyFile));
    }
}

#[test]
fn unreadable_single_source_is_refused() {
    assert_eq!(copy_single(None, Some(true), id(1, 1)), Err(CopyError::SourceUnreadable));
}

#[test]
fn directory_into_itself_is_refused() {
    let r = copy_into(&strings(&["/a"]), &"/a/b".to_string(), Some(true), &vec![id(1, 5)], &vec![
        id(1, 6),
        id(1, 5),
        id(1, 2),
    ]);
    assert_eq!(
        r.unwrap_err(),
        CopyError::SelfCopy(vec![GuardIssue::SelfCopy { source: 0, ancestor: 1 }])
    );
}

#[test]
fn directory_into_its_own_path_is_refused() {
    let r = copy_into(&strings(&["a"]), &"a".to_string(), Some(true), &vec![id(1, 5)], &vec![
        id(1, 5),
        id(1, 2),
    ]);
    assert_eq!(
        r.unwrap_err(),
        CopyError::SelfCopy(vec![GuardIssue::SelfCopy { source: 0, ancestor: 0 }])
    );
}

#[test]
fn self_copy_guard_collects_every_issue() {
    let r = reject_self_copies(&vec![id(1, 5), None, id(1, 2)], &vec![id(1, 5), None, id(1, 2)]);
    assert_eq!(
        r.unwrap_err(),
        vec![
            GuardIssue::SelfCopy { source: 0, ancestor: 0 },
            GuardIssue::SourceUnreadable { source: 1 },
            GuardIssue::AncestorUnreadable { ancestor: 1 },
            GuardIssue::SourceUnreadable { source: 1 },
            GuardIssue::SelfCopy { source: 2, ancestor: 2 },
        ]
    );
    assert_eq!(reject_self_copies(&vec![id(1, 5)], &vec![id(1, 6), id(1, 1)]), Ok(()));
}

#[test]
fn identical_sources_collide() {
    let r = copy_into(&strings(&["X", "X"]), &"d".to_string(), Some(true), &vec![id(1, 5), id(1, 5)], &vec![
        id(1, 9),
        id(1, 1),
    ]);
    assert_eq!(r.unwrap_err(), CopyError::Names(NameError::Collisions(vec![vec![0, 1]])));
}

#[test]
fn sources_with_one_final_name_collide() {
    let r = copy_into(&strings(&["dir/X", "other/X"]), &"d".to_string(), Some(true), &vec![
        id(1, 5),
        id(1, 6),
    ], &vec![id(1, 9), id(1, 1)]);
    assert_eq!(r.unwrap_err(), CopyError::Names(NameError::Collisions(vec![vec![0, 1]])));
}

#[test]
fn directories_with_shared_children_do_not_collide() {
    // dir1 and dir2 both hold shared.txt; only their own names are compared
    let tasks = copy_into(&strings(&["dir1", "dir2"]), &"dest/".to_string(), Some(true), &vec![
        id(1, 5),
        id(1, 6),
    ], &vec![id(1, 9), id(1, 1)])
    .unwrap();
    assert_eq!(
        pairs(&tasks),
        vec![
            ("dir1".to_string(), "dest/dir1".to_string()),
            ("dir2".to_string(), "dest/dir2".to_string()),
        ]
    );
}

#[test]
fn collision_groups_follow_first_occurrence() {
    let groups = find_collisions(&strings(&["x", "y", "x", "y", "z", "x"]));
    assert_eq!(groups, vec![vec![0, 2, 5], vec![1, 3]]);
    assert!(find_collisions(&strings(&["x", "y"])).is_empty());
    assert!(find_collisions(&strings(&[])).is_empty());
}

#[test]
fn final_names_are_taken_from_each_path() {
    assert_eq!(file_names(&strings(&["a/b.txt", "c", "d/e/"])).unwrap(), strings(&["b.txt", "c", "e"]));
}

#[test]
fn path_without_a_final_name_is_refused() {
    assert_eq!(file_names(&strings(&["a", "..", "/"])).unwrap_err(), NameError::Unnamed(1));
    let r = copy_into(&strings(&["a", "/"]), &"d".to_string(), Some(true), &vec![id(1, 5), id(1, 1)], &vec![
        id(1, 9),
        id(1, 8),
    ]);
    assert_eq!(r.unwrap_err(), CopyError::Names(NameError::Unnamed(1)));
}

#[test]
fn destination_must_be_a_readable_directory() {
    let sources = strings(&["a", "b"]);
    let ids = vec![id(1, 5), id(1, 6)];
    let r = copy_into(&sources, &"f".to_string(), Some(false), &ids, &vec![id(1, 9)]);
    assert_eq!(r.unwrap_err(), CopyError::NotADirectory);
    let r = copy_into(&sources, &"f".to_string(), None, &ids, &vec![id(1, 9)]);
    assert_eq!(r.unwrap_err(), CopyError::DestUnreadable);
}

#[test]
fn each_type_has_its_action() {
    assert_eq!(copy_file(FileType::Regular), Ok(CopyAction::CopyBytes));
    assert_eq!(copy_file(FileType::Directory), Ok(CopyAction::Recurse));
    assert_eq!(copy_file(FileType::Symlink), Ok(CopyAction::Relink));
    assert_eq!(copy_file(FileType::Fifo), Ok(CopyAction::MakeFifo));
    assert_eq!(copy_file(FileType::CharacterDevice), Ok(CopyAction::CopyDevice));
    assert_eq!(copy_file(FileType::BlockDevice), Ok(CopyAction::CopyDevice));
    assert_eq!(copy_file(FileType::Socket), Err(CopyError::Socket));
}

#[test]
fn children_go_under_the_destination() {
    let tasks = copy_directory(&"src".to_string(), &"out/".to_string(), &strings(&["a", "b.txt"]));
    assert_eq!(
        pairs(&tasks),
        vec![
            ("src/a".to_string(), "out/a".to_string()),
            ("src/b.txt".to_string(), "out/b.txt".to_string()),
        ]
    );
    assert!(copy_directory(&"src".to_string(), &"out".to_string(), &vec![]).is_empty());
}

#[test]
fn some_failed_children_fail_the_directory() {
    assert!(any_failed(false, &vec![false, true, false, true]));
    assert!(!any_failed(false, &vec![false, false, false]));
    assert!(any_failed(true, &vec![false, false]));
    assert!(!any_failed(false, &vec![]));
}

#[test]
fn joining_puts_one_separator() {
    assert_eq!(join(&"dir".to_string(), &"a".to_string()), "dir/a");
    assert_eq!(join(&"dir/".to_string(), &"a".to_string()), "dir/a");
    assert_eq!(join(&"".to_string(), &"a".to_string()), "a");
    assert_eq!(join(&"dir".to_string(), &"/abs".to_string()), "/abs");
    assert!(path_is_absolute(&"/x".to_string()));
    assert!(!path_is_absolute(&"x/".to_string()));
}

#[test]
fn relative_destination_is_made_absolute() {
    assert_eq!(make_absolute(&"/home/u".to_string(), &"d".to_string()), "/home/u/d");
    assert_eq!(make_absolute(&"/home/u".to_string(), &"/d".to_string()), "/d");
    assert_eq!(
        dest_ancestors(&"/home/u".to_string(), &"d/e".to_string()),
        strings(&["/home/u/d/e", "/home/u/d", "/home/u", "/home", "/"])
    );
}
