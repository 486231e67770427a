use std::collections::BTreeMap;

use rusty_wrenches::{
    child_path, copy_path, count_nested_dirs, find_nested_dir, fix_nested_directories, plan_unnest, Action, DirWalker,
    Entry, Event, FixError, FsOp,
};

/// A small in-memory filesystem: each path maps to `None` for a directory or
/// to a file's contents.
#[derive(Clone, PartialEq, Debug)]
struct MemFs {
    nodes: BTreeMap<Vec<String>, Option<String>>,
    unreadable: Vec<Vec<String>>,
    refuse_renames: bool,
}

fn p(parts: &[&str]) -> Vec<String> {
    parts.iter().map(|s| s.to_string()).collect()
}

impl MemFs {
    fn new() -> MemFs {
        MemFs { nodes: BTreeMap::new(), unreadable: Vec::new(), refuse_renames: false }
    }

    fn mkdir(&mut self, parts: &[&str]) {
        for i in 1..=parts.len() {
            self.nodes.entry(p(&parts[..i])).or_insert(None);
        }
    }

    fn write(&mut self, parts: &[&str], text: &str) {
        self.mkdir(&parts[..parts.len() - 1]);
        self.nodes.insert(p(parts), Some(text.to_string()));
    }

    fn holds(&self, parts: &[&str]) -> bool {
        self.nodes.contains_key(&p(parts))
    }

    fn is_dir(&self, path: &Vec<String>) -> bool {
        matches!(self.nodes.get(path), Some(None))
    }

    fn list(&self, dir: &Vec<String>) -> Option<Vec<Entry>> {
        if !self.is_dir(dir) || self.unreadable.contains(dir) {
            return None;
        }
        let mut out = Vec::new();
        for (path, node) in self.nodes.iter() {
            if path.len() == dir.len() + 1 && path.starts_with(dir) {
                out.push(Entry { name: path[dir.len()].clone(), is_dir: node.is_none() });
            }
        }
        Some(out)
    }

    fn apply(&mut self, op: &FsOp) -> Result<(), String> {
        match op {
            FsOp::Move { from, to } => {
                if self.refuse_renames {
                    return Err("permission denied".to_string());
                }
                if !self.nodes.contains_key(from) || self.nodes.contains_key(to) {
                    return Err("cannot rename".to_string());
                }
                let moved: Vec<Vec<String>> =
                    self.nodes.keys().filter(|k| k.starts_with(from)).cloned().collect();
                for k in moved {
                    let node = self.nodes.remove(&k).unwrap();
                    let mut dst = to.clone();
                    dst.extend_from_slice(&k[from.len()..]);
                    self.nodes.insert(dst, node);
                }
                Ok(())
            }
            FsOp::RemoveDir { dir } => {
                let children = self.list(dir).ok_or("not a directory".to_string())?;
                if !children.is_empty() {
                    return Err("directory not empty".to_string());
                }
                self.nodes.remove(dir);
                Ok(())
            }
        }
    }
}

/// Runs a whole session over `fs`, rooted at the one-component path `root`.
fn run(fs: &mut MemFs, root: &str, skip_name_match: bool, dry_run: bool) -> Result<(), FixError> {
    let root_is_dir = fs.is_dir(&p(&[root]));
    let (mut session, mut action) =
        fix_nested_directories(root.to_string(), root_is_dir, skip_name_match, dry_run);
    loop {
        let event = match action {
            Action::ReadDir(dir) => match fs.list(&dir) {
                Some(entries) => Event::Listing(entries),
                None => Event::Unreadable,
            },
            Action::Apply(op) => match fs.apply(&op) {
                Ok(()) => Event::Done,
                Err(message) => Event::Failed(message),
            },
            Action::Preview(_) => Event::Done,
            Action::Finish => return Ok(()),
            Action::Fail(e) => return Err(e),
        };
        action = session.handle(event);
    }
}

const CONTENTS_DIR_NAME: &str = "contents";

/// temp/contents/<nested_name>/file.txt and temp/another_dir.
fn setup_test_tree(nested_name: &str) -> MemFs {
    let mut fs = MemFs::new();
    fs.write(&["temp", CONTENTS_DIR_NAME, nested_name, "file.txt"], "test content");
    fs.mkdir(&["temp", "another_dir"]);
    fs
}

struct TestCase {
    name: &'static str,
    skip_name_match: bool,
    nested_dir_name: &'static str,
    expect_moved: bool,
    dry_run: bool,
}

#[test]
fn test_fix_nested_directories() {
    let test_cases = vec![
        TestCase {
            name: "should not move files when skip_name_match is false and names don't match",
            skip_name_match: false,
            nested_dir_name: "nested",
            expect_moved: false,
            dry_run: false,
        },
        TestCase {
            name: "should move files when skip_name_match is true",
            skip_name_match: true,
            nested_dir_name: "nested",
            expect_moved: true,
            dry_run: false,
        },
        TestCase {
            name: "should move files when names match even if skip_name_match is false",
            skip_name_match: false,
            nested_dir_name: "contents",
            expect_moved: true,
            dry_run: false,
        },
        TestCase {
            name: "should not move files when dry_run is true",
            skip_name_match: false,
            nested_dir_name: "nested",
            expect_moved: false,
            dry_run: true,
        },
    ];

    for tc in test_cases {
        let mut fs = setup_test_tree(tc.nested_dir_name);
        let original_file = ["temp", CONTENTS_DIR_NAME, tc.nested_dir_name, "file.txt"];
        let moved_file = ["temp", CONTENTS_DIR_NAME, "file.txt"];

        assert!(run(&mut fs, "temp", tc.skip_name_match, tc.dry_run).is_ok());

        let expected_path: &[&str] = if tc.expect_moved { &moved_file } else { &original_file };
        assert!(fs.holds(expected_path), "{}: file should exist at {:?}", tc.name, expected_path);

        if tc.expect_moved {
            assert!(
                !fs.holds(&original_file),
                "{}: original file should not exist at {:?}",
                tc.name,
                original_file
            );
            assert!(
                !fs.holds(&["temp", CONTENTS_DIR_NAME, tc.nested_dir_name]),
                "{}: nested directory should not exist",
                tc.name
            );
        }
    }
}

#[test]
fn name_match_gates_the_merge() {
    let mut fs = MemFs::new();
    fs.write(&["contents", "nested", "file.txt"], "x");
    assert!(run(&mut fs, "contents", false, false).is_ok());
    assert!(fs.holds(&["contents", "nested", "file.txt"]));

    assert!(run(&mut fs, "contents", true, false).is_ok());
    assert!(fs.holds(&["contents", "file.txt"]));
    assert!(!fs.holds(&["contents", "nested"]));
}

#[test]
fn exact_name_merges_without_skip() {
    let mut fs = MemFs::new();
    fs.write(&["contents", "contents", "file.txt"], "x");
    assert!(run(&mut fs, "contents", false, false).is_ok());
    assert!(fs.holds(&["contents", "file.txt"]));
    assert!(!fs.holds(&["contents", "contents"]));
}

#[test]
fn two_candidates_are_left_alone() {
    for skip in [false, true] {
        for dry in [false, true] {
            let mut fs = MemFs::new();
            fs.write(&["P", "A", "a.txt"], "a");
            fs.write(&["P", "B", "b.txt"], "b");
            let before = fs.clone();
            assert!(run(&mut fs, "P", skip, dry).is_ok());
            assert_eq!(fs, before);
        }
    }
}

#[test]
fn three_same_named_levels_stop_on_collision() {
    // Lifting root/a/a/a into root/a would land on root/a/a itself: the run
    // stops there and nothing is moved.
    let mut fs = MemFs::new();
    fs.write(&["root", "a", "a", "a", "file.txt"], "x");
    let before = fs.clone();
    match run(&mut fs, "root", false, false) {
        Err(FixError::Collision { path }) => assert_eq!(path, p(&["root", "a", "a"])),
        _ => panic!("expected a collision"),
    }
    assert_eq!(fs, before);
    assert!(fs.holds(&["root", "a", "a", "a", "file.txt"]));
}

#[test]
fn two_same_named_levels_collapse() {
    let mut fs = MemFs::new();
    fs.write(&["root", "a", "a", "file.txt"], "x");
    assert!(run(&mut fs, "root", false, false).is_ok());
    assert!(fs.holds(&["root", "a", "file.txt"]));
    assert!(!fs.holds(&["root", "a", "a"]));
}

#[test]
fn preview_changes_nothing() {
    let mut fs = MemFs::new();
    fs.write(&["t", "contents", "contents", "f1"], "1");
    fs.write(&["t", "contents", "contents", "sub", "f2"], "2");
    fs.write(&["t", "other", "x", "f3"], "3");
    fs.write(&["t", "lone", "inner", "f4"], "4");
    for skip in [false, true] {
        let mut copy = fs.clone();
        assert!(run(&mut copy, "t", skip, true).is_ok());
        assert_eq!(copy, fs);
    }
}

#[test]
fn second_run_changes_nothing() {
    let mut fs = MemFs::new();
    fs.write(&["t", "contents", "contents", "f1"], "1");
    fs.write(&["t", "contents", "contents", "sub", "f2"], "2");
    fs.write(&["t", "lone", "inner", "f4"], "4");
    fs.mkdir(&["t", "empty"]);
    let mut once = fs.clone();
    assert!(run(&mut once, "t", false, false).is_ok());
    assert!(once.holds(&["t", "contents", "sub", "f2"]));
    let mut twice = once.clone();
    assert!(run(&mut twice, "t", false, false).is_ok());
    assert_eq!(twice, once);
}

#[test]
fn lifted_directories_wait_for_the_next_run() {
    // The merge at t/contents lifts `sub`, which this run never visits; the
    // next run merges it in turn.
    let mut fs = MemFs::new();
    fs.write(&["t", "contents", "contents", "sub", "f2"], "2");
    fs.mkdir(&["t", "empty"]);
    assert!(run(&mut fs, "t", true, false).is_ok());
    assert!(fs.holds(&["t", "contents", "sub", "f2"]));
    assert!(run(&mut fs, "t", true, false).is_ok());
    assert!(fs.holds(&["t", "contents", "f2"]));
    assert!(!fs.holds(&["t", "contents", "sub"]));
}

#[test]
fn root_named_like_its_only_child_is_merged() {
    let mut fs = MemFs::new();
    fs.write(&["temp", "temp", "x.txt"], "x");
    assert!(run(&mut fs, "temp", false, false).is_ok());
    assert!(fs.holds(&["temp", "x.txt"]));
    assert!(!fs.holds(&["temp", "temp"]));
}

#[test]
fn root_name_is_its_last_component() {
    let mut fs = MemFs::new();
    fs.write(&["some/where/temp", "temp", "x.txt"], "x");
    assert!(run(&mut fs, "some/where/temp", false, false).is_ok());
    assert!(fs.holds(&["some/where/temp", "x.txt"]));
}

#[test]
fn root_that_is_not_a_directory_is_an_empty_walk() {
    let (_, first) = fix_nested_directories("missing".to_string(), false, true, false);
    assert!(matches!(first, Action::Finish));
    let (_, first) = fix_nested_directories("here".to_string(), true, true, false);
    match first {
        Action::ReadDir(dir) => assert_eq!(dir, p(&["here"])),
        _ => panic!("expected the root to be read"),
    }
}

#[test]
fn empty_nested_directory_is_removed() {
    let mut fs = MemFs::new();
    fs.mkdir(&["t", "t"]);
    assert!(run(&mut fs, "t", false, false).is_ok());
    assert!(fs.holds(&["t"]));
    assert!(!fs.holds(&["t", "t"]));
}

#[test]
fn collision_with_a_parent_file_fails() {
    let mut fs = MemFs::new();
    fs.write(&["d", "d", "a"], "inner a");
    fs.write(&["d", "d", "b"], "inner b");
    fs.write(&["d", "b"], "outer b");
    match run(&mut fs, "d", false, false) {
        Err(FixError::Collision { path }) => assert_eq!(path, p(&["d", "b"])),
        _ => panic!("expected a collision"),
    }
    // the entry before the collision was lifted; the rest stays
    assert!(fs.holds(&["d", "a"]));
    assert!(fs.holds(&["d", "d", "b"]));
    assert_eq!(fs.nodes.get(&p(&["d", "b"])), Some(&Some("outer b".to_string())));
}

#[test]
fn collision_in_preview_is_no_failure() {
    let mut fs = MemFs::new();
    fs.write(&["d", "d", "b"], "inner b");
    fs.write(&["d", "b"], "outer b");
    let before = fs.clone();
    assert!(run(&mut fs, "d", false, true).is_ok());
    assert_eq!(fs, before);
}

#[test]
fn unreadable_nested_directory_fails() {
    let mut fs = MemFs::new();
    fs.write(&["d", "d", "x"], "x");
    fs.unreadable.push(p(&["d", "d"]));
    match run(&mut fs, "d", false, false) {
        Err(FixError::Unreadable { dir }) => assert_eq!(dir, p(&["d", "d"])),
        _ => panic!("expected an unreadable directory"),
    }
}

#[test]
fn unreadable_directory_during_walk_is_skipped() {
    let mut fs = MemFs::new();
    fs.write(&["t", "a", "b", "b", "x"], "x");
    fs.mkdir(&["t", "c"]);
    fs.unreadable.push(p(&["t", "a"]));
    let before = fs.clone();
    assert!(run(&mut fs, "t", false, false).is_ok());
    assert_eq!(fs.nodes, before.nodes);
}

#[test]
fn refused_rename_fails_with_the_operation() {
    let mut fs = MemFs::new();
    fs.write(&["d", "d", "x"], "x");
    fs.refuse_renames = true;
    match run(&mut fs, "d", false, false) {
        Err(FixError::OpFailed { op: FsOp::Move { from, to }, message }) => {
            assert_eq!(from, p(&["d", "d", "x"]));
            assert_eq!(to, p(&["d", "x"]));
            assert_eq!(message, "permission denied");
        }
        _ => panic!("expected a refused rename"),
    }
}

#[test]
fn preview_hands_out_no_operation_to_apply() {
    let fs = setup_test_tree("contents");
    let (mut session, mut action) = fix_nested_directories("temp".to_string(), true, false, true);
    let mut previews = Vec::new();
    loop {
        let event = match action {
            Action::ReadDir(dir) => match fs.list(&dir) {
                Some(es) => Event::Listing(es),
                None => Event::Unreadable,
            },
            Action::Apply(_) => panic!("preview applied an operation"),
            Action::Preview(op) => {
                previews.push(op);
                Event::Done
            }
            Action::Finish => break,
            Action::Fail(_) => panic!("preview failed"),
        };
        action = session.handle(event);
    }
    assert_eq!(previews.len(), 2);
    match &previews[0] {
        FsOp::Move { from, to } => {
            assert_eq!(from, &p(&["temp", "contents", "contents", "file.txt"]));
            assert_eq!(to, &p(&["temp", "contents", "file.txt"]));
        }
        _ => panic!("expected a move"),
    }
    match &previews[1] {
        FsOp::RemoveDir { dir } => assert_eq!(dir, &p(&["temp", "contents", "contents"])),
        _ => panic!("expected a removal"),
    }
}

fn entry(name: &str, is_dir: bool) -> Entry {
    Entry::new(name.to_string(), is_dir)
}

#[test]
fn counts_qualifying_directories() {
    let es = vec![entry("a", true), entry("b", true), entry("a.txt", false), entry("p", true)];
    assert_eq!(count_nested_dirs(&Some("a".to_string()), &es, false), 1);
    assert_eq!(count_nested_dirs(&Some("z".to_string()), &es, false), 0);
    assert_eq!(count_nested_dirs(&None, &es, false), 0);
    assert_eq!(count_nested_dirs(&None, &es, true), 3);
    assert_eq!(count_nested_dirs(&Some("a.txt".to_string()), &es, false), 0);
    assert_eq!(count_nested_dirs(&Some("a".to_string()), &vec![], true), 0);
}

#[test]
fn finds_the_single_candidate() {
    let es = vec![entry("f", false), entry("p", true), entry("q", false)];
    assert_eq!(find_nested_dir(&Some("p".to_string()), &es, false), Some(1));
    assert_eq!(find_nested_dir(&Some("x".to_string()), &es, true), Some(1));
    assert_eq!(find_nested_dir(&Some("x".to_string()), &es, false), None);
    let two = vec![entry("A", true), entry("B", true)];
    assert_eq!(find_nested_dir(&Some("P".to_string()), &two, true), None);
}

#[test]
fn plans_moves_then_removal() {
    let parent = p(&["r", "x"]);
    let parent_entries = vec![entry("x", true), entry("keep.txt", false)];
    let nested_entries = vec![entry("one", false), entry("two", true)];
    let plan = plan_unnest(&parent, &parent_entries, &"x".to_string(), &nested_entries);
    assert!(plan.collision.is_none());
    assert_eq!(plan.ops.len(), 3);
    match &plan.ops[1] {
        FsOp::Move { from, to } => {
            assert_eq!(from, &p(&["r", "x", "x", "two"]));
            assert_eq!(to, &p(&["r", "x", "two"]));
        }
        _ => panic!("expected a move"),
    }
    match &plan.ops[2] {
        FsOp::RemoveDir { dir } => assert_eq!(dir, &p(&["r", "x", "x"])),
        _ => panic!("expected a removal"),
    }
}

#[test]
fn plan_stops_at_collision() {
    let parent = p(&["r"]);
    let parent_entries = vec![entry("n", true), entry("keep.txt", false)];
    let nested_entries = vec![entry("a", false), entry("keep.txt", false), entry("b", false)];
    let plan = plan_unnest(&parent, &parent_entries, &"n".to_string(), &nested_entries);
    assert_eq!(plan.ops.len(), 1);
    assert_eq!(plan.collision, Some(p(&["r", "keep.txt"])));
}

#[test]
fn walker_is_depth_first() {
    let mut w = DirWalker::new(p(&["r"]), true);
    let root = w.pop_next().unwrap();
    assert_eq!(root, p(&["r"]));
    w.push_subdirs(&root, &vec![entry("a", true), entry("f", false), entry("b", true)]);
    assert_eq!(w.pop_next(), Some(p(&["r", "b"])));
    assert_eq!(w.pop_next(), Some(p(&["r", "a"])));
    assert!(w.is_empty());
    assert_eq!(w.pop_next(), None);
    let mut none = DirWalker::new(p(&["r"]), false);
    assert_eq!(none.pop_next(), None);
}

#[test]
fn paths_extend_by_one_component() {
    let dir = p(&["/tmp/x", "a"]);
    assert_eq!(copy_path(&dir), dir);
    assert_eq!(child_path(&dir, &"b".to_string()), p(&["/tmp/x", "a", "b"]));
    assert_eq!(child_path(&vec![], &"b".to_string()), p(&["b"]));
}
