use dothoard::paths::PathKey;
use dothoard::walk::{preview_order, walk_enters, walk_step, WalkEntry, WalkStep};

fn path(s: &str) -> PathKey {
    PathKey { parts: s.split('/').filter(|p| !p.is_empty()).map(String::from).collect() }
}

fn entry(name: &str, is_dir: bool, is_symlink: bool) -> WalkEntry {
    WalkEntry { name: name.to_string(), is_dir, is_symlink }
}

#[test]
fn the_preview_walk_skips_git_and_does_not_follow_links() {
    assert_eq!(walk_step(&entry(".git", true, false), 0), WalkStep { record: false, descend: false, stop: false });
    assert_eq!(walk_step(&entry(".git", false, false), 0), WalkStep { record: true, descend: false, stop: false });
    assert_eq!(walk_step(&entry("conf.d", true, false), 3), WalkStep { record: true, descend: true, stop: false });
    // A link to a directory is recorded but not entered.
    assert_eq!(walk_step(&entry("linked", false, true), 3), WalkStep { record: true, descend: false, stop: false });
    assert_eq!(walk_step(&entry("last", false, false), 99), WalkStep { record: true, descend: false, stop: true });
    assert!(walk_enters(3, 0));
    assert!(!walk_enters(0, 0));
    assert!(!walk_enters(2, 100));
}

#[test]
fn previewed_paths_come_in_path_order() {
    let found = vec![path("/s/b"), path("/s/a-c"), path("/s/a/b"), path("/s/a"), path("/s/B")];
    let ordered: Vec<Vec<String>> = preview_order(found).into_iter().map(|p| p.parts).collect();
    let want: Vec<Vec<String>> =
        vec![path("/s/B"), path("/s/a"), path("/s/a/b"), path("/s/a-c"), path("/s/b")].into_iter().map(|p| p.parts).collect();
    assert_eq!(ordered, want);
}
