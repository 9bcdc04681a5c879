use notypo::file_tree::{file_time_millis, file_tree_node, list_folder, shallow_node, EntryInfo};

fn entry(path: &str, is_dir: bool) -> EntryInfo {
    EntryInfo {
        path: path.to_string(),
        is_dir,
        is_file: !is_dir,
        modified: Some((1_700_000_000, 123_456_789)),
        created: None,
        has_subdir: false,
        has_content: false,
    }
}

#[test]
fn file_time_millis_counts_milliseconds() {
    assert_eq!(file_time_millis(None), 0);
    assert_eq!(file_time_millis(Some((0, 0))), 0);
    assert_eq!(file_time_millis(Some((1, 999_999_999))), 1999);
    assert_eq!(file_time_millis(Some((1_700_000_000, 123_456_789))), 1_700_000_000_123);
    assert_eq!(file_time_millis(Some((u64::MAX, 999_999_999))), u64::MAX as u128 * 1000 + 999);
}

#[test]
fn shallow_folder_has_placeholders() {
    let mut e = entry("/tmp/root/child", true);
    e.has_subdir = true;
    e.has_content = true;
    let n = shallow_node(&e);
    assert_eq!(n.name, "child");
    assert_eq!(n.path, "/tmp/root/child");
    assert!(n.is_directory);
    assert_eq!(n.folder_placeholder.as_deref(), Some("/tmp/root/child/"));
    assert_eq!(n.file_placeholder.as_deref(), Some("/tmp/root/child/.notypo-placeholder"));
    assert_eq!(n.last_modified, 1_700_000_000_123);
    assert_eq!(n.create_date, 0);
    let f = shallow_node(&entry("/tmp/root/note.md", false));
    assert_eq!(f.folder_placeholder, None);
    assert_eq!(f.file_placeholder, None);
}

#[test]
fn listing_orders_folders_first_then_names_and_hides_dotfiles() {
    let entries = vec![
        entry("/r/zeta.md", false),
        entry("/r/.git", true),
        entry("/r/beta", true),
        entry("/r/alpha.md", false),
        entry("/r/.DS_Store", false),
        entry("/r/Alpha", true),
        entry("/r/child", true),
    ];
    let (dirs, files) = list_folder(&entries);
    let dir_names: Vec<&str> = dirs.iter().map(|n| n.name.as_str()).collect();
    let file_names: Vec<&str> = files.iter().map(|n| n.name.as_str()).collect();
    assert_eq!(dir_names, vec!["Alpha", "beta", "child"]);
    assert_eq!(file_names, vec!["alpha.md", "zeta.md"]);
}

#[test]
fn tree_of_folder_lists_files_and_folders() {
    let root = entry("/tmp/notypo-tree", true);
    let mut child = entry("/tmp/notypo-tree/child", true);
    child.has_content = true;
    let tree = file_tree_node(&root, Some(vec![entry("/tmp/notypo-tree/note.md", false), child])).unwrap();
    assert!(tree.node.is_directory);
    assert_eq!(tree.node.path, "/tmp/notypo-tree");
    assert_eq!(tree.node.name, "notypo-tree");
    assert!(tree.subdir.iter().any(|n| n.name == "child"));
    assert!(tree.content.iter().any(|n| n.name == "note.md"));
    assert_eq!(tree.subdir[0].file_placeholder.as_deref(), Some("/tmp/notypo-tree/child/.notypo-placeholder"));
}

#[test]
fn unreadable_folder_has_no_tree_and_a_file_has_no_children() {
    assert!(file_tree_node(&entry("/tmp/x", true), None).is_none());
    let t = file_tree_node(&entry("/tmp/x.md", false), None).unwrap();
    assert!(t.subdir.is_empty() && t.content.is_empty());
    assert_eq!(t.node.name, "x.md");
}
