use notypo::mount::{current_mount_folder, mount_for_opened_path, set_mount_folder, set_mount_folder_if_empty};
use notypo::recent::{record_recent_file, recent_file_entries, remove_recent_file, RECENT_LIMIT};
use notypo::session::{complete_save, mount_opened_path, open_document_from, save_target, Session};
use notypo::document::{set_document_content, DocumentState};

#[test]
fn record_puts_file_first_without_duplicates() {
    let mut recent: Vec<String> = vec!["/a.md".to_string(), "/b.md".to_string(), "/c.md".to_string()];
    record_recent_file(&mut recent, "/b.md");
    assert_eq!(recent, vec!["/b.md", "/a.md", "/c.md"]);
    record_recent_file(&mut recent, "/d.md");
    assert_eq!(recent, vec!["/d.md", "/b.md", "/a.md", "/c.md"]);
    record_recent_file(&mut recent, "/d.md");
    assert_eq!(recent, vec!["/d.md", "/b.md", "/a.md", "/c.md"]);
}

#[test]
fn record_keeps_at_most_twenty() {
    let mut recent: Vec<String> = Vec::new();
    for i in 0..25 {
        record_recent_file(&mut recent, &format!("/f{i}.md"));
    }
    assert_eq!(recent.len(), RECENT_LIMIT);
    assert_eq!(recent[0], "/f24.md");
    assert_eq!(recent[19], "/f5.md");
}

#[test]
fn remove_takes_out_every_copy() {
    let mut recent: Vec<String> = vec!["/a".to_string(), "/b".to_string(), "/a".to_string()];
    remove_recent_file(&mut recent, "/a");
    assert_eq!(recent, vec!["/b"]);
    remove_recent_file(&mut recent, "/zzz");
    assert_eq!(recent, vec!["/b"]);
}

#[test]
fn recent_entries_use_file_names() {
    let recent: Vec<String> = vec!["/tmp/notes/a.md".to_string(), "/".to_string()];
    let entries = recent_file_entries(&recent);
    assert_eq!(entries.len(), 2);
    assert_eq!(entries[0].path, "/tmp/notes/a.md");
    assert_eq!(entries[0].name, "a.md");
    assert_eq!(entries[1].path, "/");
    assert_eq!(entries[1].name, "/");
}

#[test]
fn mount_if_empty_never_overrides() {
    let mut mount: Option<String> = None;
    set_mount_folder_if_empty(&mut mount, Some("/x".to_string()));
    assert_eq!(mount.as_deref(), Some("/x"));
    set_mount_folder_if_empty(&mut mount, Some("/y".to_string()));
    assert_eq!(mount.as_deref(), Some("/x"));
    set_mount_folder(&mut mount, None);
    assert_eq!(mount, None);
}

#[test]
fn current_mount_falls_back_to_document_folder() {
    let doc = DocumentState::open("/tmp/notes/a.md".to_string(), b"");
    assert_eq!(current_mount_folder(&None, &doc).as_deref(), Some("/tmp/notes"));
    assert_eq!(current_mount_folder(&Some("/root".to_string()), &doc).as_deref(), Some("/root"));
    assert_eq!(current_mount_folder(&None, &DocumentState::untitled()), None);
}

#[test]
fn opening_paths_updates_mount() {
    let mut mount: Option<String> = Some("/tmp/root".to_string());
    mount_for_opened_path(&mut mount, "/tmp/root/child/nested.md", false);
    assert_eq!(mount.as_deref(), Some("/tmp/root"));
    let mut none: Option<String> = None;
    mount_for_opened_path(&mut none, "/tmp/root/child/nested.md", false);
    assert_eq!(none.as_deref(), Some("/tmp/root/child"));
    mount_for_opened_path(&mut none, "/tmp/other", true);
    assert_eq!(none.as_deref(), Some("/tmp/other"));
}

#[test]
fn session_open_then_load() {
    let mut s = Session::new();
    open_document_from(&mut s, "/tmp/notypo-open.md".to_string(), b"# Opened from tree\n");
    assert_eq!(s.document.content, "# Opened from tree\n");
    assert_eq!(s.document.path.as_deref(), Some("/tmp/notypo-open.md"));
    assert_eq!(s.document.encoding, "utf-8");
    assert!(!s.document.dirty);
    assert_eq!(s.recent_files, vec!["/tmp/notypo-open.md"]);
    assert!(s.mount_folder.is_none());
}

#[test]
fn session_save_flow() {
    let mut s = Session::new();
    set_document_content(&mut s.document, "# Saved by notypo\n".to_string());
    let (path, text) = save_target(&mut s, Some("/tmp/notes/doc.md".to_string()));
    assert_eq!(path, "/tmp/notes/doc.md");
    assert_eq!(text, "# Saved by notypo\n");
    complete_save(&mut s, path.clone());
    assert!(!s.document.is_edited());
    assert_eq!(s.recent_files[0], path);
    assert_eq!(s.mount_folder.as_deref(), Some("/tmp/notes"));
    complete_save(&mut s, "/elsewhere/doc.md".to_string());
    assert_eq!(s.mount_folder.as_deref(), Some("/tmp/notes"));
    assert_eq!(s.recent_files, vec!["/elsewhere/doc.md", "/tmp/notes/doc.md"]);
}

#[test]
fn session_nested_file_keeps_mount() {
    let mut s = Session::new();
    s.mount_folder = Some("/tmp/notypo-mount".to_string());
    mount_opened_path(&mut s, "/tmp/notypo-mount/child/nested.md", false);
    open_document_from(&mut s, "/tmp/notypo-mount/child/nested.md".to_string(), b"# Nested\n");
    assert_eq!(current_mount_folder(&s.mount_folder, &s.document).as_deref(), Some("/tmp/notypo-mount"));
    assert_eq!(s.document.content, "# Nested\n");
}
