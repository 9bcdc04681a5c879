use notypo::document::{
    apply_change_count, change_fits_counter, begin_save, document_load_response, mark_saved, reload_content, reload_if_unedited,
    set_document_content, update_change_count, update_change_count_if_unedited, window_title,
    DocumentState,
};

fn doc_at(path: &str, text: &str) -> DocumentState {
    DocumentState::open(path.to_string(), text.as_bytes())
}

#[test]
fn untitled_document_is_clean_and_named_untitled() {
    let doc = DocumentState::untitled();
    assert_eq!(doc.path, None);
    assert_eq!(doc.content, "");
    assert_eq!(doc.encoding, "utf-8");
    assert!(!doc.is_edited());
    assert_eq!(doc.display_name(), "Untitled");
    assert_eq!(doc.folder(), None);
}

#[test]
fn open_takes_path_and_text() {
    let doc = doc_at("/tmp/notes/today.md", "# Today\n");
    assert_eq!(doc.path.as_deref(), Some("/tmp/notes/today.md"));
    assert_eq!(doc.content, "# Today\n");
    assert_eq!(doc.change_count, 0);
    assert!(!doc.dirty);
    assert!(!doc.edited);
}

#[test]
fn open_replaces_invalid_utf8() {
    let doc = DocumentState::open("/tmp/x.md".to_string(), &[b'a', 0xff, b'b']);
    assert_eq!(doc.content, "a\u{fffd}b");
}

#[test]
fn display_name_and_folder_come_from_the_path() {
    let doc = doc_at("/tmp/notes/today.md", "");
    assert_eq!(doc.display_name(), "today.md");
    assert_eq!(doc.folder().as_deref(), Some("/tmp/notes"));
    let root = doc_at("/", "");
    assert_eq!(root.display_name(), "Untitled");
    assert_eq!(root.folder(), None);
    let dots = doc_at("/tmp/..", "");
    assert_eq!(dots.display_name(), "Untitled");
}

#[test]
fn typemark_state_reports_path_name_and_edits() {
    let mut doc = doc_at("/tmp/notes/today.md", "x");
    let st = doc.typemark_state();
    assert_eq!(st.current_file_path.as_deref(), Some("/tmp/notes/today.md"));
    assert_eq!(st.file_name, "today.md");
    assert_eq!(st.file_encode, "utf-8");
    assert_eq!(st.current_folder_path.as_deref(), Some("/tmp/notes"));
    assert!(!st.has_modified);
    doc.dirty = true;
    assert!(doc.typemark_state().has_modified);
}

#[test]
fn load_response_shape() {
    let mut doc = doc_at("/tmp/notypo-doc.md", "# Saved by notypo\n");
    doc.dirty = true;
    let load = document_load_response(&doc);
    assert_eq!(load.content, "# Saved by notypo\n");
    assert_eq!(load.state.current_file_path.as_deref(), Some("/tmp/notypo-doc.md"));
    assert_eq!(load.state.file_encode, "utf-8");
    assert!(load.state.has_modified);
}

#[test]
fn change_done_undone_cleared() {
    let mut doc = DocumentState::untitled();
    apply_change_count(&mut doc, 0);
    assert_eq!((doc.change_count, doc.dirty, doc.edited), (1, true, true));
    apply_change_count(&mut doc, 5);
    assert_eq!(doc.change_count, 2);
    apply_change_count(&mut doc, 1);
    assert_eq!((doc.change_count, doc.dirty), (1, true));
    apply_change_count(&mut doc, 1);
    assert_eq!((doc.change_count, doc.dirty, doc.edited), (0, false, true));
    apply_change_count(&mut doc, 1);
    assert_eq!((doc.change_count, doc.dirty), (-1, false));
    apply_change_count(&mut doc, 0);
    apply_change_count(&mut doc, 0);
    apply_change_count(&mut doc, 2);
    assert_eq!((doc.change_count, doc.dirty, doc.edited), (0, false, true));
    apply_change_count(&mut doc, 0);
    apply_change_count(&mut doc, 4);
    assert_eq!((doc.change_count, doc.dirty), (0, false));
}

#[test]
fn change_types_that_change_nothing() {
    let mut doc = DocumentState::untitled();
    apply_change_count(&mut doc, 0);
    for t in [3, -1, 6, 42, -7] {
        apply_change_count(&mut doc, t);
        assert_eq!((doc.change_count, doc.dirty, doc.edited), (1, true, true));
    }
}

#[test]
fn undo_after_edit_restores_counter() {
    let mut doc = DocumentState::untitled();
    apply_change_count(&mut doc, 0);
    apply_change_count(&mut doc, 1);
    assert_eq!((doc.change_count, doc.dirty), (0, false));
    assert!(!doc.is_edited());
    assert!(doc.edited);
}

#[test]
fn update_change_count_reports_title_changes() {
    let mut doc = DocumentState::untitled();
    assert!(update_change_count(&mut doc, 0));
    assert!(!update_change_count(&mut doc, 0));
    assert!(!update_change_count(&mut doc, 3));
    assert!(update_change_count(&mut doc, 2));
}

#[test]
fn update_if_unedited_applies_once() {
    let mut doc = DocumentState::untitled();
    assert!(update_change_count_if_unedited(&mut doc, 0));
    assert_eq!(doc.change_count, 1);
    assert!(!update_change_count_if_unedited(&mut doc, 0));
    assert_eq!(doc.change_count, 1);
    assert!(!update_change_count_if_unedited(&mut doc, 2));
    assert_eq!(doc.change_count, 1);
}

#[test]
fn set_content_then_read_back() {
    let mut doc = DocumentState::untitled();
    assert!(set_document_content(&mut doc, "hello".to_string()));
    assert_eq!(doc.content, "hello");
    assert_eq!(document_load_response(&doc).content, "hello");
    assert_eq!((doc.change_count, doc.dirty, doc.edited), (1, true, true));
    assert!(doc.is_edited());
}

#[test]
fn window_title_shows_name_and_edit_mark() {
    let mut doc = doc_at("/tmp/notes/today.md", "");
    assert_eq!(window_title(&doc), "today.md — notypo");
    apply_change_count(&mut doc, 0);
    assert_eq!(window_title(&doc), "today.md • — notypo");
    assert_eq!(window_title(&DocumentState::untitled()), "Untitled — notypo");
}

#[test]
fn save_target_defaults() {
    let mut doc = DocumentState::untitled();
    doc.content = "text".to_string();
    let (path, text) = begin_save(&mut doc, None);
    assert_eq!(path, "Untitled.md");
    assert_eq!(text, "text");
    assert_eq!(doc.path, None);
    let (path, _) = begin_save(&mut doc, Some("/tmp/a.md".to_string()));
    assert_eq!(path, "/tmp/a.md");
    assert_eq!(doc.path.as_deref(), Some("/tmp/a.md"));
    let (path, _) = begin_save(&mut doc, None);
    assert_eq!(path, "/tmp/a.md");
}

#[test]
fn mark_saved_clears_edits() {
    let mut doc = DocumentState::untitled();
    set_document_content(&mut doc, "t".to_string());
    mark_saved(&mut doc, "/tmp/b.md".to_string());
    assert_eq!(doc.path.as_deref(), Some("/tmp/b.md"));
    assert!(!doc.is_edited());
    assert!(!doc.edited);
    assert_eq!(doc.content, "t");
}

#[test]
fn reload_only_when_text_differs() {
    let mut doc = doc_at("/tmp/c.md", "same");
    assert!(!reload_content(&mut doc, b"same"));
    assert_eq!(doc.content, "same");
    apply_change_count(&mut doc, 0);
    assert!(reload_content(&mut doc, b"other"));
    assert_eq!(doc.content, "other");
    assert!(!doc.is_edited());
    assert_eq!(doc.path.as_deref(), Some("/tmp/c.md"));
}

#[test]
fn reload_never_replaces_unsaved_edits() {
    let mut doc = doc_at("/tmp/d.md", "mine");
    set_document_content(&mut doc, "edited".to_string());
    assert!(!reload_if_unedited(&mut doc, b"from disk"));
    assert_eq!(doc.content, "edited");
    assert!(doc.is_edited());
    let mut clean = doc_at("/tmp/d.md", "old");
    assert!(reload_if_unedited(&mut clean, b"new"));
    assert_eq!(clean.content, "new");
    assert!(!reload_if_unedited(&mut clean, b"new"));
}

#[test]
fn counter_overflow_is_detected() {
    assert!(change_fits_counter(0, 0));
    assert!(!change_fits_counter(i64::MAX, 0));
    assert!(!change_fits_counter(i64::MAX, 5));
    assert!(change_fits_counter(i64::MAX, 1));
    assert!(!change_fits_counter(i64::MIN, 1));
    assert!(change_fits_counter(i64::MIN, 2));
    assert!(change_fits_counter(i64::MAX, 3));
}
