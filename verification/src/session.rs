//! The whole state of the editor host: the document, the recent files and
//! the mounted folder, and the operations that touch more than one of them.

use vstd::prelude::*;
use vstd::utf8::{decode_utf8, valid_utf8};
use crate::document::{begin_save, counter_of, mark_saved, utf8_lossy, DocumentState};
use crate::mount::{mount_for_opened_path, set_mount_folder_if_empty, spec_mount_after_open};
use crate::paths::{opt_view, parent_of, path_parent};
use crate::recent::{record_recent_file, spec_record_recent, texts};

verus! {

/// Document, recent files and mounted folder.
#[derive(Debug)]
pub struct Session {
    pub document: DocumentState,
    pub recent_files: Vec<String>,
    pub mount_folder: Option<String>,
}

impl Session {
    /// An untitled document, no recent files, no mounted folder.
    pub fn new() -> (s: Self)
        ensures
            s.document.path is None,
            s.document.content@ == Seq::<char>::empty(),
            s.document.encoding@ == "utf-8"@,
            !s.document.dirty,
            s.document.change_count == 0,
            !s.document.edited,
            !s.document.spec_is_edited(),
            s.recent_files@.len() == 0,
            s.mount_folder is None,
    {
        Session { document: DocumentState::untitled(), recent_files: Vec::new(), mount_folder: None }
    }
}

/// The file at `path`, read as `bytes`, becomes the document and the most
/// recent file.
pub fn open_document_from(session: &mut Session, path: String, bytes: &[u8])
    ensures
        final(session).document.path_view() == Some(path@),
        final(session).document.content@ == utf8_lossy(bytes@),
        valid_utf8(bytes@) ==> final(session).document.content@ == decode_utf8(bytes@),
        final(session).document.encoding@ == "utf-8"@,
        !final(session).document.dirty,
        !final(session).document.spec_is_edited(),
        !final(session).document.edited,
        final(session).document.change_count == 0,
        texts(final(session).recent_files@) == spec_record_recent(texts(old(session).recent_files@), path@),
        final(session).mount_folder == old(session).mount_folder,
{
    let recorded = path.clone();
    session.document = DocumentState::open(path, bytes);
    record_recent_file(&mut session.recent_files, recorded.as_str());
}

/// The first step of a save: the target path (see `begin_save`) and the text
/// to write there.
pub fn save_target(session: &mut Session, path: Option<String>) -> (target: (String, String))
    ensures
        final(session).document.path_view() == (match path {
            Some(p) => Some(p@),
            None => old(session).document.path_view(),
        }),
        final(session).document.content == old(session).document.content,
        final(session).document.encoding == old(session).document.encoding,
        counter_of(final(session).document) == counter_of(old(session).document),
        final(session).recent_files == old(session).recent_files,
        final(session).mount_folder == old(session).mount_folder,
        target.0@ == (match final(session).document.path_view() {
            Some(p) => p,
            None => "Untitled.md"@,
        }),
        target.1 == old(session).document.content,
{
    begin_save(&mut session.document, path)
}

/// The text was written to `path`: the document belongs to it and is clean,
/// `path` is the most recent file, and its folder is mounted when none was.
pub fn complete_save(session: &mut Session, path: String)
    ensures
        final(session).document.path_view() == Some(path@),
        final(session).document.content == old(session).document.content,
        final(session).document.encoding == old(session).document.encoding,
        !final(session).document.dirty,
        final(session).document.change_count == 0,
        !final(session).document.spec_is_edited(),
        !final(session).document.edited,
        texts(final(session).recent_files@) == spec_record_recent(texts(old(session).recent_files@), path@),
        opt_view(final(session).mount_folder) == (match old(session).mount_folder {
            Some(m) => Some(m@),
            None => path_parent(path@),
        }),
{
    let parent = parent_of(path.as_str());
    let recorded = path.clone();
    mark_saved(&mut session.document, path);
    record_recent_file(&mut session.recent_files, recorded.as_str());
    set_mount_folder_if_empty(&mut session.mount_folder, parent);
}

/// Updates the mounted folder for opening `path` (a folder when `is_dir`).
pub fn mount_opened_path(session: &mut Session, path: &str, is_dir: bool)
    ensures
        opt_view(final(session).mount_folder) == spec_mount_after_open(opt_view(old(session).mount_folder), path@, is_dir),
        final(session).document == old(session).document,
        final(session).recent_files == old(session).recent_files,
{
    mount_for_opened_path(&mut session.mount_folder, path, is_dir);
}

} // verus!
