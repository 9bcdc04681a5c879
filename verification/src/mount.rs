//! The folder mounted in the file sidebar.

use vstd::prelude::*;
use crate::document::{spec_folder, DocumentState};
use crate::paths::{opt_view, parent_of, path_parent};

verus! {

/// Mounts `path` (or unmounts, for `None`).
pub fn set_mount_folder(mount: &mut Option<String>, path: Option<String>)
    ensures
        *final(mount) == path,
{
    *mount = path;
}

/// Mounts `path` only when no folder is mounted.
pub fn set_mount_folder_if_empty(mount: &mut Option<String>, path: Option<String>)
    ensures
        *old(mount) is None ==> *final(mount) == path,
        *old(mount) is Some ==> *final(mount) == *old(mount),
{
    if mount.is_none() {
        *mount = path;
    }
}

/// The folder the sidebar shows: the mounted one, else the document's folder.
pub open spec fn spec_current_mount_folder(mount: Option<Seq<char>>, doc: DocumentState) -> Option<Seq<char>> {
    match mount {
        Some(m) => Some(m),
        None => spec_folder(doc.path_view()),
    }
}

/// The folder the sidebar shows: the mounted one, else the document's folder.
pub fn current_mount_folder(mount: &Option<String>, doc: &DocumentState) -> (folder: Option<String>)
    ensures
        opt_view(folder) == spec_current_mount_folder(opt_view(*mount), *doc),
{
    match mount {
        Some(m) => Some(m.clone()),
        None => doc.folder(),
    }
}

/// The mount after `path` was opened: a folder is mounted itself; a file
/// mounts its parent folder, unless a folder is mounted already.
pub open spec fn spec_mount_after_open(mount: Option<Seq<char>>, path: Seq<char>, is_dir: bool) -> Option<Seq<char>> {
    if is_dir {
        Some(path)
    } else {
        match mount {
            Some(m) => Some(m),
            None => path_parent(path),
        }
    }
}

/// Updates the mount for opening `path`, which is a folder when `is_dir`.
pub fn mount_for_opened_path(mount: &mut Option<String>, path: &str, is_dir: bool)
    ensures
        opt_view(*final(mount)) == spec_mount_after_open(opt_view(*old(mount)), path@, is_dir),
{
    if is_dir {
        set_mount_folder(mount, Some(path.to_owned()));
    } else {
        set_mount_folder_if_empty(mount, parent_of(path));
    }
}

/// Opening a file never changes a folder that is already mounted.
pub proof fn lemma_open_file_keeps_mount(mount: Seq<char>, path: Seq<char>)
    ensures
        spec_mount_after_open(Some(mount), path, false) == Some(mount),
{
}

/// Opening a folder mounts it, and the sidebar then shows it whatever the
/// document is.
pub proof fn lemma_open_folder_mounts_it(mount: Option<Seq<char>>, path: Seq<char>, doc: DocumentState)
    ensures
        spec_current_mount_folder(spec_mount_after_open(mount, path, true), doc) == Some(path),
{
}

} // verus!
