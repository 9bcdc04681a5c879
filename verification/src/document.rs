//! The open Markdown document: its path, text, and the TypeMark change
//! counter that decides whether it has unsaved edits.

use vstd::prelude::*;
use vstd::string::*;
use vstd::utf8::*;
use crate::paths::{file_name_of, opt_view, parent_of, path_file_name, path_parent};

verus! {

/// The text that `String::from_utf8_lossy` makes of `bytes` (invalid
/// sequences replaced by U+FFFD).
pub uninterp spec fn utf8_lossy(bytes: Seq<u8>) -> Seq<char>;

/// Calls `String::from_utf8_lossy`. Its documentation says that valid UTF-8
/// comes back unchanged; the contract states that, and names the result of
/// every other input `utf8_lossy`.
#[verifier::external_body]
pub(crate) fn decode_utf8_lossy(bytes: &[u8]) -> (res: String)
    ensures
        res@ == utf8_lossy(bytes@),
        valid_utf8(bytes@) ==> res@ == decode_utf8(bytes@),
{
    String::from_utf8_lossy(bytes).into_owned()
}

/// The state of the one document the window edits.
#[derive(Debug)]
pub struct DocumentState {
    pub path: Option<String>,
    pub content: String,
    pub encoding: String,
    pub dirty: bool,
    /// TypeMark change counter: positive means edits since the last save.
    pub change_count: i64,
    /// Whether the document was ever edited since it was loaded or saved.
    pub edited: bool,
}

/// The counter fields `(change_count, dirty, edited)` after TypeMark reports
/// a change of the given type: 0 done, 1 undone, 2 cleared, 3 read other
/// contents, 4 autosaved, 5 redone; any other value changes nothing.
pub open spec fn counter_after(count: int, dirty: bool, edited: bool, change_type: int) -> (int, bool, bool) {
    if change_type == 0 || change_type == 5 {
        (count + 1, true, true)
    } else if change_type == 1 {
        (count - 1, if count - 1 <= 0 { false } else { dirty }, edited)
    } else if change_type == 2 || change_type == 4 {
        (0, false, edited)
    } else {
        (count, dirty, edited)
    }
}

/// A change of this type can be counted without leaving `i64`.
pub open spec fn change_fits(count: i64, change_type: i64) -> bool {
    &&& (change_type == 0 || change_type == 5) ==> count < i64::MAX
    &&& change_type == 1 ==> count > i64::MIN
}

/// Whether a change of this type can be counted without leaving `i64`.
pub fn change_fits_counter(count: i64, change_type: i64) -> (r: bool)
    ensures
        r == change_fits(count, change_type),
{
    if change_type == 0 || change_type == 5 {
        count < i64::MAX
    } else if change_type == 1 {
        count > i64::MIN
    } else {
        true
    }
}

/// The name shown for a document: its file name, else "Untitled".
pub open spec fn spec_display_name(path: Option<Seq<char>>) -> Seq<char> {
    match path {
        Some(p) => match path_file_name(p) {
            Some(n) => n,
            None => "Untitled"@,
        },
        None => "Untitled"@,
    }
}

/// The folder that holds the document.
pub open spec fn spec_folder(path: Option<Seq<char>>) -> Option<Seq<char>> {
    match path {
        Some(p) => path_parent(p),
        None => None,
    }
}

/// The document state that TypeMark reads (`File.setDocumentState`); the
/// remaining keys of that record are constants.
#[derive(Debug)]
pub struct TypemarkState {
    pub current_file_path: Option<String>,
    pub file_name: String,
    pub file_encode: String,
    pub current_folder_path: Option<String>,
    pub has_modified: bool,
}

/// What `document.loadData` answers: the text, no snapshot, and the state.
#[derive(Debug)]
pub struct LoadResponse {
    pub content: String,
    pub state: TypemarkState,
}

impl DocumentState {
    pub open spec fn path_view(&self) -> Option<Seq<char>> {
        opt_view(self.path)
    }

    /// Unsaved edits: the counter is positive or the text was marked dirty.
    pub open spec fn spec_is_edited(&self) -> bool {
        self.change_count > 0 || self.dirty
    }

    /// An empty document with no file behind it.
    pub fn untitled() -> (doc: Self)
        ensures
            doc.path is None,
            doc.content@ == Seq::<char>::empty(),
            doc.encoding@ == "utf-8"@,
            !doc.dirty,
            doc.change_count == 0,
            !doc.edited,
    {
        DocumentState {
            path: None,
            content: String::new(),
            encoding: String::from_str("utf-8"),
            dirty: false,
            change_count: 0,
            edited: false,
        }
    }

    /// The document read from the file at `path`, whose bytes are `bytes`.
    pub fn open(path: String, bytes: &[u8]) -> (doc: Self)
        ensures
            doc.path_view() == Some(path@),
            doc.content@ == utf8_lossy(bytes@),
            valid_utf8(bytes@) ==> doc.content@ == decode_utf8(bytes@),
            doc.encoding@ == "utf-8"@,
            !doc.dirty,
            doc.change_count == 0,
            !doc.edited,
    {
        let content = decode_utf8_lossy(bytes);
        DocumentState {
            path: Some(path),
            content,
            encoding: String::from_str("utf-8"),
            dirty: false,
            change_count: 0,
            edited: false,
        }
    }

    /// The file name of the document, or "Untitled".
    pub fn display_name(&self) -> (name: String)
        ensures
            name@ == spec_display_name(self.path_view()),
    {
        match &self.path {
            Some(p) => match file_name_of(p.as_str()) {
                Some(n) => n,
                None => String::from_str("Untitled"),
            },
            None => String::from_str("Untitled"),
        }
    }

    /// The folder that holds the document's file.
    pub fn folder(&self) -> (dir: Option<String>)
        ensures
            opt_view(dir) == spec_folder(self.path_view()),
    {
        match &self.path {
            Some(p) => parent_of(p.as_str()),
            None => None,
        }
    }

    /// Whether the document has unsaved edits.
    pub fn is_edited(&self) -> (r: bool)
        ensures
            r == self.spec_is_edited(),
    {
        self.change_count > 0 || self.dirty
    }

    /// The state record handed to TypeMark.
    pub fn typemark_state(&self) -> (st: TypemarkState)
        ensures
            opt_view(st.current_file_path) == self.path_view(),
            st.file_name@ == spec_display_name(self.path_view()),
            st.file_encode@ == self.encoding@,
            opt_view(st.current_folder_path) == spec_folder(self.path_view()),
            st.has_modified == self.spec_is_edited(),
    {
        let current_file_path = match &self.path {
            Some(p) => Some(p.clone()),
            None => None,
        };
        TypemarkState {
            current_file_path,
            file_name: self.display_name(),
            file_encode: self.encoding.clone(),
            current_folder_path: self.folder(),
            has_modified: self.is_edited(),
        }
    }
}


/// The document's counter fields as a triple.
pub open spec fn counter_of(doc: DocumentState) -> (int, bool, bool) {
    (doc.change_count as int, doc.dirty, doc.edited)
}

/// Everything but the counter fields is the same in both states.
pub open spec fn same_file_and_text(a: DocumentState, b: DocumentState) -> bool {
    &&& a.path == b.path
    &&& a.content == b.content
    &&& a.encoding == b.encoding
}

/// Applies a TypeMark change type to the document's change counter
/// (0 done, 1 undone, 2 cleared, 3 read other contents, 4 autosaved,
/// 5 redone, -1 a failed save; other values are ignored).
pub fn apply_change_count(doc: &mut DocumentState, change_type: i64)
    requires
        change_fits(old(doc).change_count, change_type),
    ensures
        same_file_and_text(*final(doc), *old(doc)),
        counter_of(*final(doc)) == counter_after(
            old(doc).change_count as int,
            old(doc).dirty,
            old(doc).edited,
            change_type as int,
        ),
{
    if change_type == 0 || change_type == 5 {
        doc.change_count = doc.change_count + 1;
        doc.edited = true;
        doc.dirty = true;
    } else if change_type == 1 {
        doc.change_count = doc.change_count - 1;
        if doc.change_count <= 0 {
            doc.dirty = false;
        }
    } else if change_type == 2 || change_type == 4 {
        doc.change_count = 0;
        doc.dirty = false;
    }
}

/// `document.updateChangeCount`: applies the change and says whether the
/// edited state, and so the window title, changed.
pub fn update_change_count(doc: &mut DocumentState, change_type: i64) -> (title_changed: bool)
    requires
        change_fits(old(doc).change_count, change_type),
    ensures
        same_file_and_text(*final(doc), *old(doc)),
        counter_of(*final(doc)) == counter_after(
            old(doc).change_count as int,
            old(doc).dirty,
            old(doc).edited,
            change_type as int,
        ),
        title_changed == (old(doc).spec_is_edited() != final(doc).spec_is_edited()),
{
    let before = doc.is_edited();
    apply_change_count(doc, change_type);
    let after = doc.is_edited();
    before != after
}

/// `document.updateChangeCountIfUnedited`: applies the change only to a
/// document that was never edited, and says whether the title changed.
pub fn update_change_count_if_unedited(doc: &mut DocumentState, change_type: i64) -> (title_changed: bool)
    requires
        !old(doc).edited ==> change_fits(old(doc).change_count, change_type),
    ensures
        same_file_and_text(*final(doc), *old(doc)),
        old(doc).edited ==> counter_of(*final(doc)) == counter_of(*old(doc)),
        !old(doc).edited ==> counter_of(*final(doc)) == counter_after(
            old(doc).change_count as int,
            old(doc).dirty,
            old(doc).edited,
            change_type as int,
        ),
        title_changed == (old(doc).spec_is_edited() != final(doc).spec_is_edited()),
{
    let before = doc.is_edited();
    if !doc.edited {
        apply_change_count(doc, change_type);
    }
    let after = doc.is_edited();
    before != after
}

/// Replaces the text with what the editor holds and counts it as an edit.
pub fn set_document_content(doc: &mut DocumentState, content: String) -> (accepted: bool)
    requires
        old(doc).change_count < i64::MAX,
    ensures
        accepted,
        final(doc).content == content,
        final(doc).path == old(doc).path,
        final(doc).encoding == old(doc).encoding,
        final(doc).dirty,
        final(doc).change_count == old(doc).change_count + 1,
        final(doc).edited,
{
    doc.content = content;
    doc.dirty = true;
    doc.change_count = doc.change_count + 1;
    doc.edited = true;
    true
}

/// `document.loadData`: the text and the state record.
pub fn document_load_response(doc: &DocumentState) -> (r: LoadResponse)
    ensures
        r.content == doc.content,
        opt_view(r.state.current_file_path) == doc.path_view(),
        r.state.file_name@ == spec_display_name(doc.path_view()),
        r.state.file_encode@ == doc.encoding@,
        opt_view(r.state.current_folder_path) == spec_folder(doc.path_view()),
        r.state.has_modified == doc.spec_is_edited(),
{
    LoadResponse { content: doc.content.clone(), state: doc.typemark_state() }
}

/// The window title: the document name, a bullet while there are unsaved
/// edits, and the application name.
pub open spec fn spec_window_title(doc: DocumentState) -> Seq<char> {
    spec_display_name(doc.path_view()) + (if doc.spec_is_edited() { " •"@ } else { Seq::empty() })
        + " — notypo"@
}

/// The title of the editor window for this document.
pub fn window_title(doc: &DocumentState) -> (title: String)
    ensures
        title@ == spec_window_title(*doc),
{
    let mut title = doc.display_name();
    if doc.is_edited() {
        title.append(" •");
    }
    title.append(" — notypo");
    title
}

/// Where a save goes: the path given (which the document then takes), else
/// the document's own path, else "Untitled.md"; returns that path and the text.
pub fn begin_save(doc: &mut DocumentState, path: Option<String>) -> (target: (String, String))
    ensures
        final(doc).path_view() == (match path {
            Some(p) => Some(p@),
            None => old(doc).path_view(),
        }),
        final(doc).content == old(doc).content,
        final(doc).encoding == old(doc).encoding,
        counter_of(*final(doc)) == counter_of(*old(doc)),
        target.0@ == (match final(doc).path_view() {
            Some(p) => p,
            None => "Untitled.md"@,
        }),
        target.1 == old(doc).content,
{
    if let Some(p) = path {
        doc.path = Some(p);
    }
    let target = match &doc.path {
        Some(p) => p.clone(),
        None => String::from_str("Untitled.md"),
    };
    (target, doc.content.clone())
}

/// After the text was written to `path`: the document belongs to that file
/// and has no unsaved edits.
pub fn mark_saved(doc: &mut DocumentState, path: String)
    ensures
        final(doc).path_view() == Some(path@),
        final(doc).content == old(doc).content,
        final(doc).encoding == old(doc).encoding,
        !final(doc).dirty,
        final(doc).change_count == 0,
        !final(doc).edited,
{
    doc.path = Some(path);
    doc.dirty = false;
    doc.change_count = 0;
    doc.edited = false;
}

/// The file was read again from disk as `bytes`: when its text differs from
/// the document's, the document takes it and has no unsaved edits; says
/// whether it changed.
pub fn reload_content(doc: &mut DocumentState, bytes: &[u8]) -> (changed: bool)
    ensures
        changed == (utf8_lossy(bytes@) != old(doc).content@),
        !changed ==> *final(doc) == *old(doc),
        changed ==> {
            &&& final(doc).content@ == utf8_lossy(bytes@)
            &&& (valid_utf8(bytes@) ==> final(doc).content@ == decode_utf8(bytes@))
            &&& final(doc).path == old(doc).path
            &&& final(doc).encoding == old(doc).encoding
            &&& !final(doc).dirty
            &&& final(doc).change_count == 0
            &&& !final(doc).edited
        },
{
    let content = decode_utf8_lossy(bytes);
    if content == doc.content {
        return false;
    }
    doc.content = content;
    doc.dirty = false;
    doc.change_count = 0;
    doc.edited = false;
    true
}


/// When the application becomes active: a document without unsaved edits
/// takes the text now on disk (`bytes`, see `reload_content`); one with
/// unsaved edits is never replaced. Says whether the document changed.
pub fn reload_if_unedited(doc: &mut DocumentState, bytes: &[u8]) -> (changed: bool)
    ensures
        old(doc).spec_is_edited() ==> !changed && *final(doc) == *old(doc),
        !old(doc).spec_is_edited() ==> changed == (utf8_lossy(bytes@) != old(doc).content@),
        changed ==> {
            &&& final(doc).content@ == utf8_lossy(bytes@)
            &&& (valid_utf8(bytes@) ==> final(doc).content@ == decode_utf8(bytes@))
            &&& final(doc).path == old(doc).path
            &&& final(doc).encoding == old(doc).encoding
            &&& !final(doc).dirty
            &&& final(doc).change_count == 0
            &&& !final(doc).spec_is_edited()
            &&& !final(doc).edited
        },
        !changed ==> *final(doc) == *old(doc),
{
    if doc.is_edited() {
        return false;
    }
    reload_content(doc, bytes)
}

/// An undo right after an edit gives back the counter and the dirty mark of
/// a document whose dirty mark says whether its counter is positive; the
/// document stays marked as ever edited.
pub proof fn lemma_undo_after_edit(count: int, dirty: bool, edited: bool)
    requires
        dirty == (count > 0),
    ensures
        ({
            let done = counter_after(count, dirty, edited, 0);
            let undone = counter_after(done.0, done.1, done.2, 1);
            undone == (count, dirty, true)
        }),
{
}

/// Every change type keeps "a positive counter comes with the dirty mark".
pub proof fn lemma_change_keeps_dirty_mark(count: int, dirty: bool, edited: bool, change_type: int)
    requires
        count > 0 ==> dirty,
    ensures
        ({
            let after = counter_after(count, dirty, edited, change_type);
            after.0 > 0 ==> after.1
        }),
{
}

/// An edit (done or redone) leaves the document with unsaved edits, marked
/// as ever edited; a clear or an autosave leaves it with none; the other
/// change types change nothing.
pub proof fn lemma_change_outcomes(count: int, dirty: bool, edited: bool, change_type: int)
    ensures
        (change_type == 0 || change_type == 5) ==> ({
            let after = counter_after(count, dirty, edited, change_type);
            (after.0 > 0 || after.1) && after.2
        }),
        (change_type == 2 || change_type == 4) ==> ({
            let after = counter_after(count, dirty, edited, change_type);
            !(after.0 > 0 || after.1)
        }),
        !(0 <= change_type <= 2 || change_type == 4 || change_type == 5) ==>
            counter_after(count, dirty, edited, change_type) == (count, dirty, edited),
{
}

/// `updateChangeCountIfUnedited` counts at most one change: once it counted
/// an edit, the document is marked as ever edited and later calls change
/// nothing.
pub proof fn lemma_if_unedited_counts_once(count: int, dirty: bool)
    ensures
        counter_after(count, dirty, false, 0).2,
{
}

/// What each change type does to the counter, the dirty mark and the
/// ever-edited mark: an edit (done or redone) counts one up and marks both;
/// an undo counts one down, keeps the ever-edited mark, and the dirty mark
/// stays only while the counter is still positive; a clear and an autosave
/// zero the counter and the dirty mark and keep the ever-edited mark.
pub proof fn lemma_change_effects(count: int, dirty: bool, edited: bool, change_type: int)
    ensures
        (change_type == 0 || change_type == 5) ==> counter_after(count, dirty, edited, change_type) == (count + 1, true, true),
        change_type == 1 ==> counter_after(count, dirty, edited, change_type) == (count - 1, dirty && count - 1 > 0, edited),
        (change_type == 2 || change_type == 4) ==> counter_after(count, dirty, edited, change_type) == (0int, false, edited),
        counter_after(count, dirty, edited, 5) == counter_after(count, dirty, edited, 0),
{
}

/// Only an edit (done or redone) sets the ever-edited mark; every other
/// change type, an autosave and a clear among them, leaves it as it was.
pub proof fn lemma_only_edits_mark_edited(count: int, dirty: bool, edited: bool, change_type: int)
    ensures
        change_type != 0 && change_type != 5 ==> counter_after(count, dirty, edited, change_type).2 == edited,
        change_type == 0 || change_type == 5 ==> counter_after(count, dirty, edited, change_type).2,
{
}

/// After an edit and an autosave, `updateChangeCountIfUnedited` finds the
/// document marked as ever edited, and so counts nothing.
pub proof fn lemma_autosave_keeps_edited(count: int, dirty: bool, edited: bool)
    ensures
        ({
            let done = counter_after(count, dirty, edited, 0);
            let saved = counter_after(done.0, done.1, done.2, 4);
            saved == (0int, false, true)
        }),
{
}

/// Unsaved edits: the counter is positive or the document is dirty.
pub open spec fn has_unsaved_edits(doc: DocumentState) -> bool {
    doc.change_count > 0 || doc.dirty
}

/// The title holds the name, then " •" exactly when there are unsaved
/// edits, then " — notypo": two documents with the same path have the same
/// title when both or neither have unsaved edits, and different titles
/// otherwise; the ever-edited mark plays no part.
pub proof fn lemma_title_marks_unsaved_edits(a: DocumentState, b: DocumentState)
    requires
        a.path == b.path,
    ensures
        has_unsaved_edits(a) == has_unsaved_edits(b) ==> spec_window_title(a) == spec_window_title(b),
        has_unsaved_edits(a) != has_unsaved_edits(b) ==> spec_window_title(a) != spec_window_title(b),
        spec_window_title(a).len() == spec_display_name(a.path_view()).len() + (if has_unsaved_edits(a) { 2int } else { 0int }) + " — notypo"@.len(),
{
    reveal_strlit(" •");
    let n = spec_display_name(a.path_view());
    let tail = " — notypo"@;
    if has_unsaved_edits(a) != has_unsaved_edits(b) {
        assert(spec_window_title(a).len() != spec_window_title(b).len());
    }
}

/// An edit followed by its undo gives back the title the document had
/// before the edit, for a document whose dirty mark says whether its counter
/// is positive.
pub proof fn lemma_title_after_edit_and_undo(before: DocumentState, after: DocumentState)
    requires
        before.dirty == (before.change_count > 0),
        after.path == before.path,
        ({
            let done = counter_after(before.change_count as int, before.dirty, before.edited, 0);
            counter_of(after) == counter_after(done.0, done.1, done.2, 1)
        }),
    ensures
        spec_window_title(after) == spec_window_title(before),
{
    lemma_title_marks_unsaved_edits(after, before);
}

/// A document is named by the file name of its path; a document without a
/// path, or whose path has no file name, is "Untitled"; its folder is the
/// parent of its path.
pub proof fn lemma_display_name(path: Seq<char>)
    ensures
        spec_display_name(None) == "Untitled"@,
        path_file_name(path) matches Some(n) ==> spec_display_name(Some(path)) == n,
        path_file_name(path) is None ==> spec_display_name(Some(path)) == "Untitled"@,
        spec_folder(Some(path)) == path_parent(path),
        spec_folder(None) is None,
{
}

} // verus!
