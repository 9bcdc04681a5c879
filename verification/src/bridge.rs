//! Routing of the messages the editor page sends to the host.

use vstd::prelude::*;
use vstd::string::*;
use crate::paths::opt_view;
use crate::text::{chars_of, push_char, text_eq};

verus! {

/// What the host does for a bridge message, by its handler name.
#[derive(Debug, Clone, Copy, PartialEq, Eq, Structural)]
pub enum BridgeRoute {
    /// Answer the document text and state.
    LoadData,
    /// Open the file named by the data, then answer the document text and state.
    SwitchDocument,
    /// Answer the document text.
    GetContent,
    /// Take the data as the document text.
    SetContent,
    /// Take the data, or its second item, as the document text.
    SyncFullContent,
    /// Apply the change type in the data to the change counter.
    UpdateChangeCount,
    /// Apply the change type in the data to a document never edited.
    UpdateChangeCountIfUnedited,
    /// Nothing to do; answer null.
    Ignored,
    /// Run the open panel for a file or a folder.
    SelectFolderOrFile,
    /// Run the save panel.
    ShowSaveDialog,
    /// Open the path in the data; answer true.
    OpenFile,
    /// Run the open panel and open what was chosen.
    OpenFileOrFolder,
    /// Save the document to its path.
    Save,
    /// Save the document to the path in the data or one chosen in the save panel.
    SaveAs,
    /// Answer whether a folder is shown in the sidebar.
    ShouldLoadFolder,
    /// Move the window by the offset in the data.
    DragBy,
    /// Answer false.
    AnswerFalse,
    /// Answer true.
    AnswerTrue,
    /// Answer the recent files.
    GetRecentFiles,
    /// Record the path in the data as a recent file.
    UpdateRecentFile,
    /// Remove the path in the data from the recent files.
    RemoveRecentDocument,
    /// Send the recent files to the editor.
    CacheRecentFiles,
    /// Run the script in the data.
    ExecForAll,
    /// Bring the window to the front.
    Focus,
    /// Reset the page zoom.
    ResetZoom,
    /// Zoom the page in.
    ZoomIn,
    /// Zoom the page out.
    ZoomOut,
    /// Log the dialog request.
    ShowDialog,
    /// Paste as plain text.
    PasteAsPlainText,
    /// Open the URL in the data in the browser.
    OpenUrl,
    /// Open the folder in the data in Finder.
    OpenFolderInFinder,
    /// Select the file in the data in Finder.
    ShowInFinder,
    /// Answer whether the path in the data is a folder.
    IsDirectory,
    /// Move the file named first in the data to the second path.
    MoveFile,
    /// Remove the file or files in the data.
    RemoveFiles,
    /// Answer an empty list.
    EmptyList,
    /// Mount the folder in the data, or open the file.
    OpenFolder,
    /// Run the editor command in the data.
    RunCommand,
    /// Run the open panel for a folder and mount it.
    SelectFolder,
    /// Answer the folder shown in the sidebar.
    CalcMountFolder,
    /// Open the path in the data in this window.
    OpenInWindow,
    /// Log the error dialog request.
    ShowErrorDialog,
    /// Open the path in the data; answer whether it opened.
    SwitchDocumentTarget,
    /// Answer the clipboard text.
    ClipboardRead,
    /// Put the text in the data on the clipboard.
    ClipboardWrite,
    /// Answer the tree of the folder in the data, else of the mounted folder.
    FetchAllDocs,
    /// Answer the tree of the folder in the data.
    ListDocsUnder,
    /// Answer no recent folders.
    NoRecentFolders,
    /// Scroll the editor to the anchor in the data.
    JumpToAnchor,
    /// Not a known handler: log it and answer null.
    Unhandled,
}

/// The route of a handler name.
pub open spec fn spec_bridge_route(handler: Seq<char>) -> BridgeRoute {
    if handler == "document.loadData"@ {
        BridgeRoute::LoadData
    } else if handler == "document.switchDocument"@ {
        BridgeRoute::SwitchDocument
    } else if handler == "document.getContent"@ {
        BridgeRoute::GetContent
    } else if handler == "document.setContent"@ {
        BridgeRoute::SetContent
    } else if
        handler == "document.syncFullContent"@
        || handler == "controller.syncFullContent"@
    {
        BridgeRoute::SyncFullContent
    } else if handler == "document.updateChangeCount"@ {
        BridgeRoute::UpdateChangeCount
    } else if handler == "document.updateChangeCountIfUnedited"@ {
        BridgeRoute::UpdateChangeCountIfUnedited
    } else if handler == "document.syncChangeIfNeeded"@ {
        BridgeRoute::Ignored
    } else if
        handler == "document.addSnapAndLastSync"@
        || handler == "document.addSnap"@
        || handler == "document.setLastSync"@
        || handler == "document.noOtherWindow"@
        || handler == "document.needsUpdateSnap"@
        || handler == "document.requestBuildSnap"@
        || handler == "document.recordUnusedAssets"@
        || handler == "document.hasDuplicateName"@
        || handler == "document.checkIfMoveOnSave"@
    {
        BridgeRoute::Ignored
    } else if handler == "path.selectFolderOrFile"@ {
        BridgeRoute::SelectFolderOrFile
    } else if
        handler == "path.showSaveDialog"@
        || handler == "dialog.showSaveDialog"@
    {
        BridgeRoute::ShowSaveDialog
    } else if
        handler == "app.openFile"@
        || handler == "path.openFile"@
    {
        BridgeRoute::OpenFile
    } else if handler == "app.openFileOrFolder"@ {
        BridgeRoute::OpenFileOrFolder
    } else if handler == "document.save"@ {
        BridgeRoute::Save
    } else if handler == "document.saveAs"@ {
        BridgeRoute::SaveAs
    } else if handler == "controller.shouldLoadFolder"@ {
        BridgeRoute::ShouldLoadFolder
    } else if handler == "window.dragBy"@ {
        BridgeRoute::DragBy
    } else if handler == "window.updateMenuForIsAlwaysOnTop"@ {
        BridgeRoute::AnswerFalse
    } else if handler == "window.loadFinished"@ {
        BridgeRoute::AnswerTrue
    } else if
        handler == "window.refreshFullContentState"@
        || handler == "window.setBackground"@
        || handler == "window.setTitlebarTextMarginLeft"@
        || handler == "window.setInSourceMode"@
        || handler == "window.checkAsFocus"@
        || handler == "menu.updateMenu"@
        || handler == "touchBar.setBlockStyle"@
        || handler == "touchBar.setInlineEnabled"@
        || handler == "touchBar.setInlineStates"@
        || handler == "word.updateWordCount"@
    {
        BridgeRoute::Ignored
    } else if
        handler == "setting.get"@
        || handler == "setting.readSetting"@
    {
        BridgeRoute::Ignored
    } else if handler == "setting.getRecentFiles"@ {
        BridgeRoute::GetRecentFiles
    } else if handler == "setting.updateRecentFile"@ {
        BridgeRoute::UpdateRecentFile
    } else if handler == "setting.removeRecentDocument"@ {
        BridgeRoute::RemoveRecentDocument
    } else if handler == "quickOpen.cacheRecentFiles"@ {
        BridgeRoute::CacheRecentFiles
    } else if
        handler == "logger.debug"@
        || handler == "logger.error"@
        || handler == "logger.info"@
    {
        BridgeRoute::Ignored
    } else if handler == "window.execForAll"@ {
        BridgeRoute::ExecForAll
    } else if handler == "window.focus"@ {
        BridgeRoute::Focus
    } else if handler == "window.resetZoom"@ {
        BridgeRoute::ResetZoom
    } else if handler == "window.zoomIn"@ {
        BridgeRoute::ZoomIn
    } else if handler == "window.zoomOut"@ {
        BridgeRoute::ZoomOut
    } else if handler == "window.showDialog"@ {
        BridgeRoute::ShowDialog
    } else if handler == "window.pasteAsPlainText"@ {
        BridgeRoute::PasteAsPlainText
    } else if
        handler == "window.updateUIAfterExitSourceMode"@
        || handler == "window.previewFile"@
        || handler == "window.open"@
        || handler == "window.selectNextTab"@
        || handler == "window.selectPreviousTab"@
        || handler == "window.setIsSchemeAwareness"@
    {
        BridgeRoute::Ignored
    } else if handler == "path.openURL"@ {
        BridgeRoute::OpenUrl
    } else if handler == "path.openFolderInFinder"@ {
        BridgeRoute::OpenFolderInFinder
    } else if handler == "path.showInFinder"@ {
        BridgeRoute::ShowInFinder
    } else if handler == "path.isDirectory"@ {
        BridgeRoute::IsDirectory
    } else if
        handler == "path.moveTo"@
        || handler == "path.moveFile"@
    {
        BridgeRoute::MoveFile
    } else if handler == "path.removeFiles"@ {
        BridgeRoute::RemoveFiles
    } else if handler == "quickOpen.query"@ {
        BridgeRoute::EmptyList
    } else if
        handler == "quickOpen.stopQuery"@
        || handler == "quickOpen.reindexFolderIfNeeded"@
    {
        BridgeRoute::Ignored
    } else if
        handler == "controller.openFolder"@
        || handler == "controller.switchFolder"@
    {
        BridgeRoute::OpenFolder
    } else if handler == "controller.runCommand"@ {
        BridgeRoute::RunCommand
    } else if handler == "controller.selectFolder"@ {
        BridgeRoute::SelectFolder
    } else if handler == "controller.calcMountFolder"@ {
        BridgeRoute::CalcMountFolder
    } else if
        handler == "controller.openInNewWindow"@
        || handler == "controller.openInTypora"@
    {
        BridgeRoute::OpenInWindow
    } else if handler == "controller.showErrorDialog"@ {
        BridgeRoute::ShowErrorDialog
    } else if handler == "controller.switchDocumentTarget"@ {
        BridgeRoute::SwitchDocumentTarget
    } else if
        handler == "controller.startDrag"@
        || handler == "controller.bindFolderMonitor"@
    {
        BridgeRoute::Ignored
    } else if handler == "clipboard.read"@ {
        BridgeRoute::ClipboardRead
    } else if handler == "clipboard.write"@ {
        BridgeRoute::ClipboardWrite
    } else if handler == "clipboard.postCopy"@ {
        BridgeRoute::Ignored
    } else if
        handler == "clipboard.readImage"@
        || handler == "clipboard.writeImage"@
    {
        BridgeRoute::Ignored
    } else if handler == "setting.put"@ {
        BridgeRoute::Ignored
    } else if handler == "setting.fetchAnalytics"@ {
        BridgeRoute::Ignored
    } else if handler == "setting.showAndHighlight"@ {
        BridgeRoute::Ignored
    } else if handler == "library.fetchAllDocs"@ {
        BridgeRoute::FetchAllDocs
    } else if handler == "library.listDocsUnder"@ {
        BridgeRoute::ListDocsUnder
    } else if handler == "library.search"@ {
        BridgeRoute::EmptyList
    } else if handler == "library.getRecentFolders"@ {
        BridgeRoute::NoRecentFolders
    } else if
        handler == "library.newFile"@
        || handler == "library.newFileUnder"@
        || handler == "library.newFolder"@
        || handler == "library.renameFile"@
        || handler == "library.moveFile"@
        || handler == "library.duplicate"@
        || handler == "library.trashItem"@
        || handler == "library.showProperty"@
        || handler == "library.updateListItem"@
        || handler == "library.updateListItemIfIsOpen"@
    {
        BridgeRoute::Ignored
    } else if
        handler == "images.insertLocalImage"@
        || handler == "images.copyImage"@
        || handler == "images.savePNG"@
        || handler == "images.upload"@
        || handler == "images.startCopyAllImages"@
        || handler == "images.addToBundle"@
        || handler == "images.prepImageMove"@
        || handler == "images.getScale"@
        || handler == "images.iPicValidateBeforeUpload"@
    {
        BridgeRoute::Ignored
    } else if
        handler == "touchBar.setFencesOnSetLang"@
        || handler == "touchBar.showDialogTouchBar"@
        || handler == "touchBar.showFindReplaceTouchBar"@
        || handler == "touchBar.showInsertTableTouchBar"@
        || handler == "touchBar.updateFindReplaceMode"@
        || handler == "touchBar.updateInsertTableTouchBar"@
    {
        BridgeRoute::Ignored
    } else if handler == "editor.jumpToAnchor"@ {
        BridgeRoute::JumpToAnchor
    } else if
        handler == "editor.showZoomPanel"@
        || handler == "editor.getSpeechText"@
        || handler == "editor.resetPasteboard"@
        || handler == "editor.setPasteboard"@
        || handler == "editor.insertText"@
    {
        BridgeRoute::Ignored
    } else if
        handler == "word.getSpellSuggestionInContext"@
        || handler == "word.getTextReplacement"@
    {
        BridgeRoute::Ignored
    } else {
        BridgeRoute::Unhandled
    }
}

/// The route of a bridge message with the given handler name.
pub fn route_bridge(handler: &str) -> (route: BridgeRoute)
    ensures
        route == spec_bridge_route(handler@),
{
    if text_eq(handler, "document.loadData") {
        BridgeRoute::LoadData
    } else if text_eq(handler, "document.switchDocument") {
        BridgeRoute::SwitchDocument
    } else if text_eq(handler, "document.getContent") {
        BridgeRoute::GetContent
    } else if text_eq(handler, "document.setContent") {
        BridgeRoute::SetContent
    } else if
        text_eq(handler, "document.syncFullContent")
        || text_eq(handler, "controller.syncFullContent")
    {
        BridgeRoute::SyncFullContent
    } else if text_eq(handler, "document.updateChangeCount") {
        BridgeRoute::UpdateChangeCount
    } else if text_eq(handler, "document.updateChangeCountIfUnedited") {
        BridgeRoute::UpdateChangeCountIfUnedited
    } else if text_eq(handler, "document.syncChangeIfNeeded") {
        BridgeRoute::Ignored
    } else if
        text_eq(handler, "document.addSnapAndLastSync")
        || text_eq(handler, "document.addSnap")
        || text_eq(handler, "document.setLastSync")
        || text_eq(handler, "document.noOtherWindow")
        || text_eq(handler, "document.needsUpdateSnap")
        || text_eq(handler, "document.requestBuildSnap")
        || text_eq(handler, "document.recordUnusedAssets")
        || text_eq(handler, "document.hasDuplicateName")
        || text_eq(handler, "document.checkIfMoveOnSave")
    {
        BridgeRoute::Ignored
    } else if text_eq(handler, "path.selectFolderOrFile") {
        BridgeRoute::SelectFolderOrFile
    } else if
        text_eq(handler, "path.showSaveDialog")
        || text_eq(handler, "dialog.showSaveDialog")
    {
        BridgeRoute::ShowSaveDialog
    } else if
        text_eq(handler, "app.openFile")
        || text_eq(handler, "path.openFile")
    {
        BridgeRoute::OpenFile
    } else if text_eq(handler, "app.openFileOrFolder") {
        BridgeRoute::OpenFileOrFolder
    } else if text_eq(handler, "document.save") {
        BridgeRoute::Save
    } else if text_eq(handler, "document.saveAs") {
        BridgeRoute::SaveAs
    } else if text_eq(handler, "controller.shouldLoadFolder") {
        BridgeRoute::ShouldLoadFolder
    } else if text_eq(handler, "window.dragBy") {
        BridgeRoute::DragBy
    } else if text_eq(handler, "window.updateMenuForIsAlwaysOnTop") {
        BridgeRoute::AnswerFalse
    } else if text_eq(handler, "window.loadFinished") {
        BridgeRoute::AnswerTrue
    } else if
        text_eq(handler, "window.refreshFullContentState")
        || text_eq(handler, "window.setBackground")
        || text_eq(handler, "window.setTitlebarTextMarginLeft")
        || text_eq(handler, "window.setInSourceMode")
        || text_eq(handler, "window.checkAsFocus")
        || text_eq(handler, "menu.updateMenu")
        || text_eq(handler, "touchBar.setBlockStyle")
        || text_eq(handler, "touchBar.setInlineEnabled")
        || text_eq(handler, "touchBar.setInlineStates")
        || text_eq(handler, "word.updateWordCount")
    {
        BridgeRoute::Ignored
    } else if
        text_eq(handler, "setting.get")
        || text_eq(handler, "setting.readSetting")
    {
        BridgeRoute::Ignored
    } else if text_eq(handler, "setting.getRecentFiles") {
        BridgeRoute::GetRecentFiles
    } else if text_eq(handler, "setting.updateRecentFile") {
        BridgeRoute::UpdateRecentFile
    } else if text_eq(handler, "setting.removeRecentDocument") {
        BridgeRoute::RemoveRecentDocument
    } else if text_eq(handler, "quickOpen.cacheRecentFiles") {
        BridgeRoute::CacheRecentFiles
    } else if
        text_eq(handler, "logger.debug")
        || text_eq(handler, "logger.error")
        || text_eq(handler, "logger.info")
    {
        BridgeRoute::Ignored
    } else if text_eq(handler, "window.execForAll") {
        BridgeRoute::ExecForAll
    } else if text_eq(handler, "window.focus") {
        BridgeRoute::Focus
    } else if text_eq(handler, "window.resetZoom") {
        BridgeRoute::ResetZoom
    } else if text_eq(handler, "window.zoomIn") {
        BridgeRoute::ZoomIn
    } else if text_eq(handler, "window.zoomOut") {
        BridgeRoute::ZoomOut
    } else if text_eq(handler, "window.showDialog") {
        BridgeRoute::ShowDialog
    } else if text_eq(handler, "window.pasteAsPlainText") {
        BridgeRoute::PasteAsPlainText
    } else if
        text_eq(handler, "window.updateUIAfterExitSourceMode")
        || text_eq(handler, "window.previewFile")
        || text_eq(handler, "window.open")
        || text_eq(handler, "window.selectNextTab")
        || text_eq(handler, "window.selectPreviousTab")
        || text_eq(handler, "window.setIsSchemeAwareness")
    {
        BridgeRoute::Ignored
    } else if text_eq(handler, "path.openURL") {
        BridgeRoute::OpenUrl
    } else if text_eq(handler, "path.openFolderInFinder") {
        BridgeRoute::OpenFolderInFinder
    } else if text_eq(handler, "path.showInFinder") {
        BridgeRoute::ShowInFinder
    } else if text_eq(handler, "path.isDirectory") {
        BridgeRoute::IsDirectory
    } else if
        text_eq(handler, "path.moveTo")
        || text_eq(handler, "path.moveFile")
    {
        BridgeRoute::MoveFile
    } else if text_eq(handler, "path.removeFiles") {
        BridgeRoute::RemoveFiles
    } else if text_eq(handler, "quickOpen.query") {
        BridgeRoute::EmptyList
    } else if
        text_eq(handler, "quickOpen.stopQuery")
        || text_eq(handler, "quickOpen.reindexFolderIfNeeded")
    {
        BridgeRoute::Ignored
    } else if
        text_eq(handler, "controller.openFolder")
        || text_eq(handler, "controller.switchFolder")
    {
        BridgeRoute::OpenFolder
    } else if text_eq(handler, "controller.runCommand") {
        BridgeRoute::RunCommand
    } else if text_eq(handler, "controller.selectFolder") {
        BridgeRoute::SelectFolder
    } else if text_eq(handler, "controller.calcMountFolder") {
        BridgeRoute::CalcMountFolder
    } else if
        text_eq(handler, "controller.openInNewWindow")
        || text_eq(handler, "controller.openInTypora")
    {
        BridgeRoute::OpenInWindow
    } else if text_eq(handler, "controller.showErrorDialog") {
        BridgeRoute::ShowErrorDialog
    } else if text_eq(handler, "controller.switchDocumentTarget") {
        BridgeRoute::SwitchDocumentTarget
    } else if
        text_eq(handler, "controller.startDrag")
        || text_eq(handler, "controller.bindFolderMonitor")
    {
        BridgeRoute::Ignored
    } else if text_eq(handler, "clipboard.read") {
        BridgeRoute::ClipboardRead
    } else if text_eq(handler, "clipboard.write") {
        BridgeRoute::ClipboardWrite
    } else if text_eq(handler, "clipboard.postCopy") {
        BridgeRoute::Ignored
    } else if
        text_eq(handler, "clipboard.readImage")
        || text_eq(handler, "clipboard.writeImage")
    {
        BridgeRoute::Ignored
    } else if text_eq(handler, "setting.put") {
        BridgeRoute::Ignored
    } else if text_eq(handler, "setting.fetchAnalytics") {
        BridgeRoute::Ignored
    } else if text_eq(handler, "setting.showAndHighlight") {
        BridgeRoute::Ignored
    } else if text_eq(handler, "library.fetchAllDocs") {
        BridgeRoute::FetchAllDocs
    } else if text_eq(handler, "library.listDocsUnder") {
        BridgeRoute::ListDocsUnder
    } else if text_eq(handler, "library.search") {
        BridgeRoute::EmptyList
    } else if text_eq(handler, "library.getRecentFolders") {
        BridgeRoute::NoRecentFolders
    } else if
        text_eq(handler, "library.newFile")
        || text_eq(handler, "library.newFileUnder")
        || text_eq(handler, "library.newFolder")
        || text_eq(handler, "library.renameFile")
        || text_eq(handler, "library.moveFile")
        || text_eq(handler, "library.duplicate")
        || text_eq(handler, "library.trashItem")
        || text_eq(handler, "library.showProperty")
        || text_eq(handler, "library.updateListItem")
        || text_eq(handler, "library.updateListItemIfIsOpen")
    {
        BridgeRoute::Ignored
    } else if
        text_eq(handler, "images.insertLocalImage")
        || text_eq(handler, "images.copyImage")
        || text_eq(handler, "images.savePNG")
        || text_eq(handler, "images.upload")
        || text_eq(handler, "images.startCopyAllImages")
        || text_eq(handler, "images.addToBundle")
        || text_eq(handler, "images.prepImageMove")
        || text_eq(handler, "images.getScale")
        || text_eq(handler, "images.iPicValidateBeforeUpload")
    {
        BridgeRoute::Ignored
    } else if
        text_eq(handler, "touchBar.setFencesOnSetLang")
        || text_eq(handler, "touchBar.showDialogTouchBar")
        || text_eq(handler, "touchBar.showFindReplaceTouchBar")
        || text_eq(handler, "touchBar.showInsertTableTouchBar")
        || text_eq(handler, "touchBar.updateFindReplaceMode")
        || text_eq(handler, "touchBar.updateInsertTableTouchBar")
    {
        BridgeRoute::Ignored
    } else if text_eq(handler, "editor.jumpToAnchor") {
        BridgeRoute::JumpToAnchor
    } else if
        text_eq(handler, "editor.showZoomPanel")
        || text_eq(handler, "editor.getSpeechText")
        || text_eq(handler, "editor.resetPasteboard")
        || text_eq(handler, "editor.setPasteboard")
        || text_eq(handler, "editor.insertText")
    {
        BridgeRoute::Ignored
    } else if
        text_eq(handler, "word.getSpellSuggestionInContext")
        || text_eq(handler, "word.getTextReplacement")
    {
        BridgeRoute::Ignored
    } else {
        BridgeRoute::Unhandled
    }
}

/// The lengths of the handler names, and a character at which two names of
/// the same length differ.
proof fn lemma_handler_name_facts()
    ensures
        "document.loadData"@.len() == 17,
        "document.switchDocument"@.len() == 23,
        "document.getContent"@.len() == 19,
        "document.setContent"@.len() == 19,
        "document.syncFullContent"@.len() == 24,
        "controller.syncFullContent"@.len() == 26,
        "document.updateChangeCount"@.len() == 26,
        "document.updateChangeCountIfUnedited"@.len() == 36,
        "document.syncChangeIfNeeded"@.len() == 27,
        "document.addSnapAndLastSync"@.len() == 27,
        "document.addSnap"@.len() == 16,
        "document.setLastSync"@.len() == 20,
        "document.noOtherWindow"@.len() == 22,
        "document.needsUpdateSnap"@.len() == 24,
        "document.requestBuildSnap"@.len() == 25,
        "document.recordUnusedAssets"@.len() == 27,
        "document.hasDuplicateName"@.len() == 25,
        "document.checkIfMoveOnSave"@.len() == 26,
        "path.selectFolderOrFile"@.len() == 23,
        "path.showSaveDialog"@.len() == 19,
        "dialog.showSaveDialog"@.len() == 21,
        "app.openFile"@.len() == 12,
        "path.openFile"@.len() == 13,
        "app.openFileOrFolder"@.len() == 20,
        "document.save"@.len() == 13,
        "document.saveAs"@.len() == 15,
        "controller.shouldLoadFolder"@.len() == 27,
        "window.dragBy"@.len() == 13,
        "window.updateMenuForIsAlwaysOnTop"@.len() == 33,
        "window.loadFinished"@.len() == 19,
        "window.refreshFullContentState"@.len() == 30,
        "window.setBackground"@.len() == 20,
        "window.setTitlebarTextMarginLeft"@.len() == 32,
        "window.setInSourceMode"@.len() == 22,
        "window.checkAsFocus"@.len() == 19,
        "menu.updateMenu"@.len() == 15,
        "touchBar.setBlockStyle"@.len() == 22,
        "touchBar.setInlineEnabled"@.len() == 25,
        "touchBar.setInlineStates"@.len() == 24,
        "word.updateWordCount"@.len() == 20,
        "setting.get"@.len() == 11,
        "setting.readSetting"@.len() == 19,
        "setting.getRecentFiles"@.len() == 22,
        "setting.updateRecentFile"@.len() == 24,
        "setting.removeRecentDocument"@.len() == 28,
        "quickOpen.cacheRecentFiles"@.len() == 26,
        "logger.debug"@.len() == 12,
        "logger.error"@.len() == 12,
        "logger.info"@.len() == 11,
        "window.execForAll"@.len() == 17,
        "window.focus"@.len() == 12,
        "window.resetZoom"@.len() == 16,
        "window.zoomIn"@.len() == 13,
        "window.zoomOut"@.len() == 14,
        "window.showDialog"@.len() == 17,
        "window.pasteAsPlainText"@.len() == 23,
        "window.updateUIAfterExitSourceMode"@.len() == 34,
        "window.previewFile"@.len() == 18,
        "window.open"@.len() == 11,
        "window.selectNextTab"@.len() == 20,
        "window.selectPreviousTab"@.len() == 24,
        "window.setIsSchemeAwareness"@.len() == 27,
        "path.openURL"@.len() == 12,
        "path.openFolderInFinder"@.len() == 23,
        "path.showInFinder"@.len() == 17,
        "path.isDirectory"@.len() == 16,
        "path.moveTo"@.len() == 11,
        "path.moveFile"@.len() == 13,
        "path.removeFiles"@.len() == 16,
        "quickOpen.query"@.len() == 15,
        "quickOpen.stopQuery"@.len() == 19,
        "quickOpen.reindexFolderIfNeeded"@.len() == 31,
        "controller.openFolder"@.len() == 21,
        "controller.switchFolder"@.len() == 23,
        "controller.runCommand"@.len() == 21,
        "controller.selectFolder"@.len() == 23,
        "controller.calcMountFolder"@.len() == 26,
        "controller.openInNewWindow"@.len() == 26,
        "controller.openInTypora"@.len() == 23,
        "controller.showErrorDialog"@.len() == 26,
        "controller.switchDocumentTarget"@.len() == 31,
        "controller.startDrag"@.len() == 20,
        "controller.bindFolderMonitor"@.len() == 28,
        "clipboard.read"@.len() == 14,
        "clipboard.write"@.len() == 15,
        "clipboard.postCopy"@.len() == 18,
        "clipboard.readImage"@.len() == 19,
        "clipboard.writeImage"@.len() == 20,
        "setting.put"@.len() == 11,
        "setting.fetchAnalytics"@.len() == 22,
        "setting.showAndHighlight"@.len() == 24,
        "library.fetchAllDocs"@.len() == 20,
        "library.listDocsUnder"@.len() == 21,
        "library.search"@.len() == 14,
        "library.getRecentFolders"@.len() == 24,
        "library.newFile"@.len() == 15,
        "library.newFileUnder"@.len() == 20,
        "library.newFolder"@.len() == 17,
        "library.renameFile"@.len() == 18,
        "library.moveFile"@.len() == 16,
        "library.duplicate"@.len() == 17,
        "library.trashItem"@.len() == 17,
        "library.showProperty"@.len() == 20,
        "library.updateListItem"@.len() == 22,
        "library.updateListItemIfIsOpen"@.len() == 30,
        "images.insertLocalImage"@.len() == 23,
        "images.copyImage"@.len() == 16,
        "images.savePNG"@.len() == 14,
        "images.upload"@.len() == 13,
        "images.startCopyAllImages"@.len() == 25,
        "images.addToBundle"@.len() == 18,
        "images.prepImageMove"@.len() == 20,
        "images.getScale"@.len() == 15,
        "images.iPicValidateBeforeUpload"@.len() == 31,
        "touchBar.setFencesOnSetLang"@.len() == 27,
        "touchBar.showDialogTouchBar"@.len() == 27,
        "touchBar.showFindReplaceTouchBar"@.len() == 32,
        "touchBar.showInsertTableTouchBar"@.len() == 32,
        "touchBar.updateFindReplaceMode"@.len() == 30,
        "touchBar.updateInsertTableTouchBar"@.len() == 34,
        "editor.jumpToAnchor"@.len() == 19,
        "editor.showZoomPanel"@.len() == 20,
        "editor.getSpeechText"@.len() == 20,
        "editor.resetPasteboard"@.len() == 22,
        "editor.setPasteboard"@.len() == 20,
        "editor.insertText"@.len() == 17,
        "word.getSpellSuggestionInContext"@.len() == 32,
        "word.getTextReplacement"@.len() == 23,
        "document.loadData"@[0] != "window.execForAll"@[0],
        "document.loadData"@[0] != "window.showDialog"@[0],
        "document.loadData"@[0] != "path.showInFinder"@[0],
        "document.loadData"@[0] != "library.newFolder"@[0],
        "document.loadData"@[0] != "library.duplicate"@[0],
        "document.loadData"@[0] != "library.trashItem"@[0],
        "document.loadData"@[0] != "editor.insertText"@[0],
        "document.switchDocument"@[0] != "path.selectFolderOrFile"@[0],
        "document.switchDocument"@[0] != "window.pasteAsPlainText"@[0],
        "document.switchDocument"@[0] != "path.openFolderInFinder"@[0],
        "document.switchDocument"@[0] != "controller.switchFolder"@[0],
        "document.switchDocument"@[0] != "controller.selectFolder"@[0],
        "document.switchDocument"@[0] != "controller.openInTypora"@[0],
        "document.switchDocument"@[0] != "images.insertLocalImage"@[0],
        "document.switchDocument"@[0] != "word.getTextReplacement"@[0],
        "document.getContent"@[9] != "document.setContent"@[9],
        "document.getContent"@[0] != "path.showSaveDialog"@[0],
        "document.getContent"@[0] != "window.loadFinished"@[0],
        "document.getContent"@[0] != "window.checkAsFocus"@[0],
        "document.getContent"@[0] != "setting.readSetting"@[0],
        "document.getContent"@[0] != "quickOpen.stopQuery"@[0],
        "document.getContent"@[0] != "clipboard.readImage"@[0],
        "document.getContent"@[0] != "editor.jumpToAnchor"@[0],
        "document.setContent"@[0] != "path.showSaveDialog"@[0],
        "document.setContent"@[0] != "window.loadFinished"@[0],
        "document.setContent"@[0] != "window.checkAsFocus"@[0],
        "document.setContent"@[0] != "setting.readSetting"@[0],
        "document.setContent"@[0] != "quickOpen.stopQuery"@[0],
        "document.setContent"@[0] != "clipboard.readImage"@[0],
        "document.setContent"@[0] != "editor.jumpToAnchor"@[0],
        "document.syncFullContent"@[9] != "document.needsUpdateSnap"@[9],
        "document.syncFullContent"@[0] != "touchBar.setInlineStates"@[0],
        "document.syncFullContent"@[0] != "setting.updateRecentFile"@[0],
        "document.syncFullContent"@[0] != "window.selectPreviousTab"@[0],
        "document.syncFullContent"@[0] != "setting.showAndHighlight"@[0],
        "document.syncFullContent"@[0] != "library.getRecentFolders"@[0],
        "controller.syncFullContent"@[0] != "document.updateChangeCount"@[0],
        "controller.syncFullContent"@[0] != "document.checkIfMoveOnSave"@[0],
        "controller.syncFullContent"@[0] != "quickOpen.cacheRecentFiles"@[0],
        "controller.syncFullContent"@[11] != "controller.calcMountFolder"@[11],
        "controller.syncFullContent"@[11] != "controller.openInNewWindow"@[11],
        "controller.syncFullContent"@[12] != "controller.showErrorDialog"@[12],
        "document.updateChangeCount"@[9] != "document.checkIfMoveOnSave"@[9],
        "document.updateChangeCount"@[0] != "quickOpen.cacheRecentFiles"@[0],
        "document.updateChangeCount"@[0] != "controller.calcMountFolder"@[0],
        "document.updateChangeCount"@[0] != "controller.openInNewWindow"@[0],
        "document.updateChangeCount"@[0] != "controller.showErrorDialog"@[0],
        "document.syncChangeIfNeeded"@[9] != "document.addSnapAndLastSync"@[9],
        "document.syncChangeIfNeeded"@[9] != "document.recordUnusedAssets"@[9],
        "document.syncChangeIfNeeded"@[0] != "controller.shouldLoadFolder"@[0],
        "document.syncChangeIfNeeded"@[0] != "window.setIsSchemeAwareness"@[0],
        "document.syncChangeIfNeeded"@[0] != "touchBar.setFencesOnSetLang"@[0],
        "document.syncChangeIfNeeded"@[0] != "touchBar.showDialogTouchBar"@[0],
        "document.addSnapAndLastSync"@[9] != "document.recordUnusedAssets"@[9],
        "document.addSnapAndLastSync"@[0] != "controller.shouldLoadFolder"@[0],
        "document.addSnapAndLastSync"@[0] != "window.setIsSchemeAwareness"@[0],
        "document.addSnapAndLastSync"@[0] != "touchBar.setFencesOnSetLang"@[0],
        "document.addSnapAndLastSync"@[0] != "touchBar.showDialogTouchBar"@[0],
        "document.addSnap"@[0] != "window.resetZoom"@[0],
        "document.addSnap"@[0] != "path.isDirectory"@[0],
        "document.addSnap"@[0] != "path.removeFiles"@[0],
        "document.addSnap"@[0] != "library.moveFile"@[0],
        "document.addSnap"@[0] != "images.copyImage"@[0],
        "document.setLastSync"@[0] != "app.openFileOrFolder"@[0],
        "document.setLastSync"@[0] != "window.setBackground"@[0],
        "document.setLastSync"@[0] != "word.updateWordCount"@[0],
        "document.setLastSync"@[0] != "window.selectNextTab"@[0],
        "document.setLastSync"@[0] != "controller.startDrag"@[0],
        "document.setLastSync"@[0] != "clipboard.writeImage"@[0],
        "document.setLastSync"@[0] != "library.fetchAllDocs"@[0],
        "document.setLastSync"@[0] != "library.newFileUnder"@[0],
        "document.setLastSync"@[0] != "library.showProperty"@[0],
        "document.setLastSync"@[0] != "images.prepImageMove"@[0],
        "document.setLastSync"@[0] != "editor.showZoomPanel"@[0],
        "document.setLastSync"@[0] != "editor.getSpeechText"@[0],
        "document.setLastSync"@[0] != "editor.setPasteboard"@[0],
        "document.noOtherWindow"@[0] != "window.setInSourceMode"@[0],
        "document.noOtherWindow"@[0] != "touchBar.setBlockStyle"@[0],
        "document.noOtherWindow"@[0] != "setting.getRecentFiles"@[0],
        "document.noOtherWindow"@[0] != "setting.fetchAnalytics"@[0],
        "document.noOtherWindow"@[0] != "library.updateListItem"@[0],
        "document.noOtherWindow"@[0] != "editor.resetPasteboard"@[0],
        "document.needsUpdateSnap"@[0] != "touchBar.setInlineStates"@[0],
        "document.needsUpdateSnap"@[0] != "setting.updateRecentFile"@[0],
        "document.needsUpdateSnap"@[0] != "window.selectPreviousTab"@[0],
        "document.needsUpdateSnap"@[0] != "setting.showAndHighlight"@[0],
        "document.needsUpdateSnap"@[0] != "library.getRecentFolders"@[0],
        "document.requestBuildSnap"@[9] != "document.hasDuplicateName"@[9],
        "document.requestBuildSnap"@[0] != "touchBar.setInlineEnabled"@[0],
        "document.requestBuildSnap"@[0] != "images.startCopyAllImages"@[0],
        "document.recordUnusedAssets"@[0] != "controller.shouldLoadFolder"@[0],
        "document.recordUnusedAssets"@[0] != "window.setIsSchemeAwareness"@[0],
        "document.recordUnusedAssets"@[0] != "touchBar.setFencesOnSetLang"@[0],
        "document.recordUnusedAssets"@[0] != "touchBar.showDialogTouchBar"@[0],
        "document.hasDuplicateName"@[0] != "touchBar.setInlineEnabled"@[0],
        "document.hasDuplicateName"@[0] != "images.startCopyAllImages"@[0],
        "document.checkIfMoveOnSave"@[0] != "quickOpen.cacheRecentFiles"@[0],
        "document.checkIfMoveOnSave"@[0] != "controller.calcMountFolder"@[0],
        "document.checkIfMoveOnSave"@[0] != "controller.openInNewWindow"@[0],
        "document.checkIfMoveOnSave"@[0] != "controller.showErrorDialog"@[0],
        "path.selectFolderOrFile"@[0] != "window.pasteAsPlainText"@[0],
        "path.selectFolderOrFile"@[5] != "path.openFolderInFinder"@[5],
        "path.selectFolderOrFile"@[0] != "controller.switchFolder"@[0],
        "path.selectFolderOrFile"@[0] != "controller.selectFolder"@[0],
        "path.selectFolderOrFile"@[0] != "controller.openInTypora"@[0],
        "path.selectFolderOrFile"@[0] != "images.insertLocalImage"@[0],
        "path.selectFolderOrFile"@[0] != "word.getTextReplacement"@[0],
        "path.showSaveDialog"@[0] != "window.loadFinished"@[0],
        "path.showSaveDialog"@[0] != "window.checkAsFocus"@[0],
        "path.showSaveDialog"@[0] != "setting.readSetting"@[0],
        "path.showSaveDialog"@[0] != "quickOpen.stopQuery"@[0],
        "path.showSaveDialog"@[0] != "clipboard.readImage"@[0],
        "path.showSaveDialog"@[0] != "editor.jumpToAnchor"@[0],
        "dialog.showSaveDialog"@[0] != "controller.openFolder"@[0],
        "dialog.showSaveDialog"@[0] != "controller.runCommand"@[0],
        "dialog.showSaveDialog"@[0] != "library.listDocsUnder"@[0],
        "app.openFile"@[0] != "logger.debug"@[0],
        "app.openFile"@[0] != "logger.error"@[0],
        "app.openFile"@[0] != "window.focus"@[0],
        "app.openFile"@[0] != "path.openURL"@[0],
        "path.openFile"@[0] != "document.save"@[0],
        "path.openFile"@[0] != "window.dragBy"@[0],
        "path.openFile"@[0] != "window.zoomIn"@[0],
        "path.openFile"@[5] != "path.moveFile"@[5],
        "path.openFile"@[0] != "images.upload"@[0],
        "app.openFileOrFolder"@[0] != "window.setBackground"@[0],
        "app.openFileOrFolder"@[0] != "word.updateWordCount"@[0],
        "app.openFileOrFolder"@[0] != "window.selectNextTab"@[0],
        "app.openFileOrFolder"@[0] != "controller.startDrag"@[0],
        "app.openFileOrFolder"@[0] != "clipboard.writeImage"@[0],
        "app.openFileOrFolder"@[0] != "library.fetchAllDocs"@[0],
        "app.openFileOrFolder"@[0] != "library.newFileUnder"@[0],
        "app.openFileOrFolder"@[0] != "library.showProperty"@[0],
        "app.openFileOrFolder"@[0] != "images.prepImageMove"@[0],
        "app.openFileOrFolder"@[0] != "editor.showZoomPanel"@[0],
        "app.openFileOrFolder"@[0] != "editor.getSpeechText"@[0],
        "app.openFileOrFolder"@[0] != "editor.setPasteboard"@[0],
        "document.save"@[0] != "window.dragBy"@[0],
        "document.save"@[0] != "window.zoomIn"@[0],
        "document.save"@[0] != "path.moveFile"@[0],
        "document.save"@[0] != "images.upload"@[0],
        "document.saveAs"@[0] != "menu.updateMenu"@[0],
        "document.saveAs"@[0] != "quickOpen.query"@[0],
        "document.saveAs"@[0] != "clipboard.write"@[0],
        "document.saveAs"@[0] != "library.newFile"@[0],
        "document.saveAs"@[0] != "images.getScale"@[0],
        "controller.shouldLoadFolder"@[0] != "window.setIsSchemeAwareness"@[0],
        "controller.shouldLoadFolder"@[0] != "touchBar.setFencesOnSetLang"@[0],
        "controller.shouldLoadFolder"@[0] != "touchBar.showDialogTouchBar"@[0],
        "window.dragBy"@[7] != "window.zoomIn"@[7],
        "window.dragBy"@[0] != "path.moveFile"@[0],
        "window.dragBy"@[0] != "images.upload"@[0],
        "window.loadFinished"@[7] != "window.checkAsFocus"@[7],
        "window.loadFinished"@[0] != "setting.readSetting"@[0],
        "window.loadFinished"@[0] != "quickOpen.stopQuery"@[0],
        "window.loadFinished"@[0] != "clipboard.readImage"@[0],
        "window.loadFinished"@[0] != "editor.jumpToAnchor"@[0],
        "window.refreshFullContentState"@[0] != "library.updateListItemIfIsOpen"@[0],
        "window.refreshFullContentState"@[0] != "touchBar.updateFindReplaceMode"@[0],
        "window.setBackground"@[1] != "word.updateWordCount"@[1],
        "window.setBackground"@[9] != "window.selectNextTab"@[9],
        "window.setBackground"@[0] != "controller.startDrag"@[0],
        "window.setBackground"@[0] != "clipboard.writeImage"@[0],
        "window.setBackground"@[0] != "library.fetchAllDocs"@[0],
        "window.setBackground"@[0] != "library.newFileUnder"@[0],
        "window.setBackground"@[0] != "library.showProperty"@[0],
        "window.setBackground"@[0] != "images.prepImageMove"@[0],
        "window.setBackground"@[0] != "editor.showZoomPanel"@[0],
        "window.setBackground"@[0] != "editor.getSpeechText"@[0],
        "window.setBackground"@[0] != "editor.setPasteboard"@[0],
        "window.setTitlebarTextMarginLeft"@[0] != "touchBar.showFindReplaceTouchBar"@[0],
        "window.setTitlebarTextMarginLeft"@[0] != "touchBar.showInsertTableTouchBar"@[0],
        "window.setTitlebarTextMarginLeft"@[1] != "word.getSpellSuggestionInContext"@[1],
        "window.setInSourceMode"@[0] != "touchBar.setBlockStyle"@[0],
        "window.setInSourceMode"@[0] != "setting.getRecentFiles"@[0],
        "window.setInSourceMode"@[0] != "setting.fetchAnalytics"@[0],
        "window.setInSourceMode"@[0] != "library.updateListItem"@[0],
        "window.setInSourceMode"@[0] != "editor.resetPasteboard"@[0],
        "window.checkAsFocus"@[0] != "setting.readSetting"@[0],
        "window.checkAsFocus"@[0] != "quickOpen.stopQuery"@[0],
        "window.checkAsFocus"@[0] != "clipboard.readImage"@[0],
        "window.checkAsFocus"@[0] != "editor.jumpToAnchor"@[0],
        "menu.updateMenu"@[0] != "quickOpen.query"@[0],
        "menu.updateMenu"@[0] != "clipboard.write"@[0],
        "menu.updateMenu"@[0] != "library.newFile"@[0],
        "menu.updateMenu"@[0] != "images.getScale"@[0],
        "touchBar.setBlockStyle"@[0] != "setting.getRecentFiles"@[0],
        "touchBar.setBlockStyle"@[0] != "setting.fetchAnalytics"@[0],
        "touchBar.setBlockStyle"@[0] != "library.updateListItem"@[0],
        "touchBar.setBlockStyle"@[0] != "editor.resetPasteboard"@[0],
        "touchBar.setInlineEnabled"@[0] != "images.startCopyAllImages"@[0],
        "touchBar.setInlineStates"@[0] != "setting.updateRecentFile"@[0],
        "touchBar.setInlineStates"@[0] != "window.selectPreviousTab"@[0],
        "touchBar.setInlineStates"@[0] != "setting.showAndHighlight"@[0],
        "touchBar.setInlineStates"@[0] != "library.getRecentFolders"@[0],
        "word.updateWordCount"@[1] != "window.selectNextTab"@[1],
        "word.updateWordCount"@[0] != "controller.startDrag"@[0],
        "word.updateWordCount"@[0] != "clipboard.writeImage"@[0],
        "word.updateWordCount"@[0] != "library.fetchAllDocs"@[0],
        "word.updateWordCount"@[0] != "library.newFileUnder"@[0],
        "word.updateWordCount"@[0] != "library.showProperty"@[0],
        "word.updateWordCount"@[0] != "images.prepImageMove"@[0],
        "word.updateWordCount"@[0] != "editor.showZoomPanel"@[0],
        "word.updateWordCount"@[0] != "editor.getSpeechText"@[0],
        "word.updateWordCount"@[0] != "editor.setPasteboard"@[0],
        "setting.get"@[0] != "logger.info"@[0],
        "setting.get"@[0] != "window.open"@[0],
        "setting.get"@[0] != "path.moveTo"@[0],
        "setting.get"@[8] != "setting.put"@[8],
        "setting.readSetting"@[0] != "quickOpen.stopQuery"@[0],
        "setting.readSetting"@[0] != "clipboard.readImage"@[0],
        "setting.readSetting"@[0] != "editor.jumpToAnchor"@[0],
        "setting.getRecentFiles"@[8] != "setting.fetchAnalytics"@[8],
        "setting.getRecentFiles"@[0] != "library.updateListItem"@[0],
        "setting.getRecentFiles"@[0] != "editor.resetPasteboard"@[0],
        "setting.updateRecentFile"@[0] != "window.selectPreviousTab"@[0],
        "setting.updateRecentFile"@[8] != "setting.showAndHighlight"@[8],
        "setting.updateRecentFile"@[0] != "library.getRecentFolders"@[0],
        "setting.removeRecentDocument"@[0] != "controller.bindFolderMonitor"@[0],
        "quickOpen.cacheRecentFiles"@[0] != "controller.calcMountFolder"@[0],
        "quickOpen.cacheRecentFiles"@[0] != "controller.openInNewWindow"@[0],
        "quickOpen.cacheRecentFiles"@[0] != "controller.showErrorDialog"@[0],
        "logger.debug"@[7] != "logger.error"@[7],
        "logger.debug"@[0] != "window.focus"@[0],
        "logger.debug"@[0] != "path.openURL"@[0],
        "logger.error"@[0] != "window.focus"@[0],
        "logger.error"@[0] != "path.openURL"@[0],
        "logger.info"@[0] != "window.open"@[0],
        "logger.info"@[0] != "path.moveTo"@[0],
        "logger.info"@[0] != "setting.put"@[0],
        "window.execForAll"@[7] != "window.showDialog"@[7],
        "window.execForAll"@[0] != "path.showInFinder"@[0],
        "window.execForAll"@[0] != "library.newFolder"@[0],
        "window.execForAll"@[0] != "library.duplicate"@[0],
        "window.execForAll"@[0] != "library.trashItem"@[0],
        "window.execForAll"@[0] != "editor.insertText"@[0],
        "window.focus"@[0] != "path.openURL"@[0],
        "window.resetZoom"@[0] != "path.isDirectory"@[0],
        "window.resetZoom"@[0] != "path.removeFiles"@[0],
        "window.resetZoom"@[0] != "library.moveFile"@[0],
        "window.resetZoom"@[0] != "images.copyImage"@[0],
        "window.zoomIn"@[0] != "path.moveFile"@[0],
        "window.zoomIn"@[0] != "images.upload"@[0],
        "window.zoomOut"@[0] != "clipboard.read"@[0],
        "window.zoomOut"@[0] != "library.search"@[0],
        "window.zoomOut"@[0] != "images.savePNG"@[0],
        "window.showDialog"@[0] != "path.showInFinder"@[0],
        "window.showDialog"@[0] != "library.newFolder"@[0],
        "window.showDialog"@[0] != "library.duplicate"@[0],
        "window.showDialog"@[0] != "library.trashItem"@[0],
        "window.showDialog"@[0] != "editor.insertText"@[0],
        "window.pasteAsPlainText"@[0] != "path.openFolderInFinder"@[0],
        "window.pasteAsPlainText"@[0] != "controller.switchFolder"@[0],
        "window.pasteAsPlainText"@[0] != "controller.selectFolder"@[0],
        "window.pasteAsPlainText"@[0] != "controller.openInTypora"@[0],
        "window.pasteAsPlainText"@[0] != "images.insertLocalImage"@[0],
        "window.pasteAsPlainText"@[1] != "word.getTextReplacement"@[1],
        "window.updateUIAfterExitSourceMode"@[0] != "touchBar.updateInsertTableTouchBar"@[0],
        "window.previewFile"@[0] != "clipboard.postCopy"@[0],
        "window.previewFile"@[0] != "library.renameFile"@[0],
        "window.previewFile"@[0] != "images.addToBundle"@[0],
        "window.open"@[0] != "path.moveTo"@[0],
        "window.open"@[0] != "setting.put"@[0],
        "window.selectNextTab"@[0] != "controller.startDrag"@[0],
        "window.selectNextTab"@[0] != "clipboard.writeImage"@[0],
        "window.selectNextTab"@[0] != "library.fetchAllDocs"@[0],
        "window.selectNextTab"@[0] != "library.newFileUnder"@[0],
        "window.selectNextTab"@[0] != "library.showProperty"@[0],
        "window.selectNextTab"@[0] != "images.prepImageMove"@[0],
        "window.selectNextTab"@[0] != "editor.showZoomPanel"@[0],
        "window.selectNextTab"@[0] != "editor.getSpeechText"@[0],
        "window.selectNextTab"@[0] != "editor.setPasteboard"@[0],
        "window.selectPreviousTab"@[0] != "setting.showAndHighlight"@[0],
        "window.selectPreviousTab"@[0] != "library.getRecentFolders"@[0],
        "window.setIsSchemeAwareness"@[0] != "touchBar.setFencesOnSetLang"@[0],
        "window.setIsSchemeAwareness"@[0] != "touchBar.showDialogTouchBar"@[0],
        "path.openFolderInFinder"@[0] != "controller.switchFolder"@[0],
        "path.openFolderInFinder"@[0] != "controller.selectFolder"@[0],
        "path.openFolderInFinder"@[0] != "controller.openInTypora"@[0],
        "path.openFolderInFinder"@[0] != "images.insertLocalImage"@[0],
        "path.openFolderInFinder"@[0] != "word.getTextReplacement"@[0],
        "path.showInFinder"@[0] != "library.newFolder"@[0],
        "path.showInFinder"@[0] != "library.duplicate"@[0],
        "path.showInFinder"@[0] != "library.trashItem"@[0],
        "path.showInFinder"@[0] != "editor.insertText"@[0],
        "path.isDirectory"@[5] != "path.removeFiles"@[5],
        "path.isDirectory"@[0] != "library.moveFile"@[0],
        "path.isDirectory"@[0] != "images.copyImage"@[0],
        "path.moveTo"@[0] != "setting.put"@[0],
        "path.moveFile"@[0] != "images.upload"@[0],
        "path.removeFiles"@[0] != "library.moveFile"@[0],
        "path.removeFiles"@[0] != "images.copyImage"@[0],
        "quickOpen.query"@[0] != "clipboard.write"@[0],
        "quickOpen.query"@[0] != "library.newFile"@[0],
        "quickOpen.query"@[0] != "images.getScale"@[0],
        "quickOpen.stopQuery"@[0] != "clipboard.readImage"@[0],
        "quickOpen.stopQuery"@[0] != "editor.jumpToAnchor"@[0],
        "quickOpen.reindexFolderIfNeeded"@[0] != "controller.switchDocumentTarget"@[0],
        "quickOpen.reindexFolderIfNeeded"@[0] != "images.iPicValidateBeforeUpload"@[0],
        "controller.openFolder"@[11] != "controller.runCommand"@[11],
        "controller.openFolder"@[0] != "library.listDocsUnder"@[0],
        "controller.switchFolder"@[12] != "controller.selectFolder"@[12],
        "controller.switchFolder"@[11] != "controller.openInTypora"@[11],
        "controller.switchFolder"@[0] != "images.insertLocalImage"@[0],
        "controller.switchFolder"@[0] != "word.getTextReplacement"@[0],
        "controller.runCommand"@[0] != "library.listDocsUnder"@[0],
        "controller.selectFolder"@[11] != "controller.openInTypora"@[11],
        "controller.selectFolder"@[0] != "images.insertLocalImage"@[0],
        "controller.selectFolder"@[0] != "word.getTextReplacement"@[0],
        "controller.calcMountFolder"@[11] != "controller.openInNewWindow"@[11],
        "controller.calcMountFolder"@[11] != "controller.showErrorDialog"@[11],
        "controller.openInNewWindow"@[11] != "controller.showErrorDialog"@[11],
        "controller.openInTypora"@[0] != "images.insertLocalImage"@[0],
        "controller.openInTypora"@[0] != "word.getTextReplacement"@[0],
        "controller.switchDocumentTarget"@[0] != "images.iPicValidateBeforeUpload"@[0],
        "controller.startDrag"@[1] != "clipboard.writeImage"@[1],
        "controller.startDrag"@[0] != "library.fetchAllDocs"@[0],
        "controller.startDrag"@[0] != "library.newFileUnder"@[0],
        "controller.startDrag"@[0] != "library.showProperty"@[0],
        "controller.startDrag"@[0] != "images.prepImageMove"@[0],
        "controller.startDrag"@[0] != "editor.showZoomPanel"@[0],
        "controller.startDrag"@[0] != "editor.getSpeechText"@[0],
        "controller.startDrag"@[0] != "editor.setPasteboard"@[0],
        "clipboard.read"@[0] != "library.search"@[0],
        "clipboard.read"@[0] != "images.savePNG"@[0],
        "clipboard.write"@[0] != "library.newFile"@[0],
        "clipboard.write"@[0] != "images.getScale"@[0],
        "clipboard.postCopy"@[0] != "library.renameFile"@[0],
        "clipboard.postCopy"@[0] != "images.addToBundle"@[0],
        "clipboard.readImage"@[0] != "editor.jumpToAnchor"@[0],
        "clipboard.writeImage"@[0] != "library.fetchAllDocs"@[0],
        "clipboard.writeImage"@[0] != "library.newFileUnder"@[0],
        "clipboard.writeImage"@[0] != "library.showProperty"@[0],
        "clipboard.writeImage"@[0] != "images.prepImageMove"@[0],
        "clipboard.writeImage"@[0] != "editor.showZoomPanel"@[0],
        "clipboard.writeImage"@[0] != "editor.getSpeechText"@[0],
        "clipboard.writeImage"@[0] != "editor.setPasteboard"@[0],
        "setting.fetchAnalytics"@[0] != "library.updateListItem"@[0],
        "setting.fetchAnalytics"@[0] != "editor.resetPasteboard"@[0],
        "setting.showAndHighlight"@[0] != "library.getRecentFolders"@[0],
        "library.fetchAllDocs"@[8] != "library.newFileUnder"@[8],
        "library.fetchAllDocs"@[8] != "library.showProperty"@[8],
        "library.fetchAllDocs"@[0] != "images.prepImageMove"@[0],
        "library.fetchAllDocs"@[0] != "editor.showZoomPanel"@[0],
        "library.fetchAllDocs"@[0] != "editor.getSpeechText"@[0],
        "library.fetchAllDocs"@[0] != "editor.setPasteboard"@[0],
        "library.search"@[0] != "images.savePNG"@[0],
        "library.newFile"@[0] != "images.getScale"@[0],
        "library.newFileUnder"@[8] != "library.showProperty"@[8],
        "library.newFileUnder"@[0] != "images.prepImageMove"@[0],
        "library.newFileUnder"@[0] != "editor.showZoomPanel"@[0],
        "library.newFileUnder"@[0] != "editor.getSpeechText"@[0],
        "library.newFileUnder"@[0] != "editor.setPasteboard"@[0],
        "library.newFolder"@[8] != "library.duplicate"@[8],
        "library.newFolder"@[8] != "library.trashItem"@[8],
        "library.newFolder"@[0] != "editor.insertText"@[0],
        "library.renameFile"@[0] != "images.addToBundle"@[0],
        "library.moveFile"@[0] != "images.copyImage"@[0],
        "library.duplicate"@[8] != "library.trashItem"@[8],
        "library.duplicate"@[0] != "editor.insertText"@[0],
        "library.trashItem"@[0] != "editor.insertText"@[0],
        "library.showProperty"@[0] != "images.prepImageMove"@[0],
        "library.showProperty"@[0] != "editor.showZoomPanel"@[0],
        "library.showProperty"@[0] != "editor.getSpeechText"@[0],
        "library.showProperty"@[0] != "editor.setPasteboard"@[0],
        "library.updateListItem"@[0] != "editor.resetPasteboard"@[0],
        "library.updateListItemIfIsOpen"@[0] != "touchBar.updateFindReplaceMode"@[0],
        "images.insertLocalImage"@[0] != "word.getTextReplacement"@[0],
        "images.prepImageMove"@[0] != "editor.showZoomPanel"@[0],
        "images.prepImageMove"@[0] != "editor.getSpeechText"@[0],
        "images.prepImageMove"@[0] != "editor.setPasteboard"@[0],
        "touchBar.setFencesOnSetLang"@[10] != "touchBar.showDialogTouchBar"@[10],
        "touchBar.showFindReplaceTouchBar"@[13] != "touchBar.showInsertTableTouchBar"@[13],
        "touchBar.showFindReplaceTouchBar"@[0] != "word.getSpellSuggestionInContext"@[0],
        "touchBar.showInsertTableTouchBar"@[0] != "word.getSpellSuggestionInContext"@[0],
        "editor.showZoomPanel"@[7] != "editor.getSpeechText"@[7],
        "editor.showZoomPanel"@[8] != "editor.setPasteboard"@[8],
        "editor.getSpeechText"@[7] != "editor.setPasteboard"@[7],
{
    reveal_strlit("document.loadData");
    reveal_strlit("document.switchDocument");
    reveal_strlit("document.getContent");
    reveal_strlit("document.setContent");
    reveal_strlit("document.syncFullContent");
    reveal_strlit("controller.syncFullContent");
    reveal_strlit("document.updateChangeCount");
    reveal_strlit("document.updateChangeCountIfUnedited");
    reveal_strlit("document.syncChangeIfNeeded");
    reveal_strlit("document.addSnapAndLastSync");
    reveal_strlit("document.addSnap");
    reveal_strlit("document.setLastSync");
    reveal_strlit("document.noOtherWindow");
    reveal_strlit("document.needsUpdateSnap");
    reveal_strlit("document.requestBuildSnap");
    reveal_strlit("document.recordUnusedAssets");
    reveal_strlit("document.hasDuplicateName");
    reveal_strlit("document.checkIfMoveOnSave");
    reveal_strlit("path.selectFolderOrFile");
    reveal_strlit("path.showSaveDialog");
    reveal_strlit("dialog.showSaveDialog");
    reveal_strlit("app.openFile");
    reveal_strlit("path.openFile");
    reveal_strlit("app.openFileOrFolder");
    reveal_strlit("document.save");
    reveal_strlit("document.saveAs");
    reveal_strlit("controller.shouldLoadFolder");
    reveal_strlit("window.dragBy");
    reveal_strlit("window.updateMenuForIsAlwaysOnTop");
    reveal_strlit("window.loadFinished");
    reveal_strlit("window.refreshFullContentState");
    reveal_strlit("window.setBackground");
    reveal_strlit("window.setTitlebarTextMarginLeft");
    reveal_strlit("window.setInSourceMode");
    reveal_strlit("window.checkAsFocus");
    reveal_strlit("menu.updateMenu");
    reveal_strlit("touchBar.setBlockStyle");
    reveal_strlit("touchBar.setInlineEnabled");
    reveal_strlit("touchBar.setInlineStates");
    reveal_strlit("word.updateWordCount");
    reveal_strlit("setting.get");
    reveal_strlit("setting.readSetting");
    reveal_strlit("setting.getRecentFiles");
    reveal_strlit("setting.updateRecentFile");
    reveal_strlit("setting.removeRecentDocument");
    reveal_strlit("quickOpen.cacheRecentFiles");
    reveal_strlit("logger.debug");
    reveal_strlit("logger.error");
    reveal_strlit("logger.info");
    reveal_strlit("window.execForAll");
    reveal_strlit("window.focus");
    reveal_strlit("window.resetZoom");
    reveal_strlit("window.zoomIn");
    reveal_strlit("window.zoomOut");
    reveal_strlit("window.showDialog");
    reveal_strlit("window.pasteAsPlainText");
    reveal_strlit("window.updateUIAfterExitSourceMode");
    reveal_strlit("window.previewFile");
    reveal_strlit("window.open");
    reveal_strlit("window.selectNextTab");
    reveal_strlit("window.selectPreviousTab");
    reveal_strlit("window.setIsSchemeAwareness");
    reveal_strlit("path.openURL");
    reveal_strlit("path.openFolderInFinder");
    reveal_strlit("path.showInFinder");
    reveal_strlit("path.isDirectory");
    reveal_strlit("path.moveTo");
    reveal_strlit("path.moveFile");
    reveal_strlit("path.removeFiles");
    reveal_strlit("quickOpen.query");
    reveal_strlit("quickOpen.stopQuery");
    reveal_strlit("quickOpen.reindexFolderIfNeeded");
    reveal_strlit("controller.openFolder");
    reveal_strlit("controller.switchFolder");
    reveal_strlit("controller.runCommand");
    reveal_strlit("controller.selectFolder");
    reveal_strlit("controller.calcMountFolder");
    reveal_strlit("controller.openInNewWindow");
    reveal_strlit("controller.openInTypora");
    reveal_strlit("controller.showErrorDialog");
    reveal_strlit("controller.switchDocumentTarget");
    reveal_strlit("controller.startDrag");
    reveal_strlit("controller.bindFolderMonitor");
    reveal_strlit("clipboard.read");
    reveal_strlit("clipboard.write");
    reveal_strlit("clipboard.postCopy");
    reveal_strlit("clipboard.readImage");
    reveal_strlit("clipboard.writeImage");
    reveal_strlit("setting.put");
    reveal_strlit("setting.fetchAnalytics");
    reveal_strlit("setting.showAndHighlight");
    reveal_strlit("library.fetchAllDocs");
    reveal_strlit("library.listDocsUnder");
    reveal_strlit("library.search");
    reveal_strlit("library.getRecentFolders");
    reveal_strlit("library.newFile");
    reveal_strlit("library.newFileUnder");
    reveal_strlit("library.newFolder");
    reveal_strlit("library.renameFile");
    reveal_strlit("library.moveFile");
    reveal_strlit("library.duplicate");
    reveal_strlit("library.trashItem");
    reveal_strlit("library.showProperty");
    reveal_strlit("library.updateListItem");
    reveal_strlit("library.updateListItemIfIsOpen");
    reveal_strlit("images.insertLocalImage");
    reveal_strlit("images.copyImage");
    reveal_strlit("images.savePNG");
    reveal_strlit("images.upload");
    reveal_strlit("images.startCopyAllImages");
    reveal_strlit("images.addToBundle");
    reveal_strlit("images.prepImageMove");
    reveal_strlit("images.getScale");
    reveal_strlit("images.iPicValidateBeforeUpload");
    reveal_strlit("touchBar.setFencesOnSetLang");
    reveal_strlit("touchBar.showDialogTouchBar");
    reveal_strlit("touchBar.showFindReplaceTouchBar");
    reveal_strlit("touchBar.showInsertTableTouchBar");
    reveal_strlit("touchBar.updateFindReplaceMode");
    reveal_strlit("touchBar.updateInsertTableTouchBar");
    reveal_strlit("editor.jumpToAnchor");
    reveal_strlit("editor.showZoomPanel");
    reveal_strlit("editor.getSpeechText");
    reveal_strlit("editor.resetPasteboard");
    reveal_strlit("editor.setPasteboard");
    reveal_strlit("editor.insertText");
    reveal_strlit("word.getSpellSuggestionInContext");
    reveal_strlit("word.getTextReplacement");
}

/// Routes of the handler names in part 1 of the routing table.
proof fn lemma_bridge_routes_part1()
    ensures
        spec_bridge_route("document.loadData"@) == BridgeRoute::LoadData,
        spec_bridge_route("document.switchDocument"@) == BridgeRoute::SwitchDocument,
        spec_bridge_route("document.getContent"@) == BridgeRoute::GetContent,
        spec_bridge_route("document.setContent"@) == BridgeRoute::SetContent,
        spec_bridge_route("document.syncFullContent"@) == BridgeRoute::SyncFullContent,
        spec_bridge_route("controller.syncFullContent"@) == BridgeRoute::SyncFullContent,
        spec_bridge_route("document.updateChangeCount"@) == BridgeRoute::UpdateChangeCount,
        spec_bridge_route("document.updateChangeCountIfUnedited"@) == BridgeRoute::UpdateChangeCountIfUnedited,
        spec_bridge_route("document.syncChangeIfNeeded"@) == BridgeRoute::Ignored,
        spec_bridge_route("document.addSnapAndLastSync"@) == BridgeRoute::Ignored,
        spec_bridge_route("document.addSnap"@) == BridgeRoute::Ignored,
        spec_bridge_route("document.setLastSync"@) == BridgeRoute::Ignored,
        spec_bridge_route("document.noOtherWindow"@) == BridgeRoute::Ignored,
        spec_bridge_route("document.needsUpdateSnap"@) == BridgeRoute::Ignored,
        spec_bridge_route("document.requestBuildSnap"@) == BridgeRoute::Ignored,
        spec_bridge_route("document.recordUnusedAssets"@) == BridgeRoute::Ignored,
{
    lemma_handler_name_facts();
}

/// Routes of the handler names in part 2 of the routing table.
proof fn lemma_bridge_routes_part2()
    ensures
        spec_bridge_route("document.hasDuplicateName"@) == BridgeRoute::Ignored,
        spec_bridge_route("document.checkIfMoveOnSave"@) == BridgeRoute::Ignored,
        spec_bridge_route("path.selectFolderOrFile"@) == BridgeRoute::SelectFolderOrFile,
        spec_bridge_route("path.showSaveDialog"@) == BridgeRoute::ShowSaveDialog,
        spec_bridge_route("dialog.showSaveDialog"@) == BridgeRoute::ShowSaveDialog,
        spec_bridge_route("app.openFile"@) == BridgeRoute::OpenFile,
        spec_bridge_route("path.openFile"@) == BridgeRoute::OpenFile,
        spec_bridge_route("app.openFileOrFolder"@) == BridgeRoute::OpenFileOrFolder,
        spec_bridge_route("document.save"@) == BridgeRoute::Save,
        spec_bridge_route("document.saveAs"@) == BridgeRoute::SaveAs,
        spec_bridge_route("controller.shouldLoadFolder"@) == BridgeRoute::ShouldLoadFolder,
        spec_bridge_route("window.dragBy"@) == BridgeRoute::DragBy,
        spec_bridge_route("window.updateMenuForIsAlwaysOnTop"@) == BridgeRoute::AnswerFalse,
        spec_bridge_route("window.loadFinished"@) == BridgeRoute::AnswerTrue,
        spec_bridge_route("window.refreshFullContentState"@) == BridgeRoute::Ignored,
        spec_bridge_route("window.setBackground"@) == BridgeRoute::Ignored,
{
    lemma_handler_name_facts();
}

/// Routes of the handler names in part 3 of the routing table.
proof fn lemma_bridge_routes_part3()
    ensures
        spec_bridge_route("window.setTitlebarTextMarginLeft"@) == BridgeRoute::Ignored,
        spec_bridge_route("window.setInSourceMode"@) == BridgeRoute::Ignored,
        spec_bridge_route("window.checkAsFocus"@) == BridgeRoute::Ignored,
        spec_bridge_route("menu.updateMenu"@) == BridgeRoute::Ignored,
        spec_bridge_route("touchBar.setBlockStyle"@) == BridgeRoute::Ignored,
        spec_bridge_route("touchBar.setInlineEnabled"@) == BridgeRoute::Ignored,
        spec_bridge_route("touchBar.setInlineStates"@) == BridgeRoute::Ignored,
        spec_bridge_route("word.updateWordCount"@) == BridgeRoute::Ignored,
        spec_bridge_route("setting.get"@) == BridgeRoute::Ignored,
        spec_bridge_route("setting.readSetting"@) == BridgeRoute::Ignored,
        spec_bridge_route("setting.getRecentFiles"@) == BridgeRoute::GetRecentFiles,
        spec_bridge_route("setting.updateRecentFile"@) == BridgeRoute::UpdateRecentFile,
        spec_bridge_route("setting.removeRecentDocument"@) == BridgeRoute::RemoveRecentDocument,
        spec_bridge_route("quickOpen.cacheRecentFiles"@) == BridgeRoute::CacheRecentFiles,
        spec_bridge_route("logger.debug"@) == BridgeRoute::Ignored,
        spec_bridge_route("logger.error"@) == BridgeRoute::Ignored,
{
    lemma_handler_name_facts();
}

/// Routes of the handler names in part 4 of the routing table.
proof fn lemma_bridge_routes_part4()
    ensures
        spec_bridge_route("logger.info"@) == BridgeRoute::Ignored,
        spec_bridge_route("window.execForAll"@) == BridgeRoute::ExecForAll,
        spec_bridge_route("window.focus"@) == BridgeRoute::Focus,
        spec_bridge_route("window.resetZoom"@) == BridgeRoute::ResetZoom,
        spec_bridge_route("window.zoomIn"@) == BridgeRoute::ZoomIn,
        spec_bridge_route("window.zoomOut"@) == BridgeRoute::ZoomOut,
        spec_bridge_route("window.showDialog"@) == BridgeRoute::ShowDialog,
        spec_bridge_route("window.pasteAsPlainText"@) == BridgeRoute::PasteAsPlainText,
        spec_bridge_route("window.updateUIAfterExitSourceMode"@) == BridgeRoute::Ignored,
        spec_bridge_route("window.previewFile"@) == BridgeRoute::Ignored,
        spec_bridge_route("window.open"@) == BridgeRoute::Ignored,
        spec_bridge_route("window.selectNextTab"@) == BridgeRoute::Ignored,
        spec_bridge_route("window.selectPreviousTab"@) == BridgeRoute::Ignored,
        spec_bridge_route("window.setIsSchemeAwareness"@) == BridgeRoute::Ignored,
        spec_bridge_route("path.openURL"@) == BridgeRoute::OpenUrl,
        spec_bridge_route("path.openFolderInFinder"@) == BridgeRoute::OpenFolderInFinder,
{
    lemma_handler_name_facts();
}

/// Routes of the handler names in part 5 of the routing table.
proof fn lemma_bridge_routes_part5()
    ensures
        spec_bridge_route("path.showInFinder"@) == BridgeRoute::ShowInFinder,
        spec_bridge_route("path.isDirectory"@) == BridgeRoute::IsDirectory,
        spec_bridge_route("path.moveTo"@) == BridgeRoute::MoveFile,
        spec_bridge_route("path.moveFile"@) == BridgeRoute::MoveFile,
        spec_bridge_route("path.removeFiles"@) == BridgeRoute::RemoveFiles,
        spec_bridge_route("quickOpen.query"@) == BridgeRoute::EmptyList,
        spec_bridge_route("quickOpen.stopQuery"@) == BridgeRoute::Ignored,
        spec_bridge_route("quickOpen.reindexFolderIfNeeded"@) == BridgeRoute::Ignored,
        spec_bridge_route("controller.openFolder"@) == BridgeRoute::OpenFolder,
        spec_bridge_route("controller.switchFolder"@) == BridgeRoute::OpenFolder,
        spec_bridge_route("controller.runCommand"@) == BridgeRoute::RunCommand,
        spec_bridge_route("controller.selectFolder"@) == BridgeRoute::SelectFolder,
        spec_bridge_route("controller.calcMountFolder"@) == BridgeRoute::CalcMountFolder,
        spec_bridge_route("controller.openInNewWindow"@) == BridgeRoute::OpenInWindow,
        spec_bridge_route("controller.openInTypora"@) == BridgeRoute::OpenInWindow,
        spec_bridge_route("controller.showErrorDialog"@) == BridgeRoute::ShowErrorDialog,
{
    lemma_handler_name_facts();
}

/// Routes of the handler names in part 6 of the routing table.
proof fn lemma_bridge_routes_part6()
    ensures
        spec_bridge_route("controller.switchDocumentTarget"@) == BridgeRoute::SwitchDocumentTarget,
        spec_bridge_route("controller.startDrag"@) == BridgeRoute::Ignored,
        spec_bridge_route("controller.bindFolderMonitor"@) == BridgeRoute::Ignored,
        spec_bridge_route("clipboard.read"@) == BridgeRoute::ClipboardRead,
        spec_bridge_route("clipboard.write"@) == BridgeRoute::ClipboardWrite,
        spec_bridge_route("clipboard.postCopy"@) == BridgeRoute::Ignored,
        spec_bridge_route("clipboard.readImage"@) == BridgeRoute::Ignored,
        spec_bridge_route("clipboard.writeImage"@) == BridgeRoute::Ignored,
        spec_bridge_route("setting.put"@) == BridgeRoute::Ignored,
        spec_bridge_route("setting.fetchAnalytics"@) == BridgeRoute::Ignored,
        spec_bridge_route("setting.showAndHighlight"@) == BridgeRoute::Ignored,
        spec_bridge_route("library.fetchAllDocs"@) == BridgeRoute::FetchAllDocs,
        spec_bridge_route("library.listDocsUnder"@) == BridgeRoute::ListDocsUnder,
        spec_bridge_route("library.search"@) == BridgeRoute::EmptyList,
        spec_bridge_route("library.getRecentFolders"@) == BridgeRoute::NoRecentFolders,
        spec_bridge_route("library.newFile"@) == BridgeRoute::Ignored,
{
    lemma_handler_name_facts();
}

/// Routes of the handler names in part 7 of the routing table.
proof fn lemma_bridge_routes_part7()
    ensures
        spec_bridge_route("library.newFileUnder"@) == BridgeRoute::Ignored,
        spec_bridge_route("library.newFolder"@) == BridgeRoute::Ignored,
        spec_bridge_route("library.renameFile"@) == BridgeRoute::Ignored,
        spec_bridge_route("library.moveFile"@) == BridgeRoute::Ignored,
        spec_bridge_route("library.duplicate"@) == BridgeRoute::Ignored,
        spec_bridge_route("library.trashItem"@) == BridgeRoute::Ignored,
        spec_bridge_route("library.showProperty"@) == BridgeRoute::Ignored,
        spec_bridge_route("library.updateListItem"@) == BridgeRoute::Ignored,
        spec_bridge_route("library.updateListItemIfIsOpen"@) == BridgeRoute::Ignored,
        spec_bridge_route("images.insertLocalImage"@) == BridgeRoute::Ignored,
        spec_bridge_route("images.copyImage"@) == BridgeRoute::Ignored,
        spec_bridge_route("images.savePNG"@) == BridgeRoute::Ignored,
        spec_bridge_route("images.upload"@) == BridgeRoute::Ignored,
        spec_bridge_route("images.startCopyAllImages"@) == BridgeRoute::Ignored,
        spec_bridge_route("images.addToBundle"@) == BridgeRoute::Ignored,
        spec_bridge_route("images.prepImageMove"@) == BridgeRoute::Ignored,
{
    lemma_handler_name_facts();
}

/// Routes of the handler names in part 8 of the routing table.
proof fn lemma_bridge_routes_part8()
    ensures
        spec_bridge_route("images.getScale"@) == BridgeRoute::Ignored,
        spec_bridge_route("images.iPicValidateBeforeUpload"@) == BridgeRoute::Ignored,
        spec_bridge_route("touchBar.setFencesOnSetLang"@) == BridgeRoute::Ignored,
        spec_bridge_route("touchBar.showDialogTouchBar"@) == BridgeRoute::Ignored,
        spec_bridge_route("touchBar.showFindReplaceTouchBar"@) == BridgeRoute::Ignored,
        spec_bridge_route("touchBar.showInsertTableTouchBar"@) == BridgeRoute::Ignored,
        spec_bridge_route("touchBar.updateFindReplaceMode"@) == BridgeRoute::Ignored,
        spec_bridge_route("touchBar.updateInsertTableTouchBar"@) == BridgeRoute::Ignored,
        spec_bridge_route("editor.jumpToAnchor"@) == BridgeRoute::JumpToAnchor,
        spec_bridge_route("editor.showZoomPanel"@) == BridgeRoute::Ignored,
        spec_bridge_route("editor.getSpeechText"@) == BridgeRoute::Ignored,
        spec_bridge_route("editor.resetPasteboard"@) == BridgeRoute::Ignored,
        spec_bridge_route("editor.setPasteboard"@) == BridgeRoute::Ignored,
        spec_bridge_route("editor.insertText"@) == BridgeRoute::Ignored,
        spec_bridge_route("word.getSpellSuggestionInContext"@) == BridgeRoute::Ignored,
        spec_bridge_route("word.getTextReplacement"@) == BridgeRoute::Ignored,
{
    lemma_handler_name_facts();
}

/// Every handler name the page sends goes to the route of its own: the
/// document, dialog, window, path, recent-file, clipboard, library and editor
/// messages each reach the handler that does what the name says, and the
/// names that need nothing are ignored.
pub proof fn lemma_bridge_routes_by_name()
    ensures
        spec_bridge_route("document.loadData"@) == BridgeRoute::LoadData,
        spec_bridge_route("document.switchDocument"@) == BridgeRoute::SwitchDocument,
        spec_bridge_route("document.getContent"@) == BridgeRoute::GetContent,
        spec_bridge_route("document.setContent"@) == BridgeRoute::SetContent,
        spec_bridge_route("document.syncFullContent"@) == BridgeRoute::SyncFullContent,
        spec_bridge_route("controller.syncFullContent"@) == BridgeRoute::SyncFullContent,
        spec_bridge_route("document.updateChangeCount"@) == BridgeRoute::UpdateChangeCount,
        spec_bridge_route("document.updateChangeCountIfUnedited"@) == BridgeRoute::UpdateChangeCountIfUnedited,
        spec_bridge_route("document.syncChangeIfNeeded"@) == BridgeRoute::Ignored,
        spec_bridge_route("document.addSnapAndLastSync"@) == BridgeRoute::Ignored,
        spec_bridge_route("document.addSnap"@) == BridgeRoute::Ignored,
        spec_bridge_route("document.setLastSync"@) == BridgeRoute::Ignored,
        spec_bridge_route("document.noOtherWindow"@) == BridgeRoute::Ignored,
        spec_bridge_route("document.needsUpdateSnap"@) == BridgeRoute::Ignored,
        spec_bridge_route("document.requestBuildSnap"@) == BridgeRoute::Ignored,
        spec_bridge_route("document.recordUnusedAssets"@) == BridgeRoute::Ignored,
        spec_bridge_route("document.hasDuplicateName"@) == BridgeRoute::Ignored,
        spec_bridge_route("document.checkIfMoveOnSave"@) == BridgeRoute::Ignored,
        spec_bridge_route("path.selectFolderOrFile"@) == BridgeRoute::SelectFolderOrFile,
        spec_bridge_route("path.showSaveDialog"@) == BridgeRoute::ShowSaveDialog,
        spec_bridge_route("dialog.showSaveDialog"@) == BridgeRoute::ShowSaveDialog,
        spec_bridge_route("app.openFile"@) == BridgeRoute::OpenFile,
        spec_bridge_route("path.openFile"@) == BridgeRoute::OpenFile,
        spec_bridge_route("app.openFileOrFolder"@) == BridgeRoute::OpenFileOrFolder,
        spec_bridge_route("document.save"@) == BridgeRoute::Save,
        spec_bridge_route("document.saveAs"@) == BridgeRoute::SaveAs,
        spec_bridge_route("controller.shouldLoadFolder"@) == BridgeRoute::ShouldLoadFolder,
        spec_bridge_route("window.dragBy"@) == BridgeRoute::DragBy,
        spec_bridge_route("window.updateMenuForIsAlwaysOnTop"@) == BridgeRoute::AnswerFalse,
        spec_bridge_route("window.loadFinished"@) == BridgeRoute::AnswerTrue,
        spec_bridge_route("window.refreshFullContentState"@) == BridgeRoute::Ignored,
        spec_bridge_route("window.setBackground"@) == BridgeRoute::Ignored,
        spec_bridge_route("window.setTitlebarTextMarginLeft"@) == BridgeRoute::Ignored,
        spec_bridge_route("window.setInSourceMode"@) == BridgeRoute::Ignored,
        spec_bridge_route("window.checkAsFocus"@) == BridgeRoute::Ignored,
        spec_bridge_route("menu.updateMenu"@) == BridgeRoute::Ignored,
        spec_bridge_route("touchBar.setBlockStyle"@) == BridgeRoute::Ignored,
        spec_bridge_route("touchBar.setInlineEnabled"@) == BridgeRoute::Ignored,
        spec_bridge_route("touchBar.setInlineStates"@) == BridgeRoute::Ignored,
        spec_bridge_route("word.updateWordCount"@) == BridgeRoute::Ignored,
        spec_bridge_route("setting.get"@) == BridgeRoute::Ignored,
        spec_bridge_route("setting.readSetting"@) == BridgeRoute::Ignored,
        spec_bridge_route("setting.getRecentFiles"@) == BridgeRoute::GetRecentFiles,
        spec_bridge_route("setting.updateRecentFile"@) == BridgeRoute::UpdateRecentFile,
        spec_bridge_route("setting.removeRecentDocument"@) == BridgeRoute::RemoveRecentDocument,
        spec_bridge_route("quickOpen.cacheRecentFiles"@) == BridgeRoute::CacheRecentFiles,
        spec_bridge_route("logger.debug"@) == BridgeRoute::Ignored,
        spec_bridge_route("logger.error"@) == BridgeRoute::Ignored,
        spec_bridge_route("logger.info"@) == BridgeRoute::Ignored,
        spec_bridge_route("window.execForAll"@) == BridgeRoute::ExecForAll,
        spec_bridge_route("window.focus"@) == BridgeRoute::Focus,
        spec_bridge_route("window.resetZoom"@) == BridgeRoute::ResetZoom,
        spec_bridge_route("window.zoomIn"@) == BridgeRoute::ZoomIn,
        spec_bridge_route("window.zoomOut"@) == BridgeRoute::ZoomOut,
        spec_bridge_route("window.showDialog"@) == BridgeRoute::ShowDialog,
        spec_bridge_route("window.pasteAsPlainText"@) == BridgeRoute::PasteAsPlainText,
        spec_bridge_route("window.updateUIAfterExitSourceMode"@) == BridgeRoute::Ignored,
        spec_bridge_route("window.previewFile"@) == BridgeRoute::Ignored,
        spec_bridge_route("window.open"@) == BridgeRoute::Ignored,
        spec_bridge_route("window.selectNextTab"@) == BridgeRoute::Ignored,
        spec_bridge_route("window.selectPreviousTab"@) == BridgeRoute::Ignored,
        spec_bridge_route("window.setIsSchemeAwareness"@) == BridgeRoute::Ignored,
        spec_bridge_route("path.openURL"@) == BridgeRoute::OpenUrl,
        spec_bridge_route("path.openFolderInFinder"@) == BridgeRoute::OpenFolderInFinder,
        spec_bridge_route("path.showInFinder"@) == BridgeRoute::ShowInFinder,
        spec_bridge_route("path.isDirectory"@) == BridgeRoute::IsDirectory,
        spec_bridge_route("path.moveTo"@) == BridgeRoute::MoveFile,
        spec_bridge_route("path.moveFile"@) == BridgeRoute::MoveFile,
        spec_bridge_route("path.removeFiles"@) == BridgeRoute::RemoveFiles,
        spec_bridge_route("quickOpen.query"@) == BridgeRoute::EmptyList,
        spec_bridge_route("quickOpen.stopQuery"@) == BridgeRoute::Ignored,
        spec_bridge_route("quickOpen.reindexFolderIfNeeded"@) == BridgeRoute::Ignored,
        spec_bridge_route("controller.openFolder"@) == BridgeRoute::OpenFolder,
        spec_bridge_route("controller.switchFolder"@) == BridgeRoute::OpenFolder,
        spec_bridge_route("controller.runCommand"@) == BridgeRoute::RunCommand,
        spec_bridge_route("controller.selectFolder"@) == BridgeRoute::SelectFolder,
        spec_bridge_route("controller.calcMountFolder"@) == BridgeRoute::CalcMountFolder,
        spec_bridge_route("controller.openInNewWindow"@) == BridgeRoute::OpenInWindow,
        spec_bridge_route("controller.openInTypora"@) == BridgeRoute::OpenInWindow,
        spec_bridge_route("controller.showErrorDialog"@) == BridgeRoute::ShowErrorDialog,
        spec_bridge_route("controller.switchDocumentTarget"@) == BridgeRoute::SwitchDocumentTarget,
        spec_bridge_route("controller.startDrag"@) == BridgeRoute::Ignored,
        spec_bridge_route("controller.bindFolderMonitor"@) == BridgeRoute::Ignored,
        spec_bridge_route("clipboard.read"@) == BridgeRoute::ClipboardRead,
        spec_bridge_route("clipboard.write"@) == BridgeRoute::ClipboardWrite,
        spec_bridge_route("clipboard.postCopy"@) == BridgeRoute::Ignored,
        spec_bridge_route("clipboard.readImage"@) == BridgeRoute::Ignored,
        spec_bridge_route("clipboard.writeImage"@) == BridgeRoute::Ignored,
        spec_bridge_route("setting.put"@) == BridgeRoute::Ignored,
        spec_bridge_route("setting.fetchAnalytics"@) == BridgeRoute::Ignored,
        spec_bridge_route("setting.showAndHighlight"@) == BridgeRoute::Ignored,
        spec_bridge_route("library.fetchAllDocs"@) == BridgeRoute::FetchAllDocs,
        spec_bridge_route("library.listDocsUnder"@) == BridgeRoute::ListDocsUnder,
        spec_bridge_route("library.search"@) == BridgeRoute::EmptyList,
        spec_bridge_route("library.getRecentFolders"@) == BridgeRoute::NoRecentFolders,
        spec_bridge_route("library.newFile"@) == BridgeRoute::Ignored,
        spec_bridge_route("library.newFileUnder"@) == BridgeRoute::Ignored,
        spec_bridge_route("library.newFolder"@) == BridgeRoute::Ignored,
        spec_bridge_route("library.renameFile"@) == BridgeRoute::Ignored,
        spec_bridge_route("library.moveFile"@) == BridgeRoute::Ignored,
        spec_bridge_route("library.duplicate"@) == BridgeRoute::Ignored,
        spec_bridge_route("library.trashItem"@) == BridgeRoute::Ignored,
        spec_bridge_route("library.showProperty"@) == BridgeRoute::Ignored,
        spec_bridge_route("library.updateListItem"@) == BridgeRoute::Ignored,
        spec_bridge_route("library.updateListItemIfIsOpen"@) == BridgeRoute::Ignored,
        spec_bridge_route("images.insertLocalImage"@) == BridgeRoute::Ignored,
        spec_bridge_route("images.copyImage"@) == BridgeRoute::Ignored,
        spec_bridge_route("images.savePNG"@) == BridgeRoute::Ignored,
        spec_bridge_route("images.upload"@) == BridgeRoute::Ignored,
        spec_bridge_route("images.startCopyAllImages"@) == BridgeRoute::Ignored,
        spec_bridge_route("images.addToBundle"@) == BridgeRoute::Ignored,
        spec_bridge_route("images.prepImageMove"@) == BridgeRoute::Ignored,
        spec_bridge_route("images.getScale"@) == BridgeRoute::Ignored,
        spec_bridge_route("images.iPicValidateBeforeUpload"@) == BridgeRoute::Ignored,
        spec_bridge_route("touchBar.setFencesOnSetLang"@) == BridgeRoute::Ignored,
        spec_bridge_route("touchBar.showDialogTouchBar"@) == BridgeRoute::Ignored,
        spec_bridge_route("touchBar.showFindReplaceTouchBar"@) == BridgeRoute::Ignored,
        spec_bridge_route("touchBar.showInsertTableTouchBar"@) == BridgeRoute::Ignored,
        spec_bridge_route("touchBar.updateFindReplaceMode"@) == BridgeRoute::Ignored,
        spec_bridge_route("touchBar.updateInsertTableTouchBar"@) == BridgeRoute::Ignored,
        spec_bridge_route("editor.jumpToAnchor"@) == BridgeRoute::JumpToAnchor,
        spec_bridge_route("editor.showZoomPanel"@) == BridgeRoute::Ignored,
        spec_bridge_route("editor.getSpeechText"@) == BridgeRoute::Ignored,
        spec_bridge_route("editor.resetPasteboard"@) == BridgeRoute::Ignored,
        spec_bridge_route("editor.setPasteboard"@) == BridgeRoute::Ignored,
        spec_bridge_route("editor.insertText"@) == BridgeRoute::Ignored,
        spec_bridge_route("word.getSpellSuggestionInContext"@) == BridgeRoute::Ignored,
        spec_bridge_route("word.getTextReplacement"@) == BridgeRoute::Ignored,
{
    lemma_bridge_routes_part1();
    lemma_bridge_routes_part2();
    lemma_bridge_routes_part3();
    lemma_bridge_routes_part4();
    lemma_bridge_routes_part5();
    lemma_bridge_routes_part6();
    lemma_bridge_routes_part7();
    lemma_bridge_routes_part8();
}

/// An answer to a bridge message that does not depend on the state.
#[derive(Debug, Clone, Copy, PartialEq, Eq, Structural)]
pub enum FixedAnswer {
    Null,
    True,
    False,
    EmptyList,
    /// `{"folders": []}`.
    NoFolders,
}

/// The answer of a route whose answer does not depend on the state; `None`
/// for a route that answers with something it reads or computes.
pub open spec fn spec_fixed_answer(route: BridgeRoute) -> Option<FixedAnswer> {
    match route {
        BridgeRoute::LoadData | BridgeRoute::SwitchDocument | BridgeRoute::GetContent
        | BridgeRoute::SetContent | BridgeRoute::SelectFolderOrFile | BridgeRoute::ShowSaveDialog
        | BridgeRoute::OpenFileOrFolder | BridgeRoute::Save | BridgeRoute::SaveAs
        | BridgeRoute::ShouldLoadFolder | BridgeRoute::GetRecentFiles | BridgeRoute::IsDirectory
        | BridgeRoute::CalcMountFolder | BridgeRoute::SwitchDocumentTarget
        | BridgeRoute::ClipboardRead | BridgeRoute::FetchAllDocs | BridgeRoute::ListDocsUnder => None,
        BridgeRoute::SyncFullContent | BridgeRoute::OpenFile | BridgeRoute::DragBy
        | BridgeRoute::AnswerTrue | BridgeRoute::UpdateRecentFile | BridgeRoute::RemoveRecentDocument
        | BridgeRoute::CacheRecentFiles | BridgeRoute::MoveFile | BridgeRoute::RemoveFiles => Some(FixedAnswer::True),
        BridgeRoute::AnswerFalse => Some(FixedAnswer::False),
        BridgeRoute::EmptyList => Some(FixedAnswer::EmptyList),
        BridgeRoute::NoRecentFolders => Some(FixedAnswer::NoFolders),
        _ => Some(FixedAnswer::Null),
    }
}

/// The answer of a route whose answer does not depend on the state.
pub fn fixed_answer(route: BridgeRoute) -> (answer: Option<FixedAnswer>)
    ensures
        answer == spec_fixed_answer(route),
{
    match route {
        BridgeRoute::LoadData | BridgeRoute::SwitchDocument | BridgeRoute::GetContent
        | BridgeRoute::SetContent | BridgeRoute::SelectFolderOrFile | BridgeRoute::ShowSaveDialog
        | BridgeRoute::OpenFileOrFolder | BridgeRoute::Save | BridgeRoute::SaveAs
        | BridgeRoute::ShouldLoadFolder | BridgeRoute::GetRecentFiles | BridgeRoute::IsDirectory
        | BridgeRoute::CalcMountFolder | BridgeRoute::SwitchDocumentTarget
        | BridgeRoute::ClipboardRead | BridgeRoute::FetchAllDocs | BridgeRoute::ListDocsUnder => None,
        BridgeRoute::SyncFullContent | BridgeRoute::OpenFile | BridgeRoute::DragBy
        | BridgeRoute::AnswerTrue | BridgeRoute::UpdateRecentFile | BridgeRoute::RemoveRecentDocument
        | BridgeRoute::CacheRecentFiles | BridgeRoute::MoveFile | BridgeRoute::RemoveFiles => Some(FixedAnswer::True),
        BridgeRoute::AnswerFalse => Some(FixedAnswer::False),
        BridgeRoute::EmptyList => Some(FixedAnswer::EmptyList),
        BridgeRoute::NoRecentFolders => Some(FixedAnswer::NoFolders),
        _ => Some(FixedAnswer::Null),
    }
}

/// The text a message carries: the first place that holds a string, else
/// the second (the data or its second item; `data.path` or the data;
/// `data.text` or the data).
pub fn message_text(first: Option<String>, second: Option<String>) -> (text: Option<String>)
    ensures
        opt_view(text) == (match opt_view(first) {
            Some(t) => Some(t),
            None => opt_view(second),
        }),
{
    match first {
        Some(t) => Some(t),
        None => second,
    }
}

/// The folder whose tree `library.fetchAllDocs` answers: the one the message
/// names, else the one the sidebar shows; `None` answers an empty list.
pub fn library_folder(requested: Option<String>, shown: Option<String>) -> (folder: Option<String>)
    ensures
        opt_view(folder) == (match opt_view(requested) {
            Some(f) => Some(f),
            None => opt_view(shown),
        }),
{
    message_text(requested, shown)
}

/// What the host does with a message from the page.
#[derive(Debug, Clone, Copy, PartialEq, Eq, Structural)]
pub enum MessageKind {
    /// The page waits for an answer: route the message and send the answer.
    Respond,
    /// A report of the smoke test: log it.
    SmokeReport,
    /// A notification: route the message and drop the answer.
    Notify,
}

/// What the host does with a message with this handler name, given whether
/// it carries a callback id.
pub open spec fn spec_message_kind(handler: Seq<char>, has_callback: bool) -> MessageKind {
    if has_callback {
        MessageKind::Respond
    } else if handler == "notypo.smoke"@ {
        MessageKind::SmokeReport
    } else {
        MessageKind::Notify
    }
}

/// What the host does with a message from the page.
pub fn message_kind(handler: &str, has_callback: bool) -> (kind: MessageKind)
    ensures
        kind == spec_message_kind(handler@, has_callback),
{
    if has_callback {
        MessageKind::Respond
    } else if text_eq(handler, "notypo.smoke") {
        MessageKind::SmokeReport
    } else {
        MessageKind::Notify
    }
}

/// What the host answers to a synchronous call (`bridge.callSync`).
#[derive(Debug, Clone, Copy, PartialEq, Eq, Structural)]
pub enum SyncRoute {
    /// The setting named by the data.
    SettingGet,
    /// Every setting.
    SettingLoadAll,
    /// The clipboard text.
    ClipboardReadText,
    /// The text of the file named by the data.
    PathReadText,
    /// Whether the document has unsaved edits.
    IsDocumentEdited,
    /// The data itself.
    ConvertFakeUrl,
    /// null.
    ContextMenuSetItems,
    /// Not a known call: log it and answer null.
    Unhandled,
}

/// The full name of a call: module, '.', method.
pub open spec fn spec_call_name(name: Seq<char>, method: Seq<char>) -> Seq<char> {
    name + "."@ + method
}

/// The route of a synchronous call by its full name.
pub open spec fn spec_sync_route(full: Seq<char>) -> SyncRoute {
    if full == "setting.get"@ {
        SyncRoute::SettingGet
    } else if full == "setting.loadAll"@ {
        SyncRoute::SettingLoadAll
    } else if full == "clipboard.readText"@ {
        SyncRoute::ClipboardReadText
    } else if full == "path.readText"@ {
        SyncRoute::PathReadText
    } else if full == "document.isDocumentEdited"@ {
        SyncRoute::IsDocumentEdited
    } else if full == "images.convertFakeUrl"@ {
        SyncRoute::ConvertFakeUrl
    } else if full == "contextMenu.setItems"@ {
        SyncRoute::ContextMenuSetItems
    } else {
        SyncRoute::Unhandled
    }
}

/// The full name of the call `name.method`.
pub fn call_name(name: &str, method: &str) -> (full: String)
    ensures
        full@ == spec_call_name(name@, method@),
{
    let mut full = String::from_str(name);
    full.append(".");
    full.append(method);
    full
}

/// The route of the synchronous call `name.method`.
pub fn route_sync_call(name: &str, method: &str) -> (route: SyncRoute)
    ensures
        route == spec_sync_route(spec_call_name(name@, method@)),
{
    let full = call_name(name, method);
    let f = full.as_str();
    if text_eq(f, "setting.get") {
        SyncRoute::SettingGet
    } else if text_eq(f, "setting.loadAll") {
        SyncRoute::SettingLoadAll
    } else if text_eq(f, "clipboard.readText") {
        SyncRoute::ClipboardReadText
    } else if text_eq(f, "path.readText") {
        SyncRoute::PathReadText
    } else if text_eq(f, "document.isDocumentEdited") {
        SyncRoute::IsDocumentEdited
    } else if text_eq(f, "images.convertFakeUrl") {
        SyncRoute::ConvertFakeUrl
    } else if text_eq(f, "contextMenu.setItems") {
        SyncRoute::ContextMenuSetItems
    } else {
        SyncRoute::Unhandled
    }
}

/// The fields of a synchronous call request `{name, method, data}` as the
/// host reads them: `None` when the text is not JSON; else the name, the
/// method and the data, each when it is a JSON string.
pub uninterp spec fn json_call_request(payload: Seq<char>) -> Option<(Option<Seq<char>>, Option<Seq<char>>, Option<Seq<char>>)>;

/// Three optional strings taken by their characters.
pub open spec fn request_parts_view(parts: Option<(Option<String>, Option<String>, Option<String>)>) -> Option<(Option<Seq<char>>, Option<Seq<char>>, Option<Seq<char>>)> {
    match parts {
        Some((n, m, d)) => Some((opt_view(n), opt_view(m), opt_view(d))),
        None => None,
    }
}

/// Parses `payload` with `serde_json::from_str` into a `serde_json::Value`
/// and takes its "name", "method" and "data" members with `Value::as_str`.
/// The contract claims only that the result is the function
/// `json_call_request` of the payload's characters.
#[verifier::external_body]
fn parse_call_request(payload: &str) -> (parts: Option<(Option<String>, Option<String>, Option<String>)>)
    ensures
        request_parts_view(parts) == json_call_request(payload@),
{
    let v: serde_json::Value = serde_json::from_str(payload).ok()?;
    Some((
        v["name"].as_str().map(String::from),
        v["method"].as_str().map(String::from),
        v["data"].as_str().map(String::from),
    ))
}

/// A synchronous call as the host answers it.
#[derive(Debug)]
pub struct SyncRequest {
    /// `name.method`, with a missing part taken as empty.
    pub full_name: String,
    pub route: SyncRoute,
    /// The data when it is a string, else empty.
    pub data_text: String,
}

/// The text of an optional string, empty when there is none.
pub open spec fn text_or_empty(s: Option<Seq<char>>) -> Seq<char> {
    match s {
        Some(t) => t,
        None => Seq::empty(),
    }
}

/// The request made of parsed parts (see `json_call_request`).
pub open spec fn spec_sync_request(parts: Option<(Option<Seq<char>>, Option<Seq<char>>, Option<Seq<char>>)>) -> Option<(Seq<char>, SyncRoute, Seq<char>)> {
    match parts {
        Some((n, m, d)) => {
            let full = spec_call_name(text_or_empty(n), text_or_empty(m));
            Some((full, spec_sync_route(full), text_or_empty(d)))
        },
        None => None,
    }
}

/// `SyncRequest` taken by its characters.
pub open spec fn sync_request_view(r: Option<SyncRequest>) -> Option<(Seq<char>, SyncRoute, Seq<char>)> {
    match r {
        Some(q) => Some((q.full_name@, q.route, q.data_text@)),
        None => None,
    }
}

fn own_or_empty(s: Option<String>) -> (t: String)
    ensures
        t@ == text_or_empty(opt_view(s)),
{
    match s {
        Some(t) => t,
        None => String::new(),
    }
}

/// The request made of the parsed parts of a call; `None` (answered with
/// null) when the request was not JSON.
pub fn sync_request_from_parts(parts: Option<(Option<String>, Option<String>, Option<String>)>) -> (r: Option<SyncRequest>)
    ensures
        sync_request_view(r) == spec_sync_request(request_parts_view(parts)),
{
    match parts {
        Some((n, m, d)) => {
            let name = own_or_empty(n);
            let method = own_or_empty(m);
            let route = route_sync_call(name.as_str(), method.as_str());
            let full_name = call_name(name.as_str(), method.as_str());
            Some(SyncRequest { full_name, route, data_text: own_or_empty(d) })
        },
        None => None,
    }
}

/// Reads a synchronous call request (the JSON text `{name, method, data}`).
pub fn read_call_request(payload: &str) -> (r: Option<SyncRequest>)
    ensures
        sync_request_view(r) == spec_sync_request(json_call_request(payload@)),
{
    sync_request_from_parts(parse_call_request(payload))
}

/// How a JavaScript prompt of the page is answered.
#[derive(Debug)]
pub enum PromptAnswer {
    /// A synchronous bridge call whose JSON request is this text; its result
    /// is the answer.
    CallSync(String),
    /// This text.
    Text(String),
}

/// A `PromptAnswer` taken by its characters: `(is a call, text)`.
pub open spec fn prompt_answer_view(a: PromptAnswer) -> (bool, Seq<char>) {
    match a {
        PromptAnswer::CallSync(s) => (true, s@),
        PromptAnswer::Text(s) => (false, s@),
    }
}

/// The answer to `prompt(message, default_text)`: "__bridge__" carries a
/// synchronous call in the default text, "__alert__" is dismissed,
/// "__confirm__" is confirmed, and any other prompt gets its default text.
pub open spec fn spec_prompt_answer(message: Seq<char>, default_text: Seq<char>) -> (bool, Seq<char>) {
    if message == "__bridge__"@ {
        (true, default_text)
    } else if message == "__alert__"@ {
        (false, Seq::empty())
    } else if message == "__confirm__"@ {
        (false, "true"@)
    } else {
        (false, default_text)
    }
}

/// How to answer `prompt(message, default_text)` from the page.
pub fn answer_prompt(message: &str, default_text: &str) -> (answer: PromptAnswer)
    ensures
        prompt_answer_view(answer) == spec_prompt_answer(message@, default_text@),
{
    if text_eq(message, "__bridge__") {
        PromptAnswer::CallSync(String::from_str(default_text))
    } else if text_eq(message, "__alert__") {
        PromptAnswer::Text(String::new())
    } else if text_eq(message, "__confirm__") {
        PromptAnswer::Text(String::from_str("true"))
    } else {
        PromptAnswer::Text(String::from_str(default_text))
    }
}

/// `s` with a backslash put before every `'`.
pub open spec fn escape_quotes(s: Seq<char>) -> Seq<char>
    decreases s.len(),
{
    if s.len() == 0 {
        Seq::empty()
    } else if s.last() == '\'' {
        escape_quotes(s.drop_last()) + seq!['\\', '\'']
    } else {
        escape_quotes(s.drop_last()).push(s.last())
    }
}

/// The script that makes the editor jump to `#anchor`.
pub open spec fn spec_jump_script(anchor: Seq<char>) -> Seq<char> {
    "File.editor && File.editor.tryOpenUrl('#"@ + escape_quotes(anchor) + "')"@
}

/// The script that makes the editor jump to `#anchor`, with the quotes in
/// the anchor escaped.
pub fn jump_to_anchor_script(anchor: &str) -> (script: String)
    ensures
        script@ == spec_jump_script(anchor@),
{
    let chars = chars_of(anchor);
    let mut script = String::from_str("File.editor && File.editor.tryOpenUrl('#");
    let ghost prefix = script@;
    let mut i: usize = 0;
    while i < chars.len()
        invariant
            chars@ == anchor@,
            i <= chars.len(),
            script@ == prefix + escape_quotes(anchor@.take(i as int)),
        decreases chars.len() - i,
    {
        let c = chars[i];
        assert(anchor@.take(i + 1).drop_last() =~= anchor@.take(i as int));
        assert(anchor@.take(i + 1).last() == c);
        if c == '\'' {
            push_char(&mut script, '\\');
            push_char(&mut script, '\'');
            assert(script@ =~= prefix + escape_quotes(anchor@.take(i + 1)));
        } else {
            push_char(&mut script, c);
            assert(script@ =~= prefix + escape_quotes(anchor@.take(i + 1)));
        }
        i = i + 1;
    }
    assert(anchor@.take(chars.len() as int) =~= anchor@);
    script.append("')");
    script
}

/// The lengths of the synchronous call names, and a character at which two
/// names of the same length differ.
proof fn lemma_sync_name_facts()
    ensures
        "setting.get"@.len() == 11,
        "setting.loadAll"@.len() == 15,
        "clipboard.readText"@.len() == 18,
        "path.readText"@.len() == 13,
        "document.isDocumentEdited"@.len() == 25,
        "images.convertFakeUrl"@.len() == 21,
        "contextMenu.setItems"@.len() == 20,
{
    reveal_strlit("setting.get");
    reveal_strlit("setting.loadAll");
    reveal_strlit("clipboard.readText");
    reveal_strlit("path.readText");
    reveal_strlit("document.isDocumentEdited");
    reveal_strlit("images.convertFakeUrl");
    reveal_strlit("contextMenu.setItems");
}

/// Each synchronous call `name.method` reaches the answer of its own.
pub proof fn lemma_sync_routes_by_name()
    ensures
        spec_sync_route(spec_call_name("setting"@, "get"@)) == SyncRoute::SettingGet,
        spec_sync_route(spec_call_name("setting"@, "loadAll"@)) == SyncRoute::SettingLoadAll,
        spec_sync_route(spec_call_name("clipboard"@, "readText"@)) == SyncRoute::ClipboardReadText,
        spec_sync_route(spec_call_name("path"@, "readText"@)) == SyncRoute::PathReadText,
        spec_sync_route(spec_call_name("document"@, "isDocumentEdited"@)) == SyncRoute::IsDocumentEdited,
        spec_sync_route(spec_call_name("images"@, "convertFakeUrl"@)) == SyncRoute::ConvertFakeUrl,
        spec_sync_route(spec_call_name("contextMenu"@, "setItems"@)) == SyncRoute::ContextMenuSetItems,
{
    lemma_sync_name_facts();
    reveal_strlit(".");
    reveal_strlit("setting");
    reveal_strlit("get");
    reveal_strlit("setting.get");
    assert(spec_call_name("setting"@, "get"@) =~= "setting.get"@);
    reveal_strlit("setting");
    reveal_strlit("loadAll");
    reveal_strlit("setting.loadAll");
    assert(spec_call_name("setting"@, "loadAll"@) =~= "setting.loadAll"@);
    reveal_strlit("clipboard");
    reveal_strlit("readText");
    reveal_strlit("clipboard.readText");
    assert(spec_call_name("clipboard"@, "readText"@) =~= "clipboard.readText"@);
    reveal_strlit("path");
    reveal_strlit("readText");
    reveal_strlit("path.readText");
    assert(spec_call_name("path"@, "readText"@) =~= "path.readText"@);
    reveal_strlit("document");
    reveal_strlit("isDocumentEdited");
    reveal_strlit("document.isDocumentEdited");
    assert(spec_call_name("document"@, "isDocumentEdited"@) =~= "document.isDocumentEdited"@);
    reveal_strlit("images");
    reveal_strlit("convertFakeUrl");
    reveal_strlit("images.convertFakeUrl");
    assert(spec_call_name("images"@, "convertFakeUrl"@) =~= "images.convertFakeUrl"@);
    reveal_strlit("contextMenu");
    reveal_strlit("setItems");
    reveal_strlit("contextMenu.setItems");
    assert(spec_call_name("contextMenu"@, "setItems"@) =~= "contextMenu.setItems"@);
}

/// The lengths of the prompt messages the page uses for the bridge.
proof fn lemma_prompt_name_facts()
    ensures
        "__bridge__"@.len() == 10,
        "__alert__"@.len() == 9,
        "__confirm__"@.len() == 11,
{
    reveal_strlit("__bridge__");
    reveal_strlit("__alert__");
    reveal_strlit("__confirm__");
}

/// A "__bridge__" prompt runs the call in its default text; an "__alert__"
/// is dismissed with nothing; a "__confirm__" is confirmed with "true"; any
/// other prompt is answered with its default text.
pub proof fn lemma_prompt_answers(default_text: Seq<char>, other: Seq<char>)
    requires
        other != "__bridge__"@,
        other != "__alert__"@,
        other != "__confirm__"@,
    ensures
        spec_prompt_answer("__bridge__"@, default_text) == (true, default_text),
        spec_prompt_answer("__alert__"@, default_text) == (false, Seq::<char>::empty()),
        spec_prompt_answer("__confirm__"@, default_text) == (false, "true"@),
        spec_prompt_answer(other, default_text) == (false, default_text),
{
    lemma_prompt_name_facts();
}

/// A message with a callback id is always answered; one without is a smoke
/// report when its handler is "notypo.smoke" and a notification otherwise.
pub proof fn lemma_message_kinds(handler: Seq<char>)
    ensures
        spec_message_kind(handler, true) == MessageKind::Respond,
        spec_message_kind("notypo.smoke"@, false) == MessageKind::SmokeReport,
        handler != "notypo.smoke"@ ==> spec_message_kind(handler, false) == MessageKind::Notify,
{
}

/// Which routes answer with something they read or compute, and the fixed
/// answer of every other route: the document, dialog, save, folder, recent
/// list, path test, clipboard read and library routes compute theirs; content
/// syncs, file opens, window drags, recent-file updates and file moves and
/// removals answer true; the always-on-top query answers false; queries and
/// searches answer an empty list; the recent folders are none; everything
/// else answers null.
pub proof fn lemma_fixed_answers()
    ensures
        spec_fixed_answer(BridgeRoute::LoadData) is None,
        spec_fixed_answer(BridgeRoute::SwitchDocument) is None,
        spec_fixed_answer(BridgeRoute::GetContent) is None,
        spec_fixed_answer(BridgeRoute::SetContent) is None,
        spec_fixed_answer(BridgeRoute::SelectFolderOrFile) is None,
        spec_fixed_answer(BridgeRoute::ShowSaveDialog) is None,
        spec_fixed_answer(BridgeRoute::OpenFileOrFolder) is None,
        spec_fixed_answer(BridgeRoute::Save) is None,
        spec_fixed_answer(BridgeRoute::SaveAs) is None,
        spec_fixed_answer(BridgeRoute::ShouldLoadFolder) is None,
        spec_fixed_answer(BridgeRoute::GetRecentFiles) is None,
        spec_fixed_answer(BridgeRoute::IsDirectory) is None,
        spec_fixed_answer(BridgeRoute::CalcMountFolder) is None,
        spec_fixed_answer(BridgeRoute::SwitchDocumentTarget) is None,
        spec_fixed_answer(BridgeRoute::ClipboardRead) is None,
        spec_fixed_answer(BridgeRoute::FetchAllDocs) is None,
        spec_fixed_answer(BridgeRoute::ListDocsUnder) is None,
        spec_fixed_answer(BridgeRoute::SyncFullContent) == Some(FixedAnswer::True),
        spec_fixed_answer(BridgeRoute::OpenFile) == Some(FixedAnswer::True),
        spec_fixed_answer(BridgeRoute::DragBy) == Some(FixedAnswer::True),
        spec_fixed_answer(BridgeRoute::AnswerTrue) == Some(FixedAnswer::True),
        spec_fixed_answer(BridgeRoute::UpdateRecentFile) == Some(FixedAnswer::True),
        spec_fixed_answer(BridgeRoute::RemoveRecentDocument) == Some(FixedAnswer::True),
        spec_fixed_answer(BridgeRoute::CacheRecentFiles) == Some(FixedAnswer::True),
        spec_fixed_answer(BridgeRoute::MoveFile) == Some(FixedAnswer::True),
        spec_fixed_answer(BridgeRoute::RemoveFiles) == Some(FixedAnswer::True),
        spec_fixed_answer(BridgeRoute::AnswerFalse) == Some(FixedAnswer::False),
        spec_fixed_answer(BridgeRoute::EmptyList) == Some(FixedAnswer::EmptyList),
        spec_fixed_answer(BridgeRoute::NoRecentFolders) == Some(FixedAnswer::NoFolders),
        spec_fixed_answer(BridgeRoute::UpdateChangeCount) == Some(FixedAnswer::Null),
        spec_fixed_answer(BridgeRoute::UpdateChangeCountIfUnedited) == Some(FixedAnswer::Null),
        spec_fixed_answer(BridgeRoute::Ignored) == Some(FixedAnswer::Null),
        spec_fixed_answer(BridgeRoute::ExecForAll) == Some(FixedAnswer::Null),
        spec_fixed_answer(BridgeRoute::Focus) == Some(FixedAnswer::Null),
        spec_fixed_answer(BridgeRoute::ResetZoom) == Some(FixedAnswer::Null),
        spec_fixed_answer(BridgeRoute::ZoomIn) == Some(FixedAnswer::Null),
        spec_fixed_answer(BridgeRoute::ZoomOut) == Some(FixedAnswer::Null),
        spec_fixed_answer(BridgeRoute::ShowDialog) == Some(FixedAnswer::Null),
        spec_fixed_answer(BridgeRoute::PasteAsPlainText) == Some(FixedAnswer::Null),
        spec_fixed_answer(BridgeRoute::OpenUrl) == Some(FixedAnswer::Null),
        spec_fixed_answer(BridgeRoute::OpenFolderInFinder) == Some(FixedAnswer::Null),
        spec_fixed_answer(BridgeRoute::ShowInFinder) == Some(FixedAnswer::Null),
        spec_fixed_answer(BridgeRoute::OpenFolder) == Some(FixedAnswer::Null),
        spec_fixed_answer(BridgeRoute::RunCommand) == Some(FixedAnswer::Null),
        spec_fixed_answer(BridgeRoute::SelectFolder) == Some(FixedAnswer::Null),
        spec_fixed_answer(BridgeRoute::OpenInWindow) == Some(FixedAnswer::Null),
        spec_fixed_answer(BridgeRoute::ShowErrorDialog) == Some(FixedAnswer::Null),
        spec_fixed_answer(BridgeRoute::ClipboardWrite) == Some(FixedAnswer::Null),
        spec_fixed_answer(BridgeRoute::JumpToAnchor) == Some(FixedAnswer::Null),
        spec_fixed_answer(BridgeRoute::Unhandled) == Some(FixedAnswer::Null),
{
}

/// Escaping works on each character by itself: a quote becomes a backslash
/// and the quote, every other character stays, and the escaping of a text
/// joined from two parts is the two escapings joined.
pub proof fn lemma_escape_quotes(a: Seq<char>, b: Seq<char>, c: char)
    ensures
        escape_quotes(a + b) == escape_quotes(a) + escape_quotes(b),
        escape_quotes(seq!['\'']) == seq!['\\', '\''],
        c != '\'' ==> escape_quotes(seq![c]) == seq![c],
    decreases b.len(),
{
    assert(escape_quotes(Seq::<char>::empty()) == Seq::<char>::empty());
    assert(seq!['\''].drop_last() =~= Seq::<char>::empty());
    assert(seq![c].drop_last() =~= Seq::<char>::empty());
    assert(seq!['\''].last() == '\'');
    assert(seq![c].last() == c);
    assert(Seq::<char>::empty() + seq!['\\', '\''] =~= seq!['\\', '\'']);
    assert(Seq::<char>::empty().push(c) =~= seq![c]);
    if b.len() == 0 {
        assert(a + b =~= a);
        assert(escape_quotes(a) + escape_quotes(b) =~= escape_quotes(a));
    } else {
        assert((a + b).drop_last() =~= a + b.drop_last());
        assert((a + b).last() == b.last());
        lemma_escape_quotes(a, b.drop_last(), c);
        if b.last() == '\'' {
            assert(escape_quotes(a + b) =~= escape_quotes(a) + escape_quotes(b));
        } else {
            assert(escape_quotes(a + b) =~= escape_quotes(a) + escape_quotes(b));
        }
    }
}

} // verus!
