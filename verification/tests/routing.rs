use notypo::assets::{asset_file_path, asset_mime, asset_url, mime_from_path};
use notypo::bridge::{
    answer_prompt, call_name, fixed_answer, jump_to_anchor_script, library_folder, message_kind,
    message_text, read_call_request, route_bridge, route_sync_call, sync_request_from_parts,
    BridgeRoute, FixedAnswer, MessageKind, PromptAnswer, SyncRoute,
};
use notypo::scripts::{init_options_script, set_theme_script};
use notypo::settings::{appearance_is_dark, current_theme, setting_get, settings_all, SettingValue};
use notypo::text::{contains, ends_with, starts_with, text_eq, text_le};

#[test]
fn mime_types_by_extension() {
    assert_eq!(mime_from_path("/index.html"), "text/html; charset=utf-8");
    assert_eq!(mime_from_path("/a/app.js"), "application/javascript; charset=utf-8");
    assert_eq!(mime_from_path("s.css"), "text/css; charset=utf-8");
    assert_eq!(mime_from_path("d.json"), "application/json; charset=utf-8");
    assert_eq!(mime_from_path("i.svg"), "image/svg+xml");
    assert_eq!(mime_from_path("i.png"), "image/png");
    assert_eq!(mime_from_path("i.jpg"), "image/jpeg");
    assert_eq!(mime_from_path("i.jpeg"), "image/jpeg");
    assert_eq!(mime_from_path("i.gif"), "image/gif");
    assert_eq!(mime_from_path("f.woff2"), "font/woff2");
    assert_eq!(mime_from_path("f.woff"), "font/woff");
    assert_eq!(mime_from_path("f.ttf"), "font/ttf");
    assert_eq!(mime_from_path("README"), "application/octet-stream");
    assert_eq!(mime_from_path("x.HTML"), "application/octet-stream");
}

#[test]
fn asset_paths_and_answers() {
    assert_eq!(asset_file_path("/assets/TypeMark", "/index.html"), "/assets/TypeMark/index.html");
    assert_eq!(asset_file_path("/assets", "///lib/x.js"), "/assets/lib/x.js");
    assert_eq!(asset_file_path("/assets", ""), "/assets/");
    assert_eq!(asset_mime("/x.css", true), "text/css; charset=utf-8");
    assert_eq!(asset_mime("/x.css", false), "text/plain; charset=utf-8");
    assert_eq!(asset_url("/index.html"), "notypo://app/index.html");
}

#[test]
fn bridge_routes() {
    assert_eq!(route_bridge("controller.switchDocumentTarget"), BridgeRoute::SwitchDocumentTarget);
    assert_eq!(route_bridge("document.loadData"), BridgeRoute::LoadData);
    assert_eq!(route_bridge("controller.syncFullContent"), BridgeRoute::SyncFullContent);
    assert_eq!(route_bridge("document.syncFullContent"), BridgeRoute::SyncFullContent);
    assert_eq!(route_bridge("window.loadFinished"), BridgeRoute::AnswerTrue);
    assert_eq!(route_bridge("window.updateMenuForIsAlwaysOnTop"), BridgeRoute::AnswerFalse);
    assert_eq!(route_bridge("library.search"), BridgeRoute::EmptyList);
    assert_eq!(route_bridge("images.upload"), BridgeRoute::Ignored);
    assert_eq!(route_bridge("path.moveFile"), BridgeRoute::MoveFile);
    assert_eq!(route_bridge("editor.jumpToAnchor"), BridgeRoute::JumpToAnchor);
    assert_eq!(route_bridge("no.suchHandler"), BridgeRoute::Unhandled);
    assert_eq!(route_bridge(""), BridgeRoute::Unhandled);
}

#[test]
fn sync_routes() {
    assert_eq!(call_name("setting", "get"), "setting.get");
    assert_eq!(route_sync_call("setting", "get"), SyncRoute::SettingGet);
    assert_eq!(route_sync_call("setting", "loadAll"), SyncRoute::SettingLoadAll);
    assert_eq!(route_sync_call("document", "isDocumentEdited"), SyncRoute::IsDocumentEdited);
    assert_eq!(route_sync_call("images", "convertFakeUrl"), SyncRoute::ConvertFakeUrl);
    assert_eq!(route_sync_call("path", "readText"), SyncRoute::PathReadText);
    assert_eq!(route_sync_call("clipboard", "readText"), SyncRoute::ClipboardReadText);
    assert_eq!(route_sync_call("contextMenu", "setItems"), SyncRoute::ContextMenuSetItems);
    assert_eq!(route_sync_call("setting.get", ""), SyncRoute::Unhandled);
    assert_eq!(route_sync_call("", ""), SyncRoute::Unhandled);
}

#[test]
fn prompts_and_messages() {
    assert!(matches!(answer_prompt("__bridge__", "{\"name\":\"a\"}"), PromptAnswer::CallSync(s) if s == "{\"name\":\"a\"}"));
    assert!(matches!(answer_prompt("__alert__", "x"), PromptAnswer::Text(s) if s.is_empty()));
    assert!(matches!(answer_prompt("__confirm__", "x"), PromptAnswer::Text(s) if s == "true"));
    assert!(matches!(answer_prompt("Name?", "x"), PromptAnswer::Text(s) if s == "x"));
    assert_eq!(message_kind("anything", true), MessageKind::Respond);
    assert_eq!(message_kind("notypo.smoke", false), MessageKind::SmokeReport);
    assert_eq!(message_kind("notypo.smoke", true), MessageKind::Respond);
    assert_eq!(message_kind("document.setContent", false), MessageKind::Notify);
}

#[test]
fn jump_script_escapes_quotes() {
    assert_eq!(jump_to_anchor_script("intro"), "File.editor && File.editor.tryOpenUrl('#intro')");
    assert_eq!(jump_to_anchor_script("it's"), "File.editor && File.editor.tryOpenUrl('#it\\'s')");
}

#[test]
fn settings_values() {
    assert!(matches!(setting_get("theme", "night", "/a"), Some(SettingValue::Text(s)) if s == "night"));
    assert!(matches!(setting_get("curTheme", "github", "/a"), Some(SettingValue::Text(s)) if s == "github"));
    assert!(matches!(setting_get("currentThemeFolder", "github", "/a"), Some(SettingValue::Text(s)) if s == "/a/style/themes"));
    assert!(matches!(setting_get("zoomFactor", "github", "/a"), Some(SettingValue::DefaultZoom)));
    assert!(matches!(setting_get("sidebarWidth", "github", "/a"), Some(SettingValue::Integer(260))));
    assert!(matches!(setting_get("editorFontSize", "github", "/a"), Some(SettingValue::Integer(14))));
    assert!(matches!(setting_get("useCRLF", "github", "/a"), Some(SettingValue::Flag(false))));
    assert!(matches!(setting_get("hasLicense", "github", "/a"), Some(SettingValue::Flag(true))));
    assert!(matches!(setting_get("fontFamily", "github", "/a"), Some(SettingValue::Text(s)) if s == "Menlo"));
    assert!(setting_get("unknown", "github", "/a").is_none());
    let all = settings_all("night", "/a");
    assert_eq!(all.len(), 17);
    assert_eq!(all[0].0, "theme");
    assert_eq!(all[16].0, "editorFontFamily");
    assert!(matches!(&all[3].1, SettingValue::Text(s) if s == "/a/style/themes"));
}

#[test]
fn theme_follows_appearance() {
    assert_eq!(current_theme(true), "night");
    assert_eq!(current_theme(false), "github");
    assert!(appearance_is_dark(Some("NSAppearanceNameDarkAqua".to_string())));
    assert!(!appearance_is_dark(Some("NSAppearanceNameAqua".to_string())));
    assert!(!appearance_is_dark(None));
}

#[test]
fn page_scripts() {
    assert_eq!(set_theme_script("night"), "window.__notypoSetTheme && window.__notypoSetTheme('night');");
    let s = init_options_script("github", "/app/TypeMark", "/Users/me");
    assert!(s.starts_with("window.reqnode=undefined;window.require=undefined;window._options={theme:'github',curTheme:'github',"));
    assert!(s.contains("currentThemeFolder:'/app/TypeMark/style/themes',appPath:'/app/TypeMark',"));
    assert!(s.contains("userDataPath:'/Users/me/Library/Application Support/notypo',documentsPath:'/Users/me/Documents',"));
    assert!(s.ends_with("onFirstLaunch:false};\nwindow.dirname='';"));
}

#[test]
fn text_helpers() {
    assert!(text_eq("abc", "abc"));
    assert!(!text_eq("abc", "abd"));
    assert!(text_le("abc", "abd"));
    assert!(text_le("ab", "abc"));
    assert!(!text_le("b", "abc"));
    assert!(text_le("B", "a"));
    assert!(ends_with("x.md", ".md"));
    assert!(!ends_with("md", ".md"));
    assert!(starts_with(".git", "."));
    assert!(contains("NSAppearanceNameDarkAqua", "Dark"));
    assert!(!contains("Da", "Dark"));
    assert!(contains("x", ""));
}

#[test]
fn call_requests_from_json() {
    let r = read_call_request("{\"name\":\"setting\",\"method\":\"get\",\"data\":\"theme\"}").unwrap();
    assert_eq!(r.full_name, "setting.get");
    assert_eq!(r.route, SyncRoute::SettingGet);
    assert_eq!(r.data_text, "theme");
    let r = read_call_request("{\"name\":\"document\",\"method\":\"isDocumentEdited\",\"data\":null}").unwrap();
    assert_eq!(r.route, SyncRoute::IsDocumentEdited);
    assert_eq!(r.data_text, "");
    let r = read_call_request("{\"data\":3}").unwrap();
    assert_eq!(r.full_name, ".");
    assert_eq!(r.route, SyncRoute::Unhandled);
    assert!(read_call_request("not json").is_none());
    assert!(read_call_request("").is_none());
}

#[test]
fn call_requests_from_parts() {
    let r = sync_request_from_parts(Some((Some("path".to_string()), Some("readText".to_string()), Some("/tmp/a".to_string())))).unwrap();
    assert_eq!(r.route, SyncRoute::PathReadText);
    assert_eq!(r.data_text, "/tmp/a");
    let r = sync_request_from_parts(Some((None, Some("x".to_string()), None))).unwrap();
    assert_eq!(r.full_name, ".x");
    assert_eq!(r.data_text, "");
    assert!(sync_request_from_parts(None).is_none());
}

#[test]
fn fixed_answers_of_routes() {
    assert_eq!(fixed_answer(BridgeRoute::AnswerTrue), Some(FixedAnswer::True));
    assert_eq!(fixed_answer(BridgeRoute::OpenFile), Some(FixedAnswer::True));
    assert_eq!(fixed_answer(BridgeRoute::SyncFullContent), Some(FixedAnswer::True));
    assert_eq!(fixed_answer(BridgeRoute::AnswerFalse), Some(FixedAnswer::False));
    assert_eq!(fixed_answer(BridgeRoute::EmptyList), Some(FixedAnswer::EmptyList));
    assert_eq!(fixed_answer(BridgeRoute::NoRecentFolders), Some(FixedAnswer::NoFolders));
    assert_eq!(fixed_answer(BridgeRoute::Unhandled), Some(FixedAnswer::Null));
    assert_eq!(fixed_answer(BridgeRoute::UpdateChangeCount), Some(FixedAnswer::Null));
    assert_eq!(fixed_answer(BridgeRoute::SwitchDocumentTarget), None);
    assert_eq!(fixed_answer(BridgeRoute::LoadData), None);
    assert_eq!(fixed_answer(BridgeRoute::FetchAllDocs), None);
}

#[test]
fn message_text_prefers_the_first_place() {
    assert_eq!(message_text(Some("a".to_string()), Some("b".to_string())).as_deref(), Some("a"));
    assert_eq!(message_text(None, Some("b".to_string())).as_deref(), Some("b"));
    assert_eq!(message_text(None, None), None);
    assert_eq!(library_folder(Some("/x".to_string()), Some("/m".to_string())).as_deref(), Some("/x"));
    assert_eq!(library_folder(None, Some("/m".to_string())).as_deref(), Some("/m"));
    assert_eq!(library_folder(None, None), None);
}
