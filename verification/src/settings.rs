//! The settings the editor reads, and the theme that follows the system
//! appearance.

use vstd::prelude::*;
use vstd::string::*;
use crate::text::{contains, has_infix, text_eq};

verus! {

/// The value of one setting. `DefaultZoom` is the zoom factor 1.0.
#[derive(Debug)]
pub enum SettingValue {
    Text(String),
    Flag(bool),
    Integer(u32),
    DefaultZoom,
}

/// A `SettingValue` taken by its characters.
pub enum SettingView {
    Text(Seq<char>),
    Flag(bool),
    Integer(int),
    DefaultZoom,
}

impl View for SettingValue {
    type V = SettingView;

    open spec fn view(&self) -> SettingView {
        match self {
            SettingValue::Text(s) => SettingView::Text(s@),
            SettingValue::Flag(b) => SettingView::Flag(*b),
            SettingValue::Integer(n) => SettingView::Integer(*n as int),
            SettingValue::DefaultZoom => SettingView::DefaultZoom,
        }
    }
}

/// The theme for the system appearance: "night" in Dark Mode, else "github".
pub open spec fn spec_theme(dark: bool) -> Seq<char> {
    if dark { "night"@ } else { "github"@ }
}

/// The theme for the system appearance.
pub fn current_theme(system_is_dark: bool) -> (theme: &'static str)
    ensures
        theme@ == spec_theme(system_is_dark),
{
    if system_is_dark { "night" } else { "github" }
}

/// Whether the appearance that best matches the system (by its name) is a
/// dark one.
pub fn appearance_is_dark(best_match: Option<String>) -> (dark: bool)
    ensures
        dark == (match best_match {
            Some(name) => has_infix(name@, "Dark"@),
            None => false,
        }),
{
    match best_match {
        Some(name) => contains(name.as_str(), "Dark"),
        None => false,
    }
}

/// The value of the setting `key`, for the given theme and assets folder.
pub open spec fn spec_setting(key: Seq<char>, theme: Seq<char>, assets: Seq<char>) -> Option<SettingView> {
    if key == "theme"@ || key == "curTheme"@ {
        Some(SettingView::Text(theme))
    } else if key == "hasLicense"@ {
        Some(SettingView::Flag(true))
    } else if key == "currentThemeFolder"@ {
        Some(SettingView::Text(assets + "/style/themes"@))
    } else if key == "zoomFactor"@ {
        Some(SettingView::DefaultZoom)
    } else if key == "sidebarTab"@ {
        Some(SettingView::Text("outline"@))
    } else if key == "sidebarWidth"@ {
        Some(SettingView::Integer(260))
    } else if key == "useTreeStyle"@ {
        Some(SettingView::Flag(true))
    } else if key == "useCRLF"@ {
        Some(SettingView::Flag(false))
    } else if key == "autoPair"@ {
        Some(SettingView::Flag(true))
    } else if key == "autoMatch"@ {
        Some(SettingView::Flag(true))
    } else if key == "exportType"@ {
        Some(SettingView::Text("html"@))
    } else if key == "isEncodeUTF8"@ {
        Some(SettingView::Flag(true))
    } else if key == "fontSize"@ || key == "editorFontSize"@ {
        Some(SettingView::Integer(14))
    } else if key == "fontFamily"@ || key == "editorFontFamily"@ {
        Some(SettingView::Text("Menlo"@))
    } else {
        None
    }
}

/// `Option<SettingValue>` taken by its view.
pub open spec fn setting_view(v: Option<SettingValue>) -> Option<SettingView> {
    match v {
        Some(x) => Some(x@),
        None => None,
    }
}

/// The value of the setting `key` (`setting.get`), for the current theme
/// and the folder of the editor assets.
pub fn setting_get(key: &str, theme: &str, assets: &str) -> (value: Option<SettingValue>)
    ensures
        setting_view(value) == spec_setting(key@, theme@, assets@),
{
    if text_eq(key, "theme") || text_eq(key, "curTheme") {
        Some(SettingValue::Text(String::from_str(theme)))
    } else if text_eq(key, "hasLicense") {
        Some(SettingValue::Flag(true))
    } else if text_eq(key, "currentThemeFolder") {
        let mut folder = String::from_str(assets);
        folder.append("/style/themes");
        Some(SettingValue::Text(folder))
    } else if text_eq(key, "zoomFactor") {
        Some(SettingValue::DefaultZoom)
    } else if text_eq(key, "sidebarTab") {
        Some(SettingValue::Text(String::from_str("outline")))
    } else if text_eq(key, "sidebarWidth") {
        Some(SettingValue::Integer(260))
    } else if text_eq(key, "useTreeStyle") {
        Some(SettingValue::Flag(true))
    } else if text_eq(key, "useCRLF") {
        Some(SettingValue::Flag(false))
    } else if text_eq(key, "autoPair") {
        Some(SettingValue::Flag(true))
    } else if text_eq(key, "autoMatch") {
        Some(SettingValue::Flag(true))
    } else if text_eq(key, "exportType") {
        Some(SettingValue::Text(String::from_str("html")))
    } else if text_eq(key, "isEncodeUTF8") {
        Some(SettingValue::Flag(true))
    } else if text_eq(key, "fontSize") || text_eq(key, "editorFontSize") {
        Some(SettingValue::Integer(14))
    } else if text_eq(key, "fontFamily") || text_eq(key, "editorFontFamily") {
        Some(SettingValue::Text(String::from_str("Menlo")))
    } else {
        None
    }
}

/// The keys that `setting.loadAll` answers, in order.
pub open spec fn setting_keys() -> Seq<Seq<char>> {
    seq![
        "theme"@, "curTheme"@, "hasLicense"@, "currentThemeFolder"@, "zoomFactor"@,
        "sidebarTab"@, "sidebarWidth"@, "useTreeStyle"@, "useCRLF"@, "autoPair"@, "autoMatch"@,
        "exportType"@, "isEncodeUTF8"@, "fontSize"@, "editorFontSize"@,
        "fontFamily"@, "editorFontFamily"@,
    ]
}

/// Every setting with its key, in the order of `setting_keys`
/// (`setting.loadAll`).
pub fn settings_all(theme: &str, assets: &str) -> (all: Vec<(String, SettingValue)>)
    ensures
        all.len() == setting_keys().len(),
        forall|i: int| 0 <= i < all.len() ==> {
            &&& (#[trigger] all@[i]).0@ == setting_keys()[i]
            &&& Some(all@[i].1@) == spec_setting(setting_keys()[i], theme@, assets@)
        },
{
    let keys: [&str; 17] = [
        "theme", "curTheme", "hasLicense", "currentThemeFolder", "zoomFactor",
        "sidebarTab", "sidebarWidth", "useTreeStyle", "useCRLF", "autoPair", "autoMatch",
        "exportType", "isEncodeUTF8", "fontSize", "editorFontSize",
        "fontFamily", "editorFontFamily",
    ];
    assert(keys@.map_values(|k: &str| k@) =~= setting_keys());
    let mut all: Vec<(String, SettingValue)> = Vec::new();
    let mut i: usize = 0;
    while i < 17
        invariant
            i <= 17,
            keys@.map_values(|k: &str| k@) == setting_keys(),
            all.len() == i,
            forall|k: int| 0 <= k < i ==> {
                &&& (#[trigger] all@[k]).0@ == setting_keys()[k]
                &&& Some(all@[k].1@) == spec_setting(setting_keys()[k], theme@, assets@)
            },
        decreases 17 - i,
    {
        let key = keys[i];
        assert(key@ == setting_keys()[i as int]);
        if let Some(v) = setting_get(key, theme, assets) {
            all.push((String::from_str(key), v));
        } else {
            assert(false);
        }
        i = i + 1;
    }
    all
}

/// The lengths of the setting keys, and a character at which two keys of
/// the same length differ.
proof fn lemma_setting_key_facts()
    ensures
        "theme"@.len() == 5,
        "curTheme"@.len() == 8,
        "hasLicense"@.len() == 10,
        "currentThemeFolder"@.len() == 18,
        "zoomFactor"@.len() == 10,
        "sidebarTab"@.len() == 10,
        "sidebarWidth"@.len() == 12,
        "useTreeStyle"@.len() == 12,
        "useCRLF"@.len() == 7,
        "autoPair"@.len() == 8,
        "autoMatch"@.len() == 9,
        "exportType"@.len() == 10,
        "isEncodeUTF8"@.len() == 12,
        "fontSize"@.len() == 8,
        "editorFontSize"@.len() == 14,
        "fontFamily"@.len() == 10,
        "editorFontFamily"@.len() == 16,
        "curTheme"@[0] != "autoPair"@[0],
        "curTheme"@[0] != "fontSize"@[0],
        "hasLicense"@[0] != "zoomFactor"@[0],
        "hasLicense"@[0] != "sidebarTab"@[0],
        "hasLicense"@[0] != "exportType"@[0],
        "hasLicense"@[0] != "fontFamily"@[0],
        "zoomFactor"@[0] != "sidebarTab"@[0],
        "zoomFactor"@[0] != "exportType"@[0],
        "zoomFactor"@[0] != "fontFamily"@[0],
        "sidebarTab"@[0] != "exportType"@[0],
        "sidebarTab"@[0] != "fontFamily"@[0],
        "sidebarWidth"@[0] != "useTreeStyle"@[0],
        "sidebarWidth"@[0] != "isEncodeUTF8"@[0],
        "useTreeStyle"@[0] != "isEncodeUTF8"@[0],
        "autoPair"@[0] != "fontSize"@[0],
        "exportType"@[0] != "fontFamily"@[0],
{
    reveal_strlit("theme");
    reveal_strlit("curTheme");
    reveal_strlit("hasLicense");
    reveal_strlit("currentThemeFolder");
    reveal_strlit("zoomFactor");
    reveal_strlit("sidebarTab");
    reveal_strlit("sidebarWidth");
    reveal_strlit("useTreeStyle");
    reveal_strlit("useCRLF");
    reveal_strlit("autoPair");
    reveal_strlit("autoMatch");
    reveal_strlit("exportType");
    reveal_strlit("isEncodeUTF8");
    reveal_strlit("fontSize");
    reveal_strlit("editorFontSize");
    reveal_strlit("fontFamily");
    reveal_strlit("editorFontFamily");
}

/// The value of every setting, whatever the theme and the assets folder:
/// the two theme keys give the theme, the theme folder lies under the assets
/// folder, the document is UTF-8 with LF line ends, pairs are closed
/// automatically, the sidebar shows the outline, 260 wide, as a tree, the
/// font is Menlo at 14, export is to HTML, the zoom is the default one, and
/// the license is held.
pub proof fn lemma_setting_values(theme: Seq<char>, assets: Seq<char>)
    ensures
        spec_setting("theme"@, theme, assets) == Some(SettingView::Text(theme)),
        spec_setting("curTheme"@, theme, assets) == Some(SettingView::Text(theme)),
        spec_setting("hasLicense"@, theme, assets) == Some(SettingView::Flag(true)),
        spec_setting("currentThemeFolder"@, theme, assets) == Some(SettingView::Text(assets + "/style/themes"@)),
        spec_setting("zoomFactor"@, theme, assets) == Some(SettingView::DefaultZoom),
        spec_setting("sidebarTab"@, theme, assets) == Some(SettingView::Text("outline"@)),
        spec_setting("sidebarWidth"@, theme, assets) == Some(SettingView::Integer(260)),
        spec_setting("useTreeStyle"@, theme, assets) == Some(SettingView::Flag(true)),
        spec_setting("useCRLF"@, theme, assets) == Some(SettingView::Flag(false)),
        spec_setting("autoPair"@, theme, assets) == Some(SettingView::Flag(true)),
        spec_setting("autoMatch"@, theme, assets) == Some(SettingView::Flag(true)),
        spec_setting("exportType"@, theme, assets) == Some(SettingView::Text("html"@)),
        spec_setting("isEncodeUTF8"@, theme, assets) == Some(SettingView::Flag(true)),
        spec_setting("fontSize"@, theme, assets) == Some(SettingView::Integer(14)),
        spec_setting("editorFontSize"@, theme, assets) == Some(SettingView::Integer(14)),
        spec_setting("fontFamily"@, theme, assets) == Some(SettingView::Text("Menlo"@)),
        spec_setting("editorFontFamily"@, theme, assets) == Some(SettingView::Text("Menlo"@)),
{
    lemma_setting_key_facts();
}

/// Only the listed keys have a value.
pub proof fn lemma_unknown_setting(key: Seq<char>, theme: Seq<char>, assets: Seq<char>)
    requires
        !setting_keys().contains(key),
    ensures
        spec_setting(key, theme, assets) is None,
{
    assert(setting_keys()[0] == "theme"@);
    assert(setting_keys()[1] == "curTheme"@);
    assert(setting_keys()[2] == "hasLicense"@);
    assert(setting_keys()[3] == "currentThemeFolder"@);
    assert(setting_keys()[4] == "zoomFactor"@);
    assert(setting_keys()[5] == "sidebarTab"@);
    assert(setting_keys()[6] == "sidebarWidth"@);
    assert(setting_keys()[7] == "useTreeStyle"@);
    assert(setting_keys()[8] == "useCRLF"@);
    assert(setting_keys()[9] == "autoPair"@);
    assert(setting_keys()[10] == "autoMatch"@);
    assert(setting_keys()[11] == "exportType"@);
    assert(setting_keys()[12] == "isEncodeUTF8"@);
    assert(setting_keys()[13] == "fontSize"@);
    assert(setting_keys()[14] == "editorFontSize"@);
    assert(setting_keys()[15] == "fontFamily"@);
    assert(setting_keys()[16] == "editorFontFamily"@);
}

/// `setting.loadAll` leaves no setting out: every key that has a value is
/// one of the keys it answers.
pub proof fn lemma_setting_keys_complete(key: Seq<char>, theme: Seq<char>, assets: Seq<char>)
    requires
        spec_setting(key, theme, assets) is Some,
    ensures
        setting_keys().contains(key),
{
    if key == "theme"@ { assert(setting_keys()[0] == key); }
    if key == "curTheme"@ { assert(setting_keys()[1] == key); }
    if key == "hasLicense"@ { assert(setting_keys()[2] == key); }
    if key == "currentThemeFolder"@ { assert(setting_keys()[3] == key); }
    if key == "zoomFactor"@ { assert(setting_keys()[4] == key); }
    if key == "sidebarTab"@ { assert(setting_keys()[5] == key); }
    if key == "sidebarWidth"@ { assert(setting_keys()[6] == key); }
    if key == "useTreeStyle"@ { assert(setting_keys()[7] == key); }
    if key == "useCRLF"@ { assert(setting_keys()[8] == key); }
    if key == "autoPair"@ { assert(setting_keys()[9] == key); }
    if key == "autoMatch"@ { assert(setting_keys()[10] == key); }
    if key == "exportType"@ { assert(setting_keys()[11] == key); }
    if key == "isEncodeUTF8"@ { assert(setting_keys()[12] == key); }
    if key == "fontSize"@ { assert(setting_keys()[13] == key); }
    if key == "editorFontSize"@ { assert(setting_keys()[14] == key); }
    if key == "fontFamily"@ { assert(setting_keys()[15] == key); }
    if key == "editorFontFamily"@ { assert(setting_keys()[16] == key); }
}

/// Dark Mode picks the "night" theme and the light appearance "github";
/// an appearance counts as dark exactly when its name holds "Dark".
pub proof fn lemma_theme_follows_appearance(before: Seq<char>, after: Seq<char>)
    ensures
        spec_theme(true) == "night"@,
        spec_theme(false) == "github"@,
        has_infix(before + "Dark"@ + after, "Dark"@),
{
    crate::text::lemma_has_infix_iff(before + "Dark"@ + after, "Dark"@);
}

} // verus!
