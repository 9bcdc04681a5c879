//! Scripts the host runs in the editor page.

use vstd::prelude::*;
use vstd::string::*;

verus! {

/// The script that switches the page to `theme`.
pub open spec fn spec_theme_script(theme: Seq<char>) -> Seq<char> {
    "window.__notypoSetTheme && window.__notypoSetTheme('"@ + theme + "');"@
}

/// The script that switches the page to `theme`.
pub fn set_theme_script(theme: &str) -> (script: String)
    ensures
        script@ == spec_theme_script(theme@),
{
    let mut script = String::from_str("window.__notypoSetTheme && window.__notypoSetTheme('");
    script.append(theme);
    script.append("');");
    script
}

/// The script run before the editor starts: it sets the editor options from
/// the theme, the folder of the editor assets and the home folder.
pub open spec fn spec_init_options_script(theme: Seq<char>, assets: Seq<char>, home: Seq<char>) -> Seq<char> {
    "window.reqnode=undefined;window.require=undefined;window._options={theme:'"@ + theme
        + "',curTheme:'"@ + theme
        + "',hasLicense:true,enableDiagram:true,currentThemeFolder:'"@ + assets
        + "/style/themes',appPath:'"@ + assets
        + "',userDataPath:'"@ + home
        + "/Library/Application Support/notypo',documentsPath:'"@ + home
        + "/Documents',mountFolder:null,initMountFolder:null,locale:'en',userLocale:'en',osVersion:'macOS',buildTime:'',zoomFactor:1.0,sidebarTab:'outline',sidebarWidth:260,useTreeStyle:true,searchService:'',tooOldToReport:false,onFirstLaunch:false};\nwindow.dirname='';"@
}

/// The script run before the editor starts (see `spec_init_options_script`).
pub fn init_options_script(theme: &str, assets: &str, home: &str) -> (script: String)
    ensures
        script@ == spec_init_options_script(theme@, assets@, home@),
{
    let mut s = String::from_str("window.reqnode=undefined;window.require=undefined;window._options={theme:'");
    s.append(theme);
    s.append("',curTheme:'");
    s.append(theme);
    s.append("',hasLicense:true,enableDiagram:true,currentThemeFolder:'");
    s.append(assets);
    s.append("/style/themes',appPath:'");
    s.append(assets);
    s.append("',userDataPath:'");
    s.append(home);
    s.append("/Library/Application Support/notypo',documentsPath:'");
    s.append(home);
    s.append("/Documents',mountFolder:null,initMountFolder:null,locale:'en',userLocale:'en',osVersion:'macOS',buildTime:'',zoomFactor:1.0,sidebarTab:'outline',sidebarWidth:260,useTreeStyle:true,searchService:'',tooOldToReport:false,onFirstLaunch:false};\nwindow.dirname='';");
    s
}

} // verus!
